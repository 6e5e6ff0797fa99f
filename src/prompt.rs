//! The rule that reads a one-character answer to a terminal question.
use vstd::prelude::*;

use crate::outside::{char_is_lowercase, is_lower_char};

verus! {

/// Why an answer was not taken.
#[derive(Debug, Clone, Copy, PartialEq, Eq)]
pub enum PromptError {
    /// The choices hold more than one character that is not lower case (or one
    /// that is not ASCII), so no single default can be told.
    InvalidChoices,
    /// The answer is empty and there is no default, or it is no offered choice.
    NoValidAnswer,
    /// The answer is longer than one ASCII character.
    AnswerTooLong,
}

/// `char::to_ascii_lowercase`: ASCII upper-case letters become lower case.
pub open spec fn ascii_lower(c: char) -> char {
    if 'A' <= c <= 'Z' {
        ((c as u32) + 32) as char
    } else {
        c
    }
}

pub open spec fn is_ascii_char(c: char) -> bool {
    (c as u32) < 128
}

/// The characters of `s` that are not lower case, in order.
pub open spec fn non_lower(s: Seq<char>) -> Seq<char>
    decreases s.len(),
{
    if s.len() == 0 {
        Seq::empty()
    } else if is_lower_char(s.last()) {
        non_lower(s.drop_last())
    } else {
        non_lower(s.drop_last()).push(s.last())
    }
}

/// The choices mark at most one default, written as the one character that is
/// not lower case, and that one is ASCII.
pub open spec fn choices_valid(chars: Seq<char>) -> bool {
    let d = non_lower(chars);
    d.len() == 0 || (d.len() == 1 && is_ascii_char(d[0]))
}

/// The answer that an input gives to a question with the given choices. Letters
/// are compared without regard to ASCII case, and the answer is lower case;
/// an empty input takes the default, where there is one.
pub open spec fn prompt_answer(input: Seq<char>, chars: Seq<char>) -> Result<char, PromptError> {
    let d = non_lower(chars);
    if !choices_valid(chars) {
        Err(PromptError::InvalidChoices)
    } else if input.len() == 0 {
        if d.len() == 1 {
            Ok(ascii_lower(d[0]))
        } else {
            Err(PromptError::NoValidAnswer)
        }
    } else if !(input.len() == 1 && is_ascii_char(input[0])) {
        Err(PromptError::AnswerTooLong)
    } else if exists|j: int| 0 <= j < chars.len() && ascii_lower(#[trigger] chars[j]) == ascii_lower(input[0]) {
        Ok(ascii_lower(input[0]))
    } else {
        Err(PromptError::NoValidAnswer)
    }
}

fn to_ascii_lower(c: char) -> (r: char)
    ensures
        r == ascii_lower(c),
{
    if 'A' <= c && c <= 'Z' {
        let b: u8 = (c as u8) + 32;
        b as char
    } else {
        c
    }
}

/// Reads a one-character answer to a question whose choices are `chars`: lower
/// case letters, with at most one upper case letter as the default answer.
pub fn prompt_char_impl(input: &str, chars: &str) -> (r: Result<char, PromptError>)
    ensures
        r == prompt_answer(input@, chars@),
{
    let n = chars.unicode_len();
    let mut defaults: Vec<char> = Vec::new();
    let mut i: usize = 0;
    while i < n
        invariant
            n == chars@.len(),
            i <= n,
            defaults@ == non_lower(chars@.take(i as int)),
        decreases n - i,
    {
        let c = chars.get_char(i);
        assert(chars@.take(i + 1).drop_last() =~= chars@.take(i as int));
        if !char_is_lowercase(c) {
            defaults.push(c);
        }
        i = i + 1;
    }
    assert(chars@.take(n as int) =~= chars@);
    if !(defaults.len() == 0 || (defaults.len() == 1 && (defaults[0] as u32) < 128)) {
        return Err(PromptError::InvalidChoices);
    }
    let m = input.unicode_len();
    if m == 0 {
        if defaults.len() == 1 {
            return Ok(to_ascii_lower(defaults[0]));
        } else {
            return Err(PromptError::NoValidAnswer);
        }
    }
    let first = input.get_char(0);
    if !(m == 1 && (first as u32) < 128) {
        return Err(PromptError::AnswerTooLong);
    }
    let answer = to_ascii_lower(first);
    let mut j: usize = 0;
    while j < n
        invariant
            n == chars@.len(),
            j <= n,
            answer == ascii_lower(input@[0]),
            choices_valid(chars@),
            input@.len() == 1,
            is_ascii_char(input@[0]),
            forall|k: int| 0 <= k < j ==> ascii_lower(#[trigger] chars@[k]) != answer,
        decreases n - j,
    {
        let c = chars.get_char(j);
        if to_ascii_lower(c) == answer {
            assert(ascii_lower(chars@[j as int]) == ascii_lower(input@[0]));
            return Ok(answer);
        }
        j = j + 1;
    }
    Err(PromptError::NoValidAnswer)
}

} // verus!
