//! The decrypted secrets of one authenticator, in the legacy shape and in the
//! canonical one, with the model that both share.
use vstd::prelude::*;

use crate::steamapi::Session;

verus! {

/// What an account holds, whatever shape it is stored in.
pub struct AccountModel {
    pub account_name: Seq<char>,
    pub steam_id: u64,
    pub serial_number: Seq<char>,
    pub revocation_code: Seq<char>,
    pub shared_secret: Seq<char>,
    pub token_gid: Seq<char>,
    pub identity_secret: Seq<char>,
    pub uri: Seq<char>,
    pub device_id: Seq<char>,
    pub secret_1: Seq<char>,
    pub server_time: u64,
    pub fully_enrolled: bool,
    pub session: Option<Session>,
}

/// An authenticator's secrets in the canonical shape.
#[derive(Debug, Clone)]
pub struct SteamGuardAccount {
    pub account_name: String,
    pub steam_id: u64,
    pub serial_number: String,
    pub revocation_code: String,
    pub shared_secret: String,
    pub token_gid: String,
    pub identity_secret: String,
    pub uri: String,
    pub device_id: String,
    pub secret_1: String,
    pub server_time: u64,
    pub fully_enrolled: bool,
    pub session: Option<Session>,
}

/// An authenticator's secrets in the legacy shape: the steam id is only known
/// through the saved Session.
#[derive(Debug, Clone)]
pub struct SdaAccount {
    pub account_name: String,
    pub serial_number: String,
    pub revocation_code: String,
    pub shared_secret: String,
    pub token_gid: String,
    pub identity_secret: String,
    pub uri: String,
    pub device_id: String,
    pub secret_1: String,
    pub server_time: u64,
    pub fully_enrolled: bool,
    pub session: Option<Session>,
}

impl View for SteamGuardAccount {
    type V = AccountModel;

    open spec fn view(&self) -> AccountModel {
        AccountModel {
            account_name: self.account_name@,
            steam_id: self.steam_id,
            serial_number: self.serial_number@,
            revocation_code: self.revocation_code@,
            shared_secret: self.shared_secret@,
            token_gid: self.token_gid@,
            identity_secret: self.identity_secret@,
            uri: self.uri@,
            device_id: self.device_id@,
            secret_1: self.secret_1@,
            server_time: self.server_time,
            fully_enrolled: self.fully_enrolled,
            session: self.session,
        }
    }
}

impl View for SdaAccount {
    type V = AccountModel;

    open spec fn view(&self) -> AccountModel {
        AccountModel {
            account_name: self.account_name@,
            steam_id: match self.session {
                Some(s) => s.steam_id,
                None => 0,
            },
            serial_number: self.serial_number@,
            revocation_code: self.revocation_code@,
            shared_secret: self.shared_secret@,
            token_gid: self.token_gid@,
            identity_secret: self.identity_secret@,
            uri: self.uri@,
            device_id: self.device_id@,
            secret_1: self.secret_1@,
            server_time: self.server_time,
            fully_enrolled: self.fully_enrolled,
            session: self.session,
        }
    }
}

impl SdaAccount {
    /// The same account in the canonical shape.
    pub fn into_current(self) -> (r: SteamGuardAccount)
        ensures
            r@ == self@,
    {
        let steam_id = match &self.session {
            Some(s) => s.steam_id,
            None => 0,
        };
        SteamGuardAccount {
            account_name: self.account_name,
            steam_id,
            serial_number: self.serial_number,
            revocation_code: self.revocation_code,
            shared_secret: self.shared_secret,
            token_gid: self.token_gid,
            identity_secret: self.identity_secret,
            uri: self.uri,
            device_id: self.device_id,
            secret_1: self.secret_1,
            server_time: self.server_time,
            fully_enrolled: self.fully_enrolled,
            session: self.session,
        }
    }
}

} // verus!
