//! The credential store's migration engine: a manifest of a known version and
//! the accounts it points at are upgraded, in lockstep, to the canonical shape.
//!
//! Reading files and decrypting them is the caller's part: `load_plan` says what
//! to load, `finish_migration` takes what was loaded.
use vstd::prelude::*;

use crate::account::{AccountModel, SdaAccount, SteamGuardAccount};
use crate::outside::{json_field_of, json_field_view, lower_of, lowercase, read_json_field, JsonField};
use crate::text::{join_path, path_join};

verus! {

/// The manifest version of the canonical shape.
pub const CURRENT_MANIFEST_VERSION: u32 = 1;

/// Parameters that derive the key of an encrypted secret file from a passkey.
#[derive(Debug, Clone)]
pub struct EntryEncryptionParams {
    pub iv: String,
    pub salt: String,
}

/// The same parameters, as the legacy manifest names them.
#[derive(Debug, Clone)]
pub struct SdaEntryEncryptionParams {
    pub encryption_iv: String,
    pub encryption_salt: String,
}

/// One account of the canonical manifest.
#[derive(Debug, Clone)]
pub struct ManifestEntry {
    pub filename: String,
    pub account_name: String,
    pub steam_id: u64,
    pub encryption: Option<EntryEncryptionParams>,
}

/// The canonical manifest.
#[derive(Debug, Clone)]
pub struct Manifest {
    pub version: u32,
    pub entries: Vec<ManifestEntry>,
}

/// One account of the legacy manifest, which records no account name.
#[derive(Debug, Clone)]
pub struct SdaManifestEntry {
    pub filename: String,
    pub steam_id: u64,
    pub encryption: Option<SdaEntryEncryptionParams>,
}

/// The legacy manifest, which has no version field.
#[derive(Debug, Clone)]
pub struct SdaManifest {
    pub entries: Vec<SdaManifestEntry>,
}

/// What an entry holds, whatever shape it is stored in: its file, account name,
/// steam id, and encryption parameters as (iv, salt).
pub struct EntryModel {
    pub filename: Seq<char>,
    pub account_name: Seq<char>,
    pub steam_id: u64,
    pub encryption: Option<(Seq<char>, Seq<char>)>,
}

impl View for EntryEncryptionParams {
    type V = (Seq<char>, Seq<char>);

    open spec fn view(&self) -> (Seq<char>, Seq<char>) {
        (self.iv@, self.salt@)
    }
}

impl View for SdaEntryEncryptionParams {
    type V = (Seq<char>, Seq<char>);

    open spec fn view(&self) -> (Seq<char>, Seq<char>) {
        (self.encryption_iv@, self.encryption_salt@)
    }
}

pub open spec fn params_view(p: Option<EntryEncryptionParams>) -> Option<(Seq<char>, Seq<char>)> {
    match p {
        Some(q) => Some(q@),
        None => None,
    }
}

pub open spec fn sda_params_view(p: Option<SdaEntryEncryptionParams>) -> Option<
    (Seq<char>, Seq<char>),
> {
    match p {
        Some(q) => Some(q@),
        None => None,
    }
}

impl View for ManifestEntry {
    type V = EntryModel;

    open spec fn view(&self) -> EntryModel {
        EntryModel {
            filename: self.filename@,
            account_name: self.account_name@,
            steam_id: self.steam_id,
            encryption: params_view(self.encryption),
        }
    }
}

impl View for SdaManifestEntry {
    type V = EntryModel;

    open spec fn view(&self) -> EntryModel {
        EntryModel {
            filename: self.filename@,
            account_name: Seq::empty(),
            steam_id: self.steam_id,
            encryption: sda_params_view(self.encryption),
        }
    }
}

/// A manifest of some version, while it is being migrated.
#[derive(Debug, Clone)]
pub enum MigratingManifest {
    Sda(SdaManifest),
    ManifestV1(Manifest),
}

/// What a migrating manifest holds: whether it has the canonical shape, and its entries.
pub struct ManifestModel {
    pub latest: bool,
    pub entries: Seq<EntryModel>,
}

impl View for MigratingManifest {
    type V = ManifestModel;

    open spec fn view(&self) -> ManifestModel {
        match self {
            MigratingManifest::Sda(m) => ManifestModel {
                latest: false,
                entries: m.entries@.map_values(|e: SdaManifestEntry| e@),
            },
            MigratingManifest::ManifestV1(m) => ManifestModel {
                latest: true,
                entries: m.entries@.map_values(|e: ManifestEntry| e@),
            },
        }
    }
}

/// One upgrade step: the entries stay as they are and the shape becomes canonical.
pub open spec fn upgrade_model(m: ManifestModel) -> ManifestModel {
    ManifestModel { latest: true, entries: m.entries }
}

/// A manifest is encrypted where at least one entry has encryption parameters.
pub open spec fn manifest_encrypted(m: ManifestModel) -> bool {
    exists|i: int| 0 <= i < m.entries.len() && (#[trigger] m.entries[i]).encryption is Some
}

/// An account of some version, while it is being migrated.
#[derive(Debug, Clone)]
pub enum MigratingAccount {
    Sda(SdaAccount),
    ManifestV1(SteamGuardAccount),
}

pub struct MigratingAccountModel {
    pub latest: bool,
    pub account: AccountModel,
}

impl View for MigratingAccount {
    type V = MigratingAccountModel;

    open spec fn view(&self) -> MigratingAccountModel {
        match self {
            MigratingAccount::Sda(a) => MigratingAccountModel { latest: false, account: a@ },
            MigratingAccount::ManifestV1(a) => MigratingAccountModel { latest: true, account: a@ },
        }
    }
}

pub open spec fn upgrade_account_model(a: MigratingAccountModel) -> MigratingAccountModel {
    MigratingAccountModel { latest: true, account: a.account }
}

/// The shape of a manifest, as its version field tells it.
#[derive(Debug, Clone, Copy, PartialEq, Eq)]
pub enum ManifestShape {
    Legacy,
    Current,
}

/// Why an entry's account could not be loaded: its file name and the reason.
#[derive(Debug, Clone, PartialEq, Eq)]
pub struct LoadFailure {
    pub filename: String,
    pub reason: String,
}

/// Failures of the migration.
#[derive(Debug, Clone, PartialEq, Eq)]
pub enum MigrationError {
    /// The manifest is encrypted and no passkey was given.
    MissingPasskey,
    /// A passkey was given for a manifest that is not encrypted. Going on would
    /// encrypt the secret files, which is most likely not what was meant.
    UnexpectedPasskey,
    /// The manifest's version field holds a version that is not known.
    UnknownManifestVersion,
    /// The manifest is not JSON.
    ManifestDeserializeFailed,
    /// Some accounts could not be loaded; each failing entry is named, in order.
    LoadFailed(Vec<LoadFailure>),
    /// The entry loader gave another number of results than the manifest has entries.
    LoadCountMismatch,
}

/// What to hand the entry loader for one entry: the file, the passkey, and the
/// entry's encryption parameters.
#[derive(Debug, Clone)]
pub struct LoadRequest {
    pub path: String,
    pub passkey: Option<String>,
    pub encryption: Option<EntryEncryptionParams>,
}

pub open spec fn str_opt_view(s: Option<&str>) -> Option<Seq<char>> {
    match s {
        Some(t) => Some(t@),
        None => None,
    }
}

pub open spec fn string_opt_view(s: Option<String>) -> Option<Seq<char>> {
    match s {
        Some(t) => Some(t@),
        None => None,
    }
}

/// The manifest shape that a version field selects: absent (or `null`) is the
/// legacy shape, `1` the canonical one, anything else is refused.
pub open spec fn shape_of_version(
    f: Option<(Option<bool>, Option<i64>, Option<Seq<char>>)>,
) -> Result<ManifestShape, MigrationError> {
    match f {
        None => Ok(ManifestShape::Legacy),
        Some((_, n, _)) => if n == Some(1i64) {
            Ok(ManifestShape::Current)
        } else {
            Err(MigrationError::UnknownManifestVersion)
        },
    }
}

/// Selects the manifest shape from the manifest's version field.
pub fn manifest_shape(version: &JsonField) -> (r: Result<ManifestShape, MigrationError>)
    ensures
        r == shape_of_version(json_field_view(*version)),
{
    match version {
        None => Ok(ManifestShape::Legacy),
        Some((_, n, _)) => {
            match n {
                Some(v) => {
                    if *v == 1 {
                        Ok(ManifestShape::Current)
                    } else {
                        Err(MigrationError::UnknownManifestVersion)
                    }
                },
                None => Err(MigrationError::UnknownManifestVersion),
            }
        },
    }
}

/// Reads the manifest's version field and selects its shape.
pub fn deserialize_manifest(text: &str) -> (r: Result<ManifestShape, MigrationError>)
    ensures
        match json_field_of(text@, "version"@) {
            None => r == Err::<ManifestShape, MigrationError>(
                MigrationError::ManifestDeserializeFailed,
            ),
            Some(f) => r == shape_of_version(f),
        },
{
    match read_json_field(text, "version") {
        Ok(f) => manifest_shape(&f),
        Err(_) => Err(MigrationError::ManifestDeserializeFailed),
    }
}

fn params_from_sda(p: &Option<SdaEntryEncryptionParams>) -> (r: Option<EntryEncryptionParams>)
    ensures
        params_view(r) == sda_params_view(*p),
{
    match p {
        Some(q) => Some(
            EntryEncryptionParams { iv: q.encryption_iv.clone(), salt: q.encryption_salt.clone() },
        ),
        None => None,
    }
}

fn clone_params(p: &Option<EntryEncryptionParams>) -> (r: Option<EntryEncryptionParams>)
    ensures
        params_view(r) == params_view(*p),
{
    match p {
        Some(q) => Some(EntryEncryptionParams { iv: q.iv.clone(), salt: q.salt.clone() }),
        None => None,
    }
}

fn upgrade_entries(entries: Vec<SdaManifestEntry>) -> (r: Vec<ManifestEntry>)
    ensures
        r@.map_values(|e: ManifestEntry| e@) == entries@.map_values(|e: SdaManifestEntry| e@),
{
    let ghost orig = entries@;
    let mut rest = entries;
    let mut out: Vec<ManifestEntry> = Vec::new();
    while rest.len() > 0
        invariant
            out@.len() + rest@.len() == orig.len(),
            rest@ == orig.subrange(out@.len() as int, orig.len() as int),
            forall|j: int| 0 <= j < out@.len() ==> (#[trigger] out@[j])@ == orig[j]@,
        decreases rest@.len(),
    {
        let e = rest.remove(0);
        let encryption = params_from_sda(&e.encryption);
        out.push(
            ManifestEntry {
                filename: e.filename,
                account_name: String::new(),
                steam_id: e.steam_id,
                encryption,
            },
        );
    }
    assert(out@.map_values(|e: ManifestEntry| e@) =~= orig.map_values(|e: SdaManifestEntry| e@));
    out
}

impl MigratingManifest {
    /// One step towards the canonical shape; the canonical shape stays as it is.
    pub fn upgrade(self) -> (r: Self)
        ensures
            r@ == upgrade_model(self@),
            self@.latest ==> r == self,
            self is Sda ==> r->ManifestV1_0.version == CURRENT_MANIFEST_VERSION,
    {
        match self {
            MigratingManifest::Sda(sda) => MigratingManifest::ManifestV1(
                Manifest { version: CURRENT_MANIFEST_VERSION, entries: upgrade_entries(sda.entries) },
            ),
            MigratingManifest::ManifestV1(m) => MigratingManifest::ManifestV1(m),
        }
    }

    pub fn is_latest(&self) -> (r: bool)
        ensures
            r == self@.latest,
    {
        match self {
            MigratingManifest::Sda(_) => false,
            MigratingManifest::ManifestV1(_) => true,
        }
    }

    pub fn len(&self) -> (r: usize)
        ensures
            r == self@.entries.len(),
    {
        match self {
            MigratingManifest::Sda(m) => m.entries.len(),
            MigratingManifest::ManifestV1(m) => m.entries.len(),
        }
    }

    /// True iff some entry has encryption parameters.
    pub fn is_encrypted(&self) -> (r: bool)
        ensures
            r == manifest_encrypted(self@),
    {
        let n = self.len();
        let mut i: usize = 0;
        while i < n
            invariant
                n == self@.entries.len(),
                i <= n,
                forall|j: int| 0 <= j < i ==> (#[trigger] self@.entries[j]).encryption is None,
            decreases n - i,
        {
            let found = match self {
                MigratingManifest::Sda(m) => m.entries[i].encryption.is_some(),
                MigratingManifest::ManifestV1(m) => m.entries[i].encryption.is_some(),
            };
            if found {
                assert(self@.entries[i as int].encryption is Some);
                return true;
            }
            i = i + 1;
        }
        false
    }

    fn filename_at(&self, i: usize) -> (r: String)
        requires
            i < self@.entries.len(),
        ensures
            r@ == self@.entries[i as int].filename,
    {
        match self {
            MigratingManifest::Sda(m) => m.entries[i].filename.clone(),
            MigratingManifest::ManifestV1(m) => m.entries[i].filename.clone(),
        }
    }

    fn encryption_at(&self, i: usize) -> (r: Option<EntryEncryptionParams>)
        requires
            i < self@.entries.len(),
        ensures
            params_view(r) == self@.entries[i as int].encryption,
    {
        match self {
            MigratingManifest::Sda(m) => params_from_sda(&m.entries[i].encryption),
            MigratingManifest::ManifestV1(m) => clone_params(&m.entries[i].encryption),
        }
    }

    /// What to load before the manifest is upgraded: one request per entry, in
    /// order, with the entry's file under `folder`, the passkey and the entry's
    /// encryption parameters as the manifest holds them now.
    /// Fails before any load where the passkey does not fit the manifest: an
    /// encrypted manifest needs one, a manifest that is not encrypted takes none.
    pub fn load_plan(&self, folder: &str, passkey: Option<&str>) -> (r: Result<
        Vec<LoadRequest>,
        MigrationError,
    >)
        ensures
            manifest_encrypted(self@) && passkey is None ==> r == Err::<
                Vec<LoadRequest>,
                MigrationError,
            >(MigrationError::MissingPasskey),
            !manifest_encrypted(self@) && passkey is Some ==> r == Err::<
                Vec<LoadRequest>,
                MigrationError,
            >(MigrationError::UnexpectedPasskey),
            manifest_encrypted(self@) == passkey is Some ==> r is Ok,
            r is Ok ==> requests_match(self@, folder@, str_opt_view(passkey), r->Ok_0@),
    {
        let encrypted = self.is_encrypted();
        if encrypted && passkey.is_none() {
            return Err(MigrationError::MissingPasskey);
        } else if !encrypted && passkey.is_some() {
            return Err(MigrationError::UnexpectedPasskey);
        }
        let n = self.len();
        let mut out: Vec<LoadRequest> = Vec::new();
        let mut i: usize = 0;
        while i < n
            invariant
                n == self@.entries.len(),
                i <= n,
                out@.len() == i,
                forall|j: int|
                    0 <= j < i ==> request_matches(
                        self@.entries[j],
                        folder@,
                        str_opt_view(passkey),
                        #[trigger] out@[j],
                    ),
            decreases n - i,
        {
            let name = self.filename_at(i);
            let path = path_join(folder, name.as_str());
            let key = match passkey {
                Some(k) => Some(String::from_str(k)),
                None => None,
            };
            let encryption = self.encryption_at(i);
            out.push(LoadRequest { path, passkey: key, encryption });
            i = i + 1;
        }
        Ok(out)
    }

    /// Gathers what the entry loader gave for each entry, in entry order. Succeeds
    /// iff there is one result per entry and every entry loaded, in the manifest's
    /// own shape; else fails naming every failing entry.
    pub fn load_all_accounts(&self, loaded: Vec<Result<MigratingAccount, String>>) -> (r: Result<
        Vec<MigratingAccount>,
        MigrationError,
    >)
        ensures
            loaded@.len() != self@.entries.len() ==> r == Err::<Vec<MigratingAccount>, MigrationError>(
                MigrationError::LoadCountMismatch,
            ),
            loaded@.len() == self@.entries.len() && all_loaded(self@, loaded@) ==> (r matches Ok(v) && v@.len() == loaded@.len() && (
            forall|i: int| 0 <= i < v@.len() ==> loaded@[i] == Ok::<MigratingAccount, String>(
                #[trigger] v@[i],
            ))),
            loaded@.len() == self@.entries.len() && !all_loaded(self@, loaded@) ==> (r matches Err(
                MigrationError::LoadFailed(f),
            ) && failures_view(f@) == load_failures(self@, loaded@, loaded@.len() as int)),
    {
        let ghost orig = loaded@;
        let n = loaded.len();
        if n != self.len() {
            return Err(MigrationError::LoadCountMismatch);
        }
        let latest = self.is_latest();
        let mut rest = loaded;
        let mut accounts: Vec<MigratingAccount> = Vec::new();
        let mut failures: Vec<LoadFailure> = Vec::new();
        let mut i: usize = 0;
        while i < n
            invariant
                n == orig.len(),
                n == self@.entries.len(),
                latest == self@.latest,
                i <= n,
                rest@ == orig.subrange(i as int, n as int),
                failures_view(failures@) == load_failures(self@, orig, i as int),
                all_loaded(self@, orig.take(i as int)) ==> accounts@.len() == i && forall|j: int|
                    0 <= j < i ==> orig[j] == Ok::<MigratingAccount, String>(
                        #[trigger] accounts@[j],
                    ),
                all_loaded(self@, orig.take(i as int)) <==> failures@.len() == 0,
            decreases n - i,
        {
            let item = rest.remove(0);
            assert(orig.take(i + 1).drop_last() =~= orig.take(i as int));
            assert(item == orig[i as int]);
            match item {
                Ok(account) => {
                    if account.is_latest() == latest {
                        accounts.push(account);
                    } else {
                        let filename = self.filename_at(i);
                        failures.push(
                            LoadFailure { filename, reason: wrong_shape() },
                        );
                    }
                },
                Err(reason) => {
                    let filename = self.filename_at(i);
                    failures.push(LoadFailure { filename, reason });
                },
            }
            proof {
                lemma_all_loaded_step(self@, orig, i as int);
                assert(failures_view(failures@) =~= load_failures(self@, orig, i + 1));
            }
            i = i + 1;
        }
        assert(orig.take(n as int) =~= orig);
        if failures.len() > 0 {
            Err(MigrationError::LoadFailed(failures))
        } else {
            Ok(accounts)
        }
    }

    /// The canonical manifest held by a manifest that has been fully upgraded.
    pub fn into_latest(self) -> (r: Manifest)
        requires
            self@.latest,
        ensures
            self == MigratingManifest::ManifestV1(r),
    {
        match self {
            MigratingManifest::ManifestV1(m) => m,
            MigratingManifest::Sda(_) => {
                proof {
                    assert(false);
                }
                Manifest { version: CURRENT_MANIFEST_VERSION, entries: Vec::new() }
            },
        }
    }
}

/// The reason given for an entry whose loaded account has another shape than the manifest.
pub open spec fn wrong_shape_reason() -> Seq<char> {
    "the loaded account does not have the manifest's format"@
}

fn wrong_shape() -> (r: String)
    ensures
        r@ == wrong_shape_reason(),
{
    String::from_str("the loaded account does not have the manifest's format")
}

/// The entry loader gave an account of the manifest's shape for entry `i`.
pub open spec fn loaded_ok(m: ManifestModel, r: Result<MigratingAccount, String>) -> bool {
    r matches Ok(a) && a@.latest == m.latest
}

pub open spec fn all_loaded(m: ManifestModel, loaded: Seq<Result<MigratingAccount, String>>) -> bool {
    forall|i: int| 0 <= i < loaded.len() ==> loaded_ok(m, #[trigger] loaded[i])
}

/// The failures among the first `k` loads: each failing entry's file name and
/// reason, in entry order.
pub open spec fn load_failures(
    m: ManifestModel,
    loaded: Seq<Result<MigratingAccount, String>>,
    k: int,
) -> Seq<(Seq<char>, Seq<char>)>
    decreases k,
{
    if k <= 0 {
        Seq::empty()
    } else {
        let before = load_failures(m, loaded, k - 1);
        match loaded[k - 1] {
            Ok(a) => if a@.latest == m.latest {
                before
            } else {
                before.push((m.entries[k - 1].filename, wrong_shape_reason()))
            },
            Err(reason) => before.push((m.entries[k - 1].filename, reason@)),
        }
    }
}

pub open spec fn failures_view(f: Seq<LoadFailure>) -> Seq<(Seq<char>, Seq<char>)> {
    f.map_values(|x: LoadFailure| (x.filename@, x.reason@))
}

proof fn lemma_all_loaded_step(m: ManifestModel, loaded: Seq<Result<MigratingAccount, String>>, i: int)
    requires
        0 <= i < loaded.len(),
    ensures
        all_loaded(m, loaded.take(i + 1)) == (all_loaded(m, loaded.take(i)) && loaded_ok(
            m,
            loaded[i],
        )),
{
    let a = loaded.take(i + 1);
    let b = loaded.take(i);
    if all_loaded(m, a) {
        assert forall|j: int| 0 <= j < b.len() implies loaded_ok(m, #[trigger] b[j]) by {
            assert(a[j] == b[j]);
        }
        assert(a[i] == loaded[i]);
    }
    if all_loaded(m, b) && loaded_ok(m, loaded[i]) {
        assert forall|j: int| 0 <= j < a.len() implies loaded_ok(m, #[trigger] a[j]) by {
            if j < i {
                assert(a[j] == b[j]);
            }
        }
    }
}

/// A load request for an entry: its file under the folder, the passkey, and
/// the entry's encryption parameters.
pub open spec fn request_matches(
    e: EntryModel,
    folder: Seq<char>,
    passkey: Option<Seq<char>>,
    q: LoadRequest,
) -> bool {
    &&& q.path@ == join_path(folder, e.filename)
    &&& string_opt_view(q.passkey) == passkey
    &&& params_view(q.encryption) == e.encryption
}

pub open spec fn requests_match(
    m: ManifestModel,
    folder: Seq<char>,
    passkey: Option<Seq<char>>,
    qs: Seq<LoadRequest>,
) -> bool {
    &&& qs.len() == m.entries.len()
    &&& forall|i: int|
        0 <= i < qs.len() ==> request_matches(m.entries[i], folder, passkey, #[trigger] qs[i])
}

impl MigratingAccount {
    /// One step towards the canonical shape; the canonical shape stays as it is.
    pub fn upgrade(self) -> (r: Self)
        ensures
            r@ == upgrade_account_model(self@),
            self@.latest ==> r == self,
    {
        match self {
            MigratingAccount::Sda(a) => MigratingAccount::ManifestV1(a.into_current()),
            MigratingAccount::ManifestV1(a) => MigratingAccount::ManifestV1(a),
        }
    }

    pub fn is_latest(&self) -> (r: bool)
        ensures
            r == self@.latest,
    {
        match self {
            MigratingAccount::Sda(_) => false,
            MigratingAccount::ManifestV1(_) => true,
        }
    }

    /// The canonical account held by an account that has been fully upgraded.
    pub fn into_latest(self) -> (r: SteamGuardAccount)
        requires
            self@.latest,
        ensures
            self == MigratingAccount::ManifestV1(r),
    {
        match self {
            MigratingAccount::ManifestV1(a) => a,
            MigratingAccount::Sda(a) => {
                proof {
                    assert(false);
                }
                a.into_current()
            },
        }
    }
}

/// Upgrades a lone account, with no manifest beside it, until it is canonical.
pub fn upgrade_to_latest(account: MigratingAccount) -> (r: SteamGuardAccount)
    ensures
        r@ == account@.account,
{
    let ghost model = account@.account;
    let mut account = account;
    while !account.is_latest()
        invariant
            account@.account == model,
        decreases if account@.latest { 0int } else { 1int },
    {
        account = account.upgrade();
    }
    account.into_latest()
}

fn upgrade_accounts(accounts: Vec<MigratingAccount>) -> (r: Vec<MigratingAccount>)
    ensures
        r@.len() == accounts@.len(),
        forall|i: int| 0 <= i < r@.len() ==> (#[trigger] r@[i])@ == upgrade_account_model(accounts@[i]@),
{
    let ghost orig = accounts@;
    let mut rest = accounts;
    let mut out: Vec<MigratingAccount> = Vec::new();
    while rest.len() > 0
        invariant
            out@.len() + rest@.len() == orig.len(),
            rest@ == orig.subrange(out@.len() as int, orig.len() as int),
            forall|j: int| 0 <= j < out@.len() ==> (#[trigger] out@[j])@ == upgrade_account_model(orig[j]@),
        decreases rest@.len(),
    {
        let a = rest.remove(0);
        out.push(a.upgrade());
    }
    out
}

fn latest_accounts(accounts: Vec<MigratingAccount>) -> (r: Vec<SteamGuardAccount>)
    requires
        forall|i: int| 0 <= i < accounts@.len() ==> (#[trigger] accounts@[i])@.latest,
    ensures
        r@.len() == accounts@.len(),
        forall|i: int| 0 <= i < r@.len() ==> (#[trigger] r@[i])@ == accounts@[i]@.account,
{
    let ghost orig = accounts@;
    let mut rest = accounts;
    let mut out: Vec<SteamGuardAccount> = Vec::new();
    while rest.len() > 0
        invariant
            out@.len() + rest@.len() == orig.len(),
            rest@ == orig.subrange(out@.len() as int, orig.len() as int),
            forall|i: int| 0 <= i < orig.len() ==> (#[trigger] orig[i])@.latest,
            forall|j: int| 0 <= j < out@.len() ==> (#[trigger] out@[j])@ == orig[j]@.account,
        decreases rest@.len(),
    {
        let a = rest.remove(0);
        assert(a == orig[out@.len() as int]);
        out.push(a.into_latest());
    }
    out
}

/// An entry after migration: as before, with the account name taken from its
/// account, lower-cased.
pub open spec fn backfilled(e: EntryModel, account: AccountModel) -> EntryModel {
    EntryModel { account_name: lower_of(account.account_name), ..e }
}

fn backfill_names(entries: Vec<ManifestEntry>, accounts: &Vec<SteamGuardAccount>) -> (r: Vec<
    ManifestEntry,
>)
    requires
        entries@.len() == accounts@.len(),
    ensures
        r@.len() == entries@.len(),
        forall|i: int|
            0 <= i < r@.len() ==> (#[trigger] r@[i])@ == backfilled(entries@[i]@, accounts@[i]@),
{
    let ghost orig = entries@;
    let mut rest = entries;
    let mut out: Vec<ManifestEntry> = Vec::new();
    let mut i: usize = 0;
    let n = accounts.len();
    while rest.len() > 0
        invariant
            n == accounts@.len(),
            i == out@.len(),
            out@.len() + rest@.len() == orig.len(),
            orig.len() == accounts@.len(),
            rest@ == orig.subrange(i as int, orig.len() as int),
            forall|j: int|
                0 <= j < i ==> (#[trigger] out@[j])@ == backfilled(orig[j]@, accounts@[j]@),
        decreases rest@.len(),
    {
        let e = rest.remove(0);
        let name = lowercase(accounts[i].account_name.as_str());
        out.push(
            ManifestEntry {
                filename: e.filename,
                account_name: name,
                steam_id: e.steam_id,
                encryption: e.encryption,
            },
        );
        i = i + 1;
    }
    out
}

/// What a migration yields from a manifest and its accounts: the canonical
/// manifest with the same entries in the same order, each named after its
/// account (lower-cased), and the same accounts in the same order.
pub open spec fn migrated(
    m: ManifestModel,
    accounts: Seq<MigratingAccountModel>,
    out_manifest: Manifest,
    out_accounts: Seq<SteamGuardAccount>,
) -> bool {
    &&& out_manifest.entries@.len() == m.entries.len()
    &&& out_accounts.len() == m.entries.len()
    &&& forall|i: int|
        0 <= i < out_accounts.len() ==> (#[trigger] out_accounts[i])@ == accounts[i].account
    &&& forall|i: int|
        0 <= i < out_accounts.len() ==> (#[trigger] out_manifest.entries@[i])@ == backfilled(
            m.entries[i],
            accounts[i].account,
        )
}

/// Upgrades a manifest and its loaded accounts together, one step at a time,
/// until both are canonical; then names each entry after its account.
pub fn migrate_accounts(manifest: MigratingManifest, accounts: Vec<MigratingAccount>) -> (r: (
    Manifest,
    Vec<SteamGuardAccount>,
))
    requires
        accounts@.len() == manifest@.entries.len(),
        forall|i: int| 0 <= i < accounts@.len() ==> (#[trigger] accounts@[i])@.latest == manifest@.latest,
    ensures
        migrated(manifest@, accounts@.map_values(|a: MigratingAccount| a@), r.0, r.1@),
        r.0.version == match manifest {
            MigratingManifest::Sda(_) => CURRENT_MANIFEST_VERSION,
            MigratingManifest::ManifestV1(m) => m.version,
        },
{
    let ghost m0 = manifest@;
    let ghost a0 = accounts@;
    let ghost start = manifest;
    let mut manifest = manifest;
    let mut accounts = accounts;
    while !manifest.is_latest()
        invariant
            manifest@.entries == m0.entries,
            accounts@.len() == a0.len(),
            forall|i: int| 0 <= i < accounts@.len() ==> (#[trigger] accounts@[i])@.latest == manifest@.latest,
            forall|i: int| 0 <= i < accounts@.len() ==> (#[trigger] accounts@[i])@.account == a0[i]@.account,
            start is Sda ==> (manifest is Sda || manifest->ManifestV1_0.version == CURRENT_MANIFEST_VERSION),
            start is ManifestV1 ==> manifest == start,
        decreases if manifest@.latest { 0int } else { 1int },
    {
        manifest = manifest.upgrade();
        accounts = upgrade_accounts(accounts);
    }
    let canonical = manifest.into_latest();
    let accounts = latest_accounts(accounts);
    let entries = backfill_names(canonical.entries, &accounts);
    let ghost av = a0.map_values(|a: MigratingAccount| a@);
    assert forall|i: int| 0 <= i < entries@.len() implies (#[trigger] entries@[i])@ == backfilled(m0.entries[i], av[i].account) by {
    }
    (Manifest { version: canonical.version, entries }, accounts)
}

/// The migration once the accounts are loaded: gathers what the entry loader
/// gave (failing where it gave another number of results than there are
/// entries, and naming every failing entry unless each entry loaded in the
/// manifest's shape), then upgrades manifest and accounts together.
pub fn finish_migration(manifest: MigratingManifest, loaded: Vec<Result<MigratingAccount, String>>) -> (r: Result<
    (Manifest, Vec<SteamGuardAccount>),
    MigrationError,
>)
    ensures
        loaded@.len() != manifest@.entries.len() ==> r == Err::<
            (Manifest, Vec<SteamGuardAccount>),
            MigrationError,
        >(MigrationError::LoadCountMismatch),
        loaded@.len() == manifest@.entries.len() && all_loaded(manifest@, loaded@) ==> (r matches Ok((m, accounts)) && migrated(
            manifest@,
            loaded@.map_values(|l: Result<MigratingAccount, String>| l->Ok_0@),
            m,
            accounts@,
        )),
        loaded@.len() == manifest@.entries.len() && !all_loaded(manifest@, loaded@) ==> (r matches Err(
            MigrationError::LoadFailed(f),
        ) && failures_view(f@) == load_failures(manifest@, loaded@, loaded@.len() as int)),
        r matches Ok((m, accounts)) ==> migrated(
            manifest@,
            loaded@.map_values(|l: Result<MigratingAccount, String>| l->Ok_0@),
            m,
            accounts@,
        ),
        r matches Ok((m, _)) ==> m.version == match manifest {
            MigratingManifest::Sda(_) => CURRENT_MANIFEST_VERSION,
            MigratingManifest::ManifestV1(v1) => v1.version,
        },
{
    let accounts = match manifest.load_all_accounts(loaded) {
        Ok(a) => a,
        Err(e) => {
            return Err(e);
        },
    };
    let ghost lv = loaded@.map_values(|l: Result<MigratingAccount, String>| l->Ok_0@);
    let ghost av = accounts@.map_values(|a: MigratingAccount| a@);
    assert(av =~= lv);
    let r = migrate_accounts(manifest, accounts);
    Ok(r)
}

/// The canonical shape is the fixed point of the upgrade: upgrading a canonical
/// manifest or a canonical account gives it back unchanged.
pub proof fn lemma_canonical_upgrade_is_identity(m: ManifestModel, a: MigratingAccountModel)
    requires
        m.latest,
        a.latest,
    ensures
        upgrade_model(m) == m,
        upgrade_account_model(a) == a,
{
}

/// Decryption is planned once, from the manifest as it was read: upgrading it
/// changes neither whether it is encrypted nor any of the load requests, one
/// per entry, with the entry's pre-upgrade encryption parameters.
pub proof fn lemma_upgrade_keeps_load_plan(
    m: ManifestModel,
    folder: Seq<char>,
    passkey: Option<Seq<char>>,
    qs: Seq<LoadRequest>,
)
    ensures
        manifest_encrypted(upgrade_model(m)) == manifest_encrypted(m),
        requests_match(m, folder, passkey, qs) == requests_match(upgrade_model(m), folder, passkey, qs),
        requests_match(m, folder, passkey, qs) ==> qs.len() == m.entries.len() && forall|i: int|
            0 <= i < qs.len() ==> params_view((#[trigger] qs[i]).encryption) == m.entries[i].encryption,
{
}

proof fn lemma_failures_grow(
    m: ManifestModel,
    loaded: Seq<Result<MigratingAccount, String>>,
    k: int,
    k2: int,
)
    requires
        0 <= k <= k2,
    ensures
        load_failures(m, loaded, k).len() <= load_failures(m, loaded, k2).len(),
        forall|j: int|
            0 <= j < load_failures(m, loaded, k).len() ==> #[trigger] load_failures(m, loaded, k2)[j]
                == load_failures(m, loaded, k)[j],
    decreases k2 - k,
{
    if k < k2 {
        lemma_failures_grow(m, loaded, k, k2 - 1);
    }
}

/// An entry that fails to load is named among the failures of the whole load,
/// with its file name, whatever the other entries gave.
pub proof fn lemma_failing_entry_is_named(
    m: ManifestModel,
    loaded: Seq<Result<MigratingAccount, String>>,
    i: int,
)
    requires
        loaded.len() == m.entries.len(),
        0 <= i < loaded.len(),
        !loaded_ok(m, loaded[i]),
    ensures
        !all_loaded(m, loaded),
        exists|j: int|
            0 <= j < load_failures(m, loaded, loaded.len() as int).len() && (#[trigger] load_failures(
                m,
                loaded,
                loaded.len() as int,
            )[j]).0 == m.entries[i].filename,
{
    let n = loaded.len() as int;
    let before = load_failures(m, loaded, i);
    let after = load_failures(m, loaded, i + 1);
    assert(after == before.push(after.last()));
    assert(after.last().0 == m.entries[i].filename);
    lemma_failures_grow(m, loaded, i + 1, n);
    assert(load_failures(m, loaded, n)[before.len() as int] == after[before.len() as int]);
}

/// A migration keeps the number and order of entries and accounts, leaves each
/// account as it was loaded, and names each entry after its account, lower-cased.
pub proof fn lemma_migration_aligns_entries_and_accounts(
    m: ManifestModel,
    accounts: Seq<MigratingAccountModel>,
    out_manifest: Manifest,
    out_accounts: Seq<SteamGuardAccount>,
)
    requires
        migrated(m, accounts, out_manifest, out_accounts),
    ensures
        out_manifest.entries@.len() == m.entries.len(),
        out_accounts.len() == m.entries.len(),
        forall|i: int|
            0 <= i < out_accounts.len() ==> {
                let e = (#[trigger] out_manifest.entries@[i])@;
                &&& e.filename == m.entries[i].filename
                &&& e.steam_id == m.entries[i].steam_id
                &&& e.encryption == m.entries[i].encryption
                &&& e.account_name == lower_of(out_accounts[i].account_name@)
                &&& out_accounts[i]@ == accounts[i].account
            },
{
    assert forall|i: int| 0 <= i < out_accounts.len() implies {
        let e = (#[trigger] out_manifest.entries@[i])@;
        &&& e.filename == m.entries[i].filename
        &&& e.steam_id == m.entries[i].steam_id
        &&& e.encryption == m.entries[i].encryption
        &&& e.account_name == lower_of(out_accounts[i].account_name@)
        &&& out_accounts[i]@ == accounts[i].account
    } by {
        assert(out_accounts[i]@ == accounts[i].account);
    }
}

} // verus!
