use steamguard::account::{SdaAccount, SteamGuardAccount};
use steamguard::migrate::{
    deserialize_manifest, finish_migration, manifest_shape, migrate_accounts, EntryEncryptionParams,
    Manifest, ManifestEntry, ManifestShape, MigratingAccount, MigratingManifest, MigrationError,
    SdaEntryEncryptionParams, SdaManifest, SdaManifestEntry, CURRENT_MANIFEST_VERSION,
};
use steamguard::outside::JsonField;
use steamguard::steamapi::Session;

fn session(steam_id: u64) -> Session {
    Session {
        session_id: "sid".to_string(),
        steam_login: "l".to_string(),
        steam_login_secure: "ls".to_string(),
        web_cookie: "wc".to_string(),
        token: "t".to_string(),
        steam_id,
    }
}

fn sda_account(name: &str, steam_id: u64) -> SdaAccount {
    SdaAccount {
        account_name: name.to_string(),
        serial_number: "serial".to_string(),
        revocation_code: "R00000".to_string(),
        shared_secret: "shared".to_string(),
        token_gid: "gid".to_string(),
        identity_secret: "identity".to_string(),
        uri: "otpauth://totp/Steam:example".to_string(),
        device_id: "android:1".to_string(),
        secret_1: "spare".to_string(),
        server_time: 1600000000,
        fully_enrolled: true,
        session: Some(session(steam_id)),
    }
}

fn current_account(name: &str, steam_id: u64) -> SteamGuardAccount {
    sda_account(name, steam_id).into_current()
}

fn sda_entry(file: &str, steam_id: u64, encrypted: bool) -> SdaManifestEntry {
    SdaManifestEntry {
        filename: file.to_string(),
        steam_id,
        encryption: if encrypted {
            Some(SdaEntryEncryptionParams {
                encryption_iv: "iv==".to_string(),
                encryption_salt: "salt==".to_string(),
            })
        } else {
            None
        },
    }
}

fn current_manifest(names: &[&str]) -> Manifest {
    Manifest {
        version: CURRENT_MANIFEST_VERSION,
        entries: names
            .iter()
            .enumerate()
            .map(|(i, n)| ManifestEntry {
                filename: format!("{}.maFile", i),
                account_name: n.to_string(),
                steam_id: i as u64,
                encryption: None,
            })
            .collect(),
    }
}

#[test]
fn legacy_encrypted_manifest_migrates_to_latest() {
    let manifest = MigratingManifest::Sda(SdaManifest { entries: vec![sda_entry("1234.maFile", 1234, true)] });
    let plan = manifest.load_plan("maFiles", Some("password")).unwrap();
    assert_eq!(plan.len(), 1);
    assert_eq!(plan[0].path, "maFiles/1234.maFile");
    assert_eq!(plan[0].passkey.as_deref(), Some("password"));
    let params = plan[0].encryption.as_ref().unwrap();
    assert_eq!((params.iv.as_str(), params.salt.as_str()), ("iv==", "salt=="));

    let loaded = vec![Ok(MigratingAccount::Sda(sda_account("example", 1234)))];
    let (manifest, accounts) = finish_migration(manifest, loaded).unwrap();
    assert_eq!(manifest.version, CURRENT_MANIFEST_VERSION);
    assert_eq!(manifest.entries[0].account_name, "example");
    assert_eq!(manifest.entries[0].steam_id, 1234);
    assert_eq!(accounts[0].account_name, "example");
    assert_eq!(accounts[0].steam_id, 1234);
}

#[test]
fn legacy_manifest_keeps_length_and_order() {
    let manifest = MigratingManifest::Sda(SdaManifest {
        entries: vec![sda_entry("a.maFile", 1, false), sda_entry("b.maFile", 2, false), sda_entry("c.maFile", 3, false)],
    });
    let loaded = vec![
        Ok(MigratingAccount::Sda(sda_account("Alice", 1))),
        Ok(MigratingAccount::Sda(sda_account("BOB", 2))),
        Ok(MigratingAccount::Sda(sda_account("carol", 3))),
    ];
    let (manifest, accounts) = finish_migration(manifest, loaded).unwrap();
    assert_eq!(manifest.entries.len(), 3);
    assert_eq!(accounts.len(), 3);
    let files: Vec<&str> = manifest.entries.iter().map(|e| e.filename.as_str()).collect();
    assert_eq!(files, vec!["a.maFile", "b.maFile", "c.maFile"]);
    let names: Vec<&str> = manifest.entries.iter().map(|e| e.account_name.as_str()).collect();
    assert_eq!(names, vec!["alice", "bob", "carol"]);
    let account_names: Vec<&str> = accounts.iter().map(|a| a.account_name.as_str()).collect();
    assert_eq!(account_names, vec!["Alice", "BOB", "carol"]);
    let ids: Vec<u64> = accounts.iter().map(|a| a.steam_id).collect();
    assert_eq!(ids, vec![1, 2, 3]);
}

#[test]
fn canonical_manifest_is_unchanged_by_migration() {
    let original = current_manifest(&["first", "second"]);
    let manifest = MigratingManifest::ManifestV1(original.clone());
    let upgraded = manifest.clone().upgrade();
    assert!(upgraded.is_latest());
    let loaded = vec![
        Ok(MigratingAccount::ManifestV1(current_account("first", 0))),
        Ok(MigratingAccount::ManifestV1(current_account("second", 1))),
    ];
    let (m, accounts) = finish_migration(manifest, loaded).unwrap();
    assert_eq!(m.version, original.version);
    assert_eq!(m.entries.len(), 2);
    for (a, b) in m.entries.iter().zip(original.entries.iter()) {
        assert_eq!(a.filename, b.filename);
        assert_eq!(a.account_name, b.account_name);
        assert_eq!(a.steam_id, b.steam_id);
    }
    assert_eq!(accounts[1].account_name, "second");
}

#[test]
fn account_upgrade_reads_steam_id_from_session() {
    let a = MigratingAccount::Sda(sda_account("x", 42));
    assert!(!a.is_latest());
    let a = a.upgrade();
    assert!(a.is_latest());
    match a.clone().upgrade() {
        MigratingAccount::ManifestV1(acc) => {
            assert_eq!(acc.steam_id, 42);
            assert_eq!(acc.shared_secret, "shared");
        }
        MigratingAccount::Sda(_) => panic!("not upgraded"),
    }
    let mut no_session = sda_account("y", 1);
    no_session.session = None;
    assert_eq!(no_session.into_current().steam_id, 0);
}

#[test]
fn names_are_lowercased_from_accounts() {
    let manifest = MigratingManifest::ManifestV1(current_manifest(&["stale"]));
    let accounts = vec![MigratingAccount::ManifestV1(current_account("MiXeD", 5))];
    let (m, a) = migrate_accounts(manifest, accounts);
    assert_eq!(m.entries[0].account_name, "mixed");
    assert_eq!(a[0].account_name, "MiXeD");
}

#[test]
fn missing_passkey_is_its_own_failure() {
    let manifest = MigratingManifest::Sda(SdaManifest {
        entries: vec![sda_entry("a.maFile", 1, false), sda_entry("b.maFile", 2, true)],
    });
    assert!(manifest.is_encrypted());
    assert_eq!(manifest.load_plan("d", None).unwrap_err(), MigrationError::MissingPasskey);
}

#[test]
fn unexpected_passkey_is_refused() {
    let manifest = MigratingManifest::ManifestV1(current_manifest(&["a"]));
    assert!(!manifest.is_encrypted());
    let err = manifest.load_plan("d", Some("password")).unwrap_err();
    assert_eq!(err, MigrationError::UnexpectedPasskey);
    assert_ne!(err, MigrationError::MissingPasskey);
    assert_eq!(manifest.load_plan("d", None).unwrap()[0].path, "d/0.maFile");
}

#[test]
fn one_failing_entry_fails_the_load_and_is_named() {
    let manifest = MigratingManifest::Sda(SdaManifest {
        entries: vec![sda_entry("a.maFile", 1, false), sda_entry("b.maFile", 2, false), sda_entry("c.maFile", 3, false)],
    });
    let loaded = vec![
        Ok(MigratingAccount::Sda(sda_account("a", 1))),
        Err("decryption failed".to_string()),
        Ok(MigratingAccount::Sda(sda_account("c", 3))),
    ];
    match finish_migration(manifest, loaded) {
        Err(MigrationError::LoadFailed(f)) => {
            assert_eq!(f.len(), 1);
            assert_eq!(f[0].filename, "b.maFile");
            assert_eq!(f[0].reason, "decryption failed");
        }
        other => panic!("expected a load failure, got {:?}", other.map(|_| ())),
    }
}

#[test]
fn every_failing_entry_is_named() {
    let manifest = MigratingManifest::ManifestV1(current_manifest(&["a", "b", "c"]));
    let loaded = vec![
        Err("bad".to_string()),
        Ok(MigratingAccount::ManifestV1(current_account("b", 1))),
        Ok(MigratingAccount::Sda(sda_account("c", 2))),
    ];
    match manifest.load_all_accounts(loaded) {
        Err(MigrationError::LoadFailed(f)) => {
            let files: Vec<&str> = f.iter().map(|x| x.filename.as_str()).collect();
            assert_eq!(files, vec!["0.maFile", "2.maFile"]);
        }
        _ => panic!("expected a load failure"),
    }
}

#[test]
fn manifest_version_selects_shape() {
    assert_eq!(deserialize_manifest("{\"entries\":[]}"), Ok(ManifestShape::Legacy));
    assert_eq!(deserialize_manifest("{\"version\":null,\"entries\":[]}"), Ok(ManifestShape::Legacy));
    assert_eq!(deserialize_manifest("{\"version\":1,\"entries\":[]}"), Ok(ManifestShape::Current));
    assert_eq!(deserialize_manifest("{\"version\":2}"), Err(MigrationError::UnknownManifestVersion));
    assert_eq!(deserialize_manifest("{\"version\":\"1\"}"), Err(MigrationError::UnknownManifestVersion));
    assert_eq!(deserialize_manifest("{"), Err(MigrationError::ManifestDeserializeFailed));
}

#[test]
fn manifest_shape_on_given_fields() {
    let absent: JsonField = None;
    let one: JsonField = Some((None, Some(1), None));
    let two: JsonField = Some((None, Some(2), None));
    assert_eq!(manifest_shape(&absent), Ok(ManifestShape::Legacy));
    assert_eq!(manifest_shape(&one), Ok(ManifestShape::Current));
    assert_eq!(manifest_shape(&two), Err(MigrationError::UnknownManifestVersion));
}

#[test]
fn empty_manifest_migrates_to_empty() {
    let manifest = MigratingManifest::Sda(SdaManifest { entries: vec![] });
    assert!(!manifest.is_encrypted());
    assert!(manifest.load_plan("d", None).unwrap().is_empty());
    let (m, a) = finish_migration(manifest, vec![]).unwrap();
    assert_eq!(m.version, CURRENT_MANIFEST_VERSION);
    assert!(m.entries.is_empty());
    assert!(a.is_empty());
}

#[test]
fn encryption_params_carry_over_upgrade() {
    let manifest = MigratingManifest::Sda(SdaManifest { entries: vec![sda_entry("e.maFile", 9, true)] });
    match manifest.upgrade() {
        MigratingManifest::ManifestV1(m) => {
            let p: &EntryEncryptionParams = m.entries[0].encryption.as_ref().unwrap();
            assert_eq!(p.iv, "iv==");
            assert_eq!(p.salt, "salt==");
            assert_eq!(m.entries[0].account_name, "");
            assert_eq!(m.version, CURRENT_MANIFEST_VERSION);
        }
        MigratingManifest::Sda(_) => panic!("not upgraded"),
    }
}

#[test]
fn lone_legacy_account_upgrades_to_canonical() {
    let a = steamguard::migrate::upgrade_to_latest(MigratingAccount::Sda(sda_account("Solo", 77)));
    assert_eq!(a.account_name, "Solo");
    assert_eq!(a.steam_id, 77);
    assert_eq!(a.revocation_code, "R00000");
    assert!(a.fully_enrolled);
}

#[test]
fn should_migrate_to_latest_version() {
    // one account
    let one = (
        MigratingManifest::Sda(SdaManifest { entries: vec![sda_entry("1234.maFile", 1234, false)] }),
        vec![Ok(MigratingAccount::Sda(sda_account("example", 1234)))],
    );
    // two accounts
    let two = (
        MigratingManifest::Sda(SdaManifest {
            entries: vec![sda_entry("1234.maFile", 1234, false), sda_entry("5678.maFile", 5678, false)],
        }),
        vec![
            Ok(MigratingAccount::Sda(sda_account("example", 1234))),
            Ok(MigratingAccount::Sda(sda_account("example2", 5678))),
        ],
    );
    // the manifest entry has no account name; the account file has it
    let missing_account_name = (
        MigratingManifest::ManifestV1(Manifest {
            version: CURRENT_MANIFEST_VERSION,
            entries: vec![ManifestEntry {
                filename: "1234.maFile".to_string(),
                account_name: String::new(),
                steam_id: 1234,
                encryption: None,
            }],
        }),
        vec![Ok(MigratingAccount::ManifestV1(current_account("example", 1234)))],
    );
    // the saved session has no web cookie
    let mut no_cookie = sda_account("example", 1234);
    if let Some(s) = no_cookie.session.as_mut() {
        s.web_cookie = String::new();
    }
    let no_webcookie = (
        MigratingManifest::Sda(SdaManifest { entries: vec![sda_entry("1234.maFile", 1234, false)] }),
        vec![Ok(MigratingAccount::Sda(no_cookie))],
    );
    for (manifest, loaded) in vec![one, two, missing_account_name, no_webcookie] {
        let (manifest, accounts) = finish_migration(manifest, loaded).unwrap();
        assert_eq!(manifest.version, CURRENT_MANIFEST_VERSION);
        assert_eq!(manifest.entries[0].account_name, "example");
        assert_eq!(manifest.entries[0].steam_id, 1234);
        assert_eq!(accounts[0].account_name, "example");
        assert_eq!(accounts[0].steam_id, 1234);
    }
}

#[test]
fn loader_result_count_must_match_entries() {
    let manifest = MigratingManifest::Sda(SdaManifest { entries: vec![sda_entry("a.maFile", 1, false)] });
    assert_eq!(
        finish_migration(manifest.clone(), vec![]).map(|_| ()),
        Err(MigrationError::LoadCountMismatch)
    );
    let two = vec![
        Ok(MigratingAccount::Sda(sda_account("a", 1))),
        Ok(MigratingAccount::Sda(sda_account("b", 2))),
    ];
    assert_eq!(manifest.load_all_accounts(two).map(|_| ()), Err(MigrationError::LoadCountMismatch));
}
