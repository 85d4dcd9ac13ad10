use aegis_api::routes::{
    admin_create_key, admin_list_keys, admin_revoke_key, admin_stats, check_update, get_cape,
    get_config, sync_config, validate_key,
};
use aegis_api::store::{KeyVerdict, Store};
use aegis_api::{
    ApiError, CapeEntry, CreateKeyRequest, PremiumKey, SyncConfigRequest, Timestamp,
    ValidateKeyRequest,
};
use serde_json::Value;

fn at(secs: i64) -> Timestamp {
    Timestamp { secs, nanos: 0 }
}

fn key(id: &str, text: &str, expires: Option<Timestamp>) -> PremiumKey {
    PremiumKey::issue(id.to_string(), text.to_string(), None, at(1_000), expires)
}

fn store_with(keys: Vec<PremiumKey>) -> Store {
    let mut store = Store::with_seed_key(key("seed", "SEED-KEY", None));
    store.keys = keys;
    store
}

fn request(text: &str, username: Option<&str>, hwid: Option<&str>) -> ValidateKeyRequest {
    ValidateKeyRequest {
        key: text.to_string(),
        username: username.map(|s| s.to_string()),
        hwid: hwid.map(|s| s.to_string()),
    }
}

fn json(text: &str) -> Value {
    serde_json::from_str(text).unwrap()
}

fn sync_request(user: &str, text: &str, modules: Option<&str>) -> SyncConfigRequest {
    SyncConfigRequest {
        username: user.to_string(),
        key: text.to_string(),
        modules: modules.map(json),
        keybinds: None,
        gui_positions: None,
    }
}

#[test]
fn fresh_store_holds_the_seed_key() {
    let store = Store::create_fresh();
    assert_eq!(store.keys.len(), 1);
    let seed = &store.keys[0];
    assert_eq!(seed.key, "UltronJARVIS7232!");
    assert_eq!(seed.owner, Some("arhan".to_string()));
    assert_eq!(seed.expires_at, None);
    assert!(!seed.revoked);
    assert_eq!(seed.uses, 0);
    assert_eq!(seed.id.len(), 36);
    assert!(store.configs.is_empty());
    assert!(store.capes.is_empty());
    assert_eq!(store.total_validations, 0);
    assert_eq!(store.admin_password, "aegis-admin-2026");
    assert_eq!(store.latest_version, "2.0.0");
    assert_eq!(
        store.download_url,
        "https://aegisclient.github.io/site/aegis-launcher-1.0.0.jar"
    );
    assert_eq!(store.changelog, "v2.0.0: Premium system, 142 modules, launcher upgrade");
}

#[test]
fn lookups_find_the_first_match() {
    let mut store = store_with(vec![
        key("a", "K1", None),
        key("b", "K2", None),
        key("c", "K1", Some(at(5))),
    ]);
    store.capes.push(CapeEntry {
        username: "bob".to_string(),
        cape_id: "red".to_string(),
        custom_url: None,
    });
    store.capes.push(CapeEntry {
        username: "bob".to_string(),
        cape_id: "blue".to_string(),
        custom_url: Some("http://x".to_string()),
    });
    assert_eq!(store.find_key("K1").unwrap().id, "a");
    assert_eq!(store.find_key("K2").unwrap().id, "b");
    assert!(store.find_key("K3").is_none());
    assert_eq!(store.find_key_by_id("c").unwrap().key, "K1");
    assert!(store.find_key_by_id("z").is_none());
    assert_eq!(store.find_cape("bob").unwrap().cape_id, "red");
    assert!(store.find_cape("eve").is_none());
    assert_eq!(get_cape(&store, "bob").unwrap().cape_id, "red");
    assert_eq!(get_cape(&store, "eve"), Err(ApiError::NotFound));
    assert!(store.find_config("bob").is_none());
    assert_eq!(get_config(&store, "bob"), Err(ApiError::NotFound));
}

#[test]
fn find_key_mut_changes_the_first_match() {
    let mut store = store_with(vec![key("a", "K1", None), key("b", "K1", None)]);
    store.find_key_mut("K1").unwrap().uses = 7;
    assert_eq!(store.keys[0].uses, 7);
    assert_eq!(store.keys[1].uses, 0);
    assert!(store.find_key_mut("nope").is_none());
}

#[test]
fn unknown_key_is_invalid() {
    let mut store = store_with(vec![key("a", "K1", None)]);
    let (resp, save) = store.validate_key_at(&request("K2", Some("bob"), None), at(10));
    assert!(!resp.valid);
    assert!(!resp.premium);
    assert_eq!(resp.message, "Invalid key");
    assert_eq!(resp.expires_at, None);
    assert_eq!(resp.owner, None);
    assert!(save);
    assert_eq!(store.total_validations, 1);
    assert_eq!(store.keys[0].uses, 0);
}

#[test]
fn revoked_and_expired_keys_are_refused() {
    let mut revoked = key("a", "K1", Some(at(100)));
    revoked.revoked = true;
    revoked.owner = Some("ann".to_string());
    let mut store = store_with(vec![revoked, key("b", "K2", Some(at(100)))]);
    let (resp, save) = store.validate_key_at(&request("K1", None, None), at(10));
    assert!(!resp.valid);
    assert_eq!(resp.message, "Key has been revoked");
    assert_eq!(resp.expires_at, Some(at(100)));
    assert_eq!(resp.owner, Some("ann".to_string()));
    assert!(save);
    let (resp, save) = store.validate_key_at(&request("K2", Some("bob"), Some("hw")), at(101));
    assert!(!resp.valid);
    assert!(!resp.premium);
    assert_eq!(resp.message, "Key has expired");
    assert_eq!(resp.owner, None);
    assert!(save);
    assert_eq!(store.keys[1].hwid, None);
    assert_eq!(store.keys[1].uses, 0);
    assert_eq!(store.total_validations, 2);
}

#[test]
fn first_use_binds_hwid_and_owner() {
    let mut store = store_with(vec![key("a", "K1", None)]);
    let (resp, save) = store.validate_key_at(&request("K1", Some("bob"), Some("HW-1")), at(10));
    assert!(resp.valid);
    assert!(resp.premium);
    assert_eq!(resp.message, "Premium activated!");
    assert_eq!(resp.owner, Some("bob".to_string()));
    assert!(save);
    let k = &store.keys[0];
    assert_eq!(k.hwid, Some("HW-1".to_string()));
    assert_eq!(k.owner, Some("bob".to_string()));
    assert_eq!(k.uses, 1);
    assert_eq!(k.last_used, Some(at(10)));

    // same device, another user: accepted, owner kept
    let (resp, _) = store.validate_key_at(&request("K1", Some("eve"), Some("HW-1")), at(20));
    assert!(resp.valid);
    assert_eq!(resp.owner, Some("bob".to_string()));
    assert_eq!(store.keys[0].uses, 2);
    assert_eq!(store.keys[0].last_used, Some(at(20)));

    // no hardware ID presented: accepted
    let (resp, _) = store.validate_key_at(&request("K1", None, None), at(30));
    assert!(resp.valid);
    assert_eq!(store.keys[0].uses, 3);
}

#[test]
fn other_device_is_refused_and_not_saved() {
    let mut store = store_with(vec![key("a", "K1", Some(at(500)))]);
    store.validate_key_at(&request("K1", None, Some("HW-1")), at(10));
    let (resp, save) = store.validate_key_at(&request("K1", Some("eve"), Some("HW-2")), at(20));
    assert!(!resp.valid);
    assert!(!resp.premium);
    assert_eq!(resp.message, "Key is locked to another device");
    assert_eq!(resp.expires_at, Some(at(500)));
    assert!(!save);
    assert_eq!(store.keys[0].uses, 1);
    assert_eq!(store.keys[0].owner, None);
    assert_eq!(store.keys[0].hwid, Some("HW-1".to_string()));
    assert_eq!(store.total_validations, 2);
}

#[test]
fn validation_now_reads_the_clock() {
    let mut store = store_with(vec![key("a", "K1", None), key("b", "K2", Some(at(0)))]);
    let (resp, save) = validate_key(&mut store, &request("K1", None, None)).unwrap();
    assert!(resp.valid);
    assert!(save);
    assert!(store.keys[0].last_used.unwrap().secs > 1_577_836_800);
    let (resp, _) = validate_key(&mut store, &request("K2", None, None)).unwrap();
    assert_eq!(resp.message, "Key has expired");
    let (resp, _) = validate_key(&mut store, &request("K3", None, None)).unwrap();
    assert_eq!(resp.message, "Invalid key");
    assert_eq!(store.total_validations, 3);
}

#[test]
fn sync_needs_a_valid_key() {
    let mut revoked = key("b", "K2", None);
    revoked.revoked = true;
    let mut store = store_with(vec![key("a", "K1", Some(at(100))), revoked]);
    assert_eq!(
        store.sync_config_at(sync_request("bob", "K1", Some("{}")), at(101)),
        Err(ApiError::Unauthorized)
    );
    assert_eq!(
        store.sync_config_at(sync_request("bob", "K2", Some("{}")), at(1)),
        Err(ApiError::Unauthorized)
    );
    assert_eq!(
        sync_config(&mut store, sync_request("bob", "K9", None)),
        Err(ApiError::Unauthorized)
    );
    assert!(store.configs.is_empty());
}

#[test]
fn first_sync_creates_with_empty_defaults() {
    let mut store = store_with(vec![key("a", "K1", None)]);
    let req = SyncConfigRequest {
        username: "bob".to_string(),
        key: "K1".to_string(),
        modules: Some(json(r#"{"fly":true}"#)),
        keybinds: None,
        gui_positions: None,
    };
    assert_eq!(store.sync_config_at(req, at(42)), Ok(()));
    assert_eq!(store.configs.len(), 1);
    let c = get_config(&store, "bob").unwrap();
    assert_eq!(c.username, "bob");
    assert_eq!(c.updated_at, at(42));
    assert_eq!(c.modules, json(r#"{"fly":true}"#));
    assert_eq!(c.keybinds, json("{}"));
    assert_eq!(c.gui_positions, json("{}"));
}

#[test]
fn later_sync_replaces_only_what_is_sent() {
    let mut store = store_with(vec![key("a", "K1", None)]);
    let first = SyncConfigRequest {
        username: "bob".to_string(),
        key: "K1".to_string(),
        modules: Some(json("[1]")),
        keybinds: Some(json(r#"{"x":"F"}"#)),
        gui_positions: Some(json("{}")),
    };
    store.sync_config_at(first, at(1)).unwrap();
    let second = SyncConfigRequest {
        username: "bob".to_string(),
        key: "K1".to_string(),
        modules: None,
        keybinds: Some(json(r#"{"x":"G"}"#)),
        gui_positions: None,
    };
    assert_eq!(sync_config(&mut store, second), Ok(()));
    assert_eq!(store.configs.len(), 1);
    let c = &store.configs[0];
    assert_eq!(c.modules, json("[1]"));
    assert_eq!(c.keybinds, json(r#"{"x":"G"}"#));
    assert_eq!(c.gui_positions, json("{}"));
    assert!(c.updated_at.secs > 1_577_836_800);
    store.sync_config_at(sync_request("eve", "K1", None), at(3)).unwrap();
    assert_eq!(store.configs.len(), 2);
    assert_eq!(store.configs[1].username, "eve");
}

#[test]
fn update_info_is_never_required() {
    let store = Store::create_fresh();
    let info = check_update(&store);
    assert_eq!(info.latest_version, "2.0.0");
    assert_eq!(info.download_url, store.download_url);
    assert_eq!(info.changelog, store.changelog);
    assert!(!info.required);
}

#[test]
fn create_key_with_custom_text_and_expiry() {
    let mut store = store_with(vec![]);
    let resp = admin_create_key(
        &mut store,
        CreateKeyRequest {
            key: Some("CUSTOM-1".to_string()),
            owner: Some("bob".to_string()),
            expires_days: Some(30),
        },
    )
    .unwrap();
    assert_eq!(store.keys.len(), 1);
    let k = &store.keys[0];
    assert_eq!(resp.id, k.id);
    assert_eq!(resp.key, "CUSTOM-1");
    assert_eq!(resp.owner, Some("bob".to_string()));
    assert_eq!(k.key, "CUSTOM-1");
    assert_eq!(k.owner, Some("bob".to_string()));
    let e = k.expires_at.unwrap();
    assert_eq!(resp.expires_at, Some(e));
    assert_eq!(e.secs, k.created_at.secs + 30 * 86_400);
    assert_eq!(e.nanos, k.created_at.nanos);
    assert!(!k.revoked);
    assert_eq!(k.uses, 0);
}

#[test]
fn create_key_generated_and_permanent() {
    let mut store = store_with(vec![]);
    let resp = admin_create_key(
        &mut store,
        CreateKeyRequest { key: None, owner: None, expires_days: None },
    )
    .unwrap();
    assert!(resp.key.starts_with("AEGIS-"));
    assert_eq!(resp.key.len(), 29);
    assert_eq!(resp.expires_at, None);
    assert_eq!(resp.owner, None);
    assert_eq!(store.keys[0].key, resp.key);
    assert_eq!(store.keys[0].id.len(), 36);
}

#[test]
fn create_key_with_negative_days_expires_in_the_past() {
    let mut store = store_with(vec![]);
    let resp = admin_create_key(
        &mut store,
        CreateKeyRequest { key: Some("OLD".to_string()), owner: None, expires_days: Some(-1) },
    )
    .unwrap();
    let k = &store.keys[0];
    assert_eq!(resp.expires_at.unwrap().secs, k.created_at.secs - 86_400);
    assert!(!k.is_valid());
}

#[test]
fn create_key_out_of_range_changes_nothing() {
    let mut store = store_with(vec![key("a", "K1", None)]);
    let resp = admin_create_key(
        &mut store,
        CreateKeyRequest { key: Some("HUGE".to_string()), owner: None, expires_days: Some(i64::MAX) },
    );
    assert_eq!(resp, None);
    assert_eq!(store.keys.len(), 1);
}

#[test]
fn store_create_key_appends() {
    let mut store = store_with(vec![key("a", "K1", None)]);
    let resp = store.create_key(
        "id-2".to_string(),
        "K2".to_string(),
        None,
        at(7),
        Some(at(9)),
    );
    assert_eq!(resp.id, "id-2");
    assert_eq!(resp.key, "K2");
    assert_eq!(resp.expires_at, Some(at(9)));
    assert_eq!(store.keys.len(), 2);
    assert_eq!(store.keys[1], PremiumKey::issue("id-2".to_string(), "K2".to_string(), None, at(7), Some(at(9))));
}

#[test]
fn revoke_by_id() {
    let mut store = store_with(vec![key("a", "K1", None), key("b", "K2", None)]);
    assert_eq!(admin_revoke_key(&mut store, "b"), Ok(()));
    assert!(store.keys[1].revoked);
    assert!(!store.keys[0].revoked);
    assert_eq!(admin_revoke_key(&mut store, "zz"), Err(ApiError::NotFound));
    let (resp, _) = store.validate_key_at(&request("K2", None, None), at(5));
    assert_eq!(resp.message, "Key has been revoked");
}

#[test]
fn stats_count_each_state() {
    let mut revoked = key("c", "K3", Some(at(5)));
    revoked.revoked = true;
    let mut store = store_with(vec![
        key("a", "K1", None),
        key("b", "K2", Some(at(5))),
        revoked,
        key("d", "K4", Some(at(500))),
    ]);
    store.total_validations = 17;
    store.capes.push(CapeEntry {
        username: "bob".to_string(),
        cape_id: "red".to_string(),
        custom_url: None,
    });
    let s = store.admin_stats_at(at(100));
    assert_eq!(s.total_keys, 4);
    assert_eq!(s.active_keys, 2);
    assert_eq!(s.revoked_keys, 1);
    assert_eq!(s.expired_keys, 1);
    assert_eq!(s.total_validations, 17);
    assert_eq!(s.total_configs, 0);
    assert_eq!(s.total_capes, 1);
    assert_eq!(s.active_keys + s.revoked_keys + s.expired_keys, s.total_keys);
    let now = admin_stats(&store);
    assert_eq!(now.active_keys, 1);
    assert_eq!(now.expired_keys, 2);
    assert_eq!(now.revoked_keys, 1);
}

#[test]
fn list_shows_each_key_in_order() {
    let mut revoked = key("c", "K3", None);
    revoked.revoked = true;
    let store = store_with(vec![key("a", "UltronJARVIS7232!", None), key("b", "SHORT", Some(at(5))), revoked]);
    let entries = store.list_keys_at(at(10));
    assert_eq!(entries.len(), 3);
    assert_eq!(entries[0].key_preview, "Ultr...2!");
    assert_eq!(entries[0].status, "active");
    assert_eq!(entries[1].key_preview, "SHORT");
    assert_eq!(entries[1].status, "expired");
    assert_eq!(entries[2].status, "revoked");
    assert_eq!(entries[2].id, "c");
    let now = admin_list_keys(&store);
    assert_eq!(now.len(), 3);
    assert_eq!(now[1].status, "expired");
    assert_eq!(now[0].status, "active");
}

#[test]
fn validation_refuses_to_overflow_counters() {
    let mut store = store_with(vec![key("a", "K1", None)]);
    store.total_validations = u64::MAX;
    assert_eq!(validate_key(&mut store, &request("K1", None, None)), None);
    assert_eq!(store.total_validations, u64::MAX);

    let mut worn = key("a", "K1", None);
    worn.uses = u64::MAX;
    let mut store = store_with(vec![worn]);
    assert_eq!(validate_key(&mut store, &request("K1", None, None)), None);
    assert_eq!(store.total_validations, 0);
    assert_eq!(store.keys[0].uses, u64::MAX);

    // a revoked key is refused before its use count is touched
    let mut worn_revoked = key("a", "K1", None);
    worn_revoked.uses = u64::MAX;
    worn_revoked.revoked = true;
    let mut store = store_with(vec![worn_revoked]);
    let (resp, _) = validate_key(&mut store, &request("K1", None, None)).unwrap();
    assert_eq!(resp.message, "Key has been revoked");
    assert_eq!(store.total_validations, 1);
}

#[test]
fn verdicts_per_state() {
    let mut revoked = key("b", "K2", None);
    revoked.revoked = true;
    let mut bound = key("d", "K4", None);
    bound.hwid = Some("PC".to_string());
    let store = store_with(vec![
        key("a", "K1", None),
        revoked,
        key("c", "K3", Some(at(5))),
        bound,
    ]);
    let now = at(10);
    assert_eq!(store.key_verdict_at(&request("K0", None, None), now), KeyVerdict::UnknownKey);
    assert_eq!(store.key_verdict_at(&request("K1", None, Some("X")), now), KeyVerdict::Activated);
    assert_eq!(store.key_verdict_at(&request("K2", None, None), now), KeyVerdict::Revoked);
    assert_eq!(store.key_verdict_at(&request("K3", None, None), now), KeyVerdict::Expired);
    assert_eq!(
        store.key_verdict_at(&request("K4", None, Some("OTHER")), now),
        KeyVerdict::LockedToOtherDevice
    );
    assert_eq!(store.key_verdict_at(&request("K4", None, Some("PC")), now), KeyVerdict::Activated);
    assert_eq!(store.key_verdict_at(&request("K4", None, None), now), KeyVerdict::Activated);
}

#[test]
fn create_key_at_a_given_time() {
    let mut store = store_with(vec![]);
    let now = Timestamp { secs: 1_000, nanos: 5 };
    let resp = store
        .create_key_at(
            CreateKeyRequest { key: Some("K".to_string()), owner: Some("bob".to_string()), expires_days: Some(2) },
            now,
        )
        .unwrap();
    let k = &store.keys[0];
    assert_eq!(k.created_at, now);
    assert_eq!(k.expires_at, Some(Timestamp { secs: 1_000 + 2 * 86_400, nanos: 5 }));
    assert_eq!(resp.expires_at, k.expires_at);
    assert_eq!(resp.owner, Some("bob".to_string()));
    assert_eq!(k.owner, Some("bob".to_string()));
    assert_eq!(k.key, "K");
    assert_eq!(resp.id, k.id);
    assert_eq!(k.id.len(), 36);
    assert!(!k.revoked);
    assert_eq!(k.hwid, None);
    assert_eq!(k.last_used, None);
    assert_eq!(k.uses, 0);
}

#[test]
fn create_key_at_the_edges_of_chrono_range() {
    let latest = Timestamp { secs: 8_210_266_876_799, nanos: 0 };
    let earliest = Timestamp { secs: -8_334_601_228_800, nanos: 0 };
    let req = |days: i64| CreateKeyRequest { key: Some("K".to_string()), owner: None, expires_days: Some(days) };
    let mut store = store_with(vec![]);
    assert!(store.create_key_at(req(0), latest).is_some());
    assert!(store.create_key_at(req(1), latest).is_none());
    assert!(store.create_key_at(req(-1), latest).is_some());
    assert!(store.create_key_at(req(0), earliest).is_some());
    assert!(store.create_key_at(req(-1), earliest).is_none());
    assert!(store.create_key_at(req(1), earliest).is_some());
    assert_eq!(store.keys.len(), 4);
    // the same edges, read from chrono itself
    assert!(chrono::DateTime::from_timestamp(8_210_266_876_799, 999_999_999).is_some());
    assert!(chrono::DateTime::from_timestamp(8_210_266_876_800, 0).is_none());
    assert!(chrono::DateTime::from_timestamp(-8_334_601_228_800, 0).is_some());
    assert!(chrono::DateTime::from_timestamp(-8_334_601_228_801, 999_999_999).is_none());
}

#[test]
fn duplicate_key_text_is_appended_but_not_found() {
    let mut store = store_with(vec![key("a", "DUP", None)]);
    let resp = store
        .create_key_at(
            CreateKeyRequest { key: Some("DUP".to_string()), owner: None, expires_days: Some(3) },
            at(10),
        )
        .unwrap();
    assert_eq!(store.keys.len(), 2);
    assert_eq!(store.keys[1].key, "DUP");
    assert_eq!(store.keys[1].id, resp.id);
    assert_eq!(store.find_key("DUP").unwrap().id, "a");
}

#[test]
fn revoked_key_with_full_use_count_is_answered() {
    let mut worn = key("a", "K1", None);
    worn.uses = u64::MAX;
    worn.revoked = true;
    let mut store = store_with(vec![worn]);
    let (resp, _) = validate_key(&mut store, &request("K1", None, None)).unwrap();
    assert!(!resp.valid);
    assert_eq!(resp.message, "Key has been revoked");
    assert_eq!(store.keys[0].uses, u64::MAX);
}
