use vstd::prelude::*;

use crate::models::{
    lists, AdminStats, ApiError, CapeEntry, CreateKeyRequest, CreateKeyResponse, KeyListEntry,
    PremiumKey, SyncConfigRequest, UpdateInfo, UserConfig, ValidateKeyRequest,
    ValidateKeyResponse,
};
use crate::store::{answered, created, synced, KeyVerdict, Store};
use crate::time::{current_time, latest_second, Timestamp};

verus! {

// ==================== Public: Key Validation ====================

/// Validates a key at the current time (see `Store::validate_key_at`):
/// answers with the response and whether the store is to be saved. Answers
/// `None`, with nothing changed, exactly where a counter would pass
/// `u64::MAX`: the validation counter, or the use count of a key that the
/// validation activates. A key that is unknown or revoked is answered
/// whenever the validation counter has room.
pub fn validate_key(store: &mut Store, req: &ValidateKeyRequest) -> (r: Option<
    (ValidateKeyResponse, bool),
>)
    ensures
        exists|now: Timestamp|
            #![trigger answered(*old(store), *final(store), *req, now, r)]
            0 <= now.secs <= latest_second() && now.nanos < 1_000_000_000 && answered(
                *old(store),
                *final(store),
                *req,
                now,
                r,
            ),
        final(store).keys@.len() == old(store).keys@.len(),
        forall|j: int|
            0 <= j < old(store).keys@.len() && old(store).keys@[j].hwid is Some ==> (
            #[trigger] final(store).keys@[j]).hwid == old(store).keys@[j].hwid,
        old(store).total_validations < u64::MAX ==> match old(store).key_index(req.key@) {
            None => r matches Some(out) && !out.0.valid && out.0.message@ == "Invalid key"@,
            Some(i) => (old(store).keys@[i].revoked || old(store).keys@[i].uses < u64::MAX)
                ==> r is Some,
        },
{
    let now = current_time();
    if store.total_validations == u64::MAX {
        assert(answered(*old(store), *store, *req, now, None));
        return None;
    }
    if let KeyVerdict::Activated = store.key_verdict_at(req, now) {
        if let Some(key) = store.find_key(req.key.as_str()) {
            if key.uses == u64::MAX {
                assert(answered(*old(store), *store, *req, now, None));
                return None;
            }
        }
    }
    let out = store.validate_key_at(req, now);
    proof {
        reveal_strlit("Invalid key");
    }
    assert(answered(*old(store), *store, *req, now, Some(out)));
    Some(out)
}

// ==================== Public: Update Check ====================

/// What the launcher is told of the latest release; an update is never
/// required.
pub fn check_update(store: &Store) -> (info: UpdateInfo)
    ensures
        info.latest_version == store.latest_version,
        info.download_url == store.download_url,
        info.changelog == store.changelog,
        !info.required,
{
    UpdateInfo {
        latest_version: store.latest_version.clone(),
        download_url: store.download_url.clone(),
        changelog: store.changelog.clone(),
        required: false,
    }
}

// ==================== Public: Config Sync ====================

/// Syncs a user's settings at the current time (see `Store::sync_config_at`).
/// An unknown or revoked key is refused whatever the time; a permanent key
/// that is not revoked is accepted whatever the time.
pub fn sync_config(store: &mut Store, req: SyncConfigRequest) -> (r: Result<(), ApiError>)
    ensures
        exists|now: Timestamp|
            #![trigger synced(*old(store), *final(store), req, now, r)]
            0 <= now.secs <= latest_second() && now.nanos < 1_000_000_000 && synced(
                *old(store),
                *final(store),
                req,
                now,
                r,
            ),
        match old(store).key_index(req.key@) {
            None => r == Err::<(), ApiError>(ApiError::Unauthorized) && *final(store) == *old(
                store,
            ),
            Some(i) => {
                &&& old(store).keys@[i].revoked ==> r == Err::<(), ApiError>(
                    ApiError::Unauthorized,
                ) && *final(store) == *old(store)
                &&& (!old(store).keys@[i].revoked && old(store).keys@[i].expires_at is None)
                    ==> r is Ok
            },
        },
{
    let now = current_time();
    store.sync_config_at(req, now)
}

/// The settings synced by `username`; not found when there are none.
pub fn get_config<'a>(store: &'a Store, username: &str) -> (r: Result<&'a UserConfig, ApiError>)
    ensures
        match store.config_index(username@) {
            Some(i) => r == Ok::<&UserConfig, ApiError>(&store.configs@[i]),
            None => r == Err::<&UserConfig, ApiError>(ApiError::NotFound),
        },
{
    match store.find_config(username) {
        Some(config) => Ok(config),
        None => Err(ApiError::NotFound),
    }
}

// ==================== Public: Cape ====================

/// The cape of `username`; not found when there is none.
pub fn get_cape<'a>(store: &'a Store, username: &str) -> (r: Result<&'a CapeEntry, ApiError>)
    ensures
        match store.cape_index(username@) {
            Some(i) => r == Ok::<&CapeEntry, ApiError>(&store.capes@[i]),
            None => r == Err::<&CapeEntry, ApiError>(ApiError::NotFound),
        },
{
    match store.find_cape(username) {
        Some(cape) => Ok(cape),
        None => Err(ApiError::NotFound),
    }
}

// ==================== Admin: Key Management ====================

/// Every key as the administrator's list shows it, all at one current time.
pub fn admin_list_keys(store: &Store) -> (entries: Vec<KeyListEntry>)
    ensures
        entries@.len() == store.keys@.len(),
        exists|now: Timestamp|
            0 <= now.secs <= latest_second() && now.nanos < 1_000_000_000 && forall|i: int|
                0 <= i < entries@.len() ==> lists(#[trigger] entries@[i], store.keys@[i], now),
{
    let now = current_time();
    store.list_keys_at(now)
}

/// Creates a key at the current time (see `Store::create_key_at`): the
/// text given, or a generated `AEGIS-` key; the owner given; permanent, or
/// expiring the given number of days after it is issued. A permanent key is
/// always created; an expiring one exactly where chrono can add its days to
/// the current time.
pub fn admin_create_key(store: &mut Store, req: CreateKeyRequest) -> (r: Option<
    CreateKeyResponse,
>)
    ensures
        exists|now: Timestamp|
            #![trigger created(*old(store), *final(store), req, now, r)]
            0 <= now.secs <= latest_second() && now.nanos < 1_000_000_000 && created(
                *old(store),
                *final(store),
                req,
                now,
                r,
            ),
        req.expires_days is None ==> r is Some,
{
    let now = current_time();
    store.create_key_at(req, now)
}

/// Revokes the first key whose id is `key_id`; not found when there is none.
pub fn admin_revoke_key(store: &mut Store, key_id: &str) -> (r: Result<(), ApiError>)
    ensures
        match old(store).key_id_index(key_id@) {
            Some(i) => {
                &&& r is Ok
                &&& final(store).keys@ == old(store).keys@.update(
                    i,
                    PremiumKey { revoked: true, ..old(store).keys@[i] },
                )
                &&& final(store).same_but_keys(*old(store))
            },
            None => r == Err::<(), ApiError>(ApiError::NotFound) && *final(store) == *old(store),
        },
{
    match store.key_id_position(key_id) {
        Some(i) => {
            store.keys[i].revoked = true;
            Ok(())
        },
        None => Err(ApiError::NotFound),
    }
}

/// The counters over the store, all at one current time.
pub fn admin_stats(store: &Store) -> (stats: AdminStats)
    ensures
        exists|now: Timestamp|
            0 <= now.secs <= latest_second() && now.nanos < 1_000_000_000 && stats
                == store.stats_at(now),
{
    let now = current_time();
    store.admin_stats_at(now)
}

} // verus!
