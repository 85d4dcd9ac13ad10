use vstd::prelude::*;

use crate::ids::{is_uuid_v4_text, new_uuid_v4_text};
use crate::time::{current_time, latest_second, Timestamp};

verus! {

// ==================== Premium Keys ====================

/// A premium licence key and what the service has recorded of its use.
#[derive(Clone, Debug, PartialEq, Eq)]
pub struct PremiumKey {
    pub id: String,
    pub key: String,
    /// Username or email of the buyer.
    pub owner: Option<String>,
    pub created_at: Timestamp,
    pub expires_at: Option<Timestamp>,
    pub revoked: bool,
    /// Hardware ID the key is locked to (set on first use).
    pub hwid: Option<String>,
    pub last_used: Option<Timestamp>,
    pub uses: u64,
}

impl PremiumKey {
    /// The key has an expiry date and `now` lies after it.
    pub open spec fn expired_at(self, now: Timestamp) -> bool {
        self.expires_at matches Some(e) && now.later_than(e)
    }

    /// The key grants premium at `now`: it is not revoked and not expired.
    pub open spec fn valid_at(self, now: Timestamp) -> bool {
        !self.revoked && !self.expired_at(now)
    }

    /// The status the administrator's list shows at `now`.
    pub open spec fn status_at(self, now: Timestamp) -> Seq<char> {
        if self.revoked {
            "revoked"@
        } else if self.expired_at(now) {
            "expired"@
        } else {
            "active"@
        }
    }

    /// A key as it is issued: unrevoked, unbound, unused.
    pub open spec fn issued(
        id: String,
        key: String,
        owner: Option<String>,
        created_at: Timestamp,
        expires_at: Option<Timestamp>,
    ) -> PremiumKey {
        PremiumKey {
            id,
            key,
            owner,
            created_at,
            expires_at,
            revoked: false,
            hwid: None,
            last_used: None,
            uses: 0,
        }
    }

    /// Issues a key with the given identity, created at `created_at`.
    pub fn issue(
        id: String,
        key: String,
        owner: Option<String>,
        created_at: Timestamp,
        expires_at: Option<Timestamp>,
    ) -> (k: PremiumKey)
        ensures
            k == PremiumKey::issued(id, key, owner, created_at, expires_at),
    {
        PremiumKey {
            id,
            key,
            owner,
            created_at,
            expires_at,
            revoked: false,
            hwid: None,
            last_used: None,
            uses: 0,
        }
    }

    /// Issues a key under a fresh random UUID, created now.
    pub fn new(key: String, owner: Option<String>, expires_at: Option<Timestamp>) -> (k:
        PremiumKey)
        ensures
            is_uuid_v4_text(k.id@),
            0 <= k.created_at.secs <= latest_second(),
            k.created_at.nanos < 1_000_000_000,
            k == PremiumKey::issued(k.id, key, owner, k.created_at, expires_at),
    {
        let id = new_uuid_v4_text();
        let created_at = current_time();
        PremiumKey::issue(id, key, owner, created_at, expires_at)
    }

    /// Whether the key grants premium at `now`.
    pub fn is_valid_at(&self, now: Timestamp) -> (r: bool)
        ensures
            r == self.valid_at(now),
    {
        if self.revoked {
            return false;
        }
        match self.expires_at {
            Some(expires) => !now.is_after(&expires),
            None => true,
        }
    }

    /// Whether the key grants premium at the current time: a revoked key
    /// never does, an unrevoked key without expiry always does.
    pub fn is_valid(&self) -> (r: bool)
        ensures
            self.revoked ==> !r,
            self.expires_at is None ==> r == !self.revoked,
            exists|now: Timestamp|
                0 <= now.secs <= latest_second() && now.nanos < 1_000_000_000 && r
                    == self.valid_at(now),
    {
        let now = current_time();
        self.is_valid_at(now)
    }
}

/// How a key's text is shown in the administrator's list: its first four
/// characters, `...` and its last two when it is longer than six characters,
/// the whole text otherwise.
pub open spec fn preview_of(key: Seq<char>) -> Seq<char> {
    if key.len() > 6 {
        key.subrange(0, 4) + "..."@ + key.subrange(key.len() - 2, key.len() as int)
    } else {
        key
    }
}

/// The list entry shows key `k` at `now`.
pub open spec fn lists(e: KeyListEntry, k: PremiumKey, now: Timestamp) -> bool {
    &&& e.id == k.id
    &&& e.key_preview@ == preview_of(k.key@)
    &&& e.owner == k.owner
    &&& e.created_at == k.created_at
    &&& e.expires_at == k.expires_at
    &&& e.revoked == k.revoked
    &&& e.hwid == k.hwid
    &&& e.last_used == k.last_used
    &&& e.uses == k.uses
    &&& e.status@ == k.status_at(now)
}

/// A copy of an optional string.
pub(crate) fn copy_opt_string(s: &Option<String>) -> (r: Option<String>)
    ensures
        r == *s,
{
    match s {
        Some(x) => Some(x.clone()),
        None => None,
    }
}

/// The preview of a key's text.
pub fn key_preview(key: &str) -> (p: String)
    ensures
        p@ == preview_of(key@),
{
    let n: usize = key.unicode_len();
    if n > 6 {
        let mut p = String::from_str(key.substring_char(0, 4));
        p.append("...");
        p.append(key.substring_char(n - 2, n));
        p
    } else {
        String::from_str(key)
    }
}

impl PremiumKey {
    /// The status the administrator's list shows at `now`.
    pub fn status_text(&self, now: Timestamp) -> (s: String)
        ensures
            s@ == self.status_at(now),
    {
        if self.revoked {
            String::from_str("revoked")
        } else {
            match self.expires_at {
                Some(e) if now.is_after(&e) => String::from_str("expired"),
                _ => String::from_str("active"),
            }
        }
    }

    /// The entry that shows this key in the administrator's list at `now`.
    pub fn list_entry(&self, now: Timestamp) -> (e: KeyListEntry)
        ensures
            lists(e, *self, now),
    {
        KeyListEntry {
            id: self.id.clone(),
            key_preview: key_preview(self.key.as_str()),
            owner: copy_opt_string(&self.owner),
            created_at: self.created_at,
            expires_at: self.expires_at,
            revoked: self.revoked,
            hwid: copy_opt_string(&self.hwid),
            last_used: self.last_used,
            uses: self.uses,
            status: self.status_text(now),
        }
    }
}

// ==================== Config Sync ====================

/// The settings a user has synced, each an opaque JSON document.
#[derive(Debug, PartialEq)]
pub struct UserConfig {
    pub username: String,
    pub updated_at: Timestamp,
    /// Module settings.
    pub modules: serde_json::Value,
    /// Keybind mappings.
    pub keybinds: serde_json::Value,
    /// ClickGUI panel positions.
    pub gui_positions: serde_json::Value,
}

// ==================== Cape ====================

/// The cape a user wears.
#[derive(Clone, Debug, PartialEq, Eq)]
pub struct CapeEntry {
    pub username: String,
    /// Which cape design.
    pub cape_id: String,
    /// Custom cape texture URL.
    pub custom_url: Option<String>,
}

// ==================== API Request/Response types ====================

/// A launcher asks whether a key grants premium.
#[derive(Clone, Debug, PartialEq, Eq)]
pub struct ValidateKeyRequest {
    pub key: String,
    pub username: Option<String>,
    pub hwid: Option<String>,
}

/// The answer to a key validation.
#[derive(Clone, Debug, PartialEq, Eq)]
pub struct ValidateKeyResponse {
    pub valid: bool,
    pub premium: bool,
    pub message: String,
    pub expires_at: Option<Timestamp>,
    pub owner: Option<String>,
}

/// An administrator asks for a new key.
#[derive(Clone, Debug, PartialEq, Eq)]
pub struct CreateKeyRequest {
    /// Custom key text; a generated one when absent.
    pub key: Option<String>,
    pub owner: Option<String>,
    /// Days until expiry; a permanent key when absent.
    pub expires_days: Option<i64>,
}

/// The key that was created.
#[derive(Clone, Debug, PartialEq, Eq)]
pub struct CreateKeyResponse {
    pub id: String,
    pub key: String,
    pub owner: Option<String>,
    pub expires_at: Option<Timestamp>,
}

/// A user uploads settings, authorised by a premium key.
#[derive(Debug, PartialEq)]
pub struct SyncConfigRequest {
    pub username: String,
    pub key: String,
    pub modules: Option<serde_json::Value>,
    pub keybinds: Option<serde_json::Value>,
    pub gui_positions: Option<serde_json::Value>,
}

/// What the launcher learns of the latest release.
#[derive(Clone, Debug, PartialEq, Eq)]
pub struct UpdateInfo {
    pub latest_version: String,
    pub download_url: String,
    pub changelog: String,
    pub required: bool,
}

/// Counters over the whole store.
#[derive(Clone, Copy, Debug, PartialEq, Eq)]
pub struct AdminStats {
    pub total_keys: usize,
    pub active_keys: usize,
    pub revoked_keys: usize,
    pub expired_keys: usize,
    pub total_validations: u64,
    pub total_configs: usize,
    pub total_capes: usize,
}

/// One key as the administrator's list shows it.
#[derive(Clone, Debug, PartialEq, Eq)]
pub struct KeyListEntry {
    pub id: String,
    /// First 4 + last 2 chars.
    pub key_preview: String,
    pub owner: Option<String>,
    pub created_at: Timestamp,
    pub expires_at: Option<Timestamp>,
    pub revoked: bool,
    pub hwid: Option<String>,
    pub last_used: Option<Timestamp>,
    pub uses: u64,
    pub status: String,
}

/// Why a request was refused.
#[derive(Clone, Copy, Debug, PartialEq, Eq, Structural)]
pub enum ApiError {
    /// The key is unknown, revoked or expired.
    Unauthorized,
    /// Nothing is stored under the name or id asked for.
    NotFound,
}

} // verus!
