use vstd::prelude::*;

use crate::lookup::{
    count_where, first_index, lemma_count_at_most_len, lemma_count_step,
    lemma_first_match_found, lemma_no_match_found,
};
use crate::ids::{generate_key, is_generated_key_text, is_uuid_v4_text, new_uuid_v4_text};
use crate::json::empty_json_object;
use crate::models::{
    copy_opt_string, lists, AdminStats, ApiError, CreateKeyRequest, CreateKeyResponse,
    KeyListEntry, CapeEntry, PremiumKey, SyncConfigRequest, UserConfig, ValidateKeyRequest,
    ValidateKeyResponse,
};
use crate::time::{add_days, days_addable, latest_second, Timestamp};

verus! {

/// Everything the service keeps: keys, synced configurations, capes, the
/// validation counter, and what the launcher is told of updates.
pub struct Store {
    pub keys: Vec<PremiumKey>,
    pub configs: Vec<UserConfig>,
    pub capes: Vec<CapeEntry>,
    pub total_validations: u64,
    pub admin_password: String,
    pub latest_version: String,
    pub download_url: String,
    pub changelog: String,
}

/// The key's text is `key`.
pub open spec fn has_key_text(key: Seq<char>) -> spec_fn(PremiumKey) -> bool {
    |k: PremiumKey| k.key@ == key
}

/// The key's id is `id`.
pub open spec fn has_key_id(id: Seq<char>) -> spec_fn(PremiumKey) -> bool {
    |k: PremiumKey| k.id@ == id
}

/// The configuration belongs to `username`.
pub open spec fn is_config_of(username: Seq<char>) -> spec_fn(UserConfig) -> bool {
    |c: UserConfig| c.username@ == username
}

/// The cape belongs to `username`.
pub open spec fn is_cape_of(username: Seq<char>) -> spec_fn(CapeEntry) -> bool {
    |c: CapeEntry| c.username@ == username
}

/// How a key validation comes out.
#[derive(Clone, Copy, Debug, PartialEq, Eq, Structural)]
pub enum KeyVerdict {
    /// No key has the text asked for.
    UnknownKey,
    /// The key has been revoked.
    Revoked,
    /// The key is not revoked but has expired.
    Expired,
    /// The key is bound to another hardware ID than the one presented.
    LockedToOtherDevice,
    /// The key grants premium; its use is recorded.
    Activated,
}

impl KeyVerdict {
    /// The message the launcher is shown.
    pub open spec fn message(self) -> Seq<char> {
        match self {
            KeyVerdict::UnknownKey => "Invalid key"@,
            KeyVerdict::Revoked => "Key has been revoked"@,
            KeyVerdict::Expired => "Key has expired"@,
            KeyVerdict::LockedToOtherDevice => "Key is locked to another device"@,
            KeyVerdict::Activated => "Premium activated!"@,
        }
    }
}

/// The key after a successful validation at `now`: bound to the presented
/// hardware ID if it had none, last used at `now`, used once more, and owned
/// by the presented username if it had no owner.
pub open spec fn activated(k: PremiumKey, req: ValidateKeyRequest, now: Timestamp) -> PremiumKey {
    PremiumKey {
        hwid: if k.hwid is None && req.hwid is Some {
            req.hwid
        } else {
            k.hwid
        },
        last_used: Some(now),
        uses: (k.uses + 1) as u64,
        owner: if k.owner is None && req.username is Some {
            req.username
        } else {
            k.owner
        },
        ..k
    }
}

/// The answer to a validation.
fn answer(
    granted: bool,
    message: &str,
    expires_at: Option<Timestamp>,
    owner: Option<String>,
) -> (r: ValidateKeyResponse)
    ensures
        r.valid == granted,
        r.premium == granted,
        r.message@ == message@,
        r.expires_at == expires_at,
        r.owner == owner,
{
    ValidateKeyResponse {
        valid: granted,
        premium: granted,
        message: String::from_str(message),
        expires_at,
        owner,
    }
}

/// A stored configuration after `req` is synced into it at `now`: each
/// document sent replaces the stored one, the others stay.
pub open spec fn merged(c: UserConfig, req: SyncConfigRequest, now: Timestamp) -> UserConfig {
    UserConfig {
        updated_at: now,
        modules: match req.modules {
            Some(m) => m,
            None => c.modules,
        },
        keybinds: match req.keybinds {
            Some(k) => k,
            None => c.keybinds,
        },
        gui_positions: match req.gui_positions {
            Some(g) => g,
            None => c.gui_positions,
        },
        ..c
    }
}

/// The key grants premium at `now`.
pub open spec fn is_active_at(now: Timestamp) -> spec_fn(PremiumKey) -> bool {
    |k: PremiumKey| k.valid_at(now)
}

/// The key has been revoked.
pub open spec fn is_revoked() -> spec_fn(PremiumKey) -> bool {
    |k: PremiumKey| k.revoked
}

/// The key is not revoked but has expired at `now`.
pub open spec fn is_expired_at(now: Timestamp) -> spec_fn(PremiumKey) -> bool {
    |k: PremiumKey| !k.revoked && k.expired_at(now)
}

/// `post` and the answer `out` are what validating `req` at `now` makes of
/// `pre`: the validation is counted; a key that grants premium is
/// activated; the response carries the verdict, the message for it, and the
/// key's expiry and owner after the call (nothing for an unknown key); and the
/// store is to be saved unless the key is locked to another device.
pub open spec fn validated(
    pre: Store,
    post: Store,
    req: ValidateKeyRequest,
    now: Timestamp,
    out: (ValidateKeyResponse, bool),
) -> bool {
    let verdict = pre.verdict(req, now);
    let (response, persist) = out;
    &&& response.valid == (verdict is Activated)
    &&& response.premium == (verdict is Activated)
    &&& response.message@ == verdict.message()
    &&& persist == !(verdict is LockedToOtherDevice)
    &&& match pre.key_index(req.key@) {
        None => {
            &&& response.expires_at is None
            &&& response.owner is None
            &&& post.keys@ =~= pre.keys@
        },
        Some(i) => {
            &&& post.keys@ =~= if verdict is Activated {
                pre.keys@.update(i, activated(pre.keys@[i], req, now))
            } else {
                pre.keys@
            }
            &&& response.expires_at == post.keys@[i].expires_at
            &&& response.owner == post.keys@[i].owner
        },
    }
    &&& post.total_validations == pre.total_validations + 1
    &&& post.configs == pre.configs
    &&& post.capes == pre.capes
    &&& post.admin_password == pre.admin_password
    &&& post.latest_version == pre.latest_version
    &&& post.download_url == pre.download_url
    &&& post.changelog == pre.changelog
}

/// `post` and the answer `r` are what validating `req` at `now` makes of
/// `pre` when a counter may be full: no answer, and nothing changed, exactly
/// where the validation counter is full or the validation would activate a
/// key whose use count is full; otherwise the validation as `validated`
/// describes it.
pub open spec fn answered(
    pre: Store,
    post: Store,
    req: ValidateKeyRequest,
    now: Timestamp,
    r: Option<(ValidateKeyResponse, bool)>,
) -> bool {
    let full = pre.total_validations == u64::MAX || (pre.verdict(req, now) is Activated
        && pre.keys@[pre.key_index(req.key@)->0].uses == u64::MAX);
    match r {
        Some(out) => !full && validated(pre, post, req, now, out),
        None => full && post == pre,
    }
}

/// `post` and the result `r` are what syncing `req` at `now` makes of `pre`:
/// refused as unauthorised, with nothing changed, unless `req.key` grants
/// premium at `now`; otherwise the user's first configuration takes the
/// documents sent, or a new configuration is appended for a first sync.
pub open spec fn synced(
    pre: Store,
    post: Store,
    req: SyncConfigRequest,
    now: Timestamp,
    r: Result<(), ApiError>,
) -> bool {
    if !pre.authorises(req.key@, now) {
        r == Err::<(), ApiError>(ApiError::Unauthorized) && post == pre
    } else {
        &&& r is Ok
        &&& post.same_but_configs(pre)
        &&& match pre.config_index(req.username@) {
            Some(j) => post.configs@ =~= pre.configs@.update(j, merged(pre.configs@[j], req, now)),
            None => {
                let n: nat = pre.configs@.len();
                let c = post.configs@[n as int];
                &&& post.configs@.len() == n + 1
                &&& post.configs@.subrange(0, n as int) =~= pre.configs@
                &&& c.username == req.username
                &&& c.updated_at == now
                &&& req.modules matches Some(m) ==> c.modules == m
                &&& req.keybinds matches Some(k) ==> c.keybinds == k
                &&& req.gui_positions matches Some(g) ==> c.gui_positions == g
            },
        }
    }
}

/// `post` and the answer `r` are what creating a key for `req` at `now`
/// makes of `pre`. A permanent key is always created; an expiring one
/// exactly where chrono can add its days to `now`, and otherwise nothing
/// changes. The key is appended (whatever keys already share its text),
/// issued at `now` under a UUID, with the text given or a generated one and
/// the owner given, expiring `days * 86400` seconds after `now`; the answer
/// describes it.
pub open spec fn created(
    pre: Store,
    post: Store,
    req: CreateKeyRequest,
    now: Timestamp,
    r: Option<CreateKeyResponse>,
) -> bool {
    &&& match req.expires_days {
        None => r is Some,
        Some(days) => now.nanos < 1_000_000_000 ==> (r is Some <==> days_addable(
            now,
            days as int,
        )),
    }
    &&& r is None ==> post == pre
    &&& r matches Some(resp) ==> {
        let k = post.keys@.last();
        &&& post.keys@ =~= pre.keys@.push(k)
        &&& post.same_but_keys(pre)
        &&& k == PremiumKey::issued(k.id, k.key, req.owner, now, k.expires_at)
        &&& is_uuid_v4_text(k.id@)
        &&& match req.key {
            Some(text) => k.key == text,
            None => is_generated_key_text(k.key@),
        }
        &&& match req.expires_days {
            None => k.expires_at is None,
            Some(days) => k.expires_at is Some && (now.nanos < 1_000_000_000 ==> {
                &&& k.expires_at->0.secs == now.secs + days * 86400
                &&& k.expires_at->0.nanos == now.nanos
            }),
        }
        &&& resp.id == k.id
        &&& resp.key == k.key
        &&& resp.owner == k.owner
        &&& resp.expires_at == k.expires_at
    }
}

impl Store {
    /// The counters that the administrator is shown at `now`.
    pub open spec fn stats_at(self, now: Timestamp) -> AdminStats {
        AdminStats {
            total_keys: self.keys@.len() as usize,
            active_keys: count_where(self.keys@, is_active_at(now)) as usize,
            revoked_keys: count_where(self.keys@, is_revoked()) as usize,
            expired_keys: count_where(self.keys@, is_expired_at(now)) as usize,
            total_validations: self.total_validations,
            total_configs: self.configs@.len() as usize,
            total_capes: self.capes@.len() as usize,
        }
    }

    /// The key with text `key` exists and grants premium at `now`.
    pub open spec fn authorises(self, key: Seq<char>, now: Timestamp) -> bool {
        self.key_index(key) matches Some(i) && self.keys@[i].valid_at(now)
    }

    /// Everything but the key list is as in `other`.
    pub open spec fn same_but_keys(self, other: Store) -> bool {
        &&& self.configs == other.configs
        &&& self.capes == other.capes
        &&& self.total_validations == other.total_validations
        &&& self.admin_password == other.admin_password
        &&& self.latest_version == other.latest_version
        &&& self.download_url == other.download_url
        &&& self.changelog == other.changelog
    }

    /// Everything but the configurations is as in `other`.
    pub open spec fn same_but_configs(self, other: Store) -> bool {
        &&& self.keys == other.keys
        &&& self.capes == other.capes
        &&& self.total_validations == other.total_validations
        &&& self.admin_password == other.admin_password
        &&& self.latest_version == other.latest_version
        &&& self.download_url == other.download_url
        &&& self.changelog == other.changelog
    }

    /// How validating `req` at `now` comes out.
    pub open spec fn verdict(self, req: ValidateKeyRequest, now: Timestamp) -> KeyVerdict {
        match self.key_index(req.key@) {
            None => KeyVerdict::UnknownKey,
            Some(i) => {
                let k = self.keys@[i];
                if !k.valid_at(now) {
                    if k.revoked {
                        KeyVerdict::Revoked
                    } else {
                        KeyVerdict::Expired
                    }
                } else if (req.hwid matches Some(h) && k.hwid matches Some(s) && s@ != h@) {
                    KeyVerdict::LockedToOtherDevice
                } else {
                    KeyVerdict::Activated
                }
            },
        }
    }

    /// Where the first key with text `key` stands.
    pub open spec fn key_index(self, key: Seq<char>) -> Option<int> {
        first_index(self.keys@, has_key_text(key))
    }

    /// Where the first key with id `id` stands.
    pub open spec fn key_id_index(self, id: Seq<char>) -> Option<int> {
        first_index(self.keys@, has_key_id(id))
    }

    /// Where the first configuration of `username` stands.
    pub open spec fn config_index(self, username: Seq<char>) -> Option<int> {
        first_index(self.configs@, is_config_of(username))
    }

    /// Where the first cape of `username` stands.
    pub open spec fn cape_index(self, username: Seq<char>) -> Option<int> {
        first_index(self.capes@, is_cape_of(username))
    }

    /// The position of the first key with text `key`.
    pub(crate) fn key_position(&self, key: &str) -> (r: Option<usize>)
        ensures
            r matches Some(i) ==> i < self.keys.len() && self.key_index(key@) == Some(i as int),
            r is None ==> self.key_index(key@) is None,
    {
        let wanted = key.to_owned();
        let mut i: usize = 0;
        while i < self.keys.len()
            invariant
                i <= self.keys.len(),
                wanted@ == key@,
                forall|j: int| 0 <= j < i ==> !has_key_text(key@)(#[trigger] self.keys@[j]),
            decreases self.keys.len() - i,
        {
            if self.keys[i].key == wanted {
                proof {
                    lemma_first_match_found(self.keys@, has_key_text(key@), i as int);
                }
                return Some(i);
            }
            i += 1;
        }
        proof {
            lemma_no_match_found(self.keys@, has_key_text(key@));
        }
        None
    }

    /// The position of the first key with id `id`.
    pub(crate) fn key_id_position(&self, id: &str) -> (r: Option<usize>)
        ensures
            r matches Some(i) ==> i < self.keys.len() && self.key_id_index(id@) == Some(i as int),
            r is None ==> self.key_id_index(id@) is None,
    {
        let wanted = id.to_owned();
        let mut i: usize = 0;
        while i < self.keys.len()
            invariant
                i <= self.keys.len(),
                wanted@ == id@,
                forall|j: int| 0 <= j < i ==> !has_key_id(id@)(#[trigger] self.keys@[j]),
            decreases self.keys.len() - i,
        {
            if self.keys[i].id == wanted {
                proof {
                    lemma_first_match_found(self.keys@, has_key_id(id@), i as int);
                }
                return Some(i);
            }
            i += 1;
        }
        proof {
            lemma_no_match_found(self.keys@, has_key_id(id@));
        }
        None
    }

    /// The position of the first configuration of `username`.
    fn config_position(&self, username: &str) -> (r: Option<usize>)
        ensures
            r matches Some(i) ==> i < self.configs.len() && self.config_index(username@) == Some(i as int),
            r is None ==> self.config_index(username@) is None,
    {
        let wanted = username.to_owned();
        let mut i: usize = 0;
        while i < self.configs.len()
            invariant
                i <= self.configs.len(),
                wanted@ == username@,
                forall|j: int|
                    0 <= j < i ==> !is_config_of(username@)(#[trigger] self.configs@[j]),
            decreases self.configs.len() - i,
        {
            if self.configs[i].username == wanted {
                proof {
                    lemma_first_match_found(self.configs@, is_config_of(username@), i as int);
                }
                return Some(i);
            }
            i += 1;
        }
        proof {
            lemma_no_match_found(self.configs@, is_config_of(username@));
        }
        None
    }

    /// The position of the first cape of `username`.
    fn cape_position(&self, username: &str) -> (r: Option<usize>)
        ensures
            r matches Some(i) ==> i < self.capes.len() && self.cape_index(username@) == Some(i as int),
            r is None ==> self.cape_index(username@) is None,
    {
        let wanted = username.to_owned();
        let mut i: usize = 0;
        while i < self.capes.len()
            invariant
                i <= self.capes.len(),
                wanted@ == username@,
                forall|j: int| 0 <= j < i ==> !is_cape_of(username@)(#[trigger] self.capes@[j]),
            decreases self.capes.len() - i,
        {
            if self.capes[i].username == wanted {
                proof {
                    lemma_first_match_found(self.capes@, is_cape_of(username@), i as int);
                }
                return Some(i);
            }
            i += 1;
        }
        proof {
            lemma_no_match_found(self.capes@, is_cape_of(username@));
        }
        None
    }

    /// The first key whose text is `key`.
    pub fn find_key(&self, key: &str) -> (r: Option<&PremiumKey>)
        ensures
            match self.key_index(key@) {
                Some(i) => r == Some(&self.keys@[i]),
                None => r is None,
            },
    {
        match self.key_position(key) {
            Some(i) => Some(&self.keys[i]),
            None => None,
        }
    }

    /// The first key whose text is `key`, to be changed in place.
    pub fn find_key_mut(&mut self, key: &str) -> (r: Option<&mut PremiumKey>)
        ensures
            match old(self).key_index(key@) {
                Some(i) => {
                    &&& r is Some
                    &&& *r.unwrap() == old(self).keys@[i]
                    &&& final(self).keys@ == old(self).keys@.update(i, *final(r.unwrap()))
                },
                None => r is None && *final(self) == *old(self),
            },
            final(self).configs == old(self).configs,
            final(self).capes == old(self).capes,
            final(self).total_validations == old(self).total_validations,
            final(self).admin_password == old(self).admin_password,
            final(self).latest_version == old(self).latest_version,
            final(self).download_url == old(self).download_url,
            final(self).changelog == old(self).changelog,
    {
        match self.key_position(key) {
            Some(i) => Some(&mut self.keys[i]),
            None => None,
        }
    }

    /// The first key whose id is `id`.
    pub fn find_key_by_id(&self, id: &str) -> (r: Option<&PremiumKey>)
        ensures
            match self.key_id_index(id@) {
                Some(i) => r == Some(&self.keys@[i]),
                None => r is None,
            },
    {
        match self.key_id_position(id) {
            Some(i) => Some(&self.keys[i]),
            None => None,
        }
    }

    /// The first configuration synced by `username`.
    pub fn find_config(&self, username: &str) -> (r: Option<&UserConfig>)
        ensures
            match self.config_index(username@) {
                Some(i) => r == Some(&self.configs@[i]),
                None => r is None,
            },
    {
        match self.config_position(username) {
            Some(i) => Some(&self.configs[i]),
            None => None,
        }
    }

    /// The first cape of `username`.
    pub fn find_cape(&self, username: &str) -> (r: Option<&CapeEntry>)
        ensures
            match self.cape_index(username@) {
                Some(i) => r == Some(&self.capes@[i]),
                None => r is None,
            },
    {
        match self.cape_position(username) {
            Some(i) => Some(&self.capes[i]),
            None => None,
        }
    }

    /// How validating `req` at `now` would come out.
    pub fn key_verdict_at(&self, req: &ValidateKeyRequest, now: Timestamp) -> (v: KeyVerdict)
        ensures
            v == self.verdict(*req, now),
    {
        match self.key_position(req.key.as_str()) {
            None => KeyVerdict::UnknownKey,
            Some(i) => {
                let key = &self.keys[i];
                if !key.is_valid_at(now) {
                    if key.revoked {
                        KeyVerdict::Revoked
                    } else {
                        KeyVerdict::Expired
                    }
                } else {
                    match (&req.hwid, &key.hwid) {
                        (Some(hwid), Some(stored)) if !(*stored == *hwid) => {
                            KeyVerdict::LockedToOtherDevice
                        },
                        _ => KeyVerdict::Activated,
                    }
                }
            },
        }
    }

    /// Validates `req` at `now`: counts the validation, and for a key that
    /// grants premium binds it to the presented hardware ID on first use,
    /// records the use and claims an unowned key for the presented username.
    /// Answers with the response and whether the store is to be saved (all
    /// outcomes but a key locked to another device).
    pub fn validate_key_at(&mut self, req: &ValidateKeyRequest, now: Timestamp) -> (out: (
        ValidateKeyResponse,
        bool,
    ))
        requires
            old(self).total_validations < u64::MAX,
            old(self).verdict(*req, now) is Activated ==> old(self).keys@[old(self).key_index(
                req.key@,
            )->0].uses < u64::MAX,
        ensures
            validated(*old(self), *final(self), *req, now, out),
            final(self).keys@.len() == old(self).keys@.len(),
            forall|j: int|
                0 <= j < old(self).keys@.len() ==> (#[trigger] final(self).keys@[j]).key
                    == old(self).keys@[j].key,
            forall|j: int|
                0 <= j < old(self).keys@.len() && old(self).keys@[j].hwid is Some ==> (
                #[trigger] final(self).keys@[j]).hwid == old(self).keys@[j].hwid,
    {
        self.total_validations = self.total_validations + 1;
        let pos = self.key_position(req.key.as_str());
        match pos {
            None => (answer(false, "Invalid key", None, None), true),
            Some(i) => {
                if !self.keys[i].is_valid_at(now) {
                    let reason = if self.keys[i].revoked {
                        "Key has been revoked"
                    } else {
                        "Key has expired"
                    };
                    return (
                        answer(false, reason, self.keys[i].expires_at, copy_opt_string(&self.keys[i].owner)),
                        true,
                    );
                }
                let locked = match (&req.hwid, &self.keys[i].hwid) {
                    (Some(hwid), Some(stored)) => !(*stored == *hwid),
                    _ => false,
                };
                if locked {
                    return (
                        answer(
                            false,
                            "Key is locked to another device",
                            self.keys[i].expires_at,
                            copy_opt_string(&self.keys[i].owner),
                        ),
                        false,
                    );
                }
                let key = &mut self.keys[i];
                if key.hwid.is_none() {
                    if let Some(hwid) = &req.hwid {
                        key.hwid = Some(hwid.clone());
                    }
                }
                key.last_used = Some(now);
                key.uses = key.uses + 1;
                if let Some(username) = &req.username {
                    if key.owner.is_none() {
                        key.owner = Some(username.clone());
                    }
                }
                (answer(true, "Premium activated!", key.expires_at, copy_opt_string(&key.owner)), true)
            },
        }
    }

    /// Syncs `req` into the configuration of `req.username` at `now`,
    /// provided `req.key` grants premium then; refused as unauthorised, with
    /// nothing changed, otherwise. A user's first sync creates the
    /// configuration, with `{}` for each document not sent.
    pub fn sync_config_at(&mut self, req: SyncConfigRequest, now: Timestamp) -> (r: Result<
        (),
        ApiError,
    >)
        ensures
            synced(*old(self), *final(self), req, now, r),
    {
        let authorised = match self.key_position(req.key.as_str()) {
            Some(i) => self.keys[i].is_valid_at(now),
            None => false,
        };
        if !authorised {
            return Err(ApiError::Unauthorized);
        }
        match self.config_position(req.username.as_str()) {
            Some(j) => {
                let config = &mut self.configs[j];
                if let Some(modules) = req.modules {
                    config.modules = modules;
                }
                if let Some(keybinds) = req.keybinds {
                    config.keybinds = keybinds;
                }
                if let Some(gui_positions) = req.gui_positions {
                    config.gui_positions = gui_positions;
                }
                config.updated_at = now;
            },
            None => {
                let modules = match req.modules {
                    Some(m) => m,
                    None => empty_json_object(),
                };
                let keybinds = match req.keybinds {
                    Some(k) => k,
                    None => empty_json_object(),
                };
                let gui_positions = match req.gui_positions {
                    Some(g) => g,
                    None => empty_json_object(),
                };
                self.configs.push(
                    UserConfig {
                        username: req.username,
                        updated_at: now,
                        modules,
                        keybinds,
                        gui_positions,
                    },
                );
            },
        }
        Ok(())
    }

    /// Every key as the administrator's list shows it at `now`, in store order.
    pub fn list_keys_at(&self, now: Timestamp) -> (entries: Vec<KeyListEntry>)
        ensures
            entries@.len() == self.keys@.len(),
            forall|i: int|
                0 <= i < entries@.len() ==> lists(#[trigger] entries@[i], self.keys@[i], now),
    {
        let mut entries: Vec<KeyListEntry> = Vec::new();
        let mut i: usize = 0;
        while i < self.keys.len()
            invariant
                i <= self.keys.len(),
                entries@.len() == i,
                forall|j: int| 0 <= j < i ==> lists(#[trigger] entries@[j], self.keys@[j], now),
            decreases self.keys.len() - i,
        {
            entries.push(self.keys[i].list_entry(now));
            i += 1;
        }
        entries
    }

    /// The counters over the store at `now`.
    pub fn admin_stats_at(&self, now: Timestamp) -> (stats: AdminStats)
        ensures
            stats == self.stats_at(now),
    {
        let mut active: usize = 0;
        let mut revoked: usize = 0;
        let mut expired: usize = 0;
        let mut i: usize = 0;
        while i < self.keys.len()
            invariant
                i <= self.keys.len(),
                active == count_where(self.keys@.take(i as int), is_active_at(now)),
                revoked == count_where(self.keys@.take(i as int), is_revoked()),
                expired == count_where(self.keys@.take(i as int), is_expired_at(now)),
            decreases self.keys.len() - i,
        {
            proof {
                lemma_count_step(self.keys@, is_active_at(now), i as int);
                lemma_count_step(self.keys@, is_revoked(), i as int);
                lemma_count_step(self.keys@, is_expired_at(now), i as int);
                lemma_count_at_most_len(self.keys@.take(i as int), is_active_at(now));
                lemma_count_at_most_len(self.keys@.take(i as int), is_revoked());
                lemma_count_at_most_len(self.keys@.take(i as int), is_expired_at(now));
            }
            let key = &self.keys[i];
            if key.is_valid_at(now) {
                active = active + 1;
            }
            if key.revoked {
                revoked = revoked + 1;
            }
            if !key.revoked {
                if let Some(e) = key.expires_at {
                    if now.is_after(&e) {
                        expired = expired + 1;
                    }
                }
            }
            i += 1;
        }
        assert(self.keys@.take(i as int) =~= self.keys@);
        AdminStats {
            total_keys: self.keys.len(),
            active_keys: active,
            revoked_keys: revoked,
            expired_keys: expired,
            total_validations: self.total_validations,
            total_configs: self.configs.len(),
            total_capes: self.capes.len(),
        }
    }

    /// A store holding `seed` as its only key, no configurations or capes,
    /// no validations counted, and the default admin password and release
    /// details.
    pub fn with_seed_key(seed: PremiumKey) -> (store: Store)
        ensures
            store.keys@ == seq![seed],
            store.configs@.len() == 0,
            store.capes@.len() == 0,
            store.total_validations == 0,
            store.admin_password@ == "aegis-admin-2026"@,
            store.latest_version@ == "2.0.0"@,
            store.download_url@ == "https://aegisclient.github.io/site/aegis-launcher-1.0.0.jar"@,
            store.changelog@ == "v2.0.0: Premium system, 142 modules, launcher upgrade"@,
    {
        let mut keys: Vec<PremiumKey> = Vec::new();
        keys.push(seed);
        Store {
            keys,
            configs: Vec::new(),
            capes: Vec::new(),
            total_validations: 0,
            admin_password: String::from_str("aegis-admin-2026"),
            latest_version: String::from_str("2.0.0"),
            download_url: String::from_str(
                "https://aegisclient.github.io/site/aegis-launcher-1.0.0.jar",
            ),
            changelog: String::from_str("v2.0.0: Premium system, 142 modules, launcher upgrade"),
        }
    }

    /// A fresh store, seeded with the original premium key: permanent, owned
    /// by `arhan`, issued now under a random id.
    pub fn create_fresh() -> (store: Store)
        ensures
            store.keys@.len() == 1,
            store.keys@[0].key@ == "UltronJARVIS7232!"@,
            store.keys@[0].owner matches Some(o) && o@ == "arhan"@,
            store.keys@[0] == PremiumKey::issued(
                store.keys@[0].id,
                store.keys@[0].key,
                store.keys@[0].owner,
                store.keys@[0].created_at,
                None,
            ),
            is_uuid_v4_text(store.keys@[0].id@),
            0 <= store.keys@[0].created_at.secs <= latest_second(),
            store.keys@[0].created_at.nanos < 1_000_000_000,
            store.configs@.len() == 0,
            store.capes@.len() == 0,
            store.total_validations == 0,
            store.admin_password@ == "aegis-admin-2026"@,
            store.latest_version@ == "2.0.0"@,
            store.download_url@ == "https://aegisclient.github.io/site/aegis-launcher-1.0.0.jar"@,
            store.changelog@ == "v2.0.0: Premium system, 142 modules, launcher upgrade"@,
    {
        let seed = PremiumKey::new(
            String::from_str("UltronJARVIS7232!"),
            Some(String::from_str("arhan")),
            None,
        );
        Store::with_seed_key(seed)
    }

    /// Appends a key issued at `now` under `id` with text `key`, and answers
    /// with what was created.
    pub fn create_key(
        &mut self,
        id: String,
        key: String,
        owner: Option<String>,
        now: Timestamp,
        expires_at: Option<Timestamp>,
    ) -> (resp: CreateKeyResponse)
        ensures
            final(self).keys@ == old(self).keys@.push(
                PremiumKey::issued(id, key, owner, now, expires_at),
            ),
            final(self).same_but_keys(*old(self)),
            resp.id == id,
            resp.key == key,
            resp.owner == owner,
            resp.expires_at == expires_at,
    {
        let resp = CreateKeyResponse {
            id: id.clone(),
            key: key.clone(),
            owner: copy_opt_string(&owner),
            expires_at,
        };
        self.keys.push(PremiumKey::issue(id, key, owner, now, expires_at));
        resp
    }

    /// Creates the key `req` asks for at `now`: its expiry is `now` plus the
    /// days asked for (permanent when none are), its text the one given or a
    /// generated `AEGIS-` key, its id a random UUID. Answers `None`, with
    /// nothing changed, where chrono cannot add those days to `now`.
    pub fn create_key_at(&mut self, req: CreateKeyRequest, now: Timestamp) -> (r: Option<
        CreateKeyResponse,
    >)
        ensures
            created(*old(self), *final(self), req, now, r),
    {
        let expires_at = match req.expires_days {
            Some(days) => match add_days(now, days) {
                Some(t) => Some(t),
                None => {
                    return None;
                },
            },
            None => None,
        };
        let key = match req.key {
            Some(text) => text,
            None => generate_key(),
        };
        let id = new_uuid_v4_text();
        let resp = self.create_key(id, key, req.owner, now, expires_at);
        Some(resp)
    }
}

} // verus!
