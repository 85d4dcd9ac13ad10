use vstd::prelude::*;

use crate::lookup::{
    first_index, lemma_first_index_agrees, is_first_match, lemma_count_at_most_len, lemma_count_partition, lemma_first_index,
    lemma_first_match_found,
};
use crate::models::{
    ApiError, CreateKeyRequest, CreateKeyResponse, PremiumKey, SyncConfigRequest, ValidateKeyRequest, ValidateKeyResponse,
};
use crate::store::{
    activated, created, has_key_text, is_active_at, is_config_of, is_expired_at, is_revoked, synced, validated,
    Store,
};
use crate::time::Timestamp;

verus! {

/// Replacing the element at the first match of `p` by one that still
/// satisfies `p` leaves the first match where it was.
proof fn lemma_first_match_kept<A>(s: Seq<A>, p: spec_fn(A) -> bool, i: int, x: A)
    requires
        first_index(s, p) == Some(i),
        p(x),
    ensures
        first_index(s.update(i, x), p) == Some(i),
{
    lemma_first_index(s, p);
    let t = s.update(i, x);
    assert forall|j: int| 0 <= j < i implies !p(#[trigger] t[j]) by {
        assert(t[j] == s[j]);
    }
    assert(is_first_match(t, p, i));
    lemma_first_match_found(t, p, i);
}

/// Every key is exactly one of active, revoked, or expired at any one time,
/// so the administrator's counters add up: active, revoked and expired keys
/// together are all the keys.
pub proof fn lemma_stats_partition(store: Store, now: Timestamp)
    ensures
        store.stats_at(now).active_keys + store.stats_at(now).revoked_keys
            + store.stats_at(now).expired_keys == store.stats_at(now).total_keys,
{
    lemma_count_partition(store.keys@, is_active_at(now), is_revoked(), is_expired_at(now));
    lemma_count_at_most_len(store.keys@, is_active_at(now));
    lemma_count_at_most_len(store.keys@, is_revoked());
    lemma_count_at_most_len(store.keys@, is_expired_at(now));
    assert(store.keys@.len() == store.keys.len());
}

/// A revoked key never grants premium, an unrevoked key without expiry
/// always does, and a key that has expired stays expired at every later time.
pub proof fn lemma_validity_over_time(k: PremiumKey, earlier: Timestamp, later: Timestamp)
    requires
        later.later_than(earlier) || later == earlier,
    ensures
        k.revoked ==> !k.valid_at(later),
        (!k.revoked && k.expires_at is None) ==> k.valid_at(later),
        !k.valid_at(earlier) ==> !k.valid_at(later),
{
}

/// The list shows a key as `active` exactly when it grants premium at the
/// listing time.
pub proof fn lemma_status_active_iff_valid(k: PremiumKey, now: Timestamp)
    ensures
        (k.status_at(now) == "active"@) <==> k.valid_at(now),
{
    reveal_strlit("active");
    reveal_strlit("revoked");
    reveal_strlit("expired");
    if k.revoked {
        assert(k.status_at(now)[0] != "active"@[0]);
    } else if k.expired_at(now) {
        assert(k.status_at(now)[0] != "active"@[0]);
    }
}

/// First use binds a key to the hardware it was presented with: once a
/// validation with a hardware ID has activated a key, a later validation of
/// that key with another hardware ID, at a time the key still grants
/// premium, is refused as locked to another device.
pub proof fn lemma_first_use_binds_device(
    pre: Store,
    post: Store,
    req: ValidateKeyRequest,
    now: Timestamp,
    out: (ValidateKeyResponse, bool),
    other: ValidateKeyRequest,
    later: Timestamp,
)
    requires
        validated(pre, post, req, now, out),
        pre.verdict(req, now) is Activated,
        req.hwid is Some,
        other.key@ == req.key@,
        other.hwid matches Some(h) && h@ != req.hwid->0@,
        post.keys@[pre.key_index(req.key@)->0].valid_at(later),
    ensures
        post.verdict(other, later) is LockedToOtherDevice,
{
    let i: int = pre.key_index(req.key@)->0;
    lemma_first_index(pre.keys@, has_key_text(req.key@));
    lemma_first_match_kept(pre.keys@, has_key_text(req.key@), i, post.keys@[i]);
    assert(post.keys@ == pre.keys@.update(i, post.keys@[i]));
}

/// A validation never takes a key away from its owner: a key that had an
/// owner has the same owner afterwards.
pub proof fn lemma_owner_is_kept(
    pre: Store,
    post: Store,
    req: ValidateKeyRequest,
    now: Timestamp,
    out: (ValidateKeyResponse, bool),
    i: int,
)
    requires
        validated(pre, post, req, now, out),
        0 <= i < pre.keys@.len(),
        pre.keys@[i].owner is Some,
    ensures
        post.keys@[i].owner == pre.keys@[i].owner,
{
    match pre.key_index(req.key@) {
        Some(k) => {
            lemma_first_index(pre.keys@, has_key_text(req.key@));
            if pre.verdict(req, now) is Activated {
                assert(post.keys@ == pre.keys@.update(k, activated(pre.keys@[k], req, now)));
            } else {
                assert(post.keys@ == pre.keys@);
            }
        },
        None => {
            assert(post.keys@ == pre.keys@);
        },
    }
}

/// A revoked key is refused: after the key with some id is revoked, a
/// validation of its text, where it is the first key with that text, comes
/// out as revoked at any time.
pub proof fn lemma_revoked_key_is_refused(
    pre: Store,
    post: Store,
    i: int,
    req: ValidateKeyRequest,
    now: Timestamp,
)
    requires
        0 <= i < pre.keys@.len(),
        post.keys@ == pre.keys@.update(i, PremiumKey { revoked: true, ..pre.keys@[i] }),
        pre.key_index(req.key@) == Some(i),
    ensures
        post.verdict(req, now) is Revoked,
{
    lemma_first_index(pre.keys@, has_key_text(req.key@));
    lemma_first_match_kept(
        pre.keys@,
        has_key_text(req.key@),
        i,
        PremiumKey { revoked: true, ..pre.keys@[i] },
    );
}

/// A newly created key works: once a key is appended whose text no earlier
/// key has, a validation of that text at a time it has not expired
/// activates it.
pub proof fn lemma_created_key_validates(
    pre: Store,
    post: Store,
    k: PremiumKey,
    req: ValidateKeyRequest,
    now: Timestamp,
)
    requires
        post.keys@ == pre.keys@.push(k),
        k == PremiumKey::issued(k.id, k.key, k.owner, k.created_at, k.expires_at),
        !k.expired_at(now),
        pre.key_index(k.key@) is None,
        req.key@ == k.key@,
    ensures
        post.verdict(req, now) is Activated,
{
    lemma_first_index(pre.keys@, has_key_text(req.key@));
    let n: int = pre.keys@.len() as int;
    assert forall|j: int| 0 <= j < n implies !has_key_text(req.key@)(#[trigger] post.keys@[j]) by {
        assert(post.keys@[j] == pre.keys@[j]);
    }
    assert(is_first_match(post.keys@, has_key_text(req.key@), n));
    lemma_first_match_found(post.keys@, has_key_text(req.key@), n);
}

/// What a sync writes is what a read gives back: after a successful sync,
/// the first configuration of the user is the one synced, stamped with the
/// sync time and holding every document that was sent.
pub proof fn lemma_synced_config_reads_back(
    pre: Store,
    post: Store,
    req: SyncConfigRequest,
    now: Timestamp,
    r: Result<(), ApiError>,
)
    requires
        synced(pre, post, req, now, r),
        r is Ok,
    ensures
        post.config_index(req.username@) matches Some(j) && {
            let c = post.configs@[j];
            &&& c.username@ == req.username@
            &&& c.updated_at == now
            &&& req.modules matches Some(m) ==> c.modules == m
            &&& req.keybinds matches Some(k) ==> c.keybinds == k
            &&& req.gui_positions matches Some(g) ==> c.gui_positions == g
        },
{
    let p = is_config_of(req.username@);
    lemma_first_index(pre.configs@, p);
    match pre.config_index(req.username@) {
        Some(j) => {
            lemma_first_match_kept(pre.configs@, p, j, post.configs@[j]);
            assert(post.configs@ == pre.configs@.update(j, post.configs@[j]));
        },
        None => {
            let n: int = pre.configs@.len() as int;
            assert forall|j: int| 0 <= j < n implies !p(#[trigger] post.configs@[j]) by {
                assert(post.configs@[j] == post.configs@.subrange(0, n)[j]);
            }
            assert(is_first_match(post.configs@, p, n));
            lemma_first_match_found(post.configs@, p, n);
        },
    }
}

/// Key texts are not checked for duplicates: creating a key whose text an
/// earlier key already has still appends it, and lookups by that text keep
/// finding the earlier key.
pub proof fn lemma_duplicate_text_keeps_earlier_key(
    pre: Store,
    post: Store,
    req: CreateKeyRequest,
    now: Timestamp,
    r: Option<CreateKeyResponse>,
    text: String,
)
    requires
        created(pre, post, req, now, r),
        r is Some,
        req.key == Some(text),
        pre.key_index(text@) is Some,
    ensures
        post.keys@.len() == pre.keys@.len() + 1,
        post.keys@.last().key == text,
        post.key_index(text@) == pre.key_index(text@),
{
    let p = has_key_text(text@);
    let j: int = pre.key_index(text@)->0;
    lemma_first_index(pre.keys@, p);
    assert forall|m: int| 0 <= m < j implies !p(#[trigger] post.keys@[m]) by {
        assert(post.keys@[m] == pre.keys@[m]);
    }
    assert(post.keys@[j] == pre.keys@[j]);
    assert(is_first_match(post.keys@, p, j));
    lemma_first_match_found(post.keys@, p, j);
}

/// A validation keeps every key's text where it stands and never changes a
/// hardware ID that a key is already bound to: binding happens only on a
/// key's first use with a hardware ID, and a validation without one leaves
/// the binding alone.
pub proof fn lemma_binding_is_never_changed(
    pre: Store,
    post: Store,
    req: ValidateKeyRequest,
    now: Timestamp,
    out: (ValidateKeyResponse, bool),
)
    requires
        validated(pre, post, req, now, out),
    ensures
        post.keys@.len() == pre.keys@.len(),
        forall|j: int| 0 <= j < pre.keys@.len() ==> (#[trigger] post.keys@[j]).key == pre.keys@[j].key,
        forall|j: int|
            0 <= j < pre.keys@.len() && pre.keys@[j].hwid is Some ==> (
            #[trigger] post.keys@[j]).hwid == pre.keys@[j].hwid,
        forall|text: Seq<char>| #[trigger] post.key_index(text) == pre.key_index(text),
{
    match pre.key_index(req.key@) {
        Some(k) => {
            lemma_first_index(pre.keys@, has_key_text(req.key@));
            if pre.verdict(req, now) is Activated {
                assert(post.keys@ == pre.keys@.update(k, activated(pre.keys@[k], req, now)));
            } else {
                assert(post.keys@ == pre.keys@);
            }
        },
        None => {
            assert(post.keys@ == pre.keys@);
        },
    }
    assert forall|text: Seq<char>| #[trigger] post.key_index(text) == pre.key_index(text) by {
        let p = has_key_text(text);
        assert forall|j: int| 0 <= j < post.keys@.len() implies p(#[trigger] post.keys@[j]) == p(
            pre.keys@[j],
        ) by {}
        lemma_first_index_agrees(post.keys@, pre.keys@, p);
    }
}

/// Once the first key with some text is bound to a device, it stays bound
/// through any validation, with or without a hardware ID: after it, a
/// validation of that text from another device, at a time the key grants
/// premium, is refused as locked to another device.
pub proof fn lemma_bound_key_stays_locked(
    pre: Store,
    post: Store,
    req: ValidateKeyRequest,
    now: Timestamp,
    out: (ValidateKeyResponse, bool),
    other: ValidateKeyRequest,
    later: Timestamp,
)
    requires
        validated(pre, post, req, now, out),
        pre.key_index(other.key@) matches Some(i) && pre.keys@[i].hwid matches Some(bound) && (
        other.hwid matches Some(h) && h@ != bound@) && post.keys@[i].valid_at(later),
    ensures
        post.verdict(other, later) is LockedToOtherDevice,
{
    lemma_binding_is_never_changed(pre, post, req, now, out);
    let i: int = pre.key_index(other.key@)->0;
    lemma_first_index(pre.keys@, has_key_text(other.key@));
    assert(post.key_index(other.key@) == pre.key_index(other.key@));
}

/// A key created with an expiry a positive number of days away grants
/// premium at the instant it is issued, and until its expiry.
pub proof fn lemma_created_key_valid_when_issued(
    pre: Store,
    post: Store,
    req: CreateKeyRequest,
    now: Timestamp,
    r: Option<CreateKeyResponse>,
)
    requires
        created(pre, post, req, now, r),
        r is Some,
        now.nanos < 1_000_000_000,
        req.expires_days matches Some(days) ==> days >= 0,
    ensures
        post.keys@.last().created_at == now,
        post.keys@.last().valid_at(now),
{
}

} // verus!
