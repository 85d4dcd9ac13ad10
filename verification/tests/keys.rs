use aegis_api::ids::{generate_key, key_from_uuids, key_segment};
use aegis_api::models::key_preview;
use aegis_api::{PremiumKey, Timestamp};

fn at(secs: i64) -> Timestamp {
    Timestamp { secs, nanos: 0 }
}

fn issued(key: &str, expires: Option<Timestamp>) -> PremiumKey {
    PremiumKey::issue("id-1".to_string(), key.to_string(), None, at(1_000), expires)
}

fn is_upper_hex(c: char) -> bool {
    c.is_ascii_digit() || ('A'..='F').contains(&c)
}

#[test]
fn timestamps_order_by_seconds_then_nanos() {
    let a = Timestamp { secs: 10, nanos: 5 };
    let b = Timestamp { secs: 10, nanos: 6 };
    let c = Timestamp { secs: 11, nanos: 0 };
    assert!(b.is_after(&a));
    assert!(!a.is_after(&b));
    assert!(c.is_after(&b));
    assert!(!a.is_after(&a));
}

#[test]
fn issued_key_is_fresh() {
    let k = PremiumKey::issue(
        "id-9".to_string(),
        "ABC".to_string(),
        Some("bob".to_string()),
        at(5),
        Some(at(50)),
    );
    assert_eq!(k.id, "id-9");
    assert_eq!(k.key, "ABC");
    assert_eq!(k.owner, Some("bob".to_string()));
    assert_eq!(k.created_at, at(5));
    assert_eq!(k.expires_at, Some(at(50)));
    assert!(!k.revoked);
    assert_eq!(k.hwid, None);
    assert_eq!(k.last_used, None);
    assert_eq!(k.uses, 0);
}

#[test]
fn new_key_gets_uuid_id_and_current_time() {
    let k = PremiumKey::new("KEY".to_string(), Some("arhan".to_string()), None);
    assert_eq!(k.id.len(), 36);
    assert_eq!(k.id.chars().nth(14), Some('4'));
    assert_eq!(k.id.chars().filter(|c| *c == '-').count(), 4);
    // 2020-01-01T00:00:00Z lies in the past
    assert!(k.created_at.secs > 1_577_836_800);
    assert_eq!(k.key, "KEY");
    assert_eq!(k.owner, Some("arhan".to_string()));
    assert!(!k.revoked);
    assert_eq!(k.uses, 0);
    let other = PremiumKey::new("KEY".to_string(), None, None);
    assert_ne!(k.id, other.id);
}

#[test]
fn validity_at_a_given_time() {
    let permanent = issued("A", None);
    assert!(permanent.is_valid_at(at(1)));
    assert!(permanent.is_valid_at(at(i64::MAX)));
    let expiring = issued("A", Some(at(100)));
    assert!(expiring.is_valid_at(at(99)));
    assert!(expiring.is_valid_at(at(100)));
    assert!(!expiring.is_valid_at(Timestamp { secs: 100, nanos: 1 }));
    assert!(!expiring.is_valid_at(at(101)));
    let mut revoked = issued("A", None);
    revoked.revoked = true;
    assert!(!revoked.is_valid_at(at(1)));
}

#[test]
fn validity_now_reads_the_clock() {
    // expired at the Unix epoch: invalid now
    assert!(!issued("A", Some(at(0))).is_valid());
    // expires in the year 2400: valid now
    assert!(issued("A", Some(at(13_569_465_600))).is_valid());
    assert!(issued("A", None).is_valid());
    let mut revoked = issued("A", None);
    revoked.revoked = true;
    assert!(!revoked.is_valid());
}

#[test]
fn status_text_per_state() {
    let now = at(200);
    assert_eq!(issued("A", None).status_text(now), "active");
    assert_eq!(issued("A", Some(at(100))).status_text(now), "expired");
    let mut revoked = issued("A", Some(at(100)));
    revoked.revoked = true;
    assert_eq!(revoked.status_text(now), "revoked");
}

#[test]
fn preview_shows_four_and_two_characters() {
    assert_eq!(key_preview("UltronJARVIS7232!"), "Ultr...2!");
    assert_eq!(key_preview("ABCDEFG"), "ABCD...FG");
    assert_eq!(key_preview("ABCDEF"), "ABCDEF");
    assert_eq!(key_preview(""), "");
    assert_eq!(key_preview("ñandúes-ok"), "ñand...ok");
}

#[test]
fn list_entry_copies_the_key() {
    let mut k = issued("AEGIS-12345-67890", Some(at(100)));
    k.owner = Some("bob".to_string());
    k.hwid = Some("hw".to_string());
    k.uses = 3;
    k.last_used = Some(at(50));
    let e = k.list_entry(at(10));
    assert_eq!(e.id, "id-1");
    assert_eq!(e.key_preview, "AEGI...90");
    assert_eq!(e.owner, Some("bob".to_string()));
    assert_eq!(e.created_at, at(1_000));
    assert_eq!(e.expires_at, Some(at(100)));
    assert!(!e.revoked);
    assert_eq!(e.hwid, Some("hw".to_string()));
    assert_eq!(e.last_used, Some(at(50)));
    assert_eq!(e.uses, 3);
    assert_eq!(e.status, "active");
}

#[test]
fn segment_is_first_five_hex_digits_uppercased() {
    assert_eq!(key_segment("67e55044-10b1-426f-9247-bb680e5fe0c8"), "67E55");
    assert_eq!(key_segment("abcdef01-10b1-426f-9247-bb680e5fe0c8"), "ABCDE");
}

#[test]
fn key_from_four_uuids() {
    let key = key_from_uuids(
        "67e55044-10b1-426f-9247-bb680e5fe0c8",
        "abcdef01-10b1-426f-9247-bb680e5fe0c8",
        "0123456f-10b1-426f-9247-bb680e5fe0c8",
        "fffff000-10b1-426f-9247-bb680e5fe0c8",
    );
    assert_eq!(key, "AEGIS-67E55-ABCDE-01234-FFFFF");
}

#[test]
fn generated_key_shape() {
    let key = generate_key();
    assert_eq!(key.len(), 29);
    assert!(key.starts_with("AEGIS-"));
    for (i, c) in key.chars().enumerate().skip(6) {
        if i == 11 || i == 17 || i == 23 {
            assert_eq!(c, '-');
        } else {
            assert!(is_upper_hex(c), "unexpected {c} at {i}");
        }
    }
    assert_ne!(generate_key(), key);
}
