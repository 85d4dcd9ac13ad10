use vstd::prelude::*;

verus! {

/// `c` is one of the digits `0`-`9` or the lowercase letters `a`-`f`.
pub open spec fn is_lower_hex_digit(c: char) -> bool {
    ||| ('0' <= c && c <= '9')
    ||| ('a' <= c && c <= 'f')
}

/// `c` is one of the digits `0`-`9` or the uppercase letters `A`-`F`.
pub open spec fn is_upper_hex_digit(c: char) -> bool {
    ||| ('0' <= c && c <= '9')
    ||| ('A' <= c && c <= 'F')
}

/// The positions of the four hyphens in the hyphenated text of a UUID.
pub open spec fn is_uuid_hyphen_position(i: int) -> bool {
    i == 8 || i == 13 || i == 18 || i == 23
}

/// `s` is the lowercase hyphenated text of a version-4 UUID:
/// `xxxxxxxx-xxxx-4xxx-yxxx-xxxxxxxxxxxx`, 32 lowercase hex digits in groups
/// of 8, 4, 4, 4 and 12, the version digit `4`, and a variant digit `y`
/// among `8`, `9`, `a`, `b`.
pub open spec fn is_uuid_v4_text(s: Seq<char>) -> bool {
    &&& s.len() == 36
    &&& forall|i: int|
        0 <= i < 36 ==> if is_uuid_hyphen_position(i) {
            s[i] == '-'
        } else {
            is_lower_hex_digit(#[trigger] s[i])
        }
    &&& s[14] == '4'
    &&& (s[19] == '8' || s[19] == '9' || s[19] == 'a' || s[19] == 'b')
}

/// The ASCII uppercase of `c`: `a`-`z` become `A`-`Z`, every other character
/// stays as it is.
pub open spec fn ascii_upper(c: char) -> char {
    if 'a' <= c && c <= 'z' {
        ((c as u32) - 32) as char
    } else {
        c
    }
}

/// Every character of `s` is ASCII.
pub open spec fn all_ascii(s: Seq<char>) -> bool {
    forall|i: int| 0 <= i < s.len() ==> (#[trigger] s[i] as u32) < 128
}

/// One segment of a generated premium key: the first five hex digits of a
/// UUID's text, in uppercase.
pub open spec fn key_segment_of(uuid_text: Seq<char>) -> Seq<char> {
    uuid_text.subrange(0, 5).map_values(|c: char| ascii_upper(c))
}

/// The premium key made of four UUIDs: `AEGIS-` and one segment of each,
/// joined by hyphens.
pub open spec fn key_from_uuid_texts(
    a: Seq<char>,
    b: Seq<char>,
    c: Seq<char>,
    d: Seq<char>,
) -> Seq<char> {
    "AEGIS-"@ + key_segment_of(a) + "-"@ + key_segment_of(b) + "-"@ + key_segment_of(c) + "-"@
        + key_segment_of(d)
}

/// `s` has the shape of a generated premium key:
/// `AEGIS-XXXXX-XXXXX-XXXXX-XXXXX` with uppercase hex digits for `X`.
pub open spec fn is_generated_key_text(s: Seq<char>) -> bool {
    &&& s.len() == 29
    &&& s.subrange(0, 6) == "AEGIS-"@
    &&& forall|i: int|
        6 <= i < 29 ==> if i == 11 || i == 17 || i == 23 {
            s[i] == '-'
        } else {
            is_upper_hex_digit(#[trigger] s[i])
        }
}

/// Calls `uuid::Uuid::new_v4` and renders the result with `to_string`. uuid
/// sets the version and variant bits of 122 random bits and prints the
/// lowercase hyphenated form; which UUID comes out is left open.
#[verifier::external_body]
pub(crate) fn new_uuid_v4_text() -> (s: String)
    ensures
        is_uuid_v4_text(s@),
{
    uuid::Uuid::new_v4().to_string()
}

/// Calls `str::to_uppercase`. On text that is all ASCII, Unicode's uppercase
/// mapping is the ASCII one; on other text nothing is stated.
#[verifier::external_body]
fn to_uppercase(s: &str) -> (r: String)
    ensures
        all_ascii(s@) ==> r@ == s@.map_values(|c: char| ascii_upper(c)),
{
    s.to_uppercase()
}

/// The segment that a generated key takes from one UUID: its first five hex
/// digits (the hyphenated text has its first hyphen after eight), uppercased.
pub fn key_segment(uuid_text: &str) -> (seg: String)
    requires
        is_uuid_v4_text(uuid_text@),
    ensures
        seg@ == key_segment_of(uuid_text@),
{
    let head = uuid_text.substring_char(0, 5);
    assert(all_ascii(head@)) by {
        assert forall|i: int| 0 <= i < head@.len() implies (#[trigger] head@[i] as u32) < 128 by {
            assert(head@[i] == uuid_text@[i]);
            assert(is_lower_hex_digit(uuid_text@[i]));
        }
    }
    to_uppercase(head)
}

/// The premium key built from four UUID texts: `AEGIS-` followed by one
/// segment of each, joined by hyphens.
pub fn key_from_uuids(a: &str, b: &str, c: &str, d: &str) -> (key: String)
    requires
        is_uuid_v4_text(a@),
        is_uuid_v4_text(b@),
        is_uuid_v4_text(c@),
        is_uuid_v4_text(d@),
    ensures
        key@ == key_from_uuid_texts(a@, b@, c@, d@),
        is_generated_key_text(key@),
{
    let sa = key_segment(a);
    let sb = key_segment(b);
    let sc = key_segment(c);
    let sd = key_segment(d);
    let mut key = String::from_str("AEGIS-");
    key.append(sa.as_str());
    key.append("-");
    key.append(sb.as_str());
    key.append("-");
    key.append(sc.as_str());
    key.append("-");
    key.append(sd.as_str());
    proof {
        lemma_generated_key_shape(a@, b@, c@, d@);
    }
    key
}

/// A segment of a UUID's text is five uppercase hex digits.
proof fn lemma_segment_shape(u: Seq<char>)
    requires
        is_uuid_v4_text(u),
    ensures
        key_segment_of(u).len() == 5,
        forall|i: int| 0 <= i < 5 ==> is_upper_hex_digit(#[trigger] key_segment_of(u)[i]),
{
    assert forall|i: int| 0 <= i < 5 implies is_upper_hex_digit(#[trigger] key_segment_of(u)[i]) by {
        assert(is_lower_hex_digit(u[i]));
        assert(key_segment_of(u)[i] == ascii_upper(u[i]));
        let c = u[i];
        if 'a' <= c && c <= 'f' {
            assert(('a' as u32) - 32 == 'A' as u32);
            assert(('f' as u32) - 32 == 'F' as u32);
        }
    }
}

/// Four UUID texts give a key of the generated shape.
proof fn lemma_generated_key_shape(a: Seq<char>, b: Seq<char>, c: Seq<char>, d: Seq<char>)
    requires
        is_uuid_v4_text(a),
        is_uuid_v4_text(b),
        is_uuid_v4_text(c),
        is_uuid_v4_text(d),
    ensures
        is_generated_key_text(key_from_uuid_texts(a, b, c, d)),
{
    reveal_strlit("AEGIS-");
    reveal_strlit("-");
    lemma_segment_shape(a);
    lemma_segment_shape(b);
    lemma_segment_shape(c);
    lemma_segment_shape(d);
    let k = key_from_uuid_texts(a, b, c, d);
    assert(k.len() == 29);
    assert(k.subrange(0, 6) =~= "AEGIS-"@);
    assert forall|i: int|
        6 <= i < 29 implies if i == 11 || i == 17 || i == 23 {
            k[i] == '-'
        } else {
            is_upper_hex_digit(#[trigger] k[i])
        } by {
        if 6 <= i < 11 {
            assert(k[i] == key_segment_of(a)[i - 6]);
        } else if 12 <= i < 17 {
            assert(k[i] == key_segment_of(b)[i - 12]);
        } else if 18 <= i < 23 {
            assert(k[i] == key_segment_of(c)[i - 18]);
        } else if 24 <= i < 29 {
            assert(k[i] == key_segment_of(d)[i - 24]);
        }
    }
}

/// A fresh premium key: four random version-4 UUIDs, each giving one segment,
/// as in `AEGIS-1F3A9-0B2C4-77D10-E5A2B`.
pub fn generate_key() -> (key: String)
    ensures
        is_generated_key_text(key@),
{
    let a = new_uuid_v4_text();
    let b = new_uuid_v4_text();
    let c = new_uuid_v4_text();
    let d = new_uuid_v4_text();
    key_from_uuids(a.as_str(), b.as_str(), c.as_str(), d.as_str())
}

} // verus!
