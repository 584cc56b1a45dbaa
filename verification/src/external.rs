//! Calls into outside crates: random identifiers (`uuid`), the clock
//! (`chrono`), HMAC-SHA1 (`hmac-sha1-compact`) and hex encoding (`hex`).
use vstd::prelude::*;

verus! {

/// `c` is a digit or one of `a`..`f`.
pub open spec fn is_lower_hex_char(c: char) -> bool {
    ('0' <= c && c <= '9') || ('a' <= c && c <= 'f')
}

/// `s` has the shape of a random (version 4, RFC 9562 variant) UUID in the
/// lower-case hyphenated form `xxxxxxxx-xxxx-4xxx-Vxxx-xxxxxxxxxxxx`.
pub open spec fn is_uuid_v4_text(s: Seq<char>) -> bool {
    &&& s.len() == 36
    &&& forall|i: int|
        0 <= i < 36 ==> if i == 8 || i == 13 || i == 18 || i == 23 {
            s[i] == '-'
        } else {
            is_lower_hex_char(#[trigger] s[i])
        }
    &&& s[14] == '4'
    &&& (s[19] == '8' || s[19] == '9' || s[19] == 'a' || s[19] == 'b')
}

/// A fresh random identifier: `uuid::Uuid::new_v4()` rendered by its
/// `Display` impl (lower-case, hyphenated). Which value comes out is chance;
/// what is stated is the shape that every outcome has. `new_v4` panics only
/// when the operating system cannot supply random bytes; nothing here
/// rules that out.
#[verifier::external_body]
pub(crate) fn new_uuid_v4() -> (id: String)
    ensures
        is_uuid_v4_text(id@),
{
    uuid::Uuid::new_v4().to_string()
}

/// `c` is a decimal digit.
pub open spec fn is_digit_char(c: char) -> bool {
    '0' <= c && c <= '9'
}

/// The date and time around the `T` at position `k`: `-MM-DD` before it,
/// `HH:MM:SS` after it, at least four characters of year in front, then no
/// fraction or a `.` and three, six or nine digits, then `+00:00`.
pub open spec fn is_utc_rfc3339_at(s: Seq<char>, k: int) -> bool {
    &&& 10 <= k
    &&& s[k] == 'T'
    &&& s[k - 6] == '-' && s[k - 3] == '-'
    &&& is_digit_char(s[k - 5]) && is_digit_char(s[k - 4])
    &&& is_digit_char(s[k - 2]) && is_digit_char(s[k - 1])
    &&& is_digit_char(s[k + 1]) && is_digit_char(s[k + 2])
    &&& s[k + 3] == ':'
    &&& is_digit_char(s[k + 4]) && is_digit_char(s[k + 5])
    &&& s[k + 6] == ':'
    &&& is_digit_char(s[k + 7]) && is_digit_char(s[k + 8])
    &&& (s.len() == k + 15 || (s[k + 9] == '.' && (s.len() == k + 19 || s.len() == k + 22
        || s.len() == k + 25) && forall|j: int|
        k + 10 <= j < s.len() - 6 ==> is_digit_char(#[trigger] s[j])))
}

/// `s` has the shape of an RFC 3339 time stamp in UTC as chrono writes it:
/// `%Y-%m-%dT%H:%M:%S%.f+00:00`.
pub open spec fn is_utc_rfc3339_text(s: Seq<char>) -> bool {
    &&& s.len() >= 25
    &&& s.subrange(s.len() - 6, s.len() as int) == seq!['+', '0', '0', ':', '0', '0']
    &&& s.contains('T')
    &&& exists|k: int| is_utc_rfc3339_at(s, k)
}

/// The current time as `chrono::Utc::now().to_rfc3339()` renders it
/// (`%Y-%m-%dT%H:%M:%S%.f%:z` with offset zero, not using `Z`). Which time
/// comes out depends on the clock; what is stated is the shape that every
/// outcome has. `Utc::now` panics only when the system clock reads a time
/// before 1970; nothing here rules that out.
#[verifier::external_body]
pub(crate) fn now_rfc3339() -> (stamp: String)
    ensures
        is_utc_rfc3339_text(stamp@),
{
    chrono::Utc::now().to_rfc3339()
}

/// The tag that `hmac_sha1_compact::HMAC::mac(message, key)` computes:
/// HMAC-SHA1 of `message` under `key`.
pub uninterp spec fn hmac_sha1_tag(message: Seq<u8>, key: Seq<u8>) -> Seq<u8>;

/// `hmac_sha1_compact::HMAC::mac`: HMAC-SHA1 of `message` under `key`. The
/// result is named by `hmac_sha1_tag` of the two arguments; the crate returns
/// a `[u8; 20]`, hence the length.
#[verifier::external_body]
pub(crate) fn hmac_sha1(message: &[u8], key: &[u8]) -> (tag: Vec<u8>)
    ensures
        tag@ == hmac_sha1_tag(message@, key@),
        tag@.len() == 20,
{
    hmac_sha1_compact::HMAC::mac(message, key).to_vec()
}

/// Lower-case hex digit of a nibble.
pub open spec fn hex_digit_lower(n: nat) -> char
    recommends
        n < 16,
{
    if n < 10 {
        (48 + n) as char
    } else {
        (87 + n) as char
    }
}

/// Lower-case hex text of a byte string: for each byte its high nibble,
/// then its low nibble.
pub open spec fn lower_hex(bytes: Seq<u8>) -> Seq<char>
    decreases bytes.len(),
{
    if bytes.len() == 0 {
        seq![]
    } else {
        seq![hex_digit_lower((bytes[0] / 16) as nat), hex_digit_lower((bytes[0] % 16) as nat)]
            + lower_hex(bytes.drop_first())
    }
}

/// `hex::encode`: each byte as two lower-case hex digits, high nibble first
/// (the crate's `HEX_CHARS_LOWER` table indexed by `byte >> 4` and
/// `byte & 0x0f`).
#[verifier::external_body]
pub(crate) fn hex_encode(bytes: &[u8]) -> (text: String)
    ensures
        text@ == lower_hex(bytes@),
{
    hex::encode(bytes)
}

/// Hex text is twice as long as the bytes it encodes.
pub proof fn lemma_lower_hex_len(bytes: Seq<u8>)
    ensures
        lower_hex(bytes).len() == 2 * bytes.len(),
    decreases bytes.len(),
{
    if bytes.len() > 0 {
        lemma_lower_hex_len(bytes.drop_first());
    }
}

} // verus!
