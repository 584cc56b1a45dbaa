//! Registration of Matrix accounts through the Synapse shared-secret admin
//! API: the request URL, the HMAC over the registration fields, the request
//! body and how the server's answer is judged.
use vstd::prelude::*;
use vstd::utf8::encode_utf8;
use crate::external::{hmac_sha1, hmac_sha1_tag, hex_encode, lower_hex, lemma_lower_hex_len};
use crate::text::push_str;

verus! {

/// The Synapse shared-secret registration endpoint of a homeserver.
pub open spec fn register_url_spec(matrix_hostname: Seq<char>) -> Seq<char> {
    "https://"@ + matrix_hostname + "/_synapse/admin/v1/register"@
}

/// `https://{matrix_hostname}/_synapse/admin/v1/register`.
pub fn register_url(matrix_hostname: &str) -> (url: String)
    ensures
        url@ == "https://"@ + matrix_hostname@ + "/_synapse/admin/v1/register"@,
        url@ == register_url_spec(matrix_hostname@),
{
    let mut url = String::new();
    push_str(&mut url, "https://");
    push_str(&mut url, matrix_hostname);
    push_str(&mut url, "/_synapse/admin/v1/register");
    assert(url@ =~= register_url_spec(matrix_hostname@));
    url
}

/// The role word that ends the signed registration fields.
pub open spec fn admin_word(admin: bool) -> Seq<char> {
    if admin {
        "admin"@
    } else {
        "notadmin"@
    }
}

/// The bytes that the registration MAC signs: the UTF-8 of nonce, user name,
/// password and role word, separated by NUL bytes.
pub open spec fn mac_message(
    nonce: Seq<char>,
    username: Seq<char>,
    password: Seq<char>,
    admin: bool,
) -> Seq<u8> {
    encode_utf8(nonce) + seq![0u8] + encode_utf8(username) + seq![0u8] + encode_utf8(password)
        + seq![0u8] + encode_utf8(admin_word(admin))
}

/// The registration MAC: lower-case hex of HMAC-SHA1 over `mac_message`,
/// keyed with the UTF-8 of the shared secret.
pub open spec fn registration_mac_spec(
    nonce: Seq<char>,
    username: Seq<char>,
    password: Seq<char>,
    admin: bool,
    shared_secret: Seq<char>,
) -> Seq<char> {
    lower_hex(hmac_sha1_tag(mac_message(nonce, username, password, admin), encode_utf8(shared_secret)))
}

fn append_bytes(v: &mut Vec<u8>, bytes: &[u8])
    ensures
        final(v)@ == old(v)@ + bytes@,
{
    let n = bytes.len();
    let mut i: usize = 0;
    while i < n
        invariant
            n == bytes@.len(),
            i <= n,
            v@ == old(v)@ + bytes@.subrange(0, i as int),
        decreases n - i,
    {
        v.push(bytes[i]);
        i = i + 1;
        assert(v@ =~= old(v)@ + bytes@.subrange(0, i as int));
    }
    assert(bytes@.subrange(0, n as int) =~= bytes@);
}

/// The bytes that the registration MAC signs.
pub fn registration_mac_message(nonce: &str, username: &str, password: &str, admin: bool) -> (message: Vec<u8>)
    ensures
        message@ == encode_utf8(nonce@) + seq![0u8] + encode_utf8(username@) + seq![0u8]
            + encode_utf8(password@) + seq![0u8] + if admin {
            encode_utf8("admin"@)
        } else {
            encode_utf8("notadmin"@)
        },
        message@ == mac_message(nonce@, username@, password@, admin),
{
    let mut message: Vec<u8> = Vec::new();
    append_bytes(&mut message, nonce.as_bytes());
    message.push(0u8);
    append_bytes(&mut message, username.as_bytes());
    message.push(0u8);
    append_bytes(&mut message, password.as_bytes());
    message.push(0u8);
    if admin {
        append_bytes(&mut message, "admin".as_bytes());
    } else {
        append_bytes(&mut message, "notadmin".as_bytes());
    }
    assert(message@ =~= mac_message(nonce@, username@, password@, admin));
    message
}

/// The registration MAC of the given fields under the shared secret.
pub fn registration_mac(
    nonce: &str,
    username: &str,
    password: &str,
    admin: bool,
    shared_secret: &str,
) -> (mac: String)
    ensures
        mac@ == registration_mac_spec(nonce@, username@, password@, admin, shared_secret@),
        mac@.len() == 40,
{
    let message = registration_mac_message(nonce, username, password, admin);
    let tag = hmac_sha1(message.as_slice(), shared_secret.as_bytes());
    let mac = hex_encode(tag.as_slice());
    proof {
        lemma_lower_hex_len(tag@);
    }
    mac
}

/// The body of a registration request.
pub struct RegistrationRequest {
    pub nonce: String,
    pub username: String,
    pub password: String,
    pub admin: bool,
    pub mac: String,
}

/// Why an account could not be registered.
#[derive(PartialEq, Eq, Structural, Debug, Clone, Copy)]
pub enum RegistrationError {
    /// The nonce endpoint answered without a string `nonce` member.
    MissingNonce,
    /// The registration endpoint answered with a status outside 2xx.
    Rejected,
}

/// Builds the registration body from the `nonce` member of the nonce
/// endpoint's answer (`None` where the answer has no string `nonce`).
pub fn registration_request(
    nonce: Option<String>,
    username: &str,
    password: &str,
    admin: bool,
    shared_secret: &str,
) -> (r: Result<RegistrationRequest, RegistrationError>)
    ensures
        nonce is None <==> r == Err::<RegistrationRequest, RegistrationError>(RegistrationError::MissingNonce),
        nonce is Some <==> r is Ok,
        r matches Ok(req) ==> {
            &&& nonce matches Some(n) && req.nonce@ == n@
            &&& req.username@ == username@
            &&& req.password@ == password@
            &&& req.admin == admin
            &&& req.mac@ == registration_mac_spec(req.nonce@, username@, password@, admin, shared_secret@)
            &&& req.mac@.len() == 40
        },
{
    match nonce {
        None => Err(RegistrationError::MissingNonce),
        Some(n) => {
            let mac = registration_mac(n.as_str(), username, password, admin, shared_secret);
            Ok(RegistrationRequest {
                nonce: n,
                username: username.to_owned(),
                password: password.to_owned(),
                admin,
                mac,
            })
        },
    }
}

/// Judges the registration endpoint's answer by its HTTP status: success is
/// a 2xx status.
pub fn registration_outcome(status: u16) -> (r: Result<(), RegistrationError>)
    ensures
        r is Ok <==> 200 <= status < 300,
        r is Err ==> r == Err::<(), RegistrationError>(RegistrationError::Rejected),
{
    if 200 <= status && status < 300 {
        Ok(())
    } else {
        Err(RegistrationError::Rejected)
    }
}

} // verus!
