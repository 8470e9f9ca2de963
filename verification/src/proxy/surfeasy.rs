//! Talking to the service that hands out proxies: forms, digest
//! authentication, and what its answers mean.
use vstd::prelude::*;
use vstd::string::{StringExecFns, StringSliceAdditionalSpecFns};

use md5::{Digest, Md5};
use rand_core::RngCore;

use crate::base64::{base64_encode_no_pad, base64_text, Alphabet};
use crate::text::{
    chars_of, contains, decimal, find_char, find_place, first_at, hex_char_upper, hex_digit_upper,
    hex_lower, hex_text, hex_text_upper, hex_upper, index_of, lemma_index_of_is,
    lemma_place_of_first, lemma_place_of_none, occurs, opt_view, owned, place_of, push_decimal,
    push_signed, signed_decimal, text_of,
};
use crate::wire::{be32_bytes, push_be32};

verus! {

/// Where the service is.
pub const API_BASE: &'static str = "https://api2.sec-tunnel.com/v4";

/// What kind of client this is.
pub const CLIENT_TYPE: &'static str = "se0316";

/// The port of a proxy that names none.
pub const DEFAULT_PORT: u16 = 443;

/// A country that proxies stand in.
#[derive(Debug, Clone)]
pub struct SeGeoEntry {
    pub country: Option<String>,
    pub country_code: String,
}

/// A proxy.
#[derive(Debug, Clone)]
pub struct SeIpEntry {
    pub geo: Option<SeGeoEntry>,
    pub host: Option<String>,
    pub ip: String,
    pub ports: Vec<u16>,
}

impl SeIpEntry {
    /// The name of the proxy, or its address where it has none.
    pub open spec fn host_text(self) -> Seq<char> {
        match opt_view(self.host) {
            Some(h) => h,
            None => self.ip@,
        }
    }

    /// The first port of the proxy.
    pub open spec fn port_number(self) -> u16 {
        if self.ports@.len() > 0 {
            self.ports@[0]
        } else {
            DEFAULT_PORT
        }
    }

    /// The name of the proxy, or its address where it has none.
    pub fn host_name(&self) -> (r: String)
        ensures
            r@ == self.host_text(),
    {
        match &self.host {
            Some(h) => owned(h.as_str()),
            None => owned(self.ip.as_str()),
        }
    }

    /// The first port of the proxy.
    pub fn port(&self) -> (r: u16)
        ensures
            r == self.port_number(),
    {
        if self.ports.len() > 0 {
            self.ports[0]
        } else {
            DEFAULT_PORT
        }
    }

    /// The proxy as host and port.
    pub fn endpoint(&self) -> (r: String)
        ensures
            r@ == self.host_text() + ":"@ + decimal(self.port_number() as nat),
    {
        let mut r: String = self.host_name();
        r.append(":");
        push_decimal(&mut r, self.port() as u64);
        r
    }
}

/// What `md5` makes of bytes.
pub uninterp spec fn md5_of(data: Seq<u8>) -> Seq<u8>;

/// `md5::Md5::digest`: the MD5 digest of some bytes, sixteen of them.
#[verifier::external_body]
fn md5_digest(data: &[u8]) -> (r: [u8; 16])
    ensures
        r@ == md5_of(data@),
{
    Md5::digest(data).into()
}

/// What `sha1` makes of bytes.
pub uninterp spec fn sha1_of(data: Seq<u8>) -> Seq<u8>;

/// `sha1::Sha1::digest`: the SHA-1 digest of some bytes, twenty of them.
#[verifier::external_body]
fn sha1_digest(data: &[u8]) -> (r: [u8; 20])
    ensures
        r@ == sha1_of(data@),
{
    sha1::Sha1::digest(data).into()
}

/// `rand_core::OsRng`, by `fill_bytes`: random bytes, as many as asked for.
#[verifier::external_body]
fn os_random(len: usize) -> (r: Vec<u8>)
    requires
        len <= isize::MAX / 2,
    ensures
        r@.len() == len,
{
    let mut bytes = vec![0u8; len];
    rand_core::OsRng.fill_bytes(&mut bytes);
    bytes
}

/// `hex::encode`: bytes in lower-case hexadecimal.
#[verifier::external_body]
fn hex_encoded(data: &[u8]) -> (r: String)
    requires
        data@.len() <= isize::MAX / 2,
    ensures
        r@ == hex_text(data@),
{
    hex::encode(data)
}

/// The SHA-1 digest of a text in upper-case hexadecimal.
pub fn capital_hex_sha1(input: &str) -> (r: String)
    ensures
        r@ == hex_text_upper(sha1_of(input.spec_bytes())),
{
    let digest: [u8; 20] = sha1_digest(input.as_bytes());
    hex_upper(digest.as_slice())
}

/// A text of so many random bytes in hexadecimal.
pub fn random_hex_string(byte_len: usize) -> (r: String)
    requires
        byte_len <= isize::MAX / 2,
    ensures
        r@.len() == 2 * byte_len,
        exists|bytes: Seq<u8>| bytes.len() == byte_len && r@ == #[trigger] hex_text(bytes),
{
    let bytes: Vec<u8> = os_random(byte_len);
    hex_encoded(bytes.as_slice())
}

/// A random name: thirty-two random bytes in base64.
pub fn random_email_local_part() -> (r: String)
    ensures
        exists|bytes: Seq<u8>|
            bytes.len() == 32 && r@ == #[trigger] base64_text(bytes, Alphabet::Standard),
{
    let bytes: Vec<u8> = os_random(32);
    base64_encode_no_pad(bytes.as_slice())
}

/// Whether a byte stands for itself in a form.
pub open spec fn unreserved(b: u8) -> bool {
    (b >= 65 && b <= 90) || (b >= 97 && b <= 122) || (b >= 48 && b <= 57) || b == 45 || b == 95 || b
        == 46 || b == 126
}

/// A byte in a form: itself, or a percent sign and two digits.
pub open spec fn encoded_byte(b: u8) -> Seq<char> {
    if unreserved(b) {
        seq![b as char]
    } else {
        seq!['%', hex_digit_upper(b / 16), hex_digit_upper(b % 16)]
    }
}

/// The first `n` bytes in a form.
pub open spec fn encoded(s: Seq<u8>, n: int) -> Seq<char>
    decreases n,
{
    if n <= 0 {
        Seq::empty()
    } else {
        encoded(s, n - 1) + encoded_byte(s[n - 1])
    }
}

/// A text in a form.
pub open spec fn urlencoded(s: Seq<u8>) -> Seq<char> {
    encoded(s, s.len() as int)
}

/// A text as it stands in a form.
pub fn urlencode(s: &str) -> (r: String)
    ensures
        r@ == urlencoded(s.spec_bytes()),
{
    let bytes: &[u8] = s.as_bytes();
    let mut r: String = String::new();
    let mut i: usize = 0;
    while i < bytes.len()
        invariant
            i <= bytes@.len(),
            r@ == encoded(bytes@, i as int),
        decreases bytes@.len() - i,
    {
        let b: u8 = bytes[i];
        if (b >= 65 && b <= 90) || (b >= 97 && b <= 122) || (b >= 48 && b <= 57) || b == 45 || b
            == 95 || b == 46 || b == 126 {
            r.push(b as char);
        } else {
            r.push('%');
            r.push(hex_char_upper(b / 16));
            r.push(hex_char_upper(b % 16));
        }
        i = i + 1;
        assert(r@ =~= encoded(bytes@, i as int));
    }
    r
}

/// The contents of names and values.
pub open spec fn pairs(params: Seq<(&str, &str)>) -> Seq<(Seq<char>, Seq<char>)> {
    Seq::new(params.len(), |i: int| (params[i].0@, params[i].1@))
}

/// The first `n` names and values in a form.
pub open spec fn form_part(params: Seq<(Seq<char>, Seq<char>)>, n: int) -> Seq<char>
    decreases n,
{
    if n <= 0 {
        Seq::empty()
    } else {
        form_part(params, n - 1) + (if n > 1 {
            "&"@
        } else {
            ""@
        }) + params[n - 1].0 + "="@ + urlencoded(vstd::utf8::encode_utf8(params[n - 1].1))
    }
}

/// Names and values in a form.
pub open spec fn form_text(params: Seq<(Seq<char>, Seq<char>)>) -> Seq<char> {
    form_part(params, params.len() as int)
}

/// The body of a request.
pub fn form_body(params: &[(&str, &str)]) -> (r: String)
    ensures
        r@ == form_text(pairs(params@)),
{
    let mut r: String = String::new();
    let mut i: usize = 0;
    while i < params.len()
        invariant
            i <= params@.len(),
            r@ == form_part(pairs(params@), i as int),
        decreases params@.len() - i,
    {
        let (key, value): (&str, &str) = params[i];
        r.append(
            if i > 0 {
                "&"
            } else {
                ""
            },
        );
        r.append(key);
        r.append("=");
        let v: String = urlencode(value);
        r.append(v.as_str());
        i = i + 1;
        assert(r@ =~= form_part(pairs(params@), i as int));
    }
    r
}

/// The address of a method of the service.
pub fn method_url(method: &str) -> (r: String)
    ensures
        r@ == method_address(method@),
{
    let mut r: String = owned(API_BASE);
    r.append("/");
    r.append(method);
    r
}

/// Where an unquoted value ends: at the first comma, space or line feed.
pub open spec fn bare_end(s: Seq<char>) -> int
    decreases s.len(),
{
    if s.len() == 0 || s[0] == ',' || s[0] == ' ' || s[0] == '\n' {
        0
    } else {
        1 + bare_end(s.skip(1))
    }
}

/// A parameter of a challenge: what follows the first `name=`, in quotes or up
/// to the next separator; none where the name is missing or the quotes are not
/// closed.
pub open spec fn challenge_param(header: Seq<char>, name: Seq<char>) -> Option<Seq<char>> {
    let pattern = name + "="@;
    let start = place_of(header, pattern);
    if start >= header.len() {
        None
    } else {
        let rest = header.skip(start + pattern.len());
        if rest.len() > 0 && rest[0] == '"' {
            let inner = rest.skip(1);
            if index_of(inner, '"') < inner.len() {
                Some(inner.take(index_of(inner, '"')))
            } else {
                None
            }
        } else {
            Some(rest.take(bare_end(rest)))
        }
    }
}

fn find_bare_end(s: &Vec<char>, from: usize) -> (r: usize)
    requires
        from <= s@.len(),
    ensures
        r == from + bare_end(s@.skip(from as int)),
        from <= r <= s@.len(),
{
    let mut i: usize = from;
    while i < s.len() && s[i] != ',' && s[i] != ' ' && s[i] != '\n'
        invariant
            from <= i <= s@.len(),
            from + bare_end(s@.skip(from as int)) == i + bare_end(s@.skip(i as int)),
        decreases s@.len() - i,
    {
        assert(s@.skip(i as int).skip(1) =~= s@.skip(i + 1));
        assert(s@.skip(i as int)[0] == s@[i as int]);
        i = i + 1;
    }
    if i < s.len() {
        assert(s@.skip(i as int)[0] == s@[i as int]);
    }
    i
}

/// Reads a parameter of a challenge.
pub fn extract_digest_param(header: &str, name: &str) -> (r: Option<String>)
    ensures
        opt_view(r) == challenge_param(header@, name@),
{
    let chars: Vec<char> = chars_of(header);
    let mut pattern_text: String = owned(name);
    pattern_text.append("=");
    let pattern: Vec<char> = chars_of(pattern_text.as_str());
    proof {
        reveal_strlit("=");
    }
    let start: usize = find_place(&chars, &pattern);
    if start >= chars.len() {
        return None;
    }
    let from: usize = start + pattern.len();
    let ghost rest: Seq<char> = chars@.skip(from as int);
    if from < chars.len() && chars[from] == '"' {
        assert(rest[0] == '"');
        let inner_at: usize = from + 1;
        let ghost inner: Seq<char> = rest.skip(1);
        assert(inner =~= chars@.subrange(inner_at as int, chars@.len() as int));
        let end: usize = find_char(&chars, '"', inner_at);
        if end >= chars.len() {
            return None;
        }
        let r: String = text_of(&chars, inner_at, end);
        assert(r@ =~= inner.take(index_of(inner, '"')));
        Some(r)
    } else {
        let end: usize = find_bare_end(&chars, from);
        let r: String = text_of(&chars, from, end);
        assert(r@ =~= rest.take(bare_end(rest)));
        Some(r)
    }
}

/// What the service last challenged us with.
#[derive(Debug, Clone)]
pub struct DigestState {
    pub realm: Option<String>,
    pub nonce: Option<String>,
    pub opaque: Option<String>,
    pub nc: u32,
}

/// Why a challenge cannot be answered.
#[derive(Debug, Clone, Copy, PartialEq, Eq, Structural)]
pub enum ChallengeError {
    MissingRealm,
    MissingNonce,
}

/// Reads a challenge.
pub fn parse_challenge(www_auth: &str) -> (r: Result<DigestState, ChallengeError>)
    ensures
        match (challenge_param(www_auth@, "realm"@), challenge_param(www_auth@, "nonce"@), r) {
            (None, _, Err(e)) => e == ChallengeError::MissingRealm,
            (Some(_), None, Err(e)) => e == ChallengeError::MissingNonce,
            (Some(realm), Some(nonce), Ok(state)) => {
                &&& opt_view(state.realm) == Some(realm)
                &&& opt_view(state.nonce) == Some(nonce)
                &&& opt_view(state.opaque) == challenge_param(www_auth@, "opaque"@)
                &&& state.nc == 0
            },
            _ => false,
        },
{
    let realm: String = match extract_digest_param(www_auth, "realm") {
        Some(s) => s,
        None => {
            return Err(ChallengeError::MissingRealm);
        },
    };
    let nonce: String = match extract_digest_param(www_auth, "nonce") {
        Some(s) => s,
        None => {
            return Err(ChallengeError::MissingNonce);
        },
    };
    Ok(
        DigestState {
            realm: Some(realm),
            nonce: Some(nonce),
            opaque: extract_digest_param(www_auth, "opaque"),
            nc: 0,
        },
    )
}

/// A digest of a text in hexadecimal.
pub open spec fn md5_hex(text: Seq<char>) -> Seq<char> {
    hex_text(md5_of(vstd::utf8::encode_utf8(text)))
}

fn md5_text(text: &str) -> (r: String)
    ensures
        r@ == md5_hex(text@),
{
    let digest: [u8; 16] = md5_digest(text.as_bytes());
    hex_lower(digest.as_slice())
}

/// A text, or an empty one where there is none.
pub open spec fn or_empty(s: Option<Seq<char>>) -> Seq<char> {
    match s {
        Some(t) => t,
        None => Seq::empty(),
    }
}

/// A number as eight hexadecimal digits.
pub open spec fn hex8(n: u32) -> Seq<char> {
    hex_text(be32_bytes(n))
}

fn hex8_text(n: u32) -> (r: String)
    ensures
        r@ == hex8(n),
{
    let mut bytes: Vec<u8> = Vec::new();
    push_be32(&mut bytes, n);
    assert(bytes@ =~= be32_bytes(n));
    hex_lower(bytes.as_slice())
}

/// The answer to a challenge.
pub open spec fn digest_response(
    user: Seq<char>,
    password: Seq<char>,
    method: Seq<char>,
    uri: Seq<char>,
    realm: Seq<char>,
    nonce: Seq<char>,
    nc: u32,
    cnonce: Seq<char>,
) -> Seq<char> {
    let ha1 = md5_hex(user + ":"@ + realm + ":"@ + password);
    let ha2 = md5_hex(method + ":"@ + uri);
    md5_hex(
        ha1 + ":"@ + nonce + ":"@ + hex8(nc) + ":"@ + cnonce + ":"@ + "auth"@ + ":"@ + ha2,
    )
}

/// The authorization field that answers a challenge.
pub open spec fn digest_field(
    user: Seq<char>,
    password: Seq<char>,
    method: Seq<char>,
    uri: Seq<char>,
    realm: Seq<char>,
    nonce: Seq<char>,
    opaque: Option<Seq<char>>,
    nc: u32,
    cnonce: Seq<char>,
) -> Seq<char> {
    let field = "Digest username=\""@ + user + "\", realm=\""@ + realm + "\", nonce=\""@ + nonce
        + "\", uri=\""@ + uri + "\", qop=auth, nc="@ + hex8(nc) + ", cnonce=\""@ + cnonce
        + "\", response=\""@ + digest_response(
        user,
        password,
        method,
        uri,
        realm,
        nonce,
        nc,
        cnonce,
    ) + "\""@;
    match opaque {
        Some(o) => field + ", opaque=\""@ + o + "\""@,
        None => field,
    }
}

/// What we are registered as.
#[derive(Debug)]
pub struct SurfEasyClient {
    pub subscriber_email: String,
    pub subscriber_password: String,
    pub device_id: String,
    pub device_password: String,
    pub digest: DigestState,
}

/// A request to the service.
#[derive(Debug, Clone)]
pub struct RpcRequest {
    pub url: String,
    pub body: String,
}

impl SurfEasyClient {
    /// A client with a random name and a random password, not yet registered.
    pub fn new() -> (r: SurfEasyClient)
        ensures
            exists|bytes: Seq<u8>|
                bytes.len() == 32 && r.subscriber_email@ == #[trigger] base64_text(
                    bytes,
                    Alphabet::Standard,
                ),
            exists|bytes: Seq<u8>|
                bytes.len() == 20 && r.subscriber_password@ == #[trigger] hex_text(bytes),
            r.device_id@.len() == 0,
            r.device_password@.len() == 0,
            r.digest.realm is None,
            r.digest.nonce is None,
            r.digest.opaque is None,
            r.digest.nc == 0,
    {
        SurfEasyClient {
            subscriber_email: random_email_local_part(),
            subscriber_password: random_hex_string(20),
            device_id: String::new(),
            device_password: String::new(),
            digest: DigestState { realm: None, nonce: None, opaque: None, nc: 0 },
        }
    }

    /// The user name and the password for the proxies.
    pub fn proxy_credentials(&self) -> (r: (&str, &str))
        ensures
            r.0@ == self.device_id@,
            r.1@ == self.device_password@,
    {
        (self.device_id.as_str(), self.device_password.as_str())
    }

    /// The request that registers us.
    pub fn anon_register(&self) -> (r: RpcRequest)
        ensures
            r.url@ == method_address("register_subscriber"@),
            r.body@ == form_text(
                seq![
                    ("email"@, self.subscriber_email@),
                    ("password"@, self.subscriber_password@),
                ],
            ),
    {
        let params: [(&str, &str); 2] = [
            ("email", self.subscriber_email.as_str()),
            ("password", self.subscriber_password.as_str()),
        ];
        assert(pairs(params@) =~= seq![
            ("email"@, self.subscriber_email@),
            ("password"@, self.subscriber_password@),
        ]);
        RpcRequest { url: method_url("register_subscriber"), body: form_body(params.as_slice()) }
    }

    /// The request that logs us in.
    pub fn login(&self) -> (r: RpcRequest)
        ensures
            r.url@ == method_address("subscriber_login"@),
            r.body@ == form_text(
                seq![
                    ("login"@, self.subscriber_email@),
                    ("password"@, self.subscriber_password@),
                    ("client_type"@, CLIENT_TYPE@),
                ],
            ),
    {
        let params: [(&str, &str); 3] = [
            ("login", self.subscriber_email.as_str()),
            ("password", self.subscriber_password.as_str()),
            ("client_type", CLIENT_TYPE),
        ];
        assert(pairs(params@) =~= seq![
            ("login"@, self.subscriber_email@),
            ("password"@, self.subscriber_password@),
            ("client_type"@, CLIENT_TYPE@),
        ]);
        RpcRequest { url: method_url("subscriber_login"), body: form_body(params.as_slice()) }
    }

    /// The request that registers this device.
    pub fn register_device(&self) -> (r: RpcRequest)
        ensures
            r.url@ == method_address("register_device"@),
            r.body@ == form_text(
                seq![
                    ("client_type"@, CLIENT_TYPE@),
                    ("device_hash"@, hex_text_upper(sha1_of(vstd::utf8::encode_utf8(self.subscriber_email@)))),
                    ("device_name"@, "Opera-Browser-Client"@),
                ],
            ),
    {
        let hash: String = capital_hex_sha1(self.subscriber_email.as_str());
        let params: [(&str, &str); 3] = [
            ("client_type", CLIENT_TYPE),
            ("device_hash", hash.as_str()),
            ("device_name", "Opera-Browser-Client"),
        ];
        assert(pairs(params@) =~= seq![
            ("client_type"@, CLIENT_TYPE@),
            ("device_hash"@, hex_text_upper(sha1_of(vstd::utf8::encode_utf8(self.subscriber_email@)))),
            ("device_name"@, "Opera-Browser-Client"@),
        ]);
        RpcRequest { url: method_url("register_device"), body: form_body(params.as_slice()) }
    }

    /// The request for a password of this device.
    pub fn device_generate_password(&self) -> (r: RpcRequest)
        ensures
            r.url@ == method_address("device_generate_password"@),
            r.body@ == form_text(
                seq![
                    ("device_id"@, self.device_id@),
                ],
            ),
    {
        let params: [(&str, &str); 1] = [
            ("device_id", self.device_id.as_str()),
        ];
        assert(pairs(params@) =~= seq![
            ("device_id"@, self.device_id@),
        ]);
        RpcRequest { url: method_url("device_generate_password"), body: form_body(params.as_slice()) }
    }

    /// The request for the countries that proxies stand in.
    pub fn geo_list(&self) -> (r: RpcRequest)
        ensures
            r.url@ == method_address("geo_list"@),
            r.body@ == form_text(
                seq![
                    ("device_id"@, self.device_id@),
                ],
            ),
    {
        let params: [(&str, &str); 1] = [
            ("device_id", self.device_id.as_str()),
        ];
        assert(pairs(params@) =~= seq![
            ("device_id"@, self.device_id@),
        ]);
        RpcRequest { url: method_url("geo_list"), body: form_body(params.as_slice()) }
    }

    /// The request for the proxies of a country.
    pub fn discover(&self, country: &str) -> (r: RpcRequest)
        ensures
            r.url@ == method_address("discover"@),
            r.body@ == form_text(
                seq![
                    ("serial_no"@, hex_text_upper(sha1_of(vstd::utf8::encode_utf8(self.device_id@)))),
                    ("requested_geo"@, country@),
                ],
            ),
    {
        let hash: String = capital_hex_sha1(self.device_id.as_str());
        let params: [(&str, &str); 2] = [
            ("serial_no", hash.as_str()),
            ("requested_geo", country),
        ];
        assert(pairs(params@) =~= seq![
            ("serial_no"@, hex_text_upper(sha1_of(vstd::utf8::encode_utf8(self.device_id@)))),
            ("requested_geo"@, country@),
        ]);
        RpcRequest { url: method_url("discover"), body: form_body(params.as_slice()) }
    }

    /// The authorization field that answers the last challenge, with a given
    /// nonce of our own.
    pub fn digest_header_with(&self, method: &str, uri: &str, cnonce: &str) -> (r: String)
        requires
            self.digest.nc < u32::MAX,
        ensures
            r@ == digest_field(
                self.subscriber_email@,
                self.subscriber_password@,
                method@,
                uri@,
                or_empty(opt_view(self.digest.realm)),
                or_empty(opt_view(self.digest.nonce)),
                opt_view(self.digest.opaque),
                (self.digest.nc + 1) as u32,
                cnonce@,
            ),
    {
        let realm: String = text_or_empty(&self.digest.realm);
        let nonce: String = text_or_empty(&self.digest.nonce);
        let nc: String = hex8_text(self.digest.nc + 1);
        let mut a1: String = owned(self.subscriber_email.as_str());
        a1.append(":");
        a1.append(realm.as_str());
        a1.append(":");
        a1.append(self.subscriber_password.as_str());
        let ha1: String = md5_text(a1.as_str());
        let mut a2: String = owned(method);
        a2.append(":");
        a2.append(uri);
        let ha2: String = md5_text(a2.as_str());
        let mut input: String = ha1;
        input.append(":");
        input.append(nonce.as_str());
        input.append(":");
        input.append(nc.as_str());
        input.append(":");
        input.append(cnonce);
        input.append(":");
        input.append("auth");
        input.append(":");
        input.append(ha2.as_str());
        let response: String = md5_text(input.as_str());
        let mut field: String = owned("Digest username=\"");
        field.append(self.subscriber_email.as_str());
        field.append("\", realm=\"");
        field.append(realm.as_str());
        field.append("\", nonce=\"");
        field.append(nonce.as_str());
        field.append("\", uri=\"");
        field.append(uri);
        field.append("\", qop=auth, nc=");
        field.append(nc.as_str());
        field.append(", cnonce=\"");
        field.append(cnonce);
        field.append("\", response=\"");
        field.append(response.as_str());
        field.append("\"");
        if let Some(opaque) = &self.digest.opaque {
            field.append(", opaque=\"");
            field.append(opaque.as_str());
            field.append("\"");
        }
        field
    }

    /// The authorization field that answers the last challenge.
    pub fn make_digest_header(&self, method: &str, uri: &str) -> (r: String)
        requires
            self.digest.nc < u32::MAX,
        ensures
            exists|bytes: Seq<u8>|
                bytes.len() == 8 && r@ == digest_field(
                    self.subscriber_email@,
                    self.subscriber_password@,
                    method@,
                    uri@,
                    or_empty(opt_view(self.digest.realm)),
                    or_empty(opt_view(self.digest.nonce)),
                    opt_view(self.digest.opaque),
                    (self.digest.nc + 1) as u32,
                    #[trigger] hex_text(bytes),
                ),
    {
        let cnonce: String = random_hex_string(8);
        self.digest_header_with(method, uri, cnonce.as_str())
    }

    /// Whether a request carries an authorization field from the start: once
    /// the service has challenged us.
    pub fn answers_ahead(&self) -> (r: bool)
        ensures
            r == (self.digest.realm is Some),
    {
        self.digest.realm.is_some()
    }

    /// Takes note of a challenge.
    pub fn challenged(&mut self, state: DigestState)
        ensures
            *final(self) == (SurfEasyClient { digest: state, ..*old(self) }),
    {
        self.digest = state;
    }
}

/// The address of a method of the service.
pub open spec fn method_address(method: Seq<char>) -> Seq<char> {
    API_BASE@ + "/"@ + method
}

fn text_or_empty(s: &Option<String>) -> (r: String)
    ensures
        r@ == or_empty(opt_view(*s)),
{
    match s {
        Some(t) => owned(t.as_str()),
        None => String::new(),
    }
}

/// What is wrong with a response, in words; none where it is a success.
pub fn response_failure(status: u16, status_text: &str, body: &str) -> (r: Option<String>)
    ensures
        opt_view(r) == (if 200 <= status < 300 {
            None
        } else if status == 401 {
            Some("HTTP 401 Unauthorized"@)
        } else {
            Some("HTTP "@ + status_text@ + ": "@ + body@)
        }),
{
    if status >= 200 && status < 300 {
        None
    } else if status == 401 {
        Some(owned("HTTP 401 Unauthorized"))
    } else {
        let mut r: String = owned("HTTP ");
        r.append(status_text);
        r.append(": ");
        r.append(body);
        Some(r)
    }
}

/// What the service itself says is wrong, in words; none where its code is
/// zero.
pub fn api_failure(code: i64, message: &Option<String>) -> (r: Option<String>)
    ensures
        opt_view(r) == (if code == 0 {
            None
        } else {
            Some(
                "API error "@ + signed_decimal(code as int) + ": "@ + (match opt_view(*message) {
                    Some(m) => m,
                    None => "unknown"@,
                }),
            )
        }),
{
    if code == 0 {
        return None;
    }
    let mut r: String = owned("API error ");
    push_signed(&mut r, code);
    r.append(": ");
    match message {
        Some(m) => {
            r.append(m.as_str());
        },
        None => {
            r.append("unknown");
        },
    }
    Some(r)
}

/// What follows a request.
#[derive(Debug, Clone, Copy, PartialEq, Eq, Structural)]
pub enum AfterRequest {
    /// It is answered.
    Answered,
    /// A challenge is asked for, and the request sent again.
    AskChallenge,
    /// It has failed.
    Failed,
}

/// What follows the first attempt at a request, given what went wrong: a
/// challenge is asked for where we are not authorized.
pub fn after_request(failure: &Option<String>) -> (r: AfterRequest)
    ensures
        r == (match opt_view(*failure) {
            None => AfterRequest::Answered,
            Some(e) => if occurs(e, "HTTP 401"@) {
                AfterRequest::AskChallenge
            } else {
                AfterRequest::Failed
            },
        }),
{
    match failure {
        None => AfterRequest::Answered,
        Some(e) => if contains(e.as_str(), "HTTP 401") {
            AfterRequest::AskChallenge
        } else {
            AfterRequest::Failed
        },
    }
}

proof fn lemma_encoded_plain(s: Seq<u8>, n: int)
    requires
        0 <= n <= s.len(),
        forall|i: int| 0 <= i < s.len() ==> unreserved(#[trigger] s[i]),
    ensures
        encoded(s, n) =~= Seq::new(n as nat, |i: int| s[i] as char),
    decreases n,
{
    if n > 0 {
        lemma_encoded_plain(s, n - 1);
    }
}

/// A text of unreserved characters stands for itself in a form.
pub proof fn unreserved_text_is_kept(s: Seq<u8>)
    requires
        forall|i: int| 0 <= i < s.len() ==> unreserved(#[trigger] s[i]),
    ensures
        urlencoded(s) == Seq::new(s.len(), |i: int| s[i] as char),
{
    lemma_encoded_plain(s, s.len() as int);
}

/// What separates the fields of a form never comes out of a value.
pub proof fn values_hold_no_separators(s: Seq<u8>, n: int)
    requires
        0 <= n <= s.len(),
    ensures
        forall|i: int|
            0 <= i < encoded(s, n).len() ==> (#[trigger] encoded(s, n)[i]) != '&' && encoded(
                s,
                n,
            )[i] != '=',
    decreases n,
{
    if n > 0 {
        values_hold_no_separators(s, n - 1);
        let b = s[n - 1];
        let last = encoded_byte(b);
        assert forall|i: int| 0 <= i < last.len() implies (#[trigger] last[i]) != '&' && last[i]
            != '=' by {
            if unreserved(b) {
                assert((b as char) as u8 == b);
            }
        }
        let before = encoded(s, n - 1);
        assert forall|i: int| 0 <= i < encoded(s, n).len() implies (#[trigger] encoded(s, n)[i])
            != '&' && encoded(s, n)[i] != '=' by {
            if i >= before.len() {
                assert(encoded(s, n)[i] == last[i - before.len()]);
            } else {
                assert(encoded(s, n)[i] == before[i]);
            }
        }
    }
}

/// The number that an upper-case hexadecimal digit stands for.
pub open spec fn hex_number(c: char) -> int {
    if c <= '9' {
        c as int - 48
    } else {
        c as int - 55
    }
}

/// The bytes that a value in a form stands for.
pub open spec fn form_value(t: Seq<char>) -> Seq<u8>
    decreases t.len(),
{
    if t.len() == 0 {
        Seq::empty()
    } else if t[0] == '%' && t.len() >= 3 {
        seq![(16 * hex_number(t[1]) + hex_number(t[2])) as u8] + form_value(t.skip(3))
    } else {
        seq![t[0] as u8] + form_value(t.skip(1))
    }
}

proof fn lemma_value_of_byte(b: u8, t: Seq<char>)
    ensures
        form_value(encoded_byte(b) + t) == seq![b] + form_value(t),
{
    let e = encoded_byte(b) + t;
    if unreserved(b) {
        assert(e[0] == b as char);
        assert((b as char) as u8 == b);
        assert(e.skip(1) =~= t);
    } else {
        let hi = b / 16;
        let lo = b % 16;
        assert(e[1] == hex_digit_upper(hi) && e[2] == hex_digit_upper(lo));
        assert(hex_number(hex_digit_upper(hi)) == hi);
        assert(hex_number(hex_digit_upper(lo)) == lo);
        assert(e.skip(3) =~= t);
    }
}

proof fn lemma_value_of_encoded(s: Seq<u8>, n: int, t: Seq<char>)
    requires
        0 <= n <= s.len(),
    ensures
        form_value(encoded(s, n) + t) == s.take(n) + form_value(t),
    decreases n,
{
    if n > 0 {
        let b = s[n - 1];
        assert(encoded(s, n) + t =~= encoded(s, n - 1) + (encoded_byte(b) + t));
        lemma_value_of_encoded(s, n - 1, encoded_byte(b) + t);
        lemma_value_of_byte(b, t);
        assert(s.take(n - 1) + (seq![b] + form_value(t)) =~= s.take(n) + form_value(t));
    } else {
        assert(encoded(s, n) + t =~= t);
        assert(s.take(n) + form_value(t) =~= form_value(t));
    }
}

/// Reading a value out of a form gives back the text that was put in.
pub proof fn form_values_are_read_back(s: Seq<u8>)
    ensures
        form_value(urlencoded(s)) == s,
{
    lemma_value_of_encoded(s, s.len() as int, Seq::empty());
    assert(urlencoded(s) + Seq::<char>::empty() =~= urlencoded(s));
    assert(s.take(s.len() as int) + form_value(Seq::empty()) =~= s);
}

/// The bytes that stand for themselves in a form are letters, digits, and four
/// signs; every other byte is written as a percent sign and two digits.
pub proof fn bytes_stand_for_themselves_or_not(b: u8)
    ensures
        ({
            let c = b as char;
            let own = ('A' <= c <= 'Z') || ('a' <= c <= 'z') || ('0' <= c <= '9') || c == '-' || c
                == '_' || c == '.' || c == '~';
            &&& own ==> encoded_byte(b) == seq![c]
            &&& !own ==> encoded_byte(b) == seq![
                '%',
                hex_digit_upper((b / 16) as u8),
                hex_digit_upper((b % 16) as u8),
            ]
        }),
{
}

/// A form grows by a name, an equals sign and a value at a time, with an
/// ampersand between; values are encoded, names are not.
pub proof fn forms_grow_pair_by_pair(
    params: Seq<(Seq<char>, Seq<char>)>,
    name: Seq<char>,
    value: Seq<char>,
)
    ensures
        form_text(seq![]) == Seq::<char>::empty(),
        form_text(seq![(name, value)]) == name + "="@ + urlencoded(vstd::utf8::encode_utf8(value)),
        params.len() > 0 ==> form_text(params.push((name, value))) == form_text(params) + "&"@
            + name + "="@ + urlencoded(vstd::utf8::encode_utf8(value)),
{
    reveal_strlit("");
    let one = seq![(name, value)];
    assert(form_part(one, 0) =~= Seq::<char>::empty());
    assert(form_text(one) =~= name + "="@ + urlencoded(vstd::utf8::encode_utf8(value)));
    let more = params.push((name, value));
    lemma_form_prefix(params, (name, value), params.len() as int);
    if params.len() > 0 {
        assert(form_text(more) =~= form_text(params) + "&"@ + name + "="@ + urlencoded(
            vstd::utf8::encode_utf8(value),
        ));
    }
}

proof fn lemma_form_prefix(
    params: Seq<(Seq<char>, Seq<char>)>,
    next: (Seq<char>, Seq<char>),
    n: int,
)
    requires
        n <= params.len(),
    ensures
        form_part(params.push(next), n) == form_part(params, n),
    decreases n,
{
    if n > 0 {
        lemma_form_prefix(params, next, n - 1);
    }
}

/// A value in quotes behind the first place of its name is read back, up to the
/// closing quote.
pub proof fn quoted_parameters_are_read_back(
    before: Seq<char>,
    name: Seq<char>,
    value: Seq<char>,
    after: Seq<char>,
)
    requires
        first_at(
            before + (name + "="@) + seq!['"'] + value + seq!['"'] + after,
            name + "="@,
            before.len() as int,
        ),
        !value.contains('"'),
    ensures
        challenge_param(before + (name + "="@) + seq!['"'] + value + seq!['"'] + after, name) == Some(
            value,
        ),
{
    reveal_strlit("=");
    let pattern = name + "="@;
    let header = before + pattern + seq!['"'] + value + seq!['"'] + after;
    lemma_place_of_first(header, pattern, before.len() as int);
    let rest = header.skip(before.len() as int + pattern.len());
    assert(rest =~= seq!['"'] + value + seq!['"'] + after);
    let inner = rest.skip(1);
    assert(inner =~= value + seq!['"'] + after);
    let n = value.len() as int;
    assert forall|k: int| 0 <= k < n implies inner[k] != '"' by {
        assert(inner[k] == value[k]);
        if value[k] == '"' {
            assert(value.contains('"'));
        }
    }
    assert(inner[n] == '"');
    lemma_index_of_is(inner, '"', n);
    assert(inner.take(n) =~= value);
}

/// A value without quotes is read back up to the comma, space or line end that
/// follows it, or to the end.
pub proof fn bare_parameters_are_read_back(
    before: Seq<char>,
    name: Seq<char>,
    value: Seq<char>,
    after: Seq<char>,
)
    requires
        first_at(before + (name + "="@) + value + after, name + "="@, before.len() as int),
        forall|i: int|
            0 <= i < value.len() ==> #[trigger] value[i] != ',' && value[i] != ' ' && value[i]
                != '\n',
        value.len() > 0 && value[0] != '"',
        after.len() == 0 || after[0] == ',' || after[0] == ' ' || after[0] == '\n',
    ensures
        challenge_param(before + (name + "="@) + value + after, name) == Some(value),
{
    reveal_strlit("=");
    let pattern = name + "="@;
    let header = before + pattern + value + after;
    lemma_place_of_first(header, pattern, before.len() as int);
    let rest = header.skip(before.len() as int + pattern.len());
    assert(rest =~= value + after);
    lemma_bare_end_is(value, after);
    assert(rest.take(value.len() as int) =~= value);
}

proof fn lemma_bare_end_is(value: Seq<char>, after: Seq<char>)
    requires
        forall|i: int|
            0 <= i < value.len() ==> #[trigger] value[i] != ',' && value[i] != ' ' && value[i]
                != '\n',
        after.len() == 0 || after[0] == ',' || after[0] == ' ' || after[0] == '\n',
    ensures
        bare_end(value + after) == value.len(),
    decreases value.len(),
{
    if value.len() == 0 {
        assert(value + after =~= after);
    } else {
        let t = value.skip(1);
        assert((value + after).skip(1) =~= t + after);
        assert forall|i: int| 0 <= i < t.len() implies #[trigger] t[i] != ',' && t[i] != ' ' && t[i]
            != '\n' by {
            assert(t[i] == value[i + 1]);
        }
        assert((value + after)[0] == value[0]);
        lemma_bare_end_is(t, after);
    }
}

/// A name that does not occur has no value.
pub proof fn missing_parameters_are_not_read(header: Seq<char>, name: Seq<char>)
    requires
        !occurs(header, name + "="@),
    ensures
        challenge_param(header, name) is None,
{
    reveal_strlit("=");
    lemma_place_of_none(header, name + "="@);
}

/// A proxy is reached by its name, or by its address where it has none, on its
/// first port, or on 443.
pub proof fn proxies_are_reached_by_name(entry: SeIpEntry)
    ensures
        entry.host is Some ==> entry.host_text() == entry.host->0@,
        entry.host is None ==> entry.host_text() == entry.ip@,
        entry.ports@.len() > 0 ==> entry.port_number() == entry.ports@[0],
        entry.ports@.len() == 0 ==> entry.port_number() == 443,
{
}

/// The answer to a challenge without an opaque part names who asks for what, and
/// how often; with one, it is handed back at the end.
pub proof fn opaque_parts_are_handed_back(
    user: Seq<char>,
    password: Seq<char>,
    method: Seq<char>,
    uri: Seq<char>,
    realm: Seq<char>,
    nonce: Seq<char>,
    opaque: Seq<char>,
    nc: u32,
    cnonce: Seq<char>,
)
    ensures
        ({
            let bare = digest_field(user, password, method, uri, realm, nonce, None, nc, cnonce);
            &&& digest_field(user, password, method, uri, realm, nonce, Some(opaque), nc, cnonce)
                == bare + ", opaque=\""@ + opaque + "\""@
            &&& bare == "Digest username=\""@ + user + "\", realm=\""@ + realm + "\", nonce=\""@
                + nonce + "\", uri=\""@ + uri + "\", qop=auth, nc="@ + hex_text(be32_bytes(nc))
                + ", cnonce=\""@ + cnonce + "\", response=\""@ + digest_response(
                user,
                password,
                method,
                uri,
                realm,
                nonce,
                nc,
                cnonce,
            ) + "\""@
        }),
{
}

/// The response to a challenge is the digest of six parts with a colon between:
/// the digest of who asks, the nonce, the count, our own nonce, the quality, and
/// the digest of what is asked for.
pub proof fn responses_are_digests_of_six_parts(
    user: Seq<char>,
    password: Seq<char>,
    method: Seq<char>,
    uri: Seq<char>,
    realm: Seq<char>,
    nonce: Seq<char>,
    nc: u32,
    cnonce: Seq<char>,
    who: Seq<u8>,
    what: Seq<u8>,
)
    requires
        who == md5_of(vstd::utf8::encode_utf8(user + ":"@ + realm + ":"@ + password)),
        what == md5_of(vstd::utf8::encode_utf8(method + ":"@ + uri)),
    ensures
        digest_response(user, password, method, uri, realm, nonce, nc, cnonce) == hex_text(
            md5_of(
                vstd::utf8::encode_utf8(
                    hex_text(who) + ":"@ + nonce + ":"@ + hex_text(be32_bytes(nc)) + ":"@ + cnonce
                        + ":auth:"@ + hex_text(what),
                ),
            ),
        ),
{
    reveal_strlit(":");
    reveal_strlit("auth");
    reveal_strlit(":auth:");
    let head = hex_text(who) + ":"@ + nonce + ":"@ + hex_text(be32_bytes(nc)) + ":"@ + cnonce;
    assert(":"@ + "auth"@ + ":"@ =~= ":auth:"@);
    assert(head + ":"@ + "auth"@ + ":"@ + hex_text(what) =~= head + (":"@ + "auth"@ + ":"@)
        + hex_text(what));
}

} // verus!
