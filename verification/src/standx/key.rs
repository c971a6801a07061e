use crate::util::interface::{ApiKind, Method, Rest};
use crate::util::text::u64_to_decimal;
use vstd::prelude::*;

verus! {

/// How request parameters are written before they are signed.
#[derive(Debug, Clone, Copy, PartialEq, Eq, Structural)]
pub enum ParamsFormat {
    /// As a query string for `GET` and `DELETE`, as JSON otherwise.
    Common,
    Json,
    Urlencoded,
}

/// What `bs58::decode(text).into_vec()` gives: the decoded bytes, or
/// nothing when the text is not valid base58.
pub uninterp spec fn bs58_decoded(text: Seq<char>) -> Option<Seq<u8>>;

/// What an Ed25519 signing key made from the 32-byte `seed` signs `msg`
/// into (`SigningKey::sign`, then `Signature::to_bytes`).
pub uninterp spec fn ed25519_signature(seed: Seq<u8>, msg: Seq<u8>) -> Seq<u8>;

/// What the standard base64 engine (with padding) encodes `bytes` into.
pub uninterp spec fn base64_standard(bytes: Seq<u8>) -> Seq<char>;

/// Decodes base58 text (`bs58::decode(..).into_vec()`); a decoding error
/// gives `None`. The contract names the result and says no more of it.
#[verifier::external_body]
fn bs58_decode(text: &str) -> (r: Option<Vec<u8>>)
    ensures
        match r {
            Some(v) => bs58_decoded(text@) == Some(v@),
            None => bs58_decoded(text@) is None,
        },
{
    bs58::decode(text).into_vec().ok()
}

/// Signs `msg` with the Ed25519 key whose seed is `seed`
/// (`ed25519_consensus::SigningKey::try_from(&[u8])`, then `sign`). As the
/// crate's source shows, the key is refused unless the seed has 32 bytes;
/// the signature has 64 bytes. Nothing else is stated of the signature but
/// its name.
#[verifier::external_body]
fn ed25519_sign(seed: &[u8], msg: &[u8]) -> (r: Option<Vec<u8>>)
    ensures
        r is Some <==> seed@.len() == 32,
        r matches Some(s) ==> s@ == ed25519_signature(seed@, msg@) && s@.len() == 64,
{
    match ed25519_consensus::SigningKey::try_from(seed) {
        Ok(k) => Some(k.sign(msg).to_bytes().to_vec()),
        Err(_) => None,
    }
}

/// Encodes bytes with the standard base64 alphabet and padding
/// (`base64::engine::general_purpose::STANDARD.encode`). The contract names
/// the result and says no more of it.
#[verifier::external_body]
fn base64_encode(bytes: &[u8]) -> (s: String)
    ensures
        s@ == base64_standard(bytes@),
{
    base64::Engine::encode(&base64::engine::general_purpose::STANDARD, bytes)
}

/// The current time in nanoseconds since the Unix epoch
/// (`time::OffsetDateTime::now_utc().unix_timestamp_nanos()`). It depends
/// on the clock, so nothing is stated of it.
#[verifier::external_body]
fn now_unix_nanos() -> i128 {
    time::OffsetDateTime::now_utc().unix_timestamp_nanos()
}

/// The current time in milliseconds since the Unix epoch, truncated to 64
/// bits. It depends on the clock, so nothing is stated of it.
pub(crate) fn now_millis() -> u64 {
    let nanos = now_unix_nanos();
    (nanos / 1_000_000) as u64
}

/// The text that is signed: version, id, timestamp and body, separated by
/// commas.
pub open spec fn signing_message(id: u64, timestamp: u64, body: Seq<char>) -> Seq<char> {
    "v1,"@ + crate::util::text::decimal(id as nat) + ","@ + crate::util::text::decimal(timestamp as nat)
        + ","@ + body
}

/// The signed message starts with the version `v1` and a comma, then the
/// decimal id, a comma, the decimal timestamp, a comma, and ends with the
/// body as it is.
pub proof fn signing_message_law(id: u64, timestamp: u64, body: Seq<char>)
    ensures
        ({
            let m = signing_message(id, timestamp, body);
            let a = crate::util::text::decimal(id as nat);
            let b = crate::util::text::decimal(timestamp as nat);
            let x = a.len() as int;
            let y = b.len() as int;
            &&& m.len() == 5 + x + y + body.len()
            &&& m.subrange(0, 3) == "v1,"@
            &&& m.subrange(3, 3 + x) == a
            &&& m[3 + x] == ','
            &&& m.subrange(4 + x, 4 + x + y) == b
            &&& m[4 + x + y] == ','
            &&& m.subrange(5 + x + y, m.len() as int) == body
        }),
{
    reveal_strlit("v1,");
    reveal_strlit(",");
    let m = signing_message(id, timestamp, body);
    let a = crate::util::text::decimal(id as nat);
    let b = crate::util::text::decimal(timestamp as nat);
    let x = a.len() as int;
    let y = b.len() as int;
    assert(m =~= "v1,"@ + a + ","@ + b + ","@ + body);
    assert(m.subrange(0, 3) =~= "v1,"@);
    assert(m.subrange(3, 3 + x) =~= a);
    assert(m.subrange(4 + x, 4 + x + y) =~= b);
    assert(m.subrange(5 + x + y, m.len() as int) =~= body);
}

/// The signature of `msg` with the base58-encoded key `secret`: the base64
/// text of the Ed25519 signature of the UTF-8 bytes of `msg`, or nothing when
/// `secret` does not decode to a 32-byte seed.
pub open spec fn signature_of(secret: Seq<char>, msg: Seq<char>) -> Option<Seq<char>> {
    match bs58_decoded(secret) {
        Some(seed) => if seed.len() == 32 {
            Some(base64_standard(ed25519_signature(seed, vstd::utf8::encode_utf8(msg))))
        } else {
            None
        },
        None => None,
    }
}

/// The text that is signed for parameters in the given format.
pub open spec fn signing_body(format: ParamsFormat, method: Method, query: Seq<char>, json: Seq<char>) -> Seq<char> {
    match format {
        ParamsFormat::Common => if method == Method::Get || method == Method::Delete {
            query
        } else {
            json
        },
        ParamsFormat::Json => json,
        ParamsFormat::Urlencoded => query,
    }
}

/// What is signed for a request: in the common format, the query string
/// exactly for the methods whose parameters travel in the query (`GET`,
/// `DELETE`) and the JSON text for every other method; always the JSON
/// text in the JSON format and the query string in the URL-encoded one.
pub proof fn signing_body_law(format: ParamsFormat, m: Method, query: Seq<char>, json: Seq<char>)
    requires
        query != json,
    ensures
        signing_body(ParamsFormat::Common, m, query, json) == query <==> (m == Method::Get || m == Method::Delete),
        signing_body(ParamsFormat::Common, m, query, json) == json <==> !(m == Method::Get || m == Method::Delete),
        signing_body(ParamsFormat::Json, m, query, json) == json,
        signing_body(ParamsFormat::Urlencoded, m, query, json) == query,
        signing_body(format, m, query, json) == query || signing_body(format, m, query, json) == json,
{
}

/// The API key of StandX: a base58 Ed25519 secret and a session token.
#[derive(Debug, Clone)]
pub struct Key {
    pub secret: String,
    pub jwt: String,
}

/// Parameters with the id and timestamp they are signed with.
#[derive(Debug, Clone)]
pub struct SigningParams<'a, T: Rest> {
    pub params: &'a T,
    pub id: u64,
    pub timestamp: u64,
}

/// Signed parameters.
#[derive(Debug, Clone)]
pub struct SignedParams<'a, T: Rest> {
    pub signing: SigningParams<'a, T>,
    pub signature: String,
}

impl Key {
    /// Whether the secret decodes to an Ed25519 seed, so that the key can
    /// sign.
    pub open spec fn usable(&self) -> bool {
        bs58_decoded(self.secret@) matches Some(seed) && seed.len() == 32
    }

    /// Whether the key can sign: its secret is base58 and decodes to 32
    /// bytes.
    pub fn can_sign(&self) -> (b: bool)
        ensures
            b == self.usable(),
    {
        match bs58_decode(self.secret.as_str()) {
            Some(seed) => seed.len() == 32,
            None => false,
        }
    }

    /// Signs `msg` with the key.
    pub fn signature(&self, msg: &str) -> (s: String)
        requires
            self.usable(),
        ensures
            signature_of(self.secret@, msg@) == Some(s@),
    {
        let seed = bs58_decode(self.secret.as_str());
        let seed = match seed {
            Some(seed) => seed,
            None => {
                proof {
                    assert(false);
                }
                Vec::new()
            },
        };
        let raw = ed25519_sign(seed.as_slice(), msg.as_bytes());
        match raw {
            Some(raw) => base64_encode(raw.as_slice()),
            None => {
                proof {
                    assert(false);
                }
                String::new()
            },
        }
    }

    /// The parameters to sign, with the given time in milliseconds as both
    /// id and timestamp.
    pub fn params_at<'a, T: Rest>(&'a self, params: &'a T, now_ms: u64) -> (p: SigningParams<'a, T>)
        ensures
            p.params == params,
            p.id == now_ms,
            p.timestamp == now_ms,
    {
        SigningParams { params, id: now_ms, timestamp: now_ms }
    }

    /// The parameters to sign, with the current time in milliseconds as both
    /// id and timestamp.
    pub fn params<'a, T: Rest>(&'a self, params: &'a T) -> (p: SigningParams<'a, T>)
        ensures
            p.params == params,
            p.id == p.timestamp,
    {
        self.params_at(params, now_millis())
    }

    /// Signs the parameters at the current time. `query` and `json` are the
    /// parameters written as a query string and as JSON.
    pub fn sign<'a, T: Rest>(
        &'a self,
        params: &'a T,
        format: ParamsFormat,
        kind: ApiKind,
        query: &str,
        json: &str,
    ) -> (s: SignedParams<'a, T>)
        requires
            kind == ApiKind::FuturesApi,
            self.usable(),
        ensures
            s.signing.params == params,
            s.signing.id == s.signing.timestamp,
            signature_of(
                self.secret@,
                signing_message(s.signing.id, s.signing.timestamp, signing_body(format, params.spec_method(), query@, json@)),
            ) == Some(s.signature@),
    {
        self.params(params).signed(self, format, kind, query, json)
    }
}

impl<'a, T: Rest> SigningParams<'a, T> {
    /// Signs the parameters with `key`: the message is the version, the id,
    /// the timestamp and the parameters written in `format`.
    pub fn signed(self, key: &Key, format: ParamsFormat, kind: ApiKind, query: &str, json: &str) -> (s: SignedParams<'a, T>)
        requires
            kind == ApiKind::FuturesApi,
            key.usable(),
        ensures
            s.signing == self,
            signature_of(
                key.secret@,
                signing_message(self.id, self.timestamp, signing_body(format, self.params.spec_method(), query@, json@)),
            ) == Some(s.signature@),
    {
        let body: &str = match format {
            ParamsFormat::Common => {
                if self.params.method().uses_query() {
                    query
                } else {
                    json
                }
            },
            ParamsFormat::Json => json,
            ParamsFormat::Urlencoded => query,
        };
        let mut raw = String::from_str("v1,");
        raw.append(u64_to_decimal(self.id).as_str());
        raw.append(",");
        raw.append(u64_to_decimal(self.timestamp).as_str());
        raw.append(",");
        raw.append(body);
        let signature = key.signature(raw.as_str());
        SignedParams { signing: self, signature }
    }

    /// Signs the parameters when the kind is the futures API and the key can
    /// sign; `None` otherwise.
    pub fn try_signed(self, key: &Key, format: ParamsFormat, kind: ApiKind, query: &str, json: &str) -> (s: Option<SignedParams<'a, T>>)
        ensures
            s is Some <==> (kind == ApiKind::FuturesApi && key.usable()),
            s matches Some(s) ==> s.signing == self && signature_of(
                key.secret@,
                signing_message(self.id, self.timestamp, signing_body(format, self.params.spec_method(), query@, json@)),
            ) == Some(s.signature@),
    {
        if kind == ApiKind::FuturesApi && key.can_sign() {
            Some(self.signed(key, format, kind, query, json))
        } else {
            None
        }
    }
}

} // verus!
