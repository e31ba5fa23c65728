//! hc-auth: authenticated bootstrap/relay support.
//!
//! For networks that gate bootstrap/relay behind authentication, the conductor
//! must present a base64 "auth material" proving control of an authorized agent
//! key. The flow against an auth server is:
//!
//! 1. get-or-create a persistent Ed25519 agent key in lair,
//! 2. `GET <server>/now` → a base64url challenge payload,
//! 3. sign it with the agent key via lair,
//! 4. `PUT <server>/authenticate` with `{pubKey, payload, signature}` → a status,
//! 5. if authorized, build the base64 auth material to inject into the network
//!    config.
//!
//! The signature never covers the server's bytes as-is: the signed message is
//! [`CHALLENGE_SIGNING_PREFIX`] followed by the challenge, and a message
//! starting with that ASCII prefix cannot be a msgpack-encoded action. The
//! challenge must also be exactly [`CHALLENGE_LEN`] bytes; a server that sends
//! anything else is reported as an auth failure, like one that is unreachable,
//! and the conductor still boots. The request names the scheme as
//! [`SIGNING_SCHEME`] so the server verifies the prefixed message.
//!
//! The key, the network and the signing are the host's work; [`AuthFlow`]
//! decides, step by step, what to do with what each of them returned.

use vstd::prelude::*;
use crate::error::{RuntimeError, RuntimeResult, runtime_error_message, concat};
use crate::text::{decimal, decimal_string};
use crate::types::AgentPubKey;
use base64::Engine;

verus! {

broadcast use vstd::string::group_string_axioms;

/// Length of a challenge from `GET /now`: 8 bytes of timestamp and 24 of nonce.
/// Anything else is refused before signing.
pub const CHALLENGE_LEN: usize = 32;

/// Length of [`CHALLENGE_SIGNING_PREFIX`].
pub const CHALLENGE_SIGNING_PREFIX_LEN: usize = 18;

/// Domain-separation prefix put in front of the challenge before signing, so a
/// challenge signature is only ever usable as one: the ASCII bytes of
/// `hc-auth-challenge:`.
pub const CHALLENGE_SIGNING_PREFIX: [u8; 18] =
    [104, 99, 45, 97, 117, 116, 104, 45, 99, 104, 97, 108, 108, 101, 110, 103, 101, 58];

/// Name of the signing scheme, sent as `scheme` in `/authenticate` bodies and the
/// auth material so the server verifies the prefixed message rather than the
/// raw one it accepts from older clients.
pub const SIGNING_SCHEME: &'static str = "hc-auth-challenge-v1";

/// The base64url (no padding) decoding of `s`: the decoded bytes, or the
/// decoder's error text.
pub uninterp spec fn base64_url_nopad_decoding(s: Seq<char>) -> Result<Seq<u8>, Seq<char>>;

/// The base64url (no padding) encoding of `bytes`.
pub uninterp spec fn base64_url_nopad_encoding(bytes: Seq<u8>) -> Seq<char>;

/// The standard (padded) base64 encoding of `bytes`.
pub uninterp spec fn base64_standard_encoding(bytes: Seq<u8>) -> Seq<char>;

/// The JSON text, as `serde_json` writes it, of the object whose entries are
/// these keys with these string values.
pub uninterp spec fn json_object_of_strings(entries: Seq<(Seq<char>, Seq<char>)>) -> Seq<char>;

/// Key/value pairs of strings, as characters.
pub open spec fn string_pairs_view(pairs: Seq<(String, String)>) -> Seq<(Seq<char>, Seq<char>)> {
    pairs.map_values(|p: (String, String)| (p.0@, p.1@))
}

/// The body of `PUT /authenticate` and of the auth material: the JSON object
/// `{pubKey, payload, signature, scheme}` with these values.
pub open spec fn auth_body_json(pub_key: Seq<char>, payload: Seq<char>, signature: Seq<char>, scheme: Seq<char>) -> Seq<char> {
    json_object_of_strings(seq![
        ("pubKey"@, pub_key),
        ("payload"@, payload),
        ("signature"@, signature),
        ("scheme"@, scheme),
    ])
}

/// Calls `base64::engine::general_purpose::URL_SAFE_NO_PAD.decode`. Claims
/// that the result, bytes or the error's `Display` text, is the named decoding
/// of the input.
#[verifier::external_body]
fn base64_url_nopad_decode(s: &str) -> (r: Result<Vec<u8>, String>)
    ensures
        match r {
            Ok(v) => base64_url_nopad_decoding(s@) == Ok::<Seq<u8>, Seq<char>>(v@),
            Err(e) => base64_url_nopad_decoding(s@) == Err::<Seq<u8>, Seq<char>>(e@),
        },
{
    base64::engine::general_purpose::URL_SAFE_NO_PAD.decode(s).map_err(|e| e.to_string())
}

/// Calls `base64::engine::general_purpose::URL_SAFE_NO_PAD.encode`. Claims that
/// the result is the named encoding of the bytes, and that the same engine
/// decodes it back to those bytes (the engine's encoding is canonical and
/// unpadded, which is what its decoder accepts).
#[verifier::external_body]
fn base64_url_nopad_encode(bytes: &[u8]) -> (r: String)
    ensures
        r@ == base64_url_nopad_encoding(bytes@),
        base64_url_nopad_decoding(r@) is Ok,
        base64_url_nopad_decoding(r@)->Ok_0 == bytes@,
{
    base64::engine::general_purpose::URL_SAFE_NO_PAD.encode(bytes)
}

/// Calls `base64::engine::general_purpose::STANDARD.encode`. Claims that the
/// result is the named encoding of the bytes.
#[verifier::external_body]
fn base64_standard_encode(bytes: &[u8]) -> (r: String)
    ensures
        r@ == base64_standard_encoding(bytes@),
{
    base64::engine::general_purpose::STANDARD.encode(bytes)
}

/// Collects the pairs into a `serde_json::Map` of string values and calls
/// `to_string` on the object. Claims that the text is the named JSON of the
/// pairs.
#[verifier::external_body]
fn json_object_text(entries: &Vec<(String, String)>) -> (r: String)
    ensures
        r@ == json_object_of_strings(string_pairs_view(entries@)),
{
    let map: serde_json::Map<String, serde_json::Value> = entries
        .iter()
        .map(|(k, v)| (k.clone(), serde_json::Value::String(v.clone())))
        .collect();
    serde_json::Value::Object(map).to_string()
}

/// A challenge from `GET /now`, decoded and length-checked.
#[derive(Clone, Copy, Debug)]
pub struct Challenge(pub [u8; 32]);

/// What [`Challenge::decode`] gives for a payload: the challenge bytes, or the
/// hc-auth error text.
pub open spec fn challenge_decoding(payload: Seq<char>) -> Result<Seq<u8>, Seq<char>> {
    match base64_url_nopad_decoding(payload) {
        Ok(bytes) => if bytes.len() == CHALLENGE_LEN {
            Ok(bytes)
        } else {
            Err("Challenge must be 32 bytes, got "@ + decimal(bytes.len()))
        },
        Err(e) => Err("Invalid payload base64url: "@ + e),
    }
}

/// The bytes signed for a challenge: [`CHALLENGE_SIGNING_PREFIX`] followed by it.
pub open spec fn signing_message_of(challenge: Seq<u8>) -> Seq<u8> {
    CHALLENGE_SIGNING_PREFIX@ + challenge
}

impl Challenge {
    /// Decode the base64url payload `GET /now` returned, refusing any other size
    /// than [`CHALLENGE_LEN`].
    pub fn decode(payload_b64url: &str) -> (r: RuntimeResult<Challenge>)
        ensures
            match challenge_decoding(payload_b64url@) {
                Ok(bytes) => r matches Ok(c) && c.0@ == bytes,
                Err(m) => r matches Err(RuntimeError::HcAuth(e)) && e@ == m,
            },
    {
        match base64_url_nopad_decode(payload_b64url) {
            Err(e) => Err(RuntimeError::HcAuth(concat("Invalid payload base64url: ", e.as_str()))),
            Ok(bytes) => {
                if bytes.len() != CHALLENGE_LEN {
                    let n = decimal_string(bytes.len() as u64);
                    return Err(RuntimeError::HcAuth(concat("Challenge must be 32 bytes, got ", n.as_str())));
                }
                let mut arr: [u8; 32] = [0u8; 32];
                let mut i: usize = 0;
                while i < CHALLENGE_LEN
                    invariant
                        bytes@.len() == CHALLENGE_LEN,
                        0 <= i <= CHALLENGE_LEN,
                        forall|j: int| 0 <= j < i ==> arr@[j] == bytes@[j],
                    decreases CHALLENGE_LEN - i,
                {
                    arr[i] = bytes[i];
                    i = i + 1;
                }
                assert(arr@ =~= bytes@);
                Ok(Challenge(arr))
            },
        }
    }

    /// The challenge as the server sends it: unpadded base64url. Decoding the
    /// result gives this challenge back.
    pub fn encode(&self) -> (r: String)
        ensures
            r@ == base64_url_nopad_encoding(self.0@),
            challenge_decoding(r@) == Ok::<Seq<u8>, Seq<char>>(self.0@),
    {
        base64_url_nopad_encode(&self.0)
    }

    /// The bytes actually signed: [`CHALLENGE_SIGNING_PREFIX`] followed by the
    /// challenge. Verifiers reconstruct the same message.
    pub fn signing_message(&self) -> (r: Vec<u8>)
        ensures
            r@ == signing_message_of(self.0@),
            r@.len() == CHALLENGE_SIGNING_PREFIX_LEN + CHALLENGE_LEN,
    {
        let mut message: Vec<u8> = Vec::new();
        let mut i: usize = 0;
        while i < CHALLENGE_SIGNING_PREFIX_LEN
            invariant
                0 <= i <= CHALLENGE_SIGNING_PREFIX_LEN,
                message@ == CHALLENGE_SIGNING_PREFIX@.subrange(0, i as int),
            decreases CHALLENGE_SIGNING_PREFIX_LEN - i,
        {
            message.push(CHALLENGE_SIGNING_PREFIX[i]);
            i = i + 1;
        }
        let mut j: usize = 0;
        while j < CHALLENGE_LEN
            invariant
                0 <= j <= CHALLENGE_LEN,
                message@ == CHALLENGE_SIGNING_PREFIX@ + self.0@.subrange(0, j as int),
            decreases CHALLENGE_LEN - j,
        {
            message.push(self.0[j]);
            j = j + 1;
        }
        assert(self.0@.subrange(0, CHALLENGE_LEN as int) =~= self.0@);
        message
    }
}

/// Every signed challenge message starts with the domain-separation prefix, so
/// its first byte is the ASCII letter `h` (0x68): never one of the msgpack map
/// or array markers (0x80–0x9f, 0xdc–0xdf) that start a serialized action, and
/// never the raw challenge itself, which is shorter.
pub proof fn signing_message_is_domain_separated(challenge: Seq<u8>)
    requires
        challenge.len() == CHALLENGE_LEN,
    ensures
        signing_message_of(challenge).len() == CHALLENGE_SIGNING_PREFIX_LEN + CHALLENGE_LEN,
        signing_message_of(challenge).subrange(0, CHALLENGE_SIGNING_PREFIX_LEN as int) == CHALLENGE_SIGNING_PREFIX@,
        signing_message_of(challenge).subrange(CHALLENGE_SIGNING_PREFIX_LEN as int, (CHALLENGE_SIGNING_PREFIX_LEN + CHALLENGE_LEN) as int) == challenge,
        signing_message_of(challenge)[0] == 0x68u8,
        !(0x80u8 <= signing_message_of(challenge)[0] <= 0x9fu8),
        !(0xdcu8 <= signing_message_of(challenge)[0] <= 0xdfu8),
        signing_message_of(challenge) != challenge,
{
    let m = signing_message_of(challenge);
    assert(m.subrange(0, CHALLENGE_SIGNING_PREFIX_LEN as int) =~= CHALLENGE_SIGNING_PREFIX@);
    assert(m.subrange(CHALLENGE_SIGNING_PREFIX_LEN as int, (CHALLENGE_SIGNING_PREFIX_LEN + CHALLENGE_LEN) as int) =~= challenge);
    assert(m[0] == CHALLENGE_SIGNING_PREFIX@[0]);
}

/// A payload from the auth server is only ever made into a message to sign when
/// it decodes to exactly [`CHALLENGE_LEN`] bytes, and that message is the
/// prefixed challenge, never the server's bytes themselves.
pub proof fn only_prefixed_challenges_are_signed(payload: Seq<char>)
    ensures
        challenge_decoding(payload) matches Ok(bytes) ==> {
            &&& bytes.len() == CHALLENGE_LEN
            &&& signing_message_of(bytes).subrange(0, CHALLENGE_SIGNING_PREFIX_LEN as int) == CHALLENGE_SIGNING_PREFIX@
            &&& signing_message_of(bytes) != bytes
        },
{
    if let Ok(bytes) = challenge_decoding(payload) {
        signing_message_is_domain_separated(bytes);
    }
}

/// Configuration for the hc-auth flow. `auth_bootstrap`/`auth_relay` select which
/// of the network's auth-material slots the resulting material is written to.
#[derive(Debug, Clone)]
pub struct HcAuthConfig {
    pub auth_server_url: String,
    pub auth_bootstrap: bool,
    pub auth_relay: bool,
}

impl HcAuthConfig {
    /// A config for `auth_server_url` that writes the material to both slots,
    /// the defaults when the flags are not given.
    pub fn new(auth_server_url: String) -> (r: HcAuthConfig)
        ensures
            r.auth_server_url == auth_server_url,
            r.auth_bootstrap,
            r.auth_relay,
    {
        HcAuthConfig { auth_server_url, auth_bootstrap: true, auth_relay: true }
    }

    /// A copy of this config.
    pub fn clone_config(&self) -> (r: HcAuthConfig)
        ensures
            r == *self,
    {
        HcAuthConfig { auth_server_url: self.auth_server_url.clone(), auth_bootstrap: self.auth_bootstrap, auth_relay: self.auth_relay }
    }
}

/// Result of `PUT /authenticate`, mapped from the HTTP status code.
#[derive(Debug, Clone)]
pub enum HcAuthStatus {
    Authorized,
    Pending,
    NotRegistered,
    Blocked,
    Failed(String),
}

/// The status `PUT /authenticate` answered with the HTTP status `code`, or the
/// error text for a code the server does not send.
pub open spec fn status_for_code(code: u16) -> Result<HcAuthStatus, Seq<char>> {
    if code == 200 {
        Ok(HcAuthStatus::Authorized)
    } else if code == 202 {
        Ok(HcAuthStatus::Pending)
    } else if code == 401 {
        Ok(HcAuthStatus::NotRegistered)
    } else if code == 403 {
        Ok(HcAuthStatus::Blocked)
    } else {
        Err("PUT /authenticate unexpected status: "@ + decimal(code as nat))
    }
}

/// Map the HTTP status of `PUT /authenticate` to an [`HcAuthStatus`]: 200
/// authorized, 202 pending, 401 not registered, 403 blocked; anything else is an
/// hc-auth error.
pub fn status_from_http_code(code: u16) -> (r: RuntimeResult<HcAuthStatus>)
    ensures
        match status_for_code(code) {
            Ok(s) => r matches Ok(t) && t == s,
            Err(m) => r matches Err(RuntimeError::HcAuth(e)) && e@ == m,
        },
{
    if code == 200 {
        Ok(HcAuthStatus::Authorized)
    } else if code == 202 {
        Ok(HcAuthStatus::Pending)
    } else if code == 401 {
        Ok(HcAuthStatus::NotRegistered)
    } else if code == 403 {
        Ok(HcAuthStatus::Blocked)
    } else {
        let n = decimal_string(code as u64);
        Err(RuntimeError::HcAuth(concat("PUT /authenticate unexpected status: ", n.as_str())))
    }
}

/// Outcome of the flow: the status plus the agent key (in both holochain and
/// raw-Ed25519-b64url forms) and, when authorized, the auth material to set on
/// the network config.
#[derive(Debug, Clone)]
pub struct AuthFlowResult {
    pub status: HcAuthStatus,
    pub auth_material: Option<String>,
    pub agent_key: AgentPubKey,
    pub raw_ed25519_b64url: String,
}

/// `s` without any trailing `c` characters.
pub open spec fn trim_end_char(s: Seq<char>, c: char) -> Seq<char>
    decreases s.len(),
{
    if s.len() > 0 && s.last() == c {
        trim_end_char(s.drop_last(), c)
    } else {
        s
    }
}

proof fn trim_end_char_prefix(s: Seq<char>, c: char, k: int)
    requires
        0 <= k <= s.len(),
        forall|j: int| k <= j < s.len() ==> s[j] == c,
    ensures
        trim_end_char(s, c) == trim_end_char(s.subrange(0, k), c),
    decreases s.len() - k,
{
    if k < s.len() {
        assert(s.drop_last() =~= s.subrange(0, s.len() - 1));
        assert(s.drop_last().subrange(0, k) =~= s.subrange(0, k));
        trim_end_char_prefix(s.drop_last(), c, k);
    } else {
        assert(s.subrange(0, k) =~= s);
    }
}

/// `s` with trailing `/` characters removed (`trim_end_matches('/')`).
pub fn trim_trailing_slashes(s: &str) -> (r: String)
    ensures
        r@ == trim_end_char(s@, '/'),
{
    let n = s.unicode_len();
    let mut k: usize = n;
    while k > 0 && s.get_char(k - 1) == '/'
        invariant
            n == s@.len(),
            0 <= k <= n,
            forall|j: int| k <= j < n ==> s@[j] == '/',
        decreases k,
    {
        k = k - 1;
    }
    proof {
        trim_end_char_prefix(s@, '/', k as int);
        let p = s@.subrange(0, k as int);
        if k > 0 {
            assert(p.last() != '/');
        }
    }
    String::from_str(s.substring_char(0, k))
}

/// The endpoint `<server>/<name>`, with any trailing `/` of the server URL
/// dropped first.
pub open spec fn endpoint_url(server: Seq<char>, endpoint: Seq<char>) -> Seq<char> {
    trim_end_char(server, '/') + endpoint
}

/// The challenge endpoint, `<server>/now`.
pub fn now_url(auth_server_url: &str) -> (r: String)
    ensures
        r@ == endpoint_url(auth_server_url@, "/now"@),
{
    let mut s = trim_trailing_slashes(auth_server_url);
    s.append("/now");
    s
}

/// The authentication endpoint, `<server>/authenticate`.
pub fn authenticate_url(auth_server_url: &str) -> (r: String)
    ensures
        r@ == endpoint_url(auth_server_url@, "/authenticate"@),
{
    let mut s = trim_trailing_slashes(auth_server_url);
    s.append("/authenticate");
    s
}

/// The JSON body of `PUT /authenticate`: `{pubKey, payload, signature, scheme}`.
pub fn authenticate_body(pubkey_b64url: &str, payload_b64url: &str, signature_b64url: &str) -> (r: String)
    ensures
        r@ == auth_body_json(pubkey_b64url@, payload_b64url@, signature_b64url@, SIGNING_SCHEME@),
        r@ == json_object_of_strings(seq![
            ("pubKey"@, pubkey_b64url@),
            ("payload"@, payload_b64url@),
            ("signature"@, signature_b64url@),
            ("scheme"@, SIGNING_SCHEME@),
        ]),
{
    let mut entries: Vec<(String, String)> = Vec::new();
    entries.push((String::from_str("pubKey"), String::from_str(pubkey_b64url)));
    entries.push((String::from_str("payload"), String::from_str(payload_b64url)));
    entries.push((String::from_str("signature"), String::from_str(signature_b64url)));
    entries.push((String::from_str("scheme"), String::from_str(SIGNING_SCHEME)));
    proof {
        assert(string_pairs_view(entries@) =~= seq![
            ("pubKey"@, pubkey_b64url@),
            ("payload"@, payload_b64url@),
            ("signature"@, signature_b64url@),
            ("scheme"@, SIGNING_SCHEME@),
        ]);
    }
    json_object_text(&entries)
}

/// The auth material for a signed challenge: the standard base64 of the UTF-8
/// JSON body `{pubKey, payload, signature, scheme}`.
pub open spec fn auth_material_of(pubkey: Seq<char>, payload: Seq<char>, signature: Seq<char>) -> Seq<char> {
    base64_standard_encoding(vstd::utf8::encode_utf8(auth_body_json(pubkey, payload, signature, SIGNING_SCHEME@)))
}

/// The auth material for a key, a challenge payload and its signature is the
/// standard base64 of the UTF-8 of the very `PUT /authenticate` body for those
/// three values: the JSON object whose `pubKey` is the key, whose `payload` is
/// the challenge payload, whose `signature` is the signature and whose `scheme`
/// is [`SIGNING_SCHEME`].
pub proof fn auth_material_carries_the_authenticate_body(pubkey: Seq<char>, payload: Seq<char>, signature: Seq<char>)
    ensures
        auth_material_of(pubkey, payload, signature)
            == base64_standard_encoding(vstd::utf8::encode_utf8(auth_body_json(pubkey, payload, signature, SIGNING_SCHEME@))),
        auth_material_of(pubkey, payload, signature)
            == base64_standard_encoding(vstd::utf8::encode_utf8(json_object_of_strings(seq![
                ("pubKey"@, pubkey),
                ("payload"@, payload),
                ("signature"@, signature),
                ("scheme"@, SIGNING_SCHEME@),
            ]))),
{
}

/// Build the base64 auth material (`base64(JSON{pubKey,payload,signature,scheme})`)
/// the conductor injects into bootstrap/relay requests.
pub fn build_auth_material(pubkey_b64url: &str, payload_b64url: &str, signature_b64url: &str) -> (r: String)
    ensures
        r@ == auth_material_of(pubkey_b64url@, payload_b64url@, signature_b64url@),
        r@ == base64_standard_encoding(vstd::utf8::encode_utf8(json_object_of_strings(seq![
            ("pubKey"@, pubkey_b64url@),
            ("payload"@, payload_b64url@),
            ("signature"@, signature_b64url@),
            ("scheme"@, SIGNING_SCHEME@),
        ]))),
{
    let body = authenticate_body(pubkey_b64url, payload_b64url, signature_b64url);
    base64_standard_encode(body.as_str().as_bytes())
}

/// The 32 raw Ed25519 bytes of an agent key, as URL-safe base64 (no padding) —
/// the form the auth server expects for `pubKey`.
pub fn agent_pub_key_to_raw_ed25519_b64url(key: &AgentPubKey) -> (r: String)
    requires
        key.well_formed(),
    ensures
        r@ == base64_url_nopad_encoding(key.raw_32()),
{
    let raw = key.get_raw_32();
    base64_url_nopad_encode(raw.as_slice())
}

/// The lair signature of a challenge, as URL-safe base64 (no padding).
pub fn encode_signature(signature: &[u8]) -> (r: String)
    ensures
        r@ == base64_url_nopad_encoding(signature@),
{
    base64_url_nopad_encode(signature)
}

/// The file under the conductor directory where the hc-auth agent key is kept.
pub fn auth_key_path(holochain_dir: &str) -> (r: String)
    ensures
        r@ == crate::config::path_join(holochain_dir@, "hc-auth-agent-key"@),
{
    crate::config::join_path(holochain_dir, "hc-auth-agent-key")
}

/// The text of the stored agent key after trimming, when it is not empty.
pub open spec fn stored_key_text(trimmed: Option<Seq<char>>) -> Option<Seq<char>> {
    match trimmed {
        Some(t) => if t.len() > 0 { Some(t) } else { None },
        None => None,
    }
}

/// Given the stored agent-key file's contents (already trimmed), or `None` when
/// it is missing or unreadable: the text to parse as the persisted key, or
/// `None` when a fresh key must be generated.
pub fn persisted_key_text(trimmed_contents: Option<String>) -> (r: Option<String>)
    ensures
        match r {
            Some(t) => stored_key_text(crate::url::opt_view(trimmed_contents)) == Some(t@),
            None => stored_key_text(crate::url::opt_view(trimmed_contents)) is None,
        },
{
    match trimmed_contents {
        Some(t) => if t.as_str().unicode_len() > 0 { Some(t) } else { None },
        None => None,
    }
}

/// Where the flow stands.
#[derive(Debug, Clone)]
pub enum AuthFlowPhase {
    /// Waiting for the agent key.
    AwaitingKey,
    /// Waiting for the challenge payload from `GET /now`.
    AwaitingChallenge,
    /// Waiting for the signature of the challenge message.
    AwaitingSignature { payload: String },
    /// Waiting for the status of `PUT /authenticate`.
    AwaitingStatus { payload: String, signature: String },
    /// The flow is over.
    Finished,
}

/// What the host reports back to the flow.
#[derive(Debug)]
pub enum AuthFlowEvent {
    /// The persisted or freshly generated agent key.
    KeyObtained(AgentPubKey),
    /// The body of `GET /now`, or why it could not be fetched.
    ChallengeFetched(RuntimeResult<String>),
    /// The lair signature over the challenge message.
    ChallengeSigned(Vec<u8>),
    /// The status `PUT /authenticate` answered with, or why it failed.
    StatusReceived(RuntimeResult<HcAuthStatus>),
}

/// What the flow asks the host to do next.
#[derive(Debug, Clone)]
pub enum AuthFlowAction {
    /// Reuse the persisted hc-auth key, or create and persist one.
    ObtainKey,
    /// `GET` this URL and report the body.
    FetchChallenge { url: String },
    /// Sign `message` with the agent key in lair and report the signature.
    SignChallenge { message: Vec<u8> },
    /// `PUT` `body` to this URL and report the mapped status.
    Authenticate { url: String, body: String },
    /// The flow is over with this result.
    Done(AuthFlowResult),
}

/// The hc-auth flow as a state machine: the host performs each action and
/// reports the event it produced.
#[derive(Debug, Clone)]
pub struct AuthFlow {
    pub config: HcAuthConfig,
    pub phase: AuthFlowPhase,
    pub agent_key: Option<AgentPubKey>,
    pub raw_ed25519_b64url: String,
}

/// The result the flow ends with when a step fails: the failure text, no
/// material, and the key.
pub open spec fn failed_result(r: AuthFlowResult, text: Seq<char>, key: AgentPubKey, raw: Seq<char>) -> bool {
    &&& r.status matches HcAuthStatus::Failed(m) && m@ == text
    &&& r.auth_material is None
    &&& r.agent_key == key
    &&& r.raw_ed25519_b64url@ == raw
}

/// Which event the flow waits for in `phase`.
pub open spec fn expects(phase: AuthFlowPhase, event: AuthFlowEvent) -> bool {
    match phase {
        AuthFlowPhase::AwaitingKey => event is KeyObtained,
        AuthFlowPhase::AwaitingChallenge => event is ChallengeFetched,
        AuthFlowPhase::AwaitingSignature { .. } => event is ChallengeSigned,
        AuthFlowPhase::AwaitingStatus { .. } => event is StatusReceived,
        AuthFlowPhase::Finished => false,
    }
}

impl AuthFlow {
    /// Whether the flow's fields agree with its phase: once the key is known it
    /// is well formed and `raw_ed25519_b64url` is its encoding.
    pub open spec fn well_formed(&self) -> bool {
        match self.phase {
            AuthFlowPhase::AwaitingKey => self.agent_key is None,
            AuthFlowPhase::Finished => true,
            _ => self.agent_key matches Some(k) && k.well_formed()
                && self.raw_ed25519_b64url@ == base64_url_nopad_encoding(k.raw_32()),
        }
    }

    /// Start the flow for `config`: the first action is to obtain the key.
    pub fn start(config: HcAuthConfig) -> (r: (AuthFlow, AuthFlowAction))
        ensures
            r.0.well_formed(),
            r.0.config == config,
            r.0.phase is AwaitingKey,
            r.1 is ObtainKey,
    {
        (AuthFlow { config, phase: AuthFlowPhase::AwaitingKey, agent_key: None, raw_ed25519_b64url: String::new() },
         AuthFlowAction::ObtainKey)
    }

    /// Advance the flow with the host's report of the last action.
    ///
    /// - Key obtained: fetch the challenge from `<server>/now`.
    /// - Challenge fetched: a fetch failure ends the flow with
    ///   `Failed("Auth server unreachable: <error>")`; a payload that is not a
    ///   32-byte base64url challenge ends it with
    ///   `Failed("Unusable challenge: <error>")`; otherwise sign the prefixed
    ///   challenge.
    /// - Signed: `PUT` the signed challenge to `<server>/authenticate`.
    /// - Status received: a failed request ends the flow with
    ///   `Failed(<error>)`; otherwise the flow ends with that status, and with
    ///   the auth material exactly when the status is `Authorized`.
    pub fn step(self, event: AuthFlowEvent) -> (r: (AuthFlow, AuthFlowAction))
        requires
            self.well_formed(),
            expects(self.phase, event),
            event matches AuthFlowEvent::KeyObtained(k) ==> k.well_formed(),
        ensures
            r.0.well_formed(),
            r.0.config == self.config,
            match (self.phase, event) {
                (AuthFlowPhase::AwaitingKey, AuthFlowEvent::KeyObtained(k)) => {
                    &&& r.0.phase is AwaitingChallenge
                    &&& r.0.agent_key == Some(k)
                    &&& r.1 matches AuthFlowAction::FetchChallenge { url }
                        && url@ == endpoint_url(self.config.auth_server_url@, "/now"@)
                },
                (AuthFlowPhase::AwaitingChallenge, AuthFlowEvent::ChallengeFetched(fetched)) => {
                    let key = self.agent_key->0;
                    let raw = self.raw_ed25519_b64url@;
                    match fetched {
                        Err(e) => {
                            &&& r.0.phase is Finished
                            &&& r.1 matches AuthFlowAction::Done(res) && failed_result(res,
                                "Auth server unreachable: "@ + runtime_error_message(e), key, raw)
                        },
                        Ok(payload) => match challenge_decoding(payload@) {
                            Err(m) => {
                                &&& r.0.phase is Finished
                                &&& r.1 matches AuthFlowAction::Done(res) && failed_result(res,
                                    "Unusable challenge: "@ + ("hc-auth error: "@ + m), key, raw)
                            },
                            Ok(bytes) => {
                                &&& r.0.phase matches AuthFlowPhase::AwaitingSignature { payload: p } && p@ == payload@
                                &&& r.0.agent_key == self.agent_key
                                &&& r.1 matches AuthFlowAction::SignChallenge { message }
                                    && message@ == signing_message_of(bytes)
                            },
                        },
                    }
                },
                (AuthFlowPhase::AwaitingSignature { payload }, AuthFlowEvent::ChallengeSigned(sig)) => {
                    let sig_b64 = base64_url_nopad_encoding(sig@);
                    &&& r.0.phase matches AuthFlowPhase::AwaitingStatus { payload: p, signature: s }
                        && p@ == payload@ && s@ == sig_b64
                    &&& r.0.agent_key == self.agent_key
                    &&& r.1 matches AuthFlowAction::Authenticate { url, body }
                        && url@ == endpoint_url(self.config.auth_server_url@, "/authenticate"@)
                        && body@ == auth_body_json(self.raw_ed25519_b64url@, payload@, sig_b64, SIGNING_SCHEME@)
                },
                (AuthFlowPhase::AwaitingStatus { payload, signature }, AuthFlowEvent::StatusReceived(replied)) => {
                    let key = self.agent_key->0;
                    let raw = self.raw_ed25519_b64url@;
                    &&& r.0.phase is Finished
                    &&& match replied {
                        Err(e) => r.1 matches AuthFlowAction::Done(res)
                            && failed_result(res, runtime_error_message(e), key, raw),
                        Ok(status) => r.1 matches AuthFlowAction::Done(res)
                            && res.status == status
                            && res.agent_key == key
                            && res.raw_ed25519_b64url@ == raw
                            && (status is Authorized ==> (res.auth_material matches Some(m)
                                && m@ == auth_material_of(raw, payload@, signature@)))
                            && (!(status is Authorized) ==> res.auth_material is None),
                    }
                },
                _ => false,
            },
    {
        let config = self.config;
        match (self.phase, event) {
            (AuthFlowPhase::AwaitingKey, AuthFlowEvent::KeyObtained(k)) => {
                let raw = agent_pub_key_to_raw_ed25519_b64url(&k);
                let url = now_url(config.auth_server_url.as_str());
                (AuthFlow { config, phase: AuthFlowPhase::AwaitingChallenge, agent_key: Some(k), raw_ed25519_b64url: raw },
                 AuthFlowAction::FetchChallenge { url })
            },
            (AuthFlowPhase::AwaitingChallenge, AuthFlowEvent::ChallengeFetched(fetched)) => {
                let key = self.agent_key.unwrap();
                let raw = self.raw_ed25519_b64url;
                match fetched {
                    Err(e) => {
                        let text = concat("Auth server unreachable: ", e.message().as_str());
                        let res = AuthFlowResult { status: HcAuthStatus::Failed(text), auth_material: None, agent_key: key, raw_ed25519_b64url: raw };
                        (AuthFlow { config, phase: AuthFlowPhase::Finished, agent_key: None, raw_ed25519_b64url: String::new() },
                         AuthFlowAction::Done(res))
                    },
                    Ok(payload) => match Challenge::decode(payload.as_str()) {
                        Err(e) => {
                            let text = concat("Unusable challenge: ", e.message().as_str());
                            let res = AuthFlowResult { status: HcAuthStatus::Failed(text), auth_material: None, agent_key: key, raw_ed25519_b64url: raw };
                            (AuthFlow { config, phase: AuthFlowPhase::Finished, agent_key: None, raw_ed25519_b64url: String::new() },
                             AuthFlowAction::Done(res))
                        },
                        Ok(challenge) => {
                            let message = challenge.signing_message();
                            (AuthFlow { config, phase: AuthFlowPhase::AwaitingSignature { payload }, agent_key: Some(key), raw_ed25519_b64url: raw },
                             AuthFlowAction::SignChallenge { message })
                        },
                    },
                }
            },
            (AuthFlowPhase::AwaitingSignature { payload }, AuthFlowEvent::ChallengeSigned(sig)) => {
                let signature = encode_signature(sig.as_slice());
                let url = authenticate_url(config.auth_server_url.as_str());
                let body = authenticate_body(self.raw_ed25519_b64url.as_str(), payload.as_str(), signature.as_str());
                (AuthFlow { config, phase: AuthFlowPhase::AwaitingStatus { payload, signature }, agent_key: self.agent_key, raw_ed25519_b64url: self.raw_ed25519_b64url },
                 AuthFlowAction::Authenticate { url, body })
            },
            (AuthFlowPhase::AwaitingStatus { payload, signature }, AuthFlowEvent::StatusReceived(replied)) => {
                let key = self.agent_key.unwrap();
                let raw = self.raw_ed25519_b64url;
                let res = match replied {
                    Err(e) => AuthFlowResult { status: HcAuthStatus::Failed(e.message()), auth_material: None, agent_key: key, raw_ed25519_b64url: raw },
                    Ok(status) => {
                        let auth_material = match status {
                            HcAuthStatus::Authorized => Some(build_auth_material(raw.as_str(), payload.as_str(), signature.as_str())),
                            _ => None,
                        };
                        AuthFlowResult { status, auth_material, agent_key: key, raw_ed25519_b64url: raw }
                    },
                };
                (AuthFlow { config, phase: AuthFlowPhase::Finished, agent_key: None, raw_ed25519_b64url: String::new() },
                 AuthFlowAction::Done(res))
            },
            _ => {
                proof { assert(false); }
                (AuthFlow { config, phase: AuthFlowPhase::Finished, agent_key: None, raw_ed25519_b64url: String::new() },
                 AuthFlowAction::ObtainKey)
            },
        }
    }
}

} // verus!
