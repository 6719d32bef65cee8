//! HMAC-SHA256 webhook signature verification.

use vstd::prelude::*;
use vstd::utf8::encode_utf8;
use hmac::Mac;
use crate::webhook_verifier::WebhookVerifier;
use crate::webhook::{
    header_insert, law_header_read_back, lookup_value, names_distinct, names_match, RawWebhook,
    VerificationResult,
};

verus! {

/// The HMAC-SHA256 tag of `msg` under `key`, as the `hmac` and `sha2`
/// crates compute it.
pub uninterp spec fn hmac_sha256_tag(key: Seq<u8>, msg: Seq<u8>) -> Seq<u8>;

/// Length in bytes of an HMAC-SHA256 tag.
pub const TAG_LEN: usize = 32;

/// Calls `Hmac::<Sha256>::new_from_slice` (which accepts keys of any
/// length), `update` and `finalize`: the tag of `msg` under `key`, 32 bytes
/// long.
#[verifier::external_body]
fn hmac_sha256(key: &[u8], msg: &[u8]) -> (r: Vec<u8>)
    ensures
        r@ == hmac_sha256_tag(key@, msg@),
        r@.len() == TAG_LEN,
{
    let mut mac = hmac::Hmac::<sha2::Sha256>::new_from_slice(key).expect("HMAC key should be valid");
    mac.update(msg);
    mac.finalize().into_bytes().to_vec()
}

/// Calls `Hmac::<Sha256>::new_from_slice`, `update` and `verify_slice`:
/// true exactly when `tag` equals the whole tag of `msg` under `key`
/// (a tag of another length is refused).
#[verifier::external_body]
fn hmac_sha256_verify(key: &[u8], msg: &[u8], tag: &[u8]) -> (r: bool)
    ensures
        r == (tag@ == hmac_sha256_tag(key@, msg@)),
{
    let mut mac = hmac::Hmac::<sha2::Sha256>::new_from_slice(key).expect("HMAC key should be valid");
    mac.update(msg);
    mac.verify_slice(tag).is_ok()
}

/// The lower-case hexadecimal digit for a value below 16.
pub open spec fn hex_digit(n: int) -> char {
    if n < 10 {
        ((n + 48) as u8) as char
    } else {
        ((n - 10 + 97) as u8) as char
    }
}

/// Lower-case hexadecimal text of bytes: two digits per byte, high half first.
pub open spec fn hex_text(b: Seq<u8>) -> Seq<char> {
    Seq::new(
        2 * b.len(),
        |i: int|
            if i % 2 == 0 {
                hex_digit(b[i / 2] as int / 16)
            } else {
                hex_digit(b[i / 2] as int % 16)
            },
    )
}

/// The value of a hexadecimal digit of either case, or -1.
pub open spec fn hex_value(c: char) -> int {
    if '0' <= c && c <= '9' {
        c as int - 48
    } else if 'a' <= c && c <= 'f' {
        c as int - 97 + 10
    } else if 'A' <= c && c <= 'F' {
        c as int - 65 + 10
    } else {
        -1
    }
}

/// Text that `hex::decode` accepts: an even number of hexadecimal digits.
pub open spec fn hex_decodable(s: Seq<char>) -> bool {
    &&& s.len() % 2 == 0
    &&& forall|i: int| 0 <= i < s.len() ==> hex_value(#[trigger] s[i]) >= 0
}

/// The bytes that `hex::decode` yields: one byte per pair of digits.
pub open spec fn hex_bytes(s: Seq<char>) -> Seq<u8> {
    Seq::new(s.len() / 2, |i: int| (hex_value(s[2 * i]) * 16 + hex_value(s[2 * i + 1])) as u8)
}

/// Calls `hex::encode`: two lower-case digits per byte.
#[verifier::external_body]
fn hex_encode(bytes: &[u8]) -> (r: String)
    ensures
        r@ == hex_text(bytes@),
{
    hex::encode(bytes)
}

/// Calls `hex::decode` and keeps the bytes when it succeeds: it succeeds
/// exactly for an even number of hexadecimal digits of either case.
#[verifier::external_body]
fn hex_decode(s: &str) -> (r: Option<Vec<u8>>)
    ensures
        r is Some <==> hex_decodable(s@),
        r matches Some(v) ==> v@ == hex_bytes(s@),
{
    hex::decode(s).ok()
}

/// The value of a character of the standard base64 alphabet
/// (`A`-`Z`, `a`-`z`, `0`-`9`, `+`, `/`), or -1.
pub open spec fn base64_value(c: char) -> int {
    if 'A' <= c && c <= 'Z' {
        c as int - 65
    } else if 'a' <= c && c <= 'z' {
        c as int - 97 + 26
    } else if '0' <= c && c <= '9' {
        c as int - 48 + 52
    } else if c == '+' {
        62
    } else if c == '/' {
        63
    } else {
        -1
    }
}

/// The number of `=` padding characters that end `s` (at most two).
pub open spec fn base64_padding(s: Seq<char>) -> int {
    if s.len() >= 2 && s[s.len() - 1] == '=' && s[s.len() - 2] == '=' {
        2
    } else if s.len() >= 1 && s[s.len() - 1] == '=' {
        1
    } else {
        0
    }
}

/// Text in standard, padded base64: whole groups of four characters, all
/// from the alphabet but for one or two `=` at the end, with the bits that
/// padding leaves over set to zero.
pub open spec fn base64_decodable(s: Seq<char>) -> bool {
    &&& s.len() % 4 == 0
    &&& forall|i: int| 0 <= i < s.len() - base64_padding(s) ==> base64_value(#[trigger] s[i]) >= 0
    &&& base64_padding(s) == 1 ==> base64_value(s[s.len() - 2]) % 4 == 0
    &&& base64_padding(s) == 2 ==> base64_value(s[s.len() - 3]) % 16 == 0
}

/// The 6-bit value that a character carries, padding counting as zero.
pub open spec fn base64_digit(c: char) -> int {
    if base64_value(c) >= 0 {
        base64_value(c)
    } else {
        0
    }
}

/// The 24 bits that the `g`-th group of four characters carries.
pub open spec fn base64_group(s: Seq<char>, g: int) -> int {
    base64_digit(s[4 * g]) * 262144 + base64_digit(s[4 * g + 1]) * 4096 + base64_digit(
        s[4 * g + 2],
    ) * 64 + base64_digit(s[4 * g + 3])
}

/// The `k`-th byte that base64 text carries: each group gives three bytes,
/// high bits first.
pub open spec fn base64_byte(s: Seq<char>, k: int) -> u8 {
    let n = base64_group(s, k / 3);
    (if k % 3 == 0 {
        n / 65536
    } else if k % 3 == 1 {
        n / 256 % 256
    } else {
        n % 256
    }) as u8
}

/// The bytes that base64 text decodes to: three per group, less one per
/// padding character.
pub open spec fn base64_bytes(s: Seq<char>) -> Seq<u8> {
    Seq::new((s.len() / 4 * 3 - base64_padding(s)) as nat, |k: int| base64_byte(s, k))
}

fn base64_char_value(c: char) -> (r: i32)
    ensures
        r == base64_value(c),
{
    if 'A' <= c && c <= 'Z' {
        (c as u32 - 65) as i32
    } else if 'a' <= c && c <= 'z' {
        (c as u32 - 97 + 26) as i32
    } else if '0' <= c && c <= '9' {
        (c as u32 - 48 + 52) as i32
    } else if c == '+' {
        62
    } else if c == '/' {
        63
    } else {
        -1
    }
}

/// Decodes standard, padded base64 text; `None` for text that is not.
pub fn base64_decode(s: &str) -> (r: Option<Vec<u8>>)
    ensures
        r is Some <==> base64_decodable(s@),
        r matches Some(v) ==> v@ == base64_bytes(s@),
{
    let n = s.unicode_len();
    if n % 4 != 0 {
        return None;
    }
    let mut pad: usize = 0;
    if n >= 1 && s.get_char(n - 1) == '=' {
        pad = 1;
        if n >= 2 && s.get_char(n - 2) == '=' {
            pad = 2;
        }
    }
    assert(pad == base64_padding(s@));
    let groups = n / 4;
    let mut out: Vec<u8> = Vec::new();
    let mut last1: i32 = 0;
    let mut last2: i32 = 0;
    let mut g: usize = 0;
    while g < groups
        invariant
            n == s@.len(),
            n % 4 == 0,
            groups == n / 4,
            pad == base64_padding(s@),
            g <= groups,
            out@.len() == 3 * g,
            forall|i: int| 0 <= i < 4 * g && i < n - pad ==> base64_value(#[trigger] s@[i]) >= 0,
            forall|k: int| 0 <= k < 3 * g ==> #[trigger] out@[k] == base64_byte(s@, k),
            g > 0 ==> last1 == base64_digit(s@[4 * g - 3]),
            g > 0 ==> last2 == base64_digit(s@[4 * g - 2]),
        decreases groups - g,
    {
        let mut vals: [i32; 4] = [0, 0, 0, 0];
        let mut j: usize = 0;
        while j < 4
            invariant
                n == s@.len(),
                n % 4 == 0,
                groups == n / 4,
                g < groups,
                pad == base64_padding(s@),
                j <= 4,
                forall|i: int| 0 <= i < 4 * g && i < n - pad ==> base64_value(#[trigger] s@[i]) >= 0,
                forall|i: int| 0 <= i < j ==> vals@[i] == base64_digit(#[trigger] s@[4 * g + i]),
                forall|i: int| 0 <= i < j ==> 0 <= #[trigger] vals@[i] < 64,
                forall|i: int| 0 <= i < 4 * g + j && i < n - pad ==> base64_value(#[trigger] s@[i]) >= 0,
            decreases 4 - j,
        {
            let pos = 4 * g + j;
            let c = s.get_char(pos);
            let v = base64_char_value(c);
            if pos < n - pad {
                if v < 0 {
                    return None;
                }
                vals[j] = v;
            } else {
                vals[j] = 0;
            }
            j = j + 1;
        }
        let total: u32 = (vals[0] as u32) * 262144 + (vals[1] as u32) * 4096 + (vals[2] as u32) * 64
            + (vals[3] as u32);
        proof {
            let b = 4 * g as int;
            assert(vals@[0] == base64_digit(s@[b + 0]));
            assert(vals@[1] == base64_digit(s@[b + 1]));
            assert(vals@[2] == base64_digit(s@[b + 2]));
            assert(vals@[3] == base64_digit(s@[b + 3]));
            assert(b + 0 == 4 * g);
        }
        assert(total == base64_group(s@, g as int));
        out.push((total / 65536) as u8);
        out.push((total / 256 % 256) as u8);
        out.push((total % 256) as u8);
        last1 = vals[1];
        last2 = vals[2];
        g = g + 1;
    }
    if pad == 1 && last2 % 4 != 0 {
        return None;
    }
    if pad == 2 && last1 % 16 != 0 {
        return None;
    }
    out.truncate(3 * groups - pad);
    assert(out@ =~= base64_bytes(s@));
    Some(out)
}

/// Decoding the hexadecimal text of bytes gives the bytes back.
pub proof fn law_hex_round_trip(b: Seq<u8>)
    ensures
        hex_decodable(hex_text(b)),
        hex_bytes(hex_text(b)) == b,
{
    let t = hex_text(b);
    assert forall|i: int| 0 <= i < t.len() implies hex_value(#[trigger] t[i]) >= 0 by {
        let byte = b[i / 2] as int;
        if i % 2 == 0 {
            lemma_hex_digit_value(byte / 16);
        } else {
            lemma_hex_digit_value(byte % 16);
        }
    }
    assert(t.len() % 2 == 0);
    assert forall|i: int| 0 <= i < b.len() implies #[trigger] hex_bytes(t)[i] == b[i] by {
        let byte = b[i] as int;
        assert(t[2 * i] == hex_digit(byte / 16));
        assert(t[2 * i + 1] == hex_digit(byte % 16));
        lemma_hex_digit_value(byte / 16);
        lemma_hex_digit_value(byte % 16);
    }
    assert(hex_bytes(t) =~= b);
}

proof fn lemma_hex_digit_value(n: int)
    requires
        0 <= n < 16,
    ensures
        hex_value(hex_digit(n)) == n,
{
    if n < 10 {
        assert(((n + 48) as u8) as char as int == n + 48);
    } else {
        assert(((n - 10 + 97) as u8) as char as int == n - 10 + 97);
    }
}

/// Configuration for HMAC-SHA256 webhook verification.
#[derive(Debug, Clone)]
pub struct HmacVerifierConfig {
    /// The signing secret.
    pub secret: Vec<u8>,
    /// Header name containing the signature.
    pub signature_header: String,
    /// Optional header name containing the timestamp.
    pub timestamp_header: Option<String>,
    /// Signature encoding (hex or base64).
    pub encoding: SignatureEncoding,
    /// Optional prefix in the signature header value (e.g., "sha256=" for GitHub).
    pub signature_prefix: Option<String>,
}

/// How the signature is encoded in the header.
#[derive(Debug, Clone, Copy, PartialEq, Eq, Structural)]
pub enum SignatureEncoding {
    Hex,
    Base64,
}

/// HMAC-SHA256 webhook signature verifier.
///
/// This is the most common webhook signing mechanism used by payment providers
/// like Stripe, Adyen, and others.
pub struct HmacVerifier {
    config: HmacVerifierConfig,
}

#[derive(Debug, Clone)]
pub enum HmacVerifierError {
    MissingHeader(String),
    InvalidEncoding,
}

impl HmacVerifierError {
    /// The message that the error displays as.
    pub open spec fn message_text(&self) -> Seq<char> {
        match self {
            HmacVerifierError::MissingHeader(h) => "missing signature header: "@ + h@,
            HmacVerifierError::InvalidEncoding => "invalid signature encoding"@,
        }
    }

    /// The message that the error displays as.
    pub fn to_string(&self) -> (r: String)
        ensures
            r@ == self.message_text(),
    {
        match self {
            HmacVerifierError::MissingHeader(h) => {
                let mut s = String::from_str("missing signature header: ");
                s.append(h.as_str());
                s
            },
            HmacVerifierError::InvalidEncoding => String::from_str("invalid signature encoding"),
        }
    }
}

/// What verifying a webhook comes to, before any text is attached.
pub enum HmacOutcome {
    /// The signature matches the body.
    Valid,
    /// The signature decodes but does not match.
    Mismatch,
    /// The signature header is absent.
    MissingHeader,
    /// The signature cannot be decoded.
    InvalidEncoding,
}

/// Header text with the configured prefix removed when it starts with it.
pub open spec fn strip_signature_prefix(prefix: Option<Seq<char>>, raw: Seq<char>) -> Seq<char> {
    match prefix {
        Some(p) => if p.len() <= raw.len() && raw.subrange(0, p.len() as int) == p {
            raw.subrange(p.len() as int, raw.len() as int)
        } else {
            raw
        },
        None => raw,
    }
}

/// The signature bytes carried by header text, or `None` when it cannot
/// be decoded in the configured encoding.
pub open spec fn decoded_signature(encoding: SignatureEncoding, text: Seq<char>) -> Option<Seq<u8>> {
    match encoding {
        SignatureEncoding::Hex => if hex_decodable(text) {
            Some(hex_bytes(text))
        } else {
            None
        },
        SignatureEncoding::Base64 => if base64_decodable(text) {
            Some(base64_bytes(text))
        } else {
            None
        },
    }
}

pub open spec fn opt_text_view(o: Option<String>) -> Option<Seq<char>> {
    match o {
        Some(s) => Some(s@),
        None => None,
    }
}

/// The outcome of verifying a webhook with `headers` and `body` under the
/// configuration: the signature header is looked up regardless of case,
/// its prefix removed, its text decoded, and the bytes compared with the
/// tag of the body's UTF-8 bytes.
pub open spec fn hmac_outcome(
    cfg: HmacVerifierConfig,
    headers: Seq<(Seq<char>, Seq<char>)>,
    body: Seq<char>,
) -> HmacOutcome {
    match lookup_value(headers, cfg.signature_header@) {
        None => HmacOutcome::MissingHeader,
        Some(raw) => {
            let text = strip_signature_prefix(opt_text_view(cfg.signature_prefix), raw);
            match decoded_signature(cfg.encoding, text) {
                None => HmacOutcome::InvalidEncoding,
                Some(sig) => if sig == hmac_sha256_tag(cfg.secret@, encode_utf8(body)) {
                    HmacOutcome::Valid
                } else {
                    HmacOutcome::Mismatch
                },
            }
        },
    }
}

/// The result that `verify` gives for an outcome.
pub open spec fn result_matches(
    r: Result<VerificationResult, HmacVerifierError>,
    outcome: HmacOutcome,
    cfg: HmacVerifierConfig,
) -> bool {
    match outcome {
        HmacOutcome::Valid => r matches Ok(VerificationResult::Valid),
        HmacOutcome::Mismatch => r matches Ok(VerificationResult::Invalid { reason })
            && reason@ == "HMAC signature mismatch"@,
        HmacOutcome::MissingHeader => r matches Err(HmacVerifierError::MissingHeader(h)) && h@
            == cfg.signature_header@,
        HmacOutcome::InvalidEncoding => r matches Err(HmacVerifierError::InvalidEncoding),
    }
}

impl HmacVerifier {
    /// The configuration the verifier uses.
    pub closed spec fn cfg(&self) -> HmacVerifierConfig {
        self.config
    }

    pub fn new(config: HmacVerifierConfig) -> (r: Self)
        ensures
            r.cfg() == config,
    {
        Self { config }
    }

    /// Create a simple HMAC verifier with hex-encoded signatures.
    pub fn hex(secret: &[u8], signature_header: &str) -> (r: Self)
        ensures
            r.cfg().secret@ == secret@,
            r.cfg().signature_header@ == signature_header@,
            r.cfg().timestamp_header is None,
            r.cfg().encoding == SignatureEncoding::Hex,
            r.cfg().signature_prefix is None,
    {
        Self::new(
            HmacVerifierConfig {
                secret: vstd::slice::slice_to_vec(secret),
                signature_header: String::from_str(signature_header),
                timestamp_header: None,
                encoding: SignatureEncoding::Hex,
                signature_prefix: None,
            },
        )
    }

    /// Compute the HMAC-SHA256 signature of a payload.
    pub fn compute_signature(&self, payload: &[u8]) -> (r: Vec<u8>)
        ensures
            r@ == hmac_sha256_tag(self.cfg().secret@, payload@),
            r@.len() == TAG_LEN,
    {
        hmac_sha256(self.config.secret.as_slice(), payload)
    }

    /// Compute and return the hex-encoded signature.
    pub fn sign_hex(&self, payload: &[u8]) -> (r: String)
        ensures
            r@ == hex_text(hmac_sha256_tag(self.cfg().secret@, payload@)),
    {
        let sig = self.compute_signature(payload);
        hex_encode(sig.as_slice())
    }

    fn extract_signature<'a>(&self, raw: &'a str) -> (r: &'a str)
        ensures
            r@ == strip_signature_prefix(opt_text_view(self.cfg().signature_prefix), raw@),
    {
        match &self.config.signature_prefix {
            Some(prefix) => {
                let p = prefix.as_str();
                assert(opt_text_view(self.cfg().signature_prefix) == Some(p@));
                let plen = p.unicode_len();
                let rlen = raw.unicode_len();
                if plen > rlen {
                    return raw;
                }
                let mut i: usize = 0;
                while i < plen
                    invariant
                        opt_text_view(self.cfg().signature_prefix) == Some(p@),
                        plen == p@.len(),
                        rlen == raw@.len(),
                        plen <= rlen,
                        i <= plen,
                        forall|j: int| 0 <= j < i ==> raw@[j] == p@[j],
                    decreases plen - i,
                {
                    if raw.get_char(i) != p.get_char(i) {
                        assert(raw@.subrange(0, plen as int)[i as int] != p@[i as int]);
                        assert(raw@.subrange(0, plen as int) != p@);
                        assert(strip_signature_prefix(Some(p@), raw@) == raw@);
                        return raw;
                    }
                    i = i + 1;
                }
                assert(raw@.subrange(0, plen as int) =~= p@);
                raw.substring_char(plen, rlen)
            },
            None => raw,
        }
    }

    fn decode_signature(&self, encoded: &str) -> (r: Option<Vec<u8>>)
        ensures
            match decoded_signature(self.cfg().encoding, encoded@) {
                Some(b) => r matches Some(v) && v@ == b,
                None => r is None,
            },
    {
        match self.config.encoding {
            SignatureEncoding::Hex => hex_decode(encoded),
            SignatureEncoding::Base64 => base64_decode(encoded),
        }
    }

}

impl WebhookVerifier for HmacVerifier {
    type Error = HmacVerifierError;

    /// Checks the webhook's signature header against the HMAC-SHA256 tag of
    /// its body.
    fn verify(&self, webhook: &RawWebhook) -> (r: Result<
        VerificationResult,
        HmacVerifierError,
    >)
        ensures
            result_matches(r, hmac_outcome(self.cfg(), webhook.headers@, webhook.body@), self.cfg()),
    {
        let sig_header = match webhook.header(self.config.signature_header.as_str()) {
            Some(h) => h,
            None => {
                return Err(HmacVerifierError::MissingHeader(self.config.signature_header.clone()));
            },
        };
        let sig_str = self.extract_signature(sig_header);
        let expected_bytes = match self.decode_signature(sig_str) {
            Some(bytes) => bytes,
            None => return Err(HmacVerifierError::InvalidEncoding),
        };
        let body = webhook.body.as_str().as_bytes();
        if hmac_sha256_verify(self.config.secret.as_slice(), body, expected_bytes.as_slice()) {
            Ok(VerificationResult::Valid)
        } else {
            Ok(VerificationResult::Invalid { reason: String::from_str("HMAC signature mismatch") })
        }
    }
}

/// A webhook signed with the verifier's own `sign_hex` of its body, under a
/// hex configuration without prefix, verifies as valid.
pub proof fn law_signed_webhook_is_valid(
    cfg: HmacVerifierConfig,
    headers: Seq<(Seq<char>, Seq<char>)>,
    body: Seq<char>,
)
    requires
        cfg.encoding == SignatureEncoding::Hex,
        cfg.signature_prefix is None,
        lookup_value(headers, cfg.signature_header@) == Some(
            hex_text(hmac_sha256_tag(cfg.secret@, encode_utf8(body))),
        ),
    ensures
        hmac_outcome(cfg, headers, body) is Valid,
{
    law_hex_round_trip(hmac_sha256_tag(cfg.secret@, encode_utf8(body)));
}

/// Setting the signature header to the verifier's own `sign_hex` of the
/// body makes the webhook verify as valid, provided no header of another
/// name matches the signature header regardless of case.
pub proof fn law_sign_then_verify(
    cfg: HmacVerifierConfig,
    entries: Seq<(Seq<char>, Seq<char>)>,
    body: Seq<char>,
)
    requires
        cfg.encoding == SignatureEncoding::Hex,
        cfg.signature_prefix is None,
        names_distinct(entries),
        forall|j: int|
            0 <= j < entries.len() && (#[trigger] entries[j]).0 != cfg.signature_header@
                ==> !names_match(entries[j].0, cfg.signature_header@),
    ensures
        hmac_outcome(
            cfg,
            header_insert(
                entries,
                cfg.signature_header@,
                hex_text(hmac_sha256_tag(cfg.secret@, encode_utf8(body))),
            ),
            body,
        ) is Valid,
{
    let sig = hex_text(hmac_sha256_tag(cfg.secret@, encode_utf8(body)));
    law_header_read_back(entries, cfg.signature_header@, sig);
    law_signed_webhook_is_valid(cfg, header_insert(entries, cfg.signature_header@, sig), body);
}

/// A signature header that decodes to anything but the body's tag is a
/// mismatch, never valid.
pub proof fn law_wrong_signature_is_invalid(
    cfg: HmacVerifierConfig,
    headers: Seq<(Seq<char>, Seq<char>)>,
    body: Seq<char>,
    raw: Seq<char>,
)
    requires
        cfg.encoding == SignatureEncoding::Hex,
        cfg.signature_prefix is None,
        lookup_value(headers, cfg.signature_header@) == Some(raw),
        hex_decodable(raw),
        hex_bytes(raw) != hmac_sha256_tag(cfg.secret@, encode_utf8(body)),
    ensures
        hmac_outcome(cfg, headers, body) is Mismatch,
{
}

/// Under a base64 configuration without prefix, a signature header whose
/// base64 text decodes to the body's tag verifies as valid, and one that
/// decodes to other bytes is a mismatch.
pub proof fn law_base64_signature_outcome(
    cfg: HmacVerifierConfig,
    headers: Seq<(Seq<char>, Seq<char>)>,
    body: Seq<char>,
    raw: Seq<char>,
)
    requires
        cfg.encoding == SignatureEncoding::Base64,
        cfg.signature_prefix is None,
        lookup_value(headers, cfg.signature_header@) == Some(raw),
        base64_decodable(raw),
    ensures
        base64_bytes(raw) == hmac_sha256_tag(cfg.secret@, encode_utf8(body)) ==> hmac_outcome(
            cfg,
            headers,
            body,
        ) is Valid,
        base64_bytes(raw) != hmac_sha256_tag(cfg.secret@, encode_utf8(body)) ==> hmac_outcome(
            cfg,
            headers,
            body,
        ) is Mismatch,
{
}

} // verus!
