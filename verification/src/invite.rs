//! Invite codes. An invite code is the base58 text of
//! `network_pubkey (32 bytes) || secret (16 bytes) || blake3(payload)[..4]`,
//! or, in the older unchecksummed form, of the 48-byte payload alone.
//! Decoding checks the checksum where there is one and that the first 32
//! bytes are a valid network (ed25519) public key.

use vstd::prelude::*;
use vstd::slice::*;
use crate::text::{str_concat, decimal, digit_char, push_char, push_decimal};

verus! {

/// Length of the network public key at the front of an invite payload.
pub const KEY_LEN: usize = 32;
/// Length of the random invite secret, in bytes.
pub const SECRET_LEN: usize = 16;
/// Length of the blake3 checksum prefix appended to a payload.
pub const CHECKSUM_LEN: usize = 4;
/// Length of the payload: network public key followed by the secret.
pub const PAYLOAD_LEN: usize = KEY_LEN + SECRET_LEN;
/// Length of a checksummed invite: payload followed by the checksum.
pub const ENCODED_LEN: usize = PAYLOAD_LEN + CHECKSUM_LEN;

/// What `bs58::decode(code).into_vec()` returns for the text `code`: the
/// decoded bytes, or the text of the error.
pub uninterp spec fn bs58_decoding(code: Seq<char>) -> Result<Seq<u8>, Seq<char>>;

/// The 32-byte blake3 digest of `data`, as `blake3::hash` computes it.
pub uninterp spec fn blake3_digest(data: Seq<u8>) -> [u8; 32];

/// Whether `iroh::EndpointId::from_bytes` accepts these 32 bytes as an
/// ed25519 public key, and if not, the text of its error.
pub uninterp spec fn endpoint_id_check(bytes: Seq<u8>) -> Result<(), Seq<char>>;

/// Calls `bs58::decode(code).into_vec()` (Bitcoin alphabet) and hands back
/// the bytes, or the error's text.
#[verifier::external_body]
fn bs58_decode(code: &str) -> (r: Result<Vec<u8>, String>)
    ensures
        (match r {
            Ok(v) => bs58_decoding(code@) == Ok::<Seq<u8>, Seq<char>>(v@),
            Err(e) => bs58_decoding(code@) == Err::<Seq<u8>, Seq<char>>(e@),
        }),
{
    match bs58::decode(code).into_vec() {
        Ok(v) => Ok(v),
        Err(e) => Err(e.to_string()),
    }
}

/// Calls `blake3::hash(data)` and hands back its 32 bytes.
#[verifier::external_body]
fn blake3_hash(data: &[u8]) -> (r: [u8; 32])
    ensures
        r == blake3_digest(data@),
{
    *blake3::hash(data).as_bytes()
}

/// Calls `iroh::EndpointId::from_bytes` on the 32 bytes and reports whether
/// they were accepted, or the error's text. The key itself is not kept: its
/// bytes are the ones passed in.
#[verifier::external_body]
fn check_endpoint_id(bytes: &[u8]) -> (r: Result<(), String>)
    requires
        bytes@.len() == KEY_LEN,
    ensures
        (match r {
            Ok(u) => endpoint_id_check(bytes@) == Ok::<(), Seq<char>>(u),
            Err(e) => endpoint_id_check(bytes@) == Err::<(), Seq<char>>(e@),
        }),
{
    let key: &[u8; 32] = bytes.try_into().unwrap();
    match iroh::EndpointId::from_bytes(key) {
        Ok(_) => Ok(()),
        Err(e) => Err(e.to_string()),
    }
}

/// The hexadecimal digit (lower case) for `n < 16`.
pub open spec fn hex_digit(n: nat) -> char {
    if n < 10 {
        digit_char(n)
    } else {
        ((87 + n) as u32) as char
    }
}

/// Lower-case hexadecimal text of a byte sequence, two digits per byte.
pub open spec fn hex_lower(b: Seq<u8>) -> Seq<char>
    decreases b.len(),
{
    if b.len() == 0 {
        seq![]
    } else {
        hex_lower(b.drop_last()) + seq![hex_digit((b.last() / 16) as nat), hex_digit((b.last() % 16) as nat)]
    }
}

/// The message for a decoded invite whose checksum does not match.
pub open spec fn checksum_mismatch_message() -> Seq<char> {
    "invalid invite code: checksum mismatch (corrupted or mistyped)"@
}

/// The message for a decoded invite of neither accepted length.
pub open spec fn wrong_length_message(len: nat) -> Seq<char> {
    "invalid invite code: expected "@ + decimal(ENCODED_LEN as nat) + " or "@ + decimal(
        PAYLOAD_LEN as nat,
    ) + " bytes, got "@ + decimal(len)
}

/// The checksum an invite payload carries: the first four bytes of its
/// blake3 digest.
pub open spec fn checksum_of(payload: Seq<u8>) -> Seq<u8> {
    blake3_digest(payload)@.subrange(0, CHECKSUM_LEN as int)
}

/// The payload of decoded invite bytes: the first 48 of a checksummed code
/// whose checksum matches, or all 48 of a legacy code.
pub open spec fn invite_payload(bytes: Seq<u8>) -> Result<Seq<u8>, Seq<char>> {
    if bytes.len() == ENCODED_LEN {
        let payload = bytes.subrange(0, PAYLOAD_LEN as int);
        if bytes.subrange(PAYLOAD_LEN as int, ENCODED_LEN as int) == checksum_of(payload) {
            Ok(payload)
        } else {
            Err(checksum_mismatch_message())
        }
    } else if bytes.len() == PAYLOAD_LEN {
        Ok(bytes)
    } else {
        Err(wrong_length_message(bytes.len()))
    }
}

/// What decoding the invite text `code` gives: the network key bytes and
/// the secret, or the error message.
pub open spec fn invite_decoding(code: Seq<char>) -> Result<(Seq<u8>, Seq<u8>), Seq<char>> {
    match bs58_decoding(code) {
        Err(e) => Err("invalid invite code: "@ + e),
        Ok(bytes) => match invite_payload(bytes) {
            Err(m) => Err(m),
            Ok(p) => match endpoint_id_check(p.subrange(0, KEY_LEN as int)) {
                Err(e) => Err("invalid network key in invite: "@ + e),
                Ok(_) => Ok((p.subrange(0, KEY_LEN as int), p.subrange(KEY_LEN as int, p.len() as int))),
            },
        },
    }
}

/// A checksummed invite decodes to the key and secret it was made from:
/// when the code's base58 bytes are `key || secret || blake3(key || secret)[..4]`
/// and the key is a valid endpoint id, decoding yields exactly that key and
/// secret.
pub proof fn checksummed_invite_decodes(code: Seq<char>, key: Seq<u8>, secret: Seq<u8>)
    requires
        key.len() == KEY_LEN,
        secret.len() == SECRET_LEN,
        endpoint_id_check(key) is Ok,
        bs58_decoding(code) == Ok::<Seq<u8>, Seq<char>>(key + secret + checksum_of(key + secret)),
    ensures
        invite_decoding(code) == Ok::<(Seq<u8>, Seq<u8>), Seq<char>>((key, secret)),
{
    let bytes = key + secret + checksum_of(key + secret);
    assert(bytes.subrange(0, PAYLOAD_LEN as int) =~= key + secret);
    assert(bytes.subrange(PAYLOAD_LEN as int, ENCODED_LEN as int) =~= checksum_of(key + secret));
    assert((key + secret).subrange(0, KEY_LEN as int) =~= key);
    assert((key + secret).subrange(KEY_LEN as int, PAYLOAD_LEN as int) =~= secret);
}

/// A legacy (unchecksummed) invite decodes to the key and secret it was
/// made from: when the code's base58 bytes are `key || secret` and the key
/// is a valid endpoint id, decoding yields exactly that key and secret.
pub proof fn legacy_invite_decodes(code: Seq<char>, key: Seq<u8>, secret: Seq<u8>)
    requires
        key.len() == KEY_LEN,
        secret.len() == SECRET_LEN,
        endpoint_id_check(key) is Ok,
        bs58_decoding(code) == Ok::<Seq<u8>, Seq<char>>(key + secret),
    ensures
        invite_decoding(code) == Ok::<(Seq<u8>, Seq<u8>), Seq<char>>((key, secret)),
{
    assert((key + secret).subrange(0, KEY_LEN as int) =~= key);
    assert((key + secret).subrange(KEY_LEN as int, PAYLOAD_LEN as int) =~= secret);
}

/// An invite whose checksum does not match its payload is rejected as a
/// checksum mismatch, whatever its key.
pub proof fn corrupted_checksum_rejected(code: Seq<char>, bytes: Seq<u8>)
    requires
        bs58_decoding(code) == Ok::<Seq<u8>, Seq<char>>(bytes),
        bytes.len() == ENCODED_LEN,
        bytes.subrange(PAYLOAD_LEN as int, ENCODED_LEN as int) != checksum_of(
            bytes.subrange(0, PAYLOAD_LEN as int),
        ),
    ensures
        invite_decoding(code) == Err::<(Seq<u8>, Seq<u8>), Seq<char>>(checksum_mismatch_message()),
{
}

/// Decoded bytes of any length other than 48 or 52 are rejected with a
/// message naming both accepted lengths and the length found.
pub proof fn wrong_length_rejected(code: Seq<char>, bytes: Seq<u8>)
    requires
        bs58_decoding(code) == Ok::<Seq<u8>, Seq<char>>(bytes),
        bytes.len() != ENCODED_LEN,
        bytes.len() != PAYLOAD_LEN,
    ensures
        invite_decoding(code) == Err::<(Seq<u8>, Seq<u8>), Seq<char>>(wrong_length_message(bytes.len())),
{
}

/// Whatever the code, a successful decode yields a 32-byte key and a secret
/// of exactly 16 bytes (never the checksum bytes with it).
pub proof fn decoded_secret_has_secret_len(code: Seq<char>)
    requires
        invite_decoding(code) is Ok,
    ensures
        invite_decoding(code)->Ok_0.0.len() == KEY_LEN,
        invite_decoding(code)->Ok_0.1.len() == SECRET_LEN,
{
}

/// A network's public key (an iroh endpoint id), as its 32 bytes.
#[derive(Debug)]
pub struct NetworkKey {
    bytes: Vec<u8>,
}

impl NetworkKey {
    #[verifier::type_invariant]
    spec fn well_formed(self) -> bool {
        self.bytes@.len() == KEY_LEN
    }

    /// The key's 32 bytes.
    pub closed spec fn key_bytes(self) -> Seq<u8> {
        self.bytes@
    }

    /// The key's 32 bytes.
    pub fn as_bytes(&self) -> (r: &[u8])
        ensures
            r@ == self.key_bytes(),
            r@.len() == KEY_LEN,
    {
        proof {
            use_type_invariant(self);
        }
        self.bytes.as_slice()
    }

    /// The key's text form, as the daemon and `tetron status` write it:
    /// lower-case hexadecimal of its bytes (iroh's `Display` for an endpoint id).
    pub fn to_string(&self) -> (r: String)
        ensures
            r@ == hex_lower(self.key_bytes()),
    {
        hex_string(self.bytes.as_slice())
    }
}

impl View for NetworkKey {
    type V = Seq<u8>;

    open spec fn view(&self) -> Seq<u8> {
        self.key_bytes()
    }
}

fn hex_char(n: u8) -> (c: char)
    requires
        n < 16,
    ensures
        c == hex_digit(n as nat),
{
    if n < 10 {
        (48u8 + n) as char
    } else {
        (87u8 + n) as char
    }
}

/// Lower-case hexadecimal text of `b`.
pub fn hex_string(b: &[u8]) -> (r: String)
    ensures
        r@ == hex_lower(b@),
{
    let mut r = String::new();
    let mut i: usize = 0;
    while i < b.len()
        invariant
            i <= b@.len(),
            r@ == hex_lower(b@.take(i as int)),
        decreases b@.len() - i,
    {
        let x = b[i];
        push_char(&mut r, hex_char(x / 16));
        push_char(&mut r, hex_char(x % 16));
        assert(b@.take(i + 1).drop_last() =~= b@.take(i as int));
        i = i + 1;
        assert(r@ =~= hex_lower(b@.take(i as int)));
    }
    assert(b@.take(b@.len() as int) =~= b@);
    r
}

fn bytes_equal(a: &[u8], b: &[u8]) -> (r: bool)
    ensures
        r == (a@ == b@),
{
    if a.len() != b.len() {
        return false;
    }
    let mut i: usize = 0;
    while i < a.len()
        invariant
            a@.len() == b@.len(),
            i <= a@.len(),
            forall|j: int| 0 <= j < i ==> a@[j] == b@[j],
        decreases a@.len() - i,
    {
        if a[i] != b[i] {
            return false;
        }
        i = i + 1;
    }
    assert(a@ =~= b@);
    true
}

/// Decodes an invite code as pasted by a user into the network key it names
/// and its secret.
pub fn decode_invite(code: &str) -> (r: Result<(NetworkKey, Vec<u8>), String>)
    ensures
        r is Ok <==> invite_decoding(code@) is Ok,
        r matches Ok((key, secret)) ==> invite_decoding(code@) == Ok::<(Seq<u8>, Seq<u8>), Seq<char>>((key@, secret@)),
        r matches Ok((key, secret)) ==> key@.len() == KEY_LEN && secret@.len() == SECRET_LEN,
        r matches Err(e) ==> invite_decoding(code@) == Err::<(Seq<u8>, Seq<u8>), Seq<char>>(e@),
{
    let bytes = match bs58_decode(code) {
        Ok(b) => b,
        Err(e) => {
            return Err(str_concat("invalid invite code: ", e.as_str()));
        },
    };
    let n = bytes.len();
    let payload: Vec<u8>;
    if n == ENCODED_LEN {
        payload = slice_to_vec(slice_subrange(bytes.as_slice(), 0, PAYLOAD_LEN));
        let digest = blake3_hash(payload.as_slice());
        let sum = slice_subrange(bytes.as_slice(), PAYLOAD_LEN, ENCODED_LEN);
        let expected = slice_subrange(digest.as_slice(), 0, CHECKSUM_LEN);
        if !bytes_equal(sum, expected) {
            return Err(String::from_str("invalid invite code: checksum mismatch (corrupted or mistyped)"));
        }
    } else if n == PAYLOAD_LEN {
        payload = bytes;
    } else {
        let mut m = String::from_str("invalid invite code: expected ");
        push_decimal(&mut m, ENCODED_LEN as u64);
        m.append(" or ");
        push_decimal(&mut m, PAYLOAD_LEN as u64);
        m.append(" bytes, got ");
        push_decimal(&mut m, n as u64);
        return Err(m);
    }
    let key = slice_to_vec(slice_subrange(payload.as_slice(), 0, KEY_LEN));
    match check_endpoint_id(key.as_slice()) {
        Ok(()) => {},
        Err(e) => {
            return Err(str_concat("invalid network key in invite: ", e.as_str()));
        },
    }
    let secret = slice_to_vec(slice_subrange(payload.as_slice(), KEY_LEN, payload.len()));
    Ok((NetworkKey { bytes: key }, secret))
}

} // verus!
