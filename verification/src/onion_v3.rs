//! The address codec: derives a hidden service's textual address from its
//! ed25519 public key, reconstructs key pairs from a 32-byte secret, and
//! brute-force searches for addresses with a chosen prefix.
//!
//! The 35-byte address payload layout is fixed: 32 bytes public key, 2
//! bytes of checksum, 1 version byte. The checksum is the SHA3-256 digest
//! of a fixed 15-byte domain-separation prefix, the public key and the
//! version byte, truncated to its first 2 bytes. The address is the
//! unpadded lower-case base-32 encoding of the payload with a fixed
//! `.onion` suffix appended. Byte-exactness is mandatory here, so the
//! base-32 step is pinned down bit by bit.

use vstd::prelude::*;
use vstd::string::StrSliceExecFns;
use vstd::string::StringExecFns;
use sha3::Digest;
use crate::CoreError;
use crate::copy_bytes;

verus! {

/// The 15-byte checksum domain-separation prefix, ".onion checksum".
pub open spec fn checksum_prefix() -> Seq<u8> {
    seq![46u8, 111u8, 110u8, 105u8, 111u8, 110u8, 32u8, 99u8, 104u8, 101u8, 99u8, 107u8, 115u8, 117u8, 109u8]
}

/// The fixed version byte of the address payload.
pub open spec fn version_byte() -> u8 {
    3u8
}

/// The SHA3-256 digest of a byte sequence, named after the outside hash.
pub uninterp spec fn sha3_256_of(input: Seq<u8>) -> Seq<u8>;

/// The ed25519 public key derived from a 32-byte secret key, named after
/// the outside key derivation.
pub uninterp spec fn ed25519_public_of(secret: Seq<u8>) -> Seq<u8>;

/// What the checksum is computed over: prefix, public key, version byte.
pub open spec fn checksum_input(public: Seq<u8>) -> Seq<u8> {
    checksum_prefix() + public + seq![version_byte()]
}

/// The first two bytes of the checksum digest.
pub open spec fn onion_checksum(public: Seq<u8>) -> Seq<u8> {
    let digest = sha3_256_of(checksum_input(public));
    seq![digest[0], digest[1]]
}

/// The 35-byte address payload: public key, checksum, version byte.
pub open spec fn onion_payload(public: Seq<u8>) -> Seq<u8> {
    public + onion_checksum(public) + seq![version_byte()]
}

/// Bit `k` of a byte, counting the most significant bit as bit 0.
pub open spec fn byte_bit(b: u8, k: int) -> int {
    if k == 0 {
        (b as int) / 128 % 2
    } else if k == 1 {
        (b as int) / 64 % 2
    } else if k == 2 {
        (b as int) / 32 % 2
    } else if k == 3 {
        (b as int) / 16 % 2
    } else if k == 4 {
        (b as int) / 8 % 2
    } else if k == 5 {
        (b as int) / 4 % 2
    } else if k == 6 {
        (b as int) / 2 % 2
    } else {
        (b as int) % 2
    }
}

/// Bit `i` of a byte sequence read as a most-significant-bit-first bit
/// stream; bits past the end read as zero padding.
pub open spec fn stream_bit(b: Seq<u8>, i: int) -> int {
    if 0 <= i && i / 8 < b.len() {
        byte_bit(b[i / 8], i % 8)
    } else {
        0
    }
}

/// The value of the `j`-th 5-bit group of the bit stream.
pub open spec fn base32_group(b: Seq<u8>, j: int) -> int {
    16 * stream_bit(b, 5 * j) + 8 * stream_bit(b, 5 * j + 1) + 4 * stream_bit(b, 5 * j + 2) + 2
        * stream_bit(b, 5 * j + 3) + stream_bit(b, 5 * j + 4)
}

/// The base-32 symbol for a group value: "ABCDEFGHIJKLMNOPQRSTUVWXYZ234567".
pub open spec fn base32_symbol(v: int) -> u8 {
    if v < 26 {
        (65 + v) as u8
    } else {
        (24 + v) as u8
    }
}

/// How many symbols the unpadded base-32 encoding of `n` bytes has.
pub open spec fn base32_len(n: nat) -> nat {
    (8 * n + 4) / 5
}

/// The unpadded base-32 encoding of a byte sequence, as ASCII bytes:
/// RFC 4648 with the upper-case alphabet and no padding characters.
pub open spec fn base32_nopad(b: Seq<u8>) -> Seq<u8> {
    Seq::new(base32_len(b.len()), |j: int| base32_symbol(base32_group(b, j)))
}

/// Maps an ASCII upper-case letter to its lower-case form; leaves every
/// other byte unchanged.
pub open spec fn ascii_lower(b: u8) -> u8 {
    if 65 <= b && b <= 90 {
        (b + 32) as u8
    } else {
        b
    }
}

/// An ASCII byte of the upper-case base-32 alphabet.
pub open spec fn is_base32_symbol(b: u8) -> bool {
    (65 <= b && b <= 90) || (50 <= b && b <= 55)
}

/// An ASCII byte of the lower-case base-32 alphabet.
pub open spec fn is_base32_lower_byte(b: u8) -> bool {
    (97 <= b && b <= 122) || (50 <= b && b <= 55)
}

/// A character of the lower-case base-32 alphabet: 'a' to 'z' or '2' to '7'.
pub open spec fn is_base32_lower_char(c: char) -> bool {
    (97 <= c as int && c as int <= 122) || (50 <= c as int && c as int <= 55)
}

/// The body of the textual address: lower-case unpadded base-32 of the
/// payload, before the fixed suffix.
pub open spec fn address_body(public: Seq<u8>) -> Seq<char> {
    base32_nopad(onion_payload(public)).map_values(|b: u8| ascii_lower(b) as char)
}

/// The fixed suffix of every textual address.
pub open spec fn onion_suffix() -> Seq<char> {
    seq!['.', 'o', 'n', 'i', 'o', 'n']
}

/// The full textual address derived from a public key. This is a function
/// of the key alone, so derivation is deterministic.
pub open spec fn onion_address(public: Seq<u8>) -> Seq<char> {
    address_body(public) + onion_suffix()
}

/// Pins the bit order of the encoding specification on one concrete
/// value: the bytes of "foo" encode to the symbols "MZXW6", as RFC 4648
/// gives them.
pub proof fn lemma_base32_example()
    ensures
        base32_nopad(seq![102u8, 111u8, 111u8]) =~= seq![77u8, 90u8, 88u8, 87u8, 54u8],
{
    let b = seq![102u8, 111u8, 111u8];
    assert(base32_len(3) == 5);
    assert(base32_group(b, 0) == 12);
    assert(base32_group(b, 1) == 25);
    assert(base32_group(b, 2) == 23);
    assert(base32_group(b, 3) == 22);
    assert(base32_group(b, 4) == 30);
}

/// A bit of the byte stream is zero or one.
proof fn lemma_stream_bit_range(b: Seq<u8>, i: int)
    ensures
        0 <= stream_bit(b, i) <= 1,
{
}

/// A 5-bit group value lies below 32.
proof fn lemma_base32_group_range(b: Seq<u8>, j: int)
    ensures
        0 <= base32_group(b, j) < 32,
{
    lemma_stream_bit_range(b, 5 * j);
    lemma_stream_bit_range(b, 5 * j + 1);
    lemma_stream_bit_range(b, 5 * j + 2);
    lemma_stream_bit_range(b, 5 * j + 3);
    lemma_stream_bit_range(b, 5 * j + 4);
}

/// Every symbol of a base-32 encoding is in the upper-case alphabet.
pub proof fn lemma_base32_symbol_range(b: Seq<u8>, j: int)
    requires
        0 <= j < base32_nopad(b).len(),
    ensures
        is_base32_symbol(base32_nopad(b)[j]),
{
    lemma_base32_group_range(b, j);
    assert(base32_nopad(b)[j] == base32_symbol(base32_group(b, j)));
}

/// The shape of every derived address: the payload has 35 bytes and ends
/// in the version byte, the body is its base-32 encoding (56 characters,
/// all in the lower-case alphabet), and the fixed suffix follows.
pub proof fn lemma_address_shape(public: Seq<u8>)
    requires
        public.len() == 32,
    ensures
        onion_payload(public).len() == 35,
        onion_payload(public)[34] == version_byte(),
        onion_payload(public).take(32) =~= public,
        address_body(public).len() == 56,
        onion_address(public).len() == 62,
        onion_address(public).take(56) =~= address_body(public),
        onion_address(public).skip(56) =~= onion_suffix(),
        forall|j: int| 0 <= j < 56 ==> is_base32_lower_char(#[trigger] address_body(public)[j]),
{
    assert(onion_payload(public).len() == 35);
    assert(base32_len(35) == 56);
    assert forall|j: int| 0 <= j < 56 implies is_base32_lower_char(
        #[trigger] address_body(public)[j],
    ) by {
        lemma_base32_symbol_range(onion_payload(public), j);
    }
}

/// A prefix with a character outside the lower-case base-32 alphabet can
/// never match the body of a derived address, so a vanity search for such
/// a prefix cannot terminate.
pub proof fn lemma_foreign_prefix_never_matches(prefix: Seq<char>, public: Seq<u8>, i: int)
    requires
        public.len() == 32,
        0 <= i < prefix.len(),
        i < 56,
        !is_base32_lower_char(prefix[i]),
    ensures
        !prefix.is_prefix_of(address_body(public)),
{
    lemma_address_shape(public);
    if prefix.is_prefix_of(address_body(public)) {
        assert(prefix[i] == address_body(public).subrange(0, prefix.len() as int)[i]);
        assert(prefix[i] == address_body(public)[i]);
    }
}

/// Relies on sha3::Sha3_256::digest: the 32-byte SHA3-256 digest, a
/// function of the input bytes alone.
#[verifier::external_body]
fn sha3_256(input: &Vec<u8>) -> (r: Vec<u8>)
    ensures
        r@ == sha3_256_of(input@),
        r@.len() == 32,
{
    sha3::Sha3_256::digest(input.as_slice()).to_vec()
}

/// Relies on data_encoding::BASE32_NOPAD.encode: RFC 4648 base-32 with
/// the alphabet "ABCDEFGHIJKLMNOPQRSTUVWXYZ234567", most significant bit
/// first, no padding characters.
#[verifier::external_body]
fn base32_nopad_encode(input: &Vec<u8>) -> (r: Vec<u8>)
    ensures
        r@ == base32_nopad(input@),
{
    data_encoding::BASE32_NOPAD.encode(input.as_slice()).into_bytes()
}

/// Relies on ed25519_dalek::SigningKey::generate and verifying_key: a
/// fresh 32-byte secret drawn from the operating system's secure random
/// source, paired with the public key derived from that secret alone.
#[verifier::external_body]
fn generate_keypair() -> (r: (Vec<u8>, Vec<u8>))
    ensures
        r.0@.len() == 32,
        r.1@.len() == 32,
        r.1@ == ed25519_public_of(r.0@),
{
    let mut csprng = rand_core::OsRng;
    let signing_key = ed25519_dalek::SigningKey::generate(&mut csprng);
    let public = signing_key.verifying_key().to_bytes();
    (signing_key.to_bytes().to_vec(), public.to_vec())
}

/// Relies on ed25519_dalek::SigningKey::from_bytes and verifying_key: the
/// public key derived from a 32-byte secret alone.
#[verifier::external_body]
fn derive_public_key(secret: &Vec<u8>) -> (r: Vec<u8>)
    requires
        secret@.len() == 32,
    ensures
        r@.len() == 32,
        r@ == ed25519_public_of(secret@),
{
    let bytes: [u8; 32] = secret.as_slice().try_into().unwrap();
    let signing_key = ed25519_dalek::SigningKey::from_bytes(&bytes);
    signing_key.verifying_key().to_bytes().to_vec()
}

/// Relies on String::from_utf8: ASCII bytes are valid UTF-8 and decode to
/// one character per byte, with the same code point.
#[verifier::external_body]
fn ascii_bytes_to_string(v: &Vec<u8>) -> (r: String)
    requires
        forall|i: int| 0 <= i < v@.len() ==> v@[i] < 128,
    ensures
        r@ == v@.map_values(|b: u8| b as char),
{
    String::from_utf8(v.clone()).unwrap()
}

/// Appends every byte of `src` to `dst`.
fn push_all(dst: &mut Vec<u8>, src: &Vec<u8>)
    ensures
        final(dst)@ == old(dst)@ + src@,
{
    let n = src.len();
    let mut i: usize = 0;
    while i < n
        invariant
            n == src@.len(),
            i <= n,
            dst@ == old(dst)@ + src@.take(i as int),
        decreases n - i,
    {
        dst.push(src[i]);
        assert(dst@ =~= old(dst)@ + src@.take(i as int + 1));
        i += 1;
    }
    assert(dst@ =~= old(dst)@ + src@);
}

/// Lower-cases every ASCII upper-case byte of `v` in place.
fn ascii_lowercase_bytes(v: &mut Vec<u8>)
    ensures
        final(v)@ == old(v)@.map_values(|b: u8| ascii_lower(b)),
{
    let n = v.len();
    let mut i: usize = 0;
    while i < n
        invariant
            n == v@.len(),
            i <= n,
            forall|j: int| 0 <= j < i ==> v@[j] == ascii_lower(old(v)@[j]),
            forall|j: int| i <= j < n ==> v@[j] == old(v)@[j],
        decreases n - i,
    {
        let b = v[i];
        if 65 <= b && b <= 90 {
            v.set(i, b + 32);
        }
        i += 1;
    }
    assert(v@ =~= old(v)@.map_values(|b: u8| ascii_lower(b)));
}

/// The lower-case base-32 body of the address derived from a public key,
/// as ASCII bytes.
fn address_body_bytes(public: &Vec<u8>) -> (r: Vec<u8>)
    requires
        public@.len() == 32,
    ensures
        r@ == base32_nopad(onion_payload(public@)).map_values(|b: u8| ascii_lower(b)),
        r@.len() == 56,
        forall|i: int| 0 <= i < r@.len() ==> is_base32_lower_byte(#[trigger] r@[i]),
        r@.map_values(|b: u8| b as char) =~= address_body(public@),
{
    let mut input: Vec<u8> = Vec::new();
    input.push(46);
    input.push(111);
    input.push(110);
    input.push(105);
    input.push(111);
    input.push(110);
    input.push(32);
    input.push(99);
    input.push(104);
    input.push(101);
    input.push(99);
    input.push(107);
    input.push(115);
    input.push(117);
    input.push(109);
    push_all(&mut input, public);
    input.push(3);
    proof {
        assert(input@ =~= checksum_input(public@));
    }
    let digest = sha3_256(&input);
    let mut payload: Vec<u8> = Vec::new();
    push_all(&mut payload, public);
    payload.push(digest[0]);
    payload.push(digest[1]);
    payload.push(3);
    proof {
        assert(payload@ =~= onion_payload(public@));
    }
    let mut body = base32_nopad_encode(&payload);
    ascii_lowercase_bytes(&mut body);
    proof {
        lemma_address_shape(public@);
        assert(base32_nopad(onion_payload(public@)).len() == 56);
        assert forall|i: int| 0 <= i < body@.len() implies is_base32_lower_byte(
            #[trigger] body@[i],
        ) by {
            lemma_base32_symbol_range(onion_payload(public@), i);
        }
        assert(body@.map_values(|b: u8| b as char) =~= address_body(public@));
    }
    body
}

/// Appends the fixed suffix to an ASCII address body and builds the
/// textual address.
fn finish_address(body: &Vec<u8>) -> (r: String)
    requires
        forall|i: int| 0 <= i < body@.len() ==> body@[i] < 128,
    ensures
        r@ == body@.map_values(|b: u8| b as char) + onion_suffix(),
{
    let s = ascii_bytes_to_string(body);
    let r = s.concat(".onion");
    proof {
        reveal_strlit(".onion");
        assert(".onion"@ =~= onion_suffix());
    }
    r
}

/// True if `prefix` is a character-for-character prefix of the ASCII
/// bytes of `body`.
fn prefix_matches(prefix: &str, body: &Vec<u8>) -> (r: bool)
    requires
        forall|i: int| 0 <= i < body@.len() ==> body@[i] < 128,
    ensures
        r == prefix@.is_prefix_of(body@.map_values(|b: u8| b as char)),
{
    let ghost chars = body@.map_values(|b: u8| b as char);
    let n = prefix.unicode_len();
    if n > body.len() {
        return false;
    }
    let mut i: usize = 0;
    while i < n
        invariant
            n == prefix@.len(),
            n <= body@.len(),
            chars == body@.map_values(|b: u8| b as char),
            i <= n,
            forall|j: int| 0 <= j < i ==> prefix@[j] == chars[j],
        decreases n - i,
    {
        let c = prefix.get_char(i);
        let b = body[i];
        if c != (b as char) {
            proof {
                assert(prefix@[i as int] != chars[i as int]);
                if prefix@.is_prefix_of(chars) {
                    assert(prefix@[i as int] == chars.subrange(0, n as int)[i as int]);
                    assert(prefix@[i as int] == chars[i as int]);
                }
            }
            return false;
        }
        i += 1;
    }
    proof {
        assert(prefix@ =~= chars.subrange(0, n as int));
    }
    true
}

/// Saturating addition on attempt counters.
pub open spec fn sat_add_u32(a: u32, b: u32) -> u32 {
    if a + b <= u32::MAX {
        (a + b) as u32
    } else {
        u32::MAX
    }
}

/// Adds two attempt counters, saturating at the largest counter value.
fn sat_add(a: u32, b: u32) -> (r: u32)
    ensures
        r == sat_add_u32(a, b),
{
    if a <= u32::MAX - b {
        a + b
    } else {
        u32::MAX
    }
}

/// One onion address: the 32-byte secret and public keys, the derived
/// textual address, and how many attempts its generation took.
///
/// The address is always the deterministic encoding of the public key;
/// it is never set independently.
#[derive(Debug)]
pub struct NativeOnionV3 {
    /// The 32-byte secret key.
    pub secret: Vec<u8>,
    /// The 32-byte public key, derived from the secret.
    pub public: Vec<u8>,
    /// The textual address, derived from the public key.
    pub address: String,
    /// How many key generations the construction took: 1 for a fresh key,
    /// the attempt count for a vanity search, 0 for a reconstruction.
    pub steps_to_gen: u32,
}

impl NativeOnionV3 {
    /// The invariant of every constructed value: keys of the right
    /// length, the public key derived from the secret, the address
    /// derived from the public key.
    pub open spec fn wf(self) -> bool {
        &&& self.secret@.len() == 32
        &&& self.public@.len() == 32
        &&& self.public@ == ed25519_public_of(self.secret@)
        &&& self.address@ == onion_address(self.public@)
    }

    /// Derives the textual address of a 32-byte public key. Pure: equal
    /// keys give equal addresses.
    pub fn compute_onion_address(public: &Vec<u8>) -> (r: String)
        requires
            public@.len() == 32,
        ensures
            r@ == onion_address(public@),
    {
        let body = address_body_bytes(public);
        finish_address(&body)
    }

    /// A fresh address from a randomly generated key pair.
    pub fn new() -> (r: NativeOnionV3)
        ensures
            r.wf(),
            r.steps_to_gen == 1,
    {
        let (secret, public) = generate_keypair();
        let address = Self::compute_onion_address(&public);
        NativeOnionV3 { secret, public, address, steps_to_gen: 1 }
    }

    /// A fresh address from a randomly generated key pair.
    pub fn create() -> (r: NativeOnionV3)
        ensures
            r.wf(),
            r.steps_to_gen == 1,
    {
        Self::new()
    }

    /// Searches for an address whose body starts with `prefix`,
    /// generating fresh key pairs until one matches and counting the
    /// attempts (the counter saturates). This blocking search never
    /// yields control, and for a prefix that no address body can carry —
    /// or one long enough to make a match astronomically unlikely — it
    /// does not terminate in any practical amount of time; that is
    /// inherent to the search. The result is absent only in the
    /// unreachable case that the 2^64 - 1 attempt bound is exhausted.
    pub fn generate_vanity(prefix: String) -> (r: Option<NativeOnionV3>)
        ensures
            r matches Some(v) ==> v.wf() && prefix@.is_prefix_of(address_body(v.public@))
                && v.steps_to_gen >= 1,
            prefix@.len() == 0 ==> r is Some,
    {
        let mut attempts: u64 = 0;
        while attempts < u64::MAX
            invariant
                prefix@.len() == 0 ==> attempts == 0,
            decreases u64::MAX - attempts,
        {
            attempts = attempts + 1;
            let (secret, public) = generate_keypair();
            let body = address_body_bytes(&public);
            let matched = prefix_matches(prefix.as_str(), &body);
            proof {
                if prefix@.len() == 0 {
                    assert(prefix@ =~= body@.map_values(|b: u8| b as char).subrange(0, 0));
                    assert(matched);
                }
            }
            if matched {
                let address = finish_address(&body);
                let steps: u32 = if attempts <= u32::MAX as u64 {
                    attempts as u32
                } else {
                    u32::MAX
                };
                return Some(NativeOnionV3 { secret, public, address, steps_to_gen: steps });
            }
        }
        None
    }

    /// Reconstructs the key pair from an externally supplied secret.
    /// Fails with `InvalidKeyLength` exactly when the input is not 32
    /// bytes long; on success the derived address matches the one
    /// computed from the public key alone.
    pub fn from_secret(private_key: Vec<u8>) -> (r: Result<NativeOnionV3, CoreError>)
        ensures
            r is Ok <==> private_key@.len() == 32,
            r matches Ok(v) ==> v.wf() && v.secret@ == private_key@ && v.steps_to_gen == 0,
            r matches Err(e) ==> e == CoreError::InvalidKeyLength,
    {
        if private_key.len() != 32 {
            return Err(CoreError::InvalidKeyLength);
        }
        let public = derive_public_key(&private_key);
        let address = Self::compute_onion_address(&public);
        Ok(NativeOnionV3 { secret: private_key, public, address, steps_to_gen: 0 })
    }

    /// The secret key bytes.
    pub fn get_secret(&self) -> (r: Vec<u8>)
        ensures
            r@ == self.secret@,
    {
        copy_bytes(&self.secret)
    }

    /// The public key bytes.
    pub fn get_public(&self) -> (r: Vec<u8>)
        ensures
            r@ == self.public@,
    {
        copy_bytes(&self.public)
    }

    /// How many key generations the construction took.
    pub fn steps(&self) -> (r: u32)
        ensures
            r == self.steps_to_gen,
    {
        self.steps_to_gen
    }
}

/// The outcome of one cooperative slice of a vanity search.
pub enum VanityStep {
    /// A matching address was found; its counter includes the attempts of
    /// earlier slices.
    Found(NativeOnionV3),
    /// The slice's attempt budget ran out; the total attempt count so
    /// far, for the next slice to continue from.
    Exhausted(u32),
}

/// One cooperative slice of a vanity search: makes at most `budget` fresh
/// attempts on top of `prior_steps` earlier ones. The host yields control
/// to its scheduler between slices, so a search with a budget of one
/// yields after every attempt and cannot starve concurrent work.
pub fn generate_vanity_step(prefix: &String, budget: u32, prior_steps: u32) -> (r: VanityStep)
    requires
        budget >= 1,
    ensures
        r matches VanityStep::Found(v) ==> v.wf() && prefix@.is_prefix_of(
            address_body(v.public@),
        ) && sat_add_u32(prior_steps, 1) <= v.steps_to_gen <= sat_add_u32(prior_steps, budget),
        r matches VanityStep::Exhausted(total) ==> total == sat_add_u32(prior_steps, budget),
        prefix@.len() == 0 ==> r is Found,
{
    let mut i: u32 = 0;
    let mut total: u32 = prior_steps;
    while i < budget
        invariant
            i <= budget,
            total == sat_add_u32(prior_steps, i),
            prefix@.len() == 0 ==> i == 0,
        decreases budget - i,
    {
        total = sat_add(total, 1);
        proof {
            assert(total == sat_add_u32(prior_steps, (i + 1) as u32));
        }
        i += 1;
        let (secret, public) = generate_keypair();
        let body = address_body_bytes(&public);
        let matched = prefix_matches(prefix.as_str(), &body);
        proof {
            if prefix@.len() == 0 {
                assert(prefix@ =~= body@.map_values(|b: u8| b as char).subrange(0, 0));
                assert(matched);
            }
        }
        if matched {
            let address = finish_address(&body);
            return VanityStep::Found(NativeOnionV3 { secret, public, address, steps_to_gen: total });
        }
    }
    VanityStep::Exhausted(total)
}

/// Extracts the secret-key material for launching a service with a
/// caller-provided key: the key format must have the private key in its
/// first 32 bytes. Fails with `InvalidKeyLength` exactly when the buffer
/// is shorter than that.
pub fn secret_key_from_buffer(bytes: &Vec<u8>) -> (r: Result<Vec<u8>, CoreError>)
    ensures
        r is Ok <==> bytes@.len() >= 32,
        r matches Ok(key) ==> key@ =~= bytes@.take(32),
        r matches Err(e) ==> e == CoreError::InvalidKeyLength,
{
    if bytes.len() < 32 {
        return Err(CoreError::InvalidKeyLength);
    }
    let mut key: Vec<u8> = Vec::new();
    let mut i: usize = 0;
    while i < 32
        invariant
            bytes@.len() >= 32,
            i <= 32,
            key@ == bytes@.take(i as int),
        decreases 32 - i,
    {
        key.push(bytes[i]);
        assert(key@ =~= bytes@.take(i as int + 1));
        i += 1;
    }
    Ok(key)
}

/// Normalizes the cooperative search's yield interval: the default is
/// 1000 attempts per slice, and the minimum is 1.
pub fn normalize_yield_every(requested: Option<u32>) -> (r: u32)
    ensures
        r == match requested {
            Some(v) => if v >= 1 { v } else { 1u32 },
            None => 1000u32,
        },
        r >= 1,
{
    match requested {
        Some(v) => if v >= 1 { v } else { 1 },
        None => 1000,
    }
}

} // verus!
