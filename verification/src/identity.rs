//! Deterministic identity and topic derivation.
//!
//! A topic identifier is 32 bytes. The room topic and the host's key material
//! are both derived from a protocol version string by fitting its UTF-8 bytes
//! into 32 bytes: longer inputs are truncated to their first 32 bytes, shorter
//! ones are padded on the right with zero bytes. This lets every peer of the
//! same protocol version compute the host's public identity without any
//! out-of-band exchange.

use vstd::prelude::*;
use vstd::string::StringSliceAdditionalSpecFns;
use vstd::utf8::encode_utf8;
use vstd::bytes::{spec_u64_to_le_bytes, u64_to_le_bytes};

verus! {

/// A byte string fitted into a 32-byte identifier: truncated to the first
/// 32 bytes when longer, padded on the right with zero bytes when shorter.
pub open spec fn pad32_spec(s: Seq<u8>) -> Seq<u8> {
    if s.len() >= 32 {
        s.take(32)
    } else {
        s + Seq::new((32 - s.len()) as nat, |i: int| 0u8)
    }
}

/// Fit a byte string into a 32-byte identifier.
pub fn pad32(bytes: &[u8]) -> (r: [u8; 32])
    ensures
        r@ == pad32_spec(bytes@),
{
    let mut r = [0u8; 32];
    let n: usize = if bytes.len() < 32 {
        bytes.len()
    } else {
        32
    };
    let mut i: usize = 0;
    while i < n
        invariant
            n <= 32,
            n <= bytes@.len(),
            i <= n,
            forall|j: int| 0 <= j < i ==> r@[j] == bytes@[j],
            forall|j: int| i <= j < 32 ==> r@[j] == 0u8,
        decreases n - i,
    {
        r[i] = bytes[i];
        i += 1;
    }
    proof {
        assert(r@ =~= pad32_spec(bytes@));
    }
    r
}

/// The 32-byte identifier derived from a string: its UTF-8 bytes, truncated
/// or zero-padded to exactly 32 bytes.
pub fn bytes_from_str(s: &str) -> (r: [u8; 32])
    ensures
        r@ == pad32_spec(s.spec_bytes()),
{
    pad32(s.as_bytes())
}

/// The identifier is always exactly 32 bytes long.
pub proof fn lemma_pad32_len(s: Seq<u8>)
    ensures
        pad32_spec(s).len() == 32,
{
}

/// An input of at most 32 bytes is kept in full as a prefix; the remainder of
/// the identifier is zero bytes.
pub proof fn lemma_pad32_short(s: Seq<u8>)
    requires
        s.len() <= 32,
    ensures
        pad32_spec(s).len() == 32,
        forall|i: int| 0 <= i < s.len() ==> pad32_spec(s)[i] == s[i],
        forall|i: int| s.len() <= i < 32 ==> pad32_spec(s)[i] == 0u8,
{
}

/// Derivation is injective on inputs of equal length at most 32: two such
/// inputs with the same identifier are the same input.
pub proof fn lemma_pad32_injective(a: Seq<u8>, b: Seq<u8>)
    requires
        a.len() == b.len(),
        a.len() <= 32,
        pad32_spec(a) == pad32_spec(b),
    ensures
        a == b,
{
    assert forall|i: int| 0 <= i < a.len() implies a[i] == b[i] by {
        assert(pad32_spec(a)[i] == a[i]);
        assert(pad32_spec(b)[i] == b[i]);
    }
    assert(a =~= b);
}

/// An input longer than 32 bytes is truncated to its first 32 bytes, so two
/// inputs sharing the same first 32 bytes collide.
pub proof fn lemma_pad32_truncates(a: Seq<u8>, b: Seq<u8>)
    requires
        a.len() > 32,
        b.len() > 32,
        a.take(32) == b.take(32),
    ensures
        pad32_spec(a) == pad32_spec(b),
{
}

/// The protocol version the derivations are keyed on.
pub open spec fn version_chars() -> Seq<char> {
    "0.4.0"@
}

/// Prefix for the shared room topic.
pub open spec fn topic_header_chars() -> Seq<char> {
    "the-rivulet/minimal/topic/"@
}

/// Prefix for the host's deterministic secret key.
pub open spec fn host_header_chars() -> Seq<char> {
    "the-rivulet/minimal/host/"@
}

/// The shared room topic: the topic prefix and the version, fitted into
/// 32 bytes.
pub open spec fn room_topic_spec() -> Seq<u8> {
    pad32_spec(encode_utf8(topic_header_chars() + version_chars()))
}

/// The host's secret-key material: the host prefix and the version, fitted
/// into 32 bytes.
pub open spec fn host_seed_spec() -> Seq<u8> {
    pad32_spec(encode_utf8(host_header_chars() + version_chars()))
}

/// The 32-byte topic of the shared chat room.
pub fn room_topic() -> (r: [u8; 32])
    ensures
        r@ == room_topic_spec(),
{
    proof {
        reveal_strlit("the-rivulet/minimal/topic/0.4.0");
        reveal_strlit("the-rivulet/minimal/topic/");
        reveal_strlit("0.4.0");
        assert("the-rivulet/minimal/topic/0.4.0"@ =~= topic_header_chars() + version_chars());
    }
    bytes_from_str("the-rivulet/minimal/topic/0.4.0")
}

/// The deterministic 32 secret-key bytes that the host binds to.
pub fn host_secret_seed() -> (r: [u8; 32])
    ensures
        r@ == host_seed_spec(),
{
    proof {
        reveal_strlit("the-rivulet/minimal/host/0.4.0");
        reveal_strlit("the-rivulet/minimal/host/");
        reveal_strlit("0.4.0");
        assert("the-rivulet/minimal/host/0.4.0"@ =~= host_header_chars() + version_chars());
    }
    bytes_from_str("the-rivulet/minimal/host/0.4.0")
}

/// The topic of a game session: the raw little-endian bytes of the numeric
/// session id, zero-padded to 32 bytes.
pub open spec fn session_topic_spec(game_id: u64) -> Seq<u8> {
    pad32_spec(spec_u64_to_le_bytes(game_id))
}

/// Derive the 32-byte topic of the game session with the given id.
pub fn session_topic(game_id: u64) -> (r: [u8; 32])
    ensures
        r@ == session_topic_spec(game_id),
{
    let bytes = u64_to_le_bytes(game_id);
    pad32(bytes.as_slice())
}

/// The public identity of a peer: 32 bytes, opaque, assigned by the
/// transport and stable for a process's lifetime.
#[derive(Clone, Copy, Debug)]
pub struct PeerId {
    bytes: [u8; 32],
}

impl View for PeerId {
    type V = Seq<u8>;

    closed spec fn view(&self) -> Seq<u8> {
        self.bytes@
    }
}

/// A peer identity is always exactly 32 bytes.
pub broadcast proof fn lemma_peer_id_len(p: PeerId)
    ensures
        #[trigger] p@.len() == 32,
{
}

/// One nibble as a lowercase hexadecimal digit, as a byte of ASCII.
pub open spec fn hex_digit(v: u8) -> u8
    recommends
        v < 16,
{
    if v < 10 {
        (0x30 + v) as u8
    } else {
        (0x57 + v) as u8
    }
}

/// One byte as two lowercase hexadecimal digits.
pub open spec fn hex_byte(b: u8) -> Seq<u8> {
    seq![hex_digit(b / 16), hex_digit(b % 16)]
}

/// The short display form of a peer identity: the first 5 of its 32 bytes as
/// lowercase hexadecimal, 10 bytes of ASCII.
pub open spec fn short_label_spec(id: Seq<u8>) -> Seq<u8>
    recommends
        id.len() >= 5,
{
    hex_byte(id[0]) + hex_byte(id[1]) + hex_byte(id[2]) + hex_byte(id[3]) + hex_byte(id[4])
}

fn hex_digit_exec(v: u8) -> (r: u8)
    requires
        v < 16,
    ensures
        r == hex_digit(v),
{
    if v < 10 {
        0x30 + v
    } else {
        0x57 + v
    }
}

impl PeerId {
    /// A peer identity from its 32 raw bytes.
    pub fn from_bytes(bytes: [u8; 32]) -> (r: PeerId)
        ensures
            r@ == bytes@,
    {
        PeerId { bytes }
    }

    /// The 32 raw bytes of this identity.
    pub fn as_bytes(&self) -> (r: &[u8; 32])
        ensures
            r@ == self@,
    {
        &self.bytes
    }

    /// Whether two peer identities are the same peer.
    pub fn eq_id(&self, other: &PeerId) -> (r: bool)
        ensures
            r == (self@ == other@),
    {
        let mut i: usize = 0;
        while i < 32
            invariant
                i <= 32,
                forall|j: int| 0 <= j < i ==> self@[j] == other@[j],
            decreases 32 - i,
        {
            if self.bytes[i] != other.bytes[i] {
                return false;
            }
            i += 1;
        }
        proof {
            assert(self@ =~= other@);
        }
        true
    }

    /// The short display form used when no name is known: the first 5 bytes
    /// of the identity as lowercase hexadecimal.
    pub fn short_label(&self) -> (r: Vec<u8>)
        ensures
            r@ == short_label_spec(self@),
    {
        let mut r: Vec<u8> = Vec::new();
        let mut i: usize = 0;
        while i < 5
            invariant
                i <= 5,
                r@.len() == 2 * i,
                forall|j: int|
                    0 <= j < i ==> r@[2 * j] == hex_digit(self@[j] / 16) && r@[2 * j + 1]
                        == hex_digit(self@[j] % 16),
            decreases 5 - i,
        {
            let b = self.bytes[i];
            r.push(hex_digit_exec(b / 16));
            r.push(hex_digit_exec(b % 16));
            i += 1;
        }
        proof {
            assert(r@ =~= short_label_spec(self@));
        }
        r
    }
}

/// What an ed25519 public key is for given secret-key bytes. The result is a
/// function of the 32 secret bytes alone.
pub uninterp spec fn public_key_of(secret: Seq<u8>) -> Seq<u8>;

/// Relies on iroh's `SecretKey::from_bytes` and `SecretKey::public`: the
/// ed25519 public key computed from the secret-key bytes, a deterministic
/// function of those bytes alone.
#[verifier::external_body]
fn derive_public_key(secret: &[u8; 32]) -> (r: [u8; 32])
    ensures
        r@ == public_key_of(secret@),
{
    *iroh::SecretKey::from_bytes(secret).public().as_bytes()
}

/// The host's public identity, computable by every peer of the same protocol
/// version: the public key of the deterministic host secret.
pub fn host_peer_id() -> (r: PeerId)
    ensures
        r@ == public_key_of(host_seed_spec()),
{
    let seed = host_secret_seed();
    PeerId { bytes: derive_public_key(&seed) }
}

} // verus!
