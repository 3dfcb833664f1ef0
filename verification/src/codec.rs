//! The message envelope and its byte codec.
//!
//! A message is one of five bodies. On the wire an envelope is the encoded
//! body followed by a fresh 16-byte random nonce. The nonce exists purely to
//! vary the serialized bytes of otherwise-identical messages (it defeats
//! naive duplicate suppression) and carries no cryptographic guarantee;
//! decoding discards it.
//!
//! Encoding is a tagged byte format: one tag byte, then the body's fields
//! (peer identities as their 32 raw bytes, variable-length fields with a
//! little-endian 64-bit length prefix, the numeric session id as 8
//! little-endian bytes), then the nonce. Decoding accepts exactly the byte
//! strings this encoding produces and fails with `MalformedMessage` on every
//! other input.

use vstd::prelude::*;
use vstd::bytes::{spec_u64_to_le_bytes, spec_u64_from_le_bytes, u64_to_le_bytes, u64_from_le_bytes,
    lemma_auto_spec_u64_to_from_le_bytes};
use vstd::slice::{slice_subrange, slice_to_vec};
use crate::identity::PeerId;

verus! {

/// One of the five message bodies of the protocol.
#[derive(Debug)]
pub enum MessageBody {
    /// A peer announces or changes its display name.
    AboutMe { from: PeerId, name: Vec<u8> },
    /// A line of chat text.
    Chat { from: PeerId, text: Vec<u8> },
    /// A peer queues for a game.
    GameRequest { from: PeerId },
    /// A peer accepts an outstanding request and names the session id.
    GameStart { from: PeerId, orig_sender: PeerId, game_id: u64 },
    /// A session participant abandons the game.
    GameAborted,
}

/// The mathematical value of a message body: identities and variable-length
/// fields as byte sequences.
pub enum BodyView {
    AboutMe { from: Seq<u8>, name: Seq<u8> },
    Chat { from: Seq<u8>, text: Seq<u8> },
    GameRequest { from: Seq<u8> },
    GameStart { from: Seq<u8>, orig_sender: Seq<u8>, game_id: u64 },
    GameAborted,
}

impl View for MessageBody {
    type V = BodyView;

    open spec fn view(&self) -> BodyView {
        match self {
            MessageBody::AboutMe { from, name } => BodyView::AboutMe {
                from: from@,
                name: name@,
            },
            MessageBody::Chat { from, text } => BodyView::Chat { from: from@, text: text@ },
            MessageBody::GameRequest { from } => BodyView::GameRequest { from: from@ },
            MessageBody::GameStart { from, orig_sender, game_id } => BodyView::GameStart {
                from: from@,
                orig_sender: orig_sender@,
                game_id: *game_id,
            },
            MessageBody::GameAborted => BodyView::GameAborted,
        }
    }
}

/// A body value the codec can carry: identities are 32 bytes and
/// variable-length fields fit the 64-bit length prefix.
pub open spec fn body_wf(b: BodyView) -> bool {
    match b {
        BodyView::AboutMe { from, name } => from.len() == 32 && name.len() <= u64::MAX,
        BodyView::Chat { from, text } => from.len() == 32 && text.len() <= u64::MAX,
        BodyView::GameRequest { from } => from.len() == 32,
        BodyView::GameStart { from, orig_sender, .. } => from.len() == 32 && orig_sender.len()
            == 32,
        BodyView::GameAborted => true,
    }
}

/// Every executable body is well formed: its identities are 32-byte peer ids
/// and its fields are held in vectors.
pub proof fn lemma_body_wf(b: &MessageBody)
    ensures
        body_wf(b@),
{
    match b {
        MessageBody::AboutMe { from, name } => {
            crate::identity::lemma_peer_id_len(*from);
            vstd::std_specs::vec::axiom_spec_len(name);
        },
        MessageBody::Chat { from, text } => {
            crate::identity::lemma_peer_id_len(*from);
            vstd::std_specs::vec::axiom_spec_len(text);
        },
        MessageBody::GameRequest { from } => crate::identity::lemma_peer_id_len(*from),
        MessageBody::GameStart { from, orig_sender, .. } => {
            crate::identity::lemma_peer_id_len(*from);
            crate::identity::lemma_peer_id_len(*orig_sender);
        },
        MessageBody::GameAborted => (),
    }
}

/// The bytes of an encoded body, before the nonce.
pub open spec fn encode_body_spec(b: BodyView) -> Seq<u8> {
    match b {
        BodyView::AboutMe { from, name } => seq![1u8] + from + spec_u64_to_le_bytes(
            name.len() as u64,
        ) + name,
        BodyView::Chat { from, text } => seq![2u8] + from + spec_u64_to_le_bytes(text.len() as u64)
            + text,
        BodyView::GameRequest { from } => seq![3u8] + from,
        BodyView::GameStart { from, orig_sender, game_id } => seq![4u8] + from + orig_sender
            + spec_u64_to_le_bytes(game_id),
        BodyView::GameAborted => seq![5u8],
    }
}

/// The bytes of a whole envelope: the encoded body followed by the nonce.
pub open spec fn encode_spec(b: BodyView, nonce: Seq<u8>) -> Seq<u8> {
    encode_body_spec(b) + nonce
}

/// The body an envelope's bytes carry, or `None` where the bytes match no
/// envelope. The trailing 16 bytes are the nonce and are discarded.
pub open spec fn decode_spec(s: Seq<u8>) -> Option<BodyView> {
    if s.len() < 17 {
        None
    } else {
        let tag = s[0];
        if tag == 1u8 || tag == 2u8 {
            if s.len() < 57 {
                None
            } else {
                let from = s.subrange(1, 33);
                let len = spec_u64_from_le_bytes(s.subrange(33, 41));
                if s.len() == 57 + len {
                    let field = s.subrange(41, 41 + len);
                    if tag == 1u8 {
                        Some(BodyView::AboutMe { from, name: field })
                    } else {
                        Some(BodyView::Chat { from, text: field })
                    }
                } else {
                    None
                }
            }
        } else if tag == 3u8 {
            if s.len() == 49 {
                Some(BodyView::GameRequest { from: s.subrange(1, 33) })
            } else {
                None
            }
        } else if tag == 4u8 {
            if s.len() == 89 {
                Some(
                    BodyView::GameStart {
                        from: s.subrange(1, 33),
                        orig_sender: s.subrange(33, 65),
                        game_id: spec_u64_from_le_bytes(s.subrange(65, 73)),
                    },
                )
            } else {
                None
            }
        } else if tag == 5u8 {
            if s.len() == 17 {
                Some(BodyView::GameAborted)
            } else {
                None
            }
        } else {
            None
        }
    }
}

/// Round trip: decoding an encoded envelope yields the body it was built
/// from, whatever the nonce, field-wise and with the nonce excluded.
pub proof fn lemma_decode_encode(b: BodyView, nonce: Seq<u8>)
    requires
        body_wf(b),
        nonce.len() == 16,
    ensures
        decode_spec(encode_spec(b, nonce)) == Some(b),
{
    lemma_auto_spec_u64_to_from_le_bytes();
    let s = encode_spec(b, nonce);
    match b {
        BodyView::AboutMe { from, name } => {
            assert(s.subrange(1, 33) =~= from);
            assert(s.subrange(33, 41) =~= spec_u64_to_le_bytes(name.len() as u64));
            assert(s.len() == 57 + name.len());
            assert(s.subrange(41, 41 + name.len() as int) =~= name);
        }
        BodyView::Chat { from, text } => {
            assert(s.subrange(1, 33) =~= from);
            assert(s.subrange(33, 41) =~= spec_u64_to_le_bytes(text.len() as u64));
            assert(s.len() == 57 + text.len());
            assert(s.subrange(41, 41 + text.len() as int) =~= text);
        }
        BodyView::GameRequest { from } => {
            assert(s.subrange(1, 33) =~= from);
        }
        BodyView::GameStart { from, orig_sender, game_id } => {
            assert(s.subrange(1, 33) =~= from);
            assert(s.subrange(33, 65) =~= orig_sender);
            assert(s.subrange(65, 73) =~= spec_u64_to_le_bytes(game_id));
        }
        BodyView::GameAborted => {
        }
    }
}

/// Soundness of decoding: a byte string the codec accepts is exactly the
/// encoding of the body it returns, under the 16 trailing nonce bytes it
/// carries. Together with the round trip this makes the accepted byte
/// strings exactly the encoded envelopes.
pub proof fn lemma_encode_decode(s: Seq<u8>)
    requires
        decode_spec(s) is Some,
    ensures
        s.len() >= 17,
        body_wf(decode_spec(s).unwrap()),
        s == encode_spec(decode_spec(s).unwrap(), s.subrange(s.len() - 16, s.len() as int)),
{
    lemma_auto_spec_u64_to_from_le_bytes();
    let nonce = s.subrange(s.len() - 16, s.len() as int);
    let b = decode_spec(s).unwrap();
    let tag = s[0];
    if tag == 1u8 || tag == 2u8 {
        let from = s.subrange(1, 33);
        let len = spec_u64_from_le_bytes(s.subrange(33, 41));
        let field = s.subrange(41, 41 + len);
        assert(spec_u64_to_le_bytes(field.len() as u64) == s.subrange(33, 41));
        assert(s =~= seq![tag] + from + spec_u64_to_le_bytes(field.len() as u64) + field + nonce);
    } else if tag == 3u8 {
        assert(s =~= seq![tag] + s.subrange(1, 33) + nonce);
    } else if tag == 4u8 {
        let game_id = spec_u64_from_le_bytes(s.subrange(65, 73));
        assert(spec_u64_to_le_bytes(game_id) == s.subrange(65, 73));
        assert(s =~= seq![tag] + s.subrange(1, 33) + s.subrange(33, 65) + spec_u64_to_le_bytes(
            game_id,
        ) + nonce);
    } else {
        assert(s =~= seq![tag] + nonce);
    }
}

/// Why a byte string was rejected by the codec.
#[derive(Clone, Copy, PartialEq, Eq, Structural, Debug)]
pub enum CodecError {
    /// The bytes do not match the expected envelope shape.
    MalformedMessage,
}

/// An envelope: a message body and the 16 random bytes appended to its
/// encoding.
pub struct MinimalMessage {
    /// The message body.
    pub body: MessageBody,
    /// 16 random bytes that vary the serialized form.
    pub nonce: [u8; 16],
}

/// Relies on rand::random: fills a 16-byte array from the thread-local
/// generator. Nothing is promised of the bytes drawn.
#[verifier::external_body]
fn random_nonce() -> (r: [u8; 16]) {
    rand::random()
}

/// Append a byte slice to a vector.
fn push_bytes(out: &mut Vec<u8>, bytes: &[u8])
    ensures
        final(out)@ == old(out)@ + bytes@,
{
    let mut i: usize = 0;
    while i < bytes.len()
        invariant
            i <= bytes@.len(),
            out@ =~= old(out)@ + bytes@.take(i as int),
        decreases bytes@.len() - i,
    {
        out.push(bytes[i]);
        i += 1;
    }
    proof {
        assert(out@ =~= old(out)@ + bytes@);
    }
}

/// Copy 32 bytes out of a slice as a peer identity.
fn read_id(bytes: &[u8], start: usize) -> (r: PeerId)
    requires
        start + 32 <= bytes@.len(),
    ensures
        r@ == bytes@.subrange(start as int, start as int + 32),
{
    let n: usize = bytes.len();
    let mut arr = [0u8; 32];
    let mut i: usize = 0;
    while i < 32
        invariant
            i <= 32,
            n == bytes@.len(),
            start + 32 <= n,
            forall|j: int| 0 <= j < i ==> arr@[j] == bytes@[start + j],
        decreases 32 - i,
    {
        arr[i] = bytes[start + i];
        i += 1;
    }
    proof {
        assert(arr@ =~= bytes@.subrange(start as int, start as int + 32));
    }
    PeerId::from_bytes(arr)
}

impl MinimalMessage {
    /// A fresh envelope around a body, with a newly drawn nonce.
    pub fn new(body: MessageBody) -> (r: MinimalMessage)
        ensures
            r.body == body,
    {
        MinimalMessage { body, nonce: random_nonce() }
    }

    /// Serialize the envelope.
    pub fn to_vec(&self) -> (r: Vec<u8>)
        ensures
            r@ == encode_spec(self.body@, self.nonce@),
            decode_spec(r@) == Some(self.body@),
    {
        let mut out: Vec<u8> = Vec::new();
        match &self.body {
            MessageBody::AboutMe { from, name } => {
                out.push(1u8);
                push_bytes(&mut out, from.as_bytes().as_slice());
                let len_bytes = u64_to_le_bytes(name.len() as u64);
                push_bytes(&mut out, len_bytes.as_slice());
                push_bytes(&mut out, name.as_slice());
            }
            MessageBody::Chat { from, text } => {
                out.push(2u8);
                push_bytes(&mut out, from.as_bytes().as_slice());
                let len_bytes = u64_to_le_bytes(text.len() as u64);
                push_bytes(&mut out, len_bytes.as_slice());
                push_bytes(&mut out, text.as_slice());
            }
            MessageBody::GameRequest { from } => {
                out.push(3u8);
                push_bytes(&mut out, from.as_bytes().as_slice());
            }
            MessageBody::GameStart { from, orig_sender, game_id } => {
                out.push(4u8);
                push_bytes(&mut out, from.as_bytes().as_slice());
                push_bytes(&mut out, orig_sender.as_bytes().as_slice());
                let id_bytes = u64_to_le_bytes(*game_id);
                push_bytes(&mut out, id_bytes.as_slice());
            }
            MessageBody::GameAborted => {
                out.push(5u8);
            }
        }
        push_bytes(&mut out, self.nonce.as_slice());
        proof {
            assert(out@ =~= encode_spec(self.body@, self.nonce@));
            lemma_body_wf(&self.body);
            lemma_decode_encode(self.body@, self.nonce@);
        }
        out
    }

    /// Parse an envelope and return the body it carries, discarding the
    /// nonce; `MalformedMessage` exactly on bytes the encoding never
    /// produces.
    pub fn from_bytes(bytes: &[u8]) -> (r: Result<MessageBody, CodecError>)
        ensures
            match r {
                Ok(body) => decode_spec(bytes@) == Some(body@),
                Err(e) => decode_spec(bytes@) is None && e == CodecError::MalformedMessage,
            },
    {
        let total: usize = bytes.len();
        if total < 17 {
            return Err(CodecError::MalformedMessage);
        }
        let tag: u8 = bytes[0];
        if tag == 1u8 || tag == 2u8 {
            if total < 57 {
                return Err(CodecError::MalformedMessage);
            }
            let from = read_id(bytes, 1);
            let len_slice = slice_subrange(bytes, 33, 41);
            let len: u64 = u64_from_le_bytes(len_slice);
            if len != (total - 57) as u64 {
                return Err(CodecError::MalformedMessage);
            }
            let field_slice = slice_subrange(bytes, 41, total - 16);
            let field = slice_to_vec(field_slice);
            proof {
                assert(bytes@.subrange(41, 41 + (total - 57)) =~= bytes@.subrange(
                    41,
                    total - 16,
                ));
            }
            if tag == 1u8 {
                Ok(MessageBody::AboutMe { from, name: field })
            } else {
                Ok(MessageBody::Chat { from, text: field })
            }
        } else if tag == 3u8 {
            if total != 49 {
                return Err(CodecError::MalformedMessage);
            }
            let from = read_id(bytes, 1);
            Ok(MessageBody::GameRequest { from })
        } else if tag == 4u8 {
            if total != 89 {
                return Err(CodecError::MalformedMessage);
            }
            let from = read_id(bytes, 1);
            let orig_sender = read_id(bytes, 33);
            let id_slice = slice_subrange(bytes, 65, 73);
            let game_id = u64_from_le_bytes(id_slice);
            Ok(MessageBody::GameStart { from, orig_sender, game_id })
        } else if tag == 5u8 {
            if total != 17 {
                return Err(CodecError::MalformedMessage);
            }
            Ok(MessageBody::GameAborted)
        } else {
            Err(CodecError::MalformedMessage)
        }
    }
}

/// Encode a body inside a fresh envelope. Whatever nonce is drawn, the bytes
/// decode back to this body.
pub fn encode(body: MessageBody) -> (r: Vec<u8>)
    ensures
        decode_spec(r@) == Some(body@),
{
    let message = MinimalMessage::new(body);
    message.to_vec()
}

} // verus!
