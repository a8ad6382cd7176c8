//! Reading the body of an HTTP response as text.
//!
//! The body arrives in chunks that may end in the middle of a character. The
//! decoder turns as much of what it has into text as is valid UTF-8 and keeps
//! the rest for the next chunk.

use vstd::prelude::*;
use vstd::slice::slice_subrange;
use vstd::string::StringSliceAdditionalSpecFns;
use vstd::utf8::{
    decode_utf8, decode_utf8_encode_utf8, encode_utf8, encode_utf8_decode_utf8,
    encode_utf8_valid_utf8, partial_valid_partial_invalid_utf8, valid_utf8, valid_utf8_concat,
};

verus! {

/// Size of the buffer that a body is read through, in bytes.
pub const READ_BUFFER_LEN: usize = 512;

/// Whether a status code reports success: the codes from 200 to 299.
pub open spec fn is_success(status: u16) -> bool {
    200 <= status <= 299
}

/// Computes [`is_success`].
pub fn status_is_success(status: u16) -> (ok: bool)
    ensures
        ok == is_success(status),
{
    200 <= status && status <= 299
}

/// The length of the longest prefix of `bytes`, no longer than `upto`, that
/// is valid UTF-8.
pub open spec fn longest_valid_upto(bytes: Seq<u8>, upto: int) -> int
    decreases upto,
{
    if upto <= 0 {
        0
    } else if upto <= bytes.len() && valid_utf8(bytes.subrange(0, upto)) {
        upto
    } else {
        longest_valid_upto(bytes, upto - 1)
    }
}

/// The length of the longest prefix of `bytes` that is valid UTF-8.
pub open spec fn valid_prefix_len(bytes: Seq<u8>) -> int {
    longest_valid_upto(bytes, bytes.len() as int)
}

/// The text and the undecoded rest that a decoder holds.
pub struct BodyView {
    pub text: Seq<char>,
    pub pending: Seq<u8>,
}

/// What a decoder holds once `chunk` has come in after `pending`: the longest
/// valid prefix of the two taken together has become text, what follows it
/// waits for more.
pub open spec fn absorbed(held: BodyView, chunk: Seq<u8>) -> BodyView {
    let bytes = held.pending + chunk;
    let valid = valid_prefix_len(bytes);
    BodyView {
        text: held.text + decode_utf8(bytes.subrange(0, valid)),
        pending: bytes.subrange(valid, bytes.len() as int),
    }
}

/// `upto` bounds the longest valid prefix, which is valid, and no prefix
/// between the two is.
proof fn lemma_longest_valid_upto(bytes: Seq<u8>, upto: int)
    requires
        0 <= upto <= bytes.len(),
    ensures
        0 <= longest_valid_upto(bytes, upto) <= upto,
        valid_utf8(bytes.subrange(0, longest_valid_upto(bytes, upto))),
        forall|k: int|
            longest_valid_upto(bytes, upto) < k <= upto ==> !valid_utf8(
                #[trigger] bytes.subrange(0, k),
            ),
    decreases upto,
{
    if upto > 0 && !valid_utf8(bytes.subrange(0, upto)) {
        lemma_longest_valid_upto(bytes, upto - 1);
    }
}

/// A valid prefix after which no longer prefix is valid is the longest one.
proof fn lemma_valid_prefix_found(bytes: Seq<u8>, valid: int)
    requires
        0 <= valid <= bytes.len(),
        valid_utf8(bytes.subrange(0, valid)),
        forall|k: int| valid < k <= bytes.len() ==> !valid_utf8(#[trigger] bytes.subrange(0, k)),
    ensures
        valid_prefix_len(bytes) == valid,
{
    lemma_longest_valid_upto(bytes, bytes.len() as int);
}

/// Decodes `bytes` with `core::str::from_utf8`.
///
/// Bytes that are valid UTF-8 come back as the text they encode. Otherwise
/// the answer is what `Utf8Error::valid_up_to` reports: the greatest length
/// of a prefix of `bytes` that is valid.
#[verifier::external_body]
fn utf8_text(bytes: &[u8]) -> (outcome: Result<&str, usize>)
    ensures
        match outcome {
            Ok(text) => valid_utf8(bytes@) && text.spec_bytes() == bytes@,
            Err(valid) => {
                &&& !valid_utf8(bytes@)
                &&& valid <= bytes@.len()
                &&& valid_utf8(bytes@.subrange(0, valid as int))
                &&& forall|k: int|
                    valid < k <= bytes@.len() ==> !valid_utf8(#[trigger] bytes@.subrange(0, k))
            },
        },
{
    match core::str::from_utf8(bytes) {
        Ok(text) => Ok(text),
        Err(error) => Err(error.valid_up_to()),
    }
}

/// Collects the chunks of a body and decodes them as they come.
#[derive(Debug)]
pub struct BodyDecoder {
    /// The text decoded so far.
    pub text: String,
    /// Bytes that came in and are not text yet.
    pub pending: Vec<u8>,
}

impl View for BodyDecoder {
    type V = BodyView;

    open spec fn view(&self) -> BodyView {
        BodyView { text: self.text@, pending: self.pending@ }
    }
}

impl BodyDecoder {
    /// A decoder that has seen nothing yet.
    pub fn new() -> (decoder: Self)
        ensures
            decoder@ == (BodyView { text: Seq::empty(), pending: Seq::empty() }),
    {
        BodyDecoder { text: String::new(), pending: Vec::new() }
    }

    /// How many bytes the next chunk may have so that it fits the read buffer
    /// together with what is pending.
    pub fn room(&self) -> (free: usize)
        ensures
            free == if self@.pending.len() <= READ_BUFFER_LEN {
                READ_BUFFER_LEN - self@.pending.len()
            } else {
                0
            },
    {
        if self.pending.len() <= READ_BUFFER_LEN {
            READ_BUFFER_LEN - self.pending.len()
        } else {
            0
        }
    }

    /// Takes the next chunk of the body. An empty chunk is the end of the
    /// body: it changes nothing and the answer is false. Any other chunk is
    /// absorbed and the answer is true.
    pub fn feed(&mut self, chunk: &[u8]) -> (more: bool)
        ensures
            more == (chunk@.len() > 0),
            final(self)@ == if chunk@.len() > 0 {
                absorbed(old(self)@, chunk@)
            } else {
                old(self)@
            },
    {
        if chunk.len() == 0 {
            return false;
        }
        let ghost held = self@;
        self.pending.extend_from_slice(chunk);
        let ghost bytes = self.pending@;
        assert(bytes =~= held.pending + chunk@);
        let valid: usize = match utf8_text(self.pending.as_slice()) {
            Ok(text) => {
                proof {
                    encode_utf8_decode_utf8(text@);
                    assert(bytes.subrange(0, bytes.len() as int) =~= bytes);
                }
                self.text.append(text);
                self.pending.len()
            },
            Err(valid) => {
                match utf8_text(slice_subrange(self.pending.as_slice(), 0, valid)) {
                    Ok(text) => {
                        proof {
                            encode_utf8_decode_utf8(text@);
                        }
                        self.text.append(text);
                    },
                    Err(_) => {},
                }
                valid
            },
        };
        proof {
            lemma_valid_prefix_found(bytes, valid as int);
        }
        let rest: Vec<u8> = self.pending.split_off(valid);
        self.pending = rest;
        true
    }

    /// Ends the decoding and hands out the text. Bytes still pending never
    /// became valid text and are left out.
    pub fn into_text(self) -> (text: String)
        ensures
            text@ == self@.text,
    {
        self.text
    }
}

/// What a decoder holds once the chunks have come in one after the other.
/// An empty chunk changes nothing.
pub open spec fn fed(held: BodyView, chunks: Seq<Seq<u8>>) -> BodyView
    decreases chunks.len(),
{
    if chunks.len() == 0 {
        held
    } else {
        let before = fed(held, chunks.drop_last());
        if chunks.last().len() > 0 {
            absorbed(before, chunks.last())
        } else {
            before
        }
    }
}

/// The bytes of all the chunks in the order they came.
pub open spec fn all_bytes(chunks: Seq<Seq<u8>>) -> Seq<u8>
    decreases chunks.len(),
{
    if chunks.len() == 0 {
        Seq::empty()
    } else {
        all_bytes(chunks.drop_last()) + chunks.last()
    }
}

/// The encoding of two texts, one after the other, is the encoding of the
/// first followed by the encoding of the second.
proof fn lemma_encode_joined(head: Seq<char>, tail: Seq<char>)
    ensures
        encode_utf8(head + tail) == encode_utf8(head) + encode_utf8(tail),
    decreases head.len(),
{
    if head.len() == 0 {
        assert(head + tail =~= tail);
        assert(encode_utf8(head) + encode_utf8(tail) =~= encode_utf8(tail));
    } else {
        lemma_encode_joined(head.drop_first(), tail);
        assert((head + tail).drop_first() =~= head.drop_first() + tail);
        assert((head + tail)[0] == head[0]);
        let first = vstd::utf8::encode_scalar(head[0] as u32);
        assert(first + (encode_utf8(head.drop_first()) + encode_utf8(tail)) =~= (first
            + encode_utf8(head.drop_first())) + encode_utf8(tail));
    }
}

/// Absorbing a chunk loses no byte: the text, encoded again, and the pending
/// bytes after it are what they were before, followed by the chunk.
proof fn lemma_absorbed_keeps_bytes(held: BodyView, chunk: Seq<u8>)
    ensures
        encode_utf8(absorbed(held, chunk).text) + absorbed(held, chunk).pending == encode_utf8(
            held.text,
        ) + held.pending + chunk,
{
    let bytes = held.pending + chunk;
    let valid = valid_prefix_len(bytes);
    lemma_longest_valid_upto(bytes, bytes.len() as int);
    let prefix = bytes.subrange(0, valid);
    decode_utf8_encode_utf8(prefix);
    lemma_encode_joined(held.text, decode_utf8(prefix));
    assert(prefix + bytes.subrange(valid, bytes.len() as int) =~= bytes);
    assert(encode_utf8(held.text) + prefix + bytes.subrange(valid, bytes.len() as int)
        =~= encode_utf8(held.text) + held.pending + chunk);
}

/// After a chunk has been absorbed, no prefix of the pending bytes but the
/// empty one is valid: what could become text has become text.
proof fn lemma_absorbed_leaves_no_text(held: BodyView, chunk: Seq<u8>)
    ensures
        valid_utf8(absorbed(held, chunk).pending) ==> absorbed(held, chunk).pending.len() == 0,
{
    let bytes = held.pending + chunk;
    let valid = valid_prefix_len(bytes);
    lemma_longest_valid_upto(bytes, bytes.len() as int);
    let rest = bytes.subrange(valid, bytes.len() as int);
    if valid_utf8(rest) && rest.len() > 0 {
        valid_utf8_concat(bytes.subrange(0, valid), rest);
        assert(bytes.subrange(0, valid) + rest =~= bytes.subrange(0, bytes.len() as int));
    }
}

/// A body that is read in chunks comes out as it went in, wherever the chunks
/// were cut. Nothing is lost: the text, encoded again, followed by the
/// pending bytes is the body so far. And a body that is valid UTF-8 as a
/// whole is decoded as a whole: once its last chunk is in, nothing is
/// pending and the text is the text that the body encodes.
pub proof fn lemma_chunks_decode_as_a_whole(chunks: Seq<Seq<u8>>)
    ensures
        ({
            let start = BodyView { text: Seq::empty(), pending: Seq::empty() };
            &&& encode_utf8(fed(start, chunks).text) + fed(start, chunks).pending == all_bytes(
                chunks,
            )
            &&& valid_utf8(fed(start, chunks).pending) ==> fed(start, chunks).pending.len() == 0
            &&& valid_utf8(all_bytes(chunks)) ==> fed(start, chunks).pending.len() == 0 && fed(
                start,
                chunks,
            ).text == decode_utf8(all_bytes(chunks))
        }),
    decreases chunks.len(),
{
    let start = BodyView { text: Seq::<char>::empty(), pending: Seq::<u8>::empty() };
    let out = fed(start, chunks);
    if chunks.len() == 0 {
        assert(encode_utf8(out.text) + out.pending =~= all_bytes(chunks));
        assert(out.text =~= decode_utf8(all_bytes(chunks)));
    } else {
        let before = fed(start, chunks.drop_last());
        lemma_chunks_decode_as_a_whole(chunks.drop_last());
        if chunks.last().len() > 0 {
            lemma_absorbed_keeps_bytes(before, chunks.last());
            lemma_absorbed_leaves_no_text(before, chunks.last());
        } else {
            assert(all_bytes(chunks.drop_last()) + chunks.last() =~= all_bytes(
                chunks.drop_last(),
            ));
        }
        let coded = encode_utf8(out.text);
        encode_utf8_valid_utf8(out.text);
        encode_utf8_decode_utf8(out.text);
        if valid_utf8(all_bytes(chunks)) {
            let whole = all_bytes(chunks);
            assert(whole.subrange(0, coded.len() as int) =~= coded);
            assert(whole.subrange(coded.len() as int, whole.len() as int) =~= out.pending);
            if !valid_utf8(out.pending) {
                partial_valid_partial_invalid_utf8(whole, coded.len() as int);
            }
            assert(coded + out.pending =~= coded);
        }
    }
}

} // verus!
