use vstd::prelude::*;
use vstd::utf8::{decode_utf8, encode_utf8, valid_utf8, decode_utf8_encode_utf8};

use crate::error::CurlError;

verus! {

/// The bytes of several chunks, joined in delivery order.
pub open spec fn concat_chunks(chunks: Seq<Seq<u8>>) -> Seq<u8>
    decreases chunks.len(),
{
    if chunks.len() == 0 {
        Seq::empty()
    } else {
        concat_chunks(chunks.drop_last()) + chunks.last()
    }
}

/// The number of bytes in a chunk the engine announces as `nmemb` items of
/// `size` bytes each, or `None` where that product does not fit in `usize`.
pub fn chunk_len(size: usize, nmemb: usize) -> (r: Option<usize>)
    ensures
        r == (if size * nmemb <= usize::MAX {
            Some((size * nmemb) as usize)
        } else {
            None::<usize>
        }),
{
    size.checked_mul(nmemb)
}

/// Appends one delivered chunk to an in-memory sink, byte for byte, and
/// returns how many bytes were taken: always the whole chunk.
pub fn append_chunk(contents: &mut Vec<u8>, chunk: &[u8]) -> (r: usize)
    ensures
        final(contents)@ == old(contents)@ + chunk@,
        r == chunk@.len(),
{
    let mut i: usize = 0;
    while i < chunk.len()
        invariant
            i <= chunk@.len(),
            contents@ == old(contents)@ + chunk@.subrange(0, i as int),
        decreases chunk@.len() - i,
    {
        contents.push(chunk[i]);
        i = i + 1;
        assert(chunk@.subrange(0, i as int) == chunk@.subrange(0, i - 1) + seq![chunk@[i - 1]]);
    }
    assert(chunk@.subrange(0, i as int) == chunk@);
    i
}

/// Relies on String::from_utf8: it fails exactly on bytes that are not valid
/// UTF-8, and otherwise holds the characters those bytes encode.
#[verifier::external_body]
fn string_from_utf8(bytes: Vec<u8>) -> (r: Option<String>)
    ensures
        r is Some <==> valid_utf8(bytes@),
        r matches Some(s) ==> s@ == decode_utf8(bytes@),
{
    String::from_utf8(bytes).ok()
}

/// Reads collected bytes as text; bytes that are not valid UTF-8 give
/// `Decode`, never a text with replaced characters.
pub fn decode_body(bytes: Vec<u8>) -> (r: Result<String, CurlError>)
    ensures
        r is Ok <==> valid_utf8(bytes@),
        r matches Ok(s) ==> s@ == decode_utf8(bytes@) && encode_utf8(s@) == bytes@,
        r matches Err(e) ==> e == CurlError::Decode,
{
    let ghost b = bytes@;
    match string_from_utf8(bytes) {
        Some(s) => {
            proof { decode_utf8_encode_utf8(b); }
            Ok(s)
        },
        None => Err(CurlError::Decode),
    }
}

/// What has happened to a file sink during one transfer: the bytes that
/// reached the file, and whether a write failed.
#[derive(Clone, Copy, Debug, PartialEq, Eq, Structural)]
pub struct FileWriteLog {
    pub written: u64,
    pub failed: bool,
}

/// The log after a write of `len` bytes that succeeded (`ok`) or not.
pub open spec fn recorded(log: FileWriteLog, len: usize, ok: bool) -> FileWriteLog {
    if ok && !log.failed {
        FileWriteLog {
            written: if log.written + len <= u64::MAX {
                (log.written + len) as u64
            } else {
                u64::MAX
            },
            failed: false,
        }
    } else {
        FileWriteLog { written: log.written, failed: true }
    }
}

/// The count reported to the engine for that write: all of it, or nothing.
pub open spec fn reported(log: FileWriteLog, len: usize, ok: bool) -> usize {
    if ok && !log.failed {
        len
    } else {
        0
    }
}

impl FileWriteLog {
    pub fn new() -> (r: FileWriteLog)
        ensures
            r.written == 0,
            !r.failed,
    {
        FileWriteLog { written: 0, failed: false }
    }

    /// Whether the next chunk should be written at all: not after a failure.
    pub fn accepts(&self) -> (r: bool)
        ensures
            r == !self.failed,
    {
        !self.failed
    }

    /// Records the outcome of writing a chunk of `len` bytes and returns the
    /// count to report to the engine: `len` when the write succeeded, zero
    /// (which makes the engine stop the transfer) when it failed or when an
    /// earlier write had failed.
    pub fn record(&mut self, len: usize, ok: bool) -> (r: usize)
        ensures
            *final(self) == recorded(*old(self), len, ok),
            r == reported(*old(self), len, ok),
    {
        if ok && !self.failed {
            self.written = self.written.saturating_add(len as u64);
            len
        } else {
            self.failed = true;
            0
        }
    }
}

/// Appending chunks one after another to an empty sink collects exactly their
/// concatenation: each append extends the concatenation of the chunks before
/// it by the new chunk. When the whole is valid UTF-8 it decodes to a text
/// whose UTF-8 bytes are those same bytes, in delivery order.
pub proof fn law_collected_text_is_concatenation(chunks: Seq<Seq<u8>>)
    ensures
        forall|i: int|
            0 <= i < chunks.len() ==> #[trigger] concat_chunks(chunks.take(i + 1)) == concat_chunks(
                chunks.take(i),
            ) + chunks[i],
        concat_chunks(chunks.take(chunks.len() as int)) == concat_chunks(chunks),
        valid_utf8(concat_chunks(chunks)) ==> encode_utf8(decode_utf8(concat_chunks(chunks)))
            == concat_chunks(chunks),
{
    assert forall|i: int| 0 <= i < chunks.len() implies #[trigger] concat_chunks(chunks.take(i + 1))
        == concat_chunks(chunks.take(i)) + chunks[i] by {
        assert(chunks.take(i + 1).drop_last() == chunks.take(i));
    }
    assert(chunks.take(chunks.len() as int) == chunks);
    if valid_utf8(concat_chunks(chunks)) {
        decode_utf8_encode_utf8(concat_chunks(chunks));
    }
}

} // verus!
