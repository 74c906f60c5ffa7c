//! The envelope of one chunk: the JSON document that carries a chunk's
//! bytes, as text, together with the file's name and the chunk's place.

use vstd::prelude::*;
use vstd::string::StringExecFns;
use base64::Engine;
use crate::text::{decimal, push_decimal};

verus! {

/// The error of the JSON encoder, `serde_json::Error`.
#[verifier::external_type_specification]
#[verifier::external_body]
pub struct ExJsonError(serde_json::Error);

/// The standard base64 text of a sequence of bytes: what
/// `base64::engine::general_purpose::STANDARD.encode` returns for them.
pub uninterp spec fn base64_standard(bytes: Seq<u8>) -> Seq<char>;

/// A string as a JSON string literal, quotes and escapes included: what
/// `serde_json::to_string` returns for it.
pub uninterp spec fn json_string_literal(text: Seq<char>) -> Seq<char>;

/// Whether the base64 text of `len` bytes has a length that fits `usize`.
pub open spec fn base64_fits(len: nat) -> bool {
    len / 3 * 4 + 4 <= usize::MAX
}

/// `STANDARD.encode` of the base64 crate: the standard alphabet, with
/// padding. It panics when the length of the text overflows `usize`, which
/// `requires` rules out.
#[verifier::external_body]
fn base64_text(bytes: &[u8]) -> (text: String)
    requires
        base64_fits(bytes@.len()),
    ensures
        text@ == base64_standard(bytes@),
{
    base64::engine::general_purpose::STANDARD.encode(bytes)
}

/// `serde_json::to_string` on a string slice. It returns `Ok` for every
/// string: a string serialises without an error of its own, and the text
/// is written into a vector, which takes every write.
#[verifier::external_body]
fn json_literal(text: &str) -> (r: Result<String, serde_json::Error>)
    ensures
        r is Ok,
        r matches Ok(literal) ==> literal@ == json_string_literal(text@),
{
    serde_json::to_string(text)
}

/// Why an envelope could not be written. The JSON encoder takes every
/// string, so no envelope fails; the type is there for the encoder's
/// error.
#[derive(Debug, Clone, Copy, PartialEq, Eq, Structural)]
pub enum EnvelopeError {
    /// The JSON encoder refused the file name.
    FileName,
    /// The JSON encoder refused the data.
    Data,
}

/// One chunk on its way: the unit of a chunked transfer.
#[derive(Debug)]
pub struct ChunkEnvelope {
    /// Name of the file that the chunk belongs to.
    pub filename: String,
    /// Place of the chunk in the file, counted from 0.
    pub chunk_id: u64,
    /// Number of chunks of the file.
    pub total_chunks: u64,
    /// The chunk's bytes in standard base64.
    pub data: String,
}

/// The document of an envelope, given its two strings as JSON literals: an
/// object with the members `chunk_id`, `data`, `filename` and
/// `total_chunks`, in this order, without white space.
pub open spec fn envelope_document(
    filename_literal: Seq<char>,
    chunk_id: nat,
    total_chunks: nat,
    data_literal: Seq<char>,
) -> Seq<char> {
    "{\"chunk_id\":"@ + decimal(chunk_id) + ",\"data\":"@ + data_literal + ",\"filename\":"@
        + filename_literal + ",\"total_chunks\":"@ + decimal(total_chunks) + "}"@
}

/// Writes the document of an envelope from its parts.
pub fn write_envelope(
    filename_literal: &str,
    chunk_id: u64,
    total_chunks: u64,
    data_literal: &str,
) -> (document: String)
    ensures
        document@ == envelope_document(
            filename_literal@,
            chunk_id as nat,
            total_chunks as nat,
            data_literal@,
        ),
{
    let mut document = "{\"chunk_id\":".to_owned();
    push_decimal(&mut document, chunk_id);
    document.append(",\"data\":");
    document.append(data_literal);
    document.append(",\"filename\":");
    document.append(filename_literal);
    document.append(",\"total_chunks\":");
    push_decimal(&mut document, total_chunks);
    document.append("}");
    document
}

impl ChunkEnvelope {
    /// An envelope obeys `chunk_id < total_chunks`.
    pub open spec fn wf(self) -> bool {
        self.chunk_id < self.total_chunks
    }

    /// The envelope of chunk `chunk_id` of `total_chunks`, holding `bytes`
    /// as they are: nothing is added to a short last chunk.
    pub fn new(filename: &str, chunk_id: u64, total_chunks: u64, bytes: &[u8]) -> (envelope: Self)
        requires
            chunk_id < total_chunks,
            base64_fits(bytes@.len()),
        ensures
            envelope.wf(),
            envelope.filename@ == filename@,
            envelope.chunk_id == chunk_id,
            envelope.total_chunks == total_chunks,
            envelope.data@ == base64_standard(bytes@),
    {
        ChunkEnvelope {
            filename: filename.to_owned(),
            chunk_id,
            total_chunks,
            data: base64_text(bytes),
        }
    }

    /// The document of this envelope.
    pub open spec fn document(self) -> Seq<char> {
        envelope_document(
            json_string_literal(self.filename@),
            self.chunk_id as nat,
            self.total_chunks as nat,
            json_string_literal(self.data@),
        )
    }

    /// The request body for this envelope: its JSON document. Every
    /// envelope has one.
    pub fn to_json(&self) -> (r: Result<String, EnvelopeError>)
        ensures
            r is Ok,
            r matches Ok(body) ==> body@ == self.document(),
    {
        let filename_literal = match json_literal(self.filename.as_str()) {
            Ok(literal) => literal,
            Err(_) => {
                return Err(EnvelopeError::FileName);
            },
        };
        let data_literal = match json_literal(self.data.as_str()) {
            Ok(literal) => literal,
            Err(_) => {
                return Err(EnvelopeError::Data);
            },
        };
        Ok(
            write_envelope(
                filename_literal.as_str(),
                self.chunk_id,
                self.total_chunks,
                data_literal.as_str(),
            ),
        )
    }
}

} // verus!
