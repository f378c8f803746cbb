//! Compressed payloads.
use vstd::prelude::*;

use crate::error::ApiError;
use crate::error::Problem;
use crate::text::join;

verus! {

/// What `zstd::decode_all` makes of some bytes: the bytes that they stand for, or the text of its
/// error.
pub uninterp spec fn zstd_decoded(bytes: Seq<u8>) -> Result<Seq<u8>, Seq<char>>;

/// Decompressing `bytes` gives `data`.
pub open spec fn decodes_to(bytes: Seq<u8>, data: Seq<u8>) -> bool {
    zstd_decoded(bytes) == Ok::<Seq<u8>, Seq<char>>(data)
}

/// `bytes` is a compressed form of `data`: it is not empty, and decompressing it gives `data`.
pub open spec fn packs(bytes: Seq<u8>, data: Seq<u8>) -> bool {
    bytes.len() > 0 && decodes_to(bytes, data)
}

/// `zstd::decode_all`, with its error as text.
///
/// Trusted: the result depends on the bytes alone.
#[verifier::external_body]
fn zstd_decode(bytes: &[u8]) -> (decoded: Result<Vec<u8>, String>)
    ensures
        match decoded {
            Ok(data) => zstd_decoded(bytes@) == Ok::<Seq<u8>, Seq<char>>(data@),
            Err(message) => zstd_decoded(bytes@) == Err::<Seq<u8>, Seq<char>>(message@),
        },
{
    match zstd::decode_all(bytes) {
        Ok(data) => Ok(data),
        Err(error) => Err(error.to_string()),
    }
}

/// What `zstd::encode_all` makes of some bytes at a level: their compressed form, or the text of
/// its error.
pub uninterp spec fn zstd_encoded(data: Seq<u8>, level: int) -> Result<Seq<u8>, Seq<char>>;

/// `zstd::encode_all`, with its error as text.
///
/// Trusted: the result depends on the bytes and the level alone, and what comes out is a frame: it
/// is not empty, even for no bytes at all, and decodes to what went in.
#[verifier::external_body]
fn zstd_encode(data: &[u8], level: i32) -> (encoded: Result<Vec<u8>, String>)
    ensures
        match encoded {
            Ok(bytes) => zstd_encoded(data@, level as int) == Ok::<Seq<u8>, Seq<char>>(bytes@),
            Err(message) => zstd_encoded(data@, level as int) == Err::<Seq<u8>, Seq<char>>(
                message@,
            ),
        },
        encoded matches Ok(bytes) ==> packs(bytes@, data@),
{
    match zstd::encode_all(data, level) {
        Ok(bytes) => Ok(bytes),
        Err(error) => Err(error.to_string()),
    }
}

/// How the parts of an update are stored in a request.
#[derive(Clone, Copy, PartialEq, Eq, Structural)]
pub enum PayloadCompression {
    Plain,
    Zstd,
}

/// The level at which replies are compressed.
pub const REPLY_COMPRESSION_LEVEL: i32 = 3;

/// The bytes that a part of an update stands for, or why there are none.
pub open spec fn restored(compression: PayloadCompression, stored: Seq<u8>) -> Result<
    Seq<u8>,
    Seq<char>,
> {
    match compression {
        PayloadCompression::Plain => Ok(stored),
        PayloadCompression::Zstd => zstd_decoded(stored),
    }
}

/// What a request is refused with whose part named `part` does not decompress.
pub open spec fn not_decompressed(part: Seq<char>, message: Seq<char>) -> Problem {
    Problem::InvalidRequest("Failed to decompress "@ + part + ": "@ + message)
}

/// The part of an update that decompression gave, or the refusal when it failed.
pub fn decompressed_part(part: &str, decoded: Result<Vec<u8>, String>) -> (bytes: Result<
    Vec<u8>,
    ApiError,
>)
    ensures
        match decoded {
            Ok(data) => bytes == Ok::<Vec<u8>, ApiError>(data),
            Err(message) => bytes matches Err(error) && error@ == not_decompressed(part@, message@)
                && error@ == Problem::InvalidRequest(
                "Failed to decompress "@ + part@ + ": "@ + message@,
            ),
        },
{
    match decoded {
        Ok(data) => Ok(data),
        Err(message) => {
            let text = join("Failed to decompress ", part).concat(": ").concat(message.as_str());
            Err(ApiError::InvalidRequest(text))
        },
    }
}

/// The bytes that a part of an update stands for, or why there are none.
pub fn restore(compression: PayloadCompression, stored: Vec<u8>) -> (bytes: Result<Vec<u8>, String>)
    ensures
        match restored(compression, stored@) {
            Ok(data) => bytes matches Ok(bytes) && bytes@ == data,
            Err(message) => bytes matches Err(error) && error@ == message,
        },
        compression is Plain ==> (bytes matches Ok(data) && data@ == stored@),
        compression is Zstd ==> match bytes {
            Ok(data) => zstd_decoded(stored@) == Ok::<Seq<u8>, Seq<char>>(data@),
            Err(error) => zstd_decoded(stored@) == Err::<Seq<u8>, Seq<char>>(error@),
        },
{
    match compression {
        PayloadCompression::Plain => Ok(stored),
        PayloadCompression::Zstd => zstd_decode(stored.as_slice()),
    }
}

/// The reply in compressed form. A client that decompresses it has the data back.
pub fn compress_reply(data: &[u8]) -> (encoded: Result<Vec<u8>, String>)
    ensures
        match zstd_encoded(data@, REPLY_COMPRESSION_LEVEL as int) {
            Ok(bytes) => encoded matches Ok(encoded) && encoded@ == bytes,
            Err(message) => encoded matches Err(error) && error@ == message,
        },
        encoded matches Ok(bytes) ==> packs(bytes@, data@),
        match encoded {
            Ok(bytes) => bytes@.len() > 0 && zstd_encoded(data@, 3) == Ok::<Seq<u8>, Seq<char>>(
                bytes@,
            ) && zstd_decoded(bytes@) == Ok::<Seq<u8>, Seq<char>>(data@),
            Err(message) => zstd_encoded(data@, 3) == Err::<Seq<u8>, Seq<char>>(message@),
        },
{
    zstd_encode(data, REPLY_COMPRESSION_LEVEL)
}

/// A part that is stored as it is stands for itself, and one that is stored compressed for what
/// decompressing it gives: nothing else is done to either.
pub proof fn parts_are_restored_as_they_were_stored(stored: Seq<u8>)
    ensures
        restored(PayloadCompression::Plain, stored) == Ok::<Seq<u8>, Seq<char>>(stored),
        restored(PayloadCompression::Zstd, stored) == zstd_decoded(stored),
{
}

/// A compressed form is restored to what was compressed.
pub proof fn compressed_parts_are_restored(bytes: Seq<u8>, data: Seq<u8>)
    requires
        packs(bytes, data),
    ensures
        bytes.len() > 0,
        zstd_decoded(bytes) == Ok::<Seq<u8>, Seq<char>>(data),
        restored(PayloadCompression::Zstd, bytes) == Ok::<Seq<u8>, Seq<char>>(data),
{
}

/// A complaint about a part names the part and says in full why it could not be decompressed.
pub proof fn complaints_name_the_part(part: Seq<char>, message: Seq<char>)
    ensures
        not_decompressed(part, message) == Problem::InvalidRequest(
            "Failed to decompress "@ + part + ": "@ + message,
        ),
{
}

} // verus!
