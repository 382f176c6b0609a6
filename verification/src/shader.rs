//! Shader stages and the decoding of their compiled binary form.

use crate::geometry::place;
use crate::geometry::ByteOrder;
use vstd::prelude::*;

verus! {

/// First word of every SPIR-V module.
pub const SPIRV_MAGIC: u32 = 0x0723_0203;

/// The I/O error type of the standard library, carried through unread.
#[verifier::external_type_specification]
#[verifier::external_body]
pub struct ExIoError(std::io::Error);

/// A programmable stage of the pipeline.
#[derive(Clone, Copy, Debug, PartialEq, Eq, Structural)]
pub enum ShaderKind {
    Vertex,
    Fragment,
}

/// Why a shader binary was rejected.
#[derive(Clone, Copy, Debug, PartialEq, Eq, Structural)]
pub enum ShaderError {
    /// The length of the binary is not a multiple of four bytes.
    Misaligned,
    /// The binary is empty or its first word is not the SPIR-V magic number
    /// in either byte order.
    MissingMagic,
}

/// Word `i` of a byte stream, read in the given byte order.
pub open spec fn word_at(bytes: Seq<u8>, i: int, order: ByteOrder) -> int {
    match order {
        ByteOrder::Little => bytes[4 * i] * place(0) + bytes[4 * i + 1] * place(1) + bytes[4 * i
            + 2] * place(2) + bytes[4 * i + 3] * place(3),
        ByteOrder::Big => bytes[4 * i] * place(3) + bytes[4 * i + 1] * place(2) + bytes[4 * i
            + 2] * place(1) + bytes[4 * i + 3] * place(0),
    }
}

/// The byte order in which a binary starts with the magic number, if it is a
/// whole, non-zero number of words and there is such an order.
pub open spec fn spirv_byte_order(bytes: Seq<u8>) -> Option<ByteOrder> {
    if bytes.len() % 4 != 0 || bytes.len() < 4 {
        None
    } else if word_at(bytes, 0, ByteOrder::Little) == SPIRV_MAGIC {
        Some(ByteOrder::Little)
    } else if word_at(bytes, 0, ByteOrder::Big) == SPIRV_MAGIC {
        Some(ByteOrder::Big)
    } else {
        None
    }
}

/// All words of a byte stream, read in the given byte order.
pub open spec fn decode_words(bytes: Seq<u8>, order: ByteOrder) -> Seq<int> {
    Seq::new((bytes.len() / 4) as nat, |i: int| word_at(bytes, i, order))
}

/// The words of a module as integers.
pub open spec fn word_values(words: Seq<u32>) -> Seq<int> {
    words.map_values(|w: u32| w as int)
}

/// What decoding a binary yields: its words in the byte order that puts the
/// magic number first, or the reason why there is no such reading.
pub open spec fn decoded(bytes: Seq<u8>) -> Result<Seq<int>, ShaderError> {
    if bytes.len() % 4 != 0 {
        Err(ShaderError::Misaligned)
    } else {
        match spirv_byte_order(bytes) {
            Some(order) => Ok(decode_words(bytes, order)),
            None => Err(ShaderError::MissingMagic),
        }
    }
}

/// Calls `wgpu::read_spirv` on an in-memory cursor over `bytes`. That function
/// fails when the length is not a multiple of four; otherwise it copies the
/// bytes into words, swaps the bytes of every word if the first word is the
/// byte-swapped magic number, and fails unless the first word then is the magic
/// number. So it succeeds exactly when the stream is a whole, non-zero number
/// of words that starts with the magic number in one of the two byte orders,
/// and it returns the words read in that order, whatever the machine's own
/// byte order is. Reading from a cursor over a slice does not fail.
#[verifier::external_body]
fn read_spirv(bytes: &[u8]) -> (result: Result<Vec<u32>, std::io::Error>)
    ensures
        result is Ok <==> spirv_byte_order(bytes@) is Some,
        result matches Ok(words) ==> word_values(words@) == decode_words(
            bytes@,
            spirv_byte_order(bytes@).unwrap(),
        ),
{
    wgpu::read_spirv(std::io::Cursor::new(bytes))
}

/// Decodes a compiled shader binary into the words of a SPIR-V module.
///
/// The binary may be stored in either byte order; the magic number in its
/// first word tells which. A binary whose length is not a multiple of four is
/// `Misaligned`; one that is empty or does not start with the magic number is
/// `MissingMagic`.
pub fn decode_spirv(bytes: &[u8]) -> (result: Result<Vec<u32>, ShaderError>)
    ensures
        match result {
            Ok(words) => decoded(bytes@) == Ok::<Seq<int>, ShaderError>(word_values(words@)),
            Err(e) => decoded(bytes@) == Err::<Seq<int>, ShaderError>(e),
        },
{
    match read_spirv(bytes) {
        Ok(words) => Ok(words),
        Err(_) => {
            if bytes.len() % 4 != 0 {
                Err(ShaderError::Misaligned)
            } else {
                Err(ShaderError::MissingMagic)
            }
        },
    }
}

impl ShaderKind {
    /// Name of the entry point of a stage: every stage exposes `main`.
    pub fn entry_point(self) -> (name: &'static str)
        ensures
            name@ == "main"@,
    {
        "main"
    }

    /// Name under which the source text of a stage is known to the compiler.
    pub fn source_name(self) -> (name: &'static str)
        ensures
            name@ == (match self {
                ShaderKind::Vertex => "shader.vert"@,
                ShaderKind::Fragment => "shader.frag"@,
            }),
    {
        match self {
            ShaderKind::Vertex => "shader.vert",
            ShaderKind::Fragment => "shader.frag",
        }
    }
}

} // verus!
