//! Decoding of SPIR-V shader code and the Vulkan API version the renderer
//! asks for.

use vstd::prelude::*;

verus! {

#[verifier::external_type_specification]
#[verifier::external_body]
pub struct ExIoError(std::io::Error);

/// The first word of every SPIR-V module.
pub const SPIRV_MAGIC_NUMBER: u32 = 0x0723_0203u32;

/// Word `i` of `bytes` read as a little-endian 32-bit number.
pub open spec fn le_word(bytes: Seq<u8>, i: int) -> u32 {
    (bytes[4 * i] as int + bytes[4 * i + 1] as int * 0x100 + bytes[4 * i + 2] as int * 0x1_0000
        + bytes[4 * i + 3] as int * 0x100_0000) as u32
}

/// Word `i` of `bytes` read as a big-endian 32-bit number.
pub open spec fn be_word(bytes: Seq<u8>, i: int) -> u32 {
    (bytes[4 * i + 3] as int + bytes[4 * i + 2] as int * 0x100 + bytes[4 * i + 1] as int
        * 0x1_0000 + bytes[4 * i] as int * 0x100_0000) as u32
}

/// The words of a SPIR-V module stored in `bytes`, in whichever byte order
/// its magic number shows; `None` when `bytes` is not a whole number of words
/// or does not start with the magic number.
pub open spec fn spirv_words(bytes: Seq<u8>) -> Option<Seq<u32>> {
    if bytes.len() % 4 != 0 || bytes.len() == 0 {
        None
    } else if le_word(bytes, 0) == SPIRV_MAGIC_NUMBER {
        Some(Seq::new(bytes.len() / 4, |i: int| le_word(bytes, i)))
    } else if be_word(bytes, 0) == SPIRV_MAGIC_NUMBER {
        Some(Seq::new(bytes.len() / 4, |i: int| be_word(bytes, i)))
    } else {
        None
    }
}

/// Calls `ash::util::read_spv` on the bytes. Its source seeks to the end to
/// learn the length, fails when the length is not a multiple of four, reads
/// the words in native byte order, swaps every word when the first equals the
/// byte-swapped magic number, and fails when the first word is then not the
/// magic number. On a byte slice seeking and reading cannot fail. So it
/// succeeds exactly when the bytes hold whole words starting with the magic
/// number in little- or big-endian order, and then returns the words in that
/// order, whatever the machine's own byte order.
#[verifier::external_body]
fn read_spv(bytes: &[u8]) -> (r: Result<Vec<u32>, std::io::Error>)
    ensures
        r is Ok <==> spirv_words(bytes@) is Some,
        r matches Ok(words) ==> words@ == spirv_words(bytes@).unwrap(),
{
    ash::util::read_spv(&mut std::io::Cursor::new(bytes))
}

/// Why bytes could not be taken as SPIR-V code.
#[derive(PartialEq, Eq, Structural, Clone, Copy, Debug)]
pub enum ShaderCodeError {
    /// The length is not a multiple of four bytes.
    NotWholeWords,
    /// The first word is not the SPIR-V magic number in either byte order.
    MissingMagicNumber,
}

/// Decodes the contents of a compiled shader file into the words of its
/// SPIR-V code.
pub fn shader_code_from_bytes(bytes: &[u8]) -> (r: Result<Vec<u32>, ShaderCodeError>)
    ensures
        match spirv_words(bytes@) {
            Some(words) => r matches Ok(code) && code@ == words,
            None => r == Err::<Vec<u32>, ShaderCodeError>(
                if bytes@.len() % 4 != 0 {
                    ShaderCodeError::NotWholeWords
                } else {
                    ShaderCodeError::MissingMagicNumber
                },
            ),
        },
{
    match read_spv(bytes) {
        Ok(words) => Ok(words),
        Err(_) => {
            if bytes.len() % 4 != 0 {
                Err(ShaderCodeError::NotWholeWords)
            } else {
                Err(ShaderCodeError::MissingMagicNumber)
            }
        },
    }
}

/// Calls `ash::vk::make_api_version`, whose source packs the variant into
/// bits 29 and up, the major version into bits 22 to 28, the minor version
/// into bits 12 to 21 and the patch into the low bits, by shifts and ors.
#[verifier::external_body]
fn make_api_version(variant: u32, major: u32, minor: u32, patch: u32) -> (r: u32)
    ensures
        r == (variant << 29u32) | (major << 22u32) | (minor << 12u32) | patch,
{
    ash::vk::make_api_version(variant, major, minor, patch)
}

/// The Vulkan API version the renderer is written against: 1.3.0.
pub fn vk_api_version() -> (r: u32)
    ensures
        r == 0x0040_3000u32,
{
    let v = make_api_version(0, 1, 3, 0);
    assert((0u32 << 29u32) | (1u32 << 22u32) | (3u32 << 12u32) | 0u32 == 0x0040_3000u32)
        by (bit_vector);
    v
}

} // verus!
