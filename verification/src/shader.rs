//! Kinds of shaders, how their files are told apart, and the words of a
//! compiled shader.

use vstd::prelude::*;
use vstd::string::StrSliceExecFns;

verus! {

/// The pipeline stage that a shader is written for.
#[derive(Clone, Copy, Debug, PartialEq, Eq, Structural)]
pub enum ShaderStage {
    Vertex,
    Fragment,
    Compute,
}

/// Whether two strings hold the same characters.
pub fn same_text(a: &str, b: &str) -> (same: bool)
    ensures
        same == (a@ == b@),
{
    let len: usize = a.unicode_len();
    if len != b.unicode_len() {
        return false;
    }
    let mut at: usize = 0;
    while at < len
        invariant
            at <= len,
            len == a@.len(),
            len == b@.len(),
            forall|i: int| 0 <= i < at ==> a@[i] == b@[i],
        decreases len - at,
    {
        if a.get_char(at) != b.get_char(at) {
            return false;
        }
        at = at + 1;
    }
    assert(a@ =~= b@);
    true
}

impl ShaderStage {
    pub open spec fn spec_from_extension(extension: Seq<char>) -> Option<ShaderStage> {
        if extension == "frag"@ {
            Some(ShaderStage::Fragment)
        } else if extension == "vert"@ {
            Some(ShaderStage::Vertex)
        } else {
            None
        }
    }

    /// The stage of a shader module whose file name has the given extension,
    /// where the extension names one.
    pub fn from_extension(extension: &str) -> (stage: Option<ShaderStage>)
        ensures
            stage == ShaderStage::spec_from_extension(extension@),
    {
        if same_text(extension, "frag") {
            Some(ShaderStage::Fragment)
        } else if same_text(extension, "vert") {
            Some(ShaderStage::Vertex)
        } else {
            None
        }
    }
}

/// The first word of every SPIR-V module.
pub const SPIRV_MAGIC_NUMBER: u32 = 0x0723_0203;

/// Order of the four bytes of a word in a SPIR-V binary.
#[derive(Clone, Copy, Debug, PartialEq, Eq, Structural)]
pub enum ByteOrder {
    /// The least significant byte comes first.
    LittleEndian,
    /// The most significant byte comes first.
    BigEndian,
}

/// The byte order in which the first four bytes of `binary` are the magic
/// number, where there is one.
pub open spec fn spirv_byte_order(binary: Seq<u8>) -> Option<ByteOrder> {
    if binary.len() < 4 {
        None
    } else if binary[0] == 0x03 && binary[1] == 0x02 && binary[2] == 0x23 && binary[3] == 0x07 {
        Some(ByteOrder::LittleEndian)
    } else if binary[0] == 0x07 && binary[1] == 0x23 && binary[2] == 0x02 && binary[3] == 0x03 {
        Some(ByteOrder::BigEndian)
    } else {
        None
    }
}

/// The word that four bytes make in the given order.
pub open spec fn word_of(first: u8, second: u8, third: u8, fourth: u8, order: ByteOrder) -> u32 {
    match order {
        ByteOrder::LittleEndian => (first + 0x100 * second + 0x1_0000 * third + 0x100_0000
            * fourth) as u32,
        ByteOrder::BigEndian => (fourth + 0x100 * third + 0x1_0000 * second + 0x100_0000
            * first) as u32,
    }
}

/// The words that the bytes of `binary` make, four bytes to a word.
pub open spec fn words_of(binary: Seq<u8>, order: ByteOrder) -> Seq<u32> {
    Seq::new(
        binary.len() / 4,
        |i: int| word_of(binary[4 * i], binary[4 * i + 1], binary[4 * i + 2], binary[4 * i + 3], order),
    )
}

/// The words of a SPIR-V binary: those that its bytes make in the byte order
/// that its magic number shows. A binary that does not consist of whole
/// words, or does not begin with the magic number, has none.
pub open spec fn spirv_words(binary: Seq<u8>) -> Option<Seq<u32>> {
    if binary.len() % 4 == 0 && spirv_byte_order(binary) is Some {
        Some(words_of(binary, spirv_byte_order(binary)->0))
    } else {
        None
    }
}

/// `wgpu::util::make_spirv_raw`: reads a byte slice as SPIR-V words. It
/// takes the words in the machine's byte order and swaps the bytes of every
/// word where the first word is the magic number with its bytes swapped, so
/// that what comes out are the words in the byte order that the magic number
/// shows, whatever the machine's. It panics on a slice that is empty, does
/// not begin with the magic number in either order, or is not a whole number
/// of words long; those are left out here.
#[verifier::external_body]
fn make_spirv_words(binary: &[u8]) -> (words: Vec<u32>)
    requires
        binary@.len() % 4 == 0,
        spirv_byte_order(binary@) is Some,
    ensures
        words@ == words_of(binary@, spirv_byte_order(binary@)->0),
{
    wgpu::util::make_spirv_raw(binary).into_owned()
}

/// Reads the words of a SPIR-V binary, in the machine's representation.
pub fn read_spirv(binary: &[u8]) -> (words: Option<Vec<u32>>)
    ensures
        words is Some <==> spirv_words(binary@) is Some,
        words matches Some(w) ==> w@ == spirv_words(binary@)->0,
{
    let len: usize = binary.len();
    if len < 4 || len % 4 != 0 {
        return None;
    }
    let little = binary[0] == 0x03 && binary[1] == 0x02 && binary[2] == 0x23 && binary[3] == 0x07;
    let big = binary[0] == 0x07 && binary[1] == 0x23 && binary[2] == 0x02 && binary[3] == 0x03;
    if little || big {
        Some(make_spirv_words(binary))
    } else {
        None
    }
}

/// The first word of a SPIR-V binary's words is the magic number, and there
/// is a word for every four bytes.
pub proof fn lemma_spirv_words_begin_with_magic(binary: Seq<u8>)
    requires
        spirv_words(binary) is Some,
    ensures
        spirv_words(binary)->0.len() * 4 == binary.len(),
        spirv_words(binary)->0.len() > 0,
        spirv_words(binary)->0[0] == SPIRV_MAGIC_NUMBER,
{
}

} // verus!
