//! Shader bytecode validation.

use vstd::prelude::*;
use crate::error::Error;

verus! {

/// The size of one code word in bytes.
pub const WORD_SIZE: usize = 4;

/// The order in which the four bytes of a code word are stored.
#[derive(Debug, Clone, Copy, PartialEq, Eq, Structural)]
pub enum ByteOrder {
    /// Least significant byte first.
    LittleEndian,
    /// Most significant byte first.
    BigEndian,
}

/// The word that four bytes spell, given in the order they are stored.
pub open spec fn word_of(order: ByteOrder, b0: u8, b1: u8, b2: u8, b3: u8) -> int {
    match order {
        ByteOrder::LittleEndian => b0 + b1 * 0x100 + b2 * 0x1_0000 + b3 * 0x100_0000,
        ByteOrder::BigEndian => b3 + b2 * 0x100 + b1 * 0x1_0000 + b0 * 0x100_0000,
    }
}

/// The `i`-th code word of `code`.
pub open spec fn word_at(code: Seq<u8>, order: ByteOrder, i: int) -> int {
    word_of(order, code[4 * i], code[4 * i + 1], code[4 * i + 2], code[4 * i + 3])
}

/// Whether `words` are the code words of `code`, in order.
pub open spec fn is_words_of(words: Seq<u32>, code: Seq<u8>, order: ByteOrder) -> bool {
    &&& words.len() * 4 == code.len()
    &&& forall|i: int| 0 <= i < words.len() ==> #[trigger] words[i] == word_at(code, order, i)
}

/// Whether a byte count is a whole number of code words.
pub open spec fn is_word_aligned(len: nat) -> bool {
    len % 4 == 0
}

/// Validated shader bytecode with its entry point.
#[derive(Debug)]
pub struct ShaderUnit {
    code: Vec<u8>,
}

impl ShaderUnit {
    #[verifier::type_invariant]
    spec fn whole_words(&self) -> bool {
        is_word_aligned(self.code@.len())
    }

    /// The bytecode.
    pub closed spec fn code(&self) -> Seq<u8> {
        self.code@
    }

    /// The name of the entry point.
    pub open spec fn entry_point_name() -> Seq<char> {
        "main"@
    }

    /// The bytecode.
    pub fn bytes(&self) -> (r: &Vec<u8>)
        ensures
            r@ == self.code(),
            is_word_aligned(r@.len()),
    {
        proof {
            use_type_invariant(self);
        }
        &self.code
    }

    /// The length of the bytecode in bytes.
    pub fn code_size(&self) -> (r: usize)
        ensures
            r == self.code().len(),
            is_word_aligned(r as nat),
    {
        proof {
            use_type_invariant(self);
        }
        self.code.len()
    }

    /// The number of code words.
    pub fn word_count(&self) -> (r: usize)
        ensures
            r * 4 == self.code().len(),
    {
        proof {
            use_type_invariant(self);
        }
        self.code.len() / WORD_SIZE
    }

    /// The name of the entry point.
    pub fn entry_point(&self) -> (r: &'static str)
        ensures
            r@ == Self::entry_point_name(),
    {
        "main"
    }

    /// The code words, read in the given byte order.
    pub fn words(&self, order: ByteOrder) -> (r: Vec<u32>)
        ensures
            is_words_of(r@, self.code(), order),
    {
        proof {
            use_type_invariant(self);
        }
        let len = self.code.len();
        let count = len / WORD_SIZE;
        let mut words: Vec<u32> = Vec::with_capacity(count);
        let mut i: usize = 0;
        while i < count
            invariant
                len == self.code@.len(),
                count * 4 == len,
                i <= count,
                words@.len() == i,
                forall|k: int| 0 <= k < i ==> #[trigger] words@[k] == word_at(self.code@, order, k),
            decreases count - i,
        {
            let b0 = self.code[4 * i];
            let b1 = self.code[4 * i + 1];
            let b2 = self.code[4 * i + 2];
            let b3 = self.code[4 * i + 3];
            words.push(assemble_word(order, b0, b1, b2, b3));
            i += 1;
        }
        words
    }
}

/// Assembles one code word from its four bytes, given in the order they are
/// stored.
pub fn assemble_word(order: ByteOrder, b0: u8, b1: u8, b2: u8, b3: u8) -> (r: u32)
    ensures
        r == word_of(order, b0, b1, b2, b3),
{
    match order {
        ByteOrder::LittleEndian => b0 as u32 + b1 as u32 * 0x100 + b2 as u32 * 0x1_0000 + b3 as u32
            * 0x100_0000,
        ByteOrder::BigEndian => b3 as u32 + b2 as u32 * 0x100 + b1 as u32 * 0x1_0000 + b0 as u32
            * 0x100_0000,
    }
}

/// Loads a shader binary: accepts it exactly when its length is a multiple
/// of four bytes, and then keeps the bytes as they are. The instruction
/// stream is not looked at.
pub fn create_shader_module(bytecode: &[u8]) -> (r: Result<ShaderUnit, Error>)
    ensures
        match r {
            Ok(unit) => is_word_aligned(bytecode@.len()) && unit.code() == bytecode@,
            Err(e) => e is Format && !is_word_aligned(bytecode@.len()),
        },
{
    if bytecode.len() % WORD_SIZE != 0 {
        return Err(Error::Format);
    }
    let mut code: Vec<u8> = Vec::with_capacity(bytecode.len());
    let mut i: usize = 0;
    while i < bytecode.len()
        invariant
            i <= bytecode@.len(),
            code@ == bytecode@.subrange(0, i as int),
        decreases bytecode@.len() - i,
    {
        code.push(bytecode[i]);
        i += 1;
    }
    assert(code@ == bytecode@);
    Ok(ShaderUnit { code })
}

} // verus!
