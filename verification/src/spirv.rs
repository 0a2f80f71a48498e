//! Binary introspection: a compiled program binary is decoded into words
//! (`crate::codec`), screened by a verified structural scan, parsed into a
//! structured module, and rendered as deterministic disassembly text.
//!
//! The scan walks the instruction framing: every instruction must declare
//! a positive word count that fits inside the stream, every constant
//! instruction must name a result type defined by an earlier numeric-type
//! instruction, and a specialization-constant operation must not name an
//! inner opcode whose grammar carries literal kinds. All three are demands
//! of the binary's grammar, and together they keep the parser and the
//! renderer inside their totality envelope: the parser's string decoder
//! slices the declared operand words without a bounds check, its
//! specialization-constant path takes no literal operand kinds, and the
//! renderer resolves a constant's type without a fallback, so a stream
//! violating any of the three is rejected here, with its offset, instead
//! of being handed on.

use vstd::prelude::*;

use rspirv::binary::Disassemble;
use rspirv::binary::ParseState;

use crate::codec::decoded_words;
use crate::codec::decode_words;
use crate::error::HostError;

verus! {

/// The instruction header at word `i`: declared word count (upper half)
/// and opcode (lower half).
pub open spec fn instr_word_count(words: Seq<u32>, i: int) -> int {
    (words[i] >> 16) as int
}

pub open spec fn instr_opcode(words: Seq<u32>, i: int) -> int {
    (words[i] & 0xFFFF) as int
}

/// Opcode of an integer type definition.
pub const OP_TYPE_INT: u32 = 21;

/// Opcode of a floating-point type definition.
pub const OP_TYPE_FLOAT: u32 = 22;

/// Opcode of a constant whose literal is typed by its result type.
pub const OP_CONSTANT: u32 = 43;

/// Opcode of a specialization constant carrying a typed literal.
pub const OP_SPEC_CONSTANT: u32 = 50;

/// Opcode of a specialization-constant operation, whose operands follow
/// the grammar of the instruction its fourth word names.
pub const OP_SPEC_CONSTANT_OP: u32 = 52;

/// Opcode of a multi-way branch carrying literal/label pairs.
pub const OP_SWITCH: u32 = 251;

/// Whether an instruction named as the inner operation of a
/// specialization-constant operation carries an operand kind the parser
/// does not take on that path: a context-dependent literal, a nested
/// specialization opcode, or literal/id pairs.
pub open spec fn nested_literal_opcode(inner: u32) -> bool {
    inner == OP_CONSTANT || inner == OP_SPEC_CONSTANT || inner == OP_SPEC_CONSTANT_OP || inner
        == OP_SWITCH
}

/// The numeric-type ids defined after the instruction at word `i`, given
/// those defined before it: a type definition's result id stands in its
/// second word.
pub open spec fn defined_after(words: Seq<u32>, i: int, defined: Seq<u32>) -> Seq<u32> {
    if (instr_opcode(words, i) == OP_TYPE_INT || instr_opcode(words, i) == OP_TYPE_FLOAT)
        && instr_word_count(words, i) >= 2 {
        defined.push(words[i + 1])
    } else {
        defined
    }
}

/// Scans the instruction stream from word `i` with the numeric-type ids
/// defined so far, and returns the word index of the first structural
/// violation: an instruction whose declared word count is zero or runs
/// past the stream, a constant whose result type (its second word) was
/// not defined by an earlier numeric-type instruction, or a
/// specialization-constant operation whose inner opcode carries a literal
/// kind the parser does not take.
pub open spec fn scan_from(words: Seq<u32>, i: int, defined: Seq<u32>) -> Option<int>
    decreases words.len() - i,
{
    if i >= words.len() {
        None
    } else {
        let wc = instr_word_count(words, i);
        if wc < 1 || i + wc > words.len() {
            Some(i)
        } else if instr_opcode(words, i) == OP_CONSTANT && wc >= 2 && !defined.contains(
            words[i + 1],
        ) {
            Some(i)
        } else if instr_opcode(words, i) == OP_SPEC_CONSTANT_OP && wc >= 4
            && nested_literal_opcode(words[i + 3]) {
            Some(i)
        } else {
            scan_from(words, i + wc, defined_after(words, i, defined))
        }
    }
}

/// The structural scan of a whole word stream: the five header words are
/// the parser's own business, the instructions after them are screened.
pub open spec fn binary_scan(words: Seq<u32>) -> Option<int> {
    if words.len() < 5 {
        None
    } else {
        scan_from(words, 5, Seq::empty())
    }
}

/// Whether some earlier word of `haystack` equals `needle`.
fn contains_u32(haystack: &Vec<u32>, needle: u32) -> (r: bool)
    ensures
        r == haystack@.contains(needle),
{
    let n = haystack.len();
    let mut i: usize = 0;
    while i < n
        invariant
            n == haystack@.len(),
            i <= n,
            forall|j: int| 0 <= j < i ==> haystack@[j] != needle,
        decreases n - i,
    {
        if haystack[i] == needle {
            return true;
        }
        i = i + 1;
    }
    false
}

/// Runs the structural scan; on failure returns the byte offset of the
/// offending instruction.
fn scan_instructions(words: &Vec<u32>) -> (r: Result<(), usize>)
    requires
        4 * words@.len() <= usize::MAX,
    ensures
        r is Ok <==> binary_scan(words@) is None,
        r matches Err(off) ==> binary_scan(words@) == Some(off as int / 4) && off % 4 == 0,
{
    let n = words.len();
    if n < 5 {
        return Ok(());
    }
    let mut i: usize = 5;
    let mut defined: Vec<u32> = Vec::new();
    while i < n
        invariant
            n == words@.len(),
            4 * n <= usize::MAX,
            5 <= i <= n,
            scan_from(words@, 5, Seq::empty()) == scan_from(words@, i as int, defined@),
        decreases n - i,
    {
        let w = words[i];
        let wc = (w >> 16) as usize;
        let op = w & 0xFFFF;
        if wc == 0 || wc > n - i {
            proof {
                assert(scan_from(words@, i as int, defined@) == Some(i as int));
            }
            return Err(4 * i);
        }
        if op == OP_CONSTANT && wc >= 2 {
            if !contains_u32(&defined, words[i + 1]) {
                proof {
                    assert(scan_from(words@, i as int, defined@) == Some(i as int));
                }
                return Err(4 * i);
            }
        }
        if op == OP_SPEC_CONSTANT_OP && wc >= 4 {
            let inner = words[i + 3];
            if inner == OP_CONSTANT || inner == OP_SPEC_CONSTANT || inner == OP_SPEC_CONSTANT_OP
                || inner == OP_SWITCH {
                proof {
                    assert(scan_from(words@, i as int, defined@) == Some(i as int));
                }
                return Err(4 * i);
            }
        }
        let ghost pre_defined = defined@;
        if (op == OP_TYPE_INT || op == OP_TYPE_FLOAT) && wc >= 2 {
            defined.push(words[i + 1]);
        }
        proof {
            assert(defined@ =~= defined_after(words@, i as int, pre_defined));
            assert(scan_from(words@, i as int, pre_defined) == scan_from(
                words@,
                i + wc,
                defined_after(words@, i as int, pre_defined),
            ));
        }
        i = i + wc;
    }
    proof {
        assert(scan_from(words@, i as int, defined@) is None);
    }
    Ok(())
}

/// Whether `words` form a structurally valid compiled module, exactly as
/// the binary grammar's parser and module loader accept them.
pub uninterp spec fn spirv_parse_ok(words: Seq<u32>) -> bool;

/// The disassembly text rendered from the module parsed out of `words`;
/// meaningful when `spirv_parse_ok(words)` holds.
pub uninterp spec fn spirv_disassembly(words: Seq<u32>) -> Seq<char>;

/// The byte offset the parser reports for a rejected word stream, 0 where
/// its verdict carries none; meaningful when `spirv_parse_ok(words)` does
/// not hold.
pub uninterp spec fn spirv_parse_err_offset(words: Seq<u32>) -> usize;

/// Relies on `rspirv::binary::parse_words` (via `rspirv::dr::Loader`) and
/// `Disassemble::disassemble` on the loaded module: both are deterministic
/// in the word stream alone (the parser reads the words in their in-memory
/// little-endian order, which is this library's build target), parsing
/// succeeds exactly on input the grammar accepts, and a successfully
/// parsed module carries its header, whose rendering makes the text
/// non-empty. The structural scan is required first: without it the
/// parser's string decoder can slice past a truncated instruction, its
/// specialization-constant path can meet an operand kind it does not
/// take, and the renderer can fail resolving the type of a constant the
/// parser admitted, none of which returns.
#[verifier::external_body]
fn parse_and_disassemble(words: &Vec<u32>) -> (r: Result<String, usize>)
    requires
        binary_scan(words@) is None,
    ensures
        r is Ok <==> spirv_parse_ok(words@),
        r matches Ok(text) ==> text@ == spirv_disassembly(words@) && text@.len() > 0,
        r matches Err(off) ==> off == spirv_parse_err_offset(words@),
{
    let mut loader = rspirv::dr::Loader::new();
    match rspirv::binary::parse_words(words, &mut loader) {
        Ok(()) => Ok(loader.module().disassemble()),
        Err(state) => Err(match state {
            ParseState::WordCountZero(offset, _)
            | ParseState::OperandExpected(offset, _)
            | ParseState::OperandExceeded(offset, _)
            | ParseState::TypeUnsupported(offset, _)
            | ParseState::SpecConstantOpIntegerIncorrect(offset, _) => offset,
            ParseState::OpcodeUnknown(offset, _, _) => offset,
            _ => 0,
        }),
    }
}

/// The outcome of introspecting `bytes`: `None` when the bytes are not a
/// whole number of words, the structural scan rejects the word stream, or
/// the parser does; otherwise the disassembly text. A function of the
/// input alone, so two runs over the same blob agree.
pub open spec fn disassembly_of(bytes: Seq<u8>) -> Option<Seq<char>> {
    if bytes.len() % 4 == 0 && binary_scan(decoded_words(bytes)) is None && spirv_parse_ok(
        decoded_words(bytes),
    ) {
        Some(spirv_disassembly(decoded_words(bytes)))
    } else {
        None
    }
}

/// Decodes, scans, parses, and renders a compiled program binary.
/// Fails with `MalformedBinary` exactly when the byte length is not a
/// multiple of 4, and with `ParseError` exactly when the structural scan
/// or the parser rejects the word stream — carrying the offending
/// instruction's byte offset, or the parser's reported offset; otherwise
/// returns the module's non-empty, deterministic disassembly text.
pub fn disassemble_binary(bytes: &Vec<u8>) -> (r: Result<String, HostError>)
    ensures
        r is Ok <==> disassembly_of(bytes@) is Some,
        r matches Ok(text) ==> Some(text@) == disassembly_of(bytes@) && text@.len() > 0,
        bytes@.len() % 4 != 0 ==> r matches Err(HostError::MalformedBinary),
        bytes@.len() % 4 == 0 && (binary_scan(decoded_words(bytes@)) matches Some(j)) ==> (r
            matches Err(HostError::ParseError { offset }) && 4 * binary_scan(
            decoded_words(bytes@),
        ).unwrap() == offset),
        bytes@.len() % 4 == 0 && binary_scan(decoded_words(bytes@)) is None && !spirv_parse_ok(
            decoded_words(bytes@),
        ) ==> (r matches Err(HostError::ParseError { offset }) && offset == spirv_parse_err_offset(
            decoded_words(bytes@),
        )),
{
    let n = bytes.len();
    let words = match decode_words(bytes) {
        Ok(words) => words,
        Err(e) => {
            return Err(e);
        },
    };
    proof {
        assert(words@.len() == n / 4);
        assert(4 * (n as int / 4) <= n);
    }
    match scan_instructions(&words) {
        Ok(()) => (),
        Err(offset) => {
            return Err(HostError::ParseError { offset });
        },
    }
    match parse_and_disassemble(&words) {
        Ok(text) => Ok(text),
        Err(offset) => Err(HostError::ParseError { offset }),
    }
}

/// Disassembly is deterministic: any two introspection results over the
/// same binary blob are identical, so re-running disassembly is idempotent.
pub proof fn lemma_disassembly_deterministic(bytes: Seq<u8>, t1: Seq<char>, t2: Seq<char>)
    requires
        disassembly_of(bytes) == Some(t1),
        disassembly_of(bytes) == Some(t2),
    ensures
        t1 == t2,
{
}

} // verus!
