//! Conversion between the textual and the binary module format. The
//! conversions themselves are the work of outside crates behind trusted
//! wrappers; the library names their results, maps their errors to its
//! own, and derives the conversion's output file name.

use vstd::prelude::*;

verus! {

/// Why a module conversion failed.
#[derive(Clone, Copy, PartialEq, Eq, Structural, Debug)]
pub enum ConvertError {
    /// The textual module could not be parsed.
    MalformedText,
    /// The binary module could not be printed.
    MalformedBinary,
}

/// The binary encoding of a well-formed textual module.
pub uninterp spec fn wasm_of(text: Seq<char>) -> Seq<u8>;

/// Whether the text parses as a textual module: the parser's verdict is a
/// function of the text alone.
pub uninterp spec fn wat_parse_ok(text: Seq<char>) -> bool;

/// The textual form of a well-formed binary module.
pub uninterp spec fn wat_of(wasm: Seq<u8>) -> Seq<char>;

/// Whether the bytes print as a textual module: the printer's verdict is
/// a function of the bytes alone.
pub uninterp spec fn wasm_print_ok(wasm: Seq<u8>) -> bool;

#[verifier::external_type_specification]
#[verifier::external_body]
pub struct ExWatError(wat::Error);

#[verifier::external_type_specification]
#[verifier::external_body]
pub struct ExAnyhowError(anyhow::Error);

/// Relies on `wat::parse_str`: the binary encoding of the given textual
/// module, a function of the text alone; an error on text it cannot parse.
#[verifier::external_body]
fn parse_wat_text(text: &str) -> (r: Result<Vec<u8>, wat::Error>)
    ensures
        r is Ok <==> wat_parse_ok(text@),
        r is Ok ==> r->Ok_0@ == wasm_of(text@),
{
    wat::parse_str(text)
}

/// Relies on `wasmprinter::print_bytes`: the textual form of the given
/// binary module, a function of the bytes alone; an error on bytes it
/// cannot print.
#[verifier::external_body]
fn print_wasm_bytes(wasm: &Vec<u8>) -> (r: Result<String, anyhow::Error>)
    ensures
        r is Ok <==> wasm_print_ok(wasm@),
        r is Ok ==> r->Ok_0@ == wat_of(wasm@),
{
    wasmprinter::print_bytes(wasm)
}

/// Converts a module from the text format to the binary format. It
/// succeeds exactly on text the parser accepts, and then returns the
/// binary encoding of the given text; text the parser rejects yields the
/// malformed-text error.
pub fn wat_to_wasm(text: &str) -> (r: Result<Vec<u8>, ConvertError>)
    ensures
        r is Ok <==> wat_parse_ok(text@),
        r is Ok ==> r->Ok_0@ == wasm_of(text@),
        r is Err ==> r->Err_0 == ConvertError::MalformedText,
{
    match parse_wat_text(text) {
        Result::Ok(binary) => Result::Ok(binary),
        Result::Err(_) => Result::Err(ConvertError::MalformedText),
    }
}

/// Converts a module from the binary format to the text format. It
/// succeeds exactly on bytes the printer accepts, and then returns the
/// textual form of the given bytes; bytes the printer rejects yield the
/// malformed-binary error.
pub fn wasm_to_wat(wasm: &Vec<u8>) -> (r: Result<String, ConvertError>)
    ensures
        r is Ok <==> wasm_print_ok(wasm@),
        r is Ok ==> r->Ok_0@ == wat_of(wasm@),
        r is Err ==> r->Err_0 == ConvertError::MalformedBinary,
{
    match print_wasm_bytes(wasm) {
        Result::Ok(text) => Result::Ok(text),
        Result::Err(_) => Result::Err(ConvertError::MalformedBinary),
    }
}

} // verus!
