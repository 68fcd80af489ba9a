use vstd::prelude::*;
use crate::engine::EvalError;

verus! {

/// A parsed Rust source file.
#[verifier::external_type_specification]
#[verifier::external_body]
pub struct ExFile(syn::File);

/// syn's parse error.
#[verifier::external_type_specification]
#[verifier::external_body]
pub struct ExError(syn::Error);

/// Whether the text parses as a Rust source file.
pub uninterp spec fn parses(text: Seq<char>) -> bool;

/// Relies on `syn::parse_file`: whether it succeeds depends on the text alone.
#[verifier::external_body]
fn parse_file(text: &str) -> (r: Result<syn::File, syn::Error>)
    ensures
        r is Ok <==> parses(text@),
{
    syn::parse_file(text)
}

/// Parses a file's text; a text that is not valid Rust is a parse error.
pub fn parse_source(text: &str) -> (r: Result<syn::File, EvalError>)
    ensures
        r is Ok <==> parses(text@),
        r is Err ==> r->Err_0 == EvalError::Parse,
{
    match parse_file(text) {
        Ok(file) => Ok(file),
        Err(_) => Err(EvalError::Parse),
    }
}

} // verus!
