//! Compile-time generation of `Newtype` trait implementations.
//!
//! A "newtype" is a struct with exactly one field, used to give a distinct
//! type identity to an existing type. Given a structural description of a
//! user-defined type ([`input::DeriveInput`]), this library validates that
//! the type is a single-field struct, extracts the declared type of that
//! sole field (the "witness type"), and emits the text of a trait
//! implementation binding the trait's associated type to the witness type.
//!
//! Parsing real token streams into the structural description, and resolving
//! the name under which the defining crate is imported, are the caller's
//! concern: this library works on plain values only.

use vstd::prelude::*;

pub mod input;
pub mod newtype;

use input::CrateRef;
use input::DeriveInput;
use input::Diagnostic;

verus! {

/// Run the whole generation pipeline on one type description: validate and
/// extract the witness type, then emit the implementation text.
///
/// Succeeds exactly when the input is a struct with exactly one field;
/// otherwise returns the diagnostic produced by extraction.
pub fn drive_newtype(input: &DeriveInput, crate_ref: &CrateRef) -> (r: Result<
    String,
    Diagnostic,
>)
    ensures
        r is Ok <==> input.data is Struct && input.data.fields_of().len() == 1,
        r matches Ok(code) ==> code@ == newtype::emit_spec(
            input.ident@,
            input.generics.params@,
            input.generics.where_clause,
            input.data.fields_of()[0].ty@,
            *crate_ref,
        ),
        r matches Err(d) ==> input::extraction_diag(input.data, d),
{
    match newtype::Newtype::from_derive_input(input) {
        Ok(ok) => {
            let code = ok.emit(crate_ref);
            proof {
                newtype::lemma_emit_deterministic(
                    ok.ident@,
                    ok.generics.params@,
                    ok.generics.where_clause,
                    ok.ty@,
                    *crate_ref,
                    input.ident@,
                    input.generics.params@,
                    input.generics.where_clause,
                    input.data.fields_of()[0].ty@,
                    *crate_ref,
                );
            }
            Ok(code)
        },
        Err(err) => Err(err),
    }
}

} // verus!
