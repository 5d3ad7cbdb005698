//! Field extraction and implementation emission.
//!
//! [`get_type`] validates that a type description denotes a single-field
//! struct and extracts the declared type of that sole field (the witness
//! type). [`Newtype`] carries everything needed to synthesize the trait
//! implementation, and its [`Newtype::to_tokens`] method emits the
//! implementation text. [`emit_spec`] states, character for character, what
//! the emitted text is.

use vstd::prelude::*;

use crate::input::Anchor;
use crate::input::CrateRef;
use crate::input::Data;
use crate::input::DeriveInput;
use crate::input::Diagnostic;
use crate::input::ErrorKind;
use crate::input::GenericParam;
use crate::input::Generics;
use crate::input::extraction_diag;

verus! {

/// The token by which generated code refers to the defining crate.
pub open spec fn crate_ref_text(crate_ref: CrateRef) -> Seq<char> {
    match crate_ref {
        CrateRef::Itself => "crate"@,
        CrateRef::Named(name) => name@,
    }
}

/// The generic parameter declarations, joined by `", "`.
pub open spec fn join_decls(params: Seq<GenericParam>) -> Seq<char>
    decreases params.len(),
{
    if params.len() == 0 {
        Seq::empty()
    } else if params.len() == 1 {
        params[0].decl@
    } else {
        join_decls(params.drop_last()) + ", "@ + params.last().decl@
    }
}

/// The applied forms of the generic parameters, joined by `", "`.
pub open spec fn join_applied(params: Seq<GenericParam>) -> Seq<char>
    decreases params.len(),
{
    if params.len() == 0 {
        Seq::empty()
    } else if params.len() == 1 {
        params[0].applied@
    } else {
        join_applied(params.drop_last()) + ", "@ + params.last().applied@
    }
}

/// The generic parameter list as declared on the `impl`: empty when the type
/// has no parameters, else the verbatim declarations between angle brackets.
pub open spec fn impl_generics_text(params: Seq<GenericParam>) -> Seq<char> {
    if params.len() == 0 {
        Seq::empty()
    } else {
        "<"@ + join_decls(params) + ">"@
    }
}

/// The generic arguments as applied to the target type: empty when the type
/// has no parameters, else the applied forms between angle brackets.
pub open spec fn ty_generics_text(params: Seq<GenericParam>) -> Seq<char> {
    if params.len() == 0 {
        Seq::empty()
    } else {
        "<"@ + join_applied(params) + ">"@
    }
}

/// The `where` clause as emitted: nothing, or a space followed by the
/// verbatim clause.
pub open spec fn where_clause_text(where_clause: Option<String>) -> Seq<char> {
    match where_clause {
        Option::None => Seq::empty(),
        Option::Some(w) => " "@ + w@,
    }
}

/// The full text of the emitted trait implementation, character for
/// character: for all declared generic parameters, implement the trait for
/// the identifier with its parameters applied (respecting the `where`
/// clause), binding the associated type `Inner` to the witness type.
pub open spec fn emit_spec(
    ident: Seq<char>,
    params: Seq<GenericParam>,
    where_clause: Option<String>,
    witness: Seq<char>,
    crate_ref: CrateRef,
) -> Seq<char> {
    "impl"@ + impl_generics_text(params) + " "@ + crate_ref_text(crate_ref) + "::Newtype for "@
        + ident + ty_generics_text(params) + where_clause_text(where_clause)
        + " { type Inner = "@ + witness + "; }"@
}

/// Validate that `data` is a struct with exactly one field and extract the
/// declared type of that field, verbatim. Reports a non-struct at the type's
/// identifier, a fieldless struct at the type's identifier, and a struct
/// with two or more fields at the second field.
pub fn get_type(data: &Data) -> (r: Result<String, Diagnostic>)
    ensures
        r is Ok <==> data is Struct && data.fields_of().len() == 1,
        r matches Ok(ty) ==> ty@ == data.fields_of()[0].ty@,
        r matches Err(d) ==> extraction_diag(*data, d),
{
    match data {
        Data::Struct { fields } => {
            if fields.len() > 1 {
                Err(Diagnostic {
                    kind: ErrorKind::TooManyFields,
                    message: "Newtype must have exactly one field".to_owned(),
                    anchor: Anchor::FieldAt(1),
                })
            } else if fields.len() == 1 {
                Ok(fields[0].ty.clone())
            } else {
                Err(Diagnostic {
                    kind: ErrorKind::NoFields,
                    message: "Newtype must have exactly one field".to_owned(),
                    anchor: Anchor::TypeIdent,
                })
            }
        },
        _ => Err(Diagnostic {
            kind: ErrorKind::NotAStruct,
            message: "Newtype can only be derived for structs".to_owned(),
            anchor: Anchor::TypeIdent,
        }),
    }
}

/// A successful extraction: the original type's identifier and generic
/// parameter list, and the witness type, all carried as verbatim text.
pub struct Newtype {
    pub ident: String,
    pub generics: Generics,
    pub ty: String,
}

/// Two parameter lists carry the same text, declaration for declaration and
/// applied form for applied form.
pub open spec fn params_equiv(a: Seq<GenericParam>, b: Seq<GenericParam>) -> bool {
    a.len() == b.len() && (forall|i: int|
        0 <= i < a.len() ==> a[i].decl@ == b[i].decl@ && a[i].applied@ == b[i].applied@)
}

/// Two optional clauses carry the same text.
pub open spec fn opt_text_equiv(a: Option<String>, b: Option<String>) -> bool {
    match (a, b) {
        (Option::None, Option::None) => true,
        (Option::Some(x), Option::Some(y)) => x@ == y@,
        _ => false,
    }
}

/// Two crate references carry the same token.
pub open spec fn crate_ref_equiv(a: CrateRef, b: CrateRef) -> bool {
    crate_ref_text(a) == crate_ref_text(b)
}

fn clone_generics(g: &Generics) -> (r: Generics)
    ensures
        params_equiv(r.params@, g.params@),
        opt_text_equiv(r.where_clause, g.where_clause),
{
    let mut params: Vec<GenericParam> = Vec::new();
    let mut i: usize = 0;
    while i < g.params.len()
        invariant
            i <= g.params@.len(),
            params@.len() == i,
            forall|j: int|
                0 <= j < i ==> params@[j].decl@ == g.params@[j].decl@ && params@[j].applied@
                    == g.params@[j].applied@,
        decreases g.params@.len() - i,
    {
        params.push(
            GenericParam { decl: g.params[i].decl.clone(), applied: g.params[i].applied.clone() },
        );
        i += 1;
    }
    let where_clause = match &g.where_clause {
        Option::Some(w) => Option::Some(w.clone()),
        Option::None => Option::None,
    };
    Generics { params, where_clause }
}

fn append_impl_generics(out: &mut String, params: &Vec<GenericParam>)
    ensures
        final(out)@ == old(out)@ + impl_generics_text(params@),
{
    if params.len() == 0 {
        proof {
            assert(old(out)@ + impl_generics_text(params@) =~= old(out)@);
        }
        return ;
    }
    out.append("<");
    let mut i: usize = 0;
    while i < params.len()
        invariant
            0 < params@.len(),
            i <= params@.len(),
            out@ == old(out)@ + "<"@ + join_decls(params@.take(i as int)),
        decreases params@.len() - i,
    {
        if i > 0 {
            out.append(", ");
        }
        out.append(params[i].decl.as_str());
        proof {
            let taken = params@.take(i as int + 1);
            assert(taken.drop_last() =~= params@.take(i as int));
            assert(taken.last() == params@[i as int]);
            assert(out@ =~= old(out)@ + "<"@ + join_decls(taken));
        }
        i += 1;
    }
    out.append(">");
    proof {
        assert(params@.take(params@.len() as int) =~= params@);
        assert(out@ =~= old(out)@ + impl_generics_text(params@));
    }
}

fn append_ty_generics(out: &mut String, params: &Vec<GenericParam>)
    ensures
        final(out)@ == old(out)@ + ty_generics_text(params@),
{
    if params.len() == 0 {
        proof {
            assert(old(out)@ + ty_generics_text(params@) =~= old(out)@);
        }
        return ;
    }
    out.append("<");
    let mut i: usize = 0;
    while i < params.len()
        invariant
            0 < params@.len(),
            i <= params@.len(),
            out@ == old(out)@ + "<"@ + join_applied(params@.take(i as int)),
        decreases params@.len() - i,
    {
        if i > 0 {
            out.append(", ");
        }
        out.append(params[i].applied.as_str());
        proof {
            let taken = params@.take(i as int + 1);
            assert(taken.drop_last() =~= params@.take(i as int));
            assert(taken.last() == params@[i as int]);
            assert(out@ =~= old(out)@ + "<"@ + join_applied(taken));
        }
        i += 1;
    }
    out.append(">");
    proof {
        assert(params@.take(params@.len() as int) =~= params@);
        assert(out@ =~= old(out)@ + ty_generics_text(params@));
    }
}

/// `needle` stands somewhere in `hay` as a contiguous run of characters.
pub open spec fn occurs_in(needle: Seq<char>, hay: Seq<char>) -> bool {
    exists|j: int|
        0 <= j && j + needle.len() <= hay.len() && #[trigger] hay.subrange(j, j + needle.len())
            == needle
}

proof fn lemma_occurs_in_extended(needle: Seq<char>, hay: Seq<char>, prefix: Seq<char>, suffix: Seq<char>)
    requires
        occurs_in(needle, hay),
    ensures
        occurs_in(needle, prefix + hay + suffix),
{
    let j = choose|j: int|
        0 <= j && j + needle.len() <= hay.len() && #[trigger] hay.subrange(j, j + needle.len())
            == needle;
    let whole = prefix + hay + suffix;
    let k: int = prefix.len() + j;
    assert(whole.subrange(k, k + needle.len()) =~= hay.subrange(j, j + needle.len()));
}

proof fn lemma_decl_in_join(params: Seq<GenericParam>, i: int)
    requires
        0 <= i < params.len(),
    ensures
        occurs_in(params[i].decl@, join_decls(params)),
    decreases params.len(),
{
    let needle = params[i].decl@;
    if params.len() == 1 {
        let hay = join_decls(params);
        let j: int = 0;
        assert(hay.subrange(j, j + needle.len()) =~= needle);
        assert(occurs_in(needle, hay));
    } else if i == params.len() - 1 {
        let front = join_decls(params.drop_last()) + ", "@;
        let hay = join_decls(params);
        assert(hay =~= front + needle);
        let j: int = front.len() as int;
        assert(hay.subrange(j, j + needle.len()) =~= needle);
        assert(occurs_in(needle, hay));
    } else {
        lemma_decl_in_join(params.drop_last(), i);
        lemma_occurs_in_extended(
            needle,
            join_decls(params.drop_last()),
            Seq::empty(),
            ", "@ + params.last().decl@,
        );
        assert(Seq::empty() + join_decls(params.drop_last()) + (", "@ + params.last().decl@)
            =~= join_decls(params));
    }
}

proof fn lemma_applied_in_join(params: Seq<GenericParam>, i: int)
    requires
        0 <= i < params.len(),
    ensures
        occurs_in(params[i].applied@, join_applied(params)),
    decreases params.len(),
{
    let needle = params[i].applied@;
    if params.len() == 1 {
        let hay = join_applied(params);
        let j: int = 0;
        assert(hay.subrange(j, j + needle.len()) =~= needle);
        assert(occurs_in(needle, hay));
    } else if i == params.len() - 1 {
        let front = join_applied(params.drop_last()) + ", "@;
        let hay = join_applied(params);
        assert(hay =~= front + needle);
        let j: int = front.len() as int;
        assert(hay.subrange(j, j + needle.len()) =~= needle);
        assert(occurs_in(needle, hay));
    } else {
        lemma_applied_in_join(params.drop_last(), i);
        lemma_occurs_in_extended(
            needle,
            join_applied(params.drop_last()),
            Seq::empty(),
            ", "@ + params.last().applied@,
        );
        assert(Seq::empty() + join_applied(params.drop_last()) + (", "@ + params.last().applied@)
            =~= join_applied(params));
    }
}

/// Law: generic parameters are preserved verbatim. Every parameter's
/// declaration — lifetime parameters included, bounds included — stands,
/// character for character, as a contiguous run inside the emitted
/// implementation header, and so does its applied form among the arguments
/// of the target type.
pub proof fn lemma_generic_param_verbatim(
    ident: Seq<char>,
    params: Seq<GenericParam>,
    where_clause: Option<String>,
    witness: Seq<char>,
    crate_ref: CrateRef,
    i: int,
)
    requires
        0 <= i < params.len(),
    ensures
        occurs_in(params[i].decl@, emit_spec(ident, params, where_clause, witness, crate_ref)),
        occurs_in(params[i].applied@, emit_spec(ident, params, where_clause, witness, crate_ref)),
{
    lemma_decl_in_join(params, i);
    let prefix = "impl"@ + "<"@;
    let suffix = ">"@ + " "@ + crate_ref_text(crate_ref) + "::Newtype for "@ + ident
        + ty_generics_text(params) + where_clause_text(where_clause) + " { type Inner = "@
        + witness + "; }"@;
    lemma_occurs_in_extended(params[i].decl@, join_decls(params), prefix, suffix);
    assert(prefix + join_decls(params) + suffix =~= emit_spec(
        ident,
        params,
        where_clause,
        witness,
        crate_ref,
    ));
    lemma_applied_in_join(params, i);
    let prefix2 = "impl"@ + impl_generics_text(params) + " "@ + crate_ref_text(crate_ref)
        + "::Newtype for "@ + ident + "<"@;
    let suffix2 = ">"@ + where_clause_text(where_clause) + " { type Inner = "@ + witness + "; }"@;
    lemma_occurs_in_extended(params[i].applied@, join_applied(params), prefix2, suffix2);
    assert(prefix2 + join_applied(params) + suffix2 =~= emit_spec(
        ident,
        params,
        where_clause,
        witness,
        crate_ref,
    ));
}

/// Law: the witness type is never altered by emission. It stands, character
/// for character, as a contiguous run inside the emitted text, as the
/// binding of the associated type.
pub proof fn lemma_witness_verbatim(
    ident: Seq<char>,
    params: Seq<GenericParam>,
    where_clause: Option<String>,
    witness: Seq<char>,
    crate_ref: CrateRef,
)
    ensures
        occurs_in(witness, emit_spec(ident, params, where_clause, witness, crate_ref)),
{
    let j: int = 0;
    assert(witness.subrange(j, j + witness.len()) =~= witness);
    assert(occurs_in(witness, witness));
    let prefix = "impl"@ + impl_generics_text(params) + " "@ + crate_ref_text(crate_ref)
        + "::Newtype for "@ + ident + ty_generics_text(params) + where_clause_text(where_clause)
        + " { type Inner = "@;
    let suffix = "; }"@;
    lemma_occurs_in_extended(witness, witness, prefix, suffix);
    assert(prefix + witness + suffix =~= emit_spec(ident, params, where_clause, witness, crate_ref));
}

proof fn lemma_join_respects_texts(a: Seq<GenericParam>, b: Seq<GenericParam>)
    requires
        params_equiv(a, b),
    ensures
        join_decls(a) == join_decls(b),
        join_applied(a) == join_applied(b),
    decreases a.len(),
{
    if a.len() > 1 {
        assert(params_equiv(a.drop_last(), b.drop_last()));
        lemma_join_respects_texts(a.drop_last(), b.drop_last());
    }
}

/// Law: emission is deterministic. The emitted text is a function of the
/// texts alone: two inputs whose identifier, parameter declarations, applied
/// forms, `where` clause, witness type and crate reference carry the same
/// characters yield character-identical output. In particular, emitting
/// twice from one input yields identical output.
pub proof fn lemma_emit_deterministic(
    ident1: Seq<char>,
    params1: Seq<GenericParam>,
    where_clause1: Option<String>,
    witness1: Seq<char>,
    crate_ref1: CrateRef,
    ident2: Seq<char>,
    params2: Seq<GenericParam>,
    where_clause2: Option<String>,
    witness2: Seq<char>,
    crate_ref2: CrateRef,
)
    requires
        ident1 == ident2,
        params_equiv(params1, params2),
        opt_text_equiv(where_clause1, where_clause2),
        witness1 == witness2,
        crate_ref_equiv(crate_ref1, crate_ref2),
    ensures
        emit_spec(ident1, params1, where_clause1, witness1, crate_ref1) == emit_spec(
            ident2,
            params2,
            where_clause2,
            witness2,
            crate_ref2,
        ),
{
    lemma_join_respects_texts(params1, params2);
}

impl Newtype {
    /// Validate the type description and build the generation result: the
    /// identifier, the generic parameter list and the `where` clause are
    /// passed through unchanged, and the witness type is the declared type
    /// of the sole field, verbatim.
    pub fn from_derive_input(input: &DeriveInput) -> (r: Result<Newtype, Diagnostic>)
        ensures
            r is Ok <==> input.data is Struct && input.data.fields_of().len() == 1,
            r matches Ok(n) ==> n.ident@ == input.ident@ && params_equiv(
                n.generics.params@,
                input.generics.params@,
            ) && opt_text_equiv(n.generics.where_clause, input.generics.where_clause) && n.ty@
                == input.data.fields_of()[0].ty@,
            r matches Err(d) ==> extraction_diag(input.data, d),
    {
        match get_type(&input.data) {
            Ok(ty) => Ok(
                Newtype {
                    ident: input.ident.clone(),
                    generics: clone_generics(&input.generics),
                    ty,
                },
            ),
            Err(err) => Err(err),
        }
    }

    /// Append the emitted trait implementation to `tokens`, exactly as
    /// [`emit_spec`] states it.
    pub fn to_tokens(&self, crate_ref: &CrateRef, tokens: &mut String)
        ensures
            final(tokens)@ == old(tokens)@ + emit_spec(
                self.ident@,
                self.generics.params@,
                self.generics.where_clause,
                self.ty@,
                *crate_ref,
            ),
    {
        tokens.append("impl");
        append_impl_generics(tokens, &self.generics.params);
        tokens.append(" ");
        match crate_ref {
            CrateRef::Itself => tokens.append("crate"),
            CrateRef::Named(name) => tokens.append(name.as_str()),
        }
        tokens.append("::Newtype for ");
        tokens.append(self.ident.as_str());
        append_ty_generics(tokens, &self.generics.params);
        match &self.generics.where_clause {
            Option::Some(w) => {
                tokens.append(" ");
                tokens.append(w.as_str());
            },
            Option::None => {},
        }
        tokens.append(" { type Inner = ");
        tokens.append(self.ty.as_str());
        tokens.append("; }");
        proof {
            assert(tokens@ =~= old(tokens)@ + emit_spec(
                self.ident@,
                self.generics.params@,
                self.generics.where_clause,
                self.ty@,
                *crate_ref,
            ));
        }
    }

    /// Emit the trait implementation as a fresh string.
    pub fn emit(&self, crate_ref: &CrateRef) -> (r: String)
        ensures
            r@ == emit_spec(
                self.ident@,
                self.generics.params@,
                self.generics.where_clause,
                self.ty@,
                *crate_ref,
            ),
    {
        let mut out = String::new();
        self.to_tokens(crate_ref, &mut out);
        proof {
            assert(out@ =~= emit_spec(
                self.ident@,
                self.generics.params@,
                self.generics.where_clause,
                self.ty@,
                *crate_ref,
            ));
        }
        out
    }
}

} // verus!
