use the_newtype_macros::drive_newtype;
use the_newtype_macros::input::Anchor;
use the_newtype_macros::input::CrateRef;
use the_newtype_macros::input::Data;
use the_newtype_macros::input::DeriveInput;
use the_newtype_macros::input::ErrorKind;
use the_newtype_macros::input::Field;
use the_newtype_macros::input::GenericParam;
use the_newtype_macros::input::Generics;
use the_newtype_macros::newtype::get_type;
use the_newtype_macros::newtype::Newtype;

fn field(name: Option<&str>, ty: &str) -> Field {
    Field {
        name: name.map(|n| n.to_string()),
        ty: ty.to_string(),
    }
}

fn param(decl: &str, applied: &str) -> GenericParam {
    GenericParam {
        decl: decl.to_string(),
        applied: applied.to_string(),
    }
}

fn plain_struct(ident: &str, fields: Vec<Field>) -> DeriveInput {
    DeriveInput {
        ident: ident.to_string(),
        generics: Generics {
            params: Vec::new(),
            where_clause: None,
        },
        data: Data::Struct { fields },
    }
}

fn generic_struct(ident: &str, params: Vec<GenericParam>, fields: Vec<Field>) -> DeriveInput {
    DeriveInput {
        ident: ident.to_string(),
        generics: Generics {
            params,
            where_clause: None,
        },
        data: Data::Struct { fields },
    }
}

fn witness_of(input: &DeriveInput) -> String {
    get_type(&input.data).expect("extraction should succeed")
}

#[test]
fn test() {
    let foo_tuple = plain_struct("FooTuple", vec![field(None, "Foo")]);
    assert_eq!(witness_of(&foo_tuple), "Foo");

    let foo_struct = plain_struct("FooStruct", vec![field(Some("foo"), "Foo")]);
    assert_eq!(witness_of(&foo_struct), "Foo");

    let wrapper = generic_struct("Wrapper", vec![param("T", "T")], vec![field(None, "T")]);
    assert_eq!(witness_of(&wrapper), "T");

    let wrapper_list = generic_struct(
        "WrapperList",
        vec![param("T", "T")],
        vec![field(None, "Vec<T>")],
    );
    assert_eq!(witness_of(&wrapper_list), "Vec<T>");

    let wrapper_ref = generic_struct(
        "WrapperRef",
        vec![param("'a", "'a"), param("T", "T")],
        vec![field(None, "&'a T")],
    );
    assert_eq!(witness_of(&wrapper_ref), "&'a T");
}

#[test]
fn single_field_tuple_struct_succeeds() {
    let input = plain_struct("FooTuple", vec![field(None, "Foo")]);
    let r = get_type(&input.data);
    assert_eq!(r.ok().as_deref(), Some("Foo"));
}

#[test]
fn single_field_named_struct_succeeds() {
    let input = plain_struct("FooStruct", vec![field(Some("foo"), "Foo")]);
    let r = get_type(&input.data);
    assert_eq!(r.ok().as_deref(), Some("Foo"));
}

#[test]
fn witness_type_kept_verbatim() {
    let input = plain_struct("Wrapped", vec![field(None, "&'a mut Vec<Box<T>>")]);
    let r = get_type(&input.data);
    assert_eq!(r.ok().as_deref(), Some("&'a mut Vec<Box<T>>"));
}

#[test]
fn zero_fields_fails_with_no_fields() {
    let input = plain_struct("Empty", Vec::new());
    let d = get_type(&input.data).err().expect("extraction should fail");
    assert_eq!(d.kind, ErrorKind::NoFields);
    assert_eq!(d.anchor, Anchor::TypeIdent);
    assert_eq!(d.message, "Newtype must have exactly one field");
}

#[test]
fn two_fields_fails_anchored_at_second() {
    let input = plain_struct("Pair", vec![field(None, "A"), field(None, "B")]);
    let d = get_type(&input.data).err().expect("extraction should fail");
    assert_eq!(d.kind, ErrorKind::TooManyFields);
    assert_eq!(d.anchor, Anchor::FieldAt(1));
    assert_eq!(d.message, "Newtype must have exactly one field");
}

#[test]
fn three_fields_fails_anchored_at_second() {
    let input = plain_struct(
        "TooMany",
        vec![field(None, "A"), field(None, "B"), field(None, "C")],
    );
    let d = get_type(&input.data).err().expect("extraction should fail");
    assert_eq!(d.kind, ErrorKind::TooManyFields);
    assert_eq!(d.anchor, Anchor::FieldAt(1));
}

#[test]
fn enum_fails_with_not_a_struct() {
    let input = DeriveInput {
        ident: "Choice".to_string(),
        generics: Generics {
            params: Vec::new(),
            where_clause: None,
        },
        data: Data::Enum,
    };
    let d = get_type(&input.data).err().expect("extraction should fail");
    assert_eq!(d.kind, ErrorKind::NotAStruct);
    assert_eq!(d.anchor, Anchor::TypeIdent);
    assert_eq!(d.message, "Newtype can only be derived for structs");
}

#[test]
fn union_fails_with_not_a_struct() {
    let input = DeriveInput {
        ident: "Raw".to_string(),
        generics: Generics {
            params: Vec::new(),
            where_clause: None,
        },
        data: Data::Union,
    };
    let d = get_type(&input.data).err().expect("extraction should fail");
    assert_eq!(d.kind, ErrorKind::NotAStruct);
    assert_eq!(d.anchor, Anchor::TypeIdent);
}

#[test]
fn emitted_impl_exact_text_plain() {
    let input = plain_struct("FooTuple", vec![field(None, "Foo")]);
    let code = drive_newtype(&input, &CrateRef::Itself).expect("generation should succeed");
    assert_eq!(code, "impl crate::Newtype for FooTuple { type Inner = Foo; }");
}

#[test]
fn emitted_impl_exact_text_named_crate() {
    let input = plain_struct("FooTuple", vec![field(None, "Foo")]);
    let crate_ref = CrateRef::Named("the_newtype".to_string());
    let code = drive_newtype(&input, &crate_ref).expect("generation should succeed");
    assert_eq!(code, "impl the_newtype::Newtype for FooTuple { type Inner = Foo; }");
}

#[test]
fn emitted_impl_generic_over_param() {
    let input = generic_struct("Wrapper", vec![param("T", "T")], vec![field(None, "T")]);
    let code = drive_newtype(&input, &CrateRef::Itself).expect("generation should succeed");
    assert_eq!(code, "impl<T> crate::Newtype for Wrapper<T> { type Inner = T; }");
}

#[test]
fn emitted_impl_preserves_lifetime_params() {
    let input = generic_struct(
        "WrapperRef",
        vec![param("'a", "'a"), param("T", "T")],
        vec![field(None, "&'a T")],
    );
    let code = drive_newtype(&input, &CrateRef::Itself).expect("generation should succeed");
    assert_eq!(
        code,
        "impl<'a, T> crate::Newtype for WrapperRef<'a, T> { type Inner = &'a T; }"
    );
}

#[test]
fn emitted_impl_preserves_bounds_and_where_clause() {
    let input = DeriveInput {
        ident: "Guarded".to_string(),
        generics: Generics {
            params: vec![param("T: Clone", "T")],
            where_clause: Some("where T: Send".to_string()),
        },
        data: Data::Struct {
            fields: vec![field(None, "T")],
        },
    };
    let code = drive_newtype(&input, &CrateRef::Itself).expect("generation should succeed");
    assert_eq!(
        code,
        "impl<T: Clone> crate::Newtype for Guarded<T> where T: Send { type Inner = T; }"
    );
}

#[test]
fn emission_is_deterministic() {
    let input = generic_struct(
        "WrapperRef",
        vec![param("'a", "'a"), param("T: Clone", "T")],
        vec![field(None, "&'a T")],
    );
    let crate_ref = CrateRef::Named("the_newtype".to_string());
    let first = drive_newtype(&input, &crate_ref).expect("generation should succeed");
    let second = drive_newtype(&input, &crate_ref).expect("generation should succeed");
    assert_eq!(first, second);
}

#[test]
fn from_derive_input_passes_fields_through() {
    let input = DeriveInput {
        ident: "Guarded".to_string(),
        generics: Generics {
            params: vec![param("T: Clone", "T")],
            where_clause: Some("where T: Send".to_string()),
        },
        data: Data::Struct {
            fields: vec![field(Some("inner"), "T")],
        },
    };
    let n = Newtype::from_derive_input(&input).expect("extraction should succeed");
    assert_eq!(n.ident, "Guarded");
    assert_eq!(n.ty, "T");
    assert_eq!(n.generics.params.len(), 1);
    assert_eq!(n.generics.params[0].decl, "T: Clone");
    assert_eq!(n.generics.params[0].applied, "T");
    assert_eq!(n.generics.where_clause.as_deref(), Some("where T: Send"));
}

#[test]
fn emitted_impl_parses_as_rust_item() {
    let input = DeriveInput {
        ident: "Guarded".to_string(),
        generics: Generics {
            params: vec![param("'a", "'a"), param("T: Clone", "T")],
            where_clause: Some("where T: Send".to_string()),
        },
        data: Data::Struct {
            fields: vec![field(None, "&'a T")],
        },
    };
    let crate_ref = CrateRef::Named("the_newtype".to_string());
    let code = drive_newtype(&input, &crate_ref).expect("generation should succeed");
    let parsed = syn::parse_str::<syn::ItemImpl>(&code);
    assert!(parsed.is_ok(), "emitted code should be a well-formed impl: {code}");
}
