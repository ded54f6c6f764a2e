use array_as_struct::decl::{Decl, DeclBody, DiagKind, Diagnostic, Field, GenParam, Severity, Ty, TyTok};
use array_as_struct::transform::{crate_path, transform, CrateLookup};
use array_as_struct::wrapper::{exclusive_view_ty, shared_view_ty, IndexEntry, NameIndex, Wrapper};
use array_as_struct::ArrayStruct;

fn word_ty(w: &str) -> Ty {
    Ty { toks: vec![TyTok::Word(w.to_string())] }
}

fn toks_ty(words: &[&str]) -> Ty {
    let mut toks = Vec::new();
    for w in words {
        if w.len() == 1 && !w.chars().next().unwrap().is_alphanumeric() {
            toks.push(TyTok::Mark(w.chars().next().unwrap()));
        } else {
            toks.push(TyTok::Word(w.to_string()));
        }
    }
    Ty { toks }
}

fn named_field(name: &str, ty: Ty, span: u32) -> Field {
    Field { attrs: vec![], vis: String::new(), name: Some(name.to_string()), ty, ty_span: span }
}

fn plain_decl(fields: Vec<Field>) -> Decl {
    Decl {
        span: 0,
        attrs: vec![],
        vis: "pub".to_string(),
        ident: "Foo".to_string(),
        generics: vec![],
        body: DeclBody::Struct { fields },
    }
}

fn tok_strings(t: &Ty) -> Vec<String> {
    t.toks
        .iter()
        .map(|tok| match tok {
            TyTok::Word(w) => w.clone(),
            TyTok::Mark(c) => c.to_string(),
        })
        .collect()
}

#[test]
fn mismatch_three_fields_reports_first_and_conflicting() {
    let decl = plain_decl(vec![
        named_field("a", word_ty("u32"), 10),
        named_field("b", word_ty("u32"), 20),
        named_field("c", word_ty("u16"), 30),
    ]);
    let diags = transform(decl).err().unwrap();
    assert_eq!(diags.len(), 2);
    assert_eq!(
        diags[0],
        Diagnostic { severity: Severity::Info, span: 10, kind: DiagKind::MismatchEarlier }
    );
    assert_eq!(
        diags[1],
        Diagnostic { severity: Severity::Fatal, span: 30, kind: DiagKind::MismatchCurrent }
    );
    assert_eq!(diags[0].message(), "type did not match future fields");
    assert_eq!(diags[1].message(), "type did not match previous fields");
}

#[test]
fn every_conflicting_field_is_reported_in_one_pass() {
    let decl = plain_decl(vec![
        named_field("a", word_ty("u32"), 1),
        named_field("b", word_ty("u16"), 2),
        named_field("c", word_ty("u8"), 3),
    ]);
    let diags = transform(decl).err().unwrap();
    assert_eq!(diags.len(), 3);
    assert_eq!(
        diags[0],
        Diagnostic { severity: Severity::Info, span: 1, kind: DiagKind::MismatchEarlier }
    );
    assert_eq!(
        diags[1],
        Diagnostic { severity: Severity::Fatal, span: 2, kind: DiagKind::MismatchCurrent }
    );
    assert_eq!(
        diags[2],
        Diagnostic { severity: Severity::Fatal, span: 3, kind: DiagKind::MismatchCurrent }
    );
}

#[test]
fn enum_shape_is_rejected() {
    let decl = Decl {
        span: 7,
        attrs: vec![],
        vis: String::new(),
        ident: "Foo".to_string(),
        generics: vec![],
        body: DeclBody::Enum,
    };
    let diags = transform(decl).err().unwrap();
    assert_eq!(diags.len(), 1);
    assert_eq!(
        diags[0],
        Diagnostic { severity: Severity::Fatal, span: 7, kind: DiagKind::UnsupportedShape }
    );
    assert_eq!(diags[0].message(), "only named-field structs are supported");
}

#[test]
fn positional_field_is_rejected() {
    let mut decl = plain_decl(vec![named_field("a", word_ty("u32"), 1)]);
    decl.span = 9;
    if let DeclBody::Struct { fields } = &mut decl.body {
        fields.push(Field {
            attrs: vec![],
            vis: String::new(),
            name: None,
            ty: word_ty("u32"),
            ty_span: 2,
        });
    }
    let diags = transform(decl).err().unwrap();
    assert_eq!(diags.len(), 1);
    assert_eq!(
        diags[0],
        Diagnostic { severity: Severity::Fatal, span: 9, kind: DiagKind::UnsupportedShape }
    );
}

#[test]
fn structural_comparison_reads_the_whole_tree() {
    // Vec<u32> vs Vec<u16>: the head of the path agrees, the argument
    // does not, so the two types must conflict.
    let decl = plain_decl(vec![
        named_field("a", toks_ty(&["Vec", "<", "u32", ">"]), 1),
        named_field("b", toks_ty(&["Vec", "<", "u16", ">"]), 2),
    ]);
    assert!(transform(decl).is_err());

    // Identical spellings unify.
    let decl = plain_decl(vec![
        named_field("a", toks_ty(&["(", "u8", ",", "u8", ")"]), 1),
        named_field("b", toks_ty(&["(", "u8", ",", "u8", ")"]), 2),
    ]);
    let art = transform(decl).unwrap();
    assert_eq!(art.field_count, 2);
    assert_eq!(tok_strings(&art.elem_ty), vec!["(", "u8", ",", "u8", ")"]);
}

#[test]
fn zero_fields_degrade_to_unit() {
    let art = transform(plain_decl(vec![])).unwrap();
    assert_eq!(art.field_count, 0);
    assert_eq!(tok_strings(&art.elem_ty), vec!["(", ")"]);
    assert!(art.value_fields.is_empty());
    assert!(art.index.entries.is_empty());
    assert_eq!(art.index.position_of(&String::from("a")), None);

    let w: Wrapper<u32> = Wrapper::from_array(vec![]);
    assert_eq!(w.to_array(), Vec::<u32>::new());
}

#[test]
fn artifact_mirrors_the_declaration() {
    let mut decl = plain_decl(vec![
        named_field("first", word_ty("i64"), 1),
        named_field("second", word_ty("i64"), 2),
        named_field("third", word_ty("i64"), 3),
    ]);
    decl.attrs = vec!["#[derive(Clone)]".to_string()];
    decl.vis = "pub(crate)".to_string();
    if let DeclBody::Struct { fields } = &mut decl.body {
        fields[1].attrs = vec!["#[doc = \"kept\"]".to_string()];
        fields[2].vis = "pub".to_string();
    }
    let art = transform(decl).unwrap();
    assert_eq!(art.ident, "Foo");
    assert_eq!(art.vis, "pub(crate)");
    assert_eq!(art.attrs, vec!["#[derive(Clone)]".to_string()]);
    assert_eq!(art.field_count, 3);
    let names: Vec<&str> = art.value_fields.iter().map(|f| f.name.as_str()).collect();
    assert_eq!(names, vec!["first", "second", "third"]);
    assert_eq!(art.value_fields[1].attrs, vec!["#[doc = \"kept\"]".to_string()]);
    assert_eq!(art.value_fields[2].vis, "pub");
    for f in &art.value_fields {
        assert_eq!(tok_strings(&f.ty), vec!["i64"]);
    }
    for (i, e) in art.index.entries.iter().enumerate() {
        assert_eq!(e.position, i);
    }
}

#[test]
fn index_maps_each_name_to_its_declaration_position() {
    let art = transform(plain_decl(vec![
        named_field("x", word_ty("u8"), 1),
        named_field("y", word_ty("u8"), 2),
        named_field("z", word_ty("u8"), 3),
    ]))
    .unwrap();
    assert_eq!(art.index.position_of(&String::from("x")), Some(0));
    assert_eq!(art.index.position_of(&String::from("y")), Some(1));
    assert_eq!(art.index.position_of(&String::from("z")), Some(2));
    assert_eq!(art.index.position_of(&String::from("w")), None);
}

#[test]
fn lookup_takes_the_first_matching_entry() {
    let index = NameIndex {
        entries: vec![
            IndexEntry { name: "dup".to_string(), position: 0 },
            IndexEntry { name: "dup".to_string(), position: 1 },
        ],
    };
    assert_eq!(index.position_of(&String::from("dup")), Some(0));
}

#[test]
fn generics_normalize_to_bare_names() {
    let mut decl = plain_decl(vec![named_field("a", word_ty("F"), 1)]);
    decl.generics = vec![
        GenParam::Lifetime {
            attrs: vec![],
            name: "'a".to_string(),
            bounds: vec!["'static".to_string()],
        },
        GenParam::TypeParam {
            attrs: vec!["#[cfg(test)]".to_string()],
            name: "F".to_string(),
            bounds: vec!["Clone".to_string()],
            default_ty: Some("u32".to_string()),
        },
        GenParam::ConstParam {
            attrs: vec![],
            name: "D".to_string(),
            val_ty: "usize".to_string(),
            default_val: Some("4".to_string()),
        },
    ];
    let art = transform(decl).unwrap();
    assert_eq!(art.generics_decl.len(), 3);
    assert_eq!(art.generics_bare.len(), 3);
    match &art.generics_bare[0] {
        GenParam::Lifetime { attrs, name, bounds } => {
            assert_eq!(name, "'a");
            assert!(attrs.is_empty());
            assert!(bounds.is_empty());
        }
        _ => panic!("the lifetime parameter must stay a lifetime"),
    }
    match &art.generics_bare[1] {
        GenParam::TypeParam { attrs, name, bounds, default_ty } => {
            assert_eq!(name, "F");
            assert!(attrs.is_empty());
            assert!(bounds.is_empty());
            assert!(default_ty.is_none());
        }
        _ => panic!("the type parameter must stay a type parameter"),
    }
    match &art.generics_bare[2] {
        GenParam::TypeParam { attrs, name, bounds, default_ty } => {
            assert_eq!(name, "D");
            assert!(attrs.is_empty());
            assert!(bounds.is_empty());
            assert!(default_ty.is_none());
        }
        _ => panic!("the const parameter must come out as a type parameter"),
    }
}

#[test]
fn borrowed_view_types_wrap_the_element_type() {
    let elem = toks_ty(&["Vec", "<", "u32", ">"]);
    let shared = shared_view_ty(&elem);
    assert_eq!(
        tok_strings(&shared),
        vec!["&", "'__array_as_struct", "Vec", "<", "u32", ">"]
    );
    let exclusive = exclusive_view_ty(&elem);
    assert_eq!(
        tok_strings(&exclusive),
        vec!["&", "'__array_as_struct", "mut", "Vec", "<", "u32", ">"]
    );
}

#[test]
fn array_round_trip_is_identity() {
    let w = Wrapper::from_array(vec![3u32, 1, 4, 1, 5]);
    assert_eq!(w.to_array(), vec![3, 1, 4, 1, 5]);

    let w = <Wrapper<u8> as ArrayStruct>::from_array(vec![9u8, 8]);
    assert_eq!(<Wrapper<u8> as ArrayStruct>::to_array(w), vec![9, 8]);
}

#[test]
fn value_round_trip_is_identity() {
    let w = Wrapper::from_val(vec![7i64, -2, 0]);
    assert_eq!(w.val(), vec![7, -2, 0]);

    let w = <Wrapper<i16> as ArrayStruct>::from_val(vec![-1i16, 1]);
    assert_eq!(<Wrapper<i16> as ArrayStruct>::val(w), vec![-1, 1]);
}

#[test]
fn views_observe_writes() {
    let mut w = Wrapper::from_val(vec![100u32, 200, 300]);
    w.set_field(1, 222);
    assert_eq!(*w.field_ref(0), 100);
    assert_eq!(*w.field_ref(1), 222);
    assert_eq!(*w.field_ref(2), 300);
    assert_eq!(w.len(), 3);
}

#[test]
fn crate_path_follows_the_lookup() {
    assert_eq!(crate_path(CrateLookup::Named("renamed".to_string()), false), "renamed");
    assert_eq!(crate_path(CrateLookup::Named("renamed".to_string()), true), "renamed");
    assert_eq!(crate_path(CrateLookup::Itself, true), "array_as_struct");
    assert_eq!(crate_path(CrateLookup::Itself, false), "crate");
}
