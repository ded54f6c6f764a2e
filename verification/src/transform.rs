//! The struct-shape transform.
//!
//! One pure pass consumes the model of a field-struct declaration and
//! either produces the [`Artifact`] that describes the generated bundle,
//! or the exact sequence of diagnostics the declaration earns.  The pass
//! has three phases: a shape check (the payload must be a product of
//! named fields), generic normalization (a bare, names-only view of the
//! parameter list), and field unification (every field must declare one
//! structurally equal type).

use vstd::prelude::*;

use crate::decl::{
    copy_ty, is_unit_ty, ty_eq_spec, ty_matches, unit_ty, Decl, DeclBody, DiagKind, Diagnostic,
    Field, GenParam, Severity, Ty, lemma_ty_eq_refl,
};
use crate::wrapper::{IndexEntry, NameIndex};

verus! {

/// The fields of a declaration, or the empty sequence when the payload is
/// not a struct.
pub open spec fn decl_fields(d: Decl) -> Seq<Field> {
    match d.body {
        DeclBody::Struct { fields } => fields@,
        _ => Seq::empty(),
    }
}

/// The payload is a product of named fields: a struct, every field with a
/// name.
pub open spec fn shape_ok(d: Decl) -> bool {
    match d.body {
        DeclBody::Struct { fields } => forall|i: int|
            0 <= i < fields@.len() ==> (#[trigger] fields@[i]).name is Some,
        _ => false,
    }
}

/// Every field declares a type structurally equal to the first field's.
pub open spec fn all_types_match(fields: Seq<Field>) -> bool {
    forall|i: int| 0 <= i < fields.len() ==> ty_eq_spec((#[trigger] fields[i]).ty, fields[0].ty)
}

/// The fatal diagnostics the first `n` fields earn: one per field whose
/// type differs from the first field's, pointing at that field's type, in
/// field order.
pub open spec fn fatal_diags_upto(fields: Seq<Field>, n: int) -> Seq<Diagnostic>
    decreases n,
{
    if n <= 1 {
        Seq::empty()
    } else {
        fatal_diags_upto(fields, n - 1) + if ty_eq_spec(fields[n - 1].ty, fields[0].ty) {
            Seq::<Diagnostic>::empty()
        } else {
            seq![
                Diagnostic {
                    severity: Severity::Fatal,
                    span: fields[n - 1].ty_span,
                    kind: DiagKind::MismatchCurrent,
                },
            ]
        }
    }
}

/// The diagnostics field unification emits: nothing when every type
/// matches; otherwise one informational diagnostic at the first
/// established type, then the fatal diagnostics in field order.
pub open spec fn unify_diags(fields: Seq<Field>) -> Seq<Diagnostic> {
    if all_types_match(fields) {
        Seq::empty()
    } else {
        seq![
            Diagnostic {
                severity: Severity::Info,
                span: fields[0].ty_span,
                kind: DiagKind::MismatchEarlier,
            },
        ] + fatal_diags_upto(fields, fields.len() as int)
    }
}

/// The diagnostics a rejected declaration earns: one fatal diagnostic at
/// the whole declaration when the shape is wrong, else the unification
/// diagnostics.
pub open spec fn failure_diags(d: Decl) -> Seq<Diagnostic> {
    if !shape_ok(d) {
        seq![
            Diagnostic { severity: Severity::Fatal, span: d.span, kind: DiagKind::UnsupportedShape },
        ]
    } else {
        unify_diags(decl_fields(d))
    }
}

proof fn lemma_fatal_upto_empty(fields: Seq<Field>, n: int)
    requires
        n <= fields.len(),
        forall|j: int| 0 <= j < n ==> ty_eq_spec((#[trigger] fields[j]).ty, fields[0].ty),
    ensures
        fatal_diags_upto(fields, n) == Seq::<Diagnostic>::empty(),
    decreases n,
{
    if n <= 1 {
    } else {
        lemma_fatal_upto_empty(fields, n - 1);
        assert(fatal_diags_upto(fields, n) =~= Seq::<Diagnostic>::empty());
    }
}

/// The outcome of field unification: the unified field type and the
/// diagnostics, empty exactly when every field agrees.
pub struct Unified {
    pub ty: Ty,
    pub diags: Vec<Diagnostic>,
}

/// Walk the field list in declaration order against the first established
/// type.  A field whose type differs earns a fatal diagnostic at its own
/// type; the first such field is preceded by an informational diagnostic
/// at the established type.  The walk continues past a mismatch so one
/// pass reports every offending field.  An empty field list unifies to
/// the empty-tuple type.
pub fn unify_field_types(fields: &Vec<Field>) -> (r: Unified)
    ensures
        r.diags@ == unify_diags(fields@),
        fields@.len() == 0 ==> is_unit_ty(r.ty),
        fields@.len() > 0 ==> ty_eq_spec(r.ty, fields@[0].ty),
{
    if fields.len() == 0 {
        return Unified { ty: unit_ty(), diags: Vec::new() };
    }
    let unified = copy_ty(&fields[0].ty);
    let mut diags: Vec<Diagnostic> = Vec::new();
    let mut seen_mismatch = false;
    let n = fields.len();
    let mut i: usize = 1;
    proof {
        lemma_ty_eq_refl(fields@[0].ty);
    }
    while i < n
        invariant
            n == fields@.len(),
            1 <= i <= n,
            seen_mismatch == !(forall|j: int|
                0 <= j < i ==> ty_eq_spec((#[trigger] fields@[j]).ty, fields@[0].ty)),
            !seen_mismatch ==> diags@ == Seq::<Diagnostic>::empty(),
            seen_mismatch ==> diags@ == seq![
                Diagnostic {
                    severity: Severity::Info,
                    span: fields@[0].ty_span,
                    kind: DiagKind::MismatchEarlier,
                },
            ] + fatal_diags_upto(fields@, i as int),
        decreases n - i,
    {
        if !ty_matches(&fields[i].ty, &fields[0].ty) {
            let fatal = Diagnostic {
                severity: Severity::Fatal,
                span: fields[i].ty_span,
                kind: DiagKind::MismatchCurrent,
            };
            if !seen_mismatch {
                seen_mismatch = true;
                diags.push(Diagnostic {
                    severity: Severity::Info,
                    span: fields[0].ty_span,
                    kind: DiagKind::MismatchEarlier,
                });
                proof {
                    lemma_fatal_upto_empty(fields@, i as int);
                }
            }
            diags.push(fatal);
            proof {
                assert(diags@ =~= seq![
                    Diagnostic {
                        severity: Severity::Info,
                        span: fields@[0].ty_span,
                        kind: DiagKind::MismatchEarlier,
                    },
                ] + fatal_diags_upto(fields@, i + 1));
            }
        } else {
            proof {
                if seen_mismatch {
                    assert(fatal_diags_upto(fields@, i + 1) =~= fatal_diags_upto(fields@, i as int));
                }
            }
        }
        i += 1;
    }
    Unified { ty: unified, diags }
}

/// The bare, names-only view of one original parameter: the name is kept,
/// attributes, bounds and defaults are dropped, and a const-value
/// parameter becomes a plain type parameter.
pub open spec fn bare_of(p: GenParam, q: GenParam) -> bool {
    match p {
        GenParam::Lifetime { name: pname, .. } => match q {
            GenParam::Lifetime { attrs, name, bounds } => name@ == pname@ && attrs@.len() == 0
                && bounds@.len() == 0,
            _ => false,
        },
        GenParam::TypeParam { name: pname, .. } => bare_type_param(pname@, q),
        GenParam::ConstParam { name: pname, .. } => bare_type_param(pname@, q),
    }
}

/// A bare type parameter of the given name.
pub open spec fn bare_type_param(pname: Seq<char>, q: GenParam) -> bool {
    match q {
        GenParam::TypeParam { attrs, name, bounds, default_ty } => name@ == pname && attrs@.len()
            == 0 && bounds@.len() == 0 && default_ty is None,
        _ => false,
    }
}

/// Normalize the generics sequence into its bare reference form: names
/// only, with every const-value parameter reclassified as a type
/// parameter so the generated code can use the list wherever the type is
/// referenced.  This step never fails.
pub fn bare_params(params: &Vec<GenParam>) -> (r: Vec<GenParam>)
    ensures
        r@.len() == params@.len(),
        forall|i: int| 0 <= i < params@.len() ==> bare_of(#[trigger] params@[i], r@[i]),
{
    let mut r: Vec<GenParam> = Vec::new();
    let n = params.len();
    let mut i: usize = 0;
    while i < n
        invariant
            n == params@.len(),
            i <= n,
            r@.len() == i,
            forall|j: int| 0 <= j < i ==> bare_of(#[trigger] params@[j], r@[j]),
        decreases n - i,
    {
        let q = match &params[i] {
            GenParam::Lifetime { name, .. } => GenParam::Lifetime {
                attrs: Vec::new(),
                name: name.clone(),
                bounds: Vec::new(),
            },
            GenParam::TypeParam { name, .. } => GenParam::TypeParam {
                attrs: Vec::new(),
                name: name.clone(),
                bounds: Vec::new(),
                default_ty: None,
            },
            GenParam::ConstParam { name, .. } => GenParam::TypeParam {
                attrs: Vec::new(),
                name: name.clone(),
                bounds: Vec::new(),
                default_ty: None,
            },
        };
        r.push(q);
        i += 1;
    }
    r
}

/// A copy of a list of token spellings, equal to the original.
pub fn copy_strs(v: &Vec<String>) -> (r: Vec<String>)
    ensures
        r@ == v@,
{
    let mut r: Vec<String> = Vec::new();
    let n = v.len();
    let mut i: usize = 0;
    while i < n
        invariant
            n == v@.len(),
            i <= n,
            r@ == v@.subrange(0, i as int),
        decreases n - i,
    {
        r.push(v[i].clone());
        proof {
            assert(r@ =~= v@.subrange(0, i + 1));
        }
        i += 1;
    }
    proof {
        assert(v@.subrange(0, n as int) =~= v@);
    }
    r
}

/// One field of a synthetic companion type: the original field's
/// attributes, visibility and name, with the unified type.
pub struct SynthField {
    pub attrs: Vec<String>,
    pub vis: String,
    pub name: String,
    pub ty: Ty,
}

/// A synthetic field mirrors its source field and carries the unified
/// element type.
pub open spec fn synth_field_ok(f: Field, elem: Ty, s: SynthField) -> bool {
    &&& f.name matches Some(n) && s.name == n
    &&& s.vis == f.vis
    &&& s.attrs@ == f.attrs@
    &&& ty_eq_spec(s.ty, elem)
}

/// The synthetic field list mirrors the source field list in order.
pub open spec fn synth_fields_ok(fields: Seq<Field>, elem: Ty, out: Seq<SynthField>) -> bool {
    &&& out.len() == fields.len()
    &&& forall|i: int| 0 <= i < fields.len() ==> synth_field_ok(fields[i], elem, #[trigger] out[i])
}

/// The index entries map the i-th field name to position i, in
/// declaration order.
pub open spec fn index_ok(fields: Seq<Field>, entries: Seq<IndexEntry>) -> bool {
    &&& entries.len() == fields.len()
    &&& forall|i: int| 0 <= i < fields.len() ==> {
        &&& (#[trigger] entries[i]).position == i
        &&& fields[i].name matches Some(n) && entries[i].name == n
    }
}

/// The generated bundle, described by its constituents: the wrapper keeps
/// the declaration's identifier, visibility, attributes and generics; the
/// array holds `field_count` values of `elem_ty`; the value form mirrors
/// the fields; the borrowed views reuse the same field list with the view
/// types of [`crate::wrapper::shared_view_ty`] and
/// [`crate::wrapper::exclusive_view_ty`]; and the index maps each field
/// name to its position.  All five synthetic types take `generics_decl`
/// where they are declared and `generics_bare` where they are referenced.
pub struct Artifact {
    pub attrs: Vec<String>,
    pub vis: String,
    pub ident: String,
    pub generics_decl: Vec<GenParam>,
    pub generics_bare: Vec<GenParam>,
    pub elem_ty: Ty,
    pub field_count: usize,
    pub value_fields: Vec<SynthField>,
    pub index: NameIndex,
}

/// The artifact faithfully describes the declaration's generated bundle.
pub open spec fn artifact_ok(d: Decl, a: Artifact) -> bool {
    &&& a.ident == d.ident
    &&& a.vis == d.vis
    &&& a.attrs == d.attrs
    &&& a.generics_decl == d.generics
    &&& a.generics_bare@.len() == d.generics@.len()
    &&& forall|i: int|
        0 <= i < d.generics@.len() ==> bare_of(#[trigger] d.generics@[i], a.generics_bare@[i])
    &&& a.field_count == decl_fields(d).len()
    &&& if decl_fields(d).len() == 0 {
        is_unit_ty(a.elem_ty)
    } else {
        ty_eq_spec(a.elem_ty, decl_fields(d)[0].ty)
    }
    &&& synth_fields_ok(decl_fields(d), a.elem_ty, a.value_fields@)
    &&& index_ok(decl_fields(d), a.index.entries@)
}

/// Transform one declaration.  Returns the artifact exactly when the
/// payload is a product of named fields and every field declares one
/// structurally equal type; otherwise returns the diagnostics, with
/// nothing generated.
pub fn transform(decl: Decl) -> (r: Result<Artifact, Vec<Diagnostic>>)
    ensures
        r matches Ok(a) ==> shape_ok(decl) && all_types_match(decl_fields(decl)) && artifact_ok(
            decl,
            a,
        ),
        r matches Err(ds) ==> !(shape_ok(decl) && all_types_match(decl_fields(decl))) && ds@
            == failure_diags(decl),
{
    let Decl { span, attrs, vis, ident, generics, body } = decl;
    let fields: Vec<Field> = match body {
        DeclBody::Struct { fields } => fields,
        _ => {
            return Err(
                vec![
                    Diagnostic {
                        severity: Severity::Fatal,
                        span,
                        kind: DiagKind::UnsupportedShape,
                    },
                ],
            );
        },
    };
    let n = fields.len();
    let mut i: usize = 0;
    while i < n
        invariant
            n == fields@.len(),
            i <= n,
            forall|j: int| 0 <= j < i ==> (#[trigger] fields@[j]).name is Some,
            decl.body == (DeclBody::Struct { fields }),
            decl.span == span,
        decreases n - i,
    {
        match &fields[i].name {
            Some(_) => {},
            None => {
                return Err(
                    vec![
                        Diagnostic {
                            severity: Severity::Fatal,
                            span,
                            kind: DiagKind::UnsupportedShape,
                        },
                    ],
                );
            },
        }
        i += 1;
    }
    let unified = unify_field_types(&fields);
    let Unified { ty: elem, diags } = unified;
    if diags.len() > 0 {
        return Err(diags);
    }
    let bare = bare_params(&generics);
    let mut value_fields: Vec<SynthField> = Vec::new();
    let mut entries: Vec<IndexEntry> = Vec::new();
    let mut i: usize = 0;
    while i < n
        invariant
            n == fields@.len(),
            i <= n,
            forall|j: int| 0 <= j < n ==> (#[trigger] fields@[j]).name is Some,
            n == 0 ==> is_unit_ty(elem),
            n > 0 ==> ty_eq_spec(elem, fields@[0].ty),
            value_fields@.len() == i,
            forall|j: int|
                0 <= j < i ==> synth_field_ok(fields@[j], elem, #[trigger] value_fields@[j]),
            entries@.len() == i,
            forall|j: int| 0 <= j < i ==> {
                &&& (#[trigger] entries@[j]).position == j
                &&& fields@[j].name matches Some(nm) && entries@[j].name == nm
            },
        decreases n - i,
    {
        let nm: String = match &fields[i].name {
            Some(s) => s.clone(),
            None => vstd::pervasive::unreached(),
        };
        value_fields.push(SynthField {
            attrs: copy_strs(&fields[i].attrs),
            vis: fields[i].vis.clone(),
            name: nm.clone(),
            ty: copy_ty(&elem),
        });
        entries.push(IndexEntry { name: nm, position: i });
        i += 1;
    }
    Ok(
        Artifact {
            attrs,
            vis,
            ident,
            generics_decl: generics,
            generics_bare: bare,
            elem_ty: elem,
            field_count: n,
            value_fields,
            index: NameIndex { entries },
        },
    )
}

/// How the generated code names this crate: the outcome of the host
/// toolchain's lookup of the crate in the caller's manifest.
pub enum CrateLookup {
    Named(String),
    Itself,
}

/// The path prefix the generated code uses to reach this crate's items:
/// the found name when the caller depends on the crate under a name, the
/// crate's own name in documentation-test mode, and the `crate` keyword
/// otherwise.
pub fn crate_path(lookup: CrateLookup, doctest: bool) -> (r: String)
    ensures
        match lookup {
            CrateLookup::Named(nm) => r == nm,
            CrateLookup::Itself => r@ == if doctest {
                "array_as_struct"@
            } else {
                "crate"@
            },
        },
{
    match lookup {
        CrateLookup::Named(nm) => nm,
        CrateLookup::Itself => if doctest {
            "array_as_struct".to_owned()
        } else {
            "crate".to_owned()
        },
    }
}

} // verus!
