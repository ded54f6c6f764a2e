//! The model of an input declaration.
//!
//! A declaration to transform is held as plain values: attributes and
//! visibilities as their token spellings, generic parameters as one of the
//! three parameter kinds, and every type expression as its token spelling
//! with the delimiters kept, so that two type expressions compare equal
//! exactly when their syntactic trees are equal.

use vstd::prelude::*;

verus! {

/// One token in the spelling of a type expression.  `Word` holds an
/// identifier, keyword, lifetime or literal; `Mark` holds one punctuation
/// or delimiter character.
pub enum TyTok {
    Word(String),
    Mark(char),
}

/// A type expression, held as its token spelling.  Delimiters and path
/// qualifiers are tokens of their own, so the spelling determines the
/// whole syntactic tree: generic-argument positions, path qualifications
/// and tuple or array shapes are all part of the comparison.
pub struct Ty {
    pub toks: Vec<TyTok>,
}

/// Token equality: words by their characters, marks by the character.
pub open spec fn tok_eq(a: TyTok, b: TyTok) -> bool {
    match (a, b) {
        (TyTok::Word(x), TyTok::Word(y)) => x@ == y@,
        (TyTok::Mark(x), TyTok::Mark(y)) => x == y,
        _ => false,
    }
}

/// Structural equality of two type expressions: the same tokens in the
/// same order.
pub open spec fn ty_eq_spec(a: Ty, b: Ty) -> bool {
    &&& a.toks@.len() == b.toks@.len()
    &&& forall|i: int| 0 <= i < a.toks@.len() ==> tok_eq(#[trigger] a.toks@[i], b.toks@[i])
}

pub proof fn lemma_tok_eq_refl(t: TyTok)
    ensures
        tok_eq(t, t),
{
    match t {
        TyTok::Word(x) => {
            assert(x@ == x@);
        },
        TyTok::Mark(c) => {
        },
    }
}

pub proof fn lemma_ty_eq_refl(a: Ty)
    ensures
        ty_eq_spec(a, a),
{
    assert forall|i: int| 0 <= i < a.toks@.len() implies tok_eq(#[trigger] a.toks@[i], a.toks@[i]) by {
        lemma_tok_eq_refl(a.toks@[i]);
    }
}

pub proof fn lemma_tok_eq_sym(a: TyTok, b: TyTok)
    requires
        tok_eq(a, b),
    ensures
        tok_eq(b, a),
{
    match (a, b) {
        (TyTok::Word(x), TyTok::Word(y)) => {
            assert(y@ == x@);
        },
        _ => {},
    }
}

pub proof fn lemma_tok_eq_trans(a: TyTok, b: TyTok, c: TyTok)
    requires
        tok_eq(a, b),
        tok_eq(b, c),
    ensures
        tok_eq(a, c),
{
    match (a, b) {
        (TyTok::Word(x), TyTok::Word(y)) => {},
        _ => {},
    }
}

pub proof fn lemma_ty_eq_sym(a: Ty, b: Ty)
    requires
        ty_eq_spec(a, b),
    ensures
        ty_eq_spec(b, a),
{
    assert forall|i: int| 0 <= i < b.toks@.len() implies tok_eq(#[trigger] b.toks@[i], a.toks@[i]) by {
        lemma_tok_eq_sym(a.toks@[i], b.toks@[i]);
    }
}

pub proof fn lemma_ty_eq_trans(a: Ty, b: Ty, c: Ty)
    requires
        ty_eq_spec(a, b),
        ty_eq_spec(b, c),
    ensures
        ty_eq_spec(a, c),
{
    assert forall|i: int| 0 <= i < a.toks@.len() implies tok_eq(#[trigger] a.toks@[i], c.toks@[i]) by {
        lemma_tok_eq_trans(a.toks@[i], b.toks@[i], c.toks@[i]);
    }
}

/// Token equality, decided.
pub fn tok_matches(a: &TyTok, b: &TyTok) -> (r: bool)
    ensures
        r == tok_eq(*a, *b),
{
    match (a, b) {
        (TyTok::Word(x), TyTok::Word(y)) => x.eq(y),
        (TyTok::Mark(x), TyTok::Mark(y)) => *x == *y,
        _ => false,
    }
}

/// Structural equality of two type expressions, decided.
pub fn ty_matches(a: &Ty, b: &Ty) -> (r: bool)
    ensures
        r == ty_eq_spec(*a, *b),
{
    if a.toks.len() != b.toks.len() {
        return false;
    }
    let n = a.toks.len();
    let mut i: usize = 0;
    while i < n
        invariant
            n == a.toks@.len(),
            b.toks@.len() == n,
            i <= n,
            forall|j: int| 0 <= j < i ==> tok_eq(#[trigger] a.toks@[j], b.toks@[j]),
        decreases n - i,
    {
        if !tok_matches(&a.toks[i], &b.toks[i]) {
            return false;
        }
        i += 1;
    }
    true
}

/// A copy of one token, equal to the original.
pub fn copy_tok(t: &TyTok) -> (r: TyTok)
    ensures
        tok_eq(r, *t),
{
    match t {
        TyTok::Word(s) => TyTok::Word(s.clone()),
        TyTok::Mark(c) => TyTok::Mark(*c),
    }
}

/// A copy of a type expression, structurally equal to the original.
pub fn copy_ty(t: &Ty) -> (r: Ty)
    ensures
        ty_eq_spec(r, *t),
{
    let mut toks: Vec<TyTok> = Vec::new();
    let n = t.toks.len();
    let mut i: usize = 0;
    while i < n
        invariant
            n == t.toks@.len(),
            i <= n,
            toks@.len() == i,
            forall|j: int| 0 <= j < i ==> tok_eq(#[trigger] toks@[j], t.toks@[j]),
        decreases n - i,
    {
        toks.push(copy_tok(&t.toks[i]));
        i += 1;
    }
    Ty { toks }
}

/// The empty-tuple type, to which a declaration with no fields degrades.
pub open spec fn is_unit_ty(t: Ty) -> bool {
    &&& t.toks@.len() == 2
    &&& t.toks@[0] == TyTok::Mark('(')
    &&& t.toks@[1] == TyTok::Mark(')')
}

/// Construct the empty-tuple type.
pub fn unit_ty() -> (r: Ty)
    ensures
        is_unit_ty(r),
{
    let mut toks: Vec<TyTok> = Vec::new();
    toks.push(TyTok::Mark('('));
    toks.push(TyTok::Mark(')'));
    Ty { toks }
}

/// One generic parameter of the input declaration.  Attributes, bounds,
/// the type of a const-value parameter and defaults are carried as their
/// token spellings: the transform propagates them and never reads inside
/// them.
pub enum GenParam {
    Lifetime { attrs: Vec<String>, name: String, bounds: Vec<String> },
    TypeParam { attrs: Vec<String>, name: String, bounds: Vec<String>, default_ty: Option<String> },
    ConstParam { attrs: Vec<String>, name: String, val_ty: String, default_val: Option<String> },
}

/// The name of a generic parameter.
pub open spec fn gen_param_name(p: GenParam) -> Seq<char> {
    match p {
        GenParam::Lifetime { name, .. } => name@,
        GenParam::TypeParam { name, .. } => name@,
        GenParam::ConstParam { name, .. } => name@,
    }
}

/// One field descriptor of the input declaration.  `name` is `None` for a
/// positional field, which the transform rejects.  `ty_span` locates the
/// field's type expression for diagnostics.
pub struct Field {
    pub attrs: Vec<String>,
    pub vis: String,
    pub name: Option<String>,
    pub ty: Ty,
    pub ty_span: u32,
}

/// The payload of the input declaration.
pub enum DeclBody {
    Struct { fields: Vec<Field> },
    Enum,
    Union,
}

/// The input declaration: the parsed record to transform.  `span` locates
/// the whole declaration for diagnostics.
pub struct Decl {
    pub span: u32,
    pub attrs: Vec<String>,
    pub vis: String,
    pub ident: String,
    pub generics: Vec<GenParam>,
    pub body: DeclBody,
}

/// How serious a diagnostic is: `Fatal` aborts the transform, `Info`
/// accompanies a fatal diagnostic with context.
#[derive(Clone, Copy, PartialEq, Eq, Structural, Debug)]
pub enum Severity {
    Info,
    Fatal,
}

/// What a diagnostic reports.
#[derive(Clone, Copy, PartialEq, Eq, Structural, Debug)]
pub enum DiagKind {
    /// The declaration is not a product of named fields.
    UnsupportedShape,
    /// The first established field type, which a later field contradicts.
    MismatchEarlier,
    /// A field type that contradicts the first established field type.
    MismatchCurrent,
}

/// One diagnostic: a severity, the span it points at, and what it reports.
#[derive(Clone, Copy, PartialEq, Eq, Structural, Debug)]
pub struct Diagnostic {
    pub severity: Severity,
    pub span: u32,
    pub kind: DiagKind,
}

/// The message text of each diagnostic kind.
pub open spec fn kind_message(k: DiagKind) -> Seq<char> {
    match k {
        DiagKind::UnsupportedShape => "only named-field structs are supported"@,
        DiagKind::MismatchEarlier => "type did not match future fields"@,
        DiagKind::MismatchCurrent => "type did not match previous fields"@,
    }
}

impl Diagnostic {
    /// The message this diagnostic carries.
    pub fn message(&self) -> (r: &'static str)
        ensures
            r@ == kind_message(self.kind),
    {
        match self.kind {
            DiagKind::UnsupportedShape => "only named-field structs are supported",
            DiagKind::MismatchEarlier => "type did not match future fields",
            DiagKind::MismatchCurrent => "type did not match previous fields",
        }
    }
}

} // verus!
