//! The runtime face of a generated bundle.
//!
//! At runtime the only data a generated type holds is a fixed-size array
//! of one element type.  [`Wrapper`] models that array wrapper: its value
//! form is the field values in declaration order, and its borrowed views
//! are reads and writes through a field's position.  [`NameIndex`] models
//! the index marker: the table that maps each field name to its zero-based
//! position.  The two view-type builders spell the per-field types of the
//! borrowed companion records.

use vstd::prelude::*;

use crate::decl::{copy_tok, tok_eq, Ty, TyTok};

verus! {

/// One entry of the name-to-position index.
pub struct IndexEntry {
    pub name: String,
    pub position: usize,
}

/// The index marker: one position per field name, in declaration order.
pub struct NameIndex {
    pub entries: Vec<IndexEntry>,
}

/// The position the first entry at or after `i` with the given name maps
/// to, if any.
pub open spec fn lookup_from(entries: Seq<IndexEntry>, name: Seq<char>, i: int) -> Option<usize>
    decreases entries.len() - i,
{
    if i < 0 || i >= entries.len() {
        None
    } else if entries[i].name@ == name {
        Some(entries[i].position)
    } else {
        lookup_from(entries, name, i + 1)
    }
}

/// The position the given field name maps to, if any.
pub open spec fn lookup_spec(entries: Seq<IndexEntry>, name: Seq<char>) -> Option<usize> {
    lookup_from(entries, name, 0)
}

impl NameIndex {
    /// The position of the named field: the first entry carrying the
    /// name, or `None` when no field has it.
    pub fn position_of(&self, name: &String) -> (r: Option<usize>)
        ensures
            r == lookup_spec(self.entries@, name@),
    {
        let n = self.entries.len();
        let mut i: usize = 0;
        while i < n
            invariant
                n == self.entries@.len(),
                i <= n,
                lookup_spec(self.entries@, name@) == lookup_from(self.entries@, name@, i as int),
            decreases n - i,
        {
            if self.entries[i].name.eq(name) {
                return Some(self.entries[i].position);
            }
            i += 1;
        }
        None
    }
}

/// The lifetime name the borrowed companion records are parameterized by.
pub open spec fn view_lifetime() -> Seq<char> {
    "'__array_as_struct"@
}

/// The keyword that marks an exclusive borrow.
pub open spec fn mut_word() -> Seq<char> {
    "mut"@
}

/// `t` spells a shared borrow of `elem` under the view lifetime.
pub open spec fn is_shared_view_ty(t: Ty, elem: Ty) -> bool {
    &&& t.toks@.len() == elem.toks@.len() + 2
    &&& t.toks@[0] == TyTok::Mark('&')
    &&& t.toks@[1] matches TyTok::Word(s) && s@ == view_lifetime()
    &&& forall|k: int| 0 <= k < elem.toks@.len() ==> tok_eq(#[trigger] t.toks@[k + 2], elem.toks@[k])
}

/// `t` spells an exclusive borrow of `elem` under the view lifetime.
pub open spec fn is_exclusive_view_ty(t: Ty, elem: Ty) -> bool {
    &&& t.toks@.len() == elem.toks@.len() + 3
    &&& t.toks@[0] == TyTok::Mark('&')
    &&& t.toks@[1] matches TyTok::Word(s) && s@ == view_lifetime()
    &&& t.toks@[2] matches TyTok::Word(s) && s@ == mut_word()
    &&& forall|k: int| 0 <= k < elem.toks@.len() ==> tok_eq(#[trigger] t.toks@[k + 3], elem.toks@[k])
}

/// The per-field type of the by-reference companion record: a shared
/// borrow of the unified element type.
pub fn shared_view_ty(elem: &Ty) -> (r: Ty)
    ensures
        is_shared_view_ty(r, *elem),
{
    let mut toks: Vec<TyTok> = Vec::new();
    toks.push(TyTok::Mark('&'));
    toks.push(TyTok::Word("'__array_as_struct".to_owned()));
    let n = elem.toks.len();
    let mut j: usize = 0;
    while j < n
        invariant
            n == elem.toks@.len(),
            j <= n,
            toks@.len() == j + 2,
            toks@[0] == TyTok::Mark('&'),
            toks@[1] matches TyTok::Word(s) && s@ == view_lifetime(),
            forall|k: int| 0 <= k < j ==> tok_eq(#[trigger] toks@[k + 2], elem.toks@[k]),
        decreases n - j,
    {
        toks.push(copy_tok(&elem.toks[j]));
        j += 1;
    }
    Ty { toks }
}

/// The per-field type of the by-mutable-reference companion record: an
/// exclusive borrow of the unified element type.
pub fn exclusive_view_ty(elem: &Ty) -> (r: Ty)
    ensures
        is_exclusive_view_ty(r, *elem),
{
    let mut toks: Vec<TyTok> = Vec::new();
    toks.push(TyTok::Mark('&'));
    toks.push(TyTok::Word("'__array_as_struct".to_owned()));
    toks.push(TyTok::Word("mut".to_owned()));
    let n = elem.toks.len();
    let mut j: usize = 0;
    while j < n
        invariant
            n == elem.toks@.len(),
            j <= n,
            toks@.len() == j + 3,
            toks@[0] == TyTok::Mark('&'),
            toks@[1] matches TyTok::Word(s) && s@ == view_lifetime(),
            toks@[2] matches TyTok::Word(s) && s@ == mut_word(),
            forall|k: int| 0 <= k < j ==> tok_eq(#[trigger] toks@[k + 3], elem.toks@[k]),
        decreases n - j,
    {
        toks.push(copy_tok(&elem.toks[j]));
        j += 1;
    }
    Ty { toks }
}

/// The array wrapper a transformed declaration compiles to, modeled over
/// the field values in declaration order.  Its view is the sequence of
/// stored values; the value form and the array form are both that
/// sequence, so every conversion is specified against one model.
pub struct Wrapper<T> {
    pub cells: Vec<T>,
}

impl<T> View for Wrapper<T> {
    type V = Seq<T>;

    open spec fn view(&self) -> Seq<T> {
        self.cells@
    }
}

impl<T> Wrapper<T> {
    /// Construct the wrapper from the field values in declaration order.
    pub fn from_val(value: Vec<T>) -> (r: Self)
        ensures
            r@ == value@,
    {
        Wrapper { cells: value }
    }

    /// Recover the field values in declaration order.
    pub fn val(self) -> (r: Vec<T>)
        ensures
            r@ == self@,
    {
        self.cells
    }

    /// Construct the wrapper from its underlying array.
    pub fn from_array(array: Vec<T>) -> (r: Self)
        ensures
            r@ == array@,
    {
        Wrapper { cells: array }
    }

    /// Recover the underlying array.
    pub fn to_array(self) -> (r: Vec<T>)
        ensures
            r@ == self@,
    {
        self.cells
    }

    /// The number of fields the wrapper stores.
    pub fn len(&self) -> (r: usize)
        ensures
            r == self@.len(),
    {
        self.cells.len()
    }

    /// Read one field through its position: what the by-reference view
    /// observes for that field.
    pub fn field_ref(&self, i: usize) -> (r: &T)
        requires
            i < self@.len(),
        ensures
            *r == self@[i as int],
    {
        &self.cells[i]
    }

    /// Write one field through its position: what a write through the
    /// by-mutable-reference view or through indexing performs.
    pub fn set_field(&mut self, i: usize, v: T)
        requires
            i < old(self)@.len(),
        ensures
            final(self)@ == old(self)@.update(i as int, v),
    {
        self.cells.set(i, v);
    }
}

impl<T> crate::ArrayStruct for Wrapper<T> {
    type Value = Vec<T>;

    type Array = Vec<T>;

    type Index = NameIndex;

    open spec fn wrapped(self) -> Vec<T> {
        self.cells
    }

    open spec fn value_of(a: Vec<T>) -> Vec<T> {
        a
    }

    fn from_val(value: Vec<T>) -> Self {
        Wrapper { cells: value }
    }

    fn val(self) -> Vec<T> {
        self.cells
    }

    fn from_array(array: Vec<T>) -> Self {
        Wrapper { cells: array }
    }

    fn to_array(self) -> Vec<T> {
        self.cells
    }
}

} // verus!
