//! The laws of the transformation and of the generated surface, stated
//! over the spec functions the contracts use and proved once for every
//! declaration and every wrapper.

use vstd::prelude::*;

use crate::decl::{
    gen_param_name, is_unit_ty, lemma_ty_eq_sym, lemma_ty_eq_trans, ty_eq_spec, Decl, Field,
    GenParam,
};
use crate::transform::{
    all_types_match, artifact_ok, bare_of, decl_fields, index_ok, shape_ok, Artifact,
};
use crate::wrapper::{lookup_from, lookup_spec, IndexEntry, Wrapper};
use crate::ArrayStruct;

verus! {

/// The name of a field that has one.
pub open spec fn field_name(f: Field) -> Seq<char> {
    f.name.unwrap()@
}

/// No two fields share a name.
pub open spec fn distinct_names(fields: Seq<Field>) -> bool {
    forall|i: int, j: int|
        0 <= i < j < fields.len() ==> field_name(#[trigger] fields[i]) != field_name(
            #[trigger] fields[j],
        )
}

/// The unified type is one type for the whole declaration: when
/// unification succeeds, every two fields' declared types are
/// structurally equal, not merely each equal to the first.
pub proof fn lemma_unified_types_pairwise(fields: Seq<Field>)
    requires
        all_types_match(fields),
    ensures
        forall|i: int, j: int|
            0 <= i < fields.len() && 0 <= j < fields.len() ==> ty_eq_spec(
                (#[trigger] fields[i]).ty,
                (#[trigger] fields[j]).ty,
            ),
{
    assert forall|i: int, j: int|
        0 <= i < fields.len() && 0 <= j < fields.len() implies ty_eq_spec(
        (#[trigger] fields[i]).ty,
        (#[trigger] fields[j]).ty,
    ) by {
        lemma_ty_eq_sym(fields[j].ty, fields[0].ty);
        lemma_ty_eq_trans(fields[i].ty, fields[0].ty, fields[j].ty);
    }
}

/// Round-trip identity: a wrapper built from an array converts back to
/// the very same array, for every implementation of the interface.  The
/// premises are what `from_array` ensures of `s` built from `a`, and what
/// `to_array` ensures of `b` recovered from `s`.
pub proof fn lemma_array_round_trip<S: ArrayStruct>(a: S::Array, s: S, b: S::Array)
    requires
        s.wrapped() == a,
        b == s.wrapped(),
    ensures
        b == a,
{
}

/// Value round-trip: converting a value record to the wrapper and back is
/// the identity, for every implementation of the interface.  The premises
/// are what `from_val` ensures of `s` built from `v`, and what `val`
/// ensures of `r` recovered from `s`.
pub proof fn lemma_value_round_trip<S: ArrayStruct>(v: S::Value, s: S, r: S::Value)
    requires
        S::value_of(s.wrapped()) == v,
        r == S::value_of(s.wrapped()),
    ensures
        r == v,
{
}

/// Borrow views reflect live state: after writing one field through its
/// position (`set_field` ensures the premise of `w1`), reading the same
/// position observes the new value, and every other field is unchanged.
pub proof fn lemma_views_reflect_writes<T>(w0: Wrapper<T>, w1: Wrapper<T>, i: int, v: T)
    requires
        0 <= i < w0@.len(),
        w1@ == w0@.update(i, v),
    ensures
        w1@.len() == w0@.len(),
        w1@[i] == v,
        forall|j: int| 0 <= j < w0@.len() && j != i ==> w1@[j] == w0@[j],
{
}

proof fn lemma_lookup_from_hits(fields: Seq<Field>, entries: Seq<IndexEntry>, t: int, j: int)
    requires
        index_ok(fields, entries),
        0 <= j <= t < fields.len(),
        forall|k: int| j <= k < t ==> field_name(#[trigger] fields[k]) != field_name(fields[t]),
    ensures
        lookup_from(entries, field_name(fields[t]), j) == Some(t as usize),
    decreases t - j,
{
    assert(entries[j].name@ == field_name(fields[j]));
    if j < t {
        lemma_lookup_from_hits(fields, entries, t, j + 1);
    }
}

/// Index correctness: when the field names are distinct, the index maps
/// the i-th field's name to position i, so the N names map exactly onto
/// the positions 0 through N-1 with no collisions.
pub proof fn lemma_index_correct(fields: Seq<Field>, entries: Seq<IndexEntry>)
    requires
        index_ok(fields, entries),
        distinct_names(fields),
    ensures
        forall|i: int|
            0 <= i < fields.len() ==> lookup_spec(entries, field_name(#[trigger] fields[i]))
                == Some(i as usize),
        forall|i: int| 0 <= i < entries.len() ==> (#[trigger] entries[i]).position == i,
{
    assert forall|i: int| 0 <= i < fields.len() implies lookup_spec(
        entries,
        field_name(#[trigger] fields[i]),
    ) == Some(i as usize) by {
        lemma_lookup_from_hits(fields, entries, i, 0);
    }
}

/// Unit-type degradation: a declaration with zero fields produces an
/// artifact over a zero-length array of the empty-tuple type, a value
/// form with no fields and an index with no entries, so every name lookup
/// fails and the round-trip laws hold vacuously.
pub proof fn lemma_unit_degradation(d: Decl, a: Artifact)
    requires
        shape_ok(d),
        decl_fields(d).len() == 0,
        artifact_ok(d, a),
    ensures
        a.field_count == 0,
        is_unit_ty(a.elem_ty),
        a.value_fields@.len() == 0,
        a.index.entries@.len() == 0,
        forall|name: Seq<char>| #[trigger] lookup_spec(a.index.entries@, name) is None,
{
}

/// Generic pass-through: the bare reference form has one parameter per
/// original parameter, under the same name and in the same order; a
/// lifetime stays a lifetime, and type and const-value parameters both
/// come out as plain type parameters.  Every generated type takes the
/// same two parameter lists, so one artifact instantiated at different
/// arguments yields distinct types of the host language.
pub proof fn lemma_generic_pass_through(ps: Seq<GenParam>, bs: Seq<GenParam>)
    requires
        bs.len() == ps.len(),
        forall|i: int| 0 <= i < ps.len() ==> bare_of(#[trigger] ps[i], bs[i]),
    ensures
        forall|i: int|
            0 <= i < ps.len() ==> gen_param_name(#[trigger] bs[i]) == gen_param_name(ps[i]),
        forall|i: int|
            0 <= i < ps.len() ==> ((#[trigger] ps[i]) is Lifetime <==> bs[i] is Lifetime),
        forall|i: int|
            0 <= i < ps.len() ==> (!((#[trigger] ps[i]) is Lifetime) ==> bs[i] is TypeParam),
{
    assert forall|i: int| 0 <= i < ps.len() implies gen_param_name(#[trigger] bs[i])
        == gen_param_name(ps[i]) && ((ps[i]) is Lifetime <==> bs[i] is Lifetime) && (!((
    ps[i]) is Lifetime) ==> bs[i] is TypeParam) by {
        assert(bare_of(ps[i], bs[i]));
        match ps[i] {
            GenParam::Lifetime { .. } => {},
            GenParam::TypeParam { .. } => {},
            GenParam::ConstParam { .. } => {},
        }
    }
}

} // verus!
