//! Array-backed field structs.
//!
//! A named-field record whose fields all share one type can be stored as a
//! fixed-size array without losing named access.  This crate holds the
//! transformation that performs that rewrite: it consumes a model of a
//! field-struct declaration, checks that every field shares one declared
//! type, and produces the bundle of synthetic declarations that back the
//! record with an array (the wrapper, its value form, its borrowed views
//! and a name-to-position index).  It also holds the [`ArrayStruct`]
//! interface that every generated wrapper offers, and a wrapper model whose
//! conversions are proved to round-trip.

use vstd::prelude::*;

pub mod decl;
pub mod laws;
pub mod transform;
pub mod wrapper;

verus! {

/// The interface of a generated array-backed wrapper.
///
/// `Value` is the owned record form (the fields in declaration order),
/// `Array` is the underlying fixed-size array form, and `Index` is the
/// marker that maps field names to array positions.  The two spec
/// functions tie the interface together: `wrapped` is the array a wrapper
/// holds, and `value_of` is the record read off from an array.  Every
/// conversion is specified against those two, so the round-trip laws hold
/// of any implementation.
pub trait ArrayStruct: Sized {
    /// The owned record form of the wrapper.
    type Value;

    /// The underlying fixed-size array form of the wrapper.
    type Array;

    /// The marker carrying one position function per field name.
    type Index;

    /// The array this wrapper holds.
    spec fn wrapped(self) -> Self::Array;

    /// The record read off from an array, field for field in declaration
    /// order.
    spec fn value_of(a: Self::Array) -> Self::Value;

    /// Construct the wrapper from its record form.
    fn from_val(value: Self::Value) -> (r: Self)
        ensures
            Self::value_of(r.wrapped()) == value,
    ;

    /// Recover the record form of the wrapper.
    fn val(self) -> (r: Self::Value)
        ensures
            r == Self::value_of(self.wrapped()),
    ;

    /// Construct the wrapper from its underlying array.
    fn from_array(array: Self::Array) -> (r: Self)
        ensures
            r.wrapped() == array,
    ;

    /// Recover the underlying array of the wrapper.
    fn to_array(self) -> (r: Self::Array)
        ensures
            r == self.wrapped(),
    ;
}

} // verus!
