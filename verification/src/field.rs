//! Field types to describe a field inside a struct.
//!
//! Memory locations are given as byte addresses. A field of a struct lies at a fixed byte
//! offset from the start of the struct, so the address of the field and the address of the
//! struct that contains it are each computed from the other.

use vstd::prelude::*;

verus! {

/// A field.
///
/// The generic type `T` is usually the type that contains the field. For some field types, it
/// needs to be generic over the type containing it, because it needs to be initialized with
/// container-type-specific callbacks. For other types, simply implement [`Field<T>`] for all `T`
/// to indicate there is no restriction.
pub trait Field<T>: Sized {}

/// A struct `T` that has a field `F`.
///
/// The field lies [`HasField::FIELD_OFFSET`] bytes after the start of the struct.
/// [`HasField::raw_get_field`] and [`HasField::field_container_of`] are true inverses of each
/// other (see [`lemma_field_container_inverse`]).
pub trait HasField<T, F: Field<T>>: Sized {
    /// The byte offset of the field inside the struct.
    const FIELD_OFFSET: usize;

    /// Returns the address of the field of the struct at address `ptr`.
    fn raw_get_field(ptr: usize) -> (r: usize)
        requires
            ptr + Self::FIELD_OFFSET <= usize::MAX,
        ensures
            r == ptr + Self::FIELD_OFFSET,
    {
        ptr + Self::FIELD_OFFSET
    }

    /// Returns the address of the struct whose field is at address `ptr`.
    fn field_container_of(ptr: usize) -> (r: usize)
        requires
            Self::FIELD_OFFSET <= ptr,
        ensures
            r == ptr - Self::FIELD_OFFSET,
    {
        ptr - Self::FIELD_OFFSET
    }
}

/// Getting the field of a struct and then the container of that field gives back the struct,
/// and getting the container of a field and then its field gives back the field.
pub proof fn lemma_field_container_inverse<S: HasField<T, F>, T, F: Field<T>>(ptr: int)
    ensures
        (ptr + S::FIELD_OFFSET) - S::FIELD_OFFSET == ptr,
        (ptr - S::FIELD_OFFSET) + S::FIELD_OFFSET == ptr,
{
}

} // verus!
