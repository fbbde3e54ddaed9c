//! The decisions of `#[derive(HasField)]`.
//!
//! The derive reads the item it is applied to and implements [`crate::field::HasField`] once
//! for every named field marked with the `#[field]` attribute. This module holds what the
//! derive decides, over a description of the item: which fields get an implementation, and
//! which items are refused.

use vstd::prelude::*;

verus! {

/// A field of a struct, as the derive reads it.
#[derive(Clone, Copy, Debug, PartialEq, Eq, Structural)]
pub struct FieldDecl {
    /// Whether the field carries the `#[field]` attribute.
    pub marked: bool,
    /// Whether the field has a name.
    pub named: bool,
}

/// The fields of a struct, as the derive reads them.
#[derive(Clone, Debug)]
pub enum StructFields {
    /// Fields with names, in declaration order.
    Named(Vec<FieldDecl>),
    /// Fields without names (a tuple struct).
    Unnamed,
    /// No fields (a unit struct).
    Unit,
}

/// The item that the derive is applied to.
#[derive(Clone, Debug)]
pub enum DeriveItem {
    /// A struct with its fields.
    Struct(StructFields),
    /// An enum.
    Enum,
    /// A union.
    Union,
}

/// Why the derive refuses an item.
#[derive(Clone, Copy, Debug, PartialEq, Eq, Structural)]
pub enum DeriveError {
    /// The struct does not have named fields.
    NotNamedFields,
    /// The item is not a struct.
    NotStruct,
}

impl DeriveError {
    /// The message that the derive reports.
    pub fn message(&self) -> (r: &'static str)
        ensures
            *self == DeriveError::NotNamedFields ==> r@
                == "`#[derive(HasField)]` only supports structs with named fields"@,
            *self == DeriveError::NotStruct ==> r@
                == "`#[derive(HasField)]` only supports structs"@,
    {
        match self {
            DeriveError::NotNamedFields => "`#[derive(HasField)]` only supports structs with named fields",
            DeriveError::NotStruct => "`#[derive(HasField)]` only supports structs",
        }
    }
}

/// Whether a field gets an implementation: it is marked and has a name.
pub open spec fn gets_impl(f: FieldDecl) -> bool {
    f.marked && f.named
}

/// The indices, in increasing order, of the first `n` fields that get an implementation.
pub open spec fn impl_indices(fields: Seq<FieldDecl>, n: nat) -> Seq<usize>
    decreases n,
{
    if n == 0 {
        Seq::empty()
    } else {
        let prev = impl_indices(fields, (n - 1) as nat);
        if gets_impl(fields[n - 1]) {
            prev.push((n - 1) as usize)
        } else {
            prev
        }
    }
}

/// The derive implements the trait exactly for the marked, named fields, once each, in
/// declaration order: the indices are in range, strictly increasing, each names a field that
/// gets an implementation, and every such field among the first `n` is named.
pub proof fn lemma_impl_indices_exact(fields: Seq<FieldDecl>, n: nat)
    requires
        n <= fields.len() <= usize::MAX,
    ensures
        forall|k: int|
            0 <= k < impl_indices(fields, n).len() ==> #[trigger] impl_indices(fields, n)[k] < n
                && gets_impl(fields[impl_indices(fields, n)[k] as int]),
        forall|j: int, k: int|
            0 <= j < k < impl_indices(fields, n).len() ==> #[trigger] impl_indices(fields, n)[j]
                < #[trigger] impl_indices(fields, n)[k],
        forall|i: int|
            0 <= i < n && #[trigger] gets_impl(fields[i]) ==> impl_indices(fields, n).contains(
                i as usize,
            ),
    decreases n,
{
    if n > 0 {
        let m = (n - 1) as nat;
        lemma_impl_indices_exact(fields, m);
        let prev = impl_indices(fields, m);
        let cur = impl_indices(fields, n);
        if gets_impl(fields[m as int]) {
            assert(cur == prev.push(m as usize));
            assert forall|j: int, k: int| 0 <= j < k < cur.len() implies #[trigger] cur[j]
                < #[trigger] cur[k] by {
                if k == prev.len() {
                    assert(prev[j] < m);
                }
            }
            assert(cur.contains(m as usize)) by {
                assert(cur[prev.len() as int] == m as usize);
            }
            assert forall|i: int| 0 <= i < n && #[trigger] gets_impl(fields[i]) implies cur.contains(
                i as usize,
            ) by {
                if i < m {
                    let k = choose|k: int| 0 <= k < prev.len() && prev[k] == i as usize;
                    assert(cur[k] == i as usize);
                }
            }
        } else {
            assert forall|i: int| 0 <= i < n && #[trigger] gets_impl(fields[i]) implies cur.contains(
                i as usize,
            ) by {
                assert(i < m);
            }
        }
    }
}

/// The indices of the fields of a struct that get an implementation, or the reason the
/// struct is refused.
pub open spec fn struct_impls(fields: StructFields) -> Result<Seq<usize>, DeriveError> {
    match fields {
        StructFields::Named(v) => Ok(impl_indices(v@, v@.len())),
        _ => Err(DeriveError::NotNamedFields),
    }
}

/// The indices of the fields of an item that get an implementation, or the reason the item
/// is refused.
pub open spec fn item_impls(item: DeriveItem) -> Result<Seq<usize>, DeriveError> {
    match item {
        DeriveItem::Struct(fields) => struct_impls(fields),
        _ => Err(DeriveError::NotStruct),
    }
}

/// The view of a result of [`handle_struct`] or [`has_field`].
pub open spec fn result_view(r: Result<Vec<usize>, DeriveError>) -> Result<Seq<usize>, DeriveError> {
    match r {
        Ok(v) => Ok(v@),
        Err(e) => Err(e),
    }
}

/// Decides which fields of a struct get an implementation: the named fields marked with
/// `#[field]`, in declaration order. Only structs with named fields are accepted.
pub fn handle_struct(fields: &StructFields) -> (r: Result<Vec<usize>, DeriveError>)
    ensures
        result_view(r) == struct_impls(*fields),
{
    match fields {
        StructFields::Named(named) => {
            let mut impls: Vec<usize> = Vec::new();
            let mut i: usize = 0;
            while i < named.len()
                invariant
                    0 <= i <= named@.len(),
                    impls@ == impl_indices(named@, i as nat),
                decreases named@.len() - i,
            {
                let field = named[i];
                if field.marked && field.named {
                    impls.push(i);
                }
                i = i + 1;
            }
            Ok(impls)
        },
        _ => Err(DeriveError::NotNamedFields),
    }
}

/// Decides which fields of an item get an implementation. Only structs are accepted.
pub fn has_field(input: &DeriveItem) -> (r: Result<Vec<usize>, DeriveError>)
    ensures
        result_view(r) == item_impls(*input),
{
    match input {
        DeriveItem::Struct(fields) => handle_struct(fields),
        _ => Err(DeriveError::NotStruct),
    }
}

} // verus!
