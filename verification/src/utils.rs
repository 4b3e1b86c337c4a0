//! Small serialization predicates shared by the endpoint modules.

use vstd::prelude::*;

use crate::apis::OptionId;

verus! {

/// True when a value equals its type's default; used to omit query and body
/// fields that carry their default value.
pub fn is_default<T: Default + PartialEq>(a: &T) -> bool {
    *a == T::default()
}

/// True when an optional identifier is absent; used to omit such fields
/// from serialized requests.
pub fn option_id_is_none(id: &OptionId) -> (r: bool)
    ensures
        r == (*id is Absent),
{
    id.is_none()
}

} // verus!
