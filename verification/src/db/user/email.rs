//! The `email` column of the user model.
use vstd::prelude::*;

use crate::db::user::{OrderByParam, SetParam, UniqueWhereParam};
use crate::db::value::{sel, Selection};
use crate::db::SortOrder;

verus! {

/// Sets the column's value.
pub fn set(value: String) -> (r: SetParam)
    ensures
        r == SetParam::SetEmail(value),
{
    SetParam::SetEmail(value)
}

/// Orders results by the column.
pub fn order(direction: SortOrder) -> (r: OrderByParam)
    ensures
        r == OrderByParam::Email(direction),
{
    OrderByParam::Email(direction)
}

/// Filters for the row whose column equals the value.
pub fn equals(value: String) -> (r: UniqueWhereParam)
    ensures
        r == UniqueWhereParam::EmailEquals(value),
{
    UniqueWhereParam::EmailEquals(value)
}

/// Selecting this column when including relations.
pub struct Include;

impl Include {
    /// The column as a selection.
    pub fn to_selection(self) -> (r: Selection)
        ensures
            r.field@ == "email"@,
    {
        sel("email")
    }
}

/// Selecting this column in a narrowed selection.
pub struct Select;

impl Select {
    /// The column as a selection.
    pub fn to_selection(self) -> (r: Selection)
        ensures
            r.field@ == "email"@,
    {
        sel("email")
    }
}

} // verus!
