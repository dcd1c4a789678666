//! The `name` column of the rooms model.
use vstd::prelude::*;

use crate::db::rooms::{OrderByParam, SetParam, UniqueWhereParam};
use crate::db::value::{sel, Selection};
use crate::db::SortOrder;

verus! {

/// Sets the column's value.
pub fn set(value: String) -> (r: SetParam)
    ensures
        r == SetParam::SetName(value),
{
    SetParam::SetName(value)
}

/// Orders results by the column.
pub fn order(direction: SortOrder) -> (r: OrderByParam)
    ensures
        r == OrderByParam::Name(direction),
{
    OrderByParam::Name(direction)
}

/// Filters for the row whose column equals the value.
pub fn equals(value: String) -> (r: UniqueWhereParam)
    ensures
        r == UniqueWhereParam::NameEquals(value),
{
    UniqueWhereParam::NameEquals(value)
}

/// Selecting this column when including relations.
pub struct Include;

impl Include {
    /// The column as a selection.
    pub fn to_selection(self) -> (r: Selection)
        ensures
            r.field@ == "name"@,
    {
        sel("name")
    }
}

/// Selecting this column in a narrowed selection.
pub struct Select;

impl Select {
    /// The column as a selection.
    pub fn to_selection(self) -> (r: Selection)
        ensures
            r.field@ == "name"@,
    {
        sel("name")
    }
}

} // verus!
