//! The `message` column of the messages model.
use vstd::prelude::*;

use crate::db::filters::StringFilter;
use crate::db::messages::{OrderByParam, SetParam, WhereParam};
use crate::db::value::{sel, Selection};
use crate::db::SortOrder;

verus! {

/// Sets the column's value.
pub fn set(value: String) -> (r: SetParam)
    ensures
        r == SetParam::SetMessage(value),
{
    SetParam::SetMessage(value)
}

/// Orders results by the column.
pub fn order(direction: SortOrder) -> (r: OrderByParam)
    ensures
        r == OrderByParam::Message(direction),
{
    OrderByParam::Message(direction)
}

/// Filters rows whose column equals the value.
pub fn equals(value: String) -> (r: WhereParam)
    ensures
        r == WhereParam::Message(StringFilter::Equals(value)),
{
    WhereParam::Message(StringFilter::Equals(value))
}

/// Selecting this column when including relations.
pub struct Include;

impl Include {
    /// The column as a selection.
    pub fn to_selection(self) -> (r: Selection)
        ensures
            r.field@ == "message"@,
    {
        sel("message")
    }
}

/// Selecting this column in a narrowed selection.
pub struct Select;

impl Select {
    /// The column as a selection.
    pub fn to_selection(self) -> (r: Selection)
        ensures
            r.field@ == "message"@,
    {
        sel("message")
    }
}

} // verus!
