//! The `ip` column of the user model.
use vstd::prelude::*;

use crate::db::filters::StringFilter;
use crate::db::user::{OrderByParam, SetParam, WhereParam};
use crate::db::value::{sel, Selection};
use crate::db::SortOrder;

verus! {

/// Sets the column's value.
pub fn set(value: String) -> (r: SetParam)
    ensures
        r == SetParam::SetIp(value),
{
    SetParam::SetIp(value)
}

/// Orders results by the column.
pub fn order(direction: SortOrder) -> (r: OrderByParam)
    ensures
        r == OrderByParam::Ip(direction),
{
    OrderByParam::Ip(direction)
}

/// Filters rows whose column equals the value.
pub fn equals(value: String) -> (r: WhereParam)
    ensures
        r == WhereParam::Ip(StringFilter::Equals(value)),
{
    WhereParam::Ip(StringFilter::Equals(value))
}

/// Selecting this column when including relations.
pub struct Include;

impl Include {
    /// The column as a selection.
    pub fn to_selection(self) -> (r: Selection)
        ensures
            r.field@ == "ip"@,
    {
        sel("ip")
    }
}

/// Selecting this column in a narrowed selection.
pub struct Select;

impl Select {
    /// The column as a selection.
    pub fn to_selection(self) -> (r: Selection)
        ensures
            r.field@ == "ip"@,
    {
        sel("ip")
    }
}

} // verus!
