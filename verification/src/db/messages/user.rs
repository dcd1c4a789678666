//! The `user` relation of the messages model: the user a message
//! belongs to.
use vstd::prelude::*;

use crate::db::messages::{SetParam, WhereParam};
use crate::db::value::{sel, Selection};

verus! {

/// A fetch of the related user row, with its arguments.
pub struct Fetch(pub crate::db::user::UniqueArgs);

impl Fetch {
    /// Also fetches a relation of the fetched row.
    pub fn with(self, params: crate::db::user::WithParam) -> (r: Self)
        ensures
            r.0.with_params@ == self.0.with_params@.push(params),
    {
        let mut args = self.0;
        args.with_params.push(params);
        Fetch(args)
    }
}

/// Fetches the related row.
pub fn fetch() -> (r: Fetch)
    ensures
        r.0.with_params@.len() == 0,
{
    Fetch(crate::db::user::UniqueArgs::new())
}

/// The row to connect in a write.
pub struct Connect(pub crate::db::user::UniqueWhereParam);

/// Connects the message to this row.
pub fn connect(value: crate::db::user::UniqueWhereParam) -> (r: SetParam)
    ensures
        r == SetParam::ConnectUser(value),
{
    SetParam::ConnectUser(value)
}

/// Filters messages whose related row passes the filters.
pub fn is(value: Vec<crate::db::user::WhereParam>) -> (r: WhereParam)
    ensures
        r == WhereParam::UserIs(value),
{
    WhereParam::UserIs(value)
}

/// Filters messages whose related row fails the filters.
pub fn is_not(value: Vec<crate::db::user::WhereParam>) -> (r: WhereParam)
    ensures
        r == WhereParam::UserIsNot(value),
{
    WhereParam::UserIsNot(value)
}

/// Including the relation, with a narrowed or widened selection.
pub enum Include {
    Select(Vec<crate::db::user::SelectParam>),
    Include(Vec<crate::db::user::IncludeParam>),
    Fetch,
}

impl Include {
    /// Includes the relation narrowed to these selections.
    pub fn select(nested_selections: Vec<crate::db::user::SelectParam>) -> (r: Self)
        ensures
            r == Include::Select(nested_selections),
    {
        Include::Select(nested_selections)
    }

    /// Includes the relation widened by these selections.
    pub fn widen(nested_selections: Vec<crate::db::user::IncludeParam>) -> (r: Self)
        ensures
            r == Include::Include(nested_selections),
    {
        Include::Include(nested_selections)
    }

    /// The relation as a selection.
    pub fn to_selection(self) -> (r: Selection)
        ensures
            r.field@ == "user"@,
    {
        sel("user")
    }
}

/// Selecting the relation, with a narrowed or widened selection.
pub enum Select {
    Select(Vec<crate::db::user::SelectParam>),
    Include(Vec<crate::db::user::IncludeParam>),
    Fetch,
}

impl Select {
    /// Selects the relation narrowed to these selections.
    pub fn select(nested_selections: Vec<crate::db::user::SelectParam>) -> (r: Self)
        ensures
            r == Select::Select(nested_selections),
    {
        Select::Select(nested_selections)
    }

    /// Selects the relation widened by these selections.
    pub fn widen(nested_selections: Vec<crate::db::user::IncludeParam>) -> (r: Self)
        ensures
            r == Select::Include(nested_selections),
    {
        Select::Include(nested_selections)
    }

    /// The relation as a selection.
    pub fn to_selection(self) -> (r: Selection)
        ensures
            r.field@ == "user"@,
    {
        sel("user")
    }
}

} // verus!
