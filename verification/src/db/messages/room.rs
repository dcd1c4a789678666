//! The `room` relation of the messages model: the rooms a message
//! belongs to.
use vstd::prelude::*;

use crate::db::messages::{SetParam, WhereParam};
use crate::db::value::{sel, Selection};

verus! {

/// A fetch of the related rooms row, with its arguments.
pub struct Fetch(pub crate::db::rooms::UniqueArgs);

impl Fetch {
    /// Also fetches a relation of the fetched row.
    pub fn with(self, params: crate::db::rooms::WithParam) -> (r: Self)
        ensures
            r.0.with_params@ == self.0.with_params@.push(params),
    {
        let mut args = self.0;
        args.with_params.push(params);
        Fetch(args)
    }
}

/// Fetches the related row.
pub fn fetch() -> (r: Fetch)
    ensures
        r.0.with_params@.len() == 0,
{
    Fetch(crate::db::rooms::UniqueArgs::new())
}

/// The row to connect in a write.
pub struct Connect(pub crate::db::rooms::UniqueWhereParam);

/// Connects the message to this row.
pub fn connect(value: crate::db::rooms::UniqueWhereParam) -> (r: SetParam)
    ensures
        r == SetParam::ConnectRoom(value),
{
    SetParam::ConnectRoom(value)
}

/// Filters messages whose related row passes the filters.
pub fn is(value: Vec<crate::db::rooms::WhereParam>) -> (r: WhereParam)
    ensures
        r == WhereParam::RoomIs(value),
{
    WhereParam::RoomIs(value)
}

/// Filters messages whose related row fails the filters.
pub fn is_not(value: Vec<crate::db::rooms::WhereParam>) -> (r: WhereParam)
    ensures
        r == WhereParam::RoomIsNot(value),
{
    WhereParam::RoomIsNot(value)
}

/// Including the relation, with a narrowed or widened selection.
pub enum Include {
    Select(Vec<crate::db::rooms::SelectParam>),
    Include(Vec<crate::db::rooms::IncludeParam>),
    Fetch,
}

impl Include {
    /// Includes the relation narrowed to these selections.
    pub fn select(nested_selections: Vec<crate::db::rooms::SelectParam>) -> (r: Self)
        ensures
            r == Include::Select(nested_selections),
    {
        Include::Select(nested_selections)
    }

    /// Includes the relation widened by these selections.
    pub fn widen(nested_selections: Vec<crate::db::rooms::IncludeParam>) -> (r: Self)
        ensures
            r == Include::Include(nested_selections),
    {
        Include::Include(nested_selections)
    }

    /// The relation as a selection.
    pub fn to_selection(self) -> (r: Selection)
        ensures
            r.field@ == "room"@,
    {
        sel("room")
    }
}

/// Selecting the relation, with a narrowed or widened selection.
pub enum Select {
    Select(Vec<crate::db::rooms::SelectParam>),
    Include(Vec<crate::db::rooms::IncludeParam>),
    Fetch,
}

impl Select {
    /// Selects the relation narrowed to these selections.
    pub fn select(nested_selections: Vec<crate::db::rooms::SelectParam>) -> (r: Self)
        ensures
            r == Select::Select(nested_selections),
    {
        Select::Select(nested_selections)
    }

    /// Selects the relation widened by these selections.
    pub fn widen(nested_selections: Vec<crate::db::rooms::IncludeParam>) -> (r: Self)
        ensures
            r == Select::Include(nested_selections),
    {
        Select::Include(nested_selections)
    }

    /// The relation as a selection.
    pub fn to_selection(self) -> (r: Selection)
        ensures
            r.field@ == "room"@,
    {
        sel("room")
    }
}

} // verus!
