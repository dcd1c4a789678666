//! The messages model: its column builders, parameters, filters and query
//! descriptions.
use vstd::prelude::*;

pub mod created_at;
pub mod id;
pub mod message;
pub mod room;
pub mod room_id;
pub mod updated_at;
pub mod user;
pub mod user_id;

use crate::db::filters::{DateTimeFilter, IntFilter, StringFilter};
use crate::db::value::{RelationNotFetched, Selection, Timestamp};
use crate::db::SortOrder;

verus! {


/// One selected part of the model, narrowing a query's result.
pub enum SelectParam {
    Id(id::Select),
    Message(message::Select),
    CreatedAt(created_at::Select),
    UpdatedAt(updated_at::Select),
    User(user::Select),
    UserId(user_id::Select),
    Room(room::Select),
    RoomId(room_id::Select),
}

impl SelectParam {
    /// The selected field.
    pub fn to_selection(self) -> (r: Selection)
        ensures
            match self {
                SelectParam::Id(_) => r.field@ == "id"@,
                SelectParam::Message(_) => r.field@ == "message"@,
                SelectParam::CreatedAt(_) => r.field@ == "createdAt"@,
                SelectParam::UpdatedAt(_) => r.field@ == "updatedAt"@,
                SelectParam::User(_) => r.field@ == "user"@,
                SelectParam::UserId(_) => r.field@ == "userId"@,
                SelectParam::Room(_) => r.field@ == "room"@,
                SelectParam::RoomId(_) => r.field@ == "roomId"@,
            },
    {
        match self {
            SelectParam::Id(s) => s.to_selection(),
            SelectParam::Message(s) => s.to_selection(),
            SelectParam::CreatedAt(s) => s.to_selection(),
            SelectParam::UpdatedAt(s) => s.to_selection(),
            SelectParam::User(s) => s.to_selection(),
            SelectParam::UserId(s) => s.to_selection(),
            SelectParam::Room(s) => s.to_selection(),
            SelectParam::RoomId(s) => s.to_selection(),
        }
    }
}

/// One selected part of the model, extending a query's result.
pub enum IncludeParam {
    Id(id::Include),
    Message(message::Include),
    CreatedAt(created_at::Include),
    UpdatedAt(updated_at::Include),
    User(user::Include),
    UserId(user_id::Include),
    Room(room::Include),
    RoomId(room_id::Include),
}

impl IncludeParam {
    /// The selected field.
    pub fn to_selection(self) -> (r: Selection)
        ensures
            match self {
                IncludeParam::Id(_) => r.field@ == "id"@,
                IncludeParam::Message(_) => r.field@ == "message"@,
                IncludeParam::CreatedAt(_) => r.field@ == "createdAt"@,
                IncludeParam::UpdatedAt(_) => r.field@ == "updatedAt"@,
                IncludeParam::User(_) => r.field@ == "user"@,
                IncludeParam::UserId(_) => r.field@ == "userId"@,
                IncludeParam::Room(_) => r.field@ == "room"@,
                IncludeParam::RoomId(_) => r.field@ == "roomId"@,
            },
    {
        match self {
            IncludeParam::Id(s) => s.to_selection(),
            IncludeParam::Message(s) => s.to_selection(),
            IncludeParam::CreatedAt(s) => s.to_selection(),
            IncludeParam::UpdatedAt(s) => s.to_selection(),
            IncludeParam::User(s) => s.to_selection(),
            IncludeParam::UserId(s) => s.to_selection(),
            IncludeParam::Room(s) => s.to_selection(),
            IncludeParam::RoomId(s) => s.to_selection(),
        }
    }
}

/// A relation fetched along with the model's rows.
pub enum WithParam {
    User(crate::db::user::UniqueArgs),
    Room(crate::db::rooms::UniqueArgs),
}

/// One change a write applies.
#[derive(Clone, Debug)]
pub enum SetParam {
    SetId(i32),
    IncrementId(i32),
    DecrementId(i32),
    MultiplyId(i32),
    DivideId(i32),
    SetMessage(String),
    SetCreatedAt(Timestamp),
    SetUpdatedAt(Timestamp),
    ConnectUser(crate::db::user::UniqueWhereParam),
    SetUserId(i32),
    IncrementUserId(i32),
    DecrementUserId(i32),
    MultiplyUserId(i32),
    DivideUserId(i32),
    ConnectRoom(crate::db::rooms::UniqueWhereParam),
    SetRoomId(i32),
    IncrementRoomId(i32),
    DecrementRoomId(i32),
    MultiplyRoomId(i32),
    DivideRoomId(i32),
}

/// One change of an unchecked write, by column value alone.
#[derive(Clone, Debug)]
pub enum UncheckedSetParam {
    Id(i32),
    Message(String),
    CreatedAt(Timestamp),
    UpdatedAt(Timestamp),
    UserId(i32),
    RoomId(i32),
}

/// The change an unchecked change stands for.
pub open spec fn unchecked_set(p: UncheckedSetParam) -> SetParam {
    match p {
        UncheckedSetParam::Id(value) => SetParam::SetId(value),
        UncheckedSetParam::Message(value) => SetParam::SetMessage(value),
        UncheckedSetParam::CreatedAt(value) => SetParam::SetCreatedAt(value),
        UncheckedSetParam::UpdatedAt(value) => SetParam::SetUpdatedAt(value),
        UncheckedSetParam::UserId(value) => SetParam::SetUserId(value),
        UncheckedSetParam::RoomId(value) => SetParam::SetRoomId(value),
    }
}

impl UncheckedSetParam {
    /// The change this stands for.
    pub fn to_set(self) -> (r: SetParam)
        ensures
            r == unchecked_set(self),
    {
        match self {
            UncheckedSetParam::Id(value) => SetParam::SetId(value),
            UncheckedSetParam::Message(value) => SetParam::SetMessage(value),
            UncheckedSetParam::CreatedAt(value) => SetParam::SetCreatedAt(value),
            UncheckedSetParam::UpdatedAt(value) => SetParam::SetUpdatedAt(value),
            UncheckedSetParam::UserId(value) => SetParam::SetUserId(value),
            UncheckedSetParam::RoomId(value) => SetParam::SetRoomId(value),
        }
    }
}

/// An ordering of the model's rows by one column.
#[derive(Clone, Copy, Debug, PartialEq, Eq, Structural)]
pub enum OrderByParam {
    Id(SortOrder),
    Message(SortOrder),
    CreatedAt(SortOrder),
    UpdatedAt(SortOrder),
    UserId(SortOrder),
    RoomId(SortOrder),
}

/// A condition rows must pass.
pub enum WhereParam {
    Not(Vec<WhereParam>),
    Or(Vec<WhereParam>),
    And(Vec<WhereParam>),
    Id(IntFilter),
    Message(StringFilter),
    CreatedAt(DateTimeFilter),
    UpdatedAt(DateTimeFilter),
    UserIs(Vec<crate::db::user::WhereParam>),
    UserIsNot(Vec<crate::db::user::WhereParam>),
    UserId(IntFilter),
    RoomIs(Vec<crate::db::rooms::WhereParam>),
    RoomIsNot(Vec<crate::db::rooms::WhereParam>),
    RoomId(IntFilter),
}

/// A condition naming at most one row.
#[derive(Clone, Debug)]
pub enum UniqueWhereParam {
    IdEquals(i32),
}

impl UniqueWhereParam {
    /// The condition as a general filter.
    pub fn to_where(self) -> (r: WhereParam)
        ensures
            match self {
                UniqueWhereParam::IdEquals(value) => r == WhereParam::Id(IntFilter::Equals(value)),
            },
    {
        match self {
            UniqueWhereParam::IdEquals(value) => WhereParam::Id(IntFilter::Equals(value)),
        }
    }
}

/// The arguments of a fetch of many rows.
pub struct ManyArgs {
    pub filters: Vec<WhereParam>,
    pub with_params: Vec<WithParam>,
    pub order_params: Vec<OrderByParam>,
    pub cursor_param: Option<UniqueWhereParam>,
    pub skip_count: Option<i64>,
    pub take_count: Option<i64>,
}

impl ManyArgs {
    /// Fresh arguments: these filters and nothing else.
    pub fn new(filters: Vec<WhereParam>) -> (r: Self)
        ensures
            r.filters@ == filters@,
            r.with_params@.len() == 0,
            r.order_params@.len() == 0,
            r.cursor_param == None::<UniqueWhereParam>,
            r.skip_count == None::<i64>,
            r.take_count == None::<i64>,
    {
        ManyArgs {
            filters,
            with_params: Vec::new(),
            order_params: Vec::new(),
            cursor_param: None,
            skip_count: None,
            take_count: None,
        }
    }
}

/// The arguments of a fetch of one row.
pub struct UniqueArgs {
    pub with_params: Vec<WithParam>,
}

impl UniqueArgs {
    /// Fresh arguments: nothing fetched along.
    pub fn new() -> (r: Self)
        ensures
            r.with_params@.len() == 0,
    {
        UniqueArgs { with_params: Vec::new() }
    }
}

/// One row of the model, as a query returns it.
pub struct Data {
    pub id: i32,
    pub message: String,
    pub created_at: Timestamp,
    pub updated_at: Timestamp,
    pub user: Option<Box<crate::db::user::Data>>,
    pub user_id: i32,
    pub room: Option<Box<crate::db::rooms::Data>>,
    pub room_id: i32,
}

impl Data {
    /// The fetched `user` relation, if the query fetched it.
    pub fn user(&self) -> (r: Result<&Box<crate::db::user::Data>, RelationNotFetched>)
        ensures
            r is Ok <==> self.user is Some,
            r matches Ok(v) ==> self.user == Some(*v),
    {
        match &self.user {
            Some(v) => Ok(v),
            None => Err(RelationNotFetched),
        }
    }

    /// The fetched `room` relation, if the query fetched it.
    pub fn room(&self) -> (r: Result<&Box<crate::db::rooms::Data>, RelationNotFetched>)
        ensures
            r is Ok <==> self.room is Some,
            r matches Ok(v) ==> self.room == Some(*v),
    {
        match &self.room {
            Some(v) => Ok(v),
            None => Err(RelationNotFetched),
        }
    }

}

/// The model's type bundle.
#[derive(Clone, Copy, Debug, PartialEq, Eq, Structural)]
pub struct Types;

impl Types {
    /// Every scalar column of the model, as selections, in order.
    pub fn scalar_selections() -> (r: Vec<Selection>)
        ensures
            r@.len() == 6,
            r@[0].field@ == "id"@,
            r@[1].field@ == "message"@,
            r@[2].field@ == "createdAt"@,
            r@[3].field@ == "updatedAt"@,
            r@[4].field@ == "userId"@,
            r@[5].field@ == "roomId"@,
    {
        let mut v: Vec<Selection> = Vec::new();
        v.push(crate::db::value::sel("id"));
        v.push(crate::db::value::sel("message"));
        v.push(crate::db::value::sel("createdAt"));
        v.push(crate::db::value::sel("updatedAt"));
        v.push(crate::db::value::sel("userId"));
        v.push(crate::db::value::sel("roomId"));
        v
    }
}
/// A query for at most one row, by a unique condition.
pub struct FindUnique {
    pub filter: UniqueWhereParam,
    pub with_params: Vec<WithParam>,
}

impl FindUnique {
    /// Also fetches a relation of the found row.
    pub fn with(self, param: WithParam) -> (r: Self)
        ensures
            r.filter == self.filter,
            r.with_params@ == self.with_params@.push(param),
    {
        let mut with_params = self.with_params;
        with_params.push(param);
        FindUnique { filter: self.filter, with_params }
    }
}

/// A query for the first row passing the filters.
pub struct FindFirst {
    pub filters: Vec<WhereParam>,
    pub with_params: Vec<WithParam>,
}

impl FindFirst {
    /// Also fetches a relation of the found row.
    pub fn with(self, param: WithParam) -> (r: Self)
        ensures
            r.filters@ == self.filters@,
            r.with_params@ == self.with_params@.push(param),
    {
        let mut with_params = self.with_params;
        with_params.push(param);
        FindFirst { filters: self.filters, with_params }
    }
}

/// A query for every row passing the filters.
pub struct FindMany {
    pub filters: Vec<WhereParam>,
    pub with_params: Vec<WithParam>,
}

impl FindMany {
    /// Also fetches a relation of the found rows.
    pub fn with(self, param: WithParam) -> (r: Self)
        ensures
            r.filters@ == self.filters@,
            r.with_params@ == self.with_params@.push(param),
    {
        let mut with_params = self.with_params;
        with_params.push(param);
        FindMany { filters: self.filters, with_params }
    }
}

/// A write creating one row.
pub struct Create {
    pub params: Vec<SetParam>,
}

/// A write creating many rows.
pub struct CreateMany {
    pub rows: Vec<Vec<SetParam>>,
}

/// A write changing the row a unique condition names.
pub struct Update {
    pub filter: UniqueWhereParam,
    pub params: Vec<SetParam>,
}

/// A write changing every row passing the filters.
pub struct UpdateMany {
    pub filters: Vec<WhereParam>,
    pub params: Vec<SetParam>,
}

/// A write creating the named row or changing it where it exists.
pub struct Upsert {
    pub filter: UniqueWhereParam,
    pub create_params: Vec<SetParam>,
    pub update_params: Vec<SetParam>,
}

/// A write deleting the row a unique condition names.
pub struct Delete {
    pub filter: UniqueWhereParam,
}

/// A write deleting every row passing the filters.
pub struct DeleteMany {
    pub filters: Vec<WhereParam>,
}

/// A query counting the rows passing the filters.
pub struct Count {
    pub filters: Vec<WhereParam>,
}

/// A raw read against the model.
pub struct FindRaw;

/// A raw aggregation against the model.
pub struct AggregateRaw;

/// Unchecked changes as checked ones, in order.
fn to_set_list(params: Vec<UncheckedSetParam>) -> (r: Vec<SetParam>)
    ensures
        r@.len() == params@.len(),
        forall|i: int| 0 <= i < params@.len() ==> r@[i] == unchecked_set(params@[i]),
{
    let mut rest = params;
    let mut out: Vec<SetParam> = Vec::new();
    let ghost whole = rest@;
    while rest.len() > 0
        invariant
            out@.len() + rest@.len() == whole.len(),
            rest@ =~= whole.skip(out@.len() as int),
            forall|j: int| 0 <= j < out@.len() ==> out@[j] == unchecked_set(whole[j]),
        decreases rest@.len(),
    {
        let p = rest.remove(0);
        proof {
            assert(p == whole[out@.len() as int]);
            assert(rest@ =~= whole.skip(out@.len() as int + 1));
        }
        out.push(p.to_set());
    }
    out
}

/// The queries and writes the model offers. Each returns a description;
/// running it against the store is the caller's business.
#[derive(Clone, Copy, Debug, PartialEq, Eq, Structural)]
pub struct Actions;

impl Actions {
    /// Describes a fetch of the row a unique condition names.
    pub fn find_unique(self, param: UniqueWhereParam) -> (r: FindUnique)
        ensures
            r.filter == param,
            r.with_params@.len() == 0,
    {
        FindUnique { filter: param, with_params: Vec::new() }
    }

    /// Describes a fetch of the first row passing the filters.
    pub fn find_first(self, filters: Vec<WhereParam>) -> (r: FindFirst)
        ensures
            r.filters@ == filters@,
            r.with_params@.len() == 0,
    {
        FindFirst { filters, with_params: Vec::new() }
    }

    /// Describes a fetch of every row passing the filters.
    pub fn find_many(self, filters: Vec<WhereParam>) -> (r: FindMany)
        ensures
            r.filters@ == filters@,
            r.with_params@.len() == 0,
    {
        FindMany { filters, with_params: Vec::new() }
    }

    /// Describes the creation of one row: the message text, the user and
    /// room it belongs to, and any further changes.
    pub fn create(
        self,
        message: String,
        user: crate::db::user::UniqueWhereParam,
        room: crate::db::rooms::UniqueWhereParam,
        params: Vec<SetParam>,
    ) -> (r: Create)
        ensures
            r.params@ == params@ + seq![
                SetParam::SetMessage(message),
                SetParam::ConnectUser(user),
                SetParam::ConnectRoom(room),
            ],
    {
        let mut params = params;
        let ghost before = params@;
        params.push(SetParam::SetMessage(message));
        params.push(SetParam::ConnectUser(user));
        params.push(SetParam::ConnectRoom(room));
        proof {
            assert(params@ =~= before + seq![
                params@[before.len() as int],
                params@[before.len() as int + 1],
                params@[before.len() as int + 2],
            ]);
        }
        Create { params }
    }

    /// Describes the creation of one row from unchecked changes.
    pub fn create_unchecked(
        self,
        message: String,
        user_id: i32,
        room_id: i32,
        params: Vec<UncheckedSetParam>,
    ) -> (r: Create)
        ensures
            r.params@.len() == params@.len() + 3,
            forall|i: int|
                0 <= i < params@.len() ==> r.params@[i] == unchecked_set(params@[i]),
            r.params@[params@.len() as int] == SetParam::SetMessage(message),
            r.params@[params@.len() as int + 1] == SetParam::SetUserId(user_id),
            r.params@[params@.len() as int + 2] == SetParam::SetRoomId(room_id),
    {
        let mut out = to_set_list(params);
        out.push(SetParam::SetMessage(message));
        out.push(SetParam::SetUserId(user_id));
        out.push(SetParam::SetRoomId(room_id));
        Create { params: out }
    }

    /// Describes the creation of many rows, one per entry.
    pub fn create_many(
        self,
        data: Vec<(String, i32, i32, Vec<SetParam>)>,
    ) -> (r: CreateMany)
        ensures
            r.rows@.len() == data@.len(),
            forall|i: int|
                0 <= i < data@.len() ==> r.rows@[i]@ == data@[i].3@ + seq![
                    SetParam::SetMessage(data@[i].0),
                    SetParam::SetUserId(data@[i].1),
                    SetParam::SetRoomId(data@[i].2),
                ],
    {
        let mut rest = data;
        let mut rows: Vec<Vec<SetParam>> = Vec::new();
        let ghost whole = rest@;
        while rest.len() > 0
            invariant
                rows@.len() + rest@.len() == whole.len(),
                rest@ =~= whole.skip(rows@.len() as int),
                forall|j: int|
                    0 <= j < rows@.len() ==> rows@[j]@ == whole[j].3@ + seq![
                        SetParam::SetMessage(whole[j].0),
                        SetParam::SetUserId(whole[j].1),
                        SetParam::SetRoomId(whole[j].2),
                    ],
            decreases rest@.len(),
        {
            let entry = rest.remove(0);
            proof {
                assert(entry == whole[rows@.len() as int]);
                assert(rest@ =~= whole.skip(rows@.len() as int + 1));
            }
            let mut row = entry.3;
            let ghost before = row@;
            row.push(SetParam::SetMessage(entry.0));
            row.push(SetParam::SetUserId(entry.1));
            row.push(SetParam::SetRoomId(entry.2));
            proof {
                assert(row@ =~= before + seq![
                    row@[before.len() as int],
                    row@[before.len() as int + 1],
                    row@[before.len() as int + 2],
                ]);
            }
            rows.push(row);
        }
        CreateMany { rows }
    }


    /// Describes a change of the row a unique condition names.
    pub fn update(self, filter: UniqueWhereParam, params: Vec<SetParam>) -> (r: Update)
        ensures
            r.filter == filter,
            r.params@ == params@,
    {
        Update { filter, params }
    }

    /// Describes an unchecked change of the row a unique condition names.
    pub fn update_unchecked(
        self,
        filter: UniqueWhereParam,
        params: Vec<UncheckedSetParam>,
    ) -> (r: Update)
        ensures
            r.filter == filter,
            r.params@.len() == params@.len(),
            forall|i: int|
                0 <= i < params@.len() ==> r.params@[i] == unchecked_set(params@[i]),
    {
        Update { filter, params: to_set_list(params) }
    }

    /// Describes a change of every row passing the filters.
    pub fn update_many(self, filters: Vec<WhereParam>, params: Vec<SetParam>) -> (r: UpdateMany)
        ensures
            r.filters@ == filters@,
            r.params@ == params@,
    {
        UpdateMany { filters, params }
    }

    /// Describes an upsert: the creation tuple where the row is missing,
    /// the changes where it exists.
    pub fn upsert(
        self,
        filter: UniqueWhereParam,
        create: (
            String,
            crate::db::user::UniqueWhereParam,
            crate::db::rooms::UniqueWhereParam,
            Vec<SetParam>,
        ),
        update: Vec<SetParam>,
    ) -> (r: Upsert)
        ensures
            r.filter == filter,
            r.create_params@ == create.3@ + seq![
                SetParam::SetMessage(create.0),
                SetParam::ConnectUser(create.1),
                SetParam::ConnectRoom(create.2),
            ],
            r.update_params@ == update@,
    {
        let mut create_params = create.3;
        let ghost before = create_params@;
        create_params.push(SetParam::SetMessage(create.0));
        create_params.push(SetParam::ConnectUser(create.1));
        create_params.push(SetParam::ConnectRoom(create.2));
        proof {
            assert(create_params@ =~= before + seq![
                create_params@[before.len() as int],
                create_params@[before.len() as int + 1],
                create_params@[before.len() as int + 2],
            ]);
        }
        Upsert { filter, create_params, update_params: update }
    }


    /// Describes a deletion of the row a unique condition names.
    pub fn delete(self, filter: UniqueWhereParam) -> (r: Delete)
        ensures
            r.filter == filter,
    {
        Delete { filter }
    }

    /// Describes a deletion of every row passing the filters.
    pub fn delete_many(self, filters: Vec<WhereParam>) -> (r: DeleteMany)
        ensures
            r.filters@ == filters@,
    {
        DeleteMany { filters }
    }

    /// Describes a count of the rows passing the filters.
    pub fn count(self, filters: Vec<WhereParam>) -> (r: Count)
        ensures
            r.filters@ == filters@,
    {
        Count { filters }
    }

    /// Describes a raw read against the model.
    pub fn find_raw(self) -> (r: FindRaw)
        ensures
            r == FindRaw,
    {
        FindRaw
    }

    /// Describes a raw aggregation against the model.
    pub fn aggregate_raw(self) -> (r: AggregateRaw)
        ensures
            r == AggregateRaw,
    {
        AggregateRaw
    }
}

/// The creation tuple of one row: the message text, its user and room,
/// and any further changes, handed to `Actions::create` or
/// `Actions::upsert`.
pub fn create(
    message: String,
    user: crate::db::user::UniqueWhereParam,
    room: crate::db::rooms::UniqueWhereParam,
    params: Vec<SetParam>,
) -> (r: (
    String,
    crate::db::user::UniqueWhereParam,
    crate::db::rooms::UniqueWhereParam,
    Vec<SetParam>,
))
    ensures
        r == (message, user, room, params),
{
    (message, user, room, params)
}

/// The creation tuple of one row for an unchecked write.
pub fn create_unchecked(
    message: String,
    user_id: i32,
    room_id: i32,
    params: Vec<SetParam>,
) -> (r: (String, i32, i32, Vec<SetParam>))
    ensures
        r == (message, user_id, room_id, params),
{
    (message, user_id, room_id, params)
}

} // verus!
