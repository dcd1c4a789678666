//! A typed model of the database query layer: the three models (users,
//! rooms, messages), their column builders, filters and query
//! descriptions. A query built here is a plain value; whatever runs it
//! against a store receives an exact description of what was asked.
use vstd::prelude::*;

pub mod filters;
pub mod messages;
pub mod rooms;
pub mod user;
pub mod value;

verus! {

/// The direction of an ordering.
#[derive(Clone, Copy, Debug, PartialEq, Eq, Structural)]
pub enum SortOrder {
    Asc,
    Desc,
}

impl SortOrder {
    /// The direction's name on the wire.
    pub fn wire_name(&self) -> (s: &'static str)
        ensures
            (*self == SortOrder::Asc ==> s@ == "asc"@) && (*self == SortOrder::Desc ==> s@
                == "desc"@),
    {
        match self {
            SortOrder::Asc => "asc",
            SortOrder::Desc => "desc",
        }
    }
}

/// The isolation level a transaction may ask for.
#[derive(Clone, Copy, Debug, PartialEq, Eq, Structural)]
pub enum TransactionIsolationLevel {
    ReadUncommitted,
    ReadCommitted,
    RepeatableRead,
    Serializable,
}

impl TransactionIsolationLevel {
    /// The level's name on the wire.
    pub fn wire_name(&self) -> (s: &'static str)
        ensures
            (*self == TransactionIsolationLevel::ReadUncommitted ==> s@ == "ReadUncommitted"@)
                && (*self == TransactionIsolationLevel::ReadCommitted ==> s@
                == "ReadCommitted"@) && (*self == TransactionIsolationLevel::RepeatableRead
                ==> s@ == "RepeatableRead"@) && (*self
                == TransactionIsolationLevel::Serializable ==> s@ == "Serializable"@),
    {
        match self {
            TransactionIsolationLevel::ReadUncommitted => "ReadUncommitted",
            TransactionIsolationLevel::ReadCommitted => "ReadCommitted",
            TransactionIsolationLevel::RepeatableRead => "RepeatableRead",
            TransactionIsolationLevel::Serializable => "Serializable",
        }
    }
}

/// The scalar columns of the user model.
#[derive(Clone, Copy, Debug, PartialEq, Eq, Structural)]
pub enum UserScalarFieldEnum {
    Id,
    Email,
    Name,
    Ip,
    CreatedAt,
    UpdatedAt,
}

impl UserScalarFieldEnum {
    /// The column's name on the wire.
    pub fn wire_name(&self) -> (s: &'static str)
        ensures
            (*self == UserScalarFieldEnum::Id ==> s@ == "id"@) && (*self
                == UserScalarFieldEnum::Email ==> s@ == "email"@) && (*self
                == UserScalarFieldEnum::Name ==> s@ == "name"@) && (*self
                == UserScalarFieldEnum::Ip ==> s@ == "ip"@) && (*self
                == UserScalarFieldEnum::CreatedAt ==> s@ == "createdAt"@) && (*self
                == UserScalarFieldEnum::UpdatedAt ==> s@ == "updatedAt"@),
    {
        match self {
            UserScalarFieldEnum::Id => "id",
            UserScalarFieldEnum::Email => "email",
            UserScalarFieldEnum::Name => "name",
            UserScalarFieldEnum::Ip => "ip",
            UserScalarFieldEnum::CreatedAt => "createdAt",
            UserScalarFieldEnum::UpdatedAt => "updatedAt",
        }
    }
}

/// The scalar columns of the rooms model.
#[derive(Clone, Copy, Debug, PartialEq, Eq, Structural)]
pub enum RoomsScalarFieldEnum {
    Id,
    Name,
    CreatedAt,
    UpdatedAt,
}

impl RoomsScalarFieldEnum {
    /// The column's name on the wire.
    pub fn wire_name(&self) -> (s: &'static str)
        ensures
            (*self == RoomsScalarFieldEnum::Id ==> s@ == "id"@) && (*self
                == RoomsScalarFieldEnum::Name ==> s@ == "name"@) && (*self
                == RoomsScalarFieldEnum::CreatedAt ==> s@ == "createdAt"@) && (*self
                == RoomsScalarFieldEnum::UpdatedAt ==> s@ == "updatedAt"@),
    {
        match self {
            RoomsScalarFieldEnum::Id => "id",
            RoomsScalarFieldEnum::Name => "name",
            RoomsScalarFieldEnum::CreatedAt => "createdAt",
            RoomsScalarFieldEnum::UpdatedAt => "updatedAt",
        }
    }
}

/// The scalar columns of the messages model.
#[derive(Clone, Copy, Debug, PartialEq, Eq, Structural)]
pub enum MessagesScalarFieldEnum {
    Id,
    Message,
    CreatedAt,
    UpdatedAt,
    UserId,
    RoomId,
}

impl MessagesScalarFieldEnum {
    /// The column's name on the wire.
    pub fn wire_name(&self) -> (s: &'static str)
        ensures
            (*self == MessagesScalarFieldEnum::Id ==> s@ == "id"@) && (*self
                == MessagesScalarFieldEnum::Message ==> s@ == "message"@) && (*self
                == MessagesScalarFieldEnum::CreatedAt ==> s@ == "createdAt"@) && (*self
                == MessagesScalarFieldEnum::UpdatedAt ==> s@ == "updatedAt"@) && (*self
                == MessagesScalarFieldEnum::UserId ==> s@ == "userId"@) && (*self
                == MessagesScalarFieldEnum::RoomId ==> s@ == "roomId"@),
    {
        match self {
            MessagesScalarFieldEnum::Id => "id",
            MessagesScalarFieldEnum::Message => "message",
            MessagesScalarFieldEnum::CreatedAt => "createdAt",
            MessagesScalarFieldEnum::UpdatedAt => "updatedAt",
            MessagesScalarFieldEnum::UserId => "userId",
            MessagesScalarFieldEnum::RoomId => "roomId",
        }
    }
}

/// Builds a client handle for the query layer.
pub struct PrismaClientBuilder {
    pub url: Option<String>,
}

impl PrismaClientBuilder {
    /// Names the store the client is for.
    pub fn with_url(self, url: String) -> (r: Self)
        ensures
            r.url == Some(url),
    {
        PrismaClientBuilder { url: Some(url) }
    }

    /// Finishes the handle.
    pub fn build(self) -> (r: PrismaClient)
        ensures
            r.url == self.url,
    {
        PrismaClient { url: self.url }
    }
}

/// The handle queries are described against.
pub struct PrismaClient {
    pub url: Option<String>,
}

impl PrismaClient {
    /// A fresh builder.
    pub fn _builder() -> (r: PrismaClientBuilder)
        ensures
            r.url == None::<String>,
    {
        PrismaClientBuilder { url: None }
    }

    /// The user model's actions.
    pub fn user(&self) -> (r: user::Actions)
        ensures
            r == (user::Actions {  }),
    {
        user::Actions {  }
    }

    /// The rooms model's actions.
    pub fn rooms(&self) -> (r: rooms::Actions)
        ensures
            r == (rooms::Actions {  }),
    {
        rooms::Actions {  }
    }

    /// The messages model's actions.
    pub fn messages(&self) -> (r: messages::Actions)
        ensures
            r == (messages::Actions {  }),
    {
        messages::Actions {  }
    }
}

} // verus!
