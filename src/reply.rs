use vstd::prelude::*;
use vstd::string::*;
use crate::todo::{Todo, TodoView, decimal, decimal_text};

verus! {

/// Why a request did not succeed.
pub enum Failure {
    MissingId,
    InvalidPayload,
    MissingName,
    MissingDescription,
    InvalidDone,
    IdNotFound(i32),
    NoSuchId(i32),
    NameNotFound(String),
    NameTaken,
    NotDeleted,
    Unexpected,
    Store(String),
}

pub enum FailureView {
    MissingId,
    InvalidPayload,
    MissingName,
    MissingDescription,
    InvalidDone,
    IdNotFound(int),
    NoSuchId(int),
    NameNotFound(Seq<char>),
    NameTaken,
    NotDeleted,
    Unexpected,
    Store(Seq<char>),
}

impl View for Failure {
    type V = FailureView;

    open spec fn view(&self) -> FailureView {
        match self {
            Failure::MissingId => FailureView::MissingId,
            Failure::InvalidPayload => FailureView::InvalidPayload,
            Failure::MissingName => FailureView::MissingName,
            Failure::MissingDescription => FailureView::MissingDescription,
            Failure::InvalidDone => FailureView::InvalidDone,
            Failure::IdNotFound(id) => FailureView::IdNotFound(*id as int),
            Failure::NoSuchId(id) => FailureView::NoSuchId(*id as int),
            Failure::NameNotFound(n) => FailureView::NameNotFound(n@),
            Failure::NameTaken => FailureView::NameTaken,
            Failure::NotDeleted => FailureView::NotDeleted,
            Failure::Unexpected => FailureView::Unexpected,
            Failure::Store(m) => FailureView::Store(m@),
        }
    }
}

pub const BAD_REQUEST: u16 = 400;
pub const NOT_FOUND: u16 = 404;
pub const CONFLICT: u16 = 409;
pub const SERVER_ERROR: u16 = 500;
pub const OK: u16 = 200;
pub const CREATED: u16 = 201;

impl FailureView {
    /// The status code of the reply that carries this failure.
    pub open spec fn status(self) -> u16 {
        match self {
            FailureView::IdNotFound(_) | FailureView::NoSuchId(_) | FailureView::NameNotFound(_) => NOT_FOUND,
            FailureView::NameTaken => CONFLICT,
            FailureView::NotDeleted | FailureView::Unexpected | FailureView::Store(_) => SERVER_ERROR,
            _ => BAD_REQUEST,
        }
    }

    /// The text sent under the envelope's `error` key.
    pub open spec fn message(self) -> Seq<char> {
        match self {
            FailureView::MissingId => "Missing 'id' query parameter"@,
            FailureView::InvalidPayload => "Invalid JSON payload"@,
            FailureView::MissingName => "Missing or empty 'name' field"@,
            FailureView::MissingDescription => "Missing 'description' field"@,
            FailureView::InvalidDone => "Missing or invalid 'done' field"@,
            FailureView::IdNotFound(id) => "Todo with id "@ + decimal(id) + " does not exist"@,
            FailureView::NoSuchId(id) => "Todo with id '"@ + decimal(id) + "' not found"@,
            FailureView::NameNotFound(n) => "Todo with name '"@ + n + "' not found"@,
            FailureView::NameTaken => "Todo with that name already exists"@,
            FailureView::NotDeleted => "Todo was not deleted due to an unknown error"@,
            FailureView::Unexpected => "Unexpected answer from the database"@,
            FailureView::Store(m) => "Database error: "@ + m,
        }
    }
}

impl Failure {
    pub fn status(&self) -> (r: u16)
        ensures
            r == self@.status(),
    {
        match self {
            Failure::IdNotFound(_) | Failure::NoSuchId(_) | Failure::NameNotFound(_) => NOT_FOUND,
            Failure::NameTaken => CONFLICT,
            Failure::NotDeleted | Failure::Unexpected | Failure::Store(_) => SERVER_ERROR,
            _ => BAD_REQUEST,
        }
    }

    pub fn message(&self) -> (r: String)
        ensures
            r@ == self@.message(),
    {
        match self {
            Failure::MissingId => String::from_str("Missing 'id' query parameter"),
            Failure::InvalidPayload => String::from_str("Invalid JSON payload"),
            Failure::MissingName => String::from_str("Missing or empty 'name' field"),
            Failure::MissingDescription => String::from_str("Missing 'description' field"),
            Failure::InvalidDone => String::from_str("Missing or invalid 'done' field"),
            Failure::IdNotFound(id) => {
                let mut m = String::from_str("Todo with id ");
                let d = decimal_text(*id);
                m.append(d.as_str());
                m.append(" does not exist");
                m
            },
            Failure::NoSuchId(id) => {
                let mut m = String::from_str("Todo with id '");
                let d = decimal_text(*id);
                m.append(d.as_str());
                m.append("' not found");
                m
            },
            Failure::NameNotFound(n) => {
                let mut m = String::from_str("Todo with name '");
                m.append(n.as_str());
                m.append("' not found");
                m
            },
            Failure::NameTaken => String::from_str("Todo with that name already exists"),
            Failure::NotDeleted => String::from_str("Todo was not deleted due to an unknown error"),
            Failure::Unexpected => String::from_str("Unexpected answer from the database"),
            Failure::Store(e) => {
                let mut m = String::from_str("Database error: ");
                m.append(e.as_str());
                m
            },
        }
    }
}

/// What a successful or failed request hands back.
pub enum Body {
    One(Todo),
    Many(Vec<Todo>),
    Deleted(i32),
    Failed(Failure),
}

pub enum BodyView {
    One(TodoView),
    Many(Seq<TodoView>),
    Deleted(int),
    Failed(FailureView),
}

pub open spec fn todos_view(v: Seq<Todo>) -> Seq<TodoView> {
    v.map_values(|t: Todo| t@)
}

impl View for Body {
    type V = BodyView;

    open spec fn view(&self) -> BodyView {
        match self {
            Body::One(t) => BodyView::One(t@),
            Body::Many(v) => BodyView::Many(todos_view(v@)),
            Body::Deleted(id) => BodyView::Deleted(*id as int),
            Body::Failed(f) => BodyView::Failed(f@),
        }
    }
}

/// The envelope: a status code and a body, rendered as
/// `{success, <key>: value}`.
pub struct Reply {
    pub status: u16,
    pub body: Body,
}

pub struct ReplyView {
    pub status: u16,
    pub body: BodyView,
}

impl View for Reply {
    type V = ReplyView;

    open spec fn view(&self) -> ReplyView {
        ReplyView { status: self.status, body: self.body@ }
    }
}

impl ReplyView {
    pub open spec fn success(self) -> bool {
        !(self.body is Failed)
    }

    /// The key under which the envelope carries its payload.
    pub open spec fn data_key(self) -> Seq<char> {
        match self.body {
            BodyView::One(_) => "todo"@,
            BodyView::Many(_) => "todos"@,
            BodyView::Deleted(_) => "message"@,
            BodyView::Failed(_) => "error"@,
        }
    }
}

/// The confirmation text of a removal.
pub open spec fn deleted_message(id: int) -> Seq<char> {
    "Todo with id "@ + decimal(id) + " successfully deleted"@
}

impl Reply {
    pub fn failure(f: Failure) -> (r: Reply)
        ensures
            r@ == (ReplyView { status: f@.status(), body: BodyView::Failed(f@) }),
    {
        let status = f.status();
        Reply { status, body: Body::Failed(f) }
    }

    pub fn found(t: Todo) -> (r: Reply)
        ensures
            r@ == (ReplyView { status: OK, body: BodyView::One(t@) }),
    {
        Reply { status: OK, body: Body::One(t) }
    }

    pub fn created(t: Todo) -> (r: Reply)
        ensures
            r@ == (ReplyView { status: CREATED, body: BodyView::One(t@) }),
    {
        Reply { status: CREATED, body: Body::One(t) }
    }

    pub fn listing(v: Vec<Todo>) -> (r: Reply)
        ensures
            r@ == (ReplyView { status: OK, body: BodyView::Many(todos_view(v@)) }),
    {
        Reply { status: OK, body: Body::Many(v) }
    }

    pub fn deleted(id: i32) -> (r: Reply)
        ensures
            r@ == (ReplyView { status: OK, body: BodyView::Deleted(id as int) }),
    {
        Reply { status: OK, body: Body::Deleted(id) }
    }

    pub fn success(&self) -> (r: bool)
        ensures
            r == self@.success(),
    {
        match &self.body {
            Body::Failed(_) => false,
            _ => true,
        }
    }

    pub fn data_key(&self) -> (r: &'static str)
        ensures
            r@ == self@.data_key(),
    {
        match &self.body {
            Body::One(_) => "todo",
            Body::Many(_) => "todos",
            Body::Deleted(_) => "message",
            Body::Failed(_) => "error",
        }
    }

    /// The text of a confirmation or failure; empty for a body that carries entries.
    pub fn message(&self) -> (r: String)
        ensures
            self@.body is Deleted ==> r@ == deleted_message(self@.body->Deleted_0),
            self@.body is Failed ==> r@ == self@.body->Failed_0.message(),
            self@.body is One || self@.body is Many ==> r@ == Seq::<char>::empty(),
    {
        match &self.body {
            Body::Deleted(id) => {
                let mut m = String::from_str("Todo with id ");
                let d = decimal_text(*id);
                m.append(d.as_str());
                m.append(" successfully deleted");
                m
            },
            Body::Failed(f) => f.message(),
            _ => {
                proof { reveal_strlit(""); }
                String::from_str("")
            },
        }
    }
}

} // verus!
