use vstd::prelude::*;
use vstd::string::*;
use crate::todo::{Todo, TodoView, blank, copy_text, is_blank, same_text};
use crate::reply::{BodyView, Failure, FailureView, Reply, ReplyView, OK, CREATED, todos_view};

verus! {

/// The fields of a JSON payload; a field that was absent is `None`.
pub struct Fields {
    pub name: Option<String>,
    pub description: Option<String>,
    pub done: Option<String>,
}

pub struct FieldsView {
    pub name: Option<Seq<char>>,
    pub description: Option<Seq<char>>,
    pub done: Option<Seq<char>>,
}

pub open spec fn opt_text(o: Option<String>) -> Option<Seq<char>> {
    match o {
        Some(s) => Some(s@),
        None => None,
    }
}

impl View for Fields {
    type V = FieldsView;

    open spec fn view(&self) -> FieldsView {
        FieldsView {
            name: opt_text(self.name),
            description: opt_text(self.description),
            done: opt_text(self.done),
        }
    }
}

/// An incoming operation, as the route and its parameters give it: an `id`
/// that is absent or does not parse is `None`, a body that is not a JSON
/// object of strings is `None`.
pub enum Request {
    List,
    GetById(Option<i32>),
    GetByName(Option<String>),
    Create(Option<Fields>),
    MarkDone(Option<i32>),
    Update(Option<i32>, Option<Fields>),
    Delete(Option<i32>),
}

pub enum RequestView {
    List,
    GetById(Option<int>),
    GetByName(Option<Seq<char>>),
    Create(Option<FieldsView>),
    MarkDone(Option<int>),
    Update(Option<int>, Option<FieldsView>),
    Delete(Option<int>),
}

pub open spec fn opt_id(o: Option<i32>) -> Option<int> {
    match o {
        Some(i) => Some(i as int),
        None => None,
    }
}

pub open spec fn opt_fields(o: Option<Fields>) -> Option<FieldsView> {
    match o {
        Some(f) => Some(f@),
        None => None,
    }
}

impl View for Request {
    type V = RequestView;

    open spec fn view(&self) -> RequestView {
        match self {
            Request::List => RequestView::List,
            Request::GetById(i) => RequestView::GetById(opt_id(*i)),
            Request::GetByName(n) => RequestView::GetByName(opt_text(*n)),
            Request::Create(f) => RequestView::Create(opt_fields(*f)),
            Request::MarkDone(i) => RequestView::MarkDone(opt_id(*i)),
            Request::Update(i, f) => RequestView::Update(opt_id(*i), opt_fields(*f)),
            Request::Delete(i) => RequestView::Delete(opt_id(*i)),
        }
    }
}

/// A statement for the store.
pub enum Query {
    SelectAll,
    SelectById(i32),
    SelectByName(String),
    IdExists(i32),
    NameExists(String),
    Insert(String, String),
    MarkDone(i32),
    Update(i32, String, String, bool),
    DeleteById(i32),
}

pub enum QueryView {
    SelectAll,
    SelectById(int),
    SelectByName(Seq<char>),
    IdExists(int),
    NameExists(Seq<char>),
    Insert(Seq<char>, Seq<char>),
    MarkDone(int),
    Update(int, Seq<char>, Seq<char>, bool),
    DeleteById(int),
}

impl View for Query {
    type V = QueryView;

    open spec fn view(&self) -> QueryView {
        match self {
            Query::SelectAll => QueryView::SelectAll,
            Query::SelectById(i) => QueryView::SelectById(*i as int),
            Query::SelectByName(n) => QueryView::SelectByName(n@),
            Query::IdExists(i) => QueryView::IdExists(*i as int),
            Query::NameExists(n) => QueryView::NameExists(n@),
            Query::Insert(n, d) => QueryView::Insert(n@, d@),
            Query::MarkDone(i) => QueryView::MarkDone(*i as int),
            Query::Update(i, n, d, b) => QueryView::Update(*i as int, n@, d@, *b),
            Query::DeleteById(i) => QueryView::DeleteById(*i as int),
        }
    }
}

/// What the store answered to a statement.
pub enum Outcome {
    Rows(Vec<Todo>),
    Row(Option<Todo>),
    Present(bool),
    Affected(u64),
    Failed(String),
}

pub enum OutcomeView {
    Rows(Seq<TodoView>),
    Row(Option<TodoView>),
    Present(bool),
    Affected(nat),
    Failed(Seq<char>),
}

pub open spec fn opt_todo(o: Option<Todo>) -> Option<TodoView> {
    match o {
        Some(t) => Some(t@),
        None => None,
    }
}

impl View for Outcome {
    type V = OutcomeView;

    open spec fn view(&self) -> OutcomeView {
        match self {
            Outcome::Rows(v) => OutcomeView::Rows(todos_view(v@)),
            Outcome::Row(o) => OutcomeView::Row(opt_todo(*o)),
            Outcome::Present(b) => OutcomeView::Present(*b),
            Outcome::Affected(n) => OutcomeView::Affected(*n as nat),
            Outcome::Failed(m) => OutcomeView::Failed(m@),
        }
    }
}

/// What to do next: run a statement, or send the reply.
pub enum Step {
    Run(Query),
    Reply(Reply),
}

pub enum StepView {
    Run(QueryView),
    Reply(ReplyView),
}

impl View for Step {
    type V = StepView;

    open spec fn view(&self) -> StepView {
        match self {
            Step::Run(q) => StepView::Run(q@),
            Step::Reply(r) => StepView::Reply(r@),
        }
    }
}

pub open spec fn fail(f: FailureView) -> StepView {
    StepView::Reply(ReplyView { status: f.status(), body: BodyView::Failed(f) })
}

pub open spec fn answer(status: u16, b: BodyView) -> StepView {
    StepView::Reply(ReplyView { status, body: b })
}

/// `bool`'s `FromStr`: exactly `true` or `false`.
pub open spec fn parse_flag(s: Seq<char>) -> Option<bool> {
    if s == "true"@ {
        Some(true)
    } else if s == "false"@ {
        Some(false)
    } else {
        None
    }
}

/// A `name` that is present and not blank.
pub open spec fn good_name(n: Option<Seq<char>>) -> bool {
    n is Some && !blank(n->0)
}

/// The first validation failure of a create payload, if any.
pub open spec fn create_fault(f: FieldsView) -> Option<FailureView> {
    if !good_name(f.name) {
        Some(FailureView::MissingName)
    } else if f.description is None {
        Some(FailureView::MissingDescription)
    } else {
        None
    }
}

/// The first validation failure of an update payload, if any.
pub open spec fn update_fault(f: FieldsView) -> Option<FailureView> {
    if !good_name(f.name) {
        Some(FailureView::MissingName)
    } else if f.description is None {
        Some(FailureView::MissingDescription)
    } else if f.done is None || parse_flag(f.done->0) is None {
        Some(FailureView::InvalidDone)
    } else {
        None
    }
}

/// The first step of a request: a validation failure, which touches no
/// store, or the first statement to run.
pub open spec fn begin_spec(req: RequestView) -> StepView {
    match req {
        RequestView::List => StepView::Run(QueryView::SelectAll),
        RequestView::GetById(None) | RequestView::MarkDone(None) | RequestView::Delete(None)
        | RequestView::Update(None, _) => fail(FailureView::MissingId),
        RequestView::GetById(Some(id)) => StepView::Run(QueryView::SelectById(id)),
        RequestView::GetByName(n) => if good_name(n) {
            StepView::Run(QueryView::SelectByName(n->0))
        } else {
            fail(FailureView::MissingName)
        },
        RequestView::Create(None) | RequestView::Update(_, None) => fail(FailureView::InvalidPayload),
        RequestView::Create(Some(f)) => match create_fault(f) {
            Some(e) => fail(e),
            None => StepView::Run(QueryView::NameExists(f.name->0)),
        },
        RequestView::MarkDone(Some(id)) | RequestView::Delete(Some(id)) => StepView::Run(
            QueryView::IdExists(id),
        ),
        RequestView::Update(Some(id), Some(f)) => match update_fault(f) {
            Some(e) => fail(e),
            None => StepView::Run(QueryView::IdExists(id)),
        },
    }
}

/// The step after statement `q` of request `req` was answered with `out`.
/// A store failure always ends the request with a store error; an answer
/// of a shape that the statement cannot give ends it with `Unexpected`.
pub open spec fn advance_spec(req: RequestView, q: QueryView, out: OutcomeView) -> StepView {
    if out is Failed {
        fail(FailureView::Store(out->Failed_0))
    } else {
        match (req, q, out) {
            (RequestView::List, QueryView::SelectAll, OutcomeView::Rows(v)) => answer(OK, BodyView::Many(v)),
            (RequestView::GetById(Some(id)), QueryView::SelectById(_), OutcomeView::Row(r)) => match r {
                Some(t) => answer(OK, BodyView::One(t)),
                None => fail(FailureView::NoSuchId(id)),
            },
            (RequestView::GetByName(Some(n)), QueryView::SelectByName(_), OutcomeView::Row(r)) => match r {
                Some(t) => answer(OK, BodyView::One(t)),
                None => fail(FailureView::NameNotFound(n)),
            },
            (RequestView::Create(Some(f)), QueryView::NameExists(_), OutcomeView::Present(taken)) => if taken {
                fail(FailureView::NameTaken)
            } else if create_fault(f) is None {
                StepView::Run(QueryView::Insert(f.name->0, f.description->0))
            } else {
                fail(FailureView::Unexpected)
            },
            (RequestView::Create(Some(_)), QueryView::Insert(_, _), OutcomeView::Row(Some(t))) => answer(
                CREATED,
                BodyView::One(t),
            ),
            (RequestView::MarkDone(Some(id)), QueryView::IdExists(_), OutcomeView::Present(found)) => if found {
                StepView::Run(QueryView::MarkDone(id))
            } else {
                fail(FailureView::IdNotFound(id))
            },
            (RequestView::MarkDone(Some(id)), QueryView::MarkDone(_), OutcomeView::Row(r)) => match r {
                Some(t) => answer(OK, BodyView::One(t)),
                None => fail(FailureView::IdNotFound(id)),
            },
            (RequestView::Delete(Some(id)), QueryView::IdExists(_), OutcomeView::Present(found)) => if found {
                StepView::Run(QueryView::DeleteById(id))
            } else {
                fail(FailureView::IdNotFound(id))
            },
            (RequestView::Delete(Some(id)), QueryView::DeleteById(_), OutcomeView::Affected(n)) => if n == 1 {
                answer(OK, BodyView::Deleted(id))
            } else if n == 0 {
                fail(FailureView::IdNotFound(id))
            } else {
                fail(FailureView::NotDeleted)
            },
            (RequestView::Update(Some(id), Some(f)), QueryView::IdExists(_), OutcomeView::Present(found)) => if found
                && update_fault(f) is None {
                StepView::Run(
                    QueryView::Update(id, f.name->0, f.description->0, parse_flag(f.done->0)->0),
                )
            } else if found {
                fail(FailureView::Unexpected)
            } else {
                fail(FailureView::IdNotFound(id))
            },
            (RequestView::Update(Some(id), Some(_)), QueryView::Update(_, _, _, _), OutcomeView::Row(r)) => match r {
                Some(t) => answer(OK, BodyView::One(t)),
                None => fail(FailureView::IdNotFound(id)),
            },
            _ => fail(FailureView::Unexpected),
        }
    }
}

fn copy_opt(o: &Option<String>) -> (r: Option<String>)
    ensures
        opt_text(r) == opt_text(*o),
{
    match o {
        Some(s) => Some(copy_text(s)),
        None => None,
    }
}

/// Reads a `done` flag as `bool`'s `FromStr` does.
pub fn parse_flag_text(s: &str) -> (r: Option<bool>)
    ensures
        r == parse_flag(s@),
{
    proof {
        reveal_strlit("true");
        reveal_strlit("false");
    }
    if same_text(s, "true") {
        Some(true)
    } else if same_text(s, "false") {
        Some(false)
    } else {
        None
    }
}

fn good_name_exec(n: &Option<String>) -> (r: bool)
    ensures
        r == good_name(opt_text(*n)),
{
    match n {
        Some(s) => !is_blank(s.as_str()),
        None => false,
    }
}

fn failed(f: Failure) -> (r: Step)
    ensures
        r@ == fail(f@),
{
    Step::Reply(Reply::failure(f))
}

/// Checks a create payload and hands back its name and description.
fn check_create(f: &Fields) -> (r: Result<(String, String), Failure>)
    ensures
        match r {
            Ok((n, d)) => create_fault(f@) is None && n@ == f@.name->0 && d@ == f@.description->0,
            Err(e) => create_fault(f@) == Some(e@),
        },
{
    if !good_name_exec(&f.name) {
        return Err(Failure::MissingName);
    }
    let n = match &f.name {
        Some(n) => copy_text(n),
        None => { return Err(Failure::MissingName); },
    };
    match &f.description {
        Some(d) => Ok((n, copy_text(d))),
        None => Err(Failure::MissingDescription),
    }
}

/// Checks an update payload and hands back its name, description and flag.
fn check_update(f: &Fields) -> (r: Result<(String, String, bool), Failure>)
    ensures
        match r {
            Ok((n, d, b)) => update_fault(f@) is None && n@ == f@.name->0 && d@ == f@.description->0
                && Some(b) == parse_flag(f@.done->0),
            Err(e) => update_fault(f@) == Some(e@),
        },
{
    let (n, d) = match check_create(f) {
        Ok(p) => p,
        Err(e) => { return Err(e); },
    };
    match &f.done {
        Some(t) => match parse_flag_text(t.as_str()) {
            Some(b) => Ok((n, d, b)),
            None => Err(Failure::InvalidDone),
        },
        None => Err(Failure::InvalidDone),
    }
}

/// The first step of a request.
pub fn begin(req: &Request) -> (r: Step)
    ensures
        r@ == begin_spec(req@),
{
    match req {
        Request::List => Step::Run(Query::SelectAll),
        Request::GetById(None) | Request::MarkDone(None) | Request::Delete(None) | Request::Update(None, _) => failed(
            Failure::MissingId,
        ),
        Request::GetById(Some(id)) => Step::Run(Query::SelectById(*id)),
        Request::GetByName(n) => {
            if good_name_exec(n) {
                match n {
                    Some(s) => Step::Run(Query::SelectByName(copy_text(s))),
                    None => failed(Failure::MissingName),
                }
            } else {
                failed(Failure::MissingName)
            }
        },
        Request::Create(None) | Request::Update(_, None) => failed(Failure::InvalidPayload),
        Request::Create(Some(f)) => match check_create(f) {
            Ok((n, _)) => Step::Run(Query::NameExists(n)),
            Err(e) => failed(e),
        },
        Request::MarkDone(Some(id)) | Request::Delete(Some(id)) => Step::Run(Query::IdExists(*id)),
        Request::Update(Some(id), Some(f)) => match check_update(f) {
            Ok(_) => Step::Run(Query::IdExists(*id)),
            Err(e) => failed(e),
        },
    }
}

/// The step after statement `q` of `req` was answered with `out`.
pub fn advance(req: &Request, q: &Query, out: Outcome) -> (r: Step)
    ensures
        r@ == advance_spec(req@, q@, out@),
{
    match out {
        Outcome::Failed(m) => failed(Failure::Store(m)),
        Outcome::Rows(v) => match (req, q) {
            (Request::List, Query::SelectAll) => Step::Reply(Reply::listing(v)),
            _ => failed(Failure::Unexpected),
        },
        Outcome::Row(row) => match (req, q) {
            (Request::GetById(Some(id)), Query::SelectById(_)) => match row {
                Some(t) => Step::Reply(Reply::found(t)),
                None => failed(Failure::NoSuchId(*id)),
            },
            (Request::MarkDone(Some(id)), Query::MarkDone(_)) => match row {
                Some(t) => Step::Reply(Reply::found(t)),
                None => failed(Failure::IdNotFound(*id)),
            },
            (Request::Update(Some(id), Some(_)), Query::Update(_, _, _, _)) => match row {
                Some(t) => Step::Reply(Reply::found(t)),
                None => failed(Failure::IdNotFound(*id)),
            },
            (Request::GetByName(Some(n)), Query::SelectByName(_)) => match row {
                Some(t) => Step::Reply(Reply::found(t)),
                None => failed(Failure::NameNotFound(copy_text(n))),
            },
            (Request::Create(Some(_)), Query::Insert(_, _)) => match row {
                Some(t) => Step::Reply(Reply::created(t)),
                None => failed(Failure::Unexpected),
            },
            _ => failed(Failure::Unexpected),
        },
        Outcome::Present(found) => match (req, q) {
            (Request::Create(Some(f)), Query::NameExists(_)) => {
                if found {
                    failed(Failure::NameTaken)
                } else {
                    match check_create(f) {
                        Ok((n, d)) => Step::Run(Query::Insert(n, d)),
                        Err(_) => failed(Failure::Unexpected),
                    }
                }
            },
            (Request::MarkDone(Some(id)), Query::IdExists(_)) => {
                if found {
                    Step::Run(Query::MarkDone(*id))
                } else {
                    failed(Failure::IdNotFound(*id))
                }
            },
            (Request::Delete(Some(id)), Query::IdExists(_)) => {
                if found {
                    Step::Run(Query::DeleteById(*id))
                } else {
                    failed(Failure::IdNotFound(*id))
                }
            },
            (Request::Update(Some(id), Some(f)), Query::IdExists(_)) => {
                if found {
                    match check_update(f) {
                        Ok((n, d, b)) => Step::Run(Query::Update(*id, n, d, b)),
                        Err(_) => failed(Failure::Unexpected),
                    }
                } else {
                    failed(Failure::IdNotFound(*id))
                }
            },
            _ => failed(Failure::Unexpected),
        },
        Outcome::Affected(n) => match (req, q) {
            (Request::Delete(Some(id)), Query::DeleteById(_)) => {
                if n == 1 {
                    Step::Reply(Reply::deleted(*id))
                } else if n == 0 {
                    failed(Failure::IdNotFound(*id))
                } else {
                    failed(Failure::NotDeleted)
                }
            },
            _ => failed(Failure::Unexpected),
        },
    }
}

} // verus!
