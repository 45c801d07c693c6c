use vstd::prelude::*;
use vstd::string::*;
use crate::todo::{Todo, TodoView, copy_text, same_text};
use crate::reply::{Failure, FailureView, Reply, ReplyView, BodyView, todos_view};
use crate::dispatch::{
    Outcome, OutcomeView, Query, QueryView, Request, RequestView, Step, StepView, advance, advance_spec,
    begin, begin_spec,
};

verus! {

/// The todo table kept in memory, with the constraints of its schema:
/// `id` is the primary key, drawn from a counter and never reused, and
/// `name` is unique. `run` gives each statement the meaning `exec_spec`
/// states; `handle` takes a request through `begin` and `advance` against
/// it, as the server does against Postgres.
pub struct MemStore {
    rows: Vec<Todo>,
    next_id: i32,
}

pub struct StoreView {
    pub rows: Seq<TodoView>,
    pub next_id: int,
}

impl View for MemStore {
    type V = StoreView;

    closed spec fn view(&self) -> StoreView {
        StoreView { rows: todos_view(self.rows@), next_id: self.next_id as int }
    }
}

pub open spec fn has_id(rows: Seq<TodoView>, id: int) -> bool {
    exists|i: int| 0 <= i < rows.len() && (#[trigger] rows[i]).id == id
}

pub open spec fn id_index(rows: Seq<TodoView>, id: int) -> int {
    choose|i: int| 0 <= i < rows.len() && (#[trigger] rows[i]).id == id
}

pub open spec fn has_name(rows: Seq<TodoView>, n: Seq<char>) -> bool {
    exists|i: int| 0 <= i < rows.len() && (#[trigger] rows[i]).name == n
}

pub open spec fn name_index(rows: Seq<TodoView>, n: Seq<char>) -> int {
    choose|i: int| 0 <= i < rows.len() && (#[trigger] rows[i]).name == n
}

/// Whether a row other than the one with id `id` is named `n`.
pub open spec fn name_used_elsewhere(rows: Seq<TodoView>, n: Seq<char>, id: int) -> bool {
    exists|i: int| 0 <= i < rows.len() && (#[trigger] rows[i]).name == n && rows[i].id != id
}

/// The table's invariant: ids below the counter and distinct, names distinct.
pub open spec fn wf(s: StoreView) -> bool {
    &&& 1 <= s.next_id <= i32::MAX
    &&& forall|i: int| 0 <= i < s.rows.len() ==> 1 <= (#[trigger] s.rows[i]).id < s.next_id
    &&& forall|i: int, j: int|
        0 <= i < s.rows.len() && 0 <= j < s.rows.len() && i != j ==> (#[trigger] s.rows[i]).id
            != (#[trigger] s.rows[j]).id
    &&& forall|i: int, j: int|
        0 <= i < s.rows.len() && 0 <= j < s.rows.len() && i != j ==> (#[trigger] s.rows[i]).name
            != (#[trigger] s.rows[j]).name
}

pub open spec fn find_by_id(rows: Seq<TodoView>, id: int) -> Option<TodoView> {
    if has_id(rows, id) {
        Some(rows[id_index(rows, id)])
    } else {
        None
    }
}

pub open spec fn find_by_name(rows: Seq<TodoView>, n: Seq<char>) -> Option<TodoView> {
    if has_name(rows, n) {
        Some(rows[name_index(rows, n)])
    } else {
        None
    }
}

pub open spec fn duplicate_name() -> Seq<char> {
    "duplicate key value violates unique constraint on name"@
}

pub open spec fn ids_exhausted() -> Seq<char> {
    "no id left for a new row"@
}

/// What a statement does to the table, and what it answers.
pub open spec fn exec_spec(s: StoreView, q: QueryView) -> (StoreView, OutcomeView) {
    match q {
        QueryView::SelectAll => (s, OutcomeView::Rows(s.rows)),
        QueryView::SelectById(id) => (s, OutcomeView::Row(find_by_id(s.rows, id))),
        QueryView::SelectByName(n) => (s, OutcomeView::Row(find_by_name(s.rows, n))),
        QueryView::IdExists(id) => (s, OutcomeView::Present(has_id(s.rows, id))),
        QueryView::NameExists(n) => (s, OutcomeView::Present(has_name(s.rows, n))),
        QueryView::Insert(n, d) => if has_name(s.rows, n) {
            (s, OutcomeView::Failed(duplicate_name()))
        } else if s.next_id >= i32::MAX {
            (s, OutcomeView::Failed(ids_exhausted()))
        } else {
            let t = TodoView { id: s.next_id, name: n, description: d, done: false };
            (StoreView { rows: s.rows.push(t), next_id: s.next_id + 1 }, OutcomeView::Row(Some(t)))
        },
        QueryView::MarkDone(id) => if has_id(s.rows, id) {
            let i = id_index(s.rows, id);
            let t = TodoView { done: true, ..s.rows[i] };
            (StoreView { rows: s.rows.update(i, t), ..s }, OutcomeView::Row(Some(t)))
        } else {
            (s, OutcomeView::Row(None))
        },
        QueryView::Update(id, n, d, b) => if !has_id(s.rows, id) {
            (s, OutcomeView::Row(None))
        } else if name_used_elsewhere(s.rows, n, id) {
            (s, OutcomeView::Failed(duplicate_name()))
        } else {
            let t = TodoView { id, name: n, description: d, done: b };
            (StoreView { rows: s.rows.update(id_index(s.rows, id), t), ..s }, OutcomeView::Row(Some(t)))
        },
        QueryView::DeleteById(id) => if has_id(s.rows, id) {
            (StoreView { rows: s.rows.remove(id_index(s.rows, id)), ..s }, OutcomeView::Affected(1))
        } else {
            (s, OutcomeView::Affected(0))
        },
    }
}

proof fn lemma_id_at(rows: Seq<TodoView>, id: int, i: int)
    requires
        forall|a: int, b: int|
            0 <= a < rows.len() && 0 <= b < rows.len() && a != b ==> (#[trigger] rows[a]).id
                != (#[trigger] rows[b]).id,
        0 <= i < rows.len(),
        rows[i].id == id,
    ensures
        has_id(rows, id),
        id_index(rows, id) == i,
{
    assert(has_id(rows, id));
}

proof fn lemma_name_at(rows: Seq<TodoView>, n: Seq<char>, i: int)
    requires
        forall|a: int, b: int|
            0 <= a < rows.len() && 0 <= b < rows.len() && a != b ==> (#[trigger] rows[a]).name
                != (#[trigger] rows[b]).name,
        0 <= i < rows.len(),
        rows[i].name == n,
    ensures
        has_name(rows, n),
        name_index(rows, n) == i,
{
    assert(has_name(rows, n));
}

/// Every statement keeps the table's invariant.
pub proof fn lemma_exec_keeps_wf(s: StoreView, q: QueryView)
    requires
        wf(s),
    ensures
        wf(exec_spec(s, q).0),
{
    let s1 = exec_spec(s, q).0;
    match q {
        QueryView::Insert(n, d) => {
            if !has_name(s.rows, n) && s.next_id < i32::MAX {
                let t = TodoView { id: s.next_id, name: n, description: d, done: false };
                assert(s1.rows == s.rows.push(t));
                assert forall|i: int, j: int|
                    0 <= i < s1.rows.len() && 0 <= j < s1.rows.len() && i != j implies (#[trigger] s1.rows[i]).name
                        != (#[trigger] s1.rows[j]).name by {
                    if i < s.rows.len() && j < s.rows.len() {
                    } else if i < s.rows.len() {
                        assert(s.rows[i] == s1.rows[i]);
                    } else {
                        assert(s.rows[j] == s1.rows[j]);
                    }
                }
            }
        },
        QueryView::MarkDone(id) => {},
        QueryView::Update(id, n, d, b) => {
            if has_id(s.rows, id) && !name_used_elsewhere(s.rows, n, id) {
                let k = id_index(s.rows, id);
                assert forall|i: int, j: int|
                    0 <= i < s1.rows.len() && 0 <= j < s1.rows.len() && i != j implies (#[trigger] s1.rows[i]).name
                        != (#[trigger] s1.rows[j]).name by {
                    if i == k {
                        assert(s.rows[j] == s1.rows[j]);
                    } else if j == k {
                        assert(s.rows[i] == s1.rows[i]);
                    }
                }
            }
        },
        QueryView::DeleteById(id) => {
            if has_id(s.rows, id) {
                let k = id_index(s.rows, id);
                assert forall|i: int| 0 <= i < s1.rows.len() implies s1.rows[i] == s.rows[if i < k {
                    i
                } else {
                    i + 1
                }] by {}
            }
        },
        _ => {},
    }
}

/// A request run to its end: at most two statements, then the reply.
pub open spec fn serve_spec(s: StoreView, req: RequestView) -> (StoreView, ReplyView) {
    match begin_spec(req) {
        StepView::Reply(r) => (s, r),
        StepView::Run(q1) => {
            let (s1, o1) = exec_spec(s, q1);
            match advance_spec(req, q1, o1) {
                StepView::Reply(r) => (s1, r),
                StepView::Run(q2) => {
                    let (s2, o2) = exec_spec(s1, q2);
                    match advance_spec(req, q2, o2) {
                        StepView::Reply(r) => (s2, r),
                        StepView::Run(_) => (s2, unexpected()),
                    }
                },
            }
        },
    }
}

pub open spec fn unexpected() -> ReplyView {
    ReplyView { status: FailureView::Unexpected.status(), body: BodyView::Failed(FailureView::Unexpected) }
}

impl MemStore {
    /// The table's invariant `wf`, on this table's rows and counter.
    pub open spec fn well_formed(&self) -> bool {
        wf(self@)
    }

    /// An empty table whose first row gets id 1.
    pub fn new() -> (r: MemStore)
        ensures
            r.well_formed(),
            r@.rows.len() == 0,
            r@.next_id == 1,
    {
        let r = MemStore { rows: Vec::new(), next_id: 1 };
        assert(r@.rows =~= Seq::<TodoView>::empty());
        r
    }

    fn find_id(&self, id: i32) -> (r: Option<usize>)
        requires
            wf(self@),
        ensures
            match r {
                Some(i) => i < self@.rows.len() && has_id(self@.rows, id as int) && id_index(self@.rows, id as int) == i,
                None => !has_id(self@.rows, id as int),
            },
    {
        let mut i: usize = 0;
        while i < self.rows.len()
            invariant
                wf(self@),
                i <= self.rows@.len(),
                forall|j: int| 0 <= j < i ==> (#[trigger] self@.rows[j]).id != id,
            decreases self.rows@.len() - i,
        {
            if self.rows[i].id == id {
                proof { lemma_id_at(self@.rows, id as int, i as int); }
                return Some(i);
            }
            i = i + 1;
        }
        None
    }

    fn find_name(&self, n: &str, skip: Option<i32>) -> (r: Option<usize>)
        requires
            wf(self@),
        ensures
            match r {
                Some(i) => i < self@.rows.len() && self@.rows[i as int].name == n@ && (match skip {
                    Some(id) => self@.rows[i as int].id != id,
                    None => true,
                }),
                None => match skip {
                    Some(id) => !name_used_elsewhere(self@.rows, n@, id as int),
                    None => !has_name(self@.rows, n@),
                },
            },
    {
        let mut i: usize = 0;
        while i < self.rows.len()
            invariant
                wf(self@),
                i <= self.rows@.len(),
                forall|j: int|
                    0 <= j < i ==> (#[trigger] self@.rows[j]).name != n@ || (match skip {
                        Some(id) => self@.rows[j].id == id,
                        None => false,
                    }),
            decreases self.rows@.len() - i,
        {
            if same_text(self.rows[i].name.as_str(), n) {
                let hit = match skip {
                    Some(id) => self.rows[i].id != id,
                    None => true,
                };
                if hit {
                    return Some(i);
                }
            }
            i = i + 1;
        }
        None
    }

    /// Runs one statement.
    pub fn run(&mut self, q: &Query) -> (r: Outcome)
        requires
            old(self).well_formed(),
        ensures
            final(self).well_formed(),
            (final(self)@, r@) == exec_spec(old(self)@, q@),
    {
        proof { lemma_exec_keeps_wf(self@, q@); }
        match q {
            Query::SelectAll => {
                let mut v: Vec<Todo> = Vec::new();
                let mut i: usize = 0;
                while i < self.rows.len()
                    invariant
                        i <= self.rows@.len(),
                        v@.len() == i,
                        forall|j: int| 0 <= j < i ==> (#[trigger] v@[j])@ == self.rows@[j]@,
                    decreases self.rows@.len() - i,
                {
                    v.push(self.rows[i].duplicate());
                    i = i + 1;
                }
                assert(todos_view(v@) =~= todos_view(self.rows@));
                Outcome::Rows(v)
            },
            Query::SelectById(id) | Query::IdExists(id) => {
                let found = self.find_id(*id);
                match q {
                    Query::IdExists(_) => Outcome::Present(found.is_some()),
                    _ => match found {
                        Some(i) => Outcome::Row(Some(self.rows[i].duplicate())),
                        None => Outcome::Row(None),
                    },
                }
            },
            Query::SelectByName(n) | Query::NameExists(n) => {
                let found = self.find_name(n.as_str(), None);
                proof {
                    if let Some(i) = found {
                        lemma_name_at(self@.rows, n@, i as int);
                    }
                }
                match q {
                    Query::NameExists(_) => Outcome::Present(found.is_some()),
                    _ => match found {
                        Some(i) => Outcome::Row(Some(self.rows[i].duplicate())),
                        None => Outcome::Row(None),
                    },
                }
            },
            Query::Insert(n, d) => {
                if let Some(i) = self.find_name(n.as_str(), None) {
                    proof { lemma_name_at(self@.rows, n@, i as int); }
                    return Outcome::Failed(String::from_str("duplicate key value violates unique constraint on name"));
                }
                if self.next_id == i32::MAX {
                    return Outcome::Failed(String::from_str("no id left for a new row"));
                }
                let t = Todo { id: self.next_id, name: copy_text(n), description: copy_text(d), done: false };
                let out = t.duplicate();
                self.rows.push(t);
                self.next_id = self.next_id + 1;
                proof {
                    assert(todos_view(self.rows@) =~= todos_view(old(self).rows@).push(out@));
                }
                Outcome::Row(Some(out))
            },
            Query::MarkDone(id) => {
                match self.find_id(*id) {
                    Some(i) => {
                        let mut t = self.rows[i].duplicate();
                        t.done = true;
                        let out = t.duplicate();
                        self.rows.set(i, t);
                        proof {
                            assert(todos_view(self.rows@) =~= todos_view(old(self).rows@).update(i as int, out@));
                        }
                        Outcome::Row(Some(out))
                    },
                    None => Outcome::Row(None),
                }
            },
            Query::Update(id, n, d, b) => {
                match self.find_id(*id) {
                    Some(i) => {
                        if let Some(_) = self.find_name(n.as_str(), Some(*id)) {
                            return Outcome::Failed(String::from_str("duplicate key value violates unique constraint on name"));
                        }
                        let t = Todo { id: *id, name: copy_text(n), description: copy_text(d), done: *b };
                        let out = t.duplicate();
                        self.rows.set(i, t);
                        proof {
                            assert(todos_view(self.rows@) =~= todos_view(old(self).rows@).update(i as int, out@));
                        }
                        Outcome::Row(Some(out))
                    },
                    None => Outcome::Row(None),
                }
            },
            Query::DeleteById(id) => {
                match self.find_id(*id) {
                    Some(i) => {
                        self.rows.remove(i);
                        proof {
                            assert(todos_view(self.rows@) =~= todos_view(old(self).rows@).remove(i as int));
                        }
                        Outcome::Affected(1)
                    },
                    None => Outcome::Affected(0),
                }
            },
        }
    }

    /// Handles one request against this table, from validation to reply.
    pub fn handle(&mut self, req: &Request) -> (r: Reply)
        requires
            old(self).well_formed(),
        ensures
            final(self).well_formed(),
            (final(self)@, r@) == serve_spec(old(self)@, req@),
    {
        let q1 = match begin(req) {
            Step::Reply(r) => { return r; },
            Step::Run(q) => q,
        };
        let o1 = self.run(&q1);
        let q2 = match advance(req, &q1, o1) {
            Step::Reply(r) => { return r; },
            Step::Run(q) => q,
        };
        let o2 = self.run(&q2);
        match advance(req, &q2, o2) {
            Step::Reply(r) => r,
            Step::Run(_) => Reply::failure(Failure::Unexpected),
        }
    }
}

} // verus!
