use vstd::prelude::*;
use crate::todo::{TodoView, blank};
use crate::reply::{BodyView, FailureView, ReplyView, OK, CREATED, CONFLICT, NOT_FOUND};
use crate::dispatch::{FieldsView, RequestView, update_fault};
use crate::store::{
    StoreView, exec_spec, has_id, has_name, id_index, lemma_exec_keeps_wf, serve_spec, wf,
};

verus! {

/// A create request whose payload holds `name` and `description`.
pub open spec fn create_request(name: Seq<char>, description: Seq<char>) -> RequestView {
    RequestView::Create(Some(FieldsView { name: Some(name), description: Some(description), done: None }))
}

pub open spec fn failure_reply(f: FailureView) -> ReplyView {
    ReplyView { status: f.status(), body: BodyView::Failed(f) }
}

/// Creating a todo under an unused, non-blank name answers 201 with the new
/// row, not done, under the next id; looking the name up afterwards finds
/// that same row.
pub proof fn lemma_create_then_find(s: StoreView, name: Seq<char>, description: Seq<char>)
    requires
        wf(s),
        !blank(name),
        !has_name(s.rows, name),
        s.next_id < i32::MAX,
    ensures
        ({
            let (s1, r1) = serve_spec(s, create_request(name, description));
            let t = TodoView { id: s.next_id, name, description, done: false };
            &&& r1 == (ReplyView { status: CREATED, body: BodyView::One(t) })
            &&& serve_spec(s1, RequestView::GetByName(Some(name))) == (s1, ReplyView {
                status: OK,
                body: BodyView::One(t),
            })
        }),
{
    let t = TodoView { id: s.next_id, name, description, done: false };
    let s1 = serve_spec(s, create_request(name, description)).0;
    lemma_exec_keeps_wf(s, crate::dispatch::QueryView::Insert(name, description));
    assert(s1.rows == s.rows.push(t));
    assert(s1.rows[s.rows.len() as int] == t);
    assert(has_name(s1.rows, name));
    let j = crate::store::name_index(s1.rows, name);
    assert(s1.rows[j].name == name);
    assert(j == s.rows.len());
}

/// Creating a todo under a name that is taken answers 409 and leaves the
/// table as it was.
pub proof fn lemma_create_conflict(s: StoreView, name: Seq<char>, description: Seq<char>)
    requires
        wf(s),
        !blank(name),
        has_name(s.rows, name),
    ensures
        serve_spec(s, create_request(name, description)) == (s, failure_reply(FailureView::NameTaken)),
        failure_reply(FailureView::NameTaken).status == CONFLICT,
{
}

/// Deleting an existing id answers 200 and removes the row; looking the id
/// up afterwards answers 404.
pub proof fn lemma_delete_then_get(s: StoreView, id: int)
    requires
        wf(s),
        has_id(s.rows, id),
    ensures
        ({
            let (s1, r1) = serve_spec(s, RequestView::Delete(Some(id)));
            &&& r1 == (ReplyView { status: OK, body: BodyView::Deleted(id) })
            &&& !has_id(s1.rows, id)
            &&& serve_spec(s1, RequestView::GetById(Some(id))) == (s1, failure_reply(
                FailureView::NoSuchId(id),
            ))
            &&& failure_reply(FailureView::NoSuchId(id)).status == NOT_FOUND
        }),
{
    let k = id_index(s.rows, id);
    let s1 = serve_spec(s, RequestView::Delete(Some(id))).0;
    assert(s1.rows == s.rows.remove(k));
    assert forall|i: int| 0 <= i < s1.rows.len() implies (#[trigger] s1.rows[i]).id != id by {
        if i < k {
            assert(s1.rows[i] == s.rows[i]);
        } else {
            assert(s1.rows[i] == s.rows[i + 1]);
        }
    }
}

/// Marking an existing id done twice in a row: both answer 200 with the row
/// marked done, and the second changes nothing.
pub proof fn lemma_mark_done_twice(s: StoreView, id: int)
    requires
        wf(s),
        has_id(s.rows, id),
    ensures
        ({
            let (s1, r1) = serve_spec(s, RequestView::MarkDone(Some(id)));
            let (s2, r2) = serve_spec(s1, RequestView::MarkDone(Some(id)));
            &&& r1.status == OK
            &&& r1.body is One
            &&& r1.body->One_0.done
            &&& r1.body->One_0.id == id
            &&& r2 == r1
            &&& s2 == s1
        }),
{
    let k = id_index(s.rows, id);
    let s1 = serve_spec(s, RequestView::MarkDone(Some(id))).0;
    lemma_exec_keeps_wf(s, crate::dispatch::QueryView::MarkDone(id));
    assert(s1.rows[k].id == id);
    assert(has_id(s1.rows, id));
    let k1 = id_index(s1.rows, id);
    assert(k1 == k);
    let s2 = serve_spec(s1, RequestView::MarkDone(Some(id))).0;
    assert(s2.rows =~= s1.rows);
}

/// Updating an id that does not exist answers 404 and writes nothing.
pub proof fn lemma_update_missing(s: StoreView, id: int, fields: FieldsView)
    requires
        wf(s),
        !has_id(s.rows, id),
        update_fault(fields) is None,
    ensures
        serve_spec(s, RequestView::Update(Some(id), Some(fields))) == (s, failure_reply(
            FailureView::IdNotFound(id),
        )),
        failure_reply(FailureView::IdNotFound(id)).status == NOT_FOUND,
{
}

} // verus!
