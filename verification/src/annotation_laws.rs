//! What holds of annotation documents across operations.
use vstd::prelude::*;

use crate::annotations;
use crate::annotations::{
    AnnotationStatus, AnnotationView, ErrorView, NormalizedAnchor, SelectionView, StoreView,
    ANNOTATION_DOCUMENT_VERSION, LEGACY_ANNOTATION_DOCUMENT_VERSION,
};
use crate::text;

verus! {

/// A document of the current version, within its bounds, none of whose annotations has a fault.
proof fn lemma_valid(store: StoreView)
    ensures
        store.valid() <==> {
            &&& store.version == ANNOTATION_DOCUMENT_VERSION
            &&& store.annotations.len() <= annotations::MAX_ANNOTATIONS
            &&& store.next_id != 0
            &&& forall|i: int|
                0 <= i < store.annotations.len() ==> #[trigger] annotations::annotation_fault(
                    store.annotations,
                    i,
                ) is None
        },
{
    annotations::lemma_first_fault(store.annotations, 0);
}

proof fn lemma_padded_digits(n: nat)
    ensures
        text::all_digits(text::zero_padded(text::decimal_text(n), 6)),
{
    text::lemma_decimal_digits(n);
}

/// Different numbers have different comment IDs.
pub proof fn law_comment_ids_differ(m: nat, n: nat)
    requires
        m != n,
    ensures
        annotations::comment_id(m) != annotations::comment_id(n),
{
    let a = text::zero_padded(text::decimal_text(m), 6);
    let b = text::zero_padded(text::decimal_text(n), 6);
    text::lemma_padded_value(m, 6);
    text::lemma_padded_value(n, 6);
    let prefix = "comment-"@;
    assert(annotations::comment_id(m).skip(prefix.len() as int) =~= a);
    assert(annotations::comment_id(n).skip(prefix.len() as int) =~= b);
}

/// A comment ID that a 64-bit number gives has from 1 to 128 bytes.
pub proof fn law_comment_id_fits(n: u64)
    ensures
        1 <= text::byte_len(annotations::comment_id(n as nat)) <= 128,
{
    reveal_with_fuel(text::pow10, 21);
    reveal_strlit("comment-");
    text::lemma_decimal_length(n as nat, 20);
    lemma_padded_digits(n as nat);
    let digits = text::zero_padded(text::decimal_text(n as nat), 6);
    let id = annotations::comment_id(n as nat);
    assert forall|i: int| 0 <= i < id.len() implies (#[trigger] id[i]) as u32 <= 0x7f by {
        if i >= 8 {
            assert(text::is_digit(digits[i - 8]));
        }
    }
    text::lemma_ascii_bytes(id);
}

/// A new document is valid and its (absent) annotations are numbered.
pub proof fn law_fresh_document_is_valid()
    ensures
        StoreView::fresh().valid(),
        StoreView::fresh().sequenced(),
{
    lemma_valid(StoreView::fresh());
}

/// Where every annotation carries an issued number, the ID of the next comment is new.
pub proof fn law_issued_ids_leave_the_next_one_free(store: StoreView)
    requires
        store.sequenced(),
    ensures
        store.position(annotations::comment_id(store.next_id as nat)) is None,
{
    let s = store.annotations;
    let id = annotations::comment_id(store.next_id as nat);
    assert forall|i: int| 0 <= i < s.len() implies (#[trigger] s[i]).id != id by {
        assert(annotations::numbered_below(s[i].id, store.next_id as nat));
        let n = choose|n: nat|
            1 <= n < store.next_id && s[i].id == #[trigger] annotations::comment_id(n);
        law_comment_ids_differ(n, store.next_id as nat);
    }
    annotations::lemma_first_with_id(s, id, 0);
    match annotations::first_with_id(s, id, 0) {
        Some(i) => {
            assert(s[i].id != id);
        },
        None => {},
    }
}

/// Adding a comment to a valid document in which the ID of the next comment is free gives a
/// valid document again, and the new annotation is found under its ID. Where every annotation
/// carries an issued number they all do afterwards, as long as the number sequence has not
/// reached its end.
pub proof fn law_add_keeps_document_valid(
    store: StoreView,
    selection: SelectionView,
    comment: Seq<char>,
    anchor: NormalizedAnchor,
)
    requires
        store.valid(),
        store.position(annotations::comment_id(store.next_id as nat)) is None,
        store.add_fault(selection, comment, anchor) is None,
    ensures
        store.added(selection, comment, anchor).valid(),
        store.added(selection, comment, anchor).position(
            store.new_annotation(selection, comment, anchor).id,
        ) == Some(store.annotations.len() as int),
        store.sequenced() && store.next_id < u64::MAX ==> store.added(
            selection,
            comment,
            anchor,
        ).sequenced(),
{
    let next = store.added(selection, comment, anchor);
    let s = store.annotations;
    let t = next.annotations;
    let id = store.new_annotation(selection, comment, anchor).id;
    lemma_valid(store);
    law_comment_id_fits(store.next_id);
    annotations::lemma_first_with_id(s, id, 0);
    assert forall|i: int| 0 <= i < t.len() implies #[trigger] annotations::annotation_fault(
        t,
        i,
    ) is None by {
        if i < s.len() {
            assert(annotations::annotation_fault(s, i) is None);
            assert(t[i] == s[i]);
            assert forall|j: int| 0 <= j < i implies (#[trigger] t[j]).id != t[i].id by {
                assert(s[j].id != s[i].id);
            }
        } else {
            assert forall|j: int| 0 <= j < i implies (#[trigger] t[j]).id != t[i].id by {
                assert(s[j].id != id);
            }
        }
    }
    lemma_valid(next);
    if store.sequenced() && store.next_id < u64::MAX {
        assert forall|i: int| 0 <= i < t.len() implies annotations::numbered_below(
            (#[trigger] t[i]).id,
            next.next_id as nat,
        ) by {
            if i < s.len() {
                assert(annotations::numbered_below(s[i].id, store.next_id as nat));
                let n = choose|n: nat|
                    1 <= n < store.next_id && s[i].id == #[trigger] annotations::comment_id(n);
                assert(t[i].id == annotations::comment_id(n));
            } else {
                assert(t[i].id == annotations::comment_id(store.next_id as nat));
            }
        }
    }
    annotations::lemma_first_with_id(t, id, 0);
    match annotations::first_with_id(t, id, 0) {
        Some(i) => {
            if i < s.len() {
                assert(s[i].id != id);
            }
        },
        None => {
            assert(t[s.len() as int].id == id);
        },
    }
}

proof fn lemma_same_identities(store: StoreView, next: StoreView)
    requires
        store.valid(),
        next.version == store.version,
        next.next_id == store.next_id,
        next.annotations.len() == store.annotations.len(),
        forall|i: int|
            0 <= i < store.annotations.len() ==> {
                &&& (#[trigger] next.annotations[i]).id == store.annotations[i].id
                &&& next.annotations[i].target == store.annotations[i].target
                &&& next.annotations[i].anchor == store.annotations[i].anchor
                &&& annotations::valid_comment(store.annotations[i].comment)
                    ==> annotations::valid_comment(next.annotations[i].comment)
            },
    ensures
        next.valid(),
        store.sequenced() ==> next.sequenced(),
{
    let s = store.annotations;
    let t = next.annotations;
    lemma_valid(store);
    assert forall|i: int| 0 <= i < t.len() implies #[trigger] annotations::annotation_fault(
        t,
        i,
    ) is None by {
        assert(annotations::annotation_fault(s, i) is None);
        assert(t[i].id == s[i].id);
        assert forall|j: int| 0 <= j < i implies (#[trigger] t[j]).id != t[i].id by {
            assert(s[j].id != s[i].id);
        }
    }
    lemma_valid(next);
    if store.sequenced() {
        assert forall|i: int| 0 <= i < t.len() implies annotations::numbered_below(
            (#[trigger] t[i]).id,
            next.next_id as nat,
        ) by {
            assert(annotations::numbered_below(s[i].id, store.next_id as nat));
        }
    }
}

/// Moving a task to another state keeps the document valid, and keeps every other
/// annotation, every ID, target, anchor and comment, and the order.
pub proof fn law_transition_keeps_document_valid(store: StoreView, i: int, next: AnnotationStatus)
    requires
        store.valid(),
        0 <= i < store.annotations.len(),
    ensures
        store.with_status(i, next).valid(),
        store.sequenced() ==> store.with_status(i, next).sequenced(),
        store.with_status(i, next).annotations.len() == store.annotations.len(),
        forall|j: int|
            0 <= j < store.annotations.len() ==> #[trigger] store.with_status(
                i,
                next,
            ).annotations[j] == (AnnotationView {
                status: if j == i {
                    next
                } else {
                    store.annotations[j].status
                },
                ..store.annotations[j]
            }),
{
    lemma_same_identities(store, store.with_status(i, next));
}

/// Rewriting a comment with acceptable text keeps the document valid.
pub proof fn law_update_keeps_document_valid(store: StoreView, i: int, comment: Seq<char>)
    requires
        store.valid(),
        0 <= i < store.annotations.len(),
        annotations::valid_comment(comment),
    ensures
        store.with_comment(i, comment).valid(),
        store.sequenced() ==> store.with_comment(i, comment).sequenced(),
        store.with_comment(i, comment).annotations[i].status == store.annotations[i].status,
{
    lemma_same_identities(store, store.with_comment(i, comment));
}

proof fn lemma_without_has_no_fault(s: Seq<AnnotationView>, id: Seq<char>)
    requires
        forall|i: int|
            0 <= i < s.len() ==> #[trigger] annotations::annotation_fault(s, i) is None,
    ensures
        forall|i: int|
            0 <= i < annotations::without_id(s, id).len() ==> #[trigger] annotations::annotation_fault(
                annotations::without_id(s, id),
                i,
            ) is None,
    decreases s.len(),
{
    if s.len() > 0 {
        let p = s.drop_last();
        assert forall|i: int| 0 <= i < p.len() implies #[trigger] annotations::annotation_fault(
            p,
            i,
        ) is None by {
            assert(annotations::annotation_fault(s, i) is None);
            assert forall|j: int| 0 <= j < i implies (#[trigger] p[j]).id != p[i].id by {
                assert(s[j].id != s[i].id);
            }
        }
        lemma_without_has_no_fault(p, id);
        annotations::lemma_without_id(p, id);
        let w = annotations::without_id(p, id);
        let t = annotations::without_id(s, id);
        if s.last().id != id {
            assert forall|i: int| 0 <= i < t.len() implies #[trigger] annotations::annotation_fault(
                t,
                i,
            ) is None by {
                if i < w.len() {
                    assert(annotations::annotation_fault(w, i) is None);
                    assert forall|j: int| 0 <= j < i implies (#[trigger] t[j]).id != t[i].id by {
                        assert(w[j].id != w[i].id);
                    }
                } else {
                    let last = s.len() - 1;
                    assert(annotations::annotation_fault(s, last) is None);
                    assert forall|j: int| 0 <= j < i implies (#[trigger] t[j]).id != t[i].id by {
                        assert(t[j] == w[j]);
                        assert(p.contains(w[j]));
                        let k = choose|k: int| 0 <= k < p.len() && p[k] == w[j];
                        assert(s[k].id != s[last].id);
                    }
                }
            }
        }
    }
}

/// Deleting a comment keeps the document valid and leaves no annotation under that ID.
pub proof fn law_remove_keeps_document_valid(store: StoreView, id: Seq<char>)
    requires
        store.valid(),
    ensures
        store.without(id).valid(),
        store.sequenced() ==> store.without(id).sequenced(),
        store.without(id).position(id) is None,
        store.position(id) is None ==> store.without(id) == store,
{
    let s = store.annotations;
    let w = annotations::without_id(s, id);
    lemma_valid(store);
    lemma_without_has_no_fault(s, id);
    annotations::lemma_without_id(s, id);
    lemma_valid(store.without(id));
    if store.sequenced() {
        assert forall|i: int| 0 <= i < w.len() implies annotations::numbered_below(
            (#[trigger] w[i]).id,
            store.next_id as nat,
        ) by {
            assert(s.contains(w[i]));
            let k = choose|k: int| 0 <= k < s.len() && s[k] == w[i];
            assert(annotations::numbered_below(s[k].id, store.next_id as nat));
        }
    }
    annotations::lemma_first_with_id(w, id, 0);
    annotations::lemma_first_with_id(s, id, 0);
    match annotations::first_with_id(w, id, 0) {
        Some(i) => {
            assert(w[i].id != id);
        },
        None => {},
    }
}

/// The active queue holds exactly the annotations of the document that are active.
pub proof fn law_active_queue(s: Seq<AnnotationView>)
    ensures
        forall|a: AnnotationView| #[trigger]
            annotations::active_of(s).contains(a) <==> s.contains(a) && a.status.active(),
        annotations::active_of(s).len() <= s.len(),
    decreases s.len(),
{
    let q = annotations::active_of(s);
    if s.len() > 0 {
        let p = s.drop_last();
        law_active_queue(p);
        let r = annotations::active_of(p);
        assert forall|a: AnnotationView| #[trigger] q.contains(a) implies s.contains(a)
            && a.status.active() by {
            let k = choose|k: int| 0 <= k < q.len() && q[k] == a;
            if k < r.len() {
                assert(r[k] == a);
                assert(r.contains(a));
                let m = choose|m: int| 0 <= m < p.len() && p[m] == a;
                assert(s[m] == a);
            } else {
                assert(s[s.len() - 1] == a);
            }
        }
        assert forall|a: AnnotationView| s.contains(a) && a.status.active() implies #[trigger] q.contains(
            a,
        ) by {
            let k = choose|k: int| 0 <= k < s.len() && s[k] == a;
            if k < p.len() {
                assert(p[k] == a);
                assert(r.contains(a));
                let m = choose|m: int| 0 <= m < r.len() && r[m] == a;
                assert(q[m] == a);
            } else {
                assert(q[q.len() - 1] == a);
            }
        }
    }
}

/// Completed and archived tasks leave the active queue but remain in the document: after
/// such a transition no active annotation has the task's ID, and the history is as long as
/// before.
pub proof fn law_completed_tasks_leave_queue(store: StoreView, i: int, next: AnnotationStatus)
    requires
        store.valid(),
        0 <= i < store.annotations.len(),
        !next.active(),
    ensures
        store.with_status(i, next).annotations.len() == store.annotations.len(),
        store.with_status(i, next).annotations[i].id == store.annotations[i].id,
        forall|a: AnnotationView| #[trigger]
            annotations::active_of(store.with_status(i, next).annotations).contains(a) ==> a.id
                != store.annotations[i].id,
{
    let s = store.annotations;
    let t = store.with_status(i, next).annotations;
    lemma_valid(store);
    law_active_queue(t);
    assert forall|a: AnnotationView| #[trigger] annotations::active_of(t).contains(a) implies a.id
        != s[i].id by {
        assert(t.contains(a) && a.status.active());
        let k = choose|k: int| 0 <= k < t.len() && t[k] == a;
        assert(t[k].status.active());
        assert(k != i);
        assert(annotations::annotation_fault(s, i) is None);
        assert(annotations::annotation_fault(s, k) is None);
        if k < i {
            assert(s[k].id != s[i].id);
        } else {
            assert(s[i].id != s[k].id);
        }
    }
}

/// The three counts add up to the number of annotations, and the first is the length of the
/// active queue.
pub proof fn law_counts_cover_document(s: Seq<AnnotationView>)
    ensures
        annotations::count_of(s, AnnotationStatus::Open) + annotations::count_of(
            s,
            AnnotationStatus::InProgress,
        ) == annotations::active_of(s).len(),
        annotations::active_of(s).len() + annotations::count_of(s, AnnotationStatus::Done)
            + annotations::count_of(s, AnnotationStatus::Archived) == s.len(),
    decreases s.len(),
{
    if s.len() > 0 {
        law_counts_cover_document(s.drop_last());
    }
}

/// What was accepted for saving loads unchanged.
pub proof fn law_saved_document_loads(store: StoreView)
    requires
        store.valid(),
    ensures
        store.loaded() == Ok::<StoreView, annotations::ErrorView>(store),
{
    assert(store.migrated() =~= store);
}

/// What loads is valid, so it can be saved again; loading it once more changes nothing.
pub proof fn law_loaded_document_is_valid(store: StoreView)
    requires
        store.loaded() is Ok,
    ensures
        store.loaded()->Ok_0.valid(),
        store.loaded()->Ok_0.loaded() == store.loaded(),
        store.loaded()->Ok_0.annotations == store.annotations,
        store.loaded()->Ok_0.next_id == store.next_id,
{
    assert(store.migrated().migrated() =~= store.migrated());
}

/// A document of the older version loads as the same document of the current version does.
pub proof fn law_legacy_document_migrates(store: StoreView)
    requires
        store.version == LEGACY_ANNOTATION_DOCUMENT_VERSION,
    ensures
        store.loaded() == store.migrated().loaded(),
{
    assert(store.migrated().migrated() =~= store.migrated());
}

/// The latest active task of an element is one of the queue; there is one just when the
/// queue holds a task on that element.
pub proof fn law_latest_active(s: Seq<AnnotationView>, runtime_id: Seq<char>)
    ensures
        match annotations::latest_active(s, runtime_id) {
            Some(a) => annotations::active_of(s).contains(a) && a.target.runtime_id == runtime_id,
            None => forall|a: AnnotationView| #[trigger]
                annotations::active_of(s).contains(a) ==> a.target.runtime_id != runtime_id,
        },
    decreases s.len(),
{
    law_active_queue(s);
    if s.len() > 0 {
        let p = s.drop_last();
        law_latest_active(p, runtime_id);
        law_active_queue(p);
        if s.last().status.active() && s.last().target.runtime_id == runtime_id {
            assert(s[s.len() - 1] == s.last());
            assert(s.contains(s.last()));
        } else {
            match annotations::latest_active(p, runtime_id) {
                Some(a) => {
                    let k = choose|k: int| 0 <= k < p.len() && p[k] == a;
                    assert(s[k] == a);
                },
                None => {
                    assert forall|a: AnnotationView| #[trigger]
                        annotations::active_of(s).contains(a) implies a.target.runtime_id
                        != runtime_id by {
                        let k = choose|k: int| 0 <= k < s.len() && s[k] == a;
                        if k < p.len() {
                            assert(p[k] == a);
                            assert(annotations::active_of(p).contains(a));
                        }
                    }
                },
            }
        }
    }
}

// ---------------------------------------------------------------------------
// What operations do, by their inputs
// ---------------------------------------------------------------------------

/// The active queue is the document's open and started tasks, in the document's order.
pub proof fn law_queue_is_in_document_order(s: Seq<AnnotationView>)
    ensures
        annotations::active_of(s) == s.filter(
            |a: AnnotationView|
                a.status == AnnotationStatus::Open || a.status == AnnotationStatus::InProgress,
        ),
    decreases s.len(),
{
    reveal(Seq::filter);
    if s.len() > 0 {
        law_queue_is_in_document_order(s.drop_last());
    }
}

/// A count is the number of the document's tasks in that state.
pub proof fn law_counts_are_of_the_state(s: Seq<AnnotationView>, status: AnnotationStatus)
    ensures
        annotations::count_of(s, status) == s.filter(|a: AnnotationView| a.status == status).len(),
    decreases s.len(),
{
    reveal(Seq::filter);
    if s.len() > 0 {
        law_counts_are_of_the_state(s.drop_last(), status);
    }
}

/// Deleting keeps every comment with another ID, in order, and the number sequence.
pub proof fn law_removal_keeps_the_others_in_order(store: StoreView, id: Seq<char>)
    ensures
        store.without(id).annotations == store.annotations.filter(
            |a: AnnotationView| a.id != id,
        ),
        store.without(id).version == store.version,
        store.without(id).next_id == store.next_id,
{
    lemma_without_is_filter(store.annotations, id);
}

proof fn lemma_without_is_filter(s: Seq<AnnotationView>, id: Seq<char>)
    ensures
        annotations::without_id(s, id) == s.filter(|a: AnnotationView| a.id != id),
    decreases s.len(),
{
    reveal(Seq::filter);
    if s.len() > 0 {
        lemma_without_is_filter(s.drop_last(), id);
    }
}

/// The latest active task of an element is the last one of the document that is open or started
/// and is on that element.
pub proof fn law_latest_active_is_the_last(s: Seq<AnnotationView>, runtime_id: Seq<char>, k: int)
    requires
        0 <= k < s.len(),
        s[k].status == AnnotationStatus::Open || s[k].status == AnnotationStatus::InProgress,
        s[k].target.runtime_id == runtime_id,
        forall|j: int|
            k < j < s.len() ==> (#[trigger] s[j]).target.runtime_id != runtime_id || s[j].status
                == AnnotationStatus::Done || s[j].status == AnnotationStatus::Archived,
    ensures
        annotations::latest_active(s, runtime_id) == Some(s[k]),
    decreases s.len(),
{
    let last = s.len() - 1;
    if k < last {
        assert(s[last].target.runtime_id != runtime_id || s[last].status
            == AnnotationStatus::Done || s[last].status == AnnotationStatus::Archived);
        law_latest_active_is_the_last(s.drop_last(), runtime_id, k);
    }
}

/// A row of IDs names annotations one by one: a known ID names the first annotation with it, an
/// unknown one names none, and the order is that of the IDs.
pub proof fn law_named_annotations_follow_the_ids(
    s: Seq<AnnotationView>,
    a: Seq<Seq<char>>,
    b: Seq<Seq<char>>,
    id: Seq<char>,
    k: int,
)
    ensures
        annotations::named_annotations(s, a + b) == annotations::named_annotations(s, a)
            + annotations::named_annotations(s, b),
        0 <= k < s.len() && s[k].id == id && (forall|j: int|
            0 <= j < k ==> (#[trigger] s[j]).id != id) ==> annotations::named_annotations(
            s,
            seq![id],
        ) == seq![s[k]],
        (forall|j: int| 0 <= j < s.len() ==> (#[trigger] s[j]).id != id)
            ==> annotations::named_annotations(s, seq![id]).len() == 0,
{
    lemma_named_sum(s, a, b);
    annotations::lemma_first_with_id(s, id, 0);
    let one = seq![id];
    assert(one.drop_last() =~= Seq::<Seq<char>>::empty());
    assert(annotations::named_annotations(s, one.drop_last()) =~= Seq::<AnnotationView>::empty());
    match annotations::first_with_id(s, id, 0) {
        Some(i) => {
            assert(annotations::named_annotations(s, one) =~= seq![s[i]]);
            if 0 <= k < i {
                assert(s[k].id != id);
            }
        },
        None => {
            if 0 <= k < s.len() {
                assert(s[k].id != id);
            }
        },
    }
}

proof fn lemma_named_sum(s: Seq<AnnotationView>, a: Seq<Seq<char>>, b: Seq<Seq<char>>)
    ensures
        annotations::named_annotations(s, a + b) == annotations::named_annotations(s, a)
            + annotations::named_annotations(s, b),
    decreases b.len(),
{
    if b.len() == 0 {
        assert(a + b =~= a);
        assert(annotations::named_annotations(s, a) + annotations::named_annotations(s, b)
            =~= annotations::named_annotations(s, a));
    } else {
        lemma_named_sum(s, a, b.drop_last());
        assert((a + b).drop_last() =~= a + b.drop_last());
        assert((a + b).last() == b.last());
        assert(annotations::named_annotations(s, a + b) =~= annotations::named_annotations(s, a)
            + annotations::named_annotations(s, b));
    }
}

/// Tasks move between states as reviews do: every task may be reopened and may keep its state;
/// an open or started one may be started, stopped or completed but not archived; a completed one
/// may be archived; an archived one may only be reopened.
pub proof fn law_review_states(from: AnnotationStatus, to: AnnotationStatus)
    ensures
        !from.may_become(to) <==> ({
            ||| from == AnnotationStatus::Open && to == AnnotationStatus::Archived
            ||| from == AnnotationStatus::InProgress && to == AnnotationStatus::Archived
            ||| from == AnnotationStatus::Done && to == AnnotationStatus::InProgress
            ||| from == AnnotationStatus::Archived && to == AnnotationStatus::InProgress
            ||| from == AnnotationStatus::Archived && to == AnnotationStatus::Done
        }),
{
}

/// A new comment comes last, open, on the selected element, without outer white space, under the
/// next number with at least six digits; the earlier annotations stay and the number moves on.
pub proof fn law_added_comment_comes_last(
    store: StoreView,
    selection: SelectionView,
    comment: Seq<char>,
    anchor: NormalizedAnchor,
)
    ensures
        ({
            let after = store.added(selection, comment, anchor);
            let n = store.annotations.len() as int;
            &&& after.version == store.version
            &&& after.annotations.len() == n + 1
            &&& forall|i: int|
                0 <= i < n ==> #[trigger] after.annotations[i] == store.annotations[i]
            &&& after.annotations[n].status == AnnotationStatus::Open
            &&& after.annotations[n].target == selection
            &&& after.annotations[n].anchor == anchor
            &&& after.annotations[n].comment == text::trimmed(comment)
            &&& after.annotations[n].id == "comment-"@ + text::zero_padded(
                text::decimal_text(store.next_id as nat),
                6,
            )
            &&& store.next_id < u64::MAX ==> after.next_id == store.next_id + 1
            &&& store.next_id == u64::MAX ==> after.next_id == u64::MAX
        }),
{
}

/// Rewriting a comment changes that comment's text alone.
pub proof fn law_update_changes_one_text(store: StoreView, i: int, comment: Seq<char>, j: int)
    requires
        0 <= i < store.annotations.len(),
        0 <= j < store.annotations.len(),
    ensures
        ({
            let after = store.with_comment(i, comment);
            &&& after.version == store.version
            &&& after.next_id == store.next_id
            &&& after.annotations.len() == store.annotations.len()
            &&& after.annotations[j].id == store.annotations[j].id
            &&& after.annotations[j].target == store.annotations[j].target
            &&& after.annotations[j].anchor == store.annotations[j].anchor
            &&& after.annotations[j].status == store.annotations[j].status
            &&& after.annotations[j].comment == (if j == i {
                comment
            } else {
                store.annotations[j].comment
            })
        }),
{
}

/// An annotation is resolved against the element with its runtime ID: the bounds of the first
/// node with that ID are the current ones, and the anchor lies at its fractions of their width
/// and height from their corner. Without such a node, or bounds, it has no place.
pub proof fn law_annotations_follow_their_element(
    annotation: AnnotationView,
    tree: crate::automation::UiTree,
    k: int,
)
    ensures
        annotations::resolved_view(annotation, tree).annotation == annotation,
        annotations::resolved_view(annotation, tree).semantic_generation == tree.generation,
        0 <= k < tree.nodes@.len() && tree.nodes@[k].id@ == annotation.target.runtime_id && (forall|
            j: int,
        |
            0 <= j < k ==> (#[trigger] tree.nodes@[j]).id@ != annotation.target.runtime_id) ==> {
            let resolved = annotations::resolved_view(annotation, tree);
            &&& resolved.current_rect == tree.nodes@[k].bounds
            &&& match tree.nodes@[k].bounds {
                Some(rect) => {
                    &&& resolved.anchor_point is Some
                    &&& resolved.anchor_point->0.x.origin == rect.x
                    &&& resolved.anchor_point->0.x.extent == rect.width
                    &&& resolved.anchor_point->0.x.fraction == annotation.anchor.x
                    &&& resolved.anchor_point->0.y.origin == rect.y
                    &&& resolved.anchor_point->0.y.extent == rect.height
                    &&& resolved.anchor_point->0.y.fraction == annotation.anchor.y
                },
                None => resolved.anchor_point is None,
            }
        },
        (forall|j: int|
            0 <= j < tree.nodes@.len() ==> (#[trigger] tree.nodes@[j]).id@
                != annotation.target.runtime_id) ==> annotations::resolved_view(
            annotation,
            tree,
        ).current_rect is None && annotations::resolved_view(annotation, tree).anchor_point is None,
{
    crate::automation::law_first_node_is_found(tree.nodes@, annotation.target.runtime_id, 0);
}

/// A document can be saved just where it has the current version, at most the allowed number of
/// annotations and a number sequence that has begun, and each annotation has an ID of its own of 1
/// to 128 bytes, a comment of 1 to 16384 bytes, an anchor within its element and a well-formed
/// target.
pub proof fn law_valid_documents(store: StoreView)
    ensures
        store.valid() <==> {
            &&& store.version == 2
            &&& store.annotations.len() <= 2048
            &&& store.next_id != 0
            &&& forall|i: int|
                0 <= i < store.annotations.len() ==> {
                    let a = #[trigger] store.annotations[i];
                    &&& 1 <= text::byte_len(a.id) <= 128
                    &&& 1 <= text::byte_len(a.comment) <= 16384
                    &&& 1 <= text::byte_len(a.target.authored_id) <= 256
                    &&& 1 <= text::byte_len(a.target.runtime_id) <= 256
                    &&& a.target.document_revision != 0
                    &&& a.target.captured_rect is Some ==> a.target.captured_rect->0.valid
                    &&& a.anchor.x.finite() && 0 <= a.anchor.x.rank() <= 0x3f80_0000
                    &&& a.anchor.y.finite() && 0 <= a.anchor.y.rank() <= 0x3f80_0000
                }
            &&& forall|i: int, j: int|
                0 <= i < j < store.annotations.len() ==> (#[trigger] store.annotations[i]).id
                    != (#[trigger] store.annotations[j]).id
        },
{
    lemma_valid(store);
    let s = store.annotations;
    if store.valid() {
        assert forall|i: int| 0 <= i < s.len() implies {
            let a = #[trigger] s[i];
            &&& 1 <= text::byte_len(a.id) <= 128
            &&& 1 <= text::byte_len(a.comment) <= 16384
            &&& a.target.valid()
            &&& a.anchor.valid()
        } by {
            assert(annotations::annotation_fault(s, i) is None);
        }
        assert forall|i: int, j: int| 0 <= i < j < s.len() implies (#[trigger] s[i]).id != (
        #[trigger] s[j]).id by {
            assert(annotations::annotation_fault(s, j) is None);
        }
    } else if store.version == ANNOTATION_DOCUMENT_VERSION && s.len()
        <= annotations::MAX_ANNOTATIONS && store.next_id != 0 {
        let i = choose|i: int|
            0 <= i < s.len() && #[trigger] annotations::annotation_fault(s, i) is Some;
        let a = s[i];
        if annotations::valid_identity(s, i) {
        } else if 1 <= text::byte_len(a.id) <= 128 && annotations::valid_comment(a.comment) {
            let j = choose|j: int| 0 <= j < i && (#[trigger] s[j]).id == s[i].id;
            assert(s[j].id == s[i].id);
        }
    }
}

/// A document of a version that is neither the current nor the one before is refused with its
/// version.
pub proof fn law_unknown_versions_are_refused(store: StoreView)
    requires
        store.version != 2,
        store.version != 1,
    ensures
        store.loaded() == Err::<StoreView, annotations::ErrorView>(
            annotations::ErrorView::UnsupportedVersion {
                found: store.version,
                supported: 2,
            },
        ),
{
}

/// The first annotation with a fault decides what is wrong with a document: its ID or its comment
/// first, then what it is about, then its anchor.
pub proof fn law_first_fault_decides(s: Seq<AnnotationView>, from: int, i: int)
    requires
        0 <= from <= i < s.len(),
        forall|j: int| from <= j < i ==> #[trigger] annotations::annotation_fault(s, j) is None,
    ensures
        ({
            let a = s[i];
            let named = 1 <= text::byte_len(a.id) <= 128 && 1 <= text::byte_len(a.comment) <= 16384
                && forall|j: int| 0 <= j < i ==> (#[trigger] s[j]).id != a.id;
            let found = annotations::first_fault(s, from);
            &&& !named ==> found == Some(
                ErrorView::Invalid("annotation identity or comment is invalid"@),
            )
            &&& named && !a.target.valid() ==> found == Some(
                ErrorView::Invalid("annotation selection is invalid"@),
            )
            &&& named && a.target.valid() && !a.anchor.valid() ==> found == Some(
                ErrorView::Invalid("annotation anchor is invalid"@),
            )
            &&& named && a.target.valid() && a.anchor.valid() ==> found
                == annotations::first_fault(s, i + 1)
        }),
        annotations::first_fault(s, s.len() as int) is None,
    decreases i - from,
{
    if from < i {
        assert(annotations::annotation_fault(s, from) is None);
        law_first_fault_decides(s, from + 1, i);
    }
}

} // verus!
