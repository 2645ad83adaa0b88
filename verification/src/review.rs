//! Reviewing: the annotation editor, its automatic saving and the handoff.
use vstd::prelude::*;

use crate::annotations;
use crate::annotations::{
    AnnotationError, AnnotationStatus, AnnotationStore, AnnotationView, ElementSelection,
    NormalizedAnchor, SelectionView, StoreView,
};
use crate::automation::Rect;
use crate::panels;
use crate::studio::{PendingEdits, Review};
use crate::text;

verus! {

impl PendingEdits {
    /// One tick later: nothing where no change waits; the change is due at the second quiet
    /// tick.
    pub open spec fn ticked(self) -> PendingEdits {
        if !self.dirty {
            self
        } else {
            PendingEdits {
                quiet_ticks: if self.quiet_ticks == u8::MAX {
                    u8::MAX
                } else {
                    (self.quiet_ticks + 1) as u8
                },
                ..self
            }
        }
    }

    /// Lets one quiet tick pass. Tells whether the waiting change is due.
    pub fn tick(&mut self) -> (due: bool)
        ensures
            *final(self) == old(self).ticked(),
            due == (old(self).dirty && final(self).quiet_ticks >= 2),
    {
        if !self.dirty {
            return false;
        }
        if self.quiet_ticks < u8::MAX {
            self.quiet_ticks = self.quiet_ticks + 1;
        }
        self.quiet_ticks >= 2
    }

    /// After a save of inspector edits: nothing waits where it succeeded; a failed one waits
    /// for two more quiet ticks.
    pub fn finish_component_save(&mut self, saved: Result<(), String>) -> (status: String)
        ensures
            *final(self) == (PendingEdits {
                dirty: if saved is Ok {
                    false
                } else {
                    old(self).dirty
                },
                quiet_ticks: 0,
            }),
            status@ == panels::outcome_status(
                saved,
                "Persist inspector edit failed: "@,
                "Inspector edit saved · runtime stayed live"@,
            ),
    {
        self.quiet_ticks = 0;
        match saved {
            Ok(()) => {
                self.dirty = false;
                "Inspector edit saved · runtime stayed live".to_owned()
            },
            Err(error) => text::join2("Persist inspector edit failed: ", error.as_str()),
        }
    }
}

/// A change becomes due at the second tick after it was made, and not before.
pub proof fn law_changes_become_due_at_second_tick()
    ensures
        PendingEdits::fresh().ticked().quiet_ticks == 1,
        PendingEdits::fresh().ticked().ticked().quiet_ticks == 2,
        PendingEdits::none().ticked() == PendingEdits::none(),
{
}

/// What saving the draft asks for.
#[derive(Debug)]
pub enum DraftCommit {
    /// The draft is blank: there is nothing to save.
    Nothing,
    /// The document refused the comment.
    Rejected(String),
    /// This document is to be persisted; the draft is its annotation with this ID.
    Save { candidate: AnnotationStore, id: String },
}

/// What removing the edited annotation does to the review, and what it asks for.
pub open spec fn removal_prepared(before: Review, after: Review, out: DraftCommit) -> bool {
    match before.active {
        None => {
            &&& out is Nothing
            &&& after == (Review {
                draft: after.draft,
                popover_open: false,
                ..before.settled()
            })
            &&& after.draft@.len() == 0
        },
        Some(id) => {
            &&& after == before.settled()
            &&& if before.annotations@.position(id@) is None {
                out matches DraftCommit::Rejected(status) && status@
                    == "Remove annotation rejected: "@
                    + annotations::ErrorView::NotFound.message()
            } else {
                out matches DraftCommit::Save { candidate, id: removed } && candidate@
                    == before.annotations@.without(id@) && removed == id
            }
        },
    }
}

impl Review {
    /// The review with no change waiting.
    pub open spec fn settled(&self) -> Review {
        Review { pending: PendingEdits::none(), ..*self }
    }

    /// Prepares saving the draft: a blank draft is not saved, a new annotation is added on
    /// the selected element, an existing one gets the new text. No change waits afterwards.
    pub fn prepare_commit(&mut self, selection: &ElementSelection, current_rect: Option<Rect>) -> (
        commit: DraftCommit)
        ensures
            *final(self) == old(self).settled(),
            ({
                let comment = text::trimmed(old(self).draft@);
                let target = SelectionView { captured_rect: current_rect, ..selection@ };
                let anchor = NormalizedAnchor {
                    x: crate::float_bits::Float32 { bits: crate::float_bits::HALF_BITS },
                    y: crate::float_bits::Float32 { bits: crate::float_bits::HALF_BITS },
                };
                let store = old(self).annotations@;
                if comment.len() == 0 {
                    commit is Nothing
                } else {
                    match old(self).active {
                        Some(id) => if !annotations::valid_comment(comment) {
                            commit matches DraftCommit::Rejected(status) && status@
                                == "Update annotation rejected: "@ + annotations::ErrorView::Invalid(
                                "annotation comment is empty or exceeds 16 KiB"@,
                            ).message()
                        } else {
                            match store.position(id@) {
                                None => commit matches DraftCommit::Rejected(status) && status@
                                    == "Update annotation rejected: "@
                                    + annotations::ErrorView::NotFound.message(),
                                Some(i) => commit matches DraftCommit::Save {
                                    candidate,
                                    id: saved_id,
                                } && candidate@ == store.with_comment(i, comment) && saved_id@
                                    == id@,
                            }
                        },
                        None => match store.add_fault(target, comment, anchor) {
                            Some(fault) => commit matches DraftCommit::Rejected(status) && status@
                                == "Add annotation rejected: "@ + fault.message(),
                            None => commit matches DraftCommit::Save { candidate, id } && candidate@
                                == store.added(target, comment, anchor) && id@
                                == store.new_annotation(target, comment, anchor).id,
                        },
                    }
                }
            }),
    {
        self.pending = PendingEdits { dirty: false, quiet_ticks: 0 };
        let comment = text::trim(self.draft.as_str());
        if comment.unicode_len() == 0 {
            return DraftCommit::Nothing;
        }
        proof {
            text::law_trim_idempotent(old(self).draft@);
        }
        let mut candidate = self.annotations.clone();
        match &self.active {
            Some(id) => match candidate.update_comment(id.as_str(), comment) {
                Ok(annotation) => {
                    proof {
                        annotations::lemma_first_with_id(
                            old(self).annotations@.annotations,
                            id@,
                            0,
                        );
                    }
                    DraftCommit::Save { candidate, id: annotation.id }
                },
                Err(error) => DraftCommit::Rejected(
                    text::join2("Update annotation rejected: ", error.message().as_str()),
                ),
            },
            None => {
                let mut target = selection.clone();
                target.captured_rect = current_rect;
                match candidate.add(target, comment, NormalizedAnchor::default()) {
                    Ok(annotation) => DraftCommit::Save { candidate, id: annotation.id },
                    Err(error) => DraftCommit::Rejected(
                        text::join2("Add annotation rejected: ", error.message().as_str()),
                    ),
                }
            },
        }
    }

    /// Takes over the saved document; a failed save changes nothing.
    pub fn finish_commit(
        &mut self,
        candidate: AnnotationStore,
        id: String,
        saved: Result<(), String>,
    ) -> (status: String)
        ensures
            match saved {
                Ok(()) => *final(self) == (Review {
                    annotations: candidate,
                    active: Some(id),
                    ..*old(self)
                }),
                Err(_) => *final(self) == *old(self),
            },
            status@ == panels::outcome_status(
                saved,
                "Persist annotation failed: "@,
                "Annotation saved · Send to hand off to the agent"@,
            ),
    {
        match saved {
            Err(error) => text::join2("Persist annotation failed: ", error.as_str()),
            Ok(()) => {
                self.annotations = candidate;
                self.active = Some(id);
                "Annotation saved · Send to hand off to the agent".to_owned()
            },
        }
    }

    /// Opens an empty editor for a new annotation on a node.
    pub fn begin_annotation_on(&mut self, node_id: &str) -> (status: String)
        ensures
            *final(self) == (Review {
                active: None,
                draft: final(self).draft,
                pending: PendingEdits::none(),
                popover_open: true,
                ..*old(self)
            }),
            final(self).draft@.len() == 0,
            status@ == "New annotation on #"@ + node_id@ + " · type a comment"@,
    {
        self.active = None;
        self.draft = String::new();
        self.pending = PendingEdits { dirty: false, quiet_ticks: 0 };
        self.popover_open = true;
        text::join3("New annotation on #", node_id, " · type a comment")
    }

    /// Opens the editor for a new annotation from the right-click menu.
    pub fn annotate_from_menu(&mut self) -> (status: String)
        ensures
            *final(self) == (Review {
                active: None,
                draft: final(self).draft,
                popover_open: true,
                ..*old(self)
            }),
            final(self).draft@.len() == 0,
            status@ == "New annotation on the selected element"@,
    {
        self.active = None;
        self.draft = String::new();
        self.popover_open = true;
        "New annotation on the selected element".to_owned()
    }

    /// Types into the editor.
    pub fn set_annotation_draft(&mut self, draft: String)
        ensures
            *final(self) == (Review { draft, pending: PendingEdits::fresh(), ..*old(self) }),
    {
        self.draft = draft;
        self.pending = PendingEdits { dirty: true, quiet_ticks: 0 };
    }

    /// Closes the editor.
    pub fn close_editor(&mut self)
        ensures
            *final(self) == (Review { popover_open: false, ..*old(self) }),
    {
        self.popover_open = false;
    }

    /// Opens the editor for an existing annotation and gives the element to reveal; says so
    /// where the annotation no longer exists.
    pub fn activate_annotation(&mut self, id: &str) -> (out: Result<ElementSelection, String>)
        ensures
            match old(self).annotations@.position(id@) {
                None => {
                    &&& out is Err
                    &&& out->Err_0@ == "Annotation "@ + id@ + " no longer exists"@
                    &&& *final(self) == *old(self)
                },
                Some(i) => {
                    &&& out is Ok
                    &&& out->Ok_0@ == old(self).annotations@.annotations[i].target
                    &&& *final(self) == (Review {
                        active: final(self).active,
                        draft: final(self).draft,
                        pending: PendingEdits::none(),
                        popover_open: true,
                        ..*old(self)
                    })
                    &&& text::text_view(final(self).active) == Some(id@)
                    &&& final(self).draft@ == old(self).annotations@.annotations[i].comment
                },
            },
    {
        match self.annotations.find(id) {
            None => Err(text::join3("Annotation ", id, " no longer exists")),
            Some(i) => {
                self.active = Some(id.to_owned());
                self.draft = self.annotations.annotations[i].comment.clone();
                self.pending = PendingEdits { dirty: false, quiet_ticks: 0 };
                self.popover_open = true;
                Ok(self.annotations.annotations[i].target.clone())
            },
        }
    }

    /// Prepares deleting the annotation in the editor: an unsaved draft is thrown away, a
    /// saved annotation is taken out of the document that is to be persisted.
    pub fn prepare_delete(&mut self) -> (out: DraftCommit)
        ensures
            removal_prepared(*old(self), *final(self), out),
    {
        self.pending = PendingEdits { dirty: false, quiet_ticks: 0 };
        match self.active.clone() {
            None => {
                self.draft = String::new();
                self.popover_open = false;
                DraftCommit::Nothing
            },
            Some(id) => {
                let mut candidate = self.annotations.clone();
                match candidate.remove(id.as_str()) {
                    Err(error) => DraftCommit::Rejected(
                        text::join2("Remove annotation rejected: ", error.message().as_str()),
                    ),
                    Ok(()) => DraftCommit::Save { candidate, id },
                }
            },
        }
    }

    /// Takes over the document without the annotation; a failed save changes nothing.
    pub fn finish_delete(
        &mut self,
        candidate: AnnotationStore,
        id: &str,
        saved: Result<(), String>,
    ) -> (status: String)
        ensures
            match saved {
                Ok(()) => {
                    &&& *final(self) == (Review {
                        annotations: candidate,
                        active: None,
                        draft: final(self).draft,
                        popover_open: false,
                        ..*old(self)
                    })
                    &&& final(self).draft@.len() == 0
                },
                Err(_) => *final(self) == *old(self),
            },
            status@ == panels::outcome_status(
                saved,
                "Persist annotation removal failed: "@,
                "Removed annotation "@ + id@,
            ),
    {
        match saved {
            Err(error) => text::join2("Persist annotation removal failed: ", error.as_str()),
            Ok(()) => {
                self.annotations = candidate;
                self.active = None;
                self.draft = String::new();
                self.popover_open = false;
                text::join2("Removed annotation ", id)
            },
        }
    }

    /// The document with one annotation moved to another state, or why it is refused.
    pub fn prepare_transition(&self, id: &str, next: AnnotationStatus) -> (out: Result<
        AnnotationStore,
        AnnotationError,
    >)
        ensures
            match self.annotations@.position(id@) {
                None => out is Err && out->Err_0@ == annotations::ErrorView::NotFound,
                Some(i) => if self.annotations@.annotations[i].status.may_become(next) {
                    out is Ok && out->Ok_0@ == self.annotations@.with_status(i, next)
                } else {
                    out is Err && out->Err_0@ == annotations::ErrorView::Invalid(
                        "annotation task transition is invalid"@,
                    )
                },
            },
    {
        let mut candidate = self.annotations.clone();
        match candidate.transition(id, next) {
            Ok(_) => Ok(candidate),
            Err(error) => Err(error),
        }
    }

    /// Whether this is the review after a task moved on: the document is the given one, and the
    /// editor lets go of a task that is finished.
    pub open spec fn moved_on(
        &self,
        before: Review,
        candidate: AnnotationStore,
        id: Seq<char>,
        next: AnnotationStatus,
    ) -> bool {
        if !next.active() && text::text_view(before.active) == Some(id) {
            &&& *self == (Review {
                annotations: candidate,
                active: None,
                draft: self.draft,
                popover_open: false,
                ..before
            })
            &&& self.draft@.len() == 0
        } else {
            *self == (Review { annotations: candidate, ..before })
        }
    }

    /// Takes over the persisted document; the editor lets go of a task that is finished.
    pub fn transition_annotation(
        &mut self,
        candidate: AnnotationStore,
        id: &str,
        next: AnnotationStatus,
    ) -> (status: String)
        ensures
            status@ == "Review task "@ + id@ + " → "@ + panels::status_name_text(next),
            final(self).moved_on(*old(self), candidate, id@, next),
    {
        self.annotations = candidate;
        if !next.is_active() && text::is_text(&self.active, id) {
            self.popover_open = false;
            self.active = None;
            self.draft = String::new();
        }
        let mut status = text::join3("Review task ", id, " → ");
        status.append(panels::status_name(next));
        status
    }
}

// ---------------------------------------------------------------------------
// Handoff
// ---------------------------------------------------------------------------

/// The IDs of the open annotations, in order.
pub open spec fn open_ids(s: Seq<AnnotationView>) -> Seq<Seq<char>>
    decreases s.len(),
{
    if s.len() == 0 {
        Seq::empty()
    } else if s.last().status == AnnotationStatus::Open {
        open_ids(s.drop_last()).push(s.last().id)
    } else {
        open_ids(s.drop_last())
    }
}

/// The document after each of these IDs was started, where that is allowed.
pub open spec fn started(store: StoreView, ids: Seq<Seq<char>>) -> StoreView
    decreases ids.len(),
{
    if ids.len() == 0 {
        store
    } else {
        let before = started(store, ids.drop_last());
        match before.position(ids.last()) {
            Some(i) => if before.annotations[i].status.may_become(AnnotationStatus::InProgress) {
                before.with_status(i, AnnotationStatus::InProgress)
            } else {
                before
            },
            None => before,
        }
    }
}

/// The document after a handoff: every open annotation was started.
pub fn mark_sent(store: &AnnotationStore) -> (sent: AnnotationStore)
    ensures
        sent@ == started(store@, open_ids(store@.annotations)),
{
    let mut ids: Vec<String> = Vec::new();
    let ghost all = store@.annotations;
    let mut i: usize = 0;
    while i < store.annotations.len()
        invariant
            i <= store.annotations.len(),
            all == store@.annotations,
            text::texts(ids@) == open_ids(all.take(i as int)),
        decreases store.annotations.len() - i,
    {
        let ghost was = ids@;
        proof {
            assert(all.take(i as int + 1).drop_last() =~= all.take(i as int));
            assert(all.take(i as int + 1).last() == all[i as int]);
        }
        if store.annotations[i].status == AnnotationStatus::Open {
            ids.push(store.annotations[i].id.clone());
            proof {
                assert(text::texts(ids@) =~= text::texts(was).push(all[i as int].id));
            }
        }
        i += 1;
    }
    proof {
        assert(all.take(i as int) =~= all);
    }
    let mut sent = store.clone();
    let ghost names = text::texts(ids@);
    let mut k: usize = 0;
    while k < ids.len()
        invariant
            k <= ids.len(),
            names == text::texts(ids@),
            sent@ == started(store@, names.take(k as int)),
        decreases ids.len() - k,
    {
        proof {
            assert(names.take(k as int + 1).drop_last() =~= names.take(k as int));
            assert(names.take(k as int + 1).last() == ids@[k as int]@);
        }
        let _ = sent.transition(ids[k].as_str(), AnnotationStatus::InProgress);
        k += 1;
    }
    proof {
        assert(names.take(k as int) =~= names);
    }
    sent
}

/// What publishing a handoff came to.
#[derive(Debug)]
pub enum HandoffOutcome {
    /// There is nothing to hand off, or the outbox refused it.
    Rejected(String),
    /// The outbox could not be persisted.
    Unsaved(String),
    /// So many annotations were handed off; the document of the started ones is there where it
    /// was persisted.
    Published { count: usize, sent: Option<AnnotationStore> },
}

/// How people are told of a handoff.
pub open spec fn handoff_text(outcome: HandoffOutcome) -> Seq<char> {
    match outcome {
        HandoffOutcome::Rejected(error) => "Send annotations rejected: "@ + error@,
        HandoffOutcome::Unsaved(error) => "Persist MCP handoff failed: "@ + error@,
        HandoffOutcome::Published { count, .. } => "Handed off "@ + text::decimal_text(
            count as nat,
        ) + " annotations to the agent · resource gpui-studio://annotations/handoff/latest"@,
    }
}

impl Review {
    /// Takes over a handoff: the started annotations replace the document where they were
    /// persisted; a handoff that was not published leaves it as it is.
    pub fn finish_handoff(&mut self, outcome: HandoffOutcome) -> (status: String)
        ensures
            status@ == handoff_text(outcome),
            match outcome {
                HandoffOutcome::Published { sent: Some(sent), .. } => *final(self) == (Review {
                    annotations: sent,
                    ..*old(self)
                }),
                _ => *final(self) == *old(self),
            },
    {
        match outcome {
            HandoffOutcome::Rejected(error) => text::join2(
                "Send annotations rejected: ",
                error.as_str(),
            ),
            HandoffOutcome::Unsaved(error) => text::join2(
                "Persist MCP handoff failed: ",
                error.as_str(),
            ),
            HandoffOutcome::Published { count, sent } => {
                match sent {
                    Some(store) => {
                        self.annotations = store;
                    },
                    None => {},
                }
                text::join3(
                    "Handed off ",
                    text::decimal(count as u64).as_str(),
                    " annotations to the agent · resource gpui-studio://annotations/handoff/latest",
                )
            },
        }
    }
}

spec fn sent_prefix(s: Seq<AnnotationView>, count: nat) -> Seq<AnnotationView> {
    Seq::new(
        s.len(),
        |i: int|
            if i < count && s[i].status == AnnotationStatus::Open {
                AnnotationView { status: AnnotationStatus::InProgress, ..s[i] }
            } else {
                s[i]
            },
    )
}

proof fn lemma_started(store: StoreView, count: nat)
    requires
        count <= store.annotations.len(),
        forall|i: int, j: int|
            0 <= i < j < store.annotations.len() ==> (#[trigger] store.annotations[i]).id != (
            #[trigger] store.annotations[j]).id,
    ensures
        started(store, open_ids(store.annotations.take(count as int))) == (StoreView {
            annotations: sent_prefix(store.annotations, count),
            ..store
        }),
    decreases count,
{
    let s = store.annotations;
    if count == 0 {
        assert(s.take(0) =~= Seq::<AnnotationView>::empty());
        assert(open_ids(s.take(0)) =~= Seq::<Seq<char>>::empty());
        assert(sent_prefix(s, 0) =~= s);
    } else {
        let k = count - 1;
        lemma_started(store, k as nat);
        assert(s.take(count as int).drop_last() =~= s.take(k));
        assert(s.take(count as int).last() == s[k]);
        let before = StoreView { annotations: sent_prefix(s, k as nat), ..store };
        if s[k].status == AnnotationStatus::Open {
            let ids = open_ids(s.take(count as int));
            assert(ids.drop_last() =~= open_ids(s.take(k)));
            assert(ids.last() == s[k].id);
            annotations::lemma_first_with_id(before.annotations, s[k].id, 0);
            match before.position(s[k].id) {
                Some(i) => {
                    assert(before.annotations[i].id == s[i].id);
                    if i < k {
                        assert(s[i].id != s[k].id);
                    } else if i > k {
                        assert(s[k].id != s[i].id);
                    }
                    assert(i == k);
                },
                None => {
                    assert(before.annotations[k].id == s[k].id);
                },
            }
            assert(before.annotations[k] == s[k]);
            assert(before.with_status(k, AnnotationStatus::InProgress).annotations
                =~= sent_prefix(s, count));
        } else {
            assert(sent_prefix(s, count) =~= sent_prefix(s, k as nat));
        }
    }
}

/// A handoff of a valid document starts exactly its open annotations and changes nothing else.
pub proof fn law_handoff_starts_open_tasks(store: StoreView)
    requires
        store.valid(),
    ensures
        ({
            let sent = started(store, open_ids(store.annotations));
            &&& sent.version == store.version
            &&& sent.next_id == store.next_id
            &&& sent.annotations.len() == store.annotations.len()
            &&& forall|i: int|
                0 <= i < store.annotations.len() ==> #[trigger] sent.annotations[i] == (
                AnnotationView {
                    status: if store.annotations[i].status == AnnotationStatus::Open {
                        AnnotationStatus::InProgress
                    } else {
                        store.annotations[i].status
                    },
                    ..store.annotations[i]
                })
        }),
{
    let s = store.annotations;
    annotations::lemma_first_fault(s, 0);
    assert forall|i: int, j: int| 0 <= i < j < s.len() implies (#[trigger] s[i]).id != (
    #[trigger] s[j]).id by {
        assert(annotations::annotation_fault(s, j) is None);
    }
    lemma_started(store, s.len());
    assert(s.take(s.len() as int) =~= s);
}

/// A handoff of a valid document leaves the same tasks in the active queue.
pub proof fn law_handoff_keeps_queue_length(store: StoreView)
    requires
        store.valid(),
    ensures
        annotations::active_of(started(store, open_ids(store.annotations)).annotations).len()
            == annotations::active_of(store.annotations).len(),
{
    law_handoff_starts_open_tasks(store);
    lemma_same_queue_length(
        store.annotations,
        started(store, open_ids(store.annotations)).annotations,
    );
}

proof fn lemma_same_queue_length(s: Seq<AnnotationView>, t: Seq<AnnotationView>)
    requires
        s.len() == t.len(),
        forall|i: int|
            0 <= i < s.len() ==> (#[trigger] s[i]).status.active() == t[i].status.active(),
    ensures
        annotations::active_of(s).len() == annotations::active_of(t).len(),
    decreases s.len(),
{
    if s.len() > 0 {
        assert forall|i: int| 0 <= i < s.drop_last().len() implies (
        #[trigger] s.drop_last()[i]).status.active() == t.drop_last()[i].status.active() by {
            assert(s[i].status.active() == t[i].status.active());
        }
        lemma_same_queue_length(s.drop_last(), t.drop_last());
        assert(s[s.len() - 1].status.active() == t[t.len() - 1].status.active());
    }
}

/// Removing the edited annotation asks to persist the document without it, the other comments in
/// their order; until then the review keeps its document and its editor. Without a saved
/// annotation the draft is thrown away and the editor closes. No change waits afterwards.
pub proof fn law_removal_waits_for_the_document(before: Review, after: Review, out: DraftCommit)
    requires
        removal_prepared(before, after, out),
    ensures
        after.annotations == before.annotations,
        after.active == before.active,
        !after.pending.dirty,
        after.pending.quiet_ticks == 0,
        before.active is Some ==> after.draft == before.draft && after.popover_open
            == before.popover_open,
        before.active is None ==> out is Nothing && after.draft@.len() == 0 && !after.popover_open,
        match out {
            DraftCommit::Save { candidate, id } => {
                &&& before.active == Some(id)
                &&& candidate@.annotations == before.annotations@.annotations.filter(
                    |a: AnnotationView| a.id != id@,
                )
                &&& candidate@.annotations.len() < before.annotations@.annotations.len()
                &&& candidate@.next_id == before.annotations@.next_id
                &&& candidate@.version == before.annotations@.version
            },
            DraftCommit::Rejected(_) => forall|i: int|
                0 <= i < before.annotations@.annotations.len() ==> (
                #[trigger] before.annotations@.annotations[i]).id != before.active->0@,
            DraftCommit::Nothing => before.active is None,
        },
{
    let s = before.annotations@.annotations;
    match before.active {
        None => {},
        Some(id) => {
            annotations::lemma_first_with_id(s, id@, 0);
            crate::annotation_laws::law_removal_keeps_the_others_in_order(
                before.annotations@,
                id@,
            );
            match before.annotations@.position(id@) {
                Some(i) => {
                    lemma_removal_shortens(s, id@, i);
                },
                None => {},
            }
        },
    }
}

proof fn lemma_removal_shortens(s: Seq<AnnotationView>, id: Seq<char>, i: int)
    requires
        0 <= i < s.len(),
        s[i].id == id,
    ensures
        annotations::without_id(s, id).len() < s.len(),
    decreases s.len(),
{
    annotations::lemma_without_id(s.drop_last(), id);
    if i < s.len() - 1 {
        lemma_removal_shortens(s.drop_last(), id, i);
    }
}

/// A task that is completed or archived leaves the editor when it is the edited one; any other
/// move leaves the editor as it is. Either way the document is the persisted one.
pub proof fn law_finished_tasks_leave_the_editor(
    before: Review,
    after: Review,
    candidate: AnnotationStore,
    id: Seq<char>,
    next: AnnotationStatus,
)
    requires
        after.moved_on(before, candidate, id, next),
    ensures
        after.annotations == candidate,
        after.pending == before.pending,
        (next == AnnotationStatus::Done || next == AnnotationStatus::Archived)
            && before.active is Some && before.active->0@ == id ==> after.active is None
            && !after.popover_open && after.draft@.len() == 0,
        next == AnnotationStatus::Open || next == AnnotationStatus::InProgress || before.active
            is None || before.active->0@ != id ==> after.active == before.active
            && after.popover_open == before.popover_open && after.draft == before.draft,
{
}

/// A tick lets a waiting change wait one tick longer and leaves anything else alone.
pub proof fn law_ticks_count_only_waiting_changes(edits: PendingEdits)
    ensures
        edits.ticked().dirty == edits.dirty,
        !edits.dirty ==> edits.ticked().quiet_ticks == edits.quiet_ticks,
        edits.dirty && edits.quiet_ticks < 255 ==> edits.ticked().quiet_ticks == edits.quiet_ticks
            + 1,
        edits.dirty && edits.quiet_ticks == 255 ==> edits.ticked().quiet_ticks == 255,
{
}

/// What a handoff starts are the open annotations, in the document's order.
pub proof fn law_open_tasks_are_handed_off(s: Seq<AnnotationView>)
    ensures
        open_ids(s) == s.filter(
            |a: AnnotationView| a.status == AnnotationStatus::Open,
        ).map_values(|a: AnnotationView| a.id),
    decreases s.len(),
{
    reveal(Seq::filter);
    let open = |a: AnnotationView| a.status == AnnotationStatus::Open;
    let ids = |a: AnnotationView| a.id;
    if s.len() > 0 {
        law_open_tasks_are_handed_off(s.drop_last());
        if s.last().status == AnnotationStatus::Open {
            assert(s.filter(open).map_values(ids) =~= s.drop_last().filter(open).map_values(
                ids,
            ).push(s.last().id));
        }
    } else {
        assert(open_ids(s) =~= s.filter(open).map_values(ids));
    }
}

/// A handoff tells how many annotations went out, or why none did.
pub proof fn law_handoffs_are_told(error: String, outcome: HandoffOutcome)
    ensures
        handoff_text(HandoffOutcome::Rejected(error)) == "Send annotations rejected: "@ + error@,
        handoff_text(HandoffOutcome::Unsaved(error)) == "Persist MCP handoff failed: "@ + error@,
        outcome matches HandoffOutcome::Published { count, .. } ==> handoff_text(outcome)
            == "Handed off "@ + text::decimal_text(count as nat)
            + " annotations to the agent · resource gpui-studio://annotations/handoff/latest"@,
{
}

} // verus!
