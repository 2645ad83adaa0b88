use gpui_studio::annotations::{
    annotation_path, check_document_size, Annotation, AnnotationError, AnnotationStatus,
    AnnotationStore, ElementSelection, NormalizedAnchor,
};
use gpui_studio::automation::{Rect, UiNode, UiTree};
use gpui_studio::float_bits::Float32;

fn number(value: f32) -> Float32 {
    Float32::from_bits(value.to_bits())
}

fn rect(x: f32, y: f32, width: f32, height: f32) -> Rect {
    Rect { x: number(x), y: number(y), width: number(width), height: number(height), valid: true }
}

fn selection() -> ElementSelection {
    ElementSelection::new("hero", "canvas--hero", 1, None)
}

fn same_store(a: &AnnotationStore, b: &AnnotationStore) -> bool {
    format!("{a:?}") == format!("{b:?}")
}

fn message(result: Result<Annotation, AnnotationError>) -> String {
    match result {
        Ok(annotation) => panic!("accepted {annotation:?}"),
        Err(error) => error.message(),
    }
}

#[test]
fn comments_round_trip_with_stable_spatial_context() {
    let mut store = AnnotationStore::default();
    let selection = ElementSelection::new(
        "hero-title",
        "project-canvas/hero-title",
        7,
        Some(rect(10.0, 20.0, 200.0, 40.0)),
    );
    store
        .add(selection, "Make this hierarchy clearer", NormalizedAnchor::default())
        .expect("the comment is valid");

    store.save().expect("the document is valid");

    let loaded = AnnotationStore::load(Some(store.clone())).expect("the document loads");
    assert!(same_store(&loaded, &store));
    assert_eq!(store.resolved(&UiTree::empty()).len(), 1);
}

#[test]
fn completed_tasks_leave_active_context_but_remain_in_history() {
    let mut store = AnnotationStore::default();
    assert!(!store.has_sendable());
    let task_id = store
        .add(selection(), "Increase contrast", NormalizedAnchor::default())
        .expect("the comment is valid")
        .id
        .clone();
    assert!(store.has_sendable());

    store.transition(&task_id, AnnotationStatus::InProgress).expect("a task can start");
    store.transition(&task_id, AnnotationStatus::Done).expect("a started task can end");

    assert!(!store.has_sendable());
    assert!(store.active().is_empty());
    assert!(store.resolved_active(&UiTree::empty()).is_empty());
    assert_eq!(store.resolved(&UiTree::empty()).len(), 1);
    assert_eq!(store.counts().done, 1);
}

#[test]
fn v1_resolved_comments_migrate_to_completed_tasks() {
    // The first schema called finished tasks "Resolved"; reading the word gives `Done`.
    let parsed = AnnotationStore {
        version: 1,
        next_id: 2,
        annotations: vec![Annotation {
            id: "comment-000001".to_owned(),
            target: selection(),
            anchor: NormalizedAnchor { x: number(0.5), y: number(0.5) },
            comment: "Legacy complete task".to_owned(),
            status: AnnotationStatus::Done,
        }],
    };

    let store = AnnotationStore::load(Some(parsed)).expect("the document loads");

    assert_eq!(store.version, 2);
    assert_eq!(store.annotations[0].status, AnnotationStatus::Done);
    assert!(store.active().is_empty());
}

#[test]
fn a_project_without_comments_starts_fresh() {
    let store = AnnotationStore::load(None).expect("an absent document is fine");
    assert_eq!(store.version, 2);
    assert_eq!(store.next_id, 1);
    assert!(store.annotations.is_empty());
}

#[test]
fn comment_ids_are_numbered_and_trimmed() {
    let mut store = AnnotationStore::default();
    let first = store.add(selection(), "  one  ", NormalizedAnchor::default()).expect("valid");
    let second = store.add(selection(), "two", NormalizedAnchor::default()).expect("valid");
    assert_eq!(first.id, "comment-000001");
    assert_eq!(first.comment, "one");
    assert_eq!(second.id, "comment-000002");
    assert_eq!(store.next_id, 3);
}

#[test]
fn invalid_comments_are_refused_with_a_reason() {
    let mut store = AnnotationStore::default();
    let blank = store.add(selection(), "   ", NormalizedAnchor::default());
    assert_eq!(
        message(blank),
        "invalid annotations: annotation comment is empty or exceeds 16 KiB"
    );
    let long = store.add(selection(), &"x".repeat(16 * 1024 + 1), NormalizedAnchor::default());
    assert_eq!(
        message(long),
        "invalid annotations: annotation comment is empty or exceeds 16 KiB"
    );
    let unnamed = ElementSelection::new("", "canvas--hero", 1, None);
    assert_eq!(
        message(store.add(unnamed, "text", NormalizedAnchor::default())),
        "invalid annotations: annotation selection is invalid"
    );
    let unrevised = ElementSelection::new("hero", "canvas--hero", 0, None);
    assert_eq!(
        message(store.add(unrevised, "text", NormalizedAnchor::default())),
        "invalid annotations: annotation selection is invalid"
    );
    let outside = NormalizedAnchor { x: number(1.5), y: number(0.5) };
    assert_eq!(
        message(store.add(selection(), "text", outside)),
        "invalid annotations: annotation anchor is invalid"
    );
    let nowhere = NormalizedAnchor { x: number(0.5), y: number(f32::NAN) };
    assert_eq!(
        message(store.add(selection(), "text", nowhere)),
        "invalid annotations: annotation anchor is invalid"
    );
    assert!(store.annotations.is_empty());
    assert_eq!(store.next_id, 1);
}

#[test]
fn an_unusable_captured_rectangle_is_refused() {
    let mut store = AnnotationStore::default();
    let mut bounds = rect(0.0, 0.0, 10.0, 10.0);
    bounds.valid = false;
    let selection = ElementSelection::new("hero", "canvas--hero", 1, Some(bounds));
    assert_eq!(
        message(store.add(selection, "text", NormalizedAnchor::default())),
        "invalid annotations: annotation selection is invalid"
    );
}

#[test]
fn the_document_has_room_for_a_bounded_number_of_comments() {
    let mut store = AnnotationStore::default();
    for _ in 0..2_048 {
        store.add(selection(), "text", NormalizedAnchor::default()).expect("there is room");
    }
    assert_eq!(
        message(store.add(selection(), "text", NormalizedAnchor::default())),
        "invalid annotations: annotation document reached its capacity"
    );
    assert!(store.save().is_ok());
}

#[test]
fn tasks_move_only_along_the_review() {
    let mut store = AnnotationStore::default();
    let id = store.add(selection(), "text", NormalizedAnchor::default()).expect("valid").id;
    let backwards = store.transition("comment-000009", AnnotationStatus::Done);
    assert_eq!(message(backwards), "annotation task was not found");
    assert_eq!(
        message(store.transition(&id, AnnotationStatus::Archived)),
        "invalid annotations: annotation task transition is invalid"
    );
    store.transition(&id, AnnotationStatus::Done).expect("an open task can end");
    store.transition(&id, AnnotationStatus::Archived).expect("a finished task can be archived");
    assert_eq!(
        message(store.transition(&id, AnnotationStatus::Done)),
        "invalid annotations: annotation task transition is invalid"
    );
    store.transition(&id, AnnotationStatus::Open).expect("any task can be reopened");
}

#[test]
fn updating_and_removing_reach_one_comment() {
    let mut store = AnnotationStore::default();
    let first = store.add(selection(), "one", NormalizedAnchor::default()).expect("valid").id;
    let second = store.add(selection(), "two", NormalizedAnchor::default()).expect("valid").id;
    let updated = store.update_comment(&first, " uno ").expect("the comment exists");
    assert_eq!(updated.comment, "uno");
    assert_eq!(store.annotations[1].comment, "two");
    store.remove(&first).expect("the comment exists");
    assert_eq!(store.annotations.len(), 1);
    assert_eq!(store.annotations[0].id, second);
    match store.remove(&first) {
        Ok(()) => panic!("removed twice"),
        Err(error) => assert_eq!(error.message(), "annotation task was not found"),
    }
}

#[test]
fn counts_cover_every_state() {
    let mut store = AnnotationStore::default();
    let ids: Vec<String> = (0..4)
        .map(|_| store.add(selection(), "text", NormalizedAnchor::default()).expect("valid").id)
        .collect();
    store.transition(&ids[1], AnnotationStatus::InProgress).expect("valid");
    store.transition(&ids[2], AnnotationStatus::Done).expect("valid");
    store.transition(&ids[3], AnnotationStatus::Done).expect("valid");
    store.transition(&ids[3], AnnotationStatus::Archived).expect("valid");
    let counts = store.counts();
    assert_eq!(counts.done, 1);
    assert_eq!(counts.archived, 1);
    assert_eq!(counts.active, 2);
    assert_eq!(store.sendable().len(), 2);
}

#[test]
fn the_latest_active_comment_of_an_element_is_found() {
    let mut store = AnnotationStore::default();
    let first = store.add(selection(), "one", NormalizedAnchor::default()).expect("valid").id;
    let second = store.add(selection(), "two", NormalizedAnchor::default()).expect("valid").id;
    let latest = store.latest_active_for_target("canvas--hero").expect("there are two");
    assert_eq!(latest.id, second);
    store.transition(&second, AnnotationStatus::Done).expect("valid");
    let latest = store.latest_active_for_target("canvas--hero").expect("one is left");
    assert_eq!(latest.id, first);
    assert!(store.latest_active_for_target("canvas--other").is_none());
}

#[test]
fn comments_resolve_against_the_live_tree() {
    let mut store = AnnotationStore::default();
    let id = store.add(selection(), "text", NormalizedAnchor::default()).expect("valid").id;
    let tree = UiTree {
        generation: 9,
        nodes: vec![UiNode {
            id: "canvas--hero".to_owned(),
            bounds: Some(rect(10.0, 20.0, 100.0, 50.0)),
            text: None,
            label: None,
        }],
    };
    let resolved = store.resolved(&tree);
    assert_eq!(resolved[0].semantic_generation, 9);
    let current = resolved[0].current_rect.expect("the element is painted");
    assert_eq!(f32::from_bits(current.x.bits), 10.0);
    let point = resolved[0].anchor_point.expect("the element is painted");
    let x = f32::from_bits(point.x.origin.bits)
        + f32::from_bits(point.x.extent.bits) * f32::from_bits(point.x.fraction.bits);
    let y = f32::from_bits(point.y.origin.bits)
        + f32::from_bits(point.y.extent.bits) * f32::from_bits(point.y.fraction.bits);
    assert_eq!((x, y), (60.0, 45.0));
    let named = store.resolved_ids(&vec!["missing".to_owned(), id.clone()], &tree);
    assert_eq!(named.len(), 1);
    assert_eq!(named[0].annotation.id, id);
}

#[test]
fn oversized_and_unknown_documents_are_refused() {
    assert!(check_document_size(1_048_576).is_ok());
    match check_document_size(1_048_577) {
        Ok(()) => panic!("accepted"),
        Err(error) => assert_eq!(
            error.message(),
            "annotation document is 1048577 bytes; maximum is 1048576"
        ),
    }
    let mut store = AnnotationStore::default();
    store.version = 3;
    match AnnotationStore::load(Some(store)) {
        Ok(_) => panic!("accepted"),
        Err(error) => assert_eq!(
            error.message(),
            "annotation version 3 is unsupported; expected 2"
        ),
    }
}

#[test]
fn a_document_with_a_repeated_id_is_refused() {
    let mut store = AnnotationStore::default();
    store.add(selection(), "one", NormalizedAnchor::default()).expect("valid");
    let copy = store.annotations[0].clone();
    store.annotations.push(copy);
    assert!(store.save().is_err());
    assert!(AnnotationStore::load(Some(store)).is_err());
}

#[test]
fn the_document_stands_in_the_project() {
    assert_eq!(
        annotation_path("/work/project"),
        vec!["/work/project", ".gpui-studio", "annotations.ron"]
    );
}

#[test]
fn open_and_started_tasks_are_active() {
    assert!(AnnotationStatus::Open.is_active());
    assert!(AnnotationStatus::InProgress.is_active());
    assert!(!AnnotationStatus::Done.is_active());
    assert!(!AnnotationStatus::Archived.is_active());
}

#[test]
fn bit_patterns_compare_as_the_numbers_they_hold() {
    let values = [
        0.0_f32,
        -0.0,
        0.25,
        0.5,
        1.0,
        1.5,
        -1.0,
        -2.5,
        f32::MIN_POSITIVE,
        f32::MAX,
        f32::INFINITY,
        f32::NEG_INFINITY,
        f32::NAN,
    ];
    for a in values {
        assert_eq!(
            number(a).unit_interval(),
            a.is_finite() && (0.0..=1.0).contains(&a),
            "{a}"
        );
        for b in values {
            assert_eq!(number(a).lt(&number(b)), a < b, "{a} < {b}");
            assert_eq!(number(a).le(&number(b)), a <= b, "{a} <= {b}");
        }
    }
}
