use gpui_studio::annotations::{AnnotationStore, ElementSelection};
use gpui_studio::automation::{Rect, UiNode, UiTree};
use gpui_studio::components::{
    component_logic_transitions, component_node_ids, ComponentEvent, ComponentLibrary,
    ComponentLogic, NativeAlign, NativeAppearance, NativeComponent, NativeConstraint, NativeEdges,
    NativeLayout, NativeNode, NativeNodeKind, NativeOffsets, NativeOverflow, NativePosition,
    NativeSize, NativeTypography, NativeWrap,
};
use gpui_studio::documents::LayerPick;
use gpui_studio::drag::{
    adjust_drag_preview_order, canvas_drag_target, child_runtime_ids, drop_layout, hit_node,
    update_drag_preview, CanvasNode, CanvasPoint, DragPreviewState, HitBounds, LayoutMode,
};
use gpui_studio::float_bits::Float32;
use gpui_studio::inspector::{
    inspector_layout_choice_bindings, inspector_layout_choice_selected, inspector_size_selected,
    inspector_value, set_inspector_layout_choice, set_inspector_size, set_inspector_value,
    InspectorLayoutChoice, InspectorOutcome, InspectorSizeAxis, InspectorTarget,
    InspectorValueField, MeasuredSize,
};
use gpui_studio::layer_rows::{LayerKind, LayerRow};
use gpui_studio::session::select_project_layer;
use gpui_studio::studio::{
    initial_selection, AuthoringBackend, CanvasSettings, DocumentId, OutputDecorations,
    StateValue, StudioMode, StudioState, StudioStateInit, ViewportPreset,
};
use gpui_studio::tree_edits::{insertion_target, tree_drop_placement, unique_copy_suffix, AT_END};
use gpui_studio::tree_queries::{find_node, has_node, node_contains, parent_and_index, TreePlace};
use gpui_studio::tree_session::{
    finish_removal, NodeTemplate, TreeCommand, TreeEdit, TreeNodeDrag,
};

fn layout() -> NativeLayout {
    NativeLayout {
        width: NativeSize::Hug,
        height: NativeSize::Hug,
        gap: 0,
        padding: 0,
        margin: NativeEdges { top: 0, right: 0, bottom: 0, left: 0 },
        basis: None,
        min_width: None,
        max_width: None,
        min_height: None,
        max_height: None,
        grid_columns: 1,
        grid_rows: 1,
        column_start: None,
        column_span: 1,
        row_start: None,
        row_span: 1,
        offsets: NativeOffsets { left: None, top: None, right: None, bottom: None },
        z_index: 0,
        opacity_percent: 100,
        rotation_degrees: 0,
        align: NativeAlign::Start,
        justify: NativeAlign::Start,
        wrap: NativeWrap::NoWrap,
        position: NativePosition::Flow,
        overflow: NativeOverflow::Visible,
        horizontal_constraint: NativeConstraint::Start,
        vertical_constraint: NativeConstraint::Start,
        grow: false,
        shrink: true,
    }
}

fn node(id: &str, children: Vec<NativeNode>) -> NativeNode {
    NativeNode {
        id: id.to_owned(),
        kind: NativeNodeKind::Column,
        instance_of: None,
        state: 0,
        layout: layout(),
        appearance: NativeAppearance { radius: 0, background: None, foreground: 0, border: None },
        typography: NativeTypography {
            family: "Geist".to_owned(),
            size: 14,
            weight: 400,
            line_height: 20,
        },
        text: None,
        action: None,
        children,
    }
}


fn kind(mut node: NativeNode, kind: NativeNodeKind) -> NativeNode {
    node.kind = kind;
    node
}

fn component(id: &str, root: NativeNode) -> NativeComponent {
    NativeComponent {
        id: id.to_owned(),
        name: format!("The {id}"),
        root,
        props: Vec::new(),
        states: Vec::new(),
        variants: Vec::new(),
        slots: Vec::new(),
        logic: Vec::new(),
    }
}

fn tree() -> NativeNode {
    node(
        "root",
        vec![
            node("header", vec![kind(node("title", Vec::new()), NativeNodeKind::Text)]),
            node("body", vec![node("first", Vec::new()), node("second", Vec::new())]),
        ],
    )
}

fn session() -> StudioState {
    StudioState::new(StudioStateInit {
        mode: StudioMode::Design,
        backend: AuthoringBackend::Html,
        canvas: CanvasSettings {
            preset: ViewportPreset::Responsive,
            zoom_percent: 100,
            quarter_turns: 0,
            snap_enabled: true,
            snap_grid: 8,
            decorations: OutputDecorations::Native,
        },
        library: ComponentLibrary {
            components: vec![component("main", tree()), component("card", tree())],
            active_component: "main".to_owned(),
            tokens: Vec::new(),
        },
        annotations: AnnotationStore::default(),
    })
}

fn select(state: &mut StudioState, node_id: &str) {
    state.authoring.select_node("main", node_id);
}

fn number(value: f32) -> Float32 {
    Float32::from_bits(value.to_bits())
}

fn planned(plan: Result<TreeEdit, String>) -> TreeEdit {
    match plan {
        Ok(edit) => edit,
        Err(message) => panic!("{message}"),
    }
}

fn refused(plan: Result<TreeEdit, String>) -> String {
    match plan {
        Ok(edit) => panic!("{edit:?}"),
        Err(message) => message,
    }
}

fn drag_preview(base_index: usize, offset: i32, child_count: usize) -> DragPreviewState {
    DragPreviewState {
        parent: "root".to_owned(),
        base_index,
        offset,
        child_count,
        horizontal: false,
        is_stack: true,
        pointer_x: number(0.0),
        pointer_y: number(0.0),
    }
}

#[test]
fn drag_preview_index_and_position_respect_container_bounds() {
    // Middle of a 4-child container, nudged up two slots.
    let preview = drag_preview(2, 1, 4);
    assert_eq!(preview.effective_index(), 3);
    assert_eq!(preview.position_label(), (4, 5));

    // Scrolling below the first slot clamps to 0 (position 1).
    let low = drag_preview(1, -10, 4);
    assert_eq!(low.effective_index(), 0);
    assert_eq!(low.position_label(), (1, 5));

    // Scrolling past the last slot clamps to child_count (append).
    let high = drag_preview(2, 99, 4);
    assert_eq!(high.effective_index(), 4);
    assert_eq!(high.position_label(), (5, 5));
}

#[test]
fn a_nudged_drop_keeps_its_nudge_within_one_container() {
    let mut preview = None;
    assert!(update_drag_preview(&mut preview, Some(drag_preview(1, 0, 4))));
    let adjusted = adjust_drag_preview_order(&mut preview, 2).expect("a drop is pending");
    assert!(adjusted.moved);
    assert_eq!(adjusted.status, "Drop position 4 of 5 · scroll or [ ] to adjust");
    assert!(update_drag_preview(&mut preview, Some(drag_preview(0, 0, 4))));
    assert_eq!(preview.as_ref().map(DragPreviewState::effective_index), Some(2));
    let mut elsewhere = drag_preview(0, 0, 4);
    elsewhere.parent = "body".to_owned();
    assert!(update_drag_preview(&mut preview, Some(elsewhere)));
    assert_eq!(preview.as_ref().map(DragPreviewState::effective_index), Some(0));
    assert!(update_drag_preview(&mut preview, None));
    assert!(!update_drag_preview(&mut preview, None));
}

#[test]
fn a_drop_lands_at_the_pending_place() {
    let mut state = session();
    let pointer = &mut state.pointer;
    let place = pointer.canvas_drop_placement(Some(drag_preview(1, 0, 4))).expect("a target");
    assert_eq!((place.parent.as_str(), place.index), ("root", 1));
    adjust_drag_preview_order(&mut pointer.drag_preview, 1);
    let place = pointer.canvas_drop_placement(Some(drag_preview(1, 0, 4))).expect("a target");
    assert_eq!(place.index, 2);
    let pending = pointer.drag_preview.as_ref().expect("a pending drop");
    assert_eq!((pending.base_index, pending.offset, pending.child_count), (1, 1, 4));
    let mut elsewhere = drag_preview(3, 0, 4);
    elsewhere.parent = "body".to_owned();
    let place = pointer.canvas_drop_placement(Some(elsewhere)).expect("a target");
    assert_eq!((place.parent.as_str(), place.index), ("body", 3));
    let pending = pointer.drag_preview.as_ref().expect("a pending drop");
    assert_eq!((pending.parent.as_str(), pending.offset), ("body", 0));
    assert!(pointer.clear_drag_preview());
    assert!(!pointer.clear_drag_preview());
    assert!(pointer.canvas_drop_placement(None).is_none());
}

#[test]
fn the_smallest_node_under_the_pointer_is_hit() {
    let bounds = |left: f32, top: f32, right: f32, bottom: f32| {
        Some(HitBounds {
            left: number(left),
            top: number(top),
            right: number(right),
            bottom: number(bottom),
            area: number((right - left) * (bottom - top)),
        })
    };
    let nodes = vec![
        CanvasNode {
            runtime_id: "component/main/root".to_owned(),
            bounds: bounds(0.0, 0.0, 100.0, 100.0),
            accepts_children: true,
        },
        CanvasNode {
            runtime_id: "component/main/title".to_owned(),
            bounds: bounds(10.0, 10.0, 50.0, 20.0),
            accepts_children: false,
        },
        CanvasNode {
            runtime_id: "component/other/tiny".to_owned(),
            bounds: bounds(10.0, 10.0, 11.0, 11.0),
            accepts_children: true,
        },
    ];
    let at = |x: f32, y: f32| CanvasPoint { x: number(x), y: number(y) };
    assert_eq!(hit_node(&nodes, "main", at(10.0, 10.0), false).as_deref(), Some("title"));
    assert_eq!(hit_node(&nodes, "main", at(10.0, 10.0), true).as_deref(), Some("root"));
    assert_eq!(hit_node(&nodes, "main", at(100.0, 100.0), false).as_deref(), Some("root"));
    assert_eq!(hit_node(&nodes, "main", at(100.5, 0.0), false), None);
}

#[test]
fn drops_follow_the_layout_of_their_container() {
    assert_eq!(drop_layout(NativeNodeKind::Titlebar, 3), LayoutMode::Flex { horizontal: true });
    assert_eq!(drop_layout(NativeNodeKind::Grid, 0), LayoutMode::Grid { columns: 1 });
    assert_eq!(drop_layout(NativeNodeKind::Grid, 3), LayoutMode::Grid { columns: 3 });
    assert_eq!(drop_layout(NativeNodeKind::Stack, 3), LayoutMode::Freeform);
    assert_eq!(drop_layout(NativeNodeKind::Column, 3), LayoutMode::Flex { horizontal: false });
    assert_eq!(
        child_runtime_ids("main", &vec!["a".to_owned()]),
        vec!["component/main/a"]
    );
    let point = CanvasPoint { x: number(1.0), y: number(2.0) };
    let target = canvas_drag_target("root".to_owned(), NativeNodeKind::Row, 2, 1, point);
    assert!(target.horizontal);
    assert!(!target.is_stack);
    assert_eq!(target.spec().index, 1);
}

#[test]
fn nodes_are_found_in_their_tree() {
    let root = tree();
    assert_eq!(
        component_node_ids(&root),
        vec!["root", "header", "title", "body", "first", "second"]
    );
    assert_eq!(find_node(&root, "second").map(|node| node.id.as_str()), Some("second"));
    assert!(find_node(&root, "gone").is_none());
    assert!(has_node(&root, "root"));
    let place = parent_and_index(&root, "second").expect("it has a parent");
    assert_eq!((place.parent.as_str(), place.index), ("body", 1));
    assert!(parent_and_index(&root, "root").is_none());
    assert!(node_contains(&root, "body", "first"));
    assert!(node_contains(&root, "body", "body"));
    assert!(!node_contains(&root, "header", "first"));
}

#[test]
fn inserted_nodes_land_at_the_selection() {
    let root = tree();
    let inside = insertion_target(&root, "body", true);
    assert_eq!((inside.parent.as_str(), inside.index), ("body", AT_END));
    let behind = insertion_target(&root, "title", false);
    assert_eq!((behind.parent.as_str(), behind.index), ("header", 1));
    let lost = insertion_target(&root, "gone", false);
    assert_eq!((lost.parent.as_str(), lost.index), ("root", AT_END));
}

#[test]
fn rows_take_drops_behind_themselves() {
    let root = tree();
    let place = |dragged: Option<&str>, target: &str, accepts: bool| {
        tree_drop_placement(&root, dragged, target, accepts)
            .map(|place| (place.parent, place.index))
    };
    assert_eq!(place(Some("title"), "body", true), Some(("body".to_owned(), AT_END)));
    assert_eq!(place(Some("first"), "second", false), Some(("body".to_owned(), 1)));
    assert_eq!(place(Some("second"), "first", false), Some(("body".to_owned(), 1)));
    assert_eq!(place(None, "first", false), Some(("body".to_owned(), 1)));
    assert_eq!(place(None, "root", false), None);
}

#[test]
fn copies_get_the_first_free_name() {
    let taken = |names: &[&str]| names.iter().map(|name| (*name).to_owned()).collect();
    assert_eq!(unique_copy_suffix("a", &taken(&["a"])), "-copy");
    assert_eq!(unique_copy_suffix("a", &taken(&["a", "a-copy"])), "-copy-2");
    assert_eq!(
        unique_copy_suffix("a", &taken(&["a-copy", "a-copy-2", "a-copy-4"])),
        "-copy-3"
    );
}

#[test]
fn primitives_are_inserted_and_selected() {
    let mut state = session();
    select(&mut state, "title");
    let plan = state.authoring.insert_primitive_node(NativeNodeKind::Text, "text-2", false);
    let edit = planned(plan);
    assert_eq!(edit.component_id, "main");
    match &edit.command {
        TreeCommand::Insert { node_id, template: NodeTemplate::Text, place } => {
            assert_eq!(node_id, "text-2");
            assert_eq!((place.parent.as_str(), place.index), ("header", 1));
        }
        other => panic!("{other:?}"),
    }
    let mut root = tree();
    root.children[0].children.push(node("text-2", Vec::new()));
    let status = state.authoring.finish_tree_edit(&mut state.lists, edit, Ok(root));
    assert_eq!(status, "Inserted Text · live graph updated");
    assert_eq!(state.authoring.selection.runtime_id, "component/main/text-2");
    assert!(has_node(&state.authoring.library.components[0].root, "text-2"));
    assert!(!has_node(&state.authoring.library.components[1].root, "text-2"));
    assert!(state.authoring.pending.dirty);
}

#[test]
fn a_failed_edit_changes_nothing() {
    let mut state = session();
    select(&mut state, "title");
    let edit = planned(state.authoring.delete_selected_node());
    let failed = Err("node is locked".to_owned());
    let status = state.authoring.finish_tree_edit(&mut state.lists, edit, failed);
    assert_eq!(status, "Delete failed: node is locked");
    assert_eq!(state.authoring.selection.authored_id, "title");
    assert!(!state.authoring.pending.dirty);
    let edit = planned(state.authoring.delete_selected_node());
    state.authoring.library.components.remove(0);
    let status = state.authoring.finish_tree_edit(&mut state.lists, edit, Ok(tree()));
    assert_eq!(status, "Delete failed: component was not found");
}

#[test]
fn the_selected_node_is_duplicated_deleted_and_wrapped() {
    let mut state = session();
    select(&mut state, "first");
    let edit = planned(state.authoring.duplicate_selected_node());
    match &edit.command {
        TreeCommand::Duplicate { id, place, suffix } => {
            assert_eq!(id, "first");
            assert_eq!((place.parent.as_str(), place.index), ("body", 1));
            assert_eq!(suffix, "-copy");
        }
        other => panic!("{other:?}"),
    }
    assert_eq!(edit.select.as_deref(), Some("first-copy"));
    let edit = planned(state.authoring.delete_selected_node());
    assert_eq!(edit.select.as_deref(), Some("body"));
    let edit = planned(state.authoring.wrap_selected_in_frame("frame-1"));
    assert_eq!(edit.done, "Wrapped in frame");
    assert_eq!(edit.select.as_deref(), Some("frame-1"));
}

#[test]
fn the_root_stays_where_it_is() {
    let mut state = session();
    select(&mut state, "root");
    assert_eq!(
        refused(state.authoring.duplicate_selected_node()),
        "Select a non-root node to duplicate"
    );
    assert_eq!(
        refused(state.authoring.delete_selected_node()),
        "The component root cannot be deleted"
    );
    assert_eq!(
        refused(state.authoring.wrap_selected_in_frame("frame-1")),
        "The component root cannot be wrapped"
    );
    let drag = TreeNodeDrag {
        component_id: "main".to_owned(),
        node_id: "root".to_owned(),
        label: "Root".to_owned(),
    };
    assert!(!state.authoring.can_drop_tree_node(&drag, "body"));
    select(&mut state, "gone");
    assert_eq!(refused(state.authoring.delete_selected_node()), "Nothing is selected to delete");
    assert_eq!(
        refused(state.authoring.wrap_selected_in_frame("frame-1")),
        "Nothing is selected to wrap"
    );
}

#[test]
fn edits_need_an_open_component() {
    let mut state = session();
    state.authoring.library.components.clear();
    assert_eq!(
        refused(state.authoring.insert_primitive_node(NativeNodeKind::Row, "row-1", true)),
        "Insert Row failed: Open a component document to insert nodes"
    );
    assert_eq!(
        refused(state.authoring.delete_selected_node()),
        "Open a component document to delete nodes"
    );
    assert_eq!(
        refused(state.authoring.wrap_selected_in_frame("frame-1")),
        "Open a component document to wrap nodes"
    );
    assert_eq!(
        refused(state.authoring.duplicate_selected_node()),
        "Open a component document to duplicate nodes"
    );
    state.authoring.active_document = DocumentId::Component("gone".to_owned());
    assert_eq!(
        refused(state.authoring.delete_selected_node()),
        "The component root cannot be deleted"
    );
    assert_eq!(
        refused(state.authoring.insert_primitive_node(NativeNodeKind::Row, "row-1", true)),
        "Insert Row failed: The active component no longer exists"
    );
}

#[test]
fn instances_are_placed_unless_they_would_cycle() {
    let mut state = session();
    select(&mut state, "body");
    let place = |cycles: bool, id: &str, at: Option<TreePlace>| {
        state.authoring.insert_component_instance_at(id, at, cycles, "instance-1", true)
    };
    let edit = planned(place(false, "card", None));
    assert_eq!(edit.done, "Placed The card instance");
    match &edit.command {
        TreeCommand::Insert { template: NodeTemplate::Instance(id), place, .. } => {
            assert_eq!(id, "card");
            assert_eq!((place.parent.as_str(), place.index), ("body", AT_END));
        }
        other => panic!("{other:?}"),
    }
    assert_eq!(
        refused(place(true, "card", None)),
        "Cannot place The card here: it would create a component cycle"
    );
    assert_eq!(refused(place(false, "gone", None)), "That component no longer exists");
    let dropped = state
        .authoring
        .drop_palette_on_node("card", "first", false, "instance-1", false, true)
        .expect("a component is edited");
    match planned(dropped).command {
        TreeCommand::Insert { place, .. } => {
            assert_eq!((place.parent.as_str(), place.index), ("body", 1));
        }
        other => panic!("{other:?}"),
    }
}

#[test]
fn nodes_never_move_into_themselves() {
    let state = session();
    let drag = |id: &str| TreeNodeDrag {
        component_id: "main".to_owned(),
        node_id: id.to_owned(),
        label: id.to_owned(),
    };
    let authoring = &state.authoring;
    assert!(authoring.can_drop_tree_node(&drag("title"), "body"));
    assert!(!authoring.can_drop_tree_node(&drag("body"), "first"));
    assert!(!authoring.can_drop_tree_node(&drag("body"), "body"));
    assert!(!authoring.can_drop_tree_node(&drag("title"), "gone"));
    let mut other = drag("title");
    other.component_id = "card".to_owned();
    assert!(!authoring.can_drop_tree_node(&other, "body"));
    let edit = planned(authoring.drop_tree_node(&drag("title"), "first", false));
    assert_eq!(edit.done, "Moved title");
    assert_eq!(edit.select.as_deref(), Some("title"));
    assert_eq!(
        refused(authoring.drop_tree_node(&drag("body"), "first", true)),
        "That move would break the component tree"
    );
    let at = |parent: &str| Some(TreePlace { parent: parent.to_owned(), index: 0 });
    assert!(authoring.drop_tree_node_at_canvas(&drag("title"), at("body")).is_ok());
    assert_eq!(
        refused(authoring.drop_tree_node_at_canvas(&drag("title"), None)),
        "Drop over a container to move the node there"
    );
    assert_eq!(
        refused(authoring.drop_tree_node_at_canvas(&drag("body"), at("body"))),
        "A node cannot move into itself"
    );
    assert_eq!(
        refused(authoring.drop_tree_node_at_canvas(&drag("body"), at("first"))),
        "A node cannot move into its own subtree"
    );
}

#[test]
fn rendered_nodes_resolve_to_stored_ones() {
    let state = session();
    let resolve = |id: &str| state.authoring.resolve_component_node("main", id);
    assert_eq!(resolve("title"), "title");
    assert_eq!(resolve("body--card--label"), "body");
    assert_eq!(resolve("first--x"), "first");
    assert_eq!(resolve("nowhere--x"), "nowhere--x");
    assert_eq!(state.authoring.resolve_component_node("gone", "body--x"), "body--x");
    let at = Some(TreePlace { parent: "header".to_owned(), index: 0 });
    let edit = planned(state.authoring.drop_component_node_at_canvas("main", "first--x", at));
    assert_eq!(edit.done, "Moved first");
}

#[test]
fn a_component_is_removed_with_its_running_state() {
    let mut state = session();
    let mut library = state.authoring.library.copied();
    library.components.remove(1);
    let removed = state.authoring.remove_component_checked(
        "card",
        Ok(library),
        Some((DocumentId::Main, ElementSelection::new("root", "component/main/root", 1, None))),
    );
    let removed = removed.expect("the component is removed");
    assert_eq!(removed.name, "The card");
    assert_eq!(removed.closed.as_deref(), Some("Closed card · active document restored"));
    assert_eq!(finish_removal(removed, Ok(())), Ok("The card".to_owned()));
    assert_eq!(state.authoring.library.components.len(), 1);
    assert!(state.authoring.runtime.iter().all(|entry| entry.component_id != "card"));
    let refusal = Err("the last component stays".to_owned());
    let refused = state.authoring.remove_component_checked("main", refusal, None);
    assert!(matches!(refused, Err(reason) if reason == "the last component stays"));
    let library = state.authoring.library.copied();
    let removed = state
        .authoring
        .remove_component_checked("main", Ok(library), None)
        .expect("the component is removed");
    assert!(removed.closed.is_none());
    let unsaved = finish_removal(removed, Err("disk full".to_owned()));
    assert_eq!(unsaved, Err("Deleted The main but saving failed: disk full".to_owned()));
}

fn rule(node: &str, action: &str, guard: Option<&str>, state: &str, value: &str) -> ComponentLogic {
    ComponentLogic {
        id: format!("{node}-{value}"),
        source_node: node.to_owned(),
        event: ComponentEvent::Click,
        action: action.to_owned(),
        guard: guard.map(str::to_owned),
        target_state: Some(state.to_owned()),
        value: Some(value.to_owned()),
    }
}

#[test]
fn guarded_rules_change_states_in_order() {
    let logic = vec![
        rule("trigger", "toggle_options", Some("open == false"), "open", "true"),
        rule("trigger", "toggle_options", Some("open == true"), "open", "false"),
        rule("option", "select", None, "selected", "staging"),
        rule("option", "select", None, "open", "false"),
    ];
    let changes = |guards: &[bool], node: &str, action: &str| {
        component_logic_transitions(&logic, &guards.to_vec(), node, action)
            .into_iter()
            .map(|change| (change.state, change.value))
            .collect::<Vec<_>>()
    };
    let pair = |a: &str, b: &str| (a.to_owned(), b.to_owned());
    let closed = [true, false, true, true];
    let open = [false, true, true, true];
    assert_eq!(changes(&closed, "trigger", "toggle_options"), vec![pair("open", "true")]);
    assert_eq!(changes(&open, "trigger", "toggle_options"), vec![pair("open", "false")]);
    assert_eq!(
        changes(&closed, "option", "select"),
        vec![pair("selected", "staging"), pair("open", "false")]
    );
    assert!(changes(&closed, "option", "toggle_options").is_empty());
}

#[test]
fn running_components_take_over_state_changes() {
    let mut state = session();
    state.authoring.library.components[1].logic =
        vec![rule("title", "open_menu", None, "open", "true")];
    state.authoring.toggle_state("main", "busy", false);
    let values_of = |state: &StudioState, id: &str| {
        state
            .authoring
            .runtime
            .iter()
            .filter(|entry| entry.component_id == id)
            .flat_map(|entry| &entry.values)
            .map(|StateValue { name, value }| format!("{name}={value}"))
            .collect::<Vec<_>>()
    };
    let others = values_of(&state, "main");
    assert!(others.contains(&"busy=true".to_owned()));
    let current = state.authoring.current_values("card").expect("the component exists");
    let outcome = state.authoring.invoke_component_action(
        "card",
        "title",
        "open_menu",
        current,
        &vec![true],
    );
    assert!(outcome.status.contains("open_menu"), "{}", outcome.status);
    let entry = state
        .authoring
        .runtime
        .iter()
        .find(|entry| entry.component_id == "card")
        .expect("the component runs");
    assert!(entry.values.iter().any(|value| value.name == "open" && value.value == "true"));
    assert_eq!(values_of(&state, "main"), others);
    state.authoring.toggle_state("card", "open", true);
    assert_eq!(values_of(&state, "main"), others);
}

#[test]
fn live_switches_change_one_state() {
    let mut state = session();
    state.authoring.runtime.clear();
    state.authoring.toggle_state("card", "open", false);
    state.authoring.toggle_state("card", "busy", true);
    let values: Vec<(String, String)> = state.authoring.runtime[0]
        .values
        .iter()
        .map(|StateValue { name, value }| (name.clone(), value.clone()))
        .collect();
    assert_eq!(
        values,
        vec![
            ("open".to_owned(), "true".to_owned()),
            ("busy".to_owned(), "false".to_owned())
        ]
    );
}

#[test]
fn initial_selection_is_independent_of_source_projection() {
    let library = ComponentLibrary {
        components: vec![component("main", tree())],
        active_component: "main".to_owned(),
        tokens: Vec::new(),
    };
    let root = library.components.first().map(|component| component.id.clone()).unwrap_or_default();

    let html = initial_selection(AuthoringBackend::Html, &library, 7);
    assert_eq!(html.authored_id, "root");
    assert_eq!(html.runtime_id, format!("component/{root}/root"));
    assert_eq!(html.document_revision, 7);

    let gpui = initial_selection(AuthoringBackend::Gpui, &library, 7);
    assert_eq!(gpui.authored_id, "root");
    assert_eq!(gpui.runtime_id, format!("component/{root}/root"));
    assert_eq!(gpui.document_revision, 7);
    assert_eq!(format!("{html:?}"), format!("{gpui:?}"));
}

#[test]
fn an_empty_library_selects_the_page_title() {
    let library = ComponentLibrary {
        components: Vec::new(),
        active_component: String::new(),
        tokens: Vec::new(),
    };
    let selection = initial_selection(AuthoringBackend::Html, &library, 3);
    assert_eq!(selection.authored_id, "hero-title");
    assert_eq!(selection.runtime_id, "project-canvas--hero-title");
}

fn measured() -> MeasuredSize {
    MeasuredSize { width: Some("120".to_owned()), height: None }
}

#[test]
fn written_values_read_back() {
    let node = node("title", Vec::new());
    let cases = [
        (InspectorValueField::Gap, "12"),
        (InspectorValueField::Opacity, "55"),
        (InspectorValueField::Rotation, "-90"),
        (InspectorValueField::Background, "#102030"),
        (InspectorValueField::Text, "Hello"),
        (InspectorValueField::ZIndex, "-3"),
        (InspectorValueField::OffsetLeft, "-8"),
        (InspectorValueField::MinWidth, "40"),
    ];
    for (field, value) in cases {
        let target = InspectorTarget::Node(node.copied());
        match set_inspector_value(target, &measured(), field, value) {
            Ok(InspectorOutcome::Edited { node, .. }) => {
                assert_eq!(inspector_value(Some(&node), &measured(), field), value, "{field:?}");
            }
            other => panic!("{other:?}"),
        }
    }
}

#[test]
fn values_out_of_bounds_are_refused() {
    let target = || InspectorTarget::Node(node("title", Vec::new()));
    let write = |field, value: &str| set_inspector_value(target(), &measured(), field, value);
    assert!(write(InspectorValueField::Opacity, "101").is_err());
    assert!(write(InspectorValueField::Background, "red").is_err());
    assert!(write(InspectorValueField::Rotation, "361").is_ok());
    assert!(write(InspectorValueField::Rotation, "32767").is_ok());
    assert!(write(InspectorValueField::Rotation, "-32768").is_err());
}

#[test]
fn unpainted_sizes_read_as_zero() {
    assert_eq!(inspector_value(None, &measured(), InspectorValueField::Width), "120");
    assert_eq!(inspector_value(None, &measured(), InspectorValueField::Height), "0");
}

#[test]
fn sizing_policies_are_chosen() {
    let mut node = node("title", Vec::new());
    set_inspector_size(&mut node, InspectorSizeAxis::Width, NativeSize::Fixed(0), 240);
    assert_eq!(node.layout.width, NativeSize::Fixed(240));
    assert!(inspector_size_selected(
        Some(&node),
        InspectorSizeAxis::Width,
        NativeSize::Fixed(0)
    ));
    assert!(!inspector_size_selected(Some(&node), InspectorSizeAxis::Width, NativeSize::Fill));
    assert!(!inspector_size_selected(None, InspectorSizeAxis::Width, NativeSize::Fill));
}

#[test]
fn every_layout_choice_can_be_chosen() {
    let bindings = inspector_layout_choice_bindings();
    assert_eq!(bindings.len(), 22);
    for binding in &bindings {
        let mut node = node("title", Vec::new());
        set_inspector_layout_choice(&mut node, binding.choice);
        assert!(inspector_layout_choice_selected(Some(&node), binding.choice));
    }
    let names: std::collections::BTreeSet<&str> =
        bindings.iter().map(|binding| binding.name.as_str()).collect();
    assert_eq!(names.len(), 22);
    assert!(names.contains("inspector_constraint_x_stretch"));
    let none = InspectorLayoutChoice::Wrap(NativeWrap::NoWrap);
    assert!(bindings.iter().any(|b| b.choice == none && b.name == "inspector_wrap_none"));
}

fn layer(id: &str) -> LayerRow {
    LayerRow {
        runtime_id: id.to_owned(),
        authored_id: id.to_owned(),
        label: id.to_owned(),
        kind: LayerKind::Frame,
        depth: 0,
        expandable: false,
        parent: None,
    }
}

#[test]
fn layers_are_picked_alone_toggled_and_as_ranges() {
    let mut state = session();
    let tree = UiTree::empty();
    let mut pick = |state: &mut StudioState, id: &str, pick: LayerPick| {
        select_project_layer(
            &mut state.lists,
            &mut state.authoring,
            &layer(id),
            pick,
            Some(5),
            &tree,
        )
    };
    assert_eq!(pick(&mut state, "a", LayerPick::Single), "Selected a · 1 layer");
    assert_eq!(pick(&mut state, "b", LayerPick::Toggle), "Selected b · 2 layers");
    assert_eq!(pick(&mut state, "b", LayerPick::Toggle), "Selected b · 1 layer");
    assert_eq!(state.lists.range_anchor("z"), "b");
    let range = vec!["b".to_owned(), "c".to_owned(), "d".to_owned()];
    assert_eq!(pick(&mut state, "d", LayerPick::Range(range)), "Selected d · 3 layers");
    assert_eq!(state.lists.range_anchor("z"), "b");
    assert_eq!(pick(&mut state, "e", LayerPick::Range(Vec::new())), "Selected e · 3 layers");
    assert_eq!(state.lists.project_focus.as_deref(), Some("e"));
    assert_eq!(state.authoring.selection.document_revision, 5);
}

#[test]
fn the_painted_selection_is_read_once_per_generation() {
    let mut state = session();
    let rect = Rect {
        x: number(1.0),
        y: number(2.0),
        width: number(3.0),
        height: number(4.0),
        valid: true,
    };
    let painted = UiTree {
        generation: 8,
        nodes: vec![UiNode {
            id: "component/main/root".to_owned(),
            bounds: Some(rect),
            text: None,
            label: None,
        }],
    };
    state.authoring.selection_snapshot(8, &painted);
    let generation = |state: &StudioState| {
        state.authoring.snapshot.as_ref().map(|snapshot| snapshot.generation)
    };
    assert_eq!(generation(&state), Some(8));
    assert_eq!(state.authoring.selection.captured_rect, Some(rect));
    state.authoring.selection_snapshot(8, &UiTree::empty());
    assert_eq!(state.authoring.selection.captured_rect, Some(rect));
    state.authoring.selection_snapshot(9, &UiTree::empty());
    assert_eq!(state.authoring.selection.captured_rect, None);

    // What was read is forgotten when something is selected, shown or published.
    state.authoring.select_component_node("main", "root");
    assert_eq!(generation(&state), None);
    state.authoring.selection_snapshot(8, &painted);
    assert_eq!(state.authoring.selection.captured_rect, Some(rect));
    let again = ElementSelection::new("root", "component/main/root", 1, None);
    state.authoring.activate_document(&DocumentId::Main, Some(again));
    assert_eq!(generation(&state), None);
    state.authoring.selection_snapshot(8, &painted);
    let root = tree();
    let published = state.authoring.publish_component_graph(&mut state.lists, "main", root);
    assert!(matches!(published, Ok(status) if status == "Component main live graph published"));
    assert_eq!(generation(&state), None);
}

#[test]
fn the_inspector_edits_the_selected_node() {
    let mut state = session();
    select(&mut state, "title");
    assert!(matches!(state.authoring.inspector_target(), InspectorTarget::Node(node) if node.id == "title"));
    select(&mut state, "gone");
    assert!(matches!(state.authoring.inspector_target(), InspectorTarget::NoNode));
    state.authoring.library.components.clear();
    assert!(matches!(state.authoring.inspector_target(), InspectorTarget::NoComponent));
}
