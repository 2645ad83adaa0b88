use gpui_studio::annotations::{AnnotationStatus, AnnotationStore, ElementSelection};
use gpui_studio::annotations::NormalizedAnchor;
use gpui_studio::automation::{Rect, UiNode, UiTree};
use gpui_studio::commands::{
    graph_bridge_error, parse_application_command, studio_application_commands,
    undecodable_arguments, BridgeError, ErrorCode, GraphFault, StudioCommand,
};
use gpui_studio::components::{
    ComponentLibrary, NativeAlign, NativeAppearance, NativeComponent, NativeConstraint,
    NativeEdges, NativeLayout, NativeNode, NativeNodeKind, NativeOffsets, NativeOverflow,
    NativePosition, NativeSize, NativeTypography, NativeWrap,
};
use gpui_studio::execution::{
    execute_application_command, finish_annotation, finish_create, finish_graph_change,
    finish_remove, kept_graph, CommandRequest, CommandStep, GraphAction, GraphChange,
    GraphRefusal, LiveContext,
};
use gpui_studio::float_bits::Float32;
use gpui_studio::layer_rows::{LayerKind, LayerRow};
use gpui_studio::presets::{component_preset_bindings, parse_component_preset, ComponentPreset};
use gpui_studio::resources::{
    build_resource, context_resource, parse_resource_uri, resource_content, studio_resource_uris,
    ContextResourceRequest, ContextResourceResponse, ResourceContent, ResourceValues,
    StudioResource,
};
use gpui_studio::studio::{
    AuthoringBackend, CanvasSettings, OutputDecorations, StudioMode, StudioState,
    StudioStateInit, ViewportPreset,
};
use gpui_studio::tree_session::{GraphSync, KnownGraph};

fn layout() -> NativeLayout {
    NativeLayout {
        width: NativeSize::Hug,
        height: NativeSize::Hug,
        gap: 0,
        padding: 0,
        margin: NativeEdges { top: 0, right: 0, bottom: 0, left: 0 },
        basis: None,
        min_width: None,
        max_width: None,
        min_height: None,
        max_height: None,
        grid_columns: 1,
        grid_rows: 1,
        column_start: None,
        column_span: 1,
        row_start: None,
        row_span: 1,
        offsets: NativeOffsets { left: None, top: None, right: None, bottom: None },
        z_index: 0,
        opacity_percent: 100,
        rotation_degrees: 0,
        align: NativeAlign::Start,
        justify: NativeAlign::Start,
        wrap: NativeWrap::NoWrap,
        position: NativePosition::Flow,
        overflow: NativeOverflow::Visible,
        horizontal_constraint: NativeConstraint::Start,
        vertical_constraint: NativeConstraint::Start,
        grow: false,
        shrink: true,
    }
}

fn node(id: &str, children: Vec<NativeNode>) -> NativeNode {
    NativeNode {
        id: id.to_owned(),
        kind: NativeNodeKind::Column,
        instance_of: None,
        state: 0,
        layout: layout(),
        appearance: NativeAppearance { radius: 0, background: None, foreground: 0, border: None },
        typography: NativeTypography {
            family: "Geist".to_owned(),
            size: 14,
            weight: 400,
            line_height: 20,
        },
        text: None,
        action: None,
        children,
    }
}

fn component(id: &str) -> NativeComponent {
    NativeComponent {
        id: id.to_owned(),
        name: id.to_owned(),
        root: node("root", vec![node("title", Vec::new())]),
        props: Vec::new(),
        states: Vec::new(),
        variants: Vec::new(),
        slots: Vec::new(),
        logic: Vec::new(),
    }
}

fn library() -> ComponentLibrary {
    ComponentLibrary {
        components: vec![component("main"), component("card")],
        active_component: "main".to_owned(),
        tokens: Vec::new(),
    }
}

fn session() -> StudioState {
    StudioState::new(StudioStateInit {
        mode: StudioMode::Design,
        backend: AuthoringBackend::Html,
        canvas: CanvasSettings {
            preset: ViewportPreset::Responsive,
            zoom_percent: 100,
            quarter_turns: 0,
            snap_enabled: true,
            snap_grid: 8,
            decorations: OutputDecorations::Native,
        },
        library: library(),
        annotations: AnnotationStore::default(),
    })
}

fn painted(id: &str) -> UiNode {
    let number = |value: f32| Float32::from_bits(value.to_bits());
    UiNode {
        id: id.to_owned(),
        bounds: Some(Rect {
            x: number(1.0),
            y: number(2.0),
            width: number(3.0),
            height: number(4.0),
            valid: true,
        }),
        text: None,
        label: None,
    }
}

fn row(id: &str) -> LayerRow {
    LayerRow {
        runtime_id: format!("project-canvas--{id}"),
        authored_id: id.to_owned(),
        label: id.to_owned(),
        kind: LayerKind::Frame,
        depth: 0,
        expandable: false,
        parent: None,
    }
}

fn live() -> LiveContext {
    let mut hidden = painted("hidden");
    hidden.bounds = None;
    LiveContext {
        tree: UiTree {
            generation: 4,
            nodes: vec![painted("project-canvas--b"), painted("parent"), painted("child"), hidden],
        },
        rows: vec![row("a"), row("b")],
        revision: Some(11),
        graph: None,
    }
}

fn run(
    state: &mut StudioState,
    request: CommandRequest,
    live: &LiveContext,
) -> Result<CommandStep, BridgeError> {
    execute_application_command(
        &mut state.authoring,
        &mut state.lists,
        &state.review,
        request,
        live,
    )
}

fn refused(result: Result<CommandStep, BridgeError>) -> (ErrorCode, String) {
    match result {
        Ok(step) => panic!("accepted: {step:?}"),
        Err(error) => (error.code, error.message),
    }
}

#[test]
fn preset_registration_matches_catalog_schema_parser_and_ui() {
    let bindings = component_preset_bindings();
    let expected = [
        ComponentPreset::Button,
        ComponentPreset::ButtonGroup,
        ComponentPreset::Card,
        ComponentPreset::Badge,
        ComponentPreset::Alert,
        ComponentPreset::Toolbar,
        ComponentPreset::Avatar,
        ComponentPreset::EmptyState,
        ComponentPreset::Titlebar,
        ComponentPreset::Tabs,
        ComponentPreset::Dialog,
        ComponentPreset::Dropdown,
        ComponentPreset::DropdownMenu,
        ComponentPreset::Drawer,
        ComponentPreset::Scrollable,
        ComponentPreset::Resizable,
        ComponentPreset::Tooltip,
    ];
    assert_eq!(bindings.iter().map(|binding| binding.preset).collect::<Vec<_>>(), expected);

    let commands = studio_application_commands();
    let create = commands.iter().find(|command| command.name() == "component.create");
    assert!(create.is_some(), "component.create command is missing");

    for binding in bindings {
        assert!(
            matches!(parse_component_preset(binding.slug), Some(parsed) if parsed == binding.preset)
        );
    }
    assert!(parse_component_preset("not-a-preset").is_none());
}

#[test]
fn listed_commands_run_under_their_names() {
    let commands = studio_application_commands();
    assert_eq!(commands.len(), 12);
    for command in commands {
        match parse_application_command(command.name()) {
            Ok(parsed) => assert_eq!(parsed, command),
            Err(error) => panic!("{error:?}"),
        }
    }
    match parse_application_command("component.unknown") {
        Ok(command) => panic!("{command:?}"),
        Err(error) => {
            assert_eq!(error.code, ErrorCode::NotFound);
            assert_eq!(error.message, "Studio application command was not found");
        }
    }
    assert!(StudioCommand::ComponentCreate.is_mutating());
    assert!(!StudioCommand::ProjectParity.is_mutating());
    assert_eq!(StudioCommand::LayoutSnap.title(), "Snap live selection");
}

#[test]
fn graph_commands_bring_the_graph_up_to_date_first() {
    let mut state = session();
    let mut live = live();
    let request = || CommandRequest::GraphApply { component_id: "card".to_owned() };
    match run(&mut state, request(), &live) {
        Ok(CommandStep::Graph { component_id, sync, action }) => {
            assert_eq!(component_id, "card");
            assert_eq!(sync, GraphSync::Rebuild(1));
            assert_eq!(action, GraphAction::Apply);
        }
        other => panic!("{other:?}"),
    }
    live.graph = Some(KnownGraph { revision: 5, current: false });
    match run(&mut state, CommandRequest::GraphUndo { component_id: "card".to_owned() }, &live) {
        Ok(CommandStep::Graph { sync, action, .. }) => {
            assert_eq!(sync, GraphSync::Rebuild(6));
            assert_eq!(action, GraphAction::Undo);
        }
        other => panic!("{other:?}"),
    }
    live.graph = Some(KnownGraph { revision: 5, current: true });
    match run(&mut state, CommandRequest::GraphGet { component_id: "card".to_owned() }, &live) {
        Ok(CommandStep::Graph { sync, action, .. }) => {
            assert_eq!(sync, GraphSync::Keep);
            assert_eq!(action, GraphAction::Read);
        }
        other => panic!("{other:?}"),
    }
    let missing = CommandRequest::GraphRedo { component_id: "gone".to_owned() };
    assert_eq!(
        refused(run(&mut state, missing, &live)),
        (ErrorCode::NotFound, "component was not found".to_owned())
    );
}

#[test]
fn a_changed_graph_is_published() {
    let mut state = session();
    state.lists.initialized_for = Some("card".to_owned());
    let root = node("root", vec![node("title", Vec::new()), node("body", Vec::new())]);
    let change = GraphChange { revision: 7, root };
    match finish_graph_change(&mut state.authoring, &mut state.lists, "card", Ok(change)) {
        Ok(published) => {
            assert_eq!(published.revision, 7);
            assert_eq!(published.status, "Component card live graph published");
        }
        Err(error) => panic!("{error:?}"),
    }
    assert_eq!(state.authoring.library.components[1].root.children.len(), 2);
    assert_eq!(state.authoring.library.components[0].root.children.len(), 1);
    assert!(state.authoring.pending.dirty);
    assert!(state.lists.initialized_for.is_none());

    let refusal = GraphRefusal { fault: GraphFault::Conflict, message: "moved on".to_owned() };
    match finish_graph_change(&mut state.authoring, &mut state.lists, "card", Err(refusal)) {
        Ok(published) => panic!("{published:?}"),
        Err(error) => {
            assert_eq!(error.code, ErrorCode::StaleRevision);
            assert_eq!(error.message, "moved on");
        }
    }
    assert!(kept_graph(None).is_err());
    assert!(matches!(kept_graph(Some(3)), Ok(3)));
    assert_eq!(graph_bridge_error(GraphFault::MissingNode, "x").code, ErrorCode::NotFound);
    assert_eq!(graph_bridge_error(GraphFault::Other, "x").code, ErrorCode::InvalidRequest);
    assert_eq!(
        undecodable_arguments("missing field").message,
        "application command arguments are invalid: missing field"
    );
}

#[test]
fn new_components_need_a_short_name_and_a_known_preset() {
    let mut state = session();
    let live = live();
    let create = |name: &str, preset: Option<&str>| CommandRequest::Create {
        name: name.to_owned(),
        preset: preset.map(str::to_owned),
    };
    match run(&mut state, create("  Menu ", Some("dropdown_menu")), &live) {
        Ok(CommandStep::CreateComponent(request)) => {
            assert_eq!(request.name, "Menu");
            assert_eq!(request.preset, Some(ComponentPreset::DropdownMenu));
        }
        other => panic!("{other:?}"),
    }
    for name in ["   ", &"x".repeat(129)] {
        assert_eq!(
            refused(run(&mut state, create(name, None), &live)),
            (
                ErrorCode::InvalidRequest,
                "component name must contain 1 through 128 bytes".to_owned()
            )
        );
    }
    assert_eq!(
        refused(run(&mut state, create("Menu", Some("nope")), &live)),
        (ErrorCode::InvalidRequest, "component preset is not supported".to_owned())
    );
    let mut candidate = library();
    candidate.components.push(component("menu"));
    match finish_create(&mut state.authoring, candidate, Err("disk full".to_owned())) {
        Ok(revision) => panic!("{revision}"),
        Err(error) => {
            assert_eq!(error.code, ErrorCode::Internal);
            assert_eq!(error.message, "component could not be persisted: disk full");
        }
    }
    assert_eq!(state.authoring.library.components.len(), 2);
    let mut candidate = library();
    candidate.components.push(component("menu"));
    assert!(matches!(finish_create(&mut state.authoring, candidate, Ok(())), Ok(1)));
    assert_eq!(state.authoring.library.components.len(), 3);
}

#[test]
fn refused_removals_are_invalid_requests() {
    match finish_remove(Err("still referenced".to_owned())) {
        Ok(name) => panic!("{name}"),
        Err(error) => {
            assert_eq!(error.code, ErrorCode::InvalidRequest);
            assert_eq!(error.message, "still referenced");
        }
    }
    assert!(matches!(finish_remove(Ok("Card".to_owned())), Ok(name) if name == "Card"));
}

#[test]
fn a_live_layer_is_selected_by_its_runtime_id() {
    let mut state = session();
    let live = live();
    let request = CommandRequest::Select { runtime_id: "project-canvas--b".to_owned() };
    match run(&mut state, request, &live) {
        Ok(CommandStep::LayerSelected { revision, status }) => {
            assert_eq!(revision, Some(11));
            assert_eq!(status, "Selected b · 1 layer");
        }
        other => panic!("{other:?}"),
    }
    assert_eq!(state.authoring.selection.runtime_id, "project-canvas--b");
    assert_eq!(state.authoring.selection.document_revision, 11);
    assert!(state.authoring.selection.captured_rect.is_some());
    assert_eq!(state.lists.multi_selection.to_vec(), vec!["project-canvas--b"]);
    let missing = CommandRequest::Select { runtime_id: "project-canvas--z".to_owned() };
    assert_eq!(
        refused(run(&mut state, missing, &live)),
        (ErrorCode::NotFound, "project layer was not found".to_owned())
    );
}

#[test]
fn a_marquee_selects_what_it_touches() {
    let mut state = session();
    let live = live();
    let touched = vec!["project-canvas--b".to_owned(), "project-canvas--a".to_owned()];
    let request = CommandRequest::Marquee { touched, additive: false };
    match run(&mut state, request, &live) {
        Ok(CommandStep::LayersSelected { ids, told, .. }) => {
            assert_eq!(ids, vec!["project-canvas--a", "project-canvas--b"]);
            assert_eq!(told.as_deref(), Some("Selected a · 1 layer"));
        }
        other => panic!("{other:?}"),
    }
    assert_eq!(state.authoring.selection.authored_id, "a");
    let touched = vec!["elsewhere".to_owned()];
    let request = CommandRequest::Marquee { touched, additive: true };
    match run(&mut state, request, &live) {
        Ok(CommandStep::LayersSelected { ids, told, .. }) => {
            assert_eq!(ids.len(), 3);
            assert!(told.is_none());
        }
        other => panic!("{other:?}"),
    }
    assert_eq!(state.authoring.selection.authored_id, "a");
}

#[test]
fn placement_commands_need_live_elements() {
    let mut state = session();
    let live = live();
    let drop = |parent: &str, children: &[&str]| CommandRequest::SuggestDrop {
        parent: parent.to_owned(),
        child_ids: children.iter().map(|id| (*id).to_owned()).collect(),
    };
    assert!(matches!(
        run(&mut state, drop("parent", &["child", "hidden"]), &live),
        Ok(CommandStep::SuggestDrop { revision: Some(11), .. })
    ));
    assert_eq!(
        refused(run(&mut state, drop("gone", &[]), &live)),
        (
            ErrorCode::NotFound,
            "drop parent was not found in the live semantic tree".to_owned()
        )
    );
    assert_eq!(
        refused(run(&mut state, drop("parent", &["gone"]), &live)),
        (ErrorCode::NotFound, "one or more drop children were not found".to_owned())
    );
    let snap = |ids: &[&str]| CommandRequest::Snap {
        ids: ids.iter().map(|id| (*id).to_owned()).collect(),
    };
    assert!(matches!(run(&mut state, snap(&["parent", "child"]), &live), Ok(_)));
    assert_eq!(
        refused(run(&mut state, snap(&[]), &live)),
        (ErrorCode::InvalidRequest, "snap requires 1 through 256 selected IDs".to_owned())
    );
    assert_eq!(
        refused(run(&mut state, snap(&["hidden"]), &live)),
        (ErrorCode::NotFound, "selected live bounds were not found".to_owned())
    );
    assert_eq!(
        refused(run(&mut state, snap(&["parent", "hidden"]), &live)),
        (
            ErrorCode::NotFound,
            "one or more selected live bounds were not found".to_owned()
        )
    );
}

#[test]
fn tools_move_review_tasks_on() {
    let mut state = session();
    let live = live();
    let id = state
        .review
        .annotations
        .add(
            ElementSelection::new("hero", "canvas--hero", 1, None),
            "text",
            NormalizedAnchor::default(),
        )
        .expect("valid")
        .id;
    let update = |id: &str, status: &str| CommandRequest::UpdateAnnotation {
        id: id.to_owned(),
        status: status.to_owned(),
    };
    assert_eq!(
        refused(run(&mut state, update(&id, "closed"), &live)),
        (
            ErrorCode::InvalidRequest,
            "status must be open, in_progress, done, or archived".to_owned()
        )
    );
    assert_eq!(
        refused(run(&mut state, update("comment-000009", "done"), &live)),
        (ErrorCode::InvalidRequest, "annotation task was not found".to_owned())
    );
    let (candidate, next) = match run(&mut state, update(&id, "done"), &live) {
        Ok(CommandStep::SaveAnnotations { candidate, next, .. }) => (candidate, next),
        other => panic!("{other:?}"),
    };
    assert_eq!(next, AnnotationStatus::Done);
    state.review.active = Some(id.clone());
    state.review.popover_open = true;
    let failed =
        finish_annotation(&mut state.review, candidate.clone(), &id, next, Err("full".to_owned()));
    assert!(matches!(failed, Err(error) if error.code == ErrorCode::Internal));
    assert!(state.review.popover_open);
    match finish_annotation(&mut state.review, candidate, &id, next, Ok(())) {
        Ok(status) => assert_eq!(status, format!("Review task {id} → Done")),
        Err(error) => panic!("{error:?}"),
    }
    assert!(!state.review.popover_open);
    assert!(state.review.active.is_none());
    assert_eq!(state.review.annotations.counts().done, 1);
}

#[test]
fn parity_names_the_nodes_that_a_projection_lacks() {
    let mut state = session();
    let mut live = live();
    live.graph = Some(KnownGraph { revision: 3, current: true });
    let request = CommandRequest::Parity {
        component_id: "card".to_owned(),
        html: "<div id=\"root\"><p id=\"title\"></p></div>".to_owned(),
        gpui: "component/card/root".to_owned(),
    };
    match run(&mut state, request, &live) {
        Ok(CommandStep::Parity { report, revision }) => {
            assert!(!report.parity);
            assert_eq!(report.node_count, 2);
            assert!(report.missing_html.is_empty());
            assert_eq!(report.missing_gpui, vec!["title"]);
            assert_eq!(revision, Some(3));
        }
        other => panic!("{other:?}"),
    }
}

#[test]
fn every_listed_resource_can_be_read() {
    let mut fields = serde_json::Map::new();
    fields.insert("count".to_owned(), serde_json::Value::from(2));
    let value = serde_json::Value::Object(fields);
    let uris = studio_resource_uris();
    assert_eq!(uris.len(), 8);
    for uri in uris {
        match build_resource(uri, &value) {
            Ok(resource) => {
                assert_eq!(resource.text, "{\n  \"count\": 2\n}");
                assert_eq!(resource.descriptor.uri, uri);
                assert_eq!(resource.descriptor.mime_type, "application/json");
                assert_eq!(resource.descriptor.size, resource.text.len() as u64);
            }
            Err(error) => panic!("{error:?}"),
        }
    }
    match build_resource("gpui-studio://unknown", &value) {
        Ok(resource) => panic!("{resource:?}"),
        Err(error) => {
            assert_eq!(error.code, ErrorCode::NotFound);
            assert_eq!(error.message, "Studio context resource was not found");
        }
    }
    let active = parse_resource_uri("gpui-studio://tasks/active");
    assert!(matches!(active, Ok(resource) if resource.name() == "studio-active-annotations"));
}

#[test]
fn requests_for_resources_are_answered() {
    let values = ResourceValues {
        manifest: serde_json::Value::from("manifest"),
        selection: serde_json::Value::from("selection"),
        active_annotations: serde_json::Value::from("active"),
        annotation_history: serde_json::Value::from("history"),
        latest_handoff: serde_json::Value::from("handoff"),
        editor_theme: serde_json::Value::from("theme"),
    };
    match context_resource(&ContextResourceRequest::List, &values) {
        Ok(ContextResourceResponse::List(list)) => {
            let uris: Vec<&str> = list.iter().map(|resource| resource.uri.as_str()).collect();
            assert_eq!(uris, studio_resource_uris());
            assert_eq!(list[0].size, "\"manifest\"".len() as u64);
            for listed in list {
                let request = ContextResourceRequest::Read { uri: listed.uri.clone() };
                match context_resource(&request, &values) {
                    Ok(ContextResourceResponse::Resource(resource)) => {
                        assert_eq!(format!("{:?}", resource.descriptor), format!("{listed:?}"));
                        assert_eq!(listed.mime_type, "application/json");
                        assert_eq!(listed.size, resource.text.len() as u64);
                    }
                    other => panic!("{other:?}"),
                }
            }
        }
        other => panic!("{other:?}"),
    }
    let read = |uri: &str| {
        context_resource(&ContextResourceRequest::Read { uri: uri.to_owned() }, &values)
    };
    match read("gpui-studio://tasks/history") {
        Ok(ContextResourceResponse::Resource(resource)) => {
            assert_eq!(resource.text, "\"history\"");
            assert_eq!(resource.descriptor.name, "studio-annotation-history");
        }
        other => panic!("{other:?}"),
    }
    match read("gpui-studio://nothing") {
        Err(error) => assert_eq!(error.code, ErrorCode::NotFound),
        other => panic!("{other:?}"),
    }
}

#[test]
fn resources_hold_what_the_session_shows() {
    let mut state = session();
    let target = || ElementSelection::new("hero", "canvas--hero", 1, None);
    let store = &mut state.review.annotations;
    let first = store.add(target(), "one", NormalizedAnchor::default()).expect("valid").id;
    let second = store.add(target(), "two", NormalizedAnchor::default()).expect("valid").id;
    store.transition(&first, AnnotationStatus::Done).expect("valid");
    let tree = UiTree::empty();
    let ids = |kind, handed_off: &Option<Vec<String>>| -> Vec<String> {
        match resource_content(kind, &state, &tree, handed_off) {
            ResourceContent::Annotations { annotations, .. }
            | ResourceContent::Handoff { annotations, .. } => {
                annotations.into_iter().map(|resolved| resolved.annotation.id).collect()
            }
            other => panic!("{other:?}"),
        }
    };
    assert_eq!(ids(StudioResource::ActiveAnnotations, &None), vec![second.clone()]);
    assert_eq!(
        ids(StudioResource::AnnotationHistory, &None),
        vec![first.clone(), second.clone()]
    );
    assert!(ids(StudioResource::LatestHandoff, &None).is_empty());
    let handed_off = Some(vec![second.clone(), "gone".to_owned(), first.clone()]);
    assert_eq!(ids(StudioResource::LatestHandoff, &handed_off), vec![second, first]);
    match resource_content(StudioResource::Manifest, &state, &tree, &None) {
        ResourceContent::Manifest { authoring_projection, application_commands, .. } => {
            assert_eq!(authoring_projection, "html");
            assert_eq!(application_commands.len(), 12);
            assert_eq!(application_commands[0], "component.graph.get");
        }
        other => panic!("{other:?}"),
    }
    match resource_content(StudioResource::Selection, &state, &tree, &None) {
        ResourceContent::Selection { selection, current_rect, semantic_generation } => {
            assert_eq!(selection.runtime_id, state.authoring.selection.runtime_id);
            assert_eq!((current_rect, semantic_generation), (None, 0));
        }
        other => panic!("{other:?}"),
    }
    assert!(matches!(
        resource_content(StudioResource::EditorTheme, &state, &tree, &None),
        ResourceContent::Theme
    ));
}
