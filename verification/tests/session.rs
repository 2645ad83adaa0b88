use std::collections::BTreeSet;

use gpui_studio::annotations::{AnnotationStatus, AnnotationStore, ElementSelection};
use gpui_studio::automation::Rect;
use gpui_studio::canvas::{can_drop_on_canvas, canvas_content, CanvasContent, CanvasPayload};
use gpui_studio::components::{
    ComponentLibrary, ComponentState, NativeAlign, NativeAppearance, NativeComponent, NativeConstraint,
    NativeEdges, NativeLayout, NativeNode, NativeNodeKind, NativeOffsets, NativeOverflow,
    NativePosition, NativeSize, NativeTypography, NativeWrap,
};
use gpui_studio::definitions::{
    apply_definition_change, put_design_token, remove_component_state, save_component_slot,
    save_component_state, save_component_variant, save_design_token, DefinitionDraftField,
};
use gpui_studio::dispatch::{goes_to_page, perform_event, EventStep, LiveEvent};
use gpui_studio::documents::{
    click_pick, creation_status, missing_document_status, DocumentOpening, LayerPick,
};
use gpui_studio::drag::DragPreviewState;
use gpui_studio::edit_session::StudioInspectorDraftField;
use gpui_studio::event_hooks::{handle_event, studio_events, StudioEvent};
use gpui_studio::events::{
    annotate_canvas_at, context_menu_actions, dismiss_overlays, handle_component_pointer,
    handle_global_keystroke, AnnotateRequest, ComponentPointerGesture, ContextMenuAction,
    KeyRequest, MenuRequest, PointerRequest,
};
use gpui_studio::float_bits::Float32;
use gpui_studio::history::{
    debounce, has_unseen_revision, move_history, move_history_status, project_path,
    reload_external_if_changed, reload_external_status, reload_shell_status, save_status,
    tool_preview_status, ExternalEdit, ExternalRead, HistoryStep, PollReports, PreviewOutcome,
    SaveOutcome, SourceDocument, ThemeReport, WatcherReport, WatcherRequest, Watching,
};
use gpui_studio::inspector::{InspectorAlignmentAxis, InspectorSizeAxis, InspectorValueField};
use gpui_studio::overlays::{PositionLabels, RectLabels};
use gpui_studio::panels::{fit_status, rotation_status, zoom_status};
use gpui_studio::presets::{component_preset_bindings, ComponentPreset};
use gpui_studio::review::{mark_sent, DraftCommit, HandoffOutcome};
use gpui_studio::session::{
    activate_annotation, enter_annotate_mode, enter_move_tool, focus_main_root,
    open_component_instance, reset_panel, select_component_instance, select_theme,
    selection_viewport, toggle_component_root, toggle_layer, PageLayer, SelectionSnapshot,
};
use gpui_studio::state_hooks::{
    field_id, field_text, flag_hooks, preset_flag_id, text_hooks, AlignPolicy, DraftHook,
    FlagHook, HookValue, LiveLabels, NodeHook, PanelFlag, SizePolicy, TextHook,
};
use gpui_studio::stub::PresetText;
use gpui_studio::studio::{
    AuthoringBackend, CanvasSettings, ContextMenuState, ContextMenuTarget, DockTab, DocumentId,
    HorizontalConstraint, OutputDecorations, StudioMode, StudioState, StudioStateInit,
    ViewportPreset,
};
use gpui_studio::tree_session::delete_component;

fn layout() -> NativeLayout {
    NativeLayout {
        width: NativeSize::Hug,
        height: NativeSize::Hug,
        gap: 0,
        padding: 0,
        margin: NativeEdges { top: 0, right: 0, bottom: 0, left: 0 },
        basis: None,
        min_width: None,
        max_width: None,
        min_height: None,
        max_height: None,
        grid_columns: 1,
        grid_rows: 1,
        column_start: None,
        column_span: 1,
        row_start: None,
        row_span: 1,
        offsets: NativeOffsets { left: None, top: None, right: None, bottom: None },
        z_index: 0,
        opacity_percent: 100,
        rotation_degrees: 0,
        align: NativeAlign::Start,
        justify: NativeAlign::Start,
        wrap: NativeWrap::NoWrap,
        position: NativePosition::Flow,
        overflow: NativeOverflow::Visible,
        horizontal_constraint: NativeConstraint::Start,
        vertical_constraint: NativeConstraint::Start,
        grow: false,
        shrink: true,
    }
}

fn node(id: &str, children: Vec<NativeNode>) -> NativeNode {
    NativeNode {
        id: id.to_owned(),
        kind: NativeNodeKind::Column,
        instance_of: None,
        state: 0,
        layout: layout(),
        appearance: NativeAppearance { radius: 0, background: None, foreground: 0, border: None },
        typography: NativeTypography {
            family: "Geist".to_owned(),
            size: 14,
            weight: 400,
            line_height: 20,
        },
        text: None,
        action: None,
        children,
    }
}

fn component(id: &str, root: NativeNode) -> NativeComponent {
    NativeComponent {
        id: id.to_owned(),
        name: format!("The {id}"),
        root,
        props: Vec::new(),
        states: Vec::new(),
        variants: Vec::new(),
        slots: Vec::new(),
        logic: Vec::new(),
    }
}

fn session() -> StudioState {
    StudioState::new(StudioStateInit {
        mode: StudioMode::Design,
        backend: AuthoringBackend::Html,
        canvas: CanvasSettings {
            preset: ViewportPreset::Responsive,
            zoom_percent: 100,
            quarter_turns: 0,
            snap_enabled: true,
            snap_grid: 8,
            decorations: OutputDecorations::Native,
        },
        library: ComponentLibrary {
            components: vec![component("main", node("root", vec![node("title", Vec::new())])), component("card", node("root", vec![node("title", Vec::new())]))],
            active_component: "main".to_owned(),
            tokens: Vec::new(),
        },
        annotations: AnnotationStore::default(),
    })
}


fn number(value: f32) -> Float32 {
    Float32::from_bits(value.to_bits())
}

fn labels() -> LiveLabels {
    LiveLabels {
        project_path: "examples/welcome".to_owned(),
        revision: Some(7),
        dirty: Some(true),
        html_tag: None,
        gpui_kind: Some("Column".to_owned()),
        rect: Some(RectLabels {
            x: "1".to_owned(),
            y: "2".to_owned(),
            width: "30".to_owned(),
            height: "40".to_owned(),
        }),
        position: Some(PositionLabels { x: "-11".to_owned(), y: "-22".to_owned() }),
        theme: "Geist · Dark".to_owned(),
        viewport: "Desktop · 1440×900".to_owned(),
        zoom: "100%".to_owned(),
        preset: PresetText { label: "Button".to_owned(), description: "A button".to_owned() },
        code: "<main></main>".to_owned(),
    }
}

#[test]
fn every_text_is_read_under_its_id() {
    let state = session();
    let live = labels();
    let hooks = text_hooks();
    assert_eq!(hooks.len(), 40);
    let read = |id: &str| {
        let hook = hooks.iter().find(|hook| hook.id() == id).expect("the text is registered");
        state.read_text(*hook, &live)
    };
    assert_eq!(read("studio_status"), "Opening native project canvas…");
    assert_eq!(read("revision_label"), "REV 7");
    assert_eq!(read("dirty_label"), "UNSAVED PREVIEW");
    assert_eq!(read("mode_label"), "DESIGN");
    assert_eq!(read("component_summary"), "The main · 2 total");
    assert_eq!(read("selection_label"), "#root");
    assert_eq!(read("selection_element_tag"), "<Column>");
    assert_eq!(read("selection_width"), "30");
    assert_eq!(read("selection_height"), "40");
    assert_eq!(read("selection_x"), "-11");
    assert_eq!(read("selection_y"), "-22");
    assert_eq!(read("selection_size"), "30 × 40");
    assert_eq!(read("selection_rect"), "x 1 · y 2 · w 30 · h 40");
    assert_eq!(read("selection_rotation"), "0°");
    assert_eq!(read("selection_grid"), "8px");
    assert_eq!(read("annotation_count"), "MCP · 8 resources");
    assert_eq!(read("annotation_title"), "New annotation");
    assert_eq!(read("annotation_target"), "on Root");
    assert_eq!(read("send_annotations_label"), "Send 0");
    assert_eq!(read("welcome_disclosure"), "▾");
    assert_eq!(read("slot_capacity_label"), "Single child");
    assert_eq!(read("css_excerpt"), "<main></main>");
    assert_eq!(read("zoom_label"), "100%");
    assert_eq!(state.read_text(TextHook::ThemeLabel, &live), "Geist · Dark");
}

#[test]
fn unpainted_selections_read_as_dashes() {
    let state = session();
    let mut live = labels();
    live.position = None;
    assert_eq!(state.read_text(TextHook::SelectionX, &live), "—");
    assert_eq!(state.read_text(TextHook::SelectionY, &live), "—");
    assert_eq!(state.read_text(TextHook::SelectionWidth, &live), "30");
    assert_eq!(state.read_text(TextHook::SelectionRect, &live), "x 1 · y 2 · w 30 · h 40");
    live.rect = None;
    live.revision = None;
    live.dirty = None;
    live.gpui_kind = None;
    assert_eq!(state.read_text(TextHook::SelectionWidth, &live), "—");
    assert_eq!(state.read_text(TextHook::SelectionSize, &live), "awaiting paint");
    assert_eq!(state.read_text(TextHook::SelectionRect, &live), "not painted");
    assert_eq!(state.read_text(TextHook::RevisionLabel, &live), "REV —");
    assert_eq!(state.read_text(TextHook::DirtyLabel, &live), "NO DOCUMENT");
    assert_eq!(state.read_text(TextHook::SelectionElementTag, &live), "<element>");
}

#[test]
fn every_condition_is_read_under_its_id() {
    let mut state = session();
    let hooks = flag_hooks();
    let read = |state: &StudioState, id: &str| {
        let hook = hooks.iter().find(|hook| hook.id() == id).expect("the condition is registered");
        state.read_flag(*hook)
    };
    assert!(read(&state, "layers_visible"));
    assert!(!read(&state, "files_visible"));
    assert!(read(&state, "mode_design_selected"));
    assert!(read(&state, "component_root_selected"));
    assert!(read(&state, "inspector_component_editable"));
    assert!(!read(&state, "inspector_page_notice_visible"));
    assert!(!read(&state, "send_annotations_visible"));
    state.panels.show_files();
    assert!(state.read_flag(FlagHook::Panel(PanelFlag::FilesVisible)));
    state.panels.set_dock_tab(DockTab::States);
    assert!(read(&state, "states_visible"));
    state.panels.toggle_dock();
    assert!(!read(&state, "states_visible"));
    assert!(read(&state, "dock_states_selected"));
    state.authoring.select_project_element("hero-title", None, None);
    assert!(read(&state, "layer_hero_title_selected"));
    assert!(!read(&state, "component_root_selected"));
    assert!(read(&state, "inspector_page_notice_visible"));
}

#[test]
fn conditions_on_the_selected_node_are_read() {
    let state = session();
    let width = InspectorSizeAxis::Width;
    assert!(state.read_node_flag(NodeHook::Intrinsic(width)));
    assert!(state.read_node_flag(NodeHook::Size(width, SizePolicy::Hug)));
    assert!(!state.read_node_flag(NodeHook::Size(width, SizePolicy::Fixed)));
    let start = NodeHook::Alignment(InspectorAlignmentAxis::Justify, AlignPolicy::Start);
    assert!(state.read_node_flag(start));
    assert_eq!(start.id(), "inspector_justify_start");
}

#[test]
fn ids_are_unique() {
    let mut seen = BTreeSet::new();
    for hook in text_hooks() {
        assert!(seen.insert(hook.id().to_owned()), "{hook:?}");
    }
    for hook in flag_hooks() {
        assert!(seen.insert(hook.id().to_owned()), "{hook:?}");
    }
    for binding in component_preset_bindings() {
        assert!(seen.insert(preset_flag_id(binding.preset)), "{binding:?}");
    }
    assert!(seen.insert(field_id(InspectorValueField::FontFamily).to_owned()));
    assert!(seen.contains("preset_dropdown_menu_selected"));
    assert!(seen.contains("inspector_font_value"));

    let mut events = BTreeSet::new();
    for hook in studio_events() {
        assert!(events.insert(hook.id()), "{hook:?}");
    }
    assert_eq!(events.len(), 143);
}

#[test]
fn raised_events_ask_for_what_they_are_bound_to() {
    assert_eq!(handle_event("save_project"), Some(StudioEvent::Save));
    assert_eq!(handle_event("zoom_out"), Some(StudioEvent::ZoomBy(-10)));
    assert_eq!(handle_event("zoom_in"), Some(StudioEvent::ZoomBy(10)));
    assert_eq!(handle_event("show_project_canvas"), Some(StudioEvent::FocusMainRoot));
    assert_eq!(handle_event("select_welcome"), Some(StudioEvent::FocusMainRoot));
    assert_eq!(handle_event("mode_compare"), Some(StudioEvent::AnnotateTool));
    assert_eq!(handle_event("tool_annotate"), Some(StudioEvent::AnnotateTool));
    assert_eq!(handle_event("view_preview"), Some(StudioEvent::SetMode(StudioMode::Test)));
    assert_eq!(
        handle_event("viewport_tablet"),
        Some(StudioEvent::Viewport(ViewportPreset::Tablet))
    );
    assert_eq!(
        handle_event("constraint_scale"),
        Some(StudioEvent::Constraint(HorizontalConstraint::Scale))
    );
    assert_eq!(
        handle_event("inspector_height_fixed"),
        Some(StudioEvent::Size(InspectorSizeAxis::Height, SizePolicy::Fixed))
    );
    assert_eq!(
        handle_event("select_preset_empty_state"),
        Some(StudioEvent::SelectPreset(ComponentPreset::EmptyState))
    );
    assert_eq!(handle_event("unknown"), None);
}

#[test]
fn fields_take_text_only() {
    let mut state = session();
    let text = |value: &str| HookValue::Text(value.to_owned());
    assert_eq!(state.write_draft(DraftHook::Annotation, text("Look")), Ok(()));
    assert_eq!(state.read_draft(DraftHook::Annotation), "Look");
    assert!(state.review.pending.dirty);
    let name = DraftHook::Property(StudioInspectorDraftField::Name);
    assert_eq!(state.write_draft(name, text("title")), Ok(()));
    assert_eq!(state.read_draft(name), "title");
    let token = DraftHook::Definition(DefinitionDraftField::TokenPath);
    assert_eq!(state.write_draft(token, text("color.accent")), Ok(()));
    assert_eq!(state.read_draft(token), "color.accent");
    assert_eq!(state.read_draft(name), "title");
    assert_eq!(token.id(), "inspector_token_path");
    for (hook, reason) in [
        (DraftHook::Annotation, "annotation draft requires text"),
        (DraftHook::ComponentName, "component name requires text"),
        (DraftHook::ComponentProps, "component props require text"),
        (name, "inspector property draft requires text"),
        (token, "definition field requires text"),
    ] {
        assert_eq!(state.write_draft(hook, HookValue::Other), Err(reason));
    }
    assert_eq!(field_text(HookValue::Other), Err("inspector field requires text"));
    assert_eq!(field_text(text("12")), Ok("12".to_owned()));
}

#[test]
fn typed_comments_are_saved_after_a_quiet_moment() {
    let mut state = session();
    state.review.begin_annotation_on("title");
    state.review.set_annotation_draft("  Bigger ".to_owned());
    assert!(!state.review.pending.tick());
    assert!(state.review.pending.tick());
    let selection = state.authoring.selection.clone();
    let (candidate, id) = match state.review.prepare_commit(&selection, None) {
        DraftCommit::Save { candidate, id } => (candidate, id),
        other => panic!("{other:?}"),
    };
    assert_eq!(id, "comment-000001");
    assert!(!state.review.pending.tick());
    state.review.finish_commit(candidate, id.clone(), Ok(()));
    assert_eq!(state.review.annotations.annotations[0].comment, "Bigger");
    assert_eq!(state.review.annotation_title(), "Annotation 1");
    state.review.set_annotation_draft("Smaller".to_owned());
    match state.review.prepare_commit(&selection, None) {
        DraftCommit::Save { candidate, id: same } => {
            assert_eq!(same, id);
            assert_eq!(candidate.annotations.len(), 1);
            assert_eq!(candidate.annotations[0].comment, "Smaller");
        }
        other => panic!("{other:?}"),
    }
    state.review.set_annotation_draft("   ".to_owned());
    assert!(matches!(state.review.prepare_commit(&selection, None), DraftCommit::Nothing));
}

#[test]
fn a_handoff_starts_the_open_tasks() {
    let mut store = AnnotationStore::default();
    let select = || ElementSelection::new("hero", "canvas--hero", 1, None);
    let anchor = gpui_studio::annotations::NormalizedAnchor::default();
    let first = store.add(select(), "one", anchor).expect("valid").id;
    store.add(select(), "two", anchor).expect("valid");
    store.transition(&first, AnnotationStatus::Done).expect("valid");
    let sent = mark_sent(&store);
    assert_eq!(sent.annotations[0].status, AnnotationStatus::Done);
    assert_eq!(sent.annotations[1].status, AnnotationStatus::InProgress);
    assert_eq!(sent.sendable().len(), store.sendable().len());
    let mut state = session();
    state.review.annotations = store;
    let status = state.review.finish_handoff(HandoffOutcome::Rejected("nothing open".to_owned()));
    assert_eq!(status, "Send annotations rejected: nothing open");
    let status = state.review.finish_handoff(HandoffOutcome::Unsaved("disk full".to_owned()));
    assert_eq!(status, "Persist MCP handoff failed: disk full");
    let outcome = HandoffOutcome::Published { count: 1, sent: None };
    state.review.finish_handoff(outcome);
    assert_eq!(state.review.annotations.annotations[1].status, AnnotationStatus::Open);
    let outcome = HandoffOutcome::Published { count: 1, sent: Some(sent) };
    assert_eq!(
        state.review.finish_handoff(outcome),
        "Handed off 1 annotations to the agent · resource gpui-studio://annotations/handoff/latest"
    );
    assert_eq!(state.review.annotations.annotations[1].status, AnnotationStatus::InProgress);
}

#[test]
fn groups_of_the_page_are_toggled_and_selected() {
    let mut state = session();
    let status =
        toggle_layer(&mut state.authoring, &mut state.layers, PageLayer::FeatureCards, Some(4), None);
    assert_eq!(status, "Selected #feature-grid");
    assert!(state.layers.feature_cards);
    assert!(!state.layers.welcome);
    assert_eq!(state.authoring.selection.runtime_id, "project-canvas--feature-grid");
    assert_eq!(state.authoring.selection.document_revision, 4);
    let status = toggle_component_root(&mut state.authoring, &mut state.layers);
    assert_eq!(status.as_deref(), Some("Selected component document root"));
    assert!(state.layers.component_tree);
    assert_eq!(state.authoring.selection.runtime_id, "component/main/root");
    assert_eq!(
        select_component_instance(&mut state.authoring, None, None),
        "Selected the AppTitlebar instance · double-click to open its component"
    );
    assert_eq!(state.authoring.selection.document_revision, 1);
    assert!(open_component_instance(None).is_err());
}

#[test]
fn documents_open_activate_and_close() {
    let mut state = session();
    assert!(matches!(state.authoring.document_opening("card"), DocumentOpening::Own));
    assert!(matches!(state.authoring.document_opening("main"), DocumentOpening::Page));
    assert!(matches!(state.authoring.document_opening("gone"), DocumentOpening::Missing));
    let restored = ElementSelection::new("root", "component/card/root", 1, None);
    state.authoring.open_component_document("card", restored, &mut state.layers);
    assert_eq!(state.authoring.active_component_id().as_deref(), Some("card"));
    assert_eq!(state.authoring.library.active_component, "card");
    let back = ElementSelection::new("root", "component/main/root", 1, None);
    let status = state.authoring.close_component_document("card", Some((DocumentId::Main, back)));
    assert_eq!(status.as_deref(), Some("Closed The card · active document restored"));
    assert_eq!(state.authoring.library.active_component, "main");
    state.panels.toggle_project_menu();
    let restored = Some(ElementSelection::new("title", "component/main/title", 1, None));
    let status = focus_main_root(&mut state.panels, &mut state.authoring, restored);
    assert_eq!(status.as_deref(), Some("Selected component document root"));
    assert!(!state.panels.project_menu_open);
}

#[test]
fn tools_and_themes_are_taken_over_once_saved() {
    let mut state = session();
    let status = state.workspace.set_mode(StudioMode::Test, Err("disk full".to_owned()));
    assert_eq!(status, "Change workspace mode failed: disk full");
    assert_eq!(state.workspace.mode, StudioMode::Design);
    assert_eq!(
        state.workspace.set_mode(StudioMode::Test, Ok(())),
        "test workspace selected"
    );
    state.review.popover_open = true;
    let status = enter_annotate_mode(&mut state.workspace, &mut state.review, Ok(()));
    assert_eq!(status, "Annotate mode · click an element to comment on it");
    assert_eq!(state.workspace.mode, StudioMode::Compare);
    assert!(!state.review.popover_open);
    state.panels.theme_dropdown_open = true;
    let status = select_theme(&mut state.workspace, &mut state.panels, "Geist · Dark", Ok(()));
    assert_eq!(status, "Editor theme changed to Geist · Dark");
    assert!(!state.panels.theme_dropdown_open);
    assert_eq!(state.workspace.theme_revision, 2);
    assert_eq!(
        reset_panel("inspector", true).as_deref(),
        Some("Reset inspector panel to default size")
    );
    assert_eq!(reset_panel("inspector", false), None);
}

#[test]
fn gestures_follow_the_mode() {
    let click = |action: Option<&str>| ComponentPointerGesture::Click {
        action: action.map(str::to_owned),
    };
    let asked = |mode, gesture| handle_component_pointer(mode, gesture).request;
    assert!(matches!(
        asked(StudioMode::Design, ComponentPointerGesture::Select),
        PointerRequest::SelectNode
    ));
    assert!(matches!(
        asked(StudioMode::Test, ComponentPointerGesture::Select),
        PointerRequest::Nothing
    ));
    assert!(matches!(
        asked(StudioMode::Test, click(Some("go"))),
        PointerRequest::RunAction(action) if action == "go"
    ));
    assert!(matches!(asked(StudioMode::Test, click(None)), PointerRequest::Tell(_)));
    assert!(matches!(asked(StudioMode::Compare, click(None)), PointerRequest::BeginAnnotation));
    assert!(matches!(
        annotate_canvas_at(Some("main".to_owned()), None),
        AnnotateRequest::Tell("Hover an element, then click to annotate it")
    ));
}

#[test]
fn keys_switch_tools_unless_text_is_typed() {
    let mut state = session();
    let press = |state: &StudioState, key: &str, modifiers: bool, typing: bool| {
        handle_global_keystroke(&state.pointer, &state.review, key, modifiers, typing)
    };
    assert_eq!(press(&state, "v", false, false), KeyRequest::EnterMode(StudioMode::Design));
    assert_eq!(press(&state, "h", false, false), KeyRequest::EnterMode(StudioMode::Move));
    assert_eq!(press(&state, "m", false, false), KeyRequest::EnterMode(StudioMode::Move));
    assert_eq!(press(&state, "h", false, true), KeyRequest::Nothing);
    assert_eq!(press(&state, "p", false, false), KeyRequest::EnterMode(StudioMode::Test));
    assert_eq!(press(&state, "c", false, false), KeyRequest::Annotate);
    assert_eq!(press(&state, "v", false, true), KeyRequest::Nothing);
    assert_eq!(press(&state, "v", true, false), KeyRequest::Nothing);
    assert_eq!(press(&state, "escape", false, false), KeyRequest::Nothing);
    assert_eq!(press(&state, "[", false, false), KeyRequest::Nothing);
    state.pointer.drag_preview = Some(DragPreviewState {
        parent: "root".to_owned(),
        base_index: 0,
        offset: 0,
        child_count: 2,
        horizontal: false,
        is_stack: false,
        pointer_x: number(0.0),
        pointer_y: number(0.0),
    });
    state.review.popover_open = true;
    assert_eq!(press(&state, "[", false, true), KeyRequest::NudgeDrop(-1));
    assert_eq!(press(&state, "escape", false, true), KeyRequest::DismissOverlays);
    dismiss_overlays(&mut state.pointer, &mut state.review);
    assert_eq!(press(&state, "escape", false, false), KeyRequest::Nothing);
}

#[test]
fn menus_offer_what_their_target_allows() {
    let node = ContextMenuTarget::ComponentNode {
        component_id: "main".to_owned(),
        node_id: "title".to_owned(),
    };
    let plain = context_menu_actions(&node, Some(NativeNodeKind::Text));
    assert!(!plain.contains(&ContextMenuAction::OpenComponent));
    let instance = context_menu_actions(&node, Some(NativeNodeKind::Instance));
    assert!(instance.contains(&ContextMenuAction::OpenComponent));
    let mut state = session();
    state.pointer.context_menu = Some(ContextMenuState {
        x: number(1.0),
        y: number(2.0),
        target: ContextMenuTarget::PaletteComponent { component_id: "card".to_owned() },
    });
    let request =
        state.pointer.run_context_menu_action(ContextMenuAction::DeleteComponent, None);
    assert!(matches!(request, MenuRequest::DeleteComponent(id) if id == "card"));
    assert!(state.pointer.context_menu.is_none());
    let request = state.pointer.run_context_menu_action(ContextMenuAction::OpenComponent, None);
    assert!(matches!(request, MenuRequest::Tell("This node is not a component instance")));
}

#[test]
fn definitions_are_checked_and_applied() {
    let mut state = session();
    let drafts = &mut state.drafts.definitions;
    drafts.set_definition_draft(DefinitionDraftField::StateName, "open".to_owned());
    drafts.set_definition_draft(DefinitionDraftField::StateType, "bool".to_owned());
    drafts.set_definition_draft(DefinitionDraftField::StateDefault, "false".to_owned());
    let component = &mut state.authoring.library.components[0];
    let change = save_component_state(drafts).expect("the state is valid");
    apply_definition_change(component, change);
    assert_eq!(component.states.len(), 1);
    assert_eq!(component.states[0].default, "false");
    apply_definition_change(component, remove_component_state(drafts));
    assert!(component.states.is_empty());
    drafts.set_definition_draft(DefinitionDraftField::StateName, "9 lives".to_owned());
    assert!(save_component_state(drafts).is_err());
    drafts.set_definition_draft(DefinitionDraftField::VariantId, "".to_owned());
    assert!(save_component_variant(drafts).is_err());
    drafts.set_definition_draft(DefinitionDraftField::SlotName, "".to_owned());
    assert!(save_component_slot(drafts, true).is_err());
    drafts.set_definition_draft(DefinitionDraftField::TokenPath, "color.accent".to_owned());
    drafts.set_definition_draft(DefinitionDraftField::TokenKind, "Color".to_owned());
    drafts.set_definition_draft(DefinitionDraftField::TokenValue, "#102030".to_owned());
    let token = save_design_token(drafts).expect("the token is valid");
    put_design_token(&mut state.authoring.library, token);
    assert_eq!(state.authoring.library.tokens.len(), 1);
}

#[test]
fn watched_files_reload_at_a_quiet_moment() {
    let mut pending = false;
    assert!(matches!(
        debounce(&mut pending, WatcherReport::Changed, "Project"),
        WatcherRequest::Nothing
    ));
    assert!(matches!(
        debounce(&mut pending, WatcherReport::Quiet, "Project"),
        WatcherRequest::Reload
    ));
    assert!(matches!(
        debounce(&mut pending, WatcherReport::Quiet, "Project"),
        WatcherRequest::Nothing
    ));
    assert!(matches!(
        debounce(&mut pending, WatcherReport::Failed("gone".to_owned()), "Project"),
        WatcherRequest::Tell(status) if status == "Project watcher: gone"
    ));
}

fn still() -> LiveEvent {
    LiveEvent { revision: Some(6), measured_width: 120, measured_height: 40 }
}

fn page_selection() -> ElementSelection {
    ElementSelection::new("title", "component/main/title", 1, None)
}

fn raise(state: &mut StudioState, id: &str) -> EventStep {
    let event = handle_event(id).expect("the event is registered");
    let restored = if goes_to_page(&event) { Some(page_selection()) } else { None };
    perform_event(state, event, still(), restored)
}

#[test]
fn events_of_panels_change_them_at_once() {
    let mut state = session();
    assert!(matches!(raise(&mut state, "show_files"), EventStep::Done));
    assert!(state.panels.left_files_open);
    raise(&mut state, "toggle_project_menu");
    assert!(state.panels.project_menu_open);
    raise(&mut state, "toggle_viewport_menu");
    assert!(state.panels.viewport_menu_open && !state.panels.project_menu_open);
    raise(&mut state, "dock_states");
    assert_eq!(state.panels.dock_tab, DockTab::States);
    raise(&mut state, "inspector_style");
    assert_eq!(state.status, "style inspector opened");
    raise(&mut state, "project_open_help");
    assert_eq!(
        state.status,
        "Open any local project with gpui-studio --project <path>; no network required"
    );
}

#[test]
fn positions_are_told_against_the_canvas_or_the_window() {
    let rect = |x: f32| Rect {
        x: number(x),
        y: number(0.0),
        width: number(5.0),
        height: number(5.0),
        valid: true,
    };
    let snapshot = |bounds, project_canvas, app_window| SelectionSnapshot {
        generation: 1,
        runtime_id: "component/main/root".to_owned(),
        bounds,
        project_canvas,
        app_window,
    };
    let (selected, canvas, window) = (rect(30.0), rect(20.0), rect(10.0));
    let placed = |bounds, project_canvas, app_window| {
        selection_viewport(&snapshot(bounds, project_canvas, app_window))
    };
    assert_eq!(placed(Some(selected), Some(canvas), Some(window)), Some((selected, canvas)));
    assert_eq!(placed(Some(selected), None, Some(window)), Some((selected, window)));
    assert_eq!(placed(Some(selected), None, None), None);
    assert_eq!(placed(None, Some(canvas), Some(window)), None);
}

#[test]
fn components_run_with_the_defaults_of_the_last_one_with_their_id() {
    let state = |default: &str| ComponentState {
        name: "open".to_owned(),
        value_type: "bool".to_owned(),
        default: default.to_owned(),
    };
    let mut library = session().authoring.library;
    library.components[0].states = vec![state("first")];
    let mut twin = component("main", node("root", Vec::new()));
    twin.states = vec![state("last")];
    library.components.push(twin);
    let opened = StudioState::new(StudioStateInit {
        mode: StudioMode::Design,
        backend: AuthoringBackend::Html,
        canvas: session().workspace.canvas,
        library,
        annotations: AnnotationStore::default(),
    });
    assert!(opened.authoring.snapshot.is_none());
    let ids: Vec<&str> =
        opened.authoring.runtime.iter().map(|entry| entry.component_id.as_str()).collect();
    assert_eq!(ids, vec!["main", "card"]);
    let values = opened.authoring.current_values("main").expect("the component exists");
    assert_eq!(values.len(), 1);
    assert_eq!(values[0].value, "last");
}

#[test]
fn a_session_opens_on_the_first_component() {
    let mut library = session().authoring.library;
    let first = library.components[0].id.clone();
    library.active_component = "elsewhere".to_owned();
    library.activate_root();
    assert_eq!(library.active_component, first);
    library.components.clear();
    library.active_component = "elsewhere".to_owned();
    library.activate_root();
    assert_eq!(library.active_component, "elsewhere");
}

#[test]
fn events_of_selections_follow_the_live_page() {
    let mut state = session();
    raise(&mut state, "toggle_project_menu");
    assert!(matches!(raise(&mut state, "select_hero_title"), EventStep::Done));
    assert_eq!(state.status, "Selected #hero-title");
    assert_eq!(state.authoring.selection.document_revision, 6);
    assert!(!state.panels.project_menu_open);
    raise(&mut state, "toggle_layer_header");
    assert!(state.layers.header);
    match raise(&mut state, "show_component_library") {
        EventStep::Done => assert_eq!(state.status, "No component document is available"),
        EventStep::OpenComponent { status, .. } => assert!(status.starts_with("Opened ")),
        other => panic!("{other:?}"),
    }
    assert!(matches!(raise(&mut state, "open_component"), EventStep::Done));
    assert_eq!(state.status, "AppTitlebar component is missing from this project");
}

#[test]
fn selecting_on_the_page_leaves_the_open_component() {
    for id in ["select_hero_title", "toggle_layer_header", "select_component_instance"] {
        let mut state = session();
        let restored = ElementSelection::new("root", "component/card/root", 1, None);
        state.authoring.open_component_document("card", restored, &mut state.layers);
        raise(&mut state, id);
        assert!(matches!(state.authoring.active_document, DocumentId::Main), "{id}");
        assert_eq!(state.authoring.library.active_component, "main", "{id}");
        assert_eq!(state.authoring.active_component_id().as_deref(), Some("main"), "{id}");
        assert!(state.authoring.selection.runtime_id.starts_with("project-canvas--"), "{id}");
    }
    let mut state = session();
    let restored = ElementSelection::new("root", "component/card/root", 1, None);
    state.authoring.open_component_document("card", restored, &mut state.layers);
    state.authoring.select_project_element("hero-title", Some(2), None);
    assert_eq!(state.authoring.library.active_component, "card");
    assert_eq!(state.authoring.selection.authored_id, "hero-title");
    assert!(!goes_to_page(&StudioEvent::Save));
    assert!(goes_to_page(&StudioEvent::SelectComponentInstance));
}

#[test]
fn every_preset_has_an_event_and_a_condition() {
    let events: BTreeSet<String> = studio_events().into_iter().map(|hook| hook.id()).collect();
    for binding in component_preset_bindings() {
        let event = format!("select_preset_{}", binding.slug);
        assert!(events.contains(&event), "{event}");
        assert_eq!(handle_event(&event), Some(StudioEvent::SelectPreset(binding.preset)));
        assert_eq!(preset_flag_id(binding.preset), format!("preset_{}_selected", binding.slug));
        let mut state = session();
        state.dialog.select_component_preset(binding.preset, "Label", "Text");
        assert!(state.dialog.component_preset_selected(binding.preset), "{event}");
    }
}

#[test]
fn events_that_need_services_name_them() {
    let mut state = session();
    assert!(matches!(raise(&mut state, "save_project"), EventStep::Save));
    assert!(matches!(raise(&mut state, "reload_project"), EventStep::Reload));
    assert!(matches!(raise(&mut state, "undo"), EventStep::Undo));
    assert!(matches!(raise(&mut state, "zoom_out"), EventStep::ZoomBy(-10)));
    assert!(matches!(raise(&mut state, "view_design"), EventStep::Done));
    assert!(matches!(raise(&mut state, "tool_move"), EventStep::SetMode(StudioMode::Move)));
    match raise(&mut state, "toggle_snap") {
        EventStep::CommitCanvas { canvas, status } => {
            assert!(!canvas.snap_enabled);
            assert_eq!(status, "Snapping disabled");
        }
        other => panic!("{other:?}"),
    }
    match raise(&mut state, "delete_annotation") {
        EventStep::RemoveAnnotation(DraftCommit::Nothing) => {}
        other => panic!("{other:?}"),
    }
    assert!(matches!(raise(&mut state, "delete_node"), EventStep::Done));
    assert_eq!(state.status, "The component root cannot be deleted");
}

#[test]
fn events_of_definitions_ask_for_a_save() {
    let mut state = session();
    assert!(matches!(raise(&mut state, "save_component_state"), EventStep::Done));
    assert_eq!(state.status, "State requires a portable name and scalar type");
    state
        .drafts
        .definitions
        .set_definition_draft(DefinitionDraftField::StateName, "open".to_owned());
    match raise(&mut state, "save_component_state") {
        EventStep::SaveDefinition { candidate, description } => {
            assert_eq!(description, "State updated");
            assert_eq!(candidate.components[0].states.last().map(|s| s.name.as_str()), Some("open"));
            let status =
                state.authoring.finish_definition_change(candidate, description, Ok(()));
            assert_eq!(status, "State updated · component definition saved");
        }
        other => panic!("{other:?}"),
    }
    assert_eq!(state.authoring.library.components[0].states.last().map(|s| s.name.as_str()), Some("open"));
    state.authoring.active_document = DocumentId::Component("gone".to_owned());
    assert!(matches!(raise(&mut state, "remove_component_state"), EventStep::Done));
    assert_eq!(state.status, "The active component no longer exists");
    assert!(matches!(
        raise(&mut state, "remove_design_token"),
        EventStep::SaveTokens { removed: true, .. }
    ));
}

#[test]
fn events_of_the_inspector_edit_the_selected_node() {
    let mut state = session();
    match raise(&mut state, "inspector_width_fixed") {
        EventStep::EditNode { node, description, .. } => {
            assert_eq!(node.layout.width, NativeSize::Fixed(120));
            assert_eq!(description, "Sizing policy changed");
        }
        other => panic!("{other:?}"),
    }
    match raise(&mut state, "inspector_justify_end") {
        EventStep::EditNode { node, description, .. } => {
            assert_eq!(node.layout.justify, NativeAlign::End);
            assert_eq!(description, "Alignment changed");
        }
        other => panic!("{other:?}"),
    }
    state.authoring.active_document = DocumentId::Component("gone".to_owned());
    assert!(matches!(raise(&mut state, "inspector_width_hug"), EventStep::Done));
}

#[test]
fn events_of_the_dialog_describe_a_component() {
    let mut state = session();
    raise(&mut state, "open_component_dialog");
    assert!(state.dialog.open);
    raise(&mut state, "select_component_titlebar");
    assert_eq!(state.dialog.name, "AppTitlebar");
    raise(&mut state, "select_component_gpui");
    match raise(&mut state, "create_component_from_dialog") {
        EventStep::CreateComponent(request) => assert_eq!(request.name, "AppTitlebar"),
        other => panic!("{other:?}"),
    }
    assert!(!state.dialog.open);
    state.dialog.name = "   ".to_owned();
    assert!(matches!(raise(&mut state, "create_component_from_dialog"), EventStep::Done));
    assert_eq!(state.status, "Component name must contain 1–256 characters");
}

#[test]
fn a_tick_acts_on_what_the_watchers_report() {
    let mut watching = Watching {
        project_reload_pending: false,
        shell_reload_pending: false,
        applied_theme_revision: 1,
    };
    let quiet = || PollReports {
        project: WatcherReport::Quiet,
        shell: WatcherReport::Quiet,
        theme: ThemeReport::Quiet,
    };
    let plan = watching.poll(quiet(), 1);
    assert!(!plan.reload_project && !plan.reload_shell && !plan.changed);
    let changed = PollReports {
        project: WatcherReport::Changed,
        shell: WatcherReport::Failed("shell gone".to_owned()),
        theme: ThemeReport::Failed("theme gone".to_owned()),
    };
    let plan = watching.poll(changed, 1);
    assert!(watching.project_reload_pending && !watching.shell_reload_pending);
    assert!(!plan.reload_project && !plan.reload_shell && plan.changed);
    assert_eq!(plan.project_failure, None);
    assert_eq!(plan.shell_failure.as_deref(), Some("Studio shell watcher: shell gone"));
    assert_eq!(plan.theme_failure.as_deref(), Some("Theme watcher: theme gone"));
    let failed = PollReports { project: WatcherReport::Failed("busy".to_owned()), ..quiet() };
    let plan = watching.poll(failed, 1);
    assert_eq!(plan.project_failure.as_deref(), Some("Project watcher: busy"));
    assert!(watching.project_reload_pending);
    let plan = watching.poll(quiet(), 1);
    assert!(plan.reload_project && !plan.changed);
    assert!(!watching.poll(quiet(), 1).reload_project);
    assert!(watching.poll(quiet(), 2).reload_shell);
    watching.shell_reloaded(&PreviewOutcome::Rejected(Vec::new()), 2);
    assert!(watching.poll(quiet(), 2).reload_shell);
    watching.shell_reloaded(&PreviewOutcome::Applied(9), 2);
    assert!(!watching.poll(quiet(), 2).reload_shell);
    let catalog = PollReports { theme: ThemeReport::NewCatalog, ..quiet() };
    let plan = watching.poll(catalog, 2);
    assert!(plan.replace_catalog && plan.reload_shell && plan.changed);
}

#[test]
fn unsaved_previews_survive_external_edits() {
    let source = |html: &str| SourceDocument {
        html: html.to_owned(),
        css: "main {}".to_owned(),
        bindings_ron: "(version: 1, bindings: [])".to_owned(),
    };
    let look = |live: &str, saved: &str, disk: &str| {
        reload_external_if_changed(&ExternalRead::Read {
            live: source(live),
            saved: source(saved),
            disk: source(disk),
        })
    };
    let plan = look("live", "saved", "disk");
    assert_eq!((plan.edit, plan.changed), (ExternalEdit::Conflict, true));
    assert_eq!(
        plan.status.as_deref(),
        Some("External edit conflicts with an unsaved preview; save, undo, or merge first")
    );
    let plan = look("live", "saved", "saved");
    assert_eq!((plan.edit, plan.status, plan.changed), (ExternalEdit::Ignore, None, false));
    let plan = look("saved", "saved", "saved");
    assert_eq!((plan.edit, plan.status, plan.changed), (ExternalEdit::Adopt, None, false));
    let plan = look("saved", "saved", "disk");
    assert_eq!((plan.edit, plan.status, plan.changed), (ExternalEdit::Preview, None, true));
    let plan = reload_external_if_changed(&ExternalRead::Unreadable("no file".to_owned()));
    assert_eq!(plan.status.as_deref(), Some("Read external edit: no file"));
    let plan = reload_external_if_changed(&ExternalRead::NoSession);
    assert_eq!(plan.status.as_deref(), Some("No active project session"));
    assert_eq!(move_history(true, true, false), (HistoryStep::Empty, Some("Nothing to undo")));
    assert_eq!(move_history(false, true, true), (HistoryStep::Preview, None));
}

#[test]
fn outcomes_are_told() {
    assert_eq!(
        reload_shell_status(&Ok(PreviewOutcome::Applied(4))),
        "Studio shell and theme applied at revision 4"
    );
    assert_eq!(
        reload_shell_status(&Ok(PreviewOutcome::Rejected(vec!["bad tag".to_owned()]))),
        "Studio shell kept last-good preview: bad tag"
    );
    assert_eq!(reload_shell_status(&Err("no file".to_owned())), "Read Studio shell: no file");
    assert_eq!(
        save_status(&SaveOutcome::Exported {
            revision: 3,
            window_module: "src/window.rs".to_owned()
        }),
        "Exported revision 3 with runnable window policy at src/window.rs"
    );
    assert_eq!(project_path("/work/studio/examples/welcome", "/work/studio/"), "examples/welcome");
    assert_eq!(project_path("/elsewhere/welcome", "/work/studio"), "/elsewhere/welcome");
    assert_eq!(project_path("/work/studio", "/work/studio"), "/work/studio");
}

#[test]
fn opened_annotations_reveal_their_element() {
    let mut state = session();
    let target = ElementSelection::new("hero", "project-canvas--hero", 2, None);
    let anchor = gpui_studio::annotations::NormalizedAnchor::default();
    let id = state.review.annotations.add(target, "Bolder", anchor).expect("valid").id;
    activate_annotation(&mut state, "comment-000009");
    assert_eq!(state.status, "Annotation comment-000009 no longer exists");
    assert!(!state.review.popover_open);
    activate_annotation(&mut state, &id);
    assert_eq!(state.review.active.as_deref(), Some(id.as_str()));
    assert_eq!(state.review.draft, "Bolder");
    assert!(state.review.popover_open);
    assert_eq!(state.workspace.mode, StudioMode::Compare);
    assert_eq!(state.lists.multi_selection.to_vec(), vec!["project-canvas--hero".to_owned()]);
    assert_eq!(state.lists.project_focus.as_deref(), Some("project-canvas--hero"));
    assert_eq!(state.authoring.selection.authored_id, "hero");
    state.review.annotate_from_menu();
    assert_eq!((state.review.active, state.review.draft), (None, String::new()));
}

#[test]
fn removed_annotations_leave_the_document() {
    let mut state = session();
    let target = ElementSelection::new("hero", "project-canvas--hero", 2, None);
    let anchor = gpui_studio::annotations::NormalizedAnchor::default();
    let id = state.review.annotations.add(target, "Bolder", anchor).expect("valid").id;
    activate_annotation(&mut state, &id);
    let candidate = match state.review.prepare_delete() {
        DraftCommit::Save { candidate, .. } => candidate,
        other => panic!("{other:?}"),
    };
    let failed = Err("disk full".to_owned());
    let status = state.review.finish_delete(candidate.clone(), &id, failed);
    assert_eq!(status, "Persist annotation removal failed: disk full");
    assert_eq!(state.review.annotations.annotations.len(), 1);
    let status = state.review.finish_delete(candidate, &id, Ok(()));
    assert_eq!(status, "Removed annotation comment-000001");
    assert!(state.review.annotations.annotations.is_empty());
    assert!(state.review.active.is_none() && !state.review.popover_open);
}

#[test]
fn pointer_state_follows_the_pointer() {
    let mut state = session();
    let here = Some("card".to_owned());
    assert!(state.pointer.hover_canvas_at(&here, &Some("title".to_owned())));
    assert!(!state.pointer.hover_canvas_at(&here, &Some("title".to_owned())));
    assert_eq!(state.pointer.hovered.as_deref(), Some("component/card/title"));
    assert!(state.pointer.hover_canvas_at(&None, &Some("title".to_owned())));
    let origin = Float32::from_bits(0);
    state.pointer.open_node_menu(origin, origin, "card", "title");
    assert!(state.pointer.context_menu.is_some());
    state.pointer.close_context_menu();
    assert!(state.pointer.context_menu.is_none());
    assert!(ContextMenuAction::Annotate.leads_group());
    assert!(!ContextMenuAction::Duplicate.leads_group());
}

#[test]
fn layers_are_expanded_and_shown_alone() {
    let mut state = session();
    state.lists.toggle_project_layer("project-canvas--hero");
    assert_eq!(state.lists.project_expanded.to_vec(), vec!["project-canvas--hero".to_owned()]);
    state.lists.toggle_project_layer("project-canvas--hero");
    assert!(state.lists.project_expanded.to_vec().is_empty());
    state.lists.show_only("project-canvas--footer");
    assert_eq!(state.lists.anchor.as_deref(), Some("project-canvas--footer"));
    let status = state.authoring.select_component_node("card", "title");
    assert_eq!(status, "Selected component node #title");
    assert_eq!(state.authoring.selection.runtime_id, "component/card/title");
    assert!(state.authoring.needs_component_document("elsewhere"));
}

#[test]
fn settings_are_kept_only_when_saved() {
    let mut state = session();
    let failed = || Err::<(), String>("read only".to_owned());
    let status = state.workspace.set_backend(AuthoringBackend::Gpui, failed());
    assert_eq!(status, "Change authoring projection failed: read only");
    assert_eq!(state.workspace.backend, AuthoringBackend::Html);
    state.workspace.set_backend(AuthoringBackend::Gpui, Ok(()));
    assert_eq!(state.workspace.backend, AuthoringBackend::Gpui);
    let revision = state.workspace.theme_revision;
    let status = state.workspace.replace_theme_catalog("Dusk", Ok(()));
    assert_eq!(status, "Theme catalog hot reloaded · Dusk");
    assert_eq!(state.workspace.theme_revision, revision + 1);
    let (canvas, status) = state.workspace.select_viewport(ViewportPreset::Mobile, "Mobile");
    assert_eq!(status, "Mobile viewport selected");
    let outcome = state.workspace.commit_canvas(canvas, status, Ok(()), failed());
    assert_eq!(outcome.status, "Update canvas settings failed: read only");
    assert!(!outcome.restore_policy);
    assert_eq!(state.workspace.canvas.preset, ViewportPreset::Responsive);
    let (canvas, status) = state.workspace.toggle_output_decorations("Native", "Custom");
    assert_eq!(status, "Custom · output policy and embedded shell preview updated");
    let outcome = state.workspace.commit_canvas(canvas, status.clone(), failed(), Ok(()));
    assert_eq!(outcome.status, "Update output window policy failed: read only");
    let outcome = state.workspace.commit_canvas(canvas, status.clone(), Ok(()), failed());
    assert!(outcome.restore_policy);
    let outcome = state.workspace.commit_canvas(canvas, status.clone(), Ok(()), Ok(()));
    assert_eq!(outcome.status, status);
    assert_eq!(state.workspace.canvas.decorations, OutputDecorations::Custom);
    let status = enter_move_tool(&mut state.workspace, Ok(()));
    assert_eq!(status, "move workspace selected");
}

#[test]
fn panels_open_and_close() {
    let mut state = session();
    state.panels.open_settings();
    state.panels.toggle_theme_dropdown();
    assert!(state.panels.settings_visible() && state.panels.theme_dropdown_open);
    state.panels.close_settings();
    assert!(!state.panels.settings_visible() && !state.panels.theme_dropdown_open);
    state.panels.toggle_annotations_drawer();
    assert!(state.panels.annotations_drawer_visible());
    state.panels.close_annotations_drawer();
    assert!(!state.panels.annotations_drawer_visible());
    assert_eq!(state.panels.bottom_dock_height(false, false), 206);
    assert_eq!(state.panels.bottom_dock_height(false, true), 170);
    assert_eq!(state.panels.bottom_dock_height(true, true), 150);
    state.panels.toggle_dock();
    assert_eq!(state.panels.bottom_dock_height(true, true), 36);
    let constraint = HorizontalConstraint::Scale;
    let reflow = Some(("12".to_owned(), "88".to_owned()));
    assert_eq!(
        state.panels.select_horizontal_constraint(constraint, "Scale", reflow),
        "Scale constraint selected · mobile reflow x 12, width 88"
    );
    assert_eq!(
        state.panels.select_horizontal_constraint(constraint, "Scale", None),
        "Scale constraint selected"
    );
    assert!(state.panels.constraint_scale_selected());
    let preset = ComponentPreset::Button;
    let status = state.dialog.select_component_preset(preset, "Push Button", "A button");
    assert_eq!(status, "Push Button preset selected · A button");
    assert_eq!(state.dialog.name, "PushButton");
    assert!(state.dialog.component_preset_selected(preset));
}

#[test]
fn more_outcomes_are_told() {
    let applied = PreviewOutcome::Applied(3);
    assert_eq!(reload_external_status(&applied), "External files hot reloaded at revision 3");
    assert_eq!(move_history_status(true, &applied), "Undo applied at revision 3");
    assert_eq!(
        move_history_status(false, &PreviewOutcome::Conflict("moved on".to_owned())),
        "History conflict: moved on"
    );
    assert_eq!(
        move_history_status(false, &PreviewOutcome::Rejected(Vec::new())),
        "History candidate rejected: unknown validation failure"
    );
    assert!(has_unseen_revision(Some(2), Some(1)));
    assert!(!has_unseen_revision(Some(2), Some(2)) && !has_unseen_revision(None, Some(2)));
    assert_eq!(
        tool_preview_status(5),
        "MCP preview applied in memory at revision 5 · explicit save required"
    );
    assert_eq!(zoom_status(125), "Canvas zoom 125%");
    assert_eq!(fit_status(80), "Canvas fitted at 80%");
    assert_eq!(rotation_status(3), "Viewport rotated 270°");
    assert_eq!(missing_document_status("card"), "Component document card no longer exists");
    assert_eq!(
        creation_status("Card", Err("read only".to_owned())),
        "Create component document failed: read only"
    );
    assert_eq!(delete_component(&Ok("Card".to_owned())), "Deleted Card");
    assert_eq!(save_status(&SaveOutcome::NoSession), "No active project session");
    assert_eq!(
        save_status(&SaveOutcome::ComponentsFailed("read only".to_owned())),
        "Project source saved, but component document export failed: read only"
    );
    let mut state = session();
    assert_eq!(
        state.authoring.attach_target(4),
        "Ready · project revision 4 · native preview"
    );
    assert_eq!(state.authoring.selection.document_revision, 4);
    state.authoring.pending.dirty = true;
    let status = state.authoring.pending.finish_component_save(Err("read only".to_owned()));
    assert_eq!(status, "Persist inspector edit failed: read only");
    assert!(state.authoring.pending.dirty);
    let status = state.authoring.pending.finish_component_save(Ok(()));
    assert_eq!(status, "Inspector edit saved · runtime stayed live");
    assert!(!state.authoring.pending.dirty);
}

#[test]
fn the_canvas_shows_the_edited_component() {
    let mut state = session();
    let first = state.authoring.library.components[0].id.clone();
    state.authoring.library.activate_root();
    state.authoring.library.components[0].states.push(ComponentState {
        name: "open".to_owned(),
        value_type: "bool".to_owned(),
        default: "false".to_owned(),
    });
    state.authoring.runtime.clear();
    let shown = match canvas_content(&mut state.authoring, &state.pointer, StudioMode::Design, true)
    {
        CanvasContent::Component(shown) => shown,
        other => panic!("{other:?}"),
    };
    assert_eq!(shown.component_id, first);
    assert!(shown.interactive && shown.draggable && shown.drop.is_none());
    assert_eq!(shown.values[0].value, "false");
    assert_eq!(state.authoring.runtime.len(), 1);
    state.authoring.runtime[0].values[0].value = "true".to_owned();
    match canvas_content(&mut state.authoring, &state.pointer, StudioMode::Move, true) {
        CanvasContent::Component(shown) => {
            assert_eq!(shown.values[0].value, "true");
            assert!(!shown.interactive && !shown.draggable);
        }
        other => panic!("{other:?}"),
    }
    assert_eq!(state.authoring.runtime.len(), 1);
    state.authoring.library.active_component = "gone".to_owned();
    assert!(matches!(
        canvas_content(&mut state.authoring, &state.pointer, StudioMode::Test, true),
        CanvasContent::Text("No component document")
    ));
    state.authoring.library.components.clear();
    assert!(matches!(
        canvas_content(&mut state.authoring, &state.pointer, StudioMode::Test, true),
        CanvasContent::Page
    ));
    assert!(matches!(
        canvas_content(&mut state.authoring, &state.pointer, StudioMode::Test, false),
        CanvasContent::Text("No project document")
    ));
}

#[test]
fn the_canvas_takes_components_that_do_not_cycle() {
    let mut state = session();
    let palette = CanvasPayload::Palette { component_id: "card".to_owned() };
    assert!(can_drop_on_canvas(&state.authoring, &palette, false));
    assert!(!can_drop_on_canvas(&state.authoring, &palette, true));
    assert!(can_drop_on_canvas(&state.authoring, &CanvasPayload::TreeNode, true));
    assert!(!can_drop_on_canvas(&state.authoring, &CanvasPayload::Foreign, false));
    state.authoring.library.components.clear();
    assert!(!can_drop_on_canvas(&state.authoring, &palette, false));
    state.pointer.hovered = Some("component/card/title".to_owned());
    assert!(state.pointer.move_over_canvas(StudioMode::Move, true));
    assert!(state.pointer.hovered.is_some());
    assert!(state.pointer.move_over_canvas(StudioMode::Design, false));
    assert!(!state.pointer.move_over_canvas(StudioMode::Design, false));
    assert!(!state.pointer.release_on_canvas(false));
    assert!(state.pointer.release_on_canvas(true));
    assert!(matches!(click_pick(true, true, Vec::new()), LayerPick::Range(_)));
    assert!(matches!(click_pick(false, true, Vec::new()), LayerPick::Toggle));
    assert!(matches!(click_pick(false, false, Vec::new()), LayerPick::Single));
}
