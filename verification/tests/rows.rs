use gpui_studio::annotations::{
    AnnotationStatus, AnnotationStore, ElementSelection, NormalizedAnchor,
};
use gpui_studio::automation::{Rect, UiNode, UiTree};
use gpui_studio::components::{
    ComponentEvent, ComponentLibrary, ComponentLogic, ComponentSlot, ComponentState,
    ComponentVariant, DesignToken, DesignTokenKind, NativeAlign, NativeAppearance,
    NativeComponent, NativeConstraint, NativeEdges, NativeLayout, NativeNode, NativeNodeKind,
    NativeOffsets, NativeOverflow, NativePosition, NativeSize, NativeTypography, NativeWrap,
};
use gpui_studio::drag::DragPreviewState;
use gpui_studio::float_bits::Float32;
use gpui_studio::identifiers::ComponentProp;
use gpui_studio::layer_rows::{
    collect_expandable_component_nodes, component_tree_rows, handle_tree_key, project_row_look,
    LayerKind, LayerRow, TreeKeyRequest,
};
use gpui_studio::overlays::{
    annotation_badges, canvas_behavior, decoration_name, drop_chip, drop_container,
    editor_anchor, hover_chip, hover_outline, selected_rects, selection_box, viewport_label,
    wheel_step,
    CanvasCursor, FramePlatform, WheelDirection,
};
use gpui_studio::panel_rows::{
    active_theme_label, annotations_drawer_rows, badge_label, component_interactions, component_logic_rows,
    component_palette, component_prop_rows, component_slot_rows, component_state_rows,
    component_variant_rows, console_pin, design_token_rows, live_logic_rows, live_prop_rows, live_state_rows, live_variant_rows, logic_graph, placed_interaction, same_document,
    state_panel_section, tab_id, DataRow, LogicPlacement, StateRow, ThemeMode, ThemeVariant,
};
use gpui_studio::stub::{
    component_code_excerpt, inspector_code_excerpt, page_code_excerpt, requested_component,
    NativeExcerpt, PresetText, Projections,
};
use gpui_studio::studio::{
    AuthoringBackend, CanvasSettings, ComponentSource, DocumentId, OutputDecorations, StateValue,
    StudioMode, StudioState, StudioStateInit, ViewportPreset,
};
use gpui_studio::surfaces::{
    bundled_icon, floating_side, icon_color, icon_file, list_assets, studio_components,
    studio_scroll_area, FloatingSide, ScrollAreaRequest, StudioScrollSurface,
};
use gpui_studio::text_set::TextSet;

fn layout() -> NativeLayout {
    NativeLayout {
        width: NativeSize::Hug,
        height: NativeSize::Hug,
        gap: 0,
        padding: 0,
        margin: NativeEdges { top: 0, right: 0, bottom: 0, left: 0 },
        basis: None,
        min_width: None,
        max_width: None,
        min_height: None,
        max_height: None,
        grid_columns: 1,
        grid_rows: 1,
        column_start: None,
        column_span: 1,
        row_start: None,
        row_span: 1,
        offsets: NativeOffsets { left: None, top: None, right: None, bottom: None },
        z_index: 0,
        opacity_percent: 100,
        rotation_degrees: 0,
        align: NativeAlign::Start,
        justify: NativeAlign::Start,
        wrap: NativeWrap::NoWrap,
        position: NativePosition::Flow,
        overflow: NativeOverflow::Visible,
        horizontal_constraint: NativeConstraint::Start,
        vertical_constraint: NativeConstraint::Start,
        grow: false,
        shrink: true,
    }
}

fn node(id: &str, children: Vec<NativeNode>) -> NativeNode {
    NativeNode {
        id: id.to_owned(),
        kind: NativeNodeKind::Column,
        instance_of: None,
        state: 0,
        layout: layout(),
        appearance: NativeAppearance { radius: 0, background: None, foreground: 0, border: None },
        typography: NativeTypography {
            family: "Geist".to_owned(),
            size: 14,
            weight: 400,
            line_height: 20,
        },
        text: None,
        action: None,
        children,
    }
}



fn number(value: f32) -> Float32 {
    Float32::from_bits(value.to_bits())
}

fn painted(id: &str) -> UiNode {
    UiNode {
        id: id.to_owned(),
        bounds: Some(Rect {
            x: number(1.0),
            y: number(2.0),
            width: number(3.0),
            height: number(4.0),
            valid: true,
        }),
        text: None,
        label: None,
    }
}

fn component(id: &str, name: &str, root: NativeNode) -> NativeComponent {
    NativeComponent {
        id: id.to_owned(),
        name: name.to_owned(),
        root,
        props: Vec::new(),
        states: Vec::new(),
        variants: Vec::new(),
        slots: Vec::new(),
        logic: Vec::new(),
    }
}

fn tree() -> NativeNode {
    let mut title = node("hero-title", Vec::new());
    title.kind = NativeNodeKind::Text;
    title.text = Some("A headline that is longer than its row".to_owned());
    let mut instance = node("card-1", Vec::new());
    instance.kind = NativeNodeKind::Instance;
    instance.instance_of = Some("card".to_owned());
    node("root", vec![node("header", vec![title]), instance])
}

fn library() -> ComponentLibrary {
    ComponentLibrary {
        components: vec![
            component("main", "Main", tree()),
            component("card", "Info Card", node("root", Vec::new())),
        ],
        active_component: "main".to_owned(),
        tokens: Vec::new(),
    }
}

fn session() -> StudioState {
    StudioState::new(StudioStateInit {
        mode: StudioMode::Design,
        backend: AuthoringBackend::Html,
        canvas: CanvasSettings {
            preset: ViewportPreset::Responsive,
            zoom_percent: 100,
            quarter_turns: 0,
            snap_enabled: true,
            snap_grid: 8,
            decorations: OutputDecorations::Native,
        },
        library: library(),
        annotations: AnnotationStore::default(),
    })
}

fn shown(rows: &[DataRow]) -> Vec<(&str, &str)> {
    rows.iter().map(|row| (row.label.as_str(), row.value.as_str())).collect()
}

#[test]
fn component_layers_show_expanded_nodes() {
    let library = library();
    let root = &library.components[0].root;
    let mut store = AnnotationStore::default();
    store
        .add(
            ElementSelection::new("header", "component/main/header", 1, None),
            "text",
            NormalizedAnchor::default(),
        )
        .expect("valid");
    let mut expanded = TextSet::new();
    let collapsed =
        component_tree_rows("main", root, "component/main/card-1", &expanded, &library, &store);
    assert_eq!(collapsed.len(), 2);
    assert_eq!(collapsed[0].label, "Header");
    assert!(collapsed[0].expandable && !collapsed[0].expanded && collapsed[0].annotated);
    assert_eq!(collapsed[1].label, "Info Card");
    assert_eq!(collapsed[1].icon, "instance.svg");
    assert!(collapsed[1].selected);
    collect_expandable_component_nodes("main", root, &mut expanded);
    assert_eq!(expanded.to_vec(), vec!["component/main/header", "component/main/root"]);
    let open =
        component_tree_rows("main", root, "component/main/card-1", &expanded, &library, &store);
    assert_eq!(open.len(), 3);
    assert_eq!(open[1].label, "A headline that is longer than i");
    assert_eq!(open[1].icon, "text.svg");
    assert_eq!((open[0].depth, open[1].depth, open[2].depth), (2, 3, 2));
}

#[test]
fn layer_lists_open_with_everything_expanded() {
    let mut state = session();
    let root = tree();
    state.lists.open_component_tree("main", &root);
    assert_eq!(state.lists.nodes_expanded.len(), 2);
    state.lists.toggle_component_node("component/main/header");
    state.lists.open_component_tree("main", &root);
    assert_eq!(state.lists.nodes_expanded.len(), 1);
    state.lists.open_component_tree("card", &root);
    assert_eq!(state.lists.nodes_expanded.len(), 2);
    state.lists.open_project_tree(&vec!["a".to_owned()]);
    state.lists.open_project_tree(&vec!["b".to_owned()]);
    assert_eq!(state.lists.project_expanded.to_vec(), vec!["a"]);
}

fn layer(id: &str, kind: LayerKind, expandable: bool, parent: Option<&str>) -> LayerRow {
    LayerRow {
        runtime_id: id.to_owned(),
        authored_id: id.to_owned(),
        label: id.to_owned(),
        kind,
        depth: 0,
        expandable,
        parent: parent.map(str::to_owned),
    }
}

#[test]
fn keys_walk_the_page_layers() {
    let rows = vec![
        layer("page", LayerKind::Frame, true, None),
        layer("titlebar", LayerKind::Component, false, Some("page")),
        layer("note", LayerKind::Text, false, Some("elsewhere")),
    ];
    let mut expanded = TextSet::new();
    let press = |key: &str, adjacent: Option<&str>, focus: Option<&str>, expanded: &TextSet| {
        handle_tree_key(
            key,
            &adjacent.map(str::to_owned),
            &focus.map(str::to_owned),
            &rows,
            expanded,
        )
    };
    assert_eq!(press("down", Some("titlebar"), None, &expanded), TreeKeyRequest::Select(1));
    assert_eq!(press("down", None, None, &expanded), TreeKeyRequest::Ignored);
    assert_eq!(press("right", None, Some("page"), &expanded), TreeKeyRequest::Expand);
    assert_eq!(press("left", None, Some("titlebar"), &expanded), TreeKeyRequest::Select(0));
    assert_eq!(press("left", None, Some("note"), &expanded), TreeKeyRequest::Handled);
    assert_eq!(press("enter", None, Some("titlebar"), &expanded), TreeKeyRequest::OpenComponent);
    assert_eq!(press("space", None, Some("page"), &expanded), TreeKeyRequest::Toggle);
    assert_eq!(press("enter", None, Some("note"), &expanded), TreeKeyRequest::Ignored);
    expanded.insert("page");
    assert_eq!(press("right", None, Some("page"), &expanded), TreeKeyRequest::Ignored);
    assert_eq!(press("left", None, Some("page"), &expanded), TreeKeyRequest::Collapse);
    let look = project_row_look(
        &rows[0],
        &TextSet::single("page"),
        &Some("page".to_owned()),
        &expanded,
        &AnnotationStore::default(),
    );
    assert!(look.selected && look.focused && look.expanded && !look.accent && !look.annotated);
    assert_eq!(look.icon, "frame.svg");
}

#[test]
fn definitions_are_listed_with_placeholders() {
    assert_eq!(
        shown(&component_prop_rows(&Vec::new())),
        vec![("No public props", "Add one below")]
    );
    let prop = |default: Option<&str>| ComponentProp {
        name: "title".to_owned(),
        value_type: "String".to_owned(),
        default: default.map(str::to_owned),
    };
    assert_eq!(
        shown(&component_prop_rows(&vec![prop(None), prop(Some("Hi"))])),
        vec![("title", "String · required"), ("title", "String · Hi")]
    );
    assert_eq!(
        shown(&component_state_rows(&Vec::new())),
        vec![("No local state", "Add one below")]
    );
    assert_eq!(
        shown(&component_variant_rows(&Vec::new())),
        vec![("No variants", "Base graph only")]
    );
    let variant = ComponentVariant {
        id: "dense".to_owned(),
        name: "Dense".to_owned(),
        overrides: Vec::new(),
    };
    assert_eq!(
        shown(&component_variant_rows(&vec![variant])),
        vec![("Dense", "dense · 0 overrides")]
    );
    let slot = ComponentSlot {
        name: "body".to_owned(),
        node_id: "root".to_owned(),
        multiple: true,
        accepted_kinds: Vec::new(),
    };
    assert_eq!(shown(&component_slot_rows(&vec![slot])), vec![("body", "root · many")]);
    assert_eq!(
        shown(&component_slot_rows(&Vec::new())),
        vec![("No slots", "Closed composition")]
    );
    let token = DesignToken {
        path: "color.accent".to_owned(),
        kind: DesignTokenKind::Color,
        value: "#102030".to_owned(),
        description: String::new(),
    };
    assert_eq!(
        shown(&design_token_rows(&vec![token])),
        vec![("color.accent", "Color · #102030")]
    );
    assert_eq!(shown(&state_panel_section(Vec::new())), vec![("—", "")]);
}

#[test]
fn interactions_are_listed_in_layout_order() {
    let mut main = component("main", "Main", tree());
    main.root.children[0].action = Some("open".to_owned());
    main.logic.push(ComponentLogic {
        id: "rule".to_owned(),
        source_node: "card-1".to_owned(),
        event: ComponentEvent::Click,
        action: "toggle".to_owned(),
        guard: None,
        target_state: Some("open".to_owned()),
        value: Some("true".to_owned()),
    });
    let interactions = component_interactions(&main);
    assert_eq!(shown(&interactions), vec![("header", "open"), ("card-1", "toggle → open")]);
    let placements =
        vec![LogicPlacement { rank: 1, index: 1 }, LogicPlacement { rank: 0, index: 0 }];
    assert_eq!(
        shown(&component_logic_rows(Some(&interactions), &placements)),
        vec![("L2 · card-1 · click", "toggle → open"), ("L1 · header · click", "open")]
    );
    assert_eq!(
        shown(&component_logic_rows(None, &Vec::new())),
        vec![("No interactions", "Select a component")]
    );
    assert_eq!(
        shown(&component_logic_rows(Some(&Vec::new()), &Vec::new())),
        vec![("No interactions", "Add one below")]
    );
}

#[test]
fn interactions_are_laid_out_as_a_graph() {
    let row = |label: &str| DataRow { label: label.to_owned(), value: "open".to_owned() };
    let graph = logic_graph(&vec![row("header"), row("card")]);
    let nodes: Vec<(&str, u16, u16)> =
        graph.nodes.iter().map(|node| (node.id.as_str(), node.width, node.height)).collect();
    assert_eq!(
        nodes,
        vec![
            ("source:header", 112, 36),
            ("action:0", 148, 36),
            ("source:card", 112, 36),
            ("action:1", 148, 36),
        ]
    );
    let edges: Vec<(&str, &str, &str)> = graph
        .edges
        .iter()
        .map(|edge| (edge.id.as_str(), edge.from.as_str(), edge.to.as_str()))
        .collect();
    assert_eq!(
        edges,
        vec![("edge:0", "source:header", "action:0"), ("edge:1", "source:card", "action:1")]
    );
    assert!(logic_graph(&Vec::new()).nodes.is_empty());
    assert_eq!(placed_interaction("action:12"), Some(12));
    assert_eq!(placed_interaction("action:+3"), Some(3));
    assert_eq!(placed_interaction("source:12"), None);
    assert_eq!(placed_interaction("action:"), None);
    assert_eq!(placed_interaction("action:-1"), None);
    assert_eq!(placed_interaction("action:99999999999999999999999"), None);
    let largest = format!("action:{}", usize::MAX);
    assert_eq!(placed_interaction(&largest), Some(usize::MAX));
}

#[test]
fn the_selection_is_boxed_while_it_covers_anything() {
    let sized = |width: f32, height: f32| Rect {
        x: number(1.0),
        y: number(2.0),
        width: number(width),
        height: number(height),
        valid: true,
    };
    let window = Some(sized(800.0, 600.0));
    let group = Some(sized(30.0, 20.0));
    let node = Some(sized(10.0, 5.0));
    let boxed = selection_box(group, 2, node, window).expect("a box");
    assert_eq!(Some(boxed.rect), group);
    assert!(boxed.members_outlined);
    assert!(!selection_box(group, 1, node, window).expect("a box").members_outlined);
    let alone = selection_box(None, 2, node, window).expect("a box");
    assert_eq!(Some(alone.rect), node);
    assert!(!alone.members_outlined);
    assert!(selection_box(group, 2, node, None).is_none());
    assert!(selection_box(Some(sized(0.0, 5.0)), 2, node, window).is_none());
    assert!(selection_box(Some(sized(5.0, -0.0)), 2, node, window).is_none());
    assert!(selection_box(Some(sized(f32::NAN, 5.0)), 2, node, window).is_none());
    assert!(selection_box(None, 0, None, window).is_none());
}

#[test]
fn live_states_are_switches_or_values() {
    let state = |name: &str, default: &str| ComponentState {
        name: name.to_owned(),
        value_type: "bool".to_owned(),
        default: default.to_owned(),
    };
    let states = vec![state("open", "false"), state("count", "3")];
    let values = vec![StateValue { name: "open".to_owned(), value: "true".to_owned() }];
    let rows = live_state_rows(&states, &values);
    assert!(matches!(&rows[0], StateRow::Switch { name, label, on: true }
        if name == "open" && label == "open: bool"));
    assert!(matches!(&rows[1], StateRow::Value { label, value }
        if label == "count: bool" && value == "3"));
}

#[test]
fn the_drawer_lists_comments_that_are_not_archived() {
    let mut store = AnnotationStore::default();
    let select = || ElementSelection::new("hero", "canvas--hero", 1, None);
    let first = store.add(select(), "one", NormalizedAnchor::default()).expect("valid").id;
    store.add(select(), "two", NormalizedAnchor::default()).expect("valid");
    store.transition(&first, AnnotationStatus::Done).expect("valid");
    store.transition(&first, AnnotationStatus::Archived).expect("valid");
    let rows = annotations_drawer_rows(&store);
    assert_eq!(rows.len(), 1);
    assert_eq!(rows[0].target, "#hero");
    assert_eq!(rows[0].comment, "two");
    store.annotations[1].comment = "  ".to_owned();
    assert_eq!(annotations_drawer_rows(&store)[0].comment, "(empty)");
}

#[test]
fn the_palette_disables_components_that_would_cycle() {
    let library = library();
    let entries = component_palette(&library, &Some("main".to_owned()), &vec![true, false]);
    assert!(entries[0].is_self && !entries[0].enabled);
    assert_eq!(entries[0].accessible_name, "Main (unavailable: would cycle)");
    assert!(!entries[1].is_self && entries[1].enabled);
    assert_eq!(entries[1].accessible_name, "Open Info Card");
    let free = component_palette(&library, &None, &vec![true, true]);
    assert!(free.iter().all(|entry| entry.enabled));
}

#[test]
fn tabs_go_by_component_names() {
    let state = session();
    let card = DocumentId::Component("card".to_owned());
    assert_eq!(state.authoring.tab_label(&DocumentId::Main), "Main");
    assert_eq!(state.authoring.tab_label(&card), "Info Card");
    assert_eq!(state.authoring.tab_label(&DocumentId::Component("x".to_owned())), "x");
    assert_eq!(tab_id(&DocumentId::Main), "document-tab/main");
    assert_eq!(tab_id(&card), "document-tab/card");
    assert!(same_document(&card, &DocumentId::Component("card".to_owned())));
    assert!(!same_document(&card, &DocumentId::Main));
}

#[test]
fn the_chosen_theme_is_shown() {
    let theme = |name: &str, mode| ThemeVariant { name: name.to_owned(), mode };
    let available = vec![theme("Geist", ThemeMode::Light), theme("Geist", ThemeMode::Dark)];
    assert_eq!(
        active_theme_label(&available, &theme(" geist ", ThemeMode::Dark)),
        "Geist · Dark"
    );
    assert_eq!(active_theme_label(&available, &theme("Other", ThemeMode::Dark)), "Default");
}

#[test]
fn the_trace_stays_at_its_end_until_scrolled() {
    assert!(console_pin(true, false, false));
    assert!(!console_pin(true, false, true));
    assert!(console_pin(false, true, false));
    assert!(!console_pin(false, false, false));
}

#[test]
fn studio_scroll_surfaces_have_unique_semantics_and_keep_invalid_children() {
    let surfaces = [
        ("layers", StudioScrollSurface::Layers, "layer-tree-scroll"),
        ("files", StudioScrollSurface::Files, "project-files-scroll"),
        ("inspector", StudioScrollSurface::Inspector, "inspector-panel-scroll"),
        ("states", StudioScrollSurface::States, "state-panel-scroll"),
    ];
    for (word, surface, id) in surfaces {
        assert!(matches!(
            studio_scroll_area(Some(word)),
            ScrollAreaRequest::Surface(found) if found == surface
        ));
        assert_eq!(surface.semantic_id(), id);
    }
    assert_eq!(StudioScrollSurface::Layers.label(), "Project layer tree");
    match studio_scroll_area(Some("unknown")) {
        ScrollAreaRequest::KeepChildren(note) => assert_eq!(
            note,
            "studio-scroll-area invalid surface \"unknown\"; preserving authored children"
        ),
        other => panic!("{other:?}"),
    }
    match studio_scroll_area(None) {
        ScrollAreaRequest::KeepChildren(note) => assert!(note.contains("<missing>")),
        other => panic!("{other:?}"),
    }
}

#[test]
fn icons_fall_back_to_the_selection_cursor() {
    assert_eq!(icon_file(Some("trash")), "trash.svg");
    assert_eq!(icon_file(Some("unicorn")), "select.svg");
    assert_eq!(icon_file(None), "select.svg");
    assert_eq!(icon_color(Some("accent")), 0x6e7bff);
    assert_eq!(icon_color(Some("dim")), 0x5f6675);
    assert_eq!(icon_color(None), 0xa9afbd);
    let listed = list_assets("icons");
    assert_eq!(listed.len(), 19);
    for file in listed {
        assert!(bundled_icon(&format!("icons/{file}")).is_some(), "{file}");
    }
    assert_eq!(bundled_icon("icons/settings.svg"), Some("settings"));
    assert_eq!(bundled_icon("fonts/settings.svg"), None);
    assert!(list_assets("fonts").is_empty());
    assert_eq!(floating_side(Some("left")), FloatingSide::Left);
    assert_eq!(floating_side(Some("middle")), FloatingSide::Bottom);
    let surfaces = studio_components();
    assert_eq!(surfaces.len(), 25);
    assert_eq!(surfaces[0].tag(), "studio-icon");
}

#[test]
fn the_canvas_behaves_by_mode() {
    let design = canvas_behavior(StudioMode::Design);
    assert!(design.interactive && design.draggable && !design.pans);
    let pan = canvas_behavior(StudioMode::Move);
    assert!(!pan.interactive && !pan.draggable && pan.pans);
    assert_eq!(pan.cursor, CanvasCursor::OpenHand);
    assert_eq!(canvas_behavior(StudioMode::Compare).cursor, CanvasCursor::Crosshair);
    assert_eq!(wheel_step(true, WheelDirection::Up), Some(-1));
    assert_eq!(wheel_step(true, WheelDirection::Down), Some(1));
    assert_eq!(wheel_step(false, WheelDirection::Up), None);
    assert_eq!(wheel_step(true, WheelDirection::Still), None);
}

#[test]
fn overlays_say_where_things_are() {
    let tree = UiTree {
        generation: 1,
        nodes: vec![painted("component/main/header"), painted("app-window")],
    };
    let window = tree.nodes[1].bounds;
    let hovered = Some("component/main/header".to_owned());
    assert!(hover_outline(&tree, window, &hovered, "component/main/root", 1).is_some());
    assert!(hover_outline(&tree, window, &hovered, "component/main/header", 1).is_none());
    assert!(hover_outline(&tree, window, &hovered, "component/main/root", 2).is_none());
    assert!(hover_outline(&tree, None, &hovered, "component/main/root", 1).is_none());
    assert_eq!(hover_chip("component/main/header", StudioMode::Compare), "Annotate #header");
    assert_eq!(hover_chip("header", StudioMode::Design), "#header");
    let mut selected = TextSet::single("component/main/header");
    selected.insert("component/main/gone");
    let rects = selected_rects(&selected, &tree);
    assert_eq!(rects.len(), 1);
    assert_eq!(rects[0].id, "component/main/header");
    let preview = DragPreviewState {
        parent: "header".to_owned(),
        base_index: 1,
        offset: 0,
        child_count: 3,
        horizontal: false,
        is_stack: true,
        pointer_x: number(0.0),
        pointer_y: number(0.0),
    };
    let main = Some("main".to_owned());
    assert!(drop_container(&tree, window, &main, &preview).is_some());
    assert!(drop_container(&tree, None, &main, &preview).is_none());
    assert!(drop_container(&tree, window, &None, &preview).is_none());
    assert_eq!(drop_chip(window, &main, &preview).as_deref(), Some("z-index 2 / 4"));
    assert!(drop_chip(None, &main, &preview).is_none());
    assert!(drop_chip(window, &None, &preview).is_none());
    assert_eq!(viewport_label("Desktop", "1440", "900"), "Desktop · 1440×900");
    assert_eq!(
        decoration_name(FramePlatform::Mac),
        "macOS native window decoration preview"
    );
}

#[test]
fn badges_are_numbered_by_the_active_queue() {
    let mut store = AnnotationStore::default();
    let add = |store: &mut AnnotationStore, id: &str| {
        store
            .add(
                ElementSelection::new(id, id, 1, None),
                "text",
                NormalizedAnchor::default(),
            )
            .expect("valid")
            .id
    };
    let first = add(&mut store, "gone");
    let second = add(&mut store, "here");
    let tree = UiTree { generation: 1, nodes: vec![painted("here"), painted("selected")] };
    let resolved = store.resolved_active(&tree);
    let badges = annotation_badges(&resolved, &Some(second.clone()));
    assert_eq!(badges.len(), 1);
    assert_eq!(badges[0].id, second);
    assert_eq!(badges[0].number, 2);
    assert!(badges[0].active);
    assert!(editor_anchor(&resolved, &Some(second), &tree, "nowhere").is_some());
    assert!(editor_anchor(&resolved, &Some(first.clone()), &tree, "nowhere").is_none());
    assert!(editor_anchor(&resolved, &Some(first), &tree, "selected").is_some());
}

#[test]
fn the_dialog_previews_its_component() {
    let mut state = session();
    let preset = PresetText { label: "Card".to_owned(), description: "A card".to_owned() };
    state.dialog.name = " Info Panel ".to_owned();
    state.dialog.source = ComponentSource::Selection;
    state.dialog.authoring = AuthoringBackend::Html;
    assert_eq!(
        state.dialog.component_stub("Hero", &preset),
        "<div class=\"info-panel\">\n  <!-- extracted from Hero -->\n  …\n</div>"
    );
    state.dialog.source = ComponentSource::Titlebar;
    assert_eq!(
        state.dialog.component_stub("Hero", &preset),
        "<header id=\"info-panel\" role=\"toolbar\" aria-label=\"Window titlebar\">\n  <!-- semantic titlebar; native decorations configured separately -->\n  …\n</header>"
    );
    state.dialog.source = ComponentSource::Preset;
    state.dialog.authoring = AuthoringBackend::Gpui;
    state.dialog.name = "InfoPanel".to_owned();
    state.dialog.props = "  ".to_owned();
    assert_eq!(
        state.dialog.component_stub("Hero", &preset),
        "struct InfoPanel {\n    // props\n}\n\nimpl Render for InfoPanel {\n    fn render(&mut self, cx) -> impl IntoElement {\n        div().flex().gap_2()\n            .child(/* complete Card preset graph */)\n    }\n}"
    );
}

#[test]
fn the_inspector_shows_the_edited_source() {
    let projections = Projections {
        html: "<p></p>".to_owned(),
        css: "p {}\n".to_owned(),
        bindings: "()".to_owned(),
        gpui: "div()".to_owned(),
    };
    assert_eq!(
        component_code_excerpt(AuthoringBackend::Html, Some(&projections)),
        "<p></p>\n<style>\np {}\n</style>\n\n()"
    );
    assert_eq!(component_code_excerpt(AuthoringBackend::Gpui, Some(&projections)), "div()");
    assert_eq!(component_code_excerpt(AuthoringBackend::Html, None), "");
    assert_eq!(page_code_excerpt(None, "hero"), "");
    assert_eq!(page_code_excerpt(Some("<p>\n a</p>"), "hero"), "<p> a</p>");
    let source = "<main><h1 id=\"hero\">Hi</h1></main>";
    assert_eq!(page_code_excerpt(Some(source), "hero"), "<h1 id=\"hero\">\n  Hi\n</h1>");
    let shown = |editing: bool, backend: AuthoringBackend, painted: bool| {
        let native = NativeExcerpt {
            id: "hero".to_owned(),
            size: None,
            text: None,
            label: Some("Hi".to_owned()),
        };
        inspector_code_excerpt(
            editing,
            backend,
            Some(&projections),
            Some(source),
            "hero",
            if painted { Some(native) } else { None },
        )
    };
    assert_eq!(shown(true, AuthoringBackend::Gpui, true), "div()");
    assert_eq!(
        shown(true, AuthoringBackend::Html, true),
        component_code_excerpt(AuthoringBackend::Html, Some(&projections))
    );
    assert_eq!(
        shown(false, AuthoringBackend::Html, true),
        "<h1 id=\"hero\">\n  Hi\n</h1>"
    );
    assert_eq!(
        shown(false, AuthoringBackend::Gpui, true),
        "div()\n    .id(\"hero\")\n    .child(\"Hi\")\n// Projection of the same selected component node"
    );
    assert_eq!(shown(false, AuthoringBackend::Gpui, false), "");
}

#[test]
fn markup_places_components_by_id_or_name() {
    let library = library();
    let found = |requested: Option<&str>| {
        requested_component(&library, requested).map(|component| component.id.as_str())
    };
    assert_eq!(found(None), Some("main"));
    assert_eq!(found(Some("active")), Some("main"));
    assert_eq!(found(Some("card")), Some("card"));
    assert_eq!(found(Some("INFO CARD")), Some("card"));
    assert_eq!(found(Some("unknown")), None);
}

#[test]
fn live_rows_describe_the_definition() {
    let props = vec![ComponentProp {
        name: "title".to_owned(),
        value_type: "String".to_owned(),
        default: None,
    }];
    let rows = live_prop_rows(&props);
    assert_eq!(rows.len(), 1);
    assert_eq!(rows[0].label, "title: String");
    let variants = vec![ComponentVariant {
        id: "dark".to_owned(),
        name: "Dark".to_owned(),
        overrides: Vec::new(),
    }];
    let rows = live_variant_rows(&variants);
    assert_eq!((rows[0].label.as_str(), rows[0].value.as_str()), ("dark / Dark", "0 overrides"));
    assert!(live_logic_rows(&Vec::new()).is_empty());
    assert_ne!(badge_label(AnnotationStatus::Open), badge_label(AnnotationStatus::Done));
}
