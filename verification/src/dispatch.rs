//! Performing the events of the shell: what each does to the session at once, and what is left
//! to the project's services.
use vstd::prelude::*;

use crate::annotations::ElementSelection;
use crate::components;
use crate::components::{
    ComponentLibrary, NativeLayout, NativeNode, NativeNodeKind, NativeSize, NodeView,
};
use crate::definitions;
use crate::definitions::DefinitionChange;
use crate::documents;
use crate::documents::CreationRequest;
use crate::edit_session;
use crate::event_hooks::StudioEvent;
use crate::identifiers;
use crate::inspector;
use crate::inspector::{InspectorAlignmentAxis, InspectorSizeAxis, InspectorTarget};
use crate::keyed;
use crate::keyed::Keyed;
use crate::panels;
use crate::presets::ComponentPreset;
use crate::review;
use crate::review::DraftCommit;
use crate::session;
use crate::state_hooks::{AlignPolicy, SizePolicy};
use crate::studio::{
    AuthoringBackend, CanvasSettings, ComponentDialog, ComponentSource,
    HorizontalConstraint, InspectorDrafts, InspectorTab, Panels, StudioMode, StudioState,
    ViewportPreset,
};
use crate::text;
use crate::tree_session::TreeEdit;

verus! {

/// What is live while an event is performed.
#[derive(Clone, Copy, Debug, PartialEq, Eq, Structural)]
pub struct LiveEvent {
    /// The revision of the live page.
    pub revision: Option<u64>,
    /// The painted size of the selection in whole pixels.
    pub measured_width: u16,
    pub measured_height: u16,
}

/// What is left of an event.
#[derive(Debug)]
pub enum EventStep {
    /// Nothing is left.
    Done,
    Save,
    Reload,
    Undo,
    Redo,
    /// Persist the document without the edited annotation, or tell why there is none.
    RemoveAnnotation(DraftCommit),
    /// Persist the typed comment, then close its editor.
    CloseAnnotation,
    SendAnnotations,
    CycleTheme,
    /// Show the page and select its root.
    FocusMainRoot,
    /// Open the component's document, then tell this.
    OpenComponent { component_id: String, status: String },
    SelectViewport(ViewportPreset),
    RotateViewport,
    ToggleOutputDecorations,
    /// Persist these canvas settings, then tell this.
    CommitCanvas { canvas: CanvasSettings, status: String },
    ZoomBy(i16),
    FitCanvas,
    SelectConstraint(HorizontalConstraint),
    /// Save this library, in which a definition changed, then tell this.
    SaveDefinition { candidate: ComponentLibrary, description: &'static str },
    /// Save this library, in which a token changed or was removed.
    SaveTokens { candidate: ComponentLibrary, removed: bool },
    /// Replace the node in the graph of this component, then tell this.
    EditNode { component_id: String, node: NativeNode, description: &'static str },
    InsertNode(NativeNodeKind),
    DuplicateNode,
    EditTree(TreeEdit),
    SelectPreset(ComponentPreset),
    CreateComponent(CreationRequest),
    SetBackend(AuthoringBackend),
    SetMode(StudioMode),
    EnterAnnotateMode,
}

// ---------------------------------------------------------------------------
// What events do
// ---------------------------------------------------------------------------

/// Only the panels change.
pub open spec fn panels_set(before: StudioState, after: StudioState, panels: Panels) -> bool {
    after == (StudioState { panels, ..before })
}

/// Only the dialog changes.
pub open spec fn dialog_set(before: StudioState, after: StudioState, dialog: ComponentDialog) -> bool {
    after == (StudioState { dialog, ..before })
}

/// People are told this, and nothing else changes.
pub open spec fn told(before: StudioState, after: StudioState, status: Seq<char>) -> bool {
    after == (StudioState { status: after.status, ..before }) && after.status@ == status
}

/// The layout with a size chosen along one axis; a fixed size is the painted one.
pub open spec fn sized_layout(
    layout: NativeLayout,
    axis: InspectorSizeAxis,
    policy: SizePolicy,
    live: LiveEvent,
) -> NativeLayout {
    match axis {
        InspectorSizeAxis::Width => NativeLayout {
            width: if policy == SizePolicy::Fixed {
                NativeSize::Fixed(live.measured_width)
            } else {
                policy.size_of()
            },
            ..layout
        },
        InspectorSizeAxis::Height => NativeLayout {
            height: if policy == SizePolicy::Fixed {
                NativeSize::Fixed(live.measured_height)
            } else {
                policy.size_of()
            },
            ..layout
        },
    }
}

/// The layout with an alignment chosen along one axis.
pub open spec fn aligned_layout(
    layout: NativeLayout,
    axis: InspectorAlignmentAxis,
    policy: AlignPolicy,
) -> NativeLayout {
    match axis {
        InspectorAlignmentAxis::Align => NativeLayout { align: policy.align_of(), ..layout },
        InspectorAlignmentAxis::Justify => NativeLayout { justify: policy.align_of(), ..layout },
    }
}

/// Replacing the layout of the selected node is what is left; nothing, where no node of an open
/// component is selected.
pub open spec fn layout_edit(
    before: StudioState,
    after: StudioState,
    step: EventStep,
    wanted: NativeLayout,
    told: Seq<char>,
) -> bool {
    &&& after == before
    &&& match (before.authoring.active_component(), before.authoring.selected_node()) {
        (Some(id), Some(selected)) => {
            &&& step matches EventStep::EditNode { component_id, node, description }
            &&& component_id@ == id
            &&& node@ == (NodeView { layout: wanted, ..selected@ })
            &&& description@ == told
        },
        _ => step is Done,
    }
}

/// The layout of the selected node.
pub open spec fn selected_layout(state: StudioState) -> NativeLayout {
    state.authoring.selected_node()->0.layout
}

/// What a planned change of a definition comes to: a refusal is told, a change of the open
/// component is to be saved.
pub open spec fn definition_step(
    before: StudioState,
    after: StudioState,
    step: EventStep,
    planned: Result<DefinitionChange, &'static str>,
) -> bool {
    match planned {
        Err(refusal) => told(before, after, refusal@) && step is Done,
        Ok(change) => match step {
            EventStep::SaveDefinition { candidate, description } => {
                &&& after == before
                &&& edit_session::definition_changed(
                    before.authoring,
                    change,
                    Ok::<ComponentLibrary, &'static str>(candidate),
                )
                &&& description@ == definitions::change_text(change)
            },
            EventStep::Done => exists|refusal: &'static str|
                #[trigger] told(before, after, refusal@) && edit_session::definition_changed(
                    before.authoring,
                    change,
                    Err::<ComponentLibrary, &'static str>(refusal),
                ),
            _ => false,
        },
    }
}

/// Selecting an element of the page, which is shown where it can be.
pub open spec fn element_selected(
    before: StudioState,
    after: StudioState,
    element: Seq<char>,
    live: LiveEvent,
    shown: bool,
) -> bool {
    after.authoring.page_selected(before.authoring, element, live.revision, shown)
}

/// Whether an event selects something of the page, so that the page has to be shown first.
pub open spec fn selects_on_page(event: StudioEvent) -> bool {
    event is ToggleLayer || event is SelectElement || event is SelectComponentInstance
}

/// Whether an event selects something of the page, so that the page has to be shown first.
pub fn goes_to_page(event: &StudioEvent) -> (result: bool)
    ensures
        result == selects_on_page(*event),
{
    match event {
        StudioEvent::ToggleLayer(_)
        | StudioEvent::SelectElement(_)
        | StudioEvent::SelectComponentInstance => true,
        _ => false,
    }
}

/// Whether this is what an event does to the session, and what it leaves to be done; `shown`
/// tells whether the page could be shown.
pub open spec fn performed(
    before: StudioState,
    after: StudioState,
    event: StudioEvent,
    live: LiveEvent,
    shown: bool,
    step: EventStep,
) -> bool {
    let drafts = before.drafts.definitions;
    match event {
        StudioEvent::Save => after == before && step is Save,
        StudioEvent::Reload => after == before && step is Reload,
        StudioEvent::Undo => after == before && step is Undo,
        StudioEvent::Redo => after == before && step is Redo,
        StudioEvent::DeleteAnnotation => {
            &&& after == (StudioState { review: after.review, ..before })
            &&& step matches EventStep::RemoveAnnotation(commit)
            &&& review::removal_prepared(before.review, after.review, commit)
        },
        StudioEvent::CloseAnnotation => after == before && step is CloseAnnotation,
        StudioEvent::SendAnnotations => after == before && step is SendAnnotations,
        StudioEvent::CycleTheme => after == before && step is CycleTheme,
        StudioEvent::OpenSettings => step is Done && panels_set(
            before,
            after,
            Panels { settings_open: true, ..before.panels },
        ),
        StudioEvent::ToggleAnnotationsDrawer => step is Done && panels_set(
            before,
            after,
            Panels {
                annotations_drawer_open: !before.panels.annotations_drawer_open,
                ..before.panels
            },
        ),
        StudioEvent::ShowLayers => step is Done && panels_set(
            before,
            after,
            Panels { left_files_open: false, ..before.panels },
        ),
        StudioEvent::ShowFiles => step is Done && panels_set(
            before,
            after,
            Panels { left_files_open: true, ..before.panels },
        ),
        StudioEvent::ToggleProjectMenu => step is Done && panels_set(
            before,
            after,
            Panels {
                project_menu_open: !before.panels.project_menu_open,
                viewport_menu_open: false,
                ..before.panels
            },
        ),
        StudioEvent::FocusMainRoot => after == before && step is FocusMainRoot,
        StudioEvent::SelectActiveComponent => {
            let closed = StudioState {
                panels: Panels { project_menu_open: false, ..before.panels },
                ..before
            };
            match before.authoring.library.lookup(before.authoring.library.active_component@) {
                Some(component) => {
                    &&& after == closed
                    &&& step matches EventStep::OpenComponent { component_id, status }
                    &&& component_id@ == component.id@
                    &&& status@ == documents::opened_message(component.name@)
                },
                None => step is Done && told(closed, after, "No component document is available"@),
            }
        },
        StudioEvent::ProjectOpenHelp => step is Done && told(
            StudioState {
                panels: Panels { project_menu_open: false, ..before.panels },
                ..before
            },
            after,
            "Open any local project with gpui-studio --project <path>; no network required"@,
        ),
        StudioEvent::ToggleViewportMenu => step is Done && panels_set(
            before,
            after,
            Panels {
                viewport_menu_open: !before.panels.viewport_menu_open,
                project_menu_open: false,
                ..before.panels
            },
        ),
        StudioEvent::Viewport(preset) => after == before && step == EventStep::SelectViewport(preset),
        StudioEvent::RotateViewport => after == before && step is RotateViewport,
        StudioEvent::ToggleOutputDecorations => after == before && step is ToggleOutputDecorations,
        StudioEvent::ToggleSnap => {
            let now = before.workspace.canvas;
            &&& after == before
            &&& step matches EventStep::CommitCanvas { canvas, status }
            &&& canvas == (CanvasSettings { snap_enabled: !now.snap_enabled, ..now })
            &&& status@ == (if canvas.snap_enabled {
                "Snapping enabled · "@ + text::decimal_text(now.snap_grid as nat) + "px grid"@
            } else {
                "Snapping disabled"@
            })
        },
        StudioEvent::ZoomBy(delta) => after == before && step == EventStep::ZoomBy(delta),
        StudioEvent::FitCanvas => after == before && step is FitCanvas,
        StudioEvent::Dock(tab) => step is Done && panels_set(
            before,
            after,
            Panels { dock_tab: tab, dock_collapsed: false, ..before.panels },
        ),
        StudioEvent::ToggleDock => step is Done && panels_set(
            before,
            after,
            Panels { dock_collapsed: !before.panels.dock_collapsed, ..before.panels },
        ),
        StudioEvent::Inspector(tab) => step is Done && told(
            StudioState { panels: Panels { inspector_tab: tab, ..before.panels }, ..before },
            after,
            panels::tab_word_text(tab) + " inspector opened"@,
        ),
        StudioEvent::Constraint(constraint) => after == before && step
            == EventStep::SelectConstraint(constraint),
        StudioEvent::AddProperty => {
            &&& step is Done
            &&& after == (StudioState {
                status: after.status,
                authoring: after.authoring,
                panels: Panels { inspector_tab: InspectorTab::Logic, ..before.panels },
                ..before
            })
            &&& edit_session::property_added(
                before.authoring,
                after.authoring,
                before.drafts,
                after.status@,
            )
        },
        StudioEvent::RemoveProperty => {
            &&& step is Done
            &&& after == (StudioState {
                status: after.status,
                authoring: after.authoring,
                panels: Panels { inspector_tab: InspectorTab::Logic, ..before.panels },
                ..before
            })
            &&& edit_session::property_removed(
                before.authoring,
                after.authoring,
                before.drafts,
                after.status@,
            )
        },
        StudioEvent::AddLogic => {
            &&& step is Done
            &&& after == (StudioState {
                status: after.status,
                authoring: after.authoring,
                panels: Panels { inspector_tab: InspectorTab::Logic, ..before.panels },
                ..before
            })
            &&& edit_session::logic_added(before.authoring, after.authoring, after.status@)
        },
        StudioEvent::SaveComponentState => exists|planned: Result<DefinitionChange, &'static str>|
            #[trigger] definitions::state_planned(drafts, planned) && definition_step(
                before,
                after,
                step,
                planned,
            ),
        StudioEvent::RemoveComponentState => exists|name: String|
            name@ == text::trimmed(drafts.state_name@) && #[trigger] definition_step(
                before,
                after,
                step,
                Ok(DefinitionChange::DropState(name)),
            ),
        StudioEvent::SaveComponentVariant => exists|planned: Result<DefinitionChange, &'static str>|
            #[trigger] definitions::variant_planned(drafts, planned) && definition_step(
                before,
                after,
                step,
                planned,
            ),
        StudioEvent::CaptureVariantOverride => exists|planned: Result<DefinitionChange, &'static str>|
            #[trigger] override_planned(before, planned) && definition_step(
                before,
                after,
                step,
                planned,
            ),
        StudioEvent::RemoveComponentVariant => exists|id: String|
            id@ == text::trimmed(drafts.variant_id@) && #[trigger] definition_step(
                before,
                after,
                step,
                Ok(DefinitionChange::DropVariant(id)),
            ),
        StudioEvent::SaveComponentSlot => exists|planned: Result<DefinitionChange, &'static str>|
            #[trigger] definitions::slot_planned(drafts, before.drafts.slot_multiple, planned)
                && definition_step(before, after, step, planned),
        StudioEvent::ToggleSlotMultiple => step is Done && after == (StudioState {
            drafts: InspectorDrafts { slot_multiple: !before.drafts.slot_multiple, ..before.drafts },
            ..before
        }),
        StudioEvent::RemoveComponentSlot => exists|name: String|
            name@ == text::trimmed(drafts.slot_name@) && #[trigger] definition_step(
                before,
                after,
                step,
                Ok(DefinitionChange::DropSlot(name)),
            ),
        StudioEvent::SaveDesignToken => exists|planned: Result<components::DesignToken, &'static str>|
            #[trigger] definitions::token_planned(drafts, planned) && (match planned {
                Err(refusal) => told(before, after, refusal@) && step is Done,
                Ok(token) => {
                    &&& after == before
                    &&& step matches EventStep::SaveTokens { candidate, removed }
                    &&& !removed
                    &&& edit_session::tokens_changed(before.authoring.library, candidate)
                    &&& candidate.tokens@ == keyed::placed(before.authoring.library.tokens@, token)
                },
            }),
        StudioEvent::RemoveDesignToken => {
            &&& after == before
            &&& step matches EventStep::SaveTokens { candidate, removed }
            &&& removed
            &&& edit_session::tokens_changed(before.authoring.library, candidate)
            &&& candidate.tokens@ == keyed::without(
                before.authoring.library.tokens@,
                text::trimmed(drafts.token_path@),
            )
        },
        StudioEvent::ToggleLayer(layer) => {
            &&& step is Done
            &&& after == (StudioState {
                status: after.status,
                authoring: after.authoring,
                layers: session::switched(before.layers, layer),
                ..before
            })
            &&& element_selected(before, after, layer.element(), live, shown)
            &&& after.status@ == "Selected #"@ + layer.element()
        },
        StudioEvent::SelectElement(element) => {
            &&& step is Done
            &&& after == (StudioState {
                status: after.status,
                authoring: after.authoring,
                panels: Panels { project_menu_open: false, ..before.panels },
                ..before
            })
            &&& element_selected(before, after, element.id_text(), live, shown)
            &&& after.status@ == "Selected #"@ + element.id_text()
        },
        StudioEvent::SelectComponentInstance => {
            &&& step is Done
            &&& after == (StudioState {
                status: after.status,
                authoring: after.authoring,
                ..before
            })
            &&& element_selected(before, after, "app-titlebar-component"@, live, shown)
            &&& after.status@
                == "Selected the AppTitlebar instance · double-click to open its component"@
        },
        StudioEvent::OpenAppTitlebar => match documents::named_component(
            before.authoring.library.components@,
            "AppTitlebar"@,
            0,
        ) {
            Some(i) => {
                &&& after == before
                &&& step matches EventStep::OpenComponent { component_id, status }
                &&& component_id@ == before.authoring.library.components@[i].id@
                &&& status@ == documents::opened_message("AppTitlebar"@)
            },
            None => step is Done && told(
                before,
                after,
                "AppTitlebar component is missing from this project"@,
            ),
        },
        StudioEvent::ToggleComponentRoot => {
            &&& step is Done
            &&& after == (StudioState {
                status: after.status,
                authoring: after.authoring,
                layers: crate::studio::CollapsedLayers {
                    component_tree: !before.layers.component_tree,
                    ..before.layers
                },
                ..before
            })
            &&& after.authoring.root_selected(before.authoring)
            &&& if before.authoring.active_component() is Some {
                after.status@ == "Selected component document root"@
            } else {
                after.status == before.status
            }
        },
        StudioEvent::OpenComponentDialog => {
            &&& step is Done
            &&& after == (StudioState { dialog: after.dialog, ..before })
            &&& after.dialog.open
            &&& after.dialog.name@ == identifiers::authored_name_of(
                before.authoring.selection@.authored_id,
            )
            &&& after.dialog.props@ == "title: String, active: bool"@
            &&& after.dialog.authoring == before.workspace.backend
            &&& after.dialog.source == ComponentSource::Selection
            &&& after.dialog.preset == before.dialog.preset
        },
        StudioEvent::Insert(kind) => after == before && step == EventStep::InsertNode(kind),
        StudioEvent::DuplicateNode => after == before && step is DuplicateNode,
        StudioEvent::DeleteNode => match before.authoring.deletion_plan() {
            Ok(plan) => after == before && (step matches EventStep::EditTree(edit) && edit@ == plan),
            Err(refusal) => told(before, after, refusal) && step is Done,
        },
        StudioEvent::CloseComponentDialog => step is Done && dialog_set(
            before,
            after,
            ComponentDialog { open: false, ..before.dialog },
        ),
        StudioEvent::DialogAuthoring(authoring) => step is Done && dialog_set(
            before,
            after,
            ComponentDialog { authoring, ..before.dialog },
        ),
        StudioEvent::DialogSource(source) => {
            &&& step is Done
            &&& after == (StudioState { dialog: after.dialog, ..before })
            &&& after.dialog == (ComponentDialog {
                source,
                name: after.dialog.name,
                ..before.dialog
            })
            &&& if source == ComponentSource::Titlebar && (text::trimmed(before.dialog.name@).len()
                == 0 || before.dialog.name@ == identifiers::authored_name_of(
                before.authoring.selection@.authored_id,
            )) {
                after.dialog.name@ == "AppTitlebar"@
            } else {
                after.dialog.name@ == before.dialog.name@
            }
        },
        StudioEvent::CreateComponent => {
            &&& after == (StudioState { status: after.status, dialog: after.dialog, ..before })
            &&& exists|request: Result<CreationRequest, String>|
                #[trigger] documents::creation_prepared(before.dialog, after.dialog, request) && (
                match request {
                    Ok(request) => after.status == before.status && step
                        == EventStep::CreateComponent(request),
                    Err(refusal) => after.status == refusal && step is Done,
                })
        },
        StudioEvent::SetBackend(backend) => after == before && step == EventStep::SetBackend(
            backend,
        ),
        StudioEvent::SetMode(mode) => after == before && step == EventStep::SetMode(mode),
        StudioEvent::AnnotateTool => after == before && step is EnterAnnotateMode,
        StudioEvent::MoveTool => after == before && step == EventStep::SetMode(StudioMode::Move),
        StudioEvent::DesignView => after == before && (if before.workspace.mode
            == StudioMode::Design || before.workspace.mode == StudioMode::Move
            || before.workspace.mode == StudioMode::Compare {
            step is Done
        } else {
            step == EventStep::SetMode(StudioMode::Design)
        }),
        StudioEvent::Size(axis, policy) => layout_edit(
            before,
            after,
            step,
            sized_layout(selected_layout(before), axis, policy, live),
            "Sizing policy changed"@,
        ),
        StudioEvent::Alignment(axis, policy) => layout_edit(
            before,
            after,
            step,
            aligned_layout(selected_layout(before), axis, policy),
            "Alignment changed"@,
        ),
        StudioEvent::Layout(choice) => layout_edit(
            before,
            after,
            step,
            inspector::chosen_layout(selected_layout(before), choice),
            "Layout behavior changed"@,
        ),
        StudioEvent::SelectPreset(preset) => after == before && step == EventStep::SelectPreset(
            preset,
        ),
    }
}

/// Whether this comes of capturing the selected node for the drafted variant.
pub open spec fn override_planned(
    state: StudioState,
    planned: Result<DefinitionChange, &'static str>,
) -> bool {
    let library = state.authoring.library;
    definitions::override_planned(
        state.drafts.definitions,
        match state.authoring.selected_node() {
            Some(node) => Some(&node),
            None => None,
        },
        match library.lookup(library.active_component@) {
            Some(component) => Some(&component),
            None => None,
        },
        planned,
    )
}

// ---------------------------------------------------------------------------
// Performing
// ---------------------------------------------------------------------------

fn perform_panels(
    state: &mut StudioState,
    event: StudioEvent,
    Ghost(live): Ghost<LiveEvent>,
    Ghost(shown): Ghost<bool>,
) -> (step: EventStep)
    requires
        event is OpenSettings || event is ToggleAnnotationsDrawer || event is ShowLayers
            || event is ShowFiles || event is ToggleProjectMenu || event is ProjectOpenHelp
            || event is ToggleViewportMenu || event is Dock || event is ToggleDock
            || event is Inspector,
    ensures
        performed(*old(state), *final(state), event, live, shown, step),
{
    match event {
        StudioEvent::OpenSettings => state.panels.open_settings(),
        StudioEvent::ToggleAnnotationsDrawer => state.panels.toggle_annotations_drawer(),
        StudioEvent::ShowLayers => state.panels.show_layers(),
        StudioEvent::ShowFiles => state.panels.show_files(),
        StudioEvent::ToggleProjectMenu => state.panels.toggle_project_menu(),
        StudioEvent::ProjectOpenHelp => {
            state.status = state.panels.project_open_help();
        },
        StudioEvent::ToggleViewportMenu => state.panels.toggle_viewport_menu(),
        StudioEvent::Dock(tab) => state.panels.set_dock_tab(tab),
        StudioEvent::ToggleDock => state.panels.toggle_dock(),
        StudioEvent::Inspector(tab) => {
            state.status = state.panels.set_inspector_tab(tab);
        },
        _ => {},
    }
    EventStep::Done
}

fn perform_dialog(
    state: &mut StudioState,
    event: StudioEvent,
    Ghost(live): Ghost<LiveEvent>,
    Ghost(shown): Ghost<bool>,
) -> (step: EventStep)
    requires
        event is OpenComponentDialog || event is CloseComponentDialog || event is DialogAuthoring
            || event is DialogSource || event is CreateComponent,
    ensures
        performed(*old(state), *final(state), event, live, shown, step),
{
    match event {
        StudioEvent::OpenComponentDialog => {
            let heading = state.authoring.selection_heading();
            state.dialog.open_component_dialog(heading.as_str(), state.workspace.backend);
        },
        StudioEvent::CloseComponentDialog => state.dialog.close_component_dialog(),
        StudioEvent::DialogAuthoring(AuthoringBackend::Html) => {
            state.dialog.select_component_html();
        },
        StudioEvent::DialogAuthoring(AuthoringBackend::Gpui) => {
            state.dialog.select_component_gpui();
        },
        StudioEvent::DialogSource(ComponentSource::Selection) => {
            state.dialog.select_component_selection();
        },
        StudioEvent::DialogSource(ComponentSource::Blank) => state.dialog.select_component_blank(),
        StudioEvent::DialogSource(ComponentSource::PasteHtml) => {
            state.dialog.select_component_paste_html();
        },
        StudioEvent::DialogSource(ComponentSource::Titlebar) => {
            let heading = state.authoring.selection_heading();
            state.dialog.select_component_titlebar(heading.as_str());
        },
        StudioEvent::DialogSource(ComponentSource::Preset) => {
            state.dialog.source = ComponentSource::Preset;
        },
        StudioEvent::CreateComponent => {
            let request = state.dialog.create_component_from_dialog();
            assert(documents::creation_prepared(old(state).dialog, state.dialog, request));
            match request {
                Ok(request) => {
                    return EventStep::CreateComponent(request);
                },
                Err(refusal) => {
                    state.status = refusal;
                },
            }
        },
        _ => {},
    }
    EventStep::Done
}

fn perform_selection(
    state: &mut StudioState,
    event: StudioEvent,
    live: LiveEvent,
    restored: Option<ElementSelection>,
) -> (step: EventStep)
    requires
        event is SelectActiveComponent || event is ToggleLayer || event is SelectElement
            || event is SelectComponentInstance || event is OpenAppTitlebar
            || event is ToggleComponentRoot,
    ensures
        performed(*old(state), *final(state), event, live, restored is Some, step),
{
    match event {
        StudioEvent::SelectActiveComponent => {
            state.panels.project_menu_open = false;
            match state.authoring.select_active_component() {
                Ok(opened) => EventStep::OpenComponent { component_id: opened.0, status: opened.1 },
                Err(refusal) => {
                    state.status = refusal;
                    EventStep::Done
                },
            }
        },
        StudioEvent::ToggleLayer(layer) => {
            state.status = session::toggle_layer(
                &mut state.authoring,
                &mut state.layers,
                layer,
                live.revision,
                restored,
            );
            EventStep::Done
        },
        StudioEvent::SelectElement(element) => {
            state.status = state.authoring.select_project_element(
                element.authored_id(),
                live.revision,
                restored,
            );
            state.panels.project_menu_open = false;
            EventStep::Done
        },
        StudioEvent::SelectComponentInstance => {
            state.status = session::select_component_instance(
                &mut state.authoring,
                live.revision,
                restored,
            );
            EventStep::Done
        },
        StudioEvent::OpenAppTitlebar => match state.authoring.open_app_titlebar_component() {
            Ok(opened) => EventStep::OpenComponent { component_id: opened.0, status: opened.1 },
            Err(refusal) => {
                state.status = refusal;
                EventStep::Done
            },
        },
        StudioEvent::ToggleComponentRoot => {
            match session::toggle_component_root(&mut state.authoring, &mut state.layers) {
                Some(status) => {
                    state.status = status;
                },
                None => {},
            }
            EventStep::Done
        },
        _ => EventStep::Done,
    }
}

/// Plans to save a change of the open component's definition; a refusal is told.
fn plan_definition(state: &mut StudioState, planned: Result<DefinitionChange, &'static str>) -> (step:
    EventStep)
    ensures
        definition_step(*old(state), *final(state), step, planned),
{
    match planned {
        Err(refusal) => {
            state.status = refusal.to_owned();
            EventStep::Done
        },
        Ok(change) => {
            let description = definitions::describe_definition_change(&change);
            match state.authoring.mutate_component_definition(change) {
                Err(refusal) => {
                    state.status = refusal.to_owned();
                    assert(told(*old(state), *state, refusal@));
                    EventStep::Done
                },
                Ok(candidate) => EventStep::SaveDefinition { candidate, description },
            }
        },
    }
}

fn perform_definitions(
    state: &mut StudioState,
    event: StudioEvent,
    Ghost(live): Ghost<LiveEvent>,
    Ghost(shown): Ghost<bool>,
) -> (step: EventStep)
    requires
        event is SaveComponentState || event is RemoveComponentState
            || event is SaveComponentVariant || event is CaptureVariantOverride
            || event is RemoveComponentVariant || event is SaveComponentSlot
            || event is RemoveComponentSlot || event is SaveDesignToken
            || event is RemoveDesignToken,
    ensures
        performed(*old(state), *final(state), event, live, shown, step),
{
    match event {
        StudioEvent::SaveComponentState => {
            let planned = definitions::save_component_state(&state.drafts.definitions);
            assert(definitions::state_planned(state.drafts.definitions, planned));
            plan_definition(state, planned)
        },
        StudioEvent::RemoveComponentState => {
            let change = definitions::remove_component_state(&state.drafts.definitions);
            plan_definition(state, Ok(change))
        },
        StudioEvent::SaveComponentVariant => {
            let planned = definitions::save_component_variant(&state.drafts.definitions);
            assert(definitions::variant_planned(state.drafts.definitions, planned));
            plan_definition(state, planned)
        },
        StudioEvent::CaptureVariantOverride => {
            let planned = definitions::capture_variant_override(
                &state.drafts.definitions,
                state.authoring.selected_component_node(),
                state.authoring.library.active(),
            );
            assert(override_planned(*state, planned));
            plan_definition(state, planned)
        },
        StudioEvent::RemoveComponentVariant => {
            let change = definitions::remove_component_variant(&state.drafts.definitions);
            plan_definition(state, Ok(change))
        },
        StudioEvent::SaveComponentSlot => {
            let planned = definitions::save_component_slot(
                &state.drafts.definitions,
                state.drafts.slot_multiple,
            );
            assert(definitions::slot_planned(
                state.drafts.definitions,
                state.drafts.slot_multiple,
                planned,
            ));
            plan_definition(state, planned)
        },
        StudioEvent::RemoveComponentSlot => {
            let change = definitions::remove_component_slot(&state.drafts.definitions);
            plan_definition(state, Ok(change))
        },
        StudioEvent::SaveDesignToken => {
            let planned = definitions::save_design_token(&state.drafts.definitions);
            assert(definitions::token_planned(state.drafts.definitions, planned));
            match planned {
                Err(refusal) => {
                    state.status = refusal.to_owned();
                    EventStep::Done
                },
                Ok(token) => EventStep::SaveTokens {
                    candidate: state.authoring.token_candidate(token),
                    removed: false,
                },
            }
        },
        _ => EventStep::SaveTokens {
            candidate: state.authoring.candidate_without_token(&state.drafts.definitions),
            removed: true,
        },
    }
}

fn perform_editing(
    state: &mut StudioState,
    event: StudioEvent,
    Ghost(live): Ghost<LiveEvent>,
    Ghost(shown): Ghost<bool>,
) -> (step: EventStep)
    requires
        event is AddProperty || event is RemoveProperty || event is AddLogic
            || event is ToggleSlotMultiple || event is DeleteNode || event is DeleteAnnotation
            || event is ToggleSnap,
    ensures
        performed(*old(state), *final(state), event, live, shown, step),
{
    match event {
        StudioEvent::AddProperty => {
            state.status = state.authoring.add_property(&state.drafts, &mut state.panels);
            EventStep::Done
        },
        StudioEvent::RemoveProperty => {
            state.status = state.authoring.remove_property(&state.drafts, &mut state.panels);
            EventStep::Done
        },
        StudioEvent::AddLogic => {
            state.status = state.authoring.add_logic(&mut state.panels);
            EventStep::Done
        },
        StudioEvent::ToggleSlotMultiple => {
            state.drafts.toggle_slot_multiple();
            EventStep::Done
        },
        StudioEvent::DeleteNode => match state.authoring.delete_selected_node() {
            Ok(edit) => EventStep::EditTree(edit),
            Err(refusal) => {
                state.status = refusal;
                EventStep::Done
            },
        },
        StudioEvent::DeleteAnnotation => EventStep::RemoveAnnotation(state.review.prepare_delete()),
        _ => {
            let (canvas, status) = state.workspace.toggle_snap();
            EventStep::CommitCanvas { canvas, status }
        },
    }
}

/// Plans to replace the layout of the selected node.
fn plan_layout(
    state: &StudioState,
    event: StudioEvent,
    live: LiveEvent,
    Ghost(shown): Ghost<bool>,
) -> (step: EventStep)
    requires
        event is Size || event is Alignment || event is Layout,
    ensures
        performed(*state, *state, event, live, shown, step),
{
    let component_id = match state.authoring.active_component_id() {
        Some(id) => id,
        None => return EventStep::Done,
    };
    match state.authoring.inspector_target() {
        InspectorTarget::Node(node) => {
            let mut node = node;
            let description = match event {
                StudioEvent::Size(axis, policy) => {
                    let measured: u16 = match axis {
                        InspectorSizeAxis::Width => live.measured_width,
                        InspectorSizeAxis::Height => live.measured_height,
                    };
                    inspector::set_inspector_size(&mut node, axis, policy.size(), measured);
                    "Sizing policy changed"
                },
                StudioEvent::Alignment(axis, policy) => {
                    inspector::set_inspector_alignment(&mut node, axis, policy.align());
                    "Alignment changed"
                },
                StudioEvent::Layout(choice) => {
                    inspector::set_inspector_layout_choice(&mut node, choice);
                    "Layout behavior changed"
                },
                _ => "",
            };
            EventStep::EditNode { component_id, node, description }
        },
        _ => EventStep::Done,
    }
}

/// Performs an event: the session changes at once as far as it can, and what needs the
/// project's services is returned. `restored` is the selection that was restored for the page
/// where the event goes to it.
pub fn perform_event(
    state: &mut StudioState,
    event: StudioEvent,
    live: LiveEvent,
    restored: Option<ElementSelection>,
) -> (step: EventStep)
    ensures
        performed(*old(state), *final(state), event, live, restored is Some, step),
{
    let ghost shown = restored is Some;
    match event {
        StudioEvent::Save => EventStep::Save,
        StudioEvent::Reload => EventStep::Reload,
        StudioEvent::Undo => EventStep::Undo,
        StudioEvent::Redo => EventStep::Redo,
        StudioEvent::CloseAnnotation => EventStep::CloseAnnotation,
        StudioEvent::SendAnnotations => EventStep::SendAnnotations,
        StudioEvent::CycleTheme => EventStep::CycleTheme,
        StudioEvent::FocusMainRoot => EventStep::FocusMainRoot,
        StudioEvent::Viewport(preset) => EventStep::SelectViewport(preset),
        StudioEvent::RotateViewport => EventStep::RotateViewport,
        StudioEvent::ToggleOutputDecorations => EventStep::ToggleOutputDecorations,
        StudioEvent::ZoomBy(delta) => EventStep::ZoomBy(delta),
        StudioEvent::FitCanvas => EventStep::FitCanvas,
        StudioEvent::Constraint(constraint) => EventStep::SelectConstraint(constraint),
        StudioEvent::Insert(kind) => EventStep::InsertNode(kind),
        StudioEvent::DuplicateNode => EventStep::DuplicateNode,
        StudioEvent::SetBackend(backend) => EventStep::SetBackend(backend),
        StudioEvent::SetMode(mode) => EventStep::SetMode(mode),
        StudioEvent::AnnotateTool => EventStep::EnterAnnotateMode,
        StudioEvent::MoveTool => EventStep::SetMode(StudioMode::Move),
        StudioEvent::SelectPreset(preset) => EventStep::SelectPreset(preset),
        StudioEvent::DesignView => match state.workspace.enter_design_view() {
            Some(mode) => EventStep::SetMode(mode),
            None => EventStep::Done,
        },
        StudioEvent::OpenSettings
        | StudioEvent::ToggleAnnotationsDrawer
        | StudioEvent::ShowLayers
        | StudioEvent::ShowFiles
        | StudioEvent::ToggleProjectMenu
        | StudioEvent::ProjectOpenHelp
        | StudioEvent::ToggleViewportMenu
        | StudioEvent::Dock(_)
        | StudioEvent::ToggleDock
        | StudioEvent::Inspector(_) => perform_panels(state, event, Ghost(live), Ghost(shown)),
        StudioEvent::OpenComponentDialog
        | StudioEvent::CloseComponentDialog
        | StudioEvent::DialogAuthoring(_)
        | StudioEvent::DialogSource(_)
        | StudioEvent::CreateComponent => perform_dialog(state, event, Ghost(live), Ghost(shown)),
        StudioEvent::SelectActiveComponent
        | StudioEvent::ToggleLayer(_)
        | StudioEvent::SelectElement(_)
        | StudioEvent::SelectComponentInstance
        | StudioEvent::OpenAppTitlebar
        | StudioEvent::ToggleComponentRoot => perform_selection(state, event, live, restored),
        StudioEvent::SaveComponentState
        | StudioEvent::RemoveComponentState
        | StudioEvent::SaveComponentVariant
        | StudioEvent::CaptureVariantOverride
        | StudioEvent::RemoveComponentVariant
        | StudioEvent::SaveComponentSlot
        | StudioEvent::RemoveComponentSlot
        | StudioEvent::SaveDesignToken
        | StudioEvent::RemoveDesignToken => perform_definitions(state, event, Ghost(live), Ghost(shown)),
        StudioEvent::AddProperty
        | StudioEvent::RemoveProperty
        | StudioEvent::AddLogic
        | StudioEvent::ToggleSlotMultiple
        | StudioEvent::DeleteNode
        | StudioEvent::DeleteAnnotation
        | StudioEvent::ToggleSnap => perform_editing(state, event, Ghost(live), Ghost(shown)),
        StudioEvent::Size(..) | StudioEvent::Alignment(..) | StudioEvent::Layout(_) => {
            plan_layout(state, event, live, Ghost(shown))
        },
    }
}

/// No event touches the layer lists, the pointer or the workspace settings, so a well-formed
/// session stays well-formed; and the review comments change only where the comment that is
/// edited is removed.
pub proof fn law_events_keep_lists_and_settings(
    before: StudioState,
    after: StudioState,
    event: StudioEvent,
    live: LiveEvent,
    shown: bool,
    step: EventStep,
)
    requires
        performed(before, after, event, live, shown, step),
    ensures
        after.lists == before.lists,
        after.pointer == before.pointer,
        after.workspace == before.workspace,
        event !is DeleteAnnotation ==> after.review == before.review,
        before.wf() ==> after.wf(),
{
}

/// Selecting something of the page while a component's document is open shows the page: it is
/// then what the canvas edits, and the library's active component is the root component.
pub proof fn law_page_selection_shows_page(
    before: StudioState,
    after: StudioState,
    event: StudioEvent,
    live: LiveEvent,
    step: EventStep,
)
    requires
        selects_on_page(event),
        performed(before, after, event, live, true, step),
    ensures
        after.authoring.active_document is Main,
        after.authoring.active_component() == before.authoring.root_component(),
        match before.authoring.root_component() {
            Some(root) => after.authoring.library.active_component@ == root,
            None => after.authoring.library.active_component@
                == before.authoring.library.active_component@,
        },
        after.authoring.snapshot is None,
{
}

/// Changing the source projection leaves the canvas, the selection, the components and their
/// logic as they are: all that is left is to set the projection, which touches no other setting.
pub proof fn law_projection_changes_nothing_else(
    before: StudioState,
    after: StudioState,
    backend: AuthoringBackend,
    live: LiveEvent,
    shown: bool,
    step: EventStep,
)
    requires
        performed(before, after, StudioEvent::SetBackend(backend), live, shown, step),
    ensures
        after == before,
        step == EventStep::SetBackend(backend),
{
}

/// A size is chosen along one axis alone: a fixed one is the painted one there, and nothing else
/// of the layout changes.
pub proof fn law_sizes_are_chosen_along_one_axis(
    layout: NativeLayout,
    policy: SizePolicy,
    live: LiveEvent,
)
    ensures
        ({
            let wide = sized_layout(layout, InspectorSizeAxis::Width, policy, live);
            let high = sized_layout(layout, InspectorSizeAxis::Height, policy, live);
            &&& wide.height == layout.height
            &&& high.width == layout.width
            &&& wide == (NativeLayout { width: wide.width, ..layout })
            &&& high == (NativeLayout { height: high.height, ..layout })
            &&& policy is Hug ==> wide.width is Hug && high.height is Hug
            &&& policy is Fill ==> wide.width is Fill && high.height is Fill
            &&& policy is Fixed ==> wide.width == NativeSize::Fixed(live.measured_width)
                && high.height == NativeSize::Fixed(live.measured_height)
        }),
{
}

/// An alignment is chosen along one axis alone, and nothing else of the layout changes.
pub proof fn law_alignments_are_chosen_along_one_axis(layout: NativeLayout, policy: AlignPolicy)
    ensures
        ({
            let across = aligned_layout(layout, InspectorAlignmentAxis::Align, policy);
            let along = aligned_layout(layout, InspectorAlignmentAxis::Justify, policy);
            &&& across == (NativeLayout { align: across.align, ..layout })
            &&& along == (NativeLayout { justify: along.justify, ..layout })
            &&& across.align == along.justify
            &&& policy is Start ==> across.align is Start
            &&& policy is Center ==> across.align is Center
            &&& policy is End ==> across.align is End
        }),
{
}

/// A new layout is asked for the selected node of the edited component, of which nothing else
/// changes, and the session stays as it is.
pub proof fn law_layout_edits_are_of_the_selected_node(
    before: StudioState,
    after: StudioState,
    step: EventStep,
    wanted: NativeLayout,
    told: Seq<char>,
)
    requires
        layout_edit(before, after, step, wanted, told),
    ensures
        after == before,
        before.authoring.active_component() is None || before.authoring.selected_node() is None
            ==> step is Done,
        before.authoring.active_component() is Some && before.authoring.selected_node() is Some ==> (
        step matches EventStep::EditNode { component_id, node, description } && Some(component_id@)
            == before.authoring.active_component() && node@.layout == wanted && node@.id
            == before.authoring.selected_node()->0@.id && node@.kind
            == before.authoring.selected_node()->0@.kind && node@.text
            == before.authoring.selected_node()->0@.text && node@.appearance
            == before.authoring.selected_node()->0@.appearance && description@ == told),
{
}

/// The settings only open, and the side panel and the drawer answer to their own switches.
pub proof fn law_side_panels_answer_to_their_events(
    before: StudioState,
    after: StudioState,
    event: StudioEvent,
    live: LiveEvent,
    shown: bool,
    step: EventStep,
)
    requires
        performed(before, after, event, live, shown, step),
    ensures
        after.panels.settings_open == (event is OpenSettings || before.panels.settings_open),
        event is ShowFiles ==> after.panels.left_files_open,
        event is ShowLayers ==> !after.panels.left_files_open,
        event !is ShowFiles && event !is ShowLayers ==> after.panels.left_files_open
            == before.panels.left_files_open,
        (after.panels.annotations_drawer_open != before.panels.annotations_drawer_open) <==> event
            is ToggleAnnotationsDrawer,
{
}

/// The two menus close each other, and whatever is chosen in the project's menu closes it.
pub proof fn law_menus_close_each_other(
    before: StudioState,
    after: StudioState,
    event: StudioEvent,
    live: LiveEvent,
    shown: bool,
    step: EventStep,
)
    requires
        performed(before, after, event, live, shown, step),
    ensures
        event is ToggleProjectMenu ==> after.panels.project_menu_open
            == !before.panels.project_menu_open && !after.panels.viewport_menu_open,
        event is ToggleViewportMenu ==> after.panels.viewport_menu_open
            == !before.panels.viewport_menu_open && !after.panels.project_menu_open,
        event is SelectElement || event is ProjectOpenHelp || event is SelectActiveComponent
            ==> !after.panels.project_menu_open,
        !(event is ToggleProjectMenu || event is ToggleViewportMenu || event is SelectElement
            || event is ProjectOpenHelp || event is SelectActiveComponent)
            ==> after.panels.project_menu_open == before.panels.project_menu_open,
        event !is ToggleProjectMenu && event !is ToggleViewportMenu
            ==> after.panels.viewport_menu_open == before.panels.viewport_menu_open,
{
}

/// The dock opens with the tab that is chosen, and its switch folds it.
pub proof fn law_dock_answers_to_its_events(
    before: StudioState,
    after: StudioState,
    event: StudioEvent,
    live: LiveEvent,
    shown: bool,
    step: EventStep,
)
    requires
        performed(before, after, event, live, shown, step),
    ensures
        event matches StudioEvent::Dock(tab) ==> after.panels.dock_tab == tab
            && !after.panels.dock_collapsed,
        event !is Dock ==> after.panels.dock_tab == before.panels.dock_tab,
        event is ToggleDock ==> after.panels.dock_collapsed == !before.panels.dock_collapsed,
        event !is Dock && event !is ToggleDock ==> after.panels.dock_collapsed
            == before.panels.dock_collapsed,
{
}

/// The inspector turns to the page that is chosen, and to the logic page with every edit of a
/// property or an interaction.
pub proof fn law_inspector_turns_to_its_page(
    before: StudioState,
    after: StudioState,
    event: StudioEvent,
    live: LiveEvent,
    shown: bool,
    step: EventStep,
)
    requires
        performed(before, after, event, live, shown, step),
    ensures
        event matches StudioEvent::Inspector(tab) ==> after.panels.inspector_tab == tab,
        event is AddProperty || event is RemoveProperty || event is AddLogic
            ==> after.panels.inspector_tab is Logic,
        !(event is Inspector || event is AddProperty || event is RemoveProperty || event
            is AddLogic) ==> after.panels.inspector_tab == before.panels.inspector_tab,
        after.panels.horizontal_constraint == before.panels.horizontal_constraint,
        after.panels.console_pinned == before.panels.console_pinned,
        after.panels.theme_dropdown_open == before.panels.theme_dropdown_open,
{
}

/// Each part of the session answers to its own events: the component's graph to the property
/// edits and to selections, the groups of layers to their switches, the drafts to the slot's
/// switch and the dialog to its own.
pub proof fn law_session_parts_answer_to_their_events(
    before: StudioState,
    after: StudioState,
    event: StudioEvent,
    live: LiveEvent,
    shown: bool,
    step: EventStep,
)
    requires
        performed(before, after, event, live, shown, step),
    ensures
        !(event is AddProperty || event is RemoveProperty || event is AddLogic || event
            is ToggleLayer || event is SelectElement || event is SelectComponentInstance || event
            is ToggleComponentRoot) ==> after.authoring == before.authoring,
        event matches StudioEvent::ToggleLayer(layer) ==> after.layers == session::switched(
            before.layers,
            layer,
        ),
        event is ToggleComponentRoot ==> after.layers.component_tree
            == !before.layers.component_tree && after.layers.welcome == before.layers.welcome
            && after.layers.header == before.layers.header,
        event !is ToggleLayer && event !is ToggleComponentRoot ==> after.layers == before.layers,
        (after.drafts.slot_multiple != before.drafts.slot_multiple) <==> event
            is ToggleSlotMultiple,
        after.drafts.prop_name == before.drafts.prop_name,
        after.drafts.prop_type == before.drafts.prop_type,
        after.drafts.prop_default == before.drafts.prop_default,
        after.drafts.definitions == before.drafts.definitions,
        !(event is OpenComponentDialog || event is CloseComponentDialog || event is DialogAuthoring
            || event is DialogSource || event is CreateComponent) ==> after.dialog == before.dialog,
{
}

/// The dialog opens for the selected element, with the projection that is authored, and closes
/// when told to; a choice in it is taken over and leaves the others. The titlebar's name stands in
/// for one that was not typed.
pub proof fn law_dialog_answers_to_its_events(
    before: StudioState,
    after: StudioState,
    event: StudioEvent,
    live: LiveEvent,
    shown: bool,
    step: EventStep,
)
    requires
        performed(before, after, event, live, shown, step),
    ensures
        event is OpenComponentDialog ==> after.dialog.open && after.dialog.source is Selection
            && after.dialog.authoring == before.workspace.backend && after.dialog.name@
            == identifiers::authored_name_of(before.authoring.selection@.authored_id)
            && after.dialog.props@ == "title: String, active: bool"@ && after.dialog.preset
            == before.dialog.preset,
        event is CloseComponentDialog ==> !after.dialog.open && after.dialog.name
            == before.dialog.name && after.dialog.props == before.dialog.props
            && after.dialog.source == before.dialog.source && after.dialog.authoring
            == before.dialog.authoring,
        event matches StudioEvent::DialogAuthoring(authoring) ==> after.dialog.authoring == authoring
            && after.dialog.source == before.dialog.source && after.dialog.open
            == before.dialog.open && after.dialog.name == before.dialog.name,
        event matches StudioEvent::DialogSource(source) ==> after.dialog.source == source
            && after.dialog.authoring == before.dialog.authoring && after.dialog.open
            == before.dialog.open && after.dialog.props == before.dialog.props && (source
            !is Titlebar ==> after.dialog.name@ == before.dialog.name@),
        event == StudioEvent::DialogSource(ComponentSource::Titlebar) && text::trimmed(
            before.dialog.name@,
        ).len() == 0 ==> after.dialog.name@ == "AppTitlebar"@,
        event == StudioEvent::DialogSource(ComponentSource::Titlebar) && before.dialog.name@
            == identifiers::authored_name_of(before.authoring.selection@.authored_id)
            ==> after.dialog.name@ == "AppTitlebar"@,
        event == StudioEvent::DialogSource(ComponentSource::Titlebar) && text::trimmed(
            before.dialog.name@,
        ).len() > 0 && before.dialog.name@ != identifiers::authored_name_of(
            before.authoring.selection@.authored_id,
        ) ==> after.dialog.name@ == before.dialog.name@,
{
}

/// Creating from the dialog asks for the component that it describes and closes it; a name that
/// is not acceptable is told, and the dialog stays.
pub proof fn law_creation_follows_the_dialog(
    before: StudioState,
    after: StudioState,
    live: LiveEvent,
    shown: bool,
    step: EventStep,
)
    requires
        performed(before, after, StudioEvent::CreateComponent, live, shown, step),
    ensures
        ({
            let name = text::trimmed(before.dialog.name@);
            let acceptable = name.len() > 0 && text::byte_len(name) <= 256;
            &&& acceptable ==> (step matches EventStep::CreateComponent(request) && request.name@
                == name && request.source == before.dialog.source && request.preset
                == before.dialog.preset && identifiers::prop_views(request.props@)
                == identifiers::declared_props(text::split_at_char(before.dialog.props@, ',')))
                && !after.dialog.open && after.status == before.status
            &&& !acceptable ==> step is Done && after.dialog == before.dialog && after.status@
                == "Component name must contain 1–256 characters"@
        }),
{
}

/// What an event leaves to others is what it names, with what it carries, and nothing changes
/// before it is done.
pub proof fn law_events_are_handed_on(
    before: StudioState,
    after: StudioState,
    event: StudioEvent,
    live: LiveEvent,
    shown: bool,
    step: EventStep,
)
    requires
        performed(before, after, event, live, shown, step),
    ensures
        event is Save <==> step is Save,
        event is Reload <==> step is Reload,
        event is Undo <==> step is Undo,
        event is Redo <==> step is Redo,
        event is CloseAnnotation <==> step is CloseAnnotation,
        event is SendAnnotations <==> step is SendAnnotations,
        event is CycleTheme <==> step is CycleTheme,
        event is FocusMainRoot <==> step is FocusMainRoot,
        event is RotateViewport <==> step is RotateViewport,
        event is ToggleOutputDecorations <==> step is ToggleOutputDecorations,
        event is FitCanvas <==> step is FitCanvas,
        event is DuplicateNode <==> step is DuplicateNode,
        event is AnnotateTool <==> step is EnterAnnotateMode,
        event is DeleteAnnotation <==> step is RemoveAnnotation,
        event matches StudioEvent::Viewport(preset) ==> step == EventStep::SelectViewport(preset),
        event matches StudioEvent::ZoomBy(delta) ==> step == EventStep::ZoomBy(delta),
        event matches StudioEvent::Constraint(c) ==> step == EventStep::SelectConstraint(c),
        event matches StudioEvent::Insert(kind) ==> step == EventStep::InsertNode(kind),
        event matches StudioEvent::SetMode(mode) ==> step == EventStep::SetMode(mode),
        event matches StudioEvent::SelectPreset(preset) ==> step == EventStep::SelectPreset(preset),
        event is MoveTool ==> step == EventStep::SetMode(StudioMode::Move),
        event is DesignView && (before.workspace.mode is Test || before.workspace.mode is Source)
            ==> step == EventStep::SetMode(StudioMode::Design),
        event is DesignView && !(before.workspace.mode is Test || before.workspace.mode is Source)
            ==> step is Done,
        event is ToggleSnap ==> (step matches EventStep::CommitCanvas { canvas, status }
            && canvas.snap_enabled == !before.workspace.canvas.snap_enabled && canvas == (
        CanvasSettings { snap_enabled: canvas.snap_enabled, ..before.workspace.canvas })),
        !(step is Done) && !(step is RemoveAnnotation) && !(step is OpenComponent) && !(step
            is CreateComponent) ==> after == before,
{
}

/// Selecting on the page selects the element that is named, under the page's runtime ID and at
/// the live revision, and tells so.
pub proof fn law_page_events_select_their_element(
    before: StudioState,
    after: StudioState,
    event: StudioEvent,
    live: LiveEvent,
    shown: bool,
    step: EventStep,
)
    requires
        performed(before, after, event, live, shown, step),
    ensures
        event matches StudioEvent::SelectElement(element) ==> {
            &&& after.authoring.selection@.authored_id == element.id_text()
            &&& after.authoring.selection@.runtime_id == "project-canvas--"@ + element.id_text()
            &&& live.revision is Some ==> after.authoring.selection@.document_revision
                == live.revision->0
            &&& after.status@ == "Selected #"@ + element.id_text()
        },
        event matches StudioEvent::ToggleLayer(layer) ==> {
            &&& after.authoring.selection@.authored_id == layer.element()
            &&& after.authoring.selection@.runtime_id == "project-canvas--"@ + layer.element()
            &&& after.status@ == "Selected #"@ + layer.element()
        },
        event is SelectComponentInstance ==> after.authoring.selection@.authored_id
            == "app-titlebar-component"@,
        selects_on_page(event) ==> after.authoring.library.components
            == before.authoring.library.components && after.authoring.pending
            == before.authoring.pending && after.authoring.snapshot is None,
        selects_on_page(event) && !shown ==> after.authoring.active_document
            == before.authoring.active_document && after.authoring.library.active_component@
            == before.authoring.library.active_component@,
        selects_on_page(event) <==> event is SelectElement || event is ToggleLayer || event
            is SelectComponentInstance,
        event is ToggleComponentRoot ==> match before.authoring.active_component() {
            Some(id) => after.authoring.selection@.authored_id == "root"@
                && after.authoring.selection@.runtime_id == "component/"@ + id + "/"@ + "root"@
                && after.authoring.library == before.authoring.library && after.status@
                == "Selected component document root"@,
            None => after.authoring == before.authoring && after.status == before.status,
        },
{
}

/// Opening goes to the component that is meant: the active one of the library, or the first with
/// the titlebar's name; without one, people are told and nothing opens.
pub proof fn law_open_events_find_their_component(
    before: StudioState,
    after: StudioState,
    event: StudioEvent,
    live: LiveEvent,
    shown: bool,
    step: EventStep,
    i: int,
)
    requires
        performed(before, after, event, live, shown, step),
        0 <= i < before.authoring.library.components@.len(),
    ensures
        event is SelectActiveComponent && before.authoring.library.components@[i].id@
            == before.authoring.library.active_component@ && (forall|j: int|
            0 <= j < i ==> #[trigger] before.authoring.library.components@[j].id@
                != before.authoring.library.active_component@) ==> (step
            matches EventStep::OpenComponent { component_id, status } && component_id@
            == before.authoring.library.active_component@ && status@ == "Opened "@
            + before.authoring.library.components@[i].name@ + " in its component document tab"@),
        event is OpenAppTitlebar && before.authoring.library.components@[i].name@ == "AppTitlebar"@
            && (forall|j: int|
            0 <= j < i ==> #[trigger] before.authoring.library.components@[j].name@
                != "AppTitlebar"@) ==> (step matches EventStep::OpenComponent {
            component_id,
            status,
        } && component_id@ == before.authoring.library.components@[i].id@ && status@ == "Opened "@
            + "AppTitlebar"@ + " in its component document tab"@),
{
    let all = before.authoring.library.components@;
    if event is SelectActiveComponent {
        keyed::lemma_first_key(all, before.authoring.library.active_component@, 0);
    }
    if event is OpenAppTitlebar && all[i].name@ == "AppTitlebar"@ && (forall|j: int|
        0 <= j < i ==> #[trigger] all[j].name@ != "AppTitlebar"@) {
        documents::law_first_named_component_is_found(all, "AppTitlebar"@, 0, i);
    }
}

/// Removing a token leaves every other one in its order, and no component changes; the session
/// stays as it is until that is saved.
pub proof fn law_removed_token_leaves_the_others(
    before: StudioState,
    after: StudioState,
    live: LiveEvent,
    shown: bool,
    step: EventStep,
    k: int,
)
    requires
        performed(before, after, StudioEvent::RemoveDesignToken, live, shown, step),
    ensures
        after == before,
        step matches EventStep::SaveTokens { candidate, removed } && removed && candidate.tokens@
            == before.authoring.library.tokens@.filter(
            |token: components::DesignToken|
                token.key() != text::trimmed(before.drafts.definitions.token_path@),
        ) && candidate.components@.len() == before.authoring.library.components@.len() && (0 <= k
            < candidate.components@.len() ==> candidate.components@[k].id
            == before.authoring.library.components@[k].id && candidate.components@[k].props@
            == before.authoring.library.components@[k].props@),
{
    keyed::law_without_keeps_the_order(
        before.authoring.library.tokens@,
        text::trimmed(before.drafts.definitions.token_path@),
    );
}

/// A saved token is the first one found under its path afterwards, and tokens of other paths stay
/// what they were.
pub proof fn law_saved_token_is_found(
    before: StudioState,
    after: StudioState,
    live: LiveEvent,
    shown: bool,
    step: EventStep,
)
    requires
        performed(before, after, StudioEvent::SaveDesignToken, live, shown, step),
        step is SaveTokens,
    ensures
        after == before,
        !step->removed,
        ({
            let path = text::trimmed(before.drafts.definitions.token_path@);
            let tokens = step->SaveTokens_candidate.tokens@;
            let at = keyed::first_key(tokens, path, 0);
            &&& at is Some
            &&& 0 <= at->0 < tokens.len()
            &&& tokens[at->0].path@ == path
            &&& tokens[at->0].value@ == before.drafts.definitions.token_value@
            &&& tokens[at->0].description@ == before.drafts.definitions.token_description@
            &&& Some(tokens[at->0].kind) == definitions::token_kind(
                before.drafts.definitions.token_kind@,
            )
            &&& forall|other: Seq<char>|
                other != path ==> #[trigger] keyed::first_key(tokens, other, 0) == keyed::first_key(
                    before.authoring.library.tokens@,
                    other,
                    0,
                )
        }),
{
    let planned = choose|planned: Result<components::DesignToken, &'static str>|
        #[trigger] definitions::token_planned(before.drafts.definitions, planned) && (match planned {
            Err(refusal) => told(before, after, refusal@) && step is Done,
            Ok(token) => {
                &&& after == before
                &&& step matches EventStep::SaveTokens { candidate, removed }
                &&& !removed
                &&& edit_session::tokens_changed(before.authoring.library, candidate)
                &&& candidate.tokens@ == keyed::placed(before.authoring.library.tokens@, token)
            },
        });
    let token = planned->Ok_0;
    keyed::law_placed_item_is_found(before.authoring.library.tokens@, token);
    keyed::lemma_first_key(
        step->SaveTokens_candidate.tokens@,
        text::trimmed(before.drafts.definitions.token_path@),
        0,
    );
}

/// A planned change of the open component's definition is to be saved, told by what it changes,
/// and leaves the session and every other component as they are; a refusal is told and nothing is
/// saved.
pub proof fn law_definition_edits_are_saved_or_told(
    before: StudioState,
    after: StudioState,
    step: EventStep,
    planned: Result<DefinitionChange, &'static str>,
    i: int,
    k: int,
)
    requires
        definition_step(before, after, step, planned),
        0 <= i < before.authoring.library.components@.len(),
        before.authoring.active_component() == Some(before.authoring.library.components@[i].id@),
        forall|j: int|
            0 <= j < i ==> #[trigger] before.authoring.library.components@[j].id@
                != before.authoring.library.components@[i].id@,
    ensures
        planned matches Err(refusal) ==> step is Done && after.status@ == refusal@
            && after.authoring == before.authoring && after.drafts == before.drafts
            && after.panels == before.panels,
        planned matches Ok(change) ==> {
            &&& after == before
            &&& step matches EventStep::SaveDefinition { candidate, description } && {
                &&& candidate.components@.len() == before.authoring.library.components@.len()
                &&& candidate.tokens@ == before.authoring.library.tokens@
                &&& 0 <= k < candidate.components@.len() && k != i ==> candidate.components@[k].id
                    == before.authoring.library.components@[k].id && candidate.components@[k].props@
                    == before.authoring.library.components@[k].props@
                    && candidate.components@[k].states@
                    == before.authoring.library.components@[k].states@
                &&& description@ == (match change {
                    DefinitionChange::PutState(_) => "State updated"@,
                    DefinitionChange::DropState(_) => "State removed"@,
                    DefinitionChange::NameVariant { .. } => "Variant updated"@,
                    DefinitionChange::CaptureOverride { .. } => "Variant override captured"@,
                    DefinitionChange::DropVariant(_) => "Variant removed"@,
                    DefinitionChange::PutSlot(_) => "Slot updated"@,
                    DefinitionChange::DropSlot(_) => "Slot removed"@,
                })
            }
        },
{
    keyed::lemma_first_key(
        before.authoring.library.components@,
        before.authoring.library.components@[i].id@,
        0,
    );
}

} // verus!
