//! Session steps that touch several parts of the state at once.
use vstd::prelude::*;

use crate::annotations::{ElementSelection, SelectionView};
use crate::automation;
use crate::automation::{Rect, UiTree};
use crate::components::NativeNode;
use crate::documents::LayerPick;
use crate::history;
use crate::layer_rows;
use crate::layer_rows::LayerRow;
use crate::studio;
use crate::studio::{
    Authoring, CollapsedLayers, DocumentId, LayerLists, Panels, PendingEdits, Review, StudioMode,
    StudioState, Workspace,
};
use crate::text;
use crate::text_set::TextSet;

verus! {

// ---------------------------------------------------------------------------
// Layers
// ---------------------------------------------------------------------------

/// The selection that a page layer stands for: at the live revision, or the one that is
/// already selected where nothing is live, and with the bounds it is painted at.
pub open spec fn layer_selection(
    row: LayerRow,
    live_revision: Option<u64>,
    before: SelectionView,
    tree: UiTree,
) -> SelectionView {
    SelectionView {
        authored_id: row.authored_id@,
        runtime_id: row.runtime_id@,
        document_revision: match live_revision {
            Some(revision) => revision,
            None => before.document_revision,
        },
        captured_rect: automation::bounds_of(tree.nodes@, row.runtime_id@),
    }
}

/// Picks a page layer: alone, toggled, or as the end of a range. It becomes the selection.
pub fn select_project_layer(
    lists: &mut LayerLists,
    authoring: &mut Authoring,
    row: &LayerRow,
    pick: LayerPick,
    live_revision: Option<u64>,
    tree: &UiTree,
) -> (status: String)
    requires
        old(lists).wf(),
    ensures
        final(lists).wf(),
        final(lists).picked(*old(lists), row.runtime_id@, pick),
        *final(authoring) == (Authoring {
            selection: final(authoring).selection,
            snapshot: None,
            ..*old(authoring)
        }),
        final(authoring).selection@ == layer_selection(
            *row,
            live_revision,
            old(authoring).selection@,
            *tree,
        ),
        status@ == final(lists).picked_text(row.label@),
{
    lists.pick_layer(row.runtime_id.as_str(), pick);
    let revision: u64 = match live_revision {
        Some(revision) => revision,
        None => authoring.selection.document_revision,
    };
    let bounds = match tree.get(row.runtime_id.as_str()) {
        Some(node) => node.bounds,
        None => None,
    };
    authoring.set_selection(
        ElementSelection::new(
            row.authored_id.as_str(),
            row.runtime_id.as_str(),
            revision,
            bounds,
        ),
    );
    lists.picked_status(row.label.as_str())
}

impl LayerLists {
    /// Opens a component's layer list when the component is first shown: every node with
    /// children is expanded. A list that was opened already keeps what people expanded.
    pub fn open_component_tree(&mut self, component_id: &str, root: &NativeNode)
        requires
            old(self).wf(),
        ensures
            final(self).wf(),
            text::text_view(final(self).initialized_for) == Some(component_id@),
            final(self).nodes_expanded@ == (if text::text_view(old(self).initialized_for)
                == Some(component_id@) {
                old(self).nodes_expanded@
            } else {
                layer_rows::expandable_ids(component_id@, *root)
            }),
            *final(self) == (LayerLists {
                nodes_expanded: final(self).nodes_expanded,
                initialized_for: final(self).initialized_for,
                ..*old(self)
            }),
    {
        if !text::is_text(&self.initialized_for, component_id) {
            let mut expanded = TextSet::new();
            layer_rows::collect_expandable_component_nodes(component_id, root, &mut expanded);
            proof {
                assert(expanded@ =~= layer_rows::expandable_ids(component_id@, *root));
            }
            self.nodes_expanded = expanded;
            self.initialized_for = Some(component_id.to_owned());
        }
    }

    /// Opens the page's layer list when it is first shown: everything that can be expanded is.
    pub fn open_project_tree(&mut self, expandable: &Vec<String>)
        requires
            old(self).wf(),
        ensures
            final(self).wf(),
            final(self).project_initialized,
            final(self).project_expanded@ == (if old(self).project_initialized {
                old(self).project_expanded@
            } else {
                old(self).project_expanded@.union(text::texts(expandable@).to_set())
            }),
            *final(self) == (LayerLists {
                project_expanded: final(self).project_expanded,
                project_initialized: true,
                ..*old(self)
            }),
    {
        if !self.project_initialized {
            self.project_initialized = true;
            self.project_expanded.extend(expandable);
        }
    }
}

/// The groups of the page's layer list that people expand and collapse.
#[derive(Clone, Copy, Debug, PartialEq, Eq, Structural)]
pub enum PageLayer {
    Welcome,
    Header,
    WelcomeCopy,
    FeatureCards,
    WelcomeLower,
}

impl PageLayer {
    /// The element that the group stands for.
    pub open spec fn element(self) -> Seq<char> {
        match self {
            PageLayer::Welcome => "welcome-canvas"@,
            PageLayer::Header => "welcome-header"@,
            PageLayer::WelcomeCopy => "welcome-copy"@,
            PageLayer::FeatureCards => "feature-grid"@,
            PageLayer::WelcomeLower => "welcome-lower"@,
        }
    }

    /// The element that the group stands for.
    pub fn authored_id(self) -> (out: &'static str)
        ensures
            out@ == self.element(),
    {
        match self {
            PageLayer::Welcome => "welcome-canvas",
            PageLayer::Header => "welcome-header",
            PageLayer::WelcomeCopy => "welcome-copy",
            PageLayer::FeatureCards => "feature-grid",
            PageLayer::WelcomeLower => "welcome-lower",
        }
    }
}

/// The groups with one of them switched over.
pub open spec fn switched(layers: CollapsedLayers, layer: PageLayer) -> CollapsedLayers {
    match layer {
        PageLayer::Welcome => CollapsedLayers { welcome: !layers.welcome, ..layers },
        PageLayer::Header => CollapsedLayers { header: !layers.header, ..layers },
        PageLayer::WelcomeCopy => CollapsedLayers {
            welcome_copy: !layers.welcome_copy,
            ..layers
        },
        PageLayer::FeatureCards => CollapsedLayers {
            feature_cards: !layers.feature_cards,
            ..layers
        },
        PageLayer::WelcomeLower => CollapsedLayers {
            welcome_lower: !layers.welcome_lower,
            ..layers
        },
    }
}

/// Shows the page, given the selection that was restored for it, selects a group of its layer
/// list, and expands or collapses that group.
pub fn toggle_layer(
    authoring: &mut Authoring,
    layers: &mut CollapsedLayers,
    layer: PageLayer,
    live_revision: Option<u64>,
    restored: Option<ElementSelection>,
) -> (status: String)
    ensures
        *final(layers) == switched(*old(layers), layer),
        final(authoring).page_selected(
            *old(authoring),
            layer.element(),
            live_revision,
            restored is Some,
        ),
        status@ == "Selected #"@ + layer.element(),
{
    let status = authoring.select_project_element(layer.authored_id(), live_revision, restored);
    match layer {
        PageLayer::Welcome => {
            layers.welcome = !layers.welcome;
        },
        PageLayer::Header => {
            layers.header = !layers.header;
        },
        PageLayer::WelcomeCopy => {
            layers.welcome_copy = !layers.welcome_copy;
        },
        PageLayer::FeatureCards => {
            layers.feature_cards = !layers.feature_cards;
        },
        PageLayer::WelcomeLower => {
            layers.welcome_lower = !layers.welcome_lower;
        },
    }
    status
}

/// Selects the root of the edited component and expands or collapses its layers.
pub fn toggle_component_root(authoring: &mut Authoring, layers: &mut CollapsedLayers) -> (status:
    Option<String>)
    ensures
        *final(layers) == (CollapsedLayers {
            component_tree: !old(layers).component_tree,
            ..*old(layers)
        }),
        final(authoring).root_selected(*old(authoring)),
        match old(authoring).active_component() {
            None => status is None,
            Some(_) => status is Some && status->0@ == "Selected component document root"@,
        },
{
    let status = authoring.select_component_root();
    layers.component_tree = !layers.component_tree;
    status
}

/// Shows the page, given the selection that was restored for it, and selects its titlebar
/// instance.
pub fn select_component_instance(
    authoring: &mut Authoring,
    live_revision: Option<u64>,
    restored: Option<ElementSelection>,
) -> (status: String)
    ensures
        final(authoring).page_selected(
            *old(authoring),
            "app-titlebar-component"@,
            live_revision,
            restored is Some,
        ),
        status@
            == "Selected the AppTitlebar instance · double-click to open its component"@,
{
    authoring.select_project_element("app-titlebar-component", live_revision, restored);
    "Selected the AppTitlebar instance · double-click to open its component".to_owned()
}

/// The component that a live instance stands for, or how people are told that it has none.
pub fn open_component_instance(component_id: Option<String>) -> (out: Result<String, &'static str>)
    ensures
        match component_id {
            Some(id) => out == Ok::<String, &'static str>(id),
            None => out is Err && out->Err_0@
                == "Component instance has no canonical component ID"@,
        },
{
    match component_id {
        Some(id) => Ok(id),
        None => Err("Component instance has no canonical component ID"),
    }
}

/// Shows the page and selects its root component, given the selection that was restored for
/// the page.
pub fn focus_main_root(
    panels: &mut Panels,
    authoring: &mut Authoring,
    restored: Option<ElementSelection>,
) -> (status: Option<String>)
    ensures
        *final(panels) == (Panels { project_menu_open: false, ..*old(panels) }),
        final(authoring).runtime == old(authoring).runtime,
        final(authoring).pending == old(authoring).pending,
        final(authoring).library.components == old(authoring).library.components,
        final(authoring).library.tokens == old(authoring).library.tokens,
        restored is Some ==> final(authoring).active_document == DocumentId::Main,
        restored is None ==> final(authoring).active_document == old(authoring).active_document
            && final(authoring).library == old(authoring).library,
        match final(authoring).active_component() {
            None => {
                &&& status is None
                &&& final(authoring).snapshot == (match restored {
                    Some(_) => None,
                    None => old(authoring).snapshot,
                })
                &&& final(authoring).selection == (match restored {
                    Some(selection) => selection,
                    None => old(authoring).selection,
                })
                &&& restored is Some ==> final(authoring).library.active_component@
                    == old(authoring).library.active_component@
            },
            Some(id) => {
                &&& status is Some
                &&& status->0@ == "Selected component document root"@
                &&& final(authoring).selection@ == studio::node_selection(id, "root"@)
                &&& final(authoring).snapshot is None
                &&& restored is Some ==> final(authoring).library.active_component@ == id
            },
        },
{
    panels.project_menu_open = false;
    authoring.activate_document(&DocumentId::Main, restored);
    authoring.select_component_root()
}

// ---------------------------------------------------------------------------
// Tools and themes
// ---------------------------------------------------------------------------

/// Switches to the annotation tool: people are told how it works, and an open editor closes.
pub fn enter_annotate_mode(
    workspace: &mut Workspace,
    review: &mut Review,
    saved: Result<(), String>,
) -> (status: String)
    ensures
        *final(workspace) == (if saved is Ok {
            Workspace { mode: StudioMode::Compare, ..*old(workspace) }
        } else {
            *old(workspace)
        }),
        *final(review) == (Review { popover_open: false, ..*old(review) }),
        status@ == "Annotate mode · click an element to comment on it"@,
{
    workspace.set_mode(StudioMode::Compare, saved);
    review.popover_open = false;
    "Annotate mode · click an element to comment on it".to_owned()
}

/// Switches to the tool that pans the canvas.
pub fn enter_move_tool(workspace: &mut Workspace, saved: Result<(), String>) -> (status: String)
    ensures
        *final(workspace) == (if saved is Ok {
            Workspace { mode: StudioMode::Move, ..*old(workspace) }
        } else {
            *old(workspace)
        }),
        status@ == crate::panels::outcome_status(
            saved,
            "Change workspace mode failed: "@,
            crate::panels::mode_word_text(StudioMode::Move) + " workspace selected"@,
        ),
{
    workspace.set_mode(StudioMode::Move, saved)
}

/// Takes over a chosen theme, once the settings were saved with it; the theme list closes.
pub fn select_theme(
    workspace: &mut Workspace,
    panels: &mut Panels,
    label: &str,
    saved: Result<(), String>,
) -> (status: String)
    ensures
        status@ == crate::panels::outcome_status(
            saved,
            "Change editor theme failed: "@,
            "Editor theme changed to "@ + label@,
        ),
        if saved is Ok {
            &&& *final(workspace) == (Workspace {
                theme_revision: old(workspace).next_theme_revision(),
                ..*old(workspace)
            })
            &&& *final(panels) == (Panels { theme_dropdown_open: false, ..*old(panels) })
        } else {
            *final(workspace) == *old(workspace) && *final(panels) == *old(panels)
        },
{
    if saved.is_ok() {
        panels.theme_dropdown_open = false;
    }
    workspace.cycle_theme(label, saved)
}

/// How people are told of a panel that got its default size back; nothing for a panel that
/// has none.
pub fn reset_panel(target: &str, reset: bool) -> (status: Option<String>)
    ensures
        match status {
            Some(status) => reset && status@ == "Reset "@ + target@ + " panel to default size"@,
            None => !reset,
        },
{
    if reset {
        Some(text::join3("Reset ", target, " panel to default size"))
    } else {
        None
    }
}

// ---------------------------------------------------------------------------
// Live selection
// ---------------------------------------------------------------------------

/// What was painted of the selection at some generation of the live tree.
#[derive(Debug)]
pub struct SelectionSnapshot {
    pub generation: u64,
    pub runtime_id: String,
    pub bounds: Option<Rect>,
    pub project_canvas: Option<Rect>,
    pub app_window: Option<Rect>,
}

impl SelectionSnapshot {
    /// Whether this was taken of this selection at this generation.
    pub open spec fn is_of(&self, generation: u64, runtime_id: Seq<char>) -> bool {
        self.generation == generation && self.runtime_id@ == runtime_id
    }

    /// Whether this is what the tree shows of a selection.
    pub open spec fn shows(&self, tree: UiTree, runtime_id: Seq<char>) -> bool {
        &&& self.generation == tree.generation
        &&& self.runtime_id@ == runtime_id
        &&& self.bounds == automation::bounds_of(tree.nodes@, runtime_id)
        &&& self.project_canvas == automation::bounds_of(tree.nodes@, "project-canvas"@)
        &&& self.app_window == automation::bounds_of(tree.nodes@, "app-window"@)
    }
}

/// The painted selection and what its position is told against: the canvas, or the app window
/// where the canvas is not painted; nothing where the selection or both of those are not painted.
pub fn selection_viewport(snapshot: &SelectionSnapshot) -> (out: Option<(Rect, Rect)>)
    ensures
        out == (match (
            snapshot.bounds,
            if snapshot.project_canvas is Some {
                snapshot.project_canvas
            } else {
                snapshot.app_window
            },
        ) {
            (Some(bounds), Some(viewport)) => Some((bounds, viewport)),
            _ => None,
        }),
{
    let viewport = match snapshot.project_canvas {
        Some(canvas) => Some(canvas),
        None => snapshot.app_window,
    };
    match (snapshot.bounds, viewport) {
        (Some(bounds), Some(viewport)) => Some((bounds, viewport)),
        _ => None,
    }
}

fn painted(tree: &UiTree, id: &str) -> (bounds: Option<Rect>)
    ensures
        bounds == automation::bounds_of(tree.nodes@, id@),
{
    match tree.get(id) {
        Some(node) => node.bounds,
        None => None,
    }
}

impl Authoring {
    /// Brings what is known of the painted selection up to date; nothing is read anew while
    /// the live tree's generation is the same and nothing was selected, no document shown and
    /// no component graph published since.
    pub fn selection_snapshot(&mut self, generation: u64, tree: &UiTree)
        ensures
            final(self).snapshot is Some,
            if old(self).snapshot is Some && old(self).snapshot->0.is_of(
                generation,
                old(self).selection@.runtime_id,
            ) {
                *final(self) == *old(self)
            } else {
                &&& final(self).snapshot->0.shows(*tree, old(self).selection@.runtime_id)
                &&& *final(self) == (Authoring {
                    selection: final(self).selection,
                    snapshot: final(self).snapshot,
                    ..*old(self)
                })
                &&& final(self).selection@ == (SelectionView {
                    captured_rect: final(self).snapshot->0.bounds,
                    ..old(self).selection@
                })
            },
    {
        let fresh = match &self.snapshot {
            Some(snapshot) => snapshot.generation == generation && text::same_text(
                snapshot.runtime_id.as_str(),
                self.selection.runtime_id.as_str(),
            ),
            None => false,
        };
        if !fresh {
            let bounds = painted(tree, self.selection.runtime_id.as_str());
            self.snapshot = Some(
                SelectionSnapshot {
                    generation: tree.generation,
                    runtime_id: self.selection.runtime_id.clone(),
                    bounds,
                    project_canvas: painted(tree, "project-canvas"),
                    app_window: painted(tree, "app-window"),
                },
            );
            self.selection.captured_rect = bounds;
        }
    }

    /// Takes note of the live document: the selection is of its revision.
    pub fn attach_target(&mut self, revision: u64) -> (status: String)
        ensures
            *final(self) == (Authoring { selection: final(self).selection, ..*old(self) }),
            final(self).selection@ == (SelectionView {
                document_revision: revision,
                ..old(self).selection@
            }),
            status@ == "Ready · project revision "@ + text::decimal_text(revision as nat)
                + " · native preview"@,
    {
        self.selection.document_revision = revision;
        history::ready_status(revision)
    }
}

// ---------------------------------------------------------------------------
// Annotations
// ---------------------------------------------------------------------------

/// What opening a saved annotation does to the session: its editor opens, and its element alone
/// is selected; an ID that no annotation has is told.
pub open spec fn annotation_activated(before: StudioState, after: StudioState, id: Seq<char>) -> bool {
    match before.review.annotations@.position(id) {
        None => {
            &&& after == (StudioState { status: after.status, ..before })
            &&& after.status@ == "Annotation "@ + id + " no longer exists"@
        },
        Some(i) => {
            let annotation = before.review.annotations@.annotations[i];
            let element = annotation.target.runtime_id;
            &&& after == (StudioState {
                workspace: Workspace { mode: StudioMode::Compare, ..before.workspace },
                review: after.review,
                lists: after.lists,
                authoring: after.authoring,
                ..before
            })
            &&& after.review == (Review {
                active: after.review.active,
                draft: after.review.draft,
                pending: PendingEdits::none(),
                popover_open: true,
                ..before.review
            })
            &&& text::text_view(after.review.active) == Some(id)
            &&& after.review.draft@ == annotation.comment
            &&& after.lists == (LayerLists {
                multi_selection: after.lists.multi_selection,
                anchor: after.lists.anchor,
                project_focus: after.lists.project_focus,
                ..before.lists
            })
            &&& after.lists.multi_selection@ == Set::<Seq<char>>::empty().insert(element)
            &&& text::text_view(after.lists.anchor) == Some(element)
            &&& text::text_view(after.lists.project_focus) == Some(element)
            &&& after.authoring == (Authoring {
                selection: after.authoring.selection,
                snapshot: None,
                ..before.authoring
            })
            &&& after.authoring.selection@ == annotation.target
        },
    }
}

/// Opens the editor of a saved annotation and reveals its element.
pub fn activate_annotation(state: &mut StudioState, id: &str)
    requires
        old(state).wf(),
    ensures
        final(state).wf(),
        annotation_activated(*old(state), *final(state), id@),
{
    match state.review.activate_annotation(id) {
        Err(status) => {
            state.status = status;
        },
        Ok(target) => {
            state.workspace.mode = StudioMode::Compare;
            state.lists.show_only(target.runtime_id.as_str());
            state.authoring.set_selection(target);
        },
    }
}

/// An opened annotation is the one that the editor saves: what is typed next changes its
/// comment, not another one's.
pub proof fn law_activated_annotation_is_edited(before: StudioState, after: StudioState, id: Seq<char>)
    requires
        annotation_activated(before, after, id),
        before.review.annotations@.position(id) is Some,
    ensures
        text::text_view(after.review.active) == Some(id),
        after.review.annotations == before.review.annotations,
        after.review.popover_open,
        !after.review.pending.dirty,
{
}

/// Switching a group of page layers over changes that group alone, and switching it twice
/// changes nothing.
pub proof fn law_groups_are_switched_alone(layers: CollapsedLayers, layer: PageLayer)
    ensures
        switched(switched(layers, layer), layer) == layers,
        switched(layers, layer).component_tree == layers.component_tree,
        (switched(layers, layer).welcome != layers.welcome) <==> layer is Welcome,
        (switched(layers, layer).header != layers.header) <==> layer is Header,
        (switched(layers, layer).welcome_copy != layers.welcome_copy) <==> layer is WelcomeCopy,
        (switched(layers, layer).feature_cards != layers.feature_cards) <==> layer is FeatureCards,
        (switched(layers, layer).welcome_lower != layers.welcome_lower) <==> layer is WelcomeLower,
{
}

/// A page layer is selected under its own IDs, at the live revision where there is one and at the
/// one before else, with the bounds of the first painted node that has its runtime ID.
pub proof fn law_layers_are_selected_as_painted(
    row: LayerRow,
    live_revision: Option<u64>,
    before: SelectionView,
    tree: UiTree,
)
    ensures
        ({
            let selection = layer_selection(row, live_revision, before, tree);
            &&& selection.authored_id == row.authored_id@
            &&& selection.runtime_id == row.runtime_id@
            &&& live_revision is Some ==> selection.document_revision == live_revision->0
            &&& live_revision is None ==> selection.document_revision == before.document_revision
            &&& selection.captured_rect == automation::bounds_of(tree.nodes@, row.runtime_id@)
        }),
{
}

/// An opened annotation is edited with its own comment, and its element alone is selected; an
/// unknown ID changes nothing but what people are told.
pub proof fn law_opened_annotations_select_their_element(
    before: StudioState,
    after: StudioState,
    id: Seq<char>,
    other: Seq<char>,
)
    requires
        annotation_activated(before, after, id),
    ensures
        before.review.annotations@.position(id) is None ==> after.review == before.review
            && after.lists == before.lists && after.authoring == before.authoring
            && after.workspace == before.workspace && after.status@ == "Annotation "@ + id
            + " no longer exists"@,
        before.review.annotations@.position(id) matches Some(i) ==> {
            let annotation = before.review.annotations@.annotations[i];
            &&& after.review.draft@ == annotation.comment
            &&& after.review.active is Some && after.review.active->0@ == id
            &&& after.workspace.mode is Compare
            &&& after.authoring.selection@ == annotation.target
            &&& after.authoring.snapshot is None
            &&& after.authoring.library == before.authoring.library
            &&& after.lists.multi_selection@.contains(other) <==> other
                == annotation.target.runtime_id
            &&& after.status == before.status
        },
{
}

/// A snapshot of the selection is of the painted tree: its generation, and the bounds of the
/// selection, of the page and of the window as they are painted.
pub proof fn law_snapshots_are_of_the_painted_tree(
    snapshot: SelectionSnapshot,
    tree: UiTree,
    runtime_id: Seq<char>,
    generation: u64,
    other: Seq<char>,
)
    requires
        snapshot.shows(tree, runtime_id),
    ensures
        snapshot.generation == tree.generation,
        snapshot.bounds == automation::bounds_of(tree.nodes@, runtime_id),
        snapshot.project_canvas == automation::bounds_of(tree.nodes@, "project-canvas"@),
        snapshot.app_window == automation::bounds_of(tree.nodes@, "app-window"@),
        snapshot.is_of(generation, other) <==> generation == tree.generation && other == runtime_id,
{
}

} // verus!
