//! The session state of the studio: what is open, selected and shown.
use vstd::prelude::*;

use crate::annotations;
use crate::annotations::{AnnotationStore, ElementSelection, SelectionView};
use crate::components::{ComponentLibrary, ComponentState, NativeComponent};
use crate::definitions::DefinitionDrafts;
use crate::drag;
use crate::drag::DragPreviewState;
use crate::float_bits::Float32;
use crate::keyed;
use crate::keyed::Keyed;
use crate::presets::ComponentPreset;
use crate::session::SelectionSnapshot;
use crate::text;
use crate::text_set::TextSet;

verus! {

// ---------------------------------------------------------------------------
// Vocabulary
// ---------------------------------------------------------------------------

/// The editing tool or view in use.
#[derive(Clone, Copy, Debug, PartialEq, Eq, Structural)]
pub enum StudioMode {
    Design,
    Test,
    Compare,
    Move,
    Source,
}

/// The source projection that people author in.
#[derive(Clone, Copy, Debug, PartialEq, Eq, Structural)]
pub enum AuthoringBackend {
    Html,
    Gpui,
}

/// The pages of the inspector.
#[derive(Clone, Copy, Debug, PartialEq, Eq, Structural)]
pub enum InspectorTab {
    Layout,
    Style,
    Logic,
}

/// The pages of the bottom dock.
#[derive(Clone, Copy, Debug, PartialEq, Eq, Structural)]
pub enum DockTab {
    Console,
    States,
}

/// How a page element follows the page's width.
#[derive(Clone, Copy, Debug, PartialEq, Eq, Structural)]
pub enum HorizontalConstraint {
    Left,
    Center,
    Right,
    Scale,
}

/// The viewport sizes on offer.
#[derive(Clone, Copy, Debug, PartialEq, Eq, Structural)]
pub enum ViewportPreset {
    Responsive,
    Desktop,
    Tablet,
    Mobile,
}

/// Who draws the output window's frame.
#[derive(Clone, Copy, Debug, PartialEq, Eq, Structural)]
pub enum OutputDecorations {
    Native,
    Custom,
}

/// What a new component is made from.
#[derive(Clone, Copy, Debug, PartialEq, Eq, Structural)]
pub enum ComponentSource {
    Selection,
    Blank,
    PasteHtml,
    Titlebar,
    Preset,
}

/// The canvas settings.
#[derive(Clone, Copy, Debug, PartialEq, Eq, Structural)]
pub struct CanvasSettings {
    pub preset: ViewportPreset,
    pub decorations: OutputDecorations,
    pub snap_enabled: bool,
    pub snap_grid: u16,
    pub zoom_percent: u16,
    pub quarter_turns: u8,
}

/// The document that the canvas edits.
#[derive(Debug)]
pub enum DocumentId {
    /// The permanent page, which edits the root component.
    Main,
    /// One component's own document.
    Component(String),
}

impl Clone for DocumentId {
    fn clone(&self) -> (copy: Self)
        ensures
            copy == *self,
    {
        match self {
            DocumentId::Main => DocumentId::Main,
            DocumentId::Component(id) => DocumentId::Component(id.clone()),
        }
    }
}

/// What an open right-click menu is about.
#[derive(Debug)]
pub enum ContextMenuTarget {
    /// A node in the active component graph.
    ComponentNode { component_id: String, node_id: String },
    /// A layer of the project page.
    ProjectLayer,
    /// A component entry in the library palette.
    PaletteComponent { component_id: String },
}

impl Clone for ContextMenuTarget {
    fn clone(&self) -> (copy: Self)
        ensures
            copy == *self,
    {
        match self {
            ContextMenuTarget::ComponentNode { component_id, node_id } => {
                ContextMenuTarget::ComponentNode {
                    component_id: component_id.clone(),
                    node_id: node_id.clone(),
                }
            },
            ContextMenuTarget::ProjectLayer => ContextMenuTarget::ProjectLayer,
            ContextMenuTarget::PaletteComponent { component_id } => {
                ContextMenuTarget::PaletteComponent { component_id: component_id.clone() }
            },
        }
    }
}

/// An open right-click menu: its window-relative position and target.
#[derive(Debug)]
pub struct ContextMenuState {
    pub x: Float32,
    pub y: Float32,
    pub target: ContextMenuTarget,
}

/// The value that one state of a running component has.
#[derive(Debug)]
pub struct StateValue {
    pub name: String,
    pub value: String,
}

impl Keyed for StateValue {
    open spec fn key(&self) -> Seq<char> {
        self.name@
    }

    fn key_text(&self) -> (out: &str) {
        self.name.as_str()
    }
}

impl Clone for StateValue {
    fn clone(&self) -> (copy: Self)
        ensures
            copy == *self,
    {
        StateValue { name: self.name.clone(), value: self.value.clone() }
    }
}

/// The values of a running component's states.
#[derive(Debug)]
pub struct ComponentRuntime {
    pub component_id: String,
    pub values: Vec<StateValue>,
}

impl Keyed for ComponentRuntime {
    open spec fn key(&self) -> Seq<char> {
        self.component_id@
    }

    fn key_text(&self) -> (out: &str) {
        self.component_id.as_str()
    }
}

/// Typed changes that wait for a quiet moment to be persisted.
#[derive(Clone, Copy, Debug, PartialEq, Eq, Structural)]
pub struct PendingEdits {
    pub dirty: bool,
    pub quiet_ticks: u8,
}

/// What the workspace settings hold.
#[derive(Clone, Copy, Debug, PartialEq, Eq, Structural)]
pub struct Workspace {
    pub mode: StudioMode,
    pub backend: AuthoringBackend,
    pub canvas: CanvasSettings,
    pub theme_revision: u64,
}

/// The switches of the panels and menus.
#[derive(Clone, Copy, Debug, PartialEq, Eq, Structural)]
pub struct Panels {
    pub left_files_open: bool,
    pub inspector_tab: InspectorTab,
    pub dock_tab: DockTab,
    pub dock_collapsed: bool,
    /// Whether the console stays at the latest entry.
    pub console_pinned: bool,
    pub settings_open: bool,
    pub theme_dropdown_open: bool,
    pub annotations_drawer_open: bool,
    pub project_menu_open: bool,
    pub viewport_menu_open: bool,
    pub horizontal_constraint: HorizontalConstraint,
}

/// Which rows of the page's layer list are collapsed.
#[derive(Clone, Copy, Debug, PartialEq, Eq, Structural)]
pub struct CollapsedLayers {
    pub welcome: bool,
    pub header: bool,
    pub welcome_copy: bool,
    pub feature_cards: bool,
    pub welcome_lower: bool,
    pub component_tree: bool,
}

/// What is typed into the inspector's property and definition editors.
#[derive(Debug)]
pub struct InspectorDrafts {
    pub prop_name: String,
    pub prop_type: String,
    pub prop_default: String,
    pub definitions: DefinitionDrafts,
    pub slot_multiple: bool,
}

/// The review comments and the editor for them.
#[derive(Debug)]
pub struct Review {
    pub annotations: AnnotationStore,
    pub draft: String,
    pub active: Option<String>,
    pub popover_open: bool,
    pub pending: PendingEdits,
}

/// The dialog that creates components.
#[derive(Debug)]
pub struct ComponentDialog {
    pub open: bool,
    pub name: String,
    pub props: String,
    pub authoring: AuthoringBackend,
    pub source: ComponentSource,
    pub preset: ComponentPreset,
}

/// The layer lists: what is selected and expanded in them.
#[derive(Debug)]
pub struct LayerLists {
    pub multi_selection: TextSet,
    pub anchor: Option<String>,
    pub project_expanded: TextSet,
    pub project_initialized: bool,
    pub project_focus: Option<String>,
    pub nodes_expanded: TextSet,
    pub initialized_for: Option<String>,
}

/// What the pointer does on the canvas.
#[derive(Debug)]
pub struct PointerState {
    pub context_menu: Option<ContextMenuState>,
    pub hovered: Option<String>,
    pub drag_preview: Option<DragPreviewState>,
}

/// The authored components and what is open and selected of them.
#[derive(Debug)]
pub struct Authoring {
    pub library: ComponentLibrary,
    pub runtime: Vec<ComponentRuntime>,
    pub active_document: DocumentId,
    pub selection: ElementSelection,
    pub pending: PendingEdits,
    /// What is known of the painted selection; forgotten whenever it may have moved.
    pub snapshot: Option<SelectionSnapshot>,
}

/// The session state.
#[derive(Debug)]
pub struct StudioState {
    pub status: String,
    pub workspace: Workspace,
    pub panels: Panels,
    pub layers: CollapsedLayers,
    pub drafts: InspectorDrafts,
    pub review: Review,
    pub dialog: ComponentDialog,
    pub lists: LayerLists,
    pub pointer: PointerState,
    pub authoring: Authoring,
}

// ---------------------------------------------------------------------------
// A new session
// ---------------------------------------------------------------------------

/// The runtime ID of a component's node.
pub open spec fn component_runtime_id(component_id: Seq<char>, node_id: Seq<char>) -> Seq<char> {
    drag::component_prefix(component_id) + node_id
}

/// The runtime ID of a component's node.
pub fn runtime_id_of(component_id: &str, node_id: &str) -> (out: String)
    ensures
        out@ == component_runtime_id(component_id@, node_id@),
{
    let prefix = text::join3("component/", component_id, "/");
    text::join2(prefix.as_str(), node_id)
}

/// The selection of a node of a component.
pub open spec fn node_selection(component_id: Seq<char>, node_id: Seq<char>) -> SelectionView {
    SelectionView {
        authored_id: node_id,
        runtime_id: component_runtime_id(component_id, node_id),
        document_revision: 1,
        captured_rect: None,
    }
}

/// The selection that a session starts with: the root node of the first component, or the
/// page's title where there is none.
pub open spec fn initial_selection_of(
    components: Seq<NativeComponent>,
    revision: u64,
) -> SelectionView {
    if components.len() == 0 {
        SelectionView {
            authored_id: "hero-title"@,
            runtime_id: "project-canvas--hero-title"@,
            document_revision: revision,
            captured_rect: None,
        }
    } else {
        SelectionView {
            document_revision: revision,
            ..node_selection(components[0].id@, "root"@)
        }
    }
}

/// The selection that a session starts with, whichever projection is authored.
pub fn initial_selection(
    _backend: AuthoringBackend,
    library: &ComponentLibrary,
    revision: u64,
) -> (selection: ElementSelection)
    ensures
        selection@ == initial_selection_of(library.components@, revision),
{
    if library.components.len() == 0 {
        ElementSelection::new("hero-title", "project-canvas--hero-title", revision, None)
    } else {
        let runtime_id = runtime_id_of(library.components[0].id.as_str(), "root");
        ElementSelection::new("root", runtime_id.as_str(), revision, None)
    }
}

/// Whether `values` are the default values of the first `count` states; of states with the
/// same name the last one counts.
pub open spec fn holds_defaults(
    values: Seq<StateValue>,
    states: Seq<ComponentState>,
    count: nat,
) -> bool
    decreases count,
{
    if count == 0 {
        values.len() == 0
    } else {
        let state = states[count - 1];
        exists|before: Seq<StateValue>, value: StateValue|
            {
                &&& holds_defaults(before, states, (count - 1) as nat)
                &&& value.name@ == state.name@
                &&& value.value@ == state.default@
                &&& values == #[trigger] keyed::placed(before, value)
            }
    }
}

/// The default values of a component's states.
pub fn default_values(states: &Vec<ComponentState>) -> (values: Vec<StateValue>)
    ensures
        holds_defaults(values@, states@, states@.len()),
{
    let mut values: Vec<StateValue> = Vec::new();
    let mut i: usize = 0;
    while i < states.len()
        invariant
            i <= states.len(),
            holds_defaults(values@, states@, i as nat),
        decreases states.len() - i,
    {
        let value = StateValue {
            name: states[i].name.clone(),
            value: states[i].default.clone(),
        };
        let ghost before = values@;
        keyed::place(&mut values, value);
        proof {
            assert(values@ == keyed::placed(before, value));
        }
        i += 1;
    }
    values
}

/// Whether these are the values that the components before `end` start with: a component that
/// is found by its ID has the default values of the last component with that ID.
pub open spec fn run_by_default(
    runtime: Seq<ComponentRuntime>,
    components: Seq<NativeComponent>,
    end: int,
) -> bool {
    &&& keyed::distinct(runtime)
    &&& forall|id: Seq<char>|
        match (#[trigger] keyed::first_key(runtime, id, 0), keyed::last_key(components, id, end)) {
            (Some(at), Some(i)) => holds_defaults(
                runtime[at].values@,
                components[i].states@,
                components[i].states@.len(),
            ),
            (None, None) => true,
            _ => false,
        }
}

/// The values that components start with; of components with one ID the last one counts.
fn default_runtime(components: &Vec<NativeComponent>) -> (runtime: Vec<ComponentRuntime>)
    ensures
        run_by_default(runtime@, components@, components@.len() as int),
{
    let mut runtime: Vec<ComponentRuntime> = Vec::new();
    let mut i: usize = 0;
    while i < components.len()
        invariant
            i <= components.len(),
            run_by_default(runtime@, components@, i as int),
        decreases components.len() - i,
    {
        let entry = ComponentRuntime {
            component_id: components[i].id.clone(),
            values: default_values(&components[i].states),
        };
        let ghost before = runtime@;
        keyed::place(&mut runtime, entry);
        proof {
            keyed::law_placed_item_is_found(before, entry);
            assert forall|id: Seq<char>|
                match (
                    #[trigger] keyed::first_key(runtime@, id, 0),
                    keyed::last_key(components@, id, i as int + 1),
                ) {
                    (Some(at), Some(k)) => holds_defaults(
                        runtime@[at].values@,
                        components@[k].states@,
                        components@[k].states@.len(),
                    ),
                    (None, None) => true,
                    _ => false,
                } by {
                keyed::lemma_first_key(before, id, 0);
                assert(keyed::first_key(before, id, 0) is Some
                    == keyed::last_key(components@, id, i as int) is Some);
                if id != components@[i as int].id@ {
                    assert(keyed::first_key(runtime@, id, 0) == keyed::first_key(before, id, 0));
                }
            }
        }
        i += 1;
    }
    runtime
}

/// What a session starts from.
#[derive(Debug)]
pub struct StudioStateInit {
    pub mode: StudioMode,
    pub backend: AuthoringBackend,
    pub canvas: CanvasSettings,
    pub library: ComponentLibrary,
    pub annotations: AnnotationStore,
}

impl LayerLists {
    /// The sets are in order.
    pub open spec fn wf(&self) -> bool {
        &&& self.multi_selection.wf()
        &&& self.project_expanded.wf()
        &&& self.nodes_expanded.wf()
    }
}

impl PendingEdits {
    /// No change waits.
    pub open spec fn none() -> PendingEdits {
        PendingEdits { dirty: false, quiet_ticks: 0 }
    }

    /// A change was just made.
    pub open spec fn fresh() -> PendingEdits {
        PendingEdits { dirty: true, quiet_ticks: 0 }
    }
}

impl StudioState {
    /// The sets of the session are in order.
    pub open spec fn wf(&self) -> bool {
        self.lists.wf()
    }

    /// A new session: nothing open, nothing typed, the first component's root selected and
    /// every component running with its default states.
    pub fn new(init: StudioStateInit) -> (state: StudioState)
        ensures
            state.wf(),
            state.status@ == "Opening native project canvas…"@,
            state.workspace == (Workspace {
                mode: init.mode,
                backend: init.backend,
                canvas: init.canvas,
                theme_revision: 1,
            }),
            state.panels == (Panels {
                left_files_open: false,
                inspector_tab: InspectorTab::Layout,
                dock_tab: DockTab::Console,
                dock_collapsed: false,
                console_pinned: true,
                settings_open: false,
                theme_dropdown_open: false,
                annotations_drawer_open: false,
                project_menu_open: false,
                viewport_menu_open: false,
                horizontal_constraint: HorizontalConstraint::Left,
            }),
            state.layers == (CollapsedLayers {
                welcome: false,
                header: false,
                welcome_copy: false,
                feature_cards: false,
                welcome_lower: false,
                component_tree: false,
            }),
            state.drafts.prop_name@ == ""@,
            state.drafts.prop_type@ == "String"@,
            state.drafts.prop_default@ == ""@,
            forall|field: crate::definitions::DefinitionDraftField| #[trigger]
                state.drafts.definitions.draft(field) == DefinitionDrafts::initial_draft(field),
            !state.drafts.slot_multiple,
            state.review.annotations == init.annotations,
            state.review.draft@ == ""@,
            state.review.active is None,
            !state.review.popover_open,
            state.review.pending == PendingEdits::none(),
            !state.dialog.open,
            state.dialog.name@ == "NewComponent"@,
            state.dialog.props@ == ""@,
            state.dialog.authoring == AuthoringBackend::Html,
            state.dialog.source == ComponentSource::Selection,
            state.dialog.preset == ComponentPreset::Button,
            state.lists.multi_selection@ == Set::<Seq<char>>::empty().insert(
                state.authoring.selection@.runtime_id,
            ),
            state.lists.anchor is None,
            state.lists.project_expanded@ == Set::<Seq<char>>::empty(),
            !state.lists.project_initialized,
            state.lists.project_focus is None,
            state.lists.nodes_expanded@ == Set::<Seq<char>>::empty(),
            state.lists.initialized_for is None,
            state.pointer.context_menu is None,
            state.pointer.hovered is None,
            state.pointer.drag_preview is None,
            state.authoring.library == init.library,
            state.authoring.active_document == DocumentId::Main,
            state.authoring.selection@ == initial_selection_of(init.library.components@, 1),
            state.authoring.pending == PendingEdits::none(),
            state.authoring.snapshot is None,
            run_by_default(
                state.authoring.runtime@,
                init.library.components@,
                init.library.components@.len() as int,
            ),
    {
        let selection = initial_selection(init.backend, &init.library, 1);
        let runtime = default_runtime(&init.library.components);
        let multi_selection = TextSet::single(selection.runtime_id.as_str());
        StudioState {
            status: "Opening native project canvas…".to_owned(),
            workspace: Workspace {
                mode: init.mode,
                backend: init.backend,
                canvas: init.canvas,
                theme_revision: 1,
            },
            panels: Panels {
                left_files_open: false,
                inspector_tab: InspectorTab::Layout,
                dock_tab: DockTab::Console,
                dock_collapsed: false,
                console_pinned: true,
                settings_open: false,
                theme_dropdown_open: false,
                annotations_drawer_open: false,
                project_menu_open: false,
                viewport_menu_open: false,
                horizontal_constraint: HorizontalConstraint::Left,
            },
            layers: CollapsedLayers {
                welcome: false,
                header: false,
                welcome_copy: false,
                feature_cards: false,
                welcome_lower: false,
                component_tree: false,
            },
            drafts: InspectorDrafts {
                prop_name: "".to_owned(),
                prop_type: "String".to_owned(),
                prop_default: "".to_owned(),
                definitions: DefinitionDrafts::initial(),
                slot_multiple: false,
            },
            review: Review {
                annotations: init.annotations,
                draft: "".to_owned(),
                active: None,
                popover_open: false,
                pending: PendingEdits { dirty: false, quiet_ticks: 0 },
            },
            dialog: ComponentDialog {
                open: false,
                name: "NewComponent".to_owned(),
                props: "".to_owned(),
                authoring: AuthoringBackend::Html,
                source: ComponentSource::Selection,
                preset: ComponentPreset::Button,
            },
            lists: LayerLists {
                multi_selection,
                anchor: None,
                project_expanded: TextSet::new(),
                project_initialized: false,
                project_focus: None,
                nodes_expanded: TextSet::new(),
                initialized_for: None,
            },
            pointer: PointerState { context_menu: None, hovered: None, drag_preview: None },
            authoring: Authoring {
                library: init.library,
                runtime,
                active_document: DocumentId::Main,
                selection,
                pending: PendingEdits { dirty: false, quiet_ticks: 0 },
                snapshot: None,
            },
        }
    }
}

/// A component starts with the default of each of its states: a state is found with the default
/// of the last declaration of its name, and no other state is found.
pub proof fn law_states_start_with_their_defaults(
    values: Seq<StateValue>,
    states: Seq<ComponentState>,
    count: nat,
    name: Seq<char>,
)
    requires
        count <= states.len(),
        holds_defaults(values, states, count),
    ensures
        match keyed::first_key(values, name, 0) {
            Some(k) => exists|i: int|
                0 <= i < count && (#[trigger] states[i]).name@ == name && states[i].default@
                    == values[k].value@ && forall|j: int|
                    i < j < count ==> (#[trigger] states[j]).name@ != name,
            None => forall|i: int| 0 <= i < count ==> (#[trigger] states[i]).name@ != name,
        },
    decreases count,
{
    if count > 0 {
        let state = states[count - 1];
        let (before, value) = choose|before: Seq<StateValue>, value: StateValue|
            {
                &&& holds_defaults(before, states, (count - 1) as nat)
                &&& value.name@ == state.name@
                &&& value.value@ == state.default@
                &&& values == #[trigger] keyed::placed(before, value)
            };
        law_states_start_with_their_defaults(before, states, (count - 1) as nat, name);
        keyed::law_placed_item_is_found(before, value);
        keyed::lemma_first_key(before, name, 0);
        keyed::lemma_first_key(values, name, 0);
        if name == state.name@ {
            let k = keyed::first_key(values, name, 0)->0;
            assert(values[k] == value);
            assert(states[count - 1].name@ == name);
        } else {
            match keyed::first_key(values, name, 0) {
                Some(k) => {
                    assert(keyed::first_key(before, name, 0) == Some(k));
                    assert(values[k] == before[k]);
                    let i = choose|i: int|
                        0 <= i < count - 1 && (#[trigger] states[i]).name@ == name
                            && states[i].default@ == before[k].value@ && forall|j: int|
                            i < j < count - 1 ==> (#[trigger] states[j]).name@ != name;
                    assert(states[i].name@ == name);
                },
                None => {
                    assert(keyed::first_key(before, name, 0) is None);
                },
            }
        }
    }
}

/// A session starts at the root node of the first component, and at the page's title where there
/// is none, at the live revision and with nothing painted.
pub proof fn law_sessions_start_at_the_first_root(components: Seq<NativeComponent>, revision: u64)
    ensures
        ({
            let start = initial_selection_of(components, revision);
            &&& start.document_revision == revision
            &&& start.captured_rect is None
            &&& components.len() > 0 ==> start.authored_id == "root"@ && start.runtime_id
                == "component/"@ + components[0].id@ + "/"@ + "root"@
            &&& components.len() == 0 ==> start.authored_id == "hero-title"@ && start.runtime_id
                == "project-canvas--hero-title"@
        }),
{
}

/// A node of a component is selected under its own ID and under its runtime ID, at the first
/// revision and with nothing painted.
pub proof fn law_nodes_are_selected_by_both_ids(component_id: Seq<char>, node_id: Seq<char>)
    ensures
        node_selection(component_id, node_id).authored_id == node_id,
        node_selection(component_id, node_id).runtime_id == "component/"@ + component_id + "/"@
            + node_id,
        node_selection(component_id, node_id).document_revision == 1,
        node_selection(component_id, node_id).captured_rect is None,
{
}

/// Each component runs with the values that its last definition starts with, and nothing runs
/// that is not defined.
pub proof fn law_components_run_by_default(
    runtime: Seq<ComponentRuntime>,
    components: Seq<NativeComponent>,
    at: int,
    i: int,
)
    requires
        run_by_default(runtime, components, components.len() as int),
        0 <= i < components.len(),
        forall|j: int| i < j < components.len() ==> #[trigger] components[j].id@ != components[i].id@,
        0 <= at < runtime.len(),
    ensures
        exists|k: int| 0 <= k < runtime.len() && #[trigger] runtime[k].component_id@ == components[i].id@,
        runtime[at].component_id@ == components[i].id@ ==> holds_defaults(
            runtime[at].values@,
            components[i].states@,
            components[i].states@.len(),
        ),
        exists|k: int| 0 <= k < components.len() && #[trigger] components[k].id@ == runtime[at].component_id@,
{
    let id = components[i].id@;
    keyed::lemma_first_key(runtime, id, 0);
    keyed::lemma_first_key(runtime, runtime[at].component_id@, 0);
    let end = components.len() as int;
    keyed::lemma_last_key(components, id, i, end);
    keyed::lemma_last_has_key(components, runtime[at].component_id@, end);
    assert(keyed::first_key(runtime, id, 0) is Some);
    let first = keyed::first_key(runtime, id, 0)->0;
    assert(runtime[first].key() == id);
    assert(keyed::first_key(runtime, runtime[at].component_id@, 0) is Some) by {
        assert(runtime[at].key() == runtime[at].component_id@);
    }
    let last = keyed::last_key(components, runtime[at].component_id@, end)->0;
    assert(components[last].key() == runtime[at].component_id@);
    if runtime[at].component_id@ == id {
        assert(runtime[at].key() == runtime[first].key());
    }
}

} // verus!
