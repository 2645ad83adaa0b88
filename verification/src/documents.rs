//! Documents, selections and components: what is open and selected, and how it changes.
use vstd::prelude::*;

use crate::annotations::{ElementSelection, SelectionView};
use crate::components::{ComponentLibrary, NativeComponent};
use crate::identifiers;
use crate::identifiers::ComponentProp;
use crate::keyed;
use crate::presets::ComponentPreset;
use crate::studio;
use crate::studio::{
    Authoring, CollapsedLayers, ComponentDialog, ComponentSource, DocumentId, LayerLists,
};
use crate::text;
use crate::text_set::TextSet;

verus! {

/// The selection of an element of the page, at the live revision or else the first one.
pub open spec fn page_selection(authored_id: Seq<char>, revision: Option<u64>) -> SelectionView {
    SelectionView {
        authored_id,
        runtime_id: "project-canvas--"@ + authored_id,
        document_revision: match revision {
            Some(revision) => revision,
            None => 1,
        },
        captured_rect: None,
    }
}

impl Authoring {
    /// Whether this is the session after the root of the edited component was selected;
    /// nothing changes where none is edited.
    pub open spec fn root_selected(&self, before: Authoring) -> bool {
        match before.active_component() {
            None => *self == before,
            Some(id) => {
                &&& *self == (Authoring { selection: self.selection, snapshot: None, ..before })
                &&& self.selection@ == studio::node_selection(id, "root"@)
            },
        }
    }

    /// The first component of the library, which the page renders and edits.
    pub open spec fn root_component(&self) -> Option<Seq<char>> {
        if self.library.components@.len() > 0 {
            Some(self.library.components@[0].id@)
        } else {
            None
        }
    }

    /// The component whose graph the canvas edits: the open component document, or the root
    /// component while the page is open.
    pub open spec fn active_component(&self) -> Option<Seq<char>> {
        match self.active_document {
            DocumentId::Main => self.root_component(),
            DocumentId::Component(id) => Some(id@),
        }
    }

    /// The project's root component.
    pub fn root_component_id(&self) -> (out: Option<String>)
        ensures
            text::text_view(out) == self.root_component(),
    {
        if self.library.components.len() > 0 {
            Some(self.library.components[0].id.clone())
        } else {
            None
        }
    }

    /// The component whose graph the canvas edits.
    pub fn active_component_id(&self) -> (out: Option<String>)
        ensures
            text::text_view(out) == self.active_component(),
    {
        match &self.active_document {
            DocumentId::Main => self.root_component_id(),
            DocumentId::Component(id) => Some(id.clone()),
        }
    }

    /// Whether a component graph is being edited.
    pub fn editing_component_graph(&self) -> (result: bool)
        ensures
            result == (self.active_component() is Some),
    {
        self.active_component_id().is_some()
    }

    /// Whether the page's layers are listed: only while no component graph is edited.
    pub fn page_tree_visible(&self) -> (result: bool)
        ensures
            result == (self.active_component() is None),
    {
        !self.editing_component_graph()
    }

    /// Whether the component's layers are listed.
    pub fn component_document_tree_visible(&self) -> (result: bool)
        ensures
            result == (self.active_component() is Some),
    {
        self.editing_component_graph()
    }

    /// Whether the root of the edited component is selected.
    pub fn component_root_selected(&self) -> (result: bool)
        ensures
            result == (self.active_component() is Some && self.selection@.authored_id == "root"@),
    {
        self.editing_component_graph() && text::same_text(
            self.selection.authored_id.as_str(),
            "root",
        )
    }

    /// Whether the edited component's layers are listed below its root.
    pub fn component_tree_children_visible(&self, layers: &CollapsedLayers) -> (result: bool)
        ensures
            result == (self.active_component() is Some && !layers.component_tree),
    {
        self.editing_component_graph() && !layers.component_tree
    }

    /// Whether this element is selected.
    pub fn layer_selected(&self, authored_id: &str) -> (result: bool)
        ensures
            result == (self.selection@.authored_id == authored_id@),
    {
        text::same_text(self.selection.authored_id.as_str(), authored_id)
    }

    /// The active component and how many there are.
    pub open spec fn component_summary_text(&self) -> Seq<char> {
        (match self.library.lookup(self.library.active_component@) {
                Some(component) => component.name@,
                None => "No component"@,
            }) + " · "@ + text::decimal_text(self.library.components@.len()) + " total"@
    }

    /// The active component and how many there are.
    pub fn component_summary(&self) -> (out: String)
        ensures
            out@ == self.component_summary_text(),
    {
        let name = match self.library.active() {
            Some(component) => component.name.clone(),
            None => "No component".to_owned(),
        };
        let mut out = text::join3(
            name.as_str(),
            " · ",
            text::decimal(self.library.components.len() as u64).as_str(),
        );
        out.append(" total");
        out
    }

    /// The active component's name.
    pub open spec fn active_component_name_text(&self) -> Seq<char> {
        (match self.library.lookup(self.library.active_component@) {
                Some(component) => component.name@,
                None => "Component"@,
            })
    }

    /// The active component's name.
    pub fn active_component_name(&self) -> (out: String)
        ensures
            out@ == self.active_component_name_text(),
    {
        match self.library.active() {
            Some(component) => component.name.clone(),
            None => "Component".to_owned(),
        }
    }

    /// The selected element's ID behind a hash sign.
    pub fn selection_label(&self) -> (out: String)
        ensures
            out@ == "#"@ + self.selection@.authored_id,
    {
        text::join2("#", self.selection.authored_id.as_str())
    }

    /// The selected element's runtime ID.
    pub fn selection_runtime_id(&self) -> (out: String)
        ensures
            out@ == self.selection@.runtime_id,
    {
        self.selection.runtime_id.clone()
    }

    /// The selected element's type-like name.
    pub fn selection_heading(&self) -> (out: String)
        ensures
            out@ == identifiers::authored_name_of(self.selection@.authored_id),
    {
        identifiers::authored_name(self.selection.authored_id.as_str())
    }

    // -----------------------------------------------------------------------
    // Selecting
    // -----------------------------------------------------------------------

    /// Selects an element; what was painted of the selection before is forgotten.
    pub fn set_selection(&mut self, selection: ElementSelection)
        ensures
            *final(self) == (Authoring { selection, snapshot: None, ..*old(self) }),
    {
        self.selection = selection;
        self.snapshot = None;
    }

    /// Selects a node of a component.
    pub fn select_node(&mut self, component_id: &str, node_id: &str)
        ensures
            *final(self) == (Authoring {
                selection: final(self).selection,
                snapshot: None,
                ..*old(self)
            }),
            final(self).selection@ == studio::node_selection(component_id@, node_id@),
    {
        let runtime_id = studio::runtime_id_of(component_id, node_id);
        self.set_selection(ElementSelection::new(node_id, runtime_id.as_str(), 1, None));
    }

    /// Selects a node of a component whose document is open, and says so.
    pub fn select_component_node(&mut self, component_id: &str, node_id: &str) -> (status: String)
        ensures
            *final(self) == (Authoring {
                selection: final(self).selection,
                snapshot: None,
                ..*old(self)
            }),
            final(self).selection@ == studio::node_selection(component_id@, node_id@),
            status@ == "Selected component node #"@ + node_id@,
    {
        self.select_node(component_id, node_id);
        text::join2("Selected component node #", node_id)
    }

    /// Whether another document has to be opened before a node of this component is selected.
    pub fn needs_component_document(&self, component_id: &str) -> (result: bool)
        ensures
            result == (self.active_component() != Some(component_id@)),
    {
        !text::is_text(&self.active_component_id(), component_id)
    }

    /// Selects the root of the edited component; nothing where none is edited.
    pub fn select_component_root(&mut self) -> (status: Option<String>)
        ensures
            final(self).root_selected(*old(self)),
            match old(self).active_component() {
                None => status is None,
                Some(_) => status is Some && status->0@ == "Selected component document root"@,
            },
    {
        match self.active_component_id() {
            None => None,
            Some(id) => {
                self.select_node(id.as_str(), "root");
                Some("Selected component document root".to_owned())
            },
        }
    }

    /// Whether this is the session after an element of the page was selected: where the page
    /// could be shown it is the open document, and the library's active component is the root
    /// component.
    pub open spec fn page_selected(
        &self,
        before: Authoring,
        element: Seq<char>,
        revision: Option<u64>,
        shown: bool,
    ) -> bool {
        &&& *self == (Authoring {
            library: self.library,
            active_document: if shown {
                DocumentId::Main
            } else {
                before.active_document
            },
            selection: self.selection,
            snapshot: None,
            ..before
        })
        &&& self.library == (ComponentLibrary {
            active_component: self.library.active_component,
            ..before.library
        })
        &&& self.library.active_component@ == (match before.root_component() {
            Some(root) if shown => root,
            _ => before.library.active_component@,
        })
        &&& self.selection@ == page_selection(element, revision)
    }

    /// Shows the page, given the selection that was restored for it, and selects one of its
    /// elements, at the live revision or else the first one.
    pub fn select_project_element(
        &mut self,
        authored_id: &str,
        revision: Option<u64>,
        restored: Option<ElementSelection>,
    ) -> (status: String)
        ensures
            final(self).page_selected(*old(self), authored_id@, revision, restored is Some),
            status@ == "Selected #"@ + authored_id@,
    {
        self.activate_document(&DocumentId::Main, restored);
        let runtime_id = text::join2("project-canvas--", authored_id);
        let revision: u64 = match revision {
            Some(revision) => revision,
            None => 1,
        };
        self.set_selection(
            ElementSelection::new(authored_id, runtime_id.as_str(), revision, None),
        );
        text::join2("Selected #", authored_id)
    }

    // -----------------------------------------------------------------------
    // Documents
    // -----------------------------------------------------------------------

    /// Makes a document the active one with the selection that was restored for it; nothing
    /// where it is not open. The library's active component follows, and what was painted of
    /// the selection before is forgotten.
    pub fn activate_document(&mut self, id: &DocumentId, restored: Option<ElementSelection>) -> (
        activated: bool)
        ensures
            activated == (restored is Some),
            match restored {
                None => *final(self) == *old(self),
                Some(selection) => {
                    &&& final(self).active_document == *id
                    &&& final(self).selection == selection
                    &&& final(self).snapshot is None
                    &&& final(self).library == (ComponentLibrary {
                        active_component: final(self).library.active_component,
                        ..old(self).library
                    })
                    &&& final(self).runtime == old(self).runtime
                    &&& final(self).pending == old(self).pending
                    &&& final(self).library.active_component@ == (match final(self).active_component() {
                        Some(component) => component,
                        None => old(self).library.active_component@,
                    })
                },
            },
    {
        match restored {
            None => false,
            Some(selection) => {
                self.active_document = id.clone();
                match self.active_component_id() {
                    Some(component) => {
                        self.library.active_component = component;
                    },
                    None => {},
                }
                self.set_selection(selection);
                true
            },
        }
    }

    /// How a request to open a component's document is answered: the document of a component
    /// that does not exist is refused, the root component is edited on the page, any other
    /// component has a document of its own.
    pub open spec fn opening_of(&self, component_id: Seq<char>) -> DocumentOpening {
        if self.library.lookup(component_id) is None {
            DocumentOpening::Missing
        } else if self.root_component() == Some(component_id) {
            DocumentOpening::Page
        } else {
            DocumentOpening::Own
        }
    }

    /// How a request to open a component's document is answered.
    pub fn document_opening(&self, component_id: &str) -> (opening: DocumentOpening)
        ensures
            opening == self.opening_of(component_id@),
    {
        if self.library.component(component_id).is_none() {
            DocumentOpening::Missing
        } else if text::is_text(&self.root_component_id(), component_id) {
            DocumentOpening::Page
        } else {
            DocumentOpening::Own
        }
    }

    /// Shows a component's own document with the selection that was restored for it; its
    /// layers are listed.
    pub fn open_component_document(
        &mut self,
        component_id: &str,
        restored: ElementSelection,
        layers: &mut CollapsedLayers,
    )
        ensures
            *final(layers) == (CollapsedLayers { component_tree: false, ..*old(layers) }),
            *final(self) == (Authoring {
                library: final(self).library,
                active_document: final(self).active_document,
                selection: restored,
                ..*old(self)
            }),
            final(self).library == (ComponentLibrary {
                active_component: final(self).library.active_component,
                ..old(self).library
            }),
            final(self).library.active_component@ == component_id@,
            final(self).active_component() == Some(component_id@),
    {
        self.library.active_component = component_id.to_owned();
        layers.component_tree = false;
        self.active_document = DocumentId::Component(component_id.to_owned());
        self.selection = restored;
    }

    /// The name that a component goes by; its ID where it does not exist.
    pub open spec fn display_name(&self, component_id: Seq<char>) -> Seq<char> {
        match self.library.lookup(component_id) {
            Some(component) => component.name@,
            None => component_id,
        }
    }

    /// The name that a component goes by; its ID where it does not exist.
    pub fn component_display_name(&self, component_id: &str) -> (out: String)
        ensures
            out@ == self.display_name(component_id@),
    {
        match self.library.component(component_id) {
            Some(component) => component.name.clone(),
            None => component_id.to_owned(),
        }
    }

    /// Closes a component's document, given the document and selection that take its place;
    /// nothing where it was not open. The library's active component follows.
    pub fn close_component_document(
        &mut self,
        component_id: &str,
        restored: Option<(DocumentId, ElementSelection)>,
    ) -> (status: Option<String>)
        ensures
            match restored {
                None => status is None && *final(self) == *old(self),
                Some((document, selection)) => {
                    &&& final(self).active_document == document
                    &&& final(self).selection == selection
                    &&& final(self).library == (ComponentLibrary {
                        active_component: final(self).library.active_component,
                        ..old(self).library
                    })
                    &&& final(self).runtime == old(self).runtime
                    &&& final(self).pending == old(self).pending
                    &&& final(self).snapshot == old(self).snapshot
                    &&& final(self).library.active_component@ == (match final(self).active_component() {
                        Some(component) => component,
                        None => old(self).library.active_component@,
                    })
                    &&& status is Some
                    &&& status->0@ == "Closed "@ + old(self).display_name(component_id@)
                        + " · active document restored"@
                },
            },
    {
        match restored {
            None => None,
            Some((document, selection)) => {
                let name = self.component_display_name(component_id);
                self.active_document = document;
                self.selection = selection;
                match self.active_component_id() {
                    Some(component) => {
                        self.library.active_component = component;
                    },
                    None => {},
                }
                Some(text::join3("Closed ", name.as_str(), " · active document restored"))
            },
        }
    }

    /// Forgets the running state of a component that was removed from the library.
    pub fn forget_component(&mut self, component_id: &str)
        ensures
            *final(self) == (Authoring { runtime: final(self).runtime, ..*old(self) }),
            final(self).runtime@ == keyed::without(old(self).runtime@, component_id@),
    {
        keyed::remove_all(&mut self.runtime, component_id);
    }

    /// The active component's document to open, and how people are told.
    pub fn select_active_component(&self) -> (out: Result<(String, String), String>)
        ensures
            match self.library.lookup(self.library.active_component@) {
                Some(component) => {
                    &&& out is Ok
                    &&& out->Ok_0.0@ == component.id@
                    &&& out->Ok_0.1@ == opened_message(component.name@)
                },
                None => out is Err && out->Err_0@ == "No component document is available"@,
            },
    {
        match self.library.active() {
            Some(component) => Ok((component.id.clone(), opened_status(component.name.as_str()))),
            None => Err("No component document is available".to_owned()),
        }
    }

    /// The document of the titlebar component to open, and how people are told.
    pub fn open_app_titlebar_component(&self) -> (out: Result<(String, String), String>)
        ensures
            match named_component(self.library.components@, "AppTitlebar"@, 0) {
                Some(i) => {
                    &&& out is Ok
                    &&& out->Ok_0.0@ == self.library.components@[i].id@
                    &&& out->Ok_0.1@ == opened_message("AppTitlebar"@)
                },
                None => out is Err && out->Err_0@
                    == "AppTitlebar component is missing from this project"@,
            },
    {
        let mut i: usize = 0;
        while i < self.library.components.len()
            invariant
                i <= self.library.components.len(),
                named_component(self.library.components@, "AppTitlebar"@, 0) == named_component(
                    self.library.components@,
                    "AppTitlebar"@,
                    i as int,
                ),
            decreases self.library.components.len() - i,
        {
            if text::same_text(self.library.components[i].name.as_str(), "AppTitlebar") {
                return Ok(
                    (
                        self.library.components[i].id.clone(),
                        opened_status(self.library.components[i].name.as_str()),
                    ),
                );
            }
            i += 1;
        }
        Err("AppTitlebar component is missing from this project".to_owned())
    }
}

/// How a request to open a component's document is answered.
#[derive(Clone, Copy, Debug, PartialEq, Eq, Structural)]
pub enum DocumentOpening {
    Missing,
    Page,
    Own,
}

/// How people are told that a component's document does not exist.
pub fn missing_document_status(component_id: &str) -> (out: String)
    ensures
        out@ == "Component document "@ + component_id@ + " no longer exists"@,
{
    text::join3("Component document ", component_id, " no longer exists")
}

/// How people are told that a component's document was opened.
pub open spec fn opened_message(name: Seq<char>) -> Seq<char> {
    "Opened "@ + name + " in its component document tab"@
}

fn opened_status(name: &str) -> (out: String)
    ensures
        out@ == opened_message(name@),
{
    text::join3("Opened ", name, " in its component document tab")
}

/// The position at or after `from` of the first component with this name.
pub open spec fn named_component(
    components: Seq<NativeComponent>,
    name: Seq<char>,
    from: int,
) -> Option<int>
    decreases components.len() - from,
{
    if from < 0 || from >= components.len() {
        None
    } else if components[from].name@ == name {
        Some(from)
    } else {
        named_component(components, name, from + 1)
    }
}

// ---------------------------------------------------------------------------
// Layer lists
// ---------------------------------------------------------------------------

/// How a layer is picked.
#[derive(Debug)]
pub enum LayerPick {
    /// Alone.
    Single,
    /// Added to or taken from what is selected.
    Toggle,
    /// With everything between the anchor and it.
    Range(Vec<String>),
}

/// How a click picks a layer: with the range key everything between the anchor and it, else
/// with the toggle key it alone is added or taken, else it is picked alone. `range` holds the
/// layers between the anchor and it.
pub fn click_pick(extend_range: bool, toggle: bool, range: Vec<String>) -> (pick: LayerPick)
    ensures
        pick == (if extend_range {
            LayerPick::Range(range)
        } else if toggle {
            LayerPick::Toggle
        } else {
            LayerPick::Single
        }),
{
    if extend_range {
        LayerPick::Range(range)
    } else if toggle {
        LayerPick::Toggle
    } else {
        LayerPick::Single
    }
}

impl LayerLists {
    /// The layer that a range selection starts from.
    pub fn range_anchor(&self, runtime_id: &str) -> (out: String)
        ensures
            out@ == (match self.anchor {
                Some(anchor) => anchor@,
                None => runtime_id@,
            }),
    {
        match &self.anchor {
            Some(anchor) => anchor.clone(),
            None => runtime_id.to_owned(),
        }
    }

    /// Whether these are the lists after a layer was picked: it has the focus, and an empty
    /// range leaves the selected layers as they are.
    pub open spec fn picked(&self, before: LayerLists, runtime_id: Seq<char>, pick: LayerPick) -> bool {
        &&& self.multi_selection@ == (match pick {
            LayerPick::Single => Set::<Seq<char>>::empty().insert(runtime_id),
            LayerPick::Toggle => if before.multi_selection@.contains(runtime_id) {
                before.multi_selection@.remove(runtime_id)
            } else {
                before.multi_selection@.insert(runtime_id)
            },
            LayerPick::Range(range) => if range@.len() == 0 {
                before.multi_selection@
            } else {
                text::texts(range@).to_set()
            },
        })
        &&& text::text_view(self.anchor) == (match pick {
            LayerPick::Range(_) => text::text_view(before.anchor),
            _ => Some(runtime_id),
        })
        &&& text::text_view(self.project_focus) == Some(runtime_id)
        &&& *self == (LayerLists {
            multi_selection: self.multi_selection,
            anchor: self.anchor,
            project_focus: self.project_focus,
            ..before
        })
    }

    /// Picks a layer: alone, toggled, or as the end of a range. An empty range leaves the
    /// selected layers as they are, and a range keeps the anchor. The layer gets the focus.
    pub fn pick_layer(&mut self, runtime_id: &str, pick: LayerPick)
        requires
            old(self).wf(),
        ensures
            final(self).wf(),
            final(self).picked(*old(self), runtime_id@, pick),
    {
        match pick {
            LayerPick::Single => {
                self.multi_selection = TextSet::single(runtime_id);
                self.anchor = Some(runtime_id.to_owned());
            },
            LayerPick::Toggle => {
                self.multi_selection.toggle(runtime_id);
                self.anchor = Some(runtime_id.to_owned());
            },
            LayerPick::Range(range) => {
                if range.len() > 0 {
                    let mut chosen = TextSet::new();
                    chosen.extend(&range);
                    proof {
                        assert(chosen@ =~= text::texts(range@).to_set());
                    }
                    self.multi_selection = chosen;
                }
            },
        }
        self.project_focus = Some(runtime_id.to_owned());
    }

    /// How people are told of a picked layer.
    pub open spec fn picked_text(&self, label: Seq<char>) -> Seq<char> {
        "Selected "@ + label + " · "@ + text::decimal_text(self.multi_selection@.len())
            + " layer"@ + (if self.multi_selection@.len() == 1 {
            ""@
        } else {
            "s"@
        })
    }

    /// How people are told of a picked layer.
    pub fn picked_status(&self, label: &str) -> (out: String)
        requires
            self.wf(),
        ensures
            out@ == self.picked_text(label@),
    {
        let count: usize = self.multi_selection.len();
        let mut out = text::join5(
            "Selected ",
            label,
            " · ",
            text::decimal(count as u64).as_str(),
            " layer",
        );
        out.append(
            if count == 1 {
                ""
            } else {
                "s"
            },
        );
        out
    }

    /// Expands or collapses a layer of the page.
    pub fn toggle_project_layer(&mut self, runtime_id: &str)
        requires
            old(self).wf(),
        ensures
            final(self).wf(),
            final(self).project_expanded@ == (if old(self).project_expanded@.contains(
                runtime_id@,
            ) {
                old(self).project_expanded@.remove(runtime_id@)
            } else {
                old(self).project_expanded@.insert(runtime_id@)
            }),
            *final(self) == (LayerLists {
                project_expanded: final(self).project_expanded,
                ..*old(self)
            }),
    {
        self.project_expanded.toggle(runtime_id);
    }

    /// Expands or collapses a node of the component tree.
    pub fn toggle_component_node(&mut self, node_id: &str)
        requires
            old(self).wf(),
        ensures
            final(self).wf(),
            final(self).nodes_expanded@ == (if old(self).nodes_expanded@.contains(node_id@) {
                old(self).nodes_expanded@.remove(node_id@)
            } else {
                old(self).nodes_expanded@.insert(node_id@)
            }),
            *final(self) == (LayerLists {
                nodes_expanded: final(self).nodes_expanded,
                ..*old(self)
            }),
    {
        self.nodes_expanded.toggle(node_id);
    }

    /// Reveals one element: it alone is selected, anchors ranges and has the focus.
    pub fn show_only(&mut self, runtime_id: &str)
        requires
            old(self).wf(),
        ensures
            final(self).wf(),
            final(self).multi_selection@ == Set::<Seq<char>>::empty().insert(runtime_id@),
            text::text_view(final(self).anchor) == Some(runtime_id@),
            text::text_view(final(self).project_focus) == Some(runtime_id@),
            *final(self) == (LayerLists {
                multi_selection: final(self).multi_selection,
                anchor: final(self).anchor,
                project_focus: final(self).project_focus,
                ..*old(self)
            }),
    {
        self.pick_layer(runtime_id, LayerPick::Single);
    }

    /// Selects the layers that a marquee touched, in place of what is selected or besides it.
    pub fn select_marquee(&mut self, touched: &Vec<String>, additive: bool)
        requires
            old(self).wf(),
        ensures
            final(self).wf(),
            final(self).multi_selection@ == (if additive {
                old(self).multi_selection@.union(text::texts(touched@).to_set())
            } else {
                text::texts(touched@).to_set()
            }),
            *final(self) == (LayerLists {
                multi_selection: final(self).multi_selection,
                ..*old(self)
            }),
    {
        if additive {
            self.multi_selection.extend(touched);
        } else {
            let mut chosen = TextSet::new();
            chosen.extend(touched);
            proof {
                assert(chosen@ =~= text::texts(touched@).to_set());
            }
            self.multi_selection = chosen;
        }
    }
}

/// Toggling a layer twice leaves the selected layers as they were.
pub proof fn law_toggling_twice(selected: Set<Seq<char>>, layer: Seq<char>)
    ensures
        ({
            let once = if selected.contains(layer) {
                selected.remove(layer)
            } else {
                selected.insert(layer)
            };
            let twice = if once.contains(layer) {
                once.remove(layer)
            } else {
                once.insert(layer)
            };
            twice == selected
        }),
{
    let once = if selected.contains(layer) {
        selected.remove(layer)
    } else {
        selected.insert(layer)
    };
    if selected.contains(layer) {
        assert(once.insert(layer) =~= selected);
    } else {
        assert(once.remove(layer) =~= selected);
    }
}

// ---------------------------------------------------------------------------
// Creating components
// ---------------------------------------------------------------------------

/// What a new component is made of.
#[derive(Debug)]
pub struct CreationRequest {
    pub name: String,
    pub props: Vec<ComponentProp>,
    pub source: ComponentSource,
    pub preset: ComponentPreset,
}

/// What creating a component from the dialog does to it, and what it asks for.
pub open spec fn creation_prepared(
    before: ComponentDialog,
    after: ComponentDialog,
    out: Result<CreationRequest, String>,
) -> bool {
    match before.valid_name() {
        None => {
            &&& out is Err
            &&& out->Err_0@ == "Component name must contain 1–256 characters"@
            &&& after == before
        },
        Some(name) => {
            &&& out is Ok
            &&& out->Ok_0.name@ == name
            &&& identifiers::prop_views(out->Ok_0.props@) == identifiers::declared_props(
                text::split_at_char(before.props@, ','),
            )
            &&& out->Ok_0.source == before.source
            &&& out->Ok_0.preset == before.preset
            &&& after == (ComponentDialog { open: false, ..before })
        },
    }
}

impl ComponentDialog {
    /// Closes the dialog and asks for the component that it describes; a name that is not
    /// acceptable becomes "Component".
    pub fn create_document_component(&mut self) -> (request: CreationRequest)
        ensures
            *final(self) == (ComponentDialog { open: false, ..*old(self) }),
            request.name@ == (match old(self).valid_name() {
                Some(name) => name,
                None => "Component"@,
            }),
            identifiers::prop_views(request.props@) == identifiers::declared_props(
                text::split_at_char(old(self).props@, ','),
            ),
            request.source == old(self).source,
            request.preset == old(self).preset,
    {
        self.open = false;
        let name = match self.valid_component_name() {
            Some(name) => name,
            None => "Component".to_owned(),
        };
        let props = identifiers::parse_component_props(self.props.as_str());
        CreationRequest { name, props, source: self.source, preset: self.preset }
    }

    /// Asks for the component that the dialog describes; refused while its name is not
    /// acceptable.
    pub fn create_component_from_dialog(&mut self) -> (out: Result<CreationRequest, String>)
        ensures
            creation_prepared(*old(self), *final(self), out),
    {
        if self.valid_component_name().is_none() {
            return Err("Component name must contain 1–256 characters".to_owned());
        }
        Ok(self.create_document_component())
    }
}

/// How people are told of a new component, once it was saved.
pub fn creation_status(name: &str, saved: Result<(), String>) -> (status: String)
    ensures
        status@ == crate::panels::outcome_status(
            saved,
            "Create component document failed: "@,
            "Created "@ + name@
                + " at runtime · one graph, HTML and GPUI projections · saved to .gpui-studio/components.ron"@,
        ),
{
    match saved {
        Err(error) => text::join2("Create component document failed: ", error.as_str()),
        Ok(()) => text::join3(
            "Created ",
            name,
            " at runtime · one graph, HTML and GPUI projections · saved to .gpui-studio/components.ron",
        ),
    }
}

// ---------------------------------------------------------------------------
// What picking and opening come to
// ---------------------------------------------------------------------------

/// A layer picked alone is the only one selected; one that is toggled changes sides and leaves
/// the others; a range is selected as it stands, and an empty one changes nothing. The layer has
/// the focus, and it is the anchor of later ranges unless it ended one.
pub proof fn law_picks_select_layers(
    before: LayerLists,
    after: LayerLists,
    runtime_id: Seq<char>,
    pick: LayerPick,
    other: Seq<char>,
)
    requires
        after.picked(before, runtime_id, pick),
    ensures
        pick is Single ==> (after.multi_selection@.contains(other) <==> other == runtime_id),
        pick is Toggle && other != runtime_id ==> (after.multi_selection@.contains(other)
            <==> before.multi_selection@.contains(other)),
        pick is Toggle ==> (after.multi_selection@.contains(runtime_id)
            <==> !before.multi_selection@.contains(runtime_id)),
        pick matches LayerPick::Range(range) ==> {
            &&& range@.len() > 0 ==> (after.multi_selection@.contains(other) <==> exists|i: int|
                0 <= i < range@.len() && (#[trigger] range@[i])@ == other)
            &&& range@.len() == 0 ==> (after.multi_selection@.contains(other)
                <==> before.multi_selection@.contains(other))
            &&& after.anchor is Some <==> before.anchor is Some
            &&& after.anchor is Some ==> after.anchor->0@ == before.anchor->0@
        },
        !(pick is Range) ==> after.anchor is Some && after.anchor->0@ == runtime_id,
        after.project_focus is Some,
        after.project_focus->0@ == runtime_id,
{
    if let LayerPick::Range(range) = pick {
        let ids = text::texts(range@);
        if after.multi_selection@.contains(other) && range@.len() > 0 {
            let i = choose|i: int| 0 <= i < ids.len() && ids[i] == other;
            assert(range@[i]@ == other);
        }
        if exists|i: int| 0 <= i < range@.len() && (#[trigger] range@[i])@ == other {
            let i = choose|i: int| 0 <= i < range@.len() && (#[trigger] range@[i])@ == other;
            assert(ids[i] == other);
        }
    }
}

/// A component opens on the page where it is the first of the library and in a document of its
/// own where it is another one; what the library lacks cannot be opened. Each is shown under its
/// name, and what the library lacks under its ID.
pub proof fn law_components_open_where_they_stand(authoring: Authoring, i: int, id: Seq<char>)
    requires
        0 <= i < authoring.library.components@.len() ==> authoring.library.components@[i].id@ == id
            && forall|j: int|
            0 <= j < i ==> #[trigger] authoring.library.components@[j].id@ != id,
        !(0 <= i < authoring.library.components@.len()) ==> forall|j: int|
            0 <= j < authoring.library.components@.len()
                ==> #[trigger] authoring.library.components@[j].id@ != id,
    ensures
        ({
            let known = 0 <= i < authoring.library.components@.len();
            &&& known && i == 0 ==> authoring.opening_of(id) is Page
            &&& known && i > 0 ==> authoring.opening_of(id) is Own
            &&& !known ==> authoring.opening_of(id) is Missing
            &&& known ==> authoring.display_name(id) == authoring.library.components@[i].name@
            &&& !known ==> authoring.display_name(id) == id
        }),
{
    keyed::lemma_first_key(authoring.library.components@, id, 0);
}

/// The graph that is edited is the open document's, or the first component's on the page.
pub proof fn law_edited_component(authoring: Authoring)
    ensures
        authoring.active_document matches DocumentId::Component(id) ==> authoring.active_component()
            == Some(id@),
        authoring.active_document is Main && authoring.library.components@.len() > 0
            ==> authoring.active_component() == Some(authoring.library.components@[0].id@),
        authoring.active_document is Main && authoring.library.components@.len() == 0
            ==> authoring.active_component() is None,
{
}

/// A component is found by its name at the first place at which the name stands.
pub proof fn law_first_named_component_is_found(
    components: Seq<NativeComponent>,
    name: Seq<char>,
    from: int,
    i: int,
)
    requires
        0 <= from <= i <= components.len(),
        i < components.len() ==> components[i].name@ == name,
        forall|j: int| from <= j < i ==> #[trigger] components[j].name@ != name,
    ensures
        named_component(components, name, from) == (if i < components.len() {
            Some(i)
        } else {
            None
        }),
    decreases i - from,
{
    if from < i {
        assert(components[from].name@ != name);
        law_first_named_component_is_found(components, name, from + 1, i);
    }
}

/// A page element is selected under the page's prefix, at the live revision where there is one
/// and at the first one else, and nothing painted is known of it.
pub proof fn law_page_elements_are_selected(authored_id: Seq<char>, revision: u64)
    ensures
        ({
            let live = page_selection(authored_id, Some(revision));
            let fresh = page_selection(authored_id, None);
            &&& live.authored_id == authored_id
            &&& live.runtime_id == "project-canvas--"@ + authored_id
            &&& live.document_revision == revision
            &&& live.captured_rect is None
            &&& fresh == page_selection(authored_id, Some(1))
        }),
{
}

/// A dialog with an acceptable name asks for its component as it describes it and closes; without
/// one it stays and asks for nothing.
pub proof fn law_dialogs_ask_for_what_they_describe(
    before: ComponentDialog,
    after: ComponentDialog,
    out: Result<CreationRequest, String>,
)
    requires
        creation_prepared(before, after, out),
    ensures
        ({
            let name = text::trimmed(before.name@);
            let acceptable = name.len() > 0 && text::byte_len(name) <= 256;
            &&& out is Ok <==> acceptable
            &&& acceptable ==> {
                &&& out->Ok_0.name@ == name
                &&& out->Ok_0.source == before.source
                &&& out->Ok_0.preset == before.preset
                &&& !after.open
                &&& after.name == before.name && after.props == before.props && after.source
                    == before.source && after.authoring == before.authoring && after.preset
                    == before.preset
            }
            &&& !acceptable ==> after == before && out->Err_0@
                == "Component name must contain 1–256 characters"@
        }),
{
}

/// A pick tells the layer and how many are selected; the library tells its active component and
/// how many there are.
pub proof fn law_picks_and_summaries_are_told(lists: LayerLists, label: Seq<char>, authoring: Authoring)
    ensures
        lists.multi_selection@.len() == 1 ==> lists.picked_text(label) == "Selected "@ + label
            + " · "@ + text::decimal_text(1) + " layer"@ + ""@,
        lists.multi_selection@.len() != 1 ==> lists.picked_text(label) == "Selected "@ + label
            + " · "@ + text::decimal_text(lists.multi_selection@.len()) + " layer"@ + "s"@,
        authoring.library.lookup(authoring.library.active_component@) matches Some(component)
            ==> authoring.active_component_name_text() == component.name@
            && authoring.component_summary_text() == component.name@ + " · "@ + text::decimal_text(
            authoring.library.components@.len(),
        ) + " total"@,
        authoring.library.lookup(authoring.library.active_component@) is None
            ==> authoring.active_component_name_text() == "Component"@
            && authoring.component_summary_text() == "No component"@ + " · "@ + text::decimal_text(
            authoring.library.components@.len(),
        ) + " total"@,
{
}

} // verus!
