//! Tree edits of a session: what they ask of the component graph, why they are refused, and
//! what the session makes of their outcome.
use vstd::prelude::*;

use crate::annotations::ElementSelection;
use crate::commands::{BridgeError, ErrorCode};
use crate::components;
use crate::components::{ComponentLibrary, NativeComponent, NativeNode, NativeNodeKind};
use crate::drag;
use crate::drag::DragPreviewState;
use crate::edit_session;
use crate::inspector::InspectorTarget;
use crate::keyed;
use crate::studio;
use crate::studio::{Authoring, DocumentId, LayerLists, PendingEdits, PointerState};
use crate::text;
use crate::tree_edits;
use crate::tree_queries;
use crate::tree_queries::{PlaceView, TreePlace};

verus! {

// ---------------------------------------------------------------------------
// Requests
// ---------------------------------------------------------------------------

/// What an inserted node is made from.
#[derive(Debug)]
pub enum NodeTemplate {
    Text,
    Button,
    Container(NativeNodeKind),
    /// An instance of this component.
    Instance(String),
}

/// What an inserted node is made from.
pub enum TemplateView {
    Text,
    Button,
    Container(NativeNodeKind),
    Instance(Seq<char>),
}

impl View for NodeTemplate {
    type V = TemplateView;

    open spec fn view(&self) -> TemplateView {
        match self {
            NodeTemplate::Text => TemplateView::Text,
            NodeTemplate::Button => TemplateView::Button,
            NodeTemplate::Container(kind) => TemplateView::Container(*kind),
            NodeTemplate::Instance(id) => TemplateView::Instance(id@),
        }
    }
}

/// One change of a component graph.
#[derive(Debug)]
pub enum TreeCommand {
    Insert { node_id: String, template: NodeTemplate, place: TreePlace },
    Duplicate { id: String, place: TreePlace, suffix: String },
    Remove { id: String },
    Move { id: String, place: TreePlace },
    /// Puts the node into a new column that hugs its content.
    Wrap { id: String, group_id: String },
}

/// What a change of a component graph asks for.
pub enum CommandView {
    Insert { node_id: Seq<char>, template: TemplateView, place: PlaceView },
    Duplicate { id: Seq<char>, place: PlaceView, suffix: Seq<char> },
    Remove { id: Seq<char> },
    Move { id: Seq<char>, place: PlaceView },
    Wrap { id: Seq<char>, group_id: Seq<char> },
}

impl View for TreeCommand {
    type V = CommandView;

    open spec fn view(&self) -> CommandView {
        match self {
            TreeCommand::Insert { node_id, template, place } => CommandView::Insert {
                node_id: node_id@,
                template: template@,
                place: place@,
            },
            TreeCommand::Duplicate { id, place, suffix } => CommandView::Duplicate {
                id: id@,
                place: place@,
                suffix: suffix@,
            },
            TreeCommand::Remove { id } => CommandView::Remove { id: id@ },
            TreeCommand::Move { id, place } => CommandView::Move { id: id@, place: place@ },
            TreeCommand::Wrap { id, group_id } => CommandView::Wrap {
                id: id@,
                group_id: group_id@,
            },
        }
    }
}

/// A tree edit: the change, how people are told of it, and what is selected afterwards.
#[derive(Debug)]
pub struct TreeEdit {
    pub component_id: String,
    /// What was done, once it was.
    pub done: String,
    /// What failed, where it did.
    pub failed: String,
    pub command: TreeCommand,
    pub select: Option<String>,
}

/// What a tree edit says.
pub struct EditView {
    pub component_id: Seq<char>,
    pub done: Seq<char>,
    pub failed: Seq<char>,
    pub command: CommandView,
    pub select: Option<Seq<char>>,
}

impl View for TreeEdit {
    type V = EditView;

    open spec fn view(&self) -> EditView {
        EditView {
            component_id: self.component_id@,
            done: self.done@,
            failed: self.failed@,
            command: self.command@,
            select: text::text_view(self.select),
        }
    }
}

/// A planned edit, or how people are told why there is none.
pub open spec fn plan_view(plan: Result<TreeEdit, String>) -> Result<EditView, Seq<char>> {
    match plan {
        Ok(edit) => Ok(edit@),
        Err(message) => Err(message@),
    }
}

/// What an inserted node of this kind is made from.
pub open spec fn template_of(kind: NativeNodeKind) -> TemplateView {
    match kind {
        NativeNodeKind::Text => TemplateView::Text,
        NativeNodeKind::Button => TemplateView::Button,
        _ => TemplateView::Container(kind),
    }
}

/// A node that is dragged out of a layer list or the canvas.
#[derive(Debug)]
pub struct TreeNodeDrag {
    pub component_id: String,
    pub node_id: String,
    pub label: String,
}

// ---------------------------------------------------------------------------
// Planning
// ---------------------------------------------------------------------------

/// Whether the IDs of each component's nodes can be counted.
pub open spec fn countable(library: ComponentLibrary) -> bool {
    forall|i: int|
        0 <= i < library.components@.len() ==> components::node_ids(
            (#[trigger] library.components@[i]).root,
        ).len() < u32::MAX
}

impl Authoring {
    /// Inserting a new primitive at the selection.
    pub open spec fn insertion_plan(
        &self,
        kind: NativeNodeKind,
        new_id: Seq<char>,
        accepts_children: bool,
    ) -> Result<EditView, Seq<char>> {
        let label = edit_session::kind_label(kind);
        match self.active_component() {
            None => Err(
                "Insert "@ + label + " failed: "@ + "Open a component document to insert nodes"@,
            ),
            Some(id) => match self.library.lookup(id) {
                None => Err(
                    "Insert "@ + label + " failed: "@ + "The active component no longer exists"@,
                ),
                Some(component) => Ok(
                    EditView {
                        component_id: id,
                        done: "Inserted "@ + label,
                        failed: "Insert "@ + label,
                        command: CommandView::Insert {
                            node_id: new_id,
                            template: template_of(kind),
                            place: tree_edits::insertion_place(
                                component.root,
                                self.selection@.authored_id,
                                accepts_children,
                            ),
                        },
                        select: Some(new_id),
                    },
                ),
            },
        }
    }

    /// Inserts a new primitive at the selection: into it where it accepts children, else next
    /// to it. `new_id` is a fresh ID with the kind's prefix.
    pub fn insert_primitive_node(
        &self,
        kind: NativeNodeKind,
        new_id: &str,
        accepts_children: bool,
    ) -> (plan: Result<TreeEdit, String>)
        ensures
            plan_view(plan) == self.insertion_plan(kind, new_id@, accepts_children),
    {
        let names = edit_session::primitive_node(kind);
        let label = names.1;
        let id = match self.active_component_id() {
            None => {
                let failed = text::join3("Insert ", label, " failed: ");
                return Err(
                    text::join2(failed.as_str(), "Open a component document to insert nodes"),
                );
            },
            Some(id) => id,
        };
        let place = match self.library.component(id.as_str()) {
            None => {
                let failed = text::join3("Insert ", label, " failed: ");
                return Err(text::join2(failed.as_str(), "The active component no longer exists"));
            },
            Some(component) => tree_edits::insertion_target(
                &component.root,
                self.selection.authored_id.as_str(),
                accepts_children,
            ),
        };
        let template = match kind {
            NativeNodeKind::Text => NodeTemplate::Text,
            NativeNodeKind::Button => NodeTemplate::Button,
            _ => NodeTemplate::Container(kind),
        };
        Ok(
            TreeEdit {
                component_id: id,
                done: text::join2("Inserted ", label),
                failed: text::join2("Insert ", label),
                command: TreeCommand::Insert { node_id: new_id.to_owned(), template, place },
                select: Some(new_id.to_owned()),
            },
        )
    }

    /// Placing an instance of another component, at a given place or at the selection.
    pub open spec fn instance_plan(
        &self,
        referenced: Seq<char>,
        placement: Option<PlaceView>,
        cycles: bool,
        new_id: Seq<char>,
        accepts_children: bool,
    ) -> Result<EditView, Seq<char>> {
        match (self.active_component(), self.library.lookup(referenced)) {
            (None, _) => Err("Open a component document to place an instance"@),
            (Some(_), None) => Err("That component no longer exists"@),
            (Some(id), Some(component)) => {
                let name = component.name@;
                if cycles {
                    Err("Cannot place "@ + name + " here: it would create a component cycle"@)
                } else {
                    match self.library.lookup(id) {
                        None => Err(
                            "Place "@ + name + " failed: "@
                                + "The active component no longer exists"@,
                        ),
                        Some(host) => Ok(
                            EditView {
                                component_id: id,
                                done: "Placed "@ + name + " instance"@,
                                failed: "Place "@ + name,
                                command: CommandView::Insert {
                                    node_id: new_id,
                                    template: TemplateView::Instance(referenced),
                                    place: match placement {
                                        Some(place) => place,
                                        None => tree_edits::insertion_place(
                                            host.root,
                                            self.selection@.authored_id,
                                            accepts_children,
                                        ),
                                    },
                                },
                                select: Some(new_id),
                            },
                        ),
                    }
                }
            },
        }
    }

    /// Places an instance of another component, at a given place or at the selection; one
    /// that would contain itself is refused.
    pub fn insert_component_instance_at(
        &self,
        referenced_id: &str,
        placement: Option<TreePlace>,
        cycles: bool,
        new_id: &str,
        accepts_children: bool,
    ) -> (plan: Result<TreeEdit, String>)
        ensures
            plan_view(plan) == self.instance_plan(
                referenced_id@,
                tree_queries::place_view(placement),
                cycles,
                new_id@,
                accepts_children,
            ),
    {
        let id = match self.active_component_id() {
            None => return Err("Open a component document to place an instance".to_owned()),
            Some(id) => id,
        };
        let name = match self.library.component(referenced_id) {
            None => return Err("That component no longer exists".to_owned()),
            Some(component) => component.name.clone(),
        };
        if cycles {
            return Err(
                text::join3(
                    "Cannot place ",
                    name.as_str(),
                    " here: it would create a component cycle",
                ),
            );
        }
        let host = match self.library.component(id.as_str()) {
            None => {
                let failed = text::join3("Place ", name.as_str(), " failed: ");
                return Err(text::join2(failed.as_str(), "The active component no longer exists"));
            },
            Some(host) => host,
        };
        let place = match placement {
            Some(place) => place,
            None => tree_edits::insertion_target(
                &host.root,
                self.selection.authored_id.as_str(),
                accepts_children,
            ),
        };
        Ok(
            TreeEdit {
                component_id: id,
                done: text::join3("Placed ", name.as_str(), " instance"),
                failed: text::join2("Place ", name.as_str()),
                command: TreeCommand::Insert {
                    node_id: new_id.to_owned(),
                    template: NodeTemplate::Instance(referenced_id.to_owned()),
                    place,
                },
                select: Some(new_id.to_owned()),
            },
        )
    }

    /// Places an instance of another component where it was dropped on a layer row; nothing
    /// where no component is edited. `row_accepts` and `selection_accepts` tell whether the
    /// row and the selected node accept children.
    pub fn drop_palette_on_node(
        &self,
        referenced_id: &str,
        target_node: &str,
        cycles: bool,
        new_id: &str,
        row_accepts: bool,
        selection_accepts: bool,
    ) -> (plan: Option<Result<TreeEdit, String>>)
        ensures
            match self.active_component() {
                None => plan is None,
                Some(id) => plan is Some && plan_view(plan->0) == self.instance_plan(
                    referenced_id@,
                    match self.library.lookup(id) {
                        Some(component) => tree_edits::drop_place(
                            component.root,
                            None,
                            target_node@,
                            row_accepts,
                        ),
                        None => None,
                    },
                    cycles,
                    new_id@,
                    selection_accepts,
                ),
            },
    {
        match self.active_component_id() {
            None => None,
            Some(id) => {
                let placement = match self.library.component(id.as_str()) {
                    Some(component) => tree_edits::tree_drop_placement(
                        &component.root,
                        None,
                        target_node,
                        row_accepts,
                    ),
                    None => None,
                };
                Some(
                    self.insert_component_instance_at(
                        referenced_id,
                        placement,
                        cycles,
                        new_id,
                        selection_accepts,
                    ),
                )
            },
        }
    }

    /// Duplicates the selected node right behind it, under the first free copy name.
    pub fn duplicate_selected_node(&self) -> (plan: Result<TreeEdit, String>)
        requires
            countable(self.library),
        ensures
            match self.active_component() {
                None => plan_view(plan) == Err::<EditView, Seq<char>>(
                    "Open a component document to duplicate nodes"@,
                ),
                Some(id) => match self.library.lookup(id) {
                    None => plan_view(plan) == Err::<EditView, Seq<char>>(
                        "The active component no longer exists"@,
                    ),
                    Some(component) => {
                        let selected = self.selection@.authored_id;
                        match tree_queries::place_in(component.root, selected) {
                            None => plan_view(plan) == Err::<EditView, Seq<char>>(
                                "Select a non-root node to duplicate"@,
                            ),
                            Some(at) => plan matches Ok(edit) && edit.command
                                matches TreeCommand::Duplicate { id: copied, place, suffix } && {
                                &&& edit.component_id@ == id
                                &&& edit.done@ == "Duplicated node"@
                                &&& edit.failed@ == "Duplicate"@
                                &&& copied@ == selected
                                &&& place@ == (PlaceView {
                                    parent: at.parent,
                                    index: tree_edits::next_index(at.index),
                                })
                                &&& tree_edits::first_free_copy(
                                    components::node_ids(component.root),
                                    selected,
                                    suffix@,
                                )
                                &&& text::text_view(edit.select) == Some(selected + suffix@)
                            },
                        }
                    },
                },
            },
    {
        let id = match self.active_component_id() {
            None => return Err("Open a component document to duplicate nodes".to_owned()),
            Some(id) => id,
        };
        let selected = self.selection.authored_id.as_str();
        let component = match self.library.component(id.as_str()) {
            None => return Err("The active component no longer exists".to_owned()),
            Some(component) => component,
        };
        let at = match tree_queries::parent_and_index(&component.root, selected) {
            None => return Err("Select a non-root node to duplicate".to_owned()),
            Some(at) => at,
        };
        proof {
            keyed::lemma_first_key(self.library.components@, id@, 0);
        }
        let taken = components::component_node_ids(&component.root);
        let suffix = tree_edits::unique_copy_suffix(selected, &taken);
        let new_id = text::join2(selected, suffix.as_str());
        Ok(
            TreeEdit {
                component_id: id,
                done: "Duplicated node".to_owned(),
                failed: "Duplicate".to_owned(),
                command: TreeCommand::Duplicate {
                    id: selected.to_owned(),
                    place: tree_edits::after(at),
                    suffix,
                },
                select: Some(new_id),
            },
        )
    }

    /// Deleting the selected node; its parent is selected afterwards.
    pub open spec fn deletion_plan(&self) -> Result<EditView, Seq<char>> {
        let selected = self.selection@.authored_id;
        match self.active_component() {
            None => Err("Open a component document to delete nodes"@),
            Some(id) => if selected == "root"@ {
                Err("The component root cannot be deleted"@)
            } else {
                match self.library.lookup(id) {
                    None => Err("The active component no longer exists"@),
                    Some(component) => if !components::node_ids(component.root).contains(selected) {
                        Err("Nothing is selected to delete"@)
                    } else {
                        Ok(
                            EditView {
                                component_id: id,
                                done: "Deleted node"@,
                                failed: "Delete"@,
                                command: CommandView::Remove { id: selected },
                                select: match tree_queries::place_in(component.root, selected) {
                                    Some(at) => Some(at.parent),
                                    None => Some("root"@),
                                },
                            },
                        )
                    },
                }
            },
        }
    }

    /// Deletes the selected node.
    pub fn delete_selected_node(&self) -> (plan: Result<TreeEdit, String>)
        ensures
            plan_view(plan) == self.deletion_plan(),
    {
        let id = match self.active_component_id() {
            None => return Err("Open a component document to delete nodes".to_owned()),
            Some(id) => id,
        };
        let selected = self.selection.authored_id.as_str();
        if text::same_text(selected, "root") {
            return Err("The component root cannot be deleted".to_owned());
        }
        let component = match self.library.component(id.as_str()) {
            None => return Err("The active component no longer exists".to_owned()),
            Some(component) => component,
        };
        if !tree_queries::has_node(&component.root, selected) {
            return Err("Nothing is selected to delete".to_owned());
        }
        let parent = match tree_queries::parent_and_index(&component.root, selected) {
            Some(at) => at.parent,
            None => "root".to_owned(),
        };
        Ok(
            TreeEdit {
                component_id: id,
                done: "Deleted node".to_owned(),
                failed: "Delete".to_owned(),
                command: TreeCommand::Remove { id: selected.to_owned() },
                select: Some(parent),
            },
        )
    }

    /// Wrapping the selected node in a frame, which is selected afterwards.
    pub open spec fn wrapping_plan(&self, group_id: Seq<char>) -> Result<EditView, Seq<char>> {
        let selected = self.selection@.authored_id;
        match self.active_component() {
            None => Err("Open a component document to wrap nodes"@),
            Some(id) => if selected == "root"@ {
                Err("The component root cannot be wrapped"@)
            } else {
                match self.library.lookup(id) {
                    None => Err("The active component no longer exists"@),
                    Some(component) => if !components::node_ids(component.root).contains(selected) {
                        Err("Nothing is selected to wrap"@)
                    } else {
                        Ok(
                            EditView {
                                component_id: id,
                                done: "Wrapped in frame"@,
                                failed: "Wrap"@,
                                command: CommandView::Wrap { id: selected, group_id },
                                select: Some(group_id),
                            },
                        )
                    },
                }
            },
        }
    }

    /// Wraps the selected node in a frame; `group_id` is a fresh ID for it.
    pub fn wrap_selected_in_frame(&self, group_id: &str) -> (plan: Result<TreeEdit, String>)
        ensures
            plan_view(plan) == self.wrapping_plan(group_id@),
    {
        let id = match self.active_component_id() {
            None => return Err("Open a component document to wrap nodes".to_owned()),
            Some(id) => id,
        };
        let selected = self.selection.authored_id.as_str();
        if text::same_text(selected, "root") {
            return Err("The component root cannot be wrapped".to_owned());
        }
        let component = match self.library.component(id.as_str()) {
            None => return Err("The active component no longer exists".to_owned()),
            Some(component) => component,
        };
        if !tree_queries::has_node(&component.root, selected) {
            return Err("Nothing is selected to wrap".to_owned());
        }
        Ok(
            TreeEdit {
                component_id: id,
                done: "Wrapped in frame".to_owned(),
                failed: "Wrap".to_owned(),
                command: TreeCommand::Wrap {
                    id: selected.to_owned(),
                    group_id: group_id.to_owned(),
                },
                select: Some(group_id.to_owned()),
            },
        )
    }

    // -----------------------------------------------------------------------
    // Moving
    // -----------------------------------------------------------------------

    /// Whether a dragged node may drop onto a layer row: it is not the root nor the row's
    /// node, its component is the one being edited, and the row's node exists outside the
    /// dragged subtree.
    pub open spec fn may_drop(&self, drag: TreeNodeDrag, target: Seq<char>) -> bool {
        &&& drag.node_id@ != "root"@
        &&& drag.node_id@ != target
        &&& self.active_component() == Some(drag.component_id@)
        &&& match self.library.lookup(drag.component_id@) {
            Some(component) => components::node_ids(component.root).contains(target)
                && !tree_queries::lies_in(component.root, drag.node_id@, target),
            None => false,
        }
    }

    /// Whether a dragged node may drop onto a layer row.
    pub fn can_drop_tree_node(&self, drag: &TreeNodeDrag, target_node: &str) -> (result: bool)
        ensures
            result == self.may_drop(*drag, target_node@),
    {
        if text::same_text(drag.node_id.as_str(), "root") || text::same_text(
            drag.node_id.as_str(),
            target_node,
        ) {
            return false;
        }
        if !text::is_text(&self.active_component_id(), drag.component_id.as_str()) {
            return false;
        }
        match self.library.component(drag.component_id.as_str()) {
            Some(component) => tree_queries::has_node(&component.root, target_node)
                && !tree_queries::node_contains(
                &component.root,
                drag.node_id.as_str(),
                target_node,
            ),
            None => false,
        }
    }

    /// Moving a dragged node to where it was dropped on a layer row; it is selected
    /// afterwards.
    pub open spec fn row_drop_plan(
        &self,
        drag: TreeNodeDrag,
        target: Seq<char>,
        accepts_children: bool,
    ) -> Result<EditView, Seq<char>> {
        if !self.may_drop(drag, target) {
            Err("That move would break the component tree"@)
        } else {
            match tree_edits::drop_place(
                self.library.lookup(drag.component_id@)->0.root,
                Some(drag.node_id@),
                target,
                accepts_children,
            ) {
                None => Err("The drop target no longer exists"@),
                Some(place) => Ok(
                    EditView {
                        component_id: drag.component_id@,
                        done: "Moved "@ + drag.label@,
                        failed: "Move"@,
                        command: CommandView::Move { id: drag.node_id@, place },
                        select: Some(drag.node_id@),
                    },
                ),
            }
        }
    }

    /// Moves a dragged node to where it was dropped on a layer row.
    pub fn drop_tree_node(&self, drag: &TreeNodeDrag, target_node: &str, accepts_children: bool) -> (
        plan: Result<TreeEdit, String>)
        ensures
            plan_view(plan) == self.row_drop_plan(*drag, target_node@, accepts_children),
    {
        if !self.can_drop_tree_node(drag, target_node) {
            return Err("That move would break the component tree".to_owned());
        }
        let place = match self.library.component(drag.component_id.as_str()) {
            Some(component) => tree_edits::tree_drop_placement(
                &component.root,
                Some(drag.node_id.as_str()),
                target_node,
                accepts_children,
            ),
            None => None,
        };
        match place {
            None => Err("The drop target no longer exists".to_owned()),
            Some(place) => Ok(
                TreeEdit {
                    component_id: drag.component_id.clone(),
                    done: text::join2("Moved ", drag.label.as_str()),
                    failed: "Move".to_owned(),
                    command: TreeCommand::Move { id: drag.node_id.clone(), place },
                    select: Some(drag.node_id.clone()),
                },
            ),
        }
    }

    /// Moving a node to where it was dropped on the canvas: there has to be a container under
    /// the pointer, other than the node and outside its subtree.
    pub open spec fn canvas_drop_plan(
        &self,
        component_id: Seq<char>,
        node_id: Seq<char>,
        label: Seq<char>,
        place: Option<PlaceView>,
    ) -> Result<EditView, Seq<char>> {
        match place {
            None => Err("Drop over a container to move the node there"@),
            Some(place) => if place.parent == node_id || node_id == "root"@ {
                Err("A node cannot move into itself"@)
            } else {
                match self.library.lookup(component_id) {
                    None => Err("A node cannot move into its own subtree"@),
                    Some(component) => if tree_queries::lies_in(
                        component.root,
                        node_id,
                        place.parent,
                    ) {
                        Err("A node cannot move into its own subtree"@)
                    } else {
                        Ok(
                            EditView {
                                component_id,
                                done: "Moved "@ + label,
                                failed: "Move"@,
                                command: CommandView::Move { id: node_id, place },
                                select: None,
                            },
                        )
                    },
                }
            },
        }
    }

    /// Moves a dragged layer to where it was dropped on the canvas.
    pub fn drop_tree_node_at_canvas(&self, drag: &TreeNodeDrag, place: Option<TreePlace>) -> (plan:
        Result<TreeEdit, String>)
        ensures
            plan_view(plan) == self.canvas_drop_plan(
                drag.component_id@,
                drag.node_id@,
                drag.label@,
                tree_queries::place_view(place),
            ),
    {
        let place = match place {
            None => return Err("Drop over a container to move the node there".to_owned()),
            Some(place) => place,
        };
        if text::same_text(place.parent.as_str(), drag.node_id.as_str()) || text::same_text(
            drag.node_id.as_str(),
            "root",
        ) {
            return Err("A node cannot move into itself".to_owned());
        }
        let invalid = match self.library.component(drag.component_id.as_str()) {
            None => true,
            Some(component) => tree_queries::node_contains(
                &component.root,
                drag.node_id.as_str(),
                place.parent.as_str(),
            ),
        };
        if invalid {
            return Err("A node cannot move into its own subtree".to_owned());
        }
        Ok(
            TreeEdit {
                component_id: drag.component_id.clone(),
                done: text::join2("Moved ", drag.label.as_str()),
                failed: "Move".to_owned(),
                command: TreeCommand::Move { id: drag.node_id.clone(), place },
                select: None,
            },
        )
    }

    /// The stored node that a rendered node of a component belongs to.
    pub open spec fn stored_node(&self, component_id: Seq<char>, node_id: Seq<char>) -> Seq<char> {
        match self.library.lookup(component_id) {
            Some(component) => tree_edits::resolved_node(
                components::node_ids(component.root),
                node_id,
            ),
            None => node_id,
        }
    }

    /// Maps a rendered node back to the stored node it belongs to; clicks inside an expanded
    /// instance resolve to the instance, because the expansion's prefixed IDs are render-only.
    pub fn resolve_component_node(&self, component_id: &str, node_id: &str) -> (out: String)
        ensures
            out@ == self.stored_node(component_id@, node_id@),
    {
        match self.library.component(component_id) {
            Some(component) => tree_edits::resolve_node(
                &components::component_node_ids(&component.root),
                node_id,
            ),
            None => node_id.to_owned(),
        }
    }

    /// Moves a node that was dragged on the canvas to where it was dropped there.
    pub fn drop_component_node_at_canvas(
        &self,
        component_id: &str,
        node_id: &str,
        place: Option<TreePlace>,
    ) -> (plan: Result<TreeEdit, String>)
        ensures
            ({
                let stored = self.stored_node(component_id@, node_id@);
                plan_view(plan) == self.canvas_drop_plan(
                    component_id@,
                    stored,
                    stored,
                    tree_queries::place_view(place),
                )
            }),
    {
        let stored = self.resolve_component_node(component_id, node_id);
        let drag = TreeNodeDrag {
            component_id: component_id.to_owned(),
            node_id: stored.clone(),
            label: stored,
        };
        self.drop_tree_node_at_canvas(&drag, place)
    }
}

impl PointerState {
    /// Where a drop on the canvas lands: the pending drop is brought up to the drop point,
    /// keeping a nudge of its order, and its place is the one that counts.
    pub fn canvas_drop_placement(&mut self, target: Option<DragPreviewState>) -> (place: Option<
        TreePlace,
    >)
        ensures
            *final(self) == (PointerState {
                drag_preview: final(self).drag_preview,
                ..*old(self)
            }),
            match target {
                None => final(self).drag_preview is None && place is None,
                Some(target) => {
                    let carried = drag::carried_offset(old(self).drag_preview, target);
                    &&& final(self).drag_preview == (if old(self).drag_preview is Some && old(
                        self,
                    ).drag_preview->0.same(&carried) {
                        old(self).drag_preview
                    } else {
                        Some(carried)
                    })
                    &&& place is Some
                    &&& place->0.parent@ == carried.parent@
                    &&& place->0.index == carried.index()
                },
            },
    {
        drag::update_drag_preview(&mut self.drag_preview, target);
        match &self.drag_preview {
            Some(preview) => Some(
                TreePlace { parent: preview.parent.clone(), index: preview.effective_index() },
            ),
            None => None,
        }
    }

    /// Drops the pending drop. Tells whether there was one.
    pub fn clear_drag_preview(&mut self) -> (cleared: bool)
        ensures
            cleared == (old(self).drag_preview is Some),
            *final(self) == (PointerState { drag_preview: None, ..*old(self) }),
    {
        let cleared = self.drag_preview.is_some();
        self.drag_preview = None;
        cleared
    }
}

// ---------------------------------------------------------------------------
// Outcomes
// ---------------------------------------------------------------------------

/// A component graph that is kept for editing.
#[derive(Clone, Copy, Debug, PartialEq, Eq, Structural)]
pub struct KnownGraph {
    pub revision: u64,
    /// Whether its tree is the library's.
    pub current: bool,
}

/// What has to happen before a component graph is edited.
#[derive(Clone, Copy, Debug, PartialEq, Eq, Structural)]
pub enum GraphSync {
    Keep,
    /// A graph of the library's tree is made, at this revision.
    Rebuild(u64),
}

impl Authoring {
    /// Brings the kept graph of a component up to the library: one that is missing starts at
    /// the first revision, one that fell behind gets the next.
    pub fn synchronize_component_graph(&self, component_id: &str, known: Option<KnownGraph>) -> (
        result: Result<GraphSync, BridgeError>)
        ensures
            match self.library.lookup(component_id@) {
                None => result is Err && result->Err_0.says(
                    ErrorCode::NotFound,
                    "component was not found"@,
                ),
                Some(_) => result == Ok::<GraphSync, BridgeError>(
                    match known {
                        None => GraphSync::Rebuild(1),
                        Some(graph) => if graph.current {
                            GraphSync::Keep
                        } else if graph.revision == u64::MAX {
                            GraphSync::Rebuild(u64::MAX)
                        } else {
                            GraphSync::Rebuild((graph.revision + 1) as u64)
                        },
                    },
                ),
            },
    {
        if self.library.component(component_id).is_none() {
            return Err(BridgeError::new(ErrorCode::NotFound, "component was not found"));
        }
        match known {
            None => Ok(GraphSync::Rebuild(1)),
            Some(graph) => if graph.current {
                Ok(GraphSync::Keep)
            } else if graph.revision == u64::MAX {
                Ok(GraphSync::Rebuild(u64::MAX))
            } else {
                Ok(GraphSync::Rebuild(graph.revision + 1))
            },
        }
    }

    /// Whether this is the session after a component's tree was replaced: the library has the
    /// tree, the change waits to be saved, and what was painted of the selection is forgotten.
    pub open spec fn published(&self, before: Authoring, i: int, root: NativeNode) -> bool {
        &&& self.edited_at(Authoring { snapshot: None, ..before }, i)
        &&& self.library.components@[i] == (NativeComponent {
            root,
            ..before.library.components@[i]
        })
    }

    /// Publishes a changed tree of a component: the library gets it, the change waits to be
    /// saved, and the layer list opens anew; refused where the component is gone.
    pub fn publish_component_graph(
        &mut self,
        lists: &mut LayerLists,
        component_id: &str,
        root: NativeNode,
    ) -> (out: Result<String, BridgeError>)
        ensures
            match keyed::first_key(old(self).library.components@, component_id@, 0) {
                None => {
                    &&& out is Err
                    &&& out->Err_0.says(ErrorCode::NotFound, "component was not found"@)
                    &&& *final(self) == *old(self)
                    &&& *final(lists) == *old(lists)
                },
                Some(i) => {
                    &&& out is Ok
                    &&& out->Ok_0@ == "Component "@ + component_id@ + " live graph published"@
                    &&& final(self).published(*old(self), i, root)
                    &&& *final(lists) == (LayerLists { initialized_for: None, ..*old(lists) })
                },
            },
    {
        match keyed::find(&self.library.components, component_id) {
            None => Err(BridgeError::new(ErrorCode::NotFound, "component was not found")),
            Some(i) => {
                let mut component = self.library.components.remove(i);
                component.root = root;
                self.library.components.insert(i, component);
                self.pending = PendingEdits { dirty: true, quiet_ticks: 0 };
                lists.initialized_for = None;
                self.snapshot = None;
                proof {
                    assert(self.library.components@ =~= old(self).library.components@.update(
                        i as int,
                        component,
                    ));
                }
                Ok(text::join3("Component ", component_id, " live graph published"))
            },
        }
    }

    /// Takes over the tree that an edit led to and selects what the edit says; a failed edit
    /// changes nothing.
    pub fn finish_tree_edit(
        &mut self,
        lists: &mut LayerLists,
        edit: TreeEdit,
        applied: Result<NativeNode, String>,
    ) -> (status: String)
        ensures
            match (applied, keyed::first_key(old(self).library.components@, edit.component_id@, 0)) {
                (Err(error), _) => {
                    &&& status@ == edit.failed@ + " failed: "@ + error@
                    &&& *final(self) == *old(self)
                    &&& *final(lists) == *old(lists)
                },
                (Ok(_), None) => {
                    &&& status@ == edit.failed@ + " failed: "@ + "component was not found"@
                    &&& *final(self) == *old(self)
                    &&& *final(lists) == *old(lists)
                },
                (Ok(root), Some(i)) => {
                    &&& status@ == edit.done@ + " · live graph updated"@
                    &&& *final(lists) == (LayerLists { initialized_for: None, ..*old(lists) })
                    &&& (Authoring {
                        selection: old(self).selection,
                        ..*final(self)
                    }).published(*old(self), i, root)
                    &&& final(self).selection@ == (match edit.select {
                        Some(id) => studio::node_selection(edit.component_id@, id@),
                        None => old(self).selection@,
                    })
                },
            },
    {
        let root = match applied {
            Ok(root) => root,
            Err(error) => {
                return text::join3(edit.failed.as_str(), " failed: ", error.as_str());
            },
        };
        match self.publish_component_graph(lists, edit.component_id.as_str(), root) {
            Err(error) => text::join3(edit.failed.as_str(), " failed: ", error.message.as_str()),
            Ok(_) => {
                match &edit.select {
                    Some(id) => {
                        self.select_node(edit.component_id.as_str(), id.as_str());
                    },
                    None => {},
                }
                text::join2(edit.done.as_str(), " · live graph updated")
            },
        }
    }

    /// Takes over the tree that a change of the selected node led to.
    pub fn finish_node_change(
        &mut self,
        lists: &mut LayerLists,
        component_id: &str,
        description: &str,
        applied: Result<NativeNode, String>,
    ) -> (result: Result<String, String>)
        ensures
            match (applied, keyed::first_key(old(self).library.components@, component_id@, 0)) {
                (Err(error), _) => {
                    &&& result is Err
                    &&& result->Err_0@ == error@
                    &&& *final(self) == *old(self)
                    &&& *final(lists) == *old(lists)
                },
                (Ok(_), None) => {
                    &&& result is Err
                    &&& result->Err_0@ == "component was not found"@
                    &&& *final(self) == *old(self)
                    &&& *final(lists) == *old(lists)
                },
                (Ok(root), Some(i)) => {
                    &&& result is Ok
                    &&& result->Ok_0@ == description@ + " · live graph updated"@
                    &&& *final(lists) == (LayerLists { initialized_for: None, ..*old(lists) })
                    &&& final(self).published(*old(self), i, root)
                },
            },
    {
        let root = match applied {
            Ok(root) => root,
            Err(error) => return Err(error),
        };
        match self.publish_component_graph(lists, component_id, root) {
            Err(error) => Err(error.message),
            Ok(_) => Ok(text::join2(description, " · live graph updated")),
        }
    }

    /// The selected node of the edited component.
    pub open spec fn selected_node(&self) -> Option<NativeNode> {
        match self.active_component() {
            None => None,
            Some(id) => match self.library.lookup(id) {
                None => None,
                Some(component) => tree_queries::node_in(
                    component.root,
                    self.selection@.authored_id,
                ),
            },
        }
    }

    /// The selected node of the edited component.
    pub fn selected_component_node(&self) -> (node: Option<&NativeNode>)
        ensures
            match self.selected_node() {
                Some(n) => node is Some && *node->0 == n,
                None => node is None,
            },
    {
        match self.active_component_id() {
            None => None,
            Some(id) => match self.library.component(id.as_str()) {
                None => None,
                Some(component) => tree_queries::find_node(
                    &component.root,
                    self.selection.authored_id.as_str(),
                ),
            },
        }
    }

    /// What the inspector writes to: the selected node, without what is below it.
    pub fn inspector_target(&self) -> (target: InspectorTarget)
        ensures
            match (self.active_component(), self.selected_node()) {
                (None, _) => target is NoComponent,
                (Some(_), None) => target is NoNode,
                (Some(_), Some(node)) => target.node() == Some(node@),
            },
    {
        if self.active_component_id().is_none() {
            return InspectorTarget::NoComponent;
        }
        match self.selected_component_node() {
            None => InspectorTarget::NoNode,
            Some(node) => InspectorTarget::Node(node.detached()),
        }
    }

    // -----------------------------------------------------------------------
    // Removing components
    // -----------------------------------------------------------------------

    /// Removes a component, given the library without it or why it stays, and the document and
    /// selection that take the place of its own where that was open. What is left is to save
    /// the library.
    pub fn remove_component_checked(
        &mut self,
        component_id: &str,
        removed: Result<ComponentLibrary, String>,
        restored: Option<(DocumentId, ElementSelection)>,
    ) -> (result: Result<RemovedComponent, String>)
        ensures
            match removed {
                Err(refusal) => {
                    &&& result is Err
                    &&& result->Err_0 == refusal
                    &&& *final(self) == *old(self)
                },
                Ok(library) => {
                    &&& result is Ok
                    &&& result->Ok_0.name@ == old(self).display_name(component_id@)
                    &&& final(self).runtime@ == keyed::without(old(self).runtime@, component_id@)
                    &&& final(self).pending == old(self).pending
                    &&& final(self).snapshot == old(self).snapshot
                    &&& final(self).library == (ComponentLibrary {
                        active_component: final(self).library.active_component,
                        ..library
                    })
                    &&& match restored {
                        None => {
                            &&& result->Ok_0.closed is None
                            &&& final(self).selection == old(self).selection
                            &&& final(self).active_document == old(self).active_document
                            &&& final(self).library == library
                        },
                        Some((document, selection)) => {
                            &&& text::text_view(result->Ok_0.closed) == Some(
                                "Closed "@ + final(self).display_name(component_id@)
                                    + " · active document restored"@,
                            )
                            &&& final(self).selection == selection
                            &&& final(self).active_document == document
                            &&& final(self).library.active_component@ == (
                            match final(self).active_component() {
                                Some(component) => component,
                                None => library.active_component@,
                            })
                        },
                    }
                },
            },
    {
        let library = match removed {
            Err(refusal) => return Err(refusal),
            Ok(library) => library,
        };
        let name = self.component_display_name(component_id);
        self.library = library;
        let closed = self.close_component_document(component_id, restored);
        self.forget_component(component_id);
        Ok(RemovedComponent { name, closed })
    }
}

/// A component that was removed from the library.
#[derive(Debug)]
pub struct RemovedComponent {
    pub name: String,
    /// How people are told that its document closed, where it was open.
    pub closed: Option<String>,
}

/// The name of a removed component once the library was saved, or why it was not.
pub fn finish_removal(removed: RemovedComponent, saved: Result<(), String>) -> (result: Result<
    String,
    String,
>)
    ensures
        match saved {
            Ok(()) => result == Ok::<String, String>(removed.name),
            Err(error) => result is Err && result->Err_0@ == "Deleted "@ + removed.name@
                + " but saving failed: "@ + error@,
        },
{
    match saved {
        Ok(()) => Ok(removed.name),
        Err(error) => {
            let mut message = text::join3(
                "Deleted ",
                removed.name.as_str(),
                " but saving failed: ",
            );
            message.append(error.as_str());
            Err(message)
        },
    }
}

/// How people are told of a removed component.
pub fn delete_component(removed: &Result<String, String>) -> (status: String)
    ensures
        status@ == (match *removed {
            Ok(name) => "Deleted "@ + name@,
            Err(error) => error@,
        }),
{
    match removed {
        Ok(name) => text::join2("Deleted ", name.as_str()),
        Err(error) => error.clone(),
    }
}

// ---------------------------------------------------------------------------
// Laws
// ---------------------------------------------------------------------------

/// A planned move on the canvas never leads into the moved node's own subtree.
pub proof fn law_moves_keep_the_tree(
    authoring: Authoring,
    component_id: Seq<char>,
    node_id: Seq<char>,
    label: Seq<char>,
    place: Option<PlaceView>,
)
    requires
        authoring.canvas_drop_plan(component_id, node_id, label, place) is Ok,
    ensures
        node_id != "root"@,
        place is Some,
        !tree_queries::lies_in(
            authoring.library.lookup(component_id)->0.root,
            node_id,
            place->0.parent,
        ),
{
}

/// The root of a component is never deleted, wrapped or moved.
pub proof fn law_root_stays(authoring: Authoring, drag: TreeNodeDrag, target: Seq<char>, group_id: Seq<char>)
    requires
        authoring.selection@.authored_id == "root"@,
        drag.node_id@ == "root"@,
    ensures
        authoring.deletion_plan() is Err,
        authoring.wrapping_plan(group_id) is Err,
        forall|accepts: bool| authoring.row_drop_plan(drag, target, accepts) is Err,
        forall|place: Option<PlaceView>|
            authoring.canvas_drop_plan(drag.component_id@, drag.node_id@, drag.label@, place)
                is Err,
{
}

/// The first component with an ID is the one that the library knows under it.
proof fn lemma_known(library: ComponentLibrary, i: int)
    requires
        0 <= i < library.components@.len(),
        forall|j: int|
            0 <= j < i ==> #[trigger] library.components@[j].id@ != library.components@[i].id@,
    ensures
        library.lookup(library.components@[i].id@) == Some(library.components@[i]),
{
    keyed::lemma_first_key(library.components@, library.components@[i].id@, 0);
}

/// While a component of the library is edited, a new node can always be inserted: a text as a
/// text, a button as a button and everything else as a container of its kind, at the selection.
/// The new node is selected afterwards.
pub proof fn law_insertions_are_planned_at_the_selection(
    authoring: Authoring,
    i: int,
    kind: NativeNodeKind,
    new_id: Seq<char>,
    accepts_children: bool,
)
    requires
        0 <= i < authoring.library.components@.len(),
        forall|j: int|
            0 <= j < i ==> #[trigger] authoring.library.components@[j].id@
                != authoring.library.components@[i].id@,
        authoring.active_component() == Some(authoring.library.components@[i].id@),
    ensures
        ({
            let plan = authoring.insertion_plan(kind, new_id, accepts_children);
            &&& plan is Ok
            &&& plan->Ok_0.component_id == authoring.library.components@[i].id@
            &&& plan->Ok_0.select == Some(new_id)
            &&& plan->Ok_0.command matches CommandView::Insert { node_id, template, place }
                && node_id == new_id && place == tree_edits::insertion_place(
                authoring.library.components@[i].root,
                authoring.selection@.authored_id,
                accepts_children,
            ) && (kind is Text ==> template is Text) && (kind is Button ==> template is Button) && (
            !(kind is Text) && !(kind is Button) ==> template == TemplateView::Container(kind))
        }),
{
    lemma_known(authoring.library, i);
}

/// An instance of a known component is placed where it was dropped, or else at the selection,
/// unless that would close a cycle of components; it is selected afterwards.
pub proof fn law_instances_are_placed_without_cycles(
    authoring: Authoring,
    i: int,
    k: int,
    placement: Option<PlaceView>,
    cycles: bool,
    new_id: Seq<char>,
    accepts_children: bool,
)
    requires
        0 <= i < authoring.library.components@.len(),
        forall|j: int|
            0 <= j < i ==> #[trigger] authoring.library.components@[j].id@
                != authoring.library.components@[i].id@,
        authoring.active_component() == Some(authoring.library.components@[i].id@),
        0 <= k < authoring.library.components@.len(),
        forall|j: int|
            0 <= j < k ==> #[trigger] authoring.library.components@[j].id@
                != authoring.library.components@[k].id@,
    ensures
        ({
            let part = authoring.library.components@[k];
            let plan = authoring.instance_plan(
                part.id@,
                placement,
                cycles,
                new_id,
                accepts_children,
            );
            &&& plan is Ok <==> !cycles
            &&& cycles ==> plan->Err_0 == "Cannot place "@ + part.name@
                + " here: it would create a component cycle"@
            &&& plan is Ok ==> {
                &&& plan->Ok_0.component_id == authoring.library.components@[i].id@
                &&& plan->Ok_0.select == Some(new_id)
                &&& plan->Ok_0.command matches CommandView::Insert { node_id, template, place }
                    && node_id == new_id && template == TemplateView::Instance(part.id@) && (
                placement is Some ==> place == placement->0) && (placement is None ==> place
                    == tree_edits::insertion_place(
                    authoring.library.components@[i].root,
                    authoring.selection@.authored_id,
                    accepts_children,
                ))
            }
        }),
{
    lemma_known(authoring.library, i);
    lemma_known(authoring.library, k);
}

/// Every selected node but the root can be deleted and wrapped, and nothing else can. After a
/// deletion the parent is selected, after wrapping the new frame.
pub proof fn law_selected_nodes_are_deleted_and_wrapped(
    authoring: Authoring,
    i: int,
    group_id: Seq<char>,
)
    requires
        0 <= i < authoring.library.components@.len(),
        forall|j: int|
            0 <= j < i ==> #[trigger] authoring.library.components@[j].id@
                != authoring.library.components@[i].id@,
        authoring.active_component() == Some(authoring.library.components@[i].id@),
    ensures
        ({
            let root = authoring.library.components@[i].root;
            let selected = authoring.selection@.authored_id;
            let deletion = authoring.deletion_plan();
            let wrapping = authoring.wrapping_plan(group_id);
            let allowed = selected != "root"@ && components::node_ids(root).contains(selected);
            &&& deletion is Ok <==> allowed
            &&& wrapping is Ok <==> allowed
            &&& allowed ==> {
                &&& deletion->Ok_0.component_id == authoring.library.components@[i].id@
                &&& deletion->Ok_0.command == (CommandView::Remove { id: selected })
                &&& tree_queries::place_in(root, selected) matches Some(at)
                    ==> deletion->Ok_0.select == Some(at.parent)
                &&& tree_queries::place_in(root, selected) is None ==> deletion->Ok_0.select
                    == Some("root"@)
                &&& wrapping->Ok_0.component_id == authoring.library.components@[i].id@
                &&& wrapping->Ok_0.command == (CommandView::Wrap { id: selected, group_id })
                &&& wrapping->Ok_0.select == Some(group_id)
            }
            &&& selected == "root"@ ==> deletion->Err_0 == "The component root cannot be deleted"@
                && wrapping->Err_0 == "The component root cannot be wrapped"@
            &&& selected != "root"@ && !allowed ==> deletion->Err_0
                == "Nothing is selected to delete"@ && wrapping->Err_0
                == "Nothing is selected to wrap"@
        }),
{
    lemma_known(authoring.library, i);
}

/// A node of the edited component, other than the root, moves onto every row of the tree outside
/// its own subtree, to where the row says, and stays selected; a node of another component does
/// not move.
pub proof fn law_rows_take_nodes_from_outside(
    authoring: Authoring,
    i: int,
    drag: TreeNodeDrag,
    target: Seq<char>,
    accepts_children: bool,
)
    requires
        0 <= i < authoring.library.components@.len(),
        forall|j: int|
            0 <= j < i ==> #[trigger] authoring.library.components@[j].id@
                != authoring.library.components@[i].id@,
        drag.component_id@ == authoring.library.components@[i].id@,
    ensures
        ({
            let root = authoring.library.components@[i].root;
            let plan = authoring.row_drop_plan(drag, target, accepts_children);
            let place = tree_edits::drop_place(
                root,
                Some(drag.node_id@),
                target,
                accepts_children,
            );
            let allowed = drag.node_id@ != "root"@ && drag.node_id@ != target
                && authoring.active_component() == Some(drag.component_id@)
                && components::node_ids(root).contains(target) && !tree_queries::lies_in(
                root,
                drag.node_id@,
                target,
            );
            &&& authoring.may_drop(drag, target) <==> allowed
            &&& plan is Ok <==> allowed && place is Some
            &&& plan is Ok ==> {
                &&& plan->Ok_0.component_id == drag.component_id@
                &&& plan->Ok_0.command == (CommandView::Move { id: drag.node_id@, place: place->0 })
                &&& plan->Ok_0.select == Some(drag.node_id@)
                &&& plan->Ok_0.done == "Moved "@ + drag.label@
            }
            &&& !allowed ==> plan->Err_0 == "That move would break the component tree"@
        }),
{
    lemma_known(authoring.library, i);
}

/// A node dropped on the canvas moves to the place under the pointer as it stands; without a
/// place, onto itself or into its own subtree it does not move.
pub proof fn law_canvas_drops_go_under_the_pointer(
    authoring: Authoring,
    i: int,
    node_id: Seq<char>,
    label: Seq<char>,
    place: Option<PlaceView>,
)
    requires
        0 <= i < authoring.library.components@.len(),
        forall|j: int|
            0 <= j < i ==> #[trigger] authoring.library.components@[j].id@
                != authoring.library.components@[i].id@,
    ensures
        ({
            let part = authoring.library.components@[i];
            let plan = authoring.canvas_drop_plan(part.id@, node_id, label, place);
            &&& plan is Ok <==> place is Some && place->0.parent != node_id && node_id != "root"@
                && !tree_queries::lies_in(part.root, node_id, place->0.parent)
            &&& plan is Ok ==> plan->Ok_0.component_id == part.id@ && plan->Ok_0.command == (
            CommandView::Move { id: node_id, place: place->0 }) && plan->Ok_0.select is None
                && plan->Ok_0.done == "Moved "@ + label
        }),
{
    lemma_known(authoring.library, i);
}

/// Publishing a tree replaces the tree of one component and nothing else of the library; the
/// selection stays, what was painted of it is forgotten, and the change waits to be saved.
pub proof fn law_publishing_replaces_one_tree(
    before: Authoring,
    after: Authoring,
    i: int,
    root: NativeNode,
    k: int,
)
    requires
        after.published(before, i, root),
        0 <= i < before.library.components@.len(),
        0 <= k < before.library.components@.len(),
    ensures
        after.library.components@.len() == before.library.components@.len(),
        after.library.components@[i].root == root,
        after.library.components@[k].id == before.library.components@[k].id,
        after.library.components@[k].props == before.library.components@[k].props,
        after.library.components@[k].states == before.library.components@[k].states,
        after.library.components@[k].logic == before.library.components@[k].logic,
        k != i ==> after.library.components@[k] == before.library.components@[k],
        after.library.active_component == before.library.active_component,
        after.library.tokens == before.library.tokens,
        after.selection == before.selection,
        after.snapshot is None,
        after.pending.dirty,
        after.pending.quiet_ticks == 0,
        after.active_document == before.active_document,
{
}

/// The selected node is looked for in the edited component.
pub proof fn law_selected_node_is_of_the_edited_component(authoring: Authoring, i: int)
    requires
        0 <= i < authoring.library.components@.len(),
        forall|j: int|
            0 <= j < i ==> #[trigger] authoring.library.components@[j].id@
                != authoring.library.components@[i].id@,
        authoring.active_component() == Some(authoring.library.components@[i].id@),
    ensures
        authoring.selected_node() == tree_queries::node_in(
            authoring.library.components@[i].root,
            authoring.selection@.authored_id,
        ),
        forall|node_id: Seq<char>|
            components::node_ids(authoring.library.components@[i].root).contains(node_id)
                ==> #[trigger] authoring.stored_node(
                authoring.library.components@[i].id@,
                node_id,
            ) == node_id,
{
    lemma_known(authoring.library, i);
}

} // verus!
