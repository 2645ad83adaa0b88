//! The rows of the layer lists: what each shows, and how the keyboard moves through them.
use vstd::prelude::*;

use crate::annotations;
use crate::annotations::{AnnotationStore, AnnotationView};
use crate::components::{ComponentLibrary, NativeComponent, NativeNode, NativeNodeKind};
use crate::identifiers;
use crate::keyed;
use crate::studio;
use crate::text;
use crate::text_set::TextSet;

verus! {

// ---------------------------------------------------------------------------
// Component layers
// ---------------------------------------------------------------------------

/// The runtime IDs of the nodes of a tree that have children.
pub open spec fn expandable_ids(component_id: Seq<char>, node: NativeNode) -> Set<Seq<char>>
    decreases node,
{
    let below = expandable_forest(component_id, node.children@);
    if node.children@.len() > 0 {
        below.insert(studio::component_runtime_id(component_id, node.id@))
    } else {
        below
    }
}

/// The runtime IDs of the nodes of a row of trees that have children.
pub open spec fn expandable_forest(component_id: Seq<char>, nodes: Seq<NativeNode>) -> Set<
    Seq<char>,
>
    decreases nodes,
{
    if nodes.len() == 0 {
        Set::empty()
    } else {
        expandable_forest(component_id, nodes.drop_last()).union(
            expandable_ids(component_id, nodes.last()),
        )
    }
}

/// Adds the nodes of a tree that have children to `output`.
pub fn collect_expandable_component_nodes(
    component_id: &str,
    node: &NativeNode,
    output: &mut TextSet,
)
    requires
        old(output).wf(),
    ensures
        final(output).wf(),
        final(output)@ == old(output)@.union(expandable_ids(component_id@, *node)),
    decreases node,
{
    let ghost before = output@;
    if node.children.len() > 0 {
        let id = studio::runtime_id_of(component_id, node.id.as_str());
        output.insert(id.as_str());
    }
    let ghost own = output@;
    let mut i: usize = 0;
    proof {
        assert(node.children@.take(0) =~= Seq::<NativeNode>::empty());
        assert(output@ =~= own.union(
            expandable_forest(component_id@, node.children@.take(0)),
        ));
    }
    while i < node.children.len()
        invariant
            i <= node.children.len(),
            output.wf(),
            output@ == own.union(
                expandable_forest(component_id@, node.children@.take(i as int)),
            ),
        decreases node.children.len() - i,
    {
        collect_expandable_component_nodes(component_id, &node.children[i], output);
        proof {
            let taken = node.children@.take(i as int + 1);
            assert(taken.drop_last() =~= node.children@.take(i as int));
            assert(taken.last() == node.children@[i as int]);
            assert(output@ =~= own.union(expandable_forest(component_id@, taken)));
        }
        i += 1;
    }
    proof {
        assert(node.children@.take(i as int) =~= node.children@);
        assert(output@ =~= before.union(expandable_ids(component_id@, *node)));
    }
}

/// What the rows of a component's layers depend on.
pub struct RowContext {
    pub component_id: Seq<char>,
    pub selected: Seq<char>,
    pub expanded: Set<Seq<char>>,
    pub components: Seq<NativeComponent>,
    pub annotations: Seq<AnnotationView>,
}

/// The label of a node: the start of a text, the name of an instance's component, and else
/// the node's type-like name.
pub open spec fn node_label(node: NativeNode, components: Seq<NativeComponent>) -> Seq<char> {
    match node.kind {
        NativeNodeKind::Text => {
            let shown = match node.text {
                Some(text) => if text@.len() > 32 {
                    text@.take(32)
                } else {
                    text@
                },
                None => Seq::empty(),
            };
            if shown.len() > 0 {
                shown
            } else {
                identifiers::authored_name_of(node.id@)
            }
        },
        NativeNodeKind::Instance => match node.instance_of {
            Some(id) => match keyed::first_key(components, id@, 0) {
                Some(i) => components[i].name@,
                None => identifiers::authored_name_of(node.id@),
            },
            None => identifiers::authored_name_of(node.id@),
        },
        _ => identifiers::authored_name_of(node.id@),
    }
}

/// The icon of a kind of node.
pub open spec fn node_icon_text(kind: NativeNodeKind) -> Seq<char> {
    match kind {
        NativeNodeKind::Text => "text.svg"@,
        NativeNodeKind::Button => "button.svg"@,
        NativeNodeKind::Instance => "instance.svg"@,
        NativeNodeKind::Row => "row.svg"@,
        NativeNodeKind::Column => "column.svg"@,
        NativeNodeKind::Grid => "grid.svg"@,
        NativeNodeKind::Stack | NativeNodeKind::Titlebar => "frame.svg"@,
    }
}

/// The icon of a kind of node.
pub fn node_icon(kind: NativeNodeKind) -> (out: &'static str)
    ensures
        out@ == node_icon_text(kind),
{
    match kind {
        NativeNodeKind::Text => "text.svg",
        NativeNodeKind::Button => "button.svg",
        NativeNodeKind::Instance => "instance.svg",
        NativeNodeKind::Row => "row.svg",
        NativeNodeKind::Column => "column.svg",
        NativeNodeKind::Grid => "grid.svg",
        NativeNodeKind::Stack | NativeNodeKind::Titlebar => "frame.svg",
    }
}

/// One row of a component's layers.
#[derive(Debug)]
pub struct ComponentTreeRow {
    pub node_id: String,
    pub target_id: String,
    pub label: String,
    pub icon: &'static str,
    pub depth: u16,
    pub selected: bool,
    pub expandable: bool,
    pub expanded: bool,
    /// Whether an active annotation is on the node.
    pub annotated: bool,
    /// Whether the row can be dragged: every node but the root can.
    pub draggable: bool,
}

/// What a row shows.
#[verifier::ext_equal]
pub struct RowView {
    pub node_id: Seq<char>,
    pub target_id: Seq<char>,
    pub label: Seq<char>,
    pub icon: Seq<char>,
    pub depth: u16,
    pub selected: bool,
    pub expandable: bool,
    pub expanded: bool,
    pub annotated: bool,
    pub draggable: bool,
}

impl View for ComponentTreeRow {
    type V = RowView;

    open spec fn view(&self) -> RowView {
        RowView {
            node_id: self.node_id@,
            target_id: self.target_id@,
            label: self.label@,
            icon: self.icon@,
            depth: self.depth,
            selected: self.selected,
            expandable: self.expandable,
            expanded: self.expanded,
            annotated: self.annotated,
            draggable: self.draggable,
        }
    }
}

/// The row of one node.
pub open spec fn row_of(cx: RowContext, node: NativeNode, depth: u16) -> RowView {
    let target = studio::component_runtime_id(cx.component_id, node.id@);
    RowView {
        node_id: node.id@,
        target_id: target,
        label: node_label(node, cx.components),
        icon: node_icon_text(node.kind),
        depth,
        selected: cx.selected == target,
        expandable: node.children@.len() > 0,
        expanded: node.children@.len() > 0 && cx.expanded.contains(target),
        annotated: annotations::latest_active(cx.annotations, target) is Some,
        draggable: node.id@ != "root"@,
    }
}

/// One level deeper, kept within the range of its type.
pub open spec fn deeper(depth: u16) -> u16 {
    if depth == u16::MAX {
        u16::MAX
    } else {
        (depth + 1) as u16
    }
}

/// The rows of a node and, where it is expanded, of everything below it.
pub open spec fn rows_of(cx: RowContext, node: NativeNode, depth: u16) -> Seq<RowView>
    decreases node,
{
    let row = row_of(cx, node, depth);
    let below = forest_rows(cx, node.children@, deeper(depth));
    if row.expanded {
        seq![row] + below
    } else {
        seq![row]
    }
}

/// The rows of a row of trees.
pub open spec fn forest_rows(cx: RowContext, nodes: Seq<NativeNode>, depth: u16) -> Seq<RowView>
    decreases nodes,
{
    if nodes.len() == 0 {
        Seq::empty()
    } else {
        forest_rows(cx, nodes.drop_last(), depth) + rows_of(cx, nodes.last(), depth)
    }
}

/// The views of a list of rows.
pub open spec fn row_views(rows: Seq<ComponentTreeRow>) -> Seq<RowView> {
    Seq::new(rows.len(), |i: int| rows[i]@)
}

fn label_of(node: &NativeNode, library: &ComponentLibrary) -> (out: String)
    ensures
        out@ == node_label(*node, library.components@),
{
    match node.kind {
        NativeNodeKind::Text => {
            match &node.text {
                Some(shown) => {
                    let count: usize = shown.as_str().unicode_len();
                    let end: usize = if count > 32 {
                        32
                    } else {
                        count
                    };
                    let start = shown.as_str().substring_char(0, end).to_owned();
                    proof {
                        assert(start@ =~= (if shown@.len() > 32 {
                            shown@.take(32)
                        } else {
                            shown@
                        }));
                    }
                    if end > 0 {
                        return start;
                    }
                },
                None => {},
            }
            identifiers::authored_name(node.id.as_str())
        },
        NativeNodeKind::Instance => {
            match &node.instance_of {
                Some(id) => {
                    match library.component(id.as_str()) {
                        Some(component) => {
                            return component.name.clone();
                        },
                        None => {},
                    }
                },
                None => {},
            }
            identifiers::authored_name(node.id.as_str())
        },
        _ => identifiers::authored_name(node.id.as_str()),
    }
}

/// The context of the rows of a component's layers.
pub open spec fn context_of(
    component_id: Seq<char>,
    selected: Seq<char>,
    expanded: TextSet,
    library: ComponentLibrary,
    store: AnnotationStore,
) -> RowContext {
    RowContext {
        component_id,
        selected,
        expanded: expanded@,
        components: library.components@,
        annotations: store@.annotations,
    }
}

/// Appends the row of a node and, where it is expanded, the rows below it.
pub fn append_component_tree_row(
    rows: &mut Vec<ComponentTreeRow>,
    component_id: &str,
    selected: &str,
    expanded: &TextSet,
    library: &ComponentLibrary,
    store: &AnnotationStore,
    node: &NativeNode,
    depth: u16,
)
    ensures
        row_views(final(rows)@) == row_views(old(rows)@) + rows_of(
            context_of(component_id@, selected@, *expanded, *library, *store),
            *node,
            depth,
        ),
    decreases node,
{
    let ghost cx = context_of(component_id@, selected@, *expanded, *library, *store);
    let ghost before = rows@;
    let target_id = studio::runtime_id_of(component_id, node.id.as_str());
    let expandable = node.children.len() > 0;
    let open = expandable && expanded.contains(target_id.as_str());
    let row = ComponentTreeRow {
        label: label_of(node, library),
        icon: node_icon(node.kind),
        depth,
        selected: text::same_text(selected, target_id.as_str()),
        expandable,
        expanded: open,
        annotated: store.latest_active_for_target(target_id.as_str()).is_some(),
        draggable: !text::same_text(node.id.as_str(), "root"),
        node_id: node.id.clone(),
        target_id,
    };
    proof {
        assert(row@ == row_of(cx, *node, depth));
    }
    rows.push(row);
    proof {
        assert(row_views(rows@) =~= row_views(before) + seq![row@]);
    }
    if open {
        let next: u16 = if depth == u16::MAX {
            depth
        } else {
            depth + 1
        };
        let mut i: usize = 0;
        proof {
            assert(node.children@.take(0) =~= Seq::<NativeNode>::empty());
            assert(row_views(rows@) =~= row_views(before) + seq![row@] + forest_rows(
                cx,
                node.children@.take(0),
                next,
            ));
        }
        while i < node.children.len()
            invariant
                i <= node.children.len(),
                cx == context_of(component_id@, selected@, *expanded, *library, *store),
                row_views(rows@) == row_views(before) + seq![row@] + forest_rows(
                    cx,
                    node.children@.take(i as int),
                    next,
                ),
            decreases node.children.len() - i,
        {
            append_component_tree_row(
                rows,
                component_id,
                selected,
                expanded,
                library,
                store,
                &node.children[i],
                next,
            );
            proof {
                let taken = node.children@.take(i as int + 1);
                assert(taken.drop_last() =~= node.children@.take(i as int));
                assert(taken.last() == node.children@[i as int]);
                assert(row_views(rows@) =~= row_views(before) + seq![row@] + forest_rows(
                    cx,
                    taken,
                    next,
                ));
            }
            i += 1;
        }
        proof {
            assert(node.children@.take(i as int) =~= node.children@);
            assert(row_views(rows@) =~= row_views(before) + rows_of(cx, *node, depth));
        }
    }
}

/// The rows of a component's layers: those of the children of its root, two levels in.
pub fn component_tree_rows(
    component_id: &str,
    root: &NativeNode,
    selected: &str,
    expanded: &TextSet,
    library: &ComponentLibrary,
    store: &AnnotationStore,
) -> (rows: Vec<ComponentTreeRow>)
    ensures
        row_views(rows@) == forest_rows(
            context_of(component_id@, selected@, *expanded, *library, *store),
            root.children@,
            2,
        ),
{
    let ghost cx = context_of(component_id@, selected@, *expanded, *library, *store);
    let mut rows: Vec<ComponentTreeRow> = Vec::new();
    let mut i: usize = 0;
    proof {
        assert(root.children@.take(0) =~= Seq::<NativeNode>::empty());
        assert(row_views(rows@) =~= forest_rows(cx, root.children@.take(0), 2));
    }
    while i < root.children.len()
        invariant
            i <= root.children.len(),
            cx == context_of(component_id@, selected@, *expanded, *library, *store),
            row_views(rows@) == forest_rows(cx, root.children@.take(i as int), 2),
        decreases root.children.len() - i,
    {
        append_component_tree_row(
            &mut rows,
            component_id,
            selected,
            expanded,
            library,
            store,
            &root.children[i],
            2,
        );
        proof {
            let taken = root.children@.take(i as int + 1);
            assert(taken.drop_last() =~= root.children@.take(i as int));
            assert(taken.last() == root.children@[i as int]);
        }
        i += 1;
    }
    proof {
        assert(root.children@.take(i as int) =~= root.children@);
    }
    rows
}

/// A collapsed node shows one row, whatever is below it.
pub proof fn law_collapsed_node_shows_one_row(cx: RowContext, node: NativeNode, depth: u16)
    requires
        !cx.expanded.contains(studio::component_runtime_id(cx.component_id, node.id@)),
    ensures
        rows_of(cx, node, depth).len() == 1,
{
}

proof fn lemma_row_counts(cx: RowContext, node: NativeNode, depth: u16, all: Set<Seq<char>>)
    requires
        cx.expanded == all,
        expandable_ids(cx.component_id, node).subset_of(all),
    ensures
        rows_of(cx, node, depth).len() == crate::components::node_ids(node).len(),
    decreases node,
{
    lemma_forest_counts(cx, node.children@, deeper(depth), all);
    if node.children@.len() > 0 {
        assert(expandable_ids(cx.component_id, node).contains(
            studio::component_runtime_id(cx.component_id, node.id@),
        ));
    } else {
        assert(node.children@ =~= Seq::<NativeNode>::empty());
    }
}

proof fn lemma_forest_counts(
    cx: RowContext,
    nodes: Seq<NativeNode>,
    depth: u16,
    all: Set<Seq<char>>,
)
    requires
        cx.expanded == all,
        expandable_forest(cx.component_id, nodes).subset_of(all),
    ensures
        forest_rows(cx, nodes, depth).len() == crate::components::forest_ids(nodes).len(),
    decreases nodes,
{
    if nodes.len() > 0 {
        lemma_forest_counts(cx, nodes.drop_last(), depth, all);
        lemma_row_counts(cx, nodes.last(), depth, all);
    }
}

/// With every node that has children expanded, each node of a tree shows one row.
pub proof fn law_expanded_tree_shows_every_node(cx: RowContext, node: NativeNode, depth: u16)
    requires
        expandable_ids(cx.component_id, node).subset_of(cx.expanded),
    ensures
        rows_of(cx, node, depth).len() == crate::components::node_ids(node).len(),
{
    lemma_row_counts(cx, node, depth, cx.expanded);
}

// ---------------------------------------------------------------------------
// Page layers
// ---------------------------------------------------------------------------

/// What a page layer is.
#[derive(Clone, Copy, Debug, PartialEq, Eq, Structural)]
pub enum LayerKind {
    Component,
    Control,
    Text,
    Frame,
    Image,
}

/// One visible page layer.
#[derive(Debug)]
pub struct LayerRow {
    pub runtime_id: String,
    pub authored_id: String,
    pub label: String,
    pub kind: LayerKind,
    pub depth: usize,
    pub expandable: bool,
    pub parent: Option<String>,
}

/// How a page layer's row looks.
#[derive(Clone, Copy, Debug)]
pub struct ProjectRowLook {
    pub selected: bool,
    pub focused: bool,
    pub expanded: bool,
    pub icon: &'static str,
    /// Whether the icon stands out.
    pub accent: bool,
    /// Whether an active annotation is on the element.
    pub annotated: bool,
}

/// The icon of a page layer.
pub open spec fn layer_icon_text(kind: LayerKind) -> Seq<char> {
    match kind {
        LayerKind::Component | LayerKind::Control => "component.svg"@,
        LayerKind::Text => "text.svg"@,
        LayerKind::Frame | LayerKind::Image => "frame.svg"@,
    }
}

/// How a page layer's row looks.
pub fn project_row_look(
    row: &LayerRow,
    selected: &TextSet,
    focus: &Option<String>,
    expanded: &TextSet,
    store: &AnnotationStore,
) -> (look: ProjectRowLook)
    ensures
        look.selected == selected@.contains(row.runtime_id@),
        look.focused == (text::text_view(*focus) == Some(row.runtime_id@)),
        look.expanded == (row.expandable && expanded@.contains(row.runtime_id@)),
        look.icon@ == layer_icon_text(row.kind),
        look.accent == (row.kind == LayerKind::Component),
        look.annotated == (annotations::latest_active(store@.annotations, row.runtime_id@)
            is Some),
{
    let icon = match row.kind {
        LayerKind::Component | LayerKind::Control => "component.svg",
        LayerKind::Text => "text.svg",
        LayerKind::Frame | LayerKind::Image => "frame.svg",
    };
    ProjectRowLook {
        selected: selected.contains(row.runtime_id.as_str()),
        focused: text::is_text(focus, row.runtime_id.as_str()),
        expanded: row.expandable && expanded.contains(row.runtime_id.as_str()),
        icon,
        accent: row.kind == LayerKind::Component,
        annotated: store.latest_active_for_target(row.runtime_id.as_str()).is_some(),
    }
}

/// The position at or after `from` of the first row with this runtime ID.
pub open spec fn row_at(rows: Seq<LayerRow>, runtime_id: Seq<char>, from: int) -> Option<int>
    decreases rows.len() - from,
{
    if from < 0 || from >= rows.len() {
        None
    } else if rows[from].runtime_id@ == runtime_id {
        Some(from)
    } else {
        row_at(rows, runtime_id, from + 1)
    }
}

/// The position of the first row with this runtime ID.
pub fn find_row(rows: &Vec<LayerRow>, runtime_id: &str) -> (out: Option<usize>)
    ensures
        match row_at(rows@, runtime_id@, 0) {
            Some(i) => out == Some(i as usize) && 0 <= i < rows.len(),
            None => out is None,
        },
{
    let mut i: usize = 0;
    while i < rows.len()
        invariant
            i <= rows.len(),
            row_at(rows@, runtime_id@, 0) == row_at(rows@, runtime_id@, i as int),
        decreases rows.len() - i,
    {
        if text::same_text(rows[i].runtime_id.as_str(), runtime_id) {
            return Some(i);
        }
        i += 1;
    }
    None
}

/// What the first position with a runtime ID means.
pub proof fn lemma_row_at(rows: Seq<LayerRow>, runtime_id: Seq<char>, from: int)
    requires
        0 <= from <= rows.len(),
    ensures
        match row_at(rows, runtime_id, from) {
            Some(i) => from <= i < rows.len() && rows[i].runtime_id@ == runtime_id,
            None => true,
        },
    decreases rows.len() - from,
{
    if from < rows.len() && rows[from].runtime_id@ != runtime_id {
        lemma_row_at(rows, runtime_id, from + 1);
    }
}

/// Whether a click on a page layer opens a component: it is a double click on one.
pub fn click_opens_component(row: &LayerRow, double_click: bool) -> (result: bool)
    ensures
        result == (double_click && row.kind == LayerKind::Component),
{
    double_click && row.kind == LayerKind::Component
}

/// What a key press in the page's layer list asks for.
#[derive(Clone, Copy, Debug, PartialEq, Eq, Structural)]
pub enum TreeKeyRequest {
    /// The key is not for the list.
    Ignored,
    /// The key is for the list and changes nothing.
    Handled,
    /// Select the row at this position.
    Select(usize),
    Expand,
    Collapse,
    OpenComponent,
    Toggle,
}

/// What a key press in the page's layer list asks for. `adjacent` is the row above or below
/// the focus for the vertical arrow keys. Right expands; left collapses or goes to the
/// parent; Enter and Space open components and toggle what can be expanded.
pub open spec fn tree_key_request(
    key: Seq<char>,
    adjacent: Option<Seq<char>>,
    focus: Option<Seq<char>>,
    rows: Seq<LayerRow>,
    expanded: Set<Seq<char>>,
) -> TreeKeyRequest {
    let next = if key == "up"@ || key == "down"@ {
        match adjacent {
            Some(id) => row_at(rows, id, 0),
            None => None,
        }
    } else {
        None
    };
    match next {
        Some(i) => TreeKeyRequest::Select(i as usize),
        None => match focus {
            None => TreeKeyRequest::Ignored,
            Some(current) => match row_at(rows, current, 0) {
                None => TreeKeyRequest::Ignored,
                Some(i) => {
                    let row = rows[i];
                    if key == "right"@ && row.expandable && !expanded.contains(current) {
                        TreeKeyRequest::Expand
                    } else if key == "left"@ {
                        if expanded.contains(current) {
                            TreeKeyRequest::Collapse
                        } else {
                            match row.parent {
                                Some(parent) => match row_at(rows, parent@, 0) {
                                    Some(p) => TreeKeyRequest::Select(p as usize),
                                    None => TreeKeyRequest::Handled,
                                },
                                None => TreeKeyRequest::Handled,
                            }
                        }
                    } else if key == "enter"@ || key == "space"@ {
                        if row.kind == LayerKind::Component {
                            TreeKeyRequest::OpenComponent
                        } else if row.expandable {
                            TreeKeyRequest::Toggle
                        } else {
                            TreeKeyRequest::Ignored
                        }
                    } else {
                        TreeKeyRequest::Ignored
                    }
                },
            },
        },
    }
}

/// What a key press in the page's layer list asks for.
pub fn handle_tree_key(
    key: &str,
    adjacent: &Option<String>,
    focus: &Option<String>,
    rows: &Vec<LayerRow>,
    expanded: &TextSet,
) -> (request: TreeKeyRequest)
    ensures
        request == tree_key_request(
            key@,
            text::text_view(*adjacent),
            text::text_view(*focus),
            rows@,
            expanded@,
        ),
{
    if text::same_text(key, "up") || text::same_text(key, "down") {
        match adjacent {
            Some(id) => match find_row(rows, id.as_str()) {
                Some(i) => {
                    return TreeKeyRequest::Select(i);
                },
                None => {},
            },
            None => {},
        }
    }
    let current = match focus {
        Some(current) => current,
        None => return TreeKeyRequest::Ignored,
    };
    let i: usize = match find_row(rows, current.as_str()) {
        Some(i) => i,
        None => return TreeKeyRequest::Ignored,
    };
    let open = expanded.contains(current.as_str());
    if text::same_text(key, "right") && rows[i].expandable && !open {
        TreeKeyRequest::Expand
    } else if text::same_text(key, "left") {
        if open {
            TreeKeyRequest::Collapse
        } else {
            match &rows[i].parent {
                Some(parent) => match find_row(rows, parent.as_str()) {
                    Some(p) => TreeKeyRequest::Select(p),
                    None => TreeKeyRequest::Handled,
                },
                None => TreeKeyRequest::Handled,
            }
        }
    } else if text::same_text(key, "enter") || text::same_text(key, "space") {
        if rows[i].kind == LayerKind::Component {
            TreeKeyRequest::OpenComponent
        } else if rows[i].expandable {
            TreeKeyRequest::Toggle
        } else {
            TreeKeyRequest::Ignored
        }
    } else {
        TreeKeyRequest::Ignored
    }
}

// ---------------------------------------------------------------------------
// What the rows are
// ---------------------------------------------------------------------------

/// The first row of a node is its own: it can be opened where the node has children, it can be
/// dragged unless it is the root, it is selected where the node's runtime ID is, and it is marked
/// where an annotation of that element is in work.
pub proof fn law_first_row_is_the_nodes(cx: RowContext, node: NativeNode, depth: u16, k: int)
    ensures
        ({
            let rows = rows_of(cx, node, depth);
            let target = "component/"@ + cx.component_id + "/"@ + node.id@;
            &&& rows.len() > 0
            &&& rows[0].node_id == node.id@
            &&& rows[0].target_id == target
            &&& rows[0].depth == depth
            &&& rows[0].selected <==> cx.selected == target
            &&& rows[0].expandable <==> node.children@.len() > 0
            &&& rows[0].expanded <==> node.children@.len() > 0 && cx.expanded.contains(target)
            &&& rows[0].draggable <==> node.id@ != "root"@
            &&& rows.len() > 1 ==> rows[0].expanded
            &&& (forall|j: int|
                0 <= j < cx.annotations.len() ==> #[trigger] cx.annotations[j].target.runtime_id
                    != target || cx.annotations[j].status is Done || cx.annotations[j].status
                    is Archived) ==> !rows[0].annotated
            &&& 0 <= k < cx.annotations.len() && cx.annotations[k].target.runtime_id == target && (
            cx.annotations[k].status is Open || cx.annotations[k].status is InProgress)
                ==> rows[0].annotated
        }),
{
    let target = studio::component_runtime_id(cx.component_id, node.id@);
    assert(target =~= "component/"@ + cx.component_id + "/"@ + node.id@);
    lemma_marked(cx.annotations, target);
}

proof fn lemma_marked(s: Seq<AnnotationView>, target: Seq<char>)
    ensures
        annotations::latest_active(s, target) is Some <==> exists|j: int|
            0 <= j < s.len() && (#[trigger] s[j]).target.runtime_id == target && s[j].status.active(),
    decreases s.len(),
{
    if s.len() > 0 {
        let front = s.drop_last();
        lemma_marked(front, target);
        assert(s[s.len() - 1] == s.last());
        assert(forall|j: int| 0 <= j < front.len() ==> #[trigger] front[j] == s[j]);
        if annotations::latest_active(front, target) is Some {
            let j = choose|j: int|
                0 <= j < front.len() && (#[trigger] front[j]).target.runtime_id == target
                    && front[j].status.active();
            assert(s[j].status.active());
        }
        if exists|j: int|
            0 <= j < s.len() && (#[trigger] s[j]).target.runtime_id == target
                && s[j].status.active() {
            let j = choose|j: int|
                0 <= j < s.len() && (#[trigger] s[j]).target.runtime_id == target
                    && s[j].status.active();
            if j < front.len() {
                assert(front[j].status.active());
            }
        }
    }
}

/// Below an open row stand the rows of the children, in order and one level deeper, and below a
/// closed one stands nothing.
pub proof fn law_children_follow_their_row(
    cx: RowContext,
    node: NativeNode,
    depth: u16,
    left: Seq<NativeNode>,
    right: Seq<NativeNode>,
)
    ensures
        ({
            let rows = rows_of(cx, node, depth);
            rows.skip(1) == (if rows[0].expanded {
                forest_rows(
                    cx,
                    node.children@,
                    if depth < 65535 {
                        (depth + 1) as u16
                    } else {
                        depth
                    },
                )
            } else {
                Seq::empty()
            })
        }),
        forest_rows(cx, Seq::empty(), depth).len() == 0,
        forest_rows(cx, seq![node], depth) == rows_of(cx, node, depth),
        forest_rows(cx, left + right, depth) == forest_rows(cx, left, depth) + forest_rows(
            cx,
            right,
            depth,
        ),
{
    let rows = rows_of(cx, node, depth);
    let below = forest_rows(cx, node.children@, deeper(depth));
    assert((seq![rows[0]] + below).skip(1) =~= below);
    assert(rows.skip(1) =~= if rows[0].expanded {
        below
    } else {
        Seq::empty()
    });
    assert(seq![node].drop_last() =~= Seq::<NativeNode>::empty());
    let none = Seq::<NativeNode>::empty();
    assert(forest_rows(cx, none, depth) =~= Seq::<RowView>::empty());
    assert(forest_rows(cx, seq![node].drop_last(), depth) =~= Seq::<RowView>::empty());
    assert(forest_rows(cx, seq![node], depth) =~= rows_of(cx, node, depth));
    lemma_rows_add_up(cx, left, right, depth);
}

proof fn lemma_rows_add_up(
    cx: RowContext,
    left: Seq<NativeNode>,
    right: Seq<NativeNode>,
    depth: u16,
)
    ensures
        forest_rows(cx, left + right, depth) == forest_rows(cx, left, depth) + forest_rows(
            cx,
            right,
            depth,
        ),
    decreases right.len(),
{
    if right.len() == 0 {
        assert(left + right =~= left);
        assert(forest_rows(cx, left, depth) + forest_rows(cx, right, depth) =~= forest_rows(
            cx,
            left,
            depth,
        ));
    } else {
        lemma_rows_add_up(cx, left, right.drop_last(), depth);
        assert((left + right).drop_last() =~= left + right.drop_last());
        assert(forest_rows(cx, left + right, depth) =~= forest_rows(cx, left, depth) + forest_rows(
            cx,
            right,
            depth,
        ));
    }
}

/// A text shows its first 32 characters, an instance the name of its component, and what has
/// neither shows the type-like name of its ID.
pub proof fn law_labels(node: NativeNode, components: Seq<NativeComponent>, i: int)
    ensures
        ({
            let label = node_label(node, components);
            let named = identifiers::authored_name_of(node.id@);
            &&& node.kind is Text && node.text is Some && 0 < node.text->0@.len() <= 32 ==> label
                == node.text->0@
            &&& node.kind is Text && node.text is Some && node.text->0@.len() > 32 ==> label
                == node.text->0@.subrange(0, 32)
            &&& node.kind is Text && (node.text is None || node.text->0@.len() == 0) ==> label
                == named
            &&& node.kind is Instance && node.instance_of is None ==> label == named
            &&& !(node.kind is Text) && !(node.kind is Instance) ==> label == named
            &&& node.kind is Instance && node.instance_of is Some && 0 <= i < components.len()
                && components[i].id@ == node.instance_of->0@ && (forall|j: int|
                0 <= j < i ==> #[trigger] components[j].id@ != node.instance_of->0@) ==> label
                == components[i].name@
            &&& node.kind is Instance && node.instance_of is Some && (forall|j: int|
                0 <= j < components.len() ==> #[trigger] components[j].id@
                    != node.instance_of->0@) ==> label == named
        }),
{
    if node.kind is Instance && node.instance_of is Some {
        let id = node.instance_of->0@;
        keyed::lemma_first_key(components, id, 0);
    }
}

/// What can be expanded is every node that has children, the root or one below it.
pub proof fn law_parents_can_be_expanded(component_id: Seq<char>, node: NativeNode, id: Seq<char>)
    ensures
        expandable_ids(component_id, node).contains(id) <==> node.children@.len() > 0 && id
            == "component/"@ + component_id + "/"@ + node.id@ || exists|i: int|
            0 <= i < node.children@.len() && expandable_ids(
                component_id,
                #[trigger] node.children@[i],
            ).contains(id),
{
    lemma_expandable_among(component_id, node.children@, id);
}

proof fn lemma_expandable_among(component_id: Seq<char>, nodes: Seq<NativeNode>, id: Seq<char>)
    ensures
        expandable_forest(component_id, nodes).contains(id) <==> exists|i: int|
            0 <= i < nodes.len() && expandable_ids(component_id, #[trigger] nodes[i]).contains(id),
    decreases nodes.len(),
{
    if nodes.len() > 0 {
        let front = nodes.drop_last();
        lemma_expandable_among(component_id, front, id);
        assert(nodes[nodes.len() - 1] == nodes.last());
        assert(forall|i: int| 0 <= i < front.len() ==> #[trigger] front[i] == nodes[i]);
        if expandable_forest(component_id, front).contains(id) {
            let i = choose|i: int|
                0 <= i < front.len() && expandable_ids(component_id, #[trigger] front[i]).contains(
                    id,
                );
            assert(expandable_ids(component_id, nodes[i]).contains(id));
        }
        if exists|i: int|
            0 <= i < nodes.len() && expandable_ids(component_id, #[trigger] nodes[i]).contains(
                id,
            ) {
            let i = choose|i: int|
                0 <= i < nodes.len() && expandable_ids(component_id, #[trigger] nodes[i]).contains(
                    id,
                );
            if i < front.len() {
                assert(expandable_ids(component_id, front[i]).contains(id));
            }
        }
    }
}

/// A row is found at the first place at which its runtime ID stands.
pub proof fn law_first_row_is_found(rows: Seq<LayerRow>, runtime_id: Seq<char>, from: int, i: int)
    requires
        0 <= from <= i < rows.len(),
        rows[i].runtime_id@ == runtime_id,
        forall|j: int| from <= j < i ==> #[trigger] rows[j].runtime_id@ != runtime_id,
    ensures
        row_at(rows, runtime_id, from) == Some(i),
    decreases i - from,
{
    if from < i {
        assert(rows[from].runtime_id@ != runtime_id);
        law_first_row_is_found(rows, runtime_id, from + 1, i);
    }
}

/// The arrow keys and the keys that open, at the row `i` that has the focus: up and down select
/// the adjacent row, right opens what is closed, left closes what is open and else goes to the
/// parent, and Enter and Space open components and toggle everything else that can be expanded.
pub proof fn law_keys_move_through_the_rows(
    rows: Seq<LayerRow>,
    i: int,
    k: int,
    adjacent: Option<Seq<char>>,
    expanded: Set<Seq<char>>,
)
    requires
        0 <= i < rows.len() <= usize::MAX,
        forall|j: int| 0 <= j < i ==> #[trigger] rows[j].runtime_id@ != rows[i].runtime_id@,
        0 <= k < rows.len(),
        forall|j: int| 0 <= j < k ==> #[trigger] rows[j].runtime_id@ != rows[k].runtime_id@,
    ensures
        ({
            let focus = Some(rows[i].runtime_id@);
            let open = expanded.contains(rows[i].runtime_id@);
            let up = tree_key_request("up"@, adjacent, focus, rows, expanded);
            let down = tree_key_request("down"@, adjacent, focus, rows, expanded);
            let right = tree_key_request("right"@, adjacent, focus, rows, expanded);
            let left = tree_key_request("left"@, adjacent, focus, rows, expanded);
            let enter = tree_key_request("enter"@, adjacent, focus, rows, expanded);
            let space = tree_key_request("space"@, adjacent, focus, rows, expanded);
            &&& adjacent == Some(rows[k].runtime_id@) ==> up == TreeKeyRequest::Select(k as usize)
                && down == TreeKeyRequest::Select(k as usize)
            &&& adjacent is None ==> up is Ignored && down is Ignored
            &&& rows[i].expandable && !open ==> right is Expand
            &&& !rows[i].expandable || open ==> right is Ignored
            &&& open ==> left is Collapse
            &&& !open && rows[i].parent is Some && rows[i].parent->0@ == rows[k].runtime_id@ ==> left
                == TreeKeyRequest::Select(k as usize)
            &&& !open && rows[i].parent is None ==> left is Handled
            &&& enter == space
            &&& rows[i].kind is Component ==> enter is OpenComponent
            &&& !(rows[i].kind is Component) && rows[i].expandable ==> enter is Toggle
            &&& !(rows[i].kind is Component) && !rows[i].expandable ==> enter is Ignored
        }),
{
    reveal_strlit("up");
    reveal_strlit("down");
    reveal_strlit("right");
    reveal_strlit("left");
    reveal_strlit("enter");
    reveal_strlit("space");
    assert("up"@[0] == 'u' && "down"@[0] == 'd' && "right"@[0] == 'r' && "left"@[0] == 'l');
    assert("enter"@[0] == 'e' && "space"@[0] == 's');
    law_first_row_is_found(rows, rows[i].runtime_id@, 0, i);
    law_first_row_is_found(rows, rows[k].runtime_id@, 0, k);
}

/// Without a focused row, or with one that is not listed, every key but up and down is left to
/// others; so is every key that is none of the six.
pub proof fn law_other_keys_are_ignored(
    key: Seq<char>,
    adjacent: Option<Seq<char>>,
    focus: Option<Seq<char>>,
    rows: Seq<LayerRow>,
    expanded: Set<Seq<char>>,
)
    requires
        key != "up"@,
        key != "down"@,
        focus is Some ==> forall|j: int|
            0 <= j < rows.len() ==> #[trigger] rows[j].runtime_id@ != focus->0 || key != "right"@
                && key != "left"@ && key != "enter"@ && key != "space"@,
    ensures
        tree_key_request(key, adjacent, focus, rows, expanded) is Ignored,
{
    if focus is Some {
        lemma_row_at(rows, focus->0, 0);
    }
}

/// Each kind of node has its icon.
pub proof fn law_nodes_have_icons(x: NativeNodeKind)
    ensures
        x is Text ==> node_icon_text(x) == "text.svg"@,
        x is Button ==> node_icon_text(x) == "button.svg"@,
        x is Instance ==> node_icon_text(x) == "instance.svg"@,
        x is Row ==> node_icon_text(x) == "row.svg"@,
        x is Column ==> node_icon_text(x) == "column.svg"@,
        x is Grid ==> node_icon_text(x) == "grid.svg"@,
        x is Stack || x is Titlebar ==> node_icon_text(x) == "frame.svg"@,
{
}

/// Each kind of page layer has its icon.
pub proof fn law_layers_have_icons(x: LayerKind)
    ensures
        x is Component || x is Control ==> layer_icon_text(x) == "component.svg"@,
        x is Text ==> layer_icon_text(x) == "text.svg"@,
        x is Frame || x is Image ==> layer_icon_text(x) == "frame.svg"@,
{
}

} // verus!
