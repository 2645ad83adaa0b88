//! Dragging over the canvas: hit tests, the drop preview and its order.
use vstd::prelude::*;

use crate::components::NativeNodeKind;
use crate::float_bits::Float32;
use crate::text;

verus! {

/// Live placement preview while a drag hovers the canvas. `offset` is the user's adjustment
/// relative to the index that the pointer gave; in a stack the order of children is paint order.
#[derive(Debug)]
pub struct DragPreviewState {
    pub parent: String,
    pub base_index: usize,
    pub offset: i32,
    pub child_count: usize,
    pub horizontal: bool,
    pub is_stack: bool,
    pub pointer_x: Float32,
    pub pointer_y: Float32,
}

/// What the canvas draws for a pending drop.
#[derive(Debug)]
pub struct DropPreviewSpec {
    pub parent: String,
    pub index: usize,
    pub horizontal: bool,
}

/// The smaller of two numbers.
pub open spec fn smaller(a: int, b: int) -> int {
    if a <= b {
        a
    } else {
        b
    }
}

/// The insertion index: the base index moved by the adjustment, clamped to the container's
/// child range. Numbers above the largest signed 64-bit one count as that one.
pub open spec fn effective_index_of(base_index: int, offset: int, child_count: int) -> int {
    let adjusted = smaller(smaller(base_index, i64::MAX as int) + offset, i64::MAX as int);
    if adjusted < 0 {
        0
    } else {
        smaller(adjusted, child_count)
    }
}

impl Clone for DragPreviewState {
    fn clone(&self) -> (copy: Self)
        ensures
            copy == *self,
    {
        DragPreviewState {
            parent: self.parent.clone(),
            base_index: self.base_index,
            offset: self.offset,
            child_count: self.child_count,
            horizontal: self.horizontal,
            is_stack: self.is_stack,
            pointer_x: self.pointer_x,
            pointer_y: self.pointer_y,
        }
    }
}

impl DragPreviewState {
    /// The insertion index that the preview shows.
    pub open spec fn index(&self) -> int {
        effective_index_of(self.base_index as int, self.offset as int, self.child_count as int)
    }

    /// Insertion index after the adjustment, clamped to the container's real child range.
    pub fn effective_index(&self) -> (index: usize)
        ensures
            index == self.index(),
            index <= self.child_count,
    {
        let base: i128 = self.base_index as i128;
        let limit: i128 = i64::MAX as i128;
        let clipped: i128 = if base <= limit {
            base
        } else {
            limit
        };
        let sum: i128 = clipped + self.offset as i128;
        let adjusted: i128 = if sum <= limit {
            sum
        } else {
            limit
        };
        if adjusted < 0 {
            0
        } else if adjusted <= self.child_count as i128 {
            adjusted as usize
        } else {
            self.child_count
        }
    }

    /// One-based drop position shown to the user, and the number of slots.
    pub fn position_label(&self) -> (label: (usize, usize))
        ensures
            label.0 == smaller(self.index() + 1, usize::MAX as int),
            label.1 == smaller(self.child_count + 1, usize::MAX as int),
    {
        let index: usize = self.effective_index();
        let position: usize = if index < usize::MAX {
            index + 1
        } else {
            index
        };
        let total: usize = if self.child_count < usize::MAX {
            self.child_count + 1
        } else {
            self.child_count
        };
        (position, total)
    }

    /// Whether this is what the canvas draws.
    pub open spec fn shown_as(&self, out: DropPreviewSpec) -> bool {
        &&& out.parent@ == self.parent@
        &&& out.index == self.index()
        &&& out.horizontal == self.horizontal
    }

    /// What the canvas draws.
    pub fn spec(&self) -> (out: DropPreviewSpec)
        ensures
            self.shown_as(out),
    {
        DropPreviewSpec {
            parent: self.parent.clone(),
            index: self.effective_index(),
            horizontal: self.horizontal,
        }
    }

    /// Whether two previews show the same; pointer positions compare as numbers.
    pub open spec fn same(&self, other: &DragPreviewState) -> bool {
        &&& self.parent@ == other.parent@
        &&& self.base_index == other.base_index
        &&& self.offset == other.offset
        &&& self.child_count == other.child_count
        &&& self.horizontal == other.horizontal
        &&& self.is_stack == other.is_stack
        &&& self.pointer_x.at_most(other.pointer_x) && other.pointer_x.at_most(self.pointer_x)
        &&& self.pointer_y.at_most(other.pointer_y) && other.pointer_y.at_most(self.pointer_y)
    }

    fn equals(&self, other: &DragPreviewState) -> (result: bool)
        ensures
            result == self.same(other),
    {
        text::same_text(self.parent.as_str(), other.parent.as_str()) && self.base_index
            == other.base_index && self.offset == other.offset && self.child_count
            == other.child_count && self.horizontal == other.horizontal && self.is_stack
            == other.is_stack && self.pointer_x.le(&other.pointer_x) && other.pointer_x.le(
            &self.pointer_x,
        ) && self.pointer_y.le(&other.pointer_y) && other.pointer_y.le(&self.pointer_y)
    }
}

/// However far an order is adjusted, the index stays within the container's slots.
pub proof fn law_effective_index_within_container(base_index: int, offset: int, child_count: int)
    requires
        0 <= child_count,
    ensures
        0 <= effective_index_of(base_index, offset, child_count) <= child_count,
{
}

/// A larger adjustment never gives a smaller index.
pub proof fn law_effective_index_monotonic(
    base_index: int,
    offset: int,
    larger: int,
    child_count: int,
)
    requires
        0 <= child_count,
        offset <= larger,
    ensures
        effective_index_of(base_index, offset, child_count) <= effective_index_of(
            base_index,
            larger,
            child_count,
        ),
{
}

/// The target that a hovering drag shows next: the newly computed one, with the adjustment
/// kept while the container stays the same.
pub open spec fn carried_offset(
    current: Option<DragPreviewState>,
    next: DragPreviewState,
) -> DragPreviewState {
    match current {
        Some(current) => if current.parent@ == next.parent@ {
            DragPreviewState { offset: current.offset, ..next }
        } else {
            next
        },
        None => next,
    }
}

/// Tracks a drag hovering the canvas with the newly computed target, preserving the user's
/// order adjustment while the container is unchanged. Tells whether the preview changed.
pub fn update_drag_preview(
    preview: &mut Option<DragPreviewState>,
    next: Option<DragPreviewState>,
) -> (changed: bool)
    ensures
        match next {
            None => *final(preview) is None && changed == (*old(preview) is Some),
            Some(next) => {
                let carried = carried_offset(*old(preview), next);
                if *old(preview) is Some && (*old(preview))->0.same(&carried) {
                    !changed && *final(preview) == *old(preview)
                } else {
                    changed && *final(preview) == Some(carried)
                }
            },
        },
{
    match next {
        None => {
            let had = preview.is_some();
            *preview = None;
            had
        },
        Some(next) => {
            let mut carried = next;
            let same = match preview {
                Some(current) => {
                    if text::same_text(current.parent.as_str(), carried.parent.as_str()) {
                        carried.offset = current.offset;
                    }
                    current.equals(&carried)
                },
                None => false,
            };
            if same {
                false
            } else {
                *preview = Some(carried);
                true
            }
        },
    }
}

/// An adjustment, kept within the range of its type.
pub open spec fn adjusted_offset(offset: i32, delta: i32) -> i32 {
    if offset + delta > i32::MAX {
        i32::MAX
    } else if offset + delta < i32::MIN {
        i32::MIN
    } else {
        (offset + delta) as i32
    }
}

/// How people are told of the pending position.
pub open spec fn position_message(position: nat, total: nat) -> Seq<char> {
    "Drop position "@ + text::decimal_text(position) + " of "@ + text::decimal_text(total)
        + " · scroll or [ ] to adjust"@
}

/// What came of nudging a pending drop.
#[derive(Debug)]
pub struct OrderAdjustment {
    /// How people are told of the position.
    pub status: String,
    /// Whether the insertion index moved.
    pub moved: bool,
}

/// Nudges the pending drop's order within its container; nothing where no drop is pending.
pub fn adjust_drag_preview_order(preview: &mut Option<DragPreviewState>, delta: i32) -> (out:
    Option<OrderAdjustment>)
    requires
        *old(preview) is Some ==> (*old(preview))->0.child_count < usize::MAX,
    ensures
        match *old(preview) {
            None => out is None && *final(preview) is None,
            Some(before) => {
                let after = DragPreviewState {
                    offset: adjusted_offset(before.offset, delta),
                    ..before
                };
                &&& *final(preview) == Some(after)
                &&& out is Some
                &&& out->0.moved == (before.index() != after.index())
                &&& out->0.status@ == position_message(
                    (after.index() + 1) as nat,
                    (after.child_count + 1) as nat,
                )
            },
        },
{
    match preview.take() {
        None => None,
        Some(state) => {
            let mut state = state;
            let before: usize = state.effective_index();
            let sum: i64 = state.offset as i64 + delta as i64;
            state.offset =
            if sum > i32::MAX as i64 {
                i32::MAX
            } else if sum < i32::MIN as i64 {
                i32::MIN
            } else {
                sum as i32
            };
            let after: usize = state.effective_index();
            let status = text::join5(
                "Drop position ",
                text::decimal((after + 1) as u64).as_str(),
                " of ",
                text::decimal((state.child_count + 1) as u64).as_str(),
                " · scroll or [ ] to adjust",
            );
            *preview = Some(state);
            Some(OrderAdjustment { status, moved: before != after })
        },
    }
}

// ---------------------------------------------------------------------------
// Hit tests
// ---------------------------------------------------------------------------

/// A window-relative point.
#[derive(Clone, Copy, Debug, PartialEq, Eq, Structural)]
pub struct CanvasPoint {
    pub x: Float32,
    pub y: Float32,
}

/// The painted edges and area of a node.
#[derive(Clone, Copy, Debug, PartialEq, Eq, Structural)]
pub struct HitBounds {
    pub left: Float32,
    pub top: Float32,
    pub right: Float32,
    pub bottom: Float32,
    pub area: Float32,
}

impl HitBounds {
    /// Whether the point lies within the edges, the edges included.
    pub open spec fn covers(self, point: CanvasPoint) -> bool {
        &&& self.left.at_most(point.x)
        &&& point.x.at_most(self.right)
        &&& self.top.at_most(point.y)
        &&& point.y.at_most(self.bottom)
    }

    fn holds(&self, point: CanvasPoint) -> (result: bool)
        ensures
            result == self.covers(point),
    {
        self.left.le(&point.x) && point.x.le(&self.right) && self.top.le(&point.y) && point.y.le(
            &self.bottom,
        )
    }
}

/// One painted node, as a hit test reads it.
#[derive(Debug)]
pub struct CanvasNode {
    pub runtime_id: String,
    pub bounds: Option<HitBounds>,
    /// Whether the node can hold children.
    pub accepts_children: bool,
}

/// Whether a node can be hit: it belongs to the component, is painted under the point and,
/// where only containers count, can hold children.
pub open spec fn can_hit(
    node: CanvasNode,
    prefix: Seq<char>,
    point: CanvasPoint,
    containers: bool,
) -> bool {
    &&& text::occurs_at(node.runtime_id@, prefix, 0)
    &&& node.bounds is Some
    &&& node.bounds->0.covers(point)
    &&& containers ==> node.accepts_children
}

/// The position of the smallest node that can be hit among the first `count`; of nodes that
/// are not larger than each other the first.
pub open spec fn smallest_hit(
    nodes: Seq<CanvasNode>,
    prefix: Seq<char>,
    point: CanvasPoint,
    containers: bool,
    count: nat,
) -> Option<int>
    decreases count,
{
    if count == 0 {
        None
    } else {
        let before = smallest_hit(nodes, prefix, point, containers, (count - 1) as nat);
        let node = nodes[count - 1];
        if !can_hit(node, prefix, point, containers) {
            before
        } else {
            match before {
                None => Some(count - 1),
                Some(best) => if node.bounds->0.area.less_than(nodes[best].bounds->0.area) {
                    Some(count - 1)
                } else {
                    before
                },
            }
        }
    }
}

/// The runtime prefix of a component's nodes.
pub open spec fn component_prefix(component_id: Seq<char>) -> Seq<char> {
    "component/"@ + component_id + "/"@
}

/// The authored ID of the deepest (smallest) node of the component under the pointer; only
/// containers count where `containers` is set.
pub fn hit_node(
    nodes: &Vec<CanvasNode>,
    component_id: &str,
    point: CanvasPoint,
    containers: bool,
) -> (out: Option<String>)
    ensures
        match smallest_hit(
            nodes@,
            component_prefix(component_id@),
            point,
            containers,
            nodes@.len(),
        ) {
            Some(i) => out is Some && out->0@ == nodes@[i].runtime_id@.skip(
                component_prefix(component_id@).len() as int,
            ),
            None => out is None,
        },
{
    let prefix = text::join3("component/", component_id, "/");
    let mut best: Option<usize> = None;
    let mut best_area: Float32 = Float32 { bits: 0 };
    let mut i: usize = 0;
    while i < nodes.len()
        invariant
            i <= nodes.len(),
            prefix@ == component_prefix(component_id@),
            match smallest_hit(nodes@, prefix@, point, containers, i as nat) {
                Some(k) => {
                    &&& best == Some(k as usize)
                    &&& 0 <= k < i
                    &&& can_hit(nodes@[k], prefix@, point, containers)
                    &&& best_area == nodes@[k].bounds->0.area
                },
                None => best is None,
            },
        decreases nodes.len() - i,
    {
        match nodes[i].bounds {
            Some(bounds) => {
                if text::starts_with(nodes[i].runtime_id.as_str(), prefix.as_str())
                    && bounds.holds(point) && (!containers || nodes[i].accepts_children) {
                    let better = match best {
                        None => true,
                        Some(_) => bounds.area.lt(&best_area),
                    };
                    if better {
                        best = Some(i);
                        best_area = bounds.area;
                    }
                }
            },
            None => {},
        }
        i += 1;
    }
    match best {
        Some(k) => text::strip_prefix(nodes[k].runtime_id.as_str(), prefix.as_str()),
        None => None,
    }
}

/// A hit is a node that can be hit, and where areas are numbers no node that can be hit is
/// smaller; there is no hit just when no node can be hit.
pub proof fn law_hit_is_smallest(
    nodes: Seq<CanvasNode>,
    prefix: Seq<char>,
    point: CanvasPoint,
    containers: bool,
    count: nat,
)
    requires
        count <= nodes.len(),
        forall|i: int|
            0 <= i < count && #[trigger] can_hit(nodes[i], prefix, point, containers)
                ==> nodes[i].bounds->0.area.is_number(),
    ensures
        match smallest_hit(nodes, prefix, point, containers, count) {
            Some(k) => {
                &&& 0 <= k < count
                &&& can_hit(nodes[k], prefix, point, containers)
                &&& forall|i: int|
                    0 <= i < count && #[trigger] can_hit(nodes[i], prefix, point, containers)
                        ==> !nodes[i].bounds->0.area.less_than(nodes[k].bounds->0.area)
            },
            None => forall|i: int|
                0 <= i < count ==> !#[trigger] can_hit(nodes[i], prefix, point, containers),
        },
    decreases count,
{
    if count > 0 {
        law_hit_is_smallest(nodes, prefix, point, containers, (count - 1) as nat);
    }
}

// ---------------------------------------------------------------------------
// Drop targets
// ---------------------------------------------------------------------------

/// How a container lays out its children.
#[derive(Clone, Copy, Debug, PartialEq, Eq, Structural)]
pub enum LayoutMode {
    Flex { horizontal: bool },
    Grid { columns: usize },
    Freeform,
}

/// Whether children stand side by side.
pub open spec fn is_horizontal(kind: NativeNodeKind) -> bool {
    kind == NativeNodeKind::Row || kind == NativeNodeKind::Titlebar
}

/// The layout of a container: side by side for rows and titlebars, at least one column for
/// grids, free for stacks, one under another for the rest.
pub open spec fn layout_of(kind: NativeNodeKind, grid_columns: u16) -> LayoutMode {
    match kind {
        NativeNodeKind::Row | NativeNodeKind::Titlebar => LayoutMode::Flex { horizontal: true },
        NativeNodeKind::Grid => LayoutMode::Grid {
            columns: if grid_columns == 0 {
                1
            } else {
                grid_columns as usize
            },
        },
        NativeNodeKind::Stack => LayoutMode::Freeform,
        _ => LayoutMode::Flex { horizontal: false },
    }
}

/// The layout in which a drop into a container of this kind is placed.
pub fn drop_layout(kind: NativeNodeKind, grid_columns: u16) -> (mode: LayoutMode)
    ensures
        mode == layout_of(kind, grid_columns),
{
    match kind {
        NativeNodeKind::Row | NativeNodeKind::Titlebar => LayoutMode::Flex { horizontal: true },
        NativeNodeKind::Grid => LayoutMode::Grid {
            columns: if grid_columns == 0 {
                1
            } else {
                grid_columns as usize
            },
        },
        NativeNodeKind::Stack => LayoutMode::Freeform,
        _ => LayoutMode::Flex { horizontal: false },
    }
}

/// The runtime IDs of a container's children.
pub fn child_runtime_ids(component_id: &str, child_ids: &Vec<String>) -> (out: Vec<String>)
    ensures
        out.len() == child_ids.len(),
        forall|i: int|
            0 <= i < out.len() ==> (#[trigger] out[i])@ == component_prefix(component_id@)
                + child_ids[i]@,
{
    let prefix = text::join3("component/", component_id, "/");
    let mut out: Vec<String> = Vec::new();
    let mut i: usize = 0;
    while i < child_ids.len()
        invariant
            i <= child_ids.len(),
            prefix@ == component_prefix(component_id@),
            out.len() == i,
            forall|j: int|
                0 <= j < i ==> (#[trigger] out[j])@ == component_prefix(component_id@)
                    + child_ids[j]@,
        decreases child_ids.len() - i,
    {
        out.push(text::join2(prefix.as_str(), child_ids[i].as_str()));
        i += 1;
    }
    out
}

/// The drag target for a container, once the placement engine has picked the index.
pub fn canvas_drag_target(
    parent: String,
    kind: NativeNodeKind,
    child_count: usize,
    placement_index: usize,
    pointer: CanvasPoint,
) -> (target: DragPreviewState)
    ensures
        target == (DragPreviewState {
            parent,
            base_index: placement_index,
            offset: 0,
            child_count,
            horizontal: is_horizontal(kind),
            is_stack: kind == NativeNodeKind::Stack,
            pointer_x: pointer.x,
            pointer_y: pointer.y,
        }),
{
    DragPreviewState {
        parent,
        base_index: placement_index,
        offset: 0,
        child_count,
        horizontal: matches!(kind, NativeNodeKind::Row | NativeNodeKind::Titlebar),
        is_stack: kind == NativeNodeKind::Stack,
        pointer_x: pointer.x,
        pointer_y: pointer.y,
    }
}

/// An order is adjusted by just as many slots as people ask for, and stops at the first and at
/// the last slot of the container.
pub proof fn law_adjusted_orders_move_by_slots(base_index: int, offset: int, child_count: int)
    requires
        0 <= base_index <= child_count <= i64::MAX,
    ensures
        0 <= base_index + offset <= child_count ==> effective_index_of(
            base_index,
            offset,
            child_count,
        ) == base_index + offset,
        base_index + offset < 0 ==> effective_index_of(base_index, offset, child_count) == 0,
        base_index + offset > child_count ==> effective_index_of(base_index, offset, child_count)
            == child_count,
{
}

/// Two nudges add up, as long as their sum is within the range of an adjustment.
pub proof fn law_nudges_add_up(offset: i32, delta: i32, more: i32)
    requires
        i32::MIN <= offset + delta <= i32::MAX,
    ensures
        adjusted_offset(offset, delta) == offset + delta,
        i32::MIN <= offset + delta + more <= i32::MAX ==> adjusted_offset(
            adjusted_offset(offset, delta),
            more,
        ) == offset + delta + more,
        offset + delta + more > i32::MAX ==> adjusted_offset(adjusted_offset(offset, delta), more)
            == i32::MAX,
        offset + delta + more < i32::MIN ==> adjusted_offset(adjusted_offset(offset, delta), more)
            == i32::MIN,
{
}

/// A hovering drag shows the new target; people's adjustment of the order stays while the
/// container is the same and is dropped with another one.
pub proof fn law_adjustments_stay_with_their_container(
    current: DragPreviewState,
    next: DragPreviewState,
)
    ensures
        carried_offset(None, next) == next,
        ({
            let shown = carried_offset(Some(current), next);
            &&& shown.parent == next.parent
            &&& shown.base_index == next.base_index
            &&& shown.child_count == next.child_count
            &&& shown.horizontal == next.horizontal
            &&& shown.is_stack == next.is_stack
            &&& shown.pointer_x == next.pointer_x
            &&& shown.pointer_y == next.pointer_y
            &&& current.parent@ == next.parent@ ==> shown.offset == current.offset
            &&& current.parent@ != next.parent@ ==> shown.offset == next.offset
        }),
{
}

/// What is hit is the first of the smallest nodes under the pointer: every node under the pointer
/// before it is larger, and none behind it is smaller. A node is under the pointer where the
/// pointer lies between its edges, the edges included.
pub proof fn law_hit_is_the_first_of_the_smallest(
    nodes: Seq<CanvasNode>,
    component_id: Seq<char>,
    point: CanvasPoint,
    containers: bool,
    k: int,
)
    requires
        point.x.is_number() && point.y.is_number(),
        forall|i: int|
            0 <= i < nodes.len() && (#[trigger] nodes[i]).bounds is Some ==> {
                let b = nodes[i].bounds->0;
                b.left.is_number() && b.top.is_number() && b.right.is_number()
                    && b.bottom.is_number() && b.area.is_number()
            },
        0 <= k < nodes.len(),
        forall|i: int|
            0 <= i < nodes.len() ==> (under(#[trigger] nodes[i], component_id, point) && (
            containers ==> nodes[i].accepts_children)) ==> (if i < k {
                nodes[k].bounds->0.area.rank() < nodes[i].bounds->0.area.rank()
            } else {
                nodes[k].bounds->0.area.rank() <= nodes[i].bounds->0.area.rank()
            }),
        under(nodes[k], component_id, point),
        containers ==> nodes[k].accepts_children,
    ensures
        smallest_hit(nodes, component_prefix(component_id), point, containers, nodes.len())
            == Some(k),
{
    let prefix = component_prefix(component_id);
    let n = nodes.len();
    assert forall|i: int| 0 <= i < n implies #[trigger] can_hit(nodes[i], prefix, point, containers)
        == (under(nodes[i], component_id, point) && (containers ==> nodes[i].accepts_children)) by {
        assert(nodes[i].bounds is Some ==> nodes[i].bounds->0.left.is_number());
    }
    lemma_first_smallest(nodes, prefix, point, containers, n, k);
}

/// Whether a node of a component is painted under a point.
pub open spec fn under(node: CanvasNode, component_id: Seq<char>, point: CanvasPoint) -> bool {
    let prefix = "component/"@ + component_id + "/"@;
    &&& prefix.len() <= node.runtime_id@.len()
    &&& node.runtime_id@.subrange(0, prefix.len() as int) == prefix
    &&& node.bounds matches Some(b)
    &&& b.left.rank() <= point.x.rank() <= b.right.rank()
    &&& b.top.rank() <= point.y.rank() <= b.bottom.rank()
}

proof fn lemma_first_smallest(
    nodes: Seq<CanvasNode>,
    prefix: Seq<char>,
    point: CanvasPoint,
    containers: bool,
    count: nat,
    k: int,
)
    requires
        0 <= k < count <= nodes.len(),
        can_hit(nodes[k], prefix, point, containers),
        forall|i: int|
            0 <= i < count && #[trigger] can_hit(nodes[i], prefix, point, containers)
                ==> nodes[i].bounds->0.area.is_number(),
        forall|i: int|
            0 <= i < count && #[trigger] can_hit(nodes[i], prefix, point, containers) ==> (if i < k {
                nodes[k].bounds->0.area.rank() < nodes[i].bounds->0.area.rank()
            } else {
                nodes[k].bounds->0.area.rank() <= nodes[i].bounds->0.area.rank()
            }),
    ensures
        smallest_hit(nodes, prefix, point, containers, count) == Some(k),
    decreases count,
{
    let before = smallest_hit(nodes, prefix, point, containers, (count - 1) as nat);
    if k < count - 1 {
        lemma_first_smallest(nodes, prefix, point, containers, (count - 1) as nat, k);
    } else {
        law_hit_is_smallest(nodes, prefix, point, containers, (count - 1) as nat);
    }
}

/// Drops are laid out by the container's kind: rows and titlebars side by side, grids in their
/// columns and in at least one, stacks freely, every other container one under another.
pub proof fn law_drops_follow_the_container(kind: NativeNodeKind, grid_columns: u16)
    ensures
        kind == NativeNodeKind::Row || kind == NativeNodeKind::Titlebar ==> layout_of(
            kind,
            grid_columns,
        ) == (LayoutMode::Flex { horizontal: true }) && is_horizontal(kind),
        kind == NativeNodeKind::Stack ==> layout_of(kind, grid_columns) is Freeform,
        kind == NativeNodeKind::Grid && grid_columns > 0 ==> layout_of(kind, grid_columns) == (
        LayoutMode::Grid { columns: grid_columns as usize }),
        kind == NativeNodeKind::Grid && grid_columns == 0 ==> layout_of(kind, grid_columns) == (
        LayoutMode::Grid { columns: 1 }),
        kind != NativeNodeKind::Row && kind != NativeNodeKind::Titlebar && kind
            != NativeNodeKind::Stack && kind != NativeNodeKind::Grid ==> layout_of(
            kind,
            grid_columns,
        ) == (LayoutMode::Flex { horizontal: false }),
        kind != NativeNodeKind::Row && kind != NativeNodeKind::Titlebar ==> !is_horizontal(kind),
{
}

/// The canvas draws a pending drop in its container, at the slot it stands at and along the
/// container's direction.
pub proof fn law_drops_are_drawn_where_they_stand(preview: DragPreviewState, out: DropPreviewSpec)
    requires
        preview.shown_as(out),
    ensures
        out.parent@ == preview.parent@,
        out.index == effective_index_of(
            preview.base_index as int,
            preview.offset as int,
            preview.child_count as int,
        ),
        out.horizontal == preview.horizontal,
{
}

} // verus!
