//! What stands over the canvas: outlines, chips, badges and labels.
use vstd::prelude::*;

use crate::annotations::ResolvedAnnotation;
use crate::automation;
use crate::automation::{Rect, UiTree};
use crate::drag::DragPreviewState;
use crate::float_bits::Float32;
use crate::studio;
use crate::studio::StudioMode;
use crate::text;
use crate::text_set::TextSet;

verus! {

// ---------------------------------------------------------------------------
// Canvas
// ---------------------------------------------------------------------------

/// The pointer's shape over the canvas.
#[derive(Clone, Copy, Debug, PartialEq, Eq, Structural)]
pub enum CanvasCursor {
    Arrow,
    Crosshair,
    OpenHand,
}

/// How the canvas behaves in a mode.
#[derive(Clone, Copy, Debug, PartialEq, Eq, Structural)]
pub struct CanvasBehavior {
    pub cursor: CanvasCursor,
    /// Whether nodes react to the pointer.
    pub interactive: bool,
    /// Whether nodes can be grabbed and moved.
    pub draggable: bool,
    /// Whether dragging pans the canvas.
    pub pans: bool,
}

/// How the canvas behaves in a mode: panning leaves nodes inert, only selecting makes them
/// draggable, and each mode has one pointer shape.
pub fn canvas_behavior(mode: StudioMode) -> (behavior: CanvasBehavior)
    ensures
        behavior == (CanvasBehavior {
            cursor: match mode {
                StudioMode::Compare => CanvasCursor::Crosshair,
                StudioMode::Move => CanvasCursor::OpenHand,
                _ => CanvasCursor::Arrow,
            },
            interactive: mode != StudioMode::Move,
            draggable: mode == StudioMode::Design,
            pans: mode == StudioMode::Move,
        }),
{
    let cursor = match mode {
        StudioMode::Compare => CanvasCursor::Crosshair,
        StudioMode::Move => CanvasCursor::OpenHand,
        StudioMode::Design | StudioMode::Test | StudioMode::Source => CanvasCursor::Arrow,
    };
    CanvasBehavior {
        cursor,
        interactive: mode != StudioMode::Move,
        draggable: mode == StudioMode::Design,
        pans: mode == StudioMode::Move,
    }
}

/// Which way the wheel went.
#[derive(Clone, Copy, Debug, PartialEq, Eq, Structural)]
pub enum WheelDirection {
    Up,
    Down,
    Still,
}

/// How far the wheel nudges a pending drop; nothing where no drop is pending or the wheel did
/// not turn.
pub fn wheel_step(dragging: bool, wheel: WheelDirection) -> (step: Option<i32>)
    ensures
        step == (if !dragging {
            None::<i32>
        } else {
            match wheel {
                WheelDirection::Up => Some((-1) as i32),
                WheelDirection::Down => Some(1i32),
                WheelDirection::Still => None,
            }
        }),
{
    if !dragging {
        None
    } else {
        match wheel {
            WheelDirection::Up => Some(-1),
            WheelDirection::Down => Some(1),
            WheelDirection::Still => None,
        }
    }
}

/// The part of a runtime ID behind its last slash.
pub open spec fn last_segment(id: Seq<char>) -> Seq<char> {
    match text::last_position(id, '/', id.len() as int) {
        Some(at) => id.skip(at + 1),
        None => id,
    }
}

// ---------------------------------------------------------------------------
// Selection overlay
// ---------------------------------------------------------------------------

fn painted(tree: &UiTree, id: &str) -> (bounds: Option<Rect>)
    ensures
        bounds == automation::bounds_of(tree.nodes@, id@),
{
    match tree.get(id) {
        Some(node) => node.bounds,
        None => None,
    }
}

/// Where the hovered node is outlined: it is painted, at most one layer is selected, and the
/// selection is another node. Nothing is outlined while the window is not painted.
pub fn hover_outline(
    tree: &UiTree,
    app_window: Option<Rect>,
    hovered: &Option<String>,
    selected: &str,
    selected_count: usize,
) -> (outline: Option<Rect>)
    ensures
        outline == (match *hovered {
            Some(id) => if app_window is Some && selected_count <= 1 && selected@ != id@ {
                automation::bounds_of(tree.nodes@, id@)
            } else {
                None
            },
            None => None,
        }),
{
    match hovered {
        Some(id) => if app_window.is_some() && selected_count <= 1 && !text::same_text(
            selected,
            id.as_str(),
        ) {
            painted(tree, id.as_str())
        } else {
            None
        },
        None => None,
    }
}

/// A selected layer and where it is painted.
#[derive(Debug)]
pub struct PaintedLayer {
    pub id: String,
    pub rect: Rect,
}

/// What a painted layer says.
pub open spec fn painted_views(s: Seq<PaintedLayer>) -> Seq<(Seq<char>, Rect)> {
    Seq::new(s.len(), |i: int| (s[i].id@, s[i].rect))
}

/// The selected layers that are painted, in text order.
pub open spec fn painted_layers(ids: Seq<Seq<char>>, tree: UiTree) -> Seq<(Seq<char>, Rect)>
    decreases ids.len(),
{
    if ids.len() == 0 {
        Seq::empty()
    } else {
        let before = painted_layers(ids.drop_last(), tree);
        match automation::bounds_of(tree.nodes@, ids.last()) {
            Some(rect) => before.push((ids.last(), rect)),
            None => before,
        }
    }
}

/// The selected layers that are painted, in text order.
pub fn selected_rects(selected: &TextSet, tree: &UiTree) -> (out: Vec<PaintedLayer>)
    ensures
        painted_views(out@) == painted_layers(selected.members(), *tree),
{
    let ids = selected.to_vec();
    let ghost all = text::texts(ids@);
    let mut out: Vec<PaintedLayer> = Vec::new();
    let mut i: usize = 0;
    proof {
        assert(painted_views(out@) =~= painted_layers(all.take(0), *tree));
    }
    while i < ids.len()
        invariant
            i <= ids.len(),
            all == text::texts(ids@),
            painted_views(out@) == painted_layers(all.take(i as int), *tree),
        decreases ids.len() - i,
    {
        let ghost was = out@;
        proof {
            assert(all.take(i as int + 1).drop_last() =~= all.take(i as int));
            assert(all.take(i as int + 1).last() == ids@[i as int]@);
        }
        match painted(tree, ids[i].as_str()) {
            Some(rect) => {
                out.push(PaintedLayer { id: ids[i].clone(), rect });
                proof {
                    assert(painted_views(out@) =~= painted_views(was).push(
                        (ids@[i as int]@, rect),
                    ));
                }
            },
            None => {},
        }
        i += 1;
    }
    proof {
        assert(all.take(i as int) =~= all);
    }
    out
}

/// The box around the selection.
#[derive(Clone, Copy, Debug)]
pub struct SelectionBox {
    pub rect: Rect,
    /// Whether each selected layer is outlined as well.
    pub members_outlined: bool,
}

/// Whether a rectangle covers anything: its width and height are above zero.
pub open spec fn covers(rect: Rect) -> bool {
    &&& (Float32 { bits: 0 }).less_than(rect.width)
    &&& (Float32 { bits: 0 }).less_than(rect.height)
}

/// What the box around the selection stands around: the bounds of the selected layers that are
/// painted, or else the selected node.
pub open spec fn boxed(group: Option<Rect>, node: Option<Rect>) -> Option<Rect> {
    if group is Some {
        group
    } else {
        node
    }
}

/// The box around the selection, given the bounds of the selected layers that are painted and
/// how many those are: nothing is drawn around what covers nothing or while the window is not
/// painted, and each layer is outlined only in a group of more than one.
pub fn selection_box(
    group: Option<Rect>,
    group_size: usize,
    node: Option<Rect>,
    app_window: Option<Rect>,
) -> (out: Option<SelectionBox>)
    ensures
        out == (match boxed(group, node) {
            Some(rect) => if app_window is Some && covers(rect) {
                Some(
                    SelectionBox { rect, members_outlined: group is Some && group_size > 1 },
                )
            } else {
                None
            },
            None => None,
        }),
{
    let bounds = match group {
        Some(rect) => Some(rect),
        None => node,
    };
    let zero = Float32::from_bits(0);
    match bounds {
        Some(rect) => if app_window.is_some() && zero.lt(&rect.width) && zero.lt(&rect.height) {
            Some(SelectionBox { rect, members_outlined: group.is_some() && group_size > 1 })
        } else {
            None
        },
        None => None,
    }
}

/// Where the container of a pending drop is painted; nothing where no component is edited or
/// while the window is not painted.
pub fn drop_container(
    tree: &UiTree,
    app_window: Option<Rect>,
    component_id: &Option<String>,
    preview: &DragPreviewState,
) -> (outline: Option<Rect>)
    ensures
        outline == (match *component_id {
            Some(id) => if app_window is Some {
                automation::bounds_of(
                    tree.nodes@,
                    studio::component_runtime_id(id@, preview.parent@),
                )
            } else {
                None
            },
            None => None,
        }),
{
    match component_id {
        Some(id) => if app_window.is_some() {
            painted(
                tree,
                studio::runtime_id_of(id.as_str(), preview.parent.as_str()).as_str(),
            )
        } else {
            None
        },
        None => None,
    }
}

/// What the chip on the hovered node says.
pub fn hover_chip(hovered: &str, mode: StudioMode) -> (out: String)
    ensures
        out@ == (if mode == StudioMode::Compare {
            "Annotate #"@
        } else {
            "#"@
        }) + last_segment(hovered@),
{
    let cs = text::chars_of(hovered);
    let from: usize = match text::find_last(&cs, '/', cs.len()) {
        Some(at) => at + 1,
        None => 0,
    };
    let name = text::text_of(&cs, from, cs.len());
    proof {
        assert(name@ =~= last_segment(hovered@));
    }
    if mode == StudioMode::Compare {
        text::join2("Annotate #", name.as_str())
    } else {
        text::join2("#", name.as_str())
    }
}

/// The place of a pending drop among the slots, which in a stack is the paint order.
pub open spec fn drop_text(preview: DragPreviewState) -> Seq<char> {
    (if preview.is_stack {
        "z-index "@
    } else {
        "order "@
    }) + text::decimal_text(
        crate::drag::smaller(preview.index() + 1, usize::MAX as int) as nat,
    ) + " / "@ + text::decimal_text(
        crate::drag::smaller(preview.child_count + 1, usize::MAX as int) as nat,
    )
}

/// What the chip of a pending drop says; there is none where no component is edited or while
/// the window is not painted.
pub fn drop_chip(
    app_window: Option<Rect>,
    component_id: &Option<String>,
    preview: &DragPreviewState,
) -> (chip: Option<String>)
    ensures
        text::text_view(chip) == (if app_window is Some && component_id is Some {
            Some(drop_text(*preview))
        } else {
            None
        }),
{
    if app_window.is_none() || component_id.is_none() {
        return None;
    }
    let label = preview.position_label();
    let position: usize = label.0;
    let total: usize = label.1;
    let mut out = text::join3(
        if preview.is_stack {
            "z-index "
        } else {
            "order "
        },
        text::decimal(position as u64).as_str(),
        " / ",
    );
    out.append(text::decimal(total as u64).as_str());
    Some(out)
}

// ---------------------------------------------------------------------------
// Annotation layer
// ---------------------------------------------------------------------------

/// The badge of an annotation: its place in the active queue from one, where its element is
/// painted, and whether it is the one in the editor.
#[derive(Debug)]
pub struct AnnotationBadge {
    pub id: String,
    pub number: usize,
    pub rect: Rect,
    pub active: bool,
}

/// What a badge shows.
#[verifier::ext_equal]
pub struct BadgeView {
    pub id: Seq<char>,
    pub number: int,
    pub rect: Rect,
    pub active: bool,
}

impl View for AnnotationBadge {
    type V = BadgeView;

    open spec fn view(&self) -> BadgeView {
        BadgeView {
            id: self.id@,
            number: self.number as int,
            rect: self.rect,
            active: self.active,
        }
    }
}

/// What a list of badges shows.
pub open spec fn badge_views(badges: Seq<AnnotationBadge>) -> Seq<BadgeView> {
    Seq::new(badges.len(), |i: int| badges[i]@)
}

/// The badges of the active queue: one for each annotation whose element is painted.
pub open spec fn badges_of(
    resolved: Seq<ResolvedAnnotation>,
    active: Option<Seq<char>>,
) -> Seq<BadgeView>
    decreases resolved.len(),
{
    if resolved.len() == 0 {
        Seq::empty()
    } else {
        let before = badges_of(resolved.drop_last(), active);
        let last = resolved.last();
        match last.current_rect {
            Some(rect) => before.push(
                BadgeView {
                    id: last.annotation.id@,
                    number: resolved.len() as int,
                    rect,
                    active: active == Some(last.annotation.id@),
                },
            ),
            None => before,
        }
    }
}

/// The badges of the active queue.
pub fn annotation_badges(resolved: &Vec<ResolvedAnnotation>, active: &Option<String>) -> (badges:
    Vec<AnnotationBadge>)
    ensures
        badge_views(badges@) == badges_of(resolved@, text::text_view(*active)),
{
    let mut badges: Vec<AnnotationBadge> = Vec::new();
    let mut i: usize = 0;
    proof {
        assert(badge_views(badges@) =~= badges_of(resolved@.take(0), text::text_view(*active)));
    }
    while i < resolved.len()
        invariant
            i <= resolved.len(),
            badge_views(badges@) == badges_of(
                resolved@.take(i as int),
                text::text_view(*active),
            ),
        decreases resolved.len() - i,
    {
        let ghost was = badges@;
        proof {
            assert(resolved@.take(i as int + 1).drop_last() =~= resolved@.take(i as int));
            assert(resolved@.take(i as int + 1).last() == resolved@[i as int]);
        }
        let annotation = &resolved[i];
        match annotation.current_rect {
            Some(rect) => {
                let badge = AnnotationBadge {
                    id: annotation.annotation.id.clone(),
                    number: i + 1,
                    rect,
                    active: text::is_text(active, annotation.annotation.id.as_str()),
                };
                badges.push(badge);
                proof {
                    assert(badge_views(badges@) =~= badge_views(was).push(badge@));
                }
            },
            None => {},
        }
        i += 1;
    }
    proof {
        assert(resolved@.take(i as int) =~= resolved@);
    }
    badges
}

/// No badge has a higher number than there are annotations in the queue, and later badges
/// have higher numbers.
pub proof fn law_badge_numbers(resolved: Seq<ResolvedAnnotation>, active: Option<Seq<char>>)
    ensures
        badges_of(resolved, active).len() <= resolved.len(),
        forall|i: int|
            0 <= i < badges_of(resolved, active).len() ==> 1 <= (#[trigger] badges_of(
                resolved,
                active,
            )[i]).number <= resolved.len(),
        forall|i: int, j: int|
            0 <= i < j < badges_of(resolved, active).len() ==> (#[trigger] badges_of(
                resolved,
                active,
            )[i]).number < (#[trigger] badges_of(resolved, active)[j]).number,
    decreases resolved.len(),
{
    if resolved.len() > 0 {
        law_badge_numbers(resolved.drop_last(), active);
    }
}

/// The position at or after `from` of the first resolved annotation with this ID.
pub open spec fn resolved_at(
    resolved: Seq<ResolvedAnnotation>,
    id: Seq<char>,
    from: int,
) -> Option<int>
    decreases resolved.len() - from,
{
    if from < 0 || from >= resolved.len() {
        None
    } else if resolved[from].annotation.id@ == id {
        Some(from)
    } else {
        resolved_at(resolved, id, from + 1)
    }
}

/// The element that the annotation editor stands at: that of the annotation in it where it is
/// painted, else the selected one.
pub fn editor_anchor(
    resolved: &Vec<ResolvedAnnotation>,
    active: &Option<String>,
    tree: &UiTree,
    selected: &str,
) -> (anchor: Option<Rect>)
    ensures
        ({
            let own = match *active {
                Some(id) => match resolved_at(resolved@, id@, 0) {
                    Some(i) => resolved@[i].current_rect,
                    None => None,
                },
                None => None,
            };
            anchor == (if own is Some {
                own
            } else {
                automation::bounds_of(tree.nodes@, selected@)
            })
        }),
{
    match active {
        Some(id) => {
            let mut i: usize = 0;
            while i < resolved.len()
                invariant
                    i <= resolved.len(),
                    *active == Some(*id),
                    resolved_at(resolved@, id@, 0) == resolved_at(resolved@, id@, i as int),
                decreases resolved.len() - i,
            {
                if text::same_text(resolved[i].annotation.id.as_str(), id.as_str()) {
                    return match resolved[i].current_rect {
                        Some(rect) => Some(rect),
                        None => painted(tree, selected),
                    };
                }
                i += 1;
            }
        },
        None => {},
    }
    painted(tree, selected)
}

// ---------------------------------------------------------------------------
// Labels
// ---------------------------------------------------------------------------

/// The painted numbers of an element, each as a whole number of pixels.
#[derive(Debug)]
pub struct RectLabels {
    pub x: String,
    pub y: String,
    pub width: String,
    pub height: String,
}

/// The place of an element within the canvas, each number as a whole number of pixels.
#[derive(Debug)]
pub struct PositionLabels {
    pub x: String,
    pub y: String,
}

/// Where an element is painted.
pub open spec fn selection_rect_label_text(rect: Option<&RectLabels>) -> Seq<char> {
    (match rect {
            None => "not painted"@,
            Some(rect) => "x "@ + rect.x@ + " · y "@ + rect.y@ + " · w "@ + rect.width@ + " · h "@
                + rect.height@,
        })
}

/// Where an element is painted.
pub fn selection_rect_label(rect: Option<&RectLabels>) -> (out: String)
    ensures
        out@ == selection_rect_label_text(rect),
{
    match rect {
        None => "not painted".to_owned(),
        Some(rect) => {
            let mut out = text::join5("x ", rect.x.as_str(), " · y ", rect.y.as_str(), " · w ");
            out.append(rect.width.as_str());
            out.append(" · h ");
            out.append(rect.height.as_str());
            out
        },
    }
}

/// How large an element is painted.
pub open spec fn selection_size_label_text(rect: Option<&RectLabels>) -> Seq<char> {
    (match rect {
            None => "awaiting paint"@,
            Some(rect) => rect.width@ + " × "@ + rect.height@,
        })
}

/// How large an element is painted.
pub fn selection_size_label(rect: Option<&RectLabels>) -> (out: String)
    ensures
        out@ == selection_size_label_text(rect),
{
    match rect {
        None => "awaiting paint".to_owned(),
        Some(rect) => text::join3(rect.width.as_str(), " × ", rect.height.as_str()),
    }
}

/// One painted number, or a dash.
pub open spec fn painted_number_text(value: Option<&String>) -> Seq<char> {
    (match value {
            None => "—"@,
            Some(value) => value@,
        })
}

/// One painted number, or a dash.
pub fn painted_number(value: Option<&String>) -> (out: String)
    ensures
        out@ == painted_number_text(value),
{
    match value {
        None => "—".to_owned(),
        Some(value) => value.clone(),
    }
}

/// The viewport's name and size.
pub fn viewport_label(name: &str, width: &str, height: &str) -> (out: String)
    ensures
        out@ == name@ + " · "@ + width@ + "×"@ + height@,
{
    text::join5(name, " · ", width, "×", height)
}

/// The window system whose frame the preview draws.
#[derive(Clone, Copy, Debug, PartialEq, Eq, Structural)]
pub enum FramePlatform {
    Windows,
    Mac,
    Linux,
}

/// What the preview's frame is called.
pub fn decoration_name(platform: FramePlatform) -> (out: String)
    ensures
        out@ == (match platform {
            FramePlatform::Windows => "Windows 11"@,
            FramePlatform::Mac => "macOS"@,
            FramePlatform::Linux => "Linux"@,
        }) + " native window decoration preview"@,
{
    text::join2(
        match platform {
            FramePlatform::Windows => "Windows 11",
            FramePlatform::Mac => "macOS",
            FramePlatform::Linux => "Linux",
        },
        " native window decoration preview",
    )
}

/// The part of a runtime ID behind its last slash is what stands there; without a slash it is the
/// whole ID.
pub proof fn law_last_segment_is_behind_the_last_slash(front: Seq<char>, segment: Seq<char>)
    requires
        forall|i: int| 0 <= i < segment.len() ==> #[trigger] segment[i] != '/',
    ensures
        last_segment(segment) == segment,
        last_segment(front.push('/') + segment) == segment,
{
    let id = front.push('/') + segment;
    lemma_slash(id, front.len() as int, id.len() as int);
    assert(id.skip(front.len() as int + 1) =~= segment);
    lemma_no_slash(segment, segment.len() as int);
}

proof fn lemma_slash(id: Seq<char>, at: int, end: int)
    requires
        0 <= at < end <= id.len(),
        id[at] == '/',
        forall|i: int| at < i < end ==> #[trigger] id[i] != '/',
    ensures
        text::last_position(id, '/', end) == Some(at),
    decreases end,
{
    if at < end - 1 {
        lemma_slash(id, at, end - 1);
    }
}

proof fn lemma_no_slash(id: Seq<char>, end: int)
    requires
        0 <= end <= id.len(),
        forall|i: int| 0 <= i < end ==> #[trigger] id[i] != '/',
    ensures
        text::last_position(id, '/', end) is None,
    decreases end,
{
    if end > 0 {
        lemma_no_slash(id, end - 1);
    }
}

/// Each selected layer that is painted is shown once with its bounds, in order, and one that is
/// not painted is left out.
pub proof fn law_painted_layers_are_shown(ids: Seq<Seq<char>>, id: Seq<char>, tree: UiTree)
    ensures
        painted_layers(Seq::empty(), tree).len() == 0,
        automation::bounds_of(tree.nodes@, id) matches Some(rect) ==> painted_layers(
            ids.push(id),
            tree,
        ) == painted_layers(ids, tree).push((id, rect)),
        automation::bounds_of(tree.nodes@, id) is None ==> painted_layers(ids.push(id), tree)
            == painted_layers(ids, tree),
{
    assert(ids.push(id).drop_last() =~= ids);
}

/// An annotation is counted whether or not its element is painted, and has a badge with its place
/// in the queue where it is; the badge of the annotation in the editor is marked.
pub proof fn law_badges_carry_the_place_in_the_queue(
    resolved: Seq<ResolvedAnnotation>,
    next: ResolvedAnnotation,
    active: Option<Seq<char>>,
)
    ensures
        ({
            let before = badges_of(resolved, active);
            let after = badges_of(resolved.push(next), active);
            &&& next.current_rect is None ==> after == before
            &&& next.current_rect matches Some(rect) ==> {
                &&& after.len() == before.len() + 1
                &&& after.drop_last() == before
                &&& after.last().id == next.annotation.id@
                &&& after.last().number == resolved.len() + 1
                &&& after.last().rect == rect
                &&& after.last().active <==> active == Some(next.annotation.id@)
            }
        }),
{
    assert(resolved.push(next).drop_last() =~= resolved);
    if next.current_rect is Some {
        assert(badges_of(resolved.push(next), active).drop_last() =~= badges_of(resolved, active));
    }
}

/// A resolved annotation is found at the first place at which its ID stands.
pub proof fn law_first_resolved_is_found(
    resolved: Seq<ResolvedAnnotation>,
    id: Seq<char>,
    from: int,
    i: int,
)
    requires
        0 <= from <= i <= resolved.len(),
        i < resolved.len() ==> resolved[i].annotation.id@ == id,
        forall|j: int| from <= j < i ==> #[trigger] resolved[j].annotation.id@ != id,
    ensures
        resolved_at(resolved, id, from) == (if i < resolved.len() {
            Some(i)
        } else {
            None
        }),
    decreases i - from,
{
    if from < i {
        assert(resolved[from].annotation.id@ != id);
        law_first_resolved_is_found(resolved, id, from + 1, i);
    }
}

/// The box stands around the painted layers of the selection where there are any, and else around
/// the selected node; the texts tell its place and size where it is painted.
pub proof fn law_box_and_labels(
    group: Option<Rect>,
    node: Option<Rect>,
    rect: &RectLabels,
    number: &String,
)
    ensures
        group is Some ==> boxed(group, node) == group,
        group is None ==> boxed(group, node) == node,
        selection_size_label_text(Some(rect)) == rect.width@ + " × "@ + rect.height@,
        selection_size_label_text(None) == "awaiting paint"@,
        selection_rect_label_text(Some(rect)) == "x "@ + rect.x@ + " · y "@ + rect.y@ + " · w "@
            + rect.width@ + " · h "@ + rect.height@,
        selection_rect_label_text(None) == "not painted"@,
        painted_number_text(Some(number)) == number@,
        painted_number_text(None) == "—"@,
{
}

/// A pending drop is told by its slot, counted from one, of all the slots there are, which is one
/// more than the children.
pub proof fn law_drops_are_told_by_their_slot(preview: DragPreviewState)
    requires
        preview.child_count < usize::MAX,
    ensures
        preview.is_stack ==> drop_text(preview) == "z-index "@ + text::decimal_text(
            (preview.index() + 1) as nat,
        ) + " / "@ + text::decimal_text((preview.child_count + 1) as nat),
        !preview.is_stack ==> drop_text(preview) == "order "@ + text::decimal_text(
            (preview.index() + 1) as nat,
        ) + " / "@ + text::decimal_text((preview.child_count + 1) as nat),
{
    crate::drag::law_effective_index_within_container(
        preview.base_index as int,
        preview.offset as int,
        preview.child_count as int,
    );
}

} // verus!
