//! Spatial review comments: an ordered, bounded, versioned document of tasks attached
//! to elements.
use vstd::prelude::*;

use crate::automation;
use crate::automation::{Rect, UiTree};
use crate::float_bits::{Float32, HALF_BITS};
use crate::text;

verus! {

/// The version of the documents that this library writes.
pub const ANNOTATION_DOCUMENT_VERSION: u16 = 2;

/// The older version that is migrated on load.
pub const LEGACY_ANNOTATION_DOCUMENT_VERSION: u16 = 1;

/// The largest document that is read.
pub const MAX_ANNOTATION_DOCUMENT_BYTES: u64 = 1_048_576;

/// The most annotations that a document holds.
pub const MAX_ANNOTATIONS: usize = 2_048;

/// The longest comment.
pub const MAX_COMMENT_BYTES: usize = 16_384;

// ---------------------------------------------------------------------------
// Data
// ---------------------------------------------------------------------------

/// Stable selection context shared by the inspector, annotations and resources.
#[derive(Debug)]
pub struct ElementSelection {
    /// Source-level element ID, independent of runtime embedding.
    pub authored_id: String,
    /// Fully namespaced ID in the semantic tree.
    pub runtime_id: String,
    /// Source revision when the selection was made.
    pub document_revision: u64,
    /// Last observed window-relative bounds.
    pub captured_rect: Option<Rect>,
}

/// What a selection holds.
#[verifier::ext_equal]
pub struct SelectionView {
    pub authored_id: Seq<char>,
    pub runtime_id: Seq<char>,
    pub document_revision: u64,
    pub captured_rect: Option<Rect>,
}

impl View for ElementSelection {
    type V = SelectionView;

    open spec fn view(&self) -> SelectionView {
        SelectionView {
            authored_id: self.authored_id@,
            runtime_id: self.runtime_id@,
            document_revision: self.document_revision,
            captured_rect: self.captured_rect,
        }
    }
}

impl SelectionView {
    /// Both IDs have 1 to 256 bytes, the revision is not zero and a captured rectangle is valid.
    pub open spec fn valid(self) -> bool {
        &&& 1 <= text::byte_len(self.authored_id) <= 256
        &&& 1 <= text::byte_len(self.runtime_id) <= 256
        &&& self.document_revision != 0
        &&& self.captured_rect is Some ==> self.captured_rect->0.valid
    }
}

impl Clone for ElementSelection {
    fn clone(&self) -> (copy: Self)
        ensures
            copy == *self,
    {
        ElementSelection {
            authored_id: self.authored_id.clone(),
            runtime_id: self.runtime_id.clone(),
            document_revision: self.document_revision,
            captured_rect: self.captured_rect,
        }
    }
}

impl ElementSelection {
    /// A selection from one authored and one runtime identifier.
    pub fn new(
        authored_id: &str,
        runtime_id: &str,
        document_revision: u64,
        captured_rect: Option<Rect>,
    ) -> (selection: Self)
        ensures
            selection@ == (SelectionView {
                authored_id: authored_id@,
                runtime_id: runtime_id@,
                document_revision,
                captured_rect,
            }),
    {
        ElementSelection {
            authored_id: authored_id.to_owned(),
            runtime_id: runtime_id.to_owned(),
            document_revision,
            captured_rect,
        }
    }
}

/// Normalized annotation anchor within an element's current rectangle.
#[derive(Clone, Copy, Debug, PartialEq, Eq, Structural)]
pub struct NormalizedAnchor {
    /// Horizontal position from zero through one.
    pub x: Float32,
    /// Vertical position from zero through one.
    pub y: Float32,
}

impl NormalizedAnchor {
    /// Both coordinates lie within the closed unit interval.
    pub open spec fn valid(self) -> bool {
        self.x.in_unit_interval() && self.y.in_unit_interval()
    }
}

impl Default for NormalizedAnchor {
    /// The middle of the element.
    fn default() -> (anchor: Self)
        ensures
            anchor.x.bits == HALF_BITS,
            anchor.y.bits == HALF_BITS,
            anchor.valid(),
    {
        NormalizedAnchor { x: Float32 { bits: HALF_BITS }, y: Float32 { bits: HALF_BITS } }
    }
}

/// Review state of one spatial comment.
#[derive(Clone, Copy, Debug, PartialEq, Eq, Structural)]
pub enum AnnotationStatus {
    /// The task is queued and should inform the next change.
    Open,
    /// Work has started but is not yet complete.
    InProgress,
    /// Work is complete and excluded from the active queue.
    Done,
    /// A historical task that ordinary history views leave out.
    Archived,
}

impl Default for AnnotationStatus {
    fn default() -> (status: Self)
        ensures
            status == AnnotationStatus::Open,
    {
        AnnotationStatus::Open
    }
}

impl AnnotationStatus {
    /// Open or in progress.
    pub open spec fn active(self) -> bool {
        self == AnnotationStatus::Open || self == AnnotationStatus::InProgress
    }

    /// The states that a task may move to: every state keeps itself; work starts, stops and
    /// completes; completed work reopens or is archived; archived work reopens.
    pub open spec fn may_become(self, next: AnnotationStatus) -> bool {
        ||| self == next
        ||| next == AnnotationStatus::Open
        ||| self.active() && next != AnnotationStatus::Archived
        ||| self == AnnotationStatus::Done && next == AnnotationStatus::Archived
    }

    /// Whether the comment belongs to the active queue.
    pub fn is_active(self) -> (result: bool)
        ensures
            result == self.active(),
    {
        match self {
            AnnotationStatus::Open | AnnotationStatus::InProgress => true,
            AnnotationStatus::Done | AnnotationStatus::Archived => false,
        }
    }

    fn allows(self, next: AnnotationStatus) -> (result: bool)
        ensures
            result == self.may_become(next),
    {
        match (self, next) {
            (AnnotationStatus::Open, AnnotationStatus::InProgress) => true,
            (AnnotationStatus::Open, AnnotationStatus::Done) => true,
            (AnnotationStatus::InProgress, AnnotationStatus::Open) => true,
            (AnnotationStatus::InProgress, AnnotationStatus::Done) => true,
            (AnnotationStatus::Done, AnnotationStatus::Open) => true,
            (AnnotationStatus::Done, AnnotationStatus::Archived) => true,
            (AnnotationStatus::Archived, AnnotationStatus::Open) => true,
            _ => self == next,
        }
    }
}

/// One project-local comment attached to stable authored and runtime identity.
#[derive(Debug)]
pub struct Annotation {
    /// Stable project-local comment ID.
    pub id: String,
    /// Selected element when the comment was created.
    pub target: ElementSelection,
    /// Normalized location that survives element movement and resizing.
    pub anchor: NormalizedAnchor,
    /// Human review comment.
    pub comment: String,
    /// Current review state.
    pub status: AnnotationStatus,
}

/// What an annotation holds.
#[verifier::ext_equal]
pub struct AnnotationView {
    pub id: Seq<char>,
    pub target: SelectionView,
    pub anchor: NormalizedAnchor,
    pub comment: Seq<char>,
    pub status: AnnotationStatus,
}

impl View for Annotation {
    type V = AnnotationView;

    open spec fn view(&self) -> AnnotationView {
        AnnotationView {
            id: self.id@,
            target: self.target@,
            anchor: self.anchor,
            comment: self.comment@,
            status: self.status,
        }
    }
}

impl Clone for Annotation {
    fn clone(&self) -> (copy: Self)
        ensures
            copy == *self,
    {
        Annotation {
            id: self.id.clone(),
            target: self.target.clone(),
            anchor: self.anchor,
            comment: self.comment.clone(),
            status: self.status,
        }
    }
}

/// Versioned offline annotation document.
#[derive(Debug)]
pub struct AnnotationStore {
    /// Versioned schema.
    pub version: u16,
    /// Next monotonic project-local annotation number.
    pub next_id: u64,
    /// Ordered spatial comments.
    pub annotations: Vec<Annotation>,
}

/// What a document holds.
#[verifier::ext_equal]
pub struct StoreView {
    pub version: u16,
    pub next_id: u64,
    pub annotations: Seq<AnnotationView>,
}

/// The views of a row of annotations.
pub open spec fn annotation_views(s: Seq<Annotation>) -> Seq<AnnotationView> {
    Seq::new(s.len(), |i: int| s[i]@)
}

impl View for AnnotationStore {
    type V = StoreView;

    open spec fn view(&self) -> StoreView {
        StoreView {
            version: self.version,
            next_id: self.next_id,
            annotations: annotation_views(self.annotations@),
        }
    }
}

impl Clone for AnnotationStore {
    fn clone(&self) -> (copy: Self)
        ensures
            copy@ == self@,
    {
        let annotations = self.annotations.clone();
        proof {
            assert(annotations@ =~= self.annotations@);
        }
        AnnotationStore { version: self.version, next_id: self.next_id, annotations }
    }
}

/// Why annotation data was refused.
#[derive(Clone, Copy, Debug)]
#[allow(inconsistent_fields)]
pub enum AnnotationError {
    /// The requested task ID does not exist.
    NotFound,
    /// The document exceeds the bounded local input size.
    TooLarge { found: u64, maximum: u64 },
    /// The schema version is unsupported.
    UnsupportedVersion { found: u16, supported: u16 },
    /// Annotation data violates a bounded semantic invariant.
    Invalid(&'static str),
}

/// What an error says.
#[verifier::ext_equal]
#[allow(inconsistent_fields)]
pub enum ErrorView {
    NotFound,
    TooLarge { found: u64, maximum: u64 },
    UnsupportedVersion { found: u16, supported: u16 },
    Invalid(Seq<char>),
}

impl View for AnnotationError {
    type V = ErrorView;

    open spec fn view(&self) -> ErrorView {
        match self {
            AnnotationError::NotFound => ErrorView::NotFound,
            AnnotationError::TooLarge { found, maximum } => ErrorView::TooLarge {
                found: *found,
                maximum: *maximum,
            },
            AnnotationError::UnsupportedVersion { found, supported } => {
                ErrorView::UnsupportedVersion { found: *found, supported: *supported }
            },
            AnnotationError::Invalid(reason) => ErrorView::Invalid(reason@),
        }
    }
}

impl ErrorView {
    /// The message that people read.
    pub open spec fn message(self) -> Seq<char> {
        match self {
            ErrorView::NotFound => "annotation task was not found"@,
            ErrorView::TooLarge { found, maximum } => "annotation document is "@
                + text::decimal_text(found as nat) + " bytes; maximum is "@ + text::decimal_text(
                maximum as nat,
            ),
            ErrorView::UnsupportedVersion { found, supported } => "annotation version "@
                + text::decimal_text(found as nat) + " is unsupported; expected "@
                + text::decimal_text(supported as nat),
            ErrorView::Invalid(reason) => "invalid annotations: "@ + reason,
        }
    }
}

impl AnnotationError {
    /// The message that people read.
    pub fn message(&self) -> (out: String)
        ensures
            out@ == self@.message(),
    {
        match self {
            AnnotationError::NotFound => "annotation task was not found".to_owned(),
            AnnotationError::TooLarge { found, maximum } => {
                let mut out = text::join3(
                    "annotation document is ",
                    text::decimal(*found).as_str(),
                    " bytes; maximum is ",
                );
                out.append(text::decimal(*maximum).as_str());
                out
            },
            AnnotationError::UnsupportedVersion { found, supported } => {
                let mut out = text::join3(
                    "annotation version ",
                    text::decimal(*found as u64).as_str(),
                    " is unsupported; expected ",
                );
                out.append(text::decimal(*supported as u64).as_str());
                out
            },
            AnnotationError::Invalid(reason) => text::join2("invalid annotations: ", reason),
        }
    }
}

// ---------------------------------------------------------------------------
// Validity
// ---------------------------------------------------------------------------

/// A comment has 1 to 16384 bytes.
pub open spec fn valid_comment(comment: Seq<char>) -> bool {
    1 <= text::byte_len(comment) <= MAX_COMMENT_BYTES
}

/// The ID has 1 to 128 bytes and no earlier annotation has it; the comment is valid.
pub open spec fn valid_identity(s: Seq<AnnotationView>, i: int) -> bool {
    &&& 1 <= text::byte_len(s[i].id) <= 128
    &&& forall|j: int| 0 <= j < i ==> (#[trigger] s[j]).id != s[i].id
    &&& valid_comment(s[i].comment)
}

/// What is wrong with the annotation at position `i`.
pub open spec fn annotation_fault(s: Seq<AnnotationView>, i: int) -> Option<ErrorView> {
    if !valid_identity(s, i) {
        Some(ErrorView::Invalid("annotation identity or comment is invalid"@))
    } else if !s[i].target.valid() {
        Some(ErrorView::Invalid("annotation selection is invalid"@))
    } else if !s[i].anchor.valid() {
        Some(ErrorView::Invalid("annotation anchor is invalid"@))
    } else {
        None
    }
}

/// The first fault at or after position `from`.
pub open spec fn first_fault(s: Seq<AnnotationView>, from: int) -> Option<ErrorView>
    decreases s.len() - from,
{
    if from < 0 || from >= s.len() {
        None
    } else if annotation_fault(s, from) is Some {
        annotation_fault(s, from)
    } else {
        first_fault(s, from + 1)
    }
}

impl StoreView {
    /// The document without annotations.
    pub open spec fn fresh() -> StoreView {
        StoreView {
            version: ANNOTATION_DOCUMENT_VERSION,
            next_id: 1,
            annotations: Seq::empty(),
        }
    }

    /// What is wrong with the document.
    pub open spec fn fault(self) -> Option<ErrorView> {
        if self.version != ANNOTATION_DOCUMENT_VERSION {
            Some(
                ErrorView::UnsupportedVersion {
                    found: self.version,
                    supported: ANNOTATION_DOCUMENT_VERSION,
                },
            )
        } else if self.annotations.len() > MAX_ANNOTATIONS || self.next_id == 0 {
            Some(ErrorView::Invalid("annotation count or sequence is invalid"@))
        } else {
            first_fault(self.annotations, 0)
        }
    }

    /// A document that can be saved.
    pub open spec fn valid(self) -> bool {
        self.fault() is None
    }

    /// The document brought to the current version.
    pub open spec fn migrated(self) -> StoreView {
        StoreView { version: ANNOTATION_DOCUMENT_VERSION, ..self }
    }

    /// What loading this parsed document gives.
    pub open spec fn loaded(self) -> Result<StoreView, ErrorView> {
        if self.version != ANNOTATION_DOCUMENT_VERSION && self.version
            != LEGACY_ANNOTATION_DOCUMENT_VERSION {
            Err(
                ErrorView::UnsupportedVersion {
                    found: self.version,
                    supported: ANNOTATION_DOCUMENT_VERSION,
                },
            )
        } else {
            match self.migrated().fault() {
                Some(fault) => Err(fault),
                None => Ok(self.migrated()),
            }
        }
    }

    /// Why a new comment is refused.
    pub open spec fn add_fault(
        self,
        selection: SelectionView,
        comment: Seq<char>,
        anchor: NormalizedAnchor,
    ) -> Option<ErrorView> {
        if self.annotations.len() >= MAX_ANNOTATIONS {
            Some(ErrorView::Invalid("annotation document reached its capacity"@))
        } else if !selection.valid() {
            Some(ErrorView::Invalid("annotation selection is invalid"@))
        } else if !anchor.valid() {
            Some(ErrorView::Invalid("annotation anchor is invalid"@))
        } else if !valid_comment(text::trimmed(comment)) {
            Some(ErrorView::Invalid("annotation comment is empty or exceeds 16 KiB"@))
        } else {
            None
        }
    }

    /// The annotation that adding a comment creates.
    pub open spec fn new_annotation(
        self,
        selection: SelectionView,
        comment: Seq<char>,
        anchor: NormalizedAnchor,
    ) -> AnnotationView {
        AnnotationView {
            id: comment_id(self.next_id as nat),
            target: selection,
            anchor,
            comment: text::trimmed(comment),
            status: AnnotationStatus::Open,
        }
    }

    /// The document after a comment was added at its end; the number sequence stops at the
    /// largest number.
    pub open spec fn added(
        self,
        selection: SelectionView,
        comment: Seq<char>,
        anchor: NormalizedAnchor,
    ) -> StoreView {
        StoreView {
            next_id: if self.next_id == u64::MAX {
                u64::MAX
            } else {
                (self.next_id + 1) as u64
            },
            annotations: self.annotations.push(self.new_annotation(selection, comment, anchor)),
            ..self
        }
    }

    /// The position of the first annotation with this ID.
    pub open spec fn position(self, id: Seq<char>) -> Option<int> {
        first_with_id(self.annotations, id, 0)
    }

    /// The document with the status at one position replaced.
    pub open spec fn with_status(self, i: int, status: AnnotationStatus) -> StoreView {
        StoreView {
            annotations: self.annotations.update(
                i,
                AnnotationView { status, ..self.annotations[i] },
            ),
            ..self
        }
    }

    /// The document with the comment at one position replaced.
    pub open spec fn with_comment(self, i: int, comment: Seq<char>) -> StoreView {
        StoreView {
            annotations: self.annotations.update(
                i,
                AnnotationView { comment, ..self.annotations[i] },
            ),
            ..self
        }
    }

    /// The document without the annotations that have this ID.
    pub open spec fn without(self, id: Seq<char>) -> StoreView {
        StoreView { annotations: without_id(self.annotations, id), ..self }
    }

    /// Every annotation carries the ID of a number below the next one.
    pub open spec fn sequenced(self) -> bool {
        forall|i: int|
            0 <= i < self.annotations.len() ==> numbered_below(
                (#[trigger] self.annotations[i]).id,
                self.next_id as nat,
            )
    }
}

/// Whether `id` is the ID of a number from 1 to below `next`.
pub open spec fn numbered_below(id: Seq<char>, next: nat) -> bool {
    exists|n: nat| 1 <= n < next && id == #[trigger] comment_id(n)
}

/// The ID of the `n`th comment: the number with at least six digits.
pub open spec fn comment_id(n: nat) -> Seq<char> {
    "comment-"@ + text::zero_padded(text::decimal_text(n), 6)
}

/// The position at or after `from` of the first annotation with this ID.
pub open spec fn first_with_id(s: Seq<AnnotationView>, id: Seq<char>, from: int) -> Option<int>
    decreases s.len() - from,
{
    if from < 0 || from >= s.len() {
        None
    } else if s[from].id == id {
        Some(from)
    } else {
        first_with_id(s, id, from + 1)
    }
}

/// The annotations without those that have this ID, in order.
pub open spec fn without_id(s: Seq<AnnotationView>, id: Seq<char>) -> Seq<AnnotationView>
    decreases s.len(),
{
    if s.len() == 0 {
        s
    } else if s.last().id == id {
        without_id(s.drop_last(), id)
    } else {
        without_id(s.drop_last(), id).push(s.last())
    }
}

/// The active annotations in order.
pub open spec fn active_of(s: Seq<AnnotationView>) -> Seq<AnnotationView>
    decreases s.len(),
{
    if s.len() == 0 {
        s
    } else if s.last().status.active() {
        active_of(s.drop_last()).push(s.last())
    } else {
        active_of(s.drop_last())
    }
}

/// The last active annotation on this runtime element.
pub open spec fn latest_active(s: Seq<AnnotationView>, runtime_id: Seq<char>) -> Option<
    AnnotationView,
>
    decreases s.len(),
{
    if s.len() == 0 {
        None
    } else if s.last().status.active() && s.last().target.runtime_id == runtime_id {
        Some(s.last())
    } else {
        latest_active(s.drop_last(), runtime_id)
    }
}

/// Review-task counts split by lifecycle bucket.
#[derive(Clone, Copy, Debug, PartialEq, Eq, Structural)]
pub struct AnnotationCounts {
    /// Open or in-progress tasks.
    pub active: usize,
    /// Completed tasks retained as history.
    pub done: usize,
    /// Archived historical tasks.
    pub archived: usize,
}

impl Default for AnnotationCounts {
    fn default() -> (counts: Self)
        ensures
            counts == (AnnotationCounts { active: 0, done: 0, archived: 0 }),
    {
        AnnotationCounts { active: 0, done: 0, archived: 0 }
    }
}

/// How many of the annotations have this status.
pub open spec fn count_of(s: Seq<AnnotationView>, status: AnnotationStatus) -> nat
    decreases s.len(),
{
    if s.len() == 0 {
        0
    } else {
        count_of(s.drop_last(), status) + (if s.last().status == status {
            1nat
        } else {
            0
        })
    }
}

/// The terms of one coordinate of an anchor point: `origin + extent * fraction`.
#[derive(Clone, Copy, Debug, PartialEq, Eq, Structural)]
pub struct AnchoredCoordinate {
    pub origin: Float32,
    pub extent: Float32,
    pub fraction: Float32,
}

/// Window-relative point of an anchor, each coordinate by its terms.
#[derive(Clone, Copy, Debug, PartialEq, Eq, Structural)]
pub struct ResolvedPoint {
    /// Horizontal logical coordinate.
    pub x: AnchoredCoordinate,
    /// Vertical logical coordinate.
    pub y: AnchoredCoordinate,
}

/// One annotation enriched with current geometry at resource-read time.
#[derive(Debug)]
pub struct ResolvedAnnotation {
    /// Persistent comment and capture context.
    pub annotation: Annotation,
    /// Latest bounds for the stable runtime ID, if it still exists.
    pub current_rect: Option<Rect>,
    /// Latest window-relative anchor point.
    pub anchor_point: Option<ResolvedPoint>,
    /// Semantic tree generation used for resolution.
    pub semantic_generation: u64,
}

/// What a resolved annotation holds.
#[verifier::ext_equal]
pub struct ResolvedView {
    pub annotation: AnnotationView,
    pub current_rect: Option<Rect>,
    pub anchor_point: Option<ResolvedPoint>,
    pub semantic_generation: u64,
}

impl View for ResolvedAnnotation {
    type V = ResolvedView;

    open spec fn view(&self) -> ResolvedView {
        ResolvedView {
            annotation: self.annotation@,
            current_rect: self.current_rect,
            anchor_point: self.anchor_point,
            semantic_generation: self.semantic_generation,
        }
    }
}

/// The point at `anchor` within `rect`.
pub open spec fn anchor_point(rect: Rect, anchor: NormalizedAnchor) -> ResolvedPoint {
    ResolvedPoint {
        x: AnchoredCoordinate { origin: rect.x, extent: rect.width, fraction: anchor.x },
        y: AnchoredCoordinate { origin: rect.y, extent: rect.height, fraction: anchor.y },
    }
}

/// An annotation against a semantic tree: the current bounds of its runtime element and the
/// anchor's point within them.
pub open spec fn resolved_view(annotation: AnnotationView, tree: UiTree) -> ResolvedView {
    let current_rect = automation::bounds_of(tree.nodes@, annotation.target.runtime_id);
    ResolvedView {
        annotation,
        current_rect,
        anchor_point: match current_rect {
            Some(rect) => Some(anchor_point(rect, annotation.anchor)),
            None => None,
        },
        semantic_generation: tree.generation,
    }
}

/// The annotations that a row of IDs names, in the order of the IDs; an unknown ID names none.
pub open spec fn named_annotations(
    s: Seq<AnnotationView>,
    ids: Seq<Seq<char>>,
) -> Seq<AnnotationView>
    decreases ids.len(),
{
    if ids.len() == 0 {
        Seq::empty()
    } else {
        match first_with_id(s, ids.last(), 0) {
            Some(i) => named_annotations(s, ids.drop_last()).push(s[i]),
            None => named_annotations(s, ids.drop_last()),
        }
    }
}

// ---------------------------------------------------------------------------
// Checks
// ---------------------------------------------------------------------------

fn validate_selection(selection: &ElementSelection) -> (result: Result<(), AnnotationError>)
    ensures
        result is Ok <==> selection@.valid(),
        result is Err ==> result->Err_0@ == ErrorView::Invalid("annotation selection is invalid"@),
{
    let authored: usize = text::bytes_in(selection.authored_id.as_str());
    let runtime: usize = text::bytes_in(selection.runtime_id.as_str());
    let bad_rect = match selection.captured_rect {
        Some(rect) => !rect.valid,
        None => false,
    };
    if authored == 0 || authored > 256 || runtime == 0 || runtime > 256
        || selection.document_revision == 0 || bad_rect {
        return Err(AnnotationError::Invalid("annotation selection is invalid"));
    }
    Ok(())
}

fn validate_anchor(anchor: NormalizedAnchor) -> (result: Result<(), AnnotationError>)
    ensures
        result is Ok <==> anchor.valid(),
        result is Err ==> result->Err_0@ == ErrorView::Invalid("annotation anchor is invalid"@),
{
    if !anchor.x.unit_interval() || !anchor.y.unit_interval() {
        return Err(AnnotationError::Invalid("annotation anchor is invalid"));
    }
    Ok(())
}

/// Whether a comment has an acceptable length.
fn comment_fits(comment: &str) -> (result: bool)
    ensures
        result == valid_comment(comment@),
{
    let length: usize = text::bytes_in(comment);
    length != 0 && length <= MAX_COMMENT_BYTES
}

/// Refuses a document of more than the largest size that is read.
pub fn check_document_size(found: u64) -> (result: Result<(), AnnotationError>)
    ensures
        result is Ok <==> found <= MAX_ANNOTATION_DOCUMENT_BYTES,
        result is Err ==> result->Err_0@ == (ErrorView::TooLarge {
            found,
            maximum: MAX_ANNOTATION_DOCUMENT_BYTES,
        }),
{
    if found > MAX_ANNOTATION_DOCUMENT_BYTES {
        return Err(AnnotationError::TooLarge { found, maximum: MAX_ANNOTATION_DOCUMENT_BYTES });
    }
    Ok(())
}

/// The components of the path of the annotation document below a project root.
pub fn annotation_path(project_root: &str) -> (components: Vec<String>)
    ensures
        text::texts(components@) == seq![project_root@, ".gpui-studio"@, "annotations.ron"@],
{
    let mut components: Vec<String> = Vec::new();
    components.push(project_root.to_owned());
    components.push(".gpui-studio".to_owned());
    components.push("annotations.ron".to_owned());
    components
}

// ---------------------------------------------------------------------------
// Operations
// ---------------------------------------------------------------------------

impl Default for AnnotationStore {
    fn default() -> (store: Self)
        ensures
            store@ == StoreView::fresh(),
    {
        AnnotationStore {
            version: ANNOTATION_DOCUMENT_VERSION,
            next_id: 1,
            annotations: Vec::new(),
        }
    }
}

impl AnnotationStore {
    /// The document to work on, given what was parsed from the project: an empty document
    /// when there was none, else the parsed one, migrated and validated.
    pub fn load(parsed: Option<AnnotationStore>) -> (result: Result<Self, AnnotationError>)
        ensures
            match parsed {
                None => result is Ok && result->Ok_0@ == StoreView::fresh(),
                Some(store) => match store@.loaded() {
                    Ok(view) => result is Ok && result->Ok_0@ == view,
                    Err(fault) => result is Err && result->Err_0@ == fault,
                },
            },
    {
        match parsed {
            None => Ok(AnnotationStore::default()),
            Some(store) => {
                let mut store = store;
                match store.migrate() {
                    Err(error) => return Err(error),
                    Ok(()) => {},
                }
                match store.validate() {
                    Err(error) => return Err(error),
                    Ok(()) => {},
                }
                Ok(store)
            },
        }
    }

    /// Attach a new open comment to the exact selected element.
    pub fn add(
        &mut self,
        selection: ElementSelection,
        comment: &str,
        anchor: NormalizedAnchor,
    ) -> (result: Result<Annotation, AnnotationError>)
        ensures
            match old(self)@.add_fault(selection@, comment@, anchor) {
                Some(fault) => result is Err && result->Err_0@ == fault && final(self)@ == old(
                    self,
                )@,
                None => {
                    &&& result is Ok
                    &&& result->Ok_0@ == old(self)@.new_annotation(selection@, comment@, anchor)
                    &&& final(self)@ == old(self)@.added(selection@, comment@, anchor)
                },
            },
    {
        if self.annotations.len() >= MAX_ANNOTATIONS {
            return Err(AnnotationError::Invalid("annotation document reached its capacity"));
        }
        match validate_selection(&selection) {
            Err(error) => return Err(error),
            Ok(()) => {},
        }
        match validate_anchor(anchor) {
            Err(error) => return Err(error),
            Ok(()) => {},
        }
        let comment = text::trim(comment);
        if !comment_fits(comment) {
            return Err(AnnotationError::Invalid("annotation comment is empty or exceeds 16 KiB"));
        }
        let id = text::join2(
            "comment-",
            text::pad_zeros(text::decimal(self.next_id).as_str(), 6).as_str(),
        );
        self.next_id = if self.next_id == u64::MAX {
            u64::MAX
        } else {
            self.next_id + 1
        };
        let annotation = Annotation {
            id,
            target: selection,
            anchor,
            comment: comment.to_owned(),
            status: AnnotationStatus::Open,
        };
        let copy = annotation.clone();
        self.annotations.push(annotation);
        proof {
            assert(self@.annotations =~= old(self)@.annotations.push(annotation@));
        }
        Ok(copy)
    }

    /// The position of the first annotation with this ID.
    pub fn find(&self, id: &str) -> (found: Option<usize>)
        ensures
            match self@.position(id@) {
                Some(i) => found == Some(i as usize) && 0 <= i < self.annotations.len(),
                None => found is None,
            },
    {
        let mut i: usize = 0;
        while i < self.annotations.len()
            invariant
                i <= self.annotations.len(),
                self@.position(id@) == first_with_id(self@.annotations, id@, i as int),
            decreases self.annotations.len() - i,
        {
            if text::same_text(self.annotations[i].id.as_str(), id) {
                return Some(i);
            }
            i += 1;
        }
        None
    }

    /// Move an existing review task to another lifecycle state.
    pub fn transition(&mut self, id: &str, next: AnnotationStatus) -> (result: Result<
        Annotation,
        AnnotationError,
    >)
        ensures
            match old(self)@.position(id@) {
                None => result is Err && result->Err_0@ == ErrorView::NotFound && final(self)@
                    == old(self)@,
                Some(i) => if old(self)@.annotations[i].status.may_become(next) {
                    &&& result is Ok
                    &&& final(self)@ == old(self)@.with_status(i, next)
                    &&& result->Ok_0@ == final(self)@.annotations[i]
                } else {
                    &&& result is Err
                    &&& result->Err_0@ == ErrorView::Invalid(
                        "annotation task transition is invalid"@,
                    )
                    &&& final(self)@ == old(self)@
                },
            },
    {
        let i: usize = match self.find(id) {
            Some(i) => i,
            None => return Err(AnnotationError::NotFound),
        };
        if !self.annotations[i].status.allows(next) {
            return Err(AnnotationError::Invalid("annotation task transition is invalid"));
        }
        let mut annotation = self.annotations[i].clone();
        annotation.status = next;
        let copy = annotation.clone();
        self.annotations.set(i, annotation);
        proof {
            assert(self@.annotations =~= old(self)@.with_status(i as int, next).annotations);
        }
        Ok(copy)
    }

    /// Remove one spatial comment entirely, as opposed to the status transitions used for
    /// review accountability.
    pub fn remove(&mut self, id: &str) -> (result: Result<(), AnnotationError>)
        ensures
            final(self)@ == old(self)@.without(id@),
            result is Ok <==> old(self)@.position(id@) is Some,
            result is Err ==> result->Err_0@ == ErrorView::NotFound && final(self)@ == old(self)@,
    {
        let before: usize = self.annotations.len();
        let ghost all = self@.annotations;
        let mut kept: Vec<Annotation> = Vec::new();
        let mut i: usize = 0;
        while i < self.annotations.len()
            invariant
                i <= self.annotations.len(),
                self@ == old(self)@,
                all == self@.annotations,
                annotation_views(kept@) == without_id(all.take(i as int), id@),
            decreases self.annotations.len() - i,
        {
            let ghost was = kept@;
            proof {
                assert(all.take(i as int + 1).drop_last() =~= all.take(i as int));
            }
            if !text::same_text(self.annotations[i].id.as_str(), id) {
                let annotation = self.annotations[i].clone();
                kept.push(annotation);
                proof {
                    assert(annotation_views(kept@) =~= annotation_views(was).push(annotation@));
                }
            }
            i += 1;
        }
        proof {
            assert(all.take(i as int) =~= all);
            lemma_without_id(all, id@);
            lemma_first_with_id(all, id@, 0);
        }
        self.annotations = kept;
        if self.annotations.len() == before {
            return Err(AnnotationError::NotFound);
        }
        Ok(())
    }

    /// Replace the text of an existing spatial comment without changing its status.
    pub fn update_comment(&mut self, id: &str, comment: &str) -> (result: Result<
        Annotation,
        AnnotationError,
    >)
        ensures
            if !valid_comment(text::trimmed(comment@)) {
                &&& result is Err
                &&& result->Err_0@ == ErrorView::Invalid(
                    "annotation comment is empty or exceeds 16 KiB"@,
                )
                &&& final(self)@ == old(self)@
            } else {
                match old(self)@.position(id@) {
                    None => result is Err && result->Err_0@ == ErrorView::NotFound && final(self)@
                        == old(self)@,
                    Some(i) => {
                        &&& result is Ok
                        &&& final(self)@ == old(self)@.with_comment(i, text::trimmed(comment@))
                        &&& result->Ok_0@ == final(self)@.annotations[i]
                    },
                }
            },
    {
        let comment = text::trim(comment);
        if !comment_fits(comment) {
            return Err(AnnotationError::Invalid("annotation comment is empty or exceeds 16 KiB"));
        }
        let i: usize = match self.find(id) {
            Some(i) => i,
            None => return Err(AnnotationError::NotFound),
        };
        let mut annotation = self.annotations[i].clone();
        annotation.comment = comment.to_owned();
        let copy = annotation.clone();
        self.annotations.set(i, annotation);
        proof {
            assert(self@.annotations =~= old(self)@.with_comment(i as int, comment@).annotations);
        }
        Ok(copy)
    }

    /// Active tasks in stable document order.
    pub fn active(&self) -> (out: Vec<&Annotation>)
        ensures
            out.len() == active_of(self@.annotations).len(),
            forall|i: int|
                0 <= i < out.len() ==> (#[trigger] out[i])@ == active_of(self@.annotations)[i],
    {
        let mut out: Vec<&Annotation> = Vec::new();
        let ghost all = self@.annotations;
        let mut i: usize = 0;
        while i < self.annotations.len()
            invariant
                i <= self.annotations.len(),
                all == self@.annotations,
                out.len() == active_of(all.take(i as int)).len(),
                forall|j: int|
                    0 <= j < out.len() ==> (#[trigger] out[j])@ == active_of(all.take(i as int))[j],
            decreases self.annotations.len() - i,
        {
            proof {
                assert(all.take(i as int + 1).drop_last() =~= all.take(i as int));
            }
            if self.annotations[i].status.is_active() {
                out.push(&self.annotations[i]);
            }
            i += 1;
        }
        proof {
            assert(all.take(i as int) =~= all);
        }
        out
    }

    /// The active, persisted comments eligible for a handoff.
    pub fn sendable(&self) -> (out: Vec<&Annotation>)
        ensures
            out.len() == active_of(self@.annotations).len(),
            forall|i: int|
                0 <= i < out.len() ==> (#[trigger] out[i])@ == active_of(self@.annotations)[i],
    {
        self.active()
    }

    /// Whether the annotation document contains anything a handoff can publish.
    pub fn has_sendable(&self) -> (result: bool)
        ensures
            result == (active_of(self@.annotations).len() > 0),
    {
        self.sendable().len() > 0
    }

    /// Most recently created active task for one runtime element.
    pub fn latest_active_for_target(&self, runtime_id: &str) -> (out: Option<&Annotation>)
        ensures
            match latest_active(self@.annotations, runtime_id@) {
                Some(annotation) => out is Some && out->0@ == annotation,
                None => out is None,
            },
    {
        let ghost all = self@.annotations;
        let mut i: usize = self.annotations.len();
        proof {
            assert(all.take(i as int) =~= all);
        }
        while i > 0
            invariant
                i <= self.annotations.len(),
                all == self@.annotations,
                latest_active(all, runtime_id@) == latest_active(all.take(i as int), runtime_id@),
            decreases i,
        {
            proof {
                assert(all.take(i as int).drop_last() =~= all.take(i as int - 1));
                assert(all.take(i as int).last() == all[i as int - 1]);
            }
            i -= 1;
            if self.annotations[i].status.is_active() && text::same_text(
                self.annotations[i].target.runtime_id.as_str(),
                runtime_id,
            ) {
                return Some(&self.annotations[i]);
            }
        }
        None
    }

    /// Count active, completed, and archived tasks.
    pub fn counts(&self) -> (counts: AnnotationCounts)
        ensures
            counts.active == count_of(self@.annotations, AnnotationStatus::Open) + count_of(
                self@.annotations,
                AnnotationStatus::InProgress,
            ),
            counts.done == count_of(self@.annotations, AnnotationStatus::Done),
            counts.archived == count_of(self@.annotations, AnnotationStatus::Archived),
    {
        let mut counts = AnnotationCounts::default();
        let ghost all = self@.annotations;
        let mut i: usize = 0;
        while i < self.annotations.len()
            invariant
                i <= self.annotations.len(),
                all == self@.annotations,
                counts.active + counts.done + counts.archived == i,
                counts.active == count_of(all.take(i as int), AnnotationStatus::Open) + count_of(
                    all.take(i as int),
                    AnnotationStatus::InProgress,
                ),
                counts.done == count_of(all.take(i as int), AnnotationStatus::Done),
                counts.archived == count_of(all.take(i as int), AnnotationStatus::Archived),
            decreases self.annotations.len() - i,
        {
            proof {
                assert(all.take(i as int + 1).drop_last() =~= all.take(i as int));
                assert(all.take(i as int + 1).last() == all[i as int]);
            }
            match self.annotations[i].status {
                AnnotationStatus::Open | AnnotationStatus::InProgress => {
                    counts.active += 1;
                },
                AnnotationStatus::Done => {
                    counts.done += 1;
                },
                AnnotationStatus::Archived => {
                    counts.archived += 1;
                },
            }
            i += 1;
        }
        proof {
            assert(all.take(i as int) =~= all);
        }
        counts
    }

    /// Whether the document may be persisted; it is refused for the first fault found.
    pub fn save(&self) -> (result: Result<(), AnnotationError>)
        ensures
            match self@.fault() {
                Some(fault) => result is Err && result->Err_0@ == fault,
                None => result is Ok,
            },
    {
        self.validate()
    }

    /// Resolve annotations against the latest semantic tree.
    pub fn resolved(&self, tree: &UiTree) -> (out: Vec<ResolvedAnnotation>)
        ensures
            out.len() == self@.annotations.len(),
            forall|i: int|
                0 <= i < out.len() ==> (#[trigger] out[i])@ == resolved_view(
                    self@.annotations[i],
                    *tree,
                ),
    {
        let mut all: Vec<&Annotation> = Vec::new();
        let mut i: usize = 0;
        while i < self.annotations.len()
            invariant
                i <= self.annotations.len(),
                all.len() == i,
                forall|j: int| 0 <= j < all.len() ==> (#[trigger] all[j])@ == self@.annotations[j],
            decreases self.annotations.len() - i,
        {
            all.push(&self.annotations[i]);
            i += 1;
        }
        resolve_annotations(&all, tree)
    }

    /// Resolve only active work against the latest semantic tree.
    pub fn resolved_active(&self, tree: &UiTree) -> (out: Vec<ResolvedAnnotation>)
        ensures
            out.len() == active_of(self@.annotations).len(),
            forall|i: int|
                0 <= i < out.len() ==> (#[trigger] out[i])@ == resolved_view(
                    active_of(self@.annotations)[i],
                    *tree,
                ),
    {
        resolve_annotations(&self.active(), tree)
    }

    /// Resolve one ordered batch of annotation IDs against the latest semantic tree.
    pub fn resolved_ids(&self, ids: &Vec<String>, tree: &UiTree) -> (out: Vec<ResolvedAnnotation>)
        ensures
            out.len() == named_annotations(self@.annotations, text::texts(ids@)).len(),
            forall|i: int|
                0 <= i < out.len() ==> (#[trigger] out[i])@ == resolved_view(
                    named_annotations(self@.annotations, text::texts(ids@))[i],
                    *tree,
                ),
    {
        let mut named: Vec<&Annotation> = Vec::new();
        let ghost names = text::texts(ids@);
        let ghost all = self@.annotations;
        let mut i: usize = 0;
        while i < ids.len()
            invariant
                i <= ids.len(),
                names == text::texts(ids@),
                all == self@.annotations,
                named.len() == named_annotations(all, names.take(i as int)).len(),
                forall|j: int|
                    0 <= j < named.len() ==> (#[trigger] named[j])@ == named_annotations(
                        all,
                        names.take(i as int),
                    )[j],
            decreases ids.len() - i,
        {
            proof {
                assert(names.take(i as int + 1).drop_last() =~= names.take(i as int));
                assert(names.take(i as int + 1).last() == ids@[i as int]@);
            }
            match self.find(ids[i].as_str()) {
                Some(k) => {
                    named.push(&self.annotations[k]);
                },
                None => {},
            }
            i += 1;
        }
        proof {
            assert(names.take(i as int) =~= names);
        }
        resolve_annotations(&named, tree)
    }

    fn migrate(&mut self) -> (result: Result<(), AnnotationError>)
        ensures
            result is Ok <==> old(self).version == ANNOTATION_DOCUMENT_VERSION || old(self).version
                == LEGACY_ANNOTATION_DOCUMENT_VERSION,
            result is Ok ==> final(self)@ == old(self)@.migrated(),
            result is Err ==> final(self)@ == old(self)@ && result->Err_0@
                == (ErrorView::UnsupportedVersion {
                found: old(self).version,
                supported: ANNOTATION_DOCUMENT_VERSION,
            }),
    {
        if self.version == ANNOTATION_DOCUMENT_VERSION {
            return Ok(());
        }
        if self.version != LEGACY_ANNOTATION_DOCUMENT_VERSION {
            return Err(
                AnnotationError::UnsupportedVersion {
                    found: self.version,
                    supported: ANNOTATION_DOCUMENT_VERSION,
                },
            );
        }
        self.version = ANNOTATION_DOCUMENT_VERSION;
        Ok(())
    }

    fn validate(&self) -> (result: Result<(), AnnotationError>)
        ensures
            match self@.fault() {
                Some(fault) => result is Err && result->Err_0@ == fault,
                None => result is Ok,
            },
    {
        if self.version != ANNOTATION_DOCUMENT_VERSION {
            return Err(
                AnnotationError::UnsupportedVersion {
                    found: self.version,
                    supported: ANNOTATION_DOCUMENT_VERSION,
                },
            );
        }
        if self.annotations.len() > MAX_ANNOTATIONS || self.next_id == 0 {
            return Err(AnnotationError::Invalid("annotation count or sequence is invalid"));
        }
        let mut i: usize = 0;
        while i < self.annotations.len()
            invariant
                i <= self.annotations.len(),
                self@.fault() == first_fault(self@.annotations, i as int),
            decreases self.annotations.len() - i,
        {
            if !self.identity_is_valid(i) {
                return Err(AnnotationError::Invalid("annotation identity or comment is invalid"));
            }
            match validate_selection(&self.annotations[i].target) {
                Err(error) => return Err(error),
                Ok(()) => {},
            }
            match validate_anchor(self.annotations[i].anchor) {
                Err(error) => return Err(error),
                Ok(()) => {},
            }
            i += 1;
        }
        Ok(())
    }

    fn identity_is_valid(&self, i: usize) -> (result: bool)
        requires
            i < self.annotations.len(),
        ensures
            result == valid_identity(self@.annotations, i as int),
    {
        let length: usize = text::bytes_in(self.annotations[i].id.as_str());
        if length == 0 || length > 128 || !comment_fits(self.annotations[i].comment.as_str()) {
            return false;
        }
        let mut j: usize = 0;
        while j < i
            invariant
                j <= i < self.annotations.len(),
                forall|k: int|
                    0 <= k < j ==> (#[trigger] self@.annotations[k]).id
                        != self@.annotations[i as int].id,
            decreases i - j,
        {
            if text::same_text(self.annotations[j].id.as_str(), self.annotations[i].id.as_str()) {
                proof {
                    assert(self@.annotations[j as int].id == self@.annotations[i as int].id);
                }
                return false;
            }
            j += 1;
        }
        true
    }
}

fn resolve_annotations(annotations: &Vec<&Annotation>, tree: &UiTree) -> (out: Vec<
    ResolvedAnnotation,
>)
    ensures
        out.len() == annotations.len(),
        forall|i: int|
            0 <= i < out.len() ==> (#[trigger] out[i])@ == resolved_view(annotations[i]@, *tree),
{
    let mut out: Vec<ResolvedAnnotation> = Vec::new();
    let mut i: usize = 0;
    while i < annotations.len()
        invariant
            i <= annotations.len(),
            out.len() == i,
            forall|j: int|
                0 <= j < out.len() ==> (#[trigger] out[j])@ == resolved_view(
                    annotations[j]@,
                    *tree,
                ),
        decreases annotations.len() - i,
    {
        let annotation: Annotation = annotations[i].clone();
        let current_rect: Option<Rect> = match tree.get(annotation.target.runtime_id.as_str()) {
            Some(node) => node.bounds,
            None => None,
        };
        let anchor_point: Option<ResolvedPoint> = match current_rect {
            Some(rect) => Some(
                ResolvedPoint {
                    x: AnchoredCoordinate {
                        origin: rect.x,
                        extent: rect.width,
                        fraction: annotation.anchor.x,
                    },
                    y: AnchoredCoordinate {
                        origin: rect.y,
                        extent: rect.height,
                        fraction: annotation.anchor.y,
                    },
                },
            ),
            None => None,
        };
        out.push(
            ResolvedAnnotation {
                annotation,
                current_rect,
                anchor_point,
                semantic_generation: tree.generation,
            },
        );
        i += 1;
    }
    out
}

// ---------------------------------------------------------------------------
// Facts about the model
// ---------------------------------------------------------------------------

pub(crate) proof fn lemma_first_with_id(s: Seq<AnnotationView>, id: Seq<char>, from: int)
    requires
        0 <= from <= s.len(),
    ensures
        match first_with_id(s, id, from) {
            Some(i) => from <= i < s.len() && s[i].id == id && forall|j: int|
                from <= j < i ==> (#[trigger] s[j]).id != id,
            None => forall|j: int| from <= j < s.len() ==> (#[trigger] s[j]).id != id,
        },
    decreases s.len() - from,
{
    if from < s.len() && s[from].id != id {
        lemma_first_with_id(s, id, from + 1);
    }
}

/// Leaving out an ID drops exactly the annotations that have it.
pub(crate) proof fn lemma_without_id(s: Seq<AnnotationView>, id: Seq<char>)
    ensures
        without_id(s, id).len() <= s.len(),
        (forall|j: int| 0 <= j < s.len() ==> (#[trigger] s[j]).id != id) ==> without_id(s, id) == s,
        (exists|j: int| 0 <= j < s.len() && (#[trigger] s[j]).id == id) ==> without_id(s, id).len()
            < s.len(),
        forall|i: int|
            0 <= i < without_id(s, id).len() ==> (#[trigger] without_id(s, id)[i]).id != id
                && s.contains(without_id(s, id)[i]),
    decreases s.len(),
{
    if s.len() > 0 {
        let p = s.drop_last();
        lemma_without_id(p, id);
        let w = without_id(s, id);
        if forall|j: int| 0 <= j < s.len() ==> (#[trigger] s[j]).id != id {
            assert(s[s.len() - 1].id != id);
            assert forall|j: int| 0 <= j < p.len() implies (#[trigger] p[j]).id != id by {
                assert(s[j].id != id);
            }
            assert(p.push(s.last()) =~= s);
        }
        if exists|j: int| 0 <= j < s.len() && (#[trigger] s[j]).id == id {
            let j = choose|j: int| 0 <= j < s.len() && (#[trigger] s[j]).id == id;
            if j < p.len() {
                assert(p[j].id == id);
            }
        }
        assert forall|i: int| 0 <= i < w.len() implies (#[trigger] w[i]).id != id && s.contains(
            w[i],
        ) by {
            if s.last().id != id && i == w.len() - 1 {
                assert(s[s.len() - 1] == w[i]);
            } else {
                assert(w[i] == without_id(p, id)[i]);
                let k = choose|k: int| 0 <= k < p.len() && p[k] == w[i];
                assert(s[k] == w[i]);
            }
        }
    }
}

/// A document is valid just when it has the current version, room and number, and no
/// annotation has a fault.
pub(crate) proof fn lemma_first_fault(s: Seq<AnnotationView>, from: int)
    requires
        0 <= from <= s.len(),
    ensures
        first_fault(s, from) is None <==> forall|i: int|
            from <= i < s.len() ==> #[trigger] annotation_fault(s, i) is None,
    decreases s.len() - from,
{
    if from < s.len() {
        if annotation_fault(s, from) is None {
            lemma_first_fault(s, from + 1);
        }
    }
}

} // verus!
