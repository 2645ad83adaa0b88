//! The commands that tools run, and the checks on their arguments.
use vstd::prelude::*;

use crate::annotations::AnnotationStatus;
use crate::automation;
use crate::automation::UiTree;
use crate::presets;
use crate::presets::ComponentPreset;
use crate::text;
use crate::text_set;
use crate::text_set::TextSet;

verus! {

// ---------------------------------------------------------------------------
// Errors
// ---------------------------------------------------------------------------

/// What kind of error a tool gets.
#[derive(Clone, Copy, Debug, PartialEq, Eq, Structural)]
pub enum ErrorCode {
    InvalidRequest,
    NotFound,
    StaleRevision,
    Internal,
}

/// An error that a tool gets.
#[derive(Debug)]
pub struct BridgeError {
    pub code: ErrorCode,
    pub message: String,
}

impl BridgeError {
    /// Whether this is the error with this code and message.
    pub open spec fn says(&self, code: ErrorCode, message: Seq<char>) -> bool {
        self.code == code && self.message@ == message
    }

    /// An error.
    pub fn new(code: ErrorCode, message: &str) -> (error: BridgeError)
        ensures
            error.says(code, message@),
    {
        BridgeError { code, message: message.to_owned() }
    }
}

/// Why a change of a component graph failed.
#[derive(Clone, Copy, Debug, PartialEq, Eq, Structural)]
pub enum GraphFault {
    /// The graph moved on meanwhile.
    Conflict,
    /// A node that the change names does not exist.
    MissingNode,
    /// Anything else.
    Other,
}

/// The error that a tool gets for a failed change of a component graph.
pub fn graph_bridge_error(fault: GraphFault, message: &str) -> (error: BridgeError)
    ensures
        error.says(
            match fault {
                GraphFault::Conflict => ErrorCode::StaleRevision,
                GraphFault::MissingNode => ErrorCode::NotFound,
                GraphFault::Other => ErrorCode::InvalidRequest,
            },
            message@,
        ),
{
    let code = match fault {
        GraphFault::Conflict => ErrorCode::StaleRevision,
        GraphFault::MissingNode => ErrorCode::NotFound,
        GraphFault::Other => ErrorCode::InvalidRequest,
    };
    BridgeError::new(code, message)
}

/// The error that a tool gets for arguments that cannot be decoded.
pub fn undecodable_arguments(reason: &str) -> (error: BridgeError)
    ensures
        error.says(
            ErrorCode::InvalidRequest,
            "application command arguments are invalid: "@ + reason@,
        ),
{
    BridgeError {
        code: ErrorCode::InvalidRequest,
        message: text::join2("application command arguments are invalid: ", reason),
    }
}

// ---------------------------------------------------------------------------
// Catalog
// ---------------------------------------------------------------------------

/// The commands that tools run.
#[derive(Clone, Copy, Debug, PartialEq, Eq, Structural)]
pub enum StudioCommand {
    ComponentGraphGet,
    ComponentGraphApply,
    ComponentGraphUndo,
    ComponentGraphRedo,
    ComponentRemove,
    ComponentCreate,
    SelectionSet,
    SelectionMarquee,
    LayoutSuggestDrop,
    LayoutSnap,
    AnnotationUpdate,
    ProjectParity,
}

/// The commands in catalog order.
pub open spec fn command_catalog() -> Seq<StudioCommand> {
    seq![
        StudioCommand::ComponentGraphGet,
        StudioCommand::ComponentGraphApply,
        StudioCommand::ComponentGraphUndo,
        StudioCommand::ComponentGraphRedo,
        StudioCommand::ComponentRemove,
        StudioCommand::ComponentCreate,
        StudioCommand::SelectionSet,
        StudioCommand::SelectionMarquee,
        StudioCommand::LayoutSuggestDrop,
        StudioCommand::LayoutSnap,
        StudioCommand::AnnotationUpdate,
        StudioCommand::ProjectParity,
    ]
}

impl StudioCommand {
    /// The name that tools call the command by.
    pub open spec fn name_text(self) -> Seq<char> {
        match self {
            StudioCommand::ComponentGraphGet => "component.graph.get"@,
            StudioCommand::ComponentGraphApply => "component.graph.apply"@,
            StudioCommand::ComponentGraphUndo => "component.graph.undo"@,
            StudioCommand::ComponentGraphRedo => "component.graph.redo"@,
            StudioCommand::ComponentRemove => "component.remove"@,
            StudioCommand::ComponentCreate => "component.create"@,
            StudioCommand::SelectionSet => "selection.set"@,
            StudioCommand::SelectionMarquee => "selection.marquee"@,
            StudioCommand::LayoutSuggestDrop => "layout.suggest_drop"@,
            StudioCommand::LayoutSnap => "layout.snap"@,
            StudioCommand::AnnotationUpdate => "annotation.update"@,
            StudioCommand::ProjectParity => "project.parity"@,
        }
    }

    /// The name that tools call the command by.
    pub fn name(self) -> (out: &'static str)
        ensures
            out@ == self.name_text(),
    {
        match self {
            StudioCommand::ComponentGraphGet => "component.graph.get",
            StudioCommand::ComponentGraphApply => "component.graph.apply",
            StudioCommand::ComponentGraphUndo => "component.graph.undo",
            StudioCommand::ComponentGraphRedo => "component.graph.redo",
            StudioCommand::ComponentRemove => "component.remove",
            StudioCommand::ComponentCreate => "component.create",
            StudioCommand::SelectionSet => "selection.set",
            StudioCommand::SelectionMarquee => "selection.marquee",
            StudioCommand::LayoutSuggestDrop => "layout.suggest_drop",
            StudioCommand::LayoutSnap => "layout.snap",
            StudioCommand::AnnotationUpdate => "annotation.update",
            StudioCommand::ProjectParity => "project.parity",
        }
    }

    /// What the command is called.
    pub open spec fn title_text(self) -> Seq<char> {
        match self {
            StudioCommand::ComponentGraphGet => "Read component graph"@,
            StudioCommand::ComponentGraphApply => "Apply component graph transaction"@,
            StudioCommand::ComponentGraphUndo => "Undo component transaction"@,
            StudioCommand::ComponentGraphRedo => "Redo component transaction"@,
            StudioCommand::ComponentRemove => "Remove component"@,
            StudioCommand::ComponentCreate => "Create component"@,
            StudioCommand::SelectionSet => "Select project layer"@,
            StudioCommand::SelectionMarquee => "Marquee-select live layers"@,
            StudioCommand::LayoutSuggestDrop => "Suggest layout-aware drop"@,
            StudioCommand::LayoutSnap => "Snap live selection"@,
            StudioCommand::AnnotationUpdate => "Update review-task status"@,
            StudioCommand::ProjectParity => "Diagnose projection parity"@,
        }
    }

    /// What the command is called.
    pub fn title(self) -> (out: &'static str)
        ensures
            out@ == self.title_text(),
    {
        match self {
            StudioCommand::ComponentGraphGet => "Read component graph",
            StudioCommand::ComponentGraphApply => "Apply component graph transaction",
            StudioCommand::ComponentGraphUndo => "Undo component transaction",
            StudioCommand::ComponentGraphRedo => "Redo component transaction",
            StudioCommand::ComponentRemove => "Remove component",
            StudioCommand::ComponentCreate => "Create component",
            StudioCommand::SelectionSet => "Select project layer",
            StudioCommand::SelectionMarquee => "Marquee-select live layers",
            StudioCommand::LayoutSuggestDrop => "Suggest layout-aware drop",
            StudioCommand::LayoutSnap => "Snap live selection",
            StudioCommand::AnnotationUpdate => "Update review-task status",
            StudioCommand::ProjectParity => "Diagnose projection parity",
        }
    }

    /// What the command does.
    pub open spec fn description_text(self) -> Seq<char> {
        match self {
            StudioCommand::ComponentGraphGet => {
                "Return the canonical editable component tree and its optimistic-concurrency revision."@
            },
            StudioCommand::ComponentGraphApply => {
                "Atomically apply insert, remove, move, duplicate, group, ungroup, or typed patch commands. The nested transaction must include the revision returned by component.graph.get."@
            },
            StudioCommand::ComponentGraphUndo => "Restore the previous canonical graph as a new revision."@,
            StudioCommand::ComponentGraphRedo => "Restore the next canonical graph as a new revision."@,
            StudioCommand::ComponentRemove => {
                "Delete a component from the library and persist. Refused for the root, the last remaining component, or one still referenced by other components."@
            },
            StudioCommand::ComponentCreate => {
                "Create and persist a blank component or complete built-in preset, then open it in a component tab."@
            },
            StudioCommand::SelectionSet => {
                "Select one exact live project runtime ID and synchronize the canvas, Layers tree, inspector, annotations, and MCP context."@
            },
            StudioCommand::SelectionMarquee => {
                "Use the live spatial index to select every project layer intersecting an editor-space rectangle."@
            },
            StudioCommand::LayoutSuggestDrop => {
                "Resolve a pointer drop to a Flexbox, Grid, or freeform insertion using the live R-tree and visual order."@
            },
            StudioCommand::LayoutSnap => {
                "Snap a multi-selection to nearby starts, centers, ends, and grid lines and return semantic guides."@
            },
            StudioCommand::AnnotationUpdate => {
                "Transition one spatial annotation's review status. Agents mark work `in_progress` when they start and `done` when the requested change is complete; `archived` removes it from the queue."@
            },
            StudioCommand::ProjectParity => {
                "Generate HTML, CSS, RON, and GPUI views from one canonical graph and report stable IDs missing from either executable projection."@
            },
        }
    }

    /// What the command does.
    pub fn description(self) -> (out: &'static str)
        ensures
            out@ == self.description_text(),
    {
        match self {
            StudioCommand::ComponentGraphGet => {
                "Return the canonical editable component tree and its optimistic-concurrency revision."
            },
            StudioCommand::ComponentGraphApply => {
                "Atomically apply insert, remove, move, duplicate, group, ungroup, or typed patch commands. The nested transaction must include the revision returned by component.graph.get."
            },
            StudioCommand::ComponentGraphUndo => "Restore the previous canonical graph as a new revision.",
            StudioCommand::ComponentGraphRedo => "Restore the next canonical graph as a new revision.",
            StudioCommand::ComponentRemove => {
                "Delete a component from the library and persist. Refused for the root, the last remaining component, or one still referenced by other components."
            },
            StudioCommand::ComponentCreate => {
                "Create and persist a blank component or complete built-in preset, then open it in a component tab."
            },
            StudioCommand::SelectionSet => {
                "Select one exact live project runtime ID and synchronize the canvas, Layers tree, inspector, annotations, and MCP context."
            },
            StudioCommand::SelectionMarquee => {
                "Use the live spatial index to select every project layer intersecting an editor-space rectangle."
            },
            StudioCommand::LayoutSuggestDrop => {
                "Resolve a pointer drop to a Flexbox, Grid, or freeform insertion using the live R-tree and visual order."
            },
            StudioCommand::LayoutSnap => {
                "Snap a multi-selection to nearby starts, centers, ends, and grid lines and return semantic guides."
            },
            StudioCommand::AnnotationUpdate => {
                "Transition one spatial annotation's review status. Agents mark work `in_progress` when they start and `done` when the requested change is complete; `archived` removes it from the queue."
            },
            StudioCommand::ProjectParity => {
                "Generate HTML, CSS, RON, and GPUI views from one canonical graph and report stable IDs missing from either executable projection."
            },
        }
    }

    /// Whether the command changes the session or the project; the others only read.
    pub fn is_mutating(self) -> (result: bool)
        ensures
            result == !(self == StudioCommand::ComponentGraphGet || self == StudioCommand::LayoutSuggestDrop || self == StudioCommand::LayoutSnap || self == StudioCommand::ProjectParity),
    {
        !matches!(
            self,
            StudioCommand::ComponentGraphGet | StudioCommand::LayoutSuggestDrop | StudioCommand::LayoutSnap | StudioCommand::ProjectParity
        )
    }
}

/// Every command, in catalog order.
pub fn studio_application_commands() -> (out: Vec<StudioCommand>)
    ensures
        out@ == command_catalog(),
{
    let out: Vec<StudioCommand> = vec![
        StudioCommand::ComponentGraphGet,
        StudioCommand::ComponentGraphApply,
        StudioCommand::ComponentGraphUndo,
        StudioCommand::ComponentGraphRedo,
        StudioCommand::ComponentRemove,
        StudioCommand::ComponentCreate,
        StudioCommand::SelectionSet,
        StudioCommand::SelectionMarquee,
        StudioCommand::LayoutSuggestDrop,
        StudioCommand::LayoutSnap,
        StudioCommand::AnnotationUpdate,
        StudioCommand::ProjectParity,
    ];
    proof {
        assert(out@ =~= command_catalog());
    }
    out
}

/// The first command of the catalog, from position `from` on, with this name.
pub open spec fn command_named(name: Seq<char>, from: int) -> Option<StudioCommand>
    decreases command_catalog().len() - from,
{
    if from < 0 || from >= command_catalog().len() {
        None
    } else if command_catalog()[from].name_text() == name {
        Some(command_catalog()[from])
    } else {
        command_named(name, from + 1)
    }
}

/// The command with this name, or the error that a tool gets.
pub fn parse_application_command(name: &str) -> (result: Result<StudioCommand, BridgeError>)
    ensures
        match command_named(name@, 0) {
            Some(command) => result == Ok::<StudioCommand, BridgeError>(command),
            None => result is Err && result->Err_0.says(
                ErrorCode::NotFound,
                "Studio application command was not found"@,
            ),
        },
{
    let commands = studio_application_commands();
    let mut i: usize = 0;
    while i < commands.len()
        invariant
            i <= commands.len(),
            commands@ == command_catalog(),
            command_named(name@, 0) == command_named(name@, i as int),
        decreases commands.len() - i,
    {
        if text::same_text(commands[i].name(), name) {
            return Ok(commands[i]);
        }
        i += 1;
    }
    Err(BridgeError::new(ErrorCode::NotFound, "Studio application command was not found"))
}

spec fn command_index(command: StudioCommand) -> int {
    match command {
        StudioCommand::ComponentGraphGet => 0,
        StudioCommand::ComponentGraphApply => 1,
        StudioCommand::ComponentGraphUndo => 2,
        StudioCommand::ComponentGraphRedo => 3,
        StudioCommand::ComponentRemove => 4,
        StudioCommand::ComponentCreate => 5,
        StudioCommand::SelectionSet => 6,
        StudioCommand::SelectionMarquee => 7,
        StudioCommand::LayoutSuggestDrop => 8,
        StudioCommand::LayoutSnap => 9,
        StudioCommand::AnnotationUpdate => 10,
        StudioCommand::ProjectParity => 11,
    }
}

proof fn lemma_command_index(command: StudioCommand)
    ensures
        0 <= command_index(command) < command_catalog().len(),
        command_catalog()[command_index(command)] == command,
{
}

proof fn lemma_command_names_differ(a: StudioCommand, b: StudioCommand)
    requires
        a.name_text() == b.name_text(),
    ensures
        a == b,
{
    reveal_strlit("component.graph.get");
    reveal_strlit("component.graph.apply");
    reveal_strlit("component.graph.undo");
    reveal_strlit("component.graph.redo");
    reveal_strlit("component.remove");
    reveal_strlit("component.create");
    reveal_strlit("selection.set");
    reveal_strlit("selection.marquee");
    reveal_strlit("layout.suggest_drop");
    reveal_strlit("layout.snap");
    reveal_strlit("annotation.update");
    reveal_strlit("project.parity");
    assert("component.graph.get"@.len() == 19);
    assert("component.graph.apply"@.len() == 21);
    assert("component.graph.undo"@.len() == 20);
    assert("component.graph.redo"@.len() == 20);
    assert("component.remove"@.len() == 16);
    assert("component.create"@.len() == 16);
    assert("selection.set"@.len() == 13);
    assert("selection.marquee"@.len() == 17);
    assert("layout.suggest_drop"@.len() == 19);
    assert("layout.snap"@.len() == 11);
    assert("annotation.update"@.len() == 17);
    assert("project.parity"@.len() == 14);
    assert("component.graph.undo"@[16] == 'u' && "component.graph.redo"@[16] == 'r');
    assert("component.remove"@[10] == 'r' && "component.create"@[10] == 'c');
    assert("selection.marquee"@[0] == 's' && "annotation.update"@[0] == 'a');
    assert("component.graph.get"@[0] == 'c' && "layout.suggest_drop"@[0] == 'l');
}

proof fn lemma_command_named(command: StudioCommand, from: int)
    requires
        0 <= from <= command_index(command),
    ensures
        command_named(command.name_text(), from) == Some(command),
    decreases command_catalog().len() - from,
{
    lemma_command_index(command);
    if command_catalog()[from].name_text() == command.name_text() {
        lemma_command_names_differ(command_catalog()[from], command);
    } else {
        lemma_command_named(command, from + 1);
    }
}

/// Every command is listed, and the name under which it is listed runs it and no other.
pub proof fn law_listed_commands_run(command: StudioCommand)
    ensures
        command_catalog().contains(command),
        command_named(command.name_text(), 0) == Some(command),
{
    lemma_command_index(command);
    lemma_command_named(command, 0);
}

// ---------------------------------------------------------------------------
// Arguments
// ---------------------------------------------------------------------------

/// What a command to create a component asks for.
#[derive(Debug)]
pub struct CreateComponent {
    pub name: String,
    pub preset: Option<ComponentPreset>,
}

/// Checks a command to create a component: the trimmed name has 1 to 128 bytes, and a preset
/// is a known one.
pub fn check_create_component(name: &str, preset: Option<String>) -> (result: Result<
    CreateComponent,
    BridgeError,
>)
    ensures
        ({
            let trimmed = text::trimmed(name@);
            if trimmed.len() == 0 || text::byte_len(trimmed) > 128 {
                result is Err && result->Err_0.says(
                    ErrorCode::InvalidRequest,
                    "component name must contain 1 through 128 bytes"@,
                )
            } else {
                match preset {
                    None => result is Ok && result->Ok_0.name@ == trimmed && result->Ok_0.preset
                        is None,
                    Some(slug) => match presets::preset_named(slug@, 0) {
                        Some(preset) => result is Ok && result->Ok_0.name@ == trimmed
                            && result->Ok_0.preset == Some(preset),
                        None => result is Err && result->Err_0.says(
                            ErrorCode::InvalidRequest,
                            "component preset is not supported"@,
                        ),
                    },
                }
            }
        }),
{
    let trimmed = text::trim(name);
    if trimmed.unicode_len() == 0 || text::bytes_in(trimmed) > 128 {
        return Err(
            BridgeError::new(
                ErrorCode::InvalidRequest,
                "component name must contain 1 through 128 bytes",
            ),
        );
    }
    let chosen = match &preset {
        None => None,
        Some(slug) => match presets::parse_component_preset(slug.as_str()) {
            Some(preset) => Some(preset),
            None => {
                return Err(
                    BridgeError::new(
                        ErrorCode::InvalidRequest,
                        "component preset is not supported",
                    ),
                );
            },
        },
    };
    Ok(CreateComponent { name: trimmed.to_owned(), preset: chosen })
}

/// The review state that a word names.
pub open spec fn status_named(word: Seq<char>) -> Option<AnnotationStatus> {
    if word == "open"@ {
        Some(AnnotationStatus::Open)
    } else if word == "in_progress"@ {
        Some(AnnotationStatus::InProgress)
    } else if word == "done"@ {
        Some(AnnotationStatus::Done)
    } else if word == "archived"@ {
        Some(AnnotationStatus::Archived)
    } else {
        None
    }
}

/// The review state that a command names, or the error that a tool gets.
pub fn parse_annotation_status(word: &str) -> (result: Result<AnnotationStatus, BridgeError>)
    ensures
        match status_named(word@) {
            Some(status) => result == Ok::<AnnotationStatus, BridgeError>(status),
            None => result is Err && result->Err_0.says(
                ErrorCode::InvalidRequest,
                "status must be open, in_progress, done, or archived"@,
            ),
        },
{
    if text::same_text(word, "open") {
        Ok(AnnotationStatus::Open)
    } else if text::same_text(word, "in_progress") {
        Ok(AnnotationStatus::InProgress)
    } else if text::same_text(word, "done") {
        Ok(AnnotationStatus::Done)
    } else if text::same_text(word, "archived") {
        Ok(AnnotationStatus::Archived)
    } else {
        Err(
            BridgeError::new(
                ErrorCode::InvalidRequest,
                "status must be open, in_progress, done, or archived",
            ),
        )
    }
}

/// Whether the live tree has a node with this ID.
pub open spec fn is_live(tree: UiTree, id: Seq<char>) -> bool {
    automation::node_with_id(tree.nodes@, id, 0) is Some
}

/// Checks a command that asks where a drop would land: the parent and every child are live.
pub fn check_suggest_drop(tree: &UiTree, parent: &str, child_ids: &Vec<String>) -> (result: Result<
    (),
    BridgeError,
>)
    ensures
        if !is_live(*tree, parent@) {
            result is Err && result->Err_0.says(
                ErrorCode::NotFound,
                "drop parent was not found in the live semantic tree"@,
            )
        } else if exists|i: int|
            0 <= i < child_ids@.len() && !is_live(*tree, (#[trigger] child_ids@[i])@) {
            result is Err && result->Err_0.says(
                ErrorCode::NotFound,
                "one or more drop children were not found"@,
            )
        } else {
            result is Ok
        },
{
    if tree.get(parent).is_none() {
        return Err(
            BridgeError::new(
                ErrorCode::NotFound,
                "drop parent was not found in the live semantic tree",
            ),
        );
    }
    let mut i: usize = 0;
    while i < child_ids.len()
        invariant
            i <= child_ids.len(),
            is_live(*tree, parent@),
            forall|j: int| 0 <= j < i ==> is_live(*tree, (#[trigger] child_ids@[j])@),
        decreases child_ids.len() - i,
    {
        if tree.get(child_ids[i].as_str()).is_none() {
            proof {
                assert(!is_live(*tree, child_ids@[i as int]@));
            }
            return Err(
                BridgeError::new(ErrorCode::NotFound, "one or more drop children were not found"),
            );
        }
        i += 1;
    }
    Ok(())
}

/// Whether a live node with this ID is painted.
pub open spec fn is_painted(tree: UiTree, id: Seq<char>) -> bool {
    automation::bounds_of(tree.nodes@, id) is Some
}

/// Checks a command that snaps a selection: it names 1 to 256 elements, and every one of
/// them is painted.
pub fn check_snap(tree: &UiTree, ids: &Vec<String>) -> (result: Result<(), BridgeError>)
    ensures
        if ids@.len() == 0 || ids@.len() > 256 {
            result is Err && result->Err_0.says(
                ErrorCode::InvalidRequest,
                "snap requires 1 through 256 selected IDs"@,
            )
        } else if forall|i: int|
            0 <= i < ids@.len() ==> !is_painted(*tree, (#[trigger] ids@[i])@) {
            result is Err && result->Err_0.says(
                ErrorCode::NotFound,
                "selected live bounds were not found"@,
            )
        } else if exists|i: int|
            0 <= i < ids@.len() && !is_painted(*tree, (#[trigger] ids@[i])@) {
            result is Err && result->Err_0.says(
                ErrorCode::NotFound,
                "one or more selected live bounds were not found"@,
            )
        } else {
            result is Ok
        },
{
    if ids.len() == 0 || ids.len() > 256 {
        return Err(
            BridgeError::new(
                ErrorCode::InvalidRequest,
                "snap requires 1 through 256 selected IDs",
            ),
        );
    }
    let mut painted: usize = 0;
    let mut i: usize = 0;
    while i < ids.len()
        invariant
            i <= ids.len(),
            painted <= i,
            painted == 0 <==> forall|j: int|
                0 <= j < i ==> !is_painted(*tree, (#[trigger] ids@[j])@),
            painted == i <==> forall|j: int|
                0 <= j < i ==> is_painted(*tree, (#[trigger] ids@[j])@),
        decreases ids.len() - i,
    {
        let bounds = match tree.get(ids[i].as_str()) {
            Some(node) => node.bounds,
            None => None,
        };
        let ghost was = painted;
        if bounds.is_some() {
            painted += 1;
        }
        proof {
            assert(is_painted(*tree, ids@[i as int]@) == (bounds is Some));
        }
        i += 1;
    }
    if painted == 0 {
        return Err(BridgeError::new(ErrorCode::NotFound, "selected live bounds were not found"));
    }
    if painted != ids.len() {
        return Err(
            BridgeError::new(
                ErrorCode::NotFound,
                "one or more selected live bounds were not found",
            ),
        );
    }
    Ok(())
}

/// The IDs that a marquee touched, each once and in text order.
pub fn marquee_ids(touched: &Vec<String>) -> (out: Vec<String>)
    ensures
        text_set::ascending(text::texts(out@)),
        text::texts(out@).to_set() == text::texts(touched@).to_set(),
{
    let mut set = TextSet::new();
    set.extend(touched);
    proof {
        set.lemma_members();
        assert(set@ =~= text::texts(touched@).to_set());
    }
    set.to_vec()
}

// ---------------------------------------------------------------------------
// Parity
// ---------------------------------------------------------------------------

/// The IDs that a projection does not show: those whose marker does not occur in it.
pub open spec fn missing_ids(
    ids: Seq<Seq<char>>,
    projection: Seq<char>,
    before: Seq<char>,
    after: Seq<char>,
) -> Seq<Seq<char>>
    decreases ids.len(),
{
    if ids.len() == 0 {
        Seq::empty()
    } else {
        let rest = missing_ids(ids.drop_last(), projection, before, after);
        if text::position_of(projection, before + ids.last() + after, 0) is Some {
            rest
        } else {
            rest.push(ids.last())
        }
    }
}

fn find_missing(ids: &Vec<String>, projection: &Vec<char>, before: &str, after: &str) -> (out: Vec<
    String,
>)
    ensures
        text::texts(out@) == missing_ids(text::texts(ids@), projection@, before@, after@),
{
    let mut out: Vec<String> = Vec::new();
    let ghost all = text::texts(ids@);
    let mut i: usize = 0;
    while i < ids.len()
        invariant
            i <= ids.len(),
            all == text::texts(ids@),
            text::texts(out@) == missing_ids(all.take(i as int), projection@, before@, after@),
        decreases ids.len() - i,
    {
        let ghost was = out@;
        proof {
            assert(all.take(i as int + 1).drop_last() =~= all.take(i as int));
            assert(all.take(i as int + 1).last() == ids@[i as int]@);
        }
        let marker = text::chars_of(text::join3(before, ids[i].as_str(), after).as_str());
        if text::find(projection, &marker, 0).is_none() {
            out.push(ids[i].clone());
            proof {
                assert(text::texts(out@) =~= text::texts(was).push(ids@[i as int]@));
            }
        }
        i += 1;
    }
    proof {
        assert(all.take(i as int) =~= all);
    }
    out
}

/// Which nodes of a component its projections do not show.
#[derive(Debug)]
pub struct ParityReport {
    pub parity: bool,
    pub node_count: usize,
    pub missing_html: Vec<String>,
    pub missing_gpui: Vec<String>,
}

/// Reports the nodes of a component that are missing from its HTML projection (which marks a
/// node by its `id` attribute) or its GPUI projection (which marks it by its runtime ID).
pub fn projection_parity(component_id: &str, node_ids: &Vec<String>, html: &str, gpui: &str) -> (
    report: ParityReport)
    ensures
        text::texts(report.missing_html@) == missing_ids(
            text::texts(node_ids@),
            html@,
            "id=\""@,
            "\""@,
        ),
        text::texts(report.missing_gpui@) == missing_ids(
            text::texts(node_ids@),
            gpui@,
            crate::drag::component_prefix(component_id@),
            ""@,
        ),
        report.node_count == node_ids@.len(),
        report.parity == (report.missing_html@.len() == 0 && report.missing_gpui@.len() == 0),
{
    let missing_html = find_missing(node_ids, &text::chars_of(html), "id=\"", "\"");
    let prefix = text::join3("component/", component_id, "/");
    let missing_gpui = find_missing(node_ids, &text::chars_of(gpui), prefix.as_str(), "");
    ParityReport {
        parity: missing_html.len() == 0 && missing_gpui.len() == 0,
        node_count: node_ids.len(),
        missing_html,
        missing_gpui,
    }
}

/// There is parity just when every node is marked in both projections.
pub proof fn law_parity_means_every_node_is_shown(
    ids: Seq<Seq<char>>,
    projection: Seq<char>,
    before: Seq<char>,
    after: Seq<char>,
)
    ensures
        missing_ids(ids, projection, before, after).len() == 0 <==> forall|i: int|
            0 <= i < ids.len() ==> text::position_of(
                projection,
                before + #[trigger] ids[i] + after,
                0,
            ) is Some,
    decreases ids.len(),
{
    if ids.len() > 0 {
        let rest = ids.drop_last();
        law_parity_means_every_node_is_shown(rest, projection, before, after);
        assert(ids[ids.len() - 1] == ids.last());
        if missing_ids(ids, projection, before, after).len() == 0 {
            assert forall|i: int| 0 <= i < ids.len() implies text::position_of(
                projection,
                before + #[trigger] ids[i] + after,
                0,
            ) is Some by {
                if i < rest.len() {
                    assert(rest[i] == ids[i]);
                }
            }
        }
        if forall|i: int|
            0 <= i < ids.len() ==> text::position_of(
                projection,
                before + #[trigger] ids[i] + after,
                0,
            ) is Some {
            assert forall|i: int| 0 <= i < rest.len() implies text::position_of(
                projection,
                before + #[trigger] rest[i] + after,
                0,
            ) is Some by {
                assert(rest[i] == ids[i]);
            }
        }
    }
}

/// Each node that a projection lacks is reported, in the order of the nodes, and no other.
pub proof fn law_missing_nodes_are_reported(
    ids: Seq<Seq<char>>,
    projection: Seq<char>,
    before: Seq<char>,
    after: Seq<char>,
)
    ensures
        missing_ids(ids, projection, before, after) == ids.filter(
            |id: Seq<char>| text::position_of(projection, before + id + after, 0) is None,
        ),
    decreases ids.len(),
{
    reveal(Seq::filter);
    if ids.len() > 0 {
        law_missing_nodes_are_reported(ids.drop_last(), projection, before, after);
    }
}

/// Four words name the review states, and no other word names one.
pub proof fn law_words_name_the_review_states(word: Seq<char>)
    ensures
        status_named("open"@) == Some(AnnotationStatus::Open),
        status_named("in_progress"@) == Some(AnnotationStatus::InProgress),
        status_named("done"@) == Some(AnnotationStatus::Done),
        status_named("archived"@) == Some(AnnotationStatus::Archived),
        status_named(word) is Some ==> word == "open"@ || word == "in_progress"@ || word == "done"@
            || word == "archived"@,
{
    reveal_strlit("open");
    reveal_strlit("in_progress");
    reveal_strlit("done");
    reveal_strlit("archived");
    assert("open"@[0] == 'o' && "in_progress"@[0] == 'i' && "done"@[0] == 'd');
    assert("archived"@[0] == 'a');
}

/// A node is live where the tree lists its ID, and painted where the first node with its ID has
/// bounds.
pub proof fn law_live_nodes_are_listed(tree: UiTree, i: int)
    requires
        0 <= i < tree.nodes@.len(),
        forall|j: int| 0 <= j < i ==> #[trigger] tree.nodes@[j].id@ != tree.nodes@[i].id@,
    ensures
        is_live(tree, tree.nodes@[i].id@),
        is_painted(tree, tree.nodes@[i].id@) <==> tree.nodes@[i].bounds is Some,
{
    lemma_node_is_found(tree.nodes@, i, 0);
}

proof fn lemma_node_is_found(nodes: Seq<automation::UiNode>, i: int, from: int)
    requires
        0 <= from <= i < nodes.len(),
        forall|j: int| 0 <= j < i ==> #[trigger] nodes[j].id@ != nodes[i].id@,
    ensures
        automation::node_with_id(nodes, nodes[i].id@, from) == Some(nodes[i]),
    decreases i - from,
{
    if from < i {
        assert(nodes[from].id@ != nodes[i].id@);
        lemma_node_is_found(nodes, i, from + 1);
    }
}

/// What the tree does not list is neither live nor painted.
pub proof fn law_unlisted_nodes_are_not_live(tree: UiTree, id: Seq<char>)
    requires
        forall|j: int| 0 <= j < tree.nodes@.len() ==> #[trigger] tree.nodes@[j].id@ != id,
    ensures
        !is_live(tree, id),
        !is_painted(tree, id),
{
    lemma_none_is_found(tree.nodes@, id, 0);
}

proof fn lemma_none_is_found(nodes: Seq<automation::UiNode>, id: Seq<char>, from: int)
    requires
        0 <= from,
        forall|j: int| 0 <= j < nodes.len() ==> #[trigger] nodes[j].id@ != id,
    ensures
        automation::node_with_id(nodes, id, from) is None,
    decreases nodes.len() - from,
{
    if from < nodes.len() {
        assert(nodes[from].id@ != id);
        lemma_none_is_found(nodes, id, from + 1);
    }
}

} // verus!
