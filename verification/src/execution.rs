//! Running the commands of tools: each is checked, changes the session where it can be done at
//! once, and else names the step that is left to the project's services.
use vstd::prelude::*;

use crate::annotations;
use crate::annotations::{AnnotationError, AnnotationStatus, AnnotationStore};
use crate::automation::UiTree;
use crate::commands;
use crate::commands::{
    BridgeError, CreateComponent, ErrorCode, GraphFault, ParityReport, StudioCommand,
};
use crate::components;
use crate::components::{ComponentLibrary, NativeNode};
use crate::documents::LayerPick;
use crate::keyed;
use crate::layer_rows;
use crate::layer_rows::LayerRow;
use crate::presets;
use crate::session;
use crate::studio::{Authoring, LayerLists, Review};
use crate::text;
use crate::text_set;
use crate::tree_session::{GraphSync, KnownGraph};

verus! {

/// A command with its decoded arguments.
#[derive(Debug)]
pub enum CommandRequest {
    GraphGet { component_id: String },
    GraphApply { component_id: String },
    GraphUndo { component_id: String },
    GraphRedo { component_id: String },
    Remove { component_id: String },
    Create { name: String, preset: Option<String> },
    Select { runtime_id: String },
    /// `touched` holds the layers that the rectangle meets.
    Marquee { touched: Vec<String>, additive: bool },
    SuggestDrop { parent: String, child_ids: Vec<String> },
    Snap { ids: Vec<String> },
    UpdateAnnotation { id: String, status: String },
    /// The projections of the component, where it exists.
    Parity { component_id: String, html: String, gpui: String },
}

impl CommandRequest {
    /// The command that this asks for.
    pub open spec fn command_of(&self) -> StudioCommand {
        match self {
            CommandRequest::GraphGet { .. } => StudioCommand::ComponentGraphGet,
            CommandRequest::GraphApply { .. } => StudioCommand::ComponentGraphApply,
            CommandRequest::GraphUndo { .. } => StudioCommand::ComponentGraphUndo,
            CommandRequest::GraphRedo { .. } => StudioCommand::ComponentGraphRedo,
            CommandRequest::Remove { .. } => StudioCommand::ComponentRemove,
            CommandRequest::Create { .. } => StudioCommand::ComponentCreate,
            CommandRequest::Select { .. } => StudioCommand::SelectionSet,
            CommandRequest::Marquee { .. } => StudioCommand::SelectionMarquee,
            CommandRequest::SuggestDrop { .. } => StudioCommand::LayoutSuggestDrop,
            CommandRequest::Snap { .. } => StudioCommand::LayoutSnap,
            CommandRequest::UpdateAnnotation { .. } => StudioCommand::AnnotationUpdate,
            CommandRequest::Parity { .. } => StudioCommand::ProjectParity,
        }
    }

    /// The command that this asks for.
    pub fn command(&self) -> (command: StudioCommand)
        ensures
            command == self.command_of(),
    {
        match self {
            CommandRequest::GraphGet { .. } => StudioCommand::ComponentGraphGet,
            CommandRequest::GraphApply { .. } => StudioCommand::ComponentGraphApply,
            CommandRequest::GraphUndo { .. } => StudioCommand::ComponentGraphUndo,
            CommandRequest::GraphRedo { .. } => StudioCommand::ComponentGraphRedo,
            CommandRequest::Remove { .. } => StudioCommand::ComponentRemove,
            CommandRequest::Create { .. } => StudioCommand::ComponentCreate,
            CommandRequest::Select { .. } => StudioCommand::SelectionSet,
            CommandRequest::Marquee { .. } => StudioCommand::SelectionMarquee,
            CommandRequest::SuggestDrop { .. } => StudioCommand::LayoutSuggestDrop,
            CommandRequest::Snap { .. } => StudioCommand::LayoutSnap,
            CommandRequest::UpdateAnnotation { .. } => StudioCommand::AnnotationUpdate,
            CommandRequest::Parity { .. } => StudioCommand::ProjectParity,
        }
    }
}

/// What is live while a command runs.
#[derive(Debug)]
pub struct LiveContext {
    pub tree: UiTree,
    /// The page layers that commands can name.
    pub rows: Vec<LayerRow>,
    pub revision: Option<u64>,
    /// The kept graph of the component that the command names.
    pub graph: Option<KnownGraph>,
}

/// What a command does to a component graph.
#[derive(Clone, Copy, Debug, PartialEq, Eq, Structural)]
pub enum GraphAction {
    Read,
    Apply,
    Undo,
    Redo,
}

/// What is left of a command once it was checked.
#[derive(Debug)]
pub enum CommandStep {
    /// Bring the graph up to date, then read or change it.
    Graph { component_id: String, sync: GraphSync, action: GraphAction },
    RemoveComponent { component_id: String },
    CreateComponent(CreateComponent),
    /// Done: one layer is selected.
    LayerSelected { revision: Option<u64>, status: String },
    /// Done: these layers are selected.
    LayersSelected { revision: Option<u64>, ids: Vec<String>, told: Option<String> },
    /// Ask the placement engine where a drop lands.
    SuggestDrop { parent: String, child_ids: Vec<String>, revision: Option<u64> },
    /// Ask the placement engine where a selection snaps.
    Snap { ids: Vec<String>, revision: Option<u64> },
    /// Save this document, then take it over.
    SaveAnnotations { candidate: AnnotationStore, id: String, next: AnnotationStatus },
    /// Done: the report, with the kept graph's revision.
    Parity { report: ParityReport, revision: Option<u64> },
}

/// Whether the outcome of a graph command is right: an unknown component is an error, any
/// other gets its graph brought up to date first.
pub open spec fn graph_step(
    library: ComponentLibrary,
    id: Seq<char>,
    known: Option<KnownGraph>,
    wanted: GraphAction,
    result: Result<CommandStep, BridgeError>,
) -> bool {
    match library.lookup(id) {
        None => result is Err && result->Err_0.says(
            ErrorCode::NotFound,
            "component was not found"@,
        ),
        Some(_) => result matches Ok(step) && step
            matches CommandStep::Graph { component_id, sync, action } && {
            &&& component_id@ == id
            &&& action == wanted
            &&& sync == (match known {
                None => GraphSync::Rebuild(1),
                Some(graph) => if graph.current {
                    GraphSync::Keep
                } else if graph.revision == u64::MAX {
                    GraphSync::Rebuild(u64::MAX)
                } else {
                    GraphSync::Rebuild((graph.revision + 1) as u64)
                },
            })
        },
    }
}

/// Whether the outcome of a command to create a component is right.
pub open spec fn create_step(
    name: Seq<char>,
    preset: Option<Seq<char>>,
    result: Result<CommandStep, BridgeError>,
) -> bool {
    let trimmed = text::trimmed(name);
    if trimmed.len() == 0 || text::byte_len(trimmed) > 128 {
        result is Err && result->Err_0.says(
            ErrorCode::InvalidRequest,
            "component name must contain 1 through 128 bytes"@,
        )
    } else if preset is Some && presets::preset_named(preset->0, 0) is None {
        result is Err && result->Err_0.says(
            ErrorCode::InvalidRequest,
            "component preset is not supported"@,
        )
    } else {
        result matches Ok(step) && step matches CommandStep::CreateComponent(create) && {
            &&& create.name@ == trimmed
            &&& create.preset == (match preset {
                Some(slug) => presets::preset_named(slug, 0),
                None => None,
            })
        }
    }
}

/// Whether the outcome of a command on a review task is right.
pub open spec fn annotation_step(
    review: Review,
    task: Seq<char>,
    word: Seq<char>,
    result: Result<CommandStep, BridgeError>,
) -> bool {
    match commands::status_named(word) {
        None => result is Err && result->Err_0.says(
            ErrorCode::InvalidRequest,
            "status must be open, in_progress, done, or archived"@,
        ),
        Some(next) => match review.annotations@.position(task) {
            None => result is Err && result->Err_0.says(
                ErrorCode::InvalidRequest,
                annotations::ErrorView::NotFound.message(),
            ),
            Some(i) => if review.annotations@.annotations[i].status.may_become(next) {
                result matches Ok(step) && step
                    matches CommandStep::SaveAnnotations { candidate, id, next: wanted } && {
                    &&& candidate@ == review.annotations@.with_status(i, next)
                    &&& id@ == task
                    &&& wanted == next
                }
            } else {
                result is Err && result->Err_0.says(
                    ErrorCode::InvalidRequest,
                    annotations::ErrorView::Invalid("annotation task transition is invalid"@).message(),
                )
            },
        },
    }
}

/// Whether the outcome of a parity check is right.
pub open spec fn parity_step(
    library: ComponentLibrary,
    id: Seq<char>,
    html: Seq<char>,
    gpui: Seq<char>,
    known: Option<KnownGraph>,
    result: Result<CommandStep, BridgeError>,
) -> bool {
    match library.lookup(id) {
        None => result is Err && result->Err_0.says(
            ErrorCode::NotFound,
            "component was not found"@,
        ),
        Some(component) => result matches Ok(step) && step
            matches CommandStep::Parity { report, revision } && {
            let ids = components::node_ids(component.root);
            &&& text::texts(report.missing_html@) == commands::missing_ids(
                ids,
                html,
                "id=\""@,
                "\""@,
            )
            &&& text::texts(report.missing_gpui@) == commands::missing_ids(
                ids,
                gpui,
                crate::drag::component_prefix(id),
                ""@,
            )
            &&& report.node_count == ids.len()
            &&& report.parity == (report.missing_html@.len() == 0
                && report.missing_gpui@.len() == 0)
            &&& revision == (match known {
                Some(graph) => Some(graph.revision),
                None => None,
            })
        },
    }
}

/// The row of the layer that comes first in text order among those that a marquee touched.
pub open spec fn first_touched(rows: Seq<LayerRow>, touched: Seq<Seq<char>>) -> Option<int> {
    match text_set::least_of(touched) {
        None => None,
        Some(id) => layer_rows::row_at(rows, id, 0),
    }
}

/// Selects the layers that a marquee touched, besides what is selected or in its place. The
/// first of them that is listed becomes the selection; then just the touched layers are
/// selected.
fn run_marquee(
    lists: &mut LayerLists,
    authoring: &mut Authoring,
    live: &LiveContext,
    touched: &Vec<String>,
    additive: bool,
) -> (out: (Vec<String>, Option<String>))
    requires
        old(lists).wf(),
    ensures
        final(lists).wf(),
        marquee_effect(
            *old(lists),
            *final(lists),
            *old(authoring),
            *final(authoring),
            *live,
            text::texts(touched@),
            additive,
        ),
        text_set::ascending(text::texts(out.0@)),
        text::texts(out.0@).to_set() == final(lists).multi_selection@,
        marquee_status(live.rows@, text::texts(touched@), out.1),
{
    let ids = commands::marquee_ids(touched);
    proof {
        text_set::lemma_least_comes_first(text::texts(ids@), text::texts(touched@));
    }
    lists.select_marquee(&ids, additive);
    let found = if ids.len() > 0 {
        layer_rows::find_row(&live.rows, ids[0].as_str())
    } else {
        None
    };
    let status = match found {
        Some(i) => {
            let status = session::select_project_layer(
                lists,
                authoring,
                &live.rows[i],
                LayerPick::Single,
                live.revision,
                &live.tree,
            );
            proof {
                let id = live.rows@[i as int].runtime_id@;
                assert(Set::<Seq<char>>::empty().insert(id).len() == 1);
            }
            lists.select_marquee(&ids, true);
            proof {
                layer_rows::lemma_row_at(live.rows@, ids@[0]@, 0);
                let all = text::texts(ids@);
                assert(all[0] == live.rows@[i as int].runtime_id@);
                assert(lists.multi_selection@ =~= all.to_set());
            }
            Some(status)
        },
        None => None,
    };
    proof {
        lists.multi_selection.lemma_members();
    }
    (lists.multi_selection.to_vec(), status)
}

/// How people are told of the layer that a marquee made the selection.
pub open spec fn marquee_status(
    rows: Seq<LayerRow>,
    touched: Seq<Seq<char>>,
    status: Option<String>,
) -> bool {
    match first_touched(rows, touched) {
        None => status is None,
        Some(i) => status is Some && status->0@ == "Selected "@ + rows[i].label@ + " · "@
            + text::decimal_text(1) + " layer"@ + ""@,
    }
}

/// What a marquee does to the session.
pub open spec fn marquee_effect(
    lists: LayerLists,
    new_lists: LayerLists,
    authoring: Authoring,
    new_authoring: Authoring,
    live: LiveContext,
    touched: Seq<Seq<char>>,
    additive: bool,
) -> bool {
    match first_touched(live.rows@, touched) {
        None => {
            &&& new_authoring == authoring
            &&& new_lists == (LayerLists { multi_selection: new_lists.multi_selection, ..lists })
            &&& new_lists.multi_selection@ == (if additive {
                lists.multi_selection@.union(touched.to_set())
            } else {
                touched.to_set()
            })
        },
        Some(i) => {
            let row = live.rows@[i];
            &&& new_lists.multi_selection@ == touched.to_set()
            &&& text::text_view(new_lists.anchor) == Some(row.runtime_id@)
            &&& text::text_view(new_lists.project_focus) == Some(row.runtime_id@)
            &&& new_lists == (LayerLists {
                multi_selection: new_lists.multi_selection,
                anchor: new_lists.anchor,
                project_focus: new_lists.project_focus,
                ..lists
            })
            &&& new_authoring == (Authoring {
                selection: new_authoring.selection,
                snapshot: None,
                ..authoring
            })
            &&& new_authoring.selection@ == session::layer_selection(
                row,
                live.revision,
                authoring.selection@,
                live.tree,
            )
        },
    }
}

fn invalid_request(error: &AnnotationError) -> (out: BridgeError)
    ensures
        out.says(ErrorCode::InvalidRequest, error@.message()),
{
    BridgeError { code: ErrorCode::InvalidRequest, message: error.message() }
}

/// Runs a command as far as the session can: its arguments are checked, a selection is
/// changed at once, and what needs the project's services is returned as the next step. A
/// refused command changes nothing.
pub fn execute_application_command(
    authoring: &mut Authoring,
    lists: &mut LayerLists,
    review: &Review,
    request: CommandRequest,
    live: &LiveContext,
) -> (result: Result<CommandStep, BridgeError>)
    requires
        old(lists).wf(),
    ensures
        final(lists).wf(),
        match request {
            CommandRequest::GraphGet { component_id } => graph_step(
                old(authoring).library,
                component_id@,
                live.graph,
                GraphAction::Read,
                result,
            ),
            CommandRequest::GraphApply { component_id } => graph_step(
                old(authoring).library,
                component_id@,
                live.graph,
                GraphAction::Apply,
                result,
            ),
            CommandRequest::GraphUndo { component_id } => graph_step(
                old(authoring).library,
                component_id@,
                live.graph,
                GraphAction::Undo,
                result,
            ),
            CommandRequest::GraphRedo { component_id } => graph_step(
                old(authoring).library,
                component_id@,
                live.graph,
                GraphAction::Redo,
                result,
            ),
            CommandRequest::Remove { component_id } => result matches Ok(step) && step
                matches CommandStep::RemoveComponent { component_id: id } && id == component_id,
            CommandRequest::Create { name, preset } => create_step(
                name@,
                text::text_view(preset),
                result,
            ),
            CommandRequest::Select { runtime_id } => match layer_rows::row_at(
                live.rows@,
                runtime_id@,
                0,
            ) {
                None => result is Err && result->Err_0.says(
                    ErrorCode::NotFound,
                    "project layer was not found"@,
                ),
                Some(i) => result matches Ok(step) && step
                    matches CommandStep::LayerSelected { revision, status } && {
                    &&& revision == live.revision
                    &&& status@ == final(lists).picked_text(live.rows@[i].label@)
                    &&& final(lists).picked(
                        *old(lists),
                        live.rows@[i].runtime_id@,
                        LayerPick::Single,
                    )
                    &&& final(authoring).selection@ == session::layer_selection(
                        live.rows@[i],
                        live.revision,
                        old(authoring).selection@,
                        live.tree,
                    )
                },
            },
            CommandRequest::Marquee { touched, additive } => result matches Ok(step) && step
                matches CommandStep::LayersSelected { revision, ids, told } && {
                &&& revision == live.revision
                &&& marquee_status(live.rows@, text::texts(touched@), told)
                &&& text_set::ascending(text::texts(ids@))
                &&& text::texts(ids@).to_set() == final(lists).multi_selection@
                &&& marquee_effect(
                    *old(lists),
                    *final(lists),
                    *old(authoring),
                    *final(authoring),
                    *live,
                    text::texts(touched@),
                    additive,
                )
            },
            CommandRequest::SuggestDrop { parent, child_ids } => if !commands::is_live(
                live.tree,
                parent@,
            ) {
                result is Err && result->Err_0.says(
                    ErrorCode::NotFound,
                    "drop parent was not found in the live semantic tree"@,
                )
            } else if exists|i: int|
                0 <= i < child_ids@.len() && !commands::is_live(
                    live.tree,
                    (#[trigger] child_ids@[i])@,
                ) {
                result is Err && result->Err_0.says(
                    ErrorCode::NotFound,
                    "one or more drop children were not found"@,
                )
            } else {
                result == Ok::<CommandStep, BridgeError>(
                    CommandStep::SuggestDrop { parent, child_ids, revision: live.revision },
                )
            },
            CommandRequest::Snap { ids } => if ids@.len() == 0 || ids@.len() > 256 {
                result is Err && result->Err_0.says(
                    ErrorCode::InvalidRequest,
                    "snap requires 1 through 256 selected IDs"@,
                )
            } else if forall|i: int|
                0 <= i < ids@.len() ==> !commands::is_painted(live.tree, (#[trigger] ids@[i])@) {
                result is Err && result->Err_0.says(
                    ErrorCode::NotFound,
                    "selected live bounds were not found"@,
                )
            } else if exists|i: int|
                0 <= i < ids@.len() && !commands::is_painted(live.tree, (#[trigger] ids@[i])@) {
                result is Err && result->Err_0.says(
                    ErrorCode::NotFound,
                    "one or more selected live bounds were not found"@,
                )
            } else {
                result == Ok::<CommandStep, BridgeError>(
                    CommandStep::Snap { ids, revision: live.revision },
                )
            },
            CommandRequest::UpdateAnnotation { id, status } => annotation_step(
                *review,
                id@,
                status@,
                result,
            ),
            CommandRequest::Parity { component_id, html, gpui } => parity_step(
                old(authoring).library,
                component_id@,
                html@,
                gpui@,
                live.graph,
                result,
            ),
        },
        !(request is Select || request is Marquee) ==> *final(authoring) == *old(authoring)
            && *final(lists) == *old(lists),
        result is Err ==> *final(authoring) == *old(authoring) && *final(lists) == *old(lists),
        *final(authoring) == (Authoring {
            selection: final(authoring).selection,
            snapshot: final(authoring).snapshot,
            ..*old(authoring)
        }),
        request is Select && result is Ok ==> final(authoring).snapshot is None,
{
    match request {
        CommandRequest::GraphGet { component_id } => {
            match authoring.synchronize_component_graph(component_id.as_str(), live.graph) {
                Err(error) => Err(error),
                Ok(sync) => Ok(
                    CommandStep::Graph { component_id, sync, action: GraphAction::Read },
                ),
            }
        },
        CommandRequest::GraphApply { component_id } => {
            match authoring.synchronize_component_graph(component_id.as_str(), live.graph) {
                Err(error) => Err(error),
                Ok(sync) => Ok(
                    CommandStep::Graph { component_id, sync, action: GraphAction::Apply },
                ),
            }
        },
        CommandRequest::GraphUndo { component_id } => {
            match authoring.synchronize_component_graph(component_id.as_str(), live.graph) {
                Err(error) => Err(error),
                Ok(sync) => Ok(
                    CommandStep::Graph { component_id, sync, action: GraphAction::Undo },
                ),
            }
        },
        CommandRequest::GraphRedo { component_id } => {
            match authoring.synchronize_component_graph(component_id.as_str(), live.graph) {
                Err(error) => Err(error),
                Ok(sync) => Ok(
                    CommandStep::Graph { component_id, sync, action: GraphAction::Redo },
                ),
            }
        },
        CommandRequest::Remove { component_id } => Ok(CommandStep::RemoveComponent { component_id }),
        CommandRequest::Create { name, preset } => {
            match commands::check_create_component(name.as_str(), preset) {
                Err(error) => Err(error),
                Ok(create) => Ok(CommandStep::CreateComponent(create)),
            }
        },
        CommandRequest::Select { runtime_id } => {
            match layer_rows::find_row(&live.rows, runtime_id.as_str()) {
                None => Err(BridgeError::new(ErrorCode::NotFound, "project layer was not found")),
                Some(i) => {
                    let status = session::select_project_layer(
                        lists,
                        authoring,
                        &live.rows[i],
                        LayerPick::Single,
                        live.revision,
                        &live.tree,
                    );
                    Ok(CommandStep::LayerSelected { revision: live.revision, status })
                },
            }
        },
        CommandRequest::Marquee { touched, additive } => {
            let out = run_marquee(lists, authoring, live, &touched, additive);
            Ok(
                CommandStep::LayersSelected {
                    revision: live.revision,
                    ids: out.0,
                    told: out.1,
                },
            )
        },
        CommandRequest::SuggestDrop { parent, child_ids } => {
            match commands::check_suggest_drop(&live.tree, parent.as_str(), &child_ids) {
                Err(error) => Err(error),
                Ok(()) => Ok(
                    CommandStep::SuggestDrop { parent, child_ids, revision: live.revision },
                ),
            }
        },
        CommandRequest::Snap { ids } => {
            match commands::check_snap(&live.tree, &ids) {
                Err(error) => Err(error),
                Ok(()) => Ok(CommandStep::Snap { ids, revision: live.revision }),
            }
        },
        CommandRequest::UpdateAnnotation { id, status } => {
            let next = match commands::parse_annotation_status(status.as_str()) {
                Err(error) => return Err(error),
                Ok(next) => next,
            };
            match review.prepare_transition(id.as_str(), next) {
                Err(error) => Err(invalid_request(&error)),
                Ok(candidate) => Ok(CommandStep::SaveAnnotations { candidate, id, next }),
            }
        },
        CommandRequest::Parity { component_id, html, gpui } => {
            let component = match authoring.library.component(component_id.as_str()) {
                None => {
                    return Err(BridgeError::new(ErrorCode::NotFound, "component was not found"));
                },
                Some(component) => component,
            };
            let ids = components::component_node_ids(&component.root);
            let report = commands::projection_parity(
                component_id.as_str(),
                &ids,
                html.as_str(),
                gpui.as_str(),
            );
            let revision = match live.graph {
                Some(graph) => Some(graph.revision),
                None => None,
            };
            Ok(CommandStep::Parity { report, revision })
        },
    }
}

// ---------------------------------------------------------------------------
// Finishing commands
// ---------------------------------------------------------------------------

/// What a change of a component graph led to.
#[derive(Debug)]
pub struct GraphChange {
    pub revision: u64,
    pub root: NativeNode,
}

/// Why a change of a component graph failed.
#[derive(Debug)]
pub struct GraphRefusal {
    pub fault: GraphFault,
    pub message: String,
}

/// The revision of a kept graph, or the error that a tool gets where none is kept.
pub fn kept_graph(revision: Option<u64>) -> (result: Result<u64, BridgeError>)
    ensures
        match revision {
            Some(revision) => result == Ok::<u64, BridgeError>(revision),
            None => result is Err && result->Err_0.says(
                ErrorCode::NotFound,
                "component graph was not found"@,
            ),
        },
{
    match revision {
        Some(revision) => Ok(revision),
        None => Err(BridgeError::new(ErrorCode::NotFound, "component graph was not found")),
    }
}

/// A component graph that was changed and published.
#[derive(Debug)]
pub struct PublishedGraph {
    pub revision: u64,
    /// How people are told.
    pub status: String,
}

/// Takes over the tree that a change of a component graph led to. Returns the new revision and
/// how people are told.
pub fn finish_graph_change(
    authoring: &mut Authoring,
    lists: &mut LayerLists,
    component_id: &str,
    applied: Result<GraphChange, GraphRefusal>,
) -> (result: Result<PublishedGraph, BridgeError>)
    ensures
        match (applied, keyed::first_key(old(authoring).library.components@, component_id@, 0)) {
            (Err(refusal), _) => {
                &&& result is Err
                &&& result->Err_0.says(
                    match refusal.fault {
                        GraphFault::Conflict => ErrorCode::StaleRevision,
                        GraphFault::MissingNode => ErrorCode::NotFound,
                        GraphFault::Other => ErrorCode::InvalidRequest,
                    },
                    refusal.message@,
                )
                &&& *final(authoring) == *old(authoring)
                &&& *final(lists) == *old(lists)
            },
            (Ok(_), None) => {
                &&& result is Err
                &&& result->Err_0.says(ErrorCode::NotFound, "component was not found"@)
                &&& *final(authoring) == *old(authoring)
                &&& *final(lists) == *old(lists)
            },
            (Ok(change), Some(i)) => {
                &&& result is Ok
                &&& result->Ok_0.revision == change.revision
                &&& result->Ok_0.status@ == "Component "@ + component_id@
                    + " live graph published"@
                &&& final(authoring).published(*old(authoring), i, change.root)
                &&& *final(lists) == (LayerLists { initialized_for: None, ..*old(lists) })
            },
        },
{
    match applied {
        Err(refusal) => Err(
            commands::graph_bridge_error(refusal.fault, refusal.message.as_str()),
        ),
        Ok(change) => match authoring.publish_component_graph(lists, component_id, change.root) {
            Err(error) => Err(error),
            Ok(status) => Ok(PublishedGraph { revision: change.revision, status }),
        },
    }
}

/// Takes over a library with a new component, once it was saved. Returns the revision of the
/// new component's graph.
pub fn finish_create(
    authoring: &mut Authoring,
    candidate: ComponentLibrary,
    saved: Result<(), String>,
) -> (result: Result<u64, BridgeError>)
    ensures
        match saved {
            Ok(()) => {
                &&& result == Ok::<u64, BridgeError>(1)
                &&& *final(authoring) == (Authoring { library: candidate, ..*old(authoring) })
            },
            Err(error) => {
                &&& result is Err
                &&& result->Err_0.says(
                    ErrorCode::Internal,
                    "component could not be persisted: "@ + error@,
                )
                &&& *final(authoring) == *old(authoring)
            },
        },
{
    match saved {
        Ok(()) => {
            authoring.library = candidate;
            Ok(1)
        },
        Err(error) => Err(
            BridgeError {
                code: ErrorCode::Internal,
                message: text::join2("component could not be persisted: ", error.as_str()),
            },
        ),
    }
}

/// The error that a tool gets for a component that is not removed.
pub fn finish_remove(removed: Result<String, String>) -> (result: Result<String, BridgeError>)
    ensures
        match removed {
            Ok(name) => result == Ok::<String, BridgeError>(name),
            Err(error) => result is Err && result->Err_0.says(ErrorCode::InvalidRequest, error@),
        },
{
    match removed {
        Ok(name) => Ok(name),
        Err(error) => Err(BridgeError { code: ErrorCode::InvalidRequest, message: error }),
    }
}

/// Takes over a document in which a review task moved on, once it was saved.
pub fn finish_annotation(
    review: &mut Review,
    candidate: AnnotationStore,
    id: &str,
    status: AnnotationStatus,
    saved: Result<(), String>,
) -> (result: Result<String, BridgeError>)
    ensures
        match saved {
            Err(error) => {
                &&& result is Err
                &&& result->Err_0.says(ErrorCode::Internal, error@)
                &&& *final(review) == *old(review)
            },
            Ok(()) => {
                &&& result is Ok
                &&& result->Ok_0@ == "Review task "@ + id@ + " → "@
                    + crate::panels::status_name_text(status)
                &&& final(review).moved_on(*old(review), candidate, id@, status)
            },
        },
{
    match saved {
        Err(error) => Err(BridgeError { code: ErrorCode::Internal, message: error }),
        Ok(()) => Ok(review.transition_annotation(candidate, id, status)),
    }
}

// ---------------------------------------------------------------------------
// What the commands come to
// ---------------------------------------------------------------------------

/// A graph command on a known component acts on it, after its graph was made anew where it is
/// missing, at the first revision, or outdated, one revision later; an unknown component is not
/// found.
pub proof fn law_graphs_are_brought_up_to_date(
    library: ComponentLibrary,
    id: Seq<char>,
    known: Option<KnownGraph>,
    wanted: GraphAction,
    result: Result<CommandStep, BridgeError>,
    i: int,
)
    requires
        graph_step(library, id, known, wanted, result),
        0 <= i < library.components@.len() ==> library.components@[i].id@ == id,
    ensures
        (forall|j: int| 0 <= j < library.components@.len() ==> #[trigger] library.components@[j].id@
            != id) ==> result is Err && result->Err_0.code is NotFound && result->Err_0.message@
            == "component was not found"@,
        0 <= i < library.components@.len() ==> {
            &&& result is Ok
            &&& result->Ok_0 matches CommandStep::Graph { component_id, sync, action }
                && component_id@ == id && action == wanted && (known is None ==> sync
                == GraphSync::Rebuild(1)) && (known is Some && known->0.current ==> sync is Keep)
                && (known is Some && !known->0.current && known->0.revision < u64::MAX ==> sync
                == GraphSync::Rebuild((known->0.revision + 1) as u64)) && (known is Some
                && !known->0.current && known->0.revision == u64::MAX ==> sync
                == GraphSync::Rebuild(u64::MAX))
        },
{
    keyed::lemma_first_key(library.components@, id, 0);
}

/// A component is created under its name without the white space around it, which has 1 to 128
/// bytes, and from a known preset or none.
pub proof fn law_components_are_created_by_name(
    name: Seq<char>,
    preset: Option<Seq<char>>,
    result: Result<CommandStep, BridgeError>,
)
    requires
        create_step(name, preset, result),
    ensures
        ({
            let length = text::byte_len(text::trimmed(name));
            let named = text::trimmed(name).len() > 0 && length <= 128;
            let known = preset is None || presets::preset_named(preset->0, 0) is Some;
            &&& result is Ok <==> named && known
            &&& result is Ok ==> (result->Ok_0 matches CommandStep::CreateComponent(create)
                && create.name@ == text::trimmed(name) && (preset is None ==> create.preset is None)
                && (preset is Some ==> create.preset == presets::preset_named(preset->0, 0)))
            &&& result is Err ==> result->Err_0.code is InvalidRequest
            &&& !named ==> result->Err_0.message@
                == "component name must contain 1 through 128 bytes"@
            &&& named && !known ==> result->Err_0.message@ == "component preset is not supported"@
        }),
{
}

/// A review task moves to the state that the word names where its state allows it: what is saved
/// differs in that one state alone.
pub proof fn law_tasks_move_to_the_named_state(
    review: Review,
    task: Seq<char>,
    word: Seq<char>,
    result: Result<CommandStep, BridgeError>,
    k: int,
)
    requires
        annotation_step(review, task, word, result),
    ensures
        commands::status_named(word) is None ==> result is Err && result->Err_0.code
            is InvalidRequest && result->Err_0.message@
            == "status must be open, in_progress, done, or archived"@,
        commands::status_named(word) is Some && review.annotations@.position(task) is None ==> result
            is Err && result->Err_0.code is InvalidRequest && result->Err_0.message@
            == "annotation task was not found"@,
        commands::status_named(word) is Some && review.annotations@.position(task) is Some ==> {
            let next = commands::status_named(word)->0;
            let i = review.annotations@.position(task)->0;
            let all = review.annotations@.annotations;
            &&& result is Ok <==> all[i].status.may_become(next)
            &&& result is Err ==> result->Err_0.code is InvalidRequest && result->Err_0.message@
                == "invalid annotations: "@ + "annotation task transition is invalid"@
            &&& result is Ok && 0 <= i < all.len() ==> (result->Ok_0
                matches CommandStep::SaveAnnotations { candidate, id, next: wanted } && id@ == task
                && wanted == next && candidate@.annotations.len() == all.len()
                && candidate@.annotations[i].status == next && candidate@.annotations[i].comment
                == all[i].comment && candidate@.annotations[i].id == all[i].id
                && candidate@.annotations[i].target == all[i].target && (0 <= k < all.len() && k
                != i ==> candidate@.annotations[k] == all[k]))
        },
{
}

/// Parity is reported of the nodes of the component: those without their ID in the page's source
/// and those without their runtime ID in the native one, at the revision of the known graph.
pub proof fn law_parity_is_of_both_projections(
    library: ComponentLibrary,
    id: Seq<char>,
    html: Seq<char>,
    gpui: Seq<char>,
    known: Option<KnownGraph>,
    result: Result<CommandStep, BridgeError>,
    i: int,
)
    requires
        parity_step(library, id, html, gpui, known, result),
        0 <= i < library.components@.len(),
        library.components@[i].id@ == id,
        forall|j: int| 0 <= j < i ==> #[trigger] library.components@[j].id@ != id,
    ensures
        result is Ok,
        result->Ok_0 matches CommandStep::Parity { report, revision } && {
            let ids = components::node_ids(library.components@[i].root);
            &&& report.node_count == ids.len()
            &&& text::texts(report.missing_html@) == ids.filter(
                |node: Seq<char>| text::position_of(html, "id=\""@ + node + "\""@, 0) is None,
            )
            &&& text::texts(report.missing_gpui@) == ids.filter(
                |node: Seq<char>|
                    text::position_of(gpui, "component/"@ + id + "/"@ + node + ""@, 0) is None,
            )
            &&& report.parity <==> report.missing_html@.len() == 0 && report.missing_gpui@.len()
                == 0
            &&& known is Some ==> revision == Some(known->0.revision)
            &&& known is None ==> revision is None
        },
{
    keyed::lemma_first_key(library.components@, id, 0);
    let ids = components::node_ids(library.components@[i].root);
    commands::law_missing_nodes_are_reported(ids, html, "id=\""@, "\""@);
    commands::law_missing_nodes_are_reported(ids, gpui, "component/"@ + id + "/"@, ""@);
}

/// The touched layer that leads is the first in text order, at the first row that shows it.
pub proof fn law_first_touched_layer_leads(
    rows: Seq<LayerRow>,
    touched: Seq<Seq<char>>,
    i: int,
    k: int,
)
    requires
        0 <= k < touched.len(),
        forall|j: int|
            0 <= j < touched.len() ==> #[trigger] touched[j] == touched[k] || text_set::text_less(
                touched[k],
                touched[j],
            ),
        0 <= i < rows.len(),
        rows[i].runtime_id@ == touched[k],
        forall|j: int| 0 <= j < i ==> #[trigger] rows[j].runtime_id@ != touched[k],
    ensures
        first_touched(rows, touched) == Some(i),
        first_touched(rows, Seq::empty()) is None,
{
    text_set::lemma_least_of(touched);
    let least = text_set::least_of(touched)->0;
    let m = choose|m: int| 0 <= m < touched.len() && touched[m] == least;
    if least != touched[k] {
        assert(touched[m] == touched[k] || text_set::text_less(touched[k], touched[m]));
        assert(touched[k] == least || text_set::text_less(least, touched[k]));
        text_set::law_text_order_transitive(least, touched[k], least);
        text_set::law_text_order_strict(least, least);
    }
    layer_rows::law_first_row_is_found(rows, touched[k], 0, i);
}

/// A marquee over a layer that is listed selects what it touched and nothing else, and the leading
/// layer becomes the selection; one that touches no listed layer adds what it touched where it is
/// additive.
pub proof fn law_marquee_selects_what_it_touched(
    lists: LayerLists,
    new_lists: LayerLists,
    authoring: Authoring,
    new_authoring: Authoring,
    live: LiveContext,
    touched: Seq<Seq<char>>,
    additive: bool,
    id: Seq<char>,
)
    requires
        marquee_effect(lists, new_lists, authoring, new_authoring, live, touched, additive),
    ensures
        touched.contains(id) ==> new_lists.multi_selection@.contains(id),
        first_touched(live.rows@, touched) is Some || !additive ==> (
        new_lists.multi_selection@.contains(id) ==> touched.contains(id)),
        first_touched(live.rows@, touched) is None && additive ==> (
        new_lists.multi_selection@.contains(id) <==> touched.contains(id)
            || lists.multi_selection@.contains(id)),
        first_touched(live.rows@, touched) is None ==> new_authoring == authoring
            && new_lists.anchor == lists.anchor && new_lists.project_focus == lists.project_focus,
        first_touched(live.rows@, touched) matches Some(i) ==> {
            let row = live.rows@[i];
            &&& new_lists.anchor is Some && new_lists.anchor->0@ == row.runtime_id@
            &&& new_lists.project_focus is Some && new_lists.project_focus->0@ == row.runtime_id@
            &&& new_authoring.selection@.runtime_id == row.runtime_id@
            &&& new_authoring.selection@.authored_id == row.authored_id@
            &&& new_authoring.snapshot is None
            &&& new_authoring.library == authoring.library
        },
        new_lists.project_expanded == lists.project_expanded,
        new_lists.nodes_expanded == lists.nodes_expanded,
{
    assert(touched.to_set().contains(id) <==> touched.contains(id));
}

/// Decoded arguments are those of the command that they ask for.
pub proof fn law_requests_are_of_their_commands(request: CommandRequest)
    ensures
        request is GraphGet <==> request.command_of() is ComponentGraphGet,
        request is GraphApply <==> request.command_of() is ComponentGraphApply,
        request is GraphUndo <==> request.command_of() is ComponentGraphUndo,
        request is GraphRedo <==> request.command_of() is ComponentGraphRedo,
        request is Remove <==> request.command_of() is ComponentRemove,
        request is Create <==> request.command_of() is ComponentCreate,
        request is Select <==> request.command_of() is SelectionSet,
        request is Marquee <==> request.command_of() is SelectionMarquee,
        request is SuggestDrop <==> request.command_of() is LayoutSuggestDrop,
        request is Snap <==> request.command_of() is LayoutSnap,
        request is UpdateAnnotation <==> request.command_of() is AnnotationUpdate,
        request is Parity <==> request.command_of() is ProjectParity,
{
}

} // verus!
