//! The resources that tools read: their addresses, descriptions and texts.
use vstd::prelude::*;

use crate::annotations;
use crate::annotations::{
    AnnotationCounts, AnnotationStatus, AnnotationView, ElementSelection, ResolvedAnnotation,
};
use crate::automation;
use crate::automation::{Rect, UiTree};
use crate::commands;
use crate::commands::{BridgeError, ErrorCode, StudioCommand};
use crate::panels;
use crate::studio::{CanvasSettings, OutputDecorations, StudioState};
use crate::text;

verus! {

/// A JSON value, as the `serde_json` crate holds it.
#[verifier::external_type_specification]
#[verifier::external_body]
pub struct ExJsonValue(serde_json::Value);

/// Why the `serde_json` crate could not write a value.
#[verifier::external_type_specification]
#[verifier::external_body]
pub struct ExJsonError(serde_json::Error);

/// The indented text of a JSON value.
pub uninterp spec fn json_text(value: serde_json::Value) -> Seq<char>;

/// `serde_json::to_string_pretty`: the indented text of a JSON value. Writing a JSON value to
/// text does not fail, since its keys are texts and it is written to memory, and the same value
/// gives the same text. What the text looks like is left to the crate.
#[verifier::external_body]
fn pretty_json(value: &serde_json::Value) -> (out: Result<String, serde_json::Error>)
    ensures
        out is Ok,
        out->Ok_0@ == json_text(*value),
{
    serde_json::to_string_pretty(value)
}

/// What a resource is about.
#[derive(Clone, Copy, Debug, PartialEq, Eq, Structural)]
pub enum StudioResource {
    Manifest,
    Selection,
    ActiveAnnotations,
    AnnotationHistory,
    LatestHandoff,
    EditorTheme,
}

/// The addresses under which resources are listed.
pub open spec fn resource_uris() -> Seq<Seq<char>> {
    seq![
        "gpui-studio://project/manifest"@,
        "gpui-studio://selection"@,
        "gpui-studio://tasks/active"@,
        "gpui-studio://tasks/history"@,
        "gpui-studio://annotations/active"@,
        "gpui-studio://annotations/history"@,
        "gpui-studio://annotations/handoff/latest"@,
        "gpui-studio://theme"@,
    ]
}

/// The addresses under which resources are listed.
pub fn studio_resource_uris() -> (out: Vec<&'static str>)
    ensures
        out.len() == resource_uris().len(),
        forall|i: int| 0 <= i < out.len() ==> (#[trigger] out[i])@ == resource_uris()[i],
{
    vec![
        "gpui-studio://project/manifest",
        "gpui-studio://selection",
        "gpui-studio://tasks/active",
        "gpui-studio://tasks/history",
        "gpui-studio://annotations/active",
        "gpui-studio://annotations/history",
        "gpui-studio://annotations/handoff/latest",
        "gpui-studio://theme",
    ]
}

/// The resource at an address; the two task addresses name the annotation resources.
pub open spec fn resource_at(uri: Seq<char>) -> Option<StudioResource> {
    if uri == "gpui-studio://project/manifest"@ {
        Some(StudioResource::Manifest)
    } else if uri == "gpui-studio://selection"@ {
        Some(StudioResource::Selection)
    } else if uri == "gpui-studio://tasks/active"@ {
        Some(StudioResource::ActiveAnnotations)
    } else if uri == "gpui-studio://tasks/history"@ {
        Some(StudioResource::AnnotationHistory)
    } else if uri == "gpui-studio://annotations/active"@ {
        Some(StudioResource::ActiveAnnotations)
    } else if uri == "gpui-studio://annotations/history"@ {
        Some(StudioResource::AnnotationHistory)
    } else if uri == "gpui-studio://annotations/handoff/latest"@ {
        Some(StudioResource::LatestHandoff)
    } else if uri == "gpui-studio://theme"@ {
        Some(StudioResource::EditorTheme)
    } else {
        None
    }
}

/// The resource at an address, or the error that a tool gets.
pub fn parse_resource_uri(uri: &str) -> (result: Result<StudioResource, BridgeError>)
    ensures
        match resource_at(uri@) {
            Some(resource) => result == Ok::<StudioResource, BridgeError>(resource),
            None => result is Err && result->Err_0.says(
                ErrorCode::NotFound,
                "Studio context resource was not found"@,
            ),
        },
{
    if text::same_text(uri, "gpui-studio://project/manifest") {
        Ok(StudioResource::Manifest)
    } else if text::same_text(uri, "gpui-studio://selection") {
        Ok(StudioResource::Selection)
    } else if text::same_text(uri, "gpui-studio://tasks/active") {
        Ok(StudioResource::ActiveAnnotations)
    } else if text::same_text(uri, "gpui-studio://tasks/history") {
        Ok(StudioResource::AnnotationHistory)
    } else if text::same_text(uri, "gpui-studio://annotations/active") {
        Ok(StudioResource::ActiveAnnotations)
    } else if text::same_text(uri, "gpui-studio://annotations/history") {
        Ok(StudioResource::AnnotationHistory)
    } else if text::same_text(uri, "gpui-studio://annotations/handoff/latest") {
        Ok(StudioResource::LatestHandoff)
    } else if text::same_text(uri, "gpui-studio://theme") {
        Ok(StudioResource::EditorTheme)
    } else {
        Err(BridgeError::new(ErrorCode::NotFound, "Studio context resource was not found"))
    }
}

/// Every listed address leads to a resource.
pub proof fn law_listed_resources_can_be_read(i: int)
    requires
        0 <= i < resource_uris().len(),
    ensures
        resource_at(resource_uris()[i]) is Some,
{
}

impl StudioResource {
    /// The resource's name.
    pub open spec fn name_text(self) -> Seq<char> {
        match self {
            StudioResource::Manifest => "studio-project-manifest"@,
            StudioResource::Selection => "studio-selection"@,
            StudioResource::ActiveAnnotations => "studio-active-annotations"@,
            StudioResource::AnnotationHistory => "studio-annotation-history"@,
            StudioResource::LatestHandoff => "studio-annotation-handoff"@,
            StudioResource::EditorTheme => "studio-editor-theme"@,
        }
    }

    /// The resource's name.
    pub fn name(self) -> (out: &'static str)
        ensures
            out@ == self.name_text(),
    {
        match self {
            StudioResource::Manifest => "studio-project-manifest",
            StudioResource::Selection => "studio-selection",
            StudioResource::ActiveAnnotations => "studio-active-annotations",
            StudioResource::AnnotationHistory => "studio-annotation-history",
            StudioResource::LatestHandoff => "studio-annotation-handoff",
            StudioResource::EditorTheme => "studio-editor-theme",
        }
    }

    /// What the resource is called.
    pub open spec fn title_text(self) -> Seq<char> {
        match self {
            StudioResource::Manifest => "GPUI Studio project manifest"@,
            StudioResource::Selection => "Current Studio selection"@,
            StudioResource::ActiveAnnotations => "Active Studio annotations"@,
            StudioResource::AnnotationHistory => "Studio annotation history"@,
            StudioResource::LatestHandoff => "Latest annotation handoff"@,
            StudioResource::EditorTheme => "Studio editor theme"@,
        }
    }

    /// What the resource is called.
    pub fn title(self) -> (out: &'static str)
        ensures
            out@ == self.title_text(),
    {
        match self {
            StudioResource::Manifest => "GPUI Studio project manifest",
            StudioResource::Selection => "Current Studio selection",
            StudioResource::ActiveAnnotations => "Active Studio annotations",
            StudioResource::AnnotationHistory => "Studio annotation history",
            StudioResource::LatestHandoff => "Latest annotation handoff",
            StudioResource::EditorTheme => "Studio editor theme",
        }
    }

    /// What the resource holds.
    pub open spec fn description_text(self) -> Seq<char> {
        match self {
            StudioResource::Manifest => {
                "Canonical component graph, active source projection, viewport, and project revision."@
            },
            StudioResource::Selection => {
                "Stable authored/runtime identity plus current semantic generation and bounds."@
            },
            StudioResource::ActiveAnnotations => {
                "Open and in-progress spatial comments resolved against current GPUI bounds."@
            },
            StudioResource::AnnotationHistory => {
                "Completed and archived spatial comments retained without polluting active AI context."@
            },
            StudioResource::LatestHandoff => {
                "The latest user-sent batch for an MCP agent, including stable IDs, live bounds, and project context."@
            },
            StudioResource::EditorTheme => {
                "Active editor-chrome theme, resolved tokens, and available offline variants."@
            },
        }
    }

    /// What the resource holds.
    pub fn description(self) -> (out: &'static str)
        ensures
            out@ == self.description_text(),
    {
        match self {
            StudioResource::Manifest => {
                "Canonical component graph, active source projection, viewport, and project revision."
            },
            StudioResource::Selection => {
                "Stable authored/runtime identity plus current semantic generation and bounds."
            },
            StudioResource::ActiveAnnotations => {
                "Open and in-progress spatial comments resolved against current GPUI bounds."
            },
            StudioResource::AnnotationHistory => {
                "Completed and archived spatial comments retained without polluting active AI context."
            },
            StudioResource::LatestHandoff => {
                "The latest user-sent batch for an MCP agent, including stable IDs, live bounds, and project context."
            },
            StudioResource::EditorTheme => {
                "Active editor-chrome theme, resolved tokens, and available offline variants."
            },
        }
    }
}

/// How a resource is announced.
#[derive(Debug)]
pub struct ResourceDescriptor {
    pub uri: String,
    pub name: String,
    pub title: String,
    pub description: String,
    pub mime_type: String,
    pub size: u64,
}

/// A resource with its text.
#[derive(Debug)]
pub struct ContextResource {
    pub descriptor: ResourceDescriptor,
    pub text: String,
}

/// What an announcement holds.
#[verifier::ext_equal]
pub struct DescriptorView {
    pub uri: Seq<char>,
    pub name: Seq<char>,
    pub title: Seq<char>,
    pub description: Seq<char>,
    pub mime_type: Seq<char>,
    pub size: int,
}

impl View for ResourceDescriptor {
    type V = DescriptorView;

    open spec fn view(&self) -> DescriptorView {
        DescriptorView {
            uri: self.uri@,
            name: self.name@,
            title: self.title@,
            description: self.description@,
            mime_type: self.mime_type@,
            size: self.size as int,
        }
    }
}

/// How a resource with this text is announced: with its address and names, the JSON media type
/// and the size of the text in bytes.
pub open spec fn announcement(uri: Seq<char>, kind: StudioResource, text: Seq<char>) -> DescriptorView {
    DescriptorView {
        uri,
        name: kind.name_text(),
        title: kind.title_text(),
        description: kind.description_text(),
        mime_type: "application/json"@,
        size: text::byte_len(text) as int,
    }
}

/// What a resource with this text looks like.
pub open spec fn describes(
    resource: ContextResource,
    uri: Seq<char>,
    kind: StudioResource,
    text: Seq<char>,
) -> bool {
    &&& resource.text@ == text
    &&& resource.descriptor@ == announcement(uri, kind, text)
}

/// A resource from its text.
pub fn resource_from_text(uri: &str, kind: StudioResource, text: String) -> (resource:
    ContextResource)
    ensures
        describes(resource, uri@, kind, text@),
{
    let size: u64 = text::bytes_in(text.as_str()) as u64;
    ContextResource {
        descriptor: ResourceDescriptor {
            uri: uri.to_owned(),
            name: kind.name().to_owned(),
            title: kind.title().to_owned(),
            description: kind.description().to_owned(),
            mime_type: "application/json".to_owned(),
            size,
        },
        text,
    }
}

/// The resource at an address, given what it holds; an unknown address is an error.
pub fn build_resource(uri: &str, value: &serde_json::Value) -> (result: Result<
    ContextResource,
    BridgeError,
>)
    ensures
        match resource_at(uri@) {
            None => result is Err && result->Err_0.says(
                ErrorCode::NotFound,
                "Studio context resource was not found"@,
            ),
            Some(kind) => result is Ok && describes(
                result->Ok_0,
                uri@,
                kind,
                json_text(*value),
            ),
        },
{
    let kind = match parse_resource_uri(uri) {
        Ok(kind) => kind,
        Err(error) => return Err(error),
    };
    match pretty_json(value) {
        Ok(text) => Ok(resource_from_text(uri, kind, text)),
        Err(_) => Err(
            BridgeError::new(
                ErrorCode::Internal,
                "Studio context resource could not be serialized",
            ),
        ),
    }
}

// ---------------------------------------------------------------------------
// Requests
// ---------------------------------------------------------------------------

/// What a tool asks of the resources.
#[derive(Debug)]
pub enum ContextResourceRequest {
    List,
    Read { uri: String },
}

/// What a tool is answered.
#[derive(Debug)]
pub enum ContextResourceResponse {
    List(Vec<ResourceDescriptor>),
    Resource(ContextResource),
}

/// What each resource holds at present.
#[derive(Debug)]
pub struct ResourceValues {
    pub manifest: serde_json::Value,
    pub selection: serde_json::Value,
    pub active_annotations: serde_json::Value,
    pub annotation_history: serde_json::Value,
    pub latest_handoff: serde_json::Value,
    pub editor_theme: serde_json::Value,
}

impl ResourceValues {
    /// What this resource holds.
    pub open spec fn value(self, kind: StudioResource) -> serde_json::Value {
        match kind {
            StudioResource::Manifest => self.manifest,
            StudioResource::Selection => self.selection,
            StudioResource::ActiveAnnotations => self.active_annotations,
            StudioResource::AnnotationHistory => self.annotation_history,
            StudioResource::LatestHandoff => self.latest_handoff,
            StudioResource::EditorTheme => self.editor_theme,
        }
    }

    /// What this resource holds.
    pub fn of(&self, kind: StudioResource) -> (out: &serde_json::Value)
        ensures
            *out == self.value(kind),
    {
        match kind {
            StudioResource::Manifest => &self.manifest,
            StudioResource::Selection => &self.selection,
            StudioResource::ActiveAnnotations => &self.active_annotations,
            StudioResource::AnnotationHistory => &self.annotation_history,
            StudioResource::LatestHandoff => &self.latest_handoff,
            StudioResource::EditorTheme => &self.editor_theme,
        }
    }
}

/// The announcements of the resources at these addresses, in order.
pub open spec fn announced(values: ResourceValues, uris: Seq<Seq<char>>) -> Seq<DescriptorView>
    decreases uris.len(),
{
    if uris.len() == 0 {
        Seq::empty()
    } else {
        let before = announced(values, uris.drop_last());
        match resource_at(uris.last()) {
            Some(kind) => before.push(
                announcement(uris.last(), kind, json_text(values.value(kind))),
            ),
            None => before,
        }
    }
}

/// Answers a tool: the announcements of all listed resources, or one resource.
pub fn context_resource(request: &ContextResourceRequest, values: &ResourceValues) -> (result:
    Result<ContextResourceResponse, BridgeError>)
    ensures
        match *request {
            ContextResourceRequest::List => {
                &&& result is Ok
                &&& result->Ok_0 matches ContextResourceResponse::List(list)
                &&& list.len() == announced(*values, resource_uris()).len()
                &&& forall|i: int|
                    0 <= i < list.len() ==> (#[trigger] list[i])@ == announced(
                        *values,
                        resource_uris(),
                    )[i]
            },
            ContextResourceRequest::Read { uri } => match resource_at(uri@) {
                None => result is Err && result->Err_0.says(
                    ErrorCode::NotFound,
                    "Studio context resource was not found"@,
                ),
                Some(kind) => {
                    &&& result is Ok
                    &&& result->Ok_0 matches ContextResourceResponse::Resource(resource)
                    &&& describes(resource, uri@, kind, json_text(values.value(kind)))
                },
            },
        },
{
    match request {
        ContextResourceRequest::List => {
            let uris = studio_resource_uris();
            let ghost all = resource_uris();
            let mut list: Vec<ResourceDescriptor> = Vec::new();
            let mut i: usize = 0;
            while i < uris.len()
                invariant
                    i <= uris.len(),
                    all == resource_uris(),
                    uris.len() == all.len(),
                    forall|j: int| 0 <= j < uris.len() ==> (#[trigger] uris[j])@ == all[j],
                    list.len() == announced(*values, all.take(i as int)).len(),
                    forall|j: int|
                        0 <= j < list.len() ==> (#[trigger] list[j])@ == announced(
                            *values,
                            all.take(i as int),
                        )[j],
                decreases uris.len() - i,
            {
                proof {
                    assert(all.take(i as int + 1).drop_last() =~= all.take(i as int));
                    assert(all.take(i as int + 1).last() == all[i as int]);
                }
                match parse_resource_uri(uris[i]) {
                    Ok(kind) => match build_resource(uris[i], values.of(kind)) {
                        Ok(resource) => {
                            list.push(resource.descriptor);
                        },
                        Err(_) => {},
                    },
                    Err(_) => {},
                }
                i += 1;
            }
            proof {
                assert(all.take(i as int) =~= all);
            }
            Ok(ContextResourceResponse::List(list))
        },
        ContextResourceRequest::Read { uri } => match parse_resource_uri(uri.as_str()) {
            Ok(kind) => match build_resource(uri.as_str(), values.of(kind)) {
                Ok(resource) => Ok(ContextResourceResponse::Resource(resource)),
                Err(error) => Err(error),
            },
            Err(error) => Err(error),
        },
    }
}

/// The list announces every listed resource in order, the project, the selection, both task
/// queues and the theme among them. What is announced is what reading the address gives: the
/// address leads to a resource, and the announcement is that resource's own, with the JSON media
/// type and the size of its text in bytes.
pub proof fn law_listed_resources_are_what_is_read(values: ResourceValues)
    ensures
        announced(values, resource_uris()).len() == resource_uris().len(),
        forall|i: int|
            0 <= i < resource_uris().len() ==> announced_as_read(
                values,
                resource_uris()[i],
                #[trigger] announced(values, resource_uris())[i],
            ),
        resource_uris().contains("gpui-studio://project/manifest"@),
        resource_uris().contains("gpui-studio://selection"@),
        resource_uris().contains("gpui-studio://tasks/active"@),
        resource_uris().contains("gpui-studio://tasks/history"@),
        resource_uris().contains("gpui-studio://theme"@),
{
    let all = resource_uris();
    lemma_all_announced(values, all.len() as int);
    assert(all.take(all.len() as int) =~= all);
    assert(all[0] == "gpui-studio://project/manifest"@);
    assert(all[1] == "gpui-studio://selection"@);
    assert(all[2] == "gpui-studio://tasks/active"@);
    assert(all[3] == "gpui-studio://tasks/history"@);
    assert(all[7] == "gpui-studio://theme"@);
}

/// Whether this announcement of an address is that of the resource that reading the address
/// gives.
pub open spec fn announced_as_read(
    values: ResourceValues,
    uri: Seq<char>,
    descriptor: DescriptorView,
) -> bool {
    match resource_at(uri) {
        Some(kind) => {
            let text = json_text(values.value(kind));
            &&& descriptor == announcement(uri, kind, text)
            &&& descriptor.uri == uri
            &&& descriptor.mime_type == "application/json"@
            &&& descriptor.size == text::byte_len(text)
        },
        None => false,
    }
}

proof fn lemma_all_announced(values: ResourceValues, n: int)
    requires
        0 <= n <= resource_uris().len(),
    ensures
        announced(values, resource_uris().take(n)).len() == n,
        forall|i: int|
            0 <= i < n ==> announced_as_read(
                values,
                resource_uris()[i],
                #[trigger] announced(values, resource_uris().take(n))[i],
            ),
    decreases n,
{
    let all = resource_uris();
    if n > 0 {
        lemma_all_announced(values, n - 1);
        assert(all.take(n).drop_last() =~= all.take(n - 1));
        assert(all.take(n).last() == all[n - 1]);
        law_listed_resources_can_be_read(n - 1);
        let before = announced(values, all.take(n - 1));
        assert forall|i: int| 0 <= i < n implies announced_as_read(
            values,
            all[i],
            #[trigger] announced(values, all.take(n))[i],
        ) by {
            if i < n - 1 {
                assert(announced(values, all.take(n))[i] == before[i]);
            }
        }
    }
}

// ---------------------------------------------------------------------------
// Contents
// ---------------------------------------------------------------------------

/// What a resource holds, in the library's own values.
#[derive(Debug)]
pub enum ResourceContent {
    /// The project, next to its components and tokens.
    Manifest {
        authoring_projection: &'static str,
        application_commands: Vec<&'static str>,
        canvas: CanvasSettings,
        native_decorations: bool,
    },
    /// What is selected and where it is.
    Selection {
        selection: ElementSelection,
        current_rect: Option<Rect>,
        semantic_generation: u64,
    },
    /// Annotations at their current places, with the counts of all of them.
    Annotations { counts: AnnotationCounts, annotations: Vec<ResolvedAnnotation> },
    /// The annotations that were handed off last, and where the project stands.
    Handoff {
        annotations: Vec<ResolvedAnnotation>,
        authoring_projection: &'static str,
        canvas: CanvasSettings,
        selection: ElementSelection,
    },
    /// The theme, which is not part of the session.
    Theme,
}

/// Resolved annotations are these annotations against a tree, in order.
pub open spec fn resolves(
    out: Seq<ResolvedAnnotation>,
    annotations: Seq<AnnotationView>,
    tree: UiTree,
) -> bool {
    &&& out.len() == annotations.len()
    &&& forall|i: int|
        0 <= i < out.len() ==> (#[trigger] out[i])@ == annotations::resolved_view(
            annotations[i],
            tree,
        )
}

/// The IDs that were handed off; none where nothing was.
pub open spec fn handed_ids(handed_off: Option<Vec<String>>) -> Seq<Seq<char>> {
    match handed_off {
        Some(ids) => text::texts(ids@),
        None => Seq::empty(),
    }
}

/// How many annotations the document has in each bucket.
pub open spec fn counted(counts: AnnotationCounts, all: Seq<AnnotationView>) -> bool {
    &&& counts.active == annotations::count_of(all, AnnotationStatus::Open) + annotations::count_of(
        all,
        AnnotationStatus::InProgress,
    )
    &&& counts.done == annotations::count_of(all, AnnotationStatus::Done)
    &&& counts.archived == annotations::count_of(all, AnnotationStatus::Archived)
}

/// Whether this is what the resource holds in this session.
pub open spec fn holds(
    content: ResourceContent,
    kind: StudioResource,
    state: StudioState,
    tree: UiTree,
    handed_off: Option<Vec<String>>,
) -> bool {
    let all = state.review.annotations@.annotations;
    let canvas_now = state.workspace.canvas;
    let selected = state.authoring.selection@;
    match kind {
        StudioResource::Manifest => {
            &&& content matches ResourceContent::Manifest {
                authoring_projection,
                application_commands,
                canvas,
                native_decorations,
            }
            &&& authoring_projection@ == panels::backend_word_text(state.workspace.backend)
            &&& application_commands.len() == commands::command_catalog().len()
            &&& (forall|i: int|
                0 <= i < application_commands.len() ==> (#[trigger] application_commands[i])@
                    == commands::command_catalog()[i].name_text())
            &&& canvas == canvas_now
            &&& native_decorations == (canvas_now.decorations == OutputDecorations::Native)
        },
        StudioResource::Selection => {
            &&& content matches ResourceContent::Selection {
                selection,
                current_rect,
                semantic_generation,
            }
            &&& selection@ == selected
            &&& current_rect == automation::bounds_of(tree.nodes@, selected.runtime_id)
            &&& semantic_generation == tree.generation
        },
        StudioResource::ActiveAnnotations => {
            &&& content matches ResourceContent::Annotations { counts, annotations }
            &&& counted(counts, all)
            &&& resolves(annotations@, annotations::active_of(all), tree)
        },
        StudioResource::AnnotationHistory => {
            &&& content matches ResourceContent::Annotations { counts, annotations }
            &&& counted(counts, all)
            &&& resolves(annotations@, all, tree)
        },
        StudioResource::LatestHandoff => {
            &&& content matches ResourceContent::Handoff {
                annotations,
                authoring_projection,
                canvas,
                selection,
            }
            &&& resolves(
                annotations@,
                annotations::named_annotations(all, handed_ids(handed_off)),
                tree,
            )
            &&& authoring_projection@ == panels::backend_word_text(state.workspace.backend)
            &&& canvas == canvas_now
            &&& selection@ == selected
        },
        StudioResource::EditorTheme => content is Theme,
    }
}

fn command_names() -> (out: Vec<&'static str>)
    ensures
        out.len() == commands::command_catalog().len(),
        forall|i: int|
            0 <= i < out.len() ==> (#[trigger] out[i])@
                == commands::command_catalog()[i].name_text(),
{
    let catalog: Vec<StudioCommand> = commands::studio_application_commands();
    let mut out: Vec<&'static str> = Vec::new();
    let mut i: usize = 0;
    while i < catalog.len()
        invariant
            i <= catalog.len(),
            catalog@ == commands::command_catalog(),
            out.len() == i,
            forall|j: int|
                0 <= j < out.len() ==> (#[trigger] out[j])@
                    == commands::command_catalog()[j].name_text(),
        decreases catalog.len() - i,
    {
        out.push(catalog[i].name());
        i += 1;
    }
    out
}

/// What a resource holds in this session, given the window's semantic tree and the IDs that
/// were handed off last.
pub fn resource_content(
    kind: StudioResource,
    state: &StudioState,
    tree: &UiTree,
    handed_off: &Option<Vec<String>>,
) -> (content: ResourceContent)
    ensures
        holds(content, kind, *state, *tree, *handed_off),
{
    let store = &state.review.annotations;
    match kind {
        StudioResource::Manifest => ResourceContent::Manifest {
            authoring_projection: panels::backend_word(state.workspace.backend),
            application_commands: command_names(),
            canvas: state.workspace.canvas,
            native_decorations: state.workspace.canvas.decorations == OutputDecorations::Native,
        },
        StudioResource::Selection => {
            let selection: ElementSelection = state.authoring.selection.clone();
            let current_rect: Option<Rect> = match tree.get(selection.runtime_id.as_str()) {
                Some(node) => node.bounds,
                None => None,
            };
            ResourceContent::Selection {
                selection,
                current_rect,
                semantic_generation: tree.generation,
            }
        },
        StudioResource::ActiveAnnotations => ResourceContent::Annotations {
            counts: store.counts(),
            annotations: store.resolved_active(tree),
        },
        StudioResource::AnnotationHistory => ResourceContent::Annotations {
            counts: store.counts(),
            annotations: store.resolved(tree),
        },
        StudioResource::LatestHandoff => {
            let annotations: Vec<ResolvedAnnotation> = match handed_off {
                Some(ids) => store.resolved_ids(ids, tree),
                None => Vec::new(),
            };
            ResourceContent::Handoff {
                annotations,
                authoring_projection: panels::backend_word(state.workspace.backend),
                canvas: state.workspace.canvas,
                selection: state.authoring.selection.clone(),
            }
        },
        StudioResource::EditorTheme => ResourceContent::Theme,
    }
}

/// A resource is announced with its own size, under its address and its kind's names.
pub proof fn law_resources_announce_their_text(
    resource: ContextResource,
    uri: Seq<char>,
    kind: StudioResource,
    text: Seq<char>,
)
    requires
        describes(resource, uri, kind, text),
    ensures
        resource.text@ == text,
        resource.descriptor@.uri == uri,
        resource.descriptor@.name == kind.name_text(),
        resource.descriptor@.mime_type == "application/json"@,
        resource.descriptor@.size == text::byte_len(resource.text@),
{
}

/// The selection's resource holds the selected element with the bounds it is painted at.
pub proof fn law_selection_resource_holds_the_selection(
    content: ResourceContent,
    state: StudioState,
    tree: UiTree,
    handed_off: Option<Vec<String>>,
)
    requires
        holds(content, StudioResource::Selection, state, tree, handed_off),
    ensures
        content matches ResourceContent::Selection { selection, current_rect, semantic_generation }
            && selection@ == state.authoring.selection@ && current_rect == automation::bounds_of(
            tree.nodes@,
            state.authoring.selection@.runtime_id,
        ) && semantic_generation == tree.generation,
{
}

/// The queue's resource holds the annotations in work and the history's holds all of them, each
/// against the live tree and in the order of the document; both count every bucket.
pub proof fn law_annotation_resources_hold_queue_and_history(
    content: ResourceContent,
    state: StudioState,
    tree: UiTree,
    handed_off: Option<Vec<String>>,
    history: bool,
    i: int,
)
    requires
        holds(
            content,
            if history {
                StudioResource::AnnotationHistory
            } else {
                StudioResource::ActiveAnnotations
            },
            state,
            tree,
            handed_off,
        ),
    ensures
        content matches ResourceContent::Annotations { counts, annotations: shown } && {
            let all = state.review.annotations@.annotations;
            let listed = if history {
                all
            } else {
                annotations::active_of(all)
            };
            &&& shown@.len() == listed.len()
            &&& 0 <= i < listed.len() ==> shown@[i]@.annotation == listed[i]
                && shown@[i]@.current_rect == automation::bounds_of(
                tree.nodes@,
                listed[i].target.runtime_id,
            ) && shown@[i]@.semantic_generation == tree.generation
            &&& counts.active == annotations::count_of(all, AnnotationStatus::Open)
                + annotations::count_of(all, AnnotationStatus::InProgress)
            &&& counts.done == annotations::count_of(all, AnnotationStatus::Done)
            &&& counts.archived == annotations::count_of(all, AnnotationStatus::Archived)
        },
{
}

/// The handoff's resource holds the annotations that were handed off, in the order in which they
/// were, with the selection and the canvas.
pub proof fn law_handoff_resource_holds_what_was_sent(
    content: ResourceContent,
    state: StudioState,
    tree: UiTree,
    ids: Vec<String>,
    sent: bool,
    i: int,
)
    requires
        holds(
            content,
            StudioResource::LatestHandoff,
            state,
            tree,
            if sent {
                Some(ids)
            } else {
                None
            },
        ),
    ensures
        content matches ResourceContent::Handoff {
            annotations: shown,
            authoring_projection,
            canvas,
            selection,
        } && {
            let listed = annotations::named_annotations(
                state.review.annotations@.annotations,
                text::texts(ids@),
            );
            &&& !sent ==> shown@.len() == 0
            &&& sent ==> shown@.len() == listed.len()
            &&& sent && 0 <= i < listed.len() ==> shown@[i]@.annotation == listed[i]
            &&& selection@ == state.authoring.selection@
            &&& canvas == state.workspace.canvas
            &&& state.workspace.backend is Html ==> authoring_projection@ == "html"@
            &&& state.workspace.backend is Gpui ==> authoring_projection@ == "gpui"@
        },
{
}

/// Each resource holds its own part of what is published.
pub proof fn law_resources_hold_their_own_part(values: ResourceValues)
    ensures
        values.value(StudioResource::Manifest) == values.manifest,
        values.value(StudioResource::Selection) == values.selection,
        values.value(StudioResource::ActiveAnnotations) == values.active_annotations,
        values.value(StudioResource::AnnotationHistory) == values.annotation_history,
        values.value(StudioResource::LatestHandoff) == values.latest_handoff,
        values.value(StudioResource::EditorTheme) == values.editor_theme,
{
}

/// Each address leads to its own resource, the tasks' addresses to the annotations, and no other
/// address leads anywhere.
pub proof fn law_addresses_lead_to_their_resources(uri: Seq<char>)
    ensures
        resource_at("gpui-studio://project/manifest"@) == Some(
            StudioResource::Manifest,
        ),
        resource_at("gpui-studio://selection"@) == Some(
            StudioResource::Selection,
        ),
        resource_at("gpui-studio://tasks/active"@) == Some(
            StudioResource::ActiveAnnotations,
        ),
        resource_at("gpui-studio://tasks/history"@) == Some(
            StudioResource::AnnotationHistory,
        ),
        resource_at("gpui-studio://annotations/active"@) == Some(
            StudioResource::ActiveAnnotations,
        ),
        resource_at("gpui-studio://annotations/history"@) == Some(
            StudioResource::AnnotationHistory,
        ),
        resource_at("gpui-studio://annotations/handoff/latest"@) == Some(
            StudioResource::LatestHandoff,
        ),
        resource_at("gpui-studio://theme"@) == Some(
            StudioResource::EditorTheme,
        ),
        resource_at(uri) is Some ==> resource_uris().contains(uri),
{
    reveal_strlit("gpui-studio://project/manifest");
    reveal_strlit("gpui-studio://selection");
    reveal_strlit("gpui-studio://tasks/active");
    reveal_strlit("gpui-studio://tasks/history");
    reveal_strlit("gpui-studio://annotations/active");
    reveal_strlit("gpui-studio://annotations/history");
    reveal_strlit("gpui-studio://annotations/handoff/latest");
    reveal_strlit("gpui-studio://theme");
    assert("gpui-studio://project/manifest"@.len() == 30);
    assert("gpui-studio://selection"@.len() == 23);
    assert("gpui-studio://tasks/active"@.len() == 26);
    assert("gpui-studio://tasks/history"@.len() == 27);
    assert("gpui-studio://annotations/active"@.len() == 32);
    assert("gpui-studio://annotations/history"@.len() == 33);
    assert("gpui-studio://annotations/handoff/latest"@.len() == 40);
    assert("gpui-studio://theme"@.len() == 19);
    let all = resource_uris();
    assert(all[0] == "gpui-studio://project/manifest"@);
    assert(all[1] == "gpui-studio://selection"@);
    assert(all[2] == "gpui-studio://tasks/active"@);
    assert(all[3] == "gpui-studio://tasks/history"@);
    assert(all[4] == "gpui-studio://annotations/active"@);
    assert(all[5] == "gpui-studio://annotations/history"@);
    assert(all[6] == "gpui-studio://annotations/handoff/latest"@);
    assert(all[7] == "gpui-studio://theme"@);
}

} // verus!
