//! The source preview of the component dialog, and which source the inspector shows.
use vstd::prelude::*;

use crate::components::{ComponentLibrary, NativeComponent};
use crate::excerpt;
use crate::excerpt::SizeLabels;
use crate::identifiers;
use crate::studio::{AuthoringBackend, ComponentDialog, ComponentSource};
use crate::text;

verus! {

/// How a preset describes itself.
#[derive(Debug)]
pub struct PresetText {
    pub label: String,
    pub description: String,
}

/// The remark on where the new component comes from, as a line of markup.
pub open spec fn source_hint_text(
    source: ComponentSource,
    selection: Seq<char>,
    preset: PresetText,
) -> Seq<char> {
    match source {
        ComponentSource::Selection => "  <!-- extracted from "@ + selection + " -->\n"@,
        ComponentSource::Blank => ""@,
        ComponentSource::PasteHtml => "  <!-- paste HTML on create -->\n"@,
        ComponentSource::Titlebar => {
            "  <!-- semantic titlebar; native decorations configured separately -->\n"@
        },
        ComponentSource::Preset => "  <!-- complete "@ + preset.label@ + " preset: "@
            + preset.description@ + " -->\n"@,
    }
}

fn source_hint(source: ComponentSource, selection: &str, preset: &PresetText) -> (out: String)
    ensures
        out@ == source_hint_text(source, selection@, *preset),
{
    match source {
        ComponentSource::Selection => text::join3("  <!-- extracted from ", selection, " -->\n"),
        ComponentSource::Blank => "".to_owned(),
        ComponentSource::PasteHtml => "  <!-- paste HTML on create -->\n".to_owned(),
        ComponentSource::Titlebar => {
            "  <!-- semantic titlebar; native decorations configured separately -->\n".to_owned()
        },
        ComponentSource::Preset => text::join5(
            "  <!-- complete ",
            preset.label.as_str(),
            " preset: ",
            preset.description.as_str(),
            " -->\n",
        ),
    }
}

/// What the new component renders, as a line of native code.
pub open spec fn body_text(
    source: ComponentSource,
    selection: Seq<char>,
    preset: PresetText,
) -> Seq<char> {
    match source {
        ComponentSource::Selection => "// from "@ + selection,
        ComponentSource::Titlebar => ".child(/* semantic title + window actions */)"@,
        ComponentSource::Preset => ".child(/* complete "@ + preset.label@ + " preset graph */)"@,
        ComponentSource::Blank | ComponentSource::PasteHtml => ".child(/* ... */)"@,
    }
}

fn body_line(source: ComponentSource, selection: &str, preset: &PresetText) -> (out: String)
    ensures
        out@ == body_text(source, selection@, *preset),
{
    match source {
        ComponentSource::Selection => text::join2("// from ", selection),
        ComponentSource::Titlebar => ".child(/* semantic title + window actions */)".to_owned(),
        ComponentSource::Preset => text::join3(
            ".child(/* complete ",
            preset.label.as_str(),
            " preset graph */)",
        ),
        ComponentSource::Blank | ComponentSource::PasteHtml => ".child(/* ... */)".to_owned(),
    }
}

/// The markup of the new component.
pub open spec fn html_stub(
    name: Seq<char>,
    source: ComponentSource,
    selection: Seq<char>,
    preset: PresetText,
) -> Seq<char> {
    let id = identifiers::component_id_of(name);
    let hint = source_hint_text(source, selection, preset);
    if source == ComponentSource::Titlebar {
        "<header id=\""@ + id + "\" role=\"toolbar\" aria-label=\"Window titlebar\">"@ + "\n"@
            + hint + "  …\n"@ + "</header>"@
    } else {
        "<div class=\""@ + id + "\">"@ + "\n"@ + hint + "  …\n"@ + "</div>"@
    }
}

/// The native code of the new component; properties that were not typed are a remark.
pub open spec fn gpui_stub(name: Seq<char>, props: Seq<char>, body: Seq<char>) -> Seq<char> {
    let fields = if text::trimmed(props).len() == 0 {
        "// props"@
    } else {
        text::trimmed(props)
    };
    "struct "@ + name + " {\n    "@ + fields + "\n}\n\nimpl Render for "@ + name
        + " {\n    fn render(&mut self, cx) -> impl IntoElement {\n        div().flex().gap_2()\n            "@
        + body + "\n    }\n}"@
}

impl ComponentDialog {
    /// The source preview of the component that the dialog describes; a name that is not
    /// acceptable becomes "Component".
    pub open spec fn stub_text(&self, selection: Seq<char>, preset: PresetText) -> Seq<char> {
        let name = match self.valid_name() {
            Some(name) => name,
            None => "Component"@,
        };
        match self.authoring {
            AuthoringBackend::Html => html_stub(name, self.source, selection, preset),
            AuthoringBackend::Gpui => gpui_stub(
                name,
                self.props@,
                body_text(self.source, selection, preset),
            ),
        }
    }

    /// The source preview of the component that the dialog describes. `selection` is the
    /// heading of the selected element, `preset` describes the chosen preset.
    pub fn component_stub(&self, selection: &str, preset: &PresetText) -> (out: String)
        ensures
            out@ == self.stub_text(selection@, *preset),
    {
        let name = match self.valid_component_name() {
            Some(name) => name,
            None => "Component".to_owned(),
        };
        match self.authoring {
            AuthoringBackend::Html => {
                let id = identifiers::component_id(name.as_str());
                let hint = source_hint(self.source, selection, preset);
                let mut out = if self.source == ComponentSource::Titlebar {
                    text::join3(
                        "<header id=\"",
                        id.as_str(),
                        "\" role=\"toolbar\" aria-label=\"Window titlebar\">",
                    )
                } else {
                    text::join3("<div class=\"", id.as_str(), "\">")
                };
                out.append("\n");
                out.append(hint.as_str());
                out.append("  …\n");
                if self.source == ComponentSource::Titlebar {
                    out.append("</header>");
                } else {
                    out.append("</div>");
                }
                out
            },
            AuthoringBackend::Gpui => {
                let body = body_line(self.source, selection, preset);
                let typed = text::trim(self.props.as_str());
                let fields = if typed.unicode_len() == 0 {
                    "// props"
                } else {
                    typed
                };
                let mut out = text::join5(
                    "struct ",
                    name.as_str(),
                    " {\n    ",
                    fields,
                    "\n}\n\nimpl Render for ",
                );
                out.append(name.as_str());
                out.append(
                    " {\n    fn render(&mut self, cx) -> impl IntoElement {\n        div().flex().gap_2()\n            ",
                );
                out.append(body.as_str());
                out.append("\n    }\n}");
                out
            },
        }
    }
}

// ---------------------------------------------------------------------------
// Inspector source
// ---------------------------------------------------------------------------

/// The projections of a component.
#[derive(Debug)]
pub struct Projections {
    pub html: String,
    pub css: String,
    pub bindings: String,
    pub gpui: String,
}

/// The projections of a component in one text, as markup or as native code.
pub open spec fn projected_text(backend: AuthoringBackend, projections: Projections) -> Seq<char> {
    match backend {
        AuthoringBackend::Html => projections.html@ + "\n<style>\n"@ + projections.css@
            + "</style>\n\n"@ + projections.bindings@,
        AuthoringBackend::Gpui => projections.gpui@,
    }
}

/// What the inspector shows of a component: its projections in one text, nothing where the
/// component is gone.
pub open spec fn component_excerpt_of(
    backend: AuthoringBackend,
    projections: Option<&Projections>,
) -> Seq<char> {
    match projections {
        Some(projections) => projected_text(backend, *projections),
        None => Seq::<char>::empty(),
    }
}

/// What the inspector shows of a component: its projections in one text, nothing where the
/// component is gone.
pub fn component_code_excerpt(backend: AuthoringBackend, projections: Option<&Projections>) -> (out:
    String)
    ensures
        out@ == component_excerpt_of(backend, projections),
{
    match projections {
        None => String::new(),
        Some(projections) => match backend {
            AuthoringBackend::Html => text::join5(
                projections.html.as_str(),
                "\n<style>\n",
                projections.css.as_str(),
                "</style>\n\n",
                projections.bindings.as_str(),
            ),
            AuthoringBackend::Gpui => projections.gpui.clone(),
        },
    }
}

/// What the inspector shows of the page's markup: the selected element, or the start of the
/// page where the element is not found; nothing where no page is live.
pub open spec fn page_excerpt_of(source: Option<&str>, authored_id: Seq<char>) -> Seq<char> {
    match source {
        None => Seq::<char>::empty(),
        Some(source) => match excerpt::element_excerpt_of(source@, authored_id) {
            Some(element) => element,
            None => excerpt::bounded_excerpt_of(source@, 920),
        },
    }
}

/// What the inspector shows of the page's markup: the selected element, or the start of the
/// page where the element is not found; nothing where no page is live.
pub fn page_code_excerpt(source: Option<&str>, authored_id: &str) -> (out: String)
    ensures
        out@ == page_excerpt_of(source, authored_id@),
{
    match source {
        None => String::new(),
        Some(source) => match excerpt::html_element_excerpt(source, authored_id) {
            Some(element) => element,
            None => excerpt::bounded_excerpt(source, 920),
        },
    }
}

/// The painted node that the inspector shows as native code.
#[derive(Debug)]
pub struct NativeExcerpt {
    pub id: String,
    pub size: Option<SizeLabels>,
    pub text: Option<String>,
    pub label: Option<String>,
}

/// The source that the inspector shows: the projections of the component that is edited; else,
/// of the page, the markup of the selected element or the selected node as native code.
pub fn inspector_code_excerpt(
    editing_graph: bool,
    backend: AuthoringBackend,
    projections: Option<&Projections>,
    html: Option<&str>,
    authored_id: &str,
    native: Option<NativeExcerpt>,
) -> (out: String)
    ensures
        out@ == (if editing_graph {
            component_excerpt_of(backend, projections)
        } else {
            match backend {
                AuthoringBackend::Html => page_excerpt_of(html, authored_id@),
                AuthoringBackend::Gpui => match native {
                    Some(node) => excerpt::gpui_excerpt_of(
                        node.id@,
                        node.size,
                        node.text,
                        node.label,
                    ),
                    None => Seq::<char>::empty(),
                },
            }
        }),
{
    if editing_graph {
        return component_code_excerpt(backend, projections);
    }
    match backend {
        AuthoringBackend::Html => page_code_excerpt(html, authored_id),
        AuthoringBackend::Gpui => match native {
            Some(node) => excerpt::gpui_element_excerpt(
                node.id.as_str(),
                node.size,
                node.text,
                node.label,
            ),
            None => String::new(),
        },
    }
}

// ---------------------------------------------------------------------------
// Placed components
// ---------------------------------------------------------------------------

/// The position at or after `from` of the first component with this ID or, up to case, this
/// name.
pub open spec fn requested_at(
    components: Seq<NativeComponent>,
    requested: Seq<char>,
    from: int,
) -> Option<int>
    decreases components.len() - from,
{
    if from < 0 || from >= components.len() {
        None
    } else if components[from].id@ == requested || text::same_ignoring_case(
        components[from].name@,
        requested,
    ) {
        Some(from)
    } else {
        requested_at(components, requested, from + 1)
    }
}

/// The component that markup places: the active one unless another is named by its ID or, up
/// to case, its name.
pub fn requested_component<'a>(library: &'a ComponentLibrary, requested: Option<&str>) -> (found:
    Option<&'a NativeComponent>)
    ensures
        ({
            let wanted = match requested {
                Some(requested) => requested@,
                None => "active"@,
            };
            if wanted == "active"@ {
                match library.lookup(library.active_component@) {
                    Some(component) => found is Some && *found->0 == component,
                    None => found is None,
                }
            } else {
                match requested_at(library.components@, wanted, 0) {
                    Some(i) => found is Some && *found->0 == library.components@[i],
                    None => found is None,
                }
            }
        }),
{
    let wanted = match requested {
        Some(requested) => requested,
        None => "active",
    };
    if text::same_text(wanted, "active") {
        return library.active();
    }
    let mut i: usize = 0;
    while i < library.components.len()
        invariant
            i <= library.components.len(),
            requested_at(library.components@, wanted@, 0) == requested_at(
                library.components@,
                wanted@,
                i as int,
            ),
            wanted@ == (match requested {
                Some(requested) => requested@,
                None => "active"@,
            }),
            wanted@ != "active"@,
        decreases library.components.len() - i,
    {
        let component = &library.components[i];
        if text::same_text(component.id.as_str(), wanted) || text::eq_ignoring_case(
            component.name.as_str(),
            wanted,
        ) {
            return Some(component);
        }
        i += 1;
    }
    None
}

// ---------------------------------------------------------------------------
// What the previews hold
// ---------------------------------------------------------------------------

/// A component is requested by its ID or, up to case, by its name, and the first that fits is
/// meant.
pub proof fn law_first_requested_component_is_meant(
    components: Seq<NativeComponent>,
    requested: Seq<char>,
    from: int,
    i: int,
)
    requires
        0 <= from <= i <= components.len(),
        i < components.len() ==> components[i].id@ == requested || text::same_ignoring_case(
            components[i].name@,
            requested,
        ),
        forall|j: int|
            from <= j < i ==> (#[trigger] components[j]).id@ != requested
                && !text::same_ignoring_case(components[j].name@, requested),
    ensures
        requested_at(components, requested, from) == (if i < components.len() {
            Some(i)
        } else {
            None
        }),
    decreases i - from,
{
    if from < i {
        assert(components[from].id@ != requested && !text::same_ignoring_case(
            components[from].name@,
            requested,
        ));
        law_first_requested_component_is_meant(components, requested, from + 1, i);
    }
}

/// Markup is one element around a remark on its source: a titlebar is a header under the
/// component's ID, everything else a block of the component's class.
pub proof fn law_markup_stubs_are_one_element(
    name: Seq<char>,
    source: ComponentSource,
    selection: Seq<char>,
    preset: PresetText,
)
    ensures
        ({
            let out = html_stub(name, source, selection, preset);
            let id = identifiers::component_id_of(name);
            let bar = "<header id=\""@ + id
                + "\" role=\"toolbar\" aria-label=\"Window titlebar\">"@ + "\n"@;
            let block = "<div class=\""@ + id + "\">"@ + "\n"@;
            &&& source is Titlebar ==> out == bar
                + "  <!-- semantic titlebar; native decorations configured separately -->\n"@
                + "  …\n"@ + "</header>"@
            &&& source is Blank ==> out == block + ""@ + "  …\n"@ + "</div>"@
            &&& source is Selection ==> out == block + ("  <!-- extracted from "@ + selection
                + " -->\n"@) + "  …\n"@ + "</div>"@
            &&& source is PasteHtml ==> out == block + "  <!-- paste HTML on create -->\n"@
                + "  …\n"@ + "</div>"@
            &&& source is Preset ==> out == block + ("  <!-- complete "@ + preset.label@
                + " preset: "@ + preset.description@ + " -->\n"@) + "  …\n"@ + "</div>"@
        }),
{
}

/// Native code is a struct with the typed properties and its rendering, under the same name.
pub proof fn law_native_stubs_render_their_struct(
    name: Seq<char>,
    props: Seq<char>,
    body: Seq<char>,
)
    ensures
        ({
            let out = gpui_stub(name, props, body);
            let fields = if text::trimmed(props).len() == 0 {
                "// props"@
            } else {
                text::trimmed(props)
            };
            let opening = "struct "@ + name + " {\n    "@ + fields;
            let closing = body + "\n    }\n}"@;
            &&& opening.len() + closing.len() <= out.len()
            &&& out.take(opening.len() as int) == opening
            &&& out.skip(out.len() - closing.len()) == closing
            &&& gpui_stub(name, text::trimmed(props), body) == out
        }),
{
    let fields = if text::trimmed(props).len() == 0 {
        "// props"@
    } else {
        text::trimmed(props)
    };
    let opening = "struct "@ + name + " {\n    "@ + fields;
    let middle = "\n}\n\nimpl Render for "@ + name
        + " {\n    fn render(&mut self, cx) -> impl IntoElement {\n        div().flex().gap_2()\n            "@;
    let closing = body + "\n    }\n}"@;
    let out = gpui_stub(name, props, body);
    assert(out =~= opening + middle + closing);
    assert(out.take(opening.len() as int) =~= opening);
    assert(out.skip(out.len() - closing.len()) =~= closing);
    lemma_trim_twice(props);
}

proof fn lemma_trim_twice(s: Seq<char>)
    ensures
        text::trimmed(text::trimmed(s)) == text::trimmed(s),
{
    lemma_start_trimmed(s);
    lemma_end_trimmed(text::trimmed_start(s));
    let t = text::trimmed(s);
    let none = Seq::<char>::empty();
    assert(none + t + none =~= t);
    text::law_trim_takes_the_edges(none, t, none);
}

proof fn lemma_start_trimmed(s: Seq<char>)
    ensures
        text::trimmed_start(s).len() > 0 ==> !text::is_white_space(text::trimmed_start(s)[0]),
    decreases s.len(),
{
    if s.len() > 0 {
        lemma_start_trimmed(s.skip(1));
    }
}

proof fn lemma_end_trimmed(s: Seq<char>)
    ensures
        text::trimmed_end(s).len() > 0 ==> !text::is_white_space(text::trimmed_end(s).last())
            && text::trimmed_end(s)[0] == s[0],
    decreases s.len(),
{
    if s.len() > 0 {
        lemma_end_trimmed(s.drop_last());
    }
}

/// The preview of a dialog is of its acceptable name, or of "Component", in its projection.
pub proof fn law_previews_follow_the_dialog(
    dialog: ComponentDialog,
    selection: Seq<char>,
    preset: PresetText,
)
    ensures
        ({
            let name = text::trimmed(dialog.name@);
            let shown = if name.len() > 0 && text::byte_len(name) <= 256 {
                name
            } else {
                "Component"@
            };
            let out = dialog.stub_text(selection, preset);
            &&& dialog.authoring is Html ==> out == html_stub(
                shown,
                dialog.source,
                selection,
                preset,
            )
            &&& dialog.authoring is Gpui && dialog.source is Selection ==> out == gpui_stub(
                shown,
                dialog.props@,
                "// from "@ + selection,
            )
            &&& dialog.authoring is Gpui && dialog.source is Titlebar ==> out == gpui_stub(
                shown,
                dialog.props@,
                ".child(/* semantic title + window actions */)"@,
            )
            &&& dialog.authoring is Gpui && dialog.source is Preset ==> out == gpui_stub(
                shown,
                dialog.props@,
                ".child(/* complete "@ + preset.label@ + " preset graph */)"@,
            )
            &&& dialog.authoring is Gpui && (dialog.source is Blank || dialog.source is PasteHtml)
                ==> out == gpui_stub(shown, dialog.props@, ".child(/* ... */)"@)
        }),
{
}

/// The markup of a component is its page, its styles and its bindings, in this order; its native
/// code stands alone; and of a component that is gone nothing is shown.
pub proof fn law_component_excerpts_are_their_projections(
    backend: AuthoringBackend,
    projections: Projections,
)
    ensures
        component_excerpt_of(backend, None).len() == 0,
        component_excerpt_of(AuthoringBackend::Gpui, Some(&projections)) == projections.gpui@,
        component_excerpt_of(AuthoringBackend::Html, Some(&projections)) == projections.html@
            + "\n<style>\n"@ + projections.css@ + "</style>\n\n"@ + projections.bindings@,
{
}

/// Of the page the selected element is shown, and the start of the page where it is not found.
pub proof fn law_page_excerpts_show_the_element(source: &str, authored_id: Seq<char>)
    ensures
        page_excerpt_of(None, authored_id).len() == 0,
        excerpt::element_excerpt_of(source@, authored_id) matches Some(element) ==> page_excerpt_of(
            Some(source),
            authored_id,
        ) == element,
        excerpt::element_excerpt_of(source@, authored_id) is None ==> page_excerpt_of(
            Some(source),
            authored_id,
        ) == excerpt::bounded_excerpt_of(source@, 920),
{
}

} // verus!
