//! The surfaces that the shell registers, and its icons.
use vstd::prelude::*;

use crate::text;

verus! {

// ---------------------------------------------------------------------------
// Registered surfaces
// ---------------------------------------------------------------------------

/// The native surfaces that the shell's markup can place.
#[derive(Clone, Copy, Debug, PartialEq, Eq, Structural)]
pub enum StudioSurface {
    Icon,
    Canvas,
    DocumentTabs,
    AppFrame,
    BottomDock,
    Grid,
    FloatingSurface,
    SelectionOverlay,
    AnnotationLayer,
    ComponentTree,
    ProjectTree,
    ComponentProps,
    ComponentLogic,
    ComponentStates,
    ComponentVariants,
    ComponentSlots,
    DesignTokens,
    ScrollArea,
    ComponentPalette,
    ResizeHandle,
    ConsoleLog,
    StatePanel,
    ContextMenu,
    Settings,
    Drawer,
}

/// The surfaces in the order of their registration.
pub open spec fn surface_order() -> Seq<StudioSurface> {
    seq![
        StudioSurface::Icon,
        StudioSurface::Canvas,
        StudioSurface::DocumentTabs,
        StudioSurface::AppFrame,
        StudioSurface::BottomDock,
        StudioSurface::Grid,
        StudioSurface::FloatingSurface,
        StudioSurface::SelectionOverlay,
        StudioSurface::AnnotationLayer,
        StudioSurface::ComponentTree,
        StudioSurface::ProjectTree,
        StudioSurface::ComponentProps,
        StudioSurface::ComponentLogic,
        StudioSurface::ComponentStates,
        StudioSurface::ComponentVariants,
        StudioSurface::ComponentSlots,
        StudioSurface::DesignTokens,
        StudioSurface::ScrollArea,
        StudioSurface::ComponentPalette,
        StudioSurface::ResizeHandle,
        StudioSurface::ConsoleLog,
        StudioSurface::StatePanel,
        StudioSurface::ContextMenu,
        StudioSurface::Settings,
        StudioSurface::Drawer,
    ]
}

impl StudioSurface {
    /// The tag that places the surface.
    pub open spec fn tag_text(self) -> Seq<char> {
        match self {
            StudioSurface::Icon => "studio-icon"@,
            StudioSurface::Canvas => "studio-canvas"@,
            StudioSurface::DocumentTabs => "studio-document-tabs"@,
            StudioSurface::AppFrame => "studio-app-frame"@,
            StudioSurface::BottomDock => "studio-bottom-dock"@,
            StudioSurface::Grid => "studio-grid"@,
            StudioSurface::FloatingSurface => "studio-floating-surface"@,
            StudioSurface::SelectionOverlay => "studio-selection-overlay"@,
            StudioSurface::AnnotationLayer => "studio-annotation-layer"@,
            StudioSurface::ComponentTree => "studio-component-tree"@,
            StudioSurface::ProjectTree => "studio-project-tree"@,
            StudioSurface::ComponentProps => "studio-component-props"@,
            StudioSurface::ComponentLogic => "studio-component-logic"@,
            StudioSurface::ComponentStates => "studio-component-states"@,
            StudioSurface::ComponentVariants => "studio-component-variants"@,
            StudioSurface::ComponentSlots => "studio-component-slots"@,
            StudioSurface::DesignTokens => "studio-design-tokens"@,
            StudioSurface::ScrollArea => "studio-scroll-area"@,
            StudioSurface::ComponentPalette => "studio-component-palette"@,
            StudioSurface::ResizeHandle => "studio-resize-handle"@,
            StudioSurface::ConsoleLog => "studio-console-log"@,
            StudioSurface::StatePanel => "studio-state-panel"@,
            StudioSurface::ContextMenu => "studio-context-menu"@,
            StudioSurface::Settings => "studio-settings"@,
            StudioSurface::Drawer => "studio-drawer"@,
        }
    }

    /// The tag that places the surface.
    pub fn tag(self) -> (out: &'static str)
        ensures
            out@ == self.tag_text(),
    {
        match self {
            StudioSurface::Icon => "studio-icon",
            StudioSurface::Canvas => "studio-canvas",
            StudioSurface::DocumentTabs => "studio-document-tabs",
            StudioSurface::AppFrame => "studio-app-frame",
            StudioSurface::BottomDock => "studio-bottom-dock",
            StudioSurface::Grid => "studio-grid",
            StudioSurface::FloatingSurface => "studio-floating-surface",
            StudioSurface::SelectionOverlay => "studio-selection-overlay",
            StudioSurface::AnnotationLayer => "studio-annotation-layer",
            StudioSurface::ComponentTree => "studio-component-tree",
            StudioSurface::ProjectTree => "studio-project-tree",
            StudioSurface::ComponentProps => "studio-component-props",
            StudioSurface::ComponentLogic => "studio-component-logic",
            StudioSurface::ComponentStates => "studio-component-states",
            StudioSurface::ComponentVariants => "studio-component-variants",
            StudioSurface::ComponentSlots => "studio-component-slots",
            StudioSurface::DesignTokens => "studio-design-tokens",
            StudioSurface::ScrollArea => "studio-scroll-area",
            StudioSurface::ComponentPalette => "studio-component-palette",
            StudioSurface::ResizeHandle => "studio-resize-handle",
            StudioSurface::ConsoleLog => "studio-console-log",
            StudioSurface::StatePanel => "studio-state-panel",
            StudioSurface::ContextMenu => "studio-context-menu",
            StudioSurface::Settings => "studio-settings",
            StudioSurface::Drawer => "studio-drawer",
        }
    }
}

/// Every surface, in the order of registration.
pub fn studio_components() -> (out: Vec<StudioSurface>)
    ensures
        out@ == surface_order(),
{
    let out: Vec<StudioSurface> = vec![
        StudioSurface::Icon,
        StudioSurface::Canvas,
        StudioSurface::DocumentTabs,
        StudioSurface::AppFrame,
        StudioSurface::BottomDock,
        StudioSurface::Grid,
        StudioSurface::FloatingSurface,
        StudioSurface::SelectionOverlay,
        StudioSurface::AnnotationLayer,
        StudioSurface::ComponentTree,
        StudioSurface::ProjectTree,
        StudioSurface::ComponentProps,
        StudioSurface::ComponentLogic,
        StudioSurface::ComponentStates,
        StudioSurface::ComponentVariants,
        StudioSurface::ComponentSlots,
        StudioSurface::DesignTokens,
        StudioSurface::ScrollArea,
        StudioSurface::ComponentPalette,
        StudioSurface::ResizeHandle,
        StudioSurface::ConsoleLog,
        StudioSurface::StatePanel,
        StudioSurface::ContextMenu,
        StudioSurface::Settings,
        StudioSurface::Drawer,
    ];
    proof {
        assert(out@ =~= surface_order());
    }
    out
}

// ---------------------------------------------------------------------------
// Icons
// ---------------------------------------------------------------------------

/// The icons that are drawn.
pub open spec fn icon_names() -> Seq<Seq<char>> {
    seq![
        "select"@,
        "pan"@,
        "play"@,
        "comment"@,
        "upload"@,
        "layers"@,
        "folder"@,
        "plus"@,
        "close"@,
        "component"@,
        "frame"@,
        "text"@,
        "row"@,
        "column"@,
        "button"@,
        "instance"@,
        "chevron"@,
        "rotate"@,
        "monitor"@,
        "grid"@,
        "duplicate"@,
        "trash"@,
        "settings"@,
    ]
}

fn known_icons() -> (out: Vec<&'static str>)
    ensures
        out.len() == icon_names().len(),
        forall|i: int| 0 <= i < out.len() ==> (#[trigger] out[i])@ == icon_names()[i],
{
    vec![
        "select",
        "pan",
        "play",
        "comment",
        "upload",
        "layers",
        "folder",
        "plus",
        "close",
        "component",
        "frame",
        "text",
        "row",
        "column",
        "button",
        "instance",
        "chevron",
        "rotate",
        "monitor",
        "grid",
        "duplicate",
        "trash",
        "settings",
    ]
}

/// The file of an icon: that of its name, or the selection cursor for an unknown or missing
/// name.
pub fn icon_file(name: Option<&str>) -> (out: String)
    ensures
        out@ == (if name is Some && icon_names().contains(name->0@) {
            name->0@
        } else {
            "select"@
        }) + ".svg"@,
{
    match name {
        None => {},
        Some(wanted) => {
            let icons = known_icons();
            let mut i: usize = 0;
            while i < icons.len()
                invariant
                    i <= icons.len(),
                    name == Some(wanted),
                    icons.len() == icon_names().len(),
                    forall|j: int|
                        0 <= j < icons.len() ==> (#[trigger] icons[j])@ == icon_names()[j],
                    forall|j: int| 0 <= j < i ==> #[trigger] icon_names()[j] != wanted@,
                decreases icons.len() - i,
            {
                if text::same_text(icons[i], wanted) {
                    proof {
                        assert(icon_names()[i as int] == wanted@);
                        assert(icon_names().contains(wanted@));
                    }
                    return text::join2(wanted, ".svg");
                }
                i += 1;
            }
        },
    }
    text::join2("select", ".svg")
}

/// The color of an icon by its tone.
pub fn icon_color(tone: Option<&str>) -> (color: u32)
    ensures
        color == (if tone is Some && tone->0@ == "accent"@ {
            0x6e_7b_ffu32
        } else if tone is Some && tone->0@ == "dim"@ {
            0x5f_66_75u32
        } else {
            0xa9_af_bdu32
        }),
{
    match tone {
        Some(tone) => if text::same_text(tone, "accent") {
            0x6e_7b_ff
        } else if text::same_text(tone, "dim") {
            0x5f_66_75
        } else {
            0xa9_af_bd
        },
        None => 0xa9_af_bd,
    }
}

/// The icon files that the asset listing names.
pub open spec fn listed_icons() -> Seq<Seq<char>> {
    seq![
        "select.svg"@,
        "pan.svg"@,
        "comment.svg"@,
        "upload.svg"@,
        "layers.svg"@,
        "folder.svg"@,
        "plus.svg"@,
        "close.svg"@,
        "component.svg"@,
        "frame.svg"@,
        "text.svg"@,
        "row.svg"@,
        "column.svg"@,
        "button.svg"@,
        "instance.svg"@,
        "chevron.svg"@,
        "rotate.svg"@,
        "monitor.svg"@,
        "grid.svg"@,
    ]
}

/// The assets under a directory: icons, and nothing elsewhere.
pub fn list_assets(path: &str) -> (out: Vec<&'static str>)
    ensures
        path@ == "icons"@ ==> out.len() == listed_icons().len() && forall|i: int|
            0 <= i < out.len() ==> (#[trigger] out[i])@ == listed_icons()[i],
        path@ != "icons"@ ==> out.len() == 0,
{
    if text::same_text(path, "icons") {
        vec![
            "select.svg",
            "pan.svg",
            "comment.svg",
            "upload.svg",
            "layers.svg",
            "folder.svg",
            "plus.svg",
            "close.svg",
            "component.svg",
            "frame.svg",
            "text.svg",
            "row.svg",
            "column.svg",
            "button.svg",
            "instance.svg",
            "chevron.svg",
            "rotate.svg",
            "monitor.svg",
            "grid.svg",
        ]
    } else {
        Vec::new()
    }
}

/// The path of an icon's asset.
pub open spec fn icon_path(name: Seq<char>) -> Seq<char> {
    "icons/"@ + name + ".svg"@
}

/// The icon whose asset is at a path; nothing at any other path.
pub fn bundled_icon(path: &str) -> (icon: Option<&'static str>)
    ensures
        match icon {
            Some(name) => icon_names().contains(name@) && path@ == icon_path(name@),
            None => forall|i: int|
                0 <= i < icon_names().len() ==> path@ != icon_path(#[trigger] icon_names()[i]),
        },
{
    let icons = known_icons();
    let mut i: usize = 0;
    while i < icons.len()
        invariant
            i <= icons.len(),
            icons.len() == icon_names().len(),
            forall|j: int| 0 <= j < icons.len() ==> (#[trigger] icons[j])@ == icon_names()[j],
            forall|j: int| 0 <= j < i ==> path@ != icon_path(#[trigger] icon_names()[j]),
        decreases icons.len() - i,
    {
        if text::same_text(text::join3("icons/", icons[i], ".svg").as_str(), path) {
            proof {
                assert(icon_names()[i as int] == icons[i as int]@);
            }
            return Some(icons[i]);
        }
        i += 1;
    }
    None
}

/// Every listed asset is a bundled icon.
pub proof fn law_listed_icons_are_bundled(i: int)
    requires
        0 <= i < listed_icons().len(),
    ensures
        exists|k: int|
            0 <= k < icon_names().len() && "icons/"@ + listed_icons()[i] == icon_path(
                #[trigger] icon_names()[k],
            ),
{
    reveal_strlit(".svg");
    reveal_strlit("select");
    reveal_strlit("select.svg");
    reveal_strlit("pan");
    reveal_strlit("pan.svg");
    reveal_strlit("comment");
    reveal_strlit("comment.svg");
    reveal_strlit("upload");
    reveal_strlit("upload.svg");
    reveal_strlit("layers");
    reveal_strlit("layers.svg");
    reveal_strlit("folder");
    reveal_strlit("folder.svg");
    reveal_strlit("plus");
    reveal_strlit("plus.svg");
    reveal_strlit("close");
    reveal_strlit("close.svg");
    reveal_strlit("component");
    reveal_strlit("component.svg");
    reveal_strlit("frame");
    reveal_strlit("frame.svg");
    reveal_strlit("text");
    reveal_strlit("text.svg");
    reveal_strlit("row");
    reveal_strlit("row.svg");
    reveal_strlit("column");
    reveal_strlit("column.svg");
    reveal_strlit("button");
    reveal_strlit("button.svg");
    reveal_strlit("instance");
    reveal_strlit("instance.svg");
    reveal_strlit("chevron");
    reveal_strlit("chevron.svg");
    reveal_strlit("rotate");
    reveal_strlit("rotate.svg");
    reveal_strlit("monitor");
    reveal_strlit("monitor.svg");
    reveal_strlit("grid");
    reveal_strlit("grid.svg");
    if i == 0 {
        assert("select.svg"@ =~= "select"@ + ".svg"@);
        assert("icons/"@ + "select.svg"@ =~= icon_path(icon_names()[0]));
    }
    if i == 1 {
        assert("pan.svg"@ =~= "pan"@ + ".svg"@);
        assert("icons/"@ + "pan.svg"@ =~= icon_path(icon_names()[1]));
    }
    if i == 2 {
        assert("comment.svg"@ =~= "comment"@ + ".svg"@);
        assert("icons/"@ + "comment.svg"@ =~= icon_path(icon_names()[3]));
    }
    if i == 3 {
        assert("upload.svg"@ =~= "upload"@ + ".svg"@);
        assert("icons/"@ + "upload.svg"@ =~= icon_path(icon_names()[4]));
    }
    if i == 4 {
        assert("layers.svg"@ =~= "layers"@ + ".svg"@);
        assert("icons/"@ + "layers.svg"@ =~= icon_path(icon_names()[5]));
    }
    if i == 5 {
        assert("folder.svg"@ =~= "folder"@ + ".svg"@);
        assert("icons/"@ + "folder.svg"@ =~= icon_path(icon_names()[6]));
    }
    if i == 6 {
        assert("plus.svg"@ =~= "plus"@ + ".svg"@);
        assert("icons/"@ + "plus.svg"@ =~= icon_path(icon_names()[7]));
    }
    if i == 7 {
        assert("close.svg"@ =~= "close"@ + ".svg"@);
        assert("icons/"@ + "close.svg"@ =~= icon_path(icon_names()[8]));
    }
    if i == 8 {
        assert("component.svg"@ =~= "component"@ + ".svg"@);
        assert("icons/"@ + "component.svg"@ =~= icon_path(icon_names()[9]));
    }
    if i == 9 {
        assert("frame.svg"@ =~= "frame"@ + ".svg"@);
        assert("icons/"@ + "frame.svg"@ =~= icon_path(icon_names()[10]));
    }
    if i == 10 {
        assert("text.svg"@ =~= "text"@ + ".svg"@);
        assert("icons/"@ + "text.svg"@ =~= icon_path(icon_names()[11]));
    }
    if i == 11 {
        assert("row.svg"@ =~= "row"@ + ".svg"@);
        assert("icons/"@ + "row.svg"@ =~= icon_path(icon_names()[12]));
    }
    if i == 12 {
        assert("column.svg"@ =~= "column"@ + ".svg"@);
        assert("icons/"@ + "column.svg"@ =~= icon_path(icon_names()[13]));
    }
    if i == 13 {
        assert("button.svg"@ =~= "button"@ + ".svg"@);
        assert("icons/"@ + "button.svg"@ =~= icon_path(icon_names()[14]));
    }
    if i == 14 {
        assert("instance.svg"@ =~= "instance"@ + ".svg"@);
        assert("icons/"@ + "instance.svg"@ =~= icon_path(icon_names()[15]));
    }
    if i == 15 {
        assert("chevron.svg"@ =~= "chevron"@ + ".svg"@);
        assert("icons/"@ + "chevron.svg"@ =~= icon_path(icon_names()[16]));
    }
    if i == 16 {
        assert("rotate.svg"@ =~= "rotate"@ + ".svg"@);
        assert("icons/"@ + "rotate.svg"@ =~= icon_path(icon_names()[17]));
    }
    if i == 17 {
        assert("monitor.svg"@ =~= "monitor"@ + ".svg"@);
        assert("icons/"@ + "monitor.svg"@ =~= icon_path(icon_names()[18]));
    }
    if i == 18 {
        assert("grid.svg"@ =~= "grid"@ + ".svg"@);
        assert("icons/"@ + "grid.svg"@ =~= icon_path(icon_names()[19]));
    }
}

/// Where a floating surface stands beside its trigger.
#[derive(Clone, Copy, Debug, PartialEq, Eq, Structural)]
pub enum FloatingSide {
    Top,
    Right,
    Bottom,
    Left,
}

/// The side that a floating surface prefers: below its trigger unless said otherwise.
pub fn floating_side(side: Option<&str>) -> (out: FloatingSide)
    ensures
        out == (if side is Some && side->0@ == "top"@ {
            FloatingSide::Top
        } else if side is Some && side->0@ == "right"@ {
            FloatingSide::Right
        } else if side is Some && side->0@ == "left"@ {
            FloatingSide::Left
        } else {
            FloatingSide::Bottom
        }),
{
    match side {
        Some(side) => if text::same_text(side, "top") {
            FloatingSide::Top
        } else if text::same_text(side, "right") {
            FloatingSide::Right
        } else if text::same_text(side, "left") {
            FloatingSide::Left
        } else {
            FloatingSide::Bottom
        },
        None => FloatingSide::Bottom,
    }
}

// ---------------------------------------------------------------------------
// Scroll surfaces
// ---------------------------------------------------------------------------

/// The scroll surfaces of the shell.
#[derive(Clone, Copy, Debug, PartialEq, Eq, Structural)]
pub enum StudioScrollSurface {
    Layers,
    Files,
    Inspector,
    States,
}

/// The scroll surface that a word names.
pub open spec fn scroll_surface_named(value: Seq<char>) -> Option<StudioScrollSurface> {
    if value == "layers"@ {
        Some(StudioScrollSurface::Layers)
    } else if value == "files"@ {
        Some(StudioScrollSurface::Files)
    } else if value == "inspector"@ {
        Some(StudioScrollSurface::Inspector)
    } else if value == "states"@ {
        Some(StudioScrollSurface::States)
    } else {
        None
    }
}

impl StudioScrollSurface {
    /// The scroll surface that a word names.
    pub fn parse(value: &str) -> (out: Option<StudioScrollSurface>)
        ensures
            out == scroll_surface_named(value@),
    {
        if text::same_text(value, "layers") {
            Some(StudioScrollSurface::Layers)
        } else if text::same_text(value, "files") {
            Some(StudioScrollSurface::Files)
        } else if text::same_text(value, "inspector") {
            Some(StudioScrollSurface::Inspector)
        } else if text::same_text(value, "states") {
            Some(StudioScrollSurface::States)
        } else {
            None
        }
    }

    /// The surface's semantic ID.
    pub open spec fn id_text(self) -> Seq<char> {
        match self {
            StudioScrollSurface::Layers => "layer-tree-scroll"@,
            StudioScrollSurface::Files => "project-files-scroll"@,
            StudioScrollSurface::Inspector => "inspector-panel-scroll"@,
            StudioScrollSurface::States => "state-panel-scroll"@,
        }
    }

    /// The surface's semantic ID.
    pub fn semantic_id(self) -> (out: &'static str)
        ensures
            out@ == self.id_text(),
    {
        match self {
            StudioScrollSurface::Layers => "layer-tree-scroll",
            StudioScrollSurface::Files => "project-files-scroll",
            StudioScrollSurface::Inspector => "inspector-panel-scroll",
            StudioScrollSurface::States => "state-panel-scroll",
        }
    }

    /// What the surface is called.
    pub open spec fn label_text(self) -> Seq<char> {
        match self {
            StudioScrollSurface::Layers => "Project layer tree"@,
            StudioScrollSurface::Files => "Project files"@,
            StudioScrollSurface::Inspector => "Selection inspector"@,
            StudioScrollSurface::States => "Component states"@,
        }
    }

    /// What the surface is called.
    pub fn label(self) -> (out: &'static str)
        ensures
            out@ == self.label_text(),
    {
        match self {
            StudioScrollSurface::Layers => "Project layer tree",
            StudioScrollSurface::Files => "Project files",
            StudioScrollSurface::Inspector => "Selection inspector",
            StudioScrollSurface::States => "Component states",
        }
    }
}

/// Each scroll surface publishes a semantic ID of its own.
pub proof fn law_scroll_surfaces_have_unique_ids(a: StudioScrollSurface, b: StudioScrollSurface)
    requires
        a.id_text() == b.id_text(),
    ensures
        a == b,
{
    reveal_strlit("layer-tree-scroll");
    reveal_strlit("project-files-scroll");
    reveal_strlit("inspector-panel-scroll");
    reveal_strlit("state-panel-scroll");
    assert("layer-tree-scroll"@[0] == 'l' && "layer-tree-scroll"@.len() == 17);
    assert("project-files-scroll"@[0] == 'p' && "project-files-scroll"@.len() == 20);
    assert("inspector-panel-scroll"@[0] == 'i' && "inspector-panel-scroll"@.len() == 22);
    assert("state-panel-scroll"@[0] == 's' && "state-panel-scroll"@.len() == 18);
}

/// What the markup of a scroll area comes to: a scroll surface, or its children as they are
/// with a note for the trace.
#[derive(Debug)]
pub enum ScrollAreaRequest {
    Surface(StudioScrollSurface),
    KeepChildren(String),
}

/// Reads the `surface` attribute of a scroll area; an unknown or missing value keeps the
/// children, so that a typo cannot make content disappear.
pub fn studio_scroll_area(surface: Option<&str>) -> (request: ScrollAreaRequest)
    ensures
        ({
            let value = match surface {
                Some(value) => value@,
                None => ""@,
            };
            match scroll_surface_named(value) {
                Some(surface) => request == ScrollAreaRequest::Surface(surface),
                None => request matches ScrollAreaRequest::KeepChildren(note) && note@
                    == "studio-scroll-area invalid surface \""@ + (if value.len() == 0 {
                    "<missing>"@
                } else {
                    value
                }) + "\"; preserving authored children"@,
            }
        }),
{
    let value = match surface {
        Some(value) => value,
        None => "",
    };
    match StudioScrollSurface::parse(value) {
        Some(surface) => ScrollAreaRequest::Surface(surface),
        None => {
            let shown = if value.unicode_len() == 0 {
                "<missing>"
            } else {
                value
            };
            ScrollAreaRequest::KeepChildren(
                text::join3(
                    "studio-scroll-area invalid surface \"",
                    shown,
                    "\"; preserving authored children",
                ),
            )
        },
    }
}

/// Each scroll surface has its semantic ID.
pub proof fn law_scroll_surfaces_have_ids(x: StudioScrollSurface)
    ensures
        x is Layers ==> x.id_text() == "layer-tree-scroll"@,
        x is Files ==> x.id_text() == "project-files-scroll"@,
        x is Inspector ==> x.id_text() == "inspector-panel-scroll"@,
        x is States ==> x.id_text() == "state-panel-scroll"@,
{
}

/// Four words name the scroll surfaces, and no other word names one.
pub proof fn law_words_name_the_scroll_surfaces(word: Seq<char>)
    ensures
        scroll_surface_named("layers"@) == Some(StudioScrollSurface::Layers),
        scroll_surface_named("files"@) == Some(StudioScrollSurface::Files),
        scroll_surface_named("inspector"@) == Some(StudioScrollSurface::Inspector),
        scroll_surface_named("states"@) == Some(StudioScrollSurface::States),
        scroll_surface_named(word) is Some ==> word == "layers"@ || word == "files"@ || word
            == "inspector"@ || word == "states"@,
{
    reveal_strlit("layers");
    reveal_strlit("files");
    reveal_strlit("inspector");
    reveal_strlit("states");
    assert("layers"@[0] == 'l' && "files"@[0] == 'f' && "inspector"@[0] == 'i' && "states"@[0]
        == 's');
}

} // verus!
