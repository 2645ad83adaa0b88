//! What the panels show and how their switches work.
use vstd::prelude::*;

use crate::annotations;
use crate::annotations::AnnotationStatus;
use crate::identifiers;
use crate::presets::ComponentPreset;
use crate::studio::{
    AuthoringBackend, CanvasSettings, CollapsedLayers, ComponentDialog, ComponentSource, DockTab,
    HorizontalConstraint, InspectorTab, OutputDecorations, Panels, Review, StudioMode,
    ViewportPreset, Workspace,
};
use crate::text;

verus! {

// ---------------------------------------------------------------------------
// Names
// ---------------------------------------------------------------------------

/// The mode in capitals.
pub open spec fn mode_heading_text(s: StudioMode) -> Seq<char> {
    match s {
        StudioMode::Design => "DESIGN"@,
        StudioMode::Test => "TEST"@,
        StudioMode::Compare => "COMPARE"@,
        StudioMode::Move => "MOVE"@,
        StudioMode::Source => "SOURCE"@,
    }
}

/// The mode in capitals.
pub fn mode_heading(s: StudioMode) -> (out: &'static str)
    ensures
        out@ == mode_heading_text(s),
{
    match s {
        StudioMode::Design => "DESIGN",
        StudioMode::Test => "TEST",
        StudioMode::Compare => "COMPARE",
        StudioMode::Move => "MOVE",
        StudioMode::Source => "SOURCE",
    }
}

/// The mode in small letters.
pub open spec fn mode_word_text(s: StudioMode) -> Seq<char> {
    match s {
        StudioMode::Design => "design"@,
        StudioMode::Test => "test"@,
        StudioMode::Compare => "compare"@,
        StudioMode::Move => "move"@,
        StudioMode::Source => "source"@,
    }
}

/// The mode in small letters.
pub fn mode_word(s: StudioMode) -> (out: &'static str)
    ensures
        out@ == mode_word_text(s),
{
    match s {
        StudioMode::Design => "design",
        StudioMode::Test => "test",
        StudioMode::Compare => "compare",
        StudioMode::Move => "move",
        StudioMode::Source => "source",
    }
}

/// The inspector page in small letters.
pub open spec fn tab_word_text(i: InspectorTab) -> Seq<char> {
    match i {
        InspectorTab::Layout => "layout"@,
        InspectorTab::Style => "style"@,
        InspectorTab::Logic => "logic"@,
    }
}

/// The inspector page in small letters.
pub fn tab_word(i: InspectorTab) -> (out: &'static str)
    ensures
        out@ == tab_word_text(i),
{
    match i {
        InspectorTab::Layout => "layout",
        InspectorTab::Style => "style",
        InspectorTab::Logic => "logic",
    }
}

/// The name of a review state.
pub open spec fn status_name_text(a: AnnotationStatus) -> Seq<char> {
    match a {
        AnnotationStatus::Open => "Open"@,
        AnnotationStatus::InProgress => "InProgress"@,
        AnnotationStatus::Done => "Done"@,
        AnnotationStatus::Archived => "Archived"@,
    }
}

/// The name of a review state.
pub fn status_name(a: AnnotationStatus) -> (out: &'static str)
    ensures
        out@ == status_name_text(a),
{
    match a {
        AnnotationStatus::Open => "Open",
        AnnotationStatus::InProgress => "InProgress",
        AnnotationStatus::Done => "Done",
        AnnotationStatus::Archived => "Archived",
    }
}

/// The projection in small letters.
pub open spec fn backend_word_text(a: AuthoringBackend) -> Seq<char> {
    match a {
        AuthoringBackend::Html => "html"@,
        AuthoringBackend::Gpui => "gpui"@,
    }
}

/// The projection in small letters.
pub fn backend_word(a: AuthoringBackend) -> (out: &'static str)
    ensures
        out@ == backend_word_text(a),
{
    match a {
        AuthoringBackend::Html => "html",
        AuthoringBackend::Gpui => "gpui",
    }
}

/// The marker of a collapsed or expanded row.
pub open spec fn disclosure_text(collapsed: bool) -> Seq<char> {
    if collapsed {
        "▸"@
    } else {
        "▾"@
    }
}

/// The marker of a collapsed or expanded row.
pub fn disclosure_symbol(collapsed: bool) -> (out: String)
    ensures
        out@ == disclosure_text(collapsed),
{
    if collapsed {
        "▸".to_owned()
    } else {
        "▾".to_owned()
    }
}

/// The status line after a change that could fail to be persisted: the message where it was
/// persisted, the reason behind `failed` where it was not.
pub open spec fn outcome_status(
    saved: Result<(), String>,
    failed: Seq<char>,
    done: Seq<char>,
) -> Seq<char> {
    match saved {
        Ok(()) => done,
        Err(error) => failed + error@,
    }
}

// ---------------------------------------------------------------------------
// Panels and menus
// ---------------------------------------------------------------------------

impl Panels {
    /// Whether the left rail shows layers.
    pub fn layers_visible(&self) -> (result: bool)
        ensures
            result == (!self.left_files_open),
    {
        !self.left_files_open
    }

    /// Whether the left rail shows files.
    pub fn files_visible(&self) -> (result: bool)
        ensures
            result == (self.left_files_open),
    {
        self.left_files_open
    }

    /// Whether the layout page of the inspector is open.
    pub fn inspector_layout_visible(&self) -> (result: bool)
        ensures
            result == (self.inspector_tab == InspectorTab::Layout),
    {
        self.inspector_tab == InspectorTab::Layout
    }

    /// Whether the style page of the inspector is open.
    pub fn inspector_style_visible(&self) -> (result: bool)
        ensures
            result == (self.inspector_tab == InspectorTab::Style),
    {
        self.inspector_tab == InspectorTab::Style
    }

    /// Whether the logic page of the inspector is open.
    pub fn inspector_logic_visible(&self) -> (result: bool)
        ensures
            result == (self.inspector_tab == InspectorTab::Logic),
    {
        self.inspector_tab == InspectorTab::Logic
    }

    /// Whether the dock's console page is chosen.
    pub fn dock_console_selected(&self) -> (result: bool)
        ensures
            result == (self.dock_tab == DockTab::Console),
    {
        self.dock_tab == DockTab::Console
    }

    /// Whether the dock's console page is visible.
    pub fn console_visible(&self) -> (result: bool)
        ensures
            result == (self.dock_tab == DockTab::Console && !self.dock_collapsed),
    {
        self.dock_tab == DockTab::Console && !self.dock_collapsed
    }

    /// Whether the dock's states page is chosen.
    pub fn dock_states_selected(&self) -> (result: bool)
        ensures
            result == (self.dock_tab == DockTab::States),
    {
        self.dock_tab == DockTab::States
    }

    /// Whether the dock's states page is visible.
    pub fn states_visible(&self) -> (result: bool)
        ensures
            result == (self.dock_tab == DockTab::States && !self.dock_collapsed),
    {
        self.dock_tab == DockTab::States && !self.dock_collapsed
    }

    /// Whether the project menu is open.
    pub fn project_menu_visible(&self) -> (result: bool)
        ensures
            result == (self.project_menu_open),
    {
        self.project_menu_open
    }

    /// Whether the viewport menu is open.
    pub fn viewport_menu_visible(&self) -> (result: bool)
        ensures
            result == (self.viewport_menu_open),
    {
        self.viewport_menu_open
    }

    /// Whether the settings are open.
    pub fn settings_visible(&self) -> (result: bool)
        ensures
            result == (self.settings_open),
    {
        self.settings_open
    }

    /// Whether the annotations drawer is open.
    pub fn annotations_drawer_visible(&self) -> (result: bool)
        ensures
            result == (self.annotations_drawer_open),
    {
        self.annotations_drawer_open
    }

    /// Whether the left constraint is chosen.
    pub fn constraint_left_selected(&self) -> (result: bool)
        ensures
            result == (self.horizontal_constraint == HorizontalConstraint::Left),
    {
        self.horizontal_constraint == HorizontalConstraint::Left
    }

    /// Whether the center constraint is chosen.
    pub fn constraint_center_selected(&self) -> (result: bool)
        ensures
            result == (self.horizontal_constraint == HorizontalConstraint::Center),
    {
        self.horizontal_constraint == HorizontalConstraint::Center
    }

    /// Whether the right constraint is chosen.
    pub fn constraint_right_selected(&self) -> (result: bool)
        ensures
            result == (self.horizontal_constraint == HorizontalConstraint::Right),
    {
        self.horizontal_constraint == HorizontalConstraint::Right
    }

    /// Whether the scale constraint is chosen.
    pub fn constraint_scale_selected(&self) -> (result: bool)
        ensures
            result == (self.horizontal_constraint == HorizontalConstraint::Scale),
    {
        self.horizontal_constraint == HorizontalConstraint::Scale
    }

    /// Shows the layers in the left rail.
    pub fn show_layers(&mut self)
        ensures
            *final(self) == (Panels {
                left_files_open: false,
                ..*old(self)
            }),
    {
        self.left_files_open = false;
    }

    /// Shows the files in the left rail.
    pub fn show_files(&mut self)
        ensures
            *final(self) == (Panels {
                left_files_open: true,
                ..*old(self)
            }),
    {
        self.left_files_open = true;
    }

    /// Opens a page of the dock.
    pub fn set_dock_tab(&mut self, tab: DockTab)
        ensures
            *final(self) == (Panels {
                dock_tab: tab,
                dock_collapsed: false,
                ..*old(self)
            }),
    {
        self.dock_tab = tab;
        self.dock_collapsed = false;
    }

    /// Collapses or expands the dock.
    pub fn toggle_dock(&mut self)
        ensures
            *final(self) == (Panels {
                dock_collapsed: !old(self).dock_collapsed,
                ..*old(self)
            }),
    {
        self.dock_collapsed = !self.dock_collapsed;
    }

    /// Opens or closes the project menu; the viewport menu closes.
    pub fn toggle_project_menu(&mut self)
        ensures
            *final(self) == (Panels {
                project_menu_open: !old(self).project_menu_open,
                viewport_menu_open: false,
                ..*old(self)
            }),
    {
        self.project_menu_open = !self.project_menu_open;
        self.viewport_menu_open = false;
    }

    /// Opens or closes the viewport menu; the project menu closes.
    pub fn toggle_viewport_menu(&mut self)
        ensures
            *final(self) == (Panels {
                viewport_menu_open: !old(self).viewport_menu_open,
                project_menu_open: false,
                ..*old(self)
            }),
    {
        self.viewport_menu_open = !self.viewport_menu_open;
        self.project_menu_open = false;
    }

    /// Opens the settings.
    pub fn open_settings(&mut self)
        ensures
            *final(self) == (Panels {
                settings_open: true,
                ..*old(self)
            }),
    {
        self.settings_open = true;
    }

    /// Closes the settings and the theme list in them.
    pub fn close_settings(&mut self)
        ensures
            *final(self) == (Panels {
                settings_open: false,
                theme_dropdown_open: false,
                ..*old(self)
            }),
    {
        self.settings_open = false;
        self.theme_dropdown_open = false;
    }

    /// Opens or closes the theme list.
    pub fn toggle_theme_dropdown(&mut self)
        ensures
            *final(self) == (Panels {
                theme_dropdown_open: !old(self).theme_dropdown_open,
                ..*old(self)
            }),
    {
        self.theme_dropdown_open = !self.theme_dropdown_open;
    }

    /// Opens or closes the annotations drawer.
    pub fn toggle_annotations_drawer(&mut self)
        ensures
            *final(self) == (Panels {
                annotations_drawer_open: !old(self).annotations_drawer_open,
                ..*old(self)
            }),
    {
        self.annotations_drawer_open = !self.annotations_drawer_open;
    }

    /// Closes the annotations drawer.
    pub fn close_annotations_drawer(&mut self)
        ensures
            *final(self) == (Panels {
                annotations_drawer_open: false,
                ..*old(self)
            }),
    {
        self.annotations_drawer_open = false;
    }

    /// Closes the project menu and says how another project is opened.
    pub fn project_open_help(&mut self) -> (status: String)
        ensures
            *final(self) == (Panels { project_menu_open: false, ..*old(self) }),
            status@
                == "Open any local project with gpui-studio --project <path>; no network required"@,
    {
        self.project_menu_open = false;
        "Open any local project with gpui-studio --project <path>; no network required".to_owned()
    }

    /// Opens a page of the inspector and says so.
    pub fn set_inspector_tab(&mut self, tab: InspectorTab) -> (status: String)
        ensures
            *final(self) == (Panels { inspector_tab: tab, ..*old(self) }),
            status@ == tab_word_text(tab) + " inspector opened"@,
    {
        self.inspector_tab = tab;
        text::join2(tab_word(tab), " inspector opened")
    }

    /// Chooses how the selected page element follows the page's width. `label` names the
    /// constraint; `resolved` is where the element lands on a phone, where it is painted.
    pub fn select_horizontal_constraint(
        &mut self,
        constraint: HorizontalConstraint,
        label: &str,
        resolved: Option<(String, String)>,
    ) -> (status: String)
        ensures
            *final(self) == (Panels { horizontal_constraint: constraint, ..*old(self) }),
            status@ == label@ + " constraint selected"@ + (match resolved {
                None => Seq::<char>::empty(),
                Some((x, width)) => " · mobile reflow x "@ + x@ + ", width "@ + width@,
            }),
    {
        self.horizontal_constraint = constraint;
        let mut status = text::join2(label, " constraint selected");
        match resolved {
            None => {},
            Some((x, width)) => {
                let mut reflow = text::join3(" · mobile reflow x ", x.as_str(), ", width ");
                reflow.append(width.as_str());
                status.append(reflow.as_str());
            },
        }
        status
    }

    /// The dock switch's label.
    pub open spec fn dock_toggle_label_text(&self) -> Seq<char> {
        (if self.dock_collapsed {
                "Expand"@
            } else {
                "Collapse"@
            })
    }

    /// The dock switch's label.
    pub fn dock_toggle_label(&self) -> (out: String)
        ensures
            out@ == self.dock_toggle_label_text(),
    {
        if self.dock_collapsed {
            "Expand".to_owned()
        } else {
            "Collapse".to_owned()
        }
    }

    /// The height of the bottom dock: small when collapsed, lower in short and in narrow windows.
    pub fn bottom_dock_height(&self, short_window: bool, narrow_window: bool) -> (height: u16)
        ensures
            height == (if self.dock_collapsed {
                36u16
            } else if short_window {
                150u16
            } else if narrow_window {
                170u16
            } else {
                206u16
            }),
    {
        if self.dock_collapsed {
            36
        } else if short_window {
            150
        } else if narrow_window {
            170
        } else {
            206
        }
    }
}

impl CollapsedLayers {
    /// Whether the layer's children are listed.
    pub fn welcome_children_visible(&self) -> (result: bool)
        ensures
            result == (!self.welcome),
    {
        !self.welcome
    }

    /// The marker of the layer's row.
    pub fn welcome_disclosure(&self) -> (out: String)
        ensures
            out@ == disclosure_text(self.welcome),
    {
        disclosure_symbol(self.welcome)
    }

    /// Whether the layer's children are listed.
    pub fn header_children_visible(&self) -> (result: bool)
        ensures
            result == (!self.header),
    {
        !self.header
    }

    /// The marker of the layer's row.
    pub fn header_disclosure(&self) -> (out: String)
        ensures
            out@ == disclosure_text(self.header),
    {
        disclosure_symbol(self.header)
    }

    /// Whether the layer's children are listed.
    pub fn welcome_copy_children_visible(&self) -> (result: bool)
        ensures
            result == (!self.welcome_copy),
    {
        !self.welcome_copy
    }

    /// The marker of the layer's row.
    pub fn welcome_copy_disclosure(&self) -> (out: String)
        ensures
            out@ == disclosure_text(self.welcome_copy),
    {
        disclosure_symbol(self.welcome_copy)
    }

    /// Whether the layer's children are listed.
    pub fn feature_cards_children_visible(&self) -> (result: bool)
        ensures
            result == (!self.feature_cards),
    {
        !self.feature_cards
    }

    /// The marker of the layer's row.
    pub fn feature_cards_disclosure(&self) -> (out: String)
        ensures
            out@ == disclosure_text(self.feature_cards),
    {
        disclosure_symbol(self.feature_cards)
    }

    /// Whether the layer's children are listed.
    pub fn welcome_lower_children_visible(&self) -> (result: bool)
        ensures
            result == (!self.welcome_lower),
    {
        !self.welcome_lower
    }

    /// The marker of the layer's row.
    pub fn welcome_lower_disclosure(&self) -> (out: String)
        ensures
            out@ == disclosure_text(self.welcome_lower),
    {
        disclosure_symbol(self.welcome_lower)
    }

    /// The marker of the component's root row.
    pub fn component_root_disclosure(&self) -> (out: String)
        ensures
            out@ == disclosure_text(self.component_tree),
    {
        disclosure_symbol(self.component_tree)
    }
}

// ---------------------------------------------------------------------------
// Workspace
// ---------------------------------------------------------------------------

impl Workspace {
    /// Whether the HTML projection is authored.
    pub fn backend_html_selected(&self) -> (result: bool)
        ensures
            result == (self.backend == AuthoringBackend::Html),
    {
        self.backend == AuthoringBackend::Html
    }

    /// Whether the GPUI projection is authored.
    pub fn backend_gpui_selected(&self) -> (result: bool)
        ensures
            result == (self.backend == AuthoringBackend::Gpui),
    {
        self.backend == AuthoringBackend::Gpui
    }

    /// Whether the select tool is in use.
    pub fn mode_design_selected(&self) -> (result: bool)
        ensures
            result == (self.mode == StudioMode::Design),
    {
        self.mode == StudioMode::Design
    }

    /// Whether interactions run.
    pub fn mode_test_selected(&self) -> (result: bool)
        ensures
            result == (self.mode == StudioMode::Test),
    {
        self.mode == StudioMode::Test
    }

    /// Whether annotating is in use.
    pub fn mode_compare_selected(&self) -> (result: bool)
        ensures
            result == (self.mode == StudioMode::Compare),
    {
        self.mode == StudioMode::Compare
    }

    /// Whether the toolbar marks the select tool.
    pub fn tool_select_selected(&self) -> (result: bool)
        ensures
            result == (self.mode == StudioMode::Design),
    {
        self.mode == StudioMode::Design
    }

    /// Whether the toolbar marks the move tool.
    pub fn tool_move_selected(&self) -> (result: bool)
        ensures
            result == (self.mode == StudioMode::Move),
    {
        self.mode == StudioMode::Move
    }

    /// Whether the toolbar marks the annotate tool.
    pub fn tool_annotate_selected(&self) -> (result: bool)
        ensures
            result == (self.mode == StudioMode::Compare),
    {
        self.mode == StudioMode::Compare
    }

    /// Whether any editing tool is in use, as opposed to running the app.
    pub fn view_design_selected(&self) -> (result: bool)
        ensures
            result == (self.mode == StudioMode::Design || self.mode == StudioMode::Move || self.mode
            == StudioMode::Compare),
    {
        self.mode == StudioMode::Design || self.mode == StudioMode::Move || self.mode
            == StudioMode::Compare
    }

    /// Whether the app runs.
    pub fn view_preview_selected(&self) -> (result: bool)
        ensures
            result == (self.mode == StudioMode::Test),
    {
        self.mode == StudioMode::Test
    }

    /// The mode in capitals.
    pub fn mode_label(&self) -> (out: String)
        ensures
            out@ == mode_heading_text(self.mode),
    {
        mode_heading(self.mode).to_owned()
    }

    /// The projection that is authored.
    pub open spec fn backend_label_text(&self) -> Seq<char> {
        (match self.backend {
                AuthoringBackend::Html => "HTML PROJECTION"@,
                AuthoringBackend::Gpui => "GPUI PROJECTION"@,
            })
    }

    /// The projection that is authored.
    pub fn backend_label(&self) -> (out: String)
        ensures
            out@ == self.backend_label_text(),
    {
        match self.backend {
            AuthoringBackend::Html => "HTML PROJECTION".to_owned(),
            AuthoringBackend::Gpui => "GPUI PROJECTION".to_owned(),
        }
    }

    /// The snapping grid.
    pub open spec fn selection_grid_label_text(&self) -> Seq<char> {
        (if self.canvas.snap_enabled {
                text::decimal_text(self.canvas.snap_grid as nat) + "px"@
            } else {
                "off"@
            })
    }

    /// The snapping grid.
    pub fn selection_grid_label(&self) -> (out: String)
        ensures
            out@ == self.selection_grid_label_text(),
    {
        if self.canvas.snap_enabled {
            text::join2(text::decimal(self.canvas.snap_grid as u64).as_str(), "px")
        } else {
            "off".to_owned()
        }
    }

    /// The snapping switch's label.
    pub open spec fn snap_label_text(&self) -> Seq<char> {
        (if self.canvas.snap_enabled {
                "Snap "@ + text::decimal_text(self.canvas.snap_grid as nat)
            } else {
                "Snap off"@
            })
    }

    /// The snapping switch's label.
    pub fn snap_label(&self) -> (out: String)
        ensures
            out@ == self.snap_label_text(),
    {
        if self.canvas.snap_enabled {
            text::join2("Snap ", text::decimal(self.canvas.snap_grid as u64).as_str())
        } else {
            "Snap off".to_owned()
        }
    }

    /// Who draws the output frame.
    pub open spec fn decorations_label_text(&self) -> Seq<char> {
        (match self.canvas.decorations {
                OutputDecorations::Native => "Frame · Native"@,
                OutputDecorations::Custom => "Frame · None"@,
            })
    }

    /// Who draws the output frame.
    pub fn decorations_label(&self) -> (out: String)
        ensures
            out@ == self.decorations_label_text(),
    {
        match self.canvas.decorations {
            OutputDecorations::Native => "Frame · Native".to_owned(),
            OutputDecorations::Custom => "Frame · None".to_owned(),
        }
    }

    /// Switches to another tool or view, once the settings were saved with it.
    pub fn set_mode(&mut self, mode: StudioMode, saved: Result<(), String>) -> (status: String)
        ensures
            *final(self) == (Workspace {
                mode: if saved is Ok {
                    mode
                } else {
                    old(self).mode
                },
                ..*old(self)
            }),
            status@ == outcome_status(
                saved,
                "Change workspace mode failed: "@,
                mode_word_text(mode) + " workspace selected"@,
            ),
    {
        match saved {
            Err(error) => text::join2("Change workspace mode failed: ", error.as_str()),
            Ok(()) => {
                self.mode = mode;
                text::join2(mode_word(mode), " workspace selected")
            },
        }
    }

    /// The mode to save for entering the design view; none where an editing tool is in use.
    pub fn enter_design_view(&self) -> (mode: Option<StudioMode>)
        ensures
            mode == (if self.mode == StudioMode::Design || self.mode == StudioMode::Move
                || self.mode == StudioMode::Compare {
                None::<StudioMode>
            } else {
                Some(StudioMode::Design)
            }),
    {
        if self.view_design_selected() {
            None
        } else {
            Some(StudioMode::Design)
        }
    }

    /// Authors in another projection, once the settings were saved with it.
    pub fn set_backend(&mut self, backend: AuthoringBackend, saved: Result<(), String>) -> (status:
        String)
        ensures
            *final(self) == (Workspace {
                backend: if saved is Ok {
                    backend
                } else {
                    old(self).backend
                },
                ..*old(self)
            }),
            status@ == outcome_status(
                saved,
                "Change authoring projection failed: "@,
                match backend {
                    AuthoringBackend::Html => {
                        "HTML/CSS projection selected · canvas, selection, state, and logic unchanged"@
                    },
                    AuthoringBackend::Gpui => {
                        "GPUI projection selected · canvas, selection, state, and logic unchanged"@
                    },
                },
            ),
    {
        match saved {
            Err(error) => text::join2("Change authoring projection failed: ", error.as_str()),
            Ok(()) => {
                self.backend = backend;
                match backend {
                    AuthoringBackend::Html => {
                        "HTML/CSS projection selected · canvas, selection, state, and logic unchanged".to_owned()
                    },
                    AuthoringBackend::Gpui => {
                        "GPUI projection selected · canvas, selection, state, and logic unchanged".to_owned()
                    },
                }
            },
        }
    }

    /// The next theme revision, which stops at the largest number.
    pub open spec fn next_theme_revision(&self) -> u64 {
        if self.theme_revision == u64::MAX {
            u64::MAX
        } else {
            (self.theme_revision + 1) as u64
        }
    }

    fn bump_theme(&mut self)
        ensures
            *final(self) == (Workspace {
                theme_revision: old(self).next_theme_revision(),
                ..*old(self)
            }),
    {
        if self.theme_revision < u64::MAX {
            self.theme_revision = self.theme_revision + 1;
        }
    }

    /// Moves to another theme, once the settings were saved with it; `label` names it.
    pub fn cycle_theme(&mut self, label: &str, saved: Result<(), String>) -> (status: String)
        ensures
            *final(self) == (Workspace {
                theme_revision: if saved is Ok {
                    old(self).next_theme_revision()
                } else {
                    old(self).theme_revision
                },
                ..*old(self)
            }),
            status@ == outcome_status(
                saved,
                "Change editor theme failed: "@,
                "Editor theme changed to "@ + label@,
            ),
    {
        match saved {
            Err(error) => text::join2("Change editor theme failed: ", error.as_str()),
            Ok(()) => {
                self.bump_theme();
                text::join2("Editor theme changed to ", label)
            },
        }
    }

    /// Takes over a changed theme catalog, once the settings were saved with the theme that
    /// it resolves to.
    pub fn replace_theme_catalog(&mut self, label: &str, saved: Result<(), String>) -> (status:
        String)
        ensures
            *final(self) == (Workspace {
                theme_revision: if saved is Ok {
                    old(self).next_theme_revision()
                } else {
                    old(self).theme_revision
                },
                ..*old(self)
            }),
            status@ == outcome_status(
                saved,
                "Reload theme catalog failed: "@,
                "Theme catalog hot reloaded · "@ + label@,
            ),
    {
        match saved {
            Err(error) => text::join2("Reload theme catalog failed: ", error.as_str()),
            Ok(()) => {
                self.bump_theme();
                text::join2("Theme catalog hot reloaded · ", label)
            },
        }
    }

    /// Whether committing these settings has to write the output window's policy first.
    pub fn canvas_changes_window_policy(&self, canvas: CanvasSettings) -> (result: bool)
        ensures
            result == (canvas.decorations != self.canvas.decorations),
    {
        canvas.decorations != self.canvas.decorations
    }

    /// Takes over canvas settings once they were persisted. `policy` is what came of writing
    /// the output window's policy, `saved` what came of saving the settings after it.
    pub fn commit_canvas(
        &mut self,
        canvas: CanvasSettings,
        message: String,
        policy: Result<(), String>,
        saved: Result<(), String>,
    ) -> (outcome: CanvasCommit)
        ensures
            ({
                let changes = canvas.decorations != old(self).canvas.decorations;
                if changes && policy is Err {
                    &&& *final(self) == *old(self)
                    &&& outcome.status@ == "Update output window policy failed: "@ + policy->Err_0@
                    &&& !outcome.restore_policy
                } else {
                    match saved {
                        Err(error) => {
                            &&& *final(self) == *old(self)
                            &&& outcome.status@ == "Update canvas settings failed: "@ + error@
                            &&& outcome.restore_policy == changes
                        },
                        Ok(()) => {
                            &&& *final(self) == (Workspace { canvas, ..*old(self) })
                            &&& outcome.status == message
                            &&& !outcome.restore_policy
                        },
                    }
                }
            }),
    {
        let changes = self.canvas_changes_window_policy(canvas);
        if changes {
            match policy {
                Err(error) => {
                    return CanvasCommit {
                        status: text::join2("Update output window policy failed: ", error.as_str()),
                        restore_policy: false,
                    };
                },
                Ok(()) => {},
            }
        }
        match saved {
            Err(error) => CanvasCommit {
                status: text::join2("Update canvas settings failed: ", error.as_str()),
                restore_policy: changes,
            },
            Ok(()) => {
                self.canvas = canvas;
                CanvasCommit { status: message, restore_policy: false }
            },
        }
    }

    /// The settings with the snapping switched over, and how people are told.
    pub fn toggle_snap(&self) -> (out: (CanvasSettings, String))
        ensures
            out.0 == (CanvasSettings { snap_enabled: !self.canvas.snap_enabled, ..self.canvas }),
            out.1@ == (if !self.canvas.snap_enabled {
                "Snapping enabled · "@ + text::decimal_text(self.canvas.snap_grid as nat)
                    + "px grid"@
            } else {
                "Snapping disabled"@
            }),
    {
        let mut canvas = self.canvas;
        canvas.snap_enabled = !canvas.snap_enabled;
        let status = if canvas.snap_enabled {
            text::join3(
                "Snapping enabled · ",
                text::decimal(canvas.snap_grid as u64).as_str(),
                "px grid",
            )
        } else {
            "Snapping disabled".to_owned()
        };
        (canvas, status)
    }

    /// The settings with the output frame switched over, and how people are told; `label`
    /// names the policy that results.
    pub fn toggle_output_decorations(&self, native_label: &str, custom_label: &str) -> (out: (
        CanvasSettings,
        String,
    ))
        ensures
            out.0 == (CanvasSettings {
                decorations: match self.canvas.decorations {
                    OutputDecorations::Native => OutputDecorations::Custom,
                    OutputDecorations::Custom => OutputDecorations::Native,
                },
                ..self.canvas
            }),
            out.1@ == (match out.0.decorations {
                OutputDecorations::Native => native_label@,
                OutputDecorations::Custom => custom_label@,
            }) + " · output policy and embedded shell preview updated"@,
    {
        let mut canvas = self.canvas;
        let label = match canvas.decorations {
            OutputDecorations::Native => {
                canvas.decorations = OutputDecorations::Custom;
                custom_label
            },
            OutputDecorations::Custom => {
                canvas.decorations = OutputDecorations::Native;
                native_label
            },
        };
        (canvas, text::join2(label, " · output policy and embedded shell preview updated"))
    }

    /// The settings with another viewport, and how people are told.
    pub fn select_viewport(&self, preset: ViewportPreset, label: &str) -> (out: (
        CanvasSettings,
        String,
    ))
        ensures
            out.0 == (CanvasSettings { preset, ..self.canvas }),
            out.1@ == label@ + " viewport selected"@,
    {
        let mut canvas = self.canvas;
        canvas.preset = preset;
        (canvas, text::join2(label, " viewport selected"))
    }
}

/// What came of committing canvas settings.
#[derive(Debug)]
pub struct CanvasCommit {
    /// How people are told.
    pub status: String,
    /// Whether the previous window policy has to be written back.
    pub restore_policy: bool,
}

/// How people are told of a zoom.
pub fn zoom_status(zoom_percent: u16) -> (out: String)
    ensures
        out@ == "Canvas zoom "@ + text::decimal_text(zoom_percent as nat) + "%"@,
{
    text::join3("Canvas zoom ", text::decimal(zoom_percent as u64).as_str(), "%")
}

/// How people are told of a fit.
pub fn fit_status(zoom_percent: u16) -> (out: String)
    ensures
        out@ == "Canvas fitted at "@ + text::decimal_text(zoom_percent as nat) + "%"@,
{
    text::join3("Canvas fitted at ", text::decimal(zoom_percent as u64).as_str(), "%")
}

/// How people are told of a rotation.
pub fn rotation_status(quarter_turns: u8) -> (out: String)
    ensures
        out@ == "Viewport rotated "@ + text::decimal_text((quarter_turns * 90) as nat) + "°"@,
{
    text::join3("Viewport rotated ", text::decimal(quarter_turns as u64 * 90).as_str(), "°")
}

/// The revision label, given the live revision.
pub open spec fn revision_label_text(revision: Option<u64>) -> Seq<char> {
    (match revision {
            None => "REV —"@,
            Some(revision) => "REV "@ + text::decimal_text(revision as nat),
        })
}

/// The revision label, given the live revision.
pub fn revision_label(revision: Option<u64>) -> (out: String)
    ensures
        out@ == revision_label_text(revision),
{
    match revision {
        None => "REV —".to_owned(),
        Some(revision) => text::join2("REV ", text::decimal(revision).as_str()),
    }
}

/// Whether the live document is saved, given whether it differs from the disk.
pub open spec fn dirty_label_text(dirty: Option<bool>) -> Seq<char> {
    (match dirty {
            None => "NO DOCUMENT"@,
            Some(true) => "UNSAVED PREVIEW"@,
            Some(false) => "SAVED"@,
        })
}

/// Whether the live document is saved, given whether it differs from the disk.
pub fn dirty_label(dirty: Option<bool>) -> (out: String)
    ensures
        out@ == dirty_label_text(dirty),
{
    match dirty {
        None => "NO DOCUMENT".to_owned(),
        Some(dirty) => if dirty {
            "UNSAVED PREVIEW".to_owned()
        } else {
            "SAVED".to_owned()
        },
    }
}

/// The selected element's tag, from its source tag or else its native kind.
pub open spec fn selection_element_tag_text(html_tag: Option<String>, gpui_kind: Option<String>) -> Seq<char> {
    "<"@ + (match (html_tag, gpui_kind) {
            (Some(tag), _) => tag@,
            (None, Some(kind)) => kind@,
            (None, None) => "element"@,
        }) + ">"@
}

/// The selected element's tag, from its source tag or else its native kind.
pub fn selection_element_tag(html_tag: Option<String>, gpui_kind: Option<String>) -> (out:
    String)
    ensures
        out@ == selection_element_tag_text(html_tag, gpui_kind),
{
    let tag = match (html_tag, gpui_kind) {
        (Some(tag), _) => tag,
        (None, Some(kind)) => kind,
        (None, None) => "element".to_owned(),
    };
    text::join3("<", tag.as_str(), ">")
}

/// How many resources are published.
pub open spec fn annotation_count_label_text(resources: nat) -> Seq<char> {
    "MCP · "@ + text::decimal_text(resources) + " resources"@
}

/// How many resources are published.
pub fn annotation_count_label(resources: usize) -> (out: String)
    ensures
        out@ == annotation_count_label_text(resources as nat),
{
    text::join3("MCP · ", text::decimal(resources as u64).as_str(), " resources")
}

// ---------------------------------------------------------------------------
// Component dialog
// ---------------------------------------------------------------------------

impl ComponentDialog {
    /// Whether the dialog is open.
    pub fn component_dialog_visible(&self) -> (result: bool)
        ensures
            result == (self.open),
    {
        self.open
    }

    /// Whether the new component is authored as HTML.
    pub fn component_html_selected(&self) -> (result: bool)
        ensures
            result == (self.authoring == AuthoringBackend::Html),
    {
        self.authoring == AuthoringBackend::Html
    }

    /// Whether the new component is authored as GPUI.
    pub fn component_gpui_selected(&self) -> (result: bool)
        ensures
            result == (self.authoring == AuthoringBackend::Gpui),
    {
        self.authoring == AuthoringBackend::Gpui
    }

    /// Whether the new component is made from this source.
    pub fn component_selection_selected(&self) -> (result: bool)
        ensures
            result == (self.source == ComponentSource::Selection),
    {
        self.source == ComponentSource::Selection
    }

    /// Whether the new component is made from this source.
    pub fn component_blank_selected(&self) -> (result: bool)
        ensures
            result == (self.source == ComponentSource::Blank),
    {
        self.source == ComponentSource::Blank
    }

    /// Whether the new component is made from this source.
    pub fn component_paste_html_selected(&self) -> (result: bool)
        ensures
            result == (self.source == ComponentSource::PasteHtml),
    {
        self.source == ComponentSource::PasteHtml
    }

    /// Whether the new component is made from this source.
    pub fn component_titlebar_selected(&self) -> (result: bool)
        ensures
            result == (self.source == ComponentSource::Titlebar),
    {
        self.source == ComponentSource::Titlebar
    }

    /// Whether the new component is made from this preset.
    pub fn component_preset_selected(&self, preset: ComponentPreset) -> (result: bool)
        ensures
            result == (self.source == ComponentSource::Preset && self.preset == preset),
    {
        self.source == ComponentSource::Preset && self.preset == preset
    }

    /// Closes the dialog.
    pub fn close_component_dialog(&mut self)
        ensures
            *final(self) == (ComponentDialog {
                open: false,
                ..*old(self)
            }),
    {
        self.open = false;
    }

    /// Authors the new component as HTML.
    pub fn select_component_html(&mut self)
        ensures
            *final(self) == (ComponentDialog {
                authoring: AuthoringBackend::Html,
                ..*old(self)
            }),
    {
        self.authoring = AuthoringBackend::Html;
    }

    /// Authors the new component as GPUI.
    pub fn select_component_gpui(&mut self)
        ensures
            *final(self) == (ComponentDialog {
                authoring: AuthoringBackend::Gpui,
                ..*old(self)
            }),
    {
        self.authoring = AuthoringBackend::Gpui;
    }

    /// Makes the new component from the selection.
    pub fn select_component_selection(&mut self)
        ensures
            *final(self) == (ComponentDialog {
                source: ComponentSource::Selection,
                ..*old(self)
            }),
    {
        self.source = ComponentSource::Selection;
    }

    /// Makes the new component blank.
    pub fn select_component_blank(&mut self)
        ensures
            *final(self) == (ComponentDialog {
                source: ComponentSource::Blank,
                ..*old(self)
            }),
    {
        self.source = ComponentSource::Blank;
    }

    /// Makes the new component from pasted HTML.
    pub fn select_component_paste_html(&mut self)
        ensures
            *final(self) == (ComponentDialog {
                source: ComponentSource::PasteHtml,
                ..*old(self)
            }),
    {
        self.source = ComponentSource::PasteHtml;
    }

    /// Opens the dialog for the selected element, whose type-like name is proposed.
    pub fn open_component_dialog(&mut self, selection_heading: &str, backend: AuthoringBackend)
        ensures
            final(self).open,
            final(self).name@ == selection_heading@,
            final(self).props@ == "title: String, active: bool"@,
            final(self).authoring == backend,
            final(self).source == ComponentSource::Selection,
            final(self).preset == old(self).preset,
    {
        self.name = selection_heading.to_owned();
        self.props = "title: String, active: bool".to_owned();
        self.authoring = backend;
        self.source = ComponentSource::Selection;
        self.open = true;
    }

    /// Makes the new component a titlebar; a name that people did not type becomes
    /// "AppTitlebar".
    pub fn select_component_titlebar(&mut self, selection_heading: &str)
        ensures
            *final(self) == (ComponentDialog {
                source: ComponentSource::Titlebar,
                name: final(self).name,
                ..*old(self)
            }),
            final(self).name@ == (if text::trimmed(old(self).name@).len() == 0 || old(self).name@
                == selection_heading@ {
                "AppTitlebar"@
            } else {
                old(self).name@
            }),
    {
        self.source = ComponentSource::Titlebar;
        if text::trim(self.name.as_str()).unicode_len() == 0 || text::same_text(
            self.name.as_str(),
            selection_heading,
        ) {
            self.name = "AppTitlebar".to_owned();
        }
    }

    /// Makes the new component a preset, named after its label without spaces and without
    /// properties.
    pub fn select_component_preset(
        &mut self,
        preset: ComponentPreset,
        label: &str,
        description: &str,
    ) -> (status: String)
        ensures
            *final(self) == (ComponentDialog {
                source: ComponentSource::Preset,
                preset,
                name: final(self).name,
                props: final(self).props,
                ..*old(self)
            }),
            final(self).name@ == without_spaces(label@),
            final(self).props@.len() == 0,
            status@ == label@ + " preset selected · "@ + description@,
    {
        self.source = ComponentSource::Preset;
        self.preset = preset;
        self.name = drop_spaces(label);
        self.props = String::new();
        text::join3(label, " preset selected · ", description)
    }

    /// The name for the new component, where it has 1 to 256 bytes after trimming.
    pub open spec fn valid_name(&self) -> Option<Seq<char>> {
        let name = text::trimmed(self.name@);
        if name.len() > 0 && text::byte_len(name) <= 256 {
            Some(name)
        } else {
            None
        }
    }

    /// The name for the new component, where it has 1 to 256 bytes after trimming.
    pub fn valid_component_name(&self) -> (out: Option<String>)
        ensures
            text::text_view(out) == self.valid_name(),
    {
        let name = text::trim(self.name.as_str());
        if name.unicode_len() > 0 && text::bytes_in(name) <= 256 {
            Some(name.to_owned())
        } else {
            None
        }
    }
}

/// The text without its spaces.
pub open spec fn without_spaces(s: Seq<char>) -> Seq<char>
    decreases s.len(),
{
    if s.len() == 0 {
        s
    } else if s.last() == ' ' {
        without_spaces(s.drop_last())
    } else {
        without_spaces(s.drop_last()).push(s.last())
    }
}

fn drop_spaces(s: &str) -> (out: String)
    ensures
        out@ == without_spaces(s@),
{
    let cs = text::chars_of(s);
    let mut out = String::new();
    let mut i: usize = 0;
    while i < cs.len()
        invariant
            i <= cs.len(),
            cs@ == s@,
            out@ == without_spaces(s@.take(i as int)),
        decreases cs.len() - i,
    {
        proof {
            assert(s@.take(i as int + 1).drop_last() =~= s@.take(i as int));
            assert(s@.take(i as int + 1).last() == s@[i as int]);
        }
        if cs[i] != ' ' {
            out.push(cs[i]);
        }
        i += 1;
    }
    proof {
        assert(s@.take(i as int) =~= s@);
    }
    out
}

// ---------------------------------------------------------------------------
// Review editor
// ---------------------------------------------------------------------------

impl Review {
    /// Whether the annotation editor is open.
    pub fn annotation_popover_visible(&self) -> (result: bool)
        ensures
            result == (self.popover_open),
    {
        self.popover_open
    }

    /// Whether the annotation in the editor is persisted.
    pub fn annotation_has_saved_comment(&self) -> (result: bool)
        ensures
            result == (self.active is Some),
    {
        self.active.is_some()
    }

    /// Whether there is anything to hand off.
    pub fn send_annotations_visible(&self) -> (result: bool)
        ensures
            result == (annotations::active_of(self.annotations@.annotations).len() > 0),
    {
        self.annotations.has_sendable()
    }

    /// The heading of the annotation editor.
    pub open spec fn annotation_title_text(&self) -> Seq<char> {
        (match self.active {
                None => "New annotation"@,
                Some(id) => "Annotation "@ + identifiers::annotation_number_of(id@),
            })
    }

    /// The heading of the annotation editor.
    pub fn annotation_title(&self) -> (out: String)
        ensures
            out@ == self.annotation_title_text(),
    {
        match &self.active {
            None => "New annotation".to_owned(),
            Some(id) => text::join2(
                "Annotation ",
                identifiers::annotation_number(id.as_str()).as_str(),
            ),
        }
    }

    /// The annotation in the editor, where it is persisted.
    pub open spec fn edited_annotation(&self) -> Option<annotations::AnnotationView> {
        match self.active {
            None => None,
            Some(id) => match self.annotations@.position(id@) {
                Some(i) => Some(self.annotations@.annotations[i]),
                None => None,
            },
        }
    }

    fn find_edited_annotation(&self) -> (out: Option<usize>)
        ensures
            match self.edited_annotation() {
                Some(annotation) => out is Some && out->0 < self.annotations.annotations.len()
                    && self.annotations.annotations@[out->0 as int]@ == annotation,
                None => out is None,
            },
    {
        match &self.active {
            None => None,
            Some(id) => self.annotations.find(id.as_str()),
        }
    }

    /// The element that the annotation in the editor is about; the selected one where it is new.
    pub open spec fn annotation_target_label_text(&self, selected: Seq<char>) -> Seq<char> {
        "on "@ + identifiers::authored_name_of(
                match self.edited_annotation() {
                    Some(annotation) => annotation.target.authored_id,
                    None => selected,
                },
            )
    }

    /// The element that the annotation in the editor is about; the selected one where it is new.
    pub fn annotation_target_label(&self, selected: &str) -> (out: String)
        ensures
            out@ == self.annotation_target_label_text(selected@),
    {
        let authored_id = match self.find_edited_annotation() {
            Some(i) => self.annotations.annotations[i].target.authored_id.clone(),
            None => selected.to_owned(),
        };
        text::join2("on ", identifiers::authored_name(authored_id.as_str()).as_str())
    }

    /// Whether the annotation in the editor is persisted, and its state.
    pub open spec fn annotation_status_label_text(&self) -> Seq<char> {
        (match self.edited_annotation() {
                Some(annotation) => "Saved · "@ + status_name_text(annotation.status)
                    + " · Send to hand off"@,
                None => "Saved as you type"@,
            })
    }

    /// Whether the annotation in the editor is persisted, and its state.
    pub fn annotation_status_label(&self) -> (out: String)
        ensures
            out@ == self.annotation_status_label_text(),
    {
        match self.find_edited_annotation() {
            Some(i) => text::join3(
                "Saved · ",
                status_name(self.annotations.annotations[i].status),
                " · Send to hand off",
            ),
            None => "Saved as you type".to_owned(),
        }
    }

    /// How many annotations a handoff sends.
    pub open spec fn send_annotations_label_text(&self) -> Seq<char> {
        "Send "@ + text::decimal_text(
                annotations::count_of(self.annotations@.annotations, AnnotationStatus::Open)
                    + annotations::count_of(
                    self.annotations@.annotations,
                    AnnotationStatus::InProgress,
                ),
            )
    }

    /// How many annotations a handoff sends.
    pub fn send_annotations_label(&self) -> (out: String)
        ensures
            out@ == self.send_annotations_label_text(),
    {
        text::join2("Send ", text::decimal(self.annotations.counts().active as u64).as_str())
    }
}

/// Every space goes and everything else stays, in order.
pub proof fn law_only_spaces_go(s: Seq<char>)
    ensures
        without_spaces(s) == s.filter(|c: char| c != ' '),
    decreases s.len(),
{
    reveal(Seq::filter);
    if s.len() > 0 {
        law_only_spaces_go(s.drop_last());
    }
}

/// Each mode has its word.
pub proof fn law_modes_are_named(x: StudioMode)
    ensures
        x is Design ==> mode_word_text(x) == "design"@,
        x is Test ==> mode_word_text(x) == "test"@,
        x is Compare ==> mode_word_text(x) == "compare"@,
        x is Move ==> mode_word_text(x) == "move"@,
        x is Source ==> mode_word_text(x) == "source"@,
{
}

/// Each page of the inspector has its word.
pub proof fn law_pages_are_named(x: InspectorTab)
    ensures
        x is Layout ==> tab_word_text(x) == "layout"@,
        x is Style ==> tab_word_text(x) == "style"@,
        x is Logic ==> tab_word_text(x) == "logic"@,
{
}

/// Each review state has its name.
pub proof fn law_states_are_named(x: AnnotationStatus)
    ensures
        x is Open ==> status_name_text(x) == "Open"@,
        x is InProgress ==> status_name_text(x) == "InProgress"@,
        x is Done ==> status_name_text(x) == "Done"@,
        x is Archived ==> status_name_text(x) == "Archived"@,
{
}

/// Each projection has its word.
pub proof fn law_projections_are_named(x: AuthoringBackend)
    ensures
        x is Html ==> backend_word_text(x) == "html"@,
        x is Gpui ==> backend_word_text(x) == "gpui"@,
{
}

} // verus!
