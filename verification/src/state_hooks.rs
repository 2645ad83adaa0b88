//! The values that the shell's markup reads and writes: their IDs and what each one is.
use vstd::prelude::*;

use crate::annotations;
use crate::annotations::AnnotationStatus;
use crate::components::{
    NativeAlign, NativeConstraint, NativeNode, NativeOverflow, NativePosition, NativeSize,
    NativeWrap,
};
use crate::definitions::DefinitionDraftField;
use crate::edit_session::StudioInspectorDraftField;
use crate::identifiers;
use crate::inspector;
use crate::inspector::{
    InspectorAlignmentAxis, InspectorLayoutChoice, InspectorSizeAxis, InspectorValueField,
};
use crate::overlays;
use crate::overlays::{PositionLabels, RectLabels};
use crate::panels;
use crate::presets;
use crate::presets::ComponentPreset;
use crate::resources;
use crate::stub::PresetText;
use crate::studio::{
    Authoring, AuthoringBackend, CollapsedLayers, ComponentDialog, ComponentSource, DockTab,
    HorizontalConstraint, InspectorTab, Panels, PendingEdits, Review, StudioMode, StudioState,
    Workspace,
};
use crate::text;

verus! {

// ---------------------------------------------------------------------------
// Texts
// ---------------------------------------------------------------------------

/// What is known of the live page, window and settings while values are read.
#[derive(Debug)]
pub struct LiveLabels {
    pub project_path: String,
    pub revision: Option<u64>,
    /// Whether the live document differs from the saved one.
    pub dirty: Option<bool>,
    /// The selected element's source tag.
    pub html_tag: Option<String>,
    /// The selected element's native kind.
    pub gpui_kind: Option<String>,
    /// Where the selection is painted in the window.
    pub rect: Option<RectLabels>,
    /// Where the selection is painted within the canvas, or else the app window; absent where
    /// it is not painted or neither of those is.
    pub position: Option<PositionLabels>,
    pub theme: String,
    pub viewport: String,
    pub zoom: String,
    /// The chosen preset.
    pub preset: PresetText,
    /// The source that the inspector shows.
    pub code: String,
}

impl LiveLabels {
    /// Where the selection is painted.
    pub open spec fn painted(&self) -> Option<&RectLabels> {
        match self.rect {
            Some(rect) => Some(&rect),
            None => None,
        }
    }
}

/// The texts that markup reads.
#[derive(Clone, Copy, Debug, PartialEq, Eq, Structural)]
pub enum TextHook {
    StudioStatus,
    ProjectPath,
    RevisionLabel,
    DirtyLabel,
    ModeLabel,
    BackendLabel,
    ComponentSummary,
    ActiveComponentName,
    SelectionLabel,
    SelectionRuntimeId,
    SelectionHeading,
    SelectionElementTag,
    SelectionWidth,
    SelectionHeight,
    SelectionX,
    SelectionY,
    SelectionRotation,
    SelectionGrid,
    SelectionSize,
    SelectionRect,
    AnnotationCount,
    AnnotationTitle,
    AnnotationTarget,
    AnnotationStatus,
    SendAnnotationsLabel,
    ThemeLabel,
    ViewportLabel,
    DecorationsLabel,
    SnapLabel,
    DockToggleLabel,
    WelcomeDisclosure,
    HeaderDisclosure,
    WelcomeCopyDisclosure,
    FeatureCardsDisclosure,
    WelcomeLowerDisclosure,
    ComponentRootDisclosure,
    ComponentStub,
    CssExcerpt,
    ZoomLabel,
    SlotCapacityLabel,
}

impl TextHook {
    /// The ID under which markup reads the text.
    pub open spec fn id_text(self) -> Seq<char> {
        match self {
            TextHook::StudioStatus => "studio_status"@,
            TextHook::ProjectPath => "project_path"@,
            TextHook::RevisionLabel => "revision_label"@,
            TextHook::DirtyLabel => "dirty_label"@,
            TextHook::ModeLabel => "mode_label"@,
            TextHook::BackendLabel => "backend_label"@,
            TextHook::ComponentSummary => "component_summary"@,
            TextHook::ActiveComponentName => "active_component_name"@,
            TextHook::SelectionLabel => "selection_label"@,
            TextHook::SelectionRuntimeId => "selection_runtime_id"@,
            TextHook::SelectionHeading => "selection_heading"@,
            TextHook::SelectionElementTag => "selection_element_tag"@,
            TextHook::SelectionWidth => "selection_width"@,
            TextHook::SelectionHeight => "selection_height"@,
            TextHook::SelectionX => "selection_x"@,
            TextHook::SelectionY => "selection_y"@,
            TextHook::SelectionRotation => "selection_rotation"@,
            TextHook::SelectionGrid => "selection_grid"@,
            TextHook::SelectionSize => "selection_size"@,
            TextHook::SelectionRect => "selection_rect"@,
            TextHook::AnnotationCount => "annotation_count"@,
            TextHook::AnnotationTitle => "annotation_title"@,
            TextHook::AnnotationTarget => "annotation_target"@,
            TextHook::AnnotationStatus => "annotation_status"@,
            TextHook::SendAnnotationsLabel => "send_annotations_label"@,
            TextHook::ThemeLabel => "theme_label"@,
            TextHook::ViewportLabel => "viewport_label"@,
            TextHook::DecorationsLabel => "decorations_label"@,
            TextHook::SnapLabel => "snap_label"@,
            TextHook::DockToggleLabel => "dock_toggle_label"@,
            TextHook::WelcomeDisclosure => "welcome_disclosure"@,
            TextHook::HeaderDisclosure => "header_disclosure"@,
            TextHook::WelcomeCopyDisclosure => "welcome_copy_disclosure"@,
            TextHook::FeatureCardsDisclosure => "feature_cards_disclosure"@,
            TextHook::WelcomeLowerDisclosure => "welcome_lower_disclosure"@,
            TextHook::ComponentRootDisclosure => "component_root_disclosure"@,
            TextHook::ComponentStub => "component_stub"@,
            TextHook::CssExcerpt => "css_excerpt"@,
            TextHook::ZoomLabel => "zoom_label"@,
            TextHook::SlotCapacityLabel => "slot_capacity_label"@,
        }
    }

    /// The ID under which markup reads the text.
    pub fn id(self) -> (out: &'static str)
        ensures
            out@ == self.id_text(),
    {
        match self {
            TextHook::StudioStatus => "studio_status",
            TextHook::ProjectPath => "project_path",
            TextHook::RevisionLabel => "revision_label",
            TextHook::DirtyLabel => "dirty_label",
            TextHook::ModeLabel => "mode_label",
            TextHook::BackendLabel => "backend_label",
            TextHook::ComponentSummary => "component_summary",
            TextHook::ActiveComponentName => "active_component_name",
            TextHook::SelectionLabel => "selection_label",
            TextHook::SelectionRuntimeId => "selection_runtime_id",
            TextHook::SelectionHeading => "selection_heading",
            TextHook::SelectionElementTag => "selection_element_tag",
            TextHook::SelectionWidth => "selection_width",
            TextHook::SelectionHeight => "selection_height",
            TextHook::SelectionX => "selection_x",
            TextHook::SelectionY => "selection_y",
            TextHook::SelectionRotation => "selection_rotation",
            TextHook::SelectionGrid => "selection_grid",
            TextHook::SelectionSize => "selection_size",
            TextHook::SelectionRect => "selection_rect",
            TextHook::AnnotationCount => "annotation_count",
            TextHook::AnnotationTitle => "annotation_title",
            TextHook::AnnotationTarget => "annotation_target",
            TextHook::AnnotationStatus => "annotation_status",
            TextHook::SendAnnotationsLabel => "send_annotations_label",
            TextHook::ThemeLabel => "theme_label",
            TextHook::ViewportLabel => "viewport_label",
            TextHook::DecorationsLabel => "decorations_label",
            TextHook::SnapLabel => "snap_label",
            TextHook::DockToggleLabel => "dock_toggle_label",
            TextHook::WelcomeDisclosure => "welcome_disclosure",
            TextHook::HeaderDisclosure => "header_disclosure",
            TextHook::WelcomeCopyDisclosure => "welcome_copy_disclosure",
            TextHook::FeatureCardsDisclosure => "feature_cards_disclosure",
            TextHook::WelcomeLowerDisclosure => "welcome_lower_disclosure",
            TextHook::ComponentRootDisclosure => "component_root_disclosure",
            TextHook::ComponentStub => "component_stub",
            TextHook::CssExcerpt => "css_excerpt",
            TextHook::ZoomLabel => "zoom_label",
            TextHook::SlotCapacityLabel => "slot_capacity_label",
        }
    }
}

/// Every one of them, in the order of registration.
pub open spec fn text_hooks_order() -> Seq<TextHook> {
    seq![
        TextHook::StudioStatus,
        TextHook::ProjectPath,
        TextHook::RevisionLabel,
        TextHook::DirtyLabel,
        TextHook::ModeLabel,
        TextHook::BackendLabel,
        TextHook::ComponentSummary,
        TextHook::ActiveComponentName,
        TextHook::SelectionLabel,
        TextHook::SelectionRuntimeId,
        TextHook::SelectionHeading,
        TextHook::SelectionElementTag,
        TextHook::SelectionWidth,
        TextHook::SelectionHeight,
        TextHook::SelectionX,
        TextHook::SelectionY,
        TextHook::SelectionRotation,
        TextHook::SelectionGrid,
        TextHook::SelectionSize,
        TextHook::SelectionRect,
        TextHook::AnnotationCount,
        TextHook::AnnotationTitle,
        TextHook::AnnotationTarget,
        TextHook::AnnotationStatus,
        TextHook::SendAnnotationsLabel,
        TextHook::ThemeLabel,
        TextHook::ViewportLabel,
        TextHook::DecorationsLabel,
        TextHook::SnapLabel,
        TextHook::DockToggleLabel,
        TextHook::WelcomeDisclosure,
        TextHook::HeaderDisclosure,
        TextHook::WelcomeCopyDisclosure,
        TextHook::FeatureCardsDisclosure,
        TextHook::WelcomeLowerDisclosure,
        TextHook::ComponentRootDisclosure,
        TextHook::ComponentStub,
        TextHook::CssExcerpt,
        TextHook::ZoomLabel,
        TextHook::SlotCapacityLabel,
    ]
}

/// Every one of them, in the order of registration.
pub fn text_hooks() -> (out: Vec<TextHook>)
    ensures
        out@ == text_hooks_order(),
{
    let out: Vec<TextHook> = vec![
        TextHook::StudioStatus,
        TextHook::ProjectPath,
        TextHook::RevisionLabel,
        TextHook::DirtyLabel,
        TextHook::ModeLabel,
        TextHook::BackendLabel,
        TextHook::ComponentSummary,
        TextHook::ActiveComponentName,
        TextHook::SelectionLabel,
        TextHook::SelectionRuntimeId,
        TextHook::SelectionHeading,
        TextHook::SelectionElementTag,
        TextHook::SelectionWidth,
        TextHook::SelectionHeight,
        TextHook::SelectionX,
        TextHook::SelectionY,
        TextHook::SelectionRotation,
        TextHook::SelectionGrid,
        TextHook::SelectionSize,
        TextHook::SelectionRect,
        TextHook::AnnotationCount,
        TextHook::AnnotationTitle,
        TextHook::AnnotationTarget,
        TextHook::AnnotationStatus,
        TextHook::SendAnnotationsLabel,
        TextHook::ThemeLabel,
        TextHook::ViewportLabel,
        TextHook::DecorationsLabel,
        TextHook::SnapLabel,
        TextHook::DockToggleLabel,
        TextHook::WelcomeDisclosure,
        TextHook::HeaderDisclosure,
        TextHook::WelcomeCopyDisclosure,
        TextHook::FeatureCardsDisclosure,
        TextHook::WelcomeLowerDisclosure,
        TextHook::ComponentRootDisclosure,
        TextHook::ComponentStub,
        TextHook::CssExcerpt,
        TextHook::ZoomLabel,
        TextHook::SlotCapacityLabel,
    ];
    proof {
        assert(out@ =~= text_hooks_order());
    }
    out
}

impl StudioState {
    /// What a text reads as.
    pub open spec fn text_of(&self, hook: TextHook, live: LiveLabels) -> Seq<char> {
        match hook {
            TextHook::StudioStatus => self.status@,
            TextHook::ProjectPath => live.project_path@,
            TextHook::RevisionLabel => panels::revision_label_text(live.revision),
            TextHook::DirtyLabel => panels::dirty_label_text(live.dirty),
            TextHook::ModeLabel => panels::mode_heading_text(self.workspace.mode),
            TextHook::BackendLabel => self.workspace.backend_label_text(),
            TextHook::ComponentSummary => self.authoring.component_summary_text(),
            TextHook::ActiveComponentName => self.authoring.active_component_name_text(),
            TextHook::SelectionLabel => "#"@ + self.authoring.selection@.authored_id,
            TextHook::SelectionRuntimeId => self.authoring.selection@.runtime_id,
            TextHook::SelectionHeading => identifiers::authored_name_of(self.authoring.selection@.authored_id),
            TextHook::SelectionElementTag => panels::selection_element_tag_text(live.html_tag, live.gpui_kind),
            TextHook::SelectionWidth => overlays::painted_number_text(match live.rect {
                Some(rect) => Some(&rect.width),
                None => None,
            }),
            TextHook::SelectionHeight => overlays::painted_number_text(match live.rect {
                Some(rect) => Some(&rect.height),
                None => None,
            }),
            TextHook::SelectionX => overlays::painted_number_text(match live.position {
                Some(position) => Some(&position.x),
                None => None,
            }),
            TextHook::SelectionY => overlays::painted_number_text(match live.position {
                Some(position) => Some(&position.y),
                None => None,
            }),
            TextHook::SelectionRotation => "0°"@,
            TextHook::SelectionGrid => self.workspace.selection_grid_label_text(),
            TextHook::SelectionSize => overlays::selection_size_label_text(live.painted()),
            TextHook::SelectionRect => overlays::selection_rect_label_text(live.painted()),
            TextHook::AnnotationCount => panels::annotation_count_label_text(resources::resource_uris().len()),
            TextHook::AnnotationTitle => self.review.annotation_title_text(),
            TextHook::AnnotationTarget => self.review.annotation_target_label_text(self.authoring.selection@.authored_id),
            TextHook::AnnotationStatus => self.review.annotation_status_label_text(),
            TextHook::SendAnnotationsLabel => self.review.send_annotations_label_text(),
            TextHook::ThemeLabel => live.theme@,
            TextHook::ViewportLabel => live.viewport@,
            TextHook::DecorationsLabel => self.workspace.decorations_label_text(),
            TextHook::SnapLabel => self.workspace.snap_label_text(),
            TextHook::DockToggleLabel => self.panels.dock_toggle_label_text(),
            TextHook::WelcomeDisclosure => panels::disclosure_text(self.layers.welcome),
            TextHook::HeaderDisclosure => panels::disclosure_text(self.layers.header),
            TextHook::WelcomeCopyDisclosure => panels::disclosure_text(self.layers.welcome_copy),
            TextHook::FeatureCardsDisclosure => panels::disclosure_text(self.layers.feature_cards),
            TextHook::WelcomeLowerDisclosure => panels::disclosure_text(self.layers.welcome_lower),
            TextHook::ComponentRootDisclosure => panels::disclosure_text(self.layers.component_tree),
            TextHook::ComponentStub => self.dialog.stub_text(
                identifiers::authored_name_of(self.authoring.selection@.authored_id),
                live.preset,
            ),
            TextHook::CssExcerpt => live.code@,
            TextHook::ZoomLabel => live.zoom@,
            TextHook::SlotCapacityLabel => self.drafts.slot_capacity_label_text(),
        }
    }

    /// Reads a text.
    pub fn read_text(&self, hook: TextHook, live: &LiveLabels) -> (out: String)
        ensures
            out@ == self.text_of(hook, *live),
    {
        match hook {
            TextHook::StudioStatus => self.status.clone(),
            TextHook::ProjectPath => live.project_path.clone(),
            TextHook::RevisionLabel => panels::revision_label(live.revision),
            TextHook::DirtyLabel => panels::dirty_label(live.dirty),
            TextHook::ModeLabel => self.workspace.mode_label(),
            TextHook::BackendLabel => self.workspace.backend_label(),
            TextHook::ComponentSummary => self.authoring.component_summary(),
            TextHook::ActiveComponentName => self.authoring.active_component_name(),
            TextHook::SelectionLabel => self.authoring.selection_label(),
            TextHook::SelectionRuntimeId => self.authoring.selection_runtime_id(),
            TextHook::SelectionHeading => self.authoring.selection_heading(),
            TextHook::SelectionElementTag => panels::selection_element_tag(live.html_tag.clone(), live.gpui_kind.clone()),
            TextHook::SelectionWidth => overlays::painted_number(match &live.rect {
                Some(rect) => Some(&rect.width),
                None => None,
            }),
            TextHook::SelectionHeight => overlays::painted_number(match &live.rect {
                Some(rect) => Some(&rect.height),
                None => None,
            }),
            TextHook::SelectionX => overlays::painted_number(match &live.position {
                Some(position) => Some(&position.x),
                None => None,
            }),
            TextHook::SelectionY => overlays::painted_number(match &live.position {
                Some(position) => Some(&position.y),
                None => None,
            }),
            TextHook::SelectionRotation => "0°".to_owned(),
            TextHook::SelectionGrid => self.workspace.selection_grid_label(),
            TextHook::SelectionSize => overlays::selection_size_label(live.rect.as_ref()),
            TextHook::SelectionRect => overlays::selection_rect_label(live.rect.as_ref()),
            TextHook::AnnotationCount => panels::annotation_count_label(resources::studio_resource_uris().len()),
            TextHook::AnnotationTitle => self.review.annotation_title(),
            TextHook::AnnotationTarget => self.review.annotation_target_label(
                self.authoring.selection.authored_id.as_str(),
            ),
            TextHook::AnnotationStatus => self.review.annotation_status_label(),
            TextHook::SendAnnotationsLabel => self.review.send_annotations_label(),
            TextHook::ThemeLabel => live.theme.clone(),
            TextHook::ViewportLabel => live.viewport.clone(),
            TextHook::DecorationsLabel => self.workspace.decorations_label(),
            TextHook::SnapLabel => self.workspace.snap_label(),
            TextHook::DockToggleLabel => self.panels.dock_toggle_label(),
            TextHook::WelcomeDisclosure => self.layers.welcome_disclosure(),
            TextHook::HeaderDisclosure => self.layers.header_disclosure(),
            TextHook::WelcomeCopyDisclosure => self.layers.welcome_copy_disclosure(),
            TextHook::FeatureCardsDisclosure => self.layers.feature_cards_disclosure(),
            TextHook::WelcomeLowerDisclosure => self.layers.welcome_lower_disclosure(),
            TextHook::ComponentRootDisclosure => self.layers.component_root_disclosure(),
            TextHook::ComponentStub => self.dialog.component_stub(
                self.authoring.selection_heading().as_str(),
                &live.preset,
            ),
            TextHook::CssExcerpt => live.code.clone(),
            TextHook::ZoomLabel => live.zoom.clone(),
            TextHook::SlotCapacityLabel => self.drafts.slot_capacity_label(),
        }
    }
}

// ---------------------------------------------------------------------------
// Flags
// ---------------------------------------------------------------------------

/// The conditions on the switches of the panels and menus that markup reads.
#[derive(Clone, Copy, Debug, PartialEq, Eq, Structural)]
pub enum PanelFlag {
    LayersVisible,
    FilesVisible,
    ProjectMenuVisible,
    ViewportMenuVisible,
    InspectorLayoutVisible,
    InspectorStyleVisible,
    InspectorLogicVisible,
    ConstraintLeftSelected,
    ConstraintCenterSelected,
    ConstraintRightSelected,
    ConstraintScaleSelected,
    ConsoleVisible,
    StatesVisible,
    DockConsoleSelected,
    DockStatesSelected,
}

impl PanelFlag {
    /// The ID under which markup reads the condition.
    pub open spec fn id_text(self) -> Seq<char> {
        match self {
            PanelFlag::LayersVisible => "layers_visible"@,
            PanelFlag::FilesVisible => "files_visible"@,
            PanelFlag::ProjectMenuVisible => "project_menu_visible"@,
            PanelFlag::ViewportMenuVisible => "viewport_menu_visible"@,
            PanelFlag::InspectorLayoutVisible => "inspector_layout_visible"@,
            PanelFlag::InspectorStyleVisible => "inspector_style_visible"@,
            PanelFlag::InspectorLogicVisible => "inspector_logic_visible"@,
            PanelFlag::ConstraintLeftSelected => "constraint_left_selected"@,
            PanelFlag::ConstraintCenterSelected => "constraint_center_selected"@,
            PanelFlag::ConstraintRightSelected => "constraint_right_selected"@,
            PanelFlag::ConstraintScaleSelected => "constraint_scale_selected"@,
            PanelFlag::ConsoleVisible => "console_visible"@,
            PanelFlag::StatesVisible => "states_visible"@,
            PanelFlag::DockConsoleSelected => "dock_console_selected"@,
            PanelFlag::DockStatesSelected => "dock_states_selected"@,
        }
    }

    /// The ID under which markup reads the condition.
    pub fn id(self) -> (out: &'static str)
        ensures
            out@ == self.id_text(),
    {
        match self {
            PanelFlag::LayersVisible => "layers_visible",
            PanelFlag::FilesVisible => "files_visible",
            PanelFlag::ProjectMenuVisible => "project_menu_visible",
            PanelFlag::ViewportMenuVisible => "viewport_menu_visible",
            PanelFlag::InspectorLayoutVisible => "inspector_layout_visible",
            PanelFlag::InspectorStyleVisible => "inspector_style_visible",
            PanelFlag::InspectorLogicVisible => "inspector_logic_visible",
            PanelFlag::ConstraintLeftSelected => "constraint_left_selected",
            PanelFlag::ConstraintCenterSelected => "constraint_center_selected",
            PanelFlag::ConstraintRightSelected => "constraint_right_selected",
            PanelFlag::ConstraintScaleSelected => "constraint_scale_selected",
            PanelFlag::ConsoleVisible => "console_visible",
            PanelFlag::StatesVisible => "states_visible",
            PanelFlag::DockConsoleSelected => "dock_console_selected",
            PanelFlag::DockStatesSelected => "dock_states_selected",
        }
    }
}

impl Panels {
    /// Whether a condition holds.
    pub open spec fn panel_flag_of(&self, flag: PanelFlag) -> bool {
        match flag {
            PanelFlag::LayersVisible => !self.left_files_open,
            PanelFlag::FilesVisible => self.left_files_open,
            PanelFlag::ProjectMenuVisible => self.project_menu_open,
            PanelFlag::ViewportMenuVisible => self.viewport_menu_open,
            PanelFlag::InspectorLayoutVisible => self.inspector_tab == InspectorTab::Layout,
            PanelFlag::InspectorStyleVisible => self.inspector_tab == InspectorTab::Style,
            PanelFlag::InspectorLogicVisible => self.inspector_tab == InspectorTab::Logic,
            PanelFlag::ConstraintLeftSelected => self.horizontal_constraint == HorizontalConstraint::Left,
            PanelFlag::ConstraintCenterSelected => self.horizontal_constraint == HorizontalConstraint::Center,
            PanelFlag::ConstraintRightSelected => self.horizontal_constraint == HorizontalConstraint::Right,
            PanelFlag::ConstraintScaleSelected => self.horizontal_constraint == HorizontalConstraint::Scale,
            PanelFlag::ConsoleVisible => self.dock_tab == DockTab::Console && !self.dock_collapsed,
            PanelFlag::StatesVisible => self.dock_tab == DockTab::States && !self.dock_collapsed,
            PanelFlag::DockConsoleSelected => self.dock_tab == DockTab::Console,
            PanelFlag::DockStatesSelected => self.dock_tab == DockTab::States,
        }
    }

    /// Reads a condition.
    pub fn panel_flag(&self, flag: PanelFlag) -> (result: bool)
        ensures
            result == self.panel_flag_of(flag),
    {
        match flag {
            PanelFlag::LayersVisible => self.layers_visible(),
            PanelFlag::FilesVisible => self.files_visible(),
            PanelFlag::ProjectMenuVisible => self.project_menu_visible(),
            PanelFlag::ViewportMenuVisible => self.viewport_menu_visible(),
            PanelFlag::InspectorLayoutVisible => self.inspector_layout_visible(),
            PanelFlag::InspectorStyleVisible => self.inspector_style_visible(),
            PanelFlag::InspectorLogicVisible => self.inspector_logic_visible(),
            PanelFlag::ConstraintLeftSelected => self.constraint_left_selected(),
            PanelFlag::ConstraintCenterSelected => self.constraint_center_selected(),
            PanelFlag::ConstraintRightSelected => self.constraint_right_selected(),
            PanelFlag::ConstraintScaleSelected => self.constraint_scale_selected(),
            PanelFlag::ConsoleVisible => self.console_visible(),
            PanelFlag::StatesVisible => self.states_visible(),
            PanelFlag::DockConsoleSelected => self.dock_console_selected(),
            PanelFlag::DockStatesSelected => self.dock_states_selected(),
        }
    }
}

/// The conditions on the workspace settings that markup reads.
#[derive(Clone, Copy, Debug, PartialEq, Eq, Structural)]
pub enum WorkspaceFlag {
    BackendHtmlSelected,
    BackendGpuiSelected,
    ModeDesignSelected,
    ModeTestSelected,
    ModeCompareSelected,
    ToolSelectSelected,
    ToolMoveSelected,
    ToolAnnotateSelected,
    ViewDesignSelected,
    ViewPreviewSelected,
}

impl WorkspaceFlag {
    /// The ID under which markup reads the condition.
    pub open spec fn id_text(self) -> Seq<char> {
        match self {
            WorkspaceFlag::BackendHtmlSelected => "backend_html_selected"@,
            WorkspaceFlag::BackendGpuiSelected => "backend_gpui_selected"@,
            WorkspaceFlag::ModeDesignSelected => "mode_design_selected"@,
            WorkspaceFlag::ModeTestSelected => "mode_test_selected"@,
            WorkspaceFlag::ModeCompareSelected => "mode_compare_selected"@,
            WorkspaceFlag::ToolSelectSelected => "tool_select_selected"@,
            WorkspaceFlag::ToolMoveSelected => "tool_move_selected"@,
            WorkspaceFlag::ToolAnnotateSelected => "tool_annotate_selected"@,
            WorkspaceFlag::ViewDesignSelected => "view_design_selected"@,
            WorkspaceFlag::ViewPreviewSelected => "view_preview_selected"@,
        }
    }

    /// The ID under which markup reads the condition.
    pub fn id(self) -> (out: &'static str)
        ensures
            out@ == self.id_text(),
    {
        match self {
            WorkspaceFlag::BackendHtmlSelected => "backend_html_selected",
            WorkspaceFlag::BackendGpuiSelected => "backend_gpui_selected",
            WorkspaceFlag::ModeDesignSelected => "mode_design_selected",
            WorkspaceFlag::ModeTestSelected => "mode_test_selected",
            WorkspaceFlag::ModeCompareSelected => "mode_compare_selected",
            WorkspaceFlag::ToolSelectSelected => "tool_select_selected",
            WorkspaceFlag::ToolMoveSelected => "tool_move_selected",
            WorkspaceFlag::ToolAnnotateSelected => "tool_annotate_selected",
            WorkspaceFlag::ViewDesignSelected => "view_design_selected",
            WorkspaceFlag::ViewPreviewSelected => "view_preview_selected",
        }
    }
}

impl Workspace {
    /// Whether a condition holds.
    pub open spec fn workspace_flag_of(&self, flag: WorkspaceFlag) -> bool {
        match flag {
            WorkspaceFlag::BackendHtmlSelected => self.backend == AuthoringBackend::Html,
            WorkspaceFlag::BackendGpuiSelected => self.backend == AuthoringBackend::Gpui,
            WorkspaceFlag::ModeDesignSelected => self.mode == StudioMode::Design,
            WorkspaceFlag::ModeTestSelected => self.mode == StudioMode::Test,
            WorkspaceFlag::ModeCompareSelected => self.mode == StudioMode::Compare,
            WorkspaceFlag::ToolSelectSelected => self.mode == StudioMode::Design,
            WorkspaceFlag::ToolMoveSelected => self.mode == StudioMode::Move,
            WorkspaceFlag::ToolAnnotateSelected => self.mode == StudioMode::Compare,
            WorkspaceFlag::ViewDesignSelected => self.mode == StudioMode::Design || self.mode == StudioMode::Move || self.mode == StudioMode::Compare,
            WorkspaceFlag::ViewPreviewSelected => self.mode == StudioMode::Test,
        }
    }

    /// Reads a condition.
    pub fn workspace_flag(&self, flag: WorkspaceFlag) -> (result: bool)
        ensures
            result == self.workspace_flag_of(flag),
    {
        match flag {
            WorkspaceFlag::BackendHtmlSelected => self.backend_html_selected(),
            WorkspaceFlag::BackendGpuiSelected => self.backend_gpui_selected(),
            WorkspaceFlag::ModeDesignSelected => self.mode_design_selected(),
            WorkspaceFlag::ModeTestSelected => self.mode_test_selected(),
            WorkspaceFlag::ModeCompareSelected => self.mode_compare_selected(),
            WorkspaceFlag::ToolSelectSelected => self.tool_select_selected(),
            WorkspaceFlag::ToolMoveSelected => self.tool_move_selected(),
            WorkspaceFlag::ToolAnnotateSelected => self.tool_annotate_selected(),
            WorkspaceFlag::ViewDesignSelected => self.view_design_selected(),
            WorkspaceFlag::ViewPreviewSelected => self.view_preview_selected(),
        }
    }
}

/// The conditions on the collapsed layers that markup reads.
#[derive(Clone, Copy, Debug, PartialEq, Eq, Structural)]
pub enum LayerFlag {
    WelcomeChildrenVisible,
    HeaderChildrenVisible,
    WelcomeCopyChildrenVisible,
    FeatureCardsChildrenVisible,
    WelcomeLowerChildrenVisible,
}

impl LayerFlag {
    /// The ID under which markup reads the condition.
    pub open spec fn id_text(self) -> Seq<char> {
        match self {
            LayerFlag::WelcomeChildrenVisible => "welcome_children_visible"@,
            LayerFlag::HeaderChildrenVisible => "header_children_visible"@,
            LayerFlag::WelcomeCopyChildrenVisible => "welcome_copy_children_visible"@,
            LayerFlag::FeatureCardsChildrenVisible => "feature_cards_children_visible"@,
            LayerFlag::WelcomeLowerChildrenVisible => "welcome_lower_children_visible"@,
        }
    }

    /// The ID under which markup reads the condition.
    pub fn id(self) -> (out: &'static str)
        ensures
            out@ == self.id_text(),
    {
        match self {
            LayerFlag::WelcomeChildrenVisible => "welcome_children_visible",
            LayerFlag::HeaderChildrenVisible => "header_children_visible",
            LayerFlag::WelcomeCopyChildrenVisible => "welcome_copy_children_visible",
            LayerFlag::FeatureCardsChildrenVisible => "feature_cards_children_visible",
            LayerFlag::WelcomeLowerChildrenVisible => "welcome_lower_children_visible",
        }
    }
}

impl CollapsedLayers {
    /// Whether a condition holds.
    pub open spec fn layer_flag_of(&self, flag: LayerFlag) -> bool {
        match flag {
            LayerFlag::WelcomeChildrenVisible => !self.welcome,
            LayerFlag::HeaderChildrenVisible => !self.header,
            LayerFlag::WelcomeCopyChildrenVisible => !self.welcome_copy,
            LayerFlag::FeatureCardsChildrenVisible => !self.feature_cards,
            LayerFlag::WelcomeLowerChildrenVisible => !self.welcome_lower,
        }
    }

    /// Reads a condition.
    pub fn layer_flag(&self, flag: LayerFlag) -> (result: bool)
        ensures
            result == self.layer_flag_of(flag),
    {
        match flag {
            LayerFlag::WelcomeChildrenVisible => self.welcome_children_visible(),
            LayerFlag::HeaderChildrenVisible => self.header_children_visible(),
            LayerFlag::WelcomeCopyChildrenVisible => self.welcome_copy_children_visible(),
            LayerFlag::FeatureCardsChildrenVisible => self.feature_cards_children_visible(),
            LayerFlag::WelcomeLowerChildrenVisible => self.welcome_lower_children_visible(),
        }
    }
}

/// The conditions on the selected element that markup reads.
#[derive(Clone, Copy, Debug, PartialEq, Eq, Structural)]
pub enum ElementFlag {
    LayerWelcomeSelected,
    LayerRuntimeBadgeSelected,
    LayerHeaderSelected,
    LayerWelcomeCopySelected,
    LayerHeroTitleSelected,
    LayerFeatureCardsSelected,
    LayerRuntimeBuildingCardSelected,
    LayerLocalAiCardSelected,
    LayerPortableSourceCardSelected,
    LayerComponentSelected,
    LayerRuntimeDetailsSelected,
    LayerWelcomeLowerSelected,
    LayerDogfoodNoteSelected,
}

impl ElementFlag {
    /// The ID under which markup reads the condition.
    pub open spec fn id_text(self) -> Seq<char> {
        match self {
            ElementFlag::LayerWelcomeSelected => "layer_welcome_selected"@,
            ElementFlag::LayerRuntimeBadgeSelected => "layer_runtime_badge_selected"@,
            ElementFlag::LayerHeaderSelected => "layer_header_selected"@,
            ElementFlag::LayerWelcomeCopySelected => "layer_welcome_copy_selected"@,
            ElementFlag::LayerHeroTitleSelected => "layer_hero_title_selected"@,
            ElementFlag::LayerFeatureCardsSelected => "layer_feature_cards_selected"@,
            ElementFlag::LayerRuntimeBuildingCardSelected => "layer_runtime_building_card_selected"@,
            ElementFlag::LayerLocalAiCardSelected => "layer_local_ai_card_selected"@,
            ElementFlag::LayerPortableSourceCardSelected => "layer_portable_source_card_selected"@,
            ElementFlag::LayerComponentSelected => "layer_component_selected"@,
            ElementFlag::LayerRuntimeDetailsSelected => "layer_runtime_details_selected"@,
            ElementFlag::LayerWelcomeLowerSelected => "layer_welcome_lower_selected"@,
            ElementFlag::LayerDogfoodNoteSelected => "layer_dogfood_note_selected"@,
        }
    }

    /// The ID under which markup reads the condition.
    pub fn id(self) -> (out: &'static str)
        ensures
            out@ == self.id_text(),
    {
        match self {
            ElementFlag::LayerWelcomeSelected => "layer_welcome_selected",
            ElementFlag::LayerRuntimeBadgeSelected => "layer_runtime_badge_selected",
            ElementFlag::LayerHeaderSelected => "layer_header_selected",
            ElementFlag::LayerWelcomeCopySelected => "layer_welcome_copy_selected",
            ElementFlag::LayerHeroTitleSelected => "layer_hero_title_selected",
            ElementFlag::LayerFeatureCardsSelected => "layer_feature_cards_selected",
            ElementFlag::LayerRuntimeBuildingCardSelected => "layer_runtime_building_card_selected",
            ElementFlag::LayerLocalAiCardSelected => "layer_local_ai_card_selected",
            ElementFlag::LayerPortableSourceCardSelected => "layer_portable_source_card_selected",
            ElementFlag::LayerComponentSelected => "layer_component_selected",
            ElementFlag::LayerRuntimeDetailsSelected => "layer_runtime_details_selected",
            ElementFlag::LayerWelcomeLowerSelected => "layer_welcome_lower_selected",
            ElementFlag::LayerDogfoodNoteSelected => "layer_dogfood_note_selected",
        }
    }
}

impl Authoring {
    /// Whether a condition holds.
    pub open spec fn element_flag_of(&self, flag: ElementFlag) -> bool {
        match flag {
            ElementFlag::LayerWelcomeSelected => self.selection@.authored_id == "welcome-canvas"@,
            ElementFlag::LayerRuntimeBadgeSelected => self.selection@.authored_id == "preview-badge"@,
            ElementFlag::LayerHeaderSelected => self.selection@.authored_id == "welcome-header"@,
            ElementFlag::LayerWelcomeCopySelected => self.selection@.authored_id == "welcome-copy"@,
            ElementFlag::LayerHeroTitleSelected => self.selection@.authored_id == "hero-title"@,
            ElementFlag::LayerFeatureCardsSelected => self.selection@.authored_id == "feature-grid"@,
            ElementFlag::LayerRuntimeBuildingCardSelected => self.selection@.authored_id == "runtime-building-card"@,
            ElementFlag::LayerLocalAiCardSelected => self.selection@.authored_id == "local-ai-card"@,
            ElementFlag::LayerPortableSourceCardSelected => self.selection@.authored_id == "portable-source-card"@,
            ElementFlag::LayerComponentSelected => self.selection@.authored_id == "app-titlebar-component"@,
            ElementFlag::LayerRuntimeDetailsSelected => self.selection@.authored_id == "runtime-details"@,
            ElementFlag::LayerWelcomeLowerSelected => self.selection@.authored_id == "welcome-lower"@,
            ElementFlag::LayerDogfoodNoteSelected => self.selection@.authored_id == "dogfood-note"@,
        }
    }

    /// Reads a condition.
    pub fn element_flag(&self, flag: ElementFlag) -> (result: bool)
        ensures
            result == self.element_flag_of(flag),
    {
        match flag {
            ElementFlag::LayerWelcomeSelected => self.layer_selected("welcome-canvas"),
            ElementFlag::LayerRuntimeBadgeSelected => self.layer_selected("preview-badge"),
            ElementFlag::LayerHeaderSelected => self.layer_selected("welcome-header"),
            ElementFlag::LayerWelcomeCopySelected => self.layer_selected("welcome-copy"),
            ElementFlag::LayerHeroTitleSelected => self.layer_selected("hero-title"),
            ElementFlag::LayerFeatureCardsSelected => self.layer_selected("feature-grid"),
            ElementFlag::LayerRuntimeBuildingCardSelected => self.layer_selected("runtime-building-card"),
            ElementFlag::LayerLocalAiCardSelected => self.layer_selected("local-ai-card"),
            ElementFlag::LayerPortableSourceCardSelected => self.layer_selected("portable-source-card"),
            ElementFlag::LayerComponentSelected => self.layer_selected("app-titlebar-component"),
            ElementFlag::LayerRuntimeDetailsSelected => self.layer_selected("runtime-details"),
            ElementFlag::LayerWelcomeLowerSelected => self.layer_selected("welcome-lower"),
            ElementFlag::LayerDogfoodNoteSelected => self.layer_selected("dogfood-note"),
        }
    }
}

/// The conditions on the edited component that markup reads.
#[derive(Clone, Copy, Debug, PartialEq, Eq, Structural)]
pub enum AuthoringFlag {
    PageTreeVisible,
    ComponentDocumentTreeVisible,
    ComponentTreeChildrenVisible,
    ComponentRootSelected,
    InspectorComponentEditable,
    InspectorPageNoticeVisible,
}

impl AuthoringFlag {
    /// The ID under which markup reads the condition.
    pub open spec fn id_text(self) -> Seq<char> {
        match self {
            AuthoringFlag::PageTreeVisible => "page_tree_visible"@,
            AuthoringFlag::ComponentDocumentTreeVisible => "component_document_tree_visible"@,
            AuthoringFlag::ComponentTreeChildrenVisible => "component_tree_children_visible"@,
            AuthoringFlag::ComponentRootSelected => "component_root_selected"@,
            AuthoringFlag::InspectorComponentEditable => "inspector_component_editable"@,
            AuthoringFlag::InspectorPageNoticeVisible => "inspector_page_notice_visible"@,
        }
    }

    /// The ID under which markup reads the condition.
    pub fn id(self) -> (out: &'static str)
        ensures
            out@ == self.id_text(),
    {
        match self {
            AuthoringFlag::PageTreeVisible => "page_tree_visible",
            AuthoringFlag::ComponentDocumentTreeVisible => "component_document_tree_visible",
            AuthoringFlag::ComponentTreeChildrenVisible => "component_tree_children_visible",
            AuthoringFlag::ComponentRootSelected => "component_root_selected",
            AuthoringFlag::InspectorComponentEditable => "inspector_component_editable",
            AuthoringFlag::InspectorPageNoticeVisible => "inspector_page_notice_visible",
        }
    }
}

impl Authoring {
    /// Whether a condition holds.
    pub open spec fn authoring_flag_of(&self, layers: CollapsedLayers, flag: AuthoringFlag) -> bool {
        match flag {
            AuthoringFlag::PageTreeVisible => self.active_component() is None,
            AuthoringFlag::ComponentDocumentTreeVisible => self.active_component() is Some,
            AuthoringFlag::ComponentTreeChildrenVisible => self.active_component() is Some && !layers.component_tree,
            AuthoringFlag::ComponentRootSelected => self.active_component() is Some && self.selection@.authored_id == "root"@,
            AuthoringFlag::InspectorComponentEditable => self.selected_node() is Some,
            AuthoringFlag::InspectorPageNoticeVisible => self.selected_node() is None,
        }
    }

    /// Reads a condition.
    pub fn authoring_flag(&self, layers: &CollapsedLayers, flag: AuthoringFlag) -> (result: bool)
        ensures
            result == self.authoring_flag_of(*layers, flag),
    {
        match flag {
            AuthoringFlag::PageTreeVisible => self.page_tree_visible(),
            AuthoringFlag::ComponentDocumentTreeVisible => self.component_document_tree_visible(),
            AuthoringFlag::ComponentTreeChildrenVisible => self.component_tree_children_visible(layers),
            AuthoringFlag::ComponentRootSelected => self.component_root_selected(),
            AuthoringFlag::InspectorComponentEditable => self.selected_component_node().is_some(),
            AuthoringFlag::InspectorPageNoticeVisible => self.selected_component_node().is_none(),
        }
    }
}

/// The conditions on the component dialog that markup reads.
#[derive(Clone, Copy, Debug, PartialEq, Eq, Structural)]
pub enum DialogFlag {
    ComponentDialogVisible,
    ComponentHtmlSelected,
    ComponentGpuiSelected,
    ComponentSelectionSelected,
    ComponentBlankSelected,
    ComponentPasteHtmlSelected,
    ComponentTitlebarSelected,
}

impl DialogFlag {
    /// The ID under which markup reads the condition.
    pub open spec fn id_text(self) -> Seq<char> {
        match self {
            DialogFlag::ComponentDialogVisible => "component_dialog_visible"@,
            DialogFlag::ComponentHtmlSelected => "component_html_selected"@,
            DialogFlag::ComponentGpuiSelected => "component_gpui_selected"@,
            DialogFlag::ComponentSelectionSelected => "component_selection_selected"@,
            DialogFlag::ComponentBlankSelected => "component_blank_selected"@,
            DialogFlag::ComponentPasteHtmlSelected => "component_paste_html_selected"@,
            DialogFlag::ComponentTitlebarSelected => "component_titlebar_selected"@,
        }
    }

    /// The ID under which markup reads the condition.
    pub fn id(self) -> (out: &'static str)
        ensures
            out@ == self.id_text(),
    {
        match self {
            DialogFlag::ComponentDialogVisible => "component_dialog_visible",
            DialogFlag::ComponentHtmlSelected => "component_html_selected",
            DialogFlag::ComponentGpuiSelected => "component_gpui_selected",
            DialogFlag::ComponentSelectionSelected => "component_selection_selected",
            DialogFlag::ComponentBlankSelected => "component_blank_selected",
            DialogFlag::ComponentPasteHtmlSelected => "component_paste_html_selected",
            DialogFlag::ComponentTitlebarSelected => "component_titlebar_selected",
        }
    }
}

impl ComponentDialog {
    /// Whether a condition holds.
    pub open spec fn dialog_flag_of(&self, flag: DialogFlag) -> bool {
        match flag {
            DialogFlag::ComponentDialogVisible => self.open,
            DialogFlag::ComponentHtmlSelected => self.authoring == AuthoringBackend::Html,
            DialogFlag::ComponentGpuiSelected => self.authoring == AuthoringBackend::Gpui,
            DialogFlag::ComponentSelectionSelected => self.source == ComponentSource::Selection,
            DialogFlag::ComponentBlankSelected => self.source == ComponentSource::Blank,
            DialogFlag::ComponentPasteHtmlSelected => self.source == ComponentSource::PasteHtml,
            DialogFlag::ComponentTitlebarSelected => self.source == ComponentSource::Titlebar,
        }
    }

    /// Reads a condition.
    pub fn dialog_flag(&self, flag: DialogFlag) -> (result: bool)
        ensures
            result == self.dialog_flag_of(flag),
    {
        match flag {
            DialogFlag::ComponentDialogVisible => self.component_dialog_visible(),
            DialogFlag::ComponentHtmlSelected => self.component_html_selected(),
            DialogFlag::ComponentGpuiSelected => self.component_gpui_selected(),
            DialogFlag::ComponentSelectionSelected => self.component_selection_selected(),
            DialogFlag::ComponentBlankSelected => self.component_blank_selected(),
            DialogFlag::ComponentPasteHtmlSelected => self.component_paste_html_selected(),
            DialogFlag::ComponentTitlebarSelected => self.component_titlebar_selected(),
        }
    }
}

/// The conditions on the review comments that markup reads.
#[derive(Clone, Copy, Debug, PartialEq, Eq, Structural)]
pub enum ReviewFlag {
    AnnotationPopoverVisible,
    AnnotationHasSavedComment,
    SendAnnotationsVisible,
}

impl ReviewFlag {
    /// The ID under which markup reads the condition.
    pub open spec fn id_text(self) -> Seq<char> {
        match self {
            ReviewFlag::AnnotationPopoverVisible => "annotation_popover_visible"@,
            ReviewFlag::AnnotationHasSavedComment => "annotation_has_saved_comment"@,
            ReviewFlag::SendAnnotationsVisible => "send_annotations_visible"@,
        }
    }

    /// The ID under which markup reads the condition.
    pub fn id(self) -> (out: &'static str)
        ensures
            out@ == self.id_text(),
    {
        match self {
            ReviewFlag::AnnotationPopoverVisible => "annotation_popover_visible",
            ReviewFlag::AnnotationHasSavedComment => "annotation_has_saved_comment",
            ReviewFlag::SendAnnotationsVisible => "send_annotations_visible",
        }
    }
}

impl Review {
    /// Whether a condition holds.
    pub open spec fn review_flag_of(&self, flag: ReviewFlag) -> bool {
        match flag {
            ReviewFlag::AnnotationPopoverVisible => self.popover_open,
            ReviewFlag::AnnotationHasSavedComment => self.active is Some,
            ReviewFlag::SendAnnotationsVisible => annotations::active_of(self.annotations@.annotations).len() > 0,
        }
    }

    /// Reads a condition.
    pub fn review_flag(&self, flag: ReviewFlag) -> (result: bool)
        ensures
            result == self.review_flag_of(flag),
    {
        match flag {
            ReviewFlag::AnnotationPopoverVisible => self.annotation_popover_visible(),
            ReviewFlag::AnnotationHasSavedComment => self.annotation_has_saved_comment(),
            ReviewFlag::SendAnnotationsVisible => self.send_annotations_visible(),
        }
    }
}

/// The conditions that markup reads.
#[derive(Clone, Copy, Debug, PartialEq, Eq, Structural)]
pub enum FlagHook {
    Panel(PanelFlag),
    Workspace(WorkspaceFlag),
    Layer(LayerFlag),
    Element(ElementFlag),
    Authoring(AuthoringFlag),
    Dialog(DialogFlag),
    Review(ReviewFlag),
    /// Whether a new slot takes several children.
    SlotMultiple,
}

impl FlagHook {
    /// The ID under which markup reads the condition.
    pub open spec fn id_text(self) -> Seq<char> {
        match self {
            FlagHook::Panel(flag) => flag.id_text(),
            FlagHook::Workspace(flag) => flag.id_text(),
            FlagHook::Layer(flag) => flag.id_text(),
            FlagHook::Element(flag) => flag.id_text(),
            FlagHook::Authoring(flag) => flag.id_text(),
            FlagHook::Dialog(flag) => flag.id_text(),
            FlagHook::Review(flag) => flag.id_text(),
            FlagHook::SlotMultiple => "slot_multiple"@,
        }
    }

    /// The ID under which markup reads the condition.
    pub fn id(self) -> (out: &'static str)
        ensures
            out@ == self.id_text(),
    {
        match self {
            FlagHook::Panel(flag) => flag.id(),
            FlagHook::Workspace(flag) => flag.id(),
            FlagHook::Layer(flag) => flag.id(),
            FlagHook::Element(flag) => flag.id(),
            FlagHook::Authoring(flag) => flag.id(),
            FlagHook::Dialog(flag) => flag.id(),
            FlagHook::Review(flag) => flag.id(),
            FlagHook::SlotMultiple => "slot_multiple",
        }
    }
}

/// Every condition, in the order of registration.
pub open spec fn flag_order() -> Seq<FlagHook> {
    seq![
        FlagHook::Review(ReviewFlag::AnnotationPopoverVisible),
        FlagHook::Review(ReviewFlag::AnnotationHasSavedComment),
        FlagHook::Review(ReviewFlag::SendAnnotationsVisible),
        FlagHook::Panel(PanelFlag::LayersVisible),
        FlagHook::Panel(PanelFlag::FilesVisible),
        FlagHook::Workspace(WorkspaceFlag::BackendHtmlSelected),
        FlagHook::Workspace(WorkspaceFlag::BackendGpuiSelected),
        FlagHook::Workspace(WorkspaceFlag::ModeDesignSelected),
        FlagHook::Workspace(WorkspaceFlag::ModeTestSelected),
        FlagHook::Workspace(WorkspaceFlag::ModeCompareSelected),
        FlagHook::Workspace(WorkspaceFlag::ToolSelectSelected),
        FlagHook::Workspace(WorkspaceFlag::ToolMoveSelected),
        FlagHook::Workspace(WorkspaceFlag::ToolAnnotateSelected),
        FlagHook::Workspace(WorkspaceFlag::ViewDesignSelected),
        FlagHook::Workspace(WorkspaceFlag::ViewPreviewSelected),
        FlagHook::Panel(PanelFlag::ProjectMenuVisible),
        FlagHook::Panel(PanelFlag::ViewportMenuVisible),
        FlagHook::Panel(PanelFlag::InspectorLayoutVisible),
        FlagHook::Panel(PanelFlag::InspectorStyleVisible),
        FlagHook::Panel(PanelFlag::InspectorLogicVisible),
        FlagHook::Panel(PanelFlag::ConstraintLeftSelected),
        FlagHook::Panel(PanelFlag::ConstraintCenterSelected),
        FlagHook::Panel(PanelFlag::ConstraintRightSelected),
        FlagHook::Panel(PanelFlag::ConstraintScaleSelected),
        FlagHook::Panel(PanelFlag::ConsoleVisible),
        FlagHook::Panel(PanelFlag::StatesVisible),
        FlagHook::Panel(PanelFlag::DockConsoleSelected),
        FlagHook::Panel(PanelFlag::DockStatesSelected),
        FlagHook::Layer(LayerFlag::WelcomeChildrenVisible),
        FlagHook::Layer(LayerFlag::HeaderChildrenVisible),
        FlagHook::Layer(LayerFlag::WelcomeCopyChildrenVisible),
        FlagHook::Layer(LayerFlag::FeatureCardsChildrenVisible),
        FlagHook::Layer(LayerFlag::WelcomeLowerChildrenVisible),
        FlagHook::Element(ElementFlag::LayerWelcomeSelected),
        FlagHook::Element(ElementFlag::LayerRuntimeBadgeSelected),
        FlagHook::Element(ElementFlag::LayerHeaderSelected),
        FlagHook::Element(ElementFlag::LayerWelcomeCopySelected),
        FlagHook::Element(ElementFlag::LayerHeroTitleSelected),
        FlagHook::Element(ElementFlag::LayerFeatureCardsSelected),
        FlagHook::Element(ElementFlag::LayerRuntimeBuildingCardSelected),
        FlagHook::Element(ElementFlag::LayerLocalAiCardSelected),
        FlagHook::Element(ElementFlag::LayerPortableSourceCardSelected),
        FlagHook::Element(ElementFlag::LayerComponentSelected),
        FlagHook::Authoring(AuthoringFlag::PageTreeVisible),
        FlagHook::Authoring(AuthoringFlag::ComponentDocumentTreeVisible),
        FlagHook::Authoring(AuthoringFlag::ComponentTreeChildrenVisible),
        FlagHook::Authoring(AuthoringFlag::ComponentRootSelected),
        FlagHook::Element(ElementFlag::LayerRuntimeDetailsSelected),
        FlagHook::Element(ElementFlag::LayerWelcomeLowerSelected),
        FlagHook::Element(ElementFlag::LayerDogfoodNoteSelected),
        FlagHook::Dialog(DialogFlag::ComponentDialogVisible),
        FlagHook::Dialog(DialogFlag::ComponentHtmlSelected),
        FlagHook::Dialog(DialogFlag::ComponentGpuiSelected),
        FlagHook::Dialog(DialogFlag::ComponentSelectionSelected),
        FlagHook::Dialog(DialogFlag::ComponentBlankSelected),
        FlagHook::Dialog(DialogFlag::ComponentPasteHtmlSelected),
        FlagHook::Dialog(DialogFlag::ComponentTitlebarSelected),
        FlagHook::Authoring(AuthoringFlag::InspectorComponentEditable),
        FlagHook::SlotMultiple,
        FlagHook::Authoring(AuthoringFlag::InspectorPageNoticeVisible),
    ]
}

/// Every condition, in the order of registration.
pub fn flag_hooks() -> (out: Vec<FlagHook>)
    ensures
        out@ == flag_order(),
{
    let out: Vec<FlagHook> = vec![
        FlagHook::Review(ReviewFlag::AnnotationPopoverVisible),
        FlagHook::Review(ReviewFlag::AnnotationHasSavedComment),
        FlagHook::Review(ReviewFlag::SendAnnotationsVisible),
        FlagHook::Panel(PanelFlag::LayersVisible),
        FlagHook::Panel(PanelFlag::FilesVisible),
        FlagHook::Workspace(WorkspaceFlag::BackendHtmlSelected),
        FlagHook::Workspace(WorkspaceFlag::BackendGpuiSelected),
        FlagHook::Workspace(WorkspaceFlag::ModeDesignSelected),
        FlagHook::Workspace(WorkspaceFlag::ModeTestSelected),
        FlagHook::Workspace(WorkspaceFlag::ModeCompareSelected),
        FlagHook::Workspace(WorkspaceFlag::ToolSelectSelected),
        FlagHook::Workspace(WorkspaceFlag::ToolMoveSelected),
        FlagHook::Workspace(WorkspaceFlag::ToolAnnotateSelected),
        FlagHook::Workspace(WorkspaceFlag::ViewDesignSelected),
        FlagHook::Workspace(WorkspaceFlag::ViewPreviewSelected),
        FlagHook::Panel(PanelFlag::ProjectMenuVisible),
        FlagHook::Panel(PanelFlag::ViewportMenuVisible),
        FlagHook::Panel(PanelFlag::InspectorLayoutVisible),
        FlagHook::Panel(PanelFlag::InspectorStyleVisible),
        FlagHook::Panel(PanelFlag::InspectorLogicVisible),
        FlagHook::Panel(PanelFlag::ConstraintLeftSelected),
        FlagHook::Panel(PanelFlag::ConstraintCenterSelected),
        FlagHook::Panel(PanelFlag::ConstraintRightSelected),
        FlagHook::Panel(PanelFlag::ConstraintScaleSelected),
        FlagHook::Panel(PanelFlag::ConsoleVisible),
        FlagHook::Panel(PanelFlag::StatesVisible),
        FlagHook::Panel(PanelFlag::DockConsoleSelected),
        FlagHook::Panel(PanelFlag::DockStatesSelected),
        FlagHook::Layer(LayerFlag::WelcomeChildrenVisible),
        FlagHook::Layer(LayerFlag::HeaderChildrenVisible),
        FlagHook::Layer(LayerFlag::WelcomeCopyChildrenVisible),
        FlagHook::Layer(LayerFlag::FeatureCardsChildrenVisible),
        FlagHook::Layer(LayerFlag::WelcomeLowerChildrenVisible),
        FlagHook::Element(ElementFlag::LayerWelcomeSelected),
        FlagHook::Element(ElementFlag::LayerRuntimeBadgeSelected),
        FlagHook::Element(ElementFlag::LayerHeaderSelected),
        FlagHook::Element(ElementFlag::LayerWelcomeCopySelected),
        FlagHook::Element(ElementFlag::LayerHeroTitleSelected),
        FlagHook::Element(ElementFlag::LayerFeatureCardsSelected),
        FlagHook::Element(ElementFlag::LayerRuntimeBuildingCardSelected),
        FlagHook::Element(ElementFlag::LayerLocalAiCardSelected),
        FlagHook::Element(ElementFlag::LayerPortableSourceCardSelected),
        FlagHook::Element(ElementFlag::LayerComponentSelected),
        FlagHook::Authoring(AuthoringFlag::PageTreeVisible),
        FlagHook::Authoring(AuthoringFlag::ComponentDocumentTreeVisible),
        FlagHook::Authoring(AuthoringFlag::ComponentTreeChildrenVisible),
        FlagHook::Authoring(AuthoringFlag::ComponentRootSelected),
        FlagHook::Element(ElementFlag::LayerRuntimeDetailsSelected),
        FlagHook::Element(ElementFlag::LayerWelcomeLowerSelected),
        FlagHook::Element(ElementFlag::LayerDogfoodNoteSelected),
        FlagHook::Dialog(DialogFlag::ComponentDialogVisible),
        FlagHook::Dialog(DialogFlag::ComponentHtmlSelected),
        FlagHook::Dialog(DialogFlag::ComponentGpuiSelected),
        FlagHook::Dialog(DialogFlag::ComponentSelectionSelected),
        FlagHook::Dialog(DialogFlag::ComponentBlankSelected),
        FlagHook::Dialog(DialogFlag::ComponentPasteHtmlSelected),
        FlagHook::Dialog(DialogFlag::ComponentTitlebarSelected),
        FlagHook::Authoring(AuthoringFlag::InspectorComponentEditable),
        FlagHook::SlotMultiple,
        FlagHook::Authoring(AuthoringFlag::InspectorPageNoticeVisible),
    ];
    proof {
        assert(out@ =~= flag_order());
    }
    out
}

impl StudioState {
    /// Whether a condition holds.
    pub open spec fn holds(&self, hook: FlagHook) -> bool {
        match hook {
            FlagHook::Panel(flag) => self.panels.panel_flag_of(flag),
            FlagHook::Workspace(flag) => self.workspace.workspace_flag_of(flag),
            FlagHook::Layer(flag) => self.layers.layer_flag_of(flag),
            FlagHook::Element(flag) => self.authoring.element_flag_of(flag),
            FlagHook::Authoring(flag) => self.authoring.authoring_flag_of(self.layers, flag),
            FlagHook::Dialog(flag) => self.dialog.dialog_flag_of(flag),
            FlagHook::Review(flag) => self.review.review_flag_of(flag),
            FlagHook::SlotMultiple => self.drafts.slot_multiple,
        }
    }

    /// Reads a condition.
    pub fn read_flag(&self, hook: FlagHook) -> (result: bool)
        ensures
            result == self.holds(hook),
    {
        match hook {
            FlagHook::Panel(flag) => self.panels.panel_flag(flag),
            FlagHook::Workspace(flag) => self.workspace.workspace_flag(flag),
            FlagHook::Layer(flag) => self.layers.layer_flag(flag),
            FlagHook::Element(flag) => self.authoring.element_flag(flag),
            FlagHook::Authoring(flag) => self.authoring.authoring_flag(&self.layers, flag),
            FlagHook::Dialog(flag) => self.dialog.dialog_flag(flag),
            FlagHook::Review(flag) => self.review.review_flag(flag),
            FlagHook::SlotMultiple => self.drafts.slot_multiple,
        }
    }
}

/// The ID under which markup reads whether a preset is chosen.
pub open spec fn preset_flag_text(preset: ComponentPreset) -> Seq<char> {
    "preset_"@ + presets::preset_slug(preset) + "_selected"@
}

/// The ID under which markup reads whether a preset is chosen.
pub fn preset_flag_id(preset: ComponentPreset) -> (out: String)
    ensures
        out@ == preset_flag_text(preset),
{
    text::join3("preset_", preset.slug(), "_selected")
}

// ---------------------------------------------------------------------------
// Conditions on the selected node
// ---------------------------------------------------------------------------

/// The sizing policies on offer.
#[derive(Clone, Copy, Debug, PartialEq, Eq, Structural)]
pub enum SizePolicy {
    Hug,
    Fill,
    Fixed,
}

impl SizePolicy {
    /// The size that stands for the policy; a fixed one carries no number yet.
    pub open spec fn size_of(self) -> NativeSize {
        match self {
            SizePolicy::Hug => NativeSize::Hug,
            SizePolicy::Fill => NativeSize::Fill,
            SizePolicy::Fixed => NativeSize::Fixed(0),
        }
    }

    /// The size that stands for the policy.
    pub fn size(self) -> (out: NativeSize)
        ensures
            out == self.size_of(),
    {
        match self {
            SizePolicy::Hug => NativeSize::Hug,
            SizePolicy::Fill => NativeSize::Fill,
            SizePolicy::Fixed => NativeSize::Fixed(0),
        }
    }
}

/// The alignments on offer.
#[derive(Clone, Copy, Debug, PartialEq, Eq, Structural)]
pub enum AlignPolicy {
    Start,
    Center,
    End,
}

impl AlignPolicy {
    /// The alignment that stands for the policy.
    pub open spec fn align_of(self) -> NativeAlign {
        match self {
            AlignPolicy::Start => NativeAlign::Start,
            AlignPolicy::Center => NativeAlign::Center,
            AlignPolicy::End => NativeAlign::End,
        }
    }

    /// The alignment that stands for the policy.
    pub fn align(self) -> (out: NativeAlign)
        ensures
            out == self.align_of(),
    {
        match self {
            AlignPolicy::Start => NativeAlign::Start,
            AlignPolicy::Center => NativeAlign::Center,
            AlignPolicy::End => NativeAlign::End,
        }
    }
}

/// The ID of a sizing policy, as a condition and as an event.
pub open spec fn size_id_text(axis: InspectorSizeAxis, policy: SizePolicy) -> Seq<char> {
    match (axis, policy) {
        (InspectorSizeAxis::Width, SizePolicy::Hug) => "inspector_width_hug"@,
        (InspectorSizeAxis::Width, SizePolicy::Fill) => "inspector_width_fill"@,
        (InspectorSizeAxis::Width, SizePolicy::Fixed) => "inspector_width_fixed"@,
        (InspectorSizeAxis::Height, SizePolicy::Hug) => "inspector_height_hug"@,
        (InspectorSizeAxis::Height, SizePolicy::Fill) => "inspector_height_fill"@,
        (InspectorSizeAxis::Height, SizePolicy::Fixed) => "inspector_height_fixed"@,
    }
}

/// The ID of a sizing policy, as a condition and as an event.
pub fn size_id(axis: InspectorSizeAxis, policy: SizePolicy) -> (out: &'static str)
    ensures
        out@ == size_id_text(axis, policy),
{
    match (axis, policy) {
        (InspectorSizeAxis::Width, SizePolicy::Hug) => "inspector_width_hug",
        (InspectorSizeAxis::Width, SizePolicy::Fill) => "inspector_width_fill",
        (InspectorSizeAxis::Width, SizePolicy::Fixed) => "inspector_width_fixed",
        (InspectorSizeAxis::Height, SizePolicy::Hug) => "inspector_height_hug",
        (InspectorSizeAxis::Height, SizePolicy::Fill) => "inspector_height_fill",
        (InspectorSizeAxis::Height, SizePolicy::Fixed) => "inspector_height_fixed",
    }
}

/// The ID of an alignment, as a condition and as an event.
pub open spec fn align_id_text(axis: InspectorAlignmentAxis, policy: AlignPolicy) -> Seq<char> {
    match (axis, policy) {
        (InspectorAlignmentAxis::Align, AlignPolicy::Start) => "inspector_align_start"@,
        (InspectorAlignmentAxis::Align, AlignPolicy::Center) => "inspector_align_center"@,
        (InspectorAlignmentAxis::Align, AlignPolicy::End) => "inspector_align_end"@,
        (InspectorAlignmentAxis::Justify, AlignPolicy::Start) => "inspector_justify_start"@,
        (InspectorAlignmentAxis::Justify, AlignPolicy::Center) => "inspector_justify_center"@,
        (InspectorAlignmentAxis::Justify, AlignPolicy::End) => "inspector_justify_end"@,
    }
}

/// The ID of an alignment, as a condition and as an event.
pub fn align_id(axis: InspectorAlignmentAxis, policy: AlignPolicy) -> (out: &'static str)
    ensures
        out@ == align_id_text(axis, policy),
{
    match (axis, policy) {
        (InspectorAlignmentAxis::Align, AlignPolicy::Start) => "inspector_align_start",
        (InspectorAlignmentAxis::Align, AlignPolicy::Center) => "inspector_align_center",
        (InspectorAlignmentAxis::Align, AlignPolicy::End) => "inspector_align_end",
        (InspectorAlignmentAxis::Justify, AlignPolicy::Start) => "inspector_justify_start",
        (InspectorAlignmentAxis::Justify, AlignPolicy::Center) => "inspector_justify_center",
        (InspectorAlignmentAxis::Justify, AlignPolicy::End) => "inspector_justify_end",
    }
}

/// The conditions on the selected node that markup reads.
#[derive(Clone, Copy, Debug, PartialEq, Eq, Structural)]
pub enum NodeHook {
    Intrinsic(InspectorSizeAxis),
    Size(InspectorSizeAxis, SizePolicy),
    Alignment(InspectorAlignmentAxis, AlignPolicy),
    Layout(InspectorLayoutChoice),
}

impl NodeHook {
    /// The ID under which markup reads the condition.
    pub open spec fn id_text(self) -> Seq<char> {
        match self {
            NodeHook::Intrinsic(InspectorSizeAxis::Width) => "inspector_width_intrinsic"@,
            NodeHook::Intrinsic(InspectorSizeAxis::Height) => "inspector_height_intrinsic"@,
            NodeHook::Size(axis, policy) => size_id_text(axis, policy),
            NodeHook::Alignment(axis, policy) => align_id_text(axis, policy),
            NodeHook::Layout(choice) => inspector::layout_choice_name(choice),
        }
    }

    /// The ID under which markup reads the condition.
    pub fn id(self) -> (out: String)
        ensures
            out@ == self.id_text(),
    {
        match self {
            NodeHook::Intrinsic(InspectorSizeAxis::Width) => "inspector_width_intrinsic".to_owned(),
            NodeHook::Intrinsic(InspectorSizeAxis::Height) => {
                "inspector_height_intrinsic".to_owned()
            },
            NodeHook::Size(axis, policy) => size_id(axis, policy).to_owned(),
            NodeHook::Alignment(axis, policy) => align_id(axis, policy).to_owned(),
            NodeHook::Layout(choice) => inspector::layout_choice_label(choice),
        }
    }
}

/// Whether a condition on the selected node holds; none does where no node is selected.
pub open spec fn node_holds(node: Option<NativeNode>, hook: NodeHook) -> bool {
    match node {
        None => false,
        Some(node) => match hook {
            NodeHook::Intrinsic(axis) => inspector::is_intrinsic(
                inspector::size_along(node.layout, axis),
            ),
            NodeHook::Size(axis, policy) => match policy {
                SizePolicy::Hug => inspector::size_along(node.layout, axis) == NativeSize::Hug,
                SizePolicy::Fill => inspector::size_along(node.layout, axis) == NativeSize::Fill,
                SizePolicy::Fixed => inspector::size_along(node.layout, axis) is Fixed,
            },
            NodeHook::Alignment(InspectorAlignmentAxis::Align, policy) => node.layout.align
                == policy.align_of(),
            NodeHook::Alignment(InspectorAlignmentAxis::Justify, policy) => node.layout.justify
                == policy.align_of(),
            NodeHook::Layout(choice) => inspector::chosen_layout(node.layout, choice)
                == node.layout,
        },
    }
}

impl StudioState {
    /// Reads a condition on the selected node.
    pub fn read_node_flag(&self, hook: NodeHook) -> (result: bool)
        ensures
            result == node_holds(self.authoring.selected_node(), hook),
    {
        let node = self.authoring.selected_component_node();
        match hook {
            NodeHook::Intrinsic(axis) => inspector::inspector_axis_intrinsic(node, axis),
            NodeHook::Size(axis, policy) => inspector::inspector_size_selected(
                node,
                axis,
                policy.size(),
            ),
            NodeHook::Alignment(axis, policy) => inspector::inspector_alignment_selected(
                node,
                axis,
                policy.align(),
            ),
            NodeHook::Layout(choice) => inspector::inspector_layout_choice_selected(node, choice),
        }
    }
}

// ---------------------------------------------------------------------------
// Fields
// ---------------------------------------------------------------------------

/// The text fields that people type into.
#[derive(Clone, Copy, Debug, PartialEq, Eq, Structural)]
pub enum DraftHook {
    Annotation,
    ComponentName,
    ComponentProps,
    Property(StudioInspectorDraftField),
    Definition(DefinitionDraftField),
}

impl DraftHook {
    /// The ID under which markup reads and writes the field.
    pub open spec fn id_text(self) -> Seq<char> {
        match self {
            DraftHook::Annotation => "annotation_draft"@,
            DraftHook::ComponentName => "component_name"@,
            DraftHook::ComponentProps => "component_props"@,
            DraftHook::Property(StudioInspectorDraftField::Name) => "inspector_prop_name"@,
            DraftHook::Property(StudioInspectorDraftField::Type) => "inspector_prop_type"@,
            DraftHook::Property(StudioInspectorDraftField::Default) => "inspector_prop_default"@,
            DraftHook::Definition(DefinitionDraftField::StateName) => "inspector_state_name"@,
            DraftHook::Definition(DefinitionDraftField::StateType) => "inspector_state_type"@,
            DraftHook::Definition(DefinitionDraftField::StateDefault) => "inspector_state_default"@,
            DraftHook::Definition(DefinitionDraftField::VariantId) => "inspector_variant_id"@,
            DraftHook::Definition(DefinitionDraftField::VariantName) => "inspector_variant_name"@,
            DraftHook::Definition(DefinitionDraftField::SlotName) => "inspector_slot_name"@,
            DraftHook::Definition(DefinitionDraftField::SlotNode) => "inspector_slot_node"@,
            DraftHook::Definition(DefinitionDraftField::TokenPath) => "inspector_token_path"@,
            DraftHook::Definition(DefinitionDraftField::TokenKind) => "inspector_token_kind"@,
            DraftHook::Definition(DefinitionDraftField::TokenValue) => "inspector_token_value"@,
            DraftHook::Definition(DefinitionDraftField::TokenDescription) => "inspector_token_description"@,
        }
    }

    /// The ID under which markup reads and writes the field.
    pub fn id(self) -> (out: &'static str)
        ensures
            out@ == self.id_text(),
    {
        match self {
            DraftHook::Annotation => "annotation_draft",
            DraftHook::ComponentName => "component_name",
            DraftHook::ComponentProps => "component_props",
            DraftHook::Property(StudioInspectorDraftField::Name) => "inspector_prop_name",
            DraftHook::Property(StudioInspectorDraftField::Type) => "inspector_prop_type",
            DraftHook::Property(StudioInspectorDraftField::Default) => "inspector_prop_default",
            DraftHook::Definition(DefinitionDraftField::StateName) => "inspector_state_name",
            DraftHook::Definition(DefinitionDraftField::StateType) => "inspector_state_type",
            DraftHook::Definition(DefinitionDraftField::StateDefault) => "inspector_state_default",
            DraftHook::Definition(DefinitionDraftField::VariantId) => "inspector_variant_id",
            DraftHook::Definition(DefinitionDraftField::VariantName) => "inspector_variant_name",
            DraftHook::Definition(DefinitionDraftField::SlotName) => "inspector_slot_name",
            DraftHook::Definition(DefinitionDraftField::SlotNode) => "inspector_slot_node",
            DraftHook::Definition(DefinitionDraftField::TokenPath) => "inspector_token_path",
            DraftHook::Definition(DefinitionDraftField::TokenKind) => "inspector_token_kind",
            DraftHook::Definition(DefinitionDraftField::TokenValue) => "inspector_token_value",
            DraftHook::Definition(DefinitionDraftField::TokenDescription) => "inspector_token_description",
        }
    }

    /// Why anything but text is refused.
    pub open spec fn refusal_text(self) -> Seq<char> {
        match self {
            DraftHook::Annotation => "annotation draft requires text"@,
            DraftHook::ComponentName => "component name requires text"@,
            DraftHook::ComponentProps => "component props require text"@,
            DraftHook::Property(_) => "inspector property draft requires text"@,
            DraftHook::Definition(_) => "definition field requires text"@,
        }
    }

    /// Why anything but text is refused.
    pub fn refusal(self) -> (out: &'static str)
        ensures
            out@ == self.refusal_text(),
    {
        match self {
            DraftHook::Annotation => "annotation draft requires text",
            DraftHook::ComponentName => "component name requires text",
            DraftHook::ComponentProps => "component props require text",
            DraftHook::Property(_) => "inspector property draft requires text",
            DraftHook::Definition(_) => "definition field requires text",
        }
    }
}

/// What markup writes.
#[derive(Debug)]
pub enum HookValue {
    Text(String),
    /// A number or a condition, which no field takes.
    Other,
}

impl StudioState {
    /// What is typed into a field.
    pub open spec fn draft_of(&self, hook: DraftHook) -> Seq<char> {
        match hook {
            DraftHook::Annotation => self.review.draft@,
            DraftHook::ComponentName => self.dialog.name@,
            DraftHook::ComponentProps => self.dialog.props@,
            DraftHook::Property(field) => self.drafts.prop_draft(field),
            DraftHook::Definition(field) => self.drafts.definitions.draft(field),
        }
    }

    /// Reads a field.
    pub fn read_draft(&self, hook: DraftHook) -> (out: String)
        ensures
            out@ == self.draft_of(hook),
    {
        match hook {
            DraftHook::Annotation => self.review.draft.clone(),
            DraftHook::ComponentName => self.dialog.name.clone(),
            DraftHook::ComponentProps => self.dialog.props.clone(),
            DraftHook::Property(field) => self.drafts.inspector_draft(field),
            DraftHook::Definition(field) => self.drafts.definitions.definition_draft(field),
        }
    }

    /// Types into a field: the field reads as typed and every other as before. A typed
    /// annotation waits to be saved. Anything but text is refused.
    pub fn write_draft(&mut self, hook: DraftHook, value: HookValue) -> (result: Result<
        (),
        &'static str,
    >)
        ensures
            match value {
                HookValue::Other => {
                    &&& result is Err
                    &&& result->Err_0@ == hook.refusal_text()
                    &&& *final(self) == *old(self)
                },
                HookValue::Text(typed) => {
                    &&& result is Ok
                    &&& final(self).draft_of(hook) == typed@
                    &&& forall|other: DraftHook|
                        other != hook ==> #[trigger] final(self).draft_of(other) == old(
                            self,
                        ).draft_of(other)
                    &&& *final(self) == (StudioState {
                        review: final(self).review,
                        dialog: final(self).dialog,
                        drafts: final(self).drafts,
                        ..*old(self)
                    })
                    &&& final(self).review == (Review {
                        draft: final(self).review.draft,
                        pending: if hook == DraftHook::Annotation {
                            PendingEdits::fresh()
                        } else {
                            old(self).review.pending
                        },
                        ..old(self).review
                    })
                    &&& final(self).dialog == (ComponentDialog {
                        name: final(self).dialog.name,
                        props: final(self).dialog.props,
                        ..old(self).dialog
                    })
                    &&& final(self).drafts.slot_multiple == old(self).drafts.slot_multiple
                },
            },
    {
        let typed = match value {
            HookValue::Other => return Err(hook.refusal()),
            HookValue::Text(typed) => typed,
        };
        match hook {
            DraftHook::Annotation => {
                self.review.set_annotation_draft(typed);
            },
            DraftHook::ComponentName => {
                self.dialog.name = typed;
            },
            DraftHook::ComponentProps => {
                self.dialog.props = typed;
            },
            DraftHook::Property(field) => {
                self.drafts.set_inspector_draft(field, typed);
            },
            DraftHook::Definition(field) => {
                self.drafts.definitions.set_definition_draft(field, typed);
            },
        }
        Ok(())
    }
}

/// The ID under which markup reads and writes a value of the selected node.
pub open spec fn field_id_text(field: InspectorValueField) -> Seq<char> {
    match field {
        InspectorValueField::Width => "inspector_width_value"@,
        InspectorValueField::Height => "inspector_height_value"@,
        InspectorValueField::Gap => "inspector_gap_value"@,
        InspectorValueField::Padding => "inspector_padding_value"@,
        InspectorValueField::Margin => "inspector_margin_value"@,
        InspectorValueField::Basis => "inspector_basis_value"@,
        InspectorValueField::MinWidth => "inspector_min_width_value"@,
        InspectorValueField::MaxWidth => "inspector_max_width_value"@,
        InspectorValueField::MinHeight => "inspector_min_height_value"@,
        InspectorValueField::MaxHeight => "inspector_max_height_value"@,
        InspectorValueField::GridColumns => "inspector_grid_columns_value"@,
        InspectorValueField::GridRows => "inspector_grid_rows_value"@,
        InspectorValueField::ColumnStart => "inspector_column_start_value"@,
        InspectorValueField::ColumnSpan => "inspector_column_span_value"@,
        InspectorValueField::RowStart => "inspector_row_start_value"@,
        InspectorValueField::RowSpan => "inspector_row_span_value"@,
        InspectorValueField::OffsetLeft => "inspector_offset_left_value"@,
        InspectorValueField::OffsetTop => "inspector_offset_top_value"@,
        InspectorValueField::OffsetRight => "inspector_offset_right_value"@,
        InspectorValueField::OffsetBottom => "inspector_offset_bottom_value"@,
        InspectorValueField::ZIndex => "inspector_z_index_value"@,
        InspectorValueField::Opacity => "inspector_opacity_value"@,
        InspectorValueField::Rotation => "inspector_rotation_value"@,
        InspectorValueField::Radius => "inspector_radius_value"@,
        InspectorValueField::Background => "inspector_background_value"@,
        InspectorValueField::Foreground => "inspector_foreground_value"@,
        InspectorValueField::Border => "inspector_border_value"@,
        InspectorValueField::Text => "inspector_text_value"@,
        InspectorValueField::FontFamily => "inspector_font_value"@,
        InspectorValueField::FontSize => "inspector_font_size_value"@,
        InspectorValueField::FontWeight => "inspector_font_weight_value"@,
        InspectorValueField::LineHeight => "inspector_line_height_value"@,
        InspectorValueField::Action => "inspector_action_value"@,
    }
}

/// The ID under which markup reads and writes a value of the selected node.
pub fn field_id(field: InspectorValueField) -> (out: &'static str)
    ensures
        out@ == field_id_text(field),
{
    match field {
        InspectorValueField::Width => "inspector_width_value",
        InspectorValueField::Height => "inspector_height_value",
        InspectorValueField::Gap => "inspector_gap_value",
        InspectorValueField::Padding => "inspector_padding_value",
        InspectorValueField::Margin => "inspector_margin_value",
        InspectorValueField::Basis => "inspector_basis_value",
        InspectorValueField::MinWidth => "inspector_min_width_value",
        InspectorValueField::MaxWidth => "inspector_max_width_value",
        InspectorValueField::MinHeight => "inspector_min_height_value",
        InspectorValueField::MaxHeight => "inspector_max_height_value",
        InspectorValueField::GridColumns => "inspector_grid_columns_value",
        InspectorValueField::GridRows => "inspector_grid_rows_value",
        InspectorValueField::ColumnStart => "inspector_column_start_value",
        InspectorValueField::ColumnSpan => "inspector_column_span_value",
        InspectorValueField::RowStart => "inspector_row_start_value",
        InspectorValueField::RowSpan => "inspector_row_span_value",
        InspectorValueField::OffsetLeft => "inspector_offset_left_value",
        InspectorValueField::OffsetTop => "inspector_offset_top_value",
        InspectorValueField::OffsetRight => "inspector_offset_right_value",
        InspectorValueField::OffsetBottom => "inspector_offset_bottom_value",
        InspectorValueField::ZIndex => "inspector_z_index_value",
        InspectorValueField::Opacity => "inspector_opacity_value",
        InspectorValueField::Rotation => "inspector_rotation_value",
        InspectorValueField::Radius => "inspector_radius_value",
        InspectorValueField::Background => "inspector_background_value",
        InspectorValueField::Foreground => "inspector_foreground_value",
        InspectorValueField::Border => "inspector_border_value",
        InspectorValueField::Text => "inspector_text_value",
        InspectorValueField::FontFamily => "inspector_font_value",
        InspectorValueField::FontSize => "inspector_font_size_value",
        InspectorValueField::FontWeight => "inspector_font_weight_value",
        InspectorValueField::LineHeight => "inspector_line_height_value",
        InspectorValueField::Action => "inspector_action_value",
    }
}

/// The text for a value of the selected node; anything but text is refused.
pub fn field_text(value: HookValue) -> (result: Result<String, &'static str>)
    ensures
        match value {
            HookValue::Text(typed) => result == Ok::<String, &'static str>(typed),
            HookValue::Other => result is Err && result->Err_0@ == "inspector field requires text"@,
        },
{
    match value {
        HookValue::Text(typed) => Ok(typed),
        HookValue::Other => Err("inspector field requires text"),
    }
}

// ---------------------------------------------------------------------------
// IDs
// ---------------------------------------------------------------------------

/// Everything that markup reads or writes.
#[derive(Clone, Copy, Debug, PartialEq, Eq, Structural)]
pub enum StateHook {
    Text(TextHook),
    Flag(FlagHook),
    Draft(DraftHook),
    Field(InspectorValueField),
    Node(NodeHook),
    Preset(ComponentPreset),
}

impl StateHook {
    /// The ID under which markup reads or writes it.
    pub open spec fn id_text(self) -> Seq<char> {
        match self {
            StateHook::Text(hook) => hook.id_text(),
            StateHook::Flag(hook) => hook.id_text(),
            StateHook::Draft(hook) => hook.id_text(),
            StateHook::Field(field) => field_id_text(field),
            StateHook::Node(hook) => hook.id_text(),
            StateHook::Preset(preset) => preset_flag_text(preset),
        }
    }
}

/// The character at position `i` from the front, or the last one.
spec fn front(s: Seq<char>, i: int) -> int {
    if i < s.len() {
        s[i] as int
    } else {
        s[s.len() - 1] as int
    }
}

/// The character at position `i` from the back, or the first one.
spec fn back(s: Seq<char>, i: int) -> int {
    if i < s.len() {
        s[s.len() - 1 - i] as int
    } else {
        s[0] as int
    }
}

spec fn key(s: Seq<char>) -> int {
    ((((s.len() * 128 + front(s, 12)) * 128 + front(s, 10)) * 128 + back(s, 28)) * 128 + back(
        s,
        1,
    )) * 128 + front(s, 21)
}

spec fn code(hook: StateHook) -> int {
    match hook {
        StateHook::Text(TextHook::StudioStatus) => 477791845107,
        StateHook::Text(TextHook::ProjectPath) => 440479267432,
        StateHook::Text(TextHook::RevisionLabel) => 508353622764,
        StateHook::Text(TextHook::DirtyLabel) => 407176295148,
        StateHook::Text(TextHook::ModeLabel) => 372816704236,
        StateHook::Text(TextHook::BackendLabel) => 475874767596,
        StateHook::Text(TextHook::ComponentSummary) => 613617826169,
        StateHook::Text(TextHook::ActiveComponentName) => 751318890213,
        StateHook::Text(TextHook::SelectionLabel) => 541931139820,
        StateHook::Text(TextHook::SelectionRuntimeId) => 716963640548,
        StateHook::Text(TextHook::SelectionHeading) => 610373793639,
        StateHook::Text(TextHook::SelectionElementTag) => 748880195815,
        StateHook::Text(TextHook::SelectionWidth) => 542491081320,
        StateHook::Text(TextHook::SelectionHeight) => 578161538164,
        StateHook::Text(TextHook::SelectionX) => 410422931448,
        StateHook::Text(TextHook::SelectionY) => 410693464057,
        StateHook::Text(TextHook::SelectionRotation) => 649854777326,
        StateHook::Text(TextHook::SelectionGrid) => 509439964388,
        StateHook::Text(TextHook::SelectionSize) => 514028535141,
        StateHook::Text(TextHook::SelectionRect) => 507852419572,
        StateHook::Text(TextHook::AnnotationCount) => 579752982388,
        StateHook::Text(TextHook::AnnotationTitle) => 578142369381,
        StateHook::Text(TextHook::AnnotationTarget) => 610354623220,
        StateHook::Text(TextHook::AnnotationStatus) => 615454898931,
        StateHook::Text(TextHook::SendAnnotationsLabel) => 784305287916,
        StateHook::Text(TextHook::ThemeLabel) => 407176557292,
        StateHook::Text(TextHook::ViewportLabel) => 508353688300,
        StateHook::Text(TextHook::DecorationsLabel) => 613349405420,
        StateHook::Text(TextHook::SnapLabel) => 372816802540,
        StateHook::Text(TextHook::DockToggleLabel) => 613320045292,
        StateHook::Text(TextHook::WelcomeDisclosure) => 647709456741,
        StateHook::Text(TextHook::HeaderDisclosure) => 614121224549,
        StateHook::Text(TextHook::WelcomeCopyDisclosure) => 816012196210,
        StateHook::Text(TextHook::FeatureCardsDisclosure) => 855744559477,
        StateHook::Text(TextHook::WelcomeLowerDisclosure) => 855486888309,
        StateHook::Text(TextHook::ComponentRootDisclosure) => 889030506867,
        StateHook::Text(TextHook::ComponentStub) => 512686095074,
        StateHook::Text(TextHook::CssExcerpt) => 409340541044,
        StateHook::Text(TextHook::ZoomLabel) => 372816917228,
        StateHook::Text(TextHook::SlotCapacityLabel) => 685537817324,
        StateHook::Flag(FlagHook::Review(ReviewFlag::AnnotationPopoverVisible)) => 923350365811,
        StateHook::Flag(FlagHook::Review(ReviewFlag::AnnotationHasSavedComment)) => 988311746403,
        StateHook::Flag(FlagHook::Review(ReviewFlag::SendAnnotationsVisible)) => 853024765538,
        StateHook::Flag(FlagHook::Panel(PanelFlag::LayersVisible)) => 510249350757,
        StateHook::Flag(FlagHook::Panel(PanelFlag::FilesVisible)) => 473995785829,
        StateHook::Flag(FlagHook::Workspace(WorkspaceFlag::BackendHtmlSelected)) => 747286082276,
        StateHook::Flag(FlagHook::Workspace(WorkspaceFlag::BackendGpuiSelected)) => 747302859492,
        StateHook::Flag(FlagHook::Workspace(WorkspaceFlag::ModeDesignSelected)) => 718297330404,
        StateHook::Flag(FlagHook::Workspace(WorkspaceFlag::ModeTestSelected)) => 647709291236,
        StateHook::Flag(FlagHook::Workspace(WorkspaceFlag::ModeCompareSelected)) => 747296748260,
        StateHook::Flag(FlagHook::Workspace(WorkspaceFlag::ToolSelectSelected)) => 718310028004,
        StateHook::Flag(FlagHook::Workspace(WorkspaceFlag::ToolMoveSelected)) => 647709405924,
        StateHook::Flag(FlagHook::Workspace(WorkspaceFlag::ToolAnnotateSelected)) => 783231562468,
        StateHook::Flag(FlagHook::Workspace(WorkspaceFlag::ViewDesignSelected)) => 718297477860,
        StateHook::Flag(FlagHook::Workspace(WorkspaceFlag::ViewPreviewSelected)) => 747269632740,
        StateHook::Flag(FlagHook::Panel(PanelFlag::ProjectMenuVisible)) => 712928671333,
        StateHook::Flag(FlagHook::Panel(PanelFlag::ViewportMenuVisible)) => 753175213669,
        StateHook::Flag(FlagHook::Panel(PanelFlag::InspectorLayoutVisible)) => 857342637666,
        StateHook::Flag(FlagHook::Panel(PanelFlag::InspectorStyleVisible)) => 822997579372,
        StateHook::Flag(FlagHook::Panel(PanelFlag::InspectorLogicVisible)) => 818151061100,
        StateHook::Flag(FlagHook::Panel(PanelFlag::ConstraintLeftSelected)) => 851946566388,
        StateHook::Flag(FlagHook::Panel(PanelFlag::ConstraintCenterSelected)) => 920666043109,
        StateHook::Flag(FlagHook::Panel(PanelFlag::ConstraintRightSelected)) => 887380046563,
        StateHook::Flag(FlagHook::Panel(PanelFlag::ConstraintScaleSelected)) => 885769433827,
        StateHook::Flag(FlagHook::Panel(PanelFlag::ConsoleVisible)) => 541945558629,
        StateHook::Flag(FlagHook::Panel(PanelFlag::StatesVisible)) => 510249465445,
        StateHook::Flag(FlagHook::Panel(PanelFlag::DockConsoleSelected)) => 747284017892,
        StateHook::Flag(FlagHook::Panel(PanelFlag::DockStatesSelected)) => 718307668708,
        StateHook::Flag(FlagHook::Layer(LayerFlag::WelcomeChildrenVisible)) => 851699431010,
        StateHook::Flag(FlagHook::Layer(LayerFlag::HeaderChildrenVisible)) => 821103834732,
        StateHook::Flag(FlagHook::Layer(LayerFlag::WelcomeCopyChildrenVisible)) => 1022170625631,
        StateHook::Flag(FlagHook::Layer(LayerFlag::FeatureCardsChildrenVisible)) => 1061902972526,
        StateHook::Flag(FlagHook::Layer(LayerFlag::WelcomeLowerChildrenVisible)) => 1061645022830,
        StateHook::Flag(FlagHook::Element(ElementFlag::LayerWelcomeSelected)) => 783260791524,
        StateHook::Flag(FlagHook::Element(ElementFlag::LayerRuntimeBadgeSelected)) => 989406638821,
        StateHook::Flag(FlagHook::Element(ElementFlag::LayerHeaderSelected)) => 747269468900,
        StateHook::Flag(FlagHook::Element(ElementFlag::LayerWelcomeCopySelected)) => 955059483372,
        StateHook::Flag(FlagHook::Element(ElementFlag::LayerHeroTitleSelected)) => 887380194019,
        StateHook::Flag(FlagHook::Element(ElementFlag::LayerFeatureCardsSelected)) => 989431804645,
        StateHook::Flag(FlagHook::Element(ElementFlag::LayerRuntimeBuildingCardSelected)) => 1264284693223,
        StateHook::Flag(FlagHook::Element(ElementFlag::LayerLocalAiCardSelected)) => 988339188453,
        StateHook::Flag(FlagHook::Element(ElementFlag::LayerPortableSourceCardSelected)) => 1231787143903,
        StateHook::Flag(FlagHook::Element(ElementFlag::LayerComponentSelected)) => 851980268276,
        StateHook::Flag(FlagHook::Authoring(AuthoringFlag::PageTreeVisible)) => 615234942565,
        StateHook::Flag(FlagHook::Authoring(AuthoringFlag::ComponentDocumentTreeVisible)) => 1091938514533,
        StateHook::Flag(FlagHook::Authoring(AuthoringFlag::ComponentTreeChildrenVisible)) => 1092508939877,
        StateHook::Flag(FlagHook::Authoring(AuthoringFlag::ComponentRootSelected)) => 820311028453,
        StateHook::Flag(FlagHook::Element(ElementFlag::LayerRuntimeDetailsSelected)) => 1058125935327,
        StateHook::Flag(FlagHook::Element(ElementFlag::LayerWelcomeLowerSelected)) => 989419221733,
        StateHook::Flag(FlagHook::Element(ElementFlag::LayerDogfoodNoteSelected)) => 954791047916,
        StateHook::Flag(FlagHook::Dialog(DialogFlag::ComponentDialogVisible)) => 850883311202,
        StateHook::Flag(FlagHook::Dialog(DialogFlag::ComponentHtmlSelected)) => 819753186021,
        StateHook::Flag(FlagHook::Dialog(DialogFlag::ComponentGpuiSelected)) => 821898572517,
        StateHook::Flag(FlagHook::Dialog(DialogFlag::ComponentSelectionSelected)) => 991306511077,
        StateHook::Flag(FlagHook::Dialog(DialogFlag::ComponentBlankSelected)) => 850879116020,
        StateHook::Flag(FlagHook::Dialog(DialogFlag::ComponentPasteHtmlSelected)) => 1027539006195,
        StateHook::Flag(FlagHook::Dialog(DialogFlag::ComponentTitlebarSelected)) => 959096353516,
        StateHook::Flag(FlagHook::Authoring(AuthoringFlag::InspectorComponentEditable)) => 991541491300,
        StateHook::Flag(FlagHook::SlotMultiple) => 474025358949,
        StateHook::Flag(FlagHook::Authoring(AuthoringFlag::InspectorPageNoticeVisible)) => 1024317879903,
        StateHook::Draft(DraftHook::Annotation) => 580558287732,
        StateHook::Draft(DraftHook::ComponentName) => 510528124645,
        StateHook::Draft(DraftHook::ComponentProps) => 545428928627,
        StateHook::Draft(DraftHook::Property(StudioInspectorDraftField::Name)) => 682867980005,
        StateHook::Draft(DraftHook::Property(StudioInspectorDraftField::Type)) => 682867980389,
        StateHook::Draft(DraftHook::Property(StudioInspectorDraftField::Default)) => 785947194996,
        StateHook::Draft(DraftHook::Definition(DefinitionDraftField::StateName)) => 713475913445,
        StateHook::Draft(DraftHook::Definition(DefinitionDraftField::StateType)) => 713475913829,
        StateHook::Draft(DraftHook::Definition(DefinitionDraftField::StateDefault)) => 816555128428,
        StateHook::Draft(DraftHook::Definition(DefinitionDraftField::VariantId)) => 718045607140,
        StateHook::Draft(DraftHook::Definition(DefinitionDraftField::VariantName)) => 786765084389,
        StateHook::Draft(DraftHook::Definition(DefinitionDraftField::SlotName)) => 682874271461,
        StateHook::Draft(DraftHook::Definition(DefinitionDraftField::SlotNode)) => 682874270309,
        StateHook::Draft(DraftHook::Definition(DefinitionDraftField::TokenPath)) => 716162366056,
        StateHook::Draft(DraftHook::Definition(DefinitionDraftField::TokenKind)) => 716162365284,
        StateHook::Draft(DraftHook::Definition(DefinitionDraftField::TokenValue)) => 750522104549,
        StateHook::Draft(DraftHook::Definition(DefinitionDraftField::TokenDescription)) => 956680533993,
        StateHook::Field(InspectorValueField::Width) => 748649347813,
        StateHook::Field(InspectorValueField::Height) => 784319806181,
        StateHook::Field(InspectorValueField::Gap) => 683117542117,
        StateHook::Field(InspectorValueField::Padding) => 817354144501,
        StateHook::Field(InspectorValueField::Margin) => 786746211045,
        StateHook::Field(InspectorValueField::Basis) => 752631839461,
        StateHook::Field(InspectorValueField::MinWidth) => 888751684321,
        StateHook::Field(InspectorValueField::MaxWidth) => 891436038881,
        StateHook::Field(InspectorValueField::MinHeight) => 923111422710,
        StateHook::Field(InspectorValueField::MaxHeight) => 925795777270,
        StateHook::Field(InspectorValueField::GridColumns) => 990476139251,
        StateHook::Field(InspectorValueField::GridRows) => 887396924129,
        StateHook::Field(InspectorValueField::ColumnStart) => 991273057012,
        StateHook::Field(InspectorValueField::ColumnSpan) => 956913318623,
        StateHook::Field(InspectorValueField::RowStart) => 891178089185,
        StateHook::Field(InspectorValueField::RowSpan) => 856818350828,
        StateHook::Field(InspectorValueField::OffsetLeft) => 955327871711,
        StateHook::Field(InspectorValueField::OffsetTop) => 920968133366,
        StateHook::Field(InspectorValueField::OffsetRight) => 989687610100,
        StateHook::Field(InspectorValueField::OffsetBottom) => 1024047348463,
        StateHook::Field(InspectorValueField::ZIndex) => 818717293301,
        StateHook::Field(InspectorValueField::Opacity) => 816546740981,
        StateHook::Field(InspectorValueField::Rotation) => 856013044460,
        StateHook::Field(InspectorValueField::Radius) => 782998600421,
        StateHook::Field(InspectorValueField::Background) => 920135564022,
        StateHook::Field(InspectorValueField::Foreground) => 924170484470,
        StateHook::Field(InspectorValueField::Border) => 786723142373,
        StateHook::Field(InspectorValueField::Text) => 719652027109,
        StateHook::Field(InspectorValueField::FontFamily) => 716938312421,
        StateHook::Field(InspectorValueField::FontSize) => 888737004257,
        StateHook::Field(InspectorValueField::FontWeight) => 957456480991,
        StateHook::Field(InspectorValueField::LineHeight) => 957469063903,
        StateHook::Field(InspectorValueField::Action) => 787257916133,
        StateHook::Node(NodeHook::Intrinsic(InspectorSizeAxis::Width)) => 886088299758,
        StateHook::Node(NodeHook::Intrinsic(InspectorSizeAxis::Height)) => 921758758121,
        StateHook::Node(NodeHook::Size(InspectorSizeAxis::Width, SizePolicy::Hug)) => 679929871079,
        StateHook::Node(NodeHook::Size(InspectorSizeAxis::Width, SizePolicy::Fill)) => 714289608300,
        StateHook::Node(NodeHook::Size(InspectorSizeAxis::Width, SizePolicy::Fixed)) => 748649345764,
        StateHook::Node(NodeHook::Size(InspectorSizeAxis::Height, SizePolicy::Hug)) => 715600329447,
        StateHook::Node(NodeHook::Size(InspectorSizeAxis::Height, SizePolicy::Fill)) => 749960066668,
        StateHook::Node(NodeHook::Size(InspectorSizeAxis::Height, SizePolicy::Fixed)) => 784319804132,
        StateHook::Node(NodeHook::Alignment(InspectorAlignmentAxis::Align, AlignPolicy::Start)) => 749945387380,
        StateHook::Node(NodeHook::Alignment(InspectorAlignmentAxis::Align, AlignPolicy::Center)) => 784305124082,
        StateHook::Node(NodeHook::Alignment(InspectorAlignmentAxis::Align, AlignPolicy::End)) => 681225910116,
        StateHook::Node(NodeHook::Alignment(InspectorAlignmentAxis::Justify, AlignPolicy::Start)) => 821368093042,
        StateHook::Node(NodeHook::Alignment(InspectorAlignmentAxis::Justify, AlignPolicy::Center)) => 855727829748,
        StateHook::Node(NodeHook::Alignment(InspectorAlignmentAxis::Justify, AlignPolicy::End)) => 752648615780,
        StateHook::Node(NodeHook::Layout(InspectorLayoutChoice::Wrap(NativeWrap::NoWrap))) => 679124563813,
        StateHook::Node(NodeHook::Layout(InspectorLayoutChoice::Wrap(NativeWrap::Wrap))) => 679124562160,
        StateHook::Node(NodeHook::Layout(InspectorLayoutChoice::Wrap(NativeWrap::WrapReverse))) => 782203779557,
        StateHook::Node(NodeHook::Layout(InspectorLayoutChoice::Position(NativePosition::Flow))) => 821380675567,
        StateHook::Node(NodeHook::Layout(InspectorLayoutChoice::Position(NativePosition::Absolute))) => 958819629683,
        StateHook::Node(NodeHook::Layout(InspectorLayoutChoice::Overflow(NativeOverflow::Visible))) => 920699696755,
        StateHook::Node(NodeHook::Layout(InspectorLayoutChoice::Overflow(NativeOverflow::Hidden))) => 886339957476,
        StateHook::Node(NodeHook::Layout(InspectorLayoutChoice::Overflow(NativeOverflow::Scroll))) => 886339958386,
        StateHook::Node(NodeHook::Layout(InspectorLayoutChoice::HorizontalConstraint(NativeConstraint::Start))) => 991809927544,
        StateHook::Node(NodeHook::Layout(InspectorLayoutChoice::HorizontalConstraint(NativeConstraint::Center))) => 1026169664248,
        StateHook::Node(NodeHook::Layout(InspectorLayoutChoice::HorizontalConstraint(NativeConstraint::End))) => 923090450296,
        StateHook::Node(NodeHook::Layout(InspectorLayoutChoice::HorizontalConstraint(NativeConstraint::Scale))) => 991809926776,
        StateHook::Node(NodeHook::Layout(InspectorLayoutChoice::HorizontalConstraint(NativeConstraint::Stretch))) => 1060529484280,
        StateHook::Node(NodeHook::Layout(InspectorLayoutChoice::VerticalConstraint(NativeConstraint::Start))) => 991809927545,
        StateHook::Node(NodeHook::Layout(InspectorLayoutChoice::VerticalConstraint(NativeConstraint::Center))) => 1026169664249,
        StateHook::Node(NodeHook::Layout(InspectorLayoutChoice::VerticalConstraint(NativeConstraint::End))) => 923090450297,
        StateHook::Node(NodeHook::Layout(InspectorLayoutChoice::VerticalConstraint(NativeConstraint::Scale))) => 991809926777,
        StateHook::Node(NodeHook::Layout(InspectorLayoutChoice::VerticalConstraint(NativeConstraint::Stretch))) => 1060529484281,
        StateHook::Node(NodeHook::Layout(InspectorLayoutChoice::Grow(false))) => 648489366374,
        StateHook::Node(NodeHook::Layout(InspectorLayoutChoice::Grow(true))) => 614129629166,
        StateHook::Node(NodeHook::Layout(InspectorLayoutChoice::Shrink(false))) => 718039315302,
        StateHook::Node(NodeHook::Layout(InspectorLayoutChoice::Shrink(true))) => 683679578094,
        StateHook::Preset(ComponentPreset::Button) => 785687261924,
        StateHook::Preset(ComponentPreset::ButtonGroup) => 991845692133,
        StateHook::Preset(ComponentPreset::Card) => 718276408036,
        StateHook::Preset(ComponentPreset::Badge) => 747273728740,
        StateHook::Preset(ComponentPreset::Alert) => 747296797412,
        StateHook::Preset(ComponentPreset::Toolbar) => 816540562149,
        StateHook::Preset(ComponentPreset::Avatar) => 786761003748,
        StateHook::Preset(ComponentPreset::EmptyState) => 953459421932,
        StateHook::Preset(ComponentPreset::Titlebar) => 851168735988,
        StateHook::Preset(ComponentPreset::Tabs) => 718307865316,
        StateHook::Preset(ComponentPreset::Dialog) => 783791436516,
        StateHook::Preset(ComponentPreset::Dropdown) => 854666785524,
        StateHook::Preset(ComponentPreset::DropdownMenu) => 1026465477363,
        StateHook::Preset(ComponentPreset::Drawer) => 786767295204,
        StateHook::Preset(ComponentPreset::Scrollable) => 922578858725,
        StateHook::Preset(ComponentPreset::Resizable) => 885253747427,
        StateHook::Preset(ComponentPreset::Tooltip) => 818688045797,
    }
}

spec fn decoded(code: int) -> Option<StateHook> {
    if code == 477791845107 {
        Some(StateHook::Text(TextHook::StudioStatus))
    } else if code == 440479267432 {
        Some(StateHook::Text(TextHook::ProjectPath))
    } else if code == 508353622764 {
        Some(StateHook::Text(TextHook::RevisionLabel))
    } else if code == 407176295148 {
        Some(StateHook::Text(TextHook::DirtyLabel))
    } else if code == 372816704236 {
        Some(StateHook::Text(TextHook::ModeLabel))
    } else if code == 475874767596 {
        Some(StateHook::Text(TextHook::BackendLabel))
    } else if code == 613617826169 {
        Some(StateHook::Text(TextHook::ComponentSummary))
    } else if code == 751318890213 {
        Some(StateHook::Text(TextHook::ActiveComponentName))
    } else if code == 541931139820 {
        Some(StateHook::Text(TextHook::SelectionLabel))
    } else if code == 716963640548 {
        Some(StateHook::Text(TextHook::SelectionRuntimeId))
    } else if code == 610373793639 {
        Some(StateHook::Text(TextHook::SelectionHeading))
    } else if code == 748880195815 {
        Some(StateHook::Text(TextHook::SelectionElementTag))
    } else if code == 542491081320 {
        Some(StateHook::Text(TextHook::SelectionWidth))
    } else if code == 578161538164 {
        Some(StateHook::Text(TextHook::SelectionHeight))
    } else if code == 410422931448 {
        Some(StateHook::Text(TextHook::SelectionX))
    } else if code == 410693464057 {
        Some(StateHook::Text(TextHook::SelectionY))
    } else if code == 649854777326 {
        Some(StateHook::Text(TextHook::SelectionRotation))
    } else if code == 509439964388 {
        Some(StateHook::Text(TextHook::SelectionGrid))
    } else if code == 514028535141 {
        Some(StateHook::Text(TextHook::SelectionSize))
    } else if code == 507852419572 {
        Some(StateHook::Text(TextHook::SelectionRect))
    } else if code == 579752982388 {
        Some(StateHook::Text(TextHook::AnnotationCount))
    } else if code == 578142369381 {
        Some(StateHook::Text(TextHook::AnnotationTitle))
    } else if code == 610354623220 {
        Some(StateHook::Text(TextHook::AnnotationTarget))
    } else if code == 615454898931 {
        Some(StateHook::Text(TextHook::AnnotationStatus))
    } else if code == 784305287916 {
        Some(StateHook::Text(TextHook::SendAnnotationsLabel))
    } else if code == 407176557292 {
        Some(StateHook::Text(TextHook::ThemeLabel))
    } else if code == 508353688300 {
        Some(StateHook::Text(TextHook::ViewportLabel))
    } else if code == 613349405420 {
        Some(StateHook::Text(TextHook::DecorationsLabel))
    } else if code == 372816802540 {
        Some(StateHook::Text(TextHook::SnapLabel))
    } else if code == 613320045292 {
        Some(StateHook::Text(TextHook::DockToggleLabel))
    } else if code == 647709456741 {
        Some(StateHook::Text(TextHook::WelcomeDisclosure))
    } else if code == 614121224549 {
        Some(StateHook::Text(TextHook::HeaderDisclosure))
    } else if code == 816012196210 {
        Some(StateHook::Text(TextHook::WelcomeCopyDisclosure))
    } else if code == 855744559477 {
        Some(StateHook::Text(TextHook::FeatureCardsDisclosure))
    } else if code == 855486888309 {
        Some(StateHook::Text(TextHook::WelcomeLowerDisclosure))
    } else if code == 889030506867 {
        Some(StateHook::Text(TextHook::ComponentRootDisclosure))
    } else if code == 512686095074 {
        Some(StateHook::Text(TextHook::ComponentStub))
    } else if code == 409340541044 {
        Some(StateHook::Text(TextHook::CssExcerpt))
    } else if code == 372816917228 {
        Some(StateHook::Text(TextHook::ZoomLabel))
    } else if code == 685537817324 {
        Some(StateHook::Text(TextHook::SlotCapacityLabel))
    } else if code == 923350365811 {
        Some(StateHook::Flag(FlagHook::Review(ReviewFlag::AnnotationPopoverVisible)))
    } else if code == 988311746403 {
        Some(StateHook::Flag(FlagHook::Review(ReviewFlag::AnnotationHasSavedComment)))
    } else if code == 853024765538 {
        Some(StateHook::Flag(FlagHook::Review(ReviewFlag::SendAnnotationsVisible)))
    } else if code == 510249350757 {
        Some(StateHook::Flag(FlagHook::Panel(PanelFlag::LayersVisible)))
    } else if code == 473995785829 {
        Some(StateHook::Flag(FlagHook::Panel(PanelFlag::FilesVisible)))
    } else if code == 747286082276 {
        Some(StateHook::Flag(FlagHook::Workspace(WorkspaceFlag::BackendHtmlSelected)))
    } else if code == 747302859492 {
        Some(StateHook::Flag(FlagHook::Workspace(WorkspaceFlag::BackendGpuiSelected)))
    } else if code == 718297330404 {
        Some(StateHook::Flag(FlagHook::Workspace(WorkspaceFlag::ModeDesignSelected)))
    } else if code == 647709291236 {
        Some(StateHook::Flag(FlagHook::Workspace(WorkspaceFlag::ModeTestSelected)))
    } else if code == 747296748260 {
        Some(StateHook::Flag(FlagHook::Workspace(WorkspaceFlag::ModeCompareSelected)))
    } else if code == 718310028004 {
        Some(StateHook::Flag(FlagHook::Workspace(WorkspaceFlag::ToolSelectSelected)))
    } else if code == 647709405924 {
        Some(StateHook::Flag(FlagHook::Workspace(WorkspaceFlag::ToolMoveSelected)))
    } else if code == 783231562468 {
        Some(StateHook::Flag(FlagHook::Workspace(WorkspaceFlag::ToolAnnotateSelected)))
    } else if code == 718297477860 {
        Some(StateHook::Flag(FlagHook::Workspace(WorkspaceFlag::ViewDesignSelected)))
    } else if code == 747269632740 {
        Some(StateHook::Flag(FlagHook::Workspace(WorkspaceFlag::ViewPreviewSelected)))
    } else if code == 712928671333 {
        Some(StateHook::Flag(FlagHook::Panel(PanelFlag::ProjectMenuVisible)))
    } else if code == 753175213669 {
        Some(StateHook::Flag(FlagHook::Panel(PanelFlag::ViewportMenuVisible)))
    } else if code == 857342637666 {
        Some(StateHook::Flag(FlagHook::Panel(PanelFlag::InspectorLayoutVisible)))
    } else if code == 822997579372 {
        Some(StateHook::Flag(FlagHook::Panel(PanelFlag::InspectorStyleVisible)))
    } else if code == 818151061100 {
        Some(StateHook::Flag(FlagHook::Panel(PanelFlag::InspectorLogicVisible)))
    } else if code == 851946566388 {
        Some(StateHook::Flag(FlagHook::Panel(PanelFlag::ConstraintLeftSelected)))
    } else if code == 920666043109 {
        Some(StateHook::Flag(FlagHook::Panel(PanelFlag::ConstraintCenterSelected)))
    } else if code == 887380046563 {
        Some(StateHook::Flag(FlagHook::Panel(PanelFlag::ConstraintRightSelected)))
    } else if code == 885769433827 {
        Some(StateHook::Flag(FlagHook::Panel(PanelFlag::ConstraintScaleSelected)))
    } else if code == 541945558629 {
        Some(StateHook::Flag(FlagHook::Panel(PanelFlag::ConsoleVisible)))
    } else if code == 510249465445 {
        Some(StateHook::Flag(FlagHook::Panel(PanelFlag::StatesVisible)))
    } else if code == 747284017892 {
        Some(StateHook::Flag(FlagHook::Panel(PanelFlag::DockConsoleSelected)))
    } else if code == 718307668708 {
        Some(StateHook::Flag(FlagHook::Panel(PanelFlag::DockStatesSelected)))
    } else if code == 851699431010 {
        Some(StateHook::Flag(FlagHook::Layer(LayerFlag::WelcomeChildrenVisible)))
    } else if code == 821103834732 {
        Some(StateHook::Flag(FlagHook::Layer(LayerFlag::HeaderChildrenVisible)))
    } else if code == 1022170625631 {
        Some(StateHook::Flag(FlagHook::Layer(LayerFlag::WelcomeCopyChildrenVisible)))
    } else if code == 1061902972526 {
        Some(StateHook::Flag(FlagHook::Layer(LayerFlag::FeatureCardsChildrenVisible)))
    } else if code == 1061645022830 {
        Some(StateHook::Flag(FlagHook::Layer(LayerFlag::WelcomeLowerChildrenVisible)))
    } else if code == 783260791524 {
        Some(StateHook::Flag(FlagHook::Element(ElementFlag::LayerWelcomeSelected)))
    } else if code == 989406638821 {
        Some(StateHook::Flag(FlagHook::Element(ElementFlag::LayerRuntimeBadgeSelected)))
    } else if code == 747269468900 {
        Some(StateHook::Flag(FlagHook::Element(ElementFlag::LayerHeaderSelected)))
    } else if code == 955059483372 {
        Some(StateHook::Flag(FlagHook::Element(ElementFlag::LayerWelcomeCopySelected)))
    } else if code == 887380194019 {
        Some(StateHook::Flag(FlagHook::Element(ElementFlag::LayerHeroTitleSelected)))
    } else if code == 989431804645 {
        Some(StateHook::Flag(FlagHook::Element(ElementFlag::LayerFeatureCardsSelected)))
    } else if code == 1264284693223 {
        Some(StateHook::Flag(FlagHook::Element(ElementFlag::LayerRuntimeBuildingCardSelected)))
    } else if code == 988339188453 {
        Some(StateHook::Flag(FlagHook::Element(ElementFlag::LayerLocalAiCardSelected)))
    } else if code == 1231787143903 {
        Some(StateHook::Flag(FlagHook::Element(ElementFlag::LayerPortableSourceCardSelected)))
    } else if code == 851980268276 {
        Some(StateHook::Flag(FlagHook::Element(ElementFlag::LayerComponentSelected)))
    } else if code == 615234942565 {
        Some(StateHook::Flag(FlagHook::Authoring(AuthoringFlag::PageTreeVisible)))
    } else if code == 1091938514533 {
        Some(StateHook::Flag(FlagHook::Authoring(AuthoringFlag::ComponentDocumentTreeVisible)))
    } else if code == 1092508939877 {
        Some(StateHook::Flag(FlagHook::Authoring(AuthoringFlag::ComponentTreeChildrenVisible)))
    } else if code == 820311028453 {
        Some(StateHook::Flag(FlagHook::Authoring(AuthoringFlag::ComponentRootSelected)))
    } else if code == 1058125935327 {
        Some(StateHook::Flag(FlagHook::Element(ElementFlag::LayerRuntimeDetailsSelected)))
    } else if code == 989419221733 {
        Some(StateHook::Flag(FlagHook::Element(ElementFlag::LayerWelcomeLowerSelected)))
    } else if code == 954791047916 {
        Some(StateHook::Flag(FlagHook::Element(ElementFlag::LayerDogfoodNoteSelected)))
    } else if code == 850883311202 {
        Some(StateHook::Flag(FlagHook::Dialog(DialogFlag::ComponentDialogVisible)))
    } else if code == 819753186021 {
        Some(StateHook::Flag(FlagHook::Dialog(DialogFlag::ComponentHtmlSelected)))
    } else if code == 821898572517 {
        Some(StateHook::Flag(FlagHook::Dialog(DialogFlag::ComponentGpuiSelected)))
    } else if code == 991306511077 {
        Some(StateHook::Flag(FlagHook::Dialog(DialogFlag::ComponentSelectionSelected)))
    } else if code == 850879116020 {
        Some(StateHook::Flag(FlagHook::Dialog(DialogFlag::ComponentBlankSelected)))
    } else if code == 1027539006195 {
        Some(StateHook::Flag(FlagHook::Dialog(DialogFlag::ComponentPasteHtmlSelected)))
    } else if code == 959096353516 {
        Some(StateHook::Flag(FlagHook::Dialog(DialogFlag::ComponentTitlebarSelected)))
    } else if code == 991541491300 {
        Some(StateHook::Flag(FlagHook::Authoring(AuthoringFlag::InspectorComponentEditable)))
    } else if code == 474025358949 {
        Some(StateHook::Flag(FlagHook::SlotMultiple))
    } else if code == 1024317879903 {
        Some(StateHook::Flag(FlagHook::Authoring(AuthoringFlag::InspectorPageNoticeVisible)))
    } else if code == 580558287732 {
        Some(StateHook::Draft(DraftHook::Annotation))
    } else if code == 510528124645 {
        Some(StateHook::Draft(DraftHook::ComponentName))
    } else if code == 545428928627 {
        Some(StateHook::Draft(DraftHook::ComponentProps))
    } else if code == 682867980005 {
        Some(StateHook::Draft(DraftHook::Property(StudioInspectorDraftField::Name)))
    } else if code == 682867980389 {
        Some(StateHook::Draft(DraftHook::Property(StudioInspectorDraftField::Type)))
    } else if code == 785947194996 {
        Some(StateHook::Draft(DraftHook::Property(StudioInspectorDraftField::Default)))
    } else if code == 713475913445 {
        Some(StateHook::Draft(DraftHook::Definition(DefinitionDraftField::StateName)))
    } else if code == 713475913829 {
        Some(StateHook::Draft(DraftHook::Definition(DefinitionDraftField::StateType)))
    } else if code == 816555128428 {
        Some(StateHook::Draft(DraftHook::Definition(DefinitionDraftField::StateDefault)))
    } else if code == 718045607140 {
        Some(StateHook::Draft(DraftHook::Definition(DefinitionDraftField::VariantId)))
    } else if code == 786765084389 {
        Some(StateHook::Draft(DraftHook::Definition(DefinitionDraftField::VariantName)))
    } else if code == 682874271461 {
        Some(StateHook::Draft(DraftHook::Definition(DefinitionDraftField::SlotName)))
    } else if code == 682874270309 {
        Some(StateHook::Draft(DraftHook::Definition(DefinitionDraftField::SlotNode)))
    } else if code == 716162366056 {
        Some(StateHook::Draft(DraftHook::Definition(DefinitionDraftField::TokenPath)))
    } else if code == 716162365284 {
        Some(StateHook::Draft(DraftHook::Definition(DefinitionDraftField::TokenKind)))
    } else if code == 750522104549 {
        Some(StateHook::Draft(DraftHook::Definition(DefinitionDraftField::TokenValue)))
    } else if code == 956680533993 {
        Some(StateHook::Draft(DraftHook::Definition(DefinitionDraftField::TokenDescription)))
    } else if code == 748649347813 {
        Some(StateHook::Field(InspectorValueField::Width))
    } else if code == 784319806181 {
        Some(StateHook::Field(InspectorValueField::Height))
    } else if code == 683117542117 {
        Some(StateHook::Field(InspectorValueField::Gap))
    } else if code == 817354144501 {
        Some(StateHook::Field(InspectorValueField::Padding))
    } else if code == 786746211045 {
        Some(StateHook::Field(InspectorValueField::Margin))
    } else if code == 752631839461 {
        Some(StateHook::Field(InspectorValueField::Basis))
    } else if code == 888751684321 {
        Some(StateHook::Field(InspectorValueField::MinWidth))
    } else if code == 891436038881 {
        Some(StateHook::Field(InspectorValueField::MaxWidth))
    } else if code == 923111422710 {
        Some(StateHook::Field(InspectorValueField::MinHeight))
    } else if code == 925795777270 {
        Some(StateHook::Field(InspectorValueField::MaxHeight))
    } else if code == 990476139251 {
        Some(StateHook::Field(InspectorValueField::GridColumns))
    } else if code == 887396924129 {
        Some(StateHook::Field(InspectorValueField::GridRows))
    } else if code == 991273057012 {
        Some(StateHook::Field(InspectorValueField::ColumnStart))
    } else if code == 956913318623 {
        Some(StateHook::Field(InspectorValueField::ColumnSpan))
    } else if code == 891178089185 {
        Some(StateHook::Field(InspectorValueField::RowStart))
    } else if code == 856818350828 {
        Some(StateHook::Field(InspectorValueField::RowSpan))
    } else if code == 955327871711 {
        Some(StateHook::Field(InspectorValueField::OffsetLeft))
    } else if code == 920968133366 {
        Some(StateHook::Field(InspectorValueField::OffsetTop))
    } else if code == 989687610100 {
        Some(StateHook::Field(InspectorValueField::OffsetRight))
    } else if code == 1024047348463 {
        Some(StateHook::Field(InspectorValueField::OffsetBottom))
    } else if code == 818717293301 {
        Some(StateHook::Field(InspectorValueField::ZIndex))
    } else if code == 816546740981 {
        Some(StateHook::Field(InspectorValueField::Opacity))
    } else if code == 856013044460 {
        Some(StateHook::Field(InspectorValueField::Rotation))
    } else if code == 782998600421 {
        Some(StateHook::Field(InspectorValueField::Radius))
    } else if code == 920135564022 {
        Some(StateHook::Field(InspectorValueField::Background))
    } else if code == 924170484470 {
        Some(StateHook::Field(InspectorValueField::Foreground))
    } else if code == 786723142373 {
        Some(StateHook::Field(InspectorValueField::Border))
    } else if code == 719652027109 {
        Some(StateHook::Field(InspectorValueField::Text))
    } else if code == 716938312421 {
        Some(StateHook::Field(InspectorValueField::FontFamily))
    } else if code == 888737004257 {
        Some(StateHook::Field(InspectorValueField::FontSize))
    } else if code == 957456480991 {
        Some(StateHook::Field(InspectorValueField::FontWeight))
    } else if code == 957469063903 {
        Some(StateHook::Field(InspectorValueField::LineHeight))
    } else if code == 787257916133 {
        Some(StateHook::Field(InspectorValueField::Action))
    } else if code == 886088299758 {
        Some(StateHook::Node(NodeHook::Intrinsic(InspectorSizeAxis::Width)))
    } else if code == 921758758121 {
        Some(StateHook::Node(NodeHook::Intrinsic(InspectorSizeAxis::Height)))
    } else if code == 679929871079 {
        Some(StateHook::Node(NodeHook::Size(InspectorSizeAxis::Width, SizePolicy::Hug)))
    } else if code == 714289608300 {
        Some(StateHook::Node(NodeHook::Size(InspectorSizeAxis::Width, SizePolicy::Fill)))
    } else if code == 748649345764 {
        Some(StateHook::Node(NodeHook::Size(InspectorSizeAxis::Width, SizePolicy::Fixed)))
    } else if code == 715600329447 {
        Some(StateHook::Node(NodeHook::Size(InspectorSizeAxis::Height, SizePolicy::Hug)))
    } else if code == 749960066668 {
        Some(StateHook::Node(NodeHook::Size(InspectorSizeAxis::Height, SizePolicy::Fill)))
    } else if code == 784319804132 {
        Some(StateHook::Node(NodeHook::Size(InspectorSizeAxis::Height, SizePolicy::Fixed)))
    } else if code == 749945387380 {
        Some(StateHook::Node(NodeHook::Alignment(InspectorAlignmentAxis::Align, AlignPolicy::Start)))
    } else if code == 784305124082 {
        Some(StateHook::Node(NodeHook::Alignment(InspectorAlignmentAxis::Align, AlignPolicy::Center)))
    } else if code == 681225910116 {
        Some(StateHook::Node(NodeHook::Alignment(InspectorAlignmentAxis::Align, AlignPolicy::End)))
    } else if code == 821368093042 {
        Some(StateHook::Node(NodeHook::Alignment(InspectorAlignmentAxis::Justify, AlignPolicy::Start)))
    } else if code == 855727829748 {
        Some(StateHook::Node(NodeHook::Alignment(InspectorAlignmentAxis::Justify, AlignPolicy::Center)))
    } else if code == 752648615780 {
        Some(StateHook::Node(NodeHook::Alignment(InspectorAlignmentAxis::Justify, AlignPolicy::End)))
    } else if code == 679124563813 {
        Some(StateHook::Node(NodeHook::Layout(InspectorLayoutChoice::Wrap(NativeWrap::NoWrap))))
    } else if code == 679124562160 {
        Some(StateHook::Node(NodeHook::Layout(InspectorLayoutChoice::Wrap(NativeWrap::Wrap))))
    } else if code == 782203779557 {
        Some(StateHook::Node(NodeHook::Layout(InspectorLayoutChoice::Wrap(NativeWrap::WrapReverse))))
    } else if code == 821380675567 {
        Some(StateHook::Node(NodeHook::Layout(InspectorLayoutChoice::Position(NativePosition::Flow))))
    } else if code == 958819629683 {
        Some(StateHook::Node(NodeHook::Layout(InspectorLayoutChoice::Position(NativePosition::Absolute))))
    } else if code == 920699696755 {
        Some(StateHook::Node(NodeHook::Layout(InspectorLayoutChoice::Overflow(NativeOverflow::Visible))))
    } else if code == 886339957476 {
        Some(StateHook::Node(NodeHook::Layout(InspectorLayoutChoice::Overflow(NativeOverflow::Hidden))))
    } else if code == 886339958386 {
        Some(StateHook::Node(NodeHook::Layout(InspectorLayoutChoice::Overflow(NativeOverflow::Scroll))))
    } else if code == 991809927544 {
        Some(StateHook::Node(NodeHook::Layout(InspectorLayoutChoice::HorizontalConstraint(NativeConstraint::Start))))
    } else if code == 1026169664248 {
        Some(StateHook::Node(NodeHook::Layout(InspectorLayoutChoice::HorizontalConstraint(NativeConstraint::Center))))
    } else if code == 923090450296 {
        Some(StateHook::Node(NodeHook::Layout(InspectorLayoutChoice::HorizontalConstraint(NativeConstraint::End))))
    } else if code == 991809926776 {
        Some(StateHook::Node(NodeHook::Layout(InspectorLayoutChoice::HorizontalConstraint(NativeConstraint::Scale))))
    } else if code == 1060529484280 {
        Some(StateHook::Node(NodeHook::Layout(InspectorLayoutChoice::HorizontalConstraint(NativeConstraint::Stretch))))
    } else if code == 991809927545 {
        Some(StateHook::Node(NodeHook::Layout(InspectorLayoutChoice::VerticalConstraint(NativeConstraint::Start))))
    } else if code == 1026169664249 {
        Some(StateHook::Node(NodeHook::Layout(InspectorLayoutChoice::VerticalConstraint(NativeConstraint::Center))))
    } else if code == 923090450297 {
        Some(StateHook::Node(NodeHook::Layout(InspectorLayoutChoice::VerticalConstraint(NativeConstraint::End))))
    } else if code == 991809926777 {
        Some(StateHook::Node(NodeHook::Layout(InspectorLayoutChoice::VerticalConstraint(NativeConstraint::Scale))))
    } else if code == 1060529484281 {
        Some(StateHook::Node(NodeHook::Layout(InspectorLayoutChoice::VerticalConstraint(NativeConstraint::Stretch))))
    } else if code == 648489366374 {
        Some(StateHook::Node(NodeHook::Layout(InspectorLayoutChoice::Grow(false))))
    } else if code == 614129629166 {
        Some(StateHook::Node(NodeHook::Layout(InspectorLayoutChoice::Grow(true))))
    } else if code == 718039315302 {
        Some(StateHook::Node(NodeHook::Layout(InspectorLayoutChoice::Shrink(false))))
    } else if code == 683679578094 {
        Some(StateHook::Node(NodeHook::Layout(InspectorLayoutChoice::Shrink(true))))
    } else if code == 785687261924 {
        Some(StateHook::Preset(ComponentPreset::Button))
    } else if code == 991845692133 {
        Some(StateHook::Preset(ComponentPreset::ButtonGroup))
    } else if code == 718276408036 {
        Some(StateHook::Preset(ComponentPreset::Card))
    } else if code == 747273728740 {
        Some(StateHook::Preset(ComponentPreset::Badge))
    } else if code == 747296797412 {
        Some(StateHook::Preset(ComponentPreset::Alert))
    } else if code == 816540562149 {
        Some(StateHook::Preset(ComponentPreset::Toolbar))
    } else if code == 786761003748 {
        Some(StateHook::Preset(ComponentPreset::Avatar))
    } else if code == 953459421932 {
        Some(StateHook::Preset(ComponentPreset::EmptyState))
    } else if code == 851168735988 {
        Some(StateHook::Preset(ComponentPreset::Titlebar))
    } else if code == 718307865316 {
        Some(StateHook::Preset(ComponentPreset::Tabs))
    } else if code == 783791436516 {
        Some(StateHook::Preset(ComponentPreset::Dialog))
    } else if code == 854666785524 {
        Some(StateHook::Preset(ComponentPreset::Dropdown))
    } else if code == 1026465477363 {
        Some(StateHook::Preset(ComponentPreset::DropdownMenu))
    } else if code == 786767295204 {
        Some(StateHook::Preset(ComponentPreset::Drawer))
    } else if code == 922578858725 {
        Some(StateHook::Preset(ComponentPreset::Scrollable))
    } else if code == 885253747427 {
        Some(StateHook::Preset(ComponentPreset::Resizable))
    } else if code == 818688045797 {
        Some(StateHook::Preset(ComponentPreset::Tooltip))
    } else {
        None
    }
}

#[verifier::rlimit(100)]
proof fn lemma_text_keys(hook: StateHook)
    requires
        hook is Text,
    ensures
        key(hook.id_text()) == code(hook),
        decoded(code(hook)) == Some(hook),
{
    match hook {
        StateHook::Text(TextHook::StudioStatus) => {
            reveal_strlit("studio_status");
            assert(hook.id_text().len() == 13);
            assert(hook.id_text()[12] == 's');
            assert(hook.id_text()[10] == 't');
            assert(hook.id_text()[0] == 's');
            assert(hook.id_text()[11] == 'u');
            assert(hook.id_text()[12] == 's');
        },
        StateHook::Text(TextHook::ProjectPath) => {
            reveal_strlit("project_path");
            assert(hook.id_text().len() == 12);
            assert(hook.id_text()[11] == 'h');
            assert(hook.id_text()[10] == 't');
            assert(hook.id_text()[0] == 'p');
            assert(hook.id_text()[10] == 't');
            assert(hook.id_text()[11] == 'h');
        },
        StateHook::Text(TextHook::RevisionLabel) => {
            reveal_strlit("revision_label");
            assert(hook.id_text().len() == 14);
            assert(hook.id_text()[12] == 'e');
            assert(hook.id_text()[10] == 'a');
            assert(hook.id_text()[0] == 'r');
            assert(hook.id_text()[12] == 'e');
            assert(hook.id_text()[13] == 'l');
        },
        StateHook::Text(TextHook::DirtyLabel) => {
            reveal_strlit("dirty_label");
            assert(hook.id_text().len() == 11);
            assert(hook.id_text()[10] == 'l');
            assert(hook.id_text()[10] == 'l');
            assert(hook.id_text()[0] == 'd');
            assert(hook.id_text()[9] == 'e');
            assert(hook.id_text()[10] == 'l');
        },
        StateHook::Text(TextHook::ModeLabel) => {
            reveal_strlit("mode_label");
            assert(hook.id_text().len() == 10);
            assert(hook.id_text()[9] == 'l');
            assert(hook.id_text()[9] == 'l');
            assert(hook.id_text()[0] == 'm');
            assert(hook.id_text()[8] == 'e');
            assert(hook.id_text()[9] == 'l');
        },
        StateHook::Text(TextHook::BackendLabel) => {
            reveal_strlit("backend_label");
            assert(hook.id_text().len() == 13);
            assert(hook.id_text()[12] == 'l');
            assert(hook.id_text()[10] == 'b');
            assert(hook.id_text()[0] == 'b');
            assert(hook.id_text()[11] == 'e');
            assert(hook.id_text()[12] == 'l');
        },
        StateHook::Text(TextHook::ComponentSummary) => {
            reveal_strlit("component_summary");
            assert(hook.id_text().len() == 17);
            assert(hook.id_text()[12] == 'm');
            assert(hook.id_text()[10] == 's');
            assert(hook.id_text()[0] == 'c');
            assert(hook.id_text()[15] == 'r');
            assert(hook.id_text()[16] == 'y');
        },
        StateHook::Text(TextHook::ActiveComponentName) => {
            reveal_strlit("active_component_name");
            assert(hook.id_text().len() == 21);
            assert(hook.id_text()[12] == 'n');
            assert(hook.id_text()[10] == 'p');
            assert(hook.id_text()[0] == 'a');
            assert(hook.id_text()[19] == 'm');
            assert(hook.id_text()[20] == 'e');
        },
        StateHook::Text(TextHook::SelectionLabel) => {
            reveal_strlit("selection_label");
            assert(hook.id_text().len() == 15);
            assert(hook.id_text()[12] == 'b');
            assert(hook.id_text()[10] == 'l');
            assert(hook.id_text()[0] == 's');
            assert(hook.id_text()[13] == 'e');
            assert(hook.id_text()[14] == 'l');
        },
        StateHook::Text(TextHook::SelectionRuntimeId) => {
            reveal_strlit("selection_runtime_id");
            assert(hook.id_text().len() == 20);
            assert(hook.id_text()[12] == 'n');
            assert(hook.id_text()[10] == 'r');
            assert(hook.id_text()[0] == 's');
            assert(hook.id_text()[18] == 'i');
            assert(hook.id_text()[19] == 'd');
        },
        StateHook::Text(TextHook::SelectionHeading) => {
            reveal_strlit("selection_heading");
            assert(hook.id_text().len() == 17);
            assert(hook.id_text()[12] == 'a');
            assert(hook.id_text()[10] == 'h');
            assert(hook.id_text()[0] == 's');
            assert(hook.id_text()[15] == 'n');
            assert(hook.id_text()[16] == 'g');
        },
        StateHook::Text(TextHook::SelectionElementTag) => {
            reveal_strlit("selection_element_tag");
            assert(hook.id_text().len() == 21);
            assert(hook.id_text()[12] == 'e');
            assert(hook.id_text()[10] == 'e');
            assert(hook.id_text()[0] == 's');
            assert(hook.id_text()[19] == 'a');
            assert(hook.id_text()[20] == 'g');
        },
        StateHook::Text(TextHook::SelectionWidth) => {
            reveal_strlit("selection_width");
            assert(hook.id_text().len() == 15);
            assert(hook.id_text()[12] == 'd');
            assert(hook.id_text()[10] == 'w');
            assert(hook.id_text()[0] == 's');
            assert(hook.id_text()[13] == 't');
            assert(hook.id_text()[14] == 'h');
        },
        StateHook::Text(TextHook::SelectionHeight) => {
            reveal_strlit("selection_height");
            assert(hook.id_text().len() == 16);
            assert(hook.id_text()[12] == 'i');
            assert(hook.id_text()[10] == 'h');
            assert(hook.id_text()[0] == 's');
            assert(hook.id_text()[14] == 'h');
            assert(hook.id_text()[15] == 't');
        },
        StateHook::Text(TextHook::SelectionX) => {
            reveal_strlit("selection_x");
            assert(hook.id_text().len() == 11);
            assert(hook.id_text()[10] == 'x');
            assert(hook.id_text()[10] == 'x');
            assert(hook.id_text()[0] == 's');
            assert(hook.id_text()[9] == '_');
            assert(hook.id_text()[10] == 'x');
        },
        StateHook::Text(TextHook::SelectionY) => {
            reveal_strlit("selection_y");
            assert(hook.id_text().len() == 11);
            assert(hook.id_text()[10] == 'y');
            assert(hook.id_text()[10] == 'y');
            assert(hook.id_text()[0] == 's');
            assert(hook.id_text()[9] == '_');
            assert(hook.id_text()[10] == 'y');
        },
        StateHook::Text(TextHook::SelectionRotation) => {
            reveal_strlit("selection_rotation");
            assert(hook.id_text().len() == 18);
            assert(hook.id_text()[12] == 't');
            assert(hook.id_text()[10] == 'r');
            assert(hook.id_text()[0] == 's');
            assert(hook.id_text()[16] == 'o');
            assert(hook.id_text()[17] == 'n');
        },
        StateHook::Text(TextHook::SelectionGrid) => {
            reveal_strlit("selection_grid");
            assert(hook.id_text().len() == 14);
            assert(hook.id_text()[12] == 'i');
            assert(hook.id_text()[10] == 'g');
            assert(hook.id_text()[0] == 's');
            assert(hook.id_text()[12] == 'i');
            assert(hook.id_text()[13] == 'd');
        },
        StateHook::Text(TextHook::SelectionSize) => {
            reveal_strlit("selection_size");
            assert(hook.id_text().len() == 14);
            assert(hook.id_text()[12] == 'z');
            assert(hook.id_text()[10] == 's');
            assert(hook.id_text()[0] == 's');
            assert(hook.id_text()[12] == 'z');
            assert(hook.id_text()[13] == 'e');
        },
        StateHook::Text(TextHook::SelectionRect) => {
            reveal_strlit("selection_rect");
            assert(hook.id_text().len() == 14);
            assert(hook.id_text()[12] == 'c');
            assert(hook.id_text()[10] == 'r');
            assert(hook.id_text()[0] == 's');
            assert(hook.id_text()[12] == 'c');
            assert(hook.id_text()[13] == 't');
        },
        StateHook::Text(TextHook::AnnotationCount) => {
            reveal_strlit("annotation_count");
            assert(hook.id_text().len() == 16);
            assert(hook.id_text()[12] == 'o');
            assert(hook.id_text()[10] == '_');
            assert(hook.id_text()[0] == 'a');
            assert(hook.id_text()[14] == 'n');
            assert(hook.id_text()[15] == 't');
        },
        StateHook::Text(TextHook::AnnotationTitle) => {
            reveal_strlit("annotation_title");
            assert(hook.id_text().len() == 16);
            assert(hook.id_text()[12] == 'i');
            assert(hook.id_text()[10] == '_');
            assert(hook.id_text()[0] == 'a');
            assert(hook.id_text()[14] == 'l');
            assert(hook.id_text()[15] == 'e');
        },
        StateHook::Text(TextHook::AnnotationTarget) => {
            reveal_strlit("annotation_target");
            assert(hook.id_text().len() == 17);
            assert(hook.id_text()[12] == 'a');
            assert(hook.id_text()[10] == '_');
            assert(hook.id_text()[0] == 'a');
            assert(hook.id_text()[15] == 'e');
            assert(hook.id_text()[16] == 't');
        },
        StateHook::Text(TextHook::AnnotationStatus) => {
            reveal_strlit("annotation_status");
            assert(hook.id_text().len() == 17);
            assert(hook.id_text()[12] == 't');
            assert(hook.id_text()[10] == '_');
            assert(hook.id_text()[0] == 'a');
            assert(hook.id_text()[15] == 'u');
            assert(hook.id_text()[16] == 's');
        },
        StateHook::Text(TextHook::SendAnnotationsLabel) => {
            reveal_strlit("send_annotations_label");
            assert(hook.id_text().len() == 22);
            assert(hook.id_text()[12] == 'i');
            assert(hook.id_text()[10] == 'a');
            assert(hook.id_text()[0] == 's');
            assert(hook.id_text()[20] == 'e');
            assert(hook.id_text()[21] == 'l');
        },
        StateHook::Text(TextHook::ThemeLabel) => {
            reveal_strlit("theme_label");
            assert(hook.id_text().len() == 11);
            assert(hook.id_text()[10] == 'l');
            assert(hook.id_text()[10] == 'l');
            assert(hook.id_text()[0] == 't');
            assert(hook.id_text()[9] == 'e');
            assert(hook.id_text()[10] == 'l');
        },
        StateHook::Text(TextHook::ViewportLabel) => {
            reveal_strlit("viewport_label");
            assert(hook.id_text().len() == 14);
            assert(hook.id_text()[12] == 'e');
            assert(hook.id_text()[10] == 'a');
            assert(hook.id_text()[0] == 'v');
            assert(hook.id_text()[12] == 'e');
            assert(hook.id_text()[13] == 'l');
        },
        StateHook::Text(TextHook::DecorationsLabel) => {
            reveal_strlit("decorations_label");
            assert(hook.id_text().len() == 17);
            assert(hook.id_text()[12] == 'l');
            assert(hook.id_text()[10] == 's');
            assert(hook.id_text()[0] == 'd');
            assert(hook.id_text()[15] == 'e');
            assert(hook.id_text()[16] == 'l');
        },
        StateHook::Text(TextHook::SnapLabel) => {
            reveal_strlit("snap_label");
            assert(hook.id_text().len() == 10);
            assert(hook.id_text()[9] == 'l');
            assert(hook.id_text()[9] == 'l');
            assert(hook.id_text()[0] == 's');
            assert(hook.id_text()[8] == 'e');
            assert(hook.id_text()[9] == 'l');
        },
        StateHook::Text(TextHook::DockToggleLabel) => {
            reveal_strlit("dock_toggle_label");
            assert(hook.id_text().len() == 17);
            assert(hook.id_text()[12] == 'l');
            assert(hook.id_text()[10] == 'e');
            assert(hook.id_text()[0] == 'd');
            assert(hook.id_text()[15] == 'e');
            assert(hook.id_text()[16] == 'l');
        },
        StateHook::Text(TextHook::WelcomeDisclosure) => {
            reveal_strlit("welcome_disclosure");
            assert(hook.id_text().len() == 18);
            assert(hook.id_text()[12] == 'l');
            assert(hook.id_text()[10] == 's');
            assert(hook.id_text()[0] == 'w');
            assert(hook.id_text()[16] == 'r');
            assert(hook.id_text()[17] == 'e');
        },
        StateHook::Text(TextHook::HeaderDisclosure) => {
            reveal_strlit("header_disclosure");
            assert(hook.id_text().len() == 17);
            assert(hook.id_text()[12] == 'o');
            assert(hook.id_text()[10] == 'c');
            assert(hook.id_text()[0] == 'h');
            assert(hook.id_text()[15] == 'r');
            assert(hook.id_text()[16] == 'e');
        },
        StateHook::Text(TextHook::WelcomeCopyDisclosure) => {
            reveal_strlit("welcome_copy_disclosure");
            assert(hook.id_text().len() == 23);
            assert(hook.id_text()[12] == '_');
            assert(hook.id_text()[10] == 'p');
            assert(hook.id_text()[0] == 'w');
            assert(hook.id_text()[21] == 'r');
            assert(hook.id_text()[21] == 'r');
        },
        StateHook::Text(TextHook::FeatureCardsDisclosure) => {
            reveal_strlit("feature_cards_disclosure");
            assert(hook.id_text().len() == 24);
            assert(hook.id_text()[12] == 's');
            assert(hook.id_text()[10] == 'r');
            assert(hook.id_text()[0] == 'f');
            assert(hook.id_text()[22] == 'r');
            assert(hook.id_text()[21] == 'u');
        },
        StateHook::Text(TextHook::WelcomeLowerDisclosure) => {
            reveal_strlit("welcome_lower_disclosure");
            assert(hook.id_text().len() == 24);
            assert(hook.id_text()[12] == 'r');
            assert(hook.id_text()[10] == 'w');
            assert(hook.id_text()[0] == 'w');
            assert(hook.id_text()[22] == 'r');
            assert(hook.id_text()[21] == 'u');
        },
        StateHook::Text(TextHook::ComponentRootDisclosure) => {
            reveal_strlit("component_root_disclosure");
            assert(hook.id_text().len() == 25);
            assert(hook.id_text()[12] == 'o');
            assert(hook.id_text()[10] == 'r');
            assert(hook.id_text()[0] == 'c');
            assert(hook.id_text()[23] == 'r');
            assert(hook.id_text()[21] == 's');
        },
        StateHook::Text(TextHook::ComponentStub) => {
            reveal_strlit("component_stub");
            assert(hook.id_text().len() == 14);
            assert(hook.id_text()[12] == 'u');
            assert(hook.id_text()[10] == 's');
            assert(hook.id_text()[0] == 'c');
            assert(hook.id_text()[12] == 'u');
            assert(hook.id_text()[13] == 'b');
        },
        StateHook::Text(TextHook::CssExcerpt) => {
            reveal_strlit("css_excerpt");
            assert(hook.id_text().len() == 11);
            assert(hook.id_text()[10] == 't');
            assert(hook.id_text()[10] == 't');
            assert(hook.id_text()[0] == 'c');
            assert(hook.id_text()[9] == 'p');
            assert(hook.id_text()[10] == 't');
        },
        StateHook::Text(TextHook::ZoomLabel) => {
            reveal_strlit("zoom_label");
            assert(hook.id_text().len() == 10);
            assert(hook.id_text()[9] == 'l');
            assert(hook.id_text()[9] == 'l');
            assert(hook.id_text()[0] == 'z');
            assert(hook.id_text()[8] == 'e');
            assert(hook.id_text()[9] == 'l');
        },
        StateHook::Text(TextHook::SlotCapacityLabel) => {
            reveal_strlit("slot_capacity_label");
            assert(hook.id_text().len() == 19);
            assert(hook.id_text()[12] == 'y');
            assert(hook.id_text()[10] == 'i');
            assert(hook.id_text()[0] == 's');
            assert(hook.id_text()[17] == 'e');
            assert(hook.id_text()[18] == 'l');
        },
        _ => {},
    }
}

#[verifier::rlimit(100)]
proof fn lemma_flag_keys(hook: StateHook)
    requires
        hook is Flag,
    ensures
        key(hook.id_text()) == code(hook),
        decoded(code(hook)) == Some(hook),
{
    match hook {
        StateHook::Flag(FlagHook::Review(ReviewFlag::AnnotationPopoverVisible)) => {
            reveal_strlit("annotation_popover_visible");
            assert(hook.id_text().len() == 26);
            assert(hook.id_text()[12] == 'o');
            assert(hook.id_text()[10] == '_');
            assert(hook.id_text()[0] == 'a');
            assert(hook.id_text()[24] == 'l');
            assert(hook.id_text()[21] == 's');
        },
        StateHook::Flag(FlagHook::Review(ReviewFlag::AnnotationHasSavedComment)) => {
            reveal_strlit("annotation_has_saved_comment");
            assert(hook.id_text().len() == 28);
            assert(hook.id_text()[12] == 'a');
            assert(hook.id_text()[10] == '_');
            assert(hook.id_text()[0] == 'a');
            assert(hook.id_text()[26] == 'n');
            assert(hook.id_text()[21] == 'c');
        },
        StateHook::Flag(FlagHook::Review(ReviewFlag::SendAnnotationsVisible)) => {
            reveal_strlit("send_annotations_visible");
            assert(hook.id_text().len() == 24);
            assert(hook.id_text()[12] == 'i');
            assert(hook.id_text()[10] == 'a');
            assert(hook.id_text()[0] == 's');
            assert(hook.id_text()[22] == 'l');
            assert(hook.id_text()[21] == 'b');
        },
        StateHook::Flag(FlagHook::Panel(PanelFlag::LayersVisible)) => {
            reveal_strlit("layers_visible");
            assert(hook.id_text().len() == 14);
            assert(hook.id_text()[12] == 'l');
            assert(hook.id_text()[10] == 'i');
            assert(hook.id_text()[0] == 'l');
            assert(hook.id_text()[12] == 'l');
            assert(hook.id_text()[13] == 'e');
        },
        StateHook::Flag(FlagHook::Panel(PanelFlag::FilesVisible)) => {
            reveal_strlit("files_visible");
            assert(hook.id_text().len() == 13);
            assert(hook.id_text()[12] == 'e');
            assert(hook.id_text()[10] == 'b');
            assert(hook.id_text()[0] == 'f');
            assert(hook.id_text()[11] == 'l');
            assert(hook.id_text()[12] == 'e');
        },
        StateHook::Flag(FlagHook::Workspace(WorkspaceFlag::BackendHtmlSelected)) => {
            reveal_strlit("backend_html_selected");
            assert(hook.id_text().len() == 21);
            assert(hook.id_text()[12] == '_');
            assert(hook.id_text()[10] == 'm');
            assert(hook.id_text()[0] == 'b');
            assert(hook.id_text()[19] == 'e');
            assert(hook.id_text()[20] == 'd');
        },
        StateHook::Flag(FlagHook::Workspace(WorkspaceFlag::BackendGpuiSelected)) => {
            reveal_strlit("backend_gpui_selected");
            assert(hook.id_text().len() == 21);
            assert(hook.id_text()[12] == '_');
            assert(hook.id_text()[10] == 'u');
            assert(hook.id_text()[0] == 'b');
            assert(hook.id_text()[19] == 'e');
            assert(hook.id_text()[20] == 'd');
        },
        StateHook::Flag(FlagHook::Workspace(WorkspaceFlag::ModeDesignSelected)) => {
            reveal_strlit("mode_design_selected");
            assert(hook.id_text().len() == 20);
            assert(hook.id_text()[12] == 's');
            assert(hook.id_text()[10] == 'n');
            assert(hook.id_text()[0] == 'm');
            assert(hook.id_text()[18] == 'e');
            assert(hook.id_text()[19] == 'd');
        },
        StateHook::Flag(FlagHook::Workspace(WorkspaceFlag::ModeTestSelected)) => {
            reveal_strlit("mode_test_selected");
            assert(hook.id_text().len() == 18);
            assert(hook.id_text()[12] == 'l');
            assert(hook.id_text()[10] == 's');
            assert(hook.id_text()[0] == 'm');
            assert(hook.id_text()[16] == 'e');
            assert(hook.id_text()[17] == 'd');
        },
        StateHook::Flag(FlagHook::Workspace(WorkspaceFlag::ModeCompareSelected)) => {
            reveal_strlit("mode_compare_selected");
            assert(hook.id_text().len() == 21);
            assert(hook.id_text()[12] == '_');
            assert(hook.id_text()[10] == 'r');
            assert(hook.id_text()[0] == 'm');
            assert(hook.id_text()[19] == 'e');
            assert(hook.id_text()[20] == 'd');
        },
        StateHook::Flag(FlagHook::Workspace(WorkspaceFlag::ToolSelectSelected)) => {
            reveal_strlit("tool_select_selected");
            assert(hook.id_text().len() == 20);
            assert(hook.id_text()[12] == 's');
            assert(hook.id_text()[10] == 't');
            assert(hook.id_text()[0] == 't');
            assert(hook.id_text()[18] == 'e');
            assert(hook.id_text()[19] == 'd');
        },
        StateHook::Flag(FlagHook::Workspace(WorkspaceFlag::ToolMoveSelected)) => {
            reveal_strlit("tool_move_selected");
            assert(hook.id_text().len() == 18);
            assert(hook.id_text()[12] == 'l');
            assert(hook.id_text()[10] == 's');
            assert(hook.id_text()[0] == 't');
            assert(hook.id_text()[16] == 'e');
            assert(hook.id_text()[17] == 'd');
        },
        StateHook::Flag(FlagHook::Workspace(WorkspaceFlag::ToolAnnotateSelected)) => {
            reveal_strlit("tool_annotate_selected");
            assert(hook.id_text().len() == 22);
            assert(hook.id_text()[12] == 'e');
            assert(hook.id_text()[10] == 'a');
            assert(hook.id_text()[0] == 't');
            assert(hook.id_text()[20] == 'e');
            assert(hook.id_text()[21] == 'd');
        },
        StateHook::Flag(FlagHook::Workspace(WorkspaceFlag::ViewDesignSelected)) => {
            reveal_strlit("view_design_selected");
            assert(hook.id_text().len() == 20);
            assert(hook.id_text()[12] == 's');
            assert(hook.id_text()[10] == 'n');
            assert(hook.id_text()[0] == 'v');
            assert(hook.id_text()[18] == 'e');
            assert(hook.id_text()[19] == 'd');
        },
        StateHook::Flag(FlagHook::Workspace(WorkspaceFlag::ViewPreviewSelected)) => {
            reveal_strlit("view_preview_selected");
            assert(hook.id_text().len() == 21);
            assert(hook.id_text()[12] == '_');
            assert(hook.id_text()[10] == 'e');
            assert(hook.id_text()[0] == 'v');
            assert(hook.id_text()[19] == 'e');
            assert(hook.id_text()[20] == 'd');
        },
        StateHook::Flag(FlagHook::Panel(PanelFlag::ProjectMenuVisible)) => {
            reveal_strlit("project_menu_visible");
            assert(hook.id_text().len() == 20);
            assert(hook.id_text()[12] == '_');
            assert(hook.id_text()[10] == 'n');
            assert(hook.id_text()[0] == 'p');
            assert(hook.id_text()[18] == 'l');
            assert(hook.id_text()[19] == 'e');
        },
        StateHook::Flag(FlagHook::Panel(PanelFlag::ViewportMenuVisible)) => {
            reveal_strlit("viewport_menu_visible");
            assert(hook.id_text().len() == 21);
            assert(hook.id_text()[12] == 'u');
            assert(hook.id_text()[10] == 'e');
            assert(hook.id_text()[0] == 'v');
            assert(hook.id_text()[19] == 'l');
            assert(hook.id_text()[20] == 'e');
        },
        StateHook::Flag(FlagHook::Panel(PanelFlag::InspectorLayoutVisible)) => {
            reveal_strlit("inspector_layout_visible");
            assert(hook.id_text().len() == 24);
            assert(hook.id_text()[12] == 'y');
            assert(hook.id_text()[10] == 'l');
            assert(hook.id_text()[0] == 'i');
            assert(hook.id_text()[22] == 'l');
            assert(hook.id_text()[21] == 'b');
        },
        StateHook::Flag(FlagHook::Panel(PanelFlag::InspectorStyleVisible)) => {
            reveal_strlit("inspector_style_visible");
            assert(hook.id_text().len() == 23);
            assert(hook.id_text()[12] == 'y');
            assert(hook.id_text()[10] == 's');
            assert(hook.id_text()[0] == 'i');
            assert(hook.id_text()[21] == 'l');
            assert(hook.id_text()[21] == 'l');
        },
        StateHook::Flag(FlagHook::Panel(PanelFlag::InspectorLogicVisible)) => {
            reveal_strlit("inspector_logic_visible");
            assert(hook.id_text().len() == 23);
            assert(hook.id_text()[12] == 'g');
            assert(hook.id_text()[10] == 'l');
            assert(hook.id_text()[0] == 'i');
            assert(hook.id_text()[21] == 'l');
            assert(hook.id_text()[21] == 'l');
        },
        StateHook::Flag(FlagHook::Panel(PanelFlag::ConstraintLeftSelected)) => {
            reveal_strlit("constraint_left_selected");
            assert(hook.id_text().len() == 24);
            assert(hook.id_text()[12] == 'e');
            assert(hook.id_text()[10] == '_');
            assert(hook.id_text()[0] == 'c');
            assert(hook.id_text()[22] == 'e');
            assert(hook.id_text()[21] == 't');
        },
        StateHook::Flag(FlagHook::Panel(PanelFlag::ConstraintCenterSelected)) => {
            reveal_strlit("constraint_center_selected");
            assert(hook.id_text().len() == 26);
            assert(hook.id_text()[12] == 'e');
            assert(hook.id_text()[10] == '_');
            assert(hook.id_text()[0] == 'c');
            assert(hook.id_text()[24] == 'e');
            assert(hook.id_text()[21] == 'e');
        },
        StateHook::Flag(FlagHook::Panel(PanelFlag::ConstraintRightSelected)) => {
            reveal_strlit("constraint_right_selected");
            assert(hook.id_text().len() == 25);
            assert(hook.id_text()[12] == 'i');
            assert(hook.id_text()[10] == '_');
            assert(hook.id_text()[0] == 'c');
            assert(hook.id_text()[23] == 'e');
            assert(hook.id_text()[21] == 'c');
        },
        StateHook::Flag(FlagHook::Panel(PanelFlag::ConstraintScaleSelected)) => {
            reveal_strlit("constraint_scale_selected");
            assert(hook.id_text().len() == 25);
            assert(hook.id_text()[12] == 'c');
            assert(hook.id_text()[10] == '_');
            assert(hook.id_text()[0] == 'c');
            assert(hook.id_text()[23] == 'e');
            assert(hook.id_text()[21] == 'c');
        },
        StateHook::Flag(FlagHook::Panel(PanelFlag::ConsoleVisible)) => {
            reveal_strlit("console_visible");
            assert(hook.id_text().len() == 15);
            assert(hook.id_text()[12] == 'b');
            assert(hook.id_text()[10] == 's');
            assert(hook.id_text()[0] == 'c');
            assert(hook.id_text()[13] == 'l');
            assert(hook.id_text()[14] == 'e');
        },
        StateHook::Flag(FlagHook::Panel(PanelFlag::StatesVisible)) => {
            reveal_strlit("states_visible");
            assert(hook.id_text().len() == 14);
            assert(hook.id_text()[12] == 'l');
            assert(hook.id_text()[10] == 'i');
            assert(hook.id_text()[0] == 's');
            assert(hook.id_text()[12] == 'l');
            assert(hook.id_text()[13] == 'e');
        },
        StateHook::Flag(FlagHook::Panel(PanelFlag::DockConsoleSelected)) => {
            reveal_strlit("dock_console_selected");
            assert(hook.id_text().len() == 21);
            assert(hook.id_text()[12] == '_');
            assert(hook.id_text()[10] == 'l');
            assert(hook.id_text()[0] == 'd');
            assert(hook.id_text()[19] == 'e');
            assert(hook.id_text()[20] == 'd');
        },
        StateHook::Flag(FlagHook::Panel(PanelFlag::DockStatesSelected)) => {
            reveal_strlit("dock_states_selected");
            assert(hook.id_text().len() == 20);
            assert(hook.id_text()[12] == 's');
            assert(hook.id_text()[10] == 's');
            assert(hook.id_text()[0] == 'd');
            assert(hook.id_text()[18] == 'e');
            assert(hook.id_text()[19] == 'd');
        },
        StateHook::Flag(FlagHook::Layer(LayerFlag::WelcomeChildrenVisible)) => {
            reveal_strlit("welcome_children_visible");
            assert(hook.id_text().len() == 24);
            assert(hook.id_text()[12] == 'd');
            assert(hook.id_text()[10] == 'i');
            assert(hook.id_text()[0] == 'w');
            assert(hook.id_text()[22] == 'l');
            assert(hook.id_text()[21] == 'b');
        },
        StateHook::Flag(FlagHook::Layer(LayerFlag::HeaderChildrenVisible)) => {
            reveal_strlit("header_children_visible");
            assert(hook.id_text().len() == 23);
            assert(hook.id_text()[12] == 'r');
            assert(hook.id_text()[10] == 'l');
            assert(hook.id_text()[0] == 'h');
            assert(hook.id_text()[21] == 'l');
            assert(hook.id_text()[21] == 'l');
        },
        StateHook::Flag(FlagHook::Layer(LayerFlag::WelcomeCopyChildrenVisible)) => {
            reveal_strlit("welcome_copy_children_visible");
            assert(hook.id_text().len() == 29);
            assert(hook.id_text()[12] == '_');
            assert(hook.id_text()[10] == 'p');
            assert(hook.id_text()[0] == 'w');
            assert(hook.id_text()[27] == 'l');
            assert(hook.id_text()[21] == '_');
        },
        StateHook::Flag(FlagHook::Layer(LayerFlag::FeatureCardsChildrenVisible)) => {
            reveal_strlit("feature_cards_children_visible");
            assert(hook.id_text().len() == 30);
            assert(hook.id_text()[12] == 's');
            assert(hook.id_text()[10] == 'r');
            assert(hook.id_text()[1] == 'e');
            assert(hook.id_text()[28] == 'l');
            assert(hook.id_text()[21] == 'n');
        },
        StateHook::Flag(FlagHook::Layer(LayerFlag::WelcomeLowerChildrenVisible)) => {
            reveal_strlit("welcome_lower_children_visible");
            assert(hook.id_text().len() == 30);
            assert(hook.id_text()[12] == 'r');
            assert(hook.id_text()[10] == 'w');
            assert(hook.id_text()[1] == 'e');
            assert(hook.id_text()[28] == 'l');
            assert(hook.id_text()[21] == 'n');
        },
        StateHook::Flag(FlagHook::Element(ElementFlag::LayerWelcomeSelected)) => {
            reveal_strlit("layer_welcome_selected");
            assert(hook.id_text().len() == 22);
            assert(hook.id_text()[12] == 'e');
            assert(hook.id_text()[10] == 'o');
            assert(hook.id_text()[0] == 'l');
            assert(hook.id_text()[20] == 'e');
            assert(hook.id_text()[21] == 'd');
        },
        StateHook::Flag(FlagHook::Element(ElementFlag::LayerRuntimeBadgeSelected)) => {
            reveal_strlit("layer_runtime_badge_selected");
            assert(hook.id_text().len() == 28);
            assert(hook.id_text()[12] == 'e');
            assert(hook.id_text()[10] == 'i');
            assert(hook.id_text()[0] == 'l');
            assert(hook.id_text()[26] == 'e');
            assert(hook.id_text()[21] == 'e');
        },
        StateHook::Flag(FlagHook::Element(ElementFlag::LayerHeaderSelected)) => {
            reveal_strlit("layer_header_selected");
            assert(hook.id_text().len() == 21);
            assert(hook.id_text()[12] == '_');
            assert(hook.id_text()[10] == 'e');
            assert(hook.id_text()[0] == 'l');
            assert(hook.id_text()[19] == 'e');
            assert(hook.id_text()[20] == 'd');
        },
        StateHook::Flag(FlagHook::Element(ElementFlag::LayerWelcomeCopySelected)) => {
            reveal_strlit("layer_welcome_copy_selected");
            assert(hook.id_text().len() == 27);
            assert(hook.id_text()[12] == 'e');
            assert(hook.id_text()[10] == 'o');
            assert(hook.id_text()[0] == 'l');
            assert(hook.id_text()[25] == 'e');
            assert(hook.id_text()[21] == 'l');
        },
        StateHook::Flag(FlagHook::Element(ElementFlag::LayerHeroTitleSelected)) => {
            reveal_strlit("layer_hero_title_selected");
            assert(hook.id_text().len() == 25);
            assert(hook.id_text()[12] == 'i');
            assert(hook.id_text()[10] == '_');
            assert(hook.id_text()[0] == 'l');
            assert(hook.id_text()[23] == 'e');
            assert(hook.id_text()[21] == 'c');
        },
        StateHook::Flag(FlagHook::Element(ElementFlag::LayerFeatureCardsSelected)) => {
            reveal_strlit("layer_feature_cards_selected");
            assert(hook.id_text().len() == 28);
            assert(hook.id_text()[12] == 'e');
            assert(hook.id_text()[10] == 'u');
            assert(hook.id_text()[0] == 'l');
            assert(hook.id_text()[26] == 'e');
            assert(hook.id_text()[21] == 'e');
        },
        StateHook::Flag(FlagHook::Element(ElementFlag::LayerRuntimeBuildingCardSelected)) => {
            reveal_strlit("layer_runtime_building_card_selected");
            assert(hook.id_text().len() == 36);
            assert(hook.id_text()[12] == 'e');
            assert(hook.id_text()[10] == 'i');
            assert(hook.id_text()[7] == 'u');
            assert(hook.id_text()[34] == 'e');
            assert(hook.id_text()[21] == 'g');
        },
        StateHook::Flag(FlagHook::Element(ElementFlag::LayerLocalAiCardSelected)) => {
            reveal_strlit("layer_local_ai_card_selected");
            assert(hook.id_text().len() == 28);
            assert(hook.id_text()[12] == 'a');
            assert(hook.id_text()[10] == 'l');
            assert(hook.id_text()[0] == 'l');
            assert(hook.id_text()[26] == 'e');
            assert(hook.id_text()[21] == 'e');
        },
        StateHook::Flag(FlagHook::Element(ElementFlag::LayerPortableSourceCardSelected)) => {
            reveal_strlit("layer_portable_source_card_selected");
            assert(hook.id_text().len() == 35);
            assert(hook.id_text()[12] == 'l');
            assert(hook.id_text()[10] == 'a');
            assert(hook.id_text()[6] == 'p');
            assert(hook.id_text()[33] == 'e');
            assert(hook.id_text()[21] == '_');
        },
        StateHook::Flag(FlagHook::Element(ElementFlag::LayerComponentSelected)) => {
            reveal_strlit("layer_component_selected");
            assert(hook.id_text().len() == 24);
            assert(hook.id_text()[12] == 'e');
            assert(hook.id_text()[10] == 'o');
            assert(hook.id_text()[0] == 'l');
            assert(hook.id_text()[22] == 'e');
            assert(hook.id_text()[21] == 't');
        },
        StateHook::Flag(FlagHook::Authoring(AuthoringFlag::PageTreeVisible)) => {
            reveal_strlit("page_tree_visible");
            assert(hook.id_text().len() == 17);
            assert(hook.id_text()[12] == 's');
            assert(hook.id_text()[10] == 'v');
            assert(hook.id_text()[0] == 'p');
            assert(hook.id_text()[15] == 'l');
            assert(hook.id_text()[16] == 'e');
        },
        StateHook::Flag(FlagHook::Authoring(AuthoringFlag::ComponentDocumentTreeVisible)) => {
            reveal_strlit("component_document_tree_visible");
            assert(hook.id_text().len() == 31);
            assert(hook.id_text()[12] == 'c');
            assert(hook.id_text()[10] == 'd');
            assert(hook.id_text()[2] == 'm');
            assert(hook.id_text()[29] == 'l');
            assert(hook.id_text()[21] == 'e');
        },
        StateHook::Flag(FlagHook::Authoring(AuthoringFlag::ComponentTreeChildrenVisible)) => {
            reveal_strlit("component_tree_children_visible");
            assert(hook.id_text().len() == 31);
            assert(hook.id_text()[12] == 'e');
            assert(hook.id_text()[10] == 't');
            assert(hook.id_text()[2] == 'm');
            assert(hook.id_text()[29] == 'l');
            assert(hook.id_text()[21] == 'e');
        },
        StateHook::Flag(FlagHook::Authoring(AuthoringFlag::ComponentRootSelected)) => {
            reveal_strlit("component_root_selected");
            assert(hook.id_text().len() == 23);
            assert(hook.id_text()[12] == 'o');
            assert(hook.id_text()[10] == 'r');
            assert(hook.id_text()[0] == 'c');
            assert(hook.id_text()[21] == 'e');
            assert(hook.id_text()[21] == 'e');
        },
        StateHook::Flag(FlagHook::Element(ElementFlag::LayerRuntimeDetailsSelected)) => {
            reveal_strlit("layer_runtime_details_selected");
            assert(hook.id_text().len() == 30);
            assert(hook.id_text()[12] == 'e');
            assert(hook.id_text()[10] == 'i');
            assert(hook.id_text()[1] == 'a');
            assert(hook.id_text()[28] == 'e');
            assert(hook.id_text()[21] == '_');
        },
        StateHook::Flag(FlagHook::Element(ElementFlag::LayerWelcomeLowerSelected)) => {
            reveal_strlit("layer_welcome_lower_selected");
            assert(hook.id_text().len() == 28);
            assert(hook.id_text()[12] == 'e');
            assert(hook.id_text()[10] == 'o');
            assert(hook.id_text()[0] == 'l');
            assert(hook.id_text()[26] == 'e');
            assert(hook.id_text()[21] == 'e');
        },
        StateHook::Flag(FlagHook::Element(ElementFlag::LayerDogfoodNoteSelected)) => {
            reveal_strlit("layer_dogfood_note_selected");
            assert(hook.id_text().len() == 27);
            assert(hook.id_text()[12] == 'd');
            assert(hook.id_text()[10] == 'o');
            assert(hook.id_text()[0] == 'l');
            assert(hook.id_text()[25] == 'e');
            assert(hook.id_text()[21] == 'l');
        },
        StateHook::Flag(FlagHook::Dialog(DialogFlag::ComponentDialogVisible)) => {
            reveal_strlit("component_dialog_visible");
            assert(hook.id_text().len() == 24);
            assert(hook.id_text()[12] == 'a');
            assert(hook.id_text()[10] == 'd');
            assert(hook.id_text()[0] == 'c');
            assert(hook.id_text()[22] == 'l');
            assert(hook.id_text()[21] == 'b');
        },
        StateHook::Flag(FlagHook::Dialog(DialogFlag::ComponentHtmlSelected)) => {
            reveal_strlit("component_html_selected");
            assert(hook.id_text().len() == 23);
            assert(hook.id_text()[12] == 'm');
            assert(hook.id_text()[10] == 'h');
            assert(hook.id_text()[0] == 'c');
            assert(hook.id_text()[21] == 'e');
            assert(hook.id_text()[21] == 'e');
        },
        StateHook::Flag(FlagHook::Dialog(DialogFlag::ComponentGpuiSelected)) => {
            reveal_strlit("component_gpui_selected");
            assert(hook.id_text().len() == 23);
            assert(hook.id_text()[12] == 'u');
            assert(hook.id_text()[10] == 'g');
            assert(hook.id_text()[0] == 'c');
            assert(hook.id_text()[21] == 'e');
            assert(hook.id_text()[21] == 'e');
        },
        StateHook::Flag(FlagHook::Dialog(DialogFlag::ComponentSelectionSelected)) => {
            reveal_strlit("component_selection_selected");
            assert(hook.id_text().len() == 28);
            assert(hook.id_text()[12] == 'l');
            assert(hook.id_text()[10] == 's');
            assert(hook.id_text()[0] == 'c');
            assert(hook.id_text()[26] == 'e');
            assert(hook.id_text()[21] == 'e');
        },
        StateHook::Flag(FlagHook::Dialog(DialogFlag::ComponentBlankSelected)) => {
            reveal_strlit("component_blank_selected");
            assert(hook.id_text().len() == 24);
            assert(hook.id_text()[12] == 'a');
            assert(hook.id_text()[10] == 'b');
            assert(hook.id_text()[0] == 'c');
            assert(hook.id_text()[22] == 'e');
            assert(hook.id_text()[21] == 't');
        },
        StateHook::Flag(FlagHook::Dialog(DialogFlag::ComponentPasteHtmlSelected)) => {
            reveal_strlit("component_paste_html_selected");
            assert(hook.id_text().len() == 29);
            assert(hook.id_text()[12] == 's');
            assert(hook.id_text()[10] == 'p');
            assert(hook.id_text()[0] == 'c');
            assert(hook.id_text()[27] == 'e');
            assert(hook.id_text()[21] == 's');
        },
        StateHook::Flag(FlagHook::Dialog(DialogFlag::ComponentTitlebarSelected)) => {
            reveal_strlit("component_titlebar_selected");
            assert(hook.id_text().len() == 27);
            assert(hook.id_text()[12] == 't');
            assert(hook.id_text()[10] == 't');
            assert(hook.id_text()[0] == 'c');
            assert(hook.id_text()[25] == 'e');
            assert(hook.id_text()[21] == 'l');
        },
        StateHook::Flag(FlagHook::Authoring(AuthoringFlag::InspectorComponentEditable)) => {
            reveal_strlit("inspector_component_editable");
            assert(hook.id_text().len() == 28);
            assert(hook.id_text()[12] == 'm');
            assert(hook.id_text()[10] == 'c');
            assert(hook.id_text()[0] == 'i');
            assert(hook.id_text()[26] == 'l');
            assert(hook.id_text()[21] == 'd');
        },
        StateHook::Flag(FlagHook::SlotMultiple) => {
            reveal_strlit("slot_multiple");
            assert(hook.id_text().len() == 13);
            assert(hook.id_text()[12] == 'e');
            assert(hook.id_text()[10] == 'p');
            assert(hook.id_text()[0] == 's');
            assert(hook.id_text()[11] == 'l');
            assert(hook.id_text()[12] == 'e');
        },
        StateHook::Flag(FlagHook::Authoring(AuthoringFlag::InspectorPageNoticeVisible)) => {
            reveal_strlit("inspector_page_notice_visible");
            assert(hook.id_text().len() == 29);
            assert(hook.id_text()[12] == 'g');
            assert(hook.id_text()[10] == 'p');
            assert(hook.id_text()[0] == 'i');
            assert(hook.id_text()[27] == 'l');
            assert(hook.id_text()[21] == '_');
        },
        _ => {},
    }
}

#[verifier::rlimit(100)]
proof fn lemma_draft_keys(hook: StateHook)
    requires
        hook is Draft,
    ensures
        key(hook.id_text()) == code(hook),
        decoded(code(hook)) == Some(hook),
{
    match hook {
        StateHook::Draft(DraftHook::Annotation) => {
            reveal_strlit("annotation_draft");
            assert(hook.id_text().len() == 16);
            assert(hook.id_text()[12] == 'r');
            assert(hook.id_text()[10] == '_');
            assert(hook.id_text()[0] == 'a');
            assert(hook.id_text()[14] == 'f');
            assert(hook.id_text()[15] == 't');
        },
        StateHook::Draft(DraftHook::ComponentName) => {
            reveal_strlit("component_name");
            assert(hook.id_text().len() == 14);
            assert(hook.id_text()[12] == 'm');
            assert(hook.id_text()[10] == 'n');
            assert(hook.id_text()[0] == 'c');
            assert(hook.id_text()[12] == 'm');
            assert(hook.id_text()[13] == 'e');
        },
        StateHook::Draft(DraftHook::ComponentProps) => {
            reveal_strlit("component_props");
            assert(hook.id_text().len() == 15);
            assert(hook.id_text()[12] == 'o');
            assert(hook.id_text()[10] == 'p');
            assert(hook.id_text()[0] == 'c');
            assert(hook.id_text()[13] == 'p');
            assert(hook.id_text()[14] == 's');
        },
        StateHook::Draft(DraftHook::Property(StudioInspectorDraftField::Name)) => {
            reveal_strlit("inspector_prop_name");
            assert(hook.id_text().len() == 19);
            assert(hook.id_text()[12] == 'o');
            assert(hook.id_text()[10] == 'p');
            assert(hook.id_text()[0] == 'i');
            assert(hook.id_text()[17] == 'm');
            assert(hook.id_text()[18] == 'e');
        },
        StateHook::Draft(DraftHook::Property(StudioInspectorDraftField::Type)) => {
            reveal_strlit("inspector_prop_type");
            assert(hook.id_text().len() == 19);
            assert(hook.id_text()[12] == 'o');
            assert(hook.id_text()[10] == 'p');
            assert(hook.id_text()[0] == 'i');
            assert(hook.id_text()[17] == 'p');
            assert(hook.id_text()[18] == 'e');
        },
        StateHook::Draft(DraftHook::Property(StudioInspectorDraftField::Default)) => {
            reveal_strlit("inspector_prop_default");
            assert(hook.id_text().len() == 22);
            assert(hook.id_text()[12] == 'o');
            assert(hook.id_text()[10] == 'p');
            assert(hook.id_text()[0] == 'i');
            assert(hook.id_text()[20] == 'l');
            assert(hook.id_text()[21] == 't');
        },
        StateHook::Draft(DraftHook::Definition(DefinitionDraftField::StateName)) => {
            reveal_strlit("inspector_state_name");
            assert(hook.id_text().len() == 20);
            assert(hook.id_text()[12] == 'a');
            assert(hook.id_text()[10] == 's');
            assert(hook.id_text()[0] == 'i');
            assert(hook.id_text()[18] == 'm');
            assert(hook.id_text()[19] == 'e');
        },
        StateHook::Draft(DraftHook::Definition(DefinitionDraftField::StateType)) => {
            reveal_strlit("inspector_state_type");
            assert(hook.id_text().len() == 20);
            assert(hook.id_text()[12] == 'a');
            assert(hook.id_text()[10] == 's');
            assert(hook.id_text()[0] == 'i');
            assert(hook.id_text()[18] == 'p');
            assert(hook.id_text()[19] == 'e');
        },
        StateHook::Draft(DraftHook::Definition(DefinitionDraftField::StateDefault)) => {
            reveal_strlit("inspector_state_default");
            assert(hook.id_text().len() == 23);
            assert(hook.id_text()[12] == 'a');
            assert(hook.id_text()[10] == 's');
            assert(hook.id_text()[0] == 'i');
            assert(hook.id_text()[21] == 'l');
            assert(hook.id_text()[21] == 'l');
        },
        StateHook::Draft(DraftHook::Definition(DefinitionDraftField::VariantId)) => {
            reveal_strlit("inspector_variant_id");
            assert(hook.id_text().len() == 20);
            assert(hook.id_text()[12] == 'r');
            assert(hook.id_text()[10] == 'v');
            assert(hook.id_text()[0] == 'i');
            assert(hook.id_text()[18] == 'i');
            assert(hook.id_text()[19] == 'd');
        },
        StateHook::Draft(DraftHook::Definition(DefinitionDraftField::VariantName)) => {
            reveal_strlit("inspector_variant_name");
            assert(hook.id_text().len() == 22);
            assert(hook.id_text()[12] == 'r');
            assert(hook.id_text()[10] == 'v');
            assert(hook.id_text()[0] == 'i');
            assert(hook.id_text()[20] == 'm');
            assert(hook.id_text()[21] == 'e');
        },
        StateHook::Draft(DraftHook::Definition(DefinitionDraftField::SlotName)) => {
            reveal_strlit("inspector_slot_name");
            assert(hook.id_text().len() == 19);
            assert(hook.id_text()[12] == 'o');
            assert(hook.id_text()[10] == 's');
            assert(hook.id_text()[0] == 'i');
            assert(hook.id_text()[17] == 'm');
            assert(hook.id_text()[18] == 'e');
        },
        StateHook::Draft(DraftHook::Definition(DefinitionDraftField::SlotNode)) => {
            reveal_strlit("inspector_slot_node");
            assert(hook.id_text().len() == 19);
            assert(hook.id_text()[12] == 'o');
            assert(hook.id_text()[10] == 's');
            assert(hook.id_text()[0] == 'i');
            assert(hook.id_text()[17] == 'd');
            assert(hook.id_text()[18] == 'e');
        },
        StateHook::Draft(DraftHook::Definition(DefinitionDraftField::TokenPath)) => {
            reveal_strlit("inspector_token_path");
            assert(hook.id_text().len() == 20);
            assert(hook.id_text()[12] == 'k');
            assert(hook.id_text()[10] == 't');
            assert(hook.id_text()[0] == 'i');
            assert(hook.id_text()[18] == 't');
            assert(hook.id_text()[19] == 'h');
        },
        StateHook::Draft(DraftHook::Definition(DefinitionDraftField::TokenKind)) => {
            reveal_strlit("inspector_token_kind");
            assert(hook.id_text().len() == 20);
            assert(hook.id_text()[12] == 'k');
            assert(hook.id_text()[10] == 't');
            assert(hook.id_text()[0] == 'i');
            assert(hook.id_text()[18] == 'n');
            assert(hook.id_text()[19] == 'd');
        },
        StateHook::Draft(DraftHook::Definition(DefinitionDraftField::TokenValue)) => {
            reveal_strlit("inspector_token_value");
            assert(hook.id_text().len() == 21);
            assert(hook.id_text()[12] == 'k');
            assert(hook.id_text()[10] == 't');
            assert(hook.id_text()[0] == 'i');
            assert(hook.id_text()[19] == 'u');
            assert(hook.id_text()[20] == 'e');
        },
        StateHook::Draft(DraftHook::Definition(DefinitionDraftField::TokenDescription)) => {
            reveal_strlit("inspector_token_description");
            assert(hook.id_text().len() == 27);
            assert(hook.id_text()[12] == 'k');
            assert(hook.id_text()[10] == 't');
            assert(hook.id_text()[0] == 'i');
            assert(hook.id_text()[25] == 'o');
            assert(hook.id_text()[21] == 'i');
        },
        _ => {},
    }
}

#[verifier::rlimit(100)]
proof fn lemma_field_keys(hook: StateHook)
    requires
        hook is Field,
    ensures
        key(hook.id_text()) == code(hook),
        decoded(code(hook)) == Some(hook),
{
    match hook {
        StateHook::Field(InspectorValueField::Width) => {
            reveal_strlit("inspector_width_value");
            assert(hook.id_text().len() == 21);
            assert(hook.id_text()[12] == 'd');
            assert(hook.id_text()[10] == 'w');
            assert(hook.id_text()[0] == 'i');
            assert(hook.id_text()[19] == 'u');
            assert(hook.id_text()[20] == 'e');
        },
        StateHook::Field(InspectorValueField::Height) => {
            reveal_strlit("inspector_height_value");
            assert(hook.id_text().len() == 22);
            assert(hook.id_text()[12] == 'i');
            assert(hook.id_text()[10] == 'h');
            assert(hook.id_text()[0] == 'i');
            assert(hook.id_text()[20] == 'u');
            assert(hook.id_text()[21] == 'e');
        },
        StateHook::Field(InspectorValueField::Gap) => {
            reveal_strlit("inspector_gap_value");
            assert(hook.id_text().len() == 19);
            assert(hook.id_text()[12] == 'p');
            assert(hook.id_text()[10] == 'g');
            assert(hook.id_text()[0] == 'i');
            assert(hook.id_text()[17] == 'u');
            assert(hook.id_text()[18] == 'e');
        },
        StateHook::Field(InspectorValueField::Padding) => {
            reveal_strlit("inspector_padding_value");
            assert(hook.id_text().len() == 23);
            assert(hook.id_text()[12] == 'd');
            assert(hook.id_text()[10] == 'p');
            assert(hook.id_text()[0] == 'i');
            assert(hook.id_text()[21] == 'u');
            assert(hook.id_text()[21] == 'u');
        },
        StateHook::Field(InspectorValueField::Margin) => {
            reveal_strlit("inspector_margin_value");
            assert(hook.id_text().len() == 22);
            assert(hook.id_text()[12] == 'r');
            assert(hook.id_text()[10] == 'm');
            assert(hook.id_text()[0] == 'i');
            assert(hook.id_text()[20] == 'u');
            assert(hook.id_text()[21] == 'e');
        },
        StateHook::Field(InspectorValueField::Basis) => {
            reveal_strlit("inspector_basis_value");
            assert(hook.id_text().len() == 21);
            assert(hook.id_text()[12] == 's');
            assert(hook.id_text()[10] == 'b');
            assert(hook.id_text()[0] == 'i');
            assert(hook.id_text()[19] == 'u');
            assert(hook.id_text()[20] == 'e');
        },
        StateHook::Field(InspectorValueField::MinWidth) => {
            reveal_strlit("inspector_min_width_value");
            assert(hook.id_text().len() == 25);
            assert(hook.id_text()[12] == 'n');
            assert(hook.id_text()[10] == 'm');
            assert(hook.id_text()[0] == 'i');
            assert(hook.id_text()[23] == 'u');
            assert(hook.id_text()[21] == 'a');
        },
        StateHook::Field(InspectorValueField::MaxWidth) => {
            reveal_strlit("inspector_max_width_value");
            assert(hook.id_text().len() == 25);
            assert(hook.id_text()[12] == 'x');
            assert(hook.id_text()[10] == 'm');
            assert(hook.id_text()[0] == 'i');
            assert(hook.id_text()[23] == 'u');
            assert(hook.id_text()[21] == 'a');
        },
        StateHook::Field(InspectorValueField::MinHeight) => {
            reveal_strlit("inspector_min_height_value");
            assert(hook.id_text().len() == 26);
            assert(hook.id_text()[12] == 'n');
            assert(hook.id_text()[10] == 'm');
            assert(hook.id_text()[0] == 'i');
            assert(hook.id_text()[24] == 'u');
            assert(hook.id_text()[21] == 'v');
        },
        StateHook::Field(InspectorValueField::MaxHeight) => {
            reveal_strlit("inspector_max_height_value");
            assert(hook.id_text().len() == 26);
            assert(hook.id_text()[12] == 'x');
            assert(hook.id_text()[10] == 'm');
            assert(hook.id_text()[0] == 'i');
            assert(hook.id_text()[24] == 'u');
            assert(hook.id_text()[21] == 'v');
        },
        StateHook::Field(InspectorValueField::GridColumns) => {
            reveal_strlit("inspector_grid_columns_value");
            assert(hook.id_text().len() == 28);
            assert(hook.id_text()[12] == 'i');
            assert(hook.id_text()[10] == 'g');
            assert(hook.id_text()[0] == 'i');
            assert(hook.id_text()[26] == 'u');
            assert(hook.id_text()[21] == 's');
        },
        StateHook::Field(InspectorValueField::GridRows) => {
            reveal_strlit("inspector_grid_rows_value");
            assert(hook.id_text().len() == 25);
            assert(hook.id_text()[12] == 'i');
            assert(hook.id_text()[10] == 'g');
            assert(hook.id_text()[0] == 'i');
            assert(hook.id_text()[23] == 'u');
            assert(hook.id_text()[21] == 'a');
        },
        StateHook::Field(InspectorValueField::ColumnStart) => {
            reveal_strlit("inspector_column_start_value");
            assert(hook.id_text().len() == 28);
            assert(hook.id_text()[12] == 'l');
            assert(hook.id_text()[10] == 'c');
            assert(hook.id_text()[0] == 'i');
            assert(hook.id_text()[26] == 'u');
            assert(hook.id_text()[21] == 't');
        },
        StateHook::Field(InspectorValueField::ColumnSpan) => {
            reveal_strlit("inspector_column_span_value");
            assert(hook.id_text().len() == 27);
            assert(hook.id_text()[12] == 'l');
            assert(hook.id_text()[10] == 'c');
            assert(hook.id_text()[0] == 'i');
            assert(hook.id_text()[25] == 'u');
            assert(hook.id_text()[21] == '_');
        },
        StateHook::Field(InspectorValueField::RowStart) => {
            reveal_strlit("inspector_row_start_value");
            assert(hook.id_text().len() == 25);
            assert(hook.id_text()[12] == 'w');
            assert(hook.id_text()[10] == 'r');
            assert(hook.id_text()[0] == 'i');
            assert(hook.id_text()[23] == 'u');
            assert(hook.id_text()[21] == 'a');
        },
        StateHook::Field(InspectorValueField::RowSpan) => {
            reveal_strlit("inspector_row_span_value");
            assert(hook.id_text().len() == 24);
            assert(hook.id_text()[12] == 'w');
            assert(hook.id_text()[10] == 'r');
            assert(hook.id_text()[0] == 'i');
            assert(hook.id_text()[22] == 'u');
            assert(hook.id_text()[21] == 'l');
        },
        StateHook::Field(InspectorValueField::OffsetLeft) => {
            reveal_strlit("inspector_offset_left_value");
            assert(hook.id_text().len() == 27);
            assert(hook.id_text()[12] == 'f');
            assert(hook.id_text()[10] == 'o');
            assert(hook.id_text()[0] == 'i');
            assert(hook.id_text()[25] == 'u');
            assert(hook.id_text()[21] == '_');
        },
        StateHook::Field(InspectorValueField::OffsetTop) => {
            reveal_strlit("inspector_offset_top_value");
            assert(hook.id_text().len() == 26);
            assert(hook.id_text()[12] == 'f');
            assert(hook.id_text()[10] == 'o');
            assert(hook.id_text()[0] == 'i');
            assert(hook.id_text()[24] == 'u');
            assert(hook.id_text()[21] == 'v');
        },
        StateHook::Field(InspectorValueField::OffsetRight) => {
            reveal_strlit("inspector_offset_right_value");
            assert(hook.id_text().len() == 28);
            assert(hook.id_text()[12] == 'f');
            assert(hook.id_text()[10] == 'o');
            assert(hook.id_text()[0] == 'i');
            assert(hook.id_text()[26] == 'u');
            assert(hook.id_text()[21] == 't');
        },
        StateHook::Field(InspectorValueField::OffsetBottom) => {
            reveal_strlit("inspector_offset_bottom_value");
            assert(hook.id_text().len() == 29);
            assert(hook.id_text()[12] == 'f');
            assert(hook.id_text()[10] == 'o');
            assert(hook.id_text()[0] == 'i');
            assert(hook.id_text()[27] == 'u');
            assert(hook.id_text()[21] == 'o');
        },
        StateHook::Field(InspectorValueField::ZIndex) => {
            reveal_strlit("inspector_z_index_value");
            assert(hook.id_text().len() == 23);
            assert(hook.id_text()[12] == 'i');
            assert(hook.id_text()[10] == 'z');
            assert(hook.id_text()[0] == 'i');
            assert(hook.id_text()[21] == 'u');
            assert(hook.id_text()[21] == 'u');
        },
        StateHook::Field(InspectorValueField::Opacity) => {
            reveal_strlit("inspector_opacity_value");
            assert(hook.id_text().len() == 23);
            assert(hook.id_text()[12] == 'a');
            assert(hook.id_text()[10] == 'o');
            assert(hook.id_text()[0] == 'i');
            assert(hook.id_text()[21] == 'u');
            assert(hook.id_text()[21] == 'u');
        },
        StateHook::Field(InspectorValueField::Rotation) => {
            reveal_strlit("inspector_rotation_value");
            assert(hook.id_text().len() == 24);
            assert(hook.id_text()[12] == 't');
            assert(hook.id_text()[10] == 'r');
            assert(hook.id_text()[0] == 'i');
            assert(hook.id_text()[22] == 'u');
            assert(hook.id_text()[21] == 'l');
        },
        StateHook::Field(InspectorValueField::Radius) => {
            reveal_strlit("inspector_radius_value");
            assert(hook.id_text().len() == 22);
            assert(hook.id_text()[12] == 'd');
            assert(hook.id_text()[10] == 'r');
            assert(hook.id_text()[0] == 'i');
            assert(hook.id_text()[20] == 'u');
            assert(hook.id_text()[21] == 'e');
        },
        StateHook::Field(InspectorValueField::Background) => {
            reveal_strlit("inspector_background_value");
            assert(hook.id_text().len() == 26);
            assert(hook.id_text()[12] == 'c');
            assert(hook.id_text()[10] == 'b');
            assert(hook.id_text()[0] == 'i');
            assert(hook.id_text()[24] == 'u');
            assert(hook.id_text()[21] == 'v');
        },
        StateHook::Field(InspectorValueField::Foreground) => {
            reveal_strlit("inspector_foreground_value");
            assert(hook.id_text().len() == 26);
            assert(hook.id_text()[12] == 'r');
            assert(hook.id_text()[10] == 'f');
            assert(hook.id_text()[0] == 'i');
            assert(hook.id_text()[24] == 'u');
            assert(hook.id_text()[21] == 'v');
        },
        StateHook::Field(InspectorValueField::Border) => {
            reveal_strlit("inspector_border_value");
            assert(hook.id_text().len() == 22);
            assert(hook.id_text()[12] == 'r');
            assert(hook.id_text()[10] == 'b');
            assert(hook.id_text()[0] == 'i');
            assert(hook.id_text()[20] == 'u');
            assert(hook.id_text()[21] == 'e');
        },
        StateHook::Field(InspectorValueField::Text) => {
            reveal_strlit("inspector_text_value");
            assert(hook.id_text().len() == 20);
            assert(hook.id_text()[12] == 'x');
            assert(hook.id_text()[10] == 't');
            assert(hook.id_text()[0] == 'i');
            assert(hook.id_text()[18] == 'u');
            assert(hook.id_text()[19] == 'e');
        },
        StateHook::Field(InspectorValueField::FontFamily) => {
            reveal_strlit("inspector_font_value");
            assert(hook.id_text().len() == 20);
            assert(hook.id_text()[12] == 'n');
            assert(hook.id_text()[10] == 'f');
            assert(hook.id_text()[0] == 'i');
            assert(hook.id_text()[18] == 'u');
            assert(hook.id_text()[19] == 'e');
        },
        StateHook::Field(InspectorValueField::FontSize) => {
            reveal_strlit("inspector_font_size_value");
            assert(hook.id_text().len() == 25);
            assert(hook.id_text()[12] == 'n');
            assert(hook.id_text()[10] == 'f');
            assert(hook.id_text()[0] == 'i');
            assert(hook.id_text()[23] == 'u');
            assert(hook.id_text()[21] == 'a');
        },
        StateHook::Field(InspectorValueField::FontWeight) => {
            reveal_strlit("inspector_font_weight_value");
            assert(hook.id_text().len() == 27);
            assert(hook.id_text()[12] == 'n');
            assert(hook.id_text()[10] == 'f');
            assert(hook.id_text()[0] == 'i');
            assert(hook.id_text()[25] == 'u');
            assert(hook.id_text()[21] == '_');
        },
        StateHook::Field(InspectorValueField::LineHeight) => {
            reveal_strlit("inspector_line_height_value");
            assert(hook.id_text().len() == 27);
            assert(hook.id_text()[12] == 'n');
            assert(hook.id_text()[10] == 'l');
            assert(hook.id_text()[0] == 'i');
            assert(hook.id_text()[25] == 'u');
            assert(hook.id_text()[21] == '_');
        },
        StateHook::Field(InspectorValueField::Action) => {
            reveal_strlit("inspector_action_value");
            assert(hook.id_text().len() == 22);
            assert(hook.id_text()[12] == 't');
            assert(hook.id_text()[10] == 'a');
            assert(hook.id_text()[0] == 'i');
            assert(hook.id_text()[20] == 'u');
            assert(hook.id_text()[21] == 'e');
        },
        _ => {},
    }
}

#[verifier::rlimit(100)]
proof fn lemma_node_keys(hook: StateHook)
    requires
        hook is Node,
    ensures
        key(hook.id_text()) == code(hook),
        decoded(code(hook)) == Some(hook),
{
    match hook {
        StateHook::Node(NodeHook::Intrinsic(InspectorSizeAxis::Width)) => {
            reveal_strlit("inspector_width_intrinsic");
            assert(hook.id_text().len() == 25);
            assert(hook.id_text()[12] == 'd');
            assert(hook.id_text()[10] == 'w');
            assert(hook.id_text()[0] == 'i');
            assert(hook.id_text()[23] == 'i');
            assert(hook.id_text()[21] == 'n');
        },
        StateHook::Node(NodeHook::Intrinsic(InspectorSizeAxis::Height)) => {
            reveal_strlit("inspector_height_intrinsic");
            assert(hook.id_text().len() == 26);
            assert(hook.id_text()[12] == 'i');
            assert(hook.id_text()[10] == 'h');
            assert(hook.id_text()[0] == 'i');
            assert(hook.id_text()[24] == 'i');
            assert(hook.id_text()[21] == 'i');
        },
        StateHook::Node(NodeHook::Size(InspectorSizeAxis::Width, SizePolicy::Hug)) => {
            reveal_strlit("inspector_width_hug");
            assert(hook.id_text().len() == 19);
            assert(hook.id_text()[12] == 'd');
            assert(hook.id_text()[10] == 'w');
            assert(hook.id_text()[0] == 'i');
            assert(hook.id_text()[17] == 'u');
            assert(hook.id_text()[18] == 'g');
        },
        StateHook::Node(NodeHook::Size(InspectorSizeAxis::Width, SizePolicy::Fill)) => {
            reveal_strlit("inspector_width_fill");
            assert(hook.id_text().len() == 20);
            assert(hook.id_text()[12] == 'd');
            assert(hook.id_text()[10] == 'w');
            assert(hook.id_text()[0] == 'i');
            assert(hook.id_text()[18] == 'l');
            assert(hook.id_text()[19] == 'l');
        },
        StateHook::Node(NodeHook::Size(InspectorSizeAxis::Width, SizePolicy::Fixed)) => {
            reveal_strlit("inspector_width_fixed");
            assert(hook.id_text().len() == 21);
            assert(hook.id_text()[12] == 'd');
            assert(hook.id_text()[10] == 'w');
            assert(hook.id_text()[0] == 'i');
            assert(hook.id_text()[19] == 'e');
            assert(hook.id_text()[20] == 'd');
        },
        StateHook::Node(NodeHook::Size(InspectorSizeAxis::Height, SizePolicy::Hug)) => {
            reveal_strlit("inspector_height_hug");
            assert(hook.id_text().len() == 20);
            assert(hook.id_text()[12] == 'i');
            assert(hook.id_text()[10] == 'h');
            assert(hook.id_text()[0] == 'i');
            assert(hook.id_text()[18] == 'u');
            assert(hook.id_text()[19] == 'g');
        },
        StateHook::Node(NodeHook::Size(InspectorSizeAxis::Height, SizePolicy::Fill)) => {
            reveal_strlit("inspector_height_fill");
            assert(hook.id_text().len() == 21);
            assert(hook.id_text()[12] == 'i');
            assert(hook.id_text()[10] == 'h');
            assert(hook.id_text()[0] == 'i');
            assert(hook.id_text()[19] == 'l');
            assert(hook.id_text()[20] == 'l');
        },
        StateHook::Node(NodeHook::Size(InspectorSizeAxis::Height, SizePolicy::Fixed)) => {
            reveal_strlit("inspector_height_fixed");
            assert(hook.id_text().len() == 22);
            assert(hook.id_text()[12] == 'i');
            assert(hook.id_text()[10] == 'h');
            assert(hook.id_text()[0] == 'i');
            assert(hook.id_text()[20] == 'e');
            assert(hook.id_text()[21] == 'd');
        },
        StateHook::Node(NodeHook::Alignment(InspectorAlignmentAxis::Align, AlignPolicy::Start)) => {
            reveal_strlit("inspector_align_start");
            assert(hook.id_text().len() == 21);
            assert(hook.id_text()[12] == 'i');
            assert(hook.id_text()[10] == 'a');
            assert(hook.id_text()[0] == 'i');
            assert(hook.id_text()[19] == 'r');
            assert(hook.id_text()[20] == 't');
        },
        StateHook::Node(NodeHook::Alignment(InspectorAlignmentAxis::Align, AlignPolicy::Center)) => {
            reveal_strlit("inspector_align_center");
            assert(hook.id_text().len() == 22);
            assert(hook.id_text()[12] == 'i');
            assert(hook.id_text()[10] == 'a');
            assert(hook.id_text()[0] == 'i');
            assert(hook.id_text()[20] == 'e');
            assert(hook.id_text()[21] == 'r');
        },
        StateHook::Node(NodeHook::Alignment(InspectorAlignmentAxis::Align, AlignPolicy::End)) => {
            reveal_strlit("inspector_align_end");
            assert(hook.id_text().len() == 19);
            assert(hook.id_text()[12] == 'i');
            assert(hook.id_text()[10] == 'a');
            assert(hook.id_text()[0] == 'i');
            assert(hook.id_text()[17] == 'n');
            assert(hook.id_text()[18] == 'd');
        },
        StateHook::Node(NodeHook::Alignment(InspectorAlignmentAxis::Justify, AlignPolicy::Start)) => {
            reveal_strlit("inspector_justify_start");
            assert(hook.id_text().len() == 23);
            assert(hook.id_text()[12] == 's');
            assert(hook.id_text()[10] == 'j');
            assert(hook.id_text()[0] == 'i');
            assert(hook.id_text()[21] == 'r');
            assert(hook.id_text()[21] == 'r');
        },
        StateHook::Node(NodeHook::Alignment(InspectorAlignmentAxis::Justify, AlignPolicy::Center)) => {
            reveal_strlit("inspector_justify_center");
            assert(hook.id_text().len() == 24);
            assert(hook.id_text()[12] == 's');
            assert(hook.id_text()[10] == 'j');
            assert(hook.id_text()[0] == 'i');
            assert(hook.id_text()[22] == 'e');
            assert(hook.id_text()[21] == 't');
        },
        StateHook::Node(NodeHook::Alignment(InspectorAlignmentAxis::Justify, AlignPolicy::End)) => {
            reveal_strlit("inspector_justify_end");
            assert(hook.id_text().len() == 21);
            assert(hook.id_text()[12] == 's');
            assert(hook.id_text()[10] == 'j');
            assert(hook.id_text()[0] == 'i');
            assert(hook.id_text()[19] == 'n');
            assert(hook.id_text()[20] == 'd');
        },
        StateHook::Node(NodeHook::Layout(InspectorLayoutChoice::Wrap(NativeWrap::NoWrap))) => {
            reveal_strlit("inspector_wrap_none");
            assert(hook.id_text().len() == 19);
            assert(hook.id_text()[12] == 'a');
            assert(hook.id_text()[10] == 'w');
            assert(hook.id_text()[0] == 'i');
            assert(hook.id_text()[17] == 'n');
            assert(hook.id_text()[18] == 'e');
        },
        StateHook::Node(NodeHook::Layout(InspectorLayoutChoice::Wrap(NativeWrap::Wrap))) => {
            reveal_strlit("inspector_wrap_wrap");
            assert(hook.id_text().len() == 19);
            assert(hook.id_text()[12] == 'a');
            assert(hook.id_text()[10] == 'w');
            assert(hook.id_text()[0] == 'i');
            assert(hook.id_text()[17] == 'a');
            assert(hook.id_text()[18] == 'p');
        },
        StateHook::Node(NodeHook::Layout(InspectorLayoutChoice::Wrap(NativeWrap::WrapReverse))) => {
            reveal_strlit("inspector_wrap_reverse");
            assert(hook.id_text().len() == 22);
            assert(hook.id_text()[12] == 'a');
            assert(hook.id_text()[10] == 'w');
            assert(hook.id_text()[0] == 'i');
            assert(hook.id_text()[20] == 's');
            assert(hook.id_text()[21] == 'e');
        },
        StateHook::Node(NodeHook::Layout(InspectorLayoutChoice::Position(NativePosition::Flow))) => {
            reveal_strlit("inspector_position_flow");
            assert(hook.id_text().len() == 23);
            assert(hook.id_text()[12] == 's');
            assert(hook.id_text()[10] == 'p');
            assert(hook.id_text()[0] == 'i');
            assert(hook.id_text()[21] == 'o');
            assert(hook.id_text()[21] == 'o');
        },
        StateHook::Node(NodeHook::Layout(InspectorLayoutChoice::Position(NativePosition::Absolute))) => {
            reveal_strlit("inspector_position_absolute");
            assert(hook.id_text().len() == 27);
            assert(hook.id_text()[12] == 's');
            assert(hook.id_text()[10] == 'p');
            assert(hook.id_text()[0] == 'i');
            assert(hook.id_text()[25] == 't');
            assert(hook.id_text()[21] == 's');
        },
        StateHook::Node(NodeHook::Layout(InspectorLayoutChoice::Overflow(NativeOverflow::Visible))) => {
            reveal_strlit("inspector_overflow_visible");
            assert(hook.id_text().len() == 26);
            assert(hook.id_text()[12] == 'e');
            assert(hook.id_text()[10] == 'o');
            assert(hook.id_text()[0] == 'i');
            assert(hook.id_text()[24] == 'l');
            assert(hook.id_text()[21] == 's');
        },
        StateHook::Node(NodeHook::Layout(InspectorLayoutChoice::Overflow(NativeOverflow::Hidden))) => {
            reveal_strlit("inspector_overflow_hidden");
            assert(hook.id_text().len() == 25);
            assert(hook.id_text()[12] == 'e');
            assert(hook.id_text()[10] == 'o');
            assert(hook.id_text()[0] == 'i');
            assert(hook.id_text()[23] == 'e');
            assert(hook.id_text()[21] == 'd');
        },
        StateHook::Node(NodeHook::Layout(InspectorLayoutChoice::Overflow(NativeOverflow::Scroll))) => {
            reveal_strlit("inspector_overflow_scroll");
            assert(hook.id_text().len() == 25);
            assert(hook.id_text()[12] == 'e');
            assert(hook.id_text()[10] == 'o');
            assert(hook.id_text()[0] == 'i');
            assert(hook.id_text()[23] == 'l');
            assert(hook.id_text()[21] == 'r');
        },
        StateHook::Node(NodeHook::Layout(InspectorLayoutChoice::HorizontalConstraint(NativeConstraint::Start))) => {
            reveal_strlit("inspector_constraint_x_");
            reveal_strlit("start");
            assert(hook.id_text().len() == 28);
            assert(hook.id_text()[12] == 'n');
            assert(hook.id_text()[10] == 'c');
            assert(hook.id_text()[0] == 'i');
            assert(hook.id_text()[26] == 'r');
            assert(hook.id_text()[21] == 'x');
        },
        StateHook::Node(NodeHook::Layout(InspectorLayoutChoice::HorizontalConstraint(NativeConstraint::Center))) => {
            reveal_strlit("inspector_constraint_x_");
            reveal_strlit("center");
            assert(hook.id_text().len() == 29);
            assert(hook.id_text()[12] == 'n');
            assert(hook.id_text()[10] == 'c');
            assert(hook.id_text()[0] == 'i');
            assert(hook.id_text()[27] == 'e');
            assert(hook.id_text()[21] == 'x');
        },
        StateHook::Node(NodeHook::Layout(InspectorLayoutChoice::HorizontalConstraint(NativeConstraint::End))) => {
            reveal_strlit("inspector_constraint_x_");
            reveal_strlit("end");
            assert(hook.id_text().len() == 26);
            assert(hook.id_text()[12] == 'n');
            assert(hook.id_text()[10] == 'c');
            assert(hook.id_text()[0] == 'i');
            assert(hook.id_text()[24] == 'n');
            assert(hook.id_text()[21] == 'x');
        },
        StateHook::Node(NodeHook::Layout(InspectorLayoutChoice::HorizontalConstraint(NativeConstraint::Scale))) => {
            reveal_strlit("inspector_constraint_x_");
            reveal_strlit("scale");
            assert(hook.id_text().len() == 28);
            assert(hook.id_text()[12] == 'n');
            assert(hook.id_text()[10] == 'c');
            assert(hook.id_text()[0] == 'i');
            assert(hook.id_text()[26] == 'l');
            assert(hook.id_text()[21] == 'x');
        },
        StateHook::Node(NodeHook::Layout(InspectorLayoutChoice::HorizontalConstraint(NativeConstraint::Stretch))) => {
            reveal_strlit("inspector_constraint_x_");
            reveal_strlit("stretch");
            assert(hook.id_text().len() == 30);
            assert(hook.id_text()[12] == 'n');
            assert(hook.id_text()[10] == 'c');
            assert(hook.id_text()[1] == 'n');
            assert(hook.id_text()[28] == 'c');
            assert(hook.id_text()[21] == 'x');
        },
        StateHook::Node(NodeHook::Layout(InspectorLayoutChoice::VerticalConstraint(NativeConstraint::Start))) => {
            reveal_strlit("inspector_constraint_y_");
            reveal_strlit("start");
            assert(hook.id_text().len() == 28);
            assert(hook.id_text()[12] == 'n');
            assert(hook.id_text()[10] == 'c');
            assert(hook.id_text()[0] == 'i');
            assert(hook.id_text()[26] == 'r');
            assert(hook.id_text()[21] == 'y');
        },
        StateHook::Node(NodeHook::Layout(InspectorLayoutChoice::VerticalConstraint(NativeConstraint::Center))) => {
            reveal_strlit("inspector_constraint_y_");
            reveal_strlit("center");
            assert(hook.id_text().len() == 29);
            assert(hook.id_text()[12] == 'n');
            assert(hook.id_text()[10] == 'c');
            assert(hook.id_text()[0] == 'i');
            assert(hook.id_text()[27] == 'e');
            assert(hook.id_text()[21] == 'y');
        },
        StateHook::Node(NodeHook::Layout(InspectorLayoutChoice::VerticalConstraint(NativeConstraint::End))) => {
            reveal_strlit("inspector_constraint_y_");
            reveal_strlit("end");
            assert(hook.id_text().len() == 26);
            assert(hook.id_text()[12] == 'n');
            assert(hook.id_text()[10] == 'c');
            assert(hook.id_text()[0] == 'i');
            assert(hook.id_text()[24] == 'n');
            assert(hook.id_text()[21] == 'y');
        },
        StateHook::Node(NodeHook::Layout(InspectorLayoutChoice::VerticalConstraint(NativeConstraint::Scale))) => {
            reveal_strlit("inspector_constraint_y_");
            reveal_strlit("scale");
            assert(hook.id_text().len() == 28);
            assert(hook.id_text()[12] == 'n');
            assert(hook.id_text()[10] == 'c');
            assert(hook.id_text()[0] == 'i');
            assert(hook.id_text()[26] == 'l');
            assert(hook.id_text()[21] == 'y');
        },
        StateHook::Node(NodeHook::Layout(InspectorLayoutChoice::VerticalConstraint(NativeConstraint::Stretch))) => {
            reveal_strlit("inspector_constraint_y_");
            reveal_strlit("stretch");
            assert(hook.id_text().len() == 30);
            assert(hook.id_text()[12] == 'n');
            assert(hook.id_text()[10] == 'c');
            assert(hook.id_text()[1] == 'n');
            assert(hook.id_text()[28] == 'c');
            assert(hook.id_text()[21] == 'y');
        },
        StateHook::Node(NodeHook::Layout(InspectorLayoutChoice::Grow(false))) => {
            reveal_strlit("inspector_grow_off");
            assert(hook.id_text().len() == 18);
            assert(hook.id_text()[12] == 'o');
            assert(hook.id_text()[10] == 'g');
            assert(hook.id_text()[0] == 'i');
            assert(hook.id_text()[16] == 'f');
            assert(hook.id_text()[17] == 'f');
        },
        StateHook::Node(NodeHook::Layout(InspectorLayoutChoice::Grow(true))) => {
            reveal_strlit("inspector_grow_on");
            assert(hook.id_text().len() == 17);
            assert(hook.id_text()[12] == 'o');
            assert(hook.id_text()[10] == 'g');
            assert(hook.id_text()[0] == 'i');
            assert(hook.id_text()[15] == 'o');
            assert(hook.id_text()[16] == 'n');
        },
        StateHook::Node(NodeHook::Layout(InspectorLayoutChoice::Shrink(false))) => {
            reveal_strlit("inspector_shrink_off");
            assert(hook.id_text().len() == 20);
            assert(hook.id_text()[12] == 'r');
            assert(hook.id_text()[10] == 's');
            assert(hook.id_text()[0] == 'i');
            assert(hook.id_text()[18] == 'f');
            assert(hook.id_text()[19] == 'f');
        },
        StateHook::Node(NodeHook::Layout(InspectorLayoutChoice::Shrink(true))) => {
            reveal_strlit("inspector_shrink_on");
            assert(hook.id_text().len() == 19);
            assert(hook.id_text()[12] == 'r');
            assert(hook.id_text()[10] == 's');
            assert(hook.id_text()[0] == 'i');
            assert(hook.id_text()[17] == 'o');
            assert(hook.id_text()[18] == 'n');
        },
        _ => {},
    }
}

#[verifier::rlimit(100)]
proof fn lemma_preset_keys(hook: StateHook)
    requires
        hook is Preset,
    ensures
        key(hook.id_text()) == code(hook),
        decoded(code(hook)) == Some(hook),
{
    match hook {
        StateHook::Preset(ComponentPreset::Button) => {
            reveal_strlit("preset_");
            reveal_strlit("button");
            reveal_strlit("_selected");
            assert(hook.id_text().len() == 22);
            assert(hook.id_text()[12] == 'n');
            assert(hook.id_text()[10] == 't');
            assert(hook.id_text()[0] == 'p');
            assert(hook.id_text()[20] == 'e');
            assert(hook.id_text()[21] == 'd');
        },
        StateHook::Preset(ComponentPreset::ButtonGroup) => {
            reveal_strlit("preset_");
            reveal_strlit("button_group");
            reveal_strlit("_selected");
            assert(hook.id_text().len() == 28);
            assert(hook.id_text()[12] == 'n');
            assert(hook.id_text()[10] == 't');
            assert(hook.id_text()[0] == 'p');
            assert(hook.id_text()[26] == 'e');
            assert(hook.id_text()[21] == 'e');
        },
        StateHook::Preset(ComponentPreset::Card) => {
            reveal_strlit("preset_");
            reveal_strlit("card");
            reveal_strlit("_selected");
            assert(hook.id_text().len() == 20);
            assert(hook.id_text()[12] == 's');
            assert(hook.id_text()[10] == 'd');
            assert(hook.id_text()[0] == 'p');
            assert(hook.id_text()[18] == 'e');
            assert(hook.id_text()[19] == 'd');
        },
        StateHook::Preset(ComponentPreset::Badge) => {
            reveal_strlit("preset_");
            reveal_strlit("badge");
            reveal_strlit("_selected");
            assert(hook.id_text().len() == 21);
            assert(hook.id_text()[12] == '_');
            assert(hook.id_text()[10] == 'g');
            assert(hook.id_text()[0] == 'p');
            assert(hook.id_text()[19] == 'e');
            assert(hook.id_text()[20] == 'd');
        },
        StateHook::Preset(ComponentPreset::Alert) => {
            reveal_strlit("preset_");
            reveal_strlit("alert");
            reveal_strlit("_selected");
            assert(hook.id_text().len() == 21);
            assert(hook.id_text()[12] == '_');
            assert(hook.id_text()[10] == 'r');
            assert(hook.id_text()[0] == 'p');
            assert(hook.id_text()[19] == 'e');
            assert(hook.id_text()[20] == 'd');
        },
        StateHook::Preset(ComponentPreset::Toolbar) => {
            reveal_strlit("preset_");
            reveal_strlit("toolbar");
            reveal_strlit("_selected");
            assert(hook.id_text().len() == 23);
            assert(hook.id_text()[12] == 'a');
            assert(hook.id_text()[10] == 'l');
            assert(hook.id_text()[0] == 'p');
            assert(hook.id_text()[21] == 'e');
            assert(hook.id_text()[21] == 'e');
        },
        StateHook::Preset(ComponentPreset::Avatar) => {
            reveal_strlit("preset_");
            reveal_strlit("avatar");
            reveal_strlit("_selected");
            assert(hook.id_text().len() == 22);
            assert(hook.id_text()[12] == 'r');
            assert(hook.id_text()[10] == 't');
            assert(hook.id_text()[0] == 'p');
            assert(hook.id_text()[20] == 'e');
            assert(hook.id_text()[21] == 'd');
        },
        StateHook::Preset(ComponentPreset::EmptyState) => {
            reveal_strlit("preset_");
            reveal_strlit("empty_state");
            reveal_strlit("_selected");
            assert(hook.id_text().len() == 27);
            assert(hook.id_text()[12] == '_');
            assert(hook.id_text()[10] == 't');
            assert(hook.id_text()[0] == 'p');
            assert(hook.id_text()[25] == 'e');
            assert(hook.id_text()[21] == 'l');
        },
        StateHook::Preset(ComponentPreset::Titlebar) => {
            reveal_strlit("preset_");
            reveal_strlit("titlebar");
            reveal_strlit("_selected");
            assert(hook.id_text().len() == 24);
            assert(hook.id_text()[12] == 'b');
            assert(hook.id_text()[10] == 'l');
            assert(hook.id_text()[0] == 'p');
            assert(hook.id_text()[22] == 'e');
            assert(hook.id_text()[21] == 't');
        },
        StateHook::Preset(ComponentPreset::Tabs) => {
            reveal_strlit("preset_");
            reveal_strlit("tabs");
            reveal_strlit("_selected");
            assert(hook.id_text().len() == 20);
            assert(hook.id_text()[12] == 's');
            assert(hook.id_text()[10] == 's');
            assert(hook.id_text()[0] == 'p');
            assert(hook.id_text()[18] == 'e');
            assert(hook.id_text()[19] == 'd');
        },
        StateHook::Preset(ComponentPreset::Dialog) => {
            reveal_strlit("preset_");
            reveal_strlit("dialog");
            reveal_strlit("_selected");
            assert(hook.id_text().len() == 22);
            assert(hook.id_text()[12] == 'g');
            assert(hook.id_text()[10] == 'l');
            assert(hook.id_text()[0] == 'p');
            assert(hook.id_text()[20] == 'e');
            assert(hook.id_text()[21] == 'd');
        },
        StateHook::Preset(ComponentPreset::Dropdown) => {
            reveal_strlit("preset_");
            reveal_strlit("dropdown");
            reveal_strlit("_selected");
            assert(hook.id_text().len() == 24);
            assert(hook.id_text()[12] == 'o');
            assert(hook.id_text()[10] == 'p');
            assert(hook.id_text()[0] == 'p');
            assert(hook.id_text()[22] == 'e');
            assert(hook.id_text()[21] == 't');
        },
        StateHook::Preset(ComponentPreset::DropdownMenu) => {
            reveal_strlit("preset_");
            reveal_strlit("dropdown_menu");
            reveal_strlit("_selected");
            assert(hook.id_text().len() == 29);
            assert(hook.id_text()[12] == 'o');
            assert(hook.id_text()[10] == 'p');
            assert(hook.id_text()[0] == 'p');
            assert(hook.id_text()[27] == 'e');
            assert(hook.id_text()[21] == 's');
        },
        StateHook::Preset(ComponentPreset::Drawer) => {
            reveal_strlit("preset_");
            reveal_strlit("drawer");
            reveal_strlit("_selected");
            assert(hook.id_text().len() == 22);
            assert(hook.id_text()[12] == 'r');
            assert(hook.id_text()[10] == 'w');
            assert(hook.id_text()[0] == 'p');
            assert(hook.id_text()[20] == 'e');
            assert(hook.id_text()[21] == 'd');
        },
        StateHook::Preset(ComponentPreset::Scrollable) => {
            reveal_strlit("preset_");
            reveal_strlit("scrollable");
            reveal_strlit("_selected");
            assert(hook.id_text().len() == 26);
            assert(hook.id_text()[12] == 'l');
            assert(hook.id_text()[10] == 'o');
            assert(hook.id_text()[0] == 'p');
            assert(hook.id_text()[24] == 'e');
            assert(hook.id_text()[21] == 'e');
        },
        StateHook::Preset(ComponentPreset::Resizable) => {
            reveal_strlit("preset_");
            reveal_strlit("resizable");
            reveal_strlit("_selected");
            assert(hook.id_text().len() == 25);
            assert(hook.id_text()[12] == 'a');
            assert(hook.id_text()[10] == 'i');
            assert(hook.id_text()[0] == 'p');
            assert(hook.id_text()[23] == 'e');
            assert(hook.id_text()[21] == 'c');
        },
        StateHook::Preset(ComponentPreset::Tooltip) => {
            reveal_strlit("preset_");
            reveal_strlit("tooltip");
            reveal_strlit("_selected");
            assert(hook.id_text().len() == 23);
            assert(hook.id_text()[12] == 'i');
            assert(hook.id_text()[10] == 'l');
            assert(hook.id_text()[0] == 'p');
            assert(hook.id_text()[21] == 'e');
            assert(hook.id_text()[21] == 'e');
        },
        _ => {},
    }
}

/// No two values share an ID, so an ID leads to one value.
pub proof fn law_state_ids_are_unique(a: StateHook, b: StateHook)
    requires
        a.id_text() == b.id_text(),
    ensures
        a == b,
{
    if a is Text {
        lemma_text_keys(a);
    } else if a is Flag {
        lemma_flag_keys(a);
    } else if a is Draft {
        lemma_draft_keys(a);
    } else if a is Field {
        lemma_field_keys(a);
    } else if a is Node {
        lemma_node_keys(a);
    } else if a is Preset {
        lemma_preset_keys(a);
    }
    if b is Text {
        lemma_text_keys(b);
    } else if b is Flag {
        lemma_flag_keys(b);
    } else if b is Draft {
        lemma_draft_keys(b);
    } else if b is Field {
        lemma_field_keys(b);
    } else if b is Node {
        lemma_node_keys(b);
    } else if b is Preset {
        lemma_preset_keys(b);
    }
}

// ---------------------------------------------------------------------------
// What the IDs read
// ---------------------------------------------------------------------------

/// The conditions on the panels hold of the panels as they stand: a side, a page or a tab is shown
/// where it is the chosen one, and the dock shows its tab only while it is not folded.
pub proof fn law_panel_conditions(state: StudioState, hook: FlagHook)
    ensures
        hook == FlagHook::Panel(PanelFlag::LayersVisible) ==> hook.id_text() == "layers_visible"@ && (state.holds(hook) <==> !state.panels.left_files_open),
        hook == FlagHook::Panel(PanelFlag::FilesVisible) ==> hook.id_text() == "files_visible"@ && (state.holds(hook) <==> state.panels.left_files_open),
        hook == FlagHook::Panel(PanelFlag::ProjectMenuVisible) ==> hook.id_text() == "project_menu_visible"@ && (state.holds(hook) <==> state.panels.project_menu_open),
        hook == FlagHook::Panel(PanelFlag::ViewportMenuVisible) ==> hook.id_text() == "viewport_menu_visible"@ && (state.holds(hook) <==> state.panels.viewport_menu_open),
        hook == FlagHook::Panel(PanelFlag::InspectorLayoutVisible) ==> hook.id_text() == "inspector_layout_visible"@ && (state.holds(hook) <==> state.panels.inspector_tab is Layout),
        hook == FlagHook::Panel(PanelFlag::InspectorStyleVisible) ==> hook.id_text() == "inspector_style_visible"@ && (state.holds(hook) <==> state.panels.inspector_tab is Style),
        hook == FlagHook::Panel(PanelFlag::InspectorLogicVisible) ==> hook.id_text() == "inspector_logic_visible"@ && (state.holds(hook) <==> state.panels.inspector_tab is Logic),
        hook == FlagHook::Panel(PanelFlag::ConstraintLeftSelected) ==> hook.id_text() == "constraint_left_selected"@ && (state.holds(hook) <==> state.panels.horizontal_constraint is Left),
        hook == FlagHook::Panel(PanelFlag::ConstraintCenterSelected) ==> hook.id_text() == "constraint_center_selected"@ && (state.holds(hook) <==> state.panels.horizontal_constraint is Center),
        hook == FlagHook::Panel(PanelFlag::ConstraintRightSelected) ==> hook.id_text() == "constraint_right_selected"@ && (state.holds(hook) <==> state.panels.horizontal_constraint is Right),
        hook == FlagHook::Panel(PanelFlag::ConstraintScaleSelected) ==> hook.id_text() == "constraint_scale_selected"@ && (state.holds(hook) <==> state.panels.horizontal_constraint is Scale),
        hook == FlagHook::Panel(PanelFlag::ConsoleVisible) ==> hook.id_text() == "console_visible"@ && (state.holds(hook) <==> state.panels.dock_tab is Console && !state.panels.dock_collapsed),
        hook == FlagHook::Panel(PanelFlag::StatesVisible) ==> hook.id_text() == "states_visible"@ && (state.holds(hook) <==> state.panels.dock_tab is States && !state.panels.dock_collapsed),
        hook == FlagHook::Panel(PanelFlag::DockConsoleSelected) ==> hook.id_text() == "dock_console_selected"@ && (state.holds(hook) <==> state.panels.dock_tab is Console),
        hook == FlagHook::Panel(PanelFlag::DockStatesSelected) ==> hook.id_text() == "dock_states_selected"@ && (state.holds(hook) <==> state.panels.dock_tab is States),
{
}

/// The conditions on the workspace hold of the projection and the mode in use: selecting, moving
/// and annotating are tools of the design view.
pub proof fn law_workspace_conditions(state: StudioState, hook: FlagHook)
    ensures
        hook == FlagHook::Workspace(WorkspaceFlag::BackendHtmlSelected) ==> hook.id_text() == "backend_html_selected"@ && (state.holds(hook) <==> state.workspace.backend is Html),
        hook == FlagHook::Workspace(WorkspaceFlag::BackendGpuiSelected) ==> hook.id_text() == "backend_gpui_selected"@ && (state.holds(hook) <==> state.workspace.backend is Gpui),
        hook == FlagHook::Workspace(WorkspaceFlag::ModeDesignSelected) ==> hook.id_text() == "mode_design_selected"@ && (state.holds(hook) <==> state.workspace.mode is Design),
        hook == FlagHook::Workspace(WorkspaceFlag::ModeTestSelected) ==> hook.id_text() == "mode_test_selected"@ && (state.holds(hook) <==> state.workspace.mode is Test),
        hook == FlagHook::Workspace(WorkspaceFlag::ModeCompareSelected) ==> hook.id_text() == "mode_compare_selected"@ && (state.holds(hook) <==> state.workspace.mode is Compare),
        hook == FlagHook::Workspace(WorkspaceFlag::ToolSelectSelected) ==> hook.id_text() == "tool_select_selected"@ && (state.holds(hook) <==> state.workspace.mode is Design),
        hook == FlagHook::Workspace(WorkspaceFlag::ToolMoveSelected) ==> hook.id_text() == "tool_move_selected"@ && (state.holds(hook) <==> state.workspace.mode is Move),
        hook == FlagHook::Workspace(WorkspaceFlag::ToolAnnotateSelected) ==> hook.id_text() == "tool_annotate_selected"@ && (state.holds(hook) <==> state.workspace.mode is Compare),
        hook == FlagHook::Workspace(WorkspaceFlag::ViewDesignSelected) ==> hook.id_text() == "view_design_selected"@ && (state.holds(hook) <==> state.workspace.mode is Design || state.workspace.mode is Move || state.workspace.mode is Compare),
        hook == FlagHook::Workspace(WorkspaceFlag::ViewPreviewSelected) ==> hook.id_text() == "view_preview_selected"@ && (state.holds(hook) <==> state.workspace.mode is Test),
{
}

/// The children of a group of page layers are shown where the group is not collapsed.
pub proof fn law_layer_conditions(state: StudioState, hook: FlagHook)
    ensures
        hook == FlagHook::Layer(LayerFlag::WelcomeChildrenVisible) ==> hook.id_text() == "welcome_children_visible"@ && (state.holds(hook) <==> !state.layers.welcome),
        hook == FlagHook::Layer(LayerFlag::HeaderChildrenVisible) ==> hook.id_text() == "header_children_visible"@ && (state.holds(hook) <==> !state.layers.header),
        hook == FlagHook::Layer(LayerFlag::WelcomeCopyChildrenVisible) ==> hook.id_text() == "welcome_copy_children_visible"@ && (state.holds(hook) <==> !state.layers.welcome_copy),
        hook == FlagHook::Layer(LayerFlag::FeatureCardsChildrenVisible) ==> hook.id_text() == "feature_cards_children_visible"@ && (state.holds(hook) <==> !state.layers.feature_cards),
        hook == FlagHook::Layer(LayerFlag::WelcomeLowerChildrenVisible) ==> hook.id_text() == "welcome_lower_children_visible"@ && (state.holds(hook) <==> !state.layers.welcome_lower),
{
}

/// A page layer counts as selected where its element is the selected one.
pub proof fn law_element_conditions(state: StudioState, hook: FlagHook)
    ensures
        hook == FlagHook::Element(ElementFlag::LayerWelcomeSelected) ==> hook.id_text() == "layer_welcome_selected"@ && (state.holds(hook) <==> state.authoring.selection@.authored_id == "welcome-canvas"@),
        hook == FlagHook::Element(ElementFlag::LayerRuntimeBadgeSelected) ==> hook.id_text() == "layer_runtime_badge_selected"@ && (state.holds(hook) <==> state.authoring.selection@.authored_id == "preview-badge"@),
        hook == FlagHook::Element(ElementFlag::LayerHeaderSelected) ==> hook.id_text() == "layer_header_selected"@ && (state.holds(hook) <==> state.authoring.selection@.authored_id == "welcome-header"@),
        hook == FlagHook::Element(ElementFlag::LayerWelcomeCopySelected) ==> hook.id_text() == "layer_welcome_copy_selected"@ && (state.holds(hook) <==> state.authoring.selection@.authored_id == "welcome-copy"@),
        hook == FlagHook::Element(ElementFlag::LayerHeroTitleSelected) ==> hook.id_text() == "layer_hero_title_selected"@ && (state.holds(hook) <==> state.authoring.selection@.authored_id == "hero-title"@),
        hook == FlagHook::Element(ElementFlag::LayerFeatureCardsSelected) ==> hook.id_text() == "layer_feature_cards_selected"@ && (state.holds(hook) <==> state.authoring.selection@.authored_id == "feature-grid"@),
        hook == FlagHook::Element(ElementFlag::LayerRuntimeBuildingCardSelected) ==> hook.id_text() == "layer_runtime_building_card_selected"@ && (state.holds(hook) <==> state.authoring.selection@.authored_id == "runtime-building-card"@),
        hook == FlagHook::Element(ElementFlag::LayerLocalAiCardSelected) ==> hook.id_text() == "layer_local_ai_card_selected"@ && (state.holds(hook) <==> state.authoring.selection@.authored_id == "local-ai-card"@),
        hook == FlagHook::Element(ElementFlag::LayerPortableSourceCardSelected) ==> hook.id_text() == "layer_portable_source_card_selected"@ && (state.holds(hook) <==> state.authoring.selection@.authored_id == "portable-source-card"@),
        hook == FlagHook::Element(ElementFlag::LayerComponentSelected) ==> hook.id_text() == "layer_component_selected"@ && (state.holds(hook) <==> state.authoring.selection@.authored_id == "app-titlebar-component"@),
        hook == FlagHook::Element(ElementFlag::LayerRuntimeDetailsSelected) ==> hook.id_text() == "layer_runtime_details_selected"@ && (state.holds(hook) <==> state.authoring.selection@.authored_id == "runtime-details"@),
        hook == FlagHook::Element(ElementFlag::LayerWelcomeLowerSelected) ==> hook.id_text() == "layer_welcome_lower_selected"@ && (state.holds(hook) <==> state.authoring.selection@.authored_id == "welcome-lower"@),
        hook == FlagHook::Element(ElementFlag::LayerDogfoodNoteSelected) ==> hook.id_text() == "layer_dogfood_note_selected"@ && (state.holds(hook) <==> state.authoring.selection@.authored_id == "dogfood-note"@),
{
}

/// The layer lists and the inspector follow the component that is edited and the node that is
/// selected in it.
pub proof fn law_authoring_conditions(state: StudioState, hook: FlagHook)
    ensures
        hook == FlagHook::Authoring(AuthoringFlag::PageTreeVisible) ==> hook.id_text() == "page_tree_visible"@ && (state.holds(hook) <==> state.authoring.active_component() is None),
        hook == FlagHook::Authoring(AuthoringFlag::ComponentDocumentTreeVisible) ==> hook.id_text() == "component_document_tree_visible"@ && (state.holds(hook) <==> state.authoring.active_component() is Some),
        hook == FlagHook::Authoring(AuthoringFlag::ComponentTreeChildrenVisible) ==> hook.id_text() == "component_tree_children_visible"@ && (state.holds(hook) <==> state.authoring.active_component() is Some && !state.layers.component_tree),
        hook == FlagHook::Authoring(AuthoringFlag::ComponentRootSelected) ==> hook.id_text() == "component_root_selected"@ && (state.holds(hook) <==> state.authoring.active_component() is Some && state.authoring.selection@.authored_id == "root"@),
        hook == FlagHook::Authoring(AuthoringFlag::InspectorComponentEditable) ==> hook.id_text() == "inspector_component_editable"@ && (state.holds(hook) <==> state.authoring.selected_node() is Some),
        hook == FlagHook::Authoring(AuthoringFlag::InspectorPageNoticeVisible) ==> hook.id_text() == "inspector_page_notice_visible"@ && (state.holds(hook) <==> state.authoring.selected_node() is None),
{
}

/// The conditions on the dialog hold of the choices made in it.
pub proof fn law_dialog_conditions(state: StudioState, hook: FlagHook)
    ensures
        hook == FlagHook::Dialog(DialogFlag::ComponentDialogVisible) ==> hook.id_text() == "component_dialog_visible"@ && (state.holds(hook) <==> state.dialog.open),
        hook == FlagHook::Dialog(DialogFlag::ComponentHtmlSelected) ==> hook.id_text() == "component_html_selected"@ && (state.holds(hook) <==> state.dialog.authoring is Html),
        hook == FlagHook::Dialog(DialogFlag::ComponentGpuiSelected) ==> hook.id_text() == "component_gpui_selected"@ && (state.holds(hook) <==> state.dialog.authoring is Gpui),
        hook == FlagHook::Dialog(DialogFlag::ComponentSelectionSelected) ==> hook.id_text() == "component_selection_selected"@ && (state.holds(hook) <==> state.dialog.source is Selection),
        hook == FlagHook::Dialog(DialogFlag::ComponentBlankSelected) ==> hook.id_text() == "component_blank_selected"@ && (state.holds(hook) <==> state.dialog.source is Blank),
        hook == FlagHook::Dialog(DialogFlag::ComponentPasteHtmlSelected) ==> hook.id_text() == "component_paste_html_selected"@ && (state.holds(hook) <==> state.dialog.source is PasteHtml),
        hook == FlagHook::Dialog(DialogFlag::ComponentTitlebarSelected) ==> hook.id_text() == "component_titlebar_selected"@ && (state.holds(hook) <==> state.dialog.source is Titlebar),
{
}

/// The conditions on the review hold of its editor and its queue.
pub proof fn law_review_conditions(state: StudioState, hook: FlagHook)
    ensures
        hook == FlagHook::Review(ReviewFlag::AnnotationPopoverVisible) ==> hook.id_text() == "annotation_popover_visible"@ && (state.holds(hook) <==> state.review.popover_open),
        hook == FlagHook::Review(ReviewFlag::AnnotationHasSavedComment) ==> hook.id_text() == "annotation_has_saved_comment"@ && (state.holds(hook) <==> state.review.active is Some),
        hook == FlagHook::Review(ReviewFlag::SendAnnotationsVisible) ==> hook.id_text() == "send_annotations_visible"@ && (state.holds(hook) <==> annotations::active_of(state.review.annotations@.annotations).len() > 0),
{
}

/// The texts read what they name in the session and of what is live.
pub proof fn law_texts_read_what_they_name(state: StudioState, hook: TextHook, live: LiveLabels)
    ensures
        hook == TextHook::StudioStatus ==> hook.id_text() == "studio_status"@ && state.text_of(hook, live) == state.status@,
        hook == TextHook::ProjectPath ==> hook.id_text() == "project_path"@ && state.text_of(hook, live) == live.project_path@,
        hook == TextHook::SelectionLabel ==> hook.id_text() == "selection_label"@ && state.text_of(hook, live) == "#"@ + state.authoring.selection@.authored_id,
        hook == TextHook::SelectionRuntimeId ==> hook.id_text() == "selection_runtime_id"@ && state.text_of(hook, live) == state.authoring.selection@.runtime_id,
        hook == TextHook::ThemeLabel ==> hook.id_text() == "theme_label"@ && state.text_of(hook, live) == live.theme@,
        hook == TextHook::ViewportLabel ==> hook.id_text() == "viewport_label"@ && state.text_of(hook, live) == live.viewport@,
        hook == TextHook::CssExcerpt ==> hook.id_text() == "css_excerpt"@ && state.text_of(hook, live) == live.code@,
        hook == TextHook::ZoomLabel ==> hook.id_text() == "zoom_label"@ && state.text_of(hook, live) == live.zoom@,
        hook == TextHook::SelectionHeading ==> hook.id_text() == "selection_heading"@ && state.text_of(hook, live) == identifiers::authored_name_of(state.authoring.selection@.authored_id),
        hook == TextHook::SelectionRotation ==> hook.id_text() == "selection_rotation"@ && state.text_of(hook, live) == "0°"@,
        hook == TextHook::ComponentStub ==> hook.id_text() == "component_stub"@ && state.text_of(hook, live) == state.dialog.stub_text(identifiers::authored_name_of(state.authoring.selection@.authored_id), live.preset),
        hook == TextHook::WelcomeDisclosure ==> hook.id_text() == "welcome_disclosure"@ && state.text_of(hook, live) == (if state.layers.welcome { "▸"@ } else { "▾"@ }),
        hook == TextHook::HeaderDisclosure ==> hook.id_text() == "header_disclosure"@ && state.text_of(hook, live) == (if state.layers.header { "▸"@ } else { "▾"@ }),
        hook == TextHook::WelcomeCopyDisclosure ==> hook.id_text() == "welcome_copy_disclosure"@ && state.text_of(hook, live) == (if state.layers.welcome_copy { "▸"@ } else { "▾"@ }),
        hook == TextHook::FeatureCardsDisclosure ==> hook.id_text() == "feature_cards_disclosure"@ && state.text_of(hook, live) == (if state.layers.feature_cards { "▸"@ } else { "▾"@ }),
        hook == TextHook::WelcomeLowerDisclosure ==> hook.id_text() == "welcome_lower_disclosure"@ && state.text_of(hook, live) == (if state.layers.welcome_lower { "▸"@ } else { "▾"@ }),
        hook == TextHook::ComponentRootDisclosure ==> hook.id_text() == "component_root_disclosure"@ && state.text_of(hook, live) == (if state.layers.component_tree { "▸"@ } else { "▾"@ }),
        hook == TextHook::ModeLabel && state.workspace.mode is Design ==> state.text_of(hook, live) == "DESIGN"@,
        hook == TextHook::ModeLabel && state.workspace.mode is Test ==> state.text_of(hook, live) == "TEST"@,
        hook == TextHook::ModeLabel && state.workspace.mode is Compare ==> state.text_of(hook, live) == "COMPARE"@,
        hook == TextHook::ModeLabel && state.workspace.mode is Move ==> state.text_of(hook, live) == "MOVE"@,
        hook == TextHook::ModeLabel && state.workspace.mode is Source ==> state.text_of(hook, live) == "SOURCE"@,
        hook == TextHook::BackendLabel && state.workspace.backend is Html ==> state.text_of(hook, live) == "HTML PROJECTION"@,
        hook == TextHook::BackendLabel && state.workspace.backend is Gpui ==> state.text_of(hook, live) == "GPUI PROJECTION"@,
        hook == TextHook::DecorationsLabel && state.workspace.canvas.decorations is Native ==> state.text_of(hook, live) == "Frame · Native"@,
        hook == TextHook::DecorationsLabel && state.workspace.canvas.decorations is Custom ==> state.text_of(hook, live) == "Frame · None"@,
        hook == TextHook::DockToggleLabel ==> state.text_of(hook, live) == (if state.panels.dock_collapsed { "Expand"@ } else { "Collapse"@ }),
        hook == TextHook::SlotCapacityLabel ==> state.text_of(hook, live) == (if state.drafts.slot_multiple { "Multiple children"@ } else { "Single child"@ }),
        hook == TextHook::SnapLabel ==> state.text_of(hook, live) == (if state.workspace.canvas.snap_enabled { "Snap "@ + text::decimal_text(state.workspace.canvas.snap_grid as nat) } else { "Snap off"@ }),
        hook == TextHook::SelectionGrid ==> state.text_of(hook, live) == (if state.workspace.canvas.snap_enabled { text::decimal_text(state.workspace.canvas.snap_grid as nat) + "px"@ } else { "off"@ }),
{
}

/// The texts on the document tell its live revision and whether it is saved, and the texts on the
/// review tell which annotation is edited and how many are handed off.
pub proof fn law_document_and_review_texts(state: StudioState, live: LiveLabels, i: int)
    ensures
        live.revision is None ==> state.text_of(TextHook::RevisionLabel, live) == "REV —"@,
        live.revision is Some ==> state.text_of(TextHook::RevisionLabel, live) == "REV "@
            + text::decimal_text(live.revision->0 as nat),
        live.dirty is None ==> state.text_of(TextHook::DirtyLabel, live) == "NO DOCUMENT"@,
        live.dirty == Some(true) ==> state.text_of(TextHook::DirtyLabel, live)
            == "UNSAVED PREVIEW"@,
        live.dirty == Some(false) ==> state.text_of(TextHook::DirtyLabel, live) == "SAVED"@,
        live.html_tag is Some ==> state.text_of(TextHook::SelectionElementTag, live) == "<"@
            + live.html_tag->0@ + ">"@,
        live.html_tag is None && live.gpui_kind is Some ==> state.text_of(
            TextHook::SelectionElementTag,
            live,
        ) == "<"@ + live.gpui_kind->0@ + ">"@,
        live.html_tag is None && live.gpui_kind is None ==> state.text_of(
            TextHook::SelectionElementTag,
            live,
        ) == "<"@ + "element"@ + ">"@,
        state.review.active is None ==> state.text_of(TextHook::AnnotationTitle, live)
            == "New annotation"@ && state.text_of(TextHook::AnnotationTarget, live) == "on "@
            + identifiers::authored_name_of(state.authoring.selection@.authored_id)
            && state.text_of(TextHook::AnnotationStatus, live) == "Saved as you type"@,
        state.review.active is Some ==> state.text_of(TextHook::AnnotationTitle, live)
            == "Annotation "@ + identifiers::annotation_number_of(state.review.active->0@),
        state.review.active is Some && state.review.annotations@.position(state.review.active->0@)
            == Some(i) ==> {
            let edited = state.review.annotations@.annotations[i];
            &&& state.text_of(TextHook::AnnotationTarget, live) == "on "@
                + identifiers::authored_name_of(edited.target.authored_id)
            &&& edited.status is Open ==> state.text_of(TextHook::AnnotationStatus, live)
                == "Saved · "@ + "Open"@ + " · Send to hand off"@
            &&& edited.status is InProgress ==> state.text_of(TextHook::AnnotationStatus, live)
                == "Saved · "@ + "InProgress"@ + " · Send to hand off"@
        },
        state.text_of(TextHook::SendAnnotationsLabel, live) == "Send "@ + text::decimal_text(
            annotations::count_of(state.review.annotations@.annotations, AnnotationStatus::Open)
                + annotations::count_of(
                state.review.annotations@.annotations,
                AnnotationStatus::InProgress,
            ),
        ),
{
}

/// The conditions on the selected node hold of its own layout, and none holds without a node; a
/// policy that was chosen holds afterwards.
pub proof fn law_node_conditions(node: NativeNode, hook: NodeHook)
    ensures
        !node_holds(None, hook),
        node_holds(Some(node), NodeHook::Intrinsic(InspectorSizeAxis::Width)) <==> !(
        node.layout.width is Fixed),
        node_holds(Some(node), NodeHook::Intrinsic(InspectorSizeAxis::Height)) <==> !(
        node.layout.height is Fixed),
        node_holds(Some(node), NodeHook::Size(InspectorSizeAxis::Width, SizePolicy::Hug))
            <==> node.layout.width is Hug,
        node_holds(Some(node), NodeHook::Size(InspectorSizeAxis::Width, SizePolicy::Fill))
            <==> node.layout.width is Fill,
        node_holds(Some(node), NodeHook::Size(InspectorSizeAxis::Width, SizePolicy::Fixed))
            <==> node.layout.width is Fixed,
        node_holds(Some(node), NodeHook::Size(InspectorSizeAxis::Height, SizePolicy::Hug))
            <==> node.layout.height is Hug,
        node_holds(Some(node), NodeHook::Size(InspectorSizeAxis::Height, SizePolicy::Fill))
            <==> node.layout.height is Fill,
        node_holds(Some(node), NodeHook::Size(InspectorSizeAxis::Height, SizePolicy::Fixed))
            <==> node.layout.height is Fixed,
        node_holds(Some(node), NodeHook::Alignment(InspectorAlignmentAxis::Align, AlignPolicy::Start))
            <==> node.layout.align is Start,
        node_holds(Some(node), NodeHook::Alignment(InspectorAlignmentAxis::Align, AlignPolicy::Center))
            <==> node.layout.align is Center,
        node_holds(Some(node), NodeHook::Alignment(InspectorAlignmentAxis::Align, AlignPolicy::End))
            <==> node.layout.align is End,
        node_holds(
            Some(node),
            NodeHook::Alignment(InspectorAlignmentAxis::Justify, AlignPolicy::Start),
        ) <==> node.layout.justify is Start,
        node_holds(
            Some(node),
            NodeHook::Alignment(InspectorAlignmentAxis::Justify, AlignPolicy::Center),
        ) <==> node.layout.justify is Center,
        node_holds(Some(node), NodeHook::Alignment(InspectorAlignmentAxis::Justify, AlignPolicy::End))
            <==> node.layout.justify is End,
        hook matches NodeHook::Layout(choice) ==> {
            let chosen = NativeNode {
                layout: inspector::chosen_layout(node.layout, choice),
                ..node
            };
            node_holds(Some(chosen), hook)
        },
{
    if let NodeHook::Layout(choice) = hook {
        inspector::law_chosen_layout(node.layout, choice);
    }
}

/// A field reads its own draft.
pub proof fn law_drafts_read_their_field(state: StudioState)
    ensures
        state.draft_of(DraftHook::Annotation) == state.review.draft@,
        state.draft_of(DraftHook::ComponentName) == state.dialog.name@,
        state.draft_of(DraftHook::ComponentProps) == state.dialog.props@,
        state.draft_of(DraftHook::Property(StudioInspectorDraftField::Name))
            == state.drafts.prop_name@,
        state.draft_of(DraftHook::Property(StudioInspectorDraftField::Type))
            == state.drafts.prop_type@,
        state.draft_of(DraftHook::Property(StudioInspectorDraftField::Default))
            == state.drafts.prop_default@,
        DraftHook::Annotation.refusal_text() == "annotation draft requires text"@,
        DraftHook::ComponentName.refusal_text() == "component name requires text"@,
        DraftHook::ComponentProps.refusal_text() == "component props require text"@,
{
}

/// The sizes and the alignments have one ID for each axis and policy.
pub proof fn law_policy_ids(axis: InspectorSizeAxis, policy: SizePolicy, along: InspectorAlignmentAxis, align: AlignPolicy)
    ensures
        axis is Width && policy is Hug ==> size_id_text(axis, policy) == "inspector_width_hug"@,
        axis is Width && policy is Fill ==> size_id_text(axis, policy) == "inspector_width_fill"@,
        axis is Width && policy is Fixed ==> size_id_text(axis, policy) == "inspector_width_fixed"@,
        axis is Height && policy is Hug ==> size_id_text(axis, policy) == "inspector_height_hug"@,
        axis is Height && policy is Fill ==> size_id_text(axis, policy) == "inspector_height_fill"@,
        axis is Height && policy is Fixed ==> size_id_text(axis, policy) == "inspector_height_fixed"@,
        along is Align && align is Start ==> align_id_text(along, align) == "inspector_align_start"@,
        along is Align && align is Center ==> align_id_text(along, align) == "inspector_align_center"@,
        along is Align && align is End ==> align_id_text(along, align) == "inspector_align_end"@,
        along is Justify && align is Start ==> align_id_text(along, align) == "inspector_justify_start"@,
        along is Justify && align is Center ==> align_id_text(along, align) == "inspector_justify_center"@,
        along is Justify && align is End ==> align_id_text(along, align) == "inspector_justify_end"@,
{
}

/// The numbers of the selection are those that it is painted at, each under its own ID.
pub proof fn law_painted_texts(state: StudioState, live: LiveLabels)
    ensures
        live.rect matches Some(rect) ==> state.text_of(TextHook::SelectionWidth, live)
            == rect.width@ && state.text_of(TextHook::SelectionHeight, live) == rect.height@
            && state.text_of(TextHook::SelectionSize, live) == rect.width@ + " × "@ + rect.height@,
        live.rect is None ==> state.text_of(TextHook::SelectionWidth, live) == "—"@
            && state.text_of(TextHook::SelectionHeight, live) == "—"@ && state.text_of(
            TextHook::SelectionSize,
            live,
        ) == "awaiting paint"@,
        live.position matches Some(position) ==> state.text_of(TextHook::SelectionX, live)
            == position.x@ && state.text_of(TextHook::SelectionY, live) == position.y@,
        live.position is None ==> state.text_of(TextHook::SelectionX, live) == "—"@
            && state.text_of(TextHook::SelectionY, live) == "—"@,
{
}

} // verus!
