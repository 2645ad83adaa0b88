//! The events that the shell's markup raises: their IDs and what each one asks for.
use vstd::prelude::*;

use crate::components::{
    NativeConstraint, NativeNodeKind, NativeOverflow, NativePosition, NativeWrap,
};
use crate::inspector;
use crate::inspector::{InspectorAlignmentAxis, InspectorLayoutChoice, InspectorSizeAxis};
use crate::presets;
use crate::presets::ComponentPreset;
use crate::session::PageLayer;
use crate::state_hooks;
use crate::state_hooks::{AlignPolicy, SizePolicy};
use crate::studio::{
    AuthoringBackend, ComponentSource, DockTab, HorizontalConstraint, InspectorTab, StudioMode,
    ViewportPreset,
};
use crate::text;

verus! {

/// The elements of the page that have a row of their own to select them by.
#[derive(Clone, Copy, Debug, PartialEq, Eq, Structural)]
pub enum PageElement {
    PreviewBadge,
    HeroTitle,
    RuntimeBuildingCard,
    LocalAiCard,
    PortableSourceCard,
    RuntimeDetails,
    DogfoodNote,
}

impl PageElement {
    /// The element's ID.
    pub open spec fn id_text(self) -> Seq<char> {
        match self {
            PageElement::PreviewBadge => "preview-badge"@,
            PageElement::HeroTitle => "hero-title"@,
            PageElement::RuntimeBuildingCard => "runtime-building-card"@,
            PageElement::LocalAiCard => "local-ai-card"@,
            PageElement::PortableSourceCard => "portable-source-card"@,
            PageElement::RuntimeDetails => "runtime-details"@,
            PageElement::DogfoodNote => "dogfood-note"@,
        }
    }

    /// The element's ID.
    pub fn authored_id(self) -> (out: &'static str)
        ensures
            out@ == self.id_text(),
    {
        match self {
            PageElement::PreviewBadge => "preview-badge",
            PageElement::HeroTitle => "hero-title",
            PageElement::RuntimeBuildingCard => "runtime-building-card",
            PageElement::LocalAiCard => "local-ai-card",
            PageElement::PortableSourceCard => "portable-source-card",
            PageElement::RuntimeDetails => "runtime-details",
            PageElement::DogfoodNote => "dogfood-note",
        }
    }
}

/// What an event asks for.
#[derive(Clone, Copy, Debug, PartialEq, Eq, Structural)]
pub enum StudioEvent {
    Save,
    Reload,
    Undo,
    Redo,
    DeleteAnnotation,
    CloseAnnotation,
    SendAnnotations,
    CycleTheme,
    OpenSettings,
    ToggleAnnotationsDrawer,
    ShowLayers,
    ShowFiles,
    ToggleProjectMenu,
    /// Shows the page and selects its root.
    FocusMainRoot,
    SelectActiveComponent,
    ProjectOpenHelp,
    ToggleViewportMenu,
    Viewport(ViewportPreset),
    RotateViewport,
    ToggleOutputDecorations,
    ToggleSnap,
    /// Zooms by this many percent.
    ZoomBy(i16),
    FitCanvas,
    Dock(DockTab),
    ToggleDock,
    Inspector(InspectorTab),
    Constraint(HorizontalConstraint),
    AddProperty,
    SaveComponentState,
    RemoveComponentState,
    SaveComponentVariant,
    CaptureVariantOverride,
    RemoveComponentVariant,
    SaveComponentSlot,
    ToggleSlotMultiple,
    RemoveComponentSlot,
    SaveDesignToken,
    RemoveDesignToken,
    RemoveProperty,
    AddLogic,
    ToggleLayer(PageLayer),
    SelectElement(PageElement),
    SelectComponentInstance,
    /// Opens the titlebar component.
    OpenAppTitlebar,
    ToggleComponentRoot,
    OpenComponentDialog,
    Insert(NativeNodeKind),
    DuplicateNode,
    DeleteNode,
    CloseComponentDialog,
    DialogAuthoring(AuthoringBackend),
    DialogSource(ComponentSource),
    CreateComponent,
    SetBackend(AuthoringBackend),
    SetMode(StudioMode),
    /// Switches to the annotation tool.
    AnnotateTool,
    MoveTool,
    DesignView,
    Size(InspectorSizeAxis, SizePolicy),
    Alignment(InspectorAlignmentAxis, AlignPolicy),
    Layout(InspectorLayoutChoice),
    SelectPreset(ComponentPreset),
}

/// The events that markup raises.
#[derive(Clone, Copy, Debug, PartialEq, Eq, Structural)]
pub enum EventHook {
    SaveProject,
    ReloadProject,
    Undo,
    Redo,
    DeleteAnnotation,
    CloseAnnotation,
    SendAnnotations,
    CycleTheme,
    OpenSettings,
    ToggleAnnotationsDrawer,
    ShowLayers,
    ShowFiles,
    ToggleProjectMenu,
    ShowProjectCanvas,
    ShowComponentLibrary,
    ProjectOpenHelp,
    ToggleViewportMenu,
    ViewportResponsive,
    ViewportDesktop,
    ViewportTablet,
    ViewportMobile,
    RotateViewport,
    ToggleOutputDecorations,
    ToggleSnap,
    ZoomOut,
    ZoomFit,
    ZoomIn,
    DockConsole,
    DockStates,
    ToggleDock,
    InspectorLayout,
    InspectorStyle,
    InspectorLogic,
    ConstraintLeft,
    ConstraintCenter,
    ConstraintRight,
    ConstraintScale,
    AddProperty,
    SaveComponentState,
    RemoveComponentState,
    SaveComponentVariant,
    CaptureVariantOverride,
    RemoveComponentVariant,
    SaveComponentSlot,
    ToggleSlotMultiple,
    RemoveComponentSlot,
    SaveDesignToken,
    RemoveDesignToken,
    RemoveProperty,
    AddLogic,
    ToggleLayerWelcome,
    ToggleLayerHeader,
    ToggleLayerWelcomeCopy,
    ToggleLayerFeatureCards,
    ToggleLayerWelcomeLower,
    SelectWelcome,
    SelectRuntimeBadge,
    SelectHeroTitle,
    SelectRuntimeBuildingCard,
    SelectLocalAiCard,
    SelectPortableSourceCard,
    SelectComponentInstance,
    OpenComponent,
    ToggleComponentRoot,
    SelectRuntimeDetails,
    SelectDogfoodNote,
    OpenComponentDialog,
    InsertFrame,
    InsertRow,
    InsertText,
    InsertButton,
    DuplicateNode,
    DeleteNode,
    CloseComponentDialog,
    SelectComponentHtml,
    SelectComponentGpui,
    SelectComponentSelection,
    SelectComponentBlank,
    SelectComponentPasteHtml,
    SelectComponentTitlebar,
    CreateComponentFromDialog,
    BackendHtml,
    BackendGpui,
    ModeDesign,
    ModeSource,
    ModeTest,
    ModeCompare,
    ToolSelect,
    ToolMove,
    ToolAnnotate,
    ViewDesign,
    ViewPreview,
    Size(InspectorSizeAxis, SizePolicy),
    Alignment(InspectorAlignmentAxis, AlignPolicy),
    Layout(InspectorLayoutChoice),
    Preset(ComponentPreset),
}

impl EventHook {
    /// The ID under which markup raises the event.
    pub open spec fn id_text(self) -> Seq<char> {
        match self {
            EventHook::SaveProject => "save_project"@,
            EventHook::ReloadProject => "reload_project"@,
            EventHook::Undo => "undo"@,
            EventHook::Redo => "redo"@,
            EventHook::DeleteAnnotation => "delete_annotation"@,
            EventHook::CloseAnnotation => "close_annotation"@,
            EventHook::SendAnnotations => "send_annotations"@,
            EventHook::CycleTheme => "cycle_theme"@,
            EventHook::OpenSettings => "open_settings"@,
            EventHook::ToggleAnnotationsDrawer => "toggle_annotations_drawer"@,
            EventHook::ShowLayers => "show_layers"@,
            EventHook::ShowFiles => "show_files"@,
            EventHook::ToggleProjectMenu => "toggle_project_menu"@,
            EventHook::ShowProjectCanvas => "show_project_canvas"@,
            EventHook::ShowComponentLibrary => "show_component_library"@,
            EventHook::ProjectOpenHelp => "project_open_help"@,
            EventHook::ToggleViewportMenu => "toggle_viewport_menu"@,
            EventHook::ViewportResponsive => "viewport_responsive"@,
            EventHook::ViewportDesktop => "viewport_desktop"@,
            EventHook::ViewportTablet => "viewport_tablet"@,
            EventHook::ViewportMobile => "viewport_mobile"@,
            EventHook::RotateViewport => "rotate_viewport"@,
            EventHook::ToggleOutputDecorations => "toggle_output_decorations"@,
            EventHook::ToggleSnap => "toggle_snap"@,
            EventHook::ZoomOut => "zoom_out"@,
            EventHook::ZoomFit => "zoom_fit"@,
            EventHook::ZoomIn => "zoom_in"@,
            EventHook::DockConsole => "dock_console"@,
            EventHook::DockStates => "dock_states"@,
            EventHook::ToggleDock => "toggle_dock"@,
            EventHook::InspectorLayout => "inspector_layout"@,
            EventHook::InspectorStyle => "inspector_style"@,
            EventHook::InspectorLogic => "inspector_logic"@,
            EventHook::ConstraintLeft => "constraint_left"@,
            EventHook::ConstraintCenter => "constraint_center"@,
            EventHook::ConstraintRight => "constraint_right"@,
            EventHook::ConstraintScale => "constraint_scale"@,
            EventHook::AddProperty => "add_property"@,
            EventHook::SaveComponentState => "save_component_state"@,
            EventHook::RemoveComponentState => "remove_component_state"@,
            EventHook::SaveComponentVariant => "save_component_variant"@,
            EventHook::CaptureVariantOverride => "capture_variant_override"@,
            EventHook::RemoveComponentVariant => "remove_component_variant"@,
            EventHook::SaveComponentSlot => "save_component_slot"@,
            EventHook::ToggleSlotMultiple => "toggle_slot_multiple"@,
            EventHook::RemoveComponentSlot => "remove_component_slot"@,
            EventHook::SaveDesignToken => "save_design_token"@,
            EventHook::RemoveDesignToken => "remove_design_token"@,
            EventHook::RemoveProperty => "remove_property"@,
            EventHook::AddLogic => "add_logic"@,
            EventHook::ToggleLayerWelcome => "toggle_layer_welcome"@,
            EventHook::ToggleLayerHeader => "toggle_layer_header"@,
            EventHook::ToggleLayerWelcomeCopy => "toggle_layer_welcome_copy"@,
            EventHook::ToggleLayerFeatureCards => "toggle_layer_feature_cards"@,
            EventHook::ToggleLayerWelcomeLower => "toggle_layer_welcome_lower"@,
            EventHook::SelectWelcome => "select_welcome"@,
            EventHook::SelectRuntimeBadge => "select_runtime_badge"@,
            EventHook::SelectHeroTitle => "select_hero_title"@,
            EventHook::SelectRuntimeBuildingCard => "select_runtime_building_card"@,
            EventHook::SelectLocalAiCard => "select_local_ai_card"@,
            EventHook::SelectPortableSourceCard => "select_portable_source_card"@,
            EventHook::SelectComponentInstance => "select_component_instance"@,
            EventHook::OpenComponent => "open_component"@,
            EventHook::ToggleComponentRoot => "toggle_component_root"@,
            EventHook::SelectRuntimeDetails => "select_runtime_details"@,
            EventHook::SelectDogfoodNote => "select_dogfood_note"@,
            EventHook::OpenComponentDialog => "open_component_dialog"@,
            EventHook::InsertFrame => "insert_frame"@,
            EventHook::InsertRow => "insert_row"@,
            EventHook::InsertText => "insert_text"@,
            EventHook::InsertButton => "insert_button"@,
            EventHook::DuplicateNode => "duplicate_node"@,
            EventHook::DeleteNode => "delete_node"@,
            EventHook::CloseComponentDialog => "close_component_dialog"@,
            EventHook::SelectComponentHtml => "select_component_html"@,
            EventHook::SelectComponentGpui => "select_component_gpui"@,
            EventHook::SelectComponentSelection => "select_component_selection"@,
            EventHook::SelectComponentBlank => "select_component_blank"@,
            EventHook::SelectComponentPasteHtml => "select_component_paste_html"@,
            EventHook::SelectComponentTitlebar => "select_component_titlebar"@,
            EventHook::CreateComponentFromDialog => "create_component_from_dialog"@,
            EventHook::BackendHtml => "backend_html"@,
            EventHook::BackendGpui => "backend_gpui"@,
            EventHook::ModeDesign => "mode_design"@,
            EventHook::ModeSource => "mode_source"@,
            EventHook::ModeTest => "mode_test"@,
            EventHook::ModeCompare => "mode_compare"@,
            EventHook::ToolSelect => "tool_select"@,
            EventHook::ToolMove => "tool_move"@,
            EventHook::ToolAnnotate => "tool_annotate"@,
            EventHook::ViewDesign => "view_design"@,
            EventHook::ViewPreview => "view_preview"@,
            EventHook::Size(axis, policy) => state_hooks::size_id_text(axis, policy),
            EventHook::Alignment(axis, policy) => state_hooks::align_id_text(axis, policy),
            EventHook::Layout(choice) => inspector::layout_choice_name(choice),
            EventHook::Preset(preset) => "select_preset_"@ + presets::preset_slug(preset),
        }
    }

    /// The ID under which markup raises the event.
    pub fn id(self) -> (out: String)
        ensures
            out@ == self.id_text(),
    {
        match self {
            EventHook::SaveProject => "save_project".to_owned(),
            EventHook::ReloadProject => "reload_project".to_owned(),
            EventHook::Undo => "undo".to_owned(),
            EventHook::Redo => "redo".to_owned(),
            EventHook::DeleteAnnotation => "delete_annotation".to_owned(),
            EventHook::CloseAnnotation => "close_annotation".to_owned(),
            EventHook::SendAnnotations => "send_annotations".to_owned(),
            EventHook::CycleTheme => "cycle_theme".to_owned(),
            EventHook::OpenSettings => "open_settings".to_owned(),
            EventHook::ToggleAnnotationsDrawer => "toggle_annotations_drawer".to_owned(),
            EventHook::ShowLayers => "show_layers".to_owned(),
            EventHook::ShowFiles => "show_files".to_owned(),
            EventHook::ToggleProjectMenu => "toggle_project_menu".to_owned(),
            EventHook::ShowProjectCanvas => "show_project_canvas".to_owned(),
            EventHook::ShowComponentLibrary => "show_component_library".to_owned(),
            EventHook::ProjectOpenHelp => "project_open_help".to_owned(),
            EventHook::ToggleViewportMenu => "toggle_viewport_menu".to_owned(),
            EventHook::ViewportResponsive => "viewport_responsive".to_owned(),
            EventHook::ViewportDesktop => "viewport_desktop".to_owned(),
            EventHook::ViewportTablet => "viewport_tablet".to_owned(),
            EventHook::ViewportMobile => "viewport_mobile".to_owned(),
            EventHook::RotateViewport => "rotate_viewport".to_owned(),
            EventHook::ToggleOutputDecorations => "toggle_output_decorations".to_owned(),
            EventHook::ToggleSnap => "toggle_snap".to_owned(),
            EventHook::ZoomOut => "zoom_out".to_owned(),
            EventHook::ZoomFit => "zoom_fit".to_owned(),
            EventHook::ZoomIn => "zoom_in".to_owned(),
            EventHook::DockConsole => "dock_console".to_owned(),
            EventHook::DockStates => "dock_states".to_owned(),
            EventHook::ToggleDock => "toggle_dock".to_owned(),
            EventHook::InspectorLayout => "inspector_layout".to_owned(),
            EventHook::InspectorStyle => "inspector_style".to_owned(),
            EventHook::InspectorLogic => "inspector_logic".to_owned(),
            EventHook::ConstraintLeft => "constraint_left".to_owned(),
            EventHook::ConstraintCenter => "constraint_center".to_owned(),
            EventHook::ConstraintRight => "constraint_right".to_owned(),
            EventHook::ConstraintScale => "constraint_scale".to_owned(),
            EventHook::AddProperty => "add_property".to_owned(),
            EventHook::SaveComponentState => "save_component_state".to_owned(),
            EventHook::RemoveComponentState => "remove_component_state".to_owned(),
            EventHook::SaveComponentVariant => "save_component_variant".to_owned(),
            EventHook::CaptureVariantOverride => "capture_variant_override".to_owned(),
            EventHook::RemoveComponentVariant => "remove_component_variant".to_owned(),
            EventHook::SaveComponentSlot => "save_component_slot".to_owned(),
            EventHook::ToggleSlotMultiple => "toggle_slot_multiple".to_owned(),
            EventHook::RemoveComponentSlot => "remove_component_slot".to_owned(),
            EventHook::SaveDesignToken => "save_design_token".to_owned(),
            EventHook::RemoveDesignToken => "remove_design_token".to_owned(),
            EventHook::RemoveProperty => "remove_property".to_owned(),
            EventHook::AddLogic => "add_logic".to_owned(),
            EventHook::ToggleLayerWelcome => "toggle_layer_welcome".to_owned(),
            EventHook::ToggleLayerHeader => "toggle_layer_header".to_owned(),
            EventHook::ToggleLayerWelcomeCopy => "toggle_layer_welcome_copy".to_owned(),
            EventHook::ToggleLayerFeatureCards => "toggle_layer_feature_cards".to_owned(),
            EventHook::ToggleLayerWelcomeLower => "toggle_layer_welcome_lower".to_owned(),
            EventHook::SelectWelcome => "select_welcome".to_owned(),
            EventHook::SelectRuntimeBadge => "select_runtime_badge".to_owned(),
            EventHook::SelectHeroTitle => "select_hero_title".to_owned(),
            EventHook::SelectRuntimeBuildingCard => "select_runtime_building_card".to_owned(),
            EventHook::SelectLocalAiCard => "select_local_ai_card".to_owned(),
            EventHook::SelectPortableSourceCard => "select_portable_source_card".to_owned(),
            EventHook::SelectComponentInstance => "select_component_instance".to_owned(),
            EventHook::OpenComponent => "open_component".to_owned(),
            EventHook::ToggleComponentRoot => "toggle_component_root".to_owned(),
            EventHook::SelectRuntimeDetails => "select_runtime_details".to_owned(),
            EventHook::SelectDogfoodNote => "select_dogfood_note".to_owned(),
            EventHook::OpenComponentDialog => "open_component_dialog".to_owned(),
            EventHook::InsertFrame => "insert_frame".to_owned(),
            EventHook::InsertRow => "insert_row".to_owned(),
            EventHook::InsertText => "insert_text".to_owned(),
            EventHook::InsertButton => "insert_button".to_owned(),
            EventHook::DuplicateNode => "duplicate_node".to_owned(),
            EventHook::DeleteNode => "delete_node".to_owned(),
            EventHook::CloseComponentDialog => "close_component_dialog".to_owned(),
            EventHook::SelectComponentHtml => "select_component_html".to_owned(),
            EventHook::SelectComponentGpui => "select_component_gpui".to_owned(),
            EventHook::SelectComponentSelection => "select_component_selection".to_owned(),
            EventHook::SelectComponentBlank => "select_component_blank".to_owned(),
            EventHook::SelectComponentPasteHtml => "select_component_paste_html".to_owned(),
            EventHook::SelectComponentTitlebar => "select_component_titlebar".to_owned(),
            EventHook::CreateComponentFromDialog => "create_component_from_dialog".to_owned(),
            EventHook::BackendHtml => "backend_html".to_owned(),
            EventHook::BackendGpui => "backend_gpui".to_owned(),
            EventHook::ModeDesign => "mode_design".to_owned(),
            EventHook::ModeSource => "mode_source".to_owned(),
            EventHook::ModeTest => "mode_test".to_owned(),
            EventHook::ModeCompare => "mode_compare".to_owned(),
            EventHook::ToolSelect => "tool_select".to_owned(),
            EventHook::ToolMove => "tool_move".to_owned(),
            EventHook::ToolAnnotate => "tool_annotate".to_owned(),
            EventHook::ViewDesign => "view_design".to_owned(),
            EventHook::ViewPreview => "view_preview".to_owned(),
            EventHook::Size(axis, policy) => state_hooks::size_id(axis, policy).to_owned(),
            EventHook::Alignment(axis, policy) => state_hooks::align_id(axis, policy).to_owned(),
            EventHook::Layout(choice) => inspector::layout_choice_label(choice),
            EventHook::Preset(preset) => text::join2("select_preset_", preset.slug()),
        }
    }

    /// What the event asks for.
    pub open spec fn event_of(self) -> StudioEvent {
        match self {
            EventHook::SaveProject => StudioEvent::Save,
            EventHook::ReloadProject => StudioEvent::Reload,
            EventHook::Undo => StudioEvent::Undo,
            EventHook::Redo => StudioEvent::Redo,
            EventHook::DeleteAnnotation => StudioEvent::DeleteAnnotation,
            EventHook::CloseAnnotation => StudioEvent::CloseAnnotation,
            EventHook::SendAnnotations => StudioEvent::SendAnnotations,
            EventHook::CycleTheme => StudioEvent::CycleTheme,
            EventHook::OpenSettings => StudioEvent::OpenSettings,
            EventHook::ToggleAnnotationsDrawer => StudioEvent::ToggleAnnotationsDrawer,
            EventHook::ShowLayers => StudioEvent::ShowLayers,
            EventHook::ShowFiles => StudioEvent::ShowFiles,
            EventHook::ToggleProjectMenu => StudioEvent::ToggleProjectMenu,
            EventHook::ShowProjectCanvas => StudioEvent::FocusMainRoot,
            EventHook::ShowComponentLibrary => StudioEvent::SelectActiveComponent,
            EventHook::ProjectOpenHelp => StudioEvent::ProjectOpenHelp,
            EventHook::ToggleViewportMenu => StudioEvent::ToggleViewportMenu,
            EventHook::ViewportResponsive => StudioEvent::Viewport(ViewportPreset::Responsive),
            EventHook::ViewportDesktop => StudioEvent::Viewport(ViewportPreset::Desktop),
            EventHook::ViewportTablet => StudioEvent::Viewport(ViewportPreset::Tablet),
            EventHook::ViewportMobile => StudioEvent::Viewport(ViewportPreset::Mobile),
            EventHook::RotateViewport => StudioEvent::RotateViewport,
            EventHook::ToggleOutputDecorations => StudioEvent::ToggleOutputDecorations,
            EventHook::ToggleSnap => StudioEvent::ToggleSnap,
            EventHook::ZoomOut => StudioEvent::ZoomBy((-10) as i16),
            EventHook::ZoomFit => StudioEvent::FitCanvas,
            EventHook::ZoomIn => StudioEvent::ZoomBy(10),
            EventHook::DockConsole => StudioEvent::Dock(DockTab::Console),
            EventHook::DockStates => StudioEvent::Dock(DockTab::States),
            EventHook::ToggleDock => StudioEvent::ToggleDock,
            EventHook::InspectorLayout => StudioEvent::Inspector(InspectorTab::Layout),
            EventHook::InspectorStyle => StudioEvent::Inspector(InspectorTab::Style),
            EventHook::InspectorLogic => StudioEvent::Inspector(InspectorTab::Logic),
            EventHook::ConstraintLeft => StudioEvent::Constraint(HorizontalConstraint::Left),
            EventHook::ConstraintCenter => StudioEvent::Constraint(HorizontalConstraint::Center),
            EventHook::ConstraintRight => StudioEvent::Constraint(HorizontalConstraint::Right),
            EventHook::ConstraintScale => StudioEvent::Constraint(HorizontalConstraint::Scale),
            EventHook::AddProperty => StudioEvent::AddProperty,
            EventHook::SaveComponentState => StudioEvent::SaveComponentState,
            EventHook::RemoveComponentState => StudioEvent::RemoveComponentState,
            EventHook::SaveComponentVariant => StudioEvent::SaveComponentVariant,
            EventHook::CaptureVariantOverride => StudioEvent::CaptureVariantOverride,
            EventHook::RemoveComponentVariant => StudioEvent::RemoveComponentVariant,
            EventHook::SaveComponentSlot => StudioEvent::SaveComponentSlot,
            EventHook::ToggleSlotMultiple => StudioEvent::ToggleSlotMultiple,
            EventHook::RemoveComponentSlot => StudioEvent::RemoveComponentSlot,
            EventHook::SaveDesignToken => StudioEvent::SaveDesignToken,
            EventHook::RemoveDesignToken => StudioEvent::RemoveDesignToken,
            EventHook::RemoveProperty => StudioEvent::RemoveProperty,
            EventHook::AddLogic => StudioEvent::AddLogic,
            EventHook::ToggleLayerWelcome => StudioEvent::ToggleLayer(PageLayer::Welcome),
            EventHook::ToggleLayerHeader => StudioEvent::ToggleLayer(PageLayer::Header),
            EventHook::ToggleLayerWelcomeCopy => StudioEvent::ToggleLayer(PageLayer::WelcomeCopy),
            EventHook::ToggleLayerFeatureCards => StudioEvent::ToggleLayer(PageLayer::FeatureCards),
            EventHook::ToggleLayerWelcomeLower => StudioEvent::ToggleLayer(PageLayer::WelcomeLower),
            EventHook::SelectWelcome => StudioEvent::FocusMainRoot,
            EventHook::SelectRuntimeBadge => StudioEvent::SelectElement(PageElement::PreviewBadge),
            EventHook::SelectHeroTitle => StudioEvent::SelectElement(PageElement::HeroTitle),
            EventHook::SelectRuntimeBuildingCard => StudioEvent::SelectElement(PageElement::RuntimeBuildingCard),
            EventHook::SelectLocalAiCard => StudioEvent::SelectElement(PageElement::LocalAiCard),
            EventHook::SelectPortableSourceCard => StudioEvent::SelectElement(PageElement::PortableSourceCard),
            EventHook::SelectComponentInstance => StudioEvent::SelectComponentInstance,
            EventHook::OpenComponent => StudioEvent::OpenAppTitlebar,
            EventHook::ToggleComponentRoot => StudioEvent::ToggleComponentRoot,
            EventHook::SelectRuntimeDetails => StudioEvent::SelectElement(PageElement::RuntimeDetails),
            EventHook::SelectDogfoodNote => StudioEvent::SelectElement(PageElement::DogfoodNote),
            EventHook::OpenComponentDialog => StudioEvent::OpenComponentDialog,
            EventHook::InsertFrame => StudioEvent::Insert(NativeNodeKind::Column),
            EventHook::InsertRow => StudioEvent::Insert(NativeNodeKind::Row),
            EventHook::InsertText => StudioEvent::Insert(NativeNodeKind::Text),
            EventHook::InsertButton => StudioEvent::Insert(NativeNodeKind::Button),
            EventHook::DuplicateNode => StudioEvent::DuplicateNode,
            EventHook::DeleteNode => StudioEvent::DeleteNode,
            EventHook::CloseComponentDialog => StudioEvent::CloseComponentDialog,
            EventHook::SelectComponentHtml => StudioEvent::DialogAuthoring(AuthoringBackend::Html),
            EventHook::SelectComponentGpui => StudioEvent::DialogAuthoring(AuthoringBackend::Gpui),
            EventHook::SelectComponentSelection => StudioEvent::DialogSource(ComponentSource::Selection),
            EventHook::SelectComponentBlank => StudioEvent::DialogSource(ComponentSource::Blank),
            EventHook::SelectComponentPasteHtml => StudioEvent::DialogSource(ComponentSource::PasteHtml),
            EventHook::SelectComponentTitlebar => StudioEvent::DialogSource(ComponentSource::Titlebar),
            EventHook::CreateComponentFromDialog => StudioEvent::CreateComponent,
            EventHook::BackendHtml => StudioEvent::SetBackend(AuthoringBackend::Html),
            EventHook::BackendGpui => StudioEvent::SetBackend(AuthoringBackend::Gpui),
            EventHook::ModeDesign => StudioEvent::SetMode(StudioMode::Design),
            EventHook::ModeSource => StudioEvent::SetMode(StudioMode::Source),
            EventHook::ModeTest => StudioEvent::SetMode(StudioMode::Test),
            EventHook::ModeCompare => StudioEvent::AnnotateTool,
            EventHook::ToolSelect => StudioEvent::SetMode(StudioMode::Design),
            EventHook::ToolMove => StudioEvent::MoveTool,
            EventHook::ToolAnnotate => StudioEvent::AnnotateTool,
            EventHook::ViewDesign => StudioEvent::DesignView,
            EventHook::ViewPreview => StudioEvent::SetMode(StudioMode::Test),
            EventHook::Size(axis, policy) => StudioEvent::Size(axis, policy),
            EventHook::Alignment(axis, policy) => StudioEvent::Alignment(axis, policy),
            EventHook::Layout(choice) => StudioEvent::Layout(choice),
            EventHook::Preset(preset) => StudioEvent::SelectPreset(preset),
        }
    }

    /// What the event asks for.
    pub fn event(self) -> (event: StudioEvent)
        ensures
            event == self.event_of(),
    {
        match self {
            EventHook::SaveProject => StudioEvent::Save,
            EventHook::ReloadProject => StudioEvent::Reload,
            EventHook::Undo => StudioEvent::Undo,
            EventHook::Redo => StudioEvent::Redo,
            EventHook::DeleteAnnotation => StudioEvent::DeleteAnnotation,
            EventHook::CloseAnnotation => StudioEvent::CloseAnnotation,
            EventHook::SendAnnotations => StudioEvent::SendAnnotations,
            EventHook::CycleTheme => StudioEvent::CycleTheme,
            EventHook::OpenSettings => StudioEvent::OpenSettings,
            EventHook::ToggleAnnotationsDrawer => StudioEvent::ToggleAnnotationsDrawer,
            EventHook::ShowLayers => StudioEvent::ShowLayers,
            EventHook::ShowFiles => StudioEvent::ShowFiles,
            EventHook::ToggleProjectMenu => StudioEvent::ToggleProjectMenu,
            EventHook::ShowProjectCanvas => StudioEvent::FocusMainRoot,
            EventHook::ShowComponentLibrary => StudioEvent::SelectActiveComponent,
            EventHook::ProjectOpenHelp => StudioEvent::ProjectOpenHelp,
            EventHook::ToggleViewportMenu => StudioEvent::ToggleViewportMenu,
            EventHook::ViewportResponsive => StudioEvent::Viewport(ViewportPreset::Responsive),
            EventHook::ViewportDesktop => StudioEvent::Viewport(ViewportPreset::Desktop),
            EventHook::ViewportTablet => StudioEvent::Viewport(ViewportPreset::Tablet),
            EventHook::ViewportMobile => StudioEvent::Viewport(ViewportPreset::Mobile),
            EventHook::RotateViewport => StudioEvent::RotateViewport,
            EventHook::ToggleOutputDecorations => StudioEvent::ToggleOutputDecorations,
            EventHook::ToggleSnap => StudioEvent::ToggleSnap,
            EventHook::ZoomOut => StudioEvent::ZoomBy(-10),
            EventHook::ZoomFit => StudioEvent::FitCanvas,
            EventHook::ZoomIn => StudioEvent::ZoomBy(10),
            EventHook::DockConsole => StudioEvent::Dock(DockTab::Console),
            EventHook::DockStates => StudioEvent::Dock(DockTab::States),
            EventHook::ToggleDock => StudioEvent::ToggleDock,
            EventHook::InspectorLayout => StudioEvent::Inspector(InspectorTab::Layout),
            EventHook::InspectorStyle => StudioEvent::Inspector(InspectorTab::Style),
            EventHook::InspectorLogic => StudioEvent::Inspector(InspectorTab::Logic),
            EventHook::ConstraintLeft => StudioEvent::Constraint(HorizontalConstraint::Left),
            EventHook::ConstraintCenter => StudioEvent::Constraint(HorizontalConstraint::Center),
            EventHook::ConstraintRight => StudioEvent::Constraint(HorizontalConstraint::Right),
            EventHook::ConstraintScale => StudioEvent::Constraint(HorizontalConstraint::Scale),
            EventHook::AddProperty => StudioEvent::AddProperty,
            EventHook::SaveComponentState => StudioEvent::SaveComponentState,
            EventHook::RemoveComponentState => StudioEvent::RemoveComponentState,
            EventHook::SaveComponentVariant => StudioEvent::SaveComponentVariant,
            EventHook::CaptureVariantOverride => StudioEvent::CaptureVariantOverride,
            EventHook::RemoveComponentVariant => StudioEvent::RemoveComponentVariant,
            EventHook::SaveComponentSlot => StudioEvent::SaveComponentSlot,
            EventHook::ToggleSlotMultiple => StudioEvent::ToggleSlotMultiple,
            EventHook::RemoveComponentSlot => StudioEvent::RemoveComponentSlot,
            EventHook::SaveDesignToken => StudioEvent::SaveDesignToken,
            EventHook::RemoveDesignToken => StudioEvent::RemoveDesignToken,
            EventHook::RemoveProperty => StudioEvent::RemoveProperty,
            EventHook::AddLogic => StudioEvent::AddLogic,
            EventHook::ToggleLayerWelcome => StudioEvent::ToggleLayer(PageLayer::Welcome),
            EventHook::ToggleLayerHeader => StudioEvent::ToggleLayer(PageLayer::Header),
            EventHook::ToggleLayerWelcomeCopy => StudioEvent::ToggleLayer(PageLayer::WelcomeCopy),
            EventHook::ToggleLayerFeatureCards => StudioEvent::ToggleLayer(PageLayer::FeatureCards),
            EventHook::ToggleLayerWelcomeLower => StudioEvent::ToggleLayer(PageLayer::WelcomeLower),
            EventHook::SelectWelcome => StudioEvent::FocusMainRoot,
            EventHook::SelectRuntimeBadge => StudioEvent::SelectElement(PageElement::PreviewBadge),
            EventHook::SelectHeroTitle => StudioEvent::SelectElement(PageElement::HeroTitle),
            EventHook::SelectRuntimeBuildingCard => StudioEvent::SelectElement(PageElement::RuntimeBuildingCard),
            EventHook::SelectLocalAiCard => StudioEvent::SelectElement(PageElement::LocalAiCard),
            EventHook::SelectPortableSourceCard => StudioEvent::SelectElement(PageElement::PortableSourceCard),
            EventHook::SelectComponentInstance => StudioEvent::SelectComponentInstance,
            EventHook::OpenComponent => StudioEvent::OpenAppTitlebar,
            EventHook::ToggleComponentRoot => StudioEvent::ToggleComponentRoot,
            EventHook::SelectRuntimeDetails => StudioEvent::SelectElement(PageElement::RuntimeDetails),
            EventHook::SelectDogfoodNote => StudioEvent::SelectElement(PageElement::DogfoodNote),
            EventHook::OpenComponentDialog => StudioEvent::OpenComponentDialog,
            EventHook::InsertFrame => StudioEvent::Insert(NativeNodeKind::Column),
            EventHook::InsertRow => StudioEvent::Insert(NativeNodeKind::Row),
            EventHook::InsertText => StudioEvent::Insert(NativeNodeKind::Text),
            EventHook::InsertButton => StudioEvent::Insert(NativeNodeKind::Button),
            EventHook::DuplicateNode => StudioEvent::DuplicateNode,
            EventHook::DeleteNode => StudioEvent::DeleteNode,
            EventHook::CloseComponentDialog => StudioEvent::CloseComponentDialog,
            EventHook::SelectComponentHtml => StudioEvent::DialogAuthoring(AuthoringBackend::Html),
            EventHook::SelectComponentGpui => StudioEvent::DialogAuthoring(AuthoringBackend::Gpui),
            EventHook::SelectComponentSelection => StudioEvent::DialogSource(ComponentSource::Selection),
            EventHook::SelectComponentBlank => StudioEvent::DialogSource(ComponentSource::Blank),
            EventHook::SelectComponentPasteHtml => StudioEvent::DialogSource(ComponentSource::PasteHtml),
            EventHook::SelectComponentTitlebar => StudioEvent::DialogSource(ComponentSource::Titlebar),
            EventHook::CreateComponentFromDialog => StudioEvent::CreateComponent,
            EventHook::BackendHtml => StudioEvent::SetBackend(AuthoringBackend::Html),
            EventHook::BackendGpui => StudioEvent::SetBackend(AuthoringBackend::Gpui),
            EventHook::ModeDesign => StudioEvent::SetMode(StudioMode::Design),
            EventHook::ModeSource => StudioEvent::SetMode(StudioMode::Source),
            EventHook::ModeTest => StudioEvent::SetMode(StudioMode::Test),
            EventHook::ModeCompare => StudioEvent::AnnotateTool,
            EventHook::ToolSelect => StudioEvent::SetMode(StudioMode::Design),
            EventHook::ToolMove => StudioEvent::MoveTool,
            EventHook::ToolAnnotate => StudioEvent::AnnotateTool,
            EventHook::ViewDesign => StudioEvent::DesignView,
            EventHook::ViewPreview => StudioEvent::SetMode(StudioMode::Test),
            EventHook::Size(axis, policy) => StudioEvent::Size(axis, policy),
            EventHook::Alignment(axis, policy) => StudioEvent::Alignment(axis, policy),
            EventHook::Layout(choice) => StudioEvent::Layout(choice),
            EventHook::Preset(preset) => StudioEvent::SelectPreset(preset),
        }
    }
}

/// The events up to the alignments, in order.
pub open spec fn opening_events() -> Seq<EventHook> {
    seq![
        EventHook::SaveProject,
        EventHook::ReloadProject,
        EventHook::Undo,
        EventHook::Redo,
        EventHook::DeleteAnnotation,
        EventHook::CloseAnnotation,
        EventHook::SendAnnotations,
        EventHook::CycleTheme,
        EventHook::OpenSettings,
        EventHook::ToggleAnnotationsDrawer,
        EventHook::ShowLayers,
        EventHook::ShowFiles,
        EventHook::ToggleProjectMenu,
        EventHook::ShowProjectCanvas,
        EventHook::ShowComponentLibrary,
        EventHook::ProjectOpenHelp,
        EventHook::ToggleViewportMenu,
        EventHook::ViewportResponsive,
        EventHook::ViewportDesktop,
        EventHook::ViewportTablet,
        EventHook::ViewportMobile,
        EventHook::RotateViewport,
        EventHook::ToggleOutputDecorations,
        EventHook::ToggleSnap,
        EventHook::ZoomOut,
        EventHook::ZoomFit,
        EventHook::ZoomIn,
        EventHook::DockConsole,
        EventHook::DockStates,
        EventHook::ToggleDock,
        EventHook::InspectorLayout,
        EventHook::InspectorStyle,
        EventHook::InspectorLogic,
        EventHook::Size(InspectorSizeAxis::Width, SizePolicy::Hug),
        EventHook::Size(InspectorSizeAxis::Width, SizePolicy::Fill),
        EventHook::Size(InspectorSizeAxis::Width, SizePolicy::Fixed),
        EventHook::Size(InspectorSizeAxis::Height, SizePolicy::Hug),
        EventHook::Size(InspectorSizeAxis::Height, SizePolicy::Fill),
        EventHook::Size(InspectorSizeAxis::Height, SizePolicy::Fixed),
        EventHook::Alignment(InspectorAlignmentAxis::Align, AlignPolicy::Start),
        EventHook::Alignment(InspectorAlignmentAxis::Align, AlignPolicy::Center),
        EventHook::Alignment(InspectorAlignmentAxis::Align, AlignPolicy::End),
        EventHook::Alignment(InspectorAlignmentAxis::Justify, AlignPolicy::Start),
        EventHook::Alignment(InspectorAlignmentAxis::Justify, AlignPolicy::Center),
        EventHook::Alignment(InspectorAlignmentAxis::Justify, AlignPolicy::End),
    ]
}

fn list_opening_events() -> (out: Vec<EventHook>)
    ensures
        out@ == opening_events(),
{
    let out: Vec<EventHook> = vec![
        EventHook::SaveProject,
        EventHook::ReloadProject,
        EventHook::Undo,
        EventHook::Redo,
        EventHook::DeleteAnnotation,
        EventHook::CloseAnnotation,
        EventHook::SendAnnotations,
        EventHook::CycleTheme,
        EventHook::OpenSettings,
        EventHook::ToggleAnnotationsDrawer,
        EventHook::ShowLayers,
        EventHook::ShowFiles,
        EventHook::ToggleProjectMenu,
        EventHook::ShowProjectCanvas,
        EventHook::ShowComponentLibrary,
        EventHook::ProjectOpenHelp,
        EventHook::ToggleViewportMenu,
        EventHook::ViewportResponsive,
        EventHook::ViewportDesktop,
        EventHook::ViewportTablet,
        EventHook::ViewportMobile,
        EventHook::RotateViewport,
        EventHook::ToggleOutputDecorations,
        EventHook::ToggleSnap,
        EventHook::ZoomOut,
        EventHook::ZoomFit,
        EventHook::ZoomIn,
        EventHook::DockConsole,
        EventHook::DockStates,
        EventHook::ToggleDock,
        EventHook::InspectorLayout,
        EventHook::InspectorStyle,
        EventHook::InspectorLogic,
        EventHook::Size(InspectorSizeAxis::Width, SizePolicy::Hug),
        EventHook::Size(InspectorSizeAxis::Width, SizePolicy::Fill),
        EventHook::Size(InspectorSizeAxis::Width, SizePolicy::Fixed),
        EventHook::Size(InspectorSizeAxis::Height, SizePolicy::Hug),
        EventHook::Size(InspectorSizeAxis::Height, SizePolicy::Fill),
        EventHook::Size(InspectorSizeAxis::Height, SizePolicy::Fixed),
        EventHook::Alignment(InspectorAlignmentAxis::Align, AlignPolicy::Start),
        EventHook::Alignment(InspectorAlignmentAxis::Align, AlignPolicy::Center),
        EventHook::Alignment(InspectorAlignmentAxis::Align, AlignPolicy::End),
        EventHook::Alignment(InspectorAlignmentAxis::Justify, AlignPolicy::Start),
        EventHook::Alignment(InspectorAlignmentAxis::Justify, AlignPolicy::Center),
        EventHook::Alignment(InspectorAlignmentAxis::Justify, AlignPolicy::End),
    ];
    proof {
        assert(out@ =~= opening_events());
    }
    out
}

/// The events from the constraints to the dialog's sources, in order.
pub open spec fn editing_events() -> Seq<EventHook> {
    seq![
        EventHook::ConstraintLeft,
        EventHook::ConstraintCenter,
        EventHook::ConstraintRight,
        EventHook::ConstraintScale,
        EventHook::AddProperty,
        EventHook::SaveComponentState,
        EventHook::RemoveComponentState,
        EventHook::SaveComponentVariant,
        EventHook::CaptureVariantOverride,
        EventHook::RemoveComponentVariant,
        EventHook::SaveComponentSlot,
        EventHook::ToggleSlotMultiple,
        EventHook::RemoveComponentSlot,
        EventHook::SaveDesignToken,
        EventHook::RemoveDesignToken,
        EventHook::RemoveProperty,
        EventHook::AddLogic,
        EventHook::ToggleLayerWelcome,
        EventHook::ToggleLayerHeader,
        EventHook::ToggleLayerWelcomeCopy,
        EventHook::ToggleLayerFeatureCards,
        EventHook::ToggleLayerWelcomeLower,
        EventHook::SelectWelcome,
        EventHook::SelectRuntimeBadge,
        EventHook::SelectHeroTitle,
        EventHook::SelectRuntimeBuildingCard,
        EventHook::SelectLocalAiCard,
        EventHook::SelectPortableSourceCard,
        EventHook::SelectComponentInstance,
        EventHook::OpenComponent,
        EventHook::ToggleComponentRoot,
        EventHook::SelectRuntimeDetails,
        EventHook::SelectDogfoodNote,
        EventHook::OpenComponentDialog,
        EventHook::InsertFrame,
        EventHook::InsertRow,
        EventHook::InsertText,
        EventHook::InsertButton,
        EventHook::DuplicateNode,
        EventHook::DeleteNode,
        EventHook::CloseComponentDialog,
        EventHook::SelectComponentHtml,
        EventHook::SelectComponentGpui,
        EventHook::SelectComponentSelection,
        EventHook::SelectComponentBlank,
        EventHook::SelectComponentPasteHtml,
        EventHook::SelectComponentTitlebar,
    ]
}

fn list_editing_events() -> (out: Vec<EventHook>)
    ensures
        out@ == editing_events(),
{
    let out: Vec<EventHook> = vec![
        EventHook::ConstraintLeft,
        EventHook::ConstraintCenter,
        EventHook::ConstraintRight,
        EventHook::ConstraintScale,
        EventHook::AddProperty,
        EventHook::SaveComponentState,
        EventHook::RemoveComponentState,
        EventHook::SaveComponentVariant,
        EventHook::CaptureVariantOverride,
        EventHook::RemoveComponentVariant,
        EventHook::SaveComponentSlot,
        EventHook::ToggleSlotMultiple,
        EventHook::RemoveComponentSlot,
        EventHook::SaveDesignToken,
        EventHook::RemoveDesignToken,
        EventHook::RemoveProperty,
        EventHook::AddLogic,
        EventHook::ToggleLayerWelcome,
        EventHook::ToggleLayerHeader,
        EventHook::ToggleLayerWelcomeCopy,
        EventHook::ToggleLayerFeatureCards,
        EventHook::ToggleLayerWelcomeLower,
        EventHook::SelectWelcome,
        EventHook::SelectRuntimeBadge,
        EventHook::SelectHeroTitle,
        EventHook::SelectRuntimeBuildingCard,
        EventHook::SelectLocalAiCard,
        EventHook::SelectPortableSourceCard,
        EventHook::SelectComponentInstance,
        EventHook::OpenComponent,
        EventHook::ToggleComponentRoot,
        EventHook::SelectRuntimeDetails,
        EventHook::SelectDogfoodNote,
        EventHook::OpenComponentDialog,
        EventHook::InsertFrame,
        EventHook::InsertRow,
        EventHook::InsertText,
        EventHook::InsertButton,
        EventHook::DuplicateNode,
        EventHook::DeleteNode,
        EventHook::CloseComponentDialog,
        EventHook::SelectComponentHtml,
        EventHook::SelectComponentGpui,
        EventHook::SelectComponentSelection,
        EventHook::SelectComponentBlank,
        EventHook::SelectComponentPasteHtml,
        EventHook::SelectComponentTitlebar,
    ];
    proof {
        assert(out@ =~= editing_events());
    }
    out
}

/// The events behind the presets, in order.
pub open spec fn closing_events() -> Seq<EventHook> {
    seq![
        EventHook::CreateComponentFromDialog,
        EventHook::BackendHtml,
        EventHook::BackendGpui,
        EventHook::ModeDesign,
        EventHook::ModeSource,
        EventHook::ModeTest,
        EventHook::ModeCompare,
        EventHook::ToolSelect,
        EventHook::ToolMove,
        EventHook::ToolAnnotate,
        EventHook::ViewDesign,
        EventHook::ViewPreview,
    ]
}

fn list_closing_events() -> (out: Vec<EventHook>)
    ensures
        out@ == closing_events(),
{
    let out: Vec<EventHook> = vec![
        EventHook::CreateComponentFromDialog,
        EventHook::BackendHtml,
        EventHook::BackendGpui,
        EventHook::ModeDesign,
        EventHook::ModeSource,
        EventHook::ModeTest,
        EventHook::ModeCompare,
        EventHook::ToolSelect,
        EventHook::ToolMove,
        EventHook::ToolAnnotate,
        EventHook::ViewDesign,
        EventHook::ViewPreview,
    ];
    proof {
        assert(out@ =~= closing_events());
    }
    out
}

/// Every event, in the order of registration.
pub open spec fn event_order() -> Seq<EventHook> {
    opening_events() + inspector::layout_choices().map_values(
        |choice: InspectorLayoutChoice| EventHook::Layout(choice),
    ) + editing_events() + presets::catalog().map_values(
        |preset: ComponentPreset| EventHook::Preset(preset),
    ) + closing_events()
}

/// Every event, in the order of registration.
pub fn studio_events() -> (out: Vec<EventHook>)
    ensures
        out@ == event_order(),
{
    let mut out = list_opening_events();
    let choices = inspector::inspector_layout_choice_bindings();
    let ghost layout = inspector::layout_choices().map_values(
        |choice: InspectorLayoutChoice| EventHook::Layout(choice),
    );
    let mut i: usize = 0;
    proof {
        assert(out@ =~= opening_events() + layout.take(0));
    }
    while i < choices.len()
        invariant
            i <= choices.len(),
            choices.len() == inspector::layout_choices().len(),
            layout == inspector::layout_choices().map_values(
                |choice: InspectorLayoutChoice| EventHook::Layout(choice),
            ),
            forall|k: int|
                0 <= k < choices.len() ==> (#[trigger] choices[k]).choice
                    == inspector::layout_choices()[k],
            out@ == opening_events() + layout.take(i as int),
        decreases choices.len() - i,
    {
        let hook = EventHook::Layout(choices[i].choice);
        out.push(hook);
        proof {
            assert(layout.take(i as int + 1) =~= layout.take(i as int).push(hook));
            assert(out@ =~= opening_events() + layout.take(i as int + 1));
        }
        i += 1;
    }
    proof {
        assert(layout.take(i as int) =~= layout);
    }
    let mut editing = list_editing_events();
    out.append(&mut editing);
    let ghost before = opening_events() + layout + editing_events();
    let bindings = presets::component_preset_bindings();
    let ghost chosen = presets::catalog().map_values(
        |preset: ComponentPreset| EventHook::Preset(preset),
    );
    let mut k: usize = 0;
    proof {
        assert(out@ =~= before + chosen.take(0));
    }
    while k < bindings.len()
        invariant
            k <= bindings.len(),
            bindings.len() == presets::catalog().len(),
            chosen == presets::catalog().map_values(
                |preset: ComponentPreset| EventHook::Preset(preset),
            ),
            forall|j: int|
                0 <= j < bindings.len() ==> (#[trigger] bindings[j]).preset
                    == presets::catalog()[j],
            out@ == before + chosen.take(k as int),
        decreases bindings.len() - k,
    {
        let hook = EventHook::Preset(bindings[k].preset);
        out.push(hook);
        proof {
            assert(chosen.take(k as int + 1) =~= chosen.take(k as int).push(hook));
            assert(out@ =~= before + chosen.take(k as int + 1));
        }
        k += 1;
    }
    proof {
        assert(chosen.take(k as int) =~= chosen);
    }
    let mut closing = list_closing_events();
    out.append(&mut closing);
    proof {
        assert(out@ =~= event_order());
    }
    out
}

/// The position at or after `from` of the first event with this ID.
pub open spec fn event_at(id: Seq<char>, from: int) -> Option<int>
    decreases event_order().len() - from,
{
    if from < 0 || from >= event_order().len() {
        None
    } else if event_order()[from].id_text() == id {
        Some(from)
    } else {
        event_at(id, from + 1)
    }
}

/// What a raised event asks for; nothing for an ID that no event has.
pub fn handle_event(id: &str) -> (event: Option<StudioEvent>)
    ensures
        event == (match event_at(id@, 0) {
            Some(i) => Some(event_order()[i].event_of()),
            None => None,
        }),
{
    let events = studio_events();
    let mut i: usize = 0;
    while i < events.len()
        invariant
            i <= events.len(),
            events@ == event_order(),
            event_at(id@, 0) == event_at(id@, i as int),
        decreases events.len() - i,
    {
        if text::same_text(events[i].id().as_str(), id) {
            return Some(events[i].event());
        }
        i += 1;
    }
    None
}

// ---------------------------------------------------------------------------
// IDs
// ---------------------------------------------------------------------------

/// The character at position `i` from the front, or the last one.
spec fn front(s: Seq<char>, i: int) -> int {
    if i < s.len() {
        s[i] as int
    } else {
        s[s.len() - 1] as int
    }
}

/// The character at position `i` from the back, or the first one.
spec fn back(s: Seq<char>, i: int) -> int {
    if i < s.len() {
        s[s.len() - 1 - i] as int
    } else {
        s[0] as int
    }
}

spec fn key(s: Seq<char>) -> int {
    ((s.len() * 128 + back(s, 1)) * 128 + front(s, 21)) * 128 + back(s, 27)
}

spec fn code(hook: EventHook) -> int {
    match hook {
        EventHook::Size(InspectorSizeAxis::Width, SizePolicy::Hug) => 41776105,
        EventHook::Size(InspectorSizeAxis::Width, SizePolicy::Fill) => 43726441,
        EventHook::Size(InspectorSizeAxis::Width, SizePolicy::Fixed) => 45707881,
        EventHook::Size(InspectorSizeAxis::Height, SizePolicy::Hug) => 43873257,
        EventHook::Size(InspectorSizeAxis::Height, SizePolicy::Fill) => 45823593,
        EventHook::Size(InspectorSizeAxis::Height, SizePolicy::Fixed) => 47805033,
        EventHook::Alignment(InspectorAlignmentAxis::Align, AlignPolicy::Start) => 45922921,
        EventHook::Alignment(InspectorAlignmentAxis::Align, AlignPolicy::Center) => 47806825,
        EventHook::Alignment(InspectorAlignmentAxis::Align, AlignPolicy::End) => 41661033,
        EventHook::Alignment(InspectorAlignmentAxis::Justify, AlignPolicy::Start) => 50116969,
        EventHook::Alignment(InspectorAlignmentAxis::Justify, AlignPolicy::Center) => 52001385,
        EventHook::Alignment(InspectorAlignmentAxis::Justify, AlignPolicy::End) => 45855337,
        EventHook::Layout(InspectorLayoutChoice::Wrap(NativeWrap::NoWrap)) => 41661161,
        EventHook::Layout(InspectorLayoutChoice::Wrap(NativeWrap::Wrap)) => 41449577,
        EventHook::Layout(InspectorLayoutChoice::Wrap(NativeWrap::WrapReverse)) => 48034537,
        EventHook::Layout(InspectorLayoutChoice::Position(NativePosition::Flow)) => 50067433,
        EventHook::Layout(InspectorLayoutChoice::Position(NativePosition::Absolute)) => 58538473,
        EventHook::Layout(InspectorLayoutChoice::Overflow(NativeOverflow::Visible)) => 56310249,
        EventHook::Layout(InspectorLayoutChoice::Overflow(NativeOverflow::Hidden)) => 54096489,
        EventHook::Layout(InspectorLayoutChoice::Overflow(NativeOverflow::Scroll)) => 54212969,
        EventHook::Layout(InspectorLayoutChoice::HorizontalConstraint(NativeConstraint::Start)) => 60603497,
        EventHook::Layout(InspectorLayoutChoice::HorizontalConstraint(NativeConstraint::Center)) => 62487662,
        EventHook::Layout(InspectorLayoutChoice::HorizontalConstraint(NativeConstraint::End)) => 56343657,
        EventHook::Layout(InspectorLayoutChoice::HorizontalConstraint(NativeConstraint::Scale)) => 60505193,
        EventHook::Layout(InspectorLayoutChoice::HorizontalConstraint(NativeConstraint::Stretch)) => 64552051,
        EventHook::Layout(InspectorLayoutChoice::VerticalConstraint(NativeConstraint::Start)) => 60603625,
        EventHook::Layout(InspectorLayoutChoice::VerticalConstraint(NativeConstraint::Center)) => 62487790,
        EventHook::Layout(InspectorLayoutChoice::VerticalConstraint(NativeConstraint::End)) => 56343785,
        EventHook::Layout(InspectorLayoutChoice::VerticalConstraint(NativeConstraint::Scale)) => 60505321,
        EventHook::Layout(InspectorLayoutChoice::VerticalConstraint(NativeConstraint::Stretch)) => 64552179,
        EventHook::Layout(InspectorLayoutChoice::Grow(false)) => 39433065,
        EventHook::Layout(InspectorLayoutChoice::Grow(true)) => 37484393,
        EventHook::Layout(InspectorLayoutChoice::Shrink(false)) => 43627369,
        EventHook::Layout(InspectorLayoutChoice::Shrink(true)) => 41678697,
        EventHook::Preset(ComponentPreset::Button) => 43775859,
        EventHook::Preset(ComponentPreset::ButtonGroup) => 56456179,
        EventHook::Preset(ComponentPreset::Card) => 39629427,
        EventHook::Preset(ComponentPreset::Badge) => 41546483,
        EventHook::Preset(ComponentPreset::Alert) => 41728627,
        EventHook::Preset(ComponentPreset::Toolbar) => 45644147,
        EventHook::Preset(ComponentPreset::Avatar) => 43546995,
        EventHook::Preset(ComponentPreset::EmptyState) => 54344307,
        EventHook::Preset(ComponentPreset::Titlebar) => 47741299,
        EventHook::Preset(ComponentPreset::Tabs) => 39369203,
        EventHook::Preset(ComponentPreset::Dialog) => 43774963,
        EventHook::Preset(ComponentPreset::Dropdown) => 48101235,
        EventHook::Preset(ComponentPreset::DropdownMenu) => 58439539,
        EventHook::Preset(ComponentPreset::Drawer) => 43612531,
        EventHook::Preset(ComponentPreset::Scrollable) => 52113779,
        EventHook::Preset(ComponentPreset::Resizable) => 50017907,
        EventHook::Preset(ComponentPreset::Tooltip) => 45774963,
        EventHook::SaveProject => 26802803,
        EventHook::ReloadProject => 30997106,
        EventHook::Undo => 10041333,
        EventHook::Redo => 10041330,
        EventHook::DeleteAnnotation => 37484388,
        EventHook::CloseAnnotation => 35387235,
        EventHook::SendAnnotations => 35371507,
        EventHook::CycleTheme => 24867555,
        EventHook::OpenSettings => 28965359,
        EventHook::ToggleAnnotationsDrawer => 54096116,
        EventHook::ShowLayers => 24951283,
        EventHook::ShowFiles => 22641139,
        EventHook::ToggleProjectMenu => 41663220,
        EventHook::ShowProjectCanvas => 41449971,
        EventHook::ShowComponentLibrary => 48020723,
        EventHook::ProjectOpenHelp => 37435504,
        EventHook::ToggleViewportMenu => 43760372,
        EventHook::ViewportResponsive => 41792246,
        EventHook::ViewportDesktop => 35387510,
        EventHook::ViewportTablet => 33127030,
        EventHook::ViewportMobile => 33239798,
        EventHook::RotateViewport => 33340018,
        EventHook::ToggleOutputDecorations => 54244596,
        EventHook::ToggleSnap => 24672372,
        EventHook::ZoomOut => 18709114,
        EventHook::ZoomFit => 18512506,
        EventHook::ZoomIn => 16414586,
        EventHook::DockConsole => 26948324,
        EventHook::DockStates => 24738276,
        EventHook::ToggleDock => 24704500,
        EventHook::InspectorLayout => 35486313,
        EventHook::InspectorStyle => 33239785,
        EventHook::InspectorLogic => 33190377,
        EventHook::ConstraintLeft => 33143395,
        EventHook::ConstraintCenter => 37321059,
        EventHook::ConstraintRight => 35273315,
        EventHook::ConstraintScale => 35336931,
        EventHook::AddProperty => 27081953,
        EventHook::SaveComponentState => 43856627,
        EventHook::RemoveComponentState => 48050930,
        EventHook::SaveComponentVariant => 47954547,
        EventHook::CaptureVariantOverride => 51983587,
        EventHook::RemoveComponentVariant => 52146418,
        EventHook::SaveComponentSlot => 41679475,
        EventHook::ToggleSlotMultiple => 43725556,
        EventHook::RemoveComponentSlot => 45873778,
        EventHook::SaveDesignToken => 37320563,
        EventHook::RemoveDesignToken => 41514866,
        EventHook::RemoveProperty => 33373426,
        EventHook::AddLogic => 20607457,
        EventHook::ToggleLayerWelcome => 43741940,
        EventHook::ToggleLayerHeader => 41515380,
        EventHook::ToggleLayerWelcomeCopy => 54276596,
        EventHook::ToggleLayerFeatureCards => 56177140,
        EventHook::ToggleLayerWelcomeLower => 56194676,
        EventHook::SelectWelcome => 31159027,
        EventHook::SelectRuntimeBadge => 43643635,
        EventHook::SelectHeroTitle => 37434099,
        EventHook::SelectRuntimeBuildingCard => 60602227,
        EventHook::SelectLocalAiCard => 43823731,
        EventHook::SelectPortableSourceCard => 58503923,
        EventHook::SelectComponentInstance => 54063347,
        EventHook::OpenComponent => 31177327,
        EventHook::ToggleComponentRoot => 45873780,
        EventHook::SelectRuntimeDetails => 47921651,
        EventHook::SelectDogfoodNote => 41759475,
        EventHook::OpenComponentDialog => 45872111,
        EventHook::InsertFrame => 26964713,
        EventHook::InsertRow => 22805481,
        EventHook::InsertText => 25049705,
        EventHook::InsertButton => 29095785,
        EventHook::DuplicateNode => 31011556,
        EventHook::DeleteNode => 24720100,
        EventHook::CloseComponentDialog => 47969251,
        EventHook::SelectComponentHtml => 45839987,
        EventHook::SelectComponentGpui => 45970675,
        EventHook::SelectComponentSelection => 56357363,
        EventHook::SelectComponentBlank => 47953395,
        EventHook::SelectComponentPasteHtml => 58422003,
        EventHook::SelectComponentTitlebar => 54031091,
        EventHook::CreateComponentFromDialog => 60551139,
        EventHook::BackendHtml => 26965602,
        EventHook::BackendGpui => 27096290,
        EventHook::ModeDesign => 24770413,
        EventHook::ModeSource => 24703725,
        EventHook::ModeTest => 20773485,
        EventHook::ModeCompare => 27046637,
        EventHook::ToolSelect => 24705652,
        EventHook::ToolMove => 20820724,
        EventHook::ToolAnnotate => 29176564,
        EventHook::ViewDesign => 24770422,
        EventHook::ViewPreview => 26835958,
    }
}

spec fn decoded(code: int) -> Option<EventHook> {
    if code == 41776105 {
        Some(EventHook::Size(InspectorSizeAxis::Width, SizePolicy::Hug))
    } else if code == 43726441 {
        Some(EventHook::Size(InspectorSizeAxis::Width, SizePolicy::Fill))
    } else if code == 45707881 {
        Some(EventHook::Size(InspectorSizeAxis::Width, SizePolicy::Fixed))
    } else if code == 43873257 {
        Some(EventHook::Size(InspectorSizeAxis::Height, SizePolicy::Hug))
    } else if code == 45823593 {
        Some(EventHook::Size(InspectorSizeAxis::Height, SizePolicy::Fill))
    } else if code == 47805033 {
        Some(EventHook::Size(InspectorSizeAxis::Height, SizePolicy::Fixed))
    } else if code == 45922921 {
        Some(EventHook::Alignment(InspectorAlignmentAxis::Align, AlignPolicy::Start))
    } else if code == 47806825 {
        Some(EventHook::Alignment(InspectorAlignmentAxis::Align, AlignPolicy::Center))
    } else if code == 41661033 {
        Some(EventHook::Alignment(InspectorAlignmentAxis::Align, AlignPolicy::End))
    } else if code == 50116969 {
        Some(EventHook::Alignment(InspectorAlignmentAxis::Justify, AlignPolicy::Start))
    } else if code == 52001385 {
        Some(EventHook::Alignment(InspectorAlignmentAxis::Justify, AlignPolicy::Center))
    } else if code == 45855337 {
        Some(EventHook::Alignment(InspectorAlignmentAxis::Justify, AlignPolicy::End))
    } else if code == 41661161 {
        Some(EventHook::Layout(InspectorLayoutChoice::Wrap(NativeWrap::NoWrap)))
    } else if code == 41449577 {
        Some(EventHook::Layout(InspectorLayoutChoice::Wrap(NativeWrap::Wrap)))
    } else if code == 48034537 {
        Some(EventHook::Layout(InspectorLayoutChoice::Wrap(NativeWrap::WrapReverse)))
    } else if code == 50067433 {
        Some(EventHook::Layout(InspectorLayoutChoice::Position(NativePosition::Flow)))
    } else if code == 58538473 {
        Some(EventHook::Layout(InspectorLayoutChoice::Position(NativePosition::Absolute)))
    } else if code == 56310249 {
        Some(EventHook::Layout(InspectorLayoutChoice::Overflow(NativeOverflow::Visible)))
    } else if code == 54096489 {
        Some(EventHook::Layout(InspectorLayoutChoice::Overflow(NativeOverflow::Hidden)))
    } else if code == 54212969 {
        Some(EventHook::Layout(InspectorLayoutChoice::Overflow(NativeOverflow::Scroll)))
    } else if code == 60603497 {
        Some(EventHook::Layout(InspectorLayoutChoice::HorizontalConstraint(NativeConstraint::Start)))
    } else if code == 62487662 {
        Some(EventHook::Layout(InspectorLayoutChoice::HorizontalConstraint(NativeConstraint::Center)))
    } else if code == 56343657 {
        Some(EventHook::Layout(InspectorLayoutChoice::HorizontalConstraint(NativeConstraint::End)))
    } else if code == 60505193 {
        Some(EventHook::Layout(InspectorLayoutChoice::HorizontalConstraint(NativeConstraint::Scale)))
    } else if code == 64552051 {
        Some(EventHook::Layout(InspectorLayoutChoice::HorizontalConstraint(NativeConstraint::Stretch)))
    } else if code == 60603625 {
        Some(EventHook::Layout(InspectorLayoutChoice::VerticalConstraint(NativeConstraint::Start)))
    } else if code == 62487790 {
        Some(EventHook::Layout(InspectorLayoutChoice::VerticalConstraint(NativeConstraint::Center)))
    } else if code == 56343785 {
        Some(EventHook::Layout(InspectorLayoutChoice::VerticalConstraint(NativeConstraint::End)))
    } else if code == 60505321 {
        Some(EventHook::Layout(InspectorLayoutChoice::VerticalConstraint(NativeConstraint::Scale)))
    } else if code == 64552179 {
        Some(EventHook::Layout(InspectorLayoutChoice::VerticalConstraint(NativeConstraint::Stretch)))
    } else if code == 39433065 {
        Some(EventHook::Layout(InspectorLayoutChoice::Grow(false)))
    } else if code == 37484393 {
        Some(EventHook::Layout(InspectorLayoutChoice::Grow(true)))
    } else if code == 43627369 {
        Some(EventHook::Layout(InspectorLayoutChoice::Shrink(false)))
    } else if code == 41678697 {
        Some(EventHook::Layout(InspectorLayoutChoice::Shrink(true)))
    } else if code == 43775859 {
        Some(EventHook::Preset(ComponentPreset::Button))
    } else if code == 56456179 {
        Some(EventHook::Preset(ComponentPreset::ButtonGroup))
    } else if code == 39629427 {
        Some(EventHook::Preset(ComponentPreset::Card))
    } else if code == 41546483 {
        Some(EventHook::Preset(ComponentPreset::Badge))
    } else if code == 41728627 {
        Some(EventHook::Preset(ComponentPreset::Alert))
    } else if code == 45644147 {
        Some(EventHook::Preset(ComponentPreset::Toolbar))
    } else if code == 43546995 {
        Some(EventHook::Preset(ComponentPreset::Avatar))
    } else if code == 54344307 {
        Some(EventHook::Preset(ComponentPreset::EmptyState))
    } else if code == 47741299 {
        Some(EventHook::Preset(ComponentPreset::Titlebar))
    } else if code == 39369203 {
        Some(EventHook::Preset(ComponentPreset::Tabs))
    } else if code == 43774963 {
        Some(EventHook::Preset(ComponentPreset::Dialog))
    } else if code == 48101235 {
        Some(EventHook::Preset(ComponentPreset::Dropdown))
    } else if code == 58439539 {
        Some(EventHook::Preset(ComponentPreset::DropdownMenu))
    } else if code == 43612531 {
        Some(EventHook::Preset(ComponentPreset::Drawer))
    } else if code == 52113779 {
        Some(EventHook::Preset(ComponentPreset::Scrollable))
    } else if code == 50017907 {
        Some(EventHook::Preset(ComponentPreset::Resizable))
    } else if code == 45774963 {
        Some(EventHook::Preset(ComponentPreset::Tooltip))
    } else if code == 26802803 {
        Some(EventHook::SaveProject)
    } else if code == 30997106 {
        Some(EventHook::ReloadProject)
    } else if code == 10041333 {
        Some(EventHook::Undo)
    } else if code == 10041330 {
        Some(EventHook::Redo)
    } else if code == 37484388 {
        Some(EventHook::DeleteAnnotation)
    } else if code == 35387235 {
        Some(EventHook::CloseAnnotation)
    } else if code == 35371507 {
        Some(EventHook::SendAnnotations)
    } else if code == 24867555 {
        Some(EventHook::CycleTheme)
    } else if code == 28965359 {
        Some(EventHook::OpenSettings)
    } else if code == 54096116 {
        Some(EventHook::ToggleAnnotationsDrawer)
    } else if code == 24951283 {
        Some(EventHook::ShowLayers)
    } else if code == 22641139 {
        Some(EventHook::ShowFiles)
    } else if code == 41663220 {
        Some(EventHook::ToggleProjectMenu)
    } else if code == 41449971 {
        Some(EventHook::ShowProjectCanvas)
    } else if code == 48020723 {
        Some(EventHook::ShowComponentLibrary)
    } else if code == 37435504 {
        Some(EventHook::ProjectOpenHelp)
    } else if code == 43760372 {
        Some(EventHook::ToggleViewportMenu)
    } else if code == 41792246 {
        Some(EventHook::ViewportResponsive)
    } else if code == 35387510 {
        Some(EventHook::ViewportDesktop)
    } else if code == 33127030 {
        Some(EventHook::ViewportTablet)
    } else if code == 33239798 {
        Some(EventHook::ViewportMobile)
    } else if code == 33340018 {
        Some(EventHook::RotateViewport)
    } else if code == 54244596 {
        Some(EventHook::ToggleOutputDecorations)
    } else if code == 24672372 {
        Some(EventHook::ToggleSnap)
    } else if code == 18709114 {
        Some(EventHook::ZoomOut)
    } else if code == 18512506 {
        Some(EventHook::ZoomFit)
    } else if code == 16414586 {
        Some(EventHook::ZoomIn)
    } else if code == 26948324 {
        Some(EventHook::DockConsole)
    } else if code == 24738276 {
        Some(EventHook::DockStates)
    } else if code == 24704500 {
        Some(EventHook::ToggleDock)
    } else if code == 35486313 {
        Some(EventHook::InspectorLayout)
    } else if code == 33239785 {
        Some(EventHook::InspectorStyle)
    } else if code == 33190377 {
        Some(EventHook::InspectorLogic)
    } else if code == 33143395 {
        Some(EventHook::ConstraintLeft)
    } else if code == 37321059 {
        Some(EventHook::ConstraintCenter)
    } else if code == 35273315 {
        Some(EventHook::ConstraintRight)
    } else if code == 35336931 {
        Some(EventHook::ConstraintScale)
    } else if code == 27081953 {
        Some(EventHook::AddProperty)
    } else if code == 43856627 {
        Some(EventHook::SaveComponentState)
    } else if code == 48050930 {
        Some(EventHook::RemoveComponentState)
    } else if code == 47954547 {
        Some(EventHook::SaveComponentVariant)
    } else if code == 51983587 {
        Some(EventHook::CaptureVariantOverride)
    } else if code == 52146418 {
        Some(EventHook::RemoveComponentVariant)
    } else if code == 41679475 {
        Some(EventHook::SaveComponentSlot)
    } else if code == 43725556 {
        Some(EventHook::ToggleSlotMultiple)
    } else if code == 45873778 {
        Some(EventHook::RemoveComponentSlot)
    } else if code == 37320563 {
        Some(EventHook::SaveDesignToken)
    } else if code == 41514866 {
        Some(EventHook::RemoveDesignToken)
    } else if code == 33373426 {
        Some(EventHook::RemoveProperty)
    } else if code == 20607457 {
        Some(EventHook::AddLogic)
    } else if code == 43741940 {
        Some(EventHook::ToggleLayerWelcome)
    } else if code == 41515380 {
        Some(EventHook::ToggleLayerHeader)
    } else if code == 54276596 {
        Some(EventHook::ToggleLayerWelcomeCopy)
    } else if code == 56177140 {
        Some(EventHook::ToggleLayerFeatureCards)
    } else if code == 56194676 {
        Some(EventHook::ToggleLayerWelcomeLower)
    } else if code == 31159027 {
        Some(EventHook::SelectWelcome)
    } else if code == 43643635 {
        Some(EventHook::SelectRuntimeBadge)
    } else if code == 37434099 {
        Some(EventHook::SelectHeroTitle)
    } else if code == 60602227 {
        Some(EventHook::SelectRuntimeBuildingCard)
    } else if code == 43823731 {
        Some(EventHook::SelectLocalAiCard)
    } else if code == 58503923 {
        Some(EventHook::SelectPortableSourceCard)
    } else if code == 54063347 {
        Some(EventHook::SelectComponentInstance)
    } else if code == 31177327 {
        Some(EventHook::OpenComponent)
    } else if code == 45873780 {
        Some(EventHook::ToggleComponentRoot)
    } else if code == 47921651 {
        Some(EventHook::SelectRuntimeDetails)
    } else if code == 41759475 {
        Some(EventHook::SelectDogfoodNote)
    } else if code == 45872111 {
        Some(EventHook::OpenComponentDialog)
    } else if code == 26964713 {
        Some(EventHook::InsertFrame)
    } else if code == 22805481 {
        Some(EventHook::InsertRow)
    } else if code == 25049705 {
        Some(EventHook::InsertText)
    } else if code == 29095785 {
        Some(EventHook::InsertButton)
    } else if code == 31011556 {
        Some(EventHook::DuplicateNode)
    } else if code == 24720100 {
        Some(EventHook::DeleteNode)
    } else if code == 47969251 {
        Some(EventHook::CloseComponentDialog)
    } else if code == 45839987 {
        Some(EventHook::SelectComponentHtml)
    } else if code == 45970675 {
        Some(EventHook::SelectComponentGpui)
    } else if code == 56357363 {
        Some(EventHook::SelectComponentSelection)
    } else if code == 47953395 {
        Some(EventHook::SelectComponentBlank)
    } else if code == 58422003 {
        Some(EventHook::SelectComponentPasteHtml)
    } else if code == 54031091 {
        Some(EventHook::SelectComponentTitlebar)
    } else if code == 60551139 {
        Some(EventHook::CreateComponentFromDialog)
    } else if code == 26965602 {
        Some(EventHook::BackendHtml)
    } else if code == 27096290 {
        Some(EventHook::BackendGpui)
    } else if code == 24770413 {
        Some(EventHook::ModeDesign)
    } else if code == 24703725 {
        Some(EventHook::ModeSource)
    } else if code == 20773485 {
        Some(EventHook::ModeTest)
    } else if code == 27046637 {
        Some(EventHook::ModeCompare)
    } else if code == 24705652 {
        Some(EventHook::ToolSelect)
    } else if code == 20820724 {
        Some(EventHook::ToolMove)
    } else if code == 29176564 {
        Some(EventHook::ToolAnnotate)
    } else if code == 24770422 {
        Some(EventHook::ViewDesign)
    } else if code == 26835958 {
        Some(EventHook::ViewPreview)
    } else {
        None
    }
}

#[verifier::rlimit(100)]
proof fn lemma_size_keys(hook: EventHook)
    requires
        hook is Size,
    ensures
        key(hook.id_text()) == code(hook),
        decoded(code(hook)) == Some(hook),
{
    match hook {
        EventHook::Size(InspectorSizeAxis::Width, SizePolicy::Hug) => {
            reveal_strlit("inspector_width_hug");
            assert(hook.id_text().len() == 19);
            assert(hook.id_text()[17] == 'u');
            assert(hook.id_text()[18] == 'g');
            assert(hook.id_text()[0] == 'i');
        },
        EventHook::Size(InspectorSizeAxis::Width, SizePolicy::Fill) => {
            reveal_strlit("inspector_width_fill");
            assert(hook.id_text().len() == 20);
            assert(hook.id_text()[18] == 'l');
            assert(hook.id_text()[19] == 'l');
            assert(hook.id_text()[0] == 'i');
        },
        EventHook::Size(InspectorSizeAxis::Width, SizePolicy::Fixed) => {
            reveal_strlit("inspector_width_fixed");
            assert(hook.id_text().len() == 21);
            assert(hook.id_text()[19] == 'e');
            assert(hook.id_text()[20] == 'd');
            assert(hook.id_text()[0] == 'i');
        },
        EventHook::Size(InspectorSizeAxis::Height, SizePolicy::Hug) => {
            reveal_strlit("inspector_height_hug");
            assert(hook.id_text().len() == 20);
            assert(hook.id_text()[18] == 'u');
            assert(hook.id_text()[19] == 'g');
            assert(hook.id_text()[0] == 'i');
        },
        EventHook::Size(InspectorSizeAxis::Height, SizePolicy::Fill) => {
            reveal_strlit("inspector_height_fill");
            assert(hook.id_text().len() == 21);
            assert(hook.id_text()[19] == 'l');
            assert(hook.id_text()[20] == 'l');
            assert(hook.id_text()[0] == 'i');
        },
        EventHook::Size(InspectorSizeAxis::Height, SizePolicy::Fixed) => {
            reveal_strlit("inspector_height_fixed");
            assert(hook.id_text().len() == 22);
            assert(hook.id_text()[20] == 'e');
            assert(hook.id_text()[21] == 'd');
            assert(hook.id_text()[0] == 'i');
        },
        _ => {},
    }
}

#[verifier::rlimit(100)]
proof fn lemma_alignment_keys(hook: EventHook)
    requires
        hook is Alignment,
    ensures
        key(hook.id_text()) == code(hook),
        decoded(code(hook)) == Some(hook),
{
    match hook {
        EventHook::Alignment(InspectorAlignmentAxis::Align, AlignPolicy::Start) => {
            reveal_strlit("inspector_align_start");
            assert(hook.id_text().len() == 21);
            assert(hook.id_text()[19] == 'r');
            assert(hook.id_text()[20] == 't');
            assert(hook.id_text()[0] == 'i');
        },
        EventHook::Alignment(InspectorAlignmentAxis::Align, AlignPolicy::Center) => {
            reveal_strlit("inspector_align_center");
            assert(hook.id_text().len() == 22);
            assert(hook.id_text()[20] == 'e');
            assert(hook.id_text()[21] == 'r');
            assert(hook.id_text()[0] == 'i');
        },
        EventHook::Alignment(InspectorAlignmentAxis::Align, AlignPolicy::End) => {
            reveal_strlit("inspector_align_end");
            assert(hook.id_text().len() == 19);
            assert(hook.id_text()[17] == 'n');
            assert(hook.id_text()[18] == 'd');
            assert(hook.id_text()[0] == 'i');
        },
        EventHook::Alignment(InspectorAlignmentAxis::Justify, AlignPolicy::Start) => {
            reveal_strlit("inspector_justify_start");
            assert(hook.id_text().len() == 23);
            assert(hook.id_text()[21] == 'r');
            assert(hook.id_text()[21] == 'r');
            assert(hook.id_text()[0] == 'i');
        },
        EventHook::Alignment(InspectorAlignmentAxis::Justify, AlignPolicy::Center) => {
            reveal_strlit("inspector_justify_center");
            assert(hook.id_text().len() == 24);
            assert(hook.id_text()[22] == 'e');
            assert(hook.id_text()[21] == 't');
            assert(hook.id_text()[0] == 'i');
        },
        EventHook::Alignment(InspectorAlignmentAxis::Justify, AlignPolicy::End) => {
            reveal_strlit("inspector_justify_end");
            assert(hook.id_text().len() == 21);
            assert(hook.id_text()[19] == 'n');
            assert(hook.id_text()[20] == 'd');
            assert(hook.id_text()[0] == 'i');
        },
        _ => {},
    }
}

#[verifier::rlimit(100)]
proof fn lemma_layout_keys(hook: EventHook)
    requires
        hook is Layout,
    ensures
        key(hook.id_text()) == code(hook),
        decoded(code(hook)) == Some(hook),
{
    match hook {
        EventHook::Layout(InspectorLayoutChoice::Wrap(NativeWrap::NoWrap)) => {
            reveal_strlit("inspector_wrap_none");
            assert(hook.id_text().len() == 19);
            assert(hook.id_text()[17] == 'n');
            assert(hook.id_text()[18] == 'e');
            assert(hook.id_text()[0] == 'i');
        },
        EventHook::Layout(InspectorLayoutChoice::Wrap(NativeWrap::Wrap)) => {
            reveal_strlit("inspector_wrap_wrap");
            assert(hook.id_text().len() == 19);
            assert(hook.id_text()[17] == 'a');
            assert(hook.id_text()[18] == 'p');
            assert(hook.id_text()[0] == 'i');
        },
        EventHook::Layout(InspectorLayoutChoice::Wrap(NativeWrap::WrapReverse)) => {
            reveal_strlit("inspector_wrap_reverse");
            assert(hook.id_text().len() == 22);
            assert(hook.id_text()[20] == 's');
            assert(hook.id_text()[21] == 'e');
            assert(hook.id_text()[0] == 'i');
        },
        EventHook::Layout(InspectorLayoutChoice::Position(NativePosition::Flow)) => {
            reveal_strlit("inspector_position_flow");
            assert(hook.id_text().len() == 23);
            assert(hook.id_text()[21] == 'o');
            assert(hook.id_text()[21] == 'o');
            assert(hook.id_text()[0] == 'i');
        },
        EventHook::Layout(InspectorLayoutChoice::Position(NativePosition::Absolute)) => {
            reveal_strlit("inspector_position_absolute");
            assert(hook.id_text().len() == 27);
            assert(hook.id_text()[25] == 't');
            assert(hook.id_text()[21] == 's');
            assert(hook.id_text()[0] == 'i');
        },
        EventHook::Layout(InspectorLayoutChoice::Overflow(NativeOverflow::Visible)) => {
            reveal_strlit("inspector_overflow_visible");
            assert(hook.id_text().len() == 26);
            assert(hook.id_text()[24] == 'l');
            assert(hook.id_text()[21] == 's');
            assert(hook.id_text()[0] == 'i');
        },
        EventHook::Layout(InspectorLayoutChoice::Overflow(NativeOverflow::Hidden)) => {
            reveal_strlit("inspector_overflow_hidden");
            assert(hook.id_text().len() == 25);
            assert(hook.id_text()[23] == 'e');
            assert(hook.id_text()[21] == 'd');
            assert(hook.id_text()[0] == 'i');
        },
        EventHook::Layout(InspectorLayoutChoice::Overflow(NativeOverflow::Scroll)) => {
            reveal_strlit("inspector_overflow_scroll");
            assert(hook.id_text().len() == 25);
            assert(hook.id_text()[23] == 'l');
            assert(hook.id_text()[21] == 'r');
            assert(hook.id_text()[0] == 'i');
        },
        EventHook::Layout(InspectorLayoutChoice::HorizontalConstraint(NativeConstraint::Start)) => {
            reveal_strlit("inspector_constraint_x_");
            reveal_strlit("start");
            assert(hook.id_text().len() == 28);
            assert(hook.id_text()[26] == 'r');
            assert(hook.id_text()[21] == 'x');
            assert(hook.id_text()[0] == 'i');
        },
        EventHook::Layout(InspectorLayoutChoice::HorizontalConstraint(NativeConstraint::Center)) => {
            reveal_strlit("inspector_constraint_x_");
            reveal_strlit("center");
            assert(hook.id_text().len() == 29);
            assert(hook.id_text()[27] == 'e');
            assert(hook.id_text()[21] == 'x');
            assert(hook.id_text()[1] == 'n');
        },
        EventHook::Layout(InspectorLayoutChoice::HorizontalConstraint(NativeConstraint::End)) => {
            reveal_strlit("inspector_constraint_x_");
            reveal_strlit("end");
            assert(hook.id_text().len() == 26);
            assert(hook.id_text()[24] == 'n');
            assert(hook.id_text()[21] == 'x');
            assert(hook.id_text()[0] == 'i');
        },
        EventHook::Layout(InspectorLayoutChoice::HorizontalConstraint(NativeConstraint::Scale)) => {
            reveal_strlit("inspector_constraint_x_");
            reveal_strlit("scale");
            assert(hook.id_text().len() == 28);
            assert(hook.id_text()[26] == 'l');
            assert(hook.id_text()[21] == 'x');
            assert(hook.id_text()[0] == 'i');
        },
        EventHook::Layout(InspectorLayoutChoice::HorizontalConstraint(NativeConstraint::Stretch)) => {
            reveal_strlit("inspector_constraint_x_");
            reveal_strlit("stretch");
            assert(hook.id_text().len() == 30);
            assert(hook.id_text()[28] == 'c');
            assert(hook.id_text()[21] == 'x');
            assert(hook.id_text()[2] == 's');
        },
        EventHook::Layout(InspectorLayoutChoice::VerticalConstraint(NativeConstraint::Start)) => {
            reveal_strlit("inspector_constraint_y_");
            reveal_strlit("start");
            assert(hook.id_text().len() == 28);
            assert(hook.id_text()[26] == 'r');
            assert(hook.id_text()[21] == 'y');
            assert(hook.id_text()[0] == 'i');
        },
        EventHook::Layout(InspectorLayoutChoice::VerticalConstraint(NativeConstraint::Center)) => {
            reveal_strlit("inspector_constraint_y_");
            reveal_strlit("center");
            assert(hook.id_text().len() == 29);
            assert(hook.id_text()[27] == 'e');
            assert(hook.id_text()[21] == 'y');
            assert(hook.id_text()[1] == 'n');
        },
        EventHook::Layout(InspectorLayoutChoice::VerticalConstraint(NativeConstraint::End)) => {
            reveal_strlit("inspector_constraint_y_");
            reveal_strlit("end");
            assert(hook.id_text().len() == 26);
            assert(hook.id_text()[24] == 'n');
            assert(hook.id_text()[21] == 'y');
            assert(hook.id_text()[0] == 'i');
        },
        EventHook::Layout(InspectorLayoutChoice::VerticalConstraint(NativeConstraint::Scale)) => {
            reveal_strlit("inspector_constraint_y_");
            reveal_strlit("scale");
            assert(hook.id_text().len() == 28);
            assert(hook.id_text()[26] == 'l');
            assert(hook.id_text()[21] == 'y');
            assert(hook.id_text()[0] == 'i');
        },
        EventHook::Layout(InspectorLayoutChoice::VerticalConstraint(NativeConstraint::Stretch)) => {
            reveal_strlit("inspector_constraint_y_");
            reveal_strlit("stretch");
            assert(hook.id_text().len() == 30);
            assert(hook.id_text()[28] == 'c');
            assert(hook.id_text()[21] == 'y');
            assert(hook.id_text()[2] == 's');
        },
        EventHook::Layout(InspectorLayoutChoice::Grow(false)) => {
            reveal_strlit("inspector_grow_off");
            assert(hook.id_text().len() == 18);
            assert(hook.id_text()[16] == 'f');
            assert(hook.id_text()[17] == 'f');
            assert(hook.id_text()[0] == 'i');
        },
        EventHook::Layout(InspectorLayoutChoice::Grow(true)) => {
            reveal_strlit("inspector_grow_on");
            assert(hook.id_text().len() == 17);
            assert(hook.id_text()[15] == 'o');
            assert(hook.id_text()[16] == 'n');
            assert(hook.id_text()[0] == 'i');
        },
        EventHook::Layout(InspectorLayoutChoice::Shrink(false)) => {
            reveal_strlit("inspector_shrink_off");
            assert(hook.id_text().len() == 20);
            assert(hook.id_text()[18] == 'f');
            assert(hook.id_text()[19] == 'f');
            assert(hook.id_text()[0] == 'i');
        },
        EventHook::Layout(InspectorLayoutChoice::Shrink(true)) => {
            reveal_strlit("inspector_shrink_on");
            assert(hook.id_text().len() == 19);
            assert(hook.id_text()[17] == 'o');
            assert(hook.id_text()[18] == 'n');
            assert(hook.id_text()[0] == 'i');
        },
        _ => {},
    }
}

#[verifier::rlimit(100)]
proof fn lemma_preset_keys(hook: EventHook)
    requires
        hook is Preset,
    ensures
        key(hook.id_text()) == code(hook),
        decoded(code(hook)) == Some(hook),
{
    match hook {
        EventHook::Preset(ComponentPreset::Button) => {
            reveal_strlit("select_preset_");
            reveal_strlit("button");
            assert(hook.id_text().len() == 20);
            assert(hook.id_text()[18] == 'o');
            assert(hook.id_text()[19] == 'n');
            assert(hook.id_text()[0] == 's');
        },
        EventHook::Preset(ComponentPreset::ButtonGroup) => {
            reveal_strlit("select_preset_");
            reveal_strlit("button_group");
            assert(hook.id_text().len() == 26);
            assert(hook.id_text()[24] == 'u');
            assert(hook.id_text()[21] == 'g');
            assert(hook.id_text()[0] == 's');
        },
        EventHook::Preset(ComponentPreset::Card) => {
            reveal_strlit("select_preset_");
            reveal_strlit("card");
            assert(hook.id_text().len() == 18);
            assert(hook.id_text()[16] == 'r');
            assert(hook.id_text()[17] == 'd');
            assert(hook.id_text()[0] == 's');
        },
        EventHook::Preset(ComponentPreset::Badge) => {
            reveal_strlit("select_preset_");
            reveal_strlit("badge");
            assert(hook.id_text().len() == 19);
            assert(hook.id_text()[17] == 'g');
            assert(hook.id_text()[18] == 'e');
            assert(hook.id_text()[0] == 's');
        },
        EventHook::Preset(ComponentPreset::Alert) => {
            reveal_strlit("select_preset_");
            reveal_strlit("alert");
            assert(hook.id_text().len() == 19);
            assert(hook.id_text()[17] == 'r');
            assert(hook.id_text()[18] == 't');
            assert(hook.id_text()[0] == 's');
        },
        EventHook::Preset(ComponentPreset::Toolbar) => {
            reveal_strlit("select_preset_");
            reveal_strlit("toolbar");
            assert(hook.id_text().len() == 21);
            assert(hook.id_text()[19] == 'a');
            assert(hook.id_text()[20] == 'r');
            assert(hook.id_text()[0] == 's');
        },
        EventHook::Preset(ComponentPreset::Avatar) => {
            reveal_strlit("select_preset_");
            reveal_strlit("avatar");
            assert(hook.id_text().len() == 20);
            assert(hook.id_text()[18] == 'a');
            assert(hook.id_text()[19] == 'r');
            assert(hook.id_text()[0] == 's');
        },
        EventHook::Preset(ComponentPreset::EmptyState) => {
            reveal_strlit("select_preset_");
            reveal_strlit("empty_state");
            assert(hook.id_text().len() == 25);
            assert(hook.id_text()[23] == 't');
            assert(hook.id_text()[21] == 't');
            assert(hook.id_text()[0] == 's');
        },
        EventHook::Preset(ComponentPreset::Titlebar) => {
            reveal_strlit("select_preset_");
            reveal_strlit("titlebar");
            assert(hook.id_text().len() == 22);
            assert(hook.id_text()[20] == 'a');
            assert(hook.id_text()[21] == 'r');
            assert(hook.id_text()[0] == 's');
        },
        EventHook::Preset(ComponentPreset::Tabs) => {
            reveal_strlit("select_preset_");
            reveal_strlit("tabs");
            assert(hook.id_text().len() == 18);
            assert(hook.id_text()[16] == 'b');
            assert(hook.id_text()[17] == 's');
            assert(hook.id_text()[0] == 's');
        },
        EventHook::Preset(ComponentPreset::Dialog) => {
            reveal_strlit("select_preset_");
            reveal_strlit("dialog");
            assert(hook.id_text().len() == 20);
            assert(hook.id_text()[18] == 'o');
            assert(hook.id_text()[19] == 'g');
            assert(hook.id_text()[0] == 's');
        },
        EventHook::Preset(ComponentPreset::Dropdown) => {
            reveal_strlit("select_preset_");
            reveal_strlit("dropdown");
            assert(hook.id_text().len() == 22);
            assert(hook.id_text()[20] == 'w');
            assert(hook.id_text()[21] == 'n');
            assert(hook.id_text()[0] == 's');
        },
        EventHook::Preset(ComponentPreset::DropdownMenu) => {
            reveal_strlit("select_preset_");
            reveal_strlit("dropdown_menu");
            assert(hook.id_text().len() == 27);
            assert(hook.id_text()[25] == 'n');
            assert(hook.id_text()[21] == 'n');
            assert(hook.id_text()[0] == 's');
        },
        EventHook::Preset(ComponentPreset::Drawer) => {
            reveal_strlit("select_preset_");
            reveal_strlit("drawer");
            assert(hook.id_text().len() == 20);
            assert(hook.id_text()[18] == 'e');
            assert(hook.id_text()[19] == 'r');
            assert(hook.id_text()[0] == 's');
        },
        EventHook::Preset(ComponentPreset::Scrollable) => {
            reveal_strlit("select_preset_");
            reveal_strlit("scrollable");
            assert(hook.id_text().len() == 24);
            assert(hook.id_text()[22] == 'l');
            assert(hook.id_text()[21] == 'b');
            assert(hook.id_text()[0] == 's');
        },
        EventHook::Preset(ComponentPreset::Resizable) => {
            reveal_strlit("select_preset_");
            reveal_strlit("resizable");
            assert(hook.id_text().len() == 23);
            assert(hook.id_text()[21] == 'l');
            assert(hook.id_text()[21] == 'l');
            assert(hook.id_text()[0] == 's');
        },
        EventHook::Preset(ComponentPreset::Tooltip) => {
            reveal_strlit("select_preset_");
            reveal_strlit("tooltip");
            assert(hook.id_text().len() == 21);
            assert(hook.id_text()[19] == 'i');
            assert(hook.id_text()[20] == 'p');
            assert(hook.id_text()[0] == 's');
        },
        _ => {},
    }
}

#[verifier::rlimit(100)]
proof fn lemma_fixed_keys(hook: EventHook)
    requires
        !(hook is Size || hook is Alignment || hook is Layout || hook is Preset),
    ensures
        key(hook.id_text()) == code(hook),
        decoded(code(hook)) == Some(hook),
{
    match hook {
        EventHook::SaveProject => {
            reveal_strlit("save_project");
            assert(hook.id_text().len() == 12);
            assert(hook.id_text()[10] == 'c');
            assert(hook.id_text()[11] == 't');
            assert(hook.id_text()[0] == 's');
        },
        EventHook::ReloadProject => {
            reveal_strlit("reload_project");
            assert(hook.id_text().len() == 14);
            assert(hook.id_text()[12] == 'c');
            assert(hook.id_text()[13] == 't');
            assert(hook.id_text()[0] == 'r');
        },
        EventHook::Undo => {
            reveal_strlit("undo");
            assert(hook.id_text().len() == 4);
            assert(hook.id_text()[2] == 'd');
            assert(hook.id_text()[3] == 'o');
            assert(hook.id_text()[0] == 'u');
        },
        EventHook::Redo => {
            reveal_strlit("redo");
            assert(hook.id_text().len() == 4);
            assert(hook.id_text()[2] == 'd');
            assert(hook.id_text()[3] == 'o');
            assert(hook.id_text()[0] == 'r');
        },
        EventHook::DeleteAnnotation => {
            reveal_strlit("delete_annotation");
            assert(hook.id_text().len() == 17);
            assert(hook.id_text()[15] == 'o');
            assert(hook.id_text()[16] == 'n');
            assert(hook.id_text()[0] == 'd');
        },
        EventHook::CloseAnnotation => {
            reveal_strlit("close_annotation");
            assert(hook.id_text().len() == 16);
            assert(hook.id_text()[14] == 'o');
            assert(hook.id_text()[15] == 'n');
            assert(hook.id_text()[0] == 'c');
        },
        EventHook::SendAnnotations => {
            reveal_strlit("send_annotations");
            assert(hook.id_text().len() == 16);
            assert(hook.id_text()[14] == 'n');
            assert(hook.id_text()[15] == 's');
            assert(hook.id_text()[0] == 's');
        },
        EventHook::CycleTheme => {
            reveal_strlit("cycle_theme");
            assert(hook.id_text().len() == 11);
            assert(hook.id_text()[9] == 'm');
            assert(hook.id_text()[10] == 'e');
            assert(hook.id_text()[0] == 'c');
        },
        EventHook::OpenSettings => {
            reveal_strlit("open_settings");
            assert(hook.id_text().len() == 13);
            assert(hook.id_text()[11] == 'g');
            assert(hook.id_text()[12] == 's');
            assert(hook.id_text()[0] == 'o');
        },
        EventHook::ToggleAnnotationsDrawer => {
            reveal_strlit("toggle_annotations_drawer");
            assert(hook.id_text().len() == 25);
            assert(hook.id_text()[23] == 'e');
            assert(hook.id_text()[21] == 'a');
            assert(hook.id_text()[0] == 't');
        },
        EventHook::ShowLayers => {
            reveal_strlit("show_layers");
            assert(hook.id_text().len() == 11);
            assert(hook.id_text()[9] == 'r');
            assert(hook.id_text()[10] == 's');
            assert(hook.id_text()[0] == 's');
        },
        EventHook::ShowFiles => {
            reveal_strlit("show_files");
            assert(hook.id_text().len() == 10);
            assert(hook.id_text()[8] == 'e');
            assert(hook.id_text()[9] == 's');
            assert(hook.id_text()[0] == 's');
        },
        EventHook::ToggleProjectMenu => {
            reveal_strlit("toggle_project_menu");
            assert(hook.id_text().len() == 19);
            assert(hook.id_text()[17] == 'n');
            assert(hook.id_text()[18] == 'u');
            assert(hook.id_text()[0] == 't');
        },
        EventHook::ShowProjectCanvas => {
            reveal_strlit("show_project_canvas");
            assert(hook.id_text().len() == 19);
            assert(hook.id_text()[17] == 'a');
            assert(hook.id_text()[18] == 's');
            assert(hook.id_text()[0] == 's');
        },
        EventHook::ShowComponentLibrary => {
            reveal_strlit("show_component_library");
            assert(hook.id_text().len() == 22);
            assert(hook.id_text()[20] == 'r');
            assert(hook.id_text()[21] == 'y');
            assert(hook.id_text()[0] == 's');
        },
        EventHook::ProjectOpenHelp => {
            reveal_strlit("project_open_help");
            assert(hook.id_text().len() == 17);
            assert(hook.id_text()[15] == 'l');
            assert(hook.id_text()[16] == 'p');
            assert(hook.id_text()[0] == 'p');
        },
        EventHook::ToggleViewportMenu => {
            reveal_strlit("toggle_viewport_menu");
            assert(hook.id_text().len() == 20);
            assert(hook.id_text()[18] == 'n');
            assert(hook.id_text()[19] == 'u');
            assert(hook.id_text()[0] == 't');
        },
        EventHook::ViewportResponsive => {
            reveal_strlit("viewport_responsive");
            assert(hook.id_text().len() == 19);
            assert(hook.id_text()[17] == 'v');
            assert(hook.id_text()[18] == 'e');
            assert(hook.id_text()[0] == 'v');
        },
        EventHook::ViewportDesktop => {
            reveal_strlit("viewport_desktop");
            assert(hook.id_text().len() == 16);
            assert(hook.id_text()[14] == 'o');
            assert(hook.id_text()[15] == 'p');
            assert(hook.id_text()[0] == 'v');
        },
        EventHook::ViewportTablet => {
            reveal_strlit("viewport_tablet");
            assert(hook.id_text().len() == 15);
            assert(hook.id_text()[13] == 'e');
            assert(hook.id_text()[14] == 't');
            assert(hook.id_text()[0] == 'v');
        },
        EventHook::ViewportMobile => {
            reveal_strlit("viewport_mobile");
            assert(hook.id_text().len() == 15);
            assert(hook.id_text()[13] == 'l');
            assert(hook.id_text()[14] == 'e');
            assert(hook.id_text()[0] == 'v');
        },
        EventHook::RotateViewport => {
            reveal_strlit("rotate_viewport");
            assert(hook.id_text().len() == 15);
            assert(hook.id_text()[13] == 'r');
            assert(hook.id_text()[14] == 't');
            assert(hook.id_text()[0] == 'r');
        },
        EventHook::ToggleOutputDecorations => {
            reveal_strlit("toggle_output_decorations");
            assert(hook.id_text().len() == 25);
            assert(hook.id_text()[23] == 'n');
            assert(hook.id_text()[21] == 'i');
            assert(hook.id_text()[0] == 't');
        },
        EventHook::ToggleSnap => {
            reveal_strlit("toggle_snap");
            assert(hook.id_text().len() == 11);
            assert(hook.id_text()[9] == 'a');
            assert(hook.id_text()[10] == 'p');
            assert(hook.id_text()[0] == 't');
        },
        EventHook::ZoomOut => {
            reveal_strlit("zoom_out");
            assert(hook.id_text().len() == 8);
            assert(hook.id_text()[6] == 'u');
            assert(hook.id_text()[7] == 't');
            assert(hook.id_text()[0] == 'z');
        },
        EventHook::ZoomFit => {
            reveal_strlit("zoom_fit");
            assert(hook.id_text().len() == 8);
            assert(hook.id_text()[6] == 'i');
            assert(hook.id_text()[7] == 't');
            assert(hook.id_text()[0] == 'z');
        },
        EventHook::ZoomIn => {
            reveal_strlit("zoom_in");
            assert(hook.id_text().len() == 7);
            assert(hook.id_text()[5] == 'i');
            assert(hook.id_text()[6] == 'n');
            assert(hook.id_text()[0] == 'z');
        },
        EventHook::DockConsole => {
            reveal_strlit("dock_console");
            assert(hook.id_text().len() == 12);
            assert(hook.id_text()[10] == 'l');
            assert(hook.id_text()[11] == 'e');
            assert(hook.id_text()[0] == 'd');
        },
        EventHook::DockStates => {
            reveal_strlit("dock_states");
            assert(hook.id_text().len() == 11);
            assert(hook.id_text()[9] == 'e');
            assert(hook.id_text()[10] == 's');
            assert(hook.id_text()[0] == 'd');
        },
        EventHook::ToggleDock => {
            reveal_strlit("toggle_dock");
            assert(hook.id_text().len() == 11);
            assert(hook.id_text()[9] == 'c');
            assert(hook.id_text()[10] == 'k');
            assert(hook.id_text()[0] == 't');
        },
        EventHook::InspectorLayout => {
            reveal_strlit("inspector_layout");
            assert(hook.id_text().len() == 16);
            assert(hook.id_text()[14] == 'u');
            assert(hook.id_text()[15] == 't');
            assert(hook.id_text()[0] == 'i');
        },
        EventHook::InspectorStyle => {
            reveal_strlit("inspector_style");
            assert(hook.id_text().len() == 15);
            assert(hook.id_text()[13] == 'l');
            assert(hook.id_text()[14] == 'e');
            assert(hook.id_text()[0] == 'i');
        },
        EventHook::InspectorLogic => {
            reveal_strlit("inspector_logic");
            assert(hook.id_text().len() == 15);
            assert(hook.id_text()[13] == 'i');
            assert(hook.id_text()[14] == 'c');
            assert(hook.id_text()[0] == 'i');
        },
        EventHook::ConstraintLeft => {
            reveal_strlit("constraint_left");
            assert(hook.id_text().len() == 15);
            assert(hook.id_text()[13] == 'f');
            assert(hook.id_text()[14] == 't');
            assert(hook.id_text()[0] == 'c');
        },
        EventHook::ConstraintCenter => {
            reveal_strlit("constraint_center");
            assert(hook.id_text().len() == 17);
            assert(hook.id_text()[15] == 'e');
            assert(hook.id_text()[16] == 'r');
            assert(hook.id_text()[0] == 'c');
        },
        EventHook::ConstraintRight => {
            reveal_strlit("constraint_right");
            assert(hook.id_text().len() == 16);
            assert(hook.id_text()[14] == 'h');
            assert(hook.id_text()[15] == 't');
            assert(hook.id_text()[0] == 'c');
        },
        EventHook::ConstraintScale => {
            reveal_strlit("constraint_scale");
            assert(hook.id_text().len() == 16);
            assert(hook.id_text()[14] == 'l');
            assert(hook.id_text()[15] == 'e');
            assert(hook.id_text()[0] == 'c');
        },
        EventHook::AddProperty => {
            reveal_strlit("add_property");
            assert(hook.id_text().len() == 12);
            assert(hook.id_text()[10] == 't');
            assert(hook.id_text()[11] == 'y');
            assert(hook.id_text()[0] == 'a');
        },
        EventHook::SaveComponentState => {
            reveal_strlit("save_component_state");
            assert(hook.id_text().len() == 20);
            assert(hook.id_text()[18] == 't');
            assert(hook.id_text()[19] == 'e');
            assert(hook.id_text()[0] == 's');
        },
        EventHook::RemoveComponentState => {
            reveal_strlit("remove_component_state");
            assert(hook.id_text().len() == 22);
            assert(hook.id_text()[20] == 't');
            assert(hook.id_text()[21] == 'e');
            assert(hook.id_text()[0] == 'r');
        },
        EventHook::SaveComponentVariant => {
            reveal_strlit("save_component_variant");
            assert(hook.id_text().len() == 22);
            assert(hook.id_text()[20] == 'n');
            assert(hook.id_text()[21] == 't');
            assert(hook.id_text()[0] == 's');
        },
        EventHook::CaptureVariantOverride => {
            reveal_strlit("capture_variant_override");
            assert(hook.id_text().len() == 24);
            assert(hook.id_text()[22] == 'd');
            assert(hook.id_text()[21] == 'i');
            assert(hook.id_text()[0] == 'c');
        },
        EventHook::RemoveComponentVariant => {
            reveal_strlit("remove_component_variant");
            assert(hook.id_text().len() == 24);
            assert(hook.id_text()[22] == 'n');
            assert(hook.id_text()[21] == 'a');
            assert(hook.id_text()[0] == 'r');
        },
        EventHook::SaveComponentSlot => {
            reveal_strlit("save_component_slot");
            assert(hook.id_text().len() == 19);
            assert(hook.id_text()[17] == 'o');
            assert(hook.id_text()[18] == 't');
            assert(hook.id_text()[0] == 's');
        },
        EventHook::ToggleSlotMultiple => {
            reveal_strlit("toggle_slot_multiple");
            assert(hook.id_text().len() == 20);
            assert(hook.id_text()[18] == 'l');
            assert(hook.id_text()[19] == 'e');
            assert(hook.id_text()[0] == 't');
        },
        EventHook::RemoveComponentSlot => {
            reveal_strlit("remove_component_slot");
            assert(hook.id_text().len() == 21);
            assert(hook.id_text()[19] == 'o');
            assert(hook.id_text()[20] == 't');
            assert(hook.id_text()[0] == 'r');
        },
        EventHook::SaveDesignToken => {
            reveal_strlit("save_design_token");
            assert(hook.id_text().len() == 17);
            assert(hook.id_text()[15] == 'e');
            assert(hook.id_text()[16] == 'n');
            assert(hook.id_text()[0] == 's');
        },
        EventHook::RemoveDesignToken => {
            reveal_strlit("remove_design_token");
            assert(hook.id_text().len() == 19);
            assert(hook.id_text()[17] == 'e');
            assert(hook.id_text()[18] == 'n');
            assert(hook.id_text()[0] == 'r');
        },
        EventHook::RemoveProperty => {
            reveal_strlit("remove_property");
            assert(hook.id_text().len() == 15);
            assert(hook.id_text()[13] == 't');
            assert(hook.id_text()[14] == 'y');
            assert(hook.id_text()[0] == 'r');
        },
        EventHook::AddLogic => {
            reveal_strlit("add_logic");
            assert(hook.id_text().len() == 9);
            assert(hook.id_text()[7] == 'i');
            assert(hook.id_text()[8] == 'c');
            assert(hook.id_text()[0] == 'a');
        },
        EventHook::ToggleLayerWelcome => {
            reveal_strlit("toggle_layer_welcome");
            assert(hook.id_text().len() == 20);
            assert(hook.id_text()[18] == 'm');
            assert(hook.id_text()[19] == 'e');
            assert(hook.id_text()[0] == 't');
        },
        EventHook::ToggleLayerHeader => {
            reveal_strlit("toggle_layer_header");
            assert(hook.id_text().len() == 19);
            assert(hook.id_text()[17] == 'e');
            assert(hook.id_text()[18] == 'r');
            assert(hook.id_text()[0] == 't');
        },
        EventHook::ToggleLayerWelcomeCopy => {
            reveal_strlit("toggle_layer_welcome_copy");
            assert(hook.id_text().len() == 25);
            assert(hook.id_text()[23] == 'p');
            assert(hook.id_text()[21] == 'c');
            assert(hook.id_text()[0] == 't');
        },
        EventHook::ToggleLayerFeatureCards => {
            reveal_strlit("toggle_layer_feature_cards");
            assert(hook.id_text().len() == 26);
            assert(hook.id_text()[24] == 'd');
            assert(hook.id_text()[21] == 'c');
            assert(hook.id_text()[0] == 't');
        },
        EventHook::ToggleLayerWelcomeLower => {
            reveal_strlit("toggle_layer_welcome_lower");
            assert(hook.id_text().len() == 26);
            assert(hook.id_text()[24] == 'e');
            assert(hook.id_text()[21] == 'l');
            assert(hook.id_text()[0] == 't');
        },
        EventHook::SelectWelcome => {
            reveal_strlit("select_welcome");
            assert(hook.id_text().len() == 14);
            assert(hook.id_text()[12] == 'm');
            assert(hook.id_text()[13] == 'e');
            assert(hook.id_text()[0] == 's');
        },
        EventHook::SelectRuntimeBadge => {
            reveal_strlit("select_runtime_badge");
            assert(hook.id_text().len() == 20);
            assert(hook.id_text()[18] == 'g');
            assert(hook.id_text()[19] == 'e');
            assert(hook.id_text()[0] == 's');
        },
        EventHook::SelectHeroTitle => {
            reveal_strlit("select_hero_title");
            assert(hook.id_text().len() == 17);
            assert(hook.id_text()[15] == 'l');
            assert(hook.id_text()[16] == 'e');
            assert(hook.id_text()[0] == 's');
        },
        EventHook::SelectRuntimeBuildingCard => {
            reveal_strlit("select_runtime_building_card");
            assert(hook.id_text().len() == 28);
            assert(hook.id_text()[26] == 'r');
            assert(hook.id_text()[21] == 'n');
            assert(hook.id_text()[0] == 's');
        },
        EventHook::SelectLocalAiCard => {
            reveal_strlit("select_local_ai_card");
            assert(hook.id_text().len() == 20);
            assert(hook.id_text()[18] == 'r');
            assert(hook.id_text()[19] == 'd');
            assert(hook.id_text()[0] == 's');
        },
        EventHook::SelectPortableSourceCard => {
            reveal_strlit("select_portable_source_card");
            assert(hook.id_text().len() == 27);
            assert(hook.id_text()[25] == 'r');
            assert(hook.id_text()[21] == 'e');
            assert(hook.id_text()[0] == 's');
        },
        EventHook::SelectComponentInstance => {
            reveal_strlit("select_component_instance");
            assert(hook.id_text().len() == 25);
            assert(hook.id_text()[23] == 'c');
            assert(hook.id_text()[21] == 'a');
            assert(hook.id_text()[0] == 's');
        },
        EventHook::OpenComponent => {
            reveal_strlit("open_component");
            assert(hook.id_text().len() == 14);
            assert(hook.id_text()[12] == 'n');
            assert(hook.id_text()[13] == 't');
            assert(hook.id_text()[0] == 'o');
        },
        EventHook::ToggleComponentRoot => {
            reveal_strlit("toggle_component_root");
            assert(hook.id_text().len() == 21);
            assert(hook.id_text()[19] == 'o');
            assert(hook.id_text()[20] == 't');
            assert(hook.id_text()[0] == 't');
        },
        EventHook::SelectRuntimeDetails => {
            reveal_strlit("select_runtime_details");
            assert(hook.id_text().len() == 22);
            assert(hook.id_text()[20] == 'l');
            assert(hook.id_text()[21] == 's');
            assert(hook.id_text()[0] == 's');
        },
        EventHook::SelectDogfoodNote => {
            reveal_strlit("select_dogfood_note");
            assert(hook.id_text().len() == 19);
            assert(hook.id_text()[17] == 't');
            assert(hook.id_text()[18] == 'e');
            assert(hook.id_text()[0] == 's');
        },
        EventHook::OpenComponentDialog => {
            reveal_strlit("open_component_dialog");
            assert(hook.id_text().len() == 21);
            assert(hook.id_text()[19] == 'o');
            assert(hook.id_text()[20] == 'g');
            assert(hook.id_text()[0] == 'o');
        },
        EventHook::InsertFrame => {
            reveal_strlit("insert_frame");
            assert(hook.id_text().len() == 12);
            assert(hook.id_text()[10] == 'm');
            assert(hook.id_text()[11] == 'e');
            assert(hook.id_text()[0] == 'i');
        },
        EventHook::InsertRow => {
            reveal_strlit("insert_row");
            assert(hook.id_text().len() == 10);
            assert(hook.id_text()[8] == 'o');
            assert(hook.id_text()[9] == 'w');
            assert(hook.id_text()[0] == 'i');
        },
        EventHook::InsertText => {
            reveal_strlit("insert_text");
            assert(hook.id_text().len() == 11);
            assert(hook.id_text()[9] == 'x');
            assert(hook.id_text()[10] == 't');
            assert(hook.id_text()[0] == 'i');
        },
        EventHook::InsertButton => {
            reveal_strlit("insert_button");
            assert(hook.id_text().len() == 13);
            assert(hook.id_text()[11] == 'o');
            assert(hook.id_text()[12] == 'n');
            assert(hook.id_text()[0] == 'i');
        },
        EventHook::DuplicateNode => {
            reveal_strlit("duplicate_node");
            assert(hook.id_text().len() == 14);
            assert(hook.id_text()[12] == 'd');
            assert(hook.id_text()[13] == 'e');
            assert(hook.id_text()[0] == 'd');
        },
        EventHook::DeleteNode => {
            reveal_strlit("delete_node");
            assert(hook.id_text().len() == 11);
            assert(hook.id_text()[9] == 'd');
            assert(hook.id_text()[10] == 'e');
            assert(hook.id_text()[0] == 'd');
        },
        EventHook::CloseComponentDialog => {
            reveal_strlit("close_component_dialog");
            assert(hook.id_text().len() == 22);
            assert(hook.id_text()[20] == 'o');
            assert(hook.id_text()[21] == 'g');
            assert(hook.id_text()[0] == 'c');
        },
        EventHook::SelectComponentHtml => {
            reveal_strlit("select_component_html");
            assert(hook.id_text().len() == 21);
            assert(hook.id_text()[19] == 'm');
            assert(hook.id_text()[20] == 'l');
            assert(hook.id_text()[0] == 's');
        },
        EventHook::SelectComponentGpui => {
            reveal_strlit("select_component_gpui");
            assert(hook.id_text().len() == 21);
            assert(hook.id_text()[19] == 'u');
            assert(hook.id_text()[20] == 'i');
            assert(hook.id_text()[0] == 's');
        },
        EventHook::SelectComponentSelection => {
            reveal_strlit("select_component_selection");
            assert(hook.id_text().len() == 26);
            assert(hook.id_text()[24] == 'o');
            assert(hook.id_text()[21] == 'c');
            assert(hook.id_text()[0] == 's');
        },
        EventHook::SelectComponentBlank => {
            reveal_strlit("select_component_blank");
            assert(hook.id_text().len() == 22);
            assert(hook.id_text()[20] == 'n');
            assert(hook.id_text()[21] == 'k');
            assert(hook.id_text()[0] == 's');
        },
        EventHook::SelectComponentPasteHtml => {
            reveal_strlit("select_component_paste_html");
            assert(hook.id_text().len() == 27);
            assert(hook.id_text()[25] == 'm');
            assert(hook.id_text()[21] == 'e');
            assert(hook.id_text()[0] == 's');
        },
        EventHook::SelectComponentTitlebar => {
            reveal_strlit("select_component_titlebar");
            assert(hook.id_text().len() == 25);
            assert(hook.id_text()[23] == 'a');
            assert(hook.id_text()[21] == 'e');
            assert(hook.id_text()[0] == 's');
        },
        EventHook::CreateComponentFromDialog => {
            reveal_strlit("create_component_from_dialog");
            assert(hook.id_text().len() == 28);
            assert(hook.id_text()[26] == 'o');
            assert(hook.id_text()[21] == '_');
            assert(hook.id_text()[0] == 'c');
        },
        EventHook::BackendHtml => {
            reveal_strlit("backend_html");
            assert(hook.id_text().len() == 12);
            assert(hook.id_text()[10] == 'm');
            assert(hook.id_text()[11] == 'l');
            assert(hook.id_text()[0] == 'b');
        },
        EventHook::BackendGpui => {
            reveal_strlit("backend_gpui");
            assert(hook.id_text().len() == 12);
            assert(hook.id_text()[10] == 'u');
            assert(hook.id_text()[11] == 'i');
            assert(hook.id_text()[0] == 'b');
        },
        EventHook::ModeDesign => {
            reveal_strlit("mode_design");
            assert(hook.id_text().len() == 11);
            assert(hook.id_text()[9] == 'g');
            assert(hook.id_text()[10] == 'n');
            assert(hook.id_text()[0] == 'm');
        },
        EventHook::ModeSource => {
            reveal_strlit("mode_source");
            assert(hook.id_text().len() == 11);
            assert(hook.id_text()[9] == 'c');
            assert(hook.id_text()[10] == 'e');
            assert(hook.id_text()[0] == 'm');
        },
        EventHook::ModeTest => {
            reveal_strlit("mode_test");
            assert(hook.id_text().len() == 9);
            assert(hook.id_text()[7] == 's');
            assert(hook.id_text()[8] == 't');
            assert(hook.id_text()[0] == 'm');
        },
        EventHook::ModeCompare => {
            reveal_strlit("mode_compare");
            assert(hook.id_text().len() == 12);
            assert(hook.id_text()[10] == 'r');
            assert(hook.id_text()[11] == 'e');
            assert(hook.id_text()[0] == 'm');
        },
        EventHook::ToolSelect => {
            reveal_strlit("tool_select");
            assert(hook.id_text().len() == 11);
            assert(hook.id_text()[9] == 'c');
            assert(hook.id_text()[10] == 't');
            assert(hook.id_text()[0] == 't');
        },
        EventHook::ToolMove => {
            reveal_strlit("tool_move");
            assert(hook.id_text().len() == 9);
            assert(hook.id_text()[7] == 'v');
            assert(hook.id_text()[8] == 'e');
            assert(hook.id_text()[0] == 't');
        },
        EventHook::ToolAnnotate => {
            reveal_strlit("tool_annotate");
            assert(hook.id_text().len() == 13);
            assert(hook.id_text()[11] == 't');
            assert(hook.id_text()[12] == 'e');
            assert(hook.id_text()[0] == 't');
        },
        EventHook::ViewDesign => {
            reveal_strlit("view_design");
            assert(hook.id_text().len() == 11);
            assert(hook.id_text()[9] == 'g');
            assert(hook.id_text()[10] == 'n');
            assert(hook.id_text()[0] == 'v');
        },
        EventHook::ViewPreview => {
            reveal_strlit("view_preview");
            assert(hook.id_text().len() == 12);
            assert(hook.id_text()[10] == 'e');
            assert(hook.id_text()[11] == 'w');
            assert(hook.id_text()[0] == 'v');
        },
        _ => {},
    }
}

/// No two events share an ID, so a raised ID leads to one event.
pub proof fn law_event_ids_are_unique(a: EventHook, b: EventHook)
    requires
        a.id_text() == b.id_text(),
    ensures
        a == b,
{
    if a is Size {
        lemma_size_keys(a);
    } else if a is Alignment {
        lemma_alignment_keys(a);
    } else if a is Layout {
        lemma_layout_keys(a);
    } else if a is Preset {
        lemma_preset_keys(a);
    } else if !(a is Size || a is Alignment || a is Layout || a is Preset) {
        lemma_fixed_keys(a);
    }
    if b is Size {
        lemma_size_keys(b);
    } else if b is Alignment {
        lemma_alignment_keys(b);
    } else if b is Layout {
        lemma_layout_keys(b);
    } else if b is Preset {
        lemma_preset_keys(b);
    } else if !(b is Size || b is Alignment || b is Layout || b is Preset) {
        lemma_fixed_keys(b);
    }
}

spec fn position(hook: EventHook) -> int {
    match hook {
        EventHook::SaveProject => 0,
        EventHook::ReloadProject => 1,
        EventHook::Undo => 2,
        EventHook::Redo => 3,
        EventHook::DeleteAnnotation => 4,
        EventHook::CloseAnnotation => 5,
        EventHook::SendAnnotations => 6,
        EventHook::CycleTheme => 7,
        EventHook::OpenSettings => 8,
        EventHook::ToggleAnnotationsDrawer => 9,
        EventHook::ShowLayers => 10,
        EventHook::ShowFiles => 11,
        EventHook::ToggleProjectMenu => 12,
        EventHook::ShowProjectCanvas => 13,
        EventHook::ShowComponentLibrary => 14,
        EventHook::ProjectOpenHelp => 15,
        EventHook::ToggleViewportMenu => 16,
        EventHook::ViewportResponsive => 17,
        EventHook::ViewportDesktop => 18,
        EventHook::ViewportTablet => 19,
        EventHook::ViewportMobile => 20,
        EventHook::RotateViewport => 21,
        EventHook::ToggleOutputDecorations => 22,
        EventHook::ToggleSnap => 23,
        EventHook::ZoomOut => 24,
        EventHook::ZoomFit => 25,
        EventHook::ZoomIn => 26,
        EventHook::DockConsole => 27,
        EventHook::DockStates => 28,
        EventHook::ToggleDock => 29,
        EventHook::InspectorLayout => 30,
        EventHook::InspectorStyle => 31,
        EventHook::InspectorLogic => 32,
        EventHook::Size(InspectorSizeAxis::Width, SizePolicy::Hug) => 33,
        EventHook::Size(InspectorSizeAxis::Width, SizePolicy::Fill) => 34,
        EventHook::Size(InspectorSizeAxis::Width, SizePolicy::Fixed) => 35,
        EventHook::Size(InspectorSizeAxis::Height, SizePolicy::Hug) => 36,
        EventHook::Size(InspectorSizeAxis::Height, SizePolicy::Fill) => 37,
        EventHook::Size(InspectorSizeAxis::Height, SizePolicy::Fixed) => 38,
        EventHook::Alignment(InspectorAlignmentAxis::Align, AlignPolicy::Start) => 39,
        EventHook::Alignment(InspectorAlignmentAxis::Align, AlignPolicy::Center) => 40,
        EventHook::Alignment(InspectorAlignmentAxis::Align, AlignPolicy::End) => 41,
        EventHook::Alignment(InspectorAlignmentAxis::Justify, AlignPolicy::Start) => 42,
        EventHook::Alignment(InspectorAlignmentAxis::Justify, AlignPolicy::Center) => 43,
        EventHook::Alignment(InspectorAlignmentAxis::Justify, AlignPolicy::End) => 44,
        EventHook::Layout(InspectorLayoutChoice::Wrap(NativeWrap::NoWrap)) => 45,
        EventHook::Layout(InspectorLayoutChoice::Wrap(NativeWrap::Wrap)) => 46,
        EventHook::Layout(InspectorLayoutChoice::Wrap(NativeWrap::WrapReverse)) => 47,
        EventHook::Layout(InspectorLayoutChoice::Position(NativePosition::Flow)) => 48,
        EventHook::Layout(InspectorLayoutChoice::Position(NativePosition::Absolute)) => 49,
        EventHook::Layout(InspectorLayoutChoice::Overflow(NativeOverflow::Visible)) => 50,
        EventHook::Layout(InspectorLayoutChoice::Overflow(NativeOverflow::Hidden)) => 51,
        EventHook::Layout(InspectorLayoutChoice::Overflow(NativeOverflow::Scroll)) => 52,
        EventHook::Layout(InspectorLayoutChoice::HorizontalConstraint(NativeConstraint::Start)) => 53,
        EventHook::Layout(InspectorLayoutChoice::HorizontalConstraint(NativeConstraint::Center)) => 54,
        EventHook::Layout(InspectorLayoutChoice::HorizontalConstraint(NativeConstraint::End)) => 55,
        EventHook::Layout(InspectorLayoutChoice::HorizontalConstraint(NativeConstraint::Scale)) => 56,
        EventHook::Layout(InspectorLayoutChoice::HorizontalConstraint(NativeConstraint::Stretch)) => 57,
        EventHook::Layout(InspectorLayoutChoice::VerticalConstraint(NativeConstraint::Start)) => 58,
        EventHook::Layout(InspectorLayoutChoice::VerticalConstraint(NativeConstraint::Center)) => 59,
        EventHook::Layout(InspectorLayoutChoice::VerticalConstraint(NativeConstraint::End)) => 60,
        EventHook::Layout(InspectorLayoutChoice::VerticalConstraint(NativeConstraint::Scale)) => 61,
        EventHook::Layout(InspectorLayoutChoice::VerticalConstraint(NativeConstraint::Stretch)) => 62,
        EventHook::Layout(InspectorLayoutChoice::Grow(false)) => 63,
        EventHook::Layout(InspectorLayoutChoice::Grow(true)) => 64,
        EventHook::Layout(InspectorLayoutChoice::Shrink(false)) => 65,
        EventHook::Layout(InspectorLayoutChoice::Shrink(true)) => 66,
        EventHook::ConstraintLeft => 67,
        EventHook::ConstraintCenter => 68,
        EventHook::ConstraintRight => 69,
        EventHook::ConstraintScale => 70,
        EventHook::AddProperty => 71,
        EventHook::SaveComponentState => 72,
        EventHook::RemoveComponentState => 73,
        EventHook::SaveComponentVariant => 74,
        EventHook::CaptureVariantOverride => 75,
        EventHook::RemoveComponentVariant => 76,
        EventHook::SaveComponentSlot => 77,
        EventHook::ToggleSlotMultiple => 78,
        EventHook::RemoveComponentSlot => 79,
        EventHook::SaveDesignToken => 80,
        EventHook::RemoveDesignToken => 81,
        EventHook::RemoveProperty => 82,
        EventHook::AddLogic => 83,
        EventHook::ToggleLayerWelcome => 84,
        EventHook::ToggleLayerHeader => 85,
        EventHook::ToggleLayerWelcomeCopy => 86,
        EventHook::ToggleLayerFeatureCards => 87,
        EventHook::ToggleLayerWelcomeLower => 88,
        EventHook::SelectWelcome => 89,
        EventHook::SelectRuntimeBadge => 90,
        EventHook::SelectHeroTitle => 91,
        EventHook::SelectRuntimeBuildingCard => 92,
        EventHook::SelectLocalAiCard => 93,
        EventHook::SelectPortableSourceCard => 94,
        EventHook::SelectComponentInstance => 95,
        EventHook::OpenComponent => 96,
        EventHook::ToggleComponentRoot => 97,
        EventHook::SelectRuntimeDetails => 98,
        EventHook::SelectDogfoodNote => 99,
        EventHook::OpenComponentDialog => 100,
        EventHook::InsertFrame => 101,
        EventHook::InsertRow => 102,
        EventHook::InsertText => 103,
        EventHook::InsertButton => 104,
        EventHook::DuplicateNode => 105,
        EventHook::DeleteNode => 106,
        EventHook::CloseComponentDialog => 107,
        EventHook::SelectComponentHtml => 108,
        EventHook::SelectComponentGpui => 109,
        EventHook::SelectComponentSelection => 110,
        EventHook::SelectComponentBlank => 111,
        EventHook::SelectComponentPasteHtml => 112,
        EventHook::SelectComponentTitlebar => 113,
        EventHook::Preset(ComponentPreset::Button) => 114,
        EventHook::Preset(ComponentPreset::ButtonGroup) => 115,
        EventHook::Preset(ComponentPreset::Card) => 116,
        EventHook::Preset(ComponentPreset::Badge) => 117,
        EventHook::Preset(ComponentPreset::Alert) => 118,
        EventHook::Preset(ComponentPreset::Toolbar) => 119,
        EventHook::Preset(ComponentPreset::Avatar) => 120,
        EventHook::Preset(ComponentPreset::EmptyState) => 121,
        EventHook::Preset(ComponentPreset::Titlebar) => 122,
        EventHook::Preset(ComponentPreset::Tabs) => 123,
        EventHook::Preset(ComponentPreset::Dialog) => 124,
        EventHook::Preset(ComponentPreset::Dropdown) => 125,
        EventHook::Preset(ComponentPreset::DropdownMenu) => 126,
        EventHook::Preset(ComponentPreset::Drawer) => 127,
        EventHook::Preset(ComponentPreset::Scrollable) => 128,
        EventHook::Preset(ComponentPreset::Resizable) => 129,
        EventHook::Preset(ComponentPreset::Tooltip) => 130,
        EventHook::CreateComponentFromDialog => 131,
        EventHook::BackendHtml => 132,
        EventHook::BackendGpui => 133,
        EventHook::ModeDesign => 134,
        EventHook::ModeSource => 135,
        EventHook::ModeTest => 136,
        EventHook::ModeCompare => 137,
        EventHook::ToolSelect => 138,
        EventHook::ToolMove => 139,
        EventHook::ToolAnnotate => 140,
        EventHook::ViewDesign => 141,
        EventHook::ViewPreview => 142,
    }
}

#[verifier::rlimit(100)]
proof fn lemma_position(hook: EventHook)
    ensures
        0 <= position(hook) < event_order().len(),
        event_order()[position(hook)] == hook,
{
    assert(opening_events().len() == 45);
    assert(inspector::layout_choices().len() == 22);
    assert(editing_events().len() == 47);
    assert(presets::catalog().len() == 17);
    assert(closing_events().len() == 12);
}

proof fn lemma_event_at(hook: EventHook, from: int)
    requires
        0 <= from <= position(hook),
    ensures
        event_at(hook.id_text(), from) is Some,
        event_order()[event_at(hook.id_text(), from)->0] == hook,
    decreases event_order().len() - from,
{
    lemma_position(hook);
    if event_order()[from].id_text() == hook.id_text() {
        law_event_ids_are_unique(event_order()[from], hook);
    } else {
        lemma_event_at(hook, from + 1);
    }
}

/// Every event is registered, and its ID raises it and no other.
pub proof fn law_registered_events_are_handled(hook: EventHook)
    ensures
        event_order().contains(hook),
        event_at(hook.id_text(), 0) is Some,
        event_order()[event_at(hook.id_text(), 0)->0] == hook,
{
    lemma_position(hook);
    lemma_event_at(hook, 0);
}

// ---------------------------------------------------------------------------
// What the raised IDs ask for
// ---------------------------------------------------------------------------

/// Whether raising this ID asks for this event.
pub open spec fn asks_for(id: Seq<char>, event: StudioEvent) -> bool {
    event_at(id, 0) is Some && event_order()[event_at(id, 0)->0].event_of() == event
}

/// The IDs of the project, the annotations, the view and the panels ask for what they say.
pub proof fn law_project_and_view_ids(id: Seq<char>)
    ensures
        id == "save_project"@ ==> asks_for(id, StudioEvent::Save),
        id == "reload_project"@ ==> asks_for(id, StudioEvent::Reload),
        id == "undo"@ ==> asks_for(id, StudioEvent::Undo),
        id == "redo"@ ==> asks_for(id, StudioEvent::Redo),
        id == "delete_annotation"@ ==> asks_for(id, StudioEvent::DeleteAnnotation),
        id == "close_annotation"@ ==> asks_for(id, StudioEvent::CloseAnnotation),
        id == "send_annotations"@ ==> asks_for(id, StudioEvent::SendAnnotations),
        id == "cycle_theme"@ ==> asks_for(id, StudioEvent::CycleTheme),
        id == "open_settings"@ ==> asks_for(id, StudioEvent::OpenSettings),
        id == "toggle_annotations_drawer"@ ==> asks_for(id, StudioEvent::ToggleAnnotationsDrawer),
        id == "show_layers"@ ==> asks_for(id, StudioEvent::ShowLayers),
        id == "show_files"@ ==> asks_for(id, StudioEvent::ShowFiles),
        id == "toggle_project_menu"@ ==> asks_for(id, StudioEvent::ToggleProjectMenu),
        id == "show_project_canvas"@ ==> asks_for(id, StudioEvent::FocusMainRoot),
        id == "show_component_library"@ ==> asks_for(id, StudioEvent::SelectActiveComponent),
        id == "project_open_help"@ ==> asks_for(id, StudioEvent::ProjectOpenHelp),
        id == "toggle_viewport_menu"@ ==> asks_for(id, StudioEvent::ToggleViewportMenu),
        id == "viewport_responsive"@ ==> asks_for(id, StudioEvent::Viewport(ViewportPreset::Responsive)),
        id == "viewport_desktop"@ ==> asks_for(id, StudioEvent::Viewport(ViewportPreset::Desktop)),
        id == "viewport_tablet"@ ==> asks_for(id, StudioEvent::Viewport(ViewportPreset::Tablet)),
        id == "viewport_mobile"@ ==> asks_for(id, StudioEvent::Viewport(ViewportPreset::Mobile)),
        id == "rotate_viewport"@ ==> asks_for(id, StudioEvent::RotateViewport),
        id == "toggle_output_decorations"@ ==> asks_for(id, StudioEvent::ToggleOutputDecorations),
        id == "toggle_snap"@ ==> asks_for(id, StudioEvent::ToggleSnap),
        id == "zoom_out"@ ==> asks_for(id, StudioEvent::ZoomBy((-10) as i16)),
        id == "zoom_fit"@ ==> asks_for(id, StudioEvent::FitCanvas),
        id == "zoom_in"@ ==> asks_for(id, StudioEvent::ZoomBy(10)),
        id == "dock_console"@ ==> asks_for(id, StudioEvent::Dock(DockTab::Console)),
        id == "dock_states"@ ==> asks_for(id, StudioEvent::Dock(DockTab::States)),
        id == "toggle_dock"@ ==> asks_for(id, StudioEvent::ToggleDock),
        id == "inspector_layout"@ ==> asks_for(id, StudioEvent::Inspector(InspectorTab::Layout)),
        id == "inspector_style"@ ==> asks_for(id, StudioEvent::Inspector(InspectorTab::Style)),
        id == "inspector_logic"@ ==> asks_for(id, StudioEvent::Inspector(InspectorTab::Logic)),
{
    law_registered_events_are_handled(EventHook::SaveProject);
    law_registered_events_are_handled(EventHook::ReloadProject);
    law_registered_events_are_handled(EventHook::Undo);
    law_registered_events_are_handled(EventHook::Redo);
    law_registered_events_are_handled(EventHook::DeleteAnnotation);
    law_registered_events_are_handled(EventHook::CloseAnnotation);
    law_registered_events_are_handled(EventHook::SendAnnotations);
    law_registered_events_are_handled(EventHook::CycleTheme);
    law_registered_events_are_handled(EventHook::OpenSettings);
    law_registered_events_are_handled(EventHook::ToggleAnnotationsDrawer);
    law_registered_events_are_handled(EventHook::ShowLayers);
    law_registered_events_are_handled(EventHook::ShowFiles);
    law_registered_events_are_handled(EventHook::ToggleProjectMenu);
    law_registered_events_are_handled(EventHook::ShowProjectCanvas);
    law_registered_events_are_handled(EventHook::ShowComponentLibrary);
    law_registered_events_are_handled(EventHook::ProjectOpenHelp);
    law_registered_events_are_handled(EventHook::ToggleViewportMenu);
    law_registered_events_are_handled(EventHook::ViewportResponsive);
    law_registered_events_are_handled(EventHook::ViewportDesktop);
    law_registered_events_are_handled(EventHook::ViewportTablet);
    law_registered_events_are_handled(EventHook::ViewportMobile);
    law_registered_events_are_handled(EventHook::RotateViewport);
    law_registered_events_are_handled(EventHook::ToggleOutputDecorations);
    law_registered_events_are_handled(EventHook::ToggleSnap);
    law_registered_events_are_handled(EventHook::ZoomOut);
    law_registered_events_are_handled(EventHook::ZoomFit);
    law_registered_events_are_handled(EventHook::ZoomIn);
    law_registered_events_are_handled(EventHook::DockConsole);
    law_registered_events_are_handled(EventHook::DockStates);
    law_registered_events_are_handled(EventHook::ToggleDock);
    law_registered_events_are_handled(EventHook::InspectorLayout);
    law_registered_events_are_handled(EventHook::InspectorStyle);
    law_registered_events_are_handled(EventHook::InspectorLogic);
}

/// The IDs of the definitions, the layers and the page ask for what they say.
pub proof fn law_definition_and_layer_ids(id: Seq<char>)
    ensures
        id == "constraint_left"@ ==> asks_for(id, StudioEvent::Constraint(HorizontalConstraint::Left)),
        id == "constraint_center"@ ==> asks_for(id, StudioEvent::Constraint(HorizontalConstraint::Center)),
        id == "constraint_right"@ ==> asks_for(id, StudioEvent::Constraint(HorizontalConstraint::Right)),
        id == "constraint_scale"@ ==> asks_for(id, StudioEvent::Constraint(HorizontalConstraint::Scale)),
        id == "add_property"@ ==> asks_for(id, StudioEvent::AddProperty),
        id == "save_component_state"@ ==> asks_for(id, StudioEvent::SaveComponentState),
        id == "remove_component_state"@ ==> asks_for(id, StudioEvent::RemoveComponentState),
        id == "save_component_variant"@ ==> asks_for(id, StudioEvent::SaveComponentVariant),
        id == "capture_variant_override"@ ==> asks_for(id, StudioEvent::CaptureVariantOverride),
        id == "remove_component_variant"@ ==> asks_for(id, StudioEvent::RemoveComponentVariant),
        id == "save_component_slot"@ ==> asks_for(id, StudioEvent::SaveComponentSlot),
        id == "toggle_slot_multiple"@ ==> asks_for(id, StudioEvent::ToggleSlotMultiple),
        id == "remove_component_slot"@ ==> asks_for(id, StudioEvent::RemoveComponentSlot),
        id == "save_design_token"@ ==> asks_for(id, StudioEvent::SaveDesignToken),
        id == "remove_design_token"@ ==> asks_for(id, StudioEvent::RemoveDesignToken),
        id == "remove_property"@ ==> asks_for(id, StudioEvent::RemoveProperty),
        id == "add_logic"@ ==> asks_for(id, StudioEvent::AddLogic),
        id == "toggle_layer_welcome"@ ==> asks_for(id, StudioEvent::ToggleLayer(PageLayer::Welcome)),
        id == "toggle_layer_header"@ ==> asks_for(id, StudioEvent::ToggleLayer(PageLayer::Header)),
        id == "toggle_layer_welcome_copy"@ ==> asks_for(id, StudioEvent::ToggleLayer(PageLayer::WelcomeCopy)),
        id == "toggle_layer_feature_cards"@ ==> asks_for(id, StudioEvent::ToggleLayer(PageLayer::FeatureCards)),
        id == "toggle_layer_welcome_lower"@ ==> asks_for(id, StudioEvent::ToggleLayer(PageLayer::WelcomeLower)),
        id == "select_welcome"@ ==> asks_for(id, StudioEvent::FocusMainRoot),
        id == "select_runtime_badge"@ ==> asks_for(id, StudioEvent::SelectElement(PageElement::PreviewBadge)),
        id == "select_hero_title"@ ==> asks_for(id, StudioEvent::SelectElement(PageElement::HeroTitle)),
        id == "select_runtime_building_card"@ ==> asks_for(id, StudioEvent::SelectElement(PageElement::RuntimeBuildingCard)),
        id == "select_local_ai_card"@ ==> asks_for(id, StudioEvent::SelectElement(PageElement::LocalAiCard)),
        id == "select_portable_source_card"@ ==> asks_for(id, StudioEvent::SelectElement(PageElement::PortableSourceCard)),
        id == "select_component_instance"@ ==> asks_for(id, StudioEvent::SelectComponentInstance),
        id == "open_component"@ ==> asks_for(id, StudioEvent::OpenAppTitlebar),
        id == "toggle_component_root"@ ==> asks_for(id, StudioEvent::ToggleComponentRoot),
        id == "select_runtime_details"@ ==> asks_for(id, StudioEvent::SelectElement(PageElement::RuntimeDetails)),
{
    law_registered_events_are_handled(EventHook::ConstraintLeft);
    law_registered_events_are_handled(EventHook::ConstraintCenter);
    law_registered_events_are_handled(EventHook::ConstraintRight);
    law_registered_events_are_handled(EventHook::ConstraintScale);
    law_registered_events_are_handled(EventHook::AddProperty);
    law_registered_events_are_handled(EventHook::SaveComponentState);
    law_registered_events_are_handled(EventHook::RemoveComponentState);
    law_registered_events_are_handled(EventHook::SaveComponentVariant);
    law_registered_events_are_handled(EventHook::CaptureVariantOverride);
    law_registered_events_are_handled(EventHook::RemoveComponentVariant);
    law_registered_events_are_handled(EventHook::SaveComponentSlot);
    law_registered_events_are_handled(EventHook::ToggleSlotMultiple);
    law_registered_events_are_handled(EventHook::RemoveComponentSlot);
    law_registered_events_are_handled(EventHook::SaveDesignToken);
    law_registered_events_are_handled(EventHook::RemoveDesignToken);
    law_registered_events_are_handled(EventHook::RemoveProperty);
    law_registered_events_are_handled(EventHook::AddLogic);
    law_registered_events_are_handled(EventHook::ToggleLayerWelcome);
    law_registered_events_are_handled(EventHook::ToggleLayerHeader);
    law_registered_events_are_handled(EventHook::ToggleLayerWelcomeCopy);
    law_registered_events_are_handled(EventHook::ToggleLayerFeatureCards);
    law_registered_events_are_handled(EventHook::ToggleLayerWelcomeLower);
    law_registered_events_are_handled(EventHook::SelectWelcome);
    law_registered_events_are_handled(EventHook::SelectRuntimeBadge);
    law_registered_events_are_handled(EventHook::SelectHeroTitle);
    law_registered_events_are_handled(EventHook::SelectRuntimeBuildingCard);
    law_registered_events_are_handled(EventHook::SelectLocalAiCard);
    law_registered_events_are_handled(EventHook::SelectPortableSourceCard);
    law_registered_events_are_handled(EventHook::SelectComponentInstance);
    law_registered_events_are_handled(EventHook::OpenComponent);
    law_registered_events_are_handled(EventHook::ToggleComponentRoot);
    law_registered_events_are_handled(EventHook::SelectRuntimeDetails);
}

/// The IDs of the tree, the dialog and the modes ask for what they say.
pub proof fn law_tree_dialog_and_mode_ids(id: Seq<char>)
    ensures
        id == "select_dogfood_note"@ ==> asks_for(id, StudioEvent::SelectElement(PageElement::DogfoodNote)),
        id == "open_component_dialog"@ ==> asks_for(id, StudioEvent::OpenComponentDialog),
        id == "insert_frame"@ ==> asks_for(id, StudioEvent::Insert(NativeNodeKind::Column)),
        id == "insert_row"@ ==> asks_for(id, StudioEvent::Insert(NativeNodeKind::Row)),
        id == "insert_text"@ ==> asks_for(id, StudioEvent::Insert(NativeNodeKind::Text)),
        id == "insert_button"@ ==> asks_for(id, StudioEvent::Insert(NativeNodeKind::Button)),
        id == "duplicate_node"@ ==> asks_for(id, StudioEvent::DuplicateNode),
        id == "delete_node"@ ==> asks_for(id, StudioEvent::DeleteNode),
        id == "close_component_dialog"@ ==> asks_for(id, StudioEvent::CloseComponentDialog),
        id == "select_component_html"@ ==> asks_for(id, StudioEvent::DialogAuthoring(AuthoringBackend::Html)),
        id == "select_component_gpui"@ ==> asks_for(id, StudioEvent::DialogAuthoring(AuthoringBackend::Gpui)),
        id == "select_component_selection"@ ==> asks_for(id, StudioEvent::DialogSource(ComponentSource::Selection)),
        id == "select_component_blank"@ ==> asks_for(id, StudioEvent::DialogSource(ComponentSource::Blank)),
        id == "select_component_paste_html"@ ==> asks_for(id, StudioEvent::DialogSource(ComponentSource::PasteHtml)),
        id == "select_component_titlebar"@ ==> asks_for(id, StudioEvent::DialogSource(ComponentSource::Titlebar)),
        id == "create_component_from_dialog"@ ==> asks_for(id, StudioEvent::CreateComponent),
        id == "backend_html"@ ==> asks_for(id, StudioEvent::SetBackend(AuthoringBackend::Html)),
        id == "backend_gpui"@ ==> asks_for(id, StudioEvent::SetBackend(AuthoringBackend::Gpui)),
        id == "mode_design"@ ==> asks_for(id, StudioEvent::SetMode(StudioMode::Design)),
        id == "mode_source"@ ==> asks_for(id, StudioEvent::SetMode(StudioMode::Source)),
        id == "mode_test"@ ==> asks_for(id, StudioEvent::SetMode(StudioMode::Test)),
        id == "mode_compare"@ ==> asks_for(id, StudioEvent::AnnotateTool),
        id == "tool_select"@ ==> asks_for(id, StudioEvent::SetMode(StudioMode::Design)),
        id == "tool_move"@ ==> asks_for(id, StudioEvent::MoveTool),
        id == "tool_annotate"@ ==> asks_for(id, StudioEvent::AnnotateTool),
        id == "view_design"@ ==> asks_for(id, StudioEvent::DesignView),
        id == "view_preview"@ ==> asks_for(id, StudioEvent::SetMode(StudioMode::Test)),
{
    law_registered_events_are_handled(EventHook::SelectDogfoodNote);
    law_registered_events_are_handled(EventHook::OpenComponentDialog);
    law_registered_events_are_handled(EventHook::InsertFrame);
    law_registered_events_are_handled(EventHook::InsertRow);
    law_registered_events_are_handled(EventHook::InsertText);
    law_registered_events_are_handled(EventHook::InsertButton);
    law_registered_events_are_handled(EventHook::DuplicateNode);
    law_registered_events_are_handled(EventHook::DeleteNode);
    law_registered_events_are_handled(EventHook::CloseComponentDialog);
    law_registered_events_are_handled(EventHook::SelectComponentHtml);
    law_registered_events_are_handled(EventHook::SelectComponentGpui);
    law_registered_events_are_handled(EventHook::SelectComponentSelection);
    law_registered_events_are_handled(EventHook::SelectComponentBlank);
    law_registered_events_are_handled(EventHook::SelectComponentPasteHtml);
    law_registered_events_are_handled(EventHook::SelectComponentTitlebar);
    law_registered_events_are_handled(EventHook::CreateComponentFromDialog);
    law_registered_events_are_handled(EventHook::BackendHtml);
    law_registered_events_are_handled(EventHook::BackendGpui);
    law_registered_events_are_handled(EventHook::ModeDesign);
    law_registered_events_are_handled(EventHook::ModeSource);
    law_registered_events_are_handled(EventHook::ModeTest);
    law_registered_events_are_handled(EventHook::ModeCompare);
    law_registered_events_are_handled(EventHook::ToolSelect);
    law_registered_events_are_handled(EventHook::ToolMove);
    law_registered_events_are_handled(EventHook::ToolAnnotate);
    law_registered_events_are_handled(EventHook::ViewDesign);
    law_registered_events_are_handled(EventHook::ViewPreview);
}

/// The IDs of the sizes, the alignments, the layout choices and the presets ask for the choice
/// that they name.
pub proof fn law_choice_ids(
    choice: InspectorLayoutChoice,
    preset: ComponentPreset,
    axis: InspectorSizeAxis,
    policy: SizePolicy,
    along: InspectorAlignmentAxis,
    align: AlignPolicy,
)
    ensures
        asks_for(inspector::layout_choice_name(choice), StudioEvent::Layout(choice)),
        asks_for("select_preset_"@ + presets::preset_slug(preset), StudioEvent::SelectPreset(preset)),
        asks_for("inspector_width_hug"@, StudioEvent::Size(InspectorSizeAxis::Width, SizePolicy::Hug)),
        asks_for(state_hooks::size_id_text(axis, policy), StudioEvent::Size(axis, policy)),
        asks_for(state_hooks::align_id_text(along, align), StudioEvent::Alignment(along, align)),
{
    law_registered_events_are_handled(EventHook::Layout(choice));
    law_registered_events_are_handled(EventHook::Preset(preset));
    law_registered_events_are_handled(EventHook::Size(axis, policy));
    law_registered_events_are_handled(EventHook::Size(InspectorSizeAxis::Width, SizePolicy::Hug));
    law_registered_events_are_handled(EventHook::Alignment(along, align));
}

} // verus!
