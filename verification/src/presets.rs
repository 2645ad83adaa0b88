//! The catalog of component presets and the names they go by.
use vstd::prelude::*;

use crate::text;

verus! {

/// A ready-made component.
#[derive(Clone, Copy, Debug, PartialEq, Eq, Structural)]
pub enum ComponentPreset {
    Button,
    ButtonGroup,
    Card,
    Badge,
    Alert,
    Toolbar,
    Avatar,
    EmptyState,
    Titlebar,
    Tabs,
    Dialog,
    Dropdown,
    DropdownMenu,
    Drawer,
    Scrollable,
    Resizable,
    Tooltip,
}

/// The presets in catalog order.
pub open spec fn catalog() -> Seq<ComponentPreset> {
    seq![
        ComponentPreset::Button,
        ComponentPreset::ButtonGroup,
        ComponentPreset::Card,
        ComponentPreset::Badge,
        ComponentPreset::Alert,
        ComponentPreset::Toolbar,
        ComponentPreset::Avatar,
        ComponentPreset::EmptyState,
        ComponentPreset::Titlebar,
        ComponentPreset::Tabs,
        ComponentPreset::Dialog,
        ComponentPreset::Dropdown,
        ComponentPreset::DropdownMenu,
        ComponentPreset::Drawer,
        ComponentPreset::Scrollable,
        ComponentPreset::Resizable,
        ComponentPreset::Tooltip,
    ]
}

/// The name of a preset in commands and bindings.
pub open spec fn preset_slug(preset: ComponentPreset) -> Seq<char> {
    match preset {
        ComponentPreset::Button => "button"@,
        ComponentPreset::ButtonGroup => "button_group"@,
        ComponentPreset::Card => "card"@,
        ComponentPreset::Badge => "badge"@,
        ComponentPreset::Alert => "alert"@,
        ComponentPreset::Toolbar => "toolbar"@,
        ComponentPreset::Avatar => "avatar"@,
        ComponentPreset::EmptyState => "empty_state"@,
        ComponentPreset::Titlebar => "titlebar"@,
        ComponentPreset::Tabs => "tabs"@,
        ComponentPreset::Dialog => "dialog"@,
        ComponentPreset::Dropdown => "dropdown"@,
        ComponentPreset::DropdownMenu => "dropdown_menu"@,
        ComponentPreset::Drawer => "drawer"@,
        ComponentPreset::Scrollable => "scrollable"@,
        ComponentPreset::Resizable => "resizable"@,
        ComponentPreset::Tooltip => "tooltip"@,
    }
}

/// One name and the preset it stands for.
#[derive(Clone, Copy, Debug)]
pub struct PresetBinding {
    pub slug: &'static str,
    pub preset: ComponentPreset,
}

impl ComponentPreset {
    /// The name of the preset in commands and bindings.
    pub fn slug(self) -> (out: &'static str)
        ensures
            out@ == preset_slug(self),
    {
        match self {
            ComponentPreset::Button => "button",
            ComponentPreset::ButtonGroup => "button_group",
            ComponentPreset::Card => "card",
            ComponentPreset::Badge => "badge",
            ComponentPreset::Alert => "alert",
            ComponentPreset::Toolbar => "toolbar",
            ComponentPreset::Avatar => "avatar",
            ComponentPreset::EmptyState => "empty_state",
            ComponentPreset::Titlebar => "titlebar",
            ComponentPreset::Tabs => "tabs",
            ComponentPreset::Dialog => "dialog",
            ComponentPreset::Dropdown => "dropdown",
            ComponentPreset::DropdownMenu => "dropdown_menu",
            ComponentPreset::Drawer => "drawer",
            ComponentPreset::Scrollable => "scrollable",
            ComponentPreset::Resizable => "resizable",
            ComponentPreset::Tooltip => "tooltip",
        }
    }
}

/// Every preset with its name, in catalog order.
pub fn component_preset_bindings() -> (out: Vec<PresetBinding>)
    ensures
        out.len() == catalog().len(),
        forall|i: int|
            0 <= i < out.len() ==> (#[trigger] out[i]).preset == catalog()[i] && out[i].slug@
                == preset_slug(catalog()[i]),
{
    let presets: Vec<ComponentPreset> = vec![
        ComponentPreset::Button,
        ComponentPreset::ButtonGroup,
        ComponentPreset::Card,
        ComponentPreset::Badge,
        ComponentPreset::Alert,
        ComponentPreset::Toolbar,
        ComponentPreset::Avatar,
        ComponentPreset::EmptyState,
        ComponentPreset::Titlebar,
        ComponentPreset::Tabs,
        ComponentPreset::Dialog,
        ComponentPreset::Dropdown,
        ComponentPreset::DropdownMenu,
        ComponentPreset::Drawer,
        ComponentPreset::Scrollable,
        ComponentPreset::Resizable,
        ComponentPreset::Tooltip,
    ];
    proof {
        assert(presets@ =~= catalog());
    }
    let mut out: Vec<PresetBinding> = Vec::new();
    let mut i: usize = 0;
    while i < presets.len()
        invariant
            i <= presets.len(),
            presets@ == catalog(),
            out.len() == i,
            forall|j: int|
                0 <= j < i ==> (#[trigger] out[j]).preset == catalog()[j] && out[j].slug@
                    == preset_slug(catalog()[j]),
        decreases presets.len() - i,
    {
        out.push(PresetBinding { slug: presets[i].slug(), preset: presets[i] });
        i += 1;
    }
    out
}

/// The first preset of the catalog, from position `from` on, with this name.
pub open spec fn preset_named(name: Seq<char>, from: int) -> Option<ComponentPreset>
    decreases catalog().len() - from,
{
    if from < 0 || from >= catalog().len() {
        None
    } else if preset_slug(catalog()[from]) == name {
        Some(catalog()[from])
    } else {
        preset_named(name, from + 1)
    }
}

/// The preset with this name; nothing where no preset has it.
pub fn parse_component_preset(value: &str) -> (out: Option<ComponentPreset>)
    ensures
        out == preset_named(value@, 0),
{
    let bindings = component_preset_bindings();
    let mut i: usize = 0;
    while i < bindings.len()
        invariant
            i <= bindings.len(),
            bindings.len() == catalog().len(),
            forall|j: int|
                0 <= j < bindings.len() ==> (#[trigger] bindings[j]).preset == catalog()[j]
                    && bindings[j].slug@ == preset_slug(catalog()[j]),
            preset_named(value@, 0) == preset_named(value@, i as int),
        decreases bindings.len() - i,
    {
        if text::same_text(bindings[i].slug, value) {
            return Some(bindings[i].preset);
        }
        i += 1;
    }
    None
}

/// The position of a preset in the catalog.
spec fn catalog_index(preset: ComponentPreset) -> int {
    match preset {
        ComponentPreset::Button => 0,
        ComponentPreset::ButtonGroup => 1,
        ComponentPreset::Card => 2,
        ComponentPreset::Badge => 3,
        ComponentPreset::Alert => 4,
        ComponentPreset::Toolbar => 5,
        ComponentPreset::Avatar => 6,
        ComponentPreset::EmptyState => 7,
        ComponentPreset::Titlebar => 8,
        ComponentPreset::Tabs => 9,
        ComponentPreset::Dialog => 10,
        ComponentPreset::Dropdown => 11,
        ComponentPreset::DropdownMenu => 12,
        ComponentPreset::Drawer => 13,
        ComponentPreset::Scrollable => 14,
        ComponentPreset::Resizable => 15,
        ComponentPreset::Tooltip => 16,
    }
}

proof fn lemma_catalog_index(preset: ComponentPreset)
    ensures
        0 <= catalog_index(preset) < catalog().len(),
        catalog()[catalog_index(preset)] == preset,
{
}

proof fn lemma_slugs_differ(a: ComponentPreset, b: ComponentPreset)
    requires
        preset_slug(a) == preset_slug(b),
    ensures
        a == b,
{
    reveal_strlit("button");
    reveal_strlit("button_group");
    reveal_strlit("card");
    reveal_strlit("badge");
    reveal_strlit("alert");
    reveal_strlit("toolbar");
    reveal_strlit("avatar");
    reveal_strlit("empty_state");
    reveal_strlit("titlebar");
    reveal_strlit("tabs");
    reveal_strlit("dialog");
    reveal_strlit("dropdown");
    reveal_strlit("dropdown_menu");
    reveal_strlit("drawer");
    reveal_strlit("scrollable");
    reveal_strlit("resizable");
    reveal_strlit("tooltip");
    let s = preset_slug(a);
    let t = preset_slug(b);
    assert(s.len() == t.len());
    if s.len() > 0 {
        assert(s[0] == t[0]);
    }
    if s.len() > 1 {
        assert(s[1] == t[1]);
    }
    if s.len() > 2 {
        assert(s[2] == t[2]);
    }
    if s.len() > 3 {
        assert(s[3] == t[3]);
    }
    if s.len() > 4 {
        assert(s[4] == t[4]);
    }
}

proof fn lemma_preset_named(preset: ComponentPreset, from: int)
    requires
        0 <= from <= catalog_index(preset),
    ensures
        preset_named(preset_slug(preset), from) == Some(preset),
    decreases catalog().len() - from,
{
    lemma_catalog_index(preset);
    if preset_slug(catalog()[from]) == preset_slug(preset) {
        lemma_slugs_differ(catalog()[from], preset);
    } else {
        lemma_preset_named(preset, from + 1);
    }
}

/// Every preset stands in the catalog, and its name stands for it and no other: the parser
/// understands what the catalog offers.
pub proof fn law_preset_names_parse_back(preset: ComponentPreset)
    ensures
        catalog().contains(preset),
        preset_named(preset_slug(preset), 0) == Some(preset),
{
    lemma_catalog_index(preset);
    lemma_preset_named(preset, 0);
}

} // verus!
