//! Authored components: the node tree, its values and the definitions around it.
use vstd::prelude::*;

use crate::identifiers::ComponentProp;
use crate::keyed;
use crate::keyed::Keyed;
use crate::text;

verus! {

// ---------------------------------------------------------------------------
// Nodes
// ---------------------------------------------------------------------------

/// What a node is.
#[derive(Clone, Copy, Debug, PartialEq, Eq, Structural)]
pub enum NativeNodeKind {
    Row,
    Column,
    Grid,
    Stack,
    Text,
    Button,
    Titlebar,
    Instance,
}

/// How large a node is along one axis.
#[derive(Clone, Copy, Debug, PartialEq, Eq, Structural)]
pub enum NativeSize {
    Fixed(u16),
    Fill,
    Hug,
}

/// Where children stand along an axis.
#[derive(Clone, Copy, Debug, PartialEq, Eq, Structural)]
pub enum NativeAlign {
    Start,
    Center,
    End,
    Stretch,
}

/// Whether children wrap.
#[derive(Clone, Copy, Debug, PartialEq, Eq, Structural)]
pub enum NativeWrap {
    NoWrap,
    Wrap,
    WrapReverse,
}

/// Whether a node takes part in its parent's flow.
#[derive(Clone, Copy, Debug, PartialEq, Eq, Structural)]
pub enum NativePosition {
    Flow,
    Absolute,
}

/// What happens to content that does not fit.
#[derive(Clone, Copy, Debug, PartialEq, Eq, Structural)]
pub enum NativeOverflow {
    Visible,
    Hidden,
    Scroll,
}

/// How a node follows its container's size.
#[derive(Clone, Copy, Debug, PartialEq, Eq, Structural)]
pub enum NativeConstraint {
    Start,
    Center,
    End,
    Scale,
    Stretch,
}

/// One number per edge.
#[derive(Clone, Copy, Debug, PartialEq, Eq, Structural)]
pub struct NativeEdges {
    pub top: u16,
    pub right: u16,
    pub bottom: u16,
    pub left: u16,
}

/// One optional offset per edge.
#[derive(Clone, Copy, Debug, PartialEq, Eq, Structural)]
pub struct NativeOffsets {
    pub left: Option<i16>,
    pub top: Option<i16>,
    pub right: Option<i16>,
    pub bottom: Option<i16>,
}

/// The layout of a node.
#[derive(Clone, Copy, Debug, PartialEq, Eq, Structural)]
pub struct NativeLayout {
    pub width: NativeSize,
    pub height: NativeSize,
    pub gap: u16,
    pub padding: u16,
    pub margin: NativeEdges,
    pub basis: Option<u16>,
    pub min_width: Option<u16>,
    pub max_width: Option<u16>,
    pub min_height: Option<u16>,
    pub max_height: Option<u16>,
    pub grid_columns: u16,
    pub grid_rows: u16,
    pub column_start: Option<i16>,
    pub column_span: u16,
    pub row_start: Option<i16>,
    pub row_span: u16,
    pub offsets: NativeOffsets,
    pub z_index: i16,
    pub opacity_percent: u8,
    pub rotation_degrees: i16,
    pub align: NativeAlign,
    pub justify: NativeAlign,
    pub wrap: NativeWrap,
    pub position: NativePosition,
    pub overflow: NativeOverflow,
    pub horizontal_constraint: NativeConstraint,
    pub vertical_constraint: NativeConstraint,
    pub grow: bool,
    pub shrink: bool,
}

/// The paint of a node.
#[derive(Clone, Copy, Debug, PartialEq, Eq, Structural)]
pub struct NativeAppearance {
    pub radius: u16,
    pub background: Option<u32>,
    pub foreground: u32,
    pub border: Option<u32>,
}

/// The type of a node's text.
#[derive(Debug)]
pub struct NativeTypography {
    pub family: String,
    pub size: u16,
    pub weight: u16,
    pub line_height: u16,
}

/// What a typography holds.
#[verifier::ext_equal]
pub struct TypographyView {
    pub family: Seq<char>,
    pub size: u16,
    pub weight: u16,
    pub line_height: u16,
}

impl View for NativeTypography {
    type V = TypographyView;

    open spec fn view(&self) -> TypographyView {
        TypographyView {
            family: self.family@,
            size: self.size,
            weight: self.weight,
            line_height: self.line_height,
        }
    }
}

impl Clone for NativeTypography {
    fn clone(&self) -> (copy: Self)
        ensures
            copy == *self,
    {
        NativeTypography {
            family: self.family.clone(),
            size: self.size,
            weight: self.weight,
            line_height: self.line_height,
        }
    }
}

/// One node of a component's tree.
#[derive(Debug)]
pub struct NativeNode {
    pub id: String,
    pub kind: NativeNodeKind,
    /// The component that an instance node stands for.
    pub instance_of: Option<String>,
    /// The authored interaction-state bits, carried along unread.
    pub state: u32,
    pub layout: NativeLayout,
    pub appearance: NativeAppearance,
    pub typography: NativeTypography,
    pub text: Option<String>,
    pub action: Option<String>,
    pub children: Vec<NativeNode>,
}

/// What a node holds besides its children.
#[verifier::ext_equal]
pub struct NodeView {
    pub id: Seq<char>,
    pub kind: NativeNodeKind,
    pub instance_of: Option<Seq<char>>,
    pub state: u32,
    pub layout: NativeLayout,
    pub appearance: NativeAppearance,
    pub typography: TypographyView,
    pub text: Option<Seq<char>>,
    pub action: Option<Seq<char>>,
}

impl View for NativeNode {
    type V = NodeView;

    open spec fn view(&self) -> NodeView {
        NodeView {
            id: self.id@,
            kind: self.kind,
            instance_of: text::text_view(self.instance_of),
            state: self.state,
            layout: self.layout,
            appearance: self.appearance,
            typography: self.typography@,
            text: text::text_view(self.text),
            action: text::text_view(self.action),
        }
    }
}

/// Whether two trees hold the same nodes in the same places.
pub open spec fn same_tree(a: NativeNode, b: NativeNode) -> bool
    decreases a,
{
    a@ == b@ && same_forest(a.children@, b.children@)
}

/// Whether two rows of trees are the same.
pub open spec fn same_forest(a: Seq<NativeNode>, b: Seq<NativeNode>) -> bool
    decreases a,
{
    a.len() == b.len() && (a.len() == 0 || (same_forest(a.drop_last(), b.drop_last()) && same_tree(
        a.last(),
        b.last(),
    )))
}

impl NativeNode {
    /// The node without its children.
    pub fn detached(&self) -> (copy: NativeNode)
        ensures
            copy@ == self@,
            copy.children@.len() == 0,
    {
        NativeNode {
            id: self.id.clone(),
            kind: self.kind,
            instance_of: self.instance_of.clone(),
            state: self.state,
            layout: self.layout,
            appearance: self.appearance,
            typography: self.typography.clone(),
            text: self.text.clone(),
            action: self.action.clone(),
            children: Vec::new(),
        }
    }

    /// A copy of the tree.
    pub fn copied(&self) -> (copy: NativeNode)
        ensures
            same_tree(copy, *self),
        decreases self,
    {
        let mut children: Vec<NativeNode> = Vec::new();
        let mut i: usize = 0;
        while i < self.children.len()
            invariant
                i <= self.children.len(),
                same_forest(children@, self.children@.take(i as int)),
            decreases self.children.len() - i,
        {
            let ghost was = children@;
            let child = self.children[i].copied();
            children.push(child);
            proof {
                assert(children@.drop_last() =~= was);
                assert(self.children@.take(i as int + 1).drop_last() =~= self.children@.take(
                    i as int,
                ));
            }
            i += 1;
        }
        proof {
            assert(self.children@.take(i as int) =~= self.children@);
        }
        let mut copy = self.detached();
        copy.children = children;
        copy
    }
}

/// The IDs of a node and everything below it, parents before children.
pub open spec fn node_ids(node: NativeNode) -> Seq<Seq<char>>
    decreases node,
{
    seq![node.id@] + forest_ids(node.children@)
}

/// The IDs of a row of trees.
pub open spec fn forest_ids(nodes: Seq<NativeNode>) -> Seq<Seq<char>>
    decreases nodes,
{
    if nodes.len() == 0 {
        Seq::empty()
    } else {
        forest_ids(nodes.drop_last()) + node_ids(nodes.last())
    }
}

/// The IDs of a node and everything below it, parents before children.
pub fn component_node_ids(root: &NativeNode) -> (ids: Vec<String>)
    ensures
        text::texts(ids@) == node_ids(*root),
    decreases root,
{
    let mut ids: Vec<String> = Vec::new();
    ids.push(root.id.clone());
    let mut i: usize = 0;
    proof {
        assert(root.children@.take(0) =~= Seq::<NativeNode>::empty());
        assert(text::texts(ids@) =~= seq![root.id@] + forest_ids(root.children@.take(0)));
    }
    while i < root.children.len()
        invariant
            i <= root.children.len(),
            text::texts(ids@) == seq![root.id@] + forest_ids(root.children@.take(i as int)),
        decreases root.children.len() - i,
    {
        let ghost before = ids@;
        let mut below = component_node_ids(&root.children[i]);
        let ghost added = below@;
        ids.append(&mut below);
        proof {
            let taken = root.children@.take(i as int + 1);
            assert(taken.drop_last() =~= root.children@.take(i as int));
            assert(text::texts(ids@) =~= text::texts(before) + text::texts(added));
            assert(text::texts(before) + node_ids(root.children@[i as int]) =~= seq![root.id@]
                + forest_ids(taken));
        }
        i += 1;
    }
    proof {
        assert(root.children@.take(i as int) =~= root.children@);
    }
    ids
}

// ---------------------------------------------------------------------------
// Definitions
// ---------------------------------------------------------------------------

/// A named state of a component.
#[derive(Debug)]
pub struct ComponentState {
    pub name: String,
    pub value_type: String,
    pub default: String,
}

impl Clone for ComponentState {
    fn clone(&self) -> (copy: Self)
        ensures
            copy == *self,
    {
        ComponentState {
            name: self.name.clone(),
            value_type: self.value_type.clone(),
            default: self.default.clone(),
        }
    }
}

/// What a variant changes on one node.
#[derive(Debug)]
pub struct ComponentVariantOverride {
    pub node_id: String,
    pub layout: Option<NativeLayout>,
    pub appearance: Option<NativeAppearance>,
    pub typography: Option<NativeTypography>,
    pub text: Option<Option<String>>,
    pub state: Option<u32>,
}

impl Clone for ComponentVariantOverride {
    fn clone(&self) -> (copy: Self)
        ensures
            copy == *self,
    {
        ComponentVariantOverride {
            node_id: self.node_id.clone(),
            layout: self.layout,
            appearance: self.appearance,
            typography: self.typography.clone(),
            text: self.text.clone(),
            state: self.state,
        }
    }
}

/// A named set of overrides.
#[derive(Debug)]
pub struct ComponentVariant {
    pub id: String,
    pub name: String,
    pub overrides: Vec<ComponentVariantOverride>,
}

impl Clone for ComponentVariant {
    fn clone(&self) -> (copy: Self)
        ensures
            copy.id == self.id,
            copy.name == self.name,
            copy.overrides@ == self.overrides@,
    {
        let overrides = self.overrides.clone();
        proof {
            assert(overrides@ =~= self.overrides@);
        }
        ComponentVariant { id: self.id.clone(), name: self.name.clone(), overrides }
    }
}

/// A named place for content.
#[derive(Debug)]
pub struct ComponentSlot {
    pub name: String,
    pub node_id: String,
    pub multiple: bool,
    pub accepted_kinds: Vec<NativeNodeKind>,
}

impl Clone for ComponentSlot {
    fn clone(&self) -> (copy: Self)
        ensures
            copy.name == self.name,
            copy.node_id == self.node_id,
            copy.multiple == self.multiple,
            copy.accepted_kinds@ == self.accepted_kinds@,
    {
        let accepted_kinds = self.accepted_kinds.clone();
        proof {
            assert(accepted_kinds@ =~= self.accepted_kinds@);
        }
        ComponentSlot {
            name: self.name.clone(),
            node_id: self.node_id.clone(),
            multiple: self.multiple,
            accepted_kinds,
        }
    }
}

/// What starts an interaction.
#[derive(Clone, Copy, Debug, PartialEq, Eq, Structural)]
pub enum ComponentEvent {
    Click,
    /// Any event that pointer clicks do not raise.
    Other,
}

/// One interaction rule.
#[derive(Debug)]
pub struct ComponentLogic {
    pub id: String,
    pub source_node: String,
    pub event: ComponentEvent,
    pub action: String,
    pub guard: Option<String>,
    pub target_state: Option<String>,
    pub value: Option<String>,
}

impl Clone for ComponentLogic {
    fn clone(&self) -> (copy: Self)
        ensures
            copy == *self,
    {
        ComponentLogic {
            id: self.id.clone(),
            source_node: self.source_node.clone(),
            event: self.event,
            action: self.action.clone(),
            guard: self.guard.clone(),
            target_state: self.target_state.clone(),
            value: self.value.clone(),
        }
    }
}

/// What a design token's value is.
#[derive(Clone, Copy, Debug, PartialEq, Eq, Structural)]
pub enum DesignTokenKind {
    Color,
    Number,
    Typography,
    String,
}

/// A named design value.
#[derive(Debug)]
pub struct DesignToken {
    pub path: String,
    pub kind: DesignTokenKind,
    pub value: String,
    pub description: String,
}

impl Clone for DesignToken {
    fn clone(&self) -> (copy: Self)
        ensures
            copy == *self,
    {
        DesignToken {
            path: self.path.clone(),
            kind: self.kind,
            value: self.value.clone(),
            description: self.description.clone(),
        }
    }
}

/// One authored component.
#[derive(Debug)]
pub struct NativeComponent {
    pub id: String,
    pub name: String,
    pub root: NativeNode,
    pub props: Vec<ComponentProp>,
    pub states: Vec<ComponentState>,
    pub variants: Vec<ComponentVariant>,
    pub slots: Vec<ComponentSlot>,
    pub logic: Vec<ComponentLogic>,
}

/// The components of a project.
#[derive(Debug)]
pub struct ComponentLibrary {
    pub components: Vec<NativeComponent>,
    pub active_component: String,
    pub tokens: Vec<DesignToken>,
}

impl Keyed for ComponentState {
    open spec fn key(&self) -> Seq<char> {
        self.name@
    }

    fn key_text(&self) -> (out: &str) {
        self.name.as_str()
    }
}

impl Keyed for ComponentVariantOverride {
    open spec fn key(&self) -> Seq<char> {
        self.node_id@
    }

    fn key_text(&self) -> (out: &str) {
        self.node_id.as_str()
    }
}

impl Keyed for ComponentVariant {
    open spec fn key(&self) -> Seq<char> {
        self.id@
    }

    fn key_text(&self) -> (out: &str) {
        self.id.as_str()
    }
}

impl Keyed for ComponentSlot {
    open spec fn key(&self) -> Seq<char> {
        self.name@
    }

    fn key_text(&self) -> (out: &str) {
        self.name.as_str()
    }
}

impl Keyed for ComponentLogic {
    open spec fn key(&self) -> Seq<char> {
        self.id@
    }

    fn key_text(&self) -> (out: &str) {
        self.id.as_str()
    }
}

impl Keyed for ComponentProp {
    open spec fn key(&self) -> Seq<char> {
        self.name@
    }

    fn key_text(&self) -> (out: &str) {
        self.name.as_str()
    }
}

impl Keyed for DesignToken {
    open spec fn key(&self) -> Seq<char> {
        self.path@
    }

    fn key_text(&self) -> (out: &str) {
        self.path.as_str()
    }
}

impl Keyed for NativeComponent {
    open spec fn key(&self) -> Seq<char> {
        self.id@
    }

    fn key_text(&self) -> (out: &str) {
        self.id.as_str()
    }
}

impl ComponentLibrary {
    /// The component with this ID.
    pub open spec fn lookup(&self, id: Seq<char>) -> Option<NativeComponent> {
        match keyed::first_key(self.components@, id, 0) {
            Some(i) => Some(self.components@[i]),
            None => None,
        }
    }

    /// The component with this ID.
    pub fn component(&self, id: &str) -> (found: Option<&NativeComponent>)
        ensures
            match self.lookup(id@) {
                Some(component) => found is Some && *found->0 == component,
                None => found is None,
            },
    {
        match keyed::find(&self.components, id) {
            Some(i) => Some(&self.components[i]),
            None => None,
        }
    }

    /// The component that the library marks active.
    pub fn active(&self) -> (found: Option<&NativeComponent>)
        ensures
            match self.lookup(self.active_component@) {
                Some(component) => found is Some && *found->0 == component,
                None => found is None,
            },
    {
        self.component(self.active_component.as_str())
    }

    /// Makes the first component, which the page edits, the active one.
    pub fn activate_root(&mut self)
        ensures
            *final(self) == (ComponentLibrary {
                active_component: final(self).active_component,
                ..*old(self)
            }),
            final(self).active_component@ == (if old(self).components@.len() > 0 {
                old(self).components@[0].id@
            } else {
                old(self).active_component@
            }),
    {
        if self.components.len() > 0 {
            self.active_component = self.components[0].id.clone();
        }
    }
}

impl NativeComponent {
    /// Whether two components hold the same.
    pub open spec fn same(&self, other: NativeComponent) -> bool {
        &&& self.id == other.id
        &&& self.name == other.name
        &&& same_tree(self.root, other.root)
        &&& self.props@ == other.props@
        &&& self.states@ == other.states@
        &&& self.logic@ == other.logic@
        &&& self.variants@.len() == other.variants@.len()
        &&& forall|i: int|
            0 <= i < self.variants@.len() ==> {
                &&& (#[trigger] self.variants@[i]).id == other.variants@[i].id
                &&& self.variants@[i].name == other.variants@[i].name
                &&& self.variants@[i].overrides@ == other.variants@[i].overrides@
            }
        &&& self.slots@.len() == other.slots@.len()
        &&& forall|i: int|
            0 <= i < self.slots@.len() ==> {
                &&& (#[trigger] self.slots@[i]).name == other.slots@[i].name
                &&& self.slots@[i].node_id == other.slots@[i].node_id
                &&& self.slots@[i].multiple == other.slots@[i].multiple
                &&& self.slots@[i].accepted_kinds@ == other.slots@[i].accepted_kinds@
            }
    }

    /// A copy of the component.
    pub fn copied(&self) -> (copy: NativeComponent)
        ensures
            copy.same(*self),
    {
        let props = self.props.clone();
        let states = self.states.clone();
        let logic = self.logic.clone();
        let variants = self.variants.clone();
        let slots = self.slots.clone();
        proof {
            assert(props@ =~= self.props@);
            assert(states@ =~= self.states@);
            assert(logic@ =~= self.logic@);
        }
        NativeComponent {
            id: self.id.clone(),
            name: self.name.clone(),
            root: self.root.copied(),
            props,
            states,
            variants,
            slots,
            logic,
        }
    }
}

impl ComponentLibrary {
    /// A copy of the library.
    pub fn copied(&self) -> (copy: ComponentLibrary)
        ensures
            copy.active_component == self.active_component,
            copy.tokens@ == self.tokens@,
            copy.components@.len() == self.components@.len(),
            forall|i: int|
                0 <= i < copy.components@.len() ==> (#[trigger] copy.components@[i]).same(
                    self.components@[i],
                ),
    {
        let tokens = self.tokens.clone();
        proof {
            assert(tokens@ =~= self.tokens@);
        }
        let mut components: Vec<NativeComponent> = Vec::new();
        let mut i: usize = 0;
        while i < self.components.len()
            invariant
                i <= self.components.len(),
                components.len() == i,
                forall|j: int|
                    0 <= j < i ==> (#[trigger] components@[j]).same(self.components@[j]),
            decreases self.components.len() - i,
        {
            components.push(self.components[i].copied());
            i += 1;
        }
        ComponentLibrary { components, active_component: self.active_component.clone(), tokens }
    }
}

// ---------------------------------------------------------------------------
// Interactions
// ---------------------------------------------------------------------------

/// Whether the rule at position `i` fires for a click on this node with this action, given
/// whether each rule's guard holds.
pub open spec fn fires(
    logic: Seq<ComponentLogic>,
    guards: Seq<bool>,
    node_id: Seq<char>,
    action: Seq<char>,
    i: int,
) -> bool {
    &&& logic[i].source_node@ == node_id
    &&& logic[i].event == ComponentEvent::Click
    &&& logic[i].action@ == action
    &&& guards[i]
    &&& logic[i].target_state is Some
    &&& logic[i].value is Some
}

/// The state changes that the first `count` rules make, in order.
pub open spec fn transitions_of(
    logic: Seq<ComponentLogic>,
    guards: Seq<bool>,
    node_id: Seq<char>,
    action: Seq<char>,
    count: nat,
) -> Seq<(Seq<char>, Seq<char>)>
    decreases count,
{
    if count == 0 {
        Seq::empty()
    } else {
        let i = count - 1;
        let before = transitions_of(logic, guards, node_id, action, (count - 1) as nat);
        if fires(logic, guards, node_id, action, i) {
            before.push((logic[i].target_state->0@, logic[i].value->0@))
        } else {
            before
        }
    }
}

/// One state and the value it takes.
#[derive(Debug)]
pub struct StateChange {
    pub state: String,
    pub value: String,
}

impl Clone for StateChange {
    fn clone(&self) -> (copy: Self)
        ensures
            copy == *self,
    {
        StateChange {
            state: self.state.clone(),
            value: self.value.clone(),
        }
    }
}

/// What a row of changes says.
pub open spec fn change_views(s: Seq<StateChange>) -> Seq<(Seq<char>, Seq<char>)> {
    Seq::new(s.len(), |i: int| (s[i].state@, s[i].value@))
}

/// The state changes that a click with this action on this node makes: those of the rules of
/// that node and action whose guard holds and that set a state. `guards` tells of each rule
/// whether its guard holds.
pub fn component_logic_transitions(
    logic: &Vec<ComponentLogic>,
    guards: &Vec<bool>,
    node_id: &str,
    action: &str,
) -> (out: Vec<StateChange>)
    requires
        guards.len() == logic.len(),
    ensures
        change_views(out@) == transitions_of(
            logic@,
            guards@,
            node_id@,
            action@,
            logic@.len(),
        ),
{
    let mut out: Vec<StateChange> = Vec::new();
    let mut i: usize = 0;
    while i < logic.len()
        invariant
            i <= logic.len(),
            guards.len() == logic.len(),
            change_views(out@) == transitions_of(logic@, guards@, node_id@, action@, i as nat),
        decreases logic.len() - i,
    {
        let rule = &logic[i];
        let ghost was = out@;
        if text::same_text(rule.source_node.as_str(), node_id) && rule.event
            == ComponentEvent::Click && text::same_text(rule.action.as_str(), action) && guards[i] {
            match (&rule.target_state, &rule.value) {
                (Some(state), Some(value)) => {
                    out.push(StateChange { state: state.clone(), value: value.clone() });
                    proof {
                        assert(change_views(out@) =~= change_views(was).push(
                            (rule.target_state->0@, rule.value->0@),
                        ));
                    }
                },
                _ => {},
            }
        }
        i += 1;
    }
    out
}

/// Components that hold the same have the same names, nodes, properties, states, interactions,
/// variants and slots.
pub proof fn law_same_components_agree(a: NativeComponent, b: NativeComponent, i: int)
    requires
        a.same(b),
    ensures
        a.id@ == b.id@,
        a.name@ == b.name@,
        a.root@ == b.root@,
        node_ids(a.root) == node_ids(b.root),
        a.props@ == b.props@,
        a.states@ == b.states@,
        a.logic@ == b.logic@,
        a.variants@.len() == b.variants@.len(),
        a.slots@.len() == b.slots@.len(),
        0 <= i < a.variants@.len() ==> a.variants@[i].id == b.variants@[i].id && a.variants@[i].name
            == b.variants@[i].name && a.variants@[i].overrides@ == b.variants@[i].overrides@,
        0 <= i < a.slots@.len() ==> a.slots@[i].name == b.slots@[i].name && a.slots@[i].node_id
            == b.slots@[i].node_id && a.slots@[i].multiple == b.slots@[i].multiple
            && a.slots@[i].accepted_kinds@ == b.slots@[i].accepted_kinds@,
{
    lemma_same_ids(a.root, b.root);
}

proof fn lemma_same_ids(a: NativeNode, b: NativeNode)
    requires
        same_tree(a, b),
    ensures
        node_ids(a) == node_ids(b),
    decreases a,
{
    lemma_same_forest_ids(a.children@, b.children@);
    assert(a@.id == b@.id);
}

proof fn lemma_same_forest_ids(a: Seq<NativeNode>, b: Seq<NativeNode>)
    requires
        same_forest(a, b),
    ensures
        forest_ids(a) == forest_ids(b),
    decreases a,
{
    if a.len() > 0 {
        lemma_same_forest_ids(a.drop_last(), b.drop_last());
        lemma_same_ids(a.last(), b.last());
    }
}

/// Trees are the same where their roots hold the same and their children are the same one by one.
pub proof fn law_same_trees_agree(a: NativeNode, b: NativeNode, i: int)
    requires
        same_tree(a, b),
    ensures
        a@ == b@,
        a.children@.len() == b.children@.len(),
        0 <= i < a.children@.len() ==> same_tree(a.children@[i], b.children@[i]),
{
    lemma_same_at(a.children@, b.children@, i);
}

proof fn lemma_same_at(a: Seq<NativeNode>, b: Seq<NativeNode>, i: int)
    requires
        same_forest(a, b),
    ensures
        0 <= i < a.len() ==> same_tree(a[i], b[i]),
    decreases a.len(),
{
    if 0 <= i < a.len() - 1 {
        lemma_same_at(a.drop_last(), b.drop_last(), i);
    }
}

} // verus!
