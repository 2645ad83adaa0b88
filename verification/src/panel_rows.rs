//! The rows that panels list: definitions, states, tokens, comments, components and events.
use vstd::prelude::*;

use crate::annotations;
use crate::annotations::{AnnotationStatus, AnnotationStore, AnnotationView};
use crate::components;
use crate::components::{
    ComponentLibrary, ComponentLogic, ComponentState, DesignTokenKind, NativeComponent, NativeNode,
};
use crate::identifiers::ComponentProp;
use crate::keyed;
use crate::runtime;
use crate::studio::{Authoring, ComponentRuntime, DocumentId, StateValue};
use crate::text;

verus! {

/// A label and a value.
#[derive(Debug)]
pub struct DataRow {
    pub label: String,
    pub value: String,
}

/// What a row shows.
#[verifier::ext_equal]
pub struct DataView {
    pub label: Seq<char>,
    pub value: Seq<char>,
}

impl View for DataRow {
    type V = DataView;

    open spec fn view(&self) -> DataView {
        DataView { label: self.label@, value: self.value@ }
    }
}

/// What a list of rows shows.
pub open spec fn data_views(rows: Seq<DataRow>) -> Seq<DataView> {
    Seq::new(rows.len(), |i: int| rows[i]@)
}

fn placeholder(label: &str, value: &str) -> (rows: Vec<DataRow>)
    ensures
        data_views(rows@) == seq![DataView { label: label@, value: value@ }],
{
    let mut rows: Vec<DataRow> = Vec::new();
    rows.push(DataRow { label: label.to_owned(), value: value.to_owned() });
    proof {
        assert(data_views(rows@) =~= seq![DataView { label: label@, value: value@ }]);
    }
    rows
}

// ---------------------------------------------------------------------------
// Definitions
// ---------------------------------------------------------------------------

/// A property's default, or that it is required.
pub open spec fn default_text(prop: ComponentProp) -> Seq<char> {
    match prop.default {
        Some(default) => default@,
        None => "required"@,
    }
}

fn default_label(prop: &ComponentProp) -> (out: String)
    ensures
        out@ == default_text(*prop),
{
    match &prop.default {
        Some(default) => default.clone(),
        None => "required".to_owned(),
    }
}

/// The rows of a component's properties.
pub open spec fn prop_rows_of(props: Seq<ComponentProp>) -> Seq<DataView> {
    if props.len() == 0 {
        seq![DataView { label: "No public props"@, value: "Add one below"@ }]
    } else {
        Seq::new(
            props.len(),
            |i: int|
                DataView {
                    label: props[i].name@,
                    value: props[i].value_type@ + " · "@ + default_text(props[i]),
                },
        )
    }
}

/// The rows of a component's properties.
pub fn component_prop_rows(props: &Vec<ComponentProp>) -> (rows: Vec<DataRow>)
    ensures
        data_views(rows@) == prop_rows_of(props@),
{
    if props.len() == 0 {
        return placeholder("No public props", "Add one below");
    }
    let mut rows: Vec<DataRow> = Vec::new();
    let mut i: usize = 0;
    while i < props.len()
        invariant
            i <= props.len(),
            props.len() > 0,
            data_views(rows@) == prop_rows_of(props@).take(i as int),
        decreases props.len() - i,
    {
        let ghost was = rows@;
        let row = DataRow {
            label: props[i].name.clone(),
            value: text::join3(
                props[i].value_type.as_str(),
                " · ",
                default_label(&props[i]).as_str(),
            ),
        };
        rows.push(row);
        proof {
            assert(data_views(rows@) =~= data_views(was).push(row@));
            assert(prop_rows_of(props@).take(i as int + 1) =~= prop_rows_of(props@).take(
                i as int,
            ).push(row@));
        }
        i += 1;
    }
    proof {
        assert(prop_rows_of(props@).take(i as int) =~= prop_rows_of(props@));
    }
    rows
}

/// The rows of a component's states.
pub open spec fn state_rows_of(states: Seq<ComponentState>) -> Seq<DataView> {
    if states.len() == 0 {
        seq![DataView { label: "No local state"@, value: "Add one below"@ }]
    } else {
        Seq::new(
            states.len(),
            |i: int|
                DataView {
                    label: states[i].name@,
                    value: states[i].value_type@ + " · "@ + states[i].default@,
                },
        )
    }
}

/// The rows of a component's states.
pub fn component_state_rows(states: &Vec<ComponentState>) -> (rows: Vec<DataRow>)
    ensures
        data_views(rows@) == state_rows_of(states@),
{
    if states.len() == 0 {
        return placeholder("No local state", "Add one below");
    }
    let mut rows: Vec<DataRow> = Vec::new();
    let mut i: usize = 0;
    while i < states.len()
        invariant
            i <= states.len(),
            states.len() > 0,
            data_views(rows@) == state_rows_of(states@).take(i as int),
        decreases states.len() - i,
    {
        let ghost was = rows@;
        let row = DataRow {
            label: states[i].name.clone(),
            value: text::join3(
                states[i].value_type.as_str(),
                " · ",
                states[i].default.as_str(),
            ),
        };
        rows.push(row);
        proof {
            assert(data_views(rows@) =~= data_views(was).push(row@));
            assert(state_rows_of(states@).take(i as int + 1) =~= state_rows_of(states@).take(
                i as int,
            ).push(row@));
        }
        i += 1;
    }
    proof {
        assert(state_rows_of(states@).take(i as int) =~= state_rows_of(states@));
    }
    rows
}

/// The rows of a component's variants.
pub open spec fn variant_rows_of(variants: Seq<components::ComponentVariant>) -> Seq<DataView> {
    if variants.len() == 0 {
        seq![DataView { label: "No variants"@, value: "Base graph only"@ }]
    } else {
        Seq::new(
            variants.len(),
            |i: int|
                DataView {
                    label: variants[i].name@,
                    value: variants[i].id@ + " · "@ + text::decimal_text(
                        variants[i].overrides@.len(),
                    ) + " overrides"@,
                },
        )
    }
}

/// The rows of a component's variants.
pub fn component_variant_rows(variants: &Vec<components::ComponentVariant>) -> (rows: Vec<DataRow>)
    ensures
        data_views(rows@) == variant_rows_of(variants@),
{
    if variants.len() == 0 {
        return placeholder("No variants", "Base graph only");
    }
    let mut rows: Vec<DataRow> = Vec::new();
    let mut i: usize = 0;
    while i < variants.len()
        invariant
            i <= variants.len(),
            variants.len() > 0,
            data_views(rows@) == variant_rows_of(variants@).take(i as int),
        decreases variants.len() - i,
    {
        let ghost was = rows@;
        let mut value = text::join3(
            variants[i].id.as_str(),
            " · ",
            text::decimal(variants[i].overrides.len() as u64).as_str(),
        );
        value.append(" overrides");
        let row = DataRow { label: variants[i].name.clone(), value };
        rows.push(row);
        proof {
            assert(data_views(rows@) =~= data_views(was).push(row@));
            assert(variant_rows_of(variants@).take(i as int + 1) =~= variant_rows_of(
                variants@,
            ).take(i as int).push(row@));
        }
        i += 1;
    }
    proof {
        assert(variant_rows_of(variants@).take(i as int) =~= variant_rows_of(variants@));
    }
    rows
}

/// The rows of a component's slots.
pub open spec fn slot_rows_of(slots: Seq<components::ComponentSlot>) -> Seq<DataView> {
    if slots.len() == 0 {
        seq![DataView { label: "No slots"@, value: "Closed composition"@ }]
    } else {
        Seq::new(
            slots.len(),
            |i: int|
                DataView {
                    label: slots[i].name@,
                    value: slots[i].node_id@ + " · "@ + (if slots[i].multiple {
                        "many"@
                    } else {
                        "single"@
                    }),
                },
        )
    }
}

/// The rows of a component's slots.
pub fn component_slot_rows(slots: &Vec<components::ComponentSlot>) -> (rows: Vec<DataRow>)
    ensures
        data_views(rows@) == slot_rows_of(slots@),
{
    if slots.len() == 0 {
        return placeholder("No slots", "Closed composition");
    }
    let mut rows: Vec<DataRow> = Vec::new();
    let mut i: usize = 0;
    while i < slots.len()
        invariant
            i <= slots.len(),
            slots.len() > 0,
            data_views(rows@) == slot_rows_of(slots@).take(i as int),
        decreases slots.len() - i,
    {
        let ghost was = rows@;
        let capacity = if slots[i].multiple {
            "many"
        } else {
            "single"
        };
        let row = DataRow {
            label: slots[i].name.clone(),
            value: text::join3(slots[i].node_id.as_str(), " · ", capacity),
        };
        rows.push(row);
        proof {
            assert(data_views(rows@) =~= data_views(was).push(row@));
            assert(slot_rows_of(slots@).take(i as int + 1) =~= slot_rows_of(slots@).take(
                i as int,
            ).push(row@));
        }
        i += 1;
    }
    proof {
        assert(slot_rows_of(slots@).take(i as int) =~= slot_rows_of(slots@));
    }
    rows
}

/// What a token's kind is called.
pub open spec fn token_kind_text(kind: DesignTokenKind) -> Seq<char> {
    match kind {
        DesignTokenKind::Color => "Color"@,
        DesignTokenKind::Number => "Number"@,
        DesignTokenKind::Typography => "Typography"@,
        DesignTokenKind::String => "String"@,
    }
}

/// The rows of a library's tokens.
pub open spec fn token_rows_of(tokens: Seq<components::DesignToken>) -> Seq<DataView> {
    if tokens.len() == 0 {
        seq![DataView { label: "No tokens"@, value: "Add one below"@ }]
    } else {
        Seq::new(
            tokens.len(),
            |i: int|
                DataView {
                    label: tokens[i].path@,
                    value: token_kind_text(tokens[i].kind) + " · "@ + tokens[i].value@,
                },
        )
    }
}

/// The rows of a library's tokens.
pub fn design_token_rows(tokens: &Vec<components::DesignToken>) -> (rows: Vec<DataRow>)
    ensures
        data_views(rows@) == token_rows_of(tokens@),
{
    if tokens.len() == 0 {
        return placeholder("No tokens", "Add one below");
    }
    let mut rows: Vec<DataRow> = Vec::new();
    let mut i: usize = 0;
    while i < tokens.len()
        invariant
            i <= tokens.len(),
            tokens.len() > 0,
            data_views(rows@) == token_rows_of(tokens@).take(i as int),
        decreases tokens.len() - i,
    {
        let ghost was = rows@;
        let kind = match tokens[i].kind {
            DesignTokenKind::Color => "Color",
            DesignTokenKind::Number => "Number",
            DesignTokenKind::Typography => "Typography",
            DesignTokenKind::String => "String",
        };
        let row = DataRow {
            label: tokens[i].path.clone(),
            value: text::join3(kind, " · ", tokens[i].value.as_str()),
        };
        rows.push(row);
        proof {
            assert(data_views(rows@) =~= data_views(was).push(row@));
            assert(token_rows_of(tokens@).take(i as int + 1) =~= token_rows_of(tokens@).take(
                i as int,
            ).push(row@));
        }
        i += 1;
    }
    proof {
        assert(token_rows_of(tokens@).take(i as int) =~= token_rows_of(tokens@));
    }
    rows
}

// ---------------------------------------------------------------------------
// Interactions
// ---------------------------------------------------------------------------

/// The actions of a tree's nodes, parents before children: the node and its action.
pub open spec fn node_actions_of(node: NativeNode) -> Seq<DataView>
    decreases node,
{
    let below = forest_actions_of(node.children@);
    match node.action {
        Some(action) => seq![DataView { label: node.id@, value: action@ }] + below,
        None => below,
    }
}

/// The actions of the nodes of a row of trees.
pub open spec fn forest_actions_of(nodes: Seq<NativeNode>) -> Seq<DataView>
    decreases nodes,
{
    if nodes.len() == 0 {
        Seq::empty()
    } else {
        forest_actions_of(nodes.drop_last()) + node_actions_of(nodes.last())
    }
}

fn collect_node_actions(node: &NativeNode, out: &mut Vec<DataRow>)
    ensures
        data_views(final(out)@) == data_views(old(out)@) + node_actions_of(*node),
    decreases node,
{
    let ghost before = out@;
    match &node.action {
        Some(action) => {
            out.push(DataRow { label: node.id.clone(), value: action.clone() });
            proof {
                assert(data_views(out@) =~= data_views(before) + seq![
                    DataView { label: node.id@, value: action@ },
                ]);
            }
        },
        None => {},
    }
    let ghost own = out@;
    let mut i: usize = 0;
    proof {
        assert(node.children@.take(0) =~= Seq::<NativeNode>::empty());
        assert(data_views(out@) =~= data_views(own) + forest_actions_of(node.children@.take(0)));
    }
    while i < node.children.len()
        invariant
            i <= node.children.len(),
            data_views(out@) == data_views(own) + forest_actions_of(node.children@.take(i as int)),
        decreases node.children.len() - i,
    {
        collect_node_actions(&node.children[i], out);
        proof {
            let taken = node.children@.take(i as int + 1);
            assert(taken.drop_last() =~= node.children@.take(i as int));
            assert(taken.last() == node.children@[i as int]);
            assert(data_views(out@) =~= data_views(own) + forest_actions_of(taken));
        }
        i += 1;
    }
    proof {
        assert(node.children@.take(i as int) =~= node.children@);
        assert(data_views(out@) =~= data_views(before) + node_actions_of(*node));
    }
}

/// What a rule does: its action and, where it sets a state, that state.
pub open spec fn rule_text(logic: ComponentLogic) -> Seq<char> {
    match logic.target_state {
        Some(target) => logic.action@ + " → "@ + target@,
        None => logic.action@,
    }
}

fn rule_label(logic: &ComponentLogic) -> (out: String)
    ensures
        out@ == rule_text(*logic),
{
    match &logic.target_state {
        Some(target) => text::join3(logic.action.as_str(), " → ", target.as_str()),
        None => logic.action.clone(),
    }
}

/// The rules as rows: the node and what happens.
pub open spec fn rule_rows_of(logic: Seq<ComponentLogic>) -> Seq<DataView> {
    Seq::new(
        logic.len(),
        |i: int| DataView { label: logic[i].source_node@, value: rule_text(logic[i]) },
    )
}

fn append_rules(logic: &Vec<ComponentLogic>, out: &mut Vec<DataRow>)
    ensures
        data_views(final(out)@) == data_views(old(out)@) + rule_rows_of(logic@),
{
    let ghost before = out@;
    let mut i: usize = 0;
    proof {
        assert(data_views(out@) =~= data_views(before) + rule_rows_of(logic@).take(0));
    }
    while i < logic.len()
        invariant
            i <= logic.len(),
            data_views(out@) == data_views(before) + rule_rows_of(logic@).take(i as int),
        decreases logic.len() - i,
    {
        let ghost was = out@;
        let row = DataRow {
            label: logic[i].source_node.clone(),
            value: rule_label(&logic[i]),
        };
        out.push(row);
        proof {
            assert(data_views(out@) =~= data_views(was).push(row@));
            assert(rule_rows_of(logic@).take(i as int + 1) =~= rule_rows_of(logic@).take(
                i as int,
            ).push(row@));
            assert(data_views(out@) =~= data_views(before) + rule_rows_of(logic@).take(
                i as int + 1,
            ));
        }
        i += 1;
    }
    proof {
        assert(rule_rows_of(logic@).take(i as int) =~= rule_rows_of(logic@));
    }
}

/// The interactions of a component: the actions of its nodes, then its rules.
pub fn component_interactions(component: &NativeComponent) -> (out: Vec<DataRow>)
    ensures
        data_views(out@) == node_actions_of(component.root) + rule_rows_of(component.logic@),
{
    let mut out: Vec<DataRow> = Vec::new();
    collect_node_actions(&component.root, &mut out);
    proof {
        assert(data_views(out@) =~= node_actions_of(component.root));
    }
    append_rules(&component.logic, &mut out);
    out
}

/// A node of the graph that lays interactions out, with its size in pixels.
#[derive(Debug)]
pub struct LogicNode {
    pub id: String,
    pub width: u16,
    pub height: u16,
}

/// What a node of the graph is.
#[verifier::ext_equal]
pub struct LogicNodeView {
    pub id: Seq<char>,
    pub width: int,
    pub height: int,
}

impl View for LogicNode {
    type V = LogicNodeView;

    open spec fn view(&self) -> LogicNodeView {
        LogicNodeView { id: self.id@, width: self.width as int, height: self.height as int }
    }
}

/// An edge of the graph that lays interactions out.
#[derive(Debug)]
pub struct LogicEdge {
    pub id: String,
    pub from: String,
    pub to: String,
}

/// What an edge of the graph is.
#[verifier::ext_equal]
pub struct LogicEdgeView {
    pub id: Seq<char>,
    pub from: Seq<char>,
    pub to: Seq<char>,
}

impl View for LogicEdge {
    type V = LogicEdgeView;

    open spec fn view(&self) -> LogicEdgeView {
        LogicEdgeView { id: self.id@, from: self.from@, to: self.to@ }
    }
}

/// The graph that lays interactions out.
#[derive(Debug)]
pub struct LogicGraph {
    pub nodes: Vec<LogicNode>,
    pub edges: Vec<LogicEdge>,
}

/// The node that stands for where an interaction comes from.
pub open spec fn source_id(label: Seq<char>) -> Seq<char> {
    "source:"@ + label
}

/// The node that stands for what an interaction does.
pub open spec fn action_id(index: nat) -> Seq<char> {
    "action:"@ + text::decimal_text(index)
}

/// The nodes of the graph: for each interaction where it comes from, then what it does.
pub open spec fn logic_nodes_of(interactions: Seq<DataRow>) -> Seq<LogicNodeView> {
    Seq::new(
        2 * interactions.len(),
        |k: int|
            if k % 2 == 0 {
                LogicNodeView {
                    id: source_id(interactions[k / 2].label@),
                    width: 112,
                    height: 36,
                }
            } else {
                LogicNodeView { id: action_id((k / 2) as nat), width: 148, height: 36 }
            },
    )
}

/// The edges of the graph: one for each interaction, from where it comes to what it does.
pub open spec fn logic_edges_of(interactions: Seq<DataRow>) -> Seq<LogicEdgeView> {
    Seq::new(
        interactions.len(),
        |i: int|
            LogicEdgeView {
                id: "edge:"@ + text::decimal_text(i as nat),
                from: source_id(interactions[i].label@),
                to: action_id(i as nat),
            },
    )
}

/// The graph that lays interactions out: two nodes and an edge for each.
pub fn logic_graph(interactions: &Vec<DataRow>) -> (graph: LogicGraph)
    ensures
        graph.nodes@.len() == 2 * interactions@.len(),
        graph.edges@.len() == interactions@.len(),
        forall|k: int|
            0 <= k < graph.nodes@.len() ==> (#[trigger] graph.nodes@[k])@ == logic_nodes_of(
                interactions@,
            )[k],
        forall|i: int|
            0 <= i < graph.edges@.len() ==> (#[trigger] graph.edges@[i])@ == logic_edges_of(
                interactions@,
            )[i],
{
    let mut nodes: Vec<LogicNode> = Vec::new();
    let mut edges: Vec<LogicEdge> = Vec::new();
    let mut i: usize = 0;
    while i < interactions.len()
        invariant
            i <= interactions.len(),
            nodes@.len() == 2 * i,
            edges@.len() == i,
            forall|k: int|
                0 <= k < nodes@.len() ==> (#[trigger] nodes@[k])@ == logic_nodes_of(
                    interactions@,
                )[k],
            forall|k: int|
                0 <= k < edges@.len() ==> (#[trigger] edges@[k])@ == logic_edges_of(
                    interactions@,
                )[k],
        decreases interactions.len() - i,
    {
        let source = text::join2("source:", interactions[i].label.as_str());
        let number = text::decimal(i as u64);
        let action = text::join2("action:", number.as_str());
        edges.push(
            LogicEdge {
                id: text::join2("edge:", number.as_str()),
                from: source.clone(),
                to: action.clone(),
            },
        );
        nodes.push(LogicNode { id: source, width: 112, height: 36 });
        nodes.push(LogicNode { id: action, width: 148, height: 36 });
        i += 1;
    }
    LogicGraph { nodes, edges }
}

/// Which interaction a node of the graph stands for, where it stands for what one does.
pub open spec fn interaction_of(id: Seq<char>) -> Option<nat> {
    if text::occurs_at(id, "action:"@, 0) {
        text::unsigned_value(id.skip("action:"@.len() as int))
    } else {
        None
    }
}

/// Which interaction a node of the graph stands for, where it stands for what one does.
pub fn placed_interaction(id: &str) -> (index: Option<usize>)
    ensures
        match interaction_of(id@) {
            Some(n) => if n <= usize::MAX {
                index == Some(n as usize)
            } else {
                index is None
            },
            None => index is None,
        },
{
    match text::strip_prefix(id, "action:") {
        Some(number) => text::parse_usize(number.as_str()),
        None => None,
    }
}

/// Every interaction is read back from the node that stands for what it does, and from none of
/// the nodes that stand for where interactions come from.
pub proof fn law_interactions_are_read_back(interactions: Seq<DataRow>, i: int)
    requires
        0 <= i < interactions.len(),
    ensures
        interaction_of(logic_nodes_of(interactions)[2 * i + 1].id) == Some(i as nat),
        interaction_of(logic_nodes_of(interactions)[2 * i].id) is None,
{
    let n = i as nat;
    let id = action_id(n);
    assert(id.skip("action:"@.len() as int) =~= text::decimal_text(n));
    assert(id.subrange(0, "action:"@.len() as int) =~= "action:"@);
    text::law_decimal_round_trip(n);
    text::lemma_decimal_digits(n);
    assert(text::is_digit(text::decimal_text(n)[0]));
    assert((2 * i + 1) / 2 == i);
    assert((2 * i) / 2 == i);
    reveal_strlit("action:");
    reveal_strlit("source:");
    let source = source_id(interactions[i].label@);
    assert(source[0] == 's');
    assert("action:"@[0] == 'a');
}

/// Where the graph layout put an interaction: its level, and which interaction it is.
#[derive(Clone, Copy, Debug)]
pub struct LogicPlacement {
    pub rank: usize,
    pub index: usize,
}

/// The rows of a component's interactions in the order in which the graph layout put them.
pub fn component_logic_rows(
    interactions: Option<&Vec<DataRow>>,
    placements: &Vec<LogicPlacement>,
) -> (rows: Vec<DataRow>)
    requires
        interactions is Some ==> forall|i: int|
            0 <= i < placements@.len() ==> (#[trigger] placements@[i]).index
                < interactions->0@.len() && placements@[i].rank < usize::MAX,
    ensures
        data_views(rows@) == (match interactions {
            None => seq![DataView { label: "No interactions"@, value: "Select a component"@ }],
            Some(list) => if list@.len() == 0 {
                seq![DataView { label: "No interactions"@, value: "Add one below"@ }]
            } else {
                Seq::new(
                    placements@.len(),
                    |i: int|
                        DataView {
                            label: "L"@ + text::decimal_text((placements@[i].rank + 1) as nat)
                                + " · "@ + list@[placements@[i].index as int].label@
                                + " · click"@,
                            value: list@[placements@[i].index as int].value@,
                        },
                )
            },
        }),
{
    let list = match interactions {
        None => return placeholder("No interactions", "Select a component"),
        Some(list) => list,
    };
    if list.len() == 0 {
        return placeholder("No interactions", "Add one below");
    }
    let ghost expected = Seq::new(
        placements@.len(),
        |i: int|
            DataView {
                label: "L"@ + text::decimal_text((placements@[i].rank + 1) as nat) + " · "@
                    + list@[placements@[i].index as int].label@ + " · click"@,
                value: list@[placements@[i].index as int].value@,
            },
    );
    let mut rows: Vec<DataRow> = Vec::new();
    let mut i: usize = 0;
    proof {
        assert(data_views(rows@) =~= expected.take(0));
    }
    while i < placements.len()
        invariant
            i <= placements.len(),
            expected.len() == placements@.len(),
            forall|k: int|
                0 <= k < placements@.len() ==> (#[trigger] placements@[k]).index < list@.len()
                    && placements@[k].rank < usize::MAX,
            forall|k: int|
                0 <= k < expected.len() ==> #[trigger] expected[k] == (DataView {
                    label: "L"@ + text::decimal_text((placements@[k].rank + 1) as nat) + " · "@
                        + list@[placements@[k].index as int].label@ + " · click"@,
                    value: list@[placements@[k].index as int].value@,
                }),
            data_views(rows@) == expected.take(i as int),
        decreases placements.len() - i,
    {
        let ghost was = rows@;
        let rank: usize = placements[i].rank;
        let index: usize = placements[i].index;
        let row = DataRow {
            label: text::join5(
                "L",
                text::decimal((rank + 1) as u64).as_str(),
                " · ",
                list[index].label.as_str(),
                " · click",
            ),
            value: list[index].value.clone(),
        };
        rows.push(row);
        proof {
            assert(row@ == expected[i as int]);
            assert(data_views(rows@) =~= data_views(was).push(row@));
            assert(expected.take(i as int + 1) =~= expected.take(i as int).push(row@));
        }
        i += 1;
    }
    proof {
        assert(expected.take(i as int) =~= expected);
    }
    rows
}

// ---------------------------------------------------------------------------
// Live states
// ---------------------------------------------------------------------------

/// One row of the live state panel.
#[derive(Debug)]
pub enum StateRow {
    /// A state that is on or off.
    Switch { name: String, label: String, on: bool },
    /// A state with any other value.
    Value { label: String, value: String },
}

/// What a row of the live state panel shows.
pub enum StateRowView {
    Switch { name: Seq<char>, label: Seq<char>, on: bool },
    Value { label: Seq<char>, value: Seq<char> },
}

impl View for StateRow {
    type V = StateRowView;

    open spec fn view(&self) -> StateRowView {
        match self {
            StateRow::Switch { name, label, on } => StateRowView::Switch {
                name: name@,
                label: label@,
                on: *on,
            },
            StateRow::Value { label, value } => StateRowView::Value { label: label@, value: value@ },
        }
    }
}

/// The row of one state: its running value, or its default where it does not run.
pub open spec fn state_row_of(state: ComponentState, values: Seq<StateValue>) -> StateRowView {
    let label = state.name@ + ": "@ + state.value_type@;
    let current = match runtime::state_of(values, state.name@) {
        Some(value) => value,
        None => state.default@,
    };
    if current == "true"@ || current == "false"@ {
        StateRowView::Switch { name: state.name@, label, on: current == "true"@ }
    } else {
        StateRowView::Value { label, value: current }
    }
}

/// The rows of the states in the live state panel.
pub fn live_state_rows(states: &Vec<ComponentState>, values: &Vec<StateValue>) -> (rows: Vec<
    StateRow,
>)
    ensures
        rows.len() == states.len(),
        forall|i: int|
            0 <= i < rows.len() ==> (#[trigger] rows[i])@ == state_row_of(states[i], values@),
{
    let mut rows: Vec<StateRow> = Vec::new();
    let mut i: usize = 0;
    while i < states.len()
        invariant
            i <= states.len(),
            rows.len() == i,
            forall|j: int|
                0 <= j < i ==> (#[trigger] rows[j])@ == state_row_of(states[j], values@),
        decreases states.len() - i,
    {
        let label = text::join3(states[i].name.as_str(), ": ", states[i].value_type.as_str());
        let current = match keyed::find(values, states[i].name.as_str()) {
            Some(k) => values[k].value.clone(),
            None => states[i].default.clone(),
        };
        let on = text::same_text(current.as_str(), "true");
        if on || text::same_text(current.as_str(), "false") {
            rows.push(StateRow::Switch { name: states[i].name.clone(), label, on });
        } else {
            rows.push(StateRow::Value { label, value: current });
        }
        i += 1;
    }
    rows
}

/// The rows of the properties in the live state panel.
pub fn live_prop_rows(props: &Vec<ComponentProp>) -> (rows: Vec<DataRow>)
    ensures
        rows.len() == props.len(),
        forall|i: int|
            0 <= i < rows.len() ==> (#[trigger] rows[i])@ == (DataView {
                label: props[i].name@ + ": "@ + props[i].value_type@,
                value: default_text(props[i]),
            }),
{
    let mut rows: Vec<DataRow> = Vec::new();
    let mut i: usize = 0;
    while i < props.len()
        invariant
            i <= props.len(),
            rows.len() == i,
            forall|j: int|
                0 <= j < i ==> (#[trigger] rows[j])@ == (DataView {
                    label: props[j].name@ + ": "@ + props[j].value_type@,
                    value: default_text(props[j]),
                }),
        decreases props.len() - i,
    {
        rows.push(
            DataRow {
                label: text::join3(props[i].name.as_str(), ": ", props[i].value_type.as_str()),
                value: default_label(&props[i]),
            },
        );
        i += 1;
    }
    rows
}

/// The rows of the variants in the live state panel.
pub fn live_variant_rows(variants: &Vec<components::ComponentVariant>) -> (rows: Vec<DataRow>)
    ensures
        rows.len() == variants.len(),
        forall|i: int|
            0 <= i < rows.len() ==> (#[trigger] rows[i])@ == (DataView {
                label: variants[i].id@ + " / "@ + variants[i].name@,
                value: text::decimal_text(variants[i].overrides@.len()) + " overrides"@,
            }),
{
    let mut rows: Vec<DataRow> = Vec::new();
    let mut i: usize = 0;
    while i < variants.len()
        invariant
            i <= variants.len(),
            rows.len() == i,
            forall|j: int|
                0 <= j < i ==> (#[trigger] rows[j])@ == (DataView {
                    label: variants[j].id@ + " / "@ + variants[j].name@,
                    value: text::decimal_text(variants[j].overrides@.len()) + " overrides"@,
                }),
        decreases variants.len() - i,
    {
        rows.push(
            DataRow {
                label: text::join3(variants[i].id.as_str(), " / ", variants[i].name.as_str()),
                value: text::join2(
                    text::decimal(variants[i].overrides.len() as u64).as_str(),
                    " overrides",
                ),
            },
        );
        i += 1;
    }
    rows
}

/// The rows of the rules in the live state panel.
pub fn live_logic_rows(logic: &Vec<ComponentLogic>) -> (rows: Vec<DataRow>)
    ensures
        data_views(rows@) == rule_rows_of(logic@),
{
    let mut rows: Vec<DataRow> = Vec::new();
    append_rules(logic, &mut rows);
    proof {
        assert(data_views(rows@) =~= rule_rows_of(logic@));
    }
    rows
}

/// A section of the live state panel; one without rows shows a dash.
pub fn state_panel_section(rows: Vec<DataRow>) -> (shown: Vec<DataRow>)
    ensures
        data_views(shown@) == (if rows@.len() == 0 {
            seq![DataView { label: "—"@, value: ""@ }]
        } else {
            data_views(rows@)
        }),
{
    if rows.len() == 0 {
        placeholder("—", "")
    } else {
        rows
    }
}

impl Authoring {
    /// Switches a state of a running component over; a component that does not run yet runs
    /// with this state alone.
    pub fn toggle_state(&mut self, component_id: &str, name: &str, on: bool)
        ensures
            *final(self) == (Authoring { runtime: final(self).runtime, ..*old(self) }),
            final(self).runs_anew(*old(self), component_id@),
            ({
                let entry = final(self).runtime@[keyed::first_key(
                    final(self).runtime@,
                    component_id@,
                    0,
                )->0];
                &&& runtime::state_of(entry.values@, name@) == Some(
                    if on {
                        "false"@
                    } else {
                        "true"@
                    },
                )
                &&& forall|other: Seq<char>|
                    other != name@ ==> #[trigger] runtime::state_of(entry.values@, other) == (
                    match keyed::first_key(old(self).runtime@, component_id@, 0) {
                        Some(i) => runtime::state_of(old(self).runtime@[i].values@, other),
                        None => None,
                    })
            }),
    {
        let mut values: Vec<StateValue> = match keyed::find(&self.runtime, component_id) {
            Some(i) => {
                let values = self.runtime[i].values.clone();
                proof {
                    assert(values@ =~= self.runtime@[i as int].values@);
                }
                values
            },
            None => Vec::new(),
        };
        let ghost before = values@;
        let value = StateValue {
            name: name.to_owned(),
            value: if on {
                "false".to_owned()
            } else {
                "true".to_owned()
            },
        };
        keyed::place(&mut values, value);
        proof {
            keyed::law_placed_item_is_found(before, value);
            assert forall|other: Seq<char>| other != name@ implies #[trigger] runtime::state_of(
                values@,
                other,
            ) == runtime::state_of(before, other) by {
                keyed::lemma_first_key(before, other, 0);
                keyed::lemma_first_key(before, name@, 0);
            }
        }
        let entry = ComponentRuntime { component_id: component_id.to_owned(), values };
        let ghost running = self.runtime@;
        keyed::place(&mut self.runtime, entry);
        proof {
            keyed::law_placed_item_is_found(running, entry);
        }
    }
}

// ---------------------------------------------------------------------------
// Comments
// ---------------------------------------------------------------------------

/// What a review state's badge says.
pub open spec fn badge_text(status: AnnotationStatus) -> Seq<char> {
    match status {
        AnnotationStatus::Open => "Open"@,
        AnnotationStatus::InProgress => "In progress"@,
        AnnotationStatus::Done => "Done"@,
        AnnotationStatus::Archived => "Archived"@,
    }
}

/// What a review state's badge says.
pub fn badge_label(status: AnnotationStatus) -> (out: &'static str)
    ensures
        out@ == badge_text(status),
{
    match status {
        AnnotationStatus::Open => "Open",
        AnnotationStatus::InProgress => "In progress",
        AnnotationStatus::Done => "Done",
        AnnotationStatus::Archived => "Archived",
    }
}

/// One comment in the drawer.
#[derive(Debug)]
pub struct DrawerRow {
    pub target: String,
    pub comment: String,
    pub status: AnnotationStatus,
}

/// What a comment in the drawer shows.
#[verifier::ext_equal]
pub struct DrawerView {
    pub target: Seq<char>,
    pub comment: Seq<char>,
    pub status: AnnotationStatus,
}

impl View for DrawerRow {
    type V = DrawerView;

    open spec fn view(&self) -> DrawerView {
        DrawerView { target: self.target@, comment: self.comment@, status: self.status }
    }
}

/// The comment as the drawer shows it.
pub open spec fn shown_comment(comment: Seq<char>) -> Seq<char> {
    if text::trimmed(comment).len() == 0 {
        "(empty)"@
    } else {
        comment
    }
}

/// The comments in the drawer: all but the archived ones, in order.
pub open spec fn drawer_rows_of(s: Seq<AnnotationView>) -> Seq<DrawerView>
    decreases s.len(),
{
    if s.len() == 0 {
        Seq::empty()
    } else {
        let before = drawer_rows_of(s.drop_last());
        let a = s.last();
        if a.status == AnnotationStatus::Archived {
            before
        } else {
            before.push(
                DrawerView {
                    target: "#"@ + a.target.authored_id,
                    comment: shown_comment(a.comment),
                    status: a.status,
                },
            )
        }
    }
}

/// The comments in the drawer.
pub fn annotations_drawer_rows(store: &AnnotationStore) -> (rows: Vec<DrawerRow>)
    ensures
        rows.len() == drawer_rows_of(store@.annotations).len(),
        forall|i: int|
            0 <= i < rows.len() ==> (#[trigger] rows[i])@ == drawer_rows_of(
                store@.annotations,
            )[i],
{
    let mut rows: Vec<DrawerRow> = Vec::new();
    let ghost all = store@.annotations;
    let mut i: usize = 0;
    while i < store.annotations.len()
        invariant
            i <= store.annotations.len(),
            all == store@.annotations,
            rows.len() == drawer_rows_of(all.take(i as int)).len(),
            forall|j: int|
                0 <= j < rows.len() ==> (#[trigger] rows[j])@ == drawer_rows_of(
                    all.take(i as int),
                )[j],
        decreases store.annotations.len() - i,
    {
        proof {
            assert(all.take(i as int + 1).drop_last() =~= all.take(i as int));
            assert(all.take(i as int + 1).last() == all[i as int]);
        }
        let annotation = &store.annotations[i];
        if annotation.status != AnnotationStatus::Archived {
            let comment = if text::trim(annotation.comment.as_str()).unicode_len() == 0 {
                "(empty)".to_owned()
            } else {
                annotation.comment.clone()
            };
            rows.push(
                DrawerRow {
                    target: text::join2("#", annotation.target.authored_id.as_str()),
                    comment,
                    status: annotation.status,
                },
            );
        }
        i += 1;
    }
    proof {
        assert(all.take(i as int) =~= all);
    }
    rows
}

// ---------------------------------------------------------------------------
// Library palette and document tabs
// ---------------------------------------------------------------------------

/// One component in the library palette.
#[derive(Debug)]
pub struct PaletteEntry {
    pub component_id: String,
    pub name: String,
    /// Whether it is the component that is edited.
    pub is_self: bool,
    /// Whether it can be placed and opened from here.
    pub enabled: bool,
    pub accessible_name: String,
}

/// The components in the library palette; `cycles` tells of each whether placing it in the
/// edited component would make a cycle.
pub fn component_palette(
    library: &ComponentLibrary,
    active: &Option<String>,
    cycles: &Vec<bool>,
) -> (entries: Vec<PaletteEntry>)
    requires
        cycles.len() == library.components.len(),
    ensures
        entries.len() == library.components.len(),
        forall|i: int|
            0 <= i < entries.len() ==> {
                let component = library.components@[i];
                let blocked = *active is Some && cycles@[i];
                &&& (#[trigger] entries[i]).component_id@ == component.id@
                &&& entries[i].name@ == component.name@
                &&& entries[i].is_self == (text::text_view(*active) == Some(component.id@))
                &&& entries[i].enabled == !blocked
                &&& entries[i].accessible_name@ == (if blocked {
                    component.name@ + " (unavailable: would cycle)"@
                } else {
                    "Open "@ + component.name@
                })
            },
{
    let mut entries: Vec<PaletteEntry> = Vec::new();
    let mut i: usize = 0;
    while i < library.components.len()
        invariant
            i <= library.components.len(),
            cycles.len() == library.components.len(),
            entries.len() == i,
            forall|j: int|
                0 <= j < i ==> {
                    let component = library.components@[j];
                    let blocked = *active is Some && cycles@[j];
                    &&& (#[trigger] entries[j]).component_id@ == component.id@
                    &&& entries[j].name@ == component.name@
                    &&& entries[j].is_self == (text::text_view(*active) == Some(component.id@))
                    &&& entries[j].enabled == !blocked
                    &&& entries[j].accessible_name@ == (if blocked {
                        component.name@ + " (unavailable: would cycle)"@
                    } else {
                        "Open "@ + component.name@
                    })
                },
        decreases library.components.len() - i,
    {
        let component = &library.components[i];
        let blocked = active.is_some() && cycles[i];
        let accessible_name = if blocked {
            text::join2(component.name.as_str(), " (unavailable: would cycle)")
        } else {
            text::join2("Open ", component.name.as_str())
        };
        entries.push(
            PaletteEntry {
                component_id: component.id.clone(),
                name: component.name.clone(),
                is_self: text::is_text(active, component.id.as_str()),
                enabled: !blocked,
                accessible_name,
            },
        );
        i += 1;
    }
    entries
}

impl Authoring {
    /// What a document's tab is called: the page goes by the root component's name, a
    /// component by its own; its ID where it is gone.
    pub open spec fn tab_label_of(&self, id: DocumentId) -> Seq<char> {
        match id {
            DocumentId::Main => if self.library.components@.len() > 0 {
                self.library.components@[0].name@
            } else {
                "Main"@
            },
            DocumentId::Component(component) => self.display_name(component@),
        }
    }

    /// What a document's tab is called.
    pub fn tab_label(&self, id: &DocumentId) -> (out: String)
        ensures
            out@ == self.tab_label_of(*id),
    {
        match id {
            DocumentId::Main => if self.library.components.len() > 0 {
                self.library.components[0].name.clone()
            } else {
                "Main".to_owned()
            },
            DocumentId::Component(component) => self.component_display_name(component.as_str()),
        }
    }
}

/// The semantic ID of a document's tab.
pub fn tab_id(id: &DocumentId) -> (out: String)
    ensures
        out@ == "document-tab/"@ + (match *id {
            DocumentId::Main => "main"@,
            DocumentId::Component(component) => component@,
        }),
{
    match id {
        DocumentId::Main => text::join2("document-tab/", "main"),
        DocumentId::Component(component) => text::join2("document-tab/", component.as_str()),
    }
}

/// Whether two documents are the same.
pub fn same_document(a: &DocumentId, b: &DocumentId) -> (same: bool)
    ensures
        same == (match (*a, *b) {
            (DocumentId::Main, DocumentId::Main) => true,
            (DocumentId::Component(x), DocumentId::Component(y)) => x@ == y@,
            _ => false,
        }),
{
    match (a, b) {
        (DocumentId::Main, DocumentId::Main) => true,
        (DocumentId::Component(x), DocumentId::Component(y)) => text::same_text(
            x.as_str(),
            y.as_str(),
        ),
        _ => false,
    }
}

// ---------------------------------------------------------------------------
// Themes
// ---------------------------------------------------------------------------

/// Whether a theme is light or dark.
#[derive(Clone, Copy, Debug, PartialEq, Eq, Structural)]
pub enum ThemeMode {
    Light,
    Dark,
}

/// One theme on offer.
#[derive(Debug)]
pub struct ThemeVariant {
    pub name: String,
    pub mode: ThemeMode,
}

impl ThemeVariant {
    /// What the theme is called.
    pub open spec fn label_text(&self) -> Seq<char> {
        self.name@ + " · "@ + (match self.mode {
            ThemeMode::Light => "Light"@,
            ThemeMode::Dark => "Dark"@,
        })
    }

    /// Whether this theme is the chosen one: the same name, up to case and outer white space,
    /// and the same mode.
    pub open spec fn is_chosen(&self, chosen: ThemeVariant) -> bool {
        text::same_ignoring_case(self.name@, text::trimmed(chosen.name@)) && self.mode
            == chosen.mode
    }

    /// What the theme is called.
    pub fn theme_variant_label(&self) -> (out: String)
        ensures
            out@ == self.label_text(),
    {
        text::join3(
            self.name.as_str(),
            " · ",
            match self.mode {
                ThemeMode::Light => "Light",
                ThemeMode::Dark => "Dark",
            },
        )
    }

    /// Whether this theme is the chosen one.
    pub fn selected(&self, chosen: &ThemeVariant) -> (result: bool)
        ensures
            result == self.is_chosen(*chosen),
    {
        text::eq_ignoring_case(self.name.as_str(), text::trim(chosen.name.as_str())) && self.mode
            == chosen.mode
    }
}

/// The position of the first theme, from position `from` on, that is the chosen one.
pub open spec fn chosen_theme(available: Seq<ThemeVariant>, chosen: ThemeVariant, from: int) -> Option<
    int,
>
    decreases available.len() - from,
{
    if from < 0 || from >= available.len() {
        None
    } else if available[from].is_chosen(chosen) {
        Some(from)
    } else {
        chosen_theme(available, chosen, from + 1)
    }
}

/// What the theme list shows while closed: the chosen theme's label.
pub fn active_theme_label(available: &Vec<ThemeVariant>, chosen: &ThemeVariant) -> (out: String)
    ensures
        out@ == (match chosen_theme(available@, *chosen, 0) {
            Some(i) => available@[i].label_text(),
            None => "Default"@,
        }),
{
    let mut i: usize = 0;
    while i < available.len()
        invariant
            i <= available.len(),
            chosen_theme(available@, *chosen, 0) == chosen_theme(available@, *chosen, i as int),
        decreases available.len() - i,
    {
        if available[i].selected(chosen) {
            return available[i].theme_variant_label();
        }
        i += 1;
    }
    "Default".to_owned()
}

// ---------------------------------------------------------------------------
// Event trace
// ---------------------------------------------------------------------------

/// A number with at least two digits.
pub open spec fn two_digits(n: nat) -> Seq<char> {
    text::zero_padded(text::decimal_text(n), 2)
}

/// The time of day of a moment in milliseconds: hours, minutes and seconds.
pub open spec fn clock_text(timestamp_ms: nat) -> Seq<char> {
    let seconds = (timestamp_ms / 1000) % 86_400;
    two_digits(seconds / 3_600) + ":"@ + two_digits((seconds % 3_600) / 60) + ":"@ + two_digits(
        seconds % 60,
    )
}

fn pad_two(n: u64) -> (out: String)
    ensures
        out@ == two_digits(n as nat),
{
    text::pad_zeros(text::decimal(n).as_str(), 2)
}

/// The time of day of a moment in milliseconds.
pub fn clock(timestamp_ms: u64) -> (out: String)
    ensures
        out@ == clock_text(timestamp_ms as nat),
{
    let seconds: u64 = (timestamp_ms / 1000) % 86_400;
    text::join5(
        pad_two(seconds / 3_600).as_str(),
        ":",
        pad_two((seconds % 3_600) / 60).as_str(),
        ":",
        pad_two(seconds % 60).as_str(),
    )
}

/// The text with each character in upper case.
pub open spec fn capitals(s: Seq<char>) -> Seq<char>
    decreases s.len(),
{
    if s.len() == 0 {
        s
    } else {
        capitals(s.drop_last()) + text::uppercase_of(s.last())
    }
}

/// The label of an event's level.
pub fn level_label(level: &str) -> (out: String)
    ensures
        out@ == capitals(level@),
{
    let cs = text::chars_of(level);
    let mut out = String::new();
    let mut i: usize = 0;
    while i < cs.len()
        invariant
            i <= cs.len(),
            cs@ == level@,
            out@ == capitals(level@.take(i as int)),
        decreases cs.len() - i,
    {
        proof {
            assert(level@.take(i as int + 1).drop_last() =~= level@.take(i as int));
            assert(level@.take(i as int + 1).last() == level@[i as int]);
        }
        let upper = text::uppercase(cs[i]);
        out.append(upper.as_str());
        i += 1;
    }
    proof {
        assert(level@.take(i as int) =~= level@);
    }
    out
}

/// The color of an event's level.
pub fn level_color(level: &str) -> (color: u32)
    ensures
        color == (if level@ == "error"@ {
            0xe8_62_6fu32
        } else if level@ == "warn"@ {
            0xf3_a3_4du32
        } else if level@ == "debug"@ {
            0x67_6d_7au32
        } else {
            0x6e_7b_ffu32
        }),
{
    if text::same_text(level, "error") {
        0xe8_62_6f
    } else if text::same_text(level, "warn") {
        0xf3_a3_4d
    } else if text::same_text(level, "debug") {
        0x67_6d_7a
    } else {
        0x6e_7b_ff
    }
}

/// Whether the trace stays at its latest entry: reaching the bottom pins it, and scrolling
/// toward older entries releases it.
pub fn console_pin(pinned: bool, at_bottom: bool, scrolled_up: bool) -> (result: bool)
    ensures
        result == (if scrolled_up {
            false
        } else {
            pinned || at_bottom
        }),
{
    if scrolled_up {
        false
    } else {
        pinned || at_bottom
    }
}

// ---------------------------------------------------------------------------
// What the rows say
// ---------------------------------------------------------------------------

/// Each property has a row at its place with its name, its type and its default, and one without
/// a default is required; without properties one row says so.
pub proof fn law_properties_have_rows(props: Seq<ComponentProp>, i: int)
    ensures
        props.len() > 0 ==> prop_rows_of(props).len() == props.len(),
        0 <= i < props.len() ==> prop_rows_of(props)[i].label == props[i].name@,
        0 <= i < props.len() && props[i].default is Some ==> prop_rows_of(props)[i].value
            == props[i].value_type@ + " · "@ + props[i].default->0@,
        0 <= i < props.len() && props[i].default is None ==> prop_rows_of(props)[i].value
            == props[i].value_type@ + " · "@ + "required"@,
        props.len() == 0 ==> prop_rows_of(props).len() == 1 && prop_rows_of(props)[0].label
            == "No public props"@,
{
}

/// Each state, each variant, each slot and each token has a row at its place that names it and
/// says what it holds.
pub proof fn law_definitions_have_rows(
    states: Seq<ComponentState>,
    variants: Seq<components::ComponentVariant>,
    slots: Seq<components::ComponentSlot>,
    tokens: Seq<components::DesignToken>,
    i: int,
)
    ensures
        0 <= i < states.len() ==> state_rows_of(states).len() == states.len() && state_rows_of(
            states,
        )[i].label == states[i].name@ && state_rows_of(states)[i].value == states[i].value_type@
            + " · "@ + states[i].default@,
        0 <= i < variants.len() ==> variant_rows_of(variants).len() == variants.len()
            && variant_rows_of(variants)[i].label == variants[i].name@ && variant_rows_of(
            variants,
        )[i].value == variants[i].id@ + " · "@ + text::decimal_text(variants[i].overrides@.len())
            + " overrides"@,
        0 <= i < slots.len() ==> slot_rows_of(slots).len() == slots.len() && slot_rows_of(
            slots,
        )[i].label == slots[i].name@,
        0 <= i < slots.len() && slots[i].multiple ==> slot_rows_of(slots)[i].value
            == slots[i].node_id@ + " · "@ + "many"@,
        0 <= i < slots.len() && !slots[i].multiple ==> slot_rows_of(slots)[i].value
            == slots[i].node_id@ + " · "@ + "single"@,
        0 <= i < tokens.len() ==> token_rows_of(tokens).len() == tokens.len() && token_rows_of(
            tokens,
        )[i].label == tokens[i].path@ && token_rows_of(tokens)[i].value == (match tokens[i].kind {
            DesignTokenKind::Color => "Color"@,
            DesignTokenKind::Number => "Number"@,
            DesignTokenKind::Typography => "Typography"@,
            DesignTokenKind::String => "String"@,
        }) + " · "@ + tokens[i].value@,
        states.len() == 0 ==> state_rows_of(states).len() == 1 && state_rows_of(states)[0].label
            == "No local state"@,
        variants.len() == 0 ==> variant_rows_of(variants).len() == 1 && variant_rows_of(
            variants,
        )[0].label == "No variants"@,
        slots.len() == 0 ==> slot_rows_of(slots).len() == 1 && slot_rows_of(slots)[0].label
            == "No slots"@,
        tokens.len() == 0 ==> token_rows_of(tokens).len() == 1 && token_rows_of(tokens)[0].label
            == "No tokens"@,
{
}

/// The actions of a tree stand in the order of its nodes, a parent's before its children's, and a
/// node without one has no row.
pub proof fn law_actions_follow_the_nodes(
    node: NativeNode,
    left: Seq<NativeNode>,
    right: Seq<NativeNode>,
)
    ensures
        node.action is None ==> node_actions_of(node) == forest_actions_of(node.children@),
        node.action matches Some(action) ==> {
            let rows = node_actions_of(node);
            &&& rows.len() > 0
            &&& rows[0].label == node.id@
            &&& rows[0].value == action@
            &&& rows.skip(1) == forest_actions_of(node.children@)
        },
        forest_actions_of(Seq::empty()).len() == 0,
        forest_actions_of(seq![node]) == node_actions_of(node),
        forest_actions_of(left + right) == forest_actions_of(left) + forest_actions_of(right),
{
    let below = forest_actions_of(node.children@);
    let rows = node_actions_of(node);
    if node.action is Some {
        assert(rows.skip(1) =~= below);
    }
    let none = Seq::<NativeNode>::empty();
    assert(seq![node].drop_last() =~= none);
    assert(forest_actions_of(none) =~= Seq::<DataView>::empty());
    assert(forest_actions_of(seq![node]) =~= node_actions_of(node));
    lemma_actions_add_up(left, right);
}

proof fn lemma_actions_add_up(left: Seq<NativeNode>, right: Seq<NativeNode>)
    ensures
        forest_actions_of(left + right) == forest_actions_of(left) + forest_actions_of(right),
    decreases right.len(),
{
    if right.len() == 0 {
        assert(left + right =~= left);
        assert(forest_actions_of(left) + forest_actions_of(right) =~= forest_actions_of(left));
    } else {
        lemma_actions_add_up(left, right.drop_last());
        assert((left + right).drop_last() =~= left + right.drop_last());
        assert(forest_actions_of(left + right) =~= forest_actions_of(left) + forest_actions_of(
            right,
        ));
    }
}

/// Each rule has a row at its place with the node it starts from and its action, and with the
/// state that it sets behind an arrow where it sets one.
pub proof fn law_rules_have_rows(logic: Seq<ComponentLogic>, i: int)
    requires
        0 <= i < logic.len(),
    ensures
        rule_rows_of(logic).len() == logic.len(),
        rule_rows_of(logic)[i].label == logic[i].source_node@,
        logic[i].target_state is None ==> rule_rows_of(logic)[i].value == logic[i].action@,
        logic[i].target_state is Some ==> rule_rows_of(logic)[i].value == logic[i].action@ + " → "@
            + logic[i].target_state->0@,
{
}

/// The graph has for each interaction a node for where it comes from, a node for what it does
/// right behind it, and an edge from the first to the second.
pub proof fn law_interactions_are_drawn(interactions: Seq<DataRow>, i: int)
    requires
        0 <= i < interactions.len(),
    ensures
        ({
            let nodes = logic_nodes_of(interactions);
            let edges = logic_edges_of(interactions);
            &&& nodes.len() == 2 * interactions.len()
            &&& edges.len() == interactions.len()
            &&& nodes[2 * i].id == "source:"@ + interactions[i].label@
            &&& nodes[2 * i + 1].id == "action:"@ + text::decimal_text(i as nat)
            &&& nodes[2 * i].width == 112 && nodes[2 * i].height == 36
            &&& nodes[2 * i + 1].width == 148 && nodes[2 * i + 1].height == 36
            &&& edges[i].id == "edge:"@ + text::decimal_text(i as nat)
            &&& edges[i].from == nodes[2 * i].id
            &&& edges[i].to == nodes[2 * i + 1].id
        }),
{
    assert((2 * i) % 2 == 0 && (2 * i) / 2 == i);
    assert((2 * i + 1) % 2 == 1 && (2 * i + 1) / 2 == i);
}

/// A state is shown with its running value where it runs and with its default where it does not:
/// a truth value as a switch, everything else as it stands.
pub proof fn law_states_are_shown_as_they_run(state: ComponentState, values: Seq<StateValue>)
    ensures
        ({
            let row = state_row_of(state, values);
            let running = runtime::state_of(values, state.name@);
            let shown = if running is Some {
                running->0
            } else {
                state.default@
            };
            let label = state.name@ + ": "@ + state.value_type@;
            &&& shown == "true"@ ==> row == (StateRowView::Switch {
                name: state.name@,
                label,
                on: true,
            })
            &&& shown == "false"@ ==> row == (StateRowView::Switch {
                name: state.name@,
                label,
                on: false,
            })
            &&& shown != "true"@ && shown != "false"@ ==> row == (StateRowView::Value {
                label,
                value: shown,
            })
        }),
{
    reveal_strlit("true");
    reveal_strlit("false");
    assert("true"@.len() == 4 && "false"@.len() == 5);
}

/// The drawer shows every comment but the archived ones, in order, with its element and its
/// state; a comment of white space alone is shown as empty.
pub proof fn law_drawer_shows_what_is_not_archived(s: Seq<AnnotationView>, next: AnnotationView)
    ensures
        drawer_rows_of(Seq::empty()).len() == 0,
        next.status is Archived ==> drawer_rows_of(s.push(next)) == drawer_rows_of(s),
        !(next.status is Archived) ==> {
            let rows = drawer_rows_of(s.push(next));
            &&& rows.len() == drawer_rows_of(s).len() + 1
            &&& rows.drop_last() == drawer_rows_of(s)
            &&& rows.last().target == "#"@ + next.target.authored_id
            &&& rows.last().status == next.status
            &&& text::trimmed(next.comment).len() > 0 ==> rows.last().comment == next.comment
            &&& text::trimmed(next.comment).len() == 0 ==> rows.last().comment == "(empty)"@
        },
{
    assert(s.push(next).drop_last() =~= s);
    if !(next.status is Archived) {
        assert(drawer_rows_of(s.push(next)).drop_last() =~= drawer_rows_of(s));
    }
}

/// The chosen theme is the first one of the mode whose name is the chosen one's, up to case and
/// to white space around what was chosen.
pub proof fn law_first_fitting_theme_is_chosen(
    available: Seq<ThemeVariant>,
    chosen: ThemeVariant,
    from: int,
    i: int,
)
    requires
        0 <= from <= i <= available.len(),
        i < available.len() ==> available[i].mode == chosen.mode && text::same_ignoring_case(
            available[i].name@,
            text::trimmed(chosen.name@),
        ),
        forall|j: int|
            from <= j < i ==> (#[trigger] available[j]).mode != chosen.mode
                || !text::same_ignoring_case(available[j].name@, text::trimmed(chosen.name@)),
    ensures
        chosen_theme(available, chosen, from) == (if i < available.len() {
            Some(i)
        } else {
            None
        }),
    decreases i - from,
{
    if from < i {
        assert(available[from].mode != chosen.mode || !text::same_ignoring_case(
            available[from].name@,
            text::trimmed(chosen.name@),
        ));
        law_first_fitting_theme_is_chosen(available, chosen, from + 1, i);
    }
}

/// A moment shows its hour, minute and second of the day, two digits each, whatever the day and
/// the fraction of the second.
pub proof fn law_clock_shows_the_time_of_day(day: nat, h: nat, m: nat, s: nat, ms: nat)
    requires
        h < 24,
        m < 60,
        s < 60,
        ms < 1000,
    ensures
        ({
            let moment = (((day * 24 + h) * 60 + m) * 60 + s) * 1000 + ms;
            clock_text(moment as nat) == text::zero_padded(text::decimal_text(h), 2) + ":"@
                + text::zero_padded(text::decimal_text(m), 2) + ":"@ + text::zero_padded(
                text::decimal_text(s),
                2,
            )
        }),
{
    let seconds = h * 3600 + m * 60 + s;
    let whole = ((day * 24 + h) * 60 + m) * 60 + s;
    assert(whole == day * 86400 + seconds);
    let moment = whole * 1000 + ms;
    assert(moment / 1000 == whole);
    assert(whole % 86400 == seconds) by (nonlinear_arith)
        requires
            whole == day * 86400 + seconds,
            0 <= seconds < 86400,
    ;
    assert(seconds / 3600 == h);
    assert(seconds % 3600 == m * 60 + s);
    assert((m * 60 + s) / 60 == m);
    assert(seconds % 60 == s);
}

/// Each character of a text is made a capital where it stands.
pub proof fn law_capitals_one_by_one(a: Seq<char>, c: char, b: Seq<char>)
    ensures
        capitals(Seq::empty()).len() == 0,
        capitals(a.push(c)) == capitals(a) + text::uppercase_of(c),
        capitals(a + b) == capitals(a) + capitals(b),
    decreases b.len(),
{
    assert(a.push(c).drop_last() =~= a);
    if b.len() == 0 {
        assert(a + b =~= a);
        assert(capitals(a) + capitals(b) =~= capitals(a));
    } else {
        law_capitals_one_by_one(a, c, b.drop_last());
        assert((a + b).drop_last() =~= a + b.drop_last());
        assert((a + b).last() == b.last());
        assert(capitals(a + b) =~= capitals(a) + capitals(b));
    }
}

/// The tab of the page goes by the first component's name, the tab of a component by its own.
pub proof fn law_tabs_go_by_component_names(authoring: Authoring, id: String)
    ensures
        authoring.library.components@.len() > 0 ==> authoring.tab_label_of(DocumentId::Main)
            == authoring.library.components@[0].name@,
        authoring.library.components@.len() == 0 ==> authoring.tab_label_of(DocumentId::Main)
            == "Main"@,
        authoring.tab_label_of(DocumentId::Component(id)) == authoring.display_name(id@),
{
}

/// Each review state has its badge.
pub proof fn law_badges_are_named(x: AnnotationStatus)
    ensures
        x is Open ==> badge_text(x) == "Open"@,
        x is InProgress ==> badge_text(x) == "In progress"@,
        x is Done ==> badge_text(x) == "Done"@,
        x is Archived ==> badge_text(x) == "Archived"@,
{
}

} // verus!
