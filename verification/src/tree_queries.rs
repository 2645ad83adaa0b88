//! Looking up nodes of a component's tree: by ID, by place, and by subtree.
use vstd::prelude::*;

use crate::components;
use crate::components::NativeNode;
use crate::keyed;
use crate::keyed::Keyed;
use crate::text;

verus! {

impl Keyed for NativeNode {
    open spec fn key(&self) -> Seq<char> {
        self.id@
    }

    fn key_text(&self) -> (out: &str) {
        self.id.as_str()
    }
}

/// The first node of a tree with this ID, parents before children.
pub open spec fn node_in(node: NativeNode, id: Seq<char>) -> Option<NativeNode>
    decreases node,
{
    if node.id@ == id {
        Some(node)
    } else {
        node_among(node.children@, id)
    }
}

/// The first node of a row of trees with this ID.
pub open spec fn node_among(nodes: Seq<NativeNode>, id: Seq<char>) -> Option<NativeNode>
    decreases nodes,
{
    if nodes.len() == 0 {
        None
    } else {
        match node_among(nodes.drop_last(), id) {
            Some(node) => Some(node),
            None => node_in(nodes.last(), id),
        }
    }
}

/// The first node of a tree with this ID, parents before children.
pub fn find_node<'a>(node: &'a NativeNode, id: &str) -> (found: Option<&'a NativeNode>)
    ensures
        match node_in(*node, id@) {
            Some(n) => found is Some && *found->0 == n,
            None => found is None,
        },
    decreases node,
{
    if text::same_text(node.id.as_str(), id) {
        return Some(node);
    }
    let mut i: usize = 0;
    while i < node.children.len()
        invariant
            i <= node.children.len(),
            node_among(node.children@.take(i as int), id@) is None,
            node.id@ != id@,
        decreases node.children.len() - i,
    {
        let ghost taken = node.children@.take(i as int + 1);
        proof {
            assert(taken.drop_last() =~= node.children@.take(i as int));
            assert(taken.last() == node.children@[i as int]);
        }
        match find_node(&node.children[i], id) {
            Some(found) => {
                proof {
                    lemma_found_early(node.children@, i as int + 1, id@);
                }
                return Some(found);
            },
            None => {},
        }
        i += 1;
    }
    proof {
        assert(node.children@.take(i as int) =~= node.children@);
    }
    None
}

proof fn lemma_found_early(nodes: Seq<NativeNode>, count: int, id: Seq<char>)
    requires
        0 <= count <= nodes.len(),
        node_among(nodes.take(count), id) is Some,
    ensures
        node_among(nodes, id) == node_among(nodes.take(count), id),
    decreases nodes.len() - count,
{
    if count == nodes.len() {
        assert(nodes.take(count) =~= nodes);
    } else {
        let more = nodes.take(count + 1);
        assert(more.drop_last() =~= nodes.take(count));
        lemma_found_early(nodes, count + 1, id);
    }
}

/// A tree has a node with an ID just when the ID is among the tree's IDs, and the node that
/// is found has it.
pub proof fn law_listed_nodes_are_found(node: NativeNode, id: Seq<char>)
    ensures
        node_in(node, id) is Some <==> components::node_ids(node).contains(id),
        node_in(node, id) is Some ==> node_in(node, id)->0.id@ == id,
    decreases node,
{
    lemma_listed_among(node.children@, id);
    let ids = components::node_ids(node);
    let below = components::forest_ids(node.children@);
    if node.id@ == id {
        assert(ids[0] == id);
    } else {
        if below.contains(id) {
            let i = choose|i: int| 0 <= i < below.len() && below[i] == id;
            assert(ids[i + 1] == id);
        }
        if ids.contains(id) {
            let i = choose|i: int| 0 <= i < ids.len() && ids[i] == id;
            assert(i > 0);
            assert(below[i - 1] == id);
        }
    }
}

proof fn lemma_listed_among(nodes: Seq<NativeNode>, id: Seq<char>)
    ensures
        node_among(nodes, id) is Some <==> components::forest_ids(nodes).contains(id),
        node_among(nodes, id) is Some ==> node_among(nodes, id)->0.id@ == id,
    decreases nodes,
{
    if nodes.len() > 0 {
        let rest = nodes.drop_last();
        lemma_listed_among(rest, id);
        law_listed_nodes_are_found(nodes.last(), id);
        let front = components::forest_ids(rest);
        let back = components::node_ids(nodes.last());
        let all = components::forest_ids(nodes);
        if front.contains(id) {
            let i = choose|i: int| 0 <= i < front.len() && front[i] == id;
            assert(all[i] == id);
        }
        if back.contains(id) {
            let i = choose|i: int| 0 <= i < back.len() && back[i] == id;
            assert(all[front.len() + i] == id);
        }
        if all.contains(id) {
            let i = choose|i: int| 0 <= i < all.len() && all[i] == id;
            if i < front.len() {
                assert(front[i] == id);
            } else {
                assert(back[i - front.len()] == id);
            }
        }
    }
}

/// Whether the tree has a node with this ID.
pub fn has_node(node: &NativeNode, id: &str) -> (result: bool)
    ensures
        result == components::node_ids(*node).contains(id@),
{
    proof {
        law_listed_nodes_are_found(*node, id@);
    }
    find_node(node, id).is_some()
}

// ---------------------------------------------------------------------------
// Places
// ---------------------------------------------------------------------------

/// A place among the children of a node.
#[derive(Debug)]
pub struct TreePlace {
    pub parent: String,
    pub index: usize,
}

/// What a place says.
#[verifier::ext_equal]
pub struct PlaceView {
    pub parent: Seq<char>,
    pub index: int,
}

impl View for TreePlace {
    type V = PlaceView;

    open spec fn view(&self) -> PlaceView {
        PlaceView { parent: self.parent@, index: self.index as int }
    }
}

/// What an optional place says.
pub open spec fn place_view(place: Option<TreePlace>) -> Option<PlaceView> {
    match place {
        Some(place) => Some(place@),
        None => None,
    }
}

/// Where the node with this ID stands among the children of its parent; the tree's own root
/// stands nowhere.
pub open spec fn place_in(node: NativeNode, id: Seq<char>) -> Option<PlaceView>
    decreases node,
{
    match keyed::first_key(node.children@, id, 0) {
        Some(i) => Some(PlaceView { parent: node.id@, index: i }),
        None => place_among(node.children@, id),
    }
}

/// Where the node with this ID stands below one of these trees.
pub open spec fn place_among(nodes: Seq<NativeNode>, id: Seq<char>) -> Option<PlaceView>
    decreases nodes,
{
    if nodes.len() == 0 {
        None
    } else {
        match place_among(nodes.drop_last(), id) {
            Some(place) => Some(place),
            None => place_in(nodes.last(), id),
        }
    }
}

proof fn lemma_placed_early(nodes: Seq<NativeNode>, count: int, id: Seq<char>)
    requires
        0 <= count <= nodes.len(),
        place_among(nodes.take(count), id) is Some,
    ensures
        place_among(nodes, id) == place_among(nodes.take(count), id),
    decreases nodes.len() - count,
{
    if count == nodes.len() {
        assert(nodes.take(count) =~= nodes);
    } else {
        let more = nodes.take(count + 1);
        assert(more.drop_last() =~= nodes.take(count));
        lemma_placed_early(nodes, count + 1, id);
    }
}

/// Where the node with this ID stands among the children of its parent.
pub fn parent_and_index(node: &NativeNode, id: &str) -> (place: Option<TreePlace>)
    ensures
        place_view(place) == place_in(*node, id@),
    decreases node,
{
    match keyed::find(&node.children, id) {
        Some(index) => {
            return Some(TreePlace { parent: node.id.clone(), index });
        },
        None => {},
    }
    let mut i: usize = 0;
    while i < node.children.len()
        invariant
            i <= node.children.len(),
            keyed::first_key(node.children@, id@, 0) is None,
            place_among(node.children@.take(i as int), id@) is None,
        decreases node.children.len() - i,
    {
        let ghost taken = node.children@.take(i as int + 1);
        proof {
            assert(taken.drop_last() =~= node.children@.take(i as int));
            assert(taken.last() == node.children@[i as int]);
        }
        let found = parent_and_index(&node.children[i], id);
        if found.is_some() {
            proof {
                lemma_placed_early(node.children@, i as int + 1, id@);
            }
            return found;
        }
        i += 1;
    }
    proof {
        assert(node.children@.take(i as int) =~= node.children@);
    }
    None
}

/// Every node below the root has a place, and only those have one.
pub proof fn law_nodes_below_the_root_have_places(node: NativeNode, id: Seq<char>)
    ensures
        place_in(node, id) is Some <==> components::forest_ids(node.children@).contains(id),
    decreases node,
{
    let children = node.children@;
    keyed::lemma_first_key(children, id, 0);
    lemma_places_among(children, id);
    match keyed::first_key(children, id, 0) {
        Some(i) => {
            lemma_child_is_listed(children, i);
        },
        None => {},
    }
}

proof fn lemma_child_is_listed(nodes: Seq<NativeNode>, i: int)
    requires
        0 <= i < nodes.len(),
    ensures
        components::forest_ids(nodes).contains(nodes[i].id@),
    decreases nodes.len(),
{
    let rest = nodes.drop_last();
    let front = components::forest_ids(rest);
    let all = components::forest_ids(nodes);
    if i < rest.len() {
        lemma_child_is_listed(rest, i);
        let k = choose|k: int| 0 <= k < front.len() && front[k] == nodes[i].id@;
        assert(all[k] == nodes[i].id@);
    } else {
        assert(components::node_ids(nodes.last())[0] == nodes[i].id@);
        assert(all[front.len() as int] == nodes[i].id@);
    }
}

proof fn lemma_places_among(nodes: Seq<NativeNode>, id: Seq<char>)
    ensures
        place_among(nodes, id) is Some ==> components::forest_ids(nodes).contains(id),
        components::forest_ids(nodes).contains(id) && keyed::first_key(nodes, id, 0) is None
            ==> place_among(nodes, id) is Some,
    decreases nodes,
{
    if nodes.len() > 0 {
        let rest = nodes.drop_last();
        let last = nodes.last();
        lemma_places_among(rest, id);
        law_nodes_below_the_root_have_places(last, id);
        keyed::lemma_first_key(nodes, id, 0);
        keyed::lemma_first_key(rest, id, 0);
        let front = components::forest_ids(rest);
        let below = components::forest_ids(last.children@);
        let back = components::node_ids(last);
        let all = components::forest_ids(nodes);
        if front.contains(id) {
            let k = choose|k: int| 0 <= k < front.len() && front[k] == id;
            assert(all[k] == id);
        }
        if below.contains(id) {
            let k = choose|k: int| 0 <= k < below.len() && below[k] == id;
            assert(back[k + 1] == id);
            assert(all[front.len() + k + 1] == id);
        }
        if keyed::first_key(nodes, id, 0) is None {
            assert(nodes[nodes.len() - 1] == last);
            match keyed::first_key(rest, id, 0) {
                Some(i) => {
                    assert(nodes[i] == rest[i]);
                },
                None => {},
            }
            if all.contains(id) {
                let k = choose|k: int| 0 <= k < all.len() && all[k] == id;
                if k < front.len() {
                    assert(front[k] == id);
                } else {
                    assert(back[k - front.len()] == id);
                    assert(k > front.len());
                    assert(below[k - front.len() - 1] == id);
                }
            }
        }
    }
}

proof fn lemma_distinct_parts(nodes: Seq<NativeNode>)
    requires
        nodes.len() > 0,
        components::forest_ids(nodes).no_duplicates(),
    ensures
        components::forest_ids(nodes.drop_last()).no_duplicates(),
        components::node_ids(nodes.last()).no_duplicates(),
        forall|id: Seq<char>|
            #![trigger components::forest_ids(nodes.drop_last()).contains(id)]
            #![trigger components::node_ids(nodes.last()).contains(id)]
            !(components::forest_ids(nodes.drop_last()).contains(id) && components::node_ids(
                nodes.last(),
            ).contains(id)),
{
    let front = components::forest_ids(nodes.drop_last());
    let back = components::node_ids(nodes.last());
    let all = components::forest_ids(nodes);
    assert forall|i: int, j: int| 0 <= i < front.len() && 0 <= j < front.len() && i != j implies front[i]
        != front[j] by {
        assert(all[i] == front[i] && all[j] == front[j]);
    }
    assert forall|i: int, j: int| 0 <= i < back.len() && 0 <= j < back.len() && i != j implies back[i]
        != back[j] by {
        assert(all[front.len() + i] == back[i] && all[front.len() + j] == back[j]);
    }
    assert forall|id: Seq<char>| front.contains(id) && back.contains(id) implies false by {
        let i = choose|i: int| 0 <= i < front.len() && front[i] == id;
        let j = choose|j: int| 0 <= j < back.len() && back[j] == id;
        assert(all[i] == id && all[front.len() + j] == id);
    }
}

proof fn lemma_distinct_below(node: NativeNode)
    requires
        components::node_ids(node).no_duplicates(),
    ensures
        components::forest_ids(node.children@).no_duplicates(),
        !components::forest_ids(node.children@).contains(node.id@),
{
    let below = components::forest_ids(node.children@);
    let all = components::node_ids(node);
    assert forall|i: int, j: int| 0 <= i < below.len() && 0 <= j < below.len() && i != j implies below[i]
        != below[j] by {
        assert(all[i + 1] == below[i] && all[j + 1] == below[j]);
    }
    if below.contains(node.id@) {
        let i = choose|i: int| 0 <= i < below.len() && below[i] == node.id@;
        assert(all[i + 1] == node.id@ && all[0] == node.id@);
    }
}

proof fn lemma_children_differ(nodes: Seq<NativeNode>, i: int, j: int)
    requires
        0 <= i < j < nodes.len(),
        components::forest_ids(nodes).no_duplicates(),
    ensures
        nodes[i].id@ != nodes[j].id@,
    decreases nodes.len(),
{
    lemma_distinct_parts(nodes);
    let rest = nodes.drop_last();
    if j < rest.len() {
        lemma_children_differ(rest, i, j);
    } else {
        lemma_child_is_listed(rest, i);
        assert(components::node_ids(nodes.last())[0] == nodes[j].id@);
    }
}

proof fn lemma_child_has_its_place(node: NativeNode, parent: NativeNode, k: int)
    requires
        components::node_ids(node).no_duplicates(),
        node_in(node, parent.id@) == Some(parent),
        0 <= k < parent.children@.len(),
    ensures
        place_in(node, parent.children@[k].id@) == Some(
            PlaceView { parent: parent.id@, index: k },
        ),
    decreases node,
{
    let id = parent.children@[k].id@;
    let children = node.children@;
    lemma_distinct_below(node);
    keyed::lemma_first_key(children, id, 0);
    if node.id@ == parent.id@ {
        match keyed::first_key(children, id, 0) {
            Some(i) => {
                if i < k {
                    lemma_children_differ(children, i, k);
                }
            },
            None => {
                assert(children[k].id@ == id);
            },
        }
    } else {
        lemma_child_has_its_place_among(children, parent, k);
    }
}

proof fn lemma_child_has_its_place_among(nodes: Seq<NativeNode>, parent: NativeNode, k: int)
    requires
        components::forest_ids(nodes).no_duplicates(),
        node_among(nodes, parent.id@) == Some(parent),
        0 <= k < parent.children@.len(),
    ensures
        place_among(nodes, parent.children@[k].id@) == Some(
            PlaceView { parent: parent.id@, index: k },
        ),
        keyed::first_key(nodes, parent.children@[k].id@, 0) is None,
    decreases nodes,
{
    let id = parent.children@[k].id@;
    let rest = nodes.drop_last();
    let last = nodes.last();
    lemma_distinct_parts(nodes);
    keyed::lemma_first_key(nodes, id, 0);
    keyed::lemma_first_key(rest, id, 0);
    lemma_places_among(rest, id);
    law_nodes_below_the_root_have_places(last, id);
    let below = components::forest_ids(last.children@);
    let back = components::node_ids(last);
    assert(back[0] == last.id@);
    if node_among(rest, parent.id@) is Some {
        lemma_child_has_its_place_among(rest, parent, k);
        assert(last.id@ != id);
    } else {
        lemma_child_has_its_place(last, parent, k);
        lemma_distinct_below(last);
        let m = choose|m: int| 0 <= m < below.len() && below[m] == id;
        assert(back[m + 1] == id);
        assert(!components::forest_ids(rest).contains(id));
        match keyed::first_key(rest, id, 0) {
            Some(i) => {
                lemma_child_is_listed(rest, i);
            },
            None => {},
        }
    }
    match keyed::first_key(nodes, id, 0) {
        Some(i) => {
            if i < rest.len() {
                assert(rest[i].id@ == id);
            }
        },
        None => {},
    }
}

proof fn lemma_place_is_of_a_child(node: NativeNode, id: Seq<char>)
    requires
        components::node_ids(node).no_duplicates(),
        place_in(node, id) is Some,
    ensures
        node_in(node, place_in(node, id)->0.parent) is Some,
        ({
            let at = place_in(node, id)->0;
            let parent = node_in(node, at.parent)->0;
            parent.id@ == at.parent && 0 <= at.index < parent.children@.len()
                && parent.children@[at.index].id@ == id
        }),
    decreases node,
{
    lemma_distinct_below(node);
    keyed::lemma_first_key(node.children@, id, 0);
    if keyed::first_key(node.children@, id, 0) is None {
        lemma_place_is_of_a_child_among(node.children@, id);
        lemma_listed_among(node.children@, place_in(node, id)->0.parent);
    }
}

proof fn lemma_place_is_of_a_child_among(nodes: Seq<NativeNode>, id: Seq<char>)
    requires
        components::forest_ids(nodes).no_duplicates(),
        place_among(nodes, id) is Some,
    ensures
        node_among(nodes, place_among(nodes, id)->0.parent) is Some,
        ({
            let at = place_among(nodes, id)->0;
            let parent = node_among(nodes, at.parent)->0;
            parent.id@ == at.parent && 0 <= at.index < parent.children@.len()
                && parent.children@[at.index].id@ == id
        }),
    decreases nodes,
{
    let rest = nodes.drop_last();
    lemma_distinct_parts(nodes);
    if place_among(rest, id) is Some {
        lemma_place_is_of_a_child_among(rest, id);
    } else {
        lemma_place_is_of_a_child(nodes.last(), id);
        let at = place_among(nodes, id)->0;
        law_listed_nodes_are_found(nodes.last(), at.parent);
        lemma_listed_among(rest, at.parent);
    }
}

/// In a tree whose nodes have distinct IDs, the place of a node is the one among its parent's
/// children at which it stands.
pub proof fn law_place_is_where_the_node_stands(
    root: NativeNode,
    parent: NativeNode,
    index: int,
    id: Seq<char>,
)
    requires
        components::node_ids(root).no_duplicates(),
        node_in(root, parent.id@) == Some(parent),
    ensures
        (0 <= index < parent.children@.len() && parent.children@[index].id@ == id) <==> place_in(
            root,
            id,
        ) == Some(PlaceView { parent: parent.id@, index }),
{
    if 0 <= index < parent.children@.len() && parent.children@[index].id@ == id {
        lemma_child_has_its_place(root, parent, index);
    }
    if place_in(root, id) is Some {
        lemma_place_is_of_a_child(root, id);
    }
}

/// Whether a node lies in the subtree of another, itself counted in.
pub open spec fn lies_in(root: NativeNode, ancestor: Seq<char>, id: Seq<char>) -> bool {
    match node_in(root, ancestor) {
        Some(node) => components::node_ids(node).contains(id),
        None => false,
    }
}

/// Whether a node lies in the subtree of another, itself counted in.
pub fn node_contains(root: &NativeNode, ancestor: &str, id: &str) -> (result: bool)
    ensures
        result == lies_in(*root, ancestor@, id@),
{
    match find_node(root, ancestor) {
        Some(node) => has_node(node, id),
        None => false,
    }
}

} // verus!
