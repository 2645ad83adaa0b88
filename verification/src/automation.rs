//! What the session reads of the window's semantic tree.
use vstd::prelude::*;

use crate::float_bits::Float32;
use crate::text;

verus! {

/// A window-relative rectangle, with the automation layer's own verdict on whether it is
/// usable as a capture.
#[derive(Clone, Copy, Debug, PartialEq, Eq, Structural)]
pub struct Rect {
    pub x: Float32,
    pub y: Float32,
    pub width: Float32,
    pub height: Float32,
    pub valid: bool,
}

/// One node of the semantic tree.
#[derive(Debug)]
pub struct UiNode {
    pub id: String,
    pub bounds: Option<Rect>,
    pub text: Option<String>,
    pub label: Option<String>,
}

/// One generation of the semantic tree; a node is found by its ID.
#[derive(Debug)]
pub struct UiTree {
    pub generation: u64,
    pub nodes: Vec<UiNode>,
}

/// The first node with this ID at or after position `from`.
pub open spec fn node_with_id(nodes: Seq<UiNode>, id: Seq<char>, from: int) -> Option<UiNode>
    decreases nodes.len() - from,
{
    if from < 0 || from >= nodes.len() {
        None
    } else if nodes[from].id@ == id {
        Some(nodes[from])
    } else {
        node_with_id(nodes, id, from + 1)
    }
}

/// The bounds of the node with this ID, where there is one and it has bounds.
pub open spec fn bounds_of(nodes: Seq<UiNode>, id: Seq<char>) -> Option<Rect> {
    match node_with_id(nodes, id, 0) {
        Some(node) => node.bounds,
        None => None,
    }
}

impl UiTree {
    /// A tree without nodes.
    pub fn empty() -> (tree: UiTree)
        ensures
            tree.generation == 0,
            tree.nodes@.len() == 0,
    {
        UiTree { generation: 0, nodes: Vec::new() }
    }

    /// The node with this ID.
    pub fn get(&self, id: &str) -> (found: Option<&UiNode>)
        ensures
            match node_with_id(self.nodes@, id@, 0) {
                Some(node) => found is Some && *found->0 == node,
                None => found is None,
            },
    {
        let mut i: usize = 0;
        while i < self.nodes.len()
            invariant
                i <= self.nodes.len(),
                node_with_id(self.nodes@, id@, 0) == node_with_id(self.nodes@, id@, i as int),
            decreases self.nodes.len() - i,
        {
            if text::same_text(self.nodes[i].id.as_str(), id) {
                return Some(&self.nodes[i]);
            }
            i += 1;
        }
        None
    }
}

/// The node that is found is the first one with the ID; its bounds are the ones looked up.
pub proof fn law_first_node_is_found(nodes: Seq<UiNode>, id: Seq<char>, from: int)
    requires
        0 <= from <= nodes.len(),
    ensures
        match node_with_id(nodes, id, from) {
            Some(node) => exists|k: int|
                from <= k < nodes.len() && #[trigger] nodes[k] == node && node.id@ == id && forall|
                    j: int,
                |
                    from <= j < k ==> (#[trigger] nodes[j]).id@ != id,
            None => forall|j: int| from <= j < nodes.len() ==> (#[trigger] nodes[j]).id@ != id,
        },
        forall|k: int|
            from <= k < nodes.len() && (#[trigger] nodes[k]).id@ == id && (forall|j: int|
                from <= j < k ==> (#[trigger] nodes[j]).id@ != id) ==> node_with_id(
                nodes,
                id,
                from,
            ) == Some(nodes[k]),
        from == 0 ==> bounds_of(nodes, id) == (match node_with_id(nodes, id, 0) {
            Some(node) => node.bounds,
            None => None,
        }),
    decreases nodes.len() - from,
{
    if from < nodes.len() && nodes[from].id@ != id {
        law_first_node_is_found(nodes, id, from + 1);
        match node_with_id(nodes, id, from) {
            Some(node) => {
                let k = choose|k: int|
                    from + 1 <= k < nodes.len() && #[trigger] nodes[k] == node && forall|j: int|
                        from + 1 <= j < k ==> (#[trigger] nodes[j]).id@ != id;
                assert(nodes[k] == node);
            },
            None => {},
        }
    } else if from < nodes.len() {
        assert(nodes[from].id@ == id);
    }
}

} // verus!
