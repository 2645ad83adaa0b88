//! Structural edits of a component's tree: where nodes land, and the names of copies.
use vstd::prelude::*;

use crate::components;
use crate::components::NativeNode;
use crate::text;
use crate::tree_queries;
use crate::tree_queries::{PlaceView, TreePlace};

verus! {

// ---------------------------------------------------------------------------
// Places
// ---------------------------------------------------------------------------

/// The index that stands for "after the last child".
pub const AT_END: usize = usize::MAX;

/// The next index, kept within the range of its type.
pub open spec fn next_index(index: int) -> int {
    if index >= usize::MAX {
        usize::MAX as int
    } else {
        index + 1
    }
}

fn following(index: usize) -> (next: usize)
    ensures
        next == next_index(index as int),
{
    if index == usize::MAX {
        index
    } else {
        index + 1
    }
}

/// The place right behind this one.
pub fn after(at: TreePlace) -> (place: TreePlace)
    ensures
        place@ == (PlaceView { parent: at@.parent, index: next_index(at@.index) }),
{
    TreePlace { parent: at.parent, index: following(at.index) }
}

/// Where a newly inserted node lands relative to the selection: inside it when it accepts
/// children, else right after it, else at the end of the component root.
pub open spec fn insertion_place(
    root: NativeNode,
    selected: Seq<char>,
    accepts_children: bool,
) -> PlaceView {
    if accepts_children {
        PlaceView { parent: selected, index: AT_END as int }
    } else {
        match tree_queries::place_in(root, selected) {
            Some(at) => PlaceView { parent: at.parent, index: next_index(at.index) },
            None => PlaceView { parent: "root"@, index: AT_END as int },
        }
    }
}

/// Where a newly inserted node lands relative to the selection.
pub fn insertion_target(root: &NativeNode, selected: &str, accepts_children: bool) -> (place:
    TreePlace)
    ensures
        place@ == insertion_place(*root, selected@, accepts_children),
{
    if accepts_children {
        TreePlace { parent: selected.to_owned(), index: AT_END }
    } else {
        match tree_queries::parent_and_index(root, selected) {
            Some(at) => TreePlace { parent: at.parent, index: following(at.index) },
            None => TreePlace { parent: "root".to_owned(), index: AT_END },
        }
    }
}

/// Where a drop onto a tree row lands: into the row when it can hold children, otherwise
/// directly after it. A dragged node that leaves an earlier place of the same parent shifts
/// the later siblings, so then the row's own index is the one after it.
pub open spec fn drop_place(
    root: NativeNode,
    dragged: Option<Seq<char>>,
    target: Seq<char>,
    accepts_children: bool,
) -> Option<PlaceView> {
    if accepts_children {
        Some(PlaceView { parent: target, index: AT_END as int })
    } else {
        match tree_queries::place_in(root, target) {
            None => None,
            Some(at) => {
                let from = match dragged {
                    Some(id) => tree_queries::place_in(root, id),
                    None => None,
                };
                let earlier = from is Some && from->0.parent == at.parent && from->0.index
                    < at.index;
                Some(
                    PlaceView {
                        parent: at.parent,
                        index: if earlier {
                            at.index
                        } else {
                            next_index(at.index)
                        },
                    },
                )
            },
        }
    }
}

/// Where a drop onto a tree row lands.
pub fn tree_drop_placement(
    root: &NativeNode,
    dragged: Option<&str>,
    target: &str,
    accepts_children: bool,
) -> (place: Option<TreePlace>)
    ensures
        tree_queries::place_view(place) == drop_place(
            *root,
            match dragged {
                Some(id) => Some(id@),
                None => None,
            },
            target@,
            accepts_children,
        ),
{
    if accepts_children {
        return Some(TreePlace { parent: target.to_owned(), index: AT_END });
    }
    let at = match tree_queries::parent_and_index(root, target) {
        None => return None,
        Some(at) => at,
    };
    let from = match dragged {
        Some(id) => tree_queries::parent_and_index(root, id),
        None => None,
    };
    let earlier = match &from {
        Some(from) => text::same_text(from.parent.as_str(), at.parent.as_str()) && from.index
            < at.index,
        None => false,
    };
    let index: usize = if earlier {
        at.index
    } else {
        following(at.index)
    };
    Some(TreePlace { parent: at.parent, index })
}

/// Dropping a node after a sibling puts it right behind that sibling: once the node has left
/// its place `from` among its parent's children, the index that a drop onto the sibling at
/// `to` chooses is one past where that sibling then stands.
pub proof fn law_drop_lands_after_sibling<T>(children: Seq<T>, from: int, to: int)
    requires
        0 <= from < children.len(),
        0 <= to < children.len(),
        from != to,
    ensures
        ({
            let index = if from < to {
                to
            } else {
                to + 1
            };
            let after = children.remove(from).insert(index, children[from]);
            &&& 0 < index <= children.remove(from).len()
            &&& after[index] == children[from]
            &&& after[index - 1] == children[to]
        }),
{
}

/// A node dropped onto a row that takes no children lands right after it: with the dragged node
/// taken out of the row's siblings, where it was one of them, the returned index is one past the
/// row, so the other children keep their order around it. `parent` is the node that holds the
/// row, at position `to`.
pub proof fn law_drop_lands_right_after_the_row(
    root: NativeNode,
    dragged: Seq<char>,
    target: Seq<char>,
    parent: NativeNode,
    to: int,
)
    requires
        components::node_ids(root).no_duplicates(),
        tree_queries::node_in(root, parent.id@) == Some(parent),
        0 <= to < parent.children@.len(),
        parent.children@[to].id@ == target,
        dragged != target,
    ensures
        drop_place(root, Some(dragged), target, false) is Some,
        ({
            let place = drop_place(root, Some(dragged), target, false)->0;
            let children = parent.children@;
            &&& place.parent == parent.id@
            &&& forall|from: int|
                0 <= from < children.len() && (#[trigger] children[from]).id@ == dragged ==> {
                    let left = children.remove(from);
                    &&& 1 <= place.index <= left.len()
                    &&& left[place.index - 1].id@ == target
                    &&& left.insert(place.index, children[from])[place.index].id@ == dragged
                }
            &&& (forall|k: int|
                0 <= k < children.len() ==> (#[trigger] children[k]).id@ != dragged) ==> {
                &&& 1 <= place.index <= children.len()
                &&& children[place.index - 1].id@ == target
            }
        }),
{
    let children = parent.children@;
    let place = drop_place(root, Some(dragged), target, false)->0;
    assert(parent.children.len() == children.len());
    tree_queries::law_place_is_where_the_node_stands(root, parent, to, target);
    assert forall|from: int|
        0 <= from < children.len() && (#[trigger] children[from]).id@ == dragged implies {
        let left = children.remove(from);
        &&& 1 <= place.index <= left.len()
        &&& left[place.index - 1].id@ == target
        &&& left.insert(place.index, children[from])[place.index].id@ == dragged
    } by {
        tree_queries::law_place_is_where_the_node_stands(root, parent, from, dragged);
    }
    match tree_queries::place_in(root, dragged) {
        Some(from) => {
            tree_queries::law_place_is_where_the_node_stands(root, parent, from.index, dragged);
        },
        None => {},
    }
}

/// A palette component dropped onto a row that takes no children lands right after it; onto a
/// row that takes children anything lands behind the last of them; a row that stands nowhere
/// takes nothing.
pub proof fn law_drop_goes_by_the_row(
    root: NativeNode,
    dragged: Option<Seq<char>>,
    target: Seq<char>,
    parent: NativeNode,
    to: int,
)
    requires
        components::node_ids(root).no_duplicates(),
        tree_queries::node_in(root, parent.id@) == Some(parent),
    ensures
        0 <= to < parent.children@.len() && parent.children@[to].id@ == target ==> drop_place(
            root,
            None,
            target,
            false,
        ) == Some(PlaceView { parent: parent.id@, index: to + 1 }),
        drop_place(root, dragged, target, true) == Some(
            PlaceView { parent: target, index: usize::MAX as int },
        ),
        drop_place(root, dragged, target, false) is None <==> !components::forest_ids(
            root.children@,
        ).contains(target),
{
    assert(parent.children.len() == parent.children@.len());
    tree_queries::law_place_is_where_the_node_stands(root, parent, to, target);
    tree_queries::law_nodes_below_the_root_have_places(root, target);
}

/// A new node lands inside the selected node where that takes children, behind the last of them;
/// else right after it, before whatever followed it; at the end of the root where the selection
/// stands nowhere.
pub proof fn law_insertion_goes_by_the_selection(
    root: NativeNode,
    selected: Seq<char>,
    parent: NativeNode,
    to: int,
)
    requires
        components::node_ids(root).no_duplicates(),
        tree_queries::node_in(root, parent.id@) == Some(parent),
    ensures
        insertion_place(root, selected, true).parent == selected,
        forall|children: Vec<NativeNode>|
            insertion_place(root, selected, true).index >= #[trigger] children@.len(),
        0 <= to < parent.children@.len() && parent.children@[to].id@ == selected
            ==> insertion_place(root, selected, false).parent == parent.id@ && insertion_place(
            root,
            selected,
            false,
        ).index == to + 1,
        !components::forest_ids(root.children@).contains(selected) ==> insertion_place(
            root,
            selected,
            false,
        ).parent == "root"@,
        !components::forest_ids(root.children@).contains(selected) ==> forall|
            children: Vec<NativeNode>,
        |
            insertion_place(root, selected, false).index >= #[trigger] children@.len(),
{
    assert(parent.children.len() == parent.children@.len());
    tree_queries::law_place_is_where_the_node_stands(root, parent, to, selected);
    tree_queries::law_nodes_below_the_root_have_places(root, selected);
    assert forall|children: Vec<NativeNode>| #[trigger] children@.len() <= usize::MAX by {
        assert(children.len() == children@.len());
    }
}

// ---------------------------------------------------------------------------
// Copies
// ---------------------------------------------------------------------------

/// The suffix of the `n`th copy.
pub open spec fn copy_suffix(n: nat) -> Seq<char> {
    if n <= 1 {
        "-copy"@
    } else {
        "-copy-"@ + text::decimal_text(n)
    }
}

proof fn lemma_copy_suffixes_differ(m: nat, n: nat)
    requires
        1 <= m < n,
    ensures
        copy_suffix(m) != copy_suffix(n),
{
    reveal_strlit("-copy");
    reveal_strlit("-copy-");
    text::lemma_decimal_digits(m);
    text::lemma_decimal_digits(n);
    let b = copy_suffix(n);
    if m > 1 {
        let a = copy_suffix(m);
        assert(a.skip(6) =~= text::decimal_text(m));
        assert(b.skip(6) =~= text::decimal_text(n));
    } else {
        assert(b.len() > 5);
    }
}

proof fn lemma_copies_taken(selected: Seq<char>, taken: Seq<Seq<char>>, count: nat)
    requires
        forall|k: nat| 1 <= k <= count ==> taken.contains(#[trigger] (selected + copy_suffix(k))),
    ensures
        count <= taken.len(),
{
    let names = Seq::new(count, |i: int| selected + copy_suffix((i + 1) as nat));
    assert forall|i: int, j: int| 0 <= i < names.len() && 0 <= j < names.len() && i != j implies names[i]
        != names[j] by {
        let m = (i + 1) as nat;
        let n = (j + 1) as nat;
        if m < n {
            lemma_copy_suffixes_differ(m, n);
        } else {
            lemma_copy_suffixes_differ(n, m);
        }
        let k = selected.len() as int;
        assert((selected + copy_suffix(m)).skip(k) =~= copy_suffix(m));
        assert((selected + copy_suffix(n)).skip(k) =~= copy_suffix(n));
    }
    names.unique_seq_to_set();
    taken.lemma_cardinality_of_set();
    assert forall|x: Seq<char>| names.to_set().contains(x) implies taken.to_set().contains(x) by {
        let i = choose|i: int| 0 <= i < names.len() && names[i] == x;
        assert(taken.contains(selected + copy_suffix((i + 1) as nat)));
    }
    vstd::set_lib::lemma_len_subset(names.to_set(), taken.to_set());
}

fn holds(taken: &Vec<String>, name: &str) -> (result: bool)
    ensures
        result == text::texts(taken@).contains(name@),
{
    let ghost all = text::texts(taken@);
    let mut i: usize = 0;
    while i < taken.len()
        invariant
            i <= taken.len(),
            all == text::texts(taken@),
            forall|j: int| 0 <= j < i ==> #[trigger] all[j] != name@,
        decreases taken.len() - i,
    {
        if text::same_text(taken[i].as_str(), name) {
            proof {
                assert(all[i as int] == name@);
            }
            return true;
        }
        i += 1;
    }
    false
}

/// Whether a suffix is the first of `-copy`, `-copy-2`, `-copy-3` … that gives an ID which is
/// not taken.
pub open spec fn first_free_copy(
    taken: Seq<Seq<char>>,
    selected: Seq<char>,
    suffix: Seq<char>,
) -> bool {
    &&& !taken.contains(selected + suffix)
    &&& exists|n: nat|
        1 <= n && suffix == #[trigger] copy_suffix(n) && forall|k: nat|
            1 <= k < n ==> taken.contains(#[trigger] (selected + copy_suffix(k)))
}

/// The suffix that makes the copy of a node unique.
pub fn unique_copy_suffix(selected: &str, taken: &Vec<String>) -> (suffix: String)
    requires
        taken.len() < u32::MAX,
    ensures
        first_free_copy(text::texts(taken@), selected@, suffix@),
{
    let ghost all = text::texts(taken@);
    let mut counter: u64 = 1;
    let mut suffix = "-copy".to_owned();
    while holds(taken, text::join2(selected, suffix.as_str()).as_str())
        invariant
            1 <= counter <= taken.len() + 1,
            taken.len() < u32::MAX,
            all == text::texts(taken@),
            all.len() == taken.len(),
            suffix@ == copy_suffix(counter as nat),
            forall|k: nat|
                1 <= k < counter ==> all.contains(#[trigger] (selected@ + copy_suffix(k))),
        decreases taken.len() + 1 - counter,
    {
        proof {
            assert(all.contains(selected@ + copy_suffix(counter as nat)));
            lemma_copies_taken(selected@, all, counter as nat);
        }
        counter += 1;
        suffix = text::join2("-copy-", text::decimal(counter).as_str());
    }
    suffix
}

// ---------------------------------------------------------------------------
// Rendered and stored nodes
// ---------------------------------------------------------------------------

/// The stored node that a rendered ID inside an expanded instance belongs to: the ID is cut
/// at its last double dash until what is left is stored.
pub open spec fn stored_prefix(ids: Seq<Seq<char>>, candidate: Seq<char>) -> Option<Seq<char>>
    decreases candidate.len(),
{
    match text::last_occurrence(candidate, "--"@, candidate.len() as int) {
        None => None,
        Some(at) => if 0 <= at < candidate.len() {
            let prefix = candidate.take(at);
            if ids.contains(prefix) {
                Some(prefix)
            } else {
                stored_prefix(ids, prefix)
            }
        } else {
            None
        },
    }
}

/// The stored node for a rendered ID: itself where it is stored, else the stored node it was
/// expanded from, else itself.
pub open spec fn resolved_node(ids: Seq<Seq<char>>, node_id: Seq<char>) -> Seq<char> {
    if ids.contains(node_id) {
        node_id
    } else {
        match stored_prefix(ids, node_id) {
            Some(prefix) => prefix,
            None => node_id,
        }
    }
}

/// Maps a rendered node ID back to one of the stored IDs; clicks inside an expanded instance
/// resolve to the instance node, because the expansion's prefixed IDs are render-only.
pub fn resolve_node(ids: &Vec<String>, node_id: &str) -> (out: String)
    ensures
        out@ == resolved_node(text::texts(ids@), node_id@),
{
    if holds(ids, node_id) {
        return node_id.to_owned();
    }
    let ghost all = text::texts(ids@);
    let dashes = text::chars_of("--");
    let mut candidate = text::chars_of(node_id);
    loop
        invariant
            all == text::texts(ids@),
            dashes@ == "--"@,
            !all.contains(node_id@),
            stored_prefix(all, node_id@) == stored_prefix(all, candidate@),
        decreases candidate.len(),
    {
        proof {
            reveal_strlit("--");
        }
        match text::find_last_text(&candidate, &dashes) {
            None => {
                return node_id.to_owned();
            },
            Some(at) => {
                let prefix = text::text_of(&candidate, 0, at);
                proof {
                    assert(prefix@ =~= candidate@.take(at as int));
                }
                if holds(ids, prefix.as_str()) {
                    return prefix;
                }
                candidate = text::chars_of(prefix.as_str());
            },
        }
    }
}

/// Resolving a rendered ID gives a stored one wherever the ID or one of its instance
/// prefixes is stored, and resolving again changes nothing.
pub proof fn law_resolution_stable(ids: Seq<Seq<char>>, node_id: Seq<char>)
    ensures
        resolved_node(ids, resolved_node(ids, node_id)) == resolved_node(ids, node_id),
        ids.contains(resolved_node(ids, node_id)) || resolved_node(ids, node_id) == node_id,
{
    lemma_stored_prefix(ids, node_id);
}

proof fn lemma_stored_prefix(ids: Seq<Seq<char>>, candidate: Seq<char>)
    ensures
        stored_prefix(ids, candidate) is Some ==> ids.contains(stored_prefix(ids, candidate)->0),
    decreases candidate.len(),
{
    match text::last_occurrence(candidate, "--"@, candidate.len() as int) {
        None => {},
        Some(at) => {
            if 0 <= at < candidate.len() && !ids.contains(candidate.take(at)) {
                lemma_stored_prefix(ids, candidate.take(at));
            }
        },
    }
}

/// Copies are numbered from the second on, and the first free number is taken: the plain suffix
/// where it is free, the number two where only the plain one is taken, and so on.
pub proof fn law_first_free_copy_is_taken(
    taken: Seq<Seq<char>>,
    selected: Seq<char>,
    suffix: Seq<char>,
    n: nat,
)
    requires
        first_free_copy(taken, selected, suffix),
        n >= 2,
        !taken.contains(selected + ("-copy-"@ + text::decimal_text(n))),
        taken.contains(selected + "-copy"@),
        forall|k: nat|
            2 <= k < n ==> taken.contains(selected + ("-copy-"@ + #[trigger] text::decimal_text(k))),
    ensures
        suffix == "-copy-"@ + text::decimal_text(n),
{
    let m = choose|m: nat|
        1 <= m && suffix == #[trigger] copy_suffix(m) && forall|k: nat|
            1 <= k < m ==> taken.contains(#[trigger] (selected + copy_suffix(k)));
    assert(copy_suffix(n) == "-copy-"@ + text::decimal_text(n));
    if m < n {
        if m == 1 {
            assert(suffix == "-copy"@);
        } else {
            assert(taken.contains(selected + ("-copy-"@ + text::decimal_text(m))));
        }
    } else if n < m {
        assert(taken.contains(selected + copy_suffix(n)));
    }
}

/// The first copy has the plain suffix where it is free.
pub proof fn law_first_copy_is_plain(taken: Seq<Seq<char>>, selected: Seq<char>, suffix: Seq<char>)
    requires
        first_free_copy(taken, selected, suffix),
        !taken.contains(selected + "-copy"@),
    ensures
        suffix == "-copy"@,
{
    let m = choose|m: nat|
        1 <= m && suffix == #[trigger] copy_suffix(m) && forall|k: nat|
            1 <= k < m ==> taken.contains(#[trigger] (selected + copy_suffix(k)));
    if m > 1 {
        assert(taken.contains(selected + copy_suffix(1)));
    }
}

proof fn lemma_last_place(s: Seq<char>, p: Seq<char>, end: int, at: int)
    requires
        0 <= at <= end,
        text::occurs_at(s, p, at),
        forall|k: int| at < k <= end ==> !#[trigger] text::occurs_at(s, p, k),
    ensures
        text::last_occurrence(s, p, end) == Some(at),
    decreases end,
{
    if at < end {
        assert(!text::occurs_at(s, p, end));
        lemma_last_place(s, p, end - 1, at);
    }
}

/// A rendered ID is cut at its last double dash: what stands before it is the node that it
/// belongs to where that is stored, and is resolved in turn where it is not.
pub proof fn law_rendered_ids_are_cut_at_the_last_dashes(
    ids: Seq<Seq<char>>,
    prefix: Seq<char>,
    node_id: Seq<char>,
)
    requires
        prefix.len() + 2 <= node_id.len(),
        node_id.take(prefix.len() as int) == prefix,
        node_id[prefix.len() as int] == '-',
        node_id[prefix.len() as int + 1] == '-',
        forall|k: int|
            prefix.len() < k < node_id.len() - 1 ==> #[trigger] node_id[k] != '-' || node_id[k + 1]
                != '-',
        !ids.contains(node_id),
    ensures
        ids.contains(prefix) ==> resolved_node(ids, node_id) == prefix,
        ids.contains(resolved_node(ids, prefix)) ==> resolved_node(ids, node_id) == resolved_node(
            ids,
            prefix,
        ),
{
    let at = prefix.len() as int;
    let dashes = "--"@;
    reveal_strlit("--");
    assert(node_id.subrange(at, at + 2) =~= dashes);
    assert forall|k: int| at < k <= node_id.len() implies !#[trigger] text::occurs_at(
        node_id,
        dashes,
        k,
    ) by {
        if text::occurs_at(node_id, dashes, k) {
            assert(node_id.subrange(k, k + 2)[0] == '-' && node_id.subrange(k, k + 2)[1] == '-');
            assert(node_id[k] == '-' && node_id[k + 1] == '-');
        }
    }
    lemma_last_place(node_id, dashes, node_id.len() as int, at);
    lemma_stored_prefix(ids, prefix);
}

} // verus!
