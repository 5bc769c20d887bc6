//! Trees of keyed items, stored as a list of nodes that name their
//! children by key, and their outline as a `ptree` tree.
use ptree::item::StringItem;
use ptree::TreeBuilder;
use vstd::prelude::*;
use vstd::std_specs::cmp::PartialEqSpec;
use crate::text::Text;

verus! {

/// `ptree::TreeBuilder`, carried through opaquely; its contents are
/// spoken of through `builder_items` and `builder_level`.
#[verifier::external_type_specification]
#[verifier::external_body]
pub struct ExTreeBuilder(TreeBuilder);

/// `ptree::item::StringItem`, carried through opaquely; its contents are
/// spoken of through `item_outline`.
#[verifier::external_type_specification]
#[verifier::external_body]
pub struct ExStringItem(StringItem);

/// The items a `TreeBuilder` holds, in preorder: each with its depth (the
/// top item has depth 0) and its text.
pub uninterp spec fn builder_items(tb: TreeBuilder) -> Seq<(nat, Seq<char>)>;

/// The depth of the item a `TreeBuilder` currently adds children to.
pub uninterp spec fn builder_level(tb: TreeBuilder) -> nat;

/// The items of a `StringItem` tree, in preorder: each with its depth (the
/// top item has depth 0) and its text.
pub uninterp spec fn item_outline(item: StringItem) -> Seq<(nat, Seq<char>)>;

/// Calls `ptree::TreeBuilder::new`. Claimed: the builder holds only the
/// top item, at depth 0 with the given text, and that item is current.
#[verifier::external_body]
fn builder_new(text: String) -> (tb: TreeBuilder)
    ensures
        builder_items(tb) == seq![(0nat, text@)],
        builder_level(tb) == 0,
{
    TreeBuilder::new(text)
}

/// A builder that `begin_child` and `add_empty_child` can extend: `ptree`
/// walks from the top item `level` times down to the last child, so the
/// last item in preorder must lie at least that deep.
pub open spec fn builder_ready(tb: TreeBuilder) -> bool {
    builder_items(tb).len() > 0 && builder_level(tb) <= builder_items(tb).last().0
}

/// Calls `ptree::TreeBuilder::begin_child`. Claimed: the new child of the
/// current item comes last in preorder, one level below the current item,
/// and becomes current. `ptree` counts levels in a `u32`.
#[verifier::external_body]
fn builder_begin_child(tb: &mut TreeBuilder, text: String)
    requires
        builder_ready(*old(tb)),
        builder_level(*old(tb)) < u32::MAX,
    ensures
        builder_items(*final(tb)) == builder_items(*old(tb)).push(
            (builder_level(*old(tb)) + 1, text@),
        ),
        builder_level(*final(tb)) == builder_level(*old(tb)) + 1,
{
    tb.begin_child(text);
}

/// Calls `ptree::TreeBuilder::end_child`. Claimed: the items stay, and the
/// parent of the current item becomes current. `ptree` decrements a
/// `u32` level, so the top item must not be current.
#[verifier::external_body]
fn builder_end_child(tb: &mut TreeBuilder)
    requires
        builder_level(*old(tb)) > 0,
    ensures
        builder_items(*final(tb)) == builder_items(*old(tb)),
        builder_level(*final(tb)) == builder_level(*old(tb)) - 1,
{
    tb.end_child();
}

/// Calls `ptree::TreeBuilder::add_empty_child`. Claimed: a leaf child of
/// the current item comes last in preorder, one level below it, and the
/// current item stays current.
#[verifier::external_body]
fn builder_add_empty_child(tb: &mut TreeBuilder, text: String)
    requires
        builder_ready(*old(tb)),
        builder_level(*old(tb)) < u32::MAX,
    ensures
        builder_items(*final(tb)) == builder_items(*old(tb)).push(
            (builder_level(*old(tb)) + 1, text@),
        ),
        builder_level(*final(tb)) == builder_level(*old(tb)),
{
    tb.add_empty_child(text);
}

/// Calls `ptree::TreeBuilder::build`. Claimed: the returned tree holds the
/// builder's items, and the builder is left as it was (`ptree` hands
/// out a clone).
#[verifier::external_body]
fn builder_build(tb: &mut TreeBuilder) -> (item: StringItem)
    ensures
        item_outline(item) == builder_items(*old(tb)),
        *final(tb) == *old(tb),
{
    tb.build()
}

/// An item that can be stored in a tree: it is known by its key.
/// Implementors say what the key is (`key_of`) and hand out a reference
/// to it (`key`).
pub trait KItem {
    /// The type of the keys.
    type Key;

    /// The key of the item.
    spec fn key_of(&self) -> Self::Key;

    /// Gets the key of the item.
    fn key(&self) -> (k: &Self::Key)
        ensures
            *k == self.key_of(),
    ;
}

/// The mathematical model of a node.
pub struct KNodeView<I: KItem> {
    /// The item stored in the node.
    pub value: I,
    /// The keys of the node's children.
    pub children: Seq<I::Key>,
}

/// A node of a tree: an item and the keys of its children.
pub struct KNode<I: KItem> {
    value: I,
    children: Vec<I::Key>,
}

impl<I: KItem> View for KNode<I> {
    type V = KNodeView<I>;

    closed spec fn view(&self) -> KNodeView<I> {
        KNodeView { value: self.value, children: self.children@ }
    }
}

impl<I: KItem> KNode<I> {
    /// Builds a node from an item and the keys of its children.
    pub fn new(value: I, children: Vec<I::Key>) -> (n: Self)
        ensures
            n@ == (KNodeView { value, children: children@ }),
    {
        Self { value, children }
    }

    /// Gets the key of the node's item.
    pub fn key(&self) -> (k: &I::Key)
        ensures
            *k == self@.value.key_of(),
    {
        self.value.key()
    }

    /// Whether the node has no children.
    pub fn is_leaf(&self) -> (leaf: bool)
        ensures
            leaf == (self@.children.len() == 0),
    {
        self.children.len() == 0
    }

    /// Gets the keys of the node's children.
    pub fn children(&self) -> (keys: &Vec<I::Key>)
        ensures
            keys@ == self@.children,
    {
        &self.children
    }

    /// Adopts `child`: the child's own children come after the current
    /// children, followed by the child itself.
    pub fn add_child(&mut self, child: &Self)
        where
            I::Key: Copy,
        ensures
            final(self)@ == (KNodeView {
                value: old(self)@.value,
                children: old(self)@.children + child@.children + seq![child@.value.key_of()],
            }),
    {
        let mut i: usize = 0;
        while i < child.children.len()
            invariant
                i <= child@.children.len(),
                child.children@ == child@.children,
                self@.value == old(self)@.value,
                self@.children == old(self)@.children + child@.children.take(i as int),
            decreases child@.children.len() - i,
        {
            self.children.push(child.children[i]);
            proof {
                assert(child@.children.take(i + 1) =~= child@.children.take(i as int).push(
                    child@.children[i as int],
                ));
            }
            i = i + 1;
        }
        proof {
            assert(child@.children.take(i as int) =~= child@.children);
        }
        let k: I::Key = *child.key();
        self.children.push(k);
        proof {
            assert(self@.children =~= old(self)@.children + child@.children + seq![child@.value.key_of()]);
        }
    }
}

/// The mathematical model of a tree.
pub struct KTreeView<I: KItem> {
    /// The key of the root.
    pub root: I::Key,
    /// The nodes, in the order they were given.
    pub nodes: Seq<KNodeView<I>>,
}

/// A tree: the key of its root and its nodes.
pub struct KTree<I: KItem> {
    root: I::Key,
    nodes: Vec<KNode<I>>,
}

impl<I: KItem> View for KTree<I> {
    type V = KTreeView<I>;

    closed spec fn view(&self) -> KTreeView<I> {
        KTreeView { root: self.root, nodes: self.nodes@.map_values(|n: KNode<I>| n@) }
    }
}

impl<I: KItem> KTree<I> {
    /// Builds a tree from the key of its root and its nodes.
    pub fn new(root: I::Key, nodes: Vec<KNode<I>>) -> (t: Self)
        ensures
            t@ == (KTreeView { root, nodes: nodes@.map_values(|n: KNode<I>| n@) }),
    {
        Self { root, nodes }
    }

    /// The number of nodes.
    pub fn len(&self) -> (n: usize)
        ensures
            n == self@.nodes.len(),
    {
        self.nodes.len()
    }
}

impl<I: KItem> KTreeView<I> where I::Key: PartialEq + Text {
    /// The position of the first node, from position `i` on, whose key
    /// equals `key`.
    pub open spec fn position_from(self, key: I::Key, i: nat) -> Option<int>
        decreases self.nodes.len() - i,
    {
        if i >= self.nodes.len() {
            None
        } else if self.nodes[i as int].value.key_of().eq_spec(&key) {
            Some(i as int)
        } else {
            self.position_from(key, i + 1)
        }
    }

    /// The position of the first node whose key equals `key`.
    pub open spec fn position(self, key: I::Key) -> Option<int> {
        self.position_from(key, 0)
    }

    /// A position found from `i` on is a node at or after `i` whose key
    /// equals `key`.
    pub proof fn lemma_position_from(self, key: I::Key, i: nat)
        ensures
            match self.position_from(key, i) {
                Some(p) => i <= p < self.nodes.len() && self.nodes[p].value.key_of().eq_spec(&key),
                None => true,
            },
        decreases self.nodes.len() - i,
    {
        if i < self.nodes.len() && !self.nodes[i as int].value.key_of().eq_spec(&key) {
            self.lemma_position_from(key, i + 1);
        }
    }

    /// Whether the node at position `j` holds `key`.
    pub open spec fn holds(self, j: int, key: I::Key) -> bool {
        0 <= j < self.nodes.len() && self.nodes[j].value.key_of().eq_spec(&key)
    }

    /// Searching from `i` on finds a node exactly when some node at or
    /// after `i` holds `key`, and then the first such node.
    pub proof fn lemma_position_from_first(self, key: I::Key, i: nat)
        ensures
            self.position_from(key, i) is Some <==> exists|j: int| i <= j && #[trigger] self.holds(j, key),
            self.position_from(key, i) matches Some(p) ==> i <= p && self.holds(p, key) && forall|j: int|
                i <= j < p ==> !#[trigger] self.holds(j, key),
        decreases self.nodes.len() - i,
    {
        if i < self.nodes.len() {
            self.lemma_position_from_first(key, i + 1);
            if self.holds(i as int, key) {
            } else {
                assert forall|j: int| i <= j && #[trigger] self.holds(j, key) implies i + 1 <= j by {}
            }
        } else {
            assert forall|j: int| i <= j implies !#[trigger] self.holds(j, key) by {}
        }
    }

    /// A key is found exactly when some node holds it, and what is found is
    /// the first node that holds it.
    pub proof fn lemma_position_first(self, key: I::Key)
        ensures
            self.position(key) is Some <==> exists|j: int| #[trigger] self.holds(j, key),
            self.position(key) matches Some(p) ==> self.holds(p, key) && forall|j: int|
                0 <= j < p ==> !#[trigger] self.holds(j, key),
    {
        self.lemma_position_from_first(key, 0);
        if exists|j: int| #[trigger] self.holds(j, key) {
            let j = choose|j: int| #[trigger] self.holds(j, key);
            assert(0 <= j && self.holds(j, key));
        }
    }

    /// `rank` ranks the nodes at the positions in `s`: `s` holds, with each
    /// of its nodes, the node that each child key of it names, every such
    /// child ranks below its parent, and ranks stay below the number of
    /// nodes.
    pub open spec fn ranked_within(self, rank: spec_fn(int) -> nat, s: Set<int>) -> bool {
        &&& forall|j: int| #[trigger] s.contains(j) ==> 0 <= j < self.nodes.len() && rank(j) < self.nodes.len()
        &&& forall|j: int, k: int|
            s.contains(j) && 0 <= k < self.nodes[j].children.len() ==> match self.position(
                #[trigger] self.nodes[j].children[k],
            ) {
                Some(q) => s.contains(q) && rank(q) < rank(j),
                None => true,
            }
    }

    /// Following children from `key`, node to node, never comes back to a
    /// node met on the way: the nodes reachable from `key` can be ranked so
    /// that every child ranks below its parent.
    pub open spec fn acyclic_from(self, key: I::Key) -> bool {
        exists|rank: spec_fn(int) -> nat, s: Set<int>|
            #[trigger] self.ranked_within(rank, s) && match self.position(key) {
                Some(p) => s.contains(p),
                None => true,
            }
    }

    /// Every path that follows children from `key` leaves the nodes (at a
    /// key that no node has, or at a node without children) within `fuel`
    /// nodes.
    pub open spec fn ends_within(self, key: I::Key, fuel: nat) -> bool
        decreases fuel, 1nat,
    {
        match self.position(key) {
            None => true,
            Some(p) => self.ends_within_at(p, fuel),
        }
    }

    /// As `ends_within`, for the paths from the node at position `p`.
    pub open spec fn ends_within_at(self, p: int, fuel: nat) -> bool
        decreases fuel, 0nat,
    {
        if fuel == 0 {
            false
        } else {
            forall|k: int|
                0 <= k < self.nodes[p].children.len() ==> self.ends_within(
                    #[trigger] self.nodes[p].children[k],
                    (fuel - 1) as nat,
                )
        }
    }

    /// The least fuel within which the paths from position `p` end.
    pub open spec fn least_fuel(self, p: int) -> nat {
        choose|m: nat| #[trigger]
            self.ends_within_at(p, m) && forall|g: nat| g < m ==> !self.ends_within_at(p, g)
    }

    /// More fuel does not hurt.
    pub proof fn lemma_ends_within_mono(self, p: int, f: nat, g: nat)
        requires
            self.ends_within_at(p, f),
            f <= g,
        ensures
            self.ends_within_at(p, g),
        decreases f,
    {
        assert forall|k: int| 0 <= k < self.nodes[p].children.len() implies self.ends_within(
            #[trigger] self.nodes[p].children[k],
            (g - 1) as nat,
        ) by {
            let c = self.nodes[p].children[k];
            assert(self.ends_within(c, (f - 1) as nat));
            match self.position(c) {
                Some(q) => {
                    self.lemma_ends_within_mono(q, (f - 1) as nat, (g - 1) as nat);
                },
                None => {},
            }
        }
    }

    /// The least fuel exists, is positive and is at most any fuel that
    /// suffices.
    pub proof fn lemma_least_fuel(self, p: int, f: nat)
        requires
            self.ends_within_at(p, f),
        ensures
            self.ends_within_at(p, self.least_fuel(p)),
            0 < self.least_fuel(p) <= f,
        decreases f,
    {
        if exists|g: nat| g < f && #[trigger] self.ends_within_at(p, g) {
            let g = choose|g: nat| g < f && #[trigger] self.ends_within_at(p, g);
            self.lemma_least_fuel(p, g);
        } else {
            assert(self.ends_within_at(p, f) && forall|g: nat| g < f ==> !self.ends_within_at(p, g));
            let m = self.least_fuel(p);
            assert(self.ends_within_at(p, m) && forall|g: nat| g < m ==> !self.ends_within_at(p, g));
            assert(!(f < m));
        }
    }

    /// A node in a ranked set ends within one more than its rank.
    pub proof fn lemma_ranked_ends(self, rank: spec_fn(int) -> nat, s: Set<int>, j: int)
        requires
            self.ranked_within(rank, s),
            s.contains(j),
        ensures
            self.ends_within_at(j, rank(j) + 1),
        decreases rank(j),
    {
        assert forall|k: int| 0 <= k < self.nodes[j].children.len() implies self.ends_within(
            #[trigger] self.nodes[j].children[k],
            rank(j),
        ) by {
            let c = self.nodes[j].children[k];
            match self.position(c) {
                Some(q) => {
                    assert(s.contains(q) && rank(q) < rank(j));
                    self.lemma_ranked_ends(rank, s, q);
                    self.lemma_ends_within_mono(q, rank(q) + 1, rank(j));
                },
                None => {},
            }
        }
    }

    /// Where the nodes reachable from `key` have no cycle, every path from
    /// `key` ends within as many nodes as the tree has.
    pub proof fn lemma_ends_from_acyclic(self, key: I::Key)
        requires
            self.acyclic_from(key),
        ensures
            self.ends_within(key, self.nodes.len()),
    {
        let (rank, s) = choose|rank: spec_fn(int) -> nat, s: Set<int>|
            #[trigger] self.ranked_within(rank, s) && match self.position(key) {
                Some(p) => s.contains(p),
                None => true,
            };
        match self.position(key) {
            Some(p) => {
                self.lemma_ranked_ends(rank, s, p);
                self.lemma_ends_within_mono(p, rank(p) + 1, self.nodes.len());
            },
            None => {},
        }
    }

    /// Where every path from `key` ends within as many nodes as the tree
    /// has, the nodes reachable from `key` have no cycle: rank each by the
    /// least fuel within which its paths end.
    pub proof fn lemma_acyclic_from_ends(self, key: I::Key)
        requires
            self.ends_within(key, self.nodes.len()),
        ensures
            self.acyclic_from(key),
    {
        let n = self.nodes.len();
        let rank = |j: int| (self.least_fuel(j) - 1) as nat;
        let s = Set::new(|j: int| 0 <= j < n && self.ends_within_at(j, n));
        assert forall|j: int| #[trigger] s.contains(j) implies 0 <= j < n && rank(j) < n by {
            self.lemma_least_fuel(j, n);
        }
        assert forall|j: int, k: int|
            s.contains(j) && 0 <= k < self.nodes[j].children.len() implies match self.position(
                #[trigger] self.nodes[j].children[k],
            ) {
                Some(q) => s.contains(q) && rank(q) < rank(j),
                None => true,
            } by {
            let c = self.nodes[j].children[k];
            self.lemma_position_from(c, 0);
            match self.position(c) {
                Some(q) => {
                    assert(self.ends_within(c, (n - 1) as nat));
                    self.lemma_ends_within_mono(q, (n - 1) as nat, n);
                    self.lemma_least_fuel(j, n);
                    let m = self.least_fuel(j);
                    assert(self.ends_within(c, (m - 1) as nat));
                    self.lemma_least_fuel(q, (m - 1) as nat);
                },
                None => {},
            }
        }
        assert(self.ranked_within(rank, s));
        self.lemma_position_from(key, 0);
    }

    /// The items, each with its depth and text, that outlining `key` at
    /// depth `depth` adds, following children at most `fuel` nodes deep:
    /// nothing for an unknown key; for a node without children a leaf with
    /// the text of `key`; else the node, with the text of its own key,
    /// followed one level down by the outlines of its children in order.
    pub open spec fn outline_within(self, key: I::Key, depth: nat, fuel: nat) -> Seq<(nat, Seq<char>)>
        decreases fuel, 0nat, 0nat,
    {
        match self.position(key) {
            None => Seq::empty(),
            Some(p) => if fuel == 0 {
                Seq::empty()
            } else if self.nodes[p].children.len() == 0 {
                seq![(depth + 1, key.text_of())]
            } else {
                seq![(depth + 1, self.nodes[p].value.key_of().text_of())] + self.children_within(
                    p,
                    depth + 1,
                    (fuel - 1) as nat,
                    self.nodes[p].children.len(),
                )
            },
        }
    }

    /// The outlines, at depth `depth` and within `fuel`, of the first `n`
    /// children of the node at position `p`.
    pub open spec fn children_within(self, p: int, depth: nat, fuel: nat, n: nat) -> Seq<(nat, Seq<char>)>
        decreases fuel, 1nat, n,
    {
        if n == 0 {
            Seq::empty()
        } else {
            self.children_within(p, depth, fuel, (n - 1) as nat) + self.outline_within(
                self.nodes[p].children[n - 1],
                depth,
                fuel,
            )
        }
    }

    /// The outline below `key` at depth `depth`. Where the nodes reachable
    /// from `key` have no cycle, no path runs out of the fuel, which is the
    /// number of nodes.
    pub open spec fn outline(self, key: I::Key, depth: nat) -> Seq<(nat, Seq<char>)> {
        self.outline_within(key, depth, self.nodes.len())
    }

    /// The outlines, at depth `depth`, of the first `n` children of the
    /// node at position `p`, one after the other.
    pub open spec fn children_outline(self, p: int, depth: nat, n: nat) -> Seq<(nat, Seq<char>)>
        decreases n,
    {
        if n == 0 {
            Seq::empty()
        } else {
            self.children_outline(p, depth, (n - 1) as nat) + self.outline(
                self.nodes[p].children[n - 1],
                depth,
            )
        }
    }

    /// More fuel than the paths from `key` need leaves the outline as it is.
    pub proof fn lemma_outline_fuel(self, key: I::Key, depth: nat, f: nat, g: nat)
        requires
            self.ends_within(key, f),
            f <= g,
        ensures
            self.outline_within(key, depth, f) == self.outline_within(key, depth, g),
        decreases f, 0nat, 0nat,
    {
        match self.position(key) {
            None => {},
            Some(p) => {
                self.lemma_children_fuel(
                    p,
                    depth + 1,
                    (f - 1) as nat,
                    (g - 1) as nat,
                    self.nodes[p].children.len(),
                );
            },
        }
    }

    /// More fuel than the paths from the first `n` children of position
    /// `p` need leaves their outlines as they are.
    pub proof fn lemma_children_fuel(self, p: int, depth: nat, f: nat, g: nat, n: nat)
        requires
            n <= self.nodes[p].children.len(),
            forall|k: int| 0 <= k < n ==> self.ends_within(#[trigger] self.nodes[p].children[k], f),
            f <= g,
        ensures
            self.children_within(p, depth, f, n) == self.children_within(p, depth, g, n),
        decreases f, 1nat, n,
    {
        if n > 0 {
            self.lemma_children_fuel(p, depth, f, g, (n - 1) as nat);
            self.lemma_outline_fuel(self.nodes[p].children[n - 1], depth, f, g);
        }
    }

    /// Below a node whose paths end within the number of nodes, the outlines
    /// of its first `n` children within one less are their outlines.
    proof fn lemma_children_outline(self, p: int, depth: nat, n: nat)
        requires
            self.ends_within_at(p, self.nodes.len()),
            n <= self.nodes[p].children.len(),
        ensures
            self.children_within(p, depth, (self.nodes.len() - 1) as nat, n) == self.children_outline(
                p,
                depth,
                n,
            ),
        decreases n,
    {
        if n > 0 {
            self.lemma_children_outline(p, depth, (n - 1) as nat);
            let c = self.nodes[p].children[n - 1];
            assert(self.ends_within(c, (self.nodes.len() - 1) as nat));
            self.lemma_outline_fuel(c, depth, (self.nodes.len() - 1) as nat, self.nodes.len());
        }
    }

    /// Where the nodes reachable from `key` have no cycle, its outline is
    /// nothing for an unknown key, a leaf with the text of `key` for a node
    /// without children, and otherwise the node, with the text of its own
    /// key, followed one level down by the outline below each of its
    /// children in order; from each child no cycle is reachable either.
    pub proof fn lemma_outline_unfolds(self, key: I::Key, depth: nat)
        requires
            self.acyclic_from(key),
        ensures
            match self.position(key) {
                None => self.outline(key, depth) == Seq::<(nat, Seq<char>)>::empty(),
                Some(p) => {
                    &&& self.nodes[p].children.len() == 0 ==> self.outline(key, depth) == seq![
                        (depth + 1, key.text_of()),
                    ]
                    &&& self.nodes[p].children.len() > 0 ==> self.outline(key, depth) == seq![
                        (depth + 1, self.nodes[p].value.key_of().text_of()),
                    ] + self.children_outline(p, depth + 1, self.nodes[p].children.len())
                    &&& forall|k: int|
                        0 <= k < self.nodes[p].children.len() ==> self.acyclic_from(
                            #[trigger] self.nodes[p].children[k],
                        )
                },
            },
    {
        self.lemma_ends_from_acyclic(key);
        match self.position(key) {
            None => {},
            Some(p) => {
                let n = self.nodes.len();
                self.lemma_children_outline(p, depth + 1, self.nodes[p].children.len());
                assert forall|k: int| 0 <= k < self.nodes[p].children.len() implies self.acyclic_from(
                    #[trigger] self.nodes[p].children[k],
                ) by {
                    let c = self.nodes[p].children[k];
                    assert(self.ends_within(c, (n - 1) as nat));
                    match self.position(c) {
                        Some(q) => self.lemma_ends_within_mono(q, (n - 1) as nat, n),
                        None => {},
                    }
                    self.lemma_acyclic_from_ends(c);
                }
            },
        }
    }
}

impl<I: KItem> KTree<I> where I::Key: PartialEq + Text {
    /// The position of the first node whose key equals `key`.
    fn find(&self, key: &I::Key) -> (pos: Option<usize>)
        requires
            <I::Key as PartialEqSpec>::obeys_eq_spec(),
        ensures
            match pos {
                Some(p) => self@.position(*key) == Some(p as int),
                None => self@.position(*key) is None,
            },
            match pos {
                Some(p) => self@.holds(p as int, *key) && forall|j: int|
                    0 <= j < p ==> !#[trigger] self@.holds(j, *key),
                None => forall|j: int| !#[trigger] self@.holds(j, *key),
            },
    {
        proof {
            self@.lemma_position_first(*key);
        }
        let mut i: usize = 0;
        while i < self.nodes.len()
            invariant
                i <= self@.nodes.len(),
                self@.nodes.len() == self.nodes@.len(),
                <I::Key as PartialEqSpec>::obeys_eq_spec(),
                self@.position(*key) == self@.position_from(*key, i as nat),
            decreases self@.nodes.len() - i,
        {
            proof {
                assert(self@.nodes[i as int] == self.nodes@[i as int]@);
            }
            if self.nodes[i].key().eq(key) {
                proof {
                    self@.lemma_position_first(*key);
                }
                return Some(i);
            }
            i = i + 1;
        }
        None
    }

    /// Whether every path from `key` ends within `fuel` nodes.
    fn ends_within(&self, key: &I::Key, fuel: usize) -> (ends: bool)
        requires
            <I::Key as PartialEqSpec>::obeys_eq_spec(),
        ensures
            ends == self@.ends_within(*key, fuel as nat),
        decreases fuel,
    {
        match self.find(key) {
            None => true,
            Some(p) => {
                if fuel == 0 {
                    return false;
                }
                proof {
                    self@.lemma_position_from(*key, 0);
                    assert(self@.nodes[p as int] == self.nodes@[p as int]@);
                }
                let node = &self.nodes[p];
                let mut i: usize = 0;
                while i < node.children.len()
                    invariant
                        <I::Key as PartialEqSpec>::obeys_eq_spec(),
                        0 < fuel,
                        self@.position(*key) == Some(p as int),
                        p < self@.nodes.len(),
                        node@ == self@.nodes[p as int],
                        node.children@ == node@.children,
                        i <= node@.children.len(),
                        forall|k: int|
                            0 <= k < i ==> self@.ends_within(
                                #[trigger] node@.children[k],
                                (fuel - 1) as nat,
                            ),
                    decreases node@.children.len() - i,
                {
                    if !self.ends_within(&node.children[i], fuel - 1) {
                        proof {
                            assert(!self@.ends_within(node@.children[i as int], (fuel - 1) as nat));
                        }
                        return false;
                    }
                    i = i + 1;
                }
                true
            },
        }
    }

    /// Whether the nodes reachable from `key`, following children, are free
    /// of cycles, so that the outline below `key` comes to an end.
    pub fn is_acyclic_from(&self, key: &I::Key) -> (acyclic: bool)
        requires
            <I::Key as PartialEqSpec>::obeys_eq_spec(),
        ensures
            acyclic == self@.acyclic_from(*key),
    {
        let ends = self.ends_within(key, self.nodes.len());
        proof {
            if ends {
                self@.lemma_acyclic_from_ends(*key);
            } else if self@.acyclic_from(*key) {
                self@.lemma_ends_from_acyclic(*key);
            }
        }
        ends
    }

    /// Whether the nodes reachable from the root are free of cycles, so that
    /// the outline of the tree comes to an end.
    pub fn is_acyclic(&self) -> (acyclic: bool)
        requires
            <I::Key as PartialEqSpec>::obeys_eq_spec(),
        ensures
            acyclic == self@.acyclic_from(self@.root),
    {
        self.is_acyclic_from(&self.root)
    }

    /// Adds to `tb` the outline below `key`: nothing for an unknown key, a
    /// leaf for a node without children, else the node and its children.
    fn pretty_node(&self, key: &I::Key, tb: &mut TreeBuilder, Ghost(fuel): Ghost<nat>)
        requires
            self@.ends_within(*key, fuel),
            <I::Key as PartialEqSpec>::obeys_eq_spec(),
            builder_ready(*old(tb)),
            builder_level(*old(tb)) + fuel <= u32::MAX,
        ensures
            builder_items(*final(tb)) == builder_items(*old(tb)) + self@.outline_within(
                *key,
                builder_level(*old(tb)),
                fuel,
            ),
            builder_level(*final(tb)) == builder_level(*old(tb)),
            builder_ready(*final(tb)),
        decreases fuel, 1nat,
    {
        let ghost level = builder_level(*tb);
        let ghost before = builder_items(*tb);
        match self.find(key) {
            Some(p) => {
                proof {
                    self@.lemma_position_from(*key, 0);
                    assert(self@.nodes[p as int] == self.nodes@[p as int]@);
                }
                if self.nodes[p].is_leaf() {
                    builder_add_empty_child(tb, key.text());
                    proof {
                        assert(builder_items(*tb) =~= before + seq![(level + 1, key.text_of())]);
                    }
                } else {
                    self.prety_child(p, tb, Ghost(fuel));
                }
            },
            None => {
                proof {
                    assert(builder_items(*tb) =~= before + Seq::<(nat, Seq<char>)>::empty());
                }
            },
        }
    }

    /// Adds to `tb` the node at position `p` and, below it, the outlines of
    /// its children.
    fn prety_child(&self, p: usize, tb: &mut TreeBuilder, Ghost(fuel): Ghost<nat>)
        requires
            p < self@.nodes.len(),
            self@.ends_within_at(p as int, fuel),
            <I::Key as PartialEqSpec>::obeys_eq_spec(),
            builder_ready(*old(tb)),
            builder_level(*old(tb)) + fuel <= u32::MAX,
        ensures
            builder_items(*final(tb)) == builder_items(*old(tb)) + seq![
                (builder_level(*old(tb)) + 1, self@.nodes[p as int].value.key_of().text_of()),
            ] + self@.children_within(
                p as int,
                builder_level(*old(tb)) + 1,
                (fuel - 1) as nat,
                self@.nodes[p as int].children.len(),
            ),
            builder_level(*final(tb)) == builder_level(*old(tb)),
            builder_ready(*final(tb)),
        decreases fuel, 0nat,
    {
        let ghost level = builder_level(*tb);
        let ghost before = builder_items(*tb);
        proof {
            assert(self@.nodes[p as int] == self.nodes@[p as int]@);
        }
        let node = &self.nodes[p];
        let ghost head = seq![(level + 1, self@.nodes[p as int].value.key_of().text_of())];
        builder_begin_child(tb, node.key().text());
        proof {
            assert(builder_items(*tb) =~= before + head + self@.children_within(
                p as int,
                level + 1,
                (fuel - 1) as nat,
                0,
            ));
        }
        let mut i: usize = 0;
        while i < node.children.len()
            invariant
                <I::Key as PartialEqSpec>::obeys_eq_spec(),
                p < self@.nodes.len(),
                self@.ends_within_at(p as int, fuel),
                node@ == self@.nodes[p as int],
                node.children@ == node@.children,
                i <= node@.children.len(),
                level + fuel <= u32::MAX,
                builder_level(*tb) == level + 1,
                builder_ready(*tb),
                head == seq![(level + 1, self@.nodes[p as int].value.key_of().text_of())],
                builder_items(*tb) == before + head + self@.children_within(
                    p as int,
                    level + 1,
                    (fuel - 1) as nat,
                    i as nat,
                ),
            decreases node@.children.len() - i,
        {
            let child = &node.children[i];
            proof {
                assert(self@.nodes[p as int].children[i as int] == *child);
                assert(self@.ends_within(self@.nodes[p as int].children[i as int], (fuel - 1) as nat));
            }
            self.pretty_node(child, tb, Ghost((fuel - 1) as nat));
            proof {
                assert(builder_items(*tb) =~= before + head + self@.children_within(
                    p as int,
                    level + 1,
                    (fuel - 1) as nat,
                    (i + 1) as nat,
                ));
            }
            i = i + 1;
        }
        builder_end_child(tb);
    }

    /// The outline of the tree as a `ptree` tree: the top item carries
    /// `title`, and below it comes the outline of the root.
    pub fn tree_item(&self, title: &str) -> (item: StringItem)
        requires
            self@.acyclic_from(self@.root),
            <I::Key as PartialEqSpec>::obeys_eq_spec(),
            self@.nodes.len() <= u32::MAX,
        ensures
            item_outline(item) == seq![(0nat, title@)] + self@.outline(self@.root, 0),
    {
        let mut tb = builder_new(String::from_str(title));
        proof {
            self@.lemma_ends_from_acyclic(self@.root);
        }
        self.pretty_node(&self.root, &mut tb, Ghost(self@.nodes.len()));
        builder_build(&mut tb)
    }
}

} // verus!
