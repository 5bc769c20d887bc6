use kaantor::tree::{KItem, KNode, KTree};

#[derive(Debug)]
struct Item {
    id: u32,
}

impl KItem for Item {
    type Key = u32;

    fn key_of(&self) -> u32 {
        self.id
    }

    fn key(&self) -> &u32 {
        &self.id
    }
}

fn node(id: u32, children: Vec<u32>) -> KNode<Item> {
    KNode::new(Item { id }, children)
}

#[test]
fn knode_accessors() {
    let leaf = node(4, vec![]);
    assert_eq!(4, *leaf.key());
    assert!(leaf.is_leaf());
    let inner = node(2, vec![4]);
    assert!(!inner.is_leaf());
    assert_eq!(vec![4], *inner.children());
}

#[test]
fn add_child_adopts_grandchildren_then_child() {
    let mut parent = node(1, vec![7]);
    let child = node(2, vec![4, 5]);
    parent.add_child(&child);
    assert_eq!(vec![7, 4, 5, 2], *parent.children());
    assert_eq!(1, *parent.key());
    let mut lone = node(9, vec![]);
    lone.add_child(&node(3, vec![]));
    assert_eq!(vec![3], *lone.children());
}

#[test]
fn tree_item_outlines_nodes_in_preorder() {
    let tree = KTree::new(
        1,
        vec![node(1, vec![2, 3]), node(2, vec![4]), node(3, vec![5]), node(4, vec![]), node(5, vec![])],
    );
    let item = tree.tree_item("SPANNING-TREE");
    assert_eq!("SPANNING-TREE", item.text);
    assert_eq!(1, item.children.len());
    let root = &item.children[0];
    assert_eq!("1", root.text);
    assert_eq!(vec!["2", "3"], root.children.iter().map(|c| c.text.as_str()).collect::<Vec<_>>());
    assert_eq!("4", root.children[0].children[0].text);
    assert!(root.children[0].children[0].children.is_empty());
    assert_eq!("5", root.children[1].children[0].text);
}

#[test]
fn tree_item_skips_unknown_keys() {
    let tree = KTree::new(1, vec![node(1, vec![8, 2]), node(2, vec![])]);
    let item = tree.tree_item("t");
    assert_eq!(1, item.children.len());
    assert_eq!(vec!["2"], item.children[0].children.iter().map(|c| c.text.as_str()).collect::<Vec<_>>());

    let unknown_root = KTree::new(6, vec![node(1, vec![])]);
    let item = unknown_root.tree_item("empty");
    assert_eq!("empty", item.text);
    assert!(item.children.is_empty());

    let leaf_root = KTree::new(1, vec![node(1, vec![])]);
    let item = leaf_root.tree_item("leaf");
    assert_eq!("1", item.children[0].text);
    assert!(item.children[0].children.is_empty());
}

#[test]
fn acyclicity_is_checked_only_from_the_root() {
    let tree = KTree::new(1, vec![node(1, vec![2]), node(2, vec![]), node(3, vec![4]), node(4, vec![3])]);
    assert!(tree.is_acyclic());
    assert!(!tree.is_acyclic_from(&3));
    assert!(tree.is_acyclic_from(&9));
    let item = tree.tree_item("reachable");
    assert_eq!(1, item.children.len());
    assert_eq!("1", item.children[0].text);
    assert_eq!(vec!["2"], item.children[0].children.iter().map(|c| c.text.as_str()).collect::<Vec<_>>());

    let looping = KTree::new(1, vec![node(1, vec![2]), node(2, vec![1])]);
    assert!(!looping.is_acyclic());
    let self_loop = KTree::new(1, vec![node(1, vec![1])]);
    assert!(!self_loop.is_acyclic());
    let diamond = KTree::new(1, vec![node(1, vec![2, 3]), node(2, vec![4]), node(3, vec![4]), node(4, vec![])]);
    assert!(diamond.is_acyclic());
}
