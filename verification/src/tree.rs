//! A tree whose nodes own their children outright.
//!
//! Ownership points strictly downward, so the graph is acyclic by
//! construction and dropping a node reclaims its whole subtree. The parent
//! link is deliberately non-owning: a node records only its parent's label,
//! so the back-reference can never keep a parent alive, and a node that was
//! never attached answers "no parent".

use vstd::prelude::*;

verus! {

/// A labeled node owning a sequence of child nodes, with a non-owning
/// record of the parent it was attached to.
#[derive(Debug)]
pub struct TreeNode {
    pub value: i32,
    pub children: Vec<TreeNode>,
    pub parent: Option<i32>,
}

impl TreeNode {
    /// A fresh node: no children, not attached to any parent.
    pub fn new(value: i32) -> (node: TreeNode)
        ensures
            node.value == value,
            node.children@.len() == 0,
            node.parent is None,
    {
        TreeNode { value, children: Vec::new(), parent: None }
    }

    /// Takes ownership of `child`, records this node's label as its parent,
    /// and appends it to the child list.
    pub fn add_child(&mut self, child: TreeNode)
        ensures
            final(self).value == old(self).value,
            final(self).parent == old(self).parent,
            final(self).children@ == old(self).children@.push(
                (TreeNode { value: child.value, children: child.children, parent: Some(old(self).value) }),
            ),
    {
        let mut adopted = child;
        adopted.parent = Some(self.value);
        self.children.push(adopted);
    }

    /// Resolves the non-owning parent link: the parent's label, or `None`
    /// for a node that was never attached.
    pub fn get_parent_value(&self) -> (r: Option<i32>)
        ensures
            r == self.parent,
    {
        self.parent
    }
}

} // verus!
