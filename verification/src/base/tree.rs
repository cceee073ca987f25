//! Traits of the nodes of a tree.
use vstd::prelude::*;

verus! {

/// A node known by an identifier.
pub trait ID<T> {
    fn id(&self) -> &T;
}

/// A node that may have a parent.
pub trait ParentNode<T> {
    fn parent(&mut self) -> Option<&T>;
}

/// A node with children.
pub trait ChildrenNode<T> {
    fn children(&mut self) -> Vec<&T>;
}

} // verus!
