//! The syntax-tree core of a markup language: an immutable, shared green
//! tree, a red view that adds absolute positions and ancestry, and a typed
//! markup AST obtained by casting red nodes.
pub mod expr;
pub mod green;
pub mod kind;
pub mod markup;
pub mod red;
pub mod span;
