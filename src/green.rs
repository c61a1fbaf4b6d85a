//! The green tree: immutable, reference-counted syntax nodes that know their
//! kind, their children and their byte length, but not where they stand.
use crate::kind::{kind_fits, NodeKind};
use std::rc::Rc;
use vstd::prelude::*;

verus! {

/// Relies on `Rc::clone`: the new pointer refers to the same allocation as
/// `p`, so the value behind it is the same.
#[verifier::external_body]
pub(crate) fn share_rc<T>(p: &Rc<T>) -> (r: Rc<T>)
    ensures
        r == *p,
{
    Rc::clone(p)
}

/// A leaf of the green tree: a token of some kind and byte length.
#[derive(Debug, PartialEq, Eq)]
pub struct GreenData {
    kind: NodeKind,
    len: usize,
}

impl GreenData {
    #[verifier::type_invariant]
    spec fn inv(self) -> bool {
        kind_fits(self.kind, self.len as nat)
    }

    /// The kind of the token.
    pub closed spec fn spec_kind(self) -> NodeKind {
        self.kind
    }

    /// The byte length of the token.
    pub closed spec fn spec_len(self) -> nat {
        self.len as nat
    }

    /// Creates a token of the given kind and byte length.
    pub fn new(kind: NodeKind, len: usize) -> (r: GreenData)
        requires
            kind_fits(kind, len as nat),
        ensures
            r.spec_kind() == kind,
            r.spec_len() == len,
    {
        GreenData { kind, len }
    }

    /// The kind of the token.
    pub fn kind(&self) -> (r: &NodeKind)
        ensures
            *r == self.spec_kind(),
    {
        &self.kind
    }

    /// The byte length of the token; it leaves room for what its kind holds.
    pub fn len(&self) -> (r: usize)
        ensures
            r == self.spec_len(),
            kind_fits(self.spec_kind(), self.spec_len()),
    {
        proof {
            use_type_invariant(self);
        }
        self.len
    }
}

/// A child in the green tree: an inner node or a token.
#[derive(Debug, PartialEq, Eq)]
pub enum Green {
    /// An inner node with children of its own.
    Node(Rc<GreenNode>),
    /// A token.
    Token(Rc<GreenData>),
}

/// The sum of the byte lengths of `s`.
pub open spec fn sum_lens(s: Seq<Green>) -> nat
    decreases s.len(),
{
    if s.len() == 0 {
        0
    } else {
        sum_lens(s.drop_last()) + s.last().spec_len()
    }
}

/// The sum over a longer prefix adds the next element, and no prefix sums to
/// more than the whole.
pub proof fn lemma_prefix_sum(s: Seq<Green>, i: int)
    requires
        0 <= i < s.len(),
    ensures
        sum_lens(s.take(i + 1)) == sum_lens(s.take(i)) + s[i].spec_len(),
        sum_lens(s.take(i + 1)) <= sum_lens(s),
    decreases s.len(),
{
    assert(s.take(i + 1).drop_last() =~= s.take(i));
    if i + 1 < s.len() {
        lemma_prefix_sum(s.drop_last(), i);
        assert(s.drop_last().take(i + 1) =~= s.take(i + 1));
        assert(s.drop_last().take(i) =~= s.take(i));
    } else {
        assert(s.take(i + 1) =~= s);
    }
}

/// An inner node of the green tree. Its byte length is always the sum of its
/// children's byte lengths.
#[derive(Debug, PartialEq, Eq)]
pub struct GreenNode {
    data: GreenData,
    children: Vec<Green>,
}

impl GreenNode {
    #[verifier::type_invariant]
    spec fn inv(self) -> bool {
        self.data.spec_len() == sum_lens(self.children@)
    }

    /// The kind of the node.
    pub closed spec fn spec_kind(self) -> NodeKind {
        self.data.spec_kind()
    }

    /// The byte length of the node.
    pub closed spec fn spec_len(self) -> nat {
        self.data.spec_len()
    }

    /// The children of the node, in order.
    pub closed spec fn spec_children(self) -> Seq<Green> {
        self.children@
    }

    /// Creates a node of the given kind over the given children; its length is
    /// the sum of theirs.
    pub fn new(kind: NodeKind, children: Vec<Green>) -> (r: GreenNode)
        requires
            sum_lens(children@) <= usize::MAX,
            kind_fits(kind, sum_lens(children@)),
        ensures
            r.spec_kind() == kind,
            r.spec_children() == children@,
            r.spec_len() == sum_lens(children@),
    {
        let mut len: usize = 0;
        let mut i: usize = 0;
        while i < children.len()
            invariant
                i <= children@.len(),
                len == sum_lens(children@.take(i as int)),
                sum_lens(children@) <= usize::MAX,
            decreases children@.len() - i,
        {
            proof {
                lemma_prefix_sum(children@, i as int);
            }
            len = len + children[i].len();
            i = i + 1;
        }
        assert(children@.take(i as int) =~= children@);
        GreenNode { data: GreenData::new(kind, len), children }
    }

    /// The kind of the node.
    pub fn kind(&self) -> (r: &NodeKind)
        ensures
            *r == self.spec_kind(),
    {
        self.data.kind()
    }

    /// The byte length of the node, which is the sum of its children's.
    pub fn len(&self) -> (r: usize)
        ensures
            r == self.spec_len(),
            r == sum_lens(self.spec_children()),
    {
        proof {
            use_type_invariant(self);
        }
        self.data.len()
    }

    /// The children of the node, in order.
    pub fn children(&self) -> (r: &Vec<Green>)
        ensures
            r@ == self.spec_children(),
    {
        &self.children
    }
}

impl Green {
    /// The kind of this child.
    pub open spec fn spec_kind(self) -> NodeKind {
        match self {
            Green::Node(n) => n.spec_kind(),
            Green::Token(t) => t.spec_kind(),
        }
    }

    /// The byte length of this child.
    pub open spec fn spec_len(self) -> nat {
        match self {
            Green::Node(n) => n.spec_len(),
            Green::Token(t) => t.spec_len(),
        }
    }

    /// The children of this child: none for a token.
    pub open spec fn spec_children(self) -> Seq<Green> {
        match self {
            Green::Node(n) => n.spec_children(),
            Green::Token(_) => Seq::empty(),
        }
    }

    /// A byte length is always a `usize`.
    pub proof fn lemma_len_fits(self)
        ensures
            self.spec_len() <= usize::MAX,
    {
    }

    /// The kind of this child.
    pub fn kind(&self) -> (r: &NodeKind)
        ensures
            *r == self.spec_kind(),
    {
        match self {
            Green::Node(n) => n.kind(),
            Green::Token(t) => t.kind(),
        }
    }

    /// The byte length of this child: for a node, the sum of its children's.
    pub fn len(&self) -> (r: usize)
        ensures
            r == self.spec_len(),
            self is Node ==> r == sum_lens(self.spec_children()),
            kind_fits(self.spec_kind(), self.spec_len()),
    {
        match self {
            Green::Node(n) => {
                proof {
                    use_type_invariant(&**n);
                    use_type_invariant(&n.data);
                }
                n.len()
            },
            Green::Token(t) => t.len(),
        }
    }
}

impl Clone for Green {
    /// Another handle on the same node or token: nothing is copied but a
    /// pointer, and the result is the same tree.
    fn clone(&self) -> (r: Self)
        ensures
            r == *self,
    {
        match self {
            Green::Node(n) => Green::Node(share_rc(n)),
            Green::Token(t) => Green::Token(share_rc(t)),
        }
    }
}

} // verus!
