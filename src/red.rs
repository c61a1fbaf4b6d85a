//! The red view: a green node seen at an absolute position, with the chain of
//! red nodes that led to it. Red nodes are built during a traversal and
//! dropped after it; nothing in the green tree points back at them.
use crate::green::{lemma_prefix_sum, share_rc, sum_lens, Green};
use crate::kind::NodeKind;
use crate::span::{SourceId, Span};
use std::rc::Rc;
use vstd::prelude::*;

verus! {

/// A green node at an absolute offset in a source file, with its parent.
#[derive(Debug, PartialEq, Eq)]
pub struct RedNode {
    id: SourceId,
    offset: usize,
    green: Green,
    parent: Option<Rc<RedNode>>,
    index: usize,
}

/// Whether `child` stands as the `i`-th child of `parent`: it wraps the
/// `i`-th green child, in the same file, starting where the preceding
/// siblings end.
pub open spec fn placed_under(child: RedNode, parent: RedNode, i: int) -> bool {
    let siblings = parent.spec_green().spec_children();
    &&& 0 <= i < siblings.len()
    &&& child.spec_green() == siblings[i]
    &&& child.spec_id() == parent.spec_id()
    &&& child.spec_offset() == parent.spec_offset() + sum_lens(siblings.take(i))
}

/// The children of a red node lie end to end: each starts where the one
/// before it ends, the first where the parent starts, and the last ends where
/// the parent's children together end.
pub proof fn lemma_children_contiguous(parent: RedNode, kids: Seq<RedNode>)
    requires
        kids.len() == parent.spec_green().spec_children().len(),
        forall|i: int| 0 <= i < kids.len() ==> placed_under(#[trigger] kids[i], parent, i),
    ensures
        kids.len() > 0 ==> kids[0].spec_offset() == parent.spec_offset(),
        forall|i: int|
            0 <= i < kids.len() - 1 ==> (#[trigger] kids[i]).spec_offset()
                + kids[i].spec_green().spec_len() == kids[i + 1].spec_offset(),
        kids.len() > 0 ==> kids.last().spec_offset() + kids.last().spec_green().spec_len()
            == parent.spec_offset() + sum_lens(parent.spec_green().spec_children()),
{
    let siblings = parent.spec_green().spec_children();
    if kids.len() > 0 {
        assert(placed_under(kids[0], parent, 0));
        assert(siblings.take(0) =~= Seq::<Green>::empty());
        let n = kids.len() - 1;
        assert(placed_under(kids[n], parent, n));
        lemma_prefix_sum(siblings, n);
        assert(siblings.take(n + 1) =~= siblings);
    }
    assert forall|i: int| 0 <= i < kids.len() - 1 implies (#[trigger] kids[i]).spec_offset()
        + kids[i].spec_green().spec_len() == kids[i + 1].spec_offset() by {
        assert(placed_under(kids[i], parent, i));
        assert(placed_under(kids[i + 1], parent, i + 1));
        lemma_prefix_sum(siblings, i);
    }
}

impl RedNode {
    #[verifier::type_invariant]
    spec fn inv(self) -> bool {
        &&& self.offset + self.green.spec_len() <= usize::MAX
        &&& match self.parent {
            None => self.offset == 0 && self.index == 0,
            Some(p) => placed_under(self, *p, self.index as int),
        }
    }

    /// The file the node lies in.
    pub closed spec fn spec_id(self) -> SourceId {
        self.id
    }

    /// The absolute byte offset where the node starts.
    pub closed spec fn spec_offset(self) -> nat {
        self.offset as nat
    }

    /// The green node this red node wraps.
    pub closed spec fn spec_green(self) -> Green {
        self.green
    }

    /// The red node this one was reached from, if any.
    pub closed spec fn spec_parent(self) -> Option<RedNode> {
        match self.parent {
            Some(p) => Some(*p),
            None => None,
        }
    }

    /// The position of this node among its parent's children.
    pub closed spec fn spec_index(self) -> nat {
        self.index as nat
    }

    /// The kind of the node.
    pub open spec fn spec_kind(self) -> NodeKind {
        self.spec_green().spec_kind()
    }

    /// The byte range the node covers: from its offset, its green length long.
    pub open spec fn spec_span(self) -> Span {
        Span {
            source: self.spec_id(),
            start: self.spec_offset() as usize,
            end: (self.spec_offset() + self.spec_green().spec_len()) as usize,
        }
    }

    /// The red node of the `i`-th child.
    pub closed spec fn child_at(self, i: int) -> RedNode {
        RedNode {
            id: self.id,
            offset: (self.offset + sum_lens(self.green.spec_children().take(i))) as usize,
            green: self.green.spec_children()[i],
            parent: Some(Rc::new(self)),
            index: i as usize,
        }
    }

    /// The red nodes of all children, in order.
    pub open spec fn child_reds(self) -> Seq<RedNode> {
        Seq::new(self.spec_green().spec_children().len(), |i: int| self.child_at(i))
    }

    /// The red node of a whole tree: offset zero, no parent.
    pub fn root(green: Green, id: SourceId) -> (r: RedNode)
        ensures
            r.spec_green() == green,
            r.spec_id() == id,
            r.spec_offset() == 0,
            r.spec_parent() is None,
    {
        proof {
            green.lemma_len_fits();
        }
        RedNode { id, offset: 0, green, parent: None, index: 0 }
    }

    /// The green node this red node wraps.
    pub fn green(&self) -> (r: &Green)
        ensures
            *r == self.spec_green(),
    {
        &self.green
    }

    /// The kind of the node.
    pub fn kind(&self) -> (r: &NodeKind)
        ensures
            *r == self.spec_kind(),
    {
        self.green.kind()
    }

    /// The absolute byte offset where the node starts.
    pub fn offset(&self) -> (r: usize)
        ensures
            r == self.spec_offset(),
    {
        self.offset
    }

    /// The byte range the node covers: from its offset, its green length long.
    pub fn span(&self) -> (r: Span)
        ensures
            r == self.spec_span(),
            r.source == self.spec_id(),
            r.start == self.spec_offset(),
            r.end == self.spec_offset() + self.spec_green().spec_len(),
            r.wf(),
    {
        proof {
            use_type_invariant(self);
        }
        let len = self.green.len();
        Span::new(self.id, self.offset, self.offset + len)
    }

    /// The node this one was reached from. A node with a parent starts where
    /// its preceding siblings end; one without starts at zero.
    pub fn parent(&self) -> (r: Option<&RedNode>)
        ensures
            match r {
                Some(p) => {
                    &&& self.spec_parent() == Some(*p)
                    &&& placed_under(*self, *p, self.spec_index() as int)
                },
                None => self.spec_parent() is None && self.spec_offset() == 0,
            },
    {
        proof {
            use_type_invariant(self);
        }
        match &self.parent {
            Some(p) => Some(&**p),
            None => None,
        }
    }

    /// The red nodes of the children, in order. Each has this node as its
    /// parent and starts where the preceding siblings end.
    pub fn children(&self) -> (r: Vec<RedNode>)
        ensures
            r@ == self.child_reds(),
            forall|i: int|
                0 <= i < r@.len() ==> {
                    &&& placed_under(#[trigger] r@[i], *self, i)
                    &&& r@[i].spec_parent() == Some(*self)
                    &&& r@[i].spec_index() == i
                },
    {
        proof {
            use_type_invariant(self);
        }
        let mut out: Vec<RedNode> = Vec::new();
        match &self.green {
            Green::Token(_) => {
                assert(out@ =~= self.child_reds());
            },
            Green::Node(n) => {
                let total = n.len();
                let kids = n.children();
                let me: Rc<RedNode> = Rc::new(self.clone());
                let mut off: usize = self.offset;
                let mut i: usize = 0;
                while i < kids.len()
                    invariant
                        self.green == Green::Node(*n),
                        kids@ == self.green.spec_children(),
                        total == sum_lens(kids@),
                        self.offset + total <= usize::MAX,
                        *me == *self,
                        i <= kids@.len(),
                        off == self.offset + sum_lens(kids@.take(i as int)),
                        out@.len() == i,
                        forall|j: int| 0 <= j < i ==> out@[j] == self.child_at(j),
                        forall|j: int|
                            0 <= j < i ==> {
                                &&& placed_under(#[trigger] out@[j], *self, j)
                                &&& out@[j].spec_parent() == Some(*self)
                                &&& out@[j].spec_index() == j
                            },
                    decreases kids@.len() - i,
                {
                    proof {
                        lemma_prefix_sum(kids@, i as int);
                    }
                    let green = kids[i].clone();
                    let len = green.len();
                    let child = RedNode {
                        id: self.id,
                        offset: off,
                        green,
                        parent: Some(share_rc(&me)),
                        index: i,
                    };
                    out.push(child);
                    off = off + len;
                    i = i + 1;
                }
                assert(out@ =~= self.child_reds());
            },
        }
        out
    }
}

impl Clone for RedNode {
    /// Another red node at the same place: the green node and the parent are
    /// shared, not copied.
    fn clone(&self) -> (r: Self)
        ensures
            r == *self,
    {
        proof {
            use_type_invariant(self);
        }
        let parent = match &self.parent {
            Some(p) => Some(share_rc(p)),
            None => None,
        };
        RedNode {
            id: self.id,
            offset: self.offset,
            green: self.green.clone(),
            parent,
            index: self.index,
        }
    }
}

} // verus!
