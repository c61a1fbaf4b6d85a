//! The markup AST: typed views of red nodes, obtained by casting.
use crate::expr::{expr_spec, Expr, ExprView, Ident, IdentView};
use crate::green::Green;
use crate::kind::{is_error_kind, utf8_len, NodeKind, RawData, UnicodeEscapeData};
use crate::red::{placed_under, RedNode};
use crate::span::Span;
use vstd::prelude::*;
use vstd::string::StringExecFns;

verus! {

/// Relies on `String::from(char)`: a string holding just that character.
#[verifier::external_body]
fn char_to_string(c: char) -> (r: String)
    ensures
        r@ == seq![c],
{
    String::from(c)
}

/// The syntactical root capable of representing a full parsed document.
pub type Markup = Vec<MarkupNode>;

/// A single piece of markup.
#[derive(Debug, Clone, PartialEq, Eq)]
pub enum MarkupNode {
    /// Whitespace containing less than two newlines.
    Space,
    /// A forced line break: `\`.
    Linebreak,
    /// A paragraph break: two or more newlines.
    Parbreak,
    /// Strong text was enabled / disabled: `*`.
    Strong,
    /// Emphasized text was enabled / disabled: `_`.
    Emph,
    /// Plain text.
    Text(String),
    /// A raw block with optional syntax highlighting: `` `...` ``.
    Raw(RawNode),
    /// A section heading: `= Introduction`.
    Heading(HeadingNode),
    /// An item in an unordered list: `- ...`.
    List(ListNode),
    /// An item in an enumeration (ordered list): `1. ...`.
    Enum(EnumNode),
    /// An expression.
    Expr(Expr),
}

/// A raw block with optional syntax highlighting: `` `...` ``.
#[derive(Debug, Clone, PartialEq, Eq)]
pub struct RawNode {
    /// An optional identifier specifying the language to syntax-highlight in.
    pub lang: Option<Ident>,
    /// The raw text, trimmed by the parser.
    pub text: String,
    /// Whether the element is block-level, that is, it has 3+ backticks and
    /// contains at least one newline.
    pub block: bool,
}

/// A section heading: `= Introduction`.
#[derive(Debug, Clone, PartialEq, Eq)]
pub struct HeadingNode(pub RedNode);

/// An item in an unordered list: `- ...`.
#[derive(Debug, Clone, PartialEq, Eq)]
pub struct ListNode(pub RedNode);

/// An item in an enumeration (ordered list): `1. ...`.
#[derive(Debug, Clone, PartialEq, Eq)]
pub struct EnumNode(pub RedNode);

/// The mathematical value of a raw block.
pub struct RawView {
    pub lang: Option<IdentView>,
    pub text: Seq<char>,
    pub block: bool,
}

/// The mathematical value of a piece of markup. Composite items stand for
/// the red node they were cast from.
pub enum MarkupView {
    Space,
    Linebreak,
    Parbreak,
    Strong,
    Emph,
    Text(Seq<char>),
    Raw(RawView),
    Heading(RedNode),
    List(RedNode),
    Enum(RedNode),
    Expr(ExprView),
}

impl View for RawNode {
    type V = RawView;

    open spec fn view(&self) -> RawView {
        RawView {
            lang: match self.lang {
                Some(i) => Some(i@),
                None => None,
            },
            text: self.text@,
            block: self.block,
        }
    }
}

impl View for MarkupNode {
    type V = MarkupView;

    open spec fn view(&self) -> MarkupView {
        match self {
            MarkupNode::Space => MarkupView::Space,
            MarkupNode::Linebreak => MarkupView::Linebreak,
            MarkupNode::Parbreak => MarkupView::Parbreak,
            MarkupNode::Strong => MarkupView::Strong,
            MarkupNode::Emph => MarkupView::Emph,
            MarkupNode::Text(s) => MarkupView::Text(s@),
            MarkupNode::Raw(r) => MarkupView::Raw(r@),
            MarkupNode::Heading(h) => MarkupView::Heading(h.0),
            MarkupNode::List(l) => MarkupView::List(l.0),
            MarkupNode::Enum(e) => MarkupView::Enum(e.0),
            MarkupNode::Expr(e) => MarkupView::Expr(e@),
        }
    }
}

/// The values of a sequence of markup items.
pub open spec fn markup_view(s: Seq<MarkupNode>) -> Seq<MarkupView> {
    s.map_values(|m: MarkupNode| m@)
}

/// The text of a unicode escape: the character if the sequence names one,
/// else the escape written out, `\u{<sequence>}`.
pub open spec fn escape_text(u: UnicodeEscapeData) -> Seq<char> {
    match u.character {
        Some(c) => seq![c],
        None => seq!['\\', 'u', '{'] + u.sequence@ + seq!['}'],
    }
}

/// What a raw block at `node` with payload `raw` casts to. The language tag
/// starts right after the opening backticks.
pub open spec fn raw_spec(node: RedNode, raw: RawData) -> RawView {
    let start = node.spec_offset() + raw.backticks;
    RawView {
        lang: match raw.lang {
            Some(tag) => Some(
                IdentView {
                    string: tag@,
                    span: Span {
                        source: node.spec_id(),
                        start: start as usize,
                        end: (start + utf8_len(tag@)) as usize,
                    },
                },
            ),
            None => None,
        },
        text: raw.text@,
        block: raw.block,
    }
}

/// What casting `node` to a single piece of markup gives. Error nodes give
/// nothing; kinds that markup does not know are cast as expressions.
pub open spec fn markup_node_spec(node: RedNode) -> Option<MarkupView> {
    match node.spec_kind() {
        NodeKind::Space(_) => Some(MarkupView::Space),
        NodeKind::Linebreak => Some(MarkupView::Linebreak),
        NodeKind::Parbreak => Some(MarkupView::Parbreak),
        NodeKind::Strong => Some(MarkupView::Strong),
        NodeKind::Emph => Some(MarkupView::Emph),
        NodeKind::Text(s) => Some(MarkupView::Text(s@)),
        NodeKind::UnicodeEscape(u) => Some(MarkupView::Text(escape_text(u))),
        NodeKind::EnDash => Some(MarkupView::Text(seq!['\u{2013}'])),
        NodeKind::EmDash => Some(MarkupView::Text(seq!['\u{2014}'])),
        NodeKind::NonBreakingSpace => Some(MarkupView::Text(seq!['\u{00A0}'])),
        NodeKind::Raw(raw) => Some(MarkupView::Raw(raw_spec(node, raw))),
        NodeKind::Heading => Some(MarkupView::Heading(node)),
        NodeKind::List => Some(MarkupView::List(node)),
        NodeKind::Enum => Some(MarkupView::Enum(node)),
        NodeKind::Error(_, _) => None,
        _ => match expr_spec(node) {
            Some(e) => Some(MarkupView::Expr(e)),
            None => None,
        },
    }
}

/// The items that a sequence of red nodes casts to: each node that casts to
/// a piece of markup, in order.
pub open spec fn markup_items(nodes: Seq<RedNode>) -> Seq<MarkupView> {
    nodes.filter_map(|c: RedNode| markup_node_spec(c))
}

/// What casting `node` to markup gives: only a markup node casts, to the
/// items of its children.
pub open spec fn markup_spec(node: RedNode) -> Option<Seq<MarkupView>> {
    if node.spec_kind() is Markup {
        Some(markup_items(node.child_reds()))
    } else {
        None
    }
}

/// Casts `node` to markup: a markup node gives the pieces its children cast
/// to, in order, dropping the children that do not cast.
pub fn cast_markup(node: &RedNode) -> (r: Option<Markup>)
    ensures
        match r {
            Some(m) => markup_spec(*node) == Some(markup_view(m@)),
            None => markup_spec(*node) is None,
        },
{
    match node.kind() {
        NodeKind::Markup => {},
        _ => {
            return None;
        },
    }
    let kids = node.children();
    let mut out: Markup = Vec::new();
    let mut i: usize = 0;
    while i < kids.len()
        invariant
            i <= kids@.len(),
            markup_view(out@) == markup_items(kids@.take(i as int)),
        decreases kids@.len() - i,
    {
        let item = MarkupNode::cast_from(&kids[i]);
        assert(kids@.take(i + 1).drop_last() =~= kids@.take(i as int));
        let ghost before = out@;
        match item {
            Some(m) => {
                out.push(m);
                assert(markup_view(out@) =~= markup_view(before).push(m@));
            },
            None => {},
        }
        assert(markup_view(out@) =~= markup_items(kids@.take(i + 1)));
        i = i + 1;
    }
    assert(kids@.take(i as int) =~= kids@);
    Some(out)
}

impl RawNode {
    /// The raw block at `node`, whose payload is `raw`.
    fn from_data(node: &RedNode, raw: &RawData) -> (r: RawNode)
        requires
            node.spec_kind() == NodeKind::Raw(*raw),
        ensures
            r@ == raw_spec(*node, *raw),
            r.lang matches Some(tag) ==> {
                &&& tag.span.start == node.spec_offset() + raw.backticks
                &&& tag.span.end == tag.span.start + utf8_len(tag.string@)
            },
    {
        let len = node.green().len();
        let span = node.span();
        let start = span.start + raw.backticks as usize;
        let lang = match &raw.lang {
            Some(tag) => {
                let end = start + tag.as_str().len();
                Some(Ident { string: tag.clone(), span: Span::new(span.source, start, end) })
            },
            None => None,
        };
        RawNode { lang, text: raw.text.clone(), block: raw.block }
    }

    /// Casts `node` to a raw block, if it is one.
    pub fn cast_from(node: &RedNode) -> (r: Option<RawNode>)
        ensures
            r is Some <==> node.spec_kind() is Raw,
            r matches Some(x) ==> x@ == raw_spec(*node, node.spec_kind()->Raw_0),
            r matches Some(x) ==> (x.lang matches Some(tag) ==> {
                &&& tag.span.start == node.spec_offset() + node.spec_kind()->Raw_0.backticks
                &&& tag.span.end == tag.span.start + utf8_len(tag.string@)
            }),
    {
        match node.kind() {
            NodeKind::Raw(raw) => Some(RawNode::from_data(node, raw)),
            _ => None,
        }
    }
}

/// The text of a unicode escape.
fn escape_string(u: &UnicodeEscapeData) -> (r: String)
    ensures
        r@ == escape_text(*u),
{
    match u.character {
        Some(c) => char_to_string(c),
        None => {
            proof {
                reveal_strlit("\\u{");
                reveal_strlit("}");
            }
            let mut s = String::from_str("\\u{");
            s.append(u.sequence.as_str());
            s.append("}");
            assert(s@ =~= escape_text(*u));
            s
        },
    }
}

/// A string holding the text `lit`.
fn text_of(lit: &str) -> (r: String)
    ensures
        r@ == lit@,
{
    String::from_str(lit)
}

impl HeadingNode {
    /// Casts `node` to a heading, if its kind is one.
    pub fn cast_from(node: &RedNode) -> (r: Option<HeadingNode>)
        ensures
            r is Some <==> node.spec_kind() is Heading,
            r matches Some(h) ==> h.0 == *node,
    {
        match node.kind() {
            NodeKind::Heading => Some(HeadingNode(node.clone())),
            _ => None,
        }
    }
}

impl ListNode {
    /// Casts `node` to a list item, if its kind is one.
    pub fn cast_from(node: &RedNode) -> (r: Option<ListNode>)
        ensures
            r is Some <==> node.spec_kind() is List,
            r matches Some(l) ==> l.0 == *node,
    {
        match node.kind() {
            NodeKind::List => Some(ListNode(node.clone())),
            _ => None,
        }
    }
}

impl EnumNode {
    /// Casts `node` to an enumeration item, if its kind is one.
    pub fn cast_from(node: &RedNode) -> (r: Option<EnumNode>)
        ensures
            r is Some <==> node.spec_kind() is Enum,
            r matches Some(e) ==> e.0 == *node,
    {
        match node.kind() {
            NodeKind::Enum => Some(EnumNode(node.clone())),
            _ => None,
        }
    }
}

impl MarkupNode {
    /// Casts `node` to a single piece of markup. Error nodes do not cast;
    /// kinds that markup does not know are cast as expressions.
    pub fn cast_from(node: &RedNode) -> (r: Option<MarkupNode>)
        ensures
            match r {
                Some(m) => markup_node_spec(*node) == Some(m@),
                None => markup_node_spec(*node) is None,
            },
    {
        match node.kind() {
            NodeKind::Space(_) => Some(MarkupNode::Space),
            NodeKind::Linebreak => Some(MarkupNode::Linebreak),
            NodeKind::Parbreak => Some(MarkupNode::Parbreak),
            NodeKind::Strong => Some(MarkupNode::Strong),
            NodeKind::Emph => Some(MarkupNode::Emph),
            NodeKind::Text(s) => {
                let t = s.clone();
                assert(markup_node_spec(*node) == Some(MarkupView::Text(t@)));
                Some(MarkupNode::Text(t))
            },
            NodeKind::UnicodeEscape(u) => {
                let t = escape_string(u);
                assert(markup_node_spec(*node) == Some(MarkupView::Text(t@)));
                Some(MarkupNode::Text(t))
            },
            NodeKind::EnDash => {
                proof {
                    reveal_strlit("\u{2013}");
                }
                let t = text_of("\u{2013}");
                assert(t@ == seq!['\u{2013}']);
                Some(MarkupNode::Text(t))
            },
            NodeKind::EmDash => {
                proof {
                    reveal_strlit("\u{2014}");
                }
                let t = text_of("\u{2014}");
                assert(t@ == seq!['\u{2014}']);
                Some(MarkupNode::Text(t))
            },
            NodeKind::NonBreakingSpace => {
                proof {
                    reveal_strlit("\u{00A0}");
                }
                let t = text_of("\u{00A0}");
                assert(t@ == seq!['\u{00A0}']);
                Some(MarkupNode::Text(t))
            },
            NodeKind::Raw(raw) => {
                let x = RawNode::from_data(node, raw);
                assert(markup_node_spec(*node) == Some(MarkupView::Raw(x@)));
                Some(MarkupNode::Raw(x))
            },
            NodeKind::Heading => {
                let h = node.clone();
                assert(markup_node_spec(*node) == Some(MarkupView::Heading(h)));
                Some(MarkupNode::Heading(HeadingNode(h)))
            },
            NodeKind::List => {
                let h = node.clone();
                assert(markup_node_spec(*node) == Some(MarkupView::List(h)));
                Some(MarkupNode::List(ListNode(h)))
            },
            NodeKind::Enum => {
                let h = node.clone();
                assert(markup_node_spec(*node) == Some(MarkupView::Enum(h)));
                Some(MarkupNode::Enum(EnumNode(h)))
            },
            NodeKind::Error(_, _) => None,
            _ => match Expr::cast_from(node) {
                Some(e) => {
                    assert(markup_node_spec(*node) == Some(MarkupView::Expr(e@)));
                    Some(MarkupNode::Expr(e))
                },
                None => None,
            },
        }
    }
}

/// The children of `node`'s green node.
pub open spec fn kids_of(node: RedNode) -> Seq<Green> {
    node.spec_green().spec_children()
}

/// Whether some child of `node` is a markup body.
pub open spec fn has_body(node: RedNode) -> bool {
    exists|i: int| 0 <= i < kids_of(node).len() && (#[trigger] kids_of(node)[i]).spec_kind() is Markup
}

/// Whether the first child of `node` that is a markup body stands at `i`.
pub open spec fn first_body_at(node: RedNode, i: int) -> bool {
    &&& 0 <= i < kids_of(node).len()
    &&& kids_of(node)[i].spec_kind() is Markup
    &&& forall|j: int| 0 <= j < i ==> !((#[trigger] kids_of(node)[j]).spec_kind() is Markup)
}

/// Whether some child of `node` holds a heading level.
pub open spec fn has_level(node: RedNode) -> bool {
    exists|i: int|
        0 <= i < kids_of(node).len() && (#[trigger] kids_of(node)[i]).spec_kind() is HeadingLevel
}

/// Whether the first child of `node` that holds a heading level stands at `i`.
pub open spec fn first_level_at(node: RedNode, i: int) -> bool {
    &&& 0 <= i < kids_of(node).len()
    &&& kids_of(node)[i].spec_kind() is HeadingLevel
    &&& forall|j: int|
        0 <= j < i ==> !((#[trigger] kids_of(node)[j]).spec_kind() is HeadingLevel)
}

/// Whether some child of `node` holds an enumeration number slot.
pub open spec fn has_numbering(node: RedNode) -> bool {
    exists|i: int|
        0 <= i < kids_of(node).len() && (#[trigger] kids_of(node)[i]).spec_kind() is EnumNumbering
}

/// Whether the first child of `node` that holds an enumeration number slot
/// stands at `i`.
pub open spec fn first_numbering_at(node: RedNode, i: int) -> bool {
    &&& 0 <= i < kids_of(node).len()
    &&& kids_of(node)[i].spec_kind() is EnumNumbering
    &&& forall|j: int|
        0 <= j < i ==> !((#[trigger] kids_of(node)[j]).spec_kind() is EnumNumbering)
}

/// What the body of a composite item at `node` is: the markup that its first
/// markup child casts to.
pub open spec fn body_is(node: RedNode, body: Seq<MarkupView>) -> bool {
    exists|i: int| first_body_at(node, i) && markup_spec(#[trigger] node.child_reds()[i]) == Some(body)
}

/// The markup of the first child of `node` that casts to markup.
fn first_body(node: &RedNode) -> (r: Markup)
    requires
        has_body(*node),
    ensures
        body_is(*node, markup_view(r@)),
{
    let kids = node.children();
    let mut i: usize = 0;
    while i < kids.len()
        invariant
            kids@ == node.child_reds(),
            kids@.len() == kids_of(*node).len(),
            forall|k: int| 0 <= k < kids@.len() ==> placed_under(#[trigger] kids@[k], *node, k),
            i <= kids@.len(),
            forall|j: int| 0 <= j < i ==> !((#[trigger] kids_of(*node)[j]).spec_kind() is Markup),
        decreases kids@.len() - i,
    {
        match cast_markup(&kids[i]) {
            Some(m) => {
                assert(placed_under(kids@[i as int], *node, i as int));
                assert(first_body_at(*node, i as int));
                assert(markup_spec(node.child_reds()[i as int]) == Some(markup_view(m@)));
                return m;
            },
            None => {
                assert(placed_under(kids@[i as int], *node, i as int));
            },
        }
        i = i + 1;
    }
    proof {
        let k = choose|k: int|
            0 <= k < kids_of(*node).len() && (#[trigger] kids_of(*node)[k]).spec_kind() is Markup;
        assert(!(kids_of(*node)[k].spec_kind() is Markup));
    }
    Vec::new()
}

impl HeadingNode {
    /// The contents of the heading: the markup of its first markup child.
    pub fn body(&self) -> (r: Markup)
        requires
            has_body(self.0),
        ensures
            body_is(self.0, markup_view(r@)),
    {
        first_body(&self.0)
    }

    /// The section depth (number of equals signs): the level held by the
    /// first child that holds one.
    pub fn level(&self) -> (r: u8)
        requires
            has_level(self.0),
        ensures
            exists|i: int|
                first_level_at(self.0, i) && (#[trigger] kids_of(self.0)[i]).spec_kind()
                    == NodeKind::HeadingLevel(r),
    {
        let kids = self.0.children();
        let mut i: usize = 0;
        while i < kids.len()
            invariant
                kids@.len() == kids_of(self.0).len(),
                forall|k: int| 0 <= k < kids@.len() ==> placed_under(#[trigger] kids@[k], self.0, k),
                i <= kids@.len(),
                forall|j: int|
                    0 <= j < i ==> !((#[trigger] kids_of(self.0)[j]).spec_kind() is HeadingLevel),
            decreases kids@.len() - i,
        {
            assert(placed_under(kids@[i as int], self.0, i as int));
            match kids[i].kind() {
                NodeKind::HeadingLevel(level) => {
                    assert(first_level_at(self.0, i as int));
                    return *level;
                },
                _ => {},
            }
            i = i + 1;
        }
        proof {
            let k = choose|k: int|
                0 <= k < kids_of(self.0).len() && (#[trigger] kids_of(self.0)[k]).spec_kind() is HeadingLevel;
            assert(!(kids_of(self.0)[k].spec_kind() is HeadingLevel));
        }
        0
    }
}

impl ListNode {
    /// The contents of the list item: the markup of its first markup child.
    pub fn body(&self) -> (r: Markup)
        requires
            has_body(self.0),
        ensures
            body_is(self.0, markup_view(r@)),
    {
        first_body(&self.0)
    }
}

impl EnumNode {
    /// The contents of the list item: the markup of its first markup child.
    pub fn body(&self) -> (r: Markup)
        requires
            has_body(self.0),
        ensures
            body_is(self.0, markup_view(r@)),
    {
        first_body(&self.0)
    }

    /// The explicit number, if any: what the first number slot holds.
    pub fn number(&self) -> (r: Option<usize>)
        requires
            has_numbering(self.0),
        ensures
            exists|i: int|
                first_numbering_at(self.0, i) && (#[trigger] kids_of(self.0)[i]).spec_kind()
                    == NodeKind::EnumNumbering(r),
    {
        let kids = self.0.children();
        let mut i: usize = 0;
        while i < kids.len()
            invariant
                kids@.len() == kids_of(self.0).len(),
                forall|k: int| 0 <= k < kids@.len() ==> placed_under(#[trigger] kids@[k], self.0, k),
                i <= kids@.len(),
                forall|j: int|
                    0 <= j < i ==> !((#[trigger] kids_of(self.0)[j]).spec_kind() is EnumNumbering),
            decreases kids@.len() - i,
        {
            assert(placed_under(kids@[i as int], self.0, i as int));
            match kids[i].kind() {
                NodeKind::EnumNumbering(num) => {
                    assert(first_numbering_at(self.0, i as int));
                    return *num;
                },
                _ => {},
            }
            i = i + 1;
        }
        proof {
            let k = choose|k: int|
                0 <= k < kids_of(self.0).len() && (#[trigger] kids_of(self.0)[k]).spec_kind() is EnumNumbering;
            assert(!(kids_of(self.0)[k].spec_kind() is EnumNumbering));
        }
        None
    }
}

/// The nodes of `s` that are not parse errors, in order.
pub open spec fn surviving(s: Seq<RedNode>) -> Seq<RedNode> {
    s.filter(|c: RedNode| !is_error_kind(c.spec_kind()))
}

/// The nodes of `s` that are parse errors, in order.
pub open spec fn errors(s: Seq<RedNode>) -> Seq<RedNode> {
    s.filter(|c: RedNode| is_error_kind(c.spec_kind()))
}

/// What each node of `s` casts to, for nodes that cast.
pub open spec fn cast_values(s: Seq<RedNode>) -> Seq<MarkupView> {
    s.map_values(|c: RedNode| markup_node_spec(c)->0)
}

/// Where every node of `s` either is an error or casts, the items of `s` are
/// the casts of its non-error nodes, and those are all but the errors.
proof fn lemma_items_skip_errors(s: Seq<RedNode>)
    requires
        forall|i: int|
            0 <= i < s.len() ==> is_error_kind((#[trigger] s[i]).spec_kind()) || markup_node_spec(
                s[i],
            ) is Some,
    ensures
        markup_items(s) == cast_values(surviving(s)),
        surviving(s).len() + errors(s).len() == s.len(),
    decreases s.len(),
{
    reveal(Seq::filter);
    if s.len() == 0 {
        assert(markup_items(s) =~= cast_values(surviving(s)));
    } else {
        let rest = s.drop_last();
        assert forall|i: int|
            0 <= i < rest.len() implies is_error_kind((#[trigger] rest[i]).spec_kind())
            || markup_node_spec(rest[i]) is Some by {
            assert(rest[i] == s[i]);
        }
        lemma_items_skip_errors(rest);
        let last = s.last();
        assert(s[s.len() - 1] == last);
        if is_error_kind(last.spec_kind()) {
            assert(markup_items(s) == markup_items(rest));
        } else {
            assert(surviving(s) == surviving(rest).push(last));
            assert(cast_values(surviving(s)) =~= cast_values(surviving(rest)).push(
                markup_node_spec(last)->0,
            ));
            assert(markup_items(s) =~= markup_items(rest).push(markup_node_spec(last)->0));
        }
    }
}

/// Casting a document drops exactly its error children: where every other
/// child casts, the result holds what the non-error children cast to, in
/// their order, and is as long as the children less the errors.
pub proof fn lemma_error_exclusion(node: RedNode)
    requires
        node.spec_kind() is Markup,
        forall|i: int|
            0 <= i < node.child_reds().len() ==> is_error_kind(
                (#[trigger] node.child_reds()[i]).spec_kind(),
            ) || markup_node_spec(node.child_reds()[i]) is Some,
    ensures
        markup_spec(node) == Some(cast_values(surviving(node.child_reds()))),
        markup_spec(node)->0.len() == node.child_reds().len() - errors(node.child_reds()).len(),
{
    lemma_items_skip_errors(node.child_reds());
}

/// A unicode escape casts to text: exactly its character when the sequence
/// names one, else the escape written out as `\u{<sequence>}`.
pub proof fn lemma_escape_normalization(node: RedNode)
    requires
        node.spec_kind() is UnicodeEscape,
    ensures
        match node.spec_kind()->UnicodeEscape_0.character {
            Some(c) => markup_node_spec(node) == Some(MarkupView::Text(seq![c])),
            None => markup_node_spec(node) == Some(
                MarkupView::Text(
                    seq!['\\', 'u', '{'] + node.spec_kind()->UnicodeEscape_0.sequence@ + seq!['}'],
                ),
            ),
        },
{
}

} // verus!
