use markup_tree::expr::{Expr, Ident};
use markup_tree::green::{Green, GreenData, GreenNode};
use markup_tree::kind::{ErrorPos, NodeKind, RawData, UnicodeEscapeData};
use markup_tree::markup::{cast_markup, EnumNode, HeadingNode, ListNode, MarkupNode, RawNode};
use markup_tree::red::RedNode;
use markup_tree::span::{SourceId, Span};
use std::rc::Rc;

fn token(kind: NodeKind, len: usize) -> Green {
    Green::Token(Rc::new(GreenData::new(kind, len)))
}

fn node(kind: NodeKind, children: Vec<Green>) -> Green {
    Green::Node(Rc::new(GreenNode::new(kind, children)))
}

fn text(s: &str) -> Green {
    token(NodeKind::Text(s.to_string()), s.len())
}

fn root(g: Green) -> RedNode {
    RedNode::root(g, SourceId(0))
}

fn cast_single(kind: NodeKind, len: usize) -> Option<MarkupNode> {
    MarkupNode::cast_from(&root(token(kind, len)))
}

fn heading(level: u8, body: Vec<Green>) -> Green {
    let mut kids = vec![token(NodeKind::HeadingLevel(level), level as usize), token(NodeKind::Space(0), 1)];
    kids.push(node(NodeKind::Markup, body));
    node(NodeKind::Heading, kids)
}

#[test]
fn scenario_plain_document() {
    let doc = node(
        NodeKind::Markup,
        vec![text("Hello"), token(NodeKind::Space(0), 1), token(NodeKind::Strong, 1), text("world"), token(NodeKind::Strong, 1)],
    );
    let m = cast_markup(&root(doc)).expect("a markup node casts");
    assert_eq!(
        m,
        vec![
            MarkupNode::Text("Hello".to_string()),
            MarkupNode::Space,
            MarkupNode::Strong,
            MarkupNode::Text("world".to_string()),
            MarkupNode::Strong,
        ]
    );
}

#[test]
fn scenario_heading() {
    let doc = node(NodeKind::Markup, vec![heading(2, vec![text("Intro")])]);
    let m = cast_markup(&root(doc)).unwrap();
    assert_eq!(m.len(), 1);
    match &m[0] {
        MarkupNode::Heading(h) => {
            assert_eq!(h.level(), 2);
            assert_eq!(h.body(), vec![MarkupNode::Text("Intro".to_string())]);
        }
        other => panic!("expected a heading, got {:?}", other),
    }
}

#[test]
fn scenario_raw_block() {
    let raw = RawData {
        text: "fn main() {}".to_string(),
        lang: Some("rust".to_string()),
        backticks: 3,
        block: true,
    };
    let doc = node(NodeKind::Markup, vec![token(NodeKind::Raw(raw), 26)]);
    let m = cast_markup(&root(doc)).unwrap();
    match &m[0] {
        MarkupNode::Raw(r) => {
            assert_eq!(r.lang.as_ref().map(|i| i.string.as_str()), Some("rust"));
            assert_eq!(r.text, "fn main() {}");
            assert!(r.block);
        }
        other => panic!("expected a raw block, got {:?}", other),
    }
}

#[test]
fn scenario_error_dropped() {
    let doc = node(
        NodeKind::Markup,
        vec![text("a"), token(NodeKind::Error(ErrorPos::Full, "bad".to_string()), 3), text("b")],
    );
    let m = cast_markup(&root(doc)).unwrap();
    assert_eq!(m, vec![MarkupNode::Text("a".to_string()), MarkupNode::Text("b".to_string())]);
}

#[test]
fn errors_excluded_order_kept() {
    let doc = node(
        NodeKind::Markup,
        vec![
            token(NodeKind::Error(ErrorPos::Start, "x".to_string()), 1),
            token(NodeKind::Emph, 1),
            text("mid"),
            token(NodeKind::Error(ErrorPos::End, "y".to_string()), 1),
            token(NodeKind::Linebreak, 1),
            token(NodeKind::Error(ErrorPos::Full, "z".to_string()), 1),
        ],
    );
    let m = cast_markup(&root(doc)).unwrap();
    assert_eq!(m.len(), 6 - 3);
    assert_eq!(m, vec![MarkupNode::Emph, MarkupNode::Text("mid".to_string()), MarkupNode::Linebreak]);
}

#[test]
fn empty_document() {
    let doc = node(NodeKind::Markup, vec![]);
    assert_eq!(cast_markup(&root(doc)), Some(vec![]));
}

#[test]
fn only_markup_nodes_cast_to_markup() {
    let h = heading(1, vec![text("x")]);
    assert_eq!(cast_markup(&root(h)), None);
    assert_eq!(cast_markup(&root(text("x"))), None);
}

#[test]
fn raw_tag_span_follows_backticks() {
    let raw = RawData { text: "x".to_string(), lang: Some("py".to_string()), backticks: 3, block: false };
    let doc = node(NodeKind::Markup, vec![text("abcd"), token(NodeKind::Raw(raw), 12)]);
    let r = root(doc);
    let kids = r.children();
    let raw_node = RawNode::cast_from(&kids[1]).expect("a raw node casts");
    let tag = raw_node.lang.expect("a tag");
    assert_eq!(tag.span, Span::new(SourceId(0), 4 + 3, 4 + 3 + 2));
    assert_eq!(tag.string, "py");
    assert!(!raw_node.block);
}

#[test]
fn raw_tag_length_counts_bytes() {
    let raw = RawData { text: "x".to_string(), lang: Some("é".to_string()), backticks: 1, block: false };
    let r = root(token(NodeKind::Raw(raw), 6));
    let tag = RawNode::cast_from(&r).unwrap().lang.unwrap();
    assert_eq!(tag.span.start, 1);
    assert_eq!(tag.span.end, 3);
}

#[test]
fn raw_without_tag() {
    let raw = RawData { text: "code".to_string(), lang: None, backticks: 1, block: false };
    let m = cast_single(NodeKind::Raw(raw), 6).unwrap();
    assert_eq!(m, MarkupNode::Raw(RawNode { lang: None, text: "code".to_string(), block: false }));
}

#[test]
fn raw_cast_rejects_other_kinds() {
    assert_eq!(RawNode::cast_from(&root(text("x"))), None);
}

#[test]
fn heading_level_and_body() {
    let h = root(heading(3, vec![text("A"), token(NodeKind::Space(0), 1), text("B")]));
    let node = HeadingNode::cast_from(&h).expect("a heading casts");
    assert_eq!(node.level(), 3);
    assert_eq!(
        node.body(),
        vec![MarkupNode::Text("A".to_string()), MarkupNode::Space, MarkupNode::Text("B".to_string())]
    );
    assert!(HeadingNode::cast_from(&root(text("x"))).is_none());
}

#[test]
fn heading_body_is_first_markup_child() {
    let h = node(
        NodeKind::Heading,
        vec![
            token(NodeKind::HeadingLevel(1), 1),
            node(NodeKind::Markup, vec![text("first")]),
            node(NodeKind::Markup, vec![text("second")]),
        ],
    );
    let node = HeadingNode::cast_from(&root(h)).unwrap();
    assert_eq!(node.body(), vec![MarkupNode::Text("first".to_string())]);
}

#[test]
fn list_body() {
    let l = node(
        NodeKind::List,
        vec![token(NodeKind::Space(0), 2), node(NodeKind::Markup, vec![text("item")])],
    );
    let m = MarkupNode::cast_from(&root(l)).unwrap();
    match m {
        MarkupNode::List(l) => assert_eq!(l.body(), vec![MarkupNode::Text("item".to_string())]),
        other => panic!("expected a list item, got {:?}", other),
    }
    assert!(ListNode::cast_from(&root(text("x"))).is_none());
}

#[test]
fn enum_number_and_body() {
    let e = node(
        NodeKind::Enum,
        vec![token(NodeKind::EnumNumbering(Some(5)), 2), node(NodeKind::Markup, vec![text("five")])],
    );
    let item = EnumNode::cast_from(&root(e)).unwrap();
    assert_eq!(item.number(), Some(5));
    assert_eq!(item.body(), vec![MarkupNode::Text("five".to_string())]);
}

#[test]
fn enum_without_explicit_number() {
    let e = node(
        NodeKind::Enum,
        vec![token(NodeKind::EnumNumbering(None), 1), node(NodeKind::Markup, vec![text("auto")])],
    );
    let m = MarkupNode::cast_from(&root(e)).unwrap();
    match m {
        MarkupNode::Enum(item) => {
            assert_eq!(item.number(), None);
            assert_eq!(item.body(), vec![MarkupNode::Text("auto".to_string())]);
        }
        other => panic!("expected an enumeration item, got {:?}", other),
    }
}

#[test]
fn escape_with_character() {
    let u = UnicodeEscapeData { sequence: "1F600".to_string(), character: Some('\u{1F600}') };
    assert_eq!(cast_single(NodeKind::UnicodeEscape(u), 9), Some(MarkupNode::Text("\u{1F600}".to_string())));
}

#[test]
fn escape_without_character() {
    let u = UnicodeEscapeData { sequence: "D800".to_string(), character: None };
    assert_eq!(cast_single(NodeKind::UnicodeEscape(u), 8), Some(MarkupNode::Text("\\u{D800}".to_string())));
}

#[test]
fn dashes_and_nonbreaking_space() {
    assert_eq!(cast_single(NodeKind::EnDash, 2), Some(MarkupNode::Text("\u{2013}".to_string())));
    assert_eq!(cast_single(NodeKind::EmDash, 3), Some(MarkupNode::Text("\u{2014}".to_string())));
    assert_eq!(cast_single(NodeKind::NonBreakingSpace, 1), Some(MarkupNode::Text("\u{00A0}".to_string())));
}

#[test]
fn breaks_and_markers() {
    assert_eq!(cast_single(NodeKind::Space(1), 1), Some(MarkupNode::Space));
    assert_eq!(cast_single(NodeKind::Linebreak, 1), Some(MarkupNode::Linebreak));
    assert_eq!(cast_single(NodeKind::Parbreak, 2), Some(MarkupNode::Parbreak));
    assert_eq!(cast_single(NodeKind::Strong, 1), Some(MarkupNode::Strong));
    assert_eq!(cast_single(NodeKind::Emph, 1), Some(MarkupNode::Emph));
}

#[test]
fn error_does_not_cast() {
    assert_eq!(cast_single(NodeKind::Error(ErrorPos::Full, "oops".to_string()), 4), None);
}

#[test]
fn expressions_fall_through() {
    assert_eq!(cast_single(NodeKind::Bool(true), 4), Some(MarkupNode::Expr(Expr::Bool(true))));
    assert_eq!(cast_single(NodeKind::Int(120), 3), Some(MarkupNode::Expr(Expr::Int(120))));
    assert_eq!(cast_single(NodeKind::NoneLit, 4), Some(MarkupNode::Expr(Expr::NoneLit)));
    assert_eq!(cast_single(NodeKind::Auto, 4), Some(MarkupNode::Expr(Expr::Auto)));
    assert_eq!(
        cast_single(NodeKind::Str("hi".to_string()), 4),
        Some(MarkupNode::Expr(Expr::Str("hi".to_string())))
    );
    assert_eq!(
        cast_single(NodeKind::Ident("it".to_string()), 2),
        Some(MarkupNode::Expr(Expr::Ident(Ident { string: "it".to_string(), span: Span::new(SourceId(0), 0, 2) })))
    );
}

#[test]
fn unknown_kinds_do_not_cast() {
    assert_eq!(cast_single(NodeKind::Comma, 1), None);
    assert_eq!(cast_single(NodeKind::LeftBracket, 1), None);
    assert_eq!(cast_single(NodeKind::HeadingLevel(1), 1), None);
}

#[test]
fn nested_markup_is_cast_lazily() {
    let doc = node(NodeKind::Markup, vec![text("x"), heading(1, vec![text("y")])]);
    let r = root(doc);
    let m = cast_markup(&r).unwrap();
    match &m[1] {
        MarkupNode::Heading(h) => {
            assert_eq!(h.0.span().start, 1);
            assert_eq!(h.0.parent().unwrap().span().start, 0);
        }
        other => panic!("expected a heading, got {:?}", other),
    }
}
