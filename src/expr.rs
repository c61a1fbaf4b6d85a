//! The syntactic shape of the expression sublanguage, as far as markup needs it.
use crate::kind::NodeKind;
use crate::red::RedNode;
use crate::span::Span;
use vstd::prelude::*;

verus! {

/// An identifier, with the span it occupies.
#[derive(Debug, Clone, PartialEq, Eq)]
pub struct Ident {
    /// The identifier's text.
    pub string: String,
    /// Where the identifier stands.
    pub span: Span,
}

/// The mathematical value of an identifier.
pub struct IdentView {
    pub string: Seq<char>,
    pub span: Span,
}

impl View for Ident {
    type V = IdentView;

    open spec fn view(&self) -> IdentView {
        IdentView { string: self.string@, span: self.span }
    }
}

/// An expression.
#[derive(Debug, Clone, PartialEq, Eq)]
pub enum Expr {
    /// An identifier: `left`.
    Ident(Ident),
    /// The none literal: `none`.
    NoneLit,
    /// The auto literal: `auto`.
    Auto,
    /// A boolean literal: `true`, `false`.
    Bool(bool),
    /// An integer literal: `120`.
    Int(i64),
    /// A string literal: `"hello"`.
    Str(String),
}

/// The mathematical value of an expression.
pub enum ExprView {
    Ident(IdentView),
    NoneLit,
    Auto,
    Bool(bool),
    Int(i64),
    Str(Seq<char>),
}

impl View for Expr {
    type V = ExprView;

    open spec fn view(&self) -> ExprView {
        match self {
            Expr::Ident(i) => ExprView::Ident(i@),
            Expr::NoneLit => ExprView::NoneLit,
            Expr::Auto => ExprView::Auto,
            Expr::Bool(b) => ExprView::Bool(*b),
            Expr::Int(n) => ExprView::Int(*n),
            Expr::Str(s) => ExprView::Str(s@),
        }
    }
}

/// What casting `node` to an identifier gives: its name and span, if it is one.
pub open spec fn ident_spec(node: RedNode) -> Option<IdentView> {
    match node.spec_kind() {
        NodeKind::Ident(s) => Some(IdentView { string: s@, span: node.spec_span() }),
        _ => None,
    }
}

/// What casting `node` to an expression gives: a value for each expression
/// kind, nothing for any other kind.
pub open spec fn expr_spec(node: RedNode) -> Option<ExprView> {
    match node.spec_kind() {
        NodeKind::Ident(s) => Some(ExprView::Ident(IdentView { string: s@, span: node.spec_span() })),
        NodeKind::NoneLit => Some(ExprView::NoneLit),
        NodeKind::Auto => Some(ExprView::Auto),
        NodeKind::Bool(b) => Some(ExprView::Bool(b)),
        NodeKind::Int(n) => Some(ExprView::Int(n)),
        NodeKind::Str(s) => Some(ExprView::Str(s@)),
        _ => None,
    }
}

impl Ident {
    /// Casts `node` to an identifier, if its kind is one.
    pub fn cast_from(node: &RedNode) -> (r: Option<Ident>)
        ensures
            match r {
                Some(i) => ident_spec(*node) == Some(i@),
                None => ident_spec(*node) is None,
            },
    {
        match node.kind() {
            NodeKind::Ident(s) => Some(Ident { string: s.clone(), span: node.span() }),
            _ => None,
        }
    }
}

impl Expr {
    /// Casts `node` to an expression, if its kind is one.
    pub fn cast_from(node: &RedNode) -> (r: Option<Expr>)
        ensures
            match r {
                Some(e) => expr_spec(*node) == Some(e@),
                None => expr_spec(*node) is None,
            },
    {
        match node.kind() {
            NodeKind::Ident(_) => match Ident::cast_from(node) {
                Some(i) => Some(Expr::Ident(i)),
                None => None,
            },
            NodeKind::NoneLit => Some(Expr::NoneLit),
            NodeKind::Auto => Some(Expr::Auto),
            NodeKind::Bool(b) => Some(Expr::Bool(*b)),
            NodeKind::Int(n) => Some(Expr::Int(*n)),
            NodeKind::Str(s) => Some(Expr::Str(s.clone())),
            _ => None,
        }
    }
}

} // verus!
