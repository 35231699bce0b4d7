//! The expression sub-language as the analysis sees it.
//!
//! Expression parsing is a collaborator: the tree arrives fully parsed,
//! and the analysis only inspects node kind tags — identifier
//! references, member expressions, call expressions, assignment and
//! update sites, and function bodies.  Every other composite shape is
//! kept as an opaque `Compound` node holding its sub-expressions, which
//! is all the taint propagation needs.

use vstd::prelude::*;
use crate::ast::{Identifier, Span};

verus! {

/// A parsed expression, reduced to the shapes the analysis inspects.
#[derive(Debug)]
pub enum Expression {
    Identifier(Identifier),
    /// A constant with no identifier references inside.
    Literal(Span),
    Member(MemberExpression),
    Call(CallExpression),
    Assignment(AssignmentExpression),
    Update(UpdateExpression),
    Function(FunctionExpression),
    /// Any other composite: its sub-expressions, order preserved.
    Compound(CompoundExpression),
}

/// A static (`a.b`) or computed (`a[i]`) member access.
#[derive(Debug)]
pub enum MemberProperty {
    Identifier(String),
    Expression(Box<Expression>),
}

#[derive(Debug)]
pub struct MemberExpression {
    pub span: Span,
    pub object: Box<Expression>,
    pub property: MemberProperty,
}

#[derive(Debug)]
pub struct CallExpression {
    pub span: Span,
    pub callee: Box<Expression>,
    pub arguments: Vec<Expression>,
}

/// `target = value`, where the target is an identifier or member path.
#[derive(Debug)]
pub struct AssignmentExpression {
    pub span: Span,
    pub target: Box<Expression>,
    pub value: Box<Expression>,
}

/// `target++` and friends: a mutation of the target in place.
#[derive(Debug)]
pub struct UpdateExpression {
    pub span: Span,
    pub target: Box<Expression>,
}

/// A function or arrow expression: its parameter names and the
/// expressions of its body.
#[derive(Debug)]
pub struct FunctionExpression {
    pub span: Span,
    pub params: Vec<Identifier>,
    pub body: Vec<Expression>,
}

#[derive(Debug)]
pub struct CompoundExpression {
    pub span: Span,
    pub children: Vec<Expression>,
}

/// Mathematical mirror of `Expression`: names as character sequences,
/// children as `Seq`.
pub enum ExpressionView {
    Identifier(IdentifierView),
    Literal(Span),
    Member { span: Span, object: Box<ExpressionView>, property: MemberPropertyView },
    Call { span: Span, callee: Box<ExpressionView>, arguments: Seq<ExpressionView> },
    Assignment { span: Span, target: Box<ExpressionView>, value: Box<ExpressionView> },
    Update { span: Span, target: Box<ExpressionView> },
    Function { span: Span, params: Seq<Seq<char>>, body: Seq<ExpressionView> },
    Compound { span: Span, children: Seq<ExpressionView> },
}

pub struct IdentifierView {
    pub span: Span,
    pub name: Seq<char>,
}

pub enum MemberPropertyView {
    Identifier(Seq<char>),
    Expression(Box<ExpressionView>),
}

pub open spec fn ident_view(id: Identifier) -> IdentifierView {
    IdentifierView { span: id.span, name: id.name@ }
}

pub open spec fn idents_view(ids: Seq<Identifier>) -> Seq<Seq<char>> {
    Seq::new(ids.len(), |i: int| ids[i].name@)
}

pub open spec fn expr_view(e: Expression) -> ExpressionView
    decreases e,
{
    match e {
        Expression::Identifier(id) => ExpressionView::Identifier(ident_view(id)),
        Expression::Literal(s) => ExpressionView::Literal(s),
        Expression::Member(m) => ExpressionView::Member {
            span: m.span,
            object: Box::new(expr_view(*m.object)),
            property: match m.property {
                MemberProperty::Identifier(n) => MemberPropertyView::Identifier(n@),
                MemberProperty::Expression(p) => MemberPropertyView::Expression(
                    Box::new(expr_view(*p)),
                ),
            },
        },
        Expression::Call(c) => ExpressionView::Call {
            span: c.span,
            callee: Box::new(expr_view(*c.callee)),
            arguments: exprs_view(c.arguments@),
        },
        Expression::Assignment(a) => ExpressionView::Assignment {
            span: a.span,
            target: Box::new(expr_view(*a.target)),
            value: Box::new(expr_view(*a.value)),
        },
        Expression::Update(u) => ExpressionView::Update {
            span: u.span,
            target: Box::new(expr_view(*u.target)),
        },
        Expression::Function(f) => ExpressionView::Function {
            span: f.span,
            params: idents_view(f.params@),
            body: exprs_view(f.body@),
        },
        Expression::Compound(c) => ExpressionView::Compound {
            span: c.span,
            children: exprs_view(c.children@),
        },
    }
}

pub open spec fn exprs_view(es: Seq<Expression>) -> Seq<ExpressionView>
    decreases es,
{
    if es.len() == 0 {
        Seq::<ExpressionView>::empty()
    } else {
        exprs_view(es.subrange(0, es.len() - 1)).push(expr_view(es[es.len() - 1]))
    }
}

/// `exprs_view` maps `expr_view` over the sequence, element by element.
pub broadcast proof fn lemma_exprs_view(es: Seq<Expression>)
    ensures
        (#[trigger] exprs_view(es)).len() == es.len(),
        forall|i: int| 0 <= i < es.len() ==> exprs_view(es)[i] == expr_view(es[i]),
    decreases es,
{
    if es.len() > 0 {
        lemma_exprs_view(es.subrange(0, es.len() - 1));
    }
}

/// The view of a member expression node, as an `ExpressionView`.
pub open spec fn member_view(m: MemberExpression) -> ExpressionView {
    expr_view(Expression::Member(m))
}

/// Two expression lists with pointwise equal views have equal views.
pub proof fn lemma_exprs_view_eq(a: Seq<Expression>, b: Seq<Expression>)
    requires
        a.len() == b.len(),
        forall|j: int| 0 <= j < a.len() ==> expr_view(a[j]) == expr_view(b[j]),
    ensures
        exprs_view(a) == exprs_view(b),
{
    lemma_exprs_view(a);
    lemma_exprs_view(b);
    assert(exprs_view(a) =~= exprs_view(b));
}

/// The view of a call expression node, as an `ExpressionView`.
pub open spec fn call_view(c: CallExpression) -> ExpressionView {
    ExpressionView::Call {
        span: c.span,
        callee: Box::new(expr_view(*c.callee)),
        arguments: exprs_view(c.arguments@),
    }
}

/// Whether the expression syntactically contains a call expression.
pub open spec fn spec_contains_call(e: ExpressionView) -> bool
    decreases e,
{
    match e {
        ExpressionView::Identifier(_) => false,
        ExpressionView::Literal(_) => false,
        ExpressionView::Member { object, property, .. } => spec_contains_call(*object)
            || (match property {
                MemberPropertyView::Identifier(_) => false,
                MemberPropertyView::Expression(p) => spec_contains_call(*p),
            }),
        ExpressionView::Call { .. } => true,
        ExpressionView::Assignment { target, value, .. } => spec_contains_call(*target)
            || spec_contains_call(*value),
        ExpressionView::Update { target, .. } => spec_contains_call(*target),
        ExpressionView::Function { body, .. } => spec_any_contains_call(body, 0),
        ExpressionView::Compound { children, .. } => spec_any_contains_call(children, 0),
    }
}

/// Whether any expression of `es` from index `i` on contains a call.
pub open spec fn spec_any_contains_call(es: Seq<ExpressionView>, i: int) -> bool
    decreases es, es.len() - i,
{
    if i < 0 || i >= es.len() {
        false
    } else {
        spec_contains_call(es[i]) || spec_any_contains_call(es, i + 1)
    }
}

/// Copies an identifier, name preserved exactly.
pub fn clone_identifier(i: &Identifier) -> (r: Identifier)
    ensures
        r == *i,
{
    Identifier { span: i.span, name: i.name.clone() }
}

/// Copies a list of identifiers exactly.
pub fn clone_identifiers(v: &Vec<Identifier>, i: usize) -> (r: Vec<Identifier>)
    requires
        i <= v@.len(),
    ensures
        r@ == v@.subrange(i as int, v@.len() as int),
    decreases v@.len() - i,
{
    if i >= v.len() {
        let r = Vec::new();
        proof {
            assert(r@ =~= v@.subrange(i as int, v@.len() as int));
        }
        r
    } else {
        let first = clone_identifier(&v[i]);
        let mut rest = clone_identifiers(v, i + 1);
        rest.insert(0, first);
        proof {
            assert(rest@ =~= v@.subrange(i as int, v@.len() as int));
        }
        rest
    }
}

/// Copies an expression tree, view preserved exactly.
pub fn clone_expression(e: &Expression) -> (r: Expression)
    ensures
        expr_view(r) == expr_view(*e),
    decreases *e, 1int,
{
    match e {
        Expression::Identifier(id) => Expression::Identifier(clone_identifier(id)),
        Expression::Literal(s) => Expression::Literal(*s),
        Expression::Member(m) => Expression::Member(clone_member(m)),
        Expression::Call(c) => Expression::Call(clone_call(c)),
        Expression::Assignment(a) => Expression::Assignment(
            AssignmentExpression {
                span: a.span,
                target: Box::new(clone_expression(&a.target)),
                value: Box::new(clone_expression(&a.value)),
            },
        ),
        Expression::Update(u) => Expression::Update(
            UpdateExpression { span: u.span, target: Box::new(clone_expression(&u.target)) },
        ),
        Expression::Function(f) => {
            let params = clone_identifiers(&f.params, 0);
            let body = clone_expressions(&f.body, 0);
            let r = Expression::Function(FunctionExpression { span: f.span, params, body });
            proof {
                assert(params@ =~= f.params@);
                assert(idents_view(params@) =~= idents_view(f.params@));
                lemma_exprs_view_eq(body@, f.body@);
            }
            r
        },
        Expression::Compound(c) => {
            let children = clone_expressions(&c.children, 0);
            let r = Expression::Compound(CompoundExpression { span: c.span, children });
            proof {
                lemma_exprs_view_eq(children@, c.children@);
            }
            r
        },
    }
}

/// Copies a member expression, view preserved exactly.
pub fn clone_member(m: &MemberExpression) -> (r: MemberExpression)
    ensures
        member_view(r) == member_view(*m),
    decreases *m, 0int,
{
    MemberExpression {
        span: m.span,
        object: Box::new(clone_expression(&m.object)),
        property: match &m.property {
            MemberProperty::Identifier(n) => MemberProperty::Identifier(n.clone()),
            MemberProperty::Expression(p) => MemberProperty::Expression(
                Box::new(clone_expression(p)),
            ),
        },
    }
}

/// Copies a call expression, view preserved exactly.
pub fn clone_call(c: &CallExpression) -> (r: CallExpression)
    ensures
        call_view(r) == call_view(*c),
    decreases *c, 0int,
{
    let callee = Box::new(clone_expression(&c.callee));
    let arguments = clone_expressions(&c.arguments, 0);
    let r = CallExpression { span: c.span, callee, arguments };
    proof {
        lemma_exprs_view_eq(arguments@, c.arguments@);
    }
    r
}

/// Copies `es[i..]`, views preserved pointwise.
pub fn clone_expressions(es: &Vec<Expression>, i: usize) -> (r: Vec<Expression>)
    requires
        i <= es@.len(),
    ensures
        r@.len() == es@.len() - i,
        forall|j: int| 0 <= j < r@.len() ==> expr_view(r@[j]) == expr_view(es@[i + j]),
    decreases es@, es@.len() - i,
{
    if i >= es.len() {
        Vec::new()
    } else {
        let first = clone_expression(&es[i]);
        let mut rest = clone_expressions(es, i + 1);
        rest.insert(0, first);
        rest
    }
}

/// Computes whether `e` contains a call expression.
pub fn contains_call(e: &Expression) -> (r: bool)
    ensures
        r == spec_contains_call(expr_view(*e)),
    decreases *e,
{
    match e {
        Expression::Identifier(_) => false,
        Expression::Literal(_) => false,
        Expression::Member(m) => {
            if contains_call(&m.object) {
                true
            } else {
                match &m.property {
                    MemberProperty::Identifier(_) => false,
                    MemberProperty::Expression(p) => contains_call(p),
                }
            }
        },
        Expression::Call(_) => true,
        Expression::Assignment(a) => contains_call(&a.target) || contains_call(&a.value),
        Expression::Update(u) => contains_call(&u.target),
        Expression::Function(f) => any_contains_call(&f.body, 0),
        Expression::Compound(c) => any_contains_call(&c.children, 0),
    }
}

/// Computes whether any of `es[i..]` contains a call expression.
pub fn any_contains_call(es: &Vec<Expression>, i: usize) -> (r: bool)
    ensures
        r == spec_any_contains_call(exprs_view(es@), i as int),
    decreases es@, es@.len() - i,
{
    proof {
        lemma_exprs_view(es@);
    }
    if i >= es.len() {
        false
    } else {
        contains_call(&es[i]) || any_contains_call(es, i + 1)
    }
}

} // verus!
