//! The script sub-language as the analysis sees it: top-level
//! statements, variable declarations with their initialisers, and the
//! destructuring patterns that declare names.
//!
//! Like the expression model, this is the collaborator surface of the
//! script parser: only the shapes the classifier inspects are
//! distinguished; function bodies keep their statements so mutation
//! sites inside handlers are found.

use vstd::prelude::*;
use crate::ast::{Identifier, Span};
use crate::expression::{
    Expression, ExpressionView, IdentifierView, exprs_view, expr_view, ident_view,
};

verus! {

/// A flat destructuring pattern: the names it declares.
#[derive(Debug)]
pub enum BindingPattern {
    Identifier(Identifier),
    Object(ObjectPattern),
    Array(ArrayPattern),
}

/// `{ key: value = default, ..., ...rest }`, flattened to one level.
#[derive(Debug)]
pub struct ObjectPattern {
    pub span: Span,
    pub properties: Vec<PatternProperty>,
    pub rest: Option<Identifier>,
}

/// One property of an object pattern.  `bindable` marks a prop whose
/// default wraps the two-way-binding rune.
#[derive(Debug)]
pub struct PatternProperty {
    pub span: Span,
    pub key: String,
    pub value: Identifier,
    pub bindable: bool,
}

/// `[a, b, c]`, flattened to identifiers.
#[derive(Debug)]
pub struct ArrayPattern {
    pub span: Span,
    pub elements: Vec<Identifier>,
}

#[derive(Debug, Clone, Copy, PartialEq, Eq, Structural)]
pub enum VariableDeclarationKind {
    Var,
    Let,
    Const,
}

/// `var` / `let` / `const` with one or more declarators.
#[derive(Debug)]
pub struct VariableDeclaration {
    pub span: Span,
    pub kind: VariableDeclarationKind,
    pub declarations: Vec<VariableDeclarator>,
}

#[derive(Debug)]
pub struct VariableDeclarator {
    pub span: Span,
    pub id: BindingPattern,
    pub init: Option<Expression>,
}

/// A function declared at script level: its name joins the enclosing
/// scope, its parameters and body get a scope of their own.
#[derive(Debug)]
pub struct FunctionDeclaration {
    pub span: Span,
    pub id: Identifier,
    pub params: Vec<Identifier>,
    pub body: Vec<Statement>,
}

/// An import: the local names it brings into scope.
#[derive(Debug)]
pub struct ImportDeclaration {
    pub span: Span,
    pub specifiers: Vec<Identifier>,
}

#[derive(Debug)]
pub struct ExpressionStatement {
    pub span: Span,
    pub expression: Expression,
}

/// A top-level reactive statement of the legacy (pre-runes) model.
#[derive(Debug)]
pub struct ReactiveStatement {
    pub span: Span,
    pub expression: Expression,
}

#[derive(Debug)]
pub enum Statement {
    VariableDeclaration(VariableDeclaration),
    FunctionDeclaration(FunctionDeclaration),
    ImportDeclaration(ImportDeclaration),
    ExpressionStatement(ExpressionStatement),
    ReactiveStatement(ReactiveStatement),
}

/// A parsed script body.
#[derive(Debug)]
pub struct Program {
    pub span: Span,
    pub statements: Vec<Statement>,
}

pub struct PatternPropertyView {
    pub span: Span,
    pub key: Seq<char>,
    pub value: IdentifierView,
    pub bindable: bool,
}

pub enum BindingPatternView {
    Identifier(IdentifierView),
    Object { span: Span, properties: Seq<PatternPropertyView>, rest: Option<IdentifierView> },
    Array { span: Span, elements: Seq<IdentifierView> },
}

pub struct VariableDeclaratorView {
    pub span: Span,
    pub id: BindingPatternView,
    pub init: Option<ExpressionView>,
}

pub struct VariableDeclarationView {
    pub span: Span,
    pub kind: VariableDeclarationKind,
    pub declarations: Seq<VariableDeclaratorView>,
}

pub enum StatementView {
    VariableDeclaration(VariableDeclarationView),
    Function {
        span: Span,
        id: IdentifierView,
        params: Seq<IdentifierView>,
        body: Seq<StatementView>,
    },
    Import { span: Span, specifiers: Seq<IdentifierView> },
    Expression { span: Span, expression: ExpressionView },
    Reactive { span: Span, expression: ExpressionView },
}

pub struct ProgramView {
    pub span: Span,
    pub statements: Seq<StatementView>,
}

pub open spec fn opt_ident_view(o: Option<Identifier>) -> Option<IdentifierView> {
    match o {
        Option::Some(i) => Option::Some(ident_view(i)),
        Option::None => Option::None,
    }
}

pub open spec fn opt_expr_view(o: Option<Expression>) -> Option<ExpressionView> {
    match o {
        Option::Some(e) => Option::Some(expr_view(e)),
        Option::None => Option::None,
    }
}

pub open spec fn idents_full_view(is: Seq<Identifier>) -> Seq<IdentifierView> {
    Seq::new(is.len(), |i: int| ident_view(is[i]))
}

pub open spec fn property_view(p: PatternProperty) -> PatternPropertyView {
    PatternPropertyView {
        span: p.span,
        key: p.key@,
        value: ident_view(p.value),
        bindable: p.bindable,
    }
}

pub open spec fn properties_view(ps: Seq<PatternProperty>) -> Seq<PatternPropertyView> {
    Seq::new(ps.len(), |i: int| property_view(ps[i]))
}

pub open spec fn pattern_view(p: BindingPattern) -> BindingPatternView {
    match p {
        BindingPattern::Identifier(i) => BindingPatternView::Identifier(ident_view(i)),
        BindingPattern::Object(o) => BindingPatternView::Object {
            span: o.span,
            properties: properties_view(o.properties@),
            rest: opt_ident_view(o.rest),
        },
        BindingPattern::Array(a) => BindingPatternView::Array {
            span: a.span,
            elements: idents_full_view(a.elements@),
        },
    }
}

pub open spec fn patterns_view(ps: Seq<BindingPattern>) -> Seq<BindingPatternView> {
    Seq::new(ps.len(), |i: int| pattern_view(ps[i]))
}

pub open spec fn opt_pattern_view(o: Option<BindingPattern>) -> Option<BindingPatternView> {
    match o {
        Option::Some(p) => Option::Some(pattern_view(p)),
        Option::None => Option::None,
    }
}

pub open spec fn declarator_view(d: VariableDeclarator) -> VariableDeclaratorView {
    VariableDeclaratorView { span: d.span, id: pattern_view(d.id), init: opt_expr_view(d.init) }
}

pub open spec fn declarators_view(ds: Seq<VariableDeclarator>) -> Seq<VariableDeclaratorView> {
    Seq::new(ds.len(), |i: int| declarator_view(ds[i]))
}

pub open spec fn declaration_view(d: VariableDeclaration) -> VariableDeclarationView {
    VariableDeclarationView {
        span: d.span,
        kind: d.kind,
        declarations: declarators_view(d.declarations@),
    }
}

pub open spec fn statement_view(s: Statement) -> StatementView
    decreases s,
{
    match s {
        Statement::VariableDeclaration(d) => StatementView::VariableDeclaration(
            declaration_view(d),
        ),
        Statement::FunctionDeclaration(f) => StatementView::Function {
            span: f.span,
            id: ident_view(f.id),
            params: idents_full_view(f.params@),
            body: statements_view(f.body@),
        },
        Statement::ImportDeclaration(i) => StatementView::Import {
            span: i.span,
            specifiers: idents_full_view(i.specifiers@),
        },
        Statement::ExpressionStatement(e) => StatementView::Expression {
            span: e.span,
            expression: expr_view(e.expression),
        },
        Statement::ReactiveStatement(r) => StatementView::Reactive {
            span: r.span,
            expression: expr_view(r.expression),
        },
    }
}

pub open spec fn statements_view(ss: Seq<Statement>) -> Seq<StatementView>
    decreases ss,
{
    if ss.len() == 0 {
        Seq::<StatementView>::empty()
    } else {
        statements_view(ss.subrange(0, ss.len() - 1)).push(statement_view(ss[ss.len() - 1]))
    }
}

/// `statements_view` maps `statement_view` element by element.
pub broadcast proof fn lemma_statements_view(ss: Seq<Statement>)
    ensures
        (#[trigger] statements_view(ss)).len() == ss.len(),
        forall|i: int| 0 <= i < ss.len() ==> statements_view(ss)[i] == statement_view(ss[i]),
    decreases ss,
{
    if ss.len() > 0 {
        lemma_statements_view(ss.subrange(0, ss.len() - 1));
    }
}

pub open spec fn program_view(p: Program) -> ProgramView {
    ProgramView { span: p.span, statements: statements_view(p.statements@) }
}

/// Copies one pattern property exactly.
pub fn clone_property(p: &PatternProperty) -> (r: PatternProperty)
    ensures
        r == *p,
{
    PatternProperty {
        span: p.span,
        key: p.key.clone(),
        value: crate::expression::clone_identifier(&p.value),
        bindable: p.bindable,
    }
}

/// Copies `ps[i..]` exactly.
pub fn clone_properties(ps: &Vec<PatternProperty>, i: usize) -> (r: Vec<PatternProperty>)
    requires
        i <= ps@.len(),
    ensures
        r@ == ps@.subrange(i as int, ps@.len() as int),
    decreases ps@.len() - i,
{
    if i >= ps.len() {
        let r = Vec::new();
        proof {
            assert(r@ =~= ps@.subrange(i as int, ps@.len() as int));
        }
        r
    } else {
        let first = clone_property(&ps[i]);
        let mut rest = clone_properties(ps, i + 1);
        rest.insert(0, first);
        proof {
            assert(rest@ =~= ps@.subrange(i as int, ps@.len() as int));
        }
        rest
    }
}

/// Copies an optional identifier exactly.
pub fn clone_opt_identifier(o: &Option<Identifier>) -> (r: Option<Identifier>)
    ensures
        r == *o,
{
    match o {
        Option::Some(i) => Option::Some(crate::expression::clone_identifier(i)),
        Option::None => Option::None,
    }
}

/// Copies a pattern, view preserved exactly.
pub fn clone_pattern(p: &BindingPattern) -> (r: BindingPattern)
    ensures
        pattern_view(r) == pattern_view(*p),
{
    match p {
        BindingPattern::Identifier(i) => BindingPattern::Identifier(
            crate::expression::clone_identifier(i),
        ),
        BindingPattern::Object(o) => {
            let properties = clone_properties(&o.properties, 0);
            let rest = clone_opt_identifier(&o.rest);
            proof {
                assert(properties@ =~= o.properties@);
            }
            BindingPattern::Object(ObjectPattern { span: o.span, properties, rest })
        },
        BindingPattern::Array(a) => {
            let elements = crate::expression::clone_identifiers(&a.elements, 0);
            proof {
                assert(elements@ =~= a.elements@);
            }
            BindingPattern::Array(ArrayPattern { span: a.span, elements })
        },
    }
}

/// Copies `ps[i..]`, views preserved pointwise.
pub fn clone_patterns(ps: &Vec<BindingPattern>, i: usize) -> (r: Vec<BindingPattern>)
    requires
        i <= ps@.len(),
    ensures
        r@.len() == ps@.len() - i,
        forall|j: int| 0 <= j < r@.len() ==> pattern_view(r@[j]) == pattern_view(ps@[i + j]),
    decreases ps@.len() - i,
{
    if i >= ps.len() {
        Vec::new()
    } else {
        let first = clone_pattern(&ps[i]);
        let mut rest = clone_patterns(ps, i + 1);
        rest.insert(0, first);
        rest
    }
}

/// Two pattern lists with pointwise equal views have equal views.
pub proof fn lemma_patterns_view_eq(a: Seq<BindingPattern>, b: Seq<BindingPattern>)
    requires
        a.len() == b.len(),
        forall|j: int| 0 <= j < a.len() ==> pattern_view(a[j]) == pattern_view(b[j]),
    ensures
        patterns_view(a) == patterns_view(b),
{
    assert(patterns_view(a) =~= patterns_view(b));
}

/// Copies one declarator, view preserved exactly.
pub fn clone_declarator(d: &VariableDeclarator) -> (r: VariableDeclarator)
    ensures
        declarator_view(r) == declarator_view(*d),
{
    let id = clone_pattern(&d.id);
    let init = match &d.init {
        Option::Some(e) => Option::Some(crate::expression::clone_expression(e)),
        Option::None => Option::None,
    };
    VariableDeclarator { span: d.span, id, init }
}

/// Copies `ds[i..]`, views preserved pointwise.
pub fn clone_declarators(ds: &Vec<VariableDeclarator>, i: usize) -> (r: Vec<VariableDeclarator>)
    requires
        i <= ds@.len(),
    ensures
        r@.len() == ds@.len() - i,
        forall|j: int| 0 <= j < r@.len() ==> declarator_view(r@[j]) == declarator_view(
            ds@[i + j],
        ),
    decreases ds@.len() - i,
{
    if i >= ds.len() {
        Vec::new()
    } else {
        let first = clone_declarator(&ds[i]);
        let mut rest = clone_declarators(ds, i + 1);
        rest.insert(0, first);
        rest
    }
}

/// Copies a declaration, view preserved exactly.
pub fn clone_declaration(d: &VariableDeclaration) -> (r: VariableDeclaration)
    ensures
        declaration_view(r) == declaration_view(*d),
{
    let declarations = clone_declarators(&d.declarations, 0);
    let r = VariableDeclaration { span: d.span, kind: d.kind, declarations };
    proof {
        assert(declarators_view(declarations@) =~= declarators_view(d.declarations@));
    }
    r
}

} // verus!
