//! Reference resolution over expressions.
//!
//! Walks an expression bottom-up, resolves every identifier occurrence
//! through the scope stack, records references and mutations in the
//! binding table, and returns the list of binding ids the expression
//! depends on.  A name that resolves nowhere but follows the store
//! auto-subscription convention (a `$` prefix) is given a synthetic
//! store-subscription binding.  Names bound by an enclosing function
//! expression's parameters are shadowed and resolve to nothing.

use vstd::prelude::*;
use vstd::string::StrSliceExecFns;
use crate::ast::Identifier;
use crate::binding::{BindingId, strings_view};
use crate::expression::{
    Expression, ExpressionView, IdentifierView, MemberProperty, MemberPropertyView, exprs_view,
    expr_view, ident_view, idents_view, lemma_exprs_view,
};
use crate::scope::{
    AnalyzerState, StateView, spec_declare_store_sub, spec_find_store_sub, spec_lookup_frames,
    spec_record_mutation, spec_record_reference, clone_ident, copy_strings,
};

verus! {

/// The store auto-subscription convention: a `$`-prefixed name of at
/// least one further character.
pub open spec fn spec_is_store_name(name: Seq<char>) -> bool {
    name.len() > 1 && name[0] == '$'
}

/// Executable form of `spec_is_store_name`.
pub fn is_store_name(name: &String) -> (r: bool)
    ensures
        r == spec_is_store_name(name@),
{
    let s = name.as_str();
    if s.unicode_len() > 1 {
        s.get_char(0) == '$'
    } else {
        false
    }
}

/// Whether `name` occurs in the shadow list.
fn contains_name(v: &Vec<String>, name: &String) -> (r: bool)
    ensures
        r == strings_view(v@).contains(name@),
{
    let n = v.len();
    for i in 0..n
        invariant
            n == v@.len(),
            forall|j: int| 0 <= j < i ==> strings_view(v@)[j] != name@,
    {
        if v[i] == *name {
            proof {
                assert(strings_view(v@)[i as int] == name@);
            }
            return true;
        }
    }
    proof {
        assert(!strings_view(v@).contains(name@));
    }
    false
}

/// Resolves one identifier occurrence: a shadowed name resolves to
/// nothing; a lexically bound name is recorded as a reference; an
/// unbound store-convention name finds or synthesizes its
/// store-subscription binding; any other unbound name is left alone.
pub open spec fn spec_resolve_ident(
    id: IdentifierView,
    shadowed: Seq<Seq<char>>,
    st: StateView,
) -> (Seq<BindingId>, StateView) {
    if shadowed.contains(id.name) {
        (Seq::<BindingId>::empty(), st)
    } else {
        match spec_lookup_frames(st.frames, id.name) {
            Option::Some(bid) => (seq![bid], spec_record_reference(st, bid, id.span)),
            Option::None => {
                if spec_is_store_name(id.name) {
                    match spec_find_store_sub(st.bindings, id.name, 0) {
                        Option::Some(bid) => (
                            seq![bid],
                            spec_record_reference(st, bid, id.span),
                        ),
                        Option::None => {
                            let (st1, bid) = spec_declare_store_sub(st, id);
                            (seq![bid], spec_record_reference(st1, bid, id.span))
                        },
                    }
                } else {
                    (Seq::<BindingId>::empty(), st)
                }
            },
        }
    }
}

/// Resolves every identifier in `e` and collects the binding ids it
/// depends on, in occurrence order.
pub open spec fn spec_resolve_expr(
    e: ExpressionView,
    shadowed: Seq<Seq<char>>,
    st: StateView,
) -> (Seq<BindingId>, StateView)
    decreases e, 0int,
{
    match e {
        ExpressionView::Identifier(id) => spec_resolve_ident(id, shadowed, st),
        ExpressionView::Literal(_) => (Seq::<BindingId>::empty(), st),
        ExpressionView::Member { object, property, .. } => {
            let (d1, st1) = spec_resolve_expr(*object, shadowed, st);
            match property {
                MemberPropertyView::Identifier(_) => (d1, st1),
                MemberPropertyView::Expression(p) => {
                    let (d2, st2) = spec_resolve_expr(*p, shadowed, st1);
                    (d1 + d2, st2)
                },
            }
        },
        ExpressionView::Call { callee, arguments, .. } => {
            let (d1, st1) = spec_resolve_expr(*callee, shadowed, st);
            let (d2, st2) = spec_resolve_exprs(arguments, 0, shadowed, st1);
            (d1 + d2, st2)
        },
        ExpressionView::Assignment { target, value, .. } => {
            let (d1, st1) = spec_resolve_target(*target, true, shadowed, st);
            let (d2, st2) = spec_resolve_expr(*value, shadowed, st1);
            (d1 + d2, st2)
        },
        ExpressionView::Update { target, .. } => spec_resolve_target(*target, true, shadowed, st),
        ExpressionView::Function { params, body, .. } => spec_resolve_exprs(
            body,
            0,
            shadowed + params,
            st,
        ),
        ExpressionView::Compound { children, .. } => spec_resolve_exprs(
            children,
            0,
            shadowed,
            st,
        ),
    }
}

/// Resolves `es[i..]` left to right, threading the state.
pub open spec fn spec_resolve_exprs(
    es: Seq<ExpressionView>,
    i: int,
    shadowed: Seq<Seq<char>>,
    st: StateView,
) -> (Seq<BindingId>, StateView)
    decreases es, es.len() - i,
{
    if i < 0 || i >= es.len() {
        (Seq::<BindingId>::empty(), st)
    } else {
        let (d1, st1) = spec_resolve_expr(es[i], shadowed, st);
        let (d2, st2) = spec_resolve_exprs(es, i + 1, shadowed, st1);
        (d1 + d2, st2)
    }
}

/// Resolves an assignment or update target.  The root identifier of
/// the written path is marked mutated; `whole` says whether the write
/// replaces the whole binding (a reassignment) or reaches into it
/// through a member path.
pub open spec fn spec_resolve_target(
    e: ExpressionView,
    whole: bool,
    shadowed: Seq<Seq<char>>,
    st: StateView,
) -> (Seq<BindingId>, StateView)
    decreases e, 1int,
{
    match e {
        ExpressionView::Identifier(id) => {
            let (d, st1) = spec_resolve_ident(id, shadowed, st);
            if d.len() > 0 {
                (d, spec_record_mutation(st1, d[0], whole))
            } else {
                (d, st1)
            }
        },
        ExpressionView::Member { object, property, .. } => {
            let (d1, st1) = spec_resolve_target(*object, false, shadowed, st);
            match property {
                MemberPropertyView::Identifier(_) => (d1, st1),
                MemberPropertyView::Expression(p) => {
                    let (d2, st2) = spec_resolve_expr(*p, shadowed, st1);
                    (d1 + d2, st2)
                },
            }
        },
        _ => spec_resolve_expr(e, shadowed, st),
    }
}

/// Whether `e` syntactically references `name`: an identifier
/// occurrence of that name not hidden by an enclosing function
/// expression's parameters.
pub open spec fn spec_references(e: ExpressionView, shadowed: Seq<Seq<char>>, name: Seq<char>) -> bool
    decreases e, 0int,
{
    match e {
        ExpressionView::Identifier(id) => id.name == name && !shadowed.contains(name),
        ExpressionView::Literal(_) => false,
        ExpressionView::Member { object, property, .. } => spec_references(*object, shadowed, name)
            || (match property {
                MemberPropertyView::Identifier(_) => false,
                MemberPropertyView::Expression(p) => spec_references(*p, shadowed, name),
            }),
        ExpressionView::Call { callee, arguments, .. } => spec_references(*callee, shadowed, name)
            || spec_any_references(arguments, 0, shadowed, name),
        ExpressionView::Assignment { target, value, .. } => spec_references(*target, shadowed, name)
            || spec_references(*value, shadowed, name),
        ExpressionView::Update { target, .. } => spec_references(*target, shadowed, name),
        ExpressionView::Function { params, body, .. } => spec_any_references(
            body,
            0,
            shadowed + params,
            name,
        ),
        ExpressionView::Compound { children, .. } => spec_any_references(
            children,
            0,
            shadowed,
            name,
        ),
    }
}

/// Whether any of `es[i..]` references `name`.
pub open spec fn spec_any_references(
    es: Seq<ExpressionView>,
    i: int,
    shadowed: Seq<Seq<char>>,
    name: Seq<char>,
) -> bool
    decreases es, es.len() - i,
{
    if i < 0 || i >= es.len() {
        false
    } else {
        spec_references(es[i], shadowed, name) || spec_any_references(es, i + 1, shadowed, name)
    }
}

/// Resolution never touches the lexical frames: references, mutations
/// and synthetic store subscriptions change only the tables.
pub proof fn lemma_resolve_expr_frames(e: ExpressionView, shadowed: Seq<Seq<char>>, st: StateView)
    ensures
        spec_resolve_expr(e, shadowed, st).1.frames == st.frames,
    decreases e, 0int,
{
    match e {
        ExpressionView::Identifier(id) => {},
        ExpressionView::Literal(_) => {},
        ExpressionView::Member { object, property, .. } => {
            lemma_resolve_expr_frames(*object, shadowed, st);
            match property {
                MemberPropertyView::Identifier(_) => {},
                MemberPropertyView::Expression(p) => {
                    lemma_resolve_expr_frames(*p, shadowed, spec_resolve_expr(
                        *object,
                        shadowed,
                        st,
                    ).1);
                },
            }
        },
        ExpressionView::Call { callee, arguments, .. } => {
            lemma_resolve_expr_frames(*callee, shadowed, st);
            lemma_resolve_exprs_frames(arguments, 0, shadowed, spec_resolve_expr(
                *callee,
                shadowed,
                st,
            ).1);
        },
        ExpressionView::Assignment { target, value, .. } => {
            lemma_resolve_target_frames(*target, true, shadowed, st);
            lemma_resolve_expr_frames(*value, shadowed, spec_resolve_target(
                *target,
                true,
                shadowed,
                st,
            ).1);
        },
        ExpressionView::Update { target, .. } => {
            lemma_resolve_target_frames(*target, true, shadowed, st);
        },
        ExpressionView::Function { params, body, .. } => {
            lemma_resolve_exprs_frames(body, 0, shadowed + params, st);
        },
        ExpressionView::Compound { children, .. } => {
            lemma_resolve_exprs_frames(children, 0, shadowed, st);
        },
    }
}

pub proof fn lemma_resolve_exprs_frames(
    es: Seq<ExpressionView>,
    i: int,
    shadowed: Seq<Seq<char>>,
    st: StateView,
)
    ensures
        spec_resolve_exprs(es, i, shadowed, st).1.frames == st.frames,
    decreases es, es.len() - i,
{
    if 0 <= i < es.len() {
        lemma_resolve_expr_frames(es[i], shadowed, st);
        lemma_resolve_exprs_frames(es, i + 1, shadowed, spec_resolve_expr(es[i], shadowed, st).1);
    }
}

pub proof fn lemma_resolve_target_frames(
    e: ExpressionView,
    whole: bool,
    shadowed: Seq<Seq<char>>,
    st: StateView,
)
    ensures
        spec_resolve_target(e, whole, shadowed, st).1.frames == st.frames,
    decreases e, 1int,
{
    match e {
        ExpressionView::Identifier(id) => {},
        ExpressionView::Member { object, property, .. } => {
            lemma_resolve_target_frames(*object, false, shadowed, st);
            match property {
                MemberPropertyView::Identifier(_) => {},
                MemberPropertyView::Expression(p) => {
                    lemma_resolve_expr_frames(*p, shadowed, spec_resolve_target(
                        *object,
                        false,
                        shadowed,
                        st,
                    ).1);
                },
            }
        },
        _ => {
            lemma_resolve_expr_frames(e, shadowed, st);
        },
    }
}

/// A concatenation contains what either part contains.
pub proof fn lemma_contains_concat<T>(a: Seq<T>, b: Seq<T>, x: T)
    requires
        a.contains(x) || b.contains(x),
    ensures
        (a + b).contains(x),
{
    if a.contains(x) {
        let i = choose|i: int| 0 <= i < a.len() && a[i] == x;
        assert((a + b)[i] == x);
    } else {
        let i = choose|i: int| 0 <= i < b.len() && b[i] == x;
        assert((a + b)[a.len() + i] == x);
    }
}

/// An expression that references a lexically bound name depends on
/// that binding: the resolved dependency list contains it.
pub proof fn lemma_resolve_expr_contains(
    e: ExpressionView,
    shadowed: Seq<Seq<char>>,
    st: StateView,
    name: Seq<char>,
    bid: BindingId,
)
    requires
        spec_references(e, shadowed, name),
        spec_lookup_frames(st.frames, name) == Option::<BindingId>::Some(bid),
    ensures
        spec_resolve_expr(e, shadowed, st).0.contains(bid),
    decreases e, 0int,
{
    match e {
        ExpressionView::Identifier(id) => {
            assert(spec_resolve_expr(e, shadowed, st).0 == seq![bid]);
            assert(spec_resolve_expr(e, shadowed, st).0[0] == bid);
        },
        ExpressionView::Literal(_) => {},
        ExpressionView::Member { object, property, .. } => {
            let (d1, st1) = spec_resolve_expr(*object, shadowed, st);
            if spec_references(*object, shadowed, name) {
                lemma_resolve_expr_contains(*object, shadowed, st, name, bid);
                match property {
                    MemberPropertyView::Identifier(_) => {},
                    MemberPropertyView::Expression(p) => {
                        let (d2, _) = spec_resolve_expr(*p, shadowed, st1);
                        lemma_contains_concat(d1, d2, bid);
                    },
                }
            } else {
                match property {
                    MemberPropertyView::Identifier(_) => {},
                    MemberPropertyView::Expression(p) => {
                        lemma_resolve_expr_frames(*object, shadowed, st);
                        lemma_resolve_expr_contains(*p, shadowed, st1, name, bid);
                        let (d2, _) = spec_resolve_expr(*p, shadowed, st1);
                        lemma_contains_concat(d1, d2, bid);
                    },
                }
            }
        },
        ExpressionView::Call { callee, arguments, .. } => {
            let (d1, st1) = spec_resolve_expr(*callee, shadowed, st);
            let (d2, _) = spec_resolve_exprs(arguments, 0, shadowed, st1);
            if spec_references(*callee, shadowed, name) {
                lemma_resolve_expr_contains(*callee, shadowed, st, name, bid);
            } else {
                lemma_resolve_expr_frames(*callee, shadowed, st);
                lemma_resolve_exprs_contains(arguments, 0, shadowed, st1, name, bid);
            }
            lemma_contains_concat(d1, d2, bid);
        },
        ExpressionView::Assignment { target, value, .. } => {
            let (d1, st1) = spec_resolve_target(*target, true, shadowed, st);
            let (d2, _) = spec_resolve_expr(*value, shadowed, st1);
            if spec_references(*target, shadowed, name) {
                lemma_resolve_target_contains(*target, true, shadowed, st, name, bid);
            } else {
                lemma_resolve_target_frames(*target, true, shadowed, st);
                lemma_resolve_expr_contains(*value, shadowed, st1, name, bid);
            }
            lemma_contains_concat(d1, d2, bid);
        },
        ExpressionView::Update { target, .. } => {
            lemma_resolve_target_contains(*target, true, shadowed, st, name, bid);
        },
        ExpressionView::Function { params, body, .. } => {
            lemma_resolve_exprs_contains(body, 0, shadowed + params, st, name, bid);
        },
        ExpressionView::Compound { children, .. } => {
            lemma_resolve_exprs_contains(children, 0, shadowed, st, name, bid);
        },
    }
}

pub proof fn lemma_resolve_exprs_contains(
    es: Seq<ExpressionView>,
    i: int,
    shadowed: Seq<Seq<char>>,
    st: StateView,
    name: Seq<char>,
    bid: BindingId,
)
    requires
        spec_any_references(es, i, shadowed, name),
        spec_lookup_frames(st.frames, name) == Option::<BindingId>::Some(bid),
    ensures
        spec_resolve_exprs(es, i, shadowed, st).0.contains(bid),
    decreases es, es.len() - i,
{
    let (d1, st1) = spec_resolve_expr(es[i], shadowed, st);
    let (d2, _) = spec_resolve_exprs(es, i + 1, shadowed, st1);
    if spec_references(es[i], shadowed, name) {
        lemma_resolve_expr_contains(es[i], shadowed, st, name, bid);
    } else {
        lemma_resolve_expr_frames(es[i], shadowed, st);
        lemma_resolve_exprs_contains(es, i + 1, shadowed, st1, name, bid);
    }
    lemma_contains_concat(d1, d2, bid);
}

pub proof fn lemma_resolve_target_contains(
    e: ExpressionView,
    whole: bool,
    shadowed: Seq<Seq<char>>,
    st: StateView,
    name: Seq<char>,
    bid: BindingId,
)
    requires
        spec_references(e, shadowed, name),
        spec_lookup_frames(st.frames, name) == Option::<BindingId>::Some(bid),
    ensures
        spec_resolve_target(e, whole, shadowed, st).0.contains(bid),
    decreases e, 1int,
{
    match e {
        ExpressionView::Identifier(id) => {
            assert(spec_resolve_ident(id, shadowed, st).0 == seq![bid]);
            assert(spec_resolve_target(e, whole, shadowed, st).0[0] == bid);
        },
        ExpressionView::Member { object, property, .. } => {
            let (d1, st1) = spec_resolve_target(*object, false, shadowed, st);
            if spec_references(*object, shadowed, name) {
                lemma_resolve_target_contains(*object, false, shadowed, st, name, bid);
                match property {
                    MemberPropertyView::Identifier(_) => {},
                    MemberPropertyView::Expression(p) => {
                        let (d2, _) = spec_resolve_expr(*p, shadowed, st1);
                        lemma_contains_concat(d1, d2, bid);
                    },
                }
            } else {
                match property {
                    MemberPropertyView::Identifier(_) => {},
                    MemberPropertyView::Expression(p) => {
                        lemma_resolve_target_frames(*object, false, shadowed, st);
                        lemma_resolve_expr_contains(*p, shadowed, st1, name, bid);
                        let (d2, _) = spec_resolve_expr(*p, shadowed, st1);
                        lemma_contains_concat(d1, d2, bid);
                    },
                }
            }
        },
        _ => {
            lemma_resolve_expr_contains(e, shadowed, st, name, bid);
        },
    }
}

/// Executable form of `spec_resolve_ident`.
pub fn resolve_identifier(
    id: &Identifier,
    shadowed: &Vec<String>,
    st: &mut AnalyzerState,
) -> (deps: Vec<BindingId>)
    ensures
        deps@ == spec_resolve_ident(ident_view(*id), strings_view(shadowed@), old(st)@).0,
        final(st)@ == spec_resolve_ident(ident_view(*id), strings_view(shadowed@), old(st)@).1,
{
    if contains_name(shadowed, &id.name) {
        Vec::new()
    } else {
        match st.lookup(&id.name) {
            Option::Some(bid) => {
                st.record_reference(bid, id.span);
                let mut deps: Vec<BindingId> = Vec::new();
                deps.push(bid);
                proof {
                    assert(deps@ =~= seq![bid]);
                }
                deps
            },
            Option::None => {
                if is_store_name(&id.name) {
                    match st.find_store_sub(&id.name, 0) {
                        Option::Some(bid) => {
                            st.record_reference(bid, id.span);
                            let mut deps: Vec<BindingId> = Vec::new();
                            deps.push(bid);
                            proof {
                                assert(deps@ =~= seq![bid]);
                            }
                            deps
                        },
                        Option::None => {
                            let bid = st.declare_store_sub(clone_ident(id));
                            st.record_reference(bid, id.span);
                            let mut deps: Vec<BindingId> = Vec::new();
                            deps.push(bid);
                            proof {
                                assert(deps@ =~= seq![bid]);
                            }
                            deps
                        },
                    }
                } else {
                    Vec::new()
                }
            },
        }
    }
}

/// Extends the shadow list with a function's parameter names.
fn extend_shadowed(shadowed: &Vec<String>, params: &Vec<Identifier>) -> (r: Vec<String>)
    ensures
        strings_view(r@) == strings_view(shadowed@) + idents_view(params@),
{
    let mut r = copy_strings(shadowed);
    let n = params.len();
    for i in 0..n
        invariant
            n == params@.len(),
            strings_view(r@) == strings_view(shadowed@) + idents_view(params@.subrange(
                0,
                i as int,
            )),
    {
        let ghost prev = r@;
        r.push(params[i].name.clone());
        proof {
            assert(strings_view(r@) =~= strings_view(prev).push(params@[i as int].name@));
            assert(idents_view(params@.subrange(0, i + 1 as int)) =~= idents_view(
                params@.subrange(0, i as int),
            ).push(params@[i as int].name@));
            assert(strings_view(r@) =~= strings_view(shadowed@) + idents_view(
                params@.subrange(0, i + 1 as int),
            ));
        }
    }
    proof {
        assert(params@.subrange(0, n as int) =~= params@);
        assert(strings_view(r@) =~= strings_view(shadowed@) + idents_view(params@));
    }
    r
}

/// Executable form of `spec_resolve_expr`.
pub fn resolve_expression(
    e: &Expression,
    shadowed: &Vec<String>,
    st: &mut AnalyzerState,
) -> (deps: Vec<BindingId>)
    ensures
        deps@ == spec_resolve_expr(expr_view(*e), strings_view(shadowed@), old(st)@).0,
        final(st)@ == spec_resolve_expr(expr_view(*e), strings_view(shadowed@), old(st)@).1,
    decreases *e, 0int,
{
    match e {
        Expression::Identifier(id) => resolve_identifier(id, shadowed, st),
        Expression::Literal(_) => Vec::new(),
        Expression::Member(m) => {
            let mut deps = resolve_expression(&m.object, shadowed, st);
            match &m.property {
                MemberProperty::Identifier(_) => deps,
                MemberProperty::Expression(p) => {
                    let mut d2 = resolve_expression(p, shadowed, st);
                    deps.append(&mut d2);
                    deps
                },
            }
        },
        Expression::Call(c) => {
            let mut deps = resolve_expression(&c.callee, shadowed, st);
            let mut d2 = resolve_expressions(&c.arguments, 0, shadowed, st);
            deps.append(&mut d2);
            deps
        },
        Expression::Assignment(a) => {
            let mut deps = resolve_target(&a.target, true, shadowed, st);
            let mut d2 = resolve_expression(&a.value, shadowed, st);
            deps.append(&mut d2);
            deps
        },
        Expression::Update(u) => resolve_target(&u.target, true, shadowed, st),
        Expression::Function(f) => {
            let inner = extend_shadowed(shadowed, &f.params);
            resolve_expressions(&f.body, 0, &inner, st)
        },
        Expression::Compound(c) => resolve_expressions(&c.children, 0, shadowed, st),
    }
}

/// Executable form of `spec_resolve_exprs`.
pub fn resolve_expressions(
    es: &Vec<Expression>,
    i: usize,
    shadowed: &Vec<String>,
    st: &mut AnalyzerState,
) -> (deps: Vec<BindingId>)
    ensures
        deps@ == spec_resolve_exprs(exprs_view(es@), i as int, strings_view(shadowed@), old(st)@).0,
        final(st)@ == spec_resolve_exprs(
            exprs_view(es@),
            i as int,
            strings_view(shadowed@),
            old(st)@,
        ).1,
    decreases es@, es@.len() - i,
{
    proof {
        lemma_exprs_view(es@);
    }
    if i >= es.len() {
        Vec::new()
    } else {
        let mut deps = resolve_expression(&es[i], shadowed, st);
        let mut d2 = resolve_expressions(es, i + 1, shadowed, st);
        deps.append(&mut d2);
        deps
    }
}

/// Executable form of `spec_resolve_target`.
pub fn resolve_target(
    e: &Expression,
    whole: bool,
    shadowed: &Vec<String>,
    st: &mut AnalyzerState,
) -> (deps: Vec<BindingId>)
    ensures
        deps@ == spec_resolve_target(expr_view(*e), whole, strings_view(shadowed@), old(st)@).0,
        final(st)@ == spec_resolve_target(
            expr_view(*e),
            whole,
            strings_view(shadowed@),
            old(st)@,
        ).1,
    decreases *e, 1int,
{
    match e {
        Expression::Identifier(id) => {
            let deps = resolve_identifier(id, shadowed, st);
            if deps.len() > 0 {
                let root = deps[0];
                st.record_mutation(root, whole);
                deps
            } else {
                deps
            }
        },
        Expression::Member(m) => {
            let mut deps = resolve_target(&m.object, false, shadowed, st);
            match &m.property {
                MemberProperty::Identifier(_) => deps,
                MemberProperty::Expression(p) => {
                    let mut d2 = resolve_expression(p, shadowed, st);
                    deps.append(&mut d2);
                    deps
                },
            }
        },
        _ => resolve_expression(e, shadowed, st),
    }
}

} // verus!
