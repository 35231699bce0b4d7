//! The collection pass: the first of the analysis' two passes.
//!
//! One traversal threads the scope stack through the whole tree:
//! it declares and classifies every binding, resolves every
//! identifier occurrence, records references and mutations, stores
//! each expression-bearing node's dependencies in its metadata slot,
//! classifies elements by namespace and scoping, registers `each`
//! blocks, and resolves `bind:` directives to their binding groups.
//! Taint flags are left for the second pass, which reads the mutation
//! state this pass accumulated.

use vstd::prelude::*;
use crate::ast::{
    AnimateDirective, Attribute, AttributeSequenceValue, AttributeValue, AwaitBlock,
    BindDirective, BindDirectiveExpression, Block, ClassDirective, Component, ConstTag, DebugTag,
    DirectiveAttribute, EachBlock, EachBlockMetadata, EachBlockMetadataView, Element,
    ElementAttribute, ExpressionTag, Fragment, FragmentNode, HtmlTag, Identifier, IfBlock,
    KeyBlock, LetDirective, LetDirectiveExpression, Namespace, OnDirective, RegularElement,
    RegularElementFlags, RenderTag, RenderTagExpression, SlotElement, SnippetBlock, Span,
    SpreadAttribute, StyleDirective, SvelteBody, SvelteComponent, SvelteDocument, SvelteElement,
    SvelteElementFlags, SvelteFragment, SvelteHead, SvelteOptionsRaw, SvelteSelf, SvelteWindow,
    Tag, Text, TitleElement, TransitionDirective, UseDirective,
};
use crate::binding::{
    BindingGroupId, BindingId, BindingInitial, BindingKind, BlockId, DeclarationKind, Diagnostic,
    DiagnosticView, InitialValueKind, NamespaceConflict, UnresolvedGroupBinding,
};
use crate::expression::{
    CompoundExpression, Expression, ExpressionView, IdentifierView, MemberProperty,
    MemberPropertyView, call_view, clone_call, clone_expression, clone_identifier, clone_member, expr_view,
    exprs_view, ident_view, idents_view,
};
use crate::binding::{opt_string_view, strings_view};
use crate::namespace::name_is;
use crate::resolve::{
    resolve_expression, resolve_expressions, resolve_identifier, resolve_target,
    spec_resolve_expr, spec_resolve_exprs, spec_resolve_ident, spec_resolve_target,
};
use crate::scope::{
    AnalyzerState, ScopeEntryView, StateView, copy_binding_ids, copy_strings,
    spec_add_diagnostic, spec_declare, spec_lookup_frames, spec_mark_block_bind,
    spec_mark_block_group, spec_pop_block, spec_pop_frame, spec_push_block, spec_push_frame,
    spec_record_mutation, spec_record_reference, spec_resolve_group, spec_set_legacy,
};
use crate::script::{
    BindingPattern, BindingPatternView, PatternProperty, PatternPropertyView, Statement,
    StatementView, VariableDeclarationKind, VariableDeclarator, VariableDeclaratorView,
    declarator_view, declarators_view, idents_full_view, lemma_statements_view, opt_expr_view,
    pattern_view, properties_view, statement_view, statements_view,
};
use crate::views::{
    AttributeSequenceValueView, AttributeValueView, AttributeView, BlockView, DirectiveKind,
    DirectiveView, ElementAttributeView, ElementKind, ElementView, ExpressionTagView,
    FragmentNodeView, FragmentView, TagView, attr_seq_value_view, attr_seq_values_view,
    block_view, directive_view, element_attribute_view, element_attributes_view, element_view,
    expression_tag_view, fragment_view, lemma_nodes_view, let_expr_view, node_view, nodes_view,
    opt_attr_value_view, tag_view,
};

verus! {

/// The state an analysis starts from.
pub open spec fn spec_initial_state() -> StateView {
    StateView {
        frames: Seq::empty(),
        block_stack: Seq::empty(),
        bindings: Seq::empty(),
        blocks: Seq::empty(),
        groups: Seq::empty(),
        diagnostics: Seq::empty(),
    }
}

/// No names are shadowed outside function expressions.
pub open spec fn no_shadow() -> Seq<Seq<char>> {
    Seq::empty()
}

/// Declares one identifier with the given classification.
pub open spec fn spec_declare_one(
    id: IdentifierView,
    kind: BindingKind,
    decl: DeclarationKind,
    initial: Option<InitialValueKind>,
    alias: Option<Seq<char>>,
    st: StateView,
) -> (StateView, BindingId) {
    let init = match initial {
        Option::Some(k) => Option::Some(BindingInitial { kind: k, span: id.span }),
        Option::None => Option::None,
    };
    let r = spec_declare(st, id, kind, decl, init, alias);
    (r.0, r.1)
}

/// Declares the identifiers `ids[i..]`, all with one classification.
pub open spec fn spec_declare_idents(
    ids: Seq<IdentifierView>,
    i: int,
    kind: BindingKind,
    decl: DeclarationKind,
    initial: Option<InitialValueKind>,
    st: StateView,
) -> (Seq<BindingId>, StateView)
    decreases ids.len() - i,
{
    if i < 0 || i >= ids.len() {
        (Seq::<BindingId>::empty(), st)
    } else {
        let (st1, bid) = spec_declare_one(ids[i], kind, decl, initial, Option::None, st);
        let (rest, st2) = spec_declare_idents(ids, i + 1, kind, decl, initial, st1);
        (seq![bid] + rest, st2)
    }
}

/// Declares the properties `ps[i..]` of a destructuring pattern.  In
/// props mode each property is a prop (bindable when marked) aliased
/// to its key; otherwise all get one classification.
pub open spec fn spec_declare_props(
    ps: Seq<PatternPropertyView>,
    i: int,
    kind: BindingKind,
    decl: DeclarationKind,
    initial: Option<InitialValueKind>,
    props: bool,
    st: StateView,
) -> (Seq<BindingId>, StateView)
    decreases ps.len() - i,
{
    if i < 0 || i >= ps.len() {
        (Seq::<BindingId>::empty(), st)
    } else {
        let p = ps[i];
        let k = if props {
            if p.bindable {
                BindingKind::BindableProp
            } else {
                BindingKind::Prop
            }
        } else {
            kind
        };
        let alias = if props && p.key != p.value.name {
            Option::Some(p.key)
        } else {
            Option::<Seq<char>>::None
        };
        let (st1, bid) = spec_declare_one(p.value, k, decl, initial, alias, st);
        let (rest, st2) = spec_declare_props(ps, i + 1, kind, decl, initial, props, st1);
        (seq![bid] + rest, st2)
    }
}

/// Declares every name a pattern binds, in pattern order.
pub open spec fn spec_declare_pattern(
    p: BindingPatternView,
    kind: BindingKind,
    decl: DeclarationKind,
    initial: Option<InitialValueKind>,
    props: bool,
    st: StateView,
) -> (Seq<BindingId>, StateView) {
    match p {
        BindingPatternView::Identifier(id) => {
            let k = if props {
                BindingKind::Prop
            } else {
                kind
            };
            let (st1, bid) = spec_declare_one(id, k, decl, initial, Option::None, st);
            (seq![bid], st1)
        },
        BindingPatternView::Object { properties, rest, .. } => {
            let (ids, st1) = spec_declare_props(properties, 0, kind, decl, initial, props, st);
            match rest {
                Option::Some(r) => {
                    let k = if props {
                        BindingKind::RestProp
                    } else {
                        kind
                    };
                    let (st2, bid) = spec_declare_one(
                        r,
                        k,
                        DeclarationKind::RestParam,
                        initial,
                        Option::None,
                        st1,
                    );
                    (ids.push(bid), st2)
                },
                Option::None => (ids, st1),
            }
        },
        BindingPatternView::Array { elements, .. } => {
            let k = if props {
                BindingKind::Prop
            } else {
                kind
            };
            spec_declare_idents(elements, 0, k, decl, initial, st)
        },
    }
}

/// The rune classification of a declaration initialiser: the state
/// rune call `state(...)`, its frozen variant `state.frozen(...)`,
/// the derived rune `derived(...)`, or the props rune `props()`.
pub open spec fn spec_rune_of(e: ExpressionView) -> Option<BindingKind> {
    match e {
        ExpressionView::Call { callee, .. } => match *callee {
            ExpressionView::Identifier(id) => {
                if id.name == "state"@ {
                    Option::Some(BindingKind::State)
                } else if id.name == "derived"@ {
                    Option::Some(BindingKind::Derived)
                } else if id.name == "props"@ {
                    Option::Some(BindingKind::Prop)
                } else {
                    Option::None
                }
            },
            ExpressionView::Member { object, property, .. } => match (*object, property) {
                (
                    ExpressionView::Identifier(o),
                    MemberPropertyView::Identifier(p),
                ) => {
                    if o.name == "state"@ && p == "frozen"@ {
                        Option::Some(BindingKind::FrozenState)
                    } else {
                        Option::None
                    }
                },
                _ => Option::None,
            },
            _ => Option::None,
        },
        _ => Option::None,
    }
}

/// The arguments of a call expression; empty for any other shape.
pub open spec fn spec_call_args(e: ExpressionView) -> Seq<ExpressionView> {
    match e {
        ExpressionView::Call { arguments, .. } => arguments,
        _ => Seq::empty(),
    }
}

/// Classifies and declares one script declarator.  A rune initialiser
/// classifies the declared names; its arguments are resolved first,
/// then the names join the scope.
pub open spec fn spec_collect_declarator(
    d: VariableDeclaratorView,
    decl: DeclarationKind,
    st: StateView,
) -> StateView {
    match d.init {
        Option::None => spec_declare_pattern(
            d.id,
            BindingKind::Normal,
            decl,
            Option::None,
            false,
            st,
        ).1,
        Option::Some(e) => match spec_rune_of(e) {
            Option::Some(kind) => {
                let st1 = spec_resolve_exprs(spec_call_args(e), 0, no_shadow(), st).1;
                if kind == BindingKind::Prop {
                    spec_declare_pattern(
                        d.id,
                        BindingKind::Prop,
                        DeclarationKind::Param,
                        Option::Some(InitialValueKind::Expression),
                        true,
                        st1,
                    ).1
                } else {
                    spec_declare_pattern(
                        d.id,
                        kind,
                        decl,
                        Option::Some(InitialValueKind::Expression),
                        false,
                        st1,
                    ).1
                }
            },
            Option::None => {
                let st1 = spec_resolve_expr(e, no_shadow(), st).1;
                let ik = match e {
                    ExpressionView::Function { .. } => InitialValueKind::Function,
                    _ => InitialValueKind::Expression,
                };
                spec_declare_pattern(
                    d.id,
                    BindingKind::Normal,
                    decl,
                    Option::Some(ik),
                    false,
                    st1,
                ).1
            },
        },
    }
}

/// Declares the declarators `ds[i..]` in order.
pub open spec fn spec_collect_declarators(
    ds: Seq<VariableDeclaratorView>,
    i: int,
    decl: DeclarationKind,
    st: StateView,
) -> StateView
    decreases ds.len() - i,
{
    if i < 0 || i >= ds.len() {
        st
    } else {
        let st1 = spec_collect_declarator(ds[i], decl, st);
        spec_collect_declarators(ds, i + 1, decl, st1)
    }
}

/// Resolves the declarators `ds[i..]` without declaring anything:
/// what a `{@const ...}` tag needs.
pub open spec fn spec_resolve_declarators(
    ds: Seq<VariableDeclaratorView>,
    i: int,
    st: StateView,
) -> StateView
    decreases ds.len() - i,
{
    if i < 0 || i >= ds.len() {
        st
    } else {
        let st1 = match ds[i].init {
            Option::Some(e) => spec_resolve_expr(e, no_shadow(), st).1,
            Option::None => st,
        };
        spec_resolve_declarators(ds, i + 1, st1)
    }
}

/// Resolves the identifiers `ids[i..]` as references.
pub open spec fn spec_resolve_idents(ids: Seq<IdentifierView>, i: int, st: StateView) -> StateView
    decreases ids.len() - i,
{
    if i < 0 || i >= ids.len() {
        st
    } else {
        let st1 = spec_resolve_ident(ids[i], no_shadow(), st).1;
        spec_resolve_idents(ids, i + 1, st1)
    }
}

/// The declaration-site kind of a script declaration keyword.
pub open spec fn spec_decl_kind(k: VariableDeclarationKind) -> DeclarationKind {
    match k {
        VariableDeclarationKind::Var => DeclarationKind::Var,
        VariableDeclarationKind::Let => DeclarationKind::Let,
        VariableDeclarationKind::Const => DeclarationKind::Const,
    }
}

/// A legacy reactive statement: an assignment to a bare identifier
/// re-classifies that binding as legacy reactive (or its imported
/// variant) and records what the right-hand side reads as its legacy
/// dependencies; an undeclared target is declared synthetically.
pub open spec fn spec_collect_reactive(e: ExpressionView, st: StateView) -> StateView {
    match e {
        ExpressionView::Assignment { target, value, .. } => match *target {
            ExpressionView::Identifier(id) => {
                let (vdeps, st1) = spec_resolve_expr(*value, no_shadow(), st);
                match spec_lookup_frames(st1.frames, id.name) {
                    Option::Some(bid) => {
                        let st2 = spec_record_reference(st1, bid, id.span);
                        let st3 = spec_record_mutation(st2, bid, true);
                        if bid.0 < st3.bindings.len() && st3.bindings[bid.0 as int].kind
                            == BindingKind::Normal {
                            let k = if st3.bindings[bid.0 as int].declaration_kind
                                == DeclarationKind::Import {
                                BindingKind::LegacyReactiveImport
                            } else {
                                BindingKind::LegacyReactive
                            };
                            spec_set_legacy(st3, bid, k, vdeps)
                        } else {
                            st3
                        }
                    },
                    Option::None => {
                        let (st2, bid) = spec_declare_one(
                            id,
                            BindingKind::LegacyReactive,
                            DeclarationKind::Synthetic,
                            Option::None,
                            Option::None,
                            st1,
                        );
                        let st3 = spec_record_mutation(st2, bid, true);
                        spec_set_legacy(st3, bid, BindingKind::LegacyReactive, vdeps)
                    },
                }
            },
            _ => spec_resolve_expr(e, no_shadow(), st).1,
        },
        _ => spec_resolve_expr(e, no_shadow(), st).1,
    }
}

/// Collects one script statement.
pub open spec fn spec_collect_statement(s: StatementView, st: StateView) -> StateView
    decreases s, 0int,
{
    match s {
        StatementView::VariableDeclaration(d) => spec_collect_declarators(
            d.declarations,
            0,
            spec_decl_kind(d.kind),
            st,
        ),
        StatementView::Function { id, params, body, .. } => {
            let (st1, _bid) = spec_declare_one(
                id,
                BindingKind::Normal,
                DeclarationKind::Function,
                Option::Some(InitialValueKind::Function),
                Option::None,
                st,
            );
            let st2 = spec_push_frame(st1);
            let st3 = spec_declare_idents(
                params,
                0,
                BindingKind::Normal,
                DeclarationKind::Param,
                Option::None,
                st2,
            ).1;
            let st4 = spec_collect_statements(body, 0, st3);
            spec_pop_frame(st4)
        },
        StatementView::Import { specifiers, .. } => spec_declare_idents(
            specifiers,
            0,
            BindingKind::Normal,
            DeclarationKind::Import,
            Option::Some(InitialValueKind::Import),
            st,
        ).1,
        StatementView::Expression { expression, .. } => spec_resolve_expr(
            expression,
            no_shadow(),
            st,
        ).1,
        StatementView::Reactive { expression, .. } => spec_collect_reactive(expression, st),
    }
}

/// Collects the statements `ss[i..]` in order.
pub open spec fn spec_collect_statements(ss: Seq<StatementView>, i: int, st: StateView) -> StateView
    decreases ss, ss.len() - i,
{
    if i < 0 || i >= ss.len() {
        st
    } else {
        let st1 = spec_collect_statement(ss[i], st);
        spec_collect_statements(ss, i + 1, st1)
    }
}

/// Resolves one expression tag and stores its dependencies; its taint
/// flags wait for the second pass.
pub open spec fn spec_collect_expression_tag(t: ExpressionTagView, st: StateView) -> (
    ExpressionTagView,
    StateView,
) {
    let (deps, st1) = spec_resolve_expr(t.expression, no_shadow(), st);
    (
        ExpressionTagView {
            span: t.span,
            expression: t.expression,
            flags: Option::None,
            dependencies: deps,
        },
        st1,
    )
}

/// Collects the attribute value parts `vs[i..]`, accumulating every
/// part's dependencies.
pub open spec fn spec_collect_attr_seq(
    vs: Seq<AttributeSequenceValueView>,
    i: int,
    st: StateView,
) -> (Seq<AttributeSequenceValueView>, Seq<BindingId>, StateView)
    decreases vs.len() - i,
{
    if i < 0 || i >= vs.len() {
        (Seq::<AttributeSequenceValueView>::empty(), Seq::<BindingId>::empty(), st)
    } else {
        let (v1, d1, st1) = match vs[i] {
            AttributeSequenceValueView::Text(t) => (
                AttributeSequenceValueView::Text(t),
                Seq::<BindingId>::empty(),
                st,
            ),
            AttributeSequenceValueView::ExpressionTag(t) => {
                let (t2, st2) = spec_collect_expression_tag(t, st);
                (AttributeSequenceValueView::ExpressionTag(t2), t2.dependencies, st2)
            },
        };
        let (rest, d2, st3) = spec_collect_attr_seq(vs, i + 1, st1);
        (seq![v1] + rest, d1 + d2, st3)
    }
}

/// Collects an optional attribute value.
pub open spec fn spec_collect_opt_value(v: Option<AttributeValueView>, st: StateView) -> (
    Option<AttributeValueView>,
    Seq<BindingId>,
    StateView,
) {
    match v {
        Option::Some(av) => {
            let (s2, deps, st1) = spec_collect_attr_seq(av.sequence, 0, st);
            (
                Option::Some(AttributeValueView { span: av.span, sequence: s2 }),
                deps,
                st1,
            )
        },
        Option::None => (Option::None, Seq::<BindingId>::empty(), st),
    }
}

/// The root name and static member path of a two-way binding target.
/// `None` when a path segment is computed.
pub open spec fn spec_bind_path(e: ExpressionView) -> Option<(Seq<char>, Seq<Seq<char>>)>
    decreases e,
{
    match e {
        ExpressionView::Identifier(id) => Option::Some((id.name, Seq::<Seq<char>>::empty())),
        ExpressionView::Member { object, property, .. } => match property {
            MemberPropertyView::Identifier(p) => match spec_bind_path(*object) {
                Option::Some(rp) => Option::Some((rp.0, rp.1.push(p))),
                Option::None => Option::None,
            },
            MemberPropertyView::Expression(_) => Option::None,
        },
        _ => Option::None,
    }
}

/// Walks the enclosing `each` blocks innermost-first, following the
/// chain of iterables from the bound root outward.  Every block whose
/// declarations hold the current root joins the chain: it is marked,
/// and the root moves to the block's own iterable.  The walk is
/// bounded by the block stack, so it terminates on any input.
/// Returns the state, the final root, the accumulated path, whether
/// any block joined the chain, and whether the chain stayed traceable.
pub open spec fn spec_walk_group(
    st: StateView,
    j: int,
    bid: BindingId,
    path: Seq<Seq<char>>,
    found: bool,
) -> (StateView, BindingId, Seq<Seq<char>>, bool, bool)
    decreases j + 1,
{
    if j < 0 || j >= st.block_stack.len() {
        (st, bid, path, found, true)
    } else {
        let blk = st.block_stack[j];
        if blk.0 < st.blocks.len() && st.blocks[blk.0 as int].declarations.contains(bid) {
            let st1 = spec_mark_block_group(st, blk);
            let st2 = spec_mark_block_bind(st1, blk);
            match st2.blocks[blk.0 as int].iterable_root {
                Option::Some(r) => spec_walk_group(
                    st2,
                    j - 1,
                    r,
                    st2.blocks[blk.0 as int].iterable_path + path,
                    true,
                ),
                Option::None => (st2, bid, path, true, false),
            }
        } else {
            spec_walk_group(st, j - 1, bid, path, found)
        }
    }
}

/// Marks every enclosing `each` block whose declarations hold `bid`:
/// a directly bound loop binding forces keyed rendering.
pub open spec fn spec_mark_bind_blocks(st: StateView, j: int, bid: BindingId) -> StateView
    decreases j + 1,
{
    if j < 0 || j >= st.block_stack.len() {
        st
    } else {
        let blk = st.block_stack[j];
        let st1 = if blk.0 < st.blocks.len() && st.blocks[blk.0 as int].declarations.contains(
            bid,
        ) {
            spec_mark_block_bind(st, blk)
        } else {
            st
        };
        spec_mark_bind_blocks(st1, j - 1, bid)
    }
}

/// Collects a `bind:` directive: resolves and mutates its target,
/// records the innermost enclosing block, and — for a member-path
/// target into enclosing loops — synthesizes or reuses the binding
/// group keyed by the resolved root and the literal member path.  An
/// untraceable member target is reported and left without a group.
pub open spec fn spec_collect_bind(d: DirectiveView, st: StateView) -> (DirectiveView, StateView) {
    match d.expression {
        Option::Some(t) => {
            let (deps, st1) = spec_resolve_target(t, true, no_shadow(), st);
            let parent = if st1.block_stack.len() > 0 {
                Option::Some(st1.block_stack.last())
            } else {
                Option::<BlockId>::None
            };
            match t {
                ExpressionView::Member { .. } => match spec_bind_path(t) {
                    Option::Some(rp) => match spec_lookup_frames(st1.frames, rp.0) {
                        Option::Some(bid) => {
                            let w = spec_walk_group(
                                st1,
                                st1.block_stack.len() - 1,
                                bid,
                                rp.1,
                                false,
                            );
                            if w.3 && w.4 {
                                let (st3, gid) = spec_resolve_group(w.0, w.1, w.2);
                                (
                                    DirectiveView {
                                        value: Option::None,
                                        dynamic: Option::None,
                                        dependencies: Seq::empty(),
                                        binding_group_name: Option::Some(gid),
                                        parent_block: parent,
                                        ..d
                                    },
                                    st3,
                                )
                            } else if w.3 {
                                let st3 = spec_add_diagnostic(
                                    w.0,
                                    DiagnosticView::UnresolvedGroupBinding {
                                        span: d.span,
                                        name: rp.0,
                                    },
                                );
                                (
                                    DirectiveView {
                                        value: Option::None,
                                        dynamic: Option::None,
                                        dependencies: Seq::empty(),
                                        binding_group_name: Option::None,
                                        parent_block: parent,
                                        ..d
                                    },
                                    st3,
                                )
                            } else {
                                (
                                    DirectiveView {
                                        value: Option::None,
                                        dynamic: Option::None,
                                        dependencies: Seq::empty(),
                                        binding_group_name: Option::None,
                                        parent_block: parent,
                                        ..d
                                    },
                                    w.0,
                                )
                            }
                        },
                        Option::None => {
                            let st2 = spec_add_diagnostic(
                                st1,
                                DiagnosticView::UnresolvedGroupBinding {
                                    span: d.span,
                                    name: rp.0,
                                },
                            );
                            (
                                DirectiveView {
                                    value: Option::None,
                                    dynamic: Option::None,
                                    dependencies: Seq::empty(),
                                    binding_group_name: Option::None,
                                    parent_block: parent,
                                    ..d
                                },
                                st2,
                            )
                        },
                    },
                    Option::None => (
                        DirectiveView {
                            value: Option::None,
                            dynamic: Option::None,
                            dependencies: Seq::empty(),
                            binding_group_name: Option::None,
                            parent_block: parent,
                            ..d
                        },
                        st1,
                    ),
                },
                _ => {
                    let st2 = if deps.len() > 0 {
                        spec_mark_bind_blocks(st1, st1.block_stack.len() - 1, deps[0])
                    } else {
                        st1
                    };
                    (
                        DirectiveView {
                            value: Option::None,
                            dynamic: Option::None,
                            dependencies: Seq::empty(),
                            binding_group_name: Option::None,
                            parent_block: parent,
                            ..d
                        },
                        st2,
                    )
                },
            }
        },
        Option::None => (spec_normalize_directive(d, Option::None, Option::None), st),
    }
}

/// A directive with every metadata slot written: the value sequence
/// as given, the remaining slots cleared, the group slots as
/// computed.
pub open spec fn spec_normalize_directive(
    d: DirectiveView,
    value: Option<AttributeValueView>,
    dependencies: Option<Seq<BindingId>>,
) -> DirectiveView {
    DirectiveView {
        value,
        dynamic: Option::None,
        dependencies: match dependencies {
            Option::Some(x) => x,
            Option::None => Seq::empty(),
        },
        binding_group_name: Option::None,
        parent_block: Option::None,
        ..d
    }
}

/// Collects one directive.
pub open spec fn spec_collect_directive(d: DirectiveView, st: StateView) -> (
    DirectiveView,
    StateView,
) {
    match d.kind {
        DirectiveKind::Bind => spec_collect_bind(d, st),
        DirectiveKind::Class => match d.expression {
            Option::Some(e) => {
                let (deps, st1) = spec_resolve_expr(e, no_shadow(), st);
                (
                    spec_normalize_directive(d, Option::None, Option::Some(deps)),
                    st1,
                )
            },
            Option::None => (spec_normalize_directive(d, Option::None, Option::None), st),
        },
        DirectiveKind::Style => {
            let (v2, deps, st1) = spec_collect_opt_value(d.value, st);
            (
                spec_normalize_directive(d, v2, Option::Some(deps)),
                st1,
            )
        },
        DirectiveKind::Let => (spec_normalize_directive(d, Option::None, Option::None), st),
        _ => match d.expression {
            Option::Some(e) => (
                spec_normalize_directive(d, Option::None, Option::None),
                spec_resolve_expr(e, no_shadow(), st).1,
            ),
            Option::None => (spec_normalize_directive(d, Option::None, Option::None), st),
        },
    }
}

/// Collects the element attributes `attrs[i..]`.
pub open spec fn spec_collect_attributes(
    attrs: Seq<ElementAttributeView>,
    i: int,
    st: StateView,
) -> (Seq<ElementAttributeView>, StateView)
    decreases attrs.len() - i,
{
    if i < 0 || i >= attrs.len() {
        (Seq::<ElementAttributeView>::empty(), st)
    } else {
        let (a1, st1) = match attrs[i] {
            ElementAttributeView::Attribute(a) => {
                let (v2, _deps, st1) = spec_collect_opt_value(a.value, st);
                (
                    ElementAttributeView::Attribute(
                        AttributeView { span: a.span, name: a.name, value: v2 },
                    ),
                    st1,
                )
            },
            ElementAttributeView::SpreadAttribute(sp) => {
                let (deps, st1) = spec_resolve_expr(sp.expression, no_shadow(), st);
                (
                    ElementAttributeView::SpreadAttribute(
                        crate::views::SpreadAttributeView {
                            span: sp.span,
                            expression: sp.expression,
                            flags: Option::None,
                            dependencies: deps,
                        },
                    ),
                    st1,
                )
            },
            ElementAttributeView::DirectiveAttribute(dv) => {
                let (d2, st1) = spec_collect_directive(dv, st);
                (ElementAttributeView::DirectiveAttribute(d2), st1)
            },
        };
        let (rest, st2) = spec_collect_attributes(attrs, i + 1, st1);
        (seq![a1] + rest, st2)
    }
}

/// Whether any attribute of `attrs[i..]` is a spread.
pub open spec fn spec_has_spread(attrs: Seq<ElementAttributeView>, i: int) -> bool
    decreases attrs.len() - i,
{
    if i < 0 || i >= attrs.len() {
        false
    } else {
        (attrs[i] is SpreadAttribute) || spec_has_spread(attrs, i + 1)
    }
}

/// Collects one element: classifies its namespace against the
/// ancestor namespace (reporting a conflict best-effort), computes
/// its spread and scoping flags, and descends into its attributes and
/// fragment.
pub open spec fn spec_collect_element(
    e: ElementView,
    ns: Namespace,
    scoped: bool,
    st: StateView,
) -> (ElementView, StateView)
    decreases e, 0int,
{
    let cls = if e.kind == ElementKind::RegularElement {
        match e.name {
            Option::Some(n) => crate::namespace::spec_classify_tag(n, ns),
            Option::None => (ns, ns, false),
        }
    } else {
        (ns, ns, false)
    };
    let st1 = if cls.2 {
        spec_add_diagnostic(
            st,
            DiagnosticView::NamespaceConflict(
                crate::binding::NamespaceConflict { span: e.span, found: cls.0, ancestor: ns },
            ),
        )
    } else {
        st
    };
    let st2 = match e.expression {
        Option::Some(x) => spec_resolve_expr(x, no_shadow(), st1).1,
        Option::None => st1,
    };
    let (attrs2, st3) = spec_collect_attributes(e.attributes, 0, st2);
    let (frag2, st4) = spec_collect_fragment(e.fragment, cls.1, scoped, st3);
    let reg_flags = if e.kind == ElementKind::RegularElement {
        Option::Some(
            RegularElementFlags {
                svg: cls.0 == Namespace::Svg,
                mathml: cls.0 == Namespace::MathMl,
                spread: spec_has_spread(e.attributes, 0),
                scoped,
            },
        )
    } else {
        Option::<RegularElementFlags>::None
    };
    let sv_flags = if e.kind == ElementKind::SvelteElement {
        Option::Some(SvelteElementFlags { svg: ns == Namespace::Svg, scoped })
    } else {
        Option::<SvelteElementFlags>::None
    };
    (
        ElementView {
            kind: e.kind,
            span: e.span,
            name: e.name,
            attributes: attrs2,
            fragment: frag2,
            expression: e.expression,
            reg_flags,
            sv_flags,
        },
        st4,
    )
}

/// Collects one tag.
pub open spec fn spec_collect_tag(t: TagView, st: StateView) -> (TagView, StateView) {
    match t {
        TagView::Expression(et) => {
            let (et2, st1) = spec_collect_expression_tag(et, st);
            (TagView::Expression(et2), st1)
        },
        TagView::Html { span, expression } => (
            TagView::Html { span, expression },
            spec_resolve_expr(expression, no_shadow(), st).1,
        ),
        TagView::Const { span, declaration } => (
            TagView::Const { span, declaration },
            spec_resolve_declarators(declaration.declarations, 0, st),
        ),
        TagView::Debug { span, identifiers } => (
            TagView::Debug { span, identifiers },
            spec_resolve_idents(identifiers, 0, st),
        ),
        TagView::Render { span, chain, call } => (
            TagView::Render { span, chain, call },
            spec_resolve_expr(call, no_shadow(), st).1,
        ),
    }
}

/// The group and direct-bind flags of a registered block; clear when
/// the id is out of range.
pub open spec fn spec_block_flags(st: StateView, blk: BlockId) -> (bool, bool) {
    if blk.0 < st.blocks.len() {
        (
            st.blocks[blk.0 as int].contains_group_binding,
            st.blocks[blk.0 as int].item_referenced_by_bind,
        )
    } else {
        (false, false)
    }
}

/// Collects one block.
pub open spec fn spec_collect_block(
    b: BlockView,
    ns: Namespace,
    scoped: bool,
    st: StateView,
) -> (BlockView, StateView)
    decreases b, 0int,
{
    match b {
        BlockView::Each {
            span,
            expression,
            context,
            body,
            fallback,
            index,
            key,
            metadata: _,
        } => {
            let (iter_deps, st1) = spec_resolve_expr(expression, no_shadow(), st);
            let iter_info = match spec_bind_path(expression) {
                Option::Some(rp) => match spec_lookup_frames(st1.frames, rp.0) {
                    Option::Some(bid) => (Option::Some(bid), rp.1),
                    Option::None => (Option::<BindingId>::None, Seq::<Seq<char>>::empty()),
                },
                Option::None => (Option::<BindingId>::None, Seq::<Seq<char>>::empty()),
            };
            let array_name = if iter_info.1.len() == 0 {
                iter_info.0
            } else {
                Option::<BindingId>::None
            };
            let st2 = spec_push_frame(st1);
            let (item_ids, st3) = spec_declare_pattern(
                context,
                BindingKind::Each,
                DeclarationKind::Let,
                Option::Some(InitialValueKind::EachItem),
                false,
                st2,
            );
            let idx = match index {
                Option::Some(ix) => {
                    let (st4, ib) = spec_declare_one(
                        ix,
                        BindingKind::Each,
                        DeclarationKind::Let,
                        Option::Some(InitialValueKind::EachIndex),
                        Option::None,
                        st3,
                    );
                    (st4, Option::Some(ib))
                },
                Option::None => (st3, Option::<BindingId>::None),
            };
            let declarations = match idx.1 {
                Option::Some(ib) => item_ids.push(ib),
                Option::None => item_ids,
            };
            let (st5, blk) = spec_push_block(
                idx.0,
                declarations,
                iter_info.0,
                iter_info.1,
                key is Some,
            );
            let st6 = match key {
                Option::Some(k) => spec_resolve_expr(k, no_shadow(), st5).1,
                Option::None => st5,
            };
            let (body_nodes, st7) = spec_collect_nodes(body.nodes, 0, ns, scoped, st6);
            let st8 = spec_pop_block(st7);
            let st9 = spec_pop_frame(st8);
            let fb = match fallback {
                Option::Some(f) => {
                    let (f2, st10) = spec_collect_fragment(f, ns, scoped, st9);
                    (Option::Some(f2), st10)
                },
                Option::None => (Option::<FragmentView>::None, st9),
            };
            let flags = spec_block_flags(fb.1, blk);
            let meta = EachBlockMetadataView {
                contains_group_binding: flags.0,
                array_name,
                index: idx.1,
                item: if item_ids.len() > 0 {
                    Option::Some(item_ids[0])
                } else {
                    Option::<BindingId>::None
                },
                declarations,
                references: iter_deps,
                is_controlled: key is None && !flags.0 && !flags.1,
            };
            (
                BlockView::Each {
                    span,
                    expression,
                    context,
                    body: FragmentView { nodes: body_nodes, transparent: body.transparent },
                    fallback: fb.0,
                    index,
                    key,
                    metadata: Option::Some(meta),
                },
                fb.1,
            )
        },
        BlockView::If { span, elseif, test, consequent, alternate } => {
            let st1 = spec_resolve_expr(test, no_shadow(), st).1;
            let (c2, st2) = spec_collect_fragment(consequent, ns, scoped, st1);
            let alt = match alternate {
                Option::Some(a) => {
                    let (a2, st3) = spec_collect_fragment(a, ns, scoped, st2);
                    (Option::Some(a2), st3)
                },
                Option::None => (Option::<FragmentView>::None, st2),
            };
            (
                BlockView::If { span, elseif, test, consequent: c2, alternate: alt.0 },
                alt.1,
            )
        },
        BlockView::Await { span, expression, value, error, pending, then_fragment, catch_fragment } => {
            let st1 = spec_resolve_expr(expression, no_shadow(), st).1;
            let p = match pending {
                Option::Some(f) => {
                    let (f2, s) = spec_collect_fragment(f, ns, scoped, st1);
                    (Option::Some(f2), s)
                },
                Option::None => (Option::<FragmentView>::None, st1),
            };
            let t = match then_fragment {
                Option::Some(f) => {
                    let (f2, s) = spec_collect_fragment(f, ns, scoped, p.1);
                    (Option::Some(f2), s)
                },
                Option::None => (Option::<FragmentView>::None, p.1),
            };
            let c = match catch_fragment {
                Option::Some(f) => {
                    let (f2, s) = spec_collect_fragment(f, ns, scoped, t.1);
                    (Option::Some(f2), s)
                },
                Option::None => (Option::<FragmentView>::None, t.1),
            };
            (
                BlockView::Await {
                    span,
                    expression,
                    value,
                    error,
                    pending: p.0,
                    then_fragment: t.0,
                    catch_fragment: c.0,
                },
                c.1,
            )
        },
        BlockView::Key { span, expression, fragment } => {
            let st1 = spec_resolve_expr(expression, no_shadow(), st).1;
            let (f2, st2) = spec_collect_fragment(fragment, ns, scoped, st1);
            (BlockView::Key { span, expression, fragment: f2 }, st2)
        },
        BlockView::Snippet { span, expression, parameters, body } => {
            let (st1, _bid) = spec_declare_one(
                expression,
                BindingKind::Normal,
                DeclarationKind::Function,
                Option::Some(InitialValueKind::Function),
                Option::None,
                st,
            );
            let st2 = spec_push_frame(st1);
            let st3 = spec_declare_patterns(parameters, 0, st2);
            let (body_nodes, st4) = spec_collect_nodes(body.nodes, 0, ns, scoped, st3);
            let st5 = spec_pop_frame(st4);
            (
                BlockView::Snippet {
                    span,
                    expression,
                    parameters,
                    body: FragmentView { nodes: body_nodes, transparent: body.transparent },
                },
                st5,
            )
        },
    }
}

/// Declares the snippet parameters `ps[i..]`.
pub open spec fn spec_declare_patterns(
    ps: Seq<BindingPatternView>,
    i: int,
    st: StateView,
) -> StateView
    decreases ps.len() - i,
{
    if i < 0 || i >= ps.len() {
        st
    } else {
        let st1 = spec_declare_pattern(
            ps[i],
            BindingKind::Snippet,
            DeclarationKind::Param,
            Option::None,
            false,
            st,
        ).1;
        spec_declare_patterns(ps, i + 1, st1)
    }
}

/// Collects one fragment node.
pub open spec fn spec_collect_node(
    n: FragmentNodeView,
    ns: Namespace,
    scoped: bool,
    st: StateView,
) -> (FragmentNodeView, StateView)
    decreases n, 0int,
{
    match n {
        FragmentNodeView::Text(t) => (FragmentNodeView::Text(t), st),
        FragmentNodeView::Tag(t) => {
            let (t2, st1) = spec_collect_tag(t, st);
            (FragmentNodeView::Tag(t2), st1)
        },
        FragmentNodeView::Element(e) => {
            let (e2, st1) = spec_collect_element(*e, ns, scoped, st);
            (FragmentNodeView::Element(Box::new(e2)), st1)
        },
        FragmentNodeView::Block(b) => {
            let (b2, st1) = spec_collect_block(*b, ns, scoped, st);
            (FragmentNodeView::Block(Box::new(b2)), st1)
        },
    }
}

/// Collects the nodes `nodes[i..]` in order.
pub open spec fn spec_collect_nodes(
    nodes: Seq<FragmentNodeView>,
    i: int,
    ns: Namespace,
    scoped: bool,
    st: StateView,
) -> (Seq<FragmentNodeView>, StateView)
    decreases nodes, nodes.len() - i,
{
    if i < 0 || i >= nodes.len() {
        (Seq::<FragmentNodeView>::empty(), st)
    } else {
        let (n1, st1) = spec_collect_node(nodes[i], ns, scoped, st);
        let (rest, st2) = spec_collect_nodes(nodes, i + 1, ns, scoped, st1);
        (seq![n1] + rest, st2)
    }
}

/// Collects one fragment: its body is a fresh lexical scope.
pub open spec fn spec_collect_fragment(
    f: FragmentView,
    ns: Namespace,
    scoped: bool,
    st: StateView,
) -> (FragmentView, StateView)
    decreases f, 0int,
{
    let st1 = spec_push_frame(st);
    let (nodes2, st2) = spec_collect_nodes(f.nodes, 0, ns, scoped, st1);
    let st3 = spec_pop_frame(st2);
    (FragmentView { nodes: nodes2, transparent: f.transparent }, st3)
}

/// An empty shadow list.
pub fn empty_shadow() -> (r: Vec<String>)
    ensures
        strings_view(r@) == no_shadow(),
{
    let r: Vec<String> = Vec::new();
    proof {
        assert(strings_view(r@) =~= no_shadow());
    }
    r
}

/// Whether `x` occurs in a list of binding ids.
pub fn ids_contains(v: &Vec<BindingId>, x: BindingId) -> (r: bool)
    ensures
        r == v@.contains(x),
{
    let n = v.len();
    for i in 0..n
        invariant
            n == v@.len(),
            forall|j: int| 0 <= j < i ==> v@[j] != x,
    {
        if v[i] == x {
            return true;
        }
    }
    proof {
        assert(!v@.contains(x));
    }
    false
}

/// Executable form of `spec_declare_one`.
pub fn declare_one(
    st: &mut AnalyzerState,
    id: &Identifier,
    kind: BindingKind,
    decl: DeclarationKind,
    initial: Option<InitialValueKind>,
    alias: Option<String>,
) -> (r: BindingId)
    ensures
        final(st)@ == spec_declare_one(
            ident_view(*id),
            kind,
            decl,
            initial,
            opt_string_view(alias),
            old(st)@,
        ).0,
        r == spec_declare_one(
            ident_view(*id),
            kind,
            decl,
            initial,
            opt_string_view(alias),
            old(st)@,
        ).1,
{
    let init = match initial {
        Option::Some(k) => Option::Some(BindingInitial { kind: k, span: id.span }),
        Option::None => Option::None,
    };
    st.declare(clone_identifier(id), kind, decl, init, alias)
}

/// Executable form of `spec_declare_idents`.
pub fn declare_idents(
    st: &mut AnalyzerState,
    ids: &Vec<Identifier>,
    i: usize,
    kind: BindingKind,
    decl: DeclarationKind,
    initial: Option<InitialValueKind>,
) -> (r: Vec<BindingId>)
    ensures
        r@ == spec_declare_idents(
            idents_full_view(ids@),
            i as int,
            kind,
            decl,
            initial,
            old(st)@,
        ).0,
        final(st)@ == spec_declare_idents(
            idents_full_view(ids@),
            i as int,
            kind,
            decl,
            initial,
            old(st)@,
        ).1,
    decreases ids@.len() - i,
{
    if i >= ids.len() {
        let r: Vec<BindingId> = Vec::new();
        proof {
            assert(r@ =~= Seq::<BindingId>::empty());
        }
        r
    } else {
        let bid = declare_one(st, &ids[i], kind, decl, initial, Option::None);
        let mut rest = declare_idents(st, ids, i + 1, kind, decl, initial);
        rest.insert(0, bid);
        proof {
            assert(rest@ =~= seq![bid] + spec_declare_idents(
                idents_full_view(ids@),
                i as int + 1,
                kind,
                decl,
                initial,
                spec_declare_one(
                    ident_view(ids@[i as int]),
                    kind,
                    decl,
                    initial,
                    Option::None,
                    old(st)@,
                ).0,
            ).0);
        }
        rest
    }
}

/// Executable form of `spec_declare_props`.
pub fn declare_props(
    st: &mut AnalyzerState,
    ps: &Vec<PatternProperty>,
    i: usize,
    kind: BindingKind,
    decl: DeclarationKind,
    initial: Option<InitialValueKind>,
    props: bool,
) -> (r: Vec<BindingId>)
    ensures
        r@ == spec_declare_props(
            properties_view(ps@),
            i as int,
            kind,
            decl,
            initial,
            props,
            old(st)@,
        ).0,
        final(st)@ == spec_declare_props(
            properties_view(ps@),
            i as int,
            kind,
            decl,
            initial,
            props,
            old(st)@,
        ).1,
    decreases ps@.len() - i,
{
    if i >= ps.len() {
        let r: Vec<BindingId> = Vec::new();
        proof {
            assert(r@ =~= Seq::<BindingId>::empty());
        }
        r
    } else {
        let p = &ps[i];
        let k = if props {
            if p.bindable {
                BindingKind::BindableProp
            } else {
                BindingKind::Prop
            }
        } else {
            kind
        };
        let alias = if props && !(p.key == p.value.name) {
            Option::Some(p.key.clone())
        } else {
            Option::None
        };
        let bid = declare_one(st, &p.value, k, decl, initial, alias);
        let mut rest = declare_props(st, ps, i + 1, kind, decl, initial, props);
        rest.insert(0, bid);
        proof {
            assert(rest@ =~= spec_declare_props(
                properties_view(ps@),
                i as int,
                kind,
                decl,
                initial,
                props,
                old(st)@,
            ).0);
        }
        rest
    }
}

/// Executable form of `spec_declare_pattern`.
pub fn declare_pattern(
    st: &mut AnalyzerState,
    p: &BindingPattern,
    kind: BindingKind,
    decl: DeclarationKind,
    initial: Option<InitialValueKind>,
    props: bool,
) -> (r: Vec<BindingId>)
    ensures
        r@ == spec_declare_pattern(pattern_view(*p), kind, decl, initial, props, old(st)@).0,
        final(st)@ == spec_declare_pattern(
            pattern_view(*p),
            kind,
            decl,
            initial,
            props,
            old(st)@,
        ).1,
{
    match p {
        BindingPattern::Identifier(id) => {
            let k = if props {
                BindingKind::Prop
            } else {
                kind
            };
            let bid = declare_one(st, id, k, decl, initial, Option::None);
            let mut r: Vec<BindingId> = Vec::new();
            r.push(bid);
            proof {
                assert(r@ =~= seq![bid]);
            }
            r
        },
        BindingPattern::Object(o) => {
            let mut ids = declare_props(st, &o.properties, 0, kind, decl, initial, props);
            match &o.rest {
                Option::Some(rst) => {
                    let k = if props {
                        BindingKind::RestProp
                    } else {
                        kind
                    };
                    let bid = declare_one(
                        st,
                        rst,
                        k,
                        DeclarationKind::RestParam,
                        initial,
                        Option::None,
                    );
                    ids.push(bid);
                    ids
                },
                Option::None => ids,
            }
        },
        BindingPattern::Array(a) => {
            let k = if props {
                BindingKind::Prop
            } else {
                kind
            };
            declare_idents(st, &a.elements, 0, k, decl, initial)
        },
    }
}

/// Executable form of `spec_rune_of`.
pub fn rune_of(e: &Expression) -> (r: Option<BindingKind>)
    ensures
        r == spec_rune_of(expr_view(*e)),
{
    proof {
        reveal_with_fuel(expr_view, 4);
    }
    match e {
        Expression::Call(c) => match &*c.callee {
            Expression::Identifier(id) => {
                if name_is(&id.name, "state") {
                    Option::Some(BindingKind::State)
                } else if name_is(&id.name, "derived") {
                    Option::Some(BindingKind::Derived)
                } else if name_is(&id.name, "props") {
                    Option::Some(BindingKind::Prop)
                } else {
                    Option::None
                }
            },
            Expression::Member(m) => match (&*m.object, &m.property) {
                (Expression::Identifier(o), MemberProperty::Identifier(p)) => {
                    if name_is(&o.name, "state") && name_is(p, "frozen") {
                        Option::Some(BindingKind::FrozenState)
                    } else {
                        Option::None
                    }
                },
                _ => Option::None,
            },
            _ => Option::None,
        },
        _ => Option::None,
    }
}

/// Executable form of `spec_collect_declarator`.
pub fn collect_declarator(st: &mut AnalyzerState, d: &VariableDeclarator, decl: DeclarationKind)
    ensures
        final(st)@ == spec_collect_declarator(declarator_view(*d), decl, old(st)@),
{
    match &d.init {
        Option::None => {
            let _ = declare_pattern(st, &d.id, BindingKind::Normal, decl, Option::None, false);
        },
        Option::Some(e) => {
            let rune = rune_of(e);
            match rune {
                Option::Some(kind) => {
                    let shadow = empty_shadow();
                    match e {
                        Expression::Call(c) => {
                            let _ = resolve_expressions(&c.arguments, 0, &shadow, st);
                            proof {
                                assert(spec_call_args(expr_view(*e)) == exprs_view(
                                    c.arguments@,
                                ));
                            }
                        },
                        _ => {
                            proof {
                                assert(false);
                            }
                        },
                    }
                    let is_props = match kind {
                        BindingKind::Prop => true,
                        _ => false,
                    };
                    if is_props {
                        let _ = declare_pattern(
                            st,
                            &d.id,
                            BindingKind::Prop,
                            DeclarationKind::Param,
                            Option::Some(InitialValueKind::Expression),
                            true,
                        );
                    } else {
                        let _ = declare_pattern(
                            st,
                            &d.id,
                            kind,
                            decl,
                            Option::Some(InitialValueKind::Expression),
                            false,
                        );
                    }
                },
                Option::None => {
                    let shadow = empty_shadow();
                    let _ = resolve_expression(e, &shadow, st);
                    let ik = match e {
                        Expression::Function(_) => InitialValueKind::Function,
                        _ => InitialValueKind::Expression,
                    };
                    let _ = declare_pattern(
                        st,
                        &d.id,
                        BindingKind::Normal,
                        decl,
                        Option::Some(ik),
                        false,
                    );
                },
            }
        },
    }
}

/// Executable form of `spec_collect_declarators`.
pub fn collect_declarators(
    st: &mut AnalyzerState,
    ds: &Vec<VariableDeclarator>,
    i: usize,
    decl: DeclarationKind,
)
    ensures
        final(st)@ == spec_collect_declarators(declarators_view(ds@), i as int, decl, old(st)@),
    decreases ds@.len() - i,
{
    if i < ds.len() {
        collect_declarator(st, &ds[i], decl);
        collect_declarators(st, ds, i + 1, decl);
    }
}

/// Executable form of `spec_resolve_declarators`.
pub fn resolve_declarators(st: &mut AnalyzerState, ds: &Vec<VariableDeclarator>, i: usize)
    ensures
        final(st)@ == spec_resolve_declarators(declarators_view(ds@), i as int, old(st)@),
    decreases ds@.len() - i,
{
    if i < ds.len() {
        match &ds[i].init {
            Option::Some(e) => {
                let shadow = empty_shadow();
                let _ = resolve_expression(e, &shadow, st);
            },
            Option::None => {},
        }
        resolve_declarators(st, ds, i + 1);
    }
}

/// Executable form of `spec_resolve_idents`.
pub fn resolve_idents(st: &mut AnalyzerState, ids: &Vec<Identifier>, i: usize)
    ensures
        final(st)@ == spec_resolve_idents(idents_full_view(ids@), i as int, old(st)@),
    decreases ids@.len() - i,
{
    if i < ids.len() {
        let shadow = empty_shadow();
        let _ = resolve_identifier(&ids[i], &shadow, st);
        resolve_idents(st, ids, i + 1);
    }
}

/// Executable form of `spec_decl_kind`.
pub fn decl_kind_of(k: VariableDeclarationKind) -> (r: DeclarationKind)
    ensures
        r == spec_decl_kind(k),
{
    match k {
        VariableDeclarationKind::Var => DeclarationKind::Var,
        VariableDeclarationKind::Let => DeclarationKind::Let,
        VariableDeclarationKind::Const => DeclarationKind::Const,
    }
}

/// Executable form of `spec_collect_reactive`.
pub fn collect_reactive(st: &mut AnalyzerState, e: &Expression)
    ensures
        final(st)@ == spec_collect_reactive(expr_view(*e), old(st)@),
{
    proof {
        reveal_with_fuel(expr_view, 3);
    }
    let shadow = empty_shadow();
    match e {
        Expression::Assignment(a) => match &*a.target {
            Expression::Identifier(id) => {
                let vdeps = resolve_expression(&a.value, &shadow, st);
                match st.lookup(&id.name) {
                    Option::Some(bid) => {
                        st.record_reference(bid, id.span);
                        st.record_mutation(bid, true);
                        let mut is_normal = false;
                        let mut is_import = false;
                        if bid.0 < st.bindings.len() {
                            is_normal = match st.bindings[bid.0].kind {
                                BindingKind::Normal => true,
                                _ => false,
                            };
                            is_import = match st.bindings[bid.0].declaration_kind {
                                DeclarationKind::Import => true,
                                _ => false,
                            };
                        }
                        if is_normal {
                            let k = if is_import {
                                BindingKind::LegacyReactiveImport
                            } else {
                                BindingKind::LegacyReactive
                            };
                            st.set_legacy(bid, k, vdeps);
                        }
                    },
                    Option::None => {
                        let bid = declare_one(
                            st,
                            id,
                            BindingKind::LegacyReactive,
                            DeclarationKind::Synthetic,
                            Option::None,
                            Option::None,
                        );
                        st.record_mutation(bid, true);
                        st.set_legacy(bid, BindingKind::LegacyReactive, vdeps);
                    },
                }
            },
            _ => {
                let _ = resolve_expression(e, &shadow, st);
            },
        },
        _ => {
            let _ = resolve_expression(e, &shadow, st);
        },
    }
}

/// Executable form of `spec_collect_statement`.
pub fn collect_statement(st: &mut AnalyzerState, s: &Statement)
    ensures
        final(st)@ == spec_collect_statement(statement_view(*s), old(st)@),
    decreases *s, 0int,
{
    match s {
        Statement::VariableDeclaration(d) => {
            let dk = decl_kind_of(d.kind);
            collect_declarators(st, &d.declarations, 0, dk);
        },
        Statement::FunctionDeclaration(f) => {
            let _ = declare_one(
                st,
                &f.id,
                BindingKind::Normal,
                DeclarationKind::Function,
                Option::Some(InitialValueKind::Function),
                Option::None,
            );
            st.push_frame();
            let _ = declare_idents(
                st,
                &f.params,
                0,
                BindingKind::Normal,
                DeclarationKind::Param,
                Option::None,
            );
            collect_statements(st, &f.body, 0);
            st.pop_frame();
        },
        Statement::ImportDeclaration(im) => {
            let _ = declare_idents(
                st,
                &im.specifiers,
                0,
                BindingKind::Normal,
                DeclarationKind::Import,
                Option::Some(InitialValueKind::Import),
            );
        },
        Statement::ExpressionStatement(es) => {
            let shadow = empty_shadow();
            let _ = resolve_expression(&es.expression, &shadow, st);
        },
        Statement::ReactiveStatement(rs) => {
            collect_reactive(st, &rs.expression);
        },
    }
}

/// Executable form of `spec_collect_statements`.
pub fn collect_statements(st: &mut AnalyzerState, ss: &Vec<Statement>, i: usize)
    ensures
        final(st)@ == spec_collect_statements(statements_view(ss@), i as int, old(st)@),
    decreases ss@, ss@.len() - i,
{
    proof {
        lemma_statements_view(ss@);
    }
    if i < ss.len() {
        collect_statement(st, &ss[i]);
        collect_statements(st, ss, i + 1);
    }
}

/// Copies a run of literal text exactly.
pub fn clone_text(t: &Text) -> (r: Text)
    ensures
        r == *t,
{
    Text { span: t.span, data: t.data.clone(), raw: t.raw.clone() }
}

/// Copies an optional expression, view preserved.
pub fn clone_opt_expression(o: &Option<Expression>) -> (r: Option<Expression>)
    ensures
        opt_expr_view(r) == opt_expr_view(*o),
{
    match o {
        Option::Some(e) => Option::Some(clone_expression(e)),
        Option::None => Option::None,
    }
}

/// Executable form of `spec_collect_expression_tag`.
pub fn collect_expression_tag(st: &mut AnalyzerState, t: &ExpressionTag) -> (r: ExpressionTag)
    ensures
        expression_tag_view(r) == spec_collect_expression_tag(
            expression_tag_view(*t),
            old(st)@,
        ).0,
        final(st)@ == spec_collect_expression_tag(expression_tag_view(*t), old(st)@).1,
{
    let shadow = empty_shadow();
    let deps = resolve_expression(&t.expression, &shadow, st);
    ExpressionTag {
        span: t.span,
        expression: clone_expression(&t.expression),
        flags: Option::None,
        dependencies: deps,
    }
}

/// Executable form of `spec_collect_attr_seq`.
pub fn collect_attr_seq(st: &mut AnalyzerState, vs: &Vec<AttributeSequenceValue>, i: usize) -> (r:
    (Vec<AttributeSequenceValue>, Vec<BindingId>))
    requires
        i <= vs@.len(),
    ensures
        attr_seq_values_view(r.0@) == spec_collect_attr_seq(
            attr_seq_values_view(vs@),
            i as int,
            old(st)@,
        ).0,
        r.1@ == spec_collect_attr_seq(attr_seq_values_view(vs@), i as int, old(st)@).1,
        final(st)@ == spec_collect_attr_seq(attr_seq_values_view(vs@), i as int, old(st)@).2,
    decreases vs@.len() - i,
{
    if i >= vs.len() {
        let r: (Vec<AttributeSequenceValue>, Vec<BindingId>) = (Vec::new(), Vec::new());
        proof {
            assert(attr_seq_values_view(r.0@) =~= Seq::<AttributeSequenceValueView>::empty());
            assert(r.1@ =~= Seq::<BindingId>::empty());
        }
        r
    } else {
        let (v1, mut d1): (AttributeSequenceValue, Vec<BindingId>) = match &vs[i] {
            AttributeSequenceValue::Text(t) => (
                AttributeSequenceValue::Text(clone_text(t)),
                Vec::new(),
            ),
            AttributeSequenceValue::ExpressionTag(t) => {
                let t2 = collect_expression_tag(st, t);
                let deps = copy_binding_ids(&t2.dependencies);
                (AttributeSequenceValue::ExpressionTag(t2), deps)
            },
        };
        let (mut rest, mut d2) = collect_attr_seq(st, vs, i + 1);
        let ghost rest0 = rest@;
        rest.insert(0, v1);
        d1.append(&mut d2);
        proof {
            assert(attr_seq_values_view(rest@) =~= seq![
                attr_seq_value_view(rest@[0]),
            ] + attr_seq_values_view(rest0));
            assert(attr_seq_values_view(rest@) =~= spec_collect_attr_seq(
                attr_seq_values_view(vs@),
                i as int,
                old(st)@,
            ).0);
        }
        (rest, d1)
    }
}

/// Executable form of `spec_collect_opt_value`.
pub fn collect_opt_value(st: &mut AnalyzerState, v: &Option<AttributeValue>) -> (r: (
    Option<AttributeValue>,
    Vec<BindingId>,
))
    ensures
        opt_attr_value_view(r.0) == spec_collect_opt_value(
            opt_attr_value_view(*v),
            old(st)@,
        ).0,
        r.1@ == spec_collect_opt_value(opt_attr_value_view(*v), old(st)@).1,
        final(st)@ == spec_collect_opt_value(opt_attr_value_view(*v), old(st)@).2,
{
    match v {
        Option::Some(av) => {
            let (s2, deps) = collect_attr_seq(st, &av.sequence, 0);
            (Option::Some(AttributeValue { span: av.span, sequence: s2 }), deps)
        },
        Option::None => {
            let r: (Option<AttributeValue>, Vec<BindingId>) = (Option::None, Vec::new());
            proof {
                assert(r.1@ =~= Seq::<BindingId>::empty());
            }
            r
        },
    }
}

/// Executable form of `spec_bind_path`.
pub fn bind_path(e: &Expression) -> (r: Option<(String, Vec<String>)>)
    ensures
        (match r {
            Option::Some(rp) => Option::Some((rp.0@, strings_view(rp.1@))),
            Option::None => Option::<(Seq<char>, Seq<Seq<char>>)>::None,
        }) == spec_bind_path(expr_view(*e)),
    decreases *e,
{
    match e {
        Expression::Identifier(id) => {
            let r = (id.name.clone(), Vec::<String>::new());
            proof {
                assert(strings_view(r.1@) =~= Seq::<Seq<char>>::empty());
            }
            Option::Some(r)
        },
        Expression::Member(m) => match &m.property {
            MemberProperty::Identifier(p) => match bind_path(&m.object) {
                Option::Some(rp) => {
                    let (root, mut path) = rp;
                    let ghost path0 = path@;
                    path.push(p.clone());
                    proof {
                        assert(strings_view(path@) =~= strings_view(path0).push(p@));
                    }
                    Option::Some((root, path))
                },
                Option::None => Option::None,
            },
            MemberProperty::Expression(_) => Option::None,
        },
        _ => Option::None,
    }
}

/// Executable form of `spec_block_flags`.
pub fn block_flags(st: &AnalyzerState, blk: BlockId) -> (r: (bool, bool))
    ensures
        r == spec_block_flags(st@, blk),
{
    if blk.0 < st.blocks.len() {
        (st.blocks[blk.0].contains_group_binding, st.blocks[blk.0].item_referenced_by_bind)
    } else {
        (false, false)
    }
}

/// Executable form of `spec_walk_group`: `j` frames of the block
/// stack remain to walk.
pub fn walk_group(
    st: &mut AnalyzerState,
    j: usize,
    bid: BindingId,
    path: Vec<String>,
    found: bool,
) -> (r: (BindingId, Vec<String>, bool, bool))
    ensures
        ({
            let w = spec_walk_group(old(st)@, j as int - 1, bid, strings_view(path@), found);
            final(st)@ == w.0 && r.0 == w.1 && strings_view(r.1@) == w.2 && r.2 == w.3 && r.3
                == w.4
        }),
    decreases j,
{
    let ghost pathv = path@;
    if j == 0 || j > st.block_stack.len() {
        (bid, path, found, true)
    } else {
        let blk = st.block_stack[j - 1];
        if blk.0 < st.blocks.len() && ids_contains(&st.blocks[blk.0].declarations, bid) {
            let ghost len0 = st@.blocks.len();
            st.mark_block_group(blk);
            st.mark_block_bind(blk);
            proof {
                assert(st@.blocks.len() == len0);
            }
            match st.blocks[blk.0].iterable_root {
                Option::Some(root) => {
                    let mut np = copy_strings(&st.blocks[blk.0].iterable_path);
                    let mut tail = path;
                    np.append(&mut tail);
                    proof {
                        assert(np@ == st.blocks@[blk.0 as int].iterable_path@ + pathv);
                        assert(strings_view(np@) =~= strings_view(
                            st.blocks@[blk.0 as int].iterable_path@,
                        ) + strings_view(pathv));
                    }
                    walk_group(st, j - 1, root, np, true)
                },
                Option::None => (bid, path, true, false),
            }
        } else {
            walk_group(st, j - 1, bid, path, found)
        }
    }
}

/// Executable form of `spec_mark_bind_blocks`.
pub fn mark_bind_blocks(st: &mut AnalyzerState, j: usize, bid: BindingId)
    ensures
        final(st)@ == spec_mark_bind_blocks(old(st)@, j as int - 1, bid),
    decreases j,
{
    if j == 0 || j > st.block_stack.len() {
    } else {
        let blk = st.block_stack[j - 1];
        if blk.0 < st.blocks.len() && ids_contains(&st.blocks[blk.0].declarations, bid) {
            st.mark_block_bind(blk);
        }
        mark_bind_blocks(st, j - 1, bid);
    }
}

/// Executable form of `spec_collect_bind`.
pub fn collect_bind(st: &mut AnalyzerState, d: &BindDirective) -> (r: BindDirective)
    ensures
        directive_view(DirectiveAttribute::BindDirective(r)) == spec_collect_bind(
            directive_view(DirectiveAttribute::BindDirective(*d)),
            old(st)@,
        ).0,
        final(st)@ == spec_collect_bind(
            directive_view(DirectiveAttribute::BindDirective(*d)),
            old(st)@,
        ).1,
{
    let shadow = empty_shadow();
    match &d.expression {
        BindDirectiveExpression::Identifier(id) => {
            let tmp = Expression::Identifier(clone_identifier(id));
            let deps = resolve_target(&tmp, true, &shadow, st);
            let parent = st.current_block();
            if deps.len() > 0 {
                let stack_len = st.block_stack.len();
                mark_bind_blocks(st, stack_len, deps[0]);
            }
            BindDirective {
                span: d.span,
                name: d.name.clone(),
                expression: BindDirectiveExpression::Identifier(clone_identifier(id)),
                binding_group_name: Option::None,
                parent_block: parent,
            }
        },
        BindDirectiveExpression::MemberExpression(m) => {
            let tmp = Expression::Member(clone_member(m));
            let _deps = resolve_target(&tmp, true, &shadow, st);
            let parent = st.current_block();
            let group: Option<BindingGroupId> = match bind_path(&tmp) {
                Option::Some(rp) => {
                    let (root_name, rpath) = rp;
                    match st.lookup(&root_name) {
                        Option::Some(bid) => {
                            let stack_len = st.block_stack.len();
                            let w = walk_group(st, stack_len, bid, rpath, false);
                            if w.2 && w.3 {
                                Option::Some(st.resolve_group(w.0, w.1))
                            } else if w.2 {
                                st.add_diagnostic(
                                    Diagnostic::UnresolvedGroupBinding(
                                        UnresolvedGroupBinding {
                                            span: d.span,
                                            name: root_name,
                                        },
                                    ),
                                );
                                Option::None
                            } else {
                                Option::None
                            }
                        },
                        Option::None => {
                            st.add_diagnostic(
                                Diagnostic::UnresolvedGroupBinding(
                                    UnresolvedGroupBinding { span: d.span, name: root_name },
                                ),
                            );
                            Option::None
                        },
                    }
                },
                Option::None => Option::None,
            };
            BindDirective {
                span: d.span,
                name: d.name.clone(),
                expression: BindDirectiveExpression::MemberExpression(clone_member(m)),
                binding_group_name: group,
                parent_block: parent,
            }
        },
    }
}

/// Copies a `let:` directive target, view preserved.
pub fn clone_let_expression(e: &LetDirectiveExpression) -> (r: LetDirectiveExpression)
    ensures
        let_expr_view(r) == let_expr_view(*e),
{
    match e {
        LetDirectiveExpression::Identifier(i) => LetDirectiveExpression::Identifier(
            clone_identifier(i),
        ),
        LetDirectiveExpression::ArrayExpression(c) => {
            let children = crate::expression::clone_expressions(&c.children, 0);
            let r = LetDirectiveExpression::ArrayExpression(
                CompoundExpression { span: c.span, children },
            );
            proof {
                crate::expression::lemma_exprs_view_eq(children@, c.children@);
            }
            r
        },
        LetDirectiveExpression::ObjectExpression(c) => {
            let children = crate::expression::clone_expressions(&c.children, 0);
            let r = LetDirectiveExpression::ObjectExpression(
                CompoundExpression { span: c.span, children },
            );
            proof {
                crate::expression::lemma_exprs_view_eq(children@, c.children@);
            }
            r
        },
    }
}

/// Executable form of `spec_collect_directive`.
pub fn collect_directive(st: &mut AnalyzerState, d: &DirectiveAttribute) -> (r: DirectiveAttribute)
    ensures
        directive_view(r) == spec_collect_directive(directive_view(*d), old(st)@).0,
        final(st)@ == spec_collect_directive(directive_view(*d), old(st)@).1,
{
    let shadow = empty_shadow();
    match d {
        DirectiveAttribute::BindDirective(x) => {
            let r = collect_bind(st, x);
            DirectiveAttribute::BindDirective(r)
        },
        DirectiveAttribute::ClassDirective(x) => {
            let deps = resolve_expression(&x.expression, &shadow, st);
            DirectiveAttribute::ClassDirective(
                ClassDirective {
                    span: x.span,
                    name: x.name.clone(),
                    expression: clone_expression(&x.expression),
                    dynamic: Option::None,
                    dependencies: deps,
                },
            )
        },
        DirectiveAttribute::StyleDirective(x) => {
            let (v2, deps) = collect_opt_value(st, &x.value);
            DirectiveAttribute::StyleDirective(
                StyleDirective {
                    span: x.span,
                    name: x.name.clone(),
                    value: v2,
                    modifiers: crate::scope::copy_vec(&x.modifiers),
                    dynamic: Option::None,
                    dependencies: deps,
                },
            )
        },
        DirectiveAttribute::LetDirective(x) => {
            DirectiveAttribute::LetDirective(
                LetDirective {
                    span: x.span,
                    name: x.name.clone(),
                    expression: match &x.expression {
                        Option::Some(e) => Option::Some(clone_let_expression(e)),
                        Option::None => Option::None,
                    },
                },
            )
        },
        DirectiveAttribute::AnimateDirective(x) => {
            match &x.expression {
                Option::Some(e) => {
                    let _ = resolve_expression(e, &shadow, st);
                },
                Option::None => {},
            }
            DirectiveAttribute::AnimateDirective(
                AnimateDirective {
                    span: x.span,
                    name: x.name.clone(),
                    expression: clone_opt_expression(&x.expression),
                },
            )
        },
        DirectiveAttribute::OnDirective(x) => {
            match &x.expression {
                Option::Some(e) => {
                    let _ = resolve_expression(e, &shadow, st);
                },
                Option::None => {},
            }
            DirectiveAttribute::OnDirective(
                OnDirective {
                    span: x.span,
                    name: x.name.clone(),
                    expression: clone_opt_expression(&x.expression),
                    modifiers: copy_strings(&x.modifiers),
                },
            )
        },
        DirectiveAttribute::TransitionDirective(x) => {
            match &x.expression {
                Option::Some(e) => {
                    let _ = resolve_expression(e, &shadow, st);
                },
                Option::None => {},
            }
            DirectiveAttribute::TransitionDirective(
                TransitionDirective {
                    span: x.span,
                    name: x.name.clone(),
                    expression: clone_opt_expression(&x.expression),
                    modifiers: crate::scope::copy_vec(&x.modifiers),
                    intro: x.intro,
                    outro: x.outro,
                },
            )
        },
        DirectiveAttribute::UseDirective(x) => {
            match &x.expression {
                Option::Some(e) => {
                    let _ = resolve_expression(e, &shadow, st);
                },
                Option::None => {},
            }
            DirectiveAttribute::UseDirective(
                UseDirective {
                    span: x.span,
                    name: x.name.clone(),
                    expression: clone_opt_expression(&x.expression),
                },
            )
        },
    }
}

/// Executable form of `spec_collect_attributes`.
pub fn collect_attributes(st: &mut AnalyzerState, attrs: &Vec<ElementAttribute>, i: usize) -> (r:
    Vec<ElementAttribute>)
    requires
        i <= attrs@.len(),
    ensures
        element_attributes_view(r@) == spec_collect_attributes(
            element_attributes_view(attrs@),
            i as int,
            old(st)@,
        ).0,
        final(st)@ == spec_collect_attributes(
            element_attributes_view(attrs@),
            i as int,
            old(st)@,
        ).1,
    decreases attrs@.len() - i,
{
    if i >= attrs.len() {
        let r: Vec<ElementAttribute> = Vec::new();
        proof {
            assert(element_attributes_view(r@) =~= Seq::<ElementAttributeView>::empty());
        }
        r
    } else {
        let a1: ElementAttribute = match &attrs[i] {
            ElementAttribute::Attribute(a) => {
                let (v2, _deps) = collect_opt_value(st, &a.value);
                ElementAttribute::Attribute(
                    Attribute { span: a.span, name: a.name.clone(), value: v2 },
                )
            },
            ElementAttribute::SpreadAttribute(sp) => {
                let shadow = empty_shadow();
                let deps = resolve_expression(&sp.expression, &shadow, st);
                ElementAttribute::SpreadAttribute(
                    SpreadAttribute {
                        span: sp.span,
                        expression: clone_expression(&sp.expression),
                        flags: Option::None,
                        dependencies: deps,
                    },
                )
            },
            ElementAttribute::DirectiveAttribute(dv) => {
                let d2 = collect_directive(st, dv);
                ElementAttribute::DirectiveAttribute(d2)
            },
        };
        let mut rest = collect_attributes(st, attrs, i + 1);
        let ghost rest0 = rest@;
        rest.insert(0, a1);
        proof {
            assert(element_attributes_view(rest@) =~= seq![
                element_attribute_view(rest@[0]),
            ] + element_attributes_view(rest0));
        }
        rest
    }
}

/// Executable form of `spec_has_spread`.
pub fn has_spread(attrs: &Vec<ElementAttribute>, i: usize) -> (r: bool)
    ensures
        r == spec_has_spread(element_attributes_view(attrs@), i as int),
    decreases attrs@.len() - i,
{
    if i >= attrs.len() {
        false
    } else {
        let is_spread = match &attrs[i] {
            ElementAttribute::SpreadAttribute(_) => true,
            _ => false,
        };
        is_spread || has_spread(attrs, i + 1)
    }
}

/// Executable form of `spec_collect_tag`.
pub fn collect_tag(st: &mut AnalyzerState, t: &Tag) -> (r: Tag)
    ensures
        tag_view(r) == spec_collect_tag(tag_view(*t), old(st)@).0,
        final(st)@ == spec_collect_tag(tag_view(*t), old(st)@).1,
{
    let shadow = empty_shadow();
    match t {
        Tag::ExpressionTag(x) => {
            let x2 = collect_expression_tag(st, x);
            Tag::ExpressionTag(x2)
        },
        Tag::HtmlTag(x) => {
            let _ = resolve_expression(&x.expression, &shadow, st);
            Tag::HtmlTag(HtmlTag { span: x.span, expression: clone_expression(&x.expression) })
        },
        Tag::ConstTag(x) => {
            resolve_declarators(st, &x.declaration.declarations, 0);
            Tag::ConstTag(
                ConstTag {
                    span: x.span,
                    declaration: crate::script::clone_declaration(&x.declaration),
                },
            )
        },
        Tag::DebugTag(x) => {
            resolve_idents(st, &x.identifiers, 0);
            let ids2 = crate::expression::clone_identifiers(&x.identifiers, 0);
            proof {
                assert(ids2@ =~= x.identifiers@);
            }
            Tag::DebugTag(DebugTag { span: x.span, identifiers: ids2 })
        },
        Tag::RenderTag(x) => match &x.expression {
            RenderTagExpression::Call(c) => {
                let tmp = Expression::Call(clone_call(c));
                proof {
                    assert(expr_view(tmp) == call_view(*c));
                }
                let _ = resolve_expression(&tmp, &shadow, st);
                Tag::RenderTag(
                    RenderTag { span: x.span, expression: RenderTagExpression::Call(
                        clone_call(c),
                    ) },
                )
            },
            RenderTagExpression::Chain(c) => {
                let tmp = Expression::Call(clone_call(c));
                proof {
                    assert(expr_view(tmp) == call_view(*c));
                }
                let _ = resolve_expression(&tmp, &shadow, st);
                Tag::RenderTag(
                    RenderTag { span: x.span, expression: RenderTagExpression::Chain(
                        clone_call(c),
                    ) },
                )
            },
        },
    }
}

/// Executable form of `spec_collect_element`.
#[verifier::rlimit(100)]
#[verifier::spinoff_prover]
pub fn collect_element(st: &mut AnalyzerState, e: &Element, ns: Namespace, scoped: bool) -> (r:
    Element)
    ensures
        element_view(r) == spec_collect_element(element_view(*e), ns, scoped, old(st)@).0,
        final(st)@ == spec_collect_element(element_view(*e), ns, scoped, old(st)@).1,
    decreases *e, 0int,
{
    let shadow = empty_shadow();
    match e {
        Element::Component(x) => {
            let attrs2 = collect_attributes(st, &x.attributes, 0);
            let frag2 = collect_fragment(st, &x.fragment, ns, scoped);
            Element::Component(
                Component {
                    span: x.span,
                    name: x.name.clone(),
                    attributes: attrs2,
                    fragment: frag2,
                },
            )
        },
        Element::TitleElement(x) => {
            let attrs2 = collect_attributes(st, &x.attributes, 0);
            let frag2 = collect_fragment(st, &x.fragment, ns, scoped);
            Element::TitleElement(
                TitleElement { span: x.span, attributes: attrs2, fragment: frag2 },
            )
        },
        Element::SlotElement(x) => {
            let attrs2 = collect_attributes(st, &x.attributes, 0);
            let frag2 = collect_fragment(st, &x.fragment, ns, scoped);
            Element::SlotElement(
                SlotElement { span: x.span, attributes: attrs2, fragment: frag2 },
            )
        },
        Element::RegularElement(x) => {
            let cls = crate::namespace::classify_tag(&x.name, ns);
            if cls.2 {
                st.add_diagnostic(
                    Diagnostic::NamespaceConflict(
                        NamespaceConflict { span: x.span, found: cls.0, ancestor: ns },
                    ),
                );
            }
            let spread = has_spread(&x.attributes, 0);
            let attrs2 = collect_attributes(st, &x.attributes, 0);
            let frag2 = collect_fragment(st, &x.fragment, cls.1, scoped);
            let svg = match cls.0 {
                Namespace::Svg => true,
                _ => false,
            };
            let mathml = match cls.0 {
                Namespace::MathMl => true,
                _ => false,
            };
            Element::RegularElement(
                RegularElement {
                    span: x.span,
                    name: x.name.clone(),
                    attributes: attrs2,
                    fragment: frag2,
                    flags: Option::Some(
                        RegularElementFlags { svg, mathml, spread, scoped },
                    ),
                },
            )
        },
        Element::SvelteBody(x) => {
            let attrs2 = collect_attributes(st, &x.attributes, 0);
            let frag2 = collect_fragment(st, &x.fragment, ns, scoped);
            Element::SvelteBody(
                SvelteBody { span: x.span, attributes: attrs2, fragment: frag2 },
            )
        },
        Element::SvelteComponent(x) => {
            let _ = resolve_expression(&x.expression, &shadow, st);
            let attrs2 = collect_attributes(st, &x.attributes, 0);
            let frag2 = collect_fragment(st, &x.fragment, ns, scoped);
            Element::SvelteComponent(
                SvelteComponent {
                    span: x.span,
                    attributes: attrs2,
                    fragment: frag2,
                    expression: clone_expression(&x.expression),
                },
            )
        },
        Element::SvelteDocument(x) => {
            let attrs2 = collect_attributes(st, &x.attributes, 0);
            let frag2 = collect_fragment(st, &x.fragment, ns, scoped);
            Element::SvelteDocument(
                SvelteDocument { span: x.span, attributes: attrs2, fragment: frag2 },
            )
        },
        Element::SvelteElement(x) => {
            let _ = resolve_expression(&x.expression, &shadow, st);
            let attrs2 = collect_attributes(st, &x.attributes, 0);
            let frag2 = collect_fragment(st, &x.fragment, ns, scoped);
            let svg = match ns {
                Namespace::Svg => true,
                _ => false,
            };
            Element::SvelteElement(
                SvelteElement {
                    span: x.span,
                    attributes: attrs2,
                    fragment: frag2,
                    expression: clone_expression(&x.expression),
                    flags: Option::Some(SvelteElementFlags { svg, scoped }),
                },
            )
        },
        Element::SvelteFragment(x) => {
            let attrs2 = collect_attributes(st, &x.attributes, 0);
            let frag2 = collect_fragment(st, &x.fragment, ns, scoped);
            Element::SvelteFragment(
                SvelteFragment { span: x.span, attributes: attrs2, fragment: frag2 },
            )
        },
        Element::SvelteHead(x) => {
            let attrs2 = collect_attributes(st, &x.attributes, 0);
            let frag2 = collect_fragment(st, &x.fragment, ns, scoped);
            Element::SvelteHead(
                SvelteHead { span: x.span, attributes: attrs2, fragment: frag2 },
            )
        },
        Element::SvelteOptionsRaw(x) => {
            let attrs2 = collect_attributes(st, &x.attributes, 0);
            let frag2 = collect_fragment(st, &x.fragment, ns, scoped);
            Element::SvelteOptionsRaw(
                SvelteOptionsRaw { span: x.span, attributes: attrs2, fragment: frag2 },
            )
        },
        Element::SvelteSelf(x) => {
            let attrs2 = collect_attributes(st, &x.attributes, 0);
            let frag2 = collect_fragment(st, &x.fragment, ns, scoped);
            Element::SvelteSelf(
                SvelteSelf { span: x.span, attributes: attrs2, fragment: frag2 },
            )
        },
        Element::SvelteWindow(x) => {
            let attrs2 = collect_attributes(st, &x.attributes, 0);
            let frag2 = collect_fragment(st, &x.fragment, ns, scoped);
            Element::SvelteWindow(
                SvelteWindow { span: x.span, attributes: attrs2, fragment: frag2 },
            )
        },
    }
}

/// Executable form of `spec_collect_block`.
#[verifier::rlimit(100)]
pub fn collect_block(st: &mut AnalyzerState, b: &Block, ns: Namespace, scoped: bool) -> (r: Block)
    ensures
        block_view(r) == spec_collect_block(block_view(*b), ns, scoped, old(st)@).0,
        final(st)@ == spec_collect_block(block_view(*b), ns, scoped, old(st)@).1,
    decreases *b, 0int,
{
    let shadow = empty_shadow();
    match b {
        Block::EachBlock(x) => {
            let iter_deps = resolve_expression(&x.expression, &shadow, st);
            let iter_info: (Option<BindingId>, Vec<String>) = match bind_path(&x.expression) {
                Option::Some(rp) => {
                    let (root_name, rpath) = rp;
                    match st.lookup(&root_name) {
                        Option::Some(bid) => (Option::Some(bid), rpath),
                        Option::None => (Option::None, Vec::new()),
                    }
                },
                Option::None => (Option::None, Vec::new()),
            };
            proof {
                if iter_info.0 is None {
                    assert(strings_view(iter_info.1@) =~= Seq::<Seq<char>>::empty());
                }
            }
            let array_name = if iter_info.1.len() == 0 {
                iter_info.0
            } else {
                Option::None
            };
            st.push_frame();
            let item_ids = declare_pattern(
                st,
                &x.context,
                BindingKind::Each,
                DeclarationKind::Let,
                Option::Some(InitialValueKind::EachItem),
                false,
            );
            let index_id: Option<BindingId> = match &x.index {
                Option::Some(ix) => Option::Some(
                    declare_one(
                        st,
                        ix,
                        BindingKind::Each,
                        DeclarationKind::Let,
                        Option::Some(InitialValueKind::EachIndex),
                        Option::None,
                    ),
                ),
                Option::None => Option::None,
            };
            let item: Option<BindingId> = if item_ids.len() > 0 {
                Option::Some(item_ids[0])
            } else {
                Option::None
            };
            let mut declarations = item_ids;
            match index_id {
                Option::Some(ib) => declarations.push(ib),
                Option::None => {},
            }
            let decls_copy = copy_binding_ids(&declarations);
            let keyed = match &x.key {
                Option::Some(_) => true,
                Option::None => false,
            };
            let blk = st.push_block(declarations, iter_info.0, iter_info.1, keyed);
            match &x.key {
                Option::Some(k) => {
                    let _ = resolve_expression(k, &shadow, st);
                },
                Option::None => {},
            }
            let body_nodes = collect_nodes(st, &x.body.nodes, 0, ns, scoped);
            st.pop_block();
            st.pop_frame();
            let fallback: Option<Fragment> = match &x.fallback {
                Option::Some(f) => Option::Some(collect_fragment(st, f, ns, scoped)),
                Option::None => Option::None,
            };
            let flags = block_flags(st, blk);
            let meta = EachBlockMetadata {
                contains_group_binding: flags.0,
                array_name,
                index: index_id,
                item,
                declarations: decls_copy,
                references: iter_deps,
                is_controlled: !keyed && !flags.0 && !flags.1,
            };
            Block::EachBlock(
                EachBlock {
                    span: x.span,
                    expression: clone_expression(&x.expression),
                    context: crate::script::clone_pattern(&x.context),
                    body: Fragment { nodes: body_nodes, transparent: x.body.transparent },
                    fallback,
                    index: crate::script::clone_opt_identifier(&x.index),
                    key: clone_opt_expression(&x.key),
                    metadata: Option::Some(meta),
                },
            )
        },
        Block::IfBlock(x) => {
            let _ = resolve_expression(&x.test, &shadow, st);
            let c2 = collect_fragment(st, &x.consequent, ns, scoped);
            let alt: Option<Fragment> = match &x.alternate {
                Option::Some(a) => Option::Some(collect_fragment(st, a, ns, scoped)),
                Option::None => Option::None,
            };
            Block::IfBlock(
                IfBlock {
                    span: x.span,
                    elseif: x.elseif,
                    test: clone_expression(&x.test),
                    consequent: c2,
                    alternate: alt,
                },
            )
        },
        Block::AwaitBlock(x) => {
            let _ = resolve_expression(&x.expression, &shadow, st);
            let p: Option<Fragment> = match &x.pending {
                Option::Some(f) => Option::Some(collect_fragment(st, f, ns, scoped)),
                Option::None => Option::None,
            };
            let tf: Option<Fragment> = match &x.then_fragment {
                Option::Some(f) => Option::Some(collect_fragment(st, f, ns, scoped)),
                Option::None => Option::None,
            };
            let cf: Option<Fragment> = match &x.catch_fragment {
                Option::Some(f) => Option::Some(collect_fragment(st, f, ns, scoped)),
                Option::None => Option::None,
            };
            Block::AwaitBlock(
                AwaitBlock {
                    span: x.span,
                    expression: clone_expression(&x.expression),
                    value: clone_opt_pattern(&x.value),
                    error: clone_opt_pattern(&x.error),
                    pending: p,
                    then_fragment: tf,
                    catch_fragment: cf,
                },
            )
        },
        Block::KeyBlock(x) => {
            let _ = resolve_expression(&x.expression, &shadow, st);
            let f2 = collect_fragment(st, &x.fragment, ns, scoped);
            Block::KeyBlock(
                KeyBlock {
                    span: x.span,
                    expression: clone_expression(&x.expression),
                    fragment: f2,
                },
            )
        },
        Block::SnippetBlock(x) => {
            let _ = declare_one(
                st,
                &x.expression,
                BindingKind::Normal,
                DeclarationKind::Function,
                Option::Some(InitialValueKind::Function),
                Option::None,
            );
            st.push_frame();
            declare_patterns(st, &x.parameters, 0);
            let body_nodes = collect_nodes(st, &x.body.nodes, 0, ns, scoped);
            st.pop_frame();
            Block::SnippetBlock(
                SnippetBlock {
                    span: x.span,
                    expression: clone_identifier(&x.expression),
                    parameters: clone_params(&x.parameters),
                    body: Fragment { nodes: body_nodes, transparent: x.body.transparent },
                },
            )
        },
    }
}

/// Copies an optional pattern, view preserved.
pub fn clone_opt_pattern(o: &Option<BindingPattern>) -> (r: Option<BindingPattern>)
    ensures
        crate::script::opt_pattern_view(r) == crate::script::opt_pattern_view(*o),
{
    match o {
        Option::Some(p) => Option::Some(crate::script::clone_pattern(p)),
        Option::None => Option::None,
    }
}

/// Copies a parameter list, views preserved.
pub fn clone_params(ps: &Vec<BindingPattern>) -> (r: Vec<BindingPattern>)
    ensures
        crate::script::patterns_view(r@) == crate::script::patterns_view(ps@),
{
    let r = crate::script::clone_patterns(ps, 0);
    proof {
        crate::script::lemma_patterns_view_eq(r@, ps@);
    }
    r
}

/// Executable form of `spec_declare_patterns`.
pub fn declare_patterns(st: &mut AnalyzerState, ps: &Vec<BindingPattern>, i: usize)
    ensures
        final(st)@ == spec_declare_patterns(
            crate::script::patterns_view(ps@),
            i as int,
            old(st)@,
        ),
    decreases ps@.len() - i,
{
    if i < ps.len() {
        let _ = declare_pattern(
            st,
            &ps[i],
            BindingKind::Snippet,
            DeclarationKind::Param,
            Option::None,
            false,
        );
        declare_patterns(st, ps, i + 1);
    }
}

/// Executable form of `spec_collect_node`.
pub fn collect_node(st: &mut AnalyzerState, n: &FragmentNode, ns: Namespace, scoped: bool) -> (r:
    FragmentNode)
    ensures
        node_view(r) == spec_collect_node(node_view(*n), ns, scoped, old(st)@).0,
        final(st)@ == spec_collect_node(node_view(*n), ns, scoped, old(st)@).1,
    decreases *n, 1int,
{
    match n {
        FragmentNode::Text(t) => FragmentNode::Text(clone_text(t)),
        FragmentNode::Tag(t) => {
            let t2 = collect_tag(st, t);
            FragmentNode::Tag(t2)
        },
        FragmentNode::Element(e) => {
            let e2 = collect_element(st, e, ns, scoped);
            FragmentNode::Element(e2)
        },
        FragmentNode::Block(b) => {
            let b2 = collect_block(st, b, ns, scoped);
            FragmentNode::Block(b2)
        },
    }
}

/// Executable form of `spec_collect_nodes`.
pub fn collect_nodes(
    st: &mut AnalyzerState,
    nodes: &Vec<FragmentNode>,
    i: usize,
    ns: Namespace,
    scoped: bool,
) -> (r: Vec<FragmentNode>)
    requires
        i <= nodes@.len(),
    ensures
        nodes_view(r@) == spec_collect_nodes(nodes_view(nodes@), i as int, ns, scoped, old(st)@).0,
        final(st)@ == spec_collect_nodes(nodes_view(nodes@), i as int, ns, scoped, old(st)@).1,
    decreases nodes@, nodes@.len() - i,
{
    proof {
        lemma_nodes_view(nodes@);
    }
    if i >= nodes.len() {
        let r: Vec<FragmentNode> = Vec::new();
        proof {
            lemma_nodes_view(r@);
            assert(nodes_view(r@) =~= Seq::<FragmentNodeView>::empty());
        }
        r
    } else {
        let n1 = collect_node(st, &nodes[i], ns, scoped);
        let mut rest = collect_nodes(st, nodes, i + 1, ns, scoped);
        let ghost rest0 = rest@;
        rest.insert(0, n1);
        proof {
            lemma_nodes_view(rest@);
            lemma_nodes_view(rest0);
            assert(nodes_view(rest@) =~= seq![node_view(rest@[0])] + nodes_view(rest0));
        }
        rest
    }
}

/// Executable form of `spec_collect_fragment`.
pub fn collect_fragment(st: &mut AnalyzerState, f: &Fragment, ns: Namespace, scoped: bool) -> (r:
    Fragment)
    ensures
        fragment_view(r) == spec_collect_fragment(fragment_view(*f), ns, scoped, old(st)@).0,
        final(st)@ == spec_collect_fragment(fragment_view(*f), ns, scoped, old(st)@).1,
    decreases *f, 2int,
{
    st.push_frame();
    let nodes2 = collect_nodes(st, &f.nodes, 0, ns, scoped);
    st.pop_frame();
    Fragment { nodes: nodes2, transparent: f.transparent }
}

} // verus!
