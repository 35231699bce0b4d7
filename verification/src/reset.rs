//! Resetting metadata, and the idempotence of the analysis.
//!
//! `spec_reset_*` erase every metadata slot of a tree view, giving
//! back the pre-analysis shape.  Two facts are proved about them:
//! the analysis writes only metadata (resetting an analyzed tree
//! gives back the reset of its input), and the analysis is blind to
//! input metadata (analyzing a reset tree gives what analyzing the
//! original gives).  Together they make re-analysis idempotent:
//! analyzing the metadata-reset result of an analysis reproduces that
//! analysis exactly.

use vstd::prelude::*;
use crate::ast::Namespace;
use crate::binding::BindingId;
use crate::collect::{spec_collect_attr_seq, spec_collect_attributes};
use crate::scope::StateView;
use crate::views::{
    AttributeSequenceValueView, AttributeValueView, AttributeView, BlockView, DirectiveKind,
    DirectiveView, ElementAttributeView, ElementView, ExpressionTagView, FragmentNodeView,
    FragmentView, RootView, SpreadAttributeView, TagView,
};

verus! {

pub open spec fn spec_reset_expression_tag(t: ExpressionTagView) -> ExpressionTagView {
    ExpressionTagView {
        span: t.span,
        expression: t.expression,
        flags: Option::None,
        dependencies: Seq::empty(),
    }
}

pub open spec fn spec_reset_seq_value(v: AttributeSequenceValueView) -> AttributeSequenceValueView {
    match v {
        AttributeSequenceValueView::Text(t) => AttributeSequenceValueView::Text(t),
        AttributeSequenceValueView::ExpressionTag(t) => AttributeSequenceValueView::ExpressionTag(
            spec_reset_expression_tag(t),
        ),
    }
}

pub open spec fn spec_reset_attr_seq(vs: Seq<AttributeSequenceValueView>, i: int) -> Seq<
    AttributeSequenceValueView,
>
    decreases vs.len() - i,
{
    if i < 0 || i >= vs.len() {
        Seq::<AttributeSequenceValueView>::empty()
    } else {
        seq![spec_reset_seq_value(vs[i])] + spec_reset_attr_seq(vs, i + 1)
    }
}

pub open spec fn spec_reset_opt_value(v: Option<AttributeValueView>) -> Option<AttributeValueView> {
    match v {
        Option::Some(av) => Option::Some(
            AttributeValueView { span: av.span, sequence: spec_reset_attr_seq(av.sequence, 0) },
        ),
        Option::None => Option::None,
    }
}

pub open spec fn spec_reset_directive(d: DirectiveView) -> DirectiveView {
    DirectiveView {
        value: match d.kind {
            DirectiveKind::Style => spec_reset_opt_value(d.value),
            _ => Option::None,
        },
        binding_group_name: Option::None,
        parent_block: Option::None,
        dynamic: Option::None,
        dependencies: Seq::empty(),
        ..d
    }
}

pub open spec fn spec_reset_element_attribute(a: ElementAttributeView) -> ElementAttributeView {
    match a {
        ElementAttributeView::Attribute(x) => ElementAttributeView::Attribute(
            AttributeView { span: x.span, name: x.name, value: spec_reset_opt_value(x.value) },
        ),
        ElementAttributeView::SpreadAttribute(sp) => ElementAttributeView::SpreadAttribute(
            SpreadAttributeView {
                span: sp.span,
                expression: sp.expression,
                flags: Option::None,
                dependencies: Seq::empty(),
            },
        ),
        ElementAttributeView::DirectiveAttribute(dv) => ElementAttributeView::DirectiveAttribute(
            spec_reset_directive(dv),
        ),
    }
}

pub open spec fn spec_reset_attributes(attrs: Seq<ElementAttributeView>, i: int) -> Seq<
    ElementAttributeView,
>
    decreases attrs.len() - i,
{
    if i < 0 || i >= attrs.len() {
        Seq::<ElementAttributeView>::empty()
    } else {
        seq![spec_reset_element_attribute(attrs[i])] + spec_reset_attributes(attrs, i + 1)
    }
}

pub open spec fn spec_reset_tag(t: TagView) -> TagView {
    match t {
        TagView::Expression(et) => TagView::Expression(spec_reset_expression_tag(et)),
        _ => t,
    }
}

pub open spec fn spec_reset_element(e: ElementView) -> ElementView
    decreases e, 0int,
{
    ElementView {
        attributes: spec_reset_attributes(e.attributes, 0),
        fragment: spec_reset_fragment(e.fragment),
        reg_flags: Option::None,
        sv_flags: Option::None,
        ..e
    }
}

pub open spec fn spec_reset_block(b: BlockView) -> BlockView
    decreases b, 0int,
{
    match b {
        BlockView::Each { span, expression, context, body, fallback, index, key, metadata: _ } => BlockView::Each {
            span,
            expression,
            context,
            body: spec_reset_fragment(body),
            fallback: match fallback {
                Option::Some(f) => Option::Some(spec_reset_fragment(f)),
                Option::None => Option::None,
            },
            index,
            key,
            metadata: Option::None,
        },
        BlockView::If { span, elseif, test, consequent, alternate } => BlockView::If {
            span,
            elseif,
            test,
            consequent: spec_reset_fragment(consequent),
            alternate: match alternate {
                Option::Some(f) => Option::Some(spec_reset_fragment(f)),
                Option::None => Option::None,
            },
        },
        BlockView::Await { span, expression, value, error, pending, then_fragment, catch_fragment } => BlockView::Await {
            span,
            expression,
            value,
            error,
            pending: match pending {
                Option::Some(f) => Option::Some(spec_reset_fragment(f)),
                Option::None => Option::None,
            },
            then_fragment: match then_fragment {
                Option::Some(f) => Option::Some(spec_reset_fragment(f)),
                Option::None => Option::None,
            },
            catch_fragment: match catch_fragment {
                Option::Some(f) => Option::Some(spec_reset_fragment(f)),
                Option::None => Option::None,
            },
        },
        BlockView::Key { span, expression, fragment } => BlockView::Key {
            span,
            expression,
            fragment: spec_reset_fragment(fragment),
        },
        BlockView::Snippet { span, expression, parameters, body } => BlockView::Snippet {
            span,
            expression,
            parameters,
            body: spec_reset_fragment(body),
        },
    }
}

pub open spec fn spec_reset_node(n: FragmentNodeView) -> FragmentNodeView
    decreases n, 0int,
{
    match n {
        FragmentNodeView::Text(t) => FragmentNodeView::Text(t),
        FragmentNodeView::Tag(t) => FragmentNodeView::Tag(spec_reset_tag(t)),
        FragmentNodeView::Element(e) => FragmentNodeView::Element(Box::new(spec_reset_element(*e))),
        FragmentNodeView::Block(b) => FragmentNodeView::Block(Box::new(spec_reset_block(*b))),
    }
}

pub open spec fn spec_reset_nodes(ns: Seq<FragmentNodeView>, i: int) -> Seq<FragmentNodeView>
    decreases ns, ns.len() - i,
{
    if i < 0 || i >= ns.len() {
        Seq::<FragmentNodeView>::empty()
    } else {
        seq![spec_reset_node(ns[i])] + spec_reset_nodes(ns, i + 1)
    }
}

pub open spec fn spec_reset_fragment(f: FragmentView) -> FragmentView
    decreases f, 1int,
{
    FragmentView { nodes: spec_reset_nodes(f.nodes, 0), transparent: f.transparent }
}

pub open spec fn spec_reset_root(r: RootView) -> RootView {
    RootView { fragment: spec_reset_fragment(r.fragment), ..r }
}

/// `spec_reset_attr_seq` maps its element function pointwise.
pub proof fn lemma_reset_attr_seq_pointwise(vs: Seq<AttributeSequenceValueView>, i: int)
    requires
        0 <= i <= vs.len(),
    ensures
        spec_reset_attr_seq(vs, i).len() == vs.len() - i,
        forall|j: int|
            0 <= j < vs.len() - i ==> spec_reset_attr_seq(vs, i)[j] == spec_reset_seq_value(
                vs[i + j],
            ),
    decreases vs.len() - i,
{
    if i < vs.len() {
        lemma_reset_attr_seq_pointwise(vs, i + 1);
    }
}

/// `spec_reset_attributes` maps its element function pointwise.
pub proof fn lemma_reset_attributes_pointwise(attrs: Seq<ElementAttributeView>, i: int)
    requires
        0 <= i <= attrs.len(),
    ensures
        spec_reset_attributes(attrs, i).len() == attrs.len() - i,
        forall|j: int|
            0 <= j < attrs.len() - i ==> spec_reset_attributes(attrs, i)[j]
                == spec_reset_element_attribute(attrs[i + j]),
    decreases attrs.len() - i,
{
    if i < attrs.len() {
        lemma_reset_attributes_pointwise(attrs, i + 1);
    }
}

/// `spec_reset_nodes` maps `spec_reset_node` pointwise.
pub proof fn lemma_reset_nodes_pointwise(ns: Seq<FragmentNodeView>, i: int)
    requires
        0 <= i <= ns.len(),
    ensures
        spec_reset_nodes(ns, i).len() == ns.len() - i,
        forall|j: int|
            0 <= j < ns.len() - i ==> spec_reset_nodes(ns, i)[j] == spec_reset_node(ns[i + j]),
    decreases ns.len() - i,
{
    if i < ns.len() {
        lemma_reset_nodes_pointwise(ns, i + 1);
    }
}

// ---------------------------------------------------------------
// The analysis writes only metadata: resetting what a pass produced
// gives back the reset of what it was given.
// ---------------------------------------------------------------

pub proof fn lemma_shape_collect_attr_seq(vs: Seq<AttributeSequenceValueView>, i: int, st: StateView)
    requires
        0 <= i <= vs.len(),
    ensures
        spec_reset_attr_seq(spec_collect_attr_seq(vs, i, st).0, 0) == spec_reset_attr_seq(vs, i),
    decreases vs.len() - i,
{
    if i < vs.len() {
        let c = spec_collect_attr_seq(vs, i, st);
        let cn = spec_collect_attr_seq(vs, i + 1, spec_collect_attr_seq_head(vs, i, st).1);
        lemma_shape_collect_attr_seq(vs, i + 1, spec_collect_attr_seq_head(vs, i, st).1);
        lemma_reset_attr_seq_pointwise(c.0, 0);
        lemma_reset_attr_seq_pointwise(cn.0, 0);
        lemma_reset_attr_seq_pointwise(vs, i);
        assert(spec_reset_attr_seq(c.0, 0) =~= spec_reset_attr_seq(vs, i));
    }
}

/// The first collected part of an attribute value and the state it
/// leaves, named for the proofs above.
pub open spec fn spec_collect_attr_seq_head(
    vs: Seq<AttributeSequenceValueView>,
    i: int,
    st: StateView,
) -> (AttributeSequenceValueView, StateView)
    recommends
        0 <= i < vs.len(),
{
    match vs[i] {
        AttributeSequenceValueView::Text(t) => (AttributeSequenceValueView::Text(t), st),
        AttributeSequenceValueView::ExpressionTag(t) => {
            let r = crate::collect::spec_collect_expression_tag(t, st);
            (AttributeSequenceValueView::ExpressionTag(r.0), r.1)
        },
    }
}

pub proof fn lemma_shape_collect_opt_value(v: Option<AttributeValueView>, st: StateView)
    ensures
        spec_reset_opt_value(crate::collect::spec_collect_opt_value(v, st).0)
            == spec_reset_opt_value(v),
{
    match v {
        Option::Some(av) => {
            lemma_shape_collect_attr_seq(av.sequence, 0, st);
        },
        Option::None => {},
    }
}

pub proof fn lemma_shape_collect_directive(d: DirectiveView, st: StateView)
    ensures
        spec_reset_directive(crate::collect::spec_collect_directive(d, st).0)
            == spec_reset_directive(d),
{
    match d.kind {
        DirectiveKind::Style => {
            lemma_shape_collect_opt_value(d.value, st);
        },
        _ => {},
    }
}

pub proof fn lemma_shape_collect_attributes(attrs: Seq<ElementAttributeView>, i: int, st: StateView)
    requires
        0 <= i <= attrs.len(),
    ensures
        spec_reset_attributes(spec_collect_attributes(attrs, i, st).0, 0)
            == spec_reset_attributes(attrs, i),
    decreases attrs.len() - i,
{
    if i < attrs.len() {
        let c = spec_collect_attributes(attrs, i, st);
        let head = spec_collect_attribute_head(attrs, i, st);
        match attrs[i] {
            ElementAttributeView::Attribute(a) => {
                lemma_shape_collect_opt_value(a.value, st);
            },
            ElementAttributeView::SpreadAttribute(_) => {},
            ElementAttributeView::DirectiveAttribute(dv) => {
                lemma_shape_collect_directive(dv, st);
            },
        }
        let cn = spec_collect_attributes(attrs, i + 1, head.1);
        lemma_shape_collect_attributes(attrs, i + 1, head.1);
        lemma_reset_attributes_pointwise(c.0, 0);
        lemma_reset_attributes_pointwise(cn.0, 0);
        lemma_reset_attributes_pointwise(attrs, i);
        assert(spec_reset_attributes(c.0, 0) =~= spec_reset_attributes(attrs, i));
    }
}

/// The first collected attribute and the state it leaves.
pub open spec fn spec_collect_attribute_head(
    attrs: Seq<ElementAttributeView>,
    i: int,
    st: StateView,
) -> (ElementAttributeView, StateView)
    recommends
        0 <= i < attrs.len(),
{
    match attrs[i] {
        ElementAttributeView::Attribute(a) => {
            let r = crate::collect::spec_collect_opt_value(a.value, st);
            (
                ElementAttributeView::Attribute(
                    AttributeView { span: a.span, name: a.name, value: r.0 },
                ),
                r.2,
            )
        },
        ElementAttributeView::SpreadAttribute(sp) => {
            let r = crate::resolve::spec_resolve_expr(sp.expression, crate::collect::no_shadow(), st);
            (
                ElementAttributeView::SpreadAttribute(
                    SpreadAttributeView {
                        span: sp.span,
                        expression: sp.expression,
                        flags: Option::None,
                        dependencies: r.0,
                    },
                ),
                r.1,
            )
        },
        ElementAttributeView::DirectiveAttribute(dv) => {
            let r = crate::collect::spec_collect_directive(dv, st);
            (ElementAttributeView::DirectiveAttribute(r.0), r.1)
        },
    }
}

pub proof fn lemma_shape_collect_tag(t: TagView, st: StateView)
    ensures
        spec_reset_tag(crate::collect::spec_collect_tag(t, st).0) == spec_reset_tag(t),
{
}

#[verifier::rlimit(100)]
pub proof fn lemma_shape_collect_element(e: ElementView, ns: Namespace, scoped: bool, st: StateView)
    ensures
        spec_reset_element(crate::collect::spec_collect_element(e, ns, scoped, st).0)
            == spec_reset_element(e),
    decreases e, 0int,
{
    let cls = if e.kind == crate::views::ElementKind::RegularElement {
        match e.name {
            Option::Some(n) => crate::namespace::spec_classify_tag(n, ns),
            Option::None => (ns, ns, false),
        }
    } else {
        (ns, ns, false)
    };
    let st1 = if cls.2 {
        crate::scope::spec_add_diagnostic(
            st,
            crate::binding::DiagnosticView::NamespaceConflict(
                crate::binding::NamespaceConflict { span: e.span, found: cls.0, ancestor: ns },
            ),
        )
    } else {
        st
    };
    let st2 = match e.expression {
        Option::Some(x) => crate::resolve::spec_resolve_expr(
            x,
            crate::collect::no_shadow(),
            st1,
        ).1,
        Option::None => st1,
    };
    lemma_shape_collect_attributes(e.attributes, 0, st2);
    let st3 = spec_collect_attributes(e.attributes, 0, st2).1;
    lemma_shape_collect_fragment(e.fragment, cls.1, scoped, st3);
}

#[verifier::rlimit(100)]
pub proof fn lemma_shape_collect_block(b: BlockView, ns: Namespace, scoped: bool, st: StateView)
    ensures
        spec_reset_block(crate::collect::spec_collect_block(b, ns, scoped, st).0)
            == spec_reset_block(b),
    decreases b, 0int,
{
    match b {
        BlockView::Each { span, expression, context, body, fallback, index, key, metadata } => {
            let (iter_deps, st1) = crate::resolve::spec_resolve_expr(
                expression,
                crate::collect::no_shadow(),
                st,
            );
            let iter_info = match crate::collect::spec_bind_path(expression) {
                Option::Some(rp) => match crate::scope::spec_lookup_frames(st1.frames, rp.0) {
                    Option::Some(bid) => (Option::Some(bid), rp.1),
                    Option::None => (Option::<BindingId>::None, Seq::<Seq<char>>::empty()),
                },
                Option::None => (Option::<BindingId>::None, Seq::<Seq<char>>::empty()),
            };
            let st2 = crate::scope::spec_push_frame(st1);
            let (item_ids, st3) = crate::collect::spec_declare_pattern(
                context,
                crate::binding::BindingKind::Each,
                crate::binding::DeclarationKind::Let,
                Option::Some(crate::binding::InitialValueKind::EachItem),
                false,
                st2,
            );
            let idx = match index {
                Option::Some(ix) => {
                    let (st4, ib) = crate::collect::spec_declare_one(
                        ix,
                        crate::binding::BindingKind::Each,
                        crate::binding::DeclarationKind::Let,
                        Option::Some(crate::binding::InitialValueKind::EachIndex),
                        Option::None,
                        st3,
                    );
                    (st4, Option::Some(ib))
                },
                Option::None => (st3, Option::<crate::binding::BindingId>::None),
            };
            let declarations = match idx.1 {
                Option::Some(ib) => item_ids.push(ib),
                Option::None => item_ids,
            };
            let (st5, blk) = crate::scope::spec_push_block(
                idx.0,
                declarations,
                iter_info.0,
                iter_info.1,
                key is Some,
            );
            let st6 = match key {
                Option::Some(k) => crate::resolve::spec_resolve_expr(
                    k,
                    crate::collect::no_shadow(),
                    st5,
                ).1,
                Option::None => st5,
            };
            lemma_shape_collect_nodes(body.nodes, 0, ns, scoped, st6);
            let (body_nodes, st7) = crate::collect::spec_collect_nodes(
                body.nodes,
                0,
                ns,
                scoped,
                st6,
            );
            let st8 = crate::scope::spec_pop_block(st7);
            let st9 = crate::scope::spec_pop_frame(st8);
            match fallback {
                Option::Some(f) => {
                    lemma_shape_collect_fragment(f, ns, scoped, st9);
                },
                Option::None => {},
            }
        },
        BlockView::If { span, elseif, test, consequent, alternate } => {
            let st1 = crate::resolve::spec_resolve_expr(
                test,
                crate::collect::no_shadow(),
                st,
            ).1;
            lemma_shape_collect_fragment(consequent, ns, scoped, st1);
            let st2 = crate::collect::spec_collect_fragment(consequent, ns, scoped, st1).1;
            match alternate {
                Option::Some(a) => {
                    lemma_shape_collect_fragment(a, ns, scoped, st2);
                },
                Option::None => {},
            }
        },
        BlockView::Await { span, expression, value, error, pending, then_fragment, catch_fragment } => {
            let st1 = crate::resolve::spec_resolve_expr(
                expression,
                crate::collect::no_shadow(),
                st,
            ).1;
            let p = match pending {
                Option::Some(f) => {
                    lemma_shape_collect_fragment(f, ns, scoped, st1);
                    (crate::collect::spec_collect_fragment(f, ns, scoped, st1).1)
                },
                Option::None => st1,
            };
            let t = match then_fragment {
                Option::Some(f) => {
                    lemma_shape_collect_fragment(f, ns, scoped, p);
                    (crate::collect::spec_collect_fragment(f, ns, scoped, p).1)
                },
                Option::None => p,
            };
            match catch_fragment {
                Option::Some(f) => {
                    lemma_shape_collect_fragment(f, ns, scoped, t);
                },
                Option::None => {},
            }
        },
        BlockView::Key { span, expression, fragment } => {
            let st1 = crate::resolve::spec_resolve_expr(
                expression,
                crate::collect::no_shadow(),
                st,
            ).1;
            lemma_shape_collect_fragment(fragment, ns, scoped, st1);
        },
        BlockView::Snippet { span, expression, parameters, body } => {
            let (st1, _bid) = crate::collect::spec_declare_one(
                expression,
                crate::binding::BindingKind::Normal,
                crate::binding::DeclarationKind::Function,
                Option::Some(crate::binding::InitialValueKind::Function),
                Option::None,
                st,
            );
            let st2 = crate::scope::spec_push_frame(st1);
            let st3 = crate::collect::spec_declare_patterns(parameters, 0, st2);
            lemma_shape_collect_nodes(body.nodes, 0, ns, scoped, st3);
        },
    }
}

pub proof fn lemma_shape_collect_node(n: FragmentNodeView, ns: Namespace, scoped: bool, st: StateView)
    ensures
        spec_reset_node(crate::collect::spec_collect_node(n, ns, scoped, st).0)
            == spec_reset_node(n),
    decreases n, 1int,
{
    match n {
        FragmentNodeView::Text(_) => {},
        FragmentNodeView::Tag(t) => {
            lemma_shape_collect_tag(t, st);
        },
        FragmentNodeView::Element(e) => {
            lemma_shape_collect_element(*e, ns, scoped, st);
        },
        FragmentNodeView::Block(b) => {
            lemma_shape_collect_block(*b, ns, scoped, st);
        },
    }
}

pub proof fn lemma_shape_collect_nodes(
    ns_list: Seq<FragmentNodeView>,
    i: int,
    ns: Namespace,
    scoped: bool,
    st: StateView,
)
    requires
        0 <= i <= ns_list.len(),
    ensures
        spec_reset_nodes(crate::collect::spec_collect_nodes(ns_list, i, ns, scoped, st).0, 0)
            == spec_reset_nodes(ns_list, i),
    decreases ns_list, ns_list.len() - i,
{
    if i < ns_list.len() {
        let c = crate::collect::spec_collect_nodes(ns_list, i, ns, scoped, st);
        let (n1, st1) = crate::collect::spec_collect_node(ns_list[i], ns, scoped, st);
        lemma_shape_collect_node(ns_list[i], ns, scoped, st);
        let cn = crate::collect::spec_collect_nodes(ns_list, i + 1, ns, scoped, st1);
        lemma_shape_collect_nodes(ns_list, i + 1, ns, scoped, st1);
        lemma_reset_nodes_pointwise(c.0, 0);
        lemma_reset_nodes_pointwise(cn.0, 0);
        lemma_reset_nodes_pointwise(ns_list, i);
        assert(spec_reset_nodes(c.0, 0) =~= spec_reset_nodes(ns_list, i));
    }
}

pub proof fn lemma_shape_collect_fragment(f: FragmentView, ns: Namespace, scoped: bool, st: StateView)
    ensures
        spec_reset_fragment(crate::collect::spec_collect_fragment(f, ns, scoped, st).0)
            == spec_reset_fragment(f),
    decreases f, 2int,
{
    lemma_shape_collect_nodes(f.nodes, 0, ns, scoped, crate::scope::spec_push_frame(st));
}

// ---------------------------------------------------------------
// The taint pass writes only metadata too.
// ---------------------------------------------------------------

pub proof fn lemma_shape_taint_attr_seq(
    vs: Seq<AttributeSequenceValueView>,
    i: int,
    bs: Seq<crate::binding::BindingView>,
)
    requires
        0 <= i <= vs.len(),
    ensures
        spec_reset_attr_seq(crate::taint::spec_taint_attr_seq(vs, i, bs), 0)
            == spec_reset_attr_seq(vs, i),
{
    crate::taint::lemma_taint_attr_seq_pointwise(vs, i, bs);
    lemma_reset_attr_seq_pointwise(crate::taint::spec_taint_attr_seq(vs, i, bs), 0);
    lemma_reset_attr_seq_pointwise(vs, i);
    assert(spec_reset_attr_seq(crate::taint::spec_taint_attr_seq(vs, i, bs), 0)
        =~= spec_reset_attr_seq(vs, i));
}

pub proof fn lemma_shape_taint_opt_value(
    v: Option<AttributeValueView>,
    bs: Seq<crate::binding::BindingView>,
)
    ensures
        spec_reset_opt_value(crate::taint::spec_taint_opt_value(v, bs))
            == spec_reset_opt_value(v),
{
    match v {
        Option::Some(av) => {
            lemma_shape_taint_attr_seq(av.sequence, 0, bs);
        },
        Option::None => {},
    }
}

pub proof fn lemma_shape_taint_directive(d: DirectiveView, bs: Seq<crate::binding::BindingView>)
    ensures
        spec_reset_directive(crate::taint::spec_taint_directive(d, bs))
            == spec_reset_directive(d),
{
    match d.kind {
        DirectiveKind::Style => {
            lemma_shape_taint_opt_value(d.value, bs);
        },
        _ => {},
    }
}

pub proof fn lemma_shape_taint_attributes(
    attrs: Seq<ElementAttributeView>,
    i: int,
    bs: Seq<crate::binding::BindingView>,
)
    requires
        0 <= i <= attrs.len(),
    ensures
        spec_reset_attributes(crate::taint::spec_taint_attributes(attrs, i, bs), 0)
            == spec_reset_attributes(attrs, i),
    decreases attrs.len() - i,
{
    crate::taint::lemma_taint_attributes_pointwise(attrs, i, bs);
    lemma_reset_attributes_pointwise(crate::taint::spec_taint_attributes(attrs, i, bs), 0);
    lemma_reset_attributes_pointwise(attrs, i);
    assert forall|j: int| 0 <= j < attrs.len() - i implies spec_reset_element_attribute(
        #[trigger] crate::taint::spec_taint_element_attribute(attrs[i + j], bs),
    ) == spec_reset_element_attribute(attrs[i + j]) by {
        match attrs[i + j] {
            ElementAttributeView::Attribute(a) => {
                lemma_shape_taint_opt_value(a.value, bs);
            },
            ElementAttributeView::SpreadAttribute(_) => {},
            ElementAttributeView::DirectiveAttribute(dv) => {
                lemma_shape_taint_directive(dv, bs);
            },
        }
    }
    assert(spec_reset_attributes(crate::taint::spec_taint_attributes(attrs, i, bs), 0)
        =~= spec_reset_attributes(attrs, i));
}

pub proof fn lemma_shape_taint_element(e: ElementView, bs: Seq<crate::binding::BindingView>)
    ensures
        spec_reset_element(crate::taint::spec_taint_element(e, bs)) == spec_reset_element(e),
    decreases e, 0int,
{
    lemma_shape_taint_attributes(e.attributes, 0, bs);
    lemma_shape_taint_fragment(e.fragment, bs);
}

pub proof fn lemma_shape_taint_block(b: BlockView, bs: Seq<crate::binding::BindingView>)
    ensures
        spec_reset_block(crate::taint::spec_taint_block(b, bs)) == spec_reset_block(b),
    decreases b, 0int,
{
    match b {
        BlockView::Each { body, fallback, .. } => {
            lemma_shape_taint_fragment(body, bs);
            match fallback {
                Option::Some(f) => lemma_shape_taint_fragment(f, bs),
                Option::None => {},
            }
        },
        BlockView::If { consequent, alternate, .. } => {
            lemma_shape_taint_fragment(consequent, bs);
            match alternate {
                Option::Some(f) => lemma_shape_taint_fragment(f, bs),
                Option::None => {},
            }
        },
        BlockView::Await { pending, then_fragment, catch_fragment, .. } => {
            match pending {
                Option::Some(f) => lemma_shape_taint_fragment(f, bs),
                Option::None => {},
            }
            match then_fragment {
                Option::Some(f) => lemma_shape_taint_fragment(f, bs),
                Option::None => {},
            }
            match catch_fragment {
                Option::Some(f) => lemma_shape_taint_fragment(f, bs),
                Option::None => {},
            }
        },
        BlockView::Key { fragment, .. } => {
            lemma_shape_taint_fragment(fragment, bs);
        },
        BlockView::Snippet { body, .. } => {
            lemma_shape_taint_fragment(body, bs);
        },
    }
}

pub proof fn lemma_shape_taint_node(n: FragmentNodeView, bs: Seq<crate::binding::BindingView>)
    ensures
        spec_reset_node(crate::taint::spec_taint_node(n, bs)) == spec_reset_node(n),
    decreases n, 1int,
{
    match n {
        FragmentNodeView::Text(_) => {},
        FragmentNodeView::Tag(_) => {},
        FragmentNodeView::Element(e) => {
            lemma_shape_taint_element(*e, bs);
        },
        FragmentNodeView::Block(b) => {
            lemma_shape_taint_block(*b, bs);
        },
    }
}

pub proof fn lemma_shape_taint_nodes(
    ns: Seq<FragmentNodeView>,
    i: int,
    bs: Seq<crate::binding::BindingView>,
)
    requires
        0 <= i <= ns.len(),
    ensures
        spec_reset_nodes(crate::taint::spec_taint_nodes(ns, i, bs), 0) == spec_reset_nodes(ns, i),
    decreases ns, ns.len() - i,
{
    crate::taint::lemma_taint_nodes_pointwise(ns, i, bs);
    lemma_reset_nodes_pointwise(crate::taint::spec_taint_nodes(ns, i, bs), 0);
    lemma_reset_nodes_pointwise(ns, i);
    assert forall|j: int| 0 <= j < ns.len() - i implies spec_reset_node(
        #[trigger] crate::taint::spec_taint_node(ns[i + j], bs),
    ) == spec_reset_node(ns[i + j]) by {
        lemma_shape_taint_node(ns[i + j], bs);
    }
    assert(spec_reset_nodes(crate::taint::spec_taint_nodes(ns, i, bs), 0) =~= spec_reset_nodes(
        ns,
        i,
    ));
}

pub proof fn lemma_shape_taint_fragment(f: FragmentView, bs: Seq<crate::binding::BindingView>)
    ensures
        spec_reset_fragment(crate::taint::spec_taint_fragment(f, bs)) == spec_reset_fragment(f),
    decreases f, 2int,
{
    lemma_shape_taint_nodes(f.nodes, 0, bs);
}

// ---------------------------------------------------------------
// The analysis is blind to input metadata: collecting a reset tree
// gives exactly what collecting the original gives.
// ---------------------------------------------------------------

pub proof fn lemma_collect_attr_seq_shift(
    a: Seq<AttributeSequenceValueView>,
    b: Seq<AttributeSequenceValueView>,
    k: int,
    st: StateView,
)
    requires
        a.len() == b.len() + 1,
        forall|j: int| 0 <= j < b.len() ==> a[j + 1] == b[j],
        1 <= k <= a.len() + 1,
    ensures
        spec_collect_attr_seq(a, k, st) == spec_collect_attr_seq(b, k - 1, st),
    decreases a.len() + 1 - k,
{
    if k < a.len() {
        assert(a[k] == b[k - 1]);
        lemma_collect_attr_seq_shift(a, b, k + 1, spec_collect_attr_seq_head(a, k, st).1);
    }
}

pub proof fn lemma_collect_attributes_shift(
    a: Seq<ElementAttributeView>,
    b: Seq<ElementAttributeView>,
    k: int,
    st: StateView,
)
    requires
        a.len() == b.len() + 1,
        forall|j: int| 0 <= j < b.len() ==> a[j + 1] == b[j],
        1 <= k <= a.len() + 1,
    ensures
        spec_collect_attributes(a, k, st) == spec_collect_attributes(b, k - 1, st),
    decreases a.len() + 1 - k,
{
    if k < a.len() {
        assert(a[k] == b[k - 1]);
        lemma_collect_attributes_shift(a, b, k + 1, spec_collect_attribute_head(a, k, st).1);
    }
}

pub proof fn lemma_collect_nodes_shift(
    a: Seq<FragmentNodeView>,
    b: Seq<FragmentNodeView>,
    k: int,
    ns: Namespace,
    scoped: bool,
    st: StateView,
)
    requires
        a.len() == b.len() + 1,
        forall|j: int| 0 <= j < b.len() ==> a[j + 1] == b[j],
        1 <= k <= a.len() + 1,
    ensures
        crate::collect::spec_collect_nodes(a, k, ns, scoped, st) == crate::collect::spec_collect_nodes(
            b,
            k - 1,
            ns,
            scoped,
            st,
        ),
    decreases a.len() + 1 - k,
{
    if k < a.len() {
        assert(a[k] == b[k - 1]);
        lemma_collect_nodes_shift(
            a,
            b,
            k + 1,
            ns,
            scoped,
            crate::collect::spec_collect_node(a[k], ns, scoped, st).1,
        );
    }
}

pub proof fn lemma_blind_attr_seq(vs: Seq<AttributeSequenceValueView>, i: int, st: StateView)
    requires
        0 <= i <= vs.len(),
    ensures
        spec_collect_attr_seq(spec_reset_attr_seq(vs, i), 0, st) == spec_collect_attr_seq(
            vs,
            i,
            st,
        ),
    decreases vs.len() - i,
{
    if i < vs.len() {
        let rl = spec_reset_attr_seq(vs, i);
        lemma_reset_attr_seq_pointwise(vs, i);
        lemma_reset_attr_seq_pointwise(vs, i + 1);
        assert(rl[0] == spec_reset_seq_value(vs[i]));
        let st1 = spec_collect_attr_seq_head(vs, i, st).1;
        assert(spec_collect_attr_seq_head(rl, 0, st) == (spec_collect_attr_seq_head(
            vs,
            i,
            st,
        ).0, st1));
        lemma_blind_attr_seq(vs, i + 1, st1);
        lemma_collect_attr_seq_shift(rl, spec_reset_attr_seq(vs, i + 1), 1, st1);
    }
}

pub proof fn lemma_blind_opt_value(v: Option<AttributeValueView>, st: StateView)
    ensures
        crate::collect::spec_collect_opt_value(spec_reset_opt_value(v), st)
            == crate::collect::spec_collect_opt_value(v, st),
{
    match v {
        Option::Some(av) => {
            lemma_blind_attr_seq(av.sequence, 0, st);
        },
        Option::None => {},
    }
}

pub proof fn lemma_blind_directive(d: DirectiveView, st: StateView)
    ensures
        crate::collect::spec_collect_directive(spec_reset_directive(d), st)
            == crate::collect::spec_collect_directive(d, st),
{
    match d.kind {
        DirectiveKind::Style => {
            lemma_blind_opt_value(d.value, st);
        },
        _ => {},
    }
}

pub proof fn lemma_blind_attributes(attrs: Seq<ElementAttributeView>, i: int, st: StateView)
    requires
        0 <= i <= attrs.len(),
    ensures
        spec_collect_attributes(spec_reset_attributes(attrs, i), 0, st)
            == spec_collect_attributes(attrs, i, st),
    decreases attrs.len() - i,
{
    if i < attrs.len() {
        let rl = spec_reset_attributes(attrs, i);
        lemma_reset_attributes_pointwise(attrs, i);
        lemma_reset_attributes_pointwise(attrs, i + 1);
        assert(rl[0] == spec_reset_element_attribute(attrs[i]));
        match attrs[i] {
            ElementAttributeView::Attribute(a) => {
                lemma_blind_opt_value(a.value, st);
            },
            ElementAttributeView::SpreadAttribute(_) => {},
            ElementAttributeView::DirectiveAttribute(dv) => {
                lemma_blind_directive(dv, st);
            },
        }
        let st1 = spec_collect_attribute_head(attrs, i, st).1;
        lemma_blind_attributes(attrs, i + 1, st1);
        lemma_collect_attributes_shift(rl, spec_reset_attributes(attrs, i + 1), 1, st1);
    }
}

pub proof fn lemma_blind_has_spread(attrs: Seq<ElementAttributeView>, i: int)
    requires
        0 <= i <= attrs.len(),
    ensures
        crate::collect::spec_has_spread(spec_reset_attributes(attrs, i), 0)
            == crate::collect::spec_has_spread(attrs, i),
    decreases attrs.len() - i,
{
    if i < attrs.len() {
        lemma_reset_attributes_pointwise(attrs, i);
        lemma_reset_attributes_pointwise(attrs, i + 1);
        lemma_blind_has_spread(attrs, i + 1);
        lemma_has_spread_shift(
            spec_reset_attributes(attrs, i),
            spec_reset_attributes(attrs, i + 1),
            1,
        );
    }
}

pub proof fn lemma_has_spread_shift(
    a: Seq<ElementAttributeView>,
    b: Seq<ElementAttributeView>,
    k: int,
)
    requires
        a.len() == b.len() + 1,
        forall|j: int| 0 <= j < b.len() ==> a[j + 1] == b[j],
        1 <= k <= a.len() + 1,
    ensures
        crate::collect::spec_has_spread(a, k) == crate::collect::spec_has_spread(b, k - 1),
    decreases a.len() + 1 - k,
{
    if k < a.len() {
        assert(a[k] == b[k - 1]);
        lemma_has_spread_shift(a, b, k + 1);
    }
}

pub proof fn lemma_blind_tag(t: TagView, st: StateView)
    ensures
        crate::collect::spec_collect_tag(spec_reset_tag(t), st) == crate::collect::spec_collect_tag(
            t,
            st,
        ),
{
}

#[verifier::rlimit(100)]
pub proof fn lemma_blind_element(e: ElementView, ns: Namespace, scoped: bool, st: StateView)
    ensures
        crate::collect::spec_collect_element(spec_reset_element(e), ns, scoped, st)
            == crate::collect::spec_collect_element(e, ns, scoped, st),
    decreases e, 0int,
{
    let re = spec_reset_element(e);
    let cls = if e.kind == crate::views::ElementKind::RegularElement {
        match e.name {
            Option::Some(n) => crate::namespace::spec_classify_tag(n, ns),
            Option::None => (ns, ns, false),
        }
    } else {
        (ns, ns, false)
    };
    let st1 = if cls.2 {
        crate::scope::spec_add_diagnostic(
            st,
            crate::binding::DiagnosticView::NamespaceConflict(
                crate::binding::NamespaceConflict { span: e.span, found: cls.0, ancestor: ns },
            ),
        )
    } else {
        st
    };
    let st2 = match e.expression {
        Option::Some(x) => crate::resolve::spec_resolve_expr(
            x,
            crate::collect::no_shadow(),
            st1,
        ).1,
        Option::None => st1,
    };
    lemma_blind_attributes(e.attributes, 0, st2);
    lemma_blind_has_spread(e.attributes, 0);
    let st3 = spec_collect_attributes(e.attributes, 0, st2).1;
    lemma_blind_fragment(e.fragment, cls.1, scoped, st3);
}

#[verifier::rlimit(100)]
pub proof fn lemma_blind_block(b: BlockView, ns: Namespace, scoped: bool, st: StateView)
    ensures
        crate::collect::spec_collect_block(spec_reset_block(b), ns, scoped, st)
            == crate::collect::spec_collect_block(b, ns, scoped, st),
    decreases b, 0int,
{
    match b {
        BlockView::Each { span, expression, context, body, fallback, index, key, metadata } => {
            let (iter_deps, st1) = crate::resolve::spec_resolve_expr(
                expression,
                crate::collect::no_shadow(),
                st,
            );
            let iter_info = match crate::collect::spec_bind_path(expression) {
                Option::Some(rp) => match crate::scope::spec_lookup_frames(st1.frames, rp.0) {
                    Option::Some(bid) => (Option::Some(bid), rp.1),
                    Option::None => (Option::<BindingId>::None, Seq::<Seq<char>>::empty()),
                },
                Option::None => (Option::<BindingId>::None, Seq::<Seq<char>>::empty()),
            };
            let st2 = crate::scope::spec_push_frame(st1);
            let (item_ids, st3) = crate::collect::spec_declare_pattern(
                context,
                crate::binding::BindingKind::Each,
                crate::binding::DeclarationKind::Let,
                Option::Some(crate::binding::InitialValueKind::EachItem),
                false,
                st2,
            );
            let idx = match index {
                Option::Some(ix) => {
                    let (st4, ib) = crate::collect::spec_declare_one(
                        ix,
                        crate::binding::BindingKind::Each,
                        crate::binding::DeclarationKind::Let,
                        Option::Some(crate::binding::InitialValueKind::EachIndex),
                        Option::None,
                        st3,
                    );
                    (st4, Option::Some(ib))
                },
                Option::None => (st3, Option::<crate::binding::BindingId>::None),
            };
            let declarations = match idx.1 {
                Option::Some(ib) => item_ids.push(ib),
                Option::None => item_ids,
            };
            let (st5, blk) = crate::scope::spec_push_block(
                idx.0,
                declarations,
                iter_info.0,
                iter_info.1,
                key is Some,
            );
            let st6 = match key {
                Option::Some(k) => crate::resolve::spec_resolve_expr(
                    k,
                    crate::collect::no_shadow(),
                    st5,
                ).1,
                Option::None => st5,
            };
            lemma_blind_nodes(body.nodes, 0, ns, scoped, st6);
            let (body_nodes, st7) = crate::collect::spec_collect_nodes(
                body.nodes,
                0,
                ns,
                scoped,
                st6,
            );
            let st8 = crate::scope::spec_pop_block(st7);
            let st9 = crate::scope::spec_pop_frame(st8);
            match fallback {
                Option::Some(f) => {
                    lemma_blind_fragment(f, ns, scoped, st9);
                },
                Option::None => {},
            }
        },
        BlockView::If { span, elseif, test, consequent, alternate } => {
            let st1 = crate::resolve::spec_resolve_expr(
                test,
                crate::collect::no_shadow(),
                st,
            ).1;
            lemma_blind_fragment(consequent, ns, scoped, st1);
            let st2 = crate::collect::spec_collect_fragment(consequent, ns, scoped, st1).1;
            match alternate {
                Option::Some(a) => {
                    lemma_blind_fragment(a, ns, scoped, st2);
                },
                Option::None => {},
            }
        },
        BlockView::Await { span, expression, value, error, pending, then_fragment, catch_fragment } => {
            let st1 = crate::resolve::spec_resolve_expr(
                expression,
                crate::collect::no_shadow(),
                st,
            ).1;
            let p = match pending {
                Option::Some(f) => {
                    lemma_blind_fragment(f, ns, scoped, st1);
                    (crate::collect::spec_collect_fragment(f, ns, scoped, st1).1)
                },
                Option::None => st1,
            };
            let t = match then_fragment {
                Option::Some(f) => {
                    lemma_blind_fragment(f, ns, scoped, p);
                    (crate::collect::spec_collect_fragment(f, ns, scoped, p).1)
                },
                Option::None => p,
            };
            match catch_fragment {
                Option::Some(f) => {
                    lemma_blind_fragment(f, ns, scoped, t);
                },
                Option::None => {},
            }
        },
        BlockView::Key { span, expression, fragment } => {
            let st1 = crate::resolve::spec_resolve_expr(
                expression,
                crate::collect::no_shadow(),
                st,
            ).1;
            lemma_blind_fragment(fragment, ns, scoped, st1);
        },
        BlockView::Snippet { span, expression, parameters, body } => {
            let (st1, _bid) = crate::collect::spec_declare_one(
                expression,
                crate::binding::BindingKind::Normal,
                crate::binding::DeclarationKind::Function,
                Option::Some(crate::binding::InitialValueKind::Function),
                Option::None,
                st,
            );
            let st2 = crate::scope::spec_push_frame(st1);
            let st3 = crate::collect::spec_declare_patterns(parameters, 0, st2);
            lemma_blind_nodes(body.nodes, 0, ns, scoped, st3);
        },
    }
}

pub proof fn lemma_blind_node(n: FragmentNodeView, ns: Namespace, scoped: bool, st: StateView)
    ensures
        crate::collect::spec_collect_node(spec_reset_node(n), ns, scoped, st)
            == crate::collect::spec_collect_node(n, ns, scoped, st),
    decreases n, 1int,
{
    match n {
        FragmentNodeView::Text(_) => {},
        FragmentNodeView::Tag(t) => {
            lemma_blind_tag(t, st);
        },
        FragmentNodeView::Element(e) => {
            lemma_blind_element(*e, ns, scoped, st);
        },
        FragmentNodeView::Block(b) => {
            lemma_blind_block(*b, ns, scoped, st);
        },
    }
}

pub proof fn lemma_blind_nodes(
    ns_list: Seq<FragmentNodeView>,
    i: int,
    ns: Namespace,
    scoped: bool,
    st: StateView,
)
    requires
        0 <= i <= ns_list.len(),
    ensures
        crate::collect::spec_collect_nodes(spec_reset_nodes(ns_list, i), 0, ns, scoped, st)
            == crate::collect::spec_collect_nodes(ns_list, i, ns, scoped, st),
    decreases ns_list, ns_list.len() - i,
{
    if i < ns_list.len() {
        let rl = spec_reset_nodes(ns_list, i);
        lemma_reset_nodes_pointwise(ns_list, i);
        lemma_reset_nodes_pointwise(ns_list, i + 1);
        assert(rl[0] == spec_reset_node(ns_list[i]));
        lemma_blind_node(ns_list[i], ns, scoped, st);
        let st1 = crate::collect::spec_collect_node(ns_list[i], ns, scoped, st).1;
        lemma_blind_nodes(ns_list, i + 1, ns, scoped, st1);
        lemma_collect_nodes_shift(rl, spec_reset_nodes(ns_list, i + 1), 1, ns, scoped, st1);
    }
}

pub proof fn lemma_blind_fragment(f: FragmentView, ns: Namespace, scoped: bool, st: StateView)
    ensures
        crate::collect::spec_collect_fragment(spec_reset_fragment(f), ns, scoped, st)
            == crate::collect::spec_collect_fragment(f, ns, scoped, st),
    decreases f, 2int,
{
    lemma_blind_nodes(f.nodes, 0, ns, scoped, crate::scope::spec_push_frame(st));
}

// ---------------------------------------------------------------
// Idempotence.
// ---------------------------------------------------------------

/// The analysis writes only metadata: resetting the analyzed tree
/// restores exactly the reset of the tree it was given.
pub proof fn lemma_analysis_writes_only_metadata(r: RootView)
    ensures
        spec_reset_root(crate::analyze::spec_analyze(r).0) == spec_reset_root(r),
{
    let c = crate::analyze::spec_collect_root(r);
    let scoped = match r.css {
        Option::Some(s) => s.stylesheet.rule_count > 0,
        Option::None => false,
    };
    let ns = match r.options {
        Option::Some(o) => match o.namespace {
            Option::Some(n) => n,
            Option::None => Namespace::Html,
        },
        Option::None => Namespace::Html,
    };
    let st0 = crate::scope::spec_push_frame(crate::collect::spec_initial_state());
    let st1 = match r.module {
        Option::Some(s) => crate::collect::spec_collect_statements(s.program.statements, 0, st0),
        Option::None => st0,
    };
    let st2 = match r.instance {
        Option::Some(s) => crate::collect::spec_collect_statements(s.program.statements, 0, st1),
        Option::None => st1,
    };
    lemma_shape_collect_fragment(r.fragment, ns, scoped, st2);
    lemma_shape_taint_fragment(c.0.fragment, c.1.bindings);
}

/// The analysis is blind to input metadata: analyzing a reset tree
/// gives exactly what analyzing the original gives.
pub proof fn lemma_analysis_blind_to_metadata(r: RootView)
    ensures
        crate::analyze::spec_analyze(spec_reset_root(r)) == crate::analyze::spec_analyze(r),
{
    let scoped = match r.css {
        Option::Some(s) => s.stylesheet.rule_count > 0,
        Option::None => false,
    };
    let ns = match r.options {
        Option::Some(o) => match o.namespace {
            Option::Some(n) => n,
            Option::None => Namespace::Html,
        },
        Option::None => Namespace::Html,
    };
    let st0 = crate::scope::spec_push_frame(crate::collect::spec_initial_state());
    let st1 = match r.module {
        Option::Some(s) => crate::collect::spec_collect_statements(s.program.statements, 0, st0),
        Option::None => st0,
    };
    let st2 = match r.instance {
        Option::Some(s) => crate::collect::spec_collect_statements(s.program.statements, 0, st1),
        Option::None => st1,
    };
    lemma_blind_fragment(r.fragment, ns, scoped, st2);
}

/// Idempotence: analyzing the metadata-reset result of an analysis
/// yields byte-identical metadata — the whole analysis output — to
/// the analysis it came from.
pub proof fn lemma_analysis_idempotent(r: RootView)
    ensures
        crate::analyze::spec_analyze(spec_reset_root(crate::analyze::spec_analyze(r).0))
            == crate::analyze::spec_analyze(r),
{
    lemma_analysis_writes_only_metadata(r);
    lemma_analysis_blind_to_metadata(r);
}

} // verus!
