//! The laws the analysis obeys, stated over the same spec functions
//! the executable contracts use.

use vstd::prelude::*;
use crate::binding::{
    BindingGroupId, BindingGroupView, BindingId, BindingKind, BindingView, spec_binding_taints,
};
use crate::ast::Namespace;
use crate::collect::{
    spec_collect_attributes, spec_collect_block, spec_collect_element, spec_collect_fragment,
    spec_collect_node, spec_collect_nodes,
};
use crate::expression::{ExpressionView, spec_contains_call};
use crate::namespace::spec_classify_tag;
use crate::views::{BlockView, ElementKind, ElementView, FragmentNodeView, FragmentView};
use crate::resolve::{
    lemma_resolve_expr_contains, spec_references, spec_resolve_expr,
};
use crate::scope::{
    StateView, spec_find_group, spec_lookup_frames, spec_resolve_group,
};
use crate::taint::{spec_deps_dynamic, spec_taint_flags};

verus! {

/// A dependency list that holds a tainting binding makes the flags
/// dynamic.
pub proof fn lemma_deps_dynamic_of_member(deps: Seq<BindingId>, bs: Seq<BindingView>, bid: BindingId, i: int)
    requires
        0 <= i < deps.len(),
        deps[i] == bid,
        bid.0 < bs.len(),
        spec_binding_taints(bs[bid.0 as int]),
    ensures
        spec_deps_dynamic(deps, bs, 0),
    decreases i,
{
    if i == 0 {
    } else {
        lemma_deps_dynamic_of_member(deps.subrange(1, deps.len() as int), bs, bid, i - 1);
        assert(deps.subrange(1, deps.len() as int)[i - 1] == deps[i]);
        if !(deps[0].0 < bs.len() && spec_binding_taints(bs[deps[0].0 as int])) {
            assert(spec_deps_dynamic(deps, bs, 1) == spec_deps_dynamic(
                deps.subrange(1, deps.len() as int),
                bs,
                0,
            )) by {
                lemma_deps_dynamic_shift(deps, bs, 1);
            }
        }
    }
}

/// Dropping the first element shifts the scan by one.
pub proof fn lemma_deps_dynamic_shift(deps: Seq<BindingId>, bs: Seq<BindingView>, i: int)
    requires
        1 <= i <= deps.len(),
    ensures
        spec_deps_dynamic(deps, bs, i) == spec_deps_dynamic(
            deps.subrange(1, deps.len() as int),
            bs,
            i - 1,
        ),
    decreases deps.len() - i,
{
    if i < deps.len() {
        assert(deps.subrange(1, deps.len() as int)[i - 1] == deps[i]);
        lemma_deps_dynamic_shift(deps, bs, i + 1);
    }
}

/// Any expression that references a binding of kind `State` — at any
/// nesting depth, under any scope chain where the name resolves to
/// that binding — is tainted dynamic, whatever else it holds.
pub proof fn lemma_state_reference_is_dynamic(
    e: ExpressionView,
    shadowed: Seq<Seq<char>>,
    st: StateView,
    name: Seq<char>,
    bid: BindingId,
    bs: Seq<BindingView>,
)
    requires
        spec_references(e, shadowed, name),
        spec_lookup_frames(st.frames, name) == Option::<BindingId>::Some(bid),
        bid.0 < bs.len(),
        bs[bid.0 as int].kind == BindingKind::State,
    ensures
        spec_taint_flags(e, spec_resolve_expr(e, shadowed, st).0, bs).dynamic,
{
    lemma_resolve_expr_contains(e, shadowed, st, name, bid);
    let deps = spec_resolve_expr(e, shadowed, st).0;
    let i = choose|i: int| 0 <= i < deps.len() && deps[i] == bid;
    lemma_deps_dynamic_of_member(deps, bs, bid, i);
}

/// Any expression containing a call expression has
/// `contains_call_expression` set, and is transitively dynamic: a
/// call's result cannot be assumed stable.
pub proof fn lemma_call_taints(e: ExpressionView, deps: Seq<BindingId>, bs: Seq<BindingView>)
    requires
        spec_contains_call(e),
    ensures
        spec_taint_flags(e, deps, bs).call_expression,
        spec_taint_flags(e, deps, bs).dynamic,
{
}

/// Binding-group identity: resolving a group twice with the same root
/// binding and the same literal member path yields the same group id;
/// resolving with a different root or path yields a different id.
/// Identity rests on name and path equality alone — never on spans.
pub proof fn lemma_binding_group_identity(
    st: StateView,
    root1: BindingId,
    path1: Seq<Seq<char>>,
    root2: BindingId,
    path2: Seq<Seq<char>>,
)
    requires
        st.groups.len() + 1 < usize::MAX,
    ensures
        ({
            let r1 = spec_resolve_group(st, root1, path1);
            let r2 = spec_resolve_group(r1.0, root2, path2);
            &&& ((root1 == root2 && path1 == path2) ==> r1.1 == r2.1)
            &&& ((root1 != root2 || path1 != path2) ==> r1.1 != r2.1)
        }),
{
    let r1 = spec_resolve_group(st, root1, path1);
    let r2 = spec_resolve_group(r1.0, root2, path2);
    lemma_resolve_group_entry(st, root1, path1);
    lemma_resolve_group_entry(r1.0, root2, path2);
    match spec_find_group(st.groups, root1, path1, 0) {
        Option::Some(g) => {
            assert(r1.0 == st);
        },
        Option::None => {
            assert(r1.0.groups == st.groups.push(
                BindingGroupView { binding: root1, keys: path1 },
            ));
        },
    }
    if root1 == root2 && path1 == path2 {
        match spec_find_group(st.groups, root1, path1, 0) {
            Option::Some(g) => {
                assert(r1.1 == g && r1.0 == st);
            },
            Option::None => {
                lemma_find_group_push(
                    st.groups,
                    BindingGroupView { binding: root1, keys: path1 },
                    root1,
                    path1,
                    0,
                );
            },
        }
    } else {
        assert(r1.0.groups[r1.1.0 as int].binding == root1 && r1.0.groups[r1.1.0 as int].keys
            == path1);
        assert(r2.0.groups[r2.1.0 as int].binding == root2 && r2.0.groups[r2.1.0 as int].keys
            == path2);
        assert(r1.1.0 < r1.0.groups.len());
        match spec_find_group(r1.0.groups, root2, path2, 0) {
            Option::Some(g) => {
                assert(r2.0 == r1.0);
            },
            Option::None => {
                assert(r2.0.groups == r1.0.groups.push(
                    BindingGroupView { binding: root2, keys: path2 },
                ));
            },
        }
        assert(r2.0.groups[r1.1.0 as int] == r1.0.groups[r1.1.0 as int]);
    }
}

/// A found group matches the key it was searched with, at an index
/// no earlier than where the search began.
pub proof fn lemma_find_group_some(
    gs: Seq<BindingGroupView>,
    root: BindingId,
    path: Seq<Seq<char>>,
    i: int,
)
    requires
        0 <= i,
        gs.len() <= usize::MAX,
        spec_find_group(gs, root, path, i) is Some,
    ensures
        ({
            let g = spec_find_group(gs, root, path, i).unwrap();
            &&& i <= g.0 < gs.len()
            &&& gs[g.0 as int].binding == root
            &&& gs[g.0 as int].keys == path
        }),
    decreases gs.len() - i,
{
    if i < gs.len() {
        if gs[i].binding == root && gs[i].keys == path {
            assert(spec_find_group(gs, root, path, i) == Option::Some(
                BindingGroupId(i as usize),
            ));
        } else {
            lemma_find_group_some(gs, root, path, i + 1);
            assert(spec_find_group(gs, root, path, i) == spec_find_group(gs, root, path, i + 1));
        }
    }
}

/// The group a resolution returns carries exactly the key it was
/// resolved with, and the table only ever grows by one entry.
pub proof fn lemma_resolve_group_entry(st: StateView, root: BindingId, path: Seq<Seq<char>>)
    requires
        st.groups.len() < usize::MAX,
    ensures
        ({
            let r = spec_resolve_group(st, root, path);
            &&& r.1.0 < r.0.groups.len()
            &&& r.0.groups[r.1.0 as int].binding == root
            &&& r.0.groups[r.1.0 as int].keys == path
            &&& r.0.groups.len() >= st.groups.len()
            &&& forall|k: int|
                0 <= k < st.groups.len() ==> r.0.groups[k] == st.groups[k]
        }),
{
    let r = spec_resolve_group(st, root, path);
    match spec_find_group(st.groups, root, path, 0) {
        Option::Some(g) => {
            lemma_find_group_some(st.groups, root, path, 0);
        },
        Option::None => {
            assert(r.0.groups == st.groups.push(
                BindingGroupView { binding: root, keys: path },
            ));
            assert(r.0.groups[st.groups.len() as int] == (BindingGroupView {
                binding: root,
                keys: path,
            }));
        },
    }
}

/// The namespace flag discipline of an svg subtree: every regular
/// element carries an svg flag that is true exactly when the
/// classifier assigns it the svg namespace, every dynamic-tag element
/// is marked svg, and the discipline recurses through every child
/// that stays in the svg namespace — a nested `foreignObject`
/// switches its children back to the host namespace and ends the
/// obligation there.
pub open spec fn spec_svg_marked_element(e: ElementView) -> bool
    decreases e, 0int,
{
    &&& (e.kind == ElementKind::RegularElement && e.name is Some ==> (e.reg_flags is Some
        && e.reg_flags.unwrap().svg == (spec_classify_tag(e.name.unwrap(), Namespace::Svg).0
        == Namespace::Svg)))
    &&& (e.kind == ElementKind::SvelteElement ==> (e.sv_flags is Some
        && e.sv_flags.unwrap().svg))
    &&& (spec_svg_child_ns(e) ==> spec_svg_marked_fragment(e.fragment))
}

/// Whether an element's children stay in the svg namespace.
pub open spec fn spec_svg_child_ns(e: ElementView) -> bool {
    if e.kind == ElementKind::RegularElement {
        match e.name {
            Option::Some(n) => spec_classify_tag(n, Namespace::Svg).1 == Namespace::Svg,
            Option::None => true,
        }
    } else {
        true
    }
}

pub open spec fn spec_svg_marked_node(n: FragmentNodeView) -> bool
    decreases n, 1int,
{
    match n {
        FragmentNodeView::Text(_) => true,
        FragmentNodeView::Tag(_) => true,
        FragmentNodeView::Element(e) => spec_svg_marked_element(*e),
        FragmentNodeView::Block(b) => spec_svg_marked_block(*b),
    }
}

pub open spec fn spec_svg_marked_block(b: BlockView) -> bool
    decreases b, 0int,
{
    match b {
        BlockView::Each { body, fallback, .. } => spec_svg_marked_fragment(body) && (match fallback {
            Option::Some(f) => spec_svg_marked_fragment(f),
            Option::None => true,
        }),
        BlockView::If { consequent, alternate, .. } => spec_svg_marked_fragment(consequent)
            && (match alternate {
            Option::Some(f) => spec_svg_marked_fragment(f),
            Option::None => true,
        }),
        BlockView::Await { pending, then_fragment, catch_fragment, .. } => (match pending {
            Option::Some(f) => spec_svg_marked_fragment(f),
            Option::None => true,
        }) && (match then_fragment {
            Option::Some(f) => spec_svg_marked_fragment(f),
            Option::None => true,
        }) && (match catch_fragment {
            Option::Some(f) => spec_svg_marked_fragment(f),
            Option::None => true,
        }),
        BlockView::Key { fragment, .. } => spec_svg_marked_fragment(fragment),
        BlockView::Snippet { body, .. } => spec_svg_marked_fragment(body),
    }
}

pub open spec fn spec_svg_marked_nodes(ns: Seq<FragmentNodeView>, i: int) -> bool
    decreases ns, ns.len() - i,
{
    if i < 0 || i >= ns.len() {
        true
    } else {
        spec_svg_marked_node(ns[i]) && spec_svg_marked_nodes(ns, i + 1)
    }
}

pub open spec fn spec_svg_marked_fragment(f: FragmentView) -> bool
    decreases f, 2int,
{
    spec_svg_marked_nodes(f.nodes, 0)
}

/// The collection pass establishes the svg discipline for anything
/// collected under the svg namespace.
#[verifier::rlimit(100)]
pub proof fn lemma_collect_element_svg(e: ElementView, scoped: bool, st: StateView)
    ensures
        spec_svg_marked_element(spec_collect_element(e, Namespace::Svg, scoped, st).0),
    decreases e, 0int,
{
    let r = spec_collect_element(e, Namespace::Svg, scoped, st);
    let cls = if e.kind == ElementKind::RegularElement {
        match e.name {
            Option::Some(n) => spec_classify_tag(n, Namespace::Svg),
            Option::None => (Namespace::Svg, Namespace::Svg, false),
        }
    } else {
        (Namespace::Svg, Namespace::Svg, false)
    };
    let st1 = if cls.2 {
        crate::scope::spec_add_diagnostic(
            st,
            crate::binding::DiagnosticView::NamespaceConflict(
                crate::binding::NamespaceConflict { span: e.span, found: cls.0, ancestor: Namespace::Svg },
            ),
        )
    } else {
        st
    };
    let st2 = match e.expression {
        Option::Some(x) => spec_resolve_expr(x, crate::collect::no_shadow(), st1).1,
        Option::None => st1,
    };
    let st3 = spec_collect_attributes(e.attributes, 0, st2).1;
    if cls.1 == Namespace::Svg {
        lemma_collect_fragment_svg(e.fragment, scoped, st3);
    }
}

#[verifier::rlimit(100)]
pub proof fn lemma_collect_block_svg(b: BlockView, scoped: bool, st: StateView)
    ensures
        spec_svg_marked_block(spec_collect_block(b, Namespace::Svg, scoped, st).0),
    decreases b, 0int,
{
    match b {
        BlockView::Each { span, expression, context, body, fallback, index, key, metadata } => {
            let (iter_deps, st1) = spec_resolve_expr(expression, crate::collect::no_shadow(), st);
            let iter_info = match crate::collect::spec_bind_path(expression) {
                Option::Some(rp) => match spec_lookup_frames(st1.frames, rp.0) {
                    Option::Some(bid) => (Option::Some(bid), rp.1),
                    Option::None => (Option::<BindingId>::None, Seq::<Seq<char>>::empty()),
                },
                Option::None => (Option::<BindingId>::None, Seq::<Seq<char>>::empty()),
            };
            let st2 = crate::scope::spec_push_frame(st1);
            let (item_ids, st3) = crate::collect::spec_declare_pattern(
                context,
                BindingKind::Each,
                crate::binding::DeclarationKind::Let,
                Option::Some(crate::binding::InitialValueKind::EachItem),
                false,
                st2,
            );
            let idx = match index {
                Option::Some(ix) => {
                    let (st4, ib) = crate::collect::spec_declare_one(
                        ix,
                        BindingKind::Each,
                        crate::binding::DeclarationKind::Let,
                        Option::Some(crate::binding::InitialValueKind::EachIndex),
                        Option::None,
                        st3,
                    );
                    (st4, Option::Some(ib))
                },
                Option::None => (st3, Option::<BindingId>::None),
            };
            let declarations = match idx.1 {
                Option::Some(ib) => item_ids.push(ib),
                Option::None => item_ids,
            };
            let (st5, blk) = crate::scope::spec_push_block(
                idx.0,
                declarations,
                iter_info.0,
                iter_info.1,
                key is Some,
            );
            let st6 = match key {
                Option::Some(k) => spec_resolve_expr(k, crate::collect::no_shadow(), st5).1,
                Option::None => st5,
            };
            lemma_collect_nodes_svg(body.nodes, 0, scoped, st6);
            let (body_nodes, st7) = crate::collect::spec_collect_nodes(
                body.nodes,
                0,
                Namespace::Svg,
                scoped,
                st6,
            );
            let st8 = crate::scope::spec_pop_block(st7);
            let st9 = crate::scope::spec_pop_frame(st8);
            match fallback {
                Option::Some(f) => {
                    lemma_collect_fragment_svg(f, scoped, st9);
                },
                Option::None => {},
            }
        },
        BlockView::If { span, elseif, test, consequent, alternate } => {
            let st1 = spec_resolve_expr(test, crate::collect::no_shadow(), st).1;
            lemma_collect_fragment_svg(consequent, scoped, st1);
            let (c2, st2) = spec_collect_fragment(consequent, Namespace::Svg, scoped, st1);
            match alternate {
                Option::Some(a) => {
                    lemma_collect_fragment_svg(a, scoped, st2);
                },
                Option::None => {},
            }
        },
        BlockView::Await { span, expression, value, error, pending, then_fragment, catch_fragment } => {
            let st1 = spec_resolve_expr(expression, crate::collect::no_shadow(), st).1;
            let p = match pending {
                Option::Some(f) => {
                    lemma_collect_fragment_svg(f, scoped, st1);
                    let (f2, s) = spec_collect_fragment(f, Namespace::Svg, scoped, st1);
                    (Option::Some(f2), s)
                },
                Option::None => (Option::<crate::views::FragmentView>::None, st1),
            };
            let t = match then_fragment {
                Option::Some(f) => {
                    lemma_collect_fragment_svg(f, scoped, p.1);
                    let (f2, s) = spec_collect_fragment(f, Namespace::Svg, scoped, p.1);
                    (Option::Some(f2), s)
                },
                Option::None => (Option::<crate::views::FragmentView>::None, p.1),
            };
            match catch_fragment {
                Option::Some(f) => {
                    lemma_collect_fragment_svg(f, scoped, t.1);
                },
                Option::None => {},
            }
        },
        BlockView::Key { span, expression, fragment } => {
            let st1 = spec_resolve_expr(expression, crate::collect::no_shadow(), st).1;
            lemma_collect_fragment_svg(fragment, scoped, st1);
        },
        BlockView::Snippet { span, expression, parameters, body } => {
            let (st1, _bid) = crate::collect::spec_declare_one(
                expression,
                BindingKind::Normal,
                crate::binding::DeclarationKind::Function,
                Option::Some(crate::binding::InitialValueKind::Function),
                Option::None,
                st,
            );
            let st2 = crate::scope::spec_push_frame(st1);
            let st3 = crate::collect::spec_declare_patterns(parameters, 0, st2);
            lemma_collect_nodes_svg(body.nodes, 0, scoped, st3);
        },
    }
}

pub proof fn lemma_collect_node_svg(n: FragmentNodeView, scoped: bool, st: StateView)
    ensures
        spec_svg_marked_node(spec_collect_node(n, Namespace::Svg, scoped, st).0),
    decreases n, 1int,
{
    match n {
        FragmentNodeView::Text(_) => {},
        FragmentNodeView::Tag(_) => {},
        FragmentNodeView::Element(e) => {
            lemma_collect_element_svg(*e, scoped, st);
        },
        FragmentNodeView::Block(b) => {
            lemma_collect_block_svg(*b, scoped, st);
        },
    }
}

pub proof fn lemma_collect_nodes_svg(ns: Seq<FragmentNodeView>, i: int, scoped: bool, st: StateView)
    ensures
        spec_svg_marked_nodes(spec_collect_nodes(ns, i, Namespace::Svg, scoped, st).0, 0),
    decreases ns, ns.len() - i,
{
    if i < 0 || i >= ns.len() {
    } else {
        lemma_collect_node_svg(ns[i], scoped, st);
        let (n1, st1) = spec_collect_node(ns[i], Namespace::Svg, scoped, st);
        lemma_collect_nodes_svg(ns, i + 1, scoped, st1);
        let (rest, _st2) = spec_collect_nodes(ns, i + 1, Namespace::Svg, scoped, st1);
        lemma_svg_marked_nodes_cons(n1, rest);
    }
}

/// Prepending a marked node to marked nodes keeps them marked.
pub proof fn lemma_svg_marked_nodes_cons(n: FragmentNodeView, rest: Seq<FragmentNodeView>)
    requires
        spec_svg_marked_node(n),
        spec_svg_marked_nodes(rest, 0),
    ensures
        spec_svg_marked_nodes(seq![n] + rest, 0),
{
    lemma_svg_marked_nodes_shift(seq![n] + rest, rest, 1);
    assert((seq![n] + rest)[0] == n);
}

pub proof fn lemma_svg_marked_nodes_shift(a: Seq<FragmentNodeView>, rest: Seq<FragmentNodeView>, i: int)
    requires
        1 <= i <= a.len(),
        a.len() == rest.len() + 1,
        forall|j: int| 0 <= j < rest.len() ==> a[j + 1] == rest[j],
        spec_svg_marked_nodes(rest, 0),
    ensures
        spec_svg_marked_nodes(a, i),
    decreases a.len() - i,
{
    if i < a.len() {
        lemma_svg_marked_nodes_tail(rest, i - 1);
        assert(a[i] == rest[i - 1]);
        lemma_svg_marked_nodes_shift(a, rest, i + 1);
    }
}

/// A marked node list is marked from any later start.
pub proof fn lemma_svg_marked_nodes_tail(ns: Seq<FragmentNodeView>, k: int)
    requires
        0 <= k < ns.len(),
        spec_svg_marked_nodes(ns, 0),
    ensures
        spec_svg_marked_node(ns[k]),
    decreases k,
{
    if k > 0 {
        lemma_svg_marked_nodes_suffix(ns, 0, k);
    }
}

pub proof fn lemma_svg_marked_nodes_suffix(ns: Seq<FragmentNodeView>, i: int, k: int)
    requires
        0 <= i <= k < ns.len(),
        spec_svg_marked_nodes(ns, i),
    ensures
        spec_svg_marked_node(ns[k]),
    decreases k - i,
{
    if i < k {
        lemma_svg_marked_nodes_suffix(ns, i + 1, k);
    }
}

pub proof fn lemma_collect_fragment_svg(f: FragmentView, scoped: bool, st: StateView)
    ensures
        spec_svg_marked_fragment(spec_collect_fragment(f, Namespace::Svg, scoped, st).0),
    decreases f, 2int,
{
    lemma_collect_nodes_svg(f.nodes, 0, scoped, crate::scope::spec_push_frame(st));
}

/// The taint pass changes no namespace flag and no tree shape, so it
/// preserves the svg discipline.
pub proof fn lemma_taint_element_svg(e: ElementView, bs: Seq<BindingView>)
    requires
        spec_svg_marked_element(e),
    ensures
        spec_svg_marked_element(crate::taint::spec_taint_element(e, bs)),
    decreases e, 0int,
{
    if spec_svg_child_ns(e) {
        lemma_taint_fragment_svg(e.fragment, bs);
    }
}

pub proof fn lemma_taint_block_svg(b: BlockView, bs: Seq<BindingView>)
    requires
        spec_svg_marked_block(b),
    ensures
        spec_svg_marked_block(crate::taint::spec_taint_block(b, bs)),
    decreases b, 0int,
{
    match b {
        BlockView::Each { body, fallback, .. } => {
            lemma_taint_fragment_svg(body, bs);
            match fallback {
                Option::Some(f) => lemma_taint_fragment_svg(f, bs),
                Option::None => {},
            }
        },
        BlockView::If { consequent, alternate, .. } => {
            lemma_taint_fragment_svg(consequent, bs);
            match alternate {
                Option::Some(f) => lemma_taint_fragment_svg(f, bs),
                Option::None => {},
            }
        },
        BlockView::Await { pending, then_fragment, catch_fragment, .. } => {
            match pending {
                Option::Some(f) => lemma_taint_fragment_svg(f, bs),
                Option::None => {},
            }
            match then_fragment {
                Option::Some(f) => lemma_taint_fragment_svg(f, bs),
                Option::None => {},
            }
            match catch_fragment {
                Option::Some(f) => lemma_taint_fragment_svg(f, bs),
                Option::None => {},
            }
        },
        BlockView::Key { fragment, .. } => {
            lemma_taint_fragment_svg(fragment, bs);
        },
        BlockView::Snippet { body, .. } => {
            lemma_taint_fragment_svg(body, bs);
        },
    }
}

pub proof fn lemma_taint_node_svg(n: FragmentNodeView, bs: Seq<BindingView>)
    requires
        spec_svg_marked_node(n),
    ensures
        spec_svg_marked_node(crate::taint::spec_taint_node(n, bs)),
    decreases n, 1int,
{
    match n {
        FragmentNodeView::Text(_) => {},
        FragmentNodeView::Tag(_) => {},
        FragmentNodeView::Element(e) => {
            lemma_taint_element_svg(*e, bs);
        },
        FragmentNodeView::Block(b) => {
            lemma_taint_block_svg(*b, bs);
        },
    }
}

pub proof fn lemma_taint_nodes_svg(ns: Seq<FragmentNodeView>, i: int, bs: Seq<BindingView>)
    requires
        spec_svg_marked_nodes(ns, i),
    ensures
        spec_svg_marked_nodes(crate::taint::spec_taint_nodes(ns, i, bs), 0),
    decreases ns, ns.len() - i,
{
    if i < 0 || i >= ns.len() {
    } else {
        lemma_taint_node_svg(ns[i], bs);
        lemma_taint_nodes_svg(ns, i + 1, bs);
        lemma_svg_marked_nodes_cons(
            crate::taint::spec_taint_node(ns[i], bs),
            crate::taint::spec_taint_nodes(ns, i + 1, bs),
        );
    }
}

pub proof fn lemma_taint_fragment_svg(f: FragmentView, bs: Seq<BindingView>)
    requires
        spec_svg_marked_fragment(f),
    ensures
        spec_svg_marked_fragment(crate::taint::spec_taint_fragment(f, bs)),
    decreases f, 2int,
{
    lemma_taint_nodes_svg(f.nodes, 0, bs);
}

/// Inside an `<svg>` subtree — any fragment analyzed under the svg
/// namespace — every regular element's svg flag says exactly whether
/// the classifier kept it in the svg namespace, every dynamic-tag
/// element is marked svg, and the discipline holds down to any nested
/// `foreignObject` boundary, which switches its children back to the
/// host namespace.
pub proof fn lemma_svg_subtree_marked(
    f: FragmentView,
    scoped: bool,
    st: StateView,
    bs: Seq<BindingView>,
)
    ensures
        spec_svg_marked_fragment(
            crate::taint::spec_taint_fragment(
                spec_collect_fragment(f, Namespace::Svg, scoped, st).0,
                bs,
            ),
        ),
{
    lemma_collect_fragment_svg(f, scoped, st);
    lemma_taint_fragment_svg(spec_collect_fragment(f, Namespace::Svg, scoped, st).0, bs);
}

/// Searching a table extended by one entry finds what it found
/// before, or the new entry when it matches and nothing earlier did.
pub proof fn lemma_find_group_push(
    gs: Seq<BindingGroupView>,
    x: BindingGroupView,
    root: BindingId,
    path: Seq<Seq<char>>,
    i: int,
)
    requires
        0 <= i <= gs.len(),
        gs.len() < usize::MAX,
    ensures
        spec_find_group(gs.push(x), root, path, i) == (match spec_find_group(gs, root, path, i) {
            Option::Some(g) => Option::Some(g),
            Option::None => {
                if x.binding == root && x.keys == path {
                    Option::Some(crate::binding::BindingGroupId(gs.len() as usize))
                } else {
                    Option::<crate::binding::BindingGroupId>::None
                }
            },
        }),
    decreases gs.len() - i,
{
    assert(gs.push(x).len() == gs.len() + 1);
    if i < gs.len() {
        assert(gs.push(x)[i] == gs[i]);
        lemma_find_group_push(gs, x, root, path, i + 1);
    } else {
        assert(gs.push(x)[i] == x);
    }
}

} // verus!
