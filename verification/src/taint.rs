//! The taint pass: the second of the analysis' two passes.
//!
//! It only reads the binding table the collection pass accumulated —
//! never writes it — and fills the remaining metadata: for every
//! expression-bearing node, whether it contains a call expression and
//! whether it is dynamic.  An expression is dynamic exactly when it
//! contains a call expression, or depends on a binding of a reactive
//! kind, or depends on a binding mutated or reassigned anywhere in the
//! component — which is why this pass must run after the whole tree
//! was collected.

use vstd::prelude::*;
use crate::ast::{
    Attribute, AttributeSequenceValue, AttributeValue, AwaitBlock, Block, ClassDirective,
    Component, ConstTag, DebugTag, DirectiveAttribute, EachBlock, Element, ElementAttribute,
    ExpressionTag, ExpressionTagFlags, Fragment, FragmentNode, HtmlTag, IfBlock, KeyBlock,
    RegularElement, RenderTag, SlotElement, SnippetBlock, SpreadAttribute, StyleDirective,
    SvelteBody, SvelteComponent, SvelteDocument, SvelteElement, SvelteFragment, SvelteHead,
    SvelteOptionsRaw, SvelteSelf, SvelteWindow, Tag, TitleElement,
};
use crate::binding::{
    Binding, BindingId, BindingView, binding_taints, bindings_view, spec_binding_taints,
};
use crate::collect::{clone_opt_expression, clone_text};
use crate::expression::{
    ExpressionView, clone_call, clone_expression, clone_identifier, clone_identifiers,
    spec_contains_call, contains_call,
};
use crate::scope::{copy_binding_ids, copy_strings, copy_vec};
use crate::views::{
    AttributeSequenceValueView, AttributeValueView, AttributeView, BlockView, DirectiveView,
    ElementAttributeView, ElementView, ExpressionTagView, FragmentNodeView, FragmentView, TagView,
    attr_seq_value_view, attr_seq_values_view, attribute_view, attr_value_view, block_view,
    directive_view, element_attribute_view, element_attributes_view, element_view,
    expression_tag_view, fragment_view, lemma_nodes_view, node_view, nodes_view,
    opt_attr_value_view, tag_view,
};

verus! {

/// Whether any of the dependencies `deps[i..]` is a binding whose
/// reference makes an expression dynamic.
pub open spec fn spec_deps_dynamic(deps: Seq<BindingId>, bs: Seq<BindingView>, i: int) -> bool
    decreases deps.len() - i,
{
    if i < 0 || i >= deps.len() {
        false
    } else {
        (deps[i].0 < bs.len() && spec_binding_taints(bs[deps[i].0 as int]))
            || spec_deps_dynamic(deps, bs, i + 1)
    }
}

/// The flags of one expression slot: it contains a call exactly when
/// the expression syntactically does, and it is dynamic exactly when
/// it contains a call or depends on a tainting binding.
pub open spec fn spec_taint_flags(
    e: ExpressionView,
    deps: Seq<BindingId>,
    bs: Seq<BindingView>,
) -> ExpressionTagFlags {
    let cc = spec_contains_call(e);
    ExpressionTagFlags { dynamic: cc || spec_deps_dynamic(deps, bs, 0), call_expression: cc }
}

pub open spec fn spec_taint_expression_tag(t: ExpressionTagView, bs: Seq<BindingView>) -> ExpressionTagView {
    ExpressionTagView {
        flags: Option::Some(spec_taint_flags(t.expression, t.dependencies, bs)),
        ..t
    }
}

pub open spec fn spec_taint_seq_value(
    v: AttributeSequenceValueView,
    bs: Seq<BindingView>,
) -> AttributeSequenceValueView {
    match v {
        AttributeSequenceValueView::Text(t) => AttributeSequenceValueView::Text(t),
        AttributeSequenceValueView::ExpressionTag(t) => AttributeSequenceValueView::ExpressionTag(
            spec_taint_expression_tag(t, bs),
        ),
    }
}

pub open spec fn spec_taint_attr_seq(
    vs: Seq<AttributeSequenceValueView>,
    i: int,
    bs: Seq<BindingView>,
) -> Seq<AttributeSequenceValueView>
    decreases vs.len() - i,
{
    if i < 0 || i >= vs.len() {
        Seq::<AttributeSequenceValueView>::empty()
    } else {
        seq![spec_taint_seq_value(vs[i], bs)] + spec_taint_attr_seq(vs, i + 1, bs)
    }
}

/// Whether any tainted part of an attribute value is dynamic: the OR
/// that attribute sequences inherit from their constituents.
pub open spec fn spec_seq_any_dynamic(vs: Seq<AttributeSequenceValueView>, i: int) -> bool
    decreases vs.len() - i,
{
    if i < 0 || i >= vs.len() {
        false
    } else {
        (match vs[i] {
            AttributeSequenceValueView::Text(_) => false,
            AttributeSequenceValueView::ExpressionTag(t) => match t.flags {
                Option::Some(f) => f.dynamic,
                Option::None => false,
            },
        }) || spec_seq_any_dynamic(vs, i + 1)
    }
}

pub open spec fn spec_taint_opt_value(
    v: Option<AttributeValueView>,
    bs: Seq<BindingView>,
) -> Option<AttributeValueView> {
    match v {
        Option::Some(av) => Option::Some(
            AttributeValueView { span: av.span, sequence: spec_taint_attr_seq(av.sequence, 0, bs) },
        ),
        Option::None => Option::None,
    }
}

pub open spec fn spec_taint_directive(d: DirectiveView, bs: Seq<BindingView>) -> DirectiveView {
    match d.kind {
        crate::views::DirectiveKind::Class => {
            let dynamic = match d.expression {
                Option::Some(e) => spec_taint_flags(e, d.dependencies, bs).dynamic,
                Option::None => false,
            };
            DirectiveView { dynamic: Option::Some(dynamic), ..d }
        },
        crate::views::DirectiveKind::Style => {
            let v2 = spec_taint_opt_value(d.value, bs);
            let dynamic = match v2 {
                Option::Some(av) => spec_seq_any_dynamic(av.sequence, 0),
                Option::None => false,
            };
            DirectiveView { value: v2, dynamic: Option::Some(dynamic), ..d }
        },
        _ => d,
    }
}

pub open spec fn spec_taint_element_attribute(
    a: ElementAttributeView,
    bs: Seq<BindingView>,
) -> ElementAttributeView {
    match a {
        ElementAttributeView::Attribute(x) => ElementAttributeView::Attribute(
            AttributeView { span: x.span, name: x.name, value: spec_taint_opt_value(
                x.value,
                bs,
            ) },
        ),
        ElementAttributeView::SpreadAttribute(sp) => ElementAttributeView::SpreadAttribute(
            crate::views::SpreadAttributeView {
                span: sp.span,
                expression: sp.expression,
                flags: Option::Some(spec_taint_flags(sp.expression, sp.dependencies, bs)),
                dependencies: sp.dependencies,
            },
        ),
        ElementAttributeView::DirectiveAttribute(dv) => ElementAttributeView::DirectiveAttribute(
            spec_taint_directive(dv, bs),
        ),
    }
}

pub open spec fn spec_taint_attributes(
    attrs: Seq<ElementAttributeView>,
    i: int,
    bs: Seq<BindingView>,
) -> Seq<ElementAttributeView>
    decreases attrs.len() - i,
{
    if i < 0 || i >= attrs.len() {
        Seq::<ElementAttributeView>::empty()
    } else {
        seq![spec_taint_element_attribute(attrs[i], bs)] + spec_taint_attributes(attrs, i + 1, bs)
    }
}

pub open spec fn spec_taint_tag(t: TagView, bs: Seq<BindingView>) -> TagView {
    match t {
        TagView::Expression(et) => TagView::Expression(spec_taint_expression_tag(et, bs)),
        _ => t,
    }
}

pub open spec fn spec_taint_element(e: ElementView, bs: Seq<BindingView>) -> ElementView
    decreases e, 0int,
{
    ElementView {
        attributes: spec_taint_attributes(e.attributes, 0, bs),
        fragment: spec_taint_fragment(e.fragment, bs),
        ..e
    }
}

pub open spec fn spec_taint_block(b: BlockView, bs: Seq<BindingView>) -> BlockView
    decreases b, 0int,
{
    match b {
        BlockView::Each { span, expression, context, body, fallback, index, key, metadata } => BlockView::Each {
            span,
            expression,
            context,
            body: spec_taint_fragment(body, bs),
            fallback: match fallback {
                Option::Some(f) => Option::Some(spec_taint_fragment(f, bs)),
                Option::None => Option::None,
            },
            index,
            key,
            metadata,
        },
        BlockView::If { span, elseif, test, consequent, alternate } => BlockView::If {
            span,
            elseif,
            test,
            consequent: spec_taint_fragment(consequent, bs),
            alternate: match alternate {
                Option::Some(f) => Option::Some(spec_taint_fragment(f, bs)),
                Option::None => Option::None,
            },
        },
        BlockView::Await { span, expression, value, error, pending, then_fragment, catch_fragment } => BlockView::Await {
            span,
            expression,
            value,
            error,
            pending: match pending {
                Option::Some(f) => Option::Some(spec_taint_fragment(f, bs)),
                Option::None => Option::None,
            },
            then_fragment: match then_fragment {
                Option::Some(f) => Option::Some(spec_taint_fragment(f, bs)),
                Option::None => Option::None,
            },
            catch_fragment: match catch_fragment {
                Option::Some(f) => Option::Some(spec_taint_fragment(f, bs)),
                Option::None => Option::None,
            },
        },
        BlockView::Key { span, expression, fragment } => BlockView::Key {
            span,
            expression,
            fragment: spec_taint_fragment(fragment, bs),
        },
        BlockView::Snippet { span, expression, parameters, body } => BlockView::Snippet {
            span,
            expression,
            parameters,
            body: spec_taint_fragment(body, bs),
        },
    }
}

pub open spec fn spec_taint_node(n: FragmentNodeView, bs: Seq<BindingView>) -> FragmentNodeView
    decreases n, 0int,
{
    match n {
        FragmentNodeView::Text(t) => FragmentNodeView::Text(t),
        FragmentNodeView::Tag(t) => FragmentNodeView::Tag(spec_taint_tag(t, bs)),
        FragmentNodeView::Element(e) => FragmentNodeView::Element(
            Box::new(spec_taint_element(*e, bs)),
        ),
        FragmentNodeView::Block(b) => FragmentNodeView::Block(Box::new(spec_taint_block(*b, bs))),
    }
}

pub open spec fn spec_taint_nodes(
    ns: Seq<FragmentNodeView>,
    i: int,
    bs: Seq<BindingView>,
) -> Seq<FragmentNodeView>
    decreases ns, ns.len() - i,
{
    if i < 0 || i >= ns.len() {
        Seq::<FragmentNodeView>::empty()
    } else {
        seq![spec_taint_node(ns[i], bs)] + spec_taint_nodes(ns, i + 1, bs)
    }
}

pub open spec fn spec_taint_fragment(f: FragmentView, bs: Seq<BindingView>) -> FragmentView
    decreases f, 1int,
{
    FragmentView { nodes: spec_taint_nodes(f.nodes, 0, bs), transparent: f.transparent }
}

/// Executable form of `spec_deps_dynamic`.
pub fn deps_dynamic(deps: &Vec<BindingId>, bs: &Vec<Binding>, i: usize) -> (r: bool)
    ensures
        r == spec_deps_dynamic(deps@, bindings_view(bs@), i as int),
    decreases deps@.len() - i,
{
    if i >= deps.len() {
        false
    } else {
        let d = deps[i];
        let here = d.0 < bs.len() && binding_taints(&bs[d.0]);
        here || deps_dynamic(deps, bs, i + 1)
    }
}

/// Executable form of `spec_taint_expression_tag`.
pub fn taint_expression_tag(t: &ExpressionTag, bs: &Vec<Binding>) -> (r: ExpressionTag)
    ensures
        expression_tag_view(r) == spec_taint_expression_tag(
            expression_tag_view(*t),
            bindings_view(bs@),
        ),
{
    let cc = contains_call(&t.expression);
    let dynamic = cc || deps_dynamic(&t.dependencies, bs, 0);
    ExpressionTag {
        span: t.span,
        expression: clone_expression(&t.expression),
        flags: Option::Some(ExpressionTagFlags { dynamic, call_expression: cc }),
        dependencies: copy_binding_ids(&t.dependencies),
    }
}

/// Executable form of `spec_taint_attr_seq`.
pub fn taint_attr_seq(vs: &Vec<AttributeSequenceValue>, i: usize, bs: &Vec<Binding>) -> (r: Vec<
    AttributeSequenceValue,
>)
    requires
        i <= vs@.len(),
    ensures
        attr_seq_values_view(r@) == spec_taint_attr_seq(
            attr_seq_values_view(vs@),
            i as int,
            bindings_view(bs@),
        ),
    decreases vs@.len() - i,
{
    if i >= vs.len() {
        let r: Vec<AttributeSequenceValue> = Vec::new();
        proof {
            assert(attr_seq_values_view(r@) =~= Seq::<AttributeSequenceValueView>::empty());
        }
        r
    } else {
        let v1 = match &vs[i] {
            AttributeSequenceValue::Text(t) => AttributeSequenceValue::Text(clone_text(t)),
            AttributeSequenceValue::ExpressionTag(t) => AttributeSequenceValue::ExpressionTag(
                taint_expression_tag(t, bs),
            ),
        };
        let mut rest = taint_attr_seq(vs, i + 1, bs);
        let ghost rest0 = rest@;
        rest.insert(0, v1);
        proof {
            assert(attr_seq_values_view(rest@) =~= seq![
                attr_seq_value_view(rest@[0]),
            ] + attr_seq_values_view(rest0));
        }
        rest
    }
}

/// Whether any tainted part of the sequence is dynamic.
pub fn seq_any_dynamic(vs: &Vec<AttributeSequenceValue>, i: usize) -> (r: bool)
    ensures
        r == spec_seq_any_dynamic(attr_seq_values_view(vs@), i as int),
    decreases vs@.len() - i,
{
    if i >= vs.len() {
        false
    } else {
        let here = match &vs[i] {
            AttributeSequenceValue::Text(_) => false,
            AttributeSequenceValue::ExpressionTag(t) => match &t.flags {
                Option::Some(f) => f.dynamic,
                Option::None => false,
            },
        };
        here || seq_any_dynamic(vs, i + 1)
    }
}

/// Executable form of `spec_taint_opt_value`.
pub fn taint_opt_value(v: &Option<AttributeValue>, bs: &Vec<Binding>) -> (r: Option<
    AttributeValue,
>)
    ensures
        opt_attr_value_view(r) == spec_taint_opt_value(
            opt_attr_value_view(*v),
            bindings_view(bs@),
        ),
{
    match v {
        Option::Some(av) => Option::Some(
            AttributeValue { span: av.span, sequence: taint_attr_seq(&av.sequence, 0, bs) },
        ),
        Option::None => Option::None,
    }
}

/// Executable form of `spec_taint_directive`.
pub fn taint_directive(d: &DirectiveAttribute, bs: &Vec<Binding>) -> (r: DirectiveAttribute)
    ensures
        directive_view(r) == spec_taint_directive(directive_view(*d), bindings_view(bs@)),
{
    match d {
        DirectiveAttribute::ClassDirective(x) => {
            let cc = contains_call(&x.expression);
            let dynamic = cc || deps_dynamic(&x.dependencies, bs, 0);
            DirectiveAttribute::ClassDirective(
                ClassDirective {
                    span: x.span,
                    name: x.name.clone(),
                    expression: clone_expression(&x.expression),
                    dynamic: Option::Some(dynamic),
                    dependencies: copy_binding_ids(&x.dependencies),
                },
            )
        },
        DirectiveAttribute::StyleDirective(x) => {
            let v2 = taint_opt_value(&x.value, bs);
            let dynamic = match &v2 {
                Option::Some(av) => seq_any_dynamic(&av.sequence, 0),
                Option::None => false,
            };
            DirectiveAttribute::StyleDirective(
                StyleDirective {
                    span: x.span,
                    name: x.name.clone(),
                    value: v2,
                    modifiers: copy_vec(&x.modifiers),
                    dynamic: Option::Some(dynamic),
                    dependencies: copy_binding_ids(&x.dependencies),
                },
            )
        },
        DirectiveAttribute::BindDirective(x) => {
            DirectiveAttribute::BindDirective(
                crate::ast::BindDirective {
                    span: x.span,
                    name: x.name.clone(),
                    expression: match &x.expression {
                        crate::ast::BindDirectiveExpression::Identifier(i) => crate::ast::BindDirectiveExpression::Identifier(
                            clone_identifier(i),
                        ),
                        crate::ast::BindDirectiveExpression::MemberExpression(m) => crate::ast::BindDirectiveExpression::MemberExpression(
                            crate::expression::clone_member(m),
                        ),
                    },
                    binding_group_name: x.binding_group_name,
                    parent_block: x.parent_block,
                },
            )
        },
        DirectiveAttribute::AnimateDirective(x) => DirectiveAttribute::AnimateDirective(
            crate::ast::AnimateDirective {
                span: x.span,
                name: x.name.clone(),
                expression: clone_opt_expression(&x.expression),
            },
        ),
        DirectiveAttribute::LetDirective(x) => DirectiveAttribute::LetDirective(
            crate::ast::LetDirective {
                span: x.span,
                name: x.name.clone(),
                expression: match &x.expression {
                    Option::Some(e) => Option::Some(crate::collect::clone_let_expression(e)),
                    Option::None => Option::None,
                },
            },
        ),
        DirectiveAttribute::OnDirective(x) => DirectiveAttribute::OnDirective(
            crate::ast::OnDirective {
                span: x.span,
                name: x.name.clone(),
                expression: clone_opt_expression(&x.expression),
                modifiers: copy_strings(&x.modifiers),
            },
        ),
        DirectiveAttribute::TransitionDirective(x) => DirectiveAttribute::TransitionDirective(
            crate::ast::TransitionDirective {
                span: x.span,
                name: x.name.clone(),
                expression: clone_opt_expression(&x.expression),
                modifiers: copy_vec(&x.modifiers),
                intro: x.intro,
                outro: x.outro,
            },
        ),
        DirectiveAttribute::UseDirective(x) => DirectiveAttribute::UseDirective(
            crate::ast::UseDirective {
                span: x.span,
                name: x.name.clone(),
                expression: clone_opt_expression(&x.expression),
            },
        ),
    }
}

/// Executable form of `spec_taint_attributes`.
pub fn taint_attributes(attrs: &Vec<ElementAttribute>, i: usize, bs: &Vec<Binding>) -> (r: Vec<
    ElementAttribute,
>)
    requires
        i <= attrs@.len(),
    ensures
        element_attributes_view(r@) == spec_taint_attributes(
            element_attributes_view(attrs@),
            i as int,
            bindings_view(bs@),
        ),
    decreases attrs@.len() - i,
{
    if i >= attrs.len() {
        let r: Vec<ElementAttribute> = Vec::new();
        proof {
            assert(element_attributes_view(r@) =~= Seq::<ElementAttributeView>::empty());
        }
        r
    } else {
        let a1 = match &attrs[i] {
            ElementAttribute::Attribute(a) => ElementAttribute::Attribute(
                Attribute {
                    span: a.span,
                    name: a.name.clone(),
                    value: taint_opt_value(&a.value, bs),
                },
            ),
            ElementAttribute::SpreadAttribute(sp) => {
                let cc = contains_call(&sp.expression);
                let dynamic = cc || deps_dynamic(&sp.dependencies, bs, 0);
                ElementAttribute::SpreadAttribute(
                    SpreadAttribute {
                        span: sp.span,
                        expression: clone_expression(&sp.expression),
                        flags: Option::Some(
                            ExpressionTagFlags { dynamic, call_expression: cc },
                        ),
                        dependencies: copy_binding_ids(&sp.dependencies),
                    },
                )
            },
            ElementAttribute::DirectiveAttribute(dv) => ElementAttribute::DirectiveAttribute(
                taint_directive(dv, bs),
            ),
        };
        let mut rest = taint_attributes(attrs, i + 1, bs);
        let ghost rest0 = rest@;
        rest.insert(0, a1);
        proof {
            assert(element_attributes_view(rest@) =~= seq![
                element_attribute_view(rest@[0]),
            ] + element_attributes_view(rest0));
        }
        rest
    }
}

/// Executable form of `spec_taint_tag`.
pub fn taint_tag(t: &Tag, bs: &Vec<Binding>) -> (r: Tag)
    ensures
        tag_view(r) == spec_taint_tag(tag_view(*t), bindings_view(bs@)),
{
    match t {
        Tag::ExpressionTag(x) => Tag::ExpressionTag(taint_expression_tag(x, bs)),
        Tag::HtmlTag(x) => Tag::HtmlTag(
            HtmlTag { span: x.span, expression: clone_expression(&x.expression) },
        ),
        Tag::ConstTag(x) => Tag::ConstTag(
            ConstTag { span: x.span, declaration: crate::script::clone_declaration(
                &x.declaration,
            ) },
        ),
        Tag::DebugTag(x) => {
            let ids2 = clone_identifiers(&x.identifiers, 0);
            proof {
                assert(ids2@ =~= x.identifiers@);
            }
            Tag::DebugTag(DebugTag { span: x.span, identifiers: ids2 })
        },
        Tag::RenderTag(x) => Tag::RenderTag(
            RenderTag {
                span: x.span,
                expression: match &x.expression {
                    crate::ast::RenderTagExpression::Call(c) => crate::ast::RenderTagExpression::Call(
                        clone_call(c),
                    ),
                    crate::ast::RenderTagExpression::Chain(c) => crate::ast::RenderTagExpression::Chain(
                        clone_call(c),
                    ),
                },
            },
        ),
    }
}

/// Executable form of `spec_taint_element`.
#[verifier::rlimit(100)]
pub fn taint_element(e: &Element, bs: &Vec<Binding>) -> (r: Element)
    ensures
        element_view(r) == spec_taint_element(element_view(*e), bindings_view(bs@)),
    decreases *e, 0int,
{
    match e {
        Element::Component(x) => Element::Component(
            Component {
                span: x.span,
                name: x.name.clone(),
                attributes: taint_attributes(&x.attributes, 0, bs),
                fragment: taint_fragment(&x.fragment, bs),
            },
        ),
        Element::TitleElement(x) => Element::TitleElement(
            TitleElement {
                span: x.span,
                attributes: taint_attributes(&x.attributes, 0, bs),
                fragment: taint_fragment(&x.fragment, bs),
            },
        ),
        Element::SlotElement(x) => Element::SlotElement(
            SlotElement {
                span: x.span,
                attributes: taint_attributes(&x.attributes, 0, bs),
                fragment: taint_fragment(&x.fragment, bs),
            },
        ),
        Element::RegularElement(x) => Element::RegularElement(
            RegularElement {
                span: x.span,
                name: x.name.clone(),
                attributes: taint_attributes(&x.attributes, 0, bs),
                fragment: taint_fragment(&x.fragment, bs),
                flags: x.flags,
            },
        ),
        Element::SvelteBody(x) => Element::SvelteBody(
            SvelteBody {
                span: x.span,
                attributes: taint_attributes(&x.attributes, 0, bs),
                fragment: taint_fragment(&x.fragment, bs),
            },
        ),
        Element::SvelteComponent(x) => Element::SvelteComponent(
            SvelteComponent {
                span: x.span,
                attributes: taint_attributes(&x.attributes, 0, bs),
                fragment: taint_fragment(&x.fragment, bs),
                expression: clone_expression(&x.expression),
            },
        ),
        Element::SvelteDocument(x) => Element::SvelteDocument(
            SvelteDocument {
                span: x.span,
                attributes: taint_attributes(&x.attributes, 0, bs),
                fragment: taint_fragment(&x.fragment, bs),
            },
        ),
        Element::SvelteElement(x) => Element::SvelteElement(
            SvelteElement {
                span: x.span,
                attributes: taint_attributes(&x.attributes, 0, bs),
                fragment: taint_fragment(&x.fragment, bs),
                expression: clone_expression(&x.expression),
                flags: x.flags,
            },
        ),
        Element::SvelteFragment(x) => Element::SvelteFragment(
            SvelteFragment {
                span: x.span,
                attributes: taint_attributes(&x.attributes, 0, bs),
                fragment: taint_fragment(&x.fragment, bs),
            },
        ),
        Element::SvelteHead(x) => Element::SvelteHead(
            SvelteHead {
                span: x.span,
                attributes: taint_attributes(&x.attributes, 0, bs),
                fragment: taint_fragment(&x.fragment, bs),
            },
        ),
        Element::SvelteOptionsRaw(x) => Element::SvelteOptionsRaw(
            SvelteOptionsRaw {
                span: x.span,
                attributes: taint_attributes(&x.attributes, 0, bs),
                fragment: taint_fragment(&x.fragment, bs),
            },
        ),
        Element::SvelteSelf(x) => Element::SvelteSelf(
            SvelteSelf {
                span: x.span,
                attributes: taint_attributes(&x.attributes, 0, bs),
                fragment: taint_fragment(&x.fragment, bs),
            },
        ),
        Element::SvelteWindow(x) => Element::SvelteWindow(
            SvelteWindow {
                span: x.span,
                attributes: taint_attributes(&x.attributes, 0, bs),
                fragment: taint_fragment(&x.fragment, bs),
            },
        ),
    }
}

/// Executable form of `spec_taint_block`.
#[verifier::rlimit(100)]
pub fn taint_block(b: &Block, bs: &Vec<Binding>) -> (r: Block)
    ensures
        block_view(r) == spec_taint_block(block_view(*b), bindings_view(bs@)),
    decreases *b, 0int,
{
    match b {
        Block::EachBlock(x) => Block::EachBlock(
            EachBlock {
                span: x.span,
                expression: clone_expression(&x.expression),
                context: crate::script::clone_pattern(&x.context),
                body: taint_fragment(&x.body, bs),
                fallback: match &x.fallback {
                    Option::Some(f) => Option::Some(taint_fragment(f, bs)),
                    Option::None => Option::None,
                },
                index: crate::script::clone_opt_identifier(&x.index),
                key: clone_opt_expression(&x.key),
                metadata: clone_opt_metadata(&x.metadata),
            },
        ),
        Block::IfBlock(x) => Block::IfBlock(
            IfBlock {
                span: x.span,
                elseif: x.elseif,
                test: clone_expression(&x.test),
                consequent: taint_fragment(&x.consequent, bs),
                alternate: match &x.alternate {
                    Option::Some(f) => Option::Some(taint_fragment(f, bs)),
                    Option::None => Option::None,
                },
            },
        ),
        Block::AwaitBlock(x) => Block::AwaitBlock(
            AwaitBlock {
                span: x.span,
                expression: clone_expression(&x.expression),
                value: crate::collect::clone_opt_pattern(&x.value),
                error: crate::collect::clone_opt_pattern(&x.error),
                pending: match &x.pending {
                    Option::Some(f) => Option::Some(taint_fragment(f, bs)),
                    Option::None => Option::None,
                },
                then_fragment: match &x.then_fragment {
                    Option::Some(f) => Option::Some(taint_fragment(f, bs)),
                    Option::None => Option::None,
                },
                catch_fragment: match &x.catch_fragment {
                    Option::Some(f) => Option::Some(taint_fragment(f, bs)),
                    Option::None => Option::None,
                },
            },
        ),
        Block::KeyBlock(x) => Block::KeyBlock(
            KeyBlock {
                span: x.span,
                expression: clone_expression(&x.expression),
                fragment: taint_fragment(&x.fragment, bs),
            },
        ),
        Block::SnippetBlock(x) => Block::SnippetBlock(
            SnippetBlock {
                span: x.span,
                expression: clone_identifier(&x.expression),
                parameters: crate::collect::clone_params(&x.parameters),
                body: taint_fragment(&x.body, bs),
            },
        ),
    }
}

/// Copies an `each` block's metadata slot exactly at the view level.
pub fn clone_opt_metadata(m: &Option<crate::ast::EachBlockMetadata>) -> (r: Option<
    crate::ast::EachBlockMetadata,
>)
    ensures
        crate::ast::opt_each_metadata_view(r) == crate::ast::opt_each_metadata_view(*m),
{
    match m {
        Option::Some(x) => Option::Some(
            crate::ast::EachBlockMetadata {
                contains_group_binding: x.contains_group_binding,
                array_name: x.array_name,
                index: x.index,
                item: x.item,
                declarations: copy_binding_ids(&x.declarations),
                references: copy_binding_ids(&x.references),
                is_controlled: x.is_controlled,
            },
        ),
        Option::None => Option::None,
    }
}

/// Executable form of `spec_taint_node`.
pub fn taint_node(n: &FragmentNode, bs: &Vec<Binding>) -> (r: FragmentNode)
    ensures
        node_view(r) == spec_taint_node(node_view(*n), bindings_view(bs@)),
    decreases *n, 1int,
{
    match n {
        FragmentNode::Text(t) => FragmentNode::Text(clone_text(t)),
        FragmentNode::Tag(t) => FragmentNode::Tag(taint_tag(t, bs)),
        FragmentNode::Element(e) => FragmentNode::Element(taint_element(e, bs)),
        FragmentNode::Block(b) => FragmentNode::Block(taint_block(b, bs)),
    }
}

/// Executable form of `spec_taint_nodes`.
pub fn taint_nodes(ns: &Vec<FragmentNode>, i: usize, bs: &Vec<Binding>) -> (r: Vec<FragmentNode>)
    requires
        i <= ns@.len(),
    ensures
        nodes_view(r@) == spec_taint_nodes(nodes_view(ns@), i as int, bindings_view(bs@)),
    decreases ns@, ns@.len() - i,
{
    proof {
        lemma_nodes_view(ns@);
    }
    if i >= ns.len() {
        let r: Vec<FragmentNode> = Vec::new();
        proof {
            lemma_nodes_view(r@);
            assert(nodes_view(r@) =~= Seq::<FragmentNodeView>::empty());
        }
        r
    } else {
        let n1 = taint_node(&ns[i], bs);
        let mut rest = taint_nodes(ns, i + 1, bs);
        let ghost rest0 = rest@;
        rest.insert(0, n1);
        proof {
            lemma_nodes_view(rest@);
            lemma_nodes_view(rest0);
            assert(nodes_view(rest@) =~= seq![node_view(rest@[0])] + nodes_view(rest0));
        }
        rest
    }
}

/// Executable form of `spec_taint_fragment`.
pub fn taint_fragment(f: &Fragment, bs: &Vec<Binding>) -> (r: Fragment)
    ensures
        fragment_view(r) == spec_taint_fragment(fragment_view(*f), bindings_view(bs@)),
    decreases *f, 2int,
{
    Fragment { nodes: taint_nodes(&f.nodes, 0, bs), transparent: f.transparent }
}


/// `spec_taint_attr_seq` maps its element function pointwise.
pub proof fn lemma_taint_attr_seq_pointwise(vs: Seq<AttributeSequenceValueView>, i: int, bs: Seq<BindingView>)
    requires
        0 <= i <= vs.len(),
    ensures
        spec_taint_attr_seq(vs, i, bs).len() == vs.len() - i,
        forall|j: int|
            0 <= j < vs.len() - i ==> spec_taint_attr_seq(vs, i, bs)[j] == spec_taint_seq_value(
                vs[i + j],
                bs,
            ),
    decreases vs.len() - i,
{
    if i < vs.len() {
        lemma_taint_attr_seq_pointwise(vs, i + 1, bs);
    }
}

/// `spec_taint_attributes` maps its element function pointwise.
pub proof fn lemma_taint_attributes_pointwise(attrs: Seq<ElementAttributeView>, i: int, bs: Seq<BindingView>)
    requires
        0 <= i <= attrs.len(),
    ensures
        spec_taint_attributes(attrs, i, bs).len() == attrs.len() - i,
        forall|j: int|
            0 <= j < attrs.len() - i ==> spec_taint_attributes(attrs, i, bs)[j]
                == spec_taint_element_attribute(attrs[i + j], bs),
    decreases attrs.len() - i,
{
    if i < attrs.len() {
        lemma_taint_attributes_pointwise(attrs, i + 1, bs);
    }
}

/// `spec_taint_nodes` maps `spec_taint_node` pointwise.
pub proof fn lemma_taint_nodes_pointwise(ns: Seq<FragmentNodeView>, i: int, bs: Seq<BindingView>)
    requires
        0 <= i <= ns.len(),
    ensures
        spec_taint_nodes(ns, i, bs).len() == ns.len() - i,
        forall|j: int|
            0 <= j < ns.len() - i ==> spec_taint_nodes(ns, i, bs)[j] == spec_taint_node(
                ns[i + j],
                bs,
            ),
    decreases ns.len() - i,
{
    if i < ns.len() {
        lemma_taint_nodes_pointwise(ns, i + 1, bs);
    }
}

} // verus!
