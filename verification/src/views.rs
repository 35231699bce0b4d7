//! Mathematical views of the template tree.
//!
//! Every contract of the analysis speaks of these: names become
//! character sequences, vectors become `Seq`, and the thirteen element
//! shapes collapse into one record tagged with its kind, which keeps
//! the analysis specification uniform without losing any field.

use vstd::prelude::*;
use crate::ast::{
    Attribute, AttributeSequenceValue, AttributeValue, Block, CustomElementExtend,
    CustomElementOptions, CustomElementProp, CustomElementPropEntry, CustomElementPropType,
    CustomElementShadow, DirectiveAttribute, EachBlockMetadataView, Element, ElementAttribute,
    ExpressionTag, ExpressionTagFlags, Fragment, FragmentNode, Namespace, RegularElementFlags,
    RenderTagExpression, Root, Script, ScriptContext, Span, Style, StyleDirectiveModifier,
    StyleSheet, SvelteElementFlags, SvelteOptions, Tag, TextView, TransitionDirectiveModifier,
    opt_each_metadata_view, text_view,
};
use crate::binding::{BindingGroupId, BindingId, BlockId, strings_view};
use crate::expression::{ExpressionView, IdentifierView, call_view, expr_view, ident_view};
use crate::script::{
    BindingPatternView, ProgramView, VariableDeclarationView, declaration_view, idents_full_view,
    opt_expr_view, opt_ident_view, opt_pattern_view, pattern_view, patterns_view, program_view,
};

verus! {

pub struct ExpressionTagView {
    pub span: Span,
    pub expression: ExpressionView,
    pub flags: Option<ExpressionTagFlags>,
    pub dependencies: Seq<BindingId>,
}

pub open spec fn expression_tag_view(t: ExpressionTag) -> ExpressionTagView {
    ExpressionTagView {
        span: t.span,
        expression: expr_view(t.expression),
        flags: t.flags,
        dependencies: t.dependencies@,
    }
}

pub enum TagView {
    Expression(ExpressionTagView),
    Html { span: Span, expression: ExpressionView },
    Const { span: Span, declaration: VariableDeclarationView },
    Debug { span: Span, identifiers: Seq<IdentifierView> },
    Render { span: Span, chain: bool, call: ExpressionView },
}

pub enum AttributeSequenceValueView {
    Text(TextView),
    ExpressionTag(ExpressionTagView),
}

pub open spec fn attr_seq_value_view(v: AttributeSequenceValue) -> AttributeSequenceValueView {
    match v {
        AttributeSequenceValue::Text(t) => AttributeSequenceValueView::Text(text_view(t)),
        AttributeSequenceValue::ExpressionTag(t) => AttributeSequenceValueView::ExpressionTag(
            expression_tag_view(t),
        ),
    }
}

pub open spec fn attr_seq_values_view(vs: Seq<AttributeSequenceValue>) -> Seq<
    AttributeSequenceValueView,
> {
    Seq::new(vs.len(), |i: int| attr_seq_value_view(vs[i]))
}

pub struct AttributeValueView {
    pub span: Span,
    pub sequence: Seq<AttributeSequenceValueView>,
}

pub open spec fn attr_value_view(v: AttributeValue) -> AttributeValueView {
    AttributeValueView { span: v.span, sequence: attr_seq_values_view(v.sequence@) }
}

pub open spec fn opt_attr_value_view(v: Option<AttributeValue>) -> Option<AttributeValueView> {
    match v {
        Option::Some(x) => Option::Some(attr_value_view(x)),
        Option::None => Option::None,
    }
}

pub struct AttributeView {
    pub span: Span,
    pub name: Seq<char>,
    pub value: Option<AttributeValueView>,
}

pub open spec fn attribute_view(a: Attribute) -> AttributeView {
    AttributeView { span: a.span, name: a.name@, value: opt_attr_value_view(a.value) }
}

pub open spec fn attributes_view(attrs: Seq<Attribute>) -> Seq<AttributeView> {
    Seq::new(attrs.len(), |i: int| attribute_view(attrs[i]))
}

pub struct SpreadAttributeView {
    pub span: Span,
    pub expression: ExpressionView,
    pub flags: Option<ExpressionTagFlags>,
    pub dependencies: Seq<BindingId>,
}

/// The eight directive kinds, tagged.
#[derive(Debug, Clone, Copy, PartialEq, Eq, Structural)]
pub enum DirectiveKind {
    Animate,
    Bind,
    Class,
    Let,
    On,
    Style,
    Transition,
    Use,
}

pub enum LetDirectiveExpressionView {
    Identifier(IdentifierView),
    ArrayExpression(ExpressionView),
    ObjectExpression(ExpressionView),
}

/// One record for every directive kind; fields a kind does not use
/// stay empty.
pub struct DirectiveView {
    pub kind: DirectiveKind,
    pub span: Span,
    pub name: Seq<char>,
    /// The directive's expression; for `bind:` the two-way target.
    pub expression: Option<ExpressionView>,
    /// A `let:` directive's destructuring target.
    pub let_expression: Option<LetDirectiveExpressionView>,
    /// A `style:` directive's value sequence.
    pub value: Option<AttributeValueView>,
    pub modifiers: Seq<Seq<char>>,
    pub style_modifiers: Seq<StyleDirectiveModifier>,
    pub transition_modifiers: Seq<TransitionDirectiveModifier>,
    pub intro: bool,
    pub outro: bool,
    pub binding_group_name: Option<BindingGroupId>,
    pub parent_block: Option<BlockId>,
    pub dynamic: Option<bool>,
    pub dependencies: Seq<BindingId>,
}

/// An empty directive record to fill in per kind.
pub open spec fn directive_base(kind: DirectiveKind, span: Span, name: Seq<char>) -> DirectiveView {
    DirectiveView {
        kind,
        span,
        name,
        expression: Option::None,
        let_expression: Option::None,
        value: Option::None,
        modifiers: Seq::empty(),
        style_modifiers: Seq::empty(),
        transition_modifiers: Seq::empty(),
        intro: false,
        outro: false,
        binding_group_name: Option::None,
        parent_block: Option::None,
        dynamic: Option::None,
        dependencies: Seq::empty(),
    }
}

pub open spec fn let_expr_view(e: crate::ast::LetDirectiveExpression) -> LetDirectiveExpressionView {
    match e {
        crate::ast::LetDirectiveExpression::Identifier(i) => LetDirectiveExpressionView::Identifier(
            ident_view(i),
        ),
        crate::ast::LetDirectiveExpression::ArrayExpression(c) => LetDirectiveExpressionView::ArrayExpression(
            expr_view(crate::expression::Expression::Compound(c)),
        ),
        crate::ast::LetDirectiveExpression::ObjectExpression(c) => LetDirectiveExpressionView::ObjectExpression(
            expr_view(crate::expression::Expression::Compound(c)),
        ),
    }
}

pub open spec fn directive_view(d: DirectiveAttribute) -> DirectiveView {
    match d {
        DirectiveAttribute::AnimateDirective(x) => DirectiveView {
            expression: opt_expr_view(x.expression),
            ..directive_base(DirectiveKind::Animate, x.span, x.name@)
        },
        DirectiveAttribute::BindDirective(x) => DirectiveView {
            expression: Option::Some(
                match x.expression {
                    crate::ast::BindDirectiveExpression::Identifier(i) => ExpressionView::Identifier(
                        ident_view(i),
                    ),
                    crate::ast::BindDirectiveExpression::MemberExpression(m) => expr_view(
                        crate::expression::Expression::Member(m),
                    ),
                },
            ),
            binding_group_name: x.binding_group_name,
            parent_block: x.parent_block,
            ..directive_base(DirectiveKind::Bind, x.span, x.name@)
        },
        DirectiveAttribute::ClassDirective(x) => DirectiveView {
            expression: Option::Some(expr_view(x.expression)),
            dynamic: x.dynamic,
            dependencies: x.dependencies@,
            ..directive_base(DirectiveKind::Class, x.span, x.name@)
        },
        DirectiveAttribute::LetDirective(x) => DirectiveView {
            let_expression: match x.expression {
                Option::Some(e) => Option::Some(let_expr_view(e)),
                Option::None => Option::None,
            },
            ..directive_base(DirectiveKind::Let, x.span, x.name@)
        },
        DirectiveAttribute::OnDirective(x) => DirectiveView {
            expression: opt_expr_view(x.expression),
            modifiers: strings_view(x.modifiers@),
            ..directive_base(DirectiveKind::On, x.span, x.name@)
        },
        DirectiveAttribute::StyleDirective(x) => DirectiveView {
            value: opt_attr_value_view(x.value),
            style_modifiers: x.modifiers@,
            dynamic: x.dynamic,
            dependencies: x.dependencies@,
            ..directive_base(DirectiveKind::Style, x.span, x.name@)
        },
        DirectiveAttribute::TransitionDirective(x) => DirectiveView {
            expression: opt_expr_view(x.expression),
            transition_modifiers: x.modifiers@,
            intro: x.intro,
            outro: x.outro,
            ..directive_base(DirectiveKind::Transition, x.span, x.name@)
        },
        DirectiveAttribute::UseDirective(x) => DirectiveView {
            expression: opt_expr_view(x.expression),
            ..directive_base(DirectiveKind::Use, x.span, x.name@)
        },
    }
}

pub enum ElementAttributeView {
    Attribute(AttributeView),
    SpreadAttribute(SpreadAttributeView),
    DirectiveAttribute(DirectiveView),
}

pub open spec fn element_attribute_view(a: ElementAttribute) -> ElementAttributeView {
    match a {
        ElementAttribute::Attribute(x) => ElementAttributeView::Attribute(attribute_view(x)),
        ElementAttribute::SpreadAttribute(x) => ElementAttributeView::SpreadAttribute(
            SpreadAttributeView {
                span: x.span,
                expression: expr_view(x.expression),
                flags: x.flags,
                dependencies: x.dependencies@,
            },
        ),
        ElementAttribute::DirectiveAttribute(x) => ElementAttributeView::DirectiveAttribute(
            directive_view(x),
        ),
    }
}

pub open spec fn element_attributes_view(attrs: Seq<ElementAttribute>) -> Seq<
    ElementAttributeView,
> {
    Seq::new(attrs.len(), |i: int| element_attribute_view(attrs[i]))
}

/// The thirteen element shapes, tagged.
#[derive(Debug, Clone, Copy, PartialEq, Eq, Structural)]
pub enum ElementKind {
    Component,
    TitleElement,
    SlotElement,
    RegularElement,
    SvelteBody,
    SvelteComponent,
    SvelteDocument,
    SvelteElement,
    SvelteFragment,
    SvelteHead,
    SvelteOptionsRaw,
    SvelteSelf,
    SvelteWindow,
}

/// One record for all element shapes; fields a shape does not have
/// stay `None`.
pub struct ElementView {
    pub kind: ElementKind,
    pub span: Span,
    pub name: Option<Seq<char>>,
    pub attributes: Seq<ElementAttributeView>,
    pub fragment: FragmentView,
    pub expression: Option<ExpressionView>,
    pub reg_flags: Option<RegularElementFlags>,
    pub sv_flags: Option<SvelteElementFlags>,
}

pub struct FragmentView {
    pub nodes: Seq<FragmentNodeView>,
    pub transparent: bool,
}

pub enum FragmentNodeView {
    Text(TextView),
    Tag(TagView),
    Element(Box<ElementView>),
    Block(Box<BlockView>),
}

pub enum BlockView {
    Each {
        span: Span,
        expression: ExpressionView,
        context: BindingPatternView,
        body: FragmentView,
        fallback: Option<FragmentView>,
        index: Option<IdentifierView>,
        key: Option<ExpressionView>,
        metadata: Option<EachBlockMetadataView>,
    },
    If {
        span: Span,
        elseif: bool,
        test: ExpressionView,
        consequent: FragmentView,
        alternate: Option<FragmentView>,
    },
    Await {
        span: Span,
        expression: ExpressionView,
        value: Option<BindingPatternView>,
        error: Option<BindingPatternView>,
        pending: Option<FragmentView>,
        then_fragment: Option<FragmentView>,
        catch_fragment: Option<FragmentView>,
    },
    Key { span: Span, expression: ExpressionView, fragment: FragmentView },
    Snippet {
        span: Span,
        expression: IdentifierView,
        parameters: Seq<BindingPatternView>,
        body: FragmentView,
    },
}

pub open spec fn tag_view(t: Tag) -> TagView {
    match t {
        Tag::ExpressionTag(x) => TagView::Expression(expression_tag_view(x)),
        Tag::HtmlTag(x) => TagView::Html { span: x.span, expression: expr_view(x.expression) },
        Tag::ConstTag(x) => TagView::Const { span: x.span, declaration: declaration_view(
            x.declaration,
        ) },
        Tag::DebugTag(x) => TagView::Debug { span: x.span, identifiers: idents_full_view(
            x.identifiers@,
        ) },
        Tag::RenderTag(x) => match x.expression {
            RenderTagExpression::Call(c) => TagView::Render {
                span: x.span,
                chain: false,
                call: call_view(c),
            },
            RenderTagExpression::Chain(c) => TagView::Render {
                span: x.span,
                chain: true,
                call: call_view(c),
            },
        },
    }
}

pub open spec fn fragment_view(f: Fragment) -> FragmentView
    decreases f,
{
    FragmentView { nodes: nodes_view(f.nodes@), transparent: f.transparent }
}

pub open spec fn opt_fragment_view(f: Option<Fragment>) -> Option<FragmentView>
    decreases f,
{
    match f {
        Option::Some(x) => Option::Some(fragment_view(x)),
        Option::None => Option::None,
    }
}

pub open spec fn nodes_view(ns: Seq<FragmentNode>) -> Seq<FragmentNodeView>
    decreases ns,
{
    if ns.len() == 0 {
        Seq::<FragmentNodeView>::empty()
    } else {
        nodes_view(ns.subrange(0, ns.len() - 1)).push(node_view(ns[ns.len() - 1]))
    }
}

pub open spec fn node_view(n: FragmentNode) -> FragmentNodeView
    decreases n,
{
    match n {
        FragmentNode::Text(t) => FragmentNodeView::Text(text_view(t)),
        FragmentNode::Tag(t) => FragmentNodeView::Tag(tag_view(t)),
        FragmentNode::Element(e) => FragmentNodeView::Element(Box::new(element_view(e))),
        FragmentNode::Block(b) => FragmentNodeView::Block(Box::new(block_view(b))),
    }
}

pub open spec fn element_view(e: Element) -> ElementView
    decreases e,
{
    match e {
        Element::Component(x) => ElementView {
            kind: ElementKind::Component,
            span: x.span,
            name: Option::Some(x.name@),
            attributes: element_attributes_view(x.attributes@),
            fragment: fragment_view(x.fragment),
            expression: Option::None,
            reg_flags: Option::None,
            sv_flags: Option::None,
        },
        Element::TitleElement(x) => ElementView {
            kind: ElementKind::TitleElement,
            span: x.span,
            name: Option::None,
            attributes: element_attributes_view(x.attributes@),
            fragment: fragment_view(x.fragment),
            expression: Option::None,
            reg_flags: Option::None,
            sv_flags: Option::None,
        },
        Element::SlotElement(x) => ElementView {
            kind: ElementKind::SlotElement,
            span: x.span,
            name: Option::None,
            attributes: element_attributes_view(x.attributes@),
            fragment: fragment_view(x.fragment),
            expression: Option::None,
            reg_flags: Option::None,
            sv_flags: Option::None,
        },
        Element::RegularElement(x) => ElementView {
            kind: ElementKind::RegularElement,
            span: x.span,
            name: Option::Some(x.name@),
            attributes: element_attributes_view(x.attributes@),
            fragment: fragment_view(x.fragment),
            expression: Option::None,
            reg_flags: x.flags,
            sv_flags: Option::None,
        },
        Element::SvelteBody(x) => ElementView {
            kind: ElementKind::SvelteBody,
            span: x.span,
            name: Option::None,
            attributes: element_attributes_view(x.attributes@),
            fragment: fragment_view(x.fragment),
            expression: Option::None,
            reg_flags: Option::None,
            sv_flags: Option::None,
        },
        Element::SvelteComponent(x) => ElementView {
            kind: ElementKind::SvelteComponent,
            span: x.span,
            name: Option::None,
            attributes: element_attributes_view(x.attributes@),
            fragment: fragment_view(x.fragment),
            expression: Option::Some(expr_view(x.expression)),
            reg_flags: Option::None,
            sv_flags: Option::None,
        },
        Element::SvelteDocument(x) => ElementView {
            kind: ElementKind::SvelteDocument,
            span: x.span,
            name: Option::None,
            attributes: element_attributes_view(x.attributes@),
            fragment: fragment_view(x.fragment),
            expression: Option::None,
            reg_flags: Option::None,
            sv_flags: Option::None,
        },
        Element::SvelteElement(x) => ElementView {
            kind: ElementKind::SvelteElement,
            span: x.span,
            name: Option::None,
            attributes: element_attributes_view(x.attributes@),
            fragment: fragment_view(x.fragment),
            expression: Option::Some(expr_view(x.expression)),
            reg_flags: Option::None,
            sv_flags: x.flags,
        },
        Element::SvelteFragment(x) => ElementView {
            kind: ElementKind::SvelteFragment,
            span: x.span,
            name: Option::None,
            attributes: element_attributes_view(x.attributes@),
            fragment: fragment_view(x.fragment),
            expression: Option::None,
            reg_flags: Option::None,
            sv_flags: Option::None,
        },
        Element::SvelteHead(x) => ElementView {
            kind: ElementKind::SvelteHead,
            span: x.span,
            name: Option::None,
            attributes: element_attributes_view(x.attributes@),
            fragment: fragment_view(x.fragment),
            expression: Option::None,
            reg_flags: Option::None,
            sv_flags: Option::None,
        },
        Element::SvelteOptionsRaw(x) => ElementView {
            kind: ElementKind::SvelteOptionsRaw,
            span: x.span,
            name: Option::None,
            attributes: element_attributes_view(x.attributes@),
            fragment: fragment_view(x.fragment),
            expression: Option::None,
            reg_flags: Option::None,
            sv_flags: Option::None,
        },
        Element::SvelteSelf(x) => ElementView {
            kind: ElementKind::SvelteSelf,
            span: x.span,
            name: Option::None,
            attributes: element_attributes_view(x.attributes@),
            fragment: fragment_view(x.fragment),
            expression: Option::None,
            reg_flags: Option::None,
            sv_flags: Option::None,
        },
        Element::SvelteWindow(x) => ElementView {
            kind: ElementKind::SvelteWindow,
            span: x.span,
            name: Option::None,
            attributes: element_attributes_view(x.attributes@),
            fragment: fragment_view(x.fragment),
            expression: Option::None,
            reg_flags: Option::None,
            sv_flags: Option::None,
        },
    }
}

pub open spec fn block_view(b: Block) -> BlockView
    decreases b,
{
    match b {
        Block::EachBlock(x) => BlockView::Each {
            span: x.span,
            expression: expr_view(x.expression),
            context: pattern_view(x.context),
            body: fragment_view(x.body),
            fallback: opt_fragment_view(x.fallback),
            index: opt_ident_view(x.index),
            key: opt_expr_view(x.key),
            metadata: opt_each_metadata_view(x.metadata),
        },
        Block::IfBlock(x) => BlockView::If {
            span: x.span,
            elseif: x.elseif,
            test: expr_view(x.test),
            consequent: fragment_view(x.consequent),
            alternate: opt_fragment_view(x.alternate),
        },
        Block::AwaitBlock(x) => BlockView::Await {
            span: x.span,
            expression: expr_view(x.expression),
            value: opt_pattern_view(x.value),
            error: opt_pattern_view(x.error),
            pending: opt_fragment_view(x.pending),
            then_fragment: opt_fragment_view(x.then_fragment),
            catch_fragment: opt_fragment_view(x.catch_fragment),
        },
        Block::KeyBlock(x) => BlockView::Key {
            span: x.span,
            expression: expr_view(x.expression),
            fragment: fragment_view(x.fragment),
        },
        Block::SnippetBlock(x) => BlockView::Snippet {
            span: x.span,
            expression: ident_view(x.expression),
            parameters: patterns_view(x.parameters@),
            body: fragment_view(x.body),
        },
    }
}

/// `nodes_view` maps `node_view` element by element.
pub broadcast proof fn lemma_nodes_view(ns: Seq<FragmentNode>)
    ensures
        (#[trigger] nodes_view(ns)).len() == ns.len(),
        forall|i: int| 0 <= i < ns.len() ==> nodes_view(ns)[i] == node_view(ns[i]),
    decreases ns,
{
    if ns.len() > 0 {
        lemma_nodes_view(ns.subrange(0, ns.len() - 1));
    }
}

pub struct StyleView {
    pub span: Span,
    pub attributes: Seq<AttributeView>,
    pub stylesheet: StyleSheet,
}

pub open spec fn style_view(s: Style) -> StyleView {
    StyleView { span: s.span, attributes: attributes_view(s.attributes@), stylesheet: s.stylesheet }
}

pub open spec fn opt_style_view(s: Option<Style>) -> Option<StyleView> {
    match s {
        Option::Some(x) => Option::Some(style_view(x)),
        Option::None => Option::None,
    }
}

pub struct CustomElementPropView {
    pub attribute: Option<Seq<char>>,
    pub reflect: Option<bool>,
    pub type_: Option<CustomElementPropType>,
}

pub enum CustomElementExtendView {
    ArrowFunction(ExpressionView),
    Identifier(IdentifierView),
}

pub struct CustomElementPropEntryView {
    pub name: Seq<char>,
    pub prop: CustomElementPropView,
}

pub struct CustomElementOptionsView {
    pub tag: Seq<char>,
    pub shadow: Option<CustomElementShadow>,
    pub props: Seq<CustomElementPropEntryView>,
    pub extend: Option<CustomElementExtendView>,
}

pub open spec fn custom_element_prop_view(p: CustomElementProp) -> CustomElementPropView {
    CustomElementPropView {
        attribute: crate::binding::opt_string_view(p.attribute),
        reflect: p.reflect,
        type_: p.type_,
    }
}

pub open spec fn custom_element_view(c: CustomElementOptions) -> CustomElementOptionsView {
    CustomElementOptionsView {
        tag: c.tag@,
        shadow: c.shadow,
        props: Seq::new(
            c.props@.len(),
            |i: int| CustomElementPropEntryView {
                name: c.props@[i].name@,
                prop: custom_element_prop_view(c.props@[i].prop),
            },
        ),
        extend: match c.extend {
            Option::Some(CustomElementExtend::ArrowFunction(f)) => Option::Some(
                CustomElementExtendView::ArrowFunction(
                    expr_view(crate::expression::Expression::Function(f)),
                ),
            ),
            Option::Some(CustomElementExtend::Identifier(i)) => Option::Some(
                CustomElementExtendView::Identifier(ident_view(i)),
            ),
            Option::None => Option::None,
        },
    }
}

pub struct SvelteOptionsView {
    pub span: Span,
    pub runes: Option<bool>,
    pub immutable: Option<bool>,
    pub accessors: Option<bool>,
    pub preserve_whitespace: Option<bool>,
    pub namespace: Option<Namespace>,
    pub custom_element: Option<CustomElementOptionsView>,
    pub attributes: Seq<AttributeView>,
}

pub open spec fn options_view(o: SvelteOptions) -> SvelteOptionsView {
    SvelteOptionsView {
        span: o.span,
        runes: o.runes,
        immutable: o.immutable,
        accessors: o.accessors,
        preserve_whitespace: o.preserve_whitespace,
        namespace: o.namespace,
        custom_element: match o.custom_element {
            Option::Some(c) => Option::Some(custom_element_view(c)),
            Option::None => Option::None,
        },
        attributes: attributes_view(o.attributes@),
    }
}

pub open spec fn opt_options_view(o: Option<SvelteOptions>) -> Option<SvelteOptionsView> {
    match o {
        Option::Some(x) => Option::Some(options_view(x)),
        Option::None => Option::None,
    }
}

pub struct ScriptView {
    pub span: Span,
    pub context: ScriptContext,
    pub program: ProgramView,
    pub attributes: Seq<AttributeView>,
}

pub open spec fn script_view(s: Script) -> ScriptView {
    ScriptView {
        span: s.span,
        context: s.context,
        program: program_view(s.program),
        attributes: attributes_view(s.attributes@),
    }
}

pub open spec fn opt_script_view(s: Option<Script>) -> Option<ScriptView> {
    match s {
        Option::Some(x) => Option::Some(script_view(x)),
        Option::None => Option::None,
    }
}

pub struct RootView {
    pub span: Span,
    pub options: Option<SvelteOptionsView>,
    pub fragment: FragmentView,
    pub css: Option<StyleView>,
    pub instance: Option<ScriptView>,
    pub module: Option<ScriptView>,
    pub ts: bool,
}

pub open spec fn root_view(r: Root) -> RootView {
    RootView {
        span: r.span,
        options: opt_options_view(r.options),
        fragment: fragment_view(r.fragment),
        css: opt_style_view(r.css),
        instance: opt_script_view(r.instance),
        module: opt_script_view(r.module),
        ts: r.ts,
    }
}

impl View for Root {
    type V = RootView;

    open spec fn view(&self) -> RootView {
        root_view(*self)
    }
}

} // verus!
