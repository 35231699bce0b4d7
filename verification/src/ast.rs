//! The template tree: fragments, tags, elements, blocks, attributes
//! and directives, together with the metadata slots the analysis pass
//! fills in and the mathematical views the contracts speak of.
//!
//! The tree is built once by the parser and analyzed once.  Metadata
//! slots start out `None`; the pass populates each exactly once, so a
//! read of unset metadata is detectable instead of a silent default.

use vstd::prelude::*;
use crate::binding::{BindingGroupId, BindingId, BlockId};
use crate::expression::{CallExpression, CompoundExpression, Expression, FunctionExpression, MemberExpression};
use crate::script::{BindingPattern, Program, VariableDeclaration};

verus! {

/// Byte offsets of a node in the component source, kept on every node
/// for diagnostics.
#[derive(Debug, Clone, Copy, PartialEq, Eq, Structural)]
pub struct Span {
    pub start: u32,
    pub end: u32,
}

/// An identifier occurrence: a name together with where it appears.
#[derive(Debug, Clone)]
pub struct Identifier {
    pub span: Span,
    pub name: String,
}

/// The namespace an element is classified into: the host HTML
/// namespace, an `<svg>` or `<math>` subtree, or a tag foreign to all
/// of them.
#[derive(Debug, Clone, Copy, PartialEq, Eq, Structural)]
pub enum Namespace {
    Html,
    Svg,
    MathMl,
    Foreign,
}

impl Default for Namespace {
    /// The root namespace when no option overrides it.
    fn default() -> (r: Namespace)
        ensures
            r == Namespace::Html,
    {
        Namespace::Html
    }
}

/// Flags computed for an `ExpressionTag` or a `SpreadAttribute`:
/// whether the expression's value can change after the initial render,
/// and whether it contains a call expression (which must be re-invoked
/// rather than cached).
#[derive(Debug, Clone, Copy, PartialEq, Eq, Structural)]
pub struct ExpressionTagFlags {
    pub dynamic: bool,
    pub call_expression: bool,
}

impl ExpressionTagFlags {
    pub fn has_dynamic(&self) -> (r: bool)
        ensures
            r == self.dynamic,
    {
        self.dynamic
    }

    pub fn has_call_expression(&self) -> (r: bool)
        ensures
            r == self.call_expression,
    {
        self.call_expression
    }
}

/// Flags computed for a `RegularElement`: its namespace classification,
/// whether any attribute is a spread, and whether the component's style
/// block scopes it.
#[derive(Debug, Clone, Copy, PartialEq, Eq, Structural)]
pub struct RegularElementFlags {
    pub svg: bool,
    pub mathml: bool,
    pub spread: bool,
    pub scoped: bool,
}

impl RegularElementFlags {
    pub fn has_svg(&self) -> (r: bool)
        ensures
            r == self.svg,
    {
        self.svg
    }

    pub fn has_mathml(&self) -> (r: bool)
        ensures
            r == self.mathml,
    {
        self.mathml
    }

    pub fn has_spread(&self) -> (r: bool)
        ensures
            r == self.spread,
    {
        self.spread
    }

    pub fn has_scoped(&self) -> (r: bool)
        ensures
            r == self.scoped,
    {
        self.scoped
    }
}

/// Flags computed for a `SvelteElement` (an element whose tag is itself
/// an expression): namespace and style scoping.
#[derive(Debug, Clone, Copy, PartialEq, Eq, Structural)]
pub struct SvelteElementFlags {
    pub svg: bool,
    pub scoped: bool,
}

impl SvelteElementFlags {
    pub fn has_svg(&self) -> (r: bool)
        ensures
            r == self.svg,
    {
        self.svg
    }

    pub fn has_scoped(&self) -> (r: bool)
        ensures
            r == self.scoped,
    {
        self.scoped
    }
}

/// Metadata the analysis computes for an `each` block.
#[derive(Debug)]
pub struct EachBlockMetadata {
    /// Whether a group `bind:` chain passes through this block.
    pub contains_group_binding: bool,
    /// The binding behind the iterable when it is a bare identifier;
    /// `None` when a computed expression is iterated.
    pub array_name: Option<BindingId>,
    /// The index binding, when an index name was given.
    pub index: Option<BindingId>,
    /// The first binding the context pattern declares.
    pub item: Option<BindingId>,
    /// Every binding declared into the block's child scope.
    pub declarations: Vec<BindingId>,
    /// The bindings the iterable expression depends on.
    pub references: Vec<BindingId>,
    /// Whether index-based reuse is permitted: no key expression, and
    /// no `bind:` directive needs stable per-item identity.
    pub is_controlled: bool,
}

pub struct EachBlockMetadataView {
    pub contains_group_binding: bool,
    pub array_name: Option<BindingId>,
    pub index: Option<BindingId>,
    pub item: Option<BindingId>,
    pub declarations: Seq<BindingId>,
    pub references: Seq<BindingId>,
    pub is_controlled: bool,
}

pub open spec fn each_metadata_view(m: EachBlockMetadata) -> EachBlockMetadataView {
    EachBlockMetadataView {
        contains_group_binding: m.contains_group_binding,
        array_name: m.array_name,
        index: m.index,
        item: m.item,
        declarations: m.declarations@,
        references: m.references@,
        is_controlled: m.is_controlled,
    }
}

pub open spec fn opt_each_metadata_view(m: Option<EachBlockMetadata>) -> Option<
    EachBlockMetadataView,
> {
    match m {
        Option::Some(x) => Option::Some(each_metadata_view(x)),
        Option::None => Option::None,
    }
}

/// A run of literal text.
#[derive(Debug)]
pub struct Text {
    pub span: Span,
    pub data: String,
    pub raw: String,
}

pub struct TextView {
    pub span: Span,
    pub data: Seq<char>,
    pub raw: Seq<char>,
}

pub open spec fn text_view(t: Text) -> TextView {
    TextView { span: t.span, data: t.data@, raw: t.raw@ }
}

/// An ordered run of sibling nodes.  `transparent` says the fragment
/// forwards its parent's styling and namespace context instead of
/// establishing its own.
#[derive(Debug)]
pub struct Fragment {
    pub nodes: Vec<FragmentNode>,
    pub transparent: bool,
}

#[derive(Debug)]
pub enum FragmentNode {
    Text(Text),
    Tag(Tag),
    Element(Element),
    Block(Block),
}

/// A template node that emits a computed value.
#[derive(Debug)]
pub enum Tag {
    ExpressionTag(ExpressionTag),
    HtmlTag(HtmlTag),
    ConstTag(ConstTag),
    DebugTag(DebugTag),
    RenderTag(RenderTag),
}

/// `{expression}`: a value interpolated into the output.
#[derive(Debug)]
pub struct ExpressionTag {
    pub span: Span,
    pub expression: Expression,
    /// Filled by the taint pass.
    pub flags: Option<ExpressionTagFlags>,
    /// The bindings the expression depends on, filled by the
    /// collection pass and read by the taint pass.
    pub dependencies: Vec<BindingId>,
}

/// `{@html expression}`: raw markup.
#[derive(Debug)]
pub struct HtmlTag {
    pub span: Span,
    pub expression: Expression,
}

/// `{@const ...}`: a constant declaration inside a fragment.  Its
/// expressions are resolved and tainted; it carries no flag of its
/// own.
#[derive(Debug)]
pub struct ConstTag {
    pub span: Span,
    pub declaration: VariableDeclaration,
}

/// `{@debug a, b}`.
#[derive(Debug)]
pub struct DebugTag {
    pub span: Span,
    pub identifiers: Vec<Identifier>,
}

/// `{@render snippet(...)}`.
#[derive(Debug)]
pub struct RenderTag {
    pub span: Span,
    pub expression: RenderTagExpression,
}

#[derive(Debug)]
pub enum RenderTagExpression {
    Call(CallExpression),
    Chain(CallExpression),
}

#[derive(Debug)]
pub enum Element {
    Component(Component),
    TitleElement(TitleElement),
    SlotElement(SlotElement),
    RegularElement(RegularElement),
    SvelteBody(SvelteBody),
    SvelteComponent(SvelteComponent),
    SvelteDocument(SvelteDocument),
    SvelteElement(SvelteElement),
    SvelteFragment(SvelteFragment),
    SvelteHead(SvelteHead),
    SvelteOptionsRaw(SvelteOptionsRaw),
    SvelteSelf(SvelteSelf),
    SvelteWindow(SvelteWindow),
}

#[derive(Debug)]
pub struct Component {
    pub span: Span,
    pub name: String,
    pub attributes: Vec<ElementAttribute>,
    pub fragment: Fragment,
}

#[derive(Debug)]
pub struct TitleElement {
    pub span: Span,
    pub attributes: Vec<ElementAttribute>,
    pub fragment: Fragment,
}

#[derive(Debug)]
pub struct SlotElement {
    pub span: Span,
    pub attributes: Vec<ElementAttribute>,
    pub fragment: Fragment,
}

/// An ordinary named element.
#[derive(Debug)]
pub struct RegularElement {
    pub span: Span,
    pub name: String,
    pub attributes: Vec<ElementAttribute>,
    pub fragment: Fragment,
    /// Filled by the analysis: namespace, spread and scoping flags.
    pub flags: Option<RegularElementFlags>,
}

#[derive(Debug)]
pub struct SvelteBody {
    pub span: Span,
    pub attributes: Vec<ElementAttribute>,
    pub fragment: Fragment,
}

#[derive(Debug)]
pub struct SvelteComponent {
    pub span: Span,
    pub attributes: Vec<ElementAttribute>,
    pub fragment: Fragment,
    pub expression: Expression,
}

#[derive(Debug)]
pub struct SvelteDocument {
    pub span: Span,
    pub attributes: Vec<ElementAttribute>,
    pub fragment: Fragment,
}

/// An element whose tag is itself an expression.
#[derive(Debug)]
pub struct SvelteElement {
    pub span: Span,
    pub attributes: Vec<ElementAttribute>,
    pub fragment: Fragment,
    pub expression: Expression,
    /// Filled by the analysis.
    pub flags: Option<SvelteElementFlags>,
}

#[derive(Debug)]
pub struct SvelteFragment {
    pub span: Span,
    pub attributes: Vec<ElementAttribute>,
    pub fragment: Fragment,
}

#[derive(Debug)]
pub struct SvelteHead {
    pub span: Span,
    pub attributes: Vec<ElementAttribute>,
    pub fragment: Fragment,
}

#[derive(Debug)]
pub struct SvelteOptionsRaw {
    pub span: Span,
    pub attributes: Vec<ElementAttribute>,
    pub fragment: Fragment,
}

#[derive(Debug)]
pub struct SvelteSelf {
    pub span: Span,
    pub attributes: Vec<ElementAttribute>,
    pub fragment: Fragment,
}

#[derive(Debug)]
pub struct SvelteWindow {
    pub span: Span,
    pub attributes: Vec<ElementAttribute>,
    pub fragment: Fragment,
}

#[derive(Debug)]
pub enum Block {
    EachBlock(EachBlock),
    IfBlock(IfBlock),
    AwaitBlock(AwaitBlock),
    KeyBlock(KeyBlock),
    SnippetBlock(SnippetBlock),
}

/// `{#each expression as context, index (key)}`.
#[derive(Debug)]
pub struct EachBlock {
    pub span: Span,
    pub expression: Expression,
    pub context: BindingPattern,
    pub body: Fragment,
    pub fallback: Option<Fragment>,
    pub index: Option<Identifier>,
    pub key: Option<Expression>,
    /// Filled by the analysis.
    pub metadata: Option<EachBlockMetadata>,
}

#[derive(Debug)]
pub struct IfBlock {
    pub span: Span,
    pub elseif: bool,
    pub test: Expression,
    pub consequent: Fragment,
    pub alternate: Option<Fragment>,
}

/// `{#await expression}` with its three arms.
#[derive(Debug)]
pub struct AwaitBlock {
    pub span: Span,
    pub expression: Expression,
    pub value: Option<BindingPattern>,
    pub error: Option<BindingPattern>,
    pub pending: Option<Fragment>,
    pub then_fragment: Option<Fragment>,
    pub catch_fragment: Option<Fragment>,
}

#[derive(Debug)]
pub struct KeyBlock {
    pub span: Span,
    pub expression: Expression,
    pub fragment: Fragment,
}

/// `{#snippet name(parameters)}`.
#[derive(Debug)]
pub struct SnippetBlock {
    pub span: Span,
    pub expression: Identifier,
    pub parameters: Vec<BindingPattern>,
    pub body: Fragment,
}

#[derive(Debug)]
pub enum ElementAttribute {
    Attribute(Attribute),
    SpreadAttribute(SpreadAttribute),
    DirectiveAttribute(DirectiveAttribute),
}

impl ElementAttribute {
    /// The plain attribute inside, if this is one.
    pub fn as_attribute(&self) -> (r: Option<&Attribute>)
        ensures
            r is Some <==> self is Attribute,
            r is Some ==> *r->0 == self->Attribute_0,
    {
        if let ElementAttribute::Attribute(attribute) = self {
            Option::Some(attribute)
        } else {
            Option::None
        }
    }

    /// The spread attribute inside, if this is one.
    pub fn as_spread_attribute(&self) -> (r: Option<&SpreadAttribute>)
        ensures
            r is Some <==> self is SpreadAttribute,
            r is Some ==> *r->0 == self->SpreadAttribute_0,
    {
        if let ElementAttribute::SpreadAttribute(attribute) = self {
            Option::Some(attribute)
        } else {
            Option::None
        }
    }

    /// The directive inside, if this is one.
    pub fn as_directive_attribute(&self) -> (r: Option<&DirectiveAttribute>)
        ensures
            r is Some <==> self is DirectiveAttribute,
            r is Some ==> *r->0 == self->DirectiveAttribute_0,
    {
        if let ElementAttribute::DirectiveAttribute(directive) = self {
            Option::Some(directive)
        } else {
            Option::None
        }
    }

    /// Consumes into the plain attribute inside, if this is one.
    pub fn attribute(self) -> (r: Option<Attribute>)
        ensures
            r is Some <==> self is Attribute,
            r is Some ==> r->0 == self->Attribute_0,
    {
        if let ElementAttribute::Attribute(attribute) = self {
            Option::Some(attribute)
        } else {
            Option::None
        }
    }

    /// Consumes into the spread attribute inside, if this is one.
    pub fn spread_attribute(self) -> (r: Option<SpreadAttribute>)
        ensures
            r is Some <==> self is SpreadAttribute,
            r is Some ==> r->0 == self->SpreadAttribute_0,
    {
        if let ElementAttribute::SpreadAttribute(attribute) = self {
            Option::Some(attribute)
        } else {
            Option::None
        }
    }

    /// Consumes into the directive inside, if this is one.
    pub fn directive_attribute(self) -> (r: Option<DirectiveAttribute>)
        ensures
            r is Some <==> self is DirectiveAttribute,
            r is Some ==> r->0 == self->DirectiveAttribute_0,
    {
        if let ElementAttribute::DirectiveAttribute(directive) = self {
            Option::Some(directive)
        } else {
            Option::None
        }
    }
}

/// A static attribute: a name with an optional value sequence.
#[derive(Debug)]
pub struct Attribute {
    pub span: Span,
    pub name: String,
    pub value: Option<AttributeValue>,
}

/// An attribute value: text runs and expression tags, concatenated.
#[derive(Debug)]
pub struct AttributeValue {
    pub span: Span,
    pub sequence: Vec<AttributeSequenceValue>,
}

#[derive(Debug)]
pub enum AttributeSequenceValue {
    Text(Text),
    ExpressionTag(ExpressionTag),
}

/// `{...expression}`: everything the expression evaluates to is
/// spread onto the element.
#[derive(Debug)]
pub struct SpreadAttribute {
    pub span: Span,
    pub expression: Expression,
    /// Filled by the taint pass.
    pub flags: Option<ExpressionTagFlags>,
    /// Filled by the collection pass.
    pub dependencies: Vec<BindingId>,
}

#[derive(Debug)]
pub enum DirectiveAttribute {
    AnimateDirective(AnimateDirective),
    BindDirective(BindDirective),
    ClassDirective(ClassDirective),
    LetDirective(LetDirective),
    OnDirective(OnDirective),
    StyleDirective(StyleDirective),
    TransitionDirective(TransitionDirective),
    UseDirective(UseDirective),
}

#[derive(Debug)]
pub struct AnimateDirective {
    pub span: Span,
    pub name: String,
    pub expression: Option<Expression>,
}

/// `bind:name={target}`: a two-way binding.
#[derive(Debug)]
pub struct BindDirective {
    pub span: Span,
    pub name: String,
    pub expression: BindDirectiveExpression,
    /// The shared group identity, when the target is an array element
    /// reached through enclosing `each` blocks.  Filled by the
    /// analysis; left `None` for a standalone binding.
    pub binding_group_name: Option<BindingGroupId>,
    /// The innermost enclosing `each` block.  Filled by the analysis.
    pub parent_block: Option<BlockId>,
}

#[derive(Debug)]
pub enum BindDirectiveExpression {
    Identifier(Identifier),
    MemberExpression(MemberExpression),
}

/// `class:name={expression}`.
#[derive(Debug)]
pub struct ClassDirective {
    pub span: Span,
    pub name: String,
    pub expression: Expression,
    /// Filled by the taint pass.
    pub dynamic: Option<bool>,
    /// Filled by the collection pass.
    pub dependencies: Vec<BindingId>,
}

#[derive(Debug)]
pub struct LetDirective {
    pub span: Span,
    pub name: String,
    pub expression: Option<LetDirectiveExpression>,
}

#[derive(Debug)]
pub enum LetDirectiveExpression {
    Identifier(Identifier),
    ArrayExpression(CompoundExpression),
    ObjectExpression(CompoundExpression),
}

#[derive(Debug)]
pub struct OnDirective {
    pub span: Span,
    pub name: String,
    pub expression: Option<Expression>,
    pub modifiers: Vec<String>,
}

/// `style:name={value}`.
#[derive(Debug)]
pub struct StyleDirective {
    pub span: Span,
    pub name: String,
    pub value: Option<AttributeValue>,
    pub modifiers: Vec<StyleDirectiveModifier>,
    /// Filled by the taint pass.
    pub dynamic: Option<bool>,
    /// Filled by the collection pass.
    pub dependencies: Vec<BindingId>,
}

#[derive(Debug, Clone, Copy, PartialEq, Eq, Structural)]
pub enum StyleDirectiveModifier {
    Important,
}

#[derive(Debug)]
pub struct TransitionDirective {
    pub span: Span,
    pub name: String,
    pub expression: Option<Expression>,
    pub modifiers: Vec<TransitionDirectiveModifier>,
    pub intro: bool,
    pub outro: bool,
}

#[derive(Debug, Clone, Copy, PartialEq, Eq, Structural)]
pub enum TransitionDirectiveModifier {
    Local,
    Global,
}

#[derive(Debug)]
pub struct UseDirective {
    pub span: Span,
    pub name: String,
    pub expression: Option<Expression>,
}

/// The style collaborator's surface: the analysis only needs to know
/// whether a non-empty stylesheet exists.
#[derive(Debug, Clone, Copy, PartialEq, Eq, Structural)]
pub struct StyleSheet {
    pub span: Span,
    pub rule_count: usize,
}

/// The component's style block.
#[derive(Debug)]
pub struct Style {
    pub span: Span,
    pub attributes: Vec<Attribute>,
    pub stylesheet: StyleSheet,
}

#[derive(Debug, Clone, Copy, PartialEq, Eq, Structural)]
pub enum CustomElementShadow {
    Open,
    NoShadow,
}

#[derive(Debug, Clone, Copy, PartialEq, Eq, Structural)]
pub enum CustomElementPropType {
    Array,
    Boolean,
    Number,
    Object,
    StringValue,
}

#[derive(Debug)]
pub struct CustomElementProp {
    pub attribute: Option<String>,
    pub reflect: Option<bool>,
    pub type_: Option<CustomElementPropType>,
}

#[derive(Debug)]
pub enum CustomElementExtend {
    ArrowFunction(FunctionExpression),
    Identifier(Identifier),
}

#[derive(Debug)]
pub struct CustomElementPropEntry {
    pub name: String,
    pub prop: CustomElementProp,
}

#[derive(Debug)]
pub struct CustomElementOptions {
    pub tag: String,
    pub shadow: Option<CustomElementShadow>,
    pub props: Vec<CustomElementPropEntry>,
    pub extend: Option<CustomElementExtend>,
}

/// Root-level compiler options parsed from the template.
#[derive(Debug)]
pub struct SvelteOptions {
    pub span: Span,
    pub runes: Option<bool>,
    pub immutable: Option<bool>,
    pub accessors: Option<bool>,
    pub preserve_whitespace: Option<bool>,
    pub namespace: Option<Namespace>,
    pub custom_element: Option<CustomElementOptions>,
    pub attributes: Vec<Attribute>,
}

#[derive(Debug, Clone, Copy, PartialEq, Eq, Structural)]
pub enum ScriptContext {
    Instance,
    Module,
}

/// A `<script>` block with its parsed program.
#[derive(Debug)]
pub struct Script {
    pub span: Span,
    pub context: ScriptContext,
    pub program: Program,
    pub attributes: Vec<Attribute>,
}

/// A whole parsed component.
#[derive(Debug)]
pub struct Root {
    pub span: Span,
    pub options: Option<SvelteOptions>,
    pub fragment: Fragment,
    pub css: Option<Style>,
    pub instance: Option<Script>,
    pub module: Option<Script>,
    pub ts: bool,
}

} // verus!
