//! Binding records, the flat tables the analysis produces, and the
//! diagnostics it accumulates.
//!
//! Every declared identifier gets one `Binding`, addressed by
//! `BindingId` into a flat table.  Cross-node relationships — which
//! `each` block declared an item, which binding group a `bind:`
//! directive joined — are expressed as ids into these tables, never as
//! pointers into sibling nodes.

use vstd::prelude::*;
use crate::ast::{Identifier, Namespace, Span};
use crate::expression::{IdentifierView, ident_view};

verus! {

/// Index of a `Binding` in the analysis' flat binding table.
#[derive(Debug, Clone, Copy, PartialEq, Eq, Structural)]
pub struct BindingId(pub usize);

/// Index of an `EachBlock` in the analysis' flat block table.
#[derive(Debug, Clone, Copy, PartialEq, Eq, Structural)]
pub struct BlockId(pub usize);

/// Index of a `SlotElement` in document order.
#[derive(Debug, Clone, Copy, PartialEq, Eq, Structural)]
pub struct SlotElementId(pub usize);

/// Index of a shared binding group in the analysis' group table.
#[derive(Debug, Clone, Copy, PartialEq, Eq, Structural)]
pub struct BindingGroupId(pub usize);

/// The reactivity classification of a declaration.  Fixed at creation;
/// the only later change is the legacy reactive re-classification of a
/// `Normal` or imported binding assigned by a top-level reactive
/// statement, which happens before the resolution pass completes.
#[derive(Debug, Clone, Copy, PartialEq, Eq, Structural)]
pub enum BindingKind {
    Normal,
    Prop,
    BindableProp,
    RestProp,
    State,
    FrozenState,
    Derived,
    Each,
    Snippet,
    StoreSub,
    LegacyReactive,
    LegacyReactiveImport,
}

/// The syntactic form of the declaration site.
#[derive(Debug, Clone, Copy, PartialEq, Eq, Structural)]
pub enum DeclarationKind {
    Var,
    Let,
    Const,
    Function,
    Import,
    Param,
    RestParam,
    Synthetic,
}

/// What a binding was initialised from.  The value itself lives in the
/// tree; the table keeps its kind and the span that locates it, so the
/// table never duplicates tree ownership.
#[derive(Debug, Clone, Copy, PartialEq, Eq, Structural)]
pub enum InitialValueKind {
    Expression,
    Function,
    Import,
    EachItem,
    EachIndex,
}

/// Locator for a binding's initial value.
#[derive(Debug, Clone, Copy, PartialEq, Eq, Structural)]
pub struct BindingInitial {
    pub kind: InitialValueKind,
    pub span: Span,
}

/// One use site of a binding: where it was read, and the chain of
/// enclosing `each` blocks at that point, needed for scope-crossing
/// mutation detection and group resolution.
#[derive(Debug)]
pub struct BindingReference {
    pub span: Span,
    pub path: Vec<BlockId>,
}

pub struct BindingReferenceView {
    pub span: Span,
    pub path: Seq<BlockId>,
}

pub open spec fn reference_view(r: BindingReference) -> BindingReferenceView {
    BindingReferenceView { span: r.span, path: r.path@ }
}

pub open spec fn references_view(rs: Seq<BindingReference>) -> Seq<BindingReferenceView> {
    Seq::new(rs.len(), |i: int| reference_view(rs[i]))
}

/// The resolved record for one declared identifier.
#[derive(Debug)]
pub struct Binding {
    /// The declaring identifier node.
    pub node: Identifier,
    pub kind: BindingKind,
    pub declaration_kind: DeclarationKind,
    pub initial: Option<BindingInitial>,
    /// Every recorded use site, in traversal order.
    pub references: Vec<BindingReference>,
    /// Whether any part of the bound value is written anywhere in the
    /// component.  Only ever set, never cleared, during the pass.
    pub mutated: bool,
    /// Whether the whole binding is reassigned anywhere.  Monotonic
    /// like `mutated`.
    pub reassigned: bool,
    /// The original prop name when the declaration destructured a prop
    /// under another name.
    pub alias: Option<String>,
    /// For legacy reactive bindings: the bindings their defining
    /// statement reads.
    pub legacy_dependencies: Vec<BindingId>,
}

pub struct BindingView {
    pub node: IdentifierView,
    pub kind: BindingKind,
    pub declaration_kind: DeclarationKind,
    pub initial: Option<BindingInitial>,
    pub references: Seq<BindingReferenceView>,
    pub mutated: bool,
    pub reassigned: bool,
    pub alias: Option<Seq<char>>,
    pub legacy_dependencies: Seq<BindingId>,
}

pub open spec fn opt_string_view(a: Option<String>) -> Option<Seq<char>> {
    match a {
        Option::Some(s) => Option::Some(s@),
        Option::None => Option::None,
    }
}

pub open spec fn binding_view(b: Binding) -> BindingView {
    BindingView {
        node: ident_view(b.node),
        kind: b.kind,
        declaration_kind: b.declaration_kind,
        initial: b.initial,
        references: references_view(b.references@),
        mutated: b.mutated,
        reassigned: b.reassigned,
        alias: opt_string_view(b.alias),
        legacy_dependencies: b.legacy_dependencies@,
    }
}

pub open spec fn bindings_view(bs: Seq<Binding>) -> Seq<BindingView> {
    Seq::new(bs.len(), |i: int| binding_view(bs[i]))
}

/// Whether a reference to this binding makes the referencing
/// expression dynamic: every reactive kind does, and any binding
/// mutated or reassigned anywhere in the component does.
pub open spec fn spec_binding_taints(b: BindingView) -> bool {
    ||| b.kind == BindingKind::State
    ||| b.kind == BindingKind::FrozenState
    ||| b.kind == BindingKind::Derived
    ||| b.kind == BindingKind::Prop
    ||| b.kind == BindingKind::BindableProp
    ||| b.kind == BindingKind::StoreSub
    ||| b.kind == BindingKind::LegacyReactive
    ||| b.kind == BindingKind::LegacyReactiveImport
    ||| b.kind == BindingKind::Each
    ||| b.mutated
    ||| b.reassigned
}

/// Executable form of `spec_binding_taints`.
pub fn binding_taints(b: &Binding) -> (r: bool)
    ensures
        r == spec_binding_taints(binding_view(*b)),
{
    match b.kind {
        BindingKind::State => true,
        BindingKind::FrozenState => true,
        BindingKind::Derived => true,
        BindingKind::Prop => true,
        BindingKind::BindableProp => true,
        BindingKind::StoreSub => true,
        BindingKind::LegacyReactive => true,
        BindingKind::LegacyReactiveImport => true,
        BindingKind::Each => true,
        BindingKind::Normal => b.mutated || b.reassigned,
        BindingKind::Snippet => b.mutated || b.reassigned,
        BindingKind::RestProp => b.mutated || b.reassigned,
    }
}

/// One entry of the flat `each` block table: the block's parent link,
/// what it declares, and what its iterable was resolved to.
#[derive(Debug)]
pub struct EachBlockInfo {
    /// The innermost enclosing `each` block, walked iteratively during
    /// group resolution; depth-bounded by construction.
    pub parent: Option<BlockId>,
    /// Every binding the block's context pattern and index declare.
    pub declarations: Vec<BindingId>,
    /// The root binding of the iterable when it is a bare identifier
    /// or a static member path; `None` for computed iterables.
    pub iterable_root: Option<BindingId>,
    /// The static member path from the root to the iterated array.
    pub iterable_path: Vec<String>,
    /// Set when a group `bind:` chain passes through this block.
    pub contains_group_binding: bool,
    /// Set when any `bind:` directive targets one of this block's own
    /// declarations, which forces keyed rendering.
    pub item_referenced_by_bind: bool,
    /// Whether the block supplied a key expression.
    pub keyed: bool,
}

pub struct EachBlockInfoView {
    pub parent: Option<BlockId>,
    pub declarations: Seq<BindingId>,
    pub iterable_root: Option<BindingId>,
    pub iterable_path: Seq<Seq<char>>,
    pub contains_group_binding: bool,
    pub item_referenced_by_bind: bool,
    pub keyed: bool,
}

pub open spec fn strings_view(ss: Seq<String>) -> Seq<Seq<char>> {
    Seq::new(ss.len(), |i: int| ss[i]@)
}

pub open spec fn block_info_view(b: EachBlockInfo) -> EachBlockInfoView {
    EachBlockInfoView {
        parent: b.parent,
        declarations: b.declarations@,
        iterable_root: b.iterable_root,
        iterable_path: strings_view(b.iterable_path@),
        contains_group_binding: b.contains_group_binding,
        item_referenced_by_bind: b.item_referenced_by_bind,
        keyed: b.keyed,
    }
}

pub open spec fn block_infos_view(bs: Seq<EachBlockInfo>) -> Seq<EachBlockInfoView> {
    Seq::new(bs.len(), |i: int| block_info_view(bs[i]))
}

/// A shared identity linking two-way bindings on array elements across
/// loop iterations.  Identified by the resolved root binding and the
/// literal member path — never by spans, which differ per occurrence.
#[derive(Debug)]
pub struct BindingGroup {
    pub binding: BindingId,
    pub keys: Vec<String>,
}

pub struct BindingGroupView {
    pub binding: BindingId,
    pub keys: Seq<Seq<char>>,
}

pub open spec fn group_view(g: BindingGroup) -> BindingGroupView {
    BindingGroupView { binding: g.binding, keys: strings_view(g.keys@) }
}

pub open spec fn groups_view(gs: Seq<BindingGroup>) -> Seq<BindingGroupView> {
    Seq::new(gs.len(), |i: int| group_view(gs[i]))
}

/// A name is declared twice in the same lexical scope with
/// incompatible kinds.  Analysis continues with the first declaration.
#[derive(Debug)]
pub struct DuplicateBinding {
    pub name: String,
    pub first: Span,
    pub second: Span,
}

/// A `bind:` directive targets a member path that cannot be traced to
/// a declared binding; the directive stays without a group identifier.
#[derive(Debug)]
pub struct UnresolvedGroupBinding {
    pub span: Span,
    pub name: String,
}

/// An element's tag belongs to a namespace incompatible with its
/// resolved ancestor namespace; classification still completes with
/// the tag's own namespace.
#[derive(Debug, Clone, Copy, PartialEq, Eq, Structural)]
pub struct NamespaceConflict {
    pub span: Span,
    pub found: Namespace,
    pub ancestor: Namespace,
}

/// A recoverable, node-level analysis error.  The pass never aborts on
/// one: it annotates the node best-effort and accumulates these.
#[derive(Debug)]
pub enum Diagnostic {
    DuplicateBinding(DuplicateBinding),
    UnresolvedGroupBinding(UnresolvedGroupBinding),
    NamespaceConflict(NamespaceConflict),
}

pub enum DiagnosticView {
    DuplicateBinding { name: Seq<char>, first: Span, second: Span },
    UnresolvedGroupBinding { span: Span, name: Seq<char> },
    NamespaceConflict(NamespaceConflict),
}

pub open spec fn diagnostic_view(d: Diagnostic) -> DiagnosticView {
    match d {
        Diagnostic::DuplicateBinding(x) => DiagnosticView::DuplicateBinding {
            name: x.name@,
            first: x.first,
            second: x.second,
        },
        Diagnostic::UnresolvedGroupBinding(x) => DiagnosticView::UnresolvedGroupBinding {
            span: x.span,
            name: x.name@,
        },
        Diagnostic::NamespaceConflict(x) => DiagnosticView::NamespaceConflict(x),
    }
}

pub open spec fn diagnostics_view(ds: Seq<Diagnostic>) -> Seq<DiagnosticView> {
    Seq::new(ds.len(), |i: int| diagnostic_view(ds[i]))
}

} // verus!
