//! The binding table and its scope stack.
//!
//! The analysis threads one `AnalyzerState` through the whole
//! traversal: a stack of lexical frames mapping names to binding ids,
//! a stack of enclosing `each` blocks, and the flat tables of
//! bindings, blocks, groups and diagnostics being accumulated.
//! Every operation is specified as a pure function on the state's
//! mathematical view.

use vstd::prelude::*;
use crate::ast::{Identifier, Span};
use crate::binding::{
    Binding, BindingGroup, BindingGroupId, BindingGroupView, BindingId, BindingInitial,
    BindingKind, BindingReference, BindingReferenceView, BindingView, BlockId, DeclarationKind,
    Diagnostic, DiagnosticView, DuplicateBinding, EachBlockInfo, EachBlockInfoView,
    binding_view, bindings_view, block_info_view, block_infos_view, diagnostic_view,
    diagnostics_view, group_view, groups_view, opt_string_view, references_view, strings_view,
};
use crate::expression::{IdentifierView, ident_view};

verus! {

/// One name made visible by a lexical scope.
#[derive(Debug)]
pub struct ScopeEntry {
    pub name: String,
    pub binding: BindingId,
}

pub struct ScopeEntryView {
    pub name: Seq<char>,
    pub binding: BindingId,
}

pub open spec fn entry_view(e: ScopeEntry) -> ScopeEntryView {
    ScopeEntryView { name: e.name@, binding: e.binding }
}

pub open spec fn entries_view(es: Seq<ScopeEntry>) -> Seq<ScopeEntryView> {
    Seq::new(es.len(), |i: int| entry_view(es[i]))
}

/// One lexical scope: the names it declares, in declaration order.
/// Names are unique within a frame; a conflicting redeclaration keeps
/// the first binding and reports a diagnostic.
#[derive(Debug)]
pub struct ScopeFrame {
    pub entries: Vec<ScopeEntry>,
}

pub open spec fn frame_view(f: ScopeFrame) -> Seq<ScopeEntryView> {
    entries_view(f.entries@)
}

pub open spec fn frames_view(fs: Seq<ScopeFrame>) -> Seq<Seq<ScopeEntryView>> {
    Seq::new(fs.len(), |i: int| frame_view(fs[i]))
}

/// The whole mutable state of one analysis run.
#[derive(Debug)]
pub struct AnalyzerState {
    /// Lexical frames, innermost last.
    pub frames: Vec<ScopeFrame>,
    /// Enclosing `each` blocks at the traversal point, innermost last.
    pub block_stack: Vec<BlockId>,
    /// Flat table of every declared binding.
    pub bindings: Vec<Binding>,
    /// Flat table of every `each` block encountered.
    pub blocks: Vec<EachBlockInfo>,
    /// Flat table of synthesized binding groups.
    pub groups: Vec<BindingGroup>,
    /// Accumulated node-level diagnostics.
    pub diagnostics: Vec<Diagnostic>,
}

pub struct StateView {
    pub frames: Seq<Seq<ScopeEntryView>>,
    pub block_stack: Seq<BlockId>,
    pub bindings: Seq<BindingView>,
    pub blocks: Seq<EachBlockInfoView>,
    pub groups: Seq<BindingGroupView>,
    pub diagnostics: Seq<DiagnosticView>,
}

impl View for AnalyzerState {
    type V = StateView;

    open spec fn view(&self) -> StateView {
        StateView {
            frames: frames_view(self.frames@),
            block_stack: self.block_stack@,
            bindings: bindings_view(self.bindings@),
            blocks: block_infos_view(self.blocks@),
            groups: groups_view(self.groups@),
            diagnostics: diagnostics_view(self.diagnostics@),
        }
    }
}

/// The first entry from index `i` on whose name is `name`.
pub open spec fn spec_lookup_entries(es: Seq<ScopeEntryView>, name: Seq<char>, i: int) -> Option<
    BindingId,
>
    decreases es.len() - i,
{
    if i < 0 || i >= es.len() {
        Option::None
    } else if es[i].name == name {
        Option::Some(es[i].binding)
    } else {
        spec_lookup_entries(es, name, i + 1)
    }
}

/// Lexical lookup: innermost frame first.
pub open spec fn spec_lookup_frames(fs: Seq<Seq<ScopeEntryView>>, name: Seq<char>) -> Option<
    BindingId,
>
    decreases fs.len(),
{
    if fs.len() == 0 {
        Option::None
    } else {
        match spec_lookup_entries(fs.last(), name, 0) {
            Option::Some(id) => Option::Some(id),
            Option::None => spec_lookup_frames(fs.drop_last(), name),
        }
    }
}

pub open spec fn spec_lookup(st: StateView, name: Seq<char>) -> Option<BindingId> {
    spec_lookup_frames(st.frames, name)
}

/// Scope shadowing: a name declared by the innermost frame resolves to
/// that declaration, whatever the outer frames hold; and once the
/// frame is popped, resolution is exactly what it was outside.
pub proof fn lemma_lookup_shadowing(
    outer: Seq<Seq<ScopeEntryView>>,
    inner: Seq<ScopeEntryView>,
    name: Seq<char>,
    id: BindingId,
)
    requires
        spec_lookup_entries(inner, name, 0) == Option::<BindingId>::Some(id),
    ensures
        spec_lookup_frames(outer.push(inner), name) == Option::<BindingId>::Some(id),
        outer.push(inner).drop_last() == outer,
{
    assert(outer.push(inner).last() == inner);
    assert(outer.push(inner).drop_last() =~= outer);
}

/// A name the innermost frame does not declare falls through to the
/// enclosing frames.
pub proof fn lemma_lookup_fallthrough(
    outer: Seq<Seq<ScopeEntryView>>,
    inner: Seq<ScopeEntryView>,
    name: Seq<char>,
)
    requires
        spec_lookup_entries(inner, name, 0) == Option::<BindingId>::None,
    ensures
        spec_lookup_frames(outer.push(inner), name) == spec_lookup_frames(outer, name),
{
    assert(outer.push(inner).last() == inner);
    assert(outer.push(inner).drop_last() =~= outer);
}

/// A fresh, empty lexical frame entered.
pub open spec fn spec_push_frame(st: StateView) -> StateView {
    StateView { frames: st.frames.push(Seq::empty()), ..st }
}

/// The innermost lexical frame left; nothing happens when no frame
/// is open.
pub open spec fn spec_pop_frame(st: StateView) -> StateView {
    if st.frames.len() > 0 {
        StateView { frames: st.frames.drop_last(), ..st }
    } else {
        st
    }
}

/// A just-created binding record: no references, no mutations.
pub open spec fn spec_new_binding(
    node: IdentifierView,
    kind: BindingKind,
    decl: DeclarationKind,
    initial: Option<BindingInitial>,
    alias: Option<Seq<char>>,
) -> BindingView {
    BindingView {
        node,
        kind,
        declaration_kind: decl,
        initial,
        references: Seq::empty(),
        mutated: false,
        reassigned: false,
        alias,
        legacy_dependencies: Seq::empty(),
    }
}

/// Declares `node` in the innermost frame.  A name already declared
/// there with the same kind is reused silently; one declared with a
/// conflicting kind is reported and the first declaration kept.
pub open spec fn spec_declare(
    st: StateView,
    node: IdentifierView,
    kind: BindingKind,
    decl: DeclarationKind,
    initial: Option<BindingInitial>,
    alias: Option<Seq<char>>,
) -> (StateView, BindingId)
    decreases 0int,
{
    if st.frames.len() == 0 {
        (st, BindingId(st.bindings.len() as usize))
    } else {
    let top = st.frames.last();
    match spec_lookup_entries(top, node.name, 0) {
        Option::Some(bid) => {
            if bid.0 < st.bindings.len() && st.bindings[bid.0 as int].kind == kind {
                (st, bid)
            } else {
                let first = if bid.0 < st.bindings.len() {
                    st.bindings[bid.0 as int].node.span
                } else {
                    node.span
                };
                let d = DiagnosticView::DuplicateBinding {
                    name: node.name,
                    first,
                    second: node.span,
                };
                ((StateView { diagnostics: st.diagnostics.push(d), ..st }), bid)
            }
        },
        Option::None => {
            let bid = BindingId(st.bindings.len() as usize);
            let entry = ScopeEntryView { name: node.name, binding: bid };
            ((StateView {
                frames: st.frames.update(st.frames.len() - 1, top.push(entry)),
                bindings: st.bindings.push(spec_new_binding(node, kind, decl, initial, alias)),
                ..st
            }), bid)
        },
    }
    }
}

/// Appends a use site (with the current block chain) to a binding.
pub open spec fn spec_record_reference(st: StateView, bid: BindingId, span: Span) -> StateView {
    if bid.0 < st.bindings.len() {
        let b = st.bindings[bid.0 as int];
        let b2 = BindingView {
            references: b.references.push(BindingReferenceView { span, path: st.block_stack }),
            ..b
        };
        StateView { bindings: st.bindings.update(bid.0 as int, b2), ..st }
    } else {
        st
    }
}

/// Marks a binding mutated; `reassign` additionally marks the whole
/// binding reassigned.  Both flags are only ever set, never cleared.
pub open spec fn spec_record_mutation(st: StateView, bid: BindingId, reassign: bool) -> StateView {
    if bid.0 < st.bindings.len() {
        let b = st.bindings[bid.0 as int];
        let b2 = BindingView { mutated: true, reassigned: b.reassigned || reassign, ..b };
        StateView { bindings: st.bindings.update(bid.0 as int, b2), ..st }
    } else {
        st
    }
}

/// Re-classifies a binding under the legacy reactive model and
/// appends the dependencies its defining statement reads.
pub open spec fn spec_set_legacy(
    st: StateView,
    bid: BindingId,
    kind: BindingKind,
    deps: Seq<BindingId>,
) -> StateView {
    if bid.0 < st.bindings.len() {
        let b = st.bindings[bid.0 as int];
        let b2 = BindingView { kind, legacy_dependencies: b.legacy_dependencies + deps, ..b };
        StateView { bindings: st.bindings.update(bid.0 as int, b2), ..st }
    } else {
        st
    }
}

/// Registers a new `each` block under the current innermost block and
/// enters it.
pub open spec fn spec_push_block(
    st: StateView,
    declarations: Seq<BindingId>,
    iterable_root: Option<BindingId>,
    iterable_path: Seq<Seq<char>>,
    keyed: bool,
) -> (StateView, BlockId) {
    let parent = if st.block_stack.len() > 0 {
        Option::Some(st.block_stack.last())
    } else {
        Option::None
    };
    let bid = BlockId(st.blocks.len() as usize);
    let info = EachBlockInfoView {
        parent,
        declarations,
        iterable_root,
        iterable_path,
        contains_group_binding: false,
        item_referenced_by_bind: false,
        keyed,
    };
    ((StateView {
        blocks: st.blocks.push(info),
        block_stack: st.block_stack.push(bid),
        ..st
    }), bid)
}

/// Leaves the innermost `each` block; its table entry stays.
/// Nothing happens when no block is open.
pub open spec fn spec_pop_block(st: StateView) -> StateView {
    if st.block_stack.len() > 0 {
        StateView { block_stack: st.block_stack.drop_last(), ..st }
    } else {
        st
    }
}

/// Marks a block as part of a group `bind:` chain.
pub open spec fn spec_mark_block_group(st: StateView, bid: BlockId) -> StateView {
    if bid.0 < st.blocks.len() {
        let b = st.blocks[bid.0 as int];
        let b2 = EachBlockInfoView { contains_group_binding: true, ..b };
        StateView { blocks: st.blocks.update(bid.0 as int, b2), ..st }
    } else {
        st
    }
}

/// Marks a block whose own declarations a `bind:` directive targets.
pub open spec fn spec_mark_block_bind(st: StateView, bid: BlockId) -> StateView {
    if bid.0 < st.blocks.len() {
        let b = st.blocks[bid.0 as int];
        let b2 = EachBlockInfoView { item_referenced_by_bind: true, ..b };
        StateView { blocks: st.blocks.update(bid.0 as int, b2), ..st }
    } else {
        st
    }
}

/// The first group with this root binding and member path, if any.
pub open spec fn spec_find_group(
    gs: Seq<BindingGroupView>,
    root: BindingId,
    path: Seq<Seq<char>>,
    i: int,
) -> Option<BindingGroupId>
    decreases gs.len() - i,
{
    if i < 0 || i >= gs.len() {
        Option::None
    } else if gs[i].binding == root && gs[i].keys == path {
        Option::Some(BindingGroupId(i as usize))
    } else {
        spec_find_group(gs, root, path, i + 1)
    }
}

/// Reuses the group keyed by the resolved root binding and the literal
/// member path, or synthesizes it.  Identity is by name and path
/// equality only, never spans.
pub open spec fn spec_resolve_group(
    st: StateView,
    root: BindingId,
    path: Seq<Seq<char>>,
) -> (StateView, BindingGroupId) {
    match spec_find_group(st.groups, root, path, 0) {
        Option::Some(g) => (st, g),
        Option::None => {
            let g = BindingGroupId(st.groups.len() as usize);
            ((StateView {
                groups: st.groups.push(BindingGroupView { binding: root, keys: path }),
                ..st
            }), g)
        },
    }
}

/// Appends a diagnostic.
pub open spec fn spec_add_diagnostic(st: StateView, d: DiagnosticView) -> StateView {
    StateView { diagnostics: st.diagnostics.push(d), ..st }
}

/// The first store-subscription binding of this name, if one exists.
pub open spec fn spec_find_store_sub(
    bs: Seq<BindingView>,
    name: Seq<char>,
    i: int,
) -> Option<BindingId>
    decreases bs.len() - i,
{
    if i < 0 || i >= bs.len() {
        Option::None
    } else if bs[i].kind == BindingKind::StoreSub && bs[i].node.name == name {
        Option::Some(BindingId(i as usize))
    } else {
        spec_find_store_sub(bs, name, i + 1)
    }
}

/// Declares a synthetic store-subscription binding.  It joins the
/// binding table but no lexical frame: later uses find it by name
/// through the store-subscription convention, not lexical lookup.
pub open spec fn spec_declare_store_sub(st: StateView, node: IdentifierView) -> (
    StateView,
    BindingId,
) {
    let bid = BindingId(st.bindings.len() as usize);
    ((StateView {
        bindings: st.bindings.push(
            spec_new_binding(
                node,
                BindingKind::StoreSub,
                DeclarationKind::Synthetic,
                Option::None,
                Option::None,
            ),
        ),
        ..st
    }), bid)
}

/// Full equality of two string lists, compared by contents.
fn strings_eq(a: &Vec<String>, b: &Vec<String>) -> (r: bool)
    ensures
        r == (strings_view(a@) == strings_view(b@)),
{
    if a.len() != b.len() {
        proof {
            assert(strings_view(a@).len() != strings_view(b@).len());
        }
        false
    } else {
        let n = a.len();
        for i in 0..n
            invariant
                n == a@.len(),
                a@.len() == b@.len(),
                forall|j: int| 0 <= j < i ==> strings_view(a@)[j] == strings_view(b@)[j],
        {
            if !(a[i] == b[i]) {
                proof {
                    assert(strings_view(a@)[i as int] != strings_view(b@)[i as int]);
                }
                return false;
            }
        }
        proof {
            assert(strings_view(a@) =~= strings_view(b@));
        }
        true
    }
}

/// Copies a list of block ids.
pub fn copy_block_ids(v: &Vec<BlockId>) -> (r: Vec<BlockId>)
    ensures
        r@ == v@,
{
    let mut r: Vec<BlockId> = Vec::new();
    let n = v.len();
    for i in 0..n
        invariant
            n == v@.len(),
            r@ == v@.subrange(0, i as int),
    {
        r.push(v[i]);
        proof {
            assert(r@ =~= v@.subrange(0, i + 1 as int));
        }
    }
    proof {
        assert(v@.subrange(0, n as int) =~= v@);
    }
    r
}

/// Copies a list of binding ids.
pub fn copy_binding_ids(v: &Vec<BindingId>) -> (r: Vec<BindingId>)
    ensures
        r@ == v@,
{
    let mut r: Vec<BindingId> = Vec::new();
    let n = v.len();
    for i in 0..n
        invariant
            n == v@.len(),
            r@ == v@.subrange(0, i as int),
    {
        r.push(v[i]);
        proof {
            assert(r@ =~= v@.subrange(0, i + 1 as int));
        }
    }
    proof {
        assert(v@.subrange(0, n as int) =~= v@);
    }
    r
}

/// Copies a list of strings, contents preserved exactly.
pub fn copy_strings(v: &Vec<String>) -> (r: Vec<String>)
    ensures
        r@ == v@,
{
    let mut r: Vec<String> = Vec::new();
    let n = v.len();
    for i in 0..n
        invariant
            n == v@.len(),
            r@ == v@.subrange(0, i as int),
    {
        r.push(v[i].clone());
        proof {
            assert(r@ =~= v@.subrange(0, i + 1 as int));
        }
    }
    proof {
        assert(v@.subrange(0, n as int) =~= v@);
    }
    r
}

/// Copies a list of copyable items.
pub fn copy_vec<T: Copy>(v: &Vec<T>) -> (r: Vec<T>)
    ensures
        r@ == v@,
{
    let mut r: Vec<T> = Vec::new();
    let n = v.len();
    for i in 0..n
        invariant
            n == v@.len(),
            r@ == v@.subrange(0, i as int),
    {
        r.push(v[i]);
        proof {
            assert(r@ =~= v@.subrange(0, i + 1 as int));
        }
    }
    proof {
        assert(v@.subrange(0, n as int) =~= v@);
    }
    r
}

/// Copies an identifier node, name preserved exactly.
pub fn clone_ident(i: &Identifier) -> (r: Identifier)
    ensures
        r == *i,
{
    Identifier { span: i.span, name: i.name.clone() }
}

impl AnalyzerState {
    /// A fresh state: no frames, no tables.
    pub fn new() -> (st: AnalyzerState)
        ensures
            st@.frames == Seq::<Seq<ScopeEntryView>>::empty(),
            st@.block_stack == Seq::<BlockId>::empty(),
            st@.bindings == Seq::<BindingView>::empty(),
            st@.blocks == Seq::<EachBlockInfoView>::empty(),
            st@.groups == Seq::<BindingGroupView>::empty(),
            st@.diagnostics == Seq::<DiagnosticView>::empty(),
    {
        let st = AnalyzerState {
            frames: Vec::new(),
            block_stack: Vec::new(),
            bindings: Vec::new(),
            blocks: Vec::new(),
            groups: Vec::new(),
            diagnostics: Vec::new(),
        };
        proof {
            assert(st@.frames =~= Seq::<Seq<ScopeEntryView>>::empty());
            assert(st@.bindings =~= Seq::<BindingView>::empty());
            assert(st@.blocks =~= Seq::<EachBlockInfoView>::empty());
            assert(st@.groups =~= Seq::<BindingGroupView>::empty());
            assert(st@.diagnostics =~= Seq::<DiagnosticView>::empty());
        }
        st
    }

    /// Searches the entries of one frame, mirroring
    /// `spec_lookup_entries`.
    fn lookup_entries(es: &Vec<ScopeEntry>, name: &String, i: usize) -> (r: Option<BindingId>)
        ensures
            r == spec_lookup_entries(entries_view(es@), name@, i as int),
        decreases es@.len() - i,
    {
        if i >= es.len() {
            Option::None
        } else if es[i].name == *name {
            Option::Some(es[i].binding)
        } else {
            Self::lookup_entries(es, name, i + 1)
        }
    }

    /// Searches the topmost `n` frames, mirroring `spec_lookup_frames`
    /// on the prefix of length `n`.
    fn lookup_prefix(fs: &Vec<ScopeFrame>, name: &String, n: usize) -> (r: Option<BindingId>)
        requires
            n <= fs@.len(),
        ensures
            r == spec_lookup_frames(frames_view(fs@).subrange(0, n as int), name@),
        decreases n,
    {
        proof {
            assert(frames_view(fs@).subrange(0, n as int).len() == n);
        }
        if n == 0 {
            Option::None
        } else {
            proof {
                assert(frames_view(fs@).subrange(0, n as int).last() == frame_view(
                    fs@[n - 1],
                ));
            }
            match Self::lookup_entries(&fs[n - 1].entries, name, 0) {
                Option::Some(id) => {
                    Option::Some(id)
                },
                Option::None => {
                    let r = Self::lookup_prefix(fs, name, n - 1);
                    proof {
                        assert(frames_view(fs@).subrange(0, n as int).drop_last()
                            =~= frames_view(fs@).subrange(0, n as int - 1));
                    }
                    r
                },
            }
        }
    }

    /// Resolves `name` through the scope stack, innermost frame first.
    pub fn lookup(&self, name: &String) -> (r: Option<BindingId>)
        ensures
            r == spec_lookup(self@, name@),
    {
        let n = self.frames.len();
        let r = Self::lookup_prefix(&self.frames, name, n);
        proof {
            assert(frames_view(self.frames@).subrange(0, n as int) =~= frames_view(
                self.frames@,
            ));
        }
        r
    }

    /// Pushes a fresh, empty lexical frame.
    pub fn push_frame(&mut self)
        ensures
            final(self)@ == (StateView { frames: old(self)@.frames.push(Seq::empty()), ..old(self)@ }),
    {
        self.frames.push(ScopeFrame { entries: Vec::new() });
        proof {
            assert(entries_view(Seq::<ScopeEntry>::empty()) =~= Seq::<ScopeEntryView>::empty());
            assert(self@.frames =~= old(self)@.frames.push(Seq::empty()));
            assert(self@ == (StateView {
                frames: old(self)@.frames.push(Seq::empty()),
                ..old(self)@
            }));
        }
    }

    /// Pops the innermost frame; its bindings become unreachable to
    /// lookup but stay owned by the binding table.
    pub fn pop_frame(&mut self)
        ensures
            final(self)@ == spec_pop_frame(old(self)@),
    {
        if self.frames.len() > 0 {
            let _ = self.frames.pop();
            proof {
                assert(self@.frames =~= old(self)@.frames.drop_last());
                assert(self@ == (StateView {
                    frames: old(self)@.frames.drop_last(),
                    ..old(self)@
                }));
            }
        }
    }

    /// Declares `node` in the innermost frame, as `spec_declare` says.
    pub fn declare(
        &mut self,
        node: Identifier,
        kind: BindingKind,
        decl: DeclarationKind,
        initial: Option<BindingInitial>,
        alias: Option<String>,
    ) -> (r: BindingId)
        ensures
            final(self)@ == spec_declare(
                old(self)@,
                ident_view(node),
                kind,
                decl,
                initial,
                opt_string_view(alias),
            ).0,
            r == spec_declare(
                old(self)@,
                ident_view(node),
                kind,
                decl,
                initial,
                opt_string_view(alias),
            ).1,
    {
        if self.frames.len() == 0 {
            return BindingId(self.bindings.len());
        }
        let ghost st0 = self@;
        let ghost nodev = ident_view(node);
        let ghost aliasv = opt_string_view(alias);
        let top_idx = self.frames.len() - 1;
        proof {
            assert(st0.frames.last() == frame_view(self.frames@[top_idx as int]));
        }
        let found = Self::lookup_entries(&self.frames[top_idx].entries, &node.name, 0);
        match found {
            Option::Some(bid) => {
                let same = bid.0 < self.bindings.len() && self.bindings[bid.0].kind == kind;
                if same {
                    bid
                } else {
                    let first = if bid.0 < self.bindings.len() {
                        self.bindings[bid.0].node.span
                    } else {
                        node.span
                    };
                    let d = Diagnostic::DuplicateBinding(
                        DuplicateBinding { name: node.name, first, second: node.span },
                    );
                    let ghost dv = diagnostic_view(d);
                    self.diagnostics.push(d);
                    proof {
                        assert(self@.diagnostics =~= st0.diagnostics.push(dv));
                        assert(self@ == (StateView {
                            diagnostics: st0.diagnostics.push(dv),
                            ..st0
                        }));
                    }
                    bid
                }
            },
            Option::None => {
                let bid = BindingId(self.bindings.len());
                let entry_name = node.name.clone();
                self.bindings.push(
                    Binding {
                        node,
                        kind,
                        declaration_kind: decl,
                        initial,
                        references: Vec::new(),
                        mutated: false,
                        reassigned: false,
                        alias,
                        legacy_dependencies: Vec::new(),
                    },
                );
                let fr = &mut self.frames[top_idx];
                fr.entries.push(ScopeEntry { name: entry_name, binding: bid });
                proof {
                    assert(references_view(Seq::<BindingReference>::empty()) =~= Seq::<
                        BindingReferenceView,
                    >::empty());
                    assert(self@.bindings =~= st0.bindings.push(
                        spec_new_binding(
                            nodev,
                            kind,
                            decl,
                            initial,
                            aliasv,
                        ),
                    ));
                    assert(frame_view(self.frames@[top_idx as int]) =~= st0.frames.last().push(
                        ScopeEntryView { name: nodev.name, binding: bid },
                    ));
                    assert(self@.frames =~= st0.frames.update(
                        st0.frames.len() - 1,
                        st0.frames.last().push(ScopeEntryView { name: nodev.name, binding: bid }),
                    ));
                }
                bid
            },
        }
    }

    /// Appends a use site to a binding, as `spec_record_reference`
    /// says.
    pub fn record_reference(&mut self, bid: BindingId, span: Span)
        ensures
            final(self)@ == spec_record_reference(old(self)@, bid, span),
    {
        let ghost st0 = self@;
        if bid.0 < self.bindings.len() {
            let path = copy_block_ids(&self.block_stack);
            let b = &mut self.bindings[bid.0];
            b.references.push(BindingReference { span, path });
            proof {
                assert(references_view(final(b).references@) =~= st0.bindings[bid.0 as int]
                    .references.push(BindingReferenceView { span, path: st0.block_stack }));
                assert(self@.bindings =~= st0.bindings.update(
                    bid.0 as int,
                    spec_record_reference(st0, bid, span).bindings[bid.0 as int],
                ));
            }
        }
    }

    /// Marks a binding mutated, as `spec_record_mutation` says.
    pub fn record_mutation(&mut self, bid: BindingId, reassign: bool)
        ensures
            final(self)@ == spec_record_mutation(old(self)@, bid, reassign),
    {
        let ghost st0 = self@;
        if bid.0 < self.bindings.len() {
            let b = &mut self.bindings[bid.0];
            b.mutated = true;
            b.reassigned = b.reassigned || reassign;
            proof {
                assert(self@.bindings =~= st0.bindings.update(
                    bid.0 as int,
                    spec_record_mutation(st0, bid, reassign).bindings[bid.0 as int],
                ));
            }
        }
    }

    /// Re-classifies a binding under the legacy reactive model, as
    /// `spec_set_legacy` says.
    pub fn set_legacy(&mut self, bid: BindingId, kind: BindingKind, deps: Vec<BindingId>)
        ensures
            final(self)@ == spec_set_legacy(old(self)@, bid, kind, deps@),
    {
        let ghost st0 = self@;
        if bid.0 < self.bindings.len() {
            let mut newdeps = copy_binding_ids(&self.bindings[bid.0].legacy_dependencies);
            let mut rest = deps;
            newdeps.append(&mut rest);
            let b = &mut self.bindings[bid.0];
            b.kind = kind;
            b.legacy_dependencies = newdeps;
            proof {
                assert(self@.bindings =~= st0.bindings.update(
                    bid.0 as int,
                    spec_set_legacy(st0, bid, kind, deps@).bindings[bid.0 as int],
                ));
            }
        }
    }

    /// Registers and enters an `each` block, as `spec_push_block`
    /// says.
    pub fn push_block(
        &mut self,
        declarations: Vec<BindingId>,
        iterable_root: Option<BindingId>,
        iterable_path: Vec<String>,
        keyed: bool,
    ) -> (r: BlockId)
        ensures
            final(self)@ == spec_push_block(
                old(self)@,
                declarations@,
                iterable_root,
                strings_view(iterable_path@),
                keyed,
            ).0,
            r == spec_push_block(
                old(self)@,
                declarations@,
                iterable_root,
                strings_view(iterable_path@),
                keyed,
            ).1,
    {
        let ghost st0 = self@;
        let ghost declsv = declarations@;
        let ghost pathv = strings_view(iterable_path@);
        let parent = if self.block_stack.len() > 0 {
            Option::Some(self.block_stack[self.block_stack.len() - 1])
        } else {
            Option::None
        };
        let bid = BlockId(self.blocks.len());
        self.blocks.push(
            EachBlockInfo {
                parent,
                declarations,
                iterable_root,
                iterable_path,
                contains_group_binding: false,
                item_referenced_by_bind: false,
                keyed,
            },
        );
        self.block_stack.push(bid);
        proof {
            assert(self@.blocks =~= st0.blocks.push(
                spec_push_block(st0, declsv, iterable_root, pathv, keyed).0.blocks.last(),
            ));
        }
        bid
    }

    /// Leaves the innermost `each` block, as `spec_pop_block` says.
    pub fn pop_block(&mut self)
        ensures
            final(self)@ == spec_pop_block(old(self)@),
    {
        if self.block_stack.len() > 0 {
            let _ = self.block_stack.pop();
            proof {
                assert(self@.block_stack =~= old(self)@.block_stack.drop_last());
            }
        }
    }

    /// The innermost enclosing `each` block, if the traversal is
    /// inside one.
    pub fn current_block(&self) -> (r: Option<BlockId>)
        ensures
            r == (if self@.block_stack.len() > 0 {
                Option::Some(self@.block_stack.last())
            } else {
                Option::<BlockId>::None
            }),
    {
        if self.block_stack.len() > 0 {
            Option::Some(self.block_stack[self.block_stack.len() - 1])
        } else {
            Option::None
        }
    }

    /// Marks a block as crossed by a group `bind:` chain, as
    /// `spec_mark_block_group` says.
    pub fn mark_block_group(&mut self, bid: BlockId)
        ensures
            final(self)@ == spec_mark_block_group(old(self)@, bid),
    {
        let ghost st0 = self@;
        if bid.0 < self.blocks.len() {
            let b = &mut self.blocks[bid.0];
            b.contains_group_binding = true;
            proof {
                assert(self@.blocks =~= st0.blocks.update(
                    bid.0 as int,
                    spec_mark_block_group(st0, bid).blocks[bid.0 as int],
                ));
            }
        }
    }

    /// Marks a block whose declarations a `bind:` directive targets,
    /// as `spec_mark_block_bind` says.
    pub fn mark_block_bind(&mut self, bid: BlockId)
        ensures
            final(self)@ == spec_mark_block_bind(old(self)@, bid),
    {
        let ghost st0 = self@;
        if bid.0 < self.blocks.len() {
            let b = &mut self.blocks[bid.0];
            b.item_referenced_by_bind = true;
            proof {
                assert(self@.blocks =~= st0.blocks.update(
                    bid.0 as int,
                    spec_mark_block_bind(st0, bid).blocks[bid.0 as int],
                ));
            }
        }
    }

    /// Searches the group table, mirroring `spec_find_group`.
    fn find_group(&self, root: BindingId, path: &Vec<String>, i: usize) -> (r: Option<
        BindingGroupId,
    >)
        ensures
            r == spec_find_group(self@.groups, root, strings_view(path@), i as int),
        decreases self.groups@.len() - i,
    {
        if i >= self.groups.len() {
            Option::None
        } else {
            let keq = strings_eq(&self.groups[i].keys, path);
            if self.groups[i].binding == root && keq {
                Option::Some(BindingGroupId(i))
            } else {
                self.find_group(root, path, i + 1)
            }
        }
    }

    /// Reuses or synthesizes the binding group for this root and
    /// path, as `spec_resolve_group` says.
    pub fn resolve_group(&mut self, root: BindingId, path: Vec<String>) -> (r: BindingGroupId)
        ensures
            final(self)@ == spec_resolve_group(old(self)@, root, strings_view(path@)).0,
            r == spec_resolve_group(old(self)@, root, strings_view(path@)).1,
    {
        let ghost st0 = self@;
        let ghost pathv = strings_view(path@);
        let found = self.find_group(root, &path, 0);
        match found {
            Option::Some(g) => g,
            Option::None => {
                let g = BindingGroupId(self.groups.len());
                self.groups.push(BindingGroup { binding: root, keys: path });
                proof {
                    assert(self@.groups =~= st0.groups.push(
                        BindingGroupView { binding: root, keys: pathv },
                    ));
                }
                g
            },
        }
    }

    /// Appends a diagnostic, as `spec_add_diagnostic` says.
    pub fn add_diagnostic(&mut self, d: Diagnostic)
        ensures
            final(self)@ == spec_add_diagnostic(old(self)@, diagnostic_view(d)),
    {
        let ghost dv = diagnostic_view(d);
        let ghost st0 = self@;
        self.diagnostics.push(d);
        proof {
            assert(self@.diagnostics =~= st0.diagnostics.push(dv));
        }
    }

    /// Searches the binding table for an existing store subscription,
    /// mirroring `spec_find_store_sub`.
    pub fn find_store_sub(&self, name: &String, i: usize) -> (r: Option<BindingId>)
        ensures
            r == spec_find_store_sub(self@.bindings, name@, i as int),
        decreases self.bindings@.len() - i,
    {
        if i >= self.bindings.len() {
            Option::None
        } else {
            let b = &self.bindings[i];
            let is_sub = match b.kind {
                BindingKind::StoreSub => true,
                _ => false,
            };
            if is_sub && b.node.name == *name {
                Option::Some(BindingId(i))
            } else {
                self.find_store_sub(name, i + 1)
            }
        }
    }

    /// Declares a synthetic store-subscription binding, as
    /// `spec_declare_store_sub` says.
    pub fn declare_store_sub(&mut self, node: Identifier) -> (r: BindingId)
        ensures
            final(self)@ == spec_declare_store_sub(old(self)@, ident_view(node)).0,
            r == spec_declare_store_sub(old(self)@, ident_view(node)).1,
    {
        let ghost st0 = self@;
        let ghost nodev = ident_view(node);
        let bid = BindingId(self.bindings.len());
        self.bindings.push(
            Binding {
                node,
                kind: BindingKind::StoreSub,
                declaration_kind: DeclarationKind::Synthetic,
                initial: Option::None,
                references: Vec::new(),
                mutated: false,
                reassigned: false,
                alias: Option::None,
                legacy_dependencies: Vec::new(),
            },
        );
        proof {
            assert(references_view(Seq::<BindingReference>::empty()) =~= Seq::<
                BindingReferenceView,
            >::empty());
            assert(self@.bindings =~= st0.bindings.push(
                spec_new_binding(
                    nodev,
                    BindingKind::StoreSub,
                    DeclarationKind::Synthetic,
                    Option::None,
                    Option::None,
                ),
            ));
        }
        bid
    }
}

} // verus!
