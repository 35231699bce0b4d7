//! The analysis entry point.
//!
//! `analyze` takes a parsed-but-unannotated component and returns the
//! same tree with every metadata slot populated, together with the
//! flat tables of bindings, blocks and binding groups and the
//! accumulated diagnostics.  The whole result is a pure function of
//! the input tree — stated by `spec_analyze` — so analyzing the same
//! tree twice yields identical metadata.

use vstd::prelude::*;
use crate::ast::{Namespace, Root};
use crate::binding::{
    Binding, BindingGroup, BindingView, Diagnostic, EachBlockInfo, bindings_view,
    block_infos_view, diagnostics_view, groups_view,
};
use crate::collect::{collect_fragment, collect_statements, spec_collect_fragment,
    spec_collect_statements, spec_initial_state};
use crate::scope::{AnalyzerState, StateView, spec_pop_frame, spec_push_frame};
use crate::taint::{spec_taint_fragment, taint_fragment};
use crate::views::{RootView, root_view};

verus! {

/// The collection pass over a whole component: the root scope holds
/// the module script's declarations, then the instance script's, and
/// the template fragment is collected inside it.
pub open spec fn spec_collect_root(r: RootView) -> (RootView, StateView) {
    let scoped = match r.css {
        Option::Some(s) => s.stylesheet.rule_count > 0,
        Option::None => false,
    };
    let ns = match r.options {
        Option::Some(o) => match o.namespace {
            Option::Some(n) => n,
            Option::None => Namespace::Html,
        },
        Option::None => Namespace::Html,
    };
    let st0 = spec_push_frame(spec_initial_state());
    let st1 = match r.module {
        Option::Some(s) => spec_collect_statements(s.program.statements, 0, st0),
        Option::None => st0,
    };
    let st2 = match r.instance {
        Option::Some(s) => spec_collect_statements(s.program.statements, 0, st1),
        Option::None => st1,
    };
    let fr = spec_collect_fragment(r.fragment, ns, scoped, st2);
    let st3 = spec_pop_frame(fr.1);
    ((RootView { fragment: fr.0, ..r }), st3)
}

/// The whole analysis: collect, then taint against the final binding
/// table.
pub open spec fn spec_analyze(r: RootView) -> (RootView, StateView) {
    let c = spec_collect_root(r);
    (
        (RootView { fragment: spec_taint_fragment(c.0.fragment, c.1.bindings), ..c.0 }),
        c.1,
    )
}

/// The analysis output: the tree with all metadata slots populated,
/// and the flat tables codegen reads.
#[derive(Debug)]
pub struct Analysis {
    /// The analyzed tree.
    pub root: Root,
    /// Every declared binding, addressed by `BindingId`.
    pub bindings: Vec<Binding>,
    /// Every `each` block, addressed by `BlockId`, with parent links.
    pub blocks: Vec<EachBlockInfo>,
    /// Every synthesized binding group, addressed by `BindingGroupId`.
    pub groups: Vec<BindingGroup>,
    /// Every recoverable error the pass reported.
    pub diagnostics: Vec<Diagnostic>,
}

/// Analyzes one component: resolves and classifies every binding,
/// propagates dynamic taint, classifies elements, and resolves loop
/// and binding-group metadata, exactly as `spec_analyze` says.
pub fn analyze(root: Root) -> (r: Analysis)
    ensures
        root_view(r.root) == spec_analyze(root_view(root)).0,
        bindings_view(r.bindings@) == spec_analyze(root_view(root)).1.bindings,
        block_infos_view(r.blocks@) == spec_analyze(root_view(root)).1.blocks,
        groups_view(r.groups@) == spec_analyze(root_view(root)).1.groups,
        diagnostics_view(r.diagnostics@) == spec_analyze(root_view(root)).1.diagnostics,
{
    let mut st = AnalyzerState::new();
    proof {
        assert(st@ == spec_initial_state());
    }
    let scoped = match &root.css {
        Option::Some(s) => s.stylesheet.rule_count > 0,
        Option::None => false,
    };
    let ns = match &root.options {
        Option::Some(o) => match o.namespace {
            Option::Some(n) => n,
            Option::None => Namespace::Html,
        },
        Option::None => Namespace::Html,
    };
    st.push_frame();
    match &root.module {
        Option::Some(s) => collect_statements(&mut st, &s.program.statements, 0),
        Option::None => {},
    }
    match &root.instance {
        Option::Some(s) => collect_statements(&mut st, &s.program.statements, 0),
        Option::None => {},
    }
    let frag2 = collect_fragment(&mut st, &root.fragment, ns, scoped);
    st.pop_frame();
    let frag3 = taint_fragment(&frag2, &st.bindings);
    Analysis {
        root: Root {
            span: root.span,
            options: root.options,
            fragment: frag3,
            css: root.css,
            instance: root.instance,
            module: root.module,
            ts: root.ts,
        },
        bindings: st.bindings,
        blocks: st.blocks,
        groups: st.groups,
        diagnostics: st.diagnostics,
    }
}

} // verus!
