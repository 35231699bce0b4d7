use ssc_semantic::analyze::{analyze, Analysis};
use ssc_semantic::ast::{
    Attribute, BindDirective, BindDirectiveExpression, Block, DirectiveAttribute, EachBlock,
    Element, ElementAttribute, ExpressionTag, Fragment, FragmentNode, Identifier, Namespace,
    OnDirective, RegularElement, Root, Script, ScriptContext, Span, SpreadAttribute, Style,
    StyleSheet, Tag, Text,
};
use ssc_semantic::binding::{Binding, BindingId, BindingKind, Diagnostic};
use ssc_semantic::expression::{
    AssignmentExpression, CallExpression, CompoundExpression, Expression, FunctionExpression,
    MemberExpression, MemberProperty, UpdateExpression,
};
use ssc_semantic::script::{
    BindingPattern, ObjectPattern, PatternProperty, Program, ReactiveStatement, Statement,
    VariableDeclaration, VariableDeclarationKind, VariableDeclarator,
};

fn sp() -> Span {
    Span { start: 0, end: 0 }
}

fn ident(n: &str) -> Identifier {
    Identifier { span: sp(), name: n.to_string() }
}

fn e_ident(n: &str) -> Expression {
    Expression::Identifier(ident(n))
}

fn e_lit() -> Expression {
    Expression::Literal(sp())
}

fn e_call(callee: Expression, args: Vec<Expression>) -> Expression {
    Expression::Call(CallExpression { span: sp(), callee: Box::new(callee), arguments: args })
}

fn e_member(object: Expression, prop: &str) -> Expression {
    Expression::Member(MemberExpression {
        span: sp(),
        object: Box::new(object),
        property: MemberProperty::Identifier(prop.to_string()),
    })
}

fn e_update(target: Expression) -> Expression {
    Expression::Update(UpdateExpression { span: sp(), target: Box::new(target) })
}

fn e_assign(target: Expression, value: Expression) -> Expression {
    Expression::Assignment(AssignmentExpression {
        span: sp(),
        target: Box::new(target),
        value: Box::new(value),
    })
}

fn e_arrow(body: Vec<Expression>) -> Expression {
    Expression::Function(FunctionExpression { span: sp(), params: Vec::new(), body })
}

fn let_decl(name: &str, init: Expression) -> Statement {
    Statement::VariableDeclaration(VariableDeclaration {
        span: sp(),
        kind: VariableDeclarationKind::Let,
        declarations: vec![VariableDeclarator {
            span: sp(),
            id: BindingPattern::Identifier(ident(name)),
            init: Some(init),
        }],
    })
}

fn instance_script(statements: Vec<Statement>) -> Script {
    Script {
        span: sp(),
        context: ScriptContext::Instance,
        program: Program { span: sp(), statements },
        attributes: Vec::new(),
    }
}

fn expr_tag(e: Expression) -> FragmentNode {
    FragmentNode::Tag(Tag::ExpressionTag(ExpressionTag {
        span: sp(),
        expression: e,
        flags: None,
        dependencies: Vec::new(),
    }))
}

fn fragment(nodes: Vec<FragmentNode>) -> Fragment {
    Fragment { nodes, transparent: false }
}

fn regular(name: &str, attributes: Vec<ElementAttribute>, body: Vec<FragmentNode>) -> FragmentNode {
    FragmentNode::Element(Element::RegularElement(RegularElement {
        span: sp(),
        name: name.to_string(),
        attributes,
        fragment: fragment(body),
        flags: None,
    }))
}

fn root(instance: Option<Script>, nodes: Vec<FragmentNode>) -> Root {
    Root {
        span: sp(),
        options: None,
        fragment: fragment(nodes),
        css: None,
        instance,
        module: None,
        ts: false,
    }
}

fn find_binding<'a>(a: &'a Analysis, name: &str) -> (BindingId, &'a Binding) {
    for (i, b) in a.bindings.iter().enumerate() {
        if b.node.name == name {
            return (BindingId(i), b);
        }
    }
    panic!("no binding named {}", name);
}

fn tag_of(node: &FragmentNode) -> &ExpressionTag {
    match node {
        FragmentNode::Tag(Tag::ExpressionTag(t)) => t,
        _ => panic!("not an expression tag"),
    }
}

fn each_of(node: &FragmentNode) -> &EachBlock {
    match node {
        FragmentNode::Block(Block::EachBlock(b)) => b,
        _ => panic!("not an each block"),
    }
}

fn element_of(node: &FragmentNode) -> &RegularElement {
    match node {
        FragmentNode::Element(Element::RegularElement(e)) => e,
        _ => panic!("not a regular element"),
    }
}

fn on_click(handler: Expression) -> ElementAttribute {
    ElementAttribute::DirectiveAttribute(DirectiveAttribute::OnDirective(OnDirective {
        span: sp(),
        name: "click".to_string(),
        expression: Some(handler),
        modifiers: Vec::new(),
    }))
}

fn bind_to(name: &str, target: Expression) -> ElementAttribute {
    let expression = match target {
        Expression::Identifier(i) => BindDirectiveExpression::Identifier(i),
        Expression::Member(m) => BindDirectiveExpression::MemberExpression(m),
        _ => panic!("bind target must be an identifier or member path"),
    };
    ElementAttribute::DirectiveAttribute(DirectiveAttribute::BindDirective(BindDirective {
        span: sp(),
        name: name.to_string(),
        expression,
        binding_group_name: None,
        parent_block: None,
    }))
}

fn bind_group_of(el: &RegularElement) -> Option<ssc_semantic::binding::BindingGroupId> {
    for a in el.attributes.iter() {
        if let ElementAttribute::DirectiveAttribute(DirectiveAttribute::BindDirective(b)) = a {
            return b.binding_group_name;
        }
    }
    panic!("no bind directive");
}

#[test]
fn state_counter_scenario() {
    // let count = state(0); <button on:click={() => count++}>{count}</button>
    let script = instance_script(vec![let_decl("count", e_call(e_ident("state"), vec![e_lit()]))]);
    let button = regular(
        "button",
        vec![on_click(e_arrow(vec![e_update(e_ident("count"))]))],
        vec![expr_tag(e_ident("count"))],
    );
    let a = analyze(root(Some(script), vec![button]));
    let (_, count) = find_binding(&a, "count");
    assert!(matches!(count.kind, BindingKind::State));
    assert!(count.mutated);
    let el = element_of(&a.root.fragment.nodes[0]);
    let tag = tag_of(&el.fragment.nodes[0]);
    let flags = tag.flags.expect("flags populated");
    assert!(flags.dynamic);
    assert!(!flags.call_expression);
}

#[test]
fn keyed_each_is_not_controlled() {
    // {#each items as item, i (item.id)} {item} {/each}
    let script = instance_script(vec![let_decl("items", e_lit())]);
    let each = FragmentNode::Block(Block::EachBlock(EachBlock {
        span: sp(),
        expression: e_ident("items"),
        context: BindingPattern::Identifier(ident("item")),
        body: fragment(vec![expr_tag(e_ident("item"))]),
        fallback: None,
        index: Some(ident("i")),
        key: Some(e_member(e_ident("item"), "id")),
        metadata: None,
    }));
    let a = analyze(root(Some(script), vec![each]));
    let each = each_of(&a.root.fragment.nodes[0]);
    let meta = each.metadata.as_ref().expect("metadata populated");
    assert!(!meta.is_controlled);
    let (items_id, _) = find_binding(&a, "items");
    assert_eq!(meta.array_name, Some(items_id));
    let (_, item) = find_binding(&a, "item");
    let (_, index) = find_binding(&a, "i");
    assert!(matches!(item.kind, BindingKind::Each));
    assert!(matches!(index.kind, BindingKind::Each));
    assert_eq!(meta.declarations.len(), 2);
}

#[test]
fn unkeyed_each_without_bind_is_controlled() {
    let script = instance_script(vec![let_decl("items", e_lit())]);
    let each = FragmentNode::Block(Block::EachBlock(EachBlock {
        span: sp(),
        expression: e_ident("items"),
        context: BindingPattern::Identifier(ident("item")),
        body: fragment(vec![expr_tag(e_ident("item"))]),
        fallback: None,
        index: None,
        key: None,
        metadata: None,
    }));
    let a = analyze(root(Some(script), vec![each]));
    let each = each_of(&a.root.fragment.nodes[0]);
    assert!(each.metadata.as_ref().unwrap().is_controlled);
}

#[test]
fn scope_shadowing_resolves_innermost() {
    // let x at the root; {#each items as x}{x}{/each}{x}
    let script = instance_script(vec![
        let_decl("x", e_lit()),
        let_decl("items", e_lit()),
    ]);
    let each = FragmentNode::Block(Block::EachBlock(EachBlock {
        span: sp(),
        expression: e_ident("items"),
        context: BindingPattern::Identifier(ident("x")),
        body: fragment(vec![expr_tag(e_ident("x"))]),
        fallback: None,
        index: None,
        key: None,
        metadata: None,
    }));
    let outer_tag = expr_tag(e_ident("x"));
    let a = analyze(root(Some(script), vec![each, outer_tag]));

    let mut outer_x: Option<BindingId> = None;
    let mut inner_x: Option<BindingId> = None;
    for (i, b) in a.bindings.iter().enumerate() {
        if b.node.name == "x" {
            match b.kind {
                BindingKind::Each => inner_x = Some(BindingId(i)),
                _ => outer_x = Some(BindingId(i)),
            }
        }
    }
    let outer_x = outer_x.expect("outer x declared");
    let inner_x = inner_x.expect("inner x declared");
    assert_ne!(outer_x, inner_x);

    let each = each_of(&a.root.fragment.nodes[0]);
    let inner_tag = tag_of(&each.body.nodes[0]);
    assert_eq!(inner_tag.dependencies, vec![inner_x]);
    let outer_tag = tag_of(&a.root.fragment.nodes[1]);
    assert_eq!(outer_tag.dependencies, vec![outer_x]);
}

#[test]
fn binding_groups_share_identity_per_array() {
    // {#each items as item} <input bind:checked={item.done}> twice,
    // and a sibling {#each others as o} <input bind:checked={o.done}>.
    let script = instance_script(vec![
        let_decl("items", e_lit()),
        let_decl("others", e_lit()),
    ]);
    let each_items = FragmentNode::Block(Block::EachBlock(EachBlock {
        span: sp(),
        expression: e_ident("items"),
        context: BindingPattern::Identifier(ident("item")),
        body: fragment(vec![
            regular("input", vec![bind_to("checked", e_member(e_ident("item"), "done"))], vec![]),
            regular("input", vec![bind_to("checked", e_member(e_ident("item"), "done"))], vec![]),
        ]),
        fallback: None,
        index: None,
        key: None,
        metadata: None,
    }));
    let each_others = FragmentNode::Block(Block::EachBlock(EachBlock {
        span: sp(),
        expression: e_ident("others"),
        context: BindingPattern::Identifier(ident("o")),
        body: fragment(vec![
            regular("input", vec![bind_to("checked", e_member(e_ident("o"), "done"))], vec![]),
        ]),
        fallback: None,
        index: None,
        key: None,
        metadata: None,
    }));
    let a = analyze(root(Some(script), vec![each_items, each_others]));

    let b1 = each_of(&a.root.fragment.nodes[0]);
    let g1 = bind_group_of(element_of(&b1.body.nodes[0])).expect("grouped");
    let g2 = bind_group_of(element_of(&b1.body.nodes[1])).expect("grouped");
    assert_eq!(g1, g2);
    let b2 = each_of(&a.root.fragment.nodes[1]);
    let g3 = bind_group_of(element_of(&b2.body.nodes[0])).expect("grouped");
    assert_ne!(g1, g3);

    let meta1 = b1.metadata.as_ref().unwrap();
    assert!(meta1.contains_group_binding);
    assert!(!meta1.is_controlled);
    let (items_id, _) = find_binding(&a, "items");
    assert_eq!(a.groups[g1.0].binding, items_id);
    assert_eq!(a.groups[g1.0].keys, vec!["done".to_string()]);
}

#[test]
fn call_expression_taints() {
    // {fmt(x)} with let x = 1
    let script = instance_script(vec![
        let_decl("fmt", e_lit()),
        let_decl("x", e_lit()),
    ]);
    let a = analyze(root(Some(script), vec![expr_tag(e_call(e_ident("fmt"), vec![e_ident("x")]))]));
    let tag = tag_of(&a.root.fragment.nodes[0]);
    let flags = tag.flags.unwrap();
    assert!(flags.call_expression);
    assert!(flags.dynamic);
}

#[test]
fn untouched_normal_binding_is_static() {
    // {name} with let name = 1, never mutated
    let script = instance_script(vec![let_decl("name", e_lit())]);
    let a = analyze(root(Some(script), vec![expr_tag(e_ident("name"))]));
    let tag = tag_of(&a.root.fragment.nodes[0]);
    let flags = tag.flags.unwrap();
    assert!(!flags.dynamic);
    assert!(!flags.call_expression);
}

#[test]
fn mutation_in_handler_taints_reads() {
    // {a} and a handler that assigns a
    let script = instance_script(vec![let_decl("a", e_lit())]);
    let button = regular(
        "button",
        vec![on_click(e_arrow(vec![e_assign(e_ident("a"), e_lit())]))],
        vec![],
    );
    let a = analyze(root(Some(script), vec![expr_tag(e_ident("a")), button]));
    let tag = tag_of(&a.root.fragment.nodes[0]);
    assert!(tag.flags.unwrap().dynamic);
    let (_, b) = find_binding(&a, "a");
    assert!(b.mutated);
    assert!(b.reassigned);
}

#[test]
fn duplicate_binding_reported_first_kept() {
    let script = instance_script(vec![
        let_decl("x", e_call(e_ident("state"), vec![e_lit()])),
        let_decl("x", e_lit()),
    ]);
    let a = analyze(root(Some(script), vec![]));
    assert!(a.diagnostics.iter().any(|d| matches!(d, Diagnostic::DuplicateBinding(_))));
    let (_, x) = find_binding(&a, "x");
    assert!(matches!(x.kind, BindingKind::State));
}

#[test]
fn unresolved_group_binding_reported() {
    let input = regular("input", vec![bind_to("value", e_member(e_ident("missing"), "field"))], vec![]);
    let a = analyze(root(None, vec![input]));
    assert!(a.diagnostics.iter().any(|d| matches!(d, Diagnostic::UnresolvedGroupBinding(_))));
    let el = element_of(&a.root.fragment.nodes[0]);
    assert!(bind_group_of(el).is_none());
}

#[test]
fn store_subscription_synthesized() {
    let a = analyze(root(None, vec![expr_tag(e_ident("$store"))]));
    let (_, b) = find_binding(&a, "$store");
    assert!(matches!(b.kind, BindingKind::StoreSub));
    let tag = tag_of(&a.root.fragment.nodes[0]);
    assert!(tag.flags.unwrap().dynamic);
}

#[test]
fn legacy_reactive_classification() {
    // let count = 1; $: doubled = count; {doubled}
    let script = instance_script(vec![
        let_decl("count", e_lit()),
        Statement::ReactiveStatement(ReactiveStatement {
            span: sp(),
            expression: e_assign(e_ident("doubled"), e_ident("count")),
        }),
    ]);
    let a = analyze(root(Some(script), vec![expr_tag(e_ident("doubled"))]));
    let (count_id, _) = find_binding(&a, "count");
    let (_, doubled) = find_binding(&a, "doubled");
    assert!(matches!(doubled.kind, BindingKind::LegacyReactive));
    assert_eq!(doubled.legacy_dependencies, vec![count_id]);
    let tag = tag_of(&a.root.fragment.nodes[0]);
    assert!(tag.flags.unwrap().dynamic);
}

#[test]
fn props_destructuring_classification() {
    // let { a, b: c, ...rest } = props(), with c marked bindable
    let pattern = BindingPattern::Object(ObjectPattern {
        span: sp(),
        properties: vec![
            PatternProperty { span: sp(), key: "a".to_string(), value: ident("a"), bindable: false },
            PatternProperty { span: sp(), key: "b".to_string(), value: ident("c"), bindable: true },
        ],
        rest: Some(ident("rest")),
    });
    let script = instance_script(vec![Statement::VariableDeclaration(VariableDeclaration {
        span: sp(),
        kind: VariableDeclarationKind::Let,
        declarations: vec![VariableDeclarator {
            span: sp(),
            id: pattern,
            init: Some(e_call(e_ident("props"), vec![])),
        }],
    })]);
    let a = analyze(root(Some(script), vec![expr_tag(e_ident("a"))]));
    let (_, pa) = find_binding(&a, "a");
    let (_, pc) = find_binding(&a, "c");
    let (_, prest) = find_binding(&a, "rest");
    assert!(matches!(pa.kind, BindingKind::Prop));
    assert!(matches!(pc.kind, BindingKind::BindableProp));
    assert!(matches!(prest.kind, BindingKind::RestProp));
    assert_eq!(pc.alias.as_deref(), Some("b"));
    assert!(pa.alias.is_none());
    let tag = tag_of(&a.root.fragment.nodes[0]);
    assert!(tag.flags.unwrap().dynamic);
}

#[test]
fn spread_attribute_sets_flag() {
    let script = instance_script(vec![let_decl("attrs", e_lit())]);
    let div = regular(
        "div",
        vec![ElementAttribute::SpreadAttribute(SpreadAttribute {
            span: sp(),
            expression: e_ident("attrs"),
            flags: None,
            dependencies: Vec::new(),
        })],
        vec![],
    );
    let a = analyze(root(Some(script), vec![div]));
    let el = element_of(&a.root.fragment.nodes[0]);
    let flags = el.flags.unwrap();
    assert!(flags.spread);
    assert!(!flags.svg);
}

#[test]
fn style_block_scopes_elements() {
    let styled = Root {
        span: sp(),
        options: None,
        fragment: fragment(vec![regular("div", vec![], vec![])]),
        css: Some(Style {
            span: sp(),
            attributes: Vec::new(),
            stylesheet: StyleSheet { span: sp(), rule_count: 3 },
        }),
        instance: None,
        module: None,
        ts: false,
    };
    let a = analyze(styled);
    let el = element_of(&a.root.fragment.nodes[0]);
    assert!(el.flags.unwrap().scoped);

    let plain = analyze(root(None, vec![regular("div", vec![], vec![])]));
    let el = element_of(&plain.root.fragment.nodes[0]);
    assert!(!el.flags.unwrap().scoped);
}

#[test]
fn reanalysis_yields_identical_metadata() {
    // The analysis is a function of the pre-analysis tree: two runs
    // over the same input produce identical metadata.
    fn build() -> Root {
        let script = instance_script(vec![
            let_decl("count", e_call(e_ident("state"), vec![e_lit()])),
            let_decl("items", e_lit()),
        ]);
        let each = FragmentNode::Block(Block::EachBlock(EachBlock {
            span: sp(),
            expression: e_ident("items"),
            context: BindingPattern::Identifier(ident("item")),
            body: fragment(vec![
                regular("input", vec![bind_to("checked", e_member(e_ident("item"), "done"))], vec![]),
                expr_tag(e_ident("count")),
            ]),
            fallback: None,
            index: None,
            key: None,
            metadata: None,
        }));
        root(Some(script), vec![each])
    }
    fn flags_of(a: &Analysis) -> Vec<(bool, bool, bool)> {
        let each = each_of(&a.root.fragment.nodes[0]);
        let meta = each.metadata.as_ref().unwrap();
        let tag = tag_of(&each.body.nodes[1]);
        let f = tag.flags.unwrap();
        vec![
            (meta.contains_group_binding, meta.is_controlled, true),
            (f.dynamic, f.call_expression, true),
        ]
    }
    let a1 = analyze(build());
    let a2 = analyze(build());
    assert_eq!(flags_of(&a1), flags_of(&a2));
    assert_eq!(a1.bindings.len(), a2.bindings.len());
    for (x, y) in a1.bindings.iter().zip(a2.bindings.iter()) {
        assert_eq!(x.node.name, y.node.name);
        assert_eq!(x.mutated, y.mutated);
        assert_eq!(x.reassigned, y.reassigned);
        assert!(x.kind == y.kind);
    }
    assert_eq!(a1.groups.len(), a2.groups.len());
    assert_eq!(a1.diagnostics.len(), a2.diagnostics.len());
}
