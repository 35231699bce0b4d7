use ssc_semantic::analyze::analyze;
use ssc_semantic::ast::{
    Attribute, Element, ElementAttribute, ExpressionTagFlags, Fragment, FragmentNode, Identifier,
    Namespace, RegularElement, RegularElementFlags, Root, Span, SpreadAttribute,
    SvelteElementFlags,
};
use ssc_semantic::binding::Diagnostic;
use ssc_semantic::expression::Expression;

fn sp() -> Span {
    Span { start: 0, end: 0 }
}

fn fragment(nodes: Vec<FragmentNode>) -> Fragment {
    Fragment { nodes, transparent: false }
}

fn regular(name: &str, body: Vec<FragmentNode>) -> FragmentNode {
    FragmentNode::Element(Element::RegularElement(RegularElement {
        span: sp(),
        name: name.to_string(),
        attributes: Vec::new(),
        fragment: fragment(body),
        flags: None,
    }))
}

fn root(nodes: Vec<FragmentNode>) -> Root {
    Root {
        span: sp(),
        options: None,
        fragment: fragment(nodes),
        css: None,
        instance: None,
        module: None,
        ts: false,
    }
}

fn element_of(node: &FragmentNode) -> &RegularElement {
    match node {
        FragmentNode::Element(Element::RegularElement(e)) => e,
        _ => panic!("not a regular element"),
    }
}

#[test]
fn svg_subtree_marks_elements() {
    // <svg><circle/><foreignObject><div/></foreignObject></svg>
    let tree = root(vec![regular(
        "svg",
        vec![
            regular("circle", vec![]),
            regular("foreignObject", vec![regular("div", vec![])]),
        ],
    )]);
    let a = analyze(tree);
    let svg = element_of(&a.root.fragment.nodes[0]);
    assert!(svg.flags.unwrap().svg);
    let circle = element_of(&svg.fragment.nodes[0]);
    assert!(circle.flags.unwrap().svg);
    assert!(!circle.flags.unwrap().mathml);
    let fo = element_of(&svg.fragment.nodes[1]);
    assert!(fo.flags.unwrap().svg);
    let div = element_of(&fo.fragment.nodes[0]);
    assert!(!div.flags.unwrap().svg);
    assert!(a.diagnostics.is_empty());
}

#[test]
fn mathml_subtree_marks_elements() {
    let tree = root(vec![regular("math", vec![regular("mi", vec![])])]);
    let a = analyze(tree);
    let math = element_of(&a.root.fragment.nodes[0]);
    assert!(math.flags.unwrap().mathml);
    let mi = element_of(&math.fragment.nodes[0]);
    assert!(mi.flags.unwrap().mathml);
    assert!(!mi.flags.unwrap().svg);
}

#[test]
fn namespace_conflict_reported_best_effort() {
    // an svg-only tag under a MathML subtree
    let tree = root(vec![regular("math", vec![regular("circle", vec![])])]);
    let a = analyze(tree);
    assert!(a.diagnostics.iter().any(|d| matches!(d, Diagnostic::NamespaceConflict(_))));
    let math = element_of(&a.root.fragment.nodes[0]);
    let circle = element_of(&math.fragment.nodes[0]);
    assert!(circle.flags.unwrap().svg);
}

#[test]
fn unknown_tag_is_foreign() {
    let tree = root(vec![regular("made-up-widget", vec![])]);
    let a = analyze(tree);
    let el = element_of(&a.root.fragment.nodes[0]);
    let flags = el.flags.unwrap();
    assert!(!flags.svg);
    assert!(!flags.mathml);
    assert!(a.diagnostics.is_empty());
}

#[test]
fn expression_tag_flag_getters() {
    let f = ExpressionTagFlags { dynamic: true, call_expression: false };
    assert!(f.has_dynamic());
    assert!(!f.has_call_expression());
    let g = ExpressionTagFlags { dynamic: false, call_expression: true };
    assert!(!g.has_dynamic());
    assert!(g.has_call_expression());
}

#[test]
fn regular_element_flag_getters() {
    let f = RegularElementFlags { svg: true, mathml: false, spread: true, scoped: false };
    assert!(f.has_svg());
    assert!(!f.has_mathml());
    assert!(f.has_spread());
    assert!(!f.has_scoped());
}

#[test]
fn svelte_element_flag_getters() {
    let f = SvelteElementFlags { svg: false, scoped: true };
    assert!(!f.has_svg());
    assert!(f.has_scoped());
}

#[test]
fn namespace_default_is_html() {
    assert!(matches!(Namespace::default(), Namespace::Html));
}

#[test]
fn element_attribute_accessors() {
    let attr = ElementAttribute::Attribute(Attribute {
        span: sp(),
        name: "id".to_string(),
        value: None,
    });
    assert!(attr.as_attribute().is_some());
    assert!(attr.as_spread_attribute().is_none());
    assert!(attr.as_directive_attribute().is_none());
    assert!(attr.attribute().is_some());

    let spread = ElementAttribute::SpreadAttribute(SpreadAttribute {
        span: sp(),
        expression: Expression::Identifier(Identifier { span: sp(), name: "xs".to_string() }),
        flags: None,
        dependencies: Vec::new(),
    });
    assert!(spread.as_spread_attribute().is_some());
    assert!(spread.as_attribute().is_none());
    assert!(spread.spread_attribute().is_some());
}
