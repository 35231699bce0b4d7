//! The element classifier's namespace rules.
//!
//! Namespace resolution is top-down: the root namespace is `Html`
//! unless an option overrides it; an `<svg>` element and its subtree
//! switch to `Svg`; a `<math>` element and its subtree to `MathMl`;
//! a `<foreignObject>` inside an `<svg>` subtree switches its children
//! back to `Html`.  A tag unknown to the host namespace's tag set is
//! classified `Foreign`; a tag known to belong to a different concrete
//! namespace is classified best-effort into that namespace and
//! reported as a conflict.

use vstd::prelude::*;
use vstd::string::StringExecFns;
use crate::ast::Namespace;

verus! {

/// Tags of the SVG namespace.
pub open spec fn spec_is_svg_tag(n: Seq<char>) -> bool {
    ||| n == "svg"@
    ||| n == "animate"@
    ||| n == "animateMotion"@
    ||| n == "animateTransform"@
    ||| n == "circle"@
    ||| n == "clipPath"@
    ||| n == "defs"@
    ||| n == "desc"@
    ||| n == "ellipse"@
    ||| n == "feBlend"@
    ||| n == "feColorMatrix"@
    ||| n == "feComposite"@
    ||| n == "feFlood"@
    ||| n == "feGaussianBlur"@
    ||| n == "feImage"@
    ||| n == "feMerge"@
    ||| n == "feOffset"@
    ||| n == "feTurbulence"@
    ||| n == "filter"@
    ||| n == "foreignObject"@
    ||| n == "g"@
    ||| n == "image"@
    ||| n == "line"@
    ||| n == "linearGradient"@
    ||| n == "marker"@
    ||| n == "mask"@
    ||| n == "mpath"@
    ||| n == "path"@
    ||| n == "pattern"@
    ||| n == "polygon"@
    ||| n == "polyline"@
    ||| n == "radialGradient"@
    ||| n == "rect"@
    ||| n == "stop"@
    ||| n == "switch"@
    ||| n == "symbol"@
    ||| n == "text"@
    ||| n == "textPath"@
    ||| n == "tspan"@
    ||| n == "use"@
    ||| n == "view"@
}

/// Tags of the MathML namespace.
pub open spec fn spec_is_mathml_tag(n: Seq<char>) -> bool {
    ||| n == "math"@
    ||| n == "annotation"@
    ||| n == "maction"@
    ||| n == "merror"@
    ||| n == "mfrac"@
    ||| n == "mi"@
    ||| n == "mmultiscripts"@
    ||| n == "mn"@
    ||| n == "mo"@
    ||| n == "mover"@
    ||| n == "mpadded"@
    ||| n == "mphantom"@
    ||| n == "mroot"@
    ||| n == "mrow"@
    ||| n == "ms"@
    ||| n == "mspace"@
    ||| n == "msqrt"@
    ||| n == "mstyle"@
    ||| n == "msub"@
    ||| n == "msubsup"@
    ||| n == "msup"@
    ||| n == "mtable"@
    ||| n == "mtd"@
    ||| n == "mtext"@
    ||| n == "mtr"@
    ||| n == "munder"@
    ||| n == "munderover"@
    ||| n == "semantics"@
}

/// Tags of the host HTML namespace.
pub open spec fn spec_is_html_tag(n: Seq<char>) -> bool {
    ||| n == "a"@
    ||| n == "abbr"@
    ||| n == "address"@
    ||| n == "area"@
    ||| n == "article"@
    ||| n == "aside"@
    ||| n == "audio"@
    ||| n == "b"@
    ||| n == "blockquote"@
    ||| n == "body"@
    ||| n == "br"@
    ||| n == "button"@
    ||| n == "canvas"@
    ||| n == "caption"@
    ||| n == "code"@
    ||| n == "col"@
    ||| n == "colgroup"@
    ||| n == "datalist"@
    ||| n == "dd"@
    ||| n == "del"@
    ||| n == "details"@
    ||| n == "dialog"@
    ||| n == "div"@
    ||| n == "dl"@
    ||| n == "dt"@
    ||| n == "em"@
    ||| n == "fieldset"@
    ||| n == "figcaption"@
    ||| n == "figure"@
    ||| n == "footer"@
    ||| n == "form"@
    ||| n == "h1"@
    ||| n == "h2"@
    ||| n == "h3"@
    ||| n == "h4"@
    ||| n == "h5"@
    ||| n == "h6"@
    ||| n == "head"@
    ||| n == "header"@
    ||| n == "hr"@
    ||| n == "html"@
    ||| n == "i"@
    ||| n == "iframe"@
    ||| n == "img"@
    ||| n == "input"@
    ||| n == "label"@
    ||| n == "legend"@
    ||| n == "li"@
    ||| n == "main"@
    ||| n == "mark"@
    ||| n == "menu"@
    ||| n == "meta"@
    ||| n == "meter"@
    ||| n == "nav"@
    ||| n == "noscript"@
    ||| n == "object"@
    ||| n == "ol"@
    ||| n == "optgroup"@
    ||| n == "option"@
    ||| n == "output"@
    ||| n == "p"@
    ||| n == "picture"@
    ||| n == "pre"@
    ||| n == "progress"@
    ||| n == "q"@
    ||| n == "ruby"@
    ||| n == "s"@
    ||| n == "section"@
    ||| n == "select"@
    ||| n == "small"@
    ||| n == "source"@
    ||| n == "span"@
    ||| n == "strong"@
    ||| n == "sub"@
    ||| n == "summary"@
    ||| n == "sup"@
    ||| n == "table"@
    ||| n == "tbody"@
    ||| n == "td"@
    ||| n == "template"@
    ||| n == "textarea"@
    ||| n == "tfoot"@
    ||| n == "th"@
    ||| n == "thead"@
    ||| n == "time"@
    ||| n == "tr"@
    ||| n == "track"@
    ||| n == "u"@
    ||| n == "ul"@
    ||| n == "video"@
    ||| n == "wbr"@
}

/// How one element is classified under its ancestor namespace: its own
/// namespace, the namespace its children resolve under, and whether
/// the combination conflicts with the ancestor.
pub open spec fn spec_classify_tag(n: Seq<char>, parent: Namespace) -> (Namespace, Namespace, bool) {
    if n == "svg"@ {
        (Namespace::Svg, Namespace::Svg, false)
    } else if n == "math"@ {
        (Namespace::MathMl, Namespace::MathMl, false)
    } else if parent == Namespace::Svg && n == "foreignObject"@ {
        (Namespace::Svg, Namespace::Html, false)
    } else {
        match parent {
            Namespace::Svg => {
                if spec_is_svg_tag(n) {
                    (Namespace::Svg, Namespace::Svg, false)
                } else if spec_is_html_tag(n) {
                    (Namespace::Html, Namespace::Html, true)
                } else if spec_is_mathml_tag(n) {
                    (Namespace::MathMl, Namespace::MathMl, true)
                } else {
                    (Namespace::Foreign, Namespace::Foreign, false)
                }
            },
            Namespace::MathMl => {
                if spec_is_mathml_tag(n) {
                    (Namespace::MathMl, Namespace::MathMl, false)
                } else if spec_is_html_tag(n) {
                    (Namespace::Html, Namespace::Html, true)
                } else if spec_is_svg_tag(n) {
                    (Namespace::Svg, Namespace::Svg, true)
                } else {
                    (Namespace::Foreign, Namespace::Foreign, false)
                }
            },
            Namespace::Html => {
                if spec_is_html_tag(n) {
                    (Namespace::Html, Namespace::Html, false)
                } else if spec_is_svg_tag(n) {
                    (Namespace::Svg, Namespace::Svg, true)
                } else if spec_is_mathml_tag(n) {
                    (Namespace::MathMl, Namespace::MathMl, true)
                } else {
                    (Namespace::Foreign, Namespace::Foreign, false)
                }
            },
            Namespace::Foreign => (Namespace::Foreign, Namespace::Foreign, false),
        }
    }
}

/// Whether `n`'s contents equal the literal `lit`.
pub fn name_is(n: &String, lit: &str) -> (r: bool)
    ensures
        r == (n@ == lit@),
{
    let s = String::from_str(lit);
    *n == s
}

/// Executable form of `spec_is_svg_tag`.
pub fn is_svg_tag(n: &String) -> (r: bool)
    ensures
        r == spec_is_svg_tag(n@),
{
    name_is(n, "svg") || name_is(n, "animate") || name_is(n, "animateMotion") || name_is(
        n,
        "animateTransform",
    ) || name_is(n, "circle") || name_is(n, "clipPath") || name_is(n, "defs") || name_is(n, "desc")
        || name_is(n, "ellipse") || name_is(n, "feBlend") || name_is(n, "feColorMatrix")
        || name_is(n, "feComposite") || name_is(n, "feFlood") || name_is(n, "feGaussianBlur")
        || name_is(n, "feImage") || name_is(n, "feMerge") || name_is(n, "feOffset") || name_is(
        n,
        "feTurbulence",
    ) || name_is(n, "filter") || name_is(n, "foreignObject") || name_is(n, "g") || name_is(
        n,
        "image",
    ) || name_is(n, "line") || name_is(n, "linearGradient") || name_is(n, "marker") || name_is(
        n,
        "mask",
    ) || name_is(n, "mpath") || name_is(n, "path") || name_is(n, "pattern") || name_is(
        n,
        "polygon",
    ) || name_is(n, "polyline") || name_is(n, "radialGradient") || name_is(n, "rect") || name_is(
        n,
        "stop",
    ) || name_is(n, "switch") || name_is(n, "symbol") || name_is(n, "text") || name_is(
        n,
        "textPath",
    ) || name_is(n, "tspan") || name_is(n, "use") || name_is(n, "view")
}

/// Executable form of `spec_is_mathml_tag`.
pub fn is_mathml_tag(n: &String) -> (r: bool)
    ensures
        r == spec_is_mathml_tag(n@),
{
    name_is(n, "math") || name_is(n, "annotation") || name_is(n, "maction") || name_is(n, "merror")
        || name_is(n, "mfrac") || name_is(n, "mi") || name_is(n, "mmultiscripts") || name_is(
        n,
        "mn",
    ) || name_is(n, "mo") || name_is(n, "mover") || name_is(n, "mpadded") || name_is(n, "mphantom")
        || name_is(n, "mroot") || name_is(n, "mrow") || name_is(n, "ms") || name_is(n, "mspace")
        || name_is(n, "msqrt") || name_is(n, "mstyle") || name_is(n, "msub") || name_is(
        n,
        "msubsup",
    ) || name_is(n, "msup") || name_is(n, "mtable") || name_is(n, "mtd") || name_is(n, "mtext")
        || name_is(n, "mtr") || name_is(n, "munder") || name_is(n, "munderover") || name_is(
        n,
        "semantics",
    )
}

/// Executable form of `spec_is_html_tag`.
pub fn is_html_tag(n: &String) -> (r: bool)
    ensures
        r == spec_is_html_tag(n@),
{
    name_is(n, "a") || name_is(n, "abbr") || name_is(n, "address") || name_is(n, "area")
        || name_is(n, "article") || name_is(n, "aside") || name_is(n, "audio") || name_is(n, "b")
        || name_is(n, "blockquote") || name_is(n, "body") || name_is(n, "br") || name_is(
        n,
        "button",
    ) || name_is(n, "canvas") || name_is(n, "caption") || name_is(n, "code") || name_is(n, "col")
        || name_is(n, "colgroup") || name_is(n, "datalist") || name_is(n, "dd") || name_is(
        n,
        "del",
    ) || name_is(n, "details") || name_is(n, "dialog") || name_is(n, "div") || name_is(n, "dl")
        || name_is(n, "dt") || name_is(n, "em") || name_is(n, "fieldset") || name_is(
        n,
        "figcaption",
    ) || name_is(n, "figure") || name_is(n, "footer") || name_is(n, "form") || name_is(n, "h1")
        || name_is(n, "h2") || name_is(n, "h3") || name_is(n, "h4") || name_is(n, "h5")
        || name_is(n, "h6") || name_is(n, "head") || name_is(n, "header") || name_is(n, "hr")
        || name_is(n, "html") || name_is(n, "i") || name_is(n, "iframe") || name_is(n, "img")
        || name_is(n, "input") || name_is(n, "label") || name_is(n, "legend") || name_is(n, "li")
        || name_is(n, "main") || name_is(n, "mark") || name_is(n, "menu") || name_is(n, "meta")
        || name_is(n, "meter") || name_is(n, "nav") || name_is(n, "noscript") || name_is(
        n,
        "object",
    ) || name_is(n, "ol") || name_is(n, "optgroup") || name_is(n, "option") || name_is(n, "output")
        || name_is(n, "p") || name_is(n, "picture") || name_is(n, "pre") || name_is(n, "progress")
        || name_is(n, "q") || name_is(n, "ruby") || name_is(n, "s") || name_is(n, "section")
        || name_is(n, "select") || name_is(n, "small") || name_is(n, "source") || name_is(
        n,
        "span",
    ) || name_is(n, "strong") || name_is(n, "sub") || name_is(n, "summary") || name_is(n, "sup")
        || name_is(n, "table") || name_is(n, "tbody") || name_is(n, "td") || name_is(
        n,
        "template",
    ) || name_is(n, "textarea") || name_is(n, "tfoot") || name_is(n, "th") || name_is(n, "thead")
        || name_is(n, "time") || name_is(n, "tr") || name_is(n, "track") || name_is(n, "u")
        || name_is(n, "ul") || name_is(n, "video") || name_is(n, "wbr")
}

/// Executable form of `spec_classify_tag`.
pub fn classify_tag(n: &String, parent: Namespace) -> (r: (Namespace, Namespace, bool))
    ensures
        r == spec_classify_tag(n@, parent),
{
    if name_is(n, "svg") {
        (Namespace::Svg, Namespace::Svg, false)
    } else if name_is(n, "math") {
        (Namespace::MathMl, Namespace::MathMl, false)
    } else if parent == Namespace::Svg && name_is(n, "foreignObject") {
        (Namespace::Svg, Namespace::Html, false)
    } else {
        match parent {
            Namespace::Svg => {
                if is_svg_tag(n) {
                    (Namespace::Svg, Namespace::Svg, false)
                } else if is_html_tag(n) {
                    (Namespace::Html, Namespace::Html, true)
                } else if is_mathml_tag(n) {
                    (Namespace::MathMl, Namespace::MathMl, true)
                } else {
                    (Namespace::Foreign, Namespace::Foreign, false)
                }
            },
            Namespace::MathMl => {
                if is_mathml_tag(n) {
                    (Namespace::MathMl, Namespace::MathMl, false)
                } else if is_html_tag(n) {
                    (Namespace::Html, Namespace::Html, true)
                } else if is_svg_tag(n) {
                    (Namespace::Svg, Namespace::Svg, true)
                } else {
                    (Namespace::Foreign, Namespace::Foreign, false)
                }
            },
            Namespace::Html => {
                if is_html_tag(n) {
                    (Namespace::Html, Namespace::Html, false)
                } else if is_svg_tag(n) {
                    (Namespace::Svg, Namespace::Svg, true)
                } else if is_mathml_tag(n) {
                    (Namespace::MathMl, Namespace::MathMl, true)
                } else {
                    (Namespace::Foreign, Namespace::Foreign, false)
                }
            },
            Namespace::Foreign => (Namespace::Foreign, Namespace::Foreign, false),
        }
    }
}

} // verus!
