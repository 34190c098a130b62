//! A fluent builder for HTML markup with a verified rendering model.
//!
//! An [`Element`] is built by chained calls that each consume it and return it updated;
//! [`Render::render`] projects it to text. Every builder states the change it makes to the
//! element's view, and `render` returns exactly the markup that the view describes.
//!
//! The crate root holds one constructor per HTML tag, each with the structural kind that the
//! tag has in HTML.

pub mod attrs;
pub mod element;
pub mod elements;
pub mod htmx;
pub mod laws;
pub mod render;
pub mod text;

use vstd::prelude::*;

pub use element::{Element, ElementView, TagType};
pub use elements::Elements;
pub use render::Render;

verus! {

/// An element with the tag name `html`, behind the document type declaration.
pub fn html() -> (out: Element)
    ensures
        out@ == ElementView::fresh("html"@).with_tag_type(TagType::DocType),
{
    Element::new("html").doctype()
}

/// An element with the tag name `abbr`.
pub fn abbr() -> (out: Element)
    ensures
        out@ == ElementView::fresh("abbr"@),
{
    Element::new("abbr")
}

/// An element with the tag name `address`.
pub fn address() -> (out: Element)
    ensures
        out@ == ElementView::fresh("address"@),
{
    Element::new("address")
}

/// An element with the tag name `article`.
pub fn article() -> (out: Element)
    ensures
        out@ == ElementView::fresh("article"@),
{
    Element::new("article")
}

/// An element with the tag name `aside`.
pub fn aside() -> (out: Element)
    ensures
        out@ == ElementView::fresh("aside"@),
{
    Element::new("aside")
}

/// An element with the tag name `audio`.
pub fn audio() -> (out: Element)
    ensures
        out@ == ElementView::fresh("audio"@),
{
    Element::new("audio")
}

/// An element with the tag name `b`.
pub fn b() -> (out: Element)
    ensures
        out@ == ElementView::fresh("b"@),
{
    Element::new("b")
}

/// An element with the tag name `bdi`.
pub fn bdi() -> (out: Element)
    ensures
        out@ == ElementView::fresh("bdi"@),
{
    Element::new("bdi")
}

/// An element with the tag name `bdo`.
pub fn bdo() -> (out: Element)
    ensures
        out@ == ElementView::fresh("bdo"@),
{
    Element::new("bdo")
}

/// An element with the tag name `blockquote`.
pub fn blockquote() -> (out: Element)
    ensures
        out@ == ElementView::fresh("blockquote"@),
{
    Element::new("blockquote")
}

/// An element with the tag name `body`.
pub fn body() -> (out: Element)
    ensures
        out@ == ElementView::fresh("body"@),
{
    Element::new("body")
}

/// An element with the tag name `button`.
pub fn button() -> (out: Element)
    ensures
        out@ == ElementView::fresh("button"@),
{
    Element::new("button")
}

/// An element with the tag name `canvas`.
pub fn canvas() -> (out: Element)
    ensures
        out@ == ElementView::fresh("canvas"@),
{
    Element::new("canvas")
}

/// An element with the tag name `caption`.
pub fn caption() -> (out: Element)
    ensures
        out@ == ElementView::fresh("caption"@),
{
    Element::new("caption")
}

/// An element with the tag name `cite`.
pub fn cite() -> (out: Element)
    ensures
        out@ == ElementView::fresh("cite"@),
{
    Element::new("cite")
}

/// An element with the tag name `code`.
pub fn code() -> (out: Element)
    ensures
        out@ == ElementView::fresh("code"@),
{
    Element::new("code")
}

/// An element with the tag name `colgroup`.
pub fn colgroup() -> (out: Element)
    ensures
        out@ == ElementView::fresh("colgroup"@),
{
    Element::new("colgroup")
}

/// An element with the tag name `data`.
pub fn data() -> (out: Element)
    ensures
        out@ == ElementView::fresh("data"@),
{
    Element::new("data")
}

/// An element with the tag name `datalist`.
pub fn datalist() -> (out: Element)
    ensures
        out@ == ElementView::fresh("datalist"@),
{
    Element::new("datalist")
}

/// An element with the tag name `dd`.
pub fn dd() -> (out: Element)
    ensures
        out@ == ElementView::fresh("dd"@),
{
    Element::new("dd")
}

/// An element with the tag name `del`.
pub fn del() -> (out: Element)
    ensures
        out@ == ElementView::fresh("del"@),
{
    Element::new("del")
}

/// An element with the tag name `details`.
pub fn details() -> (out: Element)
    ensures
        out@ == ElementView::fresh("details"@),
{
    Element::new("details")
}

/// An element with the tag name `dfn`.
pub fn dfn() -> (out: Element)
    ensures
        out@ == ElementView::fresh("dfn"@),
{
    Element::new("dfn")
}

/// An element with the tag name `dialog`.
pub fn dialog() -> (out: Element)
    ensures
        out@ == ElementView::fresh("dialog"@),
{
    Element::new("dialog")
}

/// An element with the tag name `div`.
pub fn div() -> (out: Element)
    ensures
        out@ == ElementView::fresh("div"@),
{
    Element::new("div")
}

/// An element with the tag name `dl`.
pub fn dl() -> (out: Element)
    ensures
        out@ == ElementView::fresh("dl"@),
{
    Element::new("dl")
}

/// An element with the tag name `dt`.
pub fn dt() -> (out: Element)
    ensures
        out@ == ElementView::fresh("dt"@),
{
    Element::new("dt")
}

/// An element with the tag name `em`.
pub fn em() -> (out: Element)
    ensures
        out@ == ElementView::fresh("em"@),
{
    Element::new("em")
}

/// An element with the tag name `fieldset`.
pub fn fieldset() -> (out: Element)
    ensures
        out@ == ElementView::fresh("fieldset"@),
{
    Element::new("fieldset")
}

/// An element with the tag name `figcaption`.
pub fn figcaption() -> (out: Element)
    ensures
        out@ == ElementView::fresh("figcaption"@),
{
    Element::new("figcaption")
}

/// An element with the tag name `figure`.
pub fn figure() -> (out: Element)
    ensures
        out@ == ElementView::fresh("figure"@),
{
    Element::new("figure")
}

/// An element with the tag name `footer`.
pub fn footer() -> (out: Element)
    ensures
        out@ == ElementView::fresh("footer"@),
{
    Element::new("footer")
}

/// An element with the tag name `form`.
pub fn form() -> (out: Element)
    ensures
        out@ == ElementView::fresh("form"@),
{
    Element::new("form")
}

/// An element with the tag name `h1`.
pub fn h1() -> (out: Element)
    ensures
        out@ == ElementView::fresh("h1"@),
{
    Element::new("h1")
}

/// An element with the tag name `h2`.
pub fn h2() -> (out: Element)
    ensures
        out@ == ElementView::fresh("h2"@),
{
    Element::new("h2")
}

/// An element with the tag name `h3`.
pub fn h3() -> (out: Element)
    ensures
        out@ == ElementView::fresh("h3"@),
{
    Element::new("h3")
}

/// An element with the tag name `h4`.
pub fn h4() -> (out: Element)
    ensures
        out@ == ElementView::fresh("h4"@),
{
    Element::new("h4")
}

/// An element with the tag name `h5`.
pub fn h5() -> (out: Element)
    ensures
        out@ == ElementView::fresh("h5"@),
{
    Element::new("h5")
}

/// An element with the tag name `h6`.
pub fn h6() -> (out: Element)
    ensures
        out@ == ElementView::fresh("h6"@),
{
    Element::new("h6")
}

/// An element with the tag name `head`.
pub fn head() -> (out: Element)
    ensures
        out@ == ElementView::fresh("head"@),
{
    Element::new("head")
}

/// An element with the tag name `header`.
pub fn header() -> (out: Element)
    ensures
        out@ == ElementView::fresh("header"@),
{
    Element::new("header")
}

/// An element with the tag name `i`.
pub fn i() -> (out: Element)
    ensures
        out@ == ElementView::fresh("i"@),
{
    Element::new("i")
}

/// An element with the tag name `iframe`.
pub fn iframe() -> (out: Element)
    ensures
        out@ == ElementView::fresh("iframe"@),
{
    Element::new("iframe")
}

/// An element with the tag name `ins`.
pub fn ins() -> (out: Element)
    ensures
        out@ == ElementView::fresh("ins"@),
{
    Element::new("ins")
}

/// An element with the tag name `kbd`.
pub fn kbd() -> (out: Element)
    ensures
        out@ == ElementView::fresh("kbd"@),
{
    Element::new("kbd")
}

/// An element with the tag name `label`.
pub fn label() -> (out: Element)
    ensures
        out@ == ElementView::fresh("label"@),
{
    Element::new("label")
}

/// An element with the tag name `legend`.
pub fn legend() -> (out: Element)
    ensures
        out@ == ElementView::fresh("legend"@),
{
    Element::new("legend")
}

/// An element with the tag name `li`.
pub fn li() -> (out: Element)
    ensures
        out@ == ElementView::fresh("li"@),
{
    Element::new("li")
}

/// An element with the tag name `main`.
pub fn main() -> (out: Element)
    ensures
        out@ == ElementView::fresh("main"@),
{
    Element::new("main")
}

/// An element with the tag name `map`.
pub fn map() -> (out: Element)
    ensures
        out@ == ElementView::fresh("map"@),
{
    Element::new("map")
}

/// An element with the tag name `mark`.
pub fn mark() -> (out: Element)
    ensures
        out@ == ElementView::fresh("mark"@),
{
    Element::new("mark")
}

/// An element with the tag name `meter`.
pub fn meter() -> (out: Element)
    ensures
        out@ == ElementView::fresh("meter"@),
{
    Element::new("meter")
}

/// An element with the tag name `nav`.
pub fn nav() -> (out: Element)
    ensures
        out@ == ElementView::fresh("nav"@),
{
    Element::new("nav")
}

/// An element with the tag name `noscript`.
pub fn noscript() -> (out: Element)
    ensures
        out@ == ElementView::fresh("noscript"@),
{
    Element::new("noscript")
}

/// An element with the tag name `object`.
pub fn object() -> (out: Element)
    ensures
        out@ == ElementView::fresh("object"@),
{
    Element::new("object")
}

/// An element with the tag name `ol`.
pub fn ol() -> (out: Element)
    ensures
        out@ == ElementView::fresh("ol"@),
{
    Element::new("ol")
}

/// An element with the tag name `optgroup`.
pub fn optgroup() -> (out: Element)
    ensures
        out@ == ElementView::fresh("optgroup"@),
{
    Element::new("optgroup")
}

/// An element with the tag name `option`.
pub fn option() -> (out: Element)
    ensures
        out@ == ElementView::fresh("option"@),
{
    Element::new("option")
}

/// An element with the tag name `output`.
pub fn output() -> (out: Element)
    ensures
        out@ == ElementView::fresh("output"@),
{
    Element::new("output")
}

/// An element with the tag name `p`.
pub fn p() -> (out: Element)
    ensures
        out@ == ElementView::fresh("p"@),
{
    Element::new("p")
}

/// An element with the tag name `picture`.
pub fn picture() -> (out: Element)
    ensures
        out@ == ElementView::fresh("picture"@),
{
    Element::new("picture")
}

/// An element with the tag name `pre`.
pub fn pre() -> (out: Element)
    ensures
        out@ == ElementView::fresh("pre"@),
{
    Element::new("pre")
}

/// An element with the tag name `progress`.
pub fn progress() -> (out: Element)
    ensures
        out@ == ElementView::fresh("progress"@),
{
    Element::new("progress")
}

/// An element with the tag name `q`.
pub fn q() -> (out: Element)
    ensures
        out@ == ElementView::fresh("q"@),
{
    Element::new("q")
}

/// An element with the tag name `rp`.
pub fn rp() -> (out: Element)
    ensures
        out@ == ElementView::fresh("rp"@),
{
    Element::new("rp")
}

/// An element with the tag name `rt`.
pub fn rt() -> (out: Element)
    ensures
        out@ == ElementView::fresh("rt"@),
{
    Element::new("rt")
}

/// An element with the tag name `ruby`.
pub fn ruby() -> (out: Element)
    ensures
        out@ == ElementView::fresh("ruby"@),
{
    Element::new("ruby")
}

/// An element with the tag name `s`.
pub fn s() -> (out: Element)
    ensures
        out@ == ElementView::fresh("s"@),
{
    Element::new("s")
}

/// An element with the tag name `samp`.
pub fn samp() -> (out: Element)
    ensures
        out@ == ElementView::fresh("samp"@),
{
    Element::new("samp")
}

/// An element with the tag name `section`.
pub fn section() -> (out: Element)
    ensures
        out@ == ElementView::fresh("section"@),
{
    Element::new("section")
}

/// An element with the tag name `select`.
pub fn select() -> (out: Element)
    ensures
        out@ == ElementView::fresh("select"@),
{
    Element::new("select")
}

/// An element with the tag name `small`.
pub fn small() -> (out: Element)
    ensures
        out@ == ElementView::fresh("small"@),
{
    Element::new("small")
}

/// An element with the tag name `span`.
pub fn span() -> (out: Element)
    ensures
        out@ == ElementView::fresh("span"@),
{
    Element::new("span")
}

/// An element with the tag name `strong`.
pub fn strong() -> (out: Element)
    ensures
        out@ == ElementView::fresh("strong"@),
{
    Element::new("strong")
}

/// An element with the tag name `sub`.
pub fn sub() -> (out: Element)
    ensures
        out@ == ElementView::fresh("sub"@),
{
    Element::new("sub")
}

/// An element with the tag name `sup`.
pub fn sup() -> (out: Element)
    ensures
        out@ == ElementView::fresh("sup"@),
{
    Element::new("sup")
}

/// An element with the tag name `table`.
pub fn table() -> (out: Element)
    ensures
        out@ == ElementView::fresh("table"@),
{
    Element::new("table")
}

/// An element with the tag name `tbody`.
pub fn tbody() -> (out: Element)
    ensures
        out@ == ElementView::fresh("tbody"@),
{
    Element::new("tbody")
}

/// An element with the tag name `td`.
pub fn td() -> (out: Element)
    ensures
        out@ == ElementView::fresh("td"@),
{
    Element::new("td")
}

/// An element with the tag name `textarea`.
pub fn textarea() -> (out: Element)
    ensures
        out@ == ElementView::fresh("textarea"@),
{
    Element::new("textarea")
}

/// An element with the tag name `tfoot`.
pub fn tfoot() -> (out: Element)
    ensures
        out@ == ElementView::fresh("tfoot"@),
{
    Element::new("tfoot")
}

/// An element with the tag name `th`.
pub fn th() -> (out: Element)
    ensures
        out@ == ElementView::fresh("th"@),
{
    Element::new("th")
}

/// An element with the tag name `thead`.
pub fn thead() -> (out: Element)
    ensures
        out@ == ElementView::fresh("thead"@),
{
    Element::new("thead")
}

/// An element with the tag name `time`.
pub fn time() -> (out: Element)
    ensures
        out@ == ElementView::fresh("time"@),
{
    Element::new("time")
}

/// An element with the tag name `title`.
pub fn title() -> (out: Element)
    ensures
        out@ == ElementView::fresh("title"@),
{
    Element::new("title")
}

/// An element with the tag name `tr`.
pub fn tr() -> (out: Element)
    ensures
        out@ == ElementView::fresh("tr"@),
{
    Element::new("tr")
}

/// An element with the tag name `u`.
pub fn u() -> (out: Element)
    ensures
        out@ == ElementView::fresh("u"@),
{
    Element::new("u")
}

/// An element with the tag name `ul`.
pub fn ul() -> (out: Element)
    ensures
        out@ == ElementView::fresh("ul"@),
{
    Element::new("ul")
}

/// An element with the tag name `var`.
pub fn var() -> (out: Element)
    ensures
        out@ == ElementView::fresh("var"@),
{
    Element::new("var")
}

/// An element with the tag name `video`.
pub fn video() -> (out: Element)
    ensures
        out@ == ElementView::fresh("video"@),
{
    Element::new("video")
}

/// An element with the tag name `area`, closing itself.
pub fn area() -> (out: Element)
    ensures
        out@ == ElementView::fresh("area"@).with_tag_type(TagType::Slash),
{
    Element::new("area").slash()
}

/// An element with the tag name `base`, closing itself.
pub fn base() -> (out: Element)
    ensures
        out@ == ElementView::fresh("base"@).with_tag_type(TagType::Slash),
{
    Element::new("base").slash()
}

/// An element with the tag name `br`, closing itself.
pub fn br() -> (out: Element)
    ensures
        out@ == ElementView::fresh("br"@).with_tag_type(TagType::Slash),
{
    Element::new("br").slash()
}

/// An element with the tag name `col`, closing itself.
pub fn col() -> (out: Element)
    ensures
        out@ == ElementView::fresh("col"@).with_tag_type(TagType::Slash),
{
    Element::new("col").slash()
}

/// An element with the tag name `embed`, closing itself.
pub fn embed() -> (out: Element)
    ensures
        out@ == ElementView::fresh("embed"@).with_tag_type(TagType::Slash),
{
    Element::new("embed").slash()
}

/// An element with the tag name `hr`, closing itself.
pub fn hr() -> (out: Element)
    ensures
        out@ == ElementView::fresh("hr"@).with_tag_type(TagType::Slash),
{
    Element::new("hr").slash()
}

/// An element with the tag name `img`, closing itself.
pub fn img() -> (out: Element)
    ensures
        out@ == ElementView::fresh("img"@).with_tag_type(TagType::Slash),
{
    Element::new("img").slash()
}

/// An element with the tag name `input`, closing itself.
pub fn input() -> (out: Element)
    ensures
        out@ == ElementView::fresh("input"@).with_tag_type(TagType::Slash),
{
    Element::new("input").slash()
}

/// An element with the tag name `link`, closing itself.
pub fn link() -> (out: Element)
    ensures
        out@ == ElementView::fresh("link"@).with_tag_type(TagType::Slash),
{
    Element::new("link").slash()
}

/// An element with the tag name `meta`, closing itself.
pub fn meta() -> (out: Element)
    ensures
        out@ == ElementView::fresh("meta"@).with_tag_type(TagType::Slash),
{
    Element::new("meta").slash()
}

/// An element with the tag name `param`, closing itself.
pub fn param() -> (out: Element)
    ensures
        out@ == ElementView::fresh("param"@).with_tag_type(TagType::Slash),
{
    Element::new("param").slash()
}

/// An element with the tag name `source`, closing itself.
pub fn source() -> (out: Element)
    ensures
        out@ == ElementView::fresh("source"@).with_tag_type(TagType::Slash),
{
    Element::new("source").slash()
}

/// An element with the tag name `track`, closing itself.
pub fn track() -> (out: Element)
    ensures
        out@ == ElementView::fresh("track"@).with_tag_type(TagType::Slash),
{
    Element::new("track").slash()
}

/// An element with the tag name `wbr`, closing itself.
pub fn wbr() -> (out: Element)
    ensures
        out@ == ElementView::fresh("wbr"@).with_tag_type(TagType::Slash),
{
    Element::new("wbr").slash()
}

} // verus!
