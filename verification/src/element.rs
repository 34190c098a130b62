//! One HTML element: its model, its builder methods and its rendering.

use vstd::prelude::*;
use crate::elements::Elements;
use crate::render::Render;
use crate::text::{join, joined, texts};

verus! {

/// The structural kind of a tag.
#[derive(Clone, Copy, Debug)]
pub enum TagType {
    /// An opening tag, the content and a closing tag.
    Normal,
    /// An opening tag alone: no closing tag and no slash.
    Orphan,
    /// An opening tag that ends in a space and a slash.
    Slash,
    /// A document type declaration in front of a normal tag.
    DocType,
}

/// The token under which an attribute with a value is stored: `key="value"`.
pub open spec fn attr_token(key: Seq<char>, value: Seq<char>) -> Seq<char> {
    key + "=\""@ + value + "\""@
}

/// What an element holds, as mathematical values.
#[verifier::ext_equal]
pub struct ElementView {
    /// The tag name.
    pub name: Seq<char>,
    /// The class tokens, in insertion order.
    pub classes: Seq<Seq<char>>,
    /// The attribute tokens, in insertion order.
    pub attrs: Seq<Seq<char>>,
    /// The inner markup accumulated so far.
    pub content: Seq<char>,
    /// The structural kind of the tag.
    pub tag_type: TagType,
}

impl ElementView {
    /// The element that a tag name alone describes: nothing attached, a normal tag.
    pub open spec fn fresh(name: Seq<char>) -> ElementView {
        ElementView {
            name,
            classes: Seq::empty(),
            attrs: Seq::empty(),
            content: Seq::empty(),
            tag_type: TagType::Normal,
        }
    }

    /// This element with `class` as its last class token.
    pub open spec fn with_class(self, class: Seq<char>) -> ElementView {
        ElementView { classes: self.classes.push(class), ..self }
    }

    /// This element with `token` as its last attribute token.
    pub open spec fn with_token(self, token: Seq<char>) -> ElementView {
        ElementView { attrs: self.attrs.push(token), ..self }
    }

    /// This element with the attribute `key="value"` as its last attribute token.
    pub open spec fn with_attr(self, key: Seq<char>, value: Seq<char>) -> ElementView {
        self.with_token(attr_token(key, value))
    }

    /// This element with `child` appended to its content.
    pub open spec fn with_child(self, child: Seq<char>) -> ElementView {
        ElementView { content: self.content + child, ..self }
    }

    /// This element with its structural kind replaced by `tag_type`.
    pub open spec fn with_tag_type(self, tag_type: TagType) -> ElementView {
        ElementView { tag_type, ..self }
    }

    /// The attribute part of the opening tag: empty without attributes, else a space and the
    /// tokens joined by single spaces.
    pub open spec fn attrs_text(self) -> Seq<char> {
        if self.attrs.len() == 0 {
            Seq::empty()
        } else {
            " "@ + joined(self.attrs, " "@)
        }
    }

    /// The class part of the opening tag: empty without classes, else ` class="..."` around the
    /// tokens joined by single spaces.
    pub open spec fn classes_text(self) -> Seq<char> {
        if self.classes.len() == 0 {
            Seq::empty()
        } else {
            " class=\""@ + joined(self.classes, " "@) + "\""@
        }
    }

    /// The text between the angle brackets of the opening tag: the name, then the attributes,
    /// then the classes.
    pub open spec fn tag(self) -> Seq<char> {
        self.name + self.attrs_text() + self.classes_text()
    }

    /// The markup of the element.
    pub open spec fn markup(self) -> Seq<char> {
        match self.tag_type {
            TagType::Normal => "<"@ + self.tag() + ">"@ + self.content + "</"@ + self.name + ">"@,
            TagType::Orphan => "<"@ + self.tag() + ">"@,
            TagType::Slash => "<"@ + self.tag() + " />"@,
            TagType::DocType => "<!DOCTYPE html><"@ + self.tag() + ">"@ + self.content + "</"@
                + self.name + ">"@,
        }
    }
}

/// A single HTML element under construction.
pub struct Element {
    name: String,
    class: Vec<String>,
    attrs: Vec<String>,
    content: String,
    tag_type: TagType,
}

impl View for Element {
    type V = ElementView;

    closed spec fn view(&self) -> ElementView {
        ElementView {
            name: self.name@,
            classes: texts(self.class@),
            attrs: texts(self.attrs@),
            content: self.content@,
            tag_type: self.tag_type,
        }
    }
}

impl Clone for Element {
    fn clone(&self) -> (out: Self)
        ensures
            out@ == self@,
    {
        let out = Element {
            name: self.name.clone(),
            class: self.class.clone(),
            attrs: self.attrs.clone(),
            content: self.content.clone(),
            tag_type: self.tag_type,
        };
        proof {
            assert(texts(out.class@) =~= texts(self.class@));
            assert(texts(out.attrs@) =~= texts(self.attrs@));
        }
        out
    }
}

impl Render for Element {
    /// An element renders to its markup.
    open spec fn rendered(&self) -> Seq<char> {
        self@.markup()
    }

    fn render(&self) -> (out: String) {
        let mut tag = String::new();
        tag.append(self.name.as_str());
        if !self.attrs.is_empty() {
            let attrs_str = join(&self.attrs, " ");
            tag.append(" ");
            tag.append(attrs_str.as_str());
        }
        if !self.class.is_empty() {
            let class_str = join(&self.class, " ");
            tag.append(" class=\"");
            tag.append(class_str.as_str());
            tag.append("\"");
        }
        assert(tag@ =~= self@.tag());
        let mut out = String::new();
        match self.tag_type {
            TagType::Normal => {
                out.append("<");
                out.append(tag.as_str());
                out.append(">");
                out.append(self.content.as_str());
                out.append("</");
                out.append(self.name.as_str());
                out.append(">");
            },
            TagType::Orphan => {
                out.append("<");
                out.append(tag.as_str());
                out.append(">");
            },
            TagType::Slash => {
                out.append("<");
                out.append(tag.as_str());
                out.append(" />");
            },
            TagType::DocType => {
                out.append("<!DOCTYPE html><");
                out.append(tag.as_str());
                out.append(">");
                out.append(self.content.as_str());
                out.append("</");
                out.append(self.name.as_str());
                out.append(">");
            },
        }
        assert(out@ =~= self@.markup());
        out
    }
}

impl Element {
    /// A new element with the tag name `name`: no classes, no attributes, no content, a
    /// normal tag. Any name is accepted, the empty one too.
    pub fn new(name: &str) -> (out: Element)
        ensures
            out@ == ElementView::fresh(name@),
    {
        let out = Element {
            name: name.to_owned(),
            class: Vec::new(),
            attrs: Vec::new(),
            content: String::new(),
            tag_type: TagType::Normal,
        };
        proof {
            assert(texts(out.class@) =~= Seq::<Seq<char>>::empty());
            assert(texts(out.attrs@) =~= Seq::<Seq<char>>::empty());
        }
        out
    }

    /// The sequence that holds this element alone.
    pub fn to_elements(self) -> (out: Elements)
        ensures
            out@ == seq![self@],
    {
        Elements::from(self)
    }

    /// Appends `class` to the class tokens. Tokens are kept as given: none is merged or dropped.
    pub fn class(self, class: &str) -> (out: Element)
        ensures
            out@ == self@.with_class(class@),
    {
        let mut out = self;
        out.class.push(class.to_owned());
        proof {
            assert(texts(out.class@) =~= texts(self.class@).push(class@));
        }
        out
    }

    /// Appends `tw` to the class tokens, exactly as `class` does; the name marks utility
    /// classes at the call site.
    pub fn tw(self, tw: &str) -> (out: Element)
        ensures
            out@ == self@.with_class(tw@),
    {
        self.class(tw)
    }

    /// Appends the attribute `key="value"` to the attribute tokens, each side rendered first.
    /// Nothing is escaped.
    pub fn attr(self, key: impl Render, value: impl Render) -> (out: Element)
        ensures
            out@ == self@.with_attr(key.rendered(), value.rendered()),
    {
        let mut token = key.render();
        token.append("=\"");
        token.append(value.render().as_str());
        token.append("\"");
        let mut out = self;
        out.attrs.push(token);
        proof {
            assert(texts(out.attrs@) =~= texts(self.attrs@).push(
                attr_token(key.rendered(), value.rendered()),
            ));
        }
        out
    }

    /// Appends the bare token `key`, an attribute without a value, to the attribute tokens.
    pub fn orphan_attr(self, key: &str) -> (out: Element)
        ensures
            out@ == self@.with_token(key@),
    {
        let mut out = self;
        out.attrs.push(key.to_owned());
        proof {
            assert(texts(out.attrs@) =~= texts(self.attrs@).push(key@));
        }
        out
    }

    /// Appends the rendering of `child` to the content. The child is rendered at once: the
    /// element keeps its text, not the child.
    pub fn child(self, child: impl Render) -> (out: Element)
        ensures
            out@ == self@.with_child(child.rendered()),
    {
        let mut out = self;
        out.content.append(child.render().as_str());
        out
    }

    /// Makes the tag an opening tag alone, whatever kind it had.
    pub fn orphan(self) -> (out: Element)
        ensures
            out@ == self@.with_tag_type(TagType::Orphan),
    {
        let mut out = self;
        out.tag_type = TagType::Orphan;
        out
    }

    /// Makes the tag close itself with a trailing slash, whatever kind it had.
    pub fn slash(self) -> (out: Element)
        ensures
            out@ == self@.with_tag_type(TagType::Slash),
    {
        let mut out = self;
        out.tag_type = TagType::Slash;
        out
    }

    /// Puts a document type declaration in front of the tag, whatever kind it had.
    pub fn doctype(self) -> (out: Element)
        ensures
            out@ == self@.with_tag_type(TagType::DocType),
    {
        let mut out = self;
        out.tag_type = TagType::DocType;
        out
    }
}

} // verus!
