//! Setters for the common HTML attributes, one per attribute name.

use vstd::prelude::*;
use crate::element::Element;
use crate::render::Render;

verus! {

impl Element {
    /// Appends the attribute `accept`, its value the rendering of `value`.
    pub fn accept(self, value: impl Render) -> (out: Element)
        ensures
            out@ == self@.with_attr("accept"@, value.rendered()),
    {
        self.attr("accept", value)
    }

    /// Appends the attribute `accesskey`, its value the rendering of `value`.
    pub fn accesskey(self, value: impl Render) -> (out: Element)
        ensures
            out@ == self@.with_attr("accesskey"@, value.rendered()),
    {
        self.attr("accesskey", value)
    }

    /// Appends the attribute `action`, its value the rendering of `value`.
    pub fn action(self, value: impl Render) -> (out: Element)
        ensures
            out@ == self@.with_attr("action"@, value.rendered()),
    {
        self.attr("action", value)
    }

    /// Appends the attribute `alt`, its value the rendering of `value`.
    pub fn alt(self, value: impl Render) -> (out: Element)
        ensures
            out@ == self@.with_attr("alt"@, value.rendered()),
    {
        self.attr("alt", value)
    }

    /// Appends the attribute `async`, its value the rendering of `value`.
    pub fn async_(self, value: impl Render) -> (out: Element)
        ensures
            out@ == self@.with_attr("async"@, value.rendered()),
    {
        self.attr("async", value)
    }

    /// Appends the attribute `autocomplete`, its value the rendering of `value`.
    pub fn autocomplete(self, value: impl Render) -> (out: Element)
        ensures
            out@ == self@.with_attr("autocomplete"@, value.rendered()),
    {
        self.attr("autocomplete", value)
    }

    /// Appends the attribute `autofocus`, its value the rendering of `value`.
    pub fn autofocus(self, value: impl Render) -> (out: Element)
        ensures
            out@ == self@.with_attr("autofocus"@, value.rendered()),
    {
        self.attr("autofocus", value)
    }

    /// Appends the attribute `autoplay`, its value the rendering of `value`.
    pub fn autoplay(self, value: impl Render) -> (out: Element)
        ensures
            out@ == self@.with_attr("autoplay"@, value.rendered()),
    {
        self.attr("autoplay", value)
    }

    /// Appends the attribute `checked`, its value the rendering of `value`.
    pub fn checked(self, value: impl Render) -> (out: Element)
        ensures
            out@ == self@.with_attr("checked"@, value.rendered()),
    {
        self.attr("checked", value)
    }

    /// Appends the attribute `contenteditable`, its value the rendering of `value`.
    pub fn contenteditable(self, value: impl Render) -> (out: Element)
        ensures
            out@ == self@.with_attr("contenteditable"@, value.rendered()),
    {
        self.attr("contenteditable", value)
    }

    /// Appends the attribute `controls`, its value the rendering of `value`.
    pub fn controls(self, value: impl Render) -> (out: Element)
        ensures
            out@ == self@.with_attr("controls"@, value.rendered()),
    {
        self.attr("controls", value)
    }

    /// Appends the attribute `data`, its value the rendering of `value`.
    pub fn data(self, value: impl Render) -> (out: Element)
        ensures
            out@ == self@.with_attr("data"@, value.rendered()),
    {
        self.attr("data", value)
    }

    /// Appends the attribute `datetime`, its value the rendering of `value`.
    pub fn datetime(self, value: impl Render) -> (out: Element)
        ensures
            out@ == self@.with_attr("datetime"@, value.rendered()),
    {
        self.attr("datetime", value)
    }

    /// Appends the attribute `defer`, its value the rendering of `value`.
    pub fn defer(self, value: impl Render) -> (out: Element)
        ensures
            out@ == self@.with_attr("defer"@, value.rendered()),
    {
        self.attr("defer", value)
    }

    /// Appends the attribute `dir`, its value the rendering of `value`.
    pub fn dir(self, value: impl Render) -> (out: Element)
        ensures
            out@ == self@.with_attr("dir"@, value.rendered()),
    {
        self.attr("dir", value)
    }

    /// Appends the attribute `disabled`, its value the rendering of `value`.
    pub fn disabled(self, value: impl Render) -> (out: Element)
        ensures
            out@ == self@.with_attr("disabled"@, value.rendered()),
    {
        self.attr("disabled", value)
    }

    /// Appends the attribute `download`, its value the rendering of `value`.
    pub fn download(self, value: impl Render) -> (out: Element)
        ensures
            out@ == self@.with_attr("download"@, value.rendered()),
    {
        self.attr("download", value)
    }

    /// Appends the attribute `draggable`, its value the rendering of `value`.
    pub fn draggable(self, value: impl Render) -> (out: Element)
        ensures
            out@ == self@.with_attr("draggable"@, value.rendered()),
    {
        self.attr("draggable", value)
    }

    /// Appends the attribute `enctype`, its value the rendering of `value`.
    pub fn enctype(self, value: impl Render) -> (out: Element)
        ensures
            out@ == self@.with_attr("enctype"@, value.rendered()),
    {
        self.attr("enctype", value)
    }

    /// Appends the attribute `for`, its value the rendering of `value`.
    pub fn for_(self, value: impl Render) -> (out: Element)
        ensures
            out@ == self@.with_attr("for"@, value.rendered()),
    {
        self.attr("for", value)
    }

    /// Appends the attribute `form`, its value the rendering of `value`.
    pub fn form(self, value: impl Render) -> (out: Element)
        ensures
            out@ == self@.with_attr("form"@, value.rendered()),
    {
        self.attr("form", value)
    }

    /// Appends the attribute `headers`, its value the rendering of `value`.
    pub fn headers(self, value: impl Render) -> (out: Element)
        ensures
            out@ == self@.with_attr("headers"@, value.rendered()),
    {
        self.attr("headers", value)
    }

    /// Appends the attribute `height`, its value the rendering of `value`.
    pub fn height(self, value: impl Render) -> (out: Element)
        ensures
            out@ == self@.with_attr("height"@, value.rendered()),
    {
        self.attr("height", value)
    }

    /// Appends the attribute `hidden`, its value the rendering of `value`.
    pub fn hidden(self, value: impl Render) -> (out: Element)
        ensures
            out@ == self@.with_attr("hidden"@, value.rendered()),
    {
        self.attr("hidden", value)
    }

    /// Appends the attribute `href`, its value the rendering of `value`.
    pub fn href(self, value: impl Render) -> (out: Element)
        ensures
            out@ == self@.with_attr("href"@, value.rendered()),
    {
        self.attr("href", value)
    }

    /// Appends the attribute `id`, its value the rendering of `value`.
    pub fn id(self, value: impl Render) -> (out: Element)
        ensures
            out@ == self@.with_attr("id"@, value.rendered()),
    {
        self.attr("id", value)
    }

    /// Appends the attribute `ismap`, its value the rendering of `value`.
    pub fn ismap(self, value: impl Render) -> (out: Element)
        ensures
            out@ == self@.with_attr("ismap"@, value.rendered()),
    {
        self.attr("ismap", value)
    }

    /// Appends the attribute `itemprop`, its value the rendering of `value`.
    pub fn itemprop(self, value: impl Render) -> (out: Element)
        ensures
            out@ == self@.with_attr("itemprop"@, value.rendered()),
    {
        self.attr("itemprop", value)
    }

    /// Appends the attribute `lang`, its value the rendering of `value`.
    pub fn lang(self, value: impl Render) -> (out: Element)
        ensures
            out@ == self@.with_attr("lang"@, value.rendered()),
    {
        self.attr("lang", value)
    }

    /// Appends the attribute `list`, its value the rendering of `value`.
    pub fn list(self, value: impl Render) -> (out: Element)
        ensures
            out@ == self@.with_attr("list"@, value.rendered()),
    {
        self.attr("list", value)
    }

    /// Appends the attribute `max`, its value the rendering of `value`.
    pub fn max(self, value: impl Render) -> (out: Element)
        ensures
            out@ == self@.with_attr("max"@, value.rendered()),
    {
        self.attr("max", value)
    }

    /// Appends the attribute `maxlength`, its value the rendering of `value`.
    pub fn maxlength(self, value: impl Render) -> (out: Element)
        ensures
            out@ == self@.with_attr("maxlength"@, value.rendered()),
    {
        self.attr("maxlength", value)
    }

    /// Appends the attribute `media`, its value the rendering of `value`.
    pub fn media(self, value: impl Render) -> (out: Element)
        ensures
            out@ == self@.with_attr("media"@, value.rendered()),
    {
        self.attr("media", value)
    }

    /// Appends the attribute `method`, its value the rendering of `value`.
    pub fn method(self, value: impl Render) -> (out: Element)
        ensures
            out@ == self@.with_attr("method"@, value.rendered()),
    {
        self.attr("method", value)
    }

    /// Appends the attribute `min`, its value the rendering of `value`.
    pub fn min(self, value: impl Render) -> (out: Element)
        ensures
            out@ == self@.with_attr("min"@, value.rendered()),
    {
        self.attr("min", value)
    }

    /// Appends the attribute `multiple`, its value the rendering of `value`.
    pub fn multiple(self, value: impl Render) -> (out: Element)
        ensures
            out@ == self@.with_attr("multiple"@, value.rendered()),
    {
        self.attr("multiple", value)
    }

    /// Appends the attribute `name`, its value the rendering of `value`.
    pub fn name(self, value: impl Render) -> (out: Element)
        ensures
            out@ == self@.with_attr("name"@, value.rendered()),
    {
        self.attr("name", value)
    }

    /// Appends the attribute `novalidate`, its value the rendering of `value`.
    pub fn novalidate(self, value: impl Render) -> (out: Element)
        ensures
            out@ == self@.with_attr("novalidate"@, value.rendered()),
    {
        self.attr("novalidate", value)
    }

    /// Appends the attribute `pattern`, its value the rendering of `value`.
    pub fn pattern(self, value: impl Render) -> (out: Element)
        ensures
            out@ == self@.with_attr("pattern"@, value.rendered()),
    {
        self.attr("pattern", value)
    }

    /// Appends the attribute `placeholder`, its value the rendering of `value`.
    pub fn placeholder(self, value: impl Render) -> (out: Element)
        ensures
            out@ == self@.with_attr("placeholder"@, value.rendered()),
    {
        self.attr("placeholder", value)
    }

    /// Appends the attribute `readonly`, its value the rendering of `value`.
    pub fn readonly(self, value: impl Render) -> (out: Element)
        ensures
            out@ == self@.with_attr("readonly"@, value.rendered()),
    {
        self.attr("readonly", value)
    }

    /// Appends the attribute `rel`, its value the rendering of `value`.
    pub fn rel(self, value: impl Render) -> (out: Element)
        ensures
            out@ == self@.with_attr("rel"@, value.rendered()),
    {
        self.attr("rel", value)
    }

    /// Appends the attribute `required`, its value the rendering of `value`.
    pub fn required(self, value: impl Render) -> (out: Element)
        ensures
            out@ == self@.with_attr("required"@, value.rendered()),
    {
        self.attr("required", value)
    }

    /// Appends the attribute `rows`, its value the rendering of `value`.
    pub fn rows(self, value: impl Render) -> (out: Element)
        ensures
            out@ == self@.with_attr("rows"@, value.rendered()),
    {
        self.attr("rows", value)
    }

    /// Appends the attribute `selected`, its value the rendering of `value`.
    pub fn selected(self, value: impl Render) -> (out: Element)
        ensures
            out@ == self@.with_attr("selected"@, value.rendered()),
    {
        self.attr("selected", value)
    }

    /// Appends the attribute `src`, its value the rendering of `value`.
    pub fn src(self, value: impl Render) -> (out: Element)
        ensures
            out@ == self@.with_attr("src"@, value.rendered()),
    {
        self.attr("src", value)
    }

    /// Appends the attribute `step`, its value the rendering of `value`.
    pub fn step(self, value: impl Render) -> (out: Element)
        ensures
            out@ == self@.with_attr("step"@, value.rendered()),
    {
        self.attr("step", value)
    }

    /// Appends the attribute `style`, its value the rendering of `value`.
    pub fn style(self, value: impl Render) -> (out: Element)
        ensures
            out@ == self@.with_attr("style"@, value.rendered()),
    {
        self.attr("style", value)
    }

    /// Appends the attribute `tabindex`, its value the rendering of `value`.
    pub fn tabindex(self, value: impl Render) -> (out: Element)
        ensures
            out@ == self@.with_attr("tabindex"@, value.rendered()),
    {
        self.attr("tabindex", value)
    }

    /// Appends the attribute `target`, its value the rendering of `value`.
    pub fn target(self, value: impl Render) -> (out: Element)
        ensures
            out@ == self@.with_attr("target"@, value.rendered()),
    {
        self.attr("target", value)
    }

    /// Appends the attribute `title`, its value the rendering of `value`.
    pub fn title(self, value: impl Render) -> (out: Element)
        ensures
            out@ == self@.with_attr("title"@, value.rendered()),
    {
        self.attr("title", value)
    }

    /// Appends the attribute `type`, its value the rendering of `value`.
    pub fn type_(self, value: impl Render) -> (out: Element)
        ensures
            out@ == self@.with_attr("type"@, value.rendered()),
    {
        self.attr("type", value)
    }

    /// Appends the attribute `value`, its value the rendering of `value`.
    pub fn value(self, value: impl Render) -> (out: Element)
        ensures
            out@ == self@.with_attr("value"@, value.rendered()),
    {
        self.attr("value", value)
    }

    /// Appends the attribute `width`, its value the rendering of `value`.
    pub fn width(self, value: impl Render) -> (out: Element)
        ensures
            out@ == self@.with_attr("width"@, value.rendered()),
    {
        self.attr("width", value)
    }
}

} // verus!
