//! Setters for the htmx attributes, one per attribute name.

use vstd::prelude::*;
use crate::element::Element;
use crate::render::Render;

verus! {

impl Element {
    /// Appends the attribute `hx-get`, its value the rendering of `value`.
    pub fn hx_get(self, value: impl Render) -> (out: Element)
        ensures
            out@ == self@.with_attr("hx-get"@, value.rendered()),
    {
        self.attr("hx-get", value)
    }

    /// Appends the attribute `hx-post`, its value the rendering of `value`.
    pub fn hx_post(self, value: impl Render) -> (out: Element)
        ensures
            out@ == self@.with_attr("hx-post"@, value.rendered()),
    {
        self.attr("hx-post", value)
    }

    /// Appends the attribute `hx-patch`, its value the rendering of `value`.
    pub fn hx_patch(self, value: impl Render) -> (out: Element)
        ensures
            out@ == self@.with_attr("hx-patch"@, value.rendered()),
    {
        self.attr("hx-patch", value)
    }

    /// Appends the attribute `hx-delete`, its value the rendering of `value`.
    pub fn hx_delete(self, value: impl Render) -> (out: Element)
        ensures
            out@ == self@.with_attr("hx-delete"@, value.rendered()),
    {
        self.attr("hx-delete", value)
    }

    /// Appends the attribute `hx-put`, its value the rendering of `value`.
    pub fn hx_put(self, value: impl Render) -> (out: Element)
        ensures
            out@ == self@.with_attr("hx-put"@, value.rendered()),
    {
        self.attr("hx-put", value)
    }

    /// Appends the attribute `hx-trigger`, its value the rendering of `value`.
    pub fn hx_trigger(self, value: impl Render) -> (out: Element)
        ensures
            out@ == self@.with_attr("hx-trigger"@, value.rendered()),
    {
        self.attr("hx-trigger", value)
    }

    /// Appends the attribute `hx-target`, its value the rendering of `value`.
    pub fn hx_target(self, value: impl Render) -> (out: Element)
        ensures
            out@ == self@.with_attr("hx-target"@, value.rendered()),
    {
        self.attr("hx-target", value)
    }

    /// Appends the attribute `hx-swap`, its value the rendering of `value`.
    pub fn hx_swap(self, value: impl Render) -> (out: Element)
        ensures
            out@ == self@.with_attr("hx-swap"@, value.rendered()),
    {
        self.attr("hx-swap", value)
    }

    /// Appends the attribute `hx-swap-oob`, its value the rendering of `value`.
    pub fn hx_swap_oob(self, value: impl Render) -> (out: Element)
        ensures
            out@ == self@.with_attr("hx-swap-oob"@, value.rendered()),
    {
        self.attr("hx-swap-oob", value)
    }

    /// Appends the attribute `hx-indicator`, its value the rendering of `value`.
    pub fn hx_indicator(self, value: impl Render) -> (out: Element)
        ensures
            out@ == self@.with_attr("hx-indicator"@, value.rendered()),
    {
        self.attr("hx-indicator", value)
    }

    /// Appends the attribute `hx-confirm`, its value the rendering of `value`.
    pub fn hx_confirm(self, value: impl Render) -> (out: Element)
        ensures
            out@ == self@.with_attr("hx-confirm"@, value.rendered()),
    {
        self.attr("hx-confirm", value)
    }

    /// Appends the attribute `hx-headers`, its value the rendering of `value`.
    pub fn hx_headers(self, value: impl Render) -> (out: Element)
        ensures
            out@ == self@.with_attr("hx-headers"@, value.rendered()),
    {
        self.attr("hx-headers", value)
    }

    /// Appends the attribute `hx-params`, its value the rendering of `value`.
    pub fn hx_params(self, value: impl Render) -> (out: Element)
        ensures
            out@ == self@.with_attr("hx-params"@, value.rendered()),
    {
        self.attr("hx-params", value)
    }

    /// Appends the attribute `hx-timeout`, its value the rendering of `value`.
    pub fn hx_timeout(self, value: impl Render) -> (out: Element)
        ensures
            out@ == self@.with_attr("hx-timeout"@, value.rendered()),
    {
        self.attr("hx-timeout", value)
    }

    /// Appends the attribute `hx-ws`, its value the rendering of `value`.
    pub fn hx_ws(self, value: impl Render) -> (out: Element)
        ensures
            out@ == self@.with_attr("hx-ws"@, value.rendered()),
    {
        self.attr("hx-ws", value)
    }

    /// Appends the attribute `hx-ws-reconnect`, its value the rendering of `value`.
    pub fn hx_ws_reconnect(self, value: impl Render) -> (out: Element)
        ensures
            out@ == self@.with_attr("hx-ws-reconnect"@, value.rendered()),
    {
        self.attr("hx-ws-reconnect", value)
    }

    /// Appends the attribute `hx-ws-elt`, its value the rendering of `value`.
    pub fn hx_ws_elt(self, value: impl Render) -> (out: Element)
        ensures
            out@ == self@.with_attr("hx-ws-elt"@, value.rendered()),
    {
        self.attr("hx-ws-elt", value)
    }
}

} // verus!
