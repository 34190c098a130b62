use shapeless::{Element, Render};

#[test]
fn attribute_setters_a_to_d() {
    assert_eq!(Element::new("t").accept("v").render(), "<t accept=\"v\"></t>");
    assert_eq!(Element::new("t").accesskey("v").render(), "<t accesskey=\"v\"></t>");
    assert_eq!(Element::new("t").action("v").render(), "<t action=\"v\"></t>");
    assert_eq!(Element::new("t").alt("v").render(), "<t alt=\"v\"></t>");
    assert_eq!(Element::new("t").async_("v").render(), "<t async=\"v\"></t>");
    assert_eq!(Element::new("t").autocomplete("v").render(), "<t autocomplete=\"v\"></t>");
    assert_eq!(Element::new("t").autofocus("v").render(), "<t autofocus=\"v\"></t>");
    assert_eq!(Element::new("t").autoplay("v").render(), "<t autoplay=\"v\"></t>");
    assert_eq!(Element::new("t").checked("v").render(), "<t checked=\"v\"></t>");
    assert_eq!(Element::new("t").contenteditable("v").render(), "<t contenteditable=\"v\"></t>");
    assert_eq!(Element::new("t").controls("v").render(), "<t controls=\"v\"></t>");
    assert_eq!(Element::new("t").data("v").render(), "<t data=\"v\"></t>");
    assert_eq!(Element::new("t").datetime("v").render(), "<t datetime=\"v\"></t>");
    assert_eq!(Element::new("t").defer("v").render(), "<t defer=\"v\"></t>");
    assert_eq!(Element::new("t").dir("v").render(), "<t dir=\"v\"></t>");
    assert_eq!(Element::new("t").disabled("v").render(), "<t disabled=\"v\"></t>");
    assert_eq!(Element::new("t").download("v").render(), "<t download=\"v\"></t>");
    assert_eq!(Element::new("t").draggable("v").render(), "<t draggable=\"v\"></t>");
}

#[test]
fn attribute_setters_e_to_m() {
    assert_eq!(Element::new("t").enctype("v").render(), "<t enctype=\"v\"></t>");
    assert_eq!(Element::new("t").for_("v").render(), "<t for=\"v\"></t>");
    assert_eq!(Element::new("t").form("v").render(), "<t form=\"v\"></t>");
    assert_eq!(Element::new("t").headers("v").render(), "<t headers=\"v\"></t>");
    assert_eq!(Element::new("t").height("v").render(), "<t height=\"v\"></t>");
    assert_eq!(Element::new("t").hidden("v").render(), "<t hidden=\"v\"></t>");
    assert_eq!(Element::new("t").href("v").render(), "<t href=\"v\"></t>");
    assert_eq!(Element::new("t").id("v").render(), "<t id=\"v\"></t>");
    assert_eq!(Element::new("t").ismap("v").render(), "<t ismap=\"v\"></t>");
    assert_eq!(Element::new("t").itemprop("v").render(), "<t itemprop=\"v\"></t>");
    assert_eq!(Element::new("t").lang("v").render(), "<t lang=\"v\"></t>");
    assert_eq!(Element::new("t").list("v").render(), "<t list=\"v\"></t>");
    assert_eq!(Element::new("t").max("v").render(), "<t max=\"v\"></t>");
    assert_eq!(Element::new("t").maxlength("v").render(), "<t maxlength=\"v\"></t>");
    assert_eq!(Element::new("t").media("v").render(), "<t media=\"v\"></t>");
    assert_eq!(Element::new("t").method("v").render(), "<t method=\"v\"></t>");
    assert_eq!(Element::new("t").min("v").render(), "<t min=\"v\"></t>");
    assert_eq!(Element::new("t").multiple("v").render(), "<t multiple=\"v\"></t>");
}

#[test]
fn attribute_setters_n_to_w() {
    assert_eq!(Element::new("t").name("v").render(), "<t name=\"v\"></t>");
    assert_eq!(Element::new("t").novalidate("v").render(), "<t novalidate=\"v\"></t>");
    assert_eq!(Element::new("t").pattern("v").render(), "<t pattern=\"v\"></t>");
    assert_eq!(Element::new("t").placeholder("v").render(), "<t placeholder=\"v\"></t>");
    assert_eq!(Element::new("t").readonly("v").render(), "<t readonly=\"v\"></t>");
    assert_eq!(Element::new("t").rel("v").render(), "<t rel=\"v\"></t>");
    assert_eq!(Element::new("t").required("v").render(), "<t required=\"v\"></t>");
    assert_eq!(Element::new("t").rows("v").render(), "<t rows=\"v\"></t>");
    assert_eq!(Element::new("t").selected("v").render(), "<t selected=\"v\"></t>");
    assert_eq!(Element::new("t").src("v").render(), "<t src=\"v\"></t>");
    assert_eq!(Element::new("t").step("v").render(), "<t step=\"v\"></t>");
    assert_eq!(Element::new("t").style("v").render(), "<t style=\"v\"></t>");
    assert_eq!(Element::new("t").tabindex("v").render(), "<t tabindex=\"v\"></t>");
    assert_eq!(Element::new("t").target("v").render(), "<t target=\"v\"></t>");
    assert_eq!(Element::new("t").title("v").render(), "<t title=\"v\"></t>");
    assert_eq!(Element::new("t").type_("v").render(), "<t type=\"v\"></t>");
    assert_eq!(Element::new("t").value("v").render(), "<t value=\"v\"></t>");
    assert_eq!(Element::new("t").width("v").render(), "<t width=\"v\"></t>");
}

#[test]
fn htmx_setters() {
    assert_eq!(Element::new("t").hx_get("v").render(), "<t hx-get=\"v\"></t>");
    assert_eq!(Element::new("t").hx_post("v").render(), "<t hx-post=\"v\"></t>");
    assert_eq!(Element::new("t").hx_patch("v").render(), "<t hx-patch=\"v\"></t>");
    assert_eq!(Element::new("t").hx_delete("v").render(), "<t hx-delete=\"v\"></t>");
    assert_eq!(Element::new("t").hx_put("v").render(), "<t hx-put=\"v\"></t>");
    assert_eq!(Element::new("t").hx_trigger("v").render(), "<t hx-trigger=\"v\"></t>");
    assert_eq!(Element::new("t").hx_target("v").render(), "<t hx-target=\"v\"></t>");
    assert_eq!(Element::new("t").hx_swap("v").render(), "<t hx-swap=\"v\"></t>");
    assert_eq!(Element::new("t").hx_swap_oob("v").render(), "<t hx-swap-oob=\"v\"></t>");
    assert_eq!(Element::new("t").hx_indicator("v").render(), "<t hx-indicator=\"v\"></t>");
    assert_eq!(Element::new("t").hx_confirm("v").render(), "<t hx-confirm=\"v\"></t>");
    assert_eq!(Element::new("t").hx_headers("v").render(), "<t hx-headers=\"v\"></t>");
    assert_eq!(Element::new("t").hx_params("v").render(), "<t hx-params=\"v\"></t>");
    assert_eq!(Element::new("t").hx_timeout("v").render(), "<t hx-timeout=\"v\"></t>");
    assert_eq!(Element::new("t").hx_ws("v").render(), "<t hx-ws=\"v\"></t>");
    assert_eq!(Element::new("t").hx_ws_reconnect("v").render(), "<t hx-ws-reconnect=\"v\"></t>");
    assert_eq!(Element::new("t").hx_ws_elt("v").render(), "<t hx-ws-elt=\"v\"></t>");
}

#[test]
fn setters_render_their_value_first() {
    assert_eq!(Element::new("t").tabindex(3i64).render(), "<t tabindex=\"3\"></t>");
    assert_eq!(Element::new("t").width(-1i64).height(String::from("2")).render(), "<t width=\"-1\" height=\"2\"></t>");
    assert_eq!(Element::new("t").hx_timeout(500i64).render(), "<t hx-timeout=\"500\"></t>");
}

#[test]
fn setters_append_in_call_order() {
    let el = Element::new("a").href("/x").id("i").class("c").rel("r").hx_get("/y");
    assert_eq!(el.render(), "<a href=\"/x\" id=\"i\" rel=\"r\" hx-get=\"/y\" class=\"c\"></a>");
}

#[test]
fn setting_an_attribute_twice_keeps_both() {
    let el = Element::new("a").id("one").id("two");
    assert_eq!(el.render(), "<a id=\"one\" id=\"two\"></a>");
}
