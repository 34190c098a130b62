use shapeless::Render;

#[test]
fn normal_tags_a_to_f() {
    assert_eq!(shapeless::abbr().render(), "<abbr></abbr>");
    assert_eq!(shapeless::address().render(), "<address></address>");
    assert_eq!(shapeless::article().render(), "<article></article>");
    assert_eq!(shapeless::aside().render(), "<aside></aside>");
    assert_eq!(shapeless::audio().render(), "<audio></audio>");
    assert_eq!(shapeless::b().render(), "<b></b>");
    assert_eq!(shapeless::bdi().render(), "<bdi></bdi>");
    assert_eq!(shapeless::bdo().render(), "<bdo></bdo>");
    assert_eq!(shapeless::blockquote().render(), "<blockquote></blockquote>");
    assert_eq!(shapeless::body().render(), "<body></body>");
    assert_eq!(shapeless::button().render(), "<button></button>");
    assert_eq!(shapeless::canvas().render(), "<canvas></canvas>");
    assert_eq!(shapeless::caption().render(), "<caption></caption>");
    assert_eq!(shapeless::cite().render(), "<cite></cite>");
    assert_eq!(shapeless::code().render(), "<code></code>");
    assert_eq!(shapeless::colgroup().render(), "<colgroup></colgroup>");
    assert_eq!(shapeless::data().render(), "<data></data>");
    assert_eq!(shapeless::datalist().render(), "<datalist></datalist>");
    assert_eq!(shapeless::dd().render(), "<dd></dd>");
    assert_eq!(shapeless::del().render(), "<del></del>");
    assert_eq!(shapeless::details().render(), "<details></details>");
    assert_eq!(shapeless::dfn().render(), "<dfn></dfn>");
    assert_eq!(shapeless::dialog().render(), "<dialog></dialog>");
    assert_eq!(shapeless::div().render(), "<div></div>");
    assert_eq!(shapeless::dl().render(), "<dl></dl>");
    assert_eq!(shapeless::dt().render(), "<dt></dt>");
    assert_eq!(shapeless::em().render(), "<em></em>");
    assert_eq!(shapeless::fieldset().render(), "<fieldset></fieldset>");
    assert_eq!(shapeless::figcaption().render(), "<figcaption></figcaption>");
    assert_eq!(shapeless::figure().render(), "<figure></figure>");
    assert_eq!(shapeless::footer().render(), "<footer></footer>");
    assert_eq!(shapeless::form().render(), "<form></form>");
}

#[test]
fn normal_tags_h_to_o() {
    assert_eq!(shapeless::h1().render(), "<h1></h1>");
    assert_eq!(shapeless::h2().render(), "<h2></h2>");
    assert_eq!(shapeless::h3().render(), "<h3></h3>");
    assert_eq!(shapeless::h4().render(), "<h4></h4>");
    assert_eq!(shapeless::h5().render(), "<h5></h5>");
    assert_eq!(shapeless::h6().render(), "<h6></h6>");
    assert_eq!(shapeless::head().render(), "<head></head>");
    assert_eq!(shapeless::header().render(), "<header></header>");
    assert_eq!(shapeless::i().render(), "<i></i>");
    assert_eq!(shapeless::iframe().render(), "<iframe></iframe>");
    assert_eq!(shapeless::ins().render(), "<ins></ins>");
    assert_eq!(shapeless::kbd().render(), "<kbd></kbd>");
    assert_eq!(shapeless::label().render(), "<label></label>");
    assert_eq!(shapeless::legend().render(), "<legend></legend>");
    assert_eq!(shapeless::li().render(), "<li></li>");
    assert_eq!(shapeless::main().render(), "<main></main>");
    assert_eq!(shapeless::map().render(), "<map></map>");
    assert_eq!(shapeless::mark().render(), "<mark></mark>");
    assert_eq!(shapeless::meter().render(), "<meter></meter>");
    assert_eq!(shapeless::nav().render(), "<nav></nav>");
    assert_eq!(shapeless::noscript().render(), "<noscript></noscript>");
    assert_eq!(shapeless::object().render(), "<object></object>");
    assert_eq!(shapeless::ol().render(), "<ol></ol>");
    assert_eq!(shapeless::optgroup().render(), "<optgroup></optgroup>");
    assert_eq!(shapeless::option().render(), "<option></option>");
    assert_eq!(shapeless::output().render(), "<output></output>");
}

#[test]
fn normal_tags_p_to_v() {
    assert_eq!(shapeless::p().render(), "<p></p>");
    assert_eq!(shapeless::picture().render(), "<picture></picture>");
    assert_eq!(shapeless::pre().render(), "<pre></pre>");
    assert_eq!(shapeless::progress().render(), "<progress></progress>");
    assert_eq!(shapeless::q().render(), "<q></q>");
    assert_eq!(shapeless::rp().render(), "<rp></rp>");
    assert_eq!(shapeless::rt().render(), "<rt></rt>");
    assert_eq!(shapeless::ruby().render(), "<ruby></ruby>");
    assert_eq!(shapeless::s().render(), "<s></s>");
    assert_eq!(shapeless::samp().render(), "<samp></samp>");
    assert_eq!(shapeless::section().render(), "<section></section>");
    assert_eq!(shapeless::select().render(), "<select></select>");
    assert_eq!(shapeless::small().render(), "<small></small>");
    assert_eq!(shapeless::span().render(), "<span></span>");
    assert_eq!(shapeless::strong().render(), "<strong></strong>");
    assert_eq!(shapeless::sub().render(), "<sub></sub>");
    assert_eq!(shapeless::sup().render(), "<sup></sup>");
    assert_eq!(shapeless::table().render(), "<table></table>");
    assert_eq!(shapeless::tbody().render(), "<tbody></tbody>");
    assert_eq!(shapeless::td().render(), "<td></td>");
    assert_eq!(shapeless::textarea().render(), "<textarea></textarea>");
    assert_eq!(shapeless::tfoot().render(), "<tfoot></tfoot>");
    assert_eq!(shapeless::th().render(), "<th></th>");
    assert_eq!(shapeless::thead().render(), "<thead></thead>");
    assert_eq!(shapeless::time().render(), "<time></time>");
    assert_eq!(shapeless::title().render(), "<title></title>");
    assert_eq!(shapeless::tr().render(), "<tr></tr>");
    assert_eq!(shapeless::u().render(), "<u></u>");
    assert_eq!(shapeless::ul().render(), "<ul></ul>");
    assert_eq!(shapeless::var().render(), "<var></var>");
    assert_eq!(shapeless::video().render(), "<video></video>");
}

#[test]
fn self_closing_tags() {
    assert_eq!(shapeless::area().render(), "<area />");
    assert_eq!(shapeless::base().render(), "<base />");
    assert_eq!(shapeless::br().render(), "<br />");
    assert_eq!(shapeless::col().render(), "<col />");
    assert_eq!(shapeless::embed().render(), "<embed />");
    assert_eq!(shapeless::hr().render(), "<hr />");
    assert_eq!(shapeless::img().render(), "<img />");
    assert_eq!(shapeless::input().render(), "<input />");
    assert_eq!(shapeless::link().render(), "<link />");
    assert_eq!(shapeless::meta().render(), "<meta />");
    assert_eq!(shapeless::param().render(), "<param />");
    assert_eq!(shapeless::source().render(), "<source />");
    assert_eq!(shapeless::track().render(), "<track />");
    assert_eq!(shapeless::wbr().render(), "<wbr />");
}

#[test]
fn document_root_tag() {
    assert_eq!(shapeless::html().render(), "<!DOCTYPE html><html></html>");
}

#[test]
fn self_closing_tags_take_attributes_and_classes() {
    let el = shapeless::img().src("a.png").alt("A").class("w");
    assert_eq!(el.render(), "<img src=\"a.png\" alt=\"A\" class=\"w\" />");
    let el = shapeless::meta().name("viewport").orphan_attr("x");
    assert_eq!(el.render(), "<meta name=\"viewport\" x />");
}

#[test]
fn tag_constructors_start_empty() {
    let el = shapeless::table().child(shapeless::tr().child(shapeless::td().child(1i64)));
    assert_eq!(el.render(), "<table><tr><td>1</td></tr></table>");
}
