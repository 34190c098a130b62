//! Laws of the rendering model, each proved from the definitions that the builders' and
//! renderers' contracts are stated in.

use vstd::prelude::*;
use crate::element::{attr_token, Element, ElementView, TagType};
use crate::elements::{markup_of_all, Elements};
use crate::render::Render;
use crate::text::{joined, lemma_joined_push};

verus! {

/// An element made from a tag name alone renders to an opening and a closing tag with
/// nothing in between, whatever the name is.
pub proof fn lemma_fresh_markup(name: Seq<char>)
    ensures
        ElementView::fresh(name).markup() == "<"@ + name + "></"@ + name + ">"@,
{
    reveal_strlit(">");
    reveal_strlit("</");
    reveal_strlit("></");
    let e = ElementView::fresh(name);
    assert(e.tag() =~= name);
    assert(e.markup() =~= "<"@ + name + "></"@ + name + ">"@);
}

/// An element made from a tag name alone and marked self-closing renders to the name
/// between `<` and ` />`.
pub proof fn lemma_fresh_slash_markup(name: Seq<char>)
    ensures
        ElementView::fresh(name).with_tag_type(TagType::Slash).markup() == "<"@ + name + " />"@,
{
    let e = ElementView::fresh(name).with_tag_type(TagType::Slash);
    assert(e.tag() =~= name);
}

/// An element made from a tag name alone and marked as an orphan renders to its opening tag
/// and nothing else.
pub proof fn lemma_fresh_orphan_markup(name: Seq<char>)
    ensures
        ElementView::fresh(name).with_tag_type(TagType::Orphan).markup() == "<"@ + name + ">"@,
{
    let e = ElementView::fresh(name).with_tag_type(TagType::Orphan);
    assert(e.tag() =~= name);
}

/// An element made from a tag name alone and marked with the document type renders to the
/// declaration followed by an opening and a closing tag.
pub proof fn lemma_fresh_doctype_markup(name: Seq<char>)
    ensures
        ElementView::fresh(name).with_tag_type(TagType::DocType).markup()
            == "<!DOCTYPE html><"@ + name + "></"@ + name + ">"@,
{
    reveal_strlit(">");
    reveal_strlit("</");
    reveal_strlit("></");
    let e = ElementView::fresh(name).with_tag_type(TagType::DocType);
    assert(e.tag() =~= name);
    assert(e.markup() =~= "<!DOCTYPE html><"@ + name + "></"@ + name + ">"@);
}

/// Of several marks of the structural kind only the last one counts.
pub proof fn lemma_last_tag_type_wins(e: ElementView, first: TagType, last: TagType)
    ensures
        e.with_tag_type(first).with_tag_type(last) == e.with_tag_type(last),
{
}

/// A new attribute token is written behind the tokens that were there, after one space.
pub proof fn lemma_token_goes_last(e: ElementView, token: Seq<char>)
    ensures
        e.with_token(token).attrs_text() == e.attrs_text() + " "@ + token,
{
    lemma_joined_push(e.attrs, " "@, token);
    assert(e.with_token(token).attrs_text() =~= e.attrs_text() + " "@ + token);
}

/// Two attributes set one after the other are written in that order, separated by one space,
/// behind the name and the attributes that were there, and in front of the classes. Nothing
/// else of the element changes.
pub proof fn lemma_attrs_keep_call_order(
    e: ElementView,
    key1: Seq<char>,
    value1: Seq<char>,
    key2: Seq<char>,
    value2: Seq<char>,
)
    ensures
        e.with_attr(key1, value1).with_attr(key2, value2).tag() == e.name + e.attrs_text() + " "@
            + attr_token(key1, value1) + " "@ + attr_token(key2, value2) + e.classes_text(),
        e.with_attr(key1, value1).with_attr(key2, value2) == (ElementView {
            attrs: e.attrs.push(attr_token(key1, value1)).push(attr_token(key2, value2)),
            ..e
        }),
{
    let one = e.with_attr(key1, value1);
    let two = one.with_attr(key2, value2);
    lemma_token_goes_last(e, attr_token(key1, value1));
    lemma_token_goes_last(one, attr_token(key2, value2));
    assert(two.tag() =~= e.name + e.attrs_text() + " "@ + attr_token(key1, value1) + " "@
        + attr_token(key2, value2) + e.classes_text());
}

/// Two classes added one after the other to an element without classes are written as
/// `class="first second"`, behind the name and the attributes.
pub proof fn lemma_classes_joined(e: ElementView, first: Seq<char>, second: Seq<char>)
    requires
        e.classes.len() == 0,
    ensures
        e.with_class(first).with_class(second).classes_text() == " class=\""@ + first + " "@
            + second + "\""@,
        e.with_class(first).with_class(second).tag() == e.name + e.attrs_text() + " class=\""@
            + first + " "@ + second + "\""@,
{
    let one = e.with_class(first);
    let two = one.with_class(second);
    lemma_joined_push(e.classes, " "@, first);
    lemma_joined_push(one.classes, " "@, second);
    assert(two.classes_text() =~= " class=\""@ + first + " "@ + second + "\""@);
    assert(two.tag() =~= e.name + e.attrs_text() + " class=\""@ + first + " "@ + second + "\""@);
}

/// A new class is written behind the classes that were there, after one space, and the
/// classes stay behind the attributes.
pub proof fn lemma_class_goes_last(e: ElementView, class: Seq<char>)
    requires
        e.classes.len() > 0,
    ensures
        e.with_class(class).classes_text() == " class=\""@ + joined(e.classes, " "@) + " "@
            + class + "\""@,
        e.with_class(class).tag() == e.name + e.attrs_text() + e.with_class(class).classes_text(),
{
    lemma_joined_push(e.classes, " "@, class);
    assert(e.with_class(class).classes_text() =~= " class=\""@ + joined(e.classes, " "@) + " "@
        + class + "\""@);
}

/// Classes and attributes do not depend on the order in which the two kinds were added: the
/// classes are written behind the attributes either way.
pub proof fn lemma_class_and_token_commute(e: ElementView, class: Seq<char>, token: Seq<char>)
    ensures
        e.with_class(class).with_token(token) == e.with_token(token).with_class(class),
{
}

/// Two children appended one after the other leave the content that was there followed by
/// the first and then the second, with nothing in between; in a normal tag that is what
/// stands between the opening and the closing tag.
pub proof fn lemma_children_concatenate(e: ElementView, first: Seq<char>, second: Seq<char>)
    ensures
        e.with_child(first).with_child(second).content == e.content + first + second,
        e.with_child(first).with_child(second).tag() == e.tag(),
        e.tag_type is Normal ==> e.with_child(first).with_child(second).markup() == "<"@
            + e.tag() + ">"@ + e.content + first + second + "</"@ + e.name + ">"@,
{
    let two = e.with_child(first).with_child(second);
    assert(two.content =~= e.content + first + second);
}

/// A sequence after a push renders to what it rendered to before, followed by the markup of
/// the pushed element.
pub proof fn lemma_pushed_markup(items: Seq<ElementView>, e: ElementView)
    ensures
        markup_of_all(items.push(e)) == markup_of_all(items) + e.markup(),
{
    assert(items.push(e).drop_last() =~= items);
}

/// A sequence after two pushes renders to what it rendered to before, then the first pushed
/// element, then the second, with nothing in between; from the empty sequence that is the
/// two renderings one after the other.
pub proof fn lemma_two_pushed_markup(items: Seq<ElementView>, e1: ElementView, e2: ElementView)
    ensures
        markup_of_all(items.push(e1).push(e2)) == markup_of_all(items) + e1.markup()
            + e2.markup(),
        markup_of_all(Seq::<ElementView>::empty().push(e1).push(e2)) == e1.markup()
            + e2.markup(),
{
    let none = Seq::<ElementView>::empty();
    lemma_pushed_markup(items, e1);
    lemma_pushed_markup(items.push(e1), e2);
    lemma_pushed_markup(none, e1);
    lemma_pushed_markup(none.push(e1), e2);
    assert(markup_of_all(none.push(e1).push(e2)) =~= e1.markup() + e2.markup());
}

/// A sequence that absorbed another renders to its own markup followed by the other's.
pub proof fn lemma_appended_markup(front: Seq<ElementView>, back: Seq<ElementView>)
    ensures
        markup_of_all(front + back) == markup_of_all(front) + markup_of_all(back),
    decreases back.len(),
{
    if back.len() == 0 {
        assert(front + back =~= front);
        assert(markup_of_all(front + back) =~= markup_of_all(front) + markup_of_all(back));
    } else {
        lemma_appended_markup(front, back.drop_last());
        assert((front + back).drop_last() =~= front + back.drop_last());
        assert(markup_of_all(front + back) =~= markup_of_all(front) + markup_of_all(back));
    }
}

/// Rendering is a function of the element alone: whatever two calls of `render` on one
/// element return, the two texts are the same.
pub proof fn lemma_render_is_deterministic(e: Element, first: String, second: String)
    requires
        call_ensures(<Element as Render>::render, (&e,), first),
        call_ensures(<Element as Render>::render, (&e,), second),
    ensures
        first@ == second@,
{
}

/// Rendering a sequence is a function of the sequence alone: whatever two calls of `render`
/// on one sequence return, the two texts are the same.
pub proof fn lemma_render_all_is_deterministic(items: Elements, first: String, second: String)
    requires
        call_ensures(<Elements as Render>::render, (&items,), first),
        call_ensures(<Elements as Render>::render, (&items,), second),
    ensures
        first@ == second@,
{
}

} // verus!
