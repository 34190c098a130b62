//! A sequence of sibling elements, rendered one after the other without a wrapping tag.

use vstd::prelude::*;
use crate::element::{Element, ElementView};
use crate::render::Render;

verus! {

/// The views of the elements of `items`, in order.
pub open spec fn element_views(items: Seq<Element>) -> Seq<ElementView> {
    items.map_values(|e: Element| e@)
}

/// The markup of each element of `items`, in order, with nothing in between.
pub open spec fn markup_of_all(items: Seq<ElementView>) -> Seq<char>
    decreases items.len(),
{
    if items.len() == 0 {
        Seq::empty()
    } else {
        markup_of_all(items.drop_last()) + items.last().markup()
    }
}

/// An ordered list of sibling elements.
pub struct Elements {
    elements: Vec<Element>,
}

impl View for Elements {
    type V = Seq<ElementView>;

    closed spec fn view(&self) -> Seq<ElementView> {
        element_views(self.elements@)
    }
}

impl Render for Vec<Element> {
    /// A vector of elements renders to the markup of each, in order, with nothing in between.
    open spec fn rendered(&self) -> Seq<char> {
        markup_of_all(element_views(self@))
    }

    fn render(&self) -> (out: String) {
        let mut out = String::new();
        let mut i: usize = 0;
        while i < self.len()
            invariant
                i <= self.len(),
                out@ == markup_of_all(element_views(self@).take(i as int)),
            decreases self.len() - i,
        {
            let one = self[i].render();
            out.append(one.as_str());
            proof {
                let all = element_views(self@);
                assert(all.take(i + 1).drop_last() =~= all.take(i as int));
                assert(all.take(i + 1).last() == self@[i as int]@);
            }
            i += 1;
        }
        proof {
            assert(element_views(self@).take(i as int) =~= element_views(self@));
        }
        out
    }
}

impl Render for Elements {
    /// A sequence renders to the markup of each of its elements, in order, with nothing in
    /// between.
    open spec fn rendered(&self) -> Seq<char> {
        markup_of_all(self@)
    }

    fn render(&self) -> (out: String) {
        self.elements.render()
    }
}

impl Elements {
    /// The empty sequence.
    pub fn new() -> (out: Elements)
        ensures
            out@ == Seq::<ElementView>::empty(),
    {
        let out = Elements { elements: Vec::new() };
        proof {
            assert(element_views(out.elements@) =~= Seq::<ElementView>::empty());
        }
        out
    }

    /// The sequence that holds `el` alone.
    pub fn from(el: Element) -> (out: Elements)
        ensures
            out@ == seq![el@],
    {
        let mut v: Vec<Element> = Vec::new();
        v.push(el);
        proof {
            assert(element_views(v@) =~= seq![el@]);
        }
        Elements { elements: v }
    }

    /// Appends `el` as the last element.
    pub fn push(self, el: Element) -> (out: Elements)
        ensures
            out@ == self@.push(el@),
    {
        let mut out = self;
        out.elements.push(el);
        proof {
            assert(element_views(out.elements@) =~= element_views(self.elements@).push(el@));
        }
        out
    }

    /// Moves the elements of `els` to the end of this sequence, in their order, and leaves
    /// `els` empty.
    pub fn append(self, els: &mut Elements) -> (out: Elements)
        ensures
            out@ == self@ + old(els)@,
            final(els)@ == Seq::<ElementView>::empty(),
    {
        let mut out = self;
        out.elements.append(&mut els.elements);
        proof {
            assert(element_views(out.elements@) =~= element_views(self.elements@) + element_views(
                old(els).elements@,
            ));
            assert(element_views(els.elements@) =~= Seq::<ElementView>::empty());
        }
        out
    }
}

} // verus!
