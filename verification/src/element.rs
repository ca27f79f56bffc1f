//! The shape of a parsed document.

use std::collections::HashMap;
use vstd::prelude::*;

verus! {

/// An element of a document: its name, its attributes by key, and the elements
/// nested in it, in the order in which they stand.
#[derive(Debug, PartialEq, Eq)]
pub struct Element {
    pub name: String,
    pub attr: HashMap<String, String>,
    pub children: Vec<Element>,
}

/// What an [`Element`] holds: the text of its name, its attributes, and what
/// its children hold, in order.
pub struct ElementView {
    pub name: Seq<char>,
    pub attr: Map<String, String>,
    pub children: Seq<ElementView>,
}

/// What `element` holds.
pub open spec fn element_view(element: Element) -> ElementView
    decreases element,
{
    ElementView {
        name: element.name@,
        attr: element.attr@,
        children: Seq::new(
            element.children@.len(),
            |i: int|
                if 0 <= i < element.children@.len() {
                    element_view(element.children@[i])
                } else {
                    arbitrary()
                },
        ),
    }
}

impl View for Element {
    type V = ElementView;

    open spec fn view(&self) -> ElementView {
        element_view(*self)
    }
}

impl Clone for Element {
    fn clone(&self) -> (copy: Self)
        ensures
            copy@ == self@,
        decreases self,
    {
        let mut children: Vec<Element> = Vec::new();
        let mut i: usize = 0;
        while i < self.children.len()
            invariant
                i <= self.children.len(),
                children.len() == i,
                forall|j: int| 0 <= j < i ==> (#[trigger] children@[j])@ == self.children@[j]@,
            decreases self.children.len() - i,
        {
            children.push(self.children[i].clone());
            i = i + 1;
        }
        let copy = Element { name: self.name.clone(), attr: self.attr.clone(), children };
        assert(copy@.children =~= self@.children);
        copy
    }
}

} // verus!
