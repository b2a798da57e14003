//! The navigable XML tree the catalog is read from: a tag name, attributes in
//! document order and child elements in document order.
use vstd::prelude::*;

use crate::text::str_eq;

verus! {

/// One element of a parsed XML document.
#[derive(Debug)]
pub struct Element {
    /// The local name of the tag.
    pub tag: String,
    /// The attributes as `(name, value)` pairs, in document order.
    pub attributes: Vec<(String, String)>,
    /// The child elements, in document order.
    pub children: Vec<Element>,
}

/// The value of the first attribute named `name` in `attrs`.
pub open spec fn attr_value(attrs: Seq<(String, String)>, name: Seq<char>) -> Option<String>
    decreases attrs.len(),
{
    if attrs.len() == 0 {
        None
    } else if attrs[0].0@ == name {
        Some(attrs[0].1)
    } else {
        attr_value(attrs.drop_first(), name)
    }
}

impl Element {
    /// The value of the attribute `name`, if the element carries it.
    pub open spec fn attr(&self, name: Seq<char>) -> Option<String> {
        attr_value(self.attributes@, name)
    }

    /// An element with the given tag, no attributes and no children.
    pub fn new(tag: String) -> (r: Element)
        ensures
            r.tag == tag,
            r.attributes@ == Seq::<(String, String)>::empty(),
            r.children@ == Seq::<Element>::empty(),
    {
        Element { tag, attributes: Vec::new(), children: Vec::new() }
    }

    /// This element with one more attribute after the existing ones.
    pub fn with_attribute(self, name: String, value: String) -> (r: Element)
        ensures
            r.tag == self.tag,
            r.attributes@ == self.attributes@.push((name, value)),
            r.children == self.children,
    {
        let mut e = self;
        e.attributes.push((name, value));
        e
    }

    /// This element with one more child after the existing ones.
    pub fn with_child(self, child: Element) -> (r: Element)
        ensures
            r.tag == self.tag,
            r.attributes == self.attributes,
            r.children@ == self.children@.push(child),
    {
        let mut e = self;
        e.children.push(child);
        e
    }

    /// Whether the tag of this element is `tag`.
    pub fn has_tag(&self, tag: &str) -> (r: bool)
        ensures
            r == (self.tag@ == tag@),
    {
        str_eq(self.tag.as_str(), tag)
    }

    /// The value of the first attribute called `name`.
    pub fn attribute(&self, name: &str) -> (r: Option<&String>)
        ensures
            r is Some <==> self.attr(name@) is Some,
            r matches Some(v) ==> self.attr(name@) == Some(*v),
    {
        let n = self.attributes.len();
        let mut i: usize = 0;
        assert(self.attributes@.subrange(0, n as int) =~= self.attributes@);
        while i < n
            invariant
                n == self.attributes@.len(),
                i <= n,
                self.attr(name@) == attr_value(self.attributes@.subrange(i as int, n as int), name@),
            decreases n - i,
        {
            let ghost rest = self.attributes@.subrange(i as int, n as int);
            assert(rest.drop_first() =~= self.attributes@.subrange(i + 1, n as int));
            if str_eq(self.attributes[i].0.as_str(), name) {
                return Some(&self.attributes[i].1);
            }
            i += 1;
        }
        None
    }
}

} // verus!
