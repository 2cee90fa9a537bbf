//! Collecting the links of an HTML document.

use vstd::prelude::*;
use crate::html::{attr_value, find_attr};
use crate::ids::new_uuid;
use crate::text::str_eq;

verus! {

/// A link: its target and its text.
#[derive(Debug, Clone)]
pub struct Link {
    pub url: String,
    pub text: String,
}

/// The text of the text children, concatenated in order; other children
/// (`None`) add nothing.
pub open spec fn text_of_children(children: Seq<Option<String>>) -> Seq<char>
    decreases children.len(),
{
    if children.len() == 0 {
        seq![]
    } else {
        let rest = text_of_children(children.drop_last());
        match children.last() {
            Some(t) => rest + t@,
            None => rest,
        }
    }
}

/// The concatenated text of the text children.
pub fn children_text(children: &Vec<Option<String>>) -> (r: String)
    ensures
        r@ == text_of_children(children@),
{
    let mut r = String::new();
    let mut i: usize = 0;
    while i < children.len()
        invariant
            i <= children.len(),
            r@ == text_of_children(children@.take(i as int)),
        decreases children.len() - i,
    {
        assert(children@.take(i + 1).drop_last() == children@.take(i as int));
        match &children[i] {
            Some(t) => r.append(t.as_str()),
            None => {},
        }
        i += 1;
    }
    assert(children@.take(children.len() as int) == children@);
    r
}

/// Collects the `href` and text of each `a` element, each under a fresh
/// random id.
#[derive(Debug)]
pub struct LinkVisitor {
    links: Vec<(String, Link)>,
}

impl LinkVisitor {
    /// A visitor with no links.
    pub fn new() -> (r: LinkVisitor)
        ensures
            r.links_seen().len() == 0,
    {
        LinkVisitor { links: Vec::new() }
    }

    /// The links collected so far, with their ids, in the order found.
    pub closed spec fn links_seen(&self) -> Seq<(String, Link)> {
        self.links@
    }

    /// The links collected so far, by id.
    pub fn links(&self) -> (r: &Vec<(String, Link)>)
        ensures
            r@ == self.links_seen(),
    {
        &self.links
    }

    /// Visits an element: an `a` element with an `href` adds a link to the
    /// first `href` value, with the concatenated text of its text children.
    /// Traversal goes on.
    pub fn visit_element(&mut self, name: &str, attrs: &Vec<(String, String)>, children: &Vec<Option<String>>) -> (r: bool)
        ensures
            r,
            (name@ == "a"@ && attr_value(attrs@, "href"@) is Some) ==> {
                &&& final(self).links_seen().len() == old(self).links_seen().len() + 1
                &&& final(self).links_seen().take(old(self).links_seen().len() as int) == old(self).links_seen()
                &&& final(self).links_seen().last().1.url@ == attr_value(attrs@, "href"@).unwrap()
                &&& final(self).links_seen().last().1.text@ == text_of_children(children@)
                &&& final(self).links_seen().last().0@.len() == 36
            },
            !(name@ == "a"@ && attr_value(attrs@, "href"@) is Some) ==> final(self).links_seen() == old(self).links_seen(),
    {
        if str_eq(name, "a") {
            match find_attr(attrs, "href") {
                Some(i) => {
                    let url = attrs[i].1.clone();
                    let text = children_text(children);
                    let id = new_uuid();
                    proof {
                        crate::ids::lemma_hyphenated_len(id);
                    }
                    self.links.push((id.hyphenated, Link { url, text }));
                    assert(self.links@.take(old(self).links@.len() as int) =~= old(self).links@);
                },
                None => {},
            }
        }
        true
    }
}

} // verus!
