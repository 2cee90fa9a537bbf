//! The Next.js runtime directive at the top of a module.
//!
//! A module body is modelled by what the visitor reads of each top-level
//! item: the value of a string-literal expression statement, or nothing for
//! any other item.

use vstd::prelude::*;
use crate::text::str_eq;

verus! {

/// The runtime a module is marked for.
#[derive(Clone, Copy, Debug, PartialEq, Eq, Structural)]
pub enum Runtime {
    Server,
    Client,
}

/// The directive that marks a module for a runtime.
pub open spec fn directive_of(runtime: Runtime) -> Seq<char> {
    match runtime {
        Runtime::Server => "use server"@,
        Runtime::Client => "use client"@,
    }
}

/// Whether an item of a module body is the string statement `directive`.
pub open spec fn is_statement(item: Option<String>, directive: Seq<char>) -> bool {
    match item {
        Some(s) => s@ == directive,
        None => false,
    }
}

/// Whether some item of a module body is the string statement `directive`.
pub open spec fn has_statement(body: Seq<Option<String>>, directive: Seq<char>) -> bool {
    exists|i: int| 0 <= i < body.len() && is_statement(#[trigger] body[i], directive)
}

/// Whether `after` is what visiting `before` for `runtime` gives.
pub open spec fn visited(runtime: Runtime, before: Seq<Option<String>>, after: Seq<Option<String>>) -> bool {
    let d = directive_of(runtime);
    &&& has_statement(before, d) ==> after == before
    &&& !has_statement(before, d) ==> after.len() == before.len() + 1 && after.skip(1) == before
        && is_statement(after[0], d)
}

/// Visiting is idempotent: visiting a visited module changes nothing, and
/// the directive is then present.
pub proof fn law_visit_idempotent(runtime: Runtime, b0: Seq<Option<String>>, b1: Seq<Option<String>>, b2: Seq<Option<String>>)
    requires
        visited(runtime, b0, b1),
        visited(runtime, b1, b2),
    ensures
        b2 == b1,
        has_statement(b1, directive_of(runtime)),
{
    let d = directive_of(runtime);
    if !has_statement(b0, d) {
        assert(is_statement(b1[0], d));
        assert(has_statement(b1, d));
    }
}

/// Adds the directive of a runtime to the top of a module that lacks it.
pub struct NextjsVisitor {
    runtime: Runtime,
}

impl NextjsVisitor {
    /// A visitor for `runtime`.
    pub fn new(runtime: Runtime) -> (r: NextjsVisitor)
        ensures
            r.runtime() == runtime,
    {
        NextjsVisitor { runtime }
    }

    /// The runtime of the visitor.
    pub closed spec fn runtime(&self) -> Runtime {
        self.runtime
    }

    /// The directive text of the visitor's runtime.
    pub fn directive_text(&self) -> (r: &'static str)
        ensures
            r@ == directive_of(self.runtime()),
    {
        match self.runtime {
            Runtime::Server => "use server",
            Runtime::Client => "use client",
        }
    }

    /// Whether some top-level item is already the directive.
    pub fn has_directive(&self, body: &Vec<Option<String>>) -> (r: bool)
        ensures
            r == has_statement(body@, directive_of(self.runtime())),
    {
        let directive = self.directive_text();
        let mut i: usize = 0;
        while i < body.len()
            invariant
                i <= body.len(),
                directive@ == directive_of(self.runtime()),
                forall|j: int| 0 <= j < i ==> !is_statement(#[trigger] body@[j], directive@),
            decreases body.len() - i,
        {
            match &body[i] {
                Some(s) => {
                    if str_eq(s.as_str(), directive) {
                        assert(is_statement(body@[i as int], directive@));
                        return true;
                    }
                },
                None => {},
            }
            i += 1;
        }
        false
    }

    /// Puts the directive first in the module body, unless an item already
    /// is the directive; then the body is left as it is.
    pub fn visit_mut_module(&self, body: &mut Vec<Option<String>>)
        ensures
            has_statement(old(body)@, directive_of(self.runtime())) ==> final(body)@ == old(body)@,
            !has_statement(old(body)@, directive_of(self.runtime())) ==> final(body)@.len() == old(body)@.len() + 1
                && final(body)@.skip(1) == old(body)@
                && is_statement(final(body)@[0], directive_of(self.runtime())),
            has_statement(final(body)@, directive_of(self.runtime())),
            visited(self.runtime(), old(body)@, final(body)@),
    {
        if !self.has_directive(body) {
            let d = String::from_str(self.directive_text());
            body.insert(0, Some(d));
            assert(body@.skip(1) =~= old(body)@);
            assert(is_statement(body@[0], directive_of(self.runtime())));
        }
    }
}

} // verus!
