//! The filter for requests to the set collection and its builder.

use crate::api::query::{
    append_or, append_or_values, append_term, sep_or, shown_all, with_term, FilterValue,
};
use crate::api::set::filtertypes::SetBlock;
use crate::text::{joined, str_views};
use vstd::prelude::*;

verus! {

/// Collects the terms of a set filter. Each method adds one term
/// and hands the builder on; `build` ends the chain.
#[derive(Clone, Debug)]
pub struct SetFilterBuilder {
    filter: String,
}

impl View for SetFilterBuilder {
    type V = Seq<char>;

    /// The filter expression collected so far.
    closed spec fn view(&self) -> Seq<char> {
        self.filter@
    }
}

impl SetFilterBuilder {
    fn new() -> (res: SetFilterBuilder)
        ensures
            res@ == Seq::<char>::empty(),
    {
        SetFilterBuilder { filter: String::new() }
    }

    /// The filter with the terms added so far, in the order they were added.
    /// Without any term it is empty and stands for "no filter".
    pub fn build(self) -> (res: SetFilter)
        ensures
            res@ == self@,
    {
        SetFilter(self.filter)
    }

    /// Adds the term `key=value` for a key the builder has no method for.
    pub fn custom(self, key: &str, value: &str) -> (res: SetFilterBuilder)
        ensures
            res@ == with_term(self@, key@, value@),
    {
        let mut builder = self;
        builder.add_filter(key, value);
        builder
    }

    /// Sets whose name holds `name`.
    pub fn name(self, name: &str) -> (res: SetFilterBuilder)
        ensures
            res@ == with_term(self@, "name"@, name@),
    {
        let mut builder = self;
        builder.add_filter("name", name);
        builder
    }

    /// Sets whose name holds one of `names`.
    pub fn names(self, names: &[&str]) -> (res: SetFilterBuilder)
        ensures
            res@ == with_term(self@, "name"@, joined(str_views(names@), sep_or())),
    {
        let mut builder = self;
        append_or(&mut builder.filter, "name", names);
        builder
    }

    /// Sets of the block `block`.
    pub fn block(self, block: SetBlock) -> (res: SetFilterBuilder)
        ensures
            res@ == with_term(self@, "block"@, block.shown()),
    {
        let mut builder = self;
        builder.add_filter("block", block.as_str());
        builder
    }

    /// Sets of one of `blocks`.
    pub fn blocks(self, blocks: &[SetBlock]) -> (res: SetFilterBuilder)
        ensures
            res@ == with_term(self@, "block"@, joined(shown_all(blocks@), sep_or())),
    {
        let mut builder = self;
        append_or_values(&mut builder.filter, "block", blocks);
        builder
    }

    fn add_filter(&mut self, key: &str, values: &str)
        ensures
            final(self)@ == with_term(old(self)@, key@, values@),
    {
        append_term(&mut self.filter, key, values);
    }
}

/// A finished filter expression: terms `key=value` with `&` between them.
#[derive(PartialEq, Eq, Clone, Debug)]
pub struct SetFilter(pub String);

impl View for SetFilter {
    type V = Seq<char>;

    /// The text of the expression.
    open spec fn view(&self) -> Seq<char> {
        self.0@
    }
}

impl SetFilter {
    /// A builder that holds no term yet.
    pub fn builder() -> (res: SetFilterBuilder)
        ensures
            res@ == Seq::<char>::empty(),
    {
        SetFilterBuilder::new()
    }
}

} // verus!
