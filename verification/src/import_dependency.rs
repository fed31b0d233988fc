use vstd::prelude::*;

use crate::resolve::ErrorSpan;
use crate::resolver::{DependencyCategory, DependencyType};

verus! {

/// What a dynamic import asks of the chunk that holds its target.
#[derive(Debug)]
pub struct ChunkGroupOptions {
    pub name: Option<String>,
}

/// A replacement of a piece of a source text.
#[derive(Debug)]
pub struct Replacement {
    pub start: u32,
    pub end: u32,
    pub content: String,
}

/// A dynamic import of a module.
#[derive(Debug)]
pub struct ImportDependency {
    start: u32,
    end: u32,
    id: u32,
    request: String,
    span: Option<ErrorSpan>,
    /// The options that comments of the import set for its chunk.
    pub group_options: ChunkGroupOptions,
}

impl ImportDependency {
    pub closed spec fn spec_request(&self) -> Seq<char> {
        self.request@
    }

    pub closed spec fn spec_id(&self) -> u32 {
        self.id
    }

    pub closed spec fn spec_span(&self) -> Option<ErrorSpan> {
        self.span
    }

    pub closed spec fn spec_group_options(&self) -> ChunkGroupOptions {
        self.group_options
    }

    /// The piece of the source text that the import takes up.
    pub closed spec fn range(&self) -> (u32, u32) {
        (self.start, self.end)
    }

    /// A dynamic import at the given place, with the identity that the
    /// owner of the dependencies hands out.
    pub fn new(
        start: u32,
        end: u32,
        request: String,
        span: Option<ErrorSpan>,
        group_options: ChunkGroupOptions,
        id: u32,
    ) -> (d: Self)
        ensures
            d.range() == (start, end),
            d.spec_request() == request@,
            d.spec_span() == span,
            d.spec_id() == id,
            d.spec_group_options() == group_options,
    {
        ImportDependency { start, end, request, span, id, group_options }
    }

    pub fn id(&self) -> (r: u32)
        ensures
            r == self.spec_id(),
    {
        self.id
    }

    pub fn category(&self) -> (r: DependencyCategory)
        ensures
            r == DependencyCategory::Esm,
    {
        DependencyCategory::Esm
    }

    pub fn dependency_type(&self) -> (r: DependencyType)
        ensures
            r == DependencyType::DynamicImport,
    {
        DependencyType::DynamicImport
    }

    pub fn request(&self) -> (r: &str)
        ensures
            r@ == self.spec_request(),
    {
        self.request.as_str()
    }

    pub fn user_request(&self) -> (r: &str)
        ensures
            r@ == self.spec_request(),
    {
        self.request.as_str()
    }

    pub fn span(&self) -> (r: Option<ErrorSpan>)
        ensures
            r == self.spec_span(),
    {
        self.span
    }

    pub fn group_options(&self) -> (r: Option<&ChunkGroupOptions>)
        ensures
            r == Some(&self.spec_group_options()),
    {
        Some(&self.group_options)
    }

    pub fn set_request(&mut self, request: String)
        ensures
            final(self).spec_request() == request@,
            final(self).range() == old(self).range(),
            final(self).spec_id() == old(self).spec_id(),
            final(self).spec_span() == old(self).spec_span(),
            final(self).spec_group_options() == old(self).spec_group_options(),
    {
        self.request = request;
    }

    /// The replacement that puts the code which loads the module in the
    /// place of the import.
    pub fn apply(&self, namespace_promise: String) -> (r: Replacement)
        ensures
            (r.start, r.end) == self.range(),
            r.content == namespace_promise,
    {
        Replacement { start: self.start, end: self.end, content: namespace_promise }
    }
}

} // verus!
