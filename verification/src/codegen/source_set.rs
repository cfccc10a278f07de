use vstd::prelude::*;

verus! {

/// What a `Source` holds.
pub struct SourceView {
    pub name: Seq<char>,
    pub contents: Seq<char>,
}

/// A generated file: its name and its text.
#[derive(Debug, PartialEq, Eq)]
pub struct Source {
    name: String,
    contents: String,
}

impl View for Source {
    type V = SourceView;

    closed spec fn view(&self) -> SourceView {
        SourceView { name: self.name@, contents: self.contents@ }
    }
}

impl DeepView for Source {
    type V = SourceView;

    open spec fn deep_view(&self) -> SourceView {
        self@
    }
}

impl Clone for Source {
    fn clone(&self) -> (r: Self)
        ensures
            r@ == self@,
    {
        Source { name: self.name.clone(), contents: self.contents.clone() }
    }
}

impl Source {
    pub fn new(name: String, contents: String) -> (r: Source)
        ensures
            r@ == (SourceView { name: name@, contents: contents@ }),
    {
        Source { name, contents }
    }

    /// The name of the file.
    pub fn name(&self) -> (r: &String)
        ensures
            r@ == self@.name,
    {
        &self.name
    }

    /// The text of the file.
    pub fn contents(&self) -> (r: &String)
        ensures
            r@ == self@.contents,
    {
        &self.contents
    }
}

/// The files that one run of an emitter generates.
#[derive(Debug, PartialEq, Eq)]
pub struct SourceSet {
    sources: Vec<Source>,
}

impl View for SourceSet {
    type V = Seq<SourceView>;

    closed spec fn view(&self) -> Seq<SourceView> {
        self.sources.deep_view()
    }
}

impl Default for SourceSet {
    fn default() -> (r: Self)
        ensures
            r@ == Seq::<SourceView>::empty(),
    {
        let r = SourceSet { sources: Vec::new() };
        r
    }
}

impl SourceSet {
    /// The set without files.
    pub fn empty() -> (r: SourceSet)
        ensures
            r@ == Seq::<SourceView>::empty(),
    {
        SourceSet::default()
    }

    pub fn from_sources(sources: Vec<Source>) -> (r: SourceSet)
        ensures
            r@ == sources.deep_view(),
    {
        SourceSet { sources }
    }

    pub fn sources(&self) -> (r: &Vec<Source>)
        ensures
            r.deep_view() == self@,
    {
        &self.sources
    }
}

} // verus!
