use vstd::prelude::*;

verus! {

/// What a project record is, as plain sequences.
pub struct ProjectView {
    pub repo: Seq<char>,
    pub name: Seq<char>,
    pub dir: Seq<char>,
    pub links: Seq<Seq<char>>,
    pub tags: Seq<Seq<char>>,
}

/// One entry of the registry: a repository, the name it is looked up by,
/// the folder it is cloned into, its tags and its links.
#[derive(Clone, Debug, PartialEq, Eq)]
pub struct Project {
    pub repo: String,
    pub name: String,
    pub dir: String,
    pub links: Vec<String>,
    pub tags: Vec<String>,
}

impl View for Project {
    type V = ProjectView;

    open spec fn view(&self) -> ProjectView {
        ProjectView {
            repo: self.repo@,
            name: self.name@,
            dir: self.dir@,
            links: self.links.deep_view(),
            tags: self.tags.deep_view(),
        }
    }
}

/// The registry as a sequence of record views, in order.
pub open spec fn records(ps: Seq<Project>) -> Seq<ProjectView> {
    Seq::new(ps.len(), |i: int| ps[i]@)
}

/// An optional string as an optional sequence.
pub open spec fn opt_view(o: Option<String>) -> Option<Seq<char>> {
    match o {
        Some(s) => Some(s@),
        None => None,
    }
}

/// The value given, or `fallback` when none was.
pub open spec fn or_else(o: Option<Seq<char>>, fallback: Seq<char>) -> Seq<char> {
    match o {
        Some(s) => s,
        None => fallback,
    }
}

} // verus!
