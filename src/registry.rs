use vstd::prelude::*;
use vstd::string::*;
use vstd::utf8::{decode_utf8, encode_utf8, encode_utf8_decode_utf8, encode_utf8_valid_utf8, valid_utf8};

use crate::project::{opt_view, or_else, records, Project, ProjectView};
use crate::tags::{apply_tag_delta, tag_delta};
use crate::text::{last_segment, last_segment_of};

verus! {

/// The ways a registry operation or an activation can fail.
#[derive(Debug, PartialEq, Eq)]
pub enum RegistryError {
    /// No record carries the name.
    NotFound(String),
    /// The persisted registry exists but cannot be read as one.
    DataCorrupt,
    /// A filesystem operation failed; the text says which.
    IoError(String),
    /// Cloning the repository failed; the text is the clone's error output.
    CloneFailed(String),
    /// Another external process failed.
    SubprocessError(String),
}

/// Some record of `rs` is named `name`.
pub open spec fn has_name(rs: Seq<ProjectView>, name: Seq<char>) -> bool {
    exists|i: int| 0 <= i < rs.len() && #[trigger] rs[i].name == name
}

/// `i` is the position of the first record of `rs` named `name`.
pub open spec fn is_first_match(rs: Seq<ProjectView>, name: Seq<char>, i: int) -> bool {
    &&& 0 <= i < rs.len()
    &&& rs[i].name == name
    &&& forall|j: int| 0 <= j < i ==> #[trigger] rs[j].name != name
}

/// `e` is the lookup failure for `name`.
pub open spec fn is_not_found(e: RegistryError, name: Seq<char>) -> bool {
    match e {
        RegistryError::NotFound(n) => n@ == name,
        _ => false,
    }
}

/// Finds the position of the first project named `name`.
pub fn get_project_position(projects: &Vec<Project>, name: String) -> (r: Result<usize, RegistryError>)
    ensures
        match r {
            Ok(i) => is_first_match(records(projects@), name@, i as int),
            Err(e) => is_not_found(e, name@) && !has_name(records(projects@), name@),
        },
        projects@.len() == 0 ==> r is Err && is_not_found(r->Err_0, name@),
{
    let mut i: usize = 0;
    while i < projects.len()
        invariant
            i <= projects@.len(),
            forall|j: int| 0 <= j < i ==> #[trigger] records(projects@)[j].name != name@,
        decreases projects@.len() - i,
    {
        if projects[i].name == name {
            return Ok(i);
        }
        i = i + 1;
    }
    proof {
        assert forall|j: int| 0 <= j < records(projects@).len() implies #[trigger] records(projects@)[j].name != name@ by {
        }
    }
    Err(RegistryError::NotFound(name))
}

/// Relies on std::str::from_utf8: it accepts exactly the well-formed UTF-8
/// byte strings, and the text it gives is the characters they encode.
#[verifier::external_body]
fn utf8_text(bytes: &[u8]) -> (r: Option<String>)
    ensures
        r is Some <==> valid_utf8(bytes@),
        r is Some ==> r->Some_0@ == decode_utf8(bytes@),
{
    match std::str::from_utf8(bytes) {
        Ok(s) => Some(s.to_string()),
        Err(_) => None,
    }
}

/// The text of a persisted registry: its bytes must be well-formed UTF-8,
/// else the document is corrupt.
pub fn registry_text(bytes: &Vec<u8>) -> (r: Result<String, RegistryError>)
    ensures
        r is Ok <==> valid_utf8(bytes@),
        match r {
            Ok(s) => s@ == decode_utf8(bytes@),
            Err(e) => e == RegistryError::DataCorrupt,
        },
{
    match utf8_text(bytes.as_slice()) {
        Some(s) => Ok(s),
        None => Err(RegistryError::DataCorrupt),
    }
}

/// The bytes a registry text is stored as: its UTF-8 encoding.
pub fn registry_bytes(text: &str) -> (r: Vec<u8>)
    ensures
        r@ == encode_utf8(text@),
{
    text.as_bytes_vec()
}

/// The bytes that a registry text is stored as read back as that same
/// text: the byte layer of storing a registry loses nothing.
pub proof fn lemma_registry_bytes_round_trip(text: Seq<char>)
    ensures
        valid_utf8(encode_utf8(text)),
        decode_utf8(encode_utf8(text)) == text,
{
    encode_utf8_valid_utf8(text);
    encode_utf8_decode_utf8(text);
}

/// The record that adding `repo` makes: name and folder default to the
/// last segment of the repository string; it starts with no links.
pub open spec fn new_record(
    repo: Seq<char>,
    name: Option<Seq<char>>,
    folder: Option<Seq<char>>,
    tags: Seq<Seq<char>>,
) -> ProjectView {
    ProjectView {
        repo,
        name: or_else(name, last_segment(repo)),
        dir: or_else(folder, last_segment(repo)),
        links: Seq::empty(),
        tags,
    }
}

/// Makes the record for a repository, with the defaults of `new_record`.
pub fn new_project(repo: String, name: Option<String>, folder: Option<String>, tags: Vec<String>) -> (r: Project)
    ensures
        r@ == new_record(repo@, opt_view(name), opt_view(folder), tags.deep_view()),
{
    let name = match name {
        Some(n) => n,
        None => last_segment_of(repo.as_str()),
    };
    let dir = match folder {
        Some(f) => f,
        None => last_segment_of(repo.as_str()),
    };
    let links: Vec<String> = Vec::new();
    let r = Project { repo, name, dir, links, tags };
    assert(r@.links =~= Seq::<Seq<char>>::empty());
    r
}

/// Appends the record for a repository to the registry.
pub fn add_project(
    projects: &mut Vec<Project>,
    repo: String,
    name: Option<String>,
    folder: Option<String>,
    tags: Vec<String>,
)
    ensures
        records(final(projects)@) == records(old(projects)@).push(
            new_record(repo@, opt_view(name), opt_view(folder), tags.deep_view()),
        ),
{
    let p = new_project(repo, name, folder, tags);
    projects.push(p);
    assert(records(projects@) =~= records(old(projects)@).push(p@));
}

/// Removes the first record named `name` and returns where it stood.
pub fn remove_project(projects: &mut Vec<Project>, name: String) -> (r: Result<usize, RegistryError>)
    ensures
        match r {
            Ok(i) => is_first_match(records(old(projects)@), name@, i as int)
                && records(final(projects)@) == records(old(projects)@).remove(i as int),
            Err(e) => is_not_found(e, name@) && !has_name(records(old(projects)@), name@)
                && final(projects)@ == old(projects)@,
        },
{
    let i = get_project_position(projects, name)?;
    projects.remove(i);
    assert(records(projects@) =~= records(old(projects)@).remove(i as int));
    Ok(i)
}

/// The record after an edit: each given field replaces the old one, and
/// the tags become `tag_delta` of the old tags.
pub open spec fn edited_record(
    p: ProjectView,
    name: Option<Seq<char>>,
    folder: Option<Seq<char>>,
    repo: Option<Seq<char>>,
    tags: Seq<Seq<char>>,
    untags: Seq<Seq<char>>,
) -> ProjectView {
    ProjectView {
        repo: or_else(repo, p.repo),
        name: or_else(name, p.name),
        dir: or_else(folder, p.dir),
        links: p.links,
        tags: tag_delta(p.tags, tags, untags),
    }
}

/// Edits the first record named `old_name` in place and returns where it
/// stands.
pub fn edit_project(
    projects: &mut Vec<Project>,
    old_name: String,
    name: Option<String>,
    folder: Option<String>,
    repo: Option<String>,
    tags: Vec<String>,
    untags: Vec<String>,
) -> (r: Result<usize, RegistryError>)
    ensures
        match r {
            Ok(i) => is_first_match(records(old(projects)@), old_name@, i as int)
                && records(final(projects)@) == records(old(projects)@).update(
                    i as int,
                    edited_record(
                        records(old(projects)@)[i as int],
                        opt_view(name),
                        opt_view(folder),
                        opt_view(repo),
                        tags.deep_view(),
                        untags.deep_view(),
                    ),
                ),
            Err(e) => is_not_found(e, old_name@) && !has_name(records(old(projects)@), old_name@)
                && final(projects)@ == old(projects)@,
        },
{
    let i = get_project_position(projects, old_name)?;
    let mut current = Project {
        repo: String::new(),
        name: String::new(),
        dir: String::new(),
        links: Vec::new(),
        tags: Vec::new(),
    };
    projects.set_and_swap(i, &mut current);
    let new_tags = apply_tag_delta(&current.tags, &tags, &untags);
    let updated = Project {
        repo: match repo {
            Some(r) => r,
            None => current.repo,
        },
        name: match name {
            Some(n) => n,
            None => current.name,
        },
        dir: match folder {
            Some(f) => f,
            None => current.dir,
        },
        links: current.links,
        tags: new_tags,
    };
    projects.set(i, updated);
    assert(records(projects@) =~= records(old(projects)@).update(
        i as int,
        edited_record(
            records(old(projects)@)[i as int],
            opt_view(name),
            opt_view(folder),
            opt_view(repo),
            tags.deep_view(),
            untags.deep_view(),
        ),
    ));
    Ok(i)
}

} // verus!
