use vstd::prelude::*;
use vstd::string::*;

use crate::project::Project;

verus! {

/// `p` occurs in `s` starting at position `i`.
pub open spec fn occurs_at(s: Seq<char>, p: Seq<char>, i: int) -> bool {
    0 <= i && i + p.len() <= s.len() && s.subrange(i, i + p.len()) == p
}

/// `p` occurs somewhere in `s`.
pub open spec fn has_infix(s: Seq<char>, p: Seq<char>) -> bool {
    exists|i: int| occurs_at(s, p, i)
}

/// `i` is the first position at which `p` occurs in `s`.
pub open spec fn is_first_occurrence(s: Seq<char>, p: Seq<char>, i: int) -> bool {
    occurs_at(s, p, i) && forall|j: int| 0 <= j < i ==> !occurs_at(s, p, j)
}

/// Finds the first position at which `p` occurs in `s`.
pub fn find_infix(s: &str, p: &str) -> (r: Option<usize>)
    ensures
        match r {
            Some(i) => is_first_occurrence(s@, p@, i as int),
            None => !has_infix(s@, p@),
        },
{
    let n = s.unicode_len();
    let m = p.unicode_len();
    if m > n {
        return None;
    }
    let mut i: usize = 0;
    while i <= n - m
        invariant
            n == s@.len(),
            m == p@.len(),
            m <= n,
            forall|j: int| 0 <= j < i ==> !occurs_at(s@, p@, j),
        decreases n - m + 1 - i,
    {
        let mut k: usize = 0;
        while k < m && s.get_char(i + k) == p.get_char(k)
            invariant
                n == s@.len(),
                m == p@.len(),
                i + m <= n,
                k <= m,
                forall|t: int| 0 <= t < k ==> s@[i + t] == p@[t],
            decreases m - k,
        {
            k = k + 1;
        }
        if k == m {
            assert(s@.subrange(i as int, i + m) =~= p@);
            return Some(i);
        }
        assert(s@.subrange(i as int, i + m)[k as int] != p@[k as int]);
        i = i + 1;
    }
    assert forall|j: int| !occurs_at(s@, p@, j) by {
        if 0 <= j < i {
        }
    }
    None
}

/// The remote that a repository string names: used as it stands when it
/// carries a scheme, else read as `owner/name` on the fixed SSH host.
pub open spec fn repo_url(repo: Seq<char>) -> Seq<char> {
    if has_infix(repo, "://"@) {
        repo
    } else {
        "git@github.com:"@ + repo
    }
}

/// The remote to clone a repository string from.
pub fn repo_to_url(repo: &str) -> (r: String)
    ensures
        r@ == repo_url(repo@),
{
    match find_infix(repo, "://") {
        Some(_) => String::from_str(repo),
        None => String::from_str("git@github.com:").concat(repo),
    }
}

/// What follows the last `/` of `s`; all of `s` when it holds none.
pub open spec fn last_segment(s: Seq<char>) -> Seq<char>
    decreases s.len(),
{
    if s.len() == 0 {
        s
    } else if s.last() == '/' {
        Seq::empty()
    } else {
        last_segment(s.drop_last()).push(s.last())
    }
}

/// The last `/`-separated segment of `s`.
pub fn last_segment_of(s: &str) -> (r: String)
    ensures
        r@ == last_segment(s@),
{
    let n = s.unicode_len();
    let mut start: usize = 0;
    let mut i: usize = 0;
    while i < n
        invariant
            n == s@.len(),
            start <= i <= n,
            last_segment(s@.subrange(0, i as int)) == s@.subrange(start as int, i as int),
        decreases n - i,
    {
        assert(s@.subrange(0, i + 1).drop_last() =~= s@.subrange(0, i as int));
        if s.get_char(i) == '/' {
            start = i + 1;
            assert(s@.subrange(start as int, i + 1) =~= Seq::<char>::empty());
        } else {
            assert(s@.subrange(start as int, i + 1) =~= s@.subrange(start as int, i as int).push(s@[i as int]));
        }
        i = i + 1;
    }
    assert(s@.subrange(0, n as int) =~= s@);
    String::from_str(s.substring_char(start, n))
}

/// What a picker line names: the text before the first `" - "`, or all of it.
pub open spec fn picked_name(s: Seq<char>) -> Seq<char> {
    if has_infix(s, " - "@) {
        let i = choose|i: int| is_first_occurrence(s, " - "@, i);
        s.subrange(0, i)
    } else {
        s
    }
}

/// The project name in a line chosen from the picker listing.
pub fn picker_name(line: &str) -> (r: String)
    ensures
        r@ == picked_name(line@),
{
    match find_infix(line, " - ") {
        Some(i) => {
            proof {
                let j = choose|j: int| is_first_occurrence(line@, " - "@, j);
                if j < i {
                } else if i < j {
                }
                assert(j == i);
            }
            String::from_str(line.substring_char(0, i))
        },
        None => String::from_str(line),
    }
}

/// Each item with `prefix` put before it.
pub open spec fn prefixed(items: Seq<Seq<char>>, prefix: Seq<char>) -> Seq<Seq<char>> {
    Seq::new(items.len(), |i: int| prefix + items[i])
}

/// The items one after the other, with `sep` between two neighbours.
pub open spec fn joined(items: Seq<Seq<char>>, sep: Seq<char>) -> Seq<char>
    decreases items.len(),
{
    if items.len() == 0 {
        Seq::empty()
    } else if items.len() == 1 {
        items[0]
    } else {
        joined(items.drop_last(), sep) + sep + items.last()
    }
}

/// Joins the strings of `items`, each after `prefix`, with `sep` between them.
pub fn join_prefixed(items: &Vec<String>, prefix: &str, sep: &str) -> (r: String)
    ensures
        r@ == joined(prefixed(items.deep_view(), prefix@), sep@),
{
    let mut r = String::new();
    let mut i: usize = 0;
    while i < items.len()
        invariant
            i <= items@.len(),
            r@ == joined(prefixed(items.deep_view().subrange(0, i as int), prefix@), sep@),
        decreases items@.len() - i,
    {
        let ghost before = prefixed(items.deep_view().subrange(0, i as int), prefix@);
        let ghost after = prefixed(items.deep_view().subrange(0, i + 1), prefix@);
        assert(after.drop_last() =~= before);
        assert(after.last() == prefix@ + items[i as int]@);
        if i > 0 {
            r.append(sep);
        }
        r.append(prefix);
        r.append(items[i].as_str());
        proof {
            if i == 0 {
                assert(r@ =~= after[0]);
            } else {
                assert(r@ =~= joined(before, sep@) + sep@ + after.last());
            }
        }
        i = i + 1;
    }
    assert(items.deep_view().subrange(0, i as int) =~= items.deep_view());
    r
}

/// The compact line that lists a project for the picker: its name, then
/// each tag after a `#`.
pub open spec fn picker_line_of(name: Seq<char>, tags: Seq<Seq<char>>) -> Seq<char> {
    name + " - "@ + joined(prefixed(tags, "#"@), ", "@)
}

/// The picker line of a project.
pub fn picker_line(project: &Project) -> (r: String)
    ensures
        r@ == picker_line_of(project@.name, project@.tags),
{
    let tags = join_prefixed(&project.tags, "#", ", ");
    let mut r = project.name.clone();
    r.append(" - ");
    r.append(tags.as_str());
    r
}

/// The full description of a project: its name, folder, repository and tags.
pub open spec fn description_of(name: Seq<char>, dir: Seq<char>, repo: Seq<char>, tags: Seq<Seq<char>>) -> Seq<char> {
    name + "\nFolder: "@ + dir + "\nRepository: "@ + repo + "\nTags: "@ + joined(tags, ", "@) + "\n"@
}

/// The full description of a project.
pub fn description(project: &Project) -> (r: String)
    ensures
        r@ == description_of(project@.name, project@.dir, project@.repo, project@.tags),
{
    let tags = join_prefixed(&project.tags, "", ", ");
    proof {
        reveal_strlit("");
        assert(prefixed(project@.tags, ""@) =~= project@.tags);
    }
    let mut r = project.name.clone();
    r.append("\nFolder: ");
    r.append(project.dir.as_str());
    r.append("\nRepository: ");
    r.append(project.repo.as_str());
    r.append("\nTags: ");
    r.append(tags.as_str());
    r.append("\n");
    r
}

/// The line shown when the registry holds no project.
pub open spec fn empty_listing() -> Seq<char> {
    "You don't have any projects. Learn how with:\n$ taita help add"@
}

/// The lines that list the registry: one per project, compact for the
/// picker or full otherwise; a hint when the registry is empty.
pub fn listing(projects: &Vec<Project>, picker: bool) -> (r: Vec<String>)
    ensures
        projects@.len() == 0 ==> r@.len() == 1 && r@[0]@ == empty_listing(),
        projects@.len() > 0 ==> r@.len() == projects@.len() && forall|i: int|
            0 <= i < r@.len() ==> #[trigger] r@[i]@ == if picker {
                picker_line_of(projects@[i]@.name, projects@[i]@.tags)
            } else {
                description_of(
                    projects@[i]@.name,
                    projects@[i]@.dir,
                    projects@[i]@.repo,
                    projects@[i]@.tags,
                )
            },
{
    let mut r: Vec<String> = Vec::new();
    if projects.len() == 0 {
        r.push(String::from_str("You don't have any projects. Learn how with:\n$ taita help add"));
        return r;
    }
    let mut i: usize = 0;
    while i < projects.len()
        invariant
            i <= projects@.len(),
            r@.len() == i,
            forall|j: int|
                0 <= j < i ==> #[trigger] r@[j]@ == if picker {
                    picker_line_of(projects@[j]@.name, projects@[j]@.tags)
                } else {
                    description_of(
                        projects@[j]@.name,
                        projects@[j]@.dir,
                        projects@[j]@.repo,
                        projects@[j]@.tags,
                    )
                },
        decreases projects@.len() - i,
    {
        let line = if picker {
            picker_line(&projects[i])
        } else {
            description(&projects[i])
        };
        r.push(line);
        i = i + 1;
    }
    r
}

/// The session that belongs to a project name.
pub open spec fn session_of(name: Seq<char>) -> Seq<char> {
    "taita-"@ + name
}

/// The name of the session of the project named `name`.
pub fn session_name(name: &str) -> (r: String)
    ensures
        r@ == session_of(name@),
{
    String::from_str("taita-").concat(name)
}

/// What a new notes file starts with: a title made of the project's name
/// and one open task.
pub open spec fn notes_header_of(name: Seq<char>) -> Seq<char> {
    "# `"@ + name + "` - Notes\n\n## TODO:\n- [ ] A task"@
}

/// The text a new notes file is seeded with.
pub fn notes_header(name: &str) -> (r: String)
    ensures
        r@ == notes_header_of(name@),
{
    let mut r = String::from_str("# `");
    r.append(name);
    r.append("` - Notes\n\n## TODO:\n- [ ] A task");
    r
}

} // verus!
