//! The project store: an ordered list of projects that is filtered by a query,
//! grows at its end, and loses projects by title.

use crate::project::{project_matches, Project, ProjectView, StoreError};
use crate::text::{is_blank, trimmed};
use crate::words::words;
use vstd::prelude::*;

verus! {

/// The test that keeps the projects which `query` matches.
pub open spec fn matching(query: Seq<char>) -> spec_fn(Project) -> bool {
    |p: Project| project_matches(p@, query)
}

/// The projects of `store` that `query` matches, in the order of `store`.
pub open spec fn filtered(store: Seq<Project>, query: Seq<char>) -> Seq<Project> {
    store.filter(matching(query))
}

/// The test that keeps the projects whose title is not `title`.
pub open spec fn not_titled(title: Seq<char>) -> spec_fn(Project) -> bool {
    |p: Project| p@.title != title
}

/// The projects of `store` whose title is not `title`, in the order of `store`.
pub open spec fn without_title(store: Seq<Project>, title: Seq<char>) -> Seq<Project> {
    store.filter(not_titled(title))
}

/// The projects that a sequence of references points to.
pub open spec fn borrowed(refs: Seq<&Project>) -> Seq<Project> {
    refs.map_values(|p: &Project| *p)
}

/// `after` is `before` with one project more at its end, made of `title`
/// trimmed and of the words of `raw_tags`.
pub open spec fn appended(
    before: Seq<Project>,
    after: Seq<Project>,
    title: Seq<char>,
    raw_tags: Seq<char>,
) -> bool {
    &&& after.len() == before.len() + 1
    &&& after.drop_last() == before
    &&& after.last()@ == (ProjectView { title: trimmed(title), tags: words(raw_tags) })
}

/// The projects that `filter` matches, in the order of the store.
pub fn filter_projects<'a>(filter: &'a str, projects: &'a [Project]) -> (found: Vec<&'a Project>)
    ensures
        borrowed(found@) == filtered(projects@, filter@),
{
    let n = projects.len();
    let mut found: Vec<&'a Project> = Vec::new();
    let mut i: usize = 0;
    proof {
        reveal(Seq::filter);
        assert(projects@.take(0) =~= Seq::<Project>::empty());
        assert(borrowed(found@) =~= filtered(projects@.take(0), filter@));
    }
    while i < n
        invariant
            i <= n,
            n == projects@.len(),
            borrowed(found@) == filtered(projects@.take(i as int), filter@),
        decreases n - i,
    {
        let project = &projects[i];
        let keep = project.matches(filter);
        proof {
            let seen = projects@.take(i as int);
            assert(projects@.take(i + 1) =~= seen.push(*project));
            seen.lemma_filter_push(*project, matching(filter@));
            if keep {
                assert(borrowed(found@.push(project)) =~= borrowed(found@).push(*project));
            }
        }
        if keep {
            found.push(project);
        }
        i += 1;
    }
    proof {
        assert(projects@.take(n as int) =~= projects@);
    }
    found
}

/// Adds a project at the end of the store and gives a copy of it: its title
/// is `title` trimmed, its tags are the words of `raw_tags`. A blank title is
/// turned down, and the store is then left as it was.
pub fn add_project(projects: &mut Vec<Project>, title: &str, raw_tags: &str) -> (r: Result<
    Project,
    StoreError,
>)
    ensures
        match r {
            Ok(p) => !is_blank(title@) && appended(
                old(projects)@,
                final(projects)@,
                title@,
                raw_tags@,
            ) && p@ == final(projects)@.last()@,
            Err(e) => e == StoreError::EmptyTitle && is_blank(title@) && final(projects)@ == old(
                projects,
            )@,
        },
{
    match Project::new(title, raw_tags) {
        Ok(project) => {
            let copy = project.clone();
            projects.push(project);
            proof {
                assert(projects@.drop_last() =~= old(projects)@);
            }
            Ok(copy)
        },
        Err(e) => Err(e),
    }
}

/// Removes every project whose title is exactly `title`; the others stay, in
/// their order.
pub fn delete_project(projects: &mut Vec<Project>, title: &str)
    ensures
        final(projects)@ == without_title(old(projects)@, title@),
{
    let mut before: Vec<Project> = Vec::new();
    std::mem::swap(projects, &mut before);
    proof {
        reveal(Seq::filter);
        assert(before@.take(0) =~= Seq::<Project>::empty());
        assert(projects@ =~= without_title(before@.take(0), title@));
    }
    let ghost all = before@;
    let wanted = title.to_owned();
    for project in it: before
        invariant
            it.seq() == all,
            wanted@ == title@,
            projects@ == without_title(all.take(it.index() as int), title@),
    {
        let keep = !project.has_title(&wanted);
        proof {
            let seen = all.take(it.index() as int);
            assert(all.take(it.index() + 1) =~= seen.push(project));
            seen.lemma_filter_push(project, not_titled(title@));
        }
        if keep {
            projects.push(project);
        }
    }
    proof {
        assert(all.take(all.len() as int) =~= all);
    }
}

/// What a random number picks among the projects that `query` matches: the
/// one at `random` modulo their count, or nothing where none matches.
pub open spec fn picked(store: Seq<Project>, query: Seq<char>, random: nat) -> Result<
    Project,
    StoreError,
> {
    let found = filtered(store, query);
    if found.len() == 0 {
        Err(StoreError::NothingToPick)
    } else {
        Ok(found[random as int % found.len() as int])
    }
}

/// The project that a random number picks among those that `filter` matches:
/// the one at `random` modulo their count. With none to pick, the pick is
/// turned down.
pub fn pick_random<'a>(filter: &'a str, projects: &'a [Project], random: usize) -> (r: Result<
    &'a Project,
    StoreError,
>)
    ensures
        match r {
            Ok(p) => picked(projects@, filter@, random as nat) == Ok::<Project, StoreError>(*p),
            Err(e) => picked(projects@, filter@, random as nat) == Err::<Project, StoreError>(e),
        },
{
    let found = filter_projects(filter, projects);
    if found.len() == 0 {
        return Err(StoreError::NothingToPick);
    }
    let at = random % found.len();
    Ok(found[at])
}

} // verus!
