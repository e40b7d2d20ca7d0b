//! A list of sample projects to try the interface on.

use crate::project::{Project, ProjectView};
use crate::decimal::{decimal, decimal_string};
use crate::text::{is_whitespace, lemma_not_blank};
use vstd::prelude::*;

verus! {

/// How many sample projects there are.
pub const SAMPLES: usize = 99;

/// The sample project with the number `i`.
pub open spec fn sample(i: nat) -> ProjectView {
    ProjectView {
        title: "a kinda long project title example "@ + decimal(i),
        tags: seq!["an tag"@, "an other tag"@],
    }
}

/// The sample projects and a filter.
pub struct Erabu {
    pub projects: Vec<Project>,
    pub filter: String,
}

/// The sample project with the number `i`.
fn sample_project(i: usize) -> (p: Project)
    ensures
        p@ == sample(i as nat),
{
    let title = "a kinda long project title example ".to_owned().concat(
        decimal_string(i).as_str(),
    );
    let mut tags: Vec<String> = Vec::new();
    tags.push("an tag".to_owned());
    tags.push("an other tag".to_owned());
    proof {
        reveal_strlit("a kinda long project title example ");
        assert(title@[0] == 'a');
        assert(!is_whitespace('a'));
        lemma_not_blank(title@, 0);
    }
    let made = Project::from_parts(title, tags);
    let p = made.unwrap();
    assert(p@.tags =~= sample(i as nat).tags);
    p
}

impl Erabu {
    /// The sample projects, numbered from 0, with an empty filter.
    pub fn new() -> (e: Erabu)
        ensures
            e.projects@.len() == SAMPLES,
            forall|i: int| 0 <= i < SAMPLES ==> (#[trigger] e.projects@[i])@ == sample(i as nat),
            e.filter@.len() == 0,
    {
        let mut projects: Vec<Project> = Vec::new();
        let mut i: usize = 0;
        while i < SAMPLES
            invariant
                i <= SAMPLES,
                projects@.len() == i,
                forall|k: int| 0 <= k < i ==> (#[trigger] projects@[k])@ == sample(k as nat),
            decreases SAMPLES - i,
        {
            projects.push(sample_project(i));
            i += 1;
        }
        Erabu { projects, filter: String::new() }
    }
}

} // verus!
