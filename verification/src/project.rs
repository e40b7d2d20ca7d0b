//! A project record and the errors of the store that holds such records.

use crate::search::{contains, is_substring};
use crate::text::{
    blank, is_blank, lemma_not_blank, lemma_trimmed_empty_iff_blank, lemma_trimmed_shape, trim,
    trimmed,
};
use crate::words::{split_whitespace, texts, words};
use vstd::prelude::*;

verus! {

/// Why the store turned a request down.
#[derive(Clone, Copy, Debug, PartialEq, Eq, Structural)]
pub enum StoreError {
    /// The title of a new project was blank.
    EmptyTitle,
    /// No project matches the filter, so there is none to pick.
    NothingToPick,
}

/// What a project is: its title and its tags, in order.
pub struct ProjectView {
    pub title: Seq<char>,
    pub tags: Seq<Seq<char>>,
}

/// A titled record with tags. Its title is never blank.
#[derive(Debug, PartialEq, Eq)]
pub struct Project {
    title: String,
    tags: Vec<String>,
}

impl View for Project {
    type V = ProjectView;

    closed spec fn view(&self) -> ProjectView {
        ProjectView { title: self.title@, tags: texts(self.tags@) }
    }
}

impl Clone for Project {
    fn clone(&self) -> (r: Self)
        ensures
            r@ == self@,
    {
        proof {
            use_type_invariant(self);
        }
        let n = self.tags.len();
        let mut tags: Vec<String> = Vec::new();
        let mut k: usize = 0;
        while k < n
            invariant
                k <= n,
                n == self.tags@.len(),
                tags@ == self.tags@.take(k as int),
            decreases n - k,
        {
            tags.push(self.tags[k].clone());
            k += 1;
        }
        assert(tags@ =~= self.tags@);
        Project { title: self.title.clone(), tags }
    }
}

/// `query` is part of the title or of at least one tag.
pub open spec fn project_matches(p: ProjectView, query: Seq<char>) -> bool {
    is_substring(query, p.title) || exists|k: int|
        0 <= k < p.tags.len() && is_substring(query, #[trigger] p.tags[k])
}

impl Project {
    #[verifier::type_invariant]
    spec fn titled(self) -> bool {
        !is_blank(self.title@)
    }

    /// Makes a project of what a user typed: the title trimmed, the tags the
    /// words of `raw_tags`. A blank title is turned down.
    pub fn new(title: &str, raw_tags: &str) -> (r: Result<Project, StoreError>)
        ensures
            match r {
                Ok(p) => !is_blank(title@) && p@ == (ProjectView {
                    title: trimmed(title@),
                    tags: words(raw_tags@),
                }),
                Err(e) => e == StoreError::EmptyTitle && is_blank(title@),
            },
    {
        let kept = trim(title);
        proof {
            lemma_trimmed_empty_iff_blank(title@);
        }
        if kept.is_empty() {
            return Err(StoreError::EmptyTitle);
        }
        let tags = split_whitespace(raw_tags);
        proof {
            let (from, to) = lemma_trimmed_shape(title@);
            assert(kept@[0] == title@[from]);
            lemma_not_blank(kept@, 0);
        }
        Ok(Project { title: kept.to_owned(), tags })
    }

    /// Makes a project of a title and tags that are kept as they are. A blank
    /// title is turned down.
    pub fn from_parts(title: String, tags: Vec<String>) -> (r: Result<Project, StoreError>)
        ensures
            match r {
                Ok(p) => !is_blank(title@) && p@ == (ProjectView {
                    title: title@,
                    tags: texts(tags@),
                }),
                Err(e) => e == StoreError::EmptyTitle && is_blank(title@),
            },
    {
        if blank(title.as_str()) {
            return Err(StoreError::EmptyTitle);
        }
        Ok(Project { title, tags })
    }

    /// The title, which is never blank.
    pub fn title(&self) -> (t: &str)
        ensures
            t@ == self@.title,
            !is_blank(t@),
    {
        proof {
            use_type_invariant(self);
        }
        self.title.as_str()
    }

    /// Tells whether the title is exactly `title`.
    pub fn has_title(&self, title: &String) -> (b: bool)
        ensures
            b == (self@.title == title@),
    {
        self.title == *title
    }

    /// The tags, in order.
    pub fn tags(&self) -> (t: &Vec<String>)
        ensures
            texts(t@) == self@.tags,
    {
        &self.tags
    }

    /// Tells whether `query` is part of the title or of a tag.
    pub fn matches(&self, query: &str) -> (b: bool)
        ensures
            b == project_matches(self@, query@),
    {
        if contains(self.title.as_str(), query) {
            return true;
        }
        let n = self.tags.len();
        let mut k: usize = 0;
        while k < n
            invariant
                k <= n,
                n == self.tags@.len(),
                !is_substring(query@, self@.title),
                forall|j: int| 0 <= j < k ==> !is_substring(query@, #[trigger] self@.tags[j]),
            decreases n - k,
        {
            if contains(self.tags[k].as_str(), query) {
                assert(is_substring(query@, self@.tags[k as int]));
                return true;
            }
            k += 1;
        }
        false
    }
}

} // verus!
