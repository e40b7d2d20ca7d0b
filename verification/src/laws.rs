//! What holds of the store's operations on every store and every input.

use crate::controller::{Controller, FormState};
use crate::project::{project_matches, Project, ProjectView, StoreError};
use crate::store::{appended, filtered, matching, not_titled, picked, without_title};
use crate::search::occurs_at;
use crate::sequences::{lemma_filter_keeps_all, lemma_filter_positions};
use crate::text::{is_blank, trimmed};
use crate::words::words;
use vstd::prelude::*;

verus! {

/// The empty query is part of every text, so it matches every project.
pub proof fn lemma_empty_query_matches(p: ProjectView)
    ensures
        project_matches(p, Seq::empty()),
{
    assert(p.title.subrange(0, 0) =~= Seq::<char>::empty());
    assert(occurs_at(Seq::empty(), p.title, 0));
}

/// Filtering by the empty query gives the whole store, in its order.
pub proof fn lemma_empty_query_keeps_all(store: Seq<Project>)
    ensures
        filtered(store, Seq::empty()) == store,
{
    assert forall|i: int| 0 <= i < store.len() implies matching(Seq::empty())(
        #[trigger] store[i],
    ) by {
        lemma_empty_query_matches(store[i]@);
    }
    lemma_filter_keeps_all(store, matching(Seq::empty()));
}

/// Filtering is exact: every project that it gives is a project of the store
/// that the query matches, and every project of the store that the query
/// matches is given.
pub proof fn lemma_filter_exact(store: Seq<Project>, query: Seq<char>)
    ensures
        forall|k: int|
            0 <= k < filtered(store, query).len() ==> project_matches(
                (#[trigger] filtered(store, query)[k])@,
                query,
            ) && store.contains(filtered(store, query)[k]),
        forall|i: int|
            0 <= i < store.len() && project_matches(store[i]@, query) ==> filtered(
                store,
                query,
            ).contains(#[trigger] store[i]),
{
    let found = filtered(store, query);
    let at = lemma_filter_positions(store, matching(query));
    assert forall|k: int| 0 <= k < found.len() implies project_matches(
        (#[trigger] found[k])@,
        query,
    ) && store.contains(found[k]) by {
        store.lemma_filter_pred(matching(query), k);
        assert(store[at[k]] == found[k]);
    }
    assert forall|i: int|
        0 <= i < store.len() && project_matches(store[i]@, query) implies found.contains(
        #[trigger] store[i],
    ) by {
        store.lemma_filter_contains(matching(query), i);
    }
}

/// Filtering keeps the order of the store: the projects that it gives stand
/// in the store at rising positions, which are exactly the positions of the
/// projects that the query matches. The result holds those positions.
pub proof fn lemma_filter_keeps_order(store: Seq<Project>, query: Seq<char>) -> (at: Seq<int>)
    ensures
        at.len() == filtered(store, query).len(),
        forall|k: int| 0 <= k < at.len() ==> 0 <= #[trigger] at[k] < store.len(),
        forall|k: int| 0 <= k < at.len() ==> store[#[trigger] at[k]] == filtered(store, query)[k],
        forall|j: int, k: int| 0 <= j < k < at.len() ==> at[j] < at[k],
        forall|i: int|
            0 <= i < store.len() ==> (project_matches(store[i]@, query) <==> #[trigger] at.contains(
                i,
            )),
{
    let at = lemma_filter_positions(store, matching(query));
    assert forall|i: int| 0 <= i < store.len() && #[trigger] at.contains(i) implies project_matches(
        store[i]@,
        query,
    ) by {
        let k = choose|k: int| 0 <= k < at.len() && at[k] == i;
        store.lemma_filter_pred(matching(query), k);
        assert(store[at[k]] == filtered(store, query)[k]);
    }
    at
}

/// Filtering what was filtered by the same query changes nothing.
pub proof fn lemma_filter_twice(store: Seq<Project>, query: Seq<char>)
    ensures
        filtered(filtered(store, query), query) == filtered(store, query),
{
    let found = filtered(store, query);
    assert forall|k: int| 0 <= k < found.len() implies matching(query)(#[trigger] found[k]) by {
        store.lemma_filter_pred(matching(query), k);
    }
    lemma_filter_keeps_all(found, matching(query));
}

/// After a project was added, filtering by the empty query gives the store as
/// it was, and then the new project: its title is the given one trimmed, its
/// tags are the words of the given tag text.
pub proof fn lemma_added_project_comes_last(
    before: Seq<Project>,
    after: Seq<Project>,
    title: Seq<char>,
    raw_tags: Seq<char>,
)
    requires
        appended(before, after, title, raw_tags),
    ensures
        filtered(after, Seq::empty()).drop_last() == before,
        filtered(after, Seq::empty()).last()@ == (ProjectView {
            title: trimmed(title),
            tags: words(raw_tags),
        }),
{
    lemma_empty_query_keeps_all(after);
}

/// Deleting by title removes every project with exactly that title and no
/// other: a project is left if and only if it was in the store and has
/// another title.
pub proof fn lemma_delete_exact(store: Seq<Project>, title: Seq<char>)
    ensures
        forall|p: Project| #[trigger]
            without_title(store, title).contains(p) <==> store.contains(p) && p@.title != title,
{
    let left = without_title(store, title);
    let at = lemma_filter_positions(store, not_titled(title));
    assert forall|p: Project| #[trigger] left.contains(p) implies store.contains(p) && p@.title
        != title by {
        let k = choose|k: int| 0 <= k < left.len() && left[k] == p;
        store.lemma_filter_pred(not_titled(title), k);
        assert(store[at[k]] == left[k]);
    }
    assert forall|p: Project| store.contains(p) && p@.title != title implies #[trigger]
        left.contains(p) by {
        let i = choose|i: int| 0 <= i < store.len() && store[i] == p;
        store.lemma_filter_contains(not_titled(title), i);
    }
}

/// Deleting keeps the order of the store: the projects that are left stand in
/// the store at rising positions, which are exactly the positions of the
/// projects with another title. The result holds those positions.
pub proof fn lemma_delete_keeps_order(store: Seq<Project>, title: Seq<char>) -> (at: Seq<int>)
    ensures
        at.len() == without_title(store, title).len(),
        forall|k: int| 0 <= k < at.len() ==> 0 <= #[trigger] at[k] < store.len(),
        forall|k: int|
            0 <= k < at.len() ==> store[#[trigger] at[k]] == without_title(store, title)[k],
        forall|j: int, k: int| 0 <= j < k < at.len() ==> at[j] < at[k],
        forall|i: int|
            0 <= i < store.len() ==> (store[i]@.title != title <==> #[trigger] at.contains(i)),
{
    let at = lemma_filter_positions(store, not_titled(title));
    assert forall|i: int| 0 <= i < store.len() && #[trigger] at.contains(i) implies store[i]@.title
        != title by {
        let k = choose|k: int| 0 <= k < at.len() && at[k] == i;
        store.lemma_filter_pred(not_titled(title), k);
        assert(store[at[k]] == without_title(store, title)[k]);
    }
    at
}

/// Deleting a title that no project has changes nothing.
pub proof fn lemma_delete_absent_title(store: Seq<Project>, title: Seq<char>)
    requires
        forall|i: int| 0 <= i < store.len() ==> (#[trigger] store[i])@.title != title,
    ensures
        without_title(store, title) == store,
{
    lemma_filter_keeps_all(store, not_titled(title));
}

/// After a deletion no project with the deleted title is left, so deleting
/// the same title again changes nothing.
pub proof fn lemma_delete_twice(store: Seq<Project>, title: Seq<char>)
    ensures
        without_title(without_title(store, title), title) == without_title(store, title),
{
    let left = without_title(store, title);
    assert forall|i: int| 0 <= i < left.len() implies (#[trigger] left[i])@.title != title by {
        store.lemma_filter_pred(not_titled(title), i);
    }
    lemma_delete_absent_title(left, title);
}

/// A pick never reaches past the projects that the query matches: what is
/// picked is a project of the store that the query matches, whatever the
/// random number, and the pick is turned down exactly when the query matches
/// no project of the store.
pub proof fn lemma_pick_is_a_match(store: Seq<Project>, query: Seq<char>, random: nat)
    ensures
        match picked(store, query, random) {
            Ok(p) => store.contains(p) && project_matches(p@, query),
            Err(e) => e == StoreError::NothingToPick && forall|i: int|
                0 <= i < store.len() ==> !project_matches((#[trigger] store[i])@, query),
        },
        picked(store, query, random) is Err <==> filtered(store, query).len() == 0,
{
    let found = filtered(store, query);
    lemma_filter_exact(store, query);
    if found.len() > 0 {
        let at = random as int % found.len() as int;
        assert(project_matches(found[at]@, query) && store.contains(found[at]));
    } else {
        assert forall|i: int| 0 <= i < store.len() implies !project_matches(
            (#[trigger] store[i])@,
            query,
        ) by {
            if project_matches(store[i]@, query) {
                assert(found.contains(store[i]));
            }
        }
    }
}

/// The form moves from idle over composing and committed back to idle, and
/// an update takes these steps of it whatever the store holds:
/// a closed form stays closed; an open form whose draft is not confirmed
/// stays open, with its draft, and the store stays as it is; a confirmed
/// draft with a title is added and the form closes; a confirmed draft with a
/// blank title is turned down, the store stays as it is, and the form goes
/// back to where it was before the confirmation.
pub proof fn lemma_form_steps(
    now: Controller,
    next: Controller,
    before: Seq<Project>,
    after: Seq<Project>,
)
    requires
        now.form_step(&next, before, after),
    ensures
        next.form() != FormState::Committed,
        now.form() == FormState::Idle ==> next.form() == FormState::Idle && after == before,
        now.form() == FormState::Composing ==> next.form() == FormState::Composing && after
            == before && next.project_template.title == now.project_template.title
            && next.project_template.tags == now.project_template.tags,
        now.form() == FormState::Committed && now.commits() ==> next.form() == FormState::Idle
            && appended(
            before,
            after,
            now.project_template.title@,
            now.project_template.tags@,
        ),
        now.form() == FormState::Committed && !now.commits() ==> after == before && next.form()
            == if now.adding_project {
            FormState::Composing
        } else {
            FormState::Idle
        },
{
}

/// A closed form holds no draft: whatever was typed and then confirmed or
/// abandoned is gone when the form opens again.
pub proof fn lemma_closed_form_is_clear(
    now: Controller,
    next: Controller,
    before: Seq<Project>,
    after: Seq<Project>,
)
    requires
        now.form_step(&next, before, after),
        next.form() == FormState::Idle,
    ensures
        next.project_template.is_clear(),
        next.title_field_needs_focus,
{
}

/// A blank title never reaches the store: an update with such a draft leaves
/// the store as the pending deletion left it.
pub proof fn lemma_blank_title_is_turned_down(
    now: Controller,
    next: Controller,
    before: Seq<Project>,
    after: Seq<Project>,
)
    requires
        now.form_step(&next, before, after),
        is_blank(now.project_template.title@),
    ensures
        after == before,
{
}

} // verus!
