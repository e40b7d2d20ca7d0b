//! The controller: what the user has asked for and the store has not yet
//! been given. It holds the filter, the draft of a new project with the state
//! of its form, a pending deletion, and the random number of an open pick.

use crate::project::{Project, StoreError};
use crate::store::{add_project, appended, delete_project, pick_random, picked, without_title};
use crate::text::is_blank;
use vstd::prelude::*;

verus! {

/// The draft of a new project, as typed into the form.
pub struct ProjectTemplate {
    pub title: String,
    /// The tags in one line, separated by whitespace.
    pub tags: String,
    /// Set when the user has confirmed the draft.
    pub completed: bool,
}

impl ProjectTemplate {
    /// The draft holds nothing and is not confirmed.
    pub open spec fn is_clear(&self) -> bool {
        self.title@.len() == 0 && self.tags@.len() == 0 && !self.completed
    }

    /// Empties the draft.
    pub fn clear(&mut self)
        ensures
            final(self).is_clear(),
    {
        self.title = String::new();
        self.tags = String::new();
        self.completed = false;
    }
}

impl Default for ProjectTemplate {
    fn default() -> (t: Self)
        ensures
            t.is_clear(),
    {
        ProjectTemplate { title: String::new(), tags: String::new(), completed: false }
    }
}

/// Where the form for a new project stands.
#[derive(Clone, Copy, Debug, PartialEq, Eq, Structural)]
pub enum FormState {
    /// The form is closed.
    Idle,
    /// The form is open and its draft can be edited.
    Composing,
    /// The user has confirmed the draft; the next update decides on it.
    Committed,
}

pub struct Controller {
    /// The query that the project list is filtered by.
    pub filter: String,
    /// Whether the form for a new project is open.
    pub adding_project: bool,
    /// The title whose projects the next update removes; empty for none.
    pub deleted_project_title: String,
    pub project_template: ProjectTemplate,
    /// Whether the form's title field is to get the keyboard focus.
    pub title_field_needs_focus: bool,
    /// Whether the pick is being shown.
    pub party_time: bool,
    /// The random number of the pick that is being shown.
    pub random_number: Option<usize>,
}

impl Default for Controller {
    fn default() -> (c: Self)
        ensures
            c.filter@.len() == 0,
            !c.adding_project,
            c.deleted_project_title@.len() == 0,
            c.project_template.is_clear(),
            !c.title_field_needs_focus,
            !c.party_time,
            c.random_number is None,
    {
        Controller {
            filter: String::new(),
            adding_project: false,
            deleted_project_title: String::new(),
            project_template: ProjectTemplate::default(),
            title_field_needs_focus: false,
            party_time: false,
            random_number: None,
        }
    }
}

/// A draw from the thread's random number generator.
///
/// Calls `rand::random::<Option<usize>>()`. Nothing is claimed of what it
/// returns: one draw in two holds no number, and two draws need not agree.
/// The generator seeds itself from the operating system and panics only if
/// that source fails.
#[verifier::external_body]
fn random_draw() -> Option<usize> {
    rand::random()
}

impl Controller {
    /// Where the form stands.
    pub open spec fn form(&self) -> FormState {
        if self.project_template.completed {
            FormState::Committed
        } else if self.adding_project {
            FormState::Composing
        } else {
            FormState::Idle
        }
    }

    /// The draft is confirmed and its title is not blank, so that the next
    /// update adds it to the store.
    pub open spec fn commits(&self) -> bool {
        self.project_template.completed && !is_blank(self.project_template.title@)
    }

    /// The store after the pending deletion, if there is one.
    pub open spec fn after_removal(&self, store: Seq<Project>) -> Seq<Project> {
        if self.deleted_project_title@.len() > 0 {
            without_title(store, self.deleted_project_title@)
        } else {
            store
        }
    }

    /// What an update makes of the form, from `self` to `next`, and of the
    /// store, from `before` to `after`. A confirmed draft with a title is
    /// added to the store and the form closes; one with a blank title is
    /// turned down and the form stays as it is, open and with its draft. A
    /// closed form holds no draft and asks for the focus when it opens.
    pub open spec fn form_step(
        &self,
        next: &Controller,
        before: Seq<Project>,
        after: Seq<Project>,
    ) -> bool {
        &&& if self.commits() {
            appended(before, after, self.project_template.title@, self.project_template.tags@)
        } else {
            after == before
        }
        &&& next.adding_project == (self.adding_project && !self.commits())
        &&& !next.project_template.completed
        &&& if next.adding_project {
            &&& next.project_template.title == self.project_template.title
            &&& next.project_template.tags == self.project_template.tags
            &&& next.title_field_needs_focus == self.title_field_needs_focus
        } else {
            &&& next.project_template.is_clear()
            &&& next.title_field_needs_focus
        }
    }

    /// The random number after an update: kept while the pick is shown,
    /// dropped when it is not.
    pub open spec fn held_number(&self) -> Option<usize> {
        if self.party_time {
            self.random_number
        } else {
            None
        }
    }

    /// Where the form stands.
    pub fn form_state(&self) -> (s: FormState)
        ensures
            s == self.form(),
    {
        if self.project_template.completed {
            FormState::Committed
        } else if self.adding_project {
            FormState::Composing
        } else {
            FormState::Idle
        }
    }

    /// Brings the store up to date with what the user asked for: the pending
    /// deletion first, then the draft, and last the random number.
    pub fn update(&mut self, projects: &mut Vec<Project>)
        ensures
            old(self).form_step(
                final(self),
                old(self).after_removal(old(projects)@),
                final(projects)@,
            ),
            final(self).deleted_project_title@.len() == 0,
            final(self).random_number == old(self).held_number(),
            final(self).filter == old(self).filter,
            final(self).party_time == old(self).party_time,
    {
        self.remove_deleted_project(projects);
        self.add_project(projects);
        self.clear_random_number();
    }

    /// Removes every project with the pending title, if there is one, and
    /// forgets the title.
    pub fn remove_deleted_project(&mut self, projects: &mut Vec<Project>)
        ensures
            final(projects)@ == old(self).after_removal(old(projects)@),
            final(self).deleted_project_title@.len() == 0,
            final(self).filter == old(self).filter,
            final(self).adding_project == old(self).adding_project,
            final(self).project_template == old(self).project_template,
            final(self).title_field_needs_focus == old(self).title_field_needs_focus,
            final(self).party_time == old(self).party_time,
            final(self).random_number == old(self).random_number,
    {
        if !self.deleted_project_title.as_str().is_empty() {
            delete_project(projects, self.deleted_project_title.as_str());
            self.deleted_project_title = String::new();
        }
    }

    /// Decides on the draft: see `form_step`.
    pub fn add_project(&mut self, projects: &mut Vec<Project>)
        ensures
            old(self).form_step(final(self), old(projects)@, final(projects)@),
            final(self).filter == old(self).filter,
            final(self).deleted_project_title == old(self).deleted_project_title,
            final(self).party_time == old(self).party_time,
            final(self).random_number == old(self).random_number,
    {
        if self.project_template.completed {
            let added = add_project(
                projects,
                self.project_template.title.as_str(),
                self.project_template.tags.as_str(),
            );
            match added {
                Ok(_) => {
                    self.adding_project = false;
                },
                Err(_) => {
                    self.project_template.completed = false;
                },
            }
        }
        if !self.adding_project {
            self.project_template.clear();
            self.title_field_needs_focus = true;
        }
    }

    /// Drops the random number unless the pick is being shown.
    pub fn clear_random_number(&mut self)
        ensures
            final(self).random_number == old(self).held_number(),
            final(self).filter == old(self).filter,
            final(self).adding_project == old(self).adding_project,
            final(self).deleted_project_title == old(self).deleted_project_title,
            final(self).project_template == old(self).project_template,
            final(self).title_field_needs_focus == old(self).title_field_needs_focus,
            final(self).party_time == old(self).party_time,
    {
        if !self.party_time {
            self.random_number = None;
        }
    }

    /// Opens the pick with the given draw, in place of any number held.
    pub fn open_pick_with(&mut self, draw: Option<usize>)
        ensures
            final(self).party_time,
            final(self).random_number == draw,
            final(self).filter == old(self).filter,
            final(self).adding_project == old(self).adding_project,
            final(self).deleted_project_title == old(self).deleted_project_title,
            final(self).project_template == old(self).project_template,
            final(self).title_field_needs_focus == old(self).title_field_needs_focus,
    {
        self.random_number = draw;
        self.party_time = true;
    }

    /// Opens the pick with a fresh draw.
    pub fn open_pick(&mut self)
        ensures
            final(self).party_time,
            final(self).filter == old(self).filter,
            final(self).adding_project == old(self).adding_project,
            final(self).deleted_project_title == old(self).deleted_project_title,
            final(self).project_template == old(self).project_template,
            final(self).title_field_needs_focus == old(self).title_field_needs_focus,
    {
        let draw = random_draw();
        self.open_pick_with(draw);
    }

    /// Takes the given draw where no number is held. A number that is held
    /// stays.
    pub fn keep_or_take(&mut self, draw: Option<usize>)
        ensures
            final(self).random_number == if old(self).random_number is Some {
                old(self).random_number
            } else {
                draw
            },
            final(self).filter == old(self).filter,
            final(self).adding_project == old(self).adding_project,
            final(self).deleted_project_title == old(self).deleted_project_title,
            final(self).project_template == old(self).project_template,
            final(self).title_field_needs_focus == old(self).title_field_needs_focus,
            final(self).party_time == old(self).party_time,
    {
        if self.random_number.is_none() {
            self.random_number = draw;
        }
    }

    /// Draws a number where none is held. A number that is held stays, so the
    /// pick does not change while it is shown.
    pub fn draw_if_missing(&mut self)
        ensures
            old(self).random_number is Some ==> final(self).random_number == old(
                self,
            ).random_number,
            final(self).filter == old(self).filter,
            final(self).adding_project == old(self).adding_project,
            final(self).deleted_project_title == old(self).deleted_project_title,
            final(self).project_template == old(self).project_template,
            final(self).title_field_needs_focus == old(self).title_field_needs_focus,
            final(self).party_time == old(self).party_time,
    {
        if self.random_number.is_none() {
            let draw = random_draw();
            self.keep_or_take(draw);
        }
    }

    /// The project that the number held picks among those that the filter
    /// matches; nothing where no number is held.
    pub fn picked<'a>(&'a self, projects: &'a [Project]) -> (r: Option<
        Result<&'a Project, StoreError>,
    >)
        ensures
            match (self.random_number, r) {
                (None, None) => true,
                (Some(n), Some(Ok(p))) => picked(projects@, self.filter@, n as nat) == Ok::<
                    Project,
                    StoreError,
                >(*p),
                (Some(n), Some(Err(e))) => picked(projects@, self.filter@, n as nat) == Err::<
                    Project,
                    StoreError,
                >(e),
                _ => false,
            },
    {
        match self.random_number {
            Some(n) => Some(pick_random(self.filter.as_str(), projects, n)),
            None => None,
        }
    }
}

} // verus!
