//! The application state: the store and its controller.

use crate::controller::Controller;
use crate::project::Project;
use vstd::prelude::*;

verus! {

/// The projects with the controller that works on them.
pub struct ErabuApp {
    /// The store: the projects in the order in which they were added.
    pub projects: Vec<Project>,
    pub controller: Controller,
}

impl Default for ErabuApp {
    fn default() -> (app: Self)
        ensures
            app.projects@.len() == 0,
            app.controller.filter@.len() == 0,
            !app.controller.adding_project,
            app.controller.deleted_project_title@.len() == 0,
            app.controller.project_template.is_clear(),
            !app.controller.title_field_needs_focus,
            !app.controller.party_time,
            app.controller.random_number is None,
    {
        ErabuApp { projects: Vec::new(), controller: Controller::default() }
    }
}

impl ErabuApp {
    /// Brings the store up to date with what the user asked for since the
    /// last update: the pending deletion first, then the draft, and last the
    /// random number.
    pub fn update(&mut self)
        ensures
            old(self).controller.form_step(
                &final(self).controller,
                old(self).controller.after_removal(old(self).projects@),
                final(self).projects@,
            ),
            final(self).controller.deleted_project_title@.len() == 0,
            final(self).controller.random_number == old(self).controller.held_number(),
            final(self).controller.filter == old(self).controller.filter,
            final(self).controller.party_time == old(self).controller.party_time,
    {
        self.controller.update(&mut self.projects);
    }
}

} // verus!
