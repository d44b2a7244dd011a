//! The application state and the transitions that a click causes.

use vstd::prelude::*;
use crate::tab::LeftPanel;

verus! {

/// One click of the user on a control of the window.
#[derive(Clone, Copy, Debug, PartialEq, Eq, Structural)]
pub enum Click {
    /// On the selector of a tab in the left panel.
    Tab(LeftPanel),
    /// On "Quit" in the "File" menu.
    Quit,
}

/// What the host does after a click has been handled.
#[derive(Clone, Copy, Debug, PartialEq, Eq, Structural)]
pub enum Action {
    /// Go on with the next frame.
    Continue,
    /// End the event loop once the current frame is complete.
    Quit,
}

/// The state of the application: the tab that is active in the left panel.
#[derive(Clone, Copy, Debug, PartialEq, Eq, Structural)]
pub struct TemplateApp {
    pub left_panel: LeftPanel,
}

impl TemplateApp {
    /// The state of a first run: the page tab is active.
    pub open spec fn initial() -> TemplateApp {
        TemplateApp { left_panel: LeftPanel::Page }
    }

    /// The state after the selector of `tab` was clicked: `tab` is active,
    /// whatever was active before.
    pub open spec fn after_select(self, tab: LeftPanel) -> TemplateApp {
        TemplateApp { left_panel: tab }
    }

    /// The state after `click`. Only a click on a tab selector changes it.
    pub open spec fn after_click(self, click: Click) -> TemplateApp {
        match click {
            Click::Tab(tab) => self.after_select(tab),
            Click::Quit => self,
        }
    }

    /// Whether the selector of `tab` is shown as selected: it is for the
    /// active tab.
    pub open spec fn selected(self, tab: LeftPanel) -> bool {
        self.left_panel == tab
    }

    /// What the host is to do after `click`. Only "Quit" ends the event loop.
    pub open spec fn action_for(click: Click) -> Action {
        match click {
            Click::Tab(_) => Action::Continue,
            Click::Quit => Action::Quit,
        }
    }

    /// The name of the application, as the window's title shows it.
    pub fn name(&self) -> (name: &str)
        ensures
            name@ == "Design Master"@,
    {
        "Design Master"
    }

    /// The tab that is active.
    pub fn active_tab(&self) -> (tab: LeftPanel)
        ensures
            tab == self.left_panel,
    {
        self.left_panel
    }

    /// Whether the selector of `tab` is shown as selected.
    pub fn is_selected(&self, tab: LeftPanel) -> (selected: bool)
        ensures
            selected == self.selected(tab),
    {
        self.left_panel == tab
    }

    /// Makes `tab` the active tab.
    pub fn select(&mut self, tab: LeftPanel)
        ensures
            *final(self) == old(self).after_select(tab),
    {
        self.left_panel = tab;
    }

    /// Handles one click and says what the host is to do next.
    pub fn click(&mut self, click: Click) -> (action: Action)
        ensures
            *final(self) == old(self).after_click(click),
            action == Self::action_for(click),
    {
        match click {
            Click::Tab(tab) => {
                self.select(tab);
                Action::Continue
            },
            Click::Quit => Action::Quit,
        }
    }

    /// In every state exactly one selector is shown as selected.
    pub proof fn lemma_exactly_one_selected(self, a: LeftPanel, b: LeftPanel)
        ensures
            self.selected(self.left_panel),
            self.selected(a) && self.selected(b) ==> a == b,
    {
    }

    /// After a tab was selected it is the active one, and the selector of no
    /// other tab is shown as selected.
    pub proof fn lemma_select_activates_exactly(self, tab: LeftPanel, other: LeftPanel)
        ensures
            self.after_select(tab).left_panel == tab,
            self.after_select(tab).selected(other) <==> other == tab,
    {
    }

    /// Selecting the tab that is already active changes nothing, and selecting
    /// a tab twice gives the same state as selecting it once.
    pub proof fn lemma_select_idempotent(self, tab: LeftPanel)
        ensures
            self.left_panel == tab ==> self.after_select(tab) == self,
            self.after_select(tab).after_select(tab) == self.after_select(tab),
    {
    }

    /// A selection overwrites the one before it: no history is kept.
    pub proof fn lemma_select_overwrites(self, first: LeftPanel, second: LeftPanel)
        ensures
            self.after_select(first).after_select(second) == self.after_select(second),
    {
    }

    /// A click on "Quit" leaves the state as it is and is the only click that
    /// ends the event loop.
    pub proof fn lemma_quit_only_by_request(self, click: Click)
        ensures
            Self::action_for(click) == Action::Quit <==> click == Click::Quit,
            click == Click::Quit ==> self.after_click(click) == self,
    {
    }
}

impl Default for TemplateApp {
    fn default() -> (app: TemplateApp)
        ensures
            app == TemplateApp::initial(),
    {
        TemplateApp { left_panel: LeftPanel::Page }
    }
}

} // verus!
