//! The client's navigation: home, then systems, then a system's catalog, then a game.

use vstd::prelude::*;

verus! {

/// A screen of the client.
#[derive(Debug, Clone, Copy, PartialEq, Eq, Structural)]
pub enum AppView {
    Home,
    Systems,
    Catalog { system_id: i64 },
    Details { game_id: i64 },
}

/// The history of visited screens; the last one is shown. It is never empty.
#[derive(Debug, Clone)]
pub struct Navigator {
    history: Vec<AppView>,
}

/// The history after opening `view`: opening the screen already shown changes nothing.
pub open spec fn opened(history: Seq<AppView>, view: AppView) -> Seq<AppView> {
    if history.last() == view {
        history
    } else {
        history.push(view)
    }
}

/// The history after going back: the last screen is left unless it is the only one.
pub open spec fn went_back(history: Seq<AppView>) -> Seq<AppView> {
    if history.len() > 1 {
        history.drop_last()
    } else {
        history
    }
}

impl View for Navigator {
    type V = Seq<AppView>;

    closed spec fn view(&self) -> Seq<AppView> {
        self.history@
    }
}

impl Navigator {
    /// Well-formedness: the history holds at least one screen.
    pub closed spec fn wf(&self) -> bool {
        self.history@.len() >= 1
    }

    pub proof fn lemma_wf_not_empty(&self)
        requires
            self.wf(),
        ensures
            self@.len() >= 1,
    {
    }

    /// The screen shown.
    pub fn current(&self) -> (r: &AppView)
        requires
            self.wf(),
        ensures
            self@.len() >= 1,
            *r == self@.last(),
    {
        let n = self.history.len();
        &self.history[n - 1]
    }

    fn push(&mut self, view: AppView)
        requires
            old(self).wf(),
        ensures
            final(self).wf(),
            final(self)@ == opened(old(self)@, view),
    {
        let n = self.history.len();
        if self.history[n - 1] != view {
            self.history.push(view);
        }
    }

    pub fn open_systems(&mut self)
        requires
            old(self).wf(),
        ensures
            final(self).wf(),
            final(self)@ == opened(old(self)@, AppView::Systems),
    {
        self.push(AppView::Systems);
    }

    pub fn open_catalog(&mut self, system_id: i64)
        requires
            old(self).wf(),
        ensures
            final(self).wf(),
            final(self)@ == opened(old(self)@, AppView::Catalog { system_id }),
    {
        self.push(AppView::Catalog { system_id });
    }

    pub fn open_details(&mut self, game_id: i64)
        requires
            old(self).wf(),
        ensures
            final(self).wf(),
            final(self)@ == opened(old(self)@, AppView::Details { game_id }),
    {
        self.push(AppView::Details { game_id });
    }

    /// Returns to the home screen and forgets the history.
    pub fn home(&mut self)
        ensures
            final(self).wf(),
            final(self)@ == seq![AppView::Home],
    {
        self.history = Vec::new();
        self.history.push(AppView::Home);
        assert(self.history@ =~= seq![AppView::Home]);
    }

    /// Returns to the previous screen, if there is one.
    pub fn back(&mut self)
        requires
            old(self).wf(),
        ensures
            final(self).wf(),
            final(self)@ == went_back(old(self)@),
    {
        if self.history.len() > 1 {
            self.history.pop();
        }
    }
}

impl Default for Navigator {
    fn default() -> (r: Self)
        ensures
            r.wf(),
            r@ == seq![AppView::Home],
    {
        let mut history = Vec::new();
        history.push(AppView::Home);
        assert(history@ =~= seq![AppView::Home]);
        Navigator { history }
    }
}

/// Going back after opening a screen other than the current one returns to where the user was.
pub proof fn lemma_back_undoes_open(history: Seq<AppView>, view: AppView)
    requires
        history.len() >= 1,
        history.last() != view,
    ensures
        went_back(opened(history, view)) == history,
{
    assert(history.push(view).drop_last() =~= history);
}

/// Opening the screen that is already shown leaves the history as it was.
pub proof fn lemma_open_current_is_idempotent(history: Seq<AppView>)
    requires
        history.len() >= 1,
    ensures
        opened(history, history.last()) == history,
{
}

/// Opening a screen always shows it, and keeps the history non-empty.
pub proof fn lemma_open_shows_view(history: Seq<AppView>, view: AppView)
    requires
        history.len() >= 1,
    ensures
        opened(history, view).last() == view,
        opened(history, view).len() >= 1,
{
}

/// Going back from the only screen stays there; otherwise the history shrinks by one.
pub proof fn lemma_back_keeps_a_screen(history: Seq<AppView>)
    requires
        history.len() >= 1,
    ensures
        went_back(history).len() >= 1,
        history.len() == 1 ==> went_back(history) == history,
        history.len() > 1 ==> went_back(history).len() == history.len() - 1,
{
}

} // verus!
