use crate::action::{no_close, Action, ActionView};
use crate::grid::Grid;
use crate::state::{Snapshot, State};
use crate::update::try_update;
use vstd::prelude::*;

verus! {

/// What the coordinator owns: the grid, which nothing else writes to, and
/// whether the session has been closed.
pub struct Session {
    state: State,
    closed: bool,
}

/// The mathematical value of a [`Session`].
#[verifier::ext_equal]
pub struct SessionView {
    pub grid: Grid,
    pub closed: bool,
}

impl SessionView {
    /// The session after one action. A closed session stays as it is;
    /// `Close` closes an open one and leaves its grid alone; every other
    /// action goes to the grid.
    pub open spec fn step(self, action: ActionView) -> SessionView {
        if self.closed {
            self
        } else if action is Close {
            SessionView { closed: true, ..self }
        } else {
            SessionView { grid: self.grid.apply_checked(action), ..self }
        }
    }

    /// The session after each of `actions` in turn, first to last.
    pub open spec fn run(self, actions: Seq<ActionView>) -> SessionView
        decreases actions.len(),
    {
        if actions.len() == 0 {
            self
        } else {
            self.step(actions[0]).run(actions.drop_first())
        }
    }
}

impl View for Session {
    type V = SessionView;

    closed spec fn view(&self) -> SessionView {
        SessionView { grid: self.state@, closed: self.closed }
    }
}

/// Once the session is closed, no action changes it, however many follow.
pub proof fn lemma_closed_stays_closed(session: SessionView, actions: Seq<ActionView>)
    requires
        session.closed,
    ensures
        session.run(actions) == session,
    decreases actions.len(),
{
    if actions.len() > 0 {
        lemma_closed_stays_closed(session, actions.drop_first());
    }
}

/// An open session applies the actions that come before the first `Close`
/// and none that come after it.
pub proof fn lemma_run_ends_at_close(
    session: SessionView,
    before: Seq<ActionView>,
    after: Seq<ActionView>,
)
    requires
        !session.closed,
        no_close(before),
    ensures
        session.run(before + seq![ActionView::Close] + after) == (SessionView {
            grid: session.grid.apply_all_checked(before),
            closed: true,
        }),
    decreases before.len(),
{
    let all = before + seq![ActionView::Close] + after;
    if before.len() == 0 {
        assert(all.drop_first() =~= after);
        lemma_closed_stays_closed(session.step(ActionView::Close), after);
    } else {
        assert(all.drop_first() =~= before.drop_first() + seq![ActionView::Close] + after);
        lemma_run_ends_at_close(session.step(before[0]), before.drop_first(), after);
    }
}

/// Where no `Close` is among them, an open session applies all the actions
/// and stays open.
pub proof fn lemma_run_without_close(session: SessionView, actions: Seq<ActionView>)
    requires
        !session.closed,
        no_close(actions),
    ensures
        session.run(actions) == (SessionView {
            grid: session.grid.apply_all_checked(actions),
            closed: false,
        }),
    decreases actions.len(),
{
    if actions.len() > 0 {
        lemma_run_without_close(session.step(actions[0]), actions.drop_first());
    }
}

/// The coordinator's reducer: one action changes the session as
/// [`SessionView::step`] says.
pub fn coordinate(session: &mut Session, action: &Action)
    ensures
        final(session)@ == old(session)@.step(action@),
{
    if session.closed {
        return ;
    }
    match action {
        Action::Close() => {
            session.closed = true;
        },
        _ => {
            try_update(&mut session.state, action);
        },
    }
}

impl Session {
    /// An open session with an empty grid.
    pub fn new() -> (session: Self)
        ensures
            session@ == (SessionView { grid: Grid::empty(), closed: false }),
    {
        Session { state: State::new(), closed: false }
    }

    /// Whether `Close` has been processed.
    pub fn is_closed(&self) -> (closed: bool)
        ensures
            closed == self@.closed,
    {
        self.closed
    }

    /// The grid.
    pub fn state(&self) -> (state: &State)
        ensures
            state@ == self@.grid,
    {
        &self.state
    }

    /// One wake-up of the consumer loop: applies the batch of queued actions
    /// in order, and then hands out one snapshot for the renderer. After
    /// `Close` nothing more is applied and there is nothing to render.
    pub fn cycle(&mut self, batch: &Vec<Action>) -> (frame: Option<Snapshot>)
        ensures
            final(self)@ == old(self)@.run(batch.deep_view()),
            final(self)@.closed ==> frame is None,
            !final(self)@.closed ==> frame is Some && frame->0@ == final(self)@.grid,
    {
        let ghost all = batch.deep_view();
        let mut i: usize = 0;
        assert(all.subrange(0, all.len() as int) =~= all);
        while i < batch.len() && !self.closed
            invariant
                i <= batch.len(),
                all == batch.deep_view(),
                self@.run(all.subrange(i as int, all.len() as int)) == old(self)@.run(all),
            decreases batch.len() - i,
        {
            let ghost rest = all.subrange(i as int, all.len() as int);
            assert(rest.drop_first() =~= all.subrange(i + 1, all.len() as int));
            assert(rest[0] == batch[i as int]@);
            coordinate(self, &batch[i]);
            i += 1;
        }
        proof {
            if self.closed {
                lemma_closed_stays_closed(self@, all.subrange(i as int, all.len() as int));
            }
        }
        if self.closed {
            None
        } else {
            Some(self.state.snapshot())
        }
    }
}

} // verus!
