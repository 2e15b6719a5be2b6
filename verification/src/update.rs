use crate::action::{Action, ActionView};
use crate::grid::floor_zero;
use crate::state::State;
use vstd::prelude::*;

verus! {

/// The reducer: changes `state` as `action` asks.
///
/// The cursor and the number of rows are `usize` values, so the caller owes
/// that the resulting grid fits; [`try_update`] makes that test itself.
pub fn update(state: &mut State, action: &Action)
    requires
        old(state)@.admits(action@),
    ensures
        final(state)@ == old(state)@.apply(action@),
{
    match action {
        Action::Print(c) => {
            state.print(*c);
        },
        Action::Execute(byte) => {
            state.execute(*byte);
        },
        Action::DispatchCSI(params, intermediates, ignore, c) => {
            state.csi_dispatch(params.as_slice(), intermediates.as_slice(), *ignore, *c);
        },
        _ => {},
    }
}

/// Whether `column + amount` is at most `usize::MAX`.
fn reachable(column: usize, amount: i64) -> (ok: bool)
    ensures
        ok == (column + amount <= usize::MAX),
{
    column as i128 + amount as i128 <= usize::MAX as i128
}

/// Whether the zero-based index that the one-based parameter `p` stands for
/// is at most `usize::MAX`.
fn index_fits(p: i64) -> (ok: bool)
    ensures
        ok == (floor_zero(p - 1) <= usize::MAX),
{
    p < 1 || reachable(0, p - 1)
}

/// Whether the grid that `action` leads to from `state` fits the machine.
pub fn admits(state: &State, action: &Action) -> (ok: bool)
    ensures
        ok == state@.admits(action@),
{
    assert(state@.rows.len() == state.lines.len() <= usize::MAX);
    match action {
        Action::Print(_) => state.cursor.x < usize::MAX && state.cursor.y < usize::MAX,
        Action::Execute(byte) => *byte != 10 || state.cursor.y < usize::MAX,
        Action::DispatchCSI(params, _, _, c) => {
            if *c == 'H' {
                (params.len() < 1 || index_fits(params[0])) && (params.len() < 2 || index_fits(
                    params[1],
                ))
            } else if *c == 'X' {
                state.cursor.y < usize::MAX
            } else if *c == 'C' {
                let amount: i64 = if params.len() >= 1 {
                    params[0]
                } else {
                    1
                };
                reachable(state.cursor.x, amount)
            } else {
                true
            }
        },
        Action::Close() => true,
    }
}

/// Applies `action` where the resulting grid fits the machine and says so;
/// otherwise leaves `state` as it is and returns `false`.
pub fn try_update(state: &mut State, action: &Action) -> (applied: bool)
    ensures
        applied == old(state)@.admits(action@),
        final(state)@ == old(state)@.apply_checked(action@),
{
    if admits(state, action) {
        update(state, action);
        true
    } else {
        false
    }
}

/// Applies each of `actions` in turn, first to last, leaving out those whose
/// result the machine cannot hold.
pub fn try_update_all(state: &mut State, actions: &Vec<Action>)
    ensures
        final(state)@ == old(state)@.apply_all_checked(actions.deep_view()),
{
    let ghost all = actions.deep_view();
    let mut i: usize = 0;
    assert(all.subrange(0, all.len() as int) =~= all);
    while i < actions.len()
        invariant
            i <= actions.len(),
            all == actions.deep_view(),
            state@.apply_all_checked(all.subrange(i as int, all.len() as int))
                == old(state)@.apply_all_checked(all),
        decreases actions.len() - i,
    {
        let ghost rest = all.subrange(i as int, all.len() as int);
        assert(rest.drop_first() =~= all.subrange(i + 1, all.len() as int));
        assert(rest[0] == actions[i as int]@);
        try_update(state, &actions[i]);
        i += 1;
    }
}

} // verus!
