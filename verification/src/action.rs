use vstd::prelude::*;

verus! {

/// One decoded terminal event, or the request to end the session.
#[derive(Clone, Debug, PartialEq)]
pub enum Action {
    /// A printable character.
    Print(char),
    /// A C0 control byte.
    Execute(u8),
    /// A control sequence: parameters, intermediates, the ignore flag and the
    /// final character.
    DispatchCSI(Vec<i64>, Vec<u8>, bool, char),
    /// The session is to end.
    Close(),
}

/// The mathematical value of an [`Action`].
pub enum ActionView {
    Print(char),
    Execute(u8),
    DispatchCSI(Seq<i64>, Seq<u8>, bool, char),
    Close,
}

impl View for Action {
    type V = ActionView;

    open spec fn view(&self) -> ActionView {
        match *self {
            Action::Print(c) => ActionView::Print(c),
            Action::Execute(byte) => ActionView::Execute(byte),
            Action::DispatchCSI(params, intermediates, ignore, c) => ActionView::DispatchCSI(
                params@,
                intermediates@,
                ignore,
                c,
            ),
            Action::Close() => ActionView::Close,
        }
    }
}

/// Whether none of `actions` is `Close`.
pub open spec fn no_close(actions: Seq<ActionView>) -> bool {
    forall|i: int| 0 <= i < actions.len() ==> !(#[trigger] actions[i] is Close)
}

impl DeepView for Action {
    type V = ActionView;

    open spec fn deep_view(&self) -> ActionView {
        self@
    }
}

} // verus!
