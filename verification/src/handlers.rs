use crate::action::{Action, ActionView};
use crate::pty::{Pty, PtyError, PtyView, Request};
use vstd::prelude::*;
use vstd::slice::slice_to_vec;
use vstd::utf8::encode_scalar;

verus! {

/// The performer that the interpreter drives: it appends one [`Action`] to
/// `tx` for each printable character, control byte and control sequence, in
/// the order in which they are decoded, and lets everything else pass.
pub struct PtyHandler {
    pub tx: Vec<Action>,
}

impl vte::Perform for PtyHandler {
    fn print(&mut self, c: char)
        ensures
            final(self).tx.deep_view() == old(self).tx.deep_view().push(ActionView::Print(c)),
    {
        self.tx.push(Action::Print(c));
        assert(self.tx.deep_view() =~= old(self).tx.deep_view().push(ActionView::Print(c)));
    }

    fn csi_dispatch(&mut self, params: &[i64], intermediates: &[u8], ignore: bool, c: char)
        ensures
            final(self).tx.deep_view() == old(self).tx.deep_view().push(
                ActionView::DispatchCSI(params@, intermediates@, ignore, c),
            ),
    {
        let action = Action::DispatchCSI(slice_to_vec(params), slice_to_vec(intermediates), ignore, c);
        self.tx.push(action);
        assert(self.tx.deep_view() =~= old(self).tx.deep_view().push(
            ActionView::DispatchCSI(params@, intermediates@, ignore, c),
        ));
    }

    fn execute(&mut self, byte: u8)
        ensures
            final(self).tx.deep_view() == old(self).tx.deep_view().push(ActionView::Execute(byte)),
    {
        self.tx.push(Action::Execute(byte));
        assert(self.tx.deep_view() =~= old(self).tx.deep_view().push(ActionView::Execute(byte)));
    }

    fn hook(&mut self, _params: &[i64], _intermediates: &[u8], _ignore: bool)
        ensures
            *final(self) == *old(self),
    {
    }

    fn put(&mut self, _byte: u8)
        ensures
            *final(self) == *old(self),
    {
    }

    fn unhook(&mut self)
        ensures
            *final(self) == *old(self),
    {
    }

    fn osc_dispatch(&mut self, _params: &[&[u8]])
        ensures
            *final(self) == *old(self),
    {
    }

    fn esc_dispatch(&mut self, _params: &[i64], _intermediates: &[u8], _ignore: bool, _byte: u8)
        ensures
            *final(self) == *old(self),
    {
    }
}

/// A key of the keyboard, as far as the session tells keys apart.
#[derive(Clone, Copy, Debug, PartialEq, Eq, Structural)]
pub enum Key {
    Escape,
    Other,
}

/// An event of the window that shows the session.
#[derive(Clone, Copy, Debug, PartialEq, Eq, Structural)]
pub enum WindowEvent {
    /// The user asked for the window to be closed.
    CloseRequested,
    /// A key went down (`pressed`) or up; `key` is `None` where the key has
    /// no code.
    KeyboardInput { pressed: bool, key: Option<Key> },
    /// The user typed a character.
    ReceivedCharacter(char),
    /// Anything else.
    Other,
}

/// Whoever is told of the window's events.
pub trait Handler {
    fn on_window_event(&mut self, event: &WindowEvent) -> Result<(), PtyError>;
}

/// The handler of the window's events: it asks for the session to close and
/// passes typed characters on to the child.
pub struct DisplayHandler {
    pub pty: Pty,
    pub tx: Vec<Action>,
}

/// Whether `event` asks for the session to end: a request to close the
/// window, or the escape key going down.
pub open spec fn closes(event: WindowEvent) -> bool {
    match event {
        WindowEvent::CloseRequested => true,
        WindowEvent::KeyboardInput { pressed, key } => pressed && key == Some(Key::Escape),
        _ => false,
    }
}

/// The bytes that `event` sends to the child: the UTF-8 encoding of a typed
/// character, and nothing for any other event.
pub open spec fn typed(event: WindowEvent) -> Seq<u8> {
    match event {
        WindowEvent::ReceivedCharacter(c) => encode_scalar(c as u32),
        _ => Seq::empty(),
    }
}

/// `pty` after a write request for each of `bytes`, first to last: they join
/// the pending requests in their order where the child can be reached, and
/// are dropped where it cannot.
pub open spec fn writing(pty: PtyView, bytes: Seq<u8>) -> PtyView {
    if pty.connected {
        PtyView { pending: pty.pending + bytes.map_values(|b: u8| Request::Write(b)), ..pty }
    } else {
        pty
    }
}

/// The UTF-8 encoding of `c`.
fn encode_utf8(c: char) -> (bytes: Vec<u8>)
    ensures
        bytes@ == encode_scalar(c as u32),
{
    let v: u32 = c as u32;
    let mut bytes: Vec<u8> = Vec::new();
    if v <= 0x7F {
        bytes.push((v & 0x7F) as u8);
    } else if v <= 0x7FF {
        bytes.push(0xC0 | ((v >> 6) & 0x1F) as u8);
        bytes.push(0x80 | (v & 0x3F) as u8);
    } else if v <= 0xFFFF {
        bytes.push(0xE0 | ((v >> 12) & 0x0F) as u8);
        bytes.push(0x80 | ((v >> 6) & 0x3F) as u8);
        bytes.push(0x80 | (v & 0x3F) as u8);
    } else {
        bytes.push(0xF0 | ((v >> 18) & 0x7) as u8);
        bytes.push(0x80 | ((v >> 12) & 0x3F) as u8);
        bytes.push(0x80 | ((v >> 6) & 0x3F) as u8);
        bytes.push(0x80 | (v & 0x3F) as u8);
    }
    assert(bytes@ =~= encode_scalar(v));
    bytes
}

impl Handler for DisplayHandler {
    /// A closing event appends `Close` to `tx`. A typed character is sent to
    /// the child as the bytes of its UTF-8 encoding, in order; where the
    /// child can no longer be reached the call fails and nothing is sent.
    /// Every other event is passed over.
    fn on_window_event(&mut self, event: &WindowEvent) -> (result: Result<(), PtyError>)
        ensures
            closes(*event) ==> final(self).tx.deep_view() == old(self).tx.deep_view().push(
                ActionView::Close,
            ),
            !closes(*event) ==> final(self).tx.deep_view() == old(self).tx.deep_view(),
            final(self).pty@ == writing(old(self).pty@, typed(*event)),
            result is Ok <==> old(self).pty@.connected || typed(*event).len() == 0,
            result is Err ==> result == Err::<(), PtyError>(PtyError::Disconnected),
    {
        match event {
            WindowEvent::CloseRequested => {
                self.tx.push(Action::Close());
                assert(self.tx.deep_view() =~= old(self).tx.deep_view().push(ActionView::Close));
                Ok(())
            },
            WindowEvent::KeyboardInput { pressed: true, key: Some(Key::Escape) } => {
                self.tx.push(Action::Close());
                assert(self.tx.deep_view() =~= old(self).tx.deep_view().push(ActionView::Close));
                Ok(())
            },
            WindowEvent::ReceivedCharacter(c) => {
                let bytes = encode_utf8(*c);
                let mut i: usize = 0;
                assert(bytes@.subrange(0, bytes.len() as int) =~= bytes@);
                while i < bytes.len()
                    invariant
                        i <= bytes.len(),
                        self.tx == old(self).tx,
                        self.pty@.connected == old(self).pty@.connected,
                        i > 0 ==> old(self).pty@.connected,
                        bytes@ == typed(*event),
                        writing(self.pty@, bytes@.subrange(i as int, bytes.len() as int)) == writing(
                            old(self).pty@,
                            bytes@,
                        ),
                    decreases bytes.len() - i,
                {
                    let ghost rest = bytes@.subrange(i as int, bytes.len() as int);
                    let ghost pending = self.pty@.pending;
                    match self.pty.write(bytes[i]) {
                        Ok(()) => {},
                        Err(e) => {
                            return Err(e);
                        },
                    }
                    i += 1;
                    assert(pending.push(Request::Write(rest[0])) + bytes@.subrange(
                        i as int,
                        bytes.len() as int,
                    ).map_values(|b: u8| Request::Write(b)) =~= pending + rest.map_values(
                        |b: u8| Request::Write(b),
                    ));
                }
                assert(self.pty@.pending + bytes@.subrange(i as int, bytes.len() as int).map_values(
                    |b: u8| Request::Write(b),
                ) =~= self.pty@.pending);
                Ok(())
            },
            _ => {
                assert(self.pty@.pending + typed(*event).map_values(|b: u8| Request::Write(b))
                    =~= self.pty@.pending);
                Ok(())
            },
        }
    }
}

} // verus!
