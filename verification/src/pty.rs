use std::collections::VecDeque;
use vstd::prelude::*;

verus! {

/// What a session is started with: the shell command, the size of the
/// pseudo-console in columns and rows, and the working directory.
pub struct Config<'a> {
    pub shell: &'a str,
    pub cols: u32,
    pub rows: u32,
    pub cwd: &'a str,
}

impl<'a> Default for Config<'a> {
    fn default() -> (config: Self)
        ensures
            config.shell@ == "powershell"@,
            config.cols == 80,
            config.rows == 24,
            config.cwd@ == "C:\\"@,
    {
        Self { shell: "powershell", cols: 80, rows: 24, cwd: "C:\\" }
    }
}

/// One thing that the input writer is asked to do for the child: resize the
/// pseudo-console to columns and rows, or write one byte to its input.
#[derive(Clone, Copy, Debug, PartialEq, Eq, Structural)]
pub enum Request {
    Resize(i16, i16),
    Write(u8),
}

/// Why a request was not taken.
#[derive(Clone, Copy, Debug, PartialEq, Eq, Structural)]
pub enum PtyError {
    /// The input writer has ended; nothing can reach the child any more.
    Disconnected,
}

/// The mathematical value of a [`Pty`]: the requests taken and not yet
/// handed to the input writer, oldest first, and whether the input writer
/// still runs.
pub struct PtyView {
    pub pending: Seq<Request>,
    pub connected: bool,
}

impl PtyView {
    /// The value after `request` was handed in: it joins the pending
    /// requests as the newest where the input writer still runs, and is
    /// dropped where it does not.
    pub open spec fn taking(self, request: Request) -> PtyView {
        if self.connected {
            PtyView { pending: self.pending.push(request), ..self }
        } else {
            self
        }
    }
}

/// The caller's end of the channel to the input writer. Requests are taken
/// without waiting and leave in the order in which they came.
#[derive(Debug)]
pub struct Pty {
    tx: VecDeque<Request>,
    connected: bool,
}

impl View for Pty {
    type V = PtyView;

    closed spec fn view(&self) -> PtyView {
        PtyView { pending: self.tx@, connected: self.connected }
    }
}

impl Pty {
    /// A connected channel with nothing pending.
    pub fn new() -> (pty: Self)
        ensures
            pty@.pending == Seq::<Request>::empty(),
            pty@.connected,
    {
        Pty { tx: VecDeque::new(), connected: true }
    }

    /// Asks for the pseudo-console to be resized. Columns and rows are cut
    /// down to the 16 bits that the console takes.
    pub fn resize(&mut self, cols: u32, rows: u32) -> (result: Result<(), PtyError>)
        ensures
            final(self)@ == old(self)@.taking(Request::Resize(cols as i16, rows as i16)),
            old(self)@.connected ==> result is Ok,
            !old(self)@.connected ==> result == Err::<(), PtyError>(PtyError::Disconnected),
    {
        self.send(Request::Resize(cols as i16, rows as i16))
    }

    /// Asks for `b` to be written to the child's input.
    pub fn write(&mut self, b: u8) -> (result: Result<(), PtyError>)
        ensures
            final(self)@ == old(self)@.taking(Request::Write(b)),
            old(self)@.connected ==> result is Ok,
            !old(self)@.connected ==> result == Err::<(), PtyError>(PtyError::Disconnected),
    {
        self.send(Request::Write(b))
    }

    fn send(&mut self, request: Request) -> (result: Result<(), PtyError>)
        ensures
            final(self)@ == old(self)@.taking(request),
            old(self)@.connected ==> result is Ok,
            !old(self)@.connected ==> result == Err::<(), PtyError>(PtyError::Disconnected),
    {
        if self.connected {
            self.tx.push_back(request);
            Ok(())
        } else {
            Err(PtyError::Disconnected)
        }
    }

    /// Hands out the oldest pending request, for the input writer to carry
    /// out; `None` where nothing is pending.
    pub fn next_request(&mut self) -> (request: Option<Request>)
        ensures
            final(self)@.connected == old(self)@.connected,
            old(self)@.pending.len() == 0 ==> request is None && final(self)@ == old(self)@,
            old(self)@.pending.len() > 0 ==> request == Some(old(self)@.pending[0]),
            old(self)@.pending.len() > 0 ==> final(self)@.pending == old(self)@.pending.drop_first(),
    {
        let request = self.tx.pop_front();
        proof {
            if old(self)@.pending.len() > 0 {
                assert(self.tx@ =~= old(self)@.pending.drop_first());
            }
        }
        request
    }

    /// Records that the input writer has ended. What is pending stays, and
    /// every later request is refused.
    pub fn disconnect(&mut self)
        ensures
            final(self)@ == (PtyView { pending: old(self)@.pending, connected: false }),
    {
        self.connected = false;
    }
}

} // verus!
