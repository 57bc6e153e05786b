//! The slot that holds the one running spinner, and the commands that look
//! at it.

use vstd::prelude::*;

verus! {

/// The exit status of a command that did what it was asked.
pub const SUCCESS: i32 = 0;

/// The exit status of a command that failed.
pub const FAILURE: i32 = 1;

/// Why `update` or `stop` could not be carried out.
#[derive(Debug, PartialEq, Eq, Structural)]
pub enum CommandError {
    /// No spinner is running.
    NotRunning,
}

impl CommandError {
    /// The exit status that the failure gives.
    pub fn exit_code(&self) -> (c: i32)
        ensures
            c == FAILURE,
    {
        FAILURE
    }

    /// The line written to the error stream for the failure.
    pub fn message(&self) -> (m: &'static str)
        ensures
            m@ == "\x1b[0;31mRevolver process could not be found\x1b[0;m"@,
    {
        "\x1b[0;31mRevolver process could not be found\x1b[0;m"
    }
}

/// The slot of the running spinner: empty, or holding the one spinner that
/// animates (of whatever kind `S` the caller keeps for it).
pub struct Registry<S> {
    active: Option<S>,
}

impl<S> View for Registry<S> {
    type V = Option<S>;

    closed spec fn view(&self) -> Option<S> {
        self.active
    }
}

impl<S> Registry<S> {
    /// An empty slot.
    pub fn new() -> (r: Registry<S>)
        ensures
            r@ is None,
    {
        Registry { active: None }
    }

    /// Whether a spinner is running.
    pub fn is_active(&self) -> (b: bool)
        ensures
            b == self@ is Some,
    {
        self.active.is_some()
    }

    /// The running spinner, if any.
    pub fn current(&self) -> (r: Option<&S>)
        ensures
            r matches Some(s) ==> self@ == Some(*s),
            r is None <==> self@ is None,
    {
        match &self.active {
            Some(s) => Some(s),
            None => None,
        }
    }

    /// Puts `spinner` in the slot as the running one, and hands back the one
    /// it replaces, if any.
    pub fn install(&mut self, spinner: S) -> (prev: Option<S>)
        ensures
            final(self)@ == Some(spinner),
            prev == old(self)@,
    {
        let prev = self.active.take();
        self.active = Some(spinner);
        prev
    }
}

/// Takes the running spinner, if any, out of the slot, so that the caller
/// stops it and waits for it; the slot is then empty.
pub fn stop_active<S>(slot: &mut Registry<S>) -> (prev: Option<S>)
    ensures
        prev == old(slot)@,
        final(slot)@ is None,
{
    slot.active.take()
}

/// `update`: the running spinner, whose message is to change; fails when
/// none runs.
pub fn cmd_update<S>(slot: &Registry<S>) -> (r: Result<&S, CommandError>)
    ensures
        r matches Ok(s) ==> slot@ == Some(*s),
        r is Err <==> slot@ is None,
        r matches Err(e) ==> e == CommandError::NotRunning,
{
    match slot.current() {
        Some(s) => Ok(s),
        None => Err(CommandError::NotRunning),
    }
}

/// `stop`: takes the running spinner out of the slot, to be stopped; fails,
/// and leaves the slot as it is, when none runs.
pub fn cmd_stop<S>(slot: &mut Registry<S>) -> (r: Result<S, CommandError>)
    ensures
        final(slot)@ is None,
        match old(slot)@ {
            Some(s) => r == Ok::<S, CommandError>(s),
            None => r == Err::<S, CommandError>(CommandError::NotRunning),
        },
{
    if !slot.is_active() {
        return Err(CommandError::NotRunning);
    }
    match stop_active(slot) {
        Some(s) => Ok(s),
        None => Err(CommandError::NotRunning),
    }
}

} // verus!
