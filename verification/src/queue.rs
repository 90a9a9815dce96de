//! The shared command queue between the ingestion context and the main
//! control context, and the ingestion decision itself. The ingestion side
//! only pushes; the control side drains the whole sequence atomically, so
//! commands execute in the order they were enqueued (first in, first out,
//! with no reordering within a batch).

use vstd::prelude::*;

use crate::codec::{spec_decode, spec_validate_parameters, Command, CommandView};
use crate::text::str_eq;

verus! {

/// An ordered sequence of pending commands.
pub struct CommandQueue {
    items: Vec<Command>,
}

impl View for CommandQueue {
    type V = Seq<Command>;

    closed spec fn view(&self) -> Seq<Command> {
        self.items@
    }
}

impl CommandQueue {
    /// An empty queue.
    pub fn new() -> (r: CommandQueue)
        ensures
            r@ == Seq::<Command>::empty(),
    {
        CommandQueue { items: Vec::new() }
    }

    /// Appends one command at the back.
    pub fn push(&mut self, c: Command)
        ensures
            final(self)@ == old(self)@.push(c),
    {
        self.items.push(c);
    }

    /// Takes the whole pending sequence at once, leaving the queue empty:
    /// a swap-and-clear, so no command is lost or reordered between the
    /// two contexts.
    pub fn drain(&mut self) -> (r: Vec<Command>)
        ensures
            r@ == old(self)@,
            final(self)@ == Seq::<Command>::empty(),
    {
        let r = self.items.split_off(0);
        proof {
            assert(r@ =~= old(self)@);
        }
        r
    }

    /// Number of pending commands.
    pub fn len(&self) -> (r: usize)
        ensures
            r == self@.len(),
    {
        self.items.len()
    }

    /// Whether nothing is pending.
    pub fn is_empty(&self) -> (r: bool)
        ensures
            r == (self@.len() == 0),
    {
        self.items.is_empty()
    }
}

/// The ingestion decision on one delivered payload: the command it decodes
/// to, provided it addresses this device (under either of its two names)
/// and its parameters are in range; everything else is dropped.
pub open spec fn spec_ingest(
    j: Seq<char>,
    device_id: Seq<char>,
    device_alias: Seq<char>,
) -> Option<CommandView> {
    match spec_decode(j) {
        None => None,
        Some(c) => if (c.to == device_id || c.to == device_alias) && spec_validate_parameters(c)
            is Ok {
            Some(c)
        } else {
            None
        },
    }
}

/// Decides what the ingestion context does with one delivered payload:
/// decodes it, checks that it addresses this device (either name), and
/// checks its parameter ranges; returns the command to enqueue, or
/// nothing when the payload is dropped.
pub fn ingest(payload: &str, device_id: &str, device_alias: &str) -> (r: Option<Command>)
    ensures
        match r {
            Some(c) => spec_ingest(payload@, device_id@, device_alias@) == Some(c@),
            None => spec_ingest(payload@, device_id@, device_alias@) is None,
        },
{
    let c = match Command::from_json(payload) {
        Some(c) => c,
        None => {
            return None;
        },
    };
    if !(str_eq(c.to.as_str(), device_id) || str_eq(c.to.as_str(), device_alias)) {
        return None;
    }
    match c.validate_parameters() {
        Ok(()) => Some(c),
        Err(_) => None,
    }
}

} // verus!
