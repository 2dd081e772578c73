use vstd::prelude::*;
use vstd::string::StringExecFns;

use crate::message::{error_text, message_for, message_for_draw, random_message, success_text};

verus! {

/// How many unconsumed messages a source's channel holds before a send waits.
pub const CHANNEL_CAPACITY: usize = 10;

/// Seconds between two ticks of a source.
pub const SOURCE_TICK_SECS: u64 = 2;

/// The line a source logs when its channel turns out to be closed.
pub open spec fn closed_notice_text(name: Seq<char>) -> Seq<char> {
    name + " channel closed"@
}

/// A simulated data source: at each tick it emits one message onto its
/// channel, until a send fails because nobody receives any more. Once
/// stopped it stays stopped: there is no retry.
pub struct Source {
    pub name: String,
    pub running: bool,
}

impl Source {
    /// A running source named `name`.
    pub fn new(name: &str) -> (r: Source)
        ensures
            r.name@ == name@,
            r.running,
    {
        Source { name: name.to_owned(), running: true }
    }

    /// Whether the source still emits messages.
    pub fn is_running(&self) -> (r: bool)
        ensures
            r == self.running,
    {
        self.running
    }

    /// The message to send at a tick whose random draw was `draw`.
    pub fn on_tick_with_draw(&self, draw: u32) -> (msg: String)
        requires
            self.running,
        ensures
            msg@ == message_for(self.name@, draw),
    {
        message_for_draw(self.name.as_str(), draw)
    }

    /// The message to send at a tick, its outcome drawn at random.
    pub fn on_tick(&self) -> (msg: String)
        requires
            self.running,
        ensures
            msg@ == success_text(self.name@) || msg@ == error_text(self.name@),
    {
        random_message(self.name.as_str())
    }

    /// Takes in whether the message of this tick reached the channel. A
    /// delivered message keeps the source running; a failed send stops it for
    /// good and yields the notice to log.
    pub fn on_send_result(&mut self, delivered: bool) -> (notice: Option<String>)
        requires
            old(self).running,
        ensures
            final(self).name@ == old(self).name@,
            final(self).running == delivered,
            delivered ==> notice is None,
            !delivered ==> notice is Some && notice->0@ == closed_notice_text(old(self).name@),
    {
        if delivered {
            None
        } else {
            self.running = false;
            let mut line = self.name.clone();
            line.append(" channel closed");
            Some(line)
        }
    }
}

} // verus!
