use vstd::prelude::*;
use vstd::string::StringExecFns;

verus! {

/// The two channels that the dispatch loop listens to.
#[derive(Clone, Copy, Debug, PartialEq, Eq, Structural)]
pub enum Origin {
    First,
    Second,
}

/// The name of the source that feeds each channel.
pub open spec fn origin_name_text(from: Origin) -> Seq<char> {
    match from {
        Origin::First => "Source1"@,
        Origin::Second => "Source2"@,
    }
}

/// The line logged for `msg` received from `from`. The first channel's line
/// carries a "[*] " mark and the second's does not.
pub open spec fn receipt_text(from: Origin, msg: Seq<char>) -> Seq<char> {
    match from {
        Origin::First => "[*] Received from Source1: \t"@ + msg,
        Origin::Second => "Received from Source2: \t"@ + msg,
    }
}

/// The name of the source that feeds channel `from`.
pub fn origin_name(from: Origin) -> (r: &'static str)
    ensures
        r@ == origin_name_text(from),
{
    match from {
        Origin::First => "Source1",
        Origin::Second => "Source2",
    }
}

/// The line to log for the message `msg` received from channel `from`.
pub fn receipt_line(from: Origin, msg: &str) -> (r: String)
    ensures
        r@ == receipt_text(from, msg@),
{
    let mut line = match from {
        Origin::First => "[*] Received from Source1: \t".to_owned(),
        Origin::Second => "Received from Source2: \t".to_owned(),
    };
    line.append(msg);
    line
}

/// Which channels the dispatch loop still listens to. The loop ends once
/// both are closed.
pub struct Dispatcher {
    pub first_open: bool,
    pub second_open: bool,
}

impl Dispatcher {
    /// Whether channel `from` is still listened to.
    pub open spec fn spec_is_open(&self, from: Origin) -> bool {
        match from {
            Origin::First => self.first_open,
            Origin::Second => self.second_open,
        }
    }

    /// Whether both channels are closed, so that nothing is left to wait for.
    pub open spec fn spec_is_finished(&self) -> bool {
        !self.first_open && !self.second_open
    }

    /// Listens to both channels.
    pub fn new() -> (r: Dispatcher)
        ensures
            r.spec_is_open(Origin::First),
            r.spec_is_open(Origin::Second),
            !r.spec_is_finished(),
    {
        Dispatcher { first_open: true, second_open: true }
    }

    /// Whether channel `from` is still listened to.
    pub fn is_open(&self, from: Origin) -> (r: bool)
        ensures
            r == self.spec_is_open(from),
    {
        match from {
            Origin::First => self.first_open,
            Origin::Second => self.second_open,
        }
    }

    /// Takes in that channel `from` has closed: it is no longer listened to,
    /// the other stays as it was, and the result tells whether the loop ends.
    pub fn on_closed(&mut self, from: Origin) -> (finished: bool)
        ensures
            !final(self).spec_is_open(from),
            forall|o: Origin| o != from ==> final(self).spec_is_open(o) == old(self).spec_is_open(o),
            finished == final(self).spec_is_finished(),
    {
        match from {
            Origin::First => self.first_open = false,
            Origin::Second => self.second_open = false,
        }
        !self.first_open && !self.second_open
    }
}

} // verus!
