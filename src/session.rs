//! The decisions of one connection: what to send for each inbound frame and
//! each stretch of time, and when the connection winds down. The loops that
//! read, wait and write hand their events in here.
use vstd::prelude::*;

use crate::codec::decode_text;
use crate::registry::Gamer;

verus! {

/// Time units between two liveness probes.
pub const HEARTBEAT_INTERVAL: u64 = 10;

#[derive(Debug, Clone, Copy, PartialEq, Eq, Structural)]
pub enum SessionState {
    Open,
    Closing,
    Closed,
}

/// A frame that arrived, or the end of the inbound half.
#[derive(Debug)]
pub enum Inbound {
    Text(String),
    Pong,
    Close,
    Other,
    ReadFailed,
}

/// A frame to write on the outbound half.
#[derive(Debug)]
pub enum Outbound {
    Text(String),
    Ping,
}

/// The text of an outbound frame, if it is a text frame.
pub open spec fn sent_text(r: Option<Outbound>) -> Option<Seq<char>> {
    match r {
        Some(Outbound::Text(s)) => Some(s@),
        _ => None,
    }
}

pub struct Session {
    state: SessionState,
    echo: bool,
    idle: u64,
}

impl Session {
    pub closed spec fn state_spec(&self) -> SessionState {
        self.state
    }

    pub closed spec fn echo_spec(&self) -> bool {
        self.echo
    }

    /// Time units since the last probe was due.
    pub closed spec fn idle_spec(&self) -> nat {
        self.idle as nat
    }

    pub open spec fn wf(&self) -> bool {
        self.idle_spec() < HEARTBEAT_INTERVAL
    }

    /// A session on a connection just handed over; `echo` sends each
    /// dispatched frame back to its sender.
    pub fn new(echo: bool) -> (r: Session)
        ensures
            r.wf(),
            r.state_spec() == SessionState::Open,
            r.echo_spec() == echo,
            r.idle_spec() == 0,
    {
        Session { state: SessionState::Open, echo, idle: 0 }
    }

    pub fn state(&self) -> (r: SessionState)
        ensures
            r == self.state_spec(),
    {
        self.state
    }

    pub fn is_open(&self) -> (r: bool)
        ensures
            r == (self.state_spec() == SessionState::Open),
    {
        self.state == SessionState::Open
    }

    /// Handles one inbound event while the session is open: a text frame is
    /// decoded and dispatched and its reply returned, a close frame or a read
    /// error starts closing, anything else is ignored. Once the session is no
    /// longer open nothing is handled.
    pub fn on_inbound<H: Fn(String)>(&mut self, gamer: &Gamer<H>, msg: Inbound) -> (r: Option<Outbound>)
        requires
            old(self).wf(),
            gamer.wf(),
        ensures
            final(self).wf(),
            final(self).echo_spec() == old(self).echo_spec(),
            final(self).idle_spec() == old(self).idle_spec(),
            old(self).state_spec() != SessionState::Open ==> r is None && final(self).state_spec()
                == old(self).state_spec(),
            old(self).state_spec() == SessionState::Open ==> match msg {
                Inbound::Text(t) => {
                    &&& final(self).state_spec() == SessionState::Open
                    &&& (r is None || r matches Some(Outbound::Text(_)))
                    &&& sent_text(r) == gamer.reply_for(decode_text(t@), t@, old(self).echo_spec())
                    &&& decode_text(t@) matches Ok((code, data)) ==> (gamer.events@.contains_key(code)
                        ==> exists|s: String| s@ == data && #[trigger] call_ensures(gamer.events@[code].handler, (s,), ()))
                },
                Inbound::Close | Inbound::ReadFailed => {
                    &&& final(self).state_spec() == SessionState::Closing
                    &&& r is None
                },
                _ => {
                    &&& final(self).state_spec() == SessionState::Open
                    &&& r is None
                },
            },
    {
        if self.state != SessionState::Open {
            return None;
        }
        match msg {
            Inbound::Text(t) => match gamer.handle_text_message(t.as_str(), self.echo) {
                Some(reply) => Some(Outbound::Text(reply)),
                None => None,
            },
            Inbound::Close | Inbound::ReadFailed => {
                self.state = SessionState::Closing;
                None
            },
            _ => None,
        }
    }

    /// Lets `elapsed` time units pass and returns how many liveness probes
    /// fall due: one at each multiple of the interval, while the session is
    /// open.
    pub fn on_time(&mut self, elapsed: u64) -> (r: u64)
        requires
            old(self).wf(),
        ensures
            final(self).wf(),
            final(self).state_spec() == old(self).state_spec(),
            final(self).echo_spec() == old(self).echo_spec(),
            old(self).state_spec() == SessionState::Open ==> {
                &&& r == (old(self).idle_spec() + elapsed) / (HEARTBEAT_INTERVAL as int)
                &&& final(self).idle_spec() == (old(self).idle_spec() + elapsed) % (HEARTBEAT_INTERVAL as int)
            },
            old(self).state_spec() != SessionState::Open ==> r == 0 && final(self).idle_spec()
                == old(self).idle_spec(),
    {
        if self.state != SessionState::Open {
            return 0;
        }
        let rest = self.idle + elapsed % HEARTBEAT_INTERVAL;
        let due = elapsed / HEARTBEAT_INTERVAL + rest / HEARTBEAT_INTERVAL;
        self.idle = rest % HEARTBEAT_INTERVAL;
        proof {
            let i = old(self).idle as int;
            let e = elapsed as int;
            assert((i + e) / 10 == e / 10 + (i + e % 10) / 10 && (i + e) % 10 == (i + e % 10) % 10)
                by (nonlinear_arith)
                requires
                    0 <= i < 10,
                    0 <= e,
            ;
        }
        due
    }

    /// A write failed: an open session starts closing.
    pub fn on_write_failed(&mut self)
        requires
            old(self).wf(),
        ensures
            final(self).wf(),
            final(self).echo_spec() == old(self).echo_spec(),
            final(self).idle_spec() == old(self).idle_spec(),
            final(self).state_spec() == (if old(self).state_spec() == SessionState::Open {
                SessionState::Closing
            } else {
                old(self).state_spec()
            }),
    {
        if self.state == SessionState::Open {
            self.state = SessionState::Closing;
        }
    }

    /// Both loops have stopped: a closing session is closed.
    pub fn on_loops_stopped(&mut self)
        requires
            old(self).wf(),
        ensures
            final(self).wf(),
            final(self).echo_spec() == old(self).echo_spec(),
            final(self).idle_spec() == old(self).idle_spec(),
            final(self).state_spec() == (if old(self).state_spec() == SessionState::Closing {
                SessionState::Closed
            } else {
                old(self).state_spec()
            }),
    {
        if self.state == SessionState::Closing {
            self.state = SessionState::Closed;
        }
    }
}

} // verus!
