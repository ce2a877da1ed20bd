//! The event registry: at most one handler for each event code, and the
//! dispatch of events and frames to them.
use std::collections::HashMap;
use vstd::prelude::*;

use crate::codec::{decode, decode_text, decoded_view, WebsocketMessage};
use crate::error::GamerError;

verus! {

broadcast use vstd::std_specs::hash::group_hash_axioms;

pub type MessageCode = usize;

/// Game state kept by key.
pub struct Store<S> {
    states: HashMap<String, S>,
}

/// A handler bound to the code it answers.
pub struct Event<H> {
    pub code: MessageCode,
    pub handler: H,
}

/// Runs the handler bound to a code.
pub trait EventRunner: Sized {
    /// The runner is ready to run any of its events.
    spec fn ready(&self) -> bool;

    /// A handler is bound to `code`.
    spec fn runs(&self, code: MessageCode) -> bool;

    /// Runs the handler bound to `code` on `data`; a code without one is an
    /// error, and the runner is left as it was either way.
    fn run_event(&mut self, code: MessageCode, data: String) -> (r: Result<(), GamerError>)
        requires
            old(self).ready(),
        ensures
            *final(self) == *old(self),
            r == (if old(self).runs(code) {
                Ok::<(), GamerError>(())
            } else {
                Err(GamerError::UnknownEventCode(code))
            }),
    ;
}

/// The text of a reply, if there is one.
pub open spec fn reply_view(r: Option<String>) -> Option<Seq<char>> {
    match r {
        Some(s) => Some(s@),
        None => None,
    }
}

/// A handler takes any payload.
pub open spec fn takes_any_payload<H: Fn(String)>(h: H) -> bool {
    forall|d: String| #[trigger] call_requires(h, (d,))
}

/// What registering a handler for `code` returns, given the bound codes.
pub open spec fn register_result<H>(m: Map<MessageCode, Event<H>>, code: MessageCode) -> Result<(), GamerError> {
    if m.contains_key(code) {
        Err(GamerError::DuplicateEventCode(code))
    } else {
        Ok(())
    }
}

/// The bound codes after registering `handler` for `code`.
pub open spec fn registered<H>(m: Map<MessageCode, Event<H>>, code: MessageCode, handler: H) -> Map<MessageCode, Event<H>> {
    if m.contains_key(code) {
        m
    } else {
        m.insert(code, Event { code, handler })
    }
}

/// Registering a code a second time fails with `DuplicateEventCode`, whatever
/// the two handlers are.
pub proof fn lemma_register_twice_fails<H>(m: Map<MessageCode, Event<H>>, code: MessageCode, first: H, second: H)
    ensures
        register_result(registered(m, code, first), code) == Err::<(), GamerError>(GamerError::DuplicateEventCode(code)),
        registered(registered(m, code, first), code, second) == registered(m, code, first),
{
}

/// The bus: event codes and their handlers.
pub struct Gamer<H> {
    pub events: HashMap<MessageCode, Event<H>>,
}

impl<H: Fn(String)> Gamer<H> {
    /// Each entry is filed under its own code, and each handler takes any payload.
    pub open spec fn wf(&self) -> bool {
        forall|c: MessageCode| #[trigger] self.events@.contains_key(c) ==> {
            &&& self.events@[c].code == c
            &&& takes_any_payload(self.events@[c].handler)
        }
    }

    /// A bus with no handler.
    pub fn new() -> (r: Self)
        ensures
            r.wf(),
            r.events@ == Map::<MessageCode, Event<H>>::empty(),
    {
        Gamer { events: HashMap::new() }
    }

    /// Binds `handler` to `code`. A code that already has a handler keeps it,
    /// and the call fails with `DuplicateEventCode`.
    pub fn register(&mut self, code: MessageCode, handler: H) -> (r: Result<(), GamerError>)
        requires
            old(self).wf(),
            takes_any_payload(handler),
        ensures
            final(self).wf(),
            r == register_result(old(self).events@, code),
            final(self).events@ == registered(old(self).events@, code, handler),
    {
        if self.events.contains_key(&code) {
            Err(GamerError::DuplicateEventCode(code))
        } else {
            self.events.insert(code, Event { code, handler });
            Ok(())
        }
    }

    /// The entry bound to `code`, if any.
    pub fn lookup(&self, code: MessageCode) -> (r: Option<&Event<H>>)
        ensures
            r matches Some(e) ==> self.events@.contains_key(code) && *e == self.events@[code],
            r is None ==> !self.events@.contains_key(code),
    {
        self.events.get(&code)
    }

    /// Removes the entry bound to `code` and returns it, if any.
    pub fn unregister(&mut self, code: MessageCode) -> (r: Option<Event<H>>)
        requires
            old(self).wf(),
        ensures
            final(self).wf(),
            final(self).events@ == old(self).events@.remove(code),
            r matches Some(e) ==> old(self).events@.contains_key(code) && e == old(self).events@[code],
            r is None ==> !old(self).events@.contains_key(code),
    {
        self.events.remove(&code)
    }

    /// Calls the handler bound to `code` once, with `data`. A code without a
    /// handler is an `UnknownEventCode` error, and nothing is called.
    pub fn dispatch(&self, code: MessageCode, data: String) -> (r: Result<(), GamerError>)
        requires
            self.wf(),
        ensures
            r == (if self.events@.contains_key(code) {
                Ok::<(), GamerError>(())
            } else {
                Err(GamerError::UnknownEventCode(code))
            }),
            r is Ok ==> call_ensures(self.events@[code].handler, (data,), ()),
    {
        match self.events.get(&code) {
            Some(event) => {
                let ghost d = data;
                assert(call_requires(event.handler, (d,)));
                (event.handler)(data);
                Ok(())
            },
            None => Err(GamerError::UnknownEventCode(code)),
        }
    }

    /// The reply to a frame `text` whose decoding gave `decoded`: the
    /// diagnostic of a decoding error or of an unknown code, else the frame
    /// itself when `echo` is set, else nothing.
    pub open spec fn reply_for(
        &self,
        decoded: Result<(usize, Seq<char>), GamerError>,
        text: Seq<char>,
        echo: bool,
    ) -> Option<Seq<char>> {
        match decoded {
            Err(e) => Some(e.text()),
            Ok((code, _)) => if !self.events@.contains_key(code) {
                Some(GamerError::UnknownEventCode(code).text())
            } else if echo {
                Some(text)
            } else {
                None
            },
        }
    }

    /// A frame whose code has no handler is answered with the `unknown event
    /// code` diagnostic, whatever its payload and the echo setting; a frame
    /// that failed to decode is answered with its own diagnostic.
    pub proof fn lemma_undispatchable_replies(
        &self,
        code: MessageCode,
        data: Seq<char>,
        e: GamerError,
        text: Seq<char>,
        echo: bool,
    )
        ensures
            !self.events@.contains_key(code) ==> self.reply_for(Ok((code, data)), text, echo) == Some(
                "unknown event code"@,
            ),
            self.reply_for(Err(e), text, echo) == Some(e.text()),
    {
    }

    /// A frame whose text decodes to a code that has a handler gets no
    /// diagnostic: its reply is the frame itself when echo is on, and nothing
    /// otherwise.
    pub proof fn lemma_valid_frame_dispatched(&self, text: Seq<char>, echo: bool)
        requires
            decode_text(text) matches Ok((code, _)) && self.events@.contains_key(code),
        ensures
            self.reply_for(decode_text(text), text, echo) == (if echo {
                Some(text)
            } else {
                None
            }),
    {
    }

    /// Dispatches a decoded frame and returns the reply for its sender. A
    /// frame that failed to decode reaches no handler.
    pub fn handle_decoded(&self, decoded: Result<WebsocketMessage, GamerError>, text: &str, echo: bool) -> (r: Option<String>)
        requires
            self.wf(),
        ensures
            reply_view(r) == self.reply_for(decoded_view(decoded), text@, echo),
            decoded matches Ok(m) ==> (self.events@.contains_key(m.code) ==> call_ensures(
                self.events@[m.code].handler,
                (m.data,),
                (),
            )),
    {
        match decoded {
            Err(e) => Some(e.message()),
            Ok(m) => {
                let code = m.code;
                match self.dispatch(code, m.data) {
                    Err(e) => Some(e.message()),
                    Ok(()) => if echo {
                        Some(text.to_string())
                    } else {
                        None
                    },
                }
            },
        }
    }

    /// Decodes a text frame, dispatches it, and returns the reply for its
    /// sender. A frame that decodes to a bound code has its handler called
    /// once, with the decoded payload.
    pub fn handle_text_message(&self, text: &str, echo: bool) -> (r: Option<String>)
        requires
            self.wf(),
        ensures
            reply_view(r) == self.reply_for(decode_text(text@), text@, echo),
            decode_text(text@) matches Ok((code, data)) ==> (self.events@.contains_key(code) ==> exists|s: String|
                s@ == data && #[trigger] call_ensures(self.events@[code].handler, (s,), ())),
    {
        let decoded = decode(text);
        let ghost g = decoded;
        let r = self.handle_decoded(decoded, text, echo);
        proof {
            if let Ok(m) = g {
                if self.events@.contains_key(m.code) {
                    assert(call_ensures(self.events@[m.code].handler, (m.data,), ()));
                }
            }
        }
        r
    }
}

impl<H: Fn(String)> EventRunner for Gamer<H> {
    open spec fn ready(&self) -> bool {
        self.wf()
    }

    open spec fn runs(&self, code: MessageCode) -> bool {
        self.events@.contains_key(code)
    }

    fn run_event(&mut self, code: MessageCode, data: String) -> (r: Result<(), GamerError>)
        ensures
            r is Ok ==> call_ensures(old(self).events@[code].handler, (data,), ()),
    {
        self.dispatch(code, data)
    }
}

} // verus!
