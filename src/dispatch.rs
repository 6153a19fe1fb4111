//! The decisions of one call: serialize, one exchange through the connector,
//! one typed deserialization, and for a timed call a deadline. The driver
//! performs each action that a step returns and feeds back what came of it.
use crate::errors::ApiError;
use telegram_bot_raw::{HttpRequest, HttpResponse};
use vstd::prelude::*;

verus! {

/// Where a call stands.
#[derive(Clone, Copy, Debug, PartialEq, Eq, Structural)]
pub enum Phase {
    Serializing,
    AwaitingTransport,
    Deserializing,
    Done,
    Failed,
    Expired,
}

impl Phase {
    /// A settled call takes no further step.
    pub open spec fn settled(self) -> bool {
        self is Done || self is Failed || self is Expired
    }
}

/// What came of the last action, or of the clock.
pub enum Event<T> {
    /// The typed request was serialized, or failed to be.
    Serialized(Result<HttpRequest, telegram_bot_raw::Error>),
    /// The connector answered, or failed.
    Exchanged(Result<HttpResponse, ApiError>),
    /// The reply was read as the response type, or failed to be.
    Deserialized(Result<T, telegram_bot_raw::Error>),
    /// The deadline of the call has passed.
    DeadlineElapsed,
}

/// What the driver is to do next.
pub enum Action<T> {
    /// Nothing: the event does not fit where the call stands.
    Wait,
    /// Hand this wire request, with the token, to the connector.
    Exchange(HttpRequest),
    /// Read this reply as the response type.
    Deserialize(HttpResponse),
    /// The call has succeeded with this value.
    Respond(T),
    /// The call has failed with this error.
    Fail(ApiError),
    /// The deadline passed first: the call yields no answer.
    Expire,
}

/// The phase that an event leads to.
pub open spec fn next_phase<T>(p: Phase, timed: bool, e: Event<T>) -> Phase {
    match e {
        Event::Serialized(r) => if p is Serializing {
            if r is Ok { Phase::AwaitingTransport } else { Phase::Failed }
        } else {
            p
        },
        Event::Exchanged(r) => if p is AwaitingTransport {
            if r is Ok { Phase::Deserializing } else { Phase::Failed }
        } else {
            p
        },
        Event::Deserialized(r) => if p is Deserializing {
            if r is Ok { Phase::Done } else { Phase::Failed }
        } else {
            p
        },
        Event::DeadlineElapsed => if timed && !p.settled() {
            Phase::Expired
        } else {
            p
        },
    }
}

/// The action that an event calls for.
pub open spec fn next_action<T>(p: Phase, timed: bool, e: Event<T>) -> Action<T> {
    match e {
        Event::Serialized(r) => if p is Serializing {
            match r {
                Ok(q) => Action::Exchange(q),
                Err(x) => Action::Fail(ApiError::Serialize(x)),
            }
        } else {
            Action::Wait
        },
        Event::Exchanged(r) => if p is AwaitingTransport {
            match r {
                Ok(resp) => Action::Deserialize(resp),
                Err(x) => Action::Fail(x),
            }
        } else {
            Action::Wait
        },
        Event::Deserialized(r) => if p is Deserializing {
            match r {
                Ok(v) => Action::Respond(v),
                Err(x) => Action::Fail(ApiError::Deserialize(x)),
            }
        } else {
            Action::Wait
        },
        Event::DeadlineElapsed => if timed && !p.settled() {
            Action::Expire
        } else {
            Action::Wait
        },
    }
}

/// The state of one call.
pub struct Dispatch {
    phase: Phase,
    timed: bool,
}

/// What a call's state holds.
pub struct DispatchView {
    pub phase: Phase,
    pub timed: bool,
}

impl View for Dispatch {
    type V = DispatchView;

    closed spec fn view(&self) -> DispatchView {
        DispatchView { phase: self.phase, timed: self.timed }
    }
}

impl Dispatch {
    /// A call about to serialize its request; `timed` says whether it runs
    /// under a deadline.
    pub fn new(timed: bool) -> (r: Dispatch)
        ensures
            r@.phase == Phase::Serializing,
            r@.timed == timed,
    {
        Dispatch { phase: Phase::Serializing, timed }
    }

    /// Where the call stands.
    pub fn phase(&self) -> (r: Phase)
        ensures
            r == self@.phase,
    {
        self.phase
    }

    /// Whether the call runs under a deadline.
    pub fn is_timed(&self) -> (r: bool)
        ensures
            r == self@.timed,
    {
        self.timed
    }

    /// Take in one event: move to the next phase and say what to do.
    pub fn step<T>(&mut self, e: Event<T>) -> (a: Action<T>)
        ensures
            final(self)@.timed == old(self)@.timed,
            final(self)@.phase == next_phase(old(self)@.phase, old(self)@.timed, e),
            a == next_action(old(self)@.phase, old(self)@.timed, e),
    {
        match e {
            Event::Serialized(r) => {
                if self.phase != Phase::Serializing {
                    return Action::Wait;
                }
                match r {
                    Ok(q) => {
                        self.phase = Phase::AwaitingTransport;
                        Action::Exchange(q)
                    },
                    Err(x) => {
                        self.phase = Phase::Failed;
                        Action::Fail(ApiError::Serialize(x))
                    },
                }
            },
            Event::Exchanged(r) => {
                if self.phase != Phase::AwaitingTransport {
                    return Action::Wait;
                }
                match r {
                    Ok(resp) => {
                        self.phase = Phase::Deserializing;
                        Action::Deserialize(resp)
                    },
                    Err(x) => {
                        self.phase = Phase::Failed;
                        Action::Fail(x)
                    },
                }
            },
            Event::Deserialized(r) => {
                if self.phase != Phase::Deserializing {
                    return Action::Wait;
                }
                match r {
                    Ok(v) => {
                        self.phase = Phase::Done;
                        Action::Respond(v)
                    },
                    Err(x) => {
                        self.phase = Phase::Failed;
                        Action::Fail(ApiError::Deserialize(x))
                    },
                }
            },
            Event::DeadlineElapsed => {
                let settled = self.phase == Phase::Done || self.phase == Phase::Failed
                    || self.phase == Phase::Expired;
                if !self.timed || settled {
                    return Action::Wait;
                }
                self.phase = Phase::Expired;
                Action::Expire
            },
        }
    }
}

} // verus!
