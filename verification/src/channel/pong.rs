use vstd::prelude::*;
use crate::channel::{Channel, Error};

verus! {

/// A liveness acknowledgment as it travels on the bus.
#[derive(Debug)]
pub struct PongMessage {
    pub ver: String,
    pub sender: String,
    pub id: String,
    pub time: i64,
    pub arrived: i64,
}

/// One raw message of the subject, as decoding left it.
#[derive(Debug)]
pub enum Delivery {
    /// The payload was a liveness acknowledgment.
    Record(PongMessage),
    /// The payload was something else.
    Malformed,
}

/// Where a worker stands in its life.
#[derive(Clone, Copy, Debug, PartialEq, Eq, Structural)]
pub enum Phase {
    /// Bound to its subject, not yet receiving.
    Subscribed,
    /// In its receive loop.
    Listening,
    /// The subscription has ended.
    Stopped,
}

/// What handling one delivery comes to: an acknowledgment is consumed and nothing
/// more is done with it; anything else is a decode failure.
pub open spec fn outcome_of(delivery: Delivery) -> Result<(), Error> {
    match delivery {
        Delivery::Record(_) => Ok(()),
        Delivery::Malformed => Err(Error::Decode),
    }
}

/// The outcome of each delivery of a batch, in order of arrival.
pub open spec fn outcomes_of(arrivals: Seq<Delivery>) -> Seq<Result<(), Error>> {
    arrivals.map_values(|d: Delivery| outcome_of(d))
}

/// The phase in which a receive loop leaves a worker that it found in `phase`.
pub open spec fn phase_after(phase: Phase, closed: bool) -> Phase {
    if phase == Phase::Listening && closed {
        Phase::Stopped
    } else {
        phase
    }
}

/// The worker on the subject of liveness acknowledgments.
pub struct Pong {
    subject: String,
    phase: Phase,
}

impl Pong {
    /// The subject that the worker is bound to.
    pub closed spec fn subject(&self) -> Seq<char> {
        self.subject@
    }

    pub closed spec fn phase(&self) -> Phase {
        self.phase
    }

    /// What construction yields under `namespace` for a bind that ended as `bind` says.
    pub open spec fn created(
        namespace: Seq<char>,
        bind: Result<(), std::io::Error>,
        r: Result<Pong, crate::nats::Error>,
    ) -> bool {
        match bind {
            Ok(_) => r is Ok && r->Ok_0.subject() == Channel::Pong.subject(namespace)
                && r->Ok_0.phase() == Phase::Subscribed,
            Err(cause) => r is Err && r->Err_0 is UnableToSubscribe
                && r->Err_0->UnableToSubscribe_0@ == Channel::Pong.subject(namespace)
                && r->Err_0->UnableToSubscribe_1 == cause,
        }
    }

    /// Makes the worker once the bind of its subject has been tried. A failed bind
    /// fails the construction at once, with the subject and the cause.
    pub fn new(namespace: &str, bind: Result<(), std::io::Error>) -> (r: Result<
        Pong,
        crate::nats::Error,
    >)
        ensures
            Pong::created(namespace@, bind, r),
    {
        let subject = Channel::Pong.channel_to_string(namespace);
        match crate::nats::bound(subject.as_str(), bind) {
            Ok(()) => Ok(Pong { subject, phase: Phase::Subscribed }),
            Err(e) => Err(e),
        }
    }

    pub fn subject_name(&self) -> (s: &str)
        ensures
            s@ == self.subject(),
    {
        self.subject.as_str()
    }

    pub fn current_phase(&self) -> (p: Phase)
        ensures
            p == self.phase(),
    {
        self.phase
    }

    /// The start-up signal: a bound worker enters its receive loop. The answer says
    /// whether it did.
    pub fn started(&mut self) -> (listening: bool)
        ensures
            final(self).subject() == old(self).subject(),
            listening == (old(self).phase() == Phase::Subscribed),
            final(self).phase() == if listening {
                Phase::Listening
            } else {
                old(self).phase()
            },
    {
        if self.phase == Phase::Subscribed {
            self.phase = Phase::Listening;
            true
        } else {
            false
        }
    }

    /// Handles one delivery. An acknowledgment is consumed and nothing more is done
    /// with it; anything else is a decode failure. The worker itself is untouched
    /// either way.
    pub fn handle_message(&self, msg: &Delivery) -> (r: Result<(), Error>)
        ensures
            r == outcome_of(*msg),
    {
        match msg {
            Delivery::Record(_) => Ok(()),
            Delivery::Malformed => Err(Error::Decode),
        }
    }

    /// The receive loop over what the subscription yielded: `arrivals` in bus order,
    /// and `closed` if the stream ended behind them. Each delivery is handled by
    /// itself; a failure is recorded and the loop goes on with the next. A worker
    /// that is not listening receives nothing.
    pub fn listen(&mut self, arrivals: &Vec<Delivery>, closed: bool) -> (log: Vec<Result<(), Error>>)
        ensures
            final(self).subject() == old(self).subject(),
            final(self).phase() == phase_after(old(self).phase(), closed),
            old(self).phase() == Phase::Listening ==> log@ == outcomes_of(arrivals@),
            old(self).phase() != Phase::Listening ==> log@.len() == 0,
    {
        let mut log: Vec<Result<(), Error>> = Vec::new();
        if self.phase != Phase::Listening {
            return log;
        }
        let mut i: usize = 0;
        while i < arrivals.len()
            invariant
                i <= arrivals@.len(),
                log@.len() == i,
                forall|j: int| 0 <= j < i ==> #[trigger] log@[j] == outcome_of(arrivals@[j]),
                *self == *old(self),
            decreases arrivals.len() - i,
        {
            log.push(self.handle_message(&arrivals[i]));
            i = i + 1;
        }
        assert(log@ =~= outcomes_of(arrivals@));
        if closed {
            self.phase = Phase::Stopped;
        }
        log
    }

    /// The hook for an error of the worker itself. The answer says whether the worker
    /// is to stop: never, and the worker is as it was, so it goes on receiving.
    pub fn error(&mut self) -> (stop: bool)
        ensures
            !stop,
            *final(self) == *old(self),
    {
        false
    }
}

/// A delivery that cannot be decoded stops nothing: in a batch handed to a listening
/// worker, every acknowledgment is handled whatever arrived before it, every other
/// delivery is a decode failure, and the worker is still listening afterwards.
pub proof fn lemma_malformed_is_contained(arrivals: Seq<Delivery>, i: int)
    requires
        0 <= i < arrivals.len(),
    ensures
        outcomes_of(arrivals).len() == arrivals.len(),
        arrivals[i] is Record ==> outcomes_of(arrivals)[i] is Ok,
        arrivals[i] is Malformed ==> outcomes_of(arrivals)[i] == Err::<(), Error>(Error::Decode),
        phase_after(Phase::Listening, false) == Phase::Listening,
{
}

} // verus!
