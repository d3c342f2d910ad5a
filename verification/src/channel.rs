use vstd::prelude::*;
use vstd::string::StringExecFns;
use crate::channel::pong::{outcomes_of, phase_after, Delivery, Phase, Pong};

pub mod pong;

verus! {

/// The kinds of protocol message; each travels on a subject of its own.
#[derive(Clone, Copy, Debug, PartialEq, Eq, Structural)]
pub enum Channel {
    Ping,
    Pong,
    Heartbeat,
    Discover,
    Info,
    Request,
    Response,
    Event,
    Disconnect,
}

/// Why a worker could not handle a message.
#[derive(Clone, Copy, Debug, PartialEq, Eq, Structural)]
pub enum Error {
    /// The payload is not an envelope of the kind that the subject carries.
    Decode,
}

impl Channel {
    /// The fixed last part of the subject.
    pub open spec fn suffix(self) -> Seq<char> {
        match self {
            Channel::Ping => "PING"@,
            Channel::Pong => "PONG"@,
            Channel::Heartbeat => "HEARTBEAT"@,
            Channel::Discover => "DISCOVER"@,
            Channel::Info => "INFO"@,
            Channel::Request => "REQUEST"@,
            Channel::Response => "RESPONSE"@,
            Channel::Event => "EVENT"@,
            Channel::Disconnect => "DISCONNECT"@,
        }
    }

    /// The subject of this kind under `namespace`: the namespace, a dot, the suffix.
    pub open spec fn subject(self, namespace: Seq<char>) -> Seq<char> {
        namespace + "."@ + self.suffix()
    }

    /// Every kind, once.
    pub open spec fn every() -> Seq<Channel> {
        seq![
            Channel::Ping,
            Channel::Pong,
            Channel::Heartbeat,
            Channel::Discover,
            Channel::Info,
            Channel::Request,
            Channel::Response,
            Channel::Event,
            Channel::Disconnect,
        ]
    }

    fn suffix_str(&self) -> (s: &'static str)
        ensures
            s@ == self.suffix(),
    {
        match self {
            Channel::Ping => "PING",
            Channel::Pong => "PONG",
            Channel::Heartbeat => "HEARTBEAT",
            Channel::Discover => "DISCOVER",
            Channel::Info => "INFO",
            Channel::Request => "REQUEST",
            Channel::Response => "RESPONSE",
            Channel::Event => "EVENT",
            Channel::Disconnect => "DISCONNECT",
        }
    }

    /// The subject to bind for this kind of message.
    pub fn channel_to_string(&self, namespace: &str) -> (s: String)
        ensures
            s@ == self.subject(namespace@),
    {
        String::from_str(namespace).concat(".").concat(self.suffix_str())
    }

    /// Every kind, once, in the order of `every`.
    pub fn all() -> (kinds: Vec<Channel>)
        ensures
            kinds@ == Channel::every(),
    {
        let kinds = vec![
            Channel::Ping,
            Channel::Pong,
            Channel::Heartbeat,
            Channel::Discover,
            Channel::Info,
            Channel::Request,
            Channel::Response,
            Channel::Event,
            Channel::Disconnect,
        ];
        assert(kinds@ =~= Channel::every());
        kinds
    }
}

/// A subject bound for a worker: made once when the worker starts, and kept for the
/// worker's life.
#[derive(Debug)]
pub struct Binding {
    pub subject: String,
    pub worker: Channel,
}

/// How the bind of each subject ended.
pub struct Binds {
    pub ping: Result<(), std::io::Error>,
    pub pong: Result<(), std::io::Error>,
    pub heartbeat: Result<(), std::io::Error>,
    pub discover: Result<(), std::io::Error>,
    pub info: Result<(), std::io::Error>,
    pub request: Result<(), std::io::Error>,
    pub response: Result<(), std::io::Error>,
    pub event: Result<(), std::io::Error>,
    pub disconnect: Result<(), std::io::Error>,
}

impl Binds {
    /// The outcome for one kind.
    pub open spec fn of(self, kind: Channel) -> Result<(), std::io::Error> {
        match kind {
            Channel::Ping => self.ping,
            Channel::Pong => self.pong,
            Channel::Heartbeat => self.heartbeat,
            Channel::Discover => self.discover,
            Channel::Info => self.info,
            Channel::Request => self.request,
            Channel::Response => self.response,
            Channel::Event => self.event,
            Channel::Disconnect => self.disconnect,
        }
    }

    /// The place in `Channel::every()` of the first kind whose bind failed, or the
    /// number of kinds if none did.
    pub open spec fn first_failure(self) -> int {
        if self.ping is Err {
            0
        } else if self.pong is Err {
            1
        } else if self.heartbeat is Err {
            2
        } else if self.discover is Err {
            3
        } else if self.info is Err {
            4
        } else if self.request is Err {
            5
        } else if self.response is Err {
            6
        } else if self.event is Err {
            7
        } else if self.disconnect is Err {
            8
        } else {
            9
        }
    }
}

impl Binding {
    /// What making the binding of `kind` under `namespace` yields for a bind that
    /// ended as `outcome` says.
    pub open spec fn made(
        kind: Channel,
        namespace: Seq<char>,
        outcome: Result<(), std::io::Error>,
        r: Result<Binding, crate::nats::Error>,
    ) -> bool {
        match outcome {
            Ok(_) => r is Ok && r->Ok_0.worker == kind && r->Ok_0.subject@ == kind.subject(
                namespace,
            ),
            Err(cause) => r is Err && r->Err_0 is UnableToSubscribe
                && r->Err_0->UnableToSubscribe_0@ == kind.subject(namespace)
                && r->Err_0->UnableToSubscribe_1 == cause,
        }
    }

    /// Records the subject of `kind` as bound, or fails with the subject and the cause.
    pub fn new(kind: Channel, namespace: &str, outcome: Result<(), std::io::Error>) -> (r: Result<
        Binding,
        crate::nats::Error,
    >)
        ensures
            Binding::made(kind, namespace@, outcome, r),
    {
        let subject = kind.channel_to_string(namespace);
        match crate::nats::bound(subject.as_str(), outcome) {
            Ok(()) => Ok(Binding { subject, worker: kind }),
            Err(e) => Err(e),
        }
    }
}

/// The bindings of every kind under `namespace`, in the order of `Channel::every()`.
pub open spec fn binds_every(bindings: Seq<Binding>, namespace: Seq<char>) -> bool {
    &&& bindings.len() == Channel::every().len()
    &&& forall|i: int|
        0 <= i < bindings.len() ==> (#[trigger] bindings[i]).worker == Channel::every()[i]
            && bindings[i].subject@ == Channel::every()[i].subject(namespace)
}

/// The owner of the workers. Workers reach it by its hooks only, never each other.
pub struct ChannelSupervisor {
    pong: Pong,
    bindings: Vec<Binding>,
}

impl ChannelSupervisor {
    /// The worker on the liveness acknowledgments.
    pub closed spec fn pong_worker(&self) -> Pong {
        self.pong
    }

    /// The subjects that the supervisor holds bound, one for each worker.
    pub closed spec fn bound_subjects(&self) -> Seq<Binding> {
        self.bindings@
    }

    /// The full subject set under `namespace`: one subject for each kind of message.
    pub fn subjects(namespace: &str) -> (subjects: Vec<String>)
        ensures
            subjects@.len() == Channel::every().len(),
            forall|i: int| 0 <= i < subjects@.len() ==> (#[trigger] subjects@[i])@
                == Channel::every()[i].subject(namespace@),
    {
        let kinds = Channel::all();
        let mut subjects: Vec<String> = Vec::new();
        let mut i: usize = 0;
        while i < kinds.len()
            invariant
                i <= kinds@.len(),
                kinds@ == Channel::every(),
                subjects@.len() == i,
                forall|j: int| 0 <= j < i ==> (#[trigger] subjects@[j])@
                    == Channel::every()[j].subject(namespace@),
            decreases kinds.len() - i,
        {
            subjects.push(kinds[i].channel_to_string(namespace));
            i = i + 1;
        }
        subjects
    }

    /// Takes the workers on once the bind of every subject has been tried. With every
    /// subject bound the supervisor holds a binding for each kind and the liveness
    /// worker, bound and waiting. With any bind failed nothing starts: the failure is
    /// that of the first such kind, with its subject and its cause.
    pub fn start(namespace: &str, binds: Binds) -> (r: Result<ChannelSupervisor, crate::nats::Error>)
        ensures
            binds.first_failure() == Channel::every().len() ==> r is Ok && binds_every(
                r->Ok_0.bound_subjects(),
                namespace@,
            ) && r->Ok_0.pong_worker().subject() == Channel::Pong.subject(namespace@)
                && r->Ok_0.pong_worker().phase() == Phase::Subscribed,
            binds.first_failure() < Channel::every().len() ==> r is Err && Binding::made(
                Channel::every()[binds.first_failure()],
                namespace@,
                binds.of(Channel::every()[binds.first_failure()]),
                Err::<Binding, crate::nats::Error>(r->Err_0),
            ),
    {
        let mut bindings: Vec<Binding> = Vec::new();
        match Binding::new(Channel::Ping, namespace, binds.ping) {
            Ok(b) => bindings.push(b),
            Err(e) => {
                return Err(e);
            },
        }
        let pong = match Pong::new(namespace, binds.pong) {
            Ok(pong) => pong,
            Err(e) => {
                return Err(e);
            },
        };
        bindings.push(Binding { subject: Channel::Pong.channel_to_string(namespace), worker: Channel::Pong });
        match Binding::new(Channel::Heartbeat, namespace, binds.heartbeat) {
            Ok(b) => bindings.push(b),
            Err(e) => {
                return Err(e);
            },
        }
        match Binding::new(Channel::Discover, namespace, binds.discover) {
            Ok(b) => bindings.push(b),
            Err(e) => {
                return Err(e);
            },
        }
        match Binding::new(Channel::Info, namespace, binds.info) {
            Ok(b) => bindings.push(b),
            Err(e) => {
                return Err(e);
            },
        }
        match Binding::new(Channel::Request, namespace, binds.request) {
            Ok(b) => bindings.push(b),
            Err(e) => {
                return Err(e);
            },
        }
        match Binding::new(Channel::Response, namespace, binds.response) {
            Ok(b) => bindings.push(b),
            Err(e) => {
                return Err(e);
            },
        }
        match Binding::new(Channel::Event, namespace, binds.event) {
            Ok(b) => bindings.push(b),
            Err(e) => {
                return Err(e);
            },
        }
        match Binding::new(Channel::Disconnect, namespace, binds.disconnect) {
            Ok(b) => bindings.push(b),
            Err(e) => {
                return Err(e);
            },
        }
        Ok(ChannelSupervisor { pong, bindings })
    }

    /// The bindings that the supervisor holds, in the order of `Channel::every()`.
    pub fn bindings(&self) -> (bindings: &Vec<Binding>)
        ensures
            bindings@ == self.bound_subjects(),
    {
        &self.bindings
    }

    /// The hook that a worker reports an error of its own to. The answer says whether
    /// the worker is to stop: never. Nothing the supervisor owns changes.
    pub fn on_worker_error(&mut self, worker: Channel) -> (stop: bool)
        ensures
            !stop,
            *final(self) == *old(self),
    {
        false
    }

    /// The liveness worker, to look at.
    pub fn pong(&self) -> (pong: &Pong)
        ensures
            *pong == self.pong_worker(),
    {
        &self.pong
    }

    /// Passes the start-up signal on to the liveness worker, which enters its receive
    /// loop if it was bound and waiting. The answer says whether it did.
    pub fn pong_started(&mut self) -> (listening: bool)
        ensures
            final(self).bound_subjects() == old(self).bound_subjects(),
            final(self).pong_worker().subject() == old(self).pong_worker().subject(),
            listening == (old(self).pong_worker().phase() == Phase::Subscribed),
            final(self).pong_worker().phase() == if listening {
                Phase::Listening
            } else {
                old(self).pong_worker().phase()
            },
    {
        self.pong.started()
    }

    /// Passes what the liveness subject yielded on to its worker: `arrivals` in bus
    /// order, and `closed` if the stream ended behind them. The log holds the outcome
    /// of each delivery; a worker that is not listening receives nothing.
    pub fn pong_listen(&mut self, arrivals: &Vec<Delivery>, closed: bool) -> (log: Vec<
        Result<(), Error>,
    >)
        ensures
            final(self).bound_subjects() == old(self).bound_subjects(),
            final(self).pong_worker().subject() == old(self).pong_worker().subject(),
            final(self).pong_worker().phase() == phase_after(
                old(self).pong_worker().phase(),
                closed,
            ),
            old(self).pong_worker().phase() == Phase::Listening ==> log@ == outcomes_of(
                arrivals@,
            ),
            old(self).pong_worker().phase() != Phase::Listening ==> log@.len() == 0,
    {
        self.pong.listen(arrivals, closed)
    }
}

} // verus!
