use vstd::prelude::*;
use vstd::string::StringExecFns;

verus! {

/// `std::io::Error`, the cause that the bus client gives for a failed connect or bind.
/// It is carried as it came: nothing is claimed of what it holds.
#[verifier::external_type_specification]
#[verifier::external_body]
pub struct ExIoError(std::io::Error);

/// Why the bus could not be reached or a subject could not be bound.
#[derive(Debug)]
pub enum Error {
    /// The bus was unreachable or turned the credentials down.
    UnableToConnect(std::io::Error),
    /// The named subject could not be bound.
    UnableToSubscribe(String, std::io::Error),
}

/// The text of a failed connect, given the text of its cause.
pub open spec fn connect_text(cause: Seq<char>) -> Seq<char> {
    "Unable to connect to NATS: "@ + cause
}

/// The text of a failed bind of `channel`, given the text of its cause.
pub open spec fn subscribe_text(channel: Seq<char>, cause: Seq<char>) -> Seq<char> {
    "Unable to subscribe to channel ("@ + channel + "): "@ + cause
}

/// Words a failed connect whose cause reads `cause`.
pub fn describe_connect(cause: &str) -> (text: String)
    ensures
        text@ == connect_text(cause@),
{
    String::from_str("Unable to connect to NATS: ").concat(cause)
}

/// Words a failed bind of `channel` whose cause reads `cause`.
pub fn describe_subscribe(channel: &str, cause: &str) -> (text: String)
    ensures
        text@ == subscribe_text(channel@, cause@),
{
    String::from_str("Unable to subscribe to channel (").concat(channel).concat("): ").concat(cause)
}

impl Error {
    /// The failure in words: what failed, the subject where there is one, and the
    /// cause's own text behind it.
    pub fn message(&self) -> (text: String)
        ensures
            match *self {
                Error::UnableToConnect(_) => exists|cause: Seq<char>| text@ == connect_text(cause),
                Error::UnableToSubscribe(channel, _) => exists|cause: Seq<char>|
                    text@ == subscribe_text(channel@, cause),
            },
    {
        match self {
            Error::UnableToConnect(cause) => {
                let cause = cause.to_string();
                describe_connect(cause.as_str())
            },
            Error::UnableToSubscribe(channel, cause) => {
                let cause = cause.to_string();
                describe_subscribe(channel.as_str(), cause.as_str())
            },
        }
    }
}

/// How loudly a failed publish attempt is reported.
#[derive(Clone, Copy, Debug, PartialEq, Eq, Structural)]
pub enum Severity {
    Warning,
    Error,
}

/// The report of one failed publish attempt: `failures` attempts have failed so far.
#[derive(Clone, Copy, Debug, PartialEq, Eq, Structural)]
pub struct Diagnostic {
    pub severity: Severity,
    pub failures: u64,
}

/// What the sender does after one attempt.
#[derive(Clone, Copy, Debug, PartialEq, Eq, Structural)]
pub enum Step {
    /// The message was handed to the bus; the publish is over.
    Delivered,
    /// The attempt failed: report the diagnostic, then try again at once.
    Retry(Diagnostic),
}

/// The first failed attempts are warnings, every later one is an error.
pub open spec fn severity_of(failures: nat) -> Severity {
    if failures < 5 {
        Severity::Warning
    } else {
        Severity::Error
    }
}

/// The failure count after one more failure; it stops at the largest `u64`.
pub open spec fn count_failure(failures: u64) -> u64 {
    if failures < u64::MAX {
        (failures + 1) as u64
    } else {
        failures
    }
}

/// The diagnostic that the attempt bringing the count to `failures` is reported with.
pub open spec fn diagnostic_after(failures: nat) -> Diagnostic {
    Diagnostic {
        severity: severity_of(failures),
        failures: if failures <= u64::MAX { failures as u64 } else { u64::MAX },
    }
}

/// One publish in progress: how many attempts have failed so far.
pub struct Publication {
    failures: u64,
}

/// The outcome of a publish against a recorded run of attempts.
pub struct Report {
    /// Whether an attempt succeeded before the record ran out.
    pub delivered: bool,
    /// One diagnostic for each failed attempt, in order.
    pub diagnostics: Vec<Diagnostic>,
}

/// `report` is what a publish yields when its attempts succeed or fail as `attempts`
/// says, one entry per attempt, `true` for success.
pub open spec fn reports(attempts: Seq<bool>, delivered: bool, diagnostics: Seq<Diagnostic>) -> bool {
    let k = diagnostics.len() as int;
    &&& k <= attempts.len()
    &&& forall|i: int| 0 <= i < k ==> !#[trigger] attempts[i]
    &&& delivered == (k < attempts.len())
    &&& delivered ==> attempts[k]
    &&& forall|i: int| 0 <= i < k ==> #[trigger] diagnostics[i] == diagnostic_after((i + 1) as nat)
}

impl Publication {
    pub closed spec fn failures(&self) -> u64 {
        self.failures
    }

    /// A publish before its first attempt.
    pub fn new() -> (p: Publication)
        ensures
            p.failures() == 0,
    {
        Publication { failures: 0 }
    }

    /// The number of attempts that have failed so far.
    pub fn failed_attempts(&self) -> (n: u64)
        ensures
            n == self.failures(),
    {
        self.failures
    }

    /// Takes the outcome of one attempt and says what to do next. A success ends the
    /// publish; a failure is counted and reported, and asks for another attempt, without
    /// limit.
    pub fn on_result(&mut self, sent: bool) -> (step: Step)
        ensures
            sent ==> step == Step::Delivered && final(self).failures() == old(self).failures(),
            !sent ==> final(self).failures() == count_failure(old(self).failures())
                && step == Step::Retry(diagnostic_after(final(self).failures() as nat)),
    {
        if sent {
            Step::Delivered
        } else {
            if self.failures < u64::MAX {
                self.failures = self.failures + 1;
            }
            let severity = if self.failures < 5 {
                Severity::Warning
            } else {
                Severity::Error
            };
            Step::Retry(Diagnostic { severity, failures: self.failures })
        }
    }

    /// Publishes against a recorded run of attempts: tries until the first success and
    /// reports every failure on the way. Nothing after the first success is looked at.
    pub fn send(attempts: &Vec<bool>) -> (report: Report)
        ensures
            reports(attempts@, report.delivered, report.diagnostics@),
    {
        let mut publication = Publication::new();
        let mut diagnostics: Vec<Diagnostic> = Vec::new();
        let mut i: usize = 0;
        while i < attempts.len()
            invariant
                i <= attempts.len(),
                diagnostics@.len() == i,
                publication.failures() == i,
                forall|j: int| 0 <= j < i ==> !#[trigger] attempts@[j],
                forall|j: int| 0 <= j < i ==> #[trigger] diagnostics@[j] == diagnostic_after((j + 1) as nat),
            decreases attempts.len() - i,
        {
            match publication.on_result(attempts[i]) {
                Step::Delivered => {
                    return Report { delivered: true, diagnostics };
                },
                Step::Retry(diagnostic) => {
                    diagnostics.push(diagnostic);
                },
            }
            i = i + 1;
        }
        Report { delivered: false, diagnostics }
    }
}

/// A publish whose first `n` attempts fail and whose next attempt succeeds is delivered
/// after exactly `n` failures; the first four are reported as warnings, the fifth and
/// every later one as errors, each with the number of failures so far.
pub proof fn lemma_delivered_after_failures(
    attempts: Seq<bool>,
    n: nat,
    delivered: bool,
    diagnostics: Seq<Diagnostic>,
)
    requires
        n < attempts.len(),
        forall|i: int| 0 <= i < n ==> !#[trigger] attempts[i],
        attempts[n as int],
        reports(attempts, delivered, diagnostics),
    ensures
        delivered,
        diagnostics.len() == n,
        forall|i: int| 0 <= i < n && i < 4 ==> (#[trigger] diagnostics[i]).severity == Severity::Warning,
        forall|i: int| 4 <= i < n ==> (#[trigger] diagnostics[i]).severity == Severity::Error,
        forall|i: int| 0 <= i < n && i < u64::MAX ==> (#[trigger] diagnostics[i]).failures == i + 1,
{
    let k = diagnostics.len() as int;
    if k < n {
        assert(attempts[k]);
        assert(!attempts[k]);
    }
    if k > n {
        assert(!attempts[n as int]);
    }
}

/// What the one connect attempt came to: success, or the failure around its cause.
/// Nothing is tried again.
pub fn connected(outcome: Result<(), std::io::Error>) -> (r: Result<(), Error>)
    ensures
        outcome is Ok ==> r is Ok,
        outcome is Err ==> r is Err && r->Err_0 == Error::UnableToConnect(outcome->Err_0),
{
    match outcome {
        Ok(()) => Ok(()),
        Err(cause) => Err(Error::UnableToConnect(cause)),
    }
}

/// What a bind attempt on `channel` came to: success, or the failure with the subject's
/// name beside its cause.
pub fn bound(channel: &str, outcome: Result<(), std::io::Error>) -> (r: Result<(), Error>)
    ensures
        outcome is Ok ==> r is Ok,
        outcome is Err ==> r is Err && r->Err_0 is UnableToSubscribe
            && r->Err_0->UnableToSubscribe_0@ == channel@
            && r->Err_0->UnableToSubscribe_1 == outcome->Err_0,
{
    match outcome {
        Ok(()) => Ok(()),
        Err(cause) => Err(Error::UnableToSubscribe(String::from_str(channel), cause)),
    }
}

} // verus!
