//! The course of one execution: which phase runs, what its end does to the
//! metrics, and what is to be done next.

use crate::metrics::{lemma_markers_differ, HttpMetrics, Phase};
use crate::record::{
    build_error_response, build_success_response, error_debug, optional_text, success_debug,
    DecodedResponse, PostierObject,
};
use crate::types::{views_of, RequestData};
use vstd::prelude::*;

verus! {

/// Where an execution stands.
#[derive(Debug, Clone, Copy, PartialEq, Eq, Structural)]
pub enum Stage {
    Preparing,
    ResolvingDns,
    Transporting,
    ReadingBody,
    Processing,
    Done,
    Failed(Phase),
}

/// How a phase ended.
#[derive(Debug, Clone, Copy, PartialEq, Eq, Structural)]
pub enum Outcome {
    Completed,
    Failed,
}

/// What the caller of the state machine does next.
#[derive(Debug, Clone, Copy, PartialEq, Eq, Structural)]
pub enum Action {
    /// Prepare the request.
    Prepare,
    /// Look the host up.
    Resolve,
    /// Send the request and wait for the head of the response.
    Transport,
    /// Read the body to its end.
    ReadBody,
    /// Decode what came and assemble the response.
    Process,
    /// Hand out the record of a success.
    DeliverResponse,
    /// Hand out the record of a failure.
    DeliverError,
}

impl Stage {
    /// The phase that runs in this stage; none once the execution has ended.
    pub open spec fn phase(self) -> Option<Phase> {
        match self {
            Stage::Preparing => Some(Phase::Prepare),
            Stage::ResolvingDns => Some(Phase::DnsLookup),
            Stage::Transporting => Some(Phase::TcpHandshake),
            Stage::ReadingBody => Some(Phase::ResponseTime),
            Stage::Processing => Some(Phase::Process),
            Stage::Done => None,
            Stage::Failed(_) => None,
        }
    }

    /// The stage that follows when the running phase ends as `outcome` says.
    /// An execution that has ended stays where it is.
    pub open spec fn next(self, outcome: Outcome) -> Stage {
        match self.phase() {
            None => self,
            Some(p) => match outcome {
                Outcome::Failed => Stage::Failed(p),
                Outcome::Completed => match self {
                    Stage::Preparing => Stage::ResolvingDns,
                    Stage::ResolvingDns => Stage::Transporting,
                    Stage::Transporting => Stage::ReadingBody,
                    Stage::ReadingBody => Stage::Processing,
                    _ => Stage::Done,
                },
            },
        }
    }

    /// What is to be done on reaching this stage.
    pub open spec fn action(self) -> Action {
        match self {
            Stage::Preparing => Action::Prepare,
            Stage::ResolvingDns => Action::Resolve,
            Stage::Transporting => Action::Transport,
            Stage::ReadingBody => Action::ReadBody,
            Stage::Processing => Action::Process,
            Stage::Done => Action::DeliverResponse,
            Stage::Failed(_) => Action::DeliverError,
        }
    }
}

/// One execution: its stage and the metrics gathered so far.
#[derive(Debug, Clone)]
pub struct Execution {
    pub stage: Stage,
    pub metrics: HttpMetrics,
}

impl Execution {
    /// The invariant. While a phase runs, no failure is marked and neither
    /// that phase nor a later one has a time. After the last phase no
    /// failure is marked. After a failure the marker names the phase that
    /// failed, and every later phase stands at zero.
    pub open spec fn wf(&self) -> bool {
        &&& self.metrics.wf()
        &&& match self.stage {
            Stage::Failed(p) => self.metrics.failed_in() == Some(p) && self.metrics.zero_from(
                p.index() + 1,
            ),
            Stage::Done => self.metrics.failed_in() is None,
            _ => self.metrics.failed_in() is None && self.metrics.zero_from(
                self.stage.phase()->0.index(),
            ),
        }
    }

    /// An execution at entry: preparing, with fresh metrics.
    pub fn begin() -> (e: Execution)
        ensures
            e.wf(),
            e.stage == Stage::Preparing,
            e.metrics.zero_from(0),
            e.metrics.on_error@ == "none"@,
    {
        Execution { stage: Stage::Preparing, metrics: HttpMetrics::new() }
    }

    /// The running phase has ended after `elapsed` microseconds: records its
    /// time, marks it where it failed, and says what comes next. An execution
    /// that has ended is handed back as it is.
    pub fn advance(self, outcome: Outcome, elapsed: u64) -> (r: (Execution, Action))
        requires
            self.wf(),
        ensures
            r.0.wf(),
            r.0.stage == self.stage.next(outcome),
            r.1 == r.0.stage.action(),
            match self.stage.phase() {
                None => r.0 == self,
                Some(p) => {
                    &&& r.0.metrics.timing(p) == elapsed
                    &&& forall|q: Phase| q != p ==> r.0.metrics.timing(q) == self.metrics.timing(q)
                    &&& r.0.metrics.on_error@ == match outcome {
                        Outcome::Failed => p.marker_text(),
                        Outcome::Completed => "none"@,
                    }
                },
            },
    {
        let running = match self.stage {
            Stage::Preparing => Some((Phase::Prepare, Stage::ResolvingDns, Action::Resolve)),
            Stage::ResolvingDns => Some((Phase::DnsLookup, Stage::Transporting, Action::Transport)),
            Stage::Transporting => Some((Phase::TcpHandshake, Stage::ReadingBody, Action::ReadBody)),
            Stage::ReadingBody => Some((Phase::ResponseTime, Stage::Processing, Action::Process)),
            Stage::Processing => Some((Phase::Process, Stage::Done, Action::DeliverResponse)),
            Stage::Done => None,
            Stage::Failed(_) => None,
        };
        match running {
            None => {
                let action = match self.stage {
                    Stage::Done => Action::DeliverResponse,
                    _ => Action::DeliverError,
                };
                (self, action)
            },
            Some((phase, following, action)) => {
                let mut metrics = self.metrics;
                proof {
                    lemma_markers_differ(None);
                    assert(metrics.timing(Phase::Prepare) == metrics.prepare);
                    assert(metrics.timing(Phase::DnsLookup) == metrics.dns_lookup);
                    assert(metrics.timing(Phase::TcpHandshake) == metrics.tcp_handshake);
                    assert(metrics.timing(Phase::ResponseTime) == metrics.response_time);
                    assert(metrics.timing(Phase::Process) == metrics.process);
                }
                match outcome {
                    Outcome::Failed => {
                        metrics.fail(phase, elapsed);
                        proof {
                            assert(metrics.timing(Phase::Prepare) == metrics.prepare);
                            assert(metrics.timing(Phase::DnsLookup) == metrics.dns_lookup);
                            assert(metrics.timing(Phase::TcpHandshake) == metrics.tcp_handshake);
                            assert(metrics.timing(Phase::ResponseTime) == metrics.response_time);
                            assert(metrics.timing(Phase::Process) == metrics.process);
                        }
                        (Execution { stage: Stage::Failed(phase), metrics }, Action::DeliverError)
                    },
                    Outcome::Completed => {
                        metrics.record(phase, elapsed);
                        proof {
                            assert(metrics.timing(Phase::Prepare) == metrics.prepare);
                            assert(metrics.timing(Phase::DnsLookup) == metrics.dns_lookup);
                            assert(metrics.timing(Phase::TcpHandshake) == metrics.tcp_handshake);
                            assert(metrics.timing(Phase::ResponseTime) == metrics.response_time);
                            assert(metrics.timing(Phase::Process) == metrics.process);
                        }
                        (Execution { stage: following, metrics }, action)
                    },
                }
            },
        }
    }
}

/// The running phase failed after `phase_elapsed` microseconds with the
/// given diagnostic: the record of the failure. It carries the request and
/// its id, status 0, and metrics that name the phase and hold no time for
/// any later one. An execution that had ended keeps its metrics.
pub fn fail(
    execution: Execution,
    request: RequestData,
    message: String,
    phase_elapsed: u64,
    total_elapsed: u64,
    timestamp: u64,
) -> (o: PostierObject)
    requires
        execution.wf(),
    ensures
        o.request == request,
        o.response.id@ == request.id@,
        o.response.status == 0,
        o.response.status_text@ == "Error"@,
        o.response.headers is None,
        optional_text(o.response.data) == Some(message@),
        o.response.size == vstd::utf8::encode_utf8(message@).len() as usize,
        o.response.time == total_elapsed,
        o.response.timestamp == timestamp,
        o.metrics.wf(),
        match execution.stage.phase() {
            None => o.metrics == execution.metrics,
            Some(p) => {
                &&& o.metrics.on_error@ == p.marker_text()
                &&& o.metrics.timing(p) == phase_elapsed
                &&& o.metrics.zero_from(p.index() + 1)
                &&& forall|q: Phase| q != p ==> o.metrics.timing(q) == execution.metrics.timing(q)
            },
        },
        views_of(o.debug@) == error_debug(
            request.id@,
            total_elapsed,
            request.composed_url@,
            message@,
            o.metrics,
        ),
{
    let (ended, _) = execution.advance(Outcome::Failed, phase_elapsed);
    build_error_response(request, message, ended.metrics, total_elapsed, timestamp)
}

/// Processing ended after `process_elapsed` microseconds: the record of the
/// success. It carries the request and its id, the decoded response, and
/// metrics that mark no failure.
pub fn complete(
    execution: Execution,
    request: RequestData,
    url: &str,
    decoded: DecodedResponse,
    process_elapsed: u64,
    total_elapsed: u64,
    timestamp: u64,
) -> (o: PostierObject)
    requires
        execution.wf(),
        execution.stage == Stage::Processing,
    ensures
        o.request == request,
        o.response.id@ == request.id@,
        o.response.status == decoded.status,
        o.response.status_text == decoded.status_text,
        o.response.headers == Some(decoded.headers),
        o.response.data == Some(decoded.data),
        o.response.size == decoded.size,
        o.response.time == total_elapsed,
        o.response.timestamp == timestamp,
        o.metrics.wf(),
        o.metrics.on_error@ == "none"@,
        o.metrics.process == process_elapsed,
        forall|q: Phase| q != Phase::Process ==> o.metrics.timing(q) == execution.metrics.timing(q),
        views_of(o.debug@) == success_debug(
            request.id@,
            total_elapsed,
            url@,
            decoded.status,
            decoded.status_text@,
            decoded.size,
            o.metrics,
        ),
{
    let (ended, _) = execution.advance(Outcome::Completed, process_elapsed);
    assert(ended.metrics.timing(Phase::Process) == ended.metrics.process);
    build_success_response(request, url, decoded, ended.metrics, total_elapsed, timestamp)
}

/// An execution that ran to its end marks no failure, and no phase has a
/// negative time.
pub proof fn lemma_success_marks_none(e: Execution)
    requires
        e.wf(),
        e.stage == Stage::Done,
    ensures
        e.metrics.on_error@ == "none"@,
        forall|p: Phase| e.metrics.timing(p) >= 0,
{
}

/// An execution that failed in a phase is marked with that phase's name, and
/// every phase after it stands at exactly zero.
pub proof fn lemma_failure_marks_phase(e: Execution, failed: Phase)
    requires
        e.wf(),
        e.stage == Stage::Failed(failed),
    ensures
        e.metrics.on_error@ == failed.marker_text(),
        forall|p: Phase| p.index() > failed.index() ==> e.metrics.timing(p) == 0,
{
}

/// A phase that has not ended yet stands at zero: while a phase runs, that
/// phase and every later one have no time.
pub proof fn lemma_unreached_phases_are_zero(e: Execution, running: Phase)
    requires
        e.wf(),
        e.stage.phase() == Some(running),
    ensures
        forall|p: Phase| p.index() >= running.index() ==> e.metrics.timing(p) == 0,
{
}

} // verus!
