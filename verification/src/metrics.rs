//! The five phases of an execution and the time that each took.

use vstd::prelude::*;
use vstd::string::*;

verus! {

/// A named stretch of one request's lifetime, in the order in which they run.
#[derive(Debug, Clone, Copy, PartialEq, Eq, Structural)]
pub enum Phase {
    Prepare,
    DnsLookup,
    TcpHandshake,
    ResponseTime,
    Process,
}

impl Phase {
    /// The place of the phase in the fixed sequence, from 0.
    pub open spec fn index(self) -> int {
        match self {
            Phase::Prepare => 0,
            Phase::DnsLookup => 1,
            Phase::TcpHandshake => 2,
            Phase::ResponseTime => 3,
            Phase::Process => 4,
        }
    }

    /// The marker by which the metrics name the phase.
    pub open spec fn marker_text(self) -> Seq<char> {
        match self {
            Phase::Prepare => "prepare"@,
            Phase::DnsLookup => "dns_lookup"@,
            Phase::TcpHandshake => "tcp_handshake"@,
            Phase::ResponseTime => "response_time"@,
            Phase::Process => "process"@,
        }
    }

    /// The marker by which the metrics name the phase.
    pub fn marker(&self) -> (s: String)
        ensures
            s@ == self.marker_text(),
    {
        match self {
            Phase::Prepare => String::from_str("prepare"),
            Phase::DnsLookup => String::from_str("dns_lookup"),
            Phase::TcpHandshake => String::from_str("tcp_handshake"),
            Phase::ResponseTime => String::from_str("response_time"),
            Phase::Process => String::from_str("process"),
        }
    }
}

/// The marker of an execution that failed in the given phase, or of one that
/// did not fail.
pub open spec fn marker_of(failed: Option<Phase>) -> Seq<char> {
    match failed {
        Some(p) => p.marker_text(),
        None => "none"@,
    }
}

/// The phase that a marker names, if it names one.
pub open spec fn phase_named(marker: Seq<char>) -> Option<Phase> {
    if marker == "prepare"@ {
        Some(Phase::Prepare)
    } else if marker == "dns_lookup"@ {
        Some(Phase::DnsLookup)
    } else if marker == "tcp_handshake"@ {
        Some(Phase::TcpHandshake)
    } else if marker == "response_time"@ {
        Some(Phase::ResponseTime)
    } else if marker == "process"@ {
        Some(Phase::Process)
    } else {
        None
    }
}

/// No two of the six markers are the same text: a marker names what it was
/// made from.
pub proof fn lemma_markers_differ(failed: Option<Phase>)
    ensures
        phase_named(marker_of(failed)) == failed,
{
    reveal_strlit("none");
    reveal_strlit("prepare");
    reveal_strlit("dns_lookup");
    reveal_strlit("tcp_handshake");
    reveal_strlit("response_time");
    reveal_strlit("process");
    assert("none"@.len() == 4);
    assert("prepare"@.len() == 7 && "prepare"@[2] == 'e');
    assert("process"@.len() == 7 && "process"@[2] == 'o');
    assert("dns_lookup"@.len() == 10);
    assert("tcp_handshake"@.len() == 13 && "tcp_handshake"@[0] == 't');
    assert("response_time"@.len() == 13 && "response_time"@[0] == 'r');
}

/// The time that each phase took, in whole microseconds, and the marker of
/// the phase that failed. A phase that did not run stands at zero.
#[derive(Debug, Clone)]
pub struct HttpMetrics {
    pub prepare: u64,
    pub dns_lookup: u64,
    pub tcp_handshake: u64,
    pub response_time: u64,
    pub process: u64,
    pub on_error: String,
}

impl HttpMetrics {
    /// The time recorded for a phase.
    pub open spec fn timing(&self, phase: Phase) -> u64 {
        match phase {
            Phase::Prepare => self.prepare,
            Phase::DnsLookup => self.dns_lookup,
            Phase::TcpHandshake => self.tcp_handshake,
            Phase::ResponseTime => self.response_time,
            Phase::Process => self.process,
        }
    }

    /// Every phase whose place in the sequence is `from` or later stands at
    /// zero.
    pub open spec fn zero_from(&self, from: int) -> bool {
        &&& (from <= 0 ==> self.prepare == 0)
        &&& (from <= 1 ==> self.dns_lookup == 0)
        &&& (from <= 2 ==> self.tcp_handshake == 0)
        &&& (from <= 3 ==> self.response_time == 0)
        &&& (from <= 4 ==> self.process == 0)
    }

    /// The phase that the marker names, if it names one.
    pub open spec fn failed_in(&self) -> Option<Phase> {
        phase_named(self.on_error@)
    }

    /// The invariant: the marker is `none` or the name of a phase, and every
    /// phase after a named one stands at zero.
    pub open spec fn wf(&self) -> bool {
        &&& self.on_error@ == marker_of(self.failed_in())
        &&& self.failed_in() is Some ==> self.zero_from(self.failed_in()->0.index() + 1)
    }

    /// The metrics at entry: every phase at zero, the marker `none`.
    pub fn new() -> (m: HttpMetrics)
        ensures
            m.wf(),
            m.zero_from(0),
            m.on_error@ == "none"@,
            m.failed_in() is None,
    {
        proof {
            lemma_markers_differ(None);
        }
        HttpMetrics {
            prepare: 0,
            dns_lookup: 0,
            tcp_handshake: 0,
            response_time: 0,
            process: 0,
            on_error: String::from_str("none"),
        }
    }

    /// The phase that the marker names, if it names one.
    pub fn failed_phase(&self) -> (r: Option<Phase>)
        ensures
            r == self.failed_in(),
    {
        if self.on_error == String::from_str("prepare") {
            Some(Phase::Prepare)
        } else if self.on_error == String::from_str("dns_lookup") {
            Some(Phase::DnsLookup)
        } else if self.on_error == String::from_str("tcp_handshake") {
            Some(Phase::TcpHandshake)
        } else if self.on_error == String::from_str("response_time") {
            Some(Phase::ResponseTime)
        } else if self.on_error == String::from_str("process") {
            Some(Phase::Process)
        } else {
            None
        }
    }

    /// The time recorded for a phase.
    pub fn get(&self, phase: Phase) -> (t: u64)
        ensures
            t == self.timing(phase),
    {
        match phase {
            Phase::Prepare => self.prepare,
            Phase::DnsLookup => self.dns_lookup,
            Phase::TcpHandshake => self.tcp_handshake,
            Phase::ResponseTime => self.response_time,
            Phase::Process => self.process,
        }
    }

    /// Sets the time of one phase and leaves the rest as it was.
    pub fn record(&mut self, phase: Phase, elapsed: u64)
        ensures
            final(self).timing(phase) == elapsed,
            forall|q: Phase| q != phase ==> final(self).timing(q) == old(self).timing(q),
            final(self).on_error == old(self).on_error,
    {
        match phase {
            Phase::Prepare => {
                self.prepare = elapsed;
            },
            Phase::DnsLookup => {
                self.dns_lookup = elapsed;
            },
            Phase::TcpHandshake => {
                self.tcp_handshake = elapsed;
            },
            Phase::ResponseTime => {
                self.response_time = elapsed;
            },
            Phase::Process => {
                self.process = elapsed;
            },
        }
    }

    /// Records that `phase` failed after `elapsed` microseconds.
    pub fn fail(&mut self, phase: Phase, elapsed: u64)
        requires
            old(self).zero_from(phase.index() + 1),
        ensures
            final(self).wf(),
            final(self).failed_in() == Some(phase),
            final(self).on_error@ == phase.marker_text(),
            final(self).timing(phase) == elapsed,
            forall|q: Phase| q != phase ==> final(self).timing(q) == old(self).timing(q),
    {
        proof {
            lemma_markers_differ(Some(phase));
        }
        self.record(phase, elapsed);
        proof {
            assert(self.timing(Phase::Prepare) == self.prepare);
            assert(self.timing(Phase::DnsLookup) == self.dns_lookup);
            assert(self.timing(Phase::TcpHandshake) == self.tcp_handshake);
            assert(self.timing(Phase::ResponseTime) == self.response_time);
            assert(self.timing(Phase::Process) == self.process);
        }
        self.on_error = phase.marker();
    }
}

} // verus!
