//! Unix process phases — the authoritative state machine of a Process.
//!
//! Canonical transitions:
//! ```text
//! Pending → Forking → Execing → Running → Attested
//!                                       ↘ Failed
//! Attested → Reconverging → Execing                       (SIGHUP, no zombie)
//! Attested → Releasing  → Exiting → Zombie → Reaped       (export-then-SIGTERM)
//! Attested → Exiting    → Zombie → Reaped                 (no-exports SIGTERM)
//! Failed   → Releasing  → Zombie → Reaped                 (post-mortem exports)
//! Failed   → Zombie     → Reaped                          (no-exports failed)
//! Running  → Exiting    → Zombie → Reaped                 (early SIGTERM, no exports)
//! Running  → Failed                                       (non-zero exit)
//! ```

use crate::text::{owned, str_eq};
use vstd::prelude::*;

verus! {

/// The phase a Process is in.
#[derive(Clone, Copy, Debug, PartialEq, Eq, Hash, Structural)]
pub enum ProcessPhase {
    /// Admitted; PID not assigned yet.
    Pending,
    /// PID assigned; parent linked; content hash computed.
    Forking,
    /// Render phase — evaluating and emitting the workload's resources.
    Execing,
    /// Resources applied; boundary preconditions being checked.
    Running,
    /// All postconditions hold; attestation written.
    Attested,
    /// SIGHUP received or drift detected; returning to Execing.
    Reconverging,
    /// Export window — declared exports run before SIGTERM.
    Releasing,
    /// SIGTERM received; graceful shutdown; children draining.
    Exiting,
    /// Exited non-zero; awaiting reap.
    Failed,
    /// Exited; children gone; finalizer not yet released.
    Zombie,
    /// Finalizer released; garbage collection will remove the object.
    Reaped,
}

/// A phase label outside the closed set; carries the input verbatim.
#[derive(Clone, Debug, PartialEq, Eq)]
pub struct UnknownPhase(pub String);

impl Default for ProcessPhase {
    fn default() -> (p: Self)
        ensures
            p == ProcessPhase::Pending,
    {
        ProcessPhase::Pending
    }
}

impl ProcessPhase {
    /// Every phase, in declaration order.
    pub const ALL: [ProcessPhase; 11] = [
        ProcessPhase::Pending,
        ProcessPhase::Forking,
        ProcessPhase::Execing,
        ProcessPhase::Running,
        ProcessPhase::Attested,
        ProcessPhase::Reconverging,
        ProcessPhase::Releasing,
        ProcessPhase::Exiting,
        ProcessPhase::Failed,
        ProcessPhase::Zombie,
        ProcessPhase::Reaped,
    ];

    /// The canonical PascalCase wire label of the phase.
    pub open spec fn label(self) -> Seq<char> {
        match self {
            ProcessPhase::Pending => "Pending"@,
            ProcessPhase::Forking => "Forking"@,
            ProcessPhase::Execing => "Execing"@,
            ProcessPhase::Running => "Running"@,
            ProcessPhase::Attested => "Attested"@,
            ProcessPhase::Reconverging => "Reconverging"@,
            ProcessPhase::Releasing => "Releasing"@,
            ProcessPhase::Exiting => "Exiting"@,
            ProcessPhase::Failed => "Failed"@,
            ProcessPhase::Zombie => "Zombie"@,
            ProcessPhase::Reaped => "Reaped"@,
        }
    }

    /// The legal edges of the phase machine.
    pub open spec fn legal_transition(self, next: ProcessPhase) -> bool {
        match (self, next) {
            (ProcessPhase::Pending, ProcessPhase::Forking) => true,
            (ProcessPhase::Forking, ProcessPhase::Execing) => true,
            (ProcessPhase::Execing, ProcessPhase::Running) => true,
            (ProcessPhase::Execing, ProcessPhase::Failed) => true,
            (ProcessPhase::Running, ProcessPhase::Attested) => true,
            (ProcessPhase::Running, ProcessPhase::Exiting) => true,
            (ProcessPhase::Running, ProcessPhase::Failed) => true,
            (ProcessPhase::Running, ProcessPhase::Reconverging) => true,
            (ProcessPhase::Attested, ProcessPhase::Reconverging) => true,
            (ProcessPhase::Attested, ProcessPhase::Releasing) => true,
            (ProcessPhase::Attested, ProcessPhase::Exiting) => true,
            (ProcessPhase::Failed, ProcessPhase::Releasing) => true,
            (ProcessPhase::Failed, ProcessPhase::Zombie) => true,
            (ProcessPhase::Releasing, ProcessPhase::Exiting) => true,
            (ProcessPhase::Releasing, ProcessPhase::Zombie) => true,
            (ProcessPhase::Reconverging, ProcessPhase::Execing) => true,
            (ProcessPhase::Exiting, ProcessPhase::Zombie) => true,
            (ProcessPhase::Zombie, ProcessPhase::Reaped) => true,
            _ => false,
        }
    }

    /// Alive: still eligible to receive SIGHUP / SIGUSR* signals.
    pub open spec fn alive(self) -> bool {
        !(self is Zombie || self is Reaped || self is Failed)
    }

    /// The released-from annotation text a phase is encoded as.
    pub open spec fn released_from_text(self) -> Seq<char> {
        if self is Failed {
            ProcessPhase::Failed.label()
        } else {
            ProcessPhase::Attested.label()
        }
    }

    /// The terminal gate named by a released-from annotation value.
    pub open spec fn decode_released_from(s: Option<Seq<char>>) -> ProcessPhase {
        match s {
            Some(v) => if v == ProcessPhase::Failed.label() {
                ProcessPhase::Failed
            } else {
                ProcessPhase::Attested
            },
            None => ProcessPhase::Attested,
        }
    }

    /// The phase whose label is `s`, if any.
    pub open spec fn from_label(s: Seq<char>) -> Option<ProcessPhase> {
        if s == ProcessPhase::Pending.label() {
            Some(ProcessPhase::Pending)
        } else if s == ProcessPhase::Forking.label() {
            Some(ProcessPhase::Forking)
        } else if s == ProcessPhase::Execing.label() {
            Some(ProcessPhase::Execing)
        } else if s == ProcessPhase::Running.label() {
            Some(ProcessPhase::Running)
        } else if s == ProcessPhase::Attested.label() {
            Some(ProcessPhase::Attested)
        } else if s == ProcessPhase::Reconverging.label() {
            Some(ProcessPhase::Reconverging)
        } else if s == ProcessPhase::Releasing.label() {
            Some(ProcessPhase::Releasing)
        } else if s == ProcessPhase::Exiting.label() {
            Some(ProcessPhase::Exiting)
        } else if s == ProcessPhase::Failed.label() {
            Some(ProcessPhase::Failed)
        } else if s == ProcessPhase::Zombie.label() {
            Some(ProcessPhase::Zombie)
        } else if s == ProcessPhase::Reaped.label() {
            Some(ProcessPhase::Reaped)
        } else {
            None
        }
    }

    /// Canonical PascalCase wire-format projection.
    pub fn as_str(self) -> (s: &'static str)
        ensures
            s@ == self.label(),
    {
        match self {
            ProcessPhase::Pending => "Pending",
            ProcessPhase::Forking => "Forking",
            ProcessPhase::Execing => "Execing",
            ProcessPhase::Running => "Running",
            ProcessPhase::Attested => "Attested",
            ProcessPhase::Reconverging => "Reconverging",
            ProcessPhase::Releasing => "Releasing",
            ProcessPhase::Exiting => "Exiting",
            ProcessPhase::Failed => "Failed",
            ProcessPhase::Zombie => "Zombie",
            ProcessPhase::Reaped => "Reaped",
        }
    }

    /// The label as an owned string (the text form of the phase).
    pub fn to_string(self) -> (s: String)
        ensures
            s@ == self.label(),
    {
        owned(self.as_str())
    }

    /// True if the phase is the terminal sink with no further transitions.
    pub fn is_terminal(self) -> (b: bool)
        ensures
            b == (self is Reaped),
    {
        matches!(self, ProcessPhase::Reaped)
    }

    /// True if the process has reached a running state (Running or Attested).
    pub fn is_running(self) -> (b: bool)
        ensures
            b == (self is Running || self is Attested),
    {
        matches!(self, ProcessPhase::Running | ProcessPhase::Attested)
    }

    /// True if the process is still eligible to receive SIGHUP/SIGUSR*
    /// signals. `Releasing` is alive: its export Jobs are still running.
    pub fn is_alive(self) -> (b: bool)
        ensures
            b == self.alive(),
    {
        !matches!(self, ProcessPhase::Zombie | ProcessPhase::Reaped | ProcessPhase::Failed)
    }

    /// True if the process has left the alive set (`Failed | Zombie | Reaped`).
    pub fn has_exited(self) -> (b: bool)
        ensures
            b == !self.alive(),
            b == (self is Failed || self is Zombie || self is Reaped),
    {
        !self.is_alive()
    }

    /// True if the phase is the export window.
    pub fn is_releasing(self) -> (b: bool)
        ensures
            b == (self is Releasing),
    {
        matches!(self, ProcessPhase::Releasing)
    }

    /// True if the phase is a terminal-reached gate (`Attested` or `Failed`).
    pub fn is_terminal_reached(self) -> (b: bool)
        ensures
            b == (self is Attested || self is Failed),
    {
        matches!(self, ProcessPhase::Attested | ProcessPhase::Failed)
    }

    /// Wire label stamped when a Process enters `Releasing`: `"Failed"`
    /// for `Failed`, `"Attested"` for every other phase.
    pub fn released_from_label(self) -> (s: &'static str)
        ensures
            s@ == self.released_from_text(),
    {
        match self {
            ProcessPhase::Failed => ProcessPhase::Failed.as_str(),
            _ => ProcessPhase::Attested.as_str(),
        }
    }

    /// Decode a released-from annotation: only the exact label of
    /// `Failed` decodes to `Failed`; every other value (absent, empty,
    /// differently cased, unknown) decodes to `Attested`.
    pub fn parse_released_from(s: Option<&str>) -> (p: ProcessPhase)
        ensures
            p == ProcessPhase::decode_released_from(
                match s {
                    Some(v) => Some(v@),
                    None => None,
                },
            ),
    {
        match s {
            Some(v) => {
                if str_eq(v, ProcessPhase::Failed.as_str()) {
                    ProcessPhase::Failed
                } else {
                    ProcessPhase::Attested
                }
            },
            None => ProcessPhase::Attested,
        }
    }

    /// True if the phase transition `self → next` is legal.
    pub fn can_transition_to(self, next: ProcessPhase) -> (b: bool)
        ensures
            b == self.legal_transition(next),
    {
        match (self, next) {
            (ProcessPhase::Pending, ProcessPhase::Forking) => true,
            (ProcessPhase::Forking, ProcessPhase::Execing) => true,
            (ProcessPhase::Execing, ProcessPhase::Running) => true,
            (ProcessPhase::Execing, ProcessPhase::Failed) => true,
            (ProcessPhase::Running, ProcessPhase::Attested) => true,
            (ProcessPhase::Running, ProcessPhase::Exiting) => true,
            (ProcessPhase::Running, ProcessPhase::Failed) => true,
            (ProcessPhase::Running, ProcessPhase::Reconverging) => true,
            (ProcessPhase::Attested, ProcessPhase::Reconverging) => true,
            (ProcessPhase::Attested, ProcessPhase::Releasing) => true,
            (ProcessPhase::Attested, ProcessPhase::Exiting) => true,
            (ProcessPhase::Failed, ProcessPhase::Releasing) => true,
            (ProcessPhase::Failed, ProcessPhase::Zombie) => true,
            (ProcessPhase::Releasing, ProcessPhase::Exiting) => true,
            (ProcessPhase::Releasing, ProcessPhase::Zombie) => true,
            (ProcessPhase::Reconverging, ProcessPhase::Execing) => true,
            (ProcessPhase::Exiting, ProcessPhase::Zombie) => true,
            (ProcessPhase::Zombie, ProcessPhase::Reaped) => true,
            _ => false,
        }
    }

    /// Parse a wire label back to its phase (exact, case-sensitive match
    /// against the closed set); anything else is rejected verbatim.
    pub fn parse_label(s: &str) -> (r: Result<ProcessPhase, UnknownPhase>)
        ensures
            match r {
                Ok(p) => ProcessPhase::from_label(s@) == Some(p),
                Err(e) => ProcessPhase::from_label(s@) is None && e.0@ == s@,
            },
    {
        if str_eq(s, "Pending") {
            Ok(ProcessPhase::Pending)
        } else if str_eq(s, "Forking") {
            Ok(ProcessPhase::Forking)
        } else if str_eq(s, "Execing") {
            Ok(ProcessPhase::Execing)
        } else if str_eq(s, "Running") {
            Ok(ProcessPhase::Running)
        } else if str_eq(s, "Attested") {
            Ok(ProcessPhase::Attested)
        } else if str_eq(s, "Reconverging") {
            Ok(ProcessPhase::Reconverging)
        } else if str_eq(s, "Releasing") {
            Ok(ProcessPhase::Releasing)
        } else if str_eq(s, "Exiting") {
            Ok(ProcessPhase::Exiting)
        } else if str_eq(s, "Failed") {
            Ok(ProcessPhase::Failed)
        } else if str_eq(s, "Zombie") {
            Ok(ProcessPhase::Zombie)
        } else if str_eq(s, "Reaped") {
            Ok(ProcessPhase::Reaped)
        } else {
            Err(UnknownPhase(owned(s)))
        }
    }
}

impl core::str::FromStr for ProcessPhase {
    type Err = UnknownPhase;

    fn from_str(s: &str) -> (r: Result<ProcessPhase, UnknownPhase>)
        ensures
            match r {
                Ok(p) => ProcessPhase::from_label(s@) == Some(p),
                Err(e) => ProcessPhase::from_label(s@) is None && e.0@ == s@,
            },
    {
        ProcessPhase::parse_label(s)
    }
}

/// The phase machine has exactly the documented edges: the canonical
/// path Pending → Forking → Execing → Running → Attested, the failure
/// edges Execing → Failed and Running → Failed, the SIGHUP loop through
/// Reconverging, the export window Attested/Failed → Releasing →
/// Exiting/Zombie, early SIGTERM Running → Exiting, and the exit path
/// Exiting/Failed → Zombie → Reaped. No other pair is a legal transition.
pub proof fn law_transition_edges(p: ProcessPhase, q: ProcessPhase)
    ensures
        p.legal_transition(q) <==> {
            ||| (p is Pending && q is Forking)
            ||| (p is Forking && q is Execing)
            ||| (p is Execing && q is Running)
            ||| (p is Execing && q is Failed)
            ||| (p is Running && q is Attested)
            ||| (p is Running && q is Exiting)
            ||| (p is Running && q is Failed)
            ||| (p is Running && q is Reconverging)
            ||| (p is Attested && q is Reconverging)
            ||| (p is Attested && q is Releasing)
            ||| (p is Attested && q is Exiting)
            ||| (p is Failed && q is Releasing)
            ||| (p is Failed && q is Zombie)
            ||| (p is Releasing && q is Exiting)
            ||| (p is Releasing && q is Zombie)
            ||| (p is Reconverging && q is Execing)
            ||| (p is Exiting && q is Zombie)
            ||| (p is Zombie && q is Reaped)
        },
{
}

/// Each phase's wire label is its PascalCase name.
pub proof fn law_phase_wire_labels(p: ProcessPhase)
    ensures
        p is Pending ==> p.label() == "Pending"@,
        p is Forking ==> p.label() == "Forking"@,
        p is Execing ==> p.label() == "Execing"@,
        p is Running ==> p.label() == "Running"@,
        p is Attested ==> p.label() == "Attested"@,
        p is Reconverging ==> p.label() == "Reconverging"@,
        p is Releasing ==> p.label() == "Releasing"@,
        p is Exiting ==> p.label() == "Exiting"@,
        p is Failed ==> p.label() == "Failed"@,
        p is Zombie ==> p.label() == "Zombie"@,
        p is Reaped ==> p.label() == "Reaped"@,
{
}

/// The labels of the phases are pairwise distinct, and none is empty.
#[verifier::rlimit(50)]
pub proof fn law_phase_labels_distinct()
    ensures
        forall|p: ProcessPhase, q: ProcessPhase| p.label() == q.label() ==> p == q,
        forall|p: ProcessPhase| p.label().len() > 0,
{
    reveal_strlit("Pending");
    reveal_strlit("Forking");
    reveal_strlit("Execing");
    reveal_strlit("Running");
    reveal_strlit("Attested");
    reveal_strlit("Reconverging");
    reveal_strlit("Releasing");
    reveal_strlit("Exiting");
    reveal_strlit("Failed");
    reveal_strlit("Zombie");
    reveal_strlit("Reaped");
    assert forall|p: ProcessPhase, q: ProcessPhase| p.label() == q.label() implies p == q by {
        if p != q {
            assert(p.label().len() != q.label().len() || p.label()[0] != q.label()[0]
                || p.label()[1] != q.label()[1] || p.label()[2] != q.label()[2]);
        }
    }
}

/// Parsing a phase's own label gives the phase back, every parsed label
/// is the label of the phase it decodes to, and the empty string is
/// outside the closed set.
pub proof fn law_phase_label_round_trip(p: ProcessPhase, s: Seq<char>)
    ensures
        ProcessPhase::from_label(p.label()) == Some(p),
        ProcessPhase::from_label(s) matches Some(q) ==> q.label() == s,
        ProcessPhase::from_label(Seq::<char>::empty()) is None,
{
    law_phase_labels_distinct();
    assert(Seq::<char>::empty().len() == 0);
}

/// `Reaped` is a sink: no transition leaves it, and it is the only
/// terminal phase.
pub proof fn law_reaped_is_sink(next: ProcessPhase)
    ensures
        !ProcessPhase::Reaped.legal_transition(next),
{
}

/// `Releasing` can only be entered from the two terminal-reached gates.
pub proof fn law_releasing_entered_only_from_gates(p: ProcessPhase)
    ensures
        p.legal_transition(ProcessPhase::Releasing) <==> (p is Attested || p is Failed),
{
}

/// No phase is both running (Running or Attested) and exited
/// (Failed, Zombie or Reaped).
pub proof fn law_running_and_exited_disjoint(p: ProcessPhase)
    ensures
        !((p is Running || p is Attested) && !p.alive()),
{
}

/// The released-from encoder and decoder are inverse on the gates
/// {Attested, Failed}, and every encoded label decodes into a gate.
pub proof fn law_released_from_round_trip(p: ProcessPhase)
    ensures
        (p is Attested || p is Failed) ==> ProcessPhase::decode_released_from(
            Some(p.released_from_text()),
        ) == p,
        ProcessPhase::decode_released_from(Some(p.released_from_text())) is Attested
            || ProcessPhase::decode_released_from(Some(p.released_from_text())) is Failed,
{
    law_phase_labels_distinct();
}

} // verus!
