//! First-class signals — Unix semantics over Kubernetes objects.
//!
//! Signals are delivered via annotation or via a tool call; the
//! reconciler consumes them, enqueues them on the status signal queue,
//! and drains them in phase order.

use crate::phase::ProcessPhase;
use crate::text::{
    ascii_upper, lemma_seq_eq_short, lemma_upper_fixed_short, owned, str_eq, to_ascii_uppercase,
};
use vstd::prelude::*;

verus! {

/// The first-class signals the controller honors.
#[derive(Clone, Copy, Debug, PartialEq, Eq, Hash, Structural)]
pub enum ProcessSignal {
    /// Reconfigure — re-enter Execing without termination.
    Sighup,
    /// Graceful terminate — finalizer path with children draining first.
    Sigterm,
    /// Force terminate — zero grace period on all owned resources.
    Sigkill,
    /// Force re-attestation without spec change.
    Sigusr1,
    /// Force remediation.
    Sigusr2,
    /// Pause reconciliation.
    Sigstop,
    /// Resume reconciliation after SIGSTOP.
    Sigcont,
}

/// A signal name outside the closed set; carries the upper-cased input.
#[derive(Clone, Debug, PartialEq, Eq)]
pub struct UnknownSignal(pub String);

impl ProcessSignal {
    /// Every signal, in declaration order.
    pub const ALL: [ProcessSignal; 7] = [
        ProcessSignal::Sighup,
        ProcessSignal::Sigterm,
        ProcessSignal::Sigkill,
        ProcessSignal::Sigusr1,
        ProcessSignal::Sigusr2,
        ProcessSignal::Sigstop,
        ProcessSignal::Sigcont,
    ];

    /// The canonical name, `SIG` followed by the short name.
    pub open spec fn label(self) -> Seq<char> {
        match self {
            ProcessSignal::Sighup => "SIGHUP"@,
            ProcessSignal::Sigterm => "SIGTERM"@,
            ProcessSignal::Sigkill => "SIGKILL"@,
            ProcessSignal::Sigusr1 => "SIGUSR1"@,
            ProcessSignal::Sigusr2 => "SIGUSR2"@,
            ProcessSignal::Sigstop => "SIGSTOP"@,
            ProcessSignal::Sigcont => "SIGCONT"@,
        }
    }

    /// The short alias (the canonical name without `SIG`).
    pub open spec fn short_label(self) -> Seq<char> {
        match self {
            ProcessSignal::Sighup => "HUP"@,
            ProcessSignal::Sigterm => "TERM"@,
            ProcessSignal::Sigkill => "KILL"@,
            ProcessSignal::Sigusr1 => "USR1"@,
            ProcessSignal::Sigusr2 => "USR2"@,
            ProcessSignal::Sigstop => "STOP"@,
            ProcessSignal::Sigcont => "CONT"@,
        }
    }

    /// The first signal, in `ALL` order, whose canonical or short name
    /// is exactly `u`.
    pub open spec fn from_upper(u: Seq<char>) -> Option<ProcessSignal> {
        if u == ProcessSignal::Sighup.label() || u == ProcessSignal::Sighup.short_label() {
            Some(ProcessSignal::Sighup)
        } else if u == ProcessSignal::Sigterm.label() || u == ProcessSignal::Sigterm.short_label() {
            Some(ProcessSignal::Sigterm)
        } else if u == ProcessSignal::Sigkill.label() || u == ProcessSignal::Sigkill.short_label() {
            Some(ProcessSignal::Sigkill)
        } else if u == ProcessSignal::Sigusr1.label() || u == ProcessSignal::Sigusr1.short_label() {
            Some(ProcessSignal::Sigusr1)
        } else if u == ProcessSignal::Sigusr2.label() || u == ProcessSignal::Sigusr2.short_label() {
            Some(ProcessSignal::Sigusr2)
        } else if u == ProcessSignal::Sigstop.label() || u == ProcessSignal::Sigstop.short_label() {
            Some(ProcessSignal::Sigstop)
        } else if u == ProcessSignal::Sigcont.label() || u == ProcessSignal::Sigcont.short_label() {
            Some(ProcessSignal::Sigcont)
        } else {
            None
        }
    }

    /// Canonical `SIG*` name.
    pub fn as_str(self) -> (s: &'static str)
        ensures
            s@ == self.label(),
    {
        match self {
            ProcessSignal::Sighup => "SIGHUP",
            ProcessSignal::Sigterm => "SIGTERM",
            ProcessSignal::Sigkill => "SIGKILL",
            ProcessSignal::Sigusr1 => "SIGUSR1",
            ProcessSignal::Sigusr2 => "SIGUSR2",
            ProcessSignal::Sigstop => "SIGSTOP",
            ProcessSignal::Sigcont => "SIGCONT",
        }
    }

    /// The short alias accepted by the parser (`HUP`, `TERM`, …).
    pub fn short_str(self) -> (s: &'static str)
        ensures
            s@ == self.short_label(),
    {
        match self {
            ProcessSignal::Sighup => "HUP",
            ProcessSignal::Sigterm => "TERM",
            ProcessSignal::Sigkill => "KILL",
            ProcessSignal::Sigusr1 => "USR1",
            ProcessSignal::Sigusr2 => "USR2",
            ProcessSignal::Sigstop => "STOP",
            ProcessSignal::Sigcont => "CONT",
        }
    }

    /// The canonical name as an owned string (the text form of the signal).
    pub fn to_string(self) -> (s: String)
        ensures
            s@ == self.label(),
    {
        owned(self.as_str())
    }

    /// Parse a signal name: the input is ASCII upper-cased, then matched
    /// against the canonical and the short name of each signal in turn.
    /// A miss reports the upper-cased input.
    pub fn parse(s: &str) -> (r: Result<ProcessSignal, UnknownSignal>)
        ensures
            match r {
                Ok(sig) => ProcessSignal::from_upper(ascii_upper(s@)) == Some(sig),
                Err(e) => ProcessSignal::from_upper(ascii_upper(s@)) is None && e.0@
                    == ascii_upper(s@),
            },
    {
        let upper = to_ascii_uppercase(s);
        let u = upper.as_str();
        if str_eq(u, "SIGHUP") || str_eq(u, "HUP") {
            Ok(ProcessSignal::Sighup)
        } else if str_eq(u, "SIGTERM") || str_eq(u, "TERM") {
            Ok(ProcessSignal::Sigterm)
        } else if str_eq(u, "SIGKILL") || str_eq(u, "KILL") {
            Ok(ProcessSignal::Sigkill)
        } else if str_eq(u, "SIGUSR1") || str_eq(u, "USR1") {
            Ok(ProcessSignal::Sigusr1)
        } else if str_eq(u, "SIGUSR2") || str_eq(u, "USR2") {
            Ok(ProcessSignal::Sigusr2)
        } else if str_eq(u, "SIGSTOP") || str_eq(u, "STOP") {
            Ok(ProcessSignal::Sigstop)
        } else if str_eq(u, "SIGCONT") || str_eq(u, "CONT") {
            Ok(ProcessSignal::Sigcont)
        } else {
            Err(UnknownSignal(upper))
        }
    }
}

impl core::str::FromStr for ProcessSignal {
    type Err = UnknownSignal;

    fn from_str(s: &str) -> (r: Result<ProcessSignal, UnknownSignal>)
        ensures
            match r {
                Ok(sig) => ProcessSignal::from_upper(ascii_upper(s@)) == Some(sig),
                Err(e) => ProcessSignal::from_upper(ascii_upper(s@)) is None && e.0@
                    == ascii_upper(s@),
            },
    {
        ProcessSignal::parse(s)
    }
}

/// How a Process handles SIGHUP.
#[derive(Clone, Copy, Debug, PartialEq, Eq, Hash, Structural)]
pub enum SighupStrategy {
    /// Running → Reconverging → Execing without tearing down resources.
    Reconverge,
    /// Running → Exiting → Reaped → Pending (full respawn).
    Restart,
    /// Ignore the signal.
    Noop,
}

/// A strategy label outside the closed set; carries the input verbatim.
#[derive(Clone, Debug, PartialEq, Eq)]
pub struct UnknownSighupStrategy(pub String);

impl Default for SighupStrategy {
    fn default() -> (s: Self)
        ensures
            s == SighupStrategy::Reconverge,
    {
        SighupStrategy::Reconverge
    }
}

impl SighupStrategy {
    /// Every strategy, in declaration order.
    pub const ALL: [SighupStrategy; 3] = [
        SighupStrategy::Reconverge,
        SighupStrategy::Restart,
        SighupStrategy::Noop,
    ];

    /// Canonical PascalCase wire label.
    pub open spec fn label(self) -> Seq<char> {
        match self {
            SighupStrategy::Reconverge => "Reconverge"@,
            SighupStrategy::Restart => "Restart"@,
            SighupStrategy::Noop => "Noop"@,
        }
    }

    /// The strategy whose label is `s`, if any.
    pub open spec fn from_label(s: Seq<char>) -> Option<SighupStrategy> {
        if s == SighupStrategy::Reconverge.label() {
            Some(SighupStrategy::Reconverge)
        } else if s == SighupStrategy::Restart.label() {
            Some(SighupStrategy::Restart)
        } else if s == SighupStrategy::Noop.label() {
            Some(SighupStrategy::Noop)
        } else {
            None
        }
    }

    /// The phase SIGHUP moves a running Process to under this strategy.
    pub open spec fn target(self) -> Option<ProcessPhase> {
        match self {
            SighupStrategy::Reconverge => Some(ProcessPhase::Reconverging),
            SighupStrategy::Restart => Some(ProcessPhase::Exiting),
            SighupStrategy::Noop => None,
        }
    }

    /// Canonical PascalCase wire label.
    pub fn as_str(self) -> (s: &'static str)
        ensures
            s@ == self.label(),
    {
        match self {
            SighupStrategy::Reconverge => "Reconverge",
            SighupStrategy::Restart => "Restart",
            SighupStrategy::Noop => "Noop",
        }
    }

    /// The label as an owned string (the text form of the strategy).
    pub fn to_string(self) -> (s: String)
        ensures
            s@ == self.label(),
    {
        owned(self.as_str())
    }

    /// The phase the reconciler moves a running Process to on SIGHUP;
    /// `None` for the no-op strategy.
    pub fn sighup_target(self) -> (t: Option<ProcessPhase>)
        ensures
            t == self.target(),
    {
        match self {
            SighupStrategy::Reconverge => Some(ProcessPhase::Reconverging),
            SighupStrategy::Restart => Some(ProcessPhase::Exiting),
            SighupStrategy::Noop => None,
        }
    }

    /// Parse a label (exact, case-sensitive); anything else is rejected
    /// verbatim.
    pub fn parse_label(s: &str) -> (r: Result<SighupStrategy, UnknownSighupStrategy>)
        ensures
            match r {
                Ok(p) => SighupStrategy::from_label(s@) == Some(p),
                Err(e) => SighupStrategy::from_label(s@) is None && e.0@ == s@,
            },
    {
        if str_eq(s, "Reconverge") {
            Ok(SighupStrategy::Reconverge)
        } else if str_eq(s, "Restart") {
            Ok(SighupStrategy::Restart)
        } else if str_eq(s, "Noop") {
            Ok(SighupStrategy::Noop)
        } else {
            Err(UnknownSighupStrategy(owned(s)))
        }
    }
}

impl core::str::FromStr for SighupStrategy {
    type Err = UnknownSighupStrategy;

    fn from_str(s: &str) -> (r: Result<SighupStrategy, UnknownSighupStrategy>)
        ensures
            match r {
                Ok(p) => SighupStrategy::from_label(s@) == Some(p),
                Err(e) => SighupStrategy::from_label(s@) is None && e.0@ == s@,
            },
    {
        SighupStrategy::parse_label(s)
    }
}

/// Every canonical signal name is `SIG` followed by the short name; the
/// canonical names are pairwise distinct, the short names are pairwise
/// distinct, and no canonical name is a short name.
#[verifier::rlimit(50)]
pub proof fn law_signal_names(p: ProcessSignal, q: ProcessSignal)
    ensures
        p.label() == "SIG"@ + p.short_label(),
        p.label() == q.label() ==> p == q,
        p.short_label() == q.short_label() ==> p == q,
        p.label() != q.short_label(),
{
    reveal_strlit("SIG");
    reveal_strlit("SIGHUP");
    reveal_strlit("SIGTERM");
    reveal_strlit("SIGKILL");
    reveal_strlit("SIGUSR1");
    reveal_strlit("SIGUSR2");
    reveal_strlit("SIGSTOP");
    reveal_strlit("SIGCONT");
    reveal_strlit("HUP");
    reveal_strlit("TERM");
    reveal_strlit("KILL");
    reveal_strlit("USR1");
    reveal_strlit("USR2");
    reveal_strlit("STOP");
    reveal_strlit("CONT");
    lemma_seq_eq_short(p.label(), "SIG"@ + p.short_label());
    if p != q {
        assert(p.label()[3] != q.label()[3] || p.label()[4] != q.label()[4] || p.label()[6]
            != q.label()[6]);
        assert(p.short_label()[0] != q.short_label()[0] || p.short_label()[1]
            != q.short_label()[1] || p.short_label()[3] != q.short_label()[3]);
    }
    assert(p.label().len() != q.short_label().len());
}

/// Parsing a signal's canonical name or its short alias gives the
/// signal back.
pub proof fn law_signal_round_trip(sig: ProcessSignal)
    ensures
        ProcessSignal::from_upper(ascii_upper(sig.label())) == Some(sig),
        ProcessSignal::from_upper(ascii_upper(sig.short_label())) == Some(sig),
{
    reveal_strlit("SIGHUP");
    reveal_strlit("SIGTERM");
    reveal_strlit("SIGKILL");
    reveal_strlit("SIGUSR1");
    reveal_strlit("SIGUSR2");
    reveal_strlit("SIGSTOP");
    reveal_strlit("SIGCONT");
    reveal_strlit("HUP");
    reveal_strlit("TERM");
    reveal_strlit("KILL");
    reveal_strlit("USR1");
    reveal_strlit("USR2");
    reveal_strlit("STOP");
    reveal_strlit("CONT");
    lemma_upper_fixed_short(sig.label());
    lemma_upper_fixed_short(sig.short_label());
    assert forall|q: ProcessSignal| #[trigger] q.label() == sig.label() implies q == sig by {
        law_signal_names(q, sig);
    }
    assert forall|q: ProcessSignal| #[trigger] q.short_label() == sig.short_label() implies q
        == sig by {
        law_signal_names(q, sig);
    }
    assert forall|q: ProcessSignal| #[trigger] q.short_label() != sig.label() by {
        law_signal_names(sig, q);
    }
    assert forall|q: ProcessSignal| #[trigger] q.label() != sig.short_label() by {
        law_signal_names(q, sig);
    }
}

/// The strategy labels are pairwise distinct and round-trip through the
/// parser.
pub proof fn law_sighup_strategy_labels(p: SighupStrategy, q: SighupStrategy, s: Seq<char>)
    ensures
        p.label() == q.label() ==> p == q,
        SighupStrategy::from_label(p.label()) == Some(p),
        SighupStrategy::from_label(s) matches Some(r) ==> r.label() == s,
        SighupStrategy::from_label(Seq::<char>::empty()) is None,
{
    reveal_strlit("Reconverge");
    reveal_strlit("Restart");
    reveal_strlit("Noop");
    assert(Seq::<char>::empty().len() == 0);
    if p != q {
        assert(p.label().len() != q.label().len() || p.label()[2] != q.label()[2]);
    }
    assert(SighupStrategy::Reconverge.label().len() == 10);
    assert(SighupStrategy::Restart.label().len() == 7);
    assert(SighupStrategy::Noop.label().len() == 4);
}

/// Every SIGHUP target is a legal successor of a running phase
/// (`Running` or `Attested`), and distinct strategies with a target
/// project to distinct phases.
pub proof fn law_sighup_targets_legal(p: SighupStrategy, q: SighupStrategy)
    ensures
        p.target() matches Some(t) ==> ProcessPhase::Running.legal_transition(t)
            || ProcessPhase::Attested.legal_transition(t),
        (p.target() is Some && p.target() == q.target()) ==> p == q,
{
}

} // verus!
