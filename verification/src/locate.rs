//! Device discovery: scanning enumerated serial interfaces for the
//! vendor/product identifier pair, polling with a bounded total timeout.
//! The caller performs the enumeration and the sleeping; the decisions
//! live here.
use vstd::prelude::*;
use vstd::arithmetic::div_mod::lemma_fundamental_div_mod;
use crate::ProtocolError;

verus! {

/// Discovery polls until the elapsed time exceeds this budget.
pub const POLL_TIMEOUT_MS: u64 = 120 * 1000;
/// Sleep between enumeration passes.
pub const POLL_PERIOD_MS: u64 = 50;
/// The vendor identifier of the ROM loader's USB-serial interface.
pub const USB_VID_CVITEK: u16 = 0x3346;
/// The product identifier of the ROM loader's USB-serial interface.
pub const USB_PID_USB_COM: u16 = 0x1000;

/// What discovery reads of one enumerated serial interface.
#[derive(Debug, Clone)]
pub struct PortInfo {
    /// The interface's name, handed back so the caller can open it.
    pub name: String,
    /// Whether the interface's transport type is USB.
    pub is_usb: bool,
    pub vid: u16,
    pub pid: u16,
}

/// Whether one interface is a candidate: USB transport and both
/// identifiers equal to the pair sought.
pub open spec fn port_matches(p: PortInfo, vid: u16, pid: u16) -> bool {
    p.is_usb && p.vid == vid && p.pid == pid
}

/// Whether any interface in one enumeration pass is a candidate.
pub open spec fn has_match(ports: Seq<PortInfo>, vid: u16, pid: u16) -> bool {
    exists|i: int| 0 <= i < ports.len() && port_matches(ports[i], vid, pid)
}

/// Scans one enumeration pass for the sought identifier pair; the first
/// match wins.
pub fn find_match(ports: &Vec<PortInfo>, vid: u16, pid: u16) -> (r: Option<usize>)
    ensures
        match r {
            Some(i) => i < ports@.len() && port_matches(ports@[i as int], vid, pid)
                && forall|j: int| 0 <= j < i ==> !port_matches(ports@[j], vid, pid),
            None => !has_match(ports@, vid, pid),
        },
{
    let mut i: usize = 0;
    while i < ports.len()
        invariant
            i <= ports@.len(),
            forall|j: int| 0 <= j < i ==> !port_matches(ports@[j], vid, pid),
        decreases ports@.len() - i,
    {
        let p = &ports[i];
        if p.is_usb && p.vid == vid && p.pid == pid {
            return Some(i);
        }
        i = i + 1;
    }
    None
}

/// One enumeration outcome as discovery sees it: the interfaces reported,
/// or nothing when the enumeration call itself failed transiently.
pub open spec fn event_matches(e: Option<Vec<PortInfo>>, vid: u16, pid: u16) -> bool {
    match e {
        Some(ports) => has_match(ports@, vid, pid),
        None => false,
    }
}

/// What one poll decided.
#[derive(Debug, Clone, Copy, PartialEq, Eq, Structural)]
pub enum PollVerdict {
    /// A candidate was found at this index of the enumeration pass.
    Found(usize),
    /// No candidate yet; sleep one poll interval and enumerate again.
    RetryAfterSleep,
    /// The time budget is exhausted; discovery failed.
    TimedOut,
}

/// The discovery state machine: how much of the time budget is spent.
/// The caller enumerates and sleeps; `poll_step` decides.
pub struct DeviceLocator {
    pub vid: u16,
    pub pid: u16,
    pub timeout_ms: u64,
    pub poll_interval_ms: u64,
    pub elapsed_ms: u64,
}

impl DeviceLocator {
    /// Discovery for one identifier pair with a fresh time budget.
    pub fn new(vid: u16, pid: u16, timeout_ms: u64, poll_interval_ms: u64) -> (r: Self)
        ensures
            r.vid == vid,
            r.pid == pid,
            r.timeout_ms == timeout_ms,
            r.poll_interval_ms == poll_interval_ms,
            r.elapsed_ms == 0,
    {
        DeviceLocator { vid, pid, timeout_ms, poll_interval_ms, elapsed_ms: 0 }
    }

    /// Decides from one enumeration outcome: over budget fails; a
    /// candidate wins immediately; anything else (no candidate, or a
    /// failed enumeration call) costs one poll interval and retries.
    pub fn poll_step(&mut self, enumeration: &Option<Vec<PortInfo>>) -> (v: PollVerdict)
        requires
            old(self).elapsed_ms + old(self).poll_interval_ms <= u64::MAX,
        ensures
            final(self).vid == old(self).vid,
            final(self).pid == old(self).pid,
            final(self).timeout_ms == old(self).timeout_ms,
            final(self).poll_interval_ms == old(self).poll_interval_ms,
            old(self).elapsed_ms > old(self).timeout_ms ==> v == PollVerdict::TimedOut
                && final(self).elapsed_ms == old(self).elapsed_ms,
            old(self).elapsed_ms <= old(self).timeout_ms
                && event_matches(*enumeration, old(self).vid, old(self).pid)
                ==> (match v {
                    PollVerdict::Found(i) => final(self).elapsed_ms == old(self).elapsed_ms
                        && (match *enumeration {
                            Some(ports) => i < ports@.len()
                                && port_matches(ports@[i as int], old(self).vid, old(self).pid)
                                && forall|j: int| 0 <= j < i
                                    ==> !port_matches(ports@[j], old(self).vid, old(self).pid),
                            None => false,
                        }),
                    _ => false,
                }),
            old(self).elapsed_ms <= old(self).timeout_ms
                && !event_matches(*enumeration, old(self).vid, old(self).pid)
                ==> v == PollVerdict::RetryAfterSleep
                    && final(self).elapsed_ms == old(self).elapsed_ms + old(self).poll_interval_ms,
    {
        if self.elapsed_ms > self.timeout_ms {
            return PollVerdict::TimedOut;
        }
        match enumeration {
            Some(ports) => {
                match find_match(ports, self.vid, self.pid) {
                    Some(i) => PollVerdict::Found(i),
                    None => {
                        self.elapsed_ms = self.elapsed_ms + self.poll_interval_ms;
                        PollVerdict::RetryAfterSleep
                    },
                }
            },
            None => {
                self.elapsed_ms = self.elapsed_ms + self.poll_interval_ms;
                PollVerdict::RetryAfterSleep
            },
        }
    }
}

/// How many enumeration passes fit in the time budget: one at each
/// multiple of the poll interval not above the timeout.
pub open spec fn max_polls(timeout_ms: u64, poll_interval_ms: u64) -> int
    recommends
        poll_interval_ms >= 1,
{
    timeout_ms / poll_interval_ms + 1
}

/// `n` sleeps of `p` milliseconds stay within a budget of `t` exactly
/// when `n` is at most `t / p`.
proof fn lemma_poll_budget(n: int, p: int, t: int)
    requires
        p >= 1,
        n >= 0,
        t >= 0,
    ensures
        (n * p > t) <==> (n > t / p),
{
    lemma_fundamental_div_mod(t, p);
    if n > t / p {
        assert(n * p >= (t / p + 1) * p) by (nonlinear_arith)
            requires
                n >= t / p + 1,
                p >= 1,
        ;
        assert((t / p + 1) * p == (t / p) * p + p) by (nonlinear_arith);
        assert(p * (t / p) == (t / p) * p) by (nonlinear_arith);
    } else {
        assert(n * p <= (t / p) * p) by (nonlinear_arith)
            requires
                n <= t / p,
                p >= 1,
        ;
        assert(p * (t / p) == (t / p) * p) by (nonlinear_arith);
    }
}

/// Runs discovery to completion against a pre-recorded sequence of
/// enumeration outcomes, consuming one outcome per poll. Succeeds with
/// the number of fruitless polls and the matching interface's index
/// exactly when a pass within the time budget holds a candidate; fails
/// with `DeviceNotFound` exactly at the timeout boundary otherwise.
pub fn locate_with(
    events: &Vec<Option<Vec<PortInfo>>>,
    vid: u16,
    pid: u16,
    timeout_ms: u64,
    poll_interval_ms: u64,
) -> (r: Result<(usize, usize), ProtocolError>)
    requires
        poll_interval_ms >= 1,
        timeout_ms + 2 * poll_interval_ms <= u64::MAX,
        events@.len() > max_polls(timeout_ms, poll_interval_ms),
    ensures
        match r {
            Ok((n, i)) => n < max_polls(timeout_ms, poll_interval_ms)
                && event_matches(events@[n as int], vid, pid)
                && (forall|k: int| 0 <= k < n ==> !event_matches(events@[k], vid, pid))
                && (match events@[n as int] {
                    Some(ports) => i < ports@.len() && port_matches(ports@[i as int], vid, pid)
                        && forall|j: int| 0 <= j < i ==> !port_matches(ports@[j], vid, pid),
                    None => false,
                }),
            Err(e) => e == ProtocolError::DeviceNotFound
                && forall|k: int| 0 <= k < max_polls(timeout_ms, poll_interval_ms)
                    ==> !event_matches(events@[k], vid, pid),
        },
{
    let mut loc = DeviceLocator::new(vid, pid, timeout_ms, poll_interval_ms);
    let mut n: usize = 0;
    let total = events.len();
    loop
        invariant
            total == events@.len(),
            loc.vid == vid,
            loc.pid == pid,
            loc.timeout_ms == timeout_ms,
            loc.poll_interval_ms == poll_interval_ms,
            poll_interval_ms >= 1,
            timeout_ms + 2 * poll_interval_ms <= u64::MAX,
            events@.len() > max_polls(timeout_ms, poll_interval_ms),
            n <= max_polls(timeout_ms, poll_interval_ms),
            loc.elapsed_ms == n * poll_interval_ms,
            forall|k: int| 0 <= k < n ==> !event_matches(events@[k], vid, pid),
        decreases max_polls(timeout_ms, poll_interval_ms) - n,
    {
        proof {
            lemma_poll_budget(n as int, poll_interval_ms as int, timeout_ms as int);
            assert(loc.elapsed_ms + poll_interval_ms <= u64::MAX) by (nonlinear_arith)
                requires
                    loc.elapsed_ms == n * poll_interval_ms,
                    n <= timeout_ms / poll_interval_ms + 1,
                    poll_interval_ms >= 1,
                    timeout_ms + 2 * poll_interval_ms <= u64::MAX,
            ;
        }
        let event = &events[n];
        match loc.poll_step(event) {
            PollVerdict::Found(i) => {
                return Ok((n, i));
            },
            PollVerdict::TimedOut => {
                proof {
                    assert(n == max_polls(timeout_ms, poll_interval_ms));
                }
                return Err(ProtocolError::DeviceNotFound);
            },
            PollVerdict::RetryAfterSleep => {
                proof {
                    lemma_poll_budget(n as int + 1, poll_interval_ms as int, timeout_ms as int);
                }
                n = n + 1;
                proof {
                    assert(loc.elapsed_ms == n * poll_interval_ms) by (nonlinear_arith)
                        requires
                            loc.elapsed_ms == (n - 1) * poll_interval_ms + poll_interval_ms,
                    ;
                }
            },
        }
    }
}

} // verus!
