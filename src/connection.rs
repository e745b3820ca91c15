use crate::kind::ExecutorKind;
use crate::scan::{first_accepted, lemma_scan_prefers_previous, scan_order, PortScan};
use vstd::prelude::*;

verus! {

/// The externally observable state of the connection, pushed to the UI on
/// every transition.
#[derive(Debug, Clone, Copy, PartialEq, Eq, Structural)]
pub struct ConnectionStatus {
    /// Whether a port is bound.
    pub is_connected: bool,
    /// The bound port, if any.
    pub port: Option<u16>,
    /// The port that the poller and manual refreshes try to connect to.
    pub current_port: u16,
    /// The active protocol family.
    pub kind: ExecutorKind,
}

impl ConnectionStatus {
    /// The status of a manager of `kind` that is bound to nothing and aims at
    /// `current_port`.
    pub open spec fn disconnected(kind: ExecutorKind, current_port: u16) -> ConnectionStatus {
        ConnectionStatus { is_connected: false, port: None, current_port, kind }
    }

    /// The status of a manager of `kind` that is bound to `port`.
    pub open spec fn connected(kind: ExecutorKind, port: u16) -> ConnectionStatus {
        ConnectionStatus { is_connected: true, port: Some(port), current_port: port, kind }
    }

    /// A bound port and the aimed-at port both lie in the kind's range, and
    /// `is_connected` says whether a port is bound.
    pub open spec fn wf(self) -> bool {
        &&& self.is_connected == (self.port is Some)
        &&& self.kind.in_range(self.current_port)
        &&& (self.port matches Some(p) ==> self.kind.in_range(p))
    }
}

/// Sending on all ports prefers the bound port: the scan that
/// `begin_send_on_all_ports` starts for a manager bound to `p` tries `p`
/// first, so when `p` still accepts the payload the send succeeds on `p`
/// after that single attempt, whatever the rest of the range would answer.
pub proof fn lemma_send_prefers_bound_port(s: ConnectionStatus, rest: Seq<bool>)
    requires
        s.wf(),
        s.port is Some,
    ensures
        scan_order(s.kind, s.port)[0] == s.port->Some_0,
        first_accepted(scan_order(s.kind, s.port), seq![true] + rest) == s.port,
{
    lemma_scan_prefers_previous(s.kind, s.port->Some_0, rest);
}

/// What the poller must do on a tick.
#[derive(Debug, Clone, Copy, PartialEq, Eq, Structural)]
pub enum PollAction {
    /// Re-probe the bound port, then report through `is_connected`.
    Verify(u16),
    /// Probe this port, then report through `connect`.
    Connect(u16),
}

/// The single point of truth for whether the executor is reachable and on
/// which port. Network work happens outside: each operation takes the
/// outcome of the one probe or transmit it calls for.
pub struct ConnectionManager {
    kind: ExecutorKind,
    bound_port: Option<u16>,
    current_port: u16,
}

impl View for ConnectionManager {
    type V = ConnectionStatus;

    closed spec fn view(&self) -> ConnectionStatus {
        ConnectionStatus {
            is_connected: self.bound_port is Some,
            port: self.bound_port,
            current_port: self.current_port,
            kind: self.kind,
        }
    }
}

impl ConnectionManager {
    pub open spec fn wf(&self) -> bool {
        self@.wf()
    }

    /// The same manager with its bound port cleared.
    pub open spec fn cleared(s: ConnectionStatus) -> ConnectionStatus {
        ConnectionStatus::disconnected(s.kind, s.current_port)
    }

    /// A disconnected manager of `kind`, aiming at the first port of its range.
    pub fn new(kind: ExecutorKind) -> (r: ConnectionManager)
        ensures
            r.wf(),
            r@ == ConnectionStatus::disconnected(kind, kind.min_port_spec()),
    {
        ConnectionManager { kind, bound_port: None, current_port: kind.min_port() }
    }

    /// A snapshot of the observable state.
    pub fn status(&self) -> (r: ConnectionStatus)
        ensures
            r == self@,
    {
        ConnectionStatus {
            is_connected: self.bound_port.is_some(),
            port: self.bound_port,
            current_port: self.current_port,
            kind: self.kind,
        }
    }

    /// The active protocol family.
    pub fn kind(&self) -> (r: ExecutorKind)
        ensures
            r == self@.kind,
    {
        self.kind
    }

    /// The bound port, if any.
    pub fn bound_port(&self) -> (r: Option<u16>)
        ensures
            r == self@.port,
    {
        self.bound_port
    }

    /// The port that the poller tries when disconnected.
    pub fn current_port(&self) -> (r: u16)
        ensures
            r == self@.current_port,
    {
        self.current_port
    }

    /// Whether `connect(port, ..)` would probe `port` at all: only ports of
    /// the active kind's range are probed.
    pub fn accepts_port(&self, port: u16) -> (r: bool)
        ensures
            r == self@.kind.in_range(port),
    {
        self.kind.contains_port(port)
    }

    /// Reports the probe of `port`. A port outside the active range is never
    /// probed: the call returns false and leaves the state as it was. A
    /// successful probe binds the port; a failed one leaves the state cleared.
    pub fn connect(&mut self, port: u16, probe_ok: bool) -> (r: bool)
        requires
            old(self).wf(),
        ensures
            final(self).wf(),
            r == (old(self)@.kind.in_range(port) && probe_ok),
            !old(self)@.kind.in_range(port) ==> final(self)@ == old(self)@,
            r ==> final(self)@ == ConnectionStatus::connected(old(self)@.kind, port),
            old(self)@.kind.in_range(port) && !probe_ok ==> final(self)@ == Self::cleared(
                old(self)@,
            ),
    {
        if !self.kind.contains_port(port) {
            return false;
        }
        if probe_ok {
            self.bound_port = Some(port);
            self.current_port = port;
            true
        } else {
            self.bound_port = None;
            false
        }
    }

    /// Reports the re-probe of the bound port. Connectivity is perishable:
    /// true only when a port is bound and it still answered; otherwise the
    /// bound port is cleared.
    pub fn is_connected(&mut self, probe_ok: bool) -> (r: bool)
        requires
            old(self).wf(),
        ensures
            final(self).wf(),
            r == (old(self)@.port is Some && probe_ok),
            r ==> final(self)@ == old(self)@,
            !r ==> final(self)@ == Self::cleared(old(self)@),
    {
        if self.bound_port.is_some() && probe_ok {
            true
        } else {
            self.bound_port = None;
            false
        }
    }

    /// Reports the one transmit of a script on the bound port. Without a
    /// bound port nothing is sent and the result is false; a transmit that
    /// failed clears the bound port. There is no retry.
    pub fn send(&mut self, transmit_ok: bool) -> (r: bool)
        requires
            old(self).wf(),
        ensures
            final(self).wf(),
            r == (old(self)@.port is Some && transmit_ok),
            r ==> final(self)@ == old(self)@,
            !r ==> final(self)@ == Self::cleared(old(self)@),
    {
        if self.bound_port.is_some() && transmit_ok {
            true
        } else {
            self.bound_port = None;
            false
        }
    }

    /// Switches the protocol family. The bound port is always cleared, since
    /// ranges and wire formats of the two kinds are incompatible, and the
    /// manager aims at the first port of the new range.
    pub fn set_kind(&mut self, kind: ExecutorKind)
        ensures
            final(self).wf(),
            final(self)@ == ConnectionStatus::disconnected(kind, kind.min_port_spec()),
    {
        self.kind = kind;
        self.bound_port = None;
        self.current_port = kind.min_port();
    }

    /// Aims at the next port of the range, wrapping around after the last
    /// one, and clears the bound port.
    pub fn increment_port(&mut self)
        requires
            old(self).wf(),
        ensures
            final(self).wf(),
            final(self)@ == ConnectionStatus::disconnected(
                old(self)@.kind,
                if old(self)@.current_port >= old(self)@.kind.max_port_spec() {
                    old(self)@.kind.min_port_spec()
                } else {
                    (old(self)@.current_port + 1) as u16
                },
            ),
    {
        let next = if self.current_port >= self.kind.max_port() {
            self.kind.min_port()
        } else {
            self.current_port + 1
        };
        self.bound_port = None;
        self.current_port = next;
    }

    /// What the poller must do on this tick: re-probe the bound port, or,
    /// when disconnected, try the current port once.
    pub fn poll_action(&self) -> (r: PollAction)
        ensures
            r == (match self@.port {
                Some(p) => PollAction::Verify(p),
                None => PollAction::Connect(self@.current_port),
            }),
    {
        match self.bound_port {
            Some(p) => PollAction::Verify(p),
            None => PollAction::Connect(self.current_port),
        }
    }

    /// Starts the send-on-all-ports path: a scan that tries the bound port
    /// first, then the whole range; each attempt is a transmit of the script.
    pub fn begin_send_on_all_ports(&self) -> (r: PortScan)
        requires
            self.wf(),
        ensures
            r.wf(),
            r.kind_spec() == self@.kind,
            r.order_spec() == scan_order(self@.kind, self@.port),
            r.outcomes_spec() == Seq::<bool>::empty(),
    {
        PortScan::new(self.kind, self.bound_port)
    }

    /// Ends the send-on-all-ports path: binds the first port that accepted
    /// the payload and returns true, or returns false with the bound port
    /// cleared when none did.
    pub fn finish_send_on_all_ports(&mut self, scan: &PortScan) -> (r: bool)
        requires
            old(self).wf(),
            scan.wf(),
            scan.kind_spec() == old(self)@.kind,
            scan.next_spec() is None,
        ensures
            final(self).wf(),
            r == (scan.found_spec() is Some),
            final(self)@ == (match scan.found_spec() {
                Some(p) => ConnectionStatus::connected(old(self)@.kind, p),
                None => Self::cleared(old(self)@),
            }),
    {
        match scan.found() {
            Some(p) => {
                self.bound_port = Some(p);
                self.current_port = p;
                true
            },
            None => {
                self.bound_port = None;
                false
            },
        }
    }
}

} // verus!
