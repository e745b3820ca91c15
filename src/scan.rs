use crate::kind::ExecutorKind;
use vstd::prelude::*;

verus! {

/// The ports of `kind`'s closed range in ascending order.
pub open spec fn range_ports(kind: ExecutorKind) -> Seq<u16> {
    Seq::new(
        (kind.max_port_spec() - kind.min_port_spec() + 1) as nat,
        |i: int| (kind.min_port_spec() + i) as u16,
    )
}

/// The order in which a scan tries ports: the previously bound port first
/// when it lies in the range, then the whole range in ascending order.
pub open spec fn scan_order(kind: ExecutorKind, previous: Option<u16>) -> Seq<u16> {
    match previous {
        Some(p) => if kind.in_range(p) {
            seq![p] + range_ports(kind)
        } else {
            range_ports(kind)
        },
        None => range_ports(kind),
    }
}

/// The first port of `order` whose attempt, in `outcomes`, was accepted.
pub open spec fn first_accepted(order: Seq<u16>, outcomes: Seq<bool>) -> Option<u16>
    decreases outcomes.len(),
{
    if outcomes.len() == 0 || order.len() == 0 {
        None
    } else if outcomes[0] {
        Some(order[0])
    } else {
        first_accepted(order.drop_first(), outcomes.drop_first())
    }
}

/// After a run of refused attempts, one more attempt decides the result.
proof fn lemma_first_accepted_push(order: Seq<u16>, outcomes: Seq<bool>, b: bool)
    requires
        outcomes.len() < order.len(),
        forall|i: int| 0 <= i < outcomes.len() ==> !outcomes[i],
    ensures
        first_accepted(order, outcomes) is None,
        first_accepted(order, outcomes.push(b)) == (if b {
            Some(order[outcomes.len() as int])
        } else {
            None
        }),
    decreases outcomes.len(),
{
    if outcomes.len() > 0 {
        assert(outcomes.push(b).drop_first() =~= outcomes.drop_first().push(b));
        lemma_first_accepted_push(order.drop_first(), outcomes.drop_first(), b);
        assert(order.drop_first()[outcomes.len() - 1] == order[outcomes.len() as int]);
        assert(!outcomes.push(b)[0]);
    } else {
        assert(outcomes.push(b).drop_first().len() == 0);
        assert(first_accepted(order.drop_first(), outcomes.push(b).drop_first()) is None);
        assert(outcomes.push(b)[0] == b);
    }
}

/// An accepted port is one of the ports tried.
proof fn lemma_first_accepted_in_order(order: Seq<u16>, outcomes: Seq<bool>)
    requires
        first_accepted(order, outcomes) is Some,
    ensures
        exists|i: int| 0 <= i < order.len() && first_accepted(order, outcomes) == Some(#[trigger] order[i]),
    decreases outcomes.len(),
{
    if !outcomes[0] {
        lemma_first_accepted_in_order(order.drop_first(), outcomes.drop_first());
        let i = choose|i: int| 0 <= i < order.drop_first().len() && first_accepted(order.drop_first(), outcomes.drop_first()) == Some(#[trigger] order.drop_first()[i]);
        assert(order[i + 1] == order.drop_first()[i]);
    } else {
        assert(first_accepted(order, outcomes) == Some(order[0]));
    }
}

/// A scan that starts from a previously bound port `p` of the range tries `p`
/// first, so when `p` still accepts, the scan ends after that one attempt
/// with `p`, whatever the rest of the range would have answered.
pub proof fn lemma_scan_prefers_previous(kind: ExecutorKind, p: u16, rest: Seq<bool>)
    requires
        kind.in_range(p),
    ensures
        scan_order(kind, Some(p))[0] == p,
        first_accepted(scan_order(kind, Some(p)), seq![true] + rest) == Some(p),
{
    let s = seq![true] + rest;
    assert(s[0]);
}

/// An in-progress or finished scan over a kind's port range.
pub struct PortScan {
    kind: ExecutorKind,
    order: Vec<u16>,
    found: Option<u16>,
    tried: usize,
    outcomes: Ghost<Seq<bool>>,
}

impl PortScan {
    /// The kind whose range this scan covers.
    pub closed spec fn kind_spec(&self) -> ExecutorKind {
        self.kind
    }

    /// The ports in the order the scan tries them.
    pub closed spec fn order_spec(&self) -> Seq<u16> {
        self.order@
    }

    /// The outcome of each attempt made so far, in order.
    pub closed spec fn outcomes_spec(&self) -> Seq<bool> {
        self.outcomes@
    }

    pub closed spec fn wf(&self) -> bool {
        &&& self.outcomes@.len() <= self.order@.len()
        &&& self.tried == self.outcomes@.len()
        &&& forall|i: int| 0 <= i < self.order@.len() ==> self.kind.in_range(#[trigger] self.order@[i])
        &&& forall|i: int| 0 <= i < self.outcomes@.len() - 1 ==> !#[trigger] self.outcomes@[i]
        &&& self.found == first_accepted(self.order@, self.outcomes@)
        &&& (self.found is Some <==> (self.outcomes@.len() > 0 && self.outcomes@.last()))
    }

    /// The port found so far: the first one whose attempt was accepted.
    pub open spec fn found_spec(&self) -> Option<u16> {
        first_accepted(self.order_spec(), self.outcomes_spec())
    }

    /// The port to try next, if the scan is not over.
    pub open spec fn next_spec(&self) -> Option<u16> {
        if self.found_spec() is None && self.outcomes_spec().len() < self.order_spec().len() {
            Some(self.order_spec()[self.outcomes_spec().len() as int])
        } else {
            None
        }
    }

    /// Starts a scan of `kind`'s range, trying `previous` first when it lies
    /// in the range.
    pub fn new(kind: ExecutorKind, previous: Option<u16>) -> (r: PortScan)
        ensures
            r.wf(),
            r.kind_spec() == kind,
            r.order_spec() == scan_order(kind, previous),
            r.outcomes_spec() == Seq::<bool>::empty(),
    {
        let mut order: Vec<u16> = Vec::new();
        let ghost mut start: Seq<u16> = Seq::empty();
        if let Some(p) = previous {
            if kind.contains_port(p) {
                order.push(p);
                proof { start = seq![p]; }
            }
        }
        let lo = kind.min_port();
        let hi = kind.max_port();
        let mut port: u16 = lo;
        while port <= hi
            invariant
                lo == kind.min_port_spec(),
                hi == kind.max_port_spec(),
                lo <= port <= hi + 1,
                hi < u16::MAX,
                forall|i: int| 0 <= i < start.len() ==> kind.in_range(#[trigger] start[i]),
                order@ =~= start + range_ports(kind).subrange(0, port - lo),
                start == (match previous {
                    Some(p) => if kind.in_range(p) { seq![p] } else { Seq::empty() },
                    None => Seq::empty(),
                }),
            decreases hi + 1 - port,
        {
            order.push(port);
            port = port + 1;
        }
        assert(range_ports(kind).subrange(0, hi + 1 - lo) =~= range_ports(kind));
        assert(order@ =~= scan_order(kind, previous));
        PortScan { kind, order, found: None, tried: 0, outcomes: Ghost(Seq::empty()) }
    }

    /// The port to try next; `None` once a port was accepted or every port
    /// was tried.
    pub fn next_port(&self) -> (r: Option<u16>)
        requires
            self.wf(),
        ensures
            r == self.next_spec(),
    {
        if self.found.is_none() && self.attempts() < self.order.len() {
            Some(self.order[self.attempts()])
        } else {
            None
        }
    }

    /// Records the outcome of the attempt on the port that `next_port` gave.
    pub fn record(&mut self, accepted: bool)
        requires
            old(self).wf(),
            old(self).next_spec() is Some,
        ensures
            final(self).wf(),
            final(self).kind_spec() == old(self).kind_spec(),
            final(self).order_spec() == old(self).order_spec(),
            final(self).outcomes_spec() == old(self).outcomes_spec().push(accepted),
            final(self).found_spec() == (if accepted {
                old(self).next_spec()
            } else {
                None
            }),
    {
        let k = self.attempts();
        assert(k < self.order.len());
        proof {
            lemma_first_accepted_push(self.order@, self.outcomes@, accepted);
        }
        if accepted {
            self.found = Some(self.order[k]);
        }
        self.outcomes = Ghost(self.outcomes@.push(accepted));
        self.tried = k + 1;
    }

    /// The number of attempts made so far.
    pub fn attempts(&self) -> (r: usize)
        requires
            self.wf(),
        ensures
            r == self.outcomes_spec().len(),
    {
        self.tried
    }

    /// The port that was accepted, if any.
    pub fn found(&self) -> (r: Option<u16>)
        requires
            self.wf(),
        ensures
            r == self.found_spec(),
            r matches Some(p) ==> self.kind_spec().in_range(p),
    {
        proof {
            if self.found is Some {
                lemma_first_accepted_in_order(self.order@, self.outcomes@);
            }
        }
        self.found
    }

    /// Whether the scan is over: a port was accepted or every port was tried.
    pub fn is_finished(&self) -> (r: bool)
        requires
            self.wf(),
        ensures
            r == (self.next_spec() is None),
    {
        self.next_port().is_none()
    }
}

} // verus!
