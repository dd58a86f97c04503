//! Resize configures sent to a client, tracked until they are acknowledged
//! and their content is captured.
use vstd::prelude::*;
use crate::interaction::ResizeInteractionId;
use crate::surface::SurfacePlacement;
use crate::window_geometry::ResizeEdges;

verus! {

/// A configure that a resize asks to send.
#[derive(Debug, Clone, Copy, PartialEq, Eq, Structural)]
pub struct PendingResizeConfigure {
    pub surface_id: u32,
    pub width: u32,
    pub height: u32,
    pub placement: SurfacePlacement,
    pub edges: ResizeEdges,
    pub resizing: bool,
    pub interaction_id: ResizeInteractionId,
}

/// A configure that was sent with `serial` as the `sequence`-th resize configure.
#[derive(Debug, Clone, Copy, PartialEq, Eq, Structural)]
pub struct SentResizeConfigure {
    pub configure: PendingResizeConfigure,
    pub serial: u32,
    pub sequence: u64,
    pub acked: bool,
    pub captured: bool,
}

#[derive(Debug, Clone, Copy, PartialEq, Eq, Structural)]
pub enum ResizeAckDecision {
    Matched,
    AlreadyAcknowledged,
    Unknown,
}

/// The resize configures of one surface, oldest first.
#[derive(Debug, Clone)]
pub struct ResizeConfigureFlow {
    pub sent: Vec<SentResizeConfigure>,
}

pub open spec fn count_unacked(s: Seq<SentResizeConfigure>) -> nat
    decreases s.len(),
{
    if s.len() == 0 {
        0
    } else {
        count_unacked(s.drop_last()) + if s.last().acked {
            0nat
        } else {
            1nat
        }
    }
}

pub open spec fn count_captured(s: Seq<SentResizeConfigure>) -> nat
    decreases s.len(),
{
    if s.len() == 0 {
        0
    } else {
        count_captured(s.drop_last()) + if s.last().captured {
            1nat
        } else {
            0nat
        }
    }
}

/// The first position whose entry satisfies the serial match.
pub open spec fn is_first_sent_serial(s: Seq<SentResizeConfigure>, serial: u32, i: int) -> bool {
    &&& 0 <= i < s.len()
    &&& s[i].serial == serial
    &&& forall|j: int| #![trigger s[j]] 0 <= j < i ==> s[j].serial != serial
}

/// The first position holding an acknowledged, not yet captured configure of `sequence`.
pub open spec fn is_first_capturable(s: Seq<SentResizeConfigure>, sequence: u64, i: int) -> bool {
    &&& 0 <= i < s.len()
    &&& s[i].sequence == sequence && s[i].acked && !s[i].captured
    &&& forall|j: int| #![trigger s[j]] 0 <= j < i ==> !(s[j].sequence == sequence && s[j].acked && !s[j].captured)
}

/// The sequence of the newest configure among `s[..n]` still waiting for
/// its acknowledgement.
pub open spec fn spec_in_flight_sequence(s: Seq<SentResizeConfigure>, n: int) -> Option<u64>
    decreases n,
{
    if n <= 0 {
        None
    } else if !s[n - 1].acked {
        Some(s[n - 1].sequence)
    } else {
        spec_in_flight_sequence(s, n - 1)
    }
}

impl Default for ResizeConfigureFlow {
    fn default() -> (r: Self)
        ensures
            r.sent@.len() == 0,
    {
        ResizeConfigureFlow { sent: Vec::new() }
    }
}

impl ResizeConfigureFlow {
    /// The sequence of the newest configure still waiting for its acknowledgement.
    pub fn in_flight_sequence(&self) -> (r: Option<u64>)
        ensures
            r == spec_in_flight_sequence(self.sent@, self.sent@.len() as int),
    {
        let mut n: usize = self.sent.len();
        while n > 0
            invariant
                n <= self.sent@.len(),
                spec_in_flight_sequence(self.sent@, self.sent@.len() as int) == spec_in_flight_sequence(
                    self.sent@,
                    n as int,
                ),
            decreases n,
        {
            if !self.sent[n - 1].acked {
                return Some(self.sent[n - 1].sequence);
            }
            n = n - 1;
        }
        None
    }

    /// Records that `configure` went out with `serial` as resize configure `sequence`.
    pub fn mark_sent(&mut self, configure: PendingResizeConfigure, serial: u32, sequence: u64)
        ensures
            final(self).sent@ == old(self).sent@.push(
                SentResizeConfigure { configure, serial, sequence, acked: false, captured: false },
            ),
    {
        self.sent.push(SentResizeConfigure { configure, serial, sequence, acked: false, captured: false });
    }

    /// Matches an `ack_configure` serial against the oldest configure carrying it.
    pub fn ack(&mut self, serial: u32) -> (r: ResizeAckDecision)
        ensures
            (forall|i: int| #![trigger old(self).sent@[i]] 0 <= i < old(self).sent@.len() ==> old(self).sent@[i].serial
                != serial) ==> r == ResizeAckDecision::Unknown && final(self).sent@ == old(self).sent@,
            forall|i: int|
                is_first_sent_serial(old(self).sent@, serial, i) ==> if old(self).sent@[i].acked {
                    r == ResizeAckDecision::AlreadyAcknowledged && final(self).sent@ == old(self).sent@
                } else {
                    r == ResizeAckDecision::Matched && final(self).sent@ == old(self).sent@.update(
                        i,
                        SentResizeConfigure { acked: true, ..old(self).sent@[i] },
                    )
                },
    {
        let mut i: usize = 0;
        while i < self.sent.len()
            invariant
                i <= self.sent@.len(),
                self.sent@ == old(self).sent@,
                forall|j: int| #![trigger self.sent@[j]] 0 <= j < i ==> self.sent@[j].serial != serial,
            decreases self.sent@.len() - i,
        {
            let entry = self.sent[i];
            if entry.serial == serial {
                proof {
                    assert(is_first_sent_serial(old(self).sent@, serial, i as int));
                    assert forall|k: int| is_first_sent_serial(old(self).sent@, serial, k) implies k == i by {
                        if k < i {
                            assert(self.sent@[k].serial != serial);
                        } else if k > i {
                            assert(old(self).sent@[i as int].serial == serial);
                        }
                    }
                }
                if entry.acked {
                    return ResizeAckDecision::AlreadyAcknowledged;
                }
                self.sent.set(i, SentResizeConfigure { acked: true, ..entry });
                return ResizeAckDecision::Matched;
            }
            i = i + 1;
        }
        ResizeAckDecision::Unknown
    }

    /// Marks the acknowledged configure of `sequence` as captured by a commit and returns it.
    pub fn capture(&mut self, sequence: u64) -> (r: Option<PendingResizeConfigure>)
        ensures
            (forall|i: int| !is_first_capturable(old(self).sent@, sequence, i)) ==> r is None && final(self).sent@
                == old(self).sent@,
            forall|i: int|
                is_first_capturable(old(self).sent@, sequence, i) ==> r == Some(old(self).sent@[i].configure)
                    && final(self).sent@ == old(self).sent@.update(
                    i,
                    SentResizeConfigure { captured: true, ..old(self).sent@[i] },
                ),
    {
        let mut i: usize = 0;
        while i < self.sent.len()
            invariant
                i <= self.sent@.len(),
                self.sent@ == old(self).sent@,
                forall|j: int|
                    #![trigger self.sent@[j]]
                    0 <= j < i ==> !(self.sent@[j].sequence == sequence && self.sent@[j].acked
                        && !self.sent@[j].captured),
            decreases self.sent@.len() - i,
        {
            let entry = self.sent[i];
            if entry.sequence == sequence && entry.acked && !entry.captured {
                proof {
                    assert(is_first_capturable(old(self).sent@, sequence, i as int));
                    assert forall|k: int| is_first_capturable(old(self).sent@, sequence, k) implies k == i by {
                        if k < i {
                            assert(!(self.sent@[k].sequence == sequence && self.sent@[k].acked
                                && !self.sent@[k].captured));
                        } else if k > i {
                            assert(old(self).sent@[i as int].sequence == sequence);
                        }
                    }
                }
                self.sent.set(i, SentResizeConfigure { captured: true, ..entry });
                return Some(entry.configure);
            }
            i = i + 1;
        }
        proof {
            assert forall|k: int| !is_first_capturable(old(self).sent@, sequence, k) by {
                if 0 <= k < old(self).sent@.len() {
                    assert(!(self.sent@[k].sequence == sequence && self.sent@[k].acked && !self.sent@[k].captured));
                }
            }
        }
        None
    }

    /// Configures sent but not yet acknowledged.
    pub fn in_flight_configure_count(&self) -> (r: usize)
        ensures
            r == count_unacked(self.sent@),
    {
        let mut count: usize = 0;
        let mut i: usize = 0;
        while i < self.sent.len()
            invariant
                i <= self.sent@.len(),
                count == count_unacked(self.sent@.take(i as int)),
                count <= i,
            decreases self.sent@.len() - i,
        {
            proof {
                assert(self.sent@.take(i as int + 1).drop_last() =~= self.sent@.take(i as int));
            }
            if !self.sent[i].acked {
                count = count + 1;
            }
            i = i + 1;
        }
        assert(self.sent@.take(self.sent@.len() as int) =~= self.sent@);
        count
    }

    pub fn has_in_flight(&self) -> (r: bool)
        ensures
            r == (count_unacked(self.sent@) > 0),
    {
        self.in_flight_configure_count() > 0
    }

    /// Configures whose content was captured by a commit.
    pub fn captured_count(&self) -> (r: usize)
        ensures
            r == count_captured(self.sent@),
    {
        let mut count: usize = 0;
        let mut i: usize = 0;
        while i < self.sent.len()
            invariant
                i <= self.sent@.len(),
                count == count_captured(self.sent@.take(i as int)),
                count <= i,
            decreases self.sent@.len() - i,
        {
            proof {
                assert(self.sent@.take(i as int + 1).drop_last() =~= self.sent@.take(i as int));
            }
            if self.sent[i].captured {
                count = count + 1;
            }
            i = i + 1;
        }
        assert(self.sent@.take(self.sent@.len() as int) =~= self.sent@);
        count
    }

    pub fn retained_configure_count(&self) -> (r: usize)
        ensures
            r == self.sent@.len(),
    {
        self.sent.len()
    }
}

} // verus!
