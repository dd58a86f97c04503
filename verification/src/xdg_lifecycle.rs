//! The xdg_surface configure/acknowledge/map handshake.
use std::collections::VecDeque;
use vstd::prelude::*;

verus! {

#[derive(Debug, Clone, Copy, PartialEq, Eq, Structural)]
pub enum XdgConstructionState {
    AssociatedUnconstructed,
    ConstructedToplevel,
    ConstructedPopup,
}

#[derive(Debug, Clone, Copy, PartialEq, Eq, Structural)]
pub enum XdgMapState {
    AwaitingInitialEmptyCommit,
    AwaitingInitialConfigureAck,
    UnmappedConfigured,
    Mapped,
}

/// One `xdg_surface.configure` that was sent.
#[derive(Debug, Clone, Copy, PartialEq, Eq, Structural)]
pub struct XdgConfigureRecord {
    pub serial: u32,
    pub acknowledged: bool,
    pub superseded: bool,
}

/// Lifecycle of one xdg_surface: its role construction, the initial
/// empty-commit/configure/ack handshake, and the configures awaiting acknowledgement.
#[derive(Debug, Clone)]
pub struct XdgSurfaceLifecycle {
    pub construction: XdgConstructionState,
    pub map_state: XdgMapState,
    pub initial_configure_sent: bool,
    pub initial_configure_acked: bool,
    pub currently_mapped: bool,
    pub initial_empty_commit_received: bool,
    pub configures: VecDeque<XdgConfigureRecord>,
    pub last_acked_serial: Option<u32>,
}

/// The abstract lifecycle: the same fields with the queue as a sequence.
pub struct XdgLifecycleView {
    pub construction: XdgConstructionState,
    pub map_state: XdgMapState,
    pub initial_configure_sent: bool,
    pub initial_configure_acked: bool,
    pub currently_mapped: bool,
    pub initial_empty_commit_received: bool,
    pub configures: Seq<XdgConfigureRecord>,
    pub last_acked_serial: Option<u32>,
}

impl View for XdgSurfaceLifecycle {
    type V = XdgLifecycleView;

    open spec fn view(&self) -> XdgLifecycleView {
        XdgLifecycleView {
            construction: self.construction,
            map_state: self.map_state,
            initial_configure_sent: self.initial_configure_sent,
            initial_configure_acked: self.initial_configure_acked,
            currently_mapped: self.currently_mapped,
            initial_empty_commit_received: self.initial_empty_commit_received,
            configures: self.configures@,
            last_acked_serial: self.last_acked_serial,
        }
    }
}

/// `idx` is the first position of a configure with `serial`.
pub open spec fn is_first_serial(s: Seq<XdgConfigureRecord>, serial: u32, idx: int) -> bool {
    &&& 0 <= idx < s.len()
    &&& s[idx].serial == serial
    &&& forall|j: int| #![trigger s[j]] 0 <= j < idx ==> s[j].serial != serial
}

pub open spec fn has_serial(s: Seq<XdgConfigureRecord>, serial: u32) -> bool {
    exists|i: int| #![trigger s[i]] 0 <= i < s.len() && s[i].serial == serial
}

/// The position of the oldest configure carrying `serial`, if any.
pub open spec fn first_serial_index(s: Seq<XdgConfigureRecord>, serial: u32) -> Option<int> {
    if has_serial(s, serial) {
        Some(choose|i: int| is_first_serial(s, serial, i))
    } else {
        None
    }
}

/// The first record carrying a serial is the one the lookup by serial finds.
pub proof fn lemma_first_serial_unique(s: Seq<XdgConfigureRecord>, serial: u32, i: int)
    requires
        is_first_serial(s, serial, i),
    ensures
        first_serial_index(s, serial) == Some(i),
{
    assert(has_serial(s, serial));
    let k = choose|k: int| is_first_serial(s, serial, k);
    if k < i {
        assert(s[k].serial != serial);
    } else if k > i {
        assert(s[i].serial != serial);
    }
}

pub open spec fn supersede(c: XdgConfigureRecord) -> XdgConfigureRecord {
    XdgConfigureRecord { superseded: true, ..c }
}

pub open spec fn spec_default() -> XdgLifecycleView {
    XdgLifecycleView {
        construction: XdgConstructionState::AssociatedUnconstructed,
        map_state: XdgMapState::AwaitingInitialEmptyCommit,
        initial_configure_sent: false,
        initial_configure_acked: false,
        currently_mapped: false,
        initial_empty_commit_received: false,
        configures: Seq::empty(),
        last_acked_serial: None,
    }
}

/// Sending a configure supersedes every earlier one.
pub open spec fn spec_record_configure(v: XdgLifecycleView, serial: u32) -> XdgLifecycleView {
    XdgLifecycleView {
        configures: v.configures.map_values(|c: XdgConfigureRecord| supersede(c)).push(
            XdgConfigureRecord { serial, acknowledged: false, superseded: false },
        ),
        initial_configure_sent: true,
        map_state: if !v.initial_configure_acked {
            XdgMapState::AwaitingInitialConfigureAck
        } else {
            v.map_state
        },
        ..v
    }
}

/// Acknowledging a configure retires it and every older one.
pub open spec fn spec_acknowledge(v: XdgLifecycleView, serial: u32) -> (bool, XdgLifecycleView) {
    match first_serial_index(v.configures, serial) {
        None => (false, v),
        Some(idx) => if v.configures[idx].acknowledged {
            (false, v)
        } else {
            (
                true,
                XdgLifecycleView {
                    configures: v.configures.skip(idx + 1),
                    last_acked_serial: Some(serial),
                    initial_configure_acked: true,
                    map_state: if v.currently_mapped {
                        XdgMapState::Mapped
                    } else {
                        XdgMapState::UnmappedConfigured
                    },
                    ..v
                },
            )
        },
    }
}

pub open spec fn spec_mark_initial_empty_commit(v: XdgLifecycleView) -> (bool, XdgLifecycleView) {
    if v.map_state != XdgMapState::AwaitingInitialEmptyCommit {
        (false, v)
    } else {
        (
            true,
            XdgLifecycleView {
                initial_empty_commit_received: true,
                map_state: XdgMapState::AwaitingInitialConfigureAck,
                ..v
            },
        )
    }
}

pub open spec fn spec_mark_buffer_commit(v: XdgLifecycleView) -> XdgLifecycleView {
    if v.initial_configure_acked {
        XdgLifecycleView { currently_mapped: true, map_state: XdgMapState::Mapped, ..v }
    } else {
        v
    }
}

/// Unmapping restarts the handshake; the null-buffer commit counts as the empty commit.
pub open spec fn spec_mark_unmapped(v: XdgLifecycleView) -> XdgLifecycleView {
    XdgLifecycleView {
        initial_configure_sent: false,
        initial_configure_acked: false,
        currently_mapped: false,
        initial_empty_commit_received: true,
        configures: Seq::empty(),
        last_acked_serial: None,
        map_state: XdgMapState::AwaitingInitialEmptyCommit,
        ..v
    }
}

pub open spec fn spec_begin_empty_or_unmap_commit(v: XdgLifecycleView) -> XdgLifecycleView {
    if !v.initial_empty_commit_received && !v.initial_configure_sent && !v.initial_configure_acked {
        XdgLifecycleView {
            initial_empty_commit_received: true,
            map_state: XdgMapState::AwaitingInitialConfigureAck,
            ..v
        }
    } else {
        spec_mark_unmapped(v)
    }
}

pub open spec fn spec_can_commit_buffer(v: XdgLifecycleView) -> bool {
    v.initial_configure_acked
}

pub open spec fn spec_has_outstanding_configure(v: XdgLifecycleView) -> bool {
    exists|i: int| #![trigger v.configures[i]] 0 <= i < v.configures.len() && !v.configures[i].acknowledged
}

/// Invariants every reachable lifecycle keeps.
pub open spec fn lifecycle_wf(v: XdgLifecycleView) -> bool {
    // A surface that cannot take a buffer yet has never acknowledged, or is
    // waiting for the acknowledgement of its initial configure.
    &&& !v.initial_configure_acked ==> (v.last_acked_serial is None || v.map_state
        == XdgMapState::AwaitingInitialConfigureAck)
    // The handshake is complete exactly when some configure was acknowledged.
    &&& v.initial_configure_acked <==> v.last_acked_serial is Some
    // Mapping needs an acknowledged configure.
    &&& v.map_state == XdgMapState::Mapped ==> v.initial_configure_acked
    &&& v.currently_mapped ==> v.initial_configure_acked
    // Only unacknowledged configures are retained.
    &&& forall|i: int| #![trigger v.configures[i]] 0 <= i < v.configures.len() ==> !v.configures[i].acknowledged
}

impl Default for XdgSurfaceLifecycle {
    fn default() -> (r: Self)
        ensures
            r@ == spec_default(),
    {
        XdgSurfaceLifecycle {
            construction: XdgConstructionState::AssociatedUnconstructed,
            map_state: XdgMapState::AwaitingInitialEmptyCommit,
            initial_configure_sent: false,
            initial_configure_acked: false,
            currently_mapped: false,
            initial_empty_commit_received: false,
            configures: VecDeque::new(),
            last_acked_serial: None,
        }
    }
}

impl XdgSurfaceLifecycle {
    /// Gives the surface the toplevel role; fails when it already has a role.
    pub fn construct_toplevel(&mut self) -> (r: Result<(), ()>)
        ensures
            r is Ok <==> old(self).construction == XdgConstructionState::AssociatedUnconstructed,
            final(self)@ == (if r is Ok {
                XdgLifecycleView { construction: XdgConstructionState::ConstructedToplevel, ..old(self)@ }
            } else {
                old(self)@
            }),
    {
        if self.construction != XdgConstructionState::AssociatedUnconstructed {
            return Err(());
        }
        self.construction = XdgConstructionState::ConstructedToplevel;
        Ok(())
    }

    /// Gives the surface the popup role; fails when it already has a role.
    pub fn construct_popup(&mut self) -> (r: Result<(), ()>)
        ensures
            r is Ok <==> old(self).construction == XdgConstructionState::AssociatedUnconstructed,
            final(self)@ == (if r is Ok {
                XdgLifecycleView { construction: XdgConstructionState::ConstructedPopup, ..old(self)@ }
            } else {
                old(self)@
            }),
    {
        if self.construction != XdgConstructionState::AssociatedUnconstructed {
            return Err(());
        }
        self.construction = XdgConstructionState::ConstructedPopup;
        Ok(())
    }

    pub fn is_constructed(&self) -> (r: bool)
        ensures
            r == (self.construction != XdgConstructionState::AssociatedUnconstructed),
    {
        self.construction != XdgConstructionState::AssociatedUnconstructed
    }

    /// A buffer may only be attached once the initial configure was acknowledged.
    pub fn can_commit_buffer(&self) -> (r: bool)
        ensures
            r == spec_can_commit_buffer(self@),
    {
        self.initial_configure_acked
    }

    pub fn needs_configure(&self) -> (r: bool)
        ensures
            r == (self.initial_empty_commit_received && !self.initial_configure_sent),
    {
        self.initial_empty_commit_received && !self.initial_configure_sent
    }

    pub fn has_outstanding_configure(&self) -> (r: bool)
        ensures
            r == spec_has_outstanding_configure(self@),
    {
        let mut i: usize = 0;
        while i < self.configures.len()
            invariant
                i <= self.configures@.len(),
                forall|j: int| #![trigger self.configures@[j]] 0 <= j < i ==> self.configures@[j].acknowledged,
            decreases self.configures@.len() - i,
        {
            if !self.configures[i].acknowledged {
                assert(!self@.configures[i as int].acknowledged);
                return true;
            }
            i = i + 1;
        }
        false
    }

    pub fn record_configure(&mut self, serial: u32)
        ensures
            final(self)@ == spec_record_configure(old(self)@, serial),
            lifecycle_wf(old(self)@) ==> lifecycle_wf(final(self)@),
    {
        let ghost old_queue = self.configures@;
        let mut superseded: VecDeque<XdgConfigureRecord> = VecDeque::new();
        let mut i: usize = 0;
        while i < self.configures.len()
            invariant
                i <= self.configures@.len(),
                self.configures@ == old_queue,
                superseded@ == old_queue.take(i as int).map_values(|c: XdgConfigureRecord| supersede(c)),
            decreases self.configures@.len() - i,
        {
            let c = self.configures[i];
            superseded.push_back(XdgConfigureRecord { superseded: true, ..c });
            proof {
                assert(superseded@ =~= old_queue.take(i as int + 1).map_values(
                    |c: XdgConfigureRecord| supersede(c),
                ));
            }
            i = i + 1;
        }
        assert(old_queue.take(old_queue.len() as int) =~= old_queue);
        superseded.push_back(XdgConfigureRecord { serial, acknowledged: false, superseded: false });
        self.configures = superseded;
        self.initial_configure_sent = true;
        if !self.initial_configure_acked {
            self.map_state = XdgMapState::AwaitingInitialConfigureAck;
        }
        assert(self@.configures =~= spec_record_configure(old(self)@, serial).configures);
    }

    /// Acknowledges the oldest configure carrying `serial` and retires every
    /// configure sent before it. Unknown or already acknowledged serials are rejected.
    pub fn acknowledge(&mut self, serial: u32) -> (r: Result<(), ()>)
        ensures
            (r is Ok) == spec_acknowledge(old(self)@, serial).0,
            final(self)@ == spec_acknowledge(old(self)@, serial).1,
            lifecycle_wf(old(self)@) ==> lifecycle_wf(final(self)@),
    {
        let mut index: usize = 0;
        while index < self.configures.len()
            invariant
                index <= self.configures@.len(),
                self@ == old(self)@,
                forall|j: int| #![trigger self.configures@[j]] 0 <= j < index ==> self.configures@[j].serial != serial,
            ensures
                index <= self.configures@.len(),
                self@ == old(self)@,
                forall|j: int| #![trigger self.configures@[j]] 0 <= j < index ==> self.configures@[j].serial != serial,
                index < self.configures@.len() ==> self.configures@[index as int].serial == serial,
            decreases self.configures@.len() - index,
        {
            if self.configures[index].serial == serial {
                break;
            }
            index = index + 1;
        }
        if index == self.configures.len() {
            assert(!has_serial(self.configures@, serial));
            return Err(());
        }
        proof {
            lemma_first_serial_unique(self.configures@, serial, index as int);
        }
        if self.configures[index].acknowledged {
            return Err(());
        }
        let ghost queue = self.configures@;
        assert(queue.len() <= usize::MAX);
        let mut popped: usize = 0;
        while popped <= index
            invariant
                popped <= index + 1,
                index < queue.len() <= usize::MAX,
                self.configures@ == queue.skip(popped as int),
                queue[index as int].serial == serial,
                queue == old(self)@.configures,
                popped > index ==> self.last_acked_serial == Some(serial),
                self@ == (XdgLifecycleView {
                    configures: self.configures@,
                    last_acked_serial: self.last_acked_serial,
                    ..old(self)@
                }),
            decreases index + 1 - popped,
        {
            assert(queue.skip(popped as int)[0] == queue[popped as int]);
            let front = self.configures.pop_front();
            match front {
                Some(c) => {
                    if c.serial == serial {
                        self.last_acked_serial = Some(serial);
                    }
                },
                None => {},
            }
            proof {
                assert(self.configures@ =~= queue.skip(popped as int + 1));
            }
            popped = popped + 1;
        }
        self.initial_configure_acked = true;
        self.map_state = if self.currently_mapped {
            XdgMapState::Mapped
        } else {
            XdgMapState::UnmappedConfigured
        };
        proof {
            if lifecycle_wf(old(self)@) {
                assert forall|i: int| #![trigger self@.configures[i]] 0 <= i < self@.configures.len() implies !self@.configures[i].acknowledged by {
                    assert(self@.configures[i] == queue[i + index + 1]);
                }
            }
        }
        Ok(())
    }

    /// The first empty commit of the handshake; later ones are ignored.
    pub fn mark_initial_empty_commit(&mut self) -> (r: bool)
        ensures
            r == spec_mark_initial_empty_commit(old(self)@).0,
            final(self)@ == spec_mark_initial_empty_commit(old(self)@).1,
            lifecycle_wf(old(self)@) ==> lifecycle_wf(final(self)@),
    {
        if self.map_state != XdgMapState::AwaitingInitialEmptyCommit {
            return false;
        }
        self.initial_empty_commit_received = true;
        self.map_state = XdgMapState::AwaitingInitialConfigureAck;
        true
    }

    /// A buffer commit maps the surface once the initial configure was acknowledged.
    pub fn mark_buffer_commit(&mut self)
        ensures
            final(self)@ == spec_mark_buffer_commit(old(self)@),
            lifecycle_wf(old(self)@) ==> lifecycle_wf(final(self)@),
    {
        if self.initial_configure_acked {
            self.currently_mapped = true;
            self.map_state = XdgMapState::Mapped;
        }
    }

    pub fn mark_unmapped(&mut self)
        ensures
            final(self)@ == spec_mark_unmapped(old(self)@),
            lifecycle_wf(final(self)@),
    {
        self.initial_configure_sent = false;
        self.initial_configure_acked = false;
        self.currently_mapped = false;
        self.initial_empty_commit_received = true;
        self.configures.clear();
        self.last_acked_serial = None;
        self.map_state = XdgMapState::AwaitingInitialEmptyCommit;
        assert(self@.configures =~= Seq::<XdgConfigureRecord>::empty());
    }

    /// A commit without a buffer: the initial empty commit, or an unmap.
    pub fn begin_empty_or_unmap_commit(&mut self)
        ensures
            final(self)@ == spec_begin_empty_or_unmap_commit(old(self)@),
            lifecycle_wf(old(self)@) ==> lifecycle_wf(final(self)@),
    {
        if !self.initial_empty_commit_received && !self.initial_configure_sent
            && !self.initial_configure_acked {
            self.initial_empty_commit_received = true;
            self.map_state = XdgMapState::AwaitingInitialConfigureAck;
        } else {
            self.mark_unmapped();
        }
    }
}

/// A new lifecycle satisfies the lifecycle invariants.
pub proof fn lemma_default_wf()
    ensures
        lifecycle_wf(spec_default()),
{
}

/// A surface that cannot yet take a buffer either never acknowledged a
/// configure or is waiting for the acknowledgement of its initial configure.
pub proof fn lemma_no_buffer_before_initial_ack(v: XdgLifecycleView)
    requires
        lifecycle_wf(v),
        !spec_can_commit_buffer(v),
    ensures
        v.last_acked_serial is None || v.map_state == XdgMapState::AwaitingInitialConfigureAck,
        v.map_state != XdgMapState::Mapped,
        !v.currently_mapped,
{
}

/// Acknowledging the newest configure retires every older record: nothing
/// stays outstanding and the surface may commit buffers.
pub proof fn lemma_ack_newest_retires_older(v: XdgLifecycleView, serial: u32)
    requires
        lifecycle_wf(v),
        !has_serial(v.configures, serial),
    ensures
        ({
            let (ok, after) = spec_acknowledge(spec_record_configure(v, serial), serial);
            &&& ok
            &&& after.configures.len() == 0
            &&& !spec_has_outstanding_configure(after)
            &&& after.last_acked_serial == Some(serial)
            &&& spec_can_commit_buffer(after)
        }),
{
    let r = spec_record_configure(v, serial);
    let last = v.configures.len() as int;
    assert forall|j: int| #![trigger r.configures[j]] 0 <= j < last implies r.configures[j].serial != serial by {
        assert(r.configures[j] == supersede(v.configures[j]));
        if v.configures[j].serial == serial {
            assert(has_serial(v.configures, serial));
        }
    }
    assert(is_first_serial(r.configures, serial, last));
    lemma_first_serial_unique(r.configures, serial, last);
    let after = spec_acknowledge(r, serial).1;
    assert(after.configures =~= Seq::<XdgConfigureRecord>::empty());
}

/// An acknowledgement of a serial that was never sent is rejected and changes nothing.
pub proof fn lemma_unknown_ack_rejected(v: XdgLifecycleView, serial: u32)
    requires
        !has_serial(v.configures, serial),
    ensures
        spec_acknowledge(v, serial) == (false, v),
{
}

/// After an unmap no buffer is accepted until a fresh configure is acknowledged.
pub proof fn lemma_unmap_requires_fresh_ack(v: XdgLifecycleView, serial: u32)
    ensures
        !spec_can_commit_buffer(spec_mark_unmapped(v)),
        spec_mark_unmapped(v).initial_empty_commit_received && !spec_mark_unmapped(v).initial_configure_sent,
        !spec_can_commit_buffer(spec_record_configure(spec_mark_unmapped(v), serial)),
        spec_acknowledge(spec_record_configure(spec_mark_unmapped(v), serial), serial).0,
        spec_can_commit_buffer(spec_acknowledge(spec_record_configure(spec_mark_unmapped(v), serial), serial).1),
{
    let r = spec_record_configure(spec_mark_unmapped(v), serial);
    assert(r.configures.len() == 1);
    assert(is_first_serial(r.configures, serial, 0));
    lemma_first_serial_unique(r.configures, serial, 0);
}

/// One of the calls that move a surface's xdg lifecycle along.
pub enum XdgLifecycleStep {
    ConstructToplevel,
    ConstructPopup,
    InitialEmptyCommit,
    RecordConfigure(u32),
    Acknowledge(u32),
    BufferCommit,
    Unmapped,
    EmptyOrUnmapCommit,
}

/// The lifecycle after one call, as the calls' contracts state it.
pub open spec fn spec_step(v: XdgLifecycleView, step: XdgLifecycleStep) -> XdgLifecycleView {
    match step {
        XdgLifecycleStep::ConstructToplevel => if v.construction == XdgConstructionState::AssociatedUnconstructed {
            XdgLifecycleView { construction: XdgConstructionState::ConstructedToplevel, ..v }
        } else {
            v
        },
        XdgLifecycleStep::ConstructPopup => if v.construction == XdgConstructionState::AssociatedUnconstructed {
            XdgLifecycleView { construction: XdgConstructionState::ConstructedPopup, ..v }
        } else {
            v
        },
        XdgLifecycleStep::InitialEmptyCommit => spec_mark_initial_empty_commit(v).1,
        XdgLifecycleStep::RecordConfigure(serial) => spec_record_configure(v, serial),
        XdgLifecycleStep::Acknowledge(serial) => spec_acknowledge(v, serial).1,
        XdgLifecycleStep::BufferCommit => spec_mark_buffer_commit(v),
        XdgLifecycleStep::Unmapped => spec_mark_unmapped(v),
        XdgLifecycleStep::EmptyOrUnmapCommit => spec_begin_empty_or_unmap_commit(v),
    }
}

/// The lifecycle a new surface reaches through `steps`, in order.
pub open spec fn spec_reached(steps: Seq<XdgLifecycleStep>) -> XdgLifecycleView
    decreases steps.len(),
{
    if steps.len() == 0 {
        spec_default()
    } else {
        spec_step(spec_reached(steps.drop_last()), steps.last())
    }
}

/// A sequence holding a serial has a first position of it.
proof fn lemma_first_serial_exists(s: Seq<XdgConfigureRecord>, serial: u32, k: int)
    requires
        0 <= k < s.len(),
        s[k].serial == serial,
    ensures
        exists|i: int| is_first_serial(s, serial, i),
    decreases k,
{
    if exists|j: int| #![trigger s[j]] 0 <= j < k && s[j].serial == serial {
        let j = choose|j: int| #![trigger s[j]] 0 <= j < k && s[j].serial == serial;
        lemma_first_serial_exists(s, serial, j);
    } else {
        assert(is_first_serial(s, serial, k));
    }
}

/// Every call keeps the lifecycle invariants.
pub proof fn lemma_step_keeps_wf(v: XdgLifecycleView, step: XdgLifecycleStep)
    requires
        lifecycle_wf(v),
    ensures
        lifecycle_wf(spec_step(v, step)),
{
    match step {
        XdgLifecycleStep::RecordConfigure(serial) => {
            let w = spec_record_configure(v, serial);
            assert forall|i: int| #![trigger w.configures[i]] 0 <= i < w.configures.len() implies !w.configures[i].acknowledged by {
                if i < v.configures.len() {
                    assert(w.configures[i] == supersede(v.configures[i]));
                }
            }
        },
        XdgLifecycleStep::Acknowledge(serial) => {
            let w = spec_acknowledge(v, serial).1;
            if has_serial(v.configures, serial) {
                let k = choose|i: int| #![trigger v.configures[i]] 0 <= i < v.configures.len()
                    && v.configures[i].serial == serial;
                lemma_first_serial_exists(v.configures, serial, k);
            }
            match first_serial_index(v.configures, serial) {
                Some(idx) => {
                    if !v.configures[idx].acknowledged {
                        assert forall|i: int| #![trigger w.configures[i]] 0 <= i < w.configures.len() implies !w.configures[i].acknowledged by {
                            assert(w.configures[i] == v.configures[i + idx + 1]);
                        }
                    }
                },
                None => {},
            }
        },
        _ => {},
    }
}

/// Whatever sequence of calls a surface went through, its lifecycle keeps the
/// invariants; in particular it accepts a buffer exactly when a configure has
/// been acknowledged, and a surface that cannot take a buffer has no
/// acknowledged configure or waits for the acknowledgement of its initial one.
pub proof fn lemma_reached_lifecycle_accepts_buffers_after_ack(steps: Seq<XdgLifecycleStep>)
    ensures
        lifecycle_wf(spec_reached(steps)),
        spec_can_commit_buffer(spec_reached(steps)) <==> spec_reached(steps).last_acked_serial is Some,
        !spec_can_commit_buffer(spec_reached(steps)) ==> (spec_reached(steps).last_acked_serial is None
            || spec_reached(steps).map_state == XdgMapState::AwaitingInitialConfigureAck),
    decreases steps.len(),
{
    if steps.len() > 0 {
        lemma_reached_lifecycle_accepts_buffers_after_ack(steps.drop_last());
        lemma_step_keeps_wf(spec_reached(steps.drop_last()), steps.last());
    }
}

} // verus!
