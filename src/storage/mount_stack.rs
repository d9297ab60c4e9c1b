use super::filesystem::{mount_type_name, Filesystem};
use super::markers::BlockDevice;
use crate::text::{opt_view, string_of};
use crate::tool::views;
use vstd::prelude::*;

verus! {

/// A mount to perform. `noatime` is always set; `bind` marks a bind mount,
/// which has no filesystem type.
#[derive(Debug)]
pub struct MountRequest {
    pub source: String,
    pub target: String,
    pub fstype: Option<String>,
    pub bind: bool,
    pub noatime: bool,
    pub options: Option<String>,
}

/// An unmount that failed: its target and the system's error number.
#[derive(Debug)]
pub struct UmountError {
    pub target: String,
    pub errno: i32,
}

/// The targets mounted so far, in mounting order, and the mount that was
/// handed out and whose outcome is still to come.
#[derive(Debug)]
pub struct MountStack {
    targets: Vec<String>,
    pending: Option<String>,
}

/// The state of a drain: targets still mounted (the last one is unmounted
/// first), the target whose unmount is under way, and the last failure.
pub struct DrainView {
    pub remaining: Seq<Seq<char>>,
    pub in_flight: Option<Seq<char>>,
    pub failure: Option<(Seq<char>, i32)>,
}

/// Unmounts a stack's targets one at a time, last mounted first, and goes
/// on past failures, keeping the last one.
#[derive(Debug)]
pub struct Drain {
    remaining: Vec<String>,
    in_flight: Option<String>,
    failure: Option<UmountError>,
}

/// The drain after `next_target`: the last remaining target is under way.
pub open spec fn next_step(d: DrainView) -> DrainView {
    if d.remaining.len() == 0 {
        DrainView { remaining: d.remaining, in_flight: None, failure: d.failure }
    } else {
        DrainView { remaining: d.remaining.drop_last(), in_flight: Some(d.remaining.last()), failure: d.failure }
    }
}

/// The drain after `report(outcome)`: a failed unmount becomes the last failure.
pub open spec fn report_step(d: DrainView, outcome: Result<(), i32>) -> DrainView {
    let failure = match d.in_flight {
        Some(t) => match outcome {
            Err(e) => Some((t, e)),
            Ok(_) => d.failure,
        },
        None => d.failure,
    };
    DrainView { remaining: d.remaining, in_flight: None, failure }
}

/// The drain of a stack that holds `mounted`, before its first step.
pub open spec fn fresh_drain(mounted: Seq<Seq<char>>) -> DrainView {
    DrainView { remaining: mounted, in_flight: None, failure: None }
}

/// The drain after one `next_target` and one `report` for each of `outcomes`, in order.
pub open spec fn drain_run(d: DrainView, outcomes: Seq<Result<(), i32>>) -> DrainView
    decreases outcomes.len(),
{
    if outcomes.len() == 0 {
        d
    } else {
        drain_run(report_step(next_step(d), outcomes[0]), outcomes.drop_first())
    }
}

/// The targets that those `next_target` calls hand out, in order.
pub open spec fn drain_attempts(d: DrainView, outcomes: Seq<Result<(), i32>>) -> Seq<Seq<char>>
    decreases outcomes.len(),
{
    if outcomes.len() == 0 || d.remaining.len() == 0 {
        Seq::empty()
    } else {
        seq![d.remaining.last()] + drain_attempts(report_step(next_step(d), outcomes[0]), outcomes.drop_first())
    }
}

/// The last failed outcome, with the target it belongs to.
pub open spec fn last_failure(targets: Seq<Seq<char>>, outcomes: Seq<Result<(), i32>>) -> Option<(Seq<char>, i32)>
    decreases outcomes.len(),
{
    if outcomes.len() == 0 {
        None
    } else {
        match outcomes.last() {
            Err(e) => Some((targets[outcomes.len() - 1], e)),
            Ok(_) => last_failure(targets, outcomes.drop_last()),
        }
    }
}


proof fn lemma_reverse_last_first(m: Seq<Seq<char>>)
    requires
        m.len() > 0,
    ensures
        m.reverse() == seq![m.last()] + m.drop_last().reverse(),
{
    assert(m.reverse() =~= seq![m.last()] + m.drop_last().reverse());
}

proof fn lemma_attempts_reverse(d: DrainView, outcomes: Seq<Result<(), i32>>)
    requires
        outcomes.len() >= d.remaining.len(),
    ensures
        drain_attempts(d, outcomes) == d.remaining.reverse(),
        drain_run(d, outcomes).remaining.len() == 0,
    decreases outcomes.len(),
{
    if outcomes.len() == 0 {
        assert(d.remaining.reverse() =~= Seq::<Seq<char>>::empty());
    } else if d.remaining.len() == 0 {
        assert(d.remaining.reverse() =~= Seq::<Seq<char>>::empty());
        let d1 = report_step(next_step(d), outcomes[0]);
        lemma_attempts_reverse(d1, outcomes.drop_first());
    } else {
        let d1 = report_step(next_step(d), outcomes[0]);
        lemma_attempts_reverse(d1, outcomes.drop_first());
        lemma_reverse_last_first(d.remaining);
    }
}

proof fn lemma_last_failure_front(ts: Seq<Seq<char>>, outcomes: Seq<Result<(), i32>>)
    requires
        outcomes.len() > 0,
        ts.len() >= outcomes.len(),
    ensures
        last_failure(ts, outcomes) == match last_failure(ts.drop_first(), outcomes.drop_first()) {
            Some(f) => Some(f),
            None => match outcomes[0] {
                Err(e) => Some((ts[0], e)),
                Ok(_) => None,
            },
        },
    decreases outcomes.len(),
{
    if outcomes.len() == 1 {
        assert(outcomes.drop_last().len() == 0);
        assert(outcomes.drop_first().len() == 0);
    } else {
        lemma_last_failure_front(ts, outcomes.drop_last());
        assert(outcomes.drop_last().drop_first() =~= outcomes.drop_first().drop_last());
        assert(outcomes.drop_first().last() == outcomes.last());
    }
}

proof fn lemma_last_failure_exists(ts: Seq<Seq<char>>, outcomes: Seq<Result<(), i32>>)
    ensures
        last_failure(ts, outcomes) is Some <==> exists|i: int| 0 <= i < outcomes.len() && outcomes[i] is Err,
    decreases outcomes.len(),
{
    if outcomes.len() > 0 {
        lemma_last_failure_exists(ts, outcomes.drop_last());
        if outcomes.last() is Ok {
            if exists|i: int| 0 <= i < outcomes.len() && outcomes[i] is Err {
                let i = choose|i: int| 0 <= i < outcomes.len() && outcomes[i] is Err;
                assert(outcomes.drop_last()[i] is Err);
            }
        }
    }
}

proof fn lemma_run_failure(d: DrainView, outcomes: Seq<Result<(), i32>>)
    requires
        outcomes.len() == d.remaining.len(),
    ensures
        drain_run(d, outcomes).failure == match last_failure(d.remaining.reverse(), outcomes) {
            Some(f) => Some(f),
            None => d.failure,
        },
        outcomes.len() > 0 ==> drain_run(d, outcomes).in_flight is None,
    decreases outcomes.len(),
{
    if outcomes.len() > 0 {
        let m = d.remaining;
        let d1 = report_step(next_step(d), outcomes[0]);
        lemma_run_failure(d1, outcomes.drop_first());
        lemma_reverse_last_first(m);
        assert(m.reverse().drop_first() =~= m.drop_last().reverse());
        assert(m.reverse()[0] == m.last());
        lemma_last_failure_front(m.reverse(), outcomes);
    }
}

/// Draining a stack unmounts its targets in exactly the reverse order of
/// mounting, whatever each unmount's outcome: mounting A, B, C and then
/// draining unmounts C, B, A.
pub proof fn lemma_drain_reverses_mount_order(mounted: Seq<Seq<char>>, outcomes: Seq<Result<(), i32>>)
    requires
        outcomes.len() == mounted.len(),
    ensures
        drain_attempts(fresh_drain(mounted), outcomes) == mounted.reverse(),
{
    lemma_attempts_reverse(fresh_drain(mounted), outcomes);
}

/// A drain goes on past failed unmounts: every target is attempted, the
/// stack ends empty, and the drain fails exactly when some unmount failed,
/// reporting the last failure met.
pub proof fn lemma_drain_attempts_all(mounted: Seq<Seq<char>>, outcomes: Seq<Result<(), i32>>)
    requires
        outcomes.len() == mounted.len(),
    ensures
        drain_attempts(fresh_drain(mounted), outcomes).len() == mounted.len(),
        drain_run(fresh_drain(mounted), outcomes).remaining.len() == 0,
        drain_run(fresh_drain(mounted), outcomes).in_flight is None,
        drain_run(fresh_drain(mounted), outcomes).failure == last_failure(mounted.reverse(), outcomes),
        drain_run(fresh_drain(mounted), outcomes).failure is Some
            <==> exists|i: int| 0 <= i < outcomes.len() && outcomes[i] is Err,
{
    let d = fresh_drain(mounted);
    lemma_attempts_reverse(d, outcomes);
    lemma_run_failure(d, outcomes);
    lemma_last_failure_exists(mounted.reverse(), outcomes);
}

impl MountStack {
    /// The mounted targets, first mounted first.
    pub closed spec fn targets_view(&self) -> Seq<Seq<char>> {
        views(self.targets@)
    }

    /// The target of the mount whose outcome is still to come.
    pub closed spec fn pending_view(&self) -> Option<Seq<char>> {
        opt_view(self.pending)
    }

    pub fn new() -> (r: MountStack)
        ensures
            r.targets_view() == Seq::<Seq<char>>::empty(),
            r.pending_view() is None,
    {
        let r = MountStack { targets: Vec::new(), pending: None };
        proof {
            assert(r.targets_view() =~= Seq::<Seq<char>>::empty());
        }
        r
    }

    /// The mount of `filesystem` on `target`, with its kind as the mount
    /// type and `noatime`. Its target joins the stack once `complete`
    /// reports success.
    pub fn mount(&mut self, filesystem: &Filesystem, target: String, options: Option<String>) -> (r: MountRequest)
        ensures
            final(self).targets_view() == old(self).targets_view(),
            final(self).pending_view() == Some(target@),
            r.source@ == filesystem.block_view().device_path(),
            r.target@ == target@,
            opt_view(r.fstype) == Some(mount_type_name(filesystem.type_view())),
            !r.bind,
            r.noatime,
            opt_view(r.options) == opt_view(options),
    {
        let source = string_of(filesystem.block().path());
        let fstype = string_of(filesystem.fs_type().to_mount_type());
        self.pending = Some(target.clone());
        MountRequest { source, target, fstype: Some(fstype), bind: false, noatime: true, options }
    }

    /// The bind mount of `source` on `target`. Its target joins the stack
    /// once `complete` reports success.
    pub fn bind_mount(&mut self, source: String, target: String, options: Option<String>) -> (r: MountRequest)
        ensures
            final(self).targets_view() == old(self).targets_view(),
            final(self).pending_view() == Some(target@),
            r.source@ == source@,
            r.target@ == target@,
            r.fstype is None,
            r.bind,
            r.noatime,
            opt_view(r.options) == opt_view(options),
    {
        self.pending = Some(target.clone());
        MountRequest { source, target, fstype: None, bind: true, noatime: true, options }
    }

    /// Records the outcome of the mount last handed out: on success its
    /// target joins the stack. The outcome is handed back.
    pub fn complete(&mut self, outcome: Result<(), i32>) -> (r: Result<(), i32>)
        ensures
            r == outcome,
            final(self).pending_view() is None,
            final(self).targets_view() == match old(self).pending_view() {
                Some(t) => if outcome is Ok { old(self).targets_view().push(t) } else { old(self).targets_view() },
                None => old(self).targets_view(),
            },
    {
        let pending = self.pending.take();
        match pending {
            Some(t) => {
                if outcome.is_ok() {
                    self.targets.push(t);
                    proof {
                        assert(self.targets_view() =~= old(self).targets_view().push(old(self).pending_view().unwrap()));
                    }
                }
            },
            None => {},
        }
        outcome
    }

    /// How many targets are mounted.
    pub fn len(&self) -> (r: usize)
        ensures
            r == self.targets_view().len(),
    {
        self.targets.len()
    }

    /// Starts unmounting everything that was mounted.
    pub fn umount(self) -> (r: Drain)
        ensures
            r@ == fresh_drain(self.targets_view()),
    {
        Drain { remaining: self.targets, in_flight: None, failure: None }
    }
}

impl View for Drain {
    type V = DrainView;

    closed spec fn view(&self) -> DrainView {
        DrainView {
            remaining: views(self.remaining@),
            in_flight: opt_view(self.in_flight),
            failure: match self.failure {
                Some(e) => Some((e.target@, e.errno)),
                None => None,
            },
        }
    }
}

impl Drain {
    /// The next target to unmount, the most recently mounted of those left;
    /// `None` once all were handed out.
    pub fn next_target(&mut self) -> (r: Option<String>)
        ensures
            final(self)@ == next_step(old(self)@),
            r matches Some(t) ==> old(self)@.remaining.len() > 0 && t@ == old(self)@.remaining.last(),
            r is None <==> old(self)@.remaining.len() == 0,
    {
        match self.remaining.pop() {
            Some(t) => {
                self.in_flight = Some(t.clone());
                proof {
                    assert(self@.remaining =~= old(self)@.remaining.drop_last());
                }
                Some(t)
            },
            None => {
                self.in_flight = None;
                None
            },
        }
    }

    /// Records the outcome of unmounting the target last handed out.
    pub fn report(&mut self, outcome: Result<(), i32>)
        ensures
            final(self)@ == report_step(old(self)@, outcome),
    {
        let current = self.in_flight.take();
        match current {
            Some(target) => match outcome {
                Err(errno) => {
                    self.failure = Some(UmountError { target, errno });
                },
                Ok(_) => {},
            },
            None => {},
        }
    }

    /// Whether every target was handed out.
    pub fn is_done(&self) -> (r: bool)
        ensures
            r == (self@.remaining.len() == 0),
    {
        self.remaining.len() == 0
    }

    /// The drain's result: the last failure, if any.
    pub fn finish(self) -> (r: Result<(), UmountError>)
        ensures
            self@.failure is None ==> r is Ok,
            self@.failure matches Some(f) ==> (r matches Err(e) && e.target@ == f.0 && e.errno == f.1),
    {
        match self.failure {
            Some(e) => Err(e),
            None => Ok(()),
        }
    }
}

} // verus!
