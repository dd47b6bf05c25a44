//! The cached device: a catalog of descriptors paired, index by index, with
//! the engine's current value for each control and the value that the last
//! pass saw.

use vstd::prelude::*;
use crate::descriptor::{ControlDescriptor, ControlKind};
use crate::sync::{
    checkbox_encodes, checkbox_value, decide, due, lemma_idle_pass_skips_all,
    lemma_unedited_plan_skips, lemma_write_is_warranted, plan_of, settle, ApplyOutcome,
    ControlResult, ControlWrite, InvalidMenuSelection, Step, SyncPass,
};

verus! {

/// The default of every descriptor, in catalog order.
pub open spec fn defaults_of(catalog: Seq<ControlDescriptor>) -> Seq<i64> {
    Seq::new(catalog.len(), |i: int| catalog[i].default)
}

/// The catalog of one selected device together with its cached values. The
/// three sequences are only ever built and changed together.
pub struct CachedDevice {
    ctrls: Vec<ControlDescriptor>,
    vals: Vec<i64>,
    prev: Vec<i64>,
}

impl CachedDevice {
    /// The descriptors, in the order the device reported them.
    pub closed spec fn catalog(&self) -> Seq<ControlDescriptor> {
        self.ctrls@
    }

    /// The cached value of each control.
    pub closed spec fn values(&self) -> Seq<i64> {
        self.vals@
    }

    /// The value of each control as the last pass saw it.
    pub closed spec fn snapshot(&self) -> Seq<i64> {
        self.prev@
    }

    /// Every descriptor has exactly one cached value and one snapshot value,
    /// at its own index.
    pub open spec fn wf(&self) -> bool {
        &&& self.values().len() == self.catalog().len()
        &&& self.snapshot().len() == self.catalog().len()
    }

    /// The decisions a pass would take now.
    pub open spec fn planned(&self, force: bool) -> Seq<Step> {
        plan_of(self.catalog(), self.values(), self.snapshot(), force)
    }

    /// Builds the cache for a freshly enumerated catalog: every value starts
    /// at its descriptor's default, and nothing counts as edited.
    pub fn mk(ctrls: Vec<ControlDescriptor>) -> (cd: CachedDevice)
        ensures
            cd.wf(),
            cd.catalog() == ctrls@,
            cd.values() == defaults_of(ctrls@),
            cd.snapshot() == defaults_of(ctrls@),
    {
        let mut vals: Vec<i64> = Vec::with_capacity(ctrls.len());
        let mut prev: Vec<i64> = Vec::with_capacity(ctrls.len());
        let mut i: usize = 0;
        while i < ctrls.len()
            invariant
                i <= ctrls@.len(),
                vals@.len() == i,
                prev@.len() == i,
                forall|k: int| 0 <= k < i ==> vals@[k] == (#[trigger] ctrls@[k]).default,
                forall|k: int| 0 <= k < i ==> prev@[k] == (#[trigger] ctrls@[k]).default,
            decreases ctrls@.len() - i,
        {
            vals.push(ctrls[i].default);
            prev.push(ctrls[i].default);
            i += 1;
        }
        assert(vals@ =~= defaults_of(ctrls@));
        assert(prev@ =~= defaults_of(ctrls@));
        CachedDevice { ctrls, vals, prev }
    }

    /// The number of controls.
    pub fn len(&self) -> (n: usize)
        ensures
            n == self.catalog().len(),
    {
        self.ctrls.len()
    }

    /// The descriptor at `i`, if there is one.
    pub fn descriptor(&self, i: usize) -> (d: Option<&ControlDescriptor>)
        ensures
            d is Some <==> i < self.catalog().len(),
            d is Some ==> *d.unwrap() == self.catalog()[i as int],
    {
        if i < self.ctrls.len() {
            Some(&self.ctrls[i])
        } else {
            None
        }
    }

    /// The cached value at `i`, if there is one.
    pub fn value(&self, i: usize) -> (v: Option<i64>)
        requires
            self.wf(),
        ensures
            v == (if i < self.catalog().len() {
                Some(self.values()[i as int])
            } else {
                None
            }),
    {
        if i < self.vals.len() {
            Some(self.vals[i])
        } else {
            None
        }
    }

    /// Stores an edited value for the control at `i`. Nothing else changes,
    /// and an index past the end changes nothing at all.
    pub fn set_value(&mut self, i: usize, value: i64) -> (stored: bool)
        requires
            old(self).wf(),
        ensures
            final(self).wf(),
            final(self).catalog() == old(self).catalog(),
            final(self).snapshot() == old(self).snapshot(),
            stored == (i < old(self).catalog().len()),
            stored ==> final(self).values() == old(self).values().update(i as int, value),
            !stored ==> final(self).values() == old(self).values(),
    {
        if i < self.vals.len() {
            self.vals.set(i, value);
            true
        } else {
            false
        }
    }

    /// Stores the state of a checkbox for the control at `i`: 0 when checked,
    /// 1 when not.
    pub fn set_checked(&mut self, i: usize, checked: bool) -> (stored: bool)
        requires
            old(self).wf(),
        ensures
            final(self).wf(),
            final(self).catalog() == old(self).catalog(),
            final(self).snapshot() == old(self).snapshot(),
            stored == (i < old(self).catalog().len()),
            stored ==> final(self).values() == old(self).values().update(
                i as int,
                checkbox_encodes(checked),
            ),
            !stored ==> final(self).values() == old(self).values(),
    {
        self.set_value(i, checkbox_value(checked))
    }

    /// Starts a pass: decides for every control whether a write is due, and
    /// takes the current values as the snapshot the next pass compares with.
    /// The values and the catalog stay as they are.
    pub fn begin_pass(&mut self, force: bool) -> (pass: SyncPass)
        requires
            old(self).wf(),
        ensures
            final(self).wf(),
            final(self).catalog() == old(self).catalog(),
            final(self).values() == old(self).values(),
            final(self).snapshot() == final(self).values(),
            pass.wf(),
            pass.steps() == old(self).planned(force),
            pass.recorded() == Seq::<ControlResult>::empty(),
    {
        let n = self.ctrls.len();
        let mut plan: Vec<Step> = Vec::with_capacity(n);
        let mut i: usize = 0;
        while i < n
            invariant
                n == self.ctrls@.len(),
                *self == *old(self),
                self.wf(),
                i <= n,
                plan@.len() == i,
                forall|k: int| 0 <= k < i ==> #[trigger] plan@[k] == old(self).planned(force)[k],
            decreases n - i,
        {
            let step = decide(&self.ctrls[i], self.vals[i], self.prev[i], force);
            plan.push(step);
            i += 1;
        }
        assert(plan@ =~= old(self).planned(force));
        self.prev = self.vals.clone();
        SyncPass::start(plan)
    }
}

/// Idempotence of the unforced path. A device whose snapshot equals its
/// values, which is how every pass leaves it, has nothing due: an unforced
/// pass hands out no write and records `Skipped` for every control.
pub proof fn lemma_unforced_pass_after_pass_skips(cd: CachedDevice)
    requires
        cd.wf(),
        cd.snapshot() == cd.values(),
    ensures
        settle(cd.planned(false), Seq::<ControlResult>::empty()) == Seq::new(
            cd.catalog().len(),
            |i: int| Ok::<ApplyOutcome, InvalidMenuSelection>(ApplyOutcome::Skipped),
        ),
        due(cd.planned(false), settle(cd.planned(false), Seq::<ControlResult>::empty())) is None,
{
    lemma_unedited_plan_skips(cd.catalog(), cd.values());
    lemma_idle_pass_skips_all(cd.planned(false));
}

/// No pass ever waits on a write for a section marker or an unsupported
/// control, whatever was cached, edited or forced.
pub proof fn lemma_pass_never_writes_marker(
    cd: CachedDevice,
    force: bool,
    recorded: Seq<ControlResult>,
)
    requires
        cd.wf(),
        recorded.len() < cd.catalog().len(),
        cd.catalog()[recorded.len() as int].kind == ControlKind::ClassHeader
            || cd.catalog()[recorded.len() as int].kind == ControlKind::Unsupported,
    ensures
        due(cd.planned(force), recorded) is None,
{
}

/// Every write a pass waits on belongs to the control at the cursor, carries
/// that control's identifier, and is there because the value changed or the
/// pass is forced.
pub proof fn lemma_pass_write_belongs_to_control(
    cd: CachedDevice,
    force: bool,
    recorded: Seq<ControlResult>,
    w: ControlWrite,
)
    requires
        cd.wf(),
        due(cd.planned(force), recorded) == Some(w),
    ensures
        recorded.len() < cd.catalog().len(),
        w.id == cd.catalog()[recorded.len() as int].id,
        force || cd.values()[recorded.len() as int] != cd.snapshot()[recorded.len() as int],
{
    let i = recorded.len() as int;
    lemma_write_is_warranted(cd.catalog()[i], cd.values()[i], cd.snapshot()[i], force, w);
}

} // verus!
