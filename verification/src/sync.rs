//! The synchronization engine: which cached values are due for a write, how a
//! write is encoded for each kind of control, and the pass that walks a
//! catalog and records one outcome per control.
//!
//! The pass performs no device I/O. It hands out each write that is due; the
//! caller performs it and reports the result back.

use vstd::prelude::*;
use crate::descriptor::{ControlDescriptor, ControlKind};

verus! {

/// What became of one control in a pass.
#[derive(Clone, Copy, Debug, PartialEq, Eq, Structural)]
pub enum ApplyOutcome {
    /// The device accepted the write.
    Applied,
    /// Nothing was written: the value was unchanged and not forced, or the
    /// control is of a kind that is never written.
    Skipped,
    /// The device rejected the write.
    Failed,
}

/// One write to the device: the control's identifier and the encoded value.
#[derive(Clone, Copy, Debug, PartialEq, Eq, Structural)]
pub struct ControlWrite {
    pub id: u32,
    pub value: i64,
}

/// A cached value that is not among the indices its menu lists. It is never
/// forwarded to the device.
#[derive(Clone, Copy, Debug, PartialEq, Eq, Structural)]
pub struct InvalidMenuSelection {
    pub id: u32,
    pub value: i64,
}

/// The device rejected a write. `code` is whatever number the device layer
/// reported; the engine does not interpret it.
#[derive(Clone, Copy, Debug, PartialEq, Eq, Structural)]
pub struct WriteError {
    pub code: i32,
}

/// The decision for one control.
#[derive(Clone, Copy, Debug, PartialEq, Eq, Structural)]
pub enum Step {
    /// No write.
    Skip,
    /// This write is due.
    Write(ControlWrite),
    /// A write would be due, but the value is refused before it reaches the
    /// device.
    Reject(InvalidMenuSelection),
}

/// The recorded result for one control.
pub type ControlResult = Result<ApplyOutcome, InvalidMenuSelection>;

/// A checkbox is shown checked exactly when the encoded value is 0.
pub open spec fn checkbox_shows(value: i64) -> bool {
    value == 0
}

/// A checked box encodes 0, an unchecked one 1. The inversion is deliberate.
pub open spec fn checkbox_encodes(checked: bool) -> i64 {
    if checked {
        0
    } else {
        1
    }
}

/// The typed write for `value`, given that a write is due.
pub open spec fn encoded(d: ControlDescriptor, value: i64) -> Step {
    match d.kind {
        ControlKind::IntegerRange => Step::Write(ControlWrite { id: d.id, value }),
        ControlKind::Boolean => Step::Write(
            ControlWrite { id: d.id, value: checkbox_encodes(checkbox_shows(value)) },
        ),
        ControlKind::Menu => if d.lists(value as int) {
            Step::Write(ControlWrite { id: d.id, value })
        } else {
            Step::Reject(InvalidMenuSelection { id: d.id, value })
        },
        ControlKind::ClassHeader => Step::Skip,
        ControlKind::Unsupported => Step::Skip,
    }
}

/// The decision for one control: a typed write when the cached value differs
/// from the previous one or the pass is forced, otherwise nothing.
pub open spec fn step_for(d: ControlDescriptor, cached: i64, previous: i64, force: bool) -> Step {
    if cached != previous || force {
        encoded(d, cached)
    } else {
        Step::Skip
    }
}

/// The decisions for a whole catalog, index by index.
pub open spec fn plan_of(
    catalog: Seq<ControlDescriptor>,
    values: Seq<i64>,
    snapshot: Seq<i64>,
    force: bool,
) -> Seq<Step> {
    Seq::new(catalog.len(), |i: int| step_for(catalog[i], values[i], snapshot[i], force))
}

/// The result recorded for a step that needs no write.
pub open spec fn passive(step: Step) -> ControlResult {
    match step {
        Step::Reject(e) => Err(e),
        _ => Ok(ApplyOutcome::Skipped),
    }
}

/// The result recorded for a write the caller performed.
pub open spec fn reported(result: Result<(), WriteError>) -> ControlResult {
    match result {
        Ok(_) => Ok(ApplyOutcome::Applied),
        Err(_) => Ok(ApplyOutcome::Failed),
    }
}

/// A recorded result is one that the step allows.
pub open spec fn agrees(step: Step, result: ControlResult) -> bool {
    match step {
        Step::Write(_) => result == Ok::<ApplyOutcome, InvalidMenuSelection>(ApplyOutcome::Applied)
            || result == Ok::<ApplyOutcome, InvalidMenuSelection>(ApplyOutcome::Failed),
        _ => result == passive(step),
    }
}

/// The write that the pass is waiting on, if the next unrecorded step is one.
pub open spec fn due(steps: Seq<Step>, recorded: Seq<ControlResult>) -> Option<ControlWrite> {
    if recorded.len() < steps.len() {
        match steps[recorded.len() as int] {
            Step::Write(w) => Some(w),
            _ => None,
        }
    } else {
        None
    }
}

/// The results after recording every step that needs no write, from the first
/// unrecorded step up to the next write or the end.
pub open spec fn settle(steps: Seq<Step>, recorded: Seq<ControlResult>) -> Seq<ControlResult>
    decreases steps.len() - recorded.len(),
{
    if recorded.len() >= steps.len() || steps[recorded.len() as int] is Write {
        recorded
    } else {
        settle(steps, recorded.push(passive(steps[recorded.len() as int])))
    }
}

/// Whether the checkbox for an encoded value is shown checked.
pub fn checkbox_state(value: i64) -> (checked: bool)
    ensures
        checked == checkbox_shows(value),
{
    value == 0
}

/// The encoded value for a checkbox state.
pub fn checkbox_value(checked: bool) -> (value: i64)
    ensures
        value == checkbox_encodes(checked),
{
    if checked {
        0
    } else {
        1
    }
}

/// Encodes a write of `value` for the control `d`.
pub fn typed_write(d: &ControlDescriptor, value: i64) -> (step: Step)
    ensures
        step == encoded(*d, value),
{
    match d.kind {
        ControlKind::IntegerRange => Step::Write(ControlWrite { id: d.id, value }),
        ControlKind::Boolean => Step::Write(
            ControlWrite { id: d.id, value: checkbox_value(checkbox_state(value)) },
        ),
        ControlKind::Menu => {
            if d.offers(value) {
                Step::Write(ControlWrite { id: d.id, value })
            } else {
                Step::Reject(InvalidMenuSelection { id: d.id, value })
            }
        },
        ControlKind::ClassHeader => Step::Skip,
        ControlKind::Unsupported => Step::Skip,
    }
}

/// Decides what a pass does with one control.
pub fn decide(d: &ControlDescriptor, cached: i64, previous: i64, force: bool) -> (step: Step)
    ensures
        step == step_for(*d, cached, previous, force),
{
    if cached != previous || force {
        typed_write(d, cached)
    } else {
        Step::Skip
    }
}

/// One synchronization pass: the decisions for every control, and the results
/// recorded so far, in catalog order.
pub struct SyncPass {
    plan: Vec<Step>,
    outcomes: Vec<ControlResult>,
}

impl SyncPass {
    /// The decisions of this pass, one per control.
    pub closed spec fn steps(&self) -> Seq<Step> {
        self.plan@
    }

    /// The results recorded so far, for the controls before the cursor.
    pub closed spec fn recorded(&self) -> Seq<ControlResult> {
        self.outcomes@
    }

    /// Results exist for a prefix of the steps, and each is one its step
    /// allows.
    pub open spec fn wf(&self) -> bool {
        &&& self.recorded().len() <= self.steps().len()
        &&& forall|j: int|
            0 <= j < self.recorded().len() ==> agrees(
                #[trigger] self.steps()[j],
                self.recorded()[j],
            )
    }

    /// Every control has its result.
    pub open spec fn complete(&self) -> bool {
        self.recorded().len() == self.steps().len()
    }

    /// A pass over the given decisions, with nothing recorded yet.
    pub fn start(plan: Vec<Step>) -> (pass: SyncPass)
        ensures
            pass.wf(),
            pass.steps() == plan@,
            pass.recorded() == Seq::<ControlResult>::empty(),
    {
        SyncPass { plan, outcomes: Vec::new() }
    }

    /// Moves to the next write that is due and returns it, recording on the
    /// way the result of every step that needs none. Returns `None` once every
    /// control has its result. Until the write's result is recorded, calling
    /// again returns the same write.
    pub fn next_write(&mut self) -> (write: Option<ControlWrite>)
        requires
            old(self).wf(),
        ensures
            final(self).wf(),
            final(self).steps() == old(self).steps(),
            final(self).recorded() == settle(old(self).steps(), old(self).recorded()),
            write == due(final(self).steps(), final(self).recorded()),
            write is None <==> final(self).complete(),
    {
        let n = self.plan.len();
        loop
            invariant
                n == self.plan@.len(),
                self.plan@ == old(self).plan@,
                self.wf(),
                settle(self.plan@, self.outcomes@) == settle(old(self).plan@, old(self).outcomes@),
            decreases n - self.outcomes@.len(),
        {
            let i = self.outcomes.len();
            if i >= n {
                return None;
            }
            match self.plan[i] {
                Step::Write(w) => {
                    return Some(w);
                },
                Step::Skip => {
                    self.outcomes.push(Ok(ApplyOutcome::Skipped));
                },
                Step::Reject(e) => {
                    self.outcomes.push(Err(e));
                },
            }
        }
    }

    /// Records the result of the write that `next_write` handed out. A pass
    /// that is not waiting on a write is left as it is, and `false` comes
    /// back.
    pub fn record(&mut self, result: Result<(), WriteError>) -> (accepted: bool)
        requires
            old(self).wf(),
        ensures
            final(self).wf(),
            final(self).steps() == old(self).steps(),
            accepted == due(old(self).steps(), old(self).recorded()).is_some(),
            accepted ==> final(self).recorded() == old(self).recorded().push(reported(result)),
            !accepted ==> final(self).recorded() == old(self).recorded(),
    {
        let i = self.outcomes.len();
        if i >= self.plan.len() {
            return false;
        }
        match self.plan[i] {
            Step::Write(_) => {
                match result {
                    Ok(_) => self.outcomes.push(Ok(ApplyOutcome::Applied)),
                    Err(_) => self.outcomes.push(Ok(ApplyOutcome::Failed)),
                }
                true
            },
            _ => false,
        }
    }

    /// Whether every control has its result.
    pub fn is_complete(&self) -> (done: bool)
        ensures
            done == self.complete(),
    {
        self.outcomes.len() == self.plan.len()
    }

    /// The results recorded so far, in catalog order.
    pub fn outcomes(&self) -> (results: &Vec<ControlResult>)
        ensures
            results@ == self.recorded(),
    {
        &self.outcomes
    }
}

/// What `settle` amounts to, without recursion: it keeps what was recorded,
/// adds the passive result of every step it passes, passes no write, and stops
/// at the first write or at the end.
pub proof fn lemma_settle_shape(steps: Seq<Step>, recorded: Seq<ControlResult>)
    requires
        recorded.len() <= steps.len(),
    ensures
        recorded.len() <= settle(steps, recorded).len() <= steps.len(),
        forall|j: int| 0 <= j < recorded.len() ==> settle(steps, recorded)[j] == recorded[j],
        forall|j: int|
            recorded.len() <= j < settle(steps, recorded).len() ==> !(#[trigger] steps[j] is Write)
                && settle(steps, recorded)[j] == passive(steps[j]),
        settle(steps, recorded).len() == steps.len() || steps[settle(
            steps,
            recorded,
        ).len() as int] is Write,
    decreases steps.len() - recorded.len(),
{
    if recorded.len() >= steps.len() || steps[recorded.len() as int] is Write {
    } else {
        let next = recorded.push(passive(steps[recorded.len() as int]));
        lemma_settle_shape(steps, next);
        assert forall|j: int| 0 <= j < recorded.len() implies settle(steps, recorded)[j]
            == recorded[j] by {
            assert(next[j] == recorded[j]);
        }
        assert forall|j: int| recorded.len() <= j < settle(steps, recorded).len() implies !(
        #[trigger] steps[j] is Write) && settle(steps, recorded)[j] == passive(steps[j]) by {
            if j == recorded.len() {
                assert(next[j] == passive(steps[j]));
            }
        }
    }
}

/// A section marker is never written, whatever its cached value and whether
/// or not the pass is forced. The same holds of an unsupported control.
pub proof fn lemma_markers_never_written(
    d: ControlDescriptor,
    cached: i64,
    previous: i64,
    force: bool,
)
    requires
        d.kind == ControlKind::ClassHeader || d.kind == ControlKind::Unsupported,
    ensures
        step_for(d, cached, previous, force) == Step::Skip,
{
}

/// A write is only ever due for a value that changed or under force, for a
/// control that has a value, under the control's own identifier, and with a
/// value its kind allows: the cached value itself for a range, 0 or 1 for a
/// toggle, a listed index for a menu.
pub proof fn lemma_write_is_warranted(
    d: ControlDescriptor,
    cached: i64,
    previous: i64,
    force: bool,
    w: ControlWrite,
)
    requires
        step_for(d, cached, previous, force) == Step::Write(w),
    ensures
        cached != previous || force,
        d.kind != ControlKind::ClassHeader,
        d.kind != ControlKind::Unsupported,
        w.id == d.id,
        d.kind == ControlKind::IntegerRange ==> w.value == cached,
        d.kind == ControlKind::Boolean ==> (w.value == 0 || w.value == 1) && (w.value == 0
            <==> cached == 0),
        d.kind == ControlKind::Menu ==> w.value == cached && d.lists(cached as int),
{
}

/// A checkbox state that is due for a toggle is written inverted: 0 for
/// checked, 1 for unchecked.
pub proof fn lemma_checkbox_write_inverts(
    d: ControlDescriptor,
    checked: bool,
    previous: i64,
    force: bool,
)
    requires
        d.kind == ControlKind::Boolean,
        checkbox_encodes(checked) != previous || force,
    ensures
        step_for(d, checkbox_encodes(checked), previous, force) == Step::Write(
            ControlWrite { id: d.id, value: if checked { 0i64 } else { 1i64 } },
        ),
        checkbox_shows(checkbox_encodes(checked)) == checked,
{
}

/// A menu value that is due but not listed is refused, and no write is made
/// for it.
pub proof fn lemma_unlisted_menu_value_refused(
    d: ControlDescriptor,
    cached: i64,
    previous: i64,
    force: bool,
)
    requires
        d.kind == ControlKind::Menu,
        !d.lists(cached as int),
        cached != previous || force,
    ensures
        step_for(d, cached, previous, force) == Step::Reject(
            InvalidMenuSelection { id: d.id, value: cached },
        ),
{
}

/// The default of a valid descriptor is never refused.
pub proof fn lemma_valid_default_never_refused(d: ControlDescriptor, previous: i64, force: bool)
    requires
        d.valid(),
    ensures
        !(step_for(d, d.default, previous, force) is Reject),
{
}

/// With no value edited since the snapshot and no force, no control is due.
pub proof fn lemma_unedited_plan_skips(catalog: Seq<ControlDescriptor>, values: Seq<i64>)
    ensures
        plan_of(catalog, values, values, false) == Seq::new(catalog.len(), |i: int| Step::Skip),
{
    assert(plan_of(catalog, values, values, false) =~= Seq::new(
        catalog.len(),
        |i: int| Step::Skip,
    ));
}

/// A pass in which no control is due runs to its end in one move, hands out
/// no write, and records `Skipped` for every control.
pub proof fn lemma_idle_pass_skips_all(steps: Seq<Step>)
    requires
        forall|j: int| 0 <= j < steps.len() ==> steps[j] == Step::Skip,
    ensures
        settle(steps, Seq::<ControlResult>::empty()) == Seq::new(
            steps.len(),
            |i: int| Ok::<ApplyOutcome, InvalidMenuSelection>(ApplyOutcome::Skipped),
        ),
        due(steps, settle(steps, Seq::<ControlResult>::empty())) is None,
{
    let end = settle(steps, Seq::<ControlResult>::empty());
    lemma_settle_shape(steps, Seq::<ControlResult>::empty());
    if end.len() < steps.len() {
        assert(steps[end.len() as int] == Step::Skip);
    }
    assert forall|j: int| 0 <= j < end.len() implies end[j] == Ok::<
        ApplyOutcome,
        InvalidMenuSelection,
    >(ApplyOutcome::Skipped) by {
        assert(steps[j] == Step::Skip);
    }
    assert(end =~= Seq::new(
        steps.len(),
        |i: int| Ok::<ApplyOutcome, InvalidMenuSelection>(ApplyOutcome::Skipped),
    ));
}

/// A rejected write stops nothing. Whatever the device answered to a write,
/// the pass goes on to the same controls, records the same results for them,
/// and waits on the same next write; only the result of the write itself
/// differs.
pub proof fn lemma_write_result_is_local(
    steps: Seq<Step>,
    recorded: Seq<ControlResult>,
    a: Result<(), WriteError>,
    b: Result<(), WriteError>,
)
    requires
        due(steps, recorded) is Some,
    ensures
        settle(steps, recorded.push(reported(a))).len() == settle(
            steps,
            recorded.push(reported(b)),
        ).len(),
        due(steps, settle(steps, recorded.push(reported(a)))) == due(
            steps,
            settle(steps, recorded.push(reported(b))),
        ),
        forall|j: int|
            0 <= j < settle(steps, recorded.push(reported(a))).len() && j != recorded.len()
                ==> settle(steps, recorded.push(reported(a)))[j] == settle(
                steps,
                recorded.push(reported(b)),
            )[j],
        settle(steps, recorded.push(reported(a)))[recorded.len() as int] == reported(a),
{
    let ra = recorded.push(reported(a));
    let rb = recorded.push(reported(b));
    let sa = settle(steps, ra);
    let sb = settle(steps, rb);
    lemma_settle_shape(steps, ra);
    lemma_settle_shape(steps, rb);
    assert(ra[recorded.len() as int] == reported(a));
    if sa.len() < sb.len() {
        assert(!(steps[sa.len() as int] is Write));
    }
    if sb.len() < sa.len() {
        assert(!(steps[sb.len() as int] is Write));
    }
    assert forall|j: int| 0 <= j < sa.len() && j != recorded.len() implies sa[j] == sb[j] by {
        if j < recorded.len() {
            assert(ra[j] == recorded[j]);
            assert(rb[j] == recorded[j]);
        } else {
            assert(!(steps[j] is Write));
        }
    }
}

} // verus!
