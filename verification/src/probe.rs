//! Capability discovery.
//!
//! Which (driver, codec, API, adapter) combinations work on a machine is
//! found out by trial: every candidate combination is tried once against a
//! small sample bitstream, and each adapter that a trial reports becomes one
//! usable [`DecodeContext`]. The trials themselves are foreign calls, made
//! by the embedding program, in parallel if it likes. Here is what surrounds
//! them: the drafts to try ([`candidates`]), the call each draft asks for
//! ([`trial_call`]), and what the answers amount to ([`TrialReport::harvest`],
//! [`available`]).

use crate::common::{AdapterDesc, DataFormat, Driver, API, MAX_ADAPTER_NUM_ONE_VENDOR};
use crate::context::DecodeContext;
use vstd::prelude::*;

verus! {

/// A (codec, API) combination that a driver might support. Each driver has a
/// fixed list of them; being on the list guarantees nothing.
#[derive(Clone, Copy, Debug, PartialEq, Eq, Hash)]
pub struct Candidate {
    pub api: API,
    pub data_format: DataFormat,
}

/// The fixed sample bitstreams, one per codec family that can be probed.
#[derive(Clone, Copy, Debug, PartialEq, Eq, Hash)]
pub enum Sample {
    /// A short H.264 stream at 720p.
    H264,
    /// A short H.265 stream at 720p.
    H265,
}

/// One foreign trial call: the driver whose call table is to be used, the
/// capacity of the descriptor buffer to hand over, the selector arguments,
/// and the sample to decode.
#[derive(Clone, Copy, Debug, PartialEq, Eq, Hash)]
pub struct TrialCall {
    pub driver: Driver,
    pub max_adapters: u32,
    pub api: i32,
    pub data_format: i32,
    pub output_shared_handle: bool,
    pub sample: Sample,
}

/// What one trial answered: the draft that was tried, the status code, the
/// adapter count the backend wrote, and the descriptor buffer as the backend
/// left it.
#[derive(Clone, Debug, PartialEq, Eq)]
pub struct TrialReport {
    pub draft: DecodeContext,
    pub status: i32,
    pub count: i32,
    pub descs: Vec<AdapterDesc>,
}

/// The draft for one candidate of one driver: no device, adapter unresolved.
pub open spec fn draft_spec(driver: Driver, candidate: Candidate, output_shared_handle: bool)
    -> DecodeContext {
    DecodeContext {
        device: None,
        driver,
        data_format: candidate.data_format,
        api: candidate.api,
        output_shared_handle,
        luid: 0,
    }
}

/// The drafts for a driver's candidate list, in list order.
pub open spec fn drafts_spec(
    driver: Driver,
    list: Seq<Candidate>,
    output_shared_handle: bool,
) -> Seq<DecodeContext> {
    Seq::new(list.len(), |i: int| draft_spec(driver, list[i], output_shared_handle))
}

/// All drafts of a probing pass: NV's, then AMF's, then VPL's.
pub open spec fn candidates_spec(
    nv: Seq<Candidate>,
    amf: Seq<Candidate>,
    vpl: Seq<Candidate>,
    output_shared_handle: bool,
) -> Seq<DecodeContext> {
    drafts_spec(Driver::NV, nv, output_shared_handle) + drafts_spec(
        Driver::AMF,
        amf,
        output_shared_handle,
    ) + drafts_spec(Driver::VPL, vpl, output_shared_handle)
}

/// The sample that probes a codec; `None` for a codec that has none.
pub open spec fn sample_for_spec(data_format: DataFormat) -> Option<Sample> {
    match data_format {
        DataFormat::H264 => Some(Sample::H264),
        DataFormat::H265 => Some(Sample::H265),
        _ => None,
    }
}

pub open spec fn trial_call_spec(draft: DecodeContext) -> Option<TrialCall> {
    match sample_for_spec(draft.data_format) {
        Some(sample) => Some(
            TrialCall {
                driver: draft.driver,
                max_adapters: MAX_ADAPTER_NUM_ONE_VENDOR as u32,
                api: draft.api.selector,
                data_format: draft.data_format.code_spec(),
                output_shared_handle: draft.output_shared_handle,
                sample,
            },
        ),
        None => None,
    }
}

/// What all trials of a pass amount to: each report's harvest, one after
/// the other in report order. Nothing is merged or dropped.
pub open spec fn available_spec(trials: Seq<TrialReport>) -> Seq<DecodeContext>
    decreases trials.len(),
{
    if trials.len() == 0 {
        Seq::empty()
    } else {
        available_spec(trials.drop_last()) + trials.last().harvest_spec()
    }
}

impl TrialReport {
    /// How many descriptors can be read at most: the length of the buffer,
    /// and never more than a trial is allowed to write.
    pub open spec fn capacity(self) -> int {
        if self.descs@.len() <= MAX_ADAPTER_NUM_ONE_VENDOR {
            self.descs@.len() as int
        } else {
            MAX_ADAPTER_NUM_ONE_VENDOR as int
        }
    }

    /// How many adapters the trial found: none unless the status is zero;
    /// else the reported count, taken as zero where it is negative and cut
    /// down to the capacity where it exceeds it.
    pub open spec fn accepted(self) -> int {
        if self.status != 0 || self.count <= 0 {
            0
        } else if self.count <= self.capacity() {
            self.count as int
        } else {
            self.capacity()
        }
    }

    /// A successful trial whose count lies outside `0..=capacity`: the
    /// backend broke its side of the agreement.
    pub open spec fn violates_capacity_spec(&self) -> bool {
        self.status == 0 && (self.count < 0 || self.count > self.capacity())
    }

    /// One context per adapter found, in descriptor order: the draft with the
    /// adapter's identifier filled in.
    pub open spec fn harvest_spec(self) -> Seq<DecodeContext> {
        Seq::new(
            self.accepted() as nat,
            |k: int| self.draft.with_luid_spec(self.descs@[k].luid),
        )
    }

    /// Whether the backend reported a count that the buffer cannot hold, or
    /// a negative one. Such a report is still harvested, up to the capacity;
    /// this is for the caller to flag it.
    #[verifier::when_used_as_spec(violates_capacity_spec)]
    pub fn violates_capacity(&self) -> (b: bool)
        ensures
            b == self.violates_capacity_spec(),
    {
        if self.status != 0 {
            return false;
        }
        if self.count < 0 {
            return true;
        }
        let capacity = self.buffer_capacity();
        self.count as usize > capacity
    }

    fn buffer_capacity(&self) -> (n: usize)
        ensures
            n == self.capacity(),
    {
        if self.descs.len() <= MAX_ADAPTER_NUM_ONE_VENDOR {
            self.descs.len()
        } else {
            MAX_ADAPTER_NUM_ONE_VENDOR
        }
    }

    /// The contexts this trial proves usable.
    ///
    /// A failed trial (nonzero status) and a trial that found no adapter give
    /// nothing. Otherwise descriptor `k`, for each `k` below the reported
    /// count, gives the draft bound to that adapter. The count is never
    /// trusted beyond the buffer: reading stops at the capacity.
    pub fn harvest(&self) -> (found: Vec<DecodeContext>)
        ensures
            found@ == self.harvest_spec(),
    {
        let mut found: Vec<DecodeContext> = Vec::new();
        if self.status != 0 || self.count <= 0 {
            return found;
        }
        let capacity = self.buffer_capacity();
        let reported = self.count as usize;
        let n: usize = if reported <= capacity {
            reported
        } else {
            capacity
        };
        let mut k: usize = 0;
        while k < n
            invariant
                k <= n,
                n == self.accepted(),
                n <= self.descs@.len(),
                found@.len() == k,
                forall|j: int|
                    0 <= j < k ==> found@[j] == self.draft.with_luid_spec(
                        #[trigger] self.descs@[j].luid,
                    ),
            decreases n - k,
        {
            found.push(self.draft.with_luid(self.descs[k].luid));
            k += 1;
        }
        found
    }
}

/// The draft context for one candidate of one driver.
pub fn draft(driver: Driver, candidate: Candidate, output_shared_handle: bool) -> (ctx:
    DecodeContext)
    ensures
        ctx == draft_spec(driver, candidate, output_shared_handle),
{
    DecodeContext {
        device: None,
        driver,
        data_format: candidate.data_format,
        api: candidate.api,
        output_shared_handle,
        luid: 0,
    }
}

fn push_drafts(
    out: &mut Vec<DecodeContext>,
    driver: Driver,
    list: &[Candidate],
    output_shared_handle: bool,
)
    ensures
        final(out)@ == old(out)@ + drafts_spec(driver, list@, output_shared_handle),
{
    let ghost before = out@;
    let mut i: usize = 0;
    while i < list.len()
        invariant
            i <= list.len(),
            out@.len() == before.len() + i,
            forall|j: int| 0 <= j < before.len() ==> out@[j] == before[j],
            forall|j: int|
                0 <= j < i ==> out@[before.len() + j] == draft_spec(
                    driver,
                    #[trigger] list@[j],
                    output_shared_handle,
                ),
        decreases list.len() - i,
    {
        out.push(draft(driver, list[i], output_shared_handle));
        i += 1;
    }
}

/// The drafts to try in one probing pass.
///
/// Takes each driver's list of combinations it might support and the sharing
/// mode the caller needs, and gives one draft per list entry: NV's entries
/// first, then AMF's, then VPL's, each list in its own order. A driver with an
/// empty list contributes nothing.
pub fn candidates(
    nv: &[Candidate],
    amf: &[Candidate],
    vpl: &[Candidate],
    output_shared_handle: bool,
) -> (drafts: Vec<DecodeContext>)
    ensures
        drafts@ == candidates_spec(nv@, amf@, vpl@, output_shared_handle),
{
    let mut drafts: Vec<DecodeContext> = Vec::new();
    push_drafts(&mut drafts, Driver::NV, nv, output_shared_handle);
    push_drafts(&mut drafts, Driver::AMF, amf, output_shared_handle);
    push_drafts(&mut drafts, Driver::VPL, vpl, output_shared_handle);
    drafts
}

/// The sample bitstream that probes a codec. Only H.264 and H.265 have one.
#[verifier::when_used_as_spec(sample_for_spec)]
pub fn sample_for(data_format: DataFormat) -> (sample: Option<Sample>)
    ensures
        sample == sample_for_spec(data_format),
{
    match data_format {
        DataFormat::H264 => Some(Sample::H264),
        DataFormat::H265 => Some(Sample::H265),
        _ => None,
    }
}

/// The trial call for a draft, or `None` where the draft's codec has no
/// sample: such a draft is skipped, which is no error.
///
/// The call goes to the draft's driver with a descriptor buffer of
/// [`MAX_ADAPTER_NUM_ONE_VENDOR`] entries.
#[verifier::when_used_as_spec(trial_call_spec)]
pub fn trial_call(draft: DecodeContext) -> (call: Option<TrialCall>)
    ensures
        call == trial_call_spec(draft),
{
    match sample_for(draft.data_format) {
        Some(sample) => Some(
            TrialCall {
                driver: draft.driver,
                max_adapters: MAX_ADAPTER_NUM_ONE_VENDOR as u32,
                api: draft.api.selector,
                data_format: draft.data_format.code(),
                output_shared_handle: draft.output_shared_handle,
                sample,
            },
        ),
        None => None,
    }
}

/// The usable contexts that a probing pass found.
///
/// `trials` holds the reports of the trials that were run, in any order. The
/// result is every report's harvest, appended in report order. A failed
/// trial or one without adapters adds nothing, so the result may well be
/// empty: that is a machine without supported hardware, not an error.
pub fn available(trials: &[TrialReport]) -> (found: Vec<DecodeContext>)
    ensures
        found@ == available_spec(trials@),
{
    let mut found: Vec<DecodeContext> = Vec::new();
    let mut t: usize = 0;
    while t < trials.len()
        invariant
            t <= trials.len(),
            found@ == available_spec(trials@.take(t as int)),
        decreases trials.len() - t,
    {
        let mut batch = trials[t].harvest();
        found.append(&mut batch);
        proof {
            assert(trials@.take(t + 1).drop_last() == trials@.take(t as int));
        }
        t += 1;
    }
    proof {
        assert(trials@.take(trials@.len() as int) == trials@);
    }
    found
}

/// Reports add up: the contexts found by two batches of trials together are
/// those of the first batch followed by those of the second. Nothing is
/// merged, so two trials that report the same adapter both keep their
/// context.
pub proof fn lemma_available_concat(a: Seq<TrialReport>, b: Seq<TrialReport>)
    ensures
        available_spec(a + b) == available_spec(a) + available_spec(b),
    decreases b.len(),
{
    if b.len() == 0 {
        assert(a + b == a);
    } else {
        lemma_available_concat(a, b.drop_last());
        assert((a + b).drop_last() == a + b.drop_last());
        assert((a + b).last() == b.last());
    }
}

/// A pass with a single report finds that report's harvest.
pub proof fn lemma_available_single(report: TrialReport)
    ensures
        available_spec(seq![report]) == report.harvest_spec(),
{
    assert(seq![report].drop_last() == Seq::<TrialReport>::empty());
    assert(available_spec(seq![report].drop_last()) == Seq::<DecodeContext>::empty());
}

/// Whether `ctx` is what report `t` of `trials` makes of the `k`-th adapter
/// it accepted.
pub open spec fn found_by(trials: Seq<TrialReport>, ctx: DecodeContext, t: int, k: int) -> bool {
    &&& 0 <= t < trials.len()
    &&& 0 <= k < trials[t].accepted()
    &&& ctx == trials[t].draft.with_luid_spec(trials[t].descs@[k].luid)
}

/// A context is found exactly when some trial found an adapter for it: it
/// is the draft of one report, bound to one of the adapters that report
/// accepted.
pub proof fn lemma_available_contains(trials: Seq<TrialReport>, ctx: DecodeContext)
    ensures
        available_spec(trials).contains(ctx) <==> exists|t: int, k: int|
            found_by(trials, ctx, t, k),
    decreases trials.len(),
{
    let found = available_spec(trials);
    if trials.len() > 0 {
        let head = trials.drop_last();
        let last = trials.last();
        let older = available_spec(head);
        lemma_available_contains(head, ctx);
        if found.contains(ctx) {
            let i = choose|i: int| 0 <= i < found.len() && found[i] == ctx;
            if i < older.len() {
                assert(older[i] == ctx);
                assert(older.contains(ctx));
                let (t, k) = choose|t: int, k: int| found_by(head, ctx, t, k);
                assert(trials[t] == head[t]);
                assert(found_by(trials, ctx, t, k));
            } else {
                let k = i - older.len();
                assert(last.harvest_spec()[k] == ctx);
                assert(found_by(trials, ctx, trials.len() - 1, k));
            }
        }
        if exists|t: int, k: int| found_by(trials, ctx, t, k) {
            let (t, k) = choose|t: int, k: int| found_by(trials, ctx, t, k);
            if t < head.len() {
                assert(head[t] == trials[t]);
                assert(found_by(head, ctx, t, k));
                assert(older.contains(ctx));
                let i = choose|i: int| 0 <= i < older.len() && older[i] == ctx;
                assert(found[i] == ctx);
            } else {
                assert(last.harvest_spec()[k] == ctx);
                assert(found[older.len() + k] == ctx);
            }
        }
    }
}

/// Finding nothing is an ordinary outcome: the result is empty exactly when
/// no trial accepted an adapter, which includes the pass with no trials at
/// all.
pub proof fn lemma_available_empty(trials: Seq<TrialReport>)
    ensures
        available_spec(trials).len() == 0 <==> forall|t: int|
            0 <= t < trials.len() ==> (#[trigger] trials[t]).accepted() == 0,
    decreases trials.len(),
{
    if trials.len() > 0 {
        let head = trials.drop_last();
        lemma_available_empty(head);
        assert(forall|t: int| 0 <= t < head.len() ==> head[t] == trials[t]);
        if available_spec(trials).len() == 0 {
            assert forall|t: int| 0 <= t < trials.len() implies (#[trigger] trials[t]).accepted()
                == 0 by {
                if t < head.len() {
                    assert(head[t] == trials[t]);
                }
            }
        }
    }
}

/// The order in which trials report does not matter to what is found: two
/// passes with the same reports, in whatever order, find the same contexts
/// the same number of times.
pub proof fn lemma_available_order_independent(a: Seq<TrialReport>, b: Seq<TrialReport>)
    requires
        a.to_multiset() == b.to_multiset(),
    ensures
        available_spec(a).to_multiset() == available_spec(b).to_multiset(),
    decreases a.len(),
{
    a.to_multiset_ensures();
    b.to_multiset_ensures();
    if a.len() == 0 {
        assert(b.len() == 0);
    } else {
        let x = a.last();
        let head = a.drop_last();
        assert(a.contains(x));
        assert(b.to_multiset().count(x) > 0);
        assert(b.contains(x));
        let j = choose|j: int| 0 <= j < b.len() && b[j] == x;
        let rest = b.remove(j);
        assert(head == a.remove(a.len() - 1));
        assert(head.to_multiset() == rest.to_multiset());
        lemma_available_order_independent(head, rest);

        let front = b.take(j);
        let back = b.skip(j + 1);
        assert(b == front + seq![x] + back);
        assert(rest == front + back);
        lemma_available_concat(front, seq![x]);
        lemma_available_concat(front + seq![x], back);
        lemma_available_concat(front, back);
        lemma_available_single(x);
        let f = available_spec(front);
        let h = x.harvest_spec();
        let k = available_spec(back);
        assert(available_spec(b) == f + h + k);
        assert(available_spec(rest) == f + k);
        assert(available_spec(a) == available_spec(head) + h);
        vstd::seq_lib::lemma_multiset_commutative(f, h);
        vstd::seq_lib::lemma_multiset_commutative(f + h, k);
        vstd::seq_lib::lemma_multiset_commutative(f, k);
        vstd::seq_lib::lemma_multiset_commutative(available_spec(head), h);
        assert(available_spec(b).to_multiset() == f.to_multiset().add(h.to_multiset()).add(
            k.to_multiset(),
        ));
        assert(available_spec(a).to_multiset() == f.to_multiset().add(k.to_multiset()).add(
            h.to_multiset(),
        ));
    }
}

/// A found context asks the backend to construct what the trial tried: its
/// constructor call goes to the driver that was probed, with the same API
/// selector, codec and sharing mode as the trial call, on the adapter that
/// the trial reported, and with the draft's device.
pub proof fn lemma_found_context_asks_for_tried_combination(report: TrialReport, k: int)
    requires
        0 <= k < report.accepted(),
        trial_call_spec(report.draft) is Some,
    ensures
        ({
            let found = report.harvest_spec()[k];
            let tried = trial_call_spec(report.draft)->Some_0;
            let asked = found.create_call_spec();
            &&& asked.driver == tried.driver
            &&& asked.api == tried.api
            &&& asked.data_format == tried.data_format
            &&& asked.output_shared_handle == tried.output_shared_handle
            &&& asked.luid == report.descs@[k].luid
            &&& asked.device == report.draft.create_call_spec().device
        }),
{
}

/// Every draft of a pass is unresolved and lends no device, carries the
/// sharing mode that was asked for, and comes from one entry of one driver's
/// list; there is one draft per list entry.
pub proof fn lemma_candidates_are_drafts(
    nv: Seq<Candidate>,
    amf: Seq<Candidate>,
    vpl: Seq<Candidate>,
    output_shared_handle: bool,
)
    ensures
        candidates_spec(nv, amf, vpl, output_shared_handle).len() == nv.len() + amf.len()
            + vpl.len(),
        forall|i: int|
            0 <= i < nv.len() ==> #[trigger] candidates_spec(
                nv,
                amf,
                vpl,
                output_shared_handle,
            )[i] == draft_spec(Driver::NV, nv[i], output_shared_handle),
        forall|i: int|
            0 <= i < amf.len() ==> #[trigger] candidates_spec(
                nv,
                amf,
                vpl,
                output_shared_handle,
            )[nv.len() + i] == draft_spec(Driver::AMF, amf[i], output_shared_handle),
        forall|i: int|
            0 <= i < vpl.len() ==> #[trigger] candidates_spec(
                nv,
                amf,
                vpl,
                output_shared_handle,
            )[nv.len() + amf.len() + i] == draft_spec(Driver::VPL, vpl[i], output_shared_handle),
{
}

} // verus!
