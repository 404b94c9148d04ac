use hwcodec::{
    available, candidates, draft, sample_for, trial_call, AdapterDesc, Candidate, CodecHandle,
    CreateCall, DataFormat, DecodeContext, Decoder, Driver, Sample, TrialCall, TrialReport, API,
    MAX_ADAPTER_NUM_ONE_VENDOR,
};

/// A machine in memory: for each driver, the codecs it decodes and the
/// adapters it decodes them on.
struct FakeMachine {
    support: Vec<(Driver, i32, Vec<u64>)>,
}

impl FakeMachine {
    /// The foreign trial call: status, count, and the descriptor buffer.
    fn test(&self, call: &TrialCall) -> (i32, i32, Vec<AdapterDesc>) {
        let mut descs = vec![AdapterDesc { luid: 0 }; call.max_adapters as usize];
        for (driver, data_format, luids) in &self.support {
            if *driver == call.driver && *data_format == call.data_format {
                for (i, luid) in luids.iter().enumerate() {
                    descs[i] = AdapterDesc { luid: *luid };
                }
                return (0, luids.len() as i32, descs);
            }
        }
        (-1, 0, descs)
    }

    /// The foreign constructor: a handle where the combination is supported.
    fn create(&self, call: &CreateCall) -> CodecHandle {
        for (driver, data_format, luids) in &self.support {
            if *driver == call.driver && *data_format == call.data_format && luids.contains(&call.luid) {
                return CodecHandle { addr: 0x1000 + call.luid as usize };
            }
        }
        CodecHandle::null()
    }
}

/// One probing pass as the embedding program runs it, one trial after the
/// other.
fn probe(machine: &FakeMachine, nv: &[Candidate], amf: &[Candidate], vpl: &[Candidate], shared: bool) -> Vec<DecodeContext> {
    let mut reports = vec![];
    for d in candidates(nv, amf, vpl, shared) {
        if let Some(call) = trial_call(d) {
            let (status, count, descs) = machine.test(&call);
            reports.push(TrialReport { draft: d, status, count, descs });
        }
    }
    available(&reports)
}

fn cand(data_format: DataFormat, selector: i32) -> Candidate {
    Candidate { api: API { selector }, data_format }
}

fn nv_h264() -> DecodeContext {
    draft(Driver::NV, cand(DataFormat::H264, 0), false)
}

fn descs(luids: &[u64]) -> Vec<AdapterDesc> {
    luids.iter().map(|l| AdapterDesc { luid: *l }).collect()
}

fn sorted(mut v: Vec<DecodeContext>) -> Vec<(u8, i32, i32, u64, bool)> {
    let mut keys: Vec<(u8, i32, i32, u64, bool)> = v
        .drain(..)
        .map(|c| {
            let d = match c.driver {
                Driver::NV => 0,
                Driver::AMF => 1,
                Driver::VPL => 2,
            };
            (d, c.data_format.code(), c.api.selector, c.luid, c.output_shared_handle)
        })
        .collect();
    keys.sort();
    keys
}

#[test]
fn the_adapter_capacity_is_four() {
    assert_eq!(MAX_ADAPTER_NUM_ONE_VENDOR, 4);
}

#[test]
fn a_draft_is_unresolved_and_lends_no_device() {
    assert_eq!(
        draft(Driver::AMF, cand(DataFormat::H265, 2), true),
        DecodeContext {
            device: None,
            driver: Driver::AMF,
            data_format: DataFormat::H265,
            api: API { selector: 2 },
            output_shared_handle: true,
            luid: 0,
        }
    );
}

#[test]
fn candidates_come_driver_by_driver_in_list_order() {
    let nv = [cand(DataFormat::H264, 0), cand(DataFormat::H265, 0)];
    let amf = [cand(DataFormat::H265, 1)];
    let vpl = [cand(DataFormat::AV1, 0), cand(DataFormat::H264, 0)];
    let got = candidates(&nv, &amf, &vpl, true);
    assert_eq!(
        got,
        vec![
            draft(Driver::NV, nv[0], true),
            draft(Driver::NV, nv[1], true),
            draft(Driver::AMF, amf[0], true),
            draft(Driver::VPL, vpl[0], true),
            draft(Driver::VPL, vpl[1], true),
        ]
    );
    assert!(got.iter().all(|c| c.luid == 0 && c.device.is_none() && c.output_shared_handle));
}

#[test]
fn a_driver_without_candidates_contributes_nothing() {
    let amf = [cand(DataFormat::H264, 0)];
    assert_eq!(candidates(&[], &amf, &[], false), vec![draft(Driver::AMF, amf[0], false)]);
    assert!(candidates(&[], &[], &[], false).is_empty());
}

#[test]
fn only_h264_and_h265_have_a_sample() {
    assert_eq!(sample_for(DataFormat::H264), Some(Sample::H264));
    assert_eq!(sample_for(DataFormat::H265), Some(Sample::H265));
    assert_eq!(sample_for(DataFormat::VP8), None);
    assert_eq!(sample_for(DataFormat::VP9), None);
    assert_eq!(sample_for(DataFormat::AV1), None);
}

#[test]
fn the_trial_call_carries_the_draft_and_the_capacity() {
    let d = draft(Driver::VPL, cand(DataFormat::H265, 3), true);
    assert_eq!(
        trial_call(d),
        Some(TrialCall {
            driver: Driver::VPL,
            max_adapters: 4,
            api: 3,
            data_format: 1,
            output_shared_handle: true,
            sample: Sample::H265,
        })
    );
}

#[test]
fn a_draft_for_an_unprobed_codec_is_skipped() {
    assert_eq!(trial_call(draft(Driver::NV, cand(DataFormat::VP9, 0), false)), None);
    assert_eq!(trial_call(draft(Driver::AMF, cand(DataFormat::AV1, 0), true)), None);
}

#[test]
fn harvest_binds_the_draft_to_each_adapter_in_order() {
    let report = TrialReport { draft: nv_h264(), status: 0, count: 3, descs: descs(&[9, 3, 5, 0]) };
    assert_eq!(
        report.harvest(),
        vec![nv_h264().with_luid(9), nv_h264().with_luid(3), nv_h264().with_luid(5)]
    );
    assert!(!report.violates_capacity());
}

#[test]
fn a_failed_trial_gives_nothing() {
    let report = TrialReport { draft: nv_h264(), status: -1, count: 2, descs: descs(&[9, 3, 0, 0]) };
    assert!(report.harvest().is_empty());
    assert!(!report.violates_capacity());
    let report = TrialReport { draft: nv_h264(), status: 1, count: 100, descs: descs(&[9, 3, 0, 0]) };
    assert!(report.harvest().is_empty());
    assert!(!report.violates_capacity());
}

#[test]
fn success_with_count_zero_emits_no_context() {
    let report = TrialReport { draft: nv_h264(), status: 0, count: 0, descs: descs(&[0, 0, 0, 0]) };
    assert!(report.harvest().is_empty());
    assert!(!report.violates_capacity());
    assert!(available(&[report]).is_empty());
}

#[test]
fn a_count_beyond_the_capacity_is_cut_and_flagged() {
    let report = TrialReport { draft: nv_h264(), status: 0, count: 5, descs: descs(&[1, 2, 3, 4]) };
    assert_eq!(
        report.harvest(),
        vec![
            nv_h264().with_luid(1),
            nv_h264().with_luid(2),
            nv_h264().with_luid(3),
            nv_h264().with_luid(4),
        ]
    );
    assert!(report.violates_capacity());
    let report = TrialReport { draft: nv_h264(), status: 0, count: i32::MAX, descs: descs(&[1, 2, 3, 4]) };
    assert_eq!(report.harvest().len(), 4);
    assert!(report.violates_capacity());
}

#[test]
fn a_full_buffer_is_within_the_capacity() {
    let report = TrialReport { draft: nv_h264(), status: 0, count: 4, descs: descs(&[1, 2, 3, 4]) };
    assert_eq!(report.harvest().len(), 4);
    assert!(!report.violates_capacity());
}

#[test]
fn a_negative_count_gives_nothing_and_is_flagged() {
    let report = TrialReport { draft: nv_h264(), status: 0, count: -1, descs: descs(&[1, 2, 3, 4]) };
    assert!(report.harvest().is_empty());
    assert!(report.violates_capacity());
}

#[test]
fn reading_stops_at_the_end_of_a_short_buffer() {
    let report = TrialReport { draft: nv_h264(), status: 0, count: 3, descs: descs(&[6, 7]) };
    assert_eq!(report.harvest(), vec![nv_h264().with_luid(6), nv_h264().with_luid(7)]);
    assert!(report.violates_capacity());
}

#[test]
fn reading_stops_at_the_capacity_of_a_long_buffer() {
    let report = TrialReport { draft: nv_h264(), status: 0, count: 6, descs: descs(&[1, 2, 3, 4, 5, 6]) };
    assert_eq!(report.harvest().len(), 4);
    assert_eq!(report.harvest()[3].luid, 4);
    assert!(report.violates_capacity());
}

#[test]
fn one_adapter_accepting_the_h264_trial_gives_one_context() {
    let machine = FakeMachine { support: vec![(Driver::NV, 0, vec![7])] };
    let nv = [cand(DataFormat::H264, 0), cand(DataFormat::H265, 0)];
    let amf = [cand(DataFormat::H264, 0)];
    let found = probe(&machine, &nv, &amf, &[], false);
    assert_eq!(
        found,
        vec![DecodeContext {
            device: None,
            driver: Driver::NV,
            data_format: DataFormat::H264,
            api: API { selector: 0 },
            output_shared_handle: false,
            luid: 7,
        }]
    );
}

#[test]
fn two_drivers_on_the_same_adapter_both_appear() {
    let machine = FakeMachine { support: vec![(Driver::NV, 0, vec![7]), (Driver::VPL, 0, vec![7])] };
    let list = [cand(DataFormat::H264, 0)];
    let found = probe(&machine, &list, &list, &list, false);
    assert_eq!(
        found,
        vec![
            draft(Driver::NV, list[0], false).with_luid(7),
            draft(Driver::VPL, list[0], false).with_luid(7),
        ]
    );
    assert_ne!(found[0], found[1]);
    assert_eq!(found[0].luid, found[1].luid);
}

#[test]
fn equal_reports_are_not_merged() {
    let report = TrialReport { draft: nv_h264(), status: 0, count: 1, descs: descs(&[7, 0, 0, 0]) };
    let found = available(&[report.clone(), report]);
    assert_eq!(found, vec![nv_h264().with_luid(7), nv_h264().with_luid(7)]);
}

#[test]
fn no_supported_hardware_gives_an_empty_list() {
    let machine = FakeMachine { support: vec![] };
    let list = [cand(DataFormat::H264, 0), cand(DataFormat::H265, 0)];
    assert!(probe(&machine, &list, &list, &list, true).is_empty());
    assert!(available(&[]).is_empty());
}

#[test]
fn available_appends_harvests_in_report_order() {
    let a = TrialReport { draft: nv_h264(), status: 0, count: 2, descs: descs(&[1, 2, 0, 0]) };
    let b = TrialReport { draft: draft(Driver::AMF, cand(DataFormat::H265, 1), false), status: 3, count: 1, descs: descs(&[5, 0, 0, 0]) };
    let c = TrialReport { draft: draft(Driver::VPL, cand(DataFormat::H265, 0), false), status: 0, count: 1, descs: descs(&[2, 0, 0, 0]) };
    let mut expected = a.harvest();
    expected.extend(b.harvest());
    expected.extend(c.harvest());
    assert_eq!(expected.len(), 3);
    assert_eq!(available(&[a, b, c]), expected);
}

#[test]
fn the_order_of_reports_does_not_change_what_is_found() {
    let a = TrialReport { draft: nv_h264(), status: 0, count: 2, descs: descs(&[1, 2, 0, 0]) };
    let b = TrialReport { draft: draft(Driver::AMF, cand(DataFormat::H265, 1), true), status: 0, count: 1, descs: descs(&[5, 0, 0, 0]) };
    let c = TrialReport { draft: draft(Driver::VPL, cand(DataFormat::H265, 0), false), status: 0, count: 4, descs: descs(&[2, 1, 8, 9]) };
    let forward = available(&[a.clone(), b.clone(), c.clone()]);
    let backward = available(&[c.clone(), b.clone(), a.clone()]);
    let rotated = available(&[b, c, a]);
    assert_ne!(forward, backward);
    assert_eq!(forward.len(), 7);
    assert_eq!(sorted(forward.clone()), sorted(backward));
    assert_eq!(sorted(forward), sorted(rotated));
}

#[test]
fn every_discovered_context_constructs_a_session() {
    let machine = FakeMachine {
        support: vec![(Driver::NV, 0, vec![7, 8]), (Driver::AMF, 1, vec![3]), (Driver::VPL, 0, vec![])],
    };
    let list = [cand(DataFormat::H264, 0), cand(DataFormat::H265, 0), cand(DataFormat::AV1, 0)];
    let found = probe(&machine, &list, &list, &list, true);
    assert_eq!(found.len(), 3);
    for ctx in found {
        let handle = machine.create(&ctx.create_call());
        let session = Decoder::new(ctx, handle);
        assert!(session.is_ok());
        assert_eq!(*session.unwrap().ctx(), ctx);
    }
    let untried = draft(Driver::VPL, list[0], true).with_luid(7);
    assert!(Decoder::new(untried, machine.create(&untried.create_call())).is_err());
}

#[test]
fn a_found_context_asks_for_what_the_trial_tried() {
    let d = draft(Driver::AMF, cand(DataFormat::H265, 2), true);
    let tried = trial_call(d).unwrap();
    let report = TrialReport { draft: d, status: 0, count: 1, descs: descs(&[11, 0, 0, 0]) };
    let asked = report.harvest()[0].create_call();
    assert_eq!(asked.driver, tried.driver);
    assert_eq!(asked.api, tried.api);
    assert_eq!(asked.data_format, tried.data_format);
    assert_eq!(asked.output_shared_handle, tried.output_shared_handle);
    assert_eq!(asked.luid, 11);
    assert_eq!(asked.device.addr, 0);
}
