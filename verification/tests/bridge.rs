use ev_mcu::bridge::{frame_lines, tick_frames};
use ev_mcu::decoder::DecodeError;
use ev_mcu::frame::{Frame, CELLVOLT_GROUP0, MCUSUM_ID, PACKSUM_ID, REQUEST_READ_ID};
use ev_mcu::scheduler::RequestScheduler;

#[test]
fn first_tick_requests_fast_then_slow_groups() {
    let mut scheduler = RequestScheduler::new();
    let frames = tick_frames(&mut scheduler, 0);
    let codes: Vec<u8> = frames.iter().map(|f| f.payload[0]).collect();
    assert_eq!(codes, vec![0x21, 0x22, 0x20, 0x23, 0x24, 0xA0, 0xA1, 0xC0]);
    for frame in &frames {
        assert_eq!(frame.identifier, REQUEST_READ_ID);
        assert_eq!(frame.payload.len(), 4);
        assert_eq!(&frame.payload[1..], &[0xFF, 0x00, 0x00]);
    }
    assert_eq!(scheduler, RequestScheduler::AwaitingFastTick { last_slow_ms: 0 });
}

#[test]
fn later_ticks_request_the_fast_groups_only() {
    let mut scheduler = RequestScheduler::new();
    tick_frames(&mut scheduler, 0);
    let frames = tick_frames(&mut scheduler, 100);
    assert_eq!(
        frames,
        vec![
            Frame { identifier: REQUEST_READ_ID, payload: vec![0x21, 0xFF, 0x00, 0x00] },
            Frame { identifier: REQUEST_READ_ID, payload: vec![0x22, 0xFF, 0x00, 0x00] },
        ]
    );
    assert_eq!(scheduler, RequestScheduler::AwaitingFastTick { last_slow_ms: 0 });
}

#[test]
fn one_second_window_transmits_twenty_six_requests() {
    let mut scheduler = RequestScheduler::new();
    let mut fast_requests = 0;
    let mut slow_requests = 0;
    let mut now = 0u64;
    while now < 1000 {
        for frame in tick_frames(&mut scheduler, now) {
            match frame.payload[0] {
                0x21 | 0x22 => fast_requests += 1,
                _ => slow_requests += 1,
            }
        }
        now += 100;
    }
    assert_eq!(fast_requests, 20);
    assert_eq!(slow_requests, 6);
}

#[test]
fn failed_scheduler_requests_nothing() {
    let mut scheduler = RequestScheduler::Failed;
    assert_eq!(tick_frames(&mut scheduler, 0), Vec::new());
    assert_eq!(scheduler, RequestScheduler::Failed);
}

#[test]
fn lines_of_a_pack_summary_frame() {
    let frame = Frame { identifier: PACKSUM_ID, payload: vec![9, 9, 0x64, 0x00, 0xF6, 0xFF, 9, 9] };
    assert_eq!(
        frame_lines(&frame),
        Ok(vec![String::from("power,system=pack pack_voltage=10,pack_current=-1")])
    );
}

#[test]
fn lines_of_a_charge_controller_frame() {
    let frame = Frame { identifier: MCUSUM_ID, payload: vec![0, 0, 0xD2, 0x04, 11, 5, 0x00, 0x04] };
    let lines = frame_lines(&frame).unwrap();
    assert_eq!(lines.len(), 2);
    assert!(lines[0].starts_with("power,system=bms BMS_FAULT_ILLEGAL_CONF=0,"));
    assert!(lines[0].contains("BMS_FAULT_CELL_LVC=1"));
    assert_eq!(
        lines[1],
        "power,system=mcu charge_kwh=12.34,charge_state=\"Finish\",charge_plug_state=\"Active\""
    );
}

#[test]
fn lines_of_unknown_empty_and_truncated_frames() {
    assert_eq!(frame_lines(&Frame { identifier: 0x123, payload: vec![1, 2, 3] }), Ok(Vec::new()));
    assert_eq!(
        frame_lines(&Frame { identifier: CELLVOLT_GROUP0, payload: vec![5, 0, 0, 0, 0, 0, 0, 0] }),
        Ok(Vec::new())
    );
    assert_eq!(
        frame_lines(&Frame { identifier: PACKSUM_ID, payload: vec![0, 0, 0x64] }),
        Err(DecodeError::TruncatedPayload)
    );
}
