use ggwave_rs::negotiation::{
    copy_waveform, trim_waveform, EncodeAction, EncodeEvent, EncodeNegotiation, Stage, Target,
};
use ggwave_rs::{operating_modes, sample_formats, Error, GGWave, Parameters};

fn params(payload_length: i32) -> Parameters {
    Parameters {
        payload_length,
        sample_rate_inp: 48000,
        sample_rate_out: 48000,
        sample_rate: 48000,
        samples_per_frame: 1024,
        sound_marker_threshold: 3000,
        sample_format_inp: sample_formats::F32,
        sample_format_out: sample_formats::F32,
        operating_mode: operating_modes::RX_AND_TX,
    }
}

fn session() -> GGWave {
    GGWave::from_init_result(0, params(-1)).unwrap()
}

#[test]
fn oversized_text_is_refused_before_the_engine() {
    let g = session();
    let text = "x".repeat(141);
    let mut n = g.buffer_negotiation(&text, 100_000);
    assert_eq!(
        n.next(EncodeEvent::Begin),
        EncodeAction::Finish(Err(Error::TextTooLong { length: 141, max: 140 }))
    );
    assert_eq!(n.stage, Stage::Finished);

    let fixed = GGWave::from_init_result(1, params(8)).unwrap();
    let mut m = fixed.size_negotiation("123456789");
    assert_eq!(
        m.next(EncodeEvent::Begin),
        EncodeAction::Finish(Err(Error::TextTooLong { length: 9, max: 8 }))
    );
}

#[test]
fn text_at_the_limit_goes_to_the_engine() {
    let g = session();
    let text = "y".repeat(140);
    let mut n = g.size_negotiation(&text);
    assert_eq!(n.next(EncodeEvent::Begin), EncodeAction::QuerySize);
    assert_eq!(n.next(EncodeEvent::SizeReported(4096)), EncodeAction::Finish(Ok(4096)));
}

#[test]
fn size_query_failure_keeps_engine_code() {
    let g = session();
    let mut n = g.size_negotiation("Hello");
    assert_eq!(n.next(EncodeEvent::Begin), EncodeAction::QuerySize);
    assert_eq!(n.next(EncodeEvent::SizeReported(0)), EncodeAction::Finish(Err(Error::EncodeFailed(0))));
    let mut m = g.size_negotiation("Hello");
    m.next(EncodeEvent::Begin);
    assert_eq!(m.next(EncodeEvent::SizeReported(-7)), EncodeAction::Finish(Err(Error::EncodeFailed(-7))));
}

#[test]
fn undersized_buffer_is_refused() {
    let g = session();
    let mut n = g.buffer_negotiation("Test buffer encode", 999);
    assert_eq!(n.next(EncodeEvent::Begin), EncodeAction::QuerySize);
    assert_eq!(
        n.next(EncodeEvent::SizeReported(1000)),
        EncodeAction::Finish(Err(Error::BufferTooSmall { required: 1000, provided: 999 }))
    );
    assert_eq!(n.stage, Stage::Finished);
}

#[test]
fn exactly_sized_buffer_is_filled() {
    let g = session();
    let mut n = g.buffer_negotiation("Test buffer encode", 1000);
    assert_eq!(n.next(EncodeEvent::Begin), EncodeAction::QuerySize);
    assert_eq!(n.next(EncodeEvent::SizeReported(1000)), EncodeAction::Fill { capacity: 1000 });
    assert_eq!(n.next(EncodeEvent::FillReported(1000)), EncodeAction::Finish(Ok(1000)));
}

#[test]
fn larger_buffer_reports_bytes_written() {
    let g = session();
    let mut n = g.buffer_negotiation("abc", 5000);
    n.next(EncodeEvent::Begin);
    assert_eq!(n.next(EncodeEvent::SizeReported(1000)), EncodeAction::Fill { capacity: 5000 });
    assert_eq!(n.next(EncodeEvent::FillReported(998)), EncodeAction::Finish(Ok(998)));
}

#[test]
fn fill_count_beyond_buffer_is_cut_to_buffer() {
    let g = session();
    let mut n = g.buffer_negotiation("abc", 1000);
    n.next(EncodeEvent::Begin);
    n.next(EncodeEvent::SizeReported(1000));
    assert_eq!(n.next(EncodeEvent::FillReported(1200)), EncodeAction::Finish(Ok(1000)));
}

#[test]
fn fill_failure_keeps_engine_code() {
    let g = session();
    let mut n = g.waveform_negotiation("abc");
    n.next(EncodeEvent::Begin);
    assert_eq!(n.next(EncodeEvent::SizeReported(640)), EncodeAction::Fill { capacity: 640 });
    assert_eq!(n.next(EncodeEvent::FillReported(-1)), EncodeAction::Finish(Err(Error::EncodeFailed(-1))));
    let mut m = g.waveform_negotiation("abc");
    m.next(EncodeEvent::Begin);
    m.next(EncodeEvent::SizeReported(640));
    assert_eq!(m.next(EncodeEvent::FillReported(0)), EncodeAction::Finish(Err(Error::EncodeFailed(0))));
}

#[test]
fn fresh_buffer_has_queried_size() {
    let g = session();
    let mut n = g.waveform_negotiation("Hello, World!");
    assert_eq!(n.target, Target::Fresh);
    assert_eq!(n.text_length, 13);
    assert_eq!(n.max_length, 140);
    assert_eq!(n.next(EncodeEvent::Begin), EncodeAction::QuerySize);
    assert_eq!(n.next(EncodeEvent::SizeReported(2048)), EncodeAction::Fill { capacity: 2048 });
    assert_eq!(n.next(EncodeEvent::FillReported(2048)), EncodeAction::Finish(Ok(2048)));
}

#[test]
fn out_of_order_answer_is_an_error() {
    let mut n = EncodeNegotiation { max_length: 140, text_length: 3, target: Target::SizeOnly, stage: Stage::Ready };
    assert!(matches!(n.next(EncodeEvent::FillReported(10)), EncodeAction::Finish(Err(Error::InvalidParameter(_)))));
    assert_eq!(n.stage, Stage::Ready);
    n.next(EncodeEvent::Begin);
    n.next(EncodeEvent::SizeReported(10));
    assert!(matches!(n.next(EncodeEvent::Begin), EncodeAction::Finish(Err(Error::InvalidParameter(_)))));
}

#[test]
fn trim_and_copy_waveform() {
    let buf = vec![1u8, 2, 3, 4, 5];
    assert_eq!(trim_waveform(buf.clone(), 3), vec![1u8, 2, 3]);
    assert_eq!(trim_waveform(buf, 5), vec![1u8, 2, 3, 4, 5]);

    let mut small = [0u8; 3];
    assert_eq!(copy_waveform(&mut small, &[9, 8, 7, 6]), 3);
    assert_eq!(small, [9, 8, 7]);
    let mut large = [0u8; 6];
    assert_eq!(copy_waveform(&mut large, &[9, 8]), 2);
    assert_eq!(large, [9, 8, 0, 0, 0, 0]);
}
