use ggwave_rs::constants::{MAX_LENGTH_FIXED, MAX_LENGTH_VARIABLE};
use ggwave_rs::operating_modes;
use ggwave_rs::params::check_parameters;
use ggwave_rs::protocols;
use ggwave_rs::sample_formats;
use ggwave_rs::session::{is_valid_instance, toggle_protocols, Direction, ProtocolToggle};
use ggwave_rs::{AsyncGGWaveBuilder, Error, GGWave, GGWaveBuilder, Parameters};

fn engine_defaults() -> Parameters {
    Parameters {
        payload_length: -1,
        sample_rate_inp: 48000,
        sample_rate_out: 48000,
        sample_rate: 48000,
        samples_per_frame: 1024,
        sound_marker_threshold: 3000,
        sample_format_inp: sample_formats::F32,
        sample_format_out: sample_formats::F32,
        operating_mode: operating_modes::RX_AND_TX,
    }
}

fn session_with(params: Parameters) -> GGWave {
    GGWave::from_init_result(1, params).expect("engine accepted the parameters")
}

#[test]
fn oversized_fixed_payload_rejected_before_init() {
    let params = Parameters { payload_length: 200, ..engine_defaults() };
    assert!(matches!(check_parameters(&params), Err(Error::InvalidParameter(_))));
}

#[test]
fn fixed_payload_limits_accepted() {
    assert_eq!(check_parameters(&Parameters { payload_length: 64, ..engine_defaults() }), Ok(()));
    assert_eq!(check_parameters(&Parameters { payload_length: 0, ..engine_defaults() }), Ok(()));
    assert_eq!(check_parameters(&engine_defaults()), Ok(()));
    assert!(check_parameters(&Parameters { payload_length: 65, ..engine_defaults() }).is_err());
}

#[test]
fn with_fixed_payload_range() {
    let d = engine_defaults();
    let p = d.with_fixed_payload(64, operating_modes::TX).unwrap();
    assert_eq!(p.payload_length, 64);
    assert_eq!(p.operating_mode, operating_modes::TX);
    assert_eq!(p.samples_per_frame, 1024);
    assert!(matches!(d.with_fixed_payload(0, operating_modes::TX), Err(Error::InvalidParameter(_))));
    assert!(matches!(d.with_fixed_payload(65, operating_modes::TX), Err(Error::InvalidParameter(_))));
    assert!(d.with_fixed_payload(1, operating_modes::RX).is_ok());
}

#[test]
fn builder_applies_settings_over_defaults() {
    let p = GGWaveBuilder::new().build(engine_defaults()).unwrap();
    assert_eq!(p.sample_rate, 16000);
    assert_eq!(p.sample_rate_inp, 16000);
    assert_eq!(p.sample_rate_out, 16000);
    assert_eq!(p.samples_per_frame, 512);
    assert_eq!(p.sound_marker_threshold, 500);
    assert_eq!(p.sample_format_out, sample_formats::F32);
    assert_eq!(p.payload_length, -1);
}

#[test]
fn builder_setters() {
    let p = GGWaveBuilder::new()
        .sample_rate(48000)
        .input_sample_rate(44100)
        .output_sample_format(sample_formats::I16)
        .input_sample_format(sample_formats::U8)
        .samples_per_frame(256)
        .sound_marker_threshold(1500)
        .operating_mode(operating_modes::TX)
        .fixed_payload_length(16)
        .build(engine_defaults())
        .unwrap();
    assert_eq!(p.sample_rate, 48000);
    assert_eq!(p.sample_rate_inp, 44100);
    assert_eq!(p.sample_rate_out, 48000);
    assert_eq!(p.sample_format_out, sample_formats::I16);
    assert_eq!(p.sample_format_inp, sample_formats::U8);
    assert_eq!(p.samples_per_frame, 256);
    assert_eq!(p.sound_marker_threshold, 1500);
    assert_eq!(p.operating_mode, operating_modes::TX);
    assert_eq!(p.payload_length, 16);
}

#[test]
fn builder_rejects_invalid_defaults() {
    let bad = Parameters { payload_length: 100, ..engine_defaults() };
    assert!(matches!(GGWaveBuilder::new().build(bad), Err(Error::InvalidParameter(_))));
    let fixed = GGWaveBuilder::new().fixed_payload_length(8).build(bad).unwrap();
    assert_eq!(fixed.payload_length, 8);
}

#[test]
fn async_builder_matches_sync_builder() {
    let a = AsyncGGWaveBuilder::new()
        .samples_per_frame(128)
        .input_sample_format(sample_formats::I16)
        .output_sample_format(sample_formats::F32)
        .operating_mode(operating_modes::RX)
        .fixed_payload_length(32)
        .sample_rate(48000)
        .parameters(engine_defaults())
        .unwrap();
    let s = GGWaveBuilder::new()
        .samples_per_frame(128)
        .input_sample_format(sample_formats::I16)
        .output_sample_format(sample_formats::F32)
        .operating_mode(operating_modes::RX)
        .fixed_payload_length(32)
        .sample_rate(48000)
        .build(engine_defaults())
        .unwrap();
    assert_eq!(a, s);
    assert_eq!(a.payload_length, 32);
    assert_eq!(a.samples_per_frame, 128);
}

#[test]
fn init_failure_and_success() {
    assert!(matches!(
        GGWave::from_init_result(-1, engine_defaults()),
        Err(Error::InitializationFailed)
    ));
    let g = GGWave::from_init_result(2, engine_defaults()).unwrap();
    assert_eq!(g.raw_instance(), 2);
    assert_eq!(g.parameters(), engine_defaults());
    assert_eq!(g.release(), 2);
    let raw = GGWave::from_raw_instance(3, engine_defaults());
    assert_eq!(raw.raw_instance(), 3);
}

#[test]
fn test_builder() {
    let p = GGWaveBuilder::new()
        .sample_rate(48000)
        .output_sample_format(sample_formats::F32)
        .build(Parameters { sample_format_out: sample_formats::I16, ..engine_defaults() })
        .unwrap();
    let g = session_with(p);
    assert_eq!(g.get_output_sample_format(), sample_formats::F32);
}

#[test]
fn framing_limits() {
    let variable = session_with(engine_defaults());
    assert!(!variable.is_fixed_length());
    assert_eq!(variable.max_text_length(), MAX_LENGTH_VARIABLE);
    let fixed = session_with(Parameters { payload_length: 16, ..engine_defaults() });
    assert!(fixed.is_fixed_length());
    assert_eq!(fixed.max_text_length(), 16);
    let widest = session_with(Parameters { payload_length: 64, ..engine_defaults() });
    assert_eq!(widest.max_text_length(), MAX_LENGTH_FIXED);
}

#[test]
fn valid_instance_range() {
    assert!(!is_valid_instance(0));
    assert!(is_valid_instance(1));
    assert!(is_valid_instance(4));
    assert!(!is_valid_instance(5));
    assert!(!is_valid_instance(-1));
}

#[test]
fn decode_binary_codes() {
    let g = session_with(engine_defaults());
    let out = [1u8, 2, 3, 4, 5, 0, 0, 0];
    assert_eq!(g.decode_binary(&out, 5).unwrap(), vec![1u8, 2, 3, 4, 5]);
    assert_eq!(g.decode_binary(&out, 0).unwrap(), Vec::<u8>::new());
    assert_eq!(g.decode_binary(&out, -1), Err(Error::DecodeFailed(-1)));
}

#[test]
fn decode_to_string_text_and_faults() {
    let g = session_with(engine_defaults());
    let mut out = vec![0u8; 1024];
    let text = "Hello, World!";
    out[..text.len()].copy_from_slice(text.as_bytes());
    assert_eq!(g.decode_to_string(&out, text.len() as i32).unwrap(), text);
    assert_eq!(g.decode_to_string(&out, 5).unwrap(), "Hello");
    assert_eq!(g.decode_to_string(&out, -3), Err(Error::DecodeFailed(-3)));
    let bad = [0xffu8, 0xfe, 0x41];
    assert!(matches!(g.decode_to_string(&bad, 2), Err(Error::Utf8Error(_))));
    let utf = "こんにちは";
    assert_eq!(g.decode_to_string(utf.as_bytes(), utf.len() as i32).unwrap(), utf);
}

#[test]
fn streaming_decode_not_yet_is_not_an_error() {
    let g = session_with(engine_defaults());
    let out = vec![0u8; 256];
    for _ in 0..5 {
        assert_eq!(g.process_audio_chunk(&out, 0), Ok(None));
    }
    let mut msg = vec![0u8; 256];
    msg[..3].copy_from_slice(b"abc");
    assert_eq!(g.process_audio_chunk(&msg, 3), Ok(Some("abc".to_string())));
    assert_eq!(g.process_audio_chunk(&msg, -1), Err(Error::DecodeFailed(-1)));
    assert!(matches!(g.process_audio_chunk(&[0xc3u8, 0x28], 2), Err(Error::Utf8Error(_))));
}

#[test]
fn protocol_toggles() {
    let g = session_with(engine_defaults());
    assert_eq!(
        g.toggle_rx_protocol(protocols::ULTRASOUND_FAST, false),
        ProtocolToggle { direction: Direction::Rx, protocol_id: protocols::ULTRASOUND_FAST, enabled: 0 }
    );
    assert_eq!(
        g.toggle_tx_protocol(protocols::AUDIBLE_NORMAL, true),
        ProtocolToggle { direction: Direction::Tx, protocol_id: protocols::AUDIBLE_NORMAL, enabled: 1 }
    );
    let all = g.enable_all_rx_protocols();
    assert_eq!(all.len(), protocols::COUNT as usize);
    for (i, t) in all.iter().enumerate() {
        assert_eq!(*t, ProtocolToggle { direction: Direction::Rx, protocol_id: i as u32, enabled: 1 });
    }
    let some = toggle_protocols(&[protocols::DT_FAST, protocols::MT_NORMAL], false, false);
    assert_eq!(
        some,
        vec![
            ProtocolToggle { direction: Direction::Tx, protocol_id: protocols::DT_FAST, enabled: 0 },
            ProtocolToggle { direction: Direction::Tx, protocol_id: protocols::MT_NORMAL, enabled: 0 },
        ]
    );
    assert!(toggle_protocols(&[], true, true).is_empty());
}
