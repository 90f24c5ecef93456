//! Boundary marshaling: decode guards, buffer finishing, the init guard
//! path, and the configuration defaults.

use kokoro_bridge::boundary::{decode_request, finish_infer, init_engine};
use kokoro_bridge::config::{InitConfig, LogVerbosity, OptLevel, ProviderChoice};
use kokoro_bridge::ort_base::{Instance, OrtBase};
use kokoro_bridge::registry::Registry;

#[test]
fn decode_request_accepts_fully_decoded_arguments() {
    let r = decode_request(
        Some("hello".to_string()),
        Some("voice_a".to_string()),
        1.0f32.to_bits(),
    )
    .expect("both strings decoded");
    assert_eq!(r.text, "hello");
    assert_eq!(r.voice, "voice_a");
    assert_eq!(f32::from_bits(r.speed_bits), 1.0);
}

#[test]
fn decode_request_rejects_any_failed_string_decode() {
    assert!(decode_request(None, Some("v".to_string()), 0).is_none());
    assert!(decode_request(Some("t".to_string()), None, 0).is_none());
    assert!(decode_request(None, None, 0).is_none());
}

#[test]
fn finish_infer_hands_the_buffer_through_exactly() {
    let samples: Vec<u32> = vec![0.5f32.to_bits(), (-0.25f32).to_bits(), 0.0f32.to_bits()];
    let out = finish_infer(Ok(samples.clone())).expect("backend succeeded");
    assert_eq!(out.len(), 3);
    assert_eq!(out, samples);
    assert_eq!(f32::from_bits(out[1]), -0.25);
}

#[test]
fn finish_infer_turns_backend_failure_into_the_null_sentinel() {
    assert!(finish_infer(Err("model exploded".to_string())).is_none());
}

#[test]
fn finish_infer_keeps_an_empty_buffer_empty() {
    let out = finish_infer(Ok(Vec::new())).expect("backend succeeded");
    assert!(out.is_empty());
}

#[test]
fn init_with_undecodable_model_path_returns_zero_and_leaks_nothing() {
    let mut reg: Registry<ort::session::Session> = Registry::new();
    let t = init_engine(
        &mut reg,
        None,
        Some("voices.bin".to_string()),
        &InitConfig::default(),
        2,
        2,
    );
    assert_eq!(t, 0);
    assert_eq!(reg.count_slots(), 0);
}

#[test]
fn init_with_undecodable_voices_path_returns_zero_and_leaks_nothing() {
    let mut reg: Registry<ort::session::Session> = Registry::new();
    let t = init_engine(
        &mut reg,
        Some("model.onnx".to_string()),
        None,
        &InitConfig::default(),
        2,
        2,
    );
    assert_eq!(t, 0);
    assert_eq!(reg.count_slots(), 0);
}

#[test]
fn default_config_matches_the_documented_tuning() {
    let c = InitConfig::default();
    assert_eq!(c.intra_threads, 4);
    assert_eq!(c.provider, ProviderChoice::Cpu);
    assert_eq!(c.opt_level, OptLevel::All);
    assert_eq!(c.log_level, LogVerbosity::Warning);
}

#[test]
fn fresh_instance_holds_no_session() {
    let i = Instance::new();
    assert!(i.sess().is_none());
}
