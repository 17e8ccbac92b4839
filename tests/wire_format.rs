use rosu::error::BridgeError;
use rosu::model::{accuracy_scale, AccuracyScale, GameMode, JniMapAttr, JniScore, ScoreState, ScoreTarget};
use rosu::performance::{calculate_to_bytes, performance_to_bytes, ModeDetail, PerformanceResult};
use rosu::response::{respond_unit, respond_untagged};
use rosu::wire::{error_to_bytes, vec_add_str};

fn attr(mode: Option<GameMode>, mods: u32, speed: f64, accuracy: f64) -> JniMapAttr {
    JniMapAttr { mode, mods, speed: speed.to_bits(), accuracy: accuracy.to_bits() }
}

#[test]
fn map_attr_layout_is_big_endian() {
    let a = attr(Some(GameMode::Taiko), 0x0102_0304, 1.5, 0.95);
    let b = a.encode();
    assert_eq!(b.len(), 21);
    assert_eq!(b[0], 1);
    assert_eq!(&b[1..5], &[1, 2, 3, 4]);
    assert_eq!(&b[5..13], &1.5f64.to_be_bytes());
    assert_eq!(&b[13..21], &0.95f64.to_be_bytes());
}

#[test]
fn map_attr_round_trip() {
    for mode in [None, Some(GameMode::Osu), Some(GameMode::Taiko), Some(GameMode::Catch), Some(GameMode::Mania)] {
        let a = attr(mode, 0xffff_ffff, 0.75, 97.5);
        assert_eq!(JniMapAttr::decode(&a.encode()), Ok(a));
    }
}

#[test]
fn unknown_mode_byte_is_unspecified() {
    let mut b = attr(Some(GameMode::Mania), 8, 0.0, 0.0).encode();
    b[0] = 7;
    assert_eq!(JniMapAttr::decode(&b).unwrap().mode, None);
    b[0] = 3;
    assert_eq!(JniMapAttr::decode(&b).unwrap().mode, Some(GameMode::Mania));
}

#[test]
fn short_attributes_are_truncated() {
    assert_eq!(JniMapAttr::decode(&[0u8; 20]), Err(BridgeError::TruncatedInput));
    assert_eq!(JniScore::decode(&[]), Err(BridgeError::TruncatedInput));
}

#[test]
fn score_state_present_only_with_all_its_bytes() {
    let state = ScoreState { max_combo: 5, n_geki: 1, n_katu: 2, n300: 3, n100: 4, n50: 6, misses: 7 };
    let req = JniScore { attr: attr(None, 0, 0.0, 0.0), score: Some(state) };
    let bytes = req.encode();
    assert_eq!(bytes.len(), 49);
    assert_eq!(&bytes[21..25], &[0, 0, 0, 5]);
    assert_eq!(&bytes[45..49], &[0, 0, 0, 7]);
    assert_eq!(JniScore::decode(&bytes), Ok(req));
    let partial = JniScore::decode(&bytes[..48]).unwrap();
    assert_eq!(partial.score, None);
    assert_eq!(partial.attr, req.attr);
}

#[test]
fn all_zero_counts_mean_full_combo() {
    let empty = ScoreState { max_combo: 9, n_geki: 0, n_katu: 0, n300: 0, n100: 0, n50: 0, misses: 0 };
    let req = JniScore { attr: attr(None, 0, 0.0, 0.0), score: Some(empty) };
    assert_eq!(req.target(321), ScoreTarget::FullCombo(321));
    let none = JniScore { attr: attr(None, 0, 0.0, 0.0), score: None };
    assert_eq!(none.target(321), ScoreTarget::FullCombo(321));
}

#[test]
fn zero_combo_takes_the_map_combo() {
    let s = ScoreState { max_combo: 0, n_geki: 0, n_katu: 0, n300: 10, n100: 1, n50: 0, misses: 1 };
    let req = JniScore { attr: attr(None, 0, 0.0, 0.0), score: Some(s) };
    assert_eq!(req.target(500), ScoreTarget::State(ScoreState { max_combo: 500, ..s }));
    let s2 = ScoreState { max_combo: 12, ..s };
    let req2 = JniScore { attr: attr(None, 0, 0.0, 0.0), score: Some(s2) };
    assert_eq!(req2.target(500), ScoreTarget::State(s2));
}

#[test]
fn accuracy_normalization_cases() {
    assert_eq!(accuracy_scale(0.0f64.to_bits()), AccuracyScale::Full);
    assert_eq!(accuracy_scale((-0.0f64).to_bits()), AccuracyScale::Full);
    assert_eq!(accuracy_scale(1e-10f64.to_bits()), AccuracyScale::Fraction);
    assert_eq!(accuracy_scale(0.95f64.to_bits()), AccuracyScale::Fraction);
    assert_eq!(accuracy_scale(1.0f64.to_bits()), AccuracyScale::Fraction);
    assert_eq!(accuracy_scale(1.001f64.to_bits()), AccuracyScale::Fraction);
    assert_eq!(accuracy_scale(1.0011f64.to_bits()), AccuracyScale::Percent);
    assert_eq!(accuracy_scale(97.5f64.to_bits()), AccuracyScale::Percent);
    assert_eq!(accuracy_scale((-3.0f64).to_bits()), AccuracyScale::Percent);
    assert_eq!(accuracy_scale(f64::NAN.to_bits()), AccuracyScale::Percent);
}

#[test]
fn clock_rate_applies_only_when_positive() {
    assert!(!attr(None, 0, 0.0, 0.0).clock_rate_applies());
    assert!(!attr(None, 0, -1.5, 0.0).clock_rate_applies());
    assert!(!attr(None, 0, f64::NAN, 0.0).clock_rate_applies());
    assert!(attr(None, 0, 1.5, 0.0).clock_rate_applies());
    assert!(attr(None, 0, f64::INFINITY, 0.0).clock_rate_applies());
}

#[test]
fn performance_result_layout() {
    let catch = PerformanceResult {
        pp: 2.0f64.to_bits(),
        stars: 3.0f64.to_bits(),
        max_combo: 258,
        detail: ModeDetail::Catch,
    };
    let mut expected = vec![4u8];
    expected.extend_from_slice(&2.0f64.to_be_bytes());
    expected.extend_from_slice(&3.0f64.to_be_bytes());
    expected.extend_from_slice(&[0, 0, 1, 2]);
    assert_eq!(performance_to_bytes(&catch), expected);

    let osu = PerformanceResult {
        pp: 1,
        stars: 2,
        max_combo: 3,
        detail: ModeDetail::Osu { pp_acc: 4, pp_aim: 5, pp_speed: 6, pp_flashlight: 7 },
    };
    let b = performance_to_bytes(&osu);
    assert_eq!(b.len(), 1 + 8 + 8 + 4 + 4 * 8);
    assert_eq!(b[0], 1);
    assert_eq!(&b[45..53], &7u64.to_be_bytes());

    let taiko = PerformanceResult {
        pp: 1,
        stars: 2,
        max_combo: 3,
        detail: ModeDetail::Taiko { pp_acc: 4, pp_difficulty: 5 },
    };
    let b = performance_to_bytes(&taiko);
    assert_eq!((b[0], b.len()), (2, 1 + 8 + 8 + 4 + 2 * 8));
    let mania = PerformanceResult { pp: 1, stars: 2, max_combo: 3, detail: ModeDetail::Mania { pp_difficulty: 5 } };
    let b = performance_to_bytes(&mania);
    assert_eq!((b[0], b.len()), (8, 1 + 8 + 8 + 4 + 8));
}

#[test]
fn session_answer_layout() {
    let mut out = Vec::new();
    calculate_to_bytes(0x0000_0001_0000_0002, GameMode::Mania, 64, &mut out);
    assert_eq!(out, vec![8, 0, 0, 0, 64, 0, 0, 0, 1, 0, 0, 0, 2]);
}

#[test]
fn error_payload_layout() {
    assert_eq!(error_to_bytes("no score"), {
        let mut v = vec![0x80, 0, 0, 0, 8];
        v.extend_from_slice(b"no score");
        v
    });
    let mut out = vec![9u8];
    vec_add_str("é", &mut out);
    assert_eq!(out, vec![9, 0, 0, 0, 2, 0xc3, 0xa9]);
}

#[test]
fn error_kinds_have_messages() {
    for e in [
        BridgeError::TruncatedInput,
        BridgeError::DecodeError,
        BridgeError::InvalidHandle,
        BridgeError::MissingScoreState,
        BridgeError::Exhausted,
        BridgeError::IndexOutOfRange,
        BridgeError::InternalError,
    ] {
        let r = respond_unit(Err(e));
        assert_eq!(r[0], 0x80);
        let len = u32::from_be_bytes([r[1], r[2], r[3], r[4]]) as usize;
        assert_eq!(&r[5..], e.message().as_bytes());
        assert_eq!(len, e.message().len());
    }
}

#[test]
fn untagged_payloads_get_a_leading_zero() {
    assert_eq!(respond_unit(Ok(())), vec![0]);
    assert_eq!(respond_untagged(Ok(vec![5, 6])), vec![0, 5, 6]);
}
