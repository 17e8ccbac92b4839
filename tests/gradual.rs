use rosu::bridge::{
    base_difficulty, calculate_pp, get_calculate, init_jni_collection_list, load_map,
    performance_bytes, release_calculate, to_status_use, Handles, JniCollectionList, NativeValue,
};
use rosu::error::BridgeError;
use rosu::model::{GameMode, JniMapAttr, JniScore, ScoreState};
use rosu::registry::HandleRegistry;

fn beatmap(objects: usize) -> Vec<u8> {
    let mut s = String::from(
        "osu file format v14\n\n[General]\nMode: 0\n\n[Difficulty]\nHPDrainRate:5\nCircleSize:4\n\
         OverallDifficulty:8\nApproachRate:9\nSliderMultiplier:1.4\nSliderTickRate:1\n\n\
         [TimingPoints]\n0,500,4,2,0,50,1,0\n\n[HitObjects]\n",
    );
    for i in 0..objects {
        let x = 64 + (i * 97) % 384;
        let y = 48 + (i * 61) % 288;
        s.push_str(&format!("{},{},{},1,0,0:0:0:0:\n", x, y, 1000 + 180 * i));
    }
    s.into_bytes()
}

fn request(n300: u32, combo: u32) -> Vec<u8> {
    let attr = JniMapAttr { mode: None, mods: 0, speed: 0, accuracy: 0 };
    let state = ScoreState { max_combo: combo, n_geki: 0, n_katu: 0, n300, n100: 0, n50: 0, misses: 0 };
    JniScore { attr, score: Some(state) }.encode()
}

fn f64_at(b: &[u8], i: usize) -> f64 {
    f64::from_be_bytes(b[i..i + 8].try_into().unwrap())
}

fn steps_left(reg: &Handles, h: i64) -> usize {
    match to_status_use(reg, h).unwrap() {
        NativeValue::Gradual(s) => s.remaining(),
        _ => panic!("not a gradual session"),
    }
}

fn open(reg: &mut Handles, objects: usize) -> i64 {
    let map = load_map(&beatmap(objects), None).unwrap();
    let answer = get_calculate(reg, &map, base_difficulty(0), 0).unwrap();
    assert_eq!(answer.len(), 13);
    assert_eq!(answer[0], 1);
    assert_eq!(&answer[1..5], &[0, 0, 0, 0]);
    i64::from_be_bytes(answer[5..13].try_into().unwrap())
}

#[test]
fn ten_objects_give_ten_steps() {
    let mut reg: Handles = HandleRegistry::new();
    let h = open(&mut reg, 10);
    assert_eq!(steps_left(&reg, h), 10);
    let mut last_stars = 0.0;
    for i in 1..=10u32 {
        let b = calculate_pp(&mut reg, h, &request(i, i)).unwrap();
        assert_eq!(b[0], 1);
        let pp = f64_at(&b, 1);
        let stars = f64_at(&b, 9);
        assert!(pp >= 0.0);
        assert!(stars >= last_stars);
        last_stars = stars;
    }
    assert_eq!(steps_left(&reg, h), 0);
    assert_eq!(calculate_pp(&mut reg, h, &request(10, 10)), Err(BridgeError::Exhausted));
    assert_eq!(calculate_pp(&mut reg, h, &request(10, 10)), Err(BridgeError::Exhausted));
    assert_eq!(release_calculate(&mut reg, h), Ok(()));
    assert_eq!(calculate_pp(&mut reg, h, &request(1, 1)), Err(BridgeError::InvalidHandle));
    assert_eq!(release_calculate(&mut reg, h), Err(BridgeError::InvalidHandle));
}

#[test]
fn a_step_needs_a_score() {
    let mut reg: Handles = HandleRegistry::new();
    let h = open(&mut reg, 3);
    let req = request(1, 1);
    assert_eq!(calculate_pp(&mut reg, h, &req[..21]), Err(BridgeError::MissingScoreState));
    assert_eq!(calculate_pp(&mut reg, h, &req[..20]), Err(BridgeError::TruncatedInput));
    for i in 1..=3u32 {
        assert!(calculate_pp(&mut reg, h, &request(i, i)).is_ok());
    }
    assert_eq!(calculate_pp(&mut reg, h, &request(3, 3)), Err(BridgeError::Exhausted));
}

#[test]
fn handles_keep_their_kind() {
    let mut reg: Handles = HandleRegistry::new();
    let list = init_jni_collection_list(&mut reg, JniCollectionList::new()).unwrap().handle;
    assert_eq!(calculate_pp(&mut reg, list, &request(1, 1)), Err(BridgeError::InvalidHandle));
    assert_eq!(release_calculate(&mut reg, list), Err(BridgeError::InvalidHandle));
    assert!(JniCollectionList::release(&mut reg, list).is_ok());
}

#[test]
fn mode_override_shows_in_the_answer() {
    let mut reg: Handles = HandleRegistry::new();
    let map = load_map(&beatmap(4), Some(GameMode::Taiko)).unwrap();
    let answer = get_calculate(&mut reg, &map, base_difficulty(64), 64).unwrap();
    assert_eq!(answer[0], 2);
    assert_eq!(&answer[1..5], &[0, 0, 0, 64]);
}

#[test]
fn single_shot_full_combo() {
    let map = load_map(&beatmap(10), None).unwrap();
    let attr = JniMapAttr { mode: None, mods: 0, speed: 0, accuracy: 0 };
    let score = JniScore { attr, score: None };
    let d = rosu_pp::Difficulty::new().calculate(&map);
    let b = performance_bytes(score.performance(d).unwrap());
    assert_eq!(b.len(), 53);
    assert_eq!(b[0], 1);
    assert!(f64_at(&b, 1) > 0.0);
    assert_eq!(&b[17..21], &[0, 0, 0, 10]);
}

fn slider_map(curve: &str) -> Vec<u8> {
    let mut b = beatmap(2);
    b.extend_from_slice(format!("100,100,2000,2,0,{},1,140\n", curve).as_bytes());
    b
}

#[test]
fn slider_path_ending_in_a_lone_letter_is_refused() {
    assert!(matches!(load_map(&slider_map("B|200:200|C"), None), Err(BridgeError::DecodeError)));
    assert!(matches!(load_map(&slider_map("B|C"), None), Err(BridgeError::DecodeError)));
}

#[test]
fn ordinary_slider_paths_load() {
    assert!(load_map(&slider_map("B|200:200|300:100"), None).is_ok());
    assert!(load_map(&slider_map("B|200:200|B|300:100"), None).is_ok());
    assert!(load_map(&slider_map("P|150:150|200:100"), Some(GameMode::Catch)).is_ok());
}

fn huge_request() -> Vec<u8> {
    let attr = JniMapAttr { mode: None, mods: 0, speed: 0, accuracy: 0 };
    let state = ScoreState { max_combo: 1, n_geki: 0, n_katu: 0, n300: u32::MAX, n100: 1, n50: 0, misses: 0 };
    JniScore { attr, score: Some(state) }.encode()
}

#[test]
fn step_with_unbounded_counts_is_refused() {
    let mut reg: Handles = HandleRegistry::new();
    let map = load_map(&beatmap(3), Some(GameMode::Catch)).unwrap();
    let answer = get_calculate(&mut reg, &map, base_difficulty(0), 0).unwrap();
    let h = i64::from_be_bytes(answer[5..13].try_into().unwrap());
    assert_eq!(calculate_pp(&mut reg, h, &huge_request()), Err(BridgeError::InternalError));
    assert!(calculate_pp(&mut reg, h, &request(1, 1)).is_ok());
}

#[test]
fn evaluation_with_unbounded_counts_is_refused() {
    let map = load_map(&beatmap(10), Some(GameMode::Catch)).unwrap();
    let score = JniScore::decode(&huge_request()).unwrap();
    let d = rosu_pp::Difficulty::new().calculate(&map);
    assert!(matches!(score.performance(d), Err(BridgeError::InternalError)));
    let small = ScoreState { max_combo: 0, n_geki: 0, n_katu: 0, n300: 134_217_727, n100: 0, n50: 0, misses: 0 };
    assert!(small.counts_bounded());
    assert!(!ScoreState { n100: 1, ..small }.counts_bounded());
}
