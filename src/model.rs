use vstd::prelude::*;
use crate::error::BridgeError;
use crate::wire::{
    be32, be64, get_be32, get_be64, lemma_be32_round_trip, lemma_be64_round_trip, push_be32,
    push_be64, read_be32, read_be64, MAP_ATTR_LEN, SCORE_LEN, STATUS_CATCH, STATUS_MANIA,
    STATUS_OSU, STATUS_TAIKO,
};

verus! {

/// The byte that stands for "no mode given".
pub const MODE_UNSPECIFIED: u8 = 0xff;

/// Bits of the `f64` value `1.001`: accuracies above zero up to it are fractions.
pub const FRACTION_LIMIT_BITS: u64 = 0x3ff0_0418_9374_bc6a;
/// Bits of positive infinity; anything above it, without the sign, is a NaN.
pub const INFINITY_BITS: u64 = 0x7ff0_0000_0000_0000;
/// The sign bit of an `f64`.
pub const SIGN_BIT: u64 = 0x8000_0000_0000_0000;

#[derive(Clone, Copy, Debug, PartialEq, Eq, Structural)]
pub enum GameMode {
    Osu,
    Taiko,
    Catch,
    Mania,
}

/// The mode a wire byte names: 0 to 3, anything else is unspecified.
pub open spec fn mode_of_byte(b: u8) -> Option<GameMode> {
    if b == 0 {
        Some(GameMode::Osu)
    } else if b == 1 {
        Some(GameMode::Taiko)
    } else if b == 2 {
        Some(GameMode::Catch)
    } else if b == 3 {
        Some(GameMode::Mania)
    } else {
        None
    }
}

pub open spec fn byte_of_mode(m: Option<GameMode>) -> u8 {
    match m {
        Some(GameMode::Osu) => 0,
        Some(GameMode::Taiko) => 1,
        Some(GameMode::Catch) => 2,
        Some(GameMode::Mania) => 3,
        None => MODE_UNSPECIFIED,
    }
}

/// The tag that leads a response about a mode.
pub open spec fn status_of_mode(m: GameMode) -> u8 {
    match m {
        GameMode::Osu => STATUS_OSU,
        GameMode::Taiko => STATUS_TAIKO,
        GameMode::Catch => STATUS_CATCH,
        GameMode::Mania => STATUS_MANIA,
    }
}

pub fn mode_from_byte(b: u8) -> (r: Option<GameMode>)
    ensures
        r == mode_of_byte(b),
{
    match b {
        0 => Some(GameMode::Osu),
        1 => Some(GameMode::Taiko),
        2 => Some(GameMode::Catch),
        3 => Some(GameMode::Mania),
        _ => None,
    }
}

pub fn mode_to_byte(m: Option<GameMode>) -> (r: u8)
    ensures
        r == byte_of_mode(m),
{
    match m {
        Some(GameMode::Osu) => 0,
        Some(GameMode::Taiko) => 1,
        Some(GameMode::Catch) => 2,
        Some(GameMode::Mania) => 3,
        None => MODE_UNSPECIFIED,
    }
}

pub fn mode_status(m: GameMode) -> (r: u8)
    ensures
        r == status_of_mode(m),
{
    match m {
        GameMode::Osu => STATUS_OSU,
        GameMode::Taiko => STATUS_TAIKO,
        GameMode::Catch => STATUS_CATCH,
        GameMode::Mania => STATUS_MANIA,
    }
}

/// The attributes of a request: mode, mods, clock rate and accuracy. The two
/// rates are kept as the bits of their IEEE-754 `f64` values, as they travel.
#[derive(Clone, Copy, Debug, PartialEq, Eq, Structural)]
pub struct JniMapAttr {
    pub mode: Option<GameMode>,
    pub mods: u32,
    /// Clock rate; zero means the mode's default rate.
    pub speed: u64,
    /// Accuracy, as a percentage or as a fraction (see `accuracy_scale`).
    pub accuracy: u64,
}

/// How a received accuracy is read.
#[derive(Clone, Copy, Debug, PartialEq, Eq, Structural)]
pub enum AccuracyScale {
    /// Zero: assume 100%.
    Full,
    /// Above zero and at most 1.001: a fraction, to be multiplied by 100.
    Fraction,
    /// Anything else (NaN included): a percentage, used as it is.
    Percent,
}

/// The `f64` with these bits is zero, of either sign.
pub open spec fn is_zero_bits(bits: u64) -> bool {
    bits & !SIGN_BIT == 0
}

/// The `f64` with these bits lies in (0, 1.001]: its sign is clear, it is not zero,
/// and its bits do not exceed those of 1.001 (non-negative values order as their bits).
pub open spec fn is_fraction_bits(bits: u64) -> bool {
    0 < bits <= FRACTION_LIMIT_BITS
}

/// The `f64` with these bits is greater than zero (NaN is not).
pub open spec fn is_positive_bits(bits: u64) -> bool {
    0 < bits <= INFINITY_BITS
}

pub open spec fn spec_accuracy_scale(bits: u64) -> AccuracyScale {
    if is_zero_bits(bits) {
        AccuracyScale::Full
    } else if is_fraction_bits(bits) {
        AccuracyScale::Fraction
    } else {
        AccuracyScale::Percent
    }
}

/// How the accuracy with these bits is to be read.
pub fn accuracy_scale(bits: u64) -> (r: AccuracyScale)
    ensures
        r == spec_accuracy_scale(bits),
{
    if bits & !SIGN_BIT == 0 {
        AccuracyScale::Full
    } else if 0 < bits && bits <= FRACTION_LIMIT_BITS {
        AccuracyScale::Fraction
    } else {
        AccuracyScale::Percent
    }
}

impl JniMapAttr {
    /// The 21 bytes of the attributes: mode, mods, clock rate, accuracy.
    pub open spec fn spec_wire(self) -> Seq<u8> {
        seq![byte_of_mode(self.mode)] + be32(self.mods) + be64(self.speed) + be64(self.accuracy)
    }

    /// The attributes that the first 21 bytes of `b` hold.
    pub open spec fn spec_decode(b: Seq<u8>) -> JniMapAttr {
        JniMapAttr {
            mode: mode_of_byte(b[0]),
            mods: read_be32(b, 1),
            speed: read_be64(b, 5),
            accuracy: read_be64(b, 13),
        }
    }

    /// Reads the attributes from the first 21 bytes of `b`.
    pub fn decode(b: &[u8]) -> (r: Result<JniMapAttr, BridgeError>)
        ensures
            b@.len() < MAP_ATTR_LEN ==> r == Err::<JniMapAttr, BridgeError>(BridgeError::TruncatedInput),
            b@.len() >= MAP_ATTR_LEN ==> r == Ok::<JniMapAttr, BridgeError>(JniMapAttr::spec_decode(b@)),
    {
        if b.len() < MAP_ATTR_LEN {
            return Err(BridgeError::TruncatedInput);
        }
        Ok(JniMapAttr {
            mode: mode_from_byte(b[0]),
            mods: get_be32(b, 1),
            speed: get_be64(b, 5),
            accuracy: get_be64(b, 13),
        })
    }

    /// Appends the 21 bytes of the attributes.
    pub fn encode_into(&self, out: &mut Vec<u8>)
        ensures
            final(out)@ == old(out)@ + self.spec_wire(),
    {
        out.push(mode_to_byte(self.mode));
        push_be32(out, self.mods);
        push_be64(out, self.speed);
        push_be64(out, self.accuracy);
        assert(out@ =~= old(out)@ + self.spec_wire());
    }

    pub fn encode(&self) -> (r: Vec<u8>)
        ensures
            r@ == self.spec_wire(),
    {
        let mut out: Vec<u8> = Vec::new();
        self.encode_into(&mut out);
        assert(out@ =~= self.spec_wire());
        out
    }

    /// Whether the clock rate is to be applied: only when it is greater than zero.
    pub fn clock_rate_applies(&self) -> (r: bool)
        ensures
            r == is_positive_bits(self.speed),
    {
        0 < self.speed && self.speed <= INFINITY_BITS
    }
}

/// The hit results of a (partial) play.
#[derive(Clone, Copy, Debug, PartialEq, Eq, Structural)]
pub struct ScoreState {
    pub max_combo: u32,
    pub n_geki: u32,
    pub n_katu: u32,
    pub n300: u32,
    pub n100: u32,
    pub n50: u32,
    pub misses: u32,
}

impl ScoreState {
    /// The 28 bytes of the state, seven big-endian counts.
    pub open spec fn spec_wire(self) -> Seq<u8> {
        be32(self.max_combo) + be32(self.n_geki) + be32(self.n_katu) + be32(self.n300) + be32(
            self.n100,
        ) + be32(self.n50) + be32(self.misses)
    }

    /// The state that the 28 bytes of `b` at `i` hold.
    pub open spec fn spec_decode(b: Seq<u8>, i: int) -> ScoreState {
        ScoreState {
            max_combo: read_be32(b, i),
            n_geki: read_be32(b, i + 4),
            n_katu: read_be32(b, i + 8),
            n300: read_be32(b, i + 12),
            n100: read_be32(b, i + 16),
            n50: read_be32(b, i + 20),
            misses: read_be32(b, i + 24),
        }
    }

    /// No hit result is counted (the combo is not a hit result).
    pub open spec fn spec_counts_empty(self) -> bool {
        self.n300 == 0 && self.n100 == 0 && self.n50 == 0 && self.n_geki == 0 && self.n_katu == 0
            && self.misses == 0
    }

    /// Thirty-two times the sum of the counts fits in a `u32`. rosu_pp adds the
    /// counts, and weighs them by up to 32 (mania's accuracy), in unchecked `u32`
    /// arithmetic.
    pub open spec fn spec_counts_bounded(self) -> bool {
        32 * (self.n_geki + self.n_katu + self.n300 + self.n100 + self.n50 + self.misses)
            <= u32::MAX
    }

    pub fn counts_bounded(&self) -> (r: bool)
        ensures
            r == self.spec_counts_bounded(),
    {
        let sum: u64 = self.n_geki as u64 + self.n_katu as u64 + self.n300 as u64 + self.n100 as u64
            + self.n50 as u64 + self.misses as u64;
        sum <= 0xffff_ffff / 32
    }

    pub fn counts_empty(&self) -> (r: bool)
        ensures
            r == self.spec_counts_empty(),
    {
        self.n300 == 0 && self.n100 == 0 && self.n50 == 0 && self.n_geki == 0 && self.n_katu == 0
            && self.misses == 0
    }

    pub fn encode_into(&self, out: &mut Vec<u8>)
        ensures
            final(out)@ == old(out)@ + self.spec_wire(),
    {
        push_be32(out, self.max_combo);
        push_be32(out, self.n_geki);
        push_be32(out, self.n_katu);
        push_be32(out, self.n300);
        push_be32(out, self.n100);
        push_be32(out, self.n50);
        push_be32(out, self.misses);
        assert(out@ =~= old(out)@ + self.spec_wire());
    }
}

/// Reads the seven counts of a score state that start at `i`.
pub fn bytes_to_score_state(b: &[u8], i: usize) -> (r: ScoreState)
    requires
        i + 28 <= b@.len(),
    ensures
        r == ScoreState::spec_decode(b@, i as int),
{
    let n = b.len();
    assert(i + 28 <= n);
    ScoreState {
        max_combo: get_be32(b, i),
        n_geki: get_be32(b, i + 4),
        n_katu: get_be32(b, i + 8),
        n300: get_be32(b, i + 12),
        n100: get_be32(b, i + 16),
        n50: get_be32(b, i + 20),
        misses: get_be32(b, i + 24),
    }
}

/// A calculation request: attributes, and the score reached if there is one.
#[derive(Clone, Copy, Debug, PartialEq, Eq, Structural)]
pub struct JniScore {
    pub attr: JniMapAttr,
    pub score: Option<ScoreState>,
}

/// What a performance calculation is asked to evaluate.
#[derive(Clone, Copy, Debug, PartialEq, Eq, Structural)]
pub enum ScoreTarget {
    /// The given hit results.
    State(ScoreState),
    /// A full combo of the given length with no miss.
    FullCombo(u32),
}

impl JniScore {
    pub open spec fn spec_wire(self) -> Seq<u8> {
        match self.score {
            Some(s) => self.attr.spec_wire() + s.spec_wire(),
            None => self.attr.spec_wire(),
        }
    }

    /// The request that `b` holds: attributes in its first 21 bytes, and a score
    /// state only where 28 more follow.
    pub open spec fn spec_decode(b: Seq<u8>) -> JniScore {
        JniScore {
            attr: JniMapAttr::spec_decode(b),
            score: if b.len() >= SCORE_LEN {
                Some(ScoreState::spec_decode(b, MAP_ATTR_LEN as int))
            } else {
                None
            },
        }
    }

    pub fn decode(b: &[u8]) -> (r: Result<JniScore, BridgeError>)
        ensures
            b@.len() < MAP_ATTR_LEN ==> r == Err::<JniScore, BridgeError>(BridgeError::TruncatedInput),
            b@.len() >= MAP_ATTR_LEN ==> r == Ok::<JniScore, BridgeError>(JniScore::spec_decode(b@)),
    {
        let attr = match JniMapAttr::decode(b) {
            Ok(a) => a,
            Err(e) => return Err(e),
        };
        if b.len() < SCORE_LEN {
            return Ok(JniScore { attr, score: None });
        }
        Ok(JniScore { attr, score: Some(bytes_to_score_state(b, MAP_ATTR_LEN)) })
    }

    pub fn encode(&self) -> (r: Vec<u8>)
        ensures
            r@ == self.spec_wire(),
    {
        let mut out: Vec<u8> = Vec::new();
        self.attr.encode_into(&mut out);
        match &self.score {
            Some(s) => s.encode_into(&mut out),
            None => {},
        }
        assert(out@ =~= self.spec_wire());
        out
    }

    /// What to evaluate, given the map's maximum combo: the score state where it
    /// counts any hit result (its combo filled in with the map's when zero), else
    /// a full combo. A state with every count at zero stands for no state.
    pub open spec fn spec_target(self, map_max_combo: u32) -> ScoreTarget {
        match self.score {
            Some(s) => if s.spec_counts_empty() {
                ScoreTarget::FullCombo(map_max_combo)
            } else if s.max_combo == 0 {
                ScoreTarget::State(ScoreState { max_combo: map_max_combo, ..s })
            } else {
                ScoreTarget::State(s)
            },
            None => ScoreTarget::FullCombo(map_max_combo),
        }
    }

    pub fn target(&self, map_max_combo: u32) -> (r: ScoreTarget)
        ensures
            r == self.spec_target(map_max_combo),
    {
        match self.score {
            Some(s) => if s.counts_empty() {
                ScoreTarget::FullCombo(map_max_combo)
            } else if s.max_combo == 0 {
                ScoreTarget::State(ScoreState { max_combo: map_max_combo, ..s })
            } else {
                ScoreTarget::State(s)
            },
            None => ScoreTarget::FullCombo(map_max_combo),
        }
    }
}

/// Decoding the bytes of any attributes gives them back.
pub proof fn lemma_map_attr_round_trip(x: JniMapAttr)
    ensures
        x.spec_wire().len() == MAP_ATTR_LEN,
        JniMapAttr::spec_decode(x.spec_wire()) == x,
{
    lemma_map_attr_prefix(x, Seq::empty());
    assert(x.spec_wire() + Seq::<u8>::empty() =~= x.spec_wire());
}

/// The attributes read back from their bytes, whatever follows them.
proof fn lemma_map_attr_prefix(x: JniMapAttr, post: Seq<u8>)
    ensures
        x.spec_wire().len() == MAP_ATTR_LEN,
        JniMapAttr::spec_decode(x.spec_wire() + post) == x,
{
    let m = seq![byte_of_mode(x.mode)];
    let b = x.spec_wire() + post;
    assert(b =~= m + be32(x.mods) + (be64(x.speed) + be64(x.accuracy) + post));
    lemma_be32_round_trip(x.mods, m, be64(x.speed) + be64(x.accuracy) + post);
    assert(b =~= (m + be32(x.mods)) + be64(x.speed) + (be64(x.accuracy) + post));
    lemma_be64_round_trip(x.speed, m + be32(x.mods), be64(x.accuracy) + post);
    assert(b =~= (m + be32(x.mods) + be64(x.speed)) + be64(x.accuracy) + post);
    lemma_be64_round_trip(x.accuracy, m + be32(x.mods) + be64(x.speed), post);
    assert(mode_of_byte(byte_of_mode(x.mode)) == x.mode);
}

/// The score state read back from its bytes, wherever they stand.
proof fn lemma_score_state_at(s: ScoreState, pre: Seq<u8>)
    ensures
        s.spec_wire().len() == 28,
        ScoreState::spec_decode(pre + s.spec_wire(), pre.len() as int) == s,
{
    let p = pre.len() as int;
    let fields = seq![s.max_combo, s.n_geki, s.n_katu, s.n300, s.n100, s.n50, s.misses];
    let b = pre + s.spec_wire();
    assert forall|k: int| 0 <= k < 7 implies read_be32(b, p + 4 * k) == #[trigger] fields[k] by {
        let before = pre + s.spec_wire().subrange(0, 4 * k);
        let after = s.spec_wire().subrange(4 * k + 4, 28);
        assert(s.spec_wire().subrange(4 * k, 4 * k + 4) =~= be32(fields[k]));
        assert(b =~= before + be32(fields[k]) + after);
        lemma_be32_round_trip(fields[k], before, after);
    }
    assert(read_be32(b, p + 4 * 0) == fields[0]);
    assert(read_be32(b, p + 4 * 1) == fields[1]);
    assert(read_be32(b, p + 4 * 2) == fields[2]);
    assert(read_be32(b, p + 4 * 3) == fields[3]);
    assert(read_be32(b, p + 4 * 4) == fields[4]);
    assert(read_be32(b, p + 4 * 5) == fields[5]);
    assert(read_be32(b, p + 4 * 6) == fields[6]);
}

/// Decoding the bytes of any request gives it back, with or without a score state.
pub proof fn lemma_score_request_round_trip(x: JniScore)
    ensures
        JniScore::spec_decode(x.spec_wire()) == x,
{
    match x.score {
        Some(s) => {
            lemma_map_attr_prefix(x.attr, s.spec_wire());
            lemma_score_state_at(s, x.attr.spec_wire());
        },
        None => {
            lemma_map_attr_round_trip(x.attr);
        },
    }
}

} // verus!
