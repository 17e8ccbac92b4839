use vstd::prelude::*;
use crate::collection::{Collection, CollectionList, CollectionListView};
use crate::model::{GameMode, ScoreState};
use crate::performance::{ModeDetail, PerformanceResult};
use rosu_pp::any::PerformanceAttributes;

verus! {

#[verifier::external_type_specification]
#[verifier::external_body]
pub struct ExBeatmap(rosu_pp::Beatmap);

#[verifier::external_type_specification]
#[verifier::external_body]
pub struct ExDifficulty(rosu_pp::Difficulty);

#[verifier::external_type_specification]
#[verifier::external_body]
pub struct ExDifficultyAttributes(rosu_pp::any::DifficultyAttributes);

#[verifier::external_type_specification]
#[verifier::external_body]
pub struct ExPerformance<'a>(rosu_pp::Performance<'a>);

#[verifier::external_type_specification]
#[verifier::external_body]
pub struct ExPerformanceAttributes(rosu_pp::any::PerformanceAttributes);

#[verifier::external_type_specification]
#[verifier::external_body]
pub struct ExGradualPerformance(rosu_pp::GradualPerformance);

#[verifier::external_type_specification]
#[verifier::external_body]
pub struct ExIoError(std::io::Error);

#[verifier::external_type_specification]
#[verifier::external_body]
pub struct ExDbError(osu_db::Error);

/// Whether rosu_pp reads these bytes as a beatmap; that depends on the bytes alone.
pub uninterp spec fn beatmap_parses(bytes: Seq<u8>) -> bool;

/// The mode a beatmap is played in.
pub uninterp spec fn mode_of_beatmap(map: rosu_pp::Beatmap) -> GameMode;

/// The difficulty calculator `d` with its mods set to `mods`.
pub uninterp spec fn with_mods(d: rosu_pp::Difficulty, mods: u32) -> rosu_pp::Difficulty;

/// What `GradualPerformance::len` answers: the hit objects it counts as left.
pub uninterp spec fn objects_left(g: rosu_pp::GradualPerformance) -> nat;

/// `len()` answers without overflow: the calculator has not stepped past the
/// objects it counts.
pub uninterp spec fn len_defined(g: rosu_pp::GradualPerformance) -> bool;

/// How many calls of `next` in a row, each made while `len()` is above zero, give
/// a result before one gives none or `len()` reaches zero.
pub uninterp spec fn steps_ahead(g: rosu_pp::GradualPerformance) -> nat;

/// What `next` gives for the score state `s`.
pub uninterp spec fn step_attributes(g: rosu_pp::GradualPerformance, s: ScoreState) -> Option<
    rosu_pp::any::PerformanceAttributes,
>;

/// A performance calculator over difficulty attributes.
pub uninterp spec fn performance_over(a: rosu_pp::any::DifficultyAttributes) -> rosu_pp::Performance<'static>;

/// The calculator `p` with its mods set to `mods`.
pub uninterp spec fn performance_with_mods(p: rosu_pp::Performance<'static>, mods: u32) -> rosu_pp::Performance<'static>;

/// The calculator `p` with every hit result and the combo set from `s`.
pub uninterp spec fn performance_with_state(p: rosu_pp::Performance<'static>, s: ScoreState) -> rosu_pp::Performance<'static>;

/// The calculator `p` with its combo set to `combo`.
pub uninterp spec fn performance_with_combo(p: rosu_pp::Performance<'static>, combo: u32) -> rosu_pp::Performance<'static>;

/// The maximum combo in difficulty attributes.
pub uninterp spec fn max_combo_in(a: rosu_pp::any::DifficultyAttributes) -> u32;

/// Evaluating `p` stays within rosu_pp's unchecked count arithmetic: any score
/// state it was given has bounded counts (see `ScoreState::spec_counts_bounded`).
pub uninterp spec fn evaluable(p: rosu_pp::Performance<'static>) -> bool;

/// The gradual calculator that `d` builds over `map`.
pub uninterp spec fn gradual_over(d: rosu_pp::Difficulty, map: rosu_pp::Beatmap) -> rosu_pp::GradualPerformance;

/// What a configured calculator evaluates to.
pub uninterp spec fn evaluated(p: rosu_pp::Performance<'static>) -> rosu_pp::any::PerformanceAttributes;

/// The bits of the pp value in performance attributes.
pub uninterp spec fn pp_bits_of(a: rosu_pp::any::PerformanceAttributes) -> u64;

/// The bits of the star rating in performance attributes.
pub uninterp spec fn stars_bits_of(a: rosu_pp::any::PerformanceAttributes) -> u64;

/// The maximum combo in performance attributes.
pub uninterp spec fn combo_of(a: rosu_pp::any::PerformanceAttributes) -> u32;

/// The pp parts of one mode in performance attributes, as bits.
pub uninterp spec fn detail_of(a: rosu_pp::any::PerformanceAttributes) -> ModeDetail;

/// Performance attributes as the library's own result.
pub open spec fn attributes_result(a: rosu_pp::any::PerformanceAttributes) -> PerformanceResult {
    PerformanceResult {
        pp: pp_bits_of(a),
        stars: stars_bits_of(a),
        max_combo: combo_of(a),
        detail: detail_of(a),
    }
}

pub open spec fn is_ascii_letter(c: u8) -> bool {
    (0x41 <= c <= 0x5a) || (0x61 <= c <= 0x7a)
}

/// A byte that ends a piece of a slider path: `|`, `,`, or a line break.
pub open spec fn ends_piece(c: u8) -> bool {
    c == 0x7c || c == 0x2c || c == 0x0a || c == 0x0d
}

/// Every `|` followed by a letter opens a piece that another `|` closes before the
/// field or the line ends. rosu_pp reads a slider path as pieces split at `|`, a
/// letter starting a new segment; a last segment of a lone letter leaves it no
/// vertex, which it then indexes.
pub open spec fn no_trailing_letter_piece(b: Seq<u8>) -> bool {
    forall|i: int|
        0 <= i && i + 1 < b.len() && b[i] == 0x7c && is_ascii_letter(#[trigger] b[i + 1])
            ==> exists|j: int|
            i + 1 < j < b.len() && b[j] == 0x7c && forall|k: int|
                i + 1 < k < j ==> !ends_piece(#[trigger] b[k])
}

/// The collection list that osu_db reads from these bytes, if it reads one.
pub uninterp spec fn decoded_collection_list(bytes: Seq<u8>) -> Option<CollectionListView>;

/// The bytes that osu_db writes for a collection list.
pub uninterp spec fn encoded_collection_list(list: CollectionListView) -> Seq<u8>;

/// No `0x0b` byte (the mark of a present string) is followed by ten bytes that all
/// have their high bit set. osu_db reads a string's length as a ULEB128 number and
/// shifts by seven bits for each continuation byte: past nine of them the shift
/// overflows, which panics in a build with overflow checks.
pub open spec fn length_prefixes_short(b: Seq<u8>) -> bool {
    forall|i: int|
        0 <= i && i + 10 < b.len() && b[i] == 0x0b ==> exists|k: int|
            1 <= k <= 10 && #[trigger] b[i + k] < 0x80
}

/// Every count that osu_db writes as a `u32` fits in one.
pub open spec fn counts_fit(list: CollectionListView) -> bool {
    &&& list.1.len() <= u32::MAX
    &&& forall|i: int| 0 <= i < list.1.len() ==> (#[trigger] list.1[i]).1.len() <= u32::MAX
}

/// Relies on rosu_pp::Beatmap::from_bytes: parses a .osu file; whether it succeeds
/// depends on the bytes alone.
#[verifier::external_body]
pub(crate) fn parse_beatmap(bytes: &[u8]) -> (r: Result<rosu_pp::Beatmap, std::io::Error>)
    requires
        no_trailing_letter_piece(bytes@),
    ensures
        r is Ok <==> beatmap_parses(bytes@),
{
    rosu_pp::Beatmap::from_bytes(bytes)
}

/// Relies on the public field rosu_pp::Beatmap::mode: the mode the map is played in.
#[verifier::external_body]
pub(crate) fn beatmap_mode(map: &rosu_pp::Beatmap) -> (r: GameMode)
    ensures
        r == mode_of_beatmap(*map),
{
    match map.mode {
        rosu_pp::model::mode::GameMode::Osu => GameMode::Osu,
        rosu_pp::model::mode::GameMode::Taiko => GameMode::Taiko,
        rosu_pp::model::mode::GameMode::Catch => GameMode::Catch,
        rosu_pp::model::mode::GameMode::Mania => GameMode::Mania,
    }
}

/// Relies on the public field rosu_pp::Beatmap::mode: sets the mode to play in.
#[verifier::external_body]
pub(crate) fn set_beatmap_mode(map: &mut rosu_pp::Beatmap, mode: GameMode)
    ensures
        mode_of_beatmap(*final(map)) == mode,
{
    map.mode = match mode {
        GameMode::Osu => rosu_pp::model::mode::GameMode::Osu,
        GameMode::Taiko => rosu_pp::model::mode::GameMode::Taiko,
        GameMode::Catch => rosu_pp::model::mode::GameMode::Catch,
        GameMode::Mania => rosu_pp::model::mode::GameMode::Mania,
    };
}

/// Relies on rosu_pp::Difficulty::new: a calculator with nothing configured.
pub assume_specification[ rosu_pp::Difficulty::new ]() -> rosu_pp::Difficulty;

/// Relies on rosu_pp::Difficulty::mods: sets the legacy mods bitmask.
#[verifier::external_body]
pub(crate) fn difficulty_mods(d: rosu_pp::Difficulty, mods: u32) -> (r: rosu_pp::Difficulty)
    ensures
        r == with_mods(d, mods),
{
    d.mods(mods)
}

/// Relies on rosu_pp::Difficulty::gradual_performance: a calculator that has not
/// stepped yet, so its count of objects left is defined.
pub assume_specification[ rosu_pp::Difficulty::gradual_performance ](
    d: rosu_pp::Difficulty,
    map: &rosu_pp::Beatmap,
) -> (r: rosu_pp::GradualPerformance)
    ensures
        r == gradual_over(d, *map),
        len_defined(r),
        steps_ahead(r) <= objects_left(r),
;

/// Relies on rosu_pp::GradualPerformance::len: "the amount of remaining objects".
/// It subtracts the steps taken from the objects it counts, so it needs the
/// calculator not to have stepped past them.
pub assume_specification[ rosu_pp::GradualPerformance::len ](
    g: &rosu_pp::GradualPerformance,
) -> (r: usize)
    requires
        len_defined(*g),
    ensures
        r == objects_left(*g),
;

/// Relies on rosu_pp::GradualPerformance::next: processes the next hit object. It
/// is called only while `len()` is above zero, and only with bounded counts (each
/// mode's state generation adds and weighs them as unchecked `u32`s); a result
/// then advances the step index by one, so `len()` drops by one and stays defined.
#[verifier::external_body]
pub(crate) fn gradual_next(g: &mut rosu_pp::GradualPerformance, s: &ScoreState) -> (r: Option<
    PerformanceAttributes,
>)
    requires
        len_defined(*old(g)),
        objects_left(*old(g)) > 0,
        s.spec_counts_bounded(),
    ensures
        r == step_attributes(*old(g), *s),
        r is Some <==> steps_ahead(*old(g)) > 0,
        r is Some ==> {
            &&& len_defined(*final(g))
            &&& objects_left(*final(g)) == objects_left(*old(g)) - 1
            &&& steps_ahead(*final(g)) == steps_ahead(*old(g)) - 1
        },
{
    g.next(rosu_pp::any::ScoreState {
        max_combo: s.max_combo,
        n_geki: s.n_geki,
        n_katu: s.n_katu,
        n300: s.n300,
        n100: s.n100,
        n50: s.n50,
        misses: s.misses,
    })
}

/// Relies on rosu_pp::any::DifficultyAttributes::max_combo: the map's maximum combo.
#[verifier::external_body]
pub(crate) fn max_combo_of(a: &rosu_pp::any::DifficultyAttributes) -> (r: u32)
    ensures
        r == max_combo_in(*a),
{
    a.max_combo()
}

/// Relies on rosu_pp::Performance::new: a performance calculator over difficulty
/// attributes.
#[verifier::external_body]
pub(crate) fn performance_new(a: rosu_pp::any::DifficultyAttributes) -> (r: rosu_pp::Performance<'static>)
    ensures
        r == performance_over(a),
        evaluable(r),
{
    rosu_pp::Performance::new(a)
}

/// Relies on rosu_pp::Performance::mods: sets the legacy mods bitmask.
#[verifier::external_body]
pub(crate) fn performance_mods(p: rosu_pp::Performance<'static>, mods: u32) -> (r: rosu_pp::Performance<'static>)
    ensures
        r == performance_with_mods(p, mods),
        evaluable(r) == evaluable(p),
{
    p.mods(mods)
}

/// Relies on rosu_pp::Performance::state: sets every hit result and the combo.
#[verifier::external_body]
pub(crate) fn performance_state(p: rosu_pp::Performance<'static>, s: &ScoreState) -> (r: rosu_pp::Performance<'static>)
    ensures
        r == performance_with_state(p, *s),
        evaluable(p) && s.spec_counts_bounded() ==> evaluable(r),
{
    p.state(rosu_pp::any::ScoreState {
        max_combo: s.max_combo,
        n_geki: s.n_geki,
        n_katu: s.n_katu,
        n300: s.n300,
        n100: s.n100,
        n50: s.n50,
        misses: s.misses,
    })
}

/// Relies on rosu_pp::Performance::combo: sets the maximum combo reached.
#[verifier::external_body]
pub(crate) fn performance_combo(p: rosu_pp::Performance<'static>, combo: u32) -> (r: rosu_pp::Performance<'static>)
    ensures
        r == performance_with_combo(p, combo),
        evaluable(r) == evaluable(p),
{
    p.combo(combo)
}

/// Relies on rosu_pp::Performance::calculate: evaluates the configured play.
#[verifier::external_body]
pub(crate) fn performance_calculate(p: rosu_pp::Performance<'static>) -> (r: PerformanceAttributes)
    requires
        evaluable(p),
    ensures
        r == evaluated(p),
{
    p.calculate()
}

/// Relies on rosu_pp::any::PerformanceAttributes::pp: the pp value, as the bits of
/// its IEEE-754 value.
#[verifier::external_body]
pub(crate) fn performance_pp(a: &PerformanceAttributes) -> (r: u64)
    ensures
        r == pp_bits_of(*a),
{
    a.pp().to_bits()
}

/// Relies on rosu_pp::any::PerformanceAttributes::stars: the star rating, as the
/// bits of its IEEE-754 value.
#[verifier::external_body]
pub(crate) fn performance_stars(a: &PerformanceAttributes) -> (r: u64)
    ensures
        r == stars_bits_of(*a),
{
    a.stars().to_bits()
}

/// Relies on rosu_pp::any::PerformanceAttributes::max_combo: the map's maximum combo.
#[verifier::external_body]
pub(crate) fn performance_max_combo(a: &PerformanceAttributes) -> (r: u32)
    ensures
        r == combo_of(*a),
{
    a.max_combo()
}

/// Relies on the public pp fields of each mode's performance attributes; copies
/// them as the bits of their IEEE-754 values.
#[verifier::external_body]
pub(crate) fn performance_detail(a: &PerformanceAttributes) -> (r: ModeDetail)
    ensures
        r == detail_of(*a),
{
    match a {
        PerformanceAttributes::Osu(d) => ModeDetail::Osu {
            pp_acc: d.pp_acc.to_bits(),
            pp_aim: d.pp_aim.to_bits(),
            pp_speed: d.pp_speed.to_bits(),
            pp_flashlight: d.pp_flashlight.to_bits(),
        },
        PerformanceAttributes::Taiko(d) => ModeDetail::Taiko {
            pp_acc: d.pp_acc.to_bits(),
            pp_difficulty: d.pp_difficulty.to_bits(),
        },
        PerformanceAttributes::Catch(_) => ModeDetail::Catch,
        PerformanceAttributes::Mania(d) => ModeDetail::Mania { pp_difficulty: d.pp_difficulty.to_bits() },
    }
}

/// The result of a calculation as the library's own type.
pub(crate) fn performance_result(a: &PerformanceAttributes) -> (r: PerformanceResult)
    ensures
        r == attributes_result(*a),
{
    PerformanceResult {
        pp: performance_pp(a),
        stars: performance_stars(a),
        max_combo: performance_max_combo(a),
        detail: performance_detail(a),
    }
}

/// Relies on osu_db::CollectionList::from_bytes: reads the collection.db layout; the
/// outcome depends on the bytes alone, and every list it reads had its length
/// written as a `u32`.
#[verifier::external_body]
pub(crate) fn read_collection_list(bytes: &[u8]) -> (r: Result<CollectionList, osu_db::Error>)
    requires
        length_prefixes_short(bytes@),
    ensures
        r matches Ok(l) ==> decoded_collection_list(bytes@) == Some(l@),
        r matches Ok(l) ==> counts_fit(l@),
        r is Err ==> decoded_collection_list(bytes@) is None,
{
    let l = osu_db::CollectionList::from_bytes(bytes)?;
    let collections = l.collections.into_iter()
        .map(|c| Collection { name: c.name, beatmap_hashes: c.beatmap_hashes }).collect();
    Ok(CollectionList { version: l.version, collections })
}

/// Relies on osu_db::CollectionList::to_writer: writes the version, then each list
/// with its `u32` length first, strings as a 0x0b mark, a ULEB128 length and the
/// bytes (0x00 where absent); `from_bytes` reads that back. Writing into a `Vec`
/// does not fail.
#[verifier::external_body]
pub(crate) fn write_collection_list(l: &CollectionList) -> (r: Result<Vec<u8>, std::io::Error>)
    ensures
        r matches Ok(b) ==> b@ == encoded_collection_list(l@),
        r matches Ok(b) ==> counts_fit(l@) ==> decoded_collection_list(b@) == Some(l@),
        r is Ok,
{
    let collections = l.collections.iter().map(|c| osu_db::collection::Collection {
        name: c.name.clone(), beatmap_hashes: c.beatmap_hashes.clone() }).collect();
    let list = osu_db::CollectionList { version: l.version, collections };
    let mut out = Vec::new();
    list.to_writer(&mut out)?;
    Ok(out)
}

} // verus!
