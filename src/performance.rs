use vstd::prelude::*;
use crate::model::{status_of_mode, mode_status, GameMode};
use crate::wire::{
    be32, be64, push_be32, push_be64, STATUS_CATCH, STATUS_MANIA, STATUS_OSU, STATUS_TAIKO,
};

verus! {

/// The outcome of one performance calculation. Every rating is kept as the bits
/// of its IEEE-754 value.
#[derive(Clone, Copy, Debug, PartialEq, Eq, Structural)]
pub struct PerformanceResult {
    pub pp: u64,
    pub stars: u64,
    pub max_combo: u32,
    pub detail: ModeDetail,
}

/// The parts of the pp that only one mode has.
#[derive(Clone, Copy, Debug, PartialEq, Eq, Structural)]
pub enum ModeDetail {
    Osu { pp_acc: u64, pp_aim: u64, pp_speed: u64, pp_flashlight: u64 },
    Taiko { pp_acc: u64, pp_difficulty: u64 },
    Catch,
    Mania { pp_difficulty: u64 },
}

impl ModeDetail {
    pub open spec fn spec_tag(self) -> u8 {
        match self {
            ModeDetail::Osu { .. } => STATUS_OSU,
            ModeDetail::Taiko { .. } => STATUS_TAIKO,
            ModeDetail::Catch => STATUS_CATCH,
            ModeDetail::Mania { .. } => STATUS_MANIA,
        }
    }

    /// The ratings of the mode, in order.
    pub open spec fn spec_wire(self) -> Seq<u8> {
        match self {
            ModeDetail::Osu { pp_acc, pp_aim, pp_speed, pp_flashlight } => be64(pp_acc) + be64(
                pp_aim,
            ) + be64(pp_speed) + be64(pp_flashlight),
            ModeDetail::Taiko { pp_acc, pp_difficulty } => be64(pp_acc) + be64(pp_difficulty),
            ModeDetail::Catch => Seq::empty(),
            ModeDetail::Mania { pp_difficulty } => be64(pp_difficulty),
        }
    }
}

impl PerformanceResult {
    /// The response bytes: mode tag, pp, stars, maximum combo, then the ratings
    /// of the mode.
    pub open spec fn spec_wire(self) -> Seq<u8> {
        seq![self.detail.spec_tag()] + be64(self.pp) + be64(self.stars) + be32(self.max_combo)
            + self.detail.spec_wire()
    }
}

/// Appends the response bytes of a performance result.
pub fn attr_to_bytes(attr: &PerformanceResult, out: &mut Vec<u8>)
    ensures
        final(out)@ == old(out)@ + attr.spec_wire(),
{
    let tag = match attr.detail {
        ModeDetail::Osu { .. } => STATUS_OSU,
        ModeDetail::Taiko { .. } => STATUS_TAIKO,
        ModeDetail::Catch => STATUS_CATCH,
        ModeDetail::Mania { .. } => STATUS_MANIA,
    };
    out.push(tag);
    push_be64(out, attr.pp);
    push_be64(out, attr.stars);
    push_be32(out, attr.max_combo);
    match attr.detail {
        ModeDetail::Osu { pp_acc, pp_aim, pp_speed, pp_flashlight } => {
            push_be64(out, pp_acc);
            push_be64(out, pp_aim);
            push_be64(out, pp_speed);
            push_be64(out, pp_flashlight);
        },
        ModeDetail::Taiko { pp_acc, pp_difficulty } => {
            push_be64(out, pp_acc);
            push_be64(out, pp_difficulty);
        },
        ModeDetail::Catch => {},
        ModeDetail::Mania { pp_difficulty } => {
            push_be64(out, pp_difficulty);
        },
    }
    assert(out@ =~= old(out)@ + attr.spec_wire());
}

/// The response bytes of a performance result.
pub fn performance_to_bytes(attr: &PerformanceResult) -> (r: Vec<u8>)
    ensures
        r@ == attr.spec_wire(),
{
    let mut out: Vec<u8> = Vec::new();
    attr_to_bytes(attr, &mut out);
    assert(out@ =~= attr.spec_wire());
    out
}

/// The bytes of the answer to opening a gradual session: mode tag, mods, handle.
pub open spec fn spec_session_wire(handle: i64, mode: GameMode, mods: u32) -> Seq<u8> {
    seq![status_of_mode(mode)] + be32(mods) + be64(handle as u64)
}

/// Appends the answer to opening a gradual session.
pub fn calculate_to_bytes(handle: i64, mode: GameMode, mods: u32, out: &mut Vec<u8>)
    ensures
        final(out)@ == old(out)@ + spec_session_wire(handle, mode, mods),
{
    out.push(mode_status(mode));
    push_be32(out, mods);
    push_be64(out, handle as u64);
    assert(out@ =~= old(out)@ + spec_session_wire(handle, mode, mods));
}

} // verus!
