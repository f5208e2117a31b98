//! Brightness commands and the level arithmetic they perform.
use vstd::prelude::*;
use crate::report::BrightnessOutput;
use crate::selector::DeviceSelector;
use crate::{MAX_BRIGHTNESS, MIN_BRIGHTNESS};

verus! {

/// A whole invocation, built once from the parsed arguments: either a
/// brightness command over the selected devices, or the device listing.
pub enum Command {
    BrightnessCommand {
        command: BrightnessCommand,
        selector: DeviceSelector,
        output: BrightnessOutput,
    },
    List,
}

/// A command to be executed on each selected brightness device.
///
/// `Max` and `Min` are sugar for `SetTo { percent: MAX_BRIGHTNESS }` and
/// `SetTo { percent: MIN_BRIGHTNESS }`; `lemma_max_min_are_sugar` states it.
#[derive(Clone, Copy, Debug)]
pub enum BrightnessCommand {
    Get,
    SetTo { percent: u32 },
    Inc { percent: u32 },
    Dec { percent: u32 },
    Max,
    Min,
}

/// A level constrained into the legal brightness range by capping,
/// not wrapping.
pub open spec fn spec_clamp(level: int) -> int {
    if level < MIN_BRIGHTNESS as int {
        MIN_BRIGHTNESS as int
    } else if level > MAX_BRIGHTNESS as int {
        MAX_BRIGHTNESS as int
    } else {
        level
    }
}

/// Addition that caps at the type bound instead of overflowing.
pub open spec fn spec_saturating_add(a: int, b: int) -> int {
    if a + b > u32::MAX as int {
        u32::MAX as int
    } else {
        a + b
    }
}

/// Subtraction that caps at zero instead of underflowing.
pub open spec fn spec_saturating_sub(a: int, b: int) -> int {
    if a - b < 0 {
        0
    } else {
        a - b
    }
}

/// The level a device holds after a command ran against its current level.
/// `Get` writes nothing, so the level stays put.
pub open spec fn spec_new_level(command: BrightnessCommand, current: int) -> int {
    match command {
        BrightnessCommand::Get => current,
        BrightnessCommand::SetTo { percent } => spec_clamp(percent as int),
        BrightnessCommand::Inc { percent } => spec_clamp(
            spec_saturating_add(current, percent as int),
        ),
        BrightnessCommand::Dec { percent } => spec_clamp(
            spec_saturating_sub(current, percent as int),
        ),
        BrightnessCommand::Max => MAX_BRIGHTNESS as int,
        BrightnessCommand::Min => MIN_BRIGHTNESS as int,
    }
}

/// True for the commands that write a level back to the device.
pub open spec fn spec_writes(command: BrightnessCommand) -> bool {
    !(command is Get)
}

/// Constrains a level into `[MIN_BRIGHTNESS, MAX_BRIGHTNESS]`.
pub fn clamp_brightness(level: u32) -> (r: u32)
    ensures
        r as int == spec_clamp(level as int),
{
    if level < MIN_BRIGHTNESS {
        MIN_BRIGHTNESS
    } else if level > MAX_BRIGHTNESS {
        MAX_BRIGHTNESS
    } else {
        level
    }
}

/// The clamped level a plain set writes, whatever the device held before.
pub fn set_brightness(percent: u32) -> (r: u32)
    ensures
        r as int == spec_clamp(percent as int),
{
    clamp_brightness(percent)
}

/// The level an increase writes: the current level raised by `percent`,
/// saturating, then clamped. Never overflows and never panics.
pub fn increase_brightness(current: u32, percent: u32) -> (r: u32)
    ensures
        r as int == spec_clamp(spec_saturating_add(current as int, percent as int)),
{
    let raised = if current > u32::MAX - percent {
        u32::MAX
    } else {
        current + percent
    };
    clamp_brightness(raised)
}

/// The level a decrease writes: the current level lowered by `percent`,
/// saturating at zero, then clamped. Never underflows and never panics.
pub fn decrease_brightness(current: u32, percent: u32) -> (r: u32)
    ensures
        r as int == spec_clamp(spec_saturating_sub(current as int, percent as int)),
{
    let lowered = if current < percent {
        0
    } else {
        current - percent
    };
    clamp_brightness(lowered)
}

impl BrightnessCommand {
    /// The level this command writes to a device currently at `current`,
    /// or `None` for `Get`, which writes nothing.
    pub fn target_level(&self, current: u32) -> (r: Option<u32>)
        ensures
            r is Some <==> spec_writes(*self),
            r is Some ==> r->0 as int == spec_new_level(*self, current as int),
    {
        match self {
            BrightnessCommand::Get => None,
            BrightnessCommand::SetTo { percent } => Some(set_brightness(*percent)),
            BrightnessCommand::Inc { percent } => Some(increase_brightness(current, *percent)),
            BrightnessCommand::Dec { percent } => Some(decrease_brightness(current, *percent)),
            BrightnessCommand::Max => Some(set_brightness(MAX_BRIGHTNESS)),
            BrightnessCommand::Min => Some(set_brightness(MIN_BRIGHTNESS)),
        }
    }
}

/// A command that writes always writes a legal level: whatever the device
/// currently holds, the written level lies in the brightness range.
pub proof fn lemma_new_level_in_range(command: BrightnessCommand, current: int)
    requires
        spec_writes(command),
    ensures
        MIN_BRIGHTNESS as int <= spec_new_level(command, current) <= MAX_BRIGHTNESS as int,
{
}

/// A set followed by a get observes the set level clamped into the
/// brightness range, whatever level the device held before: `Get` writes
/// nothing, so it sees exactly what the set left behind.
pub proof fn lemma_set_then_get(percent: u32, current: int)
    ensures
        spec_new_level(
            BrightnessCommand::Get,
            spec_new_level((BrightnessCommand::SetTo { percent }), current),
        ) == spec_clamp(percent as int),
{
}

/// An increase lands on `min(MAX_BRIGHTNESS, saturating_add(current, percent))`.
/// The current level must be a legal percentage, and the raised level must not
/// fall under the policy floor, which a plain minimum would not respect.
pub proof fn lemma_increase_saturates(current: u32, percent: u32)
    requires
        current <= MAX_BRIGHTNESS,
        MIN_BRIGHTNESS as int <= current as int + percent as int,
    ensures
        spec_new_level((BrightnessCommand::Inc { percent }), current as int)
            == vstd::math::min(
            MAX_BRIGHTNESS as int,
            spec_saturating_add(current as int, percent as int),
        ),
{
}

/// A decrease lands on `max(MIN_BRIGHTNESS, saturating_sub(current, percent))`,
/// for any current level that is a legal percentage.
pub proof fn lemma_decrease_saturates(current: u32, percent: u32)
    requires
        current <= MAX_BRIGHTNESS,
    ensures
        spec_new_level((BrightnessCommand::Dec { percent }), current as int)
            == vstd::math::max(
            MIN_BRIGHTNESS as int,
            spec_saturating_sub(current as int, percent as int),
        ),
{
}

/// `Max` and `Min` are observably identical to setting the two range bounds:
/// they write on the same occasions and land on the same level, and the rest
/// of the library reads a command only through `spec_writes` and
/// `spec_new_level`.
pub proof fn lemma_max_min_are_sugar(current: int)
    ensures
        spec_writes(BrightnessCommand::Max)
            == spec_writes((BrightnessCommand::SetTo { percent: MAX_BRIGHTNESS })),
        spec_new_level(BrightnessCommand::Max, current)
            == spec_new_level((BrightnessCommand::SetTo { percent: MAX_BRIGHTNESS }), current),
        spec_writes(BrightnessCommand::Min)
            == spec_writes((BrightnessCommand::SetTo { percent: MIN_BRIGHTNESS })),
        spec_new_level(BrightnessCommand::Min, current)
            == spec_new_level((BrightnessCommand::SetTo { percent: MIN_BRIGHTNESS }), current),
{
}

} // verus!
