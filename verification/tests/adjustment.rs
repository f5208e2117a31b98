use rumos::command::{
    clamp_brightness, decrease_brightness, increase_brightness, set_brightness, BrightnessCommand,
};
use rumos::engine::{adjusted_levels, plan_adjustment, plan_adjustments};
use rumos::error::DeviceError;
use rumos::{MAX_BRIGHTNESS, MIN_BRIGHTNESS};

#[test]
fn clamp_keeps_legal_levels() {
    assert_eq!(clamp_brightness(5), 5);
    assert_eq!(clamp_brightness(42), 42);
    assert_eq!(clamp_brightness(100), 100);
}

#[test]
fn clamp_caps_at_the_bounds() {
    assert_eq!(clamp_brightness(0), MIN_BRIGHTNESS);
    assert_eq!(clamp_brightness(4), MIN_BRIGHTNESS);
    assert_eq!(clamp_brightness(101), MAX_BRIGHTNESS);
    assert_eq!(clamp_brightness(u32::MAX), MAX_BRIGHTNESS);
}

#[test]
fn set_clamps_into_range() {
    assert_eq!(set_brightness(0), 5);
    assert_eq!(set_brightness(5), 5);
    assert_eq!(set_brightness(70), 70);
    assert_eq!(set_brightness(100), 100);
}

#[test]
fn set_then_get_observes_the_clamped_level() {
    // A set pass followed by a get pass: get changes nothing, so the
    // observed level is the set percent clamped into range.
    for percent in [0u32, 5, 37, 99, 100] {
        let devices = vec![10u32, 50, 95];
        let after_set =
            adjusted_levels(&BrightnessCommand::SetTo { percent }, &devices);
        let after_get = adjusted_levels(&BrightnessCommand::Get, &after_set);
        let expected = percent.clamp(MIN_BRIGHTNESS, MAX_BRIGHTNESS);
        assert_eq!(after_get, vec![expected, expected, expected]);
    }
}

#[test]
fn increase_saturates_and_clamps() {
    assert_eq!(increase_brightness(10, 20), 30);
    assert_eq!(increase_brightness(95, 20), 100);
    assert_eq!(increase_brightness(100, 0), 100);
    // No overflow escapes: the raise saturates at the type bound first.
    assert_eq!(increase_brightness(u32::MAX, 10), 100);
    assert_eq!(increase_brightness(0, u32::MAX), 100);
}

#[test]
fn decrease_saturates_and_clamps() {
    assert_eq!(decrease_brightness(50, 20), 30);
    assert_eq!(decrease_brightness(10, 60), 5);
    // No underflow escapes: the drop saturates at zero, then the floor
    // applies.
    assert_eq!(decrease_brightness(0, u32::MAX), 5);
    assert_eq!(decrease_brightness(100, 100), 5);
}

#[test]
fn max_equals_set_full_and_min_equals_set_floor() {
    for current in [0u32, 5, 42, 100, 250] {
        assert_eq!(
            BrightnessCommand::Max.target_level(current),
            BrightnessCommand::SetTo { percent: MAX_BRIGHTNESS }.target_level(current),
        );
        assert_eq!(
            BrightnessCommand::Min.target_level(current),
            BrightnessCommand::SetTo { percent: MIN_BRIGHTNESS }.target_level(current),
        );
    }
}

#[test]
fn get_writes_nothing() {
    for current in [0u32, 5, 42, 100] {
        assert_eq!(BrightnessCommand::Get.target_level(current), None);
    }
    assert_eq!(
        plan_adjustment(&BrightnessCommand::Get, &Err(DeviceError::ReadFailed)),
        Ok(None),
    );
}

#[test]
fn plan_carries_each_devices_own_failure() {
    let cmd = BrightnessCommand::Inc { percent: 20 };
    assert_eq!(plan_adjustment(&cmd, &Ok(50)), Ok(Some(70)));
    assert_eq!(
        plan_adjustment(&cmd, &Err(DeviceError::ReadFailed)),
        Err(DeviceError::ReadFailed),
    );
}

#[test]
fn one_failed_read_leaves_sibling_plans_standing() {
    let cmd = BrightnessCommand::SetTo { percent: 80 };
    let reads = vec![Ok(10), Err(DeviceError::ReadFailed), Ok(95)];
    let plans = plan_adjustments(&cmd, &reads);
    assert_eq!(
        plans,
        vec![Ok(Some(80)), Err(DeviceError::ReadFailed), Ok(Some(80))],
    );
}

#[test]
fn end_to_end_increase_and_decrease() {
    // Three devices at [10, 50, 95]: an increase by 20 clamps the last at
    // the ceiling, a decrease by 60 clamps the first two at the floor.
    let levels = vec![10u32, 50, 95];
    assert_eq!(
        adjusted_levels(&BrightnessCommand::Inc { percent: 20 }, &levels),
        vec![30, 70, 100],
    );
    assert_eq!(
        adjusted_levels(&BrightnessCommand::Dec { percent: 60 }, &levels),
        vec![5, 5, 35],
    );
}
