use strata::compositor::{axis_step, layer_location, surface_under, AxisStep, InputEventKind};
use strata::process::{exit_callback_args, reap_step, Pid, ProcessState, ReapStep, WaitOutcome};

#[test]
fn exit_args_for_exit_and_signal() {
    let (pid, args) = exit_callback_args(&WaitOutcome::Exited(Pid::from_raw(42), 3));
    assert_eq!(pid.as_raw(), 42);
    assert_eq!(args, [3, 0]);
    let (pid, args) = exit_callback_args(&WaitOutcome::Signaled(Pid::from_raw(43), 9, false));
    assert_eq!(pid.as_raw(), 43);
    assert_eq!(args, [0, 9]);
}

#[test]
fn reap_steps() {
    assert_eq!(reap_step(&Some(WaitOutcome::Exited(Pid::from_raw(1), 0))), ReapStep::Forward);
    assert_eq!(reap_step(&Some(WaitOutcome::Signaled(Pid::from_raw(1), 15, true))), ReapStep::Forward);
    assert_eq!(reap_step(&Some(WaitOutcome::Stopped(Pid::from_raw(1), 19))), ReapStep::Report);
    assert_eq!(reap_step(&Some(WaitOutcome::StillAlive)), ReapStep::Stop);
    assert_eq!(reap_step(&Some(WaitOutcome::Continued(Pid::from_raw(1)))), ReapStep::Stop);
    assert_eq!(reap_step(&None), ReapStep::Stop);
}

#[test]
fn exit_callback_lookup() {
    let mut ps: ProcessState<&str> = ProcessState::new();
    assert!(ps.exit_callback(&WaitOutcome::Exited(Pid::from_raw(5), 1)).is_none());
    ps.on_exit(Pid::from_child_id(5), "cb5");
    ps.on_exit(Pid::from_child_id(6), "cb6");
    assert_eq!(ps.exit_callback(&WaitOutcome::Exited(Pid::from_raw(5), 1)), Some((&"cb5", [1, 0])));
    assert_eq!(ps.exit_callback(&WaitOutcome::Signaled(Pid::from_raw(6), 2, false)), Some((&"cb6", [0, 2])));
    ps.on_exit(Pid::from_child_id(5), "again");
    assert_eq!(ps.exit_callback(&WaitOutcome::Exited(Pid::from_raw(5), 0)), Some((&"again", [0, 0])));
}

#[test]
fn child_id_reinterpreted() {
    assert_eq!(Pid::from_child_id(u32::MAX).as_raw(), -1);
    assert_eq!(Pid::from_child_id(1234).as_raw(), 1234);
}

#[test]
fn handled_input_events() {
    for k in [
        InputEventKind::Keyboard,
        InputEventKind::PointerMotion,
        InputEventKind::PointerMotionAbsolute,
        InputEventKind::PointerButton,
        InputEventKind::PointerAxis,
        InputEventKind::DeviceAdded,
    ] {
        assert!(k.is_handled());
    }
    for k in [
        InputEventKind::DeviceRemoved,
        InputEventKind::GestureSwipeBegin,
        InputEventKind::TouchDown,
        InputEventKind::TabletToolTip,
        InputEventKind::SwitchToggle,
        InputEventKind::Special,
    ] {
        assert!(!k.is_handled());
    }
}

#[test]
fn surface_stacking_order() {
    assert_eq!(surface_under(Some(1), Some(2), Some(3), Some(4), Some(5)), Some(1));
    assert_eq!(surface_under(None, Some(2), Some(3), Some(4), Some(5)), Some(2));
    assert_eq!(surface_under(None, None, Some(3), Some(4), Some(5)), Some(3));
    assert_eq!(surface_under(None, None, None, Some(4), Some(5)), Some(4));
    assert_eq!(surface_under(None, None, None, None, Some(5)), Some(5));
    assert_eq!(surface_under::<u8>(None, None, None, None, None), None);
}

#[test]
fn axis_steps() {
    assert_eq!(axis_step(false, true), AxisStep::Value);
    assert_eq!(axis_step(false, false), AxisStep::Value);
    assert_eq!(axis_step(true, true), AxisStep::Stop);
    assert_eq!(axis_step(true, false), AxisStep::Skip);
}

#[test]
fn layer_location_adds_and_saturates() {
    assert_eq!(layer_location((100, 20), (5, -7)), (105, 13));
    assert_eq!(layer_location((i32::MAX, i32::MIN), (1, -1)), (i32::MAX, i32::MIN));
    assert_eq!(layer_location((-10, 0), (0, 0)), (-10, 0));
}
