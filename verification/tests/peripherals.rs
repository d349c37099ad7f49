use vexrs::adi::{ADIAnalogIn, ADIAnalogOut, ADIDigitalIn, ADIDigitalOut};
use vexrs::competition::CompetitionStatus;
use vexrs::controller::{
    Controller, ControllerAxis, ControllerButton, ControllerID, ControllerStatus,
    CLEAR_SCREEN_LINE, RUMBLE_LINE,
};
use vexrs::devices::{ADIPort, PortError};
use vexrs::display::{Display, DrawOp, Element, Shape, TouchEvent};
use vexrs::motor::{MotorBrakeMode, MotorEncoderUnits, SmartMotor};
use vexrs::devices::SmartDevice;
use vexrs::runtime::Runtime;
use vexrs::serial::Serial;
use vexrs::system::competition_step;
use vexrs::task::TaskState;
use vexrs::timer::Timer;

#[test]
fn timers_measure_from_their_start() {
    let t = Timer::new(50, 100);
    assert_eq!(t.get_start_time(), 100);
    assert_eq!(t.get_end_time(), 150);
    assert!(!t.is_elapsed(149));
    assert!(t.is_elapsed(150));
    assert_eq!(t.get_remaining(120), 30);
    assert_eq!(t.get_remaining(200), 0);
    assert_eq!(t.get_elapsed(120), 20);
    assert_eq!(t.get_elapsed(200), 50);

    let u = Timer::new_until(400, 250);
    assert_eq!(u.get_start_time(), 250);
    assert_eq!(u.get_end_time(), 400);
    assert_eq!(u.get_remaining(250), 150);
}

#[test]
fn competition_status_bits_decode() {
    // bit two clear: no field controller
    assert_eq!(
        CompetitionStatus::get_competition_status(0),
        CompetitionStatus::Disconnected
    );
    assert_eq!(
        CompetitionStatus::get_competition_status(0b011),
        CompetitionStatus::Disconnected
    );
    // connected and disabled
    assert_eq!(
        CompetitionStatus::get_competition_status(0b101),
        CompetitionStatus::Disabled
    );
    // connected, enabled, autonomous
    assert_eq!(
        CompetitionStatus::get_competition_status(0b110),
        CompetitionStatus::Autonomous
    );
    // connected, enabled, not autonomous: driver control
    assert_eq!(
        CompetitionStatus::get_competition_status(0b100),
        CompetitionStatus::DriverControl
    );
}

#[test]
fn competition_change_restarts_the_user_task() {
    let mut rt = Runtime::new();
    rt.spawn(0x1000, 0x2000);
    rt.spawn(0x1111, 0x2000);
    let prev = CompetitionStatus::Disabled;
    // no change: nothing happens
    let same = competition_step(&mut rt, prev, prev, 0x1000, 0x2000);
    assert_eq!(same, CompetitionStatus::Disabled);
    assert_eq!(rt.tasks[2].state, TaskState::Ready);
    // a change kills every other task and restarts the user program
    let next = competition_step(
        &mut rt,
        prev,
        CompetitionStatus::DriverControl,
        0x1000,
        0x2000,
    );
    assert_eq!(next, CompetitionStatus::DriverControl);
    assert_eq!(rt.current_task(), 0);
    assert_eq!(rt.tasks[1].state, TaskState::Ready);
    for i in 2..rt.tasks.len() {
        assert_eq!(rt.tasks[i].state, TaskState::Available);
    }
}

#[test]
fn controller_buttons_report_edges_once() {
    let mut c = Controller::new(ControllerID::Master);
    // a press is reported exactly on the transition
    assert!(c.get_button_pressed(ControllerButton::A, true));
    assert!(!c.get_button_pressed(ControllerButton::A, true));
    // releasing is not a press, but updates the cache
    assert!(!c.get_button_pressed(ControllerButton::A, false));
    assert!(c.get_button_pressed(ControllerButton::A, true));
    // an untouched button reports nothing
    assert!(!c.get_button_pressed(ControllerButton::X, false));
}

#[test]
fn controller_buttons_report_releases_once() {
    let mut c = Controller::new(ControllerID::Partner);
    assert!(!c.get_button_released(ControllerButton::B, true));
    assert!(c.get_button_released(ControllerButton::B, false));
    assert!(!c.get_button_released(ControllerButton::B, false));
}

#[test]
fn controller_codes_match_the_report_layout() {
    assert_eq!(ControllerID::Master.as_u32(), 0);
    assert_eq!(ControllerID::Partner.as_u32(), 1);
    assert_eq!(ControllerAxis::LeftX.code(), 0);
    assert_eq!(ControllerAxis::RightY.code(), 3);
    // the buttons start after the four axes, from the sixth index
    assert_eq!(ControllerButton::L1.code(), 6);
    assert_eq!(ControllerButton::A.code(), 17);
    assert_eq!(ControllerButton::L1.cache_index(), 0);
    assert_eq!(ControllerButton::A.cache_index(), 11);
}

#[test]
fn controller_screen_commands() {
    let c = Controller::new(ControllerID::Master);
    let clear = c.clear_screen();
    assert_eq!(clear.line, CLEAR_SCREEN_LINE);
    assert_eq!(clear.column, 0);
    assert_eq!(clear.text, "");
    let rumble = c.rumble(String::from(".--."));
    assert_eq!(rumble.line, RUMBLE_LINE);
    assert_eq!(rumble.text, ".--.");
    let status = c.connection_status(2);
    assert_eq!(status, ControllerStatus::Wireless);
    assert_eq!(c.connection_status(0), ControllerStatus::Disconnected);
    assert_eq!(c.connection_status(1), ControllerStatus::Tethered);
    assert_eq!(c.connection_status(9), ControllerStatus::Unknown);
}

#[test]
fn serial_reads_drain_the_buffer_and_pad_with_zeroes() {
    let mut s = Serial::new();
    for b in [10u8, 20, 30] {
        s.push_byte(b);
    }
    let (data, n) = s.read_buffered(5);
    assert_eq!(n, 3);
    assert_eq!(data, vec![10, 20, 30, 0, 0]);
    // the consumed bytes left the buffer
    let (data, n) = s.read_buffered(2);
    assert_eq!(n, 0);
    assert_eq!(data, vec![0, 0]);
    // partial reads keep the rest
    s.push_byte(1);
    s.push_byte(2);
    s.push_byte(3);
    let (data, n) = s.read_buffered(2);
    assert_eq!((data, n), (vec![1, 2], 2));
    let (data, n) = s.read_buffered(1);
    assert_eq!((data, n), (vec![3], 1));
}

#[test]
fn motor_commands_clamp_and_encode() {
    let m = SmartMotor::new_smart(7);
    assert_eq!(m.get_smart_port(), 7);
    assert_eq!(m.move_voltage(50), 50);
    assert_eq!(m.move_voltage(127), 127);
    assert_eq!(m.move_voltage(128), 127);
    assert_eq!(m.move_voltage(100_000), 127);
    assert_eq!(m.move_voltage(-127), -127);
    assert_eq!(m.move_voltage(-128), -127);
    assert_eq!(m.move_voltage(i32::MIN), -127);
    assert_eq!(m.stop(), 0);
    assert_eq!(MotorEncoderUnits::default().as_u32(), 0);
    assert_eq!(MotorEncoderUnits::Ticks.as_u32(), 2);
    assert_eq!(MotorBrakeMode::default().as_u32(), 0);
    assert_eq!(MotorBrakeMode::Hold.as_u32(), 2);
}

#[test]
fn adi_lines_validate_their_configuration() {
    let din = ADIDigitalIn::new(9, 0);
    assert_eq!(din.read(ADIPort::DigitalIn, 1), Ok(true));
    assert_eq!(din.read(ADIPort::DigitalIn, 0), Ok(false));
    assert_eq!(din.read(ADIPort::DigitalIn, -5), Ok(true));
    assert_eq!(din.read(ADIPort::AnalogIn, 1), Err(PortError::Conflict));

    let dout = ADIDigitalOut::new(9, 1);
    assert_eq!(dout.write(ADIPort::DigitalOut, true), Ok(1));
    assert_eq!(dout.write(ADIPort::DigitalOut, false), Ok(0));
    assert_eq!(dout.write(ADIPort::DigitalIn, true), Err(PortError::Conflict));

    let ain = ADIAnalogIn::new(9, 2);
    assert_eq!(ain.read(ADIPort::AnalogIn, 512), Ok(512));
    assert_eq!(ain.read(ADIPort::AnalogOut, 512), Err(PortError::Conflict));

    let aout = ADIAnalogOut::new(9, 3);
    assert_eq!(aout.write(ADIPort::AnalogOut, -77), Ok(-77));
    assert_eq!(aout.write(ADIPort::Unbound, -77), Err(PortError::Conflict));
}

#[test]
fn digital_edges_fire_once_per_transition() {
    let mut din = ADIDigitalIn::new(9, 0);
    assert!(din.on_rising_edge(true));
    assert!(!din.on_rising_edge(true));
    // a fall is not a rise, and the rise cache keeps the old level
    assert!(!din.on_rising_edge(false));
    // the cache still holds high, so the fall fires now
    assert!(din.on_falling_edge(false));
    assert!(!din.on_falling_edge(false));
    assert!(din.on_rising_edge(true));
}

#[test]
fn elements_compose_their_drawing_calls() {
    let mut e = Element::new(10, 20);
    e.rectangle(1, 2, 3, 4, 0xFF0000, true);
    e.circle(5, 6, 7, 0x00FF00, false);
    e.text(8, 9, 0x0000FF, String::from("hi"));
    let ops = e.draw_ops();
    assert_eq!(ops.len(), 3);
    assert!(matches!(
        ops[0],
        DrawOp::RectFill { x1: 11, y1: 22, x2: 14, y2: 26, color: 0xFF0000 }
    ));
    assert!(matches!(
        ops[1],
        DrawOp::CircleOutline { cx: 15, cy: 26, r: 7, color: 0x00FF00 }
    ));
    match &ops[2] {
        DrawOp::TextAt { x, y, color, text } => {
            assert_eq!((*x, *y, *color, text.as_str()), (18, 29, 0x0000FF, "hi"));
        },
        other => panic!("expected text, found {:?}", other),
    }
}

#[test]
fn shapes_change_color_and_fill_in_place() {
    let mut s = Shape::Rectangle { x1: 0, y1: 0, x2: 4, y2: 4, color: 1, fill: false };
    s.set_color(9);
    s.set_fill(true);
    assert!(matches!(
        s,
        Shape::Rectangle { x1: 0, y1: 0, x2: 4, y2: 4, color: 9, fill: true }
    ));
    let mut t = Shape::Text { tx: 0, ty: 0, color: 1, text: String::from("x") };
    t.set_fill(true);
    t.set_color(3);
    assert!(matches!(t, Shape::Text { color: 3, .. }));
}

#[test]
fn touch_dispatch_finds_the_first_hit_element() {
    let mut d = Display::new();
    let mut button = Element::new(0, 0);
    button.rectangle(10, 10, 20, 20, 0xFFFFFF, true);
    button.on_touch(7);
    let mut ring = Element::new(100, 100);
    ring.circle(0, 0, 5, 0x123456, false);
    d.add(button);
    d.add(ring);

    // inside the rectangle, strictly
    assert_eq!(d.on_touch(15, 15), Some(0));
    // the border does not count as a hit
    assert_eq!(d.on_touch(10, 15), None);
    // inside the circle, by distance
    assert_eq!(d.on_touch(103, 104), Some(1));
    assert_eq!(d.on_touch(400, 5), None);

    // the frame composes both elements' calls in order
    let ops = d.draw_ops();
    assert_eq!(ops.len(), 2);
    assert!(matches!(ops[0], DrawOp::RectFill { x1: 10, .. }));
    assert!(matches!(ops[1], DrawOp::CircleOutline { cx: 100, .. }));

    d.clear();
    assert_eq!(d.draw_ops().len(), 0);
}

#[test]
fn touch_event_codes_decode() {
    assert_eq!(TouchEvent::decode(0), Some(TouchEvent::Release));
    assert_eq!(TouchEvent::decode(1), Some(TouchEvent::Press));
    assert_eq!(TouchEvent::decode(2), Some(TouchEvent::AutoPress));
    assert_eq!(TouchEvent::decode(3), None);
}
