use vexrs::adi::{ADIDigitalIn, ADIEncoder};
use vexrs::devices::{
    ADIDevice, ADIPort, DeviceManager, PortError, SmartDevice, SmartPort, ADI_SUBPORTS,
    SMART_PORTS,
};
use vexrs::motor::SmartMotor;
use vexrs::runtime::Runtime;
use vexrs::task::{TaskState, WakeSignal};

const ENTRY: u32 = 0x2000;
const GUARD: u32 = 0x3000;

#[test]
fn reserving_twice_with_the_same_kind_is_idempotent() {
    let mut dm = DeviceManager::new();
    assert_eq!(dm.reserve_port(3, SmartPort::Motor), Ok(()));
    assert_eq!(dm.reserve_port(7, SmartPort::Motor), Ok(()));
    // the second reservation succeeds and changes nothing
    assert_eq!(dm.reserve_port(3, SmartPort::Motor), Ok(()));
    assert_eq!(dm.get_port(3), SmartPort::Motor);
    // prior bindings of other ports are untouched
    assert_eq!(dm.get_port(7), SmartPort::Motor);
    assert_eq!(dm.get_port(4), SmartPort::Unbound);
}

#[test]
fn reserving_a_different_kind_conflicts_and_keeps_the_binding() {
    let mut dm = DeviceManager::new();
    assert_eq!(dm.adi_expander(5), Ok(()));
    assert_eq!(
        dm.reserve_port(5, SmartPort::Motor),
        Err(PortError::Conflict)
    );
    // the port still holds the first binding
    assert!(matches!(dm.get_port(5), SmartPort::ADIExpander(_)));
}

#[test]
fn out_of_range_ports_are_rejected() {
    let mut dm = DeviceManager::new();
    assert_eq!(
        dm.reserve_port(SMART_PORTS as u32, SmartPort::Motor),
        Err(PortError::OutOfBounds)
    );
    assert_eq!(
        dm.reserve_adi(0, ADI_SUBPORTS as u32, ADIPort::DigitalIn),
        Err(PortError::OutOfBounds)
    );
    assert_eq!(
        dm.reserve_adi(SMART_PORTS as u32, 0, ADIPort::DigitalIn),
        Err(PortError::OutOfBounds)
    );
}

#[test]
fn sub_ports_need_an_expander() {
    let mut dm = DeviceManager::new();
    assert_eq!(
        dm.reserve_adi(2, 0, ADIPort::DigitalIn),
        Err(PortError::NotExpander)
    );
    dm.reserve_port(2, SmartPort::Motor).unwrap();
    assert_eq!(
        dm.reserve_adi(2, 0, ADIPort::DigitalIn),
        Err(PortError::NotExpander)
    );
}

#[test]
fn sub_port_reservation_is_idempotent_and_conflicts_fail() {
    let mut dm = DeviceManager::new();
    dm.adi_expander(4).unwrap();
    assert_eq!(dm.reserve_adi(4, 2, ADIPort::AnalogIn), Ok(()));
    // same kind again: fine
    assert_eq!(dm.reserve_adi(4, 2, ADIPort::AnalogIn), Ok(()));
    // different kind: fatal conflict, binding kept
    assert_eq!(
        dm.reserve_adi(4, 2, ADIPort::DigitalOut),
        Err(PortError::Conflict)
    );
    match dm.get_port(4) {
        SmartPort::ADIExpander(bank) => {
            assert_eq!(bank[2], ADIPort::AnalogIn);
            assert_eq!(bank[3], ADIPort::Unbound);
        },
        other => panic!("port 4 should stay an expander, found {:?}", other),
    }
}

#[test]
fn re_reserving_an_expander_keeps_sub_bindings() {
    let mut dm = DeviceManager::new();
    dm.adi_expander(6).unwrap();
    dm.reserve_adi(6, 1, ADIPort::DigitalIn).unwrap();
    // a later idempotent reservation must not wipe the sub-port
    assert_eq!(dm.adi_expander(6), Ok(()));
    match dm.get_port(6) {
        SmartPort::ADIExpander(bank) => assert_eq!(bank[1], ADIPort::DigitalIn),
        other => panic!("port 6 should stay an expander, found {:?}", other),
    }
}

#[test]
fn init_binds_the_built_in_expander() {
    let mut dm = DeviceManager::new();
    dm.init();
    assert!(matches!(
        dm.get_port(SMART_PORTS as u32 - 1),
        SmartPort::ADIExpander(_)
    ));
    for p in 0..SMART_PORTS as u32 - 1 {
        assert_eq!(dm.get_port(p), SmartPort::Unbound);
    }
}

#[test]
fn locking_a_sub_port_validates_and_serializes() {
    let mut rt = Runtime::new();
    let mut dm = DeviceManager::new();
    dm.adi_expander(9).unwrap();
    dm.reserve_adi(9, 3, ADIPort::DigitalIn).unwrap();

    // a mismatching expected kind is a configuration error
    assert_eq!(
        dm.lock_adi_device(9, 3, ADIPort::AnalogIn, &mut rt, 0).err(),
        Some(PortError::Conflict)
    );
    assert_eq!(
        dm.lock_adi_device(9, 4, ADIPort::DigitalIn, &mut rt, 0).err(),
        Some(PortError::Conflict)
    );
    assert_eq!(
        dm.lock_adi_device(8, 3, ADIPort::DigitalIn, &mut rt, 0).err(),
        Some(PortError::NotExpander)
    );
    assert_eq!(
        dm.lock_adi_device(SMART_PORTS as u32, 3, ADIPort::DigitalIn, &mut rt, 0).err(),
        Some(PortError::OutOfBounds)
    );

    // the first touch creates the lock and takes it at once
    let g = dm
        .lock_adi_device(9, 3, ADIPort::DigitalIn, &mut rt, 0)
        .expect("validated")
        .expect("lock is free");

    // a second task touching the same sub-port blocks
    rt.spawn(ENTRY, GUARD);
    rt.yield_t(0);
    assert_eq!(rt.current_task(), 1);
    let blocked = dm
        .lock_adi_device(9, 3, ADIPort::DigitalIn, &mut rt, 0)
        .expect("validated");
    assert!(blocked.is_none());
    assert_eq!(
        rt.tasks[1].state,
        TaskState::AwaitWake(WakeSignal::MutexRelease)
    );

    // the unlock wakes the waiter and runs it at once
    assert_eq!(rt.current_task(), 0);
    dm.unlock_adi_device(9, 3, g, &mut rt);
    assert_eq!(rt.current_task(), 1);
    let g1 = dm
        .resume_adi_device(9, 3, &mut rt, 0)
        .expect("handed off");
    dm.unlock_adi_device(9, 3, g1, &mut rt);
}

#[test]
fn locking_different_sub_ports_does_not_contend() {
    let mut rt = Runtime::new();
    let mut dm = DeviceManager::new();
    dm.adi_expander(9).unwrap();
    dm.reserve_adi(9, 0, ADIPort::DigitalIn).unwrap();
    dm.reserve_adi(9, 1, ADIPort::DigitalOut).unwrap();
    let g0 = dm
        .lock_adi_device(9, 0, ADIPort::DigitalIn, &mut rt, 0)
        .unwrap()
        .expect("first sub-port free");
    let g1 = dm
        .lock_adi_device(9, 1, ADIPort::DigitalOut, &mut rt, 0)
        .unwrap()
        .expect("second sub-port has its own lock");
    dm.unlock_adi_device(9, 0, g0, &mut rt);
    dm.unlock_adi_device(9, 1, g1, &mut rt);
}

#[test]
fn smart_port_locks_serialize_whole_ports() {
    let mut rt = Runtime::new();
    let mut dm = DeviceManager::new();
    dm.reserve_port(2, SmartPort::Motor).unwrap();
    let g = dm.lock_smart_device(2, &mut rt, 0).expect("free");
    rt.spawn(ENTRY, GUARD);
    rt.yield_t(0);
    assert!(dm.lock_smart_device(2, &mut rt, 0).is_none());
    assert_eq!(rt.current_task(), 0);
    dm.unlock_smart_device(2, g, &mut rt);
    assert_eq!(rt.current_task(), 1);
}

#[test]
fn adi_devices_reserve_through_the_registry() {
    let mut dm = DeviceManager::new();
    dm.adi_expander(9).unwrap();
    let din: ADIDigitalIn = dm
        .get_adi_device(&vec![(9, 0)])
        .expect("free sub-port");
    assert_eq!(din.get_adi_ports(), vec![(9, 0, ADIPort::DigitalIn)]);
    match dm.get_port(9) {
        SmartPort::ADIExpander(bank) => assert_eq!(bank[0], ADIPort::DigitalIn),
        other => panic!("port 9 should be an expander, found {:?}", other),
    }
    // a conflicting device on the same sub-port fails
    let conflict: Result<ADIEncoder, PortError> = dm.get_adi_device(&vec![(9, 0), (9, 1)]);
    assert_eq!(conflict.err(), Some(PortError::Conflict));
    // an encoder on free sub-ports reserves both channels
    let enc: ADIEncoder = dm
        .get_adi_device(&vec![(9, 2), (9, 3)])
        .expect("two free sub-ports");
    assert_eq!(
        enc.get_adi_ports(),
        vec![(9, 2, ADIPort::QuadEncoder), (9, 3, ADIPort::QuadEncoder)]
    );
    // bounds are checked before anything is created
    let bad: Result<ADIDigitalIn, PortError> = dm.get_adi_device(&vec![(9, 8)]);
    assert_eq!(bad.err(), Some(PortError::OutOfBounds));
    // an encoder needs two channels
    let short: Result<ADIEncoder, PortError> = dm.get_adi_device(&vec![(9, 4)]);
    assert_eq!(short.err(), Some(PortError::OutOfBounds));
}

#[test]
fn smart_devices_reserve_their_port() {
    let mut dm = DeviceManager::new();
    let motor: SmartMotor = dm.get_smart_device(4).expect("free port");
    assert_eq!(motor.get_smart_port(), 4);
    assert_eq!(motor.get_smart_port_type(), SmartPort::Motor);
    assert_eq!(dm.get_port(4), SmartPort::Motor);
    // the same kind again is idempotent
    let again: Result<SmartMotor, PortError> = dm.get_smart_device(4);
    assert!(again.is_ok());
    // a different kind conflicts
    dm.adi_expander(5).unwrap();
    let clash: Result<SmartMotor, PortError> = dm.get_smart_device(5);
    assert_eq!(clash.err(), Some(PortError::Conflict));
    let oob: Result<SmartMotor, PortError> = dm.get_smart_device(SMART_PORTS as u32);
    assert_eq!(oob.err(), Some(PortError::OutOfBounds));
}

#[test]
fn port_kind_codes_round_trip() {
    let kinds = [
        ADIPort::Unbound,
        ADIPort::DigitalIn,
        ADIPort::DigitalOut,
        ADIPort::AnalogIn,
        ADIPort::AnalogOut,
        ADIPort::QuadEncoder,
    ];
    for (i, k) in kinds.iter().enumerate() {
        assert_eq!(k.as_u32(), i as u32);
        assert_eq!(ADIPort::from_u32(i as u32), *k);
    }
    assert_eq!(ADIPort::from_u32(99), ADIPort::Unbound);
}

#[test]
fn default_registry_is_empty() {
    let dm: DeviceManager = Default::default();
    for p in 0..SMART_PORTS as u32 {
        assert_eq!(dm.get_port(p), SmartPort::Unbound);
    }
}
