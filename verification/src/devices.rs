//! The port registry: arbitration of the physical ports of the controller.
//!
//! The registry tracks which smart port is bound to which device kind and
//! hands out per-sub-port mutexes so that concurrent tasks cannot race on
//! the same physical line.  Ports are wired at program start: once a port
//! is bound to a kind, a later reservation of the same kind succeeds
//! idempotently and changes nothing, while a reservation of a different
//! kind is a fatal configuration error, reported as a tagged error so the
//! caller can kill the offending task.
//!
//! The sub-port locks form a sparse, lazily populated, index-stable map
//! keyed by `(port, index)`: an entry is created the first time a sub-port
//! is locked and is never moved or removed afterwards.

use vstd::prelude::*;
use crate::mutex::{Mutex, MutexGuard, wake_target};
use crate::runtime::{Runtime, yield_transition, wake_transition, MAX_TASKS};
use crate::task::{TaskState, WakeSignal};

verus! {

/// Number of smart ports on the controller.
pub const SMART_PORTS: usize = 22;

/// Number of sub-ports an expander exposes.
pub const ADI_SUBPORTS: usize = 8;

/// The device kind bound to a single sub-port of an expander.
#[derive(Copy, Clone, Debug, PartialEq, Eq, Structural)]
pub enum ADIPort {
    /// No device is bound to the sub-port.
    Unbound,
    /// A digital input line.
    DigitalIn,
    /// A digital output line.
    DigitalOut,
    /// An analog input line.
    AnalogIn,
    /// An analog output line.
    AnalogOut,
    /// One channel of a quadrature encoder.
    QuadEncoder,
}

impl ADIPort {
    /// The numeric configuration code of the kind, as written to the port.
    pub fn as_u32(&self) -> (r: u32)
        ensures
            r == match *self {
                ADIPort::Unbound => 0u32,
                ADIPort::DigitalIn => 1u32,
                ADIPort::DigitalOut => 2u32,
                ADIPort::AnalogIn => 3u32,
                ADIPort::AnalogOut => 4u32,
                ADIPort::QuadEncoder => 5u32,
            },
    {
        match *self {
            ADIPort::Unbound => 0,
            ADIPort::DigitalIn => 1,
            ADIPort::DigitalOut => 2,
            ADIPort::AnalogIn => 3,
            ADIPort::AnalogOut => 4,
            ADIPort::QuadEncoder => 5,
        }
    }

    /// The kind a numeric configuration code denotes; unknown codes read
    /// back as an unbound sub-port.
    pub fn from_u32(v: u32) -> (r: ADIPort)
        ensures
            r == match v {
                1u32 => ADIPort::DigitalIn,
                2u32 => ADIPort::DigitalOut,
                3u32 => ADIPort::AnalogIn,
                4u32 => ADIPort::AnalogOut,
                5u32 => ADIPort::QuadEncoder,
                _ => ADIPort::Unbound,
            },
    {
        match v {
            1 => ADIPort::DigitalIn,
            2 => ADIPort::DigitalOut,
            3 => ADIPort::AnalogIn,
            4 => ADIPort::AnalogOut,
            5 => ADIPort::QuadEncoder,
            _ => ADIPort::Unbound,
        }
    }
}

/// The descriptor of a smart port: unbound, or bound to a device kind.
#[derive(Copy, Clone, Debug, PartialEq, Eq)]
pub enum SmartPort {
    /// No device is bound to the port.
    Unbound,
    /// An expander exposing eight sub-ports, each with its own binding.
    ADIExpander([ADIPort; 8]),
    /// A smart motor.
    Motor,
}

/// Whether two descriptors bind the same device kind.  The kinds of two
/// expanders match whatever their sub-ports hold: re-reserving a port as
/// an expander must not disturb sub-ports bound in the meantime.
pub open spec fn same_kind(a: SmartPort, b: SmartPort) -> bool {
    match (a, b) {
        (SmartPort::Unbound, SmartPort::Unbound) => true,
        (SmartPort::ADIExpander(_), SmartPort::ADIExpander(_)) => true,
        (SmartPort::Motor, SmartPort::Motor) => true,
        _ => false,
    }
}

/// Executable form of `same_kind`.
pub fn kind_matches(a: &SmartPort, b: &SmartPort) -> (r: bool)
    ensures
        r == same_kind(*a, *b),
{
    match (a, b) {
        (SmartPort::Unbound, SmartPort::Unbound) => true,
        (SmartPort::ADIExpander(_), SmartPort::ADIExpander(_)) => true,
        (SmartPort::Motor, SmartPort::Motor) => true,
        _ => false,
    }
}

/// Whether a descriptor is an expander.
pub open spec fn is_expander(p: SmartPort) -> bool {
    p matches SmartPort::ADIExpander(_)
}

/// The sub-port bindings of an expander descriptor; empty for any other.
pub open spec fn expander_bank(p: SmartPort) -> Seq<ADIPort> {
    match p {
        SmartPort::ADIExpander(bank) => bank@,
        _ => Seq::<ADIPort>::empty(),
    }
}

/// A fatal configuration error of the port registry.  Such an error means
/// broken wiring or a programming error, not a runtime condition to
/// recover from: the caller is expected to kill the offending task.
#[derive(Copy, Clone, Debug, PartialEq, Eq, Structural)]
pub enum PortError {
    /// The port or sub-port index lies outside the physical range.
    OutOfBounds,
    /// The port or sub-port is already bound to a different device kind.
    Conflict,
    /// A sub-port operation reached a port not bound to an expander.
    NotExpander,
}

/// The outcome of reserving `device` on `port`: out of range, newly bound
/// or idempotently re-bound, or a conflict with a different kind.
pub open spec fn reserve_result(ports: Seq<SmartPort>, port: u32, device: SmartPort) -> Result<
    (),
    PortError,
> {
    if port >= SMART_PORTS {
        Err(PortError::OutOfBounds)
    } else if ports[port as int] is Unbound {
        Ok(())
    } else if same_kind(ports[port as int], device) {
        Ok(())
    } else {
        Err(PortError::Conflict)
    }
}

/// The bindings after reserving `device` on `port`: the binding is written
/// only into an unbound in-range port; every other outcome changes nothing.
pub open spec fn reserve_next(ports: Seq<SmartPort>, port: u32, device: SmartPort) -> Seq<
    SmartPort,
> {
    if port < SMART_PORTS && ports[port as int] is Unbound {
        ports.update(port as int, device)
    } else {
        ports
    }
}

/// The outcome of reserving `device` on sub-port `index` of `port`.
pub open spec fn reserve_adi_result(
    ports: Seq<SmartPort>,
    port: u32,
    index: u32,
    device: ADIPort,
) -> Result<(), PortError> {
    if port >= SMART_PORTS || index >= ADI_SUBPORTS {
        Err(PortError::OutOfBounds)
    } else if !is_expander(ports[port as int]) {
        Err(PortError::NotExpander)
    } else if expander_bank(ports[port as int])[index as int] is Unbound || expander_bank(
        ports[port as int],
    )[index as int] == device {
        Ok(())
    } else {
        Err(PortError::Conflict)
    }
}

/// The outcome of reserving an expander on `port`: an unbound port or a
/// port already hosting an expander accepts it; any other binding is a
/// conflict.
pub open spec fn expander_result(ports: Seq<SmartPort>, port: u32) -> Result<(), PortError> {
    if port >= SMART_PORTS {
        Err(PortError::OutOfBounds)
    } else if ports[port as int] is Unbound || is_expander(ports[port as int]) {
        Ok(())
    } else {
        Err(PortError::Conflict)
    }
}

/// Whether a device's sub-port request can be granted in full against
/// the given bindings: every requested sub-port is in range, sits on an
/// expander, and is unbound or already bound to the requested kind; and
/// no two entries ask different kinds of the same sub-port.
pub open spec fn adi_request_ok(ports: Seq<SmartPort>, req: Seq<(u32, u32, ADIPort)>) -> bool {
    &&& forall|q: int|
        0 <= q < req.len() ==> {
            let e = #[trigger] req[q];
            &&& e.0 < SMART_PORTS as u32
            &&& e.1 < ADI_SUBPORTS as u32
            &&& is_expander(ports[e.0 as int])
            &&& (expander_bank(ports[e.0 as int])[e.1 as int] is Unbound || expander_bank(
                ports[e.0 as int],
            )[e.1 as int] == e.2)
        }
    &&& forall|q1: int, q2: int|
        0 <= q1 < q2 < req.len() && (#[trigger] req[q1]).0 == (#[trigger] req[q2]).0
            && req[q1].1 == req[q2].1 ==> req[q1].2 == req[q2].2
}

/// Whether the lock table already holds an entry for `(port, index)`.
pub open spec fn has_key(keys: Seq<(u32, u32)>, port: u32, index: u32) -> bool {
    exists|j: int| 0 <= j < keys.len() && keys[j] == (port, index)
}

/// The position of the lock-table entry for `(port, index)`; meaningful
/// only while `has_key` holds, and then unique because the table's keys
/// are unique.
pub open spec fn key_at(keys: Seq<(u32, u32)>, port: u32, index: u32) -> int {
    choose|j: int| 0 <= j < keys.len() && keys[j] == (port, index)
}

/// The validation a sub-port lock performs before touching any lock: the
/// port and index must be in range, the port must host an expander, and
/// the sub-port must be bound to exactly the expected kind.
pub open spec fn lock_adi_check(
    ports: Seq<SmartPort>,
    port: u32,
    index: u32,
    adi_type: ADIPort,
) -> Result<(), PortError> {
    if port >= SMART_PORTS || index >= ADI_SUBPORTS {
        Err(PortError::OutOfBounds)
    } else if !is_expander(ports[port as int]) {
        Err(PortError::NotExpander)
    } else if expander_bank(ports[port as int])[index as int] != adi_type {
        Err(PortError::Conflict)
    } else {
        Ok(())
    }
}

/// Acquires the lock at position `i` of a lock list for the current task,
/// with the contract of `Mutex::acquire` on that element and every other
/// element untouched.
fn acquire_in_list(locks: &mut Vec<Mutex<()>>, i: usize, rt: &mut Runtime, now: u32) -> (r: Option<
    MutexGuard,
>)
    requires
        i < old(locks).len(),
        old(locks)@[i as int].wf(),
        old(rt).wf(),
    ensures
        final(locks)@.len() == old(locks)@.len(),
        forall|q: int|
            0 <= q < old(locks)@.len() && q != i ==> final(locks)@[q] == old(locks)@[q],
        final(locks)@[i as int].wf(),
        final(rt).wf(),
        (r is Some) == (!old(locks)@[i as int].locked() && old(locks)@[i as int].waiters().len()
            == 0),
        r is Some ==> final(locks)@[i as int].locked() && final(locks)@[i as int].holds(
            old(rt).current_id(),
        ) && r->0.task() == old(rt).current_id() && final(locks)@[i as int].waiters() == old(locks)@[i as int].waiters() && *final(rt) == *old(rt),
        r is None ==> final(locks)@[i as int].locked() == old(locks)@[i as int].locked() && final(locks)@[i as int].waiters() == old(locks)@[i as int].waiters().push(
            old(rt).current_id() as usize,
        ) && yield_transition(
            *old(rt),
            *final(rt),
            TaskState::AwaitWake(WakeSignal::MutexRelease),
            now,
        ),
{
    let mut m = Mutex::new(());
    locks.set_and_swap(i, &mut m);
    let r = m.acquire(rt, now);
    locks.set_and_swap(i, &mut m);
    proof {
        assert(final(locks)@ =~= old(locks)@.update(i as int, final(locks)@[i as int]));
    }
    r
}

/// The continuation of a blocked acquire on the lock at position `i`,
/// with the contract of `Mutex::resume_acquire` on that element.
fn resume_in_list(locks: &mut Vec<Mutex<()>>, i: usize, rt: &mut Runtime, now: u32) -> (r: Option<
    MutexGuard,
>)
    requires
        i < old(locks).len(),
        old(locks)@[i as int].wf(),
        old(rt).wf(),
    ensures
        final(locks)@.len() == old(locks)@.len(),
        forall|q: int|
            0 <= q < old(locks)@.len() && q != i ==> final(locks)@[q] == old(locks)@[q],
        final(locks)@[i as int].wf(),
        final(rt).wf(),
        final(locks)@[i as int].waiters() == old(locks)@[i as int].waiters(),
        (r is Some) == !old(locks)@[i as int].locked(),
        r is Some ==> final(locks)@[i as int].locked() && final(locks)@[i as int].holds(
            old(rt).current_id(),
        ) && r->0.task() == old(rt).current_id() && *final(rt) == *old(rt),
        r is None ==> final(locks)@[i as int].locked() && yield_transition(
            *old(rt),
            *final(rt),
            TaskState::AwaitWake(WakeSignal::MutexRelease),
            now,
        ),
{
    let mut m = Mutex::new(());
    locks.set_and_swap(i, &mut m);
    let r = m.resume_acquire(rt, now);
    locks.set_and_swap(i, &mut m);
    r
}

/// Releases the lock at position `i`, consuming the guard, with the
/// contract of `Mutex::release` on that element.
fn release_in_list(locks: &mut Vec<Mutex<()>>, i: usize, guard: MutexGuard, rt: &mut Runtime)
    requires
        i < old(locks).len(),
        old(locks)@[i as int].wf(),
        old(locks)@[i as int].holds(guard.task()),
        old(rt).wf(),
    ensures
        final(locks)@.len() == old(locks)@.len(),
        forall|q: int|
            0 <= q < old(locks)@.len() && q != i ==> final(locks)@[q] == old(locks)@[q],
        final(locks)@[i as int].wf(),
        final(rt).wf(),
        !final(locks)@[i as int].locked(),
        match wake_target(old(locks)@[i as int].waiters()) {
            None => final(locks)@[i as int].waiters() == old(locks)@[i as int].waiters()
                && *final(rt) == *old(rt),
            Some(w) => {
                &&& final(locks)@[i as int].waiters() == old(locks)@[i as int].waiters().drop_first()
                &&& if w < MAX_TASKS && old(rt).states()[w as int] == TaskState::AwaitWake(
                    WakeSignal::MutexRelease,
                ) {
                    wake_transition(*old(rt), *final(rt), w as int)
                } else {
                    *final(rt) == *old(rt)
                }
            },
        },
{
    let mut m = Mutex::new(());
    locks.set_and_swap(i, &mut m);
    m.release(guard, rt);
    locks.set_and_swap(i, &mut m);
}

/// The interface of a device attached over expander sub-ports.  A device
/// names the sub-ports it needs and the kind it binds each to; the
/// registry reserves them on its behalf.
pub trait ADIDevice: Sized {
    /// The sub-ports the device reserves, each with the kind it binds.
    spec fn adi_ports_spec(&self) -> Seq<(u32, u32, ADIPort)>;

    /// Whether the device accepts being created over this list of
    /// `(port, index)` pairs.
    spec fn accepts(ports: Seq<(u32, u32)>) -> bool;

    /// The sub-ports a device created over `ports` binds.
    spec fn ports_of(ports: Seq<(u32, u32)>) -> Seq<(u32, u32, ADIPort)>;

    /// Creates the device over the given `(port, index)` pairs; a device
    /// rejects a list that does not fit it.
    fn new_adi(ports: &Vec<(u32, u32)>) -> (r: Result<Self, PortError>)
        ensures
            (r is Ok) == Self::accepts(ports@),
            r matches Ok(d) ==> d.adi_ports_spec() == Self::ports_of(ports@),
    ;

    /// The sub-ports this device reserves.
    fn get_adi_ports(&self) -> (r: Vec<(u32, u32, ADIPort)>)
        ensures
            r@ == self.adi_ports_spec(),
    ;
}

/// The interface of a device that occupies a whole smart port.
pub trait SmartDevice: Sized {
    /// The kind every device of the implementing type binds its port to.
    spec fn port_kind() -> SmartPort;

    /// The port the device was created on.
    spec fn port_of(&self) -> u32;

    /// Creates the device on the given smart port.
    fn new_smart(port: u32) -> (r: Self)
        ensures
            r.port_of() == port,
    ;

    /// The smart port the device is connected to.
    fn get_smart_port(&self) -> (r: u32)
        ensures
            r == self.port_of(),
    ;

    /// The kind this device binds its smart port to.
    fn get_smart_port_type(&self) -> (r: SmartPort)
        ensures
            r == Self::port_kind(),
    ;
}

/// Idempotent reservation: when a reservation of `device` on `port`
/// succeeds, reserving the same kind again succeeds too and changes
/// nothing — and the first reservation never touched the binding of any
/// other port either.
pub proof fn lemma_reserve_idempotent(ports: Seq<SmartPort>, port: u32, device: SmartPort)
    requires
        ports.len() == SMART_PORTS,
        reserve_result(ports, port, device) is Ok,
    ensures
        ({
            let once = reserve_next(ports, port, device);
            &&& reserve_result(once, port, device) is Ok
            &&& reserve_next(once, port, device) == once
            &&& forall|q: int| 0 <= q < SMART_PORTS && q != port ==> once[q] == ports[q]
        }),
{
    let once = reserve_next(ports, port, device);
    assert(same_kind(device, device)) by {
        match device {
            SmartPort::Unbound => {},
            SmartPort::ADIExpander(_) => {},
            SmartPort::Motor => {},
        }
    }
    assert(reserve_next(once, port, device) == once);
}

/// Conflicting reservation fails: after `port` is bound to kind `k1`, a
/// reservation of a different kind `k2` reports the conflict error and
/// the port's binding stays `k1`.
pub proof fn lemma_reserve_conflict(ports: Seq<SmartPort>, port: u32, k1: SmartPort, k2: SmartPort)
    requires
        ports.len() == SMART_PORTS,
        port < SMART_PORTS,
        ports[port as int] is Unbound,
        !(k1 is Unbound),
        !same_kind(k1, k2),
    ensures
        ({
            let once = reserve_next(ports, port, k1);
            &&& reserve_result(ports, port, k1) is Ok
            &&& once[port as int] == k1
            &&& reserve_result(once, port, k2) == Err::<(), PortError>(PortError::Conflict)
            &&& reserve_next(once, port, k2) == once
        }),
{
}

/// Manages the persistent binding state of every port of the controller
/// and serializes access to the physical lines.
pub struct DeviceManager {
    /// The descriptor of each smart port.
    smart_ports: Vec<SmartPort>,
    /// One serialization lock per smart port.
    smart_locks: Vec<Mutex<()>>,
    /// The keys of the lazily created sub-port locks, in creation order.
    adi_keys: Vec<(u32, u32)>,
    /// The sub-port locks; entry `j` belongs to the key at `j`.
    adi_locks: Vec<Mutex<()>>,
}

impl DeviceManager {
    /// The descriptor of each smart port.
    pub closed spec fn ports(self) -> Seq<SmartPort> {
        self.smart_ports@
    }

    /// The per-port serialization locks.
    pub closed spec fn port_locks(self) -> Seq<Mutex<()>> {
        self.smart_locks@
    }

    /// The keys of the sub-port lock table, in creation order.
    pub closed spec fn lock_keys(self) -> Seq<(u32, u32)> {
        self.adi_keys@
    }

    /// The sub-port locks, keyed by `lock_keys`.
    pub closed spec fn sub_locks(self) -> Seq<Mutex<()>> {
        self.adi_locks@
    }

    /// Structural soundness of the registry: the fixed tables have their
    /// physical sizes, the lock table's keys are unique and in range, and
    /// every lock satisfies the lock invariant.
    pub open spec fn wf(self) -> bool {
        &&& self.ports().len() == SMART_PORTS
        &&& self.port_locks().len() == SMART_PORTS
        &&& self.lock_keys().len() == self.sub_locks().len()
        &&& forall|j1: int, j2: int|
            0 <= j1 < j2 < self.lock_keys().len() ==> self.lock_keys()[j1] != self.lock_keys()[j2]
        &&& forall|j: int|
            0 <= j < self.lock_keys().len() ==> (#[trigger] self.lock_keys()[j]).0
                < SMART_PORTS as u32 && self.lock_keys()[j].1 < ADI_SUBPORTS as u32
        &&& forall|j: int| 0 <= j < self.sub_locks().len() ==> (#[trigger] self.sub_locks()[j]).wf()
        &&& forall|p: int| 0 <= p < SMART_PORTS ==> (#[trigger] self.port_locks()[p]).wf()
    }

    /// Creates a new registry: every port unbound, every lock free, no
    /// sub-port lock created yet.
    pub fn new() -> (dm: DeviceManager)
        ensures
            dm.wf(),
            forall|p: int| 0 <= p < SMART_PORTS ==> dm.ports()[p] is Unbound,
            dm.lock_keys() == Seq::<(u32, u32)>::empty(),
            forall|p: int|
                0 <= p < SMART_PORTS ==> !(#[trigger] dm.port_locks()[p]).locked() && dm.port_locks()[p].waiters().len() == 0,
    {
        let mut smart_ports: Vec<SmartPort> = Vec::new();
        let mut smart_locks: Vec<Mutex<()>> = Vec::new();
        let mut p: usize = 0;
        while p < SMART_PORTS
            invariant
                p <= SMART_PORTS,
                smart_ports@.len() == p,
                smart_locks@.len() == p,
                forall|q: int| 0 <= q < p ==> smart_ports@[q] is Unbound,
                forall|q: int|
                    0 <= q < p ==> (#[trigger] smart_locks@[q]).wf() && !smart_locks@[q].locked()
                        && smart_locks@[q].waiters().len() == 0,
            decreases SMART_PORTS - p,
        {
            smart_ports.push(SmartPort::Unbound);
            smart_locks.push(Mutex::new(()));
            p += 1;
        }
        DeviceManager { smart_ports, smart_locks, adi_keys: Vec::new(), adi_locks: Vec::new() }
    }

    /// Initializes the registry: the last smart port hosts the built-in
    /// expander of the controller.
    pub fn init(&mut self)
        requires
            old(self).wf(),
        ensures
            final(self).wf(),
            old(self).ports()[SMART_PORTS - 1] is Unbound ==> {
                &&& is_expander(final(self).ports()[SMART_PORTS - 1])
                &&& expander_bank(final(self).ports()[SMART_PORTS - 1]).len() == ADI_SUBPORTS
                &&& forall|i: int|
                    #![trigger expander_bank(final(self).ports()[SMART_PORTS - 1])[i]]
                    0 <= i < ADI_SUBPORTS ==> expander_bank(
                        final(self).ports()[SMART_PORTS - 1],
                    )[i] is Unbound
                &&& forall|q: int|
                    0 <= q < SMART_PORTS - 1 ==> final(self).ports()[q] == old(self).ports()[q]
            },
            !(old(self).ports()[SMART_PORTS - 1] is Unbound) ==> final(self).ports() == old(self).ports(),
            final(self).lock_keys() == old(self).lock_keys(),
            final(self).sub_locks() == old(self).sub_locks(),
            final(self).port_locks() == old(self).port_locks(),
    {
        let _ = self.adi_expander((SMART_PORTS - 1) as u32);
    }

    /// Reserves `port` for `device`.  An unbound port takes the binding; a
    /// port already bound to the same kind succeeds idempotently with no
    /// change at all; a port bound to a different kind is a fatal
    /// configuration conflict.
    pub fn reserve_port(&mut self, port: u32, device: SmartPort) -> (r: Result<(), PortError>)
        requires
            old(self).wf(),
        ensures
            final(self).wf(),
            r == reserve_result(old(self).ports(), port, device),
            final(self).ports() == reserve_next(old(self).ports(), port, device),
            final(self).lock_keys() == old(self).lock_keys(),
            final(self).sub_locks() == old(self).sub_locks(),
            final(self).port_locks() == old(self).port_locks(),
    {
        if port >= SMART_PORTS as u32 {
            return Err(PortError::OutOfBounds);
        }
        let existing = self.smart_ports[port as usize];
        match existing {
            SmartPort::Unbound => {
                self.smart_ports.set(port as usize, device);
                proof {
                    assert(final(self).ports() =~= reserve_next(old(self).ports(), port, device));
                }
                Ok(())
            },
            _ => {
                if kind_matches(&existing, &device) {
                    Ok(())
                } else {
                    Err(PortError::Conflict)
                }
            },
        }
    }

    /// Reserves sub-port `index` of `port` for `device`.  The port must
    /// already be bound to an expander; the sub-port then takes the
    /// binding if unbound, succeeds idempotently on the same kind, and
    /// conflicts fatally on a different one.
    pub fn reserve_adi(&mut self, port: u32, index: u32, device: ADIPort) -> (r: Result<
        (),
        PortError,
    >)
        requires
            old(self).wf(),
        ensures
            final(self).wf(),
            r == reserve_adi_result(old(self).ports(), port, index, device),
            r is Ok ==> {
                &&& is_expander(final(self).ports()[port as int])
                &&& expander_bank(final(self).ports()[port as int]) == expander_bank(
                    old(self).ports()[port as int],
                ).update(index as int, device)
                &&& forall|q: int|
                    0 <= q < SMART_PORTS && q != port ==> final(self).ports()[q] == old(self).ports()[q]
            },
            r is Err ==> final(self).ports() == old(self).ports(),
            final(self).lock_keys() == old(self).lock_keys(),
            final(self).sub_locks() == old(self).sub_locks(),
            final(self).port_locks() == old(self).port_locks(),
    {
        if port >= SMART_PORTS as u32 || index >= ADI_SUBPORTS as u32 {
            return Err(PortError::OutOfBounds);
        }
        let existing = self.smart_ports[port as usize];
        match existing {
            SmartPort::ADIExpander(bank) => {
                let sub = bank[index as usize];
                match sub {
                    ADIPort::Unbound => {
                        let mut new_bank = bank;
                        new_bank[index as usize] = device;
                        self.smart_ports.set(port as usize, SmartPort::ADIExpander(new_bank));
                        Ok(())
                    },
                    _ => {
                        if sub == device {
                            proof {
                                assert(expander_bank(old(self).ports()[port as int]) =~= expander_bank(
                                    old(self).ports()[port as int],
                                ).update(index as int, device));
                            }
                            Ok(())
                        } else {
                            Err(PortError::Conflict)
                        }
                    },
                }
            },
            _ => Err(PortError::NotExpander),
        }
    }

    /// Reserves `port` for an expander with all sub-ports unbound; the
    /// same idempotence and conflict rules as any other reservation, and
    /// in particular re-reserving a port that already hosts an expander
    /// leaves its sub-port bindings untouched.
    pub fn adi_expander(&mut self, port: u32) -> (r: Result<(), PortError>)
        requires
            old(self).wf(),
        ensures
            final(self).wf(),
            r == expander_result(old(self).ports(), port),
            port < SMART_PORTS && old(self).ports()[port as int] is Unbound ==> {
                &&& is_expander(final(self).ports()[port as int])
                &&& expander_bank(final(self).ports()[port as int]).len() == ADI_SUBPORTS
                &&& forall|i: int|
                    #![trigger expander_bank(final(self).ports()[port as int])[i]]
                    0 <= i < ADI_SUBPORTS ==> expander_bank(
                        final(self).ports()[port as int],
                    )[i] is Unbound
                &&& forall|q: int|
                    0 <= q < SMART_PORTS && q != port ==> final(self).ports()[q] == old(self).ports()[q]
            },
            !(port < SMART_PORTS && old(self).ports()[port as int] is Unbound) ==> final(self).ports() == old(self).ports(),
            final(self).lock_keys() == old(self).lock_keys(),
            final(self).sub_locks() == old(self).sub_locks(),
            final(self).port_locks() == old(self).port_locks(),
    {
        let bank: [ADIPort; 8] = [
            ADIPort::Unbound,
            ADIPort::Unbound,
            ADIPort::Unbound,
            ADIPort::Unbound,
            ADIPort::Unbound,
            ADIPort::Unbound,
            ADIPort::Unbound,
            ADIPort::Unbound,
        ];
        self.reserve_port(port, SmartPort::ADIExpander(bank))
    }

    /// The position of the lock-table entry for `(port, index)`, if one
    /// was created already.
    fn find_sub_lock(&self, port: u32, index: u32) -> (r: Option<usize>)
        requires
            self.wf(),
        ensures
            match r {
                Some(j) => j < self.lock_keys().len() && self.lock_keys()[j as int] == (
                    port,
                    index,
                ),
                None => !has_key(self.lock_keys(), port, index),
            },
    {
        let mut j: usize = 0;
        while j < self.adi_keys.len()
            invariant
                self.wf(),
                j <= self.lock_keys().len(),
                forall|q: int| 0 <= q < j ==> self.lock_keys()[q] != (port, index),
            decreases self.lock_keys().len() - j,
        {
            let k = self.adi_keys[j];
            if k.0 == port && k.1 == index {
                return Some(j);
            }
            j += 1;
        }
        None
    }

    /// Validates that sub-port `index` of `port` is bound to `adi_type`,
    /// lazily creates the dedicated lock for `(port, index)` on first
    /// touch, and acquires it for the current task: the guard comes back
    /// at once when the lock was free with nobody queued, and otherwise
    /// the task is enqueued on that lock and sleeps, finishing the
    /// protocol through `resume_adi_device` once woken.  No two tasks can
    /// hold the lock of the same physical sub-port at the same time.
    pub fn lock_adi_device(
        &mut self,
        port: u32,
        index: u32,
        adi_type: ADIPort,
        rt: &mut Runtime,
        now: u32,
    ) -> (r: Result<Option<MutexGuard>, PortError>)
        requires
            old(self).wf(),
            old(rt).wf(),
        ensures
            final(self).wf(),
            final(rt).wf(),
            final(self).ports() == old(self).ports(),
            final(self).port_locks() == old(self).port_locks(),
            match lock_adi_check(old(self).ports(), port, index, adi_type) {
                Err(e) => r == Err::<Option<MutexGuard>, PortError>(e) && *final(self) == *old(self) && *final(rt) == *old(rt),
                Ok(_) => r is Ok && ({
                    let keys0 = old(self).lock_keys();
                    let fresh = !has_key(keys0, port, index);
                    let j = if fresh {
                        keys0.len() as int
                    } else {
                        key_at(keys0, port, index)
                    };
                    &&& final(self).lock_keys() == if fresh {
                        keys0.push((port, index))
                    } else {
                        keys0
                    }
                    &&& final(self).sub_locks().len() == final(self).lock_keys().len()
                    &&& forall|q: int|
                        0 <= q < keys0.len() && q != j ==> final(self).sub_locks()[q] == old(self).sub_locks()[q]
                    &&& (r->Ok_0 is Some) == (fresh || (!old(self).sub_locks()[j].locked() && old(self).sub_locks()[j].waiters().len() == 0))
                    &&& (r->Ok_0 is Some ==> final(self).sub_locks()[j].locked() && final(self).sub_locks()[j].holds(old(rt).current_id()) && r->Ok_0->0.task() == old(rt).current_id() && *final(rt) == *old(rt))
                    &&& (r->Ok_0 is None ==> !fresh && final(self).sub_locks()[j].locked() == old(self).sub_locks()[j].locked() && final(self).sub_locks()[j].waiters() == old(self).sub_locks()[j].waiters().push(old(rt).current_id() as usize)
                        && yield_transition(
                        *old(rt),
                        *final(rt),
                        TaskState::AwaitWake(WakeSignal::MutexRelease),
                        now,
                    ))
                }),
            },
    {
        if port >= SMART_PORTS as u32 || index >= ADI_SUBPORTS as u32 {
            return Err(PortError::OutOfBounds);
        }
        let sp = self.smart_ports[port as usize];
        match sp {
            SmartPort::ADIExpander(bank) => {
                if !(bank[index as usize] == adi_type) {
                    return Err(PortError::Conflict);
                }
            },
            _ => {
                return Err(PortError::NotExpander);
            },
        }
        let found = self.find_sub_lock(port, index);
        let loc: usize;
        match found {
            Some(j) => {
                loc = j;
                proof {
                    let keys0 = self.lock_keys();
                    assert(has_key(keys0, port, index));
                    let jj = key_at(keys0, port, index);
                    assert(0 <= jj < keys0.len() && keys0[jj] == (port, index));
                    assert(jj == loc as int);
                }
            },
            None => {
                self.adi_keys.push((port, index));
                self.adi_locks.push(Mutex::new(()));
                loc = self.adi_keys.len() - 1;
            },
        }
        let g = acquire_in_list(&mut self.adi_locks, loc, rt, now);
        Ok(g)
    }

    /// The continuation of a blocked `lock_adi_device`, run once the task
    /// has been woken by an unlock of the same sub-port.
    pub fn resume_adi_device(&mut self, port: u32, index: u32, rt: &mut Runtime, now: u32) -> (r:
        Option<MutexGuard>)
        requires
            old(self).wf(),
            old(rt).wf(),
            has_key(old(self).lock_keys(), port, index),
        ensures
            final(self).wf(),
            final(rt).wf(),
            final(self).ports() == old(self).ports(),
            final(self).port_locks() == old(self).port_locks(),
            final(self).lock_keys() == old(self).lock_keys(),
            ({
                let j = key_at(old(self).lock_keys(), port, index);
                &&& forall|q: int|
                    0 <= q < old(self).sub_locks().len() && q != j ==> final(self).sub_locks()[q]
                        == old(self).sub_locks()[q]
                &&& (r is Some) == !old(self).sub_locks()[j].locked()
                &&& (r is Some ==> final(self).sub_locks()[j].locked() && final(self).sub_locks()[j].holds(old(rt).current_id()) && r->0.task() == old(rt).current_id() && *final(rt) == *old(rt))
                &&& (r is None ==> final(self).sub_locks()[j].locked() && final(self).sub_locks()[j].waiters() == old(self).sub_locks()[j].waiters()
                    && yield_transition(
                    *old(rt),
                    *final(rt),
                    TaskState::AwaitWake(WakeSignal::MutexRelease),
                    now,
                ))
            }),
    {
        let found = self.find_sub_lock(port, index);
        let loc: usize = match found {
            Some(j) => j,
            None => 0,  // cannot happen: the entry exists and entries are never removed
        };
        proof {
            let keys0 = self.lock_keys();
            let jj = key_at(keys0, port, index);
            assert(0 <= jj < keys0.len() && keys0[jj] == (port, index));
            assert(found is Some);
            assert(jj == loc as int);
        }
        resume_in_list(&mut self.adi_locks, loc, rt, now)
    }

    /// Releases the lock of sub-port `index` of `port`, consuming the
    /// guard; the longest waiter, if any, is woken and run at once.
    pub fn unlock_adi_device(&mut self, port: u32, index: u32, guard: MutexGuard, rt: &mut Runtime)
        requires
            old(self).wf(),
            old(rt).wf(),
            has_key(old(self).lock_keys(), port, index),
            old(self).sub_locks()[key_at(old(self).lock_keys(), port, index)].holds(guard.task()),
        ensures
            final(self).wf(),
            final(rt).wf(),
            final(self).ports() == old(self).ports(),
            final(self).port_locks() == old(self).port_locks(),
            final(self).lock_keys() == old(self).lock_keys(),
            ({
                let j = key_at(old(self).lock_keys(), port, index);
                let pre = old(self).sub_locks()[j];
                &&& forall|q: int|
                    0 <= q < old(self).sub_locks().len() && q != j ==> final(self).sub_locks()[q]
                        == old(self).sub_locks()[q]
                &&& !final(self).sub_locks()[j].locked()
                &&& match wake_target(pre.waiters()) {
                    None => final(self).sub_locks()[j].waiters() == pre.waiters() && *final(rt)
                        == *old(rt),
                    Some(w) => {
                        &&& final(self).sub_locks()[j].waiters() == pre.waiters().drop_first()
                        &&& if w < MAX_TASKS && old(rt).states()[w as int]
                            == TaskState::AwaitWake(WakeSignal::MutexRelease) {
                            wake_transition(*old(rt), *final(rt), w as int)
                        } else {
                            *final(rt) == *old(rt)
                        }
                    },
                }
            }),
    {
        let found = self.find_sub_lock(port, index);
        let loc: usize = match found {
            Some(j) => j,
            None => 0,  // cannot happen: the entry exists and entries are never removed
        };
        proof {
            let keys0 = self.lock_keys();
            let jj = key_at(keys0, port, index);
            assert(0 <= jj < keys0.len() && keys0[jj] == (port, index));
            assert(found is Some);
            assert(jj == loc as int);
        }
        release_in_list(&mut self.adi_locks, loc, guard, rt);
    }

    /// Acquires the serialization lock of a whole smart port for the
    /// current task; the same protocol as a sub-port lock.
    pub fn lock_smart_device(&mut self, port: u32, rt: &mut Runtime, now: u32) -> (r: Option<
        MutexGuard,
    >)
        requires
            old(self).wf(),
            old(rt).wf(),
            port < SMART_PORTS as u32,
        ensures
            final(self).wf(),
            final(rt).wf(),
            final(self).ports() == old(self).ports(),
            final(self).lock_keys() == old(self).lock_keys(),
            final(self).sub_locks() == old(self).sub_locks(),
            forall|q: int|
                0 <= q < SMART_PORTS && q != port ==> final(self).port_locks()[q] == old(self).port_locks()[q],
            (r is Some) == (!old(self).port_locks()[port as int].locked() && old(self).port_locks()[port as int].waiters().len() == 0),
            r is Some ==> final(self).port_locks()[port as int].locked() && final(self).port_locks()[port as int].holds(old(rt).current_id()) && r->0.task() == old(rt).current_id() && *final(rt) == *old(rt),
            r is None ==> final(self).port_locks()[port as int].locked() == old(self).port_locks()[port as int].locked() && final(self).port_locks()[port as int].waiters()
                == old(self).port_locks()[port as int].waiters().push(
                old(rt).current_id() as usize,
            ) && yield_transition(
                *old(rt),
                *final(rt),
                TaskState::AwaitWake(WakeSignal::MutexRelease),
                now,
            ),
    {
        acquire_in_list(&mut self.smart_locks, port as usize, rt, now)
    }

    /// Releases the serialization lock of a smart port, consuming the
    /// guard; the longest waiter, if any, is woken and run at once.
    pub fn unlock_smart_device(&mut self, port: u32, guard: MutexGuard, rt: &mut Runtime)
        requires
            old(self).wf(),
            old(rt).wf(),
            port < SMART_PORTS as u32,
            old(self).port_locks()[port as int].holds(guard.task()),
        ensures
            final(self).wf(),
            final(rt).wf(),
            final(self).ports() == old(self).ports(),
            final(self).lock_keys() == old(self).lock_keys(),
            final(self).sub_locks() == old(self).sub_locks(),
            forall|q: int|
                0 <= q < SMART_PORTS && q != port ==> final(self).port_locks()[q] == old(self).port_locks()[q],
            !final(self).port_locks()[port as int].locked(),
            ({
                let pre = old(self).port_locks()[port as int];
                match wake_target(pre.waiters()) {
                    None => final(self).port_locks()[port as int].waiters() == pre.waiters()
                        && *final(rt) == *old(rt),
                    Some(w) => {
                        &&& final(self).port_locks()[port as int].waiters()
                            == pre.waiters().drop_first()
                        &&& if w < MAX_TASKS && old(rt).states()[w as int]
                            == TaskState::AwaitWake(WakeSignal::MutexRelease) {
                            wake_transition(*old(rt), *final(rt), w as int)
                        } else {
                            *final(rt) == *old(rt)
                        }
                    },
                }
            }),
    {
        release_in_list(&mut self.smart_locks, port as usize, guard, rt);
    }

    /// Creates a device attached over expander sub-ports and reserves
    /// every sub-port it names, with the usual idempotence and conflict
    /// rules at each one.  On success each named sub-port is bound to the
    /// kind the device asked for; on a reservation error the reservations
    /// already made stay, as ports are wired once and never unwound.
    pub fn get_adi_device<T: ADIDevice>(&mut self, ports: &Vec<(u32, u32)>) -> (r: Result<
        T,
        PortError,
    >)
        requires
            old(self).wf(),
        ensures
            final(self).wf(),
            final(self).lock_keys() == old(self).lock_keys(),
            final(self).sub_locks() == old(self).sub_locks(),
            final(self).port_locks() == old(self).port_locks(),
            (exists|q: int|
                0 <= q < ports@.len() && ((#[trigger] ports@[q]).0 >= SMART_PORTS as u32
                    || ports@[q].1 >= ADI_SUBPORTS as u32)) ==> r == Err::<T, PortError>(
                PortError::OutOfBounds,
            ) && final(self).ports() == old(self).ports(),
            (forall|q: int|
                0 <= q < ports@.len() ==> (#[trigger] ports@[q]).0 < SMART_PORTS as u32
                    && ports@[q].1 < ADI_SUBPORTS as u32) && T::accepts(ports@) && adi_request_ok(
                old(self).ports(),
                T::ports_of(ports@),
            ) ==> r is Ok,
            r matches Ok(d) ==> forall|q: int|
                0 <= q < d.adi_ports_spec().len() ==> {
                    let e = #[trigger] d.adi_ports_spec()[q];
                    &&& e.0 < SMART_PORTS as u32
                    &&& e.1 < ADI_SUBPORTS as u32
                    &&& is_expander(final(self).ports()[e.0 as int])
                    &&& (expander_bank(final(self).ports()[e.0 as int])[e.1 as int] == e.2
                        || e.2 is Unbound)
                },
    {
        let mut q: usize = 0;
        while q < ports.len()
            invariant
                *self == *old(self),
                self.wf(),
                q <= ports@.len(),
                forall|j: int|
                    0 <= j < q ==> (#[trigger] ports@[j]).0 < SMART_PORTS as u32 && ports@[j].1
                        < ADI_SUBPORTS as u32,
            decreases ports@.len() - q,
        {
            let p = ports[q];
            if p.0 >= SMART_PORTS as u32 || p.1 >= ADI_SUBPORTS as u32 {
                return Err(PortError::OutOfBounds);
            }
            q += 1;
        }
        let device = match T::new_adi(ports) {
            Ok(d) => d,
            Err(e) => {
                return Err(e);
            },
        };
        let wanted = device.get_adi_ports();
        let ghost granted = adi_request_ok(self.ports(), wanted@);
        let mut i: usize = 0;
        while i < wanted.len()
            invariant
                self.wf(),
                wanted@ == device.adi_ports_spec(),
                wanted@ == T::ports_of(ports@),
                granted == adi_request_ok(old(self).ports(), wanted@),
                i <= wanted@.len(),
                granted ==> forall|j: int|
                    i <= j < wanted@.len() ==> reserve_adi_result(
                        self.ports(),
                        (#[trigger] wanted@[j]).0,
                        wanted@[j].1,
                        wanted@[j].2,
                    ) is Ok,
                granted ==> forall|j1: int, j2: int|
                    0 <= j1 < j2 < wanted@.len() && (#[trigger] wanted@[j1]).0 == (
                    #[trigger] wanted@[j2]).0 && wanted@[j1].1 == wanted@[j2].1
                        ==> wanted@[j1].2 == wanted@[j2].2,
                forall|j: int|
                    0 <= j < ports@.len() ==> (#[trigger] ports@[j]).0 < SMART_PORTS as u32
                        && ports@[j].1 < ADI_SUBPORTS as u32,
                self.lock_keys() == old(self).lock_keys(),
                self.sub_locks() == old(self).sub_locks(),
                self.port_locks() == old(self).port_locks(),
                forall|j: int|
                    0 <= j < i ==> {
                        let e = #[trigger] wanted@[j];
                        &&& e.0 < SMART_PORTS as u32
                        &&& e.1 < ADI_SUBPORTS as u32
                        &&& is_expander(self.ports()[e.0 as int])
                        &&& (expander_bank(self.ports()[e.0 as int])[e.1 as int] == e.2
                            || e.2 is Unbound)
                    },
            decreases wanted@.len() - i,
        {
            let e = wanted[i];
            match self.reserve_adi(e.0, e.1, e.2) {
                Ok(_) => {},
                Err(err) => {
                    proof {
                        if granted {
                            assert(reserve_adi_result(self.ports(), e.0, e.1, e.2) is Ok);
                        }
                    }
                    return Err(err);
                },
            }
            i += 1;
        }
        Ok(device)
    }

    /// Creates a device that occupies a whole smart port and reserves the
    /// port for its kind, with the usual idempotence and conflict rules.
    pub fn get_smart_device<T: SmartDevice>(&mut self, port: u32) -> (r: Result<T, PortError>)
        requires
            old(self).wf(),
        ensures
            final(self).wf(),
            final(self).lock_keys() == old(self).lock_keys(),
            final(self).sub_locks() == old(self).sub_locks(),
            final(self).port_locks() == old(self).port_locks(),
            (r is Ok) == (reserve_result(old(self).ports(), port, T::port_kind()) is Ok),
            r matches Ok(d) ==> d.port_of() == port && final(self).ports() == reserve_next(
                old(self).ports(),
                port,
                T::port_kind(),
            ),
            r is Err ==> final(self).ports() == old(self).ports(),
    {
        if port >= SMART_PORTS as u32 {
            return Err(PortError::OutOfBounds);
        }
        let device: T = T::new_smart(port);
        let kind = device.get_smart_port_type();
        match self.reserve_port(port, kind) {
            Ok(_) => Ok(device),
            Err(e) => Err(e),
        }
    }

    /// A copy of the descriptor bound to the given smart port.
    pub fn get_port(&self, index: u32) -> (r: SmartPort)
        requires
            self.wf(),
            index < SMART_PORTS as u32,
        ensures
            r == self.ports()[index as int],
    {
        self.smart_ports[index as usize]
    }
}

impl Default for DeviceManager {
    /// A freshly created registry: every port unbound, every lock free.
    fn default() -> (dm: DeviceManager)
        ensures
            dm.wf(),
            forall|p: int| 0 <= p < SMART_PORTS ==> dm.ports()[p] is Unbound,
            dm.lock_keys() == Seq::<(u32, u32)>::empty(),
    {
        DeviceManager::new()
    }
}

} // verus!
