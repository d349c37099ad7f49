//! Devices attached through the sub-ports of an expander.
//!
//! Each device remembers which port and sub-port it sits on.  The raw
//! values and the live port configuration are read from the hardware by
//! the caller and enter here as plain arguments; this module validates
//! the configuration, decodes readings, detects edges and computes the
//! values to write back.

use vstd::prelude::*;
use crate::devices::{ADIDevice, ADIPort, PortError};

verus! {

/// A basic digital input line, with the cache behind edge detection.
#[derive(Copy, Clone, Debug)]
pub struct ADIDigitalIn {
    port: u32,
    index: u32,
    last_value: bool,
}

impl ADIDigitalIn {
    /// The smart port the device is connected through.
    pub closed spec fn port_spec(self) -> u32 {
        self.port
    }

    /// The sub-port the device is connected to.
    pub closed spec fn index_spec(self) -> u32 {
        self.index
    }

    /// The previously read value.
    pub closed spec fn last_spec(self) -> bool {
        self.last_value
    }

    /// Creates a digital input on the given port and sub-port, with the
    /// last value remembered as low.
    pub fn new(port: u32, index: u32) -> (r: ADIDigitalIn)
        ensures
            r.port_spec() == port,
            r.index_spec() == index,
            !r.last_spec(),
    {
        ADIDigitalIn { port, index, last_value: false }
    }

    /// The kind this device binds its sub-port to.
    pub fn get_adi_port(&self) -> (r: ADIPort)
        ensures
            r == ADIPort::DigitalIn,
    {
        ADIPort::DigitalIn
    }

    /// Decodes a reading of the line: the sub-port's live configuration
    /// must read back as digital input — anything else is a fatal
    /// configuration error — and the raw value is high exactly when it
    /// is not zero.
    pub fn read(&self, config: ADIPort, raw: i32) -> (r: Result<bool, PortError>)
        ensures
            r == if config != ADIPort::DigitalIn {
                Err::<bool, PortError>(PortError::Conflict)
            } else {
                Ok::<bool, PortError>(raw != 0)
            },
    {
        if !(config == ADIPort::DigitalIn) {
            return Err(PortError::Conflict);
        }
        Ok(raw != 0)
    }

    /// Whether the line went high since the previous check: true exactly
    /// when the fresh reading is high and differs from the cached one,
    /// and only then is the cache updated.
    pub fn on_rising_edge(&mut self, value: bool) -> (r: bool)
        ensures
            r == (old(self).last_spec() != value && value),
            final(self).port_spec() == old(self).port_spec(),
            final(self).index_spec() == old(self).index_spec(),
            final(self).last_spec() == if old(self).last_spec() != value && value {
                value
            } else {
                old(self).last_spec()
            },
    {
        if self.last_value != value && value {
            self.last_value = value;
            true
        } else {
            false
        }
    }

    /// Whether the line went low since the previous check: true exactly
    /// when the fresh reading is low and differs from the cached one,
    /// and only then is the cache updated.
    pub fn on_falling_edge(&mut self, value: bool) -> (r: bool)
        ensures
            r == (old(self).last_spec() != value && !value),
            final(self).port_spec() == old(self).port_spec(),
            final(self).index_spec() == old(self).index_spec(),
            final(self).last_spec() == if old(self).last_spec() != value && !value {
                value
            } else {
                old(self).last_spec()
            },
    {
        if self.last_value != value && !value {
            self.last_value = value;
            true
        } else {
            false
        }
    }

}

impl ADIDevice for ADIDigitalIn {
    open spec fn adi_ports_spec(&self) -> Seq<(u32, u32, ADIPort)> {
        seq![(self.port_spec(), self.index_spec(), ADIPort::DigitalIn)]
    }

    open spec fn accepts(ports: Seq<(u32, u32)>) -> bool {
        ports.len() >= 1
    }

    open spec fn ports_of(ports: Seq<(u32, u32)>) -> Seq<(u32, u32, ADIPort)> {
        seq![(ports[0].0, ports[0].1, ADIPort::DigitalIn)]
    }

    fn new_adi(ports: &Vec<(u32, u32)>) -> (r: Result<Self, PortError>) {
        if ports.len() < 1 {
            return Err(PortError::OutOfBounds);
        }
        let p = ports[0];
        Ok(ADIDigitalIn::new(p.0, p.1))
    }

    fn get_adi_ports(&self) -> (r: Vec<(u32, u32, ADIPort)>) {
        let mut r: Vec<(u32, u32, ADIPort)> = Vec::new();
        r.push((self.port, self.index, ADIPort::DigitalIn));
        proof {
            assert(r@ =~= self.adi_ports_spec());
        }
        r
    }
}

/// A basic digital output line.
#[derive(Copy, Clone, Debug)]
pub struct ADIDigitalOut {
    port: u32,
    index: u32,
}

impl ADIDigitalOut {
    /// The smart port the device is connected through.
    pub closed spec fn port_spec(self) -> u32 {
        self.port
    }

    /// The sub-port the device is connected to.
    pub closed spec fn index_spec(self) -> u32 {
        self.index
    }

    /// Creates a digital output on the given port and sub-port.
    pub fn new(port: u32, index: u32) -> (r: ADIDigitalOut)
        ensures
            r.port_spec() == port,
            r.index_spec() == index,
    {
        ADIDigitalOut { port, index }
    }

    /// The value to write for a digital level: the sub-port's live
    /// configuration must read back as digital output, and the line is
    /// driven with one for high and zero for low.
    pub fn write(&self, config: ADIPort, value: bool) -> (r: Result<i32, PortError>)
        ensures
            r == if config != ADIPort::DigitalOut {
                Err::<i32, PortError>(PortError::Conflict)
            } else if value {
                Ok::<i32, PortError>(1)
            } else {
                Ok::<i32, PortError>(0)
            },
    {
        if !(config == ADIPort::DigitalOut) {
            return Err(PortError::Conflict);
        }
        Ok(if value { 1 } else { 0 })
    }
}

impl ADIDevice for ADIDigitalOut {
    open spec fn adi_ports_spec(&self) -> Seq<(u32, u32, ADIPort)> {
        seq![(self.port_spec(), self.index_spec(), ADIPort::DigitalOut)]
    }

    open spec fn accepts(ports: Seq<(u32, u32)>) -> bool {
        ports.len() >= 1
    }

    open spec fn ports_of(ports: Seq<(u32, u32)>) -> Seq<(u32, u32, ADIPort)> {
        seq![(ports[0].0, ports[0].1, ADIPort::DigitalOut)]
    }

    fn new_adi(ports: &Vec<(u32, u32)>) -> (r: Result<Self, PortError>) {
        if ports.len() < 1 {
            return Err(PortError::OutOfBounds);
        }
        let p = ports[0];
        Ok(ADIDigitalOut::new(p.0, p.1))
    }

    fn get_adi_ports(&self) -> (r: Vec<(u32, u32, ADIPort)>) {
        let mut r: Vec<(u32, u32, ADIPort)> = Vec::new();
        r.push((self.port, self.index, ADIPort::DigitalOut));
        proof {
            assert(r@ =~= self.adi_ports_spec());
        }
        r
    }
}

/// A basic analog input line.
#[derive(Copy, Clone, Debug)]
pub struct ADIAnalogIn {
    port: u32,
    index: u32,
}

impl ADIAnalogIn {
    /// The smart port the device is connected through.
    pub closed spec fn port_spec(self) -> u32 {
        self.port
    }

    /// The sub-port the device is connected to.
    pub closed spec fn index_spec(self) -> u32 {
        self.index
    }

    /// Creates an analog input on the given port and sub-port.
    pub fn new(port: u32, index: u32) -> (r: ADIAnalogIn)
        ensures
            r.port_spec() == port,
            r.index_spec() == index,
    {
        ADIAnalogIn { port, index }
    }

    /// Decodes a reading of the line: the sub-port's live configuration
    /// must read back as analog input, and the raw value passes through.
    pub fn read(&self, config: ADIPort, raw: i32) -> (r: Result<i32, PortError>)
        ensures
            r == if config != ADIPort::AnalogIn {
                Err::<i32, PortError>(PortError::Conflict)
            } else {
                Ok::<i32, PortError>(raw)
            },
    {
        if !(config == ADIPort::AnalogIn) {
            return Err(PortError::Conflict);
        }
        Ok(raw)
    }
}

impl ADIDevice for ADIAnalogIn {
    open spec fn adi_ports_spec(&self) -> Seq<(u32, u32, ADIPort)> {
        seq![(self.port_spec(), self.index_spec(), ADIPort::AnalogIn)]
    }

    open spec fn accepts(ports: Seq<(u32, u32)>) -> bool {
        ports.len() >= 1
    }

    open spec fn ports_of(ports: Seq<(u32, u32)>) -> Seq<(u32, u32, ADIPort)> {
        seq![(ports[0].0, ports[0].1, ADIPort::AnalogIn)]
    }

    fn new_adi(ports: &Vec<(u32, u32)>) -> (r: Result<Self, PortError>) {
        if ports.len() < 1 {
            return Err(PortError::OutOfBounds);
        }
        let p = ports[0];
        Ok(ADIAnalogIn::new(p.0, p.1))
    }

    fn get_adi_ports(&self) -> (r: Vec<(u32, u32, ADIPort)>) {
        let mut r: Vec<(u32, u32, ADIPort)> = Vec::new();
        r.push((self.port, self.index, ADIPort::AnalogIn));
        proof {
            assert(r@ =~= self.adi_ports_spec());
        }
        r
    }
}

/// A basic analog output line.
#[derive(Copy, Clone, Debug)]
pub struct ADIAnalogOut {
    port: u32,
    index: u32,
}

impl ADIAnalogOut {
    /// The smart port the device is connected through.
    pub closed spec fn port_spec(self) -> u32 {
        self.port
    }

    /// The sub-port the device is connected to.
    pub closed spec fn index_spec(self) -> u32 {
        self.index
    }

    /// Creates an analog output on the given port and sub-port.
    pub fn new(port: u32, index: u32) -> (r: ADIAnalogOut)
        ensures
            r.port_spec() == port,
            r.index_spec() == index,
    {
        ADIAnalogOut { port, index }
    }

    /// The value to write for an analog level: the sub-port's live
    /// configuration must read back as analog output, and the value
    /// passes through.
    pub fn write(&self, config: ADIPort, value: i32) -> (r: Result<i32, PortError>)
        ensures
            r == if config != ADIPort::AnalogOut {
                Err::<i32, PortError>(PortError::Conflict)
            } else {
                Ok::<i32, PortError>(value)
            },
    {
        if !(config == ADIPort::AnalogOut) {
            return Err(PortError::Conflict);
        }
        Ok(value)
    }
}

impl ADIDevice for ADIAnalogOut {
    open spec fn adi_ports_spec(&self) -> Seq<(u32, u32, ADIPort)> {
        seq![(self.port_spec(), self.index_spec(), ADIPort::AnalogOut)]
    }

    open spec fn accepts(ports: Seq<(u32, u32)>) -> bool {
        ports.len() >= 1
    }

    open spec fn ports_of(ports: Seq<(u32, u32)>) -> Seq<(u32, u32, ADIPort)> {
        seq![(ports[0].0, ports[0].1, ADIPort::AnalogOut)]
    }

    fn new_adi(ports: &Vec<(u32, u32)>) -> (r: Result<Self, PortError>) {
        if ports.len() < 1 {
            return Err(PortError::OutOfBounds);
        }
        let p = ports[0];
        Ok(ADIAnalogOut::new(p.0, p.1))
    }

    fn get_adi_ports(&self) -> (r: Vec<(u32, u32, ADIPort)>) {
        let mut r: Vec<(u32, u32, ADIPort)> = Vec::new();
        r.push((self.port, self.index, ADIPort::AnalogOut));
        proof {
            assert(r@ =~= self.adi_ports_spec());
        }
        r
    }
}

/// A quadrature encoder attached over two sub-ports.
#[derive(Clone, Debug)]
pub struct ADIEncoder {
    ports: Vec<(u32, u32, ADIPort)>,
}

impl ADIEncoder {
    /// The sub-ports the encoder reserves, each as a quadrature channel.
    pub closed spec fn ports_spec(self) -> Seq<(u32, u32, ADIPort)> {
        self.ports@
    }

}

impl ADIDevice for ADIEncoder {
    open spec fn adi_ports_spec(&self) -> Seq<(u32, u32, ADIPort)> {
        self.ports_spec()
    }

    /// An encoder needs its two channels: fewer than two pairs are
    /// rejected.
    open spec fn accepts(ports: Seq<(u32, u32)>) -> bool {
        ports.len() >= 2
    }

    open spec fn ports_of(ports: Seq<(u32, u32)>) -> Seq<(u32, u32, ADIPort)> {
        ports.map(|i: int, p: (u32, u32)| (p.0, p.1, ADIPort::QuadEncoder))
    }

    fn new_adi(ports: &Vec<(u32, u32)>) -> (r: Result<Self, PortError>) {
        if ports.len() < 2 {
            return Err(PortError::OutOfBounds);
        }
        let mut tagged: Vec<(u32, u32, ADIPort)> = Vec::new();
        let mut i: usize = 0;
        while i < ports.len()
            invariant
                i <= ports@.len(),
                tagged@.len() == i,
                forall|q: int|
                    0 <= q < i ==> #[trigger] tagged@[q] == (
                        ports@[q].0,
                        ports@[q].1,
                        ADIPort::QuadEncoder,
                    ),
            decreases ports@.len() - i,
        {
            let p = ports[i];
            tagged.push((p.0, p.1, ADIPort::QuadEncoder));
            i += 1;
        }
        let enc = ADIEncoder { ports: tagged };
        proof {
            assert(enc.adi_ports_spec() =~= Self::ports_of(ports@));
        }
        Ok(enc)
    }

    fn get_adi_ports(&self) -> (r: Vec<(u32, u32, ADIPort)>) {
        let mut r: Vec<(u32, u32, ADIPort)> = Vec::new();
        let mut i: usize = 0;
        while i < self.ports.len()
            invariant
                i <= self.ports@.len(),
                r@.len() == i,
                forall|q: int| 0 <= q < i ==> r@[q] == self.ports@[q],
            decreases self.ports@.len() - i,
        {
            r.push(self.ports[i]);
            i += 1;
        }
        proof {
            assert(r@ =~= self.ports_spec());
        }
        r
    }
}

} // verus!
