//! Hardware abstraction: sensors, digital outputs, and an interface that
//! pairs a temperature sensor with an actuator.
use vstd::prelude::*;

verus! {

/// A source of readings.
pub trait Sensor {
    type Output;

    fn read(&self) -> Self::Output;
}

/// A two-state output such as a cooling fan.
pub trait DigitalOutput {
    /// Whether the output is currently driven high.
    spec fn is_high(&self) -> bool;

    fn set_high(&mut self)
        ensures
            final(self).is_high(),
    ;

    fn set_low(&mut self)
        ensures
            !final(self).is_high(),
    ;

    fn get_state(&self) -> (r: bool)
        ensures
            r == self.is_high(),
    ;
}

/// An actuator that only records the state it was last set to.
pub struct SimulatedActuator {
    pub state: bool,
}

impl SimulatedActuator {
    pub fn new() -> (r: Self)
        ensures
            !r.state,
    {
        SimulatedActuator { state: false }
    }
}

impl DigitalOutput for SimulatedActuator {
    open spec fn is_high(&self) -> bool {
        self.state
    }

    fn set_high(&mut self) {
        self.state = true;
    }

    fn set_low(&mut self) {
        self.state = false;
    }

    fn get_state(&self) -> (r: bool) {
        self.state
    }
}

/// A temperature sensor together with the actuator that acts on it.
pub struct HardwareInterface<T: Sensor, U: DigitalOutput> {
    pub temperature_sensor: T,
    pub actuator: U,
}

impl<T: Sensor, U: DigitalOutput> HardwareInterface<T, U> {
    pub fn read_temperature(&self) -> T::Output {
        self.temperature_sensor.read()
    }

    pub fn activate_actuator(&mut self)
        ensures
            final(self).actuator.is_high(),
            final(self).temperature_sensor == old(self).temperature_sensor,
    {
        self.actuator.set_high();
    }

    pub fn deactivate_actuator(&mut self)
        ensures
            !final(self).actuator.is_high(),
            final(self).temperature_sensor == old(self).temperature_sensor,
    {
        self.actuator.set_low();
    }

    pub fn get_actuator_state(&self) -> (r: bool)
        ensures
            r == self.actuator.is_high(),
    {
        self.actuator.get_state()
    }
}

} // verus!
