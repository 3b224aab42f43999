use vstd::prelude::*;

use crate::morse::{idle_state, tick, with_code, Morse, MorseState};

verus! {

/// A communication transceiver that only tracks whether its power supply
/// is powered.
pub struct CommTransceiver {
    is_power_supply_powered: bool,
    powered_by: u32,
}

impl CommTransceiver {
    /// Whether the power supply is powered.
    pub closed spec fn powered(&self) -> bool {
        self.is_power_supply_powered
    }

    /// The electrical bus that supplies this transceiver.
    pub closed spec fn bus(&self) -> u32 {
        self.powered_by
    }

    /// An unpowered transceiver supplied by bus `powered_by`.
    pub fn new(powered_by: u32) -> (r: Self)
        ensures
            !r.powered(),
            r.bus() == powered_by,
    {
        CommTransceiver { is_power_supply_powered: false, powered_by }
    }

    /// Whether the power supply is powered.
    pub fn is_powered(&self) -> (r: bool)
        ensures
            r == self.powered(),
    {
        self.is_power_supply_powered
    }

    /// The electrical bus that supplies this transceiver.
    pub fn powered_by(&self) -> (r: u32)
        ensures
            r == self.bus(),
    {
        self.powered_by
    }

    /// Records whether the supplying bus is powered.
    pub fn receive_power(&mut self, bus_powered: bool)
        ensures
            final(self).powered() == bus_powered,
            final(self).bus() == old(self).bus(),
    {
        self.is_power_supply_powered = bus_powered;
    }
}

/// The abstract state of a navigation receiver.
pub ghost struct NavState {
    /// Whether the power supply is powered.
    pub powered: bool,
    /// The electrical bus that supplies the receiver.
    pub bus: u32,
    /// Whether the identifier may sound: powered and allowed by the caller
    /// at the last update.
    pub ok_to_beep: bool,
    /// The identifier timing engine.
    pub morse: MorseState,
}

/// The signal a receiver in state `s` publishes.
pub open spec fn output_of(s: NavState) -> bool {
    s.ok_to_beep && s.morse.beep
}

/// A navigation receiver (VOR, ADF, ILS) that keys its station identifier
/// in Morse, gated by its power supply and by the caller.
pub struct NavReceiver {
    is_power_supply_powered: bool,
    powered_by: u32,
    morse: Morse,
    ok_to_beep: bool,
}

impl View for NavReceiver {
    type V = NavState;

    closed spec fn view(&self) -> NavState {
        NavState {
            powered: self.is_power_supply_powered,
            bus: self.powered_by,
            ok_to_beep: self.ok_to_beep,
            morse: self.morse@,
        }
    }
}

impl NavReceiver {
    /// The receiver's engine is well formed.
    pub closed spec fn wf(&self) -> bool {
        self.morse.wf()
    }

    /// An unpowered, silent receiver supplied by bus `powered_by`.
    pub fn new(powered_by: u32) -> (r: Self)
        ensures
            r.wf(),
            !r@.powered,
            !r@.ok_to_beep,
            r@.bus == powered_by,
            r@.morse == idle_state(),
    {
        NavReceiver {
            is_power_supply_powered: false,
            powered_by,
            morse: Morse::new(),
            ok_to_beep: false,
        }
    }

    /// Whether the power supply is powered.
    pub fn is_powered(&self) -> (r: bool)
        ensures
            r == self@.powered,
    {
        self.is_power_supply_powered
    }

    /// The electrical bus that supplies this receiver.
    pub fn powered_by(&self) -> (r: u32)
        ensures
            r == self@.bus,
    {
        self.powered_by
    }

    /// Records whether the supplying bus is powered.
    pub fn receive_power(&mut self, bus_powered: bool)
        ensures
            final(self)@ == (NavState { powered: bus_powered, ..old(self)@ }),
            final(self).wf() == old(self).wf(),
    {
        self.is_power_supply_powered = bus_powered;
    }

    /// Hands in the packed identifier code of the tuned station.
    pub fn set_active_identifier(&mut self, code: u64)
        requires
            old(self).wf(),
        ensures
            final(self).wf(),
            final(self)@ == (NavState { morse: with_code(old(self)@.morse, code), ..old(self)@ }),
    {
        self.morse.set_active_identifier(code);
    }

    /// Advances the identifier by `delta_ns` nanoseconds, whether or not the
    /// receiver is powered, and lets it sound only when powered and
    /// `ok_to_beep`.
    pub fn update(&mut self, delta_ns: u64, ok_to_beep: bool)
        requires
            old(self).wf(),
        ensures
            final(self).wf(),
            final(self)@.morse == tick(old(self)@.morse, delta_ns as nat),
            final(self)@.ok_to_beep == (old(self)@.powered && ok_to_beep),
            final(self)@.powered == old(self)@.powered,
            final(self)@.bus == old(self)@.bus,
            output_of(final(self)@) == (old(self)@.powered && ok_to_beep
                && tick(old(self)@.morse, delta_ns as nat).beep),
    {
        self.ok_to_beep = self.is_power_supply_powered && ok_to_beep;
        self.morse.update(delta_ns);
    }

    /// The published identifier signal: the tone, when allowed to sound.
    pub fn output(&self) -> (r: bool)
        ensures
            r == output_of(self@),
    {
        if self.ok_to_beep {
            self.morse.get_state()
        } else {
            false
        }
    }
}

} // verus!
