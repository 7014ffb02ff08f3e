//! A model of the general-purpose I/O pin the four-wire transport uses as
//! its chip-select line.
//!
//! The pin hardware is an external collaborator; the driver only ever
//! reads back the output level and direction it assigned itself, so a pin
//! is modelled by exactly those two values.

use vstd::prelude::*;

verus! {

/// Direction of a pin: input or output.
#[derive(Clone, Copy, Debug, PartialEq, Eq, Structural)]
#[allow(non_camel_case_types)]
pub enum Direction {
    IN,
    OUT,
}

/// One exclusively owned pin: its number, its direction, and the output
/// level most recently driven.
#[derive(Clone, Copy, Debug, PartialEq, Eq, Structural)]
pub struct Pin {
    pub gpio: u32,
    pub dir: Direction,
    pub level: bool,
}

impl Pin {
    /// A handle on pin `gpio`, not yet initialized.
    pub fn new(gpio: u32) -> (r: Pin)
        ensures
            r == (Pin { gpio, dir: Direction::IN, level: false }),
    {
        Pin { gpio, dir: Direction::IN, level: false }
    }

    /// Reset the pin to its power-on state: input, driven low.
    pub fn init(&mut self)
        ensures
            *final(self) == (Pin { gpio: old(self).gpio, dir: Direction::IN, level: false }),
    {
        self.dir = Direction::IN;
        self.level = false;
    }

    /// A freshly initialized handle on pin `gpio`.
    pub fn new_init(gpio: u32) -> (r: Pin)
        ensures
            r == (Pin { gpio, dir: Direction::IN, level: false }),
    {
        let mut pin = Pin::new(gpio);
        pin.init();
        pin
    }

    /// Initialize the pin, then give it a direction.
    pub fn init_with_direction(&mut self, dir: Direction)
        ensures
            *final(self) == (Pin { gpio: old(self).gpio, dir, level: false }),
    {
        self.init();
        self.set_direction(dir);
    }

    /// Assign the pin's direction.
    pub fn set_direction(&mut self, dir: Direction)
        ensures
            *final(self) == (Pin { gpio: old(self).gpio, dir, level: old(self).level }),
    {
        self.dir = dir;
    }

    /// The pin's current direction.
    pub fn get_direction(&self) -> (r: Direction)
        ensures
            r == self.dir,
    {
        self.dir
    }

    /// Drive the pin high or low.
    pub fn put(&mut self, value: bool)
        ensures
            *final(self) == (Pin { gpio: old(self).gpio, dir: old(self).dir, level: value }),
    {
        self.level = value;
    }

    /// The output level most recently driven.
    pub fn get(&self) -> (r: bool)
        ensures
            r == self.level,
    {
        self.level
    }
}

} // verus!
