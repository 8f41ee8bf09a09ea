use vstd::prelude::*;

verus! {

/// The names of the 16-bit registers: four pairs of 8-bit registers, the
/// stack pointer and the program counter.
#[derive(Copy, Clone, Debug, PartialEq, Eq, Structural)]
pub enum Reg16 {
    AF,
    BC,
    DE,
    HL,
    SP,
    PC,
}

/// The names of the 8-bit registers.
#[derive(Copy, Clone, Debug, PartialEq, Eq, Structural)]
pub enum Reg8 {
    A,
    F,
    B,
    C,
    D,
    E,
    H,
    L,
}

/// A register: one value of a fixed width.
pub struct Register<T> {
    value: T,
}

impl<T> View for Register<T> {
    type V = T;

    closed spec fn view(&self) -> T {
        self.value
    }
}

impl<T: Copy> Register<T> {
    /// A register that holds `value`.
    pub fn new(value: T) -> (register: Self)
        ensures
            register@ == value,
    {
        Self { value }
    }

    /// The value that the register holds.
    pub fn value(&self) -> (value: T)
        ensures
            value == self@,
    {
        self.value
    }

    /// Replaces the value that the register holds.
    pub fn set(&mut self, value: T)
        ensures
            final(self)@ == value,
    {
        self.value = value;
    }
}

/// The successor of `value` in 8 bits: `0xFF` is followed by `0`.
pub open spec fn inc8(value: u8) -> u8 {
    if value == 0xFF {
        0
    } else {
        (value + 1) as u8
    }
}

/// The predecessor of `value` in 8 bits: `0` is preceded by `0xFF`.
pub open spec fn dec8(value: u8) -> u8 {
    if value == 0 {
        0xFF
    } else {
        (value - 1) as u8
    }
}

/// The successor of `value` in 16 bits: `0xFFFF` is followed by `0`.
pub open spec fn inc16(value: u16) -> u16 {
    if value == 0xFFFF {
        0
    } else {
        (value + 1) as u16
    }
}

/// The predecessor of `value` in 16 bits: `0` is preceded by `0xFFFF`.
pub open spec fn dec16(value: u16) -> u16 {
    if value == 0 {
        0xFFFF
    } else {
        (value - 1) as u16
    }
}

impl Register<u8> {
    /// Adds one, wrapping. Returns the new value and whether it wrapped.
    pub fn inc(&mut self) -> (outcome: (u8, bool))
        ensures
            final(self)@ == inc8(old(self)@),
            outcome.0 == final(self)@,
            outcome.1 == (old(self)@ == 0xFF),
    {
        let wrapped: bool = self.value == 0xFF;
        let result: u8 = self.value.wrapping_add(1);
        self.value = result;
        (result, wrapped)
    }

    /// Subtracts one, wrapping. Returns the new value and whether it wrapped.
    pub fn dec(&mut self) -> (outcome: (u8, bool))
        ensures
            final(self)@ == dec8(old(self)@),
            outcome.0 == final(self)@,
            outcome.1 == (old(self)@ == 0),
    {
        let wrapped: bool = self.value == 0;
        let result: u8 = self.value.wrapping_sub(1);
        self.value = result;
        (result, wrapped)
    }
}

impl Register<u16> {
    /// Adds one, wrapping. Returns the new value and whether it wrapped.
    pub fn inc(&mut self) -> (outcome: (u16, bool))
        ensures
            final(self)@ == inc16(old(self)@),
            outcome.0 == final(self)@,
            outcome.1 == (old(self)@ == 0xFFFF),
    {
        let wrapped: bool = self.value == 0xFFFF;
        let result: u16 = self.value.wrapping_add(1);
        self.value = result;
        (result, wrapped)
    }

    /// Subtracts one, wrapping. Returns the new value and whether it wrapped.
    pub fn dec(&mut self) -> (outcome: (u16, bool))
        ensures
            final(self)@ == dec16(old(self)@),
            outcome.0 == final(self)@,
            outcome.1 == (old(self)@ == 0),
    {
        let wrapped: bool = self.value == 0;
        let result: u16 = self.value.wrapping_sub(1);
        self.value = result;
        (result, wrapped)
    }
}

} // verus!
