//! The five interrupt sources, their enable-mask bits and their fixed
//! dispatch vectors, in priority order (VBlank highest).

use vstd::prelude::*;

verus! {

/// An interrupt source. The listing order is the priority order and matches
/// the bit positions of the interrupt-enable register.
#[derive(Copy, Clone, Debug, PartialEq, Eq, Structural)]
pub enum Interrupt {
    VBlank,
    LCDStat,
    Timer,
    Serial,
    Joypad,
}

impl Interrupt {
    /// The bit of the interrupt-enable register that gates this source:
    /// VBlank is bit 0, LCDStat bit 1, Timer bit 2, Serial bit 3, Joypad
    /// bit 4.
    pub open spec fn spec_is_enabled(self, enable_register: u8) -> bool {
        match self {
            Interrupt::VBlank => enable_register % 2 == 1,
            Interrupt::LCDStat => enable_register / 2 % 2 == 1,
            Interrupt::Timer => enable_register / 4 % 2 == 1,
            Interrupt::Serial => enable_register / 8 % 2 == 1,
            Interrupt::Joypad => enable_register / 16 % 2 == 1,
        }
    }

    #[verifier::when_used_as_spec(spec_is_enabled)]
    pub fn is_enabled(self, enable_register: u8) -> (r: bool)
        ensures
            r == self.spec_is_enabled(enable_register),
    {
        match self {
            Interrupt::VBlank => enable_register % 2 == 1,
            Interrupt::LCDStat => enable_register / 2 % 2 == 1,
            Interrupt::Timer => enable_register / 4 % 2 == 1,
            Interrupt::Serial => enable_register / 8 % 2 == 1,
            Interrupt::Joypad => enable_register / 16 % 2 == 1,
        }
    }

    /// The source's place in the priority order: zero for VBlank, the
    /// highest, through four for Joypad, the lowest.
    pub open spec fn spec_priority(self) -> u8 {
        match self {
            Interrupt::VBlank => 0,
            Interrupt::LCDStat => 1,
            Interrupt::Timer => 2,
            Interrupt::Serial => 3,
            Interrupt::Joypad => 4,
        }
    }

    #[verifier::when_used_as_spec(spec_priority)]
    pub fn priority(self) -> (r: u8)
        ensures
            r == self.spec_priority(),
    {
        match self {
            Interrupt::VBlank => 0,
            Interrupt::LCDStat => 1,
            Interrupt::Timer => 2,
            Interrupt::Serial => 3,
            Interrupt::Joypad => 4,
        }
    }

    /// The fixed low-page address a dispatch of this source jumps to.
    pub open spec fn spec_table_address(self) -> u16 {
        match self {
            Interrupt::VBlank => 0x0040,
            Interrupt::LCDStat => 0x0048,
            Interrupt::Timer => 0x0050,
            Interrupt::Serial => 0x0058,
            Interrupt::Joypad => 0x0060,
        }
    }

    #[verifier::when_used_as_spec(spec_table_address)]
    pub fn table_address(self) -> (r: u16)
        ensures
            r == self.spec_table_address(),
    {
        match self {
            Interrupt::VBlank => 0x0040,
            Interrupt::LCDStat => 0x0048,
            Interrupt::Timer => 0x0050,
            Interrupt::Serial => 0x0058,
            Interrupt::Joypad => 0x0060,
        }
    }
}

} // verus!
