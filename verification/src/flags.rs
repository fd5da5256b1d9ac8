//! The processor status register.
//!
//! The status register is a single byte in which each bit is a named condition
//! flag.  Bit 5 (`BreakCommand2`) is the bit that real hardware reports as
//! always set; it is forced on (together with bit 4) when the status byte is
//! pushed by PHP and cleared again when a status byte is pulled by PLP or RTI.

use vstd::prelude::*;

verus! {

/// One named bit of the 8-bit status register.
#[derive(Clone, Copy, PartialEq, Eq, Structural, Debug)]
pub enum Flag {
    Carry,
    Zero,
    InterruptDisable,
    DecimalMode,
    BreakCommand,
    BreakCommand2,
    Overflow,
    Negative,
}

impl Flag {
    /// The single-bit mask this flag occupies in the status byte.
    pub open spec fn spec_mask(self) -> u8 {
        match self {
            Flag::Carry => 0x01,
            Flag::Zero => 0x02,
            Flag::InterruptDisable => 0x04,
            Flag::DecimalMode => 0x08,
            Flag::BreakCommand => 0x10,
            Flag::BreakCommand2 => 0x20,
            Flag::Overflow => 0x40,
            Flag::Negative => 0x80,
        }
    }

    /// The single-bit mask this flag occupies in the status byte.
    #[verifier::when_used_as_spec(spec_mask)]
    pub fn mask(self) -> (m: u8)
        ensures
            m == self.spec_mask(),
    {
        match self {
            Flag::Carry => 0x01,
            Flag::Zero => 0x02,
            Flag::InterruptDisable => 0x04,
            Flag::DecimalMode => 0x08,
            Flag::BreakCommand => 0x10,
            Flag::BreakCommand2 => 0x20,
            Flag::Overflow => 0x40,
            Flag::Negative => 0x80,
        }
    }
}

/// True iff `flag` is set in `status`.
pub open spec fn flag_set(status: u8, flag: Flag) -> bool {
    status & flag.spec_mask() != 0
}

/// `status` with `flag` set.
pub open spec fn with_flag(status: u8, flag: Flag) -> u8 {
    status | flag.spec_mask()
}

/// `status` with `flag` cleared.
pub open spec fn without_flag(status: u8, flag: Flag) -> u8 {
    status & !flag.spec_mask()
}

/// `status` with `flag` set when `value` holds and cleared when it does not.
pub open spec fn flag_set_to(status: u8, flag: Flag, value: bool) -> u8 {
    if value {
        with_flag(status, flag)
    } else {
        without_flag(status, flag)
    }
}

/// The Zero rule: after an instruction that defines it, Zero is set iff the
/// result byte equals 0.
pub open spec fn with_zero_of(status: u8, value: u8) -> u8 {
    flag_set_to(status, Flag::Zero, value == 0)
}

/// The Negative rule: after an instruction that defines it, Negative is set
/// iff bit 7 of the result byte is 1.
pub open spec fn with_negative_of(status: u8, value: u8) -> u8 {
    flag_set_to(status, Flag::Negative, value >> 7 == 1)
}

/// Both derived rules, applied in the order the interpreter applies them
/// (Zero first, then Negative).
pub open spec fn with_nz_of(status: u8, value: u8) -> u8 {
    with_negative_of(with_zero_of(status, value), value)
}

/// The hardware reset value of the status byte: InterruptDisable and bit 5.
pub open spec fn reset_status() -> u8 {
    0x24
}

} // verus!
