//! The processor status register: eight flags, packed into one byte as
//! `C|Z|I|D|B|_|V|N` at bits 0 to 7.

use vstd::prelude::*;

verus! {

/// The P register as named flags.
#[derive(Clone, Copy, Debug)]
pub struct StatusFlags {
    pub carry: bool,
    pub zero: bool,
    pub interrupt_disabled: bool,
    pub decimal: bool,
    pub breakpoint: bool,
    pub unused: bool,
    pub overflow: bool,
    pub sign: bool,
}

/// The packed byte of a flag set. The unused bit stays zero.
pub open spec fn spec_flags_to_u8(f: StatusFlags) -> u8 {
    ((if f.carry { 0x01u8 } else { 0u8 }) | (if f.zero { 0x02u8 } else { 0u8 }) | (
    if f.interrupt_disabled { 0x04u8 } else { 0u8 }) | (if f.decimal { 0x08u8 } else { 0u8 }) | (
    if f.breakpoint { 0x10u8 } else { 0u8 }) | (if f.overflow { 0x40u8 } else { 0u8 }) | (
    if f.sign { 0x80u8 } else { 0u8 })) as u8
}

/// The flag set a packed byte unpacks to. The unused flag always unpacks
/// clear.
pub open spec fn spec_flags_from_u8(byte: u8) -> StatusFlags {
    StatusFlags {
        carry: byte & 0x01 == 0x01,
        zero: byte & 0x02 == 0x02,
        interrupt_disabled: byte & 0x04 == 0x04,
        decimal: byte & 0x08 == 0x08,
        breakpoint: byte & 0x10 == 0x10,
        unused: false,
        overflow: byte & 0x40 == 0x40,
        sign: byte & 0x80 == 0x80,
    }
}

/// The flags at power-on: everything clear but the interrupt-disable
/// bit.
pub open spec fn spec_flags_default() -> StatusFlags {
    StatusFlags {
        carry: false,
        zero: false,
        interrupt_disabled: true,
        decimal: false,
        breakpoint: false,
        unused: false,
        overflow: false,
        sign: false,
    }
}

impl StatusFlags {
    /// Packs the flags into the P register byte.
    pub fn to_u8(&self) -> (r: u8)
        ensures
            r == spec_flags_to_u8(*self),
    {
        let carry: u8 = if self.carry { 0x01 } else { 0 };
        let zero: u8 = if self.zero { 0x02 } else { 0 };
        let interrupt_disabled: u8 = if self.interrupt_disabled { 0x04 } else { 0 };
        let decimal: u8 = if self.decimal { 0x08 } else { 0 };
        let breakpoint: u8 = if self.breakpoint { 0x10 } else { 0 };
        let overflow: u8 = if self.overflow { 0x40 } else { 0 };
        let sign: u8 = if self.sign { 0x80 } else { 0 };
        carry | zero | interrupt_disabled | decimal | breakpoint | overflow | sign
    }
}

impl From<u8> for StatusFlags {
    /// Unpacks a P register byte; the unused flag always comes back
    /// clear.
    fn from(byte: u8) -> (r: StatusFlags) {
        StatusFlags {
            carry: byte & 0x01 == 0x01,
            zero: byte & 0x02 == 0x02,
            interrupt_disabled: byte & 0x04 == 0x04,
            decimal: byte & 0x08 == 0x08,
            breakpoint: byte & 0x10 == 0x10,
            unused: false,
            overflow: byte & 0x40 == 0x40,
            sign: byte & 0x80 == 0x80,
        }
    }
}

impl vstd::std_specs::convert::FromSpecImpl<u8> for StatusFlags {
    open spec fn obeys_from_spec() -> bool {
        true
    }

    open spec fn from_spec(byte: u8) -> StatusFlags {
        spec_flags_from_u8(byte)
    }
}

impl Default for StatusFlags {
    /// The power-on flags: only the interrupt-disable bit is set.
    fn default() -> (r: StatusFlags)
        ensures
            r == spec_flags_default(),
    {
        StatusFlags {
            carry: false,
            zero: false,
            interrupt_disabled: true,
            decimal: false,
            breakpoint: false,
            unused: false,
            overflow: false,
            sign: false,
        }
    }
}

} // verus!
