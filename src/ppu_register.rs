use vstd::prelude::*;

use crate::address::AddressRegister;
use crate::control::ControlRegister;
use crate::mask::MaskRegister;
use crate::ppu_status::StatusRegister;
use crate::scroll::ScrollRegister;

verus! {

/// The picture unit's registers as the processor sees them.
#[derive(Debug, Clone, Copy)]
pub struct PpuRegister {
    pub control: ControlRegister,
    pub mask: MaskRegister,
    pub status: StatusRegister,
    pub scroll: ScrollRegister,
    pub address: AddressRegister,
}

impl PpuRegister {
    /// Every register cleared, both latches waiting for a first write.
    pub fn new() -> (r: PpuRegister)
        ensures
            r.control == ControlRegister::spec_from_byte(0),
            r.mask == MaskRegister::spec_from_byte(0),
            r.status == StatusRegister::spec_from_byte(0),
            r.scroll == (ScrollRegister { scroll_x: 0, scroll_y: 0, first_write: true }),
            r.address.spec_value() == 0,
            r.address.spec_hi_next(),
    {
        PpuRegister {
            control: ControlRegister::new(),
            mask: MaskRegister::new(),
            status: StatusRegister::new(),
            scroll: ScrollRegister::new(),
            address: AddressRegister::new(),
        }
    }
}

} // verus!
