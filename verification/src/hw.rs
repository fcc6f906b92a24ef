//! The hardware registers that the CPU core's crate knows by name.

use vstd::prelude::*;
use gb_cpu_sim::reg::HwReg;

verus! {

/// The addresses at which `gb_cpu_sim::reg::HwReg` has a variant.
pub open spec fn is_hw_reg(addr: u16) -> bool {
    ||| addr == 0x0000
    ||| addr == 0x2000
    ||| addr == 0x3000
    ||| addr == 0x4000
    ||| addr == 0x6000
    ||| 0xFF00 <= addr <= 0xFF02
    ||| 0xFF04 <= addr <= 0xFF07
    ||| addr == 0xFF0F
    ||| 0xFF10 <= addr <= 0xFF14
    ||| 0xFF16 <= addr <= 0xFF1E
    ||| 0xFF20 <= addr <= 0xFF26
    ||| 0xFF30 <= addr <= 0xFF3F
    ||| 0xFF40 <= addr <= 0xFF4B
    ||| addr == 0xFF4D
    ||| addr == 0xFF4F
    ||| 0xFF51 <= addr <= 0xFF56
    ||| 0xFF68 <= addr <= 0xFF6B
    ||| addr == 0xFF70
    ||| addr == 0xFF76
    ||| addr == 0xFF77
    ||| addr == 0xFFFF
}

/// Looks `addr` up with `HwReg::try_from` and turns the register found back
/// into its address with `u16::from`. Trusted: the lookup succeeds exactly at
/// the addresses that `HwReg` gives its variants, and the address of the
/// variant found is the one looked up.
#[verifier::external_body]
pub(crate) fn hw_reg_at(addr: u16) -> (r: Option<u16>)
    ensures
        r == if is_hw_reg(addr) {
            Some(addr)
        } else {
            None::<u16>
        },
{
    match HwReg::try_from(addr) {
        Ok(reg) => Some(u16::from(reg)),
        Err(_) => None,
    }
}

} // verus!
