use vstd::prelude::*;

verus! {

/// The first row the memory dump window shows around `addr`: five rows of 16 bytes above the
/// row of `addr`, or the top of memory when that would wrap round either end.
pub open spec fn hexdump_first_row(addr: u16) -> u16 {
    let row = addr - addr % 16;
    let low = (row - 80) % 0x10000;
    let high = (row + 80) % 0x10000;
    if low > high {
        0
    } else {
        low as u16
    }
}

/// The first row of the memory dump window around `dump_memory_addr`. The eleven rows of 16
/// bytes from it never run past 0xFFFF.
pub fn hexdump_start(dump_memory_addr: u16) -> (low: u16)
    ensures
        low == hexdump_first_row(dump_memory_addr),
        low + 11 * 16 <= 0x10000,
        low % 16 == 0,
{
    let bytes_per_row: u16 = 16;
    let context_size: u16 = 5;

    let memory_addr_row = dump_memory_addr - (dump_memory_addr % bytes_per_row);

    let mut memory_addr_low = memory_addr_row.wrapping_sub(context_size * bytes_per_row);
    let memory_addr_high = memory_addr_row.wrapping_add(context_size * bytes_per_row);

    if memory_addr_low > memory_addr_high {
        memory_addr_low = 0;
    }
    memory_addr_low
}

} // verus!
