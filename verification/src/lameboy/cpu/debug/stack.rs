use vstd::prelude::*;

verus! {

/// The number of stack entries the stack window shows.
pub const DISPLAY_STACK_ENTRY_COUNT: u16 = 50;

/// The addresses of the stack entries the stack window shows, from the top down: the 50 words
/// above the one below the stack pointer, every other byte; none when they would run past
/// 0xFFFF.
pub open spec fn stack_entries(sp: u16) -> Seq<u16> {
    let bottom = (sp - 2) % 0x10000;
    let top = (bottom + 100) % 0x10000;
    if top > bottom {
        Seq::new(50, |i: int| (top - 2 * i) as u16)
    } else {
        Seq::empty()
    }
}

/// The addresses of the stack entries the stack window shows for a stack pointer, from the top
/// down.
pub fn stack_entry_addresses(sp: u16) -> (addrs: Vec<u16>)
    ensures
        addrs@ == stack_entries(sp),
{
    let stack_addr_bottom = sp.wrapping_sub(2);
    let stack_addr_top = stack_addr_bottom.wrapping_add(DISPLAY_STACK_ENTRY_COUNT * 2);

    let mut addrs: Vec<u16> = Vec::new();
    let mut stack_addr = stack_addr_top;
    if stack_addr_top > stack_addr_bottom {
        assert(stack_addr_top == stack_addr_bottom + 100);
    }
    while stack_addr > stack_addr_bottom
        invariant
            stack_addr_bottom == (sp - 2) % 0x10000,
            stack_addr_top == (stack_addr_bottom + 100) % 0x10000,
            stack_addr_top > stack_addr_bottom ==> stack_addr_top == stack_addr_bottom + 100,
            stack_addr_top > stack_addr_bottom ==> stack_addr_bottom <= stack_addr <= stack_addr_top
                && (stack_addr_top - stack_addr) % 2 == 0,
            stack_addr_top > stack_addr_bottom ==> addrs@.len() == (stack_addr_top - stack_addr)
                / 2,
            stack_addr_top > stack_addr_bottom ==> forall|i: int|
                0 <= i < addrs@.len() ==> #[trigger] addrs@[i] == (stack_addr_top - 2 * i) as u16,
            stack_addr_top <= stack_addr_bottom ==> stack_addr == stack_addr_top && addrs@.len()
                == 0,
        decreases stack_addr,
    {
        addrs.push(stack_addr);
        stack_addr = stack_addr.wrapping_sub(2);
    }
    assert(addrs@ =~= stack_entries(sp));
    addrs
}

} // verus!
