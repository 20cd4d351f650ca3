//! Bus-address arithmetic and the fixed peripheral address map.
//!
//! The DMA subsystem sees memory through a bus address space whose top two
//! bits select a cache policy alias rather than a physical location.
//! Translating a bus address to the CPU physical address means clearing
//! those alias bits.

use vstd::prelude::*;

verus! {

/// Base of the peripheral block as seen from the GPU/DMA bus.
pub const PERIPHERAL_BUS_ADDRESS: u32 = 0x7E00_0000;
/// Base of the peripheral block in the CPU physical address space.
pub const PERIPHERAL_BASE_ADDRESS: u32 = 0x3F00_0000;
/// Physical base of the DMA controller register block.
pub const DMA_BASE_ADDRESS: u32 = PERIPHERAL_BASE_ADDRESS + 0x0000_7000;
/// Physical base of the clock manager register block.
pub const CLK_BASE_ADDRESS: u32 = PERIPHERAL_BASE_ADDRESS + 0x0010_1000;
/// Physical base of the GPIO controller register block.
pub const GPIO_BASE_ADDRESS: u32 = PERIPHERAL_BASE_ADDRESS + 0x0020_0000;
/// Physical base of the secondary timing peripheral register block.
pub const SMI_BASE_ADDRESS: u32 = PERIPHERAL_BASE_ADDRESS + 0x0060_0000;

/// The two cache-alias bits of a bus address.
pub const BUS_ALIAS_BITS: u32 = 0xC000_0000;

/// The physical address aliased by a bus address: the alias bits cleared.
pub open spec fn spec_translate(bus: u32) -> u32 {
    bus & !BUS_ALIAS_BITS
}

/// Translate a GPU bus address into the CPU physical address it aliases.
pub fn translate(bus: u32) -> (phys: u32)
    ensures
        phys == spec_translate(bus),
{
    bus & !BUS_ALIAS_BITS
}

/// Translation only clears the alias bits, so it is idempotent, and an
/// address whose alias bits are already clear translates to itself.
pub proof fn lemma_translate_idempotent(bus: u32)
    ensures
        spec_translate(spec_translate(bus)) == spec_translate(bus),
        bus & BUS_ALIAS_BITS == 0 ==> spec_translate(bus) == bus,
{
    assert((bus & !0xC000_0000u32) & !0xC000_0000u32 == bus & !0xC000_0000u32)
        by (bit_vector);
    assert(bus & 0xC000_0000u32 == 0 ==> bus & !0xC000_0000u32 == bus)
        by (bit_vector);
}

/// The bus-address alias of a physical address inside the peripheral
/// block, as embedded in DMA descriptors.
pub open spec fn spec_peripheral_bus_address(phys: u32) -> u32 {
    (PERIPHERAL_BUS_ADDRESS + (phys - PERIPHERAL_BASE_ADDRESS)) as u32
}

/// Map a physical address inside the peripheral block to the bus-address
/// alias of the same register, for use in DMA descriptors.
pub fn peripheral_bus_address(phys: u32) -> (bus: u32)
    requires
        PERIPHERAL_BASE_ADDRESS <= phys < PERIPHERAL_BASE_ADDRESS + 0x0100_0000,
    ensures
        bus == spec_peripheral_bus_address(phys),
{
    PERIPHERAL_BUS_ADDRESS + (phys - PERIPHERAL_BASE_ADDRESS)
}

} // verus!
