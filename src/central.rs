use vstd::prelude::*;

verus! {

/// The two top bits of a static random device address.
pub const STATIC_ADDR_BITS: u64 = 0x0000_c000_0000_0000;

/// The 48-bit device address built from the two words of the chip's
/// factory device id, its two top bits set to mark a static random address.
pub open spec fn device_addr_spec(id0: u32, id1: u32) -> u64 {
    ((id1 as u64) << 32u64 | id0 as u64) | STATIC_ADDR_BITS
}

/// The device address, as its six low bytes, least significant first.
pub fn ble_addr(id0: u32, id1: u32) -> (r: [u8; 6])
    ensures
        forall|i: int| 0 <= i < 6 ==> #[trigger] r@[i] == (device_addr_spec(id0, id1) >> (8 * i) as u64) as u8,
        r@[5] & 0xc0u8 == 0xc0u8,
{
    let high = id1 as u64;
    let addr = high << 32 | id0 as u64;
    let addr = addr | STATIC_ADDR_BITS;
    let r = [
        #[verifier::truncate] (addr as u8),
        #[verifier::truncate] ((addr >> 8) as u8),
        #[verifier::truncate] ((addr >> 16) as u8),
        #[verifier::truncate] ((addr >> 24) as u8),
        #[verifier::truncate] ((addr >> 32) as u8),
        #[verifier::truncate] ((addr >> 40) as u8),
    ];
    assert(addr & 0x0000_c000_0000_0000u64 == 0x0000_c000_0000_0000u64) by (bit_vector)
        requires
            addr == (high << 32u64 | id0 as u64) | 0x0000_c000_0000_0000u64,
    ;
    assert(((addr >> 40u64) as u8) & 0xc0u8 == 0xc0u8) by (bit_vector)
        requires
            addr & 0x0000_c000_0000_0000u64 == 0x0000_c000_0000_0000u64,
    ;
    assert forall|i: int| 0 <= i < 6 implies #[trigger] r@[i] == (device_addr_spec(id0, id1) >> (8 * i) as u64) as u8 by {
        assert(addr == device_addr_spec(id0, id1));
        if i == 0 {
            assert(addr >> 0u64 == addr) by (bit_vector);
        }
    }
    r
}

} // verus!
