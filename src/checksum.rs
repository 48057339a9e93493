//! SMBus packet error code: CRC-8 with polynomial 0x07, initial value 0,
//! no reflection, computed most significant bit first.
use vstd::prelude::*;

verus! {

/// One shift of the CRC register: shift left, folding in the polynomial when
/// the bit shifted out was set.
pub open spec fn crc8_shift(c: u8) -> u8 {
    if c & 0x80 != 0 {
        (c << 1u8) ^ 0x07
    } else {
        c << 1u8
    }
}

/// `n` shifts of the CRC register.
pub open spec fn crc8_shifts(c: u8, n: nat) -> u8
    decreases n,
{
    if n == 0 {
        c
    } else {
        crc8_shift(crc8_shifts(c, (n - 1) as nat))
    }
}

/// The register after taking in one more byte.
pub open spec fn crc8_update(c: u8, b: u8) -> u8 {
    crc8_shifts(c ^ b, 8)
}

/// The checksum of a byte sequence, taken in order from the first byte.
pub open spec fn crc8(s: Seq<u8>) -> u8
    decreases s.len(),
{
    if s.len() == 0 {
        0
    } else {
        crc8_update(crc8(s.drop_last()), s.last())
    }
}

/// Computes the packet error code of `bytes`.
pub fn pec(bytes: &[u8]) -> (r: u8)
    ensures
        r == crc8(bytes@),
{
    let mut crc: u8 = 0;
    let mut i: usize = 0;
    while i < bytes.len()
        invariant
            i <= bytes@.len(),
            crc == crc8(bytes@.subrange(0, i as int)),
        decreases bytes@.len() - i,
    {
        let start = crc ^ bytes[i];
        let mut c: u8 = start;
        let mut k: u8 = 0;
        while k < 8
            invariant
                k <= 8,
                c == crc8_shifts(start, k as nat),
            decreases 8 - k,
        {
            if c & 0x80 != 0 {
                c = (c << 1u8) ^ 0x07;
            } else {
                c = c << 1u8;
            }
            k = k + 1;
        }
        proof {
            let s = bytes@.subrange(0, i as int + 1);
            assert(s.drop_last() =~= bytes@.subrange(0, i as int));
            assert(s.last() == bytes@[i as int]);
        }
        crc = c;
        i = i + 1;
    }
    proof {
        assert(bytes@.subrange(0, bytes@.len() as int) =~= bytes@);
    }
    crc
}

} // verus!
