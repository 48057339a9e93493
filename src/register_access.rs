//! Transaction framing: the bytes of register reads, register writes and
//! commands, with the packet error code that closes each of them.
use vstd::prelude::*;
use crate::checksum::{crc8, pec};
use crate::types::Error;

verus! {

/// The address byte of a bus write to a 7-bit `address`.
pub open spec fn write_address_byte(address: u8) -> u8 {
    address << 1u8
}

/// The address byte of a bus read from a 7-bit `address`.
pub open spec fn read_address_byte(address: u8) -> u8 {
    (address << 1u8) | 1
}

/// The 16-bit value of a little-endian byte pair.
pub open spec fn le_word(lo: u8, hi: u8) -> u16 {
    (lo as int + 256 * hi as int) as u16
}

/// The bytes that the packet error code of a register read covers.
pub open spec fn read_pec_input(address: u8, register: u8, lo: u8, hi: u8) -> Seq<u8> {
    seq![write_address_byte(address), register, read_address_byte(address), lo, hi]
}

/// Whether the three bytes read back from `register` carry a matching
/// packet error code.
pub open spec fn reply_is_valid(address: u8, register: u8, reply: Seq<u8>) -> bool {
    reply.len() == 3 && crc8(read_pec_input(address, register, reply[0], reply[1])) == reply[2]
}

/// The word that a reply carries.
pub open spec fn reply_word(reply: Seq<u8>) -> u16 {
    le_word(reply[0], reply[1])
}

/// The bytes of a register write, after the address byte.
pub open spec fn write_frame_spec(address: u8, register: u8, value: u16) -> Seq<u8> {
    let lo = value as u8;
    let hi = (value >> 8u16) as u8;
    seq![register, lo, hi, crc8(seq![write_address_byte(address), register, lo, hi])]
}

/// The bytes of a command, after the address byte.
pub open spec fn command_frame_spec(address: u8, command: u8) -> Seq<u8> {
    seq![command, crc8(seq![write_address_byte(address), command])]
}

/// What a read of `register` gives for a reply: its word where the packet
/// error code matches, a checksum error otherwise.
pub open spec fn read_u16_spec<E>(address: u8, register: u8, reply: Seq<u8>) -> Result<u16, Error<E>> {
    if reply_is_valid(address, register, reply) {
        Ok(reply_word(reply))
    } else {
        Err(Error::ChecksumMismatch)
    }
}

/// What a signed read of `register` gives for a reply.
pub open spec fn read_i16_spec<E>(address: u8, register: u8, reply: Seq<u8>) -> Result<i16, Error<E>> {
    if reply_is_valid(address, register, reply) {
        Ok(reply_word(reply) as i16)
    } else {
        Err(Error::ChecksumMismatch)
    }
}

/// Checks the reply to a read of `register` and assembles its word.
pub fn read_u16<E>(address: u8, register: u8, reply: [u8; 3]) -> (r: Result<u16, Error<E>>)
    ensures
        r == read_u16_spec::<E>(address, register, reply@),
{
    let lo = reply[0];
    let hi = reply[1];
    let covered = vec![address << 1u8, register, (address << 1u8) | 1, lo, hi];
    proof {
        assert(covered@ =~= read_pec_input(address, register, reply@[0], reply@[1]));
    }
    if pec(covered.as_slice()) != reply[2] {
        Err(Error::ChecksumMismatch)
    } else {
        let word = (lo as u16) | ((hi as u16) << 8u16);
        assert(word == le_word(lo, hi)) by (bit_vector)
            requires
                word == (lo as u16) | ((hi as u16) << 8u16),
        ;
        Ok(word)
    }
}

/// Checks the reply to a read of `register` and reads its word as two's complement.
pub fn read_i16<E>(address: u8, register: u8, reply: [u8; 3]) -> (r: Result<i16, Error<E>>)
    ensures
        r == read_i16_spec::<E>(address, register, reply@),
{
    match read_u16(address, register, reply) {
        Ok(word) => Ok(word as i16),
        Err(e) => Err(e),
    }
}

/// The bytes that write `value` to `register`: selector, low byte, high byte, code.
pub fn write_frame(address: u8, register: u8, value: u16) -> (r: Vec<u8>)
    ensures
        r@ == write_frame_spec(address, register, value),
{
    let lo = value as u8;
    let hi = (value >> 8u16) as u8;
    let covered = vec![address << 1u8, register, lo, hi];
    let code = pec(covered.as_slice());
    proof {
        assert(covered@ =~= seq![write_address_byte(address), register, lo, hi]);
    }
    let r = vec![register, lo, hi, code];
    proof {
        assert(r@ =~= write_frame_spec(address, register, value));
    }
    r
}

/// The bytes of a bare command: the command byte and its code.
pub fn command_frame(address: u8, command: u8) -> (r: Vec<u8>)
    ensures
        r@ == command_frame_spec(address, command),
{
    let covered = vec![address << 1u8, command];
    let code = pec(covered.as_slice());
    proof {
        assert(covered@ =~= seq![write_address_byte(address), command]);
    }
    let r = vec![command, code];
    proof {
        assert(r@ =~= command_frame_spec(address, command));
    }
    r
}

} // verus!
