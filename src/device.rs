//! The device: a bus address, the EEPROM settle time and the IC's register map.
//!
//! The bus itself stays with the caller. Each read method takes the three bytes
//! that the device answered to a read of its register and checks and decodes
//! them; each EEPROM write hands out an [`NvWrite`] sequence to run.
use vstd::prelude::*;
use crate::config::{unpack, pack, Config};
use crate::eeprom::{lemma_verified_sequence, run, verified_events, verify_outcome, NvStep, NvWrite};
use crate::ic::{mlx90614_map, mlx90615_map, IcVariant, Mlx90614, Mlx90615};
use crate::register_access::{
    command_frame, command_frame_spec, write_frame_spec, read_i16, read_i16_spec, read_u16, read_u16_spec,
    reply_is_valid, reply_word,
};
use crate::types::{is_valid_address, resolve_address, Error, SlaveAddr, Temperature};

verus! {

/// Smallest accepted emissivity word: 0.1 of full scale, rounded.
pub const EMISSIVITY_MIN: u16 = 6553;

/// What decoding a temperature register word gives: the reading, or the fault
/// with the fault bit cleared.
pub open spec fn temperature_result<E>(r: Result<Temperature, Error<E>>, raw: u16) -> bool {
    match r {
        Ok(t) => raw < 0x8000 && t@ == raw,
        Err(Error::BadRead(t)) => raw >= 0x8000 && t@ == (raw & 0x7fff),
        Err(_) => false,
    }
}

/// What reading a temperature register gives for a reply.
pub open spec fn temperature_reply<E>(
    r: Result<Temperature, Error<E>>,
    address: u8,
    register: u8,
    reply: Seq<u8>,
) -> bool {
    if reply_is_valid(address, register, reply) {
        temperature_result(r, reply_word(reply))
    } else {
        r == Err::<Temperature, Error<E>>(Error::ChecksumMismatch)
    }
}

/// Whether every ID reply carries a matching code for its register.
pub open spec fn id_replies_valid(address: u8, id0: u8, replies: Seq<[u8; 3]>) -> bool {
    forall|i: int|
        0 <= i < replies.len() ==> reply_is_valid(address, (id0 + i) as u8, #[trigger] replies[i]@)
}

/// The identifier made of the ID words, the first word read the most significant.
pub open spec fn id_of(replies: Seq<[u8; 3]>) -> int
    decreases replies.len(),
{
    if replies.len() == 0 {
        0
    } else {
        id_of(replies.drop_last()) * 65536 + reply_word(replies.last()@)
    }
}

/// A valid new address is committed by erasing the address register, waiting
/// the settle time, writing the address into the register's low byte (high
/// byte zero), waiting again and reading the register back; the outcome is
/// success exactly when the read-back carries a valid code and the new address.
pub proof fn lemma_set_address_sequence<E>(d: Mlx9061x, a: u8, w: NvWrite, reply: [u8; 3])
    requires
        is_valid_address(a),
        w.is_fresh(d.address_spec(), d.ic_spec().address, a as u16, d.delay_spec(), true),
    ensures
        run::<E>(w, verified_events(reply)) == seq![
            NvStep::<E>::Write(write_frame_spec(d.address_spec(), d.ic_spec().address, 0)),
            NvStep::<E>::DelayMs(d.delay_spec() as u32),
            NvStep::<E>::Write(write_frame_spec(d.address_spec(), d.ic_spec().address, a as u16)),
            NvStep::<E>::DelayMs(d.delay_spec() as u32),
            NvStep::<E>::Read(d.ic_spec().address),
            NvStep::<E>::Finished(verify_outcome::<E>(w, reply@)),
        ],
        verify_outcome::<E>(w, reply@) == Ok::<(), Error<E>>(()) <==> (reply_is_valid(
            d.address_spec(),
            d.ic_spec().address,
            reply@,
        ) && reply_word(reply@) == a as u16),
{
    lemma_verified_sequence::<E>(w, reply);
}

/// Of four ID words, word `i` lands at bit offset `16 * (3 - i)`.
pub proof fn lemma_id_word_offsets(replies: Seq<[u8; 3]>)
    requires
        replies.len() == 4,
    ensures
        id_of(replies) == reply_word(replies[0]@) * 0x1_0000_0000_0000 + reply_word(replies[1]@)
            * 0x1_0000_0000 + reply_word(replies[2]@) * 0x1_0000 + reply_word(replies[3]@),
{
    reveal_with_fuel(id_of, 5);
    let s3 = replies.drop_last();
    let s2 = s3.drop_last();
    let s1 = s2.drop_last();
    let s0 = s1.drop_last();
    assert(s0.len() == 0);
    assert(s1.last() == replies[0]);
    assert(s2.last() == replies[1]);
    assert(s3.last() == replies[2]);
}

/// 65536 to the power `n`.
pub open spec fn word_power(n: nat) -> int
    decreases n,
{
    if n == 0 {
        1
    } else {
        65536 * word_power((n - 1) as nat)
    }
}

/// MLX90614/MLX90615 device driver state
pub struct Mlx9061x {
    address: u8,
    eeprom_write_delay_ms: u8,
    ic: IcVariant,
}

impl Mlx9061x {
    #[verifier::type_invariant]
    spec fn inv(self) -> bool {
        is_valid_address(self.address) && self.ic.wf()
    }

    /// The slave address the device answers to.
    pub closed spec fn address_spec(self) -> u8 {
        self.address
    }

    /// The EEPROM settle time in milliseconds.
    pub closed spec fn delay_spec(self) -> u8 {
        self.eeprom_write_delay_ms
    }

    /// The IC's register map.
    pub closed spec fn ic_spec(self) -> IcVariant {
        self.ic
    }

    fn get_address<E>(address: SlaveAddr, default: u8) -> (r: Result<u8, Error<E>>)
        ensures
            r == match resolve_address(address, default) {
                Some(a) => Ok::<u8, Error<E>>(a),
                None => Err(Error::InvalidInputData),
            },
    {
        match address {
            SlaveAddr::Default => Ok(default),
            SlaveAddr::Alternative(a) => if a == 0 || a > 0x7f {
                Err(Error::InvalidInputData)
            } else {
                Ok(a)
            },
        }
    }

    fn with_variant<E>(ic: IcVariant, address: SlaveAddr, eeprom_write_delay_ms: u8) -> (r: Result<
        Self,
        Error<E>,
    >)
        requires
            ic.wf(),
        ensures
            match r {
                Ok(d) => resolve_address(address, ic.default_address) == Some(d.address_spec())
                    && d.ic_spec() == ic && d.delay_spec() == eeprom_write_delay_ms,
                Err(e) => resolve_address(address, ic.default_address) is None && e
                    == Error::<E>::InvalidInputData,
            },
    {
        match Self::get_address(address, ic.default_address) {
            Ok(a) => Ok(Mlx9061x { address: a, eeprom_write_delay_ms, ic }),
            Err(e) => Err(e),
        }
    }

    /// Create new instance of the MLX90614 device.
    ///
    /// The slave address must match the address stored in the device EEPROM.
    /// An invalid alternative slave address gives `Error::InvalidInputData`.
    /// `eeprom_write_delay_ms` is the settle time after each EEPROM write.
    pub fn new_mlx90614<E>(address: SlaveAddr, eeprom_write_delay_ms: u8) -> (r: Result<
        Self,
        Error<E>,
    >)
        ensures
            match r {
                Ok(d) => resolve_address(address, mlx90614_map().default_address) == Some(
                    d.address_spec(),
                ) && d.ic_spec() == mlx90614_map() && d.delay_spec() == eeprom_write_delay_ms,
                Err(e) => resolve_address(address, mlx90614_map().default_address) is None && e
                    == Error::<E>::InvalidInputData,
            },
    {
        Self::with_variant(Mlx90614::variant(), address, eeprom_write_delay_ms)
    }

    /// Create new instance of the MLX90615 device.
    ///
    /// The slave address must match the address stored in the device EEPROM.
    /// An invalid alternative slave address gives `Error::InvalidInputData`.
    /// `eeprom_write_delay_ms` is the settle time after each EEPROM write.
    pub fn new_mlx90615<E>(address: SlaveAddr, eeprom_write_delay_ms: u8) -> (r: Result<
        Self,
        Error<E>,
    >)
        ensures
            match r {
                Ok(d) => resolve_address(address, mlx90615_map().default_address) == Some(
                    d.address_spec(),
                ) && d.ic_spec() == mlx90615_map() && d.delay_spec() == eeprom_write_delay_ms,
                Err(e) => resolve_address(address, mlx90615_map().default_address) is None && e
                    == Error::<E>::InvalidInputData,
            },
    {
        Self::with_variant(Mlx90615::variant(), address, eeprom_write_delay_ms)
    }

    /// Decodes a temperature register word: bit 15 flags a faulty reading.
    pub fn convert_to_temp<E>(raw: u16) -> (r: Result<Temperature, Error<E>>)
        ensures
            temperature_result(r, raw),
    {
        if raw & 0x8000 != 0 {
            let masked = raw & 0x7fff;
            assert(raw >= 0x8000 && masked <= 0x7fff) by (bit_vector)
                requires
                    raw & 0x8000 != 0,
                    masked == raw & 0x7fff,
            ;
            Err(Error::BadRead(Temperature::from_raw(masked)))
        } else {
            assert(raw < 0x8000) by (bit_vector)
                requires
                    raw & 0x8000 == 0,
            ;
            Ok(Temperature::from_raw(raw))
        }
    }

    fn read_temperature<E>(&self, register: u8, reply: [u8; 3]) -> (r: Result<
        Temperature,
        Error<E>,
    >)
        ensures
            temperature_reply(r, self.address_spec(), register, reply@),
    {
        match read_u16(self.address, register, reply) {
            Ok(raw) => Self::convert_to_temp(raw),
            Err(e) => Err(e),
        }
    }

    /// The ambient temperature, from the device's reply to a read of its register
    pub fn ambient_temperature<E>(&self, reply: [u8; 3]) -> (r: Result<Temperature, Error<E>>)
        ensures
            temperature_reply(r, self.address_spec(), self.ic_spec().ambient, reply@),
    {
        self.read_temperature(self.ic.ambient, reply)
    }

    /// The object 1 temperature, from the device's reply to a read of its register
    pub fn object1_temperature<E>(&self, reply: [u8; 3]) -> (r: Result<Temperature, Error<E>>)
        ensures
            temperature_reply(r, self.address_spec(), self.ic_spec().object1, reply@),
    {
        self.read_temperature(self.ic.object1, reply)
    }

    /// The object 2 temperature, from the device's reply to a read of its register.
    ///
    /// Only dual-zone ICs have this channel; on the others the result is
    /// `Error::InvalidInputData`.
    pub fn object2_temperature<E>(&self, reply: [u8; 3]) -> (r: Result<Temperature, Error<E>>)
        ensures
            match self.ic_spec().object2 {
                Some(reg) => temperature_reply(r, self.address_spec(), reg, reply@),
                None => r == Err::<Temperature, Error<E>>(Error::InvalidInputData),
            },
    {
        match self.ic.object2 {
            Some(reg) => self.read_temperature(reg, reply),
            None => Err(Error::InvalidInputData),
        }
    }

    /// The channel 1 raw IR data, from the device's reply to a read of its register
    pub fn raw_ir_channel1<E>(&self, reply: [u8; 3]) -> (r: Result<i16, Error<E>>)
        ensures
            r == read_i16_spec::<E>(self.address_spec(), self.ic_spec().raw_ir1, reply@),
    {
        read_i16(self.address, self.ic.raw_ir1, reply)
    }

    /// The channel 2 raw IR data, from the device's reply to a read of its register.
    ///
    /// ICs without a second channel give `Error::InvalidInputData`.
    pub fn raw_ir_channel2<E>(&self, reply: [u8; 3]) -> (r: Result<i16, Error<E>>)
        ensures
            match self.ic_spec().raw_ir2 {
                Some(reg) => r == read_i16_spec::<E>(self.address_spec(), reg, reply@),
                None => r == Err::<i16, Error<E>>(Error::InvalidInputData),
            },
    {
        match self.ic.raw_ir2 {
            Some(reg) => read_i16(self.address, reg, reply),
            None => Err(Error::InvalidInputData),
        }
    }

    /// The emissivity word (full scale 65535 = 1.0), from the device's reply
    /// to a read of its register
    pub fn emissivity_raw<E>(&self, reply: [u8; 3]) -> (r: Result<u16, Error<E>>)
        ensures
            r == read_u16_spec::<E>(self.address_spec(), self.ic_spec().emissivity, reply@),
    {
        read_u16(self.address, self.ic.emissivity, reply)
    }

    /// The sequence that stores the emissivity word `eps` (full scale 65535 = 1.0).
    ///
    /// Words under 0.1 of full scale give `Error::InvalidInputData`. The value is
    /// not read back.
    pub fn set_emissivity_raw<E>(&self, eps: u16) -> (r: Result<NvWrite, Error<E>>)
        ensures
            eps < EMISSIVITY_MIN ==> r is Err && r->Err_0 == Error::<E>::InvalidInputData,
            eps >= EMISSIVITY_MIN ==> r is Ok && r->Ok_0.is_fresh(
                self.address_spec(),
                self.ic_spec().emissivity,
                eps,
                self.delay_spec(),
                false,
            ),
    {
        if eps < EMISSIVITY_MIN {
            Err(Error::InvalidInputData)
        } else {
            Ok(NvWrite::new(self.address, self.ic.emissivity, eps, self.eeprom_write_delay_ms, false))
        }
    }

    /// The configuration register 1, from the device's reply to a read of it.
    ///
    /// ICs without this register layout give `Error::InvalidInputData`.
    pub fn config_1<E>(&self, reply: [u8; 3]) -> (r: Result<Config, Error<E>>)
        ensures
            match self.ic_spec().config_1 {
                Some(reg) => r == match read_u16_spec::<E>(self.address_spec(), reg, reply@) {
                    Ok(w) => Ok::<Config, Error<E>>(unpack(w)),
                    Err(e) => Err(e),
                },
                None => r == Err::<Config, Error<E>>(Error::InvalidInputData),
            },
    {
        match self.ic.config_1 {
            Some(reg) => match read_u16(self.address, reg, reply) {
                Ok(bits) => Ok(Config::from_bits(bits)),
                Err(e) => Err(e),
            },
            None => Err(Error::InvalidInputData),
        }
    }

    /// The sequence that stores `config` in configuration register 1 and reads
    /// it back. A read-back that differs ends it with `Error::BadEepromWrite`;
    /// as packing is one to one, equal words mean equal configurations.
    ///
    /// ICs without this register layout give `Error::InvalidInputData`.
    pub fn set_config_1<E>(&self, config: Config) -> (r: Result<NvWrite, Error<E>>)
        ensures
            match self.ic_spec().config_1 {
                Some(reg) => r is Ok && r->Ok_0.is_fresh(
                    self.address_spec(),
                    reg,
                    pack(config),
                    self.delay_spec(),
                    true,
                ),
                None => r is Err && r->Err_0 == Error::<E>::InvalidInputData,
            },
    {
        match self.ic.config_1 {
            Some(reg) => Ok(
                NvWrite::new(self.address, reg, config.as_bits(), self.eeprom_write_delay_ms, true),
            ),
            None => Err(Error::InvalidInputData),
        }
    }

    /// The sequence that stores a new slave address in the EEPROM and reads it
    /// back. An invalid address gives `Error::InvalidInputData` and no sequence.
    ///
    /// This device keeps its address: reconnect with the new one afterwards.
    pub fn set_address<E>(&self, address: SlaveAddr) -> (r: Result<NvWrite, Error<E>>)
        ensures
            match resolve_address(address, self.ic_spec().default_address) {
                Some(a) => r is Ok && r->Ok_0.is_fresh(
                    self.address_spec(),
                    self.ic_spec().address,
                    a as u16,
                    self.delay_spec(),
                    true,
                ),
                None => r is Err && r->Err_0 == Error::<E>::InvalidInputData,
            },
    {
        match Self::get_address::<E>(address, self.ic.default_address) {
            Ok(a) => Ok(
                NvWrite::new(self.address, self.ic.address, a as u16, self.eeprom_write_delay_ms, true),
            ),
            Err(e) => Err(e),
        }
    }

    /// The device ID, from the replies to reads of the ID registers in
    /// ascending order; the first word read is the most significant.
    ///
    /// A reply list of the wrong length gives `Error::InvalidInputData`; a reply
    /// with a wrong code gives `Error::ChecksumMismatch` and no ID.
    pub fn device_id<E>(&self, replies: &[[u8; 3]]) -> (r: Result<u64, Error<E>>)
        ensures
            replies@.len() != self.ic_spec().id_words ==> r == Err::<u64, Error<E>>(
                Error::InvalidInputData,
            ),
            replies@.len() == self.ic_spec().id_words && id_replies_valid(
                self.address_spec(),
                self.ic_spec().id0,
                replies@,
            ) ==> r is Ok && r->Ok_0 == id_of(replies@),
            replies@.len() == self.ic_spec().id_words && !id_replies_valid(
                self.address_spec(),
                self.ic_spec().id0,
                replies@,
            ) ==> r == Err::<u64, Error<E>>(Error::ChecksumMismatch),
    {
        proof {
            use_type_invariant(self);
        }
        let n = self.ic.id_words as usize;
        if replies.len() != n {
            return Err(Error::InvalidInputData);
        }
        let mut id: u64 = 0;
        let mut i: usize = 0;
        while i < n
            invariant
                n == replies@.len(),
                n == self.ic.id_words,
                n <= 4,
                i <= n,
                self.ic.id0 as int + n <= 256,
                id == id_of(replies@.subrange(0, i as int)),
                id < word_power(i as nat),
                id_replies_valid(self.address, self.ic.id0, replies@.subrange(0, i as int)),
            decreases n - i,
        {
            let reg = self.ic.id0 + i as u8;
            let word = match read_u16::<E>(self.address, reg, replies[i]) {
                Ok(w) => w,
                Err(e) => {
                    assert(!reply_is_valid(self.address, (self.ic.id0 + i) as u8, replies@[i as int]@));
                    return Err(e);
                },
            };
            proof {
                reveal_with_fuel(word_power, 5);
                assert(word_power(i as nat) <= 0x1_0000_0000_0000);
                assert(id * 65536 + word < word_power(i as nat) * 65536) by (nonlinear_arith)
                    requires
                        id < word_power(i as nat),
                        word < 65536,
                ;
                let s = replies@.subrange(0, i as int + 1);
                assert(s.len() == i + 1);
                assert(s.drop_last() =~= replies@.subrange(0, i as int));
                assert(s.last() == replies@[i as int]);
                assert forall|j: int| 0 <= j < s.len() implies reply_is_valid(
                    self.address,
                    (self.ic.id0 + j) as u8,
                    #[trigger] s[j]@,
                ) by {
                    if j < i {
                        assert(s[j] == replies@.subrange(0, i as int)[j]);
                    }
                }
            }
            id = id * 65536 + word as u64;
            i = i + 1;
        }
        proof {
            assert(replies@.subrange(0, n as int) =~= replies@);
        }
        Ok(id)
    }

    /// The bytes of the sleep command, to be written to the device
    pub fn sleep_frame(&self) -> (r: Vec<u8>)
        ensures
            r@ == command_frame_spec(self.address_spec(), self.ic_spec().sleep_command),
    {
        command_frame(self.address, self.ic.sleep_command)
    }

    /// The slave address the device answers to
    pub fn address(&self) -> (r: u8)
        ensures
            r == self.address_spec(),
            is_valid_address(r),
    {
        proof {
            use_type_invariant(self);
        }
        self.address
    }

    /// The EEPROM settle time in milliseconds
    pub fn eeprom_write_delay_ms(&self) -> (r: u8)
        ensures
            r == self.delay_spec(),
    {
        self.eeprom_write_delay_ms
    }

    /// The IC's register map
    pub fn ic(&self) -> (r: IcVariant)
        ensures
            r == self.ic_spec(),
            r.wf(),
    {
        proof {
            use_type_invariant(self);
        }
        self.ic
    }
}

} // verus!
