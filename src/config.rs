//! Configuration register 1: nine fields packed into sixteen bits.
use vstd::prelude::*;

verus! {

/// IIR filter settings (bits 0-2)
#[derive(Debug, Clone, Copy, PartialEq, Eq, Structural)]
pub enum Iir {
    /// 50% - a1=0.5, b=0.5
    Step50,
    /// 25% - a1=0.25, b=0.75
    Step25,
    /// 17% - a1=0.166(6), b=0.833(3)
    Step17,
    /// 13% - a1=0.125, b=0.875
    Step13,
    /// 100% - a1=1, b=0
    Step100,
    /// 80% - a1=0.8, b=0.2
    Step80,
    /// 67% - a1=0.666(6), b=0.333(3)
    Step67,
    /// 57% - a1=0.571, b=0.428
    Step57,
}

/// PWM mode configuration (bits 4-5)
#[derive(Debug, Clone, Copy, PartialEq, Eq, Structural)]
pub enum PwmMode {
    /// PWM mode - Ta, Tobj1
    TaTobj1,
    /// PWM mode - Ta, Tobj2
    TaTobj2,
    /// PWM mode - Tobj2 only
    Tobj2,
    /// PWM mode - Tobj1, Tobj2
    Tobj1Tobj2,
}

/// FIR filter settings (bits 8-10)
#[derive(Debug, Clone, Copy, PartialEq, Eq, Structural)]
pub enum Fir {
    /// 8
    Step8,
    /// 16
    Step16,
    /// 32
    Step32,
    /// 64
    Step64,
    /// 128
    Step128,
    /// 256
    Step256,
    /// 512
    Step512,
    /// 1024
    Step1024,
}

/// Amplifier gain settings (bits 11-13)
#[derive(Debug, Clone, Copy, PartialEq, Eq, Structural)]
pub enum Gain {
    /// Gain = 1
    Gain1,
    /// Gain = 3
    Gain3,
    /// Gain = 6
    Gain6,
    /// Gain = 12.5
    Gain12_5,
    /// Gain = 25
    Gain25,
    /// Gain = 50
    Gain50,
    /// Gain = 100
    Gain100,
    /// Gain = 100 (second code for the same gain)
    Gain100Alt,
}

impl Iir {
    /// The three-bit code of the setting.
    pub open spec fn code_spec(self) -> u16 {
        match self {
            Iir::Step50 => 0,
            Iir::Step25 => 1,
            Iir::Step17 => 2,
            Iir::Step13 => 3,
            Iir::Step100 => 4,
            Iir::Step80 => 5,
            Iir::Step67 => 6,
            Iir::Step57 => 7,
        }
    }

    /// The setting of a three-bit code.
    pub open spec fn from_code_spec(c: u16) -> Iir {
        if c == 0 {
            Iir::Step50
        } else if c == 1 {
            Iir::Step25
        } else if c == 2 {
            Iir::Step17
        } else if c == 3 {
            Iir::Step13
        } else if c == 4 {
            Iir::Step100
        } else if c == 5 {
            Iir::Step80
        } else if c == 6 {
            Iir::Step67
        } else {
            Iir::Step57
        }
    }

    pub fn code(self) -> (r: u16)
        ensures
            r == self.code_spec(),
            r < 8,
    {
        match self {
            Iir::Step50 => 0,
            Iir::Step25 => 1,
            Iir::Step17 => 2,
            Iir::Step13 => 3,
            Iir::Step100 => 4,
            Iir::Step80 => 5,
            Iir::Step67 => 6,
            Iir::Step57 => 7,
        }
    }

    pub fn from_code(c: u16) -> (r: Iir)
        requires
            c < 8,
        ensures
            r == Iir::from_code_spec(c),
    {
        match c {
            0 => Iir::Step50,
            1 => Iir::Step25,
            2 => Iir::Step17,
            3 => Iir::Step13,
            4 => Iir::Step100,
            5 => Iir::Step80,
            6 => Iir::Step67,
            _ => Iir::Step57,
        }
    }
}

impl PwmMode {
    /// The two-bit code of the mode.
    pub open spec fn code_spec(self) -> u16 {
        match self {
            PwmMode::TaTobj1 => 0,
            PwmMode::TaTobj2 => 1,
            PwmMode::Tobj2 => 2,
            PwmMode::Tobj1Tobj2 => 3,
        }
    }

    /// The mode of a two-bit code.
    pub open spec fn from_code_spec(c: u16) -> PwmMode {
        if c == 0 {
            PwmMode::TaTobj1
        } else if c == 1 {
            PwmMode::TaTobj2
        } else if c == 2 {
            PwmMode::Tobj2
        } else {
            PwmMode::Tobj1Tobj2
        }
    }

    pub fn code(self) -> (r: u16)
        ensures
            r == self.code_spec(),
            r < 4,
    {
        match self {
            PwmMode::TaTobj1 => 0,
            PwmMode::TaTobj2 => 1,
            PwmMode::Tobj2 => 2,
            PwmMode::Tobj1Tobj2 => 3,
        }
    }

    pub fn from_code(c: u16) -> (r: PwmMode)
        requires
            c < 4,
        ensures
            r == PwmMode::from_code_spec(c),
    {
        match c {
            0 => PwmMode::TaTobj1,
            1 => PwmMode::TaTobj2,
            2 => PwmMode::Tobj2,
            _ => PwmMode::Tobj1Tobj2,
        }
    }
}

impl Fir {
    /// The three-bit code of the setting.
    pub open spec fn code_spec(self) -> u16 {
        match self {
            Fir::Step8 => 0,
            Fir::Step16 => 1,
            Fir::Step32 => 2,
            Fir::Step64 => 3,
            Fir::Step128 => 4,
            Fir::Step256 => 5,
            Fir::Step512 => 6,
            Fir::Step1024 => 7,
        }
    }

    /// The setting of a three-bit code.
    pub open spec fn from_code_spec(c: u16) -> Fir {
        if c == 0 {
            Fir::Step8
        } else if c == 1 {
            Fir::Step16
        } else if c == 2 {
            Fir::Step32
        } else if c == 3 {
            Fir::Step64
        } else if c == 4 {
            Fir::Step128
        } else if c == 5 {
            Fir::Step256
        } else if c == 6 {
            Fir::Step512
        } else {
            Fir::Step1024
        }
    }

    pub fn code(self) -> (r: u16)
        ensures
            r == self.code_spec(),
            r < 8,
    {
        match self {
            Fir::Step8 => 0,
            Fir::Step16 => 1,
            Fir::Step32 => 2,
            Fir::Step64 => 3,
            Fir::Step128 => 4,
            Fir::Step256 => 5,
            Fir::Step512 => 6,
            Fir::Step1024 => 7,
        }
    }

    pub fn from_code(c: u16) -> (r: Fir)
        requires
            c < 8,
        ensures
            r == Fir::from_code_spec(c),
    {
        match c {
            0 => Fir::Step8,
            1 => Fir::Step16,
            2 => Fir::Step32,
            3 => Fir::Step64,
            4 => Fir::Step128,
            5 => Fir::Step256,
            6 => Fir::Step512,
            _ => Fir::Step1024,
        }
    }
}

impl Gain {
    /// The three-bit code of the gain.
    pub open spec fn code_spec(self) -> u16 {
        match self {
            Gain::Gain1 => 0,
            Gain::Gain3 => 1,
            Gain::Gain6 => 2,
            Gain::Gain12_5 => 3,
            Gain::Gain25 => 4,
            Gain::Gain50 => 5,
            Gain::Gain100 => 6,
            Gain::Gain100Alt => 7,
        }
    }

    /// The gain of a three-bit code.
    pub open spec fn from_code_spec(c: u16) -> Gain {
        if c == 0 {
            Gain::Gain1
        } else if c == 1 {
            Gain::Gain3
        } else if c == 2 {
            Gain::Gain6
        } else if c == 3 {
            Gain::Gain12_5
        } else if c == 4 {
            Gain::Gain25
        } else if c == 5 {
            Gain::Gain50
        } else if c == 6 {
            Gain::Gain100
        } else {
            Gain::Gain100Alt
        }
    }

    pub fn code(self) -> (r: u16)
        ensures
            r == self.code_spec(),
            r < 8,
    {
        match self {
            Gain::Gain1 => 0,
            Gain::Gain3 => 1,
            Gain::Gain6 => 2,
            Gain::Gain12_5 => 3,
            Gain::Gain25 => 4,
            Gain::Gain50 => 5,
            Gain::Gain100 => 6,
            Gain::Gain100Alt => 7,
        }
    }

    pub fn from_code(c: u16) -> (r: Gain)
        requires
            c < 8,
        ensures
            r == Gain::from_code_spec(c),
    {
        match c {
            0 => Gain::Gain1,
            1 => Gain::Gain3,
            2 => Gain::Gain6,
            3 => Gain::Gain12_5,
            4 => Gain::Gain25,
            5 => Gain::Gain50,
            6 => Gain::Gain100,
            _ => Gain::Gain100Alt,
        }
    }
}

/// Configuration register 1
#[derive(Debug, Clone, Copy, PartialEq, Eq, Structural)]
pub struct Config {
    /// IIR filter settings
    pub iir: Iir,
    /// Repeat sensor selftest
    pub repeat_sensor_selftest: bool,
    /// PWM mode configuration
    pub pwm_mode: PwmMode,
    /// Single (false) or dual (true) IR sensor
    pub dual_ir_sensor: bool,
    /// Ks sign (false = positive, true = negative)
    pub ks_sign_negative: bool,
    /// FIR filter settings
    pub fir: Fir,
    /// Amplifier gain settings
    pub gain: Gain,
    /// Kt2 sign (false = positive, true = negative)
    pub kt2_sign_negative: bool,
    /// Sensor selftest (false = enabled, true = disabled)
    pub sensor_selftest_disabled: bool,
}

/// One bit for a flag.
pub open spec fn flag_bit(b: bool) -> u16 {
    if b {
        1
    } else {
        0
    }
}

/// Whether bit `n` of `bits` is set.
pub open spec fn bit_set(bits: u16, n: u16) -> bool {
    (bits >> n) & 1 == 1
}

/// The register word of a configuration: each field's code at its offset.
pub open spec fn pack(c: Config) -> u16 {
    c.iir.code_spec() | (flag_bit(c.repeat_sensor_selftest) << 3u16) | (c.pwm_mode.code_spec()
        << 4u16) | (flag_bit(c.dual_ir_sensor) << 6u16) | (flag_bit(c.ks_sign_negative) << 7u16)
        | (c.fir.code_spec() << 8u16) | (c.gain.code_spec() << 11u16) | (flag_bit(
        c.kt2_sign_negative,
    ) << 14u16) | (flag_bit(c.sensor_selftest_disabled) << 15u16)
}

/// The configuration that a register word holds.
pub open spec fn unpack(bits: u16) -> Config {
    Config {
        iir: Iir::from_code_spec(bits & 7),
        repeat_sensor_selftest: bit_set(bits, 3),
        pwm_mode: PwmMode::from_code_spec((bits >> 4u16) & 3),
        dual_ir_sensor: bit_set(bits, 6),
        ks_sign_negative: bit_set(bits, 7),
        fir: Fir::from_code_spec((bits >> 8u16) & 7),
        gain: Gain::from_code_spec((bits >> 11u16) & 7),
        kt2_sign_negative: bit_set(bits, 14),
        sensor_selftest_disabled: bit_set(bits, 15),
    }
}

impl Config {
    /// Convert from raw bits
    pub fn from_bits(bits: u16) -> (r: Self)
        ensures
            r == unpack(bits),
    {
        proof {
            assert(bits & 7 < 8) by (bit_vector);
            assert((bits >> 4u16) & 3 < 4) by (bit_vector);
            assert((bits >> 8u16) & 7 < 8) by (bit_vector);
            assert((bits >> 11u16) & 7 < 8) by (bit_vector);
        }
        Config {
            iir: Iir::from_code(bits & 7),
            repeat_sensor_selftest: (bits >> 3u16) & 1 == 1,
            pwm_mode: PwmMode::from_code((bits >> 4u16) & 3),
            dual_ir_sensor: (bits >> 6u16) & 1 == 1,
            ks_sign_negative: (bits >> 7u16) & 1 == 1,
            fir: Fir::from_code((bits >> 8u16) & 7),
            gain: Gain::from_code((bits >> 11u16) & 7),
            kt2_sign_negative: (bits >> 14u16) & 1 == 1,
            sensor_selftest_disabled: (bits >> 15u16) & 1 == 1,
        }
    }

    /// Convert to raw bits
    pub fn as_bits(&self) -> (r: u16)
        ensures
            r == pack(*self),
    {
        let repeat: u16 = if self.repeat_sensor_selftest { 1 } else { 0 };
        let dual: u16 = if self.dual_ir_sensor { 1 } else { 0 };
        let ks: u16 = if self.ks_sign_negative { 1 } else { 0 };
        let kt2: u16 = if self.kt2_sign_negative { 1 } else { 0 };
        let selftest_off: u16 = if self.sensor_selftest_disabled { 1 } else { 0 };
        self.iir.code() | (repeat << 3u16) | (self.pwm_mode.code() << 4u16) | (dual << 6u16) | (ks
            << 7u16) | (self.fir.code() << 8u16) | (self.gain.code() << 11u16) | (kt2 << 14u16) | (
        selftest_off << 15u16)
    }
}

/// Every field of a packed configuration reads back its own code: no field
/// spills into the bits of another.
pub proof fn lemma_pack_fields(c: Config)
    ensures
        pack(c) & 7 == c.iir.code_spec(),
        bit_set(pack(c), 3) == c.repeat_sensor_selftest,
        (pack(c) >> 4u16) & 3 == c.pwm_mode.code_spec(),
        bit_set(pack(c), 6) == c.dual_ir_sensor,
        bit_set(pack(c), 7) == c.ks_sign_negative,
        (pack(c) >> 8u16) & 7 == c.fir.code_spec(),
        (pack(c) >> 11u16) & 7 == c.gain.code_spec(),
        bit_set(pack(c), 14) == c.kt2_sign_negative,
        bit_set(pack(c), 15) == c.sensor_selftest_disabled,
{
    let a = c.iir.code_spec();
    let b = flag_bit(c.repeat_sensor_selftest);
    let p = c.pwm_mode.code_spec();
    let d = flag_bit(c.dual_ir_sensor);
    let k = flag_bit(c.ks_sign_negative);
    let f = c.fir.code_spec();
    let g = c.gain.code_spec();
    let t = flag_bit(c.kt2_sign_negative);
    let s = flag_bit(c.sensor_selftest_disabled);
    let w = pack(c);
    assert(w == a | (b << 3u16) | (p << 4u16) | (d << 6u16) | (k << 7u16) | (f << 8u16) | (g
        << 11u16) | (t << 14u16) | (s << 15u16));
    assert(w & 7 == a && (w >> 3u16) & 1 == b && (w >> 4u16) & 3 == p && (w >> 6u16) & 1 == d
        && (w >> 7u16) & 1 == k && (w >> 8u16) & 7 == f && (w >> 11u16) & 7 == g && (w >> 14u16)
        & 1 == t && (w >> 15u16) & 1 == s) by (bit_vector)
        requires
            a < 8 && b < 2 && p < 4 && d < 2 && k < 2 && f < 8 && g < 8 && t < 2 && s < 2,
            w == a | (b << 3u16) | (p << 4u16) | (d << 6u16) | (k << 7u16) | (f << 8u16) | (g
                << 11u16) | (t << 14u16) | (s << 15u16),
    ;
}

/// Unpacking a packed configuration gives the configuration back.
pub proof fn lemma_unpack_pack(c: Config)
    ensures
        unpack(pack(c)) == c,
{
    lemma_pack_fields(c);
}

/// Every sixteen-bit word is the packing of the configuration it unpacks to:
/// no bit pattern is reserved or lost.
pub proof fn lemma_pack_unpack(bits: u16)
    ensures
        pack(unpack(bits)) == bits,
{
    let c = unpack(bits);
    let a = bits & 7;
    let p = (bits >> 4u16) & 3;
    let f = (bits >> 8u16) & 7;
    let g = (bits >> 11u16) & 7;
    assert(a < 8 && p < 4 && f < 8 && g < 8) by (bit_vector)
        requires
            a == bits & 7,
            p == (bits >> 4u16) & 3,
            f == (bits >> 8u16) & 7,
            g == (bits >> 11u16) & 7,
    ;
    assert(c.iir.code_spec() == a);
    assert(c.pwm_mode.code_spec() == p);
    assert(c.fir.code_spec() == f);
    assert(c.gain.code_spec() == g);
    let b = flag_bit(bit_set(bits, 3));
    let d = flag_bit(bit_set(bits, 6));
    let k = flag_bit(bit_set(bits, 7));
    let t = flag_bit(bit_set(bits, 14));
    let s = flag_bit(bit_set(bits, 15));
    assert(b == (bits >> 3u16) & 1 && d == (bits >> 6u16) & 1 && k == (bits >> 7u16) & 1 && t == (
    bits >> 14u16) & 1 && s == (bits >> 15u16) & 1) by {
        assert(((bits >> 3u16) & 1) < 2 && ((bits >> 6u16) & 1) < 2 && ((bits >> 7u16) & 1) < 2
            && ((bits >> 14u16) & 1) < 2 && ((bits >> 15u16) & 1) < 2) by (bit_vector);
    }
    assert(a | (b << 3u16) | (p << 4u16) | (d << 6u16) | (k << 7u16) | (f << 8u16) | (g << 11u16)
        | (t << 14u16) | (s << 15u16) == bits) by (bit_vector)
        requires
            a == bits & 7,
            p == (bits >> 4u16) & 3,
            f == (bits >> 8u16) & 7,
            g == (bits >> 11u16) & 7,
            b == (bits >> 3u16) & 1,
            d == (bits >> 6u16) & 1,
            k == (bits >> 7u16) & 1,
            t == (bits >> 14u16) & 1,
            s == (bits >> 15u16) & 1,
    ;
}

/// Two configurations pack to the same word only when they are equal.
pub proof fn lemma_pack_injective(c1: Config, c2: Config)
    ensures
        pack(c1) == pack(c2) <==> c1 == c2,
{
    lemma_unpack_pack(c1);
    lemma_unpack_pack(c2);
}

} // verus!
