use vstd::prelude::*;

verus! {

/// The CPU's instruction decoding states.
#[derive(Debug, PartialEq, Eq, Structural, Clone, Copy)]
pub enum State {
    /// Currently executing 32-bit ARM instructions.
    ARM,
    /// Currently executing 16-bit THUMB instructions.
    THUMB,
}

#[derive(Debug, PartialEq, Eq, Structural, Clone, Copy)]
pub enum Mode {
    User,
    FIQ,
    IRQ,
    Supervisor,
    Abort,
    Undefined,
    System,
}

const MODE_MASK: u32 = 0x1F;

const MODE_USER: u32 = 0x10;

const MODE_FIQ: u32 = 0x11;

const MODE_IRQ: u32 = 0x12;

const MODE_SUPERVISOR: u32 = 0x13;

const MODE_ABORT: u32 = 0x17;

const MODE_UNDEFINED: u32 = 0x1B;

const MODE_SYSTEM: u32 = 0x1F;

/// Bits outside this mask are reserved: N, Z, C, V up high, then I, F, T
/// and the five mode bits down low.
const NON_RESERVED_MASK: u32 = 0xF000_00FF;

/// Supervisor mode with IRQ and FIQ disabled: the value the register
/// takes at reset.
const RAW_DEFAULT: u32 = 0x0000_00D3;

/// The N (negative) condition flag, bit 31.
pub open spec fn flag_n(w: u32) -> bool {
    w & (1u32 << 31u32) != 0
}

/// The Z (zero) condition flag, bit 30.
pub open spec fn flag_z(w: u32) -> bool {
    w & (1u32 << 30u32) != 0
}

/// The C (carry) condition flag, bit 29.
pub open spec fn flag_c(w: u32) -> bool {
    w & (1u32 << 29u32) != 0
}

/// The V (overflow) condition flag, bit 28.
pub open spec fn flag_v(w: u32) -> bool {
    w & (1u32 << 28u32) != 0
}

/// The IRQ disable bit, bit 7.
pub open spec fn irq_bit(w: u32) -> bool {
    w & (1u32 << 7u32) != 0
}

/// The FIQ disable bit, bit 6.
pub open spec fn fiq_bit(w: u32) -> bool {
    w & (1u32 << 6u32) != 0
}

/// The T (state) bit, bit 5; set means THUMB.
pub open spec fn state_bit(w: u32) -> bool {
    w & (1u32 << 5u32) != 0
}

/// The five mode bits, bits 4..0.
pub open spec fn mode_bits(w: u32) -> u32 {
    w & 0x1Fu32
}

/// The bit patterns of the seven recognised processor modes.
pub open spec fn valid_mode_bits(b: u32) -> bool {
    b == 0x10 || b == 0x11 || b == 0x12 || b == 0x13 || b == 0x17 || b == 0x1B || b == 0x1F
}

/// `w` with bit `i` forced to `b`.
pub open spec fn set_bit32(w: u32, i: u32, b: bool) -> u32 {
    if b {
        w | (1u32 << i)
    } else {
        w & !(1u32 << i)
    }
}

impl Mode {
    pub fn as_bits(self) -> (r: u32)
        ensures
            r == mode_bits_of(self),
    {
        match self {
            Mode::User => MODE_USER,
            Mode::FIQ => MODE_FIQ,
            Mode::IRQ => MODE_IRQ,
            Mode::Supervisor => MODE_SUPERVISOR,
            Mode::Abort => MODE_ABORT,
            Mode::Undefined => MODE_UNDEFINED,
            Mode::System => MODE_SYSTEM,
        }
    }
}

/// The five-bit encoding of a processor mode.
pub open spec fn mode_bits_of(m: Mode) -> u32 {
    match m {
        Mode::User => 0x10u32,
        Mode::FIQ => 0x11u32,
        Mode::IRQ => 0x12u32,
        Mode::Supervisor => 0x13u32,
        Mode::Abort => 0x17u32,
        Mode::Undefined => 0x1Bu32,
        Mode::System => 0x1Fu32,
    }
}

/// The decoding state named by the T bit.
pub open spec fn spec_state(w: u32) -> State {
    if state_bit(w) {
        State::THUMB
    } else {
        State::ARM
    }
}

/// The Program Status Register: condition flags N, Z, C, V in bits
/// 31..28, the IRQ/FIQ disable bits 7 and 6, the T state bit 5, and the
/// processor mode in bits 4..0.
#[derive(Debug, PartialEq, Eq, Structural, Clone, Copy)]
pub struct PSR(pub u32);

impl PSR {
    pub fn clear_reserved_bits(&mut self)
        ensures
            final(self).0 == old(self).0 & 0xF000_00FFu32,
    {
        self.0 = self.0 & NON_RESERVED_MASK;
    }

    pub fn state(&self) -> (r: State)
        ensures
            r == spec_state(self.0),
    {
        if self.0 & (1u32 << 5u32) != 0 {
            State::THUMB
        } else {
            State::ARM
        }
    }

    pub fn mode(&self) -> (r: Mode)
        requires
            valid_mode_bits(mode_bits(self.0)),
        ensures
            mode_bits_of(r) == mode_bits(self.0),
    {
        let b = self.0 & MODE_MASK;
        if b == MODE_USER {
            Mode::User
        } else if b == MODE_FIQ {
            Mode::FIQ
        } else if b == MODE_IRQ {
            Mode::IRQ
        } else if b == MODE_SUPERVISOR {
            Mode::Supervisor
        } else if b == MODE_ABORT {
            Mode::Abort
        } else if b == MODE_UNDEFINED {
            Mode::Undefined
        } else {
            Mode::System
        }
    }

    pub fn set_state(&mut self, s: State)
        ensures
            final(self).0 == set_bit32(old(self).0, 5, s is THUMB),
            state_bit(final(self).0) == (s is THUMB),
            mode_bits(final(self).0) == mode_bits(old(self).0),
    {
        let w = self.0;
        let new: u32 = if matches!(s, State::THUMB) {
            w | (1u32 << 5u32)
        } else {
            w & !(1u32 << 5u32)
        };
        proof {
            let b = s is THUMB;
            assert((set_bit32(w, 5, b) & (1u32 << 5u32) != 0) == b && mode_bits(
                set_bit32(w, 5, b),
            ) == mode_bits(w)) by (bit_vector);
        }
        self.0 = new;
    }

    pub fn set_mode(&mut self, m: Mode)
        ensures
            final(self).0 == (old(self).0 & !0x1Fu32) | mode_bits_of(m),
            mode_bits(final(self).0) == mode_bits_of(m),
    {
        let b = m.as_bits();
        let w = self.0;
        let new = (w & !MODE_MASK) | b;
        proof {
            assert(((w & !0x1Fu32) | b) & 0x1Fu32 == b) by (bit_vector)
                requires
                    b <= 0x1Fu32,
            ;
        }
        self.0 = new;
    }

    pub fn disable_irq(&mut self)
        ensures
            final(self).0 == old(self).0 | (1u32 << 7u32),
            irq_bit(final(self).0),
    {
        let w = self.0;
        proof {
            assert((w | (1u32 << 7u32)) & (1u32 << 7u32) != 0) by (bit_vector);
        }
        self.0 = w | (1u32 << 7u32);
    }

    pub fn disable_fiq(&mut self)
        ensures
            final(self).0 == old(self).0 | (1u32 << 6u32),
            fiq_bit(final(self).0),
    {
        let w = self.0;
        proof {
            assert((w | (1u32 << 6u32)) & (1u32 << 6u32) != 0) by (bit_vector);
        }
        self.0 = w | (1u32 << 6u32);
    }

    pub fn enable_irq(&mut self)
        ensures
            final(self).0 == old(self).0 & !(1u32 << 7u32),
            !irq_bit(final(self).0),
    {
        let w = self.0;
        proof {
            assert((w & !(1u32 << 7u32)) & (1u32 << 7u32) == 0) by (bit_vector);
        }
        self.0 = w & !(1u32 << 7u32);
    }

    pub fn enable_fiq(&mut self)
        ensures
            final(self).0 == old(self).0 & !(1u32 << 6u32),
            !fiq_bit(final(self).0),
    {
        let w = self.0;
        proof {
            assert((w & !(1u32 << 6u32)) & (1u32 << 6u32) == 0) by (bit_vector);
        }
        self.0 = w & !(1u32 << 6u32);
    }

    pub fn irq_disabled(&self) -> (r: bool)
        ensures
            r == irq_bit(self.0),
    {
        self.0 & (1u32 << 7u32) != 0
    }

    pub fn fiq_disabled(&self) -> (r: bool)
        ensures
            r == fiq_bit(self.0),
    {
        self.0 & (1u32 << 6u32) != 0
    }

    #[allow(non_snake_case)]
    pub fn get_N(self) -> (r: bool)
        ensures
            r == flag_n(self.0),
    {
        self.0 & (1u32 << 31u32) != 0
    }

    #[allow(non_snake_case)]
    pub fn get_Z(self) -> (r: bool)
        ensures
            r == flag_z(self.0),
    {
        self.0 & (1u32 << 30u32) != 0
    }

    #[allow(non_snake_case)]
    pub fn get_C(self) -> (r: bool)
        ensures
            r == flag_c(self.0),
    {
        self.0 & (1u32 << 29u32) != 0
    }

    #[allow(non_snake_case)]
    pub fn get_V(self) -> (r: bool)
        ensures
            r == flag_v(self.0),
    {
        self.0 & (1u32 << 28u32) != 0
    }

    #[allow(non_snake_case)]
    pub fn set_N(&mut self, n: bool)
        ensures
            final(self).0 == set_bit32(old(self).0, 31, n),
            flag_n(final(self).0) == n,
            flag_z(final(self).0) == flag_z(old(self).0),
            flag_c(final(self).0) == flag_c(old(self).0),
            flag_v(final(self).0) == flag_v(old(self).0),
            final(self).0 & 0xFFu32 == old(self).0 & 0xFFu32,
    {
        let w = self.0;
        let new: u32 = if n {
            w | (1u32 << 31u32)
        } else {
            w & !(1u32 << 31u32)
        };
        proof {
            lemma_flag_update(w, 31, n);
        }
        self.0 = new;
    }

    #[allow(non_snake_case)]
    pub fn set_Z(&mut self, z: bool)
        ensures
            final(self).0 == set_bit32(old(self).0, 30, z),
            flag_z(final(self).0) == z,
            flag_n(final(self).0) == flag_n(old(self).0),
            flag_c(final(self).0) == flag_c(old(self).0),
            flag_v(final(self).0) == flag_v(old(self).0),
            final(self).0 & 0xFFu32 == old(self).0 & 0xFFu32,
    {
        let w = self.0;
        let new: u32 = if z {
            w | (1u32 << 30u32)
        } else {
            w & !(1u32 << 30u32)
        };
        proof {
            lemma_flag_update(w, 30, z);
        }
        self.0 = new;
    }

    #[allow(non_snake_case)]
    pub fn set_C(&mut self, c: bool)
        ensures
            final(self).0 == set_bit32(old(self).0, 29, c),
            flag_c(final(self).0) == c,
            flag_n(final(self).0) == flag_n(old(self).0),
            flag_z(final(self).0) == flag_z(old(self).0),
            flag_v(final(self).0) == flag_v(old(self).0),
            final(self).0 & 0xFFu32 == old(self).0 & 0xFFu32,
    {
        let w = self.0;
        let new: u32 = if c {
            w | (1u32 << 29u32)
        } else {
            w & !(1u32 << 29u32)
        };
        proof {
            lemma_flag_update(w, 29, c);
        }
        self.0 = new;
    }

    #[allow(non_snake_case)]
    pub fn set_V(&mut self, v: bool)
        ensures
            final(self).0 == set_bit32(old(self).0, 28, v),
            flag_v(final(self).0) == v,
            flag_n(final(self).0) == flag_n(old(self).0),
            flag_z(final(self).0) == flag_z(old(self).0),
            flag_c(final(self).0) == flag_c(old(self).0),
            final(self).0 & 0xFFu32 == old(self).0 & 0xFFu32,
    {
        let w = self.0;
        let new: u32 = if v {
            w | (1u32 << 28u32)
        } else {
            w & !(1u32 << 28u32)
        };
        proof {
            lemma_flag_update(w, 28, v);
        }
        self.0 = new;
    }

    pub fn set(&mut self, d: u32)
        ensures
            final(self).0 == d,
    {
        self.0 = d;
    }
}

/// Forcing one flag bit (28..=31) leaves the three other flags and the
/// whole low byte unchanged.
proof fn lemma_flag_update(w: u32, i: u32, b: bool)
    by (bit_vector)
    requires
        28 <= i < 32,
    ensures
        (set_bit32(w, i, b) & (1u32 << i) != 0) == b,
        forall|j: u32|
            28 <= j < 32 && j != i ==> set_bit32(w, i, b) & (1u32 << j) == w & (1u32 << j),
        set_bit32(w, i, b) & 0xFFu32 == w & 0xFFu32,
{
}

impl Default for PSR {
    /// A reset-state register: Supervisor mode, IRQ and FIQ disabled, ARM
    /// state, every flag and reserved bit clear.
    fn default() -> (r: PSR)
        ensures
            r.0 == 0xD3u32,
    {
        PSR(RAW_DEFAULT)
    }
}

} // verus!
