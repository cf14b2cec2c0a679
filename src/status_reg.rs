//! The processor status register.
//!
//! ```text
//! 7  bit  0
//! ---- ----
//! NV1B DIZC
//! |||| ||||
//! |||| |||+- Carry
//! |||| ||+-- Zero
//! |||| |+--- Interrupt Disable
//! |||| +---- Decimal
//! |||+------ Break (no CPU effect)
//! ||+------- Unused (no CPU effect)
//! |+-------- Overflow
//! +--------- Negative
//! ```
use vstd::prelude::*;

verus! {

/// Names of the eight status flags.
#[derive(Clone, Copy, Debug, PartialEq, Eq, Structural)]
pub enum Flag {
    Negative,
    Overflow,
    Unused,
    Break,
    DecimalMode,
    Interrupt,
    Zero,
    Carry,
}

/// The status register, one boolean per flag.
#[derive(Clone, Copy, Debug, PartialEq, Eq, Structural)]
pub struct StatusFlags {
    pub n: bool,
    pub v: bool,
    pub u: bool,
    pub b: bool,
    pub d: bool,
    pub i: bool,
    pub z: bool,
    pub c: bool,
}

/// Whether bit 7, the sign bit, of a byte is set.
pub open spec fn bit7(v: u8) -> bool {
    v >= 0x80
}

/// The value of a flag as a bit of the packed register.
pub open spec fn flag_value(set: bool, weight: u8) -> int {
    if set {
        weight as int
    } else {
        0
    }
}

/// The packed register byte: N at bit 7 down to C at bit 0.
pub open spec fn packed(f: StatusFlags) -> int {
    flag_value(f.n, 0x80) + flag_value(f.v, 0x40) + flag_value(f.u, 0x20) + flag_value(f.b, 0x10)
        + flag_value(f.d, 0x08) + flag_value(f.i, 0x04) + flag_value(f.z, 0x02) + flag_value(
        f.c,
        0x01,
    )
}

/// Whether bit `k` of `byte` is set.
pub open spec fn bit_of(byte: u8, k: nat) -> bool {
    (byte as int / pow2_of(k)) % 2 == 1
}

/// `2^k` for a bit position.
pub open spec fn pow2_of(k: nat) -> int
    decreases k,
{
    if k == 0 {
        1
    } else {
        2 * pow2_of((k - 1) as nat)
    }
}

/// The value of one flag.
pub open spec fn flag_of(f: StatusFlags, flag: Flag) -> bool {
    match flag {
        Flag::Negative => f.n,
        Flag::Overflow => f.v,
        Flag::Unused => f.u,
        Flag::Break => f.b,
        Flag::DecimalMode => f.d,
        Flag::Interrupt => f.i,
        Flag::Zero => f.z,
        Flag::Carry => f.c,
    }
}

/// The register after one flag has been set to `state`.
pub open spec fn with_flag(f: StatusFlags, flag: Flag, state: bool) -> StatusFlags {
    match flag {
        Flag::Negative => StatusFlags { n: state, ..f },
        Flag::Overflow => StatusFlags { v: state, ..f },
        Flag::Unused => StatusFlags { u: state, ..f },
        Flag::Break => StatusFlags { b: state, ..f },
        Flag::DecimalMode => StatusFlags { d: state, ..f },
        Flag::Interrupt => StatusFlags { i: state, ..f },
        Flag::Zero => StatusFlags { z: state, ..f },
        Flag::Carry => StatusFlags { c: state, ..f },
    }
}

/// The register after Zero and Negative have been set from a result byte.
pub open spec fn with_nz(f: StatusFlags, result: u8) -> StatusFlags {
    StatusFlags { z: result == 0, n: bit7(result), ..f }
}

/// The register as restored from a byte pulled off the stack: every flag but
/// Unused and Break is taken from its bit.
pub open spec fn restored(f: StatusFlags, byte: u8) -> StatusFlags {
    StatusFlags {
        n: bit_of(byte, 7),
        v: bit_of(byte, 6),
        d: bit_of(byte, 3),
        i: bit_of(byte, 2),
        z: bit_of(byte, 1),
        c: bit_of(byte, 0),
        ..f
    }
}

/// The register at power-on: only the unused bit is set.
pub open spec fn power_on_flags() -> StatusFlags {
    StatusFlags { n: false, v: false, u: true, b: false, d: false, i: false, z: false, c: false }
}

impl StatusFlags {
    /// The register at power-on: only the unused bit is set.
    pub fn new() -> (r: StatusFlags)
        ensures
            r == power_on_flags(),
            packed(r) == 0x20,
    {
        StatusFlags { n: false, v: false, u: true, b: false, d: false, i: false, z: false, c: false }
    }

    pub fn get_flag(&self, flag: Flag) -> (r: bool)
        ensures
            r == flag_of(*self, flag),
    {
        match flag {
            Flag::Negative => self.n,
            Flag::Overflow => self.v,
            Flag::Unused => self.u,
            Flag::Break => self.b,
            Flag::DecimalMode => self.d,
            Flag::Interrupt => self.i,
            Flag::Zero => self.z,
            Flag::Carry => self.c,
        }
    }

    pub fn set_flag(&mut self, to_set_flag: Flag, flag_state: bool)
        ensures
            *final(self) == with_flag(*old(self), to_set_flag, flag_state),
    {
        match to_set_flag {
            Flag::Negative => self.n = flag_state,
            Flag::Overflow => self.v = flag_state,
            Flag::Unused => self.u = flag_state,
            Flag::Break => self.b = flag_state,
            Flag::DecimalMode => self.d = flag_state,
            Flag::Interrupt => self.i = flag_state,
            Flag::Zero => self.z = flag_state,
            Flag::Carry => self.c = flag_state,
        }
    }

    /// Sets Zero and Negative from a result byte.
    pub fn set_nz(&mut self, result: u8)
        ensures
            *final(self) == with_nz(*old(self), result),
    {
        self.z = result == 0;
        self.n = result >= 0x80;
    }

    /// The packed register byte.
    pub fn as_u8(&self) -> (r: u8)
        ensures
            r as int == packed(*self),
    {
        let mut result: u8 = 0;
        if self.n {
            result = result + 0x80;
        }
        if self.v {
            result = result + 0x40;
        }
        if self.u {
            result = result + 0x20;
        }
        if self.b {
            result = result + 0x10;
        }
        if self.d {
            result = result + 0x08;
        }
        if self.i {
            result = result + 0x04;
        }
        if self.z {
            result = result + 0x02;
        }
        if self.c {
            result = result + 0x01;
        }
        result
    }

    /// Loads every flag but Unused and Break from the bits of `byte`.
    pub fn restore_from(&mut self, byte: u8)
        ensures
            *final(self) == restored(*old(self), byte),
    {
        proof {
            reveal_with_fuel(pow2_of, 8);
        }
        self.n = (byte & 0x80) != 0;
        self.v = (byte & 0x40) != 0;
        self.d = (byte & 0x08) != 0;
        self.i = (byte & 0x04) != 0;
        self.z = (byte & 0x02) != 0;
        self.c = (byte & 0x01) != 0;
        proof {
            lemma_masks(byte);
        }
    }
}

/// Each single-bit mask of a byte agrees with the arithmetic reading of that bit.
pub proof fn lemma_masks(byte: u8)
    ensures
        ((byte & 0x80) != 0) == ((byte as int / 128) % 2 == 1),
        ((byte & 0x40) != 0) == ((byte as int / 64) % 2 == 1),
        ((byte & 0x08) != 0) == ((byte as int / 8) % 2 == 1),
        ((byte & 0x04) != 0) == ((byte as int / 4) % 2 == 1),
        ((byte & 0x02) != 0) == ((byte as int / 2) % 2 == 1),
        ((byte & 0x01) != 0) == (byte as int % 2 == 1),
{
    assert({
        &&& ((byte & 0x80) != 0) == ((byte / 128) % 2 == 1)
        &&& ((byte & 0x40) != 0) == ((byte / 64) % 2 == 1)
        &&& ((byte & 0x08) != 0) == ((byte / 8) % 2 == 1)
        &&& ((byte & 0x04) != 0) == ((byte / 4) % 2 == 1)
        &&& ((byte & 0x02) != 0) == ((byte / 2) % 2 == 1)
        &&& ((byte & 0x01) != 0) == (byte % 2 == 1)
    }) by (bit_vector);
}

/// Restoring the register from its own packed byte gives back every flag
/// that a restore sets, whatever the register held before.
pub proof fn lemma_restore_packed(f: StatusFlags, g: StatusFlags)
    ensures
        ({
            let r = restored(g, packed(f) as u8);
            &&& r.n == f.n && r.v == f.v && r.d == f.d
            &&& r.i == f.i && r.z == f.z && r.c == f.c
            &&& r.u == g.u && r.b == g.b
        }),
{
    reveal_with_fuel(pow2_of, 8);
    let p = packed(f);
    assert(0 <= p < 256);
    assert((p / 128) % 2 == 1 <==> f.n);
    assert((p / 64) % 2 == 1 <==> f.v);
    assert((p / 8) % 2 == 1 <==> f.d);
    assert((p / 4) % 2 == 1 <==> f.i);
    assert((p / 2) % 2 == 1 <==> f.z);
    assert(p % 2 == 1 <==> f.c);
}

} // verus!
