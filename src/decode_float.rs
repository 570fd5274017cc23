//! Decode routines of the floating-point arithmetic, comparison and conversion instructions.

use vstd::prelude::*;
use crate::sm86::{Decoder, DecodeError, Operand, unsupported};

verus! {

impl Decoder {
    /// `DADD`, double-precision addition.
    pub fn dadd(&mut self, inst: u128) -> (r: Result<(), DecodeError>)
        ensures
            r == unsupported(
                old(self).state(),
                inst,
                seq![Operand::Rd, Operand::Ra, Operand::Bank],
            ),
            *final(self) == *old(self),
    {
        let ops = [Operand::Rd, Operand::Ra, Operand::Bank];
        assert(ops@ == seq![Operand::Rd, Operand::Ra, Operand::Bank]);
        self.reject(inst, &ops)
    }

    /// `DFMA`, double-precision fused multiply-add.
    pub fn dfma(&mut self, inst: u128) -> (r: Result<(), DecodeError>)
        ensures
            r == unsupported(
                old(self).state(),
                inst,
                seq![Operand::Rd, Operand::Ra, Operand::Rc, Operand::Bank],
            ),
            *final(self) == *old(self),
    {
        let ops = [Operand::Rd, Operand::Ra, Operand::Rc, Operand::Bank];
        assert(ops@ == seq![Operand::Rd, Operand::Ra, Operand::Rc, Operand::Bank]);
        self.reject(inst, &ops)
    }

    /// `DMUL`, double-precision multiplication.
    pub fn dmul(&mut self, inst: u128) -> (r: Result<(), DecodeError>)
        ensures
            r == unsupported(
                old(self).state(),
                inst,
                seq![Operand::Rd, Operand::Ra, Operand::Bank],
            ),
            *final(self) == *old(self),
    {
        let ops = [Operand::Rd, Operand::Ra, Operand::Bank];
        assert(ops@ == seq![Operand::Rd, Operand::Ra, Operand::Bank]);
        self.reject(inst, &ops)
    }

    /// `DSETP`, double-precision compare, setting predicates.
    pub fn dsetp(&mut self, inst: u128) -> (r: Result<(), DecodeError>)
        ensures
            r == unsupported(old(self).state(), inst, seq![Operand::Ra, Operand::Bank]),
            *final(self) == *old(self),
    {
        let ops = [Operand::Ra, Operand::Bank];
        assert(ops@ == seq![Operand::Ra, Operand::Bank]);
        self.reject(inst, &ops)
    }

    /// `F2F`, conversion between floating-point formats.
    pub fn f2f(&mut self, inst: u128) -> (r: Result<(), DecodeError>)
        ensures
            r == unsupported(old(self).state(), inst, seq![Operand::Rd, Operand::Bank]),
            *final(self) == *old(self),
    {
        let ops = [Operand::Rd, Operand::Bank];
        assert(ops@ == seq![Operand::Rd, Operand::Bank]);
        self.reject(inst, &ops)
    }

    /// `F2FP`, conversion to a packed floating-point pair.
    pub fn f2fp(&mut self, inst: u128) -> (r: Result<(), DecodeError>)
        ensures
            r == unsupported(
                old(self).state(),
                inst,
                seq![Operand::Rd, Operand::Ra, Operand::Rc, Operand::Bank],
            ),
            *final(self) == *old(self),
    {
        let ops = [Operand::Rd, Operand::Ra, Operand::Rc, Operand::Bank];
        assert(ops@ == seq![Operand::Rd, Operand::Ra, Operand::Rc, Operand::Bank]);
        self.reject(inst, &ops)
    }

    /// `F2I`, floating-point to integer conversion.
    pub fn f2i(&mut self, inst: u128) -> (r: Result<(), DecodeError>)
        ensures
            r == unsupported(old(self).state(), inst, seq![Operand::Rd, Operand::Urb]),
            *final(self) == *old(self),
    {
        let ops = [Operand::Rd, Operand::Urb];
        assert(ops@ == seq![Operand::Rd, Operand::Urb]);
        self.reject(inst, &ops)
    }

    /// `F2IP`, floating-point to packed integer conversion.
    pub fn f2ip(&mut self, inst: u128) -> (r: Result<(), DecodeError>)
        ensures
            r == unsupported(
                old(self).state(),
                inst,
                seq![Operand::Rd, Operand::Ra, Operand::Rc, Operand::Bank],
            ),
            *final(self) == *old(self),
    {
        let ops = [Operand::Rd, Operand::Ra, Operand::Rc, Operand::Bank];
        assert(ops@ == seq![Operand::Rd, Operand::Ra, Operand::Rc, Operand::Bank]);
        self.reject(inst, &ops)
    }

    /// `FADD`, single-precision addition.
    pub fn fadd(&mut self, inst: u128) -> (r: Result<(), DecodeError>)
        ensures
            r == unsupported(
                old(self).state(),
                inst,
                seq![Operand::Rd, Operand::Ra, Operand::Bank],
            ),
            *final(self) == *old(self),
    {
        let ops = [Operand::Rd, Operand::Ra, Operand::Bank];
        assert(ops@ == seq![Operand::Rd, Operand::Ra, Operand::Bank]);
        self.reject(inst, &ops)
    }

    /// `FADD32I`, single-precision addition with a 32-bit immediate.
    pub fn fadd32i(&mut self, inst: u128) -> (r: Result<(), DecodeError>)
        ensures
            r == unsupported(old(self).state(), inst, seq![Operand::Rd, Operand::Ra]),
            *final(self) == *old(self),
    {
        let ops = [Operand::Rd, Operand::Ra];
        assert(ops@ == seq![Operand::Rd, Operand::Ra]);
        self.reject(inst, &ops)
    }

    /// `FCHK`, range check for a single-precision division.
    pub fn fchk(&mut self, inst: u128) -> (r: Result<(), DecodeError>)
        ensures
            r == unsupported(old(self).state(), inst, seq![Operand::Ra, Operand::Bank]),
            *final(self) == *old(self),
    {
        let ops = [Operand::Ra, Operand::Bank];
        assert(ops@ == seq![Operand::Ra, Operand::Bank]);
        self.reject(inst, &ops)
    }

    /// `FFMA`, single-precision fused multiply-add.
    pub fn ffma(&mut self, inst: u128) -> (r: Result<(), DecodeError>)
        ensures
            r == unsupported(
                old(self).state(),
                inst,
                seq![Operand::Rd, Operand::Ra, Operand::Rc, Operand::Bank],
            ),
            *final(self) == *old(self),
    {
        let ops = [Operand::Rd, Operand::Ra, Operand::Rc, Operand::Bank];
        assert(ops@ == seq![Operand::Rd, Operand::Ra, Operand::Rc, Operand::Bank]);
        self.reject(inst, &ops)
    }

    /// `FFMA32I`, single-precision fused multiply-add with a 32-bit immediate.
    pub fn ffma32i(&mut self, inst: u128) -> (r: Result<(), DecodeError>)
        ensures
            r == unsupported(old(self).state(), inst, seq![Operand::Rd, Operand::Ra, Operand::Rc]),
            *final(self) == *old(self),
    {
        let ops = [Operand::Rd, Operand::Ra, Operand::Rc];
        assert(ops@ == seq![Operand::Rd, Operand::Ra, Operand::Rc]);
        self.reject(inst, &ops)
    }

    /// `FMNMX`, single-precision minimum or maximum.
    pub fn fmnmx(&mut self, inst: u128) -> (r: Result<(), DecodeError>)
        ensures
            r == unsupported(
                old(self).state(),
                inst,
                seq![Operand::Rd, Operand::Ra, Operand::Bank],
            ),
            *final(self) == *old(self),
    {
        let ops = [Operand::Rd, Operand::Ra, Operand::Bank];
        assert(ops@ == seq![Operand::Rd, Operand::Ra, Operand::Bank]);
        self.reject(inst, &ops)
    }

    /// `FMUL`, single-precision multiplication.
    pub fn fmul(&mut self, inst: u128) -> (r: Result<(), DecodeError>)
        ensures
            r == unsupported(
                old(self).state(),
                inst,
                seq![Operand::Rd, Operand::Ra, Operand::Bank],
            ),
            *final(self) == *old(self),
    {
        let ops = [Operand::Rd, Operand::Ra, Operand::Bank];
        assert(ops@ == seq![Operand::Rd, Operand::Ra, Operand::Bank]);
        self.reject(inst, &ops)
    }

    /// `FMUL32I`, single-precision multiplication with a 32-bit immediate.
    pub fn fmul32i(&mut self, inst: u128) -> (r: Result<(), DecodeError>)
        ensures
            r == unsupported(old(self).state(), inst, seq![Operand::Rd, Operand::Ra]),
            *final(self) == *old(self),
    {
        let ops = [Operand::Rd, Operand::Ra];
        assert(ops@ == seq![Operand::Rd, Operand::Ra]);
        self.reject(inst, &ops)
    }

    /// `FRND`, round to an integral single-precision value.
    pub fn frnd(&mut self, inst: u128) -> (r: Result<(), DecodeError>)
        ensures
            r == unsupported(old(self).state(), inst, seq![Operand::Rd, Operand::Bank]),
            *final(self) == *old(self),
    {
        let ops = [Operand::Rd, Operand::Bank];
        assert(ops@ == seq![Operand::Rd, Operand::Bank]);
        self.reject(inst, &ops)
    }

    /// `FSEL`, single-precision select.
    pub fn fsel(&mut self, inst: u128) -> (r: Result<(), DecodeError>)
        ensures
            r == unsupported(
                old(self).state(),
                inst,
                seq![Operand::Rd, Operand::Ra, Operand::Bank],
            ),
            *final(self) == *old(self),
    {
        let ops = [Operand::Rd, Operand::Ra, Operand::Bank];
        assert(ops@ == seq![Operand::Rd, Operand::Ra, Operand::Bank]);
        self.reject(inst, &ops)
    }

    /// `FSET`, single-precision compare, setting a register.
    pub fn fset(&mut self, inst: u128) -> (r: Result<(), DecodeError>)
        ensures
            r == unsupported(
                old(self).state(),
                inst,
                seq![Operand::Rd, Operand::Ra, Operand::Bank],
            ),
            *final(self) == *old(self),
    {
        let ops = [Operand::Rd, Operand::Ra, Operand::Bank];
        assert(ops@ == seq![Operand::Rd, Operand::Ra, Operand::Bank]);
        self.reject(inst, &ops)
    }

    /// `FSETP`, single-precision compare, setting predicates.
    pub fn fsetp(&mut self, inst: u128) -> (r: Result<(), DecodeError>)
        ensures
            r == unsupported(old(self).state(), inst, seq![Operand::Ra, Operand::Bank]),
            *final(self) == *old(self),
    {
        let ops = [Operand::Ra, Operand::Bank];
        assert(ops@ == seq![Operand::Ra, Operand::Bank]);
        self.reject(inst, &ops)
    }

    /// `FSWZADD`, single-precision swizzled addition.
    pub fn fswzadd(&mut self, inst: u128) -> (r: Result<(), DecodeError>)
        ensures
            r == unsupported(
                old(self).state(),
                inst,
                seq![Operand::Rd, Operand::Ra, Operand::Rb, Operand::Rc],
            ),
            *final(self) == *old(self),
    {
        let ops = [Operand::Rd, Operand::Ra, Operand::Rb, Operand::Rc];
        assert(ops@ == seq![Operand::Rd, Operand::Ra, Operand::Rb, Operand::Rc]);
        self.reject(inst, &ops)
    }

    /// `HADD2`, paired half-precision addition.
    pub fn hadd2(&mut self, inst: u128) -> (r: Result<(), DecodeError>)
        ensures
            r == unsupported(
                old(self).state(),
                inst,
                seq![Operand::Rd, Operand::Ra, Operand::Bank],
            ),
            *final(self) == *old(self),
    {
        let ops = [Operand::Rd, Operand::Ra, Operand::Bank];
        assert(ops@ == seq![Operand::Rd, Operand::Ra, Operand::Bank]);
        self.reject(inst, &ops)
    }

    /// `HADD2_32I`, paired half-precision addition with a 32-bit immediate.
    pub fn hadd2_32i(&mut self, inst: u128) -> (r: Result<(), DecodeError>)
        ensures
            r == unsupported(old(self).state(), inst, seq![Operand::Rd, Operand::Ra]),
            *final(self) == *old(self),
    {
        let ops = [Operand::Rd, Operand::Ra];
        assert(ops@ == seq![Operand::Rd, Operand::Ra]);
        self.reject(inst, &ops)
    }

    /// `HFMA2`, paired half-precision fused multiply-add.
    pub fn hfma2(&mut self, inst: u128) -> (r: Result<(), DecodeError>)
        ensures
            r == unsupported(
                old(self).state(),
                inst,
                seq![Operand::Rd, Operand::Ra, Operand::Rc, Operand::Bank],
            ),
            *final(self) == *old(self),
    {
        let ops = [Operand::Rd, Operand::Ra, Operand::Rc, Operand::Bank];
        assert(ops@ == seq![Operand::Rd, Operand::Ra, Operand::Rc, Operand::Bank]);
        self.reject(inst, &ops)
    }

    /// `HFMA2.MMA`, paired half-precision fused multiply-add on the matrix unit.
    pub fn hfma2_mma(&mut self, inst: u128) -> (r: Result<(), DecodeError>)
        ensures
            r == unsupported(
                old(self).state(),
                inst,
                seq![Operand::Rd, Operand::Ra, Operand::Rc, Operand::Bank],
            ),
            *final(self) == *old(self),
    {
        let ops = [Operand::Rd, Operand::Ra, Operand::Rc, Operand::Bank];
        assert(ops@ == seq![Operand::Rd, Operand::Ra, Operand::Rc, Operand::Bank]);
        self.reject(inst, &ops)
    }

    /// `HFMA2_32I`, paired half-precision fused multiply-add with a 32-bit immediate.
    pub fn hfma2_32i(&mut self, inst: u128) -> (r: Result<(), DecodeError>)
        ensures
            r == unsupported(old(self).state(), inst, seq![Operand::Rd, Operand::Ra, Operand::Rc]),
            *final(self) == *old(self),
    {
        let ops = [Operand::Rd, Operand::Ra, Operand::Rc];
        assert(ops@ == seq![Operand::Rd, Operand::Ra, Operand::Rc]);
        self.reject(inst, &ops)
    }

    /// `HMNMX2`, paired half-precision minimum or maximum.
    pub fn hmnmx2(&mut self, inst: u128) -> (r: Result<(), DecodeError>)
        ensures
            r == unsupported(
                old(self).state(),
                inst,
                seq![Operand::Rd, Operand::Ra, Operand::Bank],
            ),
            *final(self) == *old(self),
    {
        let ops = [Operand::Rd, Operand::Ra, Operand::Bank];
        assert(ops@ == seq![Operand::Rd, Operand::Ra, Operand::Bank]);
        self.reject(inst, &ops)
    }

    /// `HMUL2`, paired half-precision multiplication.
    pub fn hmul2(&mut self, inst: u128) -> (r: Result<(), DecodeError>)
        ensures
            r == unsupported(
                old(self).state(),
                inst,
                seq![Operand::Rd, Operand::Ra, Operand::Bank],
            ),
            *final(self) == *old(self),
    {
        let ops = [Operand::Rd, Operand::Ra, Operand::Bank];
        assert(ops@ == seq![Operand::Rd, Operand::Ra, Operand::Bank]);
        self.reject(inst, &ops)
    }

    /// `HMUL2_32I`, paired half-precision multiplication with a 32-bit immediate.
    pub fn hmul2_32i(&mut self, inst: u128) -> (r: Result<(), DecodeError>)
        ensures
            r == unsupported(old(self).state(), inst, seq![Operand::Rd, Operand::Ra]),
            *final(self) == *old(self),
    {
        let ops = [Operand::Rd, Operand::Ra];
        assert(ops@ == seq![Operand::Rd, Operand::Ra]);
        self.reject(inst, &ops)
    }

    /// `HSET2`, paired half-precision compare, setting a register.
    pub fn hset2(&mut self, inst: u128) -> (r: Result<(), DecodeError>)
        ensures
            r == unsupported(
                old(self).state(),
                inst,
                seq![Operand::Rd, Operand::Ra, Operand::Bank],
            ),
            *final(self) == *old(self),
    {
        let ops = [Operand::Rd, Operand::Ra, Operand::Bank];
        assert(ops@ == seq![Operand::Rd, Operand::Ra, Operand::Bank]);
        self.reject(inst, &ops)
    }

    /// `HSETP2`, paired half-precision compare, setting predicates.
    pub fn hsetp2(&mut self, inst: u128) -> (r: Result<(), DecodeError>)
        ensures
            r == unsupported(old(self).state(), inst, seq![Operand::Ra, Operand::Bank]),
            *final(self) == *old(self),
    {
        let ops = [Operand::Ra, Operand::Bank];
        assert(ops@ == seq![Operand::Ra, Operand::Bank]);
        self.reject(inst, &ops)
    }

    /// `I2F`, integer to floating-point conversion.
    pub fn i2f(&mut self, inst: u128) -> (r: Result<(), DecodeError>)
        ensures
            r == unsupported(old(self).state(), inst, seq![Operand::Rd, Operand::Urb]),
            *final(self) == *old(self),
    {
        let ops = [Operand::Rd, Operand::Urb];
        assert(ops@ == seq![Operand::Rd, Operand::Urb]);
        self.reject(inst, &ops)
    }

    /// `I2FP`, integer to packed floating-point conversion.
    pub fn i2fp(&mut self, inst: u128) -> (r: Result<(), DecodeError>)
        ensures
            r == unsupported(old(self).state(), inst, seq![Operand::Rd, Operand::Bank]),
            *final(self) == *old(self),
    {
        let ops = [Operand::Rd, Operand::Bank];
        assert(ops@ == seq![Operand::Rd, Operand::Bank]);
        self.reject(inst, &ops)
    }

    /// `I2I`, conversion between integer sizes.
    pub fn i2i(&mut self, inst: u128) -> (r: Result<(), DecodeError>)
        ensures
            r == unsupported(old(self).state(), inst, seq![Operand::Rd, Operand::Bank]),
            *final(self) == *old(self),
    {
        let ops = [Operand::Rd, Operand::Bank];
        assert(ops@ == seq![Operand::Rd, Operand::Bank]);
        self.reject(inst, &ops)
    }

    /// `I2IP`, integer to packed integer conversion.
    pub fn i2ip(&mut self, inst: u128) -> (r: Result<(), DecodeError>)
        ensures
            r == unsupported(
                old(self).state(),
                inst,
                seq![Operand::Rd, Operand::Ra, Operand::Rc, Operand::Bank],
            ),
            *final(self) == *old(self),
    {
        let ops = [Operand::Rd, Operand::Ra, Operand::Rc, Operand::Bank];
        assert(ops@ == seq![Operand::Rd, Operand::Ra, Operand::Rc, Operand::Bank]);
        self.reject(inst, &ops)
    }

    /// `MUFU`, multi-function operation (reciprocal, square root, sine, ...).
    pub fn mufu(&mut self, inst: u128) -> (r: Result<(), DecodeError>)
        ensures
            r == unsupported(old(self).state(), inst, seq![Operand::Rd, Operand::Bank]),
            *final(self) == *old(self),
    {
        let ops = [Operand::Rd, Operand::Bank];
        assert(ops@ == seq![Operand::Rd, Operand::Bank]);
        self.reject(inst, &ops)
    }
}

} // verus!
