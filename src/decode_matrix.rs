//! Decode routines of the matrix-unit instructions.

use vstd::prelude::*;
use crate::sm86::{Decoder, DecodeError, Operand, unsupported};

verus! {

impl Decoder {
    /// `BMMA`, binary matrix multiply and accumulate.
    pub fn bmma(&mut self, inst: u128) -> (r: Result<(), DecodeError>)
        ensures
            r == unsupported(
                old(self).state(),
                inst,
                seq![Operand::Rd, Operand::Ra, Operand::Rb, Operand::Rc],
            ),
            *final(self) == *old(self),
    {
        let ops = [Operand::Rd, Operand::Ra, Operand::Rb, Operand::Rc];
        assert(ops@ == seq![Operand::Rd, Operand::Ra, Operand::Rb, Operand::Rc]);
        self.reject(inst, &ops)
    }

    /// `DMMA`, double-precision matrix multiply and accumulate.
    pub fn dmma(&mut self, inst: u128) -> (r: Result<(), DecodeError>)
        ensures
            r == unsupported(
                old(self).state(),
                inst,
                seq![Operand::Rd, Operand::Ra, Operand::Rb, Operand::Rc],
            ),
            *final(self) == *old(self),
    {
        let ops = [Operand::Rd, Operand::Ra, Operand::Rb, Operand::Rc];
        assert(ops@ == seq![Operand::Rd, Operand::Ra, Operand::Rb, Operand::Rc]);
        self.reject(inst, &ops)
    }

    /// `GENMETADATA`, generate metadata for sparse matrices.
    pub fn genmetadata(&mut self, inst: u128) -> (r: Result<(), DecodeError>)
        ensures
            r == unsupported(
                old(self).state(),
                inst,
                seq![Operand::Rd, Operand::Ra, Operand::Rb, Operand::Rc],
            ),
            *final(self) == *old(self),
    {
        let ops = [Operand::Rd, Operand::Ra, Operand::Rb, Operand::Rc];
        assert(ops@ == seq![Operand::Rd, Operand::Ra, Operand::Rb, Operand::Rc]);
        self.reject(inst, &ops)
    }

    /// `HMMA`, half-precision matrix multiply and accumulate.
    pub fn hmma(&mut self, inst: u128) -> (r: Result<(), DecodeError>)
        ensures
            r == unsupported(
                old(self).state(),
                inst,
                seq![Operand::Rd, Operand::Ra, Operand::Rb, Operand::Re, Operand::Rc],
            ),
            *final(self) == *old(self),
    {
        let ops = [Operand::Rd, Operand::Ra, Operand::Rb, Operand::Re, Operand::Rc];
        assert(ops@ == seq![Operand::Rd, Operand::Ra, Operand::Rb, Operand::Re, Operand::Rc]);
        self.reject(inst, &ops)
    }

    /// `IMMA`, integer matrix multiply and accumulate.
    pub fn imma(&mut self, inst: u128) -> (r: Result<(), DecodeError>)
        ensures
            r == unsupported(
                old(self).state(),
                inst,
                seq![Operand::Rd, Operand::Ra, Operand::Rb, Operand::Rc],
            ),
            *final(self) == *old(self),
    {
        let ops = [Operand::Rd, Operand::Ra, Operand::Rb, Operand::Rc];
        assert(ops@ == seq![Operand::Rd, Operand::Ra, Operand::Rb, Operand::Rc]);
        self.reject(inst, &ops)
    }

    /// `LDSM`, load matrices from shared memory.
    pub fn ldsm(&mut self, inst: u128) -> (r: Result<(), DecodeError>)
        ensures
            r == unsupported(old(self).state(), inst, seq![Operand::Rd, Operand::Ra, Operand::Urb]),
            *final(self) == *old(self),
    {
        let ops = [Operand::Rd, Operand::Ra, Operand::Urb];
        assert(ops@ == seq![Operand::Rd, Operand::Ra, Operand::Urb]);
        self.reject(inst, &ops)
    }

    /// `MOVM`, move a matrix with transposition.
    pub fn movm(&mut self, inst: u128) -> (r: Result<(), DecodeError>)
        ensures
            r == unsupported(old(self).state(), inst, seq![Operand::Rd, Operand::Ra]),
            *final(self) == *old(self),
    {
        let ops = [Operand::Rd, Operand::Ra];
        assert(ops@ == seq![Operand::Rd, Operand::Ra]);
        self.reject(inst, &ops)
    }

    /// `SPMETADATA`, set metadata for sparse matrices.
    pub fn spmetadata(&mut self, inst: u128) -> (r: Result<(), DecodeError>)
        ensures
            r == unsupported(old(self).state(), inst, seq![Operand::Rd, Operand::Rb, Operand::Rc]),
            *final(self) == *old(self),
    {
        let ops = [Operand::Rd, Operand::Rb, Operand::Rc];
        assert(ops@ == seq![Operand::Rd, Operand::Rb, Operand::Rc]);
        self.reject(inst, &ops)
    }
}

} // verus!
