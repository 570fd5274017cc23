//! Decode routines of the integer, logic and shift instructions.

use vstd::prelude::*;
use crate::sm86::{Decoder, DecodeError, Operand, unsupported};

verus! {

impl Decoder {
    /// `BITEXTRACT`, bit-field extraction.
    pub fn bitextract(&mut self, inst: u128) -> (r: Result<(), DecodeError>)
        ensures
            r == unsupported(
                old(self).state(),
                inst,
                seq![Operand::Rd, Operand::Ra, Operand::Rb, Operand::Rc],
            ),
            *final(self) == *old(self),
    {
        let ops = [Operand::Rd, Operand::Ra, Operand::Rb, Operand::Rc];
        assert(ops@ == seq![Operand::Rd, Operand::Ra, Operand::Rb, Operand::Rc]);
        self.reject(inst, &ops)
    }

    /// `BMSK`, bit-field mask.
    pub fn bmsk(&mut self, inst: u128) -> (r: Result<(), DecodeError>)
        ensures
            r == unsupported(
                old(self).state(),
                inst,
                seq![Operand::Rd, Operand::Ra, Operand::Bank],
            ),
            *final(self) == *old(self),
    {
        let ops = [Operand::Rd, Operand::Ra, Operand::Bank];
        assert(ops@ == seq![Operand::Rd, Operand::Ra, Operand::Bank]);
        self.reject(inst, &ops)
    }

    /// `BREV`, bit reversal.
    pub fn brev(&mut self, inst: u128) -> (r: Result<(), DecodeError>)
        ensures
            r == unsupported(old(self).state(), inst, seq![Operand::Rd, Operand::Bank]),
            *final(self) == *old(self),
    {
        let ops = [Operand::Rd, Operand::Bank];
        assert(ops@ == seq![Operand::Rd, Operand::Bank]);
        self.reject(inst, &ops)
    }

    /// `CLMAD`, carry-less multiply and add.
    pub fn clmad(&mut self, inst: u128) -> (r: Result<(), DecodeError>)
        ensures
            r == unsupported(
                old(self).state(),
                inst,
                seq![Operand::Rd, Operand::Ra, Operand::Rc, Operand::Bank],
            ),
            *final(self) == *old(self),
    {
        let ops = [Operand::Rd, Operand::Ra, Operand::Rc, Operand::Bank];
        assert(ops@ == seq![Operand::Rd, Operand::Ra, Operand::Rc, Operand::Bank]);
        self.reject(inst, &ops)
    }

    /// `FLO`, find the leading one.
    pub fn flo(&mut self, inst: u128) -> (r: Result<(), DecodeError>)
        ensures
            r == unsupported(old(self).state(), inst, seq![Operand::Rd, Operand::Bank]),
            *final(self) == *old(self),
    {
        let ops = [Operand::Rd, Operand::Bank];
        assert(ops@ == seq![Operand::Rd, Operand::Bank]);
        self.reject(inst, &ops)
    }

    /// `IABS`, integer absolute value.
    pub fn iabs(&mut self, inst: u128) -> (r: Result<(), DecodeError>)
        ensures
            r == unsupported(old(self).state(), inst, seq![Operand::Rd, Operand::Bank]),
            *final(self) == *old(self),
    {
        let ops = [Operand::Rd, Operand::Bank];
        assert(ops@ == seq![Operand::Rd, Operand::Bank]);
        self.reject(inst, &ops)
    }

    /// `IADD`, integer addition.
    pub fn iadd(&mut self, inst: u128) -> (r: Result<(), DecodeError>)
        ensures
            r == unsupported(old(self).state(), inst, seq![Operand::Rd, Operand::Ra, Operand::Rc]),
            *final(self) == *old(self),
    {
        let ops = [Operand::Rd, Operand::Ra, Operand::Rc];
        assert(ops@ == seq![Operand::Rd, Operand::Ra, Operand::Rc]);
        self.reject(inst, &ops)
    }

    /// `IADD3`, three-input integer addition.
    pub fn iadd3(&mut self, inst: u128) -> (r: Result<(), DecodeError>)
        ensures
            r == unsupported(old(self).state(), inst, seq![Operand::Rd, Operand::Ra, Operand::Rc]),
            *final(self) == *old(self),
    {
        let ops = [Operand::Rd, Operand::Ra, Operand::Rc];
        assert(ops@ == seq![Operand::Rd, Operand::Ra, Operand::Rc]);
        self.reject(inst, &ops)
    }

    /// `IADD32I`, integer addition with a 32-bit immediate.
    pub fn iadd32i(&mut self, inst: u128) -> (r: Result<(), DecodeError>)
        ensures
            r == unsupported(old(self).state(), inst, seq![Operand::Rd, Operand::Ra, Operand::Rc]),
            *final(self) == *old(self),
    {
        let ops = [Operand::Rd, Operand::Ra, Operand::Rc];
        assert(ops@ == seq![Operand::Rd, Operand::Ra, Operand::Rc]);
        self.reject(inst, &ops)
    }

    /// `IDP`, integer dot product.
    pub fn idp(&mut self, inst: u128) -> (r: Result<(), DecodeError>)
        ensures
            r == unsupported(
                old(self).state(),
                inst,
                seq![Operand::Rd, Operand::Ra, Operand::Rc, Operand::Bank],
            ),
            *final(self) == *old(self),
    {
        let ops = [Operand::Rd, Operand::Ra, Operand::Rc, Operand::Bank];
        assert(ops@ == seq![Operand::Rd, Operand::Ra, Operand::Rc, Operand::Bank]);
        self.reject(inst, &ops)
    }

    /// `IDP4A`, four-way integer dot product and accumulate.
    pub fn idp4a(&mut self, inst: u128) -> (r: Result<(), DecodeError>)
        ensures
            r == unsupported(
                old(self).state(),
                inst,
                seq![Operand::Rd, Operand::Ra, Operand::Rc, Operand::Bank],
            ),
            *final(self) == *old(self),
    {
        let ops = [Operand::Rd, Operand::Ra, Operand::Rc, Operand::Bank];
        assert(ops@ == seq![Operand::Rd, Operand::Ra, Operand::Rc, Operand::Bank]);
        self.reject(inst, &ops)
    }

    /// `IMAD`, integer multiply-add.
    pub fn imad(&mut self, inst: u128) -> (r: Result<(), DecodeError>)
        ensures
            r == unsupported(
                old(self).state(),
                inst,
                seq![Operand::Rd, Operand::Ra, Operand::Rc, Operand::Bank],
            ),
            *final(self) == *old(self),
    {
        let ops = [Operand::Rd, Operand::Ra, Operand::Rc, Operand::Bank];
        assert(ops@ == seq![Operand::Rd, Operand::Ra, Operand::Rc, Operand::Bank]);
        self.reject(inst, &ops)
    }

    /// `IMNMX`, integer minimum or maximum.
    pub fn imnmx(&mut self, inst: u128) -> (r: Result<(), DecodeError>)
        ensures
            r == unsupported(
                old(self).state(),
                inst,
                seq![Operand::Rd, Operand::Ra, Operand::Bank],
            ),
            *final(self) == *old(self),
    {
        let ops = [Operand::Rd, Operand::Ra, Operand::Bank];
        assert(ops@ == seq![Operand::Rd, Operand::Ra, Operand::Bank]);
        self.reject(inst, &ops)
    }

    /// `IMUL`, integer multiplication.
    pub fn imul(&mut self, inst: u128) -> (r: Result<(), DecodeError>)
        ensures
            r == unsupported(
                old(self).state(),
                inst,
                seq![Operand::Rd, Operand::Ra, Operand::Rc, Operand::Bank],
            ),
            *final(self) == *old(self),
    {
        let ops = [Operand::Rd, Operand::Ra, Operand::Rc, Operand::Bank];
        assert(ops@ == seq![Operand::Rd, Operand::Ra, Operand::Rc, Operand::Bank]);
        self.reject(inst, &ops)
    }

    /// `IMUL32I`, integer multiplication with a 32-bit immediate.
    pub fn imul32i(&mut self, inst: u128) -> (r: Result<(), DecodeError>)
        ensures
            r == unsupported(old(self).state(), inst, seq![Operand::Rd, Operand::Ra, Operand::Rc]),
            *final(self) == *old(self),
    {
        let ops = [Operand::Rd, Operand::Ra, Operand::Rc];
        assert(ops@ == seq![Operand::Rd, Operand::Ra, Operand::Rc]);
        self.reject(inst, &ops)
    }

    /// `ISCADD`, scaled integer addition.
    pub fn iscadd(&mut self, inst: u128) -> (r: Result<(), DecodeError>)
        ensures
            r == unsupported(old(self).state(), inst, seq![Operand::Rd, Operand::Ra, Operand::Rc]),
            *final(self) == *old(self),
    {
        let ops = [Operand::Rd, Operand::Ra, Operand::Rc];
        assert(ops@ == seq![Operand::Rd, Operand::Ra, Operand::Rc]);
        self.reject(inst, &ops)
    }

    /// `ISCADD32I`, scaled integer addition with a 32-bit immediate.
    pub fn iscadd32i(&mut self, inst: u128) -> (r: Result<(), DecodeError>)
        ensures
            r == unsupported(old(self).state(), inst, seq![Operand::Rd, Operand::Ra, Operand::Rc]),
            *final(self) == *old(self),
    {
        let ops = [Operand::Rd, Operand::Ra, Operand::Rc];
        assert(ops@ == seq![Operand::Rd, Operand::Ra, Operand::Rc]);
        self.reject(inst, &ops)
    }

    /// `ISETP`, integer compare, setting predicates.
    pub fn isetp(&mut self, inst: u128) -> (r: Result<(), DecodeError>)
        ensures
            r == unsupported(old(self).state(), inst, seq![Operand::Ra, Operand::Bank]),
            *final(self) == *old(self),
    {
        let ops = [Operand::Ra, Operand::Bank];
        assert(ops@ == seq![Operand::Ra, Operand::Bank]);
        self.reject(inst, &ops)
    }

    /// `LEA`, load effective address.
    pub fn lea(&mut self, inst: u128) -> (r: Result<(), DecodeError>)
        ensures
            r == unsupported(old(self).state(), inst, seq![Operand::Rd, Operand::Ra, Operand::Rc]),
            *final(self) == *old(self),
    {
        let ops = [Operand::Rd, Operand::Ra, Operand::Rc];
        assert(ops@ == seq![Operand::Rd, Operand::Ra, Operand::Rc]);
        self.reject(inst, &ops)
    }

    /// `LOP`, logical operation.
    pub fn lop(&mut self, inst: u128) -> (r: Result<(), DecodeError>)
        ensures
            r == unsupported(old(self).state(), inst, seq![Operand::Rd, Operand::Ra, Operand::Rc]),
            *final(self) == *old(self),
    {
        let ops = [Operand::Rd, Operand::Ra, Operand::Rc];
        assert(ops@ == seq![Operand::Rd, Operand::Ra, Operand::Rc]);
        self.reject(inst, &ops)
    }

    /// `LOP3`, three-input logical operation.
    pub fn lop3(&mut self, inst: u128) -> (r: Result<(), DecodeError>)
        ensures
            r == unsupported(old(self).state(), inst, seq![Operand::Rd, Operand::Ra, Operand::Rc]),
            *final(self) == *old(self),
    {
        let ops = [Operand::Rd, Operand::Ra, Operand::Rc];
        assert(ops@ == seq![Operand::Rd, Operand::Ra, Operand::Rc]);
        self.reject(inst, &ops)
    }

    /// `LOP32I`, logical operation with a 32-bit immediate.
    pub fn lop32i(&mut self, inst: u128) -> (r: Result<(), DecodeError>)
        ensures
            r == unsupported(old(self).state(), inst, seq![Operand::Rd, Operand::Ra, Operand::Rc]),
            *final(self) == *old(self),
    {
        let ops = [Operand::Rd, Operand::Ra, Operand::Rc];
        assert(ops@ == seq![Operand::Rd, Operand::Ra, Operand::Rc]);
        self.reject(inst, &ops)
    }

    /// `MOV`, move.
    pub fn mov(&mut self, inst: u128) -> (r: Result<(), DecodeError>)
        ensures
            r == unsupported(old(self).state(), inst, seq![Operand::Rd, Operand::Bank]),
            *final(self) == *old(self),
    {
        let ops = [Operand::Rd, Operand::Bank];
        assert(ops@ == seq![Operand::Rd, Operand::Bank]);
        self.reject(inst, &ops)
    }

    /// `MOV32I`, move a 32-bit immediate.
    pub fn mov32i(&mut self, inst: u128) -> (r: Result<(), DecodeError>)
        ensures
            r == unsupported(old(self).state(), inst, seq![Operand::Rd]),
            *final(self) == *old(self),
    {
        let ops = [Operand::Rd];
        assert(ops@ == seq![Operand::Rd]);
        self.reject(inst, &ops)
    }

    /// `P2R`, move predicates to a register.
    pub fn p2r(&mut self, inst: u128) -> (r: Result<(), DecodeError>)
        ensures
            r == unsupported(
                old(self).state(),
                inst,
                seq![Operand::Rd, Operand::Ra, Operand::Bank],
            ),
            *final(self) == *old(self),
    {
        let ops = [Operand::Rd, Operand::Ra, Operand::Bank];
        assert(ops@ == seq![Operand::Rd, Operand::Ra, Operand::Bank]);
        self.reject(inst, &ops)
    }

    /// `PLOP3`, three-input predicate logic.
    pub fn plop3(&mut self, inst: u128) -> (r: Result<(), DecodeError>)
        ensures
            r == unsupported(old(self).state(), inst, Seq::<Operand>::empty()),
            *final(self) == *old(self),
    {
        let ops: [Operand; 0] = [];
        assert(ops@ == Seq::<Operand>::empty());
        self.reject(inst, &ops)
    }

    /// `POPC`, population count.
    pub fn popc(&mut self, inst: u128) -> (r: Result<(), DecodeError>)
        ensures
            r == unsupported(old(self).state(), inst, seq![Operand::Rd, Operand::Bank]),
            *final(self) == *old(self),
    {
        let ops = [Operand::Rd, Operand::Bank];
        assert(ops@ == seq![Operand::Rd, Operand::Bank]);
        self.reject(inst, &ops)
    }

    /// `PRMT`, byte permutation.
    pub fn prmt(&mut self, inst: u128) -> (r: Result<(), DecodeError>)
        ensures
            r == unsupported(
                old(self).state(),
                inst,
                seq![Operand::Rd, Operand::Ra, Operand::Rc, Operand::Bank],
            ),
            *final(self) == *old(self),
    {
        let ops = [Operand::Rd, Operand::Ra, Operand::Rc, Operand::Bank];
        assert(ops@ == seq![Operand::Rd, Operand::Ra, Operand::Rc, Operand::Bank]);
        self.reject(inst, &ops)
    }

    /// `PSETP`, combine predicates, setting predicates.
    pub fn psetp(&mut self, inst: u128) -> (r: Result<(), DecodeError>)
        ensures
            r == unsupported(old(self).state(), inst, Seq::<Operand>::empty()),
            *final(self) == *old(self),
    {
        let ops: [Operand; 0] = [];
        assert(ops@ == Seq::<Operand>::empty());
        self.reject(inst, &ops)
    }

    /// `R2P`, move a register to predicates.
    pub fn r2p(&mut self, inst: u128) -> (r: Result<(), DecodeError>)
        ensures
            r == unsupported(old(self).state(), inst, seq![Operand::Ra, Operand::Bank]),
            *final(self) == *old(self),
    {
        let ops = [Operand::Ra, Operand::Bank];
        assert(ops@ == seq![Operand::Ra, Operand::Bank]);
        self.reject(inst, &ops)
    }

    /// `SEL`, select.
    pub fn sel(&mut self, inst: u128) -> (r: Result<(), DecodeError>)
        ensures
            r == unsupported(
                old(self).state(),
                inst,
                seq![Operand::Rd, Operand::Ra, Operand::Bank],
            ),
            *final(self) == *old(self),
    {
        let ops = [Operand::Rd, Operand::Ra, Operand::Bank];
        assert(ops@ == seq![Operand::Rd, Operand::Ra, Operand::Bank]);
        self.reject(inst, &ops)
    }

    /// `SGXT`, sign extension.
    pub fn sgxt(&mut self, inst: u128) -> (r: Result<(), DecodeError>)
        ensures
            r == unsupported(
                old(self).state(),
                inst,
                seq![Operand::Rd, Operand::Ra, Operand::Bank],
            ),
            *final(self) == *old(self),
    {
        let ops = [Operand::Rd, Operand::Ra, Operand::Bank];
        assert(ops@ == seq![Operand::Rd, Operand::Ra, Operand::Bank]);
        self.reject(inst, &ops)
    }

    /// `SHF`, funnel shift.
    pub fn shf(&mut self, inst: u128) -> (r: Result<(), DecodeError>)
        ensures
            r == unsupported(
                old(self).state(),
                inst,
                seq![Operand::Rd, Operand::Ra, Operand::Rc, Operand::Bank],
            ),
            *final(self) == *old(self),
    {
        let ops = [Operand::Rd, Operand::Ra, Operand::Rc, Operand::Bank];
        assert(ops@ == seq![Operand::Rd, Operand::Ra, Operand::Rc, Operand::Bank]);
        self.reject(inst, &ops)
    }

    /// `SHL`, shift left.
    pub fn shl(&mut self, inst: u128) -> (r: Result<(), DecodeError>)
        ensures
            r == unsupported(
                old(self).state(),
                inst,
                seq![Operand::Rd, Operand::Ra, Operand::Rc, Operand::Bank],
            ),
            *final(self) == *old(self),
    {
        let ops = [Operand::Rd, Operand::Ra, Operand::Rc, Operand::Bank];
        assert(ops@ == seq![Operand::Rd, Operand::Ra, Operand::Rc, Operand::Bank]);
        self.reject(inst, &ops)
    }

    /// `SHR`, shift right.
    pub fn shr(&mut self, inst: u128) -> (r: Result<(), DecodeError>)
        ensures
            r == unsupported(
                old(self).state(),
                inst,
                seq![Operand::Rd, Operand::Ra, Operand::Rc, Operand::Bank],
            ),
            *final(self) == *old(self),
    {
        let ops = [Operand::Rd, Operand::Ra, Operand::Rc, Operand::Bank];
        assert(ops@ == seq![Operand::Rd, Operand::Ra, Operand::Rc, Operand::Bank]);
        self.reject(inst, &ops)
    }

    /// `VABSDIFF`, absolute difference.
    pub fn vabsdiff(&mut self, inst: u128) -> (r: Result<(), DecodeError>)
        ensures
            r == unsupported(
                old(self).state(),
                inst,
                seq![Operand::Rd, Operand::Ra, Operand::Rc, Operand::Bank],
            ),
            *final(self) == *old(self),
    {
        let ops = [Operand::Rd, Operand::Ra, Operand::Rc, Operand::Bank];
        assert(ops@ == seq![Operand::Rd, Operand::Ra, Operand::Rc, Operand::Bank]);
        self.reject(inst, &ops)
    }

    /// `VABSDIFF4`, four-way absolute difference.
    pub fn vabsdiff4(&mut self, inst: u128) -> (r: Result<(), DecodeError>)
        ensures
            r == unsupported(
                old(self).state(),
                inst,
                seq![Operand::Rd, Operand::Ra, Operand::Rc, Operand::Bank],
            ),
            *final(self) == *old(self),
    {
        let ops = [Operand::Rd, Operand::Ra, Operand::Rc, Operand::Bank];
        assert(ops@ == seq![Operand::Rd, Operand::Ra, Operand::Rc, Operand::Bank]);
        self.reject(inst, &ops)
    }
}

} // verus!
