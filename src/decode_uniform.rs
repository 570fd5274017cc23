//! Decode routines of the uniform datapath instructions.

use vstd::prelude::*;
use crate::sm86::{Decoder, DecodeError, Operand, unsupported};

verus! {

impl Decoder {
    /// `R2UR`, move a register to a uniform register.
    pub fn r2ur(&mut self, inst: u128) -> (r: Result<(), DecodeError>)
        ensures
            r == unsupported(old(self).state(), inst, seq![Operand::Ra, Operand::Urd]),
            *final(self) == *old(self),
    {
        let ops = [Operand::Ra, Operand::Urd];
        assert(ops@ == seq![Operand::Ra, Operand::Urd]);
        self.reject(inst, &ops)
    }

    /// `S2UR`, move a special register to a uniform register.
    pub fn s2ur(&mut self, inst: u128) -> (r: Result<(), DecodeError>)
        ensures
            r == unsupported(old(self).state(), inst, seq![Operand::Urd]),
            *final(self) == *old(self),
    {
        let ops = [Operand::Urd];
        assert(ops@ == seq![Operand::Urd]);
        self.reject(inst, &ops)
    }

    /// `UBMSK`, uniform bit-field mask.
    pub fn ubmsk(&mut self, inst: u128) -> (r: Result<(), DecodeError>)
        ensures
            r == unsupported(old(self).state(), inst, seq![Operand::Urd, Operand::Urb]),
            *final(self) == *old(self),
    {
        let ops = [Operand::Urd, Operand::Urb];
        assert(ops@ == seq![Operand::Urd, Operand::Urb]);
        self.reject(inst, &ops)
    }

    /// `UBREV`, uniform bit reversal.
    pub fn ubrev(&mut self, inst: u128) -> (r: Result<(), DecodeError>)
        ensures
            r == unsupported(old(self).state(), inst, seq![Operand::Urd, Operand::Urb]),
            *final(self) == *old(self),
    {
        let ops = [Operand::Urd, Operand::Urb];
        assert(ops@ == seq![Operand::Urd, Operand::Urb]);
        self.reject(inst, &ops)
    }

    /// `UCLEA`, uniform load effective address of a constant.
    pub fn uclea(&mut self, inst: u128) -> (r: Result<(), DecodeError>)
        ensures
            r == unsupported(old(self).state(), inst, seq![Operand::Urd]),
            *final(self) == *old(self),
    {
        let ops = [Operand::Urd];
        assert(ops@ == seq![Operand::Urd]);
        self.reject(inst, &ops)
    }

    /// `UF2FP`, uniform conversion to a packed floating-point pair.
    pub fn uf2fp(&mut self, inst: u128) -> (r: Result<(), DecodeError>)
        ensures
            r == unsupported(old(self).state(), inst, seq![Operand::Urd, Operand::Urc]),
            *final(self) == *old(self),
    {
        let ops = [Operand::Urd, Operand::Urc];
        assert(ops@ == seq![Operand::Urd, Operand::Urc]);
        self.reject(inst, &ops)
    }

    /// `UFLO`, uniform find the leading one.
    pub fn uflo(&mut self, inst: u128) -> (r: Result<(), DecodeError>)
        ensures
            r == unsupported(old(self).state(), inst, seq![Operand::Urd, Operand::Urb]),
            *final(self) == *old(self),
    {
        let ops = [Operand::Urd, Operand::Urb];
        assert(ops@ == seq![Operand::Urd, Operand::Urb]);
        self.reject(inst, &ops)
    }

    /// `UIADD3`, uniform three-input integer addition.
    pub fn uiadd3(&mut self, inst: u128) -> (r: Result<(), DecodeError>)
        ensures
            r == unsupported(
                old(self).state(),
                inst,
                seq![Operand::Urd, Operand::Urb, Operand::Urc],
            ),
            *final(self) == *old(self),
    {
        let ops = [Operand::Urd, Operand::Urb, Operand::Urc];
        assert(ops@ == seq![Operand::Urd, Operand::Urb, Operand::Urc]);
        self.reject(inst, &ops)
    }

    /// `UIADD3.64`, uniform three-input 64-bit integer addition.
    pub fn uiadd3_64(&mut self, inst: u128) -> (r: Result<(), DecodeError>)
        ensures
            r == unsupported(
                old(self).state(),
                inst,
                seq![Operand::Urd, Operand::Urb, Operand::Urc],
            ),
            *final(self) == *old(self),
    {
        let ops = [Operand::Urd, Operand::Urb, Operand::Urc];
        assert(ops@ == seq![Operand::Urd, Operand::Urb, Operand::Urc]);
        self.reject(inst, &ops)
    }

    /// `UIMAD`, uniform integer multiply-add.
    pub fn uimad(&mut self, inst: u128) -> (r: Result<(), DecodeError>)
        ensures
            r == unsupported(
                old(self).state(),
                inst,
                seq![Operand::Urd, Operand::Urb, Operand::Urc],
            ),
            *final(self) == *old(self),
    {
        let ops = [Operand::Urd, Operand::Urb, Operand::Urc];
        assert(ops@ == seq![Operand::Urd, Operand::Urb, Operand::Urc]);
        self.reject(inst, &ops)
    }

    /// `UISETP`, uniform integer compare, setting predicates.
    pub fn uisetp(&mut self, inst: u128) -> (r: Result<(), DecodeError>)
        ensures
            r == unsupported(old(self).state(), inst, seq![Operand::Urb]),
            *final(self) == *old(self),
    {
        let ops = [Operand::Urb];
        assert(ops@ == seq![Operand::Urb]);
        self.reject(inst, &ops)
    }

    /// `ULDC`, uniform load from a constant bank.
    pub fn uldc(&mut self, inst: u128) -> (r: Result<(), DecodeError>)
        ensures
            r == unsupported(old(self).state(), inst, seq![Operand::Urd, Operand::Bank]),
            *final(self) == *old(self),
    {
        let ops = [Operand::Urd, Operand::Bank];
        assert(ops@ == seq![Operand::Urd, Operand::Bank]);
        self.reject(inst, &ops)
    }

    /// `ULEA`, uniform load effective address.
    pub fn ulea(&mut self, inst: u128) -> (r: Result<(), DecodeError>)
        ensures
            r == unsupported(old(self).state(), inst, seq![Operand::Urd, Operand::Urc]),
            *final(self) == *old(self),
    {
        let ops = [Operand::Urd, Operand::Urc];
        assert(ops@ == seq![Operand::Urd, Operand::Urc]);
        self.reject(inst, &ops)
    }

    /// `ULOP`, uniform logical operation.
    pub fn ulop(&mut self, inst: u128) -> (r: Result<(), DecodeError>)
        ensures
            r == unsupported(old(self).state(), inst, seq![Operand::Urd, Operand::Urc]),
            *final(self) == *old(self),
    {
        let ops = [Operand::Urd, Operand::Urc];
        assert(ops@ == seq![Operand::Urd, Operand::Urc]);
        self.reject(inst, &ops)
    }

    /// `ULOP3`, uniform three-input logical operation.
    pub fn ulop3(&mut self, inst: u128) -> (r: Result<(), DecodeError>)
        ensures
            r == unsupported(old(self).state(), inst, seq![Operand::Urd, Operand::Urc]),
            *final(self) == *old(self),
    {
        let ops = [Operand::Urd, Operand::Urc];
        assert(ops@ == seq![Operand::Urd, Operand::Urc]);
        self.reject(inst, &ops)
    }

    /// `ULOP32I`, uniform logical operation with a 32-bit immediate.
    pub fn ulop32i(&mut self, inst: u128) -> (r: Result<(), DecodeError>)
        ensures
            r == unsupported(old(self).state(), inst, seq![Operand::Urd, Operand::Urc]),
            *final(self) == *old(self),
    {
        let ops = [Operand::Urd, Operand::Urc];
        assert(ops@ == seq![Operand::Urd, Operand::Urc]);
        self.reject(inst, &ops)
    }

    /// `UMOV`, uniform move.
    pub fn umov(&mut self, inst: u128) -> (r: Result<(), DecodeError>)
        ensures
            r == unsupported(old(self).state(), inst, seq![Operand::Urd]),
            *final(self) == *old(self),
    {
        let ops = [Operand::Urd];
        assert(ops@ == seq![Operand::Urd]);
        self.reject(inst, &ops)
    }

    /// `UP2UR`, move uniform predicates to a uniform register.
    pub fn up2ur(&mut self, inst: u128) -> (r: Result<(), DecodeError>)
        ensures
            r == unsupported(old(self).state(), inst, seq![Operand::Urd]),
            *final(self) == *old(self),
    {
        let ops = [Operand::Urd];
        assert(ops@ == seq![Operand::Urd]);
        self.reject(inst, &ops)
    }

    /// `UPLOP3`, uniform three-input predicate logic.
    pub fn uplop3(&mut self, inst: u128) -> (r: Result<(), DecodeError>)
        ensures
            r == unsupported(old(self).state(), inst, Seq::<Operand>::empty()),
            *final(self) == *old(self),
    {
        let ops: [Operand; 0] = [];
        assert(ops@ == Seq::<Operand>::empty());
        self.reject(inst, &ops)
    }

    /// `UPOPC`, uniform population count.
    pub fn upopc(&mut self, inst: u128) -> (r: Result<(), DecodeError>)
        ensures
            r == unsupported(old(self).state(), inst, seq![Operand::Urd, Operand::Urb]),
            *final(self) == *old(self),
    {
        let ops = [Operand::Urd, Operand::Urb];
        assert(ops@ == seq![Operand::Urd, Operand::Urb]);
        self.reject(inst, &ops)
    }

    /// `UPRMT`, uniform byte permutation.
    pub fn uprmt(&mut self, inst: u128) -> (r: Result<(), DecodeError>)
        ensures
            r == unsupported(old(self).state(), inst, seq![Operand::Urd, Operand::Urc]),
            *final(self) == *old(self),
    {
        let ops = [Operand::Urd, Operand::Urc];
        assert(ops@ == seq![Operand::Urd, Operand::Urc]);
        self.reject(inst, &ops)
    }

    /// `UPSETP`, uniform combine predicates, setting predicates.
    pub fn upsetp(&mut self, inst: u128) -> (r: Result<(), DecodeError>)
        ensures
            r == unsupported(old(self).state(), inst, Seq::<Operand>::empty()),
            *final(self) == *old(self),
    {
        let ops: [Operand; 0] = [];
        assert(ops@ == Seq::<Operand>::empty());
        self.reject(inst, &ops)
    }

    /// `UR2UP`, move a uniform register to uniform predicates.
    pub fn ur2up(&mut self, inst: u128) -> (r: Result<(), DecodeError>)
        ensures
            r == unsupported(old(self).state(), inst, Seq::<Operand>::empty()),
            *final(self) == *old(self),
    {
        let ops: [Operand; 0] = [];
        assert(ops@ == Seq::<Operand>::empty());
        self.reject(inst, &ops)
    }

    /// `USEL`, uniform select.
    pub fn usel(&mut self, inst: u128) -> (r: Result<(), DecodeError>)
        ensures
            r == unsupported(old(self).state(), inst, seq![Operand::Urd, Operand::Urb]),
            *final(self) == *old(self),
    {
        let ops = [Operand::Urd, Operand::Urb];
        assert(ops@ == seq![Operand::Urd, Operand::Urb]);
        self.reject(inst, &ops)
    }

    /// `USGXT`, uniform sign extension.
    pub fn usgxt(&mut self, inst: u128) -> (r: Result<(), DecodeError>)
        ensures
            r == unsupported(old(self).state(), inst, seq![Operand::Urd, Operand::Urb]),
            *final(self) == *old(self),
    {
        let ops = [Operand::Urd, Operand::Urb];
        assert(ops@ == seq![Operand::Urd, Operand::Urb]);
        self.reject(inst, &ops)
    }

    /// `USHF`, uniform funnel shift.
    pub fn ushf(&mut self, inst: u128) -> (r: Result<(), DecodeError>)
        ensures
            r == unsupported(
                old(self).state(),
                inst,
                seq![Operand::Urd, Operand::Urb, Operand::Urc],
            ),
            *final(self) == *old(self),
    {
        let ops = [Operand::Urd, Operand::Urb, Operand::Urc];
        assert(ops@ == seq![Operand::Urd, Operand::Urb, Operand::Urc]);
        self.reject(inst, &ops)
    }

    /// `USHL`, uniform shift left.
    pub fn ushl(&mut self, inst: u128) -> (r: Result<(), DecodeError>)
        ensures
            r == unsupported(
                old(self).state(),
                inst,
                seq![Operand::Urd, Operand::Urb, Operand::Urc],
            ),
            *final(self) == *old(self),
    {
        let ops = [Operand::Urd, Operand::Urb, Operand::Urc];
        assert(ops@ == seq![Operand::Urd, Operand::Urb, Operand::Urc]);
        self.reject(inst, &ops)
    }

    /// `USHR`, uniform shift right.
    pub fn ushr(&mut self, inst: u128) -> (r: Result<(), DecodeError>)
        ensures
            r == unsupported(old(self).state(), inst, seq![Operand::Urd, Operand::Urc]),
            *final(self) == *old(self),
    {
        let ops = [Operand::Urd, Operand::Urc];
        assert(ops@ == seq![Operand::Urd, Operand::Urc]);
        self.reject(inst, &ops)
    }
}

} // verus!
