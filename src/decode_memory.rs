//! Decode routines of the memory access instructions.

use vstd::prelude::*;
use crate::sm86::{Decoder, DecodeError, Operand, unsupported};

verus! {

impl Decoder {
    /// `ALD`, attribute load.
    pub fn ald(&mut self, inst: u128) -> (r: Result<(), DecodeError>)
        ensures
            r == unsupported(old(self).state(), inst, seq![Operand::Rd, Operand::Ra, Operand::Rb]),
            *final(self) == *old(self),
    {
        let ops = [Operand::Rd, Operand::Ra, Operand::Rb];
        assert(ops@ == seq![Operand::Rd, Operand::Ra, Operand::Rb]);
        self.reject(inst, &ops)
    }

    /// `ARRIVES`, arrive-on for an asynchronous barrier.
    pub fn arrives(&mut self, inst: u128) -> (r: Result<(), DecodeError>)
        ensures
            r == unsupported(old(self).state(), inst, seq![Operand::Ra, Operand::Urc]),
            *final(self) == *old(self),
    {
        let ops = [Operand::Ra, Operand::Urc];
        assert(ops@ == seq![Operand::Ra, Operand::Urc]);
        self.reject(inst, &ops)
    }

    /// `AST`, attribute store.
    pub fn ast(&mut self, inst: u128) -> (r: Result<(), DecodeError>)
        ensures
            r == unsupported(old(self).state(), inst, seq![Operand::Ra, Operand::Rb, Operand::Rc]),
            *final(self) == *old(self),
    {
        let ops = [Operand::Ra, Operand::Rb, Operand::Rc];
        assert(ops@ == seq![Operand::Ra, Operand::Rb, Operand::Rc]);
        self.reject(inst, &ops)
    }

    /// `ATOM`, atomic operation on generic memory.
    pub fn atom(&mut self, inst: u128) -> (r: Result<(), DecodeError>)
        ensures
            r == unsupported(old(self).state(), inst, seq![Operand::Rd, Operand::Ra, Operand::Rb]),
            *final(self) == *old(self),
    {
        let ops = [Operand::Rd, Operand::Ra, Operand::Rb];
        assert(ops@ == seq![Operand::Rd, Operand::Ra, Operand::Rb]);
        self.reject(inst, &ops)
    }

    /// `ATOMG`, atomic operation on global memory.
    pub fn atomg(&mut self, inst: u128) -> (r: Result<(), DecodeError>)
        ensures
            r == unsupported(old(self).state(), inst, seq![Operand::Rd, Operand::Ra, Operand::Rb]),
            *final(self) == *old(self),
    {
        let ops = [Operand::Rd, Operand::Ra, Operand::Rb];
        assert(ops@ == seq![Operand::Rd, Operand::Ra, Operand::Rb]);
        self.reject(inst, &ops)
    }

    /// `ATOMS`, atomic operation on shared memory.
    pub fn atoms(&mut self, inst: u128) -> (r: Result<(), DecodeError>)
        ensures
            r == unsupported(old(self).state(), inst, seq![Operand::Rd, Operand::Ra, Operand::Rb]),
            *final(self) == *old(self),
    {
        let ops = [Operand::Rd, Operand::Ra, Operand::Rb];
        assert(ops@ == seq![Operand::Rd, Operand::Ra, Operand::Rb]);
        self.reject(inst, &ops)
    }

    /// `CCTL`, cache control.
    pub fn cctl(&mut self, inst: u128) -> (r: Result<(), DecodeError>)
        ensures
            r == unsupported(old(self).state(), inst, seq![Operand::Ra]),
            *final(self) == *old(self),
    {
        let ops = [Operand::Ra];
        assert(ops@ == seq![Operand::Ra]);
        self.reject(inst, &ops)
    }

    /// `CCTLL`, cache control on local memory.
    pub fn cctll(&mut self, inst: u128) -> (r: Result<(), DecodeError>)
        ensures
            r == unsupported(old(self).state(), inst, seq![Operand::Ra]),
            *final(self) == *old(self),
    {
        let ops = [Operand::Ra];
        assert(ops@ == seq![Operand::Ra]);
        self.reject(inst, &ops)
    }

    /// `CCTLT`, texture cache control.
    pub fn cctlt(&mut self, inst: u128) -> (r: Result<(), DecodeError>)
        ensures
            r == unsupported(old(self).state(), inst, seq![Operand::Rb]),
            *final(self) == *old(self),
    {
        let ops = [Operand::Rb];
        assert(ops@ == seq![Operand::Rb]);
        self.reject(inst, &ops)
    }

    /// `DEPBAR`, dependency barrier.
    pub fn depbar(&mut self, inst: u128) -> (r: Result<(), DecodeError>)
        ensures
            r == unsupported(old(self).state(), inst, seq![Operand::Urb]),
            *final(self) == *old(self),
    {
        let ops = [Operand::Urb];
        assert(ops@ == seq![Operand::Urb]);
        self.reject(inst, &ops)
    }

    /// `ERRBAR`, error barrier.
    pub fn errbar(&mut self, inst: u128) -> (r: Result<(), DecodeError>)
        ensures
            r == unsupported(old(self).state(), inst, Seq::<Operand>::empty()),
            *final(self) == *old(self),
    {
        let ops: [Operand; 0] = [];
        assert(ops@ == Seq::<Operand>::empty());
        self.reject(inst, &ops)
    }

    /// `GETLMEMBASE`, read the local memory base.
    pub fn getlmembase(&mut self, inst: u128) -> (r: Result<(), DecodeError>)
        ensures
            r == unsupported(old(self).state(), inst, seq![Operand::Rd]),
            *final(self) == *old(self),
    {
        let ops = [Operand::Rd];
        assert(ops@ == seq![Operand::Rd]);
        self.reject(inst, &ops)
    }

    /// `IPA`, interpolate an attribute.
    pub fn ipa(&mut self, inst: u128) -> (r: Result<(), DecodeError>)
        ensures
            r == unsupported(old(self).state(), inst, seq![Operand::Rd, Operand::Rb, Operand::Rc]),
            *final(self) == *old(self),
    {
        let ops = [Operand::Rd, Operand::Rb, Operand::Rc];
        assert(ops@ == seq![Operand::Rd, Operand::Rb, Operand::Rc]);
        self.reject(inst, &ops)
    }

    /// `ISBERD`, read from the internal stage buffer.
    pub fn isberd(&mut self, inst: u128) -> (r: Result<(), DecodeError>)
        ensures
            r == unsupported(old(self).state(), inst, seq![Operand::Rd, Operand::Ra]),
            *final(self) == *old(self),
    {
        let ops = [Operand::Rd, Operand::Ra];
        assert(ops@ == seq![Operand::Rd, Operand::Ra]);
        self.reject(inst, &ops)
    }

    /// `ISBEWR`, write to the internal stage buffer.
    pub fn isbewr(&mut self, inst: u128) -> (r: Result<(), DecodeError>)
        ensures
            r == unsupported(old(self).state(), inst, seq![Operand::Ra, Operand::Rb]),
            *final(self) == *old(self),
    {
        let ops = [Operand::Ra, Operand::Rb];
        assert(ops@ == seq![Operand::Ra, Operand::Rb]);
        self.reject(inst, &ops)
    }

    /// `LD`, load from generic memory.
    pub fn ld(&mut self, inst: u128) -> (r: Result<(), DecodeError>)
        ensures
            r == unsupported(old(self).state(), inst, seq![Operand::Rd, Operand::Ra]),
            *final(self) == *old(self),
    {
        let ops = [Operand::Rd, Operand::Ra];
        assert(ops@ == seq![Operand::Rd, Operand::Ra]);
        self.reject(inst, &ops)
    }

    /// `LDC`, load from a constant bank.
    pub fn ldc(&mut self, inst: u128) -> (r: Result<(), DecodeError>)
        ensures
            r == unsupported(
                old(self).state(),
                inst,
                seq![Operand::Rd, Operand::Ra, Operand::Bank],
            ),
            *final(self) == *old(self),
    {
        let ops = [Operand::Rd, Operand::Ra, Operand::Bank];
        assert(ops@ == seq![Operand::Rd, Operand::Ra, Operand::Bank]);
        self.reject(inst, &ops)
    }

    /// `LDG`, load from global memory.
    pub fn ldg(&mut self, inst: u128) -> (r: Result<(), DecodeError>)
        ensures
            r == unsupported(old(self).state(), inst, seq![Operand::Rd, Operand::Ra]),
            *final(self) == *old(self),
    {
        let ops = [Operand::Rd, Operand::Ra];
        assert(ops@ == seq![Operand::Rd, Operand::Ra]);
        self.reject(inst, &ops)
    }

    /// `LDGDEPBAR`, dependency barrier for asynchronous global loads.
    pub fn ldgdepbar(&mut self, inst: u128) -> (r: Result<(), DecodeError>)
        ensures
            r == unsupported(old(self).state(), inst, Seq::<Operand>::empty()),
            *final(self) == *old(self),
    {
        let ops: [Operand; 0] = [];
        assert(ops@ == Seq::<Operand>::empty());
        self.reject(inst, &ops)
    }

    /// `LDGSTS`, asynchronous copy from global to shared memory.
    pub fn ldgsts(&mut self, inst: u128) -> (r: Result<(), DecodeError>)
        ensures
            r == unsupported(old(self).state(), inst, seq![Operand::Rd, Operand::Ra, Operand::Urc]),
            *final(self) == *old(self),
    {
        let ops = [Operand::Rd, Operand::Ra, Operand::Urc];
        assert(ops@ == seq![Operand::Rd, Operand::Ra, Operand::Urc]);
        self.reject(inst, &ops)
    }

    /// `LDL`, load from local memory.
    pub fn ldl(&mut self, inst: u128) -> (r: Result<(), DecodeError>)
        ensures
            r == unsupported(old(self).state(), inst, seq![Operand::Rd, Operand::Ra]),
            *final(self) == *old(self),
    {
        let ops = [Operand::Rd, Operand::Ra];
        assert(ops@ == seq![Operand::Rd, Operand::Ra]);
        self.reject(inst, &ops)
    }

    /// `LDS`, load from shared memory.
    pub fn lds(&mut self, inst: u128) -> (r: Result<(), DecodeError>)
        ensures
            r == unsupported(old(self).state(), inst, seq![Operand::Rd, Operand::Ra]),
            *final(self) == *old(self),
    {
        let ops = [Operand::Rd, Operand::Ra];
        assert(ops@ == seq![Operand::Rd, Operand::Ra]);
        self.reject(inst, &ops)
    }

    /// `LDTRAM`, load from the attribute RAM.
    pub fn ldtram(&mut self, inst: u128) -> (r: Result<(), DecodeError>)
        ensures
            r == unsupported(old(self).state(), inst, seq![Operand::Rd, Operand::Rc]),
            *final(self) == *old(self),
    {
        let ops = [Operand::Rd, Operand::Rc];
        assert(ops@ == seq![Operand::Rd, Operand::Rc]);
        self.reject(inst, &ops)
    }

    /// `MEMBAR`, memory barrier.
    pub fn membar(&mut self, inst: u128) -> (r: Result<(), DecodeError>)
        ensures
            r == unsupported(old(self).state(), inst, Seq::<Operand>::empty()),
            *final(self) == *old(self),
    {
        let ops: [Operand; 0] = [];
        assert(ops@ == Seq::<Operand>::empty());
        self.reject(inst, &ops)
    }

    /// `OUT`, output a primitive.
    pub fn out(&mut self, inst: u128) -> (r: Result<(), DecodeError>)
        ensures
            r == unsupported(old(self).state(), inst, seq![Operand::Rd, Operand::Ra, Operand::Rb]),
            *final(self) == *old(self),
    {
        let ops = [Operand::Rd, Operand::Ra, Operand::Rb];
        assert(ops@ == seq![Operand::Rd, Operand::Ra, Operand::Rb]);
        self.reject(inst, &ops)
    }

    /// `PIXLD`, load a pixel attribute.
    pub fn pixld(&mut self, inst: u128) -> (r: Result<(), DecodeError>)
        ensures
            r == unsupported(old(self).state(), inst, seq![Operand::Rd]),
            *final(self) == *old(self),
    {
        let ops = [Operand::Rd];
        assert(ops@ == seq![Operand::Rd]);
        self.reject(inst, &ops)
    }

    /// `QSPC`, query the memory space of an address.
    pub fn qspc(&mut self, inst: u128) -> (r: Result<(), DecodeError>)
        ensures
            r == unsupported(old(self).state(), inst, seq![Operand::Rd, Operand::Ra]),
            *final(self) == *old(self),
    {
        let ops = [Operand::Rd, Operand::Ra];
        assert(ops@ == seq![Operand::Rd, Operand::Ra]);
        self.reject(inst, &ops)
    }

    /// `RED`, reduction on global memory.
    pub fn red(&mut self, inst: u128) -> (r: Result<(), DecodeError>)
        ensures
            r == unsupported(old(self).state(), inst, seq![Operand::Ra, Operand::Rb]),
            *final(self) == *old(self),
    {
        let ops = [Operand::Ra, Operand::Rb];
        assert(ops@ == seq![Operand::Ra, Operand::Rb]);
        self.reject(inst, &ops)
    }

    /// `SETLMEMBASE`, set the local memory base.
    pub fn setlmembase(&mut self, inst: u128) -> (r: Result<(), DecodeError>)
        ensures
            r == unsupported(old(self).state(), inst, seq![Operand::Ra]),
            *final(self) == *old(self),
    {
        let ops = [Operand::Ra];
        assert(ops@ == seq![Operand::Ra]);
        self.reject(inst, &ops)
    }

    /// `ST`, store to generic memory.
    pub fn st(&mut self, inst: u128) -> (r: Result<(), DecodeError>)
        ensures
            r == unsupported(old(self).state(), inst, seq![Operand::Ra, Operand::Rc]),
            *final(self) == *old(self),
    {
        let ops = [Operand::Ra, Operand::Rc];
        assert(ops@ == seq![Operand::Ra, Operand::Rc]);
        self.reject(inst, &ops)
    }

    /// `STG`, store to global memory.
    pub fn stg(&mut self, inst: u128) -> (r: Result<(), DecodeError>)
        ensures
            r == unsupported(old(self).state(), inst, seq![Operand::Ra, Operand::Rb]),
            *final(self) == *old(self),
    {
        let ops = [Operand::Ra, Operand::Rb];
        assert(ops@ == seq![Operand::Ra, Operand::Rb]);
        self.reject(inst, &ops)
    }

    /// `STL`, store to local memory.
    pub fn stl(&mut self, inst: u128) -> (r: Result<(), DecodeError>)
        ensures
            r == unsupported(old(self).state(), inst, seq![Operand::Ra, Operand::Rb]),
            *final(self) == *old(self),
    {
        let ops = [Operand::Ra, Operand::Rb];
        assert(ops@ == seq![Operand::Ra, Operand::Rb]);
        self.reject(inst, &ops)
    }

    /// `STS`, store to shared memory.
    pub fn sts(&mut self, inst: u128) -> (r: Result<(), DecodeError>)
        ensures
            r == unsupported(old(self).state(), inst, seq![Operand::Ra, Operand::Rb]),
            *final(self) == *old(self),
    {
        let ops = [Operand::Ra, Operand::Rb];
        assert(ops@ == seq![Operand::Ra, Operand::Rb]);
        self.reject(inst, &ops)
    }
}

} // verus!
