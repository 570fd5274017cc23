//! Decode routines of the texture, surface and ray-tracing unit instructions.

use vstd::prelude::*;
use crate::sm86::{Decoder, DecodeError, Operand, unsupported};

verus! {

impl Decoder {
    /// `FOOTPRINT`, texture footprint query.
    pub fn footprint(&mut self, inst: u128) -> (r: Result<(), DecodeError>)
        ensures
            r == unsupported(
                old(self).state(),
                inst,
                seq![Operand::Rd, Operand::Ra, Operand::Rb, Operand::Rc, Operand::Bank],
            ),
            *final(self) == *old(self),
    {
        let ops = [Operand::Rd, Operand::Ra, Operand::Rb, Operand::Rc, Operand::Bank];
        assert(ops@ == seq![Operand::Rd, Operand::Ra, Operand::Rb, Operand::Rc, Operand::Bank]);
        self.reject(inst, &ops)
    }

    /// `GATHER`, gather from a thread group.
    pub fn gather(&mut self, inst: u128) -> (r: Result<(), DecodeError>)
        ensures
            r == unsupported(
                old(self).state(),
                inst,
                seq![Operand::Rd, Operand::Ra, Operand::Rb, Operand::Rc],
            ),
            *final(self) == *old(self),
    {
        let ops = [Operand::Rd, Operand::Ra, Operand::Rb, Operand::Rc];
        assert(ops@ == seq![Operand::Rd, Operand::Ra, Operand::Rb, Operand::Rc]);
        self.reject(inst, &ops)
    }

    /// `SCATTER`, scatter to a thread group.
    pub fn scatter(&mut self, inst: u128) -> (r: Result<(), DecodeError>)
        ensures
            r == unsupported(
                old(self).state(),
                inst,
                seq![Operand::Rd, Operand::Ra, Operand::Rb, Operand::Rc],
            ),
            *final(self) == *old(self),
    {
        let ops = [Operand::Rd, Operand::Ra, Operand::Rb, Operand::Rc];
        assert(ops@ == seq![Operand::Rd, Operand::Ra, Operand::Rb, Operand::Rc]);
        self.reject(inst, &ops)
    }

    /// `SUATOM`, atomic operation on a surface.
    pub fn suatom(&mut self, inst: u128) -> (r: Result<(), DecodeError>)
        ensures
            r == unsupported(
                old(self).state(),
                inst,
                seq![Operand::Rd, Operand::Ra, Operand::Rb, Operand::Bank],
            ),
            *final(self) == *old(self),
    {
        let ops = [Operand::Rd, Operand::Ra, Operand::Rb, Operand::Bank];
        assert(ops@ == seq![Operand::Rd, Operand::Ra, Operand::Rb, Operand::Bank]);
        self.reject(inst, &ops)
    }

    /// `SULD`, load from a surface.
    pub fn suld(&mut self, inst: u128) -> (r: Result<(), DecodeError>)
        ensures
            r == unsupported(
                old(self).state(),
                inst,
                seq![Operand::Rd, Operand::Ra, Operand::Bank],
            ),
            *final(self) == *old(self),
    {
        let ops = [Operand::Rd, Operand::Ra, Operand::Bank];
        assert(ops@ == seq![Operand::Rd, Operand::Ra, Operand::Bank]);
        self.reject(inst, &ops)
    }

    /// `SUQUERY`, surface query.
    pub fn suquery(&mut self, inst: u128) -> (r: Result<(), DecodeError>)
        ensures
            r == unsupported(
                old(self).state(),
                inst,
                seq![Operand::Rd, Operand::Ra, Operand::Bank],
            ),
            *final(self) == *old(self),
    {
        let ops = [Operand::Rd, Operand::Ra, Operand::Bank];
        assert(ops@ == seq![Operand::Rd, Operand::Ra, Operand::Bank]);
        self.reject(inst, &ops)
    }

    /// `SURED`, reduction on a surface.
    pub fn sured(&mut self, inst: u128) -> (r: Result<(), DecodeError>)
        ensures
            r == unsupported(
                old(self).state(),
                inst,
                seq![Operand::Ra, Operand::Rb, Operand::Bank],
            ),
            *final(self) == *old(self),
    {
        let ops = [Operand::Ra, Operand::Rb, Operand::Bank];
        assert(ops@ == seq![Operand::Ra, Operand::Rb, Operand::Bank]);
        self.reject(inst, &ops)
    }

    /// `SUST`, store to a surface.
    pub fn sust(&mut self, inst: u128) -> (r: Result<(), DecodeError>)
        ensures
            r == unsupported(
                old(self).state(),
                inst,
                seq![Operand::Ra, Operand::Rb, Operand::Bank],
            ),
            *final(self) == *old(self),
    {
        let ops = [Operand::Ra, Operand::Rb, Operand::Bank];
        assert(ops@ == seq![Operand::Ra, Operand::Rb, Operand::Bank]);
        self.reject(inst, &ops)
    }

    /// `TEX`, texture fetch.
    pub fn tex(&mut self, inst: u128) -> (r: Result<(), DecodeError>)
        ensures
            r == unsupported(
                old(self).state(),
                inst,
                seq![Operand::Rd, Operand::Ra, Operand::Rb, Operand::Rc, Operand::Bank],
            ),
            *final(self) == *old(self),
    {
        let ops = [Operand::Rd, Operand::Ra, Operand::Rb, Operand::Rc, Operand::Bank];
        assert(ops@ == seq![Operand::Rd, Operand::Ra, Operand::Rb, Operand::Rc, Operand::Bank]);
        self.reject(inst, &ops)
    }

    /// `TLD`, texture load.
    pub fn tld(&mut self, inst: u128) -> (r: Result<(), DecodeError>)
        ensures
            r == unsupported(
                old(self).state(),
                inst,
                seq![Operand::Rd, Operand::Ra, Operand::Rb, Operand::Rc, Operand::Bank],
            ),
            *final(self) == *old(self),
    {
        let ops = [Operand::Rd, Operand::Ra, Operand::Rb, Operand::Rc, Operand::Bank];
        assert(ops@ == seq![Operand::Rd, Operand::Ra, Operand::Rb, Operand::Rc, Operand::Bank]);
        self.reject(inst, &ops)
    }

    /// `TLD4`, texture gather of four texels.
    pub fn tld4(&mut self, inst: u128) -> (r: Result<(), DecodeError>)
        ensures
            r == unsupported(
                old(self).state(),
                inst,
                seq![Operand::Rd, Operand::Ra, Operand::Rb, Operand::Rc, Operand::Bank],
            ),
            *final(self) == *old(self),
    {
        let ops = [Operand::Rd, Operand::Ra, Operand::Rb, Operand::Rc, Operand::Bank];
        assert(ops@ == seq![Operand::Rd, Operand::Ra, Operand::Rb, Operand::Rc, Operand::Bank]);
        self.reject(inst, &ops)
    }

    /// `TMML`, texture mip-map level query.
    pub fn tmml(&mut self, inst: u128) -> (r: Result<(), DecodeError>)
        ensures
            r == unsupported(
                old(self).state(),
                inst,
                seq![Operand::Rd, Operand::Ra, Operand::Rb, Operand::Rc, Operand::Bank],
            ),
            *final(self) == *old(self),
    {
        let ops = [Operand::Rd, Operand::Ra, Operand::Rb, Operand::Rc, Operand::Bank];
        assert(ops@ == seq![Operand::Rd, Operand::Ra, Operand::Rb, Operand::Rc, Operand::Bank]);
        self.reject(inst, &ops)
    }

    /// `TTUCCTL`, ray-tracing unit cache control.
    pub fn ttucctl(&mut self, inst: u128) -> (r: Result<(), DecodeError>)
        ensures
            r == unsupported(old(self).state(), inst, Seq::<Operand>::empty()),
            *final(self) == *old(self),
    {
        let ops: [Operand; 0] = [];
        assert(ops@ == Seq::<Operand>::empty());
        self.reject(inst, &ops)
    }

    /// `TTUCLOSE`, close a ray-tracing unit session.
    pub fn ttuclose(&mut self, inst: u128) -> (r: Result<(), DecodeError>)
        ensures
            r == unsupported(old(self).state(), inst, seq![Operand::Rd, Operand::Rc]),
            *final(self) == *old(self),
    {
        let ops = [Operand::Rd, Operand::Rc];
        assert(ops@ == seq![Operand::Rd, Operand::Rc]);
        self.reject(inst, &ops)
    }

    /// `TTUGO`, start ray-tracing unit traversal.
    pub fn ttugo(&mut self, inst: u128) -> (r: Result<(), DecodeError>)
        ensures
            r == unsupported(old(self).state(), inst, Seq::<Operand>::empty()),
            *final(self) == *old(self),
    {
        let ops: [Operand; 0] = [];
        assert(ops@ == Seq::<Operand>::empty());
        self.reject(inst, &ops)
    }

    /// `TTULD`, load from the ray-tracing unit.
    pub fn ttuld(&mut self, inst: u128) -> (r: Result<(), DecodeError>)
        ensures
            r == unsupported(old(self).state(), inst, seq![Operand::Rd, Operand::Rc]),
            *final(self) == *old(self),
    {
        let ops = [Operand::Rd, Operand::Rc];
        assert(ops@ == seq![Operand::Rd, Operand::Rc]);
        self.reject(inst, &ops)
    }

    /// `TTUMACROFUSE`, fused ray-tracing unit macro.
    pub fn ttumacrofuse(&mut self, inst: u128) -> (r: Result<(), DecodeError>)
        ensures
            r == unsupported(old(self).state(), inst, Seq::<Operand>::empty()),
            *final(self) == *old(self),
    {
        let ops: [Operand; 0] = [];
        assert(ops@ == Seq::<Operand>::empty());
        self.reject(inst, &ops)
    }

    /// `TTUOPEN`, open a ray-tracing unit session.
    pub fn ttuopen(&mut self, inst: u128) -> (r: Result<(), DecodeError>)
        ensures
            r == unsupported(old(self).state(), inst, Seq::<Operand>::empty()),
            *final(self) == *old(self),
    {
        let ops: [Operand; 0] = [];
        assert(ops@ == Seq::<Operand>::empty());
        self.reject(inst, &ops)
    }

    /// `TTUST`, store to the ray-tracing unit.
    pub fn ttust(&mut self, inst: u128) -> (r: Result<(), DecodeError>)
        ensures
            r == unsupported(old(self).state(), inst, seq![Operand::Rb, Operand::Rc]),
            *final(self) == *old(self),
    {
        let ops = [Operand::Rb, Operand::Rc];
        assert(ops@ == seq![Operand::Rb, Operand::Rc]);
        self.reject(inst, &ops)
    }

    /// `TXD`, texture fetch with derivatives.
    pub fn txd(&mut self, inst: u128) -> (r: Result<(), DecodeError>)
        ensures
            r == unsupported(
                old(self).state(),
                inst,
                seq![Operand::Rd, Operand::Ra, Operand::Rb, Operand::Rc, Operand::Bank],
            ),
            *final(self) == *old(self),
    {
        let ops = [Operand::Rd, Operand::Ra, Operand::Rb, Operand::Rc, Operand::Bank];
        assert(ops@ == seq![Operand::Rd, Operand::Ra, Operand::Rb, Operand::Rc, Operand::Bank]);
        self.reject(inst, &ops)
    }

    /// `TXQ`, texture query.
    pub fn txq(&mut self, inst: u128) -> (r: Result<(), DecodeError>)
        ensures
            r == unsupported(
                old(self).state(),
                inst,
                seq![Operand::Rd, Operand::Ra, Operand::Rc, Operand::Bank],
            ),
            *final(self) == *old(self),
    {
        let ops = [Operand::Rd, Operand::Ra, Operand::Rc, Operand::Bank];
        assert(ops@ == seq![Operand::Rd, Operand::Ra, Operand::Rc, Operand::Bank]);
        self.reject(inst, &ops)
    }
}

} // verus!
