//! Decode routines of the control flow, synchronization and warp instructions.

use vstd::prelude::*;
use crate::sm86::{Decoder, DecodeError, Operand, unsupported};

verus! {

impl Decoder {
    /// `B2R`, move a barrier state to a register.
    pub fn b2r(&mut self, inst: u128) -> (r: Result<(), DecodeError>)
        ensures
            r == unsupported(old(self).state(), inst, seq![Operand::Rd]),
            *final(self) == *old(self),
    {
        let ops = [Operand::Rd];
        assert(ops@ == seq![Operand::Rd]);
        self.reject(inst, &ops)
    }

    /// `BAR`, barrier synchronization.
    pub fn bar(&mut self, inst: u128) -> (r: Result<(), DecodeError>)
        ensures
            r == unsupported(old(self).state(), inst, Seq::<Operand>::empty()),
            *final(self) == *old(self),
    {
        let ops: [Operand; 0] = [];
        assert(ops@ == Seq::<Operand>::empty());
        self.reject(inst, &ops)
    }

    /// `BMOV`, move to or from a convergence barrier register.
    pub fn bmov(&mut self, inst: u128) -> (r: Result<(), DecodeError>)
        ensures
            r == unsupported(old(self).state(), inst, seq![Operand::Rd]),
            *final(self) == *old(self),
    {
        let ops = [Operand::Rd];
        assert(ops@ == seq![Operand::Rd]);
        self.reject(inst, &ops)
    }

    /// `BPT`, breakpoint or trap.
    pub fn bpt(&mut self, inst: u128) -> (r: Result<(), DecodeError>)
        ensures
            r == unsupported(old(self).state(), inst, Seq::<Operand>::empty()),
            *final(self) == *old(self),
    {
        let ops: [Operand; 0] = [];
        assert(ops@ == Seq::<Operand>::empty());
        self.reject(inst, &ops)
    }

    /// `BRA`, relative branch.
    pub fn bra(&mut self, inst: u128) -> (r: Result<(), DecodeError>)
        ensures
            r == unsupported(old(self).state(), inst, Seq::<Operand>::empty()),
            *final(self) == *old(self),
    {
        let ops: [Operand; 0] = [];
        assert(ops@ == Seq::<Operand>::empty());
        self.reject(inst, &ops)
    }

    /// `BREAK`, break out of a convergence barrier.
    pub fn break_(&mut self, inst: u128) -> (r: Result<(), DecodeError>)
        ensures
            r == unsupported(old(self).state(), inst, Seq::<Operand>::empty()),
            *final(self) == *old(self),
    {
        let ops: [Operand; 0] = [];
        assert(ops@ == Seq::<Operand>::empty());
        self.reject(inst, &ops)
    }

    /// `BRX`, relative branch through a register.
    pub fn brx(&mut self, inst: u128) -> (r: Result<(), DecodeError>)
        ensures
            r == unsupported(old(self).state(), inst, seq![Operand::Ra]),
            *final(self) == *old(self),
    {
        let ops = [Operand::Ra];
        assert(ops@ == seq![Operand::Ra]);
        self.reject(inst, &ops)
    }

    /// `BRXU`, relative branch through a uniform register.
    pub fn brxu(&mut self, inst: u128) -> (r: Result<(), DecodeError>)
        ensures
            r == unsupported(old(self).state(), inst, Seq::<Operand>::empty()),
            *final(self) == *old(self),
    {
        let ops: [Operand; 0] = [];
        assert(ops@ == Seq::<Operand>::empty());
        self.reject(inst, &ops)
    }

    /// `BSSY`, set a synchronization barrier.
    pub fn bssy(&mut self, inst: u128) -> (r: Result<(), DecodeError>)
        ensures
            r == unsupported(old(self).state(), inst, Seq::<Operand>::empty()),
            *final(self) == *old(self),
    {
        let ops: [Operand; 0] = [];
        assert(ops@ == Seq::<Operand>::empty());
        self.reject(inst, &ops)
    }

    /// `BSYNC`, synchronize on a convergence barrier.
    pub fn bsync(&mut self, inst: u128) -> (r: Result<(), DecodeError>)
        ensures
            r == unsupported(old(self).state(), inst, Seq::<Operand>::empty()),
            *final(self) == *old(self),
    {
        let ops: [Operand; 0] = [];
        assert(ops@ == Seq::<Operand>::empty());
        self.reject(inst, &ops)
    }

    /// `CALL`, call.
    pub fn call(&mut self, inst: u128) -> (r: Result<(), DecodeError>)
        ensures
            r == unsupported(old(self).state(), inst, seq![Operand::Bank]),
            *final(self) == *old(self),
    {
        let ops = [Operand::Bank];
        assert(ops@ == seq![Operand::Bank]);
        self.reject(inst, &ops)
    }

    /// `CS2R`, move a special register to a register, fast path.
    pub fn cs2r(&mut self, inst: u128) -> (r: Result<(), DecodeError>)
        ensures
            r == unsupported(old(self).state(), inst, seq![Operand::Rd]),
            *final(self) == *old(self),
    {
        let ops = [Operand::Rd];
        assert(ops@ == seq![Operand::Rd]);
        self.reject(inst, &ops)
    }

    /// `CSMTEST`, clip-space test.
    pub fn csmtest(&mut self, inst: u128) -> (r: Result<(), DecodeError>)
        ensures
            r == unsupported(old(self).state(), inst, Seq::<Operand>::empty()),
            *final(self) == *old(self),
    {
        let ops: [Operand; 0] = [];
        assert(ops@ == Seq::<Operand>::empty());
        self.reject(inst, &ops)
    }

    /// `EXIT`, exit the thread.
    pub fn exit(&mut self, inst: u128) -> (r: Result<(), DecodeError>)
        ensures
            r == unsupported(old(self).state(), inst, Seq::<Operand>::empty()),
            *final(self) == *old(self),
    {
        let ops: [Operand; 0] = [];
        assert(ops@ == Seq::<Operand>::empty());
        self.reject(inst, &ops)
    }

    /// `IDE`, interrupt enable or disable.
    pub fn ide(&mut self, inst: u128) -> (r: Result<(), DecodeError>)
        ensures
            r == unsupported(old(self).state(), inst, Seq::<Operand>::empty()),
            *final(self) == *old(self),
    {
        let ops: [Operand; 0] = [];
        assert(ops@ == Seq::<Operand>::empty());
        self.reject(inst, &ops)
    }

    /// `JMP`, absolute jump.
    pub fn jmp(&mut self, inst: u128) -> (r: Result<(), DecodeError>)
        ensures
            r == unsupported(old(self).state(), inst, seq![Operand::Bank]),
            *final(self) == *old(self),
    {
        let ops = [Operand::Bank];
        assert(ops@ == seq![Operand::Bank]);
        self.reject(inst, &ops)
    }

    /// `JMX`, absolute jump through a register.
    pub fn jmx(&mut self, inst: u128) -> (r: Result<(), DecodeError>)
        ensures
            r == unsupported(old(self).state(), inst, seq![Operand::Ra]),
            *final(self) == *old(self),
    {
        let ops = [Operand::Ra];
        assert(ops@ == seq![Operand::Ra]);
        self.reject(inst, &ops)
    }

    /// `JMXU`, absolute jump through a uniform register.
    pub fn jmxu(&mut self, inst: u128) -> (r: Result<(), DecodeError>)
        ensures
            r == unsupported(old(self).state(), inst, Seq::<Operand>::empty()),
            *final(self) == *old(self),
    {
        let ops: [Operand; 0] = [];
        assert(ops@ == Seq::<Operand>::empty());
        self.reject(inst, &ops)
    }

    /// `KILL`, kill the thread.
    pub fn kill(&mut self, inst: u128) -> (r: Result<(), DecodeError>)
        ensures
            r == unsupported(old(self).state(), inst, Seq::<Operand>::empty()),
            *final(self) == *old(self),
    {
        let ops: [Operand; 0] = [];
        assert(ops@ == Seq::<Operand>::empty());
        self.reject(inst, &ops)
    }

    /// `LEPC`, load the program counter.
    pub fn lepc(&mut self, inst: u128) -> (r: Result<(), DecodeError>)
        ensures
            r == unsupported(old(self).state(), inst, seq![Operand::Rd]),
            *final(self) == *old(self),
    {
        let ops = [Operand::Rd];
        assert(ops@ == seq![Operand::Rd]);
        self.reject(inst, &ops)
    }

    /// `MATCH`, match values across the warp.
    pub fn match_(&mut self, inst: u128) -> (r: Result<(), DecodeError>)
        ensures
            r == unsupported(old(self).state(), inst, seq![Operand::Rd, Operand::Ra]),
            *final(self) == *old(self),
    {
        let ops = [Operand::Rd, Operand::Ra];
        assert(ops@ == seq![Operand::Rd, Operand::Ra]);
        self.reject(inst, &ops)
    }

    /// `NANOSLEEP`, suspend the thread for a time.
    pub fn nanosleep(&mut self, inst: u128) -> (r: Result<(), DecodeError>)
        ensures
            r == unsupported(old(self).state(), inst, seq![Operand::Bank]),
            *final(self) == *old(self),
    {
        let ops = [Operand::Bank];
        assert(ops@ == seq![Operand::Bank]);
        self.reject(inst, &ops)
    }

    /// `NANOTRAP`, trap after a time.
    pub fn nanotrap(&mut self, inst: u128) -> (r: Result<(), DecodeError>)
        ensures
            r == unsupported(old(self).state(), inst, seq![Operand::Bank]),
            *final(self) == *old(self),
    {
        let ops = [Operand::Bank];
        assert(ops@ == seq![Operand::Bank]);
        self.reject(inst, &ops)
    }

    /// `PMTRIG`, performance monitor trigger.
    pub fn pmtrig(&mut self, inst: u128) -> (r: Result<(), DecodeError>)
        ensures
            r == unsupported(old(self).state(), inst, Seq::<Operand>::empty()),
            *final(self) == *old(self),
    {
        let ops: [Operand; 0] = [];
        assert(ops@ == Seq::<Operand>::empty());
        self.reject(inst, &ops)
    }

    /// `R2B`, move a register to a barrier.
    pub fn r2b(&mut self, inst: u128) -> (r: Result<(), DecodeError>)
        ensures
            r == unsupported(old(self).state(), inst, seq![Operand::Rb]),
            *final(self) == *old(self),
    {
        let ops = [Operand::Rb];
        assert(ops@ == seq![Operand::Rb]);
        self.reject(inst, &ops)
    }

    /// `REDUX`, reduction across the warp.
    pub fn redux(&mut self, inst: u128) -> (r: Result<(), DecodeError>)
        ensures
            r == unsupported(old(self).state(), inst, seq![Operand::Ra, Operand::Urd]),
            *final(self) == *old(self),
    {
        let ops = [Operand::Ra, Operand::Urd];
        assert(ops@ == seq![Operand::Ra, Operand::Urd]);
        self.reject(inst, &ops)
    }

    /// `RET`, return.
    pub fn ret(&mut self, inst: u128) -> (r: Result<(), DecodeError>)
        ensures
            r == unsupported(old(self).state(), inst, seq![Operand::Ra]),
            *final(self) == *old(self),
    {
        let ops = [Operand::Ra];
        assert(ops@ == seq![Operand::Ra]);
        self.reject(inst, &ops)
    }

    /// `RPCMOV`, move to or from the return program counter.
    pub fn rpcmov(&mut self, inst: u128) -> (r: Result<(), DecodeError>)
        ensures
            r == unsupported(old(self).state(), inst, seq![Operand::Urb]),
            *final(self) == *old(self),
    {
        let ops = [Operand::Urb];
        assert(ops@ == seq![Operand::Urb]);
        self.reject(inst, &ops)
    }

    /// `RTT`, return from a trap.
    pub fn rtt(&mut self, inst: u128) -> (r: Result<(), DecodeError>)
        ensures
            r == unsupported(old(self).state(), inst, Seq::<Operand>::empty()),
            *final(self) == *old(self),
    {
        let ops: [Operand; 0] = [];
        assert(ops@ == Seq::<Operand>::empty());
        self.reject(inst, &ops)
    }

    /// `S2R`, move a special register to a register.
    pub fn s2r(&mut self, inst: u128) -> (r: Result<(), DecodeError>)
        ensures
            r == unsupported(old(self).state(), inst, seq![Operand::Rd]),
            *final(self) == *old(self),
    {
        let ops = [Operand::Rd];
        assert(ops@ == seq![Operand::Rd]);
        self.reject(inst, &ops)
    }

    /// `SETCTAID`, set the thread block id.
    pub fn setctaid(&mut self, inst: u128) -> (r: Result<(), DecodeError>)
        ensures
            r == unsupported(old(self).state(), inst, seq![Operand::Ra]),
            *final(self) == *old(self),
    {
        let ops = [Operand::Ra];
        assert(ops@ == seq![Operand::Ra]);
        self.reject(inst, &ops)
    }

    /// `SHFL`, shuffle across the warp.
    pub fn shfl(&mut self, inst: u128) -> (r: Result<(), DecodeError>)
        ensures
            r == unsupported(old(self).state(), inst, seq![Operand::Rd, Operand::Ra]),
            *final(self) == *old(self),
    {
        let ops = [Operand::Rd, Operand::Ra];
        assert(ops@ == seq![Operand::Rd, Operand::Ra]);
        self.reject(inst, &ops)
    }

    /// `VOTE`, vote across the warp.
    pub fn vote(&mut self, inst: u128) -> (r: Result<(), DecodeError>)
        ensures
            r == unsupported(old(self).state(), inst, seq![Operand::Rd]),
            *final(self) == *old(self),
    {
        let ops = [Operand::Rd];
        assert(ops@ == seq![Operand::Rd]);
        self.reject(inst, &ops)
    }

    /// `VOTEU`, vote across the warp into a uniform register.
    pub fn voteu(&mut self, inst: u128) -> (r: Result<(), DecodeError>)
        ensures
            r == unsupported(old(self).state(), inst, seq![Operand::Urd]),
            *final(self) == *old(self),
    {
        let ops = [Operand::Urd];
        assert(ops@ == seq![Operand::Urd]);
        self.reject(inst, &ops)
    }

    /// `VOTE_VTG`, vote across the vertex group.
    pub fn vote_vtg(&mut self, inst: u128) -> (r: Result<(), DecodeError>)
        ensures
            r == unsupported(old(self).state(), inst, Seq::<Operand>::empty()),
            *final(self) == *old(self),
    {
        let ops: [Operand; 0] = [];
        assert(ops@ == Seq::<Operand>::empty());
        self.reject(inst, &ops)
    }

    /// `WARPSYNC`, synchronize the threads of a warp.
    pub fn warpsync(&mut self, inst: u128) -> (r: Result<(), DecodeError>)
        ensures
            r == unsupported(old(self).state(), inst, seq![Operand::Bank]),
            *final(self) == *old(self),
    {
        let ops = [Operand::Bank];
        assert(ops@ == seq![Operand::Bank]);
        self.reject(inst, &ops)
    }

    /// `YIELD`, yield to other warps.
    pub fn yield_(&mut self, inst: u128) -> (r: Result<(), DecodeError>)
        ensures
            r == unsupported(old(self).state(), inst, Seq::<Operand>::empty()),
            *final(self) == *old(self),
    {
        let ops: [Operand; 0] = [];
        assert(ops@ == Seq::<Operand>::empty());
        self.reject(inst, &ops)
    }
}

} // verus!
