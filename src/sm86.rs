//! Decoding of SM86 instruction words into emitter calls.
//!
//! A [`Decoder`] owns the [`Emitter`] for one translation pass. It moves from
//! `Uninitialized` to `Initialized` by [`Decoder::init`], which declares the
//! scalar types once, after the module's header, and to `Finished` by
//! [`Decoder::finish`]. Decoding is accepted only while it is `Initialized`.
//!
//! Each decode routine reads the operand fields of its instruction form and
//! checks them against the hardware's limits before anything is emitted. Forms
//! whose translation is not written yet report `UnsupportedOpcode`.

use vstd::prelude::*;
use vstd::arithmetic::power2::lemma2_to64;
use crate::bits::{field, field_value};
use crate::spirv::{Emitter, SpirvNumericLiteral, instruction, OP_CONSTANT, OP_NOP, OP_TYPE_FLOAT, OP_TYPE_INT};

verus! {

/// The largest general-purpose register index.
pub const MAX_REG_COUNT: u64 = 254;

/// The largest uniform register index.
pub const MAX_UNIFORM_REG_COUNT: u64 = 63;

/// Constant banks are numbered below this.
pub const MAX_CONST_BANK: u64 = 17;

/// The value of the `bop` field that selects 32-bit accesses.
pub const BIT_SIZE_B32: u64 = 0;

/// Why an instruction word could not be translated.
#[derive(Debug, Clone, Copy, PartialEq, Eq, Structural)]
pub enum DecodeError {
    /// No translation is written for this instruction form.
    UnsupportedOpcode,
    /// A register or constant-bank index is above the hardware's limit.
    OperandOutOfRange,
    /// A bit range that must be zero is not.
    MalformedField,
    /// The emitter cannot take the instruction (no ids left), or the decoder is
    /// used outside its `Initialized` stage.
    EmitterInternal,
}

/// Where a decoder stands in its pass.
#[derive(Debug, Clone, Copy, PartialEq, Eq, Structural)]
pub enum Stage {
    Uninitialized,
    Initialized,
    Finished,
}

/// An operand field whose value the hardware bounds.
#[derive(Debug, Clone, Copy, PartialEq, Eq, Structural)]
pub enum Operand {
    /// Destination register, bits 16..24.
    Rd,
    /// First source register, bits 24..32.
    Ra,
    /// Second source register, bits 32..40.
    Rb,
    /// Extra source register, bits 40..48.
    Re,
    /// Third source register, bits 64..72.
    Rc,
    /// Uniform destination register, bits 16..22.
    Urd,
    /// Uniform source register, bits 32..38.
    Urb,
    /// Uniform source register, bits 64..70.
    Urc,
    /// Constant bank index, bits 54..59.
    Bank,
}

pub open spec fn operand_offset(o: Operand) -> nat {
    match o {
        Operand::Rd => 16,
        Operand::Ra => 24,
        Operand::Rb => 32,
        Operand::Re => 40,
        Operand::Rc => 64,
        Operand::Urd => 16,
        Operand::Urb => 32,
        Operand::Urc => 64,
        Operand::Bank => 54,
    }
}

pub open spec fn operand_width(o: Operand) -> nat {
    match o {
        Operand::Urd | Operand::Urb | Operand::Urc => 6,
        Operand::Bank => 5,
        _ => 8,
    }
}

/// The largest value the operand may hold.
pub open spec fn operand_limit(o: Operand) -> nat {
    match o {
        Operand::Urd | Operand::Urb | Operand::Urc => MAX_UNIFORM_REG_COUNT as nat,
        Operand::Bank => (MAX_CONST_BANK - 1) as nat,
        _ => MAX_REG_COUNT as nat,
    }
}

pub open spec fn operand_in_range(inst: u128, o: Operand) -> bool {
    field_value(inst, operand_offset(o), operand_width(o)) <= operand_limit(o)
}

pub open spec fn operands_in_range(inst: u128, ops: Seq<Operand>) -> bool {
    forall|i: int| 0 <= i < ops.len() ==> operand_in_range(inst, #[trigger] ops[i])
}

/// The checks that open every decode routine: the decoder's stage, then the
/// operand fields in `ops`.
pub open spec fn prechecked(stage: Stage, inst: u128, ops: Seq<Operand>) -> Result<(), DecodeError> {
    if stage != Stage::Initialized {
        Err(DecodeError::EmitterInternal)
    } else if !operands_in_range(inst, ops) {
        Err(DecodeError::OperandOutOfRange)
    } else {
        Ok(())
    }
}

/// The outcome of a decode routine that checks `ops` and has no translation
/// to emit.
pub open spec fn unsupported(stage: Stage, inst: u128, ops: Seq<Operand>) -> Result<(), DecodeError> {
    match prechecked(stage, inst, ops) {
        Ok(()) => Err(DecodeError::UnsupportedOpcode),
        Err(e) => Err(e),
    }
}

/// Checks one operand field of `inst` against its limit.
pub fn operand_ok(inst: u128, o: Operand) -> (r: bool)
    ensures
        r == operand_in_range(inst, o),
{
    match o {
        Operand::Rd => field(inst, 16, 8) <= MAX_REG_COUNT,
        Operand::Ra => field(inst, 24, 8) <= MAX_REG_COUNT,
        Operand::Rb => field(inst, 32, 8) <= MAX_REG_COUNT,
        Operand::Re => field(inst, 40, 8) <= MAX_REG_COUNT,
        Operand::Rc => field(inst, 64, 8) <= MAX_REG_COUNT,
        Operand::Urd => field(inst, 16, 6) <= MAX_UNIFORM_REG_COUNT,
        Operand::Urb => field(inst, 32, 6) <= MAX_UNIFORM_REG_COUNT,
        Operand::Urc => field(inst, 64, 6) <= MAX_UNIFORM_REG_COUNT,
        Operand::Bank => field(inst, 54, 5) < MAX_CONST_BANK,
    }
}

/// Checks every operand field in `ops`.
pub fn check_operands(inst: u128, ops: &[Operand]) -> (r: Result<(), DecodeError>)
    ensures
        r == (if operands_in_range(inst, ops@) {
            Ok(())
        } else {
            Err(DecodeError::OperandOutOfRange)
        }),
{
    let mut i: usize = 0;
    while i < ops.len()
        invariant
            i <= ops.len(),
            forall|j: int| 0 <= j < i ==> operand_in_range(inst, #[trigger] ops@[j]),
        decreases ops.len() - i,
    {
        if !operand_ok(inst, ops[i]) {
            return Err(DecodeError::OperandOutOfRange);
        }
        i = i + 1;
    }
    Ok(())
}

/// The ids of the scalar types declared by [`Decoder::init`].
#[derive(Debug, Clone, Copy, PartialEq, Eq, Structural)]
pub struct TypeCache {
    pub uint8: u32,
    pub uint16: u32,
    pub uint32: u32,
    pub uint64: u32,
    pub sint8: u32,
    pub sint16: u32,
    pub sint32: u32,
    pub sint64: u32,
    pub half: u32,
    pub single: u32,
    pub double: u32,
}

impl TypeCache {
    /// The ids in order of declaration.
    pub open spec fn ids(&self) -> Seq<u32> {
        seq![
            self.uint8,
            self.uint16,
            self.uint32,
            self.uint64,
            self.sint8,
            self.sint16,
            self.sint32,
            self.sint64,
            self.half,
            self.single,
            self.double,
        ]
    }

    /// The declarations of the eleven types, in order.
    pub open spec fn declarations(&self) -> Seq<u32> {
        instruction(OP_TYPE_INT, seq![self.uint8, 8, 0])
            + instruction(OP_TYPE_INT, seq![self.uint16, 16, 0])
            + instruction(OP_TYPE_INT, seq![self.uint32, 32, 0])
            + instruction(OP_TYPE_INT, seq![self.uint64, 64, 0])
            + instruction(OP_TYPE_INT, seq![self.sint8, 8, 1])
            + instruction(OP_TYPE_INT, seq![self.sint16, 16, 1])
            + instruction(OP_TYPE_INT, seq![self.sint32, 32, 1])
            + instruction(OP_TYPE_INT, seq![self.sint64, 64, 1])
            + instruction(OP_TYPE_FLOAT, seq![self.half, 16])
            + instruction(OP_TYPE_FLOAT, seq![self.single, 32])
            + instruction(OP_TYPE_FLOAT, seq![self.double, 64])
    }
}

/// Translates instruction words of one pass into the emitter it owns.
#[derive(Debug)]
pub struct Decoder {
    ir: Emitter,
    types: TypeCache,
    stage: Stage,
}

impl Decoder {
    /// The emitter the decoder writes to.
    pub closed spec fn emitter(&self) -> Emitter {
        self.ir
    }

    pub closed spec fn cache(&self) -> TypeCache {
        self.types
    }

    pub closed spec fn state(&self) -> Stage {
        self.stage
    }

    /// Once initialized, the decoder writes after the module's header.
    pub closed spec fn wf(&self) -> bool {
        self.stage != Stage::Uninitialized ==> self.ir.has_header()
    }

    /// `post` differs from `self` only by `words` appended to the emitter and
    /// `n_ids` ids allocated.
    pub open spec fn emitted(&self, post: &Decoder, words: Seq<u32>, n_ids: nat) -> bool {
        &&& self.emitter().appended(&post.emitter(), words, n_ids)
        &&& post.cache() == self.cache()
        &&& post.state() == self.state()
    }

    /// A decoder for one pass over `ir`, not yet initialized.
    pub fn new(ir: Emitter) -> (r: Decoder)
        ensures
            r.emitter() == ir,
            r.state() == Stage::Uninitialized,
            r.wf(),
    {
        let types = TypeCache {
            uint8: 0,
            uint16: 0,
            uint32: 0,
            uint64: 0,
            sint8: 0,
            sint16: 0,
            sint32: 0,
            sint64: 0,
            half: 0,
            single: 0,
            double: 0,
        };
        Decoder { ir, types, stage: Stage::Uninitialized }
    }

    pub fn ir(&self) -> (r: &Emitter)
        ensures
            *r == self.emitter(),
    {
        &self.ir
    }

    /// Ends the pass and hands the emitter back.
    pub fn into_emitter(self) -> (r: Emitter)
        ensures
            r == self.emitter(),
    {
        self.ir
    }

    pub fn types(&self) -> (r: TypeCache)
        ensures
            r == self.cache(),
    {
        self.types
    }

    pub fn stage(&self) -> (r: Stage)
        ensures
            r == self.state(),
    {
        self.stage
    }

    /// Declares the eleven scalar types, once per pass, and records their ids.
    /// The emitter must already hold the module's header.
    pub fn init(&mut self) -> (r: Result<(), DecodeError>)
        requires
            old(self).wf(),
        ensures
            final(self).wf(),
            old(self).state() != Stage::Uninitialized || !old(self).emitter().has_header()
                || !old(self).emitter().has_ids(11) ==> {
                &&& r == Err::<(), DecodeError>(DecodeError::EmitterInternal)
                &&& *final(self) == *old(self)
            },
            old(self).state() == Stage::Uninitialized && old(self).emitter().has_header()
                && old(self).emitter().has_ids(11) ==> {
                &&& r == Ok::<(), DecodeError>(())
                &&& final(self).state() == Stage::Initialized
                &&& old(self).emitter().appended(&final(self).emitter(), final(self).cache().declarations(), 11)
                &&& forall|i: int|
                    0 <= i < 11 ==> #[trigger] final(self).cache().ids()[i] == old(self).emitter().next_id() + i
                &&& forall|i: int, j: int|
                    0 <= i < 11 && 0 <= j < 11 && i != j ==> #[trigger] final(self).cache().ids()[i]
                        != #[trigger] final(self).cache().ids()[j]
            },
    {
        if self.stage != Stage::Uninitialized || !self.ir.header_written() || self.ir.id_bound()
            > u32::MAX - 11 {
            return Err(DecodeError::EmitterInternal);
        }
        let ghost w0 = self.ir.words();
        self.types.uint8 = self.ir.emit_type_int(8, 0);
        self.types.uint16 = self.ir.emit_type_int(16, 0);
        self.types.uint32 = self.ir.emit_type_int(32, 0);
        self.types.uint64 = self.ir.emit_type_int(64, 0);
        self.types.sint8 = self.ir.emit_type_int(8, 1);
        self.types.sint16 = self.ir.emit_type_int(16, 1);
        self.types.sint32 = self.ir.emit_type_int(32, 1);
        self.types.sint64 = self.ir.emit_type_int(64, 1);
        self.types.half = self.ir.emit_type_float(16);
        self.types.single = self.ir.emit_type_float(32);
        self.types.double = self.ir.emit_type_float(64);
        self.stage = Stage::Initialized;
        assert(self.ir.words() == w0 + self.types.declarations());
        Ok(())
    }

    /// Closes the pass: no more words are decoded after it.
    pub fn finish(&mut self) -> (r: Result<(), DecodeError>)
        requires
            old(self).wf(),
        ensures
            final(self).wf(),
            old(self).state() == Stage::Initialized ==> {
                &&& r == Ok::<(), DecodeError>(())
                &&& final(self).state() == Stage::Finished
                &&& final(self).emitter() == old(self).emitter()
                &&& final(self).cache() == old(self).cache()
            },
            old(self).state() != Stage::Initialized ==> {
                &&& r == Err::<(), DecodeError>(DecodeError::EmitterInternal)
                &&& *final(self) == *old(self)
            },
    {
        if self.stage != Stage::Initialized {
            return Err(DecodeError::EmitterInternal);
        }
        self.stage = Stage::Finished;
        Ok(())
    }

    /// Checks the stage, then the operand fields in `ops`.
    fn precheck(&self, inst: u128, ops: &[Operand]) -> (r: Result<(), DecodeError>)
        ensures
            r == prechecked(self.state(), inst, ops@),
    {
        if self.stage != Stage::Initialized {
            return Err(DecodeError::EmitterInternal);
        }
        check_operands(inst, ops)
    }

    /// The body of the routines that have no translation yet.
    pub(crate) fn reject(&self, inst: u128, ops: &[Operand]) -> (r: Result<(), DecodeError>)
        ensures
            r == unsupported(self.state(), inst, ops@),
    {
        match self.precheck(inst, ops) {
            Ok(()) => Err(DecodeError::UnsupportedOpcode),
            Err(e) => Err(e),
        }
    }

    /// `NOP`: emits one no-op instruction.
    pub fn nop(&mut self, inst: u128) -> (r: Result<(), DecodeError>)
        requires
            old(self).wf(),
        ensures
            final(self).wf(),
            old(self).state() != Stage::Initialized ==> {
                &&& r == Err::<(), DecodeError>(DecodeError::EmitterInternal)
                &&& *final(self) == *old(self)
            },
            old(self).state() == Stage::Initialized ==> {
                &&& r == Ok::<(), DecodeError>(())
                &&& old(self).emitted(final(self), instruction(OP_NOP, Seq::empty()), 0)
                &&& final(self).emitter().words() == old(self).emitter().words().push(0x0001_0000)
            },
    {
        if self.stage != Stage::Initialized {
            return Err(DecodeError::EmitterInternal);
        }
        self.ir.emit_nop();
        Ok(())
    }

    /// `AL2P`, attribute offset to address: `rd := ra + offset`. The 11-bit
    /// offset is declared as a 32-bit constant; the addition itself has no
    /// translation yet, so the routine ends with `UnsupportedOpcode`.
    pub fn al2p(&mut self, inst: u128) -> (r: Result<(), DecodeError>)
        requires
            old(self).wf(),
        ensures
            final(self).wf(),
            ({
                let ops = seq![Operand::Rd, Operand::Ra];
                let emits = old(self).state() == Stage::Initialized && operands_in_range(inst, ops)
                    && field_value(inst, 74, 2) == BIT_SIZE_B32 && old(self).emitter().has_ids(1);
                &&& !emits ==> *final(self) == *old(self)
                &&& r == if old(self).state() == Stage::Initialized && operands_in_range(inst, ops)
                    && field_value(inst, 74, 2) == BIT_SIZE_B32 && !old(self).emitter().has_ids(1) {
                    Err(DecodeError::EmitterInternal)
                } else {
                    unsupported(old(self).state(), inst, ops)
                }
                &&& emits ==> old(self).emitted(
                    final(self),
                    instruction(
                        OP_CONSTANT,
                        seq![
                            old(self).cache().uint32,
                            old(self).emitter().next_id() as u32,
                            field_value(inst, 40, 11) as u32,
                        ],
                    ),
                    1,
                )
            }),
    {
        let ops = [Operand::Rd, Operand::Ra];
        assert(ops@ == seq![Operand::Rd, Operand::Ra]);
        if let Err(e) = self.precheck(inst, &ops) {
            return Err(e);
        }
        if field(inst, 74, 2) != BIT_SIZE_B32 {
            return Err(DecodeError::UnsupportedOpcode);
        }
        if self.ir.id_bound() == u32::MAX {
            return Err(DecodeError::EmitterInternal);
        }
        let offset = field(inst, 40, 11);
        proof {
            lemma2_to64();
        }
        let offset = offset as u32;
        let id = self.ir.emit_constant_typed::<u32>(self.types.uint32, offset);
        assert(seq![self.types.uint32, id] + offset.literal_words() == seq![self.types.uint32, id, offset]);
        Err(DecodeError::UnsupportedOpcode)
    }
}

} // verus!
