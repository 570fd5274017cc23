//! An emitter of SPIR-V style word streams.
//!
//! Every instruction is one header word, `(word_count << 16) | opcode`, followed
//! by its operand words. Ids come from a counter that only grows.

use vstd::prelude::*;

verus! {

/// The magic number that opens a module.
pub const MAGIC_NUMBER: u32 = 0x0723_0203;

/// The largest word count, and the largest opcode, that a header can hold.
pub const MAX_HEADER_FIELD: u32 = 0xFFFF;

pub const OP_NOP: u32 = 0;
pub const OP_UNDEF: u32 = 1;
pub const OP_TYPE_VOID: u32 = 19;
pub const OP_TYPE_BOOL: u32 = 20;
pub const OP_TYPE_INT: u32 = 21;
pub const OP_TYPE_FLOAT: u32 = 22;
pub const OP_TYPE_VECTOR: u32 = 23;
pub const OP_TYPE_MATRIX: u32 = 24;
pub const OP_TYPE_IMAGE: u32 = 25;
pub const OP_TYPE_SAMPLER: u32 = 26;
pub const OP_TYPE_SAMPLED_IMAGE: u32 = 27;
pub const OP_TYPE_ARRAY: u32 = 28;
pub const OP_TYPE_RUNTIME_ARRAY: u32 = 29;
pub const OP_CONSTANT_TRUE: u32 = 41;
pub const OP_CONSTANT_FALSE: u32 = 42;
pub const OP_CONSTANT: u32 = 43;
pub const OP_DECORATE: u32 = 71;
pub const OP_MEMBER_DECORATE: u32 = 72;
pub const OP_DECORATION_GROUP: u32 = 73;
pub const OP_GROUP_DECORATE: u32 = 74;

/// The header word of an instruction of `count` words in all.
pub open spec fn header_word(opcode: u32, count: nat) -> u32 {
    (count * 0x1_0000 + opcode) as u32
}

/// The words of one instruction: its header, then its operands.
pub open spec fn instruction(opcode: u32, operands: Seq<u32>) -> Seq<u32> {
    seq![header_word(opcode, operands.len() + 1)] + operands
}

/// The header of an instruction with `n_operands` operands can record its
/// opcode and its word count.
pub open spec fn encodable(opcode: u32, n_operands: nat) -> bool {
    opcode <= MAX_HEADER_FIELD && n_operands + 1 <= MAX_HEADER_FIELD
}

/// A literal number that fits in at most two 32-bit words.
pub trait SpirvNumericLiteral: Sized {
    /// The words of the literal, low word first.
    spec fn literal_words(&self) -> Seq<u32>;

    fn to_words(self) -> (r: Vec<u32>)
        ensures
            r@ == self.literal_words(),
            1 <= r@.len() <= 2,
    ;
}

impl SpirvNumericLiteral for u8 {
    open spec fn literal_words(&self) -> Seq<u32> {
        seq![*self as u32]
    }

    fn to_words(self) -> (r: Vec<u32>) {
        vec![self as u32]
    }
}

impl SpirvNumericLiteral for u16 {
    open spec fn literal_words(&self) -> Seq<u32> {
        seq![*self as u32]
    }

    fn to_words(self) -> (r: Vec<u32>) {
        vec![self as u32]
    }
}

impl SpirvNumericLiteral for u32 {
    open spec fn literal_words(&self) -> Seq<u32> {
        seq![*self]
    }

    fn to_words(self) -> (r: Vec<u32>) {
        vec![self]
    }
}

impl SpirvNumericLiteral for u64 {
    open spec fn literal_words(&self) -> Seq<u32> {
        seq![(*self % 0x1_0000_0000) as u32, (*self / 0x1_0000_0000) as u32]
    }

    fn to_words(self) -> (r: Vec<u32>) {
        let low: u32 = (self & 0xFFFF_FFFF) as u32;
        let high: u32 = (self >> 32) as u32;
        assert(self & 0xFFFF_FFFF == self % 0x1_0000_0000) by (bit_vector);
        assert(self >> 32 == self / 0x1_0000_0000) by (bit_vector);
        vec![low, high]
    }
}

/// A growing word stream and the counter that hands out its ids.
#[derive(Debug, Clone)]
pub struct Emitter {
    code: Vec<u32>,
    id_count: u32,
}

impl Emitter {
    /// The words written so far.
    pub closed spec fn words(&self) -> Seq<u32> {
        self.code@
    }

    /// The id that the next allocation hands out.
    pub closed spec fn next_id(&self) -> nat {
        self.id_count as nat
    }

    /// The stream opens with the magic number: instructions may follow.
    pub open spec fn has_header(&self) -> bool {
        self.words().len() >= 1 && self.words()[0] == MAGIC_NUMBER
    }

    /// `n` more ids can be allocated.
    pub open spec fn has_ids(&self, n: nat) -> bool {
        self.next_id() + n <= u32::MAX
    }

    /// `self` became `post` by appending `words`, allocating `n_ids` ids.
    pub open spec fn appended(&self, post: &Emitter, words: Seq<u32>, n_ids: nat) -> bool {
        &&& post.words() == self.words() + words
        &&& post.next_id() == self.next_id() + n_ids
    }

    pub fn new() -> (r: Emitter)
        ensures
            r.words() == Seq::<u32>::empty(),
            r.next_id() == 0,
    {
        Emitter { code: Vec::new(), id_count: 0 }
    }

    /// The words written so far.
    pub fn code(&self) -> (r: &Vec<u32>)
        ensures
            r@ == self.words(),
    {
        &self.code
    }

    /// Gives up the emitter for its words.
    pub fn into_words(self) -> (r: Vec<u32>)
        ensures
            r@ == self.words(),
    {
        self.code
    }

    /// The id that the next allocation hands out: every id allocated so far is
    /// below it.
    pub fn id_bound(&self) -> (r: u32)
        ensures
            r == self.next_id(),
    {
        self.id_count
    }

    /// Hands out a fresh id.
    pub fn new_id(&mut self) -> (r: u32)
        requires
            old(self).has_ids(1),
        ensures
            r == old(self).next_id(),
            old(self).appended(final(self), Seq::empty(), 1),
    {
        let r = self.id_count;
        self.id_count = self.id_count + 1;
        assert(self.code@ == self.code@ + Seq::<u32>::empty());
        r
    }

    /// Whether the magic number has been written.
    pub fn header_written(&self) -> (r: bool)
        ensures
            r == self.has_header(),
    {
        self.code.len() >= 1 && self.code[0] == MAGIC_NUMBER
    }

    /// Writes the magic number that opens a module; nothing may come before it.
    pub fn emit_header(&mut self)
        requires
            old(self).words().len() == 0,
        ensures
            old(self).appended(final(self), seq![MAGIC_NUMBER], 0),
            final(self).has_header(),
    {
        self.code.push(MAGIC_NUMBER);
        assert(self.code@ == old(self).code@ + seq![MAGIC_NUMBER]);
    }

    fn push_all(&mut self, data: &[u32])
        ensures
            old(self).appended(final(self), data@, 0),
    {
        let ghost start = self.code@;
        let mut i: usize = 0;
        while i < data.len()
            invariant
                i <= data.len(),
                self.id_count == old(self).id_count,
                self.code@ == start + data@.take(i as int),
            decreases data.len() - i,
        {
            self.code.push(data[i]);
            assert(data@.take(i + 1) == data@.take(i as int).push(data@[i as int]));
            i = i + 1;
        }
        assert(data@.take(data.len() as int) == data@);
    }

    /// Writes an instruction whose operands are `fixed` then `rest`; the header
    /// is filled in once the operands are written.
    fn emit_parts(&mut self, opcode: u32, fixed: &[u32], rest: &[u32])
        requires
            encodable(opcode, (fixed@.len() + rest@.len()) as nat),
        ensures
            old(self).appended(final(self), instruction(opcode, fixed@ + rest@), 0),
    {
        let start = self.code.len();
        self.code.push(0);
        self.push_all(fixed);
        self.push_all(rest);
        let count: u32 = (self.code.len() - start) as u32;
        assert(count == fixed@.len() + rest@.len() + 1);
        let header: u32 = (count << 16) | opcode;
        assert(header == count * 0x1_0000 + opcode) by (bit_vector)
            requires
                header == (count << 16) | opcode,
                count <= 0xFFFF,
                opcode <= 0xFFFF,
        ;
        self.code.set(start, header);
        assert(self.code@ == old(self).code@ + instruction(opcode, fixed@ + rest@));
    }

    /// Writes the instruction `opcode` with operands `data`.
    pub fn emit_generic(&mut self, opcode: u32, data: &[u32])
        requires
            old(self).has_header(),
            encodable(opcode, data@.len()),
        ensures
            old(self).appended(final(self), instruction(opcode, data@), 0),
            final(self).words()[old(self).words().len() as int] & 0xFFFF == opcode,
            final(self).words()[old(self).words().len() as int] >> 16 == data@.len() + 1,
    {
        let none: [u32; 0] = [];
        proof {
            assert(data@ + none@ == data@);
        }
        self.emit_parts(opcode, data, &none);
        let ghost h = header_word(opcode, data@.len() + 1);
        let ghost n: u32 = (data@.len() + 1) as u32;
        assert(self.code@[old(self).code@.len() as int] == h);
        assert(h & 0xFFFF == opcode && h >> 16 == n) by (bit_vector)
            requires
                h == n * 0x1_0000 + opcode,
                n <= 0xFFFF,
                opcode <= 0xFFFF,
        ;
    }

    pub fn emit_nop(&mut self)
        requires
            old(self).has_header(),
        ensures
            old(self).appended(final(self), instruction(OP_NOP, Seq::empty()), 0),
            final(self).words() == old(self).words().push(0x0001_0000),
    {
        let none: [u32; 0] = [];
        self.emit_generic(OP_NOP, &none);
        assert(instruction(OP_NOP, Seq::empty()) == seq![0x0001_0000u32]);
    }

    pub fn emit_undef(&mut self, result_type: u32) -> (r: u32)
        requires
            old(self).has_header(),
            old(self).has_ids(1),
        ensures
            r == old(self).next_id(),
            old(self).appended(final(self), instruction(OP_UNDEF, seq![result_type, r]), 1),
    {
        let result = self.new_id();
        self.emit_generic(OP_UNDEF, &[result_type, result]);
        result
    }

    /// Attaches decoration `deco`, with its literal operands, to `target`.
    pub fn emit_decorate(&mut self, target: u32, deco: u32, literals: &[u32])
        requires
            old(self).has_header(),
            encodable(OP_DECORATE, 2 + literals@.len()),
        ensures
            old(self).appended(final(self), instruction(OP_DECORATE, seq![target, deco] + literals@), 0),
    {
        self.emit_parts(OP_DECORATE, &[target, deco], literals);
    }

    /// Attaches decoration `deco` to member `member` of the structure type `type_`.
    pub fn emit_member_decorate(&mut self, type_: u32, member: u32, deco: u32, literals: &[u32])
        requires
            old(self).has_header(),
            encodable(OP_MEMBER_DECORATE, 3 + literals@.len()),
        ensures
            old(self).appended(
                final(self),
                instruction(OP_MEMBER_DECORATE, seq![type_, member, deco] + literals@),
                0,
            ),
    {
        self.emit_parts(OP_MEMBER_DECORATE, &[type_, member, deco], literals);
    }

    /// Declares a decoration group.
    pub fn emit_decoration_group(&mut self) -> (r: u32)
        requires
            old(self).has_header(),
            old(self).has_ids(1),
        ensures
            r == old(self).next_id(),
            old(self).appended(final(self), instruction(OP_DECORATION_GROUP, seq![r]), 1),
    {
        let result = self.new_id();
        let operands = [result];
        assert(operands@ == seq![result]);
        self.emit_generic(OP_DECORATION_GROUP, &operands);
        result
    }

    /// Applies the decorations of `group` to each of `targets`.
    pub fn emit_group_decorate(&mut self, group: u32, targets: &[u32])
        requires
            old(self).has_header(),
            encodable(OP_GROUP_DECORATE, 1 + targets@.len()),
        ensures
            old(self).appended(final(self), instruction(OP_GROUP_DECORATE, seq![group] + targets@), 0),
    {
        let head = [group];
        assert(head@ == seq![group]);
        self.emit_parts(OP_GROUP_DECORATE, &head, targets);
    }

    /// Declares the void type. No two calls share an id: the emitter does not
    /// merge equal declarations.
    pub fn emit_type_void(&mut self) -> (r: u32)
        requires
            old(self).has_header(),
            old(self).has_ids(1),
        ensures
            r == old(self).next_id(),
            old(self).appended(final(self), instruction(OP_TYPE_VOID, seq![r]), 1),
    {
        let result = self.new_id();
        let operands = [result];
        assert(operands@ == seq![result]);
        self.emit_generic(OP_TYPE_VOID, &operands);
        result
    }

    /// Declares the boolean type.
    pub fn emit_type_bool(&mut self) -> (r: u32)
        requires
            old(self).has_header(),
            old(self).has_ids(1),
        ensures
            r == old(self).next_id(),
            old(self).appended(final(self), instruction(OP_TYPE_BOOL, seq![r]), 1),
    {
        let result = self.new_id();
        let operands = [result];
        assert(operands@ == seq![result]);
        self.emit_generic(OP_TYPE_BOOL, &operands);
        result
    }

    /// Declares an integer type of `width` bits; `sign` is 1 for a signed type, 0
    /// for an unsigned one.
    pub fn emit_type_int(&mut self, width: u32, sign: u32) -> (r: u32)
        requires
            old(self).has_header(),
            old(self).has_ids(1),
            sign <= 1,
        ensures
            r == old(self).next_id(),
            old(self).appended(final(self), instruction(OP_TYPE_INT, seq![r, width, sign]), 1),
    {
        let result = self.new_id();
        self.emit_generic(OP_TYPE_INT, &[result, width, sign]);
        result
    }

    /// Declares a floating-point type of `width` bits.
    pub fn emit_type_float(&mut self, width: u32) -> (r: u32)
        requires
            old(self).has_header(),
            old(self).has_ids(1),
        ensures
            r == old(self).next_id(),
            old(self).appended(final(self), instruction(OP_TYPE_FLOAT, seq![r, width]), 1),
    {
        let result = self.new_id();
        self.emit_generic(OP_TYPE_FLOAT, &[result, width]);
        result
    }

    /// Declares a vector of `count` components of type `type_`.
    pub fn emit_type_vector(&mut self, type_: u32, count: u32) -> (r: u32)
        requires
            old(self).has_header(),
            old(self).has_ids(1),
            count >= 2,
        ensures
            r == old(self).next_id(),
            old(self).appended(final(self), instruction(OP_TYPE_VECTOR, seq![r, type_, count]), 1),
    {
        let result = self.new_id();
        self.emit_generic(OP_TYPE_VECTOR, &[result, type_, count]);
        result
    }

    /// Declares a matrix of `count` columns of type `type_`.
    pub fn emit_type_matrix(&mut self, type_: u32, count: u32) -> (r: u32)
        requires
            old(self).has_header(),
            old(self).has_ids(1),
            count >= 2,
        ensures
            r == old(self).next_id(),
            old(self).appended(final(self), instruction(OP_TYPE_MATRIX, seq![r, type_, count]), 1),
    {
        let result = self.new_id();
        self.emit_generic(OP_TYPE_MATRIX, &[result, type_, count]);
        result
    }

    /// Declares an image type; `acc_qual` holds the optional access qualifier.
    pub fn emit_type_image(
        &mut self,
        type_: u32,
        dim: u32,
        depth: u32,
        arrayed: u32,
        ms: u32,
        sampled: u32,
        format: u32,
        acc_qual: &[u32],
    ) -> (r: u32)
        requires
            old(self).has_header(),
            old(self).has_ids(1),
            depth <= 2,
            arrayed <= 1,
            ms <= 1,
            sampled <= 2,
            encodable(OP_TYPE_IMAGE, 8 + acc_qual@.len()),
        ensures
            r == old(self).next_id(),
            old(self).appended(
                final(self),
                instruction(
                    OP_TYPE_IMAGE,
                    seq![r, type_, dim, depth, arrayed, ms, sampled, format] + acc_qual@,
                ),
                1,
            ),
    {
        let result = self.new_id();
        self.emit_parts(OP_TYPE_IMAGE, &[result, type_, dim, depth, arrayed, ms, sampled, format], acc_qual);
        result
    }

    /// Declares the sampler type.
    pub fn emit_type_sampler(&mut self) -> (r: u32)
        requires
            old(self).has_header(),
            old(self).has_ids(1),
        ensures
            r == old(self).next_id(),
            old(self).appended(final(self), instruction(OP_TYPE_SAMPLER, seq![r]), 1),
    {
        let result = self.new_id();
        let operands = [result];
        assert(operands@ == seq![result]);
        self.emit_generic(OP_TYPE_SAMPLER, &operands);
        result
    }

    /// Declares the type of an image combined with a sampler.
    pub fn emit_type_sampled_image(&mut self, type_: u32) -> (r: u32)
        requires
            old(self).has_header(),
            old(self).has_ids(1),
        ensures
            r == old(self).next_id(),
            old(self).appended(final(self), instruction(OP_TYPE_SAMPLED_IMAGE, seq![r, type_]), 1),
    {
        let result = self.new_id();
        self.emit_generic(OP_TYPE_SAMPLED_IMAGE, &[result, type_]);
        result
    }

    /// Declares an array of `type_`; `length` is the id of a constant.
    pub fn emit_type_array(&mut self, type_: u32, length: u32) -> (r: u32)
        requires
            old(self).has_header(),
            old(self).has_ids(1),
        ensures
            r == old(self).next_id(),
            old(self).appended(final(self), instruction(OP_TYPE_ARRAY, seq![r, type_, length]), 1),
    {
        let result = self.new_id();
        self.emit_generic(OP_TYPE_ARRAY, &[result, type_, length]);
        result
    }

    /// Declares an array of `type_` whose length is known only at run time.
    pub fn emit_type_runtime_array(&mut self, type_: u32) -> (r: u32)
        requires
            old(self).has_header(),
            old(self).has_ids(1),
        ensures
            r == old(self).next_id(),
            old(self).appended(final(self), instruction(OP_TYPE_RUNTIME_ARRAY, seq![r, type_]), 1),
    {
        let result = self.new_id();
        self.emit_generic(OP_TYPE_RUNTIME_ARRAY, &[result, type_]);
        result
    }

    /// Declares the constant `true` of the boolean type `type_`.
    pub fn emit_constant_true(&mut self, type_: u32) -> (r: u32)
        requires
            old(self).has_header(),
            old(self).has_ids(1),
        ensures
            r == old(self).next_id(),
            old(self).appended(final(self), instruction(OP_CONSTANT_TRUE, seq![type_, r]), 1),
    {
        let result = self.new_id();
        self.emit_generic(OP_CONSTANT_TRUE, &[type_, result]);
        result
    }

    /// Declares the constant `false` of the boolean type `type_`.
    pub fn emit_constant_false(&mut self, type_: u32) -> (r: u32)
        requires
            old(self).has_header(),
            old(self).has_ids(1),
        ensures
            r == old(self).next_id(),
            old(self).appended(final(self), instruction(OP_CONSTANT_FALSE, seq![type_, r]), 1),
    {
        let result = self.new_id();
        self.emit_generic(OP_CONSTANT_FALSE, &[type_, result]);
        result
    }

    /// Declares a constant of type `type_` whose literal is `value`, low word first.
    pub fn emit_constant(&mut self, type_: u32, value: &[u32]) -> (r: u32)
        requires
            old(self).has_header(),
            old(self).has_ids(1),
            encodable(OP_CONSTANT, 2 + value@.len()),
        ensures
            r == old(self).next_id(),
            old(self).appended(final(self), instruction(OP_CONSTANT, seq![type_, r] + value@), 1),
    {
        let result = self.new_id();
        self.emit_parts(OP_CONSTANT, &[type_, result], value);
        result
    }

    /// Declares a constant of type `type_` that holds the number `value`.
    pub fn emit_constant_typed<T: SpirvNumericLiteral>(&mut self, type_: u32, value: T) -> (r: u32)
        requires
            old(self).has_header(),
            old(self).has_ids(1),
        ensures
            r == old(self).next_id(),
            old(self).appended(
                final(self),
                instruction(OP_CONSTANT, seq![type_, r] + value.literal_words()),
                1,
            ),
    {
        let result = self.new_id();
        let words = value.to_words();
        self.emit_parts(OP_CONSTANT, &[type_, result], words.as_slice());
        result
    }
}

impl Default for Emitter {
    fn default() -> (r: Emitter)
        ensures
            r.words() == Seq::<u32>::empty(),
            r.next_id() == 0,
    {
        Emitter::new()
    }
}

/// `post` is what a call of `new_id` on `pre` that returned `id` leaves.
pub open spec fn allocated(pre: Emitter, post: Emitter, id: u32) -> bool {
    id == pre.next_id() && pre.appended(&post, Seq::empty(), 1)
}

proof fn lemma_ids_count_up(states: Seq<Emitter>, ids: Seq<u32>, k: int)
    requires
        states.len() == ids.len() + 1,
        forall|i: int| 0 <= i < ids.len() ==> allocated(#[trigger] states[i], states[i + 1], ids[i]),
        0 <= k <= ids.len(),
    ensures
        states[k].next_id() == states[0].next_id() + k,
        states[k].words() == states[0].words(),
    decreases k,
{
    if k > 0 {
        lemma_ids_count_up(states, ids, k - 1);
        assert(allocated(states[k - 1], states[k], ids[k - 1]));
        assert(states[k].words() == states[k - 1].words() + Seq::<u32>::empty());
    }
}

/// The ids that successive calls of `new_id` hand out, `ids[i]` from
/// `states[i]` leaving `states[i + 1]`, count up by one from the first free id,
/// hence strictly increase and are pairwise distinct; no word is written.
pub proof fn lemma_new_ids_increase(states: Seq<Emitter>, ids: Seq<u32>)
    requires
        states.len() == ids.len() + 1,
        forall|i: int| 0 <= i < ids.len() ==> allocated(#[trigger] states[i], states[i + 1], ids[i]),
    ensures
        forall|i: int| 0 <= i < ids.len() ==> #[trigger] ids[i] == states[0].next_id() + i,
        forall|i: int, j: int| 0 <= i < j < ids.len() ==> ids[i] < ids[j],
        forall|i: int, j: int| 0 <= i < ids.len() && 0 <= j < ids.len() && i != j ==> ids[i] != ids[j],
        states.last().next_id() == states[0].next_id() + ids.len(),
        states.last().words() == states[0].words(),
{
    assert forall|i: int| 0 <= i < ids.len() implies #[trigger] ids[i] == states[0].next_id() + i by {
        lemma_ids_count_up(states, ids, i);
        assert(allocated(states[i], states[i + 1], ids[i]));
    }
    lemma_ids_count_up(states, ids, ids.len() as int);
}

/// `post` is what a call of `emit_type_int(width, sign)` on `pre` that returned
/// `id` leaves.
pub open spec fn declared_int(pre: Emitter, post: Emitter, id: u32, width: u32, sign: u32) -> bool {
    id == pre.next_id() && pre.appended(&post, instruction(OP_TYPE_INT, seq![id, width, sign]), 1)
}

/// Declaring the same integer type twice yields two different ids and two
/// different declarations: merging equal types is left to the caller.
pub proof fn lemma_int_declared_twice(
    e0: Emitter,
    e1: Emitter,
    e2: Emitter,
    a: u32,
    b: u32,
    width: u32,
    sign: u32,
)
    requires
        declared_int(e0, e1, a, width, sign),
        declared_int(e1, e2, b, width, sign),
    ensures
        a != b,
        instruction(OP_TYPE_INT, seq![a, width, sign]) != instruction(OP_TYPE_INT, seq![b, width, sign]),
        e2.words() == e0.words() + instruction(OP_TYPE_INT, seq![a, width, sign]) + instruction(
            OP_TYPE_INT,
            seq![b, width, sign],
        ),
{
    assert(instruction(OP_TYPE_INT, seq![a, width, sign])[1] == a);
    assert(instruction(OP_TYPE_INT, seq![b, width, sign])[1] == b);
    assert(e2.words() == e0.words() + instruction(OP_TYPE_INT, seq![a, width, sign]) + instruction(
        OP_TYPE_INT,
        seq![b, width, sign],
    ));
}

} // verus!
