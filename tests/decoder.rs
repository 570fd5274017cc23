use oboromi_core::bits::pack;
use oboromi_core::sm86::{DecodeError, Decoder, Stage};
use oboromi_core::spirv::Emitter;

fn ready() -> Decoder {
    let mut ir = Emitter::new();
    ir.emit_header();
    let mut d = Decoder::new(ir);
    assert_eq!(d.init(), Ok(()));
    d
}

#[test]
fn init_declares_eleven_distinct_types() {
    let d = ready();
    assert_eq!(d.stage(), Stage::Initialized);
    let t = d.types();
    let ids = [
        t.uint8, t.uint16, t.uint32, t.uint64, t.sint8, t.sint16, t.sint32, t.sint64, t.half,
        t.single, t.double,
    ];
    for i in 0..ids.len() {
        assert_eq!(ids[i], i as u32);
        for j in 0..i {
            assert_ne!(ids[i], ids[j]);
        }
    }
    let code = d.ir().code();
    assert_eq!(code.len(), 1 + 8 * 4 + 3 * 3);
    assert_eq!(code[0], 0x0723_0203);
    assert_eq!(&code[1..5], &[(4 << 16) | 21, t.uint8, 8, 0]);
    assert_eq!(&code[17..21], &[(4 << 16) | 21, t.sint8, 8, 1]);
    assert_eq!(&code[39..42], &[(3 << 16) | 22, t.double, 64]);
}

#[test]
fn init_twice_is_rejected() {
    let mut d = ready();
    let len = d.ir().code().len();
    assert_eq!(d.init(), Err(DecodeError::EmitterInternal));
    assert_eq!(d.ir().code().len(), len);
    assert_eq!(d.ir().id_bound(), 11);
}

#[test]
fn nop_word_emits_one_nop() {
    let mut d = ready();
    let before = d.ir().code().len();
    assert_eq!(d.nop(0), Ok(()));
    let code = d.ir().code();
    assert_eq!(code.len(), before + 1);
    assert_eq!(code[before], (1 << 16) | 0);
}

#[test]
fn decoding_before_init_is_rejected() {
    let mut d = Decoder::new(Emitter::new());
    assert_eq!(d.stage(), Stage::Uninitialized);
    assert_eq!(d.nop(0), Err(DecodeError::EmitterInternal));
    assert_eq!(d.fadd(0), Err(DecodeError::EmitterInternal));
    assert!(d.ir().code().is_empty());
}

#[test]
fn decoding_after_finish_is_rejected() {
    let mut d = ready();
    assert_eq!(d.finish(), Ok(()));
    assert_eq!(d.stage(), Stage::Finished);
    let len = d.ir().code().len();
    assert_eq!(d.nop(0), Err(DecodeError::EmitterInternal));
    assert_eq!(d.iadd3(0), Err(DecodeError::EmitterInternal));
    assert_eq!(d.finish(), Err(DecodeError::EmitterInternal));
    assert_eq!(d.into_emitter().code().len(), len);
}

#[test]
fn finish_before_init_is_rejected() {
    let mut d = Decoder::new(Emitter::new());
    assert_eq!(d.finish(), Err(DecodeError::EmitterInternal));
    assert_eq!(d.stage(), Stage::Uninitialized);
}

#[test]
fn register_index_255_is_out_of_range() {
    let mut d = ready();
    let len = d.ir().code().len();
    assert_eq!(d.fadd(pack(255, 24, 8)), Err(DecodeError::OperandOutOfRange));
    assert_eq!(d.fadd(pack(255, 16, 8)), Err(DecodeError::OperandOutOfRange));
    assert_eq!(d.imad(pack(255, 64, 8)), Err(DecodeError::OperandOutOfRange));
    assert_eq!(d.ldg(pack(255, 24, 8)), Err(DecodeError::OperandOutOfRange));
    assert_eq!(d.al2p(pack(255, 24, 8)), Err(DecodeError::OperandOutOfRange));
    assert_eq!(d.ir().code().len(), len);
}

#[test]
fn register_index_254_is_accepted() {
    let mut d = ready();
    let word = pack(254, 16, 8) | pack(254, 24, 8);
    assert_eq!(d.fadd(word), Err(DecodeError::UnsupportedOpcode));
}

#[test]
fn constant_bank_17_is_out_of_range() {
    let mut d = ready();
    assert_eq!(d.mov(pack(17, 54, 5)), Err(DecodeError::OperandOutOfRange));
    assert_eq!(d.mov(pack(16, 54, 5)), Err(DecodeError::UnsupportedOpcode));
    assert_eq!(d.uldc(pack(31, 54, 5)), Err(DecodeError::OperandOutOfRange));
}

#[test]
fn uniform_registers_are_accepted() {
    let mut d = ready();
    assert_eq!(d.umov(pack(63, 16, 6)), Err(DecodeError::UnsupportedOpcode));
}

#[test]
fn fields_outside_the_form_are_ignored() {
    // BPT has no register operands: any value in the register bits passes.
    let mut d = ready();
    assert_eq!(d.bpt(u128::MAX), Err(DecodeError::UnsupportedOpcode));
}

#[test]
fn unsupported_forms_leave_the_stream_untouched() {
    let mut d = ready();
    let len = d.ir().code().len();
    assert_eq!(d.tex(0), Err(DecodeError::UnsupportedOpcode));
    assert_eq!(d.hfma2(0), Err(DecodeError::UnsupportedOpcode));
    assert_eq!(d.break_(0), Err(DecodeError::UnsupportedOpcode));
    assert_eq!(d.yield_(0), Err(DecodeError::UnsupportedOpcode));
    assert_eq!(d.match_(0), Err(DecodeError::UnsupportedOpcode));
    assert_eq!(d.ir().code().len(), len);
    assert_eq!(d.ir().id_bound(), 11);
}

#[test]
fn al2p_declares_its_offset() {
    let mut d = ready();
    let len = d.ir().code().len();
    let word = pack(3, 16, 8) | pack(4, 24, 8) | pack(0x123, 40, 11);
    assert_eq!(d.al2p(word), Err(DecodeError::UnsupportedOpcode));
    let u32_type = d.types().uint32;
    assert_eq!(&d.ir().code()[len..], &[(4 << 16) | 43, u32_type, 11, 0x123]);
}

#[test]
fn al2p_wider_access_emits_nothing() {
    let mut d = ready();
    let len = d.ir().code().len();
    assert_eq!(d.al2p(pack(1, 74, 2)), Err(DecodeError::UnsupportedOpcode));
    assert_eq!(d.ir().code().len(), len);
}

#[test]
fn init_without_header_is_rejected() {
    let mut d = Decoder::new(Emitter::new());
    assert_eq!(d.init(), Err(DecodeError::EmitterInternal));
    assert_eq!(d.stage(), Stage::Uninitialized);
    assert!(d.ir().code().is_empty());
    assert_eq!(d.ir().id_bound(), 0);
}
