use oboromi_core::spirv::{Emitter, SpirvNumericLiteral, MAGIC_NUMBER};

/// An emitter whose stream holds the module's header.
fn started() -> Emitter {
    let mut e = Emitter::new();
    e.emit_header();
    assert!(e.header_written());
    e
}

#[test]
fn new_emitter_is_empty() {
    let e = Emitter::new();
    assert!(e.code().is_empty());
    assert_eq!(e.id_bound(), 0);
    let d = Emitter::default();
    assert!(d.code().is_empty());
    assert_eq!(d.id_bound(), 0);
}

#[test]
fn new_id_counts_up_from_zero() {
    let mut e = Emitter::new();
    let ids: Vec<u32> = (0..100).map(|_| e.new_id()).collect();
    for (i, id) in ids.iter().enumerate() {
        assert_eq!(*id, i as u32);
    }
    for w in ids.windows(2) {
        assert!(w[0] < w[1]);
    }
    assert_eq!(e.id_bound(), 100);
    assert!(e.code().is_empty());
}

#[test]
fn header_writes_magic_number() {
    let mut e = Emitter::new();
    e.emit_header();
    assert_eq!(e.code(), &vec![0x0723_0203]);
    assert_eq!(MAGIC_NUMBER, 0x0723_0203);
    assert!(e.header_written());
}

#[test]
fn fresh_emitter_has_no_header() {
    assert!(!Emitter::new().header_written());
    let mut e = Emitter::new();
    let _ = e.new_id();
    assert!(!e.header_written());
}

#[test]
fn generic_header_holds_opcode_and_count() {
    let mut e = Emitter::new();
    e.emit_header();
    e.emit_generic(61, &[7, 8, 9]);
    let code = e.code();
    assert_eq!(code.len(), 5);
    assert_eq!(code[1] & 0xFFFF, 61);
    assert_eq!(code[1] >> 16, 4);
    assert_eq!(&code[2..], &[7, 8, 9]);
}

#[test]
fn generic_without_operands_is_one_word() {
    let mut e = started();
    e.emit_generic(0xFFFF, &[]);
    assert_eq!(&e.code()[1..], &[0x0001_FFFF]);
}

#[test]
fn nop_is_one_word() {
    let mut e = started();
    e.emit_nop();
    assert_eq!(&e.code()[1..], &[(1 << 16) | 0]);
}

#[test]
fn undef_takes_a_fresh_id() {
    let mut e = started();
    let t = e.emit_type_bool();
    let u = e.emit_undef(t);
    assert_eq!((t, u), (0, 1));
    assert_eq!(&e.code()[1..], &[(2 << 16) | 20, 0, (3 << 16) | 1, 0, 1]);
}

#[test]
fn int_type_declared_twice_gets_two_ids() {
    let mut e = started();
    let a = e.emit_type_int(32, 0);
    let b = e.emit_type_int(32, 0);
    assert_ne!(a, b);
    let code = e.code();
    assert_eq!(code.len(), 9);
    assert_eq!(&code[1..5], &[(4 << 16) | 21, a, 32, 0]);
    assert_eq!(&code[5..9], &[(4 << 16) | 21, b, 32, 0]);
    assert_ne!(&code[1..5], &code[5..9]);
}

#[test]
fn scalar_and_composite_types() {
    let mut e = started();
    let void = e.emit_type_void();
    let f = e.emit_type_float(32);
    let v = e.emit_type_vector(f, 4);
    let m = e.emit_type_matrix(v, 4);
    let s = e.emit_type_sampler();
    let a = e.emit_type_array(f, 9);
    let ra = e.emit_type_runtime_array(f);
    assert_eq!((void, f, v, m, s, a, ra), (0, 1, 2, 3, 4, 5, 6));
    assert_eq!(
        &e.code()[1..],
        &[
            (2 << 16) | 19, 0,
            (3 << 16) | 22, 1, 32,
            (4 << 16) | 23, 2, 1, 4,
            (4 << 16) | 24, 3, 2, 4,
            (2 << 16) | 26, 4,
            (4 << 16) | 28, 5, 1, 9,
            (3 << 16) | 29, 6, 1,
        ]
    );
}

#[test]
fn image_types() {
    let mut e = started();
    let f = e.emit_type_float(32);
    let img = e.emit_type_image(f, 1, 0, 1, 0, 1, 0, &[2]);
    let si = e.emit_type_sampled_image(img);
    assert_eq!((img, si), (1, 2));
    assert_eq!(&e.code()[4..], &[(10 << 16) | 25, 1, 0, 1, 0, 1, 0, 1, 0, 2, (3 << 16) | 27, 2, 1]);
}

#[test]
fn boolean_constants() {
    let mut e = started();
    let b = e.emit_type_bool();
    let t = e.emit_constant_true(b);
    let f = e.emit_constant_false(b);
    assert_eq!(&e.code()[3..], &[(3 << 16) | 41, b, t, (3 << 16) | 42, b, f]);
}

#[test]
fn constant_typed_u32_is_one_literal_word() {
    let mut e = started();
    let t = e.emit_type_int(32, 0);
    let start = e.code().len();
    let c = e.emit_constant_typed(t, 42u32);
    assert_ne!(c, t);
    assert_eq!(&e.code()[start..], &[(4 << 16) | 43, t, c, 42]);
}

#[test]
fn constant_typed_small_widths() {
    let mut e = started();
    let a = e.emit_constant_typed(3, 200u8);
    let b = e.emit_constant_typed(4, 0xBEEFu16);
    assert_eq!(&e.code()[1..], &[(4 << 16) | 43, 3, a, 200, (4 << 16) | 43, 4, b, 0xBEEF]);
}

#[test]
fn constant_typed_u64_puts_low_word_first() {
    let mut e = started();
    let c = e.emit_constant_typed(7, 0x1122_3344_5566_7788u64);
    assert_eq!(&e.code()[1..], &[(5 << 16) | 43, 7, c, 0x5566_7788, 0x1122_3344]);
    assert_eq!(0x1_0000_0002u64.to_words(), vec![2, 1]);
    assert_eq!(9u8.to_words(), vec![9]);
}

#[test]
fn constant_from_words() {
    let mut e = started();
    let c = e.emit_constant(5, &[1, 2]);
    assert_eq!(&e.code()[1..], &[(5 << 16) | 43, 5, c, 1, 2]);
}

#[test]
fn decorations() {
    let mut e = started();
    e.emit_decorate(10, 30, &[1]);
    e.emit_member_decorate(11, 2, 35, &[16]);
    let g = e.emit_decoration_group();
    e.emit_group_decorate(g, &[10, 11]);
    assert_eq!(
        e.into_words(),
        vec![
            MAGIC_NUMBER,
            (4 << 16) | 71, 10, 30, 1,
            (5 << 16) | 72, 11, 2, 35, 16,
            (2 << 16) | 73, 0,
            (4 << 16) | 74, 0, 10, 11,
        ]
    );
}

#[test]
fn decorate_without_literals() {
    let mut e = started();
    e.emit_decorate(3, 4, &[]);
    assert_eq!(&e.code()[1..], &[(3 << 16) | 71, 3, 4]);
}
