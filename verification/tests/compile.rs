use mil::compiler::{
    compile_op, compile_u16_expr_op, compile_u16op, write_pushb, BinCode, Compile,
};
use mil::parser::count_insts;
use mil::types::{ExpandedBuiltIn, Int256, MelExpr, Value};

fn int_expr(n: u64) -> MelExpr {
    MelExpr::Value(Value::Int(Int256::from_u64(n)))
}

fn push_int_bytes(n: u64) -> Vec<u8> {
    let mut v = vec![0xf1u8];
    v.extend_from_slice(&[0u8; 24]);
    v.extend_from_slice(&n.to_be_bytes());
    v
}

#[test]
fn push_int_literal_five() {
    let e = int_expr(5);
    let b = e.compile_onto(BinCode(Vec::new()));
    assert_eq!(b.0, push_int_bytes(5));
}

#[test]
fn push_bytes_literal() {
    let e = MelExpr::Value(Value::Bytes(vec![9, 8, 7]));
    let b = e.compile_onto(BinCode(Vec::new()));
    assert_eq!(b.0, vec![0xf0, 3, 9, 8, 7]);
}

#[test]
fn push_empty_bytes_literal() {
    let e = MelExpr::Value(Value::Bytes(Vec::new()));
    let b = e.compile_onto(BinCode(Vec::new()));
    assert_eq!(b.0, vec![0xf0, 0]);
}

#[test]
fn subtract_operand_order() {
    // subtract(5, 3) must push 3, then 5, then the subtract opcode, so
    // that the interpreter pops 5 as the left operand and computes 2.
    let e = MelExpr::BuiltIn(Box::new(ExpandedBuiltIn::Sub(int_expr(5), int_expr(3))));
    let b = e.compile_onto(BinCode(Vec::new()));
    let mut expected = push_int_bytes(3);
    expected.extend(push_int_bytes(5));
    expected.push(0x11);
    assert_eq!(b.0, expected);
}

#[test]
fn divide_operand_order() {
    let e = MelExpr::BuiltIn(Box::new(ExpandedBuiltIn::Div(int_expr(6), int_expr(2))));
    let b = e.compile_onto(BinCode(Vec::new()));
    let mut expected = push_int_bytes(2);
    expected.extend(push_int_bytes(6));
    expected.push(0x13);
    assert_eq!(b.0, expected);
}

#[test]
fn triple_operand_order() {
    // Three operands compile rightmost first.
    let e = MelExpr::BuiltIn(Box::new(ExpandedBuiltIn::Vslice(
        int_expr(1),
        int_expr(2),
        int_expr(3),
    )));
    let b = e.compile_onto(BinCode(Vec::new()));
    let mut expected = push_int_bytes(3);
    expected.extend(push_int_bytes(2));
    expected.extend(push_int_bytes(1));
    expected.push(0x54);
    assert_eq!(b.0, expected);
}

#[test]
fn loop_count_three() {
    // A loop over a body of exactly 3 instructions: 0xb0, 2-byte count 3,
    // 2-byte instruction count 3, then the body bytes.
    let body = MelExpr::Sequence(vec![MelExpr::Noop, MelExpr::Noop, int_expr(1)]);
    let e = MelExpr::Loop(3, Box::new(body));
    let b = e.compile_onto(BinCode(Vec::new()));
    let mut expected = vec![0xb0, 0, 3, 0, 3, 0x09, 0x09];
    expected.extend(push_int_bytes(1));
    assert_eq!(b.0, expected);
}

#[test]
fn sequence_concatenates_in_order() {
    let e = MelExpr::Sequence(vec![int_expr(1), int_expr(2)]);
    let b = e.compile_onto(BinCode(Vec::new()));
    let mut expected = push_int_bytes(1);
    expected.extend(push_int_bytes(2));
    assert_eq!(b.0, expected);
}

#[test]
fn heap_ops_carry_big_endian_immediates() {
    let e = MelExpr::BuiltIn(Box::new(ExpandedBuiltIn::Load(0x0102)));
    let b = e.compile_onto(BinCode(Vec::new()));
    assert_eq!(b.0, vec![0x42, 0x01, 0x02]);
    let e = MelExpr::BuiltIn(Box::new(ExpandedBuiltIn::Store(0xfffe)));
    let b = e.compile_onto(BinCode(Vec::new()));
    assert_eq!(b.0, vec![0x43, 0xff, 0xfe]);
}

#[test]
fn control_flow_carries_big_endian_immediates() {
    let e = MelExpr::BuiltIn(Box::new(ExpandedBuiltIn::<MelExpr>::Jmp(7)));
    assert_eq!(e.compile_onto(BinCode(Vec::new())).0, vec![0xa0, 0, 7]);
    let e = MelExpr::BuiltIn(Box::new(ExpandedBuiltIn::<MelExpr>::Bez(8)));
    assert_eq!(e.compile_onto(BinCode(Vec::new())).0, vec![0xa1, 0, 8]);
    let e = MelExpr::BuiltIn(Box::new(ExpandedBuiltIn::<MelExpr>::Bnz(9)));
    assert_eq!(e.compile_onto(BinCode(Vec::new())).0, vec![0xa2, 0, 9]);
}

#[test]
fn sigeok_compiles_operands_in_order() {
    let e = MelExpr::Sigeok(
        7,
        Box::new(int_expr(1)),
        Box::new(int_expr(2)),
        Box::new(int_expr(3)),
    );
    let b = e.compile_onto(BinCode(Vec::new()));
    let mut expected = push_int_bytes(1);
    expected.extend(push_int_bytes(2));
    expected.extend(push_int_bytes(3));
    expected.push(0x32);
    expected.extend(vec![0, 7]);
    assert_eq!(b.0, expected);
}

#[test]
fn hash_appends_opcode_and_immediate() {
    let e = MelExpr::Hash(2, Box::new(int_expr(4)));
    let b = e.compile_onto(BinCode(Vec::new()));
    let mut expected = push_int_bytes(4);
    expected.push(0x30);
    expected.extend(vec![0, 2]);
    assert_eq!(b.0, expected);
}

#[test]
fn noop_is_one_byte() {
    let b = MelExpr::Noop.compile_onto(BinCode(Vec::new()));
    assert_eq!(b.0, vec![0x09]);
}

#[test]
fn vempty_is_bare_opcode() {
    let e = MelExpr::BuiltIn(Box::new(ExpandedBuiltIn::<MelExpr>::Vempty));
    assert_eq!(e.compile_onto(BinCode(Vec::new())).0, vec![0x52]);
}

#[test]
fn compiling_twice_is_deterministic() {
    // Two independently empty buffers receive byte-identical results.
    let mk = || {
        MelExpr::BuiltIn(Box::new(ExpandedBuiltIn::Add(
            int_expr(11),
            MelExpr::BuiltIn(Box::new(ExpandedBuiltIn::Mul(int_expr(2), int_expr(3)))),
        )))
    };
    let b1 = mk().compile_onto(BinCode(Vec::new()));
    let b2 = mk().compile_onto(BinCode(Vec::new()));
    assert_eq!(b1.0, b2.0);
}

#[test]
fn compiling_preserves_buffer_prefix() {
    let e = int_expr(1);
    let b = e.compile_onto(BinCode(vec![0xaa, 0xbb]));
    let mut expected = vec![0xaa, 0xbb];
    expected.extend(push_int_bytes(1));
    assert_eq!(b.0, expected);
}

#[test]
fn compile_op_reverses_arguments() {
    let e1 = int_expr(5);
    let e2 = int_expr(3);
    let b = compile_op(BinCode(Vec::new()), 0x11, vec![&e1, &e2]);
    let mut expected = push_int_bytes(3);
    expected.extend(push_int_bytes(5));
    expected.push(0x11);
    assert_eq!(b.0, expected);
}

#[test]
fn compile_u16op_appends_immediate() {
    let b = compile_u16op(BinCode(Vec::new()), 0x42, &0x1234);
    assert_eq!(b.0, vec![0x42, 0x12, 0x34]);
}

#[test]
fn compile_u16_expr_op_orders_fields() {
    let e = int_expr(9);
    let b = compile_u16_expr_op(BinCode(Vec::new()), 0x30, &5, &e);
    let mut expected = push_int_bytes(9);
    expected.push(0x30);
    expected.extend(vec![0, 5]);
    assert_eq!(b.0, expected);
}

#[test]
fn write_pushb_layout() {
    let b = write_pushb(BinCode(Vec::new()), &vec![1, 2]);
    assert_eq!(b.0, vec![0xf0, 2, 1, 2]);
}

#[test]
fn count_insts_counts_opcodes() {
    // push 2, push 3, add = 3 instructions; the loop head is one more.
    let add = MelExpr::BuiltIn(Box::new(ExpandedBuiltIn::Add(int_expr(2), int_expr(3))));
    assert_eq!(count_insts(&add), 3);
    let lp = MelExpr::Loop(2, Box::new(add));
    assert_eq!(count_insts(&lp), 4);
    assert_eq!(count_insts(&MelExpr::Sequence(Vec::new())), 0);
}

#[test]
fn to_hex_renders_lowercase_pairs() {
    let b = BinCode(vec![0xde, 0xad, 0x01]);
    assert_eq!(b.to_hex(), b"dead01".to_vec());
}

#[test]
fn int256_from_u64_is_big_endian() {
    let n = Int256::from_u64(0x0102030405060708);
    let mut expected = vec![0u8; 24];
    expected.extend_from_slice(&[1, 2, 3, 4, 5, 6, 7, 8]);
    assert_eq!(n.bytes, expected);
}

#[test]
fn int256_from_be_bytes_keeps_bytes() {
    let raw: Vec<u8> = (0..32).collect();
    let n = Int256::from_be_bytes(raw.clone());
    assert_eq!(n.bytes, raw);
}
