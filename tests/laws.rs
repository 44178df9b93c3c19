use zkcir::code_ir::write_decimal;
use zkcir::expr::BinOp;
use zkcir::expr::Expression;
use zkcir::expr::Value;
use zkcir::expr::VirtualWire;
use zkcir::expr::Wire;
use zkcir::ir::CirBuilder;
use zkcir::stmt::Ident;
use zkcir::stmt::Stmt;
use zkcir::END_DISCRIMINATOR;
use zkcir::START_DISCRIMINATOR;

fn wire(row: usize, column: usize) -> Box<Expression> {
    Box::new(Wire::new(row, column).into())
}

fn op(lhs: Box<Expression>, binop: BinOp, rhs: Box<Expression>) -> Box<Expression> {
    Box::new(Expression::BinaryOperator { lhs, binop, rhs })
}

fn collect(e: &Expression, wires: &mut Vec<Wire>, virtual_wires: &mut Vec<VirtualWire>) {
    match e {
        Expression::Wire(w) => wires.push(*w),
        Expression::VirtualWire(w) => virtual_wires.push(*w),
        Expression::BinaryOperator { lhs, rhs, .. } => {
            collect(lhs, wires, virtual_wires);
            collect(rhs, wires, virtual_wires);
        }
    }
}

fn leaves_of(b: &CirBuilder) -> (Vec<Wire>, Vec<VirtualWire>) {
    let mut wires = Vec::new();
    let mut virtual_wires = Vec::new();
    for s in &b.stmts {
        match s {
            Stmt::Local(_, e) | Stmt::Verify(e) => collect(e, &mut wires, &mut virtual_wires),
        }
    }
    (wires, virtual_wires)
}

#[test]
fn set_wire_value_reaches_every_matching_leaf() {
    let mut b = CirBuilder::new();
    b.add_stmt(Stmt::Verify(*op(
        op(wire(4, 4), BinOp::Add, wire(1, 1)),
        BinOp::Equal,
        op(wire(4, 4), BinOp::Multiply, op(wire(4, 4), BinOp::Add, wire(4, 5))),
    )))
    .add_stmt(Stmt::Local(None, Expression::VirtualWire(VirtualWire::new(4))))
    .add_stmt(Stmt::Local(Some(Ident::Wire(Wire::new(4, 4))), *wire(4, 4)));
    b.set_virtual_wire_value(4, Value::U64(1));
    b.set_wire_value(4, 4, Value::U64(9));

    let (wires, virtual_wires) = leaves_of(&b);
    assert_eq!(wires.len(), 6);
    let bound: Vec<bool> = wires.iter().map(|w| w.value == Some(Value::U64(9))).collect();
    assert_eq!(bound, vec![true, false, true, true, false, true]);
    assert_eq!(wires[1], Wire::new(1, 1));
    assert_eq!(wires[4], Wire::new(4, 5));
    assert_eq!(virtual_wires, vec![VirtualWire { index: 4, value: Some(Value::U64(1)) }]);
    // the binding name is not an expression leaf
    match &b.stmts[2] {
        Stmt::Local(Some(Ident::Wire(w)), _) => assert_eq!(w.value, None),
        _ => panic!("the binding name changed"),
    }
}

#[test]
fn set_wire_value_last_writer_wins() {
    let mut b = CirBuilder::new();
    b.add_stmt(Stmt::Verify(*wire(2, 3)));
    b.set_wire_value(2, 3, Value::U64(1)).set_wire_value(2, 3, Value::Random);
    assert_eq!(leaves_of(&b).0, vec![Wire { row: 2, column: 3, value: Some(Value::Random) }]);
    b.set_wire_value(2, 3, Value::Random);
    assert_eq!(leaves_of(&b).0, vec![Wire { row: 2, column: 3, value: Some(Value::Random) }]);
}

#[test]
fn set_value_on_empty_builder_changes_nothing() {
    let mut b = CirBuilder::new();
    b.set_wire_value(0, 0, Value::U64(3)).set_virtual_wire_value(0, Value::U64(3));
    assert!(b.stmts.is_empty());
    assert_eq!(b.config.num_wires, None);
}

#[test]
fn omit_random_is_idempotent_and_keeps_concrete_values() {
    let mut b = CirBuilder::new();
    b.num_wires(8)
        .add_stmt(Stmt::Verify(*op(
            wire(0, 0),
            BinOp::Equal,
            Box::new(VirtualWire::new(7).into()),
        )))
        .add_stmt(Stmt::Local(Some(Ident::name("x")), *wire(0, 1)))
        .set_wire_value(0, 0, Value::RandomU64(u64::MAX))
        .set_wire_value(0, 1, Value::U64(5))
        .set_virtual_wire_value(7, Value::RandomU64(0));
    let once = b.omit_random();
    let twice = once.omit_random();
    assert_eq!(once.to_code_ir(), twice.to_code_ir());
    assert_eq!(once.config.num_wires, Some(8));
    let (wires, virtual_wires) = leaves_of(&once);
    assert_eq!(wires[0].value, Some(Value::Random));
    assert_eq!(wires[1].value, Some(Value::U64(5)));
    assert_eq!(virtual_wires[0].value, Some(Value::Random));
    assert_eq!(
        once.to_code_ir(),
        "verify (wire(0, 0)[random] == virtual(7)[random]);\n\nlet x = wire(0, 1)[5];"
    );
}

#[test]
fn code_ir_keeps_statement_order() {
    let mut b = CirBuilder::new();
    b.add_stmt(Stmt::Local(Some("a".into()), *wire(0, 0)))
        .add_stmt(Stmt::Verify(*wire(1, 0)))
        .add_stmt(Stmt::Local(None, Expression::VirtualWire(VirtualWire::new(2))));
    assert_eq!(
        b.to_code_ir(),
        "let a = wire(0, 0);\n\nverify wire(1, 0);\n\nlet _ = virtual(2);"
    );
    match (&b.stmts[0], &b.stmts[1], &b.stmts[2]) {
        (Stmt::Local(Some(_), _), Stmt::Verify(_), Stmt::Local(None, _)) => {}
        _ => panic!("statements out of order"),
    }
}

#[test]
fn statement_code_ir_renders_values() {
    let s = Stmt::Verify(*op(
        Box::new(
            Wire { row: 12, column: 340, value: Some(Value::RandomU64(7)) }.into(),
        ),
        BinOp::Add,
        Box::new(VirtualWire { index: 0, value: Some(Value::Random) }.into()),
    ));
    assert_eq!(s.to_code_ir(), "verify (wire(12, 340)[random 7] + virtual(0)[random]);");
}

#[test]
fn decimal_rendering() {
    let mut out = String::from("n=");
    write_decimal(&mut out, 0);
    assert_eq!(out, "n=0");
    let mut out = String::new();
    write_decimal(&mut out, u64::MAX);
    assert_eq!(out, "18446744073709551615");
    let mut out = String::new();
    write_decimal(&mut out, 1000);
    assert_eq!(out, "1000");
}

#[test]
fn cli_string_frames_the_payload() {
    let payload = "{\"config\":{\"num_wires\":null},\"stmts\":[{\"Verify\":{}}]}";
    let framed = CirBuilder::to_cli_string(Ok(payload.to_string())).unwrap();
    assert!(framed.starts_with(START_DISCRIMINATOR));
    assert!(framed.ends_with(&format!("{END_DISCRIMINATOR}\n")));
    assert_eq!(framed, format!("{START_DISCRIMINATOR}{payload}\n{END_DISCRIMINATOR}\n"));
    assert_eq!(
        CirBuilder::to_cli_string(Err("Failed serializing to json")),
        Err("Failed serializing to json")
    );
}

#[test]
fn default_builder_is_empty() {
    let b = CirBuilder::default();
    assert_eq!(b.config.num_wires, None);
    assert!(b.stmts.is_empty());
}
