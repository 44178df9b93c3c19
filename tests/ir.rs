use zkcir::expr::BinOp;
use zkcir::expr::Expression;
use zkcir::expr::Value;
use zkcir::expr::VirtualWire;
use zkcir::expr::Wire;
use zkcir::ir::CirBuilder;
use zkcir::stmt::Ident;
use zkcir::stmt::Stmt;

fn binop_circuit(name: Option<Ident>) -> Stmt {
    Stmt::Local(
        name,
        Expression::BinaryOperator {
            lhs: Box::new(Expression::BinaryOperator {
                lhs: Box::new(Wire::new(1, 2).into()),
                binop: BinOp::Add,
                rhs: Box::new(VirtualWire::new(3).into()),
            }),
            binop: BinOp::Multiply,
            rhs: Box::new(Wire::new(5, 6).into()),
        },
    )
}

fn leaves(e: &Expression, wires: &mut Vec<Wire>, virtual_wires: &mut Vec<VirtualWire>) {
    match e {
        Expression::Wire(w) => wires.push(*w),
        Expression::VirtualWire(w) => virtual_wires.push(*w),
        Expression::BinaryOperator { lhs, rhs, .. } => {
            leaves(lhs, wires, virtual_wires);
            leaves(rhs, wires, virtual_wires);
        }
    }
}

fn all_leaves(b: &CirBuilder) -> (Vec<Wire>, Vec<VirtualWire>) {
    let mut wires = Vec::new();
    let mut virtual_wires = Vec::new();
    for s in &b.stmts {
        match s {
            Stmt::Local(_, e) | Stmt::Verify(e) => leaves(e, &mut wires, &mut virtual_wires),
        }
    }
    (wires, virtual_wires)
}

#[test]
fn test_valid_cir() {
    let mut b = CirBuilder::new();
    let b = b.num_wires(10);
    assert_eq!(b.config.num_wires, Some(10));
    assert!(b.stmts.is_empty());
    assert_eq!(b.to_code_ir(), "");
}

#[test]
fn test_no_wires() {
    let b = CirBuilder::new();
    assert_eq!(b.config.num_wires, None);
    assert!(b.stmts.is_empty());
    assert_eq!(b.to_code_ir(), "");
}

#[test]
fn test_binop() {
    let mut circuit = CirBuilder::new();
    circuit
        .add_stmt(binop_circuit(Some(Ident::Wire(Wire::new(3, 2)))))
        .set_wire_value(5, 6, Value::U64(32))
        .set_virtual_wire_value(3, Value::U64(23));

    let (wires, virtual_wires) = all_leaves(&circuit);
    assert_eq!(wires.len(), 2);
    assert_eq!(wires[0], Wire { row: 1, column: 2, value: None });
    assert_eq!(wires[1], Wire { row: 5, column: 6, value: Some(Value::U64(32)) });
    assert_eq!(virtual_wires, vec![VirtualWire { index: 3, value: Some(Value::U64(23)) }]);
    match &circuit.stmts[0] {
        Stmt::Local(Some(Ident::Wire(w)), _) => assert_eq!(*w, Wire::new(3, 2)),
        _ => panic!("the statement lost its binding"),
    }
    assert_eq!(
        circuit.to_code_ir(),
        "let wire(3, 2) = ((wire(1, 2) + virtual(3)[23]) * wire(5, 6)[32]);"
    );
}

#[test]
fn test_verify() {
    let mut b = CirBuilder::new();
    b.add_stmt(Stmt::Verify(Expression::BinaryOperator {
        lhs: Box::new(Wire::new(5, 6).into()),
        binop: BinOp::Equal,
        rhs: Box::new(Wire::new(5, 6).into()),
    }));
    assert_eq!(b.stmts.len(), 1);
    assert_eq!(b.to_code_ir(), "verify (wire(5, 6) == wire(5, 6));");
    let (wires, virtual_wires) = all_leaves(&b);
    assert_eq!(wires, vec![Wire::new(5, 6), Wire::new(5, 6)]);
    assert!(virtual_wires.is_empty());
}

#[test]
fn test_omit_random() {
    let mut b = CirBuilder::new();
    b.add_stmt(binop_circuit(Some("rand".into())))
        .set_wire_value(5, 6, Value::RandomU64(32))
        .set_virtual_wire_value(3, Value::U64(23));

    assert_eq!(
        b.to_code_ir(),
        "let rand = ((wire(1, 2) + virtual(3)[23]) * wire(5, 6)[random 32]);"
    );
    let omitted = b.omit_random();
    assert_eq!(
        omitted.to_code_ir(),
        "let rand = ((wire(1, 2) + virtual(3)[23]) * wire(5, 6)[random]);"
    );
    let (wires, virtual_wires) = all_leaves(&omitted);
    assert_eq!(wires[1].value, Some(Value::Random));
    assert_eq!(virtual_wires[0].value, Some(Value::U64(23)));
    // the builder itself keeps its sampled value
    let (wires, _) = all_leaves(&b);
    assert_eq!(wires[1].value, Some(Value::RandomU64(32)));
}
