use vstd::prelude::*;

use crate::expr::BinOp;
use crate::expr::Expression;
use crate::expr::Value;
use crate::expr::VirtualWire;
use crate::expr::Wire;
use crate::stmt::Ident;
use crate::stmt::Stmt;

verus! {

pub open spec fn digit_char(d: nat) -> char {
    if d == 0 {
        '0'
    } else if d == 1 {
        '1'
    } else if d == 2 {
        '2'
    } else if d == 3 {
        '3'
    } else if d == 4 {
        '4'
    } else if d == 5 {
        '5'
    } else if d == 6 {
        '6'
    } else if d == 7 {
        '7'
    } else if d == 8 {
        '8'
    } else {
        '9'
    }
}

/// The decimal digits of `n`, most significant first, without leading zeros.
pub open spec fn decimal(n: nat) -> Seq<char>
    decreases n,
{
    if n < 10 {
        seq![digit_char(n)]
    } else {
        decimal(n / 10).push(digit_char(n % 10))
    }
}

pub open spec fn value_code(v: Value) -> Seq<char> {
    match v {
        Value::U64(n) => decimal(n as nat),
        Value::Random => "random"@,
        Value::RandomU64(n) => "random "@ + decimal(n as nat),
    }
}

/// What follows a leaf: nothing when unbound, else the value in brackets.
pub open spec fn binding_code(v: Option<Value>) -> Seq<char> {
    match v {
        None => Seq::empty(),
        Some(x) => "["@ + value_code(x) + "]"@,
    }
}

pub open spec fn wire_code(w: Wire) -> Seq<char> {
    "wire("@ + decimal(w.row as nat) + ", "@ + decimal(w.column as nat) + ")"@ + binding_code(
        w.value,
    )
}

pub open spec fn virtual_wire_code(w: VirtualWire) -> Seq<char> {
    "virtual("@ + decimal(w.index as nat) + ")"@ + binding_code(w.value)
}

pub open spec fn binop_code(op: BinOp) -> Seq<char> {
    match op {
        BinOp::Add => "+"@,
        BinOp::Multiply => "*"@,
        BinOp::Equal => "=="@,
    }
}

/// The code form of an expression; every operation is parenthesised.
pub open spec fn expr_code(e: Expression) -> Seq<char>
    decreases e,
{
    match e {
        Expression::Wire(w) => wire_code(w),
        Expression::VirtualWire(w) => virtual_wire_code(w),
        Expression::BinaryOperator { lhs, binop, rhs } => "("@ + expr_code(*lhs) + " "@
            + binop_code(binop) + " "@ + expr_code(*rhs) + ")"@,
    }
}

pub open spec fn ident_code(id: Ident) -> Seq<char> {
    match id {
        Ident::Name(n) => n@,
        Ident::Wire(w) => wire_code(w),
    }
}

/// The code form of a statement: `let <name> = <expr>;` (`_` for no name) or
/// `verify <expr>;`.
pub open spec fn stmt_code(s: Stmt) -> Seq<char> {
    match s {
        Stmt::Local(Some(id), e) => "let "@ + ident_code(id) + " = "@ + expr_code(e) + ";"@,
        Stmt::Local(None, e) => "let _ = "@ + expr_code(e) + ";"@,
        Stmt::Verify(e) => "verify "@ + expr_code(e) + ";"@,
    }
}

/// The code forms of `stmts`, in order, with a blank line between two statements.
pub open spec fn stmts_code(stmts: Seq<Stmt>) -> Seq<char>
    decreases stmts.len(),
{
    if stmts.len() == 0 {
        Seq::empty()
    } else if stmts.len() == 1 {
        stmt_code(stmts[0])
    } else {
        stmts_code(stmts.drop_last()) + "\n\n"@ + stmt_code(stmts.last())
    }
}

fn digit_str(d: u64) -> (r: &'static str)
    requires
        d < 10,
    ensures
        r@ == seq![digit_char(d as nat)],
{
    proof {
        reveal_strlit("0");
        reveal_strlit("1");
        reveal_strlit("2");
        reveal_strlit("3");
        reveal_strlit("4");
        reveal_strlit("5");
        reveal_strlit("6");
        reveal_strlit("7");
        reveal_strlit("8");
        reveal_strlit("9");
    }
    if d == 0 {
        "0"
    } else if d == 1 {
        "1"
    } else if d == 2 {
        "2"
    } else if d == 3 {
        "3"
    } else if d == 4 {
        "4"
    } else if d == 5 {
        "5"
    } else if d == 6 {
        "6"
    } else if d == 7 {
        "7"
    } else if d == 8 {
        "8"
    } else {
        "9"
    }
}

/// Appends the decimal digits of `n`.
pub fn write_decimal(out: &mut String, n: u64)
    ensures
        final(out)@ == old(out)@ + decimal(n as nat),
    decreases n,
{
    if n >= 10 {
        write_decimal(out, n / 10);
    }
    out.append(digit_str(n % 10));
    assert(final(out)@ =~= old(out)@ + decimal(n as nat));
}

fn write_value(out: &mut String, v: Value)
    ensures
        final(out)@ == old(out)@ + value_code(v),
{
    match v {
        Value::U64(n) => write_decimal(out, n),
        Value::Random => out.append("random"),
        Value::RandomU64(n) => {
            out.append("random ");
            write_decimal(out, n);
        },
    }
    assert(final(out)@ =~= old(out)@ + value_code(v));
}

fn write_binding(out: &mut String, v: Option<Value>)
    ensures
        final(out)@ == old(out)@ + binding_code(v),
{
    match v {
        None => {},
        Some(x) => {
            out.append("[");
            write_value(out, x);
            out.append("]");
        },
    }
    assert(final(out)@ =~= old(out)@ + binding_code(v));
}

fn write_wire(out: &mut String, w: &Wire)
    ensures
        final(out)@ == old(out)@ + wire_code(*w),
{
    out.append("wire(");
    write_decimal(out, w.row as u64);
    out.append(", ");
    write_decimal(out, w.column as u64);
    out.append(")");
    write_binding(out, w.value);
    assert(final(out)@ =~= old(out)@ + wire_code(*w));
}

fn write_virtual_wire(out: &mut String, w: &VirtualWire)
    ensures
        final(out)@ == old(out)@ + virtual_wire_code(*w),
{
    out.append("virtual(");
    write_decimal(out, w.index as u64);
    out.append(")");
    write_binding(out, w.value);
    assert(final(out)@ =~= old(out)@ + virtual_wire_code(*w));
}

fn binop_str(op: BinOp) -> (r: &'static str)
    ensures
        r@ == binop_code(op),
{
    match op {
        BinOp::Add => "+",
        BinOp::Multiply => "*",
        BinOp::Equal => "==",
    }
}

/// Appends the code form of `e`.
pub fn write_expr(out: &mut String, e: &Expression)
    ensures
        final(out)@ == old(out)@ + expr_code(*e),
    decreases e,
{
    match e {
        Expression::Wire(w) => write_wire(out, w),
        Expression::VirtualWire(w) => write_virtual_wire(out, w),
        Expression::BinaryOperator { lhs, binop, rhs } => {
            out.append("(");
            write_expr(out, lhs);
            out.append(" ");
            out.append(binop_str(*binop));
            out.append(" ");
            write_expr(out, rhs);
            out.append(")");
        },
    }
    assert(final(out)@ =~= old(out)@ + expr_code(*e));
}

/// Appends the code form of `s`.
pub fn write_stmt(out: &mut String, s: &Stmt)
    ensures
        final(out)@ == old(out)@ + stmt_code(*s),
{
    match s {
        Stmt::Local(Some(id), e) => {
            out.append("let ");
            match id {
                Ident::Name(n) => out.append(n.as_str()),
                Ident::Wire(w) => write_wire(out, w),
            }
            out.append(" = ");
            write_expr(out, e);
            out.append(";");
        },
        Stmt::Local(None, e) => {
            out.append("let _ = ");
            write_expr(out, e);
            out.append(";");
        },
        Stmt::Verify(e) => {
            out.append("verify ");
            write_expr(out, e);
            out.append(";");
        },
    }
    assert(final(out)@ =~= old(out)@ + stmt_code(*s));
}

impl Stmt {
    /// The human-readable code form of the statement.
    pub fn to_code_ir(&self) -> (r: String)
        ensures
            r@ == stmt_code(*self),
    {
        let mut out = String::new();
        write_stmt(&mut out, self);
        out
    }
}

} // verus!
