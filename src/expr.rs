use vstd::prelude::*;

verus! {

/// A bound value carried by a wire. An unbound wire holds no `Value` at all.
#[derive(Clone, Copy, PartialEq, Eq, Structural, Debug)]
pub enum Value {
    /// A fixed numeric constant.
    U64(u64),
    /// A random value whose content is elided.
    Random,
    /// A sampled random value, kept apart from `U64` so that it can be redacted.
    RandomU64(u64),
}

/// A cell of the two-dimensional wire grid; its identity is `(row, column)`.
#[derive(Clone, Copy, Debug, PartialEq, Eq, Structural)]
pub struct Wire {
    pub row: usize,
    pub column: usize,
    pub value: Option<Value>,
}

/// A cell of the flat virtual-wire space; its identity is `index`.
#[derive(Clone, Copy, Debug, PartialEq, Eq, Structural)]
pub struct VirtualWire {
    pub index: usize,
    pub value: Option<Value>,
}

#[derive(Clone, Copy, Debug, PartialEq, Eq, Structural)]
pub enum BinOp {
    Add,
    Multiply,
    Equal,
}

/// An expression tree over wires and virtual wires.
#[derive(Debug)]
pub enum Expression {
    Wire(Wire),
    VirtualWire(VirtualWire),
    BinaryOperator { lhs: Box<Expression>, binop: BinOp, rhs: Box<Expression> },
}

impl Wire {
    pub fn new(row: usize, column: usize) -> (r: Wire)
        ensures
            r == (Wire { row, column, value: None }),
    {
        Wire { row, column, value: None }
    }
}

impl VirtualWire {
    pub fn new(index: usize) -> (r: VirtualWire)
        ensures
            r == (VirtualWire { index, value: None }),
    {
        VirtualWire { index, value: None }
    }
}

impl From<Wire> for Expression {
    fn from(w: Wire) -> (r: Expression)
        ensures
            r == Expression::Wire(w),
    {
        Expression::Wire(w)
    }
}

impl vstd::std_specs::convert::FromSpecImpl<Wire> for Expression {
    open spec fn obeys_from_spec() -> bool {
        true
    }

    open spec fn from_spec(w: Wire) -> Expression {
        Expression::Wire(w)
    }
}

impl From<VirtualWire> for Expression {
    fn from(w: VirtualWire) -> (r: Expression)
        ensures
            r == Expression::VirtualWire(w),
    {
        Expression::VirtualWire(w)
    }
}

impl vstd::std_specs::convert::FromSpecImpl<VirtualWire> for Expression {
    open spec fn obeys_from_spec() -> bool {
        true
    }

    open spec fn from_spec(w: VirtualWire) -> Expression {
        Expression::VirtualWire(w)
    }
}

/// `v` with a sampled random payload replaced by the elided marker.
pub open spec fn redact_value(v: Option<Value>) -> Option<Value> {
    match v {
        Some(Value::RandomU64(_)) => Some(Value::Random),
        _ => v,
    }
}

pub open spec fn is_random_payload(v: Option<Value>) -> bool {
    v matches Some(Value::RandomU64(_))
}

/// The wire after a binding of `(row, column)` to `value`.
pub open spec fn bind_wire(w: Wire, row: usize, column: usize, value: Value) -> Wire {
    if w.row == row && w.column == column {
        Wire { value: Some(value), ..w }
    } else {
        w
    }
}

/// The virtual wire after a binding of `index` to `value`.
pub open spec fn bind_virtual_wire(w: VirtualWire, index: usize, value: Value) -> VirtualWire {
    if w.index == index {
        VirtualWire { value: Some(value), ..w }
    } else {
        w
    }
}

pub open spec fn redact_wire(w: Wire) -> Wire {
    Wire { value: redact_value(w.value), ..w }
}

pub open spec fn redact_virtual_wire(w: VirtualWire) -> VirtualWire {
    VirtualWire { value: redact_value(w.value), ..w }
}

impl Expression {
    /// The wire leaves of the tree, left to right.
    pub open spec fn wires(self) -> Seq<Wire>
        decreases self,
    {
        match self {
            Expression::Wire(w) => seq![w],
            Expression::VirtualWire(_) => Seq::empty(),
            Expression::BinaryOperator { lhs, rhs, .. } => lhs.wires() + rhs.wires(),
        }
    }

    /// The virtual-wire leaves of the tree, left to right.
    pub open spec fn virtual_wires(self) -> Seq<VirtualWire>
        decreases self,
    {
        match self {
            Expression::Wire(_) => Seq::empty(),
            Expression::VirtualWire(w) => seq![w],
            Expression::BinaryOperator { lhs, rhs, .. } => lhs.virtual_wires()
                + rhs.virtual_wires(),
        }
    }

    /// The tree with every wire leaf of identity `(row, column)` bound to `value`.
    pub open spec fn with_wire_value(self, row: usize, column: usize, value: Value) -> Expression
        decreases self,
    {
        match self {
            Expression::Wire(w) => Expression::Wire(bind_wire(w, row, column, value)),
            Expression::VirtualWire(_) => self,
            Expression::BinaryOperator { lhs, binop, rhs } => Expression::BinaryOperator {
                lhs: Box::new(lhs.with_wire_value(row, column, value)),
                binop,
                rhs: Box::new(rhs.with_wire_value(row, column, value)),
            },
        }
    }

    /// The tree with every virtual-wire leaf of identity `index` bound to `value`.
    pub open spec fn with_virtual_wire_value(self, index: usize, value: Value) -> Expression
        decreases self,
    {
        match self {
            Expression::Wire(_) => self,
            Expression::VirtualWire(w) => Expression::VirtualWire(
                bind_virtual_wire(w, index, value),
            ),
            Expression::BinaryOperator { lhs, binop, rhs } => Expression::BinaryOperator {
                lhs: Box::new(lhs.with_virtual_wire_value(index, value)),
                binop,
                rhs: Box::new(rhs.with_virtual_wire_value(index, value)),
            },
        }
    }

    /// The tree with every sampled random value, on either kind of leaf, elided.
    pub open spec fn redacted(self) -> Expression
        decreases self,
    {
        match self {
            Expression::Wire(w) => Expression::Wire(redact_wire(w)),
            Expression::VirtualWire(w) => Expression::VirtualWire(redact_virtual_wire(w)),
            Expression::BinaryOperator { lhs, binop, rhs } => Expression::BinaryOperator {
                lhs: Box::new(lhs.redacted()),
                binop,
                rhs: Box::new(rhs.redacted()),
            },
        }
    }

    /// Visits every wire leaf, depth first and left to right, and binds those of
    /// identity `(row, column)` to `value`.
    pub fn visit_wires(self, row: usize, column: usize, value: Value) -> (r: Expression)
        ensures
            r == self.with_wire_value(row, column, value),
        decreases self,
    {
        match self {
            Expression::Wire(w) => {
                if w.row == row && w.column == column {
                    Expression::Wire(Wire { row: w.row, column: w.column, value: Some(value) })
                } else {
                    Expression::Wire(w)
                }
            },
            Expression::VirtualWire(w) => Expression::VirtualWire(w),
            Expression::BinaryOperator { lhs, binop, rhs } => Expression::BinaryOperator {
                lhs: Box::new((*lhs).visit_wires(row, column, value)),
                binop,
                rhs: Box::new((*rhs).visit_wires(row, column, value)),
            },
        }
    }

    /// Visits every virtual-wire leaf, depth first and left to right, and binds
    /// those of identity `index` to `value`.
    pub fn visit_virtual_wires(self, index: usize, value: Value) -> (r: Expression)
        ensures
            r == self.with_virtual_wire_value(index, value),
        decreases self,
    {
        match self {
            Expression::Wire(w) => Expression::Wire(w),
            Expression::VirtualWire(w) => {
                if w.index == index {
                    Expression::VirtualWire(VirtualWire { index: w.index, value: Some(value) })
                } else {
                    Expression::VirtualWire(w)
                }
            },
            Expression::BinaryOperator { lhs, binop, rhs } => Expression::BinaryOperator {
                lhs: Box::new((*lhs).visit_virtual_wires(index, value)),
                binop,
                rhs: Box::new((*rhs).visit_virtual_wires(index, value)),
            },
        }
    }

    /// A copy of the tree in which every sampled random value is elided.
    pub fn redact_random(&self) -> (r: Expression)
        ensures
            r == self.redacted(),
        decreases self,
    {
        match self {
            Expression::Wire(w) => Expression::Wire(
                Wire { row: w.row, column: w.column, value: redact(w.value) },
            ),
            Expression::VirtualWire(w) => Expression::VirtualWire(
                VirtualWire { index: w.index, value: redact(w.value) },
            ),
            Expression::BinaryOperator { lhs, binop, rhs } => Expression::BinaryOperator {
                lhs: Box::new(lhs.redact_random()),
                binop: *binop,
                rhs: Box::new(rhs.redact_random()),
            },
        }
    }
}

fn redact(v: Option<Value>) -> (r: Option<Value>)
    ensures
        r == redact_value(v),
{
    match v {
        Some(Value::RandomU64(_)) => Some(Value::Random),
        _ => v,
    }
}

/// Redaction leaves no sampled random payload on any leaf.
pub proof fn lemma_redacted_has_no_random_payload(e: Expression)
    ensures
        forall|i: int| 0 <= i < e.redacted().wires().len()
            ==> !is_random_payload(#[trigger] e.redacted().wires()[i].value),
        forall|i: int| 0 <= i < e.redacted().virtual_wires().len()
            ==> !is_random_payload(#[trigger] e.redacted().virtual_wires()[i].value),
    decreases e,
{
    match e {
        Expression::BinaryOperator { lhs, rhs, .. } => {
            lemma_redacted_has_no_random_payload(*lhs);
            lemma_redacted_has_no_random_payload(*rhs);
            let l = lhs.redacted();
            let r = rhs.redacted();
            assert forall|i: int| 0 <= i < e.redacted().wires().len()
                implies !is_random_payload(#[trigger] e.redacted().wires()[i].value) by {
                if i >= l.wires().len() {
                    assert(e.redacted().wires()[i] == r.wires()[i - l.wires().len()]);
                }
            }
            assert forall|i: int| 0 <= i < e.redacted().virtual_wires().len()
                implies !is_random_payload(#[trigger] e.redacted().virtual_wires()[i].value) by {
                if i >= l.virtual_wires().len() {
                    assert(e.redacted().virtual_wires()[i] == r.virtual_wires()[
                        i - l.virtual_wires().len()
                    ]);
                }
            }
        },
        _ => {},
    }
}

/// Redacting twice is redacting once.
pub proof fn lemma_redacted_idempotent(e: Expression)
    ensures
        e.redacted().redacted() == e.redacted(),
    decreases e,
{
    match e {
        Expression::BinaryOperator { lhs, rhs, .. } => {
            lemma_redacted_idempotent(*lhs);
            lemma_redacted_idempotent(*rhs);
        },
        _ => {},
    }
}

/// Binding `(row, column)` binds exactly the wire leaves of that identity, keeps
/// the order and number of leaves, and leaves every virtual-wire leaf as it was.
pub proof fn lemma_wire_binding_leaves(e: Expression, row: usize, column: usize, value: Value)
    ensures
        e.with_wire_value(row, column, value).wires() == e.wires().map_values(
            |w: Wire| bind_wire(w, row, column, value),
        ),
        e.with_wire_value(row, column, value).virtual_wires() == e.virtual_wires(),
    decreases e,
{
    match e {
        Expression::BinaryOperator { lhs, rhs, .. } => {
            lemma_wire_binding_leaves(*lhs, row, column, value);
            lemma_wire_binding_leaves(*rhs, row, column, value);
            assert(e.with_wire_value(row, column, value).wires() =~= e.wires().map_values(
                |w: Wire| bind_wire(w, row, column, value),
            ));
        },
        Expression::Wire(_) => {
            assert(e.with_wire_value(row, column, value).wires() =~= e.wires().map_values(
                |w: Wire| bind_wire(w, row, column, value),
            ));
        },
        Expression::VirtualWire(_) => {
            assert(e.with_wire_value(row, column, value).wires() =~= e.wires().map_values(
                |w: Wire| bind_wire(w, row, column, value),
            ));
        },
    }
}

/// Binding `index` binds exactly the virtual-wire leaves of that identity, keeps
/// the order and number of leaves, and leaves every wire leaf as it was.
pub proof fn lemma_virtual_wire_binding_leaves(e: Expression, index: usize, value: Value)
    ensures
        e.with_virtual_wire_value(index, value).virtual_wires() == e.virtual_wires().map_values(
            |w: VirtualWire| bind_virtual_wire(w, index, value),
        ),
        e.with_virtual_wire_value(index, value).wires() == e.wires(),
    decreases e,
{
    match e {
        Expression::BinaryOperator { lhs, rhs, .. } => {
            lemma_virtual_wire_binding_leaves(*lhs, index, value);
            lemma_virtual_wire_binding_leaves(*rhs, index, value);
            assert(e.with_virtual_wire_value(index, value).virtual_wires()
                =~= e.virtual_wires().map_values(
                |w: VirtualWire| bind_virtual_wire(w, index, value),
            ));
        },
        _ => {
            assert(e.with_virtual_wire_value(index, value).virtual_wires()
                =~= e.virtual_wires().map_values(
                |w: VirtualWire| bind_virtual_wire(w, index, value),
            ));
        },
    }
}

} // verus!
