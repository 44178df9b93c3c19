use vstd::prelude::*;

use crate::expr::Expression;
use crate::expr::Value;
use crate::expr::VirtualWire;
use crate::expr::Wire;

verus! {

/// The name a statement binds its result to.
#[derive(Debug)]
pub enum Ident {
    /// A free-form symbolic name.
    Name(String),
    /// A cell of the wire grid.
    Wire(Wire),
}

/// A statement of the circuit.
#[derive(Debug)]
pub enum Stmt {
    /// Binds the value of an expression, optionally to a name.
    Local(Option<Ident>, Expression),
    /// Asserts a condition; binds nothing.
    Verify(Expression),
}

impl Ident {
    /// The identifier `name`.
    pub fn name(name: &str) -> (r: Ident)
        ensures
            r matches Ident::Name(n) && n@ == name@,
    {
        Ident::Name(String::from_str(name))
    }

    /// A copy of the identifier.
    pub fn copy(&self) -> (r: Ident)
        ensures
            r == *self,
    {
        match self {
            Ident::Name(n) => Ident::Name(n.clone()),
            Ident::Wire(w) => Ident::Wire(*w),
        }
    }
}

impl From<&str> for Ident {
    fn from(name: &str) -> (r: Ident)
        ensures
            r matches Ident::Name(n) && n@ == name@,
    {
        Ident::name(name)
    }
}

/// A name's `String` is not a spec value, so the conversion's result is stated
/// on `from` alone.
impl vstd::std_specs::convert::FromSpecImpl<&str> for Ident {
    open spec fn obeys_from_spec() -> bool {
        false
    }

    open spec fn from_spec(name: &str) -> Ident {
        arbitrary()
    }
}

impl From<Wire> for Ident {
    fn from(w: Wire) -> (r: Ident)
        ensures
            r == Ident::Wire(w),
    {
        Ident::Wire(w)
    }
}

impl vstd::std_specs::convert::FromSpecImpl<Wire> for Ident {
    open spec fn obeys_from_spec() -> bool {
        true
    }

    open spec fn from_spec(w: Wire) -> Ident {
        Ident::Wire(w)
    }
}

impl Stmt {
    /// The expression the statement wraps.
    pub open spec fn expr(self) -> Expression {
        match self {
            Stmt::Local(_, e) => e,
            Stmt::Verify(e) => e,
        }
    }

    /// The statement with its expression replaced by `e`; the binding name is kept.
    pub open spec fn with_expr(self, e: Expression) -> Stmt {
        match self {
            Stmt::Local(id, _) => Stmt::Local(id, e),
            Stmt::Verify(_) => Stmt::Verify(e),
        }
    }

    /// Binds every wire leaf of identity `(row, column)` in the statement's
    /// expression to `value`. The binding name is not an expression leaf and is
    /// left as it is.
    pub fn visit_wires(self, row: usize, column: usize, value: Value) -> (r: Stmt)
        ensures
            r == self.with_expr(self.expr().with_wire_value(row, column, value)),
    {
        match self {
            Stmt::Local(id, e) => Stmt::Local(id, e.visit_wires(row, column, value)),
            Stmt::Verify(e) => Stmt::Verify(e.visit_wires(row, column, value)),
        }
    }

    /// Binds every virtual-wire leaf of identity `index` in the statement's
    /// expression to `value`.
    pub fn visit_virtual_wires(self, index: usize, value: Value) -> (r: Stmt)
        ensures
            r == self.with_expr(self.expr().with_virtual_wire_value(index, value)),
    {
        match self {
            Stmt::Local(id, e) => Stmt::Local(id, e.visit_virtual_wires(index, value)),
            Stmt::Verify(e) => Stmt::Verify(e.visit_virtual_wires(index, value)),
        }
    }

    /// A copy of the statement in which every sampled random value is elided.
    pub fn redact_random(&self) -> (r: Stmt)
        ensures
            r == self.with_expr(self.expr().redacted()),
    {
        match self {
            Stmt::Local(id, e) => {
                let id2 = match id {
                    Some(i) => Some(i.copy()),
                    None => None,
                };
                Stmt::Local(id2, e.redact_random())
            },
            Stmt::Verify(e) => Stmt::Verify(e.redact_random()),
        }
    }
}

} // verus!
