use vstd::prelude::*;

use crate::code_ir::stmts_code;
use crate::code_ir::write_stmt;
use crate::expr::Expression;
use crate::expr::Value;
use crate::stmt::Stmt;
use crate::END_DISCRIMINATOR;
use crate::START_DISCRIMINATOR;

verus! {

/// Metadata of a circuit.
#[derive(Clone, Copy, Debug, PartialEq, Eq, Structural)]
pub struct Config {
    /// A declared grid-size hint; it is never checked against the wires.
    pub num_wires: Option<u64>,
}

/// An ordered sequence of statements together with the circuit's configuration.
#[derive(Debug)]
pub struct CirBuilder {
    pub config: Config,
    pub stmts: Vec<Stmt>,
}

/// A named operation over argument expressions.
#[derive(Debug)]
pub struct Operation {
    name: String,
    args: Vec<Expression>,
}

/// `s` with every wire leaf of identity `(row, column)` bound to `value`.
pub open spec fn bind_wire_stmt(s: Stmt, row: usize, column: usize, value: Value) -> Stmt {
    s.with_expr(s.expr().with_wire_value(row, column, value))
}

/// `s` with every virtual-wire leaf of identity `index` bound to `value`.
pub open spec fn bind_virtual_wire_stmt(s: Stmt, index: usize, value: Value) -> Stmt {
    s.with_expr(s.expr().with_virtual_wire_value(index, value))
}

/// `s` with every sampled random value elided.
pub open spec fn redact_stmt(s: Stmt) -> Stmt {
    s.with_expr(s.expr().redacted())
}

/// The statements with every wire leaf of identity `(row, column)` bound to `value`.
pub open spec fn wires_bound(stmts: Seq<Stmt>, row: usize, column: usize, value: Value) -> Seq<
    Stmt,
> {
    stmts.map_values(|s: Stmt| bind_wire_stmt(s, row, column, value))
}

/// The statements with every virtual-wire leaf of identity `index` bound to `value`.
pub open spec fn virtual_wires_bound(stmts: Seq<Stmt>, index: usize, value: Value) -> Seq<Stmt> {
    stmts.map_values(|s: Stmt| bind_virtual_wire_stmt(s, index, value))
}

/// The statements with every sampled random value elided.
pub open spec fn random_omitted(stmts: Seq<Stmt>) -> Seq<Stmt> {
    stmts.map_values(|s: Stmt| redact_stmt(s))
}

/// The framed form of a structured payload, as the CLI scanner expects it.
pub open spec fn cli_frame(payload: Seq<char>) -> Seq<char> {
    START_DISCRIMINATOR@ + payload + "\n"@ + END_DISCRIMINATOR@ + "\n"@
}

impl CirBuilder {
    /// An empty builder with no grid-size hint.
    pub fn new() -> (r: CirBuilder)
        ensures
            r.config.num_wires is None,
            r.stmts@ == Seq::<Stmt>::empty(),
    {
        CirBuilder { config: Config { num_wires: None }, stmts: Vec::new() }
    }

    /// Records the grid-size hint `num`.
    pub fn num_wires(&mut self, num: u64) -> (r: &mut CirBuilder)
        ensures
            r.config.num_wires == Some(num),
            r.stmts@ == old(self).stmts@,
            *final(self) == *final(r),
    {
        self.config.num_wires = Some(num);
        self
    }

    /// Appends `x` after the statements already there.
    pub fn add_stmt(&mut self, x: Stmt) -> (r: &mut CirBuilder)
        ensures
            r.config == old(self).config,
            r.stmts@ == old(self).stmts@.push(x),
            *final(self) == *final(r),
    {
        self.stmts.push(x);
        self
    }

    /// Binds every virtual-wire leaf of identity `index`, in every statement, to `value`.
    pub fn set_virtual_wire_value(&mut self, index: usize, value: Value) -> (r: &mut CirBuilder)
        ensures
            r.config == old(self).config,
            r.stmts@ == virtual_wires_bound(old(self).stmts@, index, value),
            *final(self) == *final(r),
    {
        let mut stmts: Vec<Stmt> = Vec::new();
        std::mem::swap(&mut stmts, &mut self.stmts);
        let ghost orig = stmts@;
        let mut out: Vec<Stmt> = Vec::new();
        for s in it: stmts.into_iter()
            invariant
                it.seq() == orig,
                out@ == orig.take(it.index() as int).map_values(
                    |s: Stmt| bind_virtual_wire_stmt(s, index, value),
                ),
        {
            out.push(s.visit_virtual_wires(index, value));
            assert(out@ =~= orig.take(it.index() + 1).map_values(
                |s: Stmt| bind_virtual_wire_stmt(s, index, value),
            ));
        }
        assert(orig.take(orig.len() as int) =~= orig);
        self.stmts = out;
        self
    }

    /// Binds every wire leaf of identity `(row, column)`, in every statement, to `value`.
    pub fn set_wire_value(&mut self, row: usize, column: usize, value: Value) -> (r:
        &mut CirBuilder)
        ensures
            r.config == old(self).config,
            r.stmts@ == wires_bound(old(self).stmts@, row, column, value),
            *final(self) == *final(r),
    {
        let mut stmts: Vec<Stmt> = Vec::new();
        std::mem::swap(&mut stmts, &mut self.stmts);
        let ghost orig = stmts@;
        let mut out: Vec<Stmt> = Vec::new();
        for s in it: stmts.into_iter()
            invariant
                it.seq() == orig,
                out@ == orig.take(it.index() as int).map_values(
                    |s: Stmt| bind_wire_stmt(s, row, column, value),
                ),
        {
            out.push(s.visit_wires(row, column, value));
            assert(out@ =~= orig.take(it.index() + 1).map_values(
                |s: Stmt| bind_wire_stmt(s, row, column, value),
            ));
        }
        assert(orig.take(orig.len() as int) =~= orig);
        self.stmts = out;
        self
    }

    /// A copy of the builder in which every sampled random value, on any leaf of
    /// any statement, is replaced by the elided marker. The builder itself is
    /// not changed.
    pub fn omit_random(&self) -> (r: CirBuilder)
        ensures
            r.config == self.config,
            r.stmts@ == random_omitted(self.stmts@),
    {
        let mut out: Vec<Stmt> = Vec::new();
        let n = self.stmts.len();
        for i in 0..n
            invariant
                n == self.stmts.len(),
                out@ == self.stmts@.take(i as int).map_values(|s: Stmt| redact_stmt(s)),
        {
            out.push(self.stmts[i].redact_random());
            assert(out@ =~= self.stmts@.take(i + 1).map_values(|s: Stmt| redact_stmt(s)));
        }
        assert(self.stmts@.take(n as int) =~= self.stmts@);
        CirBuilder { config: self.config, stmts: out }
    }

    /// Frames the structured encoding of a builder for the CLI scanner: the
    /// start marker, the payload, a line break, the end marker and a line break.
    /// A failed encoding is passed on unchanged.
    pub fn to_cli_string(encoded: Result<String, &'static str>) -> (r: Result<
        String,
        &'static str,
    >)
        ensures
            match encoded {
                Ok(p) => r matches Ok(out) && out@ == cli_frame(p@),
                Err(e) => r == Err::<String, &'static str>(e),
            },
    {
        match encoded {
            Ok(payload) => {
                let mut out = String::from_str(START_DISCRIMINATOR);
                out.append(payload.as_str());
                out.append("\n");
                out.append(END_DISCRIMINATOR);
                out.append("\n");
                assert(out@ =~= cli_frame(payload@));
                Ok(out)
            },
            Err(e) => Err(e),
        }
    }

    /// The code form of every statement, in order, with a blank line between two
    /// statements.
    pub fn to_code_ir(&self) -> (r: String)
        ensures
            r@ == stmts_code(self.stmts@),
    {
        let mut out = String::new();
        let n = self.stmts.len();
        for i in 0..n
            invariant
                n == self.stmts.len(),
                out@ == stmts_code(self.stmts@.take(i as int)),
        {
            if i > 0 {
                out.append("\n\n");
            }
            write_stmt(&mut out, &self.stmts[i]);
            assert(self.stmts@.take(i + 1).drop_last() =~= self.stmts@.take(i as int));
            assert(out@ =~= stmts_code(self.stmts@.take(i + 1)));
        }
        assert(self.stmts@.take(n as int) =~= self.stmts@);
        out
    }
}

impl Default for CirBuilder {
    fn default() -> (r: CirBuilder)
        ensures
            r.config.num_wires is None,
            r.stmts@ == Seq::<Stmt>::empty(),
    {
        CirBuilder::new()
    }
}

} // verus!
