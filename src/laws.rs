use vstd::prelude::*;

use crate::code_ir::stmt_code;
use crate::code_ir::stmts_code;
use crate::expr::bind_virtual_wire;
use crate::expr::bind_wire;
use crate::expr::is_random_payload;
use crate::expr::lemma_redacted_has_no_random_payload;
use crate::expr::lemma_redacted_idempotent;
use crate::expr::lemma_virtual_wire_binding_leaves;
use crate::expr::lemma_wire_binding_leaves;
use crate::expr::Value;
use crate::expr::VirtualWire;
use crate::expr::Wire;
use crate::ir::bind_virtual_wire_stmt;
use crate::ir::bind_wire_stmt;
use crate::ir::random_omitted;
use crate::ir::redact_stmt;
use crate::ir::virtual_wires_bound;
use crate::ir::wires_bound;
use crate::stmt::Stmt;

verus! {

/// The wire leaves of all statements, statement by statement, each left to right.
pub open spec fn stmts_wires(stmts: Seq<Stmt>) -> Seq<Wire>
    decreases stmts.len(),
{
    if stmts.len() == 0 {
        Seq::empty()
    } else {
        stmts_wires(stmts.drop_last()) + stmts.last().expr().wires()
    }
}

/// The virtual-wire leaves of all statements, statement by statement, each left
/// to right.
pub open spec fn stmts_virtual_wires(stmts: Seq<Stmt>) -> Seq<VirtualWire>
    decreases stmts.len(),
{
    if stmts.len() == 0 {
        Seq::empty()
    } else {
        stmts_virtual_wires(stmts.drop_last()) + stmts.last().expr().virtual_wires()
    }
}

proof fn lemma_stmts_wire_binding(stmts: Seq<Stmt>, row: usize, column: usize, value: Value)
    ensures
        stmts_wires(wires_bound(stmts, row, column, value))
            == stmts_wires(stmts).map_values(|w: Wire| bind_wire(w, row, column, value)),
        stmts_virtual_wires(wires_bound(stmts, row, column, value))
            == stmts_virtual_wires(stmts),
    decreases stmts.len(),
{
    let after = wires_bound(stmts, row, column, value);
    if stmts.len() > 0 {
        let init = stmts.drop_last();
        lemma_stmts_wire_binding(init, row, column, value);
        lemma_wire_binding_leaves(stmts.last().expr(), row, column, value);
        assert(after.drop_last() =~= init.map_values(
            |s: Stmt| bind_wire_stmt(s, row, column, value),
        ));
        assert(stmts_wires(after) =~= stmts_wires(stmts).map_values(
            |w: Wire| bind_wire(w, row, column, value),
        ));
    } else {
        assert(stmts_wires(after) =~= stmts_wires(stmts).map_values(
            |w: Wire| bind_wire(w, row, column, value),
        ));
    }
}

proof fn lemma_stmts_virtual_wire_binding(stmts: Seq<Stmt>, index: usize, value: Value)
    ensures
        stmts_virtual_wires(virtual_wires_bound(stmts, index, value))
            == stmts_virtual_wires(stmts).map_values(
            |w: VirtualWire| bind_virtual_wire(w, index, value),
        ),
        stmts_wires(virtual_wires_bound(stmts, index, value))
            == stmts_wires(stmts),
    decreases stmts.len(),
{
    let after = virtual_wires_bound(stmts, index, value);
    if stmts.len() > 0 {
        let init = stmts.drop_last();
        lemma_stmts_virtual_wire_binding(init, index, value);
        lemma_virtual_wire_binding_leaves(stmts.last().expr(), index, value);
        assert(after.drop_last() =~= init.map_values(
            |s: Stmt| bind_virtual_wire_stmt(s, index, value),
        ));
        assert(stmts_virtual_wires(after) =~= stmts_virtual_wires(stmts).map_values(
            |w: VirtualWire| bind_virtual_wire(w, index, value),
        ));
    } else {
        assert(stmts_virtual_wires(after) =~= stmts_virtual_wires(stmts).map_values(
            |w: VirtualWire| bind_virtual_wire(w, index, value),
        ));
    }
}

/// After `set_wire_value(row, column, value)`, the wire leaves of all statements are as many
/// and in the same order as before; each leaf of identity `(row, column)` holds
/// `value`, every other wire leaf is unchanged, and so is every virtual-wire leaf.
pub proof fn lemma_set_wire_value_complete(
    stmts: Seq<Stmt>,
    row: usize,
    column: usize,
    value: Value,
)
    ensures
        ({
            let before = stmts_wires(stmts);
            let after = stmts_wires(
                wires_bound(stmts, row, column, value),
            );
            &&& after.len() == before.len()
            &&& forall|i: int|
                0 <= i < before.len() ==> {
                    &&& (#[trigger] after[i]).row == before[i].row
                    &&& after[i].column == before[i].column
                    &&& if before[i].row == row && before[i].column == column {
                        after[i].value == Some(value)
                    } else {
                        after[i] == before[i]
                    }
                }
        }),
        stmts_virtual_wires(wires_bound(stmts, row, column, value))
            == stmts_virtual_wires(stmts),
{
    lemma_stmts_wire_binding(stmts, row, column, value);
}

/// After `set_virtual_wire_value(index, value)`, the virtual-wire leaves of all
/// statements are as many and in the same order as before; each leaf of identity
/// `index` holds `value`, every other one is unchanged, and so is every wire leaf.
pub proof fn lemma_set_virtual_wire_value_complete(stmts: Seq<Stmt>, index: usize, value: Value)
    ensures
        ({
            let before = stmts_virtual_wires(stmts);
            let after = stmts_virtual_wires(
                virtual_wires_bound(stmts, index, value),
            );
            &&& after.len() == before.len()
            &&& forall|i: int|
                0 <= i < before.len() ==> {
                    &&& (#[trigger] after[i]).index == before[i].index
                    &&& if before[i].index == index {
                        after[i].value == Some(value)
                    } else {
                        after[i] == before[i]
                    }
                }
        }),
        stmts_wires(virtual_wires_bound(stmts, index, value))
            == stmts_wires(stmts),
{
    lemma_stmts_virtual_wire_binding(stmts, index, value);
}

proof fn lemma_stmts_redacted_payload_free(stmts: Seq<Stmt>)
    ensures
        forall|i: int|
            0 <= i < stmts_wires(random_omitted(stmts)).len()
                ==> !is_random_payload(
                #[trigger] stmts_wires(random_omitted(stmts))[i].value,
            ),
        forall|i: int|
            0 <= i < stmts_virtual_wires(random_omitted(stmts)).len()
                ==> !is_random_payload(
                #[trigger] stmts_virtual_wires(random_omitted(stmts))[i].value,
            ),
    decreases stmts.len(),
{
    let red = random_omitted(stmts);
    if stmts.len() > 0 {
        let init = stmts.drop_last();
        lemma_stmts_redacted_payload_free(init);
        lemma_redacted_has_no_random_payload(stmts.last().expr());
        assert(red.drop_last() =~= init.map_values(|s: Stmt| redact_stmt(s)));
        let a = stmts_wires(red.drop_last());
        let b = red.last().expr().wires();
        assert forall|i: int| 0 <= i < stmts_wires(red).len() implies !is_random_payload(
            #[trigger] stmts_wires(red)[i].value,
        ) by {
            if i >= a.len() {
                assert(stmts_wires(red)[i] == b[i - a.len()]);
            } else {
                assert(stmts_wires(red)[i] == a[i]);
            }
        }
        let va = stmts_virtual_wires(red.drop_last());
        let vb = red.last().expr().virtual_wires();
        assert forall|i: int| 0 <= i < stmts_virtual_wires(red).len() implies !is_random_payload(
            #[trigger] stmts_virtual_wires(red)[i].value,
        ) by {
            if i >= va.len() {
                assert(stmts_virtual_wires(red)[i] == vb[i - va.len()]);
            } else {
                assert(stmts_virtual_wires(red)[i] == va[i]);
            }
        }
    }
}

/// The statements of `omit_random` hold no sampled random payload on any leaf,
/// and redacting them again changes nothing; so their encoding is the same
/// however often the redaction is applied.
pub proof fn lemma_omit_random(stmts: Seq<Stmt>)
    ensures
        ({
            let red = random_omitted(stmts);
            &&& forall|i: int|
                0 <= i < stmts_wires(red).len() ==> !is_random_payload(
                    #[trigger] stmts_wires(red)[i].value,
                )
            &&& forall|i: int|
                0 <= i < stmts_virtual_wires(red).len() ==> !is_random_payload(
                    #[trigger] stmts_virtual_wires(red)[i].value,
                )
            &&& random_omitted(red) == red
        }),
{
    lemma_stmts_redacted_payload_free(stmts);
    let red = random_omitted(stmts);
    assert forall|i: int| 0 <= i < red.len() implies redact_stmt(#[trigger] red[i]) == red[i] by {
        lemma_redacted_idempotent(stmts[i].expr());
    }
    assert(random_omitted(red) =~= red);
}

/// Appending a statement keeps the statements before it, and its code form
/// comes last in the builder's code form, after a blank line.
pub proof fn lemma_add_stmt_order(stmts: Seq<Stmt>, x: Stmt)
    ensures
        stmts.push(x).len() == stmts.len() + 1,
        forall|i: int| 0 <= i < stmts.len() ==> #[trigger] stmts.push(x)[i] == stmts[i],
        stmts.push(x).last() == x,
        stmts_code(stmts.push(x)) == if stmts.len() == 0 {
            stmt_code(x)
        } else {
            stmts_code(stmts) + "\n\n"@ + stmt_code(x)
        },
{
    assert(stmts.push(x).drop_last() =~= stmts);
}

} // verus!
