use crate::graph::{
    Block, BlockView, FunctionGraph, FunctionView, Instr, Label, Operand, ParamKind, Predicate,
    Routine, Terminator, BUFFER_CAPACITY, ZEROED_PREFIX,
};
use vstd::prelude::*;

verus! {

/// Position of each block in the recurrence routine's graph.
pub const ENTRY: usize = 0;

pub const BASE_CASE: usize = 1;

pub const CHECK_MEMO: usize = 2;

pub const MEMO_HIT: usize = 3;

pub const COMPUTE: usize = 4;

/// The index, first parameter of both routines.
pub open spec fn index_param() -> Operand {
    Operand::Param(0)
}

/// The buffer, second parameter of the recurrence routine.
pub open spec fn buffer_param() -> Operand {
    Operand::Param(1)
}

/// The entry routine's only block: allocate the buffer, zero its prefix, call the
/// recurrence routine on the incoming index and the buffer, return what it returns.
pub open spec fn setup_block() -> BlockView {
    BlockView {
        label: Label::Setup,
        body: seq![
            Instr::Allocate { count: BUFFER_CAPACITY },
            Instr::ZeroFill { buffer: Operand::Local(0), count: ZEROED_PREFIX },
            Instr::Call { index: index_param(), buffer: Operand::Local(0) },
        ],
        exit: Terminator::Return(Operand::Local(2)),
    }
}

/// Tests `index <= 1`: the base case where it holds, the memo check where not.
pub open spec fn entry_block() -> BlockView {
    BlockView {
        label: Label::Entry,
        body: seq![
            Instr::Compare { pred: Predicate::AtMost, lhs: index_param(), rhs: Operand::Const(1) },
        ],
        exit: Terminator::Branch { cond: Operand::Local(0), if_true: BASE_CASE, if_false: CHECK_MEMO },
    }
}

/// Returns the index unchanged.
pub open spec fn base_case_block() -> BlockView {
    BlockView { label: Label::BaseCase, body: seq![], exit: Terminator::Return(index_param()) }
}

/// Loads the slot at the index and compares it with zero: computes where it is zero,
/// takes the cached value where not.
pub open spec fn check_memo_block() -> BlockView {
    BlockView {
        label: Label::CheckMemo,
        body: seq![
            Instr::SlotAddress { buffer: buffer_param(), index: index_param() },
            Instr::Load { address: Operand::Local(0) },
            Instr::Compare { pred: Predicate::Equal, lhs: Operand::Local(1), rhs: Operand::Const(0) },
        ],
        exit: Terminator::Branch { cond: Operand::Local(2), if_true: COMPUTE, if_false: MEMO_HIT },
    }
}

/// Loads the slot at the index again and returns it.
pub open spec fn memo_hit_block() -> BlockView {
    BlockView {
        label: Label::MemoHit,
        body: seq![
            Instr::SlotAddress { buffer: buffer_param(), index: index_param() },
            Instr::Load { address: Operand::Local(0) },
        ],
        exit: Terminator::Return(Operand::Local(1)),
    }
}

/// Calls the routine at `index - 1` and at `index - 2` on the same buffer, adds the two
/// results, stores the sum in the slot at the index and returns it.
pub open spec fn compute_block() -> BlockView {
    BlockView {
        label: Label::Compute,
        body: seq![
            Instr::Sub { lhs: index_param(), rhs: Operand::Const(1) },
            Instr::Sub { lhs: index_param(), rhs: Operand::Const(2) },
            Instr::Call { index: Operand::Local(0), buffer: buffer_param() },
            Instr::Call { index: Operand::Local(1), buffer: buffer_param() },
            Instr::Add { lhs: Operand::Local(2), rhs: Operand::Local(3) },
            Instr::SlotAddress { buffer: buffer_param(), index: index_param() },
            Instr::Store { address: Operand::Local(5), value: Operand::Local(4) },
        ],
        exit: Terminator::Return(Operand::Local(4)),
    }
}

/// The graph of the entry routine.
pub open spec fn bootstrap_graph() -> FunctionView {
    FunctionView {
        routine: Routine::Bootstrap,
        params: seq![ParamKind::Index],
        blocks: seq![setup_block()],
    }
}

/// The graph of the recurrence routine: five blocks, reached through two branches.
pub open spec fn recurrence_graph() -> FunctionView {
    FunctionView {
        routine: Routine::Recurrence,
        params: seq![ParamKind::Index, ParamKind::Buffer],
        blocks: seq![
            entry_block(),
            base_case_block(),
            check_memo_block(),
            memo_hit_block(),
            compute_block(),
        ],
    }
}

/// Both graphs are well formed: every operand is defined where it is read and every
/// branch stays inside its routine.
pub proof fn lemma_graphs_well_formed()
    ensures
        bootstrap_graph().wf(),
        recurrence_graph().wf(),
{
    assert(setup_block().wf(1, 1));
    assert(entry_block().wf(2, 5));
    assert(base_case_block().wf(2, 5));
    assert(check_memo_block().wf(2, 5));
    assert(memo_hit_block().wf(2, 5));
    assert(compute_block().wf(2, 5));
}

/// A block from its parts.
fn block(label: Label, body: Vec<Instr>, exit: Terminator) -> (b: Block)
    ensures
        b@ == (BlockView { label, body: body@, exit }),
{
    Block { label, body, exit }
}

/// Builds the graph of the entry routine.
pub fn bootstrap_function() -> (g: FunctionGraph)
    ensures
        g@ == bootstrap_graph(),
        g@.wf(),
{
    let index = Operand::Param(0);
    let buffer = Operand::Local(0);
    let body = vec![
        Instr::Allocate { count: BUFFER_CAPACITY },
        Instr::ZeroFill { buffer, count: ZEROED_PREFIX },
        Instr::Call { index, buffer },
    ];
    let setup = block(Label::Setup, body, Terminator::Return(Operand::Local(2)));
    proof {
        assert(setup@.body =~= setup_block().body);
    }
    let g = FunctionGraph {
        routine: Routine::Bootstrap,
        params: vec![ParamKind::Index],
        blocks: vec![setup],
    };
    proof {
        assert(g@.blocks =~= bootstrap_graph().blocks);
        assert(g@.params =~= bootstrap_graph().params);
        lemma_graphs_well_formed();
    }
    g
}

/// Builds the graph of the recurrence routine.
pub fn recurrence_function() -> (g: FunctionGraph)
    ensures
        g@ == recurrence_graph(),
        g@.wf(),
{
    let index = Operand::Param(0);
    let buffer = Operand::Param(1);
    let slot = Instr::SlotAddress { buffer, index };
    let load = Instr::Load { address: Operand::Local(0) };

    let entry = block(
        Label::Entry,
        vec![Instr::Compare { pred: Predicate::AtMost, lhs: index, rhs: Operand::Const(1) }],
        Terminator::Branch { cond: Operand::Local(0), if_true: BASE_CASE, if_false: CHECK_MEMO },
    );
    let base_case = block(Label::BaseCase, Vec::new(), Terminator::Return(index));
    let check_memo = block(
        Label::CheckMemo,
        vec![
            slot,
            load,
            Instr::Compare { pred: Predicate::Equal, lhs: Operand::Local(1), rhs: Operand::Const(0) },
        ],
        Terminator::Branch { cond: Operand::Local(2), if_true: COMPUTE, if_false: MEMO_HIT },
    );
    let memo_hit = block(Label::MemoHit, vec![slot, load], Terminator::Return(Operand::Local(1)));
    let compute = block(
        Label::Compute,
        vec![
            Instr::Sub { lhs: index, rhs: Operand::Const(1) },
            Instr::Sub { lhs: index, rhs: Operand::Const(2) },
            Instr::Call { index: Operand::Local(0), buffer },
            Instr::Call { index: Operand::Local(1), buffer },
            Instr::Add { lhs: Operand::Local(2), rhs: Operand::Local(3) },
            slot,
            Instr::Store { address: Operand::Local(5), value: Operand::Local(4) },
        ],
        Terminator::Return(Operand::Local(4)),
    );
    proof {
        assert(entry@.body =~= entry_block().body);
        assert(base_case@.body =~= base_case_block().body);
        assert(check_memo@.body =~= check_memo_block().body);
        assert(memo_hit@.body =~= memo_hit_block().body);
        assert(compute@.body =~= compute_block().body);
    }
    let g = FunctionGraph {
        routine: Routine::Recurrence,
        params: vec![ParamKind::Index, ParamKind::Buffer],
        blocks: vec![entry, base_case, check_memo, memo_hit, compute],
    };
    proof {
        assert(g@.blocks =~= recurrence_graph().blocks);
        assert(g@.params =~= recurrence_graph().params);
        lemma_graphs_well_formed();
    }
    g
}

} // verus!
