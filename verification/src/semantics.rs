use crate::builder::{
    base_case_block, bootstrap_graph, check_memo_block, compute_block, entry_block,
    memo_hit_block, recurrence_graph, setup_block,
};
use crate::graph::{
    FunctionView, Instr, Operand, Predicate, Terminator, BUFFER_CAPACITY, ZEROED_PREFIX,
};
use crate::memo::{call_count, evaluation};
use crate::sequence::{
    fib, lemma_wrapped_exact, lemma_wrapped_nonzero, lemma_wrapped_step, wrapped_fib,
};
use vstd::prelude::*;

verus! {

/// What an operand can stand for while a routine runs.
#[derive(Clone, Copy, Debug, PartialEq, Eq, Structural)]
pub enum Value {
    /// A 64-bit word.
    Word(u64),
    /// The outcome of a comparison.
    Flag(bool),
    /// The memo buffer.
    Buffer,
    /// The address of the buffer's slot at this index.
    Slot(u64),
    /// What an instruction leaves that yields nothing.
    Unit,
}

/// The memo buffer while a routine runs: each slot holds a word, or nothing defined.
pub type Memory = Seq<Option<u64>>;

/// How a run ends.
pub enum Outcome {
    /// The routine returned `value`, leaving the buffer as `memory`; `calls` invocations
    /// of the recurrence routine were made so far.
    Returned { value: u64, memory: Memory, calls: nat },
    /// The run read what is not defined: a slot that was never written, a slot outside
    /// the buffer, or an operand of the wrong kind.
    Undefined,
    /// The step budget ran out.
    Exhausted,
}

/// Addition of 64-bit words, wrapping around.
pub open spec fn wrap_add(a: u64, b: u64) -> u64 {
    ((a + b) % 0x1_0000_0000_0000_0000) as u64
}

/// Subtraction of 64-bit words, wrapping around.
pub open spec fn wrap_sub(a: u64, b: u64) -> u64 {
    ((a - b) % 0x1_0000_0000_0000_0000) as u64
}

/// The value of an operand, given the routine's arguments and the results of the
/// instructions of the block so far.
pub open spec fn read(op: Operand, params: Seq<Value>, locals: Seq<Value>) -> Value {
    match op {
        Operand::Param(p) => if p < params.len() {
            params[p as int]
        } else {
            Value::Unit
        },
        Operand::Const(c) => Value::Word(c),
        Operand::Local(l) => if l < locals.len() {
            locals[l as int]
        } else {
            Value::Unit
        },
    }
}

/// What an instruction other than a call yields and what it makes of the buffer, or
/// `None` where it reads what is not defined.
pub open spec fn step(instr: Instr, params: Seq<Value>, locals: Seq<Value>, memory: Memory)
    -> Option<(Value, Memory)> {
    match instr {
        Instr::Allocate { count } => Some(
            (Value::Buffer, Seq::new(count as nat, |i: int| None::<u64>)),
        ),
        Instr::ZeroFill { buffer, count } => if read(buffer, params, locals) is Buffer && count
            <= memory.len() {
            Some(
                (
                    Value::Unit,
                    Seq::new(
                        memory.len(),
                        |i: int|
                            if i < count {
                                Some(0u64)
                            } else {
                                memory[i]
                            },
                    ),
                ),
            )
        } else {
            None
        },
        Instr::Compare { pred, lhs, rhs } => match (
            read(lhs, params, locals),
            read(rhs, params, locals),
        ) {
            (Value::Word(a), Value::Word(b)) => Some(
                (
                    Value::Flag(
                        match pred {
                            Predicate::AtMost => a <= b,
                            Predicate::Equal => a == b,
                        },
                    ),
                    memory,
                ),
            ),
            _ => None,
        },
        Instr::SlotAddress { buffer, index } => match (
            read(buffer, params, locals),
            read(index, params, locals),
        ) {
            (Value::Buffer, Value::Word(i)) => Some((Value::Slot(i), memory)),
            _ => None,
        },
        Instr::Load { address } => match read(address, params, locals) {
            Value::Slot(i) => if i < memory.len() && memory[i as int] is Some {
                Some((Value::Word(memory[i as int]->0), memory))
            } else {
                None
            },
            _ => None,
        },
        Instr::Store { address, value } => match (
            read(address, params, locals),
            read(value, params, locals),
        ) {
            (Value::Slot(i), Value::Word(v)) => if i < memory.len() {
                Some((Value::Unit, memory.update(i as int, Some(v))))
            } else {
                None
            },
            _ => None,
        },
        Instr::Sub { lhs, rhs } => match (read(lhs, params, locals), read(rhs, params, locals)) {
            (Value::Word(a), Value::Word(b)) => Some((Value::Word(wrap_sub(a, b)), memory)),
            _ => None,
        },
        Instr::Add { lhs, rhs } => match (read(lhs, params, locals), read(rhs, params, locals)) {
            (Value::Word(a), Value::Word(b)) => Some((Value::Word(wrap_add(a, b)), memory)),
            _ => None,
        },
        Instr::Call { .. } => None,
    }
}

/// Runs the routine `graph` from the block at `block`, with `locals` the results of the
/// instructions of that block that ran already. A call enters `recurrence` at its first
/// block. Each call and each branch takes one unit of `fuel`.
#[verifier::opaque]
pub open spec fn run(
    recurrence: FunctionView,
    graph: FunctionView,
    block: int,
    params: Seq<Value>,
    locals: Seq<Value>,
    memory: Memory,
    calls: nat,
    fuel: nat,
) -> Outcome
    decreases fuel, graph.blocks[block].body.len() - locals.len(),
{
    if !(0 <= block < graph.blocks.len()) {
        Outcome::Undefined
    } else if locals.len() < graph.blocks[block].body.len() {
        match graph.blocks[block].body[locals.len() as int] {
            Instr::Call { index, buffer } => match (
                read(index, params, locals),
                read(buffer, params, locals),
            ) {
                (Value::Word(i), Value::Buffer) => if fuel == 0 {
                    Outcome::Exhausted
                } else {
                    match run(
                        recurrence,
                        recurrence,
                        0,
                        seq![Value::Word(i), Value::Buffer],
                        Seq::empty(),
                        memory,
                        calls + 1,
                        (fuel - 1) as nat,
                    ) {
                        Outcome::Returned { value, memory: after, calls: made } => run(
                            recurrence,
                            graph,
                            block,
                            params,
                            locals.push(Value::Word(value)),
                            after,
                            made,
                            fuel,
                        ),
                        other => other,
                    }
                },
                _ => Outcome::Undefined,
            },
            instr => match step(instr, params, locals, memory) {
                Some((value, after)) => run(
                    recurrence,
                    graph,
                    block,
                    params,
                    locals.push(value),
                    after,
                    calls,
                    fuel,
                ),
                None => Outcome::Undefined,
            },
        }
    } else {
        match graph.blocks[block].exit {
            Terminator::Return(op) => match read(op, params, locals) {
                Value::Word(value) => Outcome::Returned { value, memory, calls },
                _ => Outcome::Undefined,
            },
            Terminator::Branch { cond, if_true, if_false } => match read(cond, params, locals) {
                Value::Flag(taken) => if fuel == 0 {
                    Outcome::Exhausted
                } else {
                    run(
                        recurrence,
                        graph,
                        if taken {
                            if_true as int
                        } else {
                            if_false as int
                        },
                        params,
                        Seq::empty(),
                        memory,
                        calls,
                        (fuel - 1) as nat,
                    )
                },
                _ => Outcome::Undefined,
            },
        }
    }
}

/// The buffer as the recurrence routine meets it: at least the zeroed prefix long, the
/// slots from 2 up to `mark` holding the recurrence's values, the rest of the prefix zero.
/// Past the prefix a slot may hold anything or nothing.
pub open spec fn cached(memory: Memory, mark: nat) -> bool {
    &&& memory.len() >= ZEROED_PREFIX
    &&& 2 <= mark <= ZEROED_PREFIX
    &&& forall|i: int|
        0 <= i < ZEROED_PREFIX ==> #[trigger] memory[i] == Some(
            if 2 <= i < mark {
                wrapped_fib(i as nat)
            } else {
                0u64
            },
        )
}

/// The buffer with the slots from `from` up to, not including, `to` set to the
/// recurrence's values.
pub open spec fn filled(memory: Memory, from: nat, to: nat) -> Memory {
    Seq::new(
        memory.len(),
        |i: int|
            if from <= i < to {
                Some(wrapped_fib(i as nat))
            } else {
                memory[i]
            },
    )
}

/// The first uncached index after the routine ran for `index`.
pub open spec fn mark_after(index: nat, mark: nat) -> nat {
    if index >= mark {
        index + 1
    } else {
        mark
    }
}

/// The arguments of the recurrence routine.
pub open spec fn recurrence_args(index: u64) -> Seq<Value> {
    seq![Value::Word(index), Value::Buffer]
}

/// A run of the recurrence routine's graph from its first block.
pub open spec fn run_recurrence(index: u64, memory: Memory, calls: nat, fuel: nat) -> Outcome {
    run(
        recurrence_graph(),
        recurrence_graph(),
        0,
        recurrence_args(index),
        Seq::empty(),
        memory,
        calls,
        fuel,
    )
}

/// A run of the entry routine's graph, with no buffer yet and no call made.
pub open spec fn run_bootstrap(index: u64, fuel: nat) -> Outcome {
    run(
        recurrence_graph(),
        bootstrap_graph(),
        0,
        seq![Value::Word(index)],
        Seq::empty(),
        Seq::empty(),
        0,
        fuel,
    )
}

/// A run goes past an instruction other than a call by taking its result and its effect
/// on the buffer.
pub proof fn lemma_run_step(
    recurrence: FunctionView,
    graph: FunctionView,
    block: int,
    params: Seq<Value>,
    locals: Seq<Value>,
    memory: Memory,
    calls: nat,
    fuel: nat,
    value: Value,
    after: Memory,
)
    requires
        0 <= block < graph.blocks.len(),
        locals.len() < graph.blocks[block].body.len(),
        !(graph.blocks[block].body[locals.len() as int] is Call),
        step(graph.blocks[block].body[locals.len() as int], params, locals, memory) == Some(
            (value, after),
        ),
    ensures
        run(recurrence, graph, block, params, locals, memory, calls, fuel) == run(
            recurrence,
            graph,
            block,
            params,
            locals.push(value),
            after,
            calls,
            fuel,
        ),
{
    reveal_with_fuel(run, 1);
}

/// A run goes past a call that returns by taking the returned value, the buffer as the
/// call left it, and the calls made by then.
pub proof fn lemma_run_call(
    recurrence: FunctionView,
    graph: FunctionView,
    block: int,
    params: Seq<Value>,
    locals: Seq<Value>,
    memory: Memory,
    calls: nat,
    fuel: nat,
    index: u64,
    value: u64,
    after: Memory,
    made: nat,
)
    requires
        0 <= block < graph.blocks.len(),
        locals.len() < graph.blocks[block].body.len(),
        graph.blocks[block].body[locals.len() as int] matches Instr::Call { index: i, buffer: b }
            && read(i, params, locals) == Value::Word(index) && read(b, params, locals)
            == Value::Buffer,
        fuel >= 1,
        run(
            recurrence,
            recurrence,
            0,
            seq![Value::Word(index), Value::Buffer],
            Seq::empty(),
            memory,
            calls + 1,
            (fuel - 1) as nat,
        ) == (Outcome::Returned { value, memory: after, calls: made }),
    ensures
        run(recurrence, graph, block, params, locals, memory, calls, fuel) == run(
            recurrence,
            graph,
            block,
            params,
            locals.push(Value::Word(value)),
            after,
            made,
            fuel,
        ),
{
    reveal_with_fuel(run, 1);
}

/// A run that reaches a return of a word ends with that word.
pub proof fn lemma_run_return(
    recurrence: FunctionView,
    graph: FunctionView,
    block: int,
    params: Seq<Value>,
    locals: Seq<Value>,
    memory: Memory,
    calls: nat,
    fuel: nat,
    value: u64,
)
    requires
        0 <= block < graph.blocks.len(),
        locals.len() == graph.blocks[block].body.len(),
        graph.blocks[block].exit matches Terminator::Return(op) && read(op, params, locals)
            == Value::Word(value),
    ensures
        run(recurrence, graph, block, params, locals, memory, calls, fuel) == (Outcome::Returned {
            value,
            memory,
            calls,
        }),
{
    reveal_with_fuel(run, 1);
}

/// A run that reaches a branch on a flag goes on at the start of the block that the flag
/// selects, with one unit of fuel less.
pub proof fn lemma_run_branch(
    recurrence: FunctionView,
    graph: FunctionView,
    block: int,
    params: Seq<Value>,
    locals: Seq<Value>,
    memory: Memory,
    calls: nat,
    fuel: nat,
    taken: bool,
    target: int,
)
    requires
        0 <= block < graph.blocks.len(),
        locals.len() == graph.blocks[block].body.len(),
        graph.blocks[block].exit matches Terminator::Branch { cond, if_true, if_false } && read(
            cond,
            params,
            locals,
        ) == Value::Flag(taken) && target == (if taken {
            if_true as int
        } else {
            if_false as int
        }),
        fuel >= 1,
    ensures
        run(recurrence, graph, block, params, locals, memory, calls, fuel) == run(
            recurrence,
            graph,
            target,
            params,
            Seq::empty(),
            memory,
            calls,
            (fuel - 1) as nat,
        ),
{
    reveal_with_fuel(run, 1);
}

/// What the entry block does: on to the base case where `index <= 1`, to the memo check
/// where not.
pub proof fn lemma_entry_block(index: u64, memory: Memory, calls: nat, fuel: nat)
    requires
        fuel >= 1,
    ensures
        run_recurrence(index, memory, calls, fuel) == run(
            recurrence_graph(),
            recurrence_graph(),
            if index <= 1 {
                1
            } else {
                2
            },
            recurrence_args(index),
            Seq::empty(),
            memory,
            calls,
            (fuel - 1) as nat,
        ),
{
    let g = recurrence_graph();
    let params = recurrence_args(index);
    let e = Seq::<Value>::empty();
    assert(g.blocks[0] == entry_block());
    let e1 = e.push(Value::Flag(index <= 1));
    lemma_run_step(g, g, 0, params, e, memory, calls, fuel, Value::Flag(index <= 1), memory);
    lemma_run_branch(g, g, 0, params, e1, memory, calls, fuel, index <= 1, if index <= 1 {
        1
    } else {
        2
    });
}

/// What the base case does: it returns the index and leaves the buffer alone.
pub proof fn lemma_base_case_block(index: u64, memory: Memory, calls: nat, fuel: nat)
    ensures
        run(
            recurrence_graph(),
            recurrence_graph(),
            1,
            recurrence_args(index),
            Seq::empty(),
            memory,
            calls,
            fuel,
        ) == (Outcome::Returned { value: index, memory, calls }),
{
    let g = recurrence_graph();
    assert(g.blocks[1] == base_case_block());
    lemma_run_return(g, g, 1, recurrence_args(index), Seq::empty(), memory, calls, fuel, index);
}

/// What the memo check does on a slot that holds a word: on to the computation where
/// the word is zero, to the memo hit where not.
pub proof fn lemma_check_memo_block(index: u64, memory: Memory, calls: nat, fuel: nat)
    requires
        fuel >= 1,
        index < memory.len(),
        memory[index as int] is Some,
    ensures
        run(
            recurrence_graph(),
            recurrence_graph(),
            2,
            recurrence_args(index),
            Seq::empty(),
            memory,
            calls,
            fuel,
        ) == run(
            recurrence_graph(),
            recurrence_graph(),
            if memory[index as int]->0 == 0 {
                4
            } else {
                3
            },
            recurrence_args(index),
            Seq::empty(),
            memory,
            calls,
            (fuel - 1) as nat,
        ),
{
    let g = recurrence_graph();
    let params = recurrence_args(index);
    let e = Seq::<Value>::empty();
    let slot: u64 = memory[index as int]->0;
    assert(g.blocks[2] == check_memo_block());
    let c1 = e.push(Value::Slot(index));
    lemma_run_step(g, g, 2, params, e, memory, calls, fuel, Value::Slot(index), memory);
    let c2 = c1.push(Value::Word(slot));
    lemma_run_step(g, g, 2, params, c1, memory, calls, fuel, Value::Word(slot), memory);
    let c3 = c2.push(Value::Flag(slot == 0));
    lemma_run_step(g, g, 2, params, c2, memory, calls, fuel, Value::Flag(slot == 0), memory);
    lemma_run_branch(g, g, 2, params, c3, memory, calls, fuel, slot == 0, if slot == 0 {
        4
    } else {
        3
    });
}

/// What the memo hit does on a slot that holds a word: it returns the word and leaves
/// the buffer alone.
pub proof fn lemma_memo_hit_block(index: u64, memory: Memory, calls: nat, fuel: nat)
    requires
        index < memory.len(),
        memory[index as int] is Some,
    ensures
        run(
            recurrence_graph(),
            recurrence_graph(),
            3,
            recurrence_args(index),
            Seq::empty(),
            memory,
            calls,
            fuel,
        ) == (Outcome::Returned { value: memory[index as int]->0, memory, calls }),
{
    let g = recurrence_graph();
    let params = recurrence_args(index);
    let e = Seq::<Value>::empty();
    let slot: u64 = memory[index as int]->0;
    assert(g.blocks[3] == memo_hit_block());
    let c1 = e.push(Value::Slot(index));
    lemma_run_step(g, g, 3, params, e, memory, calls, fuel, Value::Slot(index), memory);
    let c2 = c1.push(Value::Word(slot));
    lemma_run_step(g, g, 3, params, c1, memory, calls, fuel, Value::Word(slot), memory);
    lemma_run_return(g, g, 3, params, c2, memory, calls, fuel, slot);
}

/// What the computation does where its two calls return: it returns the wrapping sum of
/// the two results, stored in the slot at the index of the buffer that the second call
/// left.
pub proof fn lemma_compute_block(
    index: u64,
    memory: Memory,
    calls: nat,
    fuel: nat,
    first: u64,
    between: Memory,
    made: nat,
    second: u64,
    after: Memory,
    total: nat,
)
    requires
        fuel >= 1,
        run_recurrence(wrap_sub(index, 1), memory, calls + 1, (fuel - 1) as nat) == (
        Outcome::Returned { value: first, memory: between, calls: made }),
        run_recurrence(wrap_sub(index, 2), between, made + 1, (fuel - 1) as nat) == (
        Outcome::Returned { value: second, memory: after, calls: total }),
        index < after.len(),
    ensures
        run(
            recurrence_graph(),
            recurrence_graph(),
            4,
            recurrence_args(index),
            Seq::empty(),
            memory,
            calls,
            fuel,
        ) == (Outcome::Returned {
            value: wrap_add(first, second),
            memory: after.update(index as int, Some(wrap_add(first, second))),
            calls: total,
        }),
{
    let g = recurrence_graph();
    let params = recurrence_args(index);
    let e = Seq::<Value>::empty();
    let sum = wrap_add(first, second);
    assert(g.blocks[4] == compute_block());
    let k1 = e.push(Value::Word(wrap_sub(index, 1)));
    lemma_run_step(g, g, 4, params, e, memory, calls, fuel, Value::Word(wrap_sub(index, 1)), memory);
    let k2 = k1.push(Value::Word(wrap_sub(index, 2)));
    lemma_run_step(g, g, 4, params, k1, memory, calls, fuel, Value::Word(wrap_sub(index, 2)), memory);
    lemma_run_call(
        g,
        g,
        4,
        params,
        k2,
        memory,
        calls,
        fuel,
        wrap_sub(index, 1),
        first,
        between,
        made,
    );
    let k3 = k2.push(Value::Word(first));
    lemma_run_call(
        g,
        g,
        4,
        params,
        k3,
        between,
        made,
        fuel,
        wrap_sub(index, 2),
        second,
        after,
        total,
    );
    let k4 = k3.push(Value::Word(second));
    let k5 = k4.push(Value::Word(sum));
    lemma_run_step(g, g, 4, params, k4, after, total, fuel, Value::Word(sum), after);
    let k6 = k5.push(Value::Slot(index));
    lemma_run_step(g, g, 4, params, k5, after, total, fuel, Value::Slot(index), after);
    let k7 = k6.push(Value::Unit);
    lemma_run_step(g, g, 4, params, k6, after, total, fuel, Value::Unit, after.update(index as int, Some(sum)));
    lemma_run_return(
        g,
        g,
        4,
        params,
        k7,
        after.update(index as int, Some(sum)),
        total,
        fuel,
        sum,
    );
}

/// The graph of the recurrence routine computes the recurrence: run on an index inside
/// the zeroed prefix, with enough fuel, it returns the recurrence's 64-bit value, fills
/// the slots from the first uncached one up to the index, and makes as many calls as
/// `call_count` says.
pub proof fn lemma_recurrence_graph_computes(
    index: u64,
    memory: Memory,
    mark: nat,
    calls: nat,
    fuel: nat,
)
    requires
        index < ZEROED_PREFIX,
        cached(memory, mark),
        calls >= 1,
        fuel >= 3 * index + 2,
    ensures
        run_recurrence(index, memory, calls, fuel) == (Outcome::Returned {
            value: wrapped_fib(index as nat),
            memory: filled(memory, mark, mark_after(index as nat, mark)),
            calls: (calls + call_count(index as nat, mark) - 1) as nat,
        }),
        cached(
            filled(memory, mark, mark_after(index as nat, mark)),
            mark_after(index as nat, mark),
        ),
    decreases index,
{
    assert(filled(memory, mark, mark) =~= memory);
    lemma_entry_block(index, memory, calls, fuel);
    let f1 = (fuel - 1) as nat;
    if index <= 1 {
        lemma_base_case_block(index, memory, calls, f1);
        lemma_wrapped_exact(index as nat);
        assert(fib(index as nat) == index);
    } else {
        let f2 = (fuel - 2) as nat;
        let f3 = (fuel - 3) as nat;
        lemma_wrapped_nonzero(index as nat);
        assert(memory[index as int] is Some);
        lemma_check_memo_block(index, memory, calls, f1);
        if memory[index as int]->0 != 0 {
            lemma_memo_hit_block(index, memory, calls, f2);
        } else {
            let below: u64 = (index - 1) as u64;
            let lower: u64 = (index - 2) as u64;
            assert(wrap_sub(index, 1) == below);
            assert(wrap_sub(index, 2) == lower);
            lemma_recurrence_graph_computes(below, memory, mark, calls + 1, f3);
            let between = filled(memory, mark, index as nat);
            let made = (calls + call_count(below as nat, mark)) as nat;
            lemma_recurrence_graph_computes(lower, between, index as nat, made + 1, f3);
            assert(filled(between, index as nat, index as nat) =~= between);
            lemma_wrapped_step(index as nat);
            lemma_compute_block(
                index,
                memory,
                calls,
                f2,
                wrapped_fib(below as nat),
                between,
                made,
                wrapped_fib(lower as nat),
                between,
                made + 1,
            );
            assert(between.update(index as int, Some(wrapped_fib(index as nat))) =~= filled(
                memory,
                mark,
                (index + 1) as nat,
            ));
        }
    }
}

/// A run that meets an instruction, not a call, that reads what is not defined, is
/// undefined.
pub proof fn lemma_run_stuck(
    recurrence: FunctionView,
    graph: FunctionView,
    block: int,
    params: Seq<Value>,
    locals: Seq<Value>,
    memory: Memory,
    calls: nat,
    fuel: nat,
)
    requires
        0 <= block < graph.blocks.len(),
        locals.len() < graph.blocks[block].body.len(),
        !(graph.blocks[block].body[locals.len() as int] is Call),
        step(graph.blocks[block].body[locals.len() as int], params, locals, memory) is None,
    ensures
        run(recurrence, graph, block, params, locals, memory, calls, fuel) == Outcome::Undefined,
{
    reveal_with_fuel(run, 1);
}

/// A run whose call does not return ends as the call does.
pub proof fn lemma_run_call_fails(
    recurrence: FunctionView,
    graph: FunctionView,
    block: int,
    params: Seq<Value>,
    locals: Seq<Value>,
    memory: Memory,
    calls: nat,
    fuel: nat,
    index: u64,
)
    requires
        0 <= block < graph.blocks.len(),
        locals.len() < graph.blocks[block].body.len(),
        graph.blocks[block].body[locals.len() as int] matches Instr::Call { index: i, buffer: b }
            && read(i, params, locals) == Value::Word(index) && read(b, params, locals)
            == Value::Buffer,
        fuel >= 1,
        !(run(
            recurrence,
            recurrence,
            0,
            seq![Value::Word(index), Value::Buffer],
            Seq::empty(),
            memory,
            calls + 1,
            (fuel - 1) as nat,
        ) is Returned),
    ensures
        run(recurrence, graph, block, params, locals, memory, calls, fuel) == run(
            recurrence,
            recurrence,
            0,
            seq![Value::Word(index), Value::Buffer],
            Seq::empty(),
            memory,
            calls + 1,
            (fuel - 1) as nat,
        ),
{
    reveal_with_fuel(run, 1);
}

/// Where a run cannot go on: outside the routine's blocks, at a call whose operands are
/// not an index and the buffer, at a return of what is no word, or at a branch on what
/// is no flag, it is undefined; at a call or a branch without fuel it is exhausted.
pub proof fn lemma_run_halts(
    recurrence: FunctionView,
    graph: FunctionView,
    block: int,
    params: Seq<Value>,
    locals: Seq<Value>,
    memory: Memory,
    calls: nat,
    fuel: nat,
)
    ensures
        !(0 <= block < graph.blocks.len()) ==> run(
            recurrence,
            graph,
            block,
            params,
            locals,
            memory,
            calls,
            fuel,
        ) == Outcome::Undefined,
        0 <= block < graph.blocks.len() && locals.len() < graph.blocks[block].body.len() ==> (
        match graph.blocks[block].body[locals.len() as int] {
            Instr::Call { index, buffer } => {
                if !(read(index, params, locals) is Word && read(buffer, params, locals)
                    is Buffer) {
                    run(recurrence, graph, block, params, locals, memory, calls, fuel)
                        == Outcome::Undefined
                } else {
                    fuel == 0 ==> run(recurrence, graph, block, params, locals, memory, calls, fuel)
                        == Outcome::Exhausted
                }
            },
            _ => true,
        }),
        0 <= block < graph.blocks.len() && locals.len() >= graph.blocks[block].body.len() ==> (
        match graph.blocks[block].exit {
            Terminator::Return(op) => !(read(op, params, locals) is Word) ==> run(
                recurrence,
                graph,
                block,
                params,
                locals,
                memory,
                calls,
                fuel,
            ) == Outcome::Undefined,
            Terminator::Branch { cond, .. } => {
                if !(read(cond, params, locals) is Flag) {
                    run(recurrence, graph, block, params, locals, memory, calls, fuel)
                        == Outcome::Undefined
                } else {
                    fuel == 0 ==> run(recurrence, graph, block, params, locals, memory, calls, fuel)
                        == Outcome::Exhausted
                }
            },
        }),
{
    reveal_with_fuel(run, 1);
}

/// Run on an index above 1 whose slot holds nothing defined, or lies outside the buffer,
/// the recurrence routine's graph is undefined: the memo check reads the slot.
pub proof fn lemma_recurrence_graph_undefined(index: u64, memory: Memory, calls: nat, fuel: nat)
    requires
        index > 1,
        index >= memory.len() || memory[index as int] is None,
        fuel >= 1,
    ensures
        run_recurrence(index, memory, calls, fuel) == Outcome::Undefined,
{
    let g = recurrence_graph();
    let params = recurrence_args(index);
    let e = Seq::<Value>::empty();
    let f1 = (fuel - 1) as nat;
    lemma_entry_block(index, memory, calls, fuel);
    assert(g.blocks[2] == check_memo_block());
    let c1 = e.push(Value::Slot(index));
    lemma_run_step(g, g, 2, params, e, memory, calls, f1, Value::Slot(index), memory);
    lemma_run_stuck(g, g, 2, params, c1, memory, calls, f1);
}

/// The buffer as the entry routine hands it on: `BUFFER_CAPACITY` slots, the first
/// `ZEROED_PREFIX` of them zero, the others holding nothing defined.
pub open spec fn fresh_memory() -> Memory {
    Seq::new(
        BUFFER_CAPACITY as nat,
        |i: int|
            if i < ZEROED_PREFIX {
                Some(0u64)
            } else {
                None
            },
    )
}

/// What the entry routine's block does up to its call: it allocates the buffer and zeroes
/// the prefix.
proof fn lemma_setup_block(index: u64, fuel: nat)
    ensures
        run_bootstrap(index, fuel) == run(
            recurrence_graph(),
            bootstrap_graph(),
            0,
            seq![Value::Word(index)],
            seq![Value::Buffer, Value::Unit],
            fresh_memory(),
            0,
            fuel,
        ),
{
    let r = recurrence_graph();
    let g = bootstrap_graph();
    let params = seq![Value::Word(index)];
    let e = Seq::<Value>::empty();
    let none = Seq::new(BUFFER_CAPACITY as nat, |i: int| None::<u64>);
    assert(g.blocks[0] == setup_block());
    let s1 = e.push(Value::Buffer);
    lemma_run_step(r, g, 0, params, e, Seq::empty(), 0, fuel, Value::Buffer, none);
    let zeroed = Seq::new(
        none.len(),
        |i: int|
            if i < ZEROED_PREFIX {
                Some(0u64)
            } else {
                none[i]
            },
    );
    assert(zeroed =~= fresh_memory());
    lemma_run_step(r, g, 0, params, s1, none, 0, fuel, Value::Unit, fresh_memory());
    assert(s1.push(Value::Unit) =~= seq![Value::Buffer, Value::Unit]);
}

/// Fuel that lets the entry routine's graph run to its end on an index: three units for
/// each index down to zero inside the zeroed prefix, and a few to get there.
pub open spec fn enough_fuel(index: u64) -> nat {
    if index < ZEROED_PREFIX {
        (3 * index + 3) as nat
    } else {
        3
    }
}

/// The graphs compute what `evaluation` says. Run with enough fuel on an index inside the
/// zeroed prefix, the entry routine's graph returns the recurrence's 64-bit value after as
/// many calls as a fresh buffer takes; on an index past the prefix the run is undefined.
pub proof fn lemma_bootstrap_graph_computes(index: u64, fuel: nat)
    requires
        fuel >= enough_fuel(index),
    ensures
        match evaluation(index) {
            Some(e) => run_bootstrap(index, fuel) == (Outcome::Returned {
                value: e.value,
                memory: filled(fresh_memory(), 2, mark_after(index as nat, 2)),
                calls: e.calls as nat,
            }),
            None => run_bootstrap(index, fuel) == Outcome::Undefined,
        },
{
    let r = recurrence_graph();
    let g = bootstrap_graph();
    let params = seq![Value::Word(index)];
    let s2 = seq![Value::Buffer, Value::Unit];
    let f1 = (fuel - 1) as nat;
    lemma_setup_block(index, fuel);
    assert(g.blocks[0] == setup_block());
    assert(recurrence_args(index) == seq![Value::Word(index), Value::Buffer]);
    if index < ZEROED_PREFIX {
        let value = wrapped_fib(index as nat);
        let after = filled(fresh_memory(), 2, mark_after(index as nat, 2));
        let made = call_count(index as nat, 2);
        lemma_recurrence_graph_computes(index, fresh_memory(), 2, 1, f1);
        lemma_run_call(r, g, 0, params, s2, fresh_memory(), 0, fuel, index, value, after, made);
        let s3 = s2.push(Value::Word(value));
        lemma_run_return(r, g, 0, params, s3, after, made, fuel, value);
    } else {
        lemma_recurrence_graph_undefined(index, fresh_memory(), 1, f1);
        lemma_run_call_fails(r, g, 0, params, s2, fresh_memory(), 0, fuel, index);
    }
}

} // verus!
