use crate::builder::{bootstrap_function, recurrence_function};
use crate::graph::{FunctionGraph, Instr, Operand, Predicate, Terminator, ZEROED_PREFIX};
use crate::memo::{evaluation, Evaluation};
use crate::semantics::{
    lemma_bootstrap_graph_computes, lemma_run_branch, lemma_run_call, lemma_run_call_fails,
    lemma_run_halts, lemma_run_return, lemma_run_step, lemma_run_stuck, read, run, step, wrap_add,
    wrap_sub, Memory, Outcome, Value,
};
use vstd::prelude::*;

verus! {

/// How an interpreted run ends.
#[derive(Clone, Copy, Debug, PartialEq, Eq, Structural)]
pub enum Halt {
    /// The routine returned `value`; `calls` invocations of the recurrence routine were
    /// made, counted up to the largest 64-bit number.
    Returned { value: u64, calls: u64 },
    /// The run read what is not defined.
    Undefined,
    /// The step budget ran out.
    Exhausted,
}

/// A count as 64 bits hold it: itself, or the largest 64-bit number where it is larger.
pub open spec fn saturated(n: nat) -> u64 {
    if n <= u64::MAX {
        n as u64
    } else {
        u64::MAX
    }
}

/// The end of a run, without the buffer.
pub open spec fn halt_of(outcome: Outcome) -> Halt {
    match outcome {
        Outcome::Returned { value, calls, .. } => Halt::Returned {
            value,
            calls: saturated(calls),
        },
        Outcome::Undefined => Halt::Undefined,
        Outcome::Exhausted => Halt::Exhausted,
    }
}

/// The memo buffer of an interpreted run. Only a leading part of the slots is held; a
/// slot past it holds nothing defined.
pub struct Machine {
    length: u64,
    prefix: Vec<Option<u64>>,
}

impl Machine {
    /// The slots, by index.
    pub closed spec fn view(&self) -> Memory {
        Seq::new(
            self.length as nat,
            |i: int|
                if i < self.prefix@.len() {
                    self.prefix@[i]
                } else {
                    None
                },
        )
    }

    /// The part that is held is no longer than the buffer.
    pub closed spec fn wf(&self) -> bool {
        self.prefix@.len() <= self.length
    }

    /// The state before any buffer is allocated.
    pub fn new() -> (m: Self)
        ensures
            m.wf(),
            m@ == Seq::<Option<u64>>::empty(),
    {
        let m = Machine { length: 0, prefix: Vec::new() };
        proof {
            assert(m@ =~= Seq::<Option<u64>>::empty());
        }
        m
    }

    /// The number of slots.
    pub fn length(&self) -> (n: u64)
        ensures
            n == self@.len(),
    {
        self.length
    }

    /// The word in the slot at `index`, or `None` where the slot holds nothing defined or
    /// lies outside the buffer.
    pub fn slot(&self, index: u64) -> (word: Option<u64>)
        requires
            self.wf(),
        ensures
            word == (if index < self@.len() {
                self@[index as int]
            } else {
                None
            }),
    {
        if index < self.prefix.len() as u64 {
            self.prefix[index as usize]
        } else {
            None
        }
    }

    /// Replaces the buffer by one of `count` slots, none of them defined.
    fn allocate(&mut self, count: u64)
        ensures
            final(self).wf(),
            final(self)@ == Seq::new(count as nat, |i: int| None::<u64>),
    {
        self.length = count;
        self.prefix = Vec::new();
        proof {
            assert(self@ =~= Seq::new(count as nat, |i: int| None::<u64>));
        }
    }

    /// Sets the first `count` slots to zero.
    fn zero_fill(&mut self, count: u64)
        requires
            old(self).wf(),
            count <= old(self)@.len(),
        ensures
            final(self).wf(),
            final(self)@ == Seq::new(
                old(self)@.len(),
                |i: int|
                    if i < count {
                        Some(0u64)
                    } else {
                        old(self)@[i]
                    },
            ),
    {
        let ghost before = self@;
        let mut at: u64 = 0;
        while at < count
            invariant
                self.wf(),
                at <= count <= self.length,
                at <= self.prefix@.len(),
                self@.len() == before.len(),
                forall|i: int|
                    0 <= i < before.len() ==> #[trigger] self@[i] == (if i < at {
                        Some(0u64)
                    } else {
                        before[i]
                    }),
            decreases count - at,
        {
            let ghost last = self@;
            if at < self.prefix.len() as u64 {
                self.prefix.set(at as usize, Some(0));
            } else {
                self.prefix.push(Some(0));
            }
            proof {
                assert(self@ =~= last.update(at as int, Some(0u64)));
            }
            at = at + 1;
        }
        proof {
            assert(self@ =~= Seq::new(
                before.len(),
                |i: int|
                    if i < count {
                        Some(0u64)
                    } else {
                        before[i]
                    },
            ));
        }
    }

    /// Writes a word to the slot at `index`.
    fn store(&mut self, index: u64, word: u64)
        requires
            old(self).wf(),
            index < old(self)@.len(),
        ensures
            final(self).wf(),
            final(self)@ == old(self)@.update(index as int, Some(word)),
    {
        let ghost before = self@;
        while (self.prefix.len() as u64) < index
            invariant
                self.wf(),
                index < self.length,
                self@ =~= before,
            decreases index - self.prefix@.len(),
        {
            self.prefix.push(None);
        }
        if index < self.prefix.len() as u64 {
            self.prefix.set(index as usize, Some(word));
        } else {
            self.prefix.push(Some(word));
        }
        proof {
            assert(self@ =~= before.update(index as int, Some(word)));
        }
    }
}

/// The value of an operand, given the arguments and the results of the block so far.
fn read_operand(op: Operand, params: &Vec<Value>, locals: &Vec<Value>) -> (value: Value)
    ensures
        value == read(op, params@, locals@),
{
    match op {
        Operand::Param(p) => if p < params.len() {
            params[p]
        } else {
            Value::Unit
        },
        Operand::Const(c) => Value::Word(c),
        Operand::Local(l) => if l < locals.len() {
            locals[l]
        } else {
            Value::Unit
        },
    }
}

/// Performs an instruction other than a call: its result, or `None` where it reads what
/// is not defined.
fn step_instr(instr: Instr, params: &Vec<Value>, locals: &Vec<Value>, memory: &mut Machine) -> (out:
    Option<Value>)
    requires
        old(memory).wf(),
        !(instr is Call),
    ensures
        final(memory).wf(),
        match step(instr, params@, locals@, old(memory)@) {
            Some((value, after)) => out == Some(value) && final(memory)@ == after,
            None => out is None,
        },
{
    match instr {
        Instr::Allocate { count } => {
            memory.allocate(count);
            Some(Value::Buffer)
        },
        Instr::ZeroFill { buffer, count } => match read_operand(buffer, params, locals) {
            Value::Buffer => if count <= memory.length() {
                memory.zero_fill(count);
                Some(Value::Unit)
            } else {
                None
            },
            _ => None,
        },
        Instr::Compare { pred, lhs, rhs } => match (
            read_operand(lhs, params, locals),
            read_operand(rhs, params, locals),
        ) {
            (Value::Word(a), Value::Word(b)) => Some(
                Value::Flag(
                    match pred {
                        Predicate::AtMost => a <= b,
                        Predicate::Equal => a == b,
                    },
                ),
            ),
            _ => None,
        },
        Instr::SlotAddress { buffer, index } => match (
            read_operand(buffer, params, locals),
            read_operand(index, params, locals),
        ) {
            (Value::Buffer, Value::Word(i)) => Some(Value::Slot(i)),
            _ => None,
        },
        Instr::Load { address } => match read_operand(address, params, locals) {
            Value::Slot(i) => match memory.slot(i) {
                Some(word) => Some(Value::Word(word)),
                None => None,
            },
            _ => None,
        },
        Instr::Store { address, value } => match (
            read_operand(address, params, locals),
            read_operand(value, params, locals),
        ) {
            (Value::Slot(i), Value::Word(word)) => if i < memory.length() {
                memory.store(i, word);
                Some(Value::Unit)
            } else {
                None
            },
            _ => None,
        },
        Instr::Sub { lhs, rhs } => match (
            read_operand(lhs, params, locals),
            read_operand(rhs, params, locals),
        ) {
            (Value::Word(a), Value::Word(b)) => {
                let word: u64 = a.wrapping_sub(b);
                assert(word == wrap_sub(a, b));
                Some(Value::Word(word))
            },
            _ => None,
        },
        Instr::Add { lhs, rhs } => match (
            read_operand(lhs, params, locals),
            read_operand(rhs, params, locals),
        ) {
            (Value::Word(a), Value::Word(b)) => {
                let word: u64 = a.wrapping_add(b);
                assert(word == wrap_add(a, b));
                Some(Value::Word(word))
            },
            _ => None,
        },
        Instr::Call { .. } => None,
    }
}

/// Runs a routine's graph from the start of the block at `block`, `counted` calls having
/// been made before.
fn run_block(
    recurrence: &FunctionGraph,
    graph: &FunctionGraph,
    block: usize,
    params: &Vec<Value>,
    memory: &mut Machine,
    fuel: u64,
    counted: u64,
    Ghost(calls): Ghost<nat>,
) -> (out: Halt)
    requires
        old(memory).wf(),
        counted == saturated(calls),
    ensures
        final(memory).wf(),
        out == halt_of(
            run(
                recurrence@,
                graph@,
                block as int,
                params@,
                Seq::empty(),
                old(memory)@,
                calls,
                fuel as nat,
            ),
        ),
        run(
            recurrence@,
            graph@,
            block as int,
            params@,
            Seq::empty(),
            old(memory)@,
            calls,
            fuel as nat,
        ) matches Outcome::Returned { memory: after, .. } ==> final(memory)@ == after,
    decreases fuel,
{
    let ghost goal = run(
        recurrence@,
        graph@,
        block as int,
        params@,
        Seq::empty(),
        memory@,
        calls,
        fuel as nat,
    );
    proof {
        lemma_run_halts(
            recurrence@,
            graph@,
            block as int,
            params@,
            Seq::empty(),
            memory@,
            calls,
            fuel as nat,
        );
    }
    if block >= graph.blocks.len() {
        return Halt::Undefined;
    }
    let body = &graph.blocks[block].body;
    let exit = graph.blocks[block].exit;
    proof {
        assert(graph@.blocks[block as int] == graph.blocks@[block as int]@);
    }
    let mut locals: Vec<Value> = Vec::new();
    let ghost mut made: nat = calls;
    let mut count: u64 = counted;
    while locals.len() < body.len()
        invariant
            memory.wf(),
            count == saturated(made),
            block < graph@.blocks.len(),
            graph@.blocks[block as int].body == body@,
            locals@.len() <= body@.len(),
            goal == run(
                recurrence@,
                graph@,
                block as int,
                params@,
                Seq::empty(),
                old(memory)@,
                calls,
                fuel as nat,
            ),
            goal == run(
                recurrence@,
                graph@,
                block as int,
                params@,
                locals@,
                memory@,
                made,
                fuel as nat,
            ),
        decreases body@.len() - locals@.len(),
    {
        let instr = body[locals.len()];
        let ghost before = memory@;
        proof {
            lemma_run_halts(
                recurrence@,
                graph@,
                block as int,
                params@,
                locals@,
                before,
                made,
                fuel as nat,
            );
        }
        match instr {
            Instr::Call { index, buffer } => {
                let target = read_operand(index, params, &locals);
                let handle = read_operand(buffer, params, &locals);
                match (target, handle) {
                    (Value::Word(at), Value::Buffer) => {
                        if fuel == 0 {
                            return Halt::Exhausted;
                        }
                        let args = vec![Value::Word(at), Value::Buffer];
                        let ghost inner = run(
                            recurrence@,
                            recurrence@,
                            0,
                            seq![Value::Word(at), Value::Buffer],
                            Seq::empty(),
                            before,
                            made + 1,
                            (fuel - 1) as nat,
                        );
                        proof {
                            assert(args@ =~= seq![Value::Word(at), Value::Buffer]);
                        }
                        let next: u64 = if count < u64::MAX {
                            count + 1
                        } else {
                            count
                        };
                        let ended = run_block(
                            recurrence,
                            recurrence,
                            0,
                            &args,
                            memory,
                            fuel - 1,
                            next,
                            Ghost((made + 1) as nat),
                        );
                        match ended {
                            Halt::Returned { value, calls: total } => {
                                proof {
                                    lemma_run_call(
                                        recurrence@,
                                        graph@,
                                        block as int,
                                        params@,
                                        locals@,
                                        before,
                                        made,
                                        fuel as nat,
                                        at,
                                        value,
                                        inner->memory,
                                        inner->calls,
                                    );
                                    made = inner->calls;
                                }
                                count = total;
                                locals.push(Value::Word(value));
                            },
                            other => {
                                proof {
                                    lemma_run_call_fails(
                                        recurrence@,
                                        graph@,
                                        block as int,
                                        params@,
                                        locals@,
                                        before,
                                        made,
                                        fuel as nat,
                                        at,
                                    );
                                }
                                return other;
                            },
                        }
                    },
                    _ => {
                        return Halt::Undefined;
                    },
                }
            },
            _ => {
                match step_instr(instr, params, &locals, memory) {
                    Some(value) => {
                        proof {
                            lemma_run_step(
                                recurrence@,
                                graph@,
                                block as int,
                                params@,
                                locals@,
                                before,
                                made,
                                fuel as nat,
                                value,
                                memory@,
                            );
                        }
                        locals.push(value);
                    },
                    None => {
                        proof {
                            lemma_run_stuck(
                                recurrence@,
                                graph@,
                                block as int,
                                params@,
                                locals@,
                                before,
                                made,
                                fuel as nat,
                            );
                        }
                        return Halt::Undefined;
                    },
                }
            },
        }
    }
    proof {
        lemma_run_halts(
            recurrence@,
            graph@,
            block as int,
            params@,
            locals@,
            memory@,
            made,
            fuel as nat,
        );
    }
    match exit {
        Terminator::Return(op) => match read_operand(op, params, &locals) {
            Value::Word(value) => {
                proof {
                    lemma_run_return(
                        recurrence@,
                        graph@,
                        block as int,
                        params@,
                        locals@,
                        memory@,
                        made,
                        fuel as nat,
                        value,
                    );
                }
                Halt::Returned { value, calls: count }
            },
            _ => Halt::Undefined,
        },
        Terminator::Branch { cond, if_true, if_false } => match read_operand(
            cond,
            params,
            &locals,
        ) {
            Value::Flag(taken) => {
                if fuel == 0 {
                    return Halt::Exhausted;
                }
                let target = if taken {
                    if_true
                } else {
                    if_false
                };
                proof {
                    lemma_run_branch(
                        recurrence@,
                        graph@,
                        block as int,
                        params@,
                        locals@,
                        memory@,
                        made,
                        fuel as nat,
                        taken,
                        target as int,
                    );
                }
                run_block(recurrence, graph, target, params, memory, fuel - 1, count, Ghost(made))
            },
            _ => Halt::Undefined,
        },
    }
}

/// Runs the graph of a routine from its first block on the given arguments and buffer,
/// calls going to `recurrence`, for as long as the fuel lasts.
pub fn execute(
    recurrence: &FunctionGraph,
    graph: &FunctionGraph,
    params: &Vec<Value>,
    memory: &mut Machine,
    fuel: u64,
) -> (out: Halt)
    requires
        old(memory).wf(),
    ensures
        final(memory).wf(),
        out == halt_of(
            run(recurrence@, graph@, 0, params@, Seq::empty(), old(memory)@, 0, fuel as nat),
        ),
        run(
            recurrence@,
            graph@,
            0,
            params@,
            Seq::empty(),
            old(memory)@,
            0,
            fuel as nat,
        ) matches Outcome::Returned { memory: after, .. } ==> final(memory)@ == after,
{
    run_block(recurrence, graph, 0, params, memory, fuel, 0, Ghost(0))
}

/// Builds the two graphs and runs the entry routine on an index: inside the zeroed prefix
/// the recurrence's 64-bit value and the calls that the run made; `None` past it, where
/// the run is undefined.
pub fn run_graphs(index: u64) -> (out: Option<Evaluation>)
    ensures
        out == evaluation(index),
{
    let recurrence = recurrence_function();
    let bootstrap = bootstrap_function();
    let fuel: u64 = if index < ZEROED_PREFIX {
        3 * index + 3
    } else {
        3
    };
    let mut memory = Machine::new();
    let params = vec![Value::Word(index)];
    proof {
        lemma_bootstrap_graph_computes(index, fuel as nat);
        assert(params@ =~= seq![Value::Word(index)]);
    }
    match execute(&recurrence, &bootstrap, &params, &mut memory, fuel) {
        Halt::Returned { value, calls } => Some(Evaluation { value, calls }),
        _ => None,
    }
}

} // verus!
