use memofib::builder::{bootstrap_function, recurrence_function};
use memofib::graph::{
    Block, FunctionGraph, Instr, Label, Operand, ParamKind, Predicate, Routine, Terminator,
    BUFFER_CAPACITY, ZEROED_PREFIX,
};
use memofib::interp::{execute, run_graphs, Halt, Machine};
use memofib::memo::{bootstrap, Evaluation};
use memofib::semantics::Value;

fn single(body: Vec<Instr>, exit: Terminator) -> FunctionGraph {
    FunctionGraph {
        routine: Routine::Bootstrap,
        params: vec![ParamKind::Index],
        blocks: vec![Block { label: Label::Setup, body, exit }],
    }
}

fn run_single(body: Vec<Instr>, exit: Terminator, fuel: u64) -> Halt {
    let graph = single(body, exit);
    let recurrence = recurrence_function();
    let mut machine = Machine::new();
    execute(&recurrence, &graph, &vec![Value::Word(5)], &mut machine, fuel)
}

#[test]
fn graphs_compute_the_standard_values() {
    assert_eq!(run_graphs(0), Some(Evaluation { value: 0, calls: 1 }));
    assert_eq!(run_graphs(1), Some(Evaluation { value: 1, calls: 1 }));
    assert_eq!(run_graphs(2), Some(Evaluation { value: 1, calls: 3 }));
    assert_eq!(run_graphs(10), Some(Evaluation { value: 55, calls: 19 }));
    assert_eq!(run_graphs(20), Some(Evaluation { value: 6765, calls: 39 }));
}

#[test]
fn graphs_wrap_around() {
    assert_eq!(run_graphs(93).map(|e| e.value), Some(12200160415121876738));
    assert_eq!(run_graphs(94).map(|e| e.value), Some(1293530146158671551));
    assert_eq!(run_graphs(199).map(|e| e.value), Some(4845216997073187469));
}

#[test]
fn graphs_are_undefined_past_the_prefix() {
    assert_eq!(run_graphs(ZEROED_PREFIX), None);
    assert_eq!(run_graphs(ZEROED_PREFIX + 1), None);
    assert_eq!(run_graphs(BUFFER_CAPACITY), None);
    assert_eq!(run_graphs(u64::MAX), None);
}

#[test]
fn graph_calls_grow_linearly() {
    for n in 2..ZEROED_PREFIX {
        let calls = run_graphs(n).unwrap().calls;
        assert_eq!(calls, 2 * n - 1);
        assert!(calls <= 2 * n + 1);
    }
}

#[test]
fn graphs_agree_with_the_routine() {
    for n in 0..ZEROED_PREFIX + 10 {
        assert_eq!(run_graphs(n), bootstrap(n));
    }
}

#[test]
fn entry_routine_leaves_the_buffer_filled_up_to_the_index() {
    let recurrence = recurrence_function();
    let entry = bootstrap_function();
    let mut machine = Machine::new();
    assert_eq!(machine.length(), 0);
    let out = execute(&recurrence, &entry, &vec![Value::Word(10)], &mut machine, 1000);
    assert_eq!(out, Halt::Returned { value: 55, calls: 19 });
    assert_eq!(machine.length(), BUFFER_CAPACITY);
    assert_eq!(machine.slot(0), Some(0));
    assert_eq!(machine.slot(1), Some(0));
    assert_eq!(machine.slot(2), Some(1));
    assert_eq!(machine.slot(9), Some(34));
    assert_eq!(machine.slot(10), Some(55));
    assert_eq!(machine.slot(11), Some(0));
    assert_eq!(machine.slot(ZEROED_PREFIX - 1), Some(0));
    assert_eq!(machine.slot(ZEROED_PREFIX), None);
    assert_eq!(machine.slot(BUFFER_CAPACITY - 1), None);
    assert_eq!(machine.slot(BUFFER_CAPACITY), None);
}

#[test]
fn recurrence_routine_runs_on_a_buffer_in_use() {
    let recurrence = recurrence_function();
    let entry = bootstrap_function();
    let mut machine = Machine::new();
    execute(&recurrence, &entry, &vec![Value::Word(10)], &mut machine, 1000);
    let args = vec![Value::Word(12), Value::Buffer];
    assert_eq!(
        execute(&recurrence, &recurrence, &args, &mut machine, 1000),
        Halt::Returned { value: 144, calls: 4 }
    );
    assert_eq!(machine.slot(11), Some(89));
    assert_eq!(machine.slot(12), Some(144));
    let hit = vec![Value::Word(7), Value::Buffer];
    assert_eq!(
        execute(&recurrence, &recurrence, &hit, &mut machine, 2),
        Halt::Returned { value: 13, calls: 0 }
    );
}

#[test]
fn reading_a_slot_that_was_never_set_is_undefined() {
    let recurrence = recurrence_function();
    let entry = bootstrap_function();
    let mut machine = Machine::new();
    execute(&recurrence, &entry, &vec![Value::Word(3)], &mut machine, 1000);
    let args = vec![Value::Word(ZEROED_PREFIX), Value::Buffer];
    assert_eq!(execute(&recurrence, &recurrence, &args, &mut machine, 1000), Halt::Undefined);
}

#[test]
fn running_out_of_fuel() {
    let recurrence = recurrence_function();
    let entry = bootstrap_function();
    let params = vec![Value::Word(10)];
    assert_eq!(execute(&recurrence, &entry, &params, &mut Machine::new(), 0), Halt::Exhausted);
    assert_eq!(execute(&recurrence, &entry, &params, &mut Machine::new(), 5), Halt::Exhausted);
    assert_eq!(
        execute(&recurrence, &entry, &params, &mut Machine::new(), 33),
        Halt::Returned { value: 55, calls: 19 }
    );
}

#[test]
fn wrong_arguments_are_undefined() {
    let recurrence = recurrence_function();
    let mut machine = Machine::new();
    let missing = vec![Value::Word(5)];
    assert_eq!(execute(&recurrence, &recurrence, &missing, &mut machine, 100), Halt::Undefined);
    let swapped = vec![Value::Buffer, Value::Word(5)];
    assert_eq!(execute(&recurrence, &recurrence, &swapped, &mut machine, 100), Halt::Undefined);
    let no_buffer = vec![Value::Word(5), Value::Buffer];
    assert_eq!(execute(&recurrence, &recurrence, &no_buffer, &mut machine, 100), Halt::Undefined);
}

#[test]
fn graph_without_blocks_is_undefined() {
    let recurrence = recurrence_function();
    let empty = FunctionGraph { routine: Routine::Bootstrap, params: vec![], blocks: vec![] };
    assert_eq!(execute(&recurrence, &empty, &vec![], &mut Machine::new(), 10), Halt::Undefined);
}

#[test]
fn return_of_a_constant_or_a_parameter() {
    assert_eq!(run_single(vec![], Terminator::Return(Operand::Const(7)), 0), Halt::Returned { value: 7, calls: 0 });
    assert_eq!(run_single(vec![], Terminator::Return(Operand::Param(0)), 0), Halt::Returned { value: 5, calls: 0 });
    assert_eq!(run_single(vec![], Terminator::Return(Operand::Param(1)), 0), Halt::Undefined);
    assert_eq!(run_single(vec![], Terminator::Return(Operand::Local(0)), 0), Halt::Undefined);
}

#[test]
fn arithmetic_wraps() {
    let add = vec![Instr::Add { lhs: Operand::Const(u64::MAX), rhs: Operand::Const(2) }];
    assert_eq!(run_single(add, Terminator::Return(Operand::Local(0)), 0), Halt::Returned { value: 1, calls: 0 });
    let sub = vec![Instr::Sub { lhs: Operand::Const(0), rhs: Operand::Const(1) }];
    assert_eq!(run_single(sub, Terminator::Return(Operand::Local(0)), 0), Halt::Returned { value: u64::MAX, calls: 0 });
    let plain = vec![Instr::Sub { lhs: Operand::Param(0), rhs: Operand::Const(2) }];
    assert_eq!(run_single(plain, Terminator::Return(Operand::Local(0)), 0), Halt::Returned { value: 3, calls: 0 });
}

#[test]
fn flag_is_no_word() {
    let body = vec![Instr::Compare {
        pred: Predicate::AtMost,
        lhs: Operand::Param(0),
        rhs: Operand::Const(9),
    }];
    assert_eq!(run_single(body.clone(), Terminator::Return(Operand::Local(0)), 0), Halt::Undefined);
    let sum = vec![body[0], Instr::Add { lhs: Operand::Local(0), rhs: Operand::Const(1) }];
    assert_eq!(run_single(sum, Terminator::Return(Operand::Const(0)), 0), Halt::Undefined);
}

#[test]
fn store_then_load() {
    let body = vec![
        Instr::Allocate { count: 4 },
        Instr::SlotAddress { buffer: Operand::Local(0), index: Operand::Const(3) },
        Instr::Store { address: Operand::Local(1), value: Operand::Const(42) },
        Instr::Load { address: Operand::Local(1) },
    ];
    assert_eq!(run_single(body, Terminator::Return(Operand::Local(3)), 0), Halt::Returned { value: 42, calls: 0 });
}

#[test]
fn access_outside_the_buffer_is_undefined() {
    let store = vec![
        Instr::Allocate { count: 4 },
        Instr::SlotAddress { buffer: Operand::Local(0), index: Operand::Const(4) },
        Instr::Store { address: Operand::Local(1), value: Operand::Const(42) },
    ];
    assert_eq!(run_single(store, Terminator::Return(Operand::Const(0)), 0), Halt::Undefined);
    let fill = vec![
        Instr::Allocate { count: 4 },
        Instr::ZeroFill { buffer: Operand::Local(0), count: 5 },
    ];
    assert_eq!(run_single(fill, Terminator::Return(Operand::Const(0)), 0), Halt::Undefined);
    let load = vec![
        Instr::Allocate { count: 4 },
        Instr::SlotAddress { buffer: Operand::Local(0), index: Operand::Const(2) },
        Instr::Load { address: Operand::Local(1) },
    ];
    assert_eq!(run_single(load, Terminator::Return(Operand::Local(2)), 0), Halt::Undefined);
}

#[test]
fn zero_fill_defines_the_prefix_only() {
    let body = |index: u64| {
        vec![
            Instr::Allocate { count: 8 },
            Instr::ZeroFill { buffer: Operand::Local(0), count: 3 },
            Instr::SlotAddress { buffer: Operand::Local(0), index: Operand::Const(index) },
            Instr::Load { address: Operand::Local(2) },
        ]
    };
    let exit = Terminator::Return(Operand::Local(3));
    assert_eq!(run_single(body(0), exit, 0), Halt::Returned { value: 0, calls: 0 });
    assert_eq!(run_single(body(2), exit, 0), Halt::Returned { value: 0, calls: 0 });
    assert_eq!(run_single(body(3), exit, 0), Halt::Undefined);
    assert_eq!(run_single(body(7), exit, 0), Halt::Undefined);
}

#[test]
fn endless_branch_exhausts_the_fuel() {
    let body = vec![Instr::Compare {
        pred: Predicate::Equal,
        lhs: Operand::Const(0),
        rhs: Operand::Const(0),
    }];
    let exit = Terminator::Branch { cond: Operand::Local(0), if_true: 0, if_false: 0 };
    assert_eq!(run_single(body.clone(), exit, 1000), Halt::Exhausted);
    let out = Terminator::Branch { cond: Operand::Local(0), if_true: 3, if_false: 0 };
    assert_eq!(run_single(body, out, 1000), Halt::Undefined);
}
