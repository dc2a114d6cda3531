use memofib::builder::{
    bootstrap_function, recurrence_function, BASE_CASE, CHECK_MEMO, COMPUTE, ENTRY, MEMO_HIT,
};
use memofib::graph::{
    byte_length, Block, FunctionGraph, Instr, Label, Operand, ParamKind, Predicate, Routine,
    Terminator, BUFFER_CAPACITY, ZEROED_PREFIX,
};

#[test]
fn routine_symbols() {
    assert_eq!(Routine::Bootstrap.symbol(), "main");
    assert_eq!(Routine::Recurrence.symbol(), "sum");
}

#[test]
fn label_names_differ() {
    let labels = [
        Label::Setup,
        Label::Entry,
        Label::BaseCase,
        Label::CheckMemo,
        Label::MemoHit,
        Label::Compute,
    ];
    for (i, a) in labels.iter().enumerate() {
        assert!(!a.name().is_empty());
        for b in labels.iter().skip(i + 1) {
            assert_ne!(a.name(), b.name());
        }
    }
    assert_eq!(Label::CheckMemo.name(), "check_memo");
}

#[test]
fn buffer_constants() {
    assert_eq!(BUFFER_CAPACITY, 100_000_000_000);
    assert_eq!(ZEROED_PREFIX, 200);
    assert!(ZEROED_PREFIX < BUFFER_CAPACITY);
}

#[test]
fn byte_length_of_slots() {
    assert_eq!(byte_length(0), Some(0));
    assert_eq!(byte_length(200), Some(1600));
    assert_eq!(byte_length(BUFFER_CAPACITY), Some(800_000_000_000));
    assert_eq!(byte_length(u64::MAX / 8), Some(u64::MAX - 7));
    assert_eq!(byte_length(u64::MAX / 8 + 1), None);
    assert_eq!(byte_length(u64::MAX), None);
}

#[test]
fn bootstrap_graph_shape() {
    let g = bootstrap_function();
    assert_eq!(g.routine, Routine::Bootstrap);
    assert_eq!(g.params, vec![ParamKind::Index]);
    assert_eq!(g.blocks.len(), 1);
    let setup = &g.blocks[0];
    assert_eq!(setup.label, Label::Setup);
    assert_eq!(
        setup.body,
        vec![
            Instr::Allocate { count: 100_000_000_000 },
            Instr::ZeroFill { buffer: Operand::Local(0), count: 200 },
            Instr::Call { index: Operand::Param(0), buffer: Operand::Local(0) },
        ]
    );
    assert_eq!(setup.exit, Terminator::Return(Operand::Local(2)));
}

#[test]
fn recurrence_graph_has_five_blocks() {
    let g = recurrence_function();
    assert_eq!(g.routine, Routine::Recurrence);
    assert_eq!(g.params, vec![ParamKind::Index, ParamKind::Buffer]);
    let labels: Vec<Label> = g.blocks.iter().map(|b| b.label).collect();
    assert_eq!(
        labels,
        vec![Label::Entry, Label::BaseCase, Label::CheckMemo, Label::MemoHit, Label::Compute]
    );
    assert_eq!(g.blocks[ENTRY].label, Label::Entry);
    assert_eq!(g.blocks[BASE_CASE].label, Label::BaseCase);
    assert_eq!(g.blocks[CHECK_MEMO].label, Label::CheckMemo);
    assert_eq!(g.blocks[MEMO_HIT].label, Label::MemoHit);
    assert_eq!(g.blocks[COMPUTE].label, Label::Compute);
}

#[test]
fn entry_tests_index_at_most_one() {
    let g = recurrence_function();
    let entry = &g.blocks[ENTRY];
    assert_eq!(
        entry.body,
        vec![Instr::Compare {
            pred: Predicate::AtMost,
            lhs: Operand::Param(0),
            rhs: Operand::Const(1)
        }]
    );
    assert_eq!(
        entry.exit,
        Terminator::Branch { cond: Operand::Local(0), if_true: BASE_CASE, if_false: CHECK_MEMO }
    );
}

#[test]
fn base_case_returns_the_index() {
    let g = recurrence_function();
    let base = &g.blocks[BASE_CASE];
    assert!(base.body.is_empty());
    assert_eq!(base.exit, Terminator::Return(Operand::Param(0)));
}

#[test]
fn check_memo_compares_the_slot_with_zero() {
    let g = recurrence_function();
    let check = &g.blocks[CHECK_MEMO];
    assert_eq!(
        check.body,
        vec![
            Instr::SlotAddress { buffer: Operand::Param(1), index: Operand::Param(0) },
            Instr::Load { address: Operand::Local(0) },
            Instr::Compare {
                pred: Predicate::Equal,
                lhs: Operand::Local(1),
                rhs: Operand::Const(0)
            },
        ]
    );
    assert_eq!(
        check.exit,
        Terminator::Branch { cond: Operand::Local(2), if_true: COMPUTE, if_false: MEMO_HIT }
    );
}

#[test]
fn memo_hit_returns_the_loaded_slot() {
    let g = recurrence_function();
    let hit = &g.blocks[MEMO_HIT];
    assert_eq!(
        hit.body,
        vec![
            Instr::SlotAddress { buffer: Operand::Param(1), index: Operand::Param(0) },
            Instr::Load { address: Operand::Local(0) },
        ]
    );
    assert_eq!(hit.exit, Terminator::Return(Operand::Local(1)));
}

#[test]
fn compute_calls_twice_adds_stores_and_returns() {
    let g = recurrence_function();
    let compute = &g.blocks[COMPUTE];
    assert_eq!(
        compute.body,
        vec![
            Instr::Sub { lhs: Operand::Param(0), rhs: Operand::Const(1) },
            Instr::Sub { lhs: Operand::Param(0), rhs: Operand::Const(2) },
            Instr::Call { index: Operand::Local(0), buffer: Operand::Param(1) },
            Instr::Call { index: Operand::Local(1), buffer: Operand::Param(1) },
            Instr::Add { lhs: Operand::Local(2), rhs: Operand::Local(3) },
            Instr::SlotAddress { buffer: Operand::Param(1), index: Operand::Param(0) },
            Instr::Store { address: Operand::Local(5), value: Operand::Local(4) },
        ]
    );
    assert_eq!(compute.exit, Terminator::Return(Operand::Local(4)));
}

#[test]
fn branches_stay_inside_the_routine() {
    let g = recurrence_function();
    for block in g.blocks.iter() {
        if let Terminator::Branch { if_true, if_false, .. } = block.exit {
            assert!(if_true < g.blocks.len());
            assert!(if_false < g.blocks.len());
        }
    }
}

fn one_block(body: Vec<Instr>, exit: Terminator) -> FunctionGraph {
    FunctionGraph {
        routine: Routine::Recurrence,
        params: vec![ParamKind::Index, ParamKind::Buffer],
        blocks: vec![Block { label: Label::Entry, body, exit }],
    }
}

#[test]
fn built_graphs_are_well_formed() {
    assert!(bootstrap_function().is_well_formed());
    assert!(recurrence_function().is_well_formed());
    for block in recurrence_function().blocks.iter() {
        assert!(block.is_well_formed(2, 5));
    }
}

#[test]
fn graph_without_blocks_is_malformed() {
    let g = FunctionGraph { routine: Routine::Bootstrap, params: vec![ParamKind::Index], blocks: vec![] };
    assert!(!g.is_well_formed());
}

#[test]
fn smallest_well_formed_graph() {
    assert!(one_block(vec![], Terminator::Return(Operand::Const(7))).is_well_formed());
    assert!(one_block(vec![], Terminator::Return(Operand::Param(1))).is_well_formed());
}

#[test]
fn missing_parameter_is_malformed() {
    assert!(!one_block(vec![], Terminator::Return(Operand::Param(2))).is_well_formed());
    let body = vec![Instr::Load { address: Operand::Param(9) }];
    assert!(!one_block(body, Terminator::Return(Operand::Local(0))).is_well_formed());
}

#[test]
fn local_read_before_it_is_defined_is_malformed() {
    let own = vec![Instr::Add { lhs: Operand::Local(0), rhs: Operand::Const(1) }];
    assert!(!one_block(own, Terminator::Return(Operand::Local(0))).is_well_formed());
    let later = vec![
        Instr::Add { lhs: Operand::Local(1), rhs: Operand::Const(1) },
        Instr::Sub { lhs: Operand::Param(0), rhs: Operand::Const(1) },
    ];
    assert!(!one_block(later, Terminator::Return(Operand::Local(0))).is_well_formed());
    assert!(!one_block(vec![], Terminator::Return(Operand::Local(0))).is_well_formed());
}

#[test]
fn reading_an_instruction_that_yields_nothing_is_malformed() {
    let body = vec![
        Instr::SlotAddress { buffer: Operand::Param(1), index: Operand::Param(0) },
        Instr::Store { address: Operand::Local(0), value: Operand::Const(3) },
    ];
    assert!(one_block(body.clone(), Terminator::Return(Operand::Param(0))).is_well_formed());
    assert!(!one_block(body, Terminator::Return(Operand::Local(1))).is_well_formed());
    let fill = vec![Instr::ZeroFill { buffer: Operand::Param(1), count: 4 }];
    assert!(!one_block(fill, Terminator::Return(Operand::Local(0))).is_well_formed());
}

#[test]
fn branch_out_of_the_routine_is_malformed() {
    let test = vec![Instr::Compare {
        pred: Predicate::Equal,
        lhs: Operand::Param(0),
        rhs: Operand::Const(0),
    }];
    let inside = Terminator::Branch { cond: Operand::Local(0), if_true: 0, if_false: 0 };
    assert!(one_block(test.clone(), inside).is_well_formed());
    let high = Terminator::Branch { cond: Operand::Local(0), if_true: 1, if_false: 0 };
    assert!(!one_block(test.clone(), high).is_well_formed());
    let other = Terminator::Branch { cond: Operand::Local(0), if_true: 0, if_false: 1 };
    assert!(!one_block(test, other).is_well_formed());
}

#[test]
fn instructions_that_yield() {
    assert!(Instr::Allocate { count: 1 }.has_result());
    assert!(Instr::Load { address: Operand::Param(1) }.has_result());
    assert!(Instr::Call { index: Operand::Param(0), buffer: Operand::Param(1) }.has_result());
    assert!(!Instr::ZeroFill { buffer: Operand::Param(1), count: 1 }.has_result());
    assert!(!Instr::Store { address: Operand::Param(1), value: Operand::Const(0) }.has_result());
}
