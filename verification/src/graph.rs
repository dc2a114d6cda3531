use vstd::prelude::*;

verus! {

/// Number of 64-bit slots that the entry routine allocates for the memo buffer, whatever
/// the index it is called with.
pub const BUFFER_CAPACITY: u64 = 100_000_000_000;

/// Number of leading slots of the memo buffer that the entry routine zeroes.
pub const ZEROED_PREFIX: u64 = 200;

/// Width of a slot in bytes.
pub const SLOT_BYTES: u64 = 8;

/// The two routines of the module.
#[derive(Clone, Copy, Debug, PartialEq, Eq, Structural)]
pub enum Routine {
    /// Takes an index; allocates the buffer and delegates to the recurrence routine.
    Bootstrap,
    /// Takes an index and the buffer; computes the recurrence with memoization.
    Recurrence,
}

/// The blocks of the two routines.
#[derive(Clone, Copy, Debug, PartialEq, Eq, Structural)]
pub enum Label {
    /// The only block of the entry routine.
    Setup,
    /// Tests `index <= 1`.
    Entry,
    /// Returns the index itself.
    BaseCase,
    /// Loads the slot at the index and tests it against zero.
    CheckMemo,
    /// Returns the slot as it was loaded.
    MemoHit,
    /// Computes the value from the two indices below, stores and returns it.
    Compute,
}

/// What a routine's parameter is.
#[derive(Clone, Copy, Debug, PartialEq, Eq, Structural)]
pub enum ParamKind {
    /// A 64-bit index.
    Index,
    /// A reference to the memo buffer.
    Buffer,
}

/// A value that an instruction reads.
#[derive(Clone, Copy, Debug, PartialEq, Eq, Structural)]
pub enum Operand {
    /// The routine's parameter at this position.
    Param(usize),
    /// A 64-bit constant.
    Const(u64),
    /// The result of the instruction at this position in the same block.
    Local(usize),
}

/// How a comparison relates its two operands, both taken as unsigned.
#[derive(Clone, Copy, Debug, PartialEq, Eq, Structural)]
pub enum Predicate {
    AtMost,
    Equal,
}

/// One instruction of a block's body.
#[derive(Clone, Copy, Debug, PartialEq, Eq, Structural)]
pub enum Instr {
    /// Allocates `count` 64-bit slots and yields the buffer.
    Allocate { count: u64 },
    /// Zeroes the first `count` slots of a buffer. Yields nothing.
    ZeroFill { buffer: Operand, count: u64 },
    /// Yields whether `lhs` stands in the relation `pred` to `rhs`.
    Compare { pred: Predicate, lhs: Operand, rhs: Operand },
    /// Yields the address of the slot at `index` in a buffer.
    SlotAddress { buffer: Operand, index: Operand },
    /// Yields the slot at an address.
    Load { address: Operand },
    /// Writes a value to the slot at an address. Yields nothing.
    Store { address: Operand, value: Operand },
    /// Yields `lhs - rhs`, wrapping.
    Sub { lhs: Operand, rhs: Operand },
    /// Yields `lhs + rhs`, wrapping.
    Add { lhs: Operand, rhs: Operand },
    /// Calls the recurrence routine and yields its result.
    Call { index: Operand, buffer: Operand },
}

/// How a block ends.
#[derive(Clone, Copy, Debug, PartialEq, Eq, Structural)]
pub enum Terminator {
    /// Leaves the routine with a value.
    Return(Operand),
    /// Goes on in the block at position `if_true` of the routine where `cond` holds, and
    /// in the block at `if_false` where it does not.
    Branch { cond: Operand, if_true: usize, if_false: usize },
}

/// A basic block: straight-line instructions and the way out.
#[derive(Debug)]
pub struct Block {
    pub label: Label,
    pub body: Vec<Instr>,
    pub exit: Terminator,
}

/// A routine as a control-flow graph: it takes `params` and returns a 64-bit word.
/// Control enters at the first block.
#[derive(Debug)]
pub struct FunctionGraph {
    pub routine: Routine,
    pub params: Vec<ParamKind>,
    pub blocks: Vec<Block>,
}

/// A block as a mathematical value.
pub struct BlockView {
    pub label: Label,
    pub body: Seq<Instr>,
    pub exit: Terminator,
}

/// A routine's graph as a mathematical value.
pub struct FunctionView {
    pub routine: Routine,
    pub params: Seq<ParamKind>,
    pub blocks: Seq<BlockView>,
}

impl View for Block {
    type V = BlockView;

    open spec fn view(&self) -> BlockView {
        BlockView { label: self.label, body: self.body@, exit: self.exit }
    }
}

impl View for FunctionGraph {
    type V = FunctionView;

    open spec fn view(&self) -> FunctionView {
        FunctionView {
            routine: self.routine,
            params: self.params@,
            blocks: Seq::new(self.blocks@.len(), |i: int| self.blocks@[i]@),
        }
    }
}

impl Routine {
    /// The symbol under which the routine is handed to the backend.
    pub fn symbol(self) -> (name: &'static str)
        ensures
            name@ == (match self {
                Routine::Bootstrap => "main"@,
                Routine::Recurrence => "sum"@,
            }),
    {
        match self {
            Routine::Bootstrap => "main",
            Routine::Recurrence => "sum",
        }
    }
}

impl Label {
    /// The name that the block carries in the backend's listing.
    pub fn name(self) -> (text: &'static str)
        ensures
            text@ == (match self {
                Label::Setup => "setup"@,
                Label::Entry => "entry"@,
                Label::BaseCase => "base_case"@,
                Label::CheckMemo => "check_memo"@,
                Label::MemoHit => "memo_hit"@,
                Label::Compute => "compute"@,
            }),
    {
        match self {
            Label::Setup => "setup",
            Label::Entry => "entry",
            Label::BaseCase => "base_case",
            Label::CheckMemo => "check_memo",
            Label::MemoHit => "memo_hit",
            Label::Compute => "compute",
        }
    }
}

/// The length in bytes of `slots` slots, or `None` where it does not fit 64 bits.
pub fn byte_length(slots: u64) -> (bytes: Option<u64>)
    ensures
        bytes == (if slots * SLOT_BYTES <= u64::MAX {
            Some((slots * SLOT_BYTES) as u64)
        } else {
            None
        }),
{
    if slots <= u64::MAX / SLOT_BYTES {
        Some(slots * SLOT_BYTES)
    } else {
        None
    }
}

impl Instr {
    /// Whether the instruction yields a value that a later one may read.
    pub open spec fn yields(self) -> bool {
        !(self is ZeroFill || self is Store)
    }

    /// The operands that the instruction reads, in the order of its fields.
    pub open spec fn operands(self) -> Seq<Operand> {
        match self {
            Instr::Allocate { .. } => seq![],
            Instr::ZeroFill { buffer, .. } => seq![buffer],
            Instr::Compare { lhs, rhs, .. } => seq![lhs, rhs],
            Instr::SlotAddress { buffer, index } => seq![buffer, index],
            Instr::Load { address } => seq![address],
            Instr::Store { address, value } => seq![address, value],
            Instr::Sub { lhs, rhs } => seq![lhs, rhs],
            Instr::Add { lhs, rhs } => seq![lhs, rhs],
            Instr::Call { index, buffer } => seq![index, buffer],
        }
    }
}

/// Whether an operand can be read at position `at` of a block's body: a parameter that
/// the routine has, a constant, or the result of an earlier instruction that yields one.
pub open spec fn operand_defined(op: Operand, body: Seq<Instr>, at: int, arity: nat) -> bool {
    match op {
        Operand::Param(p) => p < arity,
        Operand::Const(_) => true,
        Operand::Local(l) => l < at && l < body.len() && body[l as int].yields(),
    }
}

impl BlockView {
    /// Every operand is defined where it is read, and a branch goes to a block that the
    /// routine has.
    pub open spec fn wf(self, arity: nat, blocks: nat) -> bool {
        &&& forall|i: int, k: int|
            0 <= i < self.body.len() && 0 <= k < self.body[i].operands().len()
                ==> operand_defined(#[trigger] self.body[i].operands()[k], self.body, i, arity)
        &&& match self.exit {
            Terminator::Return(value) => operand_defined(
                value,
                self.body,
                self.body.len() as int,
                arity,
            ),
            Terminator::Branch { cond, if_true, if_false } => {
                &&& operand_defined(cond, self.body, self.body.len() as int, arity)
                &&& if_true < blocks
                &&& if_false < blocks
            },
        }
    }
}

impl FunctionView {
    /// The routine has a block to enter at, and each of its blocks is well formed.
    pub open spec fn wf(self) -> bool {
        &&& self.blocks.len() >= 1
        &&& forall|b: int|
            0 <= b < self.blocks.len() ==> (#[trigger] self.blocks[b]).wf(
                self.params.len(),
                self.blocks.len(),
            )
    }
}

impl Instr {
    /// Whether the instruction yields a value.
    pub fn has_result(self) -> (yes: bool)
        ensures
            yes == self.yields(),
    {
        match self {
            Instr::ZeroFill { .. } => false,
            Instr::Store { .. } => false,
            _ => true,
        }
    }
}

/// Whether an operand can be read at position `at` of a body, in a routine of `arity`
/// parameters.
fn operand_is_defined(op: Operand, body: &Vec<Instr>, at: usize, arity: usize) -> (yes: bool)
    requires
        at <= body@.len(),
    ensures
        yes == operand_defined(op, body@, at as int, arity as nat),
{
    match op {
        Operand::Param(p) => p < arity,
        Operand::Const(_) => true,
        Operand::Local(l) => l < at && body[l].has_result(),
    }
}

/// Whether both operands can be read at position `at`.
fn pair_is_defined(first: Operand, second: Operand, body: &Vec<Instr>, at: usize, arity: usize)
    -> (yes: bool)
    requires
        at <= body@.len(),
    ensures
        yes == (operand_defined(first, body@, at as int, arity as nat) && operand_defined(
            second,
            body@,
            at as int,
            arity as nat,
        )),
{
    operand_is_defined(first, body, at, arity) && operand_is_defined(second, body, at, arity)
}

/// An instruction reads at most two operands: its fields, in their order.
proof fn lemma_operands(instr: Instr)
    ensures
        match instr {
            Instr::Allocate { .. } => instr.operands().len() == 0,
            Instr::ZeroFill { buffer, .. } => instr.operands().len() == 1 && instr.operands()[0]
                == buffer,
            Instr::Load { address } => instr.operands().len() == 1 && instr.operands()[0]
                == address,
            Instr::Compare { lhs, rhs, .. } => instr.operands().len() == 2 && instr.operands()[0]
                == lhs && instr.operands()[1] == rhs,
            Instr::SlotAddress { buffer, index } => instr.operands().len() == 2
                && instr.operands()[0] == buffer && instr.operands()[1] == index,
            Instr::Store { address, value } => instr.operands().len() == 2 && instr.operands()[0]
                == address && instr.operands()[1] == value,
            Instr::Sub { lhs, rhs } => instr.operands().len() == 2 && instr.operands()[0] == lhs
                && instr.operands()[1] == rhs,
            Instr::Add { lhs, rhs } => instr.operands().len() == 2 && instr.operands()[0] == lhs
                && instr.operands()[1] == rhs,
            Instr::Call { index, buffer } => instr.operands().len() == 2 && instr.operands()[0]
                == index && instr.operands()[1] == buffer,
        },
{
}

/// Whether every operand of the instruction at position `at` can be read there.
fn instr_is_defined(body: &Vec<Instr>, at: usize, arity: usize) -> (yes: bool)
    requires
        at < body@.len(),
    ensures
        yes == (forall|k: int|
            0 <= k < body@[at as int].operands().len() ==> operand_defined(
                #[trigger] body@[at as int].operands()[k],
                body@,
                at as int,
                arity as nat,
            )),
{
    let instr = body[at];
    let yes = match instr {
        Instr::Allocate { .. } => true,
        Instr::ZeroFill { buffer, .. } => operand_is_defined(buffer, body, at, arity),
        Instr::Load { address } => operand_is_defined(address, body, at, arity),
        Instr::Compare { lhs, rhs, .. } => pair_is_defined(lhs, rhs, body, at, arity),
        Instr::SlotAddress { buffer, index } => pair_is_defined(buffer, index, body, at, arity),
        Instr::Store { address, value } => pair_is_defined(address, value, body, at, arity),
        Instr::Sub { lhs, rhs } => pair_is_defined(lhs, rhs, body, at, arity),
        Instr::Add { lhs, rhs } => pair_is_defined(lhs, rhs, body, at, arity),
        Instr::Call { index, buffer } => pair_is_defined(index, buffer, body, at, arity),
    };
    proof {
        let ops = instr.operands();
        lemma_operands(instr);
        if yes {
            assert forall|k: int| 0 <= k < ops.len() implies operand_defined(
                #[trigger] ops[k],
                body@,
                at as int,
                arity as nat,
            ) by {
                assert(k == 0 || k == 1);
            }
        } else if !operand_defined(ops[0], body@, at as int, arity as nat) {
            assert(0 < ops.len());
        } else {
            assert(1 < ops.len());
            assert(!operand_defined(ops[1], body@, at as int, arity as nat));
        }
    }
    yes
}

impl Block {
    /// Whether the block is well formed in a routine of `arity` parameters and `blocks`
    /// blocks.
    pub fn is_well_formed(&self, arity: usize, blocks: usize) -> (yes: bool)
        ensures
            yes == self@.wf(arity as nat, blocks as nat),
    {
        let n: usize = self.body.len();
        let mut at: usize = 0;
        while at < n
            invariant
                at <= n,
                n == self.body@.len(),
                forall|i: int, k: int|
                    0 <= i < at && 0 <= k < self.body@[i].operands().len() ==> operand_defined(
                        #[trigger] self.body@[i].operands()[k],
                        self.body@,
                        i,
                        arity as nat,
                    ),
            decreases n - at,
        {
            if !instr_is_defined(&self.body, at, arity) {
                return false;
            }
            at = at + 1;
        }
        match self.exit {
            Terminator::Return(value) => operand_is_defined(value, &self.body, n, arity),
            Terminator::Branch { cond, if_true, if_false } => {
                operand_is_defined(cond, &self.body, n, arity) && if_true < blocks && if_false
                    < blocks
            },
        }
    }
}

impl FunctionGraph {
    /// Whether the graph is well formed: it has a block to enter at, every operand is
    /// defined where it is read, and every branch stays inside the routine.
    pub fn is_well_formed(&self) -> (yes: bool)
        ensures
            yes == self@.wf(),
    {
        let n: usize = self.blocks.len();
        if n == 0 {
            return false;
        }
        let arity: usize = self.params.len();
        let mut at: usize = 0;
        while at < n
            invariant
                at <= n,
                n == self.blocks@.len(),
                n == self@.blocks.len(),
                arity == self@.params.len(),
                forall|b: int|
                    0 <= b < at ==> (#[trigger] self@.blocks[b]).wf(arity as nat, n as nat),
            decreases n - at,
        {
            let yes = self.blocks[at].is_well_formed(arity, n);
            assert(self.blocks@[at as int]@ == self@.blocks[at as int]);
            if !yes {
                return false;
            }
            at = at + 1;
        }
        true
    }
}

} // verus!
