use crate::graph::ZEROED_PREFIX;
use crate::sequence::{
    fib, lemma_wrapped_exact, lemma_wrapped_nonzero, lemma_wrapped_step,
    lemma_wrapped_sum_exact, wrapped_fib, LAST_EXACT_INDEX,
};
use vstd::prelude::*;

verus! {

/// What one run of the recurrence routine yields: the slot value for the index, and the
/// number of invocations of the routine that the run took, the outermost included.
#[derive(Clone, Copy, Debug, PartialEq, Eq)]
pub struct Evaluation {
    pub value: u64,
    pub calls: u64,
}

/// The zeroed prefix of the memo buffer. Zero marks a slot as not yet computed.
pub struct MemoBuffer {
    slots: Vec<u64>,
    mark: Ghost<nat>,
}

/// Invocations that the routine takes for `index` on a buffer whose slots are cached
/// from 2 up to, not including, `mark`.
pub open spec fn call_count(index: nat, mark: nat) -> nat {
    if index <= 1 || index < mark {
        1
    } else {
        (2 * (index + 1 - mark) + 1) as nat
    }
}

/// The invocation count grows linearly with the index: never more than `2 * index + 1`,
/// whatever is cached already.
pub proof fn lemma_call_count_linear(index: nat, mark: nat)
    requires
        mark >= 2,
    ensures
        1 <= call_count(index, mark) <= 2 * index + 1,
{
}

/// On a fresh buffer the routine takes one invocation for the indices 0 and 1, and
/// `2 * index - 1` invocations for every index from 2 on.
pub proof fn lemma_call_count_fresh(index: nat)
    ensures
        call_count(index, 2) == (if index <= 1 {
            1
        } else {
            2 * index - 1
        }),
{
}

impl MemoBuffer {
    /// The slots, by index.
    pub closed spec fn view(&self) -> Seq<u64> {
        self.slots@
    }

    /// The first index from 2 on whose slot is not cached yet.
    pub closed spec fn mark(&self) -> nat {
        self.mark@
    }

    /// The slots from 2 up to the mark hold the recurrence's values; all others are zero.
    pub open spec fn wf(&self) -> bool {
        &&& self@.len() == ZEROED_PREFIX
        &&& 2 <= self.mark() <= ZEROED_PREFIX
        &&& forall|i: int|
            0 <= i < ZEROED_PREFIX ==> #[trigger] self@[i] == (if 2 <= i < self.mark() {
                wrapped_fib(i as nat)
            } else {
                0
            })
    }

    /// A buffer with every slot of the prefix zeroed.
    pub fn zeroed() -> (buffer: Self)
        ensures
            buffer.wf(),
            buffer.mark() == 2,
            forall|i: int| 0 <= i < ZEROED_PREFIX ==> buffer@[i] == 0,
    {
        let mut slots: Vec<u64> = Vec::new();
        let mut filled: u64 = 0;
        while filled < ZEROED_PREFIX
            invariant
                filled <= ZEROED_PREFIX,
                slots@.len() == filled,
                forall|i: int| 0 <= i < filled ==> slots@[i] == 0,
            decreases ZEROED_PREFIX - filled,
        {
            slots.push(0);
            filled = filled + 1;
        }
        MemoBuffer { slots, mark: Ghost(2) }
    }

    /// The slot at `index`, or `None` past the zeroed prefix.
    pub fn slot(&self, index: u64) -> (value: Option<u64>)
        requires
            self.wf(),
        ensures
            value == (if index < ZEROED_PREFIX {
                Some(self@[index as int])
            } else {
                None
            }),
    {
        if index < ZEROED_PREFIX {
            Some(self.slots[index as usize])
        } else {
            None
        }
    }
}

/// The recurrence routine on a memo buffer.
///
/// An index of at most 1 is its own value. Otherwise the slot at `index` is read: a slot
/// that is not zero is returned as it stands; a zero slot is computed from the routine's
/// values at `index - 1` and `index - 2`, added with wrap-around, stored and returned.
pub fn recurrence(index: u64, buffer: &mut MemoBuffer) -> (out: Evaluation)
    requires
        old(buffer).wf(),
        index < ZEROED_PREFIX,
    ensures
        final(buffer).wf(),
        out.value == wrapped_fib(index as nat),
        out.calls == call_count(index as nat, old(buffer).mark()),
        final(buffer).mark() == (if index >= old(buffer).mark() {
            (index + 1) as nat
        } else {
            old(buffer).mark()
        }),
    decreases index,
{
    if index <= 1 {
        proof {
            lemma_wrapped_exact(index as nat);
            assert(fib(index as nat) == index);
        }
        return Evaluation { value: index, calls: 1 };
    }
    let cached: u64 = buffer.slots[index as usize];
    proof {
        lemma_wrapped_nonzero(index as nat);
        assert(cached == buffer@[index as int]);
    }
    if cached != 0 {
        return Evaluation { value: cached, calls: 1 };
    }
    let first = recurrence(index - 1, buffer);
    let second = recurrence(index - 2, buffer);
    let sum: u64 = first.value.wrapping_add(second.value);
    proof {
        lemma_wrapped_step(index as nat);
    }
    let ghost before = buffer@;
    buffer.slots.set(index as usize, sum);
    buffer.mark = Ghost((index + 1) as nat);
    proof {
        assert forall|i: int| 0 <= i < ZEROED_PREFIX implies #[trigger] buffer@[i] == (if 2 <= i
            < buffer.mark() {
            wrapped_fib(i as nat)
        } else {
            0
        }) by {
            if i != index {
                assert(buffer@[i] == before[i]);
            }
        }
    }
    Evaluation { value: sum, calls: 1 + first.calls + second.calls }
}

/// What the entry routine yields for an index: inside the zeroed prefix the recurrence's
/// 64-bit value and the invocations that a fresh buffer takes; past it, nothing.
pub open spec fn evaluation(index: u64) -> Option<Evaluation> {
    if index < ZEROED_PREFIX {
        Some(
            Evaluation {
                value: wrapped_fib(index as nat),
                calls: call_count(index as nat, 2) as u64,
            },
        )
    } else {
        None
    }
}

/// Inside the zeroed prefix each outcome from index 2 on is the wrapping sum of the two
/// outcomes before it, and the plain sum as long as that fits 64 bits.
pub proof fn lemma_evaluation_recurrence(index: u64)
    requires
        2 <= index < ZEROED_PREFIX,
    ensures
        evaluation(index) is Some,
        evaluation((index - 1) as u64) is Some,
        evaluation((index - 2) as u64) is Some,
        evaluation(index)->0.value == (evaluation((index - 1) as u64)->0.value + evaluation(
            (index - 2) as u64,
        )->0.value) % 0x1_0000_0000_0000_0000,
        index <= LAST_EXACT_INDEX ==> evaluation(index)->0.value == evaluation(
            (index - 1) as u64,
        )->0.value + evaluation((index - 2) as u64)->0.value,
{
    lemma_wrapped_step(index as nat);
    if index <= LAST_EXACT_INDEX {
        lemma_wrapped_sum_exact(index as nat);
    }
}

/// The entry routine: zeroes a fresh buffer and runs the recurrence routine on it,
/// handing its outcome back unchanged. An index past the zeroed prefix would read a slot
/// that holds no defined value, so it is not evaluated and gives `None`.
pub fn bootstrap(index: u64) -> (out: Option<Evaluation>)
    ensures
        out == evaluation(index),
{
    if index >= ZEROED_PREFIX {
        return None;
    }
    let mut buffer = MemoBuffer::zeroed();
    let out = recurrence(index, &mut buffer);
    Some(out)
}

} // verus!
