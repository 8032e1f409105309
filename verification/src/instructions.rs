//! Instruction streams for the bodies of a module's entry points.
//!
//! A body is generated under one of three policies: a sequence emitted once
//! ([`body`]), a sequence emitted a number of times back to back
//! ([`body_repeated`]), and a sequence emitted a number of times in which
//! marked operands advance by a fixed step on every round
//! ([`body_counted`]).

use vstd::prelude::*;
use vstd::arithmetic::div_mod::lemma_fundamental_div_mod_converse;
use vstd::arithmetic::mul::lemma_mul_is_distributive_add;
use vstd::arithmetic::mul::lemma_mul_inequality;
use vstd::arithmetic::mul::lemma_mul_strict_inequality;

verus! {

/// The type of a parameter or result of an imported function.
#[derive(Clone, Copy, Debug, PartialEq, Eq, Structural)]
pub enum ValueType {
    /// 32-bit integer.
    I32,
    /// 64-bit integer.
    I64,
}

/// The instructions that generated bodies are made of.
#[derive(Clone, Copy, Debug, PartialEq, Eq, Structural)]
pub enum Instruction {
    /// Trap.
    Unreachable,
    /// Do nothing.
    Nop,
    /// Open a conditional block that yields no value.
    If,
    /// Switch to the other branch of the enclosing conditional.
    Else,
    /// Close the innermost open block, or the body itself.
    End,
    /// Leave the function.
    Return,
    /// Call the function with this index.
    Call(u32),
    /// Discard the top of the stack.
    Drop,
    /// Push a 32-bit constant.
    I32Const(i32),
    /// Push a 64-bit constant.
    I64Const(i64),
    /// Test the top of the stack for zero.
    I32Eqz,
}

/// The body of a function without locals.
#[derive(Debug)]
pub struct Body {
    /// The instruction stream, end-of-body marker included.
    pub instructions: Vec<Instruction>,
}

impl View for Body {
    type V = Seq<Instruction>;

    open spec fn view(&self) -> Seq<Instruction> {
        self.instructions@
    }
}

impl Body {
    /// The body that does nothing: the end-of-body marker alone.
    pub open spec fn spec_empty() -> Seq<Instruction> {
        seq![Instruction::End]
    }

    /// The body that an entry point gets when none is given.
    pub fn empty() -> (body: Body)
        ensures
            body@ == Self::spec_empty(),
    {
        let mut instructions: Vec<Instruction> = Vec::new();
        instructions.push(Instruction::End);
        proof {
            assert(instructions@ =~= Self::spec_empty());
        }
        Body { instructions }
    }

    /// A copy of this body.
    pub fn duplicate(&self) -> (body: Body)
        ensures
            body@ == self@,
    {
        let mut instructions: Vec<Instruction> = Vec::new();
        let mut at: usize = 0;
        while at < self.instructions.len()
            invariant
                at <= self.instructions.len(),
                instructions@ == self.instructions@.subrange(0, at as int),
            decreases self.instructions.len() - at,
        {
            instructions.push(self.instructions[at]);
            at += 1;
            proof {
                assert(instructions@ =~= self.instructions@.subrange(0, at as int));
            }
        }
        proof {
            assert(instructions@ =~= self.instructions@);
        }
        Body { instructions }
    }
}

/// One slot of the sequence that [`body_counted`] repeats.
#[derive(Clone, Copy, Debug, PartialEq, Eq, Structural)]
pub enum CountedInstruction {
    /// A 32-bit constant that starts at the first value and grows by the
    /// second value each time it is emitted.
    Counter(u32, u32),
    /// An instruction emitted as it is.
    Regular(Instruction),
}

/// `pattern` written `repetitions` times back to back.
pub open spec fn cycle(pattern: Seq<Instruction>, repetitions: nat) -> Seq<Instruction> {
    Seq::new(pattern.len() * repetitions, |i: int| pattern[i % (pattern.len() as int)])
}

/// The value a counter that started at `base` holds after `rounds` steps of
/// `increment`.
pub open spec fn counter_value(base: u32, increment: u32, rounds: nat) -> int {
    base + rounds * increment
}

/// What a slot emits on the given round (rounds count from zero).
pub open spec fn emission(slot: CountedInstruction, round: nat) -> Instruction {
    match slot {
        CountedInstruction::Counter(base, increment) => Instruction::I32Const(
            counter_value(base, increment, round) as u32 as i32,
        ),
        CountedInstruction::Regular(instruction) => instruction,
    }
}

/// The slot as it stands after `rounds` emissions.
pub open spec fn advanced(slot: CountedInstruction, rounds: nat) -> CountedInstruction {
    match slot {
        CountedInstruction::Counter(base, increment) => CountedInstruction::Counter(
            counter_value(base, increment, rounds) as u32,
            increment,
        ),
        CountedInstruction::Regular(instruction) => slot,
    }
}

/// `pattern` written `repetitions` times back to back, each counter
/// advancing from one round to the next.
pub open spec fn counted_cycle(pattern: Seq<CountedInstruction>, repetitions: nat) -> Seq<
    Instruction,
> {
    Seq::new(
        pattern.len() * repetitions,
        |i: int|
            emission(pattern[i % (pattern.len() as int)], (i / (pattern.len() as int)) as nat),
    )
}

/// No counter of `pattern` leaves the 32-bit range within `repetitions` steps.
pub open spec fn counters_fit(pattern: Seq<CountedInstruction>, repetitions: nat) -> bool {
    forall|j: int|
        0 <= j < pattern.len() ==> match #[trigger] pattern[j] {
            CountedInstruction::Counter(base, increment) => counter_value(
                base,
                increment,
                repetitions,
            ) <= u32::MAX,
            CountedInstruction::Regular(_) => true,
        }
}

/// One more round of `pattern` extends the cycle by `pattern`.
pub proof fn lemma_cycle_round(pattern: Seq<Instruction>, rounds: nat)
    ensures
        cycle(pattern, rounds + 1) == cycle(pattern, rounds) + pattern,
{
    let k = pattern.len() as int;
    let whole = cycle(pattern, rounds + 1);
    let parts = cycle(pattern, rounds) + pattern;
    lemma_mul_is_distributive_add(k, rounds as int, 1);
    assert(whole.len() == parts.len());
    assert forall|i: int| 0 <= i < whole.len() implies whole[i] == parts[i] by {
        if i >= k * rounds {
            lemma_fundamental_div_mod_converse(i, k, rounds as int, i - k * rounds);
        }
    }
    assert(whole =~= parts);
}

/// The counted cycle, taken slot by slot: `done` slots into round `round`,
/// the stream read so far is the whole rounds before it and the emissions of
/// this round's first `done` slots.
spec fn counted_prefix(pattern: Seq<CountedInstruction>, round: nat, done: nat) -> Seq<
    Instruction,
> {
    Seq::new(
        pattern.len() * round + done,
        |i: int|
            emission(pattern[i % (pattern.len() as int)], (i / (pattern.len() as int)) as nat),
    )
}

proof fn lemma_counted_prefix_push(pattern: Seq<CountedInstruction>, round: nat, done: nat)
    requires
        done < pattern.len(),
    ensures
        counted_prefix(pattern, round, done + 1) == counted_prefix(pattern, round, done).push(
            emission(pattern[done as int], round),
        ),
{
    let k = pattern.len() as int;
    let longer = counted_prefix(pattern, round, done + 1);
    let shorter = counted_prefix(pattern, round, done).push(emission(pattern[done as int], round));
    assert(longer.len() == shorter.len());
    assert forall|i: int| 0 <= i < longer.len() implies longer[i] == shorter[i] by {
        if i == k * round + done {
            lemma_fundamental_div_mod_converse(i, k, round as int, done as int);
        }
    }
    assert(longer =~= shorter);
}

proof fn lemma_counted_prefix_round(pattern: Seq<CountedInstruction>, round: nat)
    ensures
        counted_prefix(pattern, round, pattern.len()) == counted_prefix(pattern, round + 1, 0),
        counted_prefix(pattern, round, 0) == counted_cycle(pattern, round),
{
    let k = pattern.len() as int;
    lemma_mul_is_distributive_add(k, round as int, 1);
    assert(counted_prefix(pattern, round, pattern.len()) =~= counted_prefix(pattern, round + 1, 0));
    assert(counted_prefix(pattern, round, 0) =~= counted_cycle(pattern, round));
}

/// A counter that fits after `repetitions` steps fits after fewer.
proof fn lemma_counter_fits_earlier(base: u32, increment: u32, rounds: nat, repetitions: nat)
    requires
        rounds <= repetitions,
        counter_value(base, increment, repetitions) <= u32::MAX,
    ensures
        0 <= counter_value(base, increment, rounds) <= counter_value(base, increment, repetitions),
{
    lemma_mul_inequality(rounds as int, repetitions as int, increment as int);
    lemma_mul_inequality(0, rounds as int, increment as int);
}

/// From one emission of a counter to any later one its value grows by the
/// number of rounds between them times the increment; with a positive
/// increment the values are strictly increasing.
pub proof fn lemma_counter_emissions_increase(
    base: u32,
    increment: u32,
    earlier: nat,
    later: nat,
)
    requires
        earlier < later,
    ensures
        counter_value(base, increment, later) == counter_value(base, increment, earlier) + (later
            - earlier) * increment,
        increment > 0 ==> counter_value(base, increment, earlier) < counter_value(
            base,
            increment,
            later,
        ),
        counter_value(base, increment, 0) == base,
{
    assert(later * increment == earlier * increment + (later - earlier) * increment)
        by (nonlinear_arith);
    if increment > 0 {
        lemma_mul_strict_inequality(earlier as int, later as int, increment as int);
    }
}

/// Within the stream that [`body_counted`] builds, the operand that slot
/// `slot` emits on round `round` is the counter's base plus `round` times its
/// increment.
pub proof fn lemma_counted_emission(
    pattern: Seq<CountedInstruction>,
    repetitions: nat,
    round: nat,
    slot: nat,
)
    requires
        round < repetitions,
        slot < pattern.len(),
        counters_fit(pattern, repetitions),
    ensures
        pattern.len() * round + slot < counted_cycle(pattern, repetitions).len(),
        counted_cycle(pattern, repetitions)[(pattern.len() * round + slot) as int] == emission(
            pattern[slot as int],
            round,
        ),
        pattern[slot as int] matches CountedInstruction::Counter(base, increment) ==> {
            &&& counter_value(base, increment, round) <= u32::MAX
            &&& emission(pattern[slot as int], round) == Instruction::I32Const(
                counter_value(base, increment, round) as u32 as i32,
            )
        },
{
    let k = pattern.len() as int;
    let at = k * round + slot;
    assert(at == round * k + slot) by (nonlinear_arith)
        requires
            at == k * round + slot,
    ;
    lemma_fundamental_div_mod_converse(at, k, round as int, slot as int);
    assert(k * round + k <= k * repetitions) by (nonlinear_arith)
        requires
            round + 1 <= repetitions,
            k >= 0,
    ;
    match pattern[slot as int] {
        CountedInstruction::Counter(base, increment) => {
            lemma_counter_fits_earlier(base, increment, round, repetitions);
        },
        CountedInstruction::Regular(_) => {},
    }
}

/// Single shot: the given sequence, emitted once and as it is. The caller
/// supplies the end-of-body marker.
pub fn body(instructions: Vec<Instruction>) -> (body: Body)
    ensures
        body@ == instructions@,
{
    Body { instructions }
}

/// Cyclic repeat: `instructions` written `repetitions` times back to back,
/// followed by the end-of-body marker.
pub fn body_repeated(repetitions: u32, instructions: &[Instruction]) -> (body: Body)
    ensures
        body@ == cycle(instructions@, repetitions as nat).push(Instruction::End),
        body@.len() == repetitions * instructions@.len() + 1,
        body@.last() == Instruction::End,
{
    let mut out: Vec<Instruction> = Vec::new();
    let mut round: u32 = 0;
    proof {
        assert(out@ =~= cycle(instructions@, 0));
    }
    while round < repetitions
        invariant
            round <= repetitions,
            out@ == cycle(instructions@, round as nat),
        decreases repetitions - round,
    {
        let mut at: usize = 0;
        proof {
            assert(out@ =~= cycle(instructions@, round as nat) + instructions@.subrange(0, 0));
        }
        while at < instructions.len()
            invariant
                at <= instructions.len(),
                out@ == cycle(instructions@, round as nat) + instructions@.subrange(0, at as int),
            decreases instructions.len() - at,
        {
            out.push(instructions[at]);
            at += 1;
            proof {
                assert(out@ =~= cycle(instructions@, round as nat) + instructions@.subrange(
                    0,
                    at as int,
                ));
            }
        }
        proof {
            assert(instructions@.subrange(0, at as int) =~= instructions@);
            lemma_cycle_round(instructions@, round as nat);
        }
        round += 1;
    }
    out.push(Instruction::End);
    proof {
        assert(instructions@.len() * repetitions == repetitions * instructions@.len())
            by (nonlinear_arith);
    }
    Body { instructions: out }
}

/// Emits one slot and advances it: a regular instruction stays as it is, a
/// counter yields its current value and moves on by its increment.
pub fn emit(slot: CountedInstruction) -> (r: (Instruction, CountedInstruction))
    requires
        slot matches CountedInstruction::Counter(base, increment) ==> base + increment <= u32::MAX,
    ensures
        r.0 == emission(slot, 0),
        r.1 == advanced(slot, 1),
{
    match slot {
        CountedInstruction::Counter(offset, increment_by) => {
            proof {
                assert(1 * increment_by == increment_by) by (nonlinear_arith);
                assert(0 * increment_by == 0) by (nonlinear_arith);
            }
            (
                Instruction::I32Const(offset as i32),
                CountedInstruction::Counter(offset + increment_by, increment_by),
            )
        },
        CountedInstruction::Regular(instruction) => (instruction, slot),
    }
}

/// Whether no counter of `instructions` leaves the 32-bit range within
/// `repetitions` steps.
pub fn check_counters(repetitions: u32, instructions: &Vec<CountedInstruction>) -> (fit: bool)
    ensures
        fit == counters_fit(instructions@, repetitions as nat),
{
    let mut at: usize = 0;
    while at < instructions.len()
        invariant
            at <= instructions.len(),
            counters_fit(instructions@.subrange(0, at as int), repetitions as nat),
        decreases instructions.len() - at,
    {
        match instructions[at] {
            CountedInstruction::Counter(base, increment) => {
                proof {
                    assert(repetitions * increment <= 0xffff_ffff * 0xffff_ffff)
                        by (nonlinear_arith)
                        requires
                            0 <= repetitions <= 0xffff_ffff,
                            0 <= increment <= 0xffff_ffff,
                    ;
                }
                let last: u64 = base as u64 + repetitions as u64 * increment as u64;
                if last > u32::MAX as u64 {
                    proof {
                        assert(instructions@[at as int] == CountedInstruction::Counter(
                            base,
                            increment,
                        ));
                    }
                    return false;
                }
            },
            CountedInstruction::Regular(_) => {},
        }
        at += 1;
        proof {
            let shorter = instructions@.subrange(0, at as int - 1);
            let longer = instructions@.subrange(0, at as int);
            assert forall|j: int| 0 <= j < longer.len() implies match #[trigger] longer[j] {
                CountedInstruction::Counter(base, increment) => counter_value(
                    base,
                    increment,
                    repetitions as nat,
                ) <= u32::MAX,
                CountedInstruction::Regular(_) => true,
            } by {
                if j < at - 1 {
                    assert(longer[j] == shorter[j]);
                }
            }
        }
    }
    proof {
        assert(instructions@.subrange(0, at as int) =~= instructions@);
    }
    true
}

/// Counted repeat: `instructions` written `repetitions` times back to back,
/// followed by the end-of-body marker. On round `i` (from zero) a counter
/// slot emits its base plus `i` times its increment as a 32-bit constant.
pub fn body_counted(repetitions: u32, instructions: Vec<CountedInstruction>) -> (body: Body)
    requires
        counters_fit(instructions@, repetitions as nat),
    ensures
        body@ == counted_cycle(instructions@, repetitions as nat).push(Instruction::End),
        body@.len() == repetitions * instructions@.len() + 1,
        body@.last() == Instruction::End,
{
    let ghost pattern = instructions@;
    let mut slots = instructions;
    let mut out: Vec<Instruction> = Vec::new();
    let mut round: u32 = 0;
    proof {
        assert(out@ =~= counted_prefix(pattern, 0, 0));
        assert forall|j: int| 0 <= j < pattern.len() implies slots@[j] == advanced(
            pattern[j],
            0,
        ) by {
            match pattern[j] {
                CountedInstruction::Counter(base, increment) => {
                    assert(0 * increment == 0) by (nonlinear_arith);
                },
                CountedInstruction::Regular(_) => {},
            }
        }
    }
    while round < repetitions
        invariant
            round <= repetitions,
            counters_fit(pattern, repetitions as nat),
            slots@.len() == pattern.len(),
            forall|j: int| 0 <= j < pattern.len() ==> slots@[j] == advanced(pattern[j], round as nat),
            out@ == counted_prefix(pattern, round as nat, 0),
        decreases repetitions - round,
    {
        let mut at: usize = 0;
        while at < slots.len()
            invariant
                round < repetitions,
                at <= slots.len(),
                counters_fit(pattern, repetitions as nat),
                slots@.len() == pattern.len(),
                forall|j: int|
                    0 <= j < at ==> slots@[j] == advanced(pattern[j], (round + 1) as nat),
                forall|j: int|
                    at <= j < pattern.len() ==> slots@[j] == advanced(pattern[j], round as nat),
                out@ == counted_prefix(pattern, round as nat, at as nat),
            decreases slots.len() - at,
        {
            let slot = slots[at];
            proof {
                match pattern[at as int] {
                    CountedInstruction::Counter(base, increment) => {
                        lemma_counter_fits_earlier(
                            base,
                            increment,
                            round as nat,
                            repetitions as nat,
                        );
                        lemma_counter_fits_earlier(
                            base,
                            increment,
                            (round + 1) as nat,
                            repetitions as nat,
                        );
                        assert((round + 1) * increment == round * increment + increment)
                            by (nonlinear_arith);
                    },
                    CountedInstruction::Regular(_) => {},
                }
            }
            let (instruction, next) = emit(slot);
            proof {
                match pattern[at as int] {
                    CountedInstruction::Counter(base, increment) => {
                        assert(0 * increment == 0) by (nonlinear_arith);
                        assert(1 * increment == increment) by (nonlinear_arith);
                        assert((round + 1) * increment == round * increment + increment)
                            by (nonlinear_arith);
                    },
                    CountedInstruction::Regular(_) => {},
                }
                assert(instruction == emission(pattern[at as int], round as nat));
                assert(next == advanced(pattern[at as int], (round + 1) as nat));
                lemma_counted_prefix_push(pattern, round as nat, at as nat);
            }
            slots.set(at, next);
            out.push(instruction);
            at += 1;
        }
        proof {
            lemma_counted_prefix_round(pattern, round as nat);
        }
        round += 1;
    }
    proof {
        lemma_counted_prefix_round(pattern, repetitions as nat);
        assert(pattern.len() * repetitions == repetitions * pattern.len()) by (nonlinear_arith);
    }
    out.push(Instruction::End);
    Body { instructions: out }
}

} // verus!
