//! Bodies that end where their stream ends.
//!
//! A decoder reads the body of a function up to the end-of-body marker that
//! closes it: every conditional opens a block, every marker closes one, and
//! the body itself counts as the outermost block. A body decodes to what it
//! was built from only if its stream ends with that marker and not before.

use vstd::prelude::*;
use vstd::arithmetic::div_mod::lemma_fundamental_div_mod;
use vstd::arithmetic::div_mod::lemma_fundamental_div_mod_converse;
use vstd::arithmetic::div_mod::lemma_mod_bound;
use crate::code::expansion;
use crate::code::expansions;
use crate::code::getter_definition;
use crate::code::hasher_definition;
use crate::code::sized_definition;
use crate::instructions::cycle;
use crate::module::body_or_empty;
use crate::instructions::lemma_cycle_round;
use crate::instructions::Body;
use crate::instructions::Instruction;

verus! {

/// By how much an instruction changes the number of open blocks.
pub open spec fn opening(instruction: Instruction) -> int {
    match instruction {
        Instruction::If => 1,
        Instruction::End => -1,
        _ => 0,
    }
}

/// The number of blocks that are open after the given stream, the body
/// itself among them.
pub open spec fn depth(stream: Seq<Instruction>) -> int
    decreases stream.len(),
{
    if stream.len() == 0 {
        1
    } else {
        depth(stream.drop_last()) + opening(stream.last())
    }
}

/// The stream closes the body with its last instruction and not before.
pub open spec fn well_nested(stream: Seq<Instruction>) -> bool {
    &&& depth(stream) == 0
    &&& forall|k: int| 0 <= k < stream.len() ==> depth(#[trigger] stream.subrange(0, k)) > 0
}

/// The stream closes every block it opens and none besides.
pub open spec fn balanced(pattern: Seq<Instruction>) -> bool {
    &&& depth(pattern) == 1
    &&& forall|k: int| 0 <= k <= pattern.len() ==> depth(#[trigger] pattern.subrange(0, k)) >= 1
}

/// The blocks that two streams leave open add up.
pub proof fn lemma_depth_concat(first: Seq<Instruction>, second: Seq<Instruction>)
    ensures
        depth(first + second) == depth(first) + depth(second) - 1,
    decreases second.len(),
{
    if second.len() == 0 {
        assert(first + second =~= first);
    } else {
        lemma_depth_concat(first, second.drop_last());
        assert((first + second).drop_last() =~= first + second.drop_last());
    }
}

/// A balanced pattern, repeated, leaves only the body open.
pub proof fn lemma_cycle_depth(pattern: Seq<Instruction>, repetitions: nat)
    requires
        balanced(pattern),
    ensures
        depth(cycle(pattern, repetitions)) == 1,
    decreases repetitions,
{
    if repetitions == 0 {
        assert(pattern.len() * 0 == 0) by (nonlinear_arith);
        assert(cycle(pattern, 0) =~= Seq::<Instruction>::empty());
    } else {
        lemma_cycle_depth(pattern, (repetitions - 1) as nat);
        lemma_cycle_round(pattern, (repetitions - 1) as nat);
        lemma_depth_concat(cycle(pattern, (repetitions - 1) as nat), pattern);
    }
}

/// A part of a repeated pattern from the start is whole rounds and a part of
/// the pattern.
proof fn lemma_cycle_prefix(pattern: Seq<Instruction>, repetitions: nat, k: int)
    requires
        pattern.len() > 0,
        0 <= k <= pattern.len() * repetitions,
    ensures
        0 <= k / (pattern.len() as int) <= repetitions,
        cycle(pattern, repetitions).subrange(0, k) == cycle(
            pattern,
            (k / (pattern.len() as int)) as nat,
        ) + pattern.subrange(0, k % (pattern.len() as int)),
{
    let len = pattern.len() as int;
    let rounds = k / len;
    let rest = k % len;
    lemma_fundamental_div_mod(k, len);
    lemma_mod_bound(k, len);
    assert(rounds >= 0 && rounds <= repetitions) by (nonlinear_arith)
        requires
            k == len * rounds + rest,
            0 <= rest < len,
            0 <= k <= len * repetitions,
    ;
    let whole = cycle(pattern, repetitions).subrange(0, k);
    let parts = cycle(pattern, rounds as nat) + pattern.subrange(0, rest);
    assert(whole.len() == parts.len());
    assert forall|i: int| 0 <= i < whole.len() implies whole[i] == parts[i] by {
        if i >= len * rounds {
            assert(i == rounds * len + (i - len * rounds)) by (nonlinear_arith);
            lemma_fundamental_div_mod_converse(i, len, rounds, i - len * rounds);
        }
    }
    assert(whole =~= parts);
}

/// The body that repeats a balanced pattern and ends with the end-of-body
/// marker closes with that marker and not before.
pub proof fn lemma_repeated_body_well_nested(pattern: Seq<Instruction>, repetitions: nat)
    requires
        balanced(pattern),
    ensures
        well_nested(cycle(pattern, repetitions).push(Instruction::End)),
{
    let rounds = cycle(pattern, repetitions);
    let stream = rounds.push(Instruction::End);
    lemma_cycle_depth(pattern, repetitions);
    assert(stream.drop_last() =~= rounds);
    assert forall|k: int| 0 <= k < stream.len() implies depth(
        #[trigger] stream.subrange(0, k),
    ) > 0 by {
        assert(stream.subrange(0, k) =~= rounds.subrange(0, k));
        if pattern.len() == 0 {
            assert(rounds.subrange(0, k) =~= Seq::<Instruction>::empty());
        } else {
            lemma_cycle_prefix(pattern, repetitions, k);
            let len = pattern.len() as int;
            lemma_mod_bound(k, len);
            lemma_cycle_depth(pattern, (k / len) as nat);
            lemma_depth_concat(cycle(pattern, (k / len) as nat), pattern.subrange(0, k % len));
        }
    }
}

/// The empty body closes with its only instruction.
pub proof fn lemma_empty_body_well_nested()
    ensures
        well_nested(Body::spec_empty()),
{
    let stream = Body::spec_empty();
    assert(stream.drop_last() =~= Seq::<Instruction>::empty());
    assert forall|k: int| 0 <= k < stream.len() implies depth(
        #[trigger] stream.subrange(0, k),
    ) > 0 by {
        assert(stream.subrange(0, k) =~= Seq::<Instruction>::empty());
    }
}

/// The stream opens no block and closes none.
pub open spec fn plain(pattern: Seq<Instruction>) -> bool {
    forall|i: int| 0 <= i < pattern.len() ==> opening(#[trigger] pattern[i]) == 0
}

/// A stream that opens no block and closes none leaves only the body open.
pub proof fn lemma_plain_depth(pattern: Seq<Instruction>)
    requires
        plain(pattern),
    ensures
        depth(pattern) == 1,
    decreases pattern.len(),
{
    if pattern.len() > 0 {
        assert(opening(pattern[pattern.len() - 1]) == 0);
        lemma_plain_depth(pattern.drop_last());
    }
}

/// A stream that opens no block and closes none is balanced.
pub proof fn lemma_plain_balanced(pattern: Seq<Instruction>)
    requires
        plain(pattern),
    ensures
        balanced(pattern),
{
    lemma_plain_depth(pattern);
    assert forall|k: int| 0 <= k <= pattern.len() implies depth(
        #[trigger] pattern.subrange(0, k),
    ) >= 1 by {
        lemma_plain_depth(pattern.subrange(0, k));
    }
}

/// The conditional return that pads a module of a given size is balanced.
pub proof fn lemma_expansion_balanced()
    ensures
        balanced(expansion()),
{
    let pattern = expansion();
    reveal_with_fuel(depth, 5);
    assert(pattern.drop_last() =~= seq![
        Instruction::I32Const(0),
        Instruction::If,
        Instruction::Return,
    ]);
    assert(pattern.drop_last().drop_last() =~= seq![Instruction::I32Const(0), Instruction::If]);
    assert(pattern.drop_last().drop_last().drop_last() =~= seq![Instruction::I32Const(0)]);
    assert(pattern.drop_last().drop_last().drop_last().drop_last() =~= Seq::<Instruction>::empty());
    assert forall|k: int| 0 <= k <= pattern.len() implies depth(
        #[trigger] pattern.subrange(0, k),
    ) >= 1 by {
        if k == 0 {
            assert(pattern.subrange(0, k) =~= Seq::<Instruction>::empty());
        } else if k == 1 {
            assert(pattern.subrange(0, k) =~= seq![Instruction::I32Const(0)]);
        } else if k == 2 {
            assert(pattern.subrange(0, k) =~= seq![Instruction::I32Const(0), Instruction::If]);
        } else if k == 3 {
            assert(pattern.subrange(0, k) =~= seq![
                Instruction::I32Const(0),
                Instruction::If,
                Instruction::Return,
            ]);
        } else {
            assert(pattern.subrange(0, k) =~= pattern);
        }
    }
}

/// The bodies of the modules that the harness generates for a given size, for
/// a getter and for a hash function close with their last instruction and
/// not before.
pub proof fn lemma_generated_bodies_well_nested(
    target_bytes: u32,
    pages: u32,
    name: Seq<char>,
    repeat: u32,
    data_size: u32,
)
    ensures
        well_nested(body_or_empty(sized_definition(target_bytes).call_body)),
        well_nested(body_or_empty(sized_definition(target_bytes).deploy_body)),
        well_nested(body_or_empty(getter_definition(pages, name, repeat).call_body)),
        well_nested(body_or_empty(hasher_definition(pages, name, repeat, data_size).call_body)),
{
    lemma_expansion_balanced();
    lemma_repeated_body_well_nested(expansion(), expansions(target_bytes));
    lemma_empty_body_well_nested();
    lemma_plain_balanced(crate::code::getter_call());
    lemma_repeated_body_well_nested(crate::code::getter_call(), repeat as nat);
    lemma_plain_balanced(crate::code::hasher_call(data_size));
    lemma_repeated_body_well_nested(crate::code::hasher_call(data_size), repeat as nat);
}

/// Whether the body closes with its last instruction and not before.
pub fn is_well_nested(body: &Body) -> (yes: bool)
    ensures
        yes == well_nested(body@),
{
    let mut open: u128 = 1;
    let mut at: usize = 0;
    proof {
        assert(body@.subrange(0, 0) =~= Seq::<Instruction>::empty());
    }
    while at < body.instructions.len()
        invariant
            at <= body.instructions.len(),
            open == depth(body@.subrange(0, at as int)),
            1 <= open <= at + 1,
            forall|k: int| 0 <= k <= at ==> depth(#[trigger] body@.subrange(0, k)) > 0,
        decreases body.instructions.len() - at,
    {
        proof {
            assert(body@.subrange(0, at + 1).drop_last() =~= body@.subrange(0, at as int));
        }
        match body.instructions[at] {
            Instruction::If => {
                open = open + 1;
            },
            Instruction::End => {
                open = open - 1;
            },
            _ => {},
        }
        at += 1;
        if open == 0 {
            proof {
                if at < body@.len() {
                    assert(depth(body@.subrange(0, at as int)) == 0);
                } else {
                    assert(body@.subrange(0, at as int) =~= body@);
                }
            }
            return at == body.instructions.len();
        }
    }
    proof {
        assert(body@.subrange(0, at as int) =~= body@);
    }
    false
}

} // verus!
