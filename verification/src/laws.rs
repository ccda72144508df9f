//! Laws the binding's contracts compose into.
//!
//! Each proof here states a protocol-level guarantee over the models the
//! operation contracts are written in: the operand stack as a sequence, the
//! hidden-slot table as a map.  The operations' own `ensures` clauses say
//! what one step does; these lemmas say what the steps add up to.

use vstd::prelude::*;
use crate::state::index_ok;
use crate::state::resolve;
use crate::state::rot_model;
use crate::state::State;
use crate::value::to_number_bits;
use crate::value::ValueSpec;

verus! {

/// Any run of pushes followed by a pop of the same count returns the stack
/// — and so its depth — to exactly what it was.  A run of `k` pushes grows
/// the stack to the old values followed by the pushed ones, and `pop(k)`'s
/// contract keeps the first `depth - k` values.
pub proof fn lemma_pushes_then_pop_restore_depth(s: Seq<ValueSpec>, pushed: Seq<ValueSpec>)
    ensures
        (s + pushed).take(s.len() as int) == s,
{
    assert((s + pushed).take(s.len() as int) =~= s);
}

/// Rotating the top two values twice restores the stack.
pub proof fn lemma_rot_two_twice_restores(s: Seq<ValueSpec>)
    requires
        s.len() >= 2,
    ensures
        rot_model(rot_model(s, 2), 2) == s,
{
    assert(rot_model(rot_model(s, 2), 2) =~= s);
}

/// Rotating the top three values three times restores the stack.
pub proof fn lemma_rot_three_thrice_restores(s: Seq<ValueSpec>)
    requires
        s.len() >= 3,
    ensures
        rot_model(rot_model(rot_model(s, 3), 3), 3) == s,
{
    assert(rot_model(rot_model(rot_model(s, 3), 3), 3) =~= s);
}

/// A copy grows the depth by exactly one, and the new top is the value the
/// copied index read before the copy.
pub proof fn lemma_copy_reads_back(pre: State, post: State, idx: int)
    requires
        pre.wf(),
        index_ok(pre.depth_spec(), idx),
        post.stack_model() == pre.stack_model().push(
            pre.stack_model()[resolve(pre.depth_spec(), idx)],
        ),
    ensures
        post.depth_spec() == pre.depth_spec() + 1,
        post.read(-1) == pre.read(idx),
{
}

/// Pushing a number and converting the value on top back to a number
/// yields the same IEEE-754 bit pattern, bit for bit: the binding carries
/// numbers as their bit patterns and never rounds.
pub proof fn lemma_number_round_trip(pre: State, post: State, bits: u64)
    requires
        pre.wf(),
        post.stack_model() == pre.stack_model().push(ValueSpec::Number(bits)),
    ensures
        to_number_bits(post.read(-1)) == Some(bits),
{
}

/// A registered entry outlives everything but its own finalization: as
/// long as a key's entry is in the table, finalizing any other key — the
/// only thing a collection pass can cause — leaves that entry in place,
/// unchanged.  A collection pass by itself changes the handle not at all.
pub proof fn lemma_registered_closure_persists<E>(m: Map<u64, E>, key: u64, other: u64)
    requires
        m.dom().contains(key),
        other != key,
    ensures
        m.remove(other).dom().contains(key),
        m.remove(other)[key] == m[key],
{
}

/// The single-shot evaluation path composes out of the primitive steps:
/// pushing the compiled callable and an undefined `this`, calling with
/// zero arguments — which keeps the first `depth` values and pushes the
/// result — and popping that result leaves the stack exactly as it began.
pub proof fn lemma_single_shot_composes(s: Seq<ValueSpec>, result: ValueSpec)
    ensures
        s.push(ValueSpec::Script).push(ValueSpec::Undefined).take(s.len() as int).push(
            result,
        ).take(s.len() as int) == s,
{
    assert(s.push(ValueSpec::Script).push(ValueSpec::Undefined).take(s.len() as int).push(
        result,
    ).take(s.len() as int) =~= s);
}

} // verus!
