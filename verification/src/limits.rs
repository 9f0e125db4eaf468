//! Limit discovery and capacity computation.
//!
//! The operating system reports a soft and a hard descriptor limit. The
//! caller queries the pair, optionally attempts to raise the soft limit to
//! the hard one, and hands the outcome to [`capacity_from_probe`], which
//! derives the capacity used to size the shared permit pool.

use vstd::prelude::*;

verus! {

/// Descriptors implicitly held by the process outside the pool's
/// accounting: the three standard streams plus two spare.
pub const RESERVED_MARGIN: u64 = 5;

/// The pool is never sized below this, however restricted the system is.
pub const FALLBACK_MINIMUM: u64 = 64;

/// Ceiling assumed when the limit query itself fails.
pub const QUERY_FAILURE_CEILING: u64 = 200;

/// Soft and hard descriptor limits as the operating system reports them.
/// The soft limit is currently enforced; the hard limit is the most the
/// soft limit may be raised to without privilege.
#[derive(Clone, Copy, PartialEq, Eq, Structural, Debug)]
pub struct DescriptorLimitPair {
    pub soft: u64,
    pub hard: u64,
}

/// Whether raising the soft limit toward the hard limit is worth
/// attempting: only when the hard limit actually exceeds the soft one.
pub open spec fn spec_should_raise(pair: DescriptorLimitPair) -> bool {
    pair.hard > pair.soft
}

/// The descriptor ceiling chosen from a query outcome. A failed query
/// yields the conservative constant; a raisable pair yields the hard
/// limit when the raise succeeded and the previous soft limit when it
/// failed; a pair already at its ceiling yields the soft limit.
pub open spec fn spec_ceiling(query: Option<DescriptorLimitPair>, raise_succeeded: bool) -> u64 {
    match query {
        None => QUERY_FAILURE_CEILING,
        Some(pair) => {
            if pair.hard > pair.soft {
                if raise_succeeded {
                    pair.hard
                } else {
                    pair.soft
                }
            } else {
                pair.soft
            }
        },
    }
}

/// The capacity derived from a ceiling: the ceiling less the reserved
/// margin, floored at the fallback minimum.
pub open spec fn spec_effective_capacity(ceiling: u64) -> u64 {
    if ceiling - RESERVED_MARGIN >= FALLBACK_MINIMUM {
        (ceiling - RESERVED_MARGIN) as u64
    } else {
        FALLBACK_MINIMUM
    }
}

impl DescriptorLimitPair {
    /// Whether the caller should attempt to raise the soft limit.
    pub fn should_raise(&self) -> (r: bool)
        ensures
            r == spec_should_raise(*self),
    {
        self.hard > self.soft
    }
}

/// Picks the descriptor ceiling from the outcome of the limit query and of
/// the raise attempt. `raise_succeeded` is consulted only when the pair
/// made a raise worth attempting.
pub fn choose_ceiling(query: Option<DescriptorLimitPair>, raise_succeeded: bool) -> (r: u64)
    ensures
        r == spec_ceiling(query, raise_succeeded),
{
    match query {
        None => QUERY_FAILURE_CEILING,
        Some(pair) => {
            if pair.hard > pair.soft {
                if raise_succeeded {
                    pair.hard
                } else {
                    pair.soft
                }
            } else {
                pair.soft
            }
        },
    }
}

/// Derives the usable capacity from a descriptor ceiling: the ceiling less
/// the reserved margin, never below the fallback minimum.
pub fn effective_capacity(ceiling: u64) -> (r: u64)
    ensures
        r == spec_effective_capacity(ceiling),
        r >= FALLBACK_MINIMUM,
{
    if ceiling >= FALLBACK_MINIMUM + RESERVED_MARGIN {
        ceiling - RESERVED_MARGIN
    } else {
        FALLBACK_MINIMUM
    }
}

/// The whole computation in one step: from the query outcome and the raise
/// outcome to the capacity that sizes the pool.
pub fn capacity_from_probe(query: Option<DescriptorLimitPair>, raise_succeeded: bool) -> (r: u64)
    ensures
        r == spec_effective_capacity(spec_ceiling(query, raise_succeeded)),
        r >= FALLBACK_MINIMUM,
{
    let ceiling = choose_ceiling(query, raise_succeeded);
    effective_capacity(ceiling)
}

/// The computed capacity is at least the fallback minimum for every query
/// outcome, a failed query included, and for either raise outcome.
pub proof fn lemma_capacity_at_least_minimum(
    query: Option<DescriptorLimitPair>,
    raise_succeeded: bool,
)
    ensures
        spec_effective_capacity(spec_ceiling(query, raise_succeeded)) >= FALLBACK_MINIMUM,
{
}

/// When the hard limit does not exceed the soft limit, the raise step is a
/// no-op: the ceiling is the soft limit whatever the raise outcome, and the
/// capacity is the soft limit less the reserved margin, floored at the
/// fallback minimum.
pub proof fn lemma_no_raise_uses_soft(pair: DescriptorLimitPair, raise_succeeded: bool)
    requires
        pair.hard <= pair.soft,
    ensures
        spec_ceiling(Some(pair), raise_succeeded) == pair.soft,
        spec_ceiling(Some(pair), true) == spec_ceiling(Some(pair), false),
        spec_effective_capacity(spec_ceiling(Some(pair), raise_succeeded))
            == spec_effective_capacity(pair.soft),
{
}

/// When the hard limit exceeds the soft limit and the raise succeeds, the
/// capacity is computed from the hard limit: the hard limit less the
/// reserved margin, floored at the fallback minimum.
pub proof fn lemma_raise_success_uses_hard(pair: DescriptorLimitPair)
    requires
        pair.hard > pair.soft,
    ensures
        spec_ceiling(Some(pair), true) == pair.hard,
        spec_effective_capacity(spec_ceiling(Some(pair), true))
            == spec_effective_capacity(pair.hard),
{
}

} // verus!

