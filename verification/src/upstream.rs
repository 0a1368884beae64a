//! The ahead/behind helper: how far the checked-out branch has diverged
//! from its configured upstream, defaulting to zero whenever any step of
//! the resolution chain comes up empty.
use vstd::prelude::*;

verus! {

/// The outcome of resolving head, branch, upstream and divergence, each
/// variant one way the chain can stop short of a full answer.
#[derive(Clone, Copy, PartialEq, Eq, Structural, Debug)]
pub enum UpstreamLookup {
    /// The repository has no resolvable head.
    NoHead,
    /// The head reference has no target commit.
    NoTarget,
    /// The head has no shorthand name.
    NoShorthand,
    /// The shorthand names no local branch record (a detached head).
    NoLocalBranch,
    /// The branch has no configured upstream.
    NoUpstream,
    /// The upstream reference has no target commit.
    NoUpstreamTarget,
    /// The divergence walk itself failed.
    GraphFailed,
    /// Both commits resolved: the raw divergence counts.
    Resolved { ahead: usize, behind: usize },
}

/// `n` clamped into a 32-bit count.
pub open spec fn clamp_u32(n: nat) -> u32 {
    if n > u32::MAX {
        u32::MAX
    } else {
        n as u32
    }
}

/// The (ahead, behind) pair owed for a lookup outcome: the clamped counts
/// when fully resolved, and (0, 0) for every other outcome.
pub open spec fn ahead_behind_spec(l: UpstreamLookup) -> (u32, u32) {
    match l {
        UpstreamLookup::Resolved { ahead, behind } => (
            clamp_u32(ahead as nat),
            clamp_u32(behind as nat),
        ),
        _ => (0u32, 0u32),
    }
}

/// Every unresolved outcome — a detached head, a branch with no upstream,
/// a head with no target, and the rest — yields the same (0, 0) answer.
pub proof fn lemma_unresolved_is_zero(l: UpstreamLookup)
    requires
        !(l is Resolved),
    ensures
        ahead_behind_spec(l) == (0u32, 0u32),
{
}

/// Turns a lookup outcome into the (ahead, behind) counters.
pub fn ahead_behind(l: &UpstreamLookup) -> (r: (u32, u32))
    ensures
        r == ahead_behind_spec(*l),
{
    match l {
        UpstreamLookup::Resolved { ahead, behind } => (clamp_count(*ahead), clamp_count(*behind)),
        _ => (0u32, 0u32),
    }
}

fn clamp_count(n: usize) -> (r: u32)
    ensures
        r == clamp_u32(n as nat),
{
    if n > u32::MAX as usize {
        u32::MAX
    } else {
        n as u32
    }
}

} // verus!
