//! The repository status bar: branch identity on a clean or alert
//! background, an optional in-progress operation badge, and one badge per
//! nonzero counter, in a fixed order and palette.
use vstd::prelude::*;
use vstd::string::StringExecFns;
use crate::colors::arrow;
use crate::colors::bg_spec;
use crate::colors::branch_icon;
use crate::colors::fg_spec;
use crate::colors::push_bg;
use crate::colors::push_fg;
use crate::colors::reset;
use crate::numfmt::dec_spec;
use crate::numfmt::dec_str;
use crate::status::StatusCounts;

verus! {

/// The repository-wide operation state, as the repository reports it.
#[derive(Clone, Copy, PartialEq, Eq, Structural, Debug)]
pub enum RepoState {
    Clean,
    Merge,
    Revert,
    RevertSequence,
    CherryPick,
    CherryPickSequence,
    Bisect,
    Rebase,
    RebaseInteractive,
    RebaseMerge,
    ApplyMailbox,
    ApplyMailboxOrRebase,
}

/// Everything the status bar is drawn from.
#[derive(Clone, PartialEq, Eq, Debug)]
pub struct GitInfo {
    pub branch: String,
    pub counts: StatusCounts,
    pub ahead: u32,
    pub behind: u32,
    pub stashed: u32,
    pub state: RepoState,
}

/// The label shown for an operation in progress, none for ordinary states.
pub open spec fn state_label_spec(s: RepoState) -> Option<Seq<char>> {
    match s {
        RepoState::Rebase | RepoState::RebaseInteractive | RepoState::RebaseMerge => Some(
            "REBASING"@,
        ),
        RepoState::Merge => Some("MERGING"@),
        RepoState::CherryPick | RepoState::CherryPickSequence => Some("CHERRY"@),
        RepoState::Bisect => Some("BISECT"@),
        _ => None,
    }
}

/// Maps the repository state to its badge label.
pub fn state_label(s: RepoState) -> (r: Option<&'static str>)
    ensures
        r is Some <==> state_label_spec(s) is Some,
        r matches Some(st) ==> st@ == state_label_spec(s)->0,
{
    match s {
        RepoState::Rebase | RepoState::RebaseInteractive | RepoState::RebaseMerge => Some(
            "REBASING",
        ),
        RepoState::Merge => Some("MERGING"),
        RepoState::CherryPick | RepoState::CherryPickSequence => Some("CHERRY"),
        RepoState::Bisect => Some("BISECT"),
        _ => None,
    }
}

/// Dirty means anything to report: a nonzero counter or an operation in
/// progress.
pub open spec fn dirty_spec(
    c: StatusCounts,
    ahead: u32,
    behind: u32,
    stashed: u32,
    state: RepoState,
) -> bool {
    c.staged > 0 || c.modified > 0 || c.untracked > 0 || c.conflicted > 0 || stashed > 0 || ahead
        > 0 || behind > 0 || state_label_spec(state) is Some
}

/// One badge entry when `count` is nonzero, nothing when it is zero.
pub open spec fn count_badge(color: u8, count: u32, glyph: Seq<char>) -> Seq<(u8, Seq<char>)> {
    if count > 0 {
        seq![(color, dec_spec(count as nat) + glyph)]
    } else {
        Seq::<(u8, Seq<char>)>::empty()
    }
}

/// The badge list for the nonzero counters, in the fixed display order:
/// ahead, behind, staged, modified, untracked, conflicted, stashed.
pub open spec fn badge_list(c: StatusCounts, ahead: u32, behind: u32, stashed: u32) -> Seq<
    (u8, Seq<char>),
> {
    count_badge(240, ahead, "\u{2b06}"@) + count_badge(240, behind, "\u{2b07}"@) + count_badge(
        22,
        c.staged,
        "\u{2714}"@,
    ) + count_badge(130, c.modified, "\u{270e}"@) + count_badge(52, c.untracked, "+"@)
        + count_badge(9, c.conflicted, "\u{273c}"@) + count_badge(20, stashed, "\u{2691}"@)
}

/// The view of a built badge vector.
pub open spec fn badges_view(v: Seq<(u8, String)>) -> Seq<(u8, Seq<char>)> {
    v.map_values(|p: (u8, String)| (p.0, p.1@))
}

/// One badge: an arrow from the previous background onto the badge's own,
/// then the badge text.
pub open spec fn badge_block(prev: u8, b: (u8, Seq<char>)) -> Seq<char> {
    fg_spec(prev as nat) + bg_spec(b.0 as nat) + arrow() + " "@ + fg_spec(15) + b.1 + " "@
}

/// The badges from position `i` on, each transitioning from its
/// predecessor's background.
pub open spec fn render_badges(prev: u8, bs: Seq<(u8, Seq<char>)>, i: int) -> Seq<char>
    decreases bs.len() - i,
{
    if i < 0 || i >= bs.len() {
        Seq::<char>::empty()
    } else {
        badge_block(prev, bs[i]) + render_badges(bs[i].0, bs, i + 1)
    }
}

/// The background the bar ends on: the last badge's, or `prev` with no
/// badges.
pub open spec fn last_bg(prev: u8, bs: Seq<(u8, Seq<char>)>) -> u8 {
    if bs.len() == 0 {
        prev
    } else {
        bs.last().0
    }
}

/// The whole bar for a clean repository: branch icon and name on the
/// success background, then the closing arrow and reset.
pub open spec fn clean_render(branch: Seq<char>) -> Seq<char> {
    fg_spec(237) + bg_spec(148) + arrow() + " "@ + fg_spec(0) + branch_icon() + " "@ + branch
        + " "@ + fg_spec(148) + bg_spec(236) + arrow() + reset()
}

/// The opening block of a dirty bar: branch icon and name on the alert
/// background.
pub open spec fn dirty_head(branch: Seq<char>) -> Seq<char> {
    fg_spec(237) + bg_spec(161) + arrow() + " "@ + fg_spec(15) + branch_icon() + " "@ + branch
        + " "@
}

/// The operation badge, empty when no operation is in progress.
pub open spec fn state_block(state: RepoState) -> Seq<char> {
    match state_label_spec(state) {
        Some(st) => fg_spec(161) + bg_spec(220) + arrow() + " "@ + fg_spec(0) + st + " "@,
        None => Seq::<char>::empty(),
    }
}

/// The background the badge chain starts from: the operation badge's when
/// one is shown, else the alert background.
pub open spec fn prev_after_state(state: RepoState) -> u8 {
    if state_label_spec(state) is Some {
        220u8
    } else {
        161u8
    }
}

/// The whole status bar for the given branch identity, counters and state.
pub open spec fn render_git_spec(
    branch: Seq<char>,
    c: StatusCounts,
    ahead: u32,
    behind: u32,
    stashed: u32,
    state: RepoState,
) -> Seq<char> {
    if !dirty_spec(c, ahead, behind, stashed, state) {
        clean_render(branch)
    } else {
        let bs = badge_list(c, ahead, behind, stashed);
        let p0 = prev_after_state(state);
        dirty_head(branch) + state_block(state) + render_badges(p0, bs, 0) + fg_spec(
            last_bg(p0, bs) as nat,
        ) + bg_spec(236) + arrow() + reset()
    }
}

/// A clean repository — all counters zero and no operation in progress —
/// renders as exactly the clean block: the branch icon and name on the
/// success background pair, and no badge at all.
pub proof fn lemma_clean_repository(
    branch: Seq<char>,
    c: StatusCounts,
    ahead: u32,
    behind: u32,
    stashed: u32,
    state: RepoState,
)
    requires
        c.staged == 0,
        c.modified == 0,
        c.untracked == 0,
        c.conflicted == 0,
        ahead == 0,
        behind == 0,
        stashed == 0,
        state_label_spec(state) is None,
    ensures
        !dirty_spec(c, ahead, behind, stashed, state),
        render_git_spec(branch, c, ahead, behind, stashed, state) == clean_render(branch),
{
}

/// With untracked files and nothing else to report, the bar is the alert
/// head followed by exactly one badge: the untracked badge with the count.
pub proof fn lemma_untracked_only(branch: Seq<char>, c: StatusCounts, state: RepoState)
    requires
        c.staged == 0,
        c.modified == 0,
        c.conflicted == 0,
        c.untracked > 0,
        state_label_spec(state) is None,
    ensures
        badge_list(c, 0, 0, 0) == seq![(52u8, dec_spec(c.untracked as nat) + "+"@)],
        render_git_spec(branch, c, 0, 0, 0, state) == dirty_head(branch) + badge_block(
            161,
            (52u8, dec_spec(c.untracked as nat) + "+"@),
        ) + fg_spec(52) + bg_spec(236) + arrow() + reset(),
{
    let bs = badge_list(c, 0, 0, 0);
    assert(bs =~= seq![(52u8, dec_spec(c.untracked as nat) + "+"@)]);
    assert(render_badges(161, bs, 1) =~= Seq::<char>::empty());
    assert(render_badges(161, bs, 0) == badge_block(161, bs[0]) + render_badges(52, bs, 1));
    assert(render_badges(52, bs, 1) =~= Seq::<char>::empty());
    assert(render_git_spec(branch, c, 0, 0, 0, state) =~= dirty_head(branch) + badge_block(
        161,
        (52u8, dec_spec(c.untracked as nat) + "+"@),
    ) + fg_spec(52) + bg_spec(236) + arrow() + reset());
}

/// The bar is a pure function of its inputs: with the repository state and
/// branch identity unchanged, repeated renders are byte-identical.
pub proof fn lemma_git_render_deterministic(
    b1: Seq<char>,
    b2: Seq<char>,
    c1: StatusCounts,
    c2: StatusCounts,
    ahead1: u32,
    ahead2: u32,
    behind1: u32,
    behind2: u32,
    stashed1: u32,
    stashed2: u32,
    state1: RepoState,
    state2: RepoState,
)
    requires
        b1 == b2,
        c1 == c2,
        ahead1 == ahead2,
        behind1 == behind2,
        stashed1 == stashed2,
        state1 == state2,
    ensures
        render_git_spec(b1, c1, ahead1, behind1, stashed1, state1) == render_git_spec(
            b2,
            c2,
            ahead2,
            behind2,
            stashed2,
            state2,
        ),
{
}

fn append_count_badge(segs: &mut Vec<(u8, String)>, color: u8, count: u32, glyph: &str)
    ensures
        badges_view(final(segs)@) == badges_view(old(segs)@) + count_badge(color, count, glyph@),
{
    let ghost orig = badges_view(segs@);
    if count > 0 {
        let mut text = dec_str(count);
        text.append(glyph);
        segs.push((color, text));
    }
    proof {
        assert(badges_view(segs@) =~= orig + count_badge(color, count, glyph@));
    }
}

fn build_badges(c: StatusCounts, ahead: u32, behind: u32, stashed: u32) -> (segs: Vec<
    (u8, String),
>)
    ensures
        badges_view(segs@) == badge_list(c, ahead, behind, stashed),
{
    let mut segs: Vec<(u8, String)> = Vec::new();
    proof {
        assert(badges_view(segs@) =~= Seq::<(u8, Seq<char>)>::empty());
    }
    append_count_badge(&mut segs, 240, ahead, "\u{2b06}");
    append_count_badge(&mut segs, 240, behind, "\u{2b07}");
    append_count_badge(&mut segs, 22, c.staged, "\u{2714}");
    append_count_badge(&mut segs, 130, c.modified, "\u{270e}");
    append_count_badge(&mut segs, 52, c.untracked, "+");
    append_count_badge(&mut segs, 9, c.conflicted, "\u{273c}");
    append_count_badge(&mut segs, 20, stashed, "\u{2691}");
    proof {
        assert(badges_view(segs@) =~= badge_list(c, ahead, behind, stashed));
    }
    segs
}

/// Renders the status bar for the branch identity, counters, divergence,
/// stash count and repository state in `info`.
pub fn render_git(info: &GitInfo) -> (out: String)
    ensures
        out@ == render_git_spec(
            info.branch@,
            info.counts,
            info.ahead,
            info.behind,
            info.stashed,
            info.state,
        ),
{
    let c = info.counts;
    let dirty = c.staged > 0 || c.modified > 0 || c.untracked > 0 || c.conflicted > 0
        || info.stashed > 0 || info.ahead > 0 || info.behind > 0 || state_label(
        info.state,
    ).is_some();
    let mut out = String::new();
    if !dirty {
        push_fg(&mut out, 237);
        push_bg(&mut out, 148);
        out.append("\u{e0b0}");
        out.append(" ");
        push_fg(&mut out, 0);
        out.append("\u{e0a0}");
        out.append(" ");
        out.append(info.branch.as_str());
        out.append(" ");
        push_fg(&mut out, 148);
        push_bg(&mut out, 236);
        out.append("\u{e0b0}");
        out.append("\u{1b}[0m");
        proof {
            assert(out@ =~= clean_render(info.branch@));
        }
    } else {
        push_fg(&mut out, 237);
        push_bg(&mut out, 161);
        out.append("\u{e0b0}");
        out.append(" ");
        push_fg(&mut out, 15);
        out.append("\u{e0a0}");
        out.append(" ");
        out.append(info.branch.as_str());
        out.append(" ");
        proof {
            assert(out@ =~= dirty_head(info.branch@));
        }
        let mut prev: u8 = 161;
        match state_label(info.state) {
            Some(st) => {
                push_fg(&mut out, 161);
                push_bg(&mut out, 220);
                out.append("\u{e0b0}");
                out.append(" ");
                push_fg(&mut out, 0);
                out.append(st);
                out.append(" ");
                prev = 220;
                proof {
                    assert(out@ =~= dirty_head(info.branch@) + state_block(info.state));
                }
            },
            None => {
                proof {
                    assert(out@ =~= dirty_head(info.branch@) + state_block(info.state));
                }
            },
        }
        let ghost p0 = prev_after_state(info.state);
        let segs = build_badges(c, info.ahead, info.behind, info.stashed);
        let ghost bs = badge_list(c, info.ahead, info.behind, info.stashed);
        let ghost opening = out@;
        let n = segs.len();
        let mut i: usize = 0;
        while i < n
            invariant
                n == segs@.len(),
                badges_view(segs@) == bs,
                bs.len() == n,
                0 <= i <= n,
                i == 0 ==> prev == p0,
                i > 0 ==> prev == bs[i as int - 1].0,
                opening + render_badges(p0, bs, 0) == out@ + render_badges(prev, bs, i as int),
            decreases n - i,
        {
            let ghost before = out@;
            let seg_bg = segs[i].0;
            push_fg(&mut out, prev);
            push_bg(&mut out, seg_bg);
            out.append("\u{e0b0}");
            out.append(" ");
            push_fg(&mut out, 15);
            out.append(segs[i].1.as_str());
            out.append(" ");
            proof {
                assert(bs[i as int] == (segs@[i as int].0, segs@[i as int].1@));
                assert(before + render_badges(prev, bs, i as int) =~= out@ + render_badges(
                    bs[i as int].0,
                    bs,
                    i as int + 1,
                ));
            }
            prev = seg_bg;
            i += 1;
        }
        proof {
            assert(render_badges(prev, bs, n as int) =~= Seq::<char>::empty());
            assert(prev == last_bg(p0, bs));
        }
        push_fg(&mut out, prev);
        push_bg(&mut out, 236);
        out.append("\u{e0b0}");
        out.append("\u{1b}[0m");
        proof {
            assert(out@ =~= render_git_spec(
                info.branch@,
                info.counts,
                info.ahead,
                info.behind,
                info.stashed,
                info.state,
            ));
        }
    }
    out
}

} // verus!
