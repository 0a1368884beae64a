use starship_segments::branch::branch_identity;
use starship_segments::git_segment::render_git;
use starship_segments::git_segment::state_label;
use starship_segments::git_segment::GitInfo;
use starship_segments::git_segment::RepoState;
use starship_segments::status::count_statuses;
use starship_segments::status::StatusCounts;
use starship_segments::status::StatusEntry;
use starship_segments::upstream::ahead_behind;
use starship_segments::upstream::UpstreamLookup;

const ARROW: &str = "\u{e0b0}";
const BRANCH_ICON: &str = "\u{e0a0}";
const RST: &str = "\x1b[0m";

fn fg_s(c: u8) -> String {
    format!("\x1b[38;5;{}m", c)
}

fn bg_s(c: u8) -> String {
    format!("\x1b[48;5;{}m", c)
}

fn entry() -> StatusEntry {
    StatusEntry {
        conflicted: false,
        index_new: false,
        index_modified: false,
        index_deleted: false,
        index_renamed: false,
        index_typechange: false,
        wt_new: false,
        wt_modified: false,
        wt_deleted: false,
        wt_typechange: false,
    }
}

fn zero_counts() -> StatusCounts {
    StatusCounts { staged: 0, modified: 0, untracked: 0, conflicted: 0 }
}

fn info(branch: &str, counts: StatusCounts) -> GitInfo {
    GitInfo {
        branch: branch.to_string(),
        counts,
        ahead: 0,
        behind: 0,
        stashed: 0,
        state: RepoState::Clean,
    }
}

fn dirty_head(branch: &str) -> String {
    format!(
        "{}{}{} {}{} {} ",
        fg_s(237),
        bg_s(161),
        ARROW,
        fg_s(15),
        BRANCH_ICON,
        branch
    )
}

fn badge(prev: u8, color: u8, text: &str) -> String {
    format!("{}{}{} {}{} ", fg_s(prev), bg_s(color), ARROW, fg_s(15), text)
}

fn closing(prev: u8) -> String {
    format!("{}{}{}{}", fg_s(prev), bg_s(236), ARROW, RST)
}

#[test]
fn counting_classifies_untracked() {
    let mut u = entry();
    u.wt_new = true;
    let entries = vec![u, u, u];
    let c = count_statuses(&entries);
    assert_eq!(c.untracked, 3);
    assert_eq!(c.staged, 0);
    assert_eq!(c.modified, 0);
    assert_eq!(c.conflicted, 0);
}

#[test]
fn conflicted_takes_precedence_over_everything() {
    let mut e = entry();
    e.conflicted = true;
    e.index_new = true;
    e.wt_modified = true;
    e.wt_new = true;
    let c = count_statuses(&vec![e]);
    assert_eq!(c.conflicted, 1);
    assert_eq!(c.staged, 0);
    assert_eq!(c.modified, 0);
    assert_eq!(c.untracked, 0);
}

#[test]
fn one_file_counts_as_staged_and_modified() {
    let mut e = entry();
    e.index_modified = true;
    e.wt_modified = true;
    let c = count_statuses(&vec![e]);
    assert_eq!(c.staged, 1);
    assert_eq!(c.modified, 1);
    assert_eq!(c.untracked, 0);
}

#[test]
fn branch_identity_attached_uses_shorthand() {
    let r = branch_identity(false, &None, &Some("main".to_string()));
    assert_eq!(r, "main");
}

#[test]
fn branch_identity_detached_uses_seven_hex_chars() {
    let oid = "0123456789abcdef0123456789abcdef01234567".to_string();
    let r = branch_identity(true, &Some(oid), &Some("main".to_string()));
    assert_eq!(r, "0123456");
}

#[test]
fn branch_identity_falls_back_to_head() {
    assert_eq!(branch_identity(true, &None, &Some("main".to_string())), "HEAD");
    assert_eq!(branch_identity(false, &None, &None), "HEAD");
}

#[test]
fn ahead_behind_is_zero_for_three_unresolved_scenarios() {
    // A detached head (no local branch record), a branch with no upstream,
    // and a head with no target: three distinct scenarios, one answer.
    assert_eq!(ahead_behind(&UpstreamLookup::NoLocalBranch), (0, 0));
    assert_eq!(ahead_behind(&UpstreamLookup::NoUpstream), (0, 0));
    assert_eq!(ahead_behind(&UpstreamLookup::NoTarget), (0, 0));
}

#[test]
fn ahead_behind_passes_resolved_counts_through() {
    assert_eq!(ahead_behind(&UpstreamLookup::Resolved { ahead: 3, behind: 1 }), (3, 1));
    assert_eq!(ahead_behind(&UpstreamLookup::GraphFailed), (0, 0));
}

#[test]
fn ahead_behind_clamps_oversized_counts() {
    let r = ahead_behind(&UpstreamLookup::Resolved { ahead: usize::MAX, behind: 0 });
    assert_eq!(r, (u32::MAX, 0));
}

#[test]
fn state_labels() {
    assert_eq!(state_label(RepoState::Rebase), Some("REBASING"));
    assert_eq!(state_label(RepoState::RebaseInteractive), Some("REBASING"));
    assert_eq!(state_label(RepoState::RebaseMerge), Some("REBASING"));
    assert_eq!(state_label(RepoState::Merge), Some("MERGING"));
    assert_eq!(state_label(RepoState::CherryPick), Some("CHERRY"));
    assert_eq!(state_label(RepoState::CherryPickSequence), Some("CHERRY"));
    assert_eq!(state_label(RepoState::Bisect), Some("BISECT"));
    assert_eq!(state_label(RepoState::Clean), None);
    assert_eq!(state_label(RepoState::Revert), None);
    assert_eq!(state_label(RepoState::ApplyMailbox), None);
}

#[test]
fn clean_repository_renders_green_branch_only() {
    let out = render_git(&info("main", zero_counts()));
    let expected = format!(
        "{}{}{} {}{} {} {}{}{}{}",
        fg_s(237),
        bg_s(148),
        ARROW,
        fg_s(0),
        BRANCH_ICON,
        "main",
        fg_s(148),
        bg_s(236),
        ARROW,
        RST
    );
    assert_eq!(out, expected);
    assert!(!out.contains('\u{2b06}'));
    assert!(!out.contains('\u{2714}'));
    assert!(!out.contains('+'));
}

#[test]
fn untracked_only_shows_one_badge_with_count() {
    let mut i = info("main", zero_counts());
    i.counts.untracked = 4;
    let out = render_git(&i);
    let expected = format!("{}{}{}", dirty_head("main"), badge(161, 52, "4+"), closing(52));
    assert_eq!(out, expected);
    assert!(!out.contains('\u{2b06}'));
    assert!(!out.contains('\u{2714}'));
    assert!(!out.contains('\u{270e}'));
    assert!(!out.contains('\u{273c}'));
    assert!(!out.contains('\u{2691}'));
}

#[test]
fn stash_alone_makes_the_bar_dirty() {
    let mut i = info("main", zero_counts());
    i.stashed = 2;
    let out = render_git(&i);
    let expected = format!("{}{}{}", dirty_head("main"), badge(161, 20, "2\u{2691}"), closing(20));
    assert_eq!(out, expected);
}

#[test]
fn rebase_label_alone_makes_the_bar_dirty() {
    let mut i = info("work", zero_counts());
    i.state = RepoState::Rebase;
    let out = render_git(&i);
    let state_part = format!("{}{}{} {}{} ", fg_s(161), bg_s(220), ARROW, fg_s(0), "REBASING");
    let expected = format!("{}{}{}", dirty_head("work"), state_part, closing(220));
    assert_eq!(out, expected);
}

#[test]
fn full_bar_keeps_fixed_badge_order() {
    let i = GitInfo {
        branch: "dev".to_string(),
        counts: StatusCounts { staged: 2, modified: 3, untracked: 4, conflicted: 5 },
        ahead: 1,
        behind: 6,
        stashed: 7,
        state: RepoState::Merge,
    };
    let out = render_git(&i);
    let state_part = format!("{}{}{} {}{} ", fg_s(161), bg_s(220), ARROW, fg_s(0), "MERGING");
    let expected = format!(
        "{}{}{}{}{}{}{}{}{}{}",
        dirty_head("dev"),
        state_part,
        badge(220, 240, "1\u{2b06}"),
        badge(240, 240, "6\u{2b07}"),
        badge(240, 22, "2\u{2714}"),
        badge(22, 130, "3\u{270e}"),
        badge(130, 52, "4+"),
        badge(52, 9, "5\u{273c}"),
        badge(9, 20, "7\u{2691}"),
        closing(20)
    );
    assert_eq!(out, expected);
}

#[test]
fn ahead_behind_badges_share_background() {
    let mut i = info("main", zero_counts());
    i.ahead = 2;
    i.behind = 1;
    let out = render_git(&i);
    let expected = format!(
        "{}{}{}{}",
        dirty_head("main"),
        badge(161, 240, "2\u{2b06}"),
        badge(240, 240, "1\u{2b07}"),
        closing(240)
    );
    assert_eq!(out, expected);
}

#[test]
fn render_git_is_idempotent() {
    let mut i = info("main", zero_counts());
    i.counts.staged = 1;
    i.state = RepoState::Bisect;
    let a = render_git(&i);
    let b = render_git(&i);
    assert_eq!(a, b);
}
