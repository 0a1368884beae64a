//! The multiplexer window title: the home icon at home, a folder icon
//! outside a repository, and otherwise the repository name, branch and a
//! dirty marker, in inline color-tag markup.
use vstd::prelude::*;
use vstd::string::StringExecFns;
use crate::colors::branch_icon;
use crate::colors::pencil_icon;
use crate::path::components;
use crate::path::split_components;
use crate::strutil::str_eq;

verus! {

/// What the title needs to know of a discovered repository.
#[derive(Clone, PartialEq, Eq, Debug)]
pub struct TitleRepoInfo {
    /// The displayed branch identity.
    pub branch: String,
    /// The repository's working-directory path, when it has one.
    pub workdir: Option<String>,
    /// Whether the combined status query returned any entry at all.
    pub dirty: bool,
}

/// The fixed line shown when the working directory is the home directory.
pub open spec fn home_title() -> Seq<char> {
    "\u{1f3e0} ~"@
}

/// The last `/`-separated component of `s`, or `s` itself when it has none.
pub open spec fn last_component_spec(s: Seq<char>) -> Seq<char> {
    let cs = components(s);
    if cs.len() > 0 {
        cs.last()
    } else {
        s
    }
}

/// The title line: the home icon at home; a folder icon and directory name
/// outside a repository; otherwise the repository name and branch, marked
/// with a pencil when the working tree has anything to report.
pub open spec fn render_title_spec(
    home: Seq<char>,
    pwd: Seq<char>,
    repo: Option<TitleRepoInfo>,
) -> Seq<char> {
    if pwd == home {
        home_title()
    } else {
        let dir_name = last_component_spec(pwd);
        match repo {
            None => "\u{1f4c1} "@ + dir_name,
            Some(r) => {
                let repo_name = match r.workdir {
                    Some(w) => if components(w@).len() > 0 {
                        components(w@).last()
                    } else {
                        dir_name
                    },
                    None => dir_name,
                };
                if r.dirty {
                    "#[fg=colour67]"@ + branch_icon() + "#[default] "@ + repo_name + " "@
                        + r.branch@ + " #[fg=colour245]"@ + pencil_icon() + "#[default]"@
                } else {
                    "#[fg=colour39]"@ + branch_icon() + "#[default] "@ + repo_name + " "@
                        + r.branch@
                }
            },
        }
    }
}

/// At home the title is the home icon and `~`, whatever the repository
/// state is.
pub proof fn lemma_home_title_fixed(home: Seq<char>, repo: Option<TitleRepoInfo>)
    ensures
        render_title_spec(home, home, repo) == home_title(),
{
}

/// The title is a pure function of its inputs: with the working directory
/// and repository state unchanged, repeated renders are byte-identical.
pub proof fn lemma_title_deterministic(
    home1: Seq<char>,
    home2: Seq<char>,
    pwd1: Seq<char>,
    pwd2: Seq<char>,
    repo1: Option<TitleRepoInfo>,
    repo2: Option<TitleRepoInfo>,
)
    requires
        home1 == home2,
        pwd1 == pwd2,
        repo1 == repo2,
    ensures
        render_title_spec(home1, pwd1, repo1) == render_title_spec(home2, pwd2, repo2),
{
}

/// The last `/`-separated component of `s`, or `s` itself when it has none.
pub fn last_component(s: &str) -> (r: String)
    ensures
        r@ == last_component_spec(s@),
{
    let cs = split_components(s);
    proof {
        assert(cs.deep_view().len() == cs@.len());
    }
    if cs.len() > 0 {
        let r = cs[cs.len() - 1].clone();
        proof {
            assert(cs.deep_view().last() == cs.deep_view()[cs@.len() - 1]);
        }
        r
    } else {
        String::from_str(s)
    }
}

/// Renders the window-title line for the working directory `pwd` and the
/// discovered repository, if any.
pub fn render_title(home: &str, pwd: &str, repo: &Option<TitleRepoInfo>) -> (out: String)
    ensures
        out@ == render_title_spec(home@, pwd@, *repo),
{
    if str_eq(pwd, home) {
        String::from_str("\u{1f3e0} ~")
    } else {
        let dir_name = last_component(pwd);
        match repo {
            None => {
                let mut out = String::from_str("\u{1f4c1} ");
                out.append(dir_name.as_str());
                proof {
                    assert(out@ =~= render_title_spec(home@, pwd@, *repo));
                }
                out
            },
            Some(r) => {
                let repo_name = match &r.workdir {
                    Some(w) => {
                        // A path with no component at all has no base name;
                        // fall back to the directory name then.
                        if components_is_empty(w.as_str()) {
                            dir_name
                        } else {
                            last_component(w.as_str())
                        }
                    },
                    None => dir_name,
                };
                let mut out;
                if r.dirty {
                    out = String::from_str("#[fg=colour67]");
                    out.append("\u{e0a0}");
                    out.append("#[default] ");
                    out.append(repo_name.as_str());
                    out.append(" ");
                    out.append(r.branch.as_str());
                    out.append(" #[fg=colour245]");
                    out.append("\u{f040}");
                    out.append("#[default]");
                } else {
                    out = String::from_str("#[fg=colour39]");
                    out.append("\u{e0a0}");
                    out.append("#[default] ");
                    out.append(repo_name.as_str());
                    out.append(" ");
                    out.append(r.branch.as_str());
                }
                proof {
                    assert(out@ =~= render_title_spec(home@, pwd@, *repo));
                }
                out
            },
        }
    }
}

/// Whether `s` has no non-empty `/`-separated component.
fn components_is_empty(s: &str) -> (r: bool)
    ensures
        r == (components(s@).len() == 0),
{
    let cs = split_components(s);
    proof {
        assert(cs.deep_view().len() == cs@.len());
    }
    cs.len() == 0
}

} // verus!
