//! The working-directory breadcrumb: home collapsing, splitting on `/`,
//! depth bounding, and the powerline rendering of the result.
use vstd::prelude::*;
use vstd::string::StrSliceExecFns;
use vstd::string::StringExecFns;
use crate::colors::arrow;
use crate::colors::bg_spec;
use crate::colors::fg_spec;
use crate::colors::push_bg;
use crate::colors::push_fg;
use crate::colors::thin_divider;
use crate::strutil::is_prefix;

verus! {

/// The marker that stands in for the home directory.
pub open spec fn tilde() -> Seq<char> {
    seq!['~']
}

/// The marker that stands in for elided leading components.
pub open spec fn ellipsis() -> Seq<char> {
    "\u{2026}"@
}

/// `pwd` with a leading match of `home` replaced by `~`; `pwd` unchanged
/// when `home` is not a prefix of it.
pub open spec fn collapse_home_spec(home: Seq<char>, pwd: Seq<char>) -> Seq<char> {
    if home.is_prefix_of(pwd) {
        tilde() + pwd.skip(home.len() as int)
    } else {
        pwd
    }
}

/// Every time `home` is a prefix of the raw path, the collapsed path
/// starts with `~`.
pub proof fn lemma_collapse_home_starts_with_tilde(home: Seq<char>, pwd: Seq<char>)
    requires
        home.is_prefix_of(pwd),
    ensures
        collapse_home_spec(home, pwd).len() >= 1,
        collapse_home_spec(home, pwd)[0] == '~',
{
}

/// `s` split on `/` with every field kept, empty fields included;
/// the result always has at least one field.
pub open spec fn split_keep(s: Seq<char>) -> Seq<Seq<char>>
    decreases s.len(),
{
    if s.len() == 0 {
        seq![Seq::<char>::empty()]
    } else if s.last() == '/' {
        split_keep(s.drop_last()).push(Seq::<char>::empty())
    } else {
        let r = split_keep(s.drop_last());
        r.update(r.len() - 1, r.last().push(s.last()))
    }
}

pub proof fn lemma_split_keep_len(s: Seq<char>)
    ensures
        split_keep(s).len() >= 1,
    decreases s.len(),
{
    if s.len() > 0 {
        lemma_split_keep_len(s.drop_last());
    }
}

/// `cs` with its empty fields removed, order kept.
pub open spec fn drop_empty(cs: Seq<Seq<char>>) -> Seq<Seq<char>>
    decreases cs.len(),
{
    if cs.len() == 0 {
        Seq::<Seq<char>>::empty()
    } else if cs.last().len() > 0 {
        drop_empty(cs.drop_last()).push(cs.last())
    } else {
        drop_empty(cs.drop_last())
    }
}

/// The non-empty `/`-separated components of `s`, in order.
pub open spec fn components(s: Seq<char>) -> Seq<Seq<char>> {
    drop_empty(split_keep(s))
}

/// Splits `s` on `/`, returning the non-empty components in order.
pub fn split_components(s: &str) -> (r: Vec<String>)
    ensures
        r.deep_view() == components(s@),
{
    let len = s.unicode_len();
    let mut done: Vec<String> = Vec::new();
    let mut start: usize = 0;
    let mut i: usize = 0;
    while i < len
        invariant
            len == s@.len(),
            0 <= start <= i <= len,
            split_keep(s@.take(i as int)).len() >= 1,
            split_keep(s@.take(i as int)).last() == s@.subrange(start as int, i as int),
            drop_empty(split_keep(s@.take(i as int)).drop_last()) == done.deep_view(),
        decreases len - i,
    {
        let ghost f = split_keep(s@.take(i as int));
        let c = s.get_char(i);
        proof {
            assert(s@.take(i as int + 1).drop_last() =~= s@.take(i as int));
            assert(s@.take(i as int + 1).last() == s@[i as int]);
        }
        if c == '/' {
            let ghost f2 = split_keep(s@.take(i as int + 1));
            proof {
                assert(f2 == f.push(Seq::<char>::empty()));
                assert(f2.drop_last() =~= f);
                assert(f.drop_last().push(f.last()) =~= f);
            }
            if i > start {
                let comp = s.substring_char(start, i);
                done.push(comp.to_owned());
                proof {
                    assert(done.deep_view() =~= drop_empty(f.drop_last()).push(f.last()));
                    assert(drop_empty(f) == drop_empty(f.drop_last()).push(f.last()));
                }
            } else {
                proof {
                    assert(f.last().len() == 0);
                    assert(drop_empty(f) == drop_empty(f.drop_last()));
                }
            }
            start = i + 1;
            proof {
                assert(f2.last() =~= s@.subrange(i as int + 1, i as int + 1));
            }
        } else {
            let ghost f2 = split_keep(s@.take(i as int + 1));
            proof {
                lemma_split_keep_len(s@.take(i as int));
                assert(f2 == f.update(f.len() - 1, f.last().push(s@[i as int])));
                assert(f2.drop_last() =~= f.drop_last());
                assert(f2.last() == f.last().push(s@[i as int]));
                assert(f.last().push(s@[i as int]) =~= s@.subrange(start as int, i as int + 1));
            }
        }
        i += 1;
    }
    proof {
        assert(s@.take(len as int) =~= s@);
    }
    let ghost f = split_keep(s@);
    if len > start {
        let comp = s.substring_char(start, len);
        done.push(comp.to_owned());
        proof {
            assert(done.deep_view() =~= drop_empty(f.drop_last()).push(f.last()));
            assert(components(s@) == drop_empty(f.drop_last()).push(f.last()));
        }
    } else {
        proof {
            assert(f.last().len() == 0);
            assert(components(s@) == drop_empty(f.drop_last()));
        }
    }
    done
}

/// Collapses a leading match of `home` in `pwd` to `~`.
pub fn collapse_home(home: &str, pwd: &str) -> (r: String)
    ensures
        r@ == collapse_home_spec(home@, pwd@),
{
    if is_prefix(home, pwd) {
        let hl = home.unicode_len();
        let pl = pwd.unicode_len();
        let rest = pwd.substring_char(hl, pl);
        let mut out = String::from_str("~");
        proof {
            reveal_strlit("~");
            assert("~"@ =~= tilde());
        }
        out.append(rest);
        proof {
            assert(out@ =~= collapse_home_spec(home@, pwd@));
        }
        out
    } else {
        String::from_str(pwd)
    }
}

/// The components of the collapsed working directory; a bare `/` when the
/// collapsed path has no components at all (the filesystem root).
pub open spec fn path_components_spec(home: Seq<char>, pwd: Seq<char>) -> Seq<Seq<char>> {
    let cs = components(collapse_home_spec(home, pwd));
    if cs.len() == 0 {
        seq!["/"@]
    } else {
        cs
    }
}

/// Splits the collapsed working directory into displayable components.
pub fn path_components(home: &str, pwd: &str) -> (r: Vec<String>)
    ensures
        r.deep_view() == path_components_spec(home@, pwd@),
        r.len() >= 1,
{
    let collapsed = collapse_home(home, pwd);
    let mut cs = split_components(collapsed.as_str());
    proof {
        assert(cs.deep_view().len() == cs@.len());
    }
    if cs.len() == 0 {
        cs.push(String::from_str("/"));
        proof {
            assert(cs.deep_view() =~= seq!["/"@]);
        }
    }
    cs
}

/// At most five components are displayed: more than five collapse to an
/// ellipsis marker followed by the last four.
pub open spec fn truncate_spec(cs: Seq<Seq<char>>) -> Seq<Seq<char>> {
    if cs.len() > 5 {
        seq![ellipsis()] + cs.skip(cs.len() - 4)
    } else {
        cs
    }
}

/// Deeper working directories never widen the breadcrumb: past five
/// components, exactly five are displayed and the first is the ellipsis
/// marker.
pub proof fn lemma_path_depth_bound(home: Seq<char>, pwd: Seq<char>)
    requires
        path_components_spec(home, pwd).len() > 5,
    ensures
        truncate_spec(path_components_spec(home, pwd)).len() == 5,
        truncate_spec(path_components_spec(home, pwd))[0] == ellipsis(),
{
}

/// The breadcrumb is a pure function of its inputs: with the home and
/// working directory unchanged, repeated renders are byte-identical.
pub proof fn lemma_path_render_deterministic(
    home1: Seq<char>,
    home2: Seq<char>,
    pwd1: Seq<char>,
    pwd2: Seq<char>,
)
    requires
        home1 == home2,
        pwd1 == pwd2,
    ensures
        render_path_spec(home1, pwd1) == render_path_spec(home2, pwd2),
{
}

/// Bounds the component list to five entries as `truncate_spec` says.
pub fn truncate_components(cs: Vec<String>) -> (r: Vec<String>)
    ensures
        r.deep_view() == truncate_spec(cs.deep_view()),
        r.len() >= 1 <==> cs.len() >= 1,
{
    proof {
        assert(cs.deep_view().len() == cs@.len());
    }
    if cs.len() <= 5 {
        cs
    } else {
        let n = cs.len();
        let mut out: Vec<String> = Vec::new();
        out.push(String::from_str("\u{2026}"));
        let mut i: usize = n - 4;
        while i < n
            invariant
                n == cs.len(),
                n - 4 <= i <= n,
                n > 5,
                out.deep_view() == seq![ellipsis()] + cs.deep_view().subrange(
                    n as int - 4,
                    i as int,
                ),
            decreases n - i,
        {
            let ghost before = out.deep_view();
            let comp = cs[i].clone();
            out.push(comp);
            proof {
                assert(out.deep_view() =~= before.push(cs.deep_view()[i as int]));
                assert(out.deep_view() =~= seq![ellipsis()] + cs.deep_view().subrange(
                    n as int - 4,
                    i as int + 1,
                ));
            }
            i += 1;
        }
        proof {
            assert(out.deep_view() =~= truncate_spec(cs.deep_view()));
        }
        out
    }
}

/// The opening block of the breadcrumb: the first component on the
/// distinguished background, closed by an arrow onto the component
/// background.
pub open spec fn head_block(first: Seq<char>) -> Seq<char> {
    fg_spec(238) + bg_spec(31) + arrow() + " "@ + fg_spec(15) + first + " "@ + fg_spec(31)
        + bg_spec(237) + arrow()
}

/// The rendering of components `i..` on the component background, a thin
/// divider before every component except the first.
pub open spec fn rest_blocks(cs: Seq<Seq<char>>, i: int) -> Seq<char>
    decreases cs.len() - i,
{
    if i < 1 || i >= cs.len() {
        Seq::<char>::empty()
    } else {
        (if i > 1 {
            " "@ + fg_spec(245) + thin_divider()
        } else {
            Seq::<char>::empty()
        }) + " "@ + fg_spec(254) + cs[i] + rest_blocks(cs, i + 1)
    }
}

/// The whole path segment for the given home directory and working
/// directory.
pub open spec fn render_path_spec(home: Seq<char>, pwd: Seq<char>) -> Seq<char> {
    let cs = truncate_spec(path_components_spec(home, pwd));
    if cs.len() <= 1 {
        head_block(cs[0])
    } else {
        head_block(cs[0]) + rest_blocks(cs, 1) + " "@
    }
}

/// Renders the breadcrumb for the working directory `pwd`, with `home`
/// collapsed to `~`.
pub fn render_path(home: &str, pwd: &str) -> (out: String)
    ensures
        out@ == render_path_spec(home@, pwd@),
{
    let cs = truncate_components(path_components(home, pwd));
    let ghost cv = cs.deep_view();
    proof {
        assert(cv.len() == cs@.len());
    }
    let mut out = String::new();
    push_fg(&mut out, 238);
    push_bg(&mut out, 31);
    out.append("\u{e0b0}");
    out.append(" ");
    push_fg(&mut out, 15);
    out.append(cs[0].as_str());
    out.append(" ");
    push_fg(&mut out, 31);
    push_bg(&mut out, 237);
    out.append("\u{e0b0}");
    proof {
        assert(out@ =~= head_block(cv[0]));
    }
    let n = cs.len();
    if n > 1 {
        let mut i: usize = 1;
        while i < n
            invariant
                n == cs.len(),
                cv == cs.deep_view(),
                cv.len() == n,
                1 <= i <= n,
                head_block(cv[0]) + rest_blocks(cv, 1) == out@ + rest_blocks(cv, i as int),
            decreases n - i,
        {
            let ghost before = out@;
            if i > 1 {
                out.append(" ");
                push_fg(&mut out, 245);
                out.append("\u{e0b1}");
            }
            out.append(" ");
            push_fg(&mut out, 254);
            out.append(cs[i].as_str());
            proof {
                assert(before + rest_blocks(cv, i as int) =~= out@ + rest_blocks(
                    cv,
                    i as int + 1,
                ));
            }
            i += 1;
        }
        out.append(" ");
        proof {
            assert(rest_blocks(cv, n as int) =~= Seq::<char>::empty());
            assert(out@ =~= render_path_spec(home@, pwd@));
        }
    }
    out
}

} // verus!
