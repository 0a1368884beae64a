//! Branch identity: the one name shown for the checked-out state —
//! a branch's short name, a detached commit's 7-character prefix, or the
//! literal `HEAD` when neither is obtainable.
use vstd::prelude::*;
use vstd::string::StrSliceExecFns;
use vstd::string::StringExecFns;
use crate::strutil::view_opt_str;

verus! {

/// The identity to display: exactly one of the short branch name, the
/// 7-character commit prefix, or `HEAD`.
pub open spec fn branch_identity_spec(
    detached: bool,
    commit_hex: Option<Seq<char>>,
    shorthand: Option<Seq<char>>,
) -> Seq<char> {
    if detached {
        match commit_hex {
            Some(h) => h.take(7),
            None => "HEAD"@,
        }
    } else {
        match shorthand {
            Some(s) => s,
            None => "HEAD"@,
        }
    }
}

/// Resolves the displayed identity from what the repository reported:
/// `commit_hex` is the hex form of the head commit (when one resolved),
/// `shorthand` the head's short name (when one resolved).
pub fn branch_identity(detached: bool, commit_hex: &Option<String>, shorthand: &Option<String>) -> (r:
    String)
    requires
        detached && commit_hex is Some ==> commit_hex->0@.len() >= 7,
    ensures
        r@ == branch_identity_spec(detached, view_opt_str(*commit_hex), view_opt_str(*shorthand)),
{
    if detached {
        match commit_hex {
            Some(h) => {
                let prefix = h.as_str().substring_char(0, 7);
                let r = prefix.to_owned();
                proof {
                    assert(r@ =~= h@.take(7));
                }
                r
            },
            None => String::from_str("HEAD"),
        }
    } else {
        match shorthand {
            Some(s) => s.clone(),
            None => String::from_str("HEAD"),
        }
    }
}

} // verus!
