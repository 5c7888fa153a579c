//! The build flags that matter to bundling.
//!
//! All flags are handed on to the build. Two of them also decide where the
//! library is found and what kind of bundle is made: `--release`, and the
//! cross-compilation target, written `--target <triple>` or
//! `--target=<triple>`.

use vstd::prelude::*;
use vstd::string::*;
use crate::config::texts;
use crate::text::{after_prefix, begins_with, same_text};

verus! {

/// What the flags say.
#[derive(Debug, PartialEq, Eq)]
pub struct BuildFlags {
    /// Whether the release profile is built.
    pub release: bool,
    /// The triple that is cross-compiled for, if any.
    pub cross_target: Option<String>,
}

/// [`BuildFlags`] as plain values.
pub struct BuildFlagsView {
    pub release: bool,
    pub cross_target: Option<Seq<char>>,
}

impl View for BuildFlags {
    type V = BuildFlagsView;

    open spec fn view(&self) -> BuildFlagsView {
        BuildFlagsView {
            release: self.release,
            cross_target: match self.cross_target {
                Some(t) => Some(t@),
                None => None,
            },
        }
    }
}

/// The last flag is `--target`, with no triple after it.
#[derive(Debug, Clone, Copy, PartialEq, Eq, Structural)]
pub struct MissingTarget;

/// The triple that argument `i` asks for: the next argument after
/// `--target`, or what follows the `=` of `--target=`.
pub open spec fn target_given_at(args: Seq<Seq<char>>, i: int) -> Option<Seq<char>> {
    if args[i] == "--target"@ {
        if i + 1 < args.len() {
            Some(args[i + 1])
        } else {
            None
        }
    } else if begins_with(args[i], "--target="@) {
        Some(args[i].subrange("--target="@.len() as int, args[i].len() as int))
    } else {
        None
    }
}

/// The triple asked for by the first argument, at or after `i`, that asks
/// for one.
pub open spec fn first_target(args: Seq<Seq<char>>, i: int) -> Option<Seq<char>>
    decreases args.len() - i,
{
    if i >= args.len() {
        None
    } else {
        match target_given_at(args, i) {
            Some(t) => Some(t),
            None => first_target(args, i + 1),
        }
    }
}

/// Whether the arguments end in a `--target` that nothing follows.
pub open spec fn target_dangles(args: Seq<Seq<char>>) -> bool {
    args.len() > 0 && args.last() == "--target"@
}

/// What the flags `args` say, unless they end in a dangling `--target`:
/// the release profile where `--release` occurs anywhere, and the triple
/// of the first argument that gives one.
pub open spec fn flags_of(args: Seq<Seq<char>>) -> Option<BuildFlagsView> {
    if target_dangles(args) {
        None
    } else {
        Some(
            BuildFlagsView {
                release: args.contains("--release"@),
                cross_target: first_target(args, 0),
            },
        )
    }
}

/// `--release` asks for no target.
proof fn lemma_release_gives_no_target(args: Seq<Seq<char>>, i: int)
    requires
        0 <= i < args.len(),
        args[i] == "--release"@,
    ensures
        target_given_at(args, i) is None,
{
    reveal_strlit("--release");
    reveal_strlit("--target");
    reveal_strlit("--target=");
    assert("--release"@[2] == 'r');
    assert("--target="@[2] == 't');
    assert("--release"@.subrange(0, 9)[2] == 'r');
}

/// Reads the flags that matter to bundling out of the arguments of the
/// build. Where a flag is given more than once, its first occurrence
/// counts.
pub fn parse_flags(args: &Vec<String>) -> (r: Result<BuildFlags, MissingTarget>)
    ensures
        match flags_of(texts(args@)) {
            Some(flags) => r matches Ok(f) && f@ == flags,
            None => r is Err,
        },
{
    let ghost all = texts(args@);
    let n: usize = args.len();
    if n > 0 && same_text(args[n - 1].as_str(), "--target") {
        return Err(MissingTarget);
    }
    let mut release: bool = false;
    let mut cross_target: Option<String> = None;
    let mut idx: usize = n;
    while idx > 0
        invariant
            all == texts(args@),
            n == args@.len(),
            !target_dangles(all),
            0 <= idx <= n,
            release <==> exists|j: int| idx <= j < n && all[j] == "--release"@,
            first_target(all, idx as int) == (match cross_target {
                Some(t) => Some(t@),
                None => None,
            }),
        decreases idx,
    {
        idx -= 1;
        let arg = args[idx].as_str();
        assert(arg@ == all[idx as int]);
        if same_text(arg, "--release") {
            release = true;
            proof {
                lemma_release_gives_no_target(all, idx as int);
            }
        } else if same_text(arg, "--target") {
            assert(args@[idx + 1]@ == all[idx + 1]);
            cross_target = Some(args[idx + 1].clone());
        } else {
            match after_prefix(arg, "--target=") {
                Some(rest) => {
                    cross_target = Some(String::from_str(rest));
                },
                None => {},
            }
        }
    }
    proof {
        assert(release <==> all.contains("--release"@));
    }
    Ok(BuildFlags { release, cross_target })
}

} // verus!
