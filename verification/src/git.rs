//! Interaction with a local git clone, split into what can be decided and
//! parsed here — the argument lists of the invocations, and the parsing of
//! their captured output — and the process invocations themselves, which
//! the caller performs.

use vstd::prelude::*;
use vstd::string::StrSliceExecFns;
use vstd::string::StringExecFns;

use crate::text::char_index;
use crate::text::find_from;
use crate::text::split_on;
use crate::text::split_str;
use crate::text::trim_spec;
use crate::text::trim_ws;

verus! {

/// Interact with a git repository at the given path.
#[derive(Debug)]
pub struct Git {
    /// The path of the clone's working tree.
    pub repo: String,
}

/// The segments of `segs` that are not empty.
pub open spec fn nonempty_segments(segs: Seq<Seq<char>>) -> Seq<Seq<char>> {
    segs.filter(|l: Seq<char>| l.len() > 0)
}

/// The tag list read from the output of the tag-listing invocation: its
/// non-empty lines, in the order printed (ascending tagger date).
pub open spec fn spec_tag_list(out: Seq<char>) -> Seq<Seq<char>> {
    nonempty_segments(split_on(out, '\n'))
}

/// One line of remote-listing output: trimmed, then split at its first
/// tab into a hash and a reference; a line without a tab is skipped.
pub open spec fn spec_ref_line(line: Seq<char>) -> Option<(Seq<char>, Seq<char>)> {
    let t = trim_spec(line);
    let i = char_index(t, '\t');
    if i < t.len() {
        Some((t.take(i), t.skip(i + 1)))
    } else {
        None
    }
}

/// The hash/reference pairs of a sequence of remote-listing lines, kept
/// in order.
pub open spec fn spec_ref_lines(lines: Seq<Seq<char>>) -> Seq<(Seq<char>, Seq<char>)>
    decreases lines.len(),
{
    if lines.len() == 0 {
        Seq::empty()
    } else {
        let rest = spec_ref_lines(lines.drop_last());
        match spec_ref_line(lines.last()) {
            None => rest,
            Some(p) => rest.push(p),
        }
    }
}

/// The hash/reference pairs of remote-listing output.
pub open spec fn spec_ls_remote(out: Seq<char>) -> Seq<(Seq<char>, Seq<char>)> {
    spec_ref_lines(split_on(out, '\n'))
}

impl Clone for Git {
    /// An exact copy.
    fn clone(&self) -> (r: Self)
        ensures
            r == *self,
    {
        Git { repo: self.repo.clone() }
    }
}

impl Git {
    /// A handle on the repository at `repo`.
    pub fn new(repo: String) -> (g: Git)
        ensures
            g.repo == repo,
    {
        Git { repo }
    }

    /// The arguments of the remote-listing invocation.
    pub fn ls_remote_command(&self, remote: &str) -> (args: Vec<String>)
        ensures
            args@.map_values(|s: String| s@) == seq!["ls-remote"@, remote@],
    {
        let mut args: Vec<String> = Vec::new();
        args.push(String::from_str("ls-remote"));
        args.push(String::from_str(remote));
        proof {
            assert(args@.map_values(|s: String| s@) =~= seq!["ls-remote"@, remote@]);
        }
        args
    }

    /// Read the hash/reference pairs out of captured remote-listing
    /// output: each line is trimmed and split at its first tab; lines
    /// without a tab are skipped.
    pub fn ls_remote(&self, out: &str) -> (r: Vec<(String, String)>)
        ensures
            r@.map_values(|p: (String, String)| (p.0@, p.1@)) == spec_ls_remote(out@),
    {
        let lines = split_str(out, '\n');
        let mut r: Vec<(String, String)> = Vec::new();
        let mut i: usize = 0;
        proof {
            let segs = split_on(out@, '\n');
            assert(segs.take(0) =~= Seq::<Seq<char>>::empty());
            assert(r@.map_values(|p: (String, String)| (p.0@, p.1@)) =~= spec_ref_lines(
                segs.take(0),
            ));
        }
        while i < lines.len()
            invariant
                0 <= i <= lines@.len(),
                lines@.map_values(|t: String| t@) == split_on(out@, '\n'),
                r@.map_values(|p: (String, String)| (p.0@, p.1@)) == spec_ref_lines(
                    split_on(out@, '\n').take(i as int),
                ),
            decreases lines@.len() - i,
        {
            let line = &lines[i];
            let trimmed = trim_ws(line.as_str());
            let t = trimmed.as_str();
            let tn = t.unicode_len();
            let tab: usize = find_from(t, '\t', 0);
            proof {
                assert(t@.skip(0) =~= t@);
                assert(lines@.map_values(|t: String| t@)[i as int] == line@);
            }
            if tab < tn {
                let hash = String::from_str(t.substring_char(0, tab));
                let reference = String::from_str(t.substring_char(tab + 1, tn));
                proof {
                    assert(hash@ =~= t@.take(tab as int));
                    assert(reference@ =~= t@.skip(tab + 1));
                }
                r.push((hash, reference));
            }
            i += 1;
            proof {
                let segs = split_on(out@, '\n');
                assert(segs.take(i as int).drop_last() =~= segs.take(i - 1));
                assert(segs.take(i as int).last() == segs[i - 1]);
                assert(r@.map_values(|p: (String, String)| (p.0@, p.1@)) =~= spec_ref_lines(
                    segs.take(i as int),
                ));
            }
        }
        proof {
            let segs = split_on(out@, '\n');
            assert(segs.take(lines@.len() as int) =~= segs);
        }
        r
    }

    /// The arguments of the fetch invocation: a shallow fetch of the given
    /// refspecs, tags included, from origin.
    pub fn fetch(&self, refspecs: &Vec<String>) -> (args: Vec<String>)
        ensures
            args@.map_values(|s: String| s@) == seq![
                "fetch"@,
                "--tags"@,
                "--depth"@,
                "1"@,
                "origin"@,
            ] + refspecs@.map_values(|s: String| s@),
    {
        let ghost fixed: Seq<Seq<char>> = seq!["fetch"@, "--tags"@, "--depth"@, "1"@, "origin"@];
        let mut args: Vec<String> = Vec::new();
        args.push(String::from_str("fetch"));
        args.push(String::from_str("--tags"));
        args.push(String::from_str("--depth"));
        args.push(String::from_str("1"));
        args.push(String::from_str("origin"));
        let mut i: usize = 0;
        proof {
            assert(args@.map_values(|s: String| s@) =~= fixed + refspecs@.map_values(
                |s: String| s@,
            ).take(0));
        }
        while i < refspecs.len()
            invariant
                0 <= i <= refspecs@.len(),
                args@.map_values(|s: String| s@) == fixed + refspecs@.map_values(
                    |s: String| s@,
                ).take(i as int),
            decreases refspecs@.len() - i,
        {
            let refspec = refspecs[i].clone();
            args.push(refspec);
            i += 1;
            proof {
                let f = |s: String| s@;
                assert(args@.last() == refspecs@[i - 1]);
                assert(args@.drop_last().map_values(f) == fixed + refspecs@.map_values(f).take(
                    i - 1,
                ));
                assert forall|j: int| 0 <= j < args@.len() implies #[trigger] args@.map_values(f)[j]
                    == (fixed + refspecs@.map_values(f).take(i as int))[j] by {
                    if j < args@.len() - 1 {
                        assert(args@.map_values(f)[j] == args@.drop_last().map_values(f)[j]);
                    } else {
                        assert(args@.map_values(f)[j] == f(refspecs@[i - 1]));
                    }
                }
                assert(args@.map_values(f) =~= fixed + refspecs@.map_values(f).take(i as int));
            }
        }
        proof {
            assert(refspecs@.map_values(|s: String| s@).take(refspecs@.len() as int)
                =~= refspecs@.map_values(|s: String| s@));
        }
        args
    }

    /// The arguments of the tag-listing invocation: every tag, sorted by
    /// tagger date ascending.
    pub fn tags_command(&self) -> (args: Vec<String>)
        ensures
            args@.map_values(|s: String| s@) == seq!["tag"@, "--sort=taggerdate"@],
    {
        let mut args: Vec<String> = Vec::new();
        args.push(String::from_str("tag"));
        args.push(String::from_str("--sort=taggerdate"));
        proof {
            assert(args@.map_values(|s: String| s@) =~= seq!["tag"@, "--sort=taggerdate"@]);
        }
        args
    }

    /// Read the tag list out of captured tag-listing output: its
    /// non-empty lines, in printed order.
    pub fn tags(&self, out: &str) -> (r: Vec<String>)
        ensures
            r@.map_values(|t: String| t@) == spec_tag_list(out@),
    {
        let lines = split_str(out, '\n');
        let mut r: Vec<String> = Vec::new();
        let mut i: usize = 0;
        proof {
            reveal(Seq::filter);
            let segs = split_on(out@, '\n');
            assert(segs.take(0) =~= Seq::<Seq<char>>::empty());
            assert(r@.map_values(|t: String| t@) =~= nonempty_segments(segs.take(0)));
        }
        while i < lines.len()
            invariant
                0 <= i <= lines@.len(),
                lines@.map_values(|t: String| t@) == split_on(out@, '\n'),
                r@.map_values(|t: String| t@) == nonempty_segments(
                    split_on(out@, '\n').take(i as int),
                ),
            decreases lines@.len() - i,
        {
            let line = &lines[i];
            proof {
                assert(lines@.map_values(|t: String| t@)[i as int] == line@);
            }
            if !line.as_str().is_empty() {
                r.push(line.clone());
            }
            i += 1;
            proof {
                reveal(Seq::filter);
                let segs = split_on(out@, '\n');
                assert(segs.take(i as int).drop_last() =~= segs.take(i - 1));
                assert(segs.take(i as int).last() == segs[i - 1]);
                assert(r@.map_values(|t: String| t@) =~= nonempty_segments(segs.take(i as int)));
            }
        }
        proof {
            let segs = split_on(out@, '\n');
            assert(segs.take(lines@.len() as int) =~= segs);
        }
        r
    }

    /// The two invocations of a forced checkout: a forced clean of all
    /// uncommitted and untracked state, then the checkout of the
    /// reference. Destructive: the prior working-tree state does not
    /// survive.
    pub fn checkout_hard(&self, reference: &str) -> (cmds: (Vec<String>, Vec<String>))
        ensures
            cmds.0@.map_values(|s: String| s@) == seq!["clean"@, "-fdx"@],
            cmds.1@.map_values(|s: String| s@) == seq!["checkout"@, reference@],
    {
        let mut clean: Vec<String> = Vec::new();
        clean.push(String::from_str("clean"));
        clean.push(String::from_str("-fdx"));
        let mut checkout: Vec<String> = Vec::new();
        checkout.push(String::from_str("checkout"));
        checkout.push(String::from_str(reference));
        proof {
            assert(clean@.map_values(|s: String| s@) =~= seq!["clean"@, "-fdx"@]);
            assert(checkout@.map_values(|s: String| s@) =~= seq!["checkout"@, reference@]);
        }
        (clean, checkout)
    }
}

} // verus!
