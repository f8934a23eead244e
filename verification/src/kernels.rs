//! The release catalog: known kernel releases, the mirror-relative path
//! each one is downloaded from, and the restriction of the catalog to the
//! important releases.

use vstd::prelude::*;
use vstd::string::StrSliceExecFns;
use vstd::string::StringExecFns;

use crate::error::Error;
use crate::text::char_index;
use crate::text::find_from;
use crate::text::str_eq;

verus! {

/// Base URL of the mirror that serves the release archives.
pub const URL_BASE: &'static str = "https://mirrors.kernel.org/pub/linux/kernel";

/// The full catalog of known kernel releases.
#[derive(Debug)]
pub struct Kernels {
    pub releases: Vec<KernelRelease>,
}

/// One catalog entry: a dotted version identifier, whether the release
/// belongs to the curated important subset, and an optional override of
/// the mirror-relative download path.
#[derive(Debug)]
pub struct KernelRelease {
    /// If this version is important.
    pub important: bool,
    /// The dotted version identifier, e.g. `2.6.11`.
    pub version: String,
    /// Custom path to download the kernel, relative to the mirror.
    pub path: Option<String>,
}

impl Clone for KernelRelease {
    /// An exact copy, field by field.
    fn clone(&self) -> (r: Self)
        ensures
            r == *self,
    {
        KernelRelease {
            important: self.important,
            version: self.version.clone(),
            path: match &self.path {
                Some(p) => Some(p.clone()),
                None => None,
            },
        }
    }
}

/// The first dot-separated component of a version identifier.
pub open spec fn spec_major(v: Seq<char>) -> Seq<char> {
    let i = char_index(v, '.');
    if i < v.len() {
        v.take(i)
    } else {
        v
    }
}

/// The second dot-separated component of a version identifier, or `x`
/// when the identifier has a single component.
pub open spec fn spec_minor(v: Seq<char>) -> Seq<char> {
    let i = char_index(v, '.');
    if i < v.len() {
        let rest = v.skip(i + 1);
        let j = char_index(rest, '.');
        if j < rest.len() {
            rest.take(j)
        } else {
            rest
        }
    } else {
        "x"@
    }
}

/// The file-name stem of a release archive on the mirror. Every release
/// is named `linux-{version}`, except `1.1.0`, which the mirror stores as
/// `v1.1.0` — a documented historical naming exception.
pub open spec fn spec_archive_stem(v: Seq<char>) -> Seq<char> {
    if v == "1.1.0"@ {
        "v"@ + v
    } else {
        "linux-"@ + v
    }
}

impl KernelRelease {
    /// The mirror-relative download path: the override when one is set,
    /// else `v{major}.{minor}/{stem}.tar.gz`.
    pub open spec fn spec_path(&self) -> Seq<char> {
        match self.path {
            Some(p) => p@,
            None => "v"@ + spec_major(self.version@) + "."@ + spec_minor(self.version@) + "/"@
                + spec_archive_stem(self.version@) + ".tar.gz"@,
        }
    }

    /// The full download URL: the mirror base joined with `spec_path`.
    pub open spec fn spec_url(&self) -> Seq<char> {
        "https://mirrors.kernel.org/pub/linux/kernel"@ + "/"@ + self.spec_path()
    }

    /// Derive the mirror-relative download path of this release.
    pub(crate) fn mirror_path(&self) -> (r: String)
        ensures
            r@ == self.spec_path(),
    {
        if let Some(p) = &self.path {
            return p.clone();
        }
        let version: &str = self.version.as_str();
        let n: usize = version.unicode_len();
        let i: usize = find_from(version, '.', 0);
        proof {
            assert(version@.skip(0) =~= version@);
        }
        let mut out = String::from_str("v");
        if i == n {
            out.append(version);
            out.append(".");
            out.append("x");
        } else {
            let major = version.substring_char(0, i);
            out.append(major);
            out.append(".");
            let j: usize = find_from(version, '.', i + 1);
            let minor = version.substring_char(i + 1, j);
            out.append(minor);
            proof {
                let rest = version@.skip(i + 1);
                if j == n {
                    assert(minor@ =~= rest);
                } else {
                    assert(minor@ =~= rest.take(j - i - 1));
                }
                assert(minor@ == spec_minor(version@));
                assert(major@ =~= version@.take(i as int));
            }
        }
        out.append("/");
        if str_eq(version, "1.1.0") {
            out.append("v");
        } else {
            out.append("linux-");
        }
        out.append(version);
        out.append(".tar.gz");
        proof {
            assert(out@ =~= self.spec_path());
        }
        out
    }

    /// Get the downloadable URL for the given kernel version.
    ///
    /// Derivation is a pure function of the catalog entry and never fails;
    /// the `Result` is kept so that callers treat acquisition uniformly.
    pub fn tar_gz_url(&self) -> (r: Result<String, Error>)
        ensures
            r is Ok,
            r matches Ok(u) && u@ == self.spec_url(),
    {
        let path = self.mirror_path();
        let mut url = String::from_str(URL_BASE);
        url.append("/");
        url.append(path.as_str());
        Ok(url)
    }
}

/// The subsequence of `releases` whose entries are marked important.
pub open spec fn important_only(releases: Seq<KernelRelease>) -> Seq<KernelRelease> {
    releases.filter(|k: KernelRelease| k.important)
}

/// Restrict a catalog to its important releases, keeping their order.
pub fn filter_important(releases: &Vec<KernelRelease>) -> (r: Vec<KernelRelease>)
    ensures
        r@ == important_only(releases@),
{
    let mut out: Vec<KernelRelease> = Vec::new();
    let mut i: usize = 0;
    proof {
        reveal(Seq::filter);
        assert(releases@.take(0) =~= Seq::<KernelRelease>::empty());
    }
    while i < releases.len()
        invariant
            0 <= i <= releases@.len(),
            out@ == important_only(releases@.take(i as int)),
        decreases releases@.len() - i,
    {
        let k = &releases[i];
        if k.important {
            out.push(k.clone());
        }
        i += 1;
        proof {
            reveal(Seq::filter);
            assert(releases@.take(i as int).drop_last() =~= releases@.take(i - 1));
            assert(releases@.take(i as int).last() == releases@[i - 1]);
        }
    }
    proof {
        assert(releases@.take(releases@.len() as int) =~= releases@);
    }
    out
}

/// Laws of the importance filter: it keeps only important entries, every
/// kept entry comes from the catalog, and filtering twice is the same as
/// filtering once.
pub proof fn lemma_important_only_properties(releases: Seq<KernelRelease>)
    ensures
        forall|i: int|
            0 <= i < important_only(releases).len() ==> (#[trigger] important_only(releases)[i]).important,
        forall|i: int|
            0 <= i < important_only(releases).len() ==> releases.contains(
                #[trigger] important_only(releases)[i],
            ),
        important_only(important_only(releases)) == important_only(releases),
    decreases releases.len(),
{
    reveal(Seq::filter);
    let pred = |k: KernelRelease| k.important;
    if releases.len() == 0 {
        assert(releases =~= Seq::<KernelRelease>::empty());
        assert(important_only(releases) =~= Seq::<KernelRelease>::empty());
    } else {
        let rest = releases.drop_last();
        lemma_important_only_properties(rest);
        let last = releases.last();
        if pred(last) {
            assert(important_only(releases) == important_only(rest).push(last));
            assert(important_only(releases).drop_last() =~= important_only(rest));
            assert forall|i: int|
                0 <= i < important_only(releases).len() implies releases.contains(
                #[trigger] important_only(releases)[i],
            ) by {
                if i < important_only(rest).len() {
                    assert(rest.contains(important_only(rest)[i]));
                    let w = choose|w: int| 0 <= w < rest.len() && rest[w] == important_only(rest)[i];
                    assert(releases[w] == important_only(releases)[i]);
                } else {
                    assert(important_only(releases)[i] == last);
                    assert(releases[releases.len() - 1] == last);
                }
            }
            assert(important_only(important_only(releases)) == important_only(
                important_only(rest),
            ).push(last));
        } else {
            assert(important_only(releases) == important_only(rest));
            assert forall|i: int|
                0 <= i < important_only(releases).len() implies releases.contains(
                #[trigger] important_only(releases)[i],
            ) by {
                assert(rest.contains(important_only(rest)[i]));
                let w = choose|w: int| 0 <= w < rest.len() && rest[w] == important_only(rest)[i];
                assert(releases[w] == important_only(releases)[i]);
            }
        }
    }
}

/// A release archive held in the local cache directory; its file passed
/// archive verification when it was written or accepted.
#[derive(Debug)]
pub struct CachedKernel {
    /// The catalog entry the archive belongs to.
    pub version: KernelRelease,
    /// Where the archive lies in the cache directory.
    pub path: String,
}

impl Clone for CachedKernel {
    /// An exact copy, field by field.
    fn clone(&self) -> (r: Self)
        ensures
            r == *self,
    {
        CachedKernel { version: self.version.clone(), path: self.path.clone() }
    }
}

} // verus!
