//! The source unifier: tags that survive the exclusion rules and cached
//! archives are merged into one ordered queue of analyzable units, each
//! under its canonical version label.

use vstd::prelude::*;
use vstd::string::StrSliceExecFns;
use vstd::string::StringExecFns;

use crate::git::Git;
use crate::kernels::CachedKernel;
use crate::text::ends_with_str;
use crate::text::has_suffix;
use crate::text::str_eq;

verus! {

/// An ASCII digit.
pub open spec fn is_digit_char(c: char) -> bool {
    48 <= c as u32 <= 57
}

/// `v` without its trailing ASCII digits.
pub open spec fn strip_trailing_digits(v: Seq<char>) -> Seq<char>
    decreases v.len(),
{
    if v.len() > 0 && is_digit_char(v.last()) {
        strip_trailing_digits(v.drop_last())
    } else {
        v
    }
}

/// Whether a tag is excluded from analysis: the literal `v2.6.11` (a known
/// non-commit marker tag), a tag ending in `-tree` or `-dontuse`, or a
/// release candidate — one that ends in `-rc` once its trailing digits are
/// stripped.
pub open spec fn spec_excluded(tag: Seq<char>) -> bool {
    ||| tag == "v2.6.11"@
    ||| has_suffix(tag, "-tree"@)
    ||| has_suffix(tag, "-dontuse"@)
    ||| has_suffix(strip_trailing_digits(tag), "-rc"@)
}

/// Apply the tag exclusion rules.
pub fn tag_excluded(tag: &str) -> (r: bool)
    ensures
        r == spec_excluded(tag@),
{
    if str_eq(tag, "v2.6.11") {
        return true;
    }
    if ends_with_str(tag, "-tree") {
        return true;
    }
    if ends_with_str(tag, "-dontuse") {
        return true;
    }
    let n = tag.unicode_len();
    let mut end: usize = n;
    proof {
        assert(tag@.take(n as int) =~= tag@);
    }
    loop
        invariant
            0 <= end <= n,
            n == tag@.len(),
            strip_trailing_digits(tag@) == strip_trailing_digits(tag@.take(end as int)),
        ensures
            0 <= end <= n,
            strip_trailing_digits(tag@) == tag@.take(end as int),
        decreases end,
    {
        if end == 0 {
            proof {
                assert(tag@.take(0) =~= Seq::<char>::empty());
            }
            break;
        }
        let c = tag.get_char(end - 1);
        let u = c as u32;
        if !(48 <= u && u <= 57) {
            proof {
                assert(tag@.take(end as int).last() == tag@[end - 1]);
            }
            break;
        }
        proof {
            assert(tag@.take(end as int).last() == tag@[end - 1]);
            assert(tag@.take(end as int).drop_last() =~= tag@.take(end - 1));
        }
        end -= 1;
    }
    let stripped = tag.substring_char(0, end);
    proof {
        assert(stripped@ =~= tag@.take(end as int));
    }
    ends_with_str(stripped, "-rc")
}

/// A kernel to analyze: either a cached archive that needs to be
/// unpacked, or a tag to check out in a git clone. Each unit carries
/// exactly one canonical version label.
#[derive(Debug)]
pub enum Kernel {
    /// A kernel tar.gz that needs to be unpacked.
    Cached {
        /// The label of the cached kernel: `v` + its version identifier.
        version: String,
        /// Path to the cached kernel archive.
        path: String,
    },
    /// A git directory tag.
    Git {
        /// The tag of the kernel.
        tag: String,
        /// The git handle for the kernel.
        git: Git,
    },
}

impl Kernel {
    /// The canonical version label of this unit.
    pub open spec fn spec_version(&self) -> Seq<char> {
        match self {
            Kernel::Cached { version, .. } => version@,
            Kernel::Git { tag, .. } => tag@,
        }
    }

    /// Get the version of the kernel.
    pub fn version(&self) -> (r: &str)
        ensures
            r@ == self.spec_version(),
    {
        match self {
            Kernel::Cached { version, .. } => version.as_str(),
            Kernel::Git { tag, .. } => tag.as_str(),
        }
    }
}

/// The label a cached archive is queued under: `v` + its version
/// identifier.
pub open spec fn spec_archive_label(version: Seq<char>) -> Seq<char> {
    "v"@ + version
}

/// The tags that survive the exclusion rules, in their given order.
pub open spec fn spec_kept_tags(tags: Seq<String>) -> Seq<String> {
    tags.filter(|t: String| !spec_excluded(t@))
}

/// Merge the cached archives and — when a clone is at hand — its
/// surviving tags into one queue: all archive units first, in acquisition
/// order, then all tag units, in tag-listing order. No de-duplication is
/// performed across the two sources.
pub fn build_queue(cached: &Vec<CachedKernel>, git: Option<&Git>, tags: &Vec<String>) -> (q: Vec<
    Kernel,
>)
    ensures
        git is Some ==> q@.len() == cached@.len() + spec_kept_tags(tags@).len(),
        git is None ==> q@.len() == cached@.len(),
        forall|i: int|
            0 <= i < cached@.len() ==> (#[trigger] q@[i] matches Kernel::Cached { version, path }
                && version@ == spec_archive_label(cached@[i].version.version@) && path@
                == cached@[i].path@),
        git matches Some(g) ==> (forall|j: int|
            0 <= j < spec_kept_tags(tags@).len() ==> (#[trigger] q@[cached@.len() + j]
                matches Kernel::Git { tag, git: unit_git } && tag == spec_kept_tags(tags@)[j]
                && unit_git == *g)),
{
    let mut q: Vec<Kernel> = Vec::new();
    let mut i: usize = 0;
    while i < cached.len()
        invariant
            0 <= i <= cached@.len(),
            q@.len() == i,
            forall|k: int|
                0 <= k < i ==> (#[trigger] q@[k] matches Kernel::Cached { version, path }
                    && version@ == spec_archive_label(cached@[k].version.version@) && path@
                    == cached@[k].path@),
        decreases cached@.len() - i,
    {
        let ck = &cached[i];
        let mut label = String::from_str("v");
        label.append(ck.version.version.as_str());
        q.push(Kernel::Cached { version: label, path: ck.path.clone() });
        i += 1;
    }
    if let Some(g) = git {
        let ghost base = cached@.len() as int;
        let mut j: usize = 0;
        proof {
            reveal(Seq::filter);
            assert(tags@.take(0) =~= Seq::<String>::empty());
        }
        while j < tags.len()
            invariant
                0 <= j <= tags@.len(),
                q@.len() == base + spec_kept_tags(tags@.take(j as int)).len(),
                base == cached@.len(),
                forall|k: int|
                    0 <= k < base ==> (#[trigger] q@[k] matches Kernel::Cached { version, path }
                        && version@ == spec_archive_label(cached@[k].version.version@) && path@
                        == cached@[k].path@),
                forall|k: int|
                    0 <= k < spec_kept_tags(tags@.take(j as int)).len() ==> (#[trigger] q@[base + k]
                        matches Kernel::Git { tag, git: unit_git } && tag == spec_kept_tags(
                        tags@.take(j as int),
                    )[k] && unit_git == *g),
            decreases tags@.len() - j,
        {
            let tag = &tags[j];
            let keep = !tag_excluded(tag.as_str());
            if keep {
                q.push(Kernel::Git { tag: tag.clone(), git: g.clone() });
            }
            j += 1;
            proof {
                reveal(Seq::filter);
                assert(tags@.take(j as int).drop_last() =~= tags@.take(j - 1));
                assert(tags@.take(j as int).last() == tags@[j - 1]);
            }
        }
        proof {
            assert(tags@.take(tags@.len() as int) =~= tags@);
        }
    }
    q
}

} // verus!
