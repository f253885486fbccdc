use vstd::prelude::*;
use vstd::string::*;
use vstd::std_specs::cmp::{PartialOrdSpec, PartialOrdSpecImpl};
use std::cmp::Ordering;

verus! {

/// Compression level that should be used when compressing a file or data.
/// Current compression providers support only levels from 0 to 9, so these are the only ones
/// being supported.
#[derive(Debug, Clone, Copy, PartialEq, Eq, Structural, Ord)]
pub struct CompressionLevel(u8);

impl CompressionLevel {
    #[verifier::type_invariant]
    spec fn in_range(self) -> bool {
        self.0 <= 9
    }

    /// The numeric level held by this value.
    pub closed spec fn level(self) -> u8 {
        self.0
    }

    /// A level is accepted exactly when it lies in `0..=9`.
    #[inline]
    pub fn new(level: u8) -> (res: Option<Self>)
        ensures
            res is Some <==> level <= 9,
            res matches Some(c) ==> c.level() == level,
    {
        if level <= 9 {
            Some(Self(level))
        } else {
            None
        }
    }

    #[inline]
    pub fn none() -> (res: Self)
        ensures
            res.level() == 0,
    {
        Self(0)
    }

    #[inline]
    pub fn fast() -> (res: Self)
        ensures
            res.level() == 1,
    {
        Self(1)
    }

    #[inline]
    pub fn balanced() -> (res: Self)
        ensures
            res.level() == 6,
    {
        Self(6)
    }

    #[inline]
    pub fn best() -> (res: Self)
        ensures
            res.level() == 9,
    {
        Self(9)
    }

    #[inline]
    pub fn get(self) -> (res: u8)
        ensures
            res == self.level(),
            res <= 9,
    {
        proof {
            use_type_invariant(&self);
        }
        self.0
    }
}

impl PartialOrd for CompressionLevel {
    /// Levels are ordered by their numbers.
    fn partial_cmp(&self, other: &Self) -> (res: Option<Ordering>) {
        if self.0 < other.0 {
            Some(Ordering::Less)
        } else if self.0 > other.0 {
            Some(Ordering::Greater)
        } else {
            Some(Ordering::Equal)
        }
    }
}

impl PartialOrdSpecImpl for CompressionLevel {
    open spec fn obeys_partial_cmp_spec() -> bool {
        true
    }

    open spec fn partial_cmp_spec(&self, other: &Self) -> Option<Ordering> {
        if self.level() < other.level() {
            Some(Ordering::Less)
        } else if self.level() > other.level() {
            Some(Ordering::Greater)
        } else {
            Some(Ordering::Equal)
        }
    }
}

/// A compression level is identified by its number: two levels are the same value exactly
/// when they hold the same level.
pub proof fn lemma_level_identifies(a: CompressionLevel, b: CompressionLevel)
    ensures
        (a == b) <==> (a.level() == b.level()),
{
}

/// Compression levels are ordered as their numbers: `a < b` exactly when `a`'s level is
/// smaller, and they compare equal exactly when they are the same level.
pub proof fn lemma_order_follows_level(a: CompressionLevel, b: CompressionLevel)
    ensures
        (PartialOrdSpec::partial_cmp_spec(&a, &b) == Some(Ordering::Less)) <==> (a.level() < b.level()),
        (PartialOrdSpec::partial_cmp_spec(&a, &b) == Some(Ordering::Equal)) <==> (a == b),
        (PartialOrdSpec::partial_cmp_spec(&a, &b) == Some(Ordering::Greater)) <==> (a.level() > b.level()),
{
}

impl Default for CompressionLevel {
    fn default() -> (res: Self)
        ensures
            res.level() == 6,
    {
        Self::balanced()
    }
}

/// A trait of types which wish to hear progress updates on the unzip.
pub trait UnzipProgressReporter: Sync {
    /// Extraction has begun on a file.
    fn extraction_starting(&self, _display_name: &str) {
    }

    /// Extraction has finished on a file.
    fn extraction_finished(&self, _display_name: &str) {
    }

    /// The total number of compressed bytes we expect to extract.
    fn total_bytes_expected(&self, _expected: u64) {
    }

    /// Some bytes of a file have been decompressed. This is probably the best way to display
    /// an overall progress bar. This should eventually add up to the number you're given using
    /// `total_bytes_expected`. The `count` parameter is not a running total: add up each call
    /// into the running total.
    fn bytes_extracted(&self, _count: u64) {
    }
}

/// A progress reporter which does nothing.
pub struct NullProgressReporter;

impl UnzipProgressReporter for NullProgressReporter {

}

/// A path with every backslash turned into a forward slash.
pub open spec fn forward_slashes(s: Seq<char>) -> Seq<char> {
    s.map_values(|c: char| if c == '\\' { '/' } else { c })
}

/// The name of a zip entry for a path relative to the compressed directory: the zip
/// specification requires forward slashes.
pub fn zip_entry_name(relative: &str) -> (res: String)
    ensures
        res@ == forward_slashes(relative@),
{
    let n = relative.unicode_len();
    let mut out = String::new();
    let mut i: usize = 0;
    while i < n
        invariant
            n == relative@.len(),
            i <= n,
            out@ == forward_slashes(relative@.take(i as int)),
        decreases n - i,
    {
        let c = relative.get_char(i);
        let ghost before = out@;
        if c == '\\' {
            let slash = "/";
            proof {
                reveal_strlit("/");
            }
            out.append(slash);
        } else {
            out.append(relative.substring_char(i, i + 1));
        }
        proof {
            assert(relative@.take(i + 1) =~= relative@.take(i as int).push(c));
            assert(forward_slashes(relative@.take(i + 1)) =~= before.push(
                if c == '\\' { '/' } else { c },
            ));
        }
        i = i + 1;
    }
    proof {
        assert(relative@.take(n as int) =~= relative@);
    }
    out
}

/// What compressing a directory does with one entry of the walk.
#[derive(Debug, Clone, Copy, PartialEq, Eq, Structural)]
pub enum ZipEntryAction {
    /// Add a directory entry.
    AddDirectory,
    /// Add a file entry with the file's bytes.
    AddFile,
    /// Leave it out (the root directory itself, whose name is empty).
    Skip,
}

/// Directories are added by name, except the root (empty name); files are added with their
/// contents.
pub fn zip_entry_action(is_dir: bool, name: &str) -> (res: ZipEntryAction)
    ensures
        res == (if is_dir {
            if name@.len() == 0 {
                ZipEntryAction::Skip
            } else {
                ZipEntryAction::AddDirectory
            }
        } else {
            ZipEntryAction::AddFile
        }),
{
    if is_dir {
        if !name.is_empty() {
            ZipEntryAction::AddDirectory
        } else {
            ZipEntryAction::Skip
        }
    } else {
        ZipEntryAction::AddFile
    }
}

/// Entry names hold no backslash and keep the relative path's length, character by character.
pub proof fn lemma_forward_slashes(s: Seq<char>)
    ensures
        forward_slashes(s).len() == s.len(),
        !forward_slashes(s).contains('\\'),
        forall|i: int| 0 <= i < s.len() && s[i] != '\\' ==> #[trigger] forward_slashes(s)[i] == s[i],
{
    if forward_slashes(s).contains('\\') {
        let j = choose|j: int| 0 <= j < forward_slashes(s).len() && forward_slashes(s)[j] == '\\';
        assert(forward_slashes(s)[j] == (if s[j] == '\\' { '/' } else { s[j] }));
    }
}

/// The sum of the sizes.
pub open spec fn sum_sizes(sizes: Seq<u64>) -> int
    decreases sizes.len(),
{
    if sizes.len() == 0 {
        0
    } else {
        sum_sizes(sizes.drop_last()) + sizes.last()
    }
}

/// The compressed bytes an extraction announces with `total_bytes_expected`: the sum of the
/// compressed sizes of the entries it extracts (saturating at `u64::MAX`), so that the counts
/// it later reports with `bytes_extracted`, one per entry, add up to it.
pub fn total_compressed_bytes(sizes: &[u64]) -> (res: u64)
    ensures
        res == (if sum_sizes(sizes@) <= u64::MAX {
            sum_sizes(sizes@)
        } else {
            u64::MAX as int
        }),
{
    let n = sizes.len();
    let mut total: u64 = 0;
    let mut i: usize = 0;
    while i < n
        invariant
            n == sizes@.len(),
            i <= n,
            total == (if sum_sizes(sizes@.take(i as int)) <= u64::MAX {
                sum_sizes(sizes@.take(i as int))
            } else {
                u64::MAX as int
            }),
        decreases n - i,
    {
        let x = sizes[i];
        proof {
            assert(sizes@.take(i + 1).drop_last() =~= sizes@.take(i as int));
        }
        if total > u64::MAX - x {
            total = u64::MAX;
        } else {
            total = total + x;
        }
        i = i + 1;
    }
    proof {
        assert(sizes@.take(n as int) =~= sizes@);
    }
    total
}

} // verus!
