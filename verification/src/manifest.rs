//! Types that mirror the Plutonium CDN manifest JSON.
//!
//! Protocol:
//!   GET https://cdn.plutonium.pw/updater/prod.json  → ProdJson
//!   for each url in prod.manifests:
//!     GET url  → InfoJson
//!   Download each InfoJson.files entry via baseUrl + file.hash (NOT file.name).

use vstd::prelude::*;

use crate::patch::INDEX_HTML_PATH;

verus! {

/// Root manifest: https://cdn.plutonium.pw/updater/prod.json
#[derive(Debug)]
pub struct ProdJson {
    /// URLs to fetch for per-file listings.
    pub manifests: Vec<String>,
    /// Relative path (from install dir) to the binary to launch after update.
    pub launch_target: String,
    /// Glob patterns of files to delete when no manifest lists them.
    /// Parsed but not acted on.
    pub yeet: Vec<String>,
}

/// Per-manifest file listing: https://cdn.plutoniummod.com/updater/prod/info.json
#[derive(Debug)]
pub struct InfoJson {
    pub revision: u64,
    /// Prefix for content-addressed downloads.  Append `file.hash` to get the URL.
    pub base_url: String,
    pub files: Vec<FileEntry>,
}

#[derive(Debug, Clone)]
pub struct FileEntry {
    /// Relative path under the install dir, e.g. "launcher/assets/index.html".
    pub name: String,
    pub size: u64,
    /// Lowercase hex SHA1.
    pub hash: String,
}

/// The sum of the manifest revisions, as a mathematical integer.
pub open spec fn revision_sum(revisions: Seq<u64>) -> int
    decreases revisions.len(),
{
    if revisions.len() == 0 {
        0
    } else {
        revision_sum(revisions.drop_last()) + revisions.last()
    }
}

/// The total revision written to the local info cache: the sum of the
/// revisions of all manifests, or `None` when it does not fit in a `u64`.
pub fn total_revision(revisions: &Vec<u64>) -> (res: Option<u64>)
    ensures
        match res {
            Some(t) => t == revision_sum(revisions@),
            None => revision_sum(revisions@) > u64::MAX,
        },
{
    let mut total: u64 = 0;
    let mut i: usize = 0;
    while i < revisions.len()
        invariant
            i <= revisions.len(),
            total == revision_sum(revisions@.take(i as int)),
        decreases revisions.len() - i,
    {
        assert(revisions@.take(i + 1).drop_last() =~= revisions@.take(i as int));
        match total.checked_add(revisions[i]) {
            Some(t) => {
                total = t;
            },
            None => {
                proof {
                    lemma_revision_sum_monotone(revisions@, i + 1);
                }
                return None;
            },
        }
        i = i + 1;
    }
    assert(revisions@.take(i as int) =~= revisions@);
    Some(total)
}

/// The revision total adds up: no manifests total zero, one manifest totals
/// its own revision, and the total of two lists of manifests is the sum of
/// their totals.
pub proof fn lemma_revision_sum_adds(a: Seq<u64>, b: Seq<u64>, x: u64)
    ensures
        revision_sum(Seq::<u64>::empty()) == 0,
        revision_sum(seq![x]) == x,
        revision_sum(a + b) == revision_sum(a) + revision_sum(b),
    decreases b.len(),
{
    assert(seq![x].drop_last() =~= Seq::<u64>::empty());
    if b.len() == 0 {
        assert(a + b =~= a);
    } else {
        assert((a + b).drop_last() =~= a + b.drop_last());
        lemma_revision_sum_adds(a, b.drop_last(), x);
    }
}

/// A prefix never sums to more than the whole sequence.
pub proof fn lemma_revision_sum_monotone(revisions: Seq<u64>, n: int)
    requires
        0 <= n <= revisions.len(),
    ensures
        revision_sum(revisions.take(n)) <= revision_sum(revisions),
    decreases revisions.len(),
{
    if n < revisions.len() {
        assert(revisions.drop_last().take(n) =~= revisions.take(n));
        lemma_revision_sum_monotone(revisions.drop_last(), n);
    } else {
        assert(revisions.take(n) =~= revisions);
    }
}

/// `i` is the first entry named like the launcher page.
pub open spec fn is_first_index_html(files: Seq<FileEntry>, i: int) -> bool {
    &&& 0 <= i < files.len()
    &&& files[i].name@ == INDEX_HTML_PATH@
    &&& forall|j: int| 0 <= j < i ==> files[j].name@ != INDEX_HTML_PATH@
}

/// Position of the first manifest entry for the launcher page, if any.
pub fn find_index_html(files: &Vec<FileEntry>) -> (res: Option<usize>)
    ensures
        match res {
            Some(i) => is_first_index_html(files@, i as int),
            None => forall|j: int| 0 <= j < files@.len() ==> files@[j].name@ != INDEX_HTML_PATH@,
        },
{
    let target = String::from_str(INDEX_HTML_PATH);
    let mut i: usize = 0;
    while i < files.len()
        invariant
            i <= files.len(),
            target@ == INDEX_HTML_PATH@,
            forall|j: int| 0 <= j < i ==> files@[j].name@ != INDEX_HTML_PATH@,
        decreases files.len() - i,
    {
        if files[i].name == target {
            return Some(i);
        }
        i = i + 1;
    }
    None
}

} // verus!
