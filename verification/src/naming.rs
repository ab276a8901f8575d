//! Local file names for downloaded pages: the page's position, a dot, and the
//! extension taken from the page's address.

use vstd::prelude::*;
use vstd::string::*;
use crate::decimal::{decimal_nat, lemma_decimal_injective, render_u64};

verus! {

/// Index of the last `.` in `s`, or -1 where `s` holds none.
pub open spec fn last_dot_index(s: Seq<char>) -> int
    decreases s.len(),
{
    if s.len() == 0 {
        -1
    } else if s.last() == '.' {
        s.len() - 1
    } else {
        last_dot_index(s.drop_last())
    }
}

/// What follows the last `.` of an address; empty where it holds no `.`.
pub open spec fn extension_of(url: Seq<char>) -> Seq<char> {
    let d = last_dot_index(url);
    if d < 0 {
        Seq::empty()
    } else {
        url.subrange(d + 1, url.len() as int)
    }
}

/// The file name of the page at position `index` whose address is `url`.
pub open spec fn page_name(url: Seq<char>, index: nat) -> Seq<char> {
    decimal_nat(index) + seq!['.'] + extension_of(url)
}

/// Where a page is stored: a directory and the page's file name in it.
#[derive(Debug)]
pub struct DownloadPath {
    pub directory: String,
    pub file_name: String,
}

/// `last_dot_index` ignores a tail that holds no dot.
pub proof fn lemma_last_dot_skips_tail(s: Seq<char>, k: int)
    requires
        0 <= k <= s.len(),
        forall|j: int| k <= j < s.len() ==> s[j] != '.',
    ensures
        last_dot_index(s) == last_dot_index(s.subrange(0, k)),
    decreases s.len() - k,
{
    if k == s.len() {
        assert(s.subrange(0, k) =~= s);
    } else {
        assert(s.last() != '.');
        lemma_last_dot_skips_tail(s.drop_last(), k);
        assert(s.drop_last().subrange(0, k) =~= s.subrange(0, k));
    }
}

/// The extension of an address: what follows its last `.`, or nothing where
/// it has none.
pub fn url_extension(url: &str) -> (ext: String)
    ensures
        ext@ == extension_of(url@),
{
    let n = url.unicode_len();
    let mut i: usize = n;
    while i > 0
        invariant
            i <= n,
            n == url@.len(),
            forall|j: int| i <= j < n ==> url@[j] != '.',
        decreases i,
    {
        if url.get_char(i - 1) == '.' {
            proof {
                lemma_last_dot_skips_tail(url@, i as int);
                assert(url@.subrange(0, i as int).last() == '.');
            }
            return String::from_str(url.substring_char(i, n));
        }
        i = i - 1;
    }
    proof {
        lemma_last_dot_skips_tail(url@, 0);
        assert(url@.subrange(0, 0).len() == 0);
    }
    String::new()
}

/// The local file name of the page at position `index` whose address is `url`:
/// the position in decimal, a dot, and the address's extension.
pub fn page_file_name(url: &str, index: usize) -> (name: String)
    ensures
        name@ == page_name(url@, index as nat),
{
    let mut name = render_u64(index as u64);
    let ext = url_extension(url);
    proof {
        reveal_strlit(".");
    }
    name.append(".");
    name.append(ext.as_str());
    assert(name@ =~= page_name(url@, index as nat));
    name
}

/// Where the page at position `index` is stored under `temp_dir`.
pub fn url_to_download_path(url: &str, index: usize, temp_dir: &str) -> (path: DownloadPath)
    ensures
        path.directory@ == temp_dir@,
        path.file_name@ == page_name(url@, index as nat),
{
    DownloadPath { directory: String::from_str(temp_dir), file_name: page_file_name(url, index) }
}

/// Pages of one chapter at different positions never share a file name.
pub proof fn lemma_page_names_distinct(url: Seq<char>, i: nat, j: nat)
    requires
        i != j,
    ensures
        page_name(url, i) != page_name(url, j),
{
    let tail = seq!['.'] + extension_of(url);
    let a = decimal_nat(i);
    let b = decimal_nat(j);
    assert(page_name(url, i) =~= a + tail);
    assert(page_name(url, j) =~= b + tail);
    if a + tail == b + tail {
        assert((a + tail).len() == (b + tail).len());
        assert(a.len() == b.len());
        assert((a + tail).subrange(0, a.len() as int) =~= a);
        assert((b + tail).subrange(0, b.len() as int) =~= b);
        lemma_decimal_injective(i, j);
    }
}

/// The last `.` of an address is a `.` with none after it, so that the
/// extension holds no `.`.
pub proof fn lemma_extension_has_no_dot(url: Seq<char>)
    ensures
        !extension_of(url).contains('.'),
        -1 <= last_dot_index(url) < url.len(),
        last_dot_index(url) >= 0 ==> url[last_dot_index(url)] == '.',
        forall|j: int| last_dot_index(url) < j < url.len() ==> url[j] != '.',
    decreases url.len(),
{
    if url.len() > 0 && url.last() != '.' {
        let front = url.drop_last();
        lemma_extension_has_no_dot(front);
        assert forall|j: int| last_dot_index(url) < j < url.len() implies url[j] != '.' by {
            if j < front.len() {
                assert(front[j] != '.');
            }
        }
    }
    let d = last_dot_index(url);
    let e = extension_of(url);
    if e.contains('.') {
        let k = choose|k: int| 0 <= k < e.len() && e[k] == '.';
        assert(url[d + 1 + k] == '.');
    }
}

} // verus!
