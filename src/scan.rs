use crate::string_views;
use vstd::prelude::*;

verus! {

/// A name carries the `png` extension: it ends in `.png` and something comes
/// before that dot (a name that is only `.png` has no extension).
pub open spec fn has_png_extension(name: Seq<char>) -> bool {
    name.len() >= 5 && name.subrange(name.len() - 4, name.len() as int) == seq!['.', 'p', 'n', 'g']
}

/// The names, in listing order, of the entries that are regular files with the
/// `png` extension.
pub open spec fn frame_names(entries: Seq<(String, bool)>) -> Seq<Seq<char>>
    decreases entries.len(),
{
    if entries.len() == 0 {
        Seq::empty()
    } else {
        let last = entries.last();
        let rest = frame_names(entries.drop_last());
        if last.1 && has_png_extension(last.0@) {
            rest.push(last.0@)
        } else {
            rest
        }
    }
}

/// Whether a file name carries the `png` extension.
pub fn is_png_name(name: &str) -> (r: bool)
    ensures
        r == has_png_extension(name@),
{
    let n = name.unicode_len();
    if n < 5 {
        return false;
    }
    let r = name.get_char(n - 4) == '.' && name.get_char(n - 3) == 'p' && name.get_char(n - 2) == 'n'
        && name.get_char(n - 1) == 'g';
    assert(r == has_png_extension(name@)) by {
        if r {
            assert(name@.subrange(n - 4, n as int) =~= seq!['.', 'p', 'n', 'g']);
        }
        if has_png_extension(name@) {
            let t = name@.subrange(n - 4, n as int);
            assert(t[0] == name@[n - 4]);
            assert(t[1] == name@[n - 3]);
            assert(t[2] == name@[n - 2]);
            assert(t[3] == name@[n - 1]);
        }
    }
    r
}

/// Picks out the frame files of a directory listing. Each entry is a file
/// name and whether it is a regular file; the listing order is kept.
pub fn select_frames(entries: &Vec<(String, bool)>) -> (r: Vec<String>)
    ensures
        string_views(r@) == frame_names(entries@),
{
    let mut out: Vec<String> = Vec::new();
    let mut i: usize = 0;
    while i < entries.len()
        invariant
            i <= entries@.len(),
            string_views(out@) == frame_names(entries@.subrange(0, i as int)),
        decreases entries.len() - i,
    {
        let ghost before = out@;
        let is_file = entries[i].1;
        if is_file && is_png_name(entries[i].0.as_str()) {
            out.push(entries[i].0.clone());
            assert(string_views(out@) =~= string_views(before).push(entries@[i as int].0@));
        }
        assert(entries@.subrange(0, i + 1).drop_last() =~= entries@.subrange(0, i as int));
        i = i + 1;
    }
    assert(entries@.subrange(0, i as int) =~= entries@);
    out
}

/// Relies on `slice::sort` for `String`: the names come out reordered, none
/// added or lost.
#[verifier::external_body]
fn sort_names(names: &mut Vec<String>)
    ensures
        string_views(final(names)@).to_multiset() == string_views(old(names)@).to_multiset(),
{
    names.sort();
}

/// The frame files of a directory listing, sorted by name so that the order
/// in which a batch handles them does not depend on the file system.
pub fn scan_frames(entries: &Vec<(String, bool)>) -> (r: Vec<String>)
    ensures
        string_views(r@).to_multiset() == frame_names(entries@).to_multiset(),
{
    let mut names = select_frames(entries);
    sort_names(&mut names);
    names
}

} // verus!
