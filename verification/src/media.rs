//! The media catalog: filtering a directory listing down to the files whose
//! extension names a supported media format.

use crate::text::ci_matches;
use crate::text::str_eq_ci;
use vstd::prelude::*;

verus! {

/// A playable media file: its bare name and the filesystem path it is read
/// from.
#[derive(Debug, Clone)]
pub struct MediaFile {
    pub name: String,
    pub path: String,
}

/// The mathematical image of a `MediaFile`.
pub ghost struct MediaFileView {
    pub name: Seq<char>,
    pub path: Seq<char>,
}

impl View for MediaFile {
    type V = MediaFileView;

    open spec fn view(&self) -> MediaFileView {
        MediaFileView { name: self.name@, path: self.path@ }
    }
}

/// One directory entry as the filesystem reports it: the entry's bare name,
/// its full path, and whether it is a regular file.
#[derive(Debug, Clone)]
pub struct FsEntry {
    pub name: String,
    pub path: String,
    pub is_file: bool,
}

/// The mathematical image of an `FsEntry`.
pub ghost struct FsEntryView {
    pub name: Seq<char>,
    pub path: Seq<char>,
    pub is_file: bool,
}

impl View for FsEntry {
    type V = FsEntryView;

    open spec fn view(&self) -> FsEntryView {
        FsEntryView { name: self.name@, path: self.path@, is_file: self.is_file }
    }
}

/// The position of the last `.` in `s`, if any.
pub open spec fn last_dot(s: Seq<char>) -> Option<int>
    decreases s.len(),
{
    if s.len() == 0 {
        None
    } else if s[s.len() - 1] == '.' {
        Some(s.len() - 1)
    } else {
        last_dot(s.drop_last())
    }
}

/// The extension of the file name `s`: the text after the last dot, provided
/// that dot is not the leading character.
pub open spec fn extension_of(s: Seq<char>) -> Option<Seq<char>> {
    match last_dot(s) {
        None => None,
        Some(d) => if d == 0 {
            None
        } else {
            Some(s.subrange(d + 1, s.len() as int))
        },
    }
}

proof fn lemma_last_dot_none(s: Seq<char>)
    requires
        forall|t: int| 0 <= t < s.len() ==> s[t] != '.',
    ensures
        last_dot(s) is None,
    decreases s.len(),
{
    if s.len() > 0 {
        lemma_last_dot_none(s.drop_last());
    }
}

proof fn lemma_last_dot_at(s: Seq<char>, d: int)
    requires
        0 <= d < s.len(),
        s[d] == '.',
        forall|t: int| d < t < s.len() ==> s[t] != '.',
    ensures
        last_dot(s) == Some(d),
    decreases s.len(),
{
    if d < s.len() - 1 {
        lemma_last_dot_at(s.drop_last(), d);
    }
}

/// Splits the extension off a file name.
pub fn extension_of_name(name: &str) -> (r: Option<String>)
    ensures
        r matches Some(e) ==> extension_of(name@) == Some(e@),
        r is None ==> extension_of(name@) is None,
{
    let n = name.unicode_len();
    let mut i: usize = n;
    loop
        invariant
            i <= n,
            n == name@.len(),
            forall|t: int| i <= t < n ==> name@[t] != '.',
        ensures
            i <= n,
            n == name@.len(),
            forall|t: int| i <= t < n ==> name@[t] != '.',
            i == 0 || name@[i - 1] == '.',
        decreases i,
    {
        if i == 0 {
            break ;
        }
        if name.get_char(i - 1) == '.' {
            break ;
        }
        i -= 1;
    }
    if i == 0 {
        proof {
            lemma_last_dot_none(name@);
        }
        None
    } else if i == 1 {
        proof {
            lemma_last_dot_at(name@, 0);
        }
        None
    } else {
        proof {
            lemma_last_dot_at(name@, i - 1);
        }
        let e = name.substring_char(i, n);
        Some(String::from_str(e))
    }
}

/// The extension `s` names one of the supported media formats, compared
/// without regard to ASCII case.
pub open spec fn is_supported_ext(s: Seq<char>) -> bool {
    ||| ci_matches(s, "mp4"@)
    ||| ci_matches(s, "mkv"@)
    ||| ci_matches(s, "avi"@)
    ||| ci_matches(s, "mp3"@)
}

/// Decides whether a file extension names a supported media format.
pub fn is_supported_format(ext: &str) -> (r: bool)
    ensures
        r == is_supported_ext(ext@),
{
    str_eq_ci(ext, "mp4") || str_eq_ci(ext, "mkv") || str_eq_ci(ext, "avi") || str_eq_ci(
        ext,
        "mp3",
    )
}

/// An entry joins the catalog exactly when it is a regular file whose name
/// carries a supported extension.
pub open spec fn catalog_keeps(e: FsEntryView) -> bool {
    e.is_file && (extension_of(e.name) matches Some(x) && is_supported_ext(x))
}

/// The catalog record an entry contributes.
pub open spec fn catalog_record(e: FsEntryView) -> MediaFileView {
    MediaFileView { name: e.name, path: e.path }
}

/// The catalog built from a directory listing, in listing order.
pub open spec fn catalog_of(entries: Seq<FsEntryView>) -> Seq<MediaFileView>
    decreases entries.len(),
{
    if entries.len() == 0 {
        Seq::empty()
    } else {
        catalog_of(entries.drop_last()) + (if catalog_keeps(entries.last()) {
            seq![catalog_record(entries.last())]
        } else {
            Seq::empty()
        })
    }
}

/// The images of a sequence of directory entries.
pub open spec fn entry_views(s: Seq<FsEntry>) -> Seq<FsEntryView> {
    s.map_values(|e: FsEntry| e@)
}

/// The images of a sequence of media files.
pub open spec fn media_views(s: Seq<MediaFile>) -> Seq<MediaFileView> {
    s.map_values(|f: MediaFile| f@)
}

/// Filters a directory listing down to the supported media files, keeping
/// the listing's order.
pub fn catalog_from_listing(entries: &Vec<FsEntry>) -> (r: Vec<MediaFile>)
    ensures
        media_views(r@) == catalog_of(entry_views(entries@)),
{
    let mut r: Vec<MediaFile> = Vec::new();
    let mut i: usize = 0;
    while i < entries.len()
        invariant
            i <= entries.len(),
            media_views(r@) == catalog_of(entry_views(entries@).take(i as int)),
        decreases entries.len() - i,
    {
        let e = &entries[i];
        let keep = if e.is_file {
            match extension_of_name(e.name.as_str()) {
                Some(x) => is_supported_format(x.as_str()),
                None => false,
            }
        } else {
            false
        };
        proof {
            assert(keep == catalog_keeps(entries@[i as int]@));
        }
        if keep {
            r.push(MediaFile { name: e.name.clone(), path: e.path.clone() });
        }
        proof {
            let evs = entry_views(entries@);
            assert(evs.take(i + 1).drop_last() =~= evs.take(i as int));
            assert(evs.take(i + 1).last() == entries@[i as int]@);
            assert(media_views(r@) =~= catalog_of(evs.take(i + 1)));
        }
        i += 1;
    }
    proof {
        assert(entry_views(entries@).take(entries@.len() as int) =~= entry_views(entries@));
    }
    r
}

} // verus!
