//! The directory-scan logic: which children of a folder count as playable
//! audio. Enumerating the directory itself is left to the caller; this
//! module decides, from each entry's name and file kind, what belongs in
//! the playlist and in which order.

use vstd::prelude::*;
use vstd::string::StrSliceExecFns;

verus! {

/// Why a directory scan failed. A single unreadable entry aborts the whole
/// scan; there is no partial result.
#[derive(Clone, Copy, PartialEq, Eq, Structural, Debug)]
pub enum ScanError {
    /// The directory itself could not be opened or read.
    DirUnreadable,
    /// The metadata of one of its entries could not be read.
    EntryUnreadable,
}

/// One directory child as the scanner sees it: its name and whether it is a
/// regular file.
pub struct DirEntryInfo {
    pub name: String,
    pub is_file: bool,
}

/// `s` ends with `suffix`.
pub open spec fn ends_with_spec(s: Seq<char>, suffix: Seq<char>) -> bool {
    suffix.len() <= s.len() && s.subrange(s.len() - suffix.len(), s.len() as int) =~= suffix
}

/// A name recognized as audio: a plain suffix match against the recognized
/// set, not a true extension parse, so a name such as `foo.xmp3` matches too.
pub open spec fn is_audio_name(s: Seq<char>) -> bool {
    ||| ends_with_spec(s, "mp3"@)
    ||| ends_with_spec(s, "flac"@)
    ||| ends_with_spec(s, "ogg"@)
    ||| ends_with_spec(s, "wav"@)
}

/// The names of the regular files with a recognized audio suffix, in
/// enumeration order.
pub open spec fn audio_names(entries: Seq<DirEntryInfo>) -> Seq<Seq<char>>
    decreases entries.len(),
{
    if entries.len() == 0 {
        Seq::empty()
    } else {
        let rest = audio_names(entries.drop_last());
        let e = entries.last();
        if e.is_file && is_audio_name(e.name@) {
            rest.push(e.name@)
        } else {
            rest
        }
    }
}

/// No more names come out of a scan than entries went in.
pub proof fn lemma_audio_names_len(entries: Seq<DirEntryInfo>)
    ensures
        audio_names(entries).len() <= entries.len(),
    decreases entries.len(),
{
    if entries.len() > 0 {
        lemma_audio_names_len(entries.drop_last());
    }
}

/// Whether `s` ends with `suffix`, comparing characters.
pub fn str_ends_with(s: &str, suffix: &str) -> (r: bool)
    ensures
        r == ends_with_spec(s@, suffix@),
{
    let n = s.unicode_len();
    let m = suffix.unicode_len();
    if n < m {
        return false;
    }
    let mut i: usize = 0;
    while i < m
        invariant
            m <= n,
            n as nat == s@.len(),
            m as nat == suffix@.len(),
            i <= m,
            forall|j: int| 0 <= j < i ==> s@[n - m + j] == suffix@[j],
        decreases m - i,
    {
        if s.get_char(n - m + i) != suffix.get_char(i) {
            proof {
                assert(s@.subrange(n - m, n as int)[i as int] == s@[n - m + i]);
            }
            return false;
        }
        i = i + 1;
    }
    proof {
        assert(s@.subrange(n - m, n as int) =~= suffix@);
    }
    true
}

/// Whether a file name carries one of the recognized audio suffixes.
pub fn audio_name(name: &str) -> (r: bool)
    ensures
        r == is_audio_name(name@),
{
    str_ends_with(name, "mp3") || str_ends_with(name, "flac") || str_ends_with(name, "ogg")
        || str_ends_with(name, "wav")
}

/// The scratch lists that a directory scan fills.
pub struct AudioFileList {
    pub dirs: Vec<String>,
    pub files: Vec<String>,
}

impl AudioFileList {
    /// Two empty lists.
    pub fn new() -> (r: Self)
        ensures
            r.dirs@ == Seq::<String>::empty(),
            r.files@ == Seq::<String>::empty(),
    {
        Self { dirs: Vec::new(), files: Vec::new() }
    }

    /// Appends one file name.
    pub fn insert_file(&mut self, file_name: String)
        ensures
            final(self).files@ == old(self).files@.push(file_name),
            final(self).dirs@ == old(self).dirs@,
    {
        self.files.push(file_name);
    }

    /// Drops the collected file names; the directory list is kept.
    pub fn reset(&mut self)
        ensures
            final(self).files@ == Seq::<String>::empty(),
            final(self).dirs@ == old(self).dirs@,
    {
        self.files.clear();
    }
}

} // verus!
