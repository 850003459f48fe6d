use std::path::PathBuf;
use vstd::prelude::*;
use vstd::utf8::encode_utf8;

use crate::text::{
    bytes_equal, concat_all, lemma_encode_utf8_concat, lemma_split_on_nonempty, nul_terminated,
    split_char, split_on, terminate, trim_both, trim_end_of, trim_leading, trim_of, trim_start_of,
    trim_trailing, utf8_bytes,
};

verus! {

/// File paths are carried through as they are; only the wrappers below look inside.
#[verifier::external_type_specification]
#[verifier::external_body]
pub struct ExPathBuf(PathBuf);

/// The file stem of a path (its file name without the last extension) as
/// text, when it has one and it is valid UTF-8. It depends on the path alone.
pub uninterp spec fn stem_text_of(path: PathBuf) -> Option<Seq<char>>;

/// The encoded bytes of the name of the directory that holds a path's file,
/// when there is one. It depends on the path alone.
pub uninterp spec fn parent_name_of(path: PathBuf) -> Option<Seq<u8>>;

/// Relies on `Path::file_stem` and `OsStr::to_str`: the file name without its
/// last extension, when the path has one and it is valid UTF-8.
#[verifier::external_body]
fn file_stem_text(path: &PathBuf) -> (r: Option<&str>)
    ensures
        r is Some <==> stem_text_of(*path) is Some,
        r matches Some(s) ==> stem_text_of(*path) == Some(s@),
{
    path.file_stem().and_then(|s| s.to_str())
}

/// Relies on `Path::parent`, `Path::file_name` and `OsStr::as_encoded_bytes`:
/// the name of the directory that holds the file, as its encoded bytes, when
/// there is one.
#[verifier::external_body]
fn parent_dir_name(path: &PathBuf) -> (r: Option<&[u8]>)
    ensures
        r is Some <==> parent_name_of(*path) is Some,
        r matches Some(p) ==> parent_name_of(*path) == Some(p@),
{
    path.parent().and_then(|p| p.file_name()).map(|n| n.as_encoded_bytes())
}

/// Directory names under which files are named `author - title`.
pub open spec fn is_arbitrary_dir(parent: Seq<u8>) -> bool {
    parent == encode_utf8("_"@) || parent == encode_utf8("unordered"@) || parent == encode_utf8(
        "any"@,
    ) || parent == encode_utf8("unknown"@) || parent == encode_utf8("random"@)
}

/// The title carried by the pieces that follow the author in `author - title`:
/// the first trimmed at its start, the last at its end, joined without dashes.
pub open spec fn joined_title(pieces: Seq<Seq<char>>) -> Seq<char> {
    if pieces.len() == 1 {
        trim_of(pieces[0])
    } else {
        trim_start_of(pieces[0]) + concat_all(pieces.subrange(1, pieces.len() - 1)) + trim_end_of(
            pieces.last(),
        )
    }
}

/// Title and author, each a zero-terminated byte string, of a file stem found in
/// an arbitrary directory: `author - title`, or a bare title with no author.
pub open spec fn stem_names(stem: Seq<char>) -> (Seq<u8>, Seq<u8>) {
    let pieces = split_on(stem, '-');
    let first = nul_terminated(encode_utf8(trim_of(pieces[0])));
    if pieces.len() == 1 {
        (first, seq![0u8])
    } else {
        (nul_terminated(encode_utf8(joined_title(pieces.drop_first()))), first)
    }
}

/// Title and author of a file with stem `stem` in a directory named `parent`.
pub open spec fn entry_names(stem: Seq<char>, parent: Seq<u8>) -> (Seq<u8>, Seq<u8>) {
    if is_arbitrary_dir(parent) {
        stem_names(stem)
    } else {
        (nul_terminated(encode_utf8(stem)), nul_terminated(parent))
    }
}

/// One file of the playlist: its path, and the title and author read from its name.
pub struct SongEntry {
    path: PathBuf,
    filename: Vec<u8>,
    author: Vec<u8>,
}

impl SongEntry {
    /// The title, a zero-terminated byte string.
    pub closed spec fn title(&self) -> Seq<u8> {
        self.filename@
    }

    /// The author, a zero-terminated byte string; `[0]` when unknown.
    pub closed spec fn artist(&self) -> Seq<u8> {
        self.author@
    }

    pub closed spec fn location(&self) -> PathBuf {
        self.path
    }

    /// Splits a file stem from an arbitrary directory into title and author.
    pub fn process_os_str_case_arbitrary_dir(filestem: &str) -> (r: Option<(Vec<u8>, Vec<u8>)>)
        ensures
            r matches Some((name, author)) && (name@, author@) == stem_names(filestem@),
    {
        let pieces = split_char(filestem, '-');
        proof {
            lemma_split_on_nonempty(filestem@, '-');
        }
        let ghost parts = split_on(filestem@, '-');
        let mut first = utf8_bytes(trim_both(pieces[0]));
        terminate(&mut first);
        if pieces.len() == 1 {
            let mut none: Vec<u8> = Vec::new();
            none.push(0);
            assert(none@ =~= seq![0u8]);
            return Some((first, none));
        }
        let ghost rest = parts.drop_first();
        let mut title: Vec<u8>;
        if pieces.len() == 2 {
            title = utf8_bytes(trim_both(pieces[1]));
            assert(rest.len() == 1);
        } else {
            let n = pieces.len();
            title = utf8_bytes(trim_leading(pieces[1]));
            let mut i: usize = 2;
            while i + 1 < n
                invariant
                    n == pieces@.len(),
                    n == parts.len(),
                    n >= 3,
                    2 <= i <= n - 1,
                    rest == parts.drop_first(),
                    forall|k: int| 0 <= k < n ==> (#[trigger] pieces@[k])@ == parts[k],
                    title@ == encode_utf8(trim_start_of(rest[0]) + concat_all(rest.subrange(1, i - 1))),
                decreases n - i,
            {
                let mut more = utf8_bytes(pieces[i]);
                proof {
                    let a = trim_start_of(rest[0]);
                    let done = rest.subrange(1, i - 1);
                    let next = rest.subrange(1, i as int);
                    assert(next.drop_last() =~= done);
                    assert(next.last() == parts[i as int]);
                    lemma_encode_utf8_concat(a, concat_all(done));
                    lemma_encode_utf8_concat(concat_all(done), parts[i as int]);
                    lemma_encode_utf8_concat(a, concat_all(next));
                    lemma_encode_utf8_concat(a + concat_all(done), parts[i as int]);
                    assert(a + concat_all(next) =~= a + concat_all(done) + parts[i as int]);
                }
                title.append(&mut more);
                i = i + 1;
            }
            let mut last = utf8_bytes(trim_trailing(pieces[n - 1]));
            proof {
                let a = trim_start_of(rest[0]) + concat_all(rest.subrange(1, rest.len() - 1));
                lemma_encode_utf8_concat(a, trim_end_of(rest.last()));
            }
            title.append(&mut last);
        }
        terminate(&mut title);
        Some((title, first))
    }

    /// Title and author of a file with stem `filestem` in a directory whose name
    /// has the encoded bytes `parent`.
    pub fn process_os_str(filestem: &str, parent: &[u8]) -> (r: Option<(Vec<u8>, Vec<u8>)>)
        ensures
            r matches Some((name, author)) && (name@, author@) == entry_names(filestem@, parent@),
    {
        if bytes_equal(parent, "_".as_bytes()) || bytes_equal(parent, "unordered".as_bytes())
            || bytes_equal(parent, "any".as_bytes()) || bytes_equal(parent, "unknown".as_bytes())
            || bytes_equal(parent, "random".as_bytes()) {
            Self::process_os_str_case_arbitrary_dir(filestem)
        } else {
            let mut name = utf8_bytes(filestem);
            let mut author = vstd::slice::slice_to_vec(parent);
            terminate(&mut name);
            terminate(&mut author);
            Some((name, author))
        }
    }

    /// An entry for `path`, whose stem and parent directory name are given.
    pub fn from_parts(path: PathBuf, filestem: &str, parent: &[u8]) -> (r: SongEntry)
        ensures
            (r.title(), r.artist()) == entry_names(filestem@, parent@),
            r.location() == path,
    {
        let (filename, author) = Self::process_os_str(filestem, parent).unwrap();
        SongEntry { path, filename, author }
    }

    /// An entry for `path`; `None` when the path has no file stem in UTF-8 or no
    /// parent directory with a name.
    pub fn new(path: PathBuf) -> (r: Option<SongEntry>)
        ensures
            r is Some <==> (stem_text_of(path) is Some && parent_name_of(path) is Some),
            r matches Some(e) ==> e.location() == path && (e.title(), e.artist()) == entry_names(
                stem_text_of(path)->0,
                parent_name_of(path)->0,
            ),
    {
        let stem: String = match file_stem_text(&path) {
            Some(s) => s.to_owned(),
            None => return None,
        };
        let parent: Vec<u8> = match parent_dir_name(&path) {
            Some(p) => vstd::slice::slice_to_vec(p),
            None => return None,
        };
        Some(Self::from_parts(path, stem.as_str(), parent.as_slice()))
    }

    /// The title, a zero-terminated byte string.
    pub fn file_name(&self) -> (r: &Vec<u8>)
        ensures
            r@ == self.title(),
    {
        &self.filename
    }

    /// The author, a zero-terminated byte string.
    pub fn author(&self) -> (r: &Vec<u8>)
        ensures
            r@ == self.artist(),
    {
        &self.author
    }

    pub fn path(&self) -> (r: &PathBuf)
        ensures
            *r == self.location(),
    {
        &self.path
    }
}

/// A song that is being played: what is shown of it, its audio stream `M`, and
/// its slot in the playlist.
pub struct PlayingSong<M> {
    filename: Vec<u8>,
    author: Vec<u8>,
    music: M,
    idx: usize,
    pub lyrics: String,
    pub lyrics_dimensions: Option<(i32, i32)>,
}

impl<M> PlayingSong<M> {
    pub closed spec fn title(&self) -> Seq<u8> {
        self.filename@
    }

    pub closed spec fn artist(&self) -> Seq<u8> {
        self.author@
    }

    pub closed spec fn stream(&self) -> M {
        self.music
    }

    /// The playlist slot of the song.
    pub closed spec fn slot(&self) -> usize {
        self.idx
    }

    pub closed spec fn lyrics_text(&self) -> String {
        self.lyrics
    }

    pub closed spec fn lyrics_box(&self) -> Option<(i32, i32)> {
        self.lyrics_dimensions
    }

    /// The song of `entry`, at slot `idx`, played on the stream `music`.
    pub fn new_play(entry: &SongEntry, idx: usize, music: M, lyrics: String) -> (r: Self)
        ensures
            r.title() == entry.title(),
            r.artist() == entry.artist(),
            r.slot() == idx,
            r.stream() == music,
            r.lyrics_text() == lyrics,
            r.lyrics_box() is None,
    {
        PlayingSong {
            filename: vstd::slice::slice_to_vec(entry.filename.as_slice()),
            author: vstd::slice::slice_to_vec(entry.author.as_slice()),
            music,
            idx,
            lyrics,
            lyrics_dimensions: None,
        }
    }

    /// The playlist slot of the song.
    pub fn index(&self) -> (r: usize)
        ensures
            r == self.slot(),
    {
        self.idx
    }

    pub fn file_name(&self) -> (r: &Vec<u8>)
        ensures
            r@ == self.title(),
    {
        &self.filename
    }

    pub fn author(&self) -> (r: &Vec<u8>)
        ensures
            r@ == self.artist(),
    {
        &self.author
    }

    pub fn music(&self) -> (r: &M)
        ensures
            *r == self.stream(),
    {
        &self.music
    }

    pub fn music_mut(&mut self) -> (r: &mut M)
        ensures
            *r == old(self).stream(),
            final(self).stream() == *final(r),
            final(self).title() == old(self).title(),
            final(self).artist() == old(self).artist(),
            final(self).slot() == old(self).slot(),
            final(self).lyrics_text() == old(self).lyrics_text(),
            final(self).lyrics_box() == old(self).lyrics_box(),
    {
        &mut self.music
    }

    /// Moves the song to slot `idx`.
    pub(crate) fn move_to(&mut self, idx: usize)
        ensures
            final(self).slot() == idx,
            final(self).stream() == old(self).stream(),
            final(self).title() == old(self).title(),
            final(self).artist() == old(self).artist(),
            final(self).lyrics_text() == old(self).lyrics_text(),
            final(self).lyrics_box() == old(self).lyrics_box(),
    {
        self.idx = idx;
    }

    /// Keeps the size that the lyrics take on screen.
    pub fn set_lyrics_box(&mut self, dims: (i32, i32))
        ensures
            final(self).lyrics_box() == Some(dims),
            final(self).slot() == old(self).slot(),
            final(self).stream() == old(self).stream(),
            final(self).title() == old(self).title(),
            final(self).artist() == old(self).artist(),
            final(self).lyrics_text() == old(self).lyrics_text(),
    {
        self.lyrics_dimensions = Some(dims);
    }

    /// Gives the song back its stream.
    pub fn into_music(self) -> (r: M)
        ensures
            r == self.stream(),
    {
        self.music
    }
}

/// What happens when a song ends.
#[derive(Clone, Copy, Debug, PartialEq, Eq, Structural)]
pub enum RepeatBehavior {
    Normal,
    Repeat,
    RepeatSingle,
}

impl RepeatBehavior {
    /// The icon text of the mode.
    pub fn to_icon(&self) -> (r: &'static str)
        ensures
            *self == RepeatBehavior::Normal ==> r@ == "#222#"@,
            *self == RepeatBehavior::Repeat ==> r@ == "#224#"@,
            *self == RepeatBehavior::RepeatSingle ==> r@ == "#223#"@,
    {
        match self {
            RepeatBehavior::Normal => "#222#",
            RepeatBehavior::Repeat => "#224#",
            RepeatBehavior::RepeatSingle => "#223#",
        }
    }

    /// Steps to the following mode: normal, repeat all, repeat one, normal again.
    pub fn next(&mut self)
        ensures
            *old(self) == RepeatBehavior::Normal ==> *final(self) == RepeatBehavior::Repeat,
            *old(self) == RepeatBehavior::Repeat ==> *final(self) == RepeatBehavior::RepeatSingle,
            *old(self) == RepeatBehavior::RepeatSingle ==> *final(self) == RepeatBehavior::Normal,
    {
        match self {
            RepeatBehavior::Normal => *self = RepeatBehavior::Repeat,
            RepeatBehavior::Repeat => *self = RepeatBehavior::RepeatSingle,
            RepeatBehavior::RepeatSingle => *self = RepeatBehavior::Normal,
        }
    }
}

/// Why a song could not be played.
#[derive(Debug, PartialEq, Eq)]
pub enum PlayError {
    IoError(String),
    FileNameInvalid,
}

} // verus!
