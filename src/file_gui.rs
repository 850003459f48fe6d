use vstd::prelude::*;
use vstd::utf8::encode_utf8;

use crate::text::{bytes_equal, nul_terminated};

verus! {

/// The file extensions of the audio formats that can be played.
pub open spec fn is_audio_extension(ext: Seq<u8>) -> bool {
    ext == encode_utf8("mp3"@) || ext == encode_utf8("ogg"@) || ext == encode_utf8("wav"@) || ext
        == encode_utf8("qoa"@) || ext == encode_utf8("flac"@) || ext == encode_utf8("xm"@) || ext
        == encode_utf8("mod"@)
}

/// The file extension of playlist files.
pub open spec fn is_playlist_extension(ext: Seq<u8>) -> bool {
    ext == encode_utf8("m3u"@)
}

/// Whether a directory entry is listed by a file selection screen.
pub open spec fn listed(is_dir: bool, is_file: bool, ext: Option<Seq<u8>>, folder_only: bool) -> bool {
    &&& is_dir || is_file
    &&& is_dir || !folder_only
    &&& is_file ==> (ext matches Some(e) && (is_playlist_extension(e) || is_audio_extension(e)))
}

/// The label of a listed entry, icon first (`#217#` for a folder, `#218#` for
/// a file), as a zero-terminated byte string.
pub open spec fn entry_label_bytes(is_dir: bool, name: Seq<u8>) -> Seq<u8> {
    let icon = if is_dir {
        seq![35u8, 50, 49, 55, 35]
    } else {
        seq![35u8, 50, 49, 56, 35]
    };
    nul_terminated(icon + name)
}

/// What a click or an Enter on row `selected` of a file selection screen does.
#[derive(Clone, Copy, Debug, PartialEq, Eq, Structural)]
pub enum FileChoice {
    /// Nothing was chosen.
    Nothing,
    /// Go to the parent folder.
    Up,
    /// The entry at this index.
    Entry(usize),
    /// The screen's own button: add, open or save here.
    Confirm,
}

/// Whether `ext` is the extension of a format that can be played.
pub fn is_supported_format(ext: &[u8]) -> (r: bool)
    ensures
        r == is_audio_extension(ext@),
{
    bytes_equal(ext, "mp3".as_bytes()) || bytes_equal(ext, "ogg".as_bytes()) || bytes_equal(
        ext,
        "wav".as_bytes(),
    ) || bytes_equal(ext, "qoa".as_bytes()) || bytes_equal(ext, "flac".as_bytes()) || bytes_equal(
        ext,
        "xm".as_bytes(),
    ) || bytes_equal(ext, "mod".as_bytes())
}

/// Whether `ext` is the extension of a playlist file.
pub fn is_playlist_format(ext: &[u8]) -> (r: bool)
    ensures
        r == is_playlist_extension(ext@),
{
    bytes_equal(ext, "m3u".as_bytes())
}

/// Whether an entry of a folder is listed: folders always, files only outside
/// the folder screens and only with a playable or playlist extension, and
/// nothing that is neither.
pub fn entry_listed(is_dir: bool, is_file: bool, ext: Option<&[u8]>, folder_only: bool) -> (r: bool)
    ensures
        r == listed(
            is_dir,
            is_file,
            match ext {
                Some(e) => Some(e@),
                None => None,
            },
            folder_only,
        ),
{
    if !is_dir && !is_file {
        return false;
    }
    if !is_dir && folder_only {
        return false;
    }
    match ext {
        Some(e) => !(is_file && !is_playlist_format(e) && !is_supported_format(e)),
        None => !is_file,
    }
}

/// The label of an entry named `name`; `None` when the name holds a zero byte
/// anywhere but at its end.
pub fn entry_label(is_dir: bool, name: &[u8]) -> (r: Option<Vec<u8>>)
    ensures
        r is Some <==> forall|i: int|
            0 <= i < entry_label_bytes(is_dir, name@).len() - 1 ==> #[trigger] entry_label_bytes(
                is_dir,
                name@,
            )[i] != 0,
        r matches Some(v) ==> v@ == entry_label_bytes(is_dir, name@),
{
    let mut label: Vec<u8> = Vec::new();
    label.push(35);
    label.push(50);
    label.push(49);
    if is_dir {
        label.push(55);
    } else {
        label.push(56);
    }
    label.push(35);
    assert(label@ =~= if is_dir {
        seq![35u8, 50, 49, 55, 35]
    } else {
        seq![35u8, 50, 49, 56, 35]
    });
    let mut rest = vstd::slice::slice_to_vec(name);
    label.append(&mut rest);
    let n = label.len();
    if n < 1 || label[n - 1] != 0 {
        label.push(0);
    }
    let ghost full = label@;
    assert(full == entry_label_bytes(is_dir, name@));
    let last = label.len() - 1;
    let mut i: usize = 0;
    while i < last
        invariant
            label@ == full,
            full == entry_label_bytes(is_dir, name@),
            last == full.len() - 1,
            0 <= i <= last,
            forall|k: int| 0 <= k < i ==> full[k] != 0,
        decreases last - i,
    {
        if label[i] == 0 {
            assert(entry_label_bytes(is_dir, name@)[i as int] == 0);
            return None;
        }
        i = i + 1;
    }
    Some(label)
}

/// What row `selected` of a file selection screen listing `n_entries` entries
/// stands for: row 0 is no choice, row 1 the parent folder, then the entries,
/// then, on screens that have one, the screen's own button.
pub fn file_choice(selected: u32, n_entries: usize, has_confirm: bool) -> (r: FileChoice)
    ensures
        r == if selected == 0 {
            FileChoice::Nothing
        } else if selected == 1 {
            FileChoice::Up
        } else if selected - 2 < n_entries {
            FileChoice::Entry((selected - 2) as usize)
        } else if selected == n_entries + 2 && has_confirm {
            FileChoice::Confirm
        } else {
            FileChoice::Nothing
        },
{
    if selected == 0 {
        FileChoice::Nothing
    } else if selected == 1 {
        FileChoice::Up
    } else if ((selected - 2) as usize) < n_entries {
        FileChoice::Entry((selected - 2) as usize)
    } else if (selected as usize) - 2 == n_entries && has_confirm {
        FileChoice::Confirm
    } else {
        FileChoice::Nothing
    }
}

/// The highlighted row after Up or Down on a screen listing `n_entries`
/// entries: Up moves toward row 0, Down moves on while the row is at most the
/// number of entries, or one more on screens with their own button.
pub fn step_selection(selected: u32, up: bool, down: bool, n_entries: usize, has_confirm: bool) -> (r:
    u32)
    ensures
        r == if up && selected > 0 {
            (selected - 1) as u32
        } else if down && selected < u32::MAX && selected <= n_entries + if has_confirm {
            1int
        } else {
            0int
        } {
            (selected + 1) as u32
        } else {
            selected
        },
{
    let sel = selected as u64;
    let n = n_entries as u64;
    if up && selected > 0 {
        selected - 1
    } else if down && selected < u32::MAX && (sel <= n || has_confirm && sel > 0 && sel - 1 <= n) {
        selected + 1
    } else {
        selected
    }
}

} // verus!
