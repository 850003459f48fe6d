use vstd::prelude::*;

use std::path::PathBuf;

use crate::song::{
    entry_names, parent_name_of, stem_text_of, PlayingSong, RepeatBehavior, SongEntry,
};
use vstd::utf8::{encode_utf8, is_ascii_chars, is_ascii_chars_encode_utf8};

use crate::text::{
    lemma_encode_utf8_concat, lemma_split_on_nonempty, split_char, split_on, utf8_bytes,
};

verus! {

/// `s` with the items at `a` and `b` exchanged.
pub open spec fn swapped<T>(s: Seq<T>, a: int, b: int) -> Seq<T> {
    s.update(a, s[b]).update(b, s[a])
}

/// Whether the draw `d` exchanges two distinct slots of a list of length `len`.
pub open spec fn draw_swaps(d: (usize, usize), len: int) -> bool {
    d.0 < len && d.1 < len && d.0 != d.1
}

/// `s` after each draw in turn has exchanged its two slots; a draw that names
/// one slot twice, or a slot past the end, changes nothing.
pub open spec fn shuffled<T>(s: Seq<T>, draws: Seq<(usize, usize)>) -> Seq<T>
    decreases draws.len(),
{
    if draws.len() == 0 {
        s
    } else {
        let t = shuffled(s, draws.drop_last());
        let d = draws.last();
        if draw_swaps(d, t.len() as int) {
            swapped(t, d.0 as int, d.1 as int)
        } else {
            t
        }
    }
}

/// A shuffle only reorders: the list keeps its length and holds the same
/// entries, each as often, as before.
pub proof fn lemma_shuffle_keeps_entries<T>(s: Seq<T>, draws: Seq<(usize, usize)>)
    ensures
        shuffled(s, draws).len() == s.len(),
        shuffled(s, draws).to_multiset() == s.to_multiset(),
    decreases draws.len(),
{
    broadcast use vstd::multiset::group_multiset_axioms;

    if draws.len() > 0 {
        lemma_shuffle_keeps_entries(s, draws.drop_last());
        let t = shuffled(s, draws.drop_last());
        let d = draws.last();
        if draw_swaps(d, t.len() as int) {
            let (a, b) = (d.0 as int, d.1 as int);
            let u = t.update(a, t[b]);
            vstd::seq_lib::to_multiset_update(t, a, t[b]);
            vstd::seq_lib::to_multiset_update(u, b, t[a]);
            vstd::seq_lib::to_multiset_contains(t, t[a]);
            assert(u[b] == t[b]);
            assert(t.to_multiset().insert(t[b]).remove(t[a]).insert(t[a]).remove(t[b])
                =~= t.to_multiset());
        }
    }
}

/// Where the item at slot `p` stands after the draws.
pub open spec fn followed(p: usize, len: int, draws: Seq<(usize, usize)>) -> usize
    decreases draws.len(),
{
    if draws.len() == 0 {
        p
    } else {
        let q = followed(p, len, draws.drop_last());
        let d = draws.last();
        if draw_swaps(d, len) && q == d.0 {
            d.1
        } else if draw_swaps(d, len) && q == d.1 {
            d.0
        } else {
            q
        }
    }
}

/// `x / 2`, rounded toward zero.
pub open spec fn half_toward_zero(x: int) -> int {
    if x >= 0 {
        x / 2
    } else {
        -((-x) / 2)
    }
}

/// The scroll offset that brings row `row` (rows 30 pixels apart, 5 from the
/// top) to the middle of a view `view_height` pixels high; never positive.
pub open spec fn centered_scroll(row: int, view_height: int) -> int {
    let top = half_toward_zero(view_height - 30);
    let y = 30 * row + 5;
    if y > top {
        top - y
    } else {
        0
    }
}

/// `centered_scroll`, held to what an `i32` can carry.
pub open spec fn centered_scroll_i32(row: int, view_height: int) -> int {
    let v = centered_scroll(row, view_height);
    if v < i32::MIN {
        i32::MIN as int
    } else {
        v
    }
}

/// The scroll offset that centres row `row` in a view `view_height` pixels high.
pub fn center_offset(row: usize, view_height: i64) -> (r: i32)
    requires
        -0x1_0000_0000 <= view_height <= 0x1_0000_0000,
    ensures
        r == centered_scroll_i32(row as int, view_height as int),
{
    if row > 200_000_000 {
        assert(centered_scroll(row as int, view_height as int) < i32::MIN);
        return i32::MIN;
    }
    let h: i64 = view_height - 30;
    let top: i64 = if h >= 0 {
        h / 2
    } else {
        -((-h) / 2)
    };
    let y: i64 = 30 * (row as i64) + 5;
    if y > top {
        let v: i64 = top - y;
        if v < i32::MIN as i64 {
            i32::MIN
        } else {
            v as i32
        }
    } else {
        0
    }
}

/// Exchanges the items at `a` and `b`.
fn swap_items<T>(v: &mut Vec<T>, a: usize, b: usize)
    requires
        a < old(v)@.len(),
        b < old(v)@.len(),
        a != b,
    ensures
        final(v)@ == swapped(old(v)@, a as int, b as int),
{
    let (lo, hi) = if a < b {
        (a, b)
    } else {
        (b, a)
    };
    let ghost s = v@;
    let x = v.remove(hi);
    assert(x == s[hi as int]);
    assert(v@ =~= s.remove(hi as int));
    let y = v.remove(lo);
    assert(y == s[lo as int]);
    assert(v@ =~= s.remove(hi as int).remove(lo as int));
    v.insert(lo, x);
    assert(v@ =~= s.remove(hi as int).remove(lo as int).insert(lo as int, x));
    v.insert(hi, y);
    assert(v@ =~= s.update(lo as int, s[hi as int]).update(hi as int, s[lo as int]));
    assert(v@ =~= swapped(s, a as int, b as int));
}

/// What to do once the playing song has been taken out by `prepare_play`.
pub enum PlayStart<M> {
    /// The requested song is the one playing: it starts over.
    Restart,
    /// The song that was playing, if any, to be stopped before the next loads.
    Switch(Option<PlayingSong<M>>),
}

/// What to do after an entry left the playlist.
pub enum AfterRemoval<M> {
    /// Nothing to do for playback.
    Nothing,
    /// The song that played was removed and none is left: stop it.
    Stop(PlayingSong<M>),
    /// The song that played was removed: stop it and play the given slot.
    Play(PlayingSong<M>, usize),
}

/// What to do when the playing song reaches its end.
#[derive(Clone, Copy, Debug, PartialEq, Eq, Structural)]
pub enum TrackEnd {
    /// Play the song at this slot.
    Play(usize),
    /// Start the same song over.
    Restart,
    /// Stop playing.
    Stop,
}

/// An ordered list of songs, at most one of which plays, with the repeat mode
/// and the cursors of its on-screen list.
pub struct Playlist<M> {
    songs: Vec<SongEntry>,
    current_song: Option<PlayingSong<M>>,
    pub repeat_behavior: RepeatBehavior,
    pub __render_scroll_index: i32,
    pub __render_current_selected: usize,
}

impl<M> Default for Playlist<M> {
    fn default() -> (r: Self)
        ensures
            r.wf(),
            r.entries().len() == 0,
            r.current() is None,
            r.repeat() == RepeatBehavior::Normal,
            r.scroll() == 0,
            r.selected() == 0,
    {
        Playlist::new()
    }
}

impl<M> Playlist<M> {
    pub closed spec fn entries(&self) -> Seq<SongEntry> {
        self.songs@
    }

    pub closed spec fn current(&self) -> Option<PlayingSong<M>> {
        self.current_song
    }

    pub closed spec fn repeat(&self) -> RepeatBehavior {
        self.repeat_behavior
    }

    pub closed spec fn scroll(&self) -> i32 {
        self.__render_scroll_index
    }

    pub closed spec fn selected(&self) -> usize {
        self.__render_current_selected
    }

    /// The slot of the song that plays, if one does.
    pub open spec fn playing(&self) -> Option<usize> {
        match self.current() {
            Some(s) => Some(s.slot()),
            None => None,
        }
    }

    /// The playing song, if any, stands at a slot of the list, and that slot
    /// holds the entry it was made from.
    pub open spec fn wf(&self) -> bool {
        match self.current() {
            Some(s) => s.slot() < self.entries().len() && s.title() == self.entries()[s.slot() as int].title()
                && s.artist() == self.entries()[s.slot() as int].artist(),
            None => true,
        }
    }

    /// Everything but the list and the playing song is as in `other`.
    pub open spec fn same_settings(&self, other: &Self) -> bool {
        self.repeat() == other.repeat() && self.scroll() == other.scroll() && self.selected()
            == other.selected()
    }

    /// An empty playlist that plays nothing.
    pub fn new() -> (r: Self)
        ensures
            r.wf(),
            r.entries().len() == 0,
            r.current() is None,
            r.repeat() == RepeatBehavior::Normal,
            r.scroll() == 0,
            r.selected() == 0,
    {
        Playlist {
            songs: Vec::new(),
            current_song: None,
            repeat_behavior: RepeatBehavior::Normal,
            __render_scroll_index: 0,
            __render_current_selected: 0,
        }
    }

    pub fn len(&self) -> (r: usize)
        ensures
            r == self.entries().len(),
    {
        self.songs.len()
    }

    pub fn get_songs(&self) -> (r: &Vec<SongEntry>)
        ensures
            r@ == self.entries(),
    {
        &self.songs
    }

    pub fn currently_playing_id(&self) -> (r: Option<usize>)
        ensures
            r == self.playing(),
    {
        match &self.current_song {
            Some(song) => Some(song.index()),
            None => None,
        }
    }

    pub fn has_music_stream(&self) -> (r: bool)
        ensures
            r == self.current() is Some,
    {
        self.current_song.is_some()
    }

    pub fn currently_playing(&self) -> (r: Option<&PlayingSong<M>>)
        ensures
            r is Some <==> self.current() is Some,
            r matches Some(s) ==> *s == self.current()->0,
    {
        match &self.current_song {
            Some(song) => Some(song),
            None => None,
        }
    }

    /// The title of the playing song.
    pub fn filename_vec(&self) -> (r: Option<&Vec<u8>>)
        ensures
            r is Some <==> self.current() is Some,
            r matches Some(v) ==> v@ == self.current()->0.title(),
    {
        match &self.current_song {
            Some(song) => Some(song.file_name()),
            None => None,
        }
    }

    /// The author of the playing song.
    pub fn author_vec(&self) -> (r: Option<&Vec<u8>>)
        ensures
            r is Some <==> self.current() is Some,
            r matches Some(v) ==> v@ == self.current()->0.artist(),
    {
        match &self.current_song {
            Some(song) => Some(song.author()),
            None => None,
        }
    }

    /// Appends `entry` to the list.
    pub fn add_song(&mut self, entry: SongEntry)
        requires
            old(self).wf(),
        ensures
            final(self).wf(),
            final(self).entries() == old(self).entries().push(entry),
            final(self).current() == old(self).current(),
            final(self).same_settings(old(self)),
    {
        self.songs.push(entry);
    }

    /// Appends the song file at `path`, if an entry can be made for it; true
    /// when one was.
    pub fn add_song_file(&mut self, path: PathBuf) -> (r: bool)
        requires
            old(self).wf(),
        ensures
            final(self).wf(),
            final(self).current() == old(self).current(),
            final(self).same_settings(old(self)),
            r == (stem_text_of(path) is Some && parent_name_of(path) is Some),
            r ==> final(self).entries().len() == old(self).entries().len() + 1
                && final(self).entries().drop_last() == old(self).entries()
                && final(self).entries().last().location() == path && (
                final(self).entries().last().title(),
                final(self).entries().last().artist(),
            ) == entry_names(stem_text_of(path)->0, parent_name_of(path)->0),
            !r ==> final(self).entries() == old(self).entries(),
    {
        match SongEntry::new(path) {
            Some(entry) => {
                self.add_song(entry);
                proof {
                    assert(self.entries().drop_last() =~= old(self).entries());
                }
                true
            },
            None => false,
        }
    }

    /// Stops playback: the song that played, if any, is handed back.
    pub fn stop_playing(&mut self) -> (r: Option<PlayingSong<M>>)
        requires
            old(self).wf(),
        ensures
            final(self).wf(),
            r == old(self).current(),
            final(self).current() is None,
            final(self).entries() == old(self).entries(),
            final(self).same_settings(old(self)),
    {
        let r = self.current_song.take();
        r
    }

    /// Empties the list and stops playback: the song that played, if any, is
    /// handed back.
    pub fn clear(&mut self) -> (r: Option<PlayingSong<M>>)
        requires
            old(self).wf(),
        ensures
            final(self).wf(),
            r == old(self).current(),
            final(self).current() is None,
            final(self).entries().len() == 0,
            final(self).same_settings(old(self)),
    {
        self.songs.clear();
        self.current_song.take()
    }

    /// Centres the on-screen list on slot `idx`, for a window `screen_height` high.
    pub fn adjust_center_song(&mut self, idx: usize, screen_height: i32)
        ensures
            final(self).scroll() == centered_scroll_i32(idx as int, screen_height as int - 180),
            final(self).entries() == old(self).entries(),
            final(self).current() == old(self).current(),
            final(self).repeat() == old(self).repeat(),
            final(self).selected() == old(self).selected(),
    {
        self.__render_scroll_index = center_offset(idx, screen_height as i64 - 180);
    }

    /// The first step of playing slot `idx`. When that slot already plays,
    /// nothing changes and it is to start over; otherwise the playing song, if
    /// any, is taken out and handed back.
    pub fn prepare_play(&mut self, idx: usize) -> (r: PlayStart<M>)
        requires
            old(self).wf(),
        ensures
            final(self).wf(),
            old(self).playing() == Some(idx) ==> r is Restart && *final(self) == *old(self),
            old(self).playing() != Some(idx) ==> r == PlayStart::Switch(old(self).current())
                && final(self).current() is None && final(self).entries() == old(self).entries()
                && final(self).same_settings(old(self)),
    {
        let same = match &self.current_song {
            Some(song) => song.index() == idx,
            None => false,
        };
        if same {
            PlayStart::Restart
        } else {
            PlayStart::Switch(self.current_song.take())
        }
    }

    /// Plays slot `idx` on the stream `music`, and centres the list on it. The
    /// song that played before, if any, is handed back.
    pub fn start_playing(&mut self, idx: usize, music: M, lyrics: String, screen_height: i32) -> (r:
        Option<PlayingSong<M>>)
        requires
            old(self).wf(),
            idx < old(self).entries().len(),
        ensures
            final(self).wf(),
            r == old(self).current(),
            final(self).playing() == Some(idx),
            final(self).current()->0.stream() == music,
            final(self).current()->0.lyrics_text() == lyrics,
            final(self).current()->0.lyrics_box() is None,
            final(self).entries() == old(self).entries(),
            final(self).scroll() == centered_scroll_i32(idx as int, screen_height as int - 180),
            final(self).repeat() == old(self).repeat(),
            final(self).selected() == old(self).selected(),
    {
        let song = PlayingSong::new_play(&self.songs[idx], idx, music, lyrics);
        let previous = self.current_song.take();
        self.current_song = Some(song);
        self.adjust_center_song(idx, screen_height);
        previous
    }

    /// Removes the entry at slot `idx`; a slot past the end changes nothing.
    /// The playing song keeps its entry: a later slot moves down by one. When
    /// its own entry goes, it is taken out and handed back with the slot to play
    /// instead, the one that now holds the next entry or else the previous one.
    pub fn remove_song(&mut self, idx: usize) -> (r: AfterRemoval<M>)
        requires
            old(self).wf(),
        ensures
            final(self).wf(),
            idx >= old(self).entries().len() ==> r is Nothing && *final(self) == *old(self),
            idx < old(self).entries().len() ==> {
                let len = old(self).entries().len() - 1;
                &&& final(self).entries() == old(self).entries().remove(idx as int)
                &&& final(self).repeat() == old(self).repeat()
                &&& final(self).scroll() == old(self).scroll()
                &&& final(self).selected() == if old(self).selected() > len && len > 0 {
                    (len - 1) as usize
                } else {
                    old(self).selected()
                }
                &&& match old(self).playing() {
                    None => r is Nothing && final(self).current() is None,
                    Some(p) => if p < idx {
                        r is Nothing && final(self).current() == old(self).current()
                    } else if p > idx {
                        &&& r is Nothing
                        &&& final(self).playing() == Some((p - 1) as usize)
                        &&& final(self).current()->0.stream() == old(self).current()->0.stream()
                        &&& final(self).current()->0.lyrics_text() == old(
                            self,
                        ).current()->0.lyrics_text()
                        &&& final(self).current()->0.lyrics_box() == old(
                            self,
                        ).current()->0.lyrics_box()
                    } else {
                        &&& final(self).current() is None
                        &&& len == 0 ==> r == AfterRemoval::Stop(old(self).current()->0)
                        &&& len > 0 ==> r == AfterRemoval::Play(
                            old(self).current()->0,
                            if p >= len {
                                (p - 1) as usize
                            } else {
                                p
                            },
                        )
                    },
                }
            },
    {
        if idx >= self.songs.len() {
            return AfterRemoval::Nothing;
        }
        self.songs.remove(idx);
        let len = self.songs.len();
        if self.__render_current_selected > len && len > 0 {
            self.__render_current_selected = len - 1;
        }
        let p = match &self.current_song {
            Some(song) => song.index(),
            None => {
                return AfterRemoval::Nothing;
            },
        };
        if p == idx {
            let song = match self.current_song.take() {
                Some(song) => song,
                None => {
                    return AfterRemoval::Nothing;
                },
            };
            if len > 0 {
                if p >= len {
                    AfterRemoval::Play(song, p - 1)
                } else {
                    AfterRemoval::Play(song, p)
                }
            } else {
                AfterRemoval::Stop(song)
            }
        } else if p > idx {
            if let Some(song) = &mut self.current_song {
                song.move_to(p - 1);
            }
            AfterRemoval::Nothing
        } else {
            AfterRemoval::Nothing
        }
    }
    /// Shuffles the list: each draw in turn exchanges the two slots it names.
    /// The playing song follows its entry.
    pub fn shuffle(&mut self, draws: &Vec<(usize, usize)>)
        requires
            old(self).wf(),
        ensures
            final(self).wf(),
            final(self).entries() == shuffled(old(self).entries(), draws@),
            final(self).entries().to_multiset() == old(self).entries().to_multiset(),
            final(self).playing() == match old(self).playing() {
                Some(p) => Some(followed(p, old(self).entries().len() as int, draws@)),
                None => None,
            },
            final(self).current() is Some ==> {
                &&& final(self).current()->0.stream() == old(self).current()->0.stream()
                &&& final(self).current()->0.lyrics_text() == old(self).current()->0.lyrics_text()
                &&& final(self).current()->0.lyrics_box() == old(self).current()->0.lyrics_box()
            },
            final(self).same_settings(old(self)),
    {
        let len = self.songs.len();
        let ghost start = *self;
        let mut i: usize = 0;
        while i < draws.len()
            invariant
                self.wf(),
                0 <= i <= draws@.len(),
                len == start.entries().len(),
                self.entries().len() == len,
                self.entries() == shuffled(start.entries(), draws@.subrange(0, i as int)),
                self.playing() == match start.playing() {
                    Some(p) => Some(followed(p, len as int, draws@.subrange(0, i as int))),
                    None => None,
                },
                self.current() is Some <==> start.current() is Some,
                self.current() is Some ==> {
                    &&& self.current()->0.stream() == start.current()->0.stream()
                    &&& self.current()->0.lyrics_text() == start.current()->0.lyrics_text()
                    &&& self.current()->0.lyrics_box() == start.current()->0.lyrics_box()
                },
                self.same_settings(&start),
            decreases draws@.len() - i,
        {
            let (a, b) = draws[i];
            proof {
                let done = draws@.subrange(0, i as int);
                let next = draws@.subrange(0, i + 1);
                assert(next.drop_last() =~= done);
                assert(next.last() == draws@[i as int]);
            }
            if a < len && b < len && a != b {
                if let Some(song) = &mut self.current_song {
                    let p = song.index();
                    if p == a {
                        song.move_to(b);
                    } else if p == b {
                        song.move_to(a);
                    }
                }
                swap_items(&mut self.songs, a, b);
            }
            i = i + 1;
        }
        assert(draws@.subrange(0, draws@.len() as int) =~= draws@);
        proof {
            lemma_shuffle_keeps_entries(start.entries(), draws@);
        }
    }

    /// The slot to play on "next": the one after the playing song, or the first
    /// when nothing plays or the last song plays.
    pub fn next_index(&self) -> (r: usize)
        requires
            self.wf(),
        ensures
            r == match self.playing() {
                Some(p) => if p + 1 < self.entries().len() {
                    (p + 1) as usize
                } else {
                    0
                },
                None => 0,
            },
    {
        match self.currently_playing_id() {
            Some(idx) => {
                let n = self.songs.len();
                assert(idx < n);
                if idx + 1 < n {
                    idx + 1
                } else {
                    0
                }
            },
            None => 0,
        }
    }

    /// The slot to play on the "previous" key: the one before the playing song,
    /// the second when the first plays, the first when nothing plays.
    pub fn previous_index(&self) -> (r: Option<usize>)
        requires
            self.wf(),
        ensures
            r == match self.playing() {
                Some(p) => if p == 0 {
                    Some(1usize)
                } else {
                    Some((p - 1) as usize)
                },
                None => Some(0usize),
            },
    {
        match self.currently_playing_id() {
            Some(idx) => {
                if idx == 0 {
                    Some(idx + 1)
                } else if idx < self.songs.len() {
                    Some(idx - 1)
                } else if self.songs.len() > 0 {
                    Some(self.songs.len() - 1)
                } else {
                    None
                }
            },
            None => Some(0),
        }
    }

    /// The slot to play on the "previous" button: the one before the playing
    /// song, else the first.
    pub fn previous_button_index(&self) -> (r: usize)
        requires
            self.wf(),
        ensures
            r == match self.playing() {
                Some(p) => if p == 0 {
                    0
                } else {
                    (p - 1) as usize
                },
                None => 0,
            },
    {
        let idx = match self.currently_playing_id() {
            Some(idx) => idx,
            None => 0,
        };
        if idx == 0 {
            0
        } else if idx - 1 < self.songs.len() {
            idx - 1
        } else if self.songs.len() > 0 {
            self.songs.len() - 1
        } else {
            0
        }
    }

    /// What follows when the playing song ends, by the repeat mode: without
    /// repeat the next song or a stop after the last; repeating the list, the
    /// next song or the first after the last; repeating one song, that song again.
    pub fn on_track_end(&self) -> (r: TrackEnd)
        requires
            self.wf(),
        ensures
            r == match self.playing() {
                None => TrackEnd::Stop,
                Some(p) => match self.repeat() {
                    RepeatBehavior::Normal => if p + 1 < self.entries().len() {
                        TrackEnd::Play((p + 1) as usize)
                    } else {
                        TrackEnd::Stop
                    },
                    RepeatBehavior::RepeatSingle => TrackEnd::Restart,
                    RepeatBehavior::Repeat => if p + 1 < self.entries().len() {
                        TrackEnd::Play((p + 1) as usize)
                    } else {
                        TrackEnd::Play(0)
                    },
                },
            },
    {
        let idx = match self.currently_playing_id() {
            Some(idx) => idx,
            None => {
                return TrackEnd::Stop;
            },
        };
        let n = self.songs.len();
        assert(idx < n);
        match self.repeat_behavior {
            RepeatBehavior::Normal => {
                if idx + 1 < n {
                    TrackEnd::Play(idx + 1)
                } else {
                    TrackEnd::Stop
                }
            },
            RepeatBehavior::RepeatSingle => TrackEnd::Restart,
            RepeatBehavior::Repeat => {
                if idx + 1 < n {
                    TrackEnd::Play(idx + 1)
                } else if self.songs.len() > 0 {
                    TrackEnd::Play(0)
                } else {
                    TrackEnd::Stop
                }
            },
        }
    }

    /// Puts the selection cursor on the playing song and centres the list on
    /// it; with nothing playing, on the first slot at the top.
    pub fn init_select(&mut self, screen_height: i32)
        requires
            old(self).wf(),
        ensures
            final(self).wf(),
            final(self).entries() == old(self).entries(),
            final(self).current() == old(self).current(),
            final(self).repeat() == old(self).repeat(),
            match old(self).playing() {
                Some(p) => final(self).selected() == p && final(self).scroll()
                    == centered_scroll_i32(p as int, screen_height as int - 180),
                None => final(self).selected() == 0 && final(self).scroll() == 0,
            },
    {
        match self.currently_playing_id() {
            Some(id) => {
                self.__render_current_selected = id;
                self.adjust_center_song(id, screen_height);
            },
            None => {
                self.__render_current_selected = 0;
                self.__render_scroll_index = 0;
            },
        }
    }

    /// Moves the selection cursor one slot up, if it is not at the top, and
    /// centres the list on it.
    pub fn select_previous(&mut self, screen_height: i32)
        requires
            old(self).wf(),
        ensures
            final(self).wf(),
            final(self).entries() == old(self).entries(),
            final(self).current() == old(self).current(),
            final(self).repeat() == old(self).repeat(),
            old(self).selected() > 0 ==> final(self).selected() == old(self).selected() - 1
                && final(self).scroll() == centered_scroll_i32(
                final(self).selected() as int,
                screen_height as int - 180,
            ),
            old(self).selected() == 0 ==> *final(self) == *old(self),
    {
        if self.__render_current_selected > 0 {
            self.__render_current_selected = self.__render_current_selected - 1;
            let s = self.__render_current_selected;
            self.adjust_center_song(s, screen_height);
        }
    }

    /// Moves the selection cursor one slot down, if it is above the last slot,
    /// and centres the list on it.
    pub fn select_next(&mut self, screen_height: i32)
        requires
            old(self).wf(),
        ensures
            final(self).wf(),
            final(self).entries() == old(self).entries(),
            final(self).current() == old(self).current(),
            final(self).repeat() == old(self).repeat(),
            old(self).selected() + 1 < old(self).entries().len() ==> final(self).selected()
                == old(self).selected() + 1 && final(self).scroll() == centered_scroll_i32(
                final(self).selected() as int,
                screen_height as int - 180,
            ),
            old(self).selected() + 1 >= old(self).entries().len() ==> *final(self) == *old(self),
    {
        let len = self.songs.len();
        if len > 0 && self.__render_current_selected < len - 1 {
            self.__render_current_selected = self.__render_current_selected + 1;
            let s = self.__render_current_selected;
            self.adjust_center_song(s, screen_height);
        }
    }

    /// The stream of the playing song, to act on.
    pub fn current_music_mut(&mut self) -> (r: Option<&mut M>)
        requires
            old(self).wf(),
        ensures
            r is Some <==> old(self).current() is Some,
            r is Some ==> *r->0 == old(self).current()->0.stream() && final(self).current() is Some
                && final(self).current()->0.stream() == *final(r->0),
            final(self).wf(),
            final(self).entries() == old(self).entries(),
            final(self).playing() == old(self).playing(),
            final(self).same_settings(old(self)),
            final(self).current() is Some ==> {
                &&& final(self).current()->0.lyrics_text() == old(self).current()->0.lyrics_text()
                &&& final(self).current()->0.lyrics_box() == old(self).current()->0.lyrics_box()
            },
    {
        match self.current_song.as_mut() {
            Some(song) => Some(song.music_mut()),
            None => None,
        }
    }

    /// Keeps the size that the lyrics of the playing song take on screen.
    pub fn set_lyrics_dimensions(&mut self, dims: (i32, i32))
        requires
            old(self).wf(),
        ensures
            final(self).wf(),
            final(self).entries() == old(self).entries(),
            final(self).playing() == old(self).playing(),
            final(self).same_settings(old(self)),
            final(self).current() is Some ==> {
                &&& final(self).current()->0.lyrics_box() == Some(dims)
                &&& final(self).current()->0.stream() == old(self).current()->0.stream()
                &&& final(self).current()->0.lyrics_text() == old(self).current()->0.lyrics_text()
            },
    {
        if let Some(song) = &mut self.current_song {
            song.set_lyrics_box(dims);
        }
    }
}

/// The paths written one per line, without a line break after the last.
pub open spec fn join_lines(ps: Seq<Seq<char>>) -> Seq<char>
    decreases ps.len(),
{
    if ps.len() == 0 {
        Seq::empty()
    } else if ps.len() == 1 {
        ps[0]
    } else {
        join_lines(ps.drop_last()) + seq!['\n'] + ps.last()
    }
}

/// The texts of `ps`.
pub open spec fn texts(ps: Seq<String>) -> Seq<Seq<char>> {
    ps.map_values(|p: String| p@)
}

/// The contents of a playlist file that lists `paths`, one per line.
pub fn playlist_text(paths: &Vec<String>) -> (r: Vec<u8>)
    ensures
        r@ == encode_utf8(join_lines(texts(paths@))),
{
    let mut out: Vec<u8> = Vec::new();
    let mut i: usize = 0;
    proof {
        assert(texts(paths@.subrange(0, 0)) =~= Seq::<Seq<char>>::empty());
    }
    while i < paths.len()
        invariant
            0 <= i <= paths@.len(),
            out@ == encode_utf8(join_lines(texts(paths@.subrange(0, i as int)))),
        decreases paths@.len() - i,
    {
        let ghost done = texts(paths@.subrange(0, i as int));
        let ghost next = texts(paths@.subrange(0, i + 1));
        proof {
            assert(next.drop_last() =~= done);
            assert(next.last() == paths@[i as int]@);
        }
        if i > 0 {
            out.push(10);
            proof {
                let nl = seq!['\n'];
                assert(is_ascii_chars(nl));
                is_ascii_chars_encode_utf8(nl);
                assert(nl[0] as u8 == 10u8);
                assert(encode_utf8(nl) =~= seq![10u8]);
                lemma_encode_utf8_concat(join_lines(done), seq!['\n']);
                assert(out@ =~= encode_utf8(join_lines(done) + seq!['\n']));
            }
        }
        let mut more = utf8_bytes(paths[i].as_str());
        proof {
            if i > 0 {
                lemma_encode_utf8_concat(join_lines(done) + seq!['\n'], paths@[i as int]@);
            } else {
                assert(next.len() == 1);
                assert(out@ =~= Seq::<u8>::empty());
            }
        }
        out.append(&mut more);
        proof {
            if i == 0 {
                assert(out@ =~= encode_utf8(paths@[0]@));
            }
        }
        i = i + 1;
    }
    assert(paths@.subrange(0, paths@.len() as int) =~= paths@);
    out
}

/// Splitting at `c` around an occurrence of `c` splits each side on its own.
pub proof fn lemma_split_on_around(a: Seq<char>, c: char, b: Seq<char>)
    ensures
        split_on(a + seq![c] + b, c) == split_on(a, c) + split_on(b, c),
    decreases a.len(),
{
    if a.len() == 0 {
        assert(a + seq![c] + b =~= seq![c] + b);
        assert((seq![c] + b).drop_first() =~= b);
    } else {
        let t = a.drop_first();
        assert((a + seq![c] + b).drop_first() =~= t + seq![c] + b);
        assert((a + seq![c] + b)[0] == a[0]);
        lemma_split_on_around(t, c, b);
        lemma_split_on_nonempty(t, c);
        if a[0] == c {
            assert(seq![Seq::<char>::empty()] + (split_on(t, c) + split_on(b, c)) =~= (seq![
                Seq::<char>::empty(),
            ] + split_on(t, c)) + split_on(b, c));
        } else {
            let rest = split_on(t, c);
            assert((rest + split_on(b, c)).update(0, seq![a[0]] + rest[0]) =~= rest.update(
                0,
                seq![a[0]] + rest[0],
            ) + split_on(b, c));
        }
    }
}

/// A text without `c` is a single piece.
pub proof fn lemma_split_on_without(p: Seq<char>, c: char)
    requires
        !p.contains(c),
    ensures
        split_on(p, c) == seq![p],
    decreases p.len(),
{
    if p.len() == 0 {
        assert(p =~= Seq::<char>::empty());
    } else {
        let t = p.drop_first();
        assert(!t.contains(c)) by {
            if t.contains(c) {
                let k = choose|k: int| 0 <= k < t.len() && t[k] == c;
                assert(p[k + 1] == c);
            }
        }
        lemma_split_on_without(t, c);
        assert(p[0] != c) by {
            assert(p[0] == p[0]);
            if p[0] == c {
                assert(p.contains(c));
            }
        }
        assert(seq![p[0]] + t =~= p);
        assert(seq![t].update(0, seq![p[0]] + t) =~= seq![p]);
    }
}

/// A playlist file written from one or more paths, none with a line break,
/// reads back as the same paths.
pub proof fn lemma_playlist_text_round_trip(ps: Seq<Seq<char>>)
    requires
        ps.len() >= 1,
        forall|i: int| 0 <= i < ps.len() ==> !(#[trigger] ps[i]).contains('\n'),
    ensures
        split_on(join_lines(ps), '\n') == ps,
    decreases ps.len(),
{
    if ps.len() == 1 {
        lemma_split_on_without(ps[0], '\n');
        assert(seq![ps[0]] =~= ps);
    } else {
        let init = ps.drop_last();
        assert forall|i: int| 0 <= i < init.len() implies !(#[trigger] init[i]).contains('\n') by {
            assert(init[i] == ps[i]);
        }
        lemma_playlist_text_round_trip(init);
        lemma_split_on_around(join_lines(init), '\n', ps.last());
        lemma_split_on_without(ps.last(), '\n');
        assert(init + seq![ps.last()] =~= ps);
    }
}

/// The paths that a playlist file lists: its lines, in order.
pub fn playlist_file_paths(text: &str) -> (r: Vec<&str>)
    ensures
        r@.len() == split_on(text@, '\n').len(),
        forall|i: int| 0 <= i < r@.len() ==> (#[trigger] r@[i])@ == split_on(text@, '\n')[i],
{
    split_char(text, '\n')
}

} // verus!
