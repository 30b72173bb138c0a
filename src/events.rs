//! What the player does about each event of the decoder: a fixed table from
//! event to state change and follow-up requests.
use vstd::prelude::*;
use crate::tracks::{Node, Tracks, parsed_from};

verus! {

/// A property value. Floating-point values are handled before they get here.
pub enum PropertyValue {
    I64(i64),
    Bool(bool),
    Str(String),
    Node(Node),
}

pub struct Property {
    pub version: u64,
    pub name: String,
    pub value: PropertyValue,
}

pub enum Event {
    /// The value of a property that was asked for.
    Property(Property),
    /// A property that is watched has changed.
    PropertyChange(String),
    VideoReconfig,
    FileLoaded,
    EndFile,
}

/// A property to ask the decoder for.
#[derive(Debug, PartialEq, Eq, Structural)]
pub enum Query {
    Size,
    Path,
    VideoParams,
    TrackList,
    Pause,
    Aid,
    Vid,
    Sid,
    Hwdec,
    HwdecCurrent,
}

#[derive(Debug)]
pub enum Reaction {
    Ask(Query),
    /// A file was opened at this path: its stored settings are to be loaded.
    FileOpened(String),
}

/// What the player knows of the playback.
pub struct PlaybackState {
    /// The video size as it comes in, one side at a time.
    pub async_size: (Option<u32>, Option<u32>),
    pub file_path: Option<String>,
    pub file_duration: Option<u32>,
    pub file_tracks: Option<Tracks>,
    pub hwdec: String,
    pub hwdec_current: String,
    pub playing: bool,
    pub duration: u32,
}

/// The property to ask for when a watched one changes.
pub open spec fn change_query(name: Seq<char>) -> Option<Query> {
    if name == "pause"@ {
        Some(Query::Pause)
    } else if name == "aid"@ {
        Some(Query::Aid)
    } else if name == "vid"@ {
        Some(Query::Vid)
    } else if name == "sid"@ {
        Some(Query::Sid)
    } else if name == "hwdec"@ {
        Some(Query::Hwdec)
    } else if name == "hwdec-current"@ {
        Some(Query::HwdecCurrent)
    } else {
        None
    }
}

pub open spec fn without_file(s: PlaybackState) -> PlaybackState {
    PlaybackState { file_path: None, file_duration: None, file_tracks: None, ..s }
}

/// `t` with the selected track of one type set: `which` is 0 for video, 1
/// for audio and 2 for subtitles.
pub open spec fn with_selected(t: Option<Tracks>, which: int, v: i64) -> Option<Tracks> {
    match t {
        Some(t) => Some(
            if which == 0 {
                Tracks { vid: v, ..t }
            } else if which == 1 {
                Tracks { aid: v, ..t }
            } else {
                Tracks { sid: v, ..t }
            },
        ),
        None => None,
    }
}

/// The state after a property value comes in, and what follows from it; a
/// track list is read apart (see `on_event`), so here it leaves the state
/// alone.
pub open spec fn on_property(s: PlaybackState, p: Property) -> (PlaybackState, Seq<Reaction>) {
    let n = p.name@;
    match p.value {
        PropertyValue::Str(v) => if n == "hwdec-current"@ {
            (PlaybackState { hwdec_current: v, ..s }, seq![])
        } else if n == "hwdec"@ {
            (PlaybackState { hwdec: v, ..s }, seq![])
        } else if n == "path"@ {
            (PlaybackState { file_path: Some(v), ..s }, seq![Reaction::FileOpened(v)])
        } else {
            (s, seq![])
        },
        PropertyValue::I64(v) => if n == "width"@ {
            (PlaybackState { async_size: (Some(v as u32), s.async_size.1), ..s }, seq![])
        } else if n == "height"@ {
            (PlaybackState { async_size: (s.async_size.0, Some(v as u32)), ..s }, seq![])
        } else if n == "duration"@ {
            (PlaybackState { duration: v as u32, file_duration: Some(v as u32), ..s }, seq![])
        } else if n == "vid"@ {
            (PlaybackState { file_tracks: with_selected(s.file_tracks, 0, v), ..s }, seq![])
        } else if n == "aid"@ {
            (PlaybackState { file_tracks: with_selected(s.file_tracks, 1, v), ..s }, seq![])
        } else if n == "sid"@ {
            (PlaybackState { file_tracks: with_selected(s.file_tracks, 2, v), ..s }, seq![])
        } else {
            (s, seq![])
        },
        PropertyValue::Bool(v) => if n == "pause"@ {
            (PlaybackState { playing: !v, ..s }, seq![])
        } else {
            (s, seq![])
        },
        PropertyValue::Node(_) => if n == "track-list"@ {
            (s, seq![Reaction::Ask(Query::Vid), Reaction::Ask(Query::Aid), Reaction::Ask(Query::Sid)])
        } else {
            (s, seq![])
        },
    }
}

/// Whether `ev` is a track list coming in.
pub open spec fn is_track_list(ev: Event) -> bool {
    ev matches Event::Property(p) && p.name@ == "track-list"@ && p.value is Node
}

/// The state after `ev`, and what follows from it.
pub open spec fn react(s: PlaybackState, ev: Event) -> (PlaybackState, Seq<Reaction>) {
    match ev {
        Event::VideoReconfig => (
            PlaybackState { async_size: (None, None), ..s },
            seq![Reaction::Ask(Query::Size)],
        ),
        Event::EndFile => (without_file(s), seq![]),
        Event::FileLoaded => (
            without_file(s),
            seq![
                Reaction::Ask(Query::Path),
                Reaction::Ask(Query::VideoParams),
                Reaction::Ask(Query::TrackList),
            ],
        ),
        Event::PropertyChange(name) => (
            s,
            match change_query(name@) {
                Some(q) => seq![Reaction::Ask(q)],
                None => seq![],
            },
        ),
        Event::Property(p) => on_property(s, p),
    }
}

/// Whether `s` reads `lit`.
fn is_named(s: &String, lit: &str) -> (r: bool)
    ensures
        r == (s@ == lit@),
{
    let l = lit.to_owned();
    s.eq(&l)
}

fn ask(q: Query) -> (r: Vec<Reaction>)
    ensures
        r@ == seq![Reaction::Ask(q)],
{
    let mut r: Vec<Reaction> = Vec::new();
    r.push(Reaction::Ask(q));
    assert(r@ =~= seq![Reaction::Ask(q)]);
    r
}

impl PlaybackState {
    /// Nothing known yet.
    pub fn new() -> (r: PlaybackState)
        ensures
            r.async_size == (None::<u32>, None::<u32>),
            r.file_path is None && r.file_duration is None && r.file_tracks is None,
            r.hwdec@.len() == 0 && r.hwdec_current@.len() == 0,
            !r.playing,
            r.duration == 0,
    {
        PlaybackState {
            async_size: (None, None),
            file_path: None,
            file_duration: None,
            file_tracks: None,
            hwdec: String::new(),
            hwdec_current: String::new(),
            playing: false,
            duration: 0,
        }
    }

    /// Takes in one event of the decoder. Returns what is to follow, in
    /// order: properties to ask for, and a file whose settings to load.
    pub fn on_event(&mut self, ev: Event) -> (r: Vec<Reaction>)
        ensures
            !is_track_list(ev) ==> (*final(self), r@) == react(*old(self), ev),
            is_track_list(ev) ==> {
                &&& r@ == react(*old(self), ev).1
                &&& *final(self) == (PlaybackState { file_tracks: final(self).file_tracks, ..*old(self) })
                &&& (ev matches Event::Property(p) && (p.value matches PropertyValue::Node(n)
                    && (final(self).file_tracks matches Some(t) && parsed_from(t, n))))
            },
    {
        match ev {
            Event::VideoReconfig => {
                self.async_size = (None, None);
                ask(Query::Size)
            },
            Event::EndFile => {
                self.file_path = None;
                self.file_duration = None;
                self.file_tracks = None;
                Vec::new()
            },
            Event::FileLoaded => {
                self.file_path = None;
                self.file_duration = None;
                self.file_tracks = None;
                let mut r: Vec<Reaction> = Vec::new();
                r.push(Reaction::Ask(Query::Path));
                r.push(Reaction::Ask(Query::VideoParams));
                r.push(Reaction::Ask(Query::TrackList));
                assert(r@ =~= react(*old(self), ev).1);
                r
            },
            Event::PropertyChange(name) => {
                let q = if is_named(&name, "pause") {
                    Some(Query::Pause)
                } else if is_named(&name, "aid") {
                    Some(Query::Aid)
                } else if is_named(&name, "vid") {
                    Some(Query::Vid)
                } else if is_named(&name, "sid") {
                    Some(Query::Sid)
                } else if is_named(&name, "hwdec") {
                    Some(Query::Hwdec)
                } else if is_named(&name, "hwdec-current") {
                    Some(Query::HwdecCurrent)
                } else {
                    None
                };
                match q {
                    Some(q) => ask(q),
                    None => Vec::new(),
                }
            },
            Event::Property(p) => self.on_property(p),
        }
    }

    fn on_property(&mut self, p: Property) -> (r: Vec<Reaction>)
        ensures
            !is_track_list(Event::Property(p)) ==> (*final(self), r@) == on_property(*old(self), p),
            is_track_list(Event::Property(p)) ==> {
                &&& r@ == on_property(*old(self), p).1
                &&& *final(self) == (PlaybackState { file_tracks: final(self).file_tracks, ..*old(self) })
                &&& (p.value matches PropertyValue::Node(n) && (final(self).file_tracks matches Some(
                    t,
                ) && parsed_from(t, n)))
            },
    {
        let ghost p0 = p;
        let Property { version: _, name, value } = p;
        match value {
            PropertyValue::Str(v) => {
                if is_named(&name, "hwdec-current") {
                    self.hwdec_current = v;
                } else if is_named(&name, "hwdec") {
                    self.hwdec = v;
                } else if is_named(&name, "path") {
                    self.file_path = Some(v.clone());
                    let mut r: Vec<Reaction> = Vec::new();
                    r.push(Reaction::FileOpened(v));
                    assert(r@ =~= on_property(*old(self), p0).1);
                    return r;
                }
                Vec::new()
            },
            PropertyValue::I64(v) => {
                if is_named(&name, "width") {
                    self.async_size.0 = Some(v as u32);
                } else if is_named(&name, "height") {
                    self.async_size.1 = Some(v as u32);
                } else if is_named(&name, "duration") {
                    self.duration = v as u32;
                    self.file_duration = Some(v as u32);
                } else if is_named(&name, "vid") {
                    if let Some(t) = &mut self.file_tracks {
                        t.vid = v;
                    }
                } else if is_named(&name, "aid") {
                    if let Some(t) = &mut self.file_tracks {
                        t.aid = v;
                    }
                } else if is_named(&name, "sid") {
                    if let Some(t) = &mut self.file_tracks {
                        t.sid = v;
                    }
                }
                Vec::new()
            },
            PropertyValue::Bool(v) => {
                if is_named(&name, "pause") {
                    self.playing = !v;
                }
                Vec::new()
            },
            PropertyValue::Node(n) => {
                if is_named(&name, "track-list") {
                    self.file_tracks = Some(Tracks::parse(&n));
                    let mut r: Vec<Reaction> = Vec::new();
                    r.push(Reaction::Ask(Query::Vid));
                    r.push(Reaction::Ask(Query::Aid));
                    r.push(Reaction::Ask(Query::Sid));
                    assert(r@ =~= on_property(*old(self), p0).1);
                    return r;
                }
                Vec::new()
            },
        }
    }

    /// The video size once both sides have come in; both are then forgotten,
    /// so that the size is handed on once.
    pub fn take_size(&mut self) -> (r: Option<(u32, u32)>)
        ensures
            old(self).async_size matches (Some(w), Some(h)) ==> r == Some((w, h))
                && final(self).async_size == (None::<u32>, None::<u32>),
            !(old(self).async_size matches (Some(_), Some(_))) ==> r is None && *final(self)
                == *old(self),
            *final(self) == (PlaybackState { async_size: final(self).async_size, ..*old(self) }),
    {
        if let (Some(w), Some(h)) = self.async_size {
            self.async_size = (None, None);
            Some((w, h))
        } else {
            None
        }
    }
}

} // verus!
