//! The decoder's track list, read from the tree of values it reports.
use vstd::prelude::*;

verus! {

/// A value reported by the decoder. `Real` stands for a floating-point value,
/// which nothing here reads. A map holds each key once.
#[derive(Debug)]
pub enum Node {
    I64(i64),
    Real,
    Bool(bool),
    Str(String),
    Array(Vec<Node>),
    Dict(Vec<(String, Node)>),
}

impl Node {
    pub fn as_i64(&self) -> (r: Option<&i64>)
        ensures
            match *self {
                Node::I64(v) => r == Some(&v),
                _ => r is None,
            },
    {
        if let Node::I64(v) = self {
            Some(v)
        } else {
            None
        }
    }

    pub fn as_bool(&self) -> (r: Option<&bool>)
        ensures
            match *self {
                Node::Bool(v) => r == Some(&v),
                _ => r is None,
            },
    {
        if let Node::Bool(v) = self {
            Some(v)
        } else {
            None
        }
    }

    pub fn as_string(&self) -> (r: Option<&String>)
        ensures
            match *self {
                Node::Str(v) => r == Some(&v),
                _ => r is None,
            },
    {
        if let Node::Str(v) = self {
            Some(v)
        } else {
            None
        }
    }

    pub fn as_array(&self) -> (r: Option<&Vec<Node>>)
        ensures
            match *self {
                Node::Array(v) => r == Some(&v),
                _ => r is None,
            },
    {
        if let Node::Array(v) = self {
            Some(v)
        } else {
            None
        }
    }

    /// The entries of a map, each key once.
    pub fn as_map(&self) -> (r: Option<&Vec<(String, Node)>>)
        ensures
            match *self {
                Node::Dict(v) => r == Some(&v),
                _ => r is None,
            },
    {
        if let Node::Dict(v) = self {
            Some(v)
        } else {
            None
        }
    }
}

/// The value under `key`.
pub open spec fn lookup(m: Seq<(String, Node)>, key: Seq<char>) -> Option<Node>
    decreases m.len(),
{
    if m.len() == 0 {
        None
    } else if m[0].0@ == key {
        Some(m[0].1)
    } else {
        lookup(m.drop_first(), key)
    }
}

/// The text under `key`, empty where there is none.
pub open spec fn text_field(m: Seq<(String, Node)>, key: Seq<char>) -> Seq<char> {
    match lookup(m, key) {
        Some(Node::Str(s)) => s@,
        _ => Seq::empty(),
    }
}

pub struct TrackInfo {
    pub id: i64,
    pub title: Seq<char>,
    pub codec: Seq<char>,
    pub lang: Seq<char>,
}

/// A track entry: a map with an integer "id" and a text "type"; gives the
/// type and the track.
pub open spec fn entry_of(n: Node) -> Option<(Seq<char>, TrackInfo)> {
    match n {
        Node::Dict(m) => match (lookup(m@, "id"@), lookup(m@, "type"@)) {
            (Some(Node::I64(id)), Some(Node::Str(t))) => Some(
                (
                    t@,
                    TrackInfo {
                        id,
                        title: text_field(m@, "title"@),
                        codec: text_field(m@, "codec"@),
                        lang: text_field(m@, "lang"@),
                    },
                ),
            ),
            _ => None,
        },
        _ => None,
    }
}

/// The tracks of type `kind` in `list`, in order.
pub open spec fn tracks_of(list: Seq<Node>, kind: Seq<char>) -> Seq<TrackInfo>
    decreases list.len(),
{
    if list.len() == 0 {
        Seq::empty()
    } else {
        let rest = tracks_of(list.drop_last(), kind);
        match entry_of(list.last()) {
            Some((t, info)) => if t == kind {
                rest.push(info)
            } else {
                rest
            },
            None => rest,
        }
    }
}

#[derive(Debug)]
pub struct Track {
    pub id: i64,
    pub title: String,
    pub codec: String,
    pub lang: String,
}

impl View for Track {
    type V = TrackInfo;

    open spec fn view(&self) -> TrackInfo {
        TrackInfo { id: self.id, title: self.title@, codec: self.codec@, lang: self.lang@ }
    }
}

pub open spec fn track_views(v: Seq<Track>) -> Seq<TrackInfo> {
    v.map_values(|t: Track| t@)
}

/// The tracks of a file by type, with the selected one of each.
pub struct Tracks {
    pub vid: i64,
    pub aid: i64,
    pub sid: i64,
    pub video: Vec<Track>,
    pub audio: Vec<Track>,
    pub sub: Vec<Track>,
}

impl Default for Tracks {
    fn default() -> (r: Tracks)
        ensures
            r.vid == 0 && r.aid == 0 && r.sid == 0,
            r.video@.len() == 0 && r.audio@.len() == 0 && r.sub@.len() == 0,
    {
        Tracks { vid: 0, aid: 0, sid: 0, video: Vec::new(), audio: Vec::new(), sub: Vec::new() }
    }
}

/// Where `key` stands in `m`.
fn find(m: &Vec<(String, Node)>, key: &String) -> (r: Option<usize>)
    ensures
        match r {
            Some(i) => i < m@.len() && lookup(m@, key@) == Some(m@[i as int].1),
            None => lookup(m@, key@) is None,
        },
{
    let mut i: usize = 0;
    assert(m@.subrange(0, m@.len() as int) =~= m@);
    while i < m.len()
        invariant
            i <= m@.len(),
            lookup(m@, key@) == lookup(m@.subrange(i as int, m@.len() as int), key@),
        decreases m@.len() - i,
    {
        let ghost rest = m@.subrange(i as int, m@.len() as int);
        if m[i].0.eq(key) {
            assert(rest[0] == m@[i as int]);
            return Some(i);
        }
        assert(rest.drop_first() =~= m@.subrange(i + 1, m@.len() as int));
        i = i + 1;
    }
    None
}

/// The text under `key`, empty where there is none.
fn text_in(m: &Vec<(String, Node)>, key: &str) -> (r: String)
    ensures
        r@ == text_field(m@, key@),
{
    let k = key.to_owned();
    match find(m, &k) {
        Some(i) => match &m[i].1 {
            Node::Str(s) => s.clone(),
            _ => String::new(),
        },
        None => String::new(),
    }
}

/// `r` is what `parse` gives for `n`.
pub open spec fn parsed_from(r: Tracks, n: Node) -> bool {
    &&& r.vid == 0 && r.aid == 0 && r.sid == 0
    &&& match n {
        Node::Array(list) => {
            &&& track_views(r.video@) == tracks_of(list@, "video"@)
            &&& track_views(r.audio@) == tracks_of(list@, "audio"@)
            &&& track_views(r.sub@) == tracks_of(list@, "sub"@)
        },
        _ => r.video@.len() == 0 && r.audio@.len() == 0 && r.sub@.len() == 0,
    }
}

impl Tracks {
    /// Reads the decoder's track list: an array of maps, each with an integer
    /// "id", a "type" of "video", "audio" or "sub", and text "title",
    /// "codec" and "lang" (empty where missing). Entries without id or type,
    /// or of another type, are skipped; anything but an array gives no track.
    /// No track is selected yet.
    pub fn parse(n: &Node) -> (r: Tracks)
        ensures
            parsed_from(r, *n),
    {
        let list = match n {
            Node::Array(v) => v,
            _ => return Tracks::default(),
        };
        proof {
            reveal_strlit("video");
            reveal_strlit("audio");
            reveal_strlit("sub");
            assert("video"@[0] != "audio"@[0]);
            assert("video"@.len() != "sub"@.len());
            assert("audio"@.len() != "sub"@.len());
        }
        let id_key = "id".to_owned();
        let type_key = "type".to_owned();
        let video_kind = "video".to_owned();
        let audio_kind = "audio".to_owned();
        let sub_kind = "sub".to_owned();
        let mut video: Vec<Track> = Vec::new();
        let mut audio: Vec<Track> = Vec::new();
        let mut sub: Vec<Track> = Vec::new();
        let mut i: usize = 0;
        while i < list.len()
            invariant
                i <= list@.len(),
                id_key@ == "id"@,
                type_key@ == "type"@,
                video_kind@ == "video"@,
                audio_kind@ == "audio"@,
                sub_kind@ == "sub"@,
                "video"@ != "audio"@,
                "video"@ != "sub"@,
                "audio"@ != "sub"@,
                track_views(video@) == tracks_of(list@.take(i as int), "video"@),
                track_views(audio@) == tracks_of(list@.take(i as int), "audio"@),
                track_views(sub@) == tracks_of(list@.take(i as int), "sub"@),
            decreases list@.len() - i,
        {
            let ghost v0 = video@;
            let ghost a0 = audio@;
            let ghost s0 = sub@;
            proof {
                assert(list@.take(i + 1).drop_last() =~= list@.take(i as int));
                assert(list@.take(i + 1).last() == list@[i as int]);
            }
            if let Node::Dict(m) = &list[i] {
                let id = find(m, &id_key);
                let typ = find(m, &type_key);
                if let (Some(ii), Some(ti)) = (id, typ) {
                    if let (Node::I64(id), Node::Str(t)) = (&m[ii].1, &m[ti].1) {
                        let track = Track {
                            id: *id,
                            title: text_in(m, "title"),
                            codec: text_in(m, "codec"),
                            lang: text_in(m, "lang"),
                        };
                        if t.eq(&video_kind) {
                            video.push(track);
                        } else if t.eq(&audio_kind) {
                            audio.push(track);
                        } else if t.eq(&sub_kind) {
                            sub.push(track);
                        }
                    }
                }
            }
            proof {
                assert(track_views(video@) =~= tracks_of(list@.take(i + 1), "video"@));
                assert(track_views(audio@) =~= tracks_of(list@.take(i + 1), "audio"@));
                assert(track_views(sub@) =~= tracks_of(list@.take(i + 1), "sub"@));
            }
            i = i + 1;
        }
        assert(list@.take(list@.len() as int) =~= list@);
        Tracks { vid: 0, aid: 0, sid: 0, video, audio, sub }
    }
}

} // verus!
