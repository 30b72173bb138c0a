use vrmp::events::{Event, PlaybackState, Property, PropertyValue, Query, Reaction};
use vrmp::redraw::RedrawGate;
use vrmp::tracks::{Node, Tracks};

fn s(x: &str) -> String {
    x.to_string()
}

fn track_entry(id: i64, typ: &str, title: Option<&str>) -> Node {
    let mut m = vec![(s("id"), Node::I64(id)), (s("type"), Node::Str(s(typ)))];
    if let Some(t) = title {
        m.push((s("title"), Node::Str(s(t))));
    }
    m.push((s("codec"), Node::Str(s("h264"))));
    Node::Dict(m)
}

fn asks(r: &[Reaction]) -> Vec<&Query> {
    r.iter()
        .map(|x| match x {
            Reaction::Ask(q) => q,
            Reaction::FileOpened(_) => panic!("unexpected file"),
        })
        .collect()
}

fn prop(name: &str, value: PropertyValue) -> Event {
    Event::Property(Property { version: 0, name: s(name), value })
}

#[test]
fn parse_sorts_tracks_by_type() {
    let list = Node::Array(vec![
        track_entry(1, "video", Some("Main")),
        track_entry(1, "audio", None),
        track_entry(2, "audio", Some("Commentary")),
        track_entry(1, "sub", Some("English")),
        track_entry(9, "other", None),
        Node::Dict(vec![(s("type"), Node::Str(s("video")))]),
        Node::I64(3),
    ]);
    let t = Tracks::parse(&list);
    assert_eq!(t.video.len(), 1);
    assert_eq!(t.video[0].id, 1);
    assert_eq!(t.video[0].title, "Main");
    assert_eq!(t.video[0].codec, "h264");
    assert_eq!(t.video[0].lang, "");
    assert_eq!(t.audio.len(), 2);
    assert_eq!(t.audio[1].title, "Commentary");
    assert_eq!(t.audio[0].title, "");
    assert_eq!(t.sub.len(), 1);
    assert_eq!((t.vid, t.aid, t.sid), (0, 0, 0));
}

#[test]
fn parse_of_non_array_is_empty() {
    let t = Tracks::parse(&Node::Str(s("video")));
    assert!(t.video.is_empty() && t.audio.is_empty() && t.sub.is_empty());
}

#[test]
fn size_arrives_in_two_parts() {
    let mut st = PlaybackState::new();
    let r = st.on_event(Event::VideoReconfig);
    assert_eq!(asks(&r), vec![&Query::Size]);
    assert!(st.on_event(prop("width", PropertyValue::I64(1920))).is_empty());
    assert_eq!(st.take_size(), None);
    assert!(st.on_event(prop("height", PropertyValue::I64(1080))).is_empty());
    assert_eq!(st.take_size(), Some((1920, 1080)));
    assert_eq!(st.take_size(), None);
}

#[test]
fn file_loaded_resets_and_asks() {
    let mut st = PlaybackState::new();
    st.on_event(prop("duration", PropertyValue::I64(300)));
    assert_eq!(st.file_duration, Some(300));
    assert_eq!(st.duration, 300);
    let r = st.on_event(Event::FileLoaded);
    assert_eq!(asks(&r), vec![&Query::Path, &Query::VideoParams, &Query::TrackList]);
    assert_eq!(st.file_duration, None);
    let r = st.on_event(prop("path", PropertyValue::Str(s("/v/a.mkv"))));
    assert_eq!(st.file_path.as_deref(), Some("/v/a.mkv"));
    assert!(matches!(&r[..], [Reaction::FileOpened(p)] if p == "/v/a.mkv"));
    assert!(st.on_event(Event::EndFile).is_empty());
    assert_eq!(st.file_path, None);
}

#[test]
fn watched_changes_ask_for_values() {
    let mut st = PlaybackState::new();
    for (name, q) in [
        ("pause", Query::Pause),
        ("aid", Query::Aid),
        ("vid", Query::Vid),
        ("sid", Query::Sid),
        ("hwdec", Query::Hwdec),
        ("hwdec-current", Query::HwdecCurrent),
    ] {
        let r = st.on_event(Event::PropertyChange(s(name)));
        assert_eq!(asks(&r), vec![&q]);
    }
    assert!(st.on_event(Event::PropertyChange(s("volume"))).is_empty());
}

#[test]
fn track_list_and_selection() {
    let mut st = PlaybackState::new();
    st.on_event(prop("vid", PropertyValue::I64(1)));
    assert!(st.file_tracks.is_none());
    let list = Node::Array(vec![track_entry(1, "video", None), track_entry(2, "audio", None)]);
    let r = st.on_event(prop("track-list", PropertyValue::Node(list)));
    assert_eq!(asks(&r), vec![&Query::Vid, &Query::Aid, &Query::Sid]);
    st.on_event(prop("aid", PropertyValue::I64(2)));
    st.on_event(prop("sid", PropertyValue::I64(-1)));
    let t = st.file_tracks.as_ref().unwrap();
    assert_eq!((t.vid, t.aid, t.sid), (0, 2, -1));
    assert_eq!(t.audio[0].id, 2);
}

#[test]
fn display_properties() {
    let mut st = PlaybackState::new();
    st.on_event(prop("pause", PropertyValue::Bool(false)));
    assert!(st.playing);
    st.on_event(prop("pause", PropertyValue::Bool(true)));
    assert!(!st.playing);
    st.on_event(prop("hwdec", PropertyValue::Str(s("auto"))));
    st.on_event(prop("hwdec-current", PropertyValue::Str(s("vaapi"))));
    assert_eq!(st.hwdec, "auto");
    assert_eq!(st.hwdec_current, "vaapi");
    // a value of an unexpected shape is skipped
    st.on_event(prop("width", PropertyValue::Str(s("wide"))));
    assert_eq!(st.take_size(), None);
}

#[test]
fn redraw_is_coalesced() {
    let mut g = RedrawGate::new();
    assert!(!g.take_update());
    g.request_update();
    g.request_update();
    assert!(g.take_update());
    assert!(!g.take_update());
    g.note_update_flags(0);
    assert!(!g.take_redraw());
    g.note_update_flags(3);
    assert!(g.take_redraw());
    assert!(!g.take_redraw());
}

#[test]
fn node_accessors() {
    assert_eq!(Node::I64(4).as_i64(), Some(&4));
    assert_eq!(Node::Bool(true).as_i64(), None);
    assert_eq!(Node::Bool(true).as_bool(), Some(&true));
    assert_eq!(Node::Str(s("x")).as_string().map(|v| v.as_str()), Some("x"));
    assert!(Node::Real.as_string().is_none());
    assert_eq!(Node::Array(vec![Node::Real]).as_array().map(|v| v.len()), Some(1));
    assert!(Node::Array(vec![]).as_map().is_none());
    let m = Node::Dict(vec![(s("k"), Node::I64(1))]);
    assert_eq!(m.as_map().map(|v| v[0].0.as_str()), Some("k"));
}
