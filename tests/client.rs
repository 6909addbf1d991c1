use penrose_core::client::{Client, ClientProperties, Region};
use penrose_core::xid::Xid;

fn no_answers() -> ClientProperties {
    ClientProperties {
        accepts_input: None,
        requested_position: None,
        name: None,
        class: None,
        window_type: None,
    }
}

#[test]
fn all_queries_failing_gives_defaults() {
    let c = Client::new(Xid(7), 2, no_answers(), false);
    assert_eq!(c.id(), Xid(7));
    assert_eq!(c.workspace(), 2);
    assert_eq!(c.geometry(), Region::default());
    assert_eq!(c.geometry(), Region { x: 0, y: 0, w: 0, h: 0 });
    assert_eq!(c.wm_name(), "unknown");
    assert_eq!(c.wm_class(), "");
    assert_eq!(c.window_type(), "");
    assert!(c.accepts_focus());
    assert!(!c.is_mapped());
    assert!(!c.is_fullscreen());
    assert!(!c.is_urgent());
    assert!(c.is_wm_managed());
    assert!(!c.is_floating());
}

#[test]
fn answered_queries_are_kept() {
    let props = ClientProperties {
        accepts_input: Some(false),
        requested_position: Some(Region { x: 10, y: 20, w: 300, h: 400 }),
        name: Some("term".to_string()),
        class: Some(vec!["st".to_string(), "St".to_string()]),
        window_type: Some(vec!["_NET_WM_WINDOW_TYPE_NORMAL".to_string()]),
    };
    let c = Client::new(Xid(3), 0, props, true);
    assert!(!c.accepts_focus());
    assert_eq!(c.geometry(), Region { x: 10, y: 20, w: 300, h: 400 });
    assert_eq!(c.wm_name(), "term");
    assert_eq!(c.wm_class(), "st");
    assert_eq!(c.class(), "st");
    assert_eq!(c.window_type(), "_NET_WM_WINDOW_TYPE_NORMAL");
    assert!(c.is_floating());
}

#[test]
fn empty_string_lists_give_empty_strings() {
    let mut props = no_answers();
    props.class = Some(vec![]);
    props.window_type = Some(vec![]);
    let c = Client::new(Xid(1), 0, props, false);
    assert_eq!(c.wm_class(), "");
    assert_eq!(c.window_type(), "");
}

#[test]
fn mutators_touch_only_their_field() {
    let mut c = Client::new(Xid(9), 1, no_answers(), false);
    let before = c.clone();
    c.set_workspace(4);
    assert_eq!(c.workspace(), 4);
    assert_eq!(c.id(), before.id());
    c.set_floating(true);
    assert!(c.is_floating());
    c.set_name("renamed".to_string());
    assert_eq!(c.wm_name(), "renamed");
    c.externally_managed();
    assert!(!c.is_wm_managed());
    c.internally_managed();
    assert!(c.is_wm_managed());
    assert_eq!(c.wm_class(), before.wm_class());
    assert!(c.accepts_focus());
}

#[test]
fn xid_converts_both_ways() {
    let id: Xid = Xid::from(42u32);
    assert_eq!(id, Xid(42));
    let raw: u32 = u32::from(id);
    assert_eq!(raw, 42);
    assert_eq!(id.raw(), 42);
    assert_eq!(Xid::default(), Xid(0));
    assert!(Xid(1) < Xid(2));
}
