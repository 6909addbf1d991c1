use penrose_core::config::Config;
use penrose_core::dispatch::{decide, route, EventKind, Handler, Step};
use penrose_core::hooks::{should_handle, EventHook, HookChain, HookError, ManageHook, StateHook};
use penrose_core::xid::Xid;

struct Tag(&'static str);

impl StateHook<Vec<String>, ()> for Tag {
    fn call(&self, state: &mut Vec<String>, _x: &()) -> Result<(), HookError> {
        state.push(self.0.to_string());
        Ok(())
    }
}

impl ManageHook<Vec<String>, ()> for Tag {
    fn call(&self, id: Xid, state: &mut Vec<String>, _x: &()) -> Result<(), HookError> {
        state.push(format!("{}:{}", self.0, id.raw()));
        Ok(())
    }
}

struct Answer(&'static str, Result<bool, HookError>);

impl EventHook<Vec<String>, (), u8> for Answer {
    fn call(&self, _event: &u8, state: &mut Vec<String>, _x: &()) -> Result<bool, HookError> {
        state.push(self.0.to_string());
        self.1.clone()
    }
}

fn err() -> HookError {
    HookError { message: "boom".to_string() }
}

#[test]
fn last_composed_startup_hook_runs_first() {
    let mut config: Config<Tag, Answer, Tag> = Config::default();
    config.compose_or_set_startup_hook(Tag("a"));
    config.compose_or_set_startup_hook(Tag("b"));
    config.compose_or_set_startup_hook(Tag("c"));
    let mut log: Vec<String> = Vec::new();
    let outcomes = config.startup_hook.as_ref().unwrap().run_state(&mut log, &());
    assert_eq!(log, vec!["c", "b", "a"]);
    assert_eq!(outcomes.len(), 3);
    assert!(config.refresh_hook.is_none());
}

#[test]
fn refresh_and_manage_hooks_compose_in_reverse() {
    let mut config: Config<Tag, Answer, Tag> = Config::default();
    config.compose_or_set_refresh_hook(Tag("x"));
    config.compose_or_set_refresh_hook(Tag("y"));
    config.compose_or_set_manage_hook(Tag("m1"));
    config.compose_or_set_manage_hook(Tag("m2"));
    let mut log: Vec<String> = Vec::new();
    config.refresh_hook.as_ref().unwrap().run_state(&mut log, &());
    config.manage_hook.as_ref().unwrap().run_manage(Xid(5), &mut log, &());
    assert_eq!(log, vec!["y", "x", "m2:5", "m1:5"]);
    assert!(config.startup_hook.is_none());
}

#[test]
fn single_hook_chain_then_prepend() {
    let chain = HookChain::single(Tag("first")).prepend(Tag("second"));
    assert_eq!(chain.len(), 2);
    assert_eq!(chain.hook(0).0, "second");
    assert_eq!(chain.hook(1).0, "first");
}

#[test]
fn skipping_event_hook_means_no_handler() {
    let mut config: Config<Tag, Answer, Tag> = Config::default();
    config.compose_or_set_event_hook(Answer("old", Ok(true)));
    config.compose_or_set_event_hook(Answer("new", Ok(false)));
    let mut log: Vec<String> = Vec::new();
    let outcomes = config.event_hook.as_ref().unwrap().run_event(&0u8, &mut log, &());
    assert_eq!(log, vec!["new", "old"]);
    assert!(!should_handle(&outcomes));
    assert_eq!(decide(EventKind::MapRequest, &outcomes), Step::Skip);
}

#[test]
fn event_hook_error_counts_as_run() {
    assert!(should_handle(&vec![Err(err()), Ok(false)]));
    assert!(should_handle(&vec![Ok(true), Ok(true)]));
    assert!(should_handle(&vec![]));
    assert!(!should_handle(&vec![Ok(true), Ok(false), Err(err())]));
    assert_eq!(decide(EventKind::KeyPress, &vec![Err(err())]), Step::Handle(Handler::KeyPress));
}

#[test]
fn routing_table() {
    assert_eq!(route(EventKind::ClientMessage), Handler::ClientMessage);
    assert_eq!(route(EventKind::ConfigureNotify { is_root: true }), Handler::DetectScreens);
    assert_eq!(route(EventKind::ConfigureNotify { is_root: false }), Handler::Ignore);
    assert_eq!(route(EventKind::ConfigureRequest), Handler::Ignore);
    assert_eq!(route(EventKind::Enter), Handler::Enter);
    assert_eq!(route(EventKind::Expose), Handler::Ignore);
    assert_eq!(route(EventKind::FocusIn), Handler::FocusIn);
    assert_eq!(route(EventKind::Destroy), Handler::Destroy);
    assert_eq!(route(EventKind::KeyPress), Handler::KeyPress);
    assert_eq!(route(EventKind::Leave), Handler::Leave);
    assert_eq!(route(EventKind::MappingNotify), Handler::Ignore);
    assert_eq!(route(EventKind::MapRequest), Handler::MapRequest);
    assert_eq!(route(EventKind::MouseEvent), Handler::MouseEvent);
    assert_eq!(route(EventKind::PropertyNotify), Handler::Ignore);
    assert_eq!(route(EventKind::RandrNotify), Handler::DetectScreens);
    assert_eq!(route(EventKind::ScreenChange), Handler::ScreenChange);
    assert_eq!(route(EventKind::UnmapNotify), Handler::UnmapNotify);
}

#[test]
fn cycle_records_one_event_at_a_time() {
    let mut cycle: penrose_core::dispatch::Cycle<u8> = penrose_core::dispatch::Cycle::new();
    assert!(cycle.is_idle());
    cycle.begin(3);
    assert_eq!(cycle.current_event(), Some(&3));
    assert_eq!(cycle.end(), Some(3));
    assert!(cycle.is_idle());
    assert_eq!(cycle.current_event(), None);
}

#[test]
fn default_config_values() {
    let config: Config<Tag, Answer, Tag> = Config::default();
    assert_eq!(config.tags, vec!["1", "2", "3", "4", "5", "6", "7", "8", "9"]);
    assert_eq!(config.floating_classes, vec!["dmenu", "dunst"]);
    assert_eq!(config.border_width, 2);
    assert_eq!(config.normal_border, 0x3c3836ff);
    assert_eq!(config.focused_border, 0xcc241dff);
    assert!(config.focus_follow_mouse);
    assert!(config.event_hook.is_none());
}
