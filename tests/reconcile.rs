use penrose_core::reconcile::{plan_existing_clients, ExistingWindow, WorkspaceTag};
use penrose_core::xid::Xid;

fn tags(names: &[&str]) -> Vec<String> {
    names.iter().map(|s| s.to_string()).collect()
}

fn workspaces(names: &[&str]) -> Vec<WorkspaceTag> {
    names.iter().enumerate().map(|(i, s)| WorkspaceTag { id: i, tag: s.to_string() }).collect()
}

fn window(id: u32, override_redirect: bool, desktop: Option<Vec<u32>>) -> ExistingWindow {
    ExistingWindow { id: Xid(id), override_redirect, desktop }
}

#[test]
fn unreadable_desktop_adopts_onto_first_tag() {
    let plan = plan_existing_clients(
        &workspaces(&["1", "2", "3"]),
        &tags(&["1", "2", "3"]),
        &vec![],
        &vec![window(10, false, None)],
    );
    assert_eq!(plan, vec![(Xid(10), "1".to_string())]);
}

#[test]
fn desktop_property_picks_the_workspace() {
    let plan = plan_existing_clients(
        &workspaces(&["1", "2", "3"]),
        &tags(&["1", "2", "3"]),
        &vec![],
        &vec![window(10, false, Some(vec![2])), window(11, false, Some(vec![]))],
    );
    assert_eq!(plan, vec![(Xid(10), "3".to_string()), (Xid(11), "1".to_string())]);
}

#[test]
fn unknown_desktop_falls_back_to_first_tag() {
    let ws = vec![
        WorkspaceTag { id: 4, tag: "web".to_string() },
        WorkspaceTag { id: 7, tag: "mail".to_string() },
    ];
    let plan = plan_existing_clients(
        &ws,
        &tags(&["mail", "web"]),
        &vec![],
        &vec![window(1, false, Some(vec![99])), window(2, false, Some(vec![4]))],
    );
    assert_eq!(plan, vec![(Xid(1), "mail".to_string()), (Xid(2), "web".to_string())]);
}

#[test]
fn known_override_redirect_and_repeated_windows_are_skipped() {
    let plan = plan_existing_clients(
        &workspaces(&["1", "2"]),
        &tags(&["1", "2"]),
        &vec![Xid(5)],
        &vec![
            window(5, false, Some(vec![1])),
            window(6, true, Some(vec![1])),
            window(7, false, Some(vec![1])),
            window(7, false, Some(vec![0])),
        ],
    );
    assert_eq!(plan, vec![(Xid(7), "2".to_string())]);
}

#[test]
fn no_windows_no_plan() {
    let plan = plan_existing_clients(&workspaces(&["1"]), &tags(&["1"]), &vec![], &vec![]);
    assert!(plan.is_empty());
}
