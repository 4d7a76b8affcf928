use niri_columns::plan::{
    arrange_actions, build_actions, flatten_actions, focused_workspace, plan_layout,
    windows_on_workspace, PlanError,
};
use niri_columns::protocol::{Action, ColumnDisplay, WidthChange, WindowInfo, WorkspaceInfo};

fn head(index: usize, columns: usize) -> Vec<Action> {
    vec![
        Action::FocusColumn { index },
        Action::SetColumnDisplay { display: ColumnDisplay::Normal },
        Action::SetWindowWidth { id: None, change: WidthChange::EqualShare { columns } },
    ]
}

fn window(id: u64, workspace_id: Option<u64>) -> WindowInfo {
    WindowInfo { id, workspace_id }
}

fn workspace(id: u64, is_focused: bool) -> WorkspaceInfo {
    WorkspaceInfo { id, is_focused }
}

#[test]
fn no_windows_issue_no_actions() {
    assert!(arrange_actions(&vec![]).is_empty());
}

#[test]
fn one_window_takes_the_full_width() {
    let mut expected = vec![
        Action::FocusWindow { id: 42 },
        Action::ExpelWindowFromColumn,
    ];
    expected.extend(head(1, 1));
    expected.push(Action::FocusColumnFirst);
    assert_eq!(arrange_actions(&vec![42]), expected);
}

#[test]
fn five_windows_build_three_columns() {
    let ids = vec![1, 2, 3, 4, 5];
    let mut expected = Vec::new();
    for id in &ids {
        expected.push(Action::FocusWindow { id: *id });
        expected.push(Action::ExpelWindowFromColumn);
    }
    expected.extend(head(1, 3));
    expected.push(Action::ConsumeWindowIntoColumn);
    expected.extend(head(2, 3));
    expected.push(Action::ConsumeWindowIntoColumn);
    expected.extend(head(3, 3));
    expected.push(Action::FocusColumnFirst);
    assert_eq!(arrange_actions(&ids), expected);
}

#[test]
fn flatten_keeps_query_order() {
    assert_eq!(
        flatten_actions(&vec![9, 3]),
        vec![
            Action::FocusWindow { id: 9 },
            Action::ExpelWindowFromColumn,
            Action::FocusWindow { id: 3 },
            Action::ExpelWindowFromColumn,
        ]
    );
}

#[test]
fn nine_windows_consume_twice_per_column() {
    let actions = build_actions(9);
    let mut expected = Vec::new();
    for index in 1..=3 {
        expected.extend(head(index, 3));
        expected.push(Action::ConsumeWindowIntoColumn);
        expected.push(Action::ConsumeWindowIntoColumn);
    }
    assert_eq!(actions, expected);
}

#[test]
fn first_focused_workspace_is_chosen() {
    let list = vec![workspace(1, false), workspace(7, true), workspace(8, true)];
    assert_eq!(focused_workspace(&list), Some(7));
    assert_eq!(focused_workspace(&vec![workspace(1, false)]), None);
    assert_eq!(focused_workspace(&vec![]), None);
}

#[test]
fn only_windows_of_the_workspace_are_kept() {
    let list = vec![window(1, Some(2)), window(2, None), window(3, Some(5)), window(4, Some(2))];
    assert_eq!(windows_on_workspace(&list, 2), vec![1, 4]);
    assert_eq!(windows_on_workspace(&list, 9), Vec::<u64>::new());
}

#[test]
fn missing_focused_workspace_is_an_error() {
    let windows = vec![window(1, Some(1))];
    let workspaces = vec![workspace(1, false), workspace(2, false)];
    assert_eq!(plan_layout(&windows, &workspaces), Err(PlanError::NoFocusedWorkspace));
}

#[test]
fn plan_arranges_the_focused_workspace_only() {
    let windows = vec![window(10, Some(1)), window(11, Some(2)), window(12, Some(1))];
    let workspaces = vec![workspace(2, false), workspace(1, true)];
    let actions = plan_layout(&windows, &workspaces).unwrap();
    assert_eq!(actions, arrange_actions(&vec![10, 12]));
    assert_eq!(actions[0], Action::FocusWindow { id: 10 });
    assert_eq!(actions[2], Action::FocusWindow { id: 12 });
    assert_eq!(actions[4], Action::FocusColumn { index: 1 });
    assert_eq!(actions[6], Action::SetWindowWidth { id: None, change: WidthChange::EqualShare { columns: 2 } });
    assert_eq!(actions[7], Action::FocusColumn { index: 2 });
    assert_eq!(actions.len(), 11);
}

#[test]
fn empty_focused_workspace_plans_nothing() {
    let windows = vec![window(10, Some(2))];
    let workspaces = vec![workspace(1, true), workspace(2, false)];
    assert_eq!(plan_layout(&windows, &workspaces), Ok(vec![]));
}
