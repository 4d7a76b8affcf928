use vstd::prelude::*;

use crate::layout::{column_sizes, num_columns, spec_columns, spec_distribution};
use crate::protocol::{Action, ColumnDisplay, WidthChange, WindowInfo, WorkspaceInfo};

verus! {

/// The id of the first focused workspace at or after position `i`.
pub open spec fn focused_from(workspaces: Seq<WorkspaceInfo>, i: int) -> Option<u64>
    decreases workspaces.len() - i,
{
    if i < 0 || i >= workspaces.len() {
        None
    } else if workspaces[i].is_focused {
        Some(workspaces[i].id)
    } else {
        focused_from(workspaces, i + 1)
    }
}

/// The id of the first focused workspace of the list.
pub open spec fn focused_id(workspaces: Seq<WorkspaceInfo>) -> Option<u64> {
    focused_from(workspaces, 0)
}

/// The ids of the windows on workspace `workspace_id`, in list order.
pub open spec fn ids_on(windows: Seq<WindowInfo>, workspace_id: u64) -> Seq<u64>
    decreases windows.len(),
{
    if windows.len() == 0 {
        Seq::empty()
    } else {
        let rest = ids_on(windows.drop_last(), workspace_id);
        if windows.last().workspace_id == Some(workspace_id) {
            rest.push(windows.last().id)
        } else {
            rest
        }
    }
}

/// The flatten phase: focus each window in turn and expel it from its column.
pub open spec fn flatten_spec(ids: Seq<u64>) -> Seq<Action>
    decreases ids.len(),
{
    if ids.len() == 0 {
        Seq::empty()
    } else {
        flatten_spec(ids.drop_last()).push(Action::FocusWindow { id: ids.last() }).push(
            Action::ExpelWindowFromColumn,
        )
    }
}

/// The actions that set up the column of 0-based index `index` out of
/// `columns`: focus it, set normal display and an equal share of the width.
pub open spec fn column_head(columns: usize, index: int) -> Seq<Action> {
    seq![
        Action::FocusColumn { index: (index + 1) as usize },
        Action::SetColumnDisplay { display: ColumnDisplay::Normal },
        Action::SetWindowWidth { id: None, change: WidthChange::EqualShare { columns } },
    ]
}

/// The actions that build one column of `size` windows: its set-up, then one
/// consume for each window beyond the first.
pub open spec fn column_spec(columns: usize, index: int, size: nat) -> Seq<Action> {
    column_head(columns, index) + Seq::new(
        (size - 1) as nat,
        |k: int| Action::ConsumeWindowIntoColumn,
    )
}

/// The build phase for columns of the given sizes, left to right.
pub open spec fn build_spec(columns: usize, sizes: Seq<nat>) -> Seq<Action>
    decreases sizes.len(),
{
    if sizes.len() == 0 {
        Seq::empty()
    } else {
        build_spec(columns, sizes.drop_last()) + column_spec(
            columns,
            sizes.len() - 1,
            sizes.last(),
        )
    }
}

/// The whole action sequence that arranges the windows `ids` into columns:
/// nothing when there are none; else the flatten phase, the build phase for
/// `columns(n)` columns and a final focus of the first column.
pub open spec fn arrange_spec(ids: Seq<u64>) -> Seq<Action> {
    if ids.len() == 0 {
        Seq::empty()
    } else {
        let n = ids.len();
        flatten_spec(ids) + build_spec(spec_columns(n) as usize, spec_distribution(n)) + seq![
            Action::FocusColumnFirst,
        ]
    }
}

/// The id of the focused workspace: the first of the list with the focused
/// flag, or `None` when none has it.
pub fn focused_workspace(workspaces: &Vec<WorkspaceInfo>) -> (r: Option<u64>)
    ensures
        r == focused_id(workspaces@),
        r is None <==> forall|i: int| 0 <= i < workspaces@.len() ==> !(#[trigger] workspaces@[i]).is_focused,
{
    let mut i: usize = 0;
    while i < workspaces.len()
        invariant
            i <= workspaces@.len(),
            focused_id(workspaces@) == focused_from(workspaces@, i as int),
            forall|j: int| 0 <= j < i ==> !(#[trigger] workspaces@[j]).is_focused,
        decreases workspaces@.len() - i,
    {
        if workspaces[i].is_focused {
            return Some(workspaces[i].id);
        }
        i = i + 1;
    }
    None
}

/// The ids of the windows on workspace `workspace_id`, in list order.
pub fn windows_on_workspace(windows: &Vec<WindowInfo>, workspace_id: u64) -> (r: Vec<u64>)
    ensures
        r@ == ids_on(windows@, workspace_id),
{
    let mut ids: Vec<u64> = Vec::new();
    let mut i: usize = 0;
    while i < windows.len()
        invariant
            i <= windows@.len(),
            ids@ == ids_on(windows@.take(i as int), workspace_id),
        decreases windows@.len() - i,
    {
        assert(windows@.take(i as int + 1).drop_last() =~= windows@.take(i as int));
        if windows[i].workspace_id == Some(workspace_id) {
            ids.push(windows[i].id);
        }
        i = i + 1;
    }
    assert(windows@.take(i as int) =~= windows@);
    ids
}

/// The flatten phase for the windows `ids`, in order.
pub fn flatten_actions(ids: &Vec<u64>) -> (r: Vec<Action>)
    ensures
        r@ == flatten_spec(ids@),
{
    let mut actions: Vec<Action> = Vec::new();
    let mut i: usize = 0;
    while i < ids.len()
        invariant
            i <= ids@.len(),
            actions@ == flatten_spec(ids@.take(i as int)),
        decreases ids@.len() - i,
    {
        assert(ids@.take(i as int + 1).drop_last() =~= ids@.take(i as int));
        actions.push(Action::FocusWindow { id: ids[i] });
        actions.push(Action::ExpelWindowFromColumn);
        i = i + 1;
    }
    assert(ids@.take(i as int) =~= ids@);
    actions
}

/// Appends the actions that build column `index` (0-based) of `size >= 1`
/// windows, out of `columns`.
fn push_column(actions: &mut Vec<Action>, columns: usize, index: usize, size: usize)
    requires
        size >= 1,
        index < usize::MAX,
    ensures
        final(actions)@ == old(actions)@ + column_spec(columns, index as int, size as nat),
{
    let ghost start = actions@;
    actions.push(Action::FocusColumn { index: index + 1 });
    actions.push(Action::SetColumnDisplay { display: ColumnDisplay::Normal });
    actions.push(
        Action::SetWindowWidth { id: None, change: WidthChange::EqualShare { columns } },
    );
    assert(actions@ =~= start + column_head(columns, index as int));
    let mut k: usize = 1;
    while k < size
        invariant
            1 <= k <= size,
            actions@ == start + column_head(columns, index as int) + Seq::new(
                (k - 1) as nat,
                |j: int| Action::ConsumeWindowIntoColumn,
            ),
        decreases size - k,
    {
        actions.push(Action::ConsumeWindowIntoColumn);
        k = k + 1;
        assert(actions@ =~= start + column_head(columns, index as int) + Seq::new(
            (k - 1) as nat,
            |j: int| Action::ConsumeWindowIntoColumn,
        ));
    }
}

/// The build phase for `window_count >= 1` windows: each of the
/// `columns(n)` columns in turn, with its share of the windows.
pub fn build_actions(window_count: usize) -> (r: Vec<Action>)
    requires
        window_count >= 1,
    ensures
        r@ == build_spec(
            spec_columns(window_count as nat) as usize,
            spec_distribution(window_count as nat),
        ),
{
    let ghost n = window_count as nat;
    let columns = num_columns(window_count);
    let sizes = column_sizes(window_count);
    let ghost dist = spec_distribution(n);
    proof {
        crate::layout::lemma_columns_cover_windows(n);
        assert forall|j: int| 0 <= j < dist.len() implies dist[j] > 0 by {
            assert(dist[j] == crate::layout::column_size(
                n,
                crate::layout::spec_per_column(n),
                j as nat,
            ));
        }
    }
    let mut actions: Vec<Action> = Vec::new();
    let mut i: usize = 0;
    while i < sizes.len()
        invariant
            columns == spec_columns(n),
            sizes@.len() == dist.len() == columns,
            forall|j: int| 0 <= j < sizes@.len() ==> sizes@[j] == dist[j],
            forall|j: int| 0 <= j < dist.len() ==> dist[j] > 0,
            i <= sizes@.len(),
            actions@ == build_spec(columns, dist.take(i as int)),
        decreases sizes@.len() - i,
    {
        assert(dist.take(i as int + 1).drop_last() =~= dist.take(i as int));
        assert(sizes@[i as int] == dist[i as int]);
        assert(dist[i as int] > 0);
        assert(sizes@[i as int] > 0);
        push_column(&mut actions, columns, i, sizes[i]);
        i = i + 1;
    }
    assert(dist.take(i as int) =~= dist);
    actions
}

/// Every action that arranges the windows `ids` into columns, in order:
/// none when there are no windows.
pub fn arrange_actions(ids: &Vec<u64>) -> (r: Vec<Action>)
    ensures
        r@ == arrange_spec(ids@),
{
    if ids.len() == 0 {
        return Vec::new();
    }
    let mut actions = flatten_actions(ids);
    let mut build = build_actions(ids.len());
    actions.append(&mut build);
    actions.push(Action::FocusColumnFirst);
    actions
}

/// Why no layout could be planned.
#[derive(Clone, Copy, Debug, PartialEq, Eq, Structural)]
pub enum PlanError {
    /// No workspace of the list is focused.
    NoFocusedWorkspace,
}

/// The actions that arrange the windows of the focused workspace into
/// columns, from a snapshot of the window and workspace lists.
pub fn plan_layout(windows: &Vec<WindowInfo>, workspaces: &Vec<WorkspaceInfo>) -> (r: Result<
    Vec<Action>,
    PlanError,
>)
    ensures
        match focused_id(workspaces@) {
            None => r matches Err(PlanError::NoFocusedWorkspace),
            Some(id) => r matches Ok(actions) && actions@ == arrange_spec(ids_on(windows@, id)),
        },
{
    match focused_workspace(workspaces) {
        None => Err(PlanError::NoFocusedWorkspace),
        Some(id) => {
            let ids = windows_on_workspace(windows, id);
            Ok(arrange_actions(&ids))
        },
    }
}

} // verus!
