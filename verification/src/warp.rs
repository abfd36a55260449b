//! The Warp launch configuration that opens every worktree of a project in
//! a grid of panes.
use vstd::prelude::*;
use crate::domain::{worktrees_view, Worktree};

verus! {

#[derive(Debug)]
pub struct WarpConfig {
    pub name: String,
    pub windows: Vec<Window>,
}

#[derive(Debug)]
pub struct Window {
    pub tabs: Vec<Tab>,
}

#[derive(Debug)]
pub struct Tab {
    pub title: Option<String>,
    pub layout: Option<Layout>,
}

#[derive(Debug)]
pub struct Layout {
    pub grid: Grid,
    pub panes: Vec<Pane>,
}

#[derive(Debug)]
pub struct Grid {
    pub rows: usize,
    pub columns: usize,
}

#[derive(Debug)]
pub struct Pane {
    pub cwd: String,
    /// Commands run in the pane; none by default.
    pub commands: Vec<String>,
}

/// The grid columns for `count` panes: two when there are several.
pub open spec fn grid_columns(count: int) -> int {
    if count > 1 {
        2
    } else {
        1
    }
}

/// The grid rows for `count` panes: enough rows of `grid_columns` panes.
pub open spec fn grid_rows(count: int) -> int {
    let c = grid_columns(count);
    count / c + if count % c != 0 {
        1int
    } else {
        0
    }
}

/// The layout of a tab that shows `worktrees`: one pane per worktree, in
/// order, each opened at the worktree's path with no command.
pub open spec fn lays_out(l: Layout, worktrees: Seq<Worktree>) -> bool {
    &&& l.grid.columns == grid_columns(worktrees.len() as int)
    &&& l.grid.rows == grid_rows(worktrees.len() as int)
    &&& l.panes@.len() == worktrees.len()
    &&& forall|i: int|
        0 <= i < worktrees.len() ==> (#[trigger] l.panes@[i]).cwd@ == worktrees[i].path@
            && l.panes@[i].commands@.len() == 0
}

/// The launch configuration named `project_name` with one window and one
/// tab, "Worktrees", laying out all `worktrees`; none when there are no
/// worktrees.
pub fn warp_config(project_name: &str, worktrees: &Vec<Worktree>) -> (r: Option<WarpConfig>)
    ensures
        worktrees@.len() == 0 <==> r is None,
        r matches Some(c) ==> {
            &&& c.name@ == project_name@
            &&& c.windows@.len() == 1
            &&& c.windows@[0].tabs@.len() == 1
            &&& c.windows@[0].tabs@[0].title matches Some(t) && t@ == "Worktrees"@
            &&& c.windows@[0].tabs@[0].layout matches Some(l) && lays_out(l, worktrees@)
        },
{
    let count = worktrees.len();
    if count == 0 {
        return None;
    }
    let columns: usize = if count > 1 {
        2
    } else {
        1
    };
    let rows: usize = count / columns + if count % columns != 0 {
        1
    } else {
        0
    };
    let mut panes: Vec<Pane> = Vec::new();
    let mut i: usize = 0;
    while i < count
        invariant
            i <= count,
            count == worktrees@.len(),
            panes@.len() == i,
            forall|j: int|
                0 <= j < i ==> (#[trigger] panes@[j]).cwd@ == worktrees@[j].path@
                    && panes@[j].commands@.len() == 0,
        decreases count - i,
    {
        panes.push(Pane { cwd: worktrees[i].path.clone(), commands: Vec::new() });
        i = i + 1;
    }
    let layout = Layout { grid: Grid { rows, columns }, panes };
    let tab = Tab { title: Some(String::from_str("Worktrees")), layout: Some(layout) };
    let mut tabs: Vec<Tab> = Vec::new();
    tabs.push(tab);
    let mut windows: Vec<Window> = Vec::new();
    windows.push(Window { tabs });
    Some(WarpConfig { name: String::from_str(project_name), windows })
}

} // verus!
