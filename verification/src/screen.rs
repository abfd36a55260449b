//! What the frame around each screen says: the key hints of the footer,
//! which state a frame shows and where the filter box puts its cursor.
use vstd::prelude::*;
use crate::layout::Area;
use crate::model::{AppMode, AppState, DashboardTab};

verus! {

/// The colour role of a piece of text.
#[derive(Debug, Clone, Copy, PartialEq, Eq, Structural)]
pub enum Tone {
    Primary,
    Secondary,
    Accent,
    Success,
    Error,
    Warning,
    Text,
    Subtle,
}

/// One piece of the footer: a key and what it does, or the gap between
/// two groups of keys.
#[derive(Debug, Clone, Copy)]
pub enum FooterItem {
    Gap,
    Key { key: &'static str, label: &'static str, tone: Tone },
}

pub enum FooterItemV {
    Gap,
    Key { key: Seq<char>, label: Seq<char>, tone: Tone },
}

impl View for FooterItem {
    type V = FooterItemV;

    open spec fn view(&self) -> FooterItemV {
        match self {
            FooterItem::Gap => FooterItemV::Gap,
            FooterItem::Key { key, label, tone } => FooterItemV::Key {
                key: key@,
                label: label@,
                tone: *tone,
            },
        }
    }
}

pub open spec fn footer_view(v: Seq<FooterItem>) -> Seq<FooterItemV> {
    v.map_values(|i: FooterItem| i@)
}

pub open spec fn hint(key: &str, label: &str, tone: Tone) -> FooterItemV {
    FooterItemV::Key { key: key@, label: label@, tone }
}

/// The key hints of the footer in state `s`.
pub open spec fn footer_of(s: AppState) -> Seq<FooterItemV> {
    match s {
        AppState::ListingWorktrees { mode, .. } => match mode {
            AppMode::Normal => seq![
                hint("[j/k]", "NAV", Tone::Primary),
                hint("[ENT]", "OPEN", Tone::Primary),
                FooterItemV::Gap,
                hint("[m]", "MANAGE", Tone::Secondary),
                hint("[g]", "GIT", Tone::Secondary),
                hint("[/]", "FILTER", Tone::Warning),
                hint("[?]", "HELP", Tone::Accent),
                FooterItemV::Gap,
                hint("[v]", "STATUS", Tone::Text),
                hint("[l]", "LOG", Tone::Text),
                hint("[q]", "EXIT", Tone::Error),
            ],
            AppMode::Manage => seq![
                hint("[a]", "ADD", Tone::Success),
                hint("[ESC]", "BACK", Tone::Accent),
                FooterItemV::Gap,
                hint("[r]", "REMOVE", Tone::Error),
                hint("[c]", "CLEAN", Tone::Error),
            ],
            AppMode::Git => seq![
                hint("[p]", "PULL", Tone::Success),
                hint("[P]", "PUSH", Tone::Success),
                hint("[s]", "SYNC", Tone::Success),
                hint("[R]", "REBASE", Tone::Success),
                FooterItemV::Gap,
                hint("[ESC]", "BACK", Tone::Accent),
            ],
            AppMode::Filter => seq![
                hint("[Typing...]", "SEARCH", Tone::Primary),
                hint("[ENT]", "DONE", Tone::Success),
                FooterItemV::Gap,
                hint("[^U]", "CLEAR", Tone::Warning),
                hint("[ESC]", "CANCEL", Tone::Error),
            ],
        },
        AppState::ViewingStatus { .. } => seq![
            hint("[j/k]", "NAV", Tone::Primary),
            hint("[TAB]", "STAGE", Tone::Success),
            hint("[C]", "COMMIT", Tone::Success),
            FooterItemV::Gap,
            hint("[ESC]", "BACK", Tone::Accent),
        ],
        AppState::ViewingHistory { .. } => seq![
            hint("[j/k]", "NAV", Tone::Primary),
            hint("[ESC]", "BACK", Tone::Accent),
        ],
        AppState::SwitchingBranch { .. } | AppState::PickingBaseRef { .. }
        | AppState::Committing { .. } => seq![
            hint("[j/k]", "NAV", Tone::Primary),
            hint("[ENT]", "SELECT", Tone::Success),
            FooterItemV::Gap,
            hint("[ESC]", "BACK", Tone::Accent),
        ],
        AppState::SelectingEditor { .. } => seq![
            hint("[j/k]", "NAV", Tone::Primary),
            hint("[ENT]", "OPEN", Tone::Success),
            FooterItemV::Gap,
            hint("[ESC]", "BACK", Tone::Accent),
        ],
        AppState::Prompting { .. } => seq![
            hint("[ENT]", "SUBMIT", Tone::Success),
            hint("[ESC]", "CANCEL", Tone::Error),
        ],
        AppState::Confirming { .. } => seq![
            hint("[y]", "YES", Tone::Success),
            hint("[n]", "NO", Tone::Error),
            FooterItemV::Gap,
            hint("[ESC]", "CANCEL", Tone::Subtle),
        ],
        AppState::Help { .. } => seq![hint("[ESC]", "BACK", Tone::Accent)],
        AppState::Welcome => seq![
            hint("[I]", "INIT", Tone::Primary),
            hint("[C]", "CONVERT", Tone::Secondary),
            hint("[Q]", "EXIT", Tone::Error),
        ],
        _ => seq![hint("[Q]", "EXIT", Tone::Error)],
    }
}

fn push_hint(v: &mut Vec<FooterItem>, key: &'static str, label: &'static str, tone: Tone)
    ensures
        footer_view(final(v)@) == footer_view(old(v)@).push(hint(key, label, tone)),
{
    let ghost before = footer_view(v@);
    v.push(FooterItem::Key { key, label, tone });
    assert(footer_view(v@) =~= before.push(hint(key, label, tone)));
}

fn push_gap(v: &mut Vec<FooterItem>)
    ensures
        footer_view(final(v)@) == footer_view(old(v)@).push(FooterItemV::Gap),
{
    let ghost before = footer_view(v@);
    v.push(FooterItem::Gap);
    assert(footer_view(v@) =~= before.push(FooterItemV::Gap));
}

/// The key hints that the footer shows in `state`, groups separated by gaps.
pub fn footer_hints(state: &AppState) -> (r: Vec<FooterItem>)
    ensures
        footer_view(r@) == footer_of(*state),
{
    let mut v: Vec<FooterItem> = Vec::new();
    assert(footer_view(v@) =~= Seq::<FooterItemV>::empty());
    match state {
        AppState::ListingWorktrees { mode, .. } => match mode {
            AppMode::Normal => {
                push_hint(&mut v, "[j/k]", "NAV", Tone::Primary);
                push_hint(&mut v, "[ENT]", "OPEN", Tone::Primary);
                push_gap(&mut v);
                push_hint(&mut v, "[m]", "MANAGE", Tone::Secondary);
                push_hint(&mut v, "[g]", "GIT", Tone::Secondary);
                push_hint(&mut v, "[/]", "FILTER", Tone::Warning);
                push_hint(&mut v, "[?]", "HELP", Tone::Accent);
                push_gap(&mut v);
                push_hint(&mut v, "[v]", "STATUS", Tone::Text);
                push_hint(&mut v, "[l]", "LOG", Tone::Text);
                push_hint(&mut v, "[q]", "EXIT", Tone::Error);
            },
            AppMode::Manage => {
                push_hint(&mut v, "[a]", "ADD", Tone::Success);
                push_hint(&mut v, "[ESC]", "BACK", Tone::Accent);
                push_gap(&mut v);
                push_hint(&mut v, "[r]", "REMOVE", Tone::Error);
                push_hint(&mut v, "[c]", "CLEAN", Tone::Error);
            },
            AppMode::Git => {
                push_hint(&mut v, "[p]", "PULL", Tone::Success);
                push_hint(&mut v, "[P]", "PUSH", Tone::Success);
                push_hint(&mut v, "[s]", "SYNC", Tone::Success);
                push_hint(&mut v, "[R]", "REBASE", Tone::Success);
                push_gap(&mut v);
                push_hint(&mut v, "[ESC]", "BACK", Tone::Accent);
            },
            AppMode::Filter => {
                push_hint(&mut v, "[Typing...]", "SEARCH", Tone::Primary);
                push_hint(&mut v, "[ENT]", "DONE", Tone::Success);
                push_gap(&mut v);
                push_hint(&mut v, "[^U]", "CLEAR", Tone::Warning);
                push_hint(&mut v, "[ESC]", "CANCEL", Tone::Error);
            },
        },
        AppState::ViewingStatus { .. } => {
            push_hint(&mut v, "[j/k]", "NAV", Tone::Primary);
            push_hint(&mut v, "[TAB]", "STAGE", Tone::Success);
            push_hint(&mut v, "[C]", "COMMIT", Tone::Success);
            push_gap(&mut v);
            push_hint(&mut v, "[ESC]", "BACK", Tone::Accent);
        },
        AppState::ViewingHistory { .. } => {
            push_hint(&mut v, "[j/k]", "NAV", Tone::Primary);
            push_hint(&mut v, "[ESC]", "BACK", Tone::Accent);
        },
        AppState::SwitchingBranch { .. } | AppState::PickingBaseRef { .. }
        | AppState::Committing { .. } => {
            push_hint(&mut v, "[j/k]", "NAV", Tone::Primary);
            push_hint(&mut v, "[ENT]", "SELECT", Tone::Success);
            push_gap(&mut v);
            push_hint(&mut v, "[ESC]", "BACK", Tone::Accent);
        },
        AppState::SelectingEditor { .. } => {
            push_hint(&mut v, "[j/k]", "NAV", Tone::Primary);
            push_hint(&mut v, "[ENT]", "OPEN", Tone::Success);
            push_gap(&mut v);
            push_hint(&mut v, "[ESC]", "BACK", Tone::Accent);
        },
        AppState::Prompting { .. } => {
            push_hint(&mut v, "[ENT]", "SUBMIT", Tone::Success);
            push_hint(&mut v, "[ESC]", "CANCEL", Tone::Error);
        },
        AppState::Confirming { .. } => {
            push_hint(&mut v, "[y]", "YES", Tone::Success);
            push_hint(&mut v, "[n]", "NO", Tone::Error);
            push_gap(&mut v);
            push_hint(&mut v, "[ESC]", "CANCEL", Tone::Subtle);
        },
        AppState::Help { .. } => {
            push_hint(&mut v, "[ESC]", "BACK", Tone::Accent);
        },
        AppState::Welcome => {
            push_hint(&mut v, "[I]", "INIT", Tone::Primary);
            push_hint(&mut v, "[C]", "CONVERT", Tone::Secondary);
            push_hint(&mut v, "[Q]", "EXIT", Tone::Error);
        },
        _ => {
            push_hint(&mut v, "[Q]", "EXIT", Tone::Error);
        },
    }
    assert(footer_view(v@) =~= footer_of(*state));
    v
}

/// The state that a frame shows: a timed notice shows its inner state.
pub open spec fn shown_of(s: AppState) -> AppState {
    match s {
        AppState::Timed { inner_state, .. } => *inner_state,
        other => other,
    }
}

/// The state that a frame of `state` shows.
pub fn shown_state(state: &AppState) -> (r: &AppState)
    ensures
        *r == shown_of(*state),
{
    match state {
        AppState::Timed { inner_state, .. } => inner_state,
        _ => state,
    }
}

/// The cell where the filter box at `area` puts the cursor after text
/// `text_width` cells wide: inside the border, after the text, but not past
/// the right border.
pub open spec fn filter_cursor_of(area: Area, text_width: u16) -> (int, int) {
    let room: int = if area.width >= 2 {
        area.width - 2
    } else {
        0
    };
    let w: int = if text_width < room {
        text_width as int
    } else {
        room
    };
    (area.x + 1 + w, area.y + 1)
}

/// Where the filter box puts the cursor (see `filter_cursor_of`).
pub fn filter_cursor(area: Area, text_width: u16) -> (r: (u16, u16))
    requires
        filter_cursor_of(area, text_width).0 <= u16::MAX,
        filter_cursor_of(area, text_width).1 <= u16::MAX,
    ensures
        r.0 == filter_cursor_of(area, text_width).0,
        r.1 == filter_cursor_of(area, text_width).1,
{
    let room: u16 = if area.width >= 2 {
        area.width - 2
    } else {
        0
    };
    let w: u16 = if text_width < room {
        text_width
    } else {
        room
    };
    (area.x + 1 + w, area.y + 1)
}


/// The dashboard tab shown beside the list: Git mode shows the status,
/// Manage mode the details, other modes the tab the user picked.
pub open spec fn effective_tab_of(mode: AppMode, active: DashboardTab) -> DashboardTab {
    match mode {
        AppMode::Git => DashboardTab::Status,
        AppMode::Manage => DashboardTab::Info,
        _ => active,
    }
}

/// The dashboard tab shown in `mode` (see `effective_tab_of`).
pub fn effective_tab(mode: AppMode, active: DashboardTab) -> (r: DashboardTab)
    ensures
        r == effective_tab_of(mode, active),
{
    match mode {
        AppMode::Git => DashboardTab::Status,
        AppMode::Manage => DashboardTab::Info,
        _ => active,
    }
}

} // verus!
