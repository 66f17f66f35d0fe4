//! The commands that a request is answered with.
//!
//! The adapter carries a list out from front to back. A command whose
//! surface is gone is skipped without an error. A resize or a move that
//! the window system refuses is reported to the adapter's own caller once
//! the list is through. When a surface cannot be created, the adapter
//! drops the rest of the list, reports the failure to its own caller and
//! tells the manager with `creation_failed`.

use vstd::prelude::*;

verus! {

/// One step for the adapter to carry out.
#[derive(Debug, PartialEq, Eq)]
pub enum Action {
    /// Take the surface off the screen and keep it.
    Hide { label: String },
    /// Destroy the surface.
    Close { label: String },
    /// Create a panel that loads `url`, with the given size and minimum
    /// size.
    CreatePanel {
        label: String,
        url: String,
        width: u32,
        height: u32,
        min_width: u32,
        min_height: u32,
    },
    /// Show the surface and bring it to the front.
    Raise { label: String },
    /// Create an undecorated, always-on-top surface in native fullscreen
    /// that loads `url`.
    CreateFullscreen { label: String, url: String },
    /// Put the surface back into native fullscreen, show it and give it
    /// the keyboard.
    RaiseFullscreen { label: String },
    /// Give the surface the keyboard.
    Focus { label: String },
    /// Take the surface out of native fullscreen.
    LeaveNativeFullscreen { label: String },
    /// Make the surface resizable and keep it above other windows.
    PrepareCover { label: String },
    /// Set the size of the surface.
    Resize { label: String, width: u32, height: u32 },
    /// Set the top-left corner of the surface.
    MoveTo { label: String, x: i128, y: i128 },
    /// Deliver the task to the surface. The adapter adds the timing
    /// values of the request it is serving.
    SendTask { label: String, task_id: String, task_name: String, preserve_geometry: Option<bool> },
    /// Deliver the task once more after `delay_ms`, if the surface still
    /// exists by then.
    SendTaskLater {
        label: String,
        task_id: String,
        task_name: String,
        preserve_geometry: Option<bool>,
        delay_ms: u64,
    },
    /// Tell the primary window that `task_id` is now in focus.
    NotifyOpened { task_id: String },
    /// Tell the primary window that focus ended. The adapter adds the
    /// elapsed time where `complete_on_home` is given.
    NotifyClosed { closed_task: Option<String>, complete_on_home: Option<bool> },
    /// Take the primary window off the screen.
    HidePrimary,
    /// Show the primary window and give it the keyboard.
    RestorePrimary,
}

/// An [`Action`] with its texts as character sequences.
pub enum ActionView {
    Hide { label: Seq<char> },
    Close { label: Seq<char> },
    CreatePanel {
        label: Seq<char>,
        url: Seq<char>,
        width: u32,
        height: u32,
        min_width: u32,
        min_height: u32,
    },
    Raise { label: Seq<char> },
    CreateFullscreen { label: Seq<char>, url: Seq<char> },
    RaiseFullscreen { label: Seq<char> },
    Focus { label: Seq<char> },
    LeaveNativeFullscreen { label: Seq<char> },
    PrepareCover { label: Seq<char> },
    Resize { label: Seq<char>, width: u32, height: u32 },
    MoveTo { label: Seq<char>, x: int, y: int },
    SendTask {
        label: Seq<char>,
        task_id: Seq<char>,
        task_name: Seq<char>,
        preserve_geometry: Option<bool>,
    },
    SendTaskLater {
        label: Seq<char>,
        task_id: Seq<char>,
        task_name: Seq<char>,
        preserve_geometry: Option<bool>,
        delay_ms: u64,
    },
    NotifyOpened { task_id: Seq<char> },
    NotifyClosed { closed_task: Option<Seq<char>>, complete_on_home: Option<bool> },
    HidePrimary,
    RestorePrimary,
}

impl View for Action {
    type V = ActionView;

    open spec fn view(&self) -> ActionView {
        match self {
            Action::Hide { label } => ActionView::Hide { label: label@ },
            Action::Close { label } => ActionView::Close { label: label@ },
            Action::CreatePanel { label, url, width, height, min_width, min_height } => {
                ActionView::CreatePanel {
                    label: label@,
                    url: url@,
                    width: *width,
                    height: *height,
                    min_width: *min_width,
                    min_height: *min_height,
                }
            },
            Action::Raise { label } => ActionView::Raise { label: label@ },
            Action::CreateFullscreen { label, url } => ActionView::CreateFullscreen {
                label: label@,
                url: url@,
            },
            Action::RaiseFullscreen { label } => ActionView::RaiseFullscreen { label: label@ },
            Action::Focus { label } => ActionView::Focus { label: label@ },
            Action::LeaveNativeFullscreen { label } => ActionView::LeaveNativeFullscreen {
                label: label@,
            },
            Action::PrepareCover { label } => ActionView::PrepareCover { label: label@ },
            Action::Resize { label, width, height } => ActionView::Resize {
                label: label@,
                width: *width,
                height: *height,
            },
            Action::MoveTo { label, x, y } => ActionView::MoveTo {
                label: label@,
                x: *x as int,
                y: *y as int,
            },
            Action::SendTask { label, task_id, task_name, preserve_geometry } => {
                ActionView::SendTask {
                    label: label@,
                    task_id: task_id@,
                    task_name: task_name@,
                    preserve_geometry: *preserve_geometry,
                }
            },
            Action::SendTaskLater { label, task_id, task_name, preserve_geometry, delay_ms } => {
                ActionView::SendTaskLater {
                    label: label@,
                    task_id: task_id@,
                    task_name: task_name@,
                    preserve_geometry: *preserve_geometry,
                    delay_ms: *delay_ms,
                }
            },
            Action::NotifyOpened { task_id } => ActionView::NotifyOpened { task_id: task_id@ },
            Action::NotifyClosed { closed_task, complete_on_home } => ActionView::NotifyClosed {
                closed_task: match closed_task {
                    Some(id) => Some(id@),
                    None => None,
                },
                complete_on_home: *complete_on_home,
            },
            Action::HidePrimary => ActionView::HidePrimary,
            Action::RestorePrimary => ActionView::RestorePrimary,
        }
    }
}

/// The views of a list of actions, in order.
pub open spec fn views(actions: Seq<Action>) -> Seq<ActionView> {
    actions.map_values(|a: Action| a@)
}

/// An empty list.
pub(crate) fn fresh() -> (list: Vec<Action>)
    ensures
        list@.len() == 0,
        views(list@) == Seq::<ActionView>::empty(),
{
    let list: Vec<Action> = Vec::new();
    assert(views(list@) =~= Seq::<ActionView>::empty());
    list
}

/// Appends `more` to `list`.
pub(crate) fn extend(list: &mut Vec<Action>, more: Vec<Action>)
    ensures
        views(final(list)@) == views(old(list)@) + views(more@),
{
    let mut more = more;
    let ghost added = more@;
    list.append(&mut more);
    assert(views(list@) =~= views(old(list)@) + views(added));
}

/// Appends one action to `list`.
pub(crate) fn push(list: &mut Vec<Action>, action: Action)
    ensures
        views(final(list)@) == views(old(list)@).push(action@),
{
    list.push(action);
    assert(views(list@) =~= views(old(list)@).push(action@));
}

} // verus!
