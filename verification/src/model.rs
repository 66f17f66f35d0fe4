//! The session machine as mathematics: what the manager holds, and for
//! every request the commands it answers with and the state it moves to.
//!
//! A task has at most one panel and at most one fullscreen surface. A
//! record is kept for every panel that exists, shown or hidden; its key is
//! the task's identifier in label form.

use crate::action::ActionView;
use crate::geometry::{lookup, FocusWindowGeometry};
use crate::label::{fullscreen_prefix, panel_prefix, percent_escaped, safe_id};
use crate::placement::{placed_x, placed_y, Scene};
use vstd::prelude::*;
use vstd::utf8::*;

verus! {

/// Width and height that a panel is created with.
pub const PANEL_WIDTH: u32 = 360;

pub const PANEL_HEIGHT: u32 = 56;

/// Smallest size that a panel may be given.
pub const PANEL_MIN_WIDTH: u32 = 270;

pub const PANEL_MIN_HEIGHT: u32 = 48;

/// Delay before the task is delivered a second time to a new panel of the
/// degraded tier.
pub const RESEND_DELAY_MS: u64 = 160;

/// The system that the adapter runs on.
#[derive(Clone, Copy, Debug, PartialEq, Eq, Structural)]
pub enum Platform {
    MacOs,
    Windows,
    Linux,
}

/// What the window system offers: floating panels that are hidden rather
/// than closed, or ordinary windows.
#[derive(Clone, Copy, Debug, PartialEq, Eq, Structural)]
pub enum Tier {
    Rich,
    Degraded,
}

/// Where a task's session stands.
#[derive(Clone, Copy, Debug, PartialEq, Eq, Structural)]
pub enum Phase {
    Closed,
    PanelOpen,
    FullscreenOpen,
}

pub open spec fn tier_of(platform: Platform) -> Tier {
    match platform {
        Platform::MacOs => Tier::Rich,
        _ => Tier::Degraded,
    }
}

/// The height at which a width-only resize holds the panel.
pub open spec fn bar_height(platform: Platform) -> u32 {
    match platform {
        Platform::Windows => 56,
        _ => 48,
    }
}

/// The size that covers the screen when the monitor is not known.
pub open spec fn cover_fallback(tier: Tier) -> (u32, u32) {
    match tier {
        Tier::Rich => (1440, 900),
        Tier::Degraded => (1920, 1080),
    }
}

/// The record of one existing panel.
pub struct SessionView {
    pub key: Seq<char>,
    pub shown: bool,
    pub fullscreen: bool,
}

/// What a handoff back used up although its answer creates a panel, kept
/// so that it can be given back if the creation fails.
pub struct Returning {
    /// The task that was handed back.
    pub task: Seq<char>,
    /// The rectangle that was kept for the task, if there was one.
    pub rectangle: Option<FocusWindowGeometry>,
    /// The key of the record whose fullscreen surface was taken as closed.
    pub fullscreen: Option<Seq<char>>,
}

/// Everything the manager holds.
pub struct ManagerView {
    pub platform: Platform,
    pub sessions: Seq<SessionView>,
    pub last_panel: Option<FocusWindowGeometry>,
    pub handoff: Map<Seq<char>, FocusWindowGeometry>,
    pub pre_fullscreen: Option<FocusWindowGeometry>,
    pub returning: Option<Returning>,
}

// ---------------------------------------------------------------- reading

/// A panel exists under `key`.
pub open spec fn holds(sessions: Seq<SessionView>, key: Seq<char>) -> bool {
    exists|i: int| 0 <= i < sessions.len() && (#[trigger] sessions[i]).key == key
}

/// The panel under `key` is on screen.
pub open spec fn shown(sessions: Seq<SessionView>, key: Seq<char>) -> bool {
    exists|i: int|
        0 <= i < sessions.len() && (#[trigger] sessions[i]).key == key && sessions[i].shown
}

/// The fullscreen surface under `key` is up.
pub open spec fn in_fullscreen(sessions: Seq<SessionView>, key: Seq<char>) -> bool {
    exists|i: int|
        0 <= i < sessions.len() && (#[trigger] sessions[i]).key == key && sessions[i].fullscreen
}

/// Some panel is on screen.
pub open spec fn any_shown(sessions: Seq<SessionView>) -> bool {
    exists|i: int| 0 <= i < sessions.len() && (#[trigger] sessions[i]).shown
}

pub open spec fn phase_of(sessions: Seq<SessionView>, key: Seq<char>) -> Phase {
    if in_fullscreen(sessions, key) {
        Phase::FullscreenOpen
    } else if shown(sessions, key) {
        Phase::PanelOpen
    } else {
        Phase::Closed
    }
}

/// The number of panels that exist beside the one under `key`.
pub open spec fn beside(sessions: Seq<SessionView>, key: Seq<char>) -> nat {
    sessions.filter(|s: SessionView| s.key != key).len()
}

/// No key occurs twice.
pub open spec fn distinct_keys(sessions: Seq<SessionView>) -> bool {
    forall|i: int, j: int|
        0 <= i < j < sessions.len() ==> (#[trigger] sessions[i]).key != (#[trigger] sessions[j]).key
}

/// At most one panel is on screen.
pub open spec fn single_shown(sessions: Seq<SessionView>) -> bool {
    forall|i: int, j: int|
        0 <= i < sessions.len() && 0 <= j < sessions.len() && (#[trigger] sessions[i]).shown && (
        #[trigger] sessions[j]).shown ==> i == j
}

/// The invariant of the manager.
pub open spec fn consistent(m: ManagerView) -> bool {
    distinct_keys(m.sessions) && single_shown(m.sessions)
}

// --------------------------------------------------------------- labels

pub open spec fn is_panel_label(label: Seq<char>) -> bool {
    panel_prefix().is_prefix_of(label)
}

pub open spec fn is_fullscreen_label(label: Seq<char>) -> bool {
    fullscreen_prefix().is_prefix_of(label)
}

pub open spec fn key_of_panel(label: Seq<char>) -> Seq<char> {
    label.skip(panel_prefix().len() as int)
}

pub open spec fn key_of_fullscreen(label: Seq<char>) -> Seq<char> {
    label.skip(fullscreen_prefix().len() as int)
}

/// The address that a new panel of the rich tier loads. The adapter
/// appends the timing values.
pub open spec fn panel_url(task: Seq<char>, name: Seq<char>) -> Seq<char> {
    "index.html?focus=1&taskId="@ + percent_escaped(encode_utf8(task)) + "&taskName="@
        + percent_escaped(encode_utf8(name))
}

/// The address that a new fullscreen surface loads. The adapter appends
/// the timing values.
pub open spec fn fullscreen_url(task: Seq<char>, name: Seq<char>) -> Seq<char> {
    "index.html?focus=1&fullscreen=1&taskId="@ + percent_escaped(encode_utf8(task))
        + "&taskName="@ + percent_escaped(encode_utf8(name))
}

/// The address that a new panel of the degraded tier loads.
pub open spec fn plain_url() -> Seq<char> {
    "index.html?focus=1"@
}

// ------------------------------------------------------------ rewriting

/// The records with the one under `key` changed where a new value is
/// given.
pub open spec fn amended(
    sessions: Seq<SessionView>,
    key: Seq<char>,
    shown: Option<bool>,
    fullscreen: Option<bool>,
) -> Seq<SessionView> {
    sessions.map_values(
        |s: SessionView|
            if s.key == key {
                SessionView {
                    key: s.key,
                    shown: match shown {
                        Some(v) => v,
                        None => s.shown,
                    },
                    fullscreen: match fullscreen {
                        Some(v) => v,
                        None => s.fullscreen,
                    },
                }
            } else {
                s
            },
    )
}

/// The records without the one under `key`.
pub open spec fn without(sessions: Seq<SessionView>, key: Seq<char>) -> Seq<SessionView> {
    sessions.filter(|s: SessionView| s.key != key)
}

/// The records once every shown panel but the one under `key` has left
/// the screen: hidden on the rich tier, closed on the degraded one.
pub open spec fn retired(sessions: Seq<SessionView>, key: Seq<char>, tier: Tier) -> Seq<
    SessionView,
> {
    match tier {
        Tier::Rich => sessions.map_values(
            |s: SessionView|
                if s.key != key && s.shown {
                    SessionView { key: s.key, shown: false, fullscreen: s.fullscreen }
                } else {
                    s
                },
        ),
        Tier::Degraded => sessions.filter(|s: SessionView| s.key == key || !s.shown),
    }
}

/// The command that takes a panel off the screen.
pub open spec fn retire_one(key: Seq<char>, tier: Tier) -> ActionView {
    match tier {
        Tier::Rich => ActionView::Hide { label: panel_prefix() + key },
        Tier::Degraded => ActionView::Close { label: panel_prefix() + key },
    }
}

/// The commands that take every shown panel but the one under `key` off
/// the screen, in the order of the records.
pub open spec fn retiring(sessions: Seq<SessionView>, key: Seq<char>, tier: Tier) -> Seq<
    ActionView,
> {
    sessions.filter(|s: SessionView| s.key != key && s.shown).map_values(
        |s: SessionView| retire_one(s.key, tier),
    )
}

/// The records with the panel under `key` on screen, added if it is new.
pub open spec fn revealed(sessions: Seq<SessionView>, key: Seq<char>) -> Seq<SessionView> {
    if holds(sessions, key) {
        amended(sessions, key, Some(true), None)
    } else {
        sessions.push(SessionView { key, shown: true, fullscreen: false })
    }
}

/// The commands that give a surface a remembered rectangle: size first,
/// then corner.
pub open spec fn restoring(label: Seq<char>, g: FocusWindowGeometry) -> Seq<ActionView> {
    seq![
        ActionView::Resize { label, width: g.width, height: g.height },
        ActionView::MoveTo { label, x: g.x as int, y: g.y as int },
    ]
}

/// The commands that put a panel in its place: the remembered rectangle
/// if there is one, else the computed corner.
pub open spec fn placing(
    label: Seq<char>,
    stored: Option<FocusWindowGeometry>,
    scene: Scene,
    others: nat,
    anchor_left: Option<i32>,
    anchor_right: Option<i32>,
    anchor_top: Option<i32>,
) -> Seq<ActionView> {
    match stored {
        Some(g) => restoring(label, g),
        None => seq![
            ActionView::MoveTo {
                label,
                x: placed_x(scene, others, anchor_left, anchor_right),
                y: placed_y(scene, others, anchor_left, anchor_right, anchor_top),
            },
        ],
    }
}

// ------------------------------------------------------------------ open

/// The scene for a panel that is yet to be created: its width is the one
/// it is created with.
pub open spec fn fresh_scene(scene: Scene) -> Scene {
    Scene { primary: scene.primary, panel_width: Some(PANEL_WIDTH), monitor: scene.monitor }
}

pub open spec fn creating_panel(label: Seq<char>, url: Seq<char>) -> ActionView {
    ActionView::CreatePanel {
        label,
        url,
        width: PANEL_WIDTH,
        height: PANEL_HEIGHT,
        min_width: PANEL_MIN_WIDTH,
        min_height: PANEL_MIN_HEIGHT,
    }
}

/// The delivery of a task to a surface.
pub open spec fn task_note(
    label: Seq<char>,
    task: Seq<char>,
    name: Seq<char>,
    preserve_geometry: Option<bool>,
) -> ActionView {
    ActionView::SendTask { label, task_id: task, task_name: name, preserve_geometry }
}

/// What follows for a panel being opened, once it is on screen: it is put
/// in its place among `others` panels.
pub struct Opening {
    pub task: Seq<char>,
    pub name: Seq<char>,
    pub stored: Option<FocusWindowGeometry>,
    pub scene: Scene,
    pub others: nat,
    pub anchor_left: Option<i32>,
    pub anchor_right: Option<i32>,
    pub anchor_top: Option<i32>,
    pub keep: bool,
}

impl Opening {
    pub open spec fn label(self) -> Seq<char> {
        panel_prefix() + safe_id(self.task)
    }

    pub open spec fn note(self) -> ActionView {
        task_note(self.label(), self.task, self.name, Some(self.keep))
    }

    pub open spec fn told(self) -> ActionView {
        ActionView::NotifyOpened { task_id: self.task }
    }

    /// The placement at the measured width.
    pub open spec fn placing_measured(self) -> Seq<ActionView> {
        placing(
            self.label(),
            self.stored,
            self.scene,
            self.others,
            self.anchor_left,
            self.anchor_right,
            self.anchor_top,
        )
    }

    /// The placement at the width that a panel is created with.
    pub open spec fn placing_fresh(self) -> Seq<ActionView> {
        placing(
            self.label(),
            self.stored,
            fresh_scene(self.scene),
            self.others,
            self.anchor_left,
            self.anchor_right,
            self.anchor_top,
        )
    }

    /// The second delivery of the task, which the degraded tier makes after
    /// a delay.
    pub open spec fn later(self) -> ActionView {
        ActionView::SendTaskLater {
            label: self.label(),
            task_id: self.task,
            task_name: self.name,
            preserve_geometry: Some(self.keep),
            delay_ms: RESEND_DELAY_MS,
        }
    }

    /// The panel exists: it is raised, placed at its measured width and
    /// given the task, and the primary window is told. The rich tier then
    /// hides the primary window; the degraded tier delivers the task a
    /// second time.
    pub open spec fn raised(self, tier: Tier) -> Seq<ActionView> {
        seq![ActionView::Raise { label: self.label() }] + self.placing_measured() + match tier {
            Tier::Rich => seq![self.note(), self.told(), ActionView::HidePrimary],
            Tier::Degraded => seq![self.note(), self.later(), self.told()],
        }
    }

    /// The panel is new: it is created, placed at the width it is created
    /// with, raised and given the task, and the primary window is told.
    /// The rich tier raises the panel before it places it, and hides the
    /// primary window at the end; the degraded tier delivers the task a
    /// second time.
    pub open spec fn created(self, tier: Tier) -> Seq<ActionView> {
        match tier {
            Tier::Rich => seq![
                creating_panel(self.label(), panel_url(self.task, self.name)),
                ActionView::Raise { label: self.label() },
            ] + self.placing_fresh() + seq![self.note(), self.told(), ActionView::HidePrimary],
            Tier::Degraded => seq![creating_panel(self.label(), plain_url())]
                + self.placing_fresh() + seq![
                ActionView::Raise { label: self.label() },
                self.note(),
                self.later(),
                self.told(),
            ],
        }
    }
}

/// The answer to an open request: first every other shown panel leaves
/// the screen, then the task's panel is raised if it exists and created if
/// not, as [`Opening`] says.
pub open spec fn open_plan(
    m: ManagerView,
    scene: Scene,
    task: Seq<char>,
    name: Seq<char>,
    anchor_left: Option<i32>,
    anchor_right: Option<i32>,
    anchor_top: Option<i32>,
    preserve: Option<bool>,
) -> Seq<ActionView> {
    let key = safe_id(task);
    let tier = tier_of(m.platform);
    let opening = Opening {
        task,
        name,
        stored: m.last_panel,
        scene,
        others: beside(retired(m.sessions, key, tier), key),
        anchor_left,
        anchor_right,
        anchor_top,
        keep: preserve == Some(true),
    };
    retiring(m.sessions, key, tier) + if holds(m.sessions, key) {
        opening.raised(tier)
    } else {
        opening.created(tier)
    }
}

/// The state after an open request: the task's panel is the one panel on
/// screen.
pub open spec fn open_state(m: ManagerView, task: Seq<char>) -> ManagerView {
    let key = safe_id(task);
    ManagerView {
        platform: m.platform,
        sessions: revealed(retired(m.sessions, key, tier_of(m.platform)), key),
        last_panel: m.last_panel,
        handoff: m.handoff,
        pre_fullscreen: m.pre_fullscreen,
        returning: None,
    }
}

// ---------------------------------------------------------------- leaving

/// The key of the fullscreen surface that a leaving request closes: the
/// surface that sent the request if it is fullscreen-kind, else the
/// task's own if it is up.
pub open spec fn leaving_fullscreen(
    sessions: Seq<SessionView>,
    origin: Seq<char>,
    key: Seq<char>,
) -> Option<Seq<char>> {
    if is_fullscreen_label(origin) {
        Some(key_of_fullscreen(origin))
    } else if in_fullscreen(sessions, key) {
        Some(key)
    } else {
        None
    }
}

pub open spec fn fullscreen_closing(
    sessions: Seq<SessionView>,
    origin: Seq<char>,
    key: Seq<char>,
) -> Seq<ActionView> {
    match leaving_fullscreen(sessions, origin, key) {
        Some(k) => seq![ActionView::Close { label: fullscreen_prefix() + k }],
        None => Seq::empty(),
    }
}

pub open spec fn fullscreen_closed(
    sessions: Seq<SessionView>,
    origin: Seq<char>,
    key: Seq<char>,
) -> Seq<SessionView> {
    match leaving_fullscreen(sessions, origin, key) {
        Some(k) => amended(sessions, k, None, Some(false)),
        None => sessions,
    }
}

/// The answer to a request to go home: the fullscreen surface is closed,
/// the panel is hidden (rich tier) or closed (degraded tier), the primary
/// window is told and comes back.
pub open spec fn home_plan(
    m: ManagerView,
    origin: Seq<char>,
    task: Seq<char>,
    complete_on_home: Option<bool>,
) -> Seq<ActionView> {
    let key = safe_id(task);
    fullscreen_closing(m.sessions, origin, key) + (if holds(m.sessions, key) {
        seq![retire_one(key, tier_of(m.platform))]
    } else {
        Seq::empty()
    }) + seq![
        ActionView::NotifyClosed {
            closed_task: Some(task),
            complete_on_home: Some(complete_on_home == Some(true)),
        },
        ActionView::RestorePrimary,
    ]
}

/// The records after the panel under `key` left for good.
pub open spec fn put_away(sessions: Seq<SessionView>, key: Seq<char>, tier: Tier) -> Seq<
    SessionView,
> {
    match tier {
        Tier::Rich => amended(sessions, key, Some(false), None),
        Tier::Degraded => without(sessions, key),
    }
}

pub open spec fn home_state(m: ManagerView, origin: Seq<char>, task: Seq<char>) -> ManagerView {
    let key = safe_id(task);
    ManagerView {
        platform: m.platform,
        sessions: put_away(
            fullscreen_closed(m.sessions, origin, key),
            key,
            tier_of(m.platform),
        ),
        last_panel: m.last_panel,
        handoff: m.handoff.remove(task),
        pre_fullscreen: m.pre_fullscreen,
        returning: m.returning,
    }
}

/// The key of the session that a close request is about: the task's, or
/// without a task that of the focus surface, panel or fullscreen, that
/// sent the request. A request without a task from any other surface is
/// about none.
pub open spec fn close_target(origin: Seq<char>, task: Option<Seq<char>>) -> Option<Seq<char>> {
    match task {
        Some(t) => Some(safe_id(t)),
        None => if is_panel_label(origin) {
            Some(key_of_panel(origin))
        } else if is_fullscreen_label(origin) {
            Some(key_of_fullscreen(origin))
        } else {
            None
        },
    }
}

/// The answer to a close request. Without a target it is empty. Else it
/// is that of going home without the completion note: the fullscreen
/// surface is closed, the panel, if there is one, is hidden (rich tier) or
/// closed (degraded tier), the primary window is told and comes back.
pub open spec fn close_plan(
    m: ManagerView,
    origin: Seq<char>,
    task: Option<Seq<char>>,
) -> Seq<ActionView> {
    match close_target(origin, task) {
        None => Seq::empty(),
        Some(key) => fullscreen_closing(m.sessions, origin, key) + (if holds(m.sessions, key) {
            seq![retire_one(key, tier_of(m.platform))]
        } else {
            Seq::empty()
        }) + seq![
            ActionView::NotifyClosed { closed_task: task, complete_on_home: None },
            ActionView::RestorePrimary,
        ],
    }
}

/// The state after a close request. On the rich tier the rectangle that
/// the panel had, where the adapter could measure it, is remembered for
/// the next panel.
pub open spec fn close_state(
    m: ManagerView,
    origin: Seq<char>,
    task: Option<Seq<char>>,
    measured: Option<FocusWindowGeometry>,
) -> ManagerView {
    match close_target(origin, task) {
        None => m,
        Some(key) => {
            let tier = tier_of(m.platform);
            ManagerView {
                platform: m.platform,
                sessions: put_away(fullscreen_closed(m.sessions, origin, key), key, tier),
                last_panel: if holds(m.sessions, key) && tier is Rich && measured is Some {
                    measured
                } else {
                    m.last_panel
                },
                handoff: match task {
                    Some(t) => m.handoff.remove(t),
                    None => m.handoff,
                },
                pre_fullscreen: m.pre_fullscreen,
                returning: m.returning,
            }
        },
    }
}

// ---------------------------------------------------------------- handoff

/// A handoff to fullscreen is served on the rich tier, for a task whose
/// panel is on screen.
pub open spec fn handoff_ready(m: ManagerView, task: Seq<char>) -> bool {
    tier_of(m.platform) is Rich && shown(m.sessions, safe_id(task))
}

/// The answer to a handoff to fullscreen: the fullscreen surface is
/// created, or shown again if it exists, the task is delivered to it, and
/// the panel is hidden afterwards.
pub open spec fn enter_handoff_plan(m: ManagerView, task: Seq<char>, name: Seq<char>) -> Seq<
    ActionView,
> {
    let key = safe_id(task);
    let label = fullscreen_prefix() + key;
    let note = ActionView::SendTask {
        label,
        task_id: task,
        task_name: name,
        preserve_geometry: None,
    };
    if !handoff_ready(m, task) {
        Seq::empty()
    } else if in_fullscreen(m.sessions, key) {
        seq![
            ActionView::RaiseFullscreen { label },
            note,
            ActionView::Hide { label: panel_prefix() + key },
        ]
    } else {
        seq![
            ActionView::CreateFullscreen { label, url: fullscreen_url(task, name) },
            note,
            ActionView::Focus { label },
            ActionView::Hide { label: panel_prefix() + key },
        ]
    }
}

/// The state after a handoff to fullscreen: the panel's rectangle, where
/// the adapter could measure it, is kept under the task.
pub open spec fn enter_handoff_state(
    m: ManagerView,
    task: Seq<char>,
    measured: Option<FocusWindowGeometry>,
) -> ManagerView {
    if !handoff_ready(m, task) {
        m
    } else {
        ManagerView {
            platform: m.platform,
            sessions: amended(m.sessions, safe_id(task), Some(false), Some(true)),
            last_panel: m.last_panel,
            handoff: match measured {
                Some(g) => m.handoff.insert(task, g),
                None => m.handoff,
            },
            pre_fullscreen: m.pre_fullscreen,
            returning: None,
        }
    }
}

/// The answer to a handoff back to the panel: an open request that
/// preserves geometry, then the rectangle kept at the handoff, then the
/// closing of the fullscreen surface. The degraded tier has no handoff.
pub open spec fn exit_handoff_plan(
    m: ManagerView,
    origin: Seq<char>,
    scene: Scene,
    task: Seq<char>,
    name: Seq<char>,
) -> Seq<ActionView> {
    let key = safe_id(task);
    if tier_of(m.platform) is Degraded {
        Seq::empty()
    } else {
        open_plan(m, scene, task, name, None, None, None, Some(true)) + (match lookup(
            m.handoff,
            task,
        ) {
            Some(g) => restoring(panel_prefix() + key, g),
            None => Seq::empty(),
        }) + fullscreen_closing(open_state(m, task).sessions, origin, key)
    }
}

/// What a handoff back uses up of `m` although its answer creates the
/// panel: the rectangle kept for the task, and the fullscreen surface that
/// it takes as closed.
pub open spec fn used_up(m: ManagerView, origin: Seq<char>, task: Seq<char>) -> Returning {
    let opened = open_state(m, task).sessions;
    Returning {
        task,
        rectangle: lookup(m.handoff, task),
        fullscreen: match leaving_fullscreen(opened, origin, safe_id(task)) {
            Some(k) => if in_fullscreen(opened, k) {
                Some(k)
            } else {
                None
            },
            None => None,
        },
    }
}

/// The state after a handoff back: the panel is open, the kept rectangle
/// is used up and the fullscreen surface is taken as closed. Where the
/// answer creates the panel, what was used up is kept in mind until the
/// next request that may create a surface.
pub open spec fn exit_handoff_state(m: ManagerView, origin: Seq<char>, task: Seq<char>) -> ManagerView {
    let key = safe_id(task);
    if tier_of(m.platform) is Degraded {
        m
    } else {
        ManagerView {
            platform: m.platform,
            sessions: fullscreen_closed(open_state(m, task).sessions, origin, key),
            last_panel: m.last_panel,
            handoff: m.handoff.remove(task),
            pre_fullscreen: m.pre_fullscreen,
            returning: if holds(m.sessions, key) {
                None
            } else {
                Some(used_up(m, origin, task))
            },
        }
    }
}

/// The failed creation is that of the panel of the handoff back that the
/// manager keeps in mind.
pub open spec fn failed_on_return(m: ManagerView, label: Seq<char>) -> bool {
    m.returning matches Some(r) && label == panel_prefix() + safe_id(r.task)
}

/// The records after the adapter failed to create the surface `label`.
///
/// A panel that could not be created has no record. A fullscreen surface
/// that could not be created is not up, and the panel it was to replace
/// is on screen again, since the adapter stopped before hiding it. Where
/// the panel of a handoff back could not be created, the fullscreen
/// surface that the handoff took as closed is up again.
pub open spec fn failure_sessions(m: ManagerView, label: Seq<char>) -> Seq<SessionView> {
    if is_panel_label(label) {
        let dropped = without(m.sessions, key_of_panel(label));
        if failed_on_return(m, label) && m.returning->0.fullscreen is Some {
            amended(dropped, m.returning->0.fullscreen->0, None, Some(true))
        } else {
            dropped
        }
    } else if is_fullscreen_label(label) && in_fullscreen(m.sessions, key_of_fullscreen(label)) {
        amended(
            m.sessions,
            key_of_fullscreen(label),
            if any_shown(m.sessions) {
                None
            } else {
                Some(true)
            },
            Some(false),
        )
    } else {
        m.sessions
    }
}

/// The state after the adapter failed to create the surface `label`: the
/// records are as [`failure_sessions`] says, and where the panel of a
/// handoff back could not be created, the rectangle that the handoff used
/// up is kept for the task again.
pub open spec fn failure_state(m: ManagerView, label: Seq<char>) -> ManagerView {
    ManagerView {
        platform: m.platform,
        sessions: failure_sessions(m, label),
        last_panel: m.last_panel,
        handoff: if failed_on_return(m, label) && m.returning->0.rectangle is Some {
            m.handoff.insert(m.returning->0.task, m.returning->0.rectangle->0)
        } else {
            m.handoff
        },
        pre_fullscreen: m.pre_fullscreen,
        returning: None,
    }
}

// ----------------------------------------------------------------- resize

/// The request comes from a panel that is on screen.
pub open spec fn panel_open(m: ManagerView, origin: Seq<char>) -> bool {
    is_panel_label(origin) && shown(m.sessions, key_of_panel(origin))
}

/// The answer to a width request: the panel gets the width, at the
/// platform's bar height. The degraded tier leaves native fullscreen first.
pub open spec fn width_plan(m: ManagerView, origin: Seq<char>, width: u32) -> Seq<ActionView> {
    if !panel_open(m, origin) {
        Seq::empty()
    } else {
        (if tier_of(m.platform) is Degraded {
            seq![ActionView::LeaveNativeFullscreen { label: origin }]
        } else {
            Seq::empty()
        }) + seq![ActionView::Resize { label: origin, width, height: bar_height(m.platform) }]
    }
}

/// The answer to a height request: the panel gets the height at the width
/// it has, where the adapter could measure that.
pub open spec fn height_plan(
    m: ManagerView,
    origin: Seq<char>,
    height: u32,
    current_width: Option<u32>,
) -> Seq<ActionView> {
    match current_width {
        Some(width) if panel_open(m, origin) => seq![
            ActionView::Resize { label: origin, width, height },
        ],
        _ => Seq::empty(),
    }
}

/// The answer to a request to cover the screen: the panel is prepared,
/// moved to the monitor's corner and given the monitor's size, or the
/// fallback rectangle where the monitor is not known.
pub open spec fn cover_plan(
    m: ManagerView,
    origin: Seq<char>,
    monitor: Option<FocusWindowGeometry>,
) -> Seq<ActionView> {
    if !panel_open(m, origin) {
        Seq::empty()
    } else {
        seq![ActionView::PrepareCover { label: origin }] + match monitor {
            Some(r) => seq![
                ActionView::MoveTo { label: origin, x: r.x as int, y: r.y as int },
                ActionView::Resize { label: origin, width: r.width, height: r.height },
            ],
            None => seq![
                ActionView::MoveTo { label: origin, x: 0, y: 0 },
                ActionView::Resize {
                    label: origin,
                    width: cover_fallback(tier_of(m.platform)).0,
                    height: cover_fallback(tier_of(m.platform)).1,
                },
            ],
        }
    }
}

/// The state after a request to cover the screen: the degraded tier keeps
/// the rectangle that the panel had, where the adapter could measure it.
pub open spec fn cover_state(
    m: ManagerView,
    origin: Seq<char>,
    measured: Option<FocusWindowGeometry>,
) -> ManagerView {
    if panel_open(m, origin) && tier_of(m.platform) is Degraded && measured is Some {
        ManagerView {
            platform: m.platform,
            sessions: m.sessions,
            last_panel: m.last_panel,
            handoff: m.handoff,
            pre_fullscreen: measured,
            returning: m.returning,
        }
    } else {
        m
    }
}

/// A request to uncover is served on the degraded tier, for a panel on
/// screen whose rectangle was kept.
pub open spec fn uncover_ready(m: ManagerView, origin: Seq<char>) -> bool {
    panel_open(m, origin) && tier_of(m.platform) is Degraded && m.pre_fullscreen is Some
}

/// The answer to a request to uncover: the kept rectangle.
pub open spec fn uncover_plan(m: ManagerView, origin: Seq<char>) -> Seq<ActionView> {
    if uncover_ready(m, origin) {
        restoring(origin, m.pre_fullscreen->0)
    } else {
        Seq::empty()
    }
}

/// The state after a request to uncover: the kept rectangle is used up.
pub open spec fn uncover_state(m: ManagerView, origin: Seq<char>) -> ManagerView {
    if uncover_ready(m, origin) {
        ManagerView {
            platform: m.platform,
            sessions: m.sessions,
            last_panel: m.last_panel,
            handoff: m.handoff,
            pre_fullscreen: None,
            returning: m.returning,
        }
    } else {
        m
    }
}

} // verus!
