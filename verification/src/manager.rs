//! The manager: the state of all focus sessions, and the requests that
//! move it.

use crate::action::{extend, fresh, push, views, Action, ActionView};
use crate::geometry::{lookup, FocusWindowGeometry, GeometryStore};
use crate::label::{
    focus_window_label, fullscreen_label_of, fullscreen_prefix, panel_label_of, panel_prefix,
    percent_encode, safe_id, safe_task_id,
};
use crate::model::{
    amended, any_shown, beside, close_plan, close_state, close_target, consistent, cover_plan,
    cover_state, creating_panel, enter_handoff_plan, enter_handoff_state, exit_handoff_plan,
    exit_handoff_state, failed_on_return, failure_state, fullscreen_closed, fullscreen_closing,
    fullscreen_url, height_plan, holds, home_plan, home_state, in_fullscreen, is_fullscreen_label,
    is_panel_label, key_of_fullscreen, key_of_panel, leaving_fullscreen, open_plan, open_state,
    panel_open, panel_url, phase_of, placing, put_away, restoring, retire_one, retired, retiring,
    revealed, shown, tier_of, uncover_plan, uncover_state, width_plan, without, ManagerView,
    Opening, Phase, Platform, Returning, SessionView, Tier, PANEL_HEIGHT, PANEL_MIN_HEIGHT,
    PANEL_MIN_WIDTH, PANEL_WIDTH, RESEND_DELAY_MS,
};
use crate::placement::{position_focus_window, Scene};
use crate::text::{after, starts_with};
use crate::upkeep::{
    lemma_close_consistent, lemma_enter_handoff_consistent, lemma_exit_handoff_consistent,
    lemma_failure_consistent, lemma_home_consistent, lemma_open_consistent,
};
use vstd::prelude::*;
use vstd::string::*;

verus! {

struct Session {
    key: String,
    shown: bool,
    fullscreen: bool,
}

impl View for Session {
    type V = SessionView;

    closed spec fn view(&self) -> SessionView {
        SessionView { key: self.key@, shown: self.shown, fullscreen: self.fullscreen }
    }
}

spec fn session_views(sessions: Seq<Session>) -> Seq<SessionView> {
    sessions.map_values(|s: Session| s@)
}

/// What a handoff back used up, for as long as it can be given back.
struct Pending {
    task: String,
    rectangle: Option<FocusWindowGeometry>,
    fullscreen: Option<String>,
}

impl View for Pending {
    type V = Returning;

    closed spec fn view(&self) -> Returning {
        Returning {
            task: self.task@,
            rectangle: self.rectangle,
            fullscreen: match self.fullscreen {
                Some(k) => Some(k@),
                None => None,
            },
        }
    }
}

/// The state of all focus sessions on one desktop.
pub struct FocusManager {
    platform: Platform,
    sessions: Vec<Session>,
    last_panel: GeometryStore,
    handoff: GeometryStore,
    pre_fullscreen: GeometryStore,
    returning: Option<Pending>,
}

impl View for FocusManager {
    type V = ManagerView;

    closed spec fn view(&self) -> ManagerView {
        ManagerView {
            platform: self.platform,
            sessions: session_views(self.sessions@),
            last_panel: lookup(self.last_panel@, "last"@),
            handoff: self.handoff@,
            pre_fullscreen: lookup(self.pre_fullscreen@, "last"@),
            returning: match self.returning {
                Some(p) => Some(p@),
                None => None,
            },
        }
    }
}

fn copy_session(s: &Session) -> (c: Session)
    ensures
        c@ == s@,
{
    Session { key: s.key.clone(), shown: s.shown, fullscreen: s.fullscreen }
}

/// Whether a panel exists under `key`, whether it is shown, and whether
/// its fullscreen surface is up.
fn probe(sessions: &Vec<Session>, key: &String) -> (r: (bool, bool, bool))
    ensures
        r.0 == holds(session_views(sessions@), key@),
        r.1 == shown(session_views(sessions@), key@),
        r.2 == in_fullscreen(session_views(sessions@), key@),
{
    let ghost sv = session_views(sessions@);
    let mut found = false;
    let mut visible = false;
    let mut full = false;
    let mut i: usize = 0;
    while i < sessions.len()
        invariant
            i <= sessions.len(),
            sv == session_views(sessions@),
            found == (exists|j: int| 0 <= j < i && (#[trigger] sv[j]).key == key@),
            visible == (exists|j: int| 0 <= j < i && (#[trigger] sv[j]).key == key@ && sv[j].shown),
            full == (exists|j: int|
                0 <= j < i && (#[trigger] sv[j]).key == key@ && sv[j].fullscreen),
        decreases sessions.len() - i,
    {
        let s = &sessions[i];
        assert(sv[i as int] == s@);
        if s.key == *key {
            found = true;
            if s.shown {
                visible = true;
            }
            if s.fullscreen {
                full = true;
            }
        }
        i += 1;
    }
    (found, visible, full)
}

/// Whether any panel is on screen.
fn probe_shown(sessions: &Vec<Session>) -> (r: bool)
    ensures
        r == any_shown(session_views(sessions@)),
{
    let ghost sv = session_views(sessions@);
    let mut visible = false;
    let mut i: usize = 0;
    while i < sessions.len()
        invariant
            i <= sessions.len(),
            sv == session_views(sessions@),
            visible == (exists|j: int| 0 <= j < i && (#[trigger] sv[j]).shown),
        decreases sessions.len() - i,
    {
        assert(sv[i as int] == sessions[i as int]@);
        if sessions[i].shown {
            visible = true;
        }
        i += 1;
    }
    visible
}

proof fn lemma_take_next<A>(s: Seq<A>, i: int)
    requires
        0 <= i < s.len(),
    ensures
        s.take(i + 1) == s.take(i).push(s[i]),
        s.take(0) == Seq::<A>::empty(),
        s.take(s.len() as int) == s,
{
    assert(s.take(i + 1) =~= s.take(i).push(s[i]));
    assert(s.take(0) =~= Seq::<A>::empty());
    assert(s.take(s.len() as int) =~= s);
}

proof fn lemma_take_ends<A>(s: Seq<A>)
    ensures
        s.take(0) == Seq::<A>::empty(),
        s.take(s.len() as int) == s,
{
    assert(s.take(0) =~= Seq::<A>::empty());
    assert(s.take(s.len() as int) =~= s);
}

proof fn lemma_filter_empty<A>(pred: spec_fn(A) -> bool)
    ensures
        Seq::<A>::empty().filter(pred) == Seq::<A>::empty(),
{
    reveal(Seq::filter);
}

/// The number of panels beside the one under `key`.
fn count_beside(sessions: &Vec<Session>, key: &String) -> (n: usize)
    ensures
        n == beside(session_views(sessions@), key@),
{
    let ghost sv = session_views(sessions@);
    let mut n: usize = 0;
    let mut i: usize = 0;
    proof {
        lemma_take_ends(sv);
        lemma_filter_empty(|s: SessionView| s.key != key@);
    }
    while i < sessions.len()
        invariant
            i <= sessions.len(),
            sv == session_views(sessions@),
            n <= i,
            n == beside(sv.take(i as int), key@),
        decreases sessions.len() - i,
    {
        proof {
            broadcast use Seq::lemma_filter_push;

            lemma_take_next(sv, i as int);
            assert(sv[i as int] == sessions[i as int]@);
        }
        if sessions[i].key != *key {
            n += 1;
        }
        i += 1;
    }
    proof {
        lemma_take_ends(sv);
    }
    n
}

/// A copy of the records with the one under `key` changed.
fn amend(sessions: &Vec<Session>, key: &String, shown: Option<bool>, fullscreen: Option<bool>) -> (out:
    Vec<Session>)
    ensures
        session_views(out@) == amended(session_views(sessions@), key@, shown, fullscreen),
{
    let ghost sv = session_views(sessions@);
    let ghost goal = amended(sv, key@, shown, fullscreen);
    let mut out: Vec<Session> = Vec::new();
    let mut i: usize = 0;
    while i < sessions.len()
        invariant
            i <= sessions.len(),
            out.len() == i,
            sv == session_views(sessions@),
            goal == amended(sv, key@, shown, fullscreen),
            forall|j: int| 0 <= j < i ==> (#[trigger] out@[j])@ == goal[j],
        decreases sessions.len() - i,
    {
        let s = &sessions[i];
        assert(sv[i as int] == s@);
        let next = if s.key == *key {
            Session {
                key: s.key.clone(),
                shown: match shown {
                    Some(v) => v,
                    None => s.shown,
                },
                fullscreen: match fullscreen {
                    Some(v) => v,
                    None => s.fullscreen,
                },
            }
        } else {
            copy_session(s)
        };
        out.push(next);
        i += 1;
    }
    assert(session_views(out@) =~= goal);
    out
}

/// A copy of the records without the one under `key`.
fn drop_key(sessions: &Vec<Session>, key: &String) -> (out: Vec<Session>)
    ensures
        session_views(out@) == without(session_views(sessions@), key@),
{
    let ghost sv = session_views(sessions@);
    let mut out: Vec<Session> = Vec::new();
    let mut i: usize = 0;
    proof {
        lemma_take_ends(sv);
        lemma_filter_empty(|s: SessionView| s.key != key@);
        assert(session_views(out@) =~= Seq::<SessionView>::empty());
    }
    while i < sessions.len()
        invariant
            i <= sessions.len(),
            sv == session_views(sessions@),
            session_views(out@) == without(sv.take(i as int), key@),
        decreases sessions.len() - i,
    {
        let s = &sessions[i];
        proof {
            broadcast use Seq::lemma_filter_push;

            lemma_take_next(sv, i as int);
            assert(sv[i as int] == s@);
        }
        if s.key != *key {
            let ghost before = session_views(out@);
            let c = copy_session(s);
            out.push(c);
            assert(session_views(out@) =~= before.push(s@));
        }
        i += 1;
    }
    proof {
        lemma_take_ends(sv);
    }
    out
}

/// The commands that take every shown panel but the one under `key` off
/// the screen.
fn retiring_actions(sessions: &Vec<Session>, key: &String, tier: Tier) -> (out: Vec<Action>)
    ensures
        views(out@) == retiring(session_views(sessions@), key@, tier),
{
    let ghost sv = session_views(sessions@);
    let mut out = fresh();
    let mut i: usize = 0;
    proof {
        lemma_take_ends(sv);
        lemma_filter_empty(|s: SessionView| s.key != key@ && s.shown);
        assert(views(out@) =~= retiring(sv.take(0), key@, tier));
    }
    while i < sessions.len()
        invariant
            i <= sessions.len(),
            sv == session_views(sessions@),
            views(out@) == retiring(sv.take(i as int), key@, tier),
        decreases sessions.len() - i,
    {
        let s = &sessions[i];
        proof {
            broadcast use Seq::lemma_filter_push;

            lemma_take_next(sv, i as int);
            assert(sv[i as int] == s@);
        }
        let ghost before = views(out@);
        if s.key != *key && s.shown {
            let label = panel_label_of(s.key.as_str());
            match tier {
                Tier::Rich => push(&mut out, Action::Hide { label }),
                Tier::Degraded => push(&mut out, Action::Close { label }),
            }
            assert(views(out@) =~= retiring(sv.take(i + 1), key@, tier));
        }
        i += 1;
    }
    proof {
        lemma_take_ends(sv);
    }
    out
}

/// A copy of the records once every shown panel but the one under `key`
/// has left the screen.
fn retire(sessions: &Vec<Session>, key: &String, tier: Tier) -> (out: Vec<Session>)
    ensures
        session_views(out@) == retired(session_views(sessions@), key@, tier),
{
    let ghost sv = session_views(sessions@);
    let mut out: Vec<Session> = Vec::new();
    let mut i: usize = 0;
    match tier {
        Tier::Rich => {
            let ghost goal = retired(sv, key@, Tier::Rich);
            while i < sessions.len()
                invariant
                    i <= sessions.len(),
                    out.len() == i,
                    sv == session_views(sessions@),
                    goal == retired(sv, key@, Tier::Rich),
                    forall|j: int| 0 <= j < i ==> (#[trigger] out@[j])@ == goal[j],
                decreases sessions.len() - i,
            {
                let s = &sessions[i];
                assert(sv[i as int] == s@);
                let next = if s.key != *key && s.shown {
                    Session { key: s.key.clone(), shown: false, fullscreen: s.fullscreen }
                } else {
                    copy_session(s)
                };
                out.push(next);
                i += 1;
            }
            assert(session_views(out@) =~= goal);
        },
        Tier::Degraded => {
            proof {
                lemma_take_ends(sv);
                lemma_filter_empty(|s: SessionView| s.key == key@ || !s.shown);
                assert(session_views(out@) =~= Seq::<SessionView>::empty());
            }
            while i < sessions.len()
                invariant
                    i <= sessions.len(),
                    sv == session_views(sessions@),
                    session_views(out@) == retired(sv.take(i as int), key@, Tier::Degraded),
                decreases sessions.len() - i,
            {
                let s = &sessions[i];
                proof {
                    broadcast use Seq::lemma_filter_push;

                    lemma_take_next(sv, i as int);
                    assert(sv[i as int] == s@);
                }
                if s.key == *key || !s.shown {
                    let ghost before = session_views(out@);
                    let c = copy_session(s);
                    out.push(c);
                    assert(session_views(out@) =~= before.push(s@));
                }
                i += 1;
            }
            proof {
                lemma_take_ends(sv);
            }
        },
    }
    out
}

/// The records with the panel under `key` on screen, added if it is new.
fn reveal_panel(sessions: Vec<Session>, key: String) -> (out: Vec<Session>)
    ensures
        session_views(out@) == revealed(session_views(sessions@), key@),
{
    let (existed, _, _) = probe(&sessions, &key);
    if existed {
        amend(&sessions, &key, Some(true), None)
    } else {
        let mut out = sessions;
        let ghost before = session_views(out@);
        out.push(Session { key, shown: true, fullscreen: false });
        assert(session_views(out@) =~= before.push(
            SessionView { key: key@, shown: true, fullscreen: false },
        ));
        out
    }
}

/// The commands that give a surface a remembered rectangle.
fn restoring_actions(label: &String, g: FocusWindowGeometry) -> (out: Vec<Action>)
    ensures
        views(out@) == restoring(label@, g),
{
    let mut out = fresh();
    push(&mut out, Action::Resize { label: label.clone(), width: g.width, height: g.height });
    push(&mut out, Action::MoveTo { label: label.clone(), x: g.x as i128, y: g.y as i128 });
    assert(views(out@) =~= restoring(label@, g));
    out
}

/// The commands that put a panel in its place.
fn placing_actions(
    label: &String,
    stored: Option<FocusWindowGeometry>,
    scene: &Scene,
    others: usize,
    anchor_left: Option<i32>,
    anchor_right: Option<i32>,
    anchor_top: Option<i32>,
) -> (out: Vec<Action>)
    ensures
        views(out@) == placing(
            label@,
            stored,
            *scene,
            others as nat,
            anchor_left,
            anchor_right,
            anchor_top,
        ),
{
    match stored {
        Some(g) => restoring_actions(label, g),
        None => {
            let at = position_focus_window(scene, others, anchor_left, anchor_right, anchor_top);
            let mut out = fresh();
            push(&mut out, Action::MoveTo { label: label.clone(), x: at.x, y: at.y });
            assert(views(out@) =~= placing(
                label@,
                stored,
                *scene,
                others as nat,
                anchor_left,
                anchor_right,
                anchor_top,
            ));
            out
        },
    }
}

fn panel_address(task_id: &str, task_name: &str) -> (url: String)
    ensures
        url@ == panel_url(task_id@, task_name@),
{
    let id = percent_encode(task_id);
    let name = percent_encode(task_name);
    String::from_str("index.html?focus=1&taskId=").concat(id.as_str()).concat("&taskName=").concat(
        name.as_str(),
    )
}

fn fullscreen_address(task_id: &str, task_name: &str) -> (url: String)
    ensures
        url@ == fullscreen_url(task_id@, task_name@),
{
    let id = percent_encode(task_id);
    let name = percent_encode(task_name);
    String::from_str("index.html?focus=1&fullscreen=1&taskId=").concat(id.as_str()).concat(
        "&taskName=",
    ).concat(name.as_str())
}

fn create_panel(label: &String, url: String) -> (a: Action)
    ensures
        a@ == creating_panel(label@, url@),
{
    Action::CreatePanel {
        label: label.clone(),
        url,
        width: PANEL_WIDTH,
        height: PANEL_HEIGHT,
        min_width: PANEL_MIN_WIDTH,
        min_height: PANEL_MIN_HEIGHT,
    }
}

impl FocusManager {
    /// The invariant: no two records share a key, and at most one panel
    /// is on screen.
    pub open spec fn wf(&self) -> bool {
        consistent(self@)
    }

    /// A manager with no session and nothing remembered.
    pub fn new(platform: Platform) -> (m: Self)
        ensures
            m.wf(),
            m@.platform == platform,
            m@.sessions.len() == 0,
            m@.last_panel is None,
            m@.pre_fullscreen is None,
            m@.handoff == Map::<Seq<char>, FocusWindowGeometry>::empty(),
            m@.returning is None,
    {
        FocusManager {
            platform,
            sessions: Vec::new(),
            last_panel: GeometryStore::new(),
            handoff: GeometryStore::new(),
            pre_fullscreen: GeometryStore::new(),
            returning: None,
        }
    }

    /// The platform the manager was made for.
    pub fn platform(&self) -> (p: Platform)
        ensures
            p == self@.platform,
    {
        self.platform
    }

    /// The tier that the platform offers.
    pub fn tier(&self) -> (t: Tier)
        ensures
            t == tier_of(self@.platform),
    {
        match self.platform {
            Platform::MacOs => Tier::Rich,
            _ => Tier::Degraded,
        }
    }

    /// Where the session of `task_id` stands.
    pub fn phase(&self, task_id: &str) -> (p: Phase)
        ensures
            p == phase_of(self@.sessions, safe_id(task_id@)),
    {
        let key = safe_task_id(task_id);
        let (_, visible, full) = probe(&self.sessions, &key);
        if full {
            Phase::FullscreenOpen
        } else if visible {
            Phase::PanelOpen
        } else {
            Phase::Closed
        }
    }

    /// The number of panels that exist, shown or hidden.
    pub fn panel_count(&self) -> (n: usize)
        ensures
            n == self@.sessions.len(),
    {
        self.sessions.len()
    }
}

} // verus!

verus! {

/// The plain values of an open request, for the functions that build its
/// answer.
struct OpenRequest<'a> {
    task_id: &'a str,
    task_name: &'a str,
    stored: Option<FocusWindowGeometry>,
    scene: Scene,
    others: usize,
    anchor_left: Option<i32>,
    anchor_right: Option<i32>,
    anchor_top: Option<i32>,
    keep: bool,
}

impl<'a> View for OpenRequest<'a> {
    type V = Opening;

    closed spec fn view(&self) -> Opening {
        Opening {
            task: self.task_id@,
            name: self.task_name@,
            stored: self.stored,
            scene: self.scene,
            others: self.others as nat,
            anchor_left: self.anchor_left,
            anchor_right: self.anchor_right,
            anchor_top: self.anchor_top,
            keep: self.keep,
        }
    }
}

impl<'a> OpenRequest<'a> {
    fn label(&self) -> (label: String)
        ensures
            label@ == self@.label(),
    {
        focus_window_label(self.task_id)
    }

    fn note(&self) -> (a: Action)
        ensures
            a@ == self@.note(),
    {
        Action::SendTask {
            label: self.label(),
            task_id: self.task_id.to_owned(),
            task_name: self.task_name.to_owned(),
            preserve_geometry: Some(self.keep),
        }
    }

    fn told(&self) -> (a: Action)
        ensures
            a@ == self@.told(),
    {
        Action::NotifyOpened { task_id: self.task_id.to_owned() }
    }

    fn placing_measured(&self) -> (out: Vec<Action>)
        ensures
            views(out@) == self@.placing_measured(),
    {
        placing_actions(
            &self.label(),
            self.stored,
            &self.scene,
            self.others,
            self.anchor_left,
            self.anchor_right,
            self.anchor_top,
        )
    }

    fn placing_fresh(&self) -> (out: Vec<Action>)
        ensures
            views(out@) == self@.placing_fresh(),
    {
        let scene = Scene {
            primary: self.scene.primary,
            panel_width: Some(PANEL_WIDTH),
            monitor: self.scene.monitor,
        };
        placing_actions(
            &self.label(),
            self.stored,
            &scene,
            self.others,
            self.anchor_left,
            self.anchor_right,
            self.anchor_top,
        )
    }

    fn later(&self) -> (a: Action)
        ensures
            a@ == self@.later(),
    {
        Action::SendTaskLater {
            label: self.label(),
            task_id: self.task_id.to_owned(),
            task_name: self.task_name.to_owned(),
            preserve_geometry: Some(self.keep),
            delay_ms: RESEND_DELAY_MS,
        }
    }

    fn raised(&self, tier: Tier) -> (out: Vec<Action>)
        ensures
            views(out@) == self@.raised(tier),
    {
        let mut out = fresh();
        push(&mut out, Action::Raise { label: self.label() });
        extend(&mut out, self.placing_measured());
        push(&mut out, self.note());
        match tier {
            Tier::Rich => {
                push(&mut out, self.told());
                push(&mut out, Action::HidePrimary);
            },
            Tier::Degraded => {
                push(&mut out, self.later());
                push(&mut out, self.told());
            },
        }
        assert(views(out@) =~= self@.raised(tier));
        out
    }

    fn created(&self, tier: Tier) -> (out: Vec<Action>)
        ensures
            views(out@) == self@.created(tier),
    {
        let mut out = fresh();
        match tier {
            Tier::Rich => {
                push(
                    &mut out,
                    create_panel(&self.label(), panel_address(self.task_id, self.task_name)),
                );
                push(&mut out, Action::Raise { label: self.label() });
                extend(&mut out, self.placing_fresh());
                push(&mut out, self.note());
                push(&mut out, self.told());
                push(&mut out, Action::HidePrimary);
            },
            Tier::Degraded => {
                push(
                    &mut out,
                    create_panel(&self.label(), String::from_str("index.html?focus=1")),
                );
                extend(&mut out, self.placing_fresh());
                push(&mut out, Action::Raise { label: self.label() });
                push(&mut out, self.note());
                push(&mut out, self.later());
                push(&mut out, self.told());
            },
        }
        assert(views(out@) =~= self@.created(tier));
        out
    }
}

/// Opens the panel of a task, or brings it back.
///
/// Every other panel on screen leaves it before this one is created or
/// raised, and the task is delivered to the panel in either case. See
/// [`open_plan`] for the commands and [`open_state`] for the state that
/// follows.
pub fn open_focus_window(
    mgr: &mut FocusManager,
    scene: &Scene,
    task_id: &str,
    task_name: &str,
    anchor_left: Option<i32>,
    anchor_right: Option<i32>,
    anchor_top: Option<i32>,
    preserve_window_geometry: Option<bool>,
) -> (actions: Vec<Action>)
    requires
        old(mgr).wf(),
    ensures
        final(mgr).wf(),
        final(mgr)@ == open_state(old(mgr)@, task_id@),
        views(actions@) == open_plan(
            old(mgr)@,
            *scene,
            task_id@,
            task_name@,
            anchor_left,
            anchor_right,
            anchor_top,
            preserve_window_geometry,
        ),
        shown(final(mgr)@.sessions, safe_id(task_id@)),
        forall|key: Seq<char>| #[trigger]
            shown(final(mgr)@.sessions, key) ==> key == safe_id(task_id@),
{
    let key = safe_task_id(task_id);
    let tier = mgr.tier();
    let (existed, _, _) = probe(&mgr.sessions, &key);
    let mut actions = retiring_actions(&mgr.sessions, &key, tier);
    let after = retire(&mgr.sessions, &key, tier);
    let request = OpenRequest {
        task_id,
        task_name,
        stored: mgr.last_panel.get("last"),
        scene: *scene,
        others: count_beside(&after, &key),
        anchor_left,
        anchor_right,
        anchor_top,
        keep: match preserve_window_geometry {
            Some(true) => true,
            _ => false,
        },
    };
    let rest = if existed {
        request.raised(tier)
    } else {
        request.created(tier)
    };
    extend(&mut actions, rest);
    mgr.sessions = reveal_panel(after, key);
    mgr.returning = None;
    proof {
        lemma_open_consistent(old(mgr)@, task_id@);
        assert forall|key: Seq<char>| #[trigger] shown(mgr@.sessions, key) implies key == safe_id(
            task_id@,
        ) by {
            let i = choose|i: int|
                0 <= i < mgr@.sessions.len() && (#[trigger] mgr@.sessions[i]).key == key
                    && mgr@.sessions[i].shown;
            assert(mgr@.sessions[i].shown);
        }
    }
    actions
}

/// The text of an optional string.
pub open spec fn text_of(text: Option<&str>) -> Option<Seq<char>> {
    match text {
        Some(t) => Some(t@),
        None => None,
    }
}

/// Closes the fullscreen surface that a leaving request is about.
fn close_fullscreen(sessions: &mut Vec<Session>, origin: &str, key: &String) -> (out: Vec<Action>)
    ensures
        session_views(final(sessions)@) == fullscreen_closed(
            session_views(old(sessions)@),
            origin@,
            key@,
        ),
        views(out@) == fullscreen_closing(session_views(old(sessions)@), origin@, key@),
{
    let mut out = fresh();
    proof {
        reveal_strlit("focusfs-");
        assert("focusfs-"@ =~= fullscreen_prefix());
    }
    if starts_with(origin, "focusfs-") {
        let k = after(origin, 8);
        push(&mut out, Action::Close { label: fullscreen_label_of(k.as_str()) });
        *sessions = amend(sessions, &k, None, Some(false));
    } else {
        let (_, _, full) = probe(sessions, key);
        if full {
            push(&mut out, Action::Close { label: fullscreen_label_of(key.as_str()) });
            *sessions = amend(sessions, key, None, Some(false));
        }
    }
    assert(views(out@) =~= fullscreen_closing(session_views(old(sessions)@), origin@, key@));
    out
}

/// Drops the panel under `key` from the screen for good.
fn put_away_panel(sessions: &mut Vec<Session>, key: &String, tier: Tier)
    ensures
        session_views(final(sessions)@) == put_away(session_views(old(sessions)@), key@, tier),
{
    match tier {
        Tier::Rich => {
            *sessions = amend(sessions, key, Some(false), None);
        },
        Tier::Degraded => {
            *sessions = drop_key(sessions, key);
        },
    }
}

fn retire_action(key: &String, tier: Tier) -> (a: Action)
    ensures
        a@ == retire_one(key@, tier),
{
    let label = panel_label_of(key.as_str());
    match tier {
        Tier::Rich => Action::Hide { label },
        Tier::Degraded => Action::Close { label },
    }
}

/// Ends the focus on a task and brings the primary window back.
///
/// The rectangle kept for the task at a handoff is dropped. See
/// [`home_plan`] for the commands and [`home_state`] for the state that
/// follows. `origin` is the label of the surface that sent the request.
pub fn exit_fullscreen_focus_to_home(
    mgr: &mut FocusManager,
    origin: &str,
    task_id: &str,
    complete_on_home: Option<bool>,
) -> (actions: Vec<Action>)
    requires
        old(mgr).wf(),
    ensures
        final(mgr).wf(),
        final(mgr)@ == home_state(old(mgr)@, origin@, task_id@),
        views(actions@) == home_plan(old(mgr)@, origin@, task_id@, complete_on_home),
        !final(mgr)@.handoff.contains_key(task_id@),
{
    let key = safe_task_id(task_id);
    let tier = mgr.tier();
    let (had, _, _) = probe(&mgr.sessions, &key);
    let mut actions = close_fullscreen(&mut mgr.sessions, origin, &key);
    if had {
        push(&mut actions, retire_action(&key, tier));
    }
    put_away_panel(&mut mgr.sessions, &key, tier);
    mgr.handoff.remove(task_id);
    let complete = match complete_on_home {
        Some(true) => true,
        _ => false,
    };
    push(
        &mut actions,
        Action::NotifyClosed {
            closed_task: Some(task_id.to_owned()),
            complete_on_home: Some(complete),
        },
    );
    push(&mut actions, Action::RestorePrimary);
    proof {
        lemma_home_consistent(old(mgr)@, origin@, task_id@);
        assert(views(actions@) =~= home_plan(old(mgr)@, origin@, task_id@, complete_on_home));
    }
    actions
}

/// The key of the session that a close request is about.
fn target_of(origin: &str, task_id: Option<&str>) -> (key: Option<String>)
    ensures
        match key {
            Some(k) => close_target(origin@, text_of(task_id)) == Some(k@),
            None => close_target(origin@, text_of(task_id)) is None,
        },
{
    proof {
        reveal_strlit("focus-");
        reveal_strlit("focusfs-");
        assert("focus-"@ =~= panel_prefix());
        assert("focusfs-"@ =~= fullscreen_prefix());
    }
    match task_id {
        Some(t) => Some(safe_task_id(t)),
        None => if starts_with(origin, "focus-") {
            Some(after(origin, 6))
        } else if starts_with(origin, "focusfs-") {
            Some(after(origin, 8))
        } else {
            None
        },
    }
}

/// Closes the focus on a task, or without a task on the focus surface,
/// panel or fullscreen, that sent the request.
///
/// A request without a task from a surface that is no focus surface
/// changes nothing and is answered with no command. See [`close_plan`] for
/// the commands and [`close_state`] for the state that follows. `measured`
/// is the rectangle of the target panel as the adapter found it.
pub fn exit_focus_mode(
    mgr: &mut FocusManager,
    origin: &str,
    task_id: Option<&str>,
    measured: Option<FocusWindowGeometry>,
) -> (actions: Vec<Action>)
    requires
        old(mgr).wf(),
    ensures
        final(mgr).wf(),
        final(mgr)@ == close_state(old(mgr)@, origin@, text_of(task_id), measured),
        views(actions@) == close_plan(old(mgr)@, origin@, text_of(task_id)),
        task_id is None && !is_panel_label(origin@) && !is_fullscreen_label(origin@)
            ==> actions@.len() == 0 && final(mgr)@ == old(mgr)@,
        task_id is None && is_fullscreen_label(origin@) ==> actions@.len() > 0 && views(
            actions@,
        )[0] == (ActionView::Close { label: origin@ }),
        task_id matches Some(t) ==> !final(mgr)@.handoff.contains_key(t@),
{
    proof {
        lemma_close_consistent(old(mgr)@, origin@, text_of(task_id), measured);
    }
    match task_id {
        Some(t) => {
            mgr.handoff.remove(t);
        },
        None => {},
    }
    let key = match target_of(origin, task_id) {
        Some(key) => key,
        None => {
            return fresh();
        },
    };
    let tier = mgr.tier();
    let (had, _, _) = probe(&mgr.sessions, &key);
    let mut actions = close_fullscreen(&mut mgr.sessions, origin, &key);
    if had {
        push(&mut actions, retire_action(&key, tier));
        match (tier, measured) {
            (Tier::Rich, Some(g)) => {
                mgr.last_panel.put("last", g);
            },
            _ => {},
        }
    }
    put_away_panel(&mut mgr.sessions, &key, tier);
    let closed_task = match task_id {
        Some(t) => Some(t.to_owned()),
        None => None,
    };
    push(&mut actions, Action::NotifyClosed { closed_task, complete_on_home: None });
    push(&mut actions, Action::RestorePrimary);
    assert(views(actions@) =~= close_plan(old(mgr)@, origin@, text_of(task_id)));
    proof {
        if task_id is None && is_fullscreen_label(origin@) {
            crate::uniqueness::lemma_kinds_apart(key_of_panel(origin@), key_of_fullscreen(origin@));
            assert(!is_panel_label(origin@)) by {
                if is_panel_label(origin@) {
                    assert(origin@ =~= panel_prefix() + key_of_panel(origin@));
                    assert(origin@ =~= fullscreen_prefix() + key_of_fullscreen(origin@));
                }
            }
            assert(origin@ =~= fullscreen_prefix() + key_of_fullscreen(origin@));
        }
    }
    actions
}

/// Hands a task over from its panel to a fullscreen surface.
///
/// Served on the rich tier for a task whose panel is on screen; any other
/// request changes nothing and is answered with no command. See
/// [`enter_handoff_plan`] for the commands and [`enter_handoff_state`] for
/// the state that follows. `measured` is the rectangle of the panel as the
/// adapter found it.
pub fn enter_fullscreen_focus_handoff(
    mgr: &mut FocusManager,
    task_id: &str,
    task_name: &str,
    measured: Option<FocusWindowGeometry>,
) -> (actions: Vec<Action>)
    requires
        old(mgr).wf(),
    ensures
        final(mgr).wf(),
        final(mgr)@ == enter_handoff_state(old(mgr)@, task_id@, measured),
        views(actions@) == enter_handoff_plan(old(mgr)@, task_id@, task_name@),
{
    proof {
        lemma_enter_handoff_consistent(old(mgr)@, task_id@, measured);
    }
    let key = safe_task_id(task_id);
    let (_, visible, full) = probe(&mgr.sessions, &key);
    let mut actions = fresh();
    match mgr.tier() {
        Tier::Rich => {},
        Tier::Degraded => {
            return actions;
        },
    }
    if !visible {
        return actions;
    }
    match measured {
        Some(g) => {
            mgr.handoff.put(task_id, g);
        },
        None => {},
    }
    let label = fullscreen_label_of(key.as_str());
    let note = Action::SendTask {
        label: label.clone(),
        task_id: task_id.to_owned(),
        task_name: task_name.to_owned(),
        preserve_geometry: None,
    };
    if full {
        push(&mut actions, Action::RaiseFullscreen { label: label.clone() });
        push(&mut actions, note);
    } else {
        push(
            &mut actions,
            Action::CreateFullscreen {
                label: label.clone(),
                url: fullscreen_address(task_id, task_name),
            },
        );
        push(&mut actions, note);
        push(&mut actions, Action::Focus { label: label.clone() });
    }
    push(&mut actions, Action::Hide { label: panel_label_of(key.as_str()) });
    mgr.sessions = amend(&mgr.sessions, &key, Some(false), Some(true));
    mgr.returning = None;
    assert(views(actions@) =~= enter_handoff_plan(old(mgr)@, task_id@, task_name@));
    actions
}

/// The key of the fullscreen surface that a leaving request closes.
fn leaving_key(sessions: &Vec<Session>, origin: &str, key: &String) -> (gone: Option<String>)
    ensures
        match gone {
            Some(k) => leaving_fullscreen(session_views(sessions@), origin@, key@) == Some(k@),
            None => leaving_fullscreen(session_views(sessions@), origin@, key@) is None,
        },
{
    proof {
        reveal_strlit("focusfs-");
        assert("focusfs-"@ =~= fullscreen_prefix());
    }
    if starts_with(origin, "focusfs-") {
        Some(after(origin, 8))
    } else {
        let (_, _, full) = probe(sessions, key);
        if full {
            Some(key.clone())
        } else {
            None
        }
    }
}

/// Hands a task back from its fullscreen surface to its panel.
///
/// The panel is opened with its geometry preserved and then given the
/// rectangle that was kept at the handoff, which is used up; the
/// fullscreen surface is closed. Where the panel has to be created, what
/// was used up is kept in mind, and given back by [`creation_failed`] if
/// the creation fails. The degraded tier has no handoff: there the request
/// changes nothing. See [`exit_handoff_plan`] and [`exit_handoff_state`].
pub fn exit_fullscreen_focus_handoff(
    mgr: &mut FocusManager,
    origin: &str,
    scene: &Scene,
    task_id: &str,
    task_name: &str,
) -> (actions: Vec<Action>)
    requires
        old(mgr).wf(),
    ensures
        final(mgr).wf(),
        final(mgr)@ == exit_handoff_state(old(mgr)@, origin@, task_id@),
        views(actions@) == exit_handoff_plan(old(mgr)@, origin@, *scene, task_id@, task_name@),
{
    proof {
        lemma_exit_handoff_consistent(old(mgr)@, origin@, task_id@);
    }
    match mgr.tier() {
        Tier::Rich => {},
        Tier::Degraded => {
            return fresh();
        },
    }
    let key = safe_task_id(task_id);
    let (held, _, _) = probe(&mgr.sessions, &key);
    let mut actions = open_focus_window(
        mgr,
        scene,
        task_id,
        task_name,
        None,
        None,
        None,
        Some(true),
    );
    let rectangle = mgr.handoff.remove(task_id);
    match rectangle {
        Some(g) => {
            let label = focus_window_label(task_id);
            extend(&mut actions, restoring_actions(&label, g));
        },
        None => {},
    }
    let fullscreen = match leaving_key(&mgr.sessions, origin, &key) {
        Some(k) => {
            let (_, _, full) = probe(&mgr.sessions, &k);
            if full {
                Some(k)
            } else {
                None
            }
        },
        None => None,
    };
    let closing = close_fullscreen(&mut mgr.sessions, origin, &key);
    extend(&mut actions, closing);
    mgr.returning = if held {
        None
    } else {
        Some(Pending { task: task_id.to_owned(), rectangle, fullscreen })
    };
    assert(views(actions@) =~= exit_handoff_plan(
        old(mgr)@,
        origin@,
        *scene,
        task_id@,
        task_name@,
    ));
    actions
}

/// What a failed creation gives back, if it is that of the panel of the
/// handoff back that the manager keeps in mind.
fn given_back(returning: &Option<Pending>, label: &str) -> (back: Option<Pending>)
    ensures
        match back {
            Some(p) => returning matches Some(r) && r@ == p@ && label@ == panel_prefix() + safe_id(
                p@.task,
            ),
            None => !(returning matches Some(r) && label@ == panel_prefix() + safe_id(r@.task)),
        },
{
    match returning {
        Some(p) => {
            let own = focus_window_label(p.task.as_str());
            if own == label.to_owned() {
                Some(
                    Pending {
                        task: p.task.clone(),
                        rectangle: p.rectangle,
                        fullscreen: match &p.fullscreen {
                            Some(k) => Some(k.clone()),
                            None => None,
                        },
                    },
                )
            } else {
                None
            }
        },
        None => None,
    }
}

/// Tells the manager that the adapter could not create the surface
/// `label`, and so dropped the rest of the commands it was given. See
/// [`failure_state`].
pub fn creation_failed(mgr: &mut FocusManager, label: &str)
    requires
        old(mgr).wf(),
    ensures
        final(mgr).wf(),
        final(mgr)@ == failure_state(old(mgr)@, label@),
{
    proof {
        lemma_failure_consistent(old(mgr)@, label@);
        reveal_strlit("focus-");
        reveal_strlit("focusfs-");
        assert("focus-"@ =~= panel_prefix());
        assert("focusfs-"@ =~= fullscreen_prefix());
    }
    let back = given_back(&mgr.returning, label);
    mgr.returning = None;
    if starts_with(label, "focus-") {
        let key = after(label, 6);
        mgr.sessions = drop_key(&mgr.sessions, &key);
        match &back {
            Some(p) => match &p.fullscreen {
                Some(k) => {
                    mgr.sessions = amend(&mgr.sessions, k, None, Some(true));
                },
                None => {},
            },
            None => {},
        }
    } else if starts_with(label, "focusfs-") {
        let key = after(label, 8);
        let (_, _, full) = probe(&mgr.sessions, &key);
        if full {
            let show = if probe_shown(&mgr.sessions) {
                None
            } else {
                Some(true)
            };
            mgr.sessions = amend(&mgr.sessions, &key, show, Some(false));
        }
    }
    match back {
        Some(p) => match p.rectangle {
            Some(g) => {
                mgr.handoff.put(p.task.as_str(), g);
            },
            None => {},
        },
        None => {},
    }
    proof {
        if failed_on_return(old(mgr)@, label@) {
            assert(panel_prefix() =~= label@.subrange(0, 6));
        }
    }
}

/// Whether the request comes from a panel that is on screen.
fn from_open_panel(mgr: &FocusManager, origin: &str) -> (yes: bool)
    ensures
        yes == panel_open(mgr@, origin@),
{
    proof {
        reveal_strlit("focus-");
        assert("focus-"@ =~= panel_prefix());
    }
    if starts_with(origin, "focus-") {
        let key = after(origin, 6);
        let (_, visible, _) = probe(&mgr.sessions, &key);
        visible
    } else {
        false
    }
}

/// Gives the panel that sent the request a new width, at the platform's
/// bar height. A request from anything but a panel on screen is answered
/// with no command. See [`width_plan`].
pub fn set_focus_window_size(mgr: &FocusManager, origin: &str, width: u32) -> (actions: Vec<
    Action,
>)
    ensures
        views(actions@) == width_plan(mgr@, origin@, width),
{
    let mut actions = fresh();
    if from_open_panel(mgr, origin) {
        let height: u32 = match mgr.platform {
            Platform::Windows => 56,
            _ => 48,
        };
        match mgr.tier() {
            Tier::Degraded => push(
                &mut actions,
                Action::LeaveNativeFullscreen { label: origin.to_owned() },
            ),
            Tier::Rich => {},
        }
        push(&mut actions, Action::Resize { label: origin.to_owned(), width, height });
    }
    assert(views(actions@) =~= width_plan(mgr@, origin@, width));
    actions
}

/// Gives the panel that sent the request a new height at the width it
/// has. `current_width` is that width as the adapter found it; without it,
/// or from anything but a panel on screen, the request is answered with
/// no command. See [`height_plan`].
pub fn set_focus_window_height(
    mgr: &FocusManager,
    origin: &str,
    height: u32,
    current_width: Option<u32>,
) -> (actions: Vec<Action>)
    ensures
        views(actions@) == height_plan(mgr@, origin@, height, current_width),
{
    let mut actions = fresh();
    match current_width {
        Some(width) => {
            if from_open_panel(mgr, origin) {
                push(&mut actions, Action::Resize { label: origin.to_owned(), width, height });
            }
        },
        None => {},
    }
    assert(views(actions@) =~= height_plan(mgr@, origin@, height, current_width));
    actions
}

/// Makes the panel that sent the request cover its monitor, without
/// native fullscreen.
///
/// `measured` is the panel's rectangle and `monitor` that of the monitor
/// hosting it, as the adapter found them. The degraded tier keeps `measured`
/// for the way back. See [`cover_plan`] and [`cover_state`].
pub fn enter_fullscreen_focus(
    mgr: &mut FocusManager,
    origin: &str,
    measured: Option<FocusWindowGeometry>,
    monitor: Option<FocusWindowGeometry>,
) -> (actions: Vec<Action>)
    requires
        old(mgr).wf(),
    ensures
        final(mgr).wf(),
        final(mgr)@ == cover_state(old(mgr)@, origin@, measured),
        views(actions@) == cover_plan(old(mgr)@, origin@, monitor),
{
    let mut actions = fresh();
    if from_open_panel(mgr, origin) {
        let tier = mgr.tier();
        match (tier, measured) {
            (Tier::Degraded, Some(g)) => {
                mgr.pre_fullscreen.put("last", g);
            },
            _ => {},
        }
        push(&mut actions, Action::PrepareCover { label: origin.to_owned() });
        match monitor {
            Some(r) => {
                push(
                    &mut actions,
                    Action::MoveTo { label: origin.to_owned(), x: r.x as i128, y: r.y as i128 },
                );
                push(
                    &mut actions,
                    Action::Resize { label: origin.to_owned(), width: r.width, height: r.height },
                );
            },
            None => {
                let (width, height): (u32, u32) = match tier {
                    Tier::Rich => (1440, 900),
                    Tier::Degraded => (1920, 1080),
                };
                push(&mut actions, Action::MoveTo { label: origin.to_owned(), x: 0, y: 0 });
                push(&mut actions, Action::Resize { label: origin.to_owned(), width, height });
            },
        }
    }
    assert(views(actions@) =~= cover_plan(old(mgr)@, origin@, monitor));
    actions
}

/// Takes the panel that sent the request back to the rectangle it had
/// before it covered the screen, and forgets that rectangle. Served on
/// the degraded tier; the rich tier goes back by a handoff. See
/// [`uncover_plan`] and [`uncover_state`].
pub fn exit_fullscreen_focus(mgr: &mut FocusManager, origin: &str) -> (actions: Vec<Action>)
    requires
        old(mgr).wf(),
    ensures
        final(mgr).wf(),
        final(mgr)@ == uncover_state(old(mgr)@, origin@),
        views(actions@) == uncover_plan(old(mgr)@, origin@),
{
    match mgr.tier() {
        Tier::Rich => {
            return fresh();
        },
        Tier::Degraded => {},
    }
    if !from_open_panel(mgr, origin) {
        return fresh();
    }
    match mgr.pre_fullscreen.remove("last") {
        Some(g) => restoring_actions(&origin.to_owned(), g),
        None => fresh(),
    }
}

/// Remembers the rectangle of a panel for the next one, where the adapter
/// could measure it.
pub fn save_focus_window_geometry(mgr: &mut FocusManager, measured: Option<FocusWindowGeometry>)
    ensures
        final(mgr)@ == (ManagerView {
            last_panel: if measured is Some {
                measured
            } else {
                old(mgr)@.last_panel
            },
            ..old(mgr)@
        }),
{
    match measured {
        Some(g) => {
            mgr.last_panel.put("last", g);
        },
        None => {},
    }
}

/// The commands that give the surface `label` the rectangle remembered
/// from the last panel; none if nothing is remembered.
pub fn apply_last_focus_window_geometry(mgr: &FocusManager, label: &str) -> (actions: Vec<Action>)
    ensures
        views(actions@) == match mgr@.last_panel {
            Some(g) => restoring(label@, g),
            None => Seq::<ActionView>::empty(),
        },
{
    match mgr.last_panel.get("last") {
        Some(g) => restoring_actions(&label.to_owned(), g),
        None => fresh(),
    }
}

impl FocusManager {
    /// The rectangle kept for a task at its handoff to fullscreen.
    pub fn fullscreen_handoff_geometry(&self, task_id: &str) -> (g: Option<FocusWindowGeometry>)
        ensures
            g == lookup(self@.handoff, task_id@),
    {
        self.handoff.get(task_id)
    }

    /// The rectangle remembered from the last panel that was closed.
    pub fn last_focus_panel_geometry(&self) -> (g: Option<FocusWindowGeometry>)
        ensures
            g == self@.last_panel,
    {
        self.last_panel.get("last")
    }

    /// The rectangle kept from before a panel covered the screen.
    pub fn pre_fullscreen_geometry(&self) -> (g: Option<FocusWindowGeometry>)
        ensures
            g == self@.pre_fullscreen,
    {
        self.pre_fullscreen.get("last")
    }
}

} // verus!
