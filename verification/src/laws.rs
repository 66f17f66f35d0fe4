//! Laws that relate the requests to one another and to the desktop.

use crate::action::ActionView;
use crate::desktop::{
    aims_only_at, lemma_aimed_elsewhere, lemma_prefix_aims, lemma_prefix_retires,
    lemma_retired_is_off, lemma_retiring_shows_nothing, lemma_run_concat, lemma_run_elsewhere,
    lemma_run_stays_visible, on_screen, only_retires, run, target, Desktop, SurfaceView,
};
use crate::geometry::{lookup, FocusWindowGeometry};
use crate::label::{fullscreen_prefix, panel_label, panel_prefix, safe_id};
use crate::model::{
    beside, close_plan, close_state, close_target, consistent, cover_state, enter_handoff_plan,
    enter_handoff_state, exit_handoff_plan, exit_handoff_state, fullscreen_closed,
    fullscreen_closing, handoff_ready, height_plan, holds, home_state, in_fullscreen,
    is_fullscreen_label, is_panel_label, key_of_fullscreen, key_of_panel, leaving_fullscreen,
    open_plan, open_state, phase_of, put_away, restoring, retire_one, retired, retiring, shown,
    tier_of, uncover_state, width_plan, ManagerView, Opening, Phase, SessionView, Tier,
};
use crate::placement::Scene;
use crate::uniqueness::{lemma_keys_apart, lemma_kinds_apart};
use crate::upkeep::{
    lemma_amended_reads, lemma_filter_part, lemma_fullscreen_is_older, lemma_open_consistent,
    lemma_without_reads,
};
use vstd::prelude::*;

verus! {

/// Asking twice in a row for the same width leaves every surface as
/// asking once does.
pub proof fn lemma_width_twice(m: ManagerView, origin: Seq<char>, width: u32, d: Desktop)
    ensures
        run(run(d, width_plan(m, origin, width)), width_plan(m, origin, width)) == run(
            d,
            width_plan(m, origin, width),
        ),
{
    reveal_with_fuel(run, 3);
    let plan = width_plan(m, origin, width);
    assert(run(run(d, plan), plan) =~= run(d, plan));
}

/// Asking twice in a row for the same height leaves every surface as
/// asking once does.
pub proof fn lemma_height_twice(
    m: ManagerView,
    origin: Seq<char>,
    height: u32,
    current_width: Option<u32>,
    d: Desktop,
)
    ensures
        run(
            run(d, height_plan(m, origin, height, current_width)),
            height_plan(m, origin, height, current_width),
        ) == run(d, height_plan(m, origin, height, current_width)),
{
    reveal_with_fuel(run, 3);
    let plan = height_plan(m, origin, height, current_width);
    assert(run(run(d, plan), plan) =~= run(d, plan));
}

/// A request to go home leaves no rectangle kept for the task.
pub proof fn lemma_home_forgets(m: ManagerView, origin: Seq<char>, task: Seq<char>)
    ensures
        lookup(home_state(m, origin, task).handoff, task) is None,
{
}

/// A close request without a task, from a surface that is no focus
/// surface, is answered with no command and changes nothing.
pub proof fn lemma_close_elsewhere(
    m: ManagerView,
    origin: Seq<char>,
    measured: Option<FocusWindowGeometry>,
)
    requires
        !is_panel_label(origin),
        !is_fullscreen_label(origin),
    ensures
        close_plan(m, origin, None) == Seq::<ActionView>::empty(),
        close_state(m, origin, None, measured) == m,
{
}

/// A close request without a task from a fullscreen surface closes that
/// surface first.
pub proof fn lemma_close_from_fullscreen(m: ManagerView, origin: Seq<char>)
    requires
        is_fullscreen_label(origin),
    ensures
        close_plan(m, origin, None).len() > 0,
        close_plan(m, origin, None)[0] == (ActionView::Close { label: origin }),
{
    let key = key_of_fullscreen(origin);
    assert(origin =~= fullscreen_prefix() + key);
    if is_panel_label(origin) {
        assert(origin =~= panel_prefix() + key_of_panel(origin));
        lemma_kinds_apart(key_of_panel(origin), key);
    }
}

/// `a` takes a panel other than the one under `label` off the screen.
pub open spec fn retires_other(a: ActionView, label: Seq<char>) -> bool {
    match a {
        ActionView::Hide { label: l } => is_panel_label(l) && l != label,
        ActionView::Close { label: l } => is_panel_label(l) && l != label,
        _ => false,
    }
}

/// `a` puts the surface under `label` on the screen.
pub open spec fn brings(a: ActionView, label: Seq<char>) -> bool {
    match a {
        ActionView::CreatePanel { label: l, .. } => l == label,
        ActionView::Raise { label: l } => l == label,
        _ => false,
    }
}

proof fn lemma_opening_brings_only(o: Opening, tier: Tier, i: int)
    ensures
        0 <= i < o.raised(tier).len() ==> !retires_other(o.raised(tier)[i], o.label()),
        0 <= i < o.created(tier).len() ==> !retires_other(o.created(tier)[i], o.label()),
{
}

/// In the answer to an open request, every command that takes another
/// panel off the screen stands before every command that puts the task's
/// panel on it.
pub proof fn lemma_retire_before_show(
    m: ManagerView,
    scene: Scene,
    task: Seq<char>,
    name: Seq<char>,
    anchor_left: Option<i32>,
    anchor_right: Option<i32>,
    anchor_top: Option<i32>,
    preserve: Option<bool>,
    i: int,
    j: int,
)
    requires
        0 <= i < open_plan(
            m,
            scene,
            task,
            name,
            anchor_left,
            anchor_right,
            anchor_top,
            preserve,
        ).len(),
        0 <= j < open_plan(
            m,
            scene,
            task,
            name,
            anchor_left,
            anchor_right,
            anchor_top,
            preserve,
        ).len(),
        retires_other(
            open_plan(m, scene, task, name, anchor_left, anchor_right, anchor_top, preserve)[i],
            panel_label(task),
        ),
        brings(
            open_plan(m, scene, task, name, anchor_left, anchor_right, anchor_top, preserve)[j],
            panel_label(task),
        ),
    ensures
        i < j,
{
    let key = safe_id(task);
    let tier = tier_of(m.platform);
    let plan = open_plan(m, scene, task, name, anchor_left, anchor_right, anchor_top, preserve);
    let first = retiring(m.sessions, key, tier);
    let o = Opening {
        task,
        name,
        stored: m.last_panel,
        scene,
        others: beside(retired(m.sessions, key, tier), key),
        anchor_left,
        anchor_right,
        anchor_top,
        keep: preserve == Some(true),
    };
    if j < first.len() {
        assert(plan[j] == first[j]);
        assert(!brings(first[j], panel_label(task)));
    }
    if i >= first.len() {
        lemma_opening_brings_only(o, tier, i - first.len());
    }
}

/// The answer to an open request takes every other panel that is on
/// screen off it.
pub proof fn lemma_others_retired(
    m: ManagerView,
    scene: Scene,
    task: Seq<char>,
    name: Seq<char>,
    anchor_left: Option<i32>,
    anchor_right: Option<i32>,
    anchor_top: Option<i32>,
    preserve: Option<bool>,
    other: Seq<char>,
)
    requires
        other != safe_id(task),
        shown(m.sessions, other),
    ensures
        exists|i: int|
            0 <= i < open_plan(
                m,
                scene,
                task,
                name,
                anchor_left,
                anchor_right,
                anchor_top,
                preserve,
            ).len() && #[trigger] open_plan(
                m,
                scene,
                task,
                name,
                anchor_left,
                anchor_right,
                anchor_top,
                preserve,
            )[i] == retire_one(other, tier_of(m.platform)),
{
    let key = safe_id(task);
    let tier = tier_of(m.platform);
    let plan = open_plan(m, scene, task, name, anchor_left, anchor_right, anchor_top, preserve);
    let pred = |s: SessionView| s.key != key && s.shown;
    let kept = m.sessions.filter(pred);
    let n = choose|n: int|
        0 <= n < m.sessions.len() && (#[trigger] m.sessions[n]).key == other && m.sessions[n].shown;
    m.sessions.lemma_filter_contains(pred, n);
    let k = choose|k: int| 0 <= k < kept.len() && kept[k] == m.sessions[n];
    assert(retiring(m.sessions, key, tier)[k] == retire_one(other, tier));
    assert(plan[k] == retire_one(other, tier));
}

/// A round trip through fullscreen brings the panel back to the rectangle
/// it had at the handoff.
///
/// From a state in which the task's panel is on screen, as an open
/// request leaves it, a handoff to fullscreen that measured the rectangle
/// `g` and a handoff back leave the panel visible at exactly `g`, and no
/// rectangle kept for the task.
pub proof fn lemma_handoff_round_trip(
    m: ManagerView,
    d: Desktop,
    task: Seq<char>,
    name: Seq<char>,
    g: FocusWindowGeometry,
    origin: Seq<char>,
    scene: Scene,
)
    requires
        consistent(m),
        tier_of(m.platform) is Rich,
        shown(m.sessions, safe_id(task)),
        d.contains_key(panel_label(task)),
    ensures
        ({
            let there = enter_handoff_state(m, task, Some(g));
            let back = exit_handoff_state(there, origin, task);
            let after = run(
                run(d, enter_handoff_plan(m, task, name)),
                exit_handoff_plan(there, origin, scene, task, name),
            );
            &&& after.contains_key(panel_label(task))
            &&& after[panel_label(task)] == SurfaceView {
                visible: true,
                corner: Some((g.x as int, g.y as int)),
                size: Some((g.width as int, g.height as int)),
            }
            &&& shown(back.sessions, safe_id(task))
            &&& lookup(back.handoff, task) is None
        }),
{
    let key = safe_id(task);
    let label = panel_label(task);
    let there = enter_handoff_state(m, task, Some(g));
    let back = exit_handoff_state(there, origin, task);
    let d1 = run(d, enter_handoff_plan(m, task, name));
    // The handoff hides the panel and keeps it.
    assert(d1.contains_key(label)) by {
        reveal_with_fuel(run, 5);
        lemma_kinds_apart(key, key);
    }
    let at = choose|i: int|
        0 <= i < m.sessions.len() && (#[trigger] m.sessions[i]).key == key && m.sessions[i].shown;
    assert(there.sessions[at].key == key);
    assert(holds(there.sessions, key));
    assert(lookup(there.handoff, task) == Some(g));
    crate::upkeep::lemma_enter_handoff_consistent(m, task, Some(g));
    lemma_open_consistent(there, task);
    // The way back, piece by piece.
    let o = Opening {
        task,
        name,
        stored: there.last_panel,
        scene,
        others: beside(retired(there.sessions, key, Tier::Rich), key),
        anchor_left: None,
        anchor_right: None,
        anchor_top: None,
        keep: true,
    };
    let first = retiring(there.sessions, key, Tier::Rich);
    let raise = seq![ActionView::Raise { label }];
    let rest = o.placing_measured() + seq![o.note(), o.told(), ActionView::HidePrimary];
    let restore = restoring(label, g);
    let closing = fullscreen_closing(open_state(there, task).sessions, origin, key);
    let plan = exit_handoff_plan(there, origin, scene, task, name);
    assert(o.raised(Tier::Rich) =~= raise + rest);
    assert(plan =~= first + raise + rest + restore + closing);
    let d2 = run(d1, first);
    let d3 = run(d2, raise);
    let d4 = run(d3, rest);
    let d5 = run(d4, restore);
    let d6 = run(d5, closing);
    assert(run(d1, plan) == d6) by {
        lemma_run_concat(d1, first + raise + rest + restore, closing);
        lemma_run_concat(d1, first + raise + rest, restore);
        lemma_run_concat(d1, first + raise, rest);
        lemma_run_concat(d1, first, raise);
    }
    assert(d2.contains_key(label)) by {
        let pred = |s: SessionView| s.key != key && s.shown;
        crate::upkeep::lemma_filter_part(there.sessions, pred);
        assert forall|i: int| 0 <= i < first.len() implies target(#[trigger] first[i]) != Some(
            label,
        ) by {
            let other = there.sessions.filter(pred)[i];
            assert(pred(other));
            lemma_keys_apart(other.key, key);
        }
        lemma_run_elsewhere(d1, first, label);
    }
    assert(d3.contains_key(label) && d3[label].visible) by {
        reveal_with_fuel(run, 2);
    }
    assert(d4.contains_key(label) && d4[label].visible) by {
        assert forall|i: int| 0 <= i < rest.len() implies #[trigger] rest[i] != (ActionView::Hide {
            label,
        }) && rest[i] != (ActionView::Close { label }) by {}
        lemma_run_stays_visible(d3, rest, label);
    }
    assert(d5.contains_key(label) && d5[label] == SurfaceView {
        visible: true,
        corner: Some((g.x as int, g.y as int)),
        size: Some((g.width as int, g.height as int)),
    }) by {
        reveal_with_fuel(run, 3);
    }
    assert(d6.contains_key(label) && d6[label] == d5[label]) by {
        assert forall|i: int| 0 <= i < closing.len() implies target(#[trigger] closing[i])
            != Some(label) by {
            let k = choose|k: Seq<char>| closing[i] == (ActionView::Close {
                label: fullscreen_prefix() + k,
            });
            lemma_kinds_apart(key, k);
        }
        lemma_run_elsewhere(d5, closing, label);
    }
    // The state that follows.
    let opened = open_state(there, task).sessions;
    let shown_at = choose|i: int|
        0 <= i < opened.len() && (#[trigger] opened[i]).key == key && opened[i].shown;
    assert(back.sessions[shown_at].key == key && back.sessions[shown_at].shown);
}

/// The manager knows of every panel on screen: each has a record that
/// says so.
pub open spec fn knows_screen(m: ManagerView, d: Desktop) -> bool {
    forall|label: Seq<char>| #[trigger]
        on_screen(d, label) && is_panel_label(label) ==> shown(m.sessions, key_of_panel(label))
}

/// At most one panel is on screen.
pub open spec fn one_panel_on_screen(d: Desktop) -> bool {
    forall|a: Seq<char>, b: Seq<char>|
        #![trigger on_screen(d, a), on_screen(d, b)]
        on_screen(d, a) && on_screen(d, b) && is_panel_label(a) && is_panel_label(b) ==> a == b
}

proof fn lemma_panel_label_parts(label: Seq<char>)
    requires
        is_panel_label(label),
    ensures
        label == panel_prefix() + key_of_panel(label),
{
    assert(label =~= panel_prefix() + key_of_panel(label));
}

/// A desktop of which a consistent manager knows every panel on screen
/// has at most one panel on screen.
pub proof fn lemma_known_screen_has_one(m: ManagerView, d: Desktop)
    requires
        consistent(m),
        knows_screen(m, d),
    ensures
        one_panel_on_screen(d),
{
    assert forall|a: Seq<char>, b: Seq<char>|
        #![trigger on_screen(d, a), on_screen(d, b)]
        on_screen(d, a) && on_screen(d, b) && is_panel_label(a) && is_panel_label(b) implies a
        == b by {
        let s = m.sessions;
        let i = choose|i: int|
            0 <= i < s.len() && (#[trigger] s[i]).key == key_of_panel(a) && s[i].shown;
        let j = choose|j: int|
            0 <= j < s.len() && (#[trigger] s[j]).key == key_of_panel(b) && s[j].shown;
        assert(s[i].shown && s[j].shown);
        lemma_panel_label_parts(a);
        lemma_panel_label_parts(b);
    }
}

proof fn lemma_opening_aims(o: Opening, tier: Tier, i: int)
    ensures
        0 <= i < o.raised(tier).len() ==> target(o.raised(tier)[i]) is None || target(
            o.raised(tier)[i],
        ) == Some(o.label()),
        0 <= i < o.created(tier).len() ==> target(o.created(tier)[i]) is None || target(
            o.created(tier)[i],
        ) == Some(o.label()),
{
}

/// While the answer to an open request is carried out, there are never
/// two panels on screen: after any number of its commands, at most one
/// panel is.
pub proof fn lemma_never_two_panels(
    m: ManagerView,
    d: Desktop,
    scene: Scene,
    task: Seq<char>,
    name: Seq<char>,
    anchor_left: Option<i32>,
    anchor_right: Option<i32>,
    anchor_top: Option<i32>,
    preserve: Option<bool>,
    done: int,
)
    requires
        consistent(m),
        knows_screen(m, d),
        0 <= done <= open_plan(
            m,
            scene,
            task,
            name,
            anchor_left,
            anchor_right,
            anchor_top,
            preserve,
        ).len(),
    ensures
        one_panel_on_screen(
            run(
                d,
                open_plan(
                    m,
                    scene,
                    task,
                    name,
                    anchor_left,
                    anchor_right,
                    anchor_top,
                    preserve,
                ).take(done),
            ),
        ),
{
    let key = safe_id(task);
    let label = panel_prefix() + key;
    let tier = tier_of(m.platform);
    let plan = open_plan(m, scene, task, name, anchor_left, anchor_right, anchor_top, preserve);
    let first = retiring(m.sessions, key, tier);
    let o = Opening {
        task,
        name,
        stored: m.last_panel,
        scene,
        others: beside(retired(m.sessions, key, tier), key),
        anchor_left,
        anchor_right,
        anchor_top,
        keep: preserve == Some(true),
    };
    let second = if holds(m.sessions, key) {
        o.raised(tier)
    } else {
        o.created(tier)
    };
    assert(plan == first + second);
    let pred = |s: SessionView| s.key != key && s.shown;
    let kept = m.sessions.filter(pred);
    assert(only_retires(first)) by {
        assert forall|i: int| 0 <= i < first.len() implies (#[trigger] first[i]) is Hide
            || first[i] is Close by {
            assert(first[i] == retire_one(kept[i].key, tier));
        }
    }
    lemma_known_screen_has_one(m, d);
    let after = run(d, plan.take(done));
    if done <= first.len() {
        assert(plan.take(done) =~= first.take(done));
        lemma_prefix_retires(first, done);
        assert forall|a: Seq<char>, b: Seq<char>|
            #![trigger on_screen(after, a), on_screen(after, b)]
            on_screen(after, a) && on_screen(after, b) && is_panel_label(a) && is_panel_label(
                b,
            ) implies a == b by {
            lemma_retiring_shows_nothing(d, first.take(done), a);
            lemma_retiring_shows_nothing(d, first.take(done), b);
            assert(on_screen(d, a) && on_screen(d, b));
        }
    } else {
        let rest = second.take(done - first.len());
        assert(plan.take(done) =~= first + rest);
        lemma_run_concat(d, first, rest);
        let cleared = run(d, first);
        assert(aims_only_at(second, label)) by {
            assert forall|i: int| 0 <= i < second.len() implies target(#[trigger] second[i])
                is None || target(second[i]) == Some(label) by {
                lemma_opening_aims(o, tier, i);
            }
        }
        lemma_prefix_aims(second, label, done - first.len());
        assert forall|a: Seq<char>| #[trigger]
            on_screen(after, a) && is_panel_label(a) implies a == label by {
            if a != label {
                lemma_aimed_elsewhere(cleared, rest, label, a);
                assert(on_screen(cleared, a));
                lemma_retiring_shows_nothing(d, first, a);
                assert(on_screen(d, a));
                lemma_panel_label_parts(a);
                let other = key_of_panel(a);
                let n = choose|n: int|
                    0 <= n < m.sessions.len() && (#[trigger] m.sessions[n]).key == other
                        && m.sessions[n].shown;
                assert(pred(m.sessions[n]));
                m.sessions.lemma_filter_contains(pred, n);
                let k = choose|k: int| 0 <= k < kept.len() && kept[k] == m.sessions[n];
                assert(first[k] == retire_one(other, tier));
                assert(target(first[k]) == Some(a));
                lemma_retired_is_off(d, first, a, k);
            }
        }
        assert forall|a: Seq<char>, b: Seq<char>|
            #![trigger on_screen(after, a), on_screen(after, b)]
            on_screen(after, a) && on_screen(after, b) && is_panel_label(a) && is_panel_label(
                b,
            ) implies a == b by {
            assert(a == label);
            assert(b == label);
        }
    }
}

/// After an open request the task's session is open: in its panel,
/// unless its fullscreen surface was up and still is.
pub proof fn lemma_open_phase(m: ManagerView, task: Seq<char>)
    requires
        consistent(m),
    ensures
        phase_of(open_state(m, task).sessions, safe_id(task)) != Phase::Closed,
        !in_fullscreen(m.sessions, safe_id(task)) ==> phase_of(
            open_state(m, task).sessions,
            safe_id(task),
        ) == Phase::PanelOpen,
{
    let key = safe_id(task);
    let s = m.sessions;
    let tier = tier_of(m.platform);
    let s1 = retired(s, key, tier);
    let s2 = open_state(m, task).sessions;
    lemma_open_consistent(m, task);
    if in_fullscreen(s2, key) {
        let j = choose|j: int|
            0 <= j < s2.len() && (#[trigger] s2[j]).key == key && s2[j].fullscreen;
        assert(j < s1.len() && s1[j].key == key && s1[j].fullscreen);
        match tier {
            Tier::Rich => {
                assert(s[j].key == key && s[j].fullscreen);
            },
            Tier::Degraded => {
                lemma_filter_part(s, |x: SessionView| x.key == key || !x.shown);
                let i = choose|i: int| 0 <= i < s.len() && s[i] == s1[j];
                assert(s[i].key == key && s[i].fullscreen);
            },
        }
    }
}

/// A handoff to fullscreen that is served takes the session from its
/// panel to fullscreen.
pub proof fn lemma_enter_handoff_phase(
    m: ManagerView,
    task: Seq<char>,
    measured: Option<FocusWindowGeometry>,
)
    requires
        handoff_ready(m, task),
    ensures
        phase_of(enter_handoff_state(m, task, measured).sessions, safe_id(task))
            == Phase::FullscreenOpen,
        !shown(enter_handoff_state(m, task, measured).sessions, safe_id(task)),
{
    let key = safe_id(task);
    let i = choose|i: int|
        0 <= i < m.sessions.len() && (#[trigger] m.sessions[i]).key == key && m.sessions[i].shown;
    assert(holds(m.sessions, key));
    lemma_amended_reads(m.sessions, key, Some(false), Some(true), key);
}

/// The request comes from the task's own fullscreen surface, or from no
/// fullscreen surface at all.
pub open spec fn own_or_other_kind(origin: Seq<char>, task: Seq<char>) -> bool {
    origin == fullscreen_prefix() + safe_id(task) || !is_fullscreen_label(origin)
}

proof fn lemma_fullscreen_left(s: Seq<SessionView>, origin: Seq<char>, task: Seq<char>)
    requires
        own_or_other_kind(origin, task),
    ensures
        !in_fullscreen(fullscreen_closed(s, origin, safe_id(task)), safe_id(task)),
        shown(fullscreen_closed(s, origin, safe_id(task)), safe_id(task)) == shown(
            s,
            safe_id(task),
        ),
        holds(fullscreen_closed(s, origin, safe_id(task)), safe_id(task)) == holds(
            s,
            safe_id(task),
        ),
{
    let key = safe_id(task);
    if is_fullscreen_label(origin) {
        assert(key_of_fullscreen(origin) =~= key);
    }
    match leaving_fullscreen(s, origin, key) {
        Some(gone) => {
            assert(gone == key);
            lemma_amended_reads(s, key, None, Some(false), key);
            if !holds(s, key) && in_fullscreen(s, key) {
                let i = choose|i: int|
                    0 <= i < s.len() && (#[trigger] s[i]).key == key && s[i].fullscreen;
                assert(s[i].key == key);
            }
        },
        None => {},
    }
}

/// A handoff back, asked for by the task's own fullscreen surface or by a
/// surface of another kind, takes the session to its panel.
pub proof fn lemma_exit_handoff_phase(m: ManagerView, origin: Seq<char>, task: Seq<char>)
    requires
        consistent(m),
        tier_of(m.platform) is Rich,
        own_or_other_kind(origin, task),
    ensures
        phase_of(exit_handoff_state(m, origin, task).sessions, safe_id(task)) == Phase::PanelOpen,
{
    lemma_open_consistent(m, task);
    lemma_fullscreen_left(open_state(m, task).sessions, origin, task);
}

/// A request to go home, asked for by the task's own fullscreen surface
/// or by a surface of another kind, closes the session, whatever state it
/// was in.
pub proof fn lemma_home_phase(m: ManagerView, origin: Seq<char>, task: Seq<char>)
    requires
        own_or_other_kind(origin, task),
    ensures
        phase_of(home_state(m, origin, task).sessions, safe_id(task)) == Phase::Closed,
{
    let key = safe_id(task);
    let s1 = fullscreen_closed(m.sessions, origin, key);
    lemma_fullscreen_left(m.sessions, origin, task);
    match tier_of(m.platform) {
        Tier::Rich => {
            lemma_amended_reads(s1, key, Some(false), None, key);
            if shown(s1, key) {
                let i = choose|i: int|
                    0 <= i < s1.len() && (#[trigger] s1[i]).key == key && s1[i].shown;
                assert(holds(s1, key));
            }
        },
        Tier::Degraded => {
            lemma_without_reads(s1, key, key);
            let w = put_away(s1, key, Tier::Degraded);
            if in_fullscreen(w, key) {
                let j = choose|j: int|
                    0 <= j < w.len() && (#[trigger] w[j]).key == key && w[j].fullscreen;
                assert(holds(w, key));
            }
        },
    }
}

/// Fullscreen is reached by a handoff only: after any other request a
/// session that is in fullscreen was so before.
pub proof fn lemma_fullscreen_by_handoff_only(
    m: ManagerView,
    origin: Seq<char>,
    task: Seq<char>,
    optional_task: Option<Seq<char>>,
    measured: Option<FocusWindowGeometry>,
    k: Seq<char>,
)
    ensures
        in_fullscreen(open_state(m, task).sessions, k) ==> in_fullscreen(m.sessions, k),
        in_fullscreen(home_state(m, origin, task).sessions, k) ==> in_fullscreen(m.sessions, k),
        in_fullscreen(close_state(m, origin, optional_task, measured).sessions, k)
            ==> in_fullscreen(m.sessions, k),
        in_fullscreen(exit_handoff_state(m, origin, task).sessions, k) ==> in_fullscreen(
            m.sessions,
            k,
        ),
        in_fullscreen(cover_state(m, origin, measured).sessions, k) ==> in_fullscreen(
            m.sessions,
            k,
        ),
        in_fullscreen(uncover_state(m, origin).sessions, k) ==> in_fullscreen(m.sessions, k),
{
    let s = m.sessions;
    let tier = tier_of(m.platform);
    let key = safe_id(task);
    // Opening.
    lemma_fullscreen_is_older(s, key, tier, k);
    lemma_fullscreen_is_older(retired(s, key, tier), key, tier, k);
    // Closing the fullscreen surface and putting the panel away.
    lemma_left_is_older(s, origin, key, tier, k);
    match close_target(origin, optional_task) {
        Some(target) => lemma_left_is_older(s, origin, target, tier, k),
        None => {},
    }
    // Handing back.
    lemma_left_is_older(open_state(m, task).sessions, origin, key, tier, k);
}

proof fn lemma_left_is_older(
    s: Seq<SessionView>,
    origin: Seq<char>,
    key: Seq<char>,
    tier: Tier,
    k: Seq<char>,
)
    ensures
        in_fullscreen(fullscreen_closed(s, origin, key), k) ==> in_fullscreen(s, k),
        in_fullscreen(put_away(fullscreen_closed(s, origin, key), key, tier), k) ==> in_fullscreen(
            s,
            k,
        ),
{
    let s1 = fullscreen_closed(s, origin, key);
    match leaving_fullscreen(s, origin, key) {
        Some(gone) => lemma_amended_reads(s, gone, None, Some(false), k),
        None => {},
    }
    match tier {
        Tier::Rich => lemma_amended_reads(s1, key, Some(false), None, k),
        Tier::Degraded => lemma_fullscreen_is_older(s1, key, tier, k),
    }
}

} // verus!
