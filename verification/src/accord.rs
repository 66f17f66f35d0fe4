//! The desktop and the manager stay in step: where the desktop holds the
//! panels that the manager holds, shown as it holds them, it still does
//! after the answer to any request was carried out.

use crate::action::ActionView;
use crate::desktop::{
    agree_at, all_steady_for, lemma_brought_on_screen, lemma_closed_is_gone, lemma_hiding_keeps,
    lemma_retired_is_off, lemma_run_concat, lemma_run_elsewhere, lemma_run_pivot, lemma_run_steady,
    on_screen, only_retires, run, steady_for, target, Desktop,
};
use crate::geometry::FocusWindowGeometry;
use crate::label::{fullscreen_prefix, panel_prefix, safe_id};
use crate::model::{
    amended, any_shown, beside, close_plan, close_state, close_target, consistent, cover_plan,
    cover_state, enter_handoff_plan, enter_handoff_state, exit_handoff_plan, exit_handoff_state,
    failure_state, fullscreen_closed, fullscreen_closing, handoff_ready, height_plan, holds,
    home_plan, home_state, in_fullscreen, is_fullscreen_label, is_panel_label, key_of_fullscreen,
    key_of_panel, leaving_fullscreen, open_plan, open_state, put_away, restoring, retire_one,
    retired, retiring, shown, tier_of, uncover_plan, uncover_state, width_plan, without,
    ManagerView, Opening, SessionView, Tier,
};
use crate::placement::Scene;
use crate::uniqueness::{lemma_keys_apart, lemma_kinds_apart};
use crate::upkeep::{
    lemma_amended_reads, lemma_filter_part, lemma_retired_reads, lemma_revealed_reads,
    lemma_without_reads,
};
use vstd::prelude::*;

verus! {

/// The desktop holds the panel under `label` exactly if the records do,
/// and shows it exactly if they say so.
pub open spec fn panel_as_held(s: Seq<SessionView>, d: Desktop, label: Seq<char>) -> bool {
    &&& d.contains_key(label) == holds(s, key_of_panel(label))
    &&& d.contains_key(label) ==> d[label].visible == shown(s, key_of_panel(label))
}

/// The desktop and the manager are in step: every panel is on the desktop
/// as the manager holds it.
pub open spec fn in_step(m: ManagerView, d: Desktop) -> bool {
    forall|label: Seq<char>| is_panel_label(label) ==> #[trigger] panel_as_held(m.sessions, d, label)
}

/// A manager with no record is in step with a desktop without panels.
pub proof fn lemma_in_step_at_start(m: ManagerView, d: Desktop)
    requires
        m.sessions.len() == 0,
        forall|label: Seq<char>| is_panel_label(label) ==> !#[trigger] d.contains_key(label),
    ensures
        in_step(m, d),
{
    assert forall|label: Seq<char>| is_panel_label(label) implies #[trigger] panel_as_held(
        m.sessions,
        d,
        label,
    ) by {
        assert(!d.contains_key(label));
    }
}

proof fn lemma_label_of(label: Seq<char>)
    requires
        is_panel_label(label),
    ensures
        label == panel_prefix() + key_of_panel(label),
        key_of_panel(panel_prefix() + key_of_panel(label)) == key_of_panel(label),
{
    assert(label =~= panel_prefix() + key_of_panel(label));
}

proof fn lemma_opening_steady(o: Opening, tier: Tier, other: Seq<char>, i: int)
    requires
        other != o.label(),
    ensures
        0 <= i < o.raised(tier).len() ==> steady_for(o.raised(tier)[i], other),
        0 <= i < o.created(tier).len() ==> steady_for(o.created(tier)[i], other),
{
}

proof fn lemma_opening_never_retires(o: Opening, tier: Tier, i: int)
    ensures
        0 < i < o.raised(tier).len() ==> o.raised(tier)[i] != (ActionView::Hide {
            label: o.label(),
        }) && o.raised(tier)[i] != (ActionView::Close { label: o.label() }),
        0 < i < o.created(tier).len() ==> o.created(tier)[i] != (ActionView::Hide {
            label: o.label(),
        }) && o.created(tier)[i] != (ActionView::Close { label: o.label() }),
{
}

/// What the commands that take the other panels off the screen do to the
/// panel under `label`.
proof fn lemma_retiring_effect(
    s: Seq<SessionView>,
    d: Desktop,
    key: Seq<char>,
    tier: Tier,
    label: Seq<char>,
)
    requires
        is_panel_label(label),
        panel_as_held(s, d, label),
    ensures
        ({
            let k = key_of_panel(label);
            let after = run(d, retiring(s, key, tier));
            if k != key && shown(s, k) {
                match tier {
                    Tier::Rich => after.contains_key(label) && !after[label].visible,
                    Tier::Degraded => !after.contains_key(label),
                }
            } else {
                agree_at(after, d, label)
            }
        }),
{
    let k = key_of_panel(label);
    let plan = retiring(s, key, tier);
    let pred = |x: SessionView| x.key != key && x.shown;
    let kept = s.filter(pred);
    lemma_label_of(label);
    lemma_filter_part(s, pred);
    assert(only_retires(plan)) by {
        assert forall|i: int| 0 <= i < plan.len() implies (#[trigger] plan[i]) is Hide
            || plan[i] is Close by {
            assert(plan[i] == retire_one(kept[i].key, tier));
        }
    }
    if k != key && shown(s, k) {
        let n = choose|n: int| 0 <= n < s.len() && (#[trigger] s[n]).key == k && s[n].shown;
        assert(pred(s[n]));
        s.lemma_filter_contains(pred, n);
        let at = choose|at: int| 0 <= at < kept.len() && kept[at] == s[n];
        assert(plan[at] == retire_one(k, tier));
        match tier {
            Tier::Rich => {
                assert forall|i: int| 0 <= i < plan.len() implies (#[trigger] plan[i]) is Hide by {
                    assert(plan[i] == retire_one(kept[i].key, tier));
                }
                lemma_hiding_keeps(d, plan, label);
                lemma_retired_is_off(d, plan, label, at);
            },
            Tier::Degraded => {
                lemma_closed_is_gone(d, plan, label, at);
            },
        }
    } else {
        assert forall|i: int| 0 <= i < plan.len() implies target(#[trigger] plan[i]) != Some(
            label,
        ) by {
            assert(plan[i] == retire_one(kept[i].key, tier));
            assert(pred(kept[i]));
            if kept[i].key != k {
                lemma_keys_apart(kept[i].key, k);
            } else {
                let n = choose|n: int| 0 <= n < s.len() && s[n] == kept[i];
                assert(s[n].key == k && s[n].shown);
            }
        }
        lemma_run_elsewhere(d, plan, label);
    }
}

/// An open request keeps the desktop and the manager in step.
pub proof fn lemma_open_in_step(
    m: ManagerView,
    d: Desktop,
    scene: Scene,
    task: Seq<char>,
    name: Seq<char>,
    anchor_left: Option<i32>,
    anchor_right: Option<i32>,
    anchor_top: Option<i32>,
    preserve: Option<bool>,
)
    requires
        consistent(m),
        in_step(m, d),
    ensures
        in_step(
            open_state(m, task),
            run(
                d,
                open_plan(m, scene, task, name, anchor_left, anchor_right, anchor_top, preserve),
            ),
        ),
{
    let s = m.sessions;
    let key = safe_id(task);
    let own = panel_prefix() + key;
    let tier = tier_of(m.platform);
    let plan = open_plan(m, scene, task, name, anchor_left, anchor_right, anchor_top, preserve);
    let first = retiring(s, key, tier);
    let o = Opening {
        task,
        name,
        stored: m.last_panel,
        scene,
        others: beside(retired(s, key, tier), key),
        anchor_left,
        anchor_right,
        anchor_top,
        keep: preserve == Some(true),
    };
    let existed = holds(s, key);
    let second = if existed {
        o.raised(tier)
    } else {
        o.created(tier)
    };
    assert(plan == first + second);
    lemma_run_concat(d, first, second);
    let cleared = run(d, first);
    let after = run(d, plan);
    let s1 = retired(s, key, tier);
    let s2 = open_state(m, task).sessions;
    assert forall|label: Seq<char>| is_panel_label(label) implies #[trigger] panel_as_held(
        s2,
        after,
        label,
    ) by {
        let k = key_of_panel(label);
        lemma_label_of(label);
        assert(panel_as_held(s, d, label));
        lemma_retired_reads(s, key, tier, k);
        lemma_revealed_reads(s1, key, k);
        lemma_retiring_effect(s, d, key, tier, label);
        if k == key {
            assert(label == own);
            assert(agree_at(cleared, d, own));
            let at: int = 0;
            assert(second.take(0) =~= Seq::<ActionView>::empty());
            assert forall|i: int| at < i < second.len() implies #[trigger] second[i] != (
            ActionView::Hide { label: own }) && second[i] != (ActionView::Close {
                label: own,
            }) by {
                lemma_opening_never_retires(o, tier, i);
            }
            lemma_brought_on_screen(cleared, second, own, at);
        } else {
            lemma_keys_apart(k, key);
            assert(all_steady_for(second, label)) by {
                assert forall|i: int| 0 <= i < second.len() implies steady_for(
                    #[trigger] second[i],
                    label,
                ) by {
                    lemma_opening_steady(o, tier, label, i);
                }
            }
            lemma_run_steady(cleared, second, label);
        }
    }
}

proof fn lemma_fullscreen_closing_steady(
    s: Seq<SessionView>,
    origin: Seq<char>,
    key: Seq<char>,
    label: Seq<char>,
)
    requires
        is_panel_label(label),
    ensures
        all_steady_for(fullscreen_closing(s, origin, key), label),
{
    let plan = fullscreen_closing(s, origin, key);
    lemma_label_of(label);
    assert forall|i: int| 0 <= i < plan.len() implies steady_for(#[trigger] plan[i], label) by {
        let k = leaving_fullscreen(s, origin, key)->0;
        lemma_kinds_apart(key_of_panel(label), k);
    }
}

proof fn lemma_fullscreen_closed_reads(
    s: Seq<SessionView>,
    origin: Seq<char>,
    key: Seq<char>,
    k: Seq<char>,
)
    ensures
        holds(fullscreen_closed(s, origin, key), k) == holds(s, k),
        shown(fullscreen_closed(s, origin, key), k) == shown(s, k),
{
    match leaving_fullscreen(s, origin, key) {
        Some(gone) => lemma_amended_reads(s, gone, None, Some(false), k),
        None => {},
    }
}

/// What putting a panel away does to the panel under `label`: the
/// commands are those that close the fullscreen surface, then the one that
/// takes the panel off the screen if it exists, then `tail`, which is
/// steady for every panel.
proof fn lemma_put_away_in_step(
    m: ManagerView,
    d: Desktop,
    origin: Seq<char>,
    key: Seq<char>,
    tail: Seq<ActionView>,
    label: Seq<char>,
)
    requires
        is_panel_label(label),
        panel_as_held(m.sessions, d, label),
        all_steady_for(tail, label),
    ensures
        panel_as_held(
            put_away(fullscreen_closed(m.sessions, origin, key), key, tier_of(m.platform)),
            run(
                d,
                fullscreen_closing(m.sessions, origin, key) + (if holds(m.sessions, key) {
                    seq![retire_one(key, tier_of(m.platform))]
                } else {
                    Seq::empty()
                }) + tail,
            ),
            label,
        ),
{
    let s = m.sessions;
    let tier = tier_of(m.platform);
    let own = panel_prefix() + key;
    let k = key_of_panel(label);
    let closing = fullscreen_closing(s, origin, key);
    let middle: Seq<ActionView> = if holds(s, key) {
        seq![retire_one(key, tier)]
    } else {
        Seq::empty()
    };
    let plan = closing + middle + tail;
    let s1 = fullscreen_closed(s, origin, key);
    lemma_label_of(label);
    lemma_fullscreen_closing_steady(s, origin, key, label);
    lemma_fullscreen_closed_reads(s, origin, key, k);
    lemma_fullscreen_closed_reads(s, origin, key, key);
    match tier {
        Tier::Rich => lemma_amended_reads(s1, key, Some(false), None, k),
        Tier::Degraded => lemma_without_reads(s1, key, k),
    }
    if k == key && holds(s, key) {
        let at = closing.len() as int;
        assert(plan[at] == retire_one(key, tier));
        assert forall|i: int| 0 <= i < plan.len() && i != at implies steady_for(
            #[trigger] plan[i],
            label,
        ) by {
            if i < at {
                assert(plan[i] == closing[i]);
            } else {
                assert(plan[i] == tail[i - at - 1]);
            }
        }
        lemma_run_pivot(d, plan, label, at);
    } else {
        if k != key {
            lemma_keys_apart(k, key);
        }
        assert(all_steady_for(plan, label)) by {
            assert forall|i: int| 0 <= i < plan.len() implies steady_for(
                #[trigger] plan[i],
                label,
            ) by {
                if i < closing.len() {
                    assert(plan[i] == closing[i]);
                } else if i < closing.len() + middle.len() {
                    assert(plan[i] == middle[i - closing.len()]);
                } else {
                    assert(plan[i] == tail[i - closing.len() - middle.len()]);
                }
            }
        }
        lemma_run_steady(d, plan, label);
    }
}

/// A request to go home keeps the desktop and the manager in step.
pub proof fn lemma_home_in_step(
    m: ManagerView,
    d: Desktop,
    origin: Seq<char>,
    task: Seq<char>,
    complete_on_home: Option<bool>,
)
    requires
        in_step(m, d),
    ensures
        in_step(
            home_state(m, origin, task),
            run(d, home_plan(m, origin, task, complete_on_home)),
        ),
{
    let key = safe_id(task);
    let tail = seq![
        ActionView::NotifyClosed {
            closed_task: Some(task),
            complete_on_home: Some(complete_on_home == Some(true)),
        },
        ActionView::RestorePrimary,
    ];
    assert forall|label: Seq<char>| is_panel_label(label) implies #[trigger] panel_as_held(
        home_state(m, origin, task).sessions,
        run(d, home_plan(m, origin, task, complete_on_home)),
        label,
    ) by {
        assert(panel_as_held(m.sessions, d, label));
        lemma_put_away_in_step(m, d, origin, key, tail, label);
    }
}

/// A close request keeps the desktop and the manager in step.
pub proof fn lemma_close_in_step(
    m: ManagerView,
    d: Desktop,
    origin: Seq<char>,
    task: Option<Seq<char>>,
    measured: Option<FocusWindowGeometry>,
)
    requires
        in_step(m, d),
    ensures
        in_step(close_state(m, origin, task, measured), run(d, close_plan(m, origin, task))),
{
    let tail = seq![
        ActionView::NotifyClosed { closed_task: task, complete_on_home: None },
        ActionView::RestorePrimary,
    ];
    assert forall|label: Seq<char>| is_panel_label(label) implies #[trigger] panel_as_held(
        close_state(m, origin, task, measured).sessions,
        run(d, close_plan(m, origin, task)),
        label,
    ) by {
        assert(panel_as_held(m.sessions, d, label));
        match close_target(origin, task) {
            None => {},
            Some(key) => {
                lemma_put_away_in_step(m, d, origin, key, tail, label);
            },
        }
    }
}

/// A handoff to fullscreen keeps the desktop and the manager in step.
pub proof fn lemma_enter_handoff_in_step(
    m: ManagerView,
    d: Desktop,
    task: Seq<char>,
    name: Seq<char>,
    measured: Option<FocusWindowGeometry>,
)
    requires
        in_step(m, d),
    ensures
        in_step(
            enter_handoff_state(m, task, measured),
            run(d, enter_handoff_plan(m, task, name)),
        ),
{
    let s = m.sessions;
    let key = safe_id(task);
    let plan = enter_handoff_plan(m, task, name);
    assert forall|label: Seq<char>| is_panel_label(label) implies #[trigger] panel_as_held(
        enter_handoff_state(m, task, measured).sessions,
        run(d, plan),
        label,
    ) by {
        assert(panel_as_held(s, d, label));
        lemma_label_of(label);
        let k = key_of_panel(label);
        if handoff_ready(m, task) {
            lemma_amended_reads(s, key, Some(false), Some(true), k);
            lemma_kinds_apart(k, key);
            let at = plan.len() - 1;
            if k == key {
                let n = choose|n: int|
                    0 <= n < s.len() && (#[trigger] s[n]).key == key && s[n].shown;
                assert(holds(s, key));
                lemma_run_pivot(d, plan, label, at);
            } else {
                lemma_keys_apart(k, key);
                assert(all_steady_for(plan, label));
                lemma_run_steady(d, plan, label);
            }
        }
    }
}

/// A handoff back to the panel keeps the desktop and the manager in
/// step.
pub proof fn lemma_exit_handoff_in_step(
    m: ManagerView,
    d: Desktop,
    origin: Seq<char>,
    scene: Scene,
    task: Seq<char>,
    name: Seq<char>,
)
    requires
        consistent(m),
        in_step(m, d),
    ensures
        in_step(
            exit_handoff_state(m, origin, task),
            run(d, exit_handoff_plan(m, origin, scene, task, name)),
        ),
{
    let key = safe_id(task);
    let plan = exit_handoff_plan(m, origin, scene, task, name);
    if tier_of(m.platform) is Rich {
        let opening = open_plan(m, scene, task, name, None, None, None, Some(true));
        let opened = open_state(m, task);
        let restore = match crate::geometry::lookup(m.handoff, task) {
            Some(g) => restoring(panel_prefix() + key, g),
            None => Seq::empty(),
        };
        let closing = fullscreen_closing(opened.sessions, origin, key);
        lemma_open_in_step(m, d, scene, task, name, None, None, None, Some(true));
        assert(plan == opening + restore + closing);
        lemma_run_concat(d, opening + restore, closing);
        lemma_run_concat(d, opening, restore);
        let d1 = run(d, opening);
        assert forall|label: Seq<char>| is_panel_label(label) implies #[trigger] panel_as_held(
            exit_handoff_state(m, origin, task).sessions,
            run(d, plan),
            label,
        ) by {
            assert(panel_as_held(opened.sessions, d1, label));
            lemma_fullscreen_closed_reads(opened.sessions, origin, key, key_of_panel(label));
            assert(all_steady_for(restore, label));
            lemma_run_steady(d1, restore, label);
            lemma_fullscreen_closing_steady(opened.sessions, origin, key, label);
            lemma_run_steady(run(d1, restore), closing, label);
        }
    } else {
        assert forall|label: Seq<char>| is_panel_label(label) implies #[trigger] panel_as_held(
            m.sessions,
            run(d, plan),
            label,
        ) by {
            assert(panel_as_held(m.sessions, d, label));
        }
    }
}

/// Requests for a width or a height, and to cover or uncover the screen,
/// keep the desktop and the manager in step: they change no record and
/// neither create, show, hide nor close a surface.
pub proof fn lemma_resizing_in_step(
    m: ManagerView,
    d: Desktop,
    origin: Seq<char>,
    width: u32,
    height: u32,
    current_width: Option<u32>,
    measured: Option<FocusWindowGeometry>,
    monitor: Option<FocusWindowGeometry>,
)
    requires
        in_step(m, d),
    ensures
        in_step(m, run(d, width_plan(m, origin, width))),
        in_step(m, run(d, height_plan(m, origin, height, current_width))),
        in_step(cover_state(m, origin, measured), run(d, cover_plan(m, origin, monitor))),
        in_step(uncover_state(m, origin), run(d, uncover_plan(m, origin))),
{
    assert forall|label: Seq<char>| is_panel_label(label) implies #[trigger] panel_as_held(
        m.sessions,
        run(d, width_plan(m, origin, width)),
        label,
    ) by {
        assert(panel_as_held(m.sessions, d, label));
        assert(all_steady_for(width_plan(m, origin, width), label));
        lemma_run_steady(d, width_plan(m, origin, width), label);
    }
    assert forall|label: Seq<char>| is_panel_label(label) implies #[trigger] panel_as_held(
        m.sessions,
        run(d, height_plan(m, origin, height, current_width)),
        label,
    ) by {
        assert(panel_as_held(m.sessions, d, label));
        assert(all_steady_for(height_plan(m, origin, height, current_width), label));
        lemma_run_steady(d, height_plan(m, origin, height, current_width), label);
    }
    assert forall|label: Seq<char>| is_panel_label(label) implies #[trigger] panel_as_held(
        cover_state(m, origin, measured).sessions,
        run(d, cover_plan(m, origin, monitor)),
        label,
    ) by {
        assert(panel_as_held(m.sessions, d, label));
        assert(all_steady_for(cover_plan(m, origin, monitor), label));
        lemma_run_steady(d, cover_plan(m, origin, monitor), label);
    }
    assert forall|label: Seq<char>| is_panel_label(label) implies #[trigger] panel_as_held(
        uncover_state(m, origin).sessions,
        run(d, uncover_plan(m, origin)),
        label,
    ) by {
        assert(panel_as_held(m.sessions, d, label));
        assert(all_steady_for(uncover_plan(m, origin), label));
        lemma_run_steady(d, uncover_plan(m, origin), label);
    }
}

/// In step, the manager knows of every panel on screen, so that at most
/// one panel is on it.
pub proof fn lemma_in_step_one_panel(m: ManagerView, d: Desktop)
    requires
        consistent(m),
        in_step(m, d),
    ensures
        crate::laws::knows_screen(m, d),
        crate::laws::one_panel_on_screen(d),
{
    assert forall|label: Seq<char>| #[trigger]
        on_screen(d, label) && is_panel_label(label) implies shown(
        m.sessions,
        key_of_panel(label),
    ) by {
        assert(panel_as_held(m.sessions, d, label));
    }
    crate::laws::lemma_known_screen_has_one(m, d);
}

/// Opening a task's panel, handing it over to fullscreen and handing it
/// back leaves the panel visible at exactly the rectangle `g` that was
/// measured at the handoff, and no rectangle kept for the task.
pub proof fn lemma_open_and_round_trip(
    m: ManagerView,
    d: Desktop,
    scene: Scene,
    task: Seq<char>,
    name: Seq<char>,
    anchor_left: Option<i32>,
    anchor_right: Option<i32>,
    anchor_top: Option<i32>,
    preserve: Option<bool>,
    g: FocusWindowGeometry,
    origin: Seq<char>,
    scene_back: Scene,
)
    requires
        consistent(m),
        in_step(m, d),
        tier_of(m.platform) is Rich,
    ensures
        ({
            let opened = open_state(m, task);
            let there = enter_handoff_state(opened, task, Some(g));
            let back = exit_handoff_state(there, origin, task);
            let after = run(
                run(
                    run(
                        d,
                        open_plan(
                            m,
                            scene,
                            task,
                            name,
                            anchor_left,
                            anchor_right,
                            anchor_top,
                            preserve,
                        ),
                    ),
                    enter_handoff_plan(opened, task, name),
                ),
                exit_handoff_plan(there, origin, scene_back, task, name),
            );
            &&& after.contains_key(panel_prefix() + safe_id(task))
            &&& after[panel_prefix() + safe_id(task)] == crate::desktop::SurfaceView {
                visible: true,
                corner: Some((g.x as int, g.y as int)),
                size: Some((g.width as int, g.height as int)),
            }
            &&& shown(back.sessions, safe_id(task))
            &&& crate::geometry::lookup(back.handoff, task) is None
        }),
{
    let key = safe_id(task);
    let own = panel_prefix() + key;
    let opened = open_state(m, task);
    let d1 = run(
        d,
        open_plan(m, scene, task, name, anchor_left, anchor_right, anchor_top, preserve),
    );
    crate::upkeep::lemma_open_consistent(m, task);
    lemma_open_in_step(m, d, scene, task, name, anchor_left, anchor_right, anchor_top, preserve);
    assert(is_panel_label(own)) by {
        assert(panel_prefix() =~= own.subrange(0, 6));
    }
    assert(key_of_panel(own) =~= key);
    assert(panel_as_held(opened.sessions, d1, own));
    let n = choose|n: int|
        0 <= n < opened.sessions.len() && (#[trigger] opened.sessions[n]).key == key
            && opened.sessions[n].shown;
    assert(holds(opened.sessions, key));
    crate::laws::lemma_handoff_round_trip(opened, d1, task, name, g, origin, scene_back);
}

/// The number of commands of the answer to an open request that stand
/// before the one that creates the panel: those that take the other
/// panels off the screen.
pub open spec fn before_creation(m: ManagerView, task: Seq<char>) -> int {
    retiring(m.sessions, safe_id(task), tier_of(m.platform)).len() as int
}

/// What the commands before the creation of a panel leave of the desktop,
/// set against the records without that panel.
proof fn lemma_before_creation_in_step(m: ManagerView, d: Desktop, task: Seq<char>)
    requires
        consistent(m),
        in_step(m, d),
        !holds(m.sessions, safe_id(task)),
    ensures
        forall|label: Seq<char>|
            is_panel_label(label) ==> #[trigger] panel_as_held(
                without(open_state(m, task).sessions, safe_id(task)),
                run(d, retiring(m.sessions, safe_id(task), tier_of(m.platform))),
                label,
            ),
{
    let s = m.sessions;
    let key = safe_id(task);
    let tier = tier_of(m.platform);
    let s1 = retired(s, key, tier);
    let s2 = open_state(m, task).sessions;
    assert forall|label: Seq<char>| is_panel_label(label) implies #[trigger] panel_as_held(
        without(s2, key),
        run(d, retiring(s, key, tier)),
        label,
    ) by {
        let k = key_of_panel(label);
        lemma_label_of(label);
        assert(panel_as_held(s, d, label));
        lemma_retired_reads(s, key, tier, k);
        lemma_revealed_reads(s1, key, k);
        lemma_without_reads(s2, key, k);
        lemma_retiring_effect(s, d, key, tier, label);
    }
}

/// Where the panel of an open request cannot be created, and the adapter
/// has carried out the commands before the creation and reports the
/// failure, the desktop and the manager are in step again.
pub proof fn lemma_failed_open_in_step(
    m: ManagerView,
    d: Desktop,
    scene: Scene,
    task: Seq<char>,
    name: Seq<char>,
    anchor_left: Option<i32>,
    anchor_right: Option<i32>,
    anchor_top: Option<i32>,
    preserve: Option<bool>,
)
    requires
        consistent(m),
        in_step(m, d),
        !holds(m.sessions, safe_id(task)),
    ensures
        0 <= before_creation(m, task) < open_plan(
            m,
            scene,
            task,
            name,
            anchor_left,
            anchor_right,
            anchor_top,
            preserve,
        ).len(),
        open_plan(m, scene, task, name, anchor_left, anchor_right, anchor_top, preserve)[before_creation(
            m,
            task,
        )] is CreatePanel,
        in_step(
            failure_state(open_state(m, task), panel_prefix() + safe_id(task)),
            run(
                d,
                open_plan(
                    m,
                    scene,
                    task,
                    name,
                    anchor_left,
                    anchor_right,
                    anchor_top,
                    preserve,
                ).take(before_creation(m, task)),
            ),
        ),
{
    let key = safe_id(task);
    let own = panel_prefix() + key;
    let plan = open_plan(m, scene, task, name, anchor_left, anchor_right, anchor_top, preserve);
    let first = retiring(m.sessions, key, tier_of(m.platform));
    let at = before_creation(m, task);
    assert(plan[at] is CreatePanel);
    assert(plan.take(at) =~= first);
    assert(is_panel_label(own)) by {
        assert(panel_prefix() =~= own.subrange(0, 6));
    }
    assert(key_of_panel(own) =~= key);
    lemma_before_creation_in_step(m, d, task);
    assert(failure_state(open_state(m, task), own).sessions == without(
        open_state(m, task).sessions,
        key,
    ));
}

/// Where the panel of a handoff back cannot be created, and the adapter
/// has carried out the commands before the creation and reports the
/// failure, nothing of the handoff is lost: the rectangle kept for the
/// task is kept again, every fullscreen surface that was up is taken as
/// up again, and the desktop and the manager are in step.
pub proof fn lemma_failed_return_in_step(
    m: ManagerView,
    d: Desktop,
    origin: Seq<char>,
    scene: Scene,
    task: Seq<char>,
    name: Seq<char>,
    k: Seq<char>,
)
    requires
        consistent(m),
        in_step(m, d),
        tier_of(m.platform) is Rich,
        !holds(m.sessions, safe_id(task)),
    ensures
        0 <= before_creation(m, task) < exit_handoff_plan(m, origin, scene, task, name).len(),
        exit_handoff_plan(m, origin, scene, task, name)[before_creation(m, task)] is CreatePanel,
        failure_state(
            exit_handoff_state(m, origin, task),
            panel_prefix() + safe_id(task),
        ).handoff == m.handoff,
        in_fullscreen(
            failure_state(
                exit_handoff_state(m, origin, task),
                panel_prefix() + safe_id(task),
            ).sessions,
            k,
        ) == in_fullscreen(m.sessions, k),
        in_step(
            failure_state(exit_handoff_state(m, origin, task), panel_prefix() + safe_id(task)),
            run(
                d,
                exit_handoff_plan(m, origin, scene, task, name).take(before_creation(m, task)),
            ),
        ),
{
    let s = m.sessions;
    let key = safe_id(task);
    let own = panel_prefix() + key;
    let tier = Tier::Rich;
    let plan = exit_handoff_plan(m, origin, scene, task, name);
    let first = retiring(s, key, tier);
    let at = before_creation(m, task);
    let opened = open_state(m, task).sessions;
    let there = exit_handoff_state(m, origin, task);
    let back = failure_state(there, own);
    let used = crate::model::used_up(m, origin, task);
    assert(plan[at] is CreatePanel);
    assert(plan.take(at) =~= first);
    assert(is_panel_label(own)) by {
        assert(panel_prefix() =~= own.subrange(0, 6));
    }
    assert(key_of_panel(own) =~= key);
    assert(there.returning == Some(used));
    assert(crate::model::failed_on_return(there, own));
    // The rectangle.
    assert(back.handoff =~= m.handoff);
    // The records.
    let closed = fullscreen_closed(opened, origin, key);
    let dropped = without(closed, key);
    lemma_before_creation_in_step(m, d, task);
    assert forall|label: Seq<char>| is_panel_label(label) implies #[trigger] panel_as_held(
        back.sessions,
        run(d, first),
        label,
    ) by {
        let q = key_of_panel(label);
        assert(panel_as_held(without(opened, key), run(d, first), label));
        lemma_without_reads(opened, key, q);
        lemma_fullscreen_closed_reads(opened, origin, key, q);
        lemma_without_reads(closed, key, q);
        if used.fullscreen is Some {
            lemma_amended_reads(dropped, used.fullscreen->0, None, Some(true), q);
        }
    }
    // The fullscreen surfaces.
    lemma_fullscreen_through_return(m, origin, task, k);
}

/// Through a handoff back whose panel could not be created, every session
/// is in fullscreen exactly if it was.
proof fn lemma_fullscreen_through_return(
    m: ManagerView,
    origin: Seq<char>,
    task: Seq<char>,
    k: Seq<char>,
)
    requires
        consistent(m),
        tier_of(m.platform) is Rich,
        !holds(m.sessions, safe_id(task)),
    ensures
        in_fullscreen(
            failure_state(
                exit_handoff_state(m, origin, task),
                panel_prefix() + safe_id(task),
            ).sessions,
            k,
        ) == in_fullscreen(m.sessions, k),
{
    let s = m.sessions;
    let key = safe_id(task);
    let own = panel_prefix() + key;
    let s1 = retired(s, key, Tier::Rich);
    let opened = open_state(m, task).sessions;
    let closed = fullscreen_closed(opened, origin, key);
    let dropped = without(closed, key);
    let used = crate::model::used_up(m, origin, task);
    let after = failure_state(exit_handoff_state(m, origin, task), own).sessions;
    assert(is_panel_label(own)) by {
        assert(panel_prefix() =~= own.subrange(0, 6));
    }
    assert(key_of_panel(own) =~= key);
    // Records of `opened` are those of `s`, others hidden, and one more under `key`.
    assert(opened == s1.push(SessionView { key, shown: true, fullscreen: false })) by {
        if holds(s1, key) {
            let i = choose|i: int| 0 <= i < s1.len() && (#[trigger] s1[i]).key == key;
            assert(s[i].key == key);
        }
    }
    assert(in_fullscreen(opened, k) == in_fullscreen(s, k)) by {
        if in_fullscreen(opened, k) {
            let i = choose|i: int|
                0 <= i < opened.len() && (#[trigger] opened[i]).key == k && opened[i].fullscreen;
            assert(i < s.len());
            assert(s[i].key == k && s[i].fullscreen);
        }
        if in_fullscreen(s, k) {
            let i = choose|i: int|
                0 <= i < s.len() && (#[trigger] s[i]).key == k && s[i].fullscreen;
            assert(opened[i].key == k && opened[i].fullscreen);
        }
    }
    assert(!in_fullscreen(opened, key)) by {
        if in_fullscreen(opened, key) {
            let i = choose|i: int|
                0 <= i < opened.len() && (#[trigger] opened[i]).key == key
                    && opened[i].fullscreen;
            assert(i < s.len());
            assert(s[i].key == key);
        }
    }
    assert(in_fullscreen(dropped, k) ==> in_fullscreen(closed, k)) by {
        crate::upkeep::lemma_fullscreen_is_older(closed, key, Tier::Rich, k);
    }
    assert(k != key && in_fullscreen(closed, k) ==> in_fullscreen(dropped, k)) by {
        if k != key && in_fullscreen(closed, k) {
            let pred = |x: SessionView| x.key != key;
            let i = choose|i: int|
                0 <= i < closed.len() && (#[trigger] closed[i]).key == k && closed[i].fullscreen;
            closed.lemma_filter_contains(pred, i);
            let j = choose|j: int| 0 <= j < dropped.len() && dropped[j] == closed[i];
            assert(dropped[j].key == k && dropped[j].fullscreen);
        }
    }
    match leaving_fullscreen(opened, origin, key) {
        Some(gone) => {
            lemma_amended_reads(opened, gone, None, Some(false), k);
            lemma_amended_reads(opened, gone, None, Some(false), gone);
            if in_fullscreen(opened, gone) {
                assert(used.fullscreen == Some(gone));
                assert(gone != key);
                lemma_amended_reads(dropped, gone, None, Some(true), k);
                lemma_without_reads(closed, key, gone);
                if !holds(opened, gone) {
                    let i = choose|i: int|
                        0 <= i < opened.len() && (#[trigger] opened[i]).key == gone
                            && opened[i].fullscreen;
                    assert(opened[i].key == gone);
                }
            } else {
                assert(used.fullscreen is None);
            }
        },
        None => {
            assert(used.fullscreen is None);
        },
    }
}

/// Where the fullscreen surface of a handoff cannot be created, and the
/// adapter carries out none of the commands and reports the failure, the
/// records are as before the handoff, and so in step with the desktop.
pub proof fn lemma_failed_handoff_in_step(
    m: ManagerView,
    d: Desktop,
    task: Seq<char>,
    name: Seq<char>,
    measured: Option<FocusWindowGeometry>,
)
    requires
        consistent(m),
        in_step(m, d),
        handoff_ready(m, task),
        !in_fullscreen(m.sessions, safe_id(task)),
    ensures
        enter_handoff_plan(m, task, name)[0] is CreateFullscreen,
        failure_state(
            enter_handoff_state(m, task, measured),
            fullscreen_prefix() + safe_id(task),
        ).sessions == m.sessions,
        in_step(
            failure_state(
                enter_handoff_state(m, task, measured),
                fullscreen_prefix() + safe_id(task),
            ),
            d,
        ),
{
    let s = m.sessions;
    let key = safe_id(task);
    let gone = fullscreen_prefix() + key;
    let there = enter_handoff_state(m, task, measured).sessions;
    let back = failure_state(enter_handoff_state(m, task, measured), gone).sessions;
    let at = choose|i: int| 0 <= i < s.len() && (#[trigger] s[i]).key == key && s[i].shown;
    lemma_kinds_apart(key_of_panel(gone), key);
    assert(!is_panel_label(gone)) by {
        if is_panel_label(gone) {
            lemma_label_of(gone);
        }
    }
    assert(is_fullscreen_label(gone)) by {
        assert(fullscreen_prefix() =~= gone.subrange(0, 8));
    }
    assert(key_of_fullscreen(gone) =~= key);
    assert(there[at].key == key && there[at].fullscreen);
    assert(!any_shown(there)) by {
        if any_shown(there) {
            let j = choose|j: int| 0 <= j < there.len() && (#[trigger] there[j]).shown;
            assert(s[j].shown && s[at].shown);
        }
    }
    assert(back == amended(there, key, Some(true), Some(false)));
    assert(back =~= s) by {
        assert forall|i: int| 0 <= i < s.len() implies back[i] == s[i] by {
            if s[i].key == key {
                if i < at {
                    assert(s[i].key != s[at].key);
                } else if at < i {
                    assert(s[at].key != s[i].key);
                }
                assert(!s[i].fullscreen);
            }
        }
    }
    assert forall|label: Seq<char>| is_panel_label(label) implies #[trigger] panel_as_held(
        back,
        d,
        label,
    ) by {
        assert(panel_as_held(s, d, label));
    }
}

} // verus!
