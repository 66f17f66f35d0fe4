//! The invariant of the manager holds in every state: no request breaks
//! it.

use crate::geometry::FocusWindowGeometry;
use crate::label::safe_id;
use crate::model::{
    amended, any_shown, close_state, close_target, consistent, cover_state, distinct_keys,
    enter_handoff_state, exit_handoff_state, failure_state, fullscreen_closed, holds, home_state,
    in_fullscreen, open_state, put_away, retired, revealed, shown, single_shown, tier_of,
    uncover_state, without, ManagerView, SessionView, Tier,
};
use vstd::prelude::*;

verus! {

/// What a filter leaves is part of what it was given, in the same order.
pub proof fn lemma_filter_part(s: Seq<SessionView>, pred: spec_fn(SessionView) -> bool)
    ensures
        forall|k: int|
            0 <= k < s.filter(pred).len() ==> pred(#[trigger] s.filter(pred)[k]) && exists|i: int|
                0 <= i < s.len() && s[i] == s.filter(pred)[k],
        distinct_keys(s) ==> distinct_keys(s.filter(pred)),
        single_shown(s) ==> single_shown(s.filter(pred)),
    decreases s.len(),
{
    reveal(Seq::filter);
    if s.len() > 0 {
        let t = s.drop_last();
        let x = s.last();
        lemma_filter_part(t, pred);
        let ft = t.filter(pred);
        let fs = s.filter(pred);
        assert forall|k: int| 0 <= k < fs.len() implies pred(#[trigger] fs[k]) && exists|i: int|
            0 <= i < s.len() && s[i] == fs[k] by {
            if k < ft.len() {
                let i = choose|i: int| 0 <= i < t.len() && t[i] == ft[k];
                assert(s[i] == fs[k]);
            } else {
                assert(s[s.len() - 1] == fs[k]);
            }
        }
        if distinct_keys(s) {
            assert forall|a: int, b: int| 0 <= a < b < fs.len() implies (#[trigger] fs[a]).key != (
            #[trigger] fs[b]).key by {
                if b < ft.len() {
                    assert(ft[a].key != ft[b].key);
                } else {
                    let i = choose|i: int| 0 <= i < t.len() && t[i] == ft[a];
                    assert(s[i].key != s[s.len() - 1].key);
                }
            }
        }
        if single_shown(s) {
            assert forall|a: int, b: int|
                0 <= a < fs.len() && 0 <= b < fs.len() && (#[trigger] fs[a]).shown && (
                #[trigger] fs[b]).shown implies a == b by {
                if a < ft.len() && b < ft.len() {
                    assert(ft[a].shown && ft[b].shown);
                } else if a < ft.len() {
                    let i = choose|i: int| 0 <= i < t.len() && t[i] == ft[a];
                    assert(s[i].shown && s[s.len() - 1].shown);
                } else if b < ft.len() {
                    let i = choose|i: int| 0 <= i < t.len() && t[i] == ft[b];
                    assert(s[i].shown && s[s.len() - 1].shown);
                }
            }
        }
    }
}

/// Changing a record keeps the keys apart. It keeps a single panel on
/// screen unless it shows one.
pub proof fn lemma_amended_consistent(
    s: Seq<SessionView>,
    key: Seq<char>,
    show: Option<bool>,
    fullscreen: Option<bool>,
)
    requires
        distinct_keys(s),
        single_shown(s),
        show == Some(true) ==> forall|i: int|
            0 <= i < s.len() && (#[trigger] s[i]).shown ==> s[i].key == key,
    ensures
        distinct_keys(amended(s, key, show, fullscreen)),
        single_shown(amended(s, key, show, fullscreen)),
{
    let a = amended(s, key, show, fullscreen);
    assert forall|i: int, j: int| 0 <= i < j < a.len() implies (#[trigger] a[i]).key != (
    #[trigger] a[j]).key by {
        assert(s[i].key != s[j].key);
    }
    assert forall|i: int, j: int|
        0 <= i < a.len() && 0 <= j < a.len() && (#[trigger] a[i]).shown && (
        #[trigger] a[j]).shown implies i == j by {
        if i != j {
            if i < j {
                assert(s[i].key != s[j].key);
            } else {
                assert(s[j].key != s[i].key);
            }
            if show == Some(true) {
                assert(s[i].shown ==> s[i].key == key);
                assert(s[j].shown ==> s[j].key == key);
            } else {
                assert(s[i].shown && s[j].shown);
            }
        }
    }
}

/// After the other panels left the screen, only the panel under `key` can
/// be on it.
pub proof fn lemma_retired(s: Seq<SessionView>, key: Seq<char>, tier: Tier)
    requires
        distinct_keys(s),
        single_shown(s),
    ensures
        distinct_keys(retired(s, key, tier)),
        single_shown(retired(s, key, tier)),
        forall|i: int|
            0 <= i < retired(s, key, tier).len() && (#[trigger] retired(s, key, tier)[i]).shown
                ==> retired(s, key, tier)[i].key == key,
        holds(retired(s, key, tier), key) == holds(s, key),
{
    let r = retired(s, key, tier);
    match tier {
        Tier::Rich => {
            assert forall|i: int, j: int| 0 <= i < j < r.len() implies (#[trigger] r[i]).key != (
            #[trigger] r[j]).key by {
                assert(s[i].key != s[j].key);
            }
            assert forall|i: int, j: int|
                0 <= i < r.len() && 0 <= j < r.len() && (#[trigger] r[i]).shown && (
                #[trigger] r[j]).shown implies i == j by {
                assert(s[i].shown && s[j].shown);
            }
            if holds(s, key) {
                let i = choose|i: int| 0 <= i < s.len() && (#[trigger] s[i]).key == key;
                assert(r[i].key == key);
            }
            if holds(r, key) {
                let i = choose|i: int| 0 <= i < r.len() && (#[trigger] r[i]).key == key;
                assert(s[i].key == key);
            }
        },
        Tier::Degraded => {
            let pred = |x: SessionView| x.key == key || !x.shown;
            lemma_filter_part(s, pred);
            if holds(s, key) {
                let i = choose|i: int| 0 <= i < s.len() && (#[trigger] s[i]).key == key;
                assert(pred(s[i]));
                s.lemma_filter_contains(pred, i);
                assert(r.contains(s[i]));
                let k = choose|k: int| 0 <= k < r.len() && r[k] == s[i];
                assert(r[k].key == key);
            }
            if holds(r, key) {
                let k = choose|k: int| 0 <= k < r.len() && (#[trigger] r[k]).key == key;
                let i = choose|i: int| 0 <= i < s.len() && s[i] == r[k];
                assert(s[i].key == key);
            }
        },
    }
}

/// Showing the panel under `key`, new or not, where no other panel is on
/// screen, leaves a single panel on screen.
pub proof fn lemma_revealed(s: Seq<SessionView>, key: Seq<char>)
    requires
        distinct_keys(s),
        single_shown(s),
        forall|i: int| 0 <= i < s.len() && (#[trigger] s[i]).shown ==> s[i].key == key,
    ensures
        distinct_keys(revealed(s, key)),
        single_shown(revealed(s, key)),
        shown(revealed(s, key), key),
        forall|i: int|
            0 <= i < revealed(s, key).len() && (#[trigger] revealed(s, key)[i]).shown
                ==> revealed(s, key)[i].key == key,
{
    let r = revealed(s, key);
    if holds(s, key) {
        lemma_amended_consistent(s, key, Some(true), None);
        let i = choose|i: int| 0 <= i < s.len() && (#[trigger] s[i]).key == key;
        assert(r[i].key == key && r[i].shown);
        assert forall|i: int| 0 <= i < r.len() && (#[trigger] r[i]).shown implies r[i].key
            == key by {
            assert(s[i].shown ==> s[i].key == key);
        }
    } else {
        let n = s.len() as int;
        assert(r[n].key == key && r[n].shown);
        assert forall|i: int| 0 <= i < s.len() implies !(#[trigger] s[i]).shown by {
            if s[i].shown {
                assert(s[i].key == key);
            }
        }
        assert forall|i: int, j: int| 0 <= i < j < r.len() implies (#[trigger] r[i]).key != (
        #[trigger] r[j]).key by {
            if j < n {
                assert(s[i].key != s[j].key);
            } else {
                assert(s[i].key != key);
            }
        }
        assert forall|i: int, j: int|
            0 <= i < r.len() && 0 <= j < r.len() && (#[trigger] r[i]).shown && (
            #[trigger] r[j]).shown implies i == j by {
            if i < n {
                assert(!s[i].shown);
            }
            if j < n {
                assert(!s[j].shown);
            }
        }
        assert forall|i: int| 0 <= i < r.len() && (#[trigger] r[i]).shown implies r[i].key
            == key by {
            if i < n {
                assert(!s[i].shown);
            }
        }
    }
}

/// An open request keeps the invariant, and leaves the task's panel as
/// the one panel on screen: every panel that is on screen afterwards is
/// the task's.
pub proof fn lemma_open_consistent(m: ManagerView, task: Seq<char>)
    requires
        consistent(m),
    ensures
        consistent(open_state(m, task)),
        shown(open_state(m, task).sessions, safe_id(task)),
        forall|i: int|
            0 <= i < open_state(m, task).sessions.len() && (#[trigger] open_state(
                m,
                task,
            ).sessions[i]).shown ==> open_state(m, task).sessions[i].key == safe_id(task),
{
    let key = safe_id(task);
    lemma_retired(m.sessions, key, tier_of(m.platform));
    lemma_revealed(retired(m.sessions, key, tier_of(m.platform)), key);
}

proof fn lemma_fullscreen_closed(s: Seq<SessionView>, origin: Seq<char>, key: Seq<char>)
    requires
        distinct_keys(s),
        single_shown(s),
    ensures
        distinct_keys(fullscreen_closed(s, origin, key)),
        single_shown(fullscreen_closed(s, origin, key)),
{
    let r = fullscreen_closed(s, origin, key);
    if r != s {
        let k = choose|k: Seq<char>| r == amended(s, k, None, Some(false));
        lemma_amended_consistent(s, k, None, Some(false));
    }
}

proof fn lemma_put_away(s: Seq<SessionView>, key: Seq<char>, tier: Tier)
    requires
        distinct_keys(s),
        single_shown(s),
    ensures
        distinct_keys(put_away(s, key, tier)),
        single_shown(put_away(s, key, tier)),
{
    match tier {
        Tier::Rich => lemma_amended_consistent(s, key, Some(false), None),
        Tier::Degraded => lemma_filter_part(s, |x: SessionView| x.key != key),
    }
}

/// Going home keeps the invariant.
pub proof fn lemma_home_consistent(m: ManagerView, origin: Seq<char>, task: Seq<char>)
    requires
        consistent(m),
    ensures
        consistent(home_state(m, origin, task)),
{
    let key = safe_id(task);
    lemma_fullscreen_closed(m.sessions, origin, key);
    lemma_put_away(fullscreen_closed(m.sessions, origin, key), key, tier_of(m.platform));
}

/// A close request keeps the invariant.
pub proof fn lemma_close_consistent(
    m: ManagerView,
    origin: Seq<char>,
    task: Option<Seq<char>>,
    measured: Option<FocusWindowGeometry>,
)
    requires
        consistent(m),
    ensures
        consistent(close_state(m, origin, task, measured)),
{
    match close_target(origin, task) {
        None => {},
        Some(key) => {
            lemma_fullscreen_closed(m.sessions, origin, key);
            lemma_put_away(fullscreen_closed(m.sessions, origin, key), key, tier_of(m.platform));
        },
    }
}

/// A handoff to fullscreen keeps the invariant.
pub proof fn lemma_enter_handoff_consistent(
    m: ManagerView,
    task: Seq<char>,
    measured: Option<FocusWindowGeometry>,
)
    requires
        consistent(m),
    ensures
        consistent(enter_handoff_state(m, task, measured)),
{
    lemma_amended_consistent(m.sessions, safe_id(task), Some(false), Some(true));
}

/// A handoff back to the panel keeps the invariant.
pub proof fn lemma_exit_handoff_consistent(m: ManagerView, origin: Seq<char>, task: Seq<char>)
    requires
        consistent(m),
    ensures
        consistent(exit_handoff_state(m, origin, task)),
{
    lemma_open_consistent(m, task);
    lemma_fullscreen_closed(open_state(m, task).sessions, origin, safe_id(task));
}

/// A failed creation keeps the invariant.
pub proof fn lemma_failure_consistent(m: ManagerView, label: Seq<char>)
    requires
        consistent(m),
    ensures
        consistent(failure_state(m, label)),
{
    let s = m.sessions;
    lemma_filter_part(s, |x: SessionView| x.key != crate::model::key_of_panel(label));
    let dropped = without(s, crate::model::key_of_panel(label));
    if m.returning is Some && m.returning->0.fullscreen is Some {
        lemma_amended_consistent(dropped, m.returning->0.fullscreen->0, None, Some(true));
    }
    if any_shown(s) {
        lemma_amended_consistent(s, crate::model::key_of_fullscreen(label), None, Some(false));
    } else {
        assert forall|i: int| 0 <= i < s.len() implies !(#[trigger] s[i]).shown by {}
        lemma_amended_consistent(
            s,
            crate::model::key_of_fullscreen(label),
            Some(true),
            Some(false),
        );
    }
}

/// Covering and uncovering the screen keep the invariant: they leave the
/// records as they are.
pub proof fn lemma_cover_consistent(
    m: ManagerView,
    origin: Seq<char>,
    measured: Option<FocusWindowGeometry>,
)
    requires
        consistent(m),
    ensures
        consistent(cover_state(m, origin, measured)),
        consistent(uncover_state(m, origin)),
{
}

/// What the records say after one of them was changed.
pub proof fn lemma_amended_reads(
    s: Seq<SessionView>,
    key: Seq<char>,
    show: Option<bool>,
    fullscreen: Option<bool>,
    k: Seq<char>,
)
    ensures
        holds(amended(s, key, show, fullscreen), k) == holds(s, k),
        shown(amended(s, key, show, fullscreen), k) == (if k == key && holds(s, key) {
            match show {
                Some(v) => v,
                None => shown(s, k),
            }
        } else {
            shown(s, k)
        }),
        in_fullscreen(amended(s, key, show, fullscreen), k) == (if k == key && holds(s, key) {
            match fullscreen {
                Some(v) => v,
                None => in_fullscreen(s, k),
            }
        } else {
            in_fullscreen(s, k)
        }),
{
    let a = amended(s, key, show, fullscreen);
    if holds(s, k) {
        let i = choose|i: int| 0 <= i < s.len() && (#[trigger] s[i]).key == k;
        assert(a[i].key == k);
    }
    if holds(a, k) {
        let i = choose|i: int| 0 <= i < a.len() && (#[trigger] a[i]).key == k;
        assert(s[i].key == k);
    }
    if shown(s, k) {
        let i = choose|i: int| 0 <= i < s.len() && (#[trigger] s[i]).key == k && s[i].shown;
        assert(a[i].key == k);
    }
    if shown(a, k) {
        let i = choose|i: int| 0 <= i < a.len() && (#[trigger] a[i]).key == k && a[i].shown;
        assert(s[i].key == k);
    }
    if in_fullscreen(s, k) {
        let i = choose|i: int| 0 <= i < s.len() && (#[trigger] s[i]).key == k && s[i].fullscreen;
        assert(a[i].key == k);
    }
    if in_fullscreen(a, k) {
        let i = choose|i: int|
            0 <= i < a.len() && (#[trigger] a[i]).key == k && a[i].fullscreen;
        assert(s[i].key == k);
    }
}

/// What the records say after one of them was dropped.
pub proof fn lemma_without_reads(s: Seq<SessionView>, key: Seq<char>, k: Seq<char>)
    ensures
        holds(without(s, key), k) == (holds(s, k) && k != key),
        shown(without(s, key), k) == (shown(s, k) && k != key),
{
    let pred = |x: SessionView| x.key != key;
    let w = without(s, key);
    lemma_filter_part(s, pred);
    if holds(s, k) && k != key {
        let i = choose|i: int| 0 <= i < s.len() && (#[trigger] s[i]).key == k;
        s.lemma_filter_contains(pred, i);
        let j = choose|j: int| 0 <= j < w.len() && w[j] == s[i];
        assert(w[j].key == k);
    }
    if holds(w, k) {
        let j = choose|j: int| 0 <= j < w.len() && (#[trigger] w[j]).key == k;
        let i = choose|i: int| 0 <= i < s.len() && s[i] == w[j];
        assert(s[i].key == k);
        assert(pred(w[j]));
    }
    if shown(s, k) && k != key {
        let i = choose|i: int| 0 <= i < s.len() && (#[trigger] s[i]).key == k && s[i].shown;
        s.lemma_filter_contains(pred, i);
        let j = choose|j: int| 0 <= j < w.len() && w[j] == s[i];
        assert(w[j].key == k && w[j].shown);
    }
    if shown(w, k) {
        let j = choose|j: int| 0 <= j < w.len() && (#[trigger] w[j]).key == k && w[j].shown;
        let i = choose|i: int| 0 <= i < s.len() && s[i] == w[j];
        assert(s[i].key == k && s[i].shown);
        assert(pred(w[j]));
    }
}

/// What the records say after the other panels left the screen.
pub proof fn lemma_retired_reads(s: Seq<SessionView>, key: Seq<char>, tier: Tier, k: Seq<char>)
    requires
        distinct_keys(s),
    ensures
        holds(retired(s, key, tier), k) == (holds(s, k) && (tier is Rich || k == key || !shown(
            s,
            k,
        ))),
        shown(retired(s, key, tier), k) == (shown(s, k) && k == key),
{
    let r = retired(s, key, tier);
    match tier {
        Tier::Rich => {
            if holds(s, k) {
                let i = choose|i: int| 0 <= i < s.len() && (#[trigger] s[i]).key == k;
                assert(r[i].key == k);
            }
            if holds(r, k) {
                let i = choose|i: int| 0 <= i < r.len() && (#[trigger] r[i]).key == k;
                assert(s[i].key == k);
            }
            if shown(s, k) && k == key {
                let i = choose|i: int|
                    0 <= i < s.len() && (#[trigger] s[i]).key == k && s[i].shown;
                assert(r[i].key == k && r[i].shown);
            }
            if shown(r, k) {
                let i = choose|i: int|
                    0 <= i < r.len() && (#[trigger] r[i]).key == k && r[i].shown;
                assert(s[i].key == k && s[i].shown);
            }
        },
        Tier::Degraded => {
            let pred = |x: SessionView| x.key == key || !x.shown;
            lemma_filter_part(s, pred);
            if holds(s, k) && (k == key || !shown(s, k)) {
                let i = choose|i: int| 0 <= i < s.len() && (#[trigger] s[i]).key == k;
                assert(s[i].shown ==> shown(s, k));
                s.lemma_filter_contains(pred, i);
                let j = choose|j: int| 0 <= j < r.len() && r[j] == s[i];
                assert(r[j].key == k);
            }
            if holds(r, k) {
                let j = choose|j: int| 0 <= j < r.len() && (#[trigger] r[j]).key == k;
                let i = choose|i: int| 0 <= i < s.len() && s[i] == r[j];
                assert(s[i].key == k);
                assert(pred(r[j]));
                if k != key && shown(s, k) {
                    let n = choose|n: int|
                        0 <= n < s.len() && (#[trigger] s[n]).key == k && s[n].shown;
                    if n < i {
                        assert(s[n].key != s[i].key);
                    } else if i < n {
                        assert(s[i].key != s[n].key);
                    }
                }
            }
            if shown(s, k) && k == key {
                let i = choose|i: int|
                    0 <= i < s.len() && (#[trigger] s[i]).key == k && s[i].shown;
                s.lemma_filter_contains(pred, i);
                let j = choose|j: int| 0 <= j < r.len() && r[j] == s[i];
                assert(r[j].key == k && r[j].shown);
            }
            if shown(r, k) {
                let j = choose|j: int|
                    0 <= j < r.len() && (#[trigger] r[j]).key == k && r[j].shown;
                let i = choose|i: int| 0 <= i < s.len() && s[i] == r[j];
                assert(s[i].key == k && s[i].shown);
                assert(pred(r[j]));
            }
        },
    }
}

/// What the records say after a panel was shown.
pub proof fn lemma_revealed_reads(s: Seq<SessionView>, key: Seq<char>, k: Seq<char>)
    ensures
        holds(revealed(s, key), k) == (holds(s, k) || k == key),
        shown(revealed(s, key), k) == (shown(s, k) || k == key),
{
    let r = revealed(s, key);
    if holds(s, key) {
        lemma_amended_reads(s, key, Some(true), None, k);
    } else {
        let n = s.len() as int;
        assert(r[n].key == key && r[n].shown);
        if holds(s, k) {
            let i = choose|i: int| 0 <= i < s.len() && (#[trigger] s[i]).key == k;
            assert(r[i].key == k);
        }
        if holds(r, k) && k != key {
            let i = choose|i: int| 0 <= i < r.len() && (#[trigger] r[i]).key == k;
            assert(s[i].key == k);
        }
        if shown(s, k) {
            let i = choose|i: int| 0 <= i < s.len() && (#[trigger] s[i]).key == k && s[i].shown;
            assert(r[i].key == k && r[i].shown);
        }
        if shown(r, k) && k != key {
            let i = choose|i: int| 0 <= i < r.len() && (#[trigger] r[i]).key == k && r[i].shown;
            assert(s[i].key == k && s[i].shown);
        }
    }
}

/// A record that is in fullscreen after records were dropped, panels
/// retired or a panel shown was in fullscreen before.
pub proof fn lemma_fullscreen_is_older(s: Seq<SessionView>, key: Seq<char>, tier: Tier, k: Seq<char>)
    ensures
        in_fullscreen(without(s, key), k) ==> in_fullscreen(s, k),
        in_fullscreen(retired(s, key, tier), k) ==> in_fullscreen(s, k),
        in_fullscreen(revealed(s, key), k) ==> in_fullscreen(s, k),
{
    let w = without(s, key);
    if in_fullscreen(w, k) {
        lemma_filter_part(s, |x: SessionView| x.key != key);
        let j = choose|j: int| 0 <= j < w.len() && (#[trigger] w[j]).key == k && w[j].fullscreen;
        let i = choose|i: int| 0 <= i < s.len() && s[i] == w[j];
        assert(s[i].key == k && s[i].fullscreen);
    }
    let r = retired(s, key, tier);
    if in_fullscreen(r, k) {
        let j = choose|j: int| 0 <= j < r.len() && (#[trigger] r[j]).key == k && r[j].fullscreen;
        match tier {
            Tier::Rich => {
                assert(s[j].key == k && s[j].fullscreen);
            },
            Tier::Degraded => {
                lemma_filter_part(s, |x: SessionView| x.key == key || !x.shown);
                let i = choose|i: int| 0 <= i < s.len() && s[i] == r[j];
                assert(s[i].key == k && s[i].fullscreen);
            },
        }
    }
    let v = revealed(s, key);
    if in_fullscreen(v, k) {
        let j = choose|j: int| 0 <= j < v.len() && (#[trigger] v[j]).key == k && v[j].fullscreen;
        if holds(s, key) {
            assert(s[j].key == k && s[j].fullscreen);
        } else {
            assert(j < s.len());
            assert(s[j].key == k && s[j].fullscreen);
        }
    }
}

} // verus!
