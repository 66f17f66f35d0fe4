//! What the commands do to the surfaces on screen, as far as the laws of
//! the manager speak of it: which surfaces exist, which are visible, and
//! where the last command left their corner and their size.

use crate::action::ActionView;
use vstd::prelude::*;

verus! {

/// A surface on the desktop. Corner and size are `None` as long as the
/// window system alone has chosen them.
pub struct SurfaceView {
    pub visible: bool,
    pub corner: Option<(int, int)>,
    pub size: Option<(int, int)>,
}

/// The surfaces on the desktop, by label.
pub type Desktop = Map<Seq<char>, SurfaceView>;

/// The desktop with the surface under `label` changed, if it is there.
pub open spec fn touched(
    d: Desktop,
    label: Seq<char>,
    change: spec_fn(SurfaceView) -> SurfaceView,
) -> Desktop {
    if d.contains_key(label) {
        d.insert(label, change(d[label]))
    } else {
        d
    }
}

/// The desktop after one command. Commands that only send messages, or
/// that concern the primary window, leave the surfaces as they are.
pub open spec fn effect(d: Desktop, a: ActionView) -> Desktop {
    match a {
        ActionView::Hide { label } => touched(
            d,
            label,
            |s: SurfaceView| SurfaceView { visible: false, corner: s.corner, size: s.size },
        ),
        ActionView::Close { label } => d.remove(label),
        ActionView::CreatePanel { label, width, height, .. } => d.insert(
            label,
            SurfaceView { visible: true, corner: None, size: Some((width as int, height as int)) },
        ),
        ActionView::CreateFullscreen { label, .. } => d.insert(
            label,
            SurfaceView { visible: true, corner: None, size: None },
        ),
        ActionView::Raise { label } => touched(
            d,
            label,
            |s: SurfaceView| SurfaceView { visible: true, corner: s.corner, size: s.size },
        ),
        ActionView::RaiseFullscreen { label } => touched(
            d,
            label,
            |s: SurfaceView| SurfaceView { visible: true, corner: None, size: None },
        ),
        ActionView::Resize { label, width, height } => touched(
            d,
            label,
            |s: SurfaceView|
                SurfaceView {
                    visible: s.visible,
                    corner: s.corner,
                    size: Some((width as int, height as int)),
                },
        ),
        ActionView::MoveTo { label, x, y } => touched(
            d,
            label,
            |s: SurfaceView| SurfaceView { visible: s.visible, corner: Some((x, y)), size: s.size },
        ),
        _ => d,
    }
}

/// The desktop after a list of commands, carried out from front to back.
pub open spec fn run(d: Desktop, plan: Seq<ActionView>) -> Desktop
    decreases plan.len(),
{
    if plan.len() == 0 {
        d
    } else {
        run(effect(d, plan[0]), plan.drop_first())
    }
}

/// Carrying out two lists in a row is carrying out their concatenation.
pub proof fn lemma_run_concat(d: Desktop, first: Seq<ActionView>, second: Seq<ActionView>)
    ensures
        run(d, first + second) == run(run(d, first), second),
    decreases first.len(),
{
    if first.len() == 0 {
        assert(first + second =~= second);
    } else {
        assert((first + second)[0] == first[0]);
        assert((first + second).drop_first() =~= first.drop_first() + second);
        lemma_run_concat(effect(d, first[0]), first.drop_first(), second);
    }
}

/// The surface that `a` creates, raises, hides, closes, moves or resizes,
/// if it does any of that.
pub open spec fn target(a: ActionView) -> Option<Seq<char>> {
    match a {
        ActionView::Hide { label } => Some(label),
        ActionView::Close { label } => Some(label),
        ActionView::CreatePanel { label, .. } => Some(label),
        ActionView::CreateFullscreen { label, .. } => Some(label),
        ActionView::Raise { label } => Some(label),
        ActionView::RaiseFullscreen { label } => Some(label),
        ActionView::Resize { label, .. } => Some(label),
        ActionView::MoveTo { label, .. } => Some(label),
        _ => None,
    }
}

/// A list of commands leaves alone every surface that none of them is
/// aimed at.
pub proof fn lemma_run_elsewhere(d: Desktop, plan: Seq<ActionView>, label: Seq<char>)
    requires
        forall|i: int| 0 <= i < plan.len() ==> target(#[trigger] plan[i]) != Some(label),
    ensures
        run(d, plan).contains_key(label) == d.contains_key(label),
        d.contains_key(label) ==> run(d, plan)[label] == d[label],
    decreases plan.len(),
{
    if plan.len() > 0 {
        assert(target(plan[0]) != Some(label));
        assert forall|i: int| 0 <= i < plan.drop_first().len() implies target(
            #[trigger] plan.drop_first()[i],
        ) != Some(label) by {
            assert(plan.drop_first()[i] == plan[i + 1]);
        }
        lemma_run_elsewhere(effect(d, plan[0]), plan.drop_first(), label);
    }
}

/// Every command of the list hides or closes a surface.
pub open spec fn only_retires(plan: Seq<ActionView>) -> bool {
    forall|i: int| 0 <= i < plan.len() ==> (#[trigger] plan[i]) is Hide || plan[i] is Close
}

/// Every command of the list that is aimed at a surface is aimed at the
/// one under `label`.
pub open spec fn aims_only_at(plan: Seq<ActionView>, label: Seq<char>) -> bool {
    forall|i: int|
        0 <= i < plan.len() ==> target(#[trigger] plan[i]) is None || target(plan[i]) == Some(
            label,
        )
}

/// The surface under `label` is on screen.
pub open spec fn on_screen(d: Desktop, label: Seq<char>) -> bool {
    d.contains_key(label) && d[label].visible
}

/// Commands that only hide or close put nothing on screen.
pub proof fn lemma_retiring_shows_nothing(d: Desktop, plan: Seq<ActionView>, label: Seq<char>)
    requires
        only_retires(plan),
        on_screen(run(d, plan), label),
    ensures
        on_screen(d, label),
    decreases plan.len(),
{
    if plan.len() > 0 {
        assert(plan[0] is Hide || plan[0] is Close);
        assert forall|i: int| 0 <= i < plan.drop_first().len() implies (
        #[trigger] plan.drop_first()[i]) is Hide || plan.drop_first()[i] is Close by {
            assert(plan.drop_first()[i] == plan[i + 1]);
        }
        lemma_retiring_shows_nothing(effect(d, plan[0]), plan.drop_first(), label);
    }
}

/// After commands that only hide or close, a surface that one of them is
/// aimed at is off the screen.
pub proof fn lemma_retired_is_off(d: Desktop, plan: Seq<ActionView>, label: Seq<char>, at: int)
    requires
        only_retires(plan),
        0 <= at < plan.len(),
        target(plan[at]) == Some(label),
    ensures
        !on_screen(run(d, plan), label),
    decreases plan.len(),
{
    assert(plan[0] is Hide || plan[0] is Close);
    assert forall|i: int| 0 <= i < plan.drop_first().len() implies (
    #[trigger] plan.drop_first()[i]) is Hide || plan.drop_first()[i] is Close by {
        assert(plan.drop_first()[i] == plan[i + 1]);
    }
    if at == 0 {
        assert(plan[at] is Hide || plan[at] is Close);
        assert(!on_screen(effect(d, plan[0]), label));
        if on_screen(run(d, plan), label) {
            lemma_retiring_shows_nothing(effect(d, plan[0]), plan.drop_first(), label);
        }
    } else {
        assert(plan.drop_first()[at - 1] == plan[at]);
        lemma_retired_is_off(effect(d, plan[0]), plan.drop_first(), label, at - 1);
    }
}

/// The first commands of a list that only hides or closes do only that.
pub proof fn lemma_prefix_retires(plan: Seq<ActionView>, k: int)
    requires
        only_retires(plan),
        0 <= k <= plan.len(),
    ensures
        only_retires(plan.take(k)),
{
    assert forall|i: int| 0 <= i < plan.take(k).len() implies (#[trigger] plan.take(k)[i]) is Hide
        || plan.take(k)[i] is Close by {
        assert(plan.take(k)[i] == plan[i]);
    }
}

/// The first commands of a list that aims at one surface aim at it.
pub proof fn lemma_prefix_aims(plan: Seq<ActionView>, label: Seq<char>, k: int)
    requires
        aims_only_at(plan, label),
        0 <= k <= plan.len(),
    ensures
        aims_only_at(plan.take(k), label),
{
    assert forall|i: int| 0 <= i < plan.take(k).len() implies target(#[trigger] plan.take(k)[i])
        is None || target(plan.take(k)[i]) == Some(label) by {
        assert(plan.take(k)[i] == plan[i]);
    }
}

/// Commands aimed at one surface leave every other surface alone.
pub proof fn lemma_aimed_elsewhere(
    d: Desktop,
    plan: Seq<ActionView>,
    label: Seq<char>,
    other: Seq<char>,
)
    requires
        aims_only_at(plan, label),
        other != label,
    ensures
        run(d, plan).contains_key(other) == d.contains_key(other),
        d.contains_key(other) ==> run(d, plan)[other] == d[other],
{
    assert forall|i: int| 0 <= i < plan.len() implies target(#[trigger] plan[i]) != Some(
        other,
    ) by {
        assert(target(plan[i]) is None || target(plan[i]) == Some(label));
    }
    lemma_run_elsewhere(d, plan, other);
}

/// `a` changes neither whether the surface under `label` exists nor
/// whether it is on screen.
pub open spec fn steady_for(a: ActionView, label: Seq<char>) -> bool {
    match a {
        ActionView::Hide { label: l } => l != label,
        ActionView::Close { label: l } => l != label,
        ActionView::CreatePanel { label: l, .. } => l != label,
        ActionView::CreateFullscreen { label: l, .. } => l != label,
        ActionView::Raise { label: l } => l != label,
        ActionView::RaiseFullscreen { label: l } => l != label,
        _ => true,
    }
}

/// Every command of the list is steady for the surface under `label`.
pub open spec fn all_steady_for(plan: Seq<ActionView>, label: Seq<char>) -> bool {
    forall|i: int| 0 <= i < plan.len() ==> steady_for(#[trigger] plan[i], label)
}

/// Commands that are steady for a surface leave it existing or not, and
/// on screen or not, as it was.
pub proof fn lemma_run_steady(d: Desktop, plan: Seq<ActionView>, label: Seq<char>)
    requires
        all_steady_for(plan, label),
    ensures
        run(d, plan).contains_key(label) == d.contains_key(label),
        d.contains_key(label) ==> run(d, plan)[label].visible == d[label].visible,
    decreases plan.len(),
{
    if plan.len() > 0 {
        assert(steady_for(plan[0], label));
        assert forall|i: int| 0 <= i < plan.drop_first().len() implies steady_for(
            #[trigger] plan.drop_first()[i],
            label,
        ) by {
            assert(plan.drop_first()[i] == plan[i + 1]);
        }
        lemma_run_steady(effect(d, plan[0]), plan.drop_first(), label);
    }
}

/// After commands that only hide or close, a surface that one of them
/// closes is gone.
pub proof fn lemma_closed_is_gone(d: Desktop, plan: Seq<ActionView>, label: Seq<char>, at: int)
    requires
        only_retires(plan),
        0 <= at < plan.len(),
        plan[at] == (ActionView::Close { label }),
    ensures
        !run(d, plan).contains_key(label),
    decreases plan.len(),
{
    assert(plan[0] is Hide || plan[0] is Close);
    assert forall|i: int| 0 <= i < plan.drop_first().len() implies (
    #[trigger] plan.drop_first()[i]) is Hide || plan.drop_first()[i] is Close by {
        assert(plan.drop_first()[i] == plan[i + 1]);
    }
    if at == 0 {
        lemma_retiring_adds_nothing(effect(d, plan[0]), plan.drop_first(), label);
    } else {
        assert(plan.drop_first()[at - 1] == plan[at]);
        lemma_closed_is_gone(effect(d, plan[0]), plan.drop_first(), label, at - 1);
    }
}

/// Commands that only hide or close create nothing.
pub proof fn lemma_retiring_adds_nothing(d: Desktop, plan: Seq<ActionView>, label: Seq<char>)
    requires
        only_retires(plan),
        !d.contains_key(label),
    ensures
        !run(d, plan).contains_key(label),
    decreases plan.len(),
{
    if plan.len() > 0 {
        assert(plan[0] is Hide || plan[0] is Close);
        assert forall|i: int| 0 <= i < plan.drop_first().len() implies (
        #[trigger] plan.drop_first()[i]) is Hide || plan.drop_first()[i] is Close by {
            assert(plan.drop_first()[i] == plan[i + 1]);
        }
        lemma_retiring_adds_nothing(effect(d, plan[0]), plan.drop_first(), label);
    }
}

/// Commands that only hide keep every surface.
pub proof fn lemma_hiding_keeps(d: Desktop, plan: Seq<ActionView>, label: Seq<char>)
    requires
        forall|i: int| 0 <= i < plan.len() ==> (#[trigger] plan[i]) is Hide,
    ensures
        run(d, plan).contains_key(label) == d.contains_key(label),
    decreases plan.len(),
{
    if plan.len() > 0 {
        assert(plan[0] is Hide);
        assert forall|i: int| 0 <= i < plan.drop_first().len() implies (
        #[trigger] plan.drop_first()[i]) is Hide by {
            assert(plan.drop_first()[i] == plan[i + 1]);
        }
        lemma_hiding_keeps(effect(d, plan[0]), plan.drop_first(), label);
    }
}

/// A surface that is on screen stays there through commands that neither
/// hide nor close it.
pub proof fn lemma_run_stays_visible(d: Desktop, plan: Seq<ActionView>, label: Seq<char>)
    requires
        d.contains_key(label),
        d[label].visible,
        forall|i: int|
            0 <= i < plan.len() ==> #[trigger] plan[i] != (ActionView::Hide { label })
                && plan[i] != (ActionView::Close { label }),
    ensures
        run(d, plan).contains_key(label),
        run(d, plan)[label].visible,
    decreases plan.len(),
{
    if plan.len() > 0 {
        assert(plan[0] != (ActionView::Hide { label }) && plan[0] != (ActionView::Close { label }));
        assert forall|i: int| 0 <= i < plan.drop_first().len() implies #[trigger] plan.drop_first()[i]
            != (ActionView::Hide { label }) && plan.drop_first()[i] != (ActionView::Close {
            label,
        }) by {
            assert(plan.drop_first()[i] == plan[i + 1]);
        }
        lemma_run_stays_visible(effect(d, plan[0]), plan.drop_first(), label);
    }
}

/// Two desktops agree on whether the surface under `label` exists and
/// whether it is on screen.
pub open spec fn agree_at(d: Desktop, e: Desktop, label: Seq<char>) -> bool {
    &&& d.contains_key(label) == e.contains_key(label)
    &&& d.contains_key(label) ==> d[label].visible == e[label].visible
}

/// Desktops that agree on a surface still do after the same commands.
pub proof fn lemma_run_agrees(d: Desktop, e: Desktop, plan: Seq<ActionView>, label: Seq<char>)
    requires
        agree_at(d, e, label),
    ensures
        agree_at(run(d, plan), run(e, plan), label),
    decreases plan.len(),
{
    if plan.len() > 0 {
        lemma_run_agrees(effect(d, plan[0]), effect(e, plan[0]), plan.drop_first(), label);
    }
}

/// Where all commands but one are steady for a surface, that one decides
/// what becomes of it.
pub proof fn lemma_run_pivot(d: Desktop, plan: Seq<ActionView>, label: Seq<char>, at: int)
    requires
        0 <= at < plan.len(),
        forall|i: int| 0 <= i < plan.len() && i != at ==> steady_for(#[trigger] plan[i], label),
    ensures
        agree_at(run(d, plan), effect(d, plan[at]), label),
{
    let before = plan.take(at);
    let pivot = seq![plan[at]];
    let rest = plan.skip(at + 1);
    assert(plan =~= before + pivot + rest);
    lemma_run_concat(d, before + pivot, rest);
    lemma_run_concat(d, before, pivot);
    assert(all_steady_for(before, label)) by {
        assert forall|i: int| 0 <= i < before.len() implies steady_for(
            #[trigger] before[i],
            label,
        ) by {
            assert(before[i] == plan[i]);
        }
    }
    assert(all_steady_for(rest, label)) by {
        assert forall|i: int| 0 <= i < rest.len() implies steady_for(#[trigger] rest[i], label) by {
            assert(rest[i] == plan[at + 1 + i]);
        }
    }
    let d1 = run(d, before);
    lemma_run_steady(d, before, label);
    lemma_run_agrees(d1, d, pivot, label);
    assert(run(d, pivot) == effect(d, plan[at])) by {
        reveal_with_fuel(run, 2);
    }
    lemma_run_steady(run(d1, pivot), rest, label);
}

/// A surface is on screen after commands of which one creates it, or
/// raises it where it exists, and none after that one hides or closes it.
pub proof fn lemma_brought_on_screen(d: Desktop, plan: Seq<ActionView>, label: Seq<char>, at: int)
    requires
        0 <= at < plan.len(),
        plan[at] matches ActionView::CreatePanel { label: l, .. } && l == label || plan[at] == (
        ActionView::Raise { label }) && run(d, plan.take(at)).contains_key(label),
        forall|i: int|
            at < i < plan.len() ==> #[trigger] plan[i] != (ActionView::Hide { label }) && plan[i]
                != (ActionView::Close { label }),
    ensures
        on_screen(run(d, plan), label),
{
    let before = plan.take(at);
    let pivot = seq![plan[at]];
    let rest = plan.skip(at + 1);
    assert(plan =~= before + pivot + rest);
    lemma_run_concat(d, before + pivot, rest);
    lemma_run_concat(d, before, pivot);
    let d1 = run(d, before);
    assert(run(d1, pivot) == effect(d1, plan[at])) by {
        reveal_with_fuel(run, 2);
    }
    assert(on_screen(effect(d1, plan[at]), label));
    assert forall|i: int| 0 <= i < rest.len() implies #[trigger] rest[i] != (ActionView::Hide {
        label,
    }) && rest[i] != (ActionView::Close { label }) by {
        assert(rest[i] == plan[at + 1 + i]);
    }
    lemma_run_stays_visible(run(d1, pivot), rest, label);
}

} // verus!
