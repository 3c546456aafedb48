//! The lifecycle laws: what a whole run of host notifications does. The
//! coordinator's step relation is folded over a sequence of notifications,
//! and the laws state that bootstrap happens exactly once, that the winner
//! is the first resolved surface, that failed resolutions leave no trace,
//! and that every later surface gets exactly one full-extent
//! re-registration.

use vstd::prelude::*;

use crate::coordinator::{spec_step, BootstrapPlan, Directive, HostNotification, RenderWorkerPlan};
use crate::geometry::{clamped_fps, full_extent_spec, WindowInfo, FPS_CEILING};

verus! {

/// A surface notification whose native window resolved to a real handle.
pub open spec fn is_resolved_surface(n: HostNotification) -> bool {
    n matches HostNotification::SurfaceAvailable { window: Option::Some(_), .. }
}

/// A window-carrying notification whose native window resolved to null:
/// a surface, reset or remove call that the platform could not resolve.
pub open spec fn is_failed_resolution(n: HostNotification) -> bool {
    ||| n matches HostNotification::SurfaceAvailable { window: Option::None, .. }
    ||| n matches HostNotification::ResetWindow { handle: Option::None, .. }
    ||| n matches HostNotification::RemoveWindow { handle: Option::None }
}

/// The window a resolved surface notification carries.
pub open spec fn resolved_window(n: HostNotification) -> WindowInfo
    recommends
        is_resolved_surface(n),
{
    match n {
        HostNotification::SurfaceAvailable { window: Option::Some(w), .. } => w,
        _ => arbitrary(),
    }
}

/// The bootstrap plan a resolved surface notification gives rise to: input
/// init with the window's extent, and a render worker on that window with
/// the clamped frame rate.
pub open spec fn bootstrap_plan_of(n: HostNotification) -> BootstrapPlan
    recommends
        is_resolved_surface(n),
{
    match n {
        HostNotification::SurfaceAvailable { window: Option::Some(w), xdpi, ydpi, fps } => {
            BootstrapPlan {
                input_width: w.width,
                input_height: w.height,
                worker: RenderWorkerPlan {
                    window: w.handle,
                    width: w.width,
                    height: w.height,
                    xdpi,
                    ydpi,
                    fps: clamped_fps(fps),
                },
            }
        },
        _ => arbitrary(),
    }
}

/// The re-registration a resolved surface notification gets once started.
pub open spec fn reregistration_of(n: HostNotification) -> Directive
    recommends
        is_resolved_surface(n),
{
    Directive::Reregister(full_extent_spec(resolved_window(n).handle, resolved_window(n).width,
        resolved_window(n).height))
}

/// The started flag after a run of notifications from a given flag value.
pub open spec fn state_after(started: bool, ns: Seq<HostNotification>) -> bool
    decreases ns.len(),
{
    if ns.len() == 0 {
        started
    } else {
        state_after(spec_step(started, ns[0]).0, ns.drop_first())
    }
}

/// The directives a run of notifications produces, one per notification.
pub open spec fn directives_of(started: bool, ns: Seq<HostNotification>) -> Seq<Directive>
    decreases ns.len(),
{
    if ns.len() == 0 {
        Seq::empty()
    } else {
        seq![spec_step(started, ns[0]).1] + directives_of(spec_step(started, ns[0]).0,
            ns.drop_first())
    }
}

/// How many of a run's directives are full bootstraps.
pub open spec fn bootstrap_count(ds: Seq<Directive>) -> int
    decreases ds.len(),
{
    if ds.len() == 0 {
        0
    } else {
        (if ds[0] is Bootstrap {
            1int
        } else {
            0int
        }) + bootstrap_count(ds.drop_first())
    }
}

proof fn lemma_count_cons(d: Directive, ds: Seq<Directive>)
    ensures
        bootstrap_count(seq![d] + ds) == (if d is Bootstrap {
            1int
        } else {
            0int
        }) + bootstrap_count(ds),
{
    let s = seq![d] + ds;
    assert(s[0] == d);
    assert(s.drop_first() =~= ds);
}

/// Once started, always started: no later run of notifications ever clears
/// the flag, bootstraps again, or skips a re-registration — every resolved
/// surface among them gets exactly its own full-extent re-registration.
pub proof fn lemma_after_start(ns: Seq<HostNotification>)
    ensures
        state_after(true, ns),
        directives_of(true, ns).len() == ns.len(),
        bootstrap_count(directives_of(true, ns)) == 0,
        forall|i: int|
            0 <= i < ns.len() && is_resolved_surface(ns[i]) ==> directives_of(true, ns)[i]
                == reregistration_of(ns[i]),
    decreases ns.len(),
{
    if ns.len() > 0 {
        let d0 = spec_step(true, ns[0]);
        assert(d0.0);
        let rest = ns.drop_first();
        lemma_after_start(rest);
        lemma_count_cons(d0.1, directives_of(true, rest));
        assert forall|i: int|
            0 <= i < ns.len() && is_resolved_surface(ns[i]) implies directives_of(true, ns)[i]
            == reregistration_of(ns[i]) by {
            if i > 0 {
                assert(rest[i - 1] == ns[i]);
                assert(directives_of(true, ns)[i] == directives_of(true, rest)[i - 1]);
            }
        }
    }
}

/// Exactly-once bootstrap: from the not-started state, a run of
/// notifications bootstraps at most once, and does bootstrap exactly when
/// some notification in it carries a resolved surface.
pub proof fn lemma_bootstrap_exactly_once(ns: Seq<HostNotification>)
    ensures
        bootstrap_count(directives_of(false, ns)) <= 1,
        (bootstrap_count(directives_of(false, ns)) == 1) <==> (exists|i: int|
            0 <= i < ns.len() && is_resolved_surface(ns[i])),
    decreases ns.len(),
{
    if ns.len() > 0 {
        let d0 = spec_step(false, ns[0]);
        let rest = ns.drop_first();
        if is_resolved_surface(ns[0]) {
            assert(d0.1 is Bootstrap);
            assert(d0.0);
            lemma_after_start(rest);
            lemma_count_cons(d0.1, directives_of(true, rest));
        } else {
            assert(!(d0.1 is Bootstrap));
            assert(!d0.0);
            lemma_bootstrap_exactly_once(rest);
            lemma_count_cons(d0.1, directives_of(false, rest));
            if exists|i: int| 0 <= i < ns.len() && is_resolved_surface(ns[i]) {
                let i = choose|i: int| 0 <= i < ns.len() && is_resolved_surface(ns[i]);
                assert(i > 0);
                assert(rest[i - 1] == ns[i]);
                assert(exists|j: int| 0 <= j < rest.len() && is_resolved_surface(rest[j]));
            }
            if exists|j: int| 0 <= j < rest.len() && is_resolved_surface(rest[j]) {
                let j = choose|j: int| 0 <= j < rest.len() && is_resolved_surface(rest[j]);
                assert(ns[j + 1] == rest[j]);
                assert(exists|i: int| 0 <= i < ns.len() && is_resolved_surface(ns[i]));
            }
        }
    }
}

/// The race has one winner and it is the first resolved surface: its
/// directive is the full bootstrap built from its own geometry, no other
/// notification bootstraps, and every later resolved surface gets only its
/// full-extent re-registration.
pub proof fn lemma_first_resolved_bootstraps(ns: Seq<HostNotification>, k: int)
    requires
        0 <= k < ns.len(),
        is_resolved_surface(ns[k]),
        forall|j: int| 0 <= j < k ==> !is_resolved_surface(ns[j]),
    ensures
        directives_of(false, ns).len() == ns.len(),
        directives_of(false, ns)[k] == Directive::Bootstrap(bootstrap_plan_of(ns[k])),
        forall|i: int|
            0 <= i < ns.len() && i != k ==> !((#[trigger] directives_of(false, ns)[i])
                is Bootstrap),
        forall|i: int|
            k < i < ns.len() && is_resolved_surface(ns[i]) ==> directives_of(false, ns)[i]
                == reregistration_of(ns[i]),
    decreases ns.len(),
{
    lemma_run_length(false, ns);
    let d0 = spec_step(false, ns[0]);
    let rest = ns.drop_first();
    if k == 0 {
        assert(d0.0);
        assert(d0.1 == Directive::Bootstrap(bootstrap_plan_of(ns[0])));
        lemma_after_start(rest);
        assert forall|i: int|
            0 <= i < ns.len() && i != 0 implies !((#[trigger] directives_of(false, ns)[i])
            is Bootstrap) by {
            assert(rest[i - 1] == ns[i]);
            assert(directives_of(false, ns)[i] == directives_of(true, rest)[i - 1]);
            if directives_of(true, rest)[i - 1] is Bootstrap {
                lemma_count_nonneg_member(directives_of(true, rest), i - 1);
            }
        }
        assert forall|i: int|
            0 < i < ns.len() && is_resolved_surface(ns[i]) implies directives_of(false, ns)[i]
            == reregistration_of(ns[i]) by {
            assert(rest[i - 1] == ns[i]);
            assert(directives_of(false, ns)[i] == directives_of(true, rest)[i - 1]);
        }
    } else {
        assert(!is_resolved_surface(ns[0]));
        assert(!d0.0);
        assert(!(d0.1 is Bootstrap));
        assert forall|j: int| 0 <= j < k - 1 implies !is_resolved_surface(rest[j]) by {
            assert(rest[j] == ns[j + 1]);
        }
        assert(rest[k - 1] == ns[k]);
        lemma_first_resolved_bootstraps(rest, k - 1);
        assert forall|i: int|
            0 <= i < ns.len() && i != k implies !((#[trigger] directives_of(false, ns)[i])
            is Bootstrap) by {
            if i > 0 {
                assert(rest[i - 1] == ns[i]);
                assert(directives_of(false, ns)[i] == directives_of(false, rest)[i - 1]);
            }
        }
        assert forall|i: int|
            k < i < ns.len() && is_resolved_surface(ns[i]) implies directives_of(false, ns)[i]
            == reregistration_of(ns[i]) by {
            assert(rest[i - 1] == ns[i]);
            assert(directives_of(false, ns)[i] == directives_of(false, rest)[i - 1]);
        }
        assert(directives_of(false, ns)[k] == directives_of(false, rest)[k - 1]);
    }
}

/// A run issues one directive per notification.
pub proof fn lemma_run_length(started: bool, ns: Seq<HostNotification>)
    ensures
        directives_of(started, ns).len() == ns.len(),
    decreases ns.len(),
{
    if ns.len() > 0 {
        lemma_run_length(spec_step(started, ns[0]).0, ns.drop_first());
    }
}

proof fn lemma_count_nonneg_member(ds: Seq<Directive>, i: int)
    requires
        0 <= i < ds.len(),
        ds[i] is Bootstrap,
    ensures
        bootstrap_count(ds) >= 1,
    decreases ds.len(),
{
    lemma_count_cons(ds[0], ds.drop_first());
    assert(seq![ds[0]] + ds.drop_first() =~= ds);
    if i > 0 {
        lemma_count_nonneg_member(ds.drop_first(), i - 1);
    } else {
        lemma_count_nonneg(ds.drop_first());
    }
}

proof fn lemma_count_nonneg(ds: Seq<Directive>)
    ensures
        bootstrap_count(ds) >= 0,
    decreases ds.len(),
{
    if ds.len() > 0 {
        lemma_count_nonneg(ds.drop_first());
    }
}

/// The flag's whole story from a fresh process: after any run it is set
/// exactly when some notification in the run carried a resolved surface —
/// nothing else sets it, and nothing ever clears it.
pub proof fn lemma_flag_set_iff_resolved_surface(ns: Seq<HostNotification>)
    ensures
        state_after(false, ns) <==> (exists|i: int|
            0 <= i < ns.len() && is_resolved_surface(ns[i])),
    decreases ns.len(),
{
    if ns.len() > 0 {
        let rest = ns.drop_first();
        if is_resolved_surface(ns[0]) {
            lemma_after_start(rest);
        } else {
            lemma_flag_set_iff_resolved_surface(rest);
            if exists|i: int| 0 <= i < ns.len() && is_resolved_surface(ns[i]) {
                let i = choose|i: int| 0 <= i < ns.len() && is_resolved_surface(ns[i]);
                assert(i > 0);
                assert(rest[i - 1] == ns[i]);
                assert(exists|j: int| 0 <= j < rest.len() && is_resolved_surface(rest[j]));
            }
            if exists|j: int| 0 <= j < rest.len() && is_resolved_surface(rest[j]) {
                let j = choose|j: int| 0 <= j < rest.len() && is_resolved_surface(rest[j]);
                assert(ns[j + 1] == rest[j]);
                assert(exists|i: int| 0 <= i < ns.len() && is_resolved_surface(ns[i]));
            }
        }
    }
}

/// Resolution-failure isolation: a notification whose window resolved to
/// null — a surface, reset or remove call alike — aborts its own call only,
/// with no renderer call directed; the flag is unchanged and every later
/// notification produces exactly what it would have produced had the failed
/// call never happened.
pub proof fn lemma_failed_resolution_isolated(started: bool, k: HostNotification, ns: Seq<
    HostNotification>)
    requires
        is_failed_resolution(k),
    ensures
        spec_step(started, k).0 == started,
        spec_step(started, k).1 == Directive::Abort,
        directives_of(started, seq![k] + ns) == seq![Directive::Abort] + directives_of(started,
            ns),
        state_after(started, seq![k] + ns) == state_after(started, ns),
{
    let whole = seq![k] + ns;
    assert(whole[0] == k);
    assert(whole.drop_first() =~= ns);
}

/// Frame-rate clamp: a request above the ceiling reaches the render loop as
/// the ceiling; a request at or below it reaches the render loop unchanged.
pub proof fn lemma_frame_rate_clamp(fps: i32)
    ensures
        fps > FPS_CEILING ==> clamped_fps(fps) == FPS_CEILING,
        fps <= FPS_CEILING ==> clamped_fps(fps) == fps,
{
}

/// Touch forwarding: a null backing pointer is dropped with no forwarding
/// and no state change; a non-null one is forwarded exactly once with the
/// same payload.
pub proof fn lemma_touch_forwarding(started: bool, backing: Option<i64>)
    ensures
        spec_step(started, HostNotification::Touch { backing }).0 == started,
        backing matches Option::Some(p) ==> spec_step(started, HostNotification::Touch { backing }).1
            == (if p != 0 {
            Directive::ForwardTouch(p)
        } else {
            Directive::Ignore
        }),
        backing is None ==> spec_step(started, HostNotification::Touch { backing }).1
            == Directive::Ignore,
{
}

} // verus!
