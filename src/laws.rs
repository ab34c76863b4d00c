use vstd::prelude::*;

use crate::action::outcome_of;
use crate::component::Component;
use crate::task::{handled, ComponentMessage, ComponentTask, Drive, Next, Rendered};
use crate::lifecycle::{count, fresh, is_envelope_kept, run, step_spec, Decision, Event, Outcome, TaskState};

verus! {

proof fn lemma_count_prepend(d: Decision, ds: Seq<Decision>, x: Decision)
    ensures
        count(seq![d] + ds, x) == (if d == x { 1nat } else { 0nat }) + count(ds, x),
{
    assert((seq![d] + ds).drop_first() =~= ds);
}

proof fn lemma_run_prepend(s: TaskState, e: Event, evs: Seq<Event>)
    ensures
        run(s, seq![e] + evs) == ({
            let (s1, d) = step_spec(s, e);
            let (s2, ds) = run(s1, evs);
            (s2, seq![d] + ds)
        }),
{
    assert((seq![e] + evs).drop_first() =~= evs);
}

/// A task that is over stays over whatever arrives afterwards: its state does
/// not change and every envelope is dropped unprocessed.
pub proof fn lemma_concluded_stays_concluded(s: TaskState, evs: Seq<Event>)
    requires
        !s.live,
    ensures
        run(s, evs).0 == s,
        run(s, evs).1.len() == evs.len(),
        forall|i: int| 0 <= i < evs.len() ==> run(s, evs).1[i] == Decision::Discard,
        forall|d: Decision| d != Decision::Discard ==> count(#[trigger] run(s, evs).1, d) == 0,
    decreases evs.len(),
{
    if evs.len() > 0 {
        let rest = evs.drop_first();
        lemma_concluded_stays_concluded(s, rest);
        let ds = run(s, rest).1;
        assert forall|d: Decision| d != Decision::Discard implies count(#[trigger] run(s, evs).1, d) == 0 by {
            lemma_count_prepend(Decision::Discard, ds, d);
        }
    }
}

/// In one drain that ends on an empty stream, transitions that ask for
/// nothing never lead to a derivation of the view or a patch.
pub proof fn lemma_quiet_updates_never_patch(s: TaskState, evs: Seq<Event>)
    requires
        s.live,
        !s.render_pending,
        forall|i: int| 0 <= i < evs.len() ==> evs[i] == Event::Transition(Outcome::Nothing),
    ensures
        count(run(s, evs.push(Event::Empty)).1, Decision::Patch) == 0,
        run(s, evs.push(Event::Empty)).1.last() == Decision::Suspend,
        run(s, evs.push(Event::Empty)).0 == s,
    decreases evs.len(),
{
    if evs.len() == 0 {
        assert(evs.push(Event::Empty) =~= seq![Event::Empty] + evs);
        lemma_run_prepend(s, Event::Empty, evs);
        lemma_count_prepend(Decision::Suspend, Seq::<Decision>::empty(), Decision::Patch);
    } else {
        let rest = evs.drop_first();
        assert(evs.push(Event::Empty) =~= seq![evs[0]] + rest.push(Event::Empty));
        lemma_quiet_updates_never_patch(s, rest);
        lemma_run_prepend(s, evs[0], rest.push(Event::Empty));
        lemma_count_prepend(Decision::Proceed, run(s, rest.push(Event::Empty)).1, Decision::Patch);
    }
}

proof fn lemma_drain(s: TaskState, evs: Seq<Event>)
    requires
        s.live,
        s.rendered,
        forall|i: int| 0 <= i < evs.len() ==> is_envelope_kept(evs[i]),
    ensures
        ({
            let r = run(s, evs.push(Event::Empty));
            let asked = s.render_pending || evs.contains(Event::Transition(Outcome::Render));
            &&& count(r.1, Decision::Patch) == (if asked { 1nat } else { 0nat })
            &&& r.1.last() == (if asked { Decision::Patch } else { Decision::Suspend })
            &&& r.0.live && r.0.rendered && !r.0.render_pending
        }),
    decreases evs.len(),
{
    let render = Event::Transition(Outcome::Render);
    if evs.len() == 0 {
        assert(evs.push(Event::Empty) =~= seq![Event::Empty] + evs);
        lemma_run_prepend(s, Event::Empty, evs);
        let (s1, d) = step_spec(s, Event::Empty);
        lemma_count_prepend(d, Seq::<Decision>::empty(), Decision::Patch);
    } else {
        let e = evs[0];
        let rest = evs.drop_first();
        assert(evs.push(Event::Empty) =~= seq![e] + rest.push(Event::Empty));
        let (s1, d) = step_spec(s, e);
        assert forall|i: int| 0 <= i < rest.len() implies is_envelope_kept(rest[i]) by {
            assert(rest[i] == evs[i + 1]);
        }
        lemma_drain(s1, rest);
        lemma_run_prepend(s, e, rest.push(Event::Empty));
        lemma_count_prepend(d, run(s1, rest.push(Event::Empty)).1, Decision::Patch);
        if evs.contains(render) {
            let i = choose|i: int| 0 <= i < evs.len() && evs[i] == render;
            if i > 0 {
                assert(rest[i - 1] == render);
            }
        }
        if rest.contains(render) {
            let j = choose|j: int| 0 <= j < rest.len() && rest[j] == render;
            assert(evs[j + 1] == render);
        }
        if e == render {
            assert(evs[0] == render);
        }
    }
}

/// A drain of envelopes of which at least one transition asked for a render,
/// ended by an empty stream, derives the view and patches exactly once, as
/// its last step before suspending.
pub proof fn lemma_renders_coalesce(s: TaskState, evs: Seq<Event>)
    requires
        s.live,
        s.rendered,
        forall|i: int| 0 <= i < evs.len() ==> is_envelope_kept(evs[i]),
        evs.contains(Event::Transition(Outcome::Render)),
    ensures
        count(run(s, evs.push(Event::Empty)).1, Decision::Patch) == 1,
        run(s, evs.push(Event::Empty)).1.last() == Decision::Patch,
        run(s, evs.push(Event::Empty)).0.live,
        !run(s, evs.push(Event::Empty)).0.render_pending,
{
    lemma_drain(s, evs);
}

/// Once `Unmounted` is processed the task tears down exactly once and drops
/// every envelope that follows, buffered or not.
pub proof fn lemma_unmount_is_final(s: TaskState, rest: Seq<Event>)
    requires
        s.live,
    ensures
        run(s, seq![Event::Unmounted] + rest).1[0] == Decision::TearDown,
        count(run(s, seq![Event::Unmounted] + rest).1, Decision::TearDown) == 1,
        forall|i: int| 1 <= i <= rest.len() ==> run(s, seq![Event::Unmounted] + rest).1[i] == Decision::Discard,
        !run(s, seq![Event::Unmounted] + rest).0.live,
        !run(s, seq![Event::Unmounted] + rest).0.rendered,
{
    lemma_run_prepend(s, Event::Unmounted, rest);
    let (s1, d) = step_spec(s, Event::Unmounted);
    lemma_concluded_stays_concluded(s1, rest);
    let ds = run(s1, rest).1;
    lemma_count_prepend(d, ds, Decision::TearDown);
    assert forall|i: int| 1 <= i <= rest.len() implies (seq![d] + ds)[i] == Decision::Discard by {
        assert((seq![d] + ds)[i] == ds[i - 1]);
    }
}

proof fn lemma_mounted_count(s: TaskState, evs: Seq<Event>)
    ensures
        count(run(s, evs).1, Decision::FireMounted) + (if s.mounted { 1nat } else { 0nat }) <= 1,
        s.live && (forall|i: int| 0 <= i < evs.len() ==> is_envelope_kept(evs[i])) ==> count(
            run(s, evs).1,
            Decision::FireMounted,
        ) + (if s.mounted { 1nat } else { 0nat }) == (if s.mounted || evs.contains(Event::Mounted) {
            1nat
        } else {
            0nat
        }),
    decreases evs.len(),
{
    if evs.len() == 0 {
    } else {
        let e = evs[0];
        let rest = evs.drop_first();
        assert(evs =~= seq![e] + rest);
        lemma_run_prepend(s, e, rest);
        let (s1, d) = step_spec(s, e);
        lemma_mounted_count(s1, rest);
        lemma_count_prepend(d, run(s1, rest).1, Decision::FireMounted);
        if s.live && (forall|i: int| 0 <= i < evs.len() ==> is_envelope_kept(evs[i])) {
            assert forall|i: int| 0 <= i < rest.len() implies is_envelope_kept(rest[i]) by {
                assert(rest[i] == evs[i + 1]);
            }
            if evs.contains(Event::Mounted) {
                let i = choose|i: int| 0 <= i < evs.len() && evs[i] == Event::Mounted;
                if i > 0 {
                    assert(rest[i - 1] == Event::Mounted);
                }
            }
            if rest.contains(Event::Mounted) {
                let j = choose|j: int| 0 <= j < rest.len() && rest[j] == Event::Mounted;
                assert(evs[j + 1] == Event::Mounted);
            }
            if e == Event::Mounted {
                assert(evs[0] == Event::Mounted);
            }
        }
    }
}

/// Over the whole life of a task the `mounted` hook fires at most once,
/// however many `Mounted` envelopes arrive; while the task lives it fires
/// as soon as the first one does.
pub proof fn lemma_mounted_fires_once(rendered: bool, evs: Seq<Event>)
    ensures
        count(run(fresh(rendered), evs).1, Decision::FireMounted) <= 1,
        (forall|i: int| 0 <= i < evs.len() ==> is_envelope_kept(evs[i])) ==> (count(
            run(fresh(rendered), evs).1,
            Decision::FireMounted,
        ) == 1 <==> evs.contains(Event::Mounted)),
{
    lemma_mounted_count(fresh(rendered), evs);
}

/// `ts[i + 1]` and `rs[i]` are what `handle` made of `ts[i]` on `ns[i]`, for
/// every step of a run.
pub open spec fn drives<C: Component, R: Rendered<C>>(
    ts: Seq<ComponentTask<C, R>>,
    ns: Seq<Next<C>>,
    rs: Seq<Drive<C>>,
) -> bool {
    &&& ts.len() == ns.len() + 1
    &&& rs.len() == ns.len()
    &&& forall|i: int| #![trigger ns[i]] 0 <= i < ns.len() ==> handled(ts[i], ns[i], ts[i + 1], rs[i])
}

/// The kind of action that task `t` takes on `n`: that of its component's
/// transition where `n` is a message or new properties.
pub open spec fn outcome_at<C: Component, R: Rendered<C>>(t: ComponentTask<C, R>, n: Next<C>) -> Outcome {
    match n {
        Next::Ready(ComponentMessage::Update(msg)) => outcome_of(t.component_spec().update_spec(msg).1),
        Next::Ready(ComponentMessage::Props(props)) => outcome_of(t.component_spec().change_spec(props).1),
        _ => Outcome::Nothing,
    }
}

proof fn lemma_dead_prefix<C: Component, R: Rendered<C>>(
    ts: Seq<ComponentTask<C, R>>,
    ns: Seq<Next<C>>,
    rs: Seq<Drive<C>>,
    k: int,
)
    requires
        drives(ts, ns, rs),
        !ts[0]@.live,
        0 <= k <= ns.len(),
    ensures
        ts[k]@ == ts[0]@,
        ts[k].component_spec() == ts[0].component_spec(),
        ts[k].marker_spec() == ts[0].marker_spec(),
        ts[k].retired_spec() == ts[0].retired_spec(),
    decreases k,
{
    if k > 0 {
        lemma_dead_prefix(ts, ns, rs, k - 1);
        assert(handled(ts[k - 1], ns[k - 1], ts[k], rs[k - 1]));
    }
}

/// A task that is over is untouched by whatever reaches it later: every
/// envelope is dropped, and neither its component nor its rendered objects
/// change, so no transition, hook, view or patch runs.
pub proof fn lemma_concluded_task_untouched<C: Component, R: Rendered<C>>(
    ts: Seq<ComponentTask<C, R>>,
    ns: Seq<Next<C>>,
    rs: Seq<Drive<C>>,
)
    requires
        drives(ts, ns, rs),
        !ts[0]@.live,
    ensures
        forall|i: int| 0 <= i < rs.len() ==> rs[i] is Discarded,
        forall|i: int|
            #![trigger ts[i]]
            0 <= i < ts.len() ==> ts[i]@ == ts[0]@ && ts[i].component_spec() == ts[0].component_spec()
                && ts[i].marker_spec() == ts[0].marker_spec() && ts[i].retired_spec() == ts[0].retired_spec(),
{
    assert forall|i: int| #![trigger ts[i]] 0 <= i < ts.len() implies ts[i]@ == ts[0]@
        && ts[i].component_spec() == ts[0].component_spec() && ts[i].marker_spec() == ts[0].marker_spec()
        && ts[i].retired_spec() == ts[0].retired_spec() by {
        lemma_dead_prefix(ts, ns, rs, i);
    }
    assert forall|i: int| 0 <= i < rs.len() implies rs[i] is Discarded by {
        lemma_dead_prefix(ts, ns, rs, i);
        assert(handled(ts[i], ns[i], ts[i + 1], rs[i]));
    }
}

/// The steps before the last of a quiet drain: messages whose transitions
/// ask for nothing.
pub open spec fn quiet_drain<C: Component, R: Rendered<C>>(ts: Seq<ComponentTask<C, R>>, ns: Seq<Next<C>>) -> bool {
    forall|i: int|
        #![trigger ns[i]]
        0 <= i < ns.len() - 1 ==> ns[i] is Ready && ns[i]->Ready_0 is Update && outcome_at(ts[i], ns[i])
            == Outcome::Nothing
}

proof fn lemma_quiet_prefix<C: Component, R: Rendered<C>>(
    ts: Seq<ComponentTask<C, R>>,
    ns: Seq<Next<C>>,
    rs: Seq<Drive<C>>,
    k: int,
)
    requires
        drives(ts, ns, rs),
        ts[0]@.live,
        !ts[0]@.render_pending,
        quiet_drain(ts, ns),
        0 <= k < ns.len(),
    ensures
        ts[k]@ == ts[0]@,
        ts[k].marker_spec() == ts[0].marker_spec(),
        forall|i: int| 0 <= i < k ==> rs[i] is Proceed,
    decreases k,
{
    if k > 0 {
        lemma_quiet_prefix(ts, ns, rs, k - 1);
        assert(handled(ts[k - 1], ns[k - 1], ts[k], rs[k - 1]));
    }
}

/// A drive call that drains messages whose transitions ask for nothing and
/// then finds the stream empty suspends without deriving a view or patching:
/// the rendered objects are those it started with.
pub proof fn lemma_task_quiet_updates_never_patch<C: Component, R: Rendered<C>>(
    ts: Seq<ComponentTask<C, R>>,
    ns: Seq<Next<C>>,
    rs: Seq<Drive<C>>,
)
    requires
        drives(ts, ns, rs),
        ts[0]@.live,
        !ts[0]@.render_pending,
        ns.len() >= 1,
        quiet_drain(ts, ns),
        ns.last() is Empty,
    ensures
        rs.last() is Suspend,
        forall|i: int| 0 <= i < rs.len() ==> !(rs[i] is Patched),
        ts.last().marker_spec() == ts[0].marker_spec(),
        ts.last()@ == ts[0]@,
{
    let n = ns.len() - 1;
    lemma_quiet_prefix(ts, ns, rs, n);
    assert(handled(ts[n], ns[n], ts[n + 1], rs[n]));
}

/// The steps before the last of a drain that renders: envelopes that keep
/// the task going, at least one of whose transitions asks for a render.
pub open spec fn rendering_drain<C: Component, R: Rendered<C>>(ts: Seq<ComponentTask<C, R>>, ns: Seq<Next<C>>) -> bool {
    &&& forall|i: int|
        #![trigger ns[i]]
        0 <= i < ns.len() - 1 ==> ns[i] is Ready && !(ns[i]->Ready_0 is Unmounted)
    &&& exists|j: int| 0 <= j < ns.len() - 1 && #[trigger] outcome_at(ts[j], ns[j]) == Outcome::Render
}

proof fn lemma_rendering_prefix<C: Component, R: Rendered<C>>(
    ts: Seq<ComponentTask<C, R>>,
    ns: Seq<Next<C>>,
    rs: Seq<Drive<C>>,
    k: int,
)
    requires
        drives(ts, ns, rs),
        ts[0]@.live,
        ts[0]@.rendered,
        forall|i: int| #![trigger ns[i]] 0 <= i < ns.len() - 1 ==> ns[i] is Ready && !(ns[i]->Ready_0 is Unmounted),
        0 <= k < ns.len(),
    ensures
        ts[k]@.live,
        ts[k]@.rendered,
        ts[k].marker_spec() == ts[0].marker_spec(),
        ts[k]@.render_pending == (ts[0]@.render_pending || exists|j: int|
            0 <= j < k && #[trigger] outcome_at(ts[j], ns[j]) == Outcome::Render),
        forall|i: int| 0 <= i < k ==> !(rs[i] is Patched),
    decreases k,
{
    if k > 0 {
        lemma_rendering_prefix(ts, ns, rs, k - 1);
        assert(handled(ts[k - 1], ns[k - 1], ts[k], rs[k - 1]));
        if outcome_at(ts[k - 1], ns[k - 1]) == Outcome::Render {
            assert(ts[k]@.render_pending);
        }
        if exists|j: int| 0 <= j < k && #[trigger] outcome_at(ts[j], ns[j]) == Outcome::Render {
            let j = choose|j: int| 0 <= j < k && #[trigger] outcome_at(ts[j], ns[j]) == Outcome::Render;
            if j < k - 1 {
                assert(ts[k - 1]@.render_pending);
            }
        }
    }
}

/// A drive call that drains envelopes of which at least one transition asks
/// for a render, and then finds the stream empty, patches exactly once, as
/// its last step, with the view of the component after every transition.
pub proof fn lemma_task_renders_coalesce<C: Component, R: Rendered<C>>(
    ts: Seq<ComponentTask<C, R>>,
    ns: Seq<Next<C>>,
    rs: Seq<Drive<C>>,
)
    requires
        drives(ts, ns, rs),
        ts[0]@.live,
        ts[0]@.rendered,
        ns.len() >= 1,
        rendering_drain(ts, ns),
        ns.last() is Empty,
    ensures
        rs.last() == Drive::<C>::Patched(
            ts[0].marker_spec()->Some_0.patch_applies(ts[ns.len() - 1].component_spec().view_spec()),
        ),
        forall|i: int| 0 <= i < rs.len() - 1 ==> !(rs[i] is Patched),
        ts[0].marker_spec() is Some,
        ts.last().marker_spec() is Some,
        ts.last().marker_spec()->Some_0.applied() == ts[0].marker_spec()->Some_0.applied().push(
            ts[ns.len() - 1].component_spec().view_spec(),
        ),
        !ts.last()@.render_pending,
{
    let n = ns.len() - 1;
    lemma_rendering_prefix(ts, ns, rs, n);
    assert(handled(ts[n], ns[n], ts[n + 1], rs[n]));
}

/// After `Unmounted` the rendered objects are released once, the
/// `unmounted` hook runs once, the task is over, and every envelope that
/// follows, buffered or not, is dropped with nothing run.
pub proof fn lemma_task_unmount_is_final<C: Component, R: Rendered<C>>(
    ts: Seq<ComponentTask<C, R>>,
    ns: Seq<Next<C>>,
    rs: Seq<Drive<C>>,
)
    requires
        drives(ts, ns, rs),
        ns.len() >= 1,
        ts[0]@.live,
        ts[0].marker_spec() is Some,
        ns[0] == Next::<C>::Ready(ComponentMessage::Unmounted),
    ensures
        rs[0] is TornDown,
        ts[1].component_spec() == ts[0].component_spec().unmounted_spec(),
        ts[1].marker_spec() is None,
        ts[1].retired_spec() is Some,
        ts[1].retired_spec()->Some_0.released(),
        ts[1].retired_spec()->Some_0.applied() == ts[0].marker_spec()->Some_0.applied(),
        !ts[1]@.live,
        forall|i: int| 1 <= i < rs.len() ==> rs[i] is Discarded,
        forall|i: int|
            #![trigger ts[i]]
            1 <= i < ts.len() ==> ts[i]@ == ts[1]@ && ts[i].component_spec() == ts[1].component_spec()
                && ts[i].marker_spec() == ts[1].marker_spec() && ts[i].retired_spec() == ts[1].retired_spec(),
{
    assert(handled(ts[0], ns[0], ts[1], rs[0]));
    let ts1 = ts.subrange(1, ts.len() as int);
    let ns1 = ns.subrange(1, ns.len() as int);
    let rs1 = rs.subrange(1, rs.len() as int);
    assert forall|i: int| #![trigger ns1[i]] 0 <= i < ns1.len() implies handled(ts1[i], ns1[i], ts1[i + 1], rs1[i]) by {
        assert(handled(ts[i + 1], ns[i + 1], ts[i + 2], rs[i + 1]));
    }
    lemma_concluded_task_untouched(ts1, ns1, rs1);
    assert forall|i: int| 1 <= i < rs.len() implies rs[i] is Discarded by {
        assert(rs1[i - 1] is Discarded);
    }
    assert forall|i: int| #![trigger ts[i]] 1 <= i < ts.len() implies ts[i]@ == ts[1]@ && ts[i].component_spec()
        == ts[1].component_spec() && ts[i].marker_spec() == ts[1].marker_spec() && ts[i].retired_spec()
        == ts[1].retired_spec() by {
        assert(ts[i] == ts1[i - 1]);
        assert(ts[1] == ts1[0]);
    }
}

proof fn lemma_handled_mounted<C: Component, R: Rendered<C>>(
    t0: ComponentTask<C, R>,
    n: Next<C>,
    t1: ComponentTask<C, R>,
    r: Drive<C>,
)
    requires
        handled(t0, n, t1, r),
    ensures
        t0@.mounted ==> t1@.mounted,
        r is Mounted ==> !t0@.mounted && t1@.mounted,
{
}

proof fn lemma_mounted_stays<C: Component, R: Rendered<C>>(
    ts: Seq<ComponentTask<C, R>>,
    ns: Seq<Next<C>>,
    rs: Seq<Drive<C>>,
    i: int,
    k: int,
)
    requires
        drives(ts, ns, rs),
        0 <= i < k <= ns.len(),
        rs[i] is Mounted,
    ensures
        ts[k]@.mounted,
    decreases k,
{
    if k == i + 1 {
        lemma_handled_mounted(ts[i], ns[i], ts[i + 1], rs[i]);
    } else {
        lemma_mounted_stays(ts, ns, rs, i, k - 1);
        lemma_handled_mounted(ts[k - 1], ns[k - 1], ts[k], rs[k - 1]);
    }
}

/// The `mounted` hook runs at most once over any run of a task, however
/// many `Mounted` envelopes arrive; each step that runs it applies it once
/// to the component.
pub proof fn lemma_task_mounted_once<C: Component, R: Rendered<C>>(
    ts: Seq<ComponentTask<C, R>>,
    ns: Seq<Next<C>>,
    rs: Seq<Drive<C>>,
)
    requires
        drives(ts, ns, rs),
    ensures
        forall|i: int, j: int| 0 <= i < j < rs.len() ==> !(#[trigger] rs[i] is Mounted && #[trigger] rs[j] is Mounted),
        forall|i: int|
            #![trigger rs[i]]
            0 <= i < rs.len() && rs[i] is Mounted ==> ts[i + 1].component_spec() == ts[i].component_spec().mounted_spec(),
{
    assert forall|i: int, j: int| 0 <= i < j < rs.len() implies !(#[trigger] rs[i] is Mounted
        && #[trigger] rs[j] is Mounted) by {
        if rs[i] is Mounted && rs[j] is Mounted {
            lemma_mounted_stays(ts, ns, rs, i, j);
            lemma_handled_mounted(ts[j], ns[j], ts[j + 1], rs[j]);
        }
    }
    assert forall|i: int| #![trigger rs[i]] 0 <= i < rs.len() && rs[i] is Mounted implies ts[i + 1].component_spec()
        == ts[i].component_spec().mounted_spec() by {
        assert(handled(ts[i], ns[i], ts[i + 1], rs[i]));
    }
}

/// A step that suspends or patches leaves no render pending, so every drive
/// call starts without one, as a task does when it is built.
pub proof fn lemma_drive_ends_without_pending_render<C: Component, R: Rendered<C>>(
    t0: ComponentTask<C, R>,
    n: Next<C>,
    t1: ComponentTask<C, R>,
    r: Drive<C>,
)
    requires
        handled(t0, n, t1, r),
        r is Suspend || r is Patched,
    ensures
        t1@.live,
        !t1@.render_pending,
{
}

} // verus!
