use vstd::prelude::*;
use crate::config::SurfaceConfig;
use crate::lifecycle::{step, Acquire, Action, ControllerView, Event, Phase};

verus! {

/// The state after a sequence of events, and the actions asked for on the way.
pub open spec fn run<R>(s: ControllerView, events: Seq<Event<R>>) -> (ControllerView, Seq<Action>)
    decreases events.len(),
{
    if events.len() == 0 {
        (s, Seq::empty())
    } else {
        let (s1, a) = step(s, events[0]);
        let (s2, rest) = run(s1, events.drop_first());
        (s2, seq![a] + rest)
    }
}

/// Running a sequence and then one more event is running the sequence and
/// taking one step from where it ended.
pub proof fn lemma_run_push<R>(s: ControllerView, events: Seq<Event<R>>, e: Event<R>)
    ensures
        ({
            let (t, acts) = run(s, events);
            run(s, events.push(e)) == (step(t, e).0, acts.push(step(t, e).1))
        }),
    decreases events.len(),
{
    let pushed = events.push(e);
    assert(pushed[0] == if events.len() == 0 { e } else { events[0] });
    if events.len() == 0 {
        assert(pushed.drop_first() =~= Seq::<Event<R>>::empty());
        let s1 = step(s, e).0;
        assert(run(s1, Seq::<Event<R>>::empty()) == (s1, Seq::<Action>::empty()));
        assert(seq![step(s, e).1] + Seq::<Action>::empty() =~= Seq::<Action>::empty().push(
            step(s, e).1,
        ));
    } else {
        let s1 = step(s, events[0]).0;
        assert(pushed.drop_first() =~= events.drop_first().push(e));
        lemma_run_push(s1, events.drop_first(), e);
        let a = step(s, events[0]).1;
        let rest = run(s1, events.drop_first()).1;
        let last = step(run(s, events).0, e).1;
        assert(seq![a] + rest.push(last) =~= (seq![a] + rest).push(last));
    }
}

/// After any sequence of events that ends with a suspend, no session exists.
/// After any sequence that leaves no session with the loop running, a resume
/// asks for a session, and once it is handed over exactly one exists; a
/// further resume then asks for nothing and leaves it as it is.
pub proof fn lemma_sequences_resume_suspend<R>(
    s: ControllerView,
    events: Seq<Event<R>>,
    window: u64,
    width: u32,
    height: u32,
    resources: R,
)
    ensures
        run(s, events.push(Event::Suspended)).0.session is None,
        ({
            let t = run(s, events).0;
            let resumed = events.push(Event::Resumed);
            let ready = resumed.push(Event::SessionReady { window, width, height, resources });
            (t.session is None && t.phase == Phase::Running && width > 0 && height > 0) ==> {
                &&& run(s, resumed).1.last() == Action::CreateSession
                &&& run(s, ready).0.session == Some(
                    crate::lifecycle::SessionView { window, config: SurfaceConfig { width, height } },
                )
                &&& run(s, ready.push(Event::Resumed)).0 == run(s, ready).0
                &&& run(s, ready.push(Event::Resumed)).1.last() == Action::Nothing
            }
        }),
{
    let resumed = events.push(Event::Resumed);
    let ready = resumed.push(Event::SessionReady { window, width, height, resources });
    lemma_run_push(s, events, Event::Suspended);
    lemma_run_push(s, events, Event::Resumed);
    lemma_run_push(s, resumed, Event::SessionReady { window, width, height, resources });
    lemma_run_push(s, ready, Event::Resumed);
}

/// A suspend leaves no session, whatever the state, and repeating it changes
/// nothing.
pub proof fn lemma_suspend_releases<R>(s: ControllerView)
    ensures
        step(s, Event::<R>::Suspended).0.session is None,
        ({
            let s1 = step(s, Event::<R>::Suspended).0;
            step(s1, Event::<R>::Suspended) == (s1, Action::Nothing)
        }),
{
}

/// A resize with a zero dimension changes nothing and asks for nothing.
pub proof fn lemma_zero_resize_ignored<R>(s: ControllerView, window: u64, width: u32, height: u32)
    requires
        width == 0 || height == 0,
    ensures
        step(s, Event::<R>::Resized { window, width, height }) == (s, Action::Nothing),
{
}

/// A resize of the session's window to positive dimensions stores exactly
/// those dimensions and asks for one reconfiguration with them.
pub proof fn lemma_resize_reconfigures<R>(s: ControllerView, window: u64, width: u32, height: u32)
    requires
        s.phase == Phase::Running,
        s.owns(window),
        width > 0,
        height > 0,
    ensures
        ({
            let (s1, a) = step(s, Event::<R>::Resized { window, width, height });
            &&& s1.session.unwrap().config == (SurfaceConfig { width, height })
            &&& s1.session.unwrap().window == window
            &&& s1.phase == s.phase
            &&& a == (Action::Reconfigure { width, height })
        }),
{
}

/// A lost surface asks for one reconfiguration with the stored configuration,
/// which stays as it was, and nothing is drawn for that frame.
pub proof fn lemma_lost_reconfigures<R>(s: ControllerView)
    requires
        s.phase == Phase::Running,
        s.session is Some,
    ensures
        step(s, Event::<R>::Acquired { outcome: Acquire::Lost }) == (
            s,
            Action::Reconfigure {
                width: s.session.unwrap().config.width,
                height: s.session.unwrap().config.height,
            },
        ),
{
}

/// Once termination is signalled or the loop is torn down, no event leads to
/// a GPU call, a new session or another exit code.
pub proof fn lemma_stopped_is_quiet<R>(s: ControllerView, events: Seq<Event<R>>)
    requires
        s.phase != Phase::Running,
    ensures
        run(s, events).0.phase != Phase::Running,
        forall|i: int|
            0 <= i < run(s, events).1.len() ==> {
                let a = #[trigger] run(s, events).1[i];
                &&& !a.touches_gpu()
                &&& !(a is Exit)
                &&& !(a is CreateSession)
            },
    decreases events.len(),
{
    if events.len() > 0 {
        let s1 = step(s, events[0]).0;
        lemma_stopped_is_quiet(s1, events.drop_first());
    }
}

/// Running out of memory while acquiring an image ends the loop with exit
/// code 1, and no frame is drawn after it, whatever events follow.
pub proof fn lemma_out_of_memory_exits<R>(s: ControllerView, events: Seq<Event<R>>)
    requires
        s.phase == Phase::Running,
        s.session is Some,
    ensures
        ({
            let (s1, a) = step(s, Event::<R>::Acquired { outcome: Acquire::OutOfMemory });
            &&& a == (Action::Exit { code: 1 })
            &&& s1.phase == (Phase::Exiting { code: 1 })
            &&& forall|i: int|
                0 <= i < run(s1, events).1.len() ==> !(#[trigger] run(s1, events).1[i]).touches_gpu()
        }),
{
    let s1 = step(s, Event::<R>::Acquired { outcome: Acquire::OutOfMemory }).0;
    lemma_stopped_is_quiet(s1, events);
}

/// A close request for the session's window ends the loop with exit code 0.
pub proof fn lemma_close_exits<R>(s: ControllerView, window: u64)
    requires
        s.phase == Phase::Running,
        s.owns(window),
    ensures
        step(s, Event::<R>::CloseRequested { window }) == (s.exiting(0), Action::Exit { code: 0 }),
{
}

/// In any sequence of events at most one exit is asked for: an exit with code
/// 0 never follows one with code 1, nor the other way round.
pub proof fn lemma_single_exit<R>(s: ControllerView, events: Seq<Event<R>>)
    ensures
        forall|i: int, j: int|
            0 <= i < j < run(s, events).1.len() ==> !((#[trigger] run(s, events).1[i]) is Exit
                && (#[trigger] run(s, events).1[j]) is Exit),
    decreases events.len(),
{
    if events.len() > 0 {
        let (s1, a) = step(s, events[0]);
        let rest = events.drop_first();
        lemma_single_exit(s1, rest);
        if a is Exit {
            lemma_stopped_is_quiet(s1, rest);
        }
        let acts = run(s, events).1;
        assert(acts == seq![a] + run(s1, rest).1);
        assert forall|i: int, j: int|
            0 <= i < j < acts.len() implies !((#[trigger] acts[i]) is Exit && (#[trigger] acts[j]) is Exit) by {
            if i > 0 {
                assert(acts[i] == run(s1, rest).1[i - 1]);
                assert(acts[j] == run(s1, rest).1[j - 1]);
            } else {
                assert(acts[j] == run(s1, rest).1[j - 1]);
            }
        }
    }
}

/// With no session, a resize, close request, redraw request or acquisition
/// outcome changes nothing and asks for nothing: no GPU call is made.
pub proof fn lemma_no_session_no_gpu<R>(s: ControllerView, e: Event<R>)
    requires
        s.session is None,
        e is Resized || e is CloseRequested || e is RedrawRequested || e is Acquired,
    ensures
        step(s, e) == (s, Action::Nothing),
        !step(s, e).1.touches_gpu(),
{
}

} // verus!
