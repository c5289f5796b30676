use vstd::prelude::*;

use crate::Config;
use crate::event::Classification;
use crate::event::RawEvent;
use crate::event::RawEventView;
use crate::event::classify;
use crate::event::is_relevant;
use crate::paths;
use crate::sync::CopyPlan;
use crate::sync::copy_to_dest;

verus! {

// The watch-dispatch loop, as a state machine over injected occurrences:
// the caller owns the blocking event source and the mirror command, pulls
// one occurrence at a time, asks `dispatch_step` what it owes, performs the
// action, and repeats.  Nothing the mirror command reports feeds back into
// the dispatch, so a failed invocation can only be logged, never stop the
// loop.

/// One occurrence observed by the dispatch loop: a debounced notification,
/// or the permanent close of the event channel.
pub enum LoopEvent {
    Notification(RawEvent),
    Closed,
}

/// The mathematical shape of an occurrence.
pub enum LoopEventView {
    Notification(RawEventView),
    Closed,
}

impl View for LoopEvent {
    type V = LoopEventView;

    open spec fn view(&self) -> LoopEventView {
        match self {
            LoopEvent::Notification(e) => LoopEventView::Notification(e@),
            LoopEvent::Closed => LoopEventView::Closed,
        }
    }
}

/// The reaction the loop owes to one occurrence: run a mirror invocation
/// for a relative path, log an ignored notification, terminate on the
/// fatal path-translation violation, or terminate because the channel
/// closed.
#[derive(Debug)]
pub enum Action {
    Invoke(String),
    LogIgnored,
    FatalPath,
    Stop,
}

/// The mathematical shape of a reaction.
pub enum ActionView {
    Invoke(Seq<char>),
    LogIgnored,
    FatalPath,
    Stop,
}

impl View for Action {
    type V = ActionView;

    open spec fn view(&self) -> ActionView {
        match self {
            Action::Invoke(rel) => ActionView::Invoke(rel@),
            Action::LogIgnored => ActionView::LogIgnored,
            Action::FatalPath => ActionView::FatalPath,
            Action::Stop => ActionView::Stop,
        }
    }
}

/// The reaction owed to one occurrence: a closed channel stops the loop;
/// an irrelevant notification is logged; a relevant one is mirrored under
/// its path relative to the source root, unless the path escapes the root,
/// which is fatal.
pub open spec fn step_spec(src: Seq<char>, ev: LoopEventView) -> ActionView {
    match ev {
        LoopEventView::Closed => ActionView::Stop,
        LoopEventView::Notification(e) => if !is_relevant(e) {
            ActionView::LogIgnored
        } else if paths::is_strictly_under(src, e.paths[0]) {
            ActionView::Invoke(paths::rel_suffix(src, e.paths[0]))
        } else {
            ActionView::FatalPath
        },
    }
}

/// The reactions that end the loop.
pub open spec fn stops(a: ActionView) -> bool {
    a is Stop || a is FatalPath
}

/// Decides the reaction to one occurrence.  Pure: the decision depends on
/// the configuration and the occurrence alone.
pub fn dispatch_step(config: &Config, ev: &LoopEvent) -> (a: Action)
    ensures
        a@ == step_spec(config.src@, ev@),
{
    match ev {
        LoopEvent::Closed => Action::Stop,
        LoopEvent::Notification(e) => match classify(e) {
            Classification::Ignored => Action::LogIgnored,
            Classification::Relevant(p) => match copy_to_dest(config, p.as_str(), e.is_dir) {
                CopyPlan::Skip => Action::LogIgnored,
                CopyPlan::Sync(q) => Action::Invoke(q.rel_path),
                CopyPlan::PathViolation => Action::FatalPath,
            },
        },
    }
}

/// The reactions owed to a stream of occurrences, in delivery order,
/// cut off after the first stopping reaction.
pub open spec fn plan_spec(src: Seq<char>, events: Seq<LoopEventView>) -> Seq<ActionView>
    decreases events.len(),
{
    if events.len() == 0 {
        Seq::empty()
    } else {
        let a = step_spec(src, events[0]);
        if stops(a) {
            seq![a]
        } else {
            seq![a] + plan_spec(src, events.skip(1))
        }
    }
}

/// A whole session's reactions: the bootstrap whole-tree invocation first,
/// when enabled, then the reactions to the occurrences.
pub open spec fn session_spec(src: Seq<char>, bootstrap: bool, events: Seq<LoopEventView>) -> Seq<
    ActionView,
> {
    if bootstrap {
        seq![ActionView::Invoke(Seq::<char>::empty())] + plan_spec(src, events)
    } else {
        plan_spec(src, events)
    }
}

/// Runs one session over an injected, finite stream of occurrences and
/// returns the actions in the order they are owed.  The caller that owns a
/// live event source instead calls `dispatch_step` once per received
/// occurrence; this function exists so the loop's behaviour can be
/// exercised without a filesystem or timers.
pub fn run_session(config: &Config, events: &Vec<LoopEvent>) -> (acts: Vec<Action>)
    ensures
        (acts@.map_values(|a: Action| a@)) == session_spec(
            config.src@,
            config.bootstrap,
            (events@.map_values(|e: LoopEvent| e@)),
        ),
{
    let ghost evs = events@.map_values(|e: LoopEvent| e@);
    let mut acts: Vec<Action> = Vec::new();
    if config.bootstrap {
        acts.push(Action::Invoke(String::new()));
    }
    proof {
        assert(evs.skip(0) =~= evs);
        if config.bootstrap {
            assert(acts@.map_values(|a: Action| a@) =~= seq![
                ActionView::Invoke(Seq::<char>::empty()),
            ]);
        } else {
            assert(acts@.map_values(|a: Action| a@) =~= Seq::<ActionView>::empty());
        }
        assert(session_spec(config.src@, config.bootstrap, evs) =~= acts@.map_values(
            |a: Action| a@,
        ) + plan_spec(config.src@, evs.skip(0)));
    }
    let n = events.len();
    let mut i: usize = 0;
    let mut stopped = false;
    while i < n && !stopped
        invariant
            i <= n,
            n == events@.len(),
            evs == events@.map_values(|e: LoopEvent| e@),
            evs.len() == events@.len(),
            session_spec(config.src@, config.bootstrap, evs) == acts@.map_values(|a: Action| a@)
                + (if stopped {
                Seq::<ActionView>::empty()
            } else {
                plan_spec(config.src@, evs.skip(i as int))
            }),
        decreases n - i,
    {
        let ghost old_map = acts@.map_values(|a: Action| a@);
        let a = dispatch_step(config, &events[i]);
        let ghost av = a@;
        let is_stop = match &a {
            Action::Stop => true,
            Action::FatalPath => true,
            _ => false,
        };
        proof {
            assert(evs[i as int] == events@[i as int]@);
            assert(evs.skip(i as int)[0] == evs[i as int]);
            assert(evs.skip(i as int).skip(1) =~= evs.skip(i as int + 1));
            assert(is_stop == stops(av));
        }
        acts.push(a);
        proof {
            assert(acts@.map_values(|x: Action| x@) =~= old_map.push(av));
        }
        if is_stop {
            stopped = true;
            proof {
                assert(old_map + seq![av] =~= old_map.push(av));
                assert(old_map.push(av) + Seq::<ActionView>::empty() =~= old_map.push(av));
            }
        } else {
            proof {
                assert(old_map + (seq![av] + plan_spec(config.src@, evs.skip(i as int + 1)))
                    =~= old_map.push(av) + plan_spec(config.src@, evs.skip(i as int + 1)));
            }
        }
        i += 1;
    }
    proof {
        if !stopped {
            assert(evs.skip(i as int) =~= Seq::<LoopEventView>::empty());
        }
        assert(session_spec(config.src@, config.bootstrap, evs) =~= acts@.map_values(
            |a: Action| a@,
        ));
    }
    acts
}

/// Law: when the bootstrap sync is enabled, the whole-tree invocation is
/// the session's very first action, before any action derived from a
/// filesystem event — however many occurrences arrive after watching
/// begins.
pub proof fn lemma_bootstrap_first(src: Seq<char>, events: Seq<LoopEventView>)
    ensures
        session_spec(src, true, events).len() >= 1,
        session_spec(src, true, events)[0] == ActionView::Invoke(Seq::<char>::empty()),
        session_spec(src, true, events).skip(1) == plan_spec(src, events),
{
    assert(session_spec(src, true, events).skip(1) =~= plan_spec(src, events));
}

/// Law: no occurrence can earn a whole-tree invocation.  An invocation
/// derived from an event always names a nonempty relative path, so the
/// bootstrap invocation — when enabled — is the session's only whole-tree
/// one.
pub proof fn lemma_plan_no_whole_tree(src: Seq<char>, events: Seq<LoopEventView>, k: int)
    requires
        0 <= k < plan_spec(src, events).len(),
    ensures
        plan_spec(src, events)[k] != ActionView::Invoke(Seq::<char>::empty()),
    decreases events.len(),
{
    let a = step_spec(src, events[0]);
    if k == 0 {
        if a is Invoke {
            assert(a->Invoke_0.len() > 0);
        }
    } else {
        lemma_plan_no_whole_tree(src, events.skip(1), k - 1);
    }
}

/// Law: a mirror invocation's outcome cannot stop the dispatch.  The
/// planned actions are a function of the occurrences alone — a failed
/// invocation is only logged — so after any prefix of non-stopping
/// reactions, every later occurrence is still owed its own reaction.  In
/// particular, an invocation for a failing relative path followed by one
/// for a succeeding path yields both invocations.
pub proof fn lemma_dispatch_continues(src: Seq<char>, events: Seq<LoopEventView>, i: int)
    requires
        0 <= i < events.len(),
        forall|j: int| 0 <= j < i ==> !stops(step_spec(src, #[trigger] events[j])),
    ensures
        plan_spec(src, events).len() > i,
        plan_spec(src, events)[i] == step_spec(src, events[i]),
    decreases i,
{
    if i > 0 {
        assert(!stops(step_spec(src, events[0])));
        assert forall|j: int| 0 <= j < i - 1 implies !stops(
            step_spec(src, #[trigger] events.skip(1)[j]),
        ) by {
            assert(events.skip(1)[j] == events[j + 1]);
        }
        lemma_dispatch_continues(src, events.skip(1), i - 1);
        assert(events.skip(1)[i - 1] == events[i]);
        assert(plan_spec(src, events)[i] == plan_spec(src, events.skip(1))[i - 1]);
    }
}

} // verus!
