//! The driver's decisions: change detection against the last-seen URL and the
//! choice to notify. The loop around it — performing the HTTP fetch, sending
//! the email, sleeping — stays outside the library; each cycle hands its fetch
//! outcome to `step` and carries out the returned action. Whether a
//! notification is actually delivered does not enter the state, so a failed
//! send never stops the following cycles.

use vstd::prelude::*;

use crate::fetch::FetchError;
use crate::text::{render_body, spec_render};

verus! {

/// The state the driver loop owns: the last-seen public URL, initially empty.
pub struct MonitorState {
    pub last_url: String,
}

/// What the driver asks of its surroundings after a step: nothing, or to send
/// a notification with the given body.
pub enum StepAction {
    Idle,
    Notify { body: String },
}

/// A fetch outcome at the spec level: the fetched URL on success, nothing on
/// failure.
pub open spec fn fetch_view(f: Result<String, FetchError>) -> Option<Seq<char>> {
    match f {
        Ok(u) => Some(u@),
        Err(_) => None,
    }
}

/// Whether a fetch outcome triggers a notification against the last-seen URL:
/// exactly when it fetched a URL that differs.
pub open spec fn step_notifies(last: Seq<char>, fetch: Option<Seq<char>>) -> bool {
    match fetch {
        Some(u) => u != last,
        None => false,
    }
}

/// The last-seen URL after one step: the fetched URL on success, unchanged on
/// failure.
pub open spec fn step_next(last: Seq<char>, fetch: Option<Seq<char>>) -> Seq<char> {
    match fetch {
        Some(u) => u,
        None => last,
    }
}

impl MonitorState {
    /// A fresh monitor that has seen no URL yet.
    pub fn new() -> (s: Self)
        ensures
            s.last_url@ == Seq::<char>::empty(),
    {
        MonitorState { last_url: String::new() }
    }

    /// One cycle of decisions: on a fetched URL that differs from the
    /// last-seen one, render the body template and ask for a notification,
    /// recording the URL as seen whether or not the send will succeed; on a
    /// repeated URL or a failed fetch, do nothing.
    pub fn step(&mut self, fetched: &Result<String, FetchError>, body_template: &str) -> (a:
        StepAction)
        ensures
            final(self).last_url@ == step_next(old(self).last_url@, fetch_view(*fetched)),
            match a {
                StepAction::Notify { body } => step_notifies(
                    old(self).last_url@,
                    fetch_view(*fetched),
                ) && body@ == spec_render(
                    body_template@,
                    step_next(old(self).last_url@, fetch_view(*fetched)),
                ),
                StepAction::Idle => !step_notifies(old(self).last_url@, fetch_view(*fetched)),
            },
    {
        match fetched {
            Ok(u) => {
                if self.last_url.eq(u) {
                    StepAction::Idle
                } else {
                    let body = render_body(body_template, u.as_str());
                    self.last_url = u.clone();
                    StepAction::Notify { body }
                }
            },
            Err(_) => StepAction::Idle,
        }
    }
}

/// The last-seen URL after the monitor consumes `fetched` in order, starting
/// from `init`.
pub open spec fn run_last(init: Seq<char>, fetched: Seq<Option<Seq<char>>>) -> Seq<char>
    decreases fetched.len(),
{
    if fetched.len() == 0 {
        init
    } else {
        step_next(run_last(init, fetched.drop_last()), fetched.last())
    }
}

/// Whether the step consuming `fetched[k]` notifies.
pub open spec fn run_notifies_at(init: Seq<char>, fetched: Seq<Option<Seq<char>>>, k: int) -> bool {
    step_notifies(run_last(init, fetched.take(k)), fetched[k])
}

/// The most recently fetched URL in `fetched`, or `init` when every fetch
/// failed.
pub open spec fn last_success(init: Seq<char>, fetched: Seq<Option<Seq<char>>>) -> Seq<char>
    decreases fetched.len(),
{
    if fetched.len() == 0 {
        init
    } else {
        match fetched.last() {
            Some(u) => u,
            None => last_success(init, fetched.drop_last()),
        }
    }
}

proof fn lemma_run_last_is_last_success(init: Seq<char>, fetched: Seq<Option<Seq<char>>>)
    ensures
        run_last(init, fetched) == last_success(init, fetched),
    decreases fetched.len(),
{
    if fetched.len() > 0 {
        lemma_run_last_is_last_success(init, fetched.drop_last());
    }
}

/// Change detection: in any run, the step consuming `fetched[k]` notifies
/// exactly when that fetch succeeded and brought a URL that differs from the
/// most recently fetched one before it (initially `init`).
pub proof fn lemma_change_detection(init: Seq<char>, fetched: Seq<Option<Seq<char>>>, k: int)
    requires
        0 <= k < fetched.len(),
    ensures
        run_notifies_at(init, fetched, k) <==> match fetched[k] {
            Some(u) => u != last_success(init, fetched.take(k)),
            None => false,
        },
{
    lemma_run_last_is_last_success(init, fetched.take(k));
}

proof fn lemma_run_last_after(
    init: Seq<char>,
    fetched: Seq<Option<Seq<char>>>,
    i: int,
    j: int,
    u: Seq<char>,
)
    requires
        0 <= i < j <= fetched.len(),
        fetched[i] == Some(u),
        forall|k: int| i < k < j ==> fetched[k] == Some(u) || fetched[k] is None,
    ensures
        run_last(init, fetched.take(j)) == u,
    decreases j - i,
{
    assert(fetched.take(j).drop_last() =~= fetched.take(j - 1));
    assert(fetched.take(j).last() == fetched[j - 1]);
    if j == i + 1 {
        assert(run_last(init, fetched.take(j)) == step_next(
            run_last(init, fetched.take(i)),
            fetched[i],
        ));
    } else {
        lemma_run_last_after(init, fetched, i, j - 1, u);
        assert(fetched[j - 1] == Some(u) || fetched[j - 1] is None);
    }
}

/// No duplicate notifications: once a URL has been fetched, later cycles that
/// fetch the same URL again — even with failed fetches in between — never
/// notify for it a second time.
pub proof fn lemma_no_repeat_notification(
    init: Seq<char>,
    fetched: Seq<Option<Seq<char>>>,
    i: int,
    j: int,
)
    requires
        0 <= i < j < fetched.len(),
        fetched[i] is Some,
        forall|k: int| i < k <= j ==> fetched[k] == fetched[i] || fetched[k] is None,
    ensures
        !run_notifies_at(init, fetched, j),
{
    let u = fetched[i]->Some_0;
    lemma_run_last_after(init, fetched, i, j, u);
    assert(fetched[j] == Some(u) || fetched[j] is None);
}

} // verus!
