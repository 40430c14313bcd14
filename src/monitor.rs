//! The decision the monitor loop takes on every tick: publish a new snapshot,
//! suppress a repeat, or stay idle (with rate-limited idle logging).
use vstd::prelude::*;
use crate::snapshot::{MediaTrackInfo, TrackView};

verus! {

/// Milliseconds the loop sleeps between two polls, whatever the outcome.
pub const POLL_INTERVAL_MS: u64 = 1000;

/// What one tick decided.
#[derive(Debug)]
pub enum TickOutcome {
    /// Nothing to publish this tick; `log` says whether the idle message is
    /// due now.
    Idle { log: bool },
    /// A new, distinct snapshot to send.
    Publishing(MediaTrackInfo),
    /// The snapshot equals the one last sent.
    Suppressed,
}

pub enum OutcomeView {
    Idle { log: bool },
    Publishing(TrackView),
    Suppressed,
}

impl View for TickOutcome {
    type V = OutcomeView;

    open spec fn view(&self) -> OutcomeView {
        match self {
            TickOutcome::Idle { log } => OutcomeView::Idle { log: *log },
            TickOutcome::Publishing(s) => OutcomeView::Publishing(s@),
            TickOutcome::Suppressed => OutcomeView::Suppressed,
        }
    }
}

/// The state the loop carries from one tick to the next.
pub struct MonitorState {
    last_sent: Option<MediaTrackInfo>,
    last_idle_log_ms: u64,
    idle_log_interval_ms: u64,
}

pub struct MonitorView {
    pub last_sent: Option<TrackView>,
    pub last_idle_log_ms: u64,
    pub idle_log_interval_ms: u64,
}

pub open spec fn track_opt_view(t: Option<MediaTrackInfo>) -> Option<TrackView> {
    match t {
        Some(s) => Some(s@),
        None => None,
    }
}

impl View for MonitorState {
    type V = MonitorView;

    closed spec fn view(&self) -> MonitorView {
        MonitorView {
            last_sent: track_opt_view(self.last_sent),
            last_idle_log_ms: self.last_idle_log_ms,
            idle_log_interval_ms: self.idle_log_interval_ms,
        }
    }
}

/// A snapshot may be published only if it has a title.
pub open spec fn publishable(s: TrackView) -> bool {
    s.title.len() > 0
}

/// Whether the idle message is due at `now_ms`: strictly more than the
/// interval has passed since it was last written.
pub open spec fn idle_log_due(m: MonitorView, now_ms: u64) -> bool {
    now_ms > m.last_idle_log_ms && now_ms - m.last_idle_log_ms > m.idle_log_interval_ms
}

/// A tick with nothing to publish: only the idle-log clock may move.
pub open spec fn idle_tick(m: MonitorView, now_ms: u64) -> (MonitorView, OutcomeView) {
    if idle_log_due(m, now_ms) {
        (MonitorView { last_idle_log_ms: now_ms, ..m }, OutcomeView::Idle { log: true })
    } else {
        (m, OutcomeView::Idle { log: false })
    }
}

/// One tick: the next state and the outcome, given what was observed.
pub open spec fn tick_spec(m: MonitorView, observed: Option<TrackView>, now_ms: u64) -> (
    MonitorView,
    OutcomeView,
) {
    match observed {
        Some(s) => if !publishable(s) {
            idle_tick(m, now_ms)
        } else if m.last_sent == Some(s) {
            (m, OutcomeView::Suppressed)
        } else {
            (MonitorView { last_sent: Some(s), ..m }, OutcomeView::Publishing(s))
        },
        None => idle_tick(m, now_ms),
    }
}

impl MonitorState {
    /// A monitor that has sent nothing yet, started at time zero, writing the
    /// idle message at most once per `idle_log_interval_ms`.
    pub fn new(idle_log_interval_ms: u64) -> (r: MonitorState)
        ensures
            r@ == (MonitorView {
                last_sent: None,
                last_idle_log_ms: 0,
                idle_log_interval_ms,
            }),
    {
        MonitorState { last_sent: None, last_idle_log_ms: 0, idle_log_interval_ms }
    }

    /// Takes what this tick's poll observed (`None`: no session, or reading
    /// it failed) at time `now_ms`, and decides what to do.
    pub fn tick(&mut self, observed: Option<MediaTrackInfo>, now_ms: u64) -> (r: TickOutcome)
        ensures
            (final(self)@, r@) == tick_spec(old(self)@, track_opt_view(observed), now_ms),
    {
        match observed {
            Some(s) if !s.title.as_str().is_empty() => {
                let same = match &self.last_sent {
                    Some(last) => *last == s,
                    None => false,
                };
                if same {
                    TickOutcome::Suppressed
                } else {
                    let sent = s.duplicate();
                    self.last_sent = Some(s);
                    TickOutcome::Publishing(sent)
                }
            },
            _ => {
                if now_ms > self.last_idle_log_ms && now_ms - self.last_idle_log_ms
                    > self.idle_log_interval_ms {
                    self.last_idle_log_ms = now_ms;
                    TickOutcome::Idle { log: true }
                } else {
                    TickOutcome::Idle { log: false }
                }
            },
        }
    }
}

/// One poll as the loop sees it: what was observed, and when.
pub type PollView = (Option<TrackView>, u64);

/// Runs the loop over a sequence of polls: the state it ends in, and the
/// snapshots it sent, in order.
pub open spec fn run(m: MonitorView, polls: Seq<PollView>) -> (MonitorView, Seq<TrackView>)
    decreases polls.len(),
{
    if polls.len() == 0 {
        (m, Seq::empty())
    } else {
        let step = tick_spec(m, polls[0].0, polls[0].1);
        let rest = run(step.0, polls.drop_first());
        (
            rest.0,
            match step.1 {
                OutcomeView::Publishing(s) => seq![s] + rest.1,
                _ => rest.1,
            },
        )
    }
}

/// After a run, the remembered snapshot is the last one sent, or the one
/// remembered before if nothing was sent.
pub proof fn lemma_run_remembers_last_sent(m: MonitorView, polls: Seq<PollView>)
    ensures
        run(m, polls).1.len() > 0 ==> run(m, polls).0.last_sent == Some(run(m, polls).1.last()),
        run(m, polls).1.len() == 0 ==> run(m, polls).0.last_sent == m.last_sent,
    decreases polls.len(),
{
    if polls.len() > 0 {
        let step = tick_spec(m, polls[0].0, polls[0].1);
        lemma_run_remembers_last_sent(step.0, polls.drop_first());
    }
}

/// The same observation, polled at each of the given times.
pub open spec fn repeated(s: TrackView, times: Seq<u64>) -> Seq<PollView> {
    times.map_values(|t: u64| (Some(s), t))
}

/// Polling the same snapshot over and over sends it at most once: on the
/// first poll, and only if it has a title and differs from what was last
/// sent. The repeats send nothing.
pub proof fn lemma_repeats_send_nothing(m: MonitorView, s: TrackView, times: Seq<u64>)
    ensures
        run(m, repeated(s, times)).1 == if times.len() > 0 && publishable(s) && m.last_sent
            != Some(s) {
            seq![s]
        } else {
            Seq::empty()
        },
    decreases times.len(),
{
    if times.len() > 0 {
        let polls = repeated(s, times);
        let step = tick_spec(m, polls[0].0, polls[0].1);
        assert(polls.drop_first() =~= repeated(s, times.drop_first()));
        lemma_repeats_send_nothing(step.0, s, times.drop_first());
        if publishable(s) && m.last_sent != Some(s) {
            assert(seq![s] + Seq::<TrackView>::empty() =~= seq![s]);
        }
    }
}

/// Whatever is polled, each snapshot sent differs from the one sent just
/// before it, and the first differs from the one remembered at the start.
pub proof fn lemma_sent_snapshots_change(m: MonitorView, polls: Seq<PollView>)
    ensures
        run(m, polls).1.len() > 0 ==> m.last_sent != Some(run(m, polls).1[0]),
        forall|i: int|
            0 <= i < run(m, polls).1.len() - 1 ==> #[trigger] run(m, polls).1[i] != run(
                m,
                polls,
            ).1[i + 1],
    decreases polls.len(),
{
    if polls.len() > 0 {
        let step = tick_spec(m, polls[0].0, polls[0].1);
        let rest = run(step.0, polls.drop_first()).1;
        lemma_sent_snapshots_change(step.0, polls.drop_first());
        let all = run(m, polls).1;
        match step.1 {
            OutcomeView::Publishing(s) => {
                assert(all == seq![s] + rest);
                assert forall|i: int| 0 <= i < all.len() - 1 implies #[trigger] all[i] != all[i
                    + 1] by {
                    if i > 0 {
                        assert(all[i] == rest[i - 1]);
                        assert(all[i + 1] == rest[i]);
                    }
                }
            },
            _ => {
                assert(all == rest);
            },
        }
    }
}

/// Whatever is polled, nothing without a title is ever sent.
pub proof fn lemma_untitled_never_sent(m: MonitorView, polls: Seq<PollView>)
    ensures
        forall|i: int| 0 <= i < run(m, polls).1.len() ==> publishable(#[trigger] run(m, polls).1[i]),
    decreases polls.len(),
{
    if polls.len() > 0 {
        let step = tick_spec(m, polls[0].0, polls[0].1);
        let rest = run(step.0, polls.drop_first()).1;
        lemma_untitled_never_sent(step.0, polls.drop_first());
        let all = run(m, polls).1;
        match step.1 {
            OutcomeView::Publishing(s) => {
                assert(all == seq![s] + rest);
                assert forall|i: int| 0 <= i < all.len() implies publishable(#[trigger] all[i]) by {
                    if i > 0 {
                        assert(all[i] == rest[i - 1]);
                    }
                }
            },
            _ => {},
        }
    }
}

/// The snapshots a run of polls observes that have a title, in order.
pub open spec fn titled(polls: Seq<PollView>) -> Seq<TrackView>
    decreases polls.len(),
{
    if polls.len() == 0 {
        Seq::empty()
    } else {
        let rest = titled(polls.drop_first());
        match polls[0].0 {
            Some(s) => if publishable(s) {
                seq![s] + rest
            } else {
                rest
            },
            None => rest,
        }
    }
}

/// `c` with each element dropped that equals the one kept before it, the
/// first compared with `last`.
pub open spec fn dedup_from(last: Option<TrackView>, c: Seq<TrackView>) -> Seq<TrackView>
    decreases c.len(),
{
    if c.len() == 0 {
        Seq::empty()
    } else if last == Some(c[0]) {
        dedup_from(last, c.drop_first())
    } else {
        seq![c[0]] + dedup_from(Some(c[0]), c.drop_first())
    }
}

/// `c` keeping `c[i]` exactly when `i == 0` or `c[i] != c[i - 1]`: the first
/// of each run of equal elements.
pub open spec fn dedup(c: Seq<TrackView>) -> Seq<TrackView>
    decreases c.len(),
{
    if c.len() == 0 {
        Seq::empty()
    } else {
        let p = c.drop_last();
        if p.len() > 0 && p.last() == c.last() {
            dedup(p)
        } else {
            dedup(p).push(c.last())
        }
    }
}

/// What a run sends is what it observed with a title, each dropped that
/// equals the snapshot sent (or remembered) before it.
pub proof fn lemma_sent_is_dedup_from(m: MonitorView, polls: Seq<PollView>)
    ensures
        run(m, polls).1 == dedup_from(m.last_sent, titled(polls)),
    decreases polls.len(),
{
    if polls.len() > 0 {
        let step = tick_spec(m, polls[0].0, polls[0].1);
        lemma_sent_is_dedup_from(step.0, polls.drop_first());
        let t = titled(polls.drop_first());
        match polls[0].0 {
            Some(s) => if publishable(s) {
                let c = seq![s] + t;
                assert(c[0] == s);
                assert(c.drop_first() =~= t);
            },
            None => {},
        }
    }
}

/// The element the next one is compared with after `dedup_from(last, c)`.
pub open spec fn last_seen(last: Option<TrackView>, c: Seq<TrackView>) -> Option<TrackView> {
    if c.len() == 0 {
        last
    } else {
        Some(c.last())
    }
}

proof fn lemma_dedup_from_push(last: Option<TrackView>, c: Seq<TrackView>, x: TrackView)
    ensures
        dedup_from(last, c.push(x)) == if Some(x) == last_seen(last, c) {
            dedup_from(last, c)
        } else {
            dedup_from(last, c).push(x)
        },
    decreases c.len(),
{
    let cx = c.push(x);
    if c.len() == 0 {
        assert(cx.drop_first() =~= Seq::<TrackView>::empty());
        assert(cx[0] == x);
        assert(dedup_from(last, c) == Seq::<TrackView>::empty());
        if last == Some(x) {
            assert(dedup_from(last, cx) == dedup_from(last, cx.drop_first()));
        } else {
            assert(dedup_from(last, cx) == seq![x] + dedup_from(Some(x), cx.drop_first()));
            assert(seq![x] + Seq::<TrackView>::empty() =~= Seq::<TrackView>::empty().push(x));
        }
    } else {
        let tail = c.drop_first();
        assert(cx[0] == c[0]);
        assert(cx.drop_first() =~= tail.push(x));
        if tail.len() > 0 {
            assert(tail.last() == c.last());
        } else {
            assert(c.last() == c[0]);
        }
        if last == Some(c[0]) {
            lemma_dedup_from_push(last, tail, x);
            assert(last_seen(last, tail) == last_seen(last, c));
        } else {
            lemma_dedup_from_push(Some(c[0]), tail, x);
            assert(last_seen(Some(c[0]), tail) == last_seen(last, c));
            let d = dedup_from(Some(c[0]), tail);
            assert(seq![c[0]] + d.push(x) =~= (seq![c[0]] + d).push(x));
        }
    }
}

proof fn lemma_dedup_from_none(c: Seq<TrackView>)
    ensures
        dedup_from(None, c) == dedup(c),
    decreases c.len(),
{
    if c.len() > 0 {
        let p = c.drop_last();
        lemma_dedup_from_none(p);
        assert(p.push(c.last()) =~= c);
        lemma_dedup_from_push(None, p, c.last());
    }
}

/// A monitor that has sent nothing yet sends exactly the first of each run of
/// equal titled observations: a repeated identical poll sends nothing further,
/// and a poll that differs from the snapshot before it is sent.
pub proof fn lemma_fresh_monitor_sends_dedup(m: MonitorView, polls: Seq<PollView>)
    requires
        m.last_sent is None,
    ensures
        run(m, polls).1 == dedup(titled(polls)),
{
    lemma_sent_is_dedup_from(m, polls);
    lemma_dedup_from_none(titled(polls));
}

} // verus!
