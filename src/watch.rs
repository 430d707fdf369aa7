//! Change detection for the subscription stream: each poll's snapshot is
//! compared with the last one emitted, and only changes are passed on.
use vstd::prelude::*;
use crate::snapshot::{NowPlayingInfo, opt_view};

verus! {

/// Whether two snapshots describe the same thing for a subscriber: equal
/// title, artist and playing state. Duration, elapsed time and artwork are
/// not compared.
pub open spec fn same_track(a: NowPlayingInfo, b: NowPlayingInfo) -> bool {
    a.title@ == b.title@ && opt_view(a.artist) == opt_view(b.artist) && a.playing == b.playing
}

/// One poll: from the last emitted snapshot and what the poll returned, the
/// new last emitted snapshot and what is emitted now. A snapshot is emitted
/// when nothing was emitted before or it differs from the last one; no
/// snapshot clears the last one without emitting.
pub open spec fn step(last: Option<NowPlayingInfo>, polled: Option<NowPlayingInfo>) -> (
    Option<NowPlayingInfo>,
    Option<NowPlayingInfo>,
) {
    match polled {
        None => (None, None),
        Some(info) => match last {
            Some(prev) => if same_track(prev, info) {
                (Some(prev), None)
            } else {
                (Some(info), Some(info))
            },
            None => (Some(info), Some(info)),
        },
    }
}

/// Everything emitted over a run of polls, starting from `last`.
pub open spec fn emissions(last: Option<NowPlayingInfo>, polls: Seq<Option<NowPlayingInfo>>) -> Seq<
    NowPlayingInfo,
>
    decreases polls.len(),
{
    if polls.len() == 0 {
        Seq::empty()
    } else {
        let (next, out) = step(last, polls[0]);
        let rest = emissions(next, polls.drop_first());
        match out {
            Some(i) => seq![i] + rest,
            None => rest,
        }
    }
}

fn same_text(a: &Option<String>, b: &Option<String>) -> (r: bool)
    ensures
        r == (opt_view(*a) == opt_view(*b)),
{
    match a {
        Some(x) => match b {
            Some(y) => *x == *y,
            None => false,
        },
        None => b.is_none(),
    }
}

/// Whether `info` differs from `prev` in title, artist or playing state.
pub fn has_changed(prev: &NowPlayingInfo, info: &NowPlayingInfo) -> (r: bool)
    ensures
        r == !same_track(*prev, *info),
{
    !(prev.title == info.title && same_text(&prev.artist, &info.artist) && prev.playing
        == info.playing)
}

/// The state of one subscription: the last snapshot emitted, if any.
pub struct ChangeDetector {
    pub last: Option<NowPlayingInfo>,
}

impl ChangeDetector {
    /// A detector that has emitted nothing.
    pub fn new() -> (r: ChangeDetector)
        ensures
            r.last is None,
    {
        ChangeDetector { last: None }
    }

    /// Takes one poll's result and returns what to emit, if anything.
    pub fn tick(&mut self, polled: Option<NowPlayingInfo>) -> (r: Option<NowPlayingInfo>)
        ensures
            (final(self).last, r) == step(old(self).last, polled),
    {
        match polled {
            None => {
                self.last = None;
                None
            },
            Some(info) => {
                let changed = match &self.last {
                    Some(prev) => has_changed(prev, &info),
                    None => true,
                };
                if changed {
                    let out = info.duplicate();
                    self.last = Some(info);
                    Some(out)
                } else {
                    None
                }
            },
        }
    }
}

proof fn lemma_quiet_while_same(last: NowPlayingInfo, polls: Seq<Option<NowPlayingInfo>>)
    requires
        forall|k: int|
            0 <= k < polls.len() ==> (#[trigger] polls[k] matches Some(x) && same_track(last, x)),
    ensures
        emissions(Some(last), polls) == Seq::<NowPlayingInfo>::empty(),
    decreases polls.len(),
{
    if polls.len() > 0 {
        let d = polls.drop_first();
        assert forall|k: int| 0 <= k < d.len() implies (#[trigger] d[k] matches Some(x)
            && same_track(last, x)) by {
            assert(d[k] == polls[k + 1]);
        }
        lemma_quiet_while_same(last, d);
        assert(polls[0] matches Some(x) && same_track(last, x));
    }
}

/// A session that is present from the first poll on and keeps its title,
/// artist and playing state is emitted exactly once, on the first poll.
pub proof fn lemma_steady_session(polls: Seq<Option<NowPlayingInfo>>)
    requires
        polls.len() > 0,
        polls[0] is Some,
        forall|k: int|
            0 <= k < polls.len() ==> (#[trigger] polls[k] matches Some(x) && same_track(
                polls[0].unwrap(),
                x,
            )),
    ensures
        emissions(None, polls) == seq![polls[0].unwrap()],
{
    let first = polls[0].unwrap();
    let d = polls.drop_first();
    assert forall|k: int| 0 <= k < d.len() implies (#[trigger] d[k] matches Some(x) && same_track(
        first,
        x,
    )) by {
        assert(d[k] == polls[k + 1]);
    }
    lemma_quiet_while_same(first, d);
    assert(emissions(None, polls) =~= seq![first]);
}

/// A session that disappears is not emitted on that poll, and when it
/// reappears it is emitted once more, even with the same metadata.
pub proof fn lemma_reappearance(last: Option<NowPlayingInfo>, info: NowPlayingInfo)
    ensures
        emissions(last, seq![None, Some(info)]) == seq![info],
        step(last, None) == (None::<NowPlayingInfo>, None::<NowPlayingInfo>),
{
    let polls = seq![None, Some(info)];
    assert(polls.drop_first() =~= seq![Some(info)]);
    let tail = seq![Some(info)];
    assert(tail.drop_first() =~= Seq::<Option<NowPlayingInfo>>::empty());
    assert(tail[0] == Some(info));
    assert(emissions(Some(info), tail.drop_first()) == Seq::<NowPlayingInfo>::empty());
    assert(emissions(None, tail) =~= seq![info]);
    assert(emissions(last, polls) =~= seq![info]);
}

} // verus!
