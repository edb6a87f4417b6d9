//! Forwarding the engine's events, with frame notices collapsed.
//!
//! The engine posts one notice per decoded frame. If drawing falls even slightly
//! behind, those pile up and every redraw shows a frame the sound has already passed.
//! Only the newest frame is worth drawing, so anything already waiting is dropped in
//! favour of it.

use vstd::prelude::*;

use crate::engine::Event;

verus! {

/// Whether an event announces a frame.
pub open spec fn is_frame(event: Event) -> bool {
    event is Frame
}

/// Whether any of some events announces a frame.
pub open spec fn any_frame(events: Seq<Event>) -> bool {
    exists|i: int| 0 <= i < events.len() && is_frame(#[trigger] events[i])
}

/// A batch of events without the frames that a later one in it supersedes.
pub open spec fn collapsed(batch: Seq<Event>) -> Seq<Event>
    decreases batch.len(),
{
    if batch.len() == 0 {
        Seq::empty()
    } else if is_frame(batch[0]) && any_frame(batch.drop_first()) {
        collapsed(batch.drop_first())
    } else {
        seq![batch[0]] + collapsed(batch.drop_first())
    }
}

/// Drop the frames that a later one in the batch supersedes, and keep everything else
/// in order.
pub fn collapse(batch: Vec<Event>) -> (r: Vec<Event>)
    ensures
        r@ == collapsed(batch@),
{
    let ghost all = batch@;
    let mut waiting: Vec<Event> = batch;
    let mut backwards: Vec<Event> = Vec::new();
    let mut seen: bool = false;
    proof {
        assert(all.skip(all.len() as int) =~= Seq::<Event>::empty());
        assert(backwards@.reverse() =~= Seq::<Event>::empty());
    }
    while waiting.len() > 0
        invariant
            waiting@.len() <= all.len(),
            waiting@ =~= all.take(waiting@.len() as int),
            seen == any_frame(all.skip(waiting@.len() as int)),
            backwards@.reverse() == collapsed(all.skip(waiting@.len() as int)),
        decreases waiting@.len(),
    {
        let ghost n = waiting@.len() as int;
        let ghost before = backwards@;
        let event: Event = waiting.pop().unwrap();
        proof {
            let tail = all.skip(n - 1);
            assert(tail[0] == event);
            assert(tail.drop_first() =~= all.skip(n));
            if any_frame(tail.drop_first()) {
                let i = choose|i: int|
                    0 <= i < tail.drop_first().len() && is_frame(
                        #[trigger] tail.drop_first()[i],
                    );
                assert(is_frame(tail[i + 1]));
            }
            if any_frame(tail) && !is_frame(event) {
                let i = choose|i: int| 0 <= i < tail.len() && is_frame(#[trigger] tail[i]);
                assert(is_frame(tail.drop_first()[i - 1]));
            }
        }
        let frame: bool = matches!(event, Event::Frame(..));
        if !(frame && seen) {
            proof {
                assert(before.push(event).reverse() =~= seq![event] + before.reverse());
            }
            backwards.push(event);
        }
        if frame {
            seen = true;
        }
    }
    proof {
        assert(all.skip(0) =~= all);
    }
    let ghost kept = backwards@;
    let mut r: Vec<Event> = Vec::new();
    while backwards.len() > 0
        invariant
            backwards@.len() <= kept.len(),
            backwards@ =~= kept.take(backwards@.len() as int),
            r@ =~= kept.skip(backwards@.len() as int).reverse(),
        decreases backwards@.len(),
    {
        let event: Event = backwards.pop().unwrap();
        r.push(event);
    }
    proof {
        assert(kept.skip(0) =~= kept);
    }
    r
}

/// The frames among some events.
pub open spec fn frames(events: Seq<Event>) -> Seq<Event> {
    events.filter(|event: Event| is_frame(event))
}

/// The events among some that announce no frame.
pub open spec fn others(events: Seq<Event>) -> Seq<Event> {
    events.filter(|event: Event| !is_frame(event))
}

/// Of a batch, at most one frame is left, and it is the newest; every other event is
/// left, in the order in which it came.
pub proof fn lemma_only_the_newest_frame_is_left(batch: Seq<Event>)
    ensures
        others(collapsed(batch)) == others(batch),
        frames(collapsed(batch)) == (if any_frame(batch) {
            seq![frames(batch).last()]
        } else {
            Seq::empty()
        }),
        any_frame(batch) <==> frames(batch).len() > 0,
    decreases batch.len(),
{
    if batch.len() == 0 {
        reveal(Seq::filter);
        assert(frames(batch) =~= Seq::empty());
        assert(frames(collapsed(batch)) =~= Seq::empty());
    } else {
        let first = batch[0];
        let rest = batch.drop_first();
        lemma_only_the_newest_frame_is_left(rest);
        assert(batch =~= seq![first] + rest);
        lemma_parts(first, rest);
        lemma_parts(first, collapsed(rest));
        lemma_any_frame(first, rest);
        if is_frame(first) {
            if any_frame(rest) {
                assert(frames(batch).last() == frames(rest).last());
            } else {
                assert(frames(batch) =~= seq![first]);
                assert(frames(seq![first] + collapsed(rest)) =~= seq![first]);
            }
        } else {
            assert(frames(batch) =~= frames(rest));
            assert(frames(seq![first] + collapsed(rest)) =~= frames(collapsed(rest)));
        }
    }
}

/// Some events announce a frame where the first does or any of the rest.
proof fn lemma_any_frame(first: Event, rest: Seq<Event>)
    ensures
        any_frame(seq![first] + rest) == (is_frame(first) || any_frame(rest)),
{
    let all = seq![first] + rest;
    if is_frame(first) {
        assert(is_frame(all[0]));
    } else if any_frame(rest) {
        let i = choose|i: int| 0 <= i < rest.len() && is_frame(#[trigger] rest[i]);
        assert(is_frame(all[i + 1]));
    } else if any_frame(all) {
        let i = choose|i: int| 0 <= i < all.len() && is_frame(#[trigger] all[i]);
        assert(is_frame(rest[i - 1]));
    }
}

/// The first of some events is either a frame or not.
proof fn lemma_parts(first: Event, rest: Seq<Event>)
    ensures
        frames(seq![first] + rest) == (if is_frame(first) {
            seq![first] + frames(rest)
        } else {
            frames(rest)
        }),
        others(seq![first] + rest) == (if is_frame(first) {
            others(rest)
        } else {
            seq![first] + others(rest)
        }),
{
    lemma_filter_head(first, rest, |event: Event| is_frame(event));
    lemma_filter_head(first, rest, |event: Event| !is_frame(event));
    assert(Seq::<Event>::empty() + frames(rest) =~= frames(rest));
    assert(Seq::<Event>::empty() + others(rest) =~= others(rest));
}

/// Filtering a sequence filters its first element and its rest.
proof fn lemma_filter_head(first: Event, rest: Seq<Event>, keep: spec_fn(Event) -> bool)
    ensures
        (seq![first] + rest).filter(keep) == (if keep(first) {
            seq![first]
        } else {
            Seq::empty()
        }) + rest.filter(keep),
    decreases rest.len(),
{
    reveal(Seq::filter);
    let all = seq![first] + rest;
    if rest.len() == 0 {
        assert(all.drop_last() =~= Seq::<Event>::empty());
        assert(all.last() == first);
        assert(Seq::<Event>::empty().filter(keep) =~= Seq::<Event>::empty());
        assert(rest.filter(keep) =~= Seq::<Event>::empty());
        assert(all.filter(keep) =~= (if keep(first) {
            seq![first]
        } else {
            Seq::empty()
        }) + rest.filter(keep));
    } else {
        lemma_filter_head(first, rest.drop_last(), keep);
        assert(all.drop_last() =~= seq![first] + rest.drop_last());
        assert(all.last() == rest.last());
        assert(all.filter(keep) =~= (if keep(first) {
            seq![first]
        } else {
            Seq::empty()
        }) + rest.filter(keep));
    }
}

/// What a later frame supersedes is an earlier frame, and never any other event.
pub proof fn lemma_only_frames_are_dropped(batch: Seq<Event>, event: Event)
    requires
        batch.contains(event),
        !(event matches Event::Frame(..)),
    ensures
        collapsed(batch).contains(event),
    decreases batch.len(),
{
    let rest = batch.drop_first();
    let kept = collapsed(rest);
    let i = choose|i: int| 0 <= i < batch.len() && batch[i] == event;
    if i == 0 {
        assert((seq![batch[0]] + kept)[0] == event);
    } else {
        assert(rest[i - 1] == event);
        lemma_only_frames_are_dropped(rest, event);
        let k = choose|k: int| 0 <= k < kept.len() && kept[k] == event;
        assert((seq![batch[0]] + kept)[k + 1] == event);
    }
}

/// A frame ahead of another is dropped, and a batch without two frames is left as it is.
pub proof fn lemma_a_frame_gives_way(batch: Seq<Event>, i: int, j: int)
    requires
        0 <= i < j < batch.len(),
        batch[i] is Frame,
        batch[j] is Frame,
    ensures
        collapsed(batch).len() < batch.len(),
        collapsed(batch) == collapsed(batch.remove(i)),
    decreases batch.len(),
{
    let rest = batch.drop_first();
    lemma_no_longer(rest);
    if i == 0 {
        assert(rest[j - 1] == batch[j]);
        assert(is_frame(rest[j - 1]));
        assert(batch.remove(0) =~= rest);
    } else {
        assert(rest[i - 1] == batch[i] && rest[j - 1] == batch[j]);
        lemma_a_frame_gives_way(rest, i - 1, j - 1);
        let less = batch.remove(i);
        assert(less.drop_first() =~= rest.remove(i - 1));
        assert(less[0] == batch[0]);
        assert(is_frame(rest[i - 1]));
        assert(is_frame(rest.remove(i - 1)[j - 2]));
    }
}

proof fn lemma_no_longer(batch: Seq<Event>)
    ensures
        collapsed(batch).len() <= batch.len(),
    decreases batch.len(),
{
    if batch.len() > 0 {
        lemma_no_longer(batch.drop_first());
    }
}

} // verus!
