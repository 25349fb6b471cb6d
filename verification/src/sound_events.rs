//! Muted sound events: keeping a stored list to the events that exist.

use vstd::prelude::*;
use crate::text::same_chars;

verus! {

/// The texts of a list of strings.
pub open spec fn texts(v: Seq<String>) -> Seq<Seq<char>> {
    v.map_values(|s: String| s@)
}

/// `events` with every event that is not in `known` dropped, and every event
/// after its first occurrence dropped; the rest keep their order.
pub open spec fn known_events_once(events: Seq<Seq<char>>, known: Seq<Seq<char>>) -> Seq<Seq<char>>
    decreases events.len(),
{
    if events.len() == 0 {
        seq![]
    } else {
        let kept = known_events_once(events.drop_last(), known);
        let e = events.last();
        if known.contains(e) && !kept.contains(e) {
            kept.push(e)
        } else {
            kept
        }
    }
}

/// No event occurs twice.
pub open spec fn no_repeats(events: Seq<Seq<char>>) -> bool {
    forall|i: int, j: int| 0 <= i < j < events.len() ==> events[i] != events[j]
}

/// Event key of a finished transfer.
pub const SUCCESS: &'static str = "success";

/// Event key of a failed transfer.
pub const TRANSFER_FAILED: &'static str = "transfer_failed";

/// The event keys that a muted-events list may name.
pub open spec fn known_event_texts() -> Seq<Seq<char>> {
    seq![SUCCESS@, TRANSFER_FAILED@]
}

/// The event keys that a muted-events list may name.
pub fn known_sound_events() -> (r: Vec<String>)
    ensures
        texts(r@) == known_event_texts(),
{
    let mut r: Vec<String> = Vec::new();
    r.push(SUCCESS.to_owned());
    r.push(TRANSFER_FAILED.to_owned());
    assert(texts(r@) =~= known_event_texts());
    r
}

/// The event keys that start out muted: none.
pub fn default_muted_sound_events() -> (r: Vec<String>)
    ensures
        r@.len() == 0,
{
    Vec::new()
}

fn contains_text(v: &Vec<String>, s: &str) -> (r: bool)
    ensures
        r == texts(v@).contains(s@),
{
    let mut i: usize = 0;
    while i < v.len()
        invariant
            i <= v@.len(),
            forall|k: int| 0 <= k < i ==> v@[k]@ != s@,
        decreases v@.len() - i,
    {
        if same_chars(v[i].as_str(), s) {
            assert(texts(v@)[i as int] == s@);
            return true;
        }
        i = i + 1;
    }
    proof {
        if texts(v@).contains(s@) {
            let k = choose|k: int| 0 <= k < texts(v@).len() && texts(v@)[k] == s@;
            assert(v@[k]@ == s@);
        }
    }
    false
}

/// Keep only the events in `known`, each once, in the order they first occur.
pub fn normalize_known_muted_sound_events(events: &Vec<String>, known: &Vec<String>) -> (r: Vec<
    String,
>)
    ensures
        texts(r@) == known_events_once(texts(events@), texts(known@)),
{
    let mut out: Vec<String> = Vec::new();
    let mut i: usize = 0;
    while i < events.len()
        invariant
            i <= events@.len(),
            texts(out@) == known_events_once(texts(events@).take(i as int), texts(known@)),
        decreases events@.len() - i,
    {
        let e = &events[i];
        let ghost before = texts(out@);
        let keep = contains_text(known, e.as_str()) && !contains_text(&out, e.as_str());
        proof {
            let t = texts(events@).take(i + 1);
            assert(t.drop_last() =~= texts(events@).take(i as int));
            assert(t.last() == e@);
        }
        if keep {
            out.push(e.clone());
            assert(texts(out@) =~= before.push(e@));
        }
        i = i + 1;
    }
    assert(texts(events@).take(events@.len() as int) =~= texts(events@));
    out
}

/// A normalized list holds only known events and none of them twice, and
/// every known event of the input is in it.
pub proof fn lemma_known_events_once(events: Seq<Seq<char>>, known: Seq<Seq<char>>)
    ensures
        no_repeats(known_events_once(events, known)),
        forall|i: int|
            0 <= i < known_events_once(events, known).len() ==> known.contains(
                #[trigger] known_events_once(events, known)[i],
            ) && events.contains(known_events_once(events, known)[i]),
        forall|e: Seq<char>|
            events.contains(e) && known.contains(e) ==> #[trigger] known_events_once(
                events,
                known,
            ).contains(e),
    decreases events.len(),
{
    if events.len() > 0 {
        let rest = events.drop_last();
        lemma_known_events_once(rest, known);
        let kept = known_events_once(rest, known);
        let e = events.last();
        assert forall|i: int|
            0 <= i < known_events_once(events, known).len() implies events.contains(
            #[trigger] known_events_once(events, known)[i],
        ) by {
            if i < kept.len() {
                let j = choose|j: int| 0 <= j < rest.len() && rest[j] == kept[i];
                assert(events[j] == rest[j]);
            } else {
                assert(events[events.len() - 1] == e);
            }
        }
        assert forall|x: Seq<char>|
            events.contains(x) && known.contains(x) implies #[trigger] known_events_once(
            events,
            known,
        ).contains(x) by {
            let j = choose|j: int| 0 <= j < events.len() && events[j] == x;
            if j < events.len() - 1 {
                assert(rest[j] == x);
                assert(rest.contains(x));
                assert(known_events_once(rest, known).contains(x));
                let k = choose|k: int| 0 <= k < kept.len() && kept[k] == x;
                if known.contains(e) && !kept.contains(e) {
                    assert(kept.push(e)[k] == x);
                }
            } else {
                if !kept.contains(e) {
                    assert(kept.push(e)[kept.len() as int] == x);
                }
            }
        }
    }
}

/// A list that holds only known events, none twice, is kept as it is.
pub proof fn lemma_normal_list_is_kept(events: Seq<Seq<char>>, known: Seq<Seq<char>>)
    requires
        no_repeats(events),
        forall|i: int| 0 <= i < events.len() ==> known.contains(#[trigger] events[i]),
    ensures
        known_events_once(events, known) == events,
    decreases events.len(),
{
    if events.len() > 0 {
        let rest = events.drop_last();
        assert forall|i: int| 0 <= i < rest.len() implies known.contains(#[trigger] rest[i]) by {
            assert(rest[i] == events[i]);
        }
        lemma_normal_list_is_kept(rest, known);
        let e = events.last();
        assert(known.contains(events[events.len() - 1]));
        if rest.contains(e) {
            let j = choose|j: int| 0 <= j < rest.len() && rest[j] == e;
            assert(events[j] == events[events.len() - 1]);
        }
        assert(rest.push(e) =~= events);
    }
}

/// Normalizing a normalized list changes nothing, so a list survives being
/// saved and loaded again.
pub proof fn lemma_normalizing_twice_changes_nothing(events: Seq<Seq<char>>, known: Seq<Seq<char>>)
    ensures
        known_events_once(known_events_once(events, known), known) == known_events_once(
            events,
            known,
        ),
{
    lemma_known_events_once(events, known);
    lemma_normal_list_is_kept(known_events_once(events, known), known);
}

} // verus!
