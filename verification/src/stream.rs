//! Well-formedness of event streams: scroll termination and touch slot
//! discipline.
//!
//! These predicates state what a conforming backend's event stream looks
//! like, as properties of the record sequence a handler observes.  A
//! finger-sourced scroll sequence is terminated by an event with amount
//! zero, while the other scroll sources promise no terminating event; and
//! touch events correlate contacts by slot: a down opens a contact whose
//! slot is not live, motions and ups refer to live contacts, and a device
//! without multi-touch omits the slot uniformly.  Each predicate comes
//! with an executable checker a consumer or a test harness can run over a
//! recorded stream.

use vstd::prelude::*;

use crate::event::AxisSource;
use crate::record::InputRecord;
use crate::touch::TouchSlot;

verus! {

/// Whether a record is a finger-sourced scroll event.
pub open spec fn is_finger_axis(r: InputRecord) -> bool {
    match r {
        InputRecord::PointerAxis { source, .. } => source == AxisSource::Finger,
        _ => false,
    }
}

/// The scroll amount of an axis record; zero for any other record.
pub open spec fn axis_amount(r: InputRecord) -> i64 {
    match r {
        InputRecord::PointerAxis { amount, .. } => amount,
        _ => 0,
    }
}

/// Every finger-sourced scroll sequence of the stream is terminated: a
/// finger axis event that is not followed by another one (the last of its
/// run) carries amount zero.  Scroll events of other sources are not
/// constrained.
pub open spec fn finger_scrolls_terminated(s: Seq<InputRecord>) -> bool {
    forall|i: int|
        0 <= i < s.len() && #[trigger] is_finger_axis(s[i]) && (i + 1 == s.len()
            || !is_finger_axis(s[i + 1])) ==> axis_amount(s[i]) == 0
}

/// Whether a record is a finger-sourced scroll event.
pub fn record_is_finger_axis(r: &InputRecord) -> (b: bool)
    ensures
        b == is_finger_axis(*r),
{
    match r {
        InputRecord::PointerAxis { source: AxisSource::Finger, .. } => true,
        _ => false,
    }
}

/// The scroll amount of an axis record; zero for any other record.
pub fn record_axis_amount(r: &InputRecord) -> (a: i64)
    ensures
        a == axis_amount(*r),
{
    match r {
        InputRecord::PointerAxis { amount, .. } => *amount,
        _ => 0,
    }
}

/// Check that every finger-sourced scroll sequence of the recorded stream
/// is terminated by an event with amount zero.
pub fn check_finger_scrolls_terminated(events: &Vec<InputRecord>) -> (ok: bool)
    ensures
        ok == finger_scrolls_terminated(events@),
{
    let n = events.len();
    let mut ok = true;
    let mut i: usize = 0;
    while i < n
        invariant
            i <= n,
            n == events@.len(),
            ok == (forall|j: int|
                0 <= j < i && #[trigger] is_finger_axis(events@[j]) && (j + 1 == events@.len()
                    || !is_finger_axis(events@[j + 1])) ==> axis_amount(events@[j]) == 0),
        decreases n - i,
    {
        if record_is_finger_axis(&events[i]) {
            let run_ends = i + 1 == n || !record_is_finger_axis(&events[i + 1]);
            if run_ends && record_axis_amount(&events[i]) != 0 {
                ok = false;
            }
        }
        i = i + 1;
    }
    ok
}

/// The last event of a finger-sourced scroll sequence reports amount
/// zero: the stated termination guarantee of the finger source.
pub proof fn lemma_finger_sequence_ends_with_zero(s: Seq<InputRecord>, i: int)
    requires
        finger_scrolls_terminated(s),
        0 <= i < s.len(),
        is_finger_axis(s[i]),
        i + 1 == s.len() || !is_finger_axis(s[i + 1]),
    ensures
        axis_amount(s[i]) == 0,
{
}

/// A stream without finger-sourced scroll events, for example one whose
/// scrolling all comes from a wheel, is terminated whatever its amounts:
/// the termination guarantee binds the finger source alone.
pub proof fn lemma_finger_free_stream_terminated(s: Seq<InputRecord>)
    requires
        forall|i: int| 0 <= i < s.len() ==> !(#[trigger] is_finger_axis(s[i])),
    ensures
        finger_scrolls_terminated(s),
{
}

/// The ordering counter of an event record; nothing for seat lifecycle
/// and configuration notifications, which carry no counter.
pub open spec fn time_of(r: InputRecord) -> Option<u32> {
    match r {
        InputRecord::KeyboardKey { time, .. } => Some(time),
        InputRecord::PointerMotion { time, .. } => Some(time),
        InputRecord::PointerMotionAbsolute { time, .. } => Some(time),
        InputRecord::PointerButton { time, .. } => Some(time),
        InputRecord::PointerAxis { time, .. } => Some(time),
        InputRecord::TouchDown { time, .. } => Some(time),
        InputRecord::TouchMotion { time, .. } => Some(time),
        InputRecord::TouchUp { time, .. } => Some(time),
        InputRecord::TouchCancel { time, .. } => Some(time),
        InputRecord::TouchFrame { time, .. } => Some(time),
        _ => None,
    }
}

/// The ordering counters of the stream never decrease: the time counter
/// has no fixed unit and no absolute meaning, but relative order within a
/// stream is preserved.
pub open spec fn times_nondecreasing(s: Seq<InputRecord>) -> bool {
    forall|i: int, j: int|
        0 <= i < j < s.len() && #[trigger] time_of(s[i]) is Some && #[trigger] time_of(s[j])
            is Some ==> time_of(s[i]).unwrap() <= time_of(s[j]).unwrap()
}

/// The ordering counter of an event record; nothing for seat lifecycle
/// and configuration notifications.
pub fn record_time_of(r: &InputRecord) -> (time: Option<u32>)
    ensures
        time == time_of(*r),
{
    match r {
        InputRecord::KeyboardKey { time, .. } => Some(*time),
        InputRecord::PointerMotion { time, .. } => Some(*time),
        InputRecord::PointerMotionAbsolute { time, .. } => Some(*time),
        InputRecord::PointerButton { time, .. } => Some(*time),
        InputRecord::PointerAxis { time, .. } => Some(*time),
        InputRecord::TouchDown { time, .. } => Some(*time),
        InputRecord::TouchMotion { time, .. } => Some(*time),
        InputRecord::TouchUp { time, .. } => Some(*time),
        InputRecord::TouchCancel { time, .. } => Some(*time),
        InputRecord::TouchFrame { time, .. } => Some(*time),
        _ => None,
    }
}

/// Check that the ordering counters of the recorded stream never
/// decrease.
pub fn check_times_nondecreasing(events: &Vec<InputRecord>) -> (ok: bool)
    ensures
        ok == times_nondecreasing(events@),
{
    let n = events.len();
    let mut newest: Option<u32> = None;
    let mut ok = true;
    let mut i: usize = 0;
    while i < n
        invariant
            i <= n,
            n == events@.len(),
            ok == times_nondecreasing(events@.take(i as int)),
            ok ==> (match newest {
                Some(t) => (exists|j: int|
                    0 <= j < i && #[trigger] time_of(events@[j]) == Some(t)) && (forall|j: int|
                    0 <= j < i && #[trigger] time_of(events@[j]) is Some ==> time_of(
                        events@[j],
                    ).unwrap() <= t),
                None => forall|j: int| 0 <= j < i ==> !(#[trigger] time_of(events@[j]) is Some),
            }),
        decreases n - i,
    {
        if ok {
            let here = record_time_of(&events[i]);
            match here {
                Some(t) => {
                    let fine = match newest {
                        Some(prev) => prev <= t,
                        None => true,
                    };
                    proof {
                        assert(time_of(events@[i as int]) == Some(t));
                        if fine {
                            assert forall|a: int, b: int|
                                0 <= a < b < i + 1 && #[trigger] time_of(events@.take(i + 1)[a])
                                    is Some && #[trigger] time_of(events@.take(i + 1)[b])
                                    is Some implies time_of(events@.take(i + 1)[a]).unwrap()
                                <= time_of(events@.take(i + 1)[b]).unwrap() by {
                                assert(events@.take(i + 1)[a] == events@[a]);
                                assert(events@.take(i + 1)[b] == events@[b]);
                                assert(events@.take(i as int)[a] == events@[a]);
                                if b < i {
                                    assert(events@.take(i as int)[b] == events@[b]);
                                }
                            }
                        } else {
                            let w = choose|j: int|
                                0 <= j < i && #[trigger] time_of(events@[j]) == Some(
                                    newest.unwrap(),
                                );
                            assert(events@.take(i + 1)[w] == events@[w]);
                            assert(events@.take(i + 1)[i as int] == events@[i as int]);
                            assert(!times_nondecreasing(events@.take(i + 1)));
                        }
                    }
                    if fine {
                        newest = Some(t);
                    } else {
                        ok = false;
                    }
                },
                None => {
                    proof {
                        assert forall|a: int, b: int|
                            0 <= a < b < i + 1 && #[trigger] time_of(events@.take(i + 1)[a])
                                is Some && #[trigger] time_of(events@.take(i + 1)[b])
                                is Some implies time_of(events@.take(i + 1)[a]).unwrap() <= time_of(
                            events@.take(i + 1)[b],
                        ).unwrap() by {
                            assert(events@.take(i + 1)[a] == events@[a]);
                            assert(events@.take(i + 1)[b] == events@[b]);
                            assert(events@.take(i as int)[a] == events@[a]);
                            if b < i {
                                assert(events@.take(i as int)[b] == events@[b]);
                            } else {
                                assert(time_of(events@[i as int]) is None);
                            }
                        }
                    }
                },
            }
        } else {
            proof {
                let s_prev = events@.take(i as int);
                let s_next = events@.take(i + 1);
                let (a, b) = choose|a: int, b: int|
                    0 <= a < b < s_prev.len() && #[trigger] time_of(s_prev[a]) is Some
                        && #[trigger] time_of(s_prev[b]) is Some && time_of(s_prev[a]).unwrap()
                        > time_of(s_prev[b]).unwrap();
                assert(s_next[a] == events@[a] && s_prev[a] == events@[a]);
                assert(s_next[b] == events@[b] && s_prev[b] == events@[b]);
                assert(!times_nondecreasing(s_next));
            }
        }
        i = i + 1;
    }
    proof {
        assert(events@.take(n as int) =~= events@);
    }
    ok
}

/// The slot field of a touch record carrying one; nothing for records of
/// other kinds.  Frame events carry no slot.
pub open spec fn touch_slot_of(r: InputRecord) -> Option<Option<TouchSlot>> {
    match r {
        InputRecord::TouchDown { slot, .. } => Some(slot),
        InputRecord::TouchMotion { slot, .. } => Some(slot),
        InputRecord::TouchUp { slot, .. } => Some(slot),
        InputRecord::TouchCancel { slot, .. } => Some(slot),
        _ => None,
    }
}

/// Whether a record is a touch event carrying a slot value.
pub open spec fn is_touch_with_slot(r: InputRecord) -> bool {
    match touch_slot_of(r) {
        Some(slot) => slot is Some,
        None => false,
    }
}

/// Whether a record is a touch event with the slot uniformly absent.
pub open spec fn is_touch_without_slot(r: InputRecord) -> bool {
    match touch_slot_of(r) {
        Some(slot) => slot is None,
        None => false,
    }
}

/// The stream uses slots uniformly: it never mixes touch events carrying
/// a slot with touch events omitting it, the way a device without
/// multi-touch capability omits the slot across its whole stream.
pub open spec fn touch_slots_uniform(s: Seq<InputRecord>) -> bool {
    !((exists|i: int| 0 <= i < s.len() && #[trigger] is_touch_with_slot(s[i])) && (exists|j: int|
        0 <= j < s.len() && #[trigger] is_touch_without_slot(s[j])))
}

/// The slot field of a touch record carrying one; nothing for records of
/// other kinds.
pub fn record_touch_slot(r: &InputRecord) -> (slot: Option<Option<TouchSlot>>)
    ensures
        slot == touch_slot_of(*r),
{
    match r {
        InputRecord::TouchDown { slot, .. } => Some(*slot),
        InputRecord::TouchMotion { slot, .. } => Some(*slot),
        InputRecord::TouchUp { slot, .. } => Some(*slot),
        InputRecord::TouchCancel { slot, .. } => Some(*slot),
        _ => None,
    }
}

/// Check that the recorded stream uses slots uniformly.
pub fn check_touch_uniformity(events: &Vec<InputRecord>) -> (ok: bool)
    ensures
        ok == touch_slots_uniform(events@),
{
    let n = events.len();
    let mut seen_with = false;
    let mut seen_without = false;
    let mut i: usize = 0;
    while i < n
        invariant
            i <= n,
            n == events@.len(),
            seen_with == (exists|j: int| 0 <= j < i && #[trigger] is_touch_with_slot(events@[j])),
            seen_without == (exists|j: int|
                0 <= j < i && #[trigger] is_touch_without_slot(events@[j])),
        decreases n - i,
    {
        let slot_kind = record_touch_slot(&events[i]);
        let with_here = match &slot_kind {
            Some(Some(_)) => true,
            _ => false,
        };
        let without_here = match &slot_kind {
            Some(None) => true,
            _ => false,
        };
        proof {
            assert(with_here == is_touch_with_slot(events@[i as int]));
            assert(without_here == is_touch_without_slot(events@[i as int]));
        }
        if with_here {
            seen_with = true;
        }
        if without_here {
            seen_without = true;
        }
        i = i + 1;
    }
    !(seen_with && seen_without)
}

/// One step of the slot discipline: starting from the list of live
/// contacts, a down opens a contact whose slot is not yet live, a motion
/// refers to a live contact, an up or cancel releases a live contact, and
/// every other record leaves the contacts untouched.  Nothing is returned
/// when the record breaks the discipline.
pub open spec fn touch_live_step(live: Seq<Option<TouchSlot>>, r: InputRecord) -> Option<
    Seq<Option<TouchSlot>>,
> {
    match r {
        InputRecord::TouchDown { slot, .. } => if live.contains(slot) {
            None
        } else {
            Some(live.push(slot))
        },
        InputRecord::TouchMotion { slot, .. } => if live.contains(slot) {
            Some(live)
        } else {
            None
        },
        InputRecord::TouchUp { slot, .. } => if live.contains(slot) {
            Some(live.remove_value(slot))
        } else {
            None
        },
        InputRecord::TouchCancel { slot, .. } => if live.contains(slot) {
            Some(live.remove_value(slot))
        } else {
            None
        },
        _ => Some(live),
    }
}

/// The contacts live after the whole stream, in the order they were
/// opened, or nothing if some record of the stream breaks the slot
/// discipline.
pub open spec fn touch_live_after(s: Seq<InputRecord>) -> Option<Seq<Option<TouchSlot>>>
    decreases s.len(),
{
    if s.len() == 0 {
        Some(Seq::empty())
    } else {
        match touch_live_after(s.drop_last()) {
            None => None,
            Some(live) => touch_live_step(live, s.last()),
        }
    }
}

/// The stream respects the slot discipline throughout.
pub open spec fn touch_discipline_ok(s: Seq<InputRecord>) -> bool {
    touch_live_after(s) is Some
}

/// The stream is coherent as a whole: it respects the slot discipline and
/// uses slots uniformly, so every contact sequence (down, zero or more
/// motions, up or cancel) carries one slot value, or uniformly none, on
/// every event that belongs to it.
pub open spec fn touch_stream_coherent(s: Seq<InputRecord>) -> bool {
    touch_discipline_ok(s) && touch_slots_uniform(s)
}

/// Whether the two slot values are the same.
fn slot_eq(a: &Option<TouchSlot>, b: &Option<TouchSlot>) -> (r: bool)
    ensures
        r == (*a == *b),
{
    match (a, b) {
        (None, None) => true,
        (Some(x), Some(y)) => x == y,
        _ => false,
    }
}

/// The first position at which `key` is live, if it is.
fn find_slot(live: &Vec<Option<TouchSlot>>, key: &Option<TouchSlot>) -> (found: Option<usize>)
    ensures
        (match found {
            Some(j) => live@.index_of_first(*key) == Some(j as int),
            None => !live@.contains(*key),
        }),
{
    let n = live.len();
    let mut j: usize = 0;
    while j < n
        invariant
            j <= n,
            n == live@.len(),
            forall|t: int| 0 <= t < j ==> live@[t] != *key,
        decreases n - j,
    {
        if slot_eq(&live[j], key) {
            proof {
                live@.index_of_first_ensures(*key);
                let first = live@.index_of_first(*key).unwrap();
                assert(live@[j as int] == *key);
                assert(first <= j as int);
                assert(j as int <= first);
            }
            return Some(j);
        }
        j = j + 1;
    }
    proof {
        assert forall|t: int| 0 <= t < live@.len() implies live@[t] != *key by {}
    }
    None
}

/// Check that the recorded stream respects the slot discipline.
pub fn check_touch_discipline(events: &Vec<InputRecord>) -> (ok: bool)
    ensures
        ok == touch_discipline_ok(events@),
{
    let n = events.len();
    let mut live: Vec<Option<TouchSlot>> = Vec::new();
    let mut ok = true;
    let mut i: usize = 0;
    while i < n
        invariant
            i <= n,
            n == events@.len(),
            ok ==> touch_live_after(events@.take(i as int)) == Some(live@),
            !ok ==> touch_live_after(events@.take(i as int)) is None,
        decreases n - i,
    {
        if ok {
            let record = events[i];
            match record {
                InputRecord::TouchDown { slot, .. } => {
                    match find_slot(&live, &slot) {
                        Some(_) => {
                            proof {
                                live@.index_of_first_ensures(slot);
                            }
                            ok = false;
                        },
                        None => {
                            live.push(slot);
                        },
                    }
                },
                InputRecord::TouchMotion { slot, .. } => {
                    match find_slot(&live, &slot) {
                        Some(_) => {
                            proof {
                                live@.index_of_first_ensures(slot);
                            }
                        },
                        None => {
                            ok = false;
                        },
                    }
                },
                InputRecord::TouchUp { slot, .. } => {
                    match find_slot(&live, &slot) {
                        Some(j) => {
                            proof {
                                live@.index_of_first_ensures(slot);
                            }
                            live.remove(j);
                        },
                        None => {
                            ok = false;
                        },
                    }
                },
                InputRecord::TouchCancel { slot, .. } => {
                    match find_slot(&live, &slot) {
                        Some(j) => {
                            proof {
                                live@.index_of_first_ensures(slot);
                            }
                            live.remove(j);
                        },
                        None => {
                            ok = false;
                        },
                    }
                },
                _ => {},
            }
        }
        i = i + 1;
        proof {
            assert(events@.take(i as int).drop_last() =~= events@.take(i as int - 1));
            assert(events@.take(i as int).last() == events@[i as int - 1]);
        }
    }
    proof {
        assert(events@.take(n as int) =~= events@);
    }
    ok
}

/// Check that the recorded stream is coherent as a whole.
pub fn check_touch_stream(events: &Vec<InputRecord>) -> (ok: bool)
    ensures
        ok == touch_stream_coherent(events@),
{
    let disciplined = check_touch_discipline(events);
    let uniform = check_touch_uniformity(events);
    disciplined && uniform
}

/// Whether the record is a down event carrying slot value `k`.
pub open spec fn is_down_with(r: InputRecord, k: Option<TouchSlot>) -> bool {
    match r {
        InputRecord::TouchDown { slot, .. } => slot == k,
        _ => false,
    }
}

/// Whether the record releases slot value `k`: an up or a cancel event
/// carrying it.
pub open spec fn is_release_with(r: InputRecord, k: Option<TouchSlot>) -> bool {
    match r {
        InputRecord::TouchUp { slot, .. } => slot == k,
        InputRecord::TouchCancel { slot, .. } => slot == k,
        _ => false,
    }
}

/// Every prefix of a disciplined stream is disciplined.
pub proof fn lemma_discipline_prefix(s: Seq<InputRecord>, i: int)
    requires
        touch_discipline_ok(s),
        0 <= i <= s.len(),
    ensures
        touch_live_after(s.take(i)) is Some,
    decreases s.len() - i,
{
    if i == s.len() {
        assert(s.take(i) =~= s);
    } else {
        lemma_discipline_prefix(s, i + 1);
        assert(s.take(i + 1).drop_last() =~= s.take(i));
    }
}

/// Removing the first occurrence of one value keeps every other value.
proof fn lemma_remove_value_keeps_others(
    live: Seq<Option<TouchSlot>>,
    x: Option<TouchSlot>,
    k: Option<TouchSlot>,
)
    requires
        live.contains(k),
        k != x,
    ensures
        live.remove_value(x).contains(k),
{
    live.index_of_first_ensures(x);
    if live.contains(x) {
        let idx = live.index_of_first(x).unwrap();
        let rem = live.remove(idx);
        live.remove_ensures(idx);
        let t = choose|t: int| 0 <= t < live.len() && live[t] == k;
        if t < idx {
            assert(rem[t] == k);
        } else {
            assert(rem[t - 1] == k);
        }
    }
}

/// A live contact stays live across every record that does not release
/// its slot.
proof fn lemma_contact_stays_live(s: Seq<InputRecord>, i: int, j: int, k: Option<TouchSlot>)
    requires
        touch_discipline_ok(s),
        0 <= i <= j <= s.len(),
        touch_live_after(s.take(i)).unwrap().contains(k),
        forall|m: int| i <= m < j ==> !is_release_with(s[m], k),
    ensures
        touch_live_after(s.take(j)).unwrap().contains(k),
    decreases j - i,
{
    if i < j {
        lemma_discipline_prefix(s, i);
        lemma_discipline_prefix(s, i + 1);
        let live_here = touch_live_after(s.take(i)).unwrap();
        assert(s.take(i + 1).drop_last() =~= s.take(i));
        assert(s.take(i + 1).last() == s[i]);
        let live_next = touch_live_after(s.take(i + 1)).unwrap();
        assert(Some(live_next) == touch_live_step(live_here, s[i]));
        assert(!is_release_with(s[i], k));
        match s[i] {
            InputRecord::TouchDown { slot, .. } => {
                let t = choose|t: int| 0 <= t < live_here.len() && live_here[t] == k;
                assert(live_next == live_here.push(slot));
                assert(live_next[t] == k);
                assert(live_next.contains(k));
            },
            InputRecord::TouchUp { slot, .. } => {
                assert(slot != k);
                lemma_remove_value_keeps_others(live_here, slot, k);
            },
            InputRecord::TouchCancel { slot, .. } => {
                assert(slot != k);
                lemma_remove_value_keeps_others(live_here, slot, k);
            },
            _ => {},
        }
        lemma_contact_stays_live(s, i + 1, j, k);
    }
}

/// In a disciplined stream a slot value is not reused while its contact
/// is live: between two down events carrying the same slot value, an up
/// or cancel event carrying it lies strictly in between.  Together with
/// the discipline itself this is what lets a consumer correlate every
/// down, motion and up or cancel of one physical contact by its slot.
pub proof fn lemma_no_slot_reuse_while_live(
    s: Seq<InputRecord>,
    i: int,
    j: int,
    k: Option<TouchSlot>,
)
    requires
        touch_discipline_ok(s),
        0 <= i < j < s.len(),
        is_down_with(s[i], k),
        is_down_with(s[j], k),
    ensures
        exists|m: int| i < m < j && is_release_with(s[m], k),
{
    if forall|m: int| i < m < j ==> !is_release_with(s[m], k) {
        lemma_discipline_prefix(s, i);
        lemma_discipline_prefix(s, i + 1);
        lemma_discipline_prefix(s, j);
        lemma_discipline_prefix(s, j + 1);
        let live_before = touch_live_after(s.take(i)).unwrap();
        assert(s.take(i + 1).drop_last() =~= s.take(i));
        assert(s.take(i + 1).last() == s[i]);
        let live_opened = touch_live_after(s.take(i + 1)).unwrap();
        assert(live_opened == live_before.push(k));
        assert(live_opened[live_before.len() as int] == k);
        assert(live_opened.contains(k));
        lemma_contact_stays_live(s, i + 1, j, k);
        let live_at_j = touch_live_after(s.take(j)).unwrap();
        assert(live_at_j.contains(k));
        assert(s.take(j + 1).drop_last() =~= s.take(j));
        assert(s.take(j + 1).last() == s[j]);
        assert(touch_live_after(s.take(j + 1)) is None);
        assert(false);
    }
}

} // verus!
