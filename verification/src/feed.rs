//! The timeline feed: the stored experiences of a time range, followed by one
//! offer to create an experience for each hour of the range.

use vstd::prelude::*;
use crate::error::{ApiError, ApiErrorView};
use crate::event::{
    feed_view, CompressedEvent, CompressedEventView, CompressedExperienceEvent,
    CompressedExperienceEventView, Event,
};
use crate::timing::{
    lemma_at_is_valid, lemma_at_own_view, lemma_empty_range_covers_nothing, Instant, TimeRange,
    Timing, NANOS_PER_HOUR,
};

verus! {

/// What the store hands over for one record: the event, or the reason why
/// the record could not be read.
pub type StoredRecord = Result<Event, String>;

/// The number of offers in a range: one for each hour that starts inside it,
/// counted from the start of the range. That is the length of the range in
/// hours, rounded up.
pub open spec fn placeholder_count(range: TimeRange) -> nat {
    if range.end@ <= range.start@ {
        0
    } else {
        ((range.end@ - range.start@ + NANOS_PER_HOUR - 1) / (NANOS_PER_HOUR as int)) as nat
    }
}

/// The feed entry that offers to create an experience at `t`.
pub open spec fn placeholder_entry(t: Instant) -> CompressedEventView {
    CompressedEventView {
        title: "Create Experience"@,
        time: Timing::Instant(t),
        data: CompressedExperienceEventView::Create(Timing::Instant(t)),
    }
}

/// The offers of a range: the `k`-th lies `k` hours after the start.
pub open spec fn placeholder_entries(range: TimeRange) -> Seq<CompressedEventView> {
    Seq::new(placeholder_count(range), |k: int| placeholder_entry(range.start.plus_hours(k)))
}

/// The feed entry of a stored experience.
pub open spec fn experience_entry(event: Event) -> CompressedEventView {
    CompressedEventView {
        title: event.event.name@,
        time: event.timing,
        data: CompressedExperienceEventView::Experience(event.event.id@),
    }
}

/// The feed entry of a record, where it is an event whose timing lies inside
/// the range.
pub open spec fn stored_entry(range: TimeRange, record: StoredRecord) -> Option<
    CompressedEventView,
> {
    match record {
        Ok(event) => if range.covers(event.timing) {
            Some(experience_entry(event))
        } else {
            None
        },
        Err(_) => None,
    }
}

/// The entries of the records that lie inside the range, in the order of the
/// records.
pub open spec fn stored_entries(range: TimeRange, records: Seq<StoredRecord>) -> Seq<
    CompressedEventView,
> {
    records.filter_map(|record: StoredRecord| stored_entry(range, record))
}

/// Whether the record at `i` is the first that could not be read.
pub open spec fn is_first_failure(records: Seq<StoredRecord>, i: int) -> bool {
    &&& 0 <= i < records.len()
    &&& records[i] is Err
    &&& forall|j: int| 0 <= j < i ==> (#[trigger] records[j]) is Ok
}

/// Whether every record could be read.
pub open spec fn all_readable(records: Seq<StoredRecord>) -> bool {
    forall|i: int| 0 <= i < records.len() ==> (#[trigger] records[i]) is Ok
}

/// One offer to create an experience for each hour of the range: the first
/// at the start of the range, each next one an hour later, as long as it
/// lies before the end.
pub fn create_placeholders(range: &TimeRange) -> (out: Vec<CompressedEvent>)
    ensures
        feed_view(out@) == placeholder_entries(*range),
        out@.len() == placeholder_count(*range),
{
    let mut out: Vec<CompressedEvent> = Vec::new();
    let mut current: Instant = range.start;
    let ghost mut k: int = 0;
    proof {
        use_type_invariant(&range.start);
        use_type_invariant(&range.end);
        lemma_at_own_view(range.start);
    }
    while current.is_before(&range.end)
        invariant_except_break
            current.wf(),
            current@ == range.start@ + k * NANOS_PER_HOUR,
            k > 0 ==> range.start@ + (k - 1) * NANOS_PER_HOUR < range.end@,
        invariant
            range.start.wf(),
            range.end.wf(),
            0 <= k,
            out@.len() == k,
            forall|j: int|
                0 <= j < k ==> (#[trigger] out@[j])@ == placeholder_entry(
                    range.start.plus_hours(j),
                ),
        ensures
            k == placeholder_count(*range),
        decreases range.end@ + NANOS_PER_HOUR - current@,
    {
        let timing = Timing::Instant(current);
        proof {
            lemma_at_own_view(current);
        }
        out.push(
            CompressedEvent {
                title: String::from_str("Create Experience"),
                time: timing,
                data: CompressedExperienceEvent::Create(timing),
            },
        );
        proof {
            k = k + 1;
        }
        let next = current.checked_add_hour();
        if next.is_none() {
            break ;
        }
        current = next.unwrap();
    }
    assert(feed_view(out@) =~= placeholder_entries(*range));
    out
}

/// The feed of a range: an entry for each stored experience whose timing
/// lies inside the range, in the order of the records, and after them the
/// offers to create one. A record that could not be read fails the whole
/// feed, with the reason of the first such record.
pub fn compressed_events(range: &TimeRange, records: &Vec<StoredRecord>) -> (out: Result<
    Vec<CompressedEvent>,
    ApiError,
>)
    ensures
        out is Ok <==> all_readable(records@),
        out matches Ok(feed) ==> feed_view(feed@) == stored_entries(*range, records@)
            + placeholder_entries(*range),
        out matches Err(e) ==> exists|i: int|
            is_first_failure(records@, i) && e@ == ApiErrorView::PersistenceError(
                #[trigger] records@[i]->Err_0@,
            ),
{
    let mut out: Vec<CompressedEvent> = Vec::new();
    let ghost entry_of = |record: StoredRecord| stored_entry(*range, record);
    let mut i: usize = 0;
    while i < records.len()
        invariant
            i <= records@.len(),
            forall|j: int| 0 <= j < i ==> (#[trigger] records@[j]) is Ok,
            entry_of == |record: StoredRecord| stored_entry(*range, record),
            feed_view(out@) == records@.take(i as int).filter_map(entry_of),
        decreases records@.len() - i,
    {
        proof {
            records@.lemma_filter_map_take_succ(entry_of, i as int);
        }
        match &records[i] {
            Err(reason) => {
                assert(is_first_failure(records@, i as int) && records@[i as int]->Err_0@
                    == reason@);
                return Err(ApiError::PersistenceError(reason.clone()));
            },
            Ok(event) => {
                if range.contains(&event.timing) {
                    let ghost before = feed_view(out@);
                    out.push(
                        CompressedEvent {
                            title: event.event.name.clone(),
                            time: event.timing,
                            data: CompressedExperienceEvent::Experience(event.event.id.clone()),
                        },
                    );
                    assert(feed_view(out@) =~= before.push(experience_entry(*event)));
                }
            },
        }
        i = i + 1;
    }
    assert(records@.take(i as int) =~= records@);
    let ghost stored = feed_view(out@);
    let mut offers = create_placeholders(range);
    let ghost offered = feed_view(offers@);
    out.append(&mut offers);
    assert(feed_view(out@) =~= stored + offered);
    Ok(out)
}

/// The offers of a range step through it by hours. Their number is the
/// length of the range in hours, rounded up: none for a range that ends where
/// it starts or before, and otherwise the one number `n` for which the range
/// is longer than `n - 1` hours and not longer than `n`. The `k`-th offer is
/// timed at the instant `k` hours after the start of the range, which lies in
/// the range.
pub proof fn lemma_placeholders_step_by_hours(range: TimeRange)
    requires
        range.start.wf(),
        range.end.wf(),
    ensures
        placeholder_entries(range).len() == placeholder_count(range),
        range.end@ <= range.start@ ==> placeholder_count(range) == 0,
        range.start@ < range.end@ ==> (placeholder_count(range) - 1) * NANOS_PER_HOUR < range.end@
            - range.start@ <= placeholder_count(range) * NANOS_PER_HOUR,
        forall|k: int|
            #![trigger placeholder_entries(range)[k]]
            0 <= k < placeholder_count(range) ==> {
                let t = range.start.plus_hours(k);
                &&& placeholder_entries(range)[k] == placeholder_entry(t)
                &&& t.wf()
                &&& t@ == range.start@ + k * NANOS_PER_HOUR
                &&& range.covers_instant(t)
            },
{
    assert forall|k: int|
        #![trigger placeholder_entries(range)[k]]
        0 <= k < placeholder_count(range) implies {
        let t = range.start.plus_hours(k);
        &&& placeholder_entries(range)[k] == placeholder_entry(t)
        &&& t.wf()
        &&& t@ == range.start@ + k * NANOS_PER_HOUR
        &&& range.covers_instant(t)
    } by {
        lemma_at_is_valid(range.start@ + k * NANOS_PER_HOUR);
    }
}

/// Whether `entry` is the feed entry of the record at `i`.
pub open spec fn entry_comes_from(
    range: TimeRange,
    records: Seq<StoredRecord>,
    i: int,
    entry: CompressedEventView,
) -> bool {
    0 <= i < records.len() && stored_entry(range, records[i]) == Some(entry)
}

/// The stored part of the feed holds exactly one entry for each record that
/// is an event with its timing inside the range, in the order of the
/// records, and nothing else: records outside the range have no entry.
pub proof fn lemma_one_entry_per_record_in_range(range: TimeRange, records: Seq<StoredRecord>)
    ensures
        stored_entries(range, records) == records.filter(
            |record: StoredRecord| stored_entry(range, record) is Some,
        ).map_values(|record: StoredRecord| stored_entry(range, record)->Some_0),
        forall|i: int|
            0 <= i < records.len() && stored_entry(range, #[trigger] records[i]) is Some
                ==> stored_entries(range, records).contains(
                stored_entry(range, records[i])->Some_0,
            ),
        forall|entry: CompressedEventView| #[trigger]
            stored_entries(range, records).contains(entry) ==> exists|i: int|
                entry_comes_from(range, records, i, entry),
    decreases records.len(),
{
    let inside = |record: StoredRecord| stored_entry(range, record) is Some;
    let unwrapped = |record: StoredRecord| stored_entry(range, record)->Some_0;
    let kept = records.filter(inside).map_values(unwrapped);
    let entries = stored_entries(range, records);
    if records.len() == 0 {
        reveal(Seq::filter);
        assert(entries =~= kept);
    } else {
        let rest = records.drop_last();
        let last = records.last();
        lemma_one_entry_per_record_in_range(range, rest);
        assert(rest.push(last) =~= records);
        rest.lemma_filter_push(last, inside);
        let rest_entries = stored_entries(range, rest);
        assert(entries =~= kept);
        assert forall|i: int|
            0 <= i < records.len() && stored_entry(range, #[trigger] records[i]) is Some
            implies entries.contains(stored_entry(range, records[i])->Some_0) by {
            let wanted = stored_entry(range, records[i])->Some_0;
            if i < rest.len() {
                assert(rest[i] == records[i]);
                assert(rest_entries.contains(wanted));
                let at = choose|at: int| 0 <= at < rest_entries.len() && rest_entries[at] == wanted;
                assert(entries[at] == wanted);
            } else {
                assert(entries.last() == wanted);
            }
        }
        assert forall|entry: CompressedEventView| #[trigger] entries.contains(entry) implies exists|
            i: int,
        | entry_comes_from(range, records, i, entry) by {
            let at = choose|at: int| 0 <= at < entries.len() && entries[at] == entry;
            if at < rest_entries.len() {
                assert(rest_entries[at] == entry);
                assert(rest_entries.contains(entry));
                let i = choose|i: int| entry_comes_from(range, rest, i, entry);
                assert(records[i] == rest[i]);
                assert(entry_comes_from(range, records, i, entry));
            } else {
                assert(entry_comes_from(range, records, records.len() - 1, entry));
            }
        }
    }
}

/// A range that ends where it starts, or before, has an empty feed: no
/// offer, and no stored entry whatever the records are.
pub proof fn lemma_empty_range_feeds_nothing(range: TimeRange, records: Seq<StoredRecord>)
    requires
        range.end@ <= range.start@,
    ensures
        placeholder_entries(range).len() == 0,
        stored_entries(range, records).len() == 0,
        (stored_entries(range, records) + placeholder_entries(range)).len() == 0,
    decreases records.len(),
{
    if records.len() > 0 {
        lemma_empty_range_feeds_nothing(range, records.drop_last());
        if records.last() is Ok {
            lemma_empty_range_covers_nothing(range, records.last()->Ok_0.timing);
        }
    }
}

} // verus!
