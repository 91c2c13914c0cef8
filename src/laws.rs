//! Properties that relate the library's functions, proved over their
//! specifications.
use vstd::prelude::*;
use crate::clock::{clock_label, LocalTime};
use crate::entry::{flat_entry, log_entry};
use crate::paths::{daily_path_of, working_memory_path_of, EntryError};
use crate::shards::{EventView, Plan, QuickShards};
use crate::tags::{route_spec, Tag};
use crate::text::{is_prefix, without};

verus! {

/// Routing picks the first rule whose tag starts the message: the result is
/// that rule's label, `":: "`, and the message with the tag removed.
pub proof fn lemma_route_first_match(rules: Seq<Tag>, message: Seq<char>, i: int)
    requires
        0 <= i < rules.len(),
        is_prefix(rules[i].tag@, message),
        forall|j: int| 0 <= j < i ==> !is_prefix(#[trigger] rules[j].tag@, message),
    ensures
        route_spec(rules, message) == rules[i].value@ + seq![':', ':', ' '] + without(
            message,
            rules[i].tag@,
        ),
    decreases i,
{
    if i > 0 {
        assert(!is_prefix(rules[0].tag@, message));
        let rest = rules.drop_first();
        assert forall|j: int| 0 <= j < i - 1 implies !is_prefix(#[trigger] rest[j].tag@, message) by {
            assert(rest[j] == rules[j + 1]);
        }
        lemma_route_first_match(rest, message, i - 1);
    }
}

/// Where no rule's tag starts the message, routing leaves it as it is.
pub proof fn lemma_route_no_match(rules: Seq<Tag>, message: Seq<char>)
    requires
        forall|j: int| 0 <= j < rules.len() ==> !is_prefix(#[trigger] rules[j].tag@, message),
    ensures
        route_spec(rules, message) == message,
    decreases rules.len(),
{
    if rules.len() > 0 {
        let rest = rules.drop_first();
        assert forall|j: int| 0 <= j < rest.len() implies !is_prefix(#[trigger] rest[j].tag@, message) by {
            assert(rest[j] == rules[j + 1]);
        }
        lemma_route_no_match(rest, message);
    }
}

/// With no tag rules, every message passes through unchanged.
pub proof fn lemma_route_empty_rules(message: Seq<char>)
    ensures
        route_spec(Seq::<Tag>::empty(), message) == message,
{
}

/// Within one run the daily note is resolved once from the clock reading
/// taken at the start: every entry of the run goes to the same note, the one
/// for that reading, under the timestamp of that same reading.
pub proof fn lemma_daily_destination_stable(
    app: QuickShards,
    now: LocalTime,
    first: Seq<char>,
    second: Seq<char>,
)
    requires
        !app.cli.working_memory,
        daily_path_of(app.config, now) is Some,
    ensures
        app.entry_plan(first, now) == Plan::Append(
            daily_path_of(app.config, now)->0,
            log_entry(clock_label(now), app.tagged(first)),
        ),
        app.entry_plan(first, now) matches Plan::Append(p1, _) && app.entry_plan(
            second,
            now,
        ) matches Plan::Append(p2, _) && p1 == p2,
{
}

/// A working-memory entry is one flat bullet of the routed message: the
/// clock plays no part in it.
pub proof fn lemma_working_memory_flat(
    app: QuickShards,
    raw: Seq<char>,
    now1: LocalTime,
    now2: LocalTime,
)
    requires
        app.cli.working_memory,
    ensures
        app.entry_plan(raw, now1) == app.entry_plan(raw, now2),
        working_memory_path_of(app.config) matches Some(p) ==> app.entry_plan(raw, now1)
            == Plan::Append(p, flat_entry(app.tagged(raw))),
{
}

/// A missing destination ends the run with `DestinationNotFound`; the run
/// never goes on to write.
pub proof fn lemma_missing_destination_fails(app: QuickShards, now: LocalTime)
    ensures
        app.plan(now, EventView::DestinationMissing) == Plan::Fail(
            EntryError::DestinationNotFound,
        ),
{
}

} // verus!
