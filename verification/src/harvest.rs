//! What a harvest is: which pages are asked for, when the asking stops, and
//! which messages are kept.
//!
//! A channel's history is read backwards, a page at a time.  Each page is
//! sorted by time, so that its first message is its oldest; the pages are
//! strung together as they come; and in the end the messages of the wanted
//! month are picked out.  The asking stops at a page that is empty or whose
//! oldest message has walked past the month.

use crate::error::Error;
use crate::models::discord::{Message, MessageView};
use crate::sorting::{sorted_refs, stable_sorted, stable_sorted_is_permutation};
use crate::time::MonthWindow;
use vstd::prelude::*;
use vstd::seq_lib::*;

verus! {

/// How many messages one fetch asks for.
pub const PAGE_SIZE: i32 = 10;

/// The key by which a page is sorted: the time a message was written.
pub open spec fn by_time() -> spec_fn(MessageView) -> int {
    |m: MessageView| m.timestamp.time_key()
}

/// The test that picks the messages written in the month.
pub open spec fn in_month(window: MonthWindow) -> spec_fn(MessageView) -> bool {
    |m: MessageView| window.holds(m.timestamp)
}

/// A page with its oldest message first and its newest last; messages of one
/// instant stay in the order of the transport.
pub open spec fn time_sorted(page: Seq<MessageView>) -> Seq<MessageView> {
    stable_sorted(page, by_time())
}

/// The oldest message of a page that is not empty.
pub open spec fn oldest(page: Seq<MessageView>) -> MessageView {
    time_sorted(page)[0]
}

/// The page ends the harvest: it is empty, or its oldest message has walked
/// past the month.
pub open spec fn ends_harvest(page: Seq<MessageView>, window: MonthWindow) -> bool {
    page.len() == 0 || window.passed_at(oldest(page).timestamp)
}

/// The pages strung together, each sorted by time.
pub open spec fn gathered(pages: Seq<Seq<MessageView>>) -> Seq<MessageView> {
    pages.map_values(|page: Seq<MessageView>| time_sorted(page)).flatten()
}

/// What a harvest over the pages keeps: of all that was gathered, the
/// messages of the month.
pub open spec fn harvested(pages: Seq<Seq<MessageView>>, window: MonthWindow) -> Seq<MessageView> {
    gathered(pages).filter(in_month(window))
}

/// One fetch of a harvest: the message after which a page was asked for, and
/// what came back.
pub struct Fetch {
    pub after: Option<String>,
    pub reply: Result<Vec<Message>, Error>,
}

/// The page a fetch brought; none where it failed.
pub open spec fn page_of(fetch: Fetch) -> Seq<MessageView> {
    match fetch.reply {
        Ok(page) => page.deep_view(),
        Err(_) => Seq::empty(),
    }
}

/// The pages of a run of fetches.
pub open spec fn pages_of(log: Seq<Fetch>) -> Seq<Seq<MessageView>> {
    log.map_values(|fetch: Fetch| page_of(fetch))
}

/// After this fetch another one is made: it brought a page, and the page does
/// not end the harvest.
pub open spec fn goes_on(fetch: Fetch, window: MonthWindow) -> bool {
    fetch.reply is Ok && !ends_harvest(page_of(fetch), window)
}

/// The fetches are those of one harvest for the month, from the first to the
/// last: the first asks for the newest page, each later one for the page after
/// the oldest message of the page before, and the only fetch after which
/// nothing more is asked is the last.
pub open spec fn is_harvest_run(log: Seq<Fetch>, window: MonthWindow) -> bool {
    &&& log.len() > 0
    &&& log[0].after is None
    &&& forall|i: int| 0 <= i < log.len() - 1 ==> goes_on(#[trigger] log[i], window)
    &&& forall|i: int|
        1 <= i < log.len() ==> (#[trigger] log[i]).after.deep_view() == Some(
            oldest(page_of(log[i - 1])).id,
        )
    &&& !goes_on(log.last(), window)
}

/// What a harvest returns after the given run of fetches: the failure of the
/// last fetch if it failed, else the month's messages of all the pages.
pub open spec fn run_outcome(log: Seq<Fetch>, window: MonthWindow) -> Result<
    Seq<MessageView>,
    Error,
> {
    match log.last().reply {
        Err(e) => Err(e),
        Ok(_) => Ok(harvested(pages_of(log), window)),
    }
}

/// The result is the outcome: the same messages, or the same failure.
pub open spec fn is_outcome(
    result: Result<Vec<Message>, Error>,
    outcome: Result<Seq<MessageView>, Error>,
) -> bool {
    match (result, outcome) {
        (Ok(messages), Ok(expected)) => messages.deep_view() == expected,
        (Err(e), Err(expected)) => e == expected,
        _ => false,
    }
}

/// How many fetches a harvest makes of a client that answers as the log
/// says: one for every page up to and including the first after which nothing
/// more is asked.
pub open spec fn fetches_until_stop(log: Seq<Fetch>, window: MonthWindow) -> nat
    decreases log.len(),
{
    if log.len() == 0 {
        0
    } else if !goes_on(log[0], window) {
        1
    } else {
        1 + fetches_until_stop(log.drop_first(), window)
    }
}

/// Gathering one more page appends that page, sorted by time.
pub proof fn gathered_push(pages: Seq<Seq<MessageView>>, page: Seq<MessageView>)
    ensures
        gathered(pages.push(page)) == gathered(pages) + time_sorted(page),
{
    let sort = |page: Seq<MessageView>| time_sorted(page);
    pages.lemma_push_map_commute(sort, page);
    pages.map_values(sort).lemma_flatten_push(time_sorted(page));
}

/// A filter keeps each item that passes as often as it stood in the
/// sequence, and keeps no other.
pub proof fn filter_counts<V>(s: Seq<V>, pass: spec_fn(V) -> bool, v: V)
    ensures
        s.filter(pass).to_multiset().count(v) == if pass(v) {
            s.to_multiset().count(v)
        } else {
            0
        },
    decreases s.len(),
{
    if s.len() == 0 {
        assert(s.filter(pass) =~= Seq::<V>::empty()) by {
            reveal(Seq::filter);
        }
        s.to_multiset_ensures();
        assert(s =~= Seq::<V>::empty());
        assert(Seq::<V>::empty().to_multiset().len() == 0) by {
            to_multiset_len(Seq::<V>::empty());
        }
    } else {
        let front = s.drop_last();
        let x = s.last();
        filter_counts(front, pass, v);
        assert(front.push(x) =~= s);
        front.lemma_filter_push(x, pass);
        to_multiset_build(front, x);
        if pass(x) {
            to_multiset_build(front.filter(pass), x);
        }
    }
}

/// Sorting the pages does not change which messages were gathered, nor how
/// often.
pub proof fn gathered_is_all_pages(pages: Seq<Seq<MessageView>>)
    ensures
        gathered(pages).to_multiset() == pages.flatten().to_multiset(),
    decreases pages.len(),
{
    if pages.len() == 0 {
        assert(pages.map_values(|page: Seq<MessageView>| time_sorted(page)) =~= pages);
    } else {
        let front = pages.drop_last();
        let page = pages.last();
        assert(front.push(page) =~= pages);
        gathered_is_all_pages(front);
        gathered_push(front, page);
        front.lemma_flatten_push(page);
        stable_sorted_is_permutation(page, by_time());
        lemma_multiset_commutative(gathered(front), time_sorted(page));
        lemma_multiset_commutative(front.flatten(), page);
    }
}

/// A harvest returns exactly the messages of the month: each message of the
/// month comes back as often as the pages hold it, wherever in the pages it
/// stands, and no other message comes back.
pub proof fn harvest_is_exactly_the_month(
    pages: Seq<Seq<MessageView>>,
    window: MonthWindow,
    message: MessageView,
)
    ensures
        harvested(pages, window).to_multiset().count(message) == if window.holds(
            message.timestamp,
        ) {
            pages.flatten().to_multiset().count(message)
        } else {
            0
        },
{
    filter_counts(gathered(pages), in_month(window), message);
    gathered_is_all_pages(pages);
}

/// Every message that a harvest returns was written in the month.
pub proof fn harvest_stays_in_month(pages: Seq<Seq<MessageView>>, window: MonthWindow, i: int)
    requires
        0 <= i < harvested(pages, window).len(),
    ensures
        window.holds(harvested(pages, window)[i].timestamp),
{
    gathered(pages).lemma_filter_pred(in_month(window), i);
}

/// A run in which every fetch but the last goes on, and the last does not,
/// is as long as `fetches_until_stop` says.
proof fn run_stops_at_first_end(log: Seq<Fetch>, window: MonthWindow)
    requires
        log.len() > 0,
        forall|i: int| 0 <= i < log.len() - 1 ==> goes_on(#[trigger] log[i], window),
        !goes_on(log.last(), window),
    ensures
        fetches_until_stop(log, window) == log.len(),
    decreases log.len(),
{
    if log.len() > 1 {
        let rest = log.drop_first();
        assert(goes_on(log[0], window));
        assert forall|i: int| 0 <= i < rest.len() - 1 implies goes_on(#[trigger] rest[i], window) by {
            assert(rest[i] == log[i + 1]);
        }
        assert(rest.last() == log.last());
        run_stops_at_first_end(rest, window);
    }
}

/// A harvest makes as many fetches as there are pages up to and including
/// the first that is empty or has walked past the month, or up to and
/// including the fetch that fails, and no more.
pub proof fn harvest_run_length(log: Seq<Fetch>, window: MonthWindow)
    requires
        is_harvest_run(log, window),
    ensures
        fetches_until_stop(log, window) == log.len(),
{
    run_stops_at_first_end(log, window);
}

/// Where the very first fetch brings an empty page, the harvest makes no
/// other fetch and returns no message.
pub proof fn empty_first_page_gives_nothing(log: Seq<Fetch>, window: MonthWindow)
    requires
        is_harvest_run(log, window),
        log[0].reply matches Ok(page) && page.len() == 0,
    ensures
        log.len() == 1,
        run_outcome(log, window) == Ok::<Seq<MessageView>, Error>(Seq::empty()),
{
    assert(page_of(log[0]) =~= Seq::<MessageView>::empty());
    if log.len() > 1 {
        assert(goes_on(log[0], window));
    }
    let none = Seq::<Seq<MessageView>>::empty();
    assert(pages_of(log) =~= none.push(page_of(log[0])));
    gathered_push(none, page_of(log[0]));
    assert(gathered(none) =~= Seq::<MessageView>::empty());
    assert(time_sorted(Seq::<MessageView>::empty()) =~= Seq::<MessageView>::empty());
    assert(gathered(pages_of(log)) =~= Seq::<MessageView>::empty());
    assert(Seq::<MessageView>::empty().filter(in_month(window)) =~= Seq::<MessageView>::empty()) by {
        reveal(Seq::filter);
    }
}

/// Sorts a page by time, oldest first.
pub fn sort_page(page: &Vec<Message>) -> (sorted: Vec<Message>)
    ensures
        sorted.deep_view() == time_sorted(page.deep_view()),
{
    let mut refs: Vec<&Message> = Vec::new();
    let mut keys: Vec<i128> = Vec::new();
    let mut i: usize = 0;
    while i < page.len()
        invariant
            i <= page.len(),
            refs.len() == i,
            keys.len() == i,
            forall|j: int| 0 <= j < i ==> #[trigger] refs[j].deep_view() == page[j]@,
            forall|j: int| 0 <= j < i ==> keys[j] as int == by_time()(#[trigger] refs[j].deep_view()),
        decreases page.len() - i,
    {
        refs.push(&page[i]);
        keys.push(page[i].timestamp.sort_key());
        i += 1;
    }
    assert(refs.deep_view() =~= page.deep_view());
    let ordered = sorted_refs(&refs, &keys, Ghost(by_time()));
    let mut sorted: Vec<Message> = Vec::new();
    let mut j: usize = 0;
    while j < ordered.len()
        invariant
            j <= ordered.len(),
            sorted.len() == j,
            forall|n: int| 0 <= n < j ==> #[trigger] sorted[n]@ == ordered[n].deep_view(),
        decreases ordered.len() - j,
    {
        sorted.push(ordered[j].clone());
        j += 1;
    }
    assert(sorted.deep_view() =~= ordered.deep_view());
    sorted
}

/// Decides what follows a page that has been sorted by time: `None` where the
/// page ends the harvest, else the identifier of its oldest message, after
/// which the next page is asked for.
pub fn next_cursor(sorted: &Vec<Message>, window: &MonthWindow) -> (cursor: Option<String>)
    ensures
        match cursor {
            None => sorted.len() == 0 || window.passed_at(sorted[0].timestamp),
            Some(id) => sorted.len() > 0 && !window.passed_at(sorted[0].timestamp) && id@
                == sorted[0].id@,
        },
{
    if sorted.len() == 0 {
        return None;
    }
    if window.passed_by(&sorted[0].timestamp) {
        None
    } else {
        Some(sorted[0].id.clone())
    }
}

/// Picks the messages of the month, in the order in which they stand.
pub fn select_month(messages: &Vec<Message>, window: &MonthWindow) -> (kept: Vec<Message>)
    ensures
        kept.deep_view() == messages.deep_view().filter(in_month(*window)),
        forall|i: int| 0 <= i < kept.len() ==> window.holds((#[trigger] kept[i]).timestamp),
{
    let mut kept: Vec<Message> = Vec::new();
    let mut i: usize = 0;
    assert(messages.deep_view().take(0) =~= Seq::<MessageView>::empty());
    assert(Seq::<MessageView>::empty().filter(in_month(*window)) =~= Seq::<MessageView>::empty()) by {
        reveal(Seq::filter);
    }
    assert(kept.deep_view() =~= Seq::<MessageView>::empty());
    while i < messages.len()
        invariant
            i <= messages.len(),
            kept.deep_view() == messages.deep_view().take(i as int).filter(in_month(*window)),
        decreases messages.len() - i,
    {
        let ghost before = kept.deep_view();
        let ghost seen = messages.deep_view().take(i as int);
        proof {
            seen.lemma_filter_push(messages[i as int]@, in_month(*window));
            assert(seen.push(messages[i as int]@) =~= messages.deep_view().take(i + 1));
        }
        if window.contains(&messages[i].timestamp) {
            kept.push(messages[i].clone());
            assert(kept.deep_view() =~= before.push(messages[i as int]@));
        }
        i += 1;
    }
    assert(messages.deep_view().take(messages.len() as int) =~= messages.deep_view());
    assert forall|i: int| 0 <= i < kept.len() implies window.holds(
        (#[trigger] kept[i]).timestamp,
    ) by {
        messages.deep_view().lemma_filter_pred(in_month(*window), i);
        assert(kept.deep_view()[i] == kept[i]@);
    }
    kept
}

} // verus!
