//! The two things the library needs from a chat service, and the service
//! built on them.

use crate::error::Error;
use crate::harvest::{
    by_time, gathered, gathered_push, goes_on, is_harvest_run, is_outcome, next_cursor, oldest,
    page_of, pages_of, run_outcome, select_month, sort_page, time_sorted, Fetch, PAGE_SIZE,
};
use crate::models::discord::{Message, MessageBody, MessageView};
use crate::sorting::stable_sorted_is_permutation;
use crate::time::MonthWindow;
use vstd::prelude::*;

verus! {

/// Reads a channel's history.
pub trait GetMsgs {
    /// Fetches up to `limit` messages: the newest ones where `after` is
    /// `None`, else the page that follows the message with that identifier.
    /// An empty page says that the history is exhausted.
    fn get_messages(&self, after: Option<String>, limit: Option<i32>) -> Result<
        Vec<Message>,
        Error,
    >;
}

/// Posts to a channel.
pub trait SendMsgs {
    /// Delivers the message.
    fn send_messages(&self, message_body: MessageBody) -> Result<(), Error>;
}

/// Harvests a month's messages from a client and posts through it.
pub struct MessageService<C: GetMsgs + SendMsgs> {
    pub client: C,
}

impl<C: GetMsgs + SendMsgs> MessageService<C> {
    /// Each fetch of the run is one that the client may have answered as the
    /// run says, asked for a page of `PAGE_SIZE` messages.
    pub open spec fn answered(&self, log: Seq<Fetch>) -> bool {
        forall|i: int|
            0 <= i < log.len() ==> call_ensures(
                C::get_messages,
                (&self.client, (#[trigger] log[i]).after, Some(PAGE_SIZE)),
                log[i].reply,
            )
    }

    /// The result is that of a harvest for the month which made exactly the
    /// fetches of `log`.
    pub open spec fn harvested_by(
        &self,
        log: Seq<Fetch>,
        window: MonthWindow,
        result: Result<Vec<Message>, Error>,
    ) -> bool {
        &&& self.answered(log)
        &&& is_harvest_run(log, window)
        &&& is_outcome(result, run_outcome(log, window))
    }

    /// A service that reads and posts through the given client.
    pub fn new(client: C) -> (service: Self)
        ensures
            service.client == client,
    {
        Self { client }
    }

    /// Harvests the messages of the month.
    ///
    /// Pages are fetched, newest first, until one is empty or has walked past
    /// the month; every fetched page is kept whole, and only at the end are
    /// the messages of the month picked out.  A fetch that fails ends the
    /// harvest with its failure.  So there is a run of fetches, each answered
    /// by the client, that is a harvest run for the month and whose outcome
    /// is the result.  The harvest comes to an end whatever the client
    /// answers: every page after which it goes on adds a message to those
    /// gathered, and a list holds no more than `usize::MAX` of them.
    pub fn get_memes_for_month(&self, wanted_month: &MonthWindow) -> (result: Result<
        Vec<Message>,
        Error,
    >)
        ensures
            exists|log: Seq<Fetch>| self.harvested_by(log, *wanted_month, result),
            result matches Ok(messages) ==> forall|i: int|
                0 <= i < messages.len() ==> wanted_month.holds((#[trigger] messages[i]).timestamp),
    {
        let mut result: Vec<Message> = Vec::new();
        let mut last_msg: Option<String> = None;
        let ghost mut log: Seq<Fetch> = Seq::empty();
        assert(gathered(pages_of(log)) =~= Seq::<MessageView>::empty());
        assert(result.deep_view() =~= Seq::<MessageView>::empty());
        loop
            invariant
                self.answered(log),
                forall|i: int| 0 <= i < log.len() ==> goes_on(#[trigger] log[i], *wanted_month),
                forall|i: int|
                    1 <= i < log.len() ==> (#[trigger] log[i]).after.deep_view() == Some(
                        oldest(page_of(log[i - 1])).id,
                    ),
                log.len() > 0 ==> log[0].after is None,
                log.len() == 0 ==> last_msg is None,
                log.len() > 0 ==> last_msg.deep_view() == Some(oldest(page_of(log.last())).id),
                result.deep_view() == gathered(pages_of(log)),
            decreases usize::MAX - result.len(),
        {
            let after = last_msg.clone();
            let ghost asked = after;
            let reply = self.client.get_messages(after, Some(PAGE_SIZE));
            let ghost fetch = Fetch { after: asked, reply };
            let ghost run = log.push(fetch);
            proof {
                assert(asked.deep_view() == last_msg.deep_view());
                assert(self.answered(run));
                assert(pages_of(run) =~= pages_of(log).push(page_of(fetch)));
                gathered_push(pages_of(log), page_of(fetch));
            }
            match reply {
                Err(e) => {
                    proof {
                        assert(is_harvest_run(run, *wanted_month));
                        assert(self.harvested_by(run, *wanted_month, Err(e)));
                    }
                    return Err(e);
                },
                Ok(page) => {
                    let mut sorted = sort_page(&page);
                    let cursor = next_cursor(&sorted, wanted_month);
                    assert(sorted.len() > 0 ==> sorted[0]@ == oldest(page_of(fetch)));
                    assert(sorted.len() == page.len()) by {
                        stable_sorted_is_permutation(page.deep_view(), by_time());
                    }
                    let ghost before = result.deep_view();
                    result.append(&mut sorted);
                    assert(result.deep_view() =~= before + time_sorted(page_of(fetch)));
                    match cursor {
                        None => {
                            let kept = select_month(&result, wanted_month);
                            proof {
                                assert(is_harvest_run(run, *wanted_month));
                                assert(self.harvested_by(run, *wanted_month, Ok(kept)));
                            }
                            return Ok(kept);
                        },
                        Some(id) => {
                            last_msg = Some(id);
                            proof {
                                log = run;
                            }
                        },
                    }
                },
            }
        }
    }

    /// Posts the message through the client and hands back what the client
    /// answered.
    pub fn send_message(&self, message_body: MessageBody) -> (sent: Result<(), Error>)
        ensures
            call_ensures(C::send_messages, (&self.client, message_body), sent),
    {
        self.client.send_messages(message_body)
    }
}

} // verus!
