use crate::message::Message;
use vstd::prelude::*;

verus! {

/// The chronological direction of a history listing.
#[derive(Clone, Copy, Debug, PartialEq, Eq, Structural)]
pub enum OrderDirection {
    Ascending,
    Descending,
}

/// The messages of one user among the entries, oldest first.
pub open spec fn messages_of_user(entries: Seq<Message>, user_id: Seq<char>) -> Seq<Message>
    decreases entries.len(),
{
    if entries.len() == 0 {
        Seq::empty()
    } else {
        let rest = messages_of_user(entries.drop_last(), user_id);
        if entries.last().user.id@ == user_id {
            rest.push(entries.last())
        } else {
            rest
        }
    }
}

/// What a listing returns: at most `limit` of the user's newest messages,
/// oldest first when ascending, newest first when descending.
pub open spec fn spec_list(
    entries: Seq<Message>,
    user_id: Seq<char>,
    limit: int,
    order: OrderDirection,
) -> Seq<Message> {
    let of_user = messages_of_user(entries, user_id);
    let start = if of_user.len() <= limit {
        0
    } else {
        of_user.len() - limit
    };
    let newest = of_user.subrange(start as int, of_user.len() as int);
    match order {
        OrderDirection::Ascending => newest,
        OrderDirection::Descending => newest.reverse(),
    }
}

/// An append-only, in-memory per-user message log with bounded, ordered
/// retrieval: the model of the history store the pipeline reads and
/// appends. Entries stand in chronological order of appending.
#[derive(Debug)]
pub struct MessageStore {
    entries: Vec<Message>,
}

impl View for MessageStore {
    type V = Seq<Message>;

    closed spec fn view(&self) -> Seq<Message> {
        self.entries@
    }
}

impl MessageStore {
    /// An empty log.
    pub fn new() -> (r: MessageStore)
        ensures
            r@ == Seq::<Message>::empty(),
    {
        MessageStore { entries: Vec::new() }
    }

    /// Appends the messages, in order; no deduplication. Every persisted
    /// message must carry a context: a classified user turn gets one from
    /// the classifier, and a bot turn inherits the user turn's.
    pub fn save(&mut self, messages: Vec<Message>)
        requires
            forall|i: int|
                0 <= i < messages@.len() ==> (#[trigger] messages@[i].context) is Some,
        ensures
            final(self)@ == old(self)@ + messages@,
    {
        let mut messages = messages;
        self.entries.append(&mut messages);
    }

    /// Lists at most `limit` of the user's newest messages, in the asked
    /// chronological direction and with no other filtering.
    pub fn list_by_user_id(&self, user_id: String, limit: u32, order: OrderDirection) -> (r: Vec<
        Message,
    >)
        ensures
            r@ == spec_list(self@, user_id@, limit as int, order),
    {
        let mut of_user: Vec<Message> = Vec::new();
        let mut i: usize = 0;
        while i < self.entries.len()
            invariant
                i <= self.entries.len(),
                of_user@ == messages_of_user(self.entries@.subrange(0, i as int), user_id@),
            decreases self.entries.len() - i,
        {
            proof {
                assert(self.entries@.subrange(0, i + 1 as int).drop_last() =~= self.entries@
                    .subrange(0, i as int));
                assert(self.entries@.subrange(0, i + 1 as int).last() == self.entries@[i as int]);
            }
            if self.entries[i].user.id == user_id {
                of_user.push(self.entries[i].clone());
            }
            i = i + 1;
        }
        proof {
            assert(self.entries@.subrange(0, self.entries@.len() as int) =~= self.entries@);
        }
        let len = of_user.len();
        let start = if len <= limit as usize {
            0
        } else {
            len - limit as usize
        };
        match order {
            OrderDirection::Ascending => {
                let mut out: Vec<Message> = Vec::new();
                let mut j = start;
                while j < len
                    invariant
                        start <= j <= len,
                        len == of_user@.len(),
                        out@ == of_user@.subrange(start as int, j as int),
                    decreases len - j,
                {
                    proof {
                        assert(of_user@.subrange(start as int, j + 1 as int) =~= of_user@.subrange(
                            start as int,
                            j as int,
                        ).push(of_user@[j as int]));
                    }
                    out.push(of_user[j].clone());
                    j = j + 1;
                }
                out
            },
            OrderDirection::Descending => {
                let mut out: Vec<Message> = Vec::new();
                let mut j = len;
                while j > start
                    invariant
                        start <= j <= len,
                        len == of_user@.len(),
                        out@ == of_user@.subrange(j as int, len as int).reverse(),
                    decreases j,
                {
                    proof {
                        assert(of_user@.subrange(j - 1 as int, len as int).reverse() =~= of_user@
                            .subrange(j as int, len as int).reverse().push(of_user@[j - 1 as int]));
                    }
                    out.push(of_user[j - 1].clone());
                    j = j - 1;
                }
                out
            },
        }
    }
}

/// Read idempotence: listing twice with no intervening save returns the
/// same sequence, since what a listing returns is a function of the log's
/// contents and the listing's arguments alone.
pub proof fn lemma_list_read_idempotent(
    first: MessageStore,
    second: MessageStore,
    user_id: Seq<char>,
    limit: int,
    order: OrderDirection,
)
    requires
        first@ == second@,
    ensures
        spec_list(first@, user_id, limit, order) == spec_list(second@, user_id, limit, order),
{
}

} // verus!
