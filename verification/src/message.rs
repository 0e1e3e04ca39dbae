//! The expiring-message store: an in-memory table of message rows. A message
//! is stamped at creation with the current instant and with an expiration
//! instant (`dead_time`) computed from a configured lifespan in hours.
//! Instants are seconds since the Unix epoch.

use vstd::multiset::Multiset;
use vstd::prelude::*;

verus! {

broadcast use vstd::seq_lib::group_to_multiset_ensures;

/// Seconds in one hour: the configured lifespan is given in hours, instants in
/// seconds.
pub const SECONDS_PER_HOUR: i64 = 3600;

/// A message row. `id` is assigned by the store; `timestamp` is the creation
/// instant and `dead_time` the expiration instant, both set by the store.
pub struct Message {
    pub id: i32,
    pub sender: i32,
    pub receiver: i32,
    pub message_type: String,
    pub content: String,
    pub timestamp: i64,
    pub dead_time: i64,
}

/// The fields of a message row before the store has assigned it an identifier.
pub struct NewMessage {
    pub sender: i32,
    pub receiver: i32,
    pub message_type: String,
    pub content: String,
    pub timestamp: i64,
    pub dead_time: i64,
}

impl Clone for Message {
    fn clone(&self) -> (r: Self)
        ensures
            r == *self,
    {
        Message {
            id: self.id,
            sender: self.sender,
            receiver: self.receiver,
            message_type: self.message_type.clone(),
            content: self.content.clone(),
            timestamp: self.timestamp,
            dead_time: self.dead_time,
        }
    }
}

/// No two rows of `rows` carry the same identifier.
pub open spec fn msg_ids_unique(rows: Seq<Message>) -> bool {
    forall|i: int, j: int|
        #![trigger rows[i].id, rows[j].id]
        0 <= i < j < rows.len() ==> rows[i].id != rows[j].id
}

/// Whether `m` belongs to the conversation between `a` and `b`, in either
/// direction.
pub open spec fn spec_between(m: Message, a: i32, b: i32) -> bool {
    (m.sender == a && m.receiver == b) || (m.sender == b && m.receiver == a)
}

/// The rows of `rows` that belong to the conversation between `a` and `b`, in
/// the table's order.
pub open spec fn spec_conversation(rows: Seq<Message>, a: i32, b: i32) -> Seq<Message>
    decreases rows.len(),
{
    if rows.len() == 0 {
        Seq::empty()
    } else {
        let rest = spec_conversation(rows.drop_last(), a, b);
        if spec_between(rows.last(), a, b) {
            rest.push(rows.last())
        } else {
            rest
        }
    }
}

/// Every row of a conversation belongs to it: it was sent one way or the other
/// between the two parties, and stands in the table.
pub proof fn lemma_conversation_shape(rows: Seq<Message>, a: i32, b: i32)
    ensures
        forall|k: int|
            0 <= k < spec_conversation(rows, a, b).len() ==> spec_between(
                #[trigger] spec_conversation(rows, a, b)[k],
                a,
                b,
            ) && rows.contains(spec_conversation(rows, a, b)[k]),
    decreases rows.len(),
{
    if rows.len() > 0 {
        lemma_conversation_shape(rows.drop_last(), a, b);
        let rest = spec_conversation(rows.drop_last(), a, b);
        let result = spec_conversation(rows, a, b);
        assert forall|k: int|
            0 <= k < result.len() implies spec_between(result[k], a, b) && rows.contains(
            result[k]) by {
            if k < rest.len() {
                assert(result[k] == rest[k]);
                assert(spec_conversation(rows.drop_last(), a, b)[k] == rest[k]);
                assert(rows.drop_last().contains(rest[k]));
                let j = choose|j: int|
                    0 <= j < rows.drop_last().len() && rows.drop_last()[j] == rest[k];
                assert(rows[j] == rest[k]);
            } else {
                assert(result[k] == rows.last());
                assert(rows[rows.len() - 1] == rows.last());
            }
        }
    }
}

/// The conversation between two parties is the same whichever way round they
/// are given.
pub proof fn lemma_conversation_symmetric(rows: Seq<Message>, a: i32, b: i32)
    ensures
        spec_conversation(rows, a, b) == spec_conversation(rows, b, a),
    decreases rows.len(),
{
    if rows.len() > 0 {
        lemma_conversation_symmetric(rows.drop_last(), a, b);
    }
}

/// Timestamps never decrease along `s`.
pub open spec fn sorted_by_timestamp(s: Seq<Message>) -> bool {
    forall|i: int, j: int|
        #![trigger s[i].timestamp, s[j].timestamp]
        0 <= i <= j < s.len() ==> s[i].timestamp <= s[j].timestamp
}

/// Relies on chrono::Utc::now: the current instant, whose seconds since the
/// Unix epoch lie within chrono's documented datetime range (roughly 262,000
/// years either side of the common era). On a system clock set before the
/// Unix epoch the call itself aborts; no value comes back at all.
#[verifier::external_body]
fn now_seconds() -> (r: i64)
    ensures
        -10_000_000_000_000 <= r <= 10_000_000_000_000,
{
    chrono::Utc::now().timestamp()
}

/// Reorders `input` so that timestamps never decrease, keeping exactly the
/// same rows.
fn sort_by_timestamp(input: Vec<Message>) -> (r: Vec<Message>)
    ensures
        sorted_by_timestamp(r@),
        r@.to_multiset() == input@.to_multiset(),
{
    let mut src = input;
    let mut out: Vec<Message> = Vec::new();
    proof {
        assert(out@.to_multiset().add(src@.to_multiset()) =~= src@.to_multiset());
    }
    while src.len() > 0
        invariant
            sorted_by_timestamp(out@),
            forall|k: int, l: int|
                #![trigger out@[k].timestamp, src@[l].timestamp]
                0 <= k < out@.len() && 0 <= l < src@.len() ==> out@[k].timestamp
                    <= src@[l].timestamp,
            out@.to_multiset().add(src@.to_multiset()) == input@.to_multiset(),
        decreases src.len(),
    {
        let mut m: usize = 0;
        let mut j: usize = 1;
        while j < src.len()
            invariant
                m < src@.len(),
                j <= src@.len(),
                forall|k: int| 0 <= k < j ==> src@[m as int].timestamp <= #[trigger] src@[
                    k].timestamp,
            decreases src@.len() - j,
        {
            if src[j].timestamp < src[m].timestamp {
                m = j;
            }
            j = j + 1;
        }
        let ghost src_before = src@;
        let x = src.remove(m);
        proof {
            assert(src@ == src_before.remove(m as int));
            assert(out@.push(x).to_multiset() =~= out@.to_multiset().insert(x));
            assert(out@.push(x).to_multiset().add(src@.to_multiset()) =~= out@.to_multiset().add(
                src_before.to_multiset(),
            ));
        }
        out.push(x);
    }
    proof {
        assert(src@.to_multiset() =~= Multiset::<Message>::empty());
        assert(out@.to_multiset().add(Multiset::<Message>::empty()) =~= out@.to_multiset());
    }
    out
}

/// The in-memory table of message rows. Identifiers are handed out in
/// increasing order starting at 1, so no two rows ever share one.
pub struct MessageStore {
    rows: Vec<Message>,
    next_id: i32,
}

impl View for MessageStore {
    type V = Seq<Message>;

    closed spec fn view(&self) -> Seq<Message> {
        self.rows@
    }
}

impl MessageStore {
    /// The identifier the next created row will receive.
    pub closed spec fn fresh_id(&self) -> int {
        self.next_id as int
    }

    /// Well-formedness: identifiers are positive, below the next fresh one,
    /// and pairwise distinct.
    pub closed spec fn wf(&self) -> bool {
        &&& 1 <= self.next_id
        &&& forall|i: int|
            0 <= i < self.rows@.len() ==> 1 <= #[trigger] self.rows@[i].id < self.next_id
        &&& msg_ids_unique(self.rows@)
    }

    /// An empty table.
    pub fn new() -> (r: MessageStore)
        ensures
            r.wf(),
            r@ == Seq::<Message>::empty(),
            r.fresh_id() == 1,
    {
        MessageStore { rows: Vec::new(), next_id: 1 }
    }

    /// Appends `new_message` as a fresh row, assigning it the next identifier,
    /// and returns the stored row.
    pub fn insert(&mut self, new_message: NewMessage) -> (r: Message)
        requires
            old(self).wf(),
            old(self).fresh_id() < i32::MAX as int,
        ensures
            final(self).wf(),
            r.id as int == old(self).fresh_id(),
            forall|i: int| 0 <= i < old(self)@.len() ==> #[trigger] old(self)@[i].id != r.id,
            r.sender == new_message.sender,
            r.receiver == new_message.receiver,
            r.message_type == new_message.message_type,
            r.content == new_message.content,
            r.timestamp == new_message.timestamp,
            r.dead_time == new_message.dead_time,
            final(self)@ == old(self)@.push(r),
            final(self).fresh_id() == old(self).fresh_id() + 1,
    {
        let row = Message {
            id: self.next_id,
            sender: new_message.sender,
            receiver: new_message.receiver,
            message_type: new_message.message_type,
            content: new_message.content,
            timestamp: new_message.timestamp,
            dead_time: new_message.dead_time,
        };
        let r = row.clone();
        self.rows.push(row);
        self.next_id = self.next_id + 1;
        r
    }
}

impl Message {
    /// Returns every row of the table, in the table's order.
    pub fn get_all(store: &MessageStore) -> (r: Vec<Message>)
        ensures
            r@ == store@,
    {
        let mut out: Vec<Message> = Vec::new();
        let mut i: usize = 0;
        while i < store.rows.len()
            invariant
                i <= store.rows@.len(),
                out@ == store@.subrange(0, i as int),
            decreases store.rows@.len() - i,
        {
            out.push(store.rows[i].clone());
            i = i + 1;
            proof {
                assert(out@ =~= store@.subrange(0, i as int));
            }
        }
        proof {
            assert(store@.subrange(0, store@.len() as int) =~= store@);
        }
        out
    }

    /// Returns the conversation between `sender` and `receiver`: every row
    /// sent either way between the two, ordered by ascending timestamp.
    pub fn get_by_sender_receiver(store: &MessageStore, sender: i32, receiver: i32) -> (r: Vec<
        Message,
    >)
        ensures
            sorted_by_timestamp(r@),
            r@.to_multiset() == spec_conversation(store@, sender, receiver).to_multiset(),
            r@.len() == spec_conversation(store@, sender, receiver).len(),
            forall|k: int|
                0 <= k < r@.len() ==> spec_between(#[trigger] r@[k], sender, receiver)
                    && store@.contains(r@[k]),
    {
        let mut picked: Vec<Message> = Vec::new();
        let mut i: usize = 0;
        while i < store.rows.len()
            invariant
                i <= store.rows@.len(),
                picked@ == spec_conversation(store@.subrange(0, i as int), sender, receiver),
            decreases store.rows@.len() - i,
        {
            let row = &store.rows[i];
            if (row.sender == sender && row.receiver == receiver) || (row.sender == receiver
                && row.receiver == sender) {
                picked.push(row.clone());
            }
            i = i + 1;
            proof {
                assert(store@.subrange(0, i as int).drop_last() =~= store@.subrange(
                    0,
                    (i - 1) as int,
                ));
                assert(store@.subrange(0, i as int).last() == store@[(i - 1) as int]);
            }
        }
        proof {
            assert(store@.subrange(0, store@.len() as int) =~= store@);
        }
        let r = sort_by_timestamp(picked);
        proof {
            assert(r@.len() == r@.to_multiset().len());
            assert(picked@.len() == picked@.to_multiset().len());
            lemma_conversation_shape(store@, sender, receiver);
            let conv = spec_conversation(store@, sender, receiver);
            assert forall|k: int|
                0 <= k < r@.len() implies spec_between(r@[k], sender, receiver)
                    && store@.contains(r@[k]) by {
                assert(r@.contains(r@[k]));
                assert(r@.to_multiset().count(r@[k]) > 0);
                assert(conv.contains(r@[k]));
                let j = choose|j: int| 0 <= j < conv.len() && conv[j] == r@[k];
                assert(conv[j] == r@[k]);
            }
        }
        r
    }

    /// Creates a message in the conversation, stamped with the given creation
    /// instant; its expiration is that instant plus the lifespan, given in
    /// hours. Returns the stored row.
    pub fn create_at(
        store: &mut MessageStore,
        sender: i32,
        receiver: i32,
        message_type: &str,
        content: &str,
        timestamp: i64,
        lifespan: i64,
    ) -> (r: Message)
        requires
            old(store).wf(),
            old(store).fresh_id() < i32::MAX as int,
            i64::MIN <= lifespan * (SECONDS_PER_HOUR as int) <= i64::MAX,
            i64::MIN <= timestamp + lifespan * (SECONDS_PER_HOUR as int) <= i64::MAX,
        ensures
            final(store).wf(),
            r.sender == sender,
            r.receiver == receiver,
            r.message_type@ == message_type@,
            r.content@ == content@,
            r.timestamp == timestamp,
            r.dead_time == timestamp + lifespan * (SECONDS_PER_HOUR as int),
            r.id as int == old(store).fresh_id(),
            forall|i: int| 0 <= i < old(store)@.len() ==> #[trigger] old(store)@[i].id != r.id,
            final(store)@ == old(store)@.push(r),
            final(store).fresh_id() == old(store).fresh_id() + 1,
    {
        let dead_time = timestamp + lifespan * SECONDS_PER_HOUR;
        let new_message = NewMessage {
            sender,
            receiver,
            message_type: message_type.to_owned(),
            content: content.to_owned(),
            timestamp,
            dead_time,
        };
        store.insert(new_message)
    }

    /// Creates a message stamped with the current instant; its expiration is
    /// that instant plus the lifespan, given in hours. Returns the stored row.
    pub fn create(
        store: &mut MessageStore,
        sender: i32,
        receiver: i32,
        message_type: &str,
        content: &str,
        lifespan: i64,
    ) -> (r: Message)
        requires
            old(store).wf(),
            old(store).fresh_id() < i32::MAX as int,
            -1_000_000_000_000 <= lifespan <= 1_000_000_000_000,
        ensures
            final(store).wf(),
            r.sender == sender,
            r.receiver == receiver,
            r.message_type@ == message_type@,
            r.content@ == content@,
            r.dead_time == r.timestamp + lifespan * (SECONDS_PER_HOUR as int),
            r.id as int == old(store).fresh_id(),
            forall|i: int| 0 <= i < old(store)@.len() ==> #[trigger] old(store)@[i].id != r.id,
            final(store)@ == old(store)@.push(r),
            final(store).fresh_id() == old(store).fresh_id() + 1,
    {
        let timestamp = now_seconds();
        Message::create_at(store, sender, receiver, message_type, content, timestamp, lifespan)
    }
}

} // verus!
