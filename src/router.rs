use vstd::prelude::*;
use std::collections::HashMap;
use tokio::sync::mpsc::{Receiver, Sender};
use vstd::std_specs::hash::spec_hash_map_iter;
use vstd::std_specs::iter::IteratorSpec;

verus! {

broadcast use vstd::std_specs::hash::group_hash_axioms;

#[verifier::external_type_specification]
#[verifier::external_body]
#[verifier::reject_recursive_types(T)]
pub struct ExSender<T>(Sender<T>);

#[verifier::external_type_specification]
#[verifier::external_body]
#[verifier::reject_recursive_types(T)]
pub struct ExReceiver<T>(Receiver<T>);

/// The largest mailbox capacity: `u32::MAX >> 3`, which never exceeds the
/// limit of a tokio channel, `usize::MAX >> 3`, whatever the target's width.
pub const MAX_MAILBOX_CAPACITY: usize = 0x1fff_ffff;

/// Relies on `tokio::sync::mpsc::channel`: a bounded queue of lines. It
/// panics on a capacity of zero or above `usize::MAX >> 3`; the bound here
/// is lower than the latter.
#[verifier::external_body]
pub(crate) fn mailbox(capacity: usize) -> (r: (Sender<String>, Receiver<String>))
    requires
        0 < capacity <= MAX_MAILBOX_CAPACITY,
{
    tokio::sync::mpsc::channel(capacity)
}

/// Relies on `tokio::sync::mpsc::Sender::try_send`: queues the line unless
/// the mailbox is full or its receiver is gone; never waits.
#[verifier::external_body]
fn try_offer(tx: &Sender<String>, line: String) -> (accepted: bool) {
    tx.try_send(line).is_ok()
}

/// A session's mailbox: the sending end of its queue, and a record of every
/// line offered to it. A line offered to a full or closed queue is dropped.
pub struct Mailbox {
    tx: Sender<String>,
    offered: Ghost<Seq<Seq<char>>>,
}

impl Mailbox {
    /// The sending end of the queue.
    pub closed spec fn sender(&self) -> Sender<String> {
        self.tx
    }

    /// The lines offered to this mailbox since it was registered, in order.
    pub closed spec fn offered(&self) -> Seq<Seq<char>> {
        self.offered@
    }

    fn new(tx: Sender<String>) -> (r: Mailbox)
        ensures
            r.sender() == tx,
            r.offered() == Seq::<Seq<char>>::empty(),
    {
        Mailbox { tx, offered: Ghost(Seq::empty()) }
    }

    fn offer(&mut self, line: String)
        ensures
            final(self).sender() == old(self).sender(),
            final(self).offered() == old(self).offered().push(line@),
    {
        let ghost text = line@;
        try_offer(&self.tx, line);
        self.offered = Ghost(self.offered@.push(text));
    }
}

/// `after` is `before` with `line` offered once to every mailbox but the
/// sender's.
pub open spec fn offered_to_all_but(
    before: Map<u64, Mailbox>,
    after: Map<u64, Mailbox>,
    sender: u64,
    line: Seq<char>,
) -> bool {
    &&& after.dom() == before.dom()
    &&& forall|k: u64| #[trigger] after.contains_key(k) ==> after[k].sender() == before[k].sender()
        && after[k].offered() == if k != sender {
            before[k].offered().push(line)
        } else {
            before[k].offered()
        }
}

/// A targeted send found no mailbox for its recipient.
#[derive(Debug, Clone, Copy, PartialEq, Eq, Structural)]
pub struct RoutingError {
    pub target: u64,
}

/// The server-wide registry of session mailboxes, keyed by connection id.
pub struct Router {
    mailboxes: HashMap<u64, Mailbox>,
}

impl View for Router {
    type V = Map<u64, Mailbox>;

    closed spec fn view(&self) -> Map<u64, Mailbox> {
        self.mailboxes@
    }
}

impl Router {
    /// A registry with no sessions.
    pub fn new() -> (r: Router)
        ensures
            r@ == Map::<u64, Mailbox>::empty(),
    {
        Router { mailboxes: HashMap::new() }
    }

    /// Whether a session's mailbox is registered.
    pub fn contains(&self, id: u64) -> (r: bool)
        ensures
            r == self@.contains_key(id),
    {
        self.mailboxes.contains_key(&id)
    }

    /// Registers a session's mailbox, with nothing offered to it yet; an id
    /// that is already present keeps its mailbox.
    pub fn register(&mut self, id: u64, tx: Sender<String>)
        ensures
            old(self)@.contains_key(id) ==> final(self)@ == old(self)@,
            !old(self)@.contains_key(id) ==> final(self)@ == old(self)@.insert(id, final(self)@[id])
                && final(self)@[id].sender() == tx
                && final(self)@[id].offered() == Seq::<Seq<char>>::empty(),
    {
        if !self.mailboxes.contains_key(&id) {
            self.mailboxes.insert(id, Mailbox::new(tx));
        }
    }

    /// Removes a session's mailbox, if present.
    pub fn deregister(&mut self, id: u64)
        ensures
            final(self)@ == old(self)@.remove(id),
    {
        self.mailboxes.remove(&id);
    }

    fn offer_to(&mut self, id: u64, line: &String)
        requires
            old(self)@.contains_key(id),
        ensures
            final(self)@ == old(self)@.insert(id, final(self)@[id]),
            final(self)@[id].sender() == old(self)@[id].sender(),
            final(self)@[id].offered() == old(self)@[id].offered().push(line@),
    {
        match self.mailboxes.remove(&id) {
            Some(mut mb) => {
                mb.offer(line.clone());
                self.mailboxes.insert(id, mb);
                assert(self.mailboxes@ =~= old(self)@.insert(id, mb));
            },
            None => {},
        }
    }

    /// The registered ids but `sender`, each once.
    fn others(&self, sender: u64) -> (recipients: Vec<u64>)
        ensures
            recipients@.no_duplicates(),
            forall|id: u64| #[trigger] recipients@.contains(id) <==> (self@.contains_key(id) && id != sender),
    {
        let mut recipients: Vec<u64> = Vec::new();
        let ghost mut origin: Seq<int> = Seq::empty();
        let ghost mut pos: int = 0;
        let ghost m = self.mailboxes@;
        let ghost all = spec_hash_map_iter(&self.mailboxes).remaining();
        assert forall|key: u64| #[trigger] m.contains_key(key) implies exists|k: int|
            0 <= k < all.len() && *all[k].0 == key by {
            assert(all.contains((&key, &m[key])));
        }
        for entry in it: self.mailboxes.iter()
            invariant
                m == self.mailboxes@,
                it.seq() == all,
                pos == it.index(),
                0 <= pos <= all.len(),
                all.no_duplicates(),
                forall|k: int| 0 <= k < all.len() ==> #[trigger] m.contains_key(*all[k].0) && m[*all[k].0] == *all[k].1,
                forall|key: u64| #[trigger] m.contains_key(key) ==> exists|k: int|
                    0 <= k < all.len() && *all[k].0 == key,
                recipients@.no_duplicates(),
                origin.len() == recipients.len(),
                forall|j: int| 0 <= j < recipients.len() ==> #[trigger] recipients@[j] != sender,
                forall|j: int| 0 <= j < recipients.len() ==> 0 <= #[trigger] origin[j] < pos
                    && *all[origin[j]].0 == recipients@[j],
                forall|k: int| 0 <= k < pos && *all[k].0 != sender
                    ==> recipients@.contains(*#[trigger] all[k].0),
        {
            let (id, _) = entry;
            let ghost before = recipients@;
            let ghost origin_before = origin;
            proof {
                let i = pos;
                assert(all[i] == entry);
                assert forall|j: int| 0 <= j < recipients.len() implies recipients@[j] != *id by {
                    let k = origin[j];
                    if recipients@[j] == *id {
                        assert(m.contains_key(*all[k].0) && m.contains_key(*all[i].0));
                        assert(all[k] == all[i]);
                    }
                }
            }
            if *id != sender {
                recipients.push(*id);
                proof {
                    origin = origin.push(pos);
                }
            }
            proof {
                assert forall|j: int| 0 <= j < before.len() implies recipients@[j] == before[j]
                    && origin[j] == origin_before[j] by {}
                assert forall|k: int| 0 <= k < pos + 1 && *all[k].0 != sender
                    implies recipients@.contains(*#[trigger] all[k].0) by {
                    if k == pos {
                        assert(recipients@[recipients.len() - 1] == *all[k].0);
                    } else {
                        let w = choose|w: int| 0 <= w < before.len() && before[w] == *all[k].0;
                        assert(recipients@[w] == before[w]);
                    }
                }
                assert forall|j: int| 0 <= j < recipients.len() implies #[trigger] recipients@[j] != sender
                    && 0 <= origin[j] < pos + 1 && *all[origin[j]].0 == recipients@[j] by {
                    if j < before.len() {
                        assert(recipients@[j] == before[j] && origin[j] == origin_before[j]);
                        assert(before[j] != sender);
                    }
                }
                pos = pos + 1;
            }
        }
        proof {
            assert forall|id: u64| #[trigger] recipients@.contains(id) <==> (m.contains_key(id) && id != sender) by {
                if recipients@.contains(id) {
                    let j = choose|j: int| 0 <= j < recipients.len() && recipients@[j] == id;
                    assert(m.contains_key(*all[origin[j]].0));
                }
                if m.contains_key(id) && id != sender {
                    let k = choose|k: int| 0 <= k < all.len() && *all[k].0 == id;
                    assert(recipients@.contains(*all[k].0));
                }
            }
        }
        recipients
    }

    /// Offers a line to every registered mailbox but the sender's, and
    /// returns the ids that were offered it: each other session exactly once.
    /// A full or closed mailbox drops the line without holding up the rest.
    pub fn broadcast(&mut self, sender: u64, line: &String) -> (recipients: Vec<u64>)
        ensures
            recipients@.no_duplicates(),
            forall|id: u64| #[trigger] recipients@.contains(id) <==> (old(self)@.contains_key(id) && id != sender),
            offered_to_all_but(old(self)@, final(self)@, sender, line@),
    {
        let recipients = self.others(sender);
        let ghost before = self@;
        let mut i: usize = 0;
        while i < recipients.len()
            invariant
                i <= recipients.len(),
                recipients@.no_duplicates(),
                forall|id: u64| #[trigger] recipients@.contains(id) <==> (before.contains_key(id) && id != sender),
                self@.dom() == before.dom(),
                forall|k: u64| #[trigger] self@.contains_key(k) ==> self@[k].sender() == before[k].sender()
                    && self@[k].offered() == if recipients@.subrange(0, i as int).contains(k) {
                        before[k].offered().push(line@)
                    } else {
                        before[k].offered()
                    },
            decreases recipients.len() - i,
        {
            let id = recipients[i];
            assert(recipients@.contains(id));
            let ghost prev = self@;
            self.offer_to(id, line);
            proof {
                assert(!recipients@.subrange(0, i as int).contains(id)) by {
                    if recipients@.subrange(0, i as int).contains(id) {
                        let j = choose|j: int| 0 <= j < i && #[trigger] recipients@.subrange(0, i as int)[j] == id;
                        assert(recipients@[j] == recipients@[i as int]);
                    }
                }
                assert forall|k: u64| #[trigger] recipients@.subrange(0, i + 1).contains(k) <==> (
                    recipients@.subrange(0, i as int).contains(k) || k == id) by {
                    if recipients@.subrange(0, i + 1).contains(k) && k != id {
                        let j = choose|j: int| 0 <= j < i + 1 && #[trigger] recipients@.subrange(0, i + 1)[j] == k;
                        assert(recipients@.subrange(0, i as int)[j] == k);
                    }
                    if recipients@.subrange(0, i as int).contains(k) {
                        let j = choose|j: int| 0 <= j < i && #[trigger] recipients@.subrange(0, i as int)[j] == k;
                        assert(recipients@.subrange(0, i + 1)[j] == k);
                    }
                    if k == id {
                        assert(recipients@.subrange(0, i + 1)[i as int] == k);
                    }
                }
                assert forall|k: u64| #[trigger] self@.contains_key(k) implies self@[k] == prev[k] || k == id by {}
            }
            i = i + 1;
        }
        proof {
            assert(recipients@.subrange(0, recipients.len() as int) =~= recipients@);
        }
        recipients
    }

    /// Offers a line to one session's mailbox; fails, offering it to no
    /// mailbox, when that session is not registered.
    pub fn send_targeted(&mut self, target: u64, line: &String) -> (r: Result<(), RoutingError>)
        ensures
            r is Ok <==> old(self)@.contains_key(target),
            r matches Err(e) ==> e.target == target && final(self)@ == old(self)@,
            r is Ok ==> final(self)@ == old(self)@.insert(target, final(self)@[target])
                && final(self)@[target].sender() == old(self)@[target].sender()
                && final(self)@[target].offered() == old(self)@[target].offered().push(line@),
    {
        if self.mailboxes.contains_key(&target) {
            self.offer_to(target, line);
            Ok(())
        } else {
            Err(RoutingError { target })
        }
    }
}

} // verus!
