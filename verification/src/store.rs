use vstd::prelude::*;

use crate::data::Ticket;
use crate::data::TicketDraft;
use crate::data::TicketStatus;
use crate::data::make_ticket;

verus! {

/// A store-scoped identifier for a ticket. The store hands identifiers out as
/// a monotonic counter starting at 1, so an identifier is unique for the
/// lifetime of its store and is never reused.
#[derive(Clone, Copy, Debug, PartialEq, Eq, Hash, Structural)]
pub struct TicketId(pub u64);

/// The identifier the next insertion into a store holding `s` will assign.
pub open spec fn next_id(s: Seq<Ticket>) -> TicketId {
    TicketId((s.len() + 1) as u64)
}

/// The contents of a store holding `s` after one insertion of `draft`: the
/// new ticket is appended under the next fresh identifier.
pub open spec fn store_insert(s: Seq<Ticket>, draft: TicketDraft) -> Seq<Ticket> {
    s.push(make_ticket(next_id(s), draft))
}

/// The lookup a store holding `s` answers for `id`: the ticket stored under
/// `id`, or `None` when the store never issued `id`. Absence is a normal
/// result, not an error.
pub open spec fn store_get(s: Seq<Ticket>, id: TicketId) -> Option<Ticket> {
    if 1 <= id.0 <= s.len() {
        Some(s[id.0 as int - 1])
    } else {
        None
    }
}

/// Well-formedness of a store's contents: the ticket at position `i` carries
/// the identifier `i + 1`, so identifiers are exactly `1..=len`, each issued
/// once.
pub open spec fn store_wf(s: Seq<Ticket>) -> bool {
    forall|i: int| 0 <= i < s.len() ==> (#[trigger] s[i]).id == TicketId((i + 1) as u64)
}

/// The contents of a store holding `s` after inserting every draft of
/// `drafts`, one at a time, in order.
pub open spec fn store_insert_all(s: Seq<Ticket>, drafts: Seq<TicketDraft>) -> Seq<Ticket>
    decreases drafts.len(),
{
    if drafts.len() == 0 {
        s
    } else {
        store_insert_all(store_insert(s, drafts[0]), drafts.skip(1))
    }
}

/// The identifier returned by the insertion of `drafts[k]` when the drafts
/// are inserted in order into a store holding `s`.
pub open spec fn issued_id(s: Seq<Ticket>, drafts: Seq<TicketDraft>, k: int) -> TicketId {
    next_id(store_insert_all(s, drafts.take(k)))
}

/// Inserting a sequence of drafts loses none and duplicates none: every
/// ticket already held stays where it was, and the ticket at position
/// `len + k` afterwards is exactly the one built from `drafts[k]`, under the
/// identifier `len + k + 1`.
pub proof fn lemma_insert_all_complete(s: Seq<Ticket>, drafts: Seq<TicketDraft>)
    ensures
        store_insert_all(s, drafts).len() == s.len() + drafts.len(),
        forall|i: int| 0 <= i < s.len() ==> store_insert_all(s, drafts)[i] == s[i],
        forall|k: int|
            0 <= k < drafts.len() ==> store_insert_all(s, drafts)[s.len() + k] == make_ticket(
                TicketId((s.len() + k + 1) as u64),
                drafts[k],
            ),
    decreases drafts.len(),
{
    if drafts.len() > 0 {
        let s1 = store_insert(s, drafts[0]);
        lemma_insert_all_complete(s1, drafts.skip(1));
        assert forall|i: int| 0 <= i < s.len() implies store_insert_all(s, drafts)[i] == s[i] by {
            assert(store_insert_all(s1, drafts.skip(1))[i] == s1[i]);
            assert(s1[i] == s[i]);
        }
        assert forall|k: int|
            0 <= k < drafts.len() implies store_insert_all(s, drafts)[s.len() + k] == make_ticket(
            TicketId((s.len() + k + 1) as u64),
            drafts[k],
        ) by {
            if k == 0 {
                assert(store_insert_all(s1, drafts.skip(1))[s.len() as int] == s1[s.len() as int]);
            } else {
                assert(drafts.skip(1)[k - 1] == drafts[k]);
                assert(store_insert_all(s1, drafts.skip(1))[s1.len() + (k - 1)] == make_ticket(
                    TicketId((s1.len() + (k - 1) + 1) as u64),
                    drafts.skip(1)[k - 1],
                ));
            }
        }
    }
}

/// Uniqueness: across any sequence of inserts into one store, the returned
/// identifiers are pairwise distinct. The bound keeps the 64-bit counter from
/// wrapping; an executable store enforces it on every insertion.
pub proof fn lemma_issued_ids_distinct(
    s: Seq<Ticket>,
    drafts: Seq<TicketDraft>,
    j: int,
    k: int,
)
    requires
        0 <= j < k < drafts.len(),
        s.len() + drafts.len() <= u64::MAX,
    ensures
        issued_id(s, drafts, j) != issued_id(s, drafts, k),
{
    lemma_insert_all_complete(s, drafts.take(j));
    lemma_insert_all_complete(s, drafts.take(k));
}

/// A store grown from empty by inserts alone is well formed: it holds exactly
/// the identifiers `1..=len`, each exactly once.
pub proof fn lemma_store_from_empty_wf(drafts: Seq<TicketDraft>)
    ensures
        store_insert_all(Seq::<Ticket>::empty(), drafts).len() == drafts.len(),
        store_wf(store_insert_all(Seq::<Ticket>::empty(), drafts)),
{
    lemma_insert_all_complete(Seq::<Ticket>::empty(), drafts);
    let grown = store_insert_all(Seq::<Ticket>::empty(), drafts);
    assert forall|i: int| 0 <= i < grown.len() implies (#[trigger] grown[i]).id == TicketId(
        (i + 1) as u64,
    ) by {
        assert(grown[Seq::<Ticket>::empty().len() + i] == make_ticket(
            TicketId((Seq::<Ticket>::empty().len() + i + 1) as u64),
            drafts[i],
        ));
    }
}

/// Round trip: inserting a draft and then looking the returned identifier up
/// yields a ticket whose fields match the draft and whose status is `Open`.
pub proof fn lemma_insert_get_round_trip(s: Seq<Ticket>, draft: TicketDraft)
    requires
        s.len() < u64::MAX,
    ensures
        ({
            let id = next_id(s);
            &&& store_get(store_insert(s, draft), id) == Some(make_ticket(id, draft))
            &&& make_ticket(id, draft).title == draft.title
            &&& make_ticket(id, draft).description == draft.description
            &&& make_ticket(id, draft).status == TicketStatus::Open
        }),
{
}

/// Absence: an identifier outside the range a store has issued is answered
/// with `None` — a normal result, never an error. Together with
/// `lemma_store_from_empty_wf`, a store grown from empty has issued exactly
/// `1..=len`, so this covers every identifier never returned by an insert.
pub proof fn lemma_get_absent(s: Seq<Ticket>, id: TicketId)
    requires
        id.0 == 0 || id.0 > s.len(),
    ensures
        store_get(s, id) is None,
{
}

/// Order: two inserts performed one after the other land in the store in that
/// order — the first receives the smaller identifier and both stay
/// retrievable, unchanged, afterwards.
pub proof fn lemma_two_inserts_in_order(s: Seq<Ticket>, d1: TicketDraft, d2: TicketDraft)
    requires
        s.len() + 2 <= u64::MAX,
    ensures
        ({
            let i1 = next_id(s);
            let s1 = store_insert(s, d1);
            let i2 = next_id(s1);
            let s2 = store_insert(s1, d2);
            &&& i1.0 < i2.0
            &&& store_get(s2, i1) == Some(make_ticket(i1, d1))
            &&& store_get(s2, i2) == Some(make_ticket(i2, d2))
        }),
{
}

/// An in-memory collection of tickets keyed by store-assigned identifiers.
///
/// The store is meant to be owned by exactly one worker (the server loop);
/// it carries no lock of its own, since exclusivity is structural.
pub struct TicketStore {
    tickets: Vec<Ticket>,
}

impl View for TicketStore {
    type V = Seq<Ticket>;

    closed spec fn view(&self) -> Seq<Ticket> {
        self.tickets@
    }
}

impl TicketStore {
    pub open spec fn wf(&self) -> bool {
        store_wf(self@)
    }

    /// Creates an empty store.
    pub fn new() -> (s: TicketStore)
        ensures
            s@ == Seq::<Ticket>::empty(),
            s.wf(),
    {
        TicketStore { tickets: Vec::new() }
    }

    /// The number of tickets held.
    pub fn len(&self) -> (n: usize)
        ensures
            n == self@.len(),
    {
        self.tickets.len()
    }

    /// Allocates a fresh, never-before-issued identifier, stores the ticket
    /// built from `draft` with status `Open` under it, and returns it. Never
    /// fails: the store performs no validation of the draft.
    pub fn add_ticket(&mut self, draft: TicketDraft) -> (id: TicketId)
        requires
            old(self)@.len() < u64::MAX,
        ensures
            id == next_id(old(self)@),
            final(self)@ == store_insert(old(self)@, draft),
            store_get(old(self)@, id) is None,
            store_get(final(self)@, id) == Some(make_ticket(id, draft)),
            old(self).wf() ==> final(self).wf(),
    {
        let n = self.tickets.len();
        let id = TicketId(n as u64 + 1);
        let ticket = Ticket::new(id, draft);
        self.tickets.push(ticket);
        proof {
            if old(self).wf() {
                assert forall|i: int| 0 <= i < self@.len() implies (#[trigger] self@[i]).id
                    == TicketId((i + 1) as u64) by {
                    if i < old(self)@.len() {
                        assert(self@[i] == old(self)@[i]);
                    }
                }
            }
        }
        id
    }

    /// Looks the ticket stored under `id` up, without changing the store.
    /// An identifier the store never issued answers `None`.
    pub fn get(&self, id: TicketId) -> (t: Option<&Ticket>)
        ensures
            (match t {
                Some(ticket) => store_get(self@, id) == Some(*ticket),
                None => store_get(self@, id) is None,
            }),
    {
        if 1 <= id.0 && id.0 <= self.tickets.len() as u64 {
            Some(&self.tickets[(id.0 - 1) as usize])
        } else {
            None
        }
    }
}

} // verus!
