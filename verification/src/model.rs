//! The ticket store: tickets kept in memory under the identifier they were
//! created with.

use crate::ctx::Ctx;
use crate::error::Error;
use vstd::prelude::*;

verus! {

/// A stored ticket.
#[derive(Clone, Debug, PartialEq, Eq)]
pub struct Ticket {
    /// The identifier the store gave the ticket.
    pub id: u64,
    /// The user who created the ticket.
    pub cid: u64,
    pub title: String,
}

/// A ticket as a mathematical value.
pub struct TicketView {
    pub id: u64,
    pub cid: u64,
    pub title: Seq<char>,
}

impl View for Ticket {
    type V = TicketView;

    open spec fn view(&self) -> TicketView {
        TicketView { id: self.id, cid: self.cid, title: self.title@ }
    }
}

/// What a client supplies to have a ticket created.
#[derive(Clone, Debug, PartialEq, Eq)]
pub struct TicketForCreate {
    pub title: String,
}

/// `ticket` stands at place `k` of `listed`.
pub open spec fn is_listed_at(listed: Seq<TicketView>, k: int, ticket: TicketView) -> bool {
    0 <= k < listed.len() && listed[k] == ticket
}

/// `listed` is the listing of `tickets`: every stored ticket once, no other
/// ticket, in the order of the identifiers.
pub open spec fn is_listing_of(listed: Seq<TicketView>, tickets: Map<u64, TicketView>) -> bool {
    &&& forall|k: int|
        0 <= k < listed.len() ==> tickets.dom().contains((#[trigger] listed[k]).id)
            && tickets[listed[k].id] == listed[k]
    &&& forall|id: u64| #[trigger]
        tickets.dom().contains(id) ==> exists|k: int| is_listed_at(listed, k, tickets[id])
    &&& forall|a: int, b: int|
        0 <= a < b < listed.len() ==> (#[trigger] listed[a]).id < (#[trigger] listed[b]).id
}

/// The views of the tickets in `tickets`.
pub open spec fn ticket_views(tickets: Seq<Ticket>) -> Seq<TicketView> {
    Seq::new(tickets.len(), |k: int| tickets[k]@)
}

/// A deleted ticket is gone from every later listing, and the other tickets
/// stay listed.
pub proof fn lemma_deleted_ticket_is_not_listed(
    before: Map<u64, TicketView>,
    id: u64,
    listed: Seq<TicketView>,
)
    requires
        is_listing_of(listed, before.remove(id)),
    ensures
        forall|k: int| 0 <= k < listed.len() ==> (#[trigger] listed[k]).id != id,
        forall|other: u64|
            other != id && #[trigger] before.dom().contains(other) ==> exists|k: int|
                is_listed_at(listed, k, before[other]),
{
    assert forall|other: u64|
        other != id && #[trigger] before.dom().contains(other) implies exists|k: int|
        is_listed_at(listed, k, before[other]) by {
        assert(before.remove(id).dom().contains(other));
    }
}

/// A ticket that was created is listed until it is deleted.
pub proof fn lemma_created_ticket_is_listed(
    before: Map<u64, TicketView>,
    ticket: TicketView,
    listed: Seq<TicketView>,
)
    requires
        is_listing_of(listed, before.insert(ticket.id, ticket)),
    ensures
        exists|k: int| is_listed_at(listed, k, ticket),
{
    assert(before.insert(ticket.id, ticket).dom().contains(ticket.id));
}

/// What a slot keeps of its ticket. The identifier is the slot's index.
struct Slot {
    cid: u64,
    title: String,
}

/// The ticket in the slot `id` of `store`.
spec fn ticket_in(store: Seq<Option<Slot>>, id: u64) -> TicketView {
    TicketView { id, cid: store[id as int]->0.cid, title: store[id as int]->0.title@ }
}

/// The store. Identifiers are handed out in order, starting at zero, and one
/// that has been used is never used again, also not after its ticket was
/// deleted.
pub struct ModelController {
    tickets_store: Vec<Option<Slot>>,
}

impl ModelController {
    /// The stored tickets, by identifier.
    pub closed spec fn tickets(&self) -> Map<u64, TicketView> {
        Map::new(
            |id: u64| id < self.tickets_store@.len() && self.tickets_store@[id as int] is Some,
            |id: u64| ticket_in(self.tickets_store@, id),
        )
    }

    /// How many tickets were ever created: the identifier that the next one
    /// gets.
    pub closed spec fn created(&self) -> nat {
        self.tickets_store@.len()
    }

    /// An empty store.
    pub fn new() -> (mc: ModelController)
        ensures
            mc.tickets() == Map::<u64, TicketView>::empty(),
            mc.created() == 0,
    {
        let mc = ModelController { tickets_store: Vec::new() };
        assert(mc.tickets() =~= Map::<u64, TicketView>::empty());
        mc
    }

    /// Stores a new ticket with the title of `ticket_fc`, created by the
    /// caller `ctx`, under an identifier that no ticket had before, and
    /// returns it.
    pub fn create_ticket(&mut self, ctx: Ctx, ticket_fc: TicketForCreate) -> (ticket: Ticket)
        ensures
            ticket@ == (TicketView {
                id: old(self).created() as u64,
                cid: ctx.user_id,
                title: ticket_fc.title@,
            }),
            ticket.id == old(self).created(),
            !old(self).tickets().dom().contains(ticket.id),
            final(self).tickets() == old(self).tickets().insert(ticket.id, ticket@),
            final(self).created() == old(self).created() + 1,
    {
        let id = self.tickets_store.len() as u64;
        let cid = ctx.user_id();
        self.tickets_store.push(Some(Slot { cid, title: ticket_fc.title.clone() }));
        let ticket = Ticket { id, cid, title: ticket_fc.title };
        assert(self.tickets() =~= old(self).tickets().insert(ticket.id, ticket@));
        ticket
    }

    /// All stored tickets, in the order of their identifiers.
    pub fn list_tickets(&self) -> (listed: Vec<Ticket>)
        ensures
            is_listing_of(ticket_views(listed@), self.tickets()),
    {
        let mut listed: Vec<Ticket> = Vec::new();
        let n = self.tickets_store.len();
        let mut i: usize = 0;
        while i < n
            invariant
                n == self.tickets_store@.len(),
                i <= n,
                forall|k: int|
                    0 <= k < listed@.len() ==> (#[trigger] listed@[k]).id < i
                        && self.tickets().dom().contains(listed@[k].id)
                        && self.tickets()[listed@[k].id] == listed@[k]@,
                forall|id: u64|
                    id < i && #[trigger] self.tickets().dom().contains(id) ==> exists|k: int|
                        is_listed_at(ticket_views(listed@), k, self.tickets()[id]),
                forall|a: int, b: int|
                    0 <= a < b < listed@.len() ==> (#[trigger] listed@[a]).id < (
                    #[trigger] listed@[b]).id,
            decreases n - i,
        {
            let ghost before = listed@;
            match &self.tickets_store[i] {
                Some(slot) => {
                    let ticket = Ticket { id: i as u64, cid: slot.cid, title: slot.title.clone() };
                    proof {
                        assert(self.tickets().dom().contains(i as u64));
                        assert(self.tickets()[i as u64] == ticket@);
                    }
                    listed.push(ticket);
                    proof {
                        assert(is_listed_at(
                            ticket_views(listed@),
                            before.len() as int,
                            self.tickets()[i as u64],
                        ));
                        assert forall|id: u64|
                            id < i && #[trigger] self.tickets().dom().contains(id) implies exists|
                            k: int,
                        | is_listed_at(ticket_views(listed@), k, self.tickets()[id]) by {
                            let k: int = choose|k: int|
                                is_listed_at(ticket_views(before), k, self.tickets()[id]);
                            assert(is_listed_at(ticket_views(listed@), k, self.tickets()[id]));
                        }
                    }
                },
                None => {
                    assert(!self.tickets().dom().contains(i as u64));
                },
            }
            i = i + 1;
        }
        listed
    }

    /// Takes the ticket `id` out of the store and returns it.
    ///
    /// Fails with `TicketDeleteFailIdNotFound`, and leaves the store as it
    /// is, when no ticket is stored under `id`.
    pub fn delete_ticket(&mut self, id: u64) -> (r: Result<Ticket, Error>)
        ensures
            match r {
                Ok(ticket) => {
                    &&& old(self).tickets().dom().contains(id)
                    &&& ticket@ == old(self).tickets()[id]
                    &&& final(self).tickets() == old(self).tickets().remove(id)
                },
                Err(e) => {
                    &&& !old(self).tickets().dom().contains(id)
                    &&& e == Error::TicketDeleteFailIdNotFound { id }
                    &&& final(self).tickets() == old(self).tickets()
                },
            },
            final(self).created() == old(self).created(),
    {
        let n = self.tickets_store.len();
        if n as u64 <= id {
            return Err(Error::TicketDeleteFailIdNotFound { id });
        }
        let index = id as usize;
        let found = match &self.tickets_store[index] {
            Some(slot) => Some(Ticket { id, cid: slot.cid, title: slot.title.clone() }),
            None => None,
        };
        match found {
            Some(ticket) => {
                self.tickets_store.set(index, None);
                assert(self.tickets() =~= old(self).tickets().remove(id));
                Ok(ticket)
            },
            None => Err(Error::TicketDeleteFailIdNotFound { id }),
        }
    }
}

} // verus!
