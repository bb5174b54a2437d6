use vstd::prelude::*;

use crate::store::TicketId;

verus! {

/// Workflow state of a stored ticket. A freshly created ticket is `Open`.
#[derive(Clone, Copy, Debug, PartialEq, Eq, Structural)]
pub enum TicketStatus {
    Open,
    InProgress,
    Closed,
}

/// An input payload for a new ticket. The store accepts any draft: whether the
/// content is sensible (say, a non-empty title) is the concern of whoever
/// builds the draft, not of the store.
#[derive(Debug, PartialEq)]
pub struct TicketDraft {
    pub title: String,
    pub description: String,
}

/// A stored ticket. Its identifier is assigned by the store on insertion and
/// is never chosen by a caller.
#[derive(Debug, PartialEq)]
pub struct Ticket {
    pub id: TicketId,
    pub title: String,
    pub description: String,
    pub status: TicketStatus,
}

/// The ticket built for a draft under a given identifier: the draft's fields
/// are carried over unchanged and the status starts out `Open`.
pub open spec fn make_ticket(id: TicketId, draft: TicketDraft) -> Ticket {
    Ticket { id, title: draft.title, description: draft.description, status: TicketStatus::Open }
}

/// A request to create a ticket: the draft fields as a caller hands them in.
#[derive(Debug)]
pub struct CreateTicketRequest {
    pub title: String,
    pub description: String,
}

/// A request to change some of a ticket's fields: every field left as `None`
/// stays as it is.
#[derive(Debug)]
pub struct PatchTicketRequest {
    pub title: Option<String>,
    pub description: Option<String>,
    pub status: Option<TicketStatus>,
}

impl Clone for TicketDraft {
    fn clone(&self) -> (r: Self)
        ensures
            r == *self,
    {
        TicketDraft { title: self.title.clone(), description: self.description.clone() }
    }
}

impl Ticket {
    /// Builds the ticket for `draft` under the identifier `id`, with status
    /// `Open`.
    pub fn new(id: TicketId, draft: TicketDraft) -> (t: Ticket)
        ensures
            t == make_ticket(id, draft),
    {
        Ticket {
            id,
            title: draft.title,
            description: draft.description,
            status: TicketStatus::Open,
        }
    }

    /// Applies a patch request field by field: a field given as `Some` is
    /// replaced, a field given as `None` is kept; the identifier never
    /// changes.
    pub fn apply_patch(&mut self, patch: PatchTicketRequest)
        ensures
            final(self).id == old(self).id,
            final(self).title == (match patch.title {
                Some(title) => title,
                None => old(self).title,
            }),
            final(self).description == (match patch.description {
                Some(description) => description,
                None => old(self).description,
            }),
            final(self).status == (match patch.status {
                Some(status) => status,
                None => old(self).status,
            }),
    {
        if let Some(title) = patch.title {
            self.title = title;
        }
        if let Some(description) = patch.description {
            self.description = description;
        }
        if let Some(status) = patch.status {
            self.status = status;
        }
    }
}

impl Clone for Ticket {
    fn clone(&self) -> (r: Self)
        ensures
            r == *self,
    {
        Ticket {
            id: self.id,
            title: self.title.clone(),
            description: self.description.clone(),
            status: self.status,
        }
    }
}

impl CreateTicketRequest {
    /// Turns the request into the draft the store consumes, carrying both
    /// fields over unchanged.
    pub fn into_draft(self) -> (d: TicketDraft)
        ensures
            d.title == self.title,
            d.description == self.description,
    {
        TicketDraft { title: self.title, description: self.description }
    }
}

} // verus!
