use vstd::prelude::*;
use crate::token::{Identity, TokenId};

verus! {

/// Emitted once, on successful initialization.
#[derive(Debug)]
pub struct Initialized {
    pub admin: Identity,
}

/// Emitted on each successful mint.
#[derive(Debug)]
pub struct RwaMinted {
    pub token_id: TokenId,
    pub owner: Identity,
    pub metadata: String,
}

/// Emitted on each successful ownership transfer.
#[derive(Debug)]
pub struct Transfer {
    pub token_id: TokenId,
    pub from: Identity,
    pub to: Identity,
}

/// Emitted on each successful escrow-backed trade.
#[derive(Debug)]
pub struct Trade {
    pub token_id: TokenId,
    pub from: Identity,
    pub to: Identity,
    pub escrow: u128,
}

/// Emitted on each successful burn.
#[derive(Debug)]
pub struct Burned {
    pub token_id: TokenId,
    pub owner: Identity,
}

/// One entry of the registry's append-only event log. An embedding publishes
/// each entry to the host ledger's event stream on successful completion of
/// the operation that produced it.
#[derive(Debug)]
pub enum Event {
    Initialized(Initialized),
    RwaMinted(RwaMinted),
    Transfer(Transfer),
    Trade(Trade),
    Burned(Burned),
}

/// Mathematical view of one event log entry.
pub enum EventView {
    Initialized { admin: Identity },
    RwaMinted { token_id: TokenId, owner: Identity, metadata: Seq<char> },
    Transfer { token_id: TokenId, from: Identity, to: Identity },
    Trade { token_id: TokenId, from: Identity, to: Identity, escrow: u128 },
    Burned { token_id: TokenId, owner: Identity },
}

impl View for Event {
    type V = EventView;

    open spec fn view(&self) -> EventView {
        match self {
            Event::Initialized(e) => EventView::Initialized { admin: e.admin },
            Event::RwaMinted(e) => EventView::RwaMinted {
                token_id: e.token_id,
                owner: e.owner,
                metadata: e.metadata@,
            },
            Event::Transfer(e) => EventView::Transfer {
                token_id: e.token_id,
                from: e.from,
                to: e.to,
            },
            Event::Trade(e) => EventView::Trade {
                token_id: e.token_id,
                from: e.from,
                to: e.to,
                escrow: e.escrow,
            },
            Event::Burned(e) => EventView::Burned { token_id: e.token_id, owner: e.owner },
        }
    }
}

/// The view of an event log: each entry's view, in emission order.
pub open spec fn log_view(log: Seq<Event>) -> Seq<EventView> {
    log.map_values(|e: Event| e@)
}

} // verus!
