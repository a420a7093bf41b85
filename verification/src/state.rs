use vstd::prelude::*;
use crate::errors::Error;
use crate::events::EventView;
use crate::token::{Identity, MetadataView, TokenId};

verus! {

/// Abstract state of the token registry: the admin slot, the token counter,
/// the token and escrow tables, and the log of events emitted so far. Every
/// executable operation's contract says that the registry's view moves along
/// one of the transition functions below.
#[verifier::ext_equal]
pub struct RegistryView {
    /// The administrator, present exactly when the registry is initialized.
    pub admin: Option<Identity>,
    /// The next token id to assign; equals the number of tokens minted.
    pub counter: u64,
    /// Metadata of every minted token, keyed by token id.
    pub tokens: Map<TokenId, MetadataView>,
    /// Escrow amount declared by the most recent trade of each traded token.
    pub escrows: Map<TokenId, u128>,
    /// All events emitted so far, in emission order.
    pub events: Seq<EventView>,
}

impl RegistryView {
    /// The state of a freshly created registry: nothing stored, nothing
    /// emitted.
    pub open spec fn init() -> RegistryView {
        RegistryView {
            admin: None,
            counter: 0,
            tokens: Map::empty(),
            escrows: Map::empty(),
            events: Seq::empty(),
        }
    }

    /// The registry has been initialized exactly when the admin slot is
    /// occupied.
    pub open spec fn initialized(self) -> bool {
        self.admin is Some
    }

    /// Well-formedness, which `RegistryView::init()` satisfies and every
    /// transition preserves: before initialization nothing is stored, token
    /// ids stay below the counter, and only minted tokens carry escrow.
    pub open spec fn wf(self) -> bool {
        &&& (!self.initialized() ==> self.counter == 0 && self.tokens =~= Map::<
            TokenId,
            MetadataView,
        >::empty() && self.escrows =~= Map::<TokenId, u128>::empty())
        &&& (forall|id: TokenId| #[trigger] self.tokens.contains_key(id) ==> id < self.counter)
        &&& (forall|id: TokenId|
            #[trigger] self.escrows.contains_key(id) ==> self.tokens.contains_key(id))
    }
}

/// Transition of `initialize(admin)`: fails if already initialized, then if
/// `admin` itself has not approved the call; otherwise installs the admin,
/// sets the counter to zero and emits `Initialized`.
pub open spec fn spec_initialize(
    s: RegistryView,
    admin: Identity,
    approvals: Seq<Identity>,
) -> (RegistryView, Result<(), Error>) {
    if s.initialized() {
        (s, Err(Error::AlreadyInitialized))
    } else if !approvals.contains(admin) {
        (s, Err(Error::Unauthorized))
    } else {
        (
            RegistryView {
                admin: Some(admin),
                counter: 0,
                events: s.events.push(EventView::Initialized { admin }),
                ..s
            },
            Ok(()),
        )
    }
}

/// Transition of `mint_rwa(metadata, owner, yield_data)`: fails if the
/// registry is uninitialized, then if the stored admin has not approved the
/// call; otherwise assigns the counter's value as the new token's id,
/// increments the counter, records the token as active and emits `RwaMinted`.
pub open spec fn spec_mint(
    s: RegistryView,
    metadata: Seq<char>,
    owner: Identity,
    yield_data: u128,
    approvals: Seq<Identity>,
) -> (RegistryView, Result<TokenId, Error>) {
    match s.admin {
        None => (s, Err(Error::NotInitialized)),
        Some(admin) => {
            if !approvals.contains(admin) {
                (s, Err(Error::Unauthorized))
            } else {
                let id = s.counter;
                (
                    RegistryView {
                        counter: (s.counter + 1) as u64,
                        tokens: s.tokens.insert(
                            id,
                            MetadataView { ipfs_hash: metadata, owner, yield_data, is_active: true },
                        ),
                        events: s.events.push(
                            EventView::RwaMinted { token_id: id, owner, metadata },
                        ),
                        ..s
                    },
                    Ok(id),
                )
            }
        },
    }
}

/// Transition of `transfer(token_id, to)`: fails if the token does not exist,
/// then if it is inactive, then if its current owner has not approved the
/// call; otherwise replaces the owner by `to` (self-transfer included) and
/// emits `Transfer`.
pub open spec fn spec_transfer(
    s: RegistryView,
    token_id: TokenId,
    to: Identity,
    approvals: Seq<Identity>,
) -> (RegistryView, Result<(), Error>) {
    if !s.tokens.contains_key(token_id) {
        (s, Err(Error::TokenNotFound))
    } else {
        let rec = s.tokens[token_id];
        if !rec.is_active {
            (s, Err(Error::TokenInactive))
        } else if !approvals.contains(rec.owner) {
            (s, Err(Error::Unauthorized))
        } else {
            (
                RegistryView {
                    tokens: s.tokens.insert(token_id, MetadataView { owner: to, ..rec }),
                    events: s.events.push(
                        EventView::Transfer { token_id, from: rec.owner, to },
                    ),
                    ..s
                },
                Ok(()),
            )
        }
    }
}

/// Transition of `trade_with_escrow(token_id, buyer, escrow)`: fails if the
/// token does not exist, then if it is inactive, then if the buyer (not the
/// seller) has not approved the call, then if the declared escrow is below
/// the token's yield threshold; otherwise records the escrow (overwriting any
/// prior value), makes the buyer the owner and emits `Trade`. On failure
/// neither table changes.
pub open spec fn spec_trade(
    s: RegistryView,
    token_id: TokenId,
    buyer: Identity,
    escrow: u128,
    approvals: Seq<Identity>,
) -> (RegistryView, Result<(), Error>) {
    if !s.tokens.contains_key(token_id) {
        (s, Err(Error::TokenNotFound))
    } else {
        let rec = s.tokens[token_id];
        if !rec.is_active {
            (s, Err(Error::TokenInactive))
        } else if !approvals.contains(buyer) {
            (s, Err(Error::Unauthorized))
        } else if escrow < rec.yield_data {
            (s, Err(Error::InsufficientEscrow))
        } else {
            (
                RegistryView {
                    tokens: s.tokens.insert(token_id, MetadataView { owner: buyer, ..rec }),
                    escrows: s.escrows.insert(token_id, escrow),
                    events: s.events.push(
                        EventView::Trade { token_id, from: rec.owner, to: buyer, escrow },
                    ),
                    ..s
                },
                Ok(()),
            )
        }
    }
}

/// Transition of `burn(token_id)`: fails if the token does not exist, then if
/// its current owner has not approved the call; otherwise deactivates the
/// token, leaves the owner unchanged and emits `Burned`. Deliberately not
/// gated on `is_active`: burning an already-inactive token succeeds again and
/// re-emits `Burned` with the same owner.
pub open spec fn spec_burn(
    s: RegistryView,
    token_id: TokenId,
    approvals: Seq<Identity>,
) -> (RegistryView, Result<(), Error>) {
    if !s.tokens.contains_key(token_id) {
        (s, Err(Error::TokenNotFound))
    } else {
        let rec = s.tokens[token_id];
        if !approvals.contains(rec.owner) {
            (s, Err(Error::Unauthorized))
        } else {
            (
                RegistryView {
                    tokens: s.tokens.insert(token_id, MetadataView { is_active: false, ..rec }),
                    events: s.events.push(
                        EventView::Burned { token_id, owner: rec.owner },
                    ),
                    ..s
                },
                Ok(()),
            )
        }
    }
}

/// What `get_token(token_id)` returns: the stored record, or `TokenNotFound`.
pub open spec fn spec_get_token(s: RegistryView, token_id: TokenId) -> Result<
    MetadataView,
    Error,
> {
    if s.tokens.contains_key(token_id) {
        Ok(s.tokens[token_id])
    } else {
        Err(Error::TokenNotFound)
    }
}

/// What `get_escrow(token_id)` returns: the recorded escrow amount, or none
/// if the token has never been traded.
pub open spec fn spec_get_escrow(s: RegistryView, token_id: TokenId) -> Option<u128> {
    if s.escrows.contains_key(token_id) {
        Some(s.escrows[token_id])
    } else {
        None
    }
}

/// One mutating operation together with its inputs and the set of principals
/// that approved the call, for stating laws over arbitrary call sequences.
pub enum Op {
    Initialize { admin: Identity, approvals: Seq<Identity> },
    Mint { metadata: Seq<char>, owner: Identity, yield_data: u128, approvals: Seq<Identity> },
    Transfer { token_id: TokenId, to: Identity, approvals: Seq<Identity> },
    Trade { token_id: TokenId, buyer: Identity, escrow: u128, approvals: Seq<Identity> },
    Burn { token_id: TokenId, approvals: Seq<Identity> },
}

/// The state after one operation, whether it succeeded or failed.
pub open spec fn step(s: RegistryView, op: Op) -> RegistryView {
    match op {
        Op::Initialize { admin, approvals } => spec_initialize(s, admin, approvals).0,
        Op::Mint { metadata, owner, yield_data, approvals } => spec_mint(
            s,
            metadata,
            owner,
            yield_data,
            approvals,
        ).0,
        Op::Transfer { token_id, to, approvals } => spec_transfer(s, token_id, to, approvals).0,
        Op::Trade { token_id, buyer, escrow, approvals } => spec_trade(
            s,
            token_id,
            buyer,
            escrow,
            approvals,
        ).0,
        Op::Burn { token_id, approvals } => spec_burn(s, token_id, approvals).0,
    }
}

/// The state after a sequence of operations, applied left to right.
pub open spec fn run(s: RegistryView, ops: Seq<Op>) -> RegistryView
    decreases ops.len(),
{
    if ops.len() == 0 {
        s
    } else {
        run(step(s, ops[0]), ops.skip(1))
    }
}

} // verus!
