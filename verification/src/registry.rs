use vstd::prelude::*;
use std::collections::HashMap;
use crate::errors::Error;
use crate::events::{log_view, Burned, Event, EventView, Initialized, RwaMinted, Trade, Transfer};
use crate::state::{
    spec_burn, spec_get_escrow, spec_get_token, spec_initialize, spec_mint, spec_trade,
    spec_transfer, RegistryView,
};
use crate::token::{Identity, Metadata, MetadataView, TokenId};

verus! {

broadcast use vstd::std_specs::hash::group_hash_axioms;

/// Whether `x` occurs in `ids`.
fn contains_id(ids: &Vec<Identity>, x: Identity) -> (r: bool)
    ensures
        r == ids@.contains(x),
{
    let mut i: usize = 0;
    while i < ids.len()
        invariant
            i <= ids@.len(),
            forall|j: int| 0 <= j < i ==> ids@[j] != x,
        decreases ids@.len() - i,
    {
        if ids[i] == x {
            assert(ids@[i as int] == x);
            return true;
        }
        i += 1;
    }
    false
}

/// The token registry: the administrator slot, the monotonic token counter,
/// the token and escrow tables and the log of emitted events. One value of
/// this type stands for one registry instance's entire persistent state; an
/// embedding keeps it durable between calls.
///
/// Each mutating operation takes `approvals`, the authorization oracle's
/// answer for the current call: the principals whose approval is present.
/// An operation proceeds past its authorization check only if the principal
/// it requires — the identity being installed for `initialize`, the stored
/// admin for `mint_rwa`, the current owner for `transfer` and `burn`, the
/// buyer for `trade_with_escrow` — occurs there.
pub struct RwaToken {
    admin: Option<Identity>,
    counter: u64,
    tokens: HashMap<TokenId, Metadata>,
    escrows: HashMap<TokenId, u128>,
    events: Vec<Event>,
}

impl View for RwaToken {
    type V = RegistryView;

    closed spec fn view(&self) -> RegistryView {
        RegistryView {
            admin: self.admin,
            counter: self.counter,
            tokens: self.tokens@.map_values(|m: Metadata| m@),
            escrows: self.escrows@,
            events: log_view(self.events@),
        }
    }
}

/// The token table described by a sequence of records, later entries winning
/// on a repeated id.
pub open spec fn token_records_map(records: Seq<(TokenId, Metadata)>) -> Map<TokenId, MetadataView>
    decreases records.len(),
{
    if records.len() == 0 {
        Map::empty()
    } else {
        token_records_map(records.drop_last()).insert(records.last().0, records.last().1@)
    }
}

/// The escrow table described by a sequence of records, later entries winning
/// on a repeated id.
pub open spec fn escrow_records_map(records: Seq<(TokenId, u128)>) -> Map<TokenId, u128>
    decreases records.len(),
{
    if records.len() == 0 {
        Map::empty()
    } else {
        escrow_records_map(records.drop_last()).insert(records.last().0, records.last().1)
    }
}

impl RwaToken {
    /// A freshly created registry: uninitialized, no tokens, no escrow, no
    /// events.
    pub fn new() -> (r: RwaToken)
        ensures
            r@ == RegistryView::init(),
    {
        let r = RwaToken {
            admin: None,
            counter: 0,
            tokens: HashMap::new(),
            escrows: HashMap::new(),
            events: Vec::new(),
        };
        proof {
            assert(r@.tokens =~= RegistryView::init().tokens);
            assert(r@.escrows =~= RegistryView::init().escrows);
            assert(r@.events =~= RegistryView::init().events);
            assert(r@ =~= RegistryView::init());
        }
        r
    }

    /// Rebuild a registry from records previously read out of one (through
    /// `get_admin`, `get_token_count`, `get_token` and `get_escrow`), for an
    /// embedding that keeps the state in durable storage between calls. The
    /// event log starts empty: events already emitted were published when
    /// they arose.
    pub fn from_records(
        admin: Option<Identity>,
        counter: u64,
        tokens: Vec<(TokenId, Metadata)>,
        escrows: Vec<(TokenId, u128)>,
    ) -> (r: RwaToken)
        ensures
            r@.admin == admin,
            r@.counter == counter,
            r@.tokens == token_records_map(tokens@),
            r@.escrows == escrow_records_map(escrows@),
            r@.events == Seq::<EventView>::empty(),
    {
        let mut token_table: HashMap<TokenId, Metadata> = HashMap::new();
        let mut i: usize = 0;
        while i < tokens.len()
            invariant
                i <= tokens@.len(),
                token_table@.map_values(|m: Metadata| m@) == token_records_map(
                    tokens@.take(i as int),
                ),
            decreases tokens@.len() - i,
        {
            let entry = &tokens[i];
            token_table.insert(entry.0, entry.1.clone());
            proof {
                assert(tokens@.take(i + 1).drop_last() =~= tokens@.take(i as int));
                assert(tokens@.take(i + 1).last() == tokens@[i as int]);
                assert(token_table@.map_values(|m: Metadata| m@) =~= token_records_map(
                    tokens@.take(i + 1),
                ));
            }
            i += 1;
        }
        let mut escrow_table: HashMap<TokenId, u128> = HashMap::new();
        let mut j: usize = 0;
        while j < escrows.len()
            invariant
                j <= escrows@.len(),
                escrow_table@ == escrow_records_map(escrows@.take(j as int)),
            decreases escrows@.len() - j,
        {
            let entry = escrows[j];
            escrow_table.insert(entry.0, entry.1);
            proof {
                assert(escrows@.take(j + 1).drop_last() =~= escrows@.take(j as int));
                assert(escrows@.take(j + 1).last() == escrows@[j as int]);
                assert(escrow_table@ =~= escrow_records_map(escrows@.take(j + 1)));
            }
            j += 1;
        }
        let r = RwaToken {
            admin,
            counter,
            tokens: token_table,
            escrows: escrow_table,
            events: Vec::new(),
        };
        proof {
            assert(tokens@.take(tokens@.len() as int) =~= tokens@);
            assert(escrows@.take(escrows@.len() as int) =~= escrows@);
            assert(r@.events =~= Seq::<EventView>::empty());
        }
        r
    }

    /// Install `admin` and set the token counter to zero, provided the
    /// registry is uninitialized and `admin` itself approved the call.
    pub fn initialize(&mut self, admin: Identity, approvals: &Vec<Identity>) -> (r: Result<
        (),
        Error,
    >)
        ensures
            final(self)@ == spec_initialize(old(self)@, admin, approvals@).0,
            r == spec_initialize(old(self)@, admin, approvals@).1,
    {
        if self.admin.is_some() {
            return Err(Error::AlreadyInitialized);
        }
        if !contains_id(approvals, admin) {
            return Err(Error::Unauthorized);
        }
        self.admin = Some(admin);
        self.counter = 0;
        self.events.push(Event::Initialized(Initialized { admin }));
        proof {
            assert(self@.events =~= spec_initialize(old(self)@, admin, approvals@).0.events);
            assert(self@ =~= spec_initialize(old(self)@, admin, approvals@).0);
        }
        Ok(())
    }

    /// Assign the counter's current value as a fresh token's id, record the
    /// token as active and return its id, provided the registry is
    /// initialized and the stored admin approved the call.
    pub fn mint_rwa(
        &mut self,
        metadata: String,
        owner: Identity,
        yield_data: u128,
        approvals: &Vec<Identity>,
    ) -> (r: Result<TokenId, Error>)
        requires
            old(self)@.counter < u64::MAX,
        ensures
            final(self)@ == spec_mint(old(self)@, metadata@, owner, yield_data, approvals@).0,
            r == spec_mint(old(self)@, metadata@, owner, yield_data, approvals@).1,
    {
        let ghost m_view = metadata@;
        let admin = match self.admin {
            Some(a) => a,
            None => {
                return Err(Error::NotInitialized);
            },
        };
        if !contains_id(approvals, admin) {
            return Err(Error::Unauthorized);
        }
        let token_id = self.counter;
        self.counter = token_id + 1;
        let record = Metadata { ipfs_hash: metadata.clone(), owner, yield_data, is_active: true };
        self.tokens.insert(token_id, record);
        self.events.push(Event::RwaMinted(RwaMinted { token_id, owner, metadata }));
        proof {
            let target = spec_mint(old(self)@, m_view, owner, yield_data, approvals@).0;
            assert(self@.tokens =~= target.tokens);
            assert(self@.events =~= target.events);
            assert(self@ =~= target);
        }
        Ok(token_id)
    }

    /// Make `to` the owner of `token_id` (self-transfer included), provided
    /// the token exists, is active, and its current owner approved the call.
    pub fn transfer(&mut self, token_id: TokenId, to: Identity, approvals: &Vec<Identity>) -> (r:
        Result<(), Error>)
        ensures
            final(self)@ == spec_transfer(old(self)@, token_id, to, approvals@).0,
            r == spec_transfer(old(self)@, token_id, to, approvals@).1,
    {
        let (owner, is_active) = match self.tokens.get(&token_id) {
            Some(rec) => (rec.owner, rec.is_active),
            None => {
                return Err(Error::TokenNotFound);
            },
        };
        if !is_active {
            return Err(Error::TokenInactive);
        }
        if !contains_id(approvals, owner) {
            return Err(Error::Unauthorized);
        }
        let rec = self.tokens.remove(&token_id).unwrap();
        let updated = Metadata {
            ipfs_hash: rec.ipfs_hash,
            owner: to,
            yield_data: rec.yield_data,
            is_active: rec.is_active,
        };
        self.tokens.insert(token_id, updated);
        self.events.push(Event::Transfer(Transfer { token_id, from: owner, to }));
        proof {
            let target = spec_transfer(old(self)@, token_id, to, approvals@).0;
            assert(self@.tokens =~= target.tokens);
            assert(self@.events =~= target.events);
            assert(self@ =~= target);
        }
        Ok(())
    }

    /// Record `escrow` against `token_id` (overwriting any prior value) and
    /// make `buyer` the owner, provided the token exists, is active, the
    /// buyer approved the call, and `escrow` reaches the token's yield
    /// threshold. On failure neither record changes.
    pub fn trade_with_escrow(
        &mut self,
        token_id: TokenId,
        buyer: Identity,
        escrow: u128,
        approvals: &Vec<Identity>,
    ) -> (r: Result<(), Error>)
        ensures
            final(self)@ == spec_trade(old(self)@, token_id, buyer, escrow, approvals@).0,
            r == spec_trade(old(self)@, token_id, buyer, escrow, approvals@).1,
    {
        let (is_active, yield_data) = match self.tokens.get(&token_id) {
            Some(rec) => (rec.is_active, rec.yield_data),
            None => {
                return Err(Error::TokenNotFound);
            },
        };
        if !is_active {
            return Err(Error::TokenInactive);
        }
        if !contains_id(approvals, buyer) {
            return Err(Error::Unauthorized);
        }
        if escrow < yield_data {
            return Err(Error::InsufficientEscrow);
        }
        self.escrows.insert(token_id, escrow);
        let rec = self.tokens.remove(&token_id).unwrap();
        let from = rec.owner;
        let updated = Metadata {
            ipfs_hash: rec.ipfs_hash,
            owner: buyer,
            yield_data: rec.yield_data,
            is_active: rec.is_active,
        };
        self.tokens.insert(token_id, updated);
        self.events.push(Event::Trade(Trade { token_id, from, to: buyer, escrow }));
        proof {
            let target = spec_trade(old(self)@, token_id, buyer, escrow, approvals@).0;
            assert(self@.tokens =~= target.tokens);
            assert(self@.events =~= target.events);
            assert(self@ =~= target);
        }
        Ok(())
    }

    /// Deactivate `token_id`, leaving its owner unchanged, provided the token
    /// exists and its current owner approved the call. Not gated on the token
    /// being active: burning an already-inactive token succeeds again.
    pub fn burn(&mut self, token_id: TokenId, approvals: &Vec<Identity>) -> (r: Result<(), Error>)
        ensures
            final(self)@ == spec_burn(old(self)@, token_id, approvals@).0,
            r == spec_burn(old(self)@, token_id, approvals@).1,
    {
        let owner = match self.tokens.get(&token_id) {
            Some(rec) => rec.owner,
            None => {
                return Err(Error::TokenNotFound);
            },
        };
        if !contains_id(approvals, owner) {
            return Err(Error::Unauthorized);
        }
        let rec = self.tokens.remove(&token_id).unwrap();
        let updated = Metadata {
            ipfs_hash: rec.ipfs_hash,
            owner: rec.owner,
            yield_data: rec.yield_data,
            is_active: false,
        };
        self.tokens.insert(token_id, updated);
        self.events.push(Event::Burned(Burned { token_id, owner }));
        proof {
            let target = spec_burn(old(self)@, token_id, approvals@).0;
            assert(self@.tokens =~= target.tokens);
            assert(self@.events =~= target.events);
            assert(self@ =~= target);
        }
        Ok(())
    }

    /// The metadata stored at `token_id`, or `TokenNotFound`.
    pub fn get_token(&self, token_id: TokenId) -> (r: Result<Metadata, Error>)
        ensures
            r matches Ok(m) ==> spec_get_token(self@, token_id) == Ok::<MetadataView, Error>(m@),
            r matches Err(e) ==> spec_get_token(self@, token_id) == Err::<MetadataView, Error>(e),
    {
        match self.tokens.get(&token_id) {
            Some(m) => Ok(m.clone()),
            None => Err(Error::TokenNotFound),
        }
    }

    /// The number of tokens minted so far (the next id to assign); zero on an
    /// uninitialized registry.
    pub fn get_token_count(&self) -> (r: u64)
        ensures
            r == self@.counter,
    {
        self.counter
    }

    /// The stored admin identity, or none if uninitialized.
    pub fn get_admin(&self) -> (r: Option<Identity>)
        ensures
            r == self@.admin,
    {
        self.admin
    }

    /// The escrow amount declared by the most recent trade of `token_id`, or
    /// none if the token has never been traded.
    pub fn get_escrow(&self, token_id: TokenId) -> (r: Option<u128>)
        ensures
            r == spec_get_escrow(self@, token_id),
    {
        match self.escrows.get(&token_id) {
            Some(v) => Some(*v),
            None => None,
        }
    }

    /// The events emitted so far, in emission order.
    pub fn event_log(&self) -> (r: &Vec<Event>)
        ensures
            log_view(r@) == self@.events,
    {
        &self.events
    }
}

} // verus!
