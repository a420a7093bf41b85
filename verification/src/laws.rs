use vstd::prelude::*;
use crate::errors::Error;
use crate::state::{
    run, spec_burn, spec_get_token, spec_initialize, spec_mint, spec_trade, spec_transfer, step,
    Op, RegistryView,
};
use crate::token::{Identity, MetadataView, TokenId};

verus! {

/// Every operation preserves well-formedness. For a mint the counter must
/// have room left, as the executable `mint_rwa` requires.
pub proof fn lemma_step_preserves_wf(s: RegistryView, op: Op)
    requires
        s.wf(),
        op matches Op::Mint { .. } ==> s.counter < u64::MAX,
    ensures
        step(s, op).wf(),
{
}

/// The admin slot is written exactly once: every operation on an initialized
/// registry leaves it untouched, so the registry stays initialized.
pub proof fn lemma_step_preserves_initialized(s: RegistryView, op: Op)
    requires
        s.initialized(),
    ensures
        step(s, op).initialized(),
        step(s, op).admin == s.admin,
{
}

/// The token counter never decreases and never resets.
pub proof fn lemma_counter_never_decreases(s: RegistryView, op: Op)
    requires
        s.wf(),
        op matches Op::Mint { .. } ==> s.counter < u64::MAX,
    ensures
        step(s, op).counter >= s.counter,
{
}

/// Admin stability extended over any sequence of operations.
pub proof fn lemma_run_preserves_initialized(s: RegistryView, ops: Seq<Op>)
    requires
        s.initialized(),
    ensures
        run(s, ops).initialized(),
        run(s, ops).admin == s.admin,
    decreases ops.len(),
{
    if ops.len() > 0 {
        lemma_step_preserves_initialized(s, ops[0]);
        lemma_run_preserves_initialized(step(s, ops[0]), ops.skip(1));
    }
}

/// Law: after a successful `initialize`, a second `initialize` always fails
/// with `AlreadyInitialized` and changes nothing, regardless of the
/// operations in between.
pub proof fn lemma_initialize_twice_fails(
    s: RegistryView,
    admin0: Identity,
    approvals0: Seq<Identity>,
    ops: Seq<Op>,
    admin1: Identity,
    approvals1: Seq<Identity>,
)
    requires
        spec_initialize(s, admin0, approvals0).1 is Ok,
    ensures
        ({
            let s1 = run(spec_initialize(s, admin0, approvals0).0, ops);
            spec_initialize(s1, admin1, approvals1) == (s1, Err::<(), Error>(
                Error::AlreadyInitialized,
            ))
        }),
{
    lemma_run_preserves_initialized(spec_initialize(s, admin0, approvals0).0, ops);
}

/// Law: minting on an uninitialized registry always fails with
/// `NotInitialized` and changes nothing.
pub proof fn lemma_mint_uninitialized(
    s: RegistryView,
    metadata: Seq<char>,
    owner: Identity,
    yield_data: u128,
    approvals: Seq<Identity>,
)
    requires
        !s.initialized(),
    ensures
        spec_mint(s, metadata, owner, yield_data, approvals) == (s, Err::<TokenId, Error>(
            Error::NotInitialized,
        )),
{
}

/// Law: an operation that returns an error changes nothing — a failed call
/// leaves the whole registry state, the event log included, exactly as it
/// was.
pub proof fn lemma_failed_operation_changes_nothing(
    s: RegistryView,
    admin: Identity,
    metadata: Seq<char>,
    owner: Identity,
    yield_data: u128,
    token_id: TokenId,
    to: Identity,
    buyer: Identity,
    escrow: u128,
    approvals: Seq<Identity>,
)
    ensures
        spec_initialize(s, admin, approvals).1 is Err ==> spec_initialize(
            s,
            admin,
            approvals,
        ).0 == s,
        spec_mint(s, metadata, owner, yield_data, approvals).1 is Err ==> spec_mint(
            s,
            metadata,
            owner,
            yield_data,
            approvals,
        ).0 == s,
        spec_transfer(s, token_id, to, approvals).1 is Err ==> spec_transfer(
            s,
            token_id,
            to,
            approvals,
        ).0 == s,
        spec_trade(s, token_id, buyer, escrow, approvals).1 is Err ==> spec_trade(
            s,
            token_id,
            buyer,
            escrow,
            approvals,
        ).0 == s,
        spec_burn(s, token_id, approvals).1 is Err ==> spec_burn(s, token_id, approvals).0 == s,
{
}

/// The inputs of one mint, for stating laws over sequences of mints.
pub struct MintInput {
    pub metadata: Seq<char>,
    pub owner: Identity,
    pub yield_data: u128,
}

/// The state after a sequence of mints, applied left to right, all with the
/// same approvals.
pub open spec fn run_mints(
    s: RegistryView,
    inputs: Seq<MintInput>,
    approvals: Seq<Identity>,
) -> RegistryView
    decreases inputs.len(),
{
    if inputs.len() == 0 {
        s
    } else {
        run_mints(
            spec_mint(s, inputs[0].metadata, inputs[0].owner, inputs[0].yield_data, approvals).0,
            inputs.skip(1),
            approvals,
        )
    }
}

/// Law (counting): from a state with counter `c`, a sequence of N
/// admin-approved mints leaves the counter at `c + N`; with `c == 0` the
/// counter after N successful mints reads exactly N.
pub proof fn lemma_mint_count(s: RegistryView, inputs: Seq<MintInput>, approvals: Seq<Identity>)
    requires
        s.initialized(),
        approvals.contains(s.admin.unwrap()),
        s.counter + inputs.len() <= u64::MAX,
    ensures
        run_mints(s, inputs, approvals).counter == s.counter + inputs.len(),
        run_mints(s, inputs, approvals).admin == s.admin,
    decreases inputs.len(),
{
    if inputs.len() > 0 {
        let s1 = spec_mint(
            s,
            inputs[0].metadata,
            inputs[0].owner,
            inputs[0].yield_data,
            approvals,
        ).0;
        lemma_mint_count(s1, inputs.skip(1), approvals);
    }
}

/// Law (id assignment): under the same conditions, the i-th mint of the
/// sequence (0-indexed) succeeds and is assigned id `c + i`; with `c == 0`
/// the i-th minted token has id exactly i.
pub proof fn lemma_mint_ids(
    s: RegistryView,
    inputs: Seq<MintInput>,
    approvals: Seq<Identity>,
    i: int,
)
    requires
        s.initialized(),
        approvals.contains(s.admin.unwrap()),
        s.counter + inputs.len() <= u64::MAX,
        0 <= i < inputs.len(),
    ensures
        spec_mint(
            run_mints(s, inputs.take(i), approvals),
            inputs[i].metadata,
            inputs[i].owner,
            inputs[i].yield_data,
            approvals,
        ).1 == Ok::<TokenId, Error>((s.counter + i) as u64),
{
    lemma_mint_count(s, inputs.take(i), approvals);
}

/// Law (record placement): an admin-approved mint sequence touches no
/// existing token, and stores the i-th input's content reference, owner and
/// yield threshold at id `c + i`, active — so the token found at an id is
/// exactly the one minted there.
pub proof fn lemma_mint_sequence_records(
    s: RegistryView,
    inputs: Seq<MintInput>,
    approvals: Seq<Identity>,
)
    requires
        s.initialized(),
        approvals.contains(s.admin.unwrap()),
        s.counter + inputs.len() <= u64::MAX,
    ensures
        forall|id: TokenId|
            id < s.counter ==> (#[trigger] run_mints(s, inputs, approvals).tokens.contains_key(id)
                <==> s.tokens.contains_key(id)),
        forall|id: TokenId|
            id < s.counter && s.tokens.contains_key(id) ==> #[trigger] run_mints(
                s,
                inputs,
                approvals,
            ).tokens[id] == s.tokens[id],
        forall|i: int|
            0 <= i < inputs.len() ==> #[trigger] run_mints(s, inputs, approvals).tokens.contains_key(
                (s.counter + i) as u64,
            ) && run_mints(s, inputs, approvals).tokens[(s.counter + i) as u64] == (MetadataView {
                ipfs_hash: inputs[i].metadata,
                owner: inputs[i].owner,
                yield_data: inputs[i].yield_data,
                is_active: true,
            }),
    decreases inputs.len(),
{
    if inputs.len() > 0 {
        let rec0 = MetadataView {
            ipfs_hash: inputs[0].metadata,
            owner: inputs[0].owner,
            yield_data: inputs[0].yield_data,
            is_active: true,
        };
        let s1 = spec_mint(
            s,
            inputs[0].metadata,
            inputs[0].owner,
            inputs[0].yield_data,
            approvals,
        ).0;
        lemma_mint_sequence_records(s1, inputs.skip(1), approvals);
        let st = run_mints(s1, inputs.skip(1), approvals);
        assert(run_mints(s, inputs, approvals) == st);
        assert(s1.tokens == s.tokens.insert(s.counter, rec0));
        assert forall|id: TokenId|
            id < s.counter && s.tokens.contains_key(id) implies #[trigger] st.tokens[id]
            == s.tokens[id] by {
            assert(st.tokens[id] == s1.tokens[id]);
        }
        assert forall|i: int| 0 <= i < inputs.len() implies #[trigger] st.tokens.contains_key(
            (s.counter + i) as u64,
        ) && st.tokens[(s.counter + i) as u64] == (MetadataView {
            ipfs_hash: inputs[i].metadata,
            owner: inputs[i].owner,
            yield_data: inputs[i].yield_data,
            is_active: true,
        }) by {
            if i == 0 {
                assert(s1.tokens.contains_key(s.counter));
                assert(st.tokens.contains_key(s.counter));
                assert(st.tokens[s.counter] == s1.tokens[s.counter]);
            } else {
                assert(inputs.skip(1)[i - 1] == inputs[i]);
                assert(st.tokens.contains_key((s1.counter + (i - 1)) as u64));
                assert((s1.counter + (i - 1)) as u64 == (s.counter + i) as u64);
            }
        }
    }
}

/// Law: transfer, trade and burn on a nonexistent token id fail with
/// `TokenNotFound` and change nothing.
pub proof fn lemma_missing_token_rejected(
    s: RegistryView,
    token_id: TokenId,
    to: Identity,
    buyer: Identity,
    escrow: u128,
    approvals: Seq<Identity>,
)
    requires
        !s.tokens.contains_key(token_id),
    ensures
        spec_transfer(s, token_id, to, approvals) == (s, Err::<(), Error>(Error::TokenNotFound)),
        spec_trade(s, token_id, buyer, escrow, approvals) == (s, Err::<(), Error>(
            Error::TokenNotFound,
        )),
        spec_burn(s, token_id, approvals) == (s, Err::<(), Error>(Error::TokenNotFound)),
{
}

/// Law: after a successful burn, any transfer or trade of that token fails
/// with `TokenInactive` and changes nothing.
pub proof fn lemma_burned_token_frozen(
    s: RegistryView,
    token_id: TokenId,
    approvals_burn: Seq<Identity>,
    to: Identity,
    buyer: Identity,
    escrow: u128,
    approvals: Seq<Identity>,
)
    requires
        spec_burn(s, token_id, approvals_burn).1 is Ok,
    ensures
        ({
            let s1 = spec_burn(s, token_id, approvals_burn).0;
            &&& spec_transfer(s1, token_id, to, approvals) == (s1, Err::<(), Error>(
                Error::TokenInactive,
            ))
            &&& spec_trade(s1, token_id, buyer, escrow, approvals) == (s1, Err::<(), Error>(
                Error::TokenInactive,
            ))
        }),
{
}

/// Law (escrow boundary): on an existing, active token whose buyer approved
/// the call, a trade declaring exactly the yield threshold succeeds and
/// records the new owner and the escrow; a trade declaring one unit less
/// fails with `InsufficientEscrow` and leaves the whole state unchanged.
pub proof fn lemma_trade_escrow_boundary(
    s: RegistryView,
    token_id: TokenId,
    buyer: Identity,
    approvals: Seq<Identity>,
)
    requires
        s.tokens.contains_key(token_id),
        s.tokens[token_id].is_active,
        approvals.contains(buyer),
    ensures
        ({
            let threshold = s.tokens[token_id].yield_data;
            let (s1, r) = spec_trade(s, token_id, buyer, threshold, approvals);
            &&& r == Ok::<(), Error>(())
            &&& s1.tokens[token_id].owner == buyer
            &&& s1.escrows[token_id] == threshold
        }),
        s.tokens[token_id].yield_data >= 1 ==> spec_trade(
            s,
            token_id,
            buyer,
            (s.tokens[token_id].yield_data - 1) as u128,
            approvals,
        ) == (s, Err::<(), Error>(Error::InsufficientEscrow)),
{
}

/// Law (round trip): a successful mint assigns the counter's value as the
/// token's id, and reading that token back returns exactly the minted
/// content reference, owner and yield threshold, with the token active.
pub proof fn lemma_mint_get_roundtrip(
    s: RegistryView,
    metadata: Seq<char>,
    owner: Identity,
    yield_data: u128,
    approvals: Seq<Identity>,
)
    requires
        spec_mint(s, metadata, owner, yield_data, approvals).1 is Ok,
    ensures
        spec_mint(s, metadata, owner, yield_data, approvals).1 == Ok::<TokenId, Error>(s.counter),
        (spec_get_token(spec_mint(s, metadata, owner, yield_data, approvals).0, s.counter)
            == Ok::<MetadataView, Error>(
            MetadataView { ipfs_hash: metadata, owner, yield_data, is_active: true },
        )),
{
}

/// Law (authorization): without the approval of the identity being installed
/// as admin, `initialize` fails and changes nothing.
pub proof fn lemma_initialize_requires_auth(
    s: RegistryView,
    admin: Identity,
    approvals: Seq<Identity>,
)
    requires
        !approvals.contains(admin),
    ensures
        spec_initialize(s, admin, approvals).0 == s,
        spec_initialize(s, admin, approvals).1 is Err,
{
}

/// Law (authorization): without the stored admin's approval, `mint_rwa`
/// fails and changes nothing.
pub proof fn lemma_mint_requires_auth(
    s: RegistryView,
    metadata: Seq<char>,
    owner: Identity,
    yield_data: u128,
    approvals: Seq<Identity>,
)
    requires
        s.initialized() ==> !approvals.contains(s.admin.unwrap()),
    ensures
        spec_mint(s, metadata, owner, yield_data, approvals).0 == s,
        spec_mint(s, metadata, owner, yield_data, approvals).1 is Err,
{
}

/// Law (authorization): without the current owner's approval, `transfer`
/// fails and changes nothing.
pub proof fn lemma_transfer_requires_auth(
    s: RegistryView,
    token_id: TokenId,
    to: Identity,
    approvals: Seq<Identity>,
)
    requires
        s.tokens.contains_key(token_id) ==> !approvals.contains(s.tokens[token_id].owner),
    ensures
        spec_transfer(s, token_id, to, approvals).0 == s,
        spec_transfer(s, token_id, to, approvals).1 is Err,
{
}

/// Law (authorization): without the buyer's approval, `trade_with_escrow`
/// fails and changes nothing. The seller's consent is deliberately not
/// required: the buyer, not the current owner, asserts the trade.
pub proof fn lemma_trade_requires_auth(
    s: RegistryView,
    token_id: TokenId,
    buyer: Identity,
    escrow: u128,
    approvals: Seq<Identity>,
)
    requires
        !approvals.contains(buyer),
    ensures
        spec_trade(s, token_id, buyer, escrow, approvals).0 == s,
        spec_trade(s, token_id, buyer, escrow, approvals).1 is Err,
{
}

/// Law (authorization): without the current owner's approval, `burn` fails
/// and changes nothing.
pub proof fn lemma_burn_requires_auth(s: RegistryView, token_id: TokenId, approvals: Seq<Identity>)
    requires
        s.tokens.contains_key(token_id) ==> !approvals.contains(s.tokens[token_id].owner),
    ensures
        spec_burn(s, token_id, approvals).0 == s,
        spec_burn(s, token_id, approvals).1 is Err,
{
}

} // verus!
