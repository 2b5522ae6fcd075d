//! The encoding of the state and of the parameters of a call, as tuples of
//! structured binary data.

use crate::amount::storable;
use crate::amount::TokenAmount;
use crate::state::ConstructorParams;
use crate::state::State;
use crate::state::TransferParams;
use cid::Cid;
use fvm_ipld_encoding::from_slice;
use fvm_ipld_encoding::to_vec;
use fvm_shared::address::Address;
use fvm_shared::bigint::bigint_ser::BigIntDe;
use fvm_shared::bigint::bigint_ser::BigIntSer;
use fvm_shared::bigint::BigInt;
use fvm_shared::bigint::Sign;
use vstd::prelude::*;

verus! {

/// `fvm_ipld_encoding::Error`, the failure of an encoding or a decoding.
#[verifier::external_type_specification]
#[verifier::external_body]
pub struct ExEncodingError(fvm_ipld_encoding::Error);

/// The bytes of the tuple `(name, symbol, max_supply, owner, balances)`, or
/// `None` where the encoder refuses it.
pub uninterp spec fn state_encoding(
    name: Seq<char>,
    symbol: Seq<char>,
    max_supply: int,
    owner: Address,
    balances: Cid,
) -> Option<Seq<u8>>;

/// The tuple `(name, symbol, max_supply, owner, balances)` that the bytes
/// decode to, or `None` where they decode to none.
pub uninterp spec fn state_decoding(bytes: Seq<u8>) -> Option<(Seq<char>, Seq<char>, int, Address, Cid)>;

/// The tuple `(name, symbol, max_supply, owner)` that the bytes decode to, or
/// `None` where they decode to none.
pub uninterp spec fn constructor_params_decoding(bytes: Seq<u8>) -> Option<(Seq<char>, Seq<char>, int, Address)>;

/// The tuple `(recipient, amount)` that the bytes decode to, or `None` where they
/// decode to none.
pub uninterp spec fn transfer_params_decoding(bytes: Seq<u8>) -> Option<(Address, int)>;

/// `fvm_ipld_encoding::to_vec` on the tuple of the state's fields, the supply
/// cap as a big integer in bytes. The encoder refuses a cap that cannot be
/// stored, and nothing else. The bytes depend on the fields alone, and
/// `fvm_ipld_encoding::from_slice` decodes them to the same fields.
#[verifier::external_body]
pub(crate) fn encode_state(state: &State) -> (encoded: Result<Vec<u8>, fvm_ipld_encoding::Error>)
    ensures
        encoded matches Ok(bytes) ==> state_encoding(
            state.name@,
            state.symbol@,
            state.max_supply@,
            state.owner,
            state.balances,
        ) == Some(bytes@),
        encoded matches Ok(bytes) ==> state_decoding(bytes@) == Some(
            (state.name@, state.symbol@, state.max_supply@, state.owner, state.balances),
        ),
        encoded is Err ==> state_encoding(
            state.name@,
            state.symbol@,
            state.max_supply@,
            state.owner,
            state.balances,
        ) is None,
        encoded is Err <==> !storable(state.max_supply@),
{
    let sign = if state.max_supply.negative { Sign::Minus } else { Sign::Plus };
    let max_supply = BigInt::from_bytes_be(sign, &state.max_supply.magnitude);
    to_vec(&(&state.name, &state.symbol, BigIntSer(&max_supply), &state.owner, &state.balances))
}

/// `fvm_ipld_encoding::from_slice` to the tuple of the state's fields. The
/// decoder takes no supply cap that could not be stored.
#[verifier::external_body]
pub(crate) fn decode_state(bytes: &[u8]) -> (decoded: Result<State, fvm_ipld_encoding::Error>)
    ensures
        decoded matches Ok(state) ==> storable(state.max_supply@),
        decoded matches Ok(state) ==> state_decoding(bytes@) == Some(
            (state.name@, state.symbol@, state.max_supply@, state.owner, state.balances),
        ),
        decoded is Err ==> state_decoding(bytes@) is None,
{
    let (name, symbol, max_supply, owner, balances): (String, String, BigIntDe, Address, Cid) =
        from_slice(bytes)?;
    let (sign, magnitude) = max_supply.0.to_bytes_be();
    let max_supply = TokenAmount { negative: matches!(sign, Sign::Minus), magnitude };
    Ok(State { name, symbol, max_supply, owner, balances })
}

/// `fvm_ipld_encoding::from_slice` to the tuple of a constructor's parameters.
#[verifier::external_body]
pub(crate) fn decode_constructor_params(bytes: &[u8]) -> (decoded: Result<
    ConstructorParams,
    fvm_ipld_encoding::Error,
>)
    ensures
        decoded matches Ok(params) ==> constructor_params_decoding(bytes@) == Some(
            (params.name@, params.symbol@, params.max_supply@, params.owner),
        ),
        decoded is Err ==> constructor_params_decoding(bytes@) is None,
{
    let (name, symbol, max_supply, owner): (String, String, BigIntDe, Address) = from_slice(bytes)?;
    let (sign, magnitude) = max_supply.0.to_bytes_be();
    let max_supply = TokenAmount { negative: matches!(sign, Sign::Minus), magnitude };
    Ok(ConstructorParams { name, symbol, max_supply, owner })
}

/// `fvm_ipld_encoding::from_slice` to the tuple of a transfer's parameters.
#[verifier::external_body]
pub(crate) fn decode_transfer_params(bytes: &[u8]) -> (decoded: Result<
    TransferParams,
    fvm_ipld_encoding::Error,
>)
    ensures
        decoded matches Ok(params) ==> transfer_params_decoding(bytes@) == Some(
            (params.recipient, params.amount@),
        ),
        decoded is Err ==> transfer_params_decoding(bytes@) is None,
{
    let (recipient, amount): (Address, BigIntDe) = from_slice(bytes)?;
    let (sign, magnitude) = amount.0.to_bytes_be();
    let amount = TokenAmount { negative: matches!(sign, Sign::Minus), magnitude };
    Ok(TransferParams { recipient, amount })
}

} // verus!
