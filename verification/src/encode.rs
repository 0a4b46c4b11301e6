use vstd::prelude::*;

verus! {

/// Names the bytes that `cosmwasm_std::to_binary` gives for the cw721
/// message `TransferNft { recipient, token_id }`.
pub uninterp spec fn transfer_nft_encoding(recipient: Seq<char>, token_id: Seq<char>) -> Seq<u8>;

/// Encodes `cw721::Cw721ExecuteMsg::TransferNft { recipient, token_id }`
/// with `cosmwasm_std::to_binary`. Trusted: the call succeeds (the JSON
/// serializer of `serde-json-wasm` has no error path for strings and struct
/// variants), and the bytes are what `transfer_nft_encoding` names for the
/// two strings.
#[verifier::external_body]
pub(crate) fn encode_transfer_nft(recipient: &String, token_id: &String) -> (r: Result<
    Vec<u8>,
    cosmwasm_std::StdError,
>)
    ensures
        r is Ok,
        r matches Ok(b) ==> transfer_nft_encoding(recipient@, token_id@) == b@,
{
    let msg = cw721::Cw721ExecuteMsg::TransferNft {
        recipient: recipient.clone(),
        token_id: token_id.clone(),
    };
    cosmwasm_std::to_binary(&msg).map(|b| b.0)
}

} // verus!
