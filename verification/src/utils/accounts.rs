use vstd::prelude::*;
use crate::utils::scaled_ui::le_u64;

verus! {

/// Whether two account addresses are the same.
pub fn key_eq(a: &[u8; 32], b: &[u8; 32]) -> (r: bool)
    ensures
        r == (*a == *b),
{
    let mut i: usize = 0;
    while i < 32
        invariant
            i <= 32,
            forall|j: int| 0 <= j < i ==> a@[j] == b@[j],
        decreases 32 - i,
    {
        if a[i] != b[i] {
            return false;
        }
        i = i + 1;
    }
    proof {
        broadcast use vstd::array::group_array_axioms;
        assert(a@ =~= b@);
        assert(*a =~= *b);
    }
    true
}

/// The address that Solana's `Pubkey::try_find_program_address` derives from `seeds` under
/// `program_id` (the first bump, from 255 down to 1, that gives an off-curve address), or `None`
/// where no bump does.
pub uninterp spec fn program_address(seeds: Seq<Seq<u8>>, program_id: [u8; 32]) -> Option<[u8; 32]>;

/// The owner and amount that anchor-spl's `TokenAccount::try_deserialize` (SPL Token's
/// `Account::unpack`) reads from token account data, or `None` where it refuses the data.
pub uninterp spec fn token_account_owner_amount(data: Seq<u8>) -> Option<([u8; 32], u64)>;

/// Calls `anchor_lang::prelude::Pubkey::try_find_program_address` on three seeds and keeps the
/// address, dropping the bump. The contract claims only that the result is the value named
/// `program_address` of the seeds and the program id.
#[verifier::external_body]
pub(crate) fn find_program_address(
    seed_a: &[u8],
    seed_b: &[u8],
    seed_c: &[u8],
    program_id: &[u8; 32],
) -> (r: Option<[u8; 32]>)
    ensures
        r == program_address(seq![seed_a@, seed_b@, seed_c@], *program_id),
{
    let program = anchor_lang::prelude::Pubkey::new_from_array(*program_id);
    match anchor_lang::prelude::Pubkey::try_find_program_address(&[seed_a, seed_b, seed_c], &program) {
        Some((address, _bump)) => Some(address.to_bytes()),
        None => None,
    }
}

/// Whether a 4-byte option tag of an SPL token account, at `at`, is one that SPL Token accepts
/// (`[0, 0, 0, 0]` for none, `[1, 0, 0, 0]` for some).
pub open spec fn coption_tag_valid(data: Seq<u8>, at: int) -> bool {
    (data[at] == 0 || data[at] == 1) && data[at + 1] == 0 && data[at + 2] == 0 && data[at + 3] == 0
}

/// Whether SPL Token's `Account::unpack` accepts the data: exactly 165 bytes, an initialized or
/// frozen state byte (offset 108), and valid option tags for the delegate (offset 72), the
/// native amount (offset 109) and the close authority (offset 129).
pub open spec fn token_account_accepted(data: Seq<u8>) -> bool {
    &&& data.len() == 165
    &&& (data[108] == 1 || data[108] == 2)
    &&& coption_tag_valid(data, 72)
    &&& coption_tag_valid(data, 109)
    &&& coption_tag_valid(data, 129)
}

/// Calls anchor-spl's `TokenAccount::try_deserialize` (SPL Token `Account::unpack`) and keeps
/// the owner and amount. The contract claims, as the SPL Token source lays the account out,
/// that the data is accepted exactly when `token_account_accepted` holds, and that an accepted
/// account gives the owner in bytes 32..64 and the little-endian amount in bytes 64..72; the
/// name `token_account_owner_amount` stands for the same result.
#[verifier::external_body]
pub(crate) fn read_token_account(data: &[u8]) -> (r: Option<([u8; 32], u64)>)
    ensures
        r == token_account_owner_amount(data@),
        r is Some <==> token_account_accepted(data@),
        r matches Some((owner, amount)) ==> {
            &&& owner@ == data@.subrange(32, 64)
            &&& amount == le_u64(data@.subrange(64, 72))
        },
{
    let mut buf: &[u8] = data;
    match <anchor_spl::token::TokenAccount as anchor_lang::AccountDeserialize>::try_deserialize(&mut buf) {
        Ok(account) => Some((account.owner.to_bytes(), account.amount)),
        Err(_) => None,
    }
}

} // verus!
