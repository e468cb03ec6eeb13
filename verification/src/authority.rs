use vstd::prelude::*;

verus! {

/// What the host ledger's derivation computes from a list of seeds and a
/// program id: the derived address and bump seed, or `None` when the seeds
/// are too many, too long, or yield no valid address. The full definition is
/// a trial-and-error search over cryptographic hashes; the library relies
/// only on the whole outcome, `None` included, being a function of the seeds
/// and the program id alone.
pub uninterp spec fn pda_of(seeds: Seq<Seq<u8>>, program_id: Seq<u8>) -> Option<(Seq<u8>, u8)>;

/// Relies on `solana_program::pubkey::Pubkey::try_find_program_address`: the
/// outcome of the search, found address and bump seed or `None`, depends on
/// the seeds and the program id alone, and the search returns `None` instead
/// of panicking when the seeds are too many, too long, or yield no valid
/// address.
#[verifier::external_body]
fn try_find_pda(seeds: &Vec<Vec<u8>>, program_id: &[u8; 32]) -> (r: Option<([u8; 32], u8)>)
    ensures
        r matches Some(p) ==> pda_of(seeds@.map_values(|s: Vec<u8>| s@), program_id@) == Some(
            (p.0@, p.1),
        ),
        r is None ==> pda_of(seeds@.map_values(|s: Vec<u8>| s@), program_id@) is None,
{
    let seed_slices: Vec<&[u8]> = seeds.iter().map(|s| s.as_slice()).collect();
    let program = solana_program::pubkey::Pubkey::new_from_array(*program_id);
    solana_program::pubkey::Pubkey::try_find_program_address(&seed_slices, &program)
        .map(|(address, bump)| (address.to_bytes(), bump))
}

/// Domain seed of the pool-wide authority: the bytes of `"stake_pool"`.
pub open spec fn stake_pool_seed() -> Seq<u8> {
    seq![115u8, 116u8, 97u8, 107u8, 101u8, 95u8, 112u8, 111u8, 111u8, 108u8]
}

/// Domain seed of a participant's record address: the bytes of `"stake_info"`.
pub open spec fn stake_info_seed() -> Seq<u8> {
    seq![115u8, 116u8, 97u8, 107u8, 101u8, 95u8, 105u8, 110u8, 102u8, 111u8]
}

/// Domain seed of a participant's vault authority: the bytes of `"token"`.
pub open spec fn token_account_seed() -> Seq<u8> {
    seq![116u8, 111u8, 107u8, 101u8, 110u8]
}

fn stake_pool_seed_bytes() -> (r: Vec<u8>)
    ensures
        r@ == stake_pool_seed(),
{
    let v = vec![115u8, 116u8, 97u8, 107u8, 101u8, 95u8, 112u8, 111u8, 111u8, 108u8];
    proof {
        assert(v@ =~= stake_pool_seed());
    }
    v
}

fn stake_info_seed_bytes() -> (r: Vec<u8>)
    ensures
        r@ == stake_info_seed(),
{
    let v = vec![115u8, 116u8, 97u8, 107u8, 101u8, 95u8, 105u8, 110u8, 102u8, 111u8];
    proof {
        assert(v@ =~= stake_info_seed());
    }
    v
}

fn token_account_seed_bytes() -> (r: Vec<u8>)
    ensures
        r@ == token_account_seed(),
{
    let v = vec![116u8, 111u8, 107u8, 101u8, 110u8];
    proof {
        assert(v@ =~= token_account_seed());
    }
    v
}

/// The identity that authorizes `destake`'s reward transfer out of the pool
/// escrow: derived from the fixed pool-wide seed alone, so it is the same
/// for every participant. `None` when the derivation yields no valid
/// identity; a ledger can then execute no such transfer.
pub open spec fn reward_transfer_authority(program_id: Seq<u8>) -> Option<(Seq<u8>, u8)> {
    pda_of(seq![stake_pool_seed()], program_id)
}

/// The identity that authorizes `destake`'s principal transfer out of one
/// participant's vault: derived from the vault domain seed together with
/// that participant's identity.
pub open spec fn principal_transfer_authority(
    program_id: Seq<u8>,
    participant: Seq<u8>,
) -> Option<(Seq<u8>, u8)> {
    pda_of(seq![token_account_seed(), participant], program_id)
}

/// The derived key under which one participant's staking record is stored.
pub open spec fn stake_record_key(program_id: Seq<u8>, participant: Seq<u8>) -> Option<
    (Seq<u8>, u8),
> {
    pda_of(seq![stake_info_seed(), participant], program_id)
}

/// Identity controlling the stake pool's escrow, the authority of the
/// reward transfer: derived from the fixed pool-wide domain seed alone. No
/// secret key exists for it; the ledger recognizes it as self-authorizing
/// when the same seeds are supplied at transfer time.
pub fn pool_authority(program_id: &[u8; 32]) -> (r: Option<([u8; 32], u8)>)
    ensures
        r matches Some(a) ==> reward_transfer_authority(program_id@) == Some((a.0@, a.1)),
        r is None ==> reward_transfer_authority(program_id@) is None,
{
    let mut seeds: Vec<Vec<u8>> = Vec::new();
    seeds.push(stake_pool_seed_bytes());
    let r = try_find_pda(&seeds, program_id);
    proof {
        assert(seeds@.map_values(|s: Vec<u8>| s@) =~= seq![stake_pool_seed()]);
    }
    r
}

/// Identity controlling one participant's vault, the authority of that
/// participant's principal transfer: derived from the vault domain seed
/// together with the participant's identity.
pub fn vault_authority(program_id: &[u8; 32], participant: &[u8; 32]) -> (r: Option<
    ([u8; 32], u8),
>)
    ensures
        r matches Some(a) ==> principal_transfer_authority(program_id@, participant@) == Some(
            (a.0@, a.1),
        ),
        r is None ==> principal_transfer_authority(program_id@, participant@) is None,
{
    let mut seeds: Vec<Vec<u8>> = Vec::new();
    seeds.push(token_account_seed_bytes());
    let mut id: Vec<u8> = Vec::new();
    id.extend_from_slice(participant);
    proof {
        assert(id@ =~= participant@);
    }
    seeds.push(id);
    let r = try_find_pda(&seeds, program_id);
    proof {
        assert(seeds@.map_values(|s: Vec<u8>| s@) =~= seq![token_account_seed(), participant@]);
    }
    r
}

/// Derived key under which one participant's staking record is stored.
pub fn stake_info_address(program_id: &[u8; 32], participant: &[u8; 32]) -> (r: Option<
    ([u8; 32], u8),
>)
    ensures
        r matches Some(a) ==> stake_record_key(program_id@, participant@) == Some((a.0@, a.1)),
        r is None ==> stake_record_key(program_id@, participant@) is None,
{
    let mut seeds: Vec<Vec<u8>> = Vec::new();
    seeds.push(stake_info_seed_bytes());
    let mut id: Vec<u8> = Vec::new();
    id.extend_from_slice(participant);
    proof {
        assert(id@ =~= participant@);
    }
    seeds.push(id);
    let r = try_find_pda(&seeds, program_id);
    proof {
        assert(seeds@.map_values(|s: Vec<u8>| s@) =~= seq![stake_info_seed(), participant@]);
    }
    r
}

} // verus!
