use vstd::prelude::*;

use anchor_lang::solana_program::clock::Clock;
use anchor_lang::solana_program::program_error::ProgramError;
use anchor_lang::solana_program::pubkey::Pubkey;
use anchor_lang::solana_program::sysvar::Sysvar;

verus! {

#[verifier::external_type_specification]
#[verifier::external_body]
pub struct ExProgramError(ProgramError);

/// Reads the host clock.
///
/// Relies on `Clock::get` of the clock sysvar, which yields the host's Unix
/// time or the host's error. Nothing is promised of the time itself.
#[verifier::external_body]
pub(crate) fn host_unix_timestamp() -> (r: Result<i64, ProgramError>) {
    Clock::get().map(|clock| clock.unix_timestamp)
}

/// The program-derived address (and its bump seed) that the host computes
/// from `seeds` under the program `program_id`, if there is one.
pub uninterp spec fn program_address(seeds: Seq<Seq<u8>>, program_id: Seq<u8>) -> Option<
    (Seq<u8>, u8),
>;

/// Whether `seeds` break the host's limits on program-derived addresses:
/// at most 15 seeds besides the bump seed, each at most 32 bytes long.
pub open spec fn seeds_over_limits(seeds: Seq<Seq<u8>>) -> bool {
    seeds.len() >= 16 || exists|i: int| 0 <= i < seeds.len() && (#[trigger] seeds[i]).len() > 32
}

/// Derives a program address from `seeds`.
///
/// Relies on `Pubkey::try_find_program_address`: the result depends on the
/// seeds and the program alone, and is `None` when the seeds break the
/// limits that `Pubkey::create_program_address` enforces.
#[verifier::external_body]
pub(crate) fn try_find_program_address(seeds: &Vec<Vec<u8>>, program_id: &[u8; 32]) -> (r: Option<
    ([u8; 32], u8),
>)
    ensures
        match r {
            Some((key, bump)) => program_address(seeds.deep_view(), program_id@) == Some(
                (key@, bump),
            ),
            None => program_address(seeds.deep_view(), program_id@) is None,
        },
        seeds_over_limits(seeds.deep_view()) ==> r is None,
{
    let slices: Vec<&[u8]> = seeds.iter().map(|seed| seed.as_slice()).collect();
    let program = Pubkey::new_from_array(*program_id);
    Pubkey::try_find_program_address(&slices, &program).map(|(key, bump)| (key.to_bytes(), bump))
}

} // verus!
