//! Closing an account whose layout has changed.
use vstd::prelude::*;
use crate::key::{Pubkey, is_zero_key, system_program_id};

verus! {

/// What closing reads and writes of an account.
#[derive(Clone, Copy, Debug, PartialEq, Eq)]
pub struct AccountState {
    pub key: Pubkey,
    pub lamports: u64,
    pub owner: Pubkey,
    pub data_len: usize,
}

/// Closes `info`, whatever its layout: its lamports go to `sol_destination`,
/// it is handed to the system program and its data is cut to nothing.
///
/// The destination's balance must not overflow (the close panics there).
/// The two accounts are distinct, as two `&mut` borrows are.
pub fn close(info: &mut AccountState, sol_destination: &mut AccountState)
    requires
        old(sol_destination).lamports + old(info).lamports <= u64::MAX,
    ensures
        final(sol_destination).lamports == old(sol_destination).lamports + old(info).lamports,
        final(info).lamports + final(sol_destination).lamports == old(info).lamports + old(
            sol_destination,
        ).lamports,
        final(sol_destination).key == old(sol_destination).key,
        final(sol_destination).owner == old(sol_destination).owner,
        final(sol_destination).data_len == old(sol_destination).data_len,
        final(info).key == old(info).key,
        final(info).lamports == 0,
        is_zero_key(final(info).owner@),
        final(info).data_len == 0,
{
    let dest_starting_lamports = sol_destination.lamports;
    sol_destination.lamports = dest_starting_lamports + info.lamports;
    info.lamports = 0;
    info.owner = system_program_id();
    info.data_len = 0;
}

} // verus!
