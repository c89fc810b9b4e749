//! The allow list: publishing the root that admits assets, and replacing
//! it.

use vstd::prelude::*;
use crate::accounts::{InitializeMerkle, UpdateMerkle};
use crate::error::{follows, StakeError};
use crate::state::Merkle;

verus! {

/// Publishing the first root: refused exactly when a root was published
/// before; else the root is stored and the caller becomes the
/// administrator.
pub open spec fn initialize_merkle_spec(ctx: InitializeMerkle, root: [u8; 32]) -> Result<
    InitializeMerkle,
    StakeError,
> {
    if ctx.merkle.is_init {
        Err(StakeError::AccountAlreadyInitialized)
    } else {
        Ok(
            InitializeMerkle {
                merkle: Merkle { root: root, admin_account: ctx.admin_account, is_init: true },
                ..ctx
            },
        )
    }
}

/// Publishes the first allow-list root and records the caller as the
/// administrator.
pub fn process_initialize_merkle(ctx: &mut InitializeMerkle, root: [u8; 32]) -> (result: Result<
    (),
    StakeError,
>)
    ensures
        follows(initialize_merkle_spec(*old(ctx), root), *old(ctx), *final(ctx), result),
{
    if ctx.merkle.is_init {
        return Err(StakeError::AccountAlreadyInitialized);
    }
    ctx.merkle.root = root;
    ctx.merkle.is_init = true;
    ctx.merkle.admin_account = ctx.admin_account;
    Ok(())
}

/// Replacing the root: refused unless the caller is the recorded
/// administrator, and unless a root was published before; else only the
/// root changes.
pub open spec fn update_merkle_spec(ctx: UpdateMerkle, root: [u8; 32]) -> Result<
    UpdateMerkle,
    StakeError,
> {
    if ctx.merkle.admin_account != ctx.admin_account {
        Err(StakeError::Unauthorized)
    } else if !ctx.merkle.is_init {
        Err(StakeError::UninitializedAccount)
    } else {
        Ok(UpdateMerkle { merkle: Merkle { root: root, ..ctx.merkle }, ..ctx })
    }
}

/// Replaces the allow-list root.
pub fn update_merkle(ctx: &mut UpdateMerkle, root: [u8; 32]) -> (result: Result<(), StakeError>)
    ensures
        follows(update_merkle_spec(*old(ctx), root), *old(ctx), *final(ctx), result),
{
    if ctx.merkle.admin_account != ctx.admin_account {
        return Err(StakeError::Unauthorized);
    }
    if !ctx.merkle.is_init {
        return Err(StakeError::UninitializedAccount);
    }
    ctx.merkle.root = root;
    Ok(())
}

} // verus!
