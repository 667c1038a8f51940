//! Register a publisher.

use vstd::prelude::*;
use crate::errors::SamizdatError;
use crate::state::account::{Account, Signer};
use crate::state::publisher_account::PublisherAccount;
use crate::state::shared::PublisherStatus;

verus! {

/// The bump seed of the record that a registration writes.
#[derive(Clone, Copy, Debug, PartialEq, Eq)]
pub struct RegisterPublisherBumps {
    pub publisher_account: u8,
}

/// The records the registration of a publisher touches.
#[derive(Clone, Debug, PartialEq, Eq)]
pub struct RegisterPublisher {
    /// The slot that receives the new publisher.
    pub publisher_account: Account<PublisherAccount>,
    /// The caller, who will control the publisher.
    pub authority: Signer,
    pub bumps: RegisterPublisherBumps,
}

/// The records after the registration at `now`: the slot holds an active
/// publisher of the caller, with nothing counted yet.
pub open spec fn register_publisher_effect(ctx: RegisterPublisher, now: i64) -> RegisterPublisher {
    RegisterPublisher {
        publisher_account: Account {
            data: PublisherAccount {
                authority: ctx.authority.key,
                total_campaigns: 0,
                total_spent: 0,
                registered_at: now,
                status: PublisherStatus::Active,
                bump: ctx.bumps.publisher_account,
            },
            ..ctx.publisher_account
        },
        ..ctx
    }
}

/// Registers the caller as a publisher at the time `now`. It never fails.
pub fn process_register_publisher(ctx: &mut RegisterPublisher, now: i64) -> (result: Result<
    (),
    SamizdatError,
>)
    ensures
        result is Ok,
        *final(ctx) == register_publisher_effect(*old(ctx), now),
{
    ctx.publisher_account.data = PublisherAccount {
        authority: ctx.authority.key,
        total_campaigns: 0,
        total_spent: 0,
        registered_at: now,
        status: PublisherStatus::Active,
        bump: ctx.bumps.publisher_account,
    };
    Ok(())
}

} // verus!
