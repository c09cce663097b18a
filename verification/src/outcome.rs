//! What each request to the ledger does, stated over the records by address.

use vstd::prelude::*;
use crate::address::{spec_delegate_address, spec_thread_address};
use crate::delegation::{
    spec_revoke_delegate, spec_set_delegate, spec_validate_delegate, DelegateAuth, RevokeDelegate,
    SetDelegate,
};
use crate::ledger::{Instruction, LedgerError, Record, Site};
use crate::principal::Principal;
use crate::thread::{MessagePosted, PostPointer, PostPointerDelegated, Thread};

verus! {

/// The address of a site where nothing lives yet.
pub open spec fn spec_vacant(records: Map<Principal, Record>, site: Site) -> Result<
    (Principal, u8),
    LedgerError,
> {
    match site {
        None => Err(LedgerError::NoAddress),
        Some((address, bump)) => if records.contains_key(address) {
            Err(LedgerError::AddressInUse)
        } else {
            Ok((address, bump))
        },
    }
}

/// The record that lives at a site.
pub open spec fn spec_load(records: Map<Principal, Record>, site: Site) -> Result<
    (Principal, Record),
    LedgerError,
> {
    match site {
        None => Err(LedgerError::NoAddress),
        Some((address, _)) => if records.contains_key(address) {
            Ok((address, records[address]))
        } else {
            Err(LedgerError::NoRecord)
        },
    }
}

/// The thread that lives at a site.
pub open spec fn spec_load_thread(records: Map<Principal, Record>, site: Site) -> Result<
    (Principal, Thread),
    LedgerError,
> {
    match spec_load(records, site) {
        Ok((address, Record::Thread(thread))) => Ok((address, thread)),
        Ok((_, Record::Delegate(_))) => Err(LedgerError::WrongKind),
        Err(e) => Err(e),
    }
}

/// The authorization that lives at a site.
pub open spec fn spec_load_delegate(records: Map<Principal, Record>, site: Site) -> Result<
    (Principal, DelegateAuth),
    LedgerError,
> {
    match spec_load(records, site) {
        Ok((address, Record::Delegate(auth))) => Ok((address, auth)),
        Ok((_, Record::Thread(_))) => Err(LedgerError::WrongKind),
        Err(e) => Err(e),
    }
}

/// The outcome of a member's request to create a thread, and the records after it.
/// The request fails if the seeds yield no address or if a record lives there already.
pub open spec fn spec_init_direct(
    records: Map<Principal, Record>,
    site: Site,
    caller: Principal,
    peer: Principal,
    now: i64,
) -> (Result<(), LedgerError>, Map<Principal, Record>) {
    match spec_vacant(records, site) {
        Err(e) => (Err(e), records),
        Ok((address, bump)) => (
            Ok(()),
            records.insert(address, Record::Thread(Thread::spec_new(bump, caller, peer, now))),
        ),
    }
}

/// The outcome of a delegate's request to create a thread for an owner, and the records
/// after it. The authorization is looked up first, then the thread's address must be
/// free, then the authorization must be valid at time `now`.
pub open spec fn spec_init_delegated(
    records: Map<Principal, Record>,
    auth_site: Site,
    thread_site: Site,
    owner: Principal,
    peer: Principal,
    delegate: Principal,
    now: i64,
) -> (Result<(), LedgerError>, Map<Principal, Record>) {
    match spec_load_delegate(records, auth_site) {
        Err(e) => (Err(e), records),
        Ok((_, auth)) => match spec_vacant(records, thread_site) {
            Err(e) => (Err(e), records),
            Ok((address, bump)) => match spec_validate_delegate(auth, owner, delegate, now) {
                Err(e) => (Err(LedgerError::Rejected(e)), records),
                Ok(()) => (
                    Ok(()),
                    records.insert(
                        address,
                        Record::Thread(Thread::spec_new(bump, owner, peer, now)),
                    ),
                ),
            },
        },
    }
}

/// The outcome of an owner's request to authorize a delegate, and the records after
/// it. The address must be free, then the expiry must lie after `now`.
pub open spec fn spec_grant(
    records: Map<Principal, Record>,
    site: Site,
    owner: Principal,
    delegate: Principal,
    expires_at: i64,
    now: i64,
) -> (Result<(), LedgerError>, Map<Principal, Record>) {
    match spec_vacant(records, site) {
        Err(e) => (Err(e), records),
        Ok((address, bump)) => match spec_set_delegate(
            SetDelegate { owner, delegate, bump },
            expires_at,
            now,
        ) {
            Err(e) => (Err(LedgerError::Rejected(e)), records),
            Ok(auth) => (Ok(()), records.insert(address, Record::Delegate(auth))),
        },
    }
}

/// The outcome of an owner's request to revoke an authorization, and the records
/// after it.
pub open spec fn spec_revoke(
    records: Map<Principal, Record>,
    site: Site,
    owner: Principal,
    delegate: Principal,
) -> (Result<(), LedgerError>, Map<Principal, Record>) {
    match spec_load_delegate(records, site) {
        Err(e) => (Err(e), records),
        Ok((address, auth)) => match spec_revoke_delegate(RevokeDelegate { owner, delegate, auth }) {
            Err(e) => (Err(LedgerError::Rejected(e)), records),
            Ok(revoked) => (Ok(()), records.insert(address, Record::Delegate(revoked))),
        },
    }
}

/// The outcome of a member's request to post, and the records after it. The thread is
/// looked up, then the post must be admitted, then the counter must have room.
pub open spec fn spec_post_direct(
    records: Map<Principal, Record>,
    site: Site,
    caller: Principal,
    peer: Principal,
    pointer32: [u8; 32],
    now: i64,
) -> (Result<MessagePosted, LedgerError>, Map<Principal, Record>) {
    match spec_load_thread(records, site) {
        Err(e) => (Err(e), records),
        Ok((address, thread)) => {
            let ctx = PostPointer { user: caller, peer, thread_key: address, thread };
            match ctx.spec_admission() {
                Err(e) => (Err(LedgerError::Rejected(e)), records),
                Ok(()) => if thread.message_count == u64::MAX {
                    (Err(LedgerError::CounterFull), records)
                } else {
                    let posted = thread.spec_posted(pointer32, now);
                    (
                        Ok(ctx.spec_notice(posted, pointer32)),
                        records.insert(address, Record::Thread(posted)),
                    )
                },
            }
        },
    }
}

/// The outcome of a delegate's request to post for an owner, and the records after it.
/// The authorization is looked up first, then the thread, then the post must be
/// admitted at time `now`, then the counter must have room.
pub open spec fn spec_post_delegated(
    records: Map<Principal, Record>,
    auth_site: Site,
    thread_site: Site,
    owner: Principal,
    peer: Principal,
    delegate: Principal,
    pointer32: [u8; 32],
    now: i64,
) -> (Result<MessagePosted, LedgerError>, Map<Principal, Record>) {
    match spec_load_delegate(records, auth_site) {
        Err(e) => (Err(e), records),
        Ok((_, auth)) => match spec_load_thread(records, thread_site) {
            Err(e) => (Err(e), records),
            Ok((address, thread)) => {
                let ctx = PostPointerDelegated {
                    owner,
                    peer,
                    delegate,
                    auth,
                    thread_key: address,
                    thread,
                };
                match ctx.spec_admission(now) {
                    Err(e) => (Err(LedgerError::Rejected(e)), records),
                    Ok(()) => if thread.message_count == u64::MAX {
                        (Err(LedgerError::CounterFull), records)
                    } else {
                        let posted = thread.spec_posted(pointer32, now);
                        (
                            Ok(ctx.spec_notice(posted, pointer32)),
                            records.insert(address, Record::Thread(posted)),
                        )
                    },
                }
            },
        },
    }
}

/// The outcome of a request that posts nothing.
pub open spec fn spec_silent(outcome: Result<(), LedgerError>) -> Result<
    Option<MessagePosted>,
    LedgerError,
> {
    match outcome {
        Ok(()) => Ok(None),
        Err(e) => Err(e),
    }
}

/// The outcome of a request that posts.
pub open spec fn spec_noticed(outcome: Result<MessagePosted, LedgerError>) -> Result<
    Option<MessagePosted>,
    LedgerError,
> {
    match outcome {
        Ok(notice) => Ok(Some(notice)),
        Err(e) => Err(e),
    }
}

/// The outcome of a request at time `now`, with the notice where it posted, and the
/// records after it. Each record that the request names is looked up at the address
/// derived for it under the program.
pub open spec fn spec_process(
    records: Map<Principal, Record>,
    program_id: Principal,
    instruction: Instruction,
    now: i64,
) -> (Result<Option<MessagePosted>, LedgerError>, Map<Principal, Record>) {
    match instruction {
        Instruction::InitThread { user, peer } => {
            let out = spec_init_direct(
                records,
                spec_thread_address(program_id, user, peer),
                user,
                peer,
                now,
            );
            (spec_silent(out.0), out.1)
        },
        Instruction::PostPointer { user, peer, pointer32 } => {
            let out = spec_post_direct(
                records,
                spec_thread_address(program_id, user, peer),
                user,
                peer,
                pointer32,
                now,
            );
            (spec_noticed(out.0), out.1)
        },
        Instruction::SetDelegate { owner, delegate, expires_at } => {
            let out = spec_grant(
                records,
                spec_delegate_address(program_id, owner, delegate),
                owner,
                delegate,
                expires_at,
                now,
            );
            (spec_silent(out.0), out.1)
        },
        Instruction::RevokeDelegate { owner, delegate } => {
            let out = spec_revoke(
                records,
                spec_delegate_address(program_id, owner, delegate),
                owner,
                delegate,
            );
            (spec_silent(out.0), out.1)
        },
        Instruction::InitThreadDelegated { owner, peer, delegate } => {
            let out = spec_init_delegated(
                records,
                spec_delegate_address(program_id, owner, delegate),
                spec_thread_address(program_id, owner, peer),
                owner,
                peer,
                delegate,
                now,
            );
            (spec_silent(out.0), out.1)
        },
        Instruction::PostPointerDelegated { owner, peer, delegate, pointer32 } => {
            let out = spec_post_delegated(
                records,
                spec_delegate_address(program_id, owner, delegate),
                spec_thread_address(program_id, owner, peer),
                owner,
                peer,
                delegate,
                pointer32,
                now,
            );
            (spec_noticed(out.0), out.1)
        },
    }
}

/// The records after a run of requests, each with the time at which it is processed.
/// A request that fails changes nothing; the run goes on.
pub open spec fn spec_run(
    records: Map<Principal, Record>,
    program_id: Principal,
    steps: Seq<(Instruction, i64)>,
) -> Map<Principal, Record>
    decreases steps.len(),
{
    if steps.len() == 0 {
        records
    } else {
        spec_process(
            spec_run(records, program_id, steps.drop_last()),
            program_id,
            steps.last().0,
            steps.last().1,
        ).1
    }
}

} // verus!
