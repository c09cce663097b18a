//! What holds of the ledger over any run of requests.

use vstd::prelude::*;
use crate::address::{
    lemma_thread_address_symmetric, spec_delegate_address, spec_thread_address,
};
use crate::ledger::{Instruction, LedgerError, Record};
use crate::outcome::{spec_process, spec_run};
use crate::principal::{
    lemma_sort_pair_canonical, lemma_sort_pair_symmetric, lex_le, Principal,
};
use crate::thread::{MessagePosted, Thread};

verus! {

/// What a record owes the record that lived at its address before: it is of the same
/// kind; a thread has the same members, creator, bump seed and creation time, a count
/// that is not lower, and stays closed once closed; an authorization has the same
/// owner, delegate, bump seed and expiry, and stays revoked once revoked.
pub open spec fn record_kept(before: Record, after: Record) -> bool {
    match (before, after) {
        (Record::Thread(t), Record::Thread(u)) => {
            &&& u.members == t.members
            &&& u.creator == t.creator
            &&& u.bump == t.bump
            &&& u.created_at == t.created_at
            &&& u.message_count >= t.message_count
            &&& t.closed ==> u.closed
        },
        (Record::Delegate(d), Record::Delegate(e)) => {
            &&& e.owner == d.owner
            &&& e.delegate == d.delegate
            &&& e.bump == d.bump
            &&& e.expires_at == d.expires_at
            &&& d.revoked ==> e.revoked
        },
        _ => false,
    }
}

/// No record was removed, and each is kept in the sense of `record_kept`.
pub open spec fn records_kept(
    before: Map<Principal, Record>,
    after: Map<Principal, Record>,
) -> bool {
    forall|address: Principal| #[trigger]
        before.contains_key(address) ==> after.contains_key(address) && record_kept(
            before[address],
            after[address],
        )
}

/// A request that fails leaves the records as they were. A request that succeeds
/// removes no record, lowers no thread's count, reorders no thread's members and
/// clears no revocation.
pub proof fn lemma_process_keeps_records(
    records: Map<Principal, Record>,
    program_id: Principal,
    instruction: Instruction,
    now: i64,
)
    ensures
        spec_process(records, program_id, instruction, now).0 is Err ==> spec_process(
            records,
            program_id,
            instruction,
            now,
        ).1 == records,
        records_kept(records, spec_process(records, program_id, instruction, now).1),
{
}

/// Over any run of requests no record is removed, no thread's count falls, no thread's
/// members change and no revocation is cleared.
pub proof fn lemma_run_keeps_records(
    records: Map<Principal, Record>,
    program_id: Principal,
    steps: Seq<(Instruction, i64)>,
)
    ensures
        records_kept(records, spec_run(records, program_id, steps)),
    decreases steps.len(),
{
    if steps.len() > 0 {
        let earlier = spec_run(records, program_id, steps.drop_last());
        lemma_run_keeps_records(records, program_id, steps.drop_last());
        lemma_process_keeps_records(earlier, program_id, steps.last().0, steps.last().1);
    }
}

/// A thread that was created, by a member or by a delegate, lives at the one address
/// of its pair of members, which is the same whichever member is named first; it
/// holds the two in canonical order and names the owner as creator.
pub proof fn lemma_created_thread_lives_at_pair_address(
    records: Map<Principal, Record>,
    program_id: Principal,
    instruction: Instruction,
    now: i64,
)
    requires
        instruction is InitThread || instruction is InitThreadDelegated,
        spec_process(records, program_id, instruction, now).0 is Ok,
    ensures
        ({
            let (owner, peer) = match instruction {
                Instruction::InitThread { user, peer } => (user, peer),
                Instruction::InitThreadDelegated { owner, peer, .. } => (owner, peer),
                _ => arbitrary(),
            };
            let site = spec_thread_address(program_id, owner, peer);
            let after = spec_process(records, program_id, instruction, now).1;
            &&& spec_thread_address(program_id, peer, owner) == site
            &&& site matches Some((address, bump))
            &&& !records.contains_key(address)
            &&& after == records.insert(
                address,
                Record::Thread(Thread::spec_new(bump, owner, peer, now)),
            )
            &&& Thread::spec_new(bump, owner, peer, now).members == Thread::spec_new(
                bump,
                peer,
                owner,
                now,
            ).members
            &&& lex_le(
                Thread::spec_new(bump, owner, peer, now).members[0]@,
                Thread::spec_new(bump, owner, peer, now).members[1]@,
            )
            &&& Thread::spec_new(bump, owner, peer, now).creator == owner
        }),
{
    match instruction {
        Instruction::InitThread { user, peer } => {
            lemma_thread_address_symmetric(program_id, user, peer);
            lemma_sort_pair_symmetric(user, peer);
            lemma_sort_pair_canonical(user, peer);
        },
        Instruction::InitThreadDelegated { owner, peer, .. } => {
            lemma_thread_address_symmetric(program_id, owner, peer);
            lemma_sort_pair_symmetric(owner, peer);
            lemma_sort_pair_canonical(owner, peer);
        },
        _ => {},
    }
}

/// There is one thread for each unordered pair: once a record lives at the address of
/// the pair, then after any run of requests a request to create the thread of the pair
/// fails and changes nothing, whichever member is named first and whether a member or
/// a delegate asks.
pub proof fn lemma_thread_created_once(
    records: Map<Principal, Record>,
    program_id: Principal,
    a: Principal,
    b: Principal,
    delegate: Principal,
    steps: Seq<(Instruction, i64)>,
    now: i64,
)
    requires
        spec_thread_address(program_id, a, b) matches Some((address, _)) && records.contains_key(
            address,
        ),
    ensures
        ({
            let later = spec_run(records, program_id, steps);
            &&& spec_process(later, program_id, Instruction::InitThread { user: a, peer: b }, now)
                == (Err::<Option<MessagePosted>, LedgerError>(LedgerError::AddressInUse), later)
            &&& spec_process(later, program_id, Instruction::InitThread { user: b, peer: a }, now)
                == (Err::<Option<MessagePosted>, LedgerError>(LedgerError::AddressInUse), later)
            &&& spec_process(
                later,
                program_id,
                Instruction::InitThreadDelegated { owner: a, peer: b, delegate },
                now,
            ).0 is Err
            &&& spec_process(
                later,
                program_id,
                Instruction::InitThreadDelegated { owner: a, peer: b, delegate },
                now,
            ).1 == later
            &&& spec_process(
                later,
                program_id,
                Instruction::InitThreadDelegated { owner: b, peer: a, delegate },
                now,
            ).0 is Err
            &&& spec_process(
                later,
                program_id,
                Instruction::InitThreadDelegated { owner: b, peer: a, delegate },
                now,
            ).1 == later
        }),
{
    lemma_thread_address_symmetric(program_id, a, b);
    lemma_run_keeps_records(records, program_id, steps);
    let later = spec_run(records, program_id, steps);
    let site = spec_thread_address(program_id, a, b);
    if let Some((address, _)) = site {
        assert(records.contains_key(address));
        assert(later.contains_key(address));
    }
}

/// A post that succeeds raises the count of the thread at the pair's address by
/// exactly one, leaves the posted pointer as the last one there, and gives the new
/// count as the index of its notice.
pub proof fn lemma_post_raises_count(
    records: Map<Principal, Record>,
    program_id: Principal,
    instruction: Instruction,
    now: i64,
)
    requires
        instruction is PostPointer || instruction is PostPointerDelegated,
        spec_process(records, program_id, instruction, now).0 is Ok,
    ensures
        ({
            let (owner, peer, pointer32) = match instruction {
                Instruction::PostPointer { user, peer, pointer32 } => (user, peer, pointer32),
                Instruction::PostPointerDelegated { owner, peer, pointer32, .. } => (
                    owner,
                    peer,
                    pointer32,
                ),
                _ => arbitrary(),
            };
            let site = spec_thread_address(program_id, owner, peer);
            let after = spec_process(records, program_id, instruction, now).1;
            let outcome = spec_process(records, program_id, instruction, now).0;
            &&& site matches Some((address, _))
            &&& records.contains_key(address)
            &&& records[address] matches Record::Thread(before)
            &&& after == records.insert(address, Record::Thread(before.spec_posted(pointer32, now)))
            &&& before.spec_posted(pointer32, now).message_count == before.message_count + 1
            &&& before.spec_posted(pointer32, now).last_pointer == pointer32
            &&& outcome matches Ok(Some(notice))
            &&& notice.index == before.message_count + 1
            &&& notice.sender == owner
        }),
{
}

/// Once an authorization is revoked, then after any run of requests no post by its
/// delegate for its owner succeeds, at whatever time; the ledger stays as it is.
pub proof fn lemma_no_post_after_revoke(
    records: Map<Principal, Record>,
    program_id: Principal,
    owner: Principal,
    delegate: Principal,
    peer: Principal,
    pointer32: [u8; 32],
    revoked_at: i64,
    steps: Seq<(Instruction, i64)>,
    now: i64,
)
    requires
        spec_process(
            records,
            program_id,
            Instruction::RevokeDelegate { owner, delegate },
            revoked_at,
        ).0 is Ok,
    ensures
        ({
            let revoked = spec_process(
                records,
                program_id,
                Instruction::RevokeDelegate { owner, delegate },
                revoked_at,
            ).1;
            let later = spec_run(revoked, program_id, steps);
            let post = Instruction::PostPointerDelegated { owner, peer, delegate, pointer32 };
            &&& spec_process(later, program_id, post, now).0 is Err
            &&& spec_process(later, program_id, post, now).1 == later
        }),
{
    let revoked = spec_process(
        records,
        program_id,
        Instruction::RevokeDelegate { owner, delegate },
        revoked_at,
    ).1;
    lemma_run_keeps_records(revoked, program_id, steps);
    let later = spec_run(revoked, program_id, steps);
    let site = spec_delegate_address(program_id, owner, delegate);
    if let Some((address, _)) = site {
        assert(revoked.contains_key(address));
        assert(later.contains_key(address));
    }
}

} // verus!
