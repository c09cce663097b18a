//! The ledger: every record at its address, and the operations that create and change
//! records. A request either takes effect as a whole or leaves the ledger as it was.

use vstd::prelude::*;
use crate::address::{
    delegate_address, spec_delegate_address, spec_thread_address, thread_address,
};
use crate::delegation::{revoke_delegate, set_delegate, DelegateAuth, RevokeDelegate, SetDelegate};
use crate::error::SanctosError;
use crate::outcome::{
    spec_grant, spec_init_delegated, spec_init_direct, spec_load, spec_load_delegate,
    spec_load_thread, spec_post_delegated, spec_post_direct, spec_process, spec_revoke, spec_vacant,
};
use crate::principal::Principal;
use crate::thread::{
    init_thread, init_thread_delegated, post_pointer, post_pointer_delegated, InitThread,
    InitThreadDelegated, MessagePosted, PostPointer, PostPointerDelegated, Thread,
};

verus! {

/// What lives at an address.
#[derive(Clone, Copy, Debug, PartialEq, Eq)]
pub enum Record {
    /// A thread.
    Thread(Thread),
    /// An authorization.
    Delegate(DelegateAuth),
}

/// Why the ledger refused a request. The ledger is then as it was before.
#[derive(Clone, Copy, Debug, PartialEq, Eq)]
pub enum LedgerError {
    /// The rules of threads and delegation reject the request.
    Rejected(SanctosError),
    /// The seeds of a record that the request names yield no address.
    NoAddress,
    /// A record already lives at the address where one was to be created.
    AddressInUse,
    /// No record lives at an address that the request names.
    NoRecord,
    /// The record at an address that the request names is of the other kind.
    WrongKind,
    /// The thread's counter has no room for one more post.
    CounterFull,
}

/// A derived address with its bump seed, or nothing where the seeds yield none.
pub type Site = Option<(Principal, u8)>;

/// A request to the ledger, with the principals and values that it names.
#[derive(Clone, Copy, Debug, PartialEq, Eq)]
pub enum Instruction {
    /// `user` creates the thread between itself and `peer`.
    InitThread { user: Principal, peer: Principal },
    /// `user` posts a pointer to the thread between itself and `peer`.
    PostPointer { user: Principal, peer: Principal, pointer32: [u8; 32] },
    /// `owner` authorizes `delegate` until `expires_at`.
    SetDelegate { owner: Principal, delegate: Principal, expires_at: i64 },
    /// `owner` revokes the authorization of `delegate`.
    RevokeDelegate { owner: Principal, delegate: Principal },
    /// `delegate` creates the thread between `owner` and `peer`.
    InitThreadDelegated { owner: Principal, peer: Principal, delegate: Principal },
    /// `delegate` posts a pointer for `owner` to the thread between `owner` and `peer`.
    PostPointerDelegated {
        owner: Principal,
        peer: Principal,
        delegate: Principal,
        pointer32: [u8; 32],
    },
}

#[derive(Clone, Copy, Debug)]
struct Entry {
    address: Principal,
    record: Record,
}

/// The records of one program, each at its address.
#[derive(Debug)]
pub struct Ledger {
    program_id: Principal,
    entries: Vec<Entry>,
}

impl Ledger {
    /// No two entries share an address.
    #[verifier::type_invariant]
    spec fn distinct_addresses(self) -> bool {
        forall|i: int, j: int|
            0 <= i < j < self.entries@.len() ==> self.entries@[i].address
                != self.entries@[j].address
    }

    spec fn holds_at(self, address: Principal, i: int) -> bool {
        0 <= i < self.entries@.len() && self.entries@[i].address == address
    }

    /// The identifier of the program under which addresses are derived.
    pub closed spec fn program_id(self) -> Principal {
        self.program_id
    }

    /// The records, by address.
    pub closed spec fn records(self) -> Map<Principal, Record> {
        Map::new(
            |address: Principal| exists|i: int| self.holds_at(address, i),
            |address: Principal| self.entries@[choose|i: int| self.holds_at(address, i)].record,
        )
    }

    /// An empty ledger for the program.
    pub fn new(program_id: Principal) -> (r: Ledger)
        ensures
            r.program_id() == program_id,
            r.records() == Map::<Principal, Record>::empty(),
    {
        let r = Ledger { program_id, entries: Vec::new() };
        assert(r.records() =~= Map::<Principal, Record>::empty());
        r
    }

    /// The identifier of the program under which addresses are derived.
    pub fn program(&self) -> (r: Principal)
        ensures
            r == self.program_id(),
    {
        self.program_id
    }

    fn find(&self, address: &Principal) -> (r: Option<usize>)
        ensures
            match r {
                Some(i) => self.holds_at(*address, i as int),
                None => forall|i: int| !self.holds_at(*address, i),
            },
    {
        let mut i: usize = 0;
        while i < self.entries.len()
            invariant
                i <= self.entries@.len(),
                forall|j: int| 0 <= j < i ==> self.entries@[j].address != *address,
            decreases self.entries@.len() - i,
        {
            if self.entries[i].address == *address {
                return Some(i);
            }
            i += 1;
        }
        None
    }

    /// The record at an address, if one lives there.
    pub fn record_at(&self, address: &Principal) -> (r: Option<Record>)
        ensures
            r == if self.records().contains_key(*address) {
                Some(self.records()[*address])
            } else {
                None
            },
    {
        proof {
            use_type_invariant(self);
        }
        match self.find(address) {
            Some(i) => {
                let record = self.entries[i].record;
                proof {
                    let k = choose|k: int| self.holds_at(*address, k);
                    assert(k == i);
                }
                Some(record)
            },
            None => None,
        }
    }

    /// With one more entry at an address that none of the entries has, the records
    /// are those of before and the new one.
    proof fn lemma_records_push(before: Ledger, after: Ledger, address: Principal, record: Record)
        requires
            before.distinct_addresses(),
            !before.records().contains_key(address),
            after.entries@ == before.entries@.push(Entry { address, record }),
        ensures
            after.distinct_addresses(),
            after.records() == before.records().insert(address, record),
    {
        let n = before.entries@.len() as int;
        assert forall|i: int| !before.holds_at(address, i) by {
            if before.holds_at(address, i) {
                assert(before.records().contains_key(address));
            }
        }
        assert forall|i: int, j: int| 0 <= i < j < after.entries@.len() implies after.entries@[i].address
            != after.entries@[j].address by {
            if j == n {
                assert(!before.holds_at(address, i));
            }
        }
        assert forall|a: Principal|
            after.records().contains_key(a) == #[trigger] before.records().insert(
                address,
                record,
            ).contains_key(a) by {
            if a == address {
                assert(after.holds_at(a, n));
            } else if before.records().contains_key(a) {
                let i = choose|i: int| before.holds_at(a, i);
                assert(after.holds_at(a, i));
            } else if after.records().contains_key(a) {
                let i = choose|i: int| after.holds_at(a, i);
                assert(before.holds_at(a, i));
            }
        }
        assert forall|a: Principal| #[trigger]
            after.records().contains_key(a) implies after.records()[a] == before.records().insert(
            address,
            record,
        )[a] by {
            let i = choose|i: int| after.holds_at(a, i);
            if a == address {
                assert(after.holds_at(a, n));
                assert(i == n);
            } else {
                assert(before.holds_at(a, i));
                let j = choose|j: int| before.holds_at(a, j);
                assert(i == j);
            }
        }
        assert(after.records() =~= before.records().insert(address, record));
    }

    /// With the record of one entry replaced, the records are those of before with the
    /// new record at that entry's address.
    proof fn lemma_records_update(before: Ledger, after: Ledger, i: int, record: Record)
        requires
            before.distinct_addresses(),
            0 <= i < before.entries@.len(),
            after.entries@ == before.entries@.update(
                i,
                Entry { address: before.entries@[i].address, record },
            ),
        ensures
            after.distinct_addresses(),
            after.records() == before.records().insert(before.entries@[i].address, record),
    {
        let address = before.entries@[i].address;
        assert forall|a: Principal|
            after.records().contains_key(a) == #[trigger] before.records().insert(
                address,
                record,
            ).contains_key(a) by {
            if a == address {
                assert(after.holds_at(a, i));
            } else if before.records().contains_key(a) {
                let k = choose|k: int| before.holds_at(a, k);
                assert(after.holds_at(a, k));
            } else if after.records().contains_key(a) {
                let k = choose|k: int| after.holds_at(a, k);
                assert(before.holds_at(a, k));
            }
        }
        assert forall|a: Principal| #[trigger]
            after.records().contains_key(a) implies after.records()[a] == before.records().insert(
            address,
            record,
        )[a] by {
            let k = choose|k: int| after.holds_at(a, k);
            if a == address {
                assert(after.holds_at(a, i));
                assert(k == i);
            } else {
                assert(before.holds_at(a, k));
                let j = choose|j: int| before.holds_at(a, j);
                assert(k == j);
            }
        }
        assert(after.records() =~= before.records().insert(address, record));
    }

    /// Takes in a record that was made elsewhere, at an address where none lives yet.
    pub fn install(&mut self, address: Principal, record: Record) -> (r: Result<(), LedgerError>)
        ensures
            r == if old(self).records().contains_key(address) {
                Err::<(), LedgerError>(LedgerError::AddressInUse)
            } else {
                Ok::<(), LedgerError>(())
            },
            final(self).records() == if old(self).records().contains_key(address) {
                old(self).records()
            } else {
                old(self).records().insert(address, record)
            },
            final(self).program_id() == old(self).program_id(),
    {
        match self.record_at(&address) {
            Some(_) => Err(LedgerError::AddressInUse),
            None => {
                self.create(address, record);
                Ok(())
            },
        }
    }

    /// Puts a record at an address where none lives.
    fn create(&mut self, address: Principal, record: Record)
        requires
            !old(self).records().contains_key(address),
        ensures
            final(self).records() == old(self).records().insert(address, record),
            final(self).program_id() == old(self).program_id(),
    {
        proof {
            use_type_invariant(&*self);
        }
        let ghost before = *self;
        let mut entries: Vec<Entry> = Vec::new();
        core::mem::swap(&mut self.entries, &mut entries);
        entries.push(Entry { address, record });
        proof {
            let after = Ledger { program_id: self.program_id, entries };
            Self::lemma_records_push(before, after, address, record);
        }
        core::mem::swap(&mut self.entries, &mut entries);
    }

    /// Puts a record in place of the one that entry `i` holds.
    fn replace(&mut self, i: usize, record: Record)
        requires
            i < old(self).entries@.len(),
        ensures
            final(self).records() == old(self).records().insert(
                old(self).entries@[i as int].address,
                record,
            ),
            final(self).program_id() == old(self).program_id(),
    {
        proof {
            use_type_invariant(&*self);
        }
        let ghost before = *self;
        let mut entries: Vec<Entry> = Vec::new();
        core::mem::swap(&mut self.entries, &mut entries);
        let address = entries[i].address;
        entries[i] = Entry { address, record };
        proof {
            let after = Ledger { program_id: self.program_id, entries };
            Self::lemma_records_update(before, after, i as int, record);
        }
        core::mem::swap(&mut self.entries, &mut entries);
    }
    /// The address of a site where nothing lives yet.
    fn vacant(&self, site: Site) -> (r: Result<(Principal, u8), LedgerError>)
        ensures
            r == spec_vacant(self.records(), site),
    {
        match site {
            None => Err(LedgerError::NoAddress),
            Some((address, bump)) => match self.record_at(&address) {
                Some(_) => Err(LedgerError::AddressInUse),
                None => Ok((address, bump)),
            },
        }
    }

    /// The entry whose record lives at a site.
    fn load(&self, site: Site) -> (r: Result<(usize, Principal, Record), LedgerError>)
        ensures
            match r {
                Ok((i, address, record)) => {
                    &&& self.holds_at(address, i as int)
                    &&& spec_load(self.records(), site) == Ok::<(Principal, Record), LedgerError>(
                        (address, record),
                    )
                },
                Err(e) => spec_load(self.records(), site) == Err::<(Principal, Record), LedgerError>(
                    e,
                ),
            },
    {
        proof {
            use_type_invariant(self);
        }
        match site {
            None => Err(LedgerError::NoAddress),
            Some((address, _)) => match self.find(&address) {
                None => Err(LedgerError::NoRecord),
                Some(i) => {
                    proof {
                        let k = choose|k: int| self.holds_at(address, k);
                        assert(k == i);
                    }
                    Ok((i, address, self.entries[i].record))
                },
            },
        }
    }

    /// The entry whose thread lives at a site.
    fn load_thread(&self, site: Site) -> (r: Result<(usize, Principal, Thread), LedgerError>)
        ensures
            match r {
                Ok((i, address, thread)) => {
                    &&& self.holds_at(address, i as int)
                    &&& spec_load_thread(self.records(), site) == Ok::<
                        (Principal, Thread),
                        LedgerError,
                    >((address, thread))
                },
                Err(e) => spec_load_thread(self.records(), site) == Err::<
                    (Principal, Thread),
                    LedgerError,
                >(e),
            },
    {
        match self.load(site) {
            Err(e) => Err(e),
            Ok((i, address, Record::Thread(thread))) => Ok((i, address, thread)),
            Ok((_, _, Record::Delegate(_))) => Err(LedgerError::WrongKind),
        }
    }

    /// The entry whose authorization lives at a site.
    fn load_delegate(&self, site: Site) -> (r: Result<(usize, Principal, DelegateAuth), LedgerError>)
        ensures
            match r {
                Ok((i, address, auth)) => {
                    &&& self.holds_at(address, i as int)
                    &&& spec_load_delegate(self.records(), site) == Ok::<
                        (Principal, DelegateAuth),
                        LedgerError,
                    >((address, auth))
                },
                Err(e) => spec_load_delegate(self.records(), site) == Err::<
                    (Principal, DelegateAuth),
                    LedgerError,
                >(e),
            },
    {
        match self.load(site) {
            Err(e) => Err(e),
            Ok((i, address, Record::Delegate(auth))) => Ok((i, address, auth)),
            Ok((_, _, Record::Thread(_))) => Err(LedgerError::WrongKind),
        }
    }

    /// A member creates the thread between itself and a peer at the given site.
    pub fn init_direct_at(&mut self, site: Site, caller: Principal, peer: Principal, now: i64) -> (r:
        Result<(), LedgerError>)
        ensures
            r == spec_init_direct(old(self).records(), site, caller, peer, now).0,
            final(self).records() == spec_init_direct(
                old(self).records(),
                site,
                caller,
                peer,
                now,
            ).1,
            final(self).program_id() == old(self).program_id(),
    {
        let (address, bump) = match self.vacant(site) {
            Ok(free) => free,
            Err(e) => {
                return Err(e);
            },
        };
        let thread = init_thread(&InitThread { user: caller, peer, bump }, now);
        self.create(address, Record::Thread(thread));
        Ok(())
    }

    /// A delegate creates the thread between an owner and a peer at the given sites.
    pub fn init_delegated_at(
        &mut self,
        auth_site: Site,
        thread_site: Site,
        owner: Principal,
        peer: Principal,
        delegate: Principal,
        now: i64,
    ) -> (r: Result<(), LedgerError>)
        ensures
            r == spec_init_delegated(
                old(self).records(),
                auth_site,
                thread_site,
                owner,
                peer,
                delegate,
                now,
            ).0,
            final(self).records() == spec_init_delegated(
                old(self).records(),
                auth_site,
                thread_site,
                owner,
                peer,
                delegate,
                now,
            ).1,
            final(self).program_id() == old(self).program_id(),
    {
        let (_, _, auth) = match self.load_delegate(auth_site) {
            Ok(found) => found,
            Err(e) => {
                return Err(e);
            },
        };
        let (address, bump) = match self.vacant(thread_site) {
            Ok(free) => free,
            Err(e) => {
                return Err(e);
            },
        };
        let ctx = InitThreadDelegated { owner, peer, delegate, auth, bump };
        match init_thread_delegated(&ctx, now) {
            Err(e) => Err(LedgerError::Rejected(e)),
            Ok(thread) => {
                self.create(address, Record::Thread(thread));
                Ok(())
            },
        }
    }

    /// An owner authorizes a delegate, the authorization to live at the given site.
    pub fn grant_at(
        &mut self,
        site: Site,
        owner: Principal,
        delegate: Principal,
        expires_at: i64,
        now: i64,
    ) -> (r: Result<(), LedgerError>)
        ensures
            r == spec_grant(old(self).records(), site, owner, delegate, expires_at, now).0,
            final(self).records() == spec_grant(
                old(self).records(),
                site,
                owner,
                delegate,
                expires_at,
                now,
            ).1,
            final(self).program_id() == old(self).program_id(),
    {
        let (address, bump) = match self.vacant(site) {
            Ok(free) => free,
            Err(e) => {
                return Err(e);
            },
        };
        match set_delegate(&SetDelegate { owner, delegate, bump }, expires_at, now) {
            Err(e) => Err(LedgerError::Rejected(e)),
            Ok(auth) => {
                self.create(address, Record::Delegate(auth));
                Ok(())
            },
        }
    }

    /// An owner revokes the authorization that lives at the given site.
    pub fn revoke_at(&mut self, site: Site, owner: Principal, delegate: Principal) -> (r: Result<
        (),
        LedgerError,
    >)
        ensures
            r == spec_revoke(old(self).records(), site, owner, delegate).0,
            final(self).records() == spec_revoke(old(self).records(), site, owner, delegate).1,
            final(self).program_id() == old(self).program_id(),
    {
        let (i, _, auth) = match self.load_delegate(site) {
            Ok(found) => found,
            Err(e) => {
                return Err(e);
            },
        };
        let mut ctx = RevokeDelegate { owner, delegate, auth };
        match revoke_delegate(&mut ctx) {
            Err(e) => Err(LedgerError::Rejected(e)),
            Ok(()) => {
                self.replace(i, Record::Delegate(ctx.auth));
                Ok(())
            },
        }
    }

    /// A member posts a pointer to the thread that lives at the given site.
    pub fn post_direct_at(
        &mut self,
        site: Site,
        caller: Principal,
        peer: Principal,
        pointer32: [u8; 32],
        now: i64,
    ) -> (r: Result<MessagePosted, LedgerError>)
        ensures
            r == spec_post_direct(old(self).records(), site, caller, peer, pointer32, now).0,
            final(self).records() == spec_post_direct(
                old(self).records(),
                site,
                caller,
                peer,
                pointer32,
                now,
            ).1,
            final(self).program_id() == old(self).program_id(),
    {
        let (i, address, thread) = match self.load_thread(site) {
            Ok(found) => found,
            Err(e) => {
                return Err(e);
            },
        };
        let mut ctx = PostPointer { user: caller, peer, thread_key: address, thread };
        if thread.message_count == u64::MAX {
            return match ctx.admission() {
                Err(e) => Err(LedgerError::Rejected(e)),
                Ok(()) => Err(LedgerError::CounterFull),
            };
        }
        match post_pointer(&mut ctx, pointer32, now) {
            Err(e) => Err(LedgerError::Rejected(e)),
            Ok(notice) => {
                self.replace(i, Record::Thread(ctx.thread));
                Ok(notice)
            },
        }
    }

    /// A delegate posts a pointer for an owner to the thread that lives at the given
    /// site, under the authorization that lives at the other.
    pub fn post_delegated_at(
        &mut self,
        auth_site: Site,
        thread_site: Site,
        owner: Principal,
        peer: Principal,
        delegate: Principal,
        pointer32: [u8; 32],
        now: i64,
    ) -> (r: Result<MessagePosted, LedgerError>)
        ensures
            r == spec_post_delegated(
                old(self).records(),
                auth_site,
                thread_site,
                owner,
                peer,
                delegate,
                pointer32,
                now,
            ).0,
            final(self).records() == spec_post_delegated(
                old(self).records(),
                auth_site,
                thread_site,
                owner,
                peer,
                delegate,
                pointer32,
                now,
            ).1,
            final(self).program_id() == old(self).program_id(),
    {
        let (_, _, auth) = match self.load_delegate(auth_site) {
            Ok(found) => found,
            Err(e) => {
                return Err(e);
            },
        };
        let (i, address, thread) = match self.load_thread(thread_site) {
            Ok(found) => found,
            Err(e) => {
                return Err(e);
            },
        };
        let mut ctx = PostPointerDelegated {
            owner,
            peer,
            delegate,
            auth,
            thread_key: address,
            thread,
        };
        if thread.message_count == u64::MAX {
            return match ctx.admission(now) {
                Err(e) => Err(LedgerError::Rejected(e)),
                Ok(()) => Err(LedgerError::CounterFull),
            };
        }
        match post_pointer_delegated(&mut ctx, pointer32, now) {
            Err(e) => Err(LedgerError::Rejected(e)),
            Ok(notice) => {
                self.replace(i, Record::Thread(ctx.thread));
                Ok(notice)
            },
        }
    }
    /// A member creates the thread between itself and a peer.
    pub fn init_direct(&mut self, caller: Principal, peer: Principal, now: i64) -> (r: Result<
        (),
        LedgerError,
    >)
        ensures
            r == spec_init_direct(
                old(self).records(),
                spec_thread_address(old(self).program_id(), caller, peer),
                caller,
                peer,
                now,
            ).0,
            final(self).records() == spec_init_direct(
                old(self).records(),
                spec_thread_address(old(self).program_id(), caller, peer),
                caller,
                peer,
                now,
            ).1,
            final(self).program_id() == old(self).program_id(),
    {
        let site = thread_address(&self.program_id, &caller, &peer);
        self.init_direct_at(site, caller, peer, now)
    }

    /// A delegate creates the thread between an owner and a peer.
    pub fn init_delegated(
        &mut self,
        owner: Principal,
        peer: Principal,
        delegate: Principal,
        now: i64,
    ) -> (r: Result<(), LedgerError>)
        ensures
            r == spec_init_delegated(
                old(self).records(),
                spec_delegate_address(old(self).program_id(), owner, delegate),
                spec_thread_address(old(self).program_id(), owner, peer),
                owner,
                peer,
                delegate,
                now,
            ).0,
            final(self).records() == spec_init_delegated(
                old(self).records(),
                spec_delegate_address(old(self).program_id(), owner, delegate),
                spec_thread_address(old(self).program_id(), owner, peer),
                owner,
                peer,
                delegate,
                now,
            ).1,
            final(self).program_id() == old(self).program_id(),
    {
        let auth_site = delegate_address(&self.program_id, &owner, &delegate);
        let thread_site = thread_address(&self.program_id, &owner, &peer);
        self.init_delegated_at(auth_site, thread_site, owner, peer, delegate, now)
    }

    /// An owner authorizes a delegate until `expires_at`.
    pub fn grant(&mut self, owner: Principal, delegate: Principal, expires_at: i64, now: i64) -> (r:
        Result<(), LedgerError>)
        ensures
            r == spec_grant(
                old(self).records(),
                spec_delegate_address(old(self).program_id(), owner, delegate),
                owner,
                delegate,
                expires_at,
                now,
            ).0,
            final(self).records() == spec_grant(
                old(self).records(),
                spec_delegate_address(old(self).program_id(), owner, delegate),
                owner,
                delegate,
                expires_at,
                now,
            ).1,
            final(self).program_id() == old(self).program_id(),
    {
        let site = delegate_address(&self.program_id, &owner, &delegate);
        self.grant_at(site, owner, delegate, expires_at, now)
    }

    /// An owner revokes the authorization of a delegate.
    pub fn revoke(&mut self, owner: Principal, delegate: Principal) -> (r: Result<(), LedgerError>)
        ensures
            r == spec_revoke(
                old(self).records(),
                spec_delegate_address(old(self).program_id(), owner, delegate),
                owner,
                delegate,
            ).0,
            final(self).records() == spec_revoke(
                old(self).records(),
                spec_delegate_address(old(self).program_id(), owner, delegate),
                owner,
                delegate,
            ).1,
            final(self).program_id() == old(self).program_id(),
    {
        let site = delegate_address(&self.program_id, &owner, &delegate);
        self.revoke_at(site, owner, delegate)
    }

    /// A member posts a pointer to the thread between itself and a peer.
    pub fn post_direct(
        &mut self,
        caller: Principal,
        peer: Principal,
        pointer32: [u8; 32],
        now: i64,
    ) -> (r: Result<MessagePosted, LedgerError>)
        ensures
            r == spec_post_direct(
                old(self).records(),
                spec_thread_address(old(self).program_id(), caller, peer),
                caller,
                peer,
                pointer32,
                now,
            ).0,
            final(self).records() == spec_post_direct(
                old(self).records(),
                spec_thread_address(old(self).program_id(), caller, peer),
                caller,
                peer,
                pointer32,
                now,
            ).1,
            final(self).program_id() == old(self).program_id(),
    {
        let site = thread_address(&self.program_id, &caller, &peer);
        self.post_direct_at(site, caller, peer, pointer32, now)
    }

    /// A delegate posts a pointer for an owner to the thread between the owner and a
    /// peer.
    pub fn post_delegated(
        &mut self,
        owner: Principal,
        peer: Principal,
        delegate: Principal,
        pointer32: [u8; 32],
        now: i64,
    ) -> (r: Result<MessagePosted, LedgerError>)
        ensures
            r == spec_post_delegated(
                old(self).records(),
                spec_delegate_address(old(self).program_id(), owner, delegate),
                spec_thread_address(old(self).program_id(), owner, peer),
                owner,
                peer,
                delegate,
                pointer32,
                now,
            ).0,
            final(self).records() == spec_post_delegated(
                old(self).records(),
                spec_delegate_address(old(self).program_id(), owner, delegate),
                spec_thread_address(old(self).program_id(), owner, peer),
                owner,
                peer,
                delegate,
                pointer32,
                now,
            ).1,
            final(self).program_id() == old(self).program_id(),
    {
        let auth_site = delegate_address(&self.program_id, &owner, &delegate);
        let thread_site = thread_address(&self.program_id, &owner, &peer);
        self.post_delegated_at(auth_site, thread_site, owner, peer, delegate, pointer32, now)
    }

    /// Processes one request at time `now`. A request that posts returns its notice.
    pub fn process(&mut self, instruction: &Instruction, now: i64) -> (r: Result<
        Option<MessagePosted>,
        LedgerError,
    >)
        ensures
            r == spec_process(old(self).records(), old(self).program_id(), *instruction, now).0,
            final(self).records() == spec_process(
                old(self).records(),
                old(self).program_id(),
                *instruction,
                now,
            ).1,
            final(self).program_id() == old(self).program_id(),
    {
        match *instruction {
            Instruction::InitThread { user, peer } => match self.init_direct(user, peer, now) {
                Ok(()) => Ok(None),
                Err(e) => Err(e),
            },
            Instruction::PostPointer { user, peer, pointer32 } => match self.post_direct(
                user,
                peer,
                pointer32,
                now,
            ) {
                Ok(notice) => Ok(Some(notice)),
                Err(e) => Err(e),
            },
            Instruction::SetDelegate { owner, delegate, expires_at } => match self.grant(
                owner,
                delegate,
                expires_at,
                now,
            ) {
                Ok(()) => Ok(None),
                Err(e) => Err(e),
            },
            Instruction::RevokeDelegate { owner, delegate } => match self.revoke(owner, delegate) {
                Ok(()) => Ok(None),
                Err(e) => Err(e),
            },
            Instruction::InitThreadDelegated { owner, peer, delegate } => match self.init_delegated(
                owner,
                peer,
                delegate,
                now,
            ) {
                Ok(()) => Ok(None),
                Err(e) => Err(e),
            },
            Instruction::PostPointerDelegated {
                owner,
                peer,
                delegate,
                pointer32,
            } => match self.post_delegated(owner, peer, delegate, pointer32, now) {
                Ok(notice) => Ok(Some(notice)),
                Err(e) => Err(e),
            },
        }
    }
}

} // verus!
