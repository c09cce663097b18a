//! Threads: one record for each unordered pair of principals, and the posting of pointers
//! to it by a member or by a member's delegate.

use vstd::prelude::*;
use crate::delegation::{
    spec_revoke_delegate, spec_validate_delegate, validate_delegate, DelegateAuth, RevokeDelegate,
};
use crate::error::SanctosError;
use crate::principal::{
    lemma_sort_pair_canonical, sort_pair, spec_sort_pair, zero_bytes, Principal,
};

verus! {

/// The record of one conversation between two principals.
#[derive(Clone, Copy, Debug, PartialEq, Eq)]
pub struct Thread {
    /// Bump seed of the record's address.
    pub bump: u8,
    /// The two members, the smaller identifier first.
    pub members: [Principal; 2],
    /// The owner on whose behalf the thread was created.
    pub creator: Principal,
    /// How many pointers have been posted.
    pub message_count: u64,
    /// The pointer posted last; zero before the first post.
    pub last_pointer: [u8; 32],
    /// Once set, no post is accepted.
    pub closed: bool,
    /// When the thread was created.
    pub created_at: i64,
    /// When the last pointer was posted; the creation time before the first post.
    pub updated_at: i64,
}

/// The notice of one accepted post, for subscribers outside the ledger.
#[derive(Clone, Copy, Debug, PartialEq, Eq)]
pub struct MessagePosted {
    /// Address of the thread's record.
    pub thread: Principal,
    /// The member in whose name the pointer was posted.
    pub owner: Principal,
    /// The other participant, as the poster named it.
    pub peer: Principal,
    /// The logical author: always the owner, also when a delegate posted.
    pub sender: Principal,
    /// The delegate that posted, or the zero identifier when the owner posted itself.
    pub delegate: Principal,
    /// The pointer that was posted.
    pub pointer32: [u8; 32],
    /// The thread's message count after this post.
    pub index: u64,
    /// When the pointer was posted.
    pub at: i64,
}

/// What a request to create a thread names: the creating member and its peer.
#[derive(Clone, Copy, Debug, PartialEq, Eq)]
pub struct InitThread {
    /// The member that creates the thread.
    pub user: Principal,
    /// The other member.
    pub peer: Principal,
    /// Bump seed of the address at which the thread is created.
    pub bump: u8,
}

/// What a delegate's request to create a thread names.
#[derive(Clone, Copy, Debug, PartialEq, Eq)]
pub struct InitThreadDelegated {
    /// The member for whom the thread is created.
    pub owner: Principal,
    /// The other member.
    pub peer: Principal,
    /// The delegate that makes the request.
    pub delegate: Principal,
    /// The authorization that the delegate presents.
    pub auth: DelegateAuth,
    /// Bump seed of the address at which the thread is created.
    pub bump: u8,
}

/// What a member's request to post names.
#[derive(Clone, Copy, Debug, PartialEq, Eq)]
pub struct PostPointer {
    /// The member that posts.
    pub user: Principal,
    /// The other participant.
    pub peer: Principal,
    /// Address of the thread's record.
    pub thread_key: Principal,
    /// The thread's record.
    pub thread: Thread,
}

/// What a delegate's request to post names.
#[derive(Clone, Copy, Debug, PartialEq, Eq)]
pub struct PostPointerDelegated {
    /// The member in whose name the delegate posts.
    pub owner: Principal,
    /// The other participant.
    pub peer: Principal,
    /// The delegate that makes the request.
    pub delegate: Principal,
    /// The authorization that the delegate presents.
    pub auth: DelegateAuth,
    /// Address of the thread's record.
    pub thread_key: Principal,
    /// The thread's record.
    pub thread: Thread,
}

/// What a request to close a thread names. No operation here closes a thread: the
/// flag `closed` is only read. `authorize` states who may ask.
#[derive(Clone, Copy, Debug, PartialEq, Eq)]
pub struct CloseThread {
    /// The member that asks.
    pub user: Principal,
    /// The other member.
    pub peer: Principal,
    /// The thread's record.
    pub thread: Thread,
    /// Who receives what the record held in deposit.
    pub refund: Principal,
}

impl Thread {
    /// Bytes that a stored thread occupies, its 8-byte tag included.
    pub const SPACE: usize = 8 + 1 + 32 * 3 + 8 + 32 + 1 + 8 + 8;

    /// The thread that `owner` creates with `peer` at time `now`: the two in canonical
    /// order, no message yet, open.
    pub open spec fn spec_new(bump: u8, owner: Principal, peer: Principal, now: i64) -> Thread {
        Thread {
            bump,
            members: [spec_sort_pair(owner, peer).0, spec_sort_pair(owner, peer).1],
            creator: owner,
            message_count: 0,
            last_pointer: zero_bytes(),
            closed: false,
            created_at: now,
            updated_at: now,
        }
    }

    /// Whether `who` is one of the two members.
    pub open spec fn spec_has_member(self, who: Principal) -> bool {
        self.members[0] == who || self.members[1] == who
    }

    /// The thread after one more post: the count one higher, the pointer and the time
    /// of the post in place of the last ones, all else as before.
    pub open spec fn spec_posted(self, pointer32: [u8; 32], now: i64) -> Thread {
        Thread {
            message_count: (self.message_count + 1) as u64,
            last_pointer: pointer32,
            updated_at: now,
            ..self
        }
    }

    /// Creates the thread between `owner` and `peer`.
    pub fn new(bump: u8, owner: Principal, peer: Principal, now: i64) -> (r: Thread)
        ensures
            r == Thread::spec_new(bump, owner, peer, now),
    {
        let (lower, higher) = sort_pair(owner, peer);
        Thread {
            bump,
            members: [lower, higher],
            creator: owner,
            message_count: 0,
            last_pointer: [0u8; 32],
            closed: false,
            created_at: now,
            updated_at: now,
        }
    }

    /// Whether `who` is one of the two members.
    pub fn has_member(&self, who: &Principal) -> (r: bool)
        ensures
            r == self.spec_has_member(*who),
    {
        self.members[0] == *who || self.members[1] == *who
    }

    /// Records one post. The counter must have room for it.
    pub fn record_post(&mut self, pointer32: [u8; 32], now: i64)
        requires
            old(self).message_count < u64::MAX,
        ensures
            *final(self) == old(self).spec_posted(pointer32, now),
    {
        self.message_count = self.message_count + 1;
        self.last_pointer = pointer32;
        self.updated_at = now;
    }
}

impl PostPointer {
    /// Whether the post is admitted: the thread must be open and the poster a member.
    pub open spec fn spec_admission(self) -> Result<(), SanctosError> {
        if self.thread.closed {
            Err(SanctosError::ThreadClosed)
        } else if !self.thread.spec_has_member(self.user) {
            Err(SanctosError::NotMember)
        } else {
            Ok(())
        }
    }

    /// The notice of the post, given the thread as it is after the post.
    pub open spec fn spec_notice(self, posted: Thread, pointer32: [u8; 32]) -> MessagePosted {
        MessagePosted {
            thread: self.thread_key,
            owner: self.user,
            peer: self.peer,
            sender: self.user,
            delegate: Principal::spec_zero(),
            pointer32,
            index: posted.message_count,
            at: posted.updated_at,
        }
    }

    /// Decides whether the post is admitted, without changing anything.
    pub fn admission(&self) -> (r: Result<(), SanctosError>)
        ensures
            r == self.spec_admission(),
    {
        if self.thread.closed {
            return Err(SanctosError::ThreadClosed);
        }
        if !self.thread.has_member(&self.user) {
            return Err(SanctosError::NotMember);
        }
        Ok(())
    }
}

impl PostPointerDelegated {
    /// Whether the post is admitted at time `now`: the thread must be open, the
    /// authorization valid for this owner and delegate, and the owner a member.
    pub open spec fn spec_admission(self, now: i64) -> Result<(), SanctosError> {
        if self.thread.closed {
            Err(SanctosError::ThreadClosed)
        } else if spec_validate_delegate(self.auth, self.owner, self.delegate, now) is Err {
            spec_validate_delegate(self.auth, self.owner, self.delegate, now)
        } else if !self.thread.spec_has_member(self.owner) {
            Err(SanctosError::NotMember)
        } else {
            Ok(())
        }
    }

    /// The notice of the post, given the thread as it is after the post.
    pub open spec fn spec_notice(self, posted: Thread, pointer32: [u8; 32]) -> MessagePosted {
        MessagePosted {
            thread: self.thread_key,
            owner: self.owner,
            peer: self.peer,
            sender: self.owner,
            delegate: self.delegate,
            pointer32,
            index: posted.message_count,
            at: posted.updated_at,
        }
    }

    /// Decides whether the post is admitted at time `now`, without changing anything.
    pub fn admission(&self, now: i64) -> (r: Result<(), SanctosError>)
        ensures
            r == self.spec_admission(now),
    {
        if self.thread.closed {
            return Err(SanctosError::ThreadClosed);
        }
        match validate_delegate(&self.auth, &self.owner, &self.delegate, now) {
            Err(e) => {
                return Err(e);
            },
            Ok(()) => {},
        }
        if !self.thread.has_member(&self.owner) {
            return Err(SanctosError::NotMember);
        }
        Ok(())
    }
}

/// A delegate posts a pointer in the owner's name at time `now`.
///
/// The post is rejected, and nothing changes, if the thread is closed, if the
/// authorization fails `validate_delegate`, or if the owner is no member. Otherwise the
/// thread records the post and the notice names the owner as sender and the delegate
/// as delegate. A post that the counter has no room for is outside this function.
pub fn post_pointer_delegated(ctx: &mut PostPointerDelegated, pointer32: [u8; 32], now: i64) -> (r:
    Result<MessagePosted, SanctosError>)
    requires
        old(ctx).spec_admission(now) is Ok ==> old(ctx).thread.message_count < u64::MAX,
    ensures
        match old(ctx).spec_admission(now) {
            Ok(()) => {
                &&& *final(ctx) == (PostPointerDelegated {
                    thread: old(ctx).thread.spec_posted(pointer32, now),
                    ..*old(ctx)
                })
                &&& r == Ok::<MessagePosted, SanctosError>(
                    old(ctx).spec_notice(final(ctx).thread, pointer32),
                )
            },
            Err(e) => r == Err::<MessagePosted, SanctosError>(e) && *final(ctx) == *old(ctx),
        },
{
    match ctx.admission(now) {
        Err(e) => {
            return Err(e);
        },
        Ok(()) => {},
    }
    ctx.thread.record_post(pointer32, now);

    let owner = ctx.owner;
    let (lower, higher) = sort_pair(owner, ctx.peer);
    let other = if owner == lower {
        higher
    } else {
        lower
    };
    Ok(
        MessagePosted {
            thread: ctx.thread_key,
            owner,
            peer: other,
            sender: owner,
            delegate: ctx.delegate,
            pointer32,
            index: ctx.thread.message_count,
            at: ctx.thread.updated_at,
        },
    )
}

/// A member posts a pointer at time `now`.
///
/// The post is rejected, and nothing changes, if the thread is closed or if the poster
/// is no member. Otherwise the thread records the post, and the notice names the poster
/// as owner and sender and nobody as delegate. A post that the counter has no room for
/// is outside this function.
pub fn post_pointer(ctx: &mut PostPointer, pointer32: [u8; 32], now: i64) -> (r: Result<
    MessagePosted,
    SanctosError,
>)
    requires
        old(ctx).spec_admission() is Ok ==> old(ctx).thread.message_count < u64::MAX,
    ensures
        match old(ctx).spec_admission() {
            Ok(()) => {
                &&& *final(ctx) == (PostPointer {
                    thread: old(ctx).thread.spec_posted(pointer32, now),
                    ..*old(ctx)
                })
                &&& r == Ok::<MessagePosted, SanctosError>(
                    old(ctx).spec_notice(final(ctx).thread, pointer32),
                )
            },
            Err(e) => r == Err::<MessagePosted, SanctosError>(e) && *final(ctx) == *old(ctx),
        },
{
    match ctx.admission() {
        Err(e) => {
            return Err(e);
        },
        Ok(()) => {},
    }
    ctx.thread.record_post(pointer32, now);

    let owner = ctx.user;
    let (lower, higher) = sort_pair(owner, ctx.peer);
    let other = if owner == lower {
        higher
    } else {
        lower
    };
    Ok(
        MessagePosted {
            thread: ctx.thread_key,
            owner,
            peer: other,
            sender: owner,
            delegate: Principal::zero(),
            pointer32,
            index: ctx.thread.message_count,
            at: ctx.thread.updated_at,
        },
    )
}

/// A delegate creates, at time `now`, the thread between the owner and a peer.
///
/// The request is rejected if the authorization fails `validate_delegate`. The owner,
/// never the delegate, is recorded as creator.
pub fn init_thread_delegated(ctx: &InitThreadDelegated, now: i64) -> (r: Result<
    Thread,
    SanctosError,
>)
    ensures
        match spec_validate_delegate(ctx.auth, ctx.owner, ctx.delegate, now) {
            Ok(()) => r == Ok::<Thread, SanctosError>(
                Thread::spec_new(ctx.bump, ctx.owner, ctx.peer, now),
            ),
            Err(e) => r == Err::<Thread, SanctosError>(e),
        },
{
    match validate_delegate(&ctx.auth, &ctx.owner, &ctx.delegate, now) {
        Err(e) => {
            return Err(e);
        },
        Ok(()) => {},
    }
    Ok(Thread::new(ctx.bump, ctx.owner, ctx.peer, now))
}

/// A member creates, at time `now`, the thread between itself and a peer.
pub fn init_thread(ctx: &InitThread, now: i64) -> (r: Thread)
    ensures
        r == Thread::spec_new(ctx.bump, ctx.user, ctx.peer, now),
{
    Thread::new(ctx.bump, ctx.user, ctx.peer, now)
}

impl CloseThread {
    /// Only a member may ask to close the thread.
    pub fn authorize(&self) -> (r: Result<(), SanctosError>)
        ensures
            r == if self.thread.spec_has_member(self.user) {
                Ok::<(), SanctosError>(())
            } else {
                Err::<(), SanctosError>(SanctosError::NotMember)
            },
    {
        if self.thread.has_member(&self.user) {
            Ok(())
        } else {
            Err(SanctosError::NotMember)
        }
    }
}

/// A recorded post raises the count by exactly one, leaves the posted pointer as the
/// last one, and changes neither the members, the creator, the creation time nor the
/// closed flag.
pub proof fn lemma_post_counts_one(thread: Thread, pointer32: [u8; 32], now: i64)
    requires
        thread.message_count < u64::MAX,
    ensures
        thread.spec_posted(pointer32, now).message_count == thread.message_count + 1,
        thread.spec_posted(pointer32, now).last_pointer == pointer32,
        thread.spec_posted(pointer32, now).updated_at == now,
        thread.spec_posted(pointer32, now).members == thread.members,
        thread.spec_posted(pointer32, now).creator == thread.creator,
        thread.spec_posted(pointer32, now).created_at == thread.created_at,
        thread.spec_posted(pointer32, now).closed == thread.closed,
        thread.spec_posted(pointer32, now).bump == thread.bump,
{
}

/// A member's post to a closed thread is rejected with `ThreadClosed`, whoever posts.
pub proof fn lemma_closed_thread_rejects_member(ctx: PostPointer)
    requires
        ctx.thread.closed,
    ensures
        ctx.spec_admission() == Err::<(), SanctosError>(SanctosError::ThreadClosed),
{
}

/// A delegate's post to a closed thread is rejected with `ThreadClosed`, whatever
/// authorization is presented and at whatever time.
pub proof fn lemma_closed_thread_rejects_delegate(ctx: PostPointerDelegated, now: i64)
    requires
        ctx.thread.closed,
    ensures
        ctx.spec_admission(now) == Err::<(), SanctosError>(SanctosError::ThreadClosed),
{
}

/// A post to an open thread by one who is no member is rejected with `NotMember`.
pub proof fn lemma_non_member_rejected(ctx: PostPointer)
    requires
        !ctx.thread.closed,
        !ctx.thread.spec_has_member(ctx.user),
    ensures
        ctx.spec_admission() == Err::<(), SanctosError>(SanctosError::NotMember),
{
}

/// A delegate's post to an open thread, under a valid authorization, in the name of an
/// owner that is no member is rejected with `NotMember`.
pub proof fn lemma_non_member_owner_rejected(ctx: PostPointerDelegated, now: i64)
    requires
        !ctx.thread.closed,
        spec_validate_delegate(ctx.auth, ctx.owner, ctx.delegate, now) is Ok,
        !ctx.thread.spec_has_member(ctx.owner),
    ensures
        ctx.spec_admission(now) == Err::<(), SanctosError>(SanctosError::NotMember),
{
}

/// A new thread is open and has both the owner and the peer as members, whichever of
/// the two created it: either may post to it.
pub proof fn lemma_new_thread_admits_both(bump: u8, owner: Principal, peer: Principal, now: i64)
    ensures
        !Thread::spec_new(bump, owner, peer, now).closed,
        Thread::spec_new(bump, owner, peer, now).spec_has_member(owner),
        Thread::spec_new(bump, owner, peer, now).spec_has_member(peer),
{
    lemma_sort_pair_canonical(owner, peer);
}

/// A delegate's post to an open thread at or after the expiry of its authorization is
/// rejected with `DelegationExpired`, where the authorization names this owner and
/// this delegate and is not revoked. The expiry instant itself is too late.
pub proof fn lemma_expired_delegation_rejected(ctx: PostPointerDelegated, now: i64)
    requires
        !ctx.thread.closed,
        ctx.auth.owner == ctx.owner,
        ctx.auth.delegate == ctx.delegate,
        !ctx.auth.revoked,
        now >= ctx.auth.expires_at,
    ensures
        ctx.spec_admission(now) == Err::<(), SanctosError>(SanctosError::DelegationExpired),
{
}

/// A delegate's post to an open thread under an authorization that its owner has
/// revoked is rejected with `DelegationRevoked`, at any time, before or after the
/// expiry, where the authorization names this owner and this delegate.
pub proof fn lemma_revoked_delegation_rejected(
    revoke: RevokeDelegate,
    ctx: PostPointerDelegated,
    now: i64,
)
    requires
        spec_revoke_delegate(revoke) == Ok::<DelegateAuth, SanctosError>(ctx.auth),
        ctx.owner == ctx.auth.owner,
        ctx.delegate == ctx.auth.delegate,
        !ctx.thread.closed,
    ensures
        ctx.spec_admission(now) == Err::<(), SanctosError>(SanctosError::DelegationRevoked),
{
}

} // verus!
