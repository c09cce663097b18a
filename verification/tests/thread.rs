use sanctos_messenger::{
    init_thread, init_thread_delegated, post_pointer, post_pointer_delegated, CloseThread,
    DelegateAuth, InitThread, InitThreadDelegated, MessagePosted, PostPointer,
    PostPointerDelegated, Principal, SanctosError, Thread,
};

fn who(tag: u8) -> Principal {
    Principal::new([tag; 32])
}

fn open_thread(a: u8, b: u8) -> Thread {
    init_thread(&InitThread { user: who(a), peer: who(b), bump: 255 }, 100)
}

fn auth(owner: u8, delegate: u8, expires_at: i64, revoked: bool) -> DelegateAuth {
    DelegateAuth { bump: 254, owner: who(owner), delegate: who(delegate), expires_at, revoked }
}

#[test]
fn init_thread_sorts_members_and_records_the_creator() {
    let thread = init_thread(&InitThread { user: who(9), peer: who(3), bump: 251 }, 1234);
    assert_eq!(
        thread,
        Thread {
            bump: 251,
            members: [who(3), who(9)],
            creator: who(9),
            message_count: 0,
            last_pointer: [0u8; 32],
            closed: false,
            created_at: 1234,
            updated_at: 1234,
        }
    );
}

#[test]
fn init_thread_members_do_not_depend_on_who_creates() {
    let by_a = init_thread(&InitThread { user: who(3), peer: who(9), bump: 1 }, 5);
    let by_b = init_thread(&InitThread { user: who(9), peer: who(3), bump: 1 }, 5);
    assert_eq!(by_a.members, by_b.members);
    assert_eq!(by_a.creator, who(3));
    assert_eq!(by_b.creator, who(9));
}

#[test]
fn init_thread_with_oneself_holds_the_same_member_twice() {
    let thread = init_thread(&InitThread { user: who(4), peer: who(4), bump: 1 }, 5);
    assert_eq!(thread.members, [who(4), who(4)]);
}

#[test]
fn init_thread_delegated_records_the_owner_as_creator() {
    let ctx = InitThreadDelegated {
        owner: who(9),
        peer: who(3),
        delegate: who(7),
        auth: auth(9, 7, 2000, false),
        bump: 250,
    };
    let thread = init_thread_delegated(&ctx, 1999).unwrap();
    assert_eq!(thread.creator, who(9));
    assert_eq!(thread.members, [who(3), who(9)]);
    assert_eq!(thread.message_count, 0);
    assert_eq!(thread.last_pointer, [0u8; 32]);
    assert!(!thread.closed);
    assert_eq!(thread.created_at, 1999);
    assert_eq!(thread.updated_at, 1999);
    assert_eq!(thread.bump, 250);
}

#[test]
fn init_thread_delegated_rejects_each_invalid_authorization() {
    let ctx = |a: DelegateAuth| InitThreadDelegated {
        owner: who(9),
        peer: who(3),
        delegate: who(7),
        auth: a,
        bump: 250,
    };
    assert_eq!(init_thread_delegated(&ctx(auth(8, 7, 2000, false)), 0), Err(SanctosError::BadOwner));
    assert_eq!(
        init_thread_delegated(&ctx(auth(9, 6, 2000, false)), 0),
        Err(SanctosError::BadDelegate)
    );
    assert_eq!(
        init_thread_delegated(&ctx(auth(9, 7, 2000, true)), 0),
        Err(SanctosError::DelegationRevoked)
    );
    assert_eq!(
        init_thread_delegated(&ctx(auth(9, 7, 2000, false)), 2000),
        Err(SanctosError::DelegationExpired)
    );
}

#[test]
fn post_pointer_counts_and_keeps_the_pointer() {
    let mut ctx =
        PostPointer { user: who(1), peer: who(2), thread_key: who(50), thread: open_thread(1, 2) };
    let notice = post_pointer(&mut ctx, [0xAA; 32], 200).unwrap();
    assert_eq!(ctx.thread.message_count, 1);
    assert_eq!(ctx.thread.last_pointer, [0xAA; 32]);
    assert_eq!(ctx.thread.updated_at, 200);
    assert_eq!(ctx.thread.created_at, 100);
    assert_eq!(ctx.thread.members, [who(1), who(2)]);
    assert_eq!(ctx.thread.creator, who(1));
    assert_eq!(
        notice,
        MessagePosted {
            thread: who(50),
            owner: who(1),
            peer: who(2),
            sender: who(1),
            delegate: Principal::zero(),
            pointer32: [0xAA; 32],
            index: 1,
            at: 200,
        }
    );
}

#[test]
fn post_pointer_by_the_higher_member_names_the_lower_as_peer() {
    let mut ctx =
        PostPointer { user: who(2), peer: who(1), thread_key: who(50), thread: open_thread(1, 2) };
    let notice = post_pointer(&mut ctx, [1; 32], 200).unwrap();
    assert_eq!(notice.owner, who(2));
    assert_eq!(notice.sender, who(2));
    assert_eq!(notice.peer, who(1));
}

#[test]
fn each_post_raises_the_count_by_one_and_replaces_the_pointer() {
    let mut ctx =
        PostPointer { user: who(1), peer: who(2), thread_key: who(50), thread: open_thread(1, 2) };
    for n in 1..=20u64 {
        let pointer = [n as u8; 32];
        let notice = post_pointer(&mut ctx, pointer, 100 + n as i64).unwrap();
        assert_eq!(notice.index, n);
        assert_eq!(ctx.thread.message_count, n);
        assert_eq!(ctx.thread.last_pointer, pointer);
    }
}

#[test]
fn post_pointer_reaches_the_largest_count() {
    let mut thread = open_thread(1, 2);
    thread.message_count = u64::MAX - 1;
    let mut ctx = PostPointer { user: who(1), peer: who(2), thread_key: who(50), thread };
    let notice = post_pointer(&mut ctx, [3; 32], 200).unwrap();
    assert_eq!(notice.index, u64::MAX);
    assert_eq!(ctx.thread.message_count, u64::MAX);
}

#[test]
fn post_pointer_by_a_stranger_is_rejected_and_changes_nothing() {
    let before =
        PostPointer { user: who(3), peer: who(2), thread_key: who(50), thread: open_thread(1, 2) };
    let mut ctx = before;
    assert_eq!(post_pointer(&mut ctx, [0xAA; 32], 200), Err(SanctosError::NotMember));
    assert_eq!(ctx, before);
}

#[test]
fn post_pointer_to_a_closed_thread_is_rejected_and_changes_nothing() {
    let mut thread = open_thread(1, 2);
    thread.closed = true;
    thread.message_count = 4;
    let before = PostPointer { user: who(1), peer: who(2), thread_key: who(50), thread };
    let mut ctx = before;
    assert_eq!(post_pointer(&mut ctx, [0xAA; 32], 200), Err(SanctosError::ThreadClosed));
    assert_eq!(ctx, before);
}

#[test]
fn post_pointer_tests_closed_before_membership() {
    let mut thread = open_thread(1, 2);
    thread.closed = true;
    let mut ctx = PostPointer { user: who(3), peer: who(2), thread_key: who(50), thread };
    assert_eq!(post_pointer(&mut ctx, [0xAA; 32], 200), Err(SanctosError::ThreadClosed));
    assert_eq!(ctx.admission(), Err(SanctosError::ThreadClosed));
}

#[test]
fn admission_of_a_full_thread_is_still_granted() {
    let mut thread = open_thread(1, 2);
    thread.message_count = u64::MAX;
    let ctx = PostPointer { user: who(1), peer: who(2), thread_key: who(50), thread };
    assert_eq!(ctx.admission(), Ok(()));
}

fn delegated(owner: u8, delegate: u8, a: DelegateAuth, thread: Thread) -> PostPointerDelegated {
    PostPointerDelegated {
        owner: who(owner),
        peer: who(2),
        delegate: who(delegate),
        auth: a,
        thread_key: who(50),
        thread,
    }
}

#[test]
fn post_pointer_delegated_names_owner_as_sender_and_the_delegate() {
    let mut thread = open_thread(1, 2);
    thread.message_count = 1;
    let mut ctx = delegated(1, 7, auth(1, 7, 1000, false), thread);
    let notice = post_pointer_delegated(&mut ctx, [0xBB; 32], 300).unwrap();
    assert_eq!(ctx.thread.message_count, 2);
    assert_eq!(ctx.thread.last_pointer, [0xBB; 32]);
    assert_eq!(ctx.thread.updated_at, 300);
    assert_eq!(ctx.auth, auth(1, 7, 1000, false));
    assert_eq!(
        notice,
        MessagePosted {
            thread: who(50),
            owner: who(1),
            peer: who(2),
            sender: who(1),
            delegate: who(7),
            pointer32: [0xBB; 32],
            index: 2,
            at: 300,
        }
    );
}

#[test]
fn post_pointer_delegated_at_the_expiry_instant_is_rejected() {
    let before = delegated(1, 7, auth(1, 7, 1000, false), open_thread(1, 2));
    let mut ctx = before;
    assert_eq!(
        post_pointer_delegated(&mut ctx, [0xBB; 32], 1000),
        Err(SanctosError::DelegationExpired)
    );
    assert_eq!(ctx, before);
    assert_eq!(
        post_pointer_delegated(&mut ctx, [0xBB; 32], 1001),
        Err(SanctosError::DelegationExpired)
    );
    assert_eq!(ctx, before);
    assert!(post_pointer_delegated(&mut ctx, [0xBB; 32], 999).is_ok());
}

#[test]
fn post_pointer_delegated_after_revocation_is_rejected_whatever_the_time() {
    let before = delegated(1, 7, auth(1, 7, 1000, true), open_thread(1, 2));
    for now in [0, 999, 1000, 5000] {
        let mut ctx = before;
        assert_eq!(
            post_pointer_delegated(&mut ctx, [0xBB; 32], now),
            Err(SanctosError::DelegationRevoked)
        );
        assert_eq!(ctx, before);
    }
}

#[test]
fn post_pointer_delegated_rejects_in_the_stated_order() {
    let mut closed = open_thread(1, 2);
    closed.closed = true;
    let mut ctx = delegated(1, 7, auth(8, 6, 1000, true), closed);
    assert_eq!(post_pointer_delegated(&mut ctx, [0; 32], 5000), Err(SanctosError::ThreadClosed));

    let mut ctx = delegated(1, 7, auth(8, 6, 1000, true), open_thread(1, 2));
    assert_eq!(post_pointer_delegated(&mut ctx, [0; 32], 5000), Err(SanctosError::BadOwner));

    let mut ctx = delegated(1, 7, auth(1, 6, 1000, true), open_thread(1, 2));
    assert_eq!(post_pointer_delegated(&mut ctx, [0; 32], 5000), Err(SanctosError::BadDelegate));

    let mut ctx = delegated(3, 7, auth(3, 7, 1000, true), open_thread(1, 2));
    assert_eq!(
        post_pointer_delegated(&mut ctx, [0; 32], 5000),
        Err(SanctosError::DelegationRevoked)
    );

    let mut ctx = delegated(3, 7, auth(3, 7, 1000, false), open_thread(1, 2));
    assert_eq!(
        post_pointer_delegated(&mut ctx, [0; 32], 5000),
        Err(SanctosError::DelegationExpired)
    );

    let before = delegated(3, 7, auth(3, 7, 1000, false), open_thread(1, 2));
    let mut ctx = before;
    assert_eq!(post_pointer_delegated(&mut ctx, [0; 32], 10), Err(SanctosError::NotMember));
    assert_eq!(ctx, before);
}

#[test]
fn post_pointer_delegated_for_the_higher_member() {
    let mut ctx = PostPointerDelegated {
        owner: who(2),
        peer: who(1),
        delegate: who(7),
        auth: auth(2, 7, 1000, false),
        thread_key: who(50),
        thread: open_thread(1, 2),
    };
    let notice = post_pointer_delegated(&mut ctx, [5; 32], 10).unwrap();
    assert_eq!(notice.owner, who(2));
    assert_eq!(notice.peer, who(1));
    assert_eq!(notice.sender, who(2));
    assert_eq!(notice.delegate, who(7));
    assert_eq!(notice.index, 1);
}

#[test]
fn has_member_knows_both_members_and_nobody_else() {
    let thread = open_thread(1, 2);
    assert!(thread.has_member(&who(1)));
    assert!(thread.has_member(&who(2)));
    assert!(!thread.has_member(&who(3)));
    assert!(!thread.has_member(&Principal::zero()));
}

#[test]
fn only_a_member_may_ask_to_close() {
    let thread = open_thread(1, 2);
    let by_member = CloseThread { user: who(2), peer: who(1), thread, refund: who(2) };
    assert_eq!(by_member.authorize(), Ok(()));
    let by_stranger = CloseThread { user: who(3), peer: who(1), thread, refund: who(3) };
    assert_eq!(by_stranger.authorize(), Err(SanctosError::NotMember));
}

#[test]
fn thread_occupies_one_hundred_sixty_two_bytes() {
    assert_eq!(Thread::SPACE, 162);
}
