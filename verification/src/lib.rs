//! A ledger of two-party conversation threads with delegated posting.
//!
//! Two principals share one thread, found at an address that depends on the pair and
//! not on its order. A member posts pointers to it, or a delegate does so in a
//! member's name, under an authorization that expires and that the member can revoke.

pub mod address;
pub mod delegation;
pub mod error;
pub mod laws;
pub mod ledger;
pub mod outcome;
pub mod principal;
pub mod thread;

pub use delegation::{
    revoke_delegate, set_delegate, validate_delegate, DelegateAuth, RevokeDelegate, SetDelegate,
};
pub use error::SanctosError;
pub use ledger::{Instruction, Ledger, LedgerError, Record};
pub use principal::{sort_pair, Principal};
pub use thread::{
    init_thread, init_thread_delegated, post_pointer, post_pointer_delegated, CloseThread,
    InitThread, InitThreadDelegated, MessagePosted, PostPointer, PostPointerDelegated, Thread,
};
