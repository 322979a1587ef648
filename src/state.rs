//! The message list shared between concurrent requests, behind a
//! reader/writer lock whose invariant is the list's well-formedness.
use vstd::prelude::*;
use vstd::rwlock::RwLock;
use vstd::rwlock::RwLockPredicate;
use crate::message_list::MessageList;
use crate::message_list::add_error;
use crate::message_list::texts_of;
use crate::message_list::valid_store;

verus! {

/// What every value held by the lock satisfies: a well-formed list.
pub struct WellFormedList;

impl RwLockPredicate<MessageList> for WellFormedList {
    open spec fn inv(self, v: MessageList) -> bool {
        v.wf()
    }
}

/// The service's state: one message list, read under shared access and
/// changed under exclusive access.
pub struct State {
    message_list: RwLock<MessageList, WellFormedList>,
}

impl State {
    #[verifier::type_invariant]
    spec fn lock_keeps_lists_well_formed(&self) -> bool {
        self.message_list.pred() == WellFormedList
    }

    /// A state holding an empty list.
    pub fn new() -> (r: Self) {
        State { message_list: RwLock::new(MessageList::new(), Ghost(WellFormedList)) }
    }

    /// Validates and adds `text` under exclusive access. Success does not
    /// depend on what other callers do: it depends on `text` alone.
    pub fn add(&self, text: String) -> (r: Result<(), String>)
        ensures
            r is Ok <==> add_error(text@) is None,
            r matches Err(e) ==> Some(e@) == add_error(text@),
    {
        proof {
            use_type_invariant(self);
        }
        let (mut list, handle) = self.message_list.acquire_write();
        let r = list.add(text);
        handle.release_write(list);
        r
    }

    /// A copy of the whole list at one point in time, newest first. Every
    /// such copy is a well-formed store.
    pub fn snapshot(&self) -> (r: Vec<String>)
        ensures
            valid_store(texts_of(r@)),
    {
        proof {
            use_type_invariant(self);
        }
        let handle = self.message_list.acquire_read();
        let list = handle.borrow();
        let messages = list.as_slice();
        let mut out: Vec<String> = Vec::new();
        let mut i: usize = 0;
        while i < messages.len()
            invariant
                i <= messages@.len(),
                out@ == messages@.take(i as int),
            decreases messages@.len() - i,
        {
            out.push(messages[i].clone());
            proof {
                assert(out@ =~= messages@.take(i + 1));
            }
            i = i + 1;
        }
        proof {
            assert(out@ =~= messages@);
        }
        handle.release_read();
        out
    }
}

} // verus!
