//! The bounded message list: validation on insert, eviction of the oldest
//! entry once the list is full, newest message first.
use vstd::prelude::*;
use vstd::string::StrSliceExecFns;
use vstd::string::StringExecFns;

verus! {

/// Largest number of characters (Unicode scalar values) in one message.
pub const MAX_MESSAGE_LEN_CHARS: usize = 200;

/// Largest number of messages the list holds.
pub const MAX_MESSAGE_COUNT: usize = 100;

/// The error text for a message without characters.
pub open spec fn empty_error_text() -> Seq<char> {
    "Message is empty."@
}

/// The error text for a message over the character limit; it names the limit.
pub open spec fn too_long_error_text() -> Seq<char> {
    "Message too long.  Max 200 characters."@
}

/// A message may be stored when it has between 1 and the limit characters.
pub open spec fn valid_message(m: Seq<char>) -> bool {
    1 <= m.len() <= MAX_MESSAGE_LEN_CHARS
}

/// Why a message is refused, if it is: emptiness is checked first.
pub open spec fn add_error(m: Seq<char>) -> Option<Seq<char>> {
    if m.len() == 0 {
        Some(empty_error_text())
    } else if m.len() > MAX_MESSAGE_LEN_CHARS {
        Some(too_long_error_text())
    } else {
        None
    }
}

/// A well-formed store: at most the capacity, every entry a valid message.
pub open spec fn valid_store(s: Seq<Seq<char>>) -> bool {
    &&& s.len() <= MAX_MESSAGE_COUNT
    &&& forall|i: int| 0 <= i < s.len() ==> valid_message(#[trigger] s[i])
}

/// The store with its oldest entries removed until fewer than the capacity remain.
pub open spec fn evicted(s: Seq<Seq<char>>) -> Seq<Seq<char>> {
    if s.len() < MAX_MESSAGE_COUNT {
        s
    } else {
        s.take(MAX_MESSAGE_COUNT - 1)
    }
}

/// The store after `m` is accepted: `m` in front of what eviction leaves.
pub open spec fn inserted(s: Seq<Seq<char>>, m: Seq<char>) -> Seq<Seq<char>> {
    seq![m] + evicted(s)
}

/// The store after an attempt to add `m`: unchanged when `m` is refused.
pub open spec fn after_add(s: Seq<Seq<char>>, m: Seq<char>) -> Seq<Seq<char>> {
    if add_error(m) is Some {
        s
    } else {
        inserted(s, m)
    }
}

/// The store after attempts to add each of `texts`, in order.
pub open spec fn add_all(s: Seq<Seq<char>>, texts: Seq<Seq<char>>) -> Seq<Seq<char>>
    decreases texts.len(),
{
    if texts.len() == 0 {
        s
    } else {
        after_add(add_all(s, texts.drop_last()), texts.last())
    }
}

/// Accepted messages come out newest first: after adding valid texts to an
/// empty store, it holds the most recent of them (up to the capacity), the
/// last one added in front.
pub proof fn lemma_newest_first(texts: Seq<Seq<char>>)
    requires
        forall|i: int| 0 <= i < texts.len() ==> valid_message(#[trigger] texts[i]),
    ensures
        add_all(Seq::empty(), texts).len() == if texts.len() < MAX_MESSAGE_COUNT {
            texts.len()
        } else {
            MAX_MESSAGE_COUNT as nat
        },
        forall|i: int|
            0 <= i < add_all(Seq::empty(), texts).len() ==> #[trigger] add_all(
                Seq::empty(),
                texts,
            )[i] == texts[texts.len() - 1 - i],
    decreases texts.len(),
{
    if texts.len() > 0 {
        let rest = texts.drop_last();
        assert forall|i: int| 0 <= i < rest.len() implies valid_message(#[trigger] rest[i]) by {
            assert(rest[i] == texts[i]);
        }
        lemma_newest_first(rest);
        let prev = add_all(Seq::empty(), rest);
        let cur = add_all(Seq::empty(), texts);
        assert(cur == inserted(prev, texts.last()));
        assert forall|i: int| 0 <= i < cur.len() implies #[trigger] cur[i] == texts[texts.len()
            - 1 - i] by {
            if i > 0 {
                assert(cur[i] == prev[i - 1]);
                assert(prev[i - 1] == rest[rest.len() - 1 - (i - 1)]);
            }
        }
    }
}

/// An accepted message keeps the store well-formed; a refused one leaves it as it was.
pub proof fn lemma_add_keeps_valid(s: Seq<Seq<char>>, m: Seq<char>)
    requires
        valid_store(s),
    ensures
        valid_store(after_add(s, m)),
{
    if add_error(m) is None {
        let r = inserted(s, m);
        assert forall|i: int| 0 <= i < r.len() implies valid_message(#[trigger] r[i]) by {
            if i > 0 {
                assert(r[i] == evicted(s)[i - 1]);
                assert(evicted(s)[i - 1] == s[i - 1]);
            }
        }
    }
}

/// Whatever is added, valid or not, a well-formed store never exceeds the
/// capacity and holds only valid messages.
pub proof fn lemma_capacity_kept(s: Seq<Seq<char>>, texts: Seq<Seq<char>>)
    requires
        valid_store(s),
    ensures
        valid_store(add_all(s, texts)),
        add_all(s, texts).len() <= MAX_MESSAGE_COUNT,
    decreases texts.len(),
{
    if texts.len() > 0 {
        lemma_capacity_kept(s, texts.drop_last());
        lemma_add_keeps_valid(add_all(s, texts.drop_last()), texts.last());
    }
}

/// At capacity, an accepted message evicts exactly the oldest entry: the
/// store keeps its size, the new message in front, the rest shifted by one.
pub proof fn lemma_full_store_evicts_oldest(s: Seq<Seq<char>>, m: Seq<char>)
    requires
        valid_store(s),
        s.len() == MAX_MESSAGE_COUNT,
        valid_message(m),
    ensures
        after_add(s, m) == seq![m] + s.drop_last(),
        after_add(s, m).len() == MAX_MESSAGE_COUNT,
{
    assert(s.take(MAX_MESSAGE_COUNT - 1) =~= s.drop_last());
}

/// The length limit is inclusive: a message of exactly the limit is
/// accepted, one character more is too long, and an empty one is refused as empty.
pub proof fn lemma_validation_boundary(m: Seq<char>)
    ensures
        m.len() == MAX_MESSAGE_LEN_CHARS ==> add_error(m) is None,
        m.len() == MAX_MESSAGE_LEN_CHARS + 1 ==> add_error(m) == Some(too_long_error_text()),
        m.len() == 0 ==> add_error(m) == Some(empty_error_text()),
{
}

/// The messages as character sequences, newest first.
pub open spec fn texts_of(v: Seq<String>) -> Seq<Seq<char>> {
    v.map_values(|s: String| s@)
}

/// An ordered, capacity-bounded list of messages, newest first.
pub struct MessageList {
    messages: Vec<String>,
}

impl View for MessageList {
    type V = Seq<Seq<char>>;

    closed spec fn view(&self) -> Seq<Seq<char>> {
        texts_of(self.messages@)
    }
}

impl MessageList {
    /// The list's invariant.
    pub open spec fn wf(&self) -> bool {
        valid_store(self@)
    }

    /// An empty list.
    pub fn new() -> (r: Self)
        ensures
            r@ == Seq::<Seq<char>>::empty(),
            r.wf(),
    {
        let r = MessageList { messages: Vec::new() };
        assert(r@ =~= Seq::<Seq<char>>::empty());
        r
    }

    /// Adds `text` at the front, after evicting the oldest entries while the
    /// list is at capacity. A refused text leaves the list unchanged and
    /// yields the reason.
    pub fn add(&mut self, text: String) -> (r: Result<(), String>)
        ensures
            final(self)@ == after_add(old(self)@, text@),
            r is Ok <==> add_error(text@) is None,
            r matches Err(e) ==> Some(e@) == add_error(text@),
            old(self).wf() ==> final(self).wf(),
    {
        let n: usize = text.unicode_len();
        if n == 0 {
            let e = String::from_str("Message is empty.");
            proof {
                reveal_strlit("Message is empty.");
            }
            return Err(e);
        }
        if n > MAX_MESSAGE_LEN_CHARS {
            let e = String::from_str("Message too long.  Max 200 characters.");
            proof {
                reveal_strlit("Message too long.  Max 200 characters.");
            }
            return Err(e);
        }
        let ghost before = self.messages@;
        while self.messages.len() >= MAX_MESSAGE_COUNT
            invariant
                self.messages@.len() <= before.len(),
                self.messages@ == before.take(self.messages@.len() as int),
                before.len() >= MAX_MESSAGE_COUNT ==> self.messages@.len() >= MAX_MESSAGE_COUNT - 1,
                before.len() < MAX_MESSAGE_COUNT ==> self.messages@.len() == before.len(),
            decreases self.messages@.len(),
        {
            self.messages.pop();
        }
        proof {
            assert(self.messages@.len() == before.len() || self.messages@.len()
                == MAX_MESSAGE_COUNT - 1);
            assert(texts_of(self.messages@) =~= evicted(texts_of(before)));
        }
        self.messages.insert(0, text);
        proof {
            assert(texts_of(self.messages@) =~= inserted(texts_of(before), text@));
        }
        Ok(())
    }

    /// The stored messages, newest first.
    pub fn as_slice(&self) -> (r: &[String])
        ensures
            texts_of(r@) == self@,
    {
        self.messages.as_slice()
    }
}

} // verus!
