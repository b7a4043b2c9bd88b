//! Matching replies to the requests that caused them.
//!
//! When the editor forwards a comm message that carries an `id`, the sidecar
//! remembers under the identifier of the outbound message which request it
//! was. A reply names that message as its parent; the remembered `id` is then
//! put into the reply's data, unless the kernel has echoed one itself.

use crate::json::{
    lemma_lookup_pushed, lemma_position, lookup, Json, JsonObject, JsonView, MemberView,
};
use crate::text::{same_text, text_view};
use vstd::prelude::*;

verus! {

/// One remembered request: the outbound message and the caller's request id.
struct PendingEntry {
    msg_id: String,
    request_id: String,
}

/// The requests that still wait for their reply, by outbound message id.
pub struct PendingComms {
    entries: Vec<PendingEntry>,
}

impl View for PendingComms {
    type V = Map<Seq<char>, Seq<char>>;

    closed spec fn view(&self) -> Map<Seq<char>, Seq<char>> {
        Map::new(
            |k: Seq<char>| self.holds(k),
            |k: Seq<char>| self.entries[self.index_of(k)].request_id@,
        )
    }
}

impl PendingComms {
    spec fn holds(&self, k: Seq<char>) -> bool {
        exists|i: int| 0 <= i < self.entries.len() && (#[trigger] self.entries[i]).msg_id@ == k
    }

    spec fn index_of(&self, k: Seq<char>) -> int {
        choose|i: int| 0 <= i < self.entries.len() && (#[trigger] self.entries[i]).msg_id@ == k
    }

    /// No message id is remembered twice.
    #[verifier::type_invariant]
    spec fn distinct(&self) -> bool {
        forall|i: int, j: int|
            0 <= i < j < self.entries.len() ==> (#[trigger] self.entries[i]).msg_id@ != (
            #[trigger] self.entries[j]).msg_id@
    }

    /// A table that remembers nothing.
    pub fn new() -> (out: Self)
        ensures
            out@ == Map::<Seq<char>, Seq<char>>::empty(),
    {
        let out = PendingComms { entries: Vec::new() };
        assert(out@ =~= Map::<Seq<char>, Seq<char>>::empty());
        out
    }

    /// Whether nothing is remembered.
    pub fn is_empty(&self) -> (empty: bool)
        ensures
            empty == (self@ == Map::<Seq<char>, Seq<char>>::empty()),
    {
        let empty = self.entries.len() == 0;
        proof {
            if empty {
                assert(self@ =~= Map::<Seq<char>, Seq<char>>::empty());
            } else {
                assert(self.holds(self.entries[0].msg_id@));
                assert(self@.contains_key(self.entries[0].msg_id@));
            }
        }
        empty
    }

    fn find(&self, msg_id: &str) -> (at: Option<usize>)
        ensures
            match at {
                Some(i) => i < self.entries.len() && self.entries[i as int].msg_id@ == msg_id@,
                None => !self.holds(msg_id@),
            },
    {
        let mut i: usize = 0;
        while i < self.entries.len()
            invariant
                i <= self.entries.len(),
                forall|k: int| 0 <= k < i ==> (#[trigger] self.entries[k]).msg_id@ != msg_id@,
            decreases self.entries.len() - i,
        {
            if same_text(self.entries[i].msg_id.as_str(), msg_id) {
                return Some(i);
            }
            i = i + 1;
        }
        None
    }

    /// The request id remembered for `msg_id`, if any.
    pub fn get(&self, msg_id: &str) -> (found: Option<String>)
        ensures
            match found {
                Some(r) => self@.contains_key(msg_id@) && self@[msg_id@] == r@,
                None => !self@.contains_key(msg_id@),
            },
    {
        proof {
            use_type_invariant(self);
        }
        match self.find(msg_id) {
            Some(i) => {
                assert(self.holds(msg_id@));
                Some(self.entries[i].request_id.clone())
            },
            None => None,
        }
    }

    /// Remembers `request_id` for `msg_id`, in place of what was remembered
    /// for it before.
    pub fn insert(&mut self, msg_id: String, request_id: String)
        ensures
            final(self)@ == old(self)@.insert(msg_id@, request_id@),
    {
        proof {
            use_type_invariant(&*self);
        }
        let ghost before = *self;
        let at = self.find(msg_id.as_str());
        let mut entries: Vec<PendingEntry> = Vec::new();
        core::mem::swap(&mut self.entries, &mut entries);
        match at {
            Some(i) => {
                entries.set(i, PendingEntry { msg_id, request_id });
            },
            None => {
                entries.push(PendingEntry { msg_id, request_id });
            },
        }
        self.entries = entries;
        proof {
            let after = *self;
            let want = before@.insert(msg_id@, request_id@);
            assert forall|k: Seq<char>| after@.contains_key(k) <==> want.contains_key(k) by {
                if after.holds(k) {
                    let i = after.index_of(k);
                    if k != msg_id@ {
                        assert(before.entries[i].msg_id@ == k);
                    }
                }
                if before.holds(k) {
                    let i = before.index_of(k);
                    assert(after.entries[i].msg_id@ == k);
                }
                if k == msg_id@ {
                    if before.holds(k) {
                        let i = before.index_of(k);
                        assert(after.entries[i].msg_id@ == k);
                    } else {
                        assert(after.entries[after.entries.len() - 1].msg_id@ == k);
                    }
                }
            }
            assert forall|k: Seq<char>| after@.contains_key(k) implies after@[k] == want[k] by {
                let i = after.index_of(k);
                if k != msg_id@ {
                    let j = before.index_of(k);
                    assert(before.entries[i].msg_id@ == k);
                    assert(before.holds(k));
                    assert(i == j);
                }
            }
            assert(after@ =~= want);
        }
    }

    /// Forgets what was remembered for `msg_id`, and returns it.
    pub fn remove(&mut self, msg_id: &str) -> (removed: Option<String>)
        ensures
            final(self)@ == old(self)@.remove(msg_id@),
            match removed {
                Some(r) => old(self)@.contains_key(msg_id@) && old(self)@[msg_id@] == r@,
                None => !old(self)@.contains_key(msg_id@),
            },
    {
        proof {
            use_type_invariant(&*self);
        }
        let ghost before = *self;
        match self.find(msg_id) {
            Some(i) => {
                let mut entries: Vec<PendingEntry> = Vec::new();
                core::mem::swap(&mut self.entries, &mut entries);
                let entry = entries.remove(i);
                self.entries = entries;
                proof {
                    let after = *self;
                    let want = before@.remove(msg_id@);
                    assert(before.holds(msg_id@));
                    assert(before.index_of(msg_id@) == i);
                    assert forall|k: Seq<char>| after@.contains_key(k) <==> want.contains_key(
                        k,
                    ) by {
                        if after.holds(k) {
                            let a = after.index_of(k);
                            let b = if a < i {
                                a
                            } else {
                                a + 1
                            };
                            assert(before.entries[b].msg_id@ == k);
                        }
                        if before.holds(k) && k != msg_id@ {
                            let b = before.index_of(k);
                            let a = if b < i {
                                b
                            } else {
                                b - 1
                            };
                            assert(after.entries[a].msg_id@ == k);
                        }
                    }
                    assert forall|k: Seq<char>| after@.contains_key(k) implies after@[k]
                        == want[k] by {
                        let a = after.index_of(k);
                        let b = if a < i {
                            a
                        } else {
                            a + 1
                        };
                        assert(before.entries[b].msg_id@ == k);
                        assert(before.holds(k));
                        assert(before.index_of(k) == b);
                    }
                    assert(after@ =~= want);
                }
                Some(entry.request_id)
            },
            None => {
                assert(self@ =~= before@.remove(msg_id@));
                None
            },
        }
    }
}

/// The request id that a forwarded comm message carries: its `id` member,
/// where that is a string, or the literal of a number.
pub open spec fn request_id_of(data: Seq<MemberView>) -> Option<Seq<char>> {
    match lookup(data, "id"@) {
        Some(JsonView::String(s)) => Some(s),
        Some(JsonView::Number(n)) => Some(n.text),
        _ => None,
    }
}

/// The data of a reply as it is passed on: unchanged where it has an `id` of
/// its own, or where nothing is remembered for its parent; else with the
/// remembered request id as a new last member `id`.
pub open spec fn reply_data(
    data: Seq<MemberView>,
    parent: Option<Seq<char>>,
    pending: Map<Seq<char>, Seq<char>>,
) -> Seq<MemberView> {
    if lookup(data, "id"@) is Some {
        data
    } else {
        match parent {
            Some(p) => if pending.contains_key(p) {
                data.push(MemberView { key: "id"@, value: JsonView::String(pending[p]) })
            } else {
                data
            },
            None => data,
        }
    }
}

/// The table after a reply with the given parent: without the parent's entry.
pub open spec fn pending_after_reply(
    parent: Option<Seq<char>>,
    pending: Map<Seq<char>, Seq<char>>,
) -> Map<Seq<char>, Seq<char>> {
    match parent {
        Some(p) => pending.remove(p),
        None => pending,
    }
}

/// Reads the request id that a forwarded comm message carries.
pub fn extract_request_id(data: &JsonObject) -> (id: Option<String>)
    ensures
        match id {
            Some(s) => request_id_of(data@) == Some(s@),
            None => request_id_of(data@) is None,
        },
{
    match data.get("id") {
        Some(Json::String(s)) => Some(s.clone()),
        Some(Json::Number(n)) => Some(n.text.clone()),
        _ => None,
    }
}

/// Passes the data of a reply on: stamps it with the request id remembered
/// for its parent where it carries none, and forgets the parent's entry.
pub fn attach_comm_reply_id(
    data: JsonObject,
    parent_msg_id: Option<&str>,
    pending_comm_ids: &mut PendingComms,
) -> (out: JsonObject)
    ensures
        out@ == reply_data(data@, text_view(parent_msg_id), old(pending_comm_ids)@),
        final(pending_comm_ids)@ == pending_after_reply(
            text_view(parent_msg_id),
            old(pending_comm_ids)@,
        ),
{
    let mut data = data;
    if data.get("id").is_some() {
        if let Some(parent) = parent_msg_id {
            pending_comm_ids.remove(parent);
        }
        return data;
    }
    let parent = match parent_msg_id {
        Some(parent) => parent,
        None => {
            return data;
        },
    };
    let request_id = match pending_comm_ids.remove(parent) {
        Some(request_id) => request_id,
        None => {
            return data;
        },
    };
    proof {
        lemma_position(data@, "id"@);
    }
    data.insert("id".to_string(), Json::String(request_id));
    data
}

/// A reply to a remembered request comes out carrying the request's id, and
/// the table no longer holds the request: after remembering `request_id` for
/// `msg_id`, a reply whose parent is `msg_id` has `id` equal to `request_id`
/// where it brought none, and is passed on unchanged where it brought one;
/// either way the table is what it was before, without `msg_id`.
pub proof fn lemma_reply_carries_request_id(
    pending: Map<Seq<char>, Seq<char>>,
    msg_id: Seq<char>,
    request_id: Seq<char>,
    data: Seq<MemberView>,
)
    ensures
        ({
            let remembered = pending.insert(msg_id, request_id);
            let passed = reply_data(data, Some(msg_id), remembered);
            let left = pending_after_reply(Some(msg_id), remembered);
            &&& lookup(data, "id"@) is None ==> lookup(passed, "id"@) == Some(
                JsonView::String(request_id),
            )
            &&& lookup(data, "id"@) is Some ==> passed == data
            &&& left == pending.remove(msg_id)
            &&& pending == Map::<Seq<char>, Seq<char>>::empty() ==> left == Map::<
                Seq<char>,
                Seq<char>,
            >::empty()
        }),
{
    let remembered = pending.insert(msg_id, request_id);
    let passed = reply_data(data, Some(msg_id), remembered);
    let left = pending_after_reply(Some(msg_id), remembered);
    assert(left =~= pending.remove(msg_id));
    if pending == Map::<Seq<char>, Seq<char>>::empty() {
        assert(left =~= Map::<Seq<char>, Seq<char>>::empty());
    }
    if lookup(data, "id"@) is None {
        lemma_lookup_pushed(data, "id"@, JsonView::String(request_id));
    }
}

/// An entry answers one reply only: once a reply with parent `msg_id` has
/// been passed on, a second reply with the same parent is passed on as it
/// came, and the table stays as the first reply left it.
pub proof fn lemma_entry_used_once(
    pending: Map<Seq<char>, Seq<char>>,
    msg_id: Seq<char>,
    data: Seq<MemberView>,
)
    ensures
        ({
            let left = pending_after_reply(Some(msg_id), pending);
            &&& !left.contains_key(msg_id)
            &&& reply_data(data, Some(msg_id), left) == data
            &&& pending_after_reply(Some(msg_id), left) == left
        }),
{
    let left = pending_after_reply(Some(msg_id), pending);
    assert(pending_after_reply(Some(msg_id), left) =~= left);
}

} // verus!
