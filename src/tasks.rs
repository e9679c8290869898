//! Request identifiers, and the registry of the requests whose work is still
//! in flight.

use vstd::prelude::*;

verus! {

/// A request identifier as the protocol carries it: a number or a string.
#[derive(Clone, Debug, PartialEq, Eq, Hash)]
pub enum RequestKey {
    Number(i32),
    Text(String),
}

/// What a request identifier is, as a value.
pub enum RequestKeyView {
    Number(int),
    Text(Seq<char>),
}

impl View for RequestKey {
    type V = RequestKeyView;

    open spec fn view(&self) -> RequestKeyView {
        match self {
            RequestKey::Number(n) => RequestKeyView::Number(*n as int),
            RequestKey::Text(s) => RequestKeyView::Text(s@),
        }
    }
}

impl RequestKey {
    /// Whether the two identifiers are the same.
    pub fn same(&self, other: &RequestKey) -> (b: bool)
        ensures
            b == (self@ == other@),
    {
        match (self, other) {
            (RequestKey::Number(a), RequestKey::Number(b)) => *a == *b,
            (RequestKey::Text(a), RequestKey::Text(b)) => *a == *b,
            _ => false,
        }
    }

    /// A copy of this identifier.
    pub fn duplicate(&self) -> (k: RequestKey)
        ensures
            k@ == self@,
    {
        match self {
            RequestKey::Number(n) => RequestKey::Number(*n),
            RequestKey::Text(s) => RequestKey::Text(s.clone()),
        }
    }
}

/// The requests in flight, each at most once.
pub struct TaskRegistry {
    pending: Vec<RequestKey>,
    model: Ghost<Set<RequestKeyView>>,
}

impl View for TaskRegistry {
    type V = Set<RequestKeyView>;

    closed spec fn view(&self) -> Set<RequestKeyView> {
        self.model@
    }
}

impl TaskRegistry {
    pub closed spec fn wf(&self) -> bool {
        &&& forall|i: int, j: int|
            0 <= i < j < self.pending@.len() ==> #[trigger] self.pending@[i]@
                != #[trigger] self.pending@[j]@
        &&& forall|i: int|
            0 <= i < self.pending@.len() ==> self.model@.contains(#[trigger] self.pending@[i]@)
        &&& forall|k: RequestKeyView|
            #[trigger] self.model@.contains(k) ==> exists|i: int|
                0 <= i < self.pending@.len() && self.pending@[i]@ == k
    }

    pub fn new() -> (t: TaskRegistry)
        ensures
            t.wf(),
            t@ == Set::<RequestKeyView>::empty(),
    {
        TaskRegistry { pending: Vec::new(), model: Ghost(Set::empty()) }
    }

    fn find(&self, key: &RequestKey) -> (r: Option<usize>)
        requires
            self.wf(),
        ensures
            r is None <==> !self@.contains(key@),
            r matches Some(i) ==> i < self.pending@.len() && self.pending@[i as int]@ == key@,
    {
        let mut i: usize = 0;
        while i < self.pending.len()
            invariant
                self.wf(),
                i <= self.pending@.len(),
                forall|j: int| 0 <= j < i ==> self.pending@[j]@ != key@,
            decreases self.pending@.len() - i,
        {
            if self.pending[i].same(key) {
                return Some(i);
            }
            i = i + 1;
        }
        None
    }

    pub fn contains(&self, key: &RequestKey) -> (b: bool)
        requires
            self.wf(),
        ensures
            b == self@.contains(key@),
    {
        self.find(key).is_some()
    }

    /// Records `key` as in flight; one already in flight stays so, once.
    pub fn register(&mut self, key: RequestKey)
        requires
            old(self).wf(),
        ensures
            final(self).wf(),
            final(self)@ == old(self)@.insert(key@),
    {
        if self.find(&key).is_none() {
            let ghost k = key@;
            self.pending.push(key);
            self.model = Ghost(self.model@.insert(k));
            assert forall|c: RequestKeyView| #[trigger] self.model@.contains(c) implies exists|i: int|
                0 <= i < self.pending@.len() && self.pending@[i]@ == c by {
                if c == k {
                    assert(self.pending@[self.pending@.len() - 1]@ == c);
                } else {
                    let i = choose|i: int| 0 <= i < old(self).pending@.len() && old(self).pending@[i]@ == c;
                    assert(self.pending@[i]@ == c);
                }
            }
        } else {
            assert(self.model@.insert(key@) =~= self.model@);
        }
    }

    /// Takes `key` out of the registry; whether it was there comes back.
    /// Taking out one that is not there changes nothing.
    pub fn remove(&mut self, key: &RequestKey) -> (removed: bool)
        requires
            old(self).wf(),
        ensures
            final(self).wf(),
            removed == old(self)@.contains(key@),
            final(self)@ == old(self)@.remove(key@),
    {
        match self.find(key) {
            Some(i) => {
                let ghost before = self.pending@;
                self.pending.remove(i);
                self.model = Ghost(self.model@.remove(key@));
                assert forall|j: int| 0 <= j < self.pending@.len() implies #[trigger] self.pending@[j]
                    == before[if j < i { j } else { j + 1 }] by {}
                assert forall|k: RequestKeyView| #[trigger] self.model@.contains(k) implies exists|j: int|
                    0 <= j < self.pending@.len() && self.pending@[j]@ == k by {
                    let m = choose|m: int| 0 <= m < before.len() && before[m]@ == k;
                    if m < i {
                        assert(self.pending@[m] == before[m]);
                    } else {
                        assert(self.pending@[m - 1] == before[m]);
                    }
                }
                true
            },
            None => {
                assert(self.model@.remove(key@) =~= self.model@);
                false
            },
        }
    }

    /// Cancels `key`: it leaves the registry, and the answer says whether its
    /// work was still in flight and must be told to stop. Cancelling one that
    /// is not there changes nothing.
    pub fn cancel(&mut self, key: &RequestKey) -> (cancelled: bool)
        requires
            old(self).wf(),
        ensures
            final(self).wf(),
            cancelled == old(self)@.contains(key@),
            final(self)@ == old(self)@.remove(key@),
    {
        self.remove(key)
    }
}

} // verus!
