//! The table of pending requests: the identifiers whose responses are still
//! awaited. Each identifier has at most one slot, and a slot is given up at
//! most once.

use crate::json::text_is;
use vstd::prelude::*;

verus! {

/// The identifiers of the requests that wait for a response.
#[derive(Debug)]
pub struct PendingTable {
    ids: Vec<String>,
}

impl View for PendingTable {
    type V = Set<Seq<char>>;

    closed spec fn view(&self) -> Set<Seq<char>> {
        Set::new(
            |x: Seq<char>| exists|i: int| 0 <= i < self.ids@.len() && (#[trigger] self.ids@[i])@ == x,
        )
    }
}

impl PendingTable {
    /// No identifier has two slots.
    pub closed spec fn wf(&self) -> bool {
        forall|i: int, j: int|
            0 <= i < j < self.ids@.len() ==> (#[trigger] self.ids@[i])@ != (#[trigger] self.ids@[j])@
    }

    /// The empty table.
    pub fn new() -> (r: PendingTable)
        ensures
            r.wf(),
            r@ == Set::<Seq<char>>::empty(),
    {
        let r = PendingTable { ids: Vec::new() };
        proof {
            assert(r@ =~= Set::<Seq<char>>::empty());
        }
        r
    }

    fn position(&self, id: &str) -> (r: Option<usize>)
        ensures
            match r {
                Some(i) => i < self.ids@.len() && self.ids@[i as int]@ == id@,
                None => !self@.contains(id@),
            },
    {
        let mut i: usize = 0;
        while i < self.ids.len()
            invariant
                i <= self.ids@.len(),
                forall|j: int| 0 <= j < i ==> (#[trigger] self.ids@[j])@ != id@,
            decreases self.ids@.len() - i,
        {
            if text_is(&self.ids[i], id) {
                return Some(i);
            }
            i += 1;
        }
        None
    }

    /// Whether a request with this identifier is waiting.
    pub fn contains(&self, id: &str) -> (r: bool)
        ensures
            r == self@.contains(id@),
    {
        match self.position(id) {
            Some(i) => {
                proof {
                    assert(self.ids@[i as int]@ == id@);
                }
                true
            },
            None => false,
        }
    }

    /// Whether no request is waiting.
    pub fn is_empty(&self) -> (r: bool)
        ensures
            r == (self@ == Set::<Seq<char>>::empty()),
    {
        let r = self.ids.len() == 0;
        proof {
            if r {
                assert(self@ =~= Set::<Seq<char>>::empty());
            } else {
                assert(self@.contains(self.ids@[0]@));
            }
        }
        r
    }

    /// Opens the slot of an identifier. The result says whether the
    /// identifier was new; where it was not, its one slot stays.
    pub fn register(&mut self, id: String) -> (r: bool)
        requires
            old(self).wf(),
        ensures
            final(self).wf(),
            final(self)@ == old(self)@.insert(id@),
            r == !old(self)@.contains(id@),
    {
        match self.position(id.as_str()) {
            Some(i) => {
                proof {
                    assert(self.ids@[i as int]@ == id@);
                    assert(self@ =~= self@.insert(id@));
                }
                false
            },
            None => {
                let ghost before = self.ids@;
                self.ids.push(id);
                proof {
                    assert forall|x: Seq<char>| self@.contains(x) <==> old(self)@.insert(id@).contains(
                        x,
                    ) by {
                        if old(self)@.insert(id@).contains(x) {
                            if x == id@ {
                                assert(self.ids@[before.len() as int]@ == x);
                            } else {
                                let i = choose|i: int|
                                    0 <= i < before.len() && (#[trigger] before[i])@ == x;
                                assert(self.ids@[i]@ == x);
                            }
                        }
                        if self@.contains(x) {
                            let i = choose|i: int|
                                0 <= i < self.ids@.len() && (#[trigger] self.ids@[i])@ == x;
                            if i < before.len() {
                                assert(before[i]@ == x);
                            }
                        }
                    }
                    assert(self@ =~= old(self)@.insert(id@));
                    assert forall|i: int, j: int| 0 <= i < j < self.ids@.len() implies (
                    #[trigger] self.ids@[i])@ != (#[trigger] self.ids@[j])@ by {
                        if j == before.len() {
                            assert(before[i]@ != id@);
                        } else {
                            assert(before[i]@ != before[j]@);
                        }
                    }
                }
                true
            },
        }
    }

    /// Gives up the slot of an identifier. The result says whether there was
    /// one; where there was none, nothing changes.
    pub fn fulfill(&mut self, id: &str) -> (r: bool)
        requires
            old(self).wf(),
        ensures
            final(self).wf(),
            final(self)@ == old(self)@.remove(id@),
            r == old(self)@.contains(id@),
            !r ==> *final(self) == *old(self),
    {
        match self.position(id) {
            Some(at) => {
                let ghost before = self.ids@;
                self.ids.remove(at);
                proof {
                    assert(before[at as int]@ == id@);
                    assert(old(self)@.contains(id@));
                    assert forall|x: Seq<char>| self@.contains(x) <==> old(self)@.remove(id@).contains(
                        x,
                    ) by {
                        if self@.contains(x) {
                            let i = choose|i: int|
                                0 <= i < self.ids@.len() && (#[trigger] self.ids@[i])@ == x;
                            if i < at {
                                assert(before[i]@ == x);
                                assert(before[i]@ != before[at as int]@);
                            } else {
                                assert(before[i + 1]@ == x);
                                assert(before[at as int]@ != before[i + 1]@);
                            }
                        }
                        if old(self)@.remove(id@).contains(x) {
                            let i = choose|i: int|
                                0 <= i < before.len() && (#[trigger] before[i])@ == x;
                            if i < at {
                                assert(self.ids@[i]@ == x);
                            } else {
                                assert(i > at);
                                assert(self.ids@[i - 1]@ == x);
                            }
                        }
                    }
                    assert(self@ =~= old(self)@.remove(id@));
                    assert forall|i: int, j: int| 0 <= i < j < self.ids@.len() implies (
                    #[trigger] self.ids@[i])@ != (#[trigger] self.ids@[j])@ by {
                        let a = if i < at { i } else { i + 1 };
                        let b = if j < at { j } else { j + 1 };
                        assert(before[a]@ != before[b]@);
                    }
                }
                true
            },
            None => {
                proof {
                    assert(self@ =~= self@.remove(id@));
                }
                false
            },
        }
    }

    /// Gives up every slot, and returns the identifiers that were waiting,
    /// each once.
    pub fn clear_all(&mut self) -> (r: Vec<String>)
        requires
            old(self).wf(),
        ensures
            final(self).wf(),
            final(self)@ == Set::<Seq<char>>::empty(),
            forall|i: int| 0 <= i < r@.len() ==> old(self)@.contains((#[trigger] r@[i])@),
            forall|x: Seq<char>|
                old(self)@.contains(x) ==> exists|i: int| 0 <= i < r@.len() && (#[trigger] r@[i])@ == x,
            forall|i: int, j: int| 0 <= i < j < r@.len() ==> (#[trigger] r@[i])@ != (#[trigger] r@[j])@,
    {
        let mut out: Vec<String> = Vec::new();
        let ghost before = self.ids@;
        out.append(&mut self.ids);
        proof {
            assert(out@ =~= before);
            assert(self@ =~= Set::<Seq<char>>::empty());
        }
        out
    }
}

/// A slot is given up at most once: after one `fulfill` of an identifier the
/// table no longer holds it, so that a second one finds nothing and changes
/// nothing.
pub proof fn lemma_fulfill_once(table: Set<Seq<char>>, id: Seq<char>)
    ensures
        !table.remove(id).contains(id),
        table.remove(id).remove(id) == table.remove(id),
{
    assert(table.remove(id).remove(id) =~= table.remove(id));
}

/// Giving up the slot of an identifier that has none changes nothing.
pub proof fn lemma_fulfill_unknown(table: Set<Seq<char>>, id: Seq<char>)
    requires
        !table.contains(id),
    ensures
        table.remove(id) == table,
{
    assert(table.remove(id) =~= table);
}

/// Requests under different identifiers do not touch each other: giving up
/// the slot of one leaves the slot of the other as it was.
pub proof fn lemma_requests_independent(table: Set<Seq<char>>, a: Seq<char>, b: Seq<char>)
    requires
        a != b,
    ensures
        table.remove(a).contains(b) == table.contains(b),
        table.insert(a).contains(b) == table.contains(b),
        table.insert(a).insert(b).remove(a).contains(b),
        !table.insert(a).insert(b).remove(a).contains(a),
{
}

} // verus!
