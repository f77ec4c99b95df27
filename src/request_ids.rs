use vstd::prelude::*;
use vstd::set_lib::{lemma_int_range, lemma_len_subset, set_int_range};

use crate::error::SimConnectError;

verus! {

/// The map from category key to request id that a table of entries stands for.
///
/// A later entry overrides an earlier one with the same key; a well-formed
/// table has no two such entries.
pub open spec fn table(s: Seq<(String, u32)>) -> Map<Seq<char>, u32>
    decreases s.len(),
{
    if s.len() == 0 {
        Map::empty()
    } else {
        table(s.drop_last()).insert(s.last().0@, s.last().1)
    }
}

/// No category key occurs twice.
pub open spec fn keys_unique(s: Seq<(String, u32)>) -> bool {
    forall|i: int, j: int| 0 <= i < j < s.len() ==> s[i].0@ != s[j].0@
}

/// No request id occurs twice.
pub open spec fn ids_unique(s: Seq<(String, u32)>) -> bool {
    forall|i: int, j: int| 0 <= i < j < s.len() ==> s[i].1 != s[j].1
}

/// Some entry of `s` holds `id`.
pub open spec fn entry_holds(s: Seq<(String, u32)>, id: u32) -> bool {
    exists|i: int| 0 <= i < s.len() && s[i].1 == id
}

/// `id` is held by some live category of `m`.
pub open spec fn id_in_use(m: Map<Seq<char>, u32>, id: u32) -> bool {
    exists|k: Seq<char>| m.contains_key(k) && m[k] == id
}

/// No two live categories of `m` hold the same id.
pub open spec fn ids_distinct(m: Map<Seq<char>, u32>) -> bool {
    forall|k1: Seq<char>, k2: Seq<char>|
        m.contains_key(k1) && m.contains_key(k2) && k1 != k2 ==> m[k1] != m[k2]
}

/// `id` is the smallest id that no live category of `m` holds.
pub open spec fn smallest_free_id(m: Map<Seq<char>, u32>, id: u32) -> bool {
    &&& !id_in_use(m, id)
    &&& forall|j: u32| j < id ==> #[trigger] id_in_use(m, j)
}

/// `r` is what allocating an id for `category` returns on the live ids
/// `before`, and `after` the live ids that it leaves: a refusal that changes
/// nothing where the category already holds an id, else the smallest free id,
/// now held by the category.
pub open spec fn allocation(
    before: Map<Seq<char>, u32>,
    category: Seq<char>,
    r: Result<u32, SimConnectError>,
    after: Map<Seq<char>, u32>,
) -> bool {
    match r {
        Err(e) => {
            &&& before.contains_key(category)
            &&& after == before
            &&& e matches SimConnectError::ObjectAlreadyRegistered(k) && k@ == category
        },
        Ok(id) => {
            &&& !before.contains_key(category)
            &&& smallest_free_id(before, id)
            &&& after == before.insert(category, id)
        },
    }
}

proof fn lemma_table_dom(s: Seq<(String, u32)>, k: Seq<char>)
    ensures
        table(s).contains_key(k) <==> exists|i: int| 0 <= i < s.len() && s[i].0@ == k,
    decreases s.len(),
{
    if s.len() > 0 {
        let p = s.drop_last();
        lemma_table_dom(p, k);
        if table(p).contains_key(k) {
            let i = choose|i: int| 0 <= i < p.len() && p[i].0@ == k;
            assert(s[i] == p[i]);
        }
        if exists|i: int| 0 <= i < s.len() && s[i].0@ == k {
            let i = choose|i: int| 0 <= i < s.len() && s[i].0@ == k;
            if i < s.len() - 1 {
                assert(s[i] == p[i]);
            }
        }
    }
}

proof fn lemma_table_index(s: Seq<(String, u32)>, i: int)
    requires
        keys_unique(s),
        0 <= i < s.len(),
    ensures
        table(s).contains_key(s[i].0@),
        table(s)[s[i].0@] == s[i].1,
    decreases s.len(),
{
    if i < s.len() - 1 {
        let p = s.drop_last();
        assert(keys_unique(p));
        assert(p[i] == s[i]);
        lemma_table_index(p, i);
    }
}

proof fn lemma_table_len(s: Seq<(String, u32)>)
    requires
        keys_unique(s),
    ensures
        table(s).dom().finite(),
        table(s).dom().len() == s.len(),
    decreases s.len(),
{
    if s.len() > 0 {
        let p = s.drop_last();
        assert(keys_unique(p));
        lemma_table_len(p);
        lemma_table_dom(p, s.last().0@);
        if table(p).contains_key(s.last().0@) {
            let i = choose|i: int| 0 <= i < p.len() && p[i].0@ == s.last().0@;
            assert(s[i] == p[i]);
        }
    }
}

proof fn lemma_table_remove(s: Seq<(String, u32)>, i: int)
    requires
        keys_unique(s),
        0 <= i < s.len(),
    ensures
        table(s.remove(i)) =~= table(s).remove(s[i].0@),
    decreases s.len(),
{
    let p = s.drop_last();
    let t = s.remove(i);
    if i == s.len() - 1 {
        assert(t =~= p);
        lemma_table_dom(p, s[i].0@);
        if table(p).contains_key(s[i].0@) {
            let j = choose|j: int| 0 <= j < p.len() && p[j].0@ == s[i].0@;
            assert(s[j] == p[j]);
        }
    } else {
        assert(keys_unique(p));
        assert(t.drop_last() =~= p.remove(i));
        assert(t.last() == s.last());
        assert(p[i] == s[i]);
        lemma_table_remove(p, i);
    }
}

/// With unique keys, an id is held by some entry exactly when the table maps
/// some category to it.
proof fn lemma_table_ids(s: Seq<(String, u32)>, id: u32)
    requires
        keys_unique(s),
    ensures
        id_in_use(table(s), id) <==> entry_holds(s, id),
{
    if entry_holds(s, id) {
        let i = choose|i: int| 0 <= i < s.len() && s[i].1 == id;
        lemma_table_index(s, i);
    }
    if id_in_use(table(s), id) {
        let k = choose|k: Seq<char>| table(s).contains_key(k) && table(s)[k] == id;
        lemma_table_dom(s, k);
        let i = choose|i: int| 0 <= i < s.len() && s[i].0@ == k;
        lemma_table_index(s, i);
    }
}

/// The request ids of a session, each tagged with the category key that
/// holds it.
pub struct SimConnect {
    requests: Vec<(String, u32)>,
}

impl View for SimConnect {
    type V = Map<Seq<char>, u32>;

    closed spec fn view(&self) -> Map<Seq<char>, u32> {
        table(self.requests@)
    }
}

impl SimConnect {
    /// The session's bookkeeping is consistent: one entry per category, one
    /// category per id.
    pub closed spec fn wf(&self) -> bool {
        keys_unique(self.requests@) && ids_unique(self.requests@)
    }

    /// A session with no live request ids.
    pub fn new() -> (r: SimConnect)
        ensures
            r.wf(),
            r@ == Map::<Seq<char>, u32>::empty(),
    {
        SimConnect { requests: Vec::new() }
    }

    /// The number of live request ids.
    pub fn live_count(&self) -> (r: usize)
        requires
            self.wf(),
        ensures
            r == self@.len(),
    {
        proof {
            lemma_table_len(self.requests@);
        }
        self.requests.len()
    }

    /// The id that `category` holds, if any.
    pub fn request_id_of(&self, category: &str) -> (r: Option<u32>)
        requires
            self.wf(),
        ensures
            r == (if self@.contains_key(category@) {
                Some(self@[category@])
            } else {
                None
            }),
    {
        match self.position_of(category) {
            Some(i) => {
                proof {
                    lemma_table_index(self.requests@, i as int);
                }
                Some(self.requests[i].1)
            },
            None => None,
        }
    }

    /// Where in the table `category` stands, if it does.
    fn position_of(&self, category: &str) -> (r: Option<usize>)
        requires
            self.wf(),
        ensures
            self@.contains_key(category@) <==> r is Some,
            r matches Some(i) ==> i < self.requests@.len() && self.requests@[i as int].0@
                == category@,
    {
        let key = String::from_str(category);
        let mut i: usize = 0;
        while i < self.requests.len()
            invariant
                i <= self.requests@.len(),
                key@ == category@,
                forall|j: int| 0 <= j < i ==> self.requests@[j].0@ != category@,
            decreases self.requests@.len() - i,
        {
            if self.requests[i].0 == key {
                proof {
                    lemma_table_dom(self.requests@, category@);
                }
                return Some(i);
            }
            i += 1;
        }
        proof {
            lemma_table_dom(self.requests@, category@);
        }
        None
    }

    /// Whether some live category holds `id`.
    fn id_taken(&self, id: u32) -> (r: bool)
        requires
            self.wf(),
        ensures
            r == entry_holds(self.requests@, id),
    {
        let mut i: usize = 0;
        while i < self.requests.len()
            invariant
                i <= self.requests@.len(),
                forall|j: int| 0 <= j < i ==> self.requests@[j].1 != id,
            decreases self.requests@.len() - i,
        {
            if self.requests[i].1 == id {
                return true;
            }
            i += 1;
        }
        false
    }

    /// Allocates a request id for `category`: the smallest id that no live
    /// category holds. Fails, changing nothing, where `category` already holds
    /// one.
    pub fn new_request_id(&mut self, category: String) -> (r: Result<u32, SimConnectError>)
        requires
            old(self).wf(),
            old(self)@.len() < u32::MAX,
        ensures
            final(self).wf(),
            allocation(old(self)@, category@, r, final(self)@),
    {
        if self.position_of(category.as_str()).is_some() {
            return Err(SimConnectError::ObjectAlreadyRegistered(category));
        }
        let ghost s = self.requests@;
        proof {
            lemma_table_len(s);
        }
        let mut candidate: u32 = 0;
        loop
            invariant
                self.requests@ == s,
                self.wf(),
                s.len() < u32::MAX,
                candidate <= s.len(),
                forall|j: u32| j < candidate ==> #[trigger] entry_holds(s, j),
            ensures
                !entry_holds(s, candidate),
            decreases s.len() - candidate,
        {
            if !self.id_taken(candidate) {
                break;
            }
            proof {
                let ids = s.map_values(|e: (String, u32)| e.1 as int).to_set();
                let used = set_int_range(0, candidate as int + 1);
                assert forall|j: int| used.contains(j) implies ids.contains(j) by {
                    assert(entry_holds(s, j as u32));
                    let i = choose|i: int| 0 <= i < s.len() && s[i].1 == j as u32;
                    assert(s.map_values(|e: (String, u32)| e.1 as int)[i] == j);
                }
                lemma_int_range(0, candidate as int + 1);
                s.map_values(|e: (String, u32)| e.1 as int).lemma_cardinality_of_set();
                lemma_len_subset(used, ids);
            }
            candidate += 1;
        }
        proof {
            lemma_table_ids(s, candidate);
            lemma_table_dom(s, category@);
            assert forall|j: u32| j < candidate implies id_in_use(table(s), j) by {
                lemma_table_ids(s, j);
            }
        }
        self.requests.push((category, candidate));
        proof {
            let t = self.requests@;
            assert(t.drop_last() =~= s);
            assert(t[s.len() as int] == (category, candidate));
            assert forall|i: int, j: int| 0 <= i < j < t.len() implies t[i].0@ != t[j].0@ && t[i].1
                != t[j].1 by {
                assert(t[i] == s[i]);
                if j < s.len() {
                    assert(t[j] == s[j]);
                } else {
                    assert(!(0 <= i < s.len() && s[i].0@ == category@));
                    assert(!(0 <= i < s.len() && s[i].1 == candidate));
                }
            }
            assert(table(t) == table(s).insert(category@, candidate));
        }
        Ok(candidate)
    }

    /// Releases the id that `category` holds; where it holds none, nothing
    /// changes.
    pub fn unregister_request_id_by_type_name(&mut self, category: &str)
        requires
            old(self).wf(),
        ensures
            final(self).wf(),
            final(self)@ == old(self)@.remove(category@),
            !old(self)@.contains_key(category@) ==> final(self)@ == old(self)@,
    {
        match self.position_of(category) {
            Some(i) => {
                let ghost s = self.requests@;
                proof {
                    lemma_table_remove(s, i as int);
                }
                self.requests.remove(i);
                assert(self.requests@ == s.remove(i as int));
            },
            None => {
                assert(self@.remove(category@) =~= self@);
            },
        }
    }
}

/// No two live categories of a session share a request id, and each live
/// category holds exactly one id, whatever sequence of allocations and
/// releases led to the session.
pub proof fn lemma_live_ids_unique(session: &SimConnect)
    requires
        session.wf(),
    ensures
        ids_distinct(session@),
{
    let s = session.requests@;
    assert forall|k1: Seq<char>, k2: Seq<char>|
        session@.contains_key(k1) && session@.contains_key(k2) && k1 != k2 implies session@[k1]
        != session@[k2] by {
        lemma_table_dom(s, k1);
        lemma_table_dom(s, k2);
        let i = choose|i: int| 0 <= i < s.len() && s[i].0@ == k1;
        let j = choose|j: int| 0 <= j < s.len() && s[j].0@ == k2;
        lemma_table_index(s, i);
        lemma_table_index(s, j);
    }
}

/// Every allocation for a category that already holds an id is refused with
/// `ObjectAlreadyRegistered` and changes nothing, so that however many times it
/// is tried while the id is held, no further id is handed out for it.
pub proof fn lemma_guard_held_rejects(
    before: Map<Seq<char>, u32>,
    after: Map<Seq<char>, u32>,
    category: Seq<char>,
    r: Result<u32, SimConnectError>,
)
    requires
        before.contains_key(category),
        allocation(before, category, r, after),
    ensures
        r matches Err(SimConnectError::ObjectAlreadyRegistered(k)) && k@ == category,
        after == before,
{
}

/// The live ids of a well-formed session are finitely many.
pub proof fn lemma_view_finite(session: &SimConnect)
    requires
        session.wf(),
    ensures
        session@.dom().finite(),
{
    lemma_table_len(session.requests@);
}

/// Once an allocation for `category` succeeded, a second one with no release
/// in between is refused with `ObjectAlreadyRegistered` and changes nothing.
pub proof fn lemma_second_allocation_rejected(
    m0: Map<Seq<char>, u32>,
    m1: Map<Seq<char>, u32>,
    m2: Map<Seq<char>, u32>,
    category: Seq<char>,
    first: Result<u32, SimConnectError>,
    second: Result<u32, SimConnectError>,
)
    requires
        allocation(m0, category, first, m1),
        first is Ok,
        allocation(m1, category, second, m2),
    ensures
        second matches Err(SimConnectError::ObjectAlreadyRegistered(k)) && k@ == category,
        m2 == m1,
{
}

} // verus!
