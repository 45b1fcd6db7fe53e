use vstd::prelude::*;

verus! {

/// `s` without its first occurrence of `x` (unchanged when `x` does not occur).
pub open spec fn without_first(s: Seq<u64>, x: u64) -> Seq<u64>
    decreases s.len(),
{
    if s.len() == 0 {
        s
    } else if s[0] == x {
        s.drop_first()
    } else {
        seq![s[0]] + without_first(s.drop_first(), x)
    }
}

/// The cache after a server becomes available.
pub open spec fn after_create(s: Seq<u64>, id: u64) -> Seq<u64> {
    if s.contains(id) {
        s
    } else {
        s.push(id)
    }
}

/// The cache after a server is left, or becomes unavailable (`unavailable`).
pub open spec fn after_delete(s: Seq<u64>, id: u64, unavailable: bool) -> Seq<u64> {
    if unavailable {
        s
    } else {
        without_first(s, id)
    }
}

/// No id occurs twice.
pub open spec fn no_duplicates(s: Seq<u64>) -> bool {
    forall|i: int, j: int| 0 <= i < j < s.len() ==> s[i] != s[j]
}

proof fn lemma_without_first_at(s: Seq<u64>, x: u64, i: int)
    requires
        0 <= i < s.len(),
        s[i] == x,
        forall|k: int| 0 <= k < i ==> s[k] != x,
    ensures
        without_first(s, x) == s.remove(i),
    decreases i,
{
    if i > 0 {
        lemma_without_first_at(s.drop_first(), x, i - 1);
        assert(s.remove(i) =~= seq![s[0]] + s.drop_first().remove(i - 1));
    } else {
        assert(s.remove(0) =~= s.drop_first());
    }
}

proof fn lemma_without_first_absent(s: Seq<u64>, x: u64)
    requires
        !s.contains(x),
    ensures
        without_first(s, x) == s,
    decreases s.len(),
{
    if s.len() > 0 {
        assert(s[0] != x);
        assert(!s.drop_first().contains(x)) by {
            if s.drop_first().contains(x) {
                let k = choose|k: int| 0 <= k < s.drop_first().len() && s.drop_first()[k] == x;
                assert(s[k + 1] == x);
            }
        }
        lemma_without_first_absent(s.drop_first(), x);
        assert(seq![s[0]] + s.drop_first() =~= s);
    }
}

/// Removing the first occurrence takes exactly one entry away when there is
/// one, and keeps the order of the others.
pub proof fn lemma_without_first_len(s: Seq<u64>, x: u64)
    ensures
        without_first(s, x).len() == if s.contains(x) {
            s.len() - 1
        } else {
            s.len() as int
        },
        forall|y: u64| #[trigger] without_first(s, x).contains(y) ==> s.contains(y),
    decreases s.len(),
{
    if s.len() > 0 {
        lemma_without_first_len(s.drop_first(), x);
        if s[0] != x {
            assert(s.contains(x) == s.drop_first().contains(x)) by {
                if s.contains(x) {
                    let k = choose|k: int| 0 <= k < s.len() && s[k] == x;
                    assert(s.drop_first()[k - 1] == x);
                }
                if s.drop_first().contains(x) {
                    let k = choose|k: int| 0 <= k < s.drop_first().len() && s.drop_first()[k] == x;
                    assert(s[k + 1] == x);
                }
            }
            assert forall|y: u64| #[trigger] without_first(s, x).contains(y) implies s.contains(y) by {
                let w = without_first(s, x);
                let k = choose|k: int| 0 <= k < w.len() && w[k] == y;
                if k == 0 {
                    assert(s[0] == y);
                } else {
                    assert(without_first(s.drop_first(), x)[k - 1] == y);
                    assert(without_first(s.drop_first(), x).contains(y));
                    let j = choose|j: int| 0 <= j < s.drop_first().len() && s.drop_first()[j] == y;
                    assert(s[j + 1] == y);
                }
            }
        } else {
            assert(s.contains(x)) by {
                assert(s[0] == x);
            }
            assert forall|y: u64| #[trigger] without_first(s, x).contains(y) implies s.contains(y) by {
                let k = choose|k: int| 0 <= k < s.drop_first().len() && s.drop_first()[k] == y;
                assert(s[k + 1] == y);
            }
        }
    }
}

/// A server that became available is in the cache.
pub proof fn law_create_then_present(s: Seq<u64>, id: u64)
    ensures
        after_create(s, id).contains(id),
{
    if !s.contains(id) {
        assert(s.push(id)[s.len() as int] == id);
    }
}

/// Announcing the same server twice changes nothing the second time.
pub proof fn law_create_idempotent(s: Seq<u64>, id: u64)
    ensures
        after_create(after_create(s, id), id) == after_create(s, id),
{
    law_create_then_present(s, id);
}

/// The server count grows by one exactly when the server was new.
pub proof fn law_create_count(s: Seq<u64>, id: u64)
    ensures
        after_create(s, id).len() == s.len() + if s.contains(id) {
            0int
        } else {
            1int
        },
{
}

/// The server count drops by one exactly when a left server was present;
/// an outage never changes it.
pub proof fn law_delete_count(s: Seq<u64>, id: u64, unavailable: bool)
    ensures
        after_delete(s, id, unavailable).len() == s.len() - if !unavailable && s.contains(id) {
            1int
        } else {
            0int
        },
{
    lemma_without_first_len(s, id);
}

/// An outage leaves the cache as it was.
pub proof fn law_outage_keeps_cache(s: Seq<u64>, id: u64)
    ensures
        after_delete(s, id, true) == s,
{
}

/// Joining a new server and then leaving it gives back the cache as it was.
pub proof fn law_create_then_delete(s: Seq<u64>, id: u64)
    requires
        !s.contains(id),
    ensures
        after_delete(after_create(s, id), id, false) == s,
{
    let t = s.push(id);
    assert(t[s.len() as int] == id);
    assert forall|k: int| 0 <= k < s.len() implies t[k] != id by {
        assert(t[k] == s[k]);
    }
    lemma_without_first_at(t, id, s.len() as int);
    assert(t.remove(s.len() as int) =~= s);
}

/// Joins and leaves keep every server at most once in the cache.
pub proof fn law_events_keep_no_duplicates(s: Seq<u64>, id: u64, unavailable: bool)
    requires
        no_duplicates(s),
    ensures
        no_duplicates(after_create(s, id)),
        no_duplicates(after_delete(s, id, unavailable)),
{
    if !s.contains(id) {
        let t = s.push(id);
        assert forall|i: int, j: int| 0 <= i < j < t.len() implies t[i] != t[j] by {
            if j == s.len() {
                assert(t[i] == s[i]);
            }
        }
    }
    if !unavailable {
        lemma_no_duplicates_without_first(s, id);
    }
}

proof fn lemma_no_duplicates_without_first(s: Seq<u64>, x: u64)
    requires
        no_duplicates(s),
    ensures
        no_duplicates(without_first(s, x)),
    decreases s.len(),
{
    if s.len() > 0 {
        let r = s.drop_first();
        assert(no_duplicates(r)) by {
            assert forall|i: int, j: int| 0 <= i < j < r.len() implies r[i] != r[j] by {
                assert(r[i] == s[i + 1] && r[j] == s[j + 1]);
            }
        }
        if s[0] != x {
            lemma_no_duplicates_without_first(r, x);
            lemma_without_first_len(r, x);
            let w = without_first(r, x);
            let t = seq![s[0]] + w;
            assert(!r.contains(s[0])) by {
                if r.contains(s[0]) {
                    let k = choose|k: int| 0 <= k < r.len() && r[k] == s[0];
                    assert(s[k + 1] == s[0]);
                }
            }
            assert forall|i: int, j: int| 0 <= i < j < t.len() implies t[i] != t[j] by {
                if i == 0 {
                    assert(t[j] == w[j - 1]);
                    assert(w.contains(t[j]));
                } else {
                    assert(t[i] == w[i - 1] && t[j] == w[j - 1]);
                }
            }
        }
    }
}

/// Once a server is left, it is no longer in a cache that held it at most once.
pub proof fn law_delete_then_absent(s: Seq<u64>, id: u64)
    requires
        no_duplicates(s),
    ensures
        !after_delete(s, id, false).contains(id),
    decreases s.len(),
{
    if s.len() > 0 {
        let r = s.drop_first();
        assert(no_duplicates(r)) by {
            assert forall|i: int, j: int| 0 <= i < j < r.len() implies r[i] != r[j] by {
                assert(r[i] == s[i + 1] && r[j] == s[j + 1]);
            }
        }
        if s[0] == id {
            assert(!r.contains(id)) by {
                if r.contains(id) {
                    let k = choose|k: int| 0 <= k < r.len() && r[k] == id;
                    assert(s[k + 1] == id);
                }
            }
        } else {
            law_delete_then_absent(r, id);
            let w = without_first(r, id);
            assert(!(seq![s[0]] + w).contains(id)) by {
                if (seq![s[0]] + w).contains(id) {
                    let k = choose|k: int| 0 <= k < w.len() + 1 && (seq![s[0]] + w)[k] == id;
                    assert(w[k - 1] == id);
                }
            }
        }
    }
}

/// The cache after a ready session reports `ids`: each id not yet present
/// is added, in the order reported.
pub open spec fn after_ready(s: Seq<u64>, ids: Seq<u64>) -> Seq<u64>
    decreases ids.len(),
{
    if ids.len() == 0 {
        s
    } else {
        after_create(after_ready(s, ids.drop_last()), ids.last())
    }
}

proof fn lemma_create_contains(s: Seq<u64>, id: u64, x: u64)
    ensures
        after_create(s, id).contains(x) <==> (s.contains(x) || x == id),
{
    if !s.contains(id) {
        let t = s.push(id);
        if t.contains(x) {
            let k = choose|k: int| 0 <= k < t.len() && t[k] == x;
            if k < s.len() {
                assert(s[k] == x);
            }
        }
        if s.contains(x) {
            let k = choose|k: int| 0 <= k < s.len() && s[k] == x;
            assert(t[k] == x);
        }
        if x == id {
            assert(t[s.len() as int] == x);
        }
    }
}

/// A ready session leaves every server at most once in the cache, whatever
/// it reports.
pub proof fn law_ready_keeps_no_duplicates(s: Seq<u64>, ids: Seq<u64>)
    requires
        no_duplicates(s),
    ensures
        no_duplicates(after_ready(s, ids)),
    decreases ids.len(),
{
    if ids.len() > 0 {
        law_ready_keeps_no_duplicates(s, ids.drop_last());
        law_events_keep_no_duplicates(after_ready(s, ids.drop_last()), ids.last(), true);
    }
}

/// After a ready session the cache holds exactly the servers it held and
/// the servers reported.
pub proof fn law_ready_contents(s: Seq<u64>, ids: Seq<u64>, x: u64)
    ensures
        after_ready(s, ids).contains(x) <==> (s.contains(x) || ids.contains(x)),
    decreases ids.len(),
{
    if ids.len() > 0 {
        let d = ids.drop_last();
        law_ready_contents(s, d, x);
        lemma_create_contains(after_ready(s, d), ids.last(), x);
        if ids.contains(x) {
            let k = choose|k: int| 0 <= k < ids.len() && ids[k] == x;
            if k < d.len() {
                assert(d[k] == x);
            }
        }
        if d.contains(x) {
            let k = choose|k: int| 0 <= k < d.len() && d[k] == x;
            assert(ids[k] == x);
        }
        if x == ids.last() {
            assert(ids[ids.len() - 1] == x);
        }
    }
}

/// The ids of the servers the bot is in, in the order it learnt of them.
pub struct GuildCache {
    ids: Vec<u64>,
}

impl View for GuildCache {
    type V = Seq<u64>;

    closed spec fn view(&self) -> Seq<u64> {
        self.ids@
    }
}

impl GuildCache {
    /// An empty cache.
    pub fn new() -> (c: Self)
        ensures
            c@ == Seq::<u64>::empty(),
    {
        GuildCache { ids: Vec::new() }
    }

    /// The number of entries (the server count the bot reports).
    pub fn len(&self) -> (n: usize)
        ensures
            n == self@.len(),
    {
        self.ids.len()
    }

    /// Whether the server is in the cache.
    pub fn contains(&self, id: u64) -> (b: bool)
        ensures
            b == self@.contains(id),
    {
        let mut i: usize = 0;
        while i < self.ids.len()
            invariant
                0 <= i <= self.ids@.len(),
                forall|k: int| 0 <= k < i ==> self.ids@[k] != id,
            decreases self.ids@.len() - i,
        {
            if self.ids[i] == id {
                return true;
            }
            i = i + 1;
        }
        false
    }

    /// The ids, in order.
    pub fn ids(&self) -> (v: Vec<u64>)
        ensures
            v@ == self@,
    {
        self.ids.clone()
    }

    /// A server became available: it is added unless already present.
    /// Returns whether it was added (a join to log).
    pub fn guild_create(&mut self, id: u64) -> (added: bool)
        ensures
            added == !old(self)@.contains(id),
            final(self)@ == after_create(old(self)@, id),
    {
        if self.contains(id) {
            false
        } else {
            self.ids.push(id);
            true
        }
    }

    /// A server was left, or became unavailable. An outage (`unavailable`)
    /// changes nothing; otherwise the first entry for the server is removed.
    /// Returns whether an entry was removed (a leave to log).
    #[verifier::loop_isolation(false)]
    pub fn guild_delete(&mut self, id: u64, unavailable: bool) -> (removed: bool)
        ensures
            removed == (!unavailable && old(self)@.contains(id)),
            final(self)@ == after_delete(old(self)@, id, unavailable),
    {
        if unavailable {
            return false;
        }
        let ghost before = self.ids@;
        let mut i: usize = 0;
        while i < self.ids.len()
            invariant
                self.ids@ == before,
                0 <= i <= self.ids@.len(),
                forall|k: int| 0 <= k < i ==> self.ids@[k] != id,
            decreases self.ids@.len() - i,
        {
            if self.ids[i] == id {
                proof {
                    lemma_without_first_at(self.ids@, id, i as int);
                    assert(before[i as int] == id);
                    assert(before.contains(id));
                }
                self.ids.remove(i);
                assert(self.ids@ == before.remove(i as int));
                assert(self@ == without_first(before, id));
                return true;
            }
            i = i + 1;
        }
        proof {
            assert(!before.contains(id));
            lemma_without_first_absent(self.ids@, id);
        }
        false
    }

    /// The bot's session is ready: each server it reports is added, in
    /// order, unless the cache already holds it.
    #[verifier::loop_isolation(false)]
    pub fn ready(&mut self, ids: Vec<u64>)
        ensures
            final(self)@ == after_ready(old(self)@, ids@),
    {
        let ghost before = self@;
        let mut i: usize = 0;
        assert(ids@.take(0) =~= Seq::<u64>::empty());
        while i < ids.len()
            invariant
                0 <= i <= ids@.len(),
                self@ == after_ready(before, ids@.take(i as int)),
            decreases ids@.len() - i,
        {
            assert(ids@.take(i + 1).drop_last() =~= ids@.take(i as int));
            assert(ids@.take(i + 1).last() == ids@[i as int]);
            self.guild_create(ids[i]);
            i = i + 1;
        }
        assert(ids@.take(ids@.len() as int) =~= ids@);
    }
}

} // verus!
