use vstd::prelude::*;
use crate::error::BuildError;
use crate::model::Artist;

verus! {

/// Row `i` carries the identifier.
pub open spec fn id_at(s: Seq<Artist>, id: Seq<char>, i: int) -> bool {
    0 <= i < s.len() && s[i].id@ == id
}

pub open spec fn contains_id(s: Seq<Artist>, id: Seq<char>) -> bool {
    exists|i: int| id_at(s, id, i)
}

pub open spec fn ids_distinct(s: Seq<Artist>) -> bool {
    forall|i: int, j: int| 0 <= i < j < s.len() ==> s[i].id@ != s[j].id@
}

/// A batch may be committed when its identifiers are pairwise distinct and
/// none of them is already present.
pub open spec fn batch_insertable(pre: Seq<Artist>, batch: Seq<Artist>) -> bool {
    ids_distinct(batch) && (forall|i: int|
        0 <= i < batch.len() ==> !contains_id(pre, batch[i].id@))
}

fn str_eq(a: &str, b: &str) -> (r: bool)
    ensures
        r == (a@ == b@),
{
    let n = a.unicode_len();
    let m = b.unicode_len();
    if n != m {
        return false;
    }
    let mut i: usize = 0;
    while i < n
        invariant
            0 <= i <= n,
            n == a@.len(),
            n == b@.len(),
            forall|k: int| 0 <= k < i ==> a@[k] == b@[k],
        decreases n - i,
    {
        if a.get_char(i) != b.get_char(i) {
            return false;
        }
        i = i + 1;
    }
    proof {
        assert(a@ =~= b@);
    }
    true
}

/// The primary-key store as the pipeline consumes it: artists indexed by
/// their identifier, a full scan, a point lookup, and a batch insert that
/// applies completely or not at all.
pub struct Store {
    rows: Vec<Artist>,
}

impl View for Store {
    type V = Seq<Artist>;

    closed spec fn view(&self) -> Seq<Artist> {
        self.rows@
    }
}

impl Store {
    pub fn new() -> (s: Store)
        ensures
            s@ == Seq::<Artist>::empty(),
    {
        Store { rows: Vec::new() }
    }

    /// All stored artists, in insertion order.
    pub fn scan_all(&self) -> (r: &Vec<Artist>)
        ensures
            r@ == self@,
    {
        &self.rows
    }

    pub fn count(&self) -> (n: usize)
        ensures
            n == self@.len(),
    {
        self.rows.len()
    }

    /// Point lookup by identifier; `None` exactly when no row carries it,
    /// as a distinct outcome, never a failure.
    pub fn get_by_id(&self, id: &str) -> (r: Option<&Artist>)
        ensures
            r is Some <==> contains_id(self@, id@),
            r matches Some(a) ==> a.id@ == id@ && exists|i: int|
                id_at(self@, id@, i) && *a == self@[i],
    {
        let n = self.rows.len();
        let mut i: usize = 0;
        while i < n
            invariant
                0 <= i <= n,
                n == self@.len(),
                forall|k: int| 0 <= k < i ==> self@[k].id@ != id@,
            decreases n - i,
        {
            if str_eq(self.rows[i].id.as_str(), id) {
                proof {
                    assert(id_at(self@, id@, i as int));
                }
                return Some(&self.rows[i]);
            }
            i = i + 1;
        }
        None
    }

    /// Insert the whole batch or nothing: the all-or-nothing commit the
    /// pipeline relies on. An identifier repeated in the batch or already
    /// stored fails the whole insert and leaves the store unchanged.
    pub fn insert_all(&mut self, batch: Vec<Artist>) -> (r: Result<usize, BuildError>)
        ensures
            r is Ok <==> batch_insertable(old(self)@, batch@),
            r matches Ok(n) ==> n == batch@.len() && final(self)@ == old(self)@ + batch@,
            r is Err ==> final(self)@ == old(self)@,
            r matches Err(e) ==> e is DuplicateId,
            ids_distinct(old(self)@) && r is Ok ==> ids_distinct(final(self)@),
    {
        let m = batch.len();
        let mut j: usize = 0;
        while j < m
            invariant
                0 <= j <= m,
                m == batch@.len(),
                forall|x: int, y: int| 0 <= x < y < j ==> batch@[x].id@ != batch@[y].id@,
                forall|x: int| 0 <= x < j ==> !contains_id(self@, batch@[x].id@),
            decreases m - j,
        {
            let mut x: usize = 0;
            while x < j
                invariant
                    0 <= x <= j < m,
                    m == batch@.len(),
                    forall|k: int| 0 <= k < x ==> batch@[k].id@ != batch@[j as int].id@,
                decreases j - x,
            {
                if str_eq(batch[x].id.as_str(), batch[j].id.as_str()) {
                    return Err(BuildError::DuplicateId { id: batch[j].id.clone() });
                }
                x = x + 1;
            }
            if self.get_by_id(batch[j].id.as_str()).is_some() {
                return Err(BuildError::DuplicateId { id: batch[j].id.clone() });
            }
            j = j + 1;
        }
        let ghost pre = self@;
        let ghost b0 = batch@;
        let mut rest = batch;
        while rest.len() > 0
            invariant
                rest@.len() <= b0.len(),
                self@ =~= pre + b0.take(b0.len() - rest@.len()),
                rest@ =~= b0.skip(b0.len() - rest@.len()),
            decreases rest@.len(),
        {
            let ghost done = b0.len() - rest@.len();
            let a = rest.remove(0);
            self.rows.push(a);
            proof {
                assert(b0.take(done + 1) =~= b0.take(done).push(b0[done]));
                assert(rest@ =~= b0.skip(done + 1));
            }
        }
        proof {
            assert(self@ =~= pre + b0);
            if ids_distinct(pre) {
                assert forall|i: int, k: int| 0 <= i < k < self@.len() implies self@[i].id@
                    != self@[k].id@ by {
                    if i >= pre.len() {
                        assert(self@[i] == b0[i - pre.len()]);
                        assert(self@[k] == b0[k - pre.len()]);
                    } else if k >= pre.len() {
                        assert(self@[k] == b0[k - pre.len()]);
                        assert(!contains_id(pre, b0[k - pre.len()].id@));
                        assert(id_at(pre, self@[i].id@, i));
                    }
                }
            }
        }
        Ok(m)
    }

    /// Law: after an insertable batch is committed on a store with distinct
    /// identifiers, every inserted identifier is carried by exactly the
    /// artist it was inserted with, fields intact, and identifiers stay
    /// distinct.
    pub proof fn lemma_lookup_after_insert(pre: Seq<Artist>, batch: Seq<Artist>, j: int)
        requires
            batch_insertable(pre, batch),
            ids_distinct(pre),
            0 <= j < batch.len(),
        ensures
            contains_id(pre + batch, batch[j].id@),
            forall|i: int| id_at(pre + batch, batch[j].id@, i) ==> (pre + batch)[i] == batch[j],
            ids_distinct(pre + batch),
    {
        let post = pre + batch;
        let id = batch[j].id@;
        assert(post[pre.len() + j] == batch[j]);
        assert(id_at(post, id, pre.len() + j));
        assert forall|i: int| id_at(post, id, i) implies post[i] == batch[j] by {
            if i < pre.len() {
                assert(id_at(pre, id, i));
                assert(!contains_id(pre, batch[j].id@));
            } else {
                assert(post[i] == batch[i - pre.len()]);
                if i - pre.len() < j {
                    assert(batch[i - pre.len()].id@ != batch[j].id@);
                } else if i - pre.len() > j {
                    assert(batch[j].id@ != batch[i - pre.len()].id@);
                }
            }
        }
        assert forall|i: int, k: int| 0 <= i < k < post.len() implies post[i].id@
            != post[k].id@ by {
            if i >= pre.len() {
                assert(post[i] == batch[i - pre.len()]);
                assert(post[k] == batch[k - pre.len()]);
            } else if k >= pre.len() {
                assert(post[k] == batch[k - pre.len()]);
                assert(!contains_id(pre, batch[k - pre.len()].id@));
                assert(id_at(pre, post[i].id@, i));
            }
        }
    }
}

} // verus!
