use vstd::prelude::*;
use crate::error::BuildError;
use crate::model::Artist;
use crate::store::{batch_insertable, Store};

verus! {

pub open spec fn all_ok(rs: Seq<Result<Artist, BuildError>>) -> bool {
    forall|i: int| 0 <= i < rs.len() ==> rs[i] is Ok
}

/// The error of the earliest failed build; meaningful only when one failed.
pub open spec fn first_err(rs: Seq<Result<Artist, BuildError>>) -> BuildError
    decreases rs.len(),
{
    if rs.len() == 0 {
        arbitrary()
    } else {
        match rs[0] {
            Result::Err(e) => e,
            Result::Ok(_) => first_err(rs.drop_first()),
        }
    }
}

/// The successfully built artists, in order.
pub open spec fn oks(rs: Seq<Result<Artist, BuildError>>) -> Seq<Artist>
    decreases rs.len(),
{
    if rs.len() == 0 {
        Seq::empty()
    } else {
        match rs[0] {
            Result::Ok(a) => seq![a] + oks(rs.drop_first()),
            Result::Err(_) => oks(rs.drop_first()),
        }
    }
}

proof fn lemma_first_err_at(rs: Seq<Result<Artist, BuildError>>, i: int)
    requires
        0 <= i < rs.len(),
        forall|k: int| 0 <= k < i ==> rs[k] is Ok,
        rs[i] is Err,
    ensures
        !all_ok(rs),
        rs[i] matches Err(e) && first_err(rs) == e,
    decreases i,
{
    if i > 0 {
        assert forall|k: int| 0 <= k < i - 1 implies rs.drop_first()[k] is Ok by {
            assert(rs.drop_first()[k] == rs[k + 1]);
        }
        assert(rs.drop_first()[i - 1] == rs[i]);
        lemma_first_err_at(rs.drop_first(), i - 1);
    }
}

proof fn lemma_oks_pointwise(rs: Seq<Result<Artist, BuildError>>, v: Seq<Artist>)
    requires
        rs.len() == v.len(),
        forall|i: int| 0 <= i < rs.len() ==> rs[i] == Result::<Artist, BuildError>::Ok(v[i]),
    ensures
        oks(rs) == v,
    decreases rs.len(),
{
    if rs.len() > 0 {
        assert forall|i: int| 0 <= i < rs.drop_first().len() implies rs.drop_first()[i]
            == Result::<Artist, BuildError>::Ok(v.drop_first()[i]) by {
            assert(rs.drop_first()[i] == rs[i + 1]);
            assert(v.drop_first()[i] == v[i + 1]);
        }
        lemma_oks_pointwise(rs.drop_first(), v.drop_first());
        assert(rs[0] == Result::<Artist, BuildError>::Ok(v[0]));
        assert(oks(rs) =~= v);
    }
}

/// Collect the per-artist build outcomes, failing fast: the full ordered
/// list of artists when every build succeeded, else the earliest error.
pub fn collect_artists(results: Vec<Result<Artist, BuildError>>) -> (r: Result<
    Vec<Artist>,
    BuildError,
>)
    ensures
        r is Ok <==> all_ok(results@),
        r matches Ok(v) ==> v@ == oks(results@) && v@.len() == results@.len() && (forall|i: int|
            0 <= i < results@.len() ==> results@[i] == Result::<Artist, BuildError>::Ok(v@[i])),
        r matches Err(e) ==> e == first_err(results@),
{
    let ghost r0 = results@;
    let mut rest = results;
    let mut out: Vec<Artist> = Vec::new();
    while rest.len() > 0
        invariant
            r0 == results@,
            rest@.len() <= r0.len(),
            out@.len() == r0.len() - rest@.len(),
            rest@ =~= r0.skip(r0.len() - rest@.len()),
            forall|i: int|
                0 <= i < out@.len() ==> r0[i] == Result::<Artist, BuildError>::Ok(out@[i]),
        decreases rest@.len(),
    {
        let ghost done = r0.len() - rest@.len();
        let next = rest.remove(0);
        proof {
            assert(rest@ =~= r0.skip(done + 1));
            assert(r0[done] == next);
        }
        match next {
            Result::Ok(a) => {
                out.push(a);
            },
            Result::Err(e) => {
                proof {
                    assert(r0[done] == Result::<Artist, BuildError>::Err(e));
                    lemma_first_err_at(r0, done);
                }
                return Err(e);
            },
        }
    }
    proof {
        lemma_oks_pointwise(r0, out@);
    }
    Ok(out)
}

/// Law: a successful run only adds artists to the store, so when every
/// artist already stored and every artist it adds is well formed — each
/// image group carrying exactly its three role variants under the group's
/// identifier, with the cropped and thumbnail sides within their bounds —
/// then every artist in the store afterwards is well formed too.
pub proof fn lemma_ingested_artists_well_formed(
    pre: Seq<Artist>,
    added: Seq<Artist>,
    post: Seq<Artist>,
)
    requires
        post == pre + added,
        forall|i: int| 0 <= i < pre.len() ==> pre[i].wf(),
        forall|i: int| 0 <= i < added.len() ==> added[i].wf(),
    ensures
        forall|i: int| 0 <= i < post.len() ==> post[i].wf(),
{
    assert forall|i: int| 0 <= i < post.len() implies post[i].wf() by {
        if i < pre.len() {
            assert(post[i] == pre[i]);
        } else {
            assert(post[i] == added[i - pre.len()]);
        }
    }
}

/// Drive one ingestion run: fail fast on the earliest builder error, else
/// commit every built artist in a single all-or-nothing batch. On any
/// error, of a build or of the commit, the store is exactly as it was.
pub fn ingest(store: &mut Store, results: Vec<Result<Artist, BuildError>>) -> (r: Result<
    usize,
    BuildError,
>)
    ensures
        r is Err ==> final(store)@ == old(store)@,
        r is Ok <==> all_ok(results@) && batch_insertable(old(store)@, oks(results@)),
        !all_ok(results@) ==> (r matches Err(e) && e == first_err(results@)),
        all_ok(results@) && !batch_insertable(old(store)@, oks(results@)) ==> (r matches Err(e)
            && e is DuplicateId),
        r matches Ok(n) ==> n == results@.len() && final(store)@ == old(store)@ + oks(results@)
            && (forall|i: int|
            0 <= i < results@.len() ==> results@[i] == Result::<Artist, BuildError>::Ok(
                final(store)@[old(store)@.len() + i],
            )),
{
    let ghost r0 = results@;
    match collect_artists(results) {
        Result::Ok(batch) => {
            let ghost b = batch@;
            match store.insert_all(batch) {
                Result::Ok(n) => {
                    proof {
                        assert forall|i: int| 0 <= i < r0.len() implies r0[i] == Result::<
                            Artist,
                            BuildError,
                        >::Ok(final(store)@[old(store)@.len() + i]) by {
                            assert(final(store)@[old(store)@.len() + i] == b[i]);
                        }
                    }
                    Ok(n)
                },
                Result::Err(e) => Err(e),
            }
        },
        Result::Err(e) => Err(e),
    }
}

} // verus!
