//! Decisions about environment-variable lookups.
//!
//! The process environment is read and parsed at the program's edge; the
//! functions here take the outcome of that lookup as a plain value and
//! decide what the caller receives: the parsed value, a default of `None`
//! for an optional variable that is unset, or the error naming the
//! variable.

use vstd::prelude::*;

verus! {

/// Why an environment variable could not be used: it was set to text that
/// does not parse as the wanted type, or it was required but not set. Each
/// variant names the variable.
#[derive(Clone, Debug)]
pub enum EnvError {
    InvalidValue(&'static str),
    Missing(&'static str),
}

/// Decides the outcome of an optional environment variable.
///
/// `lookup` is the edge's report: `None` when the variable is unset,
/// `Some(None)` when it is set but its text does not parse, and
/// `Some(Some(t))` when it parses to `t`. An unset optional variable is no
/// error; unparseable text is rejected naming the variable.
pub fn service_util_opt_env<T>(var_name: &'static str, lookup: Option<Option<T>>) -> (r: Result<
    Option<T>,
    EnvError,
>)
    ensures
        lookup is None ==> (r matches Ok(v) && v is None),
        lookup matches Some(None) ==> (r matches Err(e) && e matches EnvError::InvalidValue(n)
            && n == var_name),
        lookup matches Some(Some(t)) ==> (r matches Ok(v) && v == Some(t)),
{
    match lookup {
        None => Ok(None),
        Some(None) => Err(EnvError::InvalidValue(var_name)),
        Some(Some(t)) => Ok(Some(t)),
    }
}

/// Decides the outcome of a required environment variable.
///
/// `lookup` is the edge's report, as for `service_util_opt_env`. A missing
/// required variable and unparseable text are both errors naming the
/// variable; otherwise the parsed value is returned.
pub fn service_util_env<T>(var_name: &'static str, lookup: Option<Option<T>>) -> (r: Result<
    T,
    EnvError,
>)
    ensures
        lookup is None ==> (r matches Err(e) && e matches EnvError::Missing(n) && n == var_name),
        lookup matches Some(None) ==> (r matches Err(e) && e matches EnvError::InvalidValue(n)
            && n == var_name),
        lookup matches Some(Some(t)) ==> (r matches Ok(v) && v == t),
{
    match service_util_opt_env(var_name, lookup) {
        Ok(Some(t)) => Ok(t),
        Ok(None) => Err(EnvError::Missing(var_name)),
        Err(e) => Err(e),
    }
}

/// The comma-joined spelling of a list of pieces.
pub open spec fn join_commas(ps: Seq<Seq<u8>>) -> Seq<u8>
    decreases ps.len(),
{
    if ps.len() == 0 {
        Seq::empty()
    } else if ps.len() == 1 {
        ps[0]
    } else {
        ps[0] + seq![0x2cu8] + join_commas(ps.skip(1))
    }
}

/// No byte of the piece is a comma.
pub open spec fn comma_free(p: Seq<u8>) -> bool {
    forall|i: int| 0 <= i < p.len() ==> p[i] != 0x2c
}

/// Appending a piece appends a comma and the piece, unless it is the
/// first.
pub proof fn lemma_join_commas_push(ps: Seq<Seq<u8>>, x: Seq<u8>)
    ensures
        join_commas(ps.push(x)) == if ps.len() == 0 {
            x
        } else {
            join_commas(ps) + seq![0x2cu8] + x
        },
    decreases ps.len(),
{
    if ps.len() == 0 {
        assert(ps.push(x) =~= seq![x]);
    } else if ps.len() == 1 {
        assert(ps.push(x).skip(1) =~= seq![x]);
        assert(seq![x].len() == 1);
        assert(join_commas(seq![x]) == x);
        assert((ps.push(x))[0] == ps[0]);
        assert(join_commas(ps.push(x)) == ps[0] + seq![0x2cu8] + x);
    } else {
        assert(ps.push(x).skip(1) =~= ps.skip(1).push(x));
        lemma_join_commas_push(ps.skip(1), x);
        assert(ps[0] + seq![0x2cu8] + (join_commas(ps.skip(1)) + seq![0x2cu8] + x) =~= (ps[0]
            + seq![0x2cu8] + join_commas(ps.skip(1))) + seq![0x2cu8] + x);
    }
}

/// Splits a comma-separated list of allowed origins into its pieces, in
/// order: the pieces are exactly the maximal comma-free runs, and joining
/// them back with commas reproduces the input. An empty input has one
/// empty piece; converting each piece into a header value is the edge's
/// business.
pub fn parse_allowed_origins(allowed_origins: &[u8]) -> (r: Vec<Vec<u8>>)
    ensures
        r@.len() >= 1,
        join_commas(r.deep_view()) == allowed_origins@,
        forall|i: int| 0 <= i < r@.len() ==> comma_free(#[trigger] r@[i]@),
{
    let n = allowed_origins.len();
    let mut r: Vec<Vec<u8>> = Vec::new();
    let mut cur: Vec<u8> = Vec::new();
    for i in 0..n
        invariant
            n == allowed_origins@.len(),
            comma_free(cur@),
            forall|m: int| 0 <= m < r@.len() ==> comma_free(#[trigger] r@[m]@),
            join_commas(r.deep_view().push(cur@)) == allowed_origins@.take(i as int),
    {
        let ghost rsv = r.deep_view();
        let ghost curv = cur@;
        let b = allowed_origins[i];
        if b == 0x2c {
            r.push(cur);
            cur = Vec::new();
            proof {
                assert(r.deep_view() =~~= rsv.push(curv));
                assert(r.deep_view().push(cur@) =~~= rsv.push(curv).push(Seq::<u8>::empty()));
                lemma_join_commas_push(rsv, curv);
                lemma_join_commas_push(rsv.push(curv), Seq::<u8>::empty());
                assert(join_commas(rsv.push(curv)) + seq![0x2cu8] + Seq::<u8>::empty()
                    =~= allowed_origins@.take(i as int) + seq![allowed_origins@[i as int]]);
                assert(allowed_origins@.take(i as int) + seq![allowed_origins@[i as int]]
                    =~= allowed_origins@.take(i as int + 1));
            }
        } else {
            cur.push(b);
            proof {
                assert(r.deep_view() =~~= rsv);
                lemma_join_commas_push(rsv, curv);
                lemma_join_commas_push(rsv, curv.push(b));
                if rsv.len() == 0 {
                    assert(curv.push(b) =~= allowed_origins@.take(i as int + 1));
                } else {
                    assert(join_commas(rsv) + seq![0x2cu8] + curv.push(b) =~= (join_commas(rsv)
                        + seq![0x2cu8] + curv) + seq![allowed_origins@[i as int]]);
                    assert(allowed_origins@.take(i as int) + seq![allowed_origins@[i as int]]
                        =~= allowed_origins@.take(i as int + 1));
                }
            }
        }
    }
    let ghost rsv = r.deep_view();
    let ghost curv = cur@;
    r.push(cur);
    proof {
        assert(r.deep_view() =~~= rsv.push(curv));
        assert(allowed_origins@.take(n as int) =~= allowed_origins@);
    }
    r
}

} // verus!
