//! The shape of a composed URL: path segments joined by `/`, query
//! parameters joined by `&` behind a single `?`.

use vstd::prelude::*;

verus! {

/// The elements of `parts` joined, with `sep` between consecutive elements.
pub open spec fn join_with(parts: Seq<Seq<char>>, sep: Seq<char>) -> Seq<char>
    decreases parts.len(),
{
    if parts.len() == 0 {
        Seq::empty()
    } else if parts.len() == 1 {
        parts[0]
    } else {
        join_with(parts.drop_last(), sep) + sep + parts.last()
    }
}

/// One `name=value` query parameter: a singleton when the value is set
/// (non-empty) and nothing when it is unset.
pub open spec fn param_if_set(name_eq: Seq<char>, value: Seq<char>) -> Seq<Seq<char>> {
    if value.len() == 0 {
        Seq::empty()
    } else {
        seq![name_eq + value]
    }
}

/// The query suffix for the given parameters: empty when none is present,
/// otherwise `?` followed by the parameters joined by `&`.
pub open spec fn query_suffix(params: Seq<Seq<char>>) -> Seq<char> {
    if params.len() == 0 {
        Seq::empty()
    } else {
        "?"@ + join_with(params, "&"@)
    }
}

/// Appending one more part extends the joined sequence by the separator and
/// that part; the first part arrives without a separator.  This is how each
/// appended location segment shows up in the composed path.
pub proof fn lemma_join_with_push(parts: Seq<Seq<char>>, sep: Seq<char>, last: Seq<char>)
    ensures
        parts.len() == 0 ==> join_with(parts.push(last), sep) == last,
        parts.len() > 0 ==> join_with(parts.push(last), sep) == join_with(parts, sep) + sep
            + last,
{
    let whole = parts.push(last);
    assert(whole.drop_last() =~= parts);
    if parts.len() == 0 {
        assert(join_with(whole, sep) == whole[0]);
    }
}

/// Appending one more parameter extends the query suffix by that parameter,
/// introduced with `?` when it is the first present one and with `&`
/// otherwise.
pub proof fn lemma_query_suffix_push(params: Seq<Seq<char>>, p: Seq<char>)
    ensures
        params.len() == 0 ==> query_suffix(params.push(p)) == query_suffix(params) + "?"@ + p,
        params.len() > 0 ==> query_suffix(params.push(p)) == query_suffix(params) + "&"@ + p,
{
    lemma_join_with_push(params, "&"@, p);
    if params.len() == 0 {
        assert(query_suffix(params.push(p)) =~= query_suffix(params) + "?"@ + p);
    } else {
        assert(query_suffix(params.push(p)) =~= query_suffix(params) + "&"@ + p);
    }
}

/// Concatenating a parameter set that may hold at most one element is either
/// a no-op or a push.
pub proof fn lemma_params_concat_opt(params: Seq<Seq<char>>, name_eq: Seq<char>, value: Seq<char>)
    ensures
        value.len() == 0 ==> params + param_if_set(name_eq, value) == params,
        value.len() > 0 ==> params + param_if_set(name_eq, value) == params.push(name_eq + value),
{
    if value.len() == 0 {
        assert(params + param_if_set(name_eq, value) =~= params);
    } else {
        assert(params + param_if_set(name_eq, value) =~= params.push(name_eq + value));
    }
}

} // verus!
