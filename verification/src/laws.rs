//! Properties of the composed URL, stated over the abstract client state
//! and proved once and for all.

use vstd::prelude::*;
use crate::client::ClientView;
use crate::client::composed_url;
use crate::client::params_of;
use crate::client::with_no_params;
use crate::url::join_with;
use crate::url::query_suffix;

verus! {

/// After a clear of the location segments the composed URL has no path
/// part: it is the endpoint followed directly by `.json` and the query
/// suffix.
pub proof fn lemma_url_after_clear_locations(c: ClientView)
    ensures
        composed_url((ClientView { location: Seq::<Seq<char>>::empty(), ..c })) == c.endpoint
            + ".json"@ + query_suffix(params_of(c)),
{
    let cleared = ClientView { location: Seq::<Seq<char>>::empty(), ..c };
    assert(params_of(cleared) == params_of(c));
    assert(cleared.endpoint + join_with(cleared.location, "/"@) =~= c.endpoint);
}

/// After a full clear of the query modifiers the composed URL has no query
/// suffix: it ends at `.json`, whatever was set before.
pub proof fn lemma_url_after_clear_parameters(c: ClientView)
    ensures
        composed_url(with_no_params(c)) == c.endpoint + join_with(c.location, "/"@) + ".json"@,
{
    let cleared = with_no_params(c);
    assert(params_of(cleared) =~= Seq::<Seq<char>>::empty());
    assert(composed_url(cleared) =~= c.endpoint + join_with(c.location, "/"@) + ".json"@);
}

/// After clearing both the location segments and the query modifiers the
/// composed URL is the endpoint followed by `.json` alone.
pub proof fn lemma_url_after_both_clears(c: ClientView)
    ensures
        composed_url(with_no_params((ClientView { location: Seq::<Seq<char>>::empty(), ..c })))
            == c.endpoint + ".json"@,
{
    lemma_url_after_clear_parameters(ClientView { location: Seq::<Seq<char>>::empty(), ..c });
    assert(c.endpoint + join_with(Seq::<Seq<char>>::empty(), "/"@) =~= c.endpoint);
}

/// Setting `orderBy` and `limitToFirst` leaves the client in the same state
/// in either order, so the composed URL lists them in its own fixed order
/// whatever the order of the setter calls; the same argument applies to any
/// two distinct modifiers.
pub proof fn lemma_setter_order_immaterial(c: ClientView, ob: Seq<char>, ltf: Seq<char>)
    ensures
        (ClientView { limit_to_first: ltf, ..(ClientView { order_by: ob, ..c }) })
            == (ClientView { order_by: ob, ..(ClientView { limit_to_first: ltf, ..c }) }),
{
    assert((ClientView { limit_to_first: ltf, ..(ClientView { order_by: ob, ..c }) })
        =~= (ClientView { order_by: ob, ..(ClientView { limit_to_first: ltf, ..c }) }));
}

} // verus!
