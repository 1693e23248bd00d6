//! The client itself: a validated endpoint, an ordered sequence of location
//! segments, and the six query modifiers, together with the URL composed
//! from them and the request builder of each verb operation.

use vstd::prelude::*;
use crate::endpoint::endpoint_accepted;
use crate::endpoint::endpoint_is_match;
use crate::http::HttpMethod;
use crate::http::HttpRequest;
use crate::url::join_with;
use crate::url::lemma_join_with_push;
use crate::url::lemma_params_concat_opt;
use crate::url::lemma_query_suffix_push;
use crate::url::param_if_set;
use crate::url::query_suffix;

verus! {

/// A failure of the client: the endpoint was rejected at construction, a
/// verb operation's exchange could not be completed, or a read exchange
/// completed with a body that could not be decoded as text.
#[derive(Clone, Copy, Debug, PartialEq, Eq, Structural)]
pub enum FirebaseError {
    InvalidEndpoint,
    TransportError,
    BodyReadError,
}

/// The abstract state of a client.  A modifier whose value is the empty
/// sequence is unset and contributes nothing to the composed URL.
#[verifier::ext_equal]
pub struct ClientView {
    pub endpoint: Seq<char>,
    pub location: Seq<Seq<char>>,
    pub order_by: Seq<char>,
    pub limit_to_first: Seq<char>,
    pub limit_to_last: Seq<char>,
    pub start_at: Seq<char>,
    pub end_at: Seq<char>,
    pub equal_to: Seq<char>,
}

/// The query parameters that are set, as `name=value` strings, in the fixed
/// order `orderBy`, `limitToFirst`, `limitToLast`, `startAt`, `endAt`,
/// `equalTo` — whatever the order of the setter calls that put them there.
pub open spec fn params_of(c: ClientView) -> Seq<Seq<char>> {
    param_if_set("orderBy="@, c.order_by) + param_if_set("limitToFirst="@, c.limit_to_first)
        + param_if_set("limitToLast="@, c.limit_to_last) + param_if_set("startAt="@, c.start_at)
        + param_if_set("endAt="@, c.end_at) + param_if_set("equalTo="@, c.equal_to)
}

/// The URL a verb operation is issued against: the endpoint, the location
/// segments joined by `/`, the fixed `.json` suffix, and the query suffix —
/// a pure function of the client's current state.
pub open spec fn composed_url(c: ClientView) -> Seq<char> {
    c.endpoint + join_with(c.location, "/"@) + ".json"@ + query_suffix(params_of(c))
}

/// A client state whose endpoint passed validation.  Every client the
/// constructor yields satisfies it, and no operation touches the endpoint,
/// so no client ever exists without it.
pub open spec fn valid_client(c: ClientView) -> bool {
    endpoint_accepted(c.endpoint)
}

/// The state after a full clear of the query modifiers.
pub open spec fn with_no_params(c: ClientView) -> ClientView {
    ClientView {
        order_by: Seq::<char>::empty(),
        limit_to_first: Seq::<char>::empty(),
        limit_to_last: Seq::<char>::empty(),
        start_at: Seq::<char>::empty(),
        end_at: Seq::<char>::empty(),
        equal_to: Seq::<char>::empty(),
        ..c
    }
}

/// A client of one database endpoint.  It can only be built on an endpoint
/// that passed validation, accumulates location segments and query
/// modifiers, and composes the URL of each verb operation from them.
pub struct FirebaseClient {
    endpoint: String,
    location: Vec<String>,
    order_by: String,
    limit_to_first: String,
    limit_to_last: String,
    start_at: String,
    end_at: String,
    equal_to: String,
}

impl View for FirebaseClient {
    type V = ClientView;

    closed spec fn view(&self) -> ClientView {
        ClientView {
            endpoint: self.endpoint@,
            location: self.location.deep_view(),
            order_by: self.order_by@,
            limit_to_first: self.limit_to_first@,
            limit_to_last: self.limit_to_last@,
            start_at: self.start_at@,
            end_at: self.end_at@,
            equal_to: self.equal_to@,
        }
    }
}

/// Appends one query parameter to `url`: nothing when `value` is unset,
/// otherwise the separator (`?` for the first present parameter, `&` after
/// that), the parameter's `name=` prefix, and its value.
fn append_param(
    url: &mut String,
    any: bool,
    name_eq: &str,
    value: &str,
    Ghost(base): Ghost<Seq<char>>,
    Ghost(ps): Ghost<Seq<Seq<char>>>,
) -> (now_any: bool)
    requires
        old(url)@ == base + query_suffix(ps),
        any == (ps.len() > 0),
    ensures
        final(url)@ == base + query_suffix(ps + param_if_set(name_eq@, value@)),
        now_any == ((ps + param_if_set(name_eq@, value@)).len() > 0),
{
    proof {
        lemma_params_concat_opt(ps, name_eq@, value@);
        lemma_query_suffix_push(ps, name_eq@ + value@);
    }
    if value.is_empty() {
        return any;
    }
    if any {
        url.append("&");
    } else {
        url.append("?");
    }
    url.append(name_eq);
    url.append(value);
    proof {
        assert(url@ =~= base + query_suffix(ps + param_if_set(name_eq@, value@)));
    }
    true
}

impl FirebaseClient {
    /// Builds a client on `endpoint`.  Construction succeeds exactly when
    /// the endpoint passes validation; the new client has no location
    /// segments and every modifier unset.  An invalid endpoint is the one
    /// construction failure.
    pub fn new(endpoint: String) -> (r: Result<FirebaseClient, FirebaseError>)
        ensures
            r is Ok <==> endpoint_accepted(endpoint@),
            r matches Ok(c) ==> valid_client(c@),
            r matches Ok(c) ==> c@ == (ClientView {
                endpoint: endpoint@,
                location: Seq::<Seq<char>>::empty(),
                order_by: Seq::<char>::empty(),
                limit_to_first: Seq::<char>::empty(),
                limit_to_last: Seq::<char>::empty(),
                start_at: Seq::<char>::empty(),
                end_at: Seq::<char>::empty(),
                equal_to: Seq::<char>::empty(),
            }),
            r matches Err(e) ==> e == FirebaseError::InvalidEndpoint,
    {
        if !endpoint_is_match(endpoint.as_str()) {
            return Err(FirebaseError::InvalidEndpoint);
        }
        let c = FirebaseClient {
            endpoint,
            location: Vec::new(),
            order_by: String::new(),
            limit_to_first: String::new(),
            limit_to_last: String::new(),
            start_at: String::new(),
            end_at: String::new(),
            equal_to: String::new(),
        };
        proof {
            assert(c@ =~= (ClientView {
                endpoint: c.endpoint@,
                location: Seq::<Seq<char>>::empty(),
                order_by: Seq::<char>::empty(),
                limit_to_first: Seq::<char>::empty(),
                limit_to_last: Seq::<char>::empty(),
                start_at: Seq::<char>::empty(),
                end_at: Seq::<char>::empty(),
                equal_to: Seq::<char>::empty(),
            }));
        }
        Ok(c)
    }

    /// Sets the `orderBy` modifier to `parameter`, overwriting any earlier
    /// value; an empty value leaves it unset.  Nothing else changes.
    pub fn order_by(&mut self, parameter: &str)
        ensures
            final(self)@ == (ClientView { order_by: parameter@, ..old(self)@ }),
    {
        self.order_by = parameter.to_owned();
        proof {
            assert(self@ =~= (ClientView { order_by: parameter@, ..old(self)@ }));
        }
    }

    /// Sets the `limitToFirst` modifier to `parameter`, overwriting any
    /// earlier value; an empty value leaves it unset.  Nothing else changes.
    pub fn limit_to_first(&mut self, parameter: &str)
        ensures
            final(self)@ == (ClientView { limit_to_first: parameter@, ..old(self)@ }),
    {
        self.limit_to_first = parameter.to_owned();
        proof {
            assert(self@ =~= (ClientView { limit_to_first: parameter@, ..old(self)@ }));
        }
    }

    /// Sets the `limitToLast` modifier to `parameter`, overwriting any
    /// earlier value; an empty value leaves it unset.  Nothing else changes.
    pub fn limit_to_last(&mut self, parameter: &str)
        ensures
            final(self)@ == (ClientView { limit_to_last: parameter@, ..old(self)@ }),
    {
        self.limit_to_last = parameter.to_owned();
        proof {
            assert(self@ =~= (ClientView { limit_to_last: parameter@, ..old(self)@ }));
        }
    }

    /// Sets the `startAt` modifier to `parameter`, overwriting any earlier
    /// value; an empty value leaves it unset.  Nothing else changes.
    pub fn start_at(&mut self, parameter: &str)
        ensures
            final(self)@ == (ClientView { start_at: parameter@, ..old(self)@ }),
    {
        self.start_at = parameter.to_owned();
        proof {
            assert(self@ =~= (ClientView { start_at: parameter@, ..old(self)@ }));
        }
    }

    /// Sets the `endAt` modifier to `parameter`, overwriting any earlier
    /// value; an empty value leaves it unset.  Nothing else changes.
    pub fn end_at(&mut self, parameter: &str)
        ensures
            final(self)@ == (ClientView { end_at: parameter@, ..old(self)@ }),
    {
        self.end_at = parameter.to_owned();
        proof {
            assert(self@ =~= (ClientView { end_at: parameter@, ..old(self)@ }));
        }
    }

    /// Sets the `equalTo` modifier to `parameter`, overwriting any earlier
    /// value; an empty value leaves it unset.  Nothing else changes.
    pub fn equal_to(&mut self, parameter: &str)
        ensures
            final(self)@ == (ClientView { equal_to: parameter@, ..old(self)@ }),
    {
        self.equal_to = parameter.to_owned();
        proof {
            assert(self@ =~= (ClientView { equal_to: parameter@, ..old(self)@ }));
        }
    }

    /// Unsets every query modifier in one call; the endpoint and the
    /// location segments are untouched.
    pub fn clear_parameters(&mut self)
        ensures
            final(self)@ == with_no_params(old(self)@),
    {
        self.order_by = String::new();
        self.limit_to_first = String::new();
        self.limit_to_last = String::new();
        self.start_at = String::new();
        self.end_at = String::new();
        self.equal_to = String::new();
        proof {
            assert(self@ =~= with_no_params(old(self)@));
        }
    }

    /// Appends `location` to the ordered sequence of path segments.
    /// Segments are opaque: no validation or escaping is performed, so
    /// URL-breaking characters propagate as-is into the composed URL.
    pub fn set_location(&mut self, location: &str)
        ensures
            final(self)@ == (ClientView {
                location: old(self)@.location.push(location@),
                ..old(self)@
            }),
    {
        self.location.push(location.to_owned());
        proof {
            assert(self.location.deep_view() =~= old(self).location.deep_view().push(location@));
            assert(self@ =~= (ClientView {
                location: old(self)@.location.push(location@),
                ..old(self)@
            }));
        }
    }

    /// Empties the sequence of path segments; the endpoint and the query
    /// modifiers are untouched.
    pub fn clear_locations(&mut self)
        ensures
            final(self)@ == (ClientView { location: Seq::<Seq<char>>::empty(), ..old(self)@ }),
    {
        self.location.clear();
        proof {
            assert(self.location.deep_view() =~= Seq::<Seq<char>>::empty());
            assert(self@ =~= (ClientView { location: Seq::<Seq<char>>::empty(), ..old(self)@ }));
        }
    }

    /// Composes the URL of the client's current state: the endpoint, the
    /// location segments joined by `/`, the `.json` suffix, and the set
    /// modifiers in their fixed order.  The result is a pure function of
    /// that state, so composing twice without a mutation in between yields
    /// identical strings.
    pub fn compose_url(&self) -> (url: String)
        ensures
            url@ == composed_url(self@),
    {
        let mut url = self.endpoint.clone();
        proof {
            assert(self@.location.take(0) =~= Seq::<Seq<char>>::empty());
            assert(url@ =~= self@.endpoint + join_with(self@.location.take(0), "/"@));
        }
        let mut i: usize = 0;
        while i < self.location.len()
            invariant
                i <= self.location.len(),
                url@ == self@.endpoint + join_with(self@.location.take(i as int), "/"@),
            decreases self.location.len() - i,
        {
            if i > 0 {
                url.append("/");
            }
            url.append(self.location[i].as_str());
            proof {
                lemma_join_with_push(self@.location.take(i as int), "/"@, self@.location[i as int]);
                assert(self@.location.take(i as int).push(self@.location[i as int])
                    =~= self@.location.take(i as int + 1));
                assert(url@ =~= self@.endpoint + join_with(
                    self@.location.take(i as int + 1),
                    "/"@,
                ));
            }
            i = i + 1;
        }
        proof {
            assert(self@.location.take(self.location.len() as int) =~= self@.location);
        }
        url.append(".json");
        let ghost base = url@;
        let ghost mut ps = Seq::<Seq<char>>::empty();
        proof {
            assert(url@ =~= base + query_suffix(ps));
        }
        let mut any: bool = false;
        any = append_param(&mut url, any, "orderBy=", self.order_by.as_str(), Ghost(base), Ghost(ps));
        proof {
            ps = ps + param_if_set("orderBy="@, self@.order_by);
        }
        any = append_param(
            &mut url,
            any,
            "limitToFirst=",
            self.limit_to_first.as_str(),
            Ghost(base),
            Ghost(ps),
        );
        proof {
            ps = ps + param_if_set("limitToFirst="@, self@.limit_to_first);
        }
        any = append_param(
            &mut url,
            any,
            "limitToLast=",
            self.limit_to_last.as_str(),
            Ghost(base),
            Ghost(ps),
        );
        proof {
            ps = ps + param_if_set("limitToLast="@, self@.limit_to_last);
        }
        any = append_param(&mut url, any, "startAt=", self.start_at.as_str(), Ghost(base), Ghost(ps));
        proof {
            ps = ps + param_if_set("startAt="@, self@.start_at);
        }
        any = append_param(&mut url, any, "endAt=", self.end_at.as_str(), Ghost(base), Ghost(ps));
        proof {
            ps = ps + param_if_set("endAt="@, self@.end_at);
        }
        any = append_param(&mut url, any, "equalTo=", self.equal_to.as_str(), Ghost(base), Ghost(ps));
        proof {
            ps = ps + param_if_set("equalTo="@, self@.equal_to);
            assert(ps =~= params_of(self@));
            assert(url@ =~= composed_url(self@));
        }
        url
    }

    /// The read operation's request: GET against the composed URL, no body.
    pub fn get_request(&self) -> (r: HttpRequest)
        ensures
            r.method == HttpMethod::Get,
            r.url@ == composed_url(self@),
            r.body is None,
    {
        HttpRequest { method: HttpMethod::Get, url: self.compose_url(), body: None }
    }

    /// The replace operation's request: PUT against the composed URL with
    /// the caller's text as body.
    pub fn put_request(&self, text_to_put: &str) -> (r: HttpRequest)
        ensures
            r.method == HttpMethod::Put,
            r.url@ == composed_url(self@),
            r.body matches Some(b) && b@ == text_to_put@,
    {
        HttpRequest {
            method: HttpMethod::Put,
            url: self.compose_url(),
            body: Some(text_to_put.to_owned()),
        }
    }

    /// The create-child operation's request: POST against the composed URL
    /// with the caller's text as body.
    pub fn post_request(&self, text_to_put: &str) -> (r: HttpRequest)
        ensures
            r.method == HttpMethod::Post,
            r.url@ == composed_url(self@),
            r.body matches Some(b) && b@ == text_to_put@,
    {
        HttpRequest {
            method: HttpMethod::Post,
            url: self.compose_url(),
            body: Some(text_to_put.to_owned()),
        }
    }

    /// The merge-update operation's request.  The operation is documented
    /// as PATCH but has always been issued as POST; that behaviour is kept.
    pub fn patch_request(&self, text_to_put: &str) -> (r: HttpRequest)
        ensures
            r.method == HttpMethod::Post,
            r.url@ == composed_url(self@),
            r.body matches Some(b) && b@ == text_to_put@,
    {
        HttpRequest {
            method: HttpMethod::Post,
            url: self.compose_url(),
            body: Some(text_to_put.to_owned()),
        }
    }

    /// The remove operation's request: DELETE against the composed URL, no
    /// body.
    pub fn delete_request(&self) -> (r: HttpRequest)
        ensures
            r.method == HttpMethod::Delete,
            r.url@ == composed_url(self@),
            r.body is None,
    {
        HttpRequest { method: HttpMethod::Delete, url: self.compose_url(), body: None }
    }
}

} // verus!
