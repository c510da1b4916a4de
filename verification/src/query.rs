//! Building the request for the remote astronomy service: the user's inputs
//! become one fully encoded URL, deterministically.

use vstd::prelude::*;
use crate::date::Date;
use crate::date::date_chars;

verus! {

/// The inputs of one query: the credential, the user's free-text location,
/// and the calendar date to ask about. Location and date text are passed on
/// verbatim; the remote service is the arbiter of their validity.
#[derive(Clone, Debug, PartialEq, Eq)]
pub struct QueryInput {
    pub api_key: String,
    pub location: String,
    pub date: Date,
}

impl QueryInput {
    /// A valid query carries a non-empty credential (checked once at process
    /// start by the caller) and a renderable date.
    pub open spec fn wf(&self) -> bool {
        self.api_key@.len() > 0 && self.date.wf()
    }
}

/// A fully formed request descriptor for the astronomy endpoint. One target
/// always stands for the same wire request.
#[derive(Clone, Debug, PartialEq, Eq)]
pub struct RequestTarget {
    pub url: String,
}

/// The URL of the astronomy endpoint with the three query parameters `key`,
/// `q` and `dt` filled in.
pub open spec fn url_chars(key: Seq<char>, location: Seq<char>, date: Seq<char>) -> Seq<char> {
    "http://api.weatherapi.com/v1/astronomy.json?key="@ + key + "&q="@ + location + "&dt="@ + date
}

/// Builds the request target for `input`: the astronomy endpoint with the
/// credential, the location verbatim, and the date in its canonical form.
/// A pure function of its inputs, with no validation of location or date.
pub fn build(input: &QueryInput) -> (target: RequestTarget)
    requires
        input.wf(),
    ensures
        target.url@ == url_chars(input.api_key@, input.location@, date_chars(input.date)),
{
    let mut url = String::new();
    url.append("http://api.weatherapi.com/v1/astronomy.json?key=");
    url.append(input.api_key.as_str());
    url.append("&q=");
    url.append(input.location.as_str());
    url.append("&dt=");
    let date = input.date.to_canonical();
    url.append(date.as_str());
    proof {
        assert(url@ =~= url_chars(input.api_key@, input.location@, date_chars(input.date)));
    }
    RequestTarget { url }
}

/// Building is deterministic: two targets whose URLs were built from the same
/// key, location and date characters render the same URL.
pub proof fn lemma_build_deterministic(
    a: RequestTarget,
    b: RequestTarget,
    key: Seq<char>,
    location: Seq<char>,
    date: Seq<char>,
)
    requires
        a.url@ == url_chars(key, location, date),
        b.url@ == url_chars(key, location, date),
    ensures
        a.url@ == b.url@,
{
}

} // verus!
