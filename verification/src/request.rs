//! The request boundary: what a caller may send, and how a finished
//! attempt loop is resolved into the value delivered back.

use vstd::prelude::*;

use crate::method::HttpMethod;
use crate::response::{map_response, spec_body_data, spec_header_entry, CallbackPayload,
    HeaderFieldView, ResponseFacts, ResponseType};
use crate::retry::RequestFailure;
use crate::time_jar::{spec_since, TimeJar};

verus! {

/// A request body as supplied by the caller: text, or a raw byte
/// buffer.
pub enum BodyData {
    Text(String),
    Raw(Vec<u8>),
}

/// A transport-agnostic description of one request. An absent field
/// means "do not set it" on the wire request, not "set it to empty".
pub struct RequestDescriptor {
    /// The HTTP verb.
    pub method: HttpMethod,
    /// Header names and values to set, in order.
    pub headers: Option<Vec<(String, String)>>,
    /// The request body.
    pub body: Option<BodyData>,
    /// URL query parameters.
    pub search_params: Option<Vec<(String, String)>>,
    /// Form-encoded body fields.
    pub form: Option<Vec<(String, String)>>,
    /// The desired body representation of the response.
    pub response_type: ResponseType,
    /// The retry ceiling: the greatest number of attempts to make.
    pub attempts: u32,
}

/// Resolves a finished attempt loop into the value delivered to the
/// caller, exactly one of payload or error. On a final success the
/// store is queried for the cookies recorded strictly after the
/// request's start instant and they are bundled into the payload; a
/// final failure is passed through untouched, with no cookie query.
pub fn finish_request(
    jar: &TimeJar,
    start_time: u64,
    res: Result<ResponseFacts, RequestFailure>,
    response_type: ResponseType,
) -> (r: Result<CallbackPayload, RequestFailure>)
    ensures
        res is Err ==> r is Err && r->Err_0 == res->Err_0,
        res is Ok ==> {
            let facts = res->Ok_0;
            &&& r is Ok
            &&& r->Ok_0.status == facts.status
            &&& r->Ok_0.http_version == facts.http_version
            &&& r->Ok_0.content_length == facts.content_length
            &&& r->Ok_0.headers@.len() == facts.headers@.len()
            &&& forall|i: int|
                0 <= i < facts.headers@.len() ==> (#[trigger] r->Ok_0.headers@[i])@
                    == (HeaderFieldView {
                    name: facts.headers@[i]@.name,
                    entry: spec_header_entry(facts.headers@[i]@.values),
                })
            &&& r->Ok_0.data@ == spec_body_data(facts.body.deep_view(), response_type)
            &&& r->Ok_0.new_cookies.deep_view() == spec_since(jar@, start_time)
        },
{
    match res {
        Ok(facts) => {
            let new_cookies = jar.cookies_since(start_time);
            Ok(map_response(facts, response_type, new_cookies))
        },
        Err(e) => Err(e),
    }
}

} // verus!
