use vstd::prelude::*;
use vstd::string::*;

verus! {

/// The settings read once at startup: where the server manager listens, the
/// session to inspect, and how many unserved requests may wait.
pub struct InspectServerConfig {
    pub server_manager_address: String,
    pub session_id: String,
    pub queue_size: usize,
}

/// Everything one remote inspect call carries.
pub struct OutboundCall {
    pub session_id: String,
    pub query_payload: Vec<u8>,
    /// A fresh token sent as the `request-id` metadata, for tracing only.
    pub request_id: String,
}

/// Positions of the hyphens in the textual form of a UUID.
pub open spec fn is_uuid_hyphen_position(i: int) -> bool {
    i == 8 || i == 13 || i == 18 || i == 23
}

pub open spec fn is_lower_hex_digit(c: char) -> bool {
    ('0' <= c && c <= '9') || ('a' <= c && c <= 'f')
}

/// The hyphenated lowercase text of a UUID, such as
/// `67e55044-10b1-426f-9247-bb680e5fe0c8`.
pub open spec fn is_hyphenated_uuid(s: Seq<char>) -> bool {
    &&& s.len() == 36
    &&& forall|i: int|
        0 <= i < 36 ==> if is_uuid_hyphen_position(i) {
            s[i] == '-'
        } else {
            is_lower_hex_digit(#[trigger] s[i])
        }
}

/// Relies on uuid's `Uuid::new_v4` for a random UUID, and on its `Display`
/// impl, which writes the hyphenated lowercase form.
#[verifier::external_body]
fn new_request_id() -> (r: String)
    ensures
        is_hyphenated_uuid(r@),
{
    uuid::Uuid::new_v4().to_string()
}

impl InspectServerConfig {
    /// The URI the worker connects to: the address under the `http` scheme.
    pub fn endpoint(&self) -> (r: String)
        ensures
            r@ == "http://"@ + self.server_manager_address@,
    {
        let scheme = String::from_str("http://");
        scheme.concat(self.server_manager_address.as_str())
    }

    /// The remote call for one request: this session, the request's payload
    /// unchanged, and a freshly drawn request identifier.
    pub fn outbound_call(&self, payload: Vec<u8>) -> (r: OutboundCall)
        ensures
            r.session_id@ == self.session_id@,
            r.query_payload@ == payload@,
            is_hyphenated_uuid(r.request_id@),
    {
        OutboundCall {
            session_id: self.session_id.clone(),
            query_payload: payload,
            request_id: new_request_id(),
        }
    }
}

} // verus!
