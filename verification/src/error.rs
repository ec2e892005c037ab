use vstd::prelude::*;
use vstd::string::StringExecFns;

verus! {

/// The failures one proxied exchange can end in. Failures raised inside
/// outside crates are carried as their rendered text.
#[derive(Clone, Debug)]
pub enum ProxyError {
    /// Transport-level failure reaching the upstream server.
    LmStudioConnection(String),
    /// Malformed reply where a structured one was expected.
    InvalidResponse(String),
    /// The persistence store was unavailable or rejected a write.
    Database(String),
    /// Invalid target URL, header value, or other request-construction fault.
    Http(String),
    /// A payload that had to be JSON could not be encoded or decoded.
    Json(String),
    /// An input/output fault outside the HTTP exchange itself.
    Io(String),
}

impl ProxyError {
    /// The HTTP status this failure is reported with: upstream and
    /// construction failures surface as a bad gateway, store and local
    /// input/output failures as an internal error.
    pub open spec fn spec_status_code(&self) -> u16 {
        match self {
            ProxyError::LmStudioConnection(_) => 502,
            ProxyError::InvalidResponse(_) => 502,
            ProxyError::Database(_) => 500,
            ProxyError::Http(_) => 502,
            ProxyError::Json(_) => 502,
            ProxyError::Io(_) => 500,
        }
    }

    /// The status code of the client-visible reply for this failure.
    pub fn status_code(&self) -> (s: u16)
        ensures
            s == self.spec_status_code(),
    {
        match self {
            ProxyError::LmStudioConnection(_) => 502,
            ProxyError::InvalidResponse(_) => 502,
            ProxyError::Database(_) => 500,
            ProxyError::Http(_) => 502,
            ProxyError::Json(_) => 502,
            ProxyError::Io(_) => 500,
        }
    }

    /// The rendered description of this failure: a fixed prefix naming the
    /// kind, followed by the carried text.
    pub open spec fn spec_describe(&self) -> Seq<char> {
        match self {
            ProxyError::LmStudioConnection(m) => "LM Studio connection error: "@ + m@,
            ProxyError::InvalidResponse(m) => "Invalid response from LM Studio: "@ + m@,
            ProxyError::Database(m) => "Database error: "@ + m@,
            ProxyError::Http(m) => "HTTP error: "@ + m@,
            ProxyError::Json(m) => "JSON parsing error: "@ + m@,
            ProxyError::Io(m) => "IO error: "@ + m@,
        }
    }

    /// Renders the failure for logs and for the stored record.
    pub fn describe(&self) -> (r: String)
        ensures
            r@ == self.spec_describe(),
    {
        match self {
            ProxyError::LmStudioConnection(m) => String::from_str("LM Studio connection error: ").concat(m.as_str()),
            ProxyError::InvalidResponse(m) => String::from_str("Invalid response from LM Studio: ").concat(m.as_str()),
            ProxyError::Database(m) => String::from_str("Database error: ").concat(m.as_str()),
            ProxyError::Http(m) => String::from_str("HTTP error: ").concat(m.as_str()),
            ProxyError::Json(m) => String::from_str("JSON parsing error: ").concat(m.as_str()),
            ProxyError::Io(m) => String::from_str("IO error: ").concat(m.as_str()),
        }
    }

    /// The message placed in the client-visible reply body: store failures are
    /// hidden behind a generic text, every other kind shows its description.
    pub open spec fn spec_client_message(&self) -> Seq<char> {
        match self {
            ProxyError::Database(_) => "Internal server error"@,
            _ => self.spec_describe(),
        }
    }

    /// The message the client sees for this failure.
    pub fn client_message(&self) -> (r: String)
        ensures
            r@ == self.spec_client_message(),
    {
        match self {
            ProxyError::Database(_) => String::from_str("Internal server error"),
            _ => self.describe(),
        }
    }
}

} // verus!
