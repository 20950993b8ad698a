use vstd::prelude::*;
use vstd::string::StringExecFns;

use crate::text::escape_text;
use crate::text::escaped_text;

verus! {

/// The wire form of an error body: a JSON object with the single fixed key
/// `error` holding the message.
pub open spec fn body_json_text(error: Seq<char>) -> Seq<char> {
    "{\"error\":\""@ + escaped_text(error) + "\"}"@
}

/// Body shape shared by every generated response: `{ error: <message> }`.
///
/// The field name `error` is fixed; the generated implementation and the
/// runtime failure wrapper both produce bodies of this shape, so handler code
/// is interchangeable between the two error styles.
pub struct ErrorResponseBody {
    pub error: String,
}

impl ErrorResponseBody {
    pub fn new(error: String) -> (b: ErrorResponseBody)
        ensures
            b.error@ == error@,
    {
        ErrorResponseBody { error }
    }

    /// Serializes the body to its JSON wire form.
    pub fn to_json(&self) -> (r: String)
        ensures
            r@ == body_json_text(self.error@),
    {
        let mut s = String::from_str("{\"error\":\"");
        let escaped = escape_text(self.error.as_str());
        s.append(escaped.as_str());
        s.append("\"}");
        proof {
            assert(s@ =~= body_json_text(self.error@));
        }
        s
    }
}

/// Marker for types whose response conversion is generated from their
/// per-variant annotations.
pub trait ErrorResponse {}

} // verus!
