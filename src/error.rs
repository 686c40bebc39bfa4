//! The errors of the store and how they are reported to a client.
use vstd::prelude::*;

verus! {

/// Any error that the store can report.
#[derive(Debug)]
pub enum StoreError {
    /// The requested fish is not in the caller's scope.
    NotFound,
    /// The session token that the caller gave is not valid text, is unknown,
    /// or has expired. The token is kept as the bytes that were received.
    SessionNotFound { session_id: Vec<u8> },
    /// A change was asked for without a session; only sessions can change fish.
    SessionRequired,
    /// The database failed.
    Sqlite(rusqlite::Error),
    /// The database failed during a login, and so did undoing it: a session
    /// whose token was never handed out is left until it expires and is
    /// reaped.
    LoginAbandoned(rusqlite::Error),
    /// The system clock reads a time outside the range that timestamps can
    /// hold.
    ClockOutOfRange,
}

/// Text of `b` decoded as UTF-8, with each invalid sequence replaced by
/// U+FFFD.
pub uninterp spec fn utf8_lossy(b: Seq<u8>) -> Seq<char>;

/// Each byte is ASCII.
pub open spec fn all_ascii(b: Seq<u8>) -> bool {
    forall|i: int| 0 <= i < b.len() ==> #[trigger] b[i] < 128
}

/// The characters of ASCII bytes.
pub open spec fn ascii_chars(b: Seq<u8>) -> Seq<char> {
    b.map_values(|x: u8| x as char)
}

/// Relies on `String::from_utf8_lossy`: it decodes UTF-8, and ASCII bytes are
/// valid UTF-8 that decode to the characters of the same codes.
#[verifier::external_body]
pub(crate) fn text_of_bytes(b: &[u8]) -> (r: String)
    ensures
        r@ == utf8_lossy(b@),
        all_ascii(b@) ==> r@ == ascii_chars(b@),
{
    String::from_utf8_lossy(b).into_owned()
}

/// Body of an error response.
#[derive(Debug)]
pub struct ErrorDetail {
    pub detail: String,
}

impl StoreError {
    /// HTTP status with which the error is answered.
    pub open spec fn spec_status_code(&self) -> u16 {
        match self {
            StoreError::NotFound => 404,
            StoreError::SessionNotFound { .. } => 400,
            StoreError::SessionRequired => 400,
            StoreError::Sqlite(_) => 500,
            StoreError::LoginAbandoned(_) => 500,
            StoreError::ClockOutOfRange => 500,
        }
    }

    /// Text with which the error is answered; a database failure is not
    /// described to the client.
    pub open spec fn spec_detail(&self) -> Seq<char> {
        match self {
            StoreError::NotFound => "Not found"@,
            StoreError::SessionNotFound { session_id } => "Session `"@ + utf8_lossy(session_id@)
                + "` not found"@,
            StoreError::SessionRequired => "A session is required to change fish"@,
            StoreError::Sqlite(_) => "Internal server error"@,
            StoreError::LoginAbandoned(_) => "Internal server error"@,
            StoreError::ClockOutOfRange => "Internal server error"@,
        }
    }

    /// HTTP status with which the error is answered.
    pub fn status_code(&self) -> (r: u16)
        ensures
            r == self.spec_status_code(),
    {
        match self {
            StoreError::NotFound => 404,
            StoreError::SessionNotFound { .. } => 400,
            StoreError::SessionRequired => 400,
            StoreError::Sqlite(_) => 500,
            StoreError::LoginAbandoned(_) => 500,
            StoreError::ClockOutOfRange => 500,
        }
    }

    /// Body with which the error is answered.
    pub fn detail(&self) -> (r: ErrorDetail)
        ensures
            r.detail@ == self.spec_detail(),
            self matches StoreError::SessionNotFound { session_id } ==> (all_ascii(session_id@)
                ==> r.detail@ == "Session `"@ + ascii_chars(session_id@) + "` not found"@),
    {
        let detail = match self {
            StoreError::NotFound => String::from_str("Not found"),
            StoreError::SessionNotFound { session_id } => {
                let token = text_of_bytes(session_id.as_slice());
                String::from_str("Session `").concat(token.as_str()).concat("` not found")
            },
            StoreError::SessionRequired => String::from_str("A session is required to change fish"),
            StoreError::Sqlite(_) => String::from_str("Internal server error"),
            StoreError::LoginAbandoned(_) => String::from_str("Internal server error"),
            StoreError::ClockOutOfRange => String::from_str("Internal server error"),
        };
        ErrorDetail { detail }
    }
}

} // verus!
