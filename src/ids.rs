//! Identifiers, URLs and timestamps, held as plain values. Parsing and
//! printing them is left to the uuid, url and chrono crates.
use vstd::prelude::*;

verus! {

/// The value that `uuid::Uuid::parse_str` gives for a text, if it accepts it.
pub uninterp spec fn uuid_of_text(s: Seq<char>) -> Option<u128>;

/// Whether `url::Url::parse` accepts a text.
pub uninterp spec fn url_accepts(s: Seq<char>) -> bool;

/// The instant, in seconds and nanoseconds since the Unix epoch, that
/// `chrono::DateTime::parse_from_rfc3339` reads from a text, if it accepts it.
pub uninterp spec fn rfc3339_instant(s: Seq<char>) -> Option<(i64, u32)>;

/// Relies on `uuid::Uuid::parse_str` and `Uuid::as_u128`: the 128-bit value
/// of an identifier text.
#[verifier::external_body]
fn parse_uuid_text(s: &str) -> (r: Option<u128>)
    ensures
        r == uuid_of_text(s@),
{
    match uuid::Uuid::parse_str(s) {
        Ok(u) => Some(u.as_u128()),
        Err(_) => None,
    }
}

/// Relies on `uuid::Uuid::from_u128` and its `Display`: the hyphenated text
/// of an identifier, which `Uuid::parse_str` reads back to the same value.
#[verifier::external_body]
fn uuid_text(value: u128) -> (r: String)
    ensures
        uuid_of_text(r@) == Some(value),
{
    uuid::Uuid::from_u128(value).to_string()
}

/// Relies on `url::Url::parse`: whether it accepts the text.
#[verifier::external_body]
fn url_parses(s: &str) -> (r: bool)
    ensures
        r == url_accepts(s@),
{
    url::Url::parse(s).is_ok()
}

/// Relies on `chrono::DateTime::parse_from_rfc3339`, `timestamp` and
/// `timestamp_subsec_nanos`: the instant an RFC 3339 text names.
#[verifier::external_body]
fn parse_rfc3339(s: &str) -> (r: Option<(i64, u32)>)
    ensures
        r == rfc3339_instant(s@),
{
    match chrono::DateTime::parse_from_rfc3339(s) {
        Ok(t) => Some((t.timestamp(), t.timestamp_subsec_nanos())),
        Err(_) => None,
    }
}

/// A 128-bit universally unique identifier.
#[derive(Clone, Copy, Debug, PartialEq, Eq, Structural, Hash)]
pub struct Uuid {
    pub value: u128,
}

impl Uuid {
    /// The all-zero identifier, which stands for "not yet assigned".
    pub fn nil() -> (r: Uuid)
        ensures
            r.value == 0,
    {
        Uuid { value: 0 }
    }

    pub fn from_u128(value: u128) -> (r: Uuid)
        ensures
            r.value == value,
    {
        Uuid { value }
    }

    pub fn as_u128(&self) -> (r: u128)
        ensures
            r == self.value,
    {
        self.value
    }

    pub fn is_nil(&self) -> (r: bool)
        ensures
            r == (self.value == 0),
    {
        self.value == 0
    }

    /// Reads an identifier from its text; `None` where the text is not one.
    pub fn parse(s: &str) -> (r: Option<Uuid>)
        ensures
            r matches Some(u) ==> uuid_of_text(s@) == Some(u.value),
            r is None ==> uuid_of_text(s@) is None,
    {
        match parse_uuid_text(s) {
            Some(value) => Some(Uuid { value }),
            None => None,
        }
    }

    /// The hyphenated text of this identifier, which reads back to it.
    pub fn to_string(&self) -> (r: String)
        ensures
            uuid_of_text(r@) == Some(self.value),
    {
        uuid_text(self.value)
    }
}

/// A URL, kept as the text it was given, which the URL parser accepts.
#[derive(Debug)]
pub struct WebUrl {
    text: String,
}

impl Clone for WebUrl {
    fn clone(&self) -> (r: WebUrl)
        ensures
            r@ == self@,
    {
        proof {
            use_type_invariant(self);
        }
        WebUrl { text: self.text.clone() }
    }
}

impl View for WebUrl {
    type V = Seq<char>;

    closed spec fn view(&self) -> Seq<char> {
        self.text@
    }
}

impl WebUrl {
    #[verifier::type_invariant]
    spec fn inv(&self) -> bool {
        url_accepts(self.text@)
    }

    /// Checks a URL text; `None` where the parser refuses it.
    pub fn parse(s: &str) -> (r: Option<WebUrl>)
        ensures
            r is Some <==> url_accepts(s@),
            r matches Some(u) ==> u@ == s@,
    {
        if url_parses(s) {
            Some(WebUrl { text: String::from_str(s) })
        } else {
            None
        }
    }

    pub fn as_str(&self) -> (r: &str)
        ensures
            r@ == self@,
            url_accepts(r@),
    {
        proof {
            use_type_invariant(self);
        }
        self.text.as_str()
    }

    /// The URL's text.
    pub fn to_string(&self) -> (r: String)
        ensures
            r@ == self@,
            url_accepts(r@),
    {
        proof {
            use_type_invariant(self);
        }
        self.text.clone()
    }
}

/// A point in time, kept as the RFC 3339 text it was given together with
/// the instant that text names.
#[derive(Debug)]
pub struct Timestamp {
    text: String,
    seconds: i64,
    nanos: u32,
}

impl Clone for Timestamp {
    fn clone(&self) -> (r: Timestamp)
        ensures
            r@ == self@,
    {
        proof {
            use_type_invariant(self);
        }
        Timestamp { text: self.text.clone(), seconds: self.seconds, nanos: self.nanos }
    }
}

impl View for Timestamp {
    type V = Seq<char>;

    closed spec fn view(&self) -> Seq<char> {
        self.text@
    }
}

impl Timestamp {
    #[verifier::type_invariant]
    spec fn inv(&self) -> bool {
        rfc3339_instant(self.text@) == Some((self.seconds, self.nanos))
    }

    /// Reads an RFC 3339 date and time; `None` where the text is not one.
    pub fn parse(s: &str) -> (r: Option<Timestamp>)
        ensures
            r is Some <==> rfc3339_instant(s@) is Some,
            r matches Some(t) ==> t@ == s@,
    {
        match parse_rfc3339(s) {
            Some((seconds, nanos)) => Some(Timestamp { text: String::from_str(s), seconds, nanos }),
            None => None,
        }
    }

    /// Whole seconds since the Unix epoch.
    pub fn seconds(&self) -> (r: i64)
        ensures
            rfc3339_instant(self@) matches Some(p) && r == p.0,
    {
        proof {
            use_type_invariant(self);
        }
        self.seconds
    }

    /// Nanoseconds past the whole second.
    pub fn subsec_nanos(&self) -> (r: u32)
        ensures
            rfc3339_instant(self@) matches Some(p) && r == p.1,
    {
        proof {
            use_type_invariant(self);
        }
        self.nanos
    }

    /// The timestamp's text.
    pub fn to_string(&self) -> (r: String)
        ensures
            r@ == self@,
            rfc3339_instant(r@) is Some,
    {
        proof {
            use_type_invariant(self);
        }
        self.text.clone()
    }
}

} // verus!
