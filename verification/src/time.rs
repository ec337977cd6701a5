//! UTC instants and their RFC 3339 text, backed by `chrono`.

use vstd::prelude::*;

verus! {

/// The RFC 3339 text that `chrono` gives for the instant `secs` seconds and
/// `nanos` nanoseconds after the Unix epoch, or `None` when `chrono` cannot
/// represent that instant.
pub uninterp spec fn rfc3339_text(secs: i64, nanos: u32) -> Option<Seq<char>>;

/// The instant (Unix seconds, nanoseconds past them) that `chrono` reads from
/// an RFC 3339 text, or `None` when the text is not valid RFC 3339.
pub uninterp spec fn rfc3339_parse(text: Seq<char>) -> Option<(i64, u32)>;

/// Unix seconds from 0000-01-01T00:00:00Z to 9999-12-31T23:59:59Z: the
/// instants whose year has four digits.
pub open spec fn four_digit_year(secs: i64) -> bool {
    -62167219200 <= secs <= 253402300799
}

/// What chrono's writer and reader agree on: reading back the RFC 3339 text
/// of an instant gives that instant whenever the text is read at all, and it
/// is read whenever the year has four digits (other years are written with a
/// sign, which the reader refuses).
pub open spec fn reads_back(secs: i64, nanos: u32, text: Seq<char>) -> bool {
    &&& rfc3339_parse(text) is Some ==> rfc3339_parse(text) == Some((secs, nanos))
    &&& four_digit_year(secs) ==> rfc3339_parse(text) == Some((secs, nanos))
}

/// `chrono::DateTime::<Utc>::from_timestamp` followed by `to_rfc3339`: the RFC
/// 3339 text of the instant, `None` exactly when `from_timestamp` rejects it.
/// `to_rfc3339` writes every nanosecond digit that is not zero and the offset
/// `+00:00`, and `parse_from_rfc3339` reads such a text back to the same
/// instant when its year has four digits.
#[verifier::external_body]
fn rfc3339_of(secs: i64, nanos: u32) -> (r: Option<String>)
    ensures
        r is Some <==> rfc3339_text(secs, nanos) is Some,
        r matches Some(s) ==> rfc3339_text(secs, nanos) == Some(s@) && reads_back(secs, nanos, s@),
{
    match chrono::DateTime::from_timestamp(secs, nanos) {
        Some(dt) => Some(dt.to_rfc3339()),
        None => None,
    }
}

/// `chrono::DateTime::parse_from_rfc3339`, read back as Unix seconds and
/// nanoseconds (`timestamp`, `timestamp_subsec_nanos`). chrono documents that
/// these parts round-trip through `from_timestamp`, so the instant has a text,
/// and that text reads back as `rfc3339_of` states.
#[verifier::external_body]
fn parse_rfc3339_parts(text: &str) -> (r: Option<(i64, u32)>)
    ensures
        r == rfc3339_parse(text@),
        r matches Some(p) ==> (rfc3339_text(p.0, p.1) matches Some(t) && reads_back(p.0, p.1, t)),
{
    match chrono::DateTime::parse_from_rfc3339(text) {
        Ok(dt) => Some((dt.timestamp(), dt.timestamp_subsec_nanos())),
        Err(_) => None,
    }
}

/// `chrono::Utc::now`, as Unix seconds and nanoseconds. What instant comes
/// back depends on the clock; chrono documents that its parts round-trip
/// through `from_timestamp`, so the instant has a text, and that text reads
/// back as `rfc3339_of` states.
#[verifier::external_body]
fn now_parts() -> (r: (i64, u32))
    ensures
        rfc3339_text(r.0, r.1) matches Some(t) && reads_back(r.0, r.1, t),
{
    let now = chrono::Utc::now();
    (now.timestamp(), now.timestamp_subsec_nanos())
}

/// A UTC instant that `chrono` can represent: whole seconds since the Unix
/// epoch and the nanoseconds past them.
#[derive(Clone, Copy, Debug, PartialEq, Eq, Structural)]
pub struct Timestamp {
    secs: i64,
    nanos: u32,
}

impl Timestamp {
    #[verifier::type_invariant]
    spec fn representable(self) -> bool {
        rfc3339_text(self.secs, self.nanos) matches Some(t) && reads_back(self.secs, self.nanos, t)
    }

    /// Unix seconds of the instant.
    pub closed spec fn spec_secs(&self) -> i64 {
        self.secs
    }

    /// Nanoseconds past the whole second.
    pub closed spec fn spec_nanos(&self) -> u32 {
        self.nanos
    }

    /// The RFC 3339 text of the instant.
    pub open spec fn text(self) -> Seq<char> {
        rfc3339_text(self.spec_secs(), self.spec_nanos())->Some_0
    }

    /// Whether chrono can represent the instant and reads its RFC 3339 text
    /// back as `reads_back` says (true of every timestamp value).
    pub open spec fn has_text(self) -> bool {
        rfc3339_text(self.spec_secs(), self.spec_nanos()) matches Some(t) && reads_back(
            self.spec_secs(),
            self.spec_nanos(),
            t,
        )
    }

    /// Every timestamp value has an RFC 3339 text that reads back as
    /// `reads_back` says (what `law_text_reads_back` and the payload
    /// round-trip ask of a timestamp).
    pub fn has_text_holds(&self)
        ensures
            self.has_text(),
    {
        proof {
            use_type_invariant(self);
        }
    }

    /// Unix seconds of the instant.
    #[verifier::when_used_as_spec(spec_secs)]
    pub fn secs(&self) -> (r: i64)
        ensures
            r == self.spec_secs(),
    {
        self.secs
    }

    /// Nanoseconds past the whole second.
    #[verifier::when_used_as_spec(spec_nanos)]
    pub fn nanos(&self) -> (r: u32)
        ensures
            r == self.spec_nanos(),
    {
        self.nanos
    }

    /// The instant with the given parts, when chrono can represent it.
    pub fn from_parts(secs: i64, nanos: u32) -> (r: Option<Timestamp>)
        ensures
            r is Some <==> rfc3339_text(secs, nanos) is Some,
            r matches Some(t) ==> t.spec_secs() == secs && t.spec_nanos() == nanos && t.has_text(),
    {
        match rfc3339_of(secs, nanos) {
            Some(_) => Some(Timestamp { secs, nanos }),
            None => None,
        }
    }

    /// The current instant (clock-dependent).
    pub fn now() -> (r: Timestamp)
        ensures
            r.has_text(),
    {
        let (secs, nanos) = now_parts();
        Timestamp { secs, nanos }
    }

    /// The RFC 3339 text of the instant (`DateTime::to_rfc3339`).
    pub fn to_rfc3339(&self) -> (r: String)
        ensures
            r@ == self.text(),
    {
        proof {
            use_type_invariant(self);
        }
        match rfc3339_of(self.secs, self.nanos) {
            Some(s) => s,
            None => String::new(),
        }
    }

    /// Reads an RFC 3339 text (`DateTime::parse_from_rfc3339`, as UTC).
    pub fn parse_rfc3339(text: &str) -> (r: Option<Timestamp>)
        ensures
            r == parsed_instant(text@),
            r matches Some(t) ==> t.has_text(),
    {
        match parse_rfc3339_parts(text) {
            Some((secs, nanos)) => Some(Timestamp { secs, nanos }),
            None => None,
        }
    }
}

/// The timestamp that an RFC 3339 text denotes, if it is valid.
pub open spec fn parsed_instant(text: Seq<char>) -> Option<Timestamp> {
    match rfc3339_parse(text) {
        Some(p) => Some(instant(p.0, p.1)),
        None => None,
    }
}

/// The timestamp with the given parts (meaningful when chrono represents it).
pub closed spec fn instant(secs: i64, nanos: u32) -> Timestamp {
    Timestamp { secs, nanos }
}

/// Reading back the RFC 3339 text of a timestamp gives that timestamp
/// whenever the text is read at all, and it is read whenever the year has
/// four digits.
pub proof fn law_text_reads_back(t: Timestamp)
    requires
        t.has_text(),
    ensures
        parsed_instant(t.text()) is Some ==> parsed_instant(t.text()) == Some(t),
        four_digit_year(t.spec_secs()) ==> parsed_instant(t.text()) == Some(t),
{
    assert(instant(t.secs, t.nanos) == t);
}

} // verus!
