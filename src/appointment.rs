use vstd::prelude::*;
use vstd::std_specs::convert::FromSpecImpl;
use crate::text::{eq_ignore_ascii_case, folded, lemma_eq_ignore_case_equivalence, str_eq_ignore_ascii_case};

verus! {

/// Time of day that a person asked to be contacted in.
#[derive(Debug, Clone, Copy, PartialEq, Eq, Structural)]
pub enum AvailableTime {
    Morning,
    Afternoon,
    Evening,
    Unknown,
}

impl AvailableTime {
    /// The lower-case name of a time of day.
    pub open spec fn wire(self) -> Seq<char> {
        match self {
            AvailableTime::Morning => "morning"@,
            AvailableTime::Afternoon => "afternoon"@,
            AvailableTime::Evening => "evening"@,
            AvailableTime::Unknown => "unknown"@,
        }
    }

    /// The time of day named by `s` up to ASCII case; `Unknown` for any other
    /// text.
    pub open spec fn from_text(s: Seq<char>) -> AvailableTime {
        if eq_ignore_ascii_case(s, "morning"@) {
            AvailableTime::Morning
        } else if eq_ignore_ascii_case(s, "afternoon"@) {
            AvailableTime::Afternoon
        } else if eq_ignore_ascii_case(s, "evening"@) {
            AvailableTime::Evening
        } else {
            AvailableTime::Unknown
        }
    }

    /// Reads a time of day, ignoring ASCII case; unrecognised text gives
    /// `Unknown`.
    pub fn parse(time: &str) -> (r: AvailableTime)
        ensures
            r == AvailableTime::from_text(time@),
    {
        if str_eq_ignore_ascii_case(time, "morning") {
            AvailableTime::Morning
        } else if str_eq_ignore_ascii_case(time, "afternoon") {
            AvailableTime::Afternoon
        } else if str_eq_ignore_ascii_case(time, "evening") {
            AvailableTime::Evening
        } else {
            AvailableTime::Unknown
        }
    }

    /// The lower-case name of this time of day.
    pub fn to_wire(&self) -> (r: String)
        ensures
            r@ == self.wire(),
    {
        let s = match self {
            AvailableTime::Morning => "morning",
            AvailableTime::Afternoon => "afternoon",
            AvailableTime::Evening => "evening",
            AvailableTime::Unknown => "unknown",
        };
        String::from_str(s)
    }
}

/// Reading the name of a time of day gives that time of day back.
pub proof fn lemma_time_round_trip(t: AvailableTime)
    ensures
        AvailableTime::from_text(t.wire()) == t,
{
    reveal_strlit("morning");
    reveal_strlit("afternoon");
    reveal_strlit("evening");
    reveal_strlit("unknown");
    lemma_eq_ignore_case_equivalence(t.wire(), t.wire(), t.wire());
    let (m, e, u) = ("morning"@, "evening"@, "unknown"@);
    assert(folded(e[0]) != folded(m[0]));
    assert(folded(u[0]) != folded(m[0]));
    assert(folded(u[0]) != folded(e[0]));
    assert(!eq_ignore_ascii_case(e, m));
    assert(!eq_ignore_ascii_case(u, m));
    assert(!eq_ignore_ascii_case(u, e));
}

impl From<String> for AvailableTime {
    fn from(time: String) -> AvailableTime {
        AvailableTime::parse(time.as_str())
    }
}

impl FromSpecImpl<String> for AvailableTime {
    open spec fn obeys_from_spec() -> bool {
        true
    }

    open spec fn from_spec(v: String) -> AvailableTime {
        AvailableTime::from_text(v@)
    }
}

impl From<AvailableTime> for String {
    fn from(time: AvailableTime) -> (r: String)
        ensures
            r@ == time.wire(),
    {
        time.to_wire()
    }
}

/// The exact result is stated over the string's view on `from` itself
/// (`r@ == time.wire()`); no single `String` value is named here.
impl FromSpecImpl<AvailableTime> for String {
    open spec fn obeys_from_spec() -> bool {
        false
    }

    open spec fn from_spec(v: AvailableTime) -> String {
        choose|s: String| s@ == v.wire()
    }
}

/// A request for an appointment, already validated where it was taken.
#[derive(Debug, Clone, PartialEq, Eq)]
pub struct AppointmentRequest {
    pub name: Option<String>,
    pub phone_number: String,
    pub availabilities: Vec<AvailableTime>,
    pub additional_information: String,
    pub requested_date: String,
}

} // verus!
