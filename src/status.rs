use vstd::prelude::*;
use core::cmp::Ordering;
use vstd::std_specs::cmp::PartialOrdSpec;
use crate::text::{eq_ignore_ascii_case, folded, is_lower_word, str_eq_ignore_ascii_case};
use crate::text::lemma_eq_ignore_case_equivalence;

verus! {

/// Lifecycle state of an outbound message.
///
/// Ranks, from 0: Pending, Sent, Delivered, Read, Responded, Failed, Unknown,
/// Unsubscribed, and Unavailable last. Terminal and negative outcomes rank
/// above routine progress, so the more significant of two reports wins.
/// Variants are declared in rank order, so the derived `Ord` agrees with
/// [`MessageStatus::to_index`] and with the hand-written `PartialOrd`.
#[derive(Debug, Clone, Copy, PartialEq, Eq, Structural, Ord)]
pub enum MessageStatus {
    Pending,
    Sent,
    Delivered,
    Read,
    Responded,
    Failed,
    Unknown,
    Unsubscribed,
    Unavailable,
}

/// Number of `MessageStatus` variants: every rank is below it
/// (see [`lemma_rank_injective`] and [`lemma_every_rank_taken`]).
pub const STATUS_COUNT: u8 = 9;

/// `Less`, `Equal` or `Greater` as `a` is below, equal to or above `b`.
pub open spec fn ordering_of(a: int, b: int) -> Ordering {
    if a < b {
        Ordering::Less
    } else if a == b {
        Ordering::Equal
    } else {
        Ordering::Greater
    }
}

fn compare_u8(a: u8, b: u8) -> (r: Ordering)
    ensures
        r == ordering_of(a as int, b as int),
{
    if a < b {
        Ordering::Less
    } else if a == b {
        Ordering::Equal
    } else {
        Ordering::Greater
    }
}

impl MessageStatus {
    /// Progress/severity rank of a status.
    pub open spec fn rank(self) -> nat {
        match self {
            MessageStatus::Pending => 0,
            MessageStatus::Sent => 1,
            MessageStatus::Delivered => 2,
            MessageStatus::Read => 3,
            MessageStatus::Responded => 4,
            MessageStatus::Failed => 5,
            MessageStatus::Unknown => 6,
            MessageStatus::Unsubscribed => 7,
            MessageStatus::Unavailable => 8,
        }
    }

    /// The status of a given rank.
    pub open spec fn of_rank(i: nat) -> MessageStatus {
        if i == 0 {
            MessageStatus::Pending
        } else if i == 1 {
            MessageStatus::Sent
        } else if i == 2 {
            MessageStatus::Delivered
        } else if i == 3 {
            MessageStatus::Read
        } else if i == 4 {
            MessageStatus::Responded
        } else if i == 5 {
            MessageStatus::Failed
        } else if i == 6 {
            MessageStatus::Unknown
        } else if i == 7 {
            MessageStatus::Unsubscribed
        } else {
            MessageStatus::Unavailable
        }
    }

    /// The canonical lower-case wire string of a status.
    pub open spec fn wire(self) -> Seq<char> {
        match self {
            MessageStatus::Pending => "pending"@,
            MessageStatus::Sent => "sent"@,
            MessageStatus::Delivered => "delivered"@,
            MessageStatus::Read => "read"@,
            MessageStatus::Responded => "responded"@,
            MessageStatus::Failed => "failed"@,
            MessageStatus::Unknown => "not sent"@,
            MessageStatus::Unsubscribed => "unsubscribed"@,
            MessageStatus::Unavailable => "unavailable"@,
        }
    }

    /// The status whose wire string equals `s` up to ASCII case;
    /// `Unknown` when there is none.
    pub open spec fn from_wire(s: Seq<char>) -> MessageStatus {
        if exists|v: MessageStatus| eq_ignore_ascii_case(s, #[trigger] v.wire()) {
            choose|v: MessageStatus| eq_ignore_ascii_case(s, #[trigger] v.wire())
        } else {
            MessageStatus::Unknown
        }
    }

    /// The rank of this status.
    pub fn to_index(&self) -> (r: u8)
        ensures
            r as nat == self.rank(),
            r < STATUS_COUNT,
    {
        match self {
            MessageStatus::Pending => 0,
            MessageStatus::Sent => 1,
            MessageStatus::Delivered => 2,
            MessageStatus::Read => 3,
            MessageStatus::Responded => 4,
            MessageStatus::Failed => 5,
            MessageStatus::Unknown => 6,
            MessageStatus::Unsubscribed => 7,
            MessageStatus::Unavailable => 8,
        }
    }

    /// The status of rank `i`.
    pub fn from_index(i: u8) -> (r: MessageStatus)
        requires
            i < STATUS_COUNT,
        ensures
            r.rank() == i as nat,
            r == MessageStatus::of_rank(i as nat),
    {
        if i == 0 {
            MessageStatus::Pending
        } else if i == 1 {
            MessageStatus::Sent
        } else if i == 2 {
            MessageStatus::Delivered
        } else if i == 3 {
            MessageStatus::Read
        } else if i == 4 {
            MessageStatus::Responded
        } else if i == 5 {
            MessageStatus::Failed
        } else if i == 6 {
            MessageStatus::Unknown
        } else if i == 7 {
            MessageStatus::Unsubscribed
        } else {
            MessageStatus::Unavailable
        }
    }

    /// The canonical wire string of this status.
    pub fn to_string(&self) -> (r: String)
        ensures
            r@ == self.wire(),
    {
        let s = match self {
            MessageStatus::Pending => "pending",
            MessageStatus::Sent => "sent",
            MessageStatus::Delivered => "delivered",
            MessageStatus::Read => "read",
            MessageStatus::Responded => "responded",
            MessageStatus::Failed => "failed",
            MessageStatus::Unknown => "not sent",
            MessageStatus::Unsubscribed => "unsubscribed",
            MessageStatus::Unavailable => "unavailable",
        };
        String::from_str(s)
    }

    /// Parses a wire string, ignoring ASCII case. Text that names no status
    /// gives `Unknown`.
    pub fn from_string(status: &str) -> (r: MessageStatus)
        ensures
            r == MessageStatus::from_wire(status@),
    {
        let mut i: u8 = 0;
        while i < STATUS_COUNT
            invariant
                i <= STATUS_COUNT,
                forall|v: MessageStatus|
                    v.rank() < i ==> !eq_ignore_ascii_case(status@, #[trigger] v.wire()),
            decreases STATUS_COUNT - i,
        {
            let v = MessageStatus::from_index(i);
            let w = v.to_string();
            if str_eq_ignore_ascii_case(status, w.as_str()) {
                proof {
                    assert forall|u: MessageStatus|
                        eq_ignore_ascii_case(status@, #[trigger] u.wire()) implies u == v by {
                        lemma_wire_matches_unique(status@, u, v);
                    }
                }
                return v;
            }
            i = i + 1;
        }
        proof {
            assert forall|v: MessageStatus| !eq_ignore_ascii_case(status@, #[trigger] v.wire()) by {
                lemma_rank_bound(v);
            }
        }
        MessageStatus::Unknown
    }

    /// Compares two statuses by rank.
    pub fn compare(&self, other: &MessageStatus) -> (r: Ordering)
        ensures
            r == ordering_of(self.rank() as int, other.rank() as int),
    {
        compare_u8(self.to_index(), other.to_index())
    }
}

impl Default for MessageStatus {
    fn default() -> (r: MessageStatus)
        ensures
            r == MessageStatus::Unknown,
    {
        MessageStatus::Unknown
    }
}

impl PartialOrd for MessageStatus {
    fn partial_cmp(&self, other: &MessageStatus) -> Option<Ordering> {
        Some(self.compare(other))
    }
}

impl vstd::std_specs::cmp::PartialOrdSpecImpl for MessageStatus {
    open spec fn obeys_partial_cmp_spec() -> bool {
        true
    }

    open spec fn partial_cmp_spec(&self, other: &MessageStatus) -> Option<Ordering> {
        Some(ordering_of(self.rank() as int, other.rank() as int))
    }
}

proof fn lemma_rank_bound(v: MessageStatus)
    ensures
        v.rank() < STATUS_COUNT,
        MessageStatus::of_rank(v.rank()) == v,
{
}

/// Every rank below `STATUS_COUNT` belongs to a status: the count is the
/// number of variants.
pub proof fn lemma_every_rank_taken(i: nat)
    requires
        i < STATUS_COUNT,
    ensures
        MessageStatus::of_rank(i).rank() == i,
{
}

/// Rank is injective: distinct statuses have distinct ranks, all below
/// `STATUS_COUNT`.
pub proof fn lemma_rank_injective(a: MessageStatus, b: MessageStatus)
    ensures
        a != b ==> a.rank() != b.rank(),
        a.rank() < STATUS_COUNT,
{
}

/// Every wire string is a lower-case word, and distinct statuses have wire
/// strings that differ even up to ASCII case.
pub proof fn lemma_wire_distinct(a: MessageStatus, b: MessageStatus)
    ensures
        is_lower_word(a.wire()),
        a != b ==> !eq_ignore_ascii_case(a.wire(), b.wire()),
{
    reveal_strlit("pending");
    reveal_strlit("sent");
    reveal_strlit("delivered");
    reveal_strlit("read");
    reveal_strlit("responded");
    reveal_strlit("failed");
    reveal_strlit("not sent");
    reveal_strlit("unsubscribed");
    reveal_strlit("unavailable");
    if a != b && a.wire().len() == b.wire().len() {
        assert(folded(a.wire()[0]) != folded(b.wire()[0]));
    }
}

proof fn lemma_wire_matches_unique(s: Seq<char>, a: MessageStatus, b: MessageStatus)
    requires
        eq_ignore_ascii_case(s, a.wire()),
        eq_ignore_ascii_case(s, b.wire()),
    ensures
        a == b,
{
    lemma_eq_ignore_case_equivalence(a.wire(), s, b.wire());
    lemma_eq_ignore_case_equivalence(s, a.wire(), b.wire());
    lemma_wire_distinct(a, b);
}

/// Parsing the wire string of a status gives that status back.
pub proof fn lemma_wire_round_trip(v: MessageStatus)
    ensures
        MessageStatus::from_wire(v.wire()) == v,
{
    lemma_eq_ignore_case_equivalence(v.wire(), v.wire(), v.wire());
    let u = choose|u: MessageStatus| eq_ignore_ascii_case(v.wire(), #[trigger] u.wire());
    lemma_wire_matches_unique(v.wire(), u, v);
}

/// Parsing ignores ASCII case: texts equal up to case parse alike.
pub proof fn lemma_parse_ignores_case(s: Seq<char>, t: Seq<char>)
    requires
        eq_ignore_ascii_case(s, t),
    ensures
        MessageStatus::from_wire(s) == MessageStatus::from_wire(t),
{
    assert forall|v: MessageStatus|
        eq_ignore_ascii_case(s, #[trigger] v.wire()) <==> eq_ignore_ascii_case(t, v.wire()) by {
        lemma_eq_ignore_case_equivalence(s, t, v.wire());
        lemma_eq_ignore_case_equivalence(t, s, v.wire());
    }
    if exists|v: MessageStatus| eq_ignore_ascii_case(s, #[trigger] v.wire()) {
        let a = choose|v: MessageStatus| eq_ignore_ascii_case(s, #[trigger] v.wire());
        let b = choose|v: MessageStatus| eq_ignore_ascii_case(t, #[trigger] v.wire());
        lemma_wire_matches_unique(s, a, b);
    }
}

/// A status tagged with the channel that reported it. Every `Host` report
/// outranks every `Client` report; within a channel the status rank decides.
///
/// `Client` is declared first, so the derived `Ord` agrees with
/// [`MessageRecipient::to_index`] and with the hand-written `PartialOrd`.
#[derive(Debug, Clone, Copy, PartialEq, Eq, Structural, Ord)]
pub enum MessageRecipient {
    Client(MessageStatus),
    Host(MessageStatus),
}

impl MessageRecipient {
    /// Combined index: the status rank, raised by `STATUS_COUNT` on the host
    /// channel.
    pub open spec fn index(self) -> nat {
        match self {
            MessageRecipient::Client(s) => s.rank(),
            MessageRecipient::Host(s) => s.rank() + STATUS_COUNT as nat,
        }
    }

    /// The status carried, whatever the channel.
    pub open spec fn status_spec(self) -> MessageStatus {
        match self {
            MessageRecipient::Client(s) => s,
            MessageRecipient::Host(s) => s,
        }
    }

    /// The combined index of this report.
    pub fn to_index(&self) -> (r: u8)
        ensures
            r as nat == self.index(),
    {
        match self {
            MessageRecipient::Client(s) => s.to_index(),
            MessageRecipient::Host(s) => s.to_index() + STATUS_COUNT,
        }
    }

    /// The status carried, whatever the channel.
    pub fn status(&self) -> (r: MessageStatus)
        ensures
            r == self.status_spec(),
    {
        match self {
            MessageRecipient::Client(s) => *s,
            MessageRecipient::Host(s) => *s,
        }
    }

    /// Compares two reports by combined index.
    pub fn compare(&self, other: &MessageRecipient) -> (r: Ordering)
        ensures
            r == ordering_of(self.index() as int, other.index() as int),
    {
        compare_u8(self.to_index(), other.to_index())
    }
}

impl PartialOrd for MessageRecipient {
    fn partial_cmp(&self, other: &MessageRecipient) -> Option<Ordering> {
        Some(self.compare(other))
    }
}

impl vstd::std_specs::cmp::PartialOrdSpecImpl for MessageRecipient {
    open spec fn obeys_partial_cmp_spec() -> bool {
        true
    }

    open spec fn partial_cmp_spec(&self, other: &MessageRecipient) -> Option<Ordering> {
        Some(ordering_of(self.index() as int, other.index() as int))
    }
}

/// A host report of any status outranks a client report of any status.
pub proof fn lemma_host_outranks_client(s: MessageStatus, t: MessageStatus)
    ensures
        MessageRecipient::Host(s).index() > MessageRecipient::Client(t).index(),
        MessageRecipient::Host(s).partial_cmp_spec(&MessageRecipient::Client(t)) == Some(
            Ordering::Greater,
        ),
{
}

/// Within one channel a higher-ranked status gives the higher report.
pub proof fn lemma_rank_order_within_channel(s1: MessageStatus, s2: MessageStatus)
    requires
        s1.rank() > s2.rank(),
    ensures
        MessageRecipient::Host(s1).partial_cmp_spec(&MessageRecipient::Host(s2)) == Some(
            Ordering::Greater,
        ),
        MessageRecipient::Client(s1).partial_cmp_spec(&MessageRecipient::Client(s2)) == Some(
            Ordering::Greater,
        ),
{
}

/// The order on reports is total and strict: two reports compare equal
/// exactly when they are the same, comparison is antisymmetric, and
/// `Greater` is transitive.
pub proof fn lemma_recipient_total_order(
    a: MessageRecipient,
    b: MessageRecipient,
    c: MessageRecipient,
)
    ensures
        (a.partial_cmp_spec(&b) == Some(Ordering::Equal)) <==> a == b,
        a.partial_cmp_spec(&b) == Some(Ordering::Greater) <==> b.partial_cmp_spec(&a) == Some(
            Ordering::Less,
        ),
        a.partial_cmp_spec(&b) == Some(Ordering::Greater) && b.partial_cmp_spec(&c) == Some(
            Ordering::Greater,
        ) ==> a.partial_cmp_spec(&c) == Some(Ordering::Greater),
{
}

/// A status report about one message, from the messaging provider.
#[derive(Debug, Clone, PartialEq, Eq)]
pub struct StatusUpdate {
    pub recipient_id: String,
    pub status: MessageRecipient,
}

} // verus!
