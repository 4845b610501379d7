use vstd::prelude::*;
use crate::items::{phone_text, select_phone_text, ItemsPage};
use crate::text::{first_word, first_word_of, is_white, lemma_leading_word_has_no_white, skip_white};

verus! {

/// Why a lead could not be built.
#[derive(Debug, Clone, PartialEq, Eq)]
pub enum SharedAdapterError {
    /// A phone number of a length other than 10 or 11; holds the input.
    InvalidPhoneNumber(String),
    /// A required field is absent or of the wrong shape; holds its name.
    DataFieldNotFound(String),
}

/// A validated lead: a name and a phone number of 11 characters (ten-character
/// numbers get a leading `1`; see `lemma_lead_shape`).
#[derive(Debug, Clone, PartialEq, Eq)]
pub struct LeadDetails {
    pub name: String,
    pub phone_number: String,
}

/// How a lead's name is taken from a free-text name.
#[derive(Debug, Clone, Copy, PartialEq, Eq, Structural)]
pub enum NamePolicy {
    /// The whole text, as given.
    FullName,
    /// The first white-space-delimited word; a name of white space alone is
    /// refused as a missing name.
    FirstWord,
}

/// The name that `policy` takes from `name`.
pub open spec fn lead_name(name: Seq<char>, policy: NamePolicy) -> Seq<char> {
    match policy {
        NamePolicy::FullName => name,
        NamePolicy::FirstWord => first_word(name),
    }
}

/// The canonical form of a phone number: ten characters get a leading `1`,
/// eleven are kept, any other length has none.
pub open spec fn normalized_phone(p: Seq<char>) -> Option<Seq<char>> {
    if p.len() == 10 {
        Some(seq!['1'] + p)
    } else if p.len() == 11 {
        Some(p)
    } else {
        None
    }
}

/// `e` reports the phone number `p` as invalid.
pub open spec fn is_invalid_phone(e: SharedAdapterError, p: Seq<char>) -> bool {
    e matches SharedAdapterError::InvalidPhoneNumber(s) && s@ == p
}

/// `r` reports the field `field` as missing.
pub open spec fn is_missing_field(r: Result<LeadDetails, SharedAdapterError>, field: Seq<char>) -> bool {
    r matches Err(SharedAdapterError::DataFieldNotFound(f)) && f@ == field
}

/// `r` is the lead made of `name` under `policy` and the phone number
/// `phone`: the error on an invalid number; else a missing name when the
/// first-word policy finds no word; else the lead with the normalized number.
pub open spec fn is_lead_of(
    r: Result<LeadDetails, SharedAdapterError>,
    name: Seq<char>,
    phone: Seq<char>,
    policy: NamePolicy,
) -> bool {
    match normalized_phone(phone) {
        None => r matches Err(e) && is_invalid_phone(e, phone),
        Some(p) => if policy is FirstWord && first_word(name).len() == 0 {
            is_missing_field(r, "name"@)
        } else {
            r matches Ok(l) && l.name@ == lead_name(name, policy) && l.phone_number@ == p
        },
    }
}

/// `r` is what extracting a lead from `page` gives: each missing piece is
/// reported by name, in the order items, name, column values, phone number;
/// otherwise the lead of the first item's name and its phone column's text.
pub open spec fn is_lead_from_page(
    r: Result<LeadDetails, SharedAdapterError>,
    page: ItemsPage,
    policy: NamePolicy,
) -> bool {
    if page.items@.len() == 0 {
        is_missing_field(r, "items"@)
    } else {
        let item = page.items@[0];
        match item.name {
            None => is_missing_field(r, "name"@),
            Some(name) => match item.column_values {
                None => is_missing_field(r, "column_values"@),
                Some(cols) => match phone_text(cols@) {
                    None => is_missing_field(r, "phone_number"@),
                    Some(t) => is_lead_of(r, name@, t, policy),
                },
            },
        }
    }
}

/// Every lead that is built has a phone number of 11 characters, which
/// starts with `1` when the input had 10; under the first-word policy its name
/// is a non-empty word without white space.
pub proof fn lemma_lead_shape(
    r: Result<LeadDetails, SharedAdapterError>,
    name: Seq<char>,
    phone: Seq<char>,
    policy: NamePolicy,
)
    requires
        is_lead_of(r, name, phone, policy),
        r is Ok,
    ensures
        r->Ok_0.phone_number@.len() == 11,
        phone.len() == 10 ==> r->Ok_0.phone_number@[0] == '1',
        policy is FirstWord ==> r->Ok_0.name@.len() > 0 && forall|i: int|
            0 <= i < r->Ok_0.name@.len() ==> !is_white(#[trigger] r->Ok_0.name@[i]),
{
    lemma_leading_word_has_no_white(skip_white(name));
}

/// Brings a phone number to 11 characters: a leading `1` is added to ten,
/// eleven pass unchanged, any other length is refused with the input.
/// Length is counted in characters (Unicode scalar values), not in bytes;
/// the two agree on the ASCII digit strings this is meant for.
pub fn normalize_phone(raw: String) -> (r: Result<String, SharedAdapterError>)
    ensures
        match normalized_phone(raw@) {
            Some(p) => r matches Ok(s) && s@ == p,
            None => r matches Err(e) && is_invalid_phone(e, raw@),
        },
{
    let n = raw.as_str().unicode_len();
    if n == 10 {
        proof {
            reveal_strlit("1");
        }
        let prefixed = String::from_str("1").concat(raw.as_str());
        Ok(prefixed)
    } else if n == 11 {
        Ok(raw)
    } else {
        Err(SharedAdapterError::InvalidPhoneNumber(raw))
    }
}

fn missing(field: &str) -> (r: Result<LeadDetails, SharedAdapterError>)
    ensures
        is_missing_field(r, field@),
{
    Err(SharedAdapterError::DataFieldNotFound(String::from_str(field)))
}

impl LeadDetails {
    /// Builds a lead from a name, kept whole, and a raw phone number,
    /// normalizing the number; fails with `InvalidPhoneNumber` on a length
    /// other than 10 or 11.
    pub fn new(name: String, phone_number: String) -> (r: Result<LeadDetails, SharedAdapterError>)
        ensures
            is_lead_of(r, name@, phone_number@, NamePolicy::FullName),
    {
        LeadDetails::with_policy(name, phone_number, NamePolicy::FullName)
    }

    /// Builds a lead from a free-text name under `policy` and a raw phone
    /// number. The number is checked first.
    pub fn with_policy(name: String, phone_number: String, policy: NamePolicy) -> (r: Result<
        LeadDetails,
        SharedAdapterError,
    >)
        ensures
            is_lead_of(r, name@, phone_number@, policy),
    {
        let p = match normalize_phone(phone_number) {
            Ok(p) => p,
            Err(e) => {
                return Err(e);
            },
        };
        match policy {
            NamePolicy::FullName => Ok(LeadDetails { name, phone_number: p }),
            NamePolicy::FirstWord => {
                let first = first_word_of(name.as_str());
                if first.as_str().unicode_len() == 0 {
                    missing("name")
                } else {
                    Ok(LeadDetails { name: first, phone_number: p })
                }
            },
        }
    }

    /// Extracts a lead from the first item of a page: its whole name, and the
    /// text of its first column whose `"text"` holds the digit `1` as the
    /// phone number. A selected column always has text, so no error names
    /// the `"text"` field itself.
    pub fn from_items_page(items_page: ItemsPage) -> (r: Result<LeadDetails, SharedAdapterError>)
        ensures
            is_lead_from_page(r, items_page, NamePolicy::FullName),
    {
        LeadDetails::from_items_page_with_policy(items_page, NamePolicy::FullName)
    }

    /// Extracts a lead from the first item of a page as `from_items_page`
    /// does, taking its name under `policy`.
    pub fn from_items_page_with_policy(items_page: ItemsPage, policy: NamePolicy) -> (r: Result<
        LeadDetails,
        SharedAdapterError,
    >)
        ensures
            is_lead_from_page(r, items_page, policy),
    {
        if items_page.items.len() == 0 {
            return missing("items");
        }
        let item = &items_page.items[0];
        let name = match &item.name {
            Some(n) => n.clone(),
            None => {
                return missing("name");
            },
        };
        let cols = match &item.column_values {
            Some(c) => c,
            None => {
                return missing("column_values");
            },
        };
        match select_phone_text(cols) {
            Some(t) => LeadDetails::with_policy(name, t, policy),
            None => missing("phone_number"),
        }
    }
}

impl TryFrom<ItemsPage> for LeadDetails {
    type Error = SharedAdapterError;

    fn try_from(items_page: ItemsPage) -> (r: Result<LeadDetails, SharedAdapterError>)
        ensures
            is_lead_from_page(r, items_page, NamePolicy::FullName),
    {
        LeadDetails::from_items_page(items_page)
    }
}

/// The exact outcome is stated over the strings' views on `try_from` itself
/// (`is_lead_from_page`); no single `Result` value is named here.
impl vstd::std_specs::convert::TryFromSpecImpl<ItemsPage> for LeadDetails {
    open spec fn obeys_try_from_spec() -> bool {
        false
    }

    open spec fn try_from_spec(v: ItemsPage) -> Result<LeadDetails, SharedAdapterError> {
        choose|r: Result<LeadDetails, SharedAdapterError>|
            is_lead_from_page(r, v, NamePolicy::FullName)
    }
}

} // verus!
