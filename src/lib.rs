//! Data contracts shared by messaging adapters: a totally ordered model of
//! message statuses reported per channel, and the extraction of a validated
//! lead (name and canonical phone number) from an untyped items page.
use vstd::prelude::*;

pub mod text;
pub mod status;
pub mod appointment;
pub mod items;
pub mod lead;

pub use appointment::{AppointmentRequest, AvailableTime};
pub use items::{select_phone_text, CellValue, ColumnValue, Item, ItemsPage};
pub use lead::{normalize_phone, LeadDetails, NamePolicy, SharedAdapterError};
pub use status::{MessageRecipient, MessageStatus, StatusUpdate, STATUS_COUNT};

verus! {

} // verus!
