//! Names and texts that the protocol fixes.

pub mod default;

use vstd::prelude::*;

verus! {

/// The name under which the filter registers.
pub const NAME: &'static str = "PostKeeper";

/// The macro that holds the address of the recipient.
pub const MACRO_RECPT_ADDR: &'static str = "{rcpt_addr}";

/// The macro that holds the address of the sender.
pub const MACRO_SENDER_ADDR: &'static str = "{mail_addr}";

/// The header that marks a message whose sender is on the allow list of its
/// recipient.
pub const POSTKEEPER_HEADER: &'static str = "X-Postkeeper-Allow";

/// The value of the marker header.
pub const POSTKEEPER_HEADER_VALUE: &'static str = "Yes";

} // verus!
