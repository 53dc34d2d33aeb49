//! The activation event that the broker delivers for a wallet.

use vstd::prelude::*;

verus! {

/// One activation event: the wallet `wallet_id`, which watches `address`,
/// is to be monitored from now on (`is_active`) or no longer.
#[derive(Clone, Debug, PartialEq, Eq)]
pub struct Message {
    pub address: String,
    pub is_active: bool,
    pub wallet_id: String,
}

/// The mathematical value of a [`Message`].
pub struct MessageView {
    pub address: Seq<char>,
    pub is_active: bool,
    pub wallet_id: Seq<char>,
}

impl View for Message {
    type V = MessageView;

    open spec fn view(&self) -> MessageView {
        MessageView {
            address: self.address@,
            is_active: self.is_active,
            wallet_id: self.wallet_id@,
        }
    }
}

impl Message {
    /// An event from its three parts.
    pub fn new(address: String, is_active: bool, wallet_id: String) -> (r: Message)
        ensures
            r@.address == address@,
            r@.is_active == is_active,
            r@.wallet_id == wallet_id@,
    {
        Message { address, is_active, wallet_id }
    }
}

} // verus!
