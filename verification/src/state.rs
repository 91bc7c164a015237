use crate::admin::Admin;
use vstd::prelude::*;

verus! {

/// What the contract keeps in storage.
#[derive(Debug, Clone, PartialEq, Eq)]
pub struct State {
    pub channel_id: String,
    pub ibc_timeout_interval: u64,
    pub min_disbursal_amount: u64,
    pub memo: String,
    pub to_address: String,
    pub admin: Admin,
}

impl State {
    /// Two states agree on everything but the admin.
    pub open spec fn same_config(self, other: State) -> bool {
        &&& self.channel_id == other.channel_id
        &&& self.ibc_timeout_interval == other.ibc_timeout_interval
        &&& self.min_disbursal_amount == other.min_disbursal_amount
        &&& self.memo == other.memo
        &&& self.to_address == other.to_address
    }
}

} // verus!
