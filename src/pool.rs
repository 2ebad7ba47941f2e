use vstd::prelude::*;

use crate::address::Address;

verus! {

/// The accounts that make up a pool.
#[derive(Clone, Debug, PartialEq, Eq)]
pub struct PoolAccounts {
    pub pool_id: Option<Address>,
    pub pool_config: Option<Address>,
    pub pool_observation: Option<Address>,
    pub pool_protocol_positions: Vec<Address>,
    pub pool_personal_positions: Vec<Address>,
    pub pool_tick_arrays: Vec<Address>,
}

impl Default for PoolAccounts {
    /// No account known yet: every address absent, every list empty.
    fn default() -> (r: PoolAccounts)
        ensures
            r.pool_id is None,
            r.pool_config is None,
            r.pool_observation is None,
            r.pool_protocol_positions@.len() == 0,
            r.pool_personal_positions@.len() == 0,
            r.pool_tick_arrays@.len() == 0,
    {
        PoolAccounts {
            pool_id: None,
            pool_config: None,
            pool_observation: None,
            pool_protocol_positions: Vec::new(),
            pool_personal_positions: Vec::new(),
            pool_tick_arrays: Vec::new(),
        }
    }
}

} // verus!
