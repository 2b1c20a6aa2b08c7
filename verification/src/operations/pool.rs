//! User pools.

use crate::guid::Guid;
use vstd::prelude::*;

verus! {

/// The tier levels of HashGate user pools.
#[derive(Debug, Clone, Copy, PartialEq, Eq, Structural)]
pub enum PoolTier {
    /// A demo tier user pool.
    Demo,
    /// A hobby tier user pool.
    Hobby,
    /// A pro tier user pool.
    Pro,
}

/// A HashGate user pool.
#[derive(Debug)]
pub struct Pool {
    /// The id of the user pool.
    pub pool_id: Guid,
    /// The name of the user pool.
    pub pool_name: String,
    /// The tier of the user pool.
    pub pool_tier: PoolTier,
    /// The creation date of the user pool.
    pub creation_date: chrono::NaiveDateTime,
}

impl Clone for Pool {
    fn clone(&self) -> (r: Pool)
        ensures
            r == *self,
    {
        Pool {
            pool_id: self.pool_id,
            pool_name: self.pool_name.clone(),
            pool_tier: self.pool_tier,
            creation_date: self.creation_date,
        }
    }
}

} // verus!
