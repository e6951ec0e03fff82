//! Rating service for ptera players: the records it keeps, the rules by
//! which ratings move after a match, and the requests it sends to storage.
use vstd::prelude::*;

pub mod bll;
pub mod decimal;
pub mod entity;
pub mod infrastructure;
pub mod routing;
pub mod service_handler;

verus! {

/// Settings the service reads from its environment.
#[derive(Debug)]
pub struct Config {
    /// The region of the table that stores the ratings.
    pub region: String,
    /// The name of the table that stores the ratings.
    pub table_name: String,
    /// The most that one update may move a player's rating.
    pub max_delta_rate: u64,
}

impl Config {
    /// Builds the settings from their three values.
    pub fn new(region: String, table_name: String, max_delta_rate: u64) -> (config: Self)
        ensures
            config.region@ == region@,
            config.table_name@ == table_name@,
            config.max_delta_rate == max_delta_rate,
    {
        Config { region, table_name, max_delta_rate }
    }
}

} // verus!
