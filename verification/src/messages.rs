//! The command message the remote publishes for the boat: the five channel
//! outputs, stamped with the timestamp of the query being answered.  The
//! network transport and the JSON encoding around it are the embedding
//! program's concern.

use vstd::prelude::*;

verus! {

/// One full set of channel outputs, as served to the boat.
#[derive(Debug, Clone, PartialEq)]
pub struct CommandMessage {
    pub msg_type: String,
    pub timestamp: u64,
    pub rudder_star: u16,
    pub rudder_port: u16,
    pub motor: u16,
    pub boom: u16,
    pub genoa: u16,
}

impl CommandMessage {
    /// The same command, stamped with the timestamp of the query it
    /// answers, so the boat can measure its lag.
    pub fn with_timestamp(&self, timestamp: u64) -> (r: CommandMessage)
        ensures
            r == (CommandMessage { timestamp, ..*self }),
    {
        CommandMessage {
            msg_type: self.msg_type.clone(),
            timestamp,
            rudder_star: self.rudder_star,
            rudder_port: self.rudder_port,
            motor: self.motor,
            boom: self.boom,
            genoa: self.genoa,
        }
    }
}

} // verus!
