//! The records that flow through the engine: transactions and their events.
use vstd::prelude::*;

verus! {

/// The logical source of an event.
pub enum EventEmitter {
    /// An instance-level emitter, identified by the entity's address.
    Method { entity_address: String },
    /// A type-level emitter, identified by its package and blueprint.
    Function { package_address: String, blueprint_name: String },
}

impl EventEmitter {
    /// The address under which handlers for this emitter are registered.
    pub open spec fn address_spec(&self) -> Seq<char> {
        match self {
            EventEmitter::Method { entity_address } => entity_address@,
            EventEmitter::Function { package_address, .. } => package_address@,
        }
    }

    /// Returns the entity address of a method emitter, or the package address
    /// of a function emitter.
    pub fn address(&self) -> (r: &String)
        ensures
            r@ == self.address_spec(),
    {
        match self {
            EventEmitter::Method { entity_address } => entity_address,
            EventEmitter::Function { package_address, .. } => package_address,
        }
    }
}

/// One state-change notification within a transaction. The payload is
/// carried byte for byte and never inspected here.
pub struct Event {
    pub name: String,
    pub emitter: EventEmitter,
    pub binary_sbor_data: Vec<u8>,
}

/// One committed unit of the ledger, with its events in emission order.
pub struct Transaction {
    pub intent_hash: String,
    pub state_version: u64,
    pub confirmed_at: Option<String>,
    pub events: Vec<Event>,
}

} // verus!
