use vstd::prelude::*;

verus! {

#[verifier::external_type_specification]
#[verifier::external_body]
pub struct ExJsonValue(serde_json::Value);

#[verifier::external_type_specification]
#[verifier::external_body]
pub struct ExJsonError(serde_json::Error);

/// The JSON document serde_json reads from `text`, or `None` where the text
/// is not JSON.
pub uninterp spec fn json_document(text: Seq<char>) -> Option<serde_json::Value>;

/// The member `key` of a JSON object, `None` for a missing key or a value
/// that is not an object (serde_json's `Value::get` with a string key).
pub uninterp spec fn json_member(value: serde_json::Value, key: Seq<char>) -> Option<
    serde_json::Value,
>;

/// A JSON value read as an unsigned 64-bit integer where it is one
/// (serde_json's `Value::as_u64`).
pub uninterp spec fn json_as_u64(value: serde_json::Value) -> Option<u64>;

/// Calls `serde_json::from_str` for a `serde_json::Value`; the document it
/// reads, and whether it accepts the text, are named `json_document`.
#[verifier::external_body]
fn parse_json_document(text: &str) -> (r: Result<serde_json::Value, serde_json::Error>)
    ensures
        match r {
            Ok(doc) => json_document(text@) == Some(doc),
            Err(_) => json_document(text@) is None,
        },
{
    serde_json::from_str(text)
}

/// Calls `serde_json::Value::get` with a string key; the member it finds is
/// named `json_member`.
#[verifier::external_body]
fn json_get<'a>(value: &'a serde_json::Value, key: &str) -> (r: Option<&'a serde_json::Value>)
    ensures
        match r {
            Some(m) => json_member(*value, key@) == Some(*m),
            None => json_member(*value, key@) is None,
        },
{
    value.get(key)
}

/// Calls `serde_json::Value::as_u64`; its result is named `json_as_u64`.
#[verifier::external_body]
fn json_u64(value: &serde_json::Value) -> (r: Option<u64>)
    ensures
        r == json_as_u64(*value),
{
    value.as_u64()
}

/// Channel capacity used when the configuration names none.
pub const DEFAULT_SIMULATOR_CHANNEL_BUFFER: usize = 256;

/// Settings of the optical simulator stage: the capacity of its message
/// channel.
#[derive(Debug, Clone)]
pub struct SimulatorConfig {
    pub channel_buffer: usize,
}

impl Default for SimulatorConfig {
    fn default() -> (c: Self)
        ensures
            c.channel_buffer == 0,
    {
        SimulatorConfig { channel_buffer: 0 }
    }
}

/// Why a configuration text was refused.
#[derive(Debug)]
pub enum ConfigError {
    /// The text is not a JSON document.
    InvalidJson(serde_json::Error),
}

/// The channel capacity a configuration document names at
/// `service.simulator_channel_buffer`, 256 where it names no unsigned
/// integer there.
pub open spec fn configured_channel_buffer(doc: serde_json::Value) -> usize {
    match json_member(doc, "service"@) {
        Some(service) => match json_member(service, "simulator_channel_buffer"@) {
            Some(buffer) => match json_as_u64(buffer) {
                Some(n) => n as usize,
                None => 256,
            },
            None => 256,
        },
        None => 256,
    }
}

impl SimulatorConfig {
    /// Reads the simulator settings from the text of a JSON configuration
    /// file; refused exactly when the text is not JSON.
    pub fn from_json_text(text: &str) -> (r: Result<Self, ConfigError>)
        ensures
            match r {
                Ok(c) => json_document(text@) matches Some(doc) && c.channel_buffer
                    == configured_channel_buffer(doc) && (json_member(doc, "service"@) matches Some(service)
                    ==> (json_member(service, "simulator_channel_buffer"@) matches Some(buffer)
                    ==> (json_as_u64(buffer) matches Some(n) ==> c.channel_buffer == n as usize))),
                Err(_) => json_document(text@) is None,
            },
    {
        let doc = match parse_json_document(text) {
            Ok(doc) => doc,
            Err(e) => return Err(ConfigError::InvalidJson(e)),
        };
        let buffer = match json_get(&doc, "service") {
            Some(service) => match json_get(service, "simulator_channel_buffer") {
                Some(b) => match json_u64(b) {
                    Some(n) => n as usize,
                    None => DEFAULT_SIMULATOR_CHANNEL_BUFFER,
                },
                None => DEFAULT_SIMULATOR_CHANNEL_BUFFER,
            },
            None => DEFAULT_SIMULATOR_CHANNEL_BUFFER,
        };
        Ok(SimulatorConfig { channel_buffer: buffer })
    }
}

/// A configured unsigned channel capacity is taken as is; wherever the
/// document names none (no `service` member, no buffer member in it, or a
/// buffer that is not an unsigned integer) the capacity is 256.
pub proof fn law_configured_buffer_taken_as_is(doc: serde_json::Value)
    ensures
        json_member(doc, "service"@) matches Some(service) ==> (json_member(
            service,
            "simulator_channel_buffer"@,
        ) matches Some(buffer) ==> (json_as_u64(buffer) matches Some(n)
            ==> configured_channel_buffer(doc) == n as usize)),
        (json_member(doc, "service"@) is None || json_member(
            json_member(doc, "service"@)->0,
            "simulator_channel_buffer"@,
        ) is None || json_as_u64(
            json_member(json_member(doc, "service"@)->0, "simulator_channel_buffer"@)->0,
        ) is None) ==> configured_channel_buffer(doc) == 256,
{
}

/// Optical simulation for one station: the station's simulator together
/// with the store the results go to.
pub struct OpticalSimulatorService<S, O> {
    store: S,
    inner: O,
}

impl<S, O> OpticalSimulatorService<S, O> {
    /// The store results are written to.
    pub closed spec fn spec_store(&self) -> S {
        self.store
    }

    /// The station's optical simulator.
    pub closed spec fn spec_simulator(&self) -> O {
        self.inner
    }

    /// A service writing to `store` with the simulator set up for the
    /// station.
    pub fn new(store: S, simulator: O) -> (s: Self)
        ensures
            s.spec_store() == store,
            s.spec_simulator() == simulator,
    {
        OpticalSimulatorService { store, inner: simulator }
    }

    /// The station's optical simulator.
    pub fn simulator(&self) -> (r: &O)
        ensures
            *r == self.spec_simulator(),
    {
        &self.inner
    }

    /// The store results are written to.
    pub fn store(&self) -> (r: &S)
        ensures
            *r == self.spec_store(),
    {
        &self.store
    }
}

} // verus!
