use vstd::prelude::*;

verus! {

/// The failure kinds this library reports. Every operation surfaces its
/// failure to the immediate caller as a `Result`; nothing is retried and
/// nothing is silently recovered.
#[derive(Debug, Clone, PartialEq, Eq)]
pub enum Error {
    /// A header name or value supplied to `header` cannot be validated.
    HeaderConversion,
    /// The transport failed to complete the dispatch; the cause is opaque at
    /// this layer.
    Request,
    /// Draining a response body failed partway; the cause is opaque at this
    /// layer.
    BodyRead,
    /// The drained bytes do not parse as the requested type; carries the
    /// codec's diagnostic message.
    Decode(String),
}

} // verus!
