use vstd::prelude::*;

verus! {

/// Everything that can stop a probe from being built or sent.
#[derive(Debug, Clone, PartialEq, Eq)]
pub enum ProbeError {
    /// The text is not a region-network identifier; carries the text.
    MalformedIdentifier(String),
    /// The path-lookup service could not be reached.
    DaemonUnavailable,
    /// The requested path index is not below the number of candidates.
    PathIndexOutOfRange { requested: usize, available: usize },
    /// The selected candidate could not be turned into a path.
    PathConversionError,
    /// The protocol encoder refused the packet.
    EncodingFailed,
    /// The headers could not be written around the payload.
    DatagramTooLarge,
    /// The raw transport could not be opened or a send failed.
    TransmissionFailed,
}

} // verus!
