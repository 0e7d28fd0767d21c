use vstd::prelude::*;

verus! {

/// Why a sensor could not give a reading.
#[derive(Debug, Clone, PartialEq, Eq)]
pub enum SensorError {
    NotSupported,
    ReadError(String),
}

} // verus!
