//! The bus driver's errors, as the protocol reports them.

use vstd::prelude::*;
use crate::protocol::TiwmError;

verus! {

/// The error type of the bus driver, `embassy_nrf::twim::Error`.
#[verifier::external_type_specification]
#[verifier::external_body]
pub struct ExTwimError(embassy_nrf::twim::Error);

/// Names the cause of a failed transfer: each variant of
/// `embassy_nrf::twim::Error` becomes the variant of the same name, and a
/// variant that the driver may add later becomes `Unknown`. The driver's
/// error is opaque here, so nothing is claimed of the result.
#[verifier::external_body]
pub fn twim_err_to_common(twim_err: embassy_nrf::twim::Error) -> (cause: TiwmError) {
    match twim_err {
        embassy_nrf::twim::Error::TxBufferTooLong => TiwmError::TxBufferTooLong,
        embassy_nrf::twim::Error::RxBufferTooLong => TiwmError::RxBufferTooLong,
        embassy_nrf::twim::Error::Transmit => TiwmError::Transmit,
        embassy_nrf::twim::Error::Receive => TiwmError::Receive,
        embassy_nrf::twim::Error::RAMBufferTooSmall => TiwmError::RAMBufferTooSmall,
        embassy_nrf::twim::Error::AddressNack => TiwmError::AddressNack,
        embassy_nrf::twim::Error::DataNack => TiwmError::DataNack,
        embassy_nrf::twim::Error::Overrun => TiwmError::Overrun,
        embassy_nrf::twim::Error::Timeout => TiwmError::Timeout,
        _ => TiwmError::Unknown,
    }
}

} // verus!
