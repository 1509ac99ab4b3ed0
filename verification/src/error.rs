//! Faults of the card protocol and the generic error codes they are reported as.

use axdriver_base::DevError;
use vstd::prelude::*;

verus! {

/// `axdriver_base::DevError`, the error type shared by all device drivers.
///
/// The declaration only makes the type known to Verus, which reads the
/// variants from the crate itself; nothing is assumed about it.
#[verifier::external_type_specification]
pub struct ExDevError(axdriver_base::DevError);

/// A fault reported by the controller driver while it runs a command, moves
/// data or negotiates with the card.
#[derive(Debug, Clone, Copy, PartialEq, Eq)]
pub enum SdError {
    /// Command timeout.
    Timeout,
    /// Command CRC error.
    Crc,
    /// Command end bit error.
    EndBit,
    /// Command index error.
    Index,
    /// Data timeout.
    DataTimeout,
    /// Data CRC error.
    DataCrc,
    /// Data end bit error.
    DataEndBit,
    /// Bus power error.
    BusPower,
    /// Auto CMD12 error.
    Acmd12Error,
    /// ADMA error.
    AdmaError,
    /// Invalid response received.
    InvalidResponse,
    /// No card detected.
    NoCard,
    /// Unsupported card type.
    UnsupportedCard,
    /// General I/O error.
    IoError,
    /// Command execution error.
    CommandError,
    /// Data transfer error.
    TransferError,
    /// Invalid response type for the command.
    InvalidResponseType,
    /// Current limit exceeded.
    CurrentLimit,
    /// General data error.
    DataError,
    /// Tuning procedure failed.
    TuningFailed,
    /// Voltage switch failed.
    VoltageSwitchFailed,
    /// Bad message format.
    BadMessage,
    /// Invalid argument provided.
    InvalidArgument,
    /// Buffer overflow occurred.
    BufferOverflow,
    /// Memory allocation or access error.
    MemoryError,
    /// Bus width configuration error.
    BusWidth,
    /// Card-specific error with the card status and a description.
    CardError(u32, &'static str),
}

/// The fault is transient: the same request may succeed when tried again.
pub open spec fn is_transient(err: SdError) -> bool {
    err is Timeout || err is DataTimeout
}

/// The card answered, but not in the way the protocol allows, or the bus
/// could not be brought into the state the host asked for.
pub open spec fn is_protocol_inconsistency(err: SdError) -> bool {
    ||| err is InvalidResponse
    ||| err is InvalidResponseType
    ||| err is TuningFailed
    ||| err is VoltageSwitchFailed
    ||| err is BusWidth
}

/// The request itself was malformed.
pub open spec fn is_malformed_request(err: SdError) -> bool {
    err is BadMessage || err is InvalidArgument
}

/// Memory or buffer capacity ran out.
pub open spec fn is_memory_fault(err: SdError) -> bool {
    err is BufferOverflow || err is MemoryError
}

/// The generic code under which a protocol fault is reported.
///
/// Every fault that falls in none of the named classes is a plain transfer
/// or bus fault and is reported as `Io`; a card-specific error is among them,
/// whatever status and description it carries.
pub open spec fn generic_code(err: SdError) -> DevError {
    if is_transient(err) {
        DevError::Again
    } else if is_protocol_inconsistency(err) {
        DevError::BadState
    } else if err is NoCard {
        DevError::ResourceBusy
    } else if err is UnsupportedCard {
        DevError::Unsupported
    } else if is_malformed_request(err) {
        DevError::InvalidParam
    } else if is_memory_fault(err) {
        DevError::NoMemory
    } else {
        DevError::Io
    }
}

/// The codes the adapter ever reports: all of `DevError` but `AlreadyExists`.
pub open spec fn is_adapter_code(code: DevError) -> bool {
    ||| code is Again
    ||| code is Io
    ||| code is BadState
    ||| code is ResourceBusy
    ||| code is Unsupported
    ||| code is InvalidParam
    ||| code is NoMemory
}

/// Maps a fault of the card protocol to the generic device error it is
/// reported as.
pub fn deal_emmc_err(err: SdError) -> (code: DevError)
    ensures
        code == generic_code(err),
        is_adapter_code(code),
{
    match err {
        SdError::Timeout | SdError::DataTimeout => DevError::Again,
        SdError::Crc
        | SdError::EndBit
        | SdError::Index
        | SdError::DataCrc
        | SdError::DataEndBit
        | SdError::DataError => DevError::Io,
        SdError::BusPower | SdError::CurrentLimit => DevError::Io,
        SdError::Acmd12Error | SdError::AdmaError => DevError::Io,
        SdError::InvalidResponse | SdError::InvalidResponseType => DevError::BadState,
        SdError::NoCard => DevError::ResourceBusy,
        SdError::UnsupportedCard => DevError::Unsupported,
        SdError::IoError | SdError::TransferError => DevError::Io,
        SdError::CommandError => DevError::Io,
        SdError::TuningFailed | SdError::VoltageSwitchFailed => DevError::BadState,
        SdError::BadMessage | SdError::InvalidArgument => DevError::InvalidParam,
        SdError::BufferOverflow | SdError::MemoryError => DevError::NoMemory,
        SdError::BusWidth => DevError::BadState,
        SdError::CardError(_, _) => DevError::Io,
    }
}

/// Every protocol fault is reported as exactly one of the seven adapter
/// codes: `generic_code` is a function, and its value is never
/// `AlreadyExists`.
pub proof fn lemma_code_is_adapter_code(err: SdError)
    ensures
        is_adapter_code(generic_code(err)),
{
}

/// Each of the seven adapter codes is the report of some protocol fault.
pub proof fn lemma_every_adapter_code_is_reported(code: DevError)
    requires
        is_adapter_code(code),
    ensures
        exists|err: SdError| generic_code(err) == code,
{
    match code {
        DevError::Again => {
            assert(generic_code(SdError::Timeout) == code);
        },
        DevError::Io => {
            assert(generic_code(SdError::IoError) == code);
        },
        DevError::BadState => {
            assert(generic_code(SdError::BusWidth) == code);
        },
        DevError::ResourceBusy => {
            assert(generic_code(SdError::NoCard) == code);
        },
        DevError::Unsupported => {
            assert(generic_code(SdError::UnsupportedCard) == code);
        },
        DevError::InvalidParam => {
            assert(generic_code(SdError::BadMessage) == code);
        },
        DevError::NoMemory => {
            assert(generic_code(SdError::MemoryError) == code);
        },
        DevError::AlreadyExists => {},
    }
}

} // verus!
