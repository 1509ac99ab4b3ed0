use axdriver_base::DevError;
use emmc_block::error::{deal_emmc_err, SdError};

const ALL_FAULTS: [SdError; 27] = [
    SdError::Timeout,
    SdError::Crc,
    SdError::EndBit,
    SdError::Index,
    SdError::DataTimeout,
    SdError::DataCrc,
    SdError::DataEndBit,
    SdError::BusPower,
    SdError::Acmd12Error,
    SdError::AdmaError,
    SdError::InvalidResponse,
    SdError::NoCard,
    SdError::UnsupportedCard,
    SdError::IoError,
    SdError::CommandError,
    SdError::TransferError,
    SdError::InvalidResponseType,
    SdError::CurrentLimit,
    SdError::DataError,
    SdError::TuningFailed,
    SdError::VoltageSwitchFailed,
    SdError::BadMessage,
    SdError::InvalidArgument,
    SdError::BufferOverflow,
    SdError::MemoryError,
    SdError::BusWidth,
    SdError::CardError(0x8000_0000, "address out of range"),
];

#[test]
fn timeouts_are_reported_as_again() {
    assert!(matches!(deal_emmc_err(SdError::Timeout), DevError::Again));
    assert!(matches!(deal_emmc_err(SdError::DataTimeout), DevError::Again));
}

#[test]
fn command_line_faults_are_reported_as_io() {
    assert!(matches!(deal_emmc_err(SdError::Crc), DevError::Io));
    assert!(matches!(deal_emmc_err(SdError::EndBit), DevError::Io));
    assert!(matches!(deal_emmc_err(SdError::Index), DevError::Io));
    assert!(matches!(deal_emmc_err(SdError::CommandError), DevError::Io));
    assert!(matches!(deal_emmc_err(SdError::Acmd12Error), DevError::Io));
}

#[test]
fn data_line_faults_are_reported_as_io() {
    assert!(matches!(deal_emmc_err(SdError::DataCrc), DevError::Io));
    assert!(matches!(deal_emmc_err(SdError::DataEndBit), DevError::Io));
    assert!(matches!(deal_emmc_err(SdError::DataError), DevError::Io));
    assert!(matches!(deal_emmc_err(SdError::AdmaError), DevError::Io));
    assert!(matches!(deal_emmc_err(SdError::IoError), DevError::Io));
    assert!(matches!(deal_emmc_err(SdError::TransferError), DevError::Io));
}

#[test]
fn power_faults_are_reported_as_io() {
    assert!(matches!(deal_emmc_err(SdError::BusPower), DevError::Io));
    assert!(matches!(deal_emmc_err(SdError::CurrentLimit), DevError::Io));
}

#[test]
fn protocol_inconsistencies_are_reported_as_bad_state() {
    assert!(matches!(deal_emmc_err(SdError::InvalidResponse), DevError::BadState));
    assert!(matches!(deal_emmc_err(SdError::InvalidResponseType), DevError::BadState));
    assert!(matches!(deal_emmc_err(SdError::TuningFailed), DevError::BadState));
    assert!(matches!(deal_emmc_err(SdError::VoltageSwitchFailed), DevError::BadState));
    assert!(matches!(deal_emmc_err(SdError::BusWidth), DevError::BadState));
}

#[test]
fn missing_card_is_reported_as_resource_busy() {
    assert!(matches!(deal_emmc_err(SdError::NoCard), DevError::ResourceBusy));
}

#[test]
fn unsupported_card_is_reported_as_unsupported() {
    assert!(matches!(deal_emmc_err(SdError::UnsupportedCard), DevError::Unsupported));
}

#[test]
fn malformed_requests_are_reported_as_invalid_param() {
    assert!(matches!(deal_emmc_err(SdError::BadMessage), DevError::InvalidParam));
    assert!(matches!(deal_emmc_err(SdError::InvalidArgument), DevError::InvalidParam));
}

#[test]
fn memory_faults_are_reported_as_no_memory() {
    assert!(matches!(deal_emmc_err(SdError::BufferOverflow), DevError::NoMemory));
    assert!(matches!(deal_emmc_err(SdError::MemoryError), DevError::NoMemory));
}

#[test]
fn card_errors_are_reported_as_io_whatever_they_carry() {
    assert!(matches!(deal_emmc_err(SdError::CardError(0, "")), DevError::Io));
    assert!(matches!(deal_emmc_err(SdError::CardError(u32::MAX, "card is locked")), DevError::Io));
    assert!(matches!(deal_emmc_err(SdError::CardError(0x0040_0000, "illegal command")), DevError::Io));
}

#[test]
fn no_fault_is_reported_as_already_exists() {
    for fault in ALL_FAULTS {
        assert!(!matches!(deal_emmc_err(fault), DevError::AlreadyExists));
    }
}

#[test]
fn the_same_fault_is_always_reported_alike() {
    for fault in ALL_FAULTS {
        let first = format!("{:?}", deal_emmc_err(fault));
        let second = format!("{:?}", deal_emmc_err(fault));
        assert_eq!(first, second);
    }
}

#[test]
fn every_adapter_code_is_the_report_of_some_fault() {
    let mut seen: Vec<String> = Vec::new();
    for fault in ALL_FAULTS {
        let code = format!("{:?}", deal_emmc_err(fault));
        if !seen.contains(&code) {
            seen.push(code);
        }
    }
    seen.sort();
    assert_eq!(
        seen,
        vec![
            "Again",
            "BadState",
            "InvalidParam",
            "Io",
            "NoMemory",
            "ResourceBusy",
            "Unsupported",
        ]
    );
}

#[test]
fn io_is_the_report_of_fourteen_faults() {
    let mut io = 0;
    for fault in ALL_FAULTS {
        if matches!(deal_emmc_err(fault), DevError::Io) {
            io += 1;
        }
    }
    assert_eq!(io, 14);
}
