use keepkey::peripheral::{Usb, ENDPOINT_COUNT, FIFO_DEPTH_WORDS, HIGH_SPEED};
use keepkey::serial::serial_number_string;
use keepkey::types::{shutdown_error_text, shutdown_message_text, ShutdownError, ShutdownMessage};

#[test]
fn serial_number_is_uppercase_hex() {
    assert_eq!(serial_number_string(&vec![0x2b, 0x24]), b"2B24".to_vec());
    assert_eq!(
        serial_number_string(&vec![0x00, 0xff, 0x0a]),
        b"00FF0A".to_vec()
    );
    assert_eq!(serial_number_string(&vec![]), b"".to_vec());
}

#[test]
fn serial_number_of_a_full_unique_id() {
    let id: Vec<u8> = vec![0xde, 0xad, 0xbe, 0xef, 0x01, 0x23, 0x45, 0x67, 0x89, 0xab, 0xcd, 0xef];
    assert_eq!(
        serial_number_string(&id),
        b"DEADBEEF0123456789ABCDEF".to_vec()
    );
}

#[test]
fn shutdown_error_texts_match_the_fault_table() {
    assert_eq!(
        shutdown_error_text(ShutdownError::StackSmashingProtection),
        "Stack Smashing Detected"
    );
    assert_eq!(
        shutdown_error_text(ShutdownError::ClockSecuritySystem),
        "Clock Glitch Detected"
    );
    assert_eq!(
        shutdown_error_text(ShutdownError::MemoryFault),
        "Memory Protection Fault"
    );
    assert_eq!(
        shutdown_error_text(ShutdownError::NonMaskableInterrupt),
        "Non-Maskable Interupt Detected"
    );
    assert_eq!(
        shutdown_error_text(ShutdownError::ResetFailed),
        "Board Reset Failed"
    );
    assert_eq!(
        shutdown_error_text(ShutdownError::FaultInjectionDefense),
        "Fault Injection Detected"
    );
}

#[test]
fn shutdown_message_text_selects_the_diagnostic_line() {
    assert_eq!(
        shutdown_message_text(&ShutdownMessage::Text(String::from("Board Reset Failed"))),
        "Board Reset Failed"
    );
    assert_eq!(shutdown_message_text(&ShutdownMessage::Panic), "Panic");
}

#[test]
fn usb_peripheral_parameters() {
    let usb = Usb {};
    assert_eq!(usb.ahb_frequency_hz(), 120_000_000);
    Usb::enable();
    assert!(!HIGH_SPEED);
    assert_eq!(FIFO_DEPTH_WORDS, 320);
    assert_eq!(ENDPOINT_COUNT, 4);
}
