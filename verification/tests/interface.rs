use keepkey::interface::{
    DescriptorEntry, DescriptorWriter, KeepKeyInterface, ReadOutcome, UsbEndpointAllocator,
    LANG_ENGLISH_US, MAX_PACKET_SIZE, POLL_INTERVAL_MS,
};
use keepkey::types::FatalError;

fn fresh_interface() -> KeepKeyInterface {
    let mut alloc = UsbEndpointAllocator::new();
    KeepKeyInterface::new(&mut alloc, String::from("KeepKey Interface"))
}

#[test]
fn new_interface_starts_idle_with_opposed_endpoints() {
    let iface = fresh_interface();
    assert!(iface.ep_interrupt_in.is_in);
    assert!(!iface.ep_interrupt_out.is_in);
    assert!(!iface.expect_interrupt_in_complete);
    assert!(!iface.expect_interrupt_out);
    assert_eq!(iface.interface_name, "KeepKey Interface");
}

#[test]
fn allocator_hands_out_increasing_numbers() {
    let mut alloc = UsbEndpointAllocator::new();
    let a = KeepKeyInterface::new(&mut alloc, String::from("a"));
    let b = KeepKeyInterface::new(&mut alloc, String::from("b"));
    assert_ne!(a.interface_num, b.interface_num);
    assert_ne!(a.interface_str, b.interface_str);
    assert_ne!(a.ep_interrupt_in, b.ep_interrupt_in);
    assert_ne!(a.ep_interrupt_out, b.ep_interrupt_out);
}

#[test]
fn idle_poll_with_no_data_is_a_no_op() {
    let mut iface = fresh_interface();
    let r = iface.poll(ReadOutcome::WouldBlock);
    assert!(matches!(r, Ok(None)), "no write may be requested");
    assert!(!iface.expect_interrupt_in_complete);
    assert!(!iface.expect_interrupt_out);
}

#[test]
fn poll_with_no_data_while_awaiting_out_keeps_state() {
    let mut iface = fresh_interface();
    let ep_out = iface.ep_interrupt_out;
    iface.endpoint_out(ep_out);
    let r = iface.poll(ReadOutcome::WouldBlock);
    assert!(matches!(r, Ok(None)));
    assert!(iface.expect_interrupt_out, "pending data stays pending");
}

#[test]
fn thirteen_byte_echo_end_to_end() {
    let mut iface = fresh_interface();
    let payload: Vec<u8> = (1..=13).collect();

    let ep_out = iface.ep_interrupt_out;
    iface.endpoint_out(ep_out);
    assert!(iface.expect_interrupt_out);

    let r = iface.poll(ReadOutcome::Data(payload.clone()));
    match r {
        Ok(Some(written)) => assert_eq!(written, payload, "byte-exact echo"),
        _ => panic!("the poll must echo the payload to the IN endpoint"),
    }
    assert!(!iface.expect_interrupt_out);
    assert!(iface.expect_interrupt_in_complete);
    assert_eq!(iface.interrupt_buf, payload);

    let ep_in = iface.ep_interrupt_in;
    assert_eq!(iface.endpoint_in_complete(ep_in), Ok(()));
    assert!(!iface.expect_interrupt_in_complete);

    // a second completion before a new OUT cycle is fatal
    assert_eq!(
        iface.endpoint_in_complete(ep_in),
        Err(FatalError::UnexpectedInCompletion)
    );
}

#[test]
fn data_without_preceding_notification_is_fatal() {
    let mut iface = fresh_interface();
    let r = iface.poll(ReadOutcome::Data(vec![1, 2, 3]));
    assert_eq!(r, Err(FatalError::UnexpectedOutData));
    assert!(!iface.expect_interrupt_in_complete);
}

#[test]
fn other_read_failures_are_fatal() {
    let mut iface = fresh_interface();
    let r = iface.poll(ReadOutcome::HardwareError);
    assert_eq!(r, Err(FatalError::EndpointReadFailed));
}

#[test]
fn completion_for_a_foreign_endpoint_is_ignored() {
    let mut alloc = UsbEndpointAllocator::new();
    let mut iface = KeepKeyInterface::new(&mut alloc, String::from("a"));
    let other = KeepKeyInterface::new(&mut alloc, String::from("b"));
    assert_eq!(iface.endpoint_in_complete(other.ep_interrupt_in), Ok(()));
    iface.endpoint_out(other.ep_interrupt_out);
    assert!(!iface.expect_interrupt_out);
}

#[test]
fn reset_returns_to_idle() {
    let mut iface = fresh_interface();
    let ep_out = iface.ep_interrupt_out;
    iface.endpoint_out(ep_out);
    let _ = iface.poll(ReadOutcome::Data(vec![7]));
    iface.reset();
    assert!(!iface.expect_interrupt_in_complete);
    assert!(!iface.expect_interrupt_out);
}

#[test]
fn descriptor_contribution_is_vendor_class_with_two_interrupt_endpoints() {
    let iface = fresh_interface();
    let mut w = DescriptorWriter::new();
    assert!(iface.get_configuration_descriptors(&mut w).is_ok());
    assert_eq!(w.entries.len(), 3);
    match &w.entries[0] {
        DescriptorEntry::Interface {
            number,
            alternate_setting,
            class,
            subclass,
            protocol,
            string_index,
        } => {
            assert_eq!(*number, iface.interface_num);
            assert_eq!(*alternate_setting, 0);
            assert_eq!(*class, 0xff, "vendor-defined class");
            assert_eq!(*subclass, 0x00);
            assert_eq!(*protocol, 0x00);
            assert_eq!(*string_index, iface.interface_str);
        }
        _ => panic!("first record must be the interface descriptor"),
    }
    for (entry, ep) in w.entries[1..]
        .iter()
        .zip([iface.ep_interrupt_in, iface.ep_interrupt_out])
    {
        match entry {
            DescriptorEntry::Endpoint {
                address,
                max_packet_size,
                interval_ms,
            } => {
                assert_eq!(*address, ep);
                assert_eq!(*max_packet_size, MAX_PACKET_SIZE);
                assert_eq!(*max_packet_size, 64);
                assert_eq!(*interval_ms, POLL_INTERVAL_MS);
                assert_eq!(*interval_ms, 1);
            }
            _ => panic!("endpoint descriptors must follow"),
        }
    }
}

#[test]
fn string_lookup_answers_only_its_own_index_in_english() {
    let iface = fresh_interface();
    assert_eq!(
        iface.get_string(iface.interface_str, LANG_ENGLISH_US),
        Some("KeepKey Interface")
    );
    assert_eq!(iface.get_string(iface.interface_str + 1, LANG_ENGLISH_US), None);
    assert_eq!(iface.get_string(iface.interface_str, 0x0407), None);
}
