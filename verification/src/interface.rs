//! One logical USB interface bound to an interrupt-IN and an
//! interrupt-OUT endpoint, implementing a strict alternating echo-style
//! request/response transport.
//!
//! The transport is byte-exact at the framing level: it interprets no
//! payload. The non-blocking endpoint read itself happens in the
//! unverified runtime; its outcome is handed to [`KeepKeyInterface::poll`],
//! which decides the echo write and tracks the protocol state. Violating
//! the expected request/response sequence is a fatal protocol error,
//! never a recoverable one.

use vstd::prelude::*;

use crate::types::FatalError;

verus! {

/// Maximum packet size of both interrupt endpoints, in bytes.
pub const MAX_PACKET_SIZE: u16 = 64;

/// Polling interval both endpoint descriptors advertise, in milliseconds.
pub const POLL_INTERVAL_MS: u8 = 1;

/// USB language identifier for English (United States).
pub const LANG_ENGLISH_US: u16 = 0x0409;

/// Address of one endpoint: its number and its direction.
#[derive(Clone, Copy, Debug, PartialEq, Eq, Structural)]
pub struct EndpointAddress {
    pub number: u8,
    pub is_in: bool,
}

/// Hands out interface numbers, string indices and endpoint addresses
/// for one composite USB device, each kind in increasing order.
pub struct UsbEndpointAllocator {
    pub next_interface: u8,
    pub next_string: u8,
    pub next_in: u8,
    pub next_out: u8,
}

impl UsbEndpointAllocator {
    /// A fresh allocator. String index 0 is reserved for the language
    /// table and interrupt endpoint numbers start at 1, as endpoint 0 is
    /// the control endpoint.
    pub fn new() -> (r: UsbEndpointAllocator)
        ensures
            r.next_interface == 0u8,
            r.next_string == 1u8,
            r.next_in == 1u8,
            r.next_out == 1u8,
    {
        UsbEndpointAllocator { next_interface: 0, next_string: 1, next_in: 1, next_out: 1 }
    }

    /// The next unused interface number.
    pub fn interface(&mut self) -> (r: u8)
        requires
            old(self).next_interface < u8::MAX,
        ensures
            r == old(self).next_interface,
            *final(self) == (UsbEndpointAllocator {
                next_interface: (old(self).next_interface + 1) as u8,
                ..*old(self)
            }),
    {
        let r = self.next_interface;
        self.next_interface = self.next_interface + 1;
        r
    }

    /// The next unused string descriptor index.
    pub fn string(&mut self) -> (r: u8)
        requires
            old(self).next_string < u8::MAX,
        ensures
            r == old(self).next_string,
            *final(self) == (UsbEndpointAllocator {
                next_string: (old(self).next_string + 1) as u8,
                ..*old(self)
            }),
    {
        let r = self.next_string;
        self.next_string = self.next_string + 1;
        r
    }

    /// The next unused interrupt-IN endpoint address.
    pub fn interrupt_in(&mut self) -> (r: EndpointAddress)
        requires
            old(self).next_in < u8::MAX,
        ensures
            r == (EndpointAddress { number: old(self).next_in, is_in: true }),
            *final(self) == (UsbEndpointAllocator {
                next_in: (old(self).next_in + 1) as u8,
                ..*old(self)
            }),
    {
        let r = EndpointAddress { number: self.next_in, is_in: true };
        self.next_in = self.next_in + 1;
        r
    }

    /// The next unused interrupt-OUT endpoint address.
    pub fn interrupt_out(&mut self) -> (r: EndpointAddress)
        requires
            old(self).next_out < u8::MAX,
        ensures
            r == (EndpointAddress { number: old(self).next_out, is_in: false }),
            *final(self) == (UsbEndpointAllocator {
                next_out: (old(self).next_out + 1) as u8,
                ..*old(self)
            }),
    {
        let r = EndpointAddress { number: self.next_out, is_in: false };
        self.next_out = self.next_out + 1;
        r
    }
}

/// One record of the configuration descriptor a class contributes.
pub enum DescriptorEntry {
    /// An interface descriptor (alternate setting form).
    Interface {
        number: u8,
        alternate_setting: u8,
        class: u8,
        subclass: u8,
        protocol: u8,
        string_index: u8,
    },
    /// An endpoint descriptor for an interrupt endpoint.
    Endpoint { address: EndpointAddress, max_packet_size: u16, interval_ms: u8 },
}

/// Collects the configuration descriptor records of a composite device.
pub struct DescriptorWriter {
    pub entries: Vec<DescriptorEntry>,
}

impl DescriptorWriter {
    /// An empty descriptor set.
    pub fn new() -> (r: DescriptorWriter)
        ensures
            r.entries@ == Seq::<DescriptorEntry>::empty(),
    {
        DescriptorWriter { entries: Vec::new() }
    }
}

/// Outcome of the runtime's non-blocking read of the interrupt OUT
/// endpoint, handed to [`KeepKeyInterface::poll`].
pub enum ReadOutcome {
    /// A packet of at most [`MAX_PACKET_SIZE`] bytes arrived.
    Data(Vec<u8>),
    /// No data was available; the expected idle outcome.
    WouldBlock,
    /// The read failed in any other way.
    HardwareError,
}

/// The interface state machine. `expect_interrupt_out` is set when the
/// hardware signals OUT data ready and cleared by the poll that consumes
/// the data; `expect_interrupt_in_complete` is set when an echo response
/// is submitted to the IN endpoint and cleared by the host's completion
/// signal.
pub struct KeepKeyInterface {
    pub interface_name: String,
    pub interface_num: u8,
    pub interface_str: u8,
    pub ep_interrupt_in: EndpointAddress,
    pub ep_interrupt_out: EndpointAddress,
    pub interrupt_buf: Vec<u8>,
    pub expect_interrupt_in_complete: bool,
    pub expect_interrupt_out: bool,
}

impl KeepKeyInterface {
    /// The two endpoints point in opposite directions, so no single
    /// completion or data-ready signal can match both.
    pub open spec fn wf(&self) -> bool {
        &&& self.ep_interrupt_in.is_in
        &&& !self.ep_interrupt_out.is_in
    }

    /// Binds a fresh interface to one interrupt-IN and one interrupt-OUT
    /// endpoint, with no outstanding expectation.
    pub fn new(alloc: &mut UsbEndpointAllocator, interface_name: String) -> (r: KeepKeyInterface)
        requires
            old(alloc).next_interface < u8::MAX,
            old(alloc).next_string < u8::MAX,
            old(alloc).next_in < u8::MAX,
            old(alloc).next_out < u8::MAX,
        ensures
            r.wf(),
            r.interface_name@ == interface_name@,
            r.interface_num == old(alloc).next_interface,
            r.interface_str == old(alloc).next_string,
            r.ep_interrupt_in == (EndpointAddress { number: old(alloc).next_in, is_in: true }),
            r.ep_interrupt_out == (EndpointAddress { number: old(alloc).next_out, is_in: false }),
            r.interrupt_buf@ == Seq::<u8>::empty(),
            r.expect_interrupt_in_complete == false,
            r.expect_interrupt_out == false,
            final(alloc).next_interface == old(alloc).next_interface + 1,
            final(alloc).next_string == old(alloc).next_string + 1,
            final(alloc).next_in == old(alloc).next_in + 1,
            final(alloc).next_out == old(alloc).next_out + 1,
    {
        let interface_str = alloc.string();
        let interface_num = alloc.interface();
        let ep_interrupt_in = alloc.interrupt_in();
        let ep_interrupt_out = alloc.interrupt_out();
        KeepKeyInterface {
            interface_name,
            interface_num,
            interface_str,
            ep_interrupt_in,
            ep_interrupt_out,
            interrupt_buf: Vec::new(),
            expect_interrupt_in_complete: false,
            expect_interrupt_out: false,
        }
    }

    /// Consumes the outcome of this iteration's non-blocking OUT read.
    /// Data whose data-ready notification preceded it is echoed back
    /// byte-exactly: `Ok(Some(payload))` instructs the runtime to write
    /// `payload` to the IN endpoint, and the completion expectation is
    /// set. "No data available" is the expected idle outcome and changes
    /// nothing. Data without a preceding notification, or any other read
    /// failure, is a fatal protocol error and changes nothing.
    pub fn poll(&mut self, read: ReadOutcome) -> (r: Result<Option<Vec<u8>>, FatalError>)
        requires
            read matches ReadOutcome::Data(data) ==> data@.len() <= MAX_PACKET_SIZE,
        ensures
            read is WouldBlock ==> *final(self) == *old(self) && r == Ok::<Option<Vec<u8>>,
                FatalError,
            >(None),
            read matches ReadOutcome::Data(data) ==> {
                &&& old(self).expect_interrupt_out ==> {
                    &&& *final(self) == (KeepKeyInterface {
                        interrupt_buf: final(self).interrupt_buf,
                        expect_interrupt_out: false,
                        expect_interrupt_in_complete: true,
                        ..*old(self)
                    })
                    &&& final(self).interrupt_buf@ == data@
                    &&& (r matches Ok(Some(w)) && w@ == data@)
                }
                &&& !old(self).expect_interrupt_out ==> *final(self) == *old(self) && r == Err::<
                    Option<Vec<u8>>,
                    FatalError,
                >(FatalError::UnexpectedOutData)
            },
            read is HardwareError ==> *final(self) == *old(self) && r == Err::<
                Option<Vec<u8>>,
                FatalError,
            >(FatalError::EndpointReadFailed),
    {
        match read {
            ReadOutcome::Data(data) => {
                if self.expect_interrupt_out {
                    self.expect_interrupt_out = false;
                    self.interrupt_buf = copy_packet(&data);
                    self.expect_interrupt_in_complete = true;
                    Ok(Some(data))
                } else {
                    Err(FatalError::UnexpectedOutData)
                }
            },
            ReadOutcome::WouldBlock => Ok(None),
            ReadOutcome::HardwareError => Err(FatalError::EndpointReadFailed),
        }
    }

    /// Returns to `Idle` on a host bus reset: both expectations are
    /// cleared.
    pub fn reset(&mut self)
        ensures
            *final(self) == (KeepKeyInterface {
                expect_interrupt_in_complete: false,
                expect_interrupt_out: false,
                ..*old(self)
            }),
    {
        self.expect_interrupt_in_complete = false;
        self.expect_interrupt_out = false;
    }

    /// Handles the host's completion signal for an IN transfer. A
    /// completion on this interface's IN endpoint must come exactly when
    /// one is outstanding; an unexpected one is a fatal double-completion
    /// defect. Signals for other endpoints are ignored.
    pub fn endpoint_in_complete(&mut self, addr: EndpointAddress) -> (r: Result<(), FatalError>)
        ensures
            addr != old(self).ep_interrupt_in ==> *final(self) == *old(self) && r == Ok::<
                (),
                FatalError,
            >(()),
            (addr == old(self).ep_interrupt_in && old(self).expect_interrupt_in_complete)
                ==> *final(self) == (KeepKeyInterface {
                    expect_interrupt_in_complete: false,
                    ..*old(self)
                }) && r == Ok::<(), FatalError>(()),
            (addr == old(self).ep_interrupt_in && !old(self).expect_interrupt_in_complete)
                ==> *final(self) == *old(self)
                && r == Err::<(), FatalError>(FatalError::UnexpectedInCompletion),
    {
        if addr == self.ep_interrupt_in {
            if self.expect_interrupt_in_complete {
                self.expect_interrupt_in_complete = false;
                Ok(())
            } else {
                Err(FatalError::UnexpectedInCompletion)
            }
        } else {
            Ok(())
        }
    }

    /// Handles the hardware's OUT data-ready notification: marks the
    /// data as awaiting consumption by the next poll. Signals for other
    /// endpoints are ignored.
    pub fn endpoint_out(&mut self, addr: EndpointAddress)
        ensures
            addr == old(self).ep_interrupt_out ==> *final(self) == (KeepKeyInterface {
                expect_interrupt_out: true,
                ..*old(self)
            }),
            addr != old(self).ep_interrupt_out ==> *final(self) == *old(self),
    {
        if addr == self.ep_interrupt_out {
            self.expect_interrupt_out = true;
        }
    }

    /// Contributes this interface's part of the configuration
    /// descriptor: one vendor-class interface descriptor followed by its
    /// two interrupt endpoint descriptors, each advertising a 64-byte
    /// maximum packet size and a 1 ms polling interval.
    pub fn get_configuration_descriptors(&self, writer: &mut DescriptorWriter) -> (r: Result<
        (),
        FatalError,
    >)
        ensures
            r is Ok,
            final(writer).entries@ == old(writer).entries@.push(
                DescriptorEntry::Interface {
                    number: self.interface_num,
                    alternate_setting: 0u8,
                    class: 0xffu8,
                    subclass: 0x00u8,
                    protocol: 0x00u8,
                    string_index: self.interface_str,
                },
            ).push(
                DescriptorEntry::Endpoint {
                    address: self.ep_interrupt_in,
                    max_packet_size: MAX_PACKET_SIZE,
                    interval_ms: POLL_INTERVAL_MS,
                },
            ).push(
                DescriptorEntry::Endpoint {
                    address: self.ep_interrupt_out,
                    max_packet_size: MAX_PACKET_SIZE,
                    interval_ms: POLL_INTERVAL_MS,
                },
            ),
    {
        writer.entries.push(
            DescriptorEntry::Interface {
                number: self.interface_num,
                alternate_setting: 0,
                class: 0xff,
                subclass: 0x00,
                protocol: 0x00,
                string_index: self.interface_str,
            },
        );
        writer.entries.push(
            DescriptorEntry::Endpoint {
                address: self.ep_interrupt_in,
                max_packet_size: MAX_PACKET_SIZE,
                interval_ms: POLL_INTERVAL_MS,
            },
        );
        writer.entries.push(
            DescriptorEntry::Endpoint {
                address: self.ep_interrupt_out,
                max_packet_size: MAX_PACKET_SIZE,
                interval_ms: POLL_INTERVAL_MS,
            },
        );
        Ok(())
    }

    /// A string descriptor lookup: the interface's human-readable name,
    /// only for the English-US language id and only for this interface's
    /// own string index. Anything else is a negative lookup result, not
    /// an error.
    pub fn get_string(&self, index: u8, lang_id: u16) -> (r: Option<&str>)
        ensures
            lang_id == LANG_ENGLISH_US && index == self.interface_str ==> (r matches Some(s)
                && s@ == self.interface_name@),
            !(lang_id == LANG_ENGLISH_US && index == self.interface_str) ==> r is None,
    {
        if lang_id == LANG_ENGLISH_US && index == self.interface_str {
            Some(self.interface_name.as_str())
        } else {
            None
        }
    }
}

/// Byte-for-byte copy of a packet.
fn copy_packet(src: &Vec<u8>) -> (r: Vec<u8>)
    ensures
        r@ == src@,
{
    let mut out: Vec<u8> = Vec::new();
    let mut i: usize = 0;
    while i < src.len()
        invariant
            i <= src@.len(),
            out@ == src@.take(i as int),
        decreases src@.len() - i,
    {
        let b = src[i];
        out.push(b);
        proof {
            assert(src@.take(i as int + 1) =~= src@.take(i as int).push(src@[i as int]));
        }
        i += 1;
    }
    proof {
        assert(src@.take(src@.len() as int) =~= src@);
    }
    out
}

} // verus!
