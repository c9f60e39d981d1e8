//! The probe protocol engine: encodes protocol commands into fixed-length
//! packets, issues them through a [`Transport`], decodes status and payload,
//! and exposes the probe's operation set.

use vstd::prelude::*;

use crate::commands;
use crate::commands::JTagFrequencyToDivider;
use crate::commands::SwdFrequencyToDelayCount;
use crate::common::spec_u16_le_bytes;
use crate::common::spec_u16_of_le;
use crate::common::spec_u24_of_le;
use crate::common::spec_u32_le_bytes;
use crate::common::spec_u32_of_le;
use crate::common::push_u16_le;
use crate::common::push_u32_le;
use crate::common::u16_of_le;
use crate::common::u24_of_le;
use crate::common::u32_of_le;
use crate::protocol::WireProtocol;
use crate::usb_interface::spec_padded_frame;
use crate::usb_interface::Transport;
use crate::usb_interface::TransportError;
use crate::usb_interface::TIMEOUT_MS;

verus! {

/// Maximum number of bytes to send or receive for a single memory transfer
/// command.
pub const MAXIMUM_TRANSFER_SIZE: u32 = 1024;

/// Minimum required probe firmware version.
pub const MIN_JTAG_VERSION: u32 = 24;

/// Firmware version that adds 16-bit transfers.
pub const MIN_JTAG_VERSION_16BIT_XFER: u32 = 26;

/// Firmware version that adds multiple AP support.
pub const MIN_JTAG_VERSION_MULTI_AP: u32 = 28;

/// Port number used to indicate DP registers.
pub const DP_PORT: u16 = 0xffff;

/// A failure of a probe operation.
#[derive(Clone, Copy, PartialEq, Eq, Structural, Debug)]
pub enum STLinkError {
    USB(TransportError),
    JTAGNotSupportedOnProbe,
    ProbeFirmwareOutdated,
    VoltageDivisionByZero,
    UnknownMode,
    JTagDoesNotSupportMultipleAP,
    UnknownError,
    /// A hardware fault at the carried address; the second field is how many
    /// bytes of the faulting chunk completed before it.
    TransferFault(u32, u16),
    DataAlignmentError,
    Access16BitNotSupported,
    BlanksNotAllowedOnDPRegister,
    RegisterAddressMustBe16Bit,
}

/// The verdict on a decoded protocol version: zero is unsupported, below
/// [`MIN_JTAG_VERSION`] is outdated, anything else is accepted.
pub open spec fn spec_version_check(jtag_version: u32) -> Result<(), STLinkError> {
    if jtag_version == 0 {
        Err(STLinkError::JTAGNotSupportedOnProbe)
    } else if jtag_version < MIN_JTAG_VERSION {
        Err(STLinkError::ProbeFirmwareOutdated)
    } else {
        Ok(())
    }
}

/// The result decoded from a voltage-query response: reading0 sits
/// little-endian in bytes 0..4 and reading1 in the three-byte window at
/// offset 5; a zero reading0 is a division-by-zero error, otherwise the
/// voltage is `2 * reading1 * 1.2 / reading0` as an integer.
pub open spec fn spec_voltage_result(resp: Seq<u8>) -> Result<u32, STLinkError>
    recommends
        resp.len() >= 8,
{
    let a0 = spec_u32_of_le(resp[0], resp[1], resp[2], resp[3]);
    let a1 = spec_u24_of_le(resp[5], resp[6], resp[7]);
    if a0 == 0 {
        Err(STLinkError::VoltageDivisionByZero)
    } else {
        Ok((12 * a1 / (5 * a0)) as u32)
    }
}

/// The verdict on a generic status byte: only the "OK" sentinel passes.
pub open spec fn spec_status_result(status: u8) -> Result<(), STLinkError> {
    if status == commands::STATUS_JTAG_OK {
        Ok(())
    } else {
        Err(STLinkError::UnknownError)
    }
}

/// The hardware-version field of a packed version word: bits 15 to 12.
pub open spec fn spec_hw_version(version: u16) -> u8 {
    ((version >> 12) & 0x0f) as u8
}

/// The protocol-version field of a packed version word: bits 11 to 6.
pub open spec fn spec_jtag_version(version: u16) -> u32 {
    ((version >> 6) & 0x3f) as u32
}

/// Splits the first two little-endian response bytes of a version query into
/// the hardware version and the packed protocol version.
pub fn decode_version(b0: u8, b1: u8) -> (r: (u8, u32))
    ensures
        r.0 == spec_hw_version(spec_u16_of_le(b0, b1)),
        r.1 == spec_jtag_version(spec_u16_of_le(b0, b1)),
{
    let version: u16 = u16_of_le(b0, b1);
    assert((version >> 12) & 0x0f <= 0x0f) by (bit_vector);
    assert((version >> 6) & 0x3f <= 0x3f) by (bit_vector);
    let hw: u8 = ((version >> 12) & 0x0f) as u8;
    let jtag: u32 = ((version >> 6) & 0x3f) as u32;
    (hw, jtag)
}

/// Validates a decoded protocol version: zero means the probe does not speak
/// the protocol at all, anything below [`MIN_JTAG_VERSION`] is too old to be
/// trusted, and everything else is accepted.
pub fn check_version(jtag_version: u32) -> (r: Result<(), STLinkError>)
    ensures
        r == spec_version_check(jtag_version),
{
    if jtag_version == 0 {
        Err(STLinkError::JTAGNotSupportedOnProbe)
    } else if jtag_version < MIN_JTAG_VERSION {
        Err(STLinkError::ProbeFirmwareOutdated)
    } else {
        Ok(())
    }
}

/// The target voltage computed from the two analog readings of the voltage
/// query: `2 * reading1 * 1.2 / reading0`, as an integer, or a
/// division-by-zero error when `reading0` is zero.
pub fn compute_voltage(a0: u32, a1: u32) -> (r: Result<u32, STLinkError>)
    requires
        a1 < 0x1000000,
    ensures
        a0 == 0 ==> r == Err::<u32, STLinkError>(STLinkError::VoltageDivisionByZero),
        a0 != 0 ==> (r matches Ok(v) && v == 12 * a1 / (5 * a0)),
{
    if a0 != 0 {
        let num: u64 = 12u64 * (a1 as u64);
        let den: u64 = 5u64 * (a0 as u64);
        let q: u64 = num / den;
        assert(q <= num) by (nonlinear_arith)
            requires
                den >= 1,
                num >= 0,
                q == num / den,
        ;
        assert(q == 12 * a1 / (5 * a0));
        Ok(q as u32)
    } else {
        Err(STLinkError::VoltageDivisionByZero)
    }
}

/// Checks the first byte of a generic status response against the "OK"
/// sentinel.
pub fn check_status(status: &[u8]) -> (r: Result<(), STLinkError>)
    requires
        status@.len() >= 1,
    ensures
        r == spec_status_result(status@[0]),
{
    if status[0] != commands::STATUS_JTAG_OK {
        Err(STLinkError::UnknownError)
    } else {
        Ok(())
    }
}

/// The mode-exit command for a reported device mode, or `None` where the
/// mode is not one the engine knows how to leave.
pub open spec fn spec_mode_exit(mode: u8) -> Option<(u8, u8)> {
    if mode == commands::DEV_DFU_MODE {
        Some((commands::DFU_COMMAND, commands::DFU_EXIT))
    } else if mode == commands::DEV_JTAG_MODE {
        Some((commands::JTAG_COMMAND, commands::JTAG_EXIT))
    } else if mode == commands::DEV_SWIM_MODE {
        Some((commands::SWIM_COMMAND, commands::SWIM_EXIT))
    } else {
        None
    }
}

/// Exec counterpart of [`spec_mode_exit`].
pub fn mode_exit_command(mode: u8) -> (r: Option<(u8, u8)>)
    ensures
        r == spec_mode_exit(mode),
{
    if mode == commands::DEV_DFU_MODE {
        Some((commands::DFU_COMMAND, commands::DFU_EXIT))
    } else if mode == commands::DEV_JTAG_MODE {
        Some((commands::JTAG_COMMAND, commands::JTAG_EXIT))
    } else if mode == commands::DEV_SWIM_MODE {
        Some((commands::SWIM_COMMAND, commands::SWIM_EXIT))
    } else {
        None
    }
}

/// Whether a register address is valid for the addressed port: either the
/// low nibble of the address is zero, or the port is not the debug-port
/// port value.
pub open spec fn spec_dap_register_supported(port: u16, addr: u32) -> bool {
    (addr & 0xf) == 0 || port != DP_PORT
}

/// Whether a register address fits in the 16 bits the command encodes.
pub open spec fn spec_dap_addr_16bit(addr: u32) -> bool {
    (addr >> 16) == 0
}

/// The mode-entry parameter byte sent for a requested wire protocol. The
/// pairing of protocols and constant names is crossed on purpose: these are
/// the bytes the probe expects for each requested protocol, kept exactly.
pub open spec fn spec_enter_param(protocol: WireProtocol) -> u8 {
    match protocol {
        WireProtocol::Jtag => commands::JTAG_ENTER_SWD,
        WireProtocol::Swd => commands::JTAG_ENTER_JTAG_NO_CORE_RESET,
    }
}

/// The reset-line level parameter: assert drives the line low, deassert
/// drives it high.
pub open spec fn spec_nrst_level(is_asserted: bool) -> u8 {
    if is_asserted {
        commands::JTAG_DRIVE_NRST_LOW
    } else {
        commands::JTAG_DRIVE_NRST_HIGH
    }
}

/// The bytes of a memory transfer command: opcode, sub-opcode, 4-byte
/// little-endian address, 2-byte little-endian chunk size, and the
/// access-port selector.
pub open spec fn spec_mem_command(memcmd: u8, addr: u32, size: u16, apsel: u8) -> Seq<u8> {
    seq![commands::JTAG_COMMAND, memcmd] + spec_u32_le_bytes(addr) + spec_u16_le_bytes(size)
        + seq![apsel]
}

/// The bytes of the last-transfer-status query.
pub open spec fn spec_status_query() -> Seq<u8> {
    seq![commands::JTAG_COMMAND, commands::JTAG_GETLASTRWSTATUS2]
}

/// The bytes of a DAP register read command: opcode, sub-opcode, 2-byte
/// little-endian port, 2-byte little-endian address.
pub open spec fn spec_dap_read_command(port: u16, addr: u16) -> Seq<u8> {
    seq![commands::JTAG_COMMAND, commands::JTAG_READ_DAP_REG] + spec_u16_le_bytes(port)
        + spec_u16_le_bytes(addr)
}

/// The bytes of a DAP register write command: the read command fields
/// followed by the 4-byte little-endian value.
pub open spec fn spec_dap_write_command(port: u16, addr: u16, value: u32) -> Seq<u8> {
    seq![commands::JTAG_COMMAND, commands::JTAG_WRITE_DAP_REG] + spec_u16_le_bytes(port)
        + spec_u16_le_bytes(addr) + spec_u32_le_bytes(value)
}

/// How many chunks a transfer of `size` bytes takes with chunks of at most
/// `max` bytes.
pub open spec fn spec_chunk_count(size: int, max: int) -> int
    decreases size,
{
    if size <= 0 || max <= 0 {
        0
    } else {
        1 + spec_chunk_count(size - (if size < max { size } else { max }), max)
    }
}

/// The command frames of a whole chunked transfer, in order: for each chunk
/// the memory command for its address and size, followed by the
/// last-transfer-status query.
pub open spec fn spec_chunk_frames(addr: u32, size: int, memcmd: u8, max: int, apsel: u8) -> Seq<
    Seq<u8>,
>
    decreases size,
{
    if size <= 0 || max <= 0 {
        Seq::empty()
    } else {
        let ts = if size < max {
            size
        } else {
            max
        };
        seq![
            spec_padded_frame(spec_mem_command(memcmd, addr, ts as u16, apsel)),
            spec_padded_frame(spec_status_query()),
        ] + spec_chunk_frames((addr + ts) as u32, size - ts, memcmd, max, apsel)
    }
}

/// The data-out payloads of a whole chunked write, in order: for each chunk
/// its slice of the data, followed by the empty payload of the status
/// query.
pub open spec fn spec_chunk_payloads(data: Seq<u8>, max: int) -> Seq<Seq<u8>>
    decreases data.len(),
{
    if data.len() == 0 || max <= 0 {
        Seq::empty()
    } else {
        let ts = if (data.len() as int) < max {
            data.len() as int
        } else {
            max
        };
        seq![data.take(ts), Seq::<u8>::empty()] + spec_chunk_payloads(data.skip(ts), max)
    }
}

/// The concatenation of every other response starting at `from`: in a
/// chunked read the responses alternate between chunk data and status
/// queries, so this is the data read, in address order.
pub open spec fn spec_chunk_reads(responses: Seq<Seq<u8>>, from: int) -> Seq<u8>
    decreases responses.len() - from,
{
    if from < 0 || from >= responses.len() {
        Seq::empty()
    } else if from + 1 >= responses.len() {
        responses[from]
    } else {
        responses[from] + spec_chunk_reads(responses, from + 2)
    }
}

/// Appending one chunk response and one status response extends the chunk
/// data by exactly that chunk.
proof fn lemma_chunk_reads_push2(responses: Seq<Seq<u8>>, from: int, chunk: Seq<u8>, status: Seq<u8>)
    requires
        0 <= from <= responses.len(),
        (responses.len() - from) % 2 == 0,
    ensures
        spec_chunk_reads(responses.push(chunk).push(status), from) == spec_chunk_reads(
            responses,
            from,
        ) + chunk,
    decreases responses.len() - from,
{
    let extended = responses.push(chunk).push(status);
    if from >= responses.len() {
        assert(extended[from] == chunk);
        assert(spec_chunk_reads(extended, from + 2) == Seq::<u8>::empty());
        assert(spec_chunk_reads(extended, from) == extended[from] + spec_chunk_reads(
            extended,
            from + 2,
        ));
        assert(spec_chunk_reads(extended, from) =~= spec_chunk_reads(responses, from) + chunk);
    } else {
        lemma_chunk_reads_push2(responses, from + 2, chunk, status);
        assert(extended[from] == responses[from]);
        assert(spec_chunk_reads(extended, from) == extended[from] + spec_chunk_reads(
            extended,
            from + 2,
        ));
        assert(spec_chunk_reads(responses, from) == responses[from] + spec_chunk_reads(
            responses,
            from + 2,
        ));
        assert(responses[from] + (spec_chunk_reads(responses, from + 2) + chunk) =~= (
        responses[from] + spec_chunk_reads(responses, from + 2)) + chunk);
    }
}

/// A sequence agrees with any of its take-prefixes element by element.
proof fn lemma_take_index(c: Seq<Seq<u8>>, b: Seq<Seq<u8>>)
    requires
        b.len() <= c.len(),
        c.take(b.len() as int) == b,
    ensures
        forall|i: int| 0 <= i < b.len() ==> c[i] == b[i],
{
    assert forall|i: int| 0 <= i < b.len() implies c[i] == b[i] by {
        assert(c.take(b.len() as int)[i] == c[i]);
    }
}

/// A transfer sized exactly at the maximum chunk size takes one chunk; one
/// byte more takes two, the second chunk starting at the maximum's offset
/// and carrying the single remaining byte.
pub proof fn lemma_chunk_schedule_at_boundary(addr: u32, memcmd: u8, apsel: u8)
    requires
        addr + 1024 <= u32::MAX,
    ensures
        spec_chunk_count(1024, 1024) == 1,
        spec_chunk_count(1025, 1024) == 2,
        spec_chunk_frames(addr, 1024, memcmd, 1024, apsel) == seq![
            spec_padded_frame(spec_mem_command(memcmd, addr, 1024, apsel)),
            spec_padded_frame(spec_status_query()),
        ],
        spec_chunk_frames(addr, 1025, memcmd, 1024, apsel).len() == 4,
        spec_chunk_frames(addr, 1025, memcmd, 1024, apsel)[2] == spec_padded_frame(
            spec_mem_command(memcmd, (addr + 1024) as u32, 1, apsel),
        ),
{
    assert(spec_chunk_count(0, 1024) == 0);
    assert(spec_chunk_count(1, 1024) == 1);
    assert(spec_chunk_count(1024, 1024) == 1);
    assert(spec_chunk_count(1025, 1024) == 2);
    assert(spec_chunk_frames((addr + 1024) as u32, 0, memcmd, 1024, apsel) == Seq::<
        Seq<u8>,
    >::empty());
    assert(spec_chunk_frames(addr, 1024, memcmd, 1024, apsel) =~= seq![
        spec_padded_frame(spec_mem_command(memcmd, addr, 1024, apsel)),
        spec_padded_frame(spec_status_query()),
    ]);
    let second = spec_chunk_frames((addr + 1024) as u32, 1, memcmd, 1024, apsel);
    assert(spec_chunk_frames((((addr + 1024) as u32) + 1) as u32, 0, memcmd, 1024, apsel) == Seq::<
        Seq<u8>,
    >::empty());
    assert(second =~= seq![
        spec_padded_frame(spec_mem_command(memcmd, (addr + 1024) as u32, 1, apsel)),
        spec_padded_frame(spec_status_query()),
    ]);
    assert(spec_chunk_frames(addr, 1025, memcmd, 1024, apsel) =~= seq![
        spec_padded_frame(spec_mem_command(memcmd, addr, 1024, apsel)),
        spec_padded_frame(spec_status_query()),
    ] + second);
}

/// Whether a last-transfer status code reports a hardware fault: an unknown
/// error, an access-port fault or a debug-port fault.
pub open spec fn spec_is_fault_status(status: u16) -> bool {
    ||| status == commands::STATUS_JTAG_UNKNOWN_ERROR as u16
    ||| status == commands::STATUS_SWD_AP_FAULT as u16
    ||| status == commands::STATUS_SWD_DP_FAULT as u16
}

/// How many bytes of a chunk completed before a fault: the chunk size minus
/// the offset of the fault address from the chunk's starting address,
/// clipped to the valid range `0 ..= chunk_size`.
pub open spec fn spec_bytes_completed(chunk_address: u32, chunk_size: u16, fault_address: u32) -> u16 {
    if fault_address < chunk_address {
        chunk_size
    } else if fault_address - chunk_address >= chunk_size {
        0u16
    } else {
        (chunk_size - (fault_address - chunk_address)) as u16
    }
}

/// Exec counterpart of [`spec_bytes_completed`].
pub fn bytes_completed(chunk_address: u32, chunk_size: u16, fault_address: u32) -> (r: u16)
    ensures
        r == spec_bytes_completed(chunk_address, chunk_size, fault_address),
{
    if fault_address < chunk_address {
        chunk_size
    } else {
        let off: u32 = fault_address - chunk_address;
        if off >= chunk_size as u32 {
            0
        } else {
            chunk_size - (off as u16)
        }
    }
}

/// Applies the check-after-every-chunk policy to a decoded last-transfer
/// status. A fault status becomes a [`STLinkError::TransferFault`] carrying
/// the fault address and the completed byte count; a status equal to "OK" on
/// this error-check path is itself reported as an anomaly; any other status
/// lets the transfer continue.
pub fn check_transfer_status(
    status: u16,
    fault_address: u32,
    chunk_address: u32,
    chunk_size: u16,
) -> (r: Result<(), STLinkError>)
    ensures
        spec_is_fault_status(status) ==> r == Err::<(), STLinkError>(
            STLinkError::TransferFault(
                fault_address,
                spec_bytes_completed(chunk_address, chunk_size, fault_address),
            ),
        ),
        status == commands::STATUS_JTAG_OK as u16 ==> r == Err::<(), STLinkError>(
            STLinkError::UnknownError,
        ),
        !spec_is_fault_status(status) && status != commands::STATUS_JTAG_OK as u16 ==> r
            == Ok::<(), STLinkError>(()),
{
    if status == commands::STATUS_JTAG_UNKNOWN_ERROR as u16 || status
        == commands::STATUS_SWD_AP_FAULT as u16 || status == commands::STATUS_SWD_DP_FAULT as u16 {
        Err(
            STLinkError::TransferFault(
                fault_address,
                bytes_completed(chunk_address, chunk_size, fault_address),
            ),
        )
    } else if status == commands::STATUS_JTAG_OK as u16 {
        Err(STLinkError::UnknownError)
    } else {
        Ok(())
    }
}

/// A probe bound to an open transport, together with its negotiated state:
/// the hardware version and the protocol version from the version query,
/// and the currently selected wire protocol.
pub struct STLink<D: Transport> {
    pub device: D,
    pub hw_version: u8,
    pub jtag_version: u32,
    pub protocol: WireProtocol,
}

impl<D: Transport> STLink<D> {
    /// Binds a probe to a transport. Versions are unknown until the first
    /// version query, and no wire protocol has been negotiated yet.
    pub fn new(device: D) -> (r: Self)
        ensures
            r.device == device,
            r.hw_version == 0,
            r.jtag_version == 0,
            r.protocol == WireProtocol::Swd,
    {
        Self { device, hw_version: 0, jtag_version: 0, protocol: WireProtocol::Swd }
    }

    /// Opens the probe session: opens the transport, forces the probe to
    /// idle, negotiates versions and reads the target voltage once. On
    /// success the sent frames begin with the mode query and end with the
    /// voltage query, with the version negotiation between them.
    pub fn open(&mut self) -> (r: Result<(), STLinkError>)
        ensures
            final(self).protocol == old(self).protocol,
            r is Ok ==> final(self).jtag_version >= MIN_JTAG_VERSION,
            r is Ok ==> ({
                let h0 = old(self).device.history();
                let hN = final(self).device.history();
                &&& hN.len() >= h0.len() + 4
                &&& hN.take(h0.len() as int) == h0
                &&& hN[h0.len() as int] == spec_padded_frame(seq![commands::GET_CURRENT_MODE])
                &&& hN.last() == spec_padded_frame(seq![commands::GET_TARGET_VOLTAGE])
            }),
    {
        let ghost h0 = self.device.history();
        match self.device.open() {
            Ok(()) => {},
            Err(e) => return Err(STLinkError::USB(e)),
        }
        match self.enter_idle() {
            Ok(()) => {},
            Err(e) => return Err(e),
        }
        let ghost h_idle = self.device.history();
        proof {
            assert(h_idle.len() == h0.len() + 2);
        }
        match self.get_version() {
            Ok(()) => {},
            Err(e) => return Err(e),
        }
        let ghost h_ver = self.device.history();
        proof {
            lemma_take_index(h_idle, h0);
            lemma_take_index(h_ver, h_idle);
        }
        let result = match self.get_target_voltage() {
            Ok(_) => Ok(()),
            Err(e) => Err(e),
        };
        proof {
            let frame = spec_padded_frame(seq![commands::GET_TARGET_VOLTAGE]);
            assert(self.device.history() == h_ver.push(frame));
            assert(h_ver.push(frame)[h0.len() as int] == h_ver[h0.len() as int]);
            assert(h_ver[h0.len() as int] == h_idle[h0.len() as int]);
            assert(self.device.history().take(h0.len() as int) =~= h0);
        }
        result
    }

    /// Closes the probe session: returns the probe to idle mode, then
    /// releases the transport. The mode query of the idle attempt is always
    /// issued before the transport is released.
    pub fn close(&mut self)
        ensures
            final(self).hw_version == old(self).hw_version,
            final(self).jtag_version == old(self).jtag_version,
            final(self).protocol == old(self).protocol,
            final(self).device.history().len() > old(self).device.history().len(),
            final(self).device.history()[old(self).device.history().len() as int]
                == spec_padded_frame(seq![commands::GET_CURRENT_MODE]),
    {
        let _ = self.enter_idle();
        self.device.close();
    }

    /// Queries and records the probe's hardware and protocol versions.
    ///
    /// The first response carries a 16-bit word packing both versions; on a
    /// newer probe generation (hardware version 3 or above) a second,
    /// extended query replaces the packed protocol version with the full
    /// 32-bit value. A protocol version of zero or one below
    /// [`MIN_JTAG_VERSION`] is rejected, since nothing downstream could be
    /// trusted.
    pub fn get_version(&mut self) -> (r: Result<(), STLinkError>)
        ensures
            final(self).protocol == old(self).protocol,
            r is Ok ==> final(self).jtag_version != 0 && final(self).jtag_version
                >= MIN_JTAG_VERSION,
            ({
                let h0 = old(self).device.history();
                let hN = final(self).device.history();
                let p0 = old(self).device.responses();
                let pN = final(self).device.responses();
                &&& h0.len() + 1 <= hN.len() <= h0.len() + 2
                &&& hN.take(h0.len() as int) == h0
                &&& hN[h0.len() as int] == spec_padded_frame(seq![commands::GET_VERSION])
                &&& hN.len() == h0.len() + 2 ==> hN[h0.len() as int + 1] == spec_padded_frame(
                    seq![commands::GET_VERSION_EXT],
                )
                &&& p0.len() <= pN.len() <= p0.len() + 2
                &&& pN.len() == p0.len() ==> hN.len() == h0.len() + 1 && (r matches Err(e)
                    && e matches STLinkError::USB(_)) && final(self).hw_version == old(
                    self,
                ).hw_version && final(self).jtag_version == old(self).jtag_version
                &&& pN.len() > p0.len() ==> ({
                    let word = spec_u16_of_le(pN[p0.len() as int][0], pN[p0.len() as int][1]);
                    &&& final(self).hw_version == spec_hw_version(word)
                    &&& (spec_hw_version(word) >= 3 <==> hN.len() == h0.len() + 2)
                    &&& spec_hw_version(word) < 3 ==> pN.len() == p0.len() + 1
                        && final(self).jtag_version == spec_jtag_version(word)
                        && r == spec_version_check(spec_jtag_version(word))
                    &&& spec_hw_version(word) >= 3 && pN.len() == p0.len() + 1 ==> (r matches Err(e)
                        && e matches STLinkError::USB(_)) && final(self).jtag_version
                        == spec_jtag_version(word)
                    &&& pN.len() == p0.len() + 2 ==> ({
                        let ext = pN[p0.len() as int + 1];
                        let wide = spec_u32_of_le(ext[0], ext[1], ext[2], ext[3]);
                        &&& final(self).jtag_version == wide
                        &&& r == spec_version_check(wide)
                    })
                })
            }),
    {
        let empty: Vec<u8> = Vec::new();
        let mut cmd: Vec<u8> = Vec::new();
        cmd.push(commands::GET_VERSION);
        assert(cmd@ =~= seq![commands::GET_VERSION]);
        let ghost h0 = self.device.history();
        let buf = match self.device.write(cmd.as_slice(), empty.as_slice(), 12, TIMEOUT_MS) {
            Ok(b) => b,
            Err(e) => {
                proof {
                    assert(self.device.history().take(h0.len() as int) =~= h0);
                }
                return Err(STLinkError::USB(e));
            },
        };
        let (hw, jtag) = decode_version(buf[0], buf[1]);
        self.hw_version = hw;
        self.jtag_version = jtag;

        // Newer probe generations carry the full protocol version only in
        // the extended version query.
        if self.hw_version >= 3 {
            let mut cmd_ext: Vec<u8> = Vec::new();
            cmd_ext.push(commands::GET_VERSION_EXT);
            assert(cmd_ext@ =~= seq![commands::GET_VERSION_EXT]);
            let buf_ext = match self.device.write(
                cmd_ext.as_slice(),
                empty.as_slice(),
                12,
                TIMEOUT_MS,
            ) {
                Ok(b) => b,
                Err(e) => {
                    proof {
                        assert(self.device.history().take(h0.len() as int) =~= h0);
                    }
                    return Err(STLinkError::USB(e));
                },
            };
            self.jtag_version = u32_of_le(buf_ext[0], buf_ext[1], buf_ext[2], buf_ext[3]);
            proof {
                assert(self.device.history().take(h0.len() as int) =~= h0);
            }
        } else {
            proof {
                assert(self.device.history().take(h0.len() as int) =~= h0);
            }
        }
        check_version(self.jtag_version)
    }

    /// Reads the target's supply voltage, decoded from two analog readings.
    ///
    /// The response leaves the second reading in a three-byte window at
    /// offset 5; that byte layout is part of the device protocol and is kept
    /// exactly.
    pub fn get_target_voltage(&mut self) -> (r: Result<u32, STLinkError>)
        ensures
            final(self).hw_version == old(self).hw_version,
            final(self).jtag_version == old(self).jtag_version,
            final(self).protocol == old(self).protocol,
            final(self).device.history() == old(self).device.history().push(
                spec_padded_frame(seq![commands::GET_TARGET_VOLTAGE]),
            ),
            ({
                let p0 = old(self).device.responses();
                let pN = final(self).device.responses();
                &&& pN.len() <= p0.len() + 1
                &&& pN.len() == p0.len() + 1 ==> r == spec_voltage_result(pN.last())
                &&& pN.len() == p0.len() ==> (r matches Err(e) && e matches STLinkError::USB(_))
            }),
    {
        let empty: Vec<u8> = Vec::new();
        let mut cmd: Vec<u8> = Vec::new();
        cmd.push(commands::GET_TARGET_VOLTAGE);
        assert(cmd@ =~= seq![commands::GET_TARGET_VOLTAGE]);
        let buf = match self.device.write(cmd.as_slice(), empty.as_slice(), 8, TIMEOUT_MS) {
            Ok(b) => b,
            Err(e) => return Err(STLinkError::USB(e)),
        };
        let a0 = u32_of_le(buf[0], buf[1], buf[2], buf[3]);
        let a1 = u24_of_le(buf[5], buf[6], buf[7]);
        let result = compute_voltage(a0, a1);
        proof {
            assert(self.device.responses().last() == buf@);
            assert(result == spec_voltage_result(buf@));
        }
        result
    }

    /// Queries the current device mode and, where the probe sits in DFU,
    /// JTAG or SWIM mode, issues the matching mode-exit command; an
    /// unrecognized mode is an error, and no exit command is sent for it.
    pub fn enter_idle(&mut self) -> (r: Result<(), STLinkError>)
        ensures
            final(self).hw_version == old(self).hw_version,
            final(self).jtag_version == old(self).jtag_version,
            final(self).protocol == old(self).protocol,
            ({
                let h0 = old(self).device.history();
                let hN = final(self).device.history();
                let p0 = old(self).device.responses();
                let pN = final(self).device.responses();
                &&& h0.len() + 1 <= hN.len() <= h0.len() + 2
                &&& hN.take(h0.len() as int) == h0
                &&& hN[h0.len() as int] == spec_padded_frame(seq![commands::GET_CURRENT_MODE])
                &&& p0.len() <= pN.len() <= p0.len() + 2
                &&& pN.len() == p0.len() ==> hN.len() == h0.len() + 1 && (r matches Err(e)
                    && e matches STLinkError::USB(_))
                &&& pN.len() > p0.len() ==> ({
                    let mode = pN[p0.len() as int][0];
                    match spec_mode_exit(mode) {
                        Some(exit) => {
                            &&& hN.len() == h0.len() + 2
                            &&& hN[h0.len() as int + 1] == spec_padded_frame(seq![exit.0, exit.1])
                            &&& (r is Ok <==> pN.len() == p0.len() + 2)
                            &&& !(r is Ok) ==> (r matches Err(e) && e matches STLinkError::USB(_))
                        },
                        None => {
                            &&& hN.len() == h0.len() + 1
                            &&& pN.len() == p0.len() + 1
                            &&& r == Err::<(), STLinkError>(STLinkError::UnknownMode)
                        },
                    }
                })
            }),
    {
        let empty: Vec<u8> = Vec::new();
        let mut cmd: Vec<u8> = Vec::new();
        cmd.push(commands::GET_CURRENT_MODE);
        assert(cmd@ =~= seq![commands::GET_CURRENT_MODE]);
        let ghost h0 = self.device.history();
        let buf = match self.device.write(cmd.as_slice(), empty.as_slice(), 2, TIMEOUT_MS) {
            Ok(b) => b,
            Err(e) => {
                proof {
                    assert(self.device.history().take(h0.len() as int) =~= h0);
                }
                return Err(STLinkError::USB(e));
            },
        };
        match mode_exit_command(buf[0]) {
            Some((opcode, sub)) => {
                let mut exit_cmd: Vec<u8> = Vec::new();
                exit_cmd.push(opcode);
                exit_cmd.push(sub);
                assert(exit_cmd@ =~= seq![opcode, sub]);
                let result = match self.device.write(
                    exit_cmd.as_slice(),
                    empty.as_slice(),
                    0,
                    TIMEOUT_MS,
                ) {
                    Ok(_) => Ok(()),
                    Err(e) => Err(STLinkError::USB(e)),
                };
                proof {
                    assert(self.device.history().take(h0.len() as int) =~= h0);
                }
                result
            },
            None => {
                proof {
                    assert(self.device.history().take(h0.len() as int) =~= h0);
                }
                Err(STLinkError::UnknownMode)
            },
        }
    }

    /// Selects an SWD wire frequency by its table entry.
    pub fn set_swd_frequency(&mut self, frequency: SwdFrequencyToDelayCount) -> (r: Result<
        (),
        STLinkError,
    >)
        ensures
            final(self).hw_version == old(self).hw_version,
            final(self).jtag_version == old(self).jtag_version,
            final(self).protocol == old(self).protocol,
            final(self).device.history() == old(self).device.history().push(
                spec_padded_frame(
                    seq![
                        commands::JTAG_COMMAND,
                        commands::SWD_SET_FREQ,
                        frequency.spec_delay_count(),
                    ],
                ),
            ),
            ({
                let p0 = old(self).device.responses();
                let pN = final(self).device.responses();
                &&& pN.len() <= p0.len() + 1
                &&& pN.len() == p0.len() + 1 ==> r == spec_status_result(pN.last()[0])
                &&& pN.len() == p0.len() ==> (r matches Err(e) && e matches STLinkError::USB(_))
            }),
    {
        let empty: Vec<u8> = Vec::new();
        let mut cmd: Vec<u8> = Vec::new();
        cmd.push(commands::JTAG_COMMAND);
        cmd.push(commands::SWD_SET_FREQ);
        cmd.push(frequency.delay_count());
        assert(cmd@ =~= seq![
            commands::JTAG_COMMAND,
            commands::SWD_SET_FREQ,
            frequency.spec_delay_count(),
        ]);
        let buf = match self.device.write(cmd.as_slice(), empty.as_slice(), 2, TIMEOUT_MS) {
            Ok(b) => b,
            Err(e) => return Err(STLinkError::USB(e)),
        };
        check_status(buf.as_slice())
    }

    /// Selects a JTAG wire frequency by its table entry.
    pub fn set_jtag_frequency(&mut self, frequency: JTagFrequencyToDivider) -> (r: Result<
        (),
        STLinkError,
    >)
        ensures
            final(self).hw_version == old(self).hw_version,
            final(self).jtag_version == old(self).jtag_version,
            final(self).protocol == old(self).protocol,
            final(self).device.history() == old(self).device.history().push(
                spec_padded_frame(
                    seq![commands::JTAG_COMMAND, commands::JTAG_SET_FREQ, frequency.spec_divider()],
                ),
            ),
            ({
                let p0 = old(self).device.responses();
                let pN = final(self).device.responses();
                &&& pN.len() <= p0.len() + 1
                &&& pN.len() == p0.len() + 1 ==> r == spec_status_result(pN.last()[0])
                &&& pN.len() == p0.len() ==> (r matches Err(e) && e matches STLinkError::USB(_))
            }),
    {
        let empty: Vec<u8> = Vec::new();
        let mut cmd: Vec<u8> = Vec::new();
        cmd.push(commands::JTAG_COMMAND);
        cmd.push(commands::JTAG_SET_FREQ);
        cmd.push(frequency.divider());
        assert(cmd@ =~= seq![
            commands::JTAG_COMMAND,
            commands::JTAG_SET_FREQ,
            frequency.spec_divider(),
        ]);
        let buf = match self.device.write(cmd.as_slice(), empty.as_slice(), 2, TIMEOUT_MS) {
            Ok(b) => b,
            Err(e) => return Err(STLinkError::USB(e)),
        };
        check_status(buf.as_slice())
    }

    /// Selects the nearest supported wire frequency for the given protocol
    /// and issues the matching frequency-set command with the selected
    /// entry's payload.
    pub fn set_wire_frequency(&mut self, requested_hz: u32, protocol: WireProtocol) -> (r: Result<
        (),
        STLinkError,
    >)
        ensures
            final(self).hw_version == old(self).hw_version,
            final(self).jtag_version == old(self).jtag_version,
            final(self).protocol == old(self).protocol,
            ({
                let payload = match protocol {
                    WireProtocol::Swd => seq![
                        commands::JTAG_COMMAND,
                        commands::SWD_SET_FREQ,
                        SwdFrequencyToDelayCount::spec_for_hz(requested_hz).spec_delay_count(),
                    ],
                    WireProtocol::Jtag => seq![
                        commands::JTAG_COMMAND,
                        commands::JTAG_SET_FREQ,
                        JTagFrequencyToDivider::spec_for_hz(requested_hz).spec_divider(),
                    ],
                };
                final(self).device.history() == old(self).device.history().push(
                    spec_padded_frame(payload),
                )
            }),
            ({
                let p0 = old(self).device.responses();
                let pN = final(self).device.responses();
                &&& pN.len() <= p0.len() + 1
                &&& pN.len() == p0.len() + 1 ==> r == spec_status_result(pN.last()[0])
                &&& pN.len() == p0.len() ==> (r matches Err(e) && e matches STLinkError::USB(_))
            }),
    {
        match protocol {
            WireProtocol::Swd => self.set_swd_frequency(SwdFrequencyToDelayCount::for_hz(
                requested_hz,
            )),
            WireProtocol::Jtag => self.set_jtag_frequency(JTagFrequencyToDivider::for_hz(
                requested_hz,
            )),
        }
    }

    /// Forces the probe to idle, then issues the mode-entry command for the
    /// requested wire protocol. The wire protocol is recorded only after the
    /// mode-entry command reports success.
    pub fn enter_debug(&mut self, protocol: WireProtocol) -> (r: Result<(), STLinkError>)
        ensures
            final(self).hw_version == old(self).hw_version,
            final(self).jtag_version == old(self).jtag_version,
            r is Ok ==> final(self).protocol == protocol,
            r is Err ==> final(self).protocol == old(self).protocol,
            r matches Err(e) ==> e == STLinkError::UnknownError || e matches STLinkError::USB(_),
            ({
                let h0 = old(self).device.history();
                let hN = final(self).device.history();
                let p0 = old(self).device.responses();
                let pN = final(self).device.responses();
                &&& hN.len() >= h0.len() + 2
                &&& hN.take(h0.len() as int) == h0
                &&& hN[h0.len() as int] == spec_padded_frame(seq![commands::GET_CURRENT_MODE])
                &&& hN.last() == spec_padded_frame(
                    seq![
                        commands::JTAG_COMMAND,
                        commands::JTAG_ENTER2,
                        spec_enter_param(protocol),
                        0,
                    ],
                )
                &&& r is Ok ==> pN.len() > p0.len() && pN.last()[0] == commands::STATUS_JTAG_OK
                &&& r == Err::<(), STLinkError>(STLinkError::UnknownError) ==> pN.len() > p0.len()
                    && pN.last()[0] != commands::STATUS_JTAG_OK
            }),
    {
        let ghost h0 = self.device.history();
        let _ = self.enter_idle();
        let ghost h_idle = self.device.history();

        let param = match protocol {
            WireProtocol::Jtag => commands::JTAG_ENTER_SWD,
            WireProtocol::Swd => commands::JTAG_ENTER_JTAG_NO_CORE_RESET,
        };
        assert(param == spec_enter_param(protocol));

        let empty: Vec<u8> = Vec::new();
        let mut cmd: Vec<u8> = Vec::new();
        cmd.push(commands::JTAG_COMMAND);
        cmd.push(commands::JTAG_ENTER2);
        cmd.push(param);
        cmd.push(0);
        assert(cmd@ =~= seq![
            commands::JTAG_COMMAND,
            commands::JTAG_ENTER2,
            spec_enter_param(protocol),
            0u8,
        ]);
        let wr = self.device.write(cmd.as_slice(), empty.as_slice(), 2, TIMEOUT_MS);
        proof {
            lemma_take_index(h_idle, h0);
            assert(self.device.history() == h_idle.push(spec_padded_frame(cmd@)));
            assert(h_idle.push(spec_padded_frame(cmd@))[h0.len() as int] == h_idle[h0.len() as int]);
            assert(self.device.history().take(h0.len() as int) =~= h0);
        }
        let buf = match wr {
            Ok(b) => b,
            Err(e) => {
                return Err(STLinkError::USB(e));
            },
        };
        match check_status(buf.as_slice()) {
            Ok(()) => {
                self.protocol = protocol;
                Ok(())
            },
            Err(e) => Err(e),
        }
    }

    /// Opens an access port. Requires firmware with multi-AP support; on
    /// older firmware the call fails before any transport command is
    /// issued.
    pub fn open_ap(&mut self, apsel: u8) -> (r: Result<(), STLinkError>)
        ensures
            final(self).hw_version == old(self).hw_version,
            final(self).jtag_version == old(self).jtag_version,
            final(self).protocol == old(self).protocol,
            old(self).jtag_version < MIN_JTAG_VERSION_MULTI_AP ==> r == Err::<(), STLinkError>(
                STLinkError::JTagDoesNotSupportMultipleAP,
            ) && *final(self) == *old(self),
            r is Ok ==> old(self).jtag_version >= MIN_JTAG_VERSION_MULTI_AP,
            old(self).jtag_version >= MIN_JTAG_VERSION_MULTI_AP ==> final(self).device.history()
                == old(self).device.history().push(
                spec_padded_frame(
                    seq![
                        commands::JTAG_COMMAND,
                        commands::JTAG_INIT_AP,
                        apsel,
                        commands::JTAG_AP_NO_CORE,
                    ],
                ),
            ),
            old(self).jtag_version >= MIN_JTAG_VERSION_MULTI_AP ==> ({
                let p0 = old(self).device.responses();
                let pN = final(self).device.responses();
                &&& pN.len() <= p0.len() + 1
                &&& pN.len() == p0.len() + 1 ==> r == spec_status_result(pN.last()[0])
                &&& pN.len() == p0.len() ==> (r matches Err(e) && e matches STLinkError::USB(_))
            }),
    {
        if self.jtag_version < MIN_JTAG_VERSION_MULTI_AP {
            return Err(STLinkError::JTagDoesNotSupportMultipleAP);
        }
        let empty: Vec<u8> = Vec::new();
        let mut cmd: Vec<u8> = Vec::new();
        cmd.push(commands::JTAG_COMMAND);
        cmd.push(commands::JTAG_INIT_AP);
        cmd.push(apsel);
        cmd.push(commands::JTAG_AP_NO_CORE);
        assert(cmd@ =~= seq![
            commands::JTAG_COMMAND,
            commands::JTAG_INIT_AP,
            apsel,
            commands::JTAG_AP_NO_CORE,
        ]);
        let buf = match self.device.write(cmd.as_slice(), empty.as_slice(), 2, TIMEOUT_MS) {
            Ok(b) => b,
            Err(e) => return Err(STLinkError::USB(e)),
        };
        check_status(buf.as_slice())
    }

    /// Closes an access port. Requires firmware with multi-AP support; on
    /// older firmware the call fails before any transport command is
    /// issued.
    pub fn close_ap(&mut self, apsel: u8) -> (r: Result<(), STLinkError>)
        ensures
            final(self).hw_version == old(self).hw_version,
            final(self).jtag_version == old(self).jtag_version,
            final(self).protocol == old(self).protocol,
            old(self).jtag_version < MIN_JTAG_VERSION_MULTI_AP ==> r == Err::<(), STLinkError>(
                STLinkError::JTagDoesNotSupportMultipleAP,
            ) && *final(self) == *old(self),
            r is Ok ==> old(self).jtag_version >= MIN_JTAG_VERSION_MULTI_AP,
            old(self).jtag_version >= MIN_JTAG_VERSION_MULTI_AP ==> final(self).device.history()
                == old(self).device.history().push(
                spec_padded_frame(
                    seq![commands::JTAG_COMMAND, commands::JTAG_CLOSE_AP_DBG, apsel],
                ),
            ),
            old(self).jtag_version >= MIN_JTAG_VERSION_MULTI_AP ==> ({
                let p0 = old(self).device.responses();
                let pN = final(self).device.responses();
                &&& pN.len() <= p0.len() + 1
                &&& pN.len() == p0.len() + 1 ==> r == spec_status_result(pN.last()[0])
                &&& pN.len() == p0.len() ==> (r matches Err(e) && e matches STLinkError::USB(_))
            }),
    {
        if self.jtag_version < MIN_JTAG_VERSION_MULTI_AP {
            return Err(STLinkError::JTagDoesNotSupportMultipleAP);
        }
        let empty: Vec<u8> = Vec::new();
        let mut cmd: Vec<u8> = Vec::new();
        cmd.push(commands::JTAG_COMMAND);
        cmd.push(commands::JTAG_CLOSE_AP_DBG);
        cmd.push(apsel);
        assert(cmd@ =~= seq![commands::JTAG_COMMAND, commands::JTAG_CLOSE_AP_DBG, apsel]);
        let buf = match self.device.write(cmd.as_slice(), empty.as_slice(), 2, TIMEOUT_MS) {
            Ok(b) => b,
            Err(e) => return Err(STLinkError::USB(e)),
        };
        check_status(buf.as_slice())
    }

    /// Pulses the target's reset line.
    pub fn target_reset(&mut self) -> (r: Result<(), STLinkError>)
        ensures
            final(self).hw_version == old(self).hw_version,
            final(self).jtag_version == old(self).jtag_version,
            final(self).protocol == old(self).protocol,
            final(self).device.history() == old(self).device.history().push(
                spec_padded_frame(
                    seq![
                        commands::JTAG_COMMAND,
                        commands::JTAG_DRIVE_NRST,
                        commands::JTAG_DRIVE_NRST_PULSE,
                    ],
                ),
            ),
            ({
                let p0 = old(self).device.responses();
                let pN = final(self).device.responses();
                &&& pN.len() <= p0.len() + 1
                &&& pN.len() == p0.len() + 1 ==> r == spec_status_result(pN.last()[0])
                &&& pN.len() == p0.len() ==> (r matches Err(e) && e matches STLinkError::USB(_))
            }),
    {
        let empty: Vec<u8> = Vec::new();
        let mut cmd: Vec<u8> = Vec::new();
        cmd.push(commands::JTAG_COMMAND);
        cmd.push(commands::JTAG_DRIVE_NRST);
        cmd.push(commands::JTAG_DRIVE_NRST_PULSE);
        assert(cmd@ =~= seq![
            commands::JTAG_COMMAND,
            commands::JTAG_DRIVE_NRST,
            commands::JTAG_DRIVE_NRST_PULSE,
        ]);
        let buf = match self.device.write(cmd.as_slice(), empty.as_slice(), 2, TIMEOUT_MS) {
            Ok(b) => b,
            Err(e) => return Err(STLinkError::USB(e)),
        };
        check_status(buf.as_slice())
    }

    /// Drives the target's reset line to a level: assert drives it low,
    /// deassert drives it high. This is a level set, not a pulse.
    pub fn drive_nreset(&mut self, is_asserted: bool) -> (r: Result<(), STLinkError>)
        ensures
            final(self).hw_version == old(self).hw_version,
            final(self).jtag_version == old(self).jtag_version,
            final(self).protocol == old(self).protocol,
            final(self).device.history() == old(self).device.history().push(
                spec_padded_frame(
                    seq![
                        commands::JTAG_COMMAND,
                        commands::JTAG_DRIVE_NRST,
                        spec_nrst_level(is_asserted),
                    ],
                ),
            ),
            ({
                let p0 = old(self).device.responses();
                let pN = final(self).device.responses();
                &&& pN.len() <= p0.len() + 1
                &&& pN.len() == p0.len() + 1 ==> r == spec_status_result(pN.last()[0])
                &&& pN.len() == p0.len() ==> (r matches Err(e) && e matches STLinkError::USB(_))
            }),
    {
        let state: u8 = if is_asserted {
            commands::JTAG_DRIVE_NRST_LOW
        } else {
            commands::JTAG_DRIVE_NRST_HIGH
        };
        let empty: Vec<u8> = Vec::new();
        let mut cmd: Vec<u8> = Vec::new();
        cmd.push(commands::JTAG_COMMAND);
        cmd.push(commands::JTAG_DRIVE_NRST);
        cmd.push(state);
        assert(cmd@ =~= seq![
            commands::JTAG_COMMAND,
            commands::JTAG_DRIVE_NRST,
            spec_nrst_level(is_asserted),
        ]);
        let buf = match self.device.write(cmd.as_slice(), empty.as_slice(), 2, TIMEOUT_MS) {
            Ok(b) => b,
            Err(e) => return Err(STLinkError::USB(e)),
        };
        check_status(buf.as_slice())
    }

    /// Reads `size` bytes of target memory starting at `addr`, split into
    /// chunks of at most `max` bytes. Every chunk command carries its
    /// little-endian address and size and the access-port selector, and is
    /// followed by a query of the last-transfer status; a fault status
    /// fails the whole operation at that chunk after an attempt to clear
    /// the sticky-error latch, and memory read before the fault is not
    /// re-read. On success the data is the concatenation, in address order,
    /// of the chunk responses.
    pub fn read_mem(&mut self, addr: u32, size: u32, memcmd: u8, max: u32, apsel: u8) -> (r: Result<
        Vec<u8>,
        STLinkError,
    >)
        requires
            1 <= max <= 0xffff,
            addr + size <= u32::MAX,
        ensures
            final(self).hw_version == old(self).hw_version,
            final(self).jtag_version == old(self).jtag_version,
            final(self).protocol == old(self).protocol,
            size == 0 ==> (r matches Ok(data) && data@.len() == 0) && *final(self) == *old(self),
            r matches Err(e) ==> e matches STLinkError::USB(_) || e matches STLinkError::TransferFault(
                _,
                _,
            ) || e == STLinkError::UnknownError,
            final(self).device.history().take(old(self).device.history().len() as int) == old(
                self,
            ).device.history(),
            r is Ok ==> final(self).device.history() == old(self).device.history()
                + spec_chunk_frames(addr, size as int, memcmd, max as int, apsel),
            r is Ok ==> final(self).device.responses().len() == old(self).device.responses().len()
                + 2 * spec_chunk_count(size as int, max as int),
            r matches Ok(data) ==> data@.len() == size && data@ == spec_chunk_reads(
                final(self).device.responses(),
                old(self).device.responses().len() as int,
            ),
    {
        let empty: Vec<u8> = Vec::new();
        let mut result: Vec<u8> = Vec::new();
        if size == 0 {
            proof {
                assert(self.device.history().take(self.device.history().len() as int)
                    =~= self.device.history());
            }
            return Ok(result);
        }
        let ghost h0 = self.device.history();
        let ghost p0 = self.device.responses();
        let ghost mut chunks: int = 0;
        let mut done: u32 = 0;
        while done < size
            invariant
                done <= size,
                addr + size <= u32::MAX,
                1 <= max <= 0xffff,
                result@.len() == done,
                self.hw_version == old(self).hw_version,
                self.jtag_version == old(self).jtag_version,
                self.protocol == old(self).protocol,
                h0 == old(self).device.history(),
                p0 == old(self).device.responses(),
                self.device.history() + spec_chunk_frames(
                    (addr + done) as u32,
                    size - done,
                    memcmd,
                    max as int,
                    apsel,
                ) == h0 + spec_chunk_frames(addr, size as int, memcmd, max as int, apsel),
                self.device.history().len() >= h0.len(),
                self.device.history().take(h0.len() as int) == h0,
                chunks >= 0,
                self.device.responses().len() == p0.len() + 2 * chunks,
                chunks + spec_chunk_count(size - done, max as int) == spec_chunk_count(
                    size as int,
                    max as int,
                ),
                result@ == spec_chunk_reads(self.device.responses(), p0.len() as int),
            decreases size - done,
        {
            let remaining: u32 = size - done;
            let transfer_size: u32 = if remaining < max {
                remaining
            } else {
                max
            };
            let chunk_addr: u32 = addr + done;
            let ghost h_before = self.device.history();
            let ghost p_before = self.device.responses();
            proof {
                assert(spec_chunk_frames(chunk_addr, remaining as int, memcmd, max as int, apsel)
                    == seq![
                    spec_padded_frame(
                        spec_mem_command(memcmd, chunk_addr, transfer_size as u16, apsel),
                    ),
                    spec_padded_frame(spec_status_query()),
                ] + spec_chunk_frames(
                    (chunk_addr + transfer_size) as u32,
                    remaining - transfer_size,
                    memcmd,
                    max as int,
                    apsel,
                ));
                assert(spec_chunk_count(remaining as int, max as int) == 1 + spec_chunk_count(
                    remaining - transfer_size,
                    max as int,
                ));
            }

            let mut cmd: Vec<u8> = Vec::new();
            cmd.push(commands::JTAG_COMMAND);
            cmd.push(memcmd);
            push_u32_le(&mut cmd, chunk_addr);
            push_u16_le(&mut cmd, transfer_size as u16);
            cmd.push(apsel);
            assert(cmd@ =~= spec_mem_command(memcmd, chunk_addr, transfer_size as u16, apsel));
            let mut chunk = match self.device.write(
                cmd.as_slice(),
                empty.as_slice(),
                transfer_size as usize,
                TIMEOUT_MS,
            ) {
                Ok(b) => b,
                Err(e) => {
                    proof {
                        lemma_take_index(h_before, h0);
                        assert(self.device.history().take(h0.len() as int) =~= h0);
                    }
                    return Err(STLinkError::USB(e));
                },
            };
            let ghost chunk_view = chunk@;
            result.append(&mut chunk);

            // Check the status of this read.
            let mut status_cmd: Vec<u8> = Vec::new();
            status_cmd.push(commands::JTAG_COMMAND);
            status_cmd.push(commands::JTAG_GETLASTRWSTATUS2);
            assert(status_cmd@ =~= spec_status_query());
            let status_buf = match self.device.write(
                status_cmd.as_slice(),
                empty.as_slice(),
                12,
                TIMEOUT_MS,
            ) {
                Ok(b) => b,
                Err(e) => {
                    proof {
                        lemma_take_index(h_before, h0);
                        assert(self.device.history() == h_before.push(
                            spec_padded_frame(cmd@),
                        ).push(spec_padded_frame(status_cmd@)));
                        assert(self.device.history().take(h0.len() as int) =~= h0);
                    }
                    return Err(STLinkError::USB(e));
                },
            };
            proof {
                lemma_take_index(h_before, h0);
                assert(self.device.history() == h_before.push(spec_padded_frame(cmd@)).push(
                    spec_padded_frame(status_cmd@),
                ));
                assert(self.device.history().take(h0.len() as int) =~= h0);
                assert(h_before.push(spec_padded_frame(cmd@)).push(spec_padded_frame(status_cmd@))
                    + spec_chunk_frames(
                    (chunk_addr + transfer_size) as u32,
                    remaining - transfer_size,
                    memcmd,
                    max as int,
                    apsel,
                ) =~= h_before + spec_chunk_frames(
                    chunk_addr,
                    remaining as int,
                    memcmd,
                    max as int,
                    apsel,
                ));
                assert(self.device.responses() == p_before.push(chunk_view).push(status_buf@));
                lemma_chunk_reads_push2(p_before, p0.len() as int, chunk_view, status_buf@);
                chunks = chunks + 1;
            }
            let status: u16 = u16_of_le(status_buf[0], status_buf[1]);
            let fault_address: u32 = u32_of_le(
                status_buf[4],
                status_buf[5],
                status_buf[6],
                status_buf[7],
            );
            match check_transfer_status(status, fault_address, chunk_addr, transfer_size as u16) {
                Ok(()) => {},
                Err(e) => {
                    if matches!(e, STLinkError::TransferFault(_, _)) {
                        let _ = self.clear_sticky_error();
                    }
                    return Err(e);
                },
            }
            done = done + transfer_size;
        }
        proof {
            assert(spec_chunk_frames((addr + done) as u32, 0, memcmd, max as int, apsel) == Seq::<
                Seq<u8>,
            >::empty());
            assert(self.device.history() + Seq::<Seq<u8>>::empty() =~= self.device.history());
            assert(spec_chunk_count(0, max as int) == 0);
        }
        Ok(result)
    }

    /// Writes `data` to target memory starting at `addr`, split into chunks
    /// of at most `max` bytes. Every chunk command carries its
    /// little-endian address and size and the access-port selector, with
    /// the chunk's slice of the data in its data-out phase, and is followed
    /// by a query of the last-transfer status; a fault status fails the
    /// whole operation at that chunk after an attempt to clear the
    /// sticky-error latch, and memory already written stays written.
    pub fn write_mem(&mut self, addr: u32, data: Vec<u8>, memcmd: u8, max: u32, apsel: u8) -> (r:
        Result<(), STLinkError>)
        requires
            1 <= max <= 0xffff,
            addr + data@.len() <= u32::MAX,
        ensures
            final(self).hw_version == old(self).hw_version,
            final(self).jtag_version == old(self).jtag_version,
            final(self).protocol == old(self).protocol,
            data@.len() == 0 ==> r is Ok && *final(self) == *old(self),
            r matches Err(e) ==> e matches STLinkError::USB(_) || e matches STLinkError::TransferFault(
                _,
                _,
            ) || e == STLinkError::UnknownError,
            final(self).device.history().take(old(self).device.history().len() as int) == old(
                self,
            ).device.history(),
            r is Ok ==> final(self).device.history() == old(self).device.history()
                + spec_chunk_frames(addr, data@.len() as int, memcmd, max as int, apsel),
            r is Ok ==> final(self).device.data_history() == old(self).device.data_history()
                + spec_chunk_payloads(data@, max as int),
            r is Ok ==> final(self).device.responses().len() == old(self).device.responses().len()
                + 2 * spec_chunk_count(data@.len() as int, max as int),
    {
        let empty: Vec<u8> = Vec::new();
        if data.len() == 0 {
            proof {
                assert(self.device.history().take(self.device.history().len() as int)
                    =~= self.device.history());
                assert(spec_chunk_payloads(data@, max as int) == Seq::<Seq<u8>>::empty());
                assert(self.device.data_history() + Seq::<Seq<u8>>::empty()
                    =~= self.device.data_history());
            }
            return Ok(());
        }
        let ghost h0 = self.device.history();
        let ghost d0 = self.device.data_history();
        let ghost p0 = self.device.responses();
        let ghost mut chunks: int = 0;
        proof {
            assert(data@.skip(0) =~= data@);
            assert(empty@ =~= Seq::<u8>::empty());
        }
        let mut pos: usize = 0;
        while pos < data.len()
            invariant
                pos <= data@.len(),
                addr + data@.len() <= u32::MAX,
                1 <= max <= 0xffff,
                empty@ == Seq::<u8>::empty(),
                self.hw_version == old(self).hw_version,
                self.jtag_version == old(self).jtag_version,
                self.protocol == old(self).protocol,
                h0 == old(self).device.history(),
                d0 == old(self).device.data_history(),
                p0 == old(self).device.responses(),
                self.device.history() + spec_chunk_frames(
                    (addr + pos) as u32,
                    data@.len() - pos,
                    memcmd,
                    max as int,
                    apsel,
                ) == h0 + spec_chunk_frames(addr, data@.len() as int, memcmd, max as int, apsel),
                self.device.data_history() + spec_chunk_payloads(data@.skip(pos as int), max as int)
                    == d0 + spec_chunk_payloads(data@, max as int),
                self.device.history().len() >= h0.len(),
                self.device.history().take(h0.len() as int) == h0,
                chunks >= 0,
                self.device.responses().len() == p0.len() + 2 * chunks,
                chunks + spec_chunk_count(data@.len() - pos, max as int) == spec_chunk_count(
                    data@.len() as int,
                    max as int,
                ),
            decreases data@.len() - pos,
        {
            let remaining: usize = data.len() - pos;
            let transfer_size: u32 = if remaining < max as usize {
                remaining as u32
            } else {
                max
            };
            let chunk_addr: u32 = addr + (pos as u32);
            let ghost h_before = self.device.history();
            let ghost d_before = self.device.data_history();
            proof {
                assert(spec_chunk_frames(chunk_addr, remaining as int, memcmd, max as int, apsel)
                    == seq![
                    spec_padded_frame(
                        spec_mem_command(memcmd, chunk_addr, transfer_size as u16, apsel),
                    ),
                    spec_padded_frame(spec_status_query()),
                ] + spec_chunk_frames(
                    (chunk_addr + transfer_size) as u32,
                    remaining - transfer_size,
                    memcmd,
                    max as int,
                    apsel,
                ));
                assert(spec_chunk_count(remaining as int, max as int) == 1 + spec_chunk_count(
                    remaining - transfer_size,
                    max as int,
                ));
                assert(spec_chunk_payloads(data@.skip(pos as int), max as int) == seq![
                    data@.skip(pos as int).take(transfer_size as int),
                    Seq::<u8>::empty(),
                ] + spec_chunk_payloads(
                    data@.skip(pos as int).skip(transfer_size as int),
                    max as int,
                ));
                assert(data@.skip(pos as int).take(transfer_size as int) =~= data@.subrange(
                    pos as int,
                    pos + transfer_size as int,
                ));
                assert(data@.skip(pos as int).skip(transfer_size as int) =~= data@.skip(
                    pos + transfer_size as int,
                ));
            }

            let mut cmd: Vec<u8> = Vec::new();
            cmd.push(commands::JTAG_COMMAND);
            cmd.push(memcmd);
            push_u32_le(&mut cmd, chunk_addr);
            push_u16_le(&mut cmd, transfer_size as u16);
            cmd.push(apsel);
            assert(cmd@ =~= spec_mem_command(memcmd, chunk_addr, transfer_size as u16, apsel));
            let transfer_data = vstd::slice::slice_subrange(
                data.as_slice(),
                pos,
                pos + transfer_size as usize,
            );
            match self.device.write(cmd.as_slice(), transfer_data, 0, TIMEOUT_MS) {
                Ok(_) => {},
                Err(e) => {
                    proof {
                        lemma_take_index(h_before, h0);
                        assert(self.device.history().take(h0.len() as int) =~= h0);
                    }
                    return Err(STLinkError::USB(e));
                },
            }

            // Check the status of this write.
            let mut status_cmd: Vec<u8> = Vec::new();
            status_cmd.push(commands::JTAG_COMMAND);
            status_cmd.push(commands::JTAG_GETLASTRWSTATUS2);
            assert(status_cmd@ =~= spec_status_query());
            let status_buf = match self.device.write(
                status_cmd.as_slice(),
                empty.as_slice(),
                12,
                TIMEOUT_MS,
            ) {
                Ok(b) => b,
                Err(e) => {
                    proof {
                        lemma_take_index(h_before, h0);
                        assert(self.device.history() == h_before.push(
                            spec_padded_frame(cmd@),
                        ).push(spec_padded_frame(status_cmd@)));
                        assert(self.device.history().take(h0.len() as int) =~= h0);
                    }
                    return Err(STLinkError::USB(e));
                },
            };
            proof {
                lemma_take_index(h_before, h0);
                assert(self.device.history() == h_before.push(spec_padded_frame(cmd@)).push(
                    spec_padded_frame(status_cmd@),
                ));
                assert(self.device.history().take(h0.len() as int) =~= h0);
                assert(h_before.push(spec_padded_frame(cmd@)).push(spec_padded_frame(status_cmd@))
                    + spec_chunk_frames(
                    (chunk_addr + transfer_size) as u32,
                    remaining - transfer_size,
                    memcmd,
                    max as int,
                    apsel,
                ) =~= h_before + spec_chunk_frames(
                    chunk_addr,
                    remaining as int,
                    memcmd,
                    max as int,
                    apsel,
                ));
                assert(self.device.data_history() == d_before.push(transfer_data@).push(
                    Seq::<u8>::empty(),
                ));
                assert(d_before.push(transfer_data@).push(Seq::<u8>::empty())
                    + spec_chunk_payloads(data@.skip(pos + transfer_size as int), max as int)
                    =~= d_before + spec_chunk_payloads(data@.skip(pos as int), max as int));
                chunks = chunks + 1;
            }
            let status: u16 = u16_of_le(status_buf[0], status_buf[1]);
            let fault_address: u32 = u32_of_le(
                status_buf[4],
                status_buf[5],
                status_buf[6],
                status_buf[7],
            );
            match check_transfer_status(status, fault_address, chunk_addr, transfer_size as u16) {
                Ok(()) => {},
                Err(e) => {
                    if matches!(e, STLinkError::TransferFault(_, _)) {
                        let _ = self.clear_sticky_error();
                    }
                    return Err(e);
                },
            }
            pos = pos + transfer_size as usize;
        }
        proof {
            assert(spec_chunk_frames((addr + pos) as u32, 0, memcmd, max as int, apsel) == Seq::<
                Seq<u8>,
            >::empty());
            assert(self.device.history() + Seq::<Seq<u8>>::empty() =~= self.device.history());
            assert(data@.skip(pos as int) =~= Seq::<u8>::empty());
            assert(spec_chunk_payloads(Seq::<u8>::empty(), max as int) == Seq::<Seq<u8>>::empty());
            assert(self.device.data_history() + Seq::<Seq<u8>>::empty()
                =~= self.device.data_history());
            assert(spec_chunk_count(0, max as int) == 0);
        }
        Ok(())
    }

    /// Reads target memory with 32-bit accesses. Address and length must be
    /// 4-byte aligned; an unaligned request is rejected with the alignment
    /// error, and only with it, before any transport command is issued.
    pub fn read_mem32(&mut self, addr: u32, size: u32, apsel: u8) -> (r: Result<
        Vec<u8>,
        STLinkError,
    >)
        requires
            addr % 4 == 0 && size % 4 == 0 ==> addr + size <= u32::MAX,
        ensures
            final(self).hw_version == old(self).hw_version,
            final(self).jtag_version == old(self).jtag_version,
            final(self).protocol == old(self).protocol,
            (r matches Err(e) && e == STLinkError::DataAlignmentError) <==> !(addr % 4 == 0 && size
                % 4 == 0),
            !(addr % 4 == 0 && size % 4 == 0) ==> *final(self) == *old(self),
            addr % 4 == 0 && size % 4 == 0 && size == 0 ==> (r matches Ok(data) && data@.len()
                == 0) && *final(self) == *old(self),
            final(self).device.history().take(old(self).device.history().len() as int) == old(
                self,
            ).device.history(),
            r is Ok ==> final(self).device.history() == old(self).device.history()
                + spec_chunk_frames(
                addr,
                size as int,
                commands::JTAG_READMEM_32BIT,
                MAXIMUM_TRANSFER_SIZE as int,
                apsel,
            ),
            r matches Ok(data) ==> data@.len() == size && data@ == spec_chunk_reads(
                final(self).device.responses(),
                old(self).device.responses().len() as int,
            ),
    {
        if addr % 4 == 0 && size % 4 == 0 {
            return self.read_mem(
                addr,
                size,
                commands::JTAG_READMEM_32BIT,
                MAXIMUM_TRANSFER_SIZE,
                apsel,
            );
        }
        proof {
            assert(self.device.history().take(self.device.history().len() as int)
                =~= self.device.history());
        }
        Err(STLinkError::DataAlignmentError)
    }

    /// Writes target memory with 32-bit accesses. Address and length must
    /// be 4-byte aligned; an unaligned request is rejected with the
    /// alignment error, and only with it, before any transport command is
    /// issued.
    pub fn write_mem32(&mut self, addr: u32, data: Vec<u8>, apsel: u8) -> (r: Result<
        (),
        STLinkError,
    >)
        requires
            addr % 4 == 0 && data@.len() % 4 == 0 ==> addr + data@.len() <= u32::MAX,
        ensures
            final(self).hw_version == old(self).hw_version,
            final(self).jtag_version == old(self).jtag_version,
            final(self).protocol == old(self).protocol,
            (r matches Err(e) && e == STLinkError::DataAlignmentError) <==> !(addr % 4 == 0
                && data@.len() % 4 == 0),
            !(addr % 4 == 0 && data@.len() % 4 == 0) ==> *final(self) == *old(self),
            addr % 4 == 0 && data@.len() == 0 ==> r is Ok && *final(self) == *old(self),
            final(self).device.history().take(old(self).device.history().len() as int) == old(
                self,
            ).device.history(),
            r is Ok ==> final(self).device.history() == old(self).device.history()
                + spec_chunk_frames(
                addr,
                data@.len() as int,
                commands::JTAG_WRITEMEM_32BIT,
                MAXIMUM_TRANSFER_SIZE as int,
                apsel,
            ),
            r is Ok ==> final(self).device.data_history() == old(self).device.data_history()
                + spec_chunk_payloads(data@, MAXIMUM_TRANSFER_SIZE as int),
    {
        if addr % 4 == 0 && data.len() % 4 == 0 {
            return self.write_mem(
                addr,
                data,
                commands::JTAG_WRITEMEM_32BIT,
                MAXIMUM_TRANSFER_SIZE,
                apsel,
            );
        }
        proof {
            assert(self.device.history().take(self.device.history().len() as int)
                =~= self.device.history());
        }
        Err(STLinkError::DataAlignmentError)
    }

    /// Reads target memory with 16-bit accesses. Address and length must be
    /// 2-byte aligned, and the firmware must support 16-bit transfers; a
    /// request failing either rule is rejected with that rule's error, and
    /// only with it, before any transport command is issued.
    pub fn read_mem16(&mut self, addr: u32, size: u32, apsel: u8) -> (r: Result<
        Vec<u8>,
        STLinkError,
    >)
        requires
            addr % 2 == 0 && size % 2 == 0 ==> addr + size <= u32::MAX,
        ensures
            final(self).hw_version == old(self).hw_version,
            final(self).jtag_version == old(self).jtag_version,
            final(self).protocol == old(self).protocol,
            (r matches Err(e) && e == STLinkError::DataAlignmentError) <==> !(addr % 2 == 0 && size
                % 2 == 0),
            (r matches Err(e) && e == STLinkError::Access16BitNotSupported) <==> (addr % 2 == 0
                && size % 2 == 0 && old(self).jtag_version < MIN_JTAG_VERSION_16BIT_XFER),
            !(addr % 2 == 0 && size % 2 == 0 && old(self).jtag_version
                >= MIN_JTAG_VERSION_16BIT_XFER) ==> *final(self) == *old(self),
            addr % 2 == 0 && size == 0 && old(self).jtag_version >= MIN_JTAG_VERSION_16BIT_XFER
                ==> (r matches Ok(data) && data@.len() == 0) && *final(self) == *old(self),
            final(self).device.history().take(old(self).device.history().len() as int) == old(
                self,
            ).device.history(),
            r is Ok ==> final(self).device.history() == old(self).device.history()
                + spec_chunk_frames(
                addr,
                size as int,
                commands::JTAG_READMEM_16BIT,
                MAXIMUM_TRANSFER_SIZE as int,
                apsel,
            ),
            r matches Ok(data) ==> data@.len() == size && data@ == spec_chunk_reads(
                final(self).device.responses(),
                old(self).device.responses().len() as int,
            ),
    {
        if addr % 2 == 0 && size % 2 == 0 {
            if self.jtag_version < MIN_JTAG_VERSION_16BIT_XFER {
                proof {
                    assert(self.device.history().take(self.device.history().len() as int)
                        =~= self.device.history());
                }
                return Err(STLinkError::Access16BitNotSupported);
            }
            return self.read_mem(
                addr,
                size,
                commands::JTAG_READMEM_16BIT,
                MAXIMUM_TRANSFER_SIZE,
                apsel,
            );
        }
        proof {
            assert(self.device.history().take(self.device.history().len() as int)
                =~= self.device.history());
        }
        Err(STLinkError::DataAlignmentError)
    }

    /// Writes target memory with 16-bit accesses. Address and length must
    /// be 2-byte aligned, and the firmware must support 16-bit transfers; a
    /// request failing either rule is rejected with that rule's error, and
    /// only with it, before any transport command is issued.
    pub fn write_mem16(&mut self, addr: u32, data: Vec<u8>, apsel: u8) -> (r: Result<
        (),
        STLinkError,
    >)
        requires
            addr % 2 == 0 && data@.len() % 2 == 0 ==> addr + data@.len() <= u32::MAX,
        ensures
            final(self).hw_version == old(self).hw_version,
            final(self).jtag_version == old(self).jtag_version,
            final(self).protocol == old(self).protocol,
            (r matches Err(e) && e == STLinkError::DataAlignmentError) <==> !(addr % 2 == 0
                && data@.len() % 2 == 0),
            (r matches Err(e) && e == STLinkError::Access16BitNotSupported) <==> (addr % 2 == 0
                && data@.len() % 2 == 0 && old(self).jtag_version < MIN_JTAG_VERSION_16BIT_XFER),
            !(addr % 2 == 0 && data@.len() % 2 == 0 && old(self).jtag_version
                >= MIN_JTAG_VERSION_16BIT_XFER) ==> *final(self) == *old(self),
            addr % 2 == 0 && data@.len() == 0 && old(self).jtag_version
                >= MIN_JTAG_VERSION_16BIT_XFER ==> r is Ok && *final(self) == *old(self),
            final(self).device.history().take(old(self).device.history().len() as int) == old(
                self,
            ).device.history(),
            r is Ok ==> final(self).device.history() == old(self).device.history()
                + spec_chunk_frames(
                addr,
                data@.len() as int,
                commands::JTAG_WRITEMEM_16BIT,
                MAXIMUM_TRANSFER_SIZE as int,
                apsel,
            ),
            r is Ok ==> final(self).device.data_history() == old(self).device.data_history()
                + spec_chunk_payloads(data@, MAXIMUM_TRANSFER_SIZE as int),
    {
        if addr % 2 == 0 && data.len() % 2 == 0 {
            if self.jtag_version < MIN_JTAG_VERSION_16BIT_XFER {
                proof {
                    assert(self.device.history().take(self.device.history().len() as int)
                        =~= self.device.history());
                }
                return Err(STLinkError::Access16BitNotSupported);
            }
            return self.write_mem(
                addr,
                data,
                commands::JTAG_WRITEMEM_16BIT,
                MAXIMUM_TRANSFER_SIZE,
                apsel,
            );
        }
        proof {
            assert(self.device.history().take(self.device.history().len() as int)
                =~= self.device.history());
        }
        Err(STLinkError::DataAlignmentError)
    }

    /// Reads target memory with 8-bit accesses; no alignment rule applies.
    pub fn read_mem8(&mut self, addr: u32, size: u32, apsel: u8) -> (r: Result<
        Vec<u8>,
        STLinkError,
    >)
        requires
            addr + size <= u32::MAX,
        ensures
            final(self).hw_version == old(self).hw_version,
            final(self).jtag_version == old(self).jtag_version,
            final(self).protocol == old(self).protocol,
            size == 0 ==> (r matches Ok(data) && data@.len() == 0) && *final(self) == *old(self),
            r matches Err(e) ==> e matches STLinkError::USB(_) || e matches STLinkError::TransferFault(
                _,
                _,
            ) || e == STLinkError::UnknownError,
            final(self).device.history().take(old(self).device.history().len() as int) == old(
                self,
            ).device.history(),
            r is Ok ==> final(self).device.history() == old(self).device.history()
                + spec_chunk_frames(
                addr,
                size as int,
                commands::JTAG_READMEM_8BIT,
                MAXIMUM_TRANSFER_SIZE as int,
                apsel,
            ),
            r matches Ok(data) ==> data@.len() == size && data@ == spec_chunk_reads(
                final(self).device.responses(),
                old(self).device.responses().len() as int,
            ),
    {
        self.read_mem(addr, size, commands::JTAG_READMEM_8BIT, MAXIMUM_TRANSFER_SIZE, apsel)
    }

    /// Writes target memory with 8-bit accesses; no alignment rule applies.
    pub fn write_mem8(&mut self, addr: u32, data: Vec<u8>, apsel: u8) -> (r: Result<
        (),
        STLinkError,
    >)
        requires
            addr + data@.len() <= u32::MAX,
        ensures
            final(self).hw_version == old(self).hw_version,
            final(self).jtag_version == old(self).jtag_version,
            final(self).protocol == old(self).protocol,
            data@.len() == 0 ==> r is Ok && *final(self) == *old(self),
            r matches Err(e) ==> e matches STLinkError::USB(_) || e matches STLinkError::TransferFault(
                _,
                _,
            ) || e == STLinkError::UnknownError,
            final(self).device.history().take(old(self).device.history().len() as int) == old(
                self,
            ).device.history(),
            r is Ok ==> final(self).device.history() == old(self).device.history()
                + spec_chunk_frames(
                addr,
                data@.len() as int,
                commands::JTAG_WRITEMEM_8BIT,
                MAXIMUM_TRANSFER_SIZE as int,
                apsel,
            ),
            r is Ok ==> final(self).device.data_history() == old(self).device.data_history()
                + spec_chunk_payloads(data@, MAXIMUM_TRANSFER_SIZE as int),
    {
        self.write_mem(addr, data, commands::JTAG_WRITEMEM_8BIT, MAXIMUM_TRANSFER_SIZE, apsel)
    }

    /// Reads a debug-port or access-port register.
    ///
    /// Either the low nibble of `addr` must be zero or `port` must not be
    /// the debug-port port value, and `addr` must fit in 16 bits; a request
    /// failing either rule is rejected before any transport command is
    /// issued. On success the register value is decoded little-endian from
    /// the response after the status check.
    pub fn read_dap_register(&mut self, port: u16, addr: u32) -> (r: Result<u32, STLinkError>)
        ensures
            final(self).hw_version == old(self).hw_version,
            final(self).jtag_version == old(self).jtag_version,
            final(self).protocol == old(self).protocol,
            !spec_dap_register_supported(port, addr) ==> (r matches Err(e) && e
                == STLinkError::BlanksNotAllowedOnDPRegister) && *final(self) == *old(self),
            spec_dap_register_supported(port, addr) && !spec_dap_addr_16bit(addr) ==> (r matches
                Err(e) && e == STLinkError::RegisterAddressMustBe16Bit) && *final(self) == *old(
                self,
            ),
            r is Ok ==> spec_dap_register_supported(port, addr) && spec_dap_addr_16bit(addr),
            spec_dap_register_supported(port, addr) && spec_dap_addr_16bit(addr)
                ==> final(self).device.history() == old(self).device.history().push(
                spec_padded_frame(spec_dap_read_command(port, addr as u16)),
            ),
            spec_dap_register_supported(port, addr) && spec_dap_addr_16bit(addr) ==> ({
                let p0 = old(self).device.responses();
                let pN = final(self).device.responses();
                &&& pN.len() <= p0.len() + 1
                &&& pN.len() == p0.len() + 1 ==> ({
                    let resp = pN.last();
                    &&& (resp[0] == commands::STATUS_JTAG_OK <==> r is Ok)
                    &&& (r matches Ok(v) ==> v == spec_u32_of_le(resp[0], resp[1], resp[2], resp[3]))
                    &&& (resp[0] != commands::STATUS_JTAG_OK ==> r == Err::<u32, STLinkError>(
                        STLinkError::UnknownError,
                    ))
                })
                &&& pN.len() == p0.len() ==> (r matches Err(e) && e matches STLinkError::USB(_))
            }),
    {
        if (addr & 0xf) == 0 || port != DP_PORT {
            if addr >> 16 == 0 {
                let empty: Vec<u8> = Vec::new();
                let mut cmd: Vec<u8> = Vec::new();
                cmd.push(commands::JTAG_COMMAND);
                cmd.push(commands::JTAG_READ_DAP_REG);
                push_u16_le(&mut cmd, port);
                push_u16_le(&mut cmd, addr as u16);
                assert(cmd@ =~= spec_dap_read_command(port, addr as u16));
                let buf = match self.device.write(cmd.as_slice(), empty.as_slice(), 8, TIMEOUT_MS) {
                    Ok(b) => b,
                    Err(e) => return Err(STLinkError::USB(e)),
                };
                match check_status(buf.as_slice()) {
                    Ok(()) => {},
                    Err(e) => return Err(e),
                }
                Ok(u32_of_le(buf[0], buf[1], buf[2], buf[3]))
            } else {
                Err(STLinkError::RegisterAddressMustBe16Bit)
            }
        } else {
            Err(STLinkError::BlanksNotAllowedOnDPRegister)
        }
    }

    /// Writes a debug-port or access-port register, under the same
    /// addressing rules as [`Self::read_dap_register`].
    pub fn write_dap_register(&mut self, port: u16, addr: u32, value: u32) -> (r: Result<
        (),
        STLinkError,
    >)
        ensures
            final(self).hw_version == old(self).hw_version,
            final(self).jtag_version == old(self).jtag_version,
            final(self).protocol == old(self).protocol,
            !spec_dap_register_supported(port, addr) ==> (r matches Err(e) && e
                == STLinkError::BlanksNotAllowedOnDPRegister) && *final(self) == *old(self),
            spec_dap_register_supported(port, addr) && !spec_dap_addr_16bit(addr) ==> (r matches
                Err(e) && e == STLinkError::RegisterAddressMustBe16Bit) && *final(self) == *old(
                self,
            ),
            r is Ok ==> spec_dap_register_supported(port, addr) && spec_dap_addr_16bit(addr),
            spec_dap_register_supported(port, addr) && spec_dap_addr_16bit(addr)
                ==> final(self).device.history() == old(self).device.history().push(
                spec_padded_frame(spec_dap_write_command(port, addr as u16, value)),
            ),
            spec_dap_register_supported(port, addr) && spec_dap_addr_16bit(addr) ==> ({
                let p0 = old(self).device.responses();
                let pN = final(self).device.responses();
                &&& pN.len() <= p0.len() + 1
                &&& pN.len() == p0.len() + 1 ==> r == spec_status_result(pN.last()[0])
                &&& pN.len() == p0.len() ==> (r matches Err(e) && e matches STLinkError::USB(_))
            }),
    {
        if (addr & 0xf) == 0 || port != DP_PORT {
            if addr >> 16 == 0 {
                let empty: Vec<u8> = Vec::new();
                let mut cmd: Vec<u8> = Vec::new();
                cmd.push(commands::JTAG_COMMAND);
                cmd.push(commands::JTAG_WRITE_DAP_REG);
                push_u16_le(&mut cmd, port);
                push_u16_le(&mut cmd, addr as u16);
                push_u32_le(&mut cmd, value);
                assert(cmd@ =~= spec_dap_write_command(port, addr as u16, value));
                let buf = match self.device.write(cmd.as_slice(), empty.as_slice(), 8, TIMEOUT_MS) {
                    Ok(b) => b,
                    Err(e) => return Err(STLinkError::USB(e)),
                };
                match check_status(buf.as_slice()) {
                    Ok(()) => {},
                    Err(e) => return Err(e),
                }
                Ok(())
            } else {
                Err(STLinkError::RegisterAddressMustBe16Bit)
            }
        } else {
            Err(STLinkError::BlanksNotAllowedOnDPRegister)
        }
    }

    /// Attempts to clear the probe's sticky-error latch after a detected
    /// transfer fault. The hardware write behind it needs the debug-port
    /// register layer, which this engine does not own yet, so the attempt
    /// acknowledges the fault without touching the wire; a caller must not
    /// assume a fresh probe session afterwards without reopening.
    pub fn clear_sticky_error(&mut self) -> (r: Result<(), STLinkError>)
        ensures
            *final(self) == *old(self),
            r is Ok,
    {
        Ok(())
    }
}

} // verus!
