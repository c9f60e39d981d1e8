//! The transport layer: device identity, endpoint resolution data, command
//! framing, and the interface the protocol engine drives.
//!
//! The actual USB bulk transfers live outside this library; anything that
//! performs them implements [`Transport`]. The library itself provides
//! [`ScriptedTransport`], which replays prepared responses and records what
//! was sent, so the engine's decision logic can be exercised without
//! hardware.

use vstd::prelude::*;

verus! {

/// The fixed length of every command frame, in bytes.
pub const CMD_LEN: usize = 16;

/// The USB vendor id of the probe family.
pub const USB_VID: u16 = 0x0483;

/// Timeout for bulk transfers, in milliseconds.
pub const TIMEOUT_MS: u64 = 1000;

/// A transport-level failure.
#[derive(Clone, Copy, PartialEq, Eq, Structural, Debug)]
pub enum TransportError {
    /// No matching device, or an expected endpoint is absent.
    NotFound,
    /// A bulk transfer moved fewer bytes than requested.
    Io,
    /// A bulk transfer timed out.
    Timeout,
    /// Any other failure of the underlying USB stack.
    Other,
}

/// Identity and endpoint data for one supported probe model.
pub struct STLinkInfo {
    pub version_name: String,
    pub out_ep: u8,
    pub in_ep: u8,
    pub swv_ep: u8,
}

impl STLinkInfo {
    pub fn new(version_name: &str, out_ep: u8, in_ep: u8, swv_ep: u8) -> (r: Self)
        ensures
            r.version_name@ == version_name@,
            r.out_ep == out_ep,
            r.in_ep == in_ep,
            r.swv_ep == swv_ep,
    {
        Self { version_name: version_name.to_owned(), out_ep, in_ep, swv_ep }
    }
}

/// The (out, in, trace) endpoint triple for a supported product id, or `None`
/// where the product id is not a probe of this family.
pub open spec fn spec_pid_endpoints(pid: u16) -> Option<(u8, u8, u8)> {
    if pid == 0x3748 {
        Some((0x02, 0x81, 0x83))
    } else if pid == 0x374b || pid == 0x374a || pid == 0x3742 {
        Some((0x01, 0x81, 0x82))
    } else if pid == 0x374e || pid == 0x374f || pid == 0x3753 {
        Some((0x01, 0x81, 0x82))
    } else {
        None
    }
}

/// The human-readable hardware version label for a supported product id.
pub open spec fn spec_pid_version_name(pid: u16) -> Seq<char> {
    if pid == 0x3748 {
        "V2"@
    } else if pid == 0x374b || pid == 0x374a || pid == 0x3742 {
        "V2-1"@
    } else {
        "V3"@
    }
}

/// Map of USB product id to firmware version name and device endpoints.
pub fn usb_pid_ep_map(pid: u16) -> (r: Option<STLinkInfo>)
    ensures
        match r {
            Some(info) => {
                &&& spec_pid_endpoints(pid) == Some((info.out_ep, info.in_ep, info.swv_ep))
                &&& info.version_name@ == spec_pid_version_name(pid)
            },
            None => spec_pid_endpoints(pid) is None,
        },
{
    if pid == 0x3748 {
        Some(STLinkInfo::new("V2", 0x02, 0x81, 0x83))
    } else if pid == 0x374b || pid == 0x374a || pid == 0x3742 {
        Some(STLinkInfo::new("V2-1", 0x01, 0x81, 0x82))
    } else if pid == 0x374e || pid == 0x374f || pid == 0x3753 {
        Some(STLinkInfo::new("V3", 0x01, 0x81, 0x82))
    } else {
        None
    }
}

/// Whether a byte occurs in a vector.
fn contains_byte(v: &Vec<u8>, b: u8) -> (r: bool)
    ensures
        r == v@.contains(b),
{
    let mut i: usize = 0;
    while i < v.len()
        invariant
            i <= v@.len(),
            forall|j: int| 0 <= j < i ==> v@[j] != b,
        decreases v@.len() - i,
    {
        if v[i] == b {
            return true;
        }
        i += 1;
    }
    false
}

/// Resolves the three bulk endpoints for a product: succeeds exactly when
/// the product id is a supported probe and each of its expected (out, in,
/// trace) endpoint addresses appears among the descriptor's endpoint
/// addresses; otherwise the endpoint or device counts as not found.
pub fn resolve_endpoints(pid: u16, endpoint_addrs: &Vec<u8>) -> (r: Result<
    (u8, u8, u8),
    TransportError,
>)
    ensures
        r is Ok <==> (spec_pid_endpoints(pid) matches Some(t) && endpoint_addrs@.contains(t.0)
            && endpoint_addrs@.contains(t.1) && endpoint_addrs@.contains(t.2)),
        r matches Ok(t) ==> spec_pid_endpoints(pid) == Some(t),
        r is Err ==> r == Err::<(u8, u8, u8), TransportError>(TransportError::NotFound),
{
    match usb_pid_ep_map(pid) {
        Some(info) => {
            if contains_byte(endpoint_addrs, info.out_ep) && contains_byte(
                endpoint_addrs,
                info.in_ep,
            ) && contains_byte(endpoint_addrs, info.swv_ep) {
                Ok((info.out_ep, info.in_ep, info.swv_ep))
            } else {
                Err(TransportError::NotFound)
            }
        },
        None => Err(TransportError::NotFound),
    }
}

/// `cmd` padded with zeroes to the fixed frame length.
pub open spec fn spec_padded_frame(cmd: Seq<u8>) -> Seq<u8>
    recommends
        cmd.len() <= CMD_LEN,
{
    cmd + Seq::new((CMD_LEN - cmd.len()) as nat, |i: int| 0u8)
}

/// Every padded command frame is exactly `CMD_LEN` bytes long, whatever the
/// logical command length.
pub proof fn lemma_padded_frame_len(cmd: Seq<u8>)
    requires
        cmd.len() <= CMD_LEN,
    ensures
        spec_padded_frame(cmd).len() == CMD_LEN,
{
}

/// Pads a logical command to the fixed frame length with zeroes.
pub fn pad_command(cmd: &[u8]) -> (r: Vec<u8>)
    requires
        cmd@.len() <= CMD_LEN,
    ensures
        r@ == spec_padded_frame(cmd@),
        r@.len() == CMD_LEN,
{
    let mut r: Vec<u8> = Vec::new();
    let mut i: usize = 0;
    while i < cmd.len()
        invariant
            i <= cmd@.len() <= CMD_LEN,
            r@ == cmd@.subrange(0, i as int),
        decreases cmd@.len() - i,
    {
        r.push(cmd[i]);
        i += 1;
        assert(r@ =~= cmd@.subrange(0, i as int));
    }
    assert(r@ =~= cmd@);
    while r.len() < CMD_LEN
        invariant
            cmd@.len() <= r@.len() <= CMD_LEN,
            r@.subrange(0, cmd@.len() as int) == cmd@,
            forall|j: int| cmd@.len() <= j < r@.len() ==> r@[j] == 0u8,
        decreases CMD_LEN - r@.len(),
    {
        r.push(0);
        assert(r@.subrange(0, cmd@.len() as int) =~= cmd@);
    }
    assert(r@ =~= spec_padded_frame(cmd@));
    r
}

/// `s` truncated or zero-extended to length `n`.
pub open spec fn spec_fit(s: Seq<u8>, n: nat) -> Seq<u8> {
    Seq::new(n, |i: int| if i < s.len() { s[i] } else { 0u8 })
}

/// Copies `s` into a vector of exactly `n` bytes, zero-filling the tail.
fn fit_bytes(s: &[u8], n: usize) -> (r: Vec<u8>)
    ensures
        r@ == spec_fit(s@, n as nat),
{
    let mut r: Vec<u8> = Vec::new();
    let mut i: usize = 0;
    while i < n
        invariant
            i <= n,
            r@.len() == i,
            forall|j: int| 0 <= j < i ==> r@[j] == spec_fit(s@, n as nat)[j],
        decreases n - i,
    {
        let b: u8 = if i < s.len() {
            s[i]
        } else {
            0
        };
        r.push(b);
        i += 1;
    }
    assert(r@ =~= spec_fit(s@, n as nat));
    r
}

/// Copies a byte slice into a fresh vector.
fn bytes_to_vec(s: &[u8]) -> (r: Vec<u8>)
    ensures
        r@ == s@,
{
    let mut r: Vec<u8> = Vec::new();
    let mut i: usize = 0;
    while i < s.len()
        invariant
            i <= s@.len(),
            r@ == s@.subrange(0, i as int),
        decreases s@.len() - i,
    {
        r.push(s[i]);
        i += 1;
        assert(r@ =~= s@.subrange(0, i as int));
    }
    assert(r@ =~= s@);
    r
}

/// The framed bulk transfer interface the protocol engine drives.
///
/// A transfer has three phases: the command phase, which sends `cmd` padded
/// to the fixed frame length; an optional data-out phase sending
/// `write_data`; and an optional data-in phase reading exactly `read_len`
/// bytes. An implementation must either deliver a full `read_len`-byte
/// response or fail; a short read is a transport error, never a short
/// result.
///
/// Three ghost histories model what crossed the wire, so that the protocol
/// engine's contracts can name the frames it sends and tie its results to
/// the responses it decodes: `history` holds every padded command frame
/// handed to the command phase, in order; `data_history` the data-out
/// payload of each transfer (empty where the transfer had none); and
/// `responses` the data-in bytes of each transfer that succeeded.
pub trait Transport {
    /// Every padded command frame handed to the command phase, in order.
    spec fn history(&self) -> Seq<Seq<u8>>;

    /// The data-out payload of each transfer, in order.
    spec fn data_history(&self) -> Seq<Seq<u8>>;

    /// The data-in bytes of each transfer that succeeded, in order.
    spec fn responses(&self) -> Seq<Seq<u8>>;

    /// Opens the device and claims its interface; no command frame is sent.
    fn open(&mut self) -> (r: Result<(), TransportError>)
        ensures
            final(self).history() == old(self).history(),
            final(self).data_history() == old(self).data_history(),
            final(self).responses() == old(self).responses(),
    ;

    /// Releases the device, sending no command frame. Closing an
    /// already-closed transport is a no-op.
    fn close(&mut self)
        ensures
            final(self).history() == old(self).history(),
            final(self).data_history() == old(self).data_history(),
            final(self).responses() == old(self).responses(),
    ;

    /// Performs one three-phase framed transfer.
    fn write(&mut self, cmd: &[u8], write_data: &[u8], read_len: usize, timeout_ms: u64) -> (r:
        Result<Vec<u8>, TransportError>)
        requires
            cmd@.len() <= CMD_LEN,
        ensures
            final(self).history() == old(self).history().push(spec_padded_frame(cmd@)),
            final(self).data_history() == old(self).data_history().push(write_data@),
            r matches Ok(data) ==> data@.len() == read_len && final(self).responses() == old(
                self,
            ).responses().push(data@),
            r is Err ==> final(self).responses() == old(self).responses(),
    ;
}

/// A transport that replays prepared outcomes instead of touching hardware.
///
/// Each call of `write` consumes the next scripted outcome: a response
/// buffer, which is truncated or zero-extended to the requested read length,
/// or a transport error. Calls beyond the end of the script succeed with an
/// all-zero response. Every padded command frame and every data-out phase is
/// recorded, so a caller can check afterwards what the engine sent and how
/// often it reached the transport at all.
pub struct ScriptedTransport {
    /// Outcomes to serve, in order; call `i` is served `script[i]`.
    pub script: Vec<Result<Vec<u8>, TransportError>>,
    /// The padded command frame of each `write` call, in order.
    pub frames: Vec<Vec<u8>>,
    /// The data-out phase of each `write` call, in order (empty where none).
    pub data_phases: Vec<Vec<u8>>,
    /// The bytes each successful `write` call returned, in order.
    pub reads: Vec<Vec<u8>>,
}

impl ScriptedTransport {
    /// A transport that will serve the given outcomes in order.
    pub fn new(script: Vec<Result<Vec<u8>, TransportError>>) -> (r: Self)
        ensures
            r.script == script,
            r.frames@ == Seq::<Vec<u8>>::empty(),
            r.data_phases@ == Seq::<Vec<u8>>::empty(),
            r.reads@ == Seq::<Vec<u8>>::empty(),
    {
        Self { script, frames: Vec::new(), data_phases: Vec::new(), reads: Vec::new() }
    }

    /// How many framed transfers the engine has issued on this transport.
    pub fn write_count(&self) -> (n: usize)
        ensures
            n == self.frames@.len(),
    {
        self.frames.len()
    }
}

impl Transport for ScriptedTransport {
    open spec fn history(&self) -> Seq<Seq<u8>> {
        self.frames@.map_values(|f: Vec<u8>| f@)
    }

    open spec fn data_history(&self) -> Seq<Seq<u8>> {
        self.data_phases@.map_values(|f: Vec<u8>| f@)
    }

    open spec fn responses(&self) -> Seq<Seq<u8>> {
        self.reads@.map_values(|f: Vec<u8>| f@)
    }

    fn open(&mut self) -> (r: Result<(), TransportError>)
        ensures
            *final(self) == *old(self),
            r is Ok,
    {
        Ok(())
    }

    fn close(&mut self)
        ensures
            *final(self) == *old(self),
    {
    }

    fn write(&mut self, cmd: &[u8], write_data: &[u8], read_len: usize, _timeout_ms: u64) -> (r:
        Result<Vec<u8>, TransportError>)
        ensures
            final(self).script == old(self).script,
            ({
                let k = old(self).frames@.len() as int;
                if k < old(self).script@.len() {
                    match old(self).script@[k] {
                        Ok(resp) => r matches Ok(data) && data@ == spec_fit(
                            resp@,
                            read_len as nat,
                        ),
                        Err(e) => r == Err::<Vec<u8>, TransportError>(e),
                    }
                } else {
                    r matches Ok(data) && data@ == spec_fit(Seq::<u8>::empty(), read_len as nat)
                }
            }),
    {
        let k = self.frames.len();
        let frame = pad_command(cmd);
        self.frames.push(frame);
        self.data_phases.push(bytes_to_vec(write_data));
        proof {
            assert(self.history() =~= old(self).history().push(spec_padded_frame(cmd@)));
            assert(self.data_history() =~= old(self).data_history().push(write_data@));
        }
        let outcome: Result<Vec<u8>, TransportError> = if k < self.script.len() {
            let entry: &Result<Vec<u8>, TransportError> = &self.script[k];
            match entry {
                Ok(resp) => Ok(fit_bytes(resp.as_slice(), read_len)),
                Err(e) => Err(*e),
            }
        } else {
            let empty: Vec<u8> = Vec::new();
            Ok(fit_bytes(empty.as_slice(), read_len))
        };
        match outcome {
            Ok(data) => {
                self.reads.push(bytes_to_vec(data.as_slice()));
                proof {
                    assert(self.responses() =~= old(self).responses().push(data@));
                }
                Ok(data)
            },
            Err(e) => Err(e),
        }
    }
}

} // verus!
