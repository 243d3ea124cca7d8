//! Discovery of plugged probes and the transport session with one of them.

use crate::catalog::{is_known, known_probe, Catalog, STLinkInfo, USB_VID};
use crate::error::UsbError;
use crate::frame::{CommandFrame, CMD_LEN};
use crate::transport::{
    after_command, after_data_out, at, begin_close, begin_open, begin_read, begin_read_swv,
    begin_write, failure, found, idle, is_open, refusal, step, Progress, ProgressView, Reply,
    Request, RequestView, SessionView, Stage, DRAIN_LEN, DRAIN_TIMEOUT_MS, INTERFACE,
};
use vstd::prelude::*;
use vstd::slice::slice_to_vec;

verus! {

/// The identity that a USB device reports in its descriptor.
#[derive(Clone, Copy, Debug, PartialEq, Eq, Structural)]
pub struct DeviceDescriptor {
    pub vendor_id: u16,
    pub product_id: u16,
}

fn failure_of(reply: &Reply) -> (error: UsbError)
    ensures
        error == failure(reply@),
{
    match reply {
        Reply::Failed { error } => *error,
        _ => UsbError::Other,
    }
}

fn holds(addresses: &Vec<u8>, wanted: u8) -> (found: bool)
    ensures
        found == addresses@.contains(wanted),
{
    let mut i: usize = 0;
    while i < addresses.len()
        invariant
            i <= addresses@.len(),
            forall|j: int| 0 <= j < i ==> addresses@[j] != wanted,
        decreases addresses@.len() - i,
    {
        if addresses[i] == wanted {
            return true;
        }
        i += 1;
    }
    false
}

/// The transport session with one probe, and before that the probe as it
/// was found.
pub struct STLinkUSBDevice {
    device: usize,
    pub info: STLinkInfo,
    stage: Stage,
    payload: Vec<u8>,
}

impl View for STLinkUSBDevice {
    type V = SessionView;

    closed spec fn view(&self) -> SessionView {
        SessionView {
            device: self.device,
            info: self.info@,
            stage: self.stage,
            payload: self.payload@,
        }
    }
}

impl STLinkUSBDevice {
    /// The probe at position `device` of an enumeration, from what reading
    /// its descriptor gave. A descriptor that could not be read has its
    /// error handed on; a product that the catalog lacks is `NotFound`.
    pub fn new(catalog: &Catalog, device: usize, descriptor: Result<DeviceDescriptor, UsbError>) -> (probe:
        Result<Self, UsbError>)
        ensures
            match descriptor {
                Err(error) => probe matches Err(e) && e == error,
                Ok(d) => match known_probe(d.product_id) {
                    Some(info) => probe matches Ok(p) && p@ == found(device, info),
                    None => probe matches Err(e) && e == UsbError::NotFound,
                },
            },
    {
        match descriptor {
            Err(error) => Err(error),
            Ok(d) => match catalog.get(d.product_id) {
                Some(info) => Ok(
                    STLinkUSBDevice {
                        device,
                        info: info.clone(),
                        stage: Stage::Closed,
                        payload: Vec::new(),
                    },
                ),
                None => Err(UsbError::NotFound),
            },
        }
    }

    /// The position of the device in the enumeration that found it.
    pub fn device(&self) -> (device: usize)
        ensures
            device == self@.device,
    {
        self.device
    }

    /// What the session is in the middle of.
    pub fn stage(&self) -> (stage: Stage)
        ensures
            stage == self@.stage,
    {
        self.stage
    }

    /// Whether the interface is claimed and its endpoints are confirmed.
    pub fn is_open(&self) -> (open: bool)
        ensures
            open == is_open(self@.stage),
    {
        match self.stage {
            Stage::Closed | Stage::Claiming | Stage::Describing | Stage::Draining | Stage::Releasing {
                ..
            } => false,
            _ => true,
        }
    }

    fn refusal_now(&self) -> (refused: Option<UsbError>)
        ensures
            refused == refusal(self@.stage),
    {
        match self.stage {
            Stage::Idle => None,
            Stage::Closed => Some(UsbError::NotFound),
            _ => Some(UsbError::Busy),
        }
    }

    /// Begins to open the session: claim the interface, confirm that the
    /// three endpoints of the variant exist, drain what an earlier session
    /// left behind. Only a closed session can be opened; any other is `Busy`.
    pub fn open(&mut self) -> (progress: Progress)
        ensures
            final(self)@ == begin_open(old(self)@).0,
            progress@ == begin_open(old(self)@).1,
    {
        match self.stage {
            Stage::Closed => {
                self.stage = Stage::Claiming;
                Progress::Perform(Request::Claim { interface: INTERFACE })
            },
            _ => Progress::Done(Err(UsbError::Busy)),
        }
    }

    /// Begins to close the session. A session that is not open is
    /// `NotFound`; one with an operation in flight is `Busy`.
    pub fn close(&mut self) -> (progress: Progress)
        ensures
            final(self)@ == begin_close(old(self)@).0,
            progress@ == begin_close(old(self)@).1,
    {
        match self.refusal_now() {
            Some(error) => Progress::Done(Err(error)),
            None => {
                self.stage = Stage::Closing;
                Progress::Perform(Request::Release { interface: INTERFACE })
            },
        }
    }

    /// Begins a read of up to `size` bytes from the response endpoint. The
    /// operation ends with the bytes that came, or with the error of the
    /// transfer, a timeout among them. A session that is not open is
    /// `NotFound`; one with an operation in flight is `Busy`.
    pub fn read(&mut self, size: u16, timeout_ms: u64) -> (progress: Progress)
        ensures
            final(self)@ == begin_read(old(self)@, size, timeout_ms).0,
            progress@ == begin_read(old(self)@, size, timeout_ms).1,
    {
        match self.refusal_now() {
            Some(error) => Progress::Done(Err(error)),
            None => {
                self.stage = Stage::Reading;
                Progress::Perform(
                    Request::BulkIn {
                        endpoint: self.info.response_endpoint(),
                        len: size as usize,
                        timeout_ms,
                    },
                )
            },
        }
    }

    /// Begins a command: the frame of `cmd`, then `write_data` if there is
    /// any, then a response of `read_len` bytes if `read_len` is not zero.
    /// A command longer than a frame is `InvalidParam`, and nothing is sent.
    /// A session that is not open is `NotFound`; one with an operation in
    /// flight is `Busy`.
    pub fn write(&mut self, cmd: Vec<u8>, write_data: &[u8], read_len: usize, timeout_ms: u64) -> (progress:
        Progress)
        ensures
            final(self)@ == begin_write(old(self)@, cmd@, write_data@, read_len, timeout_ms).0,
            progress@ == begin_write(old(self)@, cmd@, write_data@, read_len, timeout_ms).1,
    {
        let frame = match CommandFrame::new(cmd) {
            Ok(frame) => frame,
            Err(error) => {
                return Progress::Done(Err(error));
            },
        };
        match self.refusal_now() {
            Some(error) => Progress::Done(Err(error)),
            None => {
                self.stage = Stage::Command { read_len, timeout_ms };
                self.payload = slice_to_vec(write_data);
                Progress::Perform(
                    Request::BulkOut {
                        endpoint: self.info.command_endpoint(),
                        data: frame.into_bytes(),
                        timeout_ms,
                    },
                )
            },
        }
    }

    /// Begins a read of `size` bytes from the trace endpoint. The operation
    /// ends with `Io` unless exactly `size` bytes came. A session that is
    /// not open is `NotFound`; one with an operation in flight is `Busy`.
    pub fn read_swv(&mut self, size: usize, timeout_ms: u64) -> (progress: Progress)
        ensures
            final(self)@ == begin_read_swv(old(self)@, size, timeout_ms).0,
            progress@ == begin_read_swv(old(self)@, size, timeout_ms).1,
    {
        match self.refusal_now() {
            Some(error) => Progress::Done(Err(error)),
            None => {
                self.stage = Stage::Tracing { expected: size };
                Progress::Perform(
                    Request::BulkIn { endpoint: self.info.trace_endpoint(), len: size, timeout_ms },
                )
            },
        }
    }

    fn finish(&mut self, result: Result<Vec<u8>, UsbError>) -> (progress: Progress)
        ensures
            final(self)@ == idle(old(self)@),
            progress@ == (Progress::Done(result))@,
    {
        self.stage = Stage::Idle;
        self.payload = Vec::new();
        Progress::Done(result)
    }

    fn give_back(&mut self, error: UsbError) -> (progress: Progress)
        ensures
            final(self)@ == at(old(self)@, Stage::Releasing { error }),
            progress@ == ProgressView::Perform(RequestView::Release { interface: INTERFACE }),
    {
        self.stage = Stage::Releasing { error };
        Progress::Perform(Request::Release { interface: INTERFACE })
    }

    fn proceed_after_data_out(&mut self, read_len: usize, timeout_ms: u64) -> (progress: Progress)
        ensures
            final(self)@ == after_data_out(old(self)@, read_len, timeout_ms).0,
            progress@ == after_data_out(old(self)@, read_len, timeout_ms).1,
    {
        if read_len > 0 {
            self.stage = Stage::DataIn { expected: read_len };
            self.payload = Vec::new();
            Progress::Perform(
                Request::BulkIn { endpoint: self.info.response_endpoint(), len: read_len, timeout_ms },
            )
        } else {
            self.finish(Ok(Vec::new()))
        }
    }

    fn proceed_after_command(&mut self, read_len: usize, timeout_ms: u64) -> (progress: Progress)
        ensures
            final(self)@ == after_command(old(self)@, read_len, timeout_ms).0,
            progress@ == after_command(old(self)@, read_len, timeout_ms).1,
    {
        if self.payload.len() > 0 {
            let mut data: Vec<u8> = Vec::new();
            std::mem::swap(&mut data, &mut self.payload);
            self.stage = Stage::DataOut { expected: data.len(), read_len, timeout_ms };
            Progress::Perform(
                Request::BulkOut { endpoint: self.info.command_endpoint(), data, timeout_ms },
            )
        } else {
            self.proceed_after_data_out(read_len, timeout_ms)
        }
    }

    /// Takes the reply to the request that is in flight and says how the
    /// operation goes on. A reply of another kind than the request calls for
    /// counts as a failure with `Other`; a reply that comes while nothing is
    /// in flight is `InvalidParam`.
    pub fn complete(&mut self, reply: Reply) -> (progress: Progress)
        ensures
            final(self)@ == step(old(self)@, reply@).0,
            progress@ == step(old(self)@, reply@).1,
    {
        match self.stage {
            Stage::Closed | Stage::Idle => Progress::Done(Err(UsbError::InvalidParam)),
            Stage::Claiming => match reply {
                Reply::Claimed => {
                    self.stage = Stage::Describing;
                    Progress::Perform(Request::Describe { interface: INTERFACE })
                },
                other => {
                    self.stage = Stage::Closed;
                    Progress::Done(Err(failure_of(&other)))
                },
            },
            Stage::Describing => match reply {
                Reply::Endpoints { addresses } => {
                    if holds(&addresses, self.info.command_endpoint()) && holds(
                        &addresses,
                        self.info.response_endpoint(),
                    ) && holds(&addresses, self.info.trace_endpoint()) {
                        self.stage = Stage::Draining;
                        Progress::Perform(
                            Request::BulkIn {
                                endpoint: self.info.response_endpoint(),
                                len: DRAIN_LEN,
                                timeout_ms: DRAIN_TIMEOUT_MS,
                            },
                        )
                    } else {
                        self.give_back(UsbError::NotFound)
                    }
                },
                other => self.give_back(failure_of(&other)),
            },
            Stage::Draining => match reply {
                Reply::Received { .. } | Reply::Failed { error: UsbError::Timeout } => self.finish(
                    Ok(Vec::new()),
                ),
                other => self.give_back(failure_of(&other)),
            },
            Stage::Releasing { error } => {
                self.stage = Stage::Closed;
                Progress::Done(Err(error))
            },
            Stage::Closing => match reply {
                Reply::Released => {
                    self.stage = Stage::Closed;
                    Progress::Done(Ok(Vec::new()))
                },
                other => self.finish(Err(failure_of(&other))),
            },
            Stage::Reading => match reply {
                Reply::Received { data } => self.finish(Ok(data)),
                other => self.finish(Err(failure_of(&other))),
            },
            Stage::Command { read_len, timeout_ms } => match reply {
                Reply::Sent { len } => if len == CMD_LEN {
                    self.proceed_after_command(read_len, timeout_ms)
                } else {
                    self.finish(Err(UsbError::Io))
                },
                other => self.finish(Err(failure_of(&other))),
            },
            Stage::DataOut { expected, read_len, timeout_ms } => match reply {
                Reply::Sent { len } => if len == expected {
                    self.proceed_after_data_out(read_len, timeout_ms)
                } else {
                    self.finish(Err(UsbError::Io))
                },
                other => self.finish(Err(failure_of(&other))),
            },
            Stage::DataIn { expected } | Stage::Tracing { expected } => match reply {
                Reply::Received { data } => if data.len() == expected {
                    self.finish(Ok(data))
                } else {
                    self.finish(Err(UsbError::Io))
                },
                other => self.finish(Err(failure_of(&other))),
            },
        }
    }
}

/// Whether a device with this descriptor is a supported probe: its
/// descriptor could be read, and names the vendor and a known product.
pub open spec fn is_probe(descriptor: Result<DeviceDescriptor, UsbError>) -> bool {
    descriptor matches Ok(d) && d.vendor_id == USB_VID && is_known(d.product_id)
}

/// The supported probes among `devices`, in the order of `devices`, each
/// with its position in `devices` and the metadata of its variant.
pub open spec fn candidates(devices: Seq<Result<DeviceDescriptor, UsbError>>) -> Seq<SessionView>
    decreases devices.len(),
{
    if devices.len() == 0 {
        Seq::empty()
    } else {
        let earlier = candidates(devices.drop_last());
        if is_probe(devices.last()) {
            earlier.push(
                found(
                    (devices.len() - 1) as usize,
                    known_probe(devices.last()->Ok_0.product_id)->0,
                ),
            )
        } else {
            earlier
        }
    }
}

/// The values of a list of sessions.
pub open spec fn views(probes: Seq<STLinkUSBDevice>) -> Seq<SessionView> {
    probes.map_values(|probe: STLinkUSBDevice| probe@)
}

/// Whether a device is a supported probe, from what reading its descriptor
/// gave.
pub fn usb_match(catalog: &Catalog, descriptor: &Result<DeviceDescriptor, UsbError>) -> (matched:
    bool)
    ensures
        matched == is_probe(*descriptor),
{
    match descriptor {
        Ok(d) => d.vendor_id == USB_VID && catalog.contains(d.product_id),
        Err(_) => false,
    }
}

/// The supported probes of an enumeration, from what listing the devices
/// and reading the descriptor of each gave. A failed listing fails the
/// call; a device whose descriptor could not be read is passed over.
pub fn get_all_plugged_devices(
    catalog: &Catalog,
    enumeration: Result<Vec<Result<DeviceDescriptor, UsbError>>, UsbError>,
) -> (plugged: Result<Vec<STLinkUSBDevice>, UsbError>)
    ensures
        match enumeration {
            Err(error) => plugged matches Err(e) && e == error,
            Ok(devices) => plugged matches Ok(probes) && views(probes@) == candidates(devices@),
        },
{
    let devices = match enumeration {
        Ok(devices) => devices,
        Err(error) => {
            return Err(error);
        },
    };
    let mut probes: Vec<STLinkUSBDevice> = Vec::new();
    let mut i: usize = 0;
    while i < devices.len()
        invariant
            i <= devices@.len(),
            views(probes@) == candidates(devices@.take(i as int)),
        decreases devices@.len() - i,
    {
        proof {
            assert(devices@.take(i + 1).drop_last() == devices@.take(i as int));
        }
        if usb_match(catalog, &devices[i]) {
            if let Ok(probe) = STLinkUSBDevice::new(catalog, i, devices[i]) {
                proof {
                    assert(views(probes@.push(probe)) == views(probes@).push(probe@));
                }
                probes.push(probe);
            }
        }
        i += 1;
    }
    proof {
        assert(devices@.take(i as int) == devices@);
    }
    Ok(probes)
}

/// Takes the probe that the caller chose by its number out of the list of
/// those that were found. A number that names none is `NotFound`.
pub fn select_device(probes: &mut Vec<STLinkUSBDevice>, n: u8) -> (chosen: Result<
    STLinkUSBDevice,
    UsbError,
>)
    ensures
        n < old(probes)@.len() ==> (chosen matches Ok(probe) && probe == old(probes)@[n as int]
            && final(probes)@ == old(probes)@.remove(n as int)),
        n >= old(probes)@.len() ==> (chosen matches Err(e) && e == UsbError::NotFound
            && final(probes)@ == old(probes)@),
{
    if probes.len() <= n as usize {
        Err(UsbError::NotFound)
    } else {
        Ok(probes.remove(n as usize))
    }
}

/// What a device is known by: its descriptor, or nothing where that could
/// not be read.
pub open spec fn identity(descriptor: Result<DeviceDescriptor, UsbError>) -> Option<
    DeviceDescriptor,
> {
    match descriptor {
        Ok(d) => Some(d),
        Err(_) => None,
    }
}

/// Matching keeps the order of the enumeration and loses no probe: the
/// matches are exactly the supported probes among the devices, each once, at
/// rising positions, each with the metadata that the catalog has for its
/// product.
pub proof fn lemma_matching_keeps_order(devices: Seq<Result<DeviceDescriptor, UsbError>>)
    requires
        devices.len() <= usize::MAX,
    ensures
        candidates(devices).len() <= devices.len(),
        forall|k: int|
            #![trigger candidates(devices)[k]]
            0 <= k < candidates(devices).len() ==> {
                let at = candidates(devices)[k].device as int;
                &&& at < devices.len()
                &&& is_probe(devices[at])
                &&& candidates(devices)[k] == found(
                    at as usize,
                    known_probe(devices[at]->Ok_0.product_id)->0,
                )
            },
        forall|j: int, k: int|
            #![trigger candidates(devices)[j], candidates(devices)[k]]
            0 <= j < k < candidates(devices).len() ==> candidates(devices)[j].device
                < candidates(devices)[k].device,
        forall|i: int|
            #![trigger devices[i]]
            0 <= i < devices.len() && is_probe(devices[i]) ==> exists|k: int|
                #![trigger candidates(devices)[k]]
                0 <= k < candidates(devices).len() && candidates(devices)[k].device == i,
    decreases devices.len(),
{
    if devices.len() > 0 {
        let earlier = devices.drop_last();
        let last = devices.len() - 1;
        lemma_matching_keeps_order(earlier);
        let before = candidates(earlier);
        let all = candidates(devices);
        assert forall|i: int|
            #![trigger devices[i]]
            0 <= i < devices.len() && is_probe(devices[i]) implies exists|k: int|
            #![trigger all[k]]
            0 <= k < all.len() && all[k].device == i by {
            if i < last {
                assert(is_probe(earlier[i]));
                let k = choose|k: int|
                    #![trigger before[k]]
                    0 <= k < before.len() && before[k].device == i;
                assert(all[k].device == i);
            } else {
                assert(all[all.len() - 1].device == i);
            }
        }
    }
}

/// Matching the same devices again gives the same matches: what comes out
/// depends on nothing but the identities of the devices and their order.
pub proof fn lemma_matching_repeats(
    first: Seq<Result<DeviceDescriptor, UsbError>>,
    second: Seq<Result<DeviceDescriptor, UsbError>>,
)
    requires
        first.len() == second.len(),
        forall|i: int| 0 <= i < first.len() ==> identity(first[i]) == identity(second[i]),
    ensures
        candidates(first) == candidates(second),
    decreases first.len(),
{
    if first.len() > 0 {
        lemma_matching_repeats(first.drop_last(), second.drop_last());
        assert(identity(first.last()) == identity(second.last()));
    }
}

} // verus!
