//! The table of known probe variants.

use std::collections::HashMap;
use vstd::prelude::*;
use vstd::std_specs::hash::*;

verus! {

/// The USB vendor id of every supported probe.
pub const USB_VID: u16 = 0x0483;

/// The mathematical value of an [`STLinkInfo`].
pub struct STLinkInfoView {
    pub version_name: Seq<char>,
    pub usb_pid: u16,
    pub ep_out: u8,
    pub ep_in: u8,
    pub ep_swv: u8,
}

/// Per-variant metadata of a probe: its display name, its product id and the
/// addresses of its command-out, response-in and trace-in endpoints.
pub struct STLinkInfo {
    pub version_name: String,
    pub usb_pid: u16,
    ep_out: u8,
    ep_in: u8,
    ep_swv: u8,
}

impl View for STLinkInfo {
    type V = STLinkInfoView;

    closed spec fn view(&self) -> STLinkInfoView {
        STLinkInfoView {
            version_name: self.version_name@,
            usb_pid: self.usb_pid,
            ep_out: self.ep_out,
            ep_in: self.ep_in,
            ep_swv: self.ep_swv,
        }
    }
}

impl Clone for STLinkInfo {
    fn clone(&self) -> (copy: Self)
        ensures
            copy@ == self@,
    {
        STLinkInfo {
            version_name: self.version_name.clone(),
            usb_pid: self.usb_pid,
            ep_out: self.ep_out,
            ep_in: self.ep_in,
            ep_swv: self.ep_swv,
        }
    }
}

impl STLinkInfo {
    pub fn new(version_name: &str, usb_pid: u16, ep_out: u8, ep_in: u8, ep_swv: u8) -> (info: Self)
        ensures
            info@ == (STLinkInfoView { version_name: version_name@, usb_pid, ep_out, ep_in, ep_swv }),
    {
        Self { version_name: version_name.to_owned(), usb_pid, ep_out, ep_in, ep_swv }
    }

    /// The display name of the variant.
    pub fn name(&self) -> (name: &str)
        ensures
            name@ == self@.version_name,
    {
        self.version_name.as_str()
    }

    /// The product id of the variant.
    pub fn product_id(&self) -> (pid: u16)
        ensures
            pid == self@.usb_pid,
    {
        self.usb_pid
    }

    /// The address of the endpoint that takes commands and outbound data.
    pub fn command_endpoint(&self) -> (address: u8)
        ensures
            address == self@.ep_out,
    {
        self.ep_out
    }

    /// The address of the endpoint that delivers responses.
    pub fn response_endpoint(&self) -> (address: u8)
        ensures
            address == self@.ep_in,
    {
        self.ep_in
    }

    /// The address of the endpoint that delivers trace data.
    pub fn trace_endpoint(&self) -> (address: u8)
        ensures
            address == self@.ep_swv,
    {
        self.ep_swv
    }
}

/// The display name of the variant with product id `pid`, for a known `pid`.
pub open spec fn known_name(pid: u16) -> Seq<char> {
    if pid == 0x3748 {
        "V2"@
    } else if pid == 0x374b || pid == 0x374a || pid == 0x3742 {
        "V2-1"@
    } else {
        "V3"@
    }
}

/// Whether `pid` is the product id of a supported probe.
pub open spec fn is_known(pid: u16) -> bool {
    pid == 0x3748 || pid == 0x374b || pid == 0x374a || pid == 0x3742 || pid == 0x374e || pid
        == 0x374f || pid == 0x3753
}

/// The metadata of the variant with product id `pid`, if there is one.
///
/// The first generation takes commands on endpoint `0x02` and sends trace on
/// `0x83`; every later one uses `0x01` and `0x82`. All answer on `0x81`.
pub open spec fn known_probe(pid: u16) -> Option<STLinkInfoView> {
    if !is_known(pid) {
        None
    } else if pid == 0x3748 {
        Some(
            STLinkInfoView {
                version_name: known_name(pid),
                usb_pid: pid,
                ep_out: 0x02,
                ep_in: 0x81,
                ep_swv: 0x83,
            },
        )
    } else {
        Some(
            STLinkInfoView {
                version_name: known_name(pid),
                usb_pid: pid,
                ep_out: 0x01,
                ep_in: 0x81,
                ep_swv: 0x82,
            },
        )
    }
}

/// The supported probes, each under its product id.
pub open spec fn known_probes() -> Map<u16, STLinkInfoView> {
    Map::new(|pid: u16| is_known(pid), |pid: u16| known_probe(pid)->0)
}

/// The table of supported probes, keyed by product id. It is built once and
/// handed by reference to whoever has to match a device.
pub struct Catalog {
    entries: HashMap<u16, STLinkInfo>,
}

impl View for Catalog {
    type V = Map<u16, STLinkInfoView>;

    closed spec fn view(&self) -> Map<u16, STLinkInfoView> {
        self.entries@.map_values(|info: STLinkInfo| info@)
    }
}

impl Catalog {
    #[verifier::type_invariant]
    spec fn holds_the_known_probes(self) -> bool {
        forall|pid: u16|
            #![trigger self.entries@.contains_key(pid)]
            #![trigger known_probe(pid)]
            match known_probe(pid) {
                Some(info) => self.entries@.contains_key(pid) && self.entries@[pid]@ == info,
                None => !self.entries@.contains_key(pid),
            }
    }

    /// Builds the table.
    pub fn new() -> (catalog: Self)
        ensures
            catalog@ == known_probes(),
    {
        broadcast use group_hash_axioms;

        let mut entries: HashMap<u16, STLinkInfo> = HashMap::new();
        entries.insert(0x3748, STLinkInfo::new("V2", 0x3748, 0x02, 0x81, 0x83));
        entries.insert(0x374b, STLinkInfo::new("V2-1", 0x374b, 0x01, 0x81, 0x82));
        entries.insert(0x374a, STLinkInfo::new("V2-1", 0x374a, 0x01, 0x81, 0x82));
        entries.insert(0x3742, STLinkInfo::new("V2-1", 0x3742, 0x01, 0x81, 0x82));
        entries.insert(0x374e, STLinkInfo::new("V3", 0x374e, 0x01, 0x81, 0x82));
        entries.insert(0x374f, STLinkInfo::new("V3", 0x374f, 0x01, 0x81, 0x82));
        entries.insert(0x3753, STLinkInfo::new("V3", 0x3753, 0x01, 0x81, 0x82));
        let catalog = Catalog { entries };
        assert(catalog@ =~= known_probes());
        catalog
    }

    /// Whether a probe with product id `pid` is supported.
    pub fn contains(&self, pid: u16) -> (known: bool)
        ensures
            known == is_known(pid),
            self@ == known_probes(),
    {
        broadcast use group_hash_axioms;

        proof {
            use_type_invariant(self);
            assert(self@ =~= known_probes());
        }
        self.entries.contains_key(&pid)
    }

    /// The metadata of the probe with product id `pid`.
    pub fn get(&self, pid: u16) -> (found: Option<&STLinkInfo>)
        ensures
            match found {
                Some(info) => known_probe(pid) == Some(info@),
                None => known_probe(pid) is None,
            },
            self@ == known_probes(),
    {
        broadcast use group_hash_axioms;

        proof {
            use_type_invariant(self);
            assert(self@ =~= known_probes());
        }
        self.entries.get(&pid)
    }
}

} // verus!
