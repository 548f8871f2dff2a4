use vstd::prelude::*;

use crate::mappings::{kind_of, Kind, DEVICE_NAMESPACE};

verus! {

/// Serial number that every protocol-1 unit reports.
pub const SHARED_SERIAL: &'static str = "355499441494";

/// Identity of a device: the namespace tag and the serial number, or, for
/// families whose units share one serial, that serial and a family suffix.
pub open spec fn spec_device_id(vid: u16, pid: u16, serial: Option<Seq<char>>) -> Option<Seq<char>> {
    match kind_of(vid, pid) {
        None => None,
        Some(kind) => if kind.spec_protocol_version() == 1 {
            Some(DEVICE_NAMESPACE@ + "-"@ + SHARED_SERIAL@ + "-"@ + kind.spec_id_suffix())
        } else {
            match serial {
                Some(s) => Some(DEVICE_NAMESPACE@ + "-"@ + s),
                None => None,
            }
        },
    }
}

/// View of an optional serial number.
pub open spec fn serial_view(serial: Option<String>) -> Option<Seq<char>> {
    match serial {
        Some(s) => Some(s@),
        None => None,
    }
}

/// Computes the identity of a device from its vendor id, product id and
/// serial number; `None` for unsupported devices, and for devices that need
/// a serial number and report none.
pub fn get_device_id(vid: u16, pid: u16, serial: &Option<String>) -> (r: Option<String>)
    ensures
        r matches Some(s) ==> spec_device_id(vid, pid, serial_view(*serial)) == Some(s@),
        r is None ==> spec_device_id(vid, pid, serial_view(*serial)) is None,
{
    let kind = match Kind::from_vid_pid(vid, pid) {
        Some(k) => k,
        None => return None,
    };
    if kind.protocol_version() == 1 {
        let mut id = String::from_str(DEVICE_NAMESPACE);
        id.append("-");
        id.append(SHARED_SERIAL);
        id.append("-");
        let suffix = kind.id_suffix();
        id.append(suffix.as_str());
        Some(id)
    } else {
        match serial {
            Some(s) => {
                let mut id = String::from_str(DEVICE_NAMESPACE);
                id.append("-");
                id.append(s.as_str());
                Some(id)
            },
            None => None,
        }
    }
}

/// A device found by a scan or a hot-plug notification, as its vendor id,
/// product id, serial number and transport descriptor.
pub struct FoundDevice<D> {
    pub vendor_id: u16,
    pub product_id: u16,
    pub serial_number: Option<String>,
    pub dev: D,
}

/// A supported device with its identity and family.
pub struct CandidateDevice<D> {
    pub id: String,
    pub dev: D,
    pub kind: Kind,
}

/// Identity, family and descriptor of the candidate a found device gives, if any.
pub open spec fn spec_candidate<D>(f: FoundDevice<D>) -> Option<(Seq<char>, Kind, D)> {
    match spec_device_id(f.vendor_id, f.product_id, serial_view(f.serial_number)) {
        Some(id) => Some((id, kind_of(f.vendor_id, f.product_id).unwrap(), f.dev)),
        None => None,
    }
}

impl<D> CandidateDevice<D> {
    pub open spec fn model(&self) -> (Seq<char>, Kind, D) {
        (self.id@, self.kind, self.dev)
    }
}

/// Turns a found device into a candidate when it is supported and has an
/// identity.
pub fn device_info_to_candidate<D>(found: FoundDevice<D>) -> (r: Option<CandidateDevice<D>>)
    ensures
        r is Some <==> spec_candidate(found) is Some,
        r matches Some(c) ==> spec_candidate(found) == Some(c.model()),
{
    let FoundDevice { vendor_id, product_id, serial_number, dev } = found;
    let id = match get_device_id(vendor_id, product_id, &serial_number) {
        Some(id) => id,
        None => return None,
    };
    let kind = match Kind::from_vid_pid(vendor_id, product_id) {
        Some(k) => k,
        None => return None,
    };
    Some(CandidateDevice { id, dev, kind })
}

/// Candidates of a list of found devices, in order.
pub open spec fn spec_candidates<D>(found: Seq<FoundDevice<D>>) -> Seq<(Seq<char>, Kind, D)>
    decreases found.len(),
{
    if found.len() == 0 {
        Seq::empty()
    } else {
        let rest = spec_candidates(found.drop_last());
        match spec_candidate(found.last()) {
            Some(c) => rest.push(c),
            None => rest,
        }
    }
}

/// Keeps the found devices that are supported and have an identity.
pub fn get_candidates<D>(found: Vec<FoundDevice<D>>) -> (r: Vec<CandidateDevice<D>>)
    ensures
        r@.map_values(|c: CandidateDevice<D>| c.model()) == spec_candidates(found@),
{
    let ghost all = found@;
    let mut found = found;
    let mut r: Vec<CandidateDevice<D>> = Vec::new();
    let mut k: usize = 0;
    let n = found.len();
    while found.len() > 0
        invariant
            n == all.len(),
            k <= n,
            found@ == all.subrange(k as int, n as int),
            r@.map_values(|c: CandidateDevice<D>| c.model()) == spec_candidates(
                all.subrange(0, k as int),
            ),
        decreases found@.len(),
    {
        let f = found.remove(0);
        assert(f == all[k as int]);
        assert(all.subrange(0, k as int + 1).drop_last() =~= all.subrange(0, k as int));
        assert(all.subrange(0, k as int + 1).last() == f);
        match device_info_to_candidate(f) {
            Some(c) => {
                let ghost before = r@;
                r.push(c);
                assert(r@.map_values(|c: CandidateDevice<D>| c.model()) =~= before.map_values(
                    |c: CandidateDevice<D>| c.model(),
                ).push(c.model()));
            },
            None => {},
        }
        k = k + 1;
        assert(found@ =~= all.subrange(k as int, n as int));
    }
    assert(all.subrange(0, n as int) =~= all);
    r
}

} // verus!
