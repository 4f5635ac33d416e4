use vstd::prelude::*;

use crate::constants::DUALSENSE_PRODUCT_ID;
use crate::constants::DUALSENSE_VENDOR_ID;

verus! {

/// Why a located device could not be attached to.
#[derive(Debug, Clone, Copy, PartialEq, Eq, Structural)]
pub enum LocateError {
    /// No enumerated device matched the controller's identity.  This is
    /// a legitimate outcome of a scan, not a fault.
    DeviceNotFound,
    /// A matching device exists but exposes no raw data node; fatal for
    /// that device, though other matches may still be usable.
    NodeUnavailable,
}

/// One entry of the host's device registry, reduced to the properties
/// the locator reads: the two split identity properties, the combined
/// identity string, and the filesystem location of the entry.  A
/// property the host does not expose for the entry is absent, not
/// empty.
#[derive(Debug, Clone, PartialEq, Eq)]
pub struct CandidateDevice {
    /// Vendor-id property: four lowercase hex digits when present.
    pub vendor_id: Option<Vec<u8>>,
    /// Model-id property: four lowercase hex digits when present.
    pub model_id: Option<Vec<u8>>,
    /// Combined identity property: `bus:VVVVVVVV:PPPPPPPP` with the
    /// 16-bit identifiers zero-padded to eight uppercase hex digits.
    pub hid_id: Option<Vec<u8>>,
    /// Filesystem location used to find the raw data node.
    pub syspath: Vec<u8>,
}

/// ASCII code of the lowercase hex digit for a value below 16.
pub open spec fn spec_hex_digit_lower(v: u8) -> u8
    recommends
        v < 16,
{
    if v < 10 {
        (0x30 + v) as u8
    } else {
        (0x57 + v) as u8
    }
}

/// ASCII code of the uppercase hex digit for a value below 16.
pub open spec fn spec_hex_digit_upper(v: u8) -> u8
    recommends
        v < 16,
{
    if v < 10 {
        (0x30 + v) as u8
    } else {
        (0x37 + v) as u8
    }
}

/// The four lowercase hex digits of a 16-bit value, highest digit
/// first.
pub open spec fn spec_hex4_lower(v: u16) -> Seq<u8> {
    seq![
        spec_hex_digit_lower(((v >> 12) & 0xF) as u8),
        spec_hex_digit_lower(((v >> 8) & 0xF) as u8),
        spec_hex_digit_lower(((v >> 4) & 0xF) as u8),
        spec_hex_digit_lower((v & 0xF) as u8),
    ]
}

/// The four uppercase hex digits of a 16-bit value, highest digit
/// first.
pub open spec fn spec_hex4_upper(v: u16) -> Seq<u8> {
    seq![
        spec_hex_digit_upper(((v >> 12) & 0xF) as u8),
        spec_hex_digit_upper(((v >> 8) & 0xF) as u8),
        spec_hex_digit_upper(((v >> 4) & 0xF) as u8),
        spec_hex_digit_upper((v & 0xF) as u8),
    ]
}

fn hex_digit_lower(v: u8) -> (r: u8)
    requires
        v < 16,
    ensures
        r == spec_hex_digit_lower(v),
{
    if v < 10 {
        0x30 + v
    } else {
        0x57 + v
    }
}

fn hex_digit_upper(v: u8) -> (r: u8)
    requires
        v < 16,
    ensures
        r == spec_hex_digit_upper(v),
{
    if v < 10 {
        0x30 + v
    } else {
        0x37 + v
    }
}

/// A 16-bit identifier written the way the host's split identity
/// properties write it: four lowercase hex digits.
pub fn hex4_lower(v: u16) -> (r: Vec<u8>)
    ensures
        r@ == spec_hex4_lower(v),
{
    proof {
        assert((v >> 12) & 0xF < 16 && (v >> 8) & 0xF < 16 && (v >> 4) & 0xF < 16 && v & 0xF < 16)
            by (bit_vector);
    }
    let mut r: Vec<u8> = Vec::new();
    r.push(hex_digit_lower(((v >> 12) & 0xF) as u8));
    r.push(hex_digit_lower(((v >> 8) & 0xF) as u8));
    r.push(hex_digit_lower(((v >> 4) & 0xF) as u8));
    r.push(hex_digit_lower((v & 0xF) as u8));
    proof {
        assert(r@ =~= spec_hex4_lower(v));
    }
    r
}

/// A 16-bit identifier written the way the host's combined identity
/// property writes it: four uppercase hex digits.
pub fn hex4_upper(v: u16) -> (r: Vec<u8>)
    ensures
        r@ == spec_hex4_upper(v),
{
    proof {
        assert((v >> 12) & 0xF < 16 && (v >> 8) & 0xF < 16 && (v >> 4) & 0xF < 16 && v & 0xF < 16)
            by (bit_vector);
    }
    let mut r: Vec<u8> = Vec::new();
    r.push(hex_digit_upper(((v >> 12) & 0xF) as u8));
    r.push(hex_digit_upper(((v >> 8) & 0xF) as u8));
    r.push(hex_digit_upper(((v >> 4) & 0xF) as u8));
    r.push(hex_digit_upper((v & 0xF) as u8));
    proof {
        assert(r@ =~= spec_hex4_upper(v));
    }
    r
}

/// What the vendor-id property of the controller reads.
pub open spec fn spec_vendor_id_property() -> Seq<u8> {
    spec_hex4_lower(DUALSENSE_VENDOR_ID)
}

/// What the model-id property of the controller reads.
pub open spec fn spec_model_id_property() -> Seq<u8> {
    spec_hex4_lower(DUALSENSE_PRODUCT_ID)
}

/// What the combined identity property of the controller reads: the
/// Bluetooth bus code, then each 16-bit identifier zero-padded to
/// eight uppercase hex digits.  The digit widths differ on purpose
/// between the two encodings; the host's database writes them so.
pub open spec fn spec_hid_id_property() -> Seq<u8> {
    seq![0x30u8, 0x30u8, 0x30u8, 0x35u8, 0x3Au8, 0x30u8, 0x30u8, 0x30u8, 0x30u8]
        + spec_hex4_upper(DUALSENSE_VENDOR_ID) + seq![0x3Au8, 0x30u8, 0x30u8, 0x30u8, 0x30u8]
        + spec_hex4_upper(DUALSENSE_PRODUCT_ID)
}

/// The combined identity property the locator matches against,
/// materialized as bytes.
pub fn hid_id_pattern() -> (r: Vec<u8>)
    ensures
        r@ == spec_hid_id_property(),
{
    let mut r: Vec<u8> = Vec::new();
    r.push(0x30);
    r.push(0x30);
    r.push(0x30);
    r.push(0x35);
    r.push(0x3A);
    r.push(0x30);
    r.push(0x30);
    r.push(0x30);
    r.push(0x30);
    let mut vendor = hex4_upper(DUALSENSE_VENDOR_ID);
    r.append(&mut vendor);
    r.push(0x3A);
    r.push(0x30);
    r.push(0x30);
    r.push(0x30);
    r.push(0x30);
    let mut product = hex4_upper(DUALSENSE_PRODUCT_ID);
    r.append(&mut product);
    proof {
        assert(r@ =~= spec_hid_id_property());
    }
    r
}

/// Whether two byte strings hold the same bytes.
fn bytes_eq(a: &Vec<u8>, b: &Vec<u8>) -> (r: bool)
    ensures
        r == (a@ == b@),
{
    if a.len() != b.len() {
        return false;
    }
    let mut i: usize = 0;
    while i < a.len()
        invariant
            i <= a@.len(),
            a@.len() == b@.len(),
            forall|j: int| 0 <= j < i ==> a@[j] == b@[j],
        decreases a@.len() - i,
    {
        if a[i] != b[i] {
            return false;
        }
        i += 1;
    }
    proof {
        assert(a@ =~= b@);
    }
    true
}

/// A device matches through the split encoding when both the
/// vendor-id and the model-id properties are present and hold the
/// controller's identifiers.
pub open spec fn spec_matches_split(d: CandidateDevice) -> bool {
    &&& d.vendor_id matches Some(v) && v@ == spec_vendor_id_property()
    &&& d.model_id matches Some(m) && m@ == spec_model_id_property()
}

/// A device matches through the combined encoding when the combined
/// identity property is present and holds the controller's identity.
pub open spec fn spec_matches_hid_id(d: CandidateDevice) -> bool {
    d.hid_id matches Some(h) && h@ == spec_hid_id_property()
}

/// A device is the controller when either identity encoding matches.
pub open spec fn spec_is_dualsense(d: CandidateDevice) -> bool {
    spec_matches_split(d) || spec_matches_hid_id(d)
}

/// Whether one registry entry matches the controller's identity under
/// either encoding the host may expose.
pub fn is_dualsense_device(d: &CandidateDevice) -> (r: bool)
    ensures
        r == spec_is_dualsense(*d),
{
    let vendor_pattern = hex4_lower(DUALSENSE_VENDOR_ID);
    let model_pattern = hex4_lower(DUALSENSE_PRODUCT_ID);
    let split = match (&d.vendor_id, &d.model_id) {
        (Some(v), Some(m)) => bytes_eq(v, &vendor_pattern) && bytes_eq(m, &model_pattern),
        _ => false,
    };
    if split {
        return true;
    }
    let combined_pattern = hid_id_pattern();
    match &d.hid_id {
        Some(h) => bytes_eq(h, &combined_pattern),
        _ => false,
    }
}

/// Indices of the registry entries that match the controller's
/// identity, in enumeration order.  When nothing matches the result is
/// empty — an absent controller is an expected outcome, not a fault.
pub fn locate_dualsense(devices: &Vec<CandidateDevice>) -> (r: Vec<usize>)
    ensures
        forall|k: int|
            #![trigger r@[k]]
            0 <= k < r@.len() ==> r@[k] < devices@.len() && spec_is_dualsense(
                devices@[r@[k] as int],
            ),
        forall|k1: int, k2: int|
            #![trigger r@[k1], r@[k2]]
            0 <= k1 < k2 < r@.len() ==> r@[k1] < r@[k2],
        forall|i: int|
            #![trigger devices@[i]]
            0 <= i < devices@.len() && spec_is_dualsense(devices@[i]) ==> r@.contains(i as usize),
        (forall|i: int| #![trigger devices@[i]] 0 <= i < devices@.len() ==> !spec_is_dualsense(devices@[i]))
            ==> r@.len() == 0,
{
    let mut r: Vec<usize> = Vec::new();
    let mut i: usize = 0;
    while i < devices.len()
        invariant
            i <= devices@.len(),
            forall|k: int|
                #![trigger r@[k]]
                0 <= k < r@.len() ==> r@[k] < i && spec_is_dualsense(devices@[r@[k] as int]),
            forall|k1: int, k2: int|
                #![trigger r@[k1], r@[k2]]
                0 <= k1 < k2 < r@.len() ==> r@[k1] < r@[k2],
            forall|j: int|
                #![trigger devices@[j]]
                0 <= j < i && spec_is_dualsense(devices@[j]) ==> r@.contains(j as usize),
        decreases devices@.len() - i,
    {
        if is_dualsense_device(&devices[i]) {
            let ghost old_r = r@;
            r.push(i);
            proof {
                assert forall|j: int|
                    0 <= j < i + 1 && spec_is_dualsense(devices@[j]) implies r@.contains(
                    j as usize,
                ) by {
                    if j == i {
                        assert(r@[r@.len() - 1] == i as usize);
                    } else {
                        let k = choose|k: int| 0 <= k < old_r.len() && old_r[k] == j as usize;
                        assert(r@[k] == j as usize);
                    }
                }
            }
        }
        i += 1;
    }
    proof {
        if r@.len() > 0 {
            assert(spec_is_dualsense(devices@[r@[0] as int]));
        }
    }
    r
}

/// Index of the first registry entry that matches the controller's
/// identity; `DeviceNotFound` when no entry does.
pub fn first_dualsense(devices: &Vec<CandidateDevice>) -> (r: Result<usize, LocateError>)
    ensures
        r matches Ok(i) ==> i < devices@.len() && spec_is_dualsense(devices@[i as int]) && forall|
            j: int,
        |
            #![trigger devices@[j]]
            0 <= j < i ==> !spec_is_dualsense(devices@[j]),
        r is Err ==> r == Result::<usize, LocateError>::Err(LocateError::DeviceNotFound) && forall|
            j: int,
        |
            #![trigger devices@[j]]
            0 <= j < devices@.len() ==> !spec_is_dualsense(devices@[j]),
{
    let mut i: usize = 0;
    while i < devices.len()
        invariant
            i <= devices@.len(),
            forall|j: int| #![trigger devices@[j]] 0 <= j < i ==> !spec_is_dualsense(devices@[j]),
        decreases devices@.len() - i,
    {
        if is_dualsense_device(&devices[i]) {
            return Ok(i);
        }
        i += 1;
    }
    Err(LocateError::DeviceNotFound)
}

/// The bytes of the `/dev/` directory prefix.
pub open spec fn spec_dev_prefix() -> Seq<u8> {
    seq![0x2Fu8, 0x64u8, 0x65u8, 0x76u8, 0x2Fu8]
}

/// Path of the raw data node for a matched device, built from the
/// first entry of its raw-node subdirectory: `/dev/` followed by the
/// entry's name.  A device without any entry has no usable node, which
/// is `NodeUnavailable` — a present but unattachable controller,
/// distinct from an absent one.
pub fn raw_node_path(entry_name: Option<&Vec<u8>>) -> (r: Result<Vec<u8>, LocateError>)
    ensures
        entry_name matches Some(name) ==> r matches Ok(p) && p@ == spec_dev_prefix() + name@,
        entry_name is None <==> r == Result::<Vec<u8>, LocateError>::Err(
            LocateError::NodeUnavailable,
        ),
{
    match entry_name {
        Some(name) => {
            let mut p: Vec<u8> = Vec::new();
            p.push(0x2F);
            p.push(0x64);
            p.push(0x65);
            p.push(0x76);
            p.push(0x2F);
            proof {
                assert(p@ =~= spec_dev_prefix() + name@.subrange(0, 0));
            }
            let mut i: usize = 0;
            while i < name.len()
                invariant
                    i <= name@.len(),
                    p@ == spec_dev_prefix() + name@.subrange(0, i as int),
                decreases name@.len() - i,
            {
                p.push(name[i]);
                i += 1;
                proof {
                    assert(p@ =~= spec_dev_prefix() + name@.subrange(0, i as int));
                }
            }
            proof {
                assert(name@.subrange(0, name@.len() as int) =~= name@);
            }
            Ok(p)
        },
        None => Err(LocateError::NodeUnavailable),
    }
}

} // verus!
