//! Picking the display among the HID devices of the host.
//!
//! The display is the device with the vendor and product ids of the
//! protocol. A product string that does not start with `AK` marks the SE
//! variant, whose reports carry no report id.

use vstd::prelude::*;
use crate::protocol::{PID, VID};
use crate::text::starts_with_str;

verus! {

/// `true` for the ids of the display.
pub open spec fn display_ids(ids: (u16, u16)) -> bool {
    ids.0 == VID && ids.1 == PID
}

/// Whether a device with these vendor and product ids is the display.
pub fn is_display(vendor_id: u16, product_id: u16) -> (r: bool)
    ensures
        r == display_ids((vendor_id, product_id)),
{
    vendor_id == VID && product_id == PID
}

/// Whether a product string marks the SE variant: it does not start with `AK`.
pub fn is_se_product(product: &str) -> (r: bool)
    ensures
        r == !(product@.len() >= 2 && product@.subrange(0, 2) == "AK"@),
{
    proof {
        reveal_strlit("AK");
    }
    !starts_with_str(product, "AK")
}

/// Index of the first device (by vendor and product id, in enumeration
/// order) that is the display.
pub fn find_index(devices: &Vec<(u16, u16)>) -> (r: Option<usize>)
    ensures
        r matches Some(i) ==> i < devices.len() && display_ids(devices@[i as int]) && forall|j: int|
            0 <= j < i ==> !display_ids(#[trigger] devices@[j]),
        r is None ==> forall|j: int| 0 <= j < devices.len() ==> !display_ids(#[trigger] devices@[j]),
{
    let mut i: usize = 0;
    while i < devices.len()
        invariant
            i <= devices.len(),
            forall|j: int| 0 <= j < i ==> !display_ids(#[trigger] devices@[j]),
        decreases devices.len() - i,
    {
        let (v, p) = devices[i];
        if is_display(v, p) {
            return Some(i);
        }
        i = i + 1;
    }
    None
}

/// Indices, in order, of every device that is the display.
pub fn matching_indices(devices: &Vec<(u16, u16)>) -> (r: Vec<usize>)
    ensures
        r@ == Seq::new(devices@.len(), |j: int| j).filter(|j: int| display_ids(devices@[j])).map_values(
            |j: int| j as usize,
        ),
        forall|k: int| 0 <= k < r.len() ==> r@[k] < devices.len() && display_ids(devices@[r@[k] as int]),
{
    let ghost idx = Seq::new(devices@.len(), |j: int| j);
    let ghost pred = |j: int| display_ids(devices@[j]);
    let mut r: Vec<usize> = Vec::new();
    let mut i: usize = 0;
    while i < devices.len()
        invariant
            i <= devices.len(),
            idx == Seq::new(devices@.len(), |j: int| j),
            pred == (|j: int| display_ids(devices@[j])),
            r@ == idx.subrange(0, i as int).filter(pred).map_values(|j: int| j as usize),
            forall|k: int| 0 <= k < r.len() ==> r@[k] < i && display_ids(devices@[r@[k] as int]),
        decreases devices.len() - i,
    {
        proof {
            reveal_with_fuel(Seq::<_>::filter, 1);
            assert(idx.subrange(0, i + 1).drop_last() =~= idx.subrange(0, i as int));
        }
        let (v, p) = devices[i];
        if is_display(v, p) {
            r.push(i);
            proof {
                assert(idx.subrange(0, i + 1).filter(pred) == idx.subrange(0, i as int).filter(pred).push(
                    i as int,
                ));
                assert(r@ =~= idx.subrange(0, i + 1).filter(pred).map_values(|j: int| j as usize));
            }
        } else {
            proof {
                assert(idx.subrange(0, i + 1).filter(pred) == idx.subrange(0, i as int).filter(pred));
            }
        }
        i = i + 1;
    }
    assert(idx.subrange(0, devices@.len() as int) =~= idx);
    r
}

} // verus!
