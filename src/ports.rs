//! Which USB serial ports a settings front-end offers, and under which
//! label.

use vstd::prelude::*;
use vstd::string::{StringExecFns, StringSliceAdditionalSpecFns};

verus! {

/// Whether the bytes `b` hold `cu`, the mark of a calling-unit device.
pub open spec fn has_calling_unit_mark(b: Seq<u8>) -> bool {
    exists|i: int| 0 <= i < b.len() - 1 && #[trigger] b[i] == 0x63u8 && b[i + 1] == 0x75u8
}

/// The label of a port: the product name, followed by the device name in
/// parentheses where only calling units are offered; the device name
/// where the product is unknown.
pub open spec fn port_label(name: Seq<char>, product: Option<Seq<char>>, calling_units_only: bool) -> Seq<char> {
    match product {
        Some(p) => if calling_units_only {
            p + " ("@ + name + ")"@
        } else {
            p
        },
        None => name,
    }
}

/// The view of an optional string.
pub open spec fn opt_view(s: Option<&str>) -> Option<Seq<char>> {
    match s {
        Some(p) => Some(p@),
        None => None,
    }
}

fn has_calling_unit(name: &str) -> (r: bool)
    ensures
        r == has_calling_unit_mark(name.spec_bytes()),
{
    let b = name.as_bytes();
    let mut i: usize = 0;
    while i < b.len()
        invariant
            b@ == name.spec_bytes(),
            i <= b@.len(),
            forall|j: int| 0 <= j < i && j < b@.len() - 1 ==> !(#[trigger] b@[j] == 0x63u8 && b@[j + 1] == 0x75u8),
        decreases b@.len() - i,
    {
        if i + 1 < b.len() && b[i] == 0x63u8 && b[i + 1] == 0x75u8 {
            assert(b@[i as int] == 0x63u8 && b@[i as int + 1] == 0x75u8);
            return true;
        }
        i = i + 1;
    }
    proof {
        if has_calling_unit_mark(b@) {
            let k = choose|k: int| 0 <= k < b@.len() - 1 && #[trigger] b@[k] == 0x63u8 && b@[k + 1] == 0x75u8;
            assert(!(b@[k] == 0x63u8 && b@[k + 1] == 0x75u8));
        }
    }
    false
}

/// The entry offered for a USB serial port `name` whose product name is
/// `product`: the device name and its label. Where only calling units are
/// offered, a port whose name does not hold `cu` is left out.
pub fn port_entry(name: &str, product: Option<&str>, calling_units_only: bool) -> (r: Option<(String, String)>)
    ensures
        r is None <==> calling_units_only && !has_calling_unit_mark(name.spec_bytes()),
        r matches Some(e) ==> e.0@ == name@ && e.1@ == port_label(
            name@,
            opt_view(product),
            calling_units_only,
        ),
{
    if calling_units_only && !has_calling_unit(name) {
        return None;
    }
    let label = match product {
        Some(p) => if calling_units_only {
            let mut l = p.to_owned();
            l.append(" (");
            l.append(name);
            l.append(")");
            l
        } else {
            p.to_owned()
        },
        None => name.to_owned(),
    };
    Some((name.to_owned(), label))
}

} // verus!
