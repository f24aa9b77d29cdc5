//! Serial device descriptors: what enumeration reports of each
//! attached endpoint, with `--` standing for unknown fields.
//!
//! Enumeration itself reads the machine's device registry and is the
//! caller's outside work: it hands a snapshot of plain `SerialInfo`
//! records to `SerialItem::descriptors_of`, which does everything
//! after that.

use vstd::prelude::*;
use vstd::string::StringExecFns;

verus! {

/// USB identity of a device: vendor and product id as hex strings.
pub struct UsbId {
    pub vid: String,
    pub pid: String,
}

/// What enumeration reports of one serial endpoint, as plain values:
/// the fields of the enumerator's per-port record that this library
/// reads.
pub struct SerialInfo {
    pub name: String,
    pub vendor: Option<String>,
    pub product: Option<String>,
    pub usb_info: Option<UsbId>,
}

/// A device descriptor: identity and metadata snapshot of one
/// attached serial endpoint.
#[derive(Debug)]
pub struct SerialItem {
    name: String,
    vendor: String,
    product: String,
    usb: String,
}

/// Mathematical image of a `SerialItem`.
pub struct SerialItemView {
    pub name: Seq<char>,
    pub vendor: Seq<char>,
    pub product: Seq<char>,
    pub usb: Seq<char>,
}

impl View for SerialItem {
    type V = SerialItemView;

    closed spec fn view(&self) -> SerialItemView {
        SerialItemView {
            name: self.name@,
            vendor: self.vendor@,
            product: self.product@,
            usb: self.usb@,
        }
    }
}

/// The descriptor that an enumerated endpoint's record denotes:
/// absent metadata becomes the `--` sentinel, and a USB identity is
/// joined as `vid:pid`.
pub open spec fn item_view_of(info: SerialInfo) -> SerialItemView {
    SerialItemView {
        name: info.name@,
        vendor: match info.vendor {
            Some(v) => v@,
            None => "--"@,
        },
        product: match info.product {
            Some(p) => p@,
            None => "--"@,
        },
        usb: match info.usb_info {
            Some(usb) => usb.vid@ + ":"@ + usb.pid@,
            None => "--"@,
        },
    }
}

impl SerialItem {
    /// The descriptor for one enumerated endpoint, exactly as
    /// `item_view_of` describes it.
    pub fn from_serial_info(serial_info: SerialInfo) -> (r: SerialItem)
        ensures
            r@ == item_view_of(serial_info),
    {
        let vendor = match serial_info.vendor {
            Some(v) => v,
            None => String::from_str("--"),
        };
        let product = match serial_info.product {
            Some(p) => p,
            None => String::from_str("--"),
        };
        let usb = match serial_info.usb_info {
            Some(usb) => usb.vid.concat(":").concat(usb.pid.as_str()),
            None => String::from_str("--"),
        };
        SerialItem { name: serial_info.name, vendor, product, usb }
    }

    /// The descriptors that an enumeration snapshot denotes: the
    /// records mapped elementwise through `from_serial_info`, in
    /// order, with nothing filtered, duplicated or reordered.
    pub fn descriptors_of(infos: Vec<SerialInfo>) -> (r: Vec<SerialItem>)
        ensures
            r@.len() == infos@.len(),
            forall|i: int| 0 <= i < infos@.len() ==> r@[i]@ == item_view_of(infos@[i]),
    {
        let ghost all = infos@;
        let mut rest = infos;
        let mut serials_table: Vec<SerialItem> = Vec::new();
        proof {
            assert(all.skip(0) =~= all);
        }
        while rest.len() > 0
            invariant
                serials_table@.len() + rest@.len() == all.len(),
                rest@ == all.skip(serials_table@.len() as int),
                forall|i: int|
                    0 <= i < serials_table@.len() ==> serials_table@[i]@ == item_view_of(all[i]),
            decreases rest.len(),
        {
            let ghost done = serials_table@.len() as int;
            let info = rest.remove(0);
            proof {
                assert(info == all[done]);
                assert(rest@ =~= all.skip(done + 1));
            }
            serials_table.push(SerialItem::from_serial_info(info));
        }
        serials_table
    }

    /// The endpoint's name, a device path or port name.
    pub fn get_name(&self) -> (r: &String)
        ensures
            r@ == self@.name,
    {
        &self.name
    }

    /// The vendor string, `--` when unknown.
    pub fn get_vendor(&self) -> (r: &String)
        ensures
            r@ == self@.vendor,
    {
        &self.vendor
    }

    /// The product string, `--` when unknown.
    pub fn get_product(&self) -> (r: &String)
        ensures
            r@ == self@.product,
    {
        &self.product
    }

    /// The `vid:pid` USB identity, `--` when the endpoint is not USB.
    pub fn get_usb(&self) -> (r: &String)
        ensures
            r@ == self@.usb,
    {
        &self.usb
    }
}

} // verus!
