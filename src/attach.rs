use vstd::prelude::*;

use crate::model::{model_of_product_id, Model, VENDOR_ID};

verus! {

/// Failure of a USB transfer or of a USB library call, by kind.
#[derive(Copy, Clone, Debug, PartialEq, Eq, Structural)]
pub enum UsbError {
    Io,
    InvalidParam,
    Access,
    NoDevice,
    NotFound,
    Busy,
    Timeout,
    Overflow,
    Pipe,
    Interrupted,
    NoMem,
    NotSupported,
    BadDescriptor,
    Other,
}

/// Why attaching a printer failed.
#[derive(Copy, Clone, Debug, PartialEq, Eq, Structural)]
pub enum AttachError {
    UsbError(UsbError),
    NoPrinter,
    NoInterface,
    NoInterfaceDescriptor,
    NoInEndpoint,
    NoOutEndpoint,
}

/// The identifiers a USB device descriptor reports.
#[derive(Copy, Clone, Debug, PartialEq, Eq, Structural)]
pub struct DeviceIds {
    pub vendor_id: u16,
    pub product_id: u16,
}

/// The parts of an endpoint descriptor that endpoint selection reads.
#[derive(Copy, Clone, Debug, PartialEq, Eq, Structural)]
pub struct Endpoint {
    pub bulk: bool,
    pub direction_in: bool,
    pub address: u8,
}

/// The printer model of a device with descriptor `d` (`None` where its
/// descriptor could not be read), if it is a supported printer that the
/// filter accepts.
pub open spec fn device_match(d: Option<DeviceIds>, filter: Option<Model>) -> Option<Model> {
    match d {
        None => None,
        Some(ids) => if ids.vendor_id != VENDOR_ID {
            None
        } else {
            match model_of_product_id(ids.product_id) {
                None => None,
                Some(m) => match filter {
                    None => Some(m),
                    Some(f) => if f == m {
                        Some(m)
                    } else {
                        None
                    },
                },
            }
        },
    }
}

/// Picks the first device, in enumeration order, that is a supported printer
/// accepted by `filter`, and returns its index and model. Devices whose
/// descriptor could not be read are skipped.
pub fn select_device(devices: &Vec<Option<DeviceIds>>, filter: Option<Model>) -> (r: Option<
    (usize, Model),
>)
    ensures
        r matches Some((i, m)) ==> {
            &&& i < devices@.len()
            &&& device_match(devices@[i as int], filter) == Some(m)
            &&& forall|j: int| 0 <= j < i ==> device_match(#[trigger] devices@[j], filter) is None
        },
        r is None <==> forall|j: int|
            0 <= j < devices@.len() ==> device_match(#[trigger] devices@[j], filter) is None,
{
    let mut i: usize = 0;
    while i < devices.len()
        invariant
            0 <= i <= devices@.len(),
            forall|j: int| 0 <= j < i ==> device_match(#[trigger] devices@[j], filter) is None,
        decreases devices@.len() - i,
    {
        if let Some(ids) = devices[i] {
            if ids.vendor_id == VENDOR_ID {
                if let Some(m) = Model::from_product_id(ids.product_id) {
                    let accepted = match filter {
                        None => true,
                        Some(f) => f == m,
                    };
                    if accepted {
                        return Some((i, m));
                    }
                }
            }
        }
        i = i + 1;
    }
    None
}

/// The bulk endpoint addresses of an interface: the last bulk IN and the last
/// bulk OUT endpoint, in descriptor order.
pub open spec fn last_bulk(eps: Seq<Endpoint>, direction_in: bool) -> Option<u8>
    decreases eps.len(),
{
    if eps.len() == 0 {
        None
    } else {
        let e = eps.last();
        if e.bulk && e.direction_in == direction_in {
            Some(e.address)
        } else {
            last_bulk(eps.drop_last(), direction_in)
        }
    }
}

/// What endpoint selection gives for an interface with number `number`:
/// `None` for a missing interface, `Some((number, None))` for one without a
/// descriptor, else its endpoints.
pub open spec fn interface_selection(iface: Option<(u8, Option<Seq<Endpoint>>)>) -> Result<
    (u8, u8, u8),
    AttachError,
> {
    match iface {
        None => Err(AttachError::NoInterface),
        Some((number, None)) => Err(AttachError::NoInterfaceDescriptor),
        Some((number, Some(eps))) => match last_bulk(eps, true) {
            None => Err(AttachError::NoInEndpoint),
            Some(in_addr) => match last_bulk(eps, false) {
                None => Err(AttachError::NoOutEndpoint),
                Some(out_addr) => Ok((number, in_addr, out_addr)),
            },
        },
    }
}

/// Finds the interface number and the bulk IN and OUT endpoint addresses of
/// the printer's interface. `number` is `None` where the active configuration
/// has no interface; `endpoints` is `None` where the interface has no
/// descriptor.
pub fn select_interface(number: Option<u8>, endpoints: Option<&Vec<Endpoint>>) -> (r: Result<
    (u8, u8, u8),
    AttachError,
>)
    ensures
        r == interface_selection(
            match number {
                None => None,
                Some(n) => Some(
                    (
                        n,
                        match endpoints {
                            None => None,
                            Some(v) => Some(v@),
                        },
                    ),
                ),
            },
        ),
{
    let n = match number {
        None => return Err(AttachError::NoInterface),
        Some(n) => n,
    };
    let eps = match endpoints {
        None => return Err(AttachError::NoInterfaceDescriptor),
        Some(eps) => eps,
    };
    let mut in_addr: Option<u8> = None;
    let mut out_addr: Option<u8> = None;
    let mut i: usize = 0;
    while i < eps.len()
        invariant
            0 <= i <= eps@.len(),
            in_addr == last_bulk(eps@.subrange(0, i as int), true),
            out_addr == last_bulk(eps@.subrange(0, i as int), false),
        decreases eps@.len() - i,
    {
        let e = eps[i];
        if e.bulk {
            if e.direction_in {
                in_addr = Some(e.address);
            } else {
                out_addr = Some(e.address);
            }
        }
        proof {
            let s = eps@.subrange(0, i + 1);
            assert(s.drop_last() =~= eps@.subrange(0, i as int));
        }
        i = i + 1;
    }
    assert(eps@.subrange(0, eps@.len() as int) =~= eps@);
    let in_addr = match in_addr {
        None => return Err(AttachError::NoInEndpoint),
        Some(a) => a,
    };
    let out_addr = match out_addr {
        None => return Err(AttachError::NoOutEndpoint),
        Some(a) => a,
    };
    Ok((n, in_addr, out_addr))
}

/// Command that resets the printer and clears its buffers.
pub fn initialize_command() -> (r: Vec<u8>)
    ensures
        r@ == seq![0x1bu8, 0x40u8],
{
    let r = vec![0x1b, 0x40];
    assert(r@ =~= seq![0x1bu8, 0x40u8]);
    r
}

/// Number of zero bytes sent on attach to flush a partial command the printer
/// may still hold from an earlier session.
pub const FLUSH_LEN: usize = 350;

/// The run of zero bytes sent on attach before `initialize_command`.
pub fn flush_command() -> (r: Vec<u8>)
    ensures
        r@ == Seq::new(FLUSH_LEN as nat, |i: int| 0u8),
{
    let mut r: Vec<u8> = Vec::new();
    while r.len() < FLUSH_LEN
        invariant
            r@.len() <= FLUSH_LEN,
            forall|i: int| 0 <= i < r@.len() ==> r@[i] == 0,
        decreases FLUSH_LEN - r@.len(),
    {
        r.push(0);
    }
    assert(r@ =~= Seq::new(FLUSH_LEN as nat, |i: int| 0u8));
    r
}

} // verus!
