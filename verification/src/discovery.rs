//! Choosing a device when the caller names none.

use vstd::prelude::*;

verus! {

/// A serial port of the system, as far as the choice depends on it.
#[derive(Debug, PartialEq, Eq)]
pub struct Port {
    /// The path under which the port is opened.
    pub name: String,
    /// Whether the port is attached over USB.
    pub usb: bool,
}

/// Whether `index` is the first port attached over USB.
pub open spec fn is_first_usb(ports: Seq<Port>, index: int) -> bool {
    &&& 0 <= index < ports.len()
    &&& ports[index].usb
    &&& forall|j: int| 0 <= j < index ==> !(#[trigger] ports[j]).usb
}

/// Whether no port is attached over USB.
pub open spec fn no_usb(ports: Seq<Port>) -> bool {
    forall|j: int| 0 <= j < ports.len() ==> !(#[trigger] ports[j]).usb
}

/// Chooses the port to use when none was named: the first one attached over
/// USB, in the order in which the system lists them. `None` if there is none.
pub fn pick_port(ports: &Vec<Port>) -> (choice: Option<usize>)
    ensures
        match choice {
            Some(index) => is_first_usb(ports@, index as int),
            None => no_usb(ports@),
        },
{
    let mut index: usize = 0;
    while index < ports.len()
        invariant
            index <= ports.len(),
            forall|j: int| 0 <= j < index ==> !(#[trigger] ports@[j]).usb,
        decreases ports.len() - index,
    {
        if ports[index].usb {
            return Some(index);
        }
        index += 1;
    }
    None
}

} // verus!
