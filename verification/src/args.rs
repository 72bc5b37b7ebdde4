//! What the agent is told on its command line, as far as it decides
//! anything.

use vstd::prelude::*;
use vstd::string::StringExecFns;

verus! {

/// The backend that installs the interface configuration.
#[derive(Clone, Copy, Debug, PartialEq, Eq, Structural)]
pub enum NetworkBackend {
    Networkd,
}

/// A network interface of the machine.
#[derive(Clone, Debug, PartialEq, Eq)]
pub struct InterfaceInfo {
    pub name: String,
    pub up: bool,
    pub loopback: bool,
    /// The addresses of the interface, as text.
    pub addresses: Vec<String>,
}

/// Whether an interface can serve as the endpoint interface called `name`:
/// it has that name, is up, is no loopback and has an address.
pub open spec fn usable(interface: InterfaceInfo, name: Seq<char>) -> bool {
    interface.up && !interface.loopback && interface.addresses@.len() > 0 && interface.name@
        == name
}

/// What the agent says when no interface can serve.
pub open spec fn no_interface_text(name: Seq<char>) -> Seq<char> {
    "No usable interface found for '"@ + name + "'"@
}

/// Picks the endpoint interface called `name` among the interfaces of the
/// machine: the first that is usable. The error names the interface asked
/// for.
pub fn network_interface(interfaces: &Vec<InterfaceInfo>, name: &str) -> (r: Result<usize, String>)
    ensures
        match r {
            Ok(i) => i < interfaces@.len() && usable(interfaces@[i as int], name@) && forall|j: int|
                0 <= j < i ==> !usable(#[trigger] interfaces@[j], name@),
            Err(message) => message@ == no_interface_text(name@) && forall|j: int|
                0 <= j < interfaces@.len() ==> !usable(#[trigger] interfaces@[j], name@),
        },
{
    let wanted = String::from_str(name);
    let mut i: usize = 0;
    while i < interfaces.len()
        invariant
            i <= interfaces.len(),
            wanted@ == name@,
            forall|j: int| 0 <= j < i ==> !usable(#[trigger] interfaces@[j], name@),
        decreases interfaces.len() - i,
    {
        let interface = &interfaces[i];
        if interface.up && !interface.loopback && interface.addresses.len() > 0 && interface.name
            == wanted {
            return Ok(i);
        }
        i = i + 1;
    }
    let mut message = String::from_str("No usable interface found for '");
    message.append(name);
    message.append("'");
    Err(message)
}

/// The log filter for a verbosity: `info` by default, `debug` for one `-v`,
/// `trace` for two.
pub fn log_filter(verbose: u8) -> (r: &'static str)
    ensures
        verbose == 2 ==> r@ == "wiresmith=trace"@,
        verbose == 1 ==> r@ == "wiresmith=debug"@,
        verbose != 1 && verbose != 2 ==> r@ == "wiresmith=info"@,
{
    if verbose == 2 {
        "wiresmith=trace"
    } else if verbose == 1 {
        "wiresmith=debug"
    } else {
        "wiresmith=info"
    }
}

} // verus!
