//! DHCP leases, as far as the daemon looks at them.

use vstd::prelude::*;
use vstd::string::*;
use crate::error::Error;

verus! {

/// What the DHCP server says of a lease's address.
#[derive(Clone, Copy, Debug, PartialEq, Eq, Structural)]
pub enum BindingState {
    Free,
    Active,
    Abandoned,
    /// A state that the daemon does not count.
    Other,
}

/// One lease of the DHCP server.
#[derive(Debug, PartialEq, Eq)]
pub struct Lease {
    pub ip: String,
    pub mac: Option<String>,
    pub hostname: Option<String>,
    pub client_hostname: Option<String>,
    pub vendor_class_identifier: Option<String>,
    pub starts: Option<String>,
    pub ends: Option<String>,
    pub binding_state: BindingState,
}

/// What a lease holds.
pub struct LeaseView {
    pub ip: Seq<char>,
    pub mac: Option<Seq<char>>,
    pub hostname: Option<Seq<char>>,
    pub client_hostname: Option<Seq<char>>,
    pub vendor_class_identifier: Option<Seq<char>>,
    pub starts: Option<Seq<char>>,
    pub ends: Option<Seq<char>>,
    pub binding_state: BindingState,
}

/// An optional text as its characters.
pub open spec fn text_view(text: Option<String>) -> Option<Seq<char>> {
    match text {
        Some(s) => Some(s@),
        None => None,
    }
}

/// A copy of an optional text.
pub fn clone_text(text: &Option<String>) -> (copy: Option<String>)
    ensures
        text_view(copy) == text_view(*text),
{
    match text {
        Some(s) => Some(s.clone()),
        None => None,
    }
}

impl View for Lease {
    type V = LeaseView;

    open spec fn view(&self) -> LeaseView {
        LeaseView {
            ip: self.ip@,
            mac: text_view(self.mac),
            hostname: text_view(self.hostname),
            client_hostname: text_view(self.client_hostname),
            vendor_class_identifier: text_view(self.vendor_class_identifier),
            starts: text_view(self.starts),
            ends: text_view(self.ends),
            binding_state: self.binding_state,
        }
    }
}

impl Clone for Lease {
    fn clone(&self) -> (lease: Lease)
        ensures
            lease@ == self@,
    {
        Lease {
            ip: self.ip.clone(),
            mac: clone_text(&self.mac),
            hostname: clone_text(&self.hostname),
            client_hostname: clone_text(&self.client_hostname),
            vendor_class_identifier: clone_text(&self.vendor_class_identifier),
            starts: clone_text(&self.starts),
            ends: clone_text(&self.ends),
            binding_state: self.binding_state,
        }
    }
}

/// The source of DHCP leases.
#[derive(Clone, Copy, Debug)]
pub struct Dhcp;

/// The first lease for the address `ip`.
pub open spec fn lease_for(leases: Seq<Lease>, ip: Seq<char>) -> Option<Lease>
    decreases leases.len(),
{
    if leases.len() == 0 {
        None
    } else if leases[0].ip@ == ip {
        Some(leases[0])
    } else {
        lease_for(leases.skip(1), ip)
    }
}

impl Dhcp {
    /// Finds the first lease for the address `ip`.
    pub fn of_ip(leases: &Vec<Lease>, ip: &str) -> (found: Result<Lease, Error>)
        ensures
            found is Ok <==> lease_for(leases@, ip@) is Some,
            found matches Ok(lease) ==> lease@ == lease_for(leases@, ip@)->0@,
            found matches Err(e) ==> e == Error::NotFound,
    {
        let wanted = String::from_str(ip);
        let mut i: usize = 0;
        assert(leases@.skip(0) =~= leases@);
        while i < leases.len()
            invariant
                i <= leases@.len(),
                wanted@ == ip@,
                lease_for(leases@, ip@) == lease_for(leases@.skip(i as int), ip@),
            decreases leases.len() - i,
        {
            assert(leases@.skip(i as int)[0] == leases@[i as int]);
            assert(leases@.skip(i as int).skip(1) =~= leases@.skip(i + 1));
            if leases[i].ip == wanted {
                return Ok(leases[i].clone());
            }
            i += 1;
        }
        assert(leases@.skip(i as int).len() == 0);
        Err(Error::NotFound)
    }
}

} // verus!
