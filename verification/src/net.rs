//! The listener's bound address, as plain values.
//!
//! The listener binds an IPv4 socket; the library holds the four octets and
//! the port and builds the texts that are shown or opened. The unspecified
//! address is presented as `localhost`: browsers treat the name differently
//! from a raw address.

use vstd::prelude::*;

use crate::text::{chars_string, push_chars, push_str_chars, spec_u64_chars, u64_chars};

verus! {

/// An IPv4 socket address: four octets and a port.
#[derive(Clone, Copy, PartialEq, Eq, Structural, Debug)]
pub struct BindAddress {
    /// The first octet of the address
    pub octet_a: u8,
    /// The second octet of the address
    pub octet_b: u8,
    /// The third octet of the address
    pub octet_c: u8,
    /// The fourth octet of the address
    pub octet_d: u8,
    /// The bound port
    pub port: u16,
}

/// The dotted decimal text of the address's four octets.
pub open spec fn spec_ipv4_chars(addr: BindAddress) -> Seq<char> {
    spec_u64_chars(addr.octet_a as nat) + seq!['.'] + spec_u64_chars(addr.octet_b as nat)
        + seq!['.'] + spec_u64_chars(addr.octet_c as nat) + seq!['.'] + spec_u64_chars(
        addr.octet_d as nat,
    )
}

/// The host text shown for the address: `localhost` for the unspecified
/// address, the dotted decimal text otherwise.
pub open spec fn spec_host_text(addr: BindAddress) -> Seq<char> {
    if addr.octet_a == 0 && addr.octet_b == 0 && addr.octet_c == 0 && addr.octet_d == 0 {
        "localhost"@
    } else {
        spec_ipv4_chars(addr)
    }
}

/// The entry point of the registration flow at the bound address.
pub open spec fn spec_registration_url(addr: BindAddress) -> Seq<char> {
    "http://"@ + spec_host_text(addr) + seq![':'] + spec_u64_chars(addr.port as nat)
}

/// The host to present for a bound address: `localhost` in place of the
/// unspecified address `0.0.0.0`, the address's own text otherwise.
pub fn replace_localhost(addr: &BindAddress) -> (r: String)
    ensures
        r@ == spec_host_text(*addr),
{
    if addr.octet_a == 0 && addr.octet_b == 0 && addr.octet_c == 0 && addr.octet_d == 0 {
        let mut out: Vec<char> = Vec::new();
        push_str_chars(&mut out, "localhost");
        proof {
            assert(Seq::<char>::empty() + "localhost"@ =~= "localhost"@);
        }
        chars_string(&out)
    } else {
        let mut out: Vec<char> = Vec::new();
        let a = u64_chars(addr.octet_a as u64);
        push_chars(&mut out, &a);
        out.push('.');
        let b = u64_chars(addr.octet_b as u64);
        push_chars(&mut out, &b);
        out.push('.');
        let c = u64_chars(addr.octet_c as u64);
        push_chars(&mut out, &c);
        out.push('.');
        let d = u64_chars(addr.octet_d as u64);
        push_chars(&mut out, &d);
        proof {
            assert(out@ =~= spec_ipv4_chars(*addr));
        }
        chars_string(&out)
    }
}

/// The URL a browser is sent to, or the text printed, to start the
/// registration flow against the bound address.
pub fn registration_url(addr: &BindAddress) -> (r: String)
    ensures
        r@ == spec_registration_url(*addr),
{
    let mut out: Vec<char> = Vec::new();
    push_str_chars(&mut out, "http://");
    let host = replace_localhost(addr);
    let host_chars = crate::text::str_chars(host.as_str());
    push_chars(&mut out, &host_chars);
    out.push(':');
    let port = u64_chars(addr.port as u64);
    push_chars(&mut out, &port);
    proof {
        assert(out@ =~= spec_registration_url(*addr));
    }
    chars_string(&out)
}

} // verus!
