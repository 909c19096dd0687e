//! Plain-value model of the network addresses the protocol uses.

use vstd::prelude::*;
use crate::text::spec_dec;
use crate::text::push_dec;

verus! {

/// An IPv4 address as four octets.
#[derive(Debug, Clone, Copy, PartialEq, Eq, Structural)]
pub struct Ipv4 {
    pub a: u8,
    pub b: u8,
    pub c: u8,
    pub d: u8,
}

/// The dotted-decimal text of an IPv4 address.
pub open spec fn spec_ipv4_text(ip: Ipv4) -> Seq<char> {
    spec_dec(ip.a as nat) + seq!['.'] + spec_dec(ip.b as nat) + seq!['.'] + spec_dec(ip.c as nat)
        + seq!['.'] + spec_dec(ip.d as nat)
}

impl Ipv4 {
    /// An address from its four octets.
    pub fn new(a: u8, b: u8, c: u8, d: u8) -> (r: Self)
        ensures
            r == (Ipv4 { a, b, c, d }),
    {
        Ipv4 { a, b, c, d }
    }

    /// Render the address in dotted-decimal form.
    pub fn to_text(&self) -> (r: String)
        ensures
            r@ == spec_ipv4_text(*self),
    {
        let mut out = String::new();
        push_dec(&mut out, self.a as u64);
        out.push('.');
        push_dec(&mut out, self.b as u64);
        out.push('.');
        push_dec(&mut out, self.c as u64);
        out.push('.');
        push_dec(&mut out, self.d as u64);
        proof {
            assert(out@ =~= spec_ipv4_text(*self));
        }
        out
    }
}

} // verus!
