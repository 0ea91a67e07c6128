use vstd::prelude::*;
use crate::text::{decimal, lemma_decimal, lemma_decimal_injective, lemma_split_at_separator, push_decimal_u8};

verus! {

/// An IPv4 address, held as its four octets in network order.
#[derive(Debug, Clone, Copy, PartialEq, Eq, Structural)]
pub struct Ipv4Addr {
    pub a: u8,
    pub b: u8,
    pub c: u8,
    pub d: u8,
}

/// The dotted-decimal text of the address with octets `a.b.c.d`.
pub open spec fn dotted(a: u8, b: u8, c: u8, d: u8) -> Seq<char> {
    decimal(a as nat) + seq!['.'] + decimal(b as nat) + seq!['.'] + decimal(c as nat) + seq!['.']
        + decimal(d as nat)
}

impl Ipv4Addr {
    /// The address `a.b.c.d`.
    pub fn new(a: u8, b: u8, c: u8, d: u8) -> (r: Ipv4Addr)
        ensures
            r == (Ipv4Addr { a, b, c, d }),
    {
        Ipv4Addr { a, b, c, d }
    }

    /// The four octets, most significant first.
    pub fn octets(&self) -> (r: [u8; 4])
        ensures
            r@ == seq![self.a, self.b, self.c, self.d],
    {
        [self.a, self.b, self.c, self.d]
    }

    /// The dotted-decimal view of this address.
    pub open spec fn text(self) -> Seq<char> {
        dotted(self.a, self.b, self.c, self.d)
    }

    /// Writes the address in dotted-decimal notation, such as `10.0.0.2`.
    pub fn to_string(&self) -> (r: String)
        ensures
            r@ == self.text(),
    {
        let mut s = String::new();
        push_decimal_u8(&mut s, self.a);
        s.push('.');
        push_decimal_u8(&mut s, self.b);
        s.push('.');
        push_decimal_u8(&mut s, self.c);
        s.push('.');
        push_decimal_u8(&mut s, self.d);
        assert(s@ =~= self.text());
        s
    }
}

} // verus!

verus! {

/// The dotted text from the second octet on.
spec fn dotted_tail(b: u8, c: u8, d: u8) -> Seq<char> {
    decimal(b as nat) + seq!['.'] + (decimal(c as nat) + seq!['.'] + decimal(d as nat))
}

/// An octet's text followed by a dot and a tail determines both.
proof fn lemma_octet_then_rest(m: u8, r1: Seq<char>, n: u8, r2: Seq<char>)
    requires
        decimal(m as nat) + seq!['.'] + r1 == decimal(n as nat) + seq!['.'] + r2,
    ensures
        m == n,
        r1 == r2,
{
    lemma_decimal(m as nat);
    lemma_decimal(n as nat);
    lemma_split_at_separator(decimal(m as nat), r1, decimal(n as nat), r2, '.');
    lemma_decimal_injective(m as nat, n as nat);
}

/// The dotted-decimal text determines the address: two addresses written
/// the same are the same address.
pub proof fn lemma_text_determines_address(x: Ipv4Addr, y: Ipv4Addr)
    requires
        x.text() == y.text(),
    ensures
        x == y,
{
    assert(x.text() =~= decimal(x.a as nat) + seq!['.'] + dotted_tail(x.b, x.c, x.d));
    assert(y.text() =~= decimal(y.a as nat) + seq!['.'] + dotted_tail(y.b, y.c, y.d));
    lemma_octet_then_rest(x.a, dotted_tail(x.b, x.c, x.d), y.a, dotted_tail(y.b, y.c, y.d));
    lemma_octet_then_rest(
        x.b,
        decimal(x.c as nat) + seq!['.'] + decimal(x.d as nat),
        y.b,
        decimal(y.c as nat) + seq!['.'] + decimal(y.d as nat),
    );
    lemma_octet_then_rest(x.c, decimal(x.d as nat), y.c, decimal(y.d as nat));
    lemma_decimal_injective(x.d as nat, y.d as nat);
}

} // verus!
