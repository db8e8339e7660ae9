//! IP addresses as plain numbers, and their textual form.

use vstd::prelude::*;
use vstd::string::*;
use crate::text::{decimal, hexadecimal, push_char, push_decimal, push_hexadecimal, push_str};

verus! {

/// An IPv4 address by its four octets, or an IPv6 address by its eight 16-bit groups.
#[derive(Clone, Copy, Debug, PartialEq, Eq, Structural, Hash)]
pub enum IpAddress {
    V4(u8, u8, u8, u8),
    V6(u16, u16, u16, u16, u16, u16, u16, u16),
}

/// Dotted-decimal text of four octets.
pub open spec fn dotted(a: u8, b: u8, c: u8, d: u8) -> Seq<char> {
    decimal(a as nat) + seq!['.'] + decimal(b as nat) + seq!['.'] + decimal(c as nat) + seq!['.']
        + decimal(d as nat)
}

/// Colon-separated lower-case hexadecimal text of eight groups.
pub open spec fn grouped(g: Seq<u16>) -> Seq<char>
    decreases g.len(),
{
    if g.len() <= 1 {
        if g.len() == 0 {
            Seq::empty()
        } else {
            hexadecimal(g[0] as nat)
        }
    } else {
        grouped(g.drop_last()) + seq![':'] + hexadecimal(g.last() as nat)
    }
}

/// The eight groups of an IPv6 address, in order.
pub open spec fn groups(
    a: u16,
    b: u16,
    c: u16,
    d: u16,
    e: u16,
    f: u16,
    g: u16,
    h: u16,
) -> Seq<u16> {
    seq![a, b, c, d, e, f, g, h]
}

/// The number of consecutive zero groups of `g` from position `i` on.
pub open spec fn zero_run(g: Seq<u16>, i: int) -> int
    decreases g.len() - i,
{
    if 0 <= i < g.len() && g[i] == 0 {
        1 + zero_run(g, i + 1)
    } else {
        0
    }
}

/// Start and length of the longest run of zero groups of `g` from position `i` on; the
/// earliest of equally long runs.
pub open spec fn longest_zero_run(g: Seq<u16>, i: int) -> (int, int)
    decreases g.len() - i,
{
    if i < 0 || i >= g.len() {
        (g.len() as int, 0)
    } else {
        let rest = longest_zero_run(g, i + 1);
        if zero_run(g, i) > 0 && zero_run(g, i) >= rest.1 {
            (i, zero_run(g, i))
        } else {
            rest
        }
    }
}

/// Whether eight groups form an IPv4-mapped address (`::ffff:a.b.c.d`).
pub open spec fn is_v4_mapped(g: Seq<u16>) -> bool {
    g[0] == 0 && g[1] == 0 && g[2] == 0 && g[3] == 0 && g[4] == 0 && g[5] == 0xffff
}

/// The canonical text of eight IPv6 groups: an IPv4-mapped address as `::ffff:` and its
/// dotted quad; otherwise lower-case hexadecimal groups, the longest run of two or more zero
/// groups (the first of equals) written `::`.
pub open spec fn v6_text(g: Seq<u16>) -> Seq<char> {
    if is_v4_mapped(g) {
        "::ffff:"@ + dotted(
            (g[6] / 256) as u8,
            (g[6] % 256) as u8,
            (g[7] / 256) as u8,
            (g[7] % 256) as u8,
        )
    } else {
        let run = longest_zero_run(g, 0);
        if run.1 > 1 {
            grouped(g.subrange(0, run.0)) + "::"@ + grouped(g.subrange(run.0 + run.1, 8))
        } else {
            grouped(g)
        }
    }
}

/// The text of an address: dotted decimal for IPv4, the canonical form for IPv6.
pub open spec fn ip_text(ip: IpAddress) -> Seq<char> {
    match ip {
        IpAddress::V4(a, b, c, d) => dotted(a, b, c, d),
        IpAddress::V6(a, b, c, d, e, f, g, h) => v6_text(groups(a, b, c, d, e, f, g, h)),
    }
}

/// Appends the dotted-decimal text of four octets.
fn push_dotted(s: &mut String, a: u8, b: u8, c: u8, d: u8)
    ensures
        final(s)@ == old(s)@ + dotted(a, b, c, d),
{
    push_decimal(s, a as u32);
    push_char(s, '.');
    push_decimal(s, b as u32);
    push_char(s, '.');
    push_decimal(s, c as u32);
    push_char(s, '.');
    push_decimal(s, d as u32);
    assert(final(s)@ =~= old(s)@ + dotted(a, b, c, d));
}

/// Appends the groups `g[from..to]`, separated by colons.
fn push_grouped(s: &mut String, g: &Vec<u16>, from: usize, to: usize)
    requires
        from <= to <= g@.len(),
    ensures
        final(s)@ == old(s)@ + grouped(g@.subrange(from as int, to as int)),
{
    let mut i = from;
    assert(g@.subrange(from as int, from as int).len() == 0);
    assert(old(s)@ + grouped(g@.subrange(from as int, from as int)) =~= old(s)@);
    while i < to
        invariant
            from <= i <= to <= g@.len(),
            s@ == old(s)@ + grouped(g@.subrange(from as int, i as int)),
        decreases to - i,
    {
        let ghost prefix = g@.subrange(from as int, i as int);
        let ghost next = g@.subrange(from as int, i + 1);
        assert(next.drop_last() =~= prefix);
        assert(next.last() == g@[i as int]);
        if i > from {
            push_char(s, ':');
        }
        push_hexadecimal(s, g[i] as u32);
        proof {
            if i == from {
                assert(next.len() == 1);
                assert(next[0] == g@[i as int]);
            }
        }
        assert(s@ =~= old(s)@ + grouped(next));
        i += 1;
    }
}

/// Start and length of the longest run of zero groups; the earliest of equally long runs.
fn longest_zeros(g: &Vec<u16>) -> (r: (usize, usize))
    requires
        g@.len() == 8,
    ensures
        r.0 as int == longest_zero_run(g@, 0).0,
        r.1 as int == longest_zero_run(g@, 0).1,
        r.0 + r.1 <= 8,
{
    let mut i: usize = 8;
    let mut run: usize = 0;
    let mut best: (usize, usize) = (8, 0);
    while i > 0
        invariant
            g@.len() == 8,
            0 <= i <= 8,
            run as int == zero_run(g@, i as int),
            run as int + i <= 8,
            best.0 as int == longest_zero_run(g@, i as int).0,
            best.1 as int == longest_zero_run(g@, i as int).1,
            best.0 + best.1 <= 8,
        decreases i,
    {
        i -= 1;
        if g[i] == 0 {
            run += 1;
        } else {
            run = 0;
        }
        if run > 0 && run >= best.1 {
            best = (i, run);
        }
    }
    best
}

impl IpAddress {
    /// The textual form of the address.
    pub fn to_text(&self) -> (r: String)
        ensures
            r@ == ip_text(*self),
    {
        let mut s = String::new();
        match *self {
            IpAddress::V4(a, b, c, d) => {
                push_dotted(&mut s, a, b, c, d);
            },
            IpAddress::V6(a, b, c, d, e, f, g, h) => {
                let groups_vec = vec![a, b, c, d, e, f, g, h];
                let ghost all = groups(a, b, c, d, e, f, g, h);
                assert(groups_vec@ =~= all);
                if a == 0 && b == 0 && c == 0 && d == 0 && e == 0 && f == 0xffff {
                    push_str(&mut s, "::ffff:");
                    push_dotted(&mut s, (g / 256) as u8, (g % 256) as u8, (h / 256) as u8, (h % 256) as u8);
                } else {
                    let (start, len) = longest_zeros(&groups_vec);
                    if len > 1 {
                        push_grouped(&mut s, &groups_vec, 0, start);
                        push_str(&mut s, "::");
                        push_grouped(&mut s, &groups_vec, start + len, 8);
                    } else {
                        push_grouped(&mut s, &groups_vec, 0, 8);
                        assert(all.subrange(0, 8) =~= all);
                    }
                }
            },
        }
        s
    }
}

} // verus!
