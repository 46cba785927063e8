//! The 128-bit identifiers that name tables and protocols.

use vstd::prelude::*;
use vstd::utf8::encode_utf8;
use crate::text::string_from_utf8;

verus! {

broadcast use vstd::utf8::group_utf8_lib;

/// A 128-bit identifier in its five fields.
#[derive(Clone, Copy, Debug, PartialEq, Eq, Structural)]
pub struct Guid {
    time_low: u32,
    time_mid: u16,
    time_high_and_version: u16,
    clock_seq_and_variant: u16,
    node0: u8,
    node1: u8,
    node2: u8,
    node3: u8,
    node4: u8,
    node5: u8,
}

/// `16` to the power `n`.
pub open spec fn pow16(n: nat) -> nat
    decreases n,
{
    if n == 0 {
        1
    } else {
        16 * pow16((n - 1) as nat)
    }
}

/// The lower-case hexadecimal digit of a value below 16.
pub open spec fn hex_char(d: nat) -> u8 {
    if d < 10 {
        (0x30 + d) as u8
    } else {
        (0x61 + d - 10) as u8
    }
}

/// The `n` lower-case hexadecimal digits of `v`, most significant first.
pub open spec fn hex_digits(v: nat, n: nat) -> Seq<u8>
    decreases n,
{
    if n == 0 {
        Seq::empty()
    } else {
        hex_digits(v / 16, (n - 1) as nat).push(hex_char(v % 16))
    }
}

/// Whether a byte is a hexadecimal digit, in either case.
pub open spec fn is_hex(b: u8) -> bool {
    (0x30 <= b <= 0x39) || (0x61 <= b <= 0x66) || (0x41 <= b <= 0x46)
}

/// The value of a hexadecimal digit.
pub open spec fn hex_value(b: u8) -> nat {
    if 0x30 <= b <= 0x39 {
        (b - 0x30) as nat
    } else if 0x61 <= b <= 0x66 {
        (b - 0x61 + 10) as nat
    } else {
        (b - 0x41 + 10) as nat
    }
}

/// The value of a run of hexadecimal digits, most significant first.
pub open spec fn digits_value(s: Seq<u8>) -> nat
    decreases s.len(),
{
    if s.len() == 0 {
        0
    } else {
        digits_value(s.drop_last()) * 16 + hex_value(s.last())
    }
}

/// The positions of the four dashes of the canonical text.
pub open spec fn is_dash_position(i: int) -> bool {
    i == 8 || i == 13 || i == 18 || i == 23
}

/// Whether `s` has the canonical shape: 36 bytes, dashes at 8, 13, 18 and 23,
/// hexadecimal digits everywhere else.
pub open spec fn is_canonical_shape(s: Seq<u8>) -> bool {
    &&& s.len() == 36
    &&& forall|i: int|
        0 <= i < 36 ==> (if is_dash_position(i) {
            s[i] == 0x2d
        } else {
            is_hex(#[trigger] s[i])
        })
}

impl Guid {
    /// The five fields, the last as its six bytes.
    pub closed spec fn spec_fields(&self) -> (u32, u16, u16, u16, Seq<u8>) {
        (
            self.time_low,
            self.time_mid,
            self.time_high_and_version,
            self.clock_seq_and_variant,
            seq![self.node0, self.node1, self.node2, self.node3, self.node4, self.node5],
        )
    }

    /// The identifier that the canonical text of `s` spells, if it has the shape.
    pub open spec fn spec_parse(s: Seq<u8>) -> Option<Guid> {
        if is_canonical_shape(s) {
            Some(
                Guid::spec_from_values(
                    digits_value(s.subrange(0, 8)) as u32,
                    digits_value(s.subrange(9, 13)) as u16,
                    digits_value(s.subrange(14, 18)) as u16,
                    digits_value(s.subrange(19, 23)) as u16,
                    Seq::new(6, |i: int| digits_value(s.subrange(24 + 2 * i, 26 + 2 * i)) as u8),
                ),
            )
        } else {
            None
        }
    }

    /// The identifier with the given fields.
    pub closed spec fn spec_from_values(
        time_low: u32,
        time_mid: u16,
        time_high_and_version: u16,
        clock_seq_and_variant: u16,
        node: Seq<u8>,
    ) -> Guid {
        Guid {
            time_low,
            time_mid,
            time_high_and_version,
            clock_seq_and_variant,
            node0: node[0],
            node1: node[1],
            node2: node[2],
            node3: node[3],
            node4: node[4],
            node5: node[5],
        }
    }

    /// The canonical text: 8-4-4-4-12 lower-case hexadecimal digits joined by dashes.
    pub open spec fn spec_canonical(&self) -> Seq<u8> {
        let f = self.spec_fields();
        hex_digits(f.0 as nat, 8) + seq![0x2du8] + hex_digits(f.1 as nat, 4) + seq![0x2du8]
            + hex_digits(f.2 as nat, 4) + seq![0x2du8] + hex_digits(f.3 as nat, 4) + seq![0x2du8]
            + hex_digits(f.4[0] as nat, 2) + hex_digits(f.4[1] as nat, 2) + hex_digits(
            f.4[2] as nat,
            2,
        ) + hex_digits(f.4[3] as nat, 2) + hex_digits(f.4[4] as nat, 2) + hex_digits(
            f.4[5] as nat,
            2,
        )
    }

    /// Builds an identifier from its fields.
    pub fn from_values(
        time_low: u32,
        time_mid: u16,
        time_high_and_version: u16,
        clock_seq_and_variant: u16,
        node: [u8; 6],
    ) -> (r: Guid)
        ensures
            r.spec_fields() == (
                time_low,
                time_mid,
                time_high_and_version,
                clock_seq_and_variant,
                node@,
            ),
            r == Guid::spec_from_values(
                time_low,
                time_mid,
                time_high_and_version,
                clock_seq_and_variant,
                node@,
            ),
    {
        let r = Guid {
            time_low,
            time_mid,
            time_high_and_version,
            clock_seq_and_variant,
            node0: node[0],
            node1: node[1],
            node2: node[2],
            node3: node[3],
            node4: node[4],
            node5: node[5],
        };
        assert(r.spec_fields().4 =~= node@);
        r
    }
}


/// Hexadecimal digits of values below 16 read back as those values.
proof fn lemma_hex_char(d: nat)
    requires
        d < 16,
    ensures
        is_hex(hex_char(d)),
        hex_value(hex_char(d)) == d,
{
}

/// `n` digits of a value below `16^n` are `n` hexadecimal digits that read back
/// as the value.
proof fn lemma_hex_digits(v: nat, n: nat)
    requires
        v < pow16(n),
    ensures
        hex_digits(v, n).len() == n,
        forall|i: int| 0 <= i < n ==> is_hex(#[trigger] hex_digits(v, n)[i]),
        digits_value(hex_digits(v, n)) == v,
    decreases n,
{
    if n > 0 {
        let p = pow16((n - 1) as nat);
        assert(v / 16 < p) by (nonlinear_arith)
            requires
                v < 16 * p,
        ;
        lemma_hex_digits(v / 16, (n - 1) as nat);
        lemma_hex_char(v % 16);
        let h = hex_digits(v, n);
        assert(h.drop_last() =~= hex_digits(v / 16, (n - 1) as nat));
        assert(v == (v / 16) * 16 + v % 16) by (nonlinear_arith);
    }
}

/// A run of `n` hexadecimal digits reads as a value below `16^n`.
proof fn lemma_digits_bound(s: Seq<u8>)
    requires
        forall|i: int| 0 <= i < s.len() ==> is_hex(#[trigger] s[i]),
    ensures
        digits_value(s) < pow16(s.len()),
    decreases s.len(),
{
    if s.len() > 0 {
        let t = s.drop_last();
        assert forall|i: int| 0 <= i < t.len() implies is_hex(#[trigger] t[i]) by {
            assert(t[i] == s[i]);
        }
        lemma_digits_bound(t);
        let a = digits_value(t);
        let p = pow16(t.len());
        let h = hex_value(s.last());
        assert(h < 16);
        assert(a * 16 + h < 16 * p) by (nonlinear_arith)
            requires
                a < p,
                h < 16,
        ;
    }
}

/// Reading the canonical text of an identifier gives back that identifier.
pub proof fn lemma_parse_canonical(g: Guid)
    ensures
        Guid::spec_parse(g.spec_canonical()) == Some(g),
{
    let f = g.spec_fields();
    reveal_with_fuel(pow16, 9);
    lemma_hex_digits(f.0 as nat, 8);
    lemma_hex_digits(f.1 as nat, 4);
    lemma_hex_digits(f.2 as nat, 4);
    lemma_hex_digits(f.3 as nat, 4);
    lemma_hex_digits(f.4[0] as nat, 2);
    lemma_hex_digits(f.4[1] as nat, 2);
    lemma_hex_digits(f.4[2] as nat, 2);
    lemma_hex_digits(f.4[3] as nat, 2);
    lemma_hex_digits(f.4[4] as nat, 2);
    lemma_hex_digits(f.4[5] as nat, 2);
    let c = g.spec_canonical();
    let d = seq![0x2du8];
    let h0 = hex_digits(f.0 as nat, 8);
    let h1 = hex_digits(f.1 as nat, 4);
    let h2 = hex_digits(f.2 as nat, 4);
    let h3 = hex_digits(f.3 as nat, 4);
    let n0 = hex_digits(f.4[0] as nat, 2);
    let n1 = hex_digits(f.4[1] as nat, 2);
    let n2 = hex_digits(f.4[2] as nat, 2);
    let n3 = hex_digits(f.4[3] as nat, 2);
    let n4 = hex_digits(f.4[4] as nat, 2);
    let n5 = hex_digits(f.4[5] as nat, 2);
    assert(c.len() == 36);
    assert(c.subrange(0, 8) =~= h0);
    assert(c.subrange(9, 13) =~= h1);
    assert(c.subrange(14, 18) =~= h2);
    assert(c.subrange(19, 23) =~= h3);
    assert(c.subrange(24, 26) =~= n0);
    assert(c.subrange(26, 28) =~= n1);
    assert(c.subrange(28, 30) =~= n2);
    assert(c.subrange(30, 32) =~= n3);
    assert(c.subrange(32, 34) =~= n4);
    assert(c.subrange(34, 36) =~= n5);
    assert forall|i: int| 0 <= i < 36 implies (if is_dash_position(i) {
        c[i] == 0x2d
    } else {
        is_hex(#[trigger] c[i])
    }) by {
        if i < 8 {
            assert(c[i] == h0[i]);
        } else if 8 < i < 13 {
            assert(c[i] == h1[i - 9]);
        } else if 13 < i < 18 {
            assert(c[i] == h2[i - 14]);
        } else if 18 < i < 23 {
            assert(c[i] == h3[i - 19]);
        } else if 24 <= i < 26 {
            assert(c[i] == n0[i - 24]);
        } else if 26 <= i < 28 {
            assert(c[i] == n1[i - 26]);
        } else if 28 <= i < 30 {
            assert(c[i] == n2[i - 28]);
        } else if 30 <= i < 32 {
            assert(c[i] == n3[i - 30]);
        } else if 32 <= i < 34 {
            assert(c[i] == n4[i - 32]);
        } else if 34 <= i < 36 {
            assert(c[i] == n5[i - 34]);
        }
    }
    let node = Seq::new(6, |i: int| digits_value(c.subrange(24 + 2 * i, 26 + 2 * i)) as u8);
    assert(node =~= f.4);
    let p = Guid::spec_from_values(
        digits_value(c.subrange(0, 8)) as u32,
        digits_value(c.subrange(9, 13)) as u16,
        digits_value(c.subrange(14, 18)) as u16,
        digits_value(c.subrange(19, 23)) as u16,
        node,
    );
    assert(p == g);
}

/// Appends the `n` lower-case hexadecimal digits of `v`.
fn push_hex(out: &mut Vec<u8>, v: u32, n: usize)
    requires
        n <= 8,
    ensures
        final(out)@ == old(out)@ + hex_digits(v as nat, n as nat),
    decreases n,
{
    if n > 0 {
        push_hex(out, v / 16, n - 1);
        let d = v % 16;
        let c: u8 = if d < 10 {
            0x30 + d as u8
        } else {
            0x61 + (d - 10) as u8
        };
        out.push(c);
        assert(final(out)@ =~= old(out)@ + hex_digits(v as nat, n as nat));
    }
}

/// The value of the hexadecimal digit `b`, if it is one.
fn hex_digit_value(b: u8) -> (r: Option<u8>)
    ensures
        r is Some <==> is_hex(b),
        r is Some ==> r->Some_0 as nat == hex_value(b),
{
    if 0x30 <= b && b <= 0x39 {
        Some(b - 0x30)
    } else if 0x61 <= b && b <= 0x66 {
        Some(b - 0x61 + 10)
    } else if 0x41 <= b && b <= 0x46 {
        Some(b - 0x41 + 10)
    } else {
        None
    }
}

/// The value of the hexadecimal digits `s[start..start + n]`, if all are digits.
fn read_hex(s: &[u8], start: usize, n: usize) -> (r: Option<u32>)
    requires
        n <= 8,
        start + n <= s@.len(),
    ensures
        r is Some <==> forall|i: int| start <= i < start + n ==> is_hex(#[trigger] s@[i]),
        r is Some ==> r->Some_0 as nat == digits_value(s@.subrange(start as int, start + n)),
    decreases n,
{
    if n == 0 {
        return Some(0);
    }
    let hi = read_hex(s, start, n - 1);
    let len = s.len();
    assert(start + n <= len);
    let lo = hex_digit_value(s[start + (n - 1)]);
    let ghost t = s@.subrange(start as int, start + n);
    assert(t.drop_last() =~= s@.subrange(start as int, start + n - 1));
    match (hi, lo) {
        (Some(a), Some(b)) => {
            proof {
                assert forall|i: int| 0 <= i < t.len() implies is_hex(#[trigger] t[i]) by {
                    assert(t[i] == s@[start + i]);
                }
                lemma_digits_bound(t);
                reveal_with_fuel(pow16, 9);
                assert(pow16(n as nat) <= pow16(8)) by {
                    if n < 8 {
                        assert(pow16(n as nat) <= 0x1000_0000);
                    }
                }
            }
            Some(a * 16 + b as u32)
        },
        _ => {
            proof {
                if hi is None {
                    let i = choose|i: int| start <= i < start + n - 1 && !is_hex(s@[i]);
                    assert(!is_hex(s@[i]));
                } else {
                    assert(!is_hex(s@[start + n - 1]));
                }
            }
            None
        },
    }
}

impl Guid {
    /// The five fields, as `from_values` takes them.
    pub fn to_values(&self) -> (r: (u32, u16, u16, u16, [u8; 6]))
        ensures
            (r.0, r.1, r.2, r.3, r.4@) == self.spec_fields(),
    {
        let node = [self.node0, self.node1, self.node2, self.node3, self.node4, self.node5];
        assert(node@ =~= self.spec_fields().4);
        (self.time_low, self.time_mid, self.time_high_and_version, self.clock_seq_and_variant, node)
    }

    /// The canonical text as bytes: 8-4-4-4-12 lower-case hexadecimal digits.
    pub fn to_bytes(&self) -> (r: Vec<u8>)
        ensures
            r@ == self.spec_canonical(),
    {
        let mut out: Vec<u8> = Vec::new();
        push_hex(&mut out, self.time_low, 8);
        out.push(0x2d);
        push_hex(&mut out, self.time_mid as u32, 4);
        out.push(0x2d);
        push_hex(&mut out, self.time_high_and_version as u32, 4);
        out.push(0x2d);
        push_hex(&mut out, self.clock_seq_and_variant as u32, 4);
        out.push(0x2d);
        push_hex(&mut out, self.node0 as u32, 2);
        push_hex(&mut out, self.node1 as u32, 2);
        push_hex(&mut out, self.node2 as u32, 2);
        push_hex(&mut out, self.node3 as u32, 2);
        push_hex(&mut out, self.node4 as u32, 2);
        push_hex(&mut out, self.node5 as u32, 2);
        assert(out@ =~= self.spec_canonical());
        out
    }

    /// The canonical text, such as `09576e91-6d3f-11d2-8e39-00a0c969723b`.
    pub fn to_string(&self) -> (r: String)
        ensures
            encode_utf8(r@) == self.spec_canonical(),
    {
        let bytes = self.to_bytes();
        proof {
            lemma_parse_canonical(*self);
            let b = bytes@;
            assert forall|i: int| 0 <= i < b.len() implies vstd::utf8::is_leading_byte_width_1(
                #[trigger] b[i],
            ) by {
                if !is_dash_position(i) {
                    assert(is_hex(b[i]));
                }
            }
            assert(b.subrange(0, 0) =~= Seq::<u8>::empty());
            vstd::utf8::partial_valid_utf8_extend_ascii_block(b, 0, b.len() as int);
            assert(b.subrange(0, b.len() as int) =~= b);
        }
        match string_from_utf8(bytes) {
            Some(s) => s,
            None => {
                assert(false);
                String::new()
            },
        }
    }

    /// Reads the canonical text of an identifier, in either case; `None` unless
    /// the text has 36 characters, with dashes at 8, 13, 18 and 23 and
    /// hexadecimal digits everywhere else.
    pub fn parse(s: &str) -> (r: Option<Guid>)
        ensures
            r == Guid::spec_parse(encode_utf8(s@)),
    {
        let b = s.as_bytes();
        if b.len() != 36 {
            return None;
        }
        if b[8] != 0x2d || b[13] != 0x2d || b[18] != 0x2d || b[23] != 0x2d {
            return None;
        }
        let r0 = read_hex(b, 0, 8);
        let r1 = read_hex(b, 9, 4);
        let r2 = read_hex(b, 14, 4);
        let r3 = read_hex(b, 19, 4);
        let r4 = read_hex(b, 24, 2);
        let r5 = read_hex(b, 26, 2);
        let r6 = read_hex(b, 28, 2);
        let r7 = read_hex(b, 30, 2);
        let r8 = read_hex(b, 32, 2);
        let r9 = read_hex(b, 34, 2);
        match (r0, r1, r2, r3, r4, r5, r6, r7, r8, r9) {
            (
                Some(a),
                Some(m),
                Some(h),
                Some(c),
                Some(n0),
                Some(n1),
                Some(n2),
                Some(n3),
                Some(n4),
                Some(n5),
            ) => {
                proof {
                    reveal_with_fuel(pow16, 9);
                    let t = b@;
                    assert forall|i: int| 0 <= i < 36 implies (if is_dash_position(i) {
                        t[i] == 0x2d
                    } else {
                        is_hex(#[trigger] t[i])
                    }) by {}
                    lemma_digits_bound(t.subrange(9, 13));
                    lemma_digits_bound(t.subrange(14, 18));
                    lemma_digits_bound(t.subrange(19, 23));
                    lemma_digits_bound(t.subrange(24, 26));
                    lemma_digits_bound(t.subrange(26, 28));
                    lemma_digits_bound(t.subrange(28, 30));
                    lemma_digits_bound(t.subrange(30, 32));
                    lemma_digits_bound(t.subrange(32, 34));
                    lemma_digits_bound(t.subrange(34, 36));
                }
                let g = Guid::from_values(
                    a,
                    m as u16,
                    h as u16,
                    c as u16,
                    [n0 as u8, n1 as u8, n2 as u8, n3 as u8, n4 as u8, n5 as u8],
                );
                proof {
                    let t = b@;
                    let node = Seq::new(
                        6,
                        |i: int| digits_value(t.subrange(24 + 2 * i, 26 + 2 * i)) as u8,
                    );
                    assert(node =~= seq![n0 as u8, n1 as u8, n2 as u8, n3 as u8, n4 as u8, n5 as u8]);
                }
                Some(g)
            },
            _ => {
                proof {
                    let t = b@;
                    assert(!is_canonical_shape(t));
                }
                None
            },
        }
    }
}

} // verus!
