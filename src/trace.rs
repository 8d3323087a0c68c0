use vstd::prelude::*;
use crate::cpu::Cpu;
use crate::memory::push_char;

verus! {

/// The hexadecimal digits, in upper case.
pub open spec fn hex_digits() -> Seq<char> {
    seq!['0', '1', '2', '3', '4', '5', '6', '7', '8', '9', 'A', 'B', 'C', 'D', 'E', 'F']
}

/// The last `n` hexadecimal digits of `v`, most significant first.
pub open spec fn hex(v: nat, n: nat) -> Seq<char>
    decreases n,
{
    if n == 0 {
        Seq::empty()
    } else {
        hex(v / 16, (n - 1) as nat).push(hex_digits()[(v % 16) as int])
    }
}

/// How many digits the program counter is shown with: six, or as many as it needs.
pub open spec fn pc_digits(pc: u32) -> nat {
    if pc < 0x1000000 {
        6
    } else if pc < 0x10000000 {
        7
    } else {
        8
    }
}

/// A register width in bits, as text.
pub open spec fn width_text(eight: bool) -> Seq<char> {
    if eight {
        seq!['8']
    } else {
        seq!['1', '6']
    }
}

/// The one-line register dump: each register in upper-case hexadecimal
/// (four digits for 16-bit registers, two for 8-bit ones, six for the program
/// counter), then the accumulator and index widths in bits and `E` or `N` for
/// emulation or native mode.
pub open spec fn register_line(c: Cpu) -> Seq<char> {
    seq!['A', ':']
        + hex(c.a as nat, 4)
        + seq![' ', 'X', ':']
        + hex(c.x as nat, 4)
        + seq![' ', 'Y', ':']
        + hex(c.y as nat, 4)
        + seq![' ', 'S', 'P', ':']
        + hex(c.sp as nat, 4)
        + seq![' ', 'P', 'C', ':']
        + hex(c.pc as nat, pc_digits(c.pc))
        + seq![' ', 'D', 'P', ':']
        + hex(c.dp as nat, 4)
        + seq![' ', 'D', 'B', ':']
        + hex(c.db as nat, 2)
        + seq![' ', 'P', 'B', ':']
        + hex(c.pb as nat, 2)
        + seq![' ', 'P', ':']
        + hex(c.p as nat, 2)
        + seq![' ', 'M', ':']
        + width_text(c.m_flag)
        + seq![' ', 'X', ':']
        + width_text(c.x_flag)
        + seq![' ', 'E', ':']
        + seq![if c.e_flag {
        'E'
    } else {
        'N'
    }]
}

fn hex_char(d: u32) -> (c: char)
    requires
        d < 16,
    ensures
        c == hex_digits()[d as int],
{
    match d {
        0 => '0',
        1 => '1',
        2 => '2',
        3 => '3',
        4 => '4',
        5 => '5',
        6 => '6',
        7 => '7',
        8 => '8',
        9 => '9',
        10 => 'A',
        11 => 'B',
        12 => 'C',
        13 => 'D',
        14 => 'E',
        _ => 'F',
    }
}

fn push_hex(s: &mut String, v: u32, n: u32)
    requires
        n <= 8,
    ensures
        final(s)@ == old(s)@ + hex(v as nat, n as nat),
    decreases n,
{
    if n == 0 {
        assert(old(s)@ + hex(v as nat, 0) =~= old(s)@);
    } else {
        push_hex(s, v / 16, n - 1);
        push_char(s, hex_char(v % 16));
        assert(s@ =~= old(s)@ + hex(v as nat, n as nat));
    }
}

fn push_all(s: &mut String, cs: &[char])
    ensures
        final(s)@ == old(s)@ + cs@,
{
    let mut i: usize = 0;
    while i < cs.len()
        invariant
            i <= cs@.len(),
            s@ == old(s)@ + cs@.subrange(0, i as int),
        decreases cs@.len() - i,
    {
        push_char(s, cs[i]);
        i = i + 1;
        assert(s@ =~= old(s)@ + cs@.subrange(0, i as int));
    }
    assert(cs@.subrange(0, i as int) =~= cs@);
}

fn push_width(s: &mut String, eight: bool)
    ensures
        final(s)@ == old(s)@ + width_text(eight),
{
    if eight {
        push_char(s, '8');
        assert(s@ =~= old(s)@ + width_text(eight));
    } else {
        push_char(s, '1');
        push_char(s, '6');
        assert(s@ =~= old(s)@ + width_text(eight));
    }
}

impl Cpu {
    /// The registers as one line of text, for tracing.
    pub fn get_register_state(&self) -> (r: String)
        ensures
            r@ == register_line(*self),
    {
        let mut s = String::new();
        push_all(&mut s, &['A', ':']);
        push_hex(&mut s, self.a as u32, 4);
        push_all(&mut s, &[' ', 'X', ':']);
        push_hex(&mut s, self.x as u32, 4);
        push_all(&mut s, &[' ', 'Y', ':']);
        push_hex(&mut s, self.y as u32, 4);
        push_all(&mut s, &[' ', 'S', 'P', ':']);
        push_hex(&mut s, self.sp as u32, 4);
        push_all(&mut s, &[' ', 'P', 'C', ':']);
        push_hex(&mut s, self.pc, if self.pc < 0x1000000 {
            6
        } else if self.pc < 0x10000000 {
            7
        } else {
            8
        });
        push_all(&mut s, &[' ', 'D', 'P', ':']);
        push_hex(&mut s, self.dp as u32, 4);
        push_all(&mut s, &[' ', 'D', 'B', ':']);
        push_hex(&mut s, self.db as u32, 2);
        push_all(&mut s, &[' ', 'P', 'B', ':']);
        push_hex(&mut s, self.pb as u32, 2);
        push_all(&mut s, &[' ', 'P', ':']);
        push_hex(&mut s, self.p as u32, 2);
        push_all(&mut s, &[' ', 'M', ':']);
        push_width(&mut s, self.m_flag);
        push_all(&mut s, &[' ', 'X', ':']);
        push_width(&mut s, self.x_flag);
        push_all(&mut s, &[' ', 'E', ':']);
        push_char(&mut s, if self.e_flag {
            'E'
        } else {
            'N'
        });
        proof {
            assert(s@ =~= register_line(*self));
        }
        s
    }
}

} // verus!
