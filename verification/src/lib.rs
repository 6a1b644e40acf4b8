use vstd::prelude::*;

pub mod fault;
pub mod gpio;
pub mod i2c;
pub mod spi;
mod util;

pub use fault::HardwareFault;
pub use gpio::{Gpio, GpioModel, MockGpio};
pub use i2c::{I2c, I2cModel, MockI2c};
pub use spi::{MockSpi, Spi, SpiModel};

verus! {

/// Whether a character survives ID normalization: ASCII letters and digits,
/// `-` and `_` are kept; everything else is dropped.
pub open spec fn id_char_kept(c: char) -> bool {
    ('a' <= c && c <= 'z') || ('A' <= c && c <= 'Z') || ('0' <= c && c <= '9') || c == '-' || c
        == '_'
}

/// ASCII lowercasing of a single character; characters outside `A`..`Z`
/// are unchanged.
pub open spec fn id_char_lowered(c: char) -> char {
    if 'A' <= c && c <= 'Z' {
        ((c as u32) + 32) as char
    } else {
        c
    }
}

/// The normalized form of an ID: kept characters in order, each lowercased.
pub open spec fn normalized_id(s: Seq<char>) -> Seq<char>
    decreases s.len(),
{
    if s.len() == 0 {
        Seq::empty()
    } else if id_char_kept(s.last()) {
        normalized_id(s.drop_last()).push(id_char_lowered(s.last()))
    } else {
        normalized_id(s.drop_last())
    }
}

fn is_kept_char(c: char) -> (b: bool)
    ensures
        b == id_char_kept(c),
{
    ('a' <= c && c <= 'z') || ('A' <= c && c <= 'Z') || ('0' <= c && c <= '9') || c == '-' || c
        == '_'
}

fn lower_char(c: char) -> (r: char)
    ensures
        r == id_char_lowered(c),
{
    match c {
        'A' => 'a',
        'B' => 'b',
        'C' => 'c',
        'D' => 'd',
        'E' => 'e',
        'F' => 'f',
        'G' => 'g',
        'H' => 'h',
        'I' => 'i',
        'J' => 'j',
        'K' => 'k',
        'L' => 'l',
        'M' => 'm',
        'N' => 'n',
        'O' => 'o',
        'P' => 'p',
        'Q' => 'q',
        'R' => 'r',
        'S' => 's',
        'T' => 't',
        'U' => 'u',
        'V' => 'v',
        'W' => 'w',
        'X' => 'x',
        'Y' => 'y',
        'Z' => 'z',
        _ => c,
    }
}

/// Relies on std's `String::push`: appends the given character to the end of
/// the string.
#[verifier::external_body]
fn push_char(s: &mut String, c: char)
    ensures
        final(s)@ == old(s)@.push(c),
{
    s.push(c);
}

/// Normalize an ID string for safe usage: drop every character that is not an
/// ASCII letter, digit, `-` or `_`, and lowercase what remains.
pub fn normalize_id(id: &str) -> (r: String)
    ensures
        r@ == normalized_id(id@),
{
    let n = id.unicode_len();
    let mut out = String::new();
    let mut i: usize = 0;
    while i < n
        invariant
            i <= n,
            n == id@.len(),
            out@ == normalized_id(id@.take(i as int)),
        decreases n - i,
    {
        let c = id.get_char(i);
        if is_kept_char(c) {
            push_char(&mut out, lower_char(c));
        }
        proof {
            let taken = id@.take(i as int + 1);
            assert(taken.drop_last() =~= id@.take(i as int));
            assert(taken.last() == id@[i as int]);
        }
        i += 1;
    }
    proof {
        assert(id@.take(n as int) =~= id@);
    }
    out
}

} // verus!
