//! Text formatting for the widgets: padded titles, playback clocks, and the
//! volume bar.

use crate::chars::push_char;
use vstd::prelude::*;

verus! {

/// The character of one decimal digit.
pub open spec fn spec_digit_char(d: int) -> char {
    if d == 0 {
        '0'
    } else if d == 1 {
        '1'
    } else if d == 2 {
        '2'
    } else if d == 3 {
        '3'
    } else if d == 4 {
        '4'
    } else if d == 5 {
        '5'
    } else if d == 6 {
        '6'
    } else if d == 7 {
        '7'
    } else if d == 8 {
        '8'
    } else {
        '9'
    }
}

fn digit_char(d: u32) -> (r: char)
    requires
        d < 10,
    ensures
        r == spec_digit_char(d as int),
{
    match d {
        0 => '0',
        1 => '1',
        2 => '2',
        3 => '3',
        4 => '4',
        5 => '5',
        6 => '6',
        7 => '7',
        8 => '8',
        _ => '9',
    }
}

/// The decimal representation of a number, most significant digit first.
pub open spec fn spec_decimal(n: nat) -> Seq<char>
    decreases n,
{
    if n < 10 {
        seq![spec_digit_char(n as int)]
    } else {
        spec_decimal(n / 10).push(spec_digit_char((n % 10) as int))
    }
}

/// Appends the decimal representation of `n`.
fn push_decimal(s: &mut String, n: u32)
    ensures
        final(s)@ == old(s)@ + spec_decimal(n as nat),
    decreases n,
{
    if n < 10 {
        push_char(s, digit_char(n));
        proof {
            assert(old(s)@.push(spec_digit_char(n as int)) =~= old(s)@ + spec_decimal(n as nat));
        }
    } else {
        push_decimal(s, n / 10);
        push_char(s, digit_char(n % 10));
        proof {
            assert((old(s)@ + spec_decimal((n / 10) as nat)).push(
                spec_digit_char((n % 10) as int),
            ) =~= old(s)@ + spec_decimal(n as nat));
        }
    }
}

/// The decimal representation of a number.
pub fn u32_to_string(n: u32) -> (r: String)
    ensures
        r@ == spec_decimal(n as nat),
{
    let mut s = String::new();
    push_decimal(&mut s, n);
    proof {
        assert(Seq::<char>::empty() + spec_decimal(n as nat) =~= spec_decimal(n as nat));
    }
    s
}

/// A playback clock: whole minutes, a colon, and the seconds always written
/// with two digits.
pub open spec fn spec_time_from_ms(ms: nat) -> Seq<char> {
    let secs = ms / 1000;
    let minutes = secs / 60;
    let seconds = secs % 60;
    spec_decimal(minutes) + seq![':'] + (if seconds < 10 {
        seq!['0', spec_digit_char(seconds as int)]
    } else {
        spec_decimal(seconds)
    })
}

/// Renders a millisecond progress value as `minutes:seconds`.
pub fn time_from_ms(ms: &u32) -> (r: String)
    ensures
        r@ == spec_time_from_ms(*ms as nat),
{
    let secs = *ms / 1000;
    let minutes = secs / 60;
    let seconds = secs % 60;
    let mut s = String::new();
    push_decimal(&mut s, minutes);
    push_char(&mut s, ':');
    if seconds < 10 {
        push_char(&mut s, '0');
        push_char(&mut s, digit_char(seconds));
        proof {
            assert((((Seq::<char>::empty() + spec_decimal(minutes as nat)).push(':')).push(
                '0',
            )).push(spec_digit_char(seconds as int)) =~= spec_time_from_ms(*ms as nat));
        }
    } else {
        push_decimal(&mut s, seconds);
        proof {
            assert(((Seq::<char>::empty() + spec_decimal(minutes as nat)).push(':'))
                + spec_decimal(seconds as nat) =~= spec_time_from_ms(*ms as nat));
        }
    }
    s
}

/// `n` spaces.
pub open spec fn spec_spaces(n: nat) -> Seq<char>
    decreases n,
{
    if n == 0 {
        Seq::empty()
    } else {
        spec_spaces((n - 1) as nat).push(' ')
    }
}

fn push_spaces(s: &mut String, n: usize)
    ensures
        final(s)@ == old(s)@ + spec_spaces(n as nat),
{
    let mut i: usize = 0;
    proof {
        assert(s@ =~= old(s)@ + spec_spaces(0));
    }
    while i < n
        invariant
            i <= n,
            s@ == old(s)@ + spec_spaces(i as nat),
        decreases n - i,
    {
        push_char(s, ' ');
        proof {
            assert((old(s)@ + spec_spaces(i as nat)).push(' ') =~= old(s)@ + spec_spaces(
                (i + 1) as nat,
            ));
        }
        i += 1;
    }
}

/// The content with `size` spaces on each side.
pub open spec fn spec_padded(content: Seq<char>, size: nat) -> Seq<char> {
    spec_spaces(size) + content + spec_spaces(size)
}

/// Surrounds the content with `size` spaces on each side.
pub fn pad(content: &str, size: usize) -> (r: String)
    ensures
        r@ == spec_padded(content@, size as nat),
{
    let mut s = String::new();
    push_spaces(&mut s, size);
    s.append(content);
    push_spaces(&mut s, size);
    proof {
        assert(s@ =~= spec_padded(content@, size as nat));
    }
    s
}

/// `n` repetitions of a full block and a space.
pub open spec fn spec_blocks(n: nat) -> Seq<char>
    decreases n,
{
    if n == 0 {
        Seq::empty()
    } else {
        spec_blocks((n - 1) as nat) + seq!['█', ' ']
    }
}

/// The volume bar: one block per ten percent, and a half block for a
/// remainder of five or more.
pub open spec fn spec_volume_bar(percentage: nat) -> Seq<char> {
    spec_blocks(percentage / 10) + (if percentage % 10 >= 5 {
        seq!['▄']
    } else {
        Seq::empty()
    })
}

/// Renders the volume percentage as a bar of blocks.
pub fn volume_bar(percentage: u32) -> (r: String)
    ensures
        r@ == spec_volume_bar(percentage as nat),
{
    let blocks = percentage / 10;
    let mut s = String::new();
    let mut i: u32 = 0;
    proof {
        assert(s@ =~= spec_blocks(0));
    }
    while i < blocks
        invariant
            i <= blocks,
            s@ == spec_blocks(i as nat),
        decreases blocks - i,
    {
        push_char(&mut s, '█');
        push_char(&mut s, ' ');
        proof {
            assert(spec_blocks(i as nat).push('█').push(' ') =~= spec_blocks((i + 1) as nat));
        }
        i += 1;
    }
    if percentage % 10 >= 5 {
        push_char(&mut s, '▄');
        proof {
            assert(spec_blocks(blocks as nat).push('▄') =~= spec_volume_bar(percentage as nat));
        }
    } else {
        proof {
            assert(spec_blocks(blocks as nat) =~= spec_volume_bar(percentage as nat));
        }
    }
    s
}

} // verus!
