//! Rendering of playback times as `H:MM:SS` and of playback position as a
//! fixed-width ASCII progress bar.
//!
//! A total duration equal to [`UNKNOWN_DURATION_SECS`] is the sentinel for
//! "the backend cannot tell the true length"; it is shown as a placeholder
//! glyph string and as an indeterminate bar instead of a computed one.

use vstd::prelude::*;
use crate::text::{dec_seq, digit_char, digit, push_char, u64_to_dec, lemma_dec_seq_len_u64};
use vstd::arithmetic::mul::lemma_mul_inequality;
use vstd::arithmetic::div_mod::{lemma_div_is_ordered, lemma_div_multiples_vanish};

verus! {

/// Total length reported when the audio backend cannot tell the duration.
pub const UNKNOWN_DURATION_SECS: u64 = 36000;

/// Width of the rendered progress bar, in fill segments.
pub const BAR_LENGTH: u64 = 25;

/// A value below one hundred rendered as exactly two digits.
pub open spec fn spec_pad2(n: nat) -> Seq<char> {
    if n < 10 {
        seq!['0', digit_char(n)]
    } else {
        dec_seq(n)
    }
}

/// `H:MM:SS`: unbounded hours, zero-padded minutes and seconds.
pub open spec fn spec_duration(d: nat) -> Seq<char> {
    dec_seq(d / 3600) + seq![':'] + spec_pad2(d % 3600 / 60) + seq![':'] + spec_pad2(d % 60)
}

/// What the duration field shows: a formatted time below the sentinel,
/// a placeholder glyph string for the sentinel and beyond.
pub open spec fn spec_duration_text(dur: nat) -> Seq<char> {
    if dur < UNKNOWN_DURATION_SECS {
        spec_duration(dur)
    } else {
        "?[-_-#]"@
    }
}

/// `k` copies of one character.
pub open spec fn char_repeat(c: char, k: nat) -> Seq<char> {
    Seq::new(k, |i| c)
}

/// The degenerate bar shown while the true duration is unknown.
pub open spec fn spec_indeterminate_bar() -> Seq<char> {
    "============/============"@
}

/// The progress bar: `elapsed * length / total` fill characters, one cursor
/// character, then the remaining empty characters; the indeterminate bar
/// whenever the total is the unknown-duration sentinel.
pub open spec fn spec_progress(curr: nat, dur: nat, length: nat) -> Seq<char> {
    if dur == UNKNOWN_DURATION_SECS {
        spec_indeterminate_bar()
    } else {
        let filled = curr * length / dur;
        char_repeat('=', filled) + seq!['>'] + char_repeat('-', (length - filled) as nat)
    }
}

/// Two zero-padded digits have length two.
pub proof fn lemma_spec_pad2_len(n: nat)
    requires
        n < 100,
    ensures
        spec_pad2(n).len() == 2,
{
    if n >= 10 {
        assert(dec_seq(n) == dec_seq(n / 10).push(digit_char(n % 10)));
        assert(n / 10 < 10);
        assert(dec_seq(n / 10) == seq![digit_char(n / 10)]);
    }
}

/// A rendered duration takes at most 26 characters, and exactly 7 when the
/// duration lies below the unknown-duration sentinel.
pub proof fn lemma_spec_duration_len(d: nat)
    requires
        d <= u64::MAX,
    ensures
        spec_duration(d).len() <= 26,
        d < UNKNOWN_DURATION_SECS ==> spec_duration(d).len() == 7,
{
    lemma_dec_seq_len_u64(d / 3600);
    assert(d % 3600 < 3600);
    lemma_div_is_ordered((d % 3600) as int, 3599, 60);
    lemma_spec_pad2_len(d % 3600 / 60);
    lemma_spec_pad2_len(d % 60);
    if d < 36000 {
        assert(d / 3600 < 10);
        assert(dec_seq(d / 3600).len() == 1);
    }
}

/// Appends `v` as two zero-padded digits.
pub fn push_pad2(s: &mut String, v: u64)
    requires
        v < 100,
    ensures
        final(s)@ == old(s)@ + spec_pad2(v as nat),
{
    if v < 10 {
        push_char(s, '0');
        push_char(s, digit(v));
        proof {
            assert(s@ =~= old(s)@ + spec_pad2(v as nat));
        }
    } else {
        push_char(s, digit(v / 10));
        push_char(s, digit(v % 10));
        proof {
            assert(dec_seq(v as nat) == dec_seq(v as nat / 10).push(digit_char(v as nat % 10)));
            assert(v as nat / 10 < 10);
            assert(dec_seq(v as nat / 10) == seq![digit_char(v as nat / 10)]);
            assert(s@ =~= old(s)@ + spec_pad2(v as nat));
        }
    }
}

/// Formats a duration in seconds as `H:MM:SS`, hours unbounded, minutes and
/// seconds zero-padded to two digits.
pub fn format_duration(d: u64) -> (r: String)
    ensures
        r@ == spec_duration(d as nat),
{
    proof {
        assert(d % 3600 < 3600);
        lemma_div_is_ordered((d % 3600) as int, 3599, 60);
    }
    let mut s = u64_to_dec(d / 3600);
    push_char(&mut s, ':');
    push_pad2(&mut s, d % 3600 / 60);
    push_char(&mut s, ':');
    push_pad2(&mut s, d % 60);
    proof {
        assert(s@ =~= spec_duration(d as nat));
    }
    s
}

/// Renders the progress bar for `curr` elapsed seconds out of `dur` total,
/// over `length` fill segments. The fill count is a floor truncation; the
/// unknown-duration sentinel yields the indeterminate bar unconditionally.
pub fn format_progress(curr: u64, dur: u64, length: u64) -> (r: String)
    requires
        dur != UNKNOWN_DURATION_SECS ==> 0 < dur && curr <= dur && curr * length <= u64::MAX,
    ensures
        r@ == spec_progress(curr as nat, dur as nat, length as nat),
{
    if dur == UNKNOWN_DURATION_SECS {
        return "============/============".to_owned();
    }
    let filled = curr * length / dur;
    proof {
        lemma_mul_inequality(curr as int, dur as int, length as int);
        lemma_div_is_ordered((curr * length) as int, dur as int * length as int, dur as int);
        lemma_div_multiples_vanish(length as int, dur as int);
        assert(filled <= length);
    }
    let mut s = String::new();
    let mut i: u64 = 0;
    proof {
        assert(s@ =~= char_repeat('=', 0));
    }
    while i < filled
        invariant
            i <= filled,
            s@ == char_repeat('=', i as nat),
        decreases filled - i,
    {
        push_char(&mut s, '=');
        i = i + 1;
        proof {
            assert(s@ =~= char_repeat('=', i as nat));
        }
    }
    push_char(&mut s, '>');
    let rest = length - filled;
    let mut j: u64 = 0;
    proof {
        assert(s@ =~= char_repeat('=', filled as nat).push('>') + char_repeat('-', 0));
    }
    while j < rest
        invariant
            j <= rest,
            s@ == char_repeat('=', filled as nat).push('>') + char_repeat('-', j as nat),
        decreases rest - j,
    {
        push_char(&mut s, '-');
        j = j + 1;
        proof {
            assert(s@ =~= char_repeat('=', filled as nat).push('>') + char_repeat('-', j as nat));
        }
    }
    proof {
        assert(s@ =~= spec_progress(curr as nat, dur as nat, length as nat));
    }
    s
}

} // verus!
