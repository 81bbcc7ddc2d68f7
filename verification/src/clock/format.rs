//! Readouts of the stopwatch and the timer.

use vstd::prelude::*;

use crate::text::{
    all_digits, decimal, digits_value, lemma_decimal_reads_back, lemma_pad2_reads_back, pad2, push_char,
    push_decimal, push_pad2,
};

verus! {

/// The stopwatch readout of `elapsed` nanoseconds: "MM:SS", or "H:MM:SS"
/// from one hour on, and the hundredths apart as ",cc".
pub open spec fn stopwatch_text(elapsed: u128) -> (Seq<char>, Seq<char>) {
    let total_centis = elapsed / 1_000_000 / 10;
    let centis = total_centis % 100;
    let total_seconds = total_centis / 100;
    let seconds = total_seconds % 60;
    let minutes = (total_seconds / 60) % 60;
    let hours = total_seconds / 3600;
    let main = if hours > 0 {
        decimal(hours as nat) + seq![':'] + pad2(minutes as nat) + seq![':'] + pad2(seconds as nat)
    } else {
        pad2(minutes as nat) + seq![':'] + pad2(seconds as nat)
    };
    (main, seq![','] + pad2(centis as nat))
}

/// The timer readout "MM:SS" of `remaining` nanoseconds, in whole seconds.
pub open spec fn timer_text(remaining: u128) -> Seq<char> {
    let total = remaining / 1_000_000_000;
    pad2((total / 60) as nat) + seq![':'] + pad2((total % 60) as nat)
}

pub fn format_stopwatch(elapsed: u128) -> (r: (String, String))
    ensures
        r.0@ == stopwatch_text(elapsed).0,
        r.1@ == stopwatch_text(elapsed).1,
{
    let total_centis = elapsed / 1_000_000 / 10;
    let centis = total_centis % 100;
    let total_seconds = total_centis / 100;
    let seconds = total_seconds % 60;
    let minutes = (total_seconds / 60) % 60;
    let hours = total_seconds / 3600;
    let mut main = String::new();
    if hours > 0 {
        push_decimal(&mut main, hours);
        push_char(&mut main, ':');
    }
    push_pad2(&mut main, minutes);
    push_char(&mut main, ':');
    push_pad2(&mut main, seconds);
    let mut hundredths = String::new();
    push_char(&mut hundredths, ',');
    push_pad2(&mut hundredths, centis);
    assert(main@ =~= stopwatch_text(elapsed).0);
    assert(hundredths@ =~= stopwatch_text(elapsed).1);
    (main, hundredths)
}

pub fn format_timer(remaining: u128) -> (r: String)
    ensures
        r@ == timer_text(remaining),
{
    let total = remaining / 1_000_000_000;
    let mut s = String::new();
    push_pad2(&mut s, total / 60);
    push_char(&mut s, ':');
    push_pad2(&mut s, total % 60);
    assert(s@ =~= timer_text(remaining));
    s
}

/// The timer readout reads back as the whole seconds left: two digits of
/// seconds below 60 after the colon, and the minutes before it (two digits
/// under 100 minutes).
pub proof fn lemma_timer_text_reads_back(remaining: u128)
    ensures
        ({
            let t = timer_text(remaining);
            let seconds = digits_value(t.subrange(t.len() - 2, t.len() as int));
            let minutes = digits_value(t.subrange(0, t.len() - 3));
            &&& t.len() >= 5
            &&& remaining / 1_000_000_000 < 6000 ==> t.len() == 5
            &&& t.len() > 5 ==> t[0] != '0'
            &&& t[t.len() - 3] == ':'
            &&& all_digits(t.subrange(0, t.len() - 3))
            &&& all_digits(t.subrange(t.len() - 2, t.len() as int))
            &&& seconds < 60
            &&& minutes * 60 + seconds == remaining / 1_000_000_000
        }),
{
    let total = remaining / 1_000_000_000;
    let m = (total / 60) as nat;
    let sec = (total % 60) as nat;
    lemma_pad2_reads_back(m);
    lemma_pad2_reads_back(sec);
    let t = timer_text(remaining);
    assert(t.subrange(t.len() - 2, t.len() as int) =~= pad2(sec));
    assert(t.subrange(0, t.len() - 3) =~= pad2(m));
    if m >= 10 {
        lemma_decimal_reads_back(m);
        assert(t[0] == decimal(m)[0]);
    }
}

/// The stopwatch readout reads back as the time elapsed: the hundredths
/// field is the hundredths of a second within the current second; the
/// main field is "MM:SS" under an hour and "H:MM:SS" from an hour on, whose
/// fields (minutes and seconds each below 60) add up to the whole seconds
/// elapsed.
pub proof fn lemma_stopwatch_text_reads_back(elapsed: u128)
    ensures
        ({
            let main = stopwatch_text(elapsed).0;
            let cc = stopwatch_text(elapsed).1;
            let total = elapsed / 1_000_000_000;
            let seconds = digits_value(main.subrange(main.len() - 2, main.len() as int));
            let minutes = digits_value(main.subrange(main.len() - 5, main.len() - 3));
            &&& cc.len() == 3
            &&& cc[0] == ','
            &&& all_digits(cc.subrange(1, 3))
            &&& digits_value(cc.subrange(1, 3)) == (elapsed / 10_000_000) % 100
            &&& main.len() >= 5
            &&& main[main.len() - 3] == ':'
            &&& all_digits(main.subrange(main.len() - 2, main.len() as int))
            &&& all_digits(main.subrange(main.len() - 5, main.len() - 3))
            &&& seconds < 60
            &&& minutes < 60
            &&& total < 3600 ==> main.len() == 5 && minutes * 60 + seconds == total
            &&& total >= 3600 ==> {
                let hours = digits_value(main.subrange(0, main.len() - 6));
                &&& main.len() >= 7
                &&& main[main.len() - 6] == ':'
                &&& all_digits(main.subrange(0, main.len() - 6))
                &&& main[0] != '0'
                &&& hours >= 1
                &&& hours * 3600 + minutes * 60 + seconds == total
            }
        }),
{
    let e = elapsed as int;
    let total_centis = elapsed / 1_000_000 / 10;
    let total_seconds = total_centis / 100;
    vstd::arithmetic::div_mod::lemma_div_denominator(e, 1_000_000, 10);
    vstd::arithmetic::div_mod::lemma_div_denominator(e, 10_000_000, 100);
    assert(total_centis == elapsed / 10_000_000);
    assert(total_seconds == elapsed / 1_000_000_000);
    let centis = (total_centis % 100) as nat;
    let sec = (total_seconds % 60) as nat;
    let min = ((total_seconds / 60) % 60) as nat;
    let hours = (total_seconds / 3600) as nat;
    vstd::arithmetic::div_mod::lemma_div_denominator(total_seconds as int, 60, 60);
    assert(hours == (total_seconds / 60) / 60);
    assert(total_seconds == hours * 3600 + min * 60 + sec);
    lemma_pad2_reads_back(centis);
    lemma_pad2_reads_back(sec);
    lemma_pad2_reads_back(min);
    lemma_decimal_reads_back(hours);
    let main = stopwatch_text(elapsed).0;
    let cc = stopwatch_text(elapsed).1;
    assert(cc.subrange(1, 3) =~= pad2(centis));
    assert(main.subrange(main.len() - 2, main.len() as int) =~= pad2(sec));
    assert(main.subrange(main.len() - 5, main.len() - 3) =~= pad2(min));
    if hours > 0 {
        assert(main.subrange(0, main.len() - 6) =~= decimal(hours));
        assert(main[0] == decimal(hours)[0]);
    }
}

} // verus!
