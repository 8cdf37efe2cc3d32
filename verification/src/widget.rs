//! The widget interface the bar's sections are built from, and the one
//! widget whose content is pure data: the clock.  Rendering to the screen
//! happens outside; a widget here only names itself and produces its text.
use vstd::prelude::*;
use vstd::string::*;
use chrono::Timelike;

use crate::text::digit_char;
use crate::text::push_char;

verus! {

/// One widget of the bar: it names itself and renders its textual content.
pub trait Widget {
    /// The stable identifier the section layout refers to.
    fn id(&self) -> &'static str;

    /// The widget's current textual content.
    fn render(&self) -> String;

    /// Whether the widget wants a background worker of its own.
    fn needs_thread(&self) -> bool;

    /// Start the widget's background work, when it has any.
    fn start(&mut self);
}

/// Relies on `chrono::Local::now` and the `Timelike` accessors: the hour is
/// 0 to 23, the minute and the second 0 to 59.  Which moment the clock
/// reads is up to the system, so nothing more is promised.
#[verifier::external_body]
fn local_time_hms() -> (t: (u8, u8, u8))
    ensures
        t.0 < 24,
        t.1 < 60,
        t.2 < 60,
{
    let now = chrono::Local::now();
    (now.hour() as u8, now.minute() as u8, now.second() as u8)
}

/// Two decimal digits, zero-padded.
pub open spec fn two_digits(n: nat) -> Seq<char> {
    seq![digit_char(n / 10), digit_char(n % 10)]
}

/// The clock text for a given time: `HH:MM:SS`.
pub open spec fn hms_text(h: nat, m: nat, s: nat) -> Seq<char> {
    two_digits(h) + seq![':'] + two_digits(m) + seq![':'] + two_digits(s)
}

/// Format a time of day as `HH:MM:SS`, zero-padded.
pub fn format_hms(h: u8, m: u8, s: u8) -> (r: String)
    requires
        h < 24,
        m < 60,
        s < 60,
    ensures
        r@ == hms_text(h as nat, m as nat, s as nat),
{
    let mut r = String::new();
    push_two_digits(&mut r, h);
    push_char(&mut r, ':');
    push_two_digits(&mut r, m);
    push_char(&mut r, ':');
    push_two_digits(&mut r, s);
    proof {
        assert(r@ =~= hms_text(h as nat, m as nat, s as nat));
    }
    r
}

fn push_two_digits(r: &mut String, n: u8)
    requires
        n < 100,
    ensures
        final(r)@ == old(r)@ + two_digits(n as nat),
{
    push_digit(r, n / 10);
    push_digit(r, n % 10);
    proof {
        assert(r@ =~= old(r)@ + two_digits(n as nat));
    }
}

fn push_digit(r: &mut String, d: u8)
    requires
        d < 10,
    ensures
        final(r)@ == old(r)@.push(digit_char(d as nat)),
{
    let c = if d == 0 {
        '0'
    } else if d == 1 {
        '1'
    } else if d == 2 {
        '2'
    } else if d == 3 {
        '3'
    } else if d == 4 {
        '4'
    } else if d == 5 {
        '5'
    } else if d == 6 {
        '6'
    } else if d == 7 {
        '7'
    } else if d == 8 {
        '8'
    } else {
        '9'
    };
    push_char(r, c);
}

/// The current wall-clock time as `HH:MM:SS` — the formatting of some
/// valid time of day.
pub fn clock_text() -> (r: String)
    ensures
        exists|h: nat, m: nat, s: nat|
            h < 24 && m < 60 && s < 60 && r@ == #[trigger] hms_text(h, m, s),
{
    let t = local_time_hms();
    let r = format_hms(t.0, t.1, t.2);
    proof {
        assert(r@ == hms_text(t.0 as nat, t.1 as nat, t.2 as nat));
    }
    r
}

/// The clock widget: its content is the current time of day.
pub struct Clock;

impl Widget for Clock {
    fn id(&self) -> &'static str {
        "clock"
    }

    fn render(&self) -> String {
        clock_text()
    }

    fn needs_thread(&self) -> bool {
        true
    }

    fn start(&mut self) {
    }
}

} // verus!
