//! Expiry policy: how many days an item has left, and what that means.

use vstd::prelude::*;

verus! {

/// How urgently an item must be used up.
#[derive(Clone, Copy, Debug, PartialEq, Eq, Structural)]
pub enum UrgencyTier {
    /// Expired, or at most one day left.
    Error,
    /// Two or three days left.
    Warning,
    /// Four days or more left.
    Safe,
}

/// The tier of an item with `days` days remaining.
pub open spec fn tier_of(days: int) -> UrgencyTier {
    if days <= 1 {
        UrgencyTier::Error
    } else if days <= 3 {
        UrgencyTier::Warning
    } else {
        UrgencyTier::Safe
    }
}

/// Classifies a remaining-day count; each boundary belongs to the more urgent tier.
pub fn urgency_tier(days: i64) -> (r: UrgencyTier)
    ensures
        r == tier_of(days as int),
{
    if days <= 1 {
        UrgencyTier::Error
    } else if days <= 3 {
        UrgencyTier::Warning
    } else {
        UrgencyTier::Safe
    }
}

/// The three tiers split the integers into the bands `..=1`, `2..=3` and `4..`.
pub proof fn lemma_tier_bands(days: int)
    ensures
        tier_of(days) == UrgencyTier::Error <==> days <= 1,
        tier_of(days) == UrgencyTier::Warning <==> 2 <= days <= 3,
        tier_of(days) == UrgencyTier::Safe <==> days >= 4,
{
}

impl UrgencyTier {
    /// The style class under which a card of this tier is drawn.
    pub fn css_class(&self) -> (r: &'static str)
        ensures
            *self == UrgencyTier::Error ==> r@ == "status-error"@,
            *self == UrgencyTier::Warning ==> r@ == "status-warning"@,
            *self == UrgencyTier::Safe ==> r@ == "status-safe"@,
    {
        match self {
            UrgencyTier::Error => "status-error",
            UrgencyTier::Warning => "status-warning",
            UrgencyTier::Safe => "status-safe",
        }
    }
}

/// What the deadline of an item looks like from today.
#[derive(Clone, Copy, Debug, PartialEq, Eq, Structural)]
pub enum Deadline {
    /// The item expired this many days ago (at least one).
    Expired(u64),
    /// The item expires today.
    DueToday,
    /// This many days are left (at least one).
    Left(u64),
}

/// The deadline for `days` days remaining.
pub open spec fn deadline_of(days: int) -> Deadline {
    if days < 0 {
        Deadline::Expired((-days) as u64)
    } else if days == 0 {
        Deadline::DueToday
    } else {
        Deadline::Left(days as u64)
    }
}

/// Classifies a remaining-day count as expired, due today or still running.
pub fn deadline(days: i64) -> (r: Deadline)
    ensures
        r == deadline_of(days as int),
{
    if days < 0 {
        let n: u64 = (-(days + 1)) as u64 + 1;
        Deadline::Expired(n)
    } else if days == 0 {
        Deadline::DueToday
    } else {
        Deadline::Left(days as u64)
    }
}

/// The decimal digit `d` (below ten) as a character.
pub open spec fn digit_char(d: nat) -> char {
    if d == 0 {
        '0'
    } else if d == 1 {
        '1'
    } else if d == 2 {
        '2'
    } else if d == 3 {
        '3'
    } else if d == 4 {
        '4'
    } else if d == 5 {
        '5'
    } else if d == 6 {
        '6'
    } else if d == 7 {
        '7'
    } else if d == 8 {
        '8'
    } else {
        '9'
    }
}

/// `n` written in decimal, without leading zeros.
pub open spec fn decimal(n: nat) -> Seq<char>
    decreases n,
{
    if n < 10 {
        seq![digit_char(n)]
    } else {
        decimal(n / 10) + seq![digit_char(n % 10)]
    }
}

fn digit_str(d: u64) -> (r: &'static str)
    requires
        d < 10,
    ensures
        r@ == seq![digit_char(d as nat)],
{
    proof {
        reveal_strlit("0");
        reveal_strlit("1");
        reveal_strlit("2");
        reveal_strlit("3");
        reveal_strlit("4");
        reveal_strlit("5");
        reveal_strlit("6");
        reveal_strlit("7");
        reveal_strlit("8");
        reveal_strlit("9");
    }
    let r = if d == 0 {
        "0"
    } else if d == 1 {
        "1"
    } else if d == 2 {
        "2"
    } else if d == 3 {
        "3"
    } else if d == 4 {
        "4"
    } else if d == 5 {
        "5"
    } else if d == 6 {
        "6"
    } else if d == 7 {
        "7"
    } else if d == 8 {
        "8"
    } else {
        "9"
    };
    assert(r@ =~= seq![digit_char(d as nat)]);
    r
}

fn push_decimal(out: &mut String, n: u64)
    ensures
        final(out)@ == old(out)@ + decimal(n as nat),
    decreases n,
{
    if n >= 10 {
        push_decimal(out, n / 10);
    }
    out.append(digit_str(n % 10));
    assert(final(out)@ =~= old(out)@ + decimal(n as nat)) by {
        if n >= 10 {
            assert(old(out)@ + decimal(n as nat) =~= old(out)@ + decimal((n / 10) as nat) + seq![
                digit_char((n % 10) as nat),
            ]);
        }
    }
}

/// The text shown for a deadline.
pub open spec fn deadline_text(d: Deadline) -> Seq<char> {
    match d {
        Deadline::Expired(n) => "expired "@ + decimal(n as nat) + " days ago"@,
        Deadline::DueToday => "due today"@,
        Deadline::Left(n) => decimal(n as nat) + " days left"@,
    }
}

impl Deadline {
    /// Renders the deadline as a short phrase ("expired 2 days ago",
    /// "due today", "5 days left").
    pub fn text(&self) -> (r: String)
        ensures
            r@ == deadline_text(*self),
    {
        match self {
            Deadline::Expired(n) => {
                let mut s = String::from_str("expired ");
                push_decimal(&mut s, *n);
                s.append(" days ago");
                s
            },
            Deadline::DueToday => String::from_str("due today"),
            Deadline::Left(n) => {
                let mut s = String::new();
                push_decimal(&mut s, *n);
                s.append(" days left");
                proof {
                    assert(Seq::<char>::empty() + decimal(*n as nat) =~= decimal(*n as nat));
                }
                s
            },
        }
    }
}

/// Renders the deadline for `days` days remaining.
pub fn display_deadline(days: i64) -> (r: String)
    ensures
        r@ == deadline_text(deadline_of(days as int)),
{
    deadline(days).text()
}

} // verus!
