//! Testing email addresses for CI and integration testing.
//!
//! The local part (before `@`) determines delivery behavior. Any address
//! ending in `@testing.lettermint.co` is accepted; the `Scenario` enum
//! covers the documented simulation scenarios.

use crate::text::{chars_to_string, decimal, is_digit, lemma_decimal_digits, push_decimal, str_chars};
use vstd::prelude::*;

verus! {

/// Testing email domain.
pub const DOMAIN: &'static str = "testing.lettermint.co";

/// Delivery scenario for a testing email.
#[derive(Debug, Clone, Copy, PartialEq, Eq)]
pub enum Scenario {
    /// Successful delivery (`message.delivered`).
    Delivered,
    /// Soft bounce, mailbox full (`message.soft_bounced`).
    SoftBounce,
    /// Hard bounce, user unknown (`message.hard_bounced`).
    HardBounce,
    /// Delivery followed by a spam complaint (`message.spam_complaint`).
    SpamComplaint,
    /// Out-of-band DSN bounce (`message.hard_bounced`).
    Dsn,
}

/// The address with local part `local` in the testing domain.
pub open spec fn custom_spec(local: Seq<char>) -> Seq<char> {
    local + "@"@ + DOMAIN@
}

impl Scenario {
    /// The local part of this scenario's address.
    pub open spec fn local_part_spec(self) -> Seq<char> {
        match self {
            Scenario::Delivered => "ok"@,
            Scenario::SoftBounce => "softbounce"@,
            Scenario::HardBounce => "hardbounce"@,
            Scenario::SpamComplaint => "spamcomplaint"@,
            Scenario::Dsn => "dsn"@,
        }
    }

    /// The local part of a unique address for this scenario:
    /// `<local>+<ts>-<pid>-<seq>`.
    pub open spec fn unique_local_spec(self, ts: u128, pid: u32, seq: u64) -> Seq<char> {
        self.local_part_spec() + "+"@ + decimal(ts as nat) + "-"@ + decimal(pid as nat) + "-"@
            + decimal(seq as nat)
    }

    /// The local part used in the email address for this scenario.
    pub fn local_part(&self) -> (r: &'static str)
        ensures
            r@ == self.local_part_spec(),
    {
        match self {
            Scenario::Delivered => "ok",
            Scenario::SoftBounce => "softbounce",
            Scenario::HardBounce => "hardbounce",
            Scenario::SpamComplaint => "spamcomplaint",
            Scenario::Dsn => "dsn",
        }
    }

    /// The base testing email address for this scenario, e.g.
    /// `ok@testing.lettermint.co`.
    pub fn email(&self) -> (r: String)
        ensures
            r@ == custom_spec(self.local_part_spec()),
    {
        custom(self.local_part())
    }

    /// The unique testing address for this scenario made from a timestamp
    /// in nanoseconds, a process id and a sequence number:
    /// `<local>+<ts>-<pid>-<seq>@testing.lettermint.co`.
    pub fn unique_email(&self, ts: u128, pid: u32, seq: u64) -> (r: String)
        ensures
            r@ == custom_spec(self.unique_local_spec(ts, pid, seq)),
    {
        let mut local = str_chars(self.local_part());
        local.push('+');
        push_decimal(&mut local, ts);
        local.push('-');
        push_decimal(&mut local, pid as u128);
        local.push('-');
        push_decimal(&mut local, seq as u128);
        proof {
            reveal_strlit("+");
            reveal_strlit("-");
            assert(local@ =~= self.unique_local_spec(ts, pid, seq));
        }
        let local = chars_to_string(local.as_slice());
        custom(local.as_str())
    }
}

/// Build a testing email with a custom local part, e.g.
/// `custom("ok+tag")` is `ok+tag@testing.lettermint.co`.
pub fn custom(local_part: &str) -> (r: String)
    ensures
        r@ == custom_spec(local_part@),
{
    String::from_str(local_part).concat("@").concat(DOMAIN)
}

// ---------------------------------------------------------------------------
// Laws
// ---------------------------------------------------------------------------

/// Splitting at the first occurrence of a separator is unambiguous.
proof fn lemma_split_at_sep(x1: Seq<char>, y1: Seq<char>, x2: Seq<char>, y2: Seq<char>, c: char)
    requires
        x1 + seq![c] + y1 == x2 + seq![c] + y2,
        forall|k: int| 0 <= k < x1.len() ==> #[trigger] x1[k] != c,
        forall|k: int| 0 <= k < x2.len() ==> #[trigger] x2[k] != c,
    ensures
        x1 == x2,
        y1 == y2,
{
    let s1 = x1 + seq![c] + y1;
    let s2 = x2 + seq![c] + y2;
    if x1.len() < x2.len() {
        assert(s1[x1.len() as int] == c);
        assert(s2[x1.len() as int] == x2[x1.len() as int]);
    } else if x2.len() < x1.len() {
        assert(s2[x2.len() as int] == c);
        assert(s1[x2.len() as int] == x1[x2.len() as int]);
    } else {
        assert(x1 =~= s1.take(x1.len() as int));
        assert(x2 =~= s2.take(x2.len() as int));
        assert(y1 =~= s1.skip(x1.len() as int + 1));
        assert(y2 =~= s2.skip(x2.len() as int + 1));
    }
}

/// A decimal notation holds only digits, so neither `+`, `-` nor `@`.
proof fn lemma_decimal_no_sep(n: nat)
    ensures
        forall|k: int|
            0 <= k < decimal(n).len() ==> #[trigger] decimal(n)[k] != '+' && decimal(n)[k] != '-'
                && decimal(n)[k] != '@',
{
    lemma_decimal_digits(n);
    assert forall|k: int| 0 <= k < decimal(n).len() implies #[trigger] decimal(n)[k] != '+'
        && decimal(n)[k] != '-' && decimal(n)[k] != '@' by {
        assert(is_digit(decimal(n)[k]));
    }
}

/// Different numbers have different decimal notations.
proof fn lemma_decimal_injective(a: nat, b: nat)
    requires
        decimal(a) == decimal(b),
    ensures
        a == b,
{
    lemma_decimal_digits(a);
    lemma_decimal_digits(b);
}

proof fn lemma_local_part_no_plus(s: Scenario)
    ensures
        forall|k: int|
            0 <= k < s.local_part_spec().len() ==> #[trigger] s.local_part_spec()[k] != '+',
{
    reveal_strlit("ok");
    reveal_strlit("softbounce");
    reveal_strlit("hardbounce");
    reveal_strlit("spamcomplaint");
    reveal_strlit("dsn");
}

proof fn lemma_local_part_injective(s1: Scenario, s2: Scenario)
    requires
        s1.local_part_spec() == s2.local_part_spec(),
    ensures
        s1 == s2,
{
    reveal_strlit("ok");
    reveal_strlit("softbounce");
    reveal_strlit("hardbounce");
    reveal_strlit("spamcomplaint");
    reveal_strlit("dsn");
    let l = s1.local_part_spec();
    match s1 {
        Scenario::Delivered => {
            assert(l.len() == 2);
        },
        Scenario::SoftBounce => {
            assert(l.len() == 10 && l[0] == 's');
        },
        Scenario::HardBounce => {
            assert(l.len() == 10 && l[0] == 'h');
        },
        Scenario::SpamComplaint => {
            assert(l.len() == 13);
        },
        Scenario::Dsn => {
            assert(l.len() == 3);
        },
    }
}

proof fn lemma_strip_domain(a1: Seq<char>, a2: Seq<char>)
    requires
        custom_spec(a1) == custom_spec(a2),
    ensures
        a1 == a2,
{
    let suffix = "@"@ + DOMAIN@;
    assert(custom_spec(a1) =~= a1 + suffix);
    assert(custom_spec(a2) =~= a2 + suffix);
    assert(a1 =~= (a1 + suffix).take(a1.len() as int));
    assert(a2 =~= (a2 + suffix).take(a2.len() as int));
}

proof fn lemma_decompose(
    l1: Seq<char>,
    d1: Seq<char>,
    p1: Seq<char>,
    q1: Seq<char>,
    l2: Seq<char>,
    d2: Seq<char>,
    p2: Seq<char>,
    q2: Seq<char>,
)
    requires
        l1 + seq!['+'] + d1 + seq!['-'] + p1 + seq!['-'] + q1 == l2 + seq!['+'] + d2 + seq!['-']
            + p2 + seq!['-'] + q2,
        forall|k: int| 0 <= k < l1.len() ==> #[trigger] l1[k] != '+',
        forall|k: int| 0 <= k < l2.len() ==> #[trigger] l2[k] != '+',
        forall|k: int| 0 <= k < d1.len() ==> #[trigger] d1[k] != '-',
        forall|k: int| 0 <= k < d2.len() ==> #[trigger] d2[k] != '-',
        forall|k: int| 0 <= k < p1.len() ==> #[trigger] p1[k] != '-',
        forall|k: int| 0 <= k < p2.len() ==> #[trigger] p2[k] != '-',
    ensures
        l1 == l2,
        d1 == d2,
        p1 == p2,
        q1 == q2,
{
    let t1 = p1 + seq!['-'] + q1;
    let t2 = p2 + seq!['-'] + q2;
    let r1 = d1 + seq!['-'] + t1;
    let r2 = d2 + seq!['-'] + t2;
    assert(l1 + seq!['+'] + d1 + seq!['-'] + p1 + seq!['-'] + q1 =~= l1 + seq!['+'] + r1);
    assert(l2 + seq!['+'] + d2 + seq!['-'] + p2 + seq!['-'] + q2 =~= l2 + seq!['+'] + r2);
    lemma_split_at_sep(l1, r1, l2, r2, '+');
    lemma_split_at_sep(d1, t1, d2, t2, '-');
    lemma_split_at_sep(p1, q1, p2, q2, '-');
}

/// Unique addresses made from different scenarios, timestamps, process ids
/// or sequence numbers differ: the address determines all four.
pub proof fn lemma_unique_email_injective(
    s1: Scenario,
    ts1: u128,
    pid1: u32,
    seq1: u64,
    s2: Scenario,
    ts2: u128,
    pid2: u32,
    seq2: u64,
)
    requires
        custom_spec(s1.unique_local_spec(ts1, pid1, seq1)) == custom_spec(
            s2.unique_local_spec(ts2, pid2, seq2),
        ),
    ensures
        s1 == s2,
        ts1 == ts2,
        pid1 == pid2,
        seq1 == seq2,
{
    lemma_strip_domain(s1.unique_local_spec(ts1, pid1, seq1), s2.unique_local_spec(ts2, pid2, seq2));
    reveal_strlit("+");
    reveal_strlit("-");
    lemma_decimal_no_sep(ts1 as nat);
    lemma_decimal_no_sep(pid1 as nat);
    lemma_decimal_no_sep(ts2 as nat);
    lemma_decimal_no_sep(pid2 as nat);
    lemma_local_part_no_plus(s1);
    lemma_local_part_no_plus(s2);
    assert("+"@ =~= seq!['+']);
    assert("-"@ =~= seq!['-']);
    lemma_decompose(
        s1.local_part_spec(),
        decimal(ts1 as nat),
        decimal(pid1 as nat),
        decimal(seq1 as nat),
        s2.local_part_spec(),
        decimal(ts2 as nat),
        decimal(pid2 as nat),
        decimal(seq2 as nat),
    );
    lemma_local_part_injective(s1, s2);
    lemma_decimal_injective(ts1 as nat, ts2 as nat);
    lemma_decimal_injective(pid1 as nat, pid2 as nat);
    lemma_decimal_injective(seq1 as nat, seq2 as nat);
}

} // verus!
