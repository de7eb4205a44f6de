//! Allocation of unique trade identifiers.
//!
//! An identifier is the fixed prefix `"trade_"` followed by the decimal
//! digits of a counter value. The allocator hands the counter values out in
//! strictly increasing order, so identifiers are never repeated.

use vstd::prelude::*;
use vstd::string::StringExecFns;

verus! {

/// The character for one decimal digit value.
pub open spec fn digit_char(d: int) -> char {
    if d == 0 {
        '0'
    } else if d == 1 {
        '1'
    } else if d == 2 {
        '2'
    } else if d == 3 {
        '3'
    } else if d == 4 {
        '4'
    } else if d == 5 {
        '5'
    } else if d == 6 {
        '6'
    } else if d == 7 {
        '7'
    } else if d == 8 {
        '8'
    } else {
        '9'
    }
}

/// The decimal digits of `n`, most significant first, without leading zeros.
pub open spec fn decimal(n: nat) -> Seq<char>
    decreases n,
{
    if n < 10 {
        seq![digit_char(n as int)]
    } else {
        decimal(n / 10) + seq![digit_char((n % 10) as int)]
    }
}

/// The identifier text for counter value `n`.
pub open spec fn id_text(n: nat) -> Seq<char> {
    "trade_"@ + decimal(n)
}

/// The single digit character for `d`.
fn digit_str(d: u64) -> (s: &'static str)
    requires
        d < 10,
    ensures
        s@ =~= seq![digit_char(d as int)],
{
    proof {
        reveal_strlit("0");
        reveal_strlit("1");
        reveal_strlit("2");
        reveal_strlit("3");
        reveal_strlit("4");
        reveal_strlit("5");
        reveal_strlit("6");
        reveal_strlit("7");
        reveal_strlit("8");
        reveal_strlit("9");
    }
    match d {
        0 => "0",
        1 => "1",
        2 => "2",
        3 => "3",
        4 => "4",
        5 => "5",
        6 => "6",
        7 => "7",
        8 => "8",
        _ => "9",
    }
}

/// The digit characters for the values in `s`, read from the last entry back
/// to the first: `s` holds the digits of a number least significant first.
spec fn digits_text(s: Seq<u64>) -> Seq<char> {
    Seq::new(s.len(), |k: int| digit_char(s[s.len() - 1 - k] as int))
}

proof fn lemma_digits_text_push(s: Seq<u64>, d: u64)
    ensures
        digits_text(s.push(d)) =~= seq![digit_char(d as int)] + digits_text(s),
{
}

/// The identifier string for counter value `n`.
pub fn id_string(n: u64) -> (s: String)
    ensures
        s@ == id_text(n as nat),
{
    let mut rev: Vec<u64> = Vec::new();
    let mut m: u64 = n;
    loop
        invariant_except_break
            rev@.len() > 0 ==> m > 0 && decimal(n as nat) =~= decimal(m as nat) + digits_text(
                rev@,
            ),
        invariant
            forall|j: int| 0 <= j < rev@.len() ==> rev@[j] < 10,
            rev@.len() == 0 ==> m == n,
        ensures
            rev@.len() > 0,
            forall|j: int| 0 <= j < rev@.len() ==> rev@[j] < 10,
            decimal(n as nat) =~= digits_text(rev@),
        decreases m,
    {
        let d: u64 = m % 10;
        let ghost m_pre: u64 = m;
        let ghost rev_pre: Seq<u64> = rev@;
        rev.push(d);
        m = m / 10;
        proof {
            lemma_digits_text_push(rev_pre, d);
            if m_pre < 10 {
                assert(decimal(m_pre as nat) =~= seq![digit_char(d as int)]);
            } else {
                assert(decimal(m_pre as nat) == decimal((m_pre / 10) as nat) + seq![
                    digit_char((m_pre % 10) as int),
                ]);
            }
            if rev_pre.len() > 0 {
                assert(decimal(n as nat) =~= decimal(m_pre as nat) + digits_text(rev_pre));
            }
            assert(decimal(n as nat) =~= if m > 0 {
                decimal(m as nat) + digits_text(rev@)
            } else {
                digits_text(rev@)
            });
        }
        if m == 0 {
            break ;
        }
    }
    let mut s: String = String::from_str("trade_");
    let mut i: usize = rev.len();
    while i > 0
        invariant
            i <= rev@.len(),
            forall|j: int| 0 <= j < rev@.len() ==> rev@[j] < 10,
            s@ =~= "trade_"@ + digits_text(rev@).take(rev@.len() - i),
        decreases i,
    {
        let d: u64 = rev[i - 1];
        s.append(digit_str(d));
        i = i - 1;
        proof {
            let t = digits_text(rev@);
            assert(t[rev@.len() - i - 1] == digit_char(d as int));
            assert(t.take(rev@.len() - i) =~= t.take(rev@.len() - i - 1) + seq![
                t[rev@.len() - i - 1],
            ]);
        }
    }
    proof {
        assert(digits_text(rev@).take(rev@.len() - 0) =~= digits_text(rev@));
        assert(s@ =~= id_text(n as nat));
    }
    s
}

proof fn lemma_decimal_len(n: nat)
    ensures
        decimal(n).len() >= 1,
        decimal(n).len() == 1 <==> n < 10,
    decreases n,
{
    if n >= 10 {
        lemma_decimal_len(n / 10);
    }
}

/// Distinct numbers have distinct decimal digit sequences.
proof fn lemma_decimal_injective(a: nat, b: nat)
    ensures
        decimal(a) == decimal(b) ==> a == b,
    decreases a + b,
{
    if decimal(a) == decimal(b) {
        lemma_decimal_len(a);
        lemma_decimal_len(b);
        if a < 10 && b < 10 {
            assert(decimal(a)[0] == decimal(b)[0]);
        } else if a >= 10 && b >= 10 {
            let da = decimal(a / 10);
            let db = decimal(b / 10);
            assert(decimal(a).last() == digit_char((a % 10) as int));
            assert(decimal(b).last() == digit_char((b % 10) as int));
            assert(a % 10 == b % 10);
            assert(da =~= decimal(a).drop_last());
            assert(db =~= decimal(b).drop_last());
            lemma_decimal_injective(a / 10, b / 10);
            vstd::arithmetic::div_mod::lemma_fundamental_div_mod(a as int, 10);
            vstd::arithmetic::div_mod::lemma_fundamental_div_mod(b as int, 10);
        }
    }
}

/// Law: distinct counter values yield distinct identifier texts. Together
/// with `generate_id`'s counter growing by one per call, no two calls on one
/// allocator ever return the same identifier, and the counter values behind
/// the identifiers strictly increase in call order.
pub proof fn lemma_id_text_injective(a: nat, b: nat)
    ensures
        a != b ==> id_text(a) != id_text(b),
{
    if a != b && id_text(a) == id_text(b) {
        let p = "trade_"@;
        assert(decimal(a) =~= id_text(a).skip(p.len() as int));
        assert(decimal(b) =~= id_text(b).skip(p.len() as int));
        lemma_decimal_injective(a, b);
    }
}

/// Produces unique, strictly increasing trade identifiers from a counter
/// that starts at 1 and grows by exactly one per allocation.
pub struct IdentifierAllocator {
    next_id: u64,
}

impl IdentifierAllocator {
    /// The counter value the next allocation will use.
    pub closed spec fn counter(self) -> nat {
        self.next_id as nat
    }

    pub open spec fn wf(self) -> bool {
        self.counter() >= 1
    }

    pub fn new() -> (a: IdentifierAllocator)
        ensures
            a.wf(),
            a.counter() == 1,
    {
        IdentifierAllocator { next_id: 1 }
    }

    /// Allocates the next identifier: the text for the current counter value,
    /// after which the counter has grown by exactly one, so no later call can
    /// return the same text again (see `lemma_id_text_injective`).
    pub fn generate_id(&mut self) -> (id: String)
        requires
            old(self).wf(),
            old(self).counter() < u64::MAX,
        ensures
            final(self).wf(),
            final(self).counter() == old(self).counter() + 1,
            id@ == id_text(old(self).counter()),
    {
        let current: u64 = self.next_id;
        self.next_id = current + 1;
        id_string(current)
    }
}

} // verus!
