//! The identifier generator that stamps elements needing globally unique IDs
//! (tracked-change and revision markers).
//!
//! A generator issues string-encoded integers, strictly increasing from 1
//! within an epoch; `reset` starts a new epoch. A deterministic generator,
//! meant for reproducible output in test harnesses, always returns the same
//! placeholder value instead.

use vstd::prelude::*;

verus! {

use vstd::string::StringExecFns;

/// The decimal digit character for one digit value.
pub open spec fn digit_char(d: nat) -> char {
    if d == 0 {
        '0'
    } else if d == 1 {
        '1'
    } else if d == 2 {
        '2'
    } else if d == 3 {
        '3'
    } else if d == 4 {
        '4'
    } else if d == 5 {
        '5'
    } else if d == 6 {
        '6'
    } else if d == 7 {
        '7'
    } else if d == 8 {
        '8'
    } else {
        '9'
    }
}

/// The digit value of a decimal digit character.
pub open spec fn digit_char_val(c: char) -> nat {
    if c == '0' {
        0
    } else if c == '1' {
        1
    } else if c == '2' {
        2
    } else if c == '3' {
        3
    } else if c == '4' {
        4
    } else if c == '5' {
        5
    } else if c == '6' {
        6
    } else if c == '7' {
        7
    } else if c == '8' {
        8
    } else {
        9
    }
}

/// The decimal representation of a number, most significant digit first,
/// without leading zeros (a lone zero for 0).
pub open spec fn dec_str(n: nat) -> Seq<char>
    decreases n,
{
    if n < 10 {
        seq![digit_char(n)]
    } else {
        dec_str(n / 10) + seq![digit_char(n % 10)]
    }
}

/// The number a decimal digit string denotes.
pub open spec fn dec_val(s: Seq<char>) -> nat
    decreases s.len(),
{
    if s.len() == 0 {
        0
    } else {
        dec_val(s.drop_last()) * 10 + digit_char_val(s.last())
    }
}

/// `dec_str` is faithful: the string it produces denotes the number it was
/// made from.
pub proof fn lemma_dec_str_val(n: nat)
    ensures
        dec_val(dec_str(n)) == n,
        dec_str(n).len() >= 1,
    decreases n,
{
    if n < 10 {
        let s = seq![digit_char(n)];
        assert(s.drop_last() =~= Seq::<char>::empty());
        assert(dec_val(s) == dec_val(Seq::<char>::empty()) * 10 + digit_char_val(digit_char(n)));
    } else {
        lemma_dec_str_val(n / 10);
        let s = dec_str(n / 10) + seq![digit_char(n % 10)];
        assert(s.drop_last() =~= dec_str(n / 10));
        assert(s.last() == digit_char(n % 10));
        vstd::arithmetic::div_mod::lemma_fundamental_div_mod(n as int, 10);
    }
}

/// Identifiers issued for increasing counter values strictly increase in the
/// number they denote; in particular no identifier is ever repeated within an
/// epoch.
pub proof fn lemma_ids_strictly_increase(a: nat, b: nat)
    requires
        a < b,
    ensures
        dec_val(dec_str(a)) < dec_val(dec_str(b)),
        dec_str(a) != dec_str(b),
{
    lemma_dec_str_val(a);
    lemma_dec_str_val(b);
}

/// The decimal digit string of one digit.
fn digit_str(d: usize) -> (r: &'static str)
    requires
        d < 10,
    ensures
        r@ == seq![digit_char(d as nat)],
{
    if d == 0 {
        proof {
            reveal_strlit("0");
            assert("0"@ =~= seq!['0']);
        }
        "0"
    } else if d == 1 {
        proof {
            reveal_strlit("1");
            assert("1"@ =~= seq!['1']);
        }
        "1"
    } else if d == 2 {
        proof {
            reveal_strlit("2");
            assert("2"@ =~= seq!['2']);
        }
        "2"
    } else if d == 3 {
        proof {
            reveal_strlit("3");
            assert("3"@ =~= seq!['3']);
        }
        "3"
    } else if d == 4 {
        proof {
            reveal_strlit("4");
            assert("4"@ =~= seq!['4']);
        }
        "4"
    } else if d == 5 {
        proof {
            reveal_strlit("5");
            assert("5"@ =~= seq!['5']);
        }
        "5"
    } else if d == 6 {
        proof {
            reveal_strlit("6");
            assert("6"@ =~= seq!['6']);
        }
        "6"
    } else if d == 7 {
        proof {
            reveal_strlit("7");
            assert("7"@ =~= seq!['7']);
        }
        "7"
    } else if d == 8 {
        proof {
            reveal_strlit("8");
            assert("8"@ =~= seq!['8']);
        }
        "8"
    } else {
        proof {
            reveal_strlit("9");
            assert("9"@ =~= seq!['9']);
        }
        "9"
    }
}

/// Append the decimal representation of a number.
fn push_dec(out: &mut String, n: usize)
    ensures
        final(out)@ == old(out)@ + dec_str(n as nat),
    decreases n,
{
    if n < 10 {
        out.append(digit_str(n));
    } else {
        push_dec(out, n / 10);
        out.append(digit_str(n % 10));
        proof {
            assert(old(out)@ + dec_str((n / 10) as nat) + seq![digit_char((n % 10) as nat)]
                =~= old(out)@ + dec_str(n as nat));
        }
    }
}

/// The decimal representation of a number as a string.
fn dec_string(n: usize) -> (r: String)
    ensures
        r@ == dec_str(n as nat),
{
    let mut r = String::new();
    push_dec(&mut r, n);
    proof {
        assert(Seq::<char>::empty() + dec_str(n as nat) =~= dec_str(n as nat));
    }
    r
}

/// The placeholder identifier a deterministic generator returns.
pub const PLACEHOLDER_ID: usize = 123;

/// The identifier generator: a counter starting at 1, shared by everything
/// that builds one document, with an explicit reset reserved for isolating
/// independent runs. A deterministic generator instead returns the
/// placeholder value on every call and never advances.
pub struct IdGenerator {
    counter: usize,
    deterministic: bool,
}

impl IdGenerator {
    /// The value the next identifier will denote.
    pub closed spec fn spec_counter(self) -> nat {
        self.counter as nat
    }

    /// Whether this generator returns the placeholder value.
    pub closed spec fn is_deterministic(self) -> bool {
        self.deterministic
    }

    /// A fresh generator: identifiers count up from 1.
    pub fn new() -> (r: IdGenerator)
        ensures
            r.spec_counter() == 1,
            !r.is_deterministic(),
    {
        IdGenerator { counter: 1, deterministic: false }
    }

    /// A deterministic generator for reproducible output: every identifier
    /// is the placeholder value.
    pub fn deterministic() -> (r: IdGenerator)
        ensures
            r.spec_counter() == 1,
            r.is_deterministic(),
    {
        IdGenerator { counter: 1, deterministic: true }
    }

    /// Issue the next identifier.
    pub fn next_id(&mut self) -> (r: String)
        requires
            old(self).spec_counter() < usize::MAX as nat,
        ensures
            old(self).is_deterministic() ==> *final(self) == *old(self)
                && r@ == dec_str(PLACEHOLDER_ID as nat),
            !old(self).is_deterministic() ==> r@ == dec_str(old(self).spec_counter())
                && final(self).spec_counter() == old(self).spec_counter() + 1
                && !final(self).is_deterministic(),
    {
        if self.deterministic {
            dec_string(PLACEHOLDER_ID)
        } else {
            let id = self.counter;
            self.counter = id + 1;
            dec_string(id)
        }
    }

    /// Start a new epoch: the next identifier denotes 1 again. Not meant to
    /// run while other threads still generate — serialize resets against
    /// generation.
    pub fn reset(&mut self)
        ensures
            final(self).spec_counter() == 1,
            final(self).is_deterministic() == old(self).is_deterministic(),
    {
        self.counter = 1;
    }
}

/// The capability of elements that stamp history (revision) identifiers:
/// `generate` draws a fresh identifier from the generator the document build
/// shares, `clear_history_id` starts a new epoch.
pub trait HistoryId {
    /// Draw the next identifier.
    fn generate(&self, ids: &mut IdGenerator) -> (r: String)
        requires
            old(ids).spec_counter() < usize::MAX as nat,
        ensures
            old(ids).is_deterministic() ==> *final(ids) == *old(ids)
                && r@ == dec_str(PLACEHOLDER_ID as nat),
            !old(ids).is_deterministic() ==> r@ == dec_str(old(ids).spec_counter())
                && final(ids).spec_counter() == old(ids).spec_counter() + 1
                && !final(ids).is_deterministic(),
    {
        ids.next_id()
    }

    /// Start a new epoch.
    fn clear_history_id(&self, ids: &mut IdGenerator)
        ensures
            final(ids).spec_counter() == 1,
            final(ids).is_deterministic() == old(ids).is_deterministic(),
    {
        ids.reset()
    }
}

} // verus!
