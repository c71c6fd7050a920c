//! Laws of texts.

use crate::text::{contains, decimal, digit, hex, occurs_at, str_eq, to_decimal, to_hex};
use vstd::prelude::*;

verus! {

/// The number that decimal digits denote.
pub open spec fn number_of(digits: Seq<char>) -> int {
    digits.fold_left(0int, |n: int, c: char| 10 * n + (c as int - '0' as int))
}

/// The number that a hexadecimal digit denotes.
pub open spec fn nibble(c: char) -> int {
    if '0' <= c && c <= '9' {
        c as int - '0' as int
    } else {
        c as int - 'a' as int + 10
    }
}

proof fn lemma_decimal(n: nat)
    ensures
        number_of(decimal(n)) == n,
        decimal(n).len() > 0,
        forall|i: int|
            0 <= i < decimal(n).len() ==> '0' <= #[trigger] decimal(n)[i] && decimal(n)[i] <= '9',
        n > 0 ==> decimal(n)[0] != '0',
        n < 10 ==> decimal(n).len() == 1,
    decreases n,
{
    let f = |n: int, c: char| 10 * n + (c as int - '0' as int);
    reveal_with_fuel(Seq::fold_left, 2);
    if n >= 10 {
        lemma_decimal(n / 10);
        let front = decimal(n / 10);
        assert(decimal(n).drop_last() =~= front);
        assert(number_of(decimal(n)) == f(number_of(front), decimal(n).last()));
    } else {
        assert(decimal(n).drop_last() =~= Seq::<char>::empty());
    }
}

/// The decimal text of a number denotes the number, in digits alone and without a leading zero.
pub proof fn decimals_denote_their_number(n: u64, text: String)
    requires
        call_ensures(to_decimal, (n,), text),
    ensures
        number_of(text@) == n,
        forall|i: int| 0 <= i < text@.len() ==> '0' <= #[trigger] text@[i] && text@[i] <= '9',
        text@.len() > 0,
        text@.len() > 1 ==> text@[0] != '0',
{
    lemma_decimal(n as nat);
}

/// The hexadecimal text of bytes gives each byte back, from two digits, the high one first.
pub proof fn hexadecimals_give_back_the_bytes(bytes: &[u8], text: String)
    requires
        call_ensures(to_hex, (bytes,), text),
    ensures
        text@.len() == 2 * bytes@.len(),
        forall|i: int|
            0 <= i < bytes@.len() ==> #[trigger] bytes@[i] == 16 * nibble(text@[2 * i]) + nibble(
                text@[2 * i + 1],
            ),
        forall|i: int|
            0 <= i < text@.len() ==> ('0' <= #[trigger] text@[i] && text@[i] <= '9') || ('a'
                <= text@[i] && text@[i] <= 'f'),
{
    assert forall|i: int| 0 <= i < bytes@.len() implies #[trigger] bytes@[i] == 16 * nibble(
        text@[2 * i],
    ) + nibble(text@[2 * i + 1]) by {
        let b = bytes@[i] as int;
        assert(text@[2 * i] == digit(b / 16));
        assert((2 * i + 1) / 2 == i && (2 * i + 1) % 2 == 1);
        assert(text@[2 * i + 1] == digit(b % 16));
    }
}

/// Different bytes have different hexadecimal texts.
pub proof fn lemma_hex_is_injective(a: Seq<u8>, b: Seq<u8>)
    requires
        hex(a) == hex(b),
    ensures
        a == b,
{
    assert(hex(a).len() == 2 * a.len() && hex(b).len() == 2 * b.len());
    assert forall|i: int| 0 <= i < a.len() implies a[i] == b[i] by {
        assert(hex(a)[2 * i] == digit(a[i] as int / 16));
        assert(hex(b)[2 * i] == digit(b[i] as int / 16));
        assert((2 * i + 1) / 2 == i && (2 * i + 1) % 2 == 1);
        assert(hex(a)[2 * i + 1] == digit(a[i] as int % 16));
        assert(hex(b)[2 * i + 1] == digit(b[i] as int % 16));
    }
    assert(a =~= b);
}

/// A part is found exactly if the whole is made of something, the part, and something.
pub proof fn parts_are_found_where_they_stand(whole: &str, part: &str, found: bool)
    requires
        call_ensures(contains, (whole, part), found),
    ensures
        found == exists|before: Seq<char>, after: Seq<char>| whole@ == #[trigger] (before
            + part@ + after),
{
    if found {
        let at = choose|at: int| #[trigger] occurs_at(whole@, part@, at);
        let before = whole@.take(at);
        let after = whole@.skip(at + part@.len());
        assert(whole@ =~= before + part@ + after);
    }
    assert forall|before: Seq<char>, after: Seq<char>|
        whole@ == #[trigger] (before + part@ + after) implies found by {
        assert(whole@.subrange(before.len() as int, (before.len() + part@.len()) as int) =~= part@);
        assert(occurs_at(whole@, part@, before.len() as int));
    }
}

/// Texts are found equal exactly if they hold the same characters.
pub proof fn equal_texts_hold_the_same_characters(a: &str, b: &str, same: bool)
    requires
        call_ensures(str_eq, (a, b), same),
    ensures
        same == (a@.len() == b@.len() && forall|i: int| 0 <= i < a@.len() ==> a@[i] == b@[i]),
{
    if a@.len() == b@.len() && forall|i: int| 0 <= i < a@.len() ==> a@[i] == b@[i] {
        assert(a@ =~= b@);
    }
}

} // verus!
