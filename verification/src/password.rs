//! Passwords out of random letters, digits and symbols.
use crate::outside::{self, random_alphanumeric, random_below};
use vstd::prelude::*;

verus! {

/// The symbols that may stand in a password.
pub const SYMBOLS: &'static str = "!@#$%^&*()-_=+[]{};:,.?~";

/// How many symbols stand in a password.
pub const SYMBOL_COUNT: usize = 4;

/// The fewest characters of a password of a root user.
pub const MIN_LENGTH: usize = 32;

/// How many letters and digits stand in a generated password of a database
/// user.
pub const USER_LETTERS: usize = 20;

/// Whether a character is one of the symbols.
pub open spec fn symbol(c: char) -> bool {
    exists|i: int| 0 <= i < SYMBOLS@.len() && #[trigger] SYMBOLS@[i] == c
}

/// How many symbols a text holds.
pub open spec fn symbols_in(text: Seq<char>) -> nat
    decreases text.len(),
{
    if text.len() == 0 {
        0
    } else {
        symbols_in(text.drop_last()) + (if symbol(text.last()) {
            1nat
        } else {
            0nat
        })
    }
}

/// A password of the given length: four symbols, letters and digits
/// otherwise, and a letter or digit at the end.
pub open spec fn secure_password(text: Seq<char>, length: int) -> bool {
    &&& text.len() == length
    &&& symbols_in(text) == SYMBOL_COUNT
    &&& forall|i: int|
        0 <= i < text.len() ==> symbol(#[trigger] text[i]) || outside::alphanumeric(text[i])
    &&& outside::alphanumeric(text.last())
}

proof fn lemma_symbols_in_add(a: Seq<char>, b: Seq<char>)
    ensures
        symbols_in(a + b) == symbols_in(a) + symbols_in(b),
    decreases b.len(),
{
    if b.len() == 0 {
        assert(a + b =~= a);
    } else {
        assert((a + b).drop_last() =~= a + b.drop_last());
        lemma_symbols_in_add(a, b.drop_last());
    }
}

proof fn lemma_alphanumeric_no_symbol(c: char)
    requires
        outside::alphanumeric(c),
    ensures
        !symbol(c),
{
    reveal_strlit("!@#$%^&*()-_=+[]{};:,.?~");
}

/// Puts the symbol with the given number before the character at a place.
pub fn insert_symbol(text: Vec<char>, at: usize, pick: usize) -> (r: Vec<char>)
    requires
        at <= text@.len(),
        pick < SYMBOLS@.len(),
    ensures
        r@ == text@.insert(at as int, SYMBOLS@[pick as int]),
{
    let mut r = text;
    r.insert(at, SYMBOLS.get_char(pick));
    r
}

/// The characters as a text.
fn text_of(chars: &Vec<char>) -> (r: String)
    ensures
        r@ == chars@,
{
    let mut r = String::new();
    let mut i: usize = 0;
    while i < chars.len()
        invariant
            i <= chars@.len(),
            r@ =~= chars@.take(i as int),
        decreases chars@.len() - i,
    {
        r.push(chars[i]);
        i += 1;
    }
    assert(r@ =~= chars@);
    r
}

/// A random password with the given number of letters and digits.
pub fn random_password(letters: usize) -> (r: String)
    requires
        0 < letters <= usize::MAX - SYMBOL_COUNT,
    ensures
        secure_password(r@, letters + SYMBOL_COUNT),
{
    let mut text: Vec<char> = Vec::new();
    let mut drawn: usize = 0;
    while drawn < letters
        invariant
            drawn <= letters,
            text@.len() == drawn,
            symbols_in(text@) == 0,
            forall|i: int| 0 <= i < text@.len() ==> outside::alphanumeric(#[trigger] text@[i]),
        decreases letters - drawn,
    {
        let c = random_alphanumeric();
        proof {
            lemma_alphanumeric_no_symbol(c);
            assert(text@.push(c).drop_last() =~= text@);
        }
        text.push(c);
        drawn += 1;
    }
    let mut inserted: usize = 0;
    while inserted < SYMBOL_COUNT
        invariant
            inserted <= SYMBOL_COUNT,
            0 < letters <= usize::MAX - SYMBOL_COUNT,
            text@.len() == letters + inserted,
            symbols_in(text@) == inserted,
            forall|i: int|
                0 <= i < text@.len() ==> symbol(#[trigger] text@[i]) || outside::alphanumeric(
                    text@[i],
                ),
            outside::alphanumeric(text@.last()),
        decreases SYMBOL_COUNT - inserted,
    {
        let at = random_below(text.len());
        proof {
            reveal_strlit("!@#$%^&*()-_=+[]{};:,.?~");
        }
        let pick = random_below(SYMBOLS.unicode_len());
        let ghost before = text@;
        text = insert_symbol(text, at, pick);
        proof {
            let c = SYMBOLS@[pick as int];
            let head = before.take(at as int);
            let tail = before.skip(at as int);
            assert(symbol(c));
            assert(before =~= head + tail);
            assert(text@ =~= head + seq![c] + tail);
            lemma_symbols_in_add(head, tail);
            lemma_symbols_in_add(head, seq![c]);
            lemma_symbols_in_add(head + seq![c], tail);
            assert(seq![c].drop_last() =~= Seq::<char>::empty());
            assert(symbols_in(Seq::<char>::empty()) == 0);
            assert(symbols_in(seq![c]) == 1) by {
                reveal_with_fuel(symbols_in, 2);
            }
            assert(text@.last() == before.last());
            assert forall|i: int| 0 <= i < text@.len() implies symbol(#[trigger] text@[i])
                || outside::alphanumeric(text@[i]) by {
                if i < at {
                    assert(text@[i] == before[i]);
                } else if i > at {
                    assert(text@[i] == before[i - 1]);
                }
            }
        }
        inserted += 1;
    }
    text_of(&text)
}

/// A letter or a digit.
pub open spec fn letter_or_digit(c: char) -> bool {
    'a' <= c <= 'z' || 'A' <= c <= 'Z' || '0' <= c <= '9'
}

proof fn lemma_symbols_are_counted(text: Seq<char>)
    requires
        forall|i: int|
            0 <= i < text.len() ==> symbol(#[trigger] text[i]) || outside::alphanumeric(text[i]),
    ensures
        symbols_in(text) == text.filter(|c: char| !letter_or_digit(c)).len(),
    decreases text.len(),
{
    reveal(Seq::filter);
    if text.len() > 0 {
        let c = text.last();
        assert(symbol(text[text.len() - 1]) || outside::alphanumeric(text[text.len() - 1]));
        assert forall|i: int| 0 <= i < text.drop_last().len() implies symbol(
            #[trigger] text.drop_last()[i],
        ) || outside::alphanumeric(text.drop_last()[i]) by {
            assert(text.drop_last()[i] == text[i]);
        }
        lemma_symbols_are_counted(text.drop_last());
        if outside::alphanumeric(c) {
            lemma_alphanumeric_no_symbol(c);
        }
        assert(symbol(c) ==> !letter_or_digit(c)) by {
            reveal_strlit("!@#$%^&*()-_=+[]{};:,.?~");
        }
    }
}

/// A password holds exactly four characters that are no letters and no digits.
/// Each of them is one of the symbols, and none of them comes last.
pub proof fn law_what_passwords_hold(text: Seq<char>, length: int)
    requires
        secure_password(text, length),
    ensures
        text.len() == length,
        text.filter(|c: char| !letter_or_digit(c)).len() == 4,
        forall|i: int|
            0 <= i < text.len() ==> letter_or_digit(#[trigger] text[i])
                || "!@#$%^&*()-_=+[]{};:,.?~"@.contains(text[i]),
        text.len() > 0,
        letter_or_digit(text.last()),
{
    lemma_symbols_are_counted(text);
    assert forall|i: int| 0 <= i < text.len() implies letter_or_digit(#[trigger] text[i])
        || "!@#$%^&*()-_=+[]{};:,.?~"@.contains(text[i]) by {
        if !outside::alphanumeric(text[i]) {
            assert(symbol(text[i]));
        }
    }
}

/// A password of a root user has the length that was asked for, but never fewer
/// than 32 characters.
pub proof fn law_passwords_are_long(len: usize)
    ensures
        password_length(len) >= 32,
        password_length(len) >= len,
        password_length(len) == len || password_length(len) == 32,
{
}

/// The length that a request for a password of `len` characters comes out as.
pub open spec fn password_length(len: usize) -> int {
    if len < MIN_LENGTH {
        MIN_LENGTH as int
    } else {
        len as int
    }
}

/// A random password for a root user, of at least 32 characters.
pub fn generate_secure_password(len: usize) -> (r: String)
    ensures
        secure_password(r@, password_length(len)),
{
    let n = if len < MIN_LENGTH {
        MIN_LENGTH
    } else {
        len
    };
    random_password(n - SYMBOL_COUNT)
}

} // verus!
