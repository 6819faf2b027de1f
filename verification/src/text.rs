//! Texts: comparison, quoting for SQL statements, numbers, and maps keyed by
//! text.
use vstd::prelude::*;

verus! {

/// Whether two texts hold the same characters.
pub fn same_text(a: &str, b: &str) -> (r: bool)
    ensures
        r == (a@ == b@),
{
    a.to_string() == b.to_string()
}

/// The text of an optional field, or a fallback where the field is absent.
pub open spec fn text_or(text: Option<Seq<char>>, fallback: Seq<char>) -> Seq<char> {
    match text {
        Some(t) => t,
        None => fallback,
    }
}

/// A copy of the text of an optional field, or of the fallback.
pub fn text_or_else(text: &Option<String>, fallback: &str) -> (r: String)
    ensures
        r@ == text_or(text.deep_view(), fallback@),
{
    match text {
        Some(t) => t.clone(),
        None => fallback.to_string(),
    }
}

/// A copy of an optional text.
pub fn copy_text(text: &Option<String>) -> (r: Option<String>)
    ensures
        r.deep_view() == text.deep_view(),
{
    match text {
        Some(t) => Some(t.clone()),
        None => None,
    }
}

/// Two texts in a row.
pub fn joined(a: &str, b: &str) -> (r: String)
    ensures
        r@ == a@ + b@,
{
    let mut r = a.to_string();
    r.append(b);
    r
}

/// Three texts in a row.
pub fn joined3(a: &str, b: &str, c: &str) -> (r: String)
    ensures
        r@ == a@ + b@ + c@,
{
    let mut r = joined(a, b);
    r.append(c);
    r
}

/// A part stands in a text at a place.
pub open spec fn part_at(text: Seq<char>, part: Seq<char>, at: int) -> bool {
    0 <= at && at + part.len() <= text.len() && text.subrange(at, at + part.len()) == part
}

/// A part stands somewhere in a text.
pub open spec fn holds(text: Seq<char>, part: Seq<char>) -> bool {
    exists|at: int| part_at(text, part, at)
}

/// A text starts with itself.
pub proof fn law_text_starts_with_itself(text: Seq<char>)
    ensures
        part_at(text, text, 0),
{
    assert(text.subrange(0, text.len() as int) =~= text);
}

/// A part stands at a place exactly if the text is made of something as long as
/// the way to the place, of the part, and of a rest.
pub proof fn law_parts_make_up_the_text(
    before: Seq<char>,
    part: Seq<char>,
    rest: Seq<char>,
    text: Seq<char>,
    at: int,
)
    ensures
        part_at(before + part + rest, part, before.len() as int),
        holds(before + part + rest, part),
        part_at(text, part, at) ==> at + part.len() <= text.len() && text == text.take(at) + part
            + text.skip(at + part.len()),
        holds(text, part) ==> exists|i: int|
            #![trigger text.take(i)]
            0 <= i && i + part.len() <= text.len() && text == text.take(i) + part + text.skip(
                i + part.len(),
            ),
{
    let whole = before + part + rest;
    let place = before.len() as int;
    assert(whole.subrange(place, place + part.len()) =~= part);
    assert(part_at(whole, part, place));
    assert forall|i: int| part_at(text, part, i) implies text == text.take(i) + part + text.skip(
        i + part.len(),
    ) by {
        assert(text =~= text.take(i) + text.subrange(i, i + part.len()) + text.skip(
            i + part.len(),
        ));
    }
    if holds(text, part) {
        let i = choose|i: int| part_at(text, part, i);
        assert(text.take(i).len() == i);
    }
}

/// An optional text stands for itself where it is given, and for the fallback
/// where it is not.
pub proof fn law_given_text_wins(given: Seq<char>, fallback: Seq<char>)
    ensures
        text_or(Some(given), fallback) == given,
        text_or(None, fallback) == fallback,
{
}

/// The characters of a text.
pub fn chars_of(text: &str) -> (r: Vec<char>)
    ensures
        r@ == text@,
{
    let mut r: Vec<char> = Vec::new();
    for c in it: text.chars()
        invariant
            it.seq() == text@,
            r@ =~= text@.take(it.index() as int),
    {
        r.push(c);
    }
    assert(r@ =~= text@);
    r
}

/// Whether a part stands in a text at a place.
fn stands_at(text: &Vec<char>, part: &Vec<char>, at: usize) -> (r: bool)
    requires
        at + part@.len() <= text@.len(),
    ensures
        r == part_at(text@, part@, at as int),
{
    let size = text.len();
    let mut i: usize = 0;
    while i < part.len()
        invariant
            i <= part@.len(),
            size == text@.len(),
            at + part@.len() <= size,
            forall|k: int| 0 <= k < i ==> text@[at + k] == part@[k],
        decreases part@.len() - i,
    {
        if text[at + i] != part[i] {
            assert(text@.subrange(at as int, at + part@.len())[i as int] != part@[i as int]);
            return false;
        }
        i += 1;
    }
    assert(text@.subrange(at as int, at + part@.len()) =~= part@);
    true
}

/// Whether a part stands somewhere in a text.
pub fn text_holds(text: &str, part: &str) -> (r: bool)
    ensures
        r == holds(text@, part@),
{
    let whole = chars_of(text);
    let wanted = chars_of(part);
    if wanted.len() > whole.len() {
        return false;
    }
    let last: usize = whole.len() - wanted.len();
    let mut at: usize = 0;
    while at <= last
        invariant
            at <= last + 1,
            last + wanted@.len() == whole@.len(),
            whole@ == text@,
            wanted@ == part@,
            forall|k: int| 0 <= k < at ==> !part_at(text@, part@, k),
        decreases last + 1 - at,
    {
        if stands_at(&whole, &wanted, at) {
            return true;
        }
        if at == last {
            return false;
        }
        at += 1;
    }
    false
}

/// Whether a text starts with a part.
pub fn text_starts_with(text: &str, part: &str) -> (r: bool)
    ensures
        r == part_at(text@, part@, 0),
{
    let whole = chars_of(text);
    let wanted = chars_of(part);
    wanted.len() <= whole.len() && stands_at(&whole, &wanted, 0)
}

/// Whether a text ends with a part.
pub fn text_ends_with(text: &str, part: &str) -> (r: bool)
    ensures
        r == part_at(text@, part@, text@.len() - part@.len()),
{
    let whole = chars_of(text);
    let wanted = chars_of(part);
    if wanted.len() > whole.len() {
        return false;
    }
    let at: usize = whole.len() - wanted.len();
    stands_at(&whole, &wanted, at)
}

/// The text with every `mark` written twice.
pub open spec fn doubled(text: Seq<char>, mark: char) -> Seq<char>
    decreases text.len(),
{
    if text.len() == 0 {
        seq![]
    } else {
        (if text[0] == mark {
            seq![mark, mark]
        } else {
            seq![text[0]]
        }) + doubled(text.drop_first(), mark)
    }
}

proof fn lemma_doubled_push(text: Seq<char>, c: char, mark: char)
    ensures
        doubled(text.push(c), mark) == doubled(text, mark) + (if c == mark {
            seq![mark, mark]
        } else {
            seq![c]
        }),
    decreases text.len(),
{
    let last = if c == mark {
        seq![mark, mark]
    } else {
        seq![c]
    };
    if text.len() == 0 {
        assert(text.push(c).drop_first() =~= seq![]);
        assert(doubled(text.push(c).drop_first(), mark) =~= seq![]);
        assert(doubled(text.push(c), mark) =~= doubled(text, mark) + last);
    } else {
        lemma_doubled_push(text.drop_first(), c, mark);
        assert(text.push(c).drop_first() =~= text.drop_first().push(c));
        assert(text.push(c)[0] == text[0]);
        assert(doubled(text.push(c), mark) =~= doubled(text, mark) + last);
    }
}

/// Writes every `mark` of the text twice.
pub fn double_mark(text: &str, mark: char) -> (r: String)
    ensures
        r@ == doubled(text@, mark),
{
    let mut r = String::new();
    assert(text@.take(0) =~= seq![]);
    for c in it: text.chars()
        invariant
            it.seq() == text@,
            r@ == doubled(text@.take(it.index() as int), mark),
    {
        let ghost i = it.index() as int;
        proof {
            lemma_doubled_push(text@.take(i), c, mark);
            assert(text@.take(i + 1) =~= text@.take(i).push(c));
        }
        let ghost before = r@;
        if c == mark {
            r.push(mark);
        }
        r.push(c);
        assert(r@ =~= before + (if c == mark {
            seq![mark, mark]
        } else {
            seq![c]
        }));
    }
    assert(text@.take(text@.len() as int) =~= text@);
    r
}

/// An identifier between backticks, with its own backticks written twice.
pub open spec fn quoted_ident(name: Seq<char>) -> Seq<char> {
    "`"@ + doubled(name, '`') + "`"@
}

/// Quotes an identifier for a SQL statement.
pub fn quote_ident(name: &str) -> (r: String)
    ensures
        r@ == quoted_ident(name@),
{
    let inner = double_mark(name, '`');
    joined3("`", inner.as_str(), "`")
}

/// Marks are written twice wherever they stand, and all other characters stay
/// as they are: a text is doubled piece by piece.
pub proof fn law_doubling_goes_piece_by_piece(a: Seq<char>, b: Seq<char>, c: char, mark: char)
    ensures
        doubled(a + b, mark) == doubled(a, mark) + doubled(b, mark),
        doubled(seq![c], mark) == (if c == mark {
            seq![c, c]
        } else {
            seq![c]
        }),
        doubled(seq![], mark).len() == 0,
    decreases a.len(),
{
    assert(seq![c].drop_first() =~= seq![]);
    assert(doubled(seq![c].drop_first(), mark) =~= seq![]);
    assert(doubled(seq![c], mark) =~= if c == mark {
        seq![c, c]
    } else {
        seq![c]
    });
    if a.len() == 0 {
        assert(a + b =~= b);
        assert(doubled(a + b, mark) =~= doubled(a, mark) + doubled(b, mark));
    } else {
        law_doubling_goes_piece_by_piece(a.drop_first(), b, c, mark);
        assert((a + b).drop_first() =~= a.drop_first() + b);
        assert(doubled(a + b, mark) =~= doubled(a, mark) + doubled(b, mark));
    }
}

/// Where a text that starts inside a pair of quotes leaves it: the first
/// mark that is not one half of a doubled mark. The length of the text where
/// there is none.
pub open spec fn closing_mark(text: Seq<char>, mark: char) -> int
    decreases text.len(),
{
    if text.len() == 0 {
        0
    } else if text[0] != mark {
        1 + closing_mark(text.drop_first(), mark)
    } else if text.len() > 1 && text[1] == mark {
        2 + closing_mark(text.skip(2), mark)
    } else {
        0
    }
}

/// What a text between quotes stands for: every doubled mark read as one.
pub open spec fn undoubled(text: Seq<char>, mark: char) -> Seq<char>
    decreases text.len(),
{
    if text.len() == 0 {
        seq![]
    } else if text[0] == mark && text.len() > 1 {
        seq![mark] + undoubled(text.skip(2), mark)
    } else {
        seq![text[0]] + undoubled(text.drop_first(), mark)
    }
}

/// Reading a text back out of its quotes gives the text that was quoted.
pub proof fn law_quoting_is_undone(text: Seq<char>, mark: char)
    ensures
        undoubled(doubled(text, mark), mark) == text,
    decreases text.len(),
{
    if text.len() > 0 {
        let rest = text.drop_first();
        law_quoting_is_undone(rest, mark);
        let d = doubled(text, mark);
        if text[0] == mark {
            assert(d.skip(2) =~= doubled(rest, mark));
            assert(undoubled(d, mark) =~= text);
        } else {
            assert(d.drop_first() =~= doubled(rest, mark));
            assert(undoubled(d, mark) =~= text);
        }
    }
}

/// A quoted text ends where its closing mark was put, whatever the text holds
/// and whatever follows, as long as what follows does not start with the mark.
pub proof fn law_quoted_text_stays_inside(text: Seq<char>, mark: char, rest: Seq<char>)
    requires
        rest.len() > 0 ==> rest[0] != mark,
    ensures
        closing_mark(doubled(text, mark) + seq![mark] + rest, mark) == doubled(text, mark).len(),
    decreases text.len(),
{
    let whole = doubled(text, mark) + seq![mark] + rest;
    if text.len() == 0 {
        assert(whole[0] == mark);
        assert(whole.len() > 1 ==> whole[1] == rest[0]);
    } else {
        let tail = text.drop_first();
        law_quoted_text_stays_inside(tail, mark, rest);
        let inner = doubled(tail, mark) + seq![mark] + rest;
        if text[0] == mark {
            assert(whole.skip(2) =~= inner);
        } else {
            assert(whole.drop_first() =~= inner);
        }
    }
}

/// What is quoted can be told from what follows: where two texts that start
/// inside quotes are the same, so are the quoted texts and what comes after the
/// closing marks.
pub proof fn law_quoted_text_can_be_told_apart(
    a: Seq<char>,
    after_a: Seq<char>,
    b: Seq<char>,
    after_b: Seq<char>,
    mark: char,
)
    requires
        after_a.len() > 0 ==> after_a[0] != mark,
        after_b.len() > 0 ==> after_b[0] != mark,
        doubled(a, mark) + seq![mark] + after_a == doubled(b, mark) + seq![mark] + after_b,
    ensures
        a == b,
        after_a == after_b,
{
    let whole = doubled(a, mark) + seq![mark] + after_a;
    let other = doubled(b, mark) + seq![mark] + after_b;
    law_quoted_text_stays_inside(a, mark, after_a);
    law_quoted_text_stays_inside(b, mark, after_b);
    let n = doubled(a, mark).len() as int;
    assert(whole.take(n) =~= doubled(a, mark));
    assert(other.take(n) =~= doubled(b, mark));
    assert(whole.skip(n + 1) =~= after_a);
    assert(other.skip(n + 1) =~= after_b);
    law_quoting_is_undone(a, mark);
    law_quoting_is_undone(b, mark);
}

/// Two different names never share a quoted form.
pub proof fn law_quoted_names_differ(a: Seq<char>, b: Seq<char>)
    requires
        a != b,
    ensures
        quoted_ident(a) != quoted_ident(b),
{
    reveal_strlit("`");
    law_quoting_is_undone(a, '`');
    law_quoting_is_undone(b, '`');
    let qa = quoted_ident(a);
    let qb = quoted_ident(b);
    if qa == qb {
        assert(qa.subrange(1, qa.len() - 1) =~= doubled(a, '`'));
        assert(qb.subrange(1, qb.len() - 1) =~= doubled(b, '`'));
    }
}

/// The pieces of a text between the marks in it, one more than there are
/// marks.
pub open spec fn pieces(text: Seq<char>, mark: char) -> Seq<Seq<char>>
    decreases text.len(),
{
    if text.len() == 0 {
        seq![seq![]]
    } else {
        let before = pieces(text.drop_last(), mark);
        if text.last() == mark {
            before.push(seq![])
        } else {
            before.update(before.len() - 1, before.last().push(text.last()))
        }
    }
}

/// There is at least one piece.
pub proof fn law_pieces_of_every_text(text: Seq<char>, mark: char)
    ensures
        pieces(text, mark).len() > 0,
    decreases text.len(),
{
    if text.len() > 0 {
        law_pieces_of_every_text(text.drop_last(), mark);
    }
}

/// The pieces in a row, with a mark between each and the next.
pub open spec fn rejoined(parts: Seq<Seq<char>>, mark: char) -> Seq<char>
    decreases parts.len(),
{
    if parts.len() == 0 {
        seq![]
    } else if parts.len() == 1 {
        parts[0]
    } else {
        rejoined(parts.drop_last(), mark).push(mark) + parts.last()
    }
}

/// The pieces of a text hold no mark, and put together again they make up the
/// text.
pub proof fn law_pieces_make_up_the_text(text: Seq<char>, mark: char)
    ensures
        rejoined(pieces(text, mark), mark) == text,
        forall|i: int|
            0 <= i < pieces(text, mark).len() ==> !(#[trigger] pieces(text, mark)[i]).contains(
                mark,
            ),
    decreases text.len(),
{
    let parts = pieces(text, mark);
    if text.len() == 0 {
        assert(rejoined(parts, mark) =~= text);
    } else {
        let init = text.drop_last();
        let c = text.last();
        let before = pieces(init, mark);
        law_pieces_make_up_the_text(init, mark);
        law_pieces_of_every_text(init, mark);
        if c == mark {
            assert(parts.drop_last() =~= before);
            assert(rejoined(parts, mark) =~= text);
        } else {
            let n = before.len() - 1;
            assert(parts.drop_last() =~= before.drop_last());
            assert(rejoined(parts, mark) =~= rejoined(before, mark).push(c));
            assert(rejoined(parts, mark) =~= text);
            assert forall|i: int| 0 <= i < parts.len() implies !(#[trigger] parts[i]).contains(
                mark,
            ) by {
                if i == n {
                    assert(parts[n] == before[n].push(c));
                    assert forall|k: int| 0 <= k < parts[n].len() implies parts[n][k] != mark by {
                        if k < before[n].len() {
                            assert(before[n].contains(before[n][k]));
                        }
                    }
                } else {
                    assert(parts[i] == before[i]);
                }
            }
        }
    }
}

proof fn lemma_last_piece(text: Seq<char>, part: Seq<char>, mark: char)
    requires
        !part.contains(mark),
    ensures
        pieces(text.push(mark) + part, mark) == pieces(text, mark).push(part),
    decreases part.len(),
{
    let whole = text.push(mark) + part;
    if part.len() == 0 {
        assert(whole =~= text.push(mark));
        assert(whole.drop_last() =~= text);
        assert(part =~= seq![]);
    } else {
        let init = part.drop_last();
        assert(part.contains(part.last()));
        assert forall|k: int| 0 <= k < init.len() implies init[k] != mark by {
            assert(part.contains(part[k]));
        }
        lemma_last_piece(text, init, mark);
        assert(whole.drop_last() =~= text.push(mark) + init);
        assert(whole.last() == part.last());
        let before = pieces(text, mark).push(init);
        assert(before.update(before.len() - 1, init.push(part.last())) =~= pieces(
            text,
            mark,
        ).push(init.push(part.last())));
        assert(init.push(part.last()) =~= part);
    }
}

/// A text without marks is a single piece.
pub proof fn law_text_without_marks_is_one_piece(part: Seq<char>, mark: char)
    requires
        !part.contains(mark),
    ensures
        pieces(part, mark) == seq![part],
    decreases part.len(),
{
    if part.len() == 0 {
        assert(part =~= seq![]);
    } else {
        let init = part.drop_last();
        assert(part.contains(part.last()));
        assert forall|k: int| 0 <= k < init.len() implies init[k] != mark by {
            assert(part.contains(part[k]));
        }
        law_text_without_marks_is_one_piece(init, mark);
        assert(pieces(part, mark) =~= seq![init.push(part.last())]);
        assert(init.push(part.last()) =~= part);
    }
}

/// Texts that hold no mark come back as they were when they are put together
/// with marks and split again.
pub proof fn law_splitting_undoes_joining(parts: Seq<Seq<char>>, mark: char)
    requires
        parts.len() > 0,
        forall|i: int| 0 <= i < parts.len() ==> !(#[trigger] parts[i]).contains(mark),
    ensures
        pieces(rejoined(parts, mark), mark) == parts,
    decreases parts.len(),
{
    if parts.len() == 1 {
        law_text_without_marks_is_one_piece(parts[0], mark);
        assert(parts =~= seq![parts[0]]);
    } else {
        let init = parts.drop_last();
        assert forall|i: int| 0 <= i < init.len() implies !(#[trigger] init[i]).contains(
            mark,
        ) by {
            assert(init[i] == parts[i]);
        }
        law_splitting_undoes_joining(init, mark);
        lemma_last_piece(rejoined(init, mark), parts.last(), mark);
        assert(init.push(parts.last()) =~= parts);
    }
}

/// Splits a text at its marks.
pub fn split_text(text: &str, mark: char) -> (r: Vec<String>)
    ensures
        r.deep_view() == pieces(text@, mark),
{
    let mut done: Vec<String> = Vec::new();
    let mut piece = String::new();
    assert(text@.take(0) =~= seq![]);
    assert(done.deep_view().push(piece@) =~= pieces(text@.take(0), mark));
    for c in it: text.chars()
        invariant
            it.seq() == text@,
            done.deep_view().push(piece@) == pieces(text@.take(it.index() as int), mark),
    {
        let ghost i = it.index() as int;
        let ghost before = done.deep_view().push(piece@);
        proof {
            assert(text@.take(i + 1).drop_last() =~= text@.take(i));
            assert(text@.take(i + 1).last() == c);
        }
        if c == mark {
            done.push(piece);
            piece = String::new();
            assert(done.deep_view() =~= before);
            assert(done.deep_view().push(piece@) =~= before.push(seq![]));
        } else {
            piece.push(c);
            assert(done.deep_view().push(piece@) =~= before.update(
                before.len() - 1,
                before.last().push(c),
            ));
        }
    }
    assert(text@.take(text@.len() as int) =~= text@);
    let ghost finished = done.deep_view().push(piece@);
    done.push(piece);
    assert(done.deep_view() =~= finished);
    done
}

/// Texts that are joined by marks start with the first of them, and a mark
/// follows where there is another one.
pub proof fn law_joined_text_starts_with_its_first_part(parts: Seq<Seq<char>>, mark: char)
    requires
        parts.len() > 0,
    ensures
        ({
            let text = rejoined(parts, mark);
            &&& part_at(text, parts[0], 0)
            &&& parts.len() == 1 ==> text == parts[0]
            &&& parts.len() > 1 ==> text.len() > parts[0].len() && text[parts[0].len() as int]
                == mark
        }),
    decreases parts.len(),
{
    let text = rejoined(parts, mark);
    if parts.len() == 1 {
        assert(text =~= parts[0]);
        law_text_starts_with_itself(text);
    } else {
        law_joined_text_starts_with_its_first_part(parts.drop_last(), mark);
        let start = rejoined(parts.drop_last(), mark);
        assert(text.subrange(0, parts[0].len() as int) =~= start.subrange(
            0,
            parts[0].len() as int,
        ));
    }
}

/// The character of a decimal digit.
pub open spec fn digit_char(d: int) -> char {
    (d + 48) as char
}

/// A number in decimal notation, without leading zeros.
pub open spec fn decimal_text(n: nat) -> Seq<char>
    decreases n,
{
    if n < 10 {
        seq![digit_char(n as int)]
    } else {
        decimal_text(n / 10).push(digit_char((n % 10) as int))
    }
}

/// The number that a text of digits stands for.
pub open spec fn read_digits(text: Seq<char>) -> int
    decreases text.len(),
{
    if text.len() == 0 {
        0
    } else {
        read_digits(text.drop_last()) * 10 + (text.last() as int - '0' as int)
    }
}

/// A number in decimal notation reads back as it was, and starts with a zero
/// only if it is zero.
pub proof fn law_decimals_read_back(n: nat)
    ensures
        read_digits(decimal_text(n)) == n,
        forall|i: int|
            0 <= i < decimal_text(n).len() ==> '0' <= #[trigger] decimal_text(n)[i] <= '9',
        decimal_text(n).len() >= 1,
        decimal_text(n)[0] == '0' ==> n == 0,
    decreases n,
{
    if n < 10 {
        assert(decimal_text(n).drop_last() =~= seq![]);
        assert(read_digits(seq![]) == 0);
    } else {
        law_decimals_read_back(n / 10);
        assert(decimal_text(n).drop_last() =~= decimal_text(n / 10));
        assert(decimal_text(n)[0] == decimal_text(n / 10)[0]);
    }
}

/// Writes a number in decimal notation.
pub fn decimal(n: u16) -> (r: String)
    ensures
        r@ == decimal_text(n as nat),
    decreases n,
{
    let mut r = if n < 10 {
        String::new()
    } else {
        decimal(n / 10)
    };
    let digit: u8 = (n % 10) as u8;
    r.push((digit + 48) as char);
    assert(r@ =~= decimal_text(n as nat));
    r
}

/// A map from texts to values, kept in the order in which the keys came. No
/// key occurs twice.
#[derive(Debug)]
pub struct TextMap<V> {
    entries: Vec<(String, V)>,
}

/// The entries as a map.
pub open spec fn entries_map<V: DeepView>(entries: Seq<(String, V)>) -> Map<Seq<char>, V::V>
    decreases entries.len(),
{
    if entries.len() == 0 {
        Map::empty()
    } else {
        entries_map(entries.drop_last()).insert(
            entries.last().0@,
            entries.last().1.deep_view(),
        )
    }
}

/// No key occurs twice among the entries.
pub open spec fn keys_differ<V>(entries: Seq<(String, V)>) -> bool {
    forall|i: int, j: int|
        0 <= i < j < entries.len() ==> (#[trigger] entries[i]).0@ != (#[trigger] entries[j]).0@
}

proof fn lemma_entries_map<V: DeepView>(entries: Seq<(String, V)>, key: Seq<char>)
    requires
        keys_differ(entries),
    ensures
        forall|i: int| #![trigger entries[i]]
            0 <= i < entries.len() && entries[i].0@ == key ==> entries_map(entries).contains_key(
                key,
            ) && entries_map(entries)[key] == entries[i].1.deep_view(),
        (forall|i: int| 0 <= i < entries.len() ==> (#[trigger] entries[i]).0@ != key)
            ==> !entries_map(entries).contains_key(key),
    decreases entries.len(),
{
    if entries.len() > 0 {
        let init = entries.drop_last();
        assert forall|i: int, j: int| 0 <= i < j < init.len() implies (#[trigger] init[i]).0@ != (
        #[trigger] init[j]).0@ by {
            assert(entries[i].0@ != entries[j].0@);
        }
        lemma_entries_map(init, key);
        assert forall|i: int| #![trigger entries[i]]
            0 <= i < entries.len() && entries[i].0@ == key implies entries_map(
            entries,
        ).contains_key(key) && entries_map(entries)[key] == entries[i].1.deep_view() by {
            if i < init.len() {
                assert(init[i] == entries[i]);
                assert(entries[i].0@ != entries[entries.len() - 1].0@);
            }
        }
        if forall|i: int| 0 <= i < entries.len() ==> (#[trigger] entries[i]).0@ != key {
            assert forall|i: int| 0 <= i < init.len() implies (#[trigger] init[i]).0@ != key by {
                assert(init[i] == entries[i]);
            }
            assert(entries[entries.len() - 1].0@ != key);
        }
    }
}

proof fn lemma_entries_map_update<V: DeepView>(entries: Seq<(String, V)>, at: int, entry: (String, V))
    requires
        keys_differ(entries),
        0 <= at < entries.len(),
        entries[at].0@ == entry.0@,
    ensures
        entries_map(entries.update(at, entry)) == entries_map(entries).insert(
            entry.0@,
            entry.1.deep_view(),
        ),
    decreases entries.len(),
{
    let init = entries.drop_last();
    let changed = entries.update(at, entry);
    if at == entries.len() - 1 {
        assert(changed.drop_last() =~= init);
    } else {
        assert forall|i: int, j: int| 0 <= i < j < init.len() implies (#[trigger] init[i]).0@ != (
        #[trigger] init[j]).0@ by {
            assert(entries[i].0@ != entries[j].0@);
        }
        assert(init[at] == entries[at]);
        lemma_entries_map_update(init, at, entry);
        assert(changed.drop_last() =~= init.update(at, entry));
        assert(entries[at].0@ != entries[entries.len() - 1].0@);
    }
    assert(entries_map(changed) =~= entries_map(entries).insert(entry.0@, entry.1.deep_view()));
}

impl<V: DeepView> DeepView for TextMap<V> {
    type V = Map<Seq<char>, V::V>;

    closed spec fn deep_view(&self) -> Map<Seq<char>, V::V> {
        entries_map(self.entries@)
    }
}

impl<V> TextMap<V> {
    #[verifier::type_invariant]
    closed spec fn distinct_keys(self) -> bool {
        keys_differ(self.entries@)
    }
}

impl<V: DeepView> TextMap<V> {
    /// A map without entries.
    pub fn new() -> (r: Self)
        ensures
            r.deep_view() == Map::<Seq<char>, V::V>::empty(),
            r.keys() == Seq::<Seq<char>>::empty(),
    {
        TextMap { entries: Vec::new() }
    }

    /// The place of a key among the entries.
    fn position(&self, key: &str) -> (r: Option<usize>)
        ensures
            match r {
                Some(i) => i < self.entries@.len() && self.entries@[i as int].0@ == key@,
                None => forall|j: int|
                    0 <= j < self.entries@.len() ==> (#[trigger] self.entries@[j]).0@ != key@,
            },
    {
        let mut i: usize = 0;
        while i < self.entries.len()
            invariant
                i <= self.entries@.len(),
                forall|j: int| 0 <= j < i ==> (#[trigger] self.entries@[j]).0@ != key@,
            decreases self.entries@.len() - i,
        {
            if same_text(self.entries[i].0.as_str(), key) {
                return Some(i);
            }
            i += 1;
        }
        None
    }

    /// The map with one more entry, which takes the place of an entry with
    /// the same key.
    pub fn with(self, key: &str, value: V) -> (r: Self)
        ensures
            r.deep_view() == self.deep_view().insert(key@, value.deep_view()),
            r.keys() == (if self.deep_view().contains_key(key@) {
                self.keys()
            } else {
                self.keys().push(key@)
            }),
    {
        proof {
            use_type_invariant(&self);
            lemma_entries_map(self.entries@, key@);
        }
        let ghost keys = self.keys();
        let at = self.position(key);
        let mut entries = self.entries;
        let ghost before = entries@;
        let entry = (key.to_string(), value);
        match at {
            Some(i) => {
                proof {
                    lemma_entries_map_update(before, i as int, entry);
                }
                entries.set(i, entry);
            },
            None => {
                entries.push(entry);
                assert(entries@.drop_last() =~= before);
            },
        }
        let r = TextMap { entries };
        assert(r.keys() =~= if at is Some {
            keys
        } else {
            keys.push(key@)
        });
        r
    }

    /// The value of a key.
    pub fn get(&self, key: &str) -> (r: Option<&V>)
        ensures
            r is Some <==> self.deep_view().contains_key(key@),
            r matches Some(value) ==> value.deep_view() == self.deep_view()[key@],
    {
        proof {
            use_type_invariant(self);
            lemma_entries_map(self.entries@, key@);
        }
        match self.position(key) {
            Some(i) => Some(&self.entries[i].1),
            None => None,
        }
    }

    /// The keys, in the order in which they came.
    pub closed spec fn keys(&self) -> Seq<Seq<char>> {
        Seq::new(self.entries@.len(), |i: int| self.entries@[i].0@)
    }

    /// How many entries there are. Every key has its place.
    pub fn len(&self) -> (r: usize)
        ensures
            r == self.keys().len(),
            self.keys().no_duplicates(),
            forall|key: Seq<char>|
                self.keys().contains(key) <==> #[trigger] self.deep_view().contains_key(key),
    {
        proof {
            use_type_invariant(self);
            let keys = self.keys();
            assert forall|i: int, j: int|
                0 <= i < keys.len() && 0 <= j < keys.len() && i != j implies keys[i]
                != keys[j] by {
                if i < j {
                    assert(self.entries@[i].0@ != self.entries@[j].0@);
                } else {
                    assert(self.entries@[j].0@ != self.entries@[i].0@);
                }
            }
            assert forall|key: Seq<char>|
                keys.contains(key) <==> #[trigger] self.deep_view().contains_key(key) by {
                lemma_entries_map(self.entries@, key);
                if keys.contains(key) {
                    let i = choose|i: int| 0 <= i < keys.len() && keys[i] == key;
                    assert(self.entries@[i].0@ == key);
                } else {
                    assert forall|i: int| 0 <= i < self.entries@.len() implies (
                    #[trigger] self.entries@[i]).0@ != key by {
                        assert(keys[i] == self.entries@[i].0@);
                    }
                }
            }
        }
        self.entries.len()
    }

    /// The entry at a place, in the order in which the keys came.
    pub fn entry(&self, i: usize) -> (r: (&String, &V))
        requires
            i < self.keys().len(),
        ensures
            r.0@ == self.keys()[i as int],
            self.deep_view().contains_key(r.0@),
            self.deep_view()[r.0@] == r.1.deep_view(),
    {
        proof {
            use_type_invariant(self);
            lemma_entries_map(self.entries@, self.entries@[i as int].0@);
        }
        let entry = &self.entries[i];
        (&entry.0, &entry.1)
    }
}

impl Clone for TextMap<String> {
    fn clone(&self) -> (r: Self)
        ensures
            r.deep_view() == self.deep_view(),
    {
        proof {
            use_type_invariant(self);
        }
        let mut entries: Vec<(String, String)> = Vec::new();
        let mut i: usize = 0;
        while i < self.entries.len()
            invariant
                i <= self.entries@.len(),
                entries@ =~= self.entries@.take(i as int),
            decreases self.entries@.len() - i,
        {
            let entry = &self.entries[i];
            entries.push((entry.0.clone(), entry.1.clone()));
            i += 1;
        }
        assert(entries@ =~= self.entries@);
        TextMap { entries }
    }
}

} // verus!
