//! Texts and numbers: what trimming, lowering, splitting and notation have to do with the
//! characters they are about.
use crate::numerals;
use crate::text;
use vstd::prelude::*;

verus! {

/// Lowering turns each of the 26 capital letters into its small one, and leaves every other
/// character where it is.
pub proof fn lowering_changes_capitals_alone(s: Seq<char>, i: int)
    requires
        0 <= i < s.len(),
    ensures
        text::lowered(s).len() == s.len(),
        65 <= s[i] as int <= 90 ==> text::lowered(s)[i] as int == s[i] as int + 32,
        !(65 <= s[i] as int <= 90) ==> text::lowered(s)[i] == s[i],
        text::lowered(text::lowered(s)) == text::lowered(s),
{
    assert(text::lowered(text::lowered(s)) =~= text::lowered(s));
}

proof fn lemma_trimmed_front(s: Seq<char>) -> (a: int)
    ensures
        0 <= a <= s.len(),
        text::trim_front(s) == s.skip(a),
        forall|i: int| 0 <= i < a ==> text::is_white_space(#[trigger] s[i]),
        a < s.len() ==> !text::is_white_space(s[a]),
    decreases s.len(),
{
    if s.len() > 0 && text::is_white_space(s[0]) {
        let rest = s.drop_first();
        let a = lemma_trimmed_front(rest);
        assert(rest.skip(a) =~= s.skip(a + 1));
        assert forall|i: int| 0 <= i < a + 1 implies text::is_white_space(#[trigger] s[i]) by {
            if i > 0 {
                assert(s[i] == rest[i - 1]);
            }
        }
        a + 1
    } else {
        assert(s.skip(0) =~= s);
        0
    }
}

proof fn lemma_trimmed_back(s: Seq<char>) -> (b: int)
    ensures
        0 <= b <= s.len(),
        text::trim_back(s) == s.take(b),
        forall|i: int| b <= i < s.len() ==> text::is_white_space(#[trigger] s[i]),
        b > 0 ==> !text::is_white_space(s[b - 1]),
    decreases s.len(),
{
    if s.len() > 0 && text::is_white_space(s.last()) {
        let rest = s.drop_last();
        let b = lemma_trimmed_back(rest);
        assert(rest.take(b) =~= s.take(b));
        assert forall|i: int| b <= i < s.len() implies text::is_white_space(#[trigger] s[i]) by {
            if i < rest.len() {
                assert(s[i] == rest[i]);
            }
        }
        b
    } else {
        assert(s.take(s.len() as int) =~= s);
        s.len() as int
    }
}

/// Trimming takes away the white space at the two ends, all of it and nothing else.
pub proof fn trimming_takes_white_space_alone(s: Seq<char>) -> (ends: (int, int))
    ensures
        0 <= ends.0 <= ends.1 <= s.len(),
        text::trimmed(s) == s.subrange(ends.0, ends.1),
        forall|i: int| 0 <= i < ends.0 ==> text::is_white_space(#[trigger] s[i]),
        forall|i: int| ends.1 <= i < s.len() ==> text::is_white_space(#[trigger] s[i]),
        ends.0 < ends.1 ==> !text::is_white_space(s[ends.0]) && !text::is_white_space(s[ends.1 - 1]),
{
    let a = lemma_trimmed_front(s);
    let front = s.skip(a);
    let b = lemma_trimmed_back(front);
    assert(front.take(b) =~= s.subrange(a, a + b));
    assert forall|i: int| a + b <= i < s.len() implies text::is_white_space(#[trigger] s[i]) by {
        assert(s[i] == front[i - a]);
    }
    if b > 0 {
        assert(front[b - 1] == s[a + b - 1]);
        assert(front[0] == s[a]);
    }
    (a, a + b)
}

/// Blanks, tabs and line ends are white space; no ASCII letter, digit or sign is.
pub proof fn visible_characters_are_no_white_space(c: char)
    ensures
        c == ' ' || c == '\t' || c == '\n' || c == '\r' ==> text::is_white_space(c),
        33 <= c as int <= 126 ==> !text::is_white_space(c),
        c as int == 0x85 || c as int == 0xa0 || c as int == 0x2028 || c as int == 0x3000
            ==> text::is_white_space(c),
{
}

/// The first place of a character in a text is one of its places, and no earlier one is.
pub proof fn the_first_place_is_the_first(s: Seq<char>, c: char, i: int)
    requires
        0 <= i < s.len(),
        s[i] == c,
        forall|j: int| 0 <= j < i ==> s[j] != c,
    ensures
        text::first_of(s, c) == i,
{
    text::lemma_first_of(s, c);
    if text::first_of(s, c) < i {
        assert(s[text::first_of(s, c)] != c);
        assert(false);
    }
    if text::first_of(s, c) > i {
        assert(s[i] != c);
        assert(false);
    }
}

/// The last place of a character in a text is one of its places, and no later one is.
pub proof fn the_last_place_is_the_last(s: Seq<char>, c: char, i: int)
    ensures
        0 <= i < s.len() && s[i] == c && (forall|j: int| i < j < s.len() ==> s[j] != c)
            ==> text::last_of(s, c) == i,
        (forall|j: int| 0 <= j < s.len() ==> s[j] != c) ==> text::last_of(s, c) < 0,
        -1 <= text::last_of(s, c) < s.len(),
        text::last_of(s, c) >= 0 ==> s[text::last_of(s, c)] == c,
    decreases s.len(),
{
    if s.len() > 0 && s.last() != c {
        let rest = s.drop_last();
        the_last_place_is_the_last(rest, c, i);
        if 0 <= i < s.len() && s[i] == c && (forall|j: int| i < j < s.len() ==> s[j] != c) {
            assert(i < rest.len());
            assert forall|j: int| i < j < rest.len() implies rest[j] != c by {
                assert(s[j] != c);
            }
            assert(rest[i] == c);
        }
        if forall|j: int| 0 <= j < s.len() ==> s[j] != c {
            assert forall|j: int| 0 <= j < rest.len() implies rest[j] != c by {
                assert(s[j] != c);
            }
        }
    } else if s.len() > 0 {
        assert(s[s.len() - 1] == c);
        if 0 <= i < s.len() - 1 && (forall|j: int| i < j < s.len() ==> s[j] != c) {
            assert(s[s.len() - 1] != c);
            assert(false);
        }
    }
}

/// A media type is what stands before its parameters, without the white space around it.
pub proof fn parameters_do_not_count(media: Seq<char>, parameters: Seq<char>)
    requires
        !media.contains(';'),
    ensures
        text::essence(media) == text::trimmed(media),
        text::essence(media + seq![';'] + parameters) == text::trimmed(media),
{
    text::lemma_first_of(media, ';');
    assert(media.take(media.len() as int) =~= media);
    let whole = media + seq![';'] + parameters;
    assert forall|j: int| 0 <= j < media.len() implies whole[j] != ';' by {
        assert(whole[j] == media[j]);
        assert(media.contains(media[j]));
    }
    the_first_place_is_the_first(whole, ';', media.len() as int);
    assert(whole.take(media.len() as int) =~= media);
}

/// Texts are in the order of the first character in which they differ; a text that another one
/// begins with comes before it.
pub proof fn texts_are_in_the_order_of_their_characters(a: Seq<char>, b: Seq<char>, i: int)
    requires
        0 <= i <= a.len(),
        i < b.len(),
        forall|j: int| 0 <= j < i ==> a[j] == b[j],
    ensures
        i == a.len() ==> text::text_before(a, b) && !text::text_before(b, a),
        i < a.len() && (a[i] as int) < (b[i] as int) ==> text::text_before(a, b)
            && !text::text_before(b, a),
    decreases i,
{
    if i > 0 {
        let x = a.drop_first();
        let y = b.drop_first();
        assert(a[0] == b[0]);
        assert forall|j: int| 0 <= j < i - 1 implies x[j] == y[j] by {
            assert(a[j + 1] == b[j + 1]);
        }
        texts_are_in_the_order_of_their_characters(x, y, i - 1);
    }
}

proof fn lemma_digits(n: nat)
    ensures
        numerals::decimal_nat(n).len() > 0,
        numerals::digits_value(numerals::decimal_nat(n)) == Some(n),
        forall|i: int|
            0 <= i < numerals::decimal_nat(n).len() ==> 48 <= (#[trigger] numerals::decimal_nat(
                n,
            )[i]) as int <= 57,
        n > 0 ==> numerals::decimal_nat(n)[0] != '0',
    decreases n,
{
    if n >= 10 {
        lemma_digits(n / 10);
        let s = numerals::decimal_nat(n);
        assert(s.drop_last() =~= numerals::decimal_nat(n / 10));
        assert(s[0] == numerals::decimal_nat(n / 10)[0]);
        assert forall|i: int| 0 <= i < s.len() implies 48 <= (#[trigger] s[i]) as int <= 57 by {
            if i < s.len() - 1 {
                assert(s[i] == numerals::decimal_nat(n / 10)[i]);
            }
        }
    }
}

/// A number is written in decimal digits, without a zero before it, and is read back as it was.
pub proof fn numbers_are_written_in_decimal(n: int)
    requires
        n >= 0,
    ensures
        numerals::decimal(n).len() > 0,
        numerals::unsigned_value(numerals::decimal(n)) == Some(n),
        numerals::signed_value(numerals::decimal(n)) == Some(n),
        forall|i: int|
            0 <= i < numerals::decimal(n).len() ==> '0' <= (#[trigger] numerals::decimal(n)[i]) <= '9',
        n > 0 ==> numerals::decimal(n)[0] != '0',
        n > 0 ==> numerals::decimal(-n) == seq!['-'] + numerals::decimal(n),
{
    lemma_digits(n as nat);
}

/// The place of a digit counts ten times the next one; what is no digit makes the whole no
/// number.
pub proof fn digits_count_by_ten(s: Seq<char>, c: char)
    ensures
        !('0' <= c <= '9') ==> numerals::digits_value(s.push(c)) is None,
        '0' <= c <= '9' && s.len() == 0 ==> numerals::digits_value(s.push(c)) == Some(
            (c as int - 48) as nat,
        ),
        '0' <= c <= '9' && s.len() > 0 ==> match numerals::digits_value(s) {
            Some(n) => numerals::digits_value(s.push(c)) == Some((10 * n + (c as int - 48)) as nat),
            None => numerals::digits_value(s.push(c)) is None,
        },
        numerals::digits_value(Seq::<char>::empty()) is None,
{
    assert(s.push(c).drop_last() =~= s);
}

/// A byte is written as two small hexadecimal digits, the higher one first.
pub proof fn bytes_are_written_in_two_digits(bytes: Seq<u8>, i: int)
    requires
        0 <= i < bytes.len(),
    ensures
        numerals::hex_of(bytes).len() == 2 * bytes.len(),
        ({
            let high = bytes[i] as int / 16;
            let low = bytes[i] as int % 16;
            let a = numerals::hex_of(bytes)[2 * i] as int;
            let b = numerals::hex_of(bytes)[2 * i + 1] as int;
            &&& a == (if high < 10 { 48 + high } else { 87 + high })
            &&& b == (if low < 10 { 48 + low } else { 87 + low })
        }),
    decreases bytes.len(),
{
    numerals::lemma_hex_len(bytes);
    numerals::lemma_hex_len(bytes.drop_last());
    if i < bytes.len() - 1 {
        bytes_are_written_in_two_digits(bytes.drop_last(), i);
    }
}

/// A word is what stands between white space: one more character goes on with it, and white space
/// ends it.
pub proof fn words_stand_between_white_space(s: Seq<char>, c: char)
    ensures
        ({
            let (done, word) = text::word_reading(s);
            let (after, going) = text::word_reading(s.push(c));
            &&& text::words(Seq::<char>::empty()).len() == 0
            &&& text::words(s) == (if word.len() > 0 {
                done.push(word)
            } else {
                done
            })
            &&& !text::is_white_space(c) ==> after == done && going == word.push(c)
            &&& text::is_white_space(c) ==> going.len() == 0 && text::words(s.push(c)) == text::words(s)
        }),
{
    assert(s.push(c).drop_last() =~= s);
}

proof fn lemma_one_word(word: Seq<char>)
    requires
        forall|i: int| 0 <= i < word.len() ==> !text::is_white_space(#[trigger] word[i]),
    ensures
        text::word_reading(word) == (Seq::<Seq<char>>::empty(), word),
    decreases word.len(),
{
    if word.len() > 0 {
        let before = word.drop_last();
        assert forall|i: int| 0 <= i < before.len() implies !text::is_white_space(#[trigger] before[i]) by {
            assert(before[i] == word[i]);
        }
        lemma_one_word(before);
        assert(before.push(word.last()) =~= word);
        assert(!text::is_white_space(word[word.len() - 1]));
    }
}

/// A text without white space is one word.
pub proof fn a_word_is_one_word(word: Seq<char>)
    requires
        word.len() > 0,
        forall|i: int| 0 <= i < word.len() ==> !text::is_white_space(#[trigger] word[i]),
    ensures
        text::words(word) == seq![word],
{
    lemma_one_word(word);
}

} // verus!
