//! Text as a sequence of characters: equality, order, trimming, splitting, and
//! the decimal and hexadecimal notations of numbers.
use vstd::prelude::*;
use vstd::string::*;
use vstd::utf8::*;

verus! {

/// `String::push` appends one character.
pub assume_specification[ String::push ](s: &mut String, c: char)
    ensures
        final(s)@ == old(s)@.push(c),
;

/// The texts of a list.
pub open spec fn views(list: Seq<String>) -> Seq<Seq<char>> {
    list.map_values(|s: String| s@)
}

/// The text of an optional value.
pub open spec fn view_option(value: Option<String>) -> Option<Seq<char>> {
    match value {
        Some(s) => Some(s@),
        None => None,
    }
}

/// The text of an optional slice.
pub open spec fn view_str(value: Option<&str>) -> Option<Seq<char>> {
    match value {
        Some(s) => Some(s@),
        None => None,
    }
}

/// A copy of an optional text.
pub fn copy_option(value: &Option<String>) -> (r: Option<String>)
    ensures
        view_option(r) == view_option(*value),
{
    match value {
        Some(s) => Some(s.clone()),
        None => None,
    }
}

/// A copy of a list of texts.
pub fn copy_texts(list: &Vec<String>) -> (r: Vec<String>)
    ensures
        views(r@) == views(list@),
{
    let mut r: Vec<String> = Vec::new();
    let mut i: usize = 0;
    while i < list.len()
        invariant
            i <= list@.len(),
            r@.len() == i,
            forall|j: int| 0 <= j < i ==> r@[j]@ == list@[j]@,
        decreases list@.len() - i,
    {
        r.push(list[i].clone());
        i = i + 1;
    }
    assert(views(r@) =~= views(list@));
    r
}

/// A copy of a byte string.
pub fn copy_bytes(bytes: &Vec<u8>) -> (r: Vec<u8>)
    ensures
        r@ == bytes@,
{
    let mut r: Vec<u8> = Vec::new();
    let mut i: usize = 0;
    while i < bytes.len()
        invariant
            i <= bytes@.len(),
            r@ == bytes@.take(i as int),
        decreases bytes@.len() - i,
    {
        r.push(bytes[i]);
        i = i + 1;
    }
    assert(bytes@.take(i as int) =~= bytes@);
    r
}

/// The bytes of an optional value.
pub open spec fn view_bytes(value: Option<Vec<u8>>) -> Option<Seq<u8>> {
    match value {
        Some(b) => Some(b@),
        None => None,
    }
}

/// A copy of an optional byte string.
pub fn copy_option_bytes(value: &Option<Vec<u8>>) -> (r: Option<Vec<u8>>)
    ensures
        view_bytes(r) == view_bytes(*value),
{
    match value {
        Some(b) => Some(copy_bytes(b)),
        None => None,
    }
}

/// A copy of a byte slice.
pub fn bytes_of(bytes: &[u8]) -> (r: Vec<u8>)
    ensures
        r@ == bytes@,
{
    vstd::slice::slice_to_vec(bytes)
}

/// Whether two byte strings are the same.
pub fn same_bytes(a: &[u8], b: &[u8]) -> (r: bool)
    ensures
        r == (a@ == b@),
{
    if a.len() != b.len() {
        return false;
    }
    let mut i: usize = 0;
    while i < a.len()
        invariant
            i <= a@.len(),
            a@.len() == b@.len(),
            a@.take(i as int) =~= b@.take(i as int),
        decreases a@.len() - i,
    {
        if a[i] != b[i] {
            return false;
        }
        i = i + 1;
    }
    assert(a@.take(i as int) =~= a@);
    assert(b@.take(i as int) =~= b@);
    true
}

/// The characters of a text, one by one.
pub fn chars_of(s: &str) -> (v: Vec<char>)
    ensures
        v@ == s@,
{
    let mut v: Vec<char> = Vec::new();
    for c in it: s.chars()
        invariant
            v@ == it.seq().take(it.index() as int),
            it.seq() == s@,
    {
        v.push(c);
    }
    v
}

/// The text made of the characters `v[from]`, up to but without `v[to]`.
pub fn text_of(v: &Vec<char>, from: usize, to: usize) -> (s: String)
    requires
        from <= to <= v@.len(),
    ensures
        s@ == v@.subrange(from as int, to as int),
{
    let mut s = String::new();
    let mut i: usize = from;
    while i < to
        invariant
            from <= i <= to <= v@.len(),
            s@ == v@.subrange(from as int, i as int),
        decreases to - i,
    {
        s.push(v[i]);
        i = i + 1;
    }
    s
}

/// Whether two texts are the same.
pub fn same_text(a: &str, b: &str) -> (r: bool)
    ensures
        r == (a@ == b@),
{
    let x = a.as_bytes();
    let y = b.as_bytes();
    proof {
        encode_utf8_decode_utf8(a@);
        encode_utf8_decode_utf8(b@);
    }
    if x.len() != y.len() {
        return false;
    }
    let mut i: usize = 0;
    while i < x.len()
        invariant
            i <= x@.len(),
            x@.len() == y@.len(),
            x@ == encode_utf8(a@),
            y@ == encode_utf8(b@),
            x@.take(i as int) =~= y@.take(i as int),
        decreases x@.len() - i,
    {
        if x[i] != y[i] {
            return false;
        }
        i = i + 1;
    }
    assert(x@ =~= y@) by {
        assert(x@.take(i as int) =~= x@);
        assert(y@.take(i as int) =~= y@);
    }
    true
}

/// Whether two optional texts are the same.
pub fn same_option(a: &Option<String>, b: &Option<String>) -> (r: bool)
    ensures
        r == (view_option(*a) == view_option(*b)),
{
    match (a, b) {
        (Some(x), Some(y)) => same_text(x, y),
        (None, None) => true,
        _ => false,
    }
}

/// `a` comes strictly before `b` in the order of their characters' code points.
pub open spec fn text_before(a: Seq<char>, b: Seq<char>) -> bool
    decreases a.len(),
{
    if b.len() == 0 {
        false
    } else if a.len() == 0 {
        true
    } else if a[0] == b[0] {
        text_before(a.drop_first(), b.drop_first())
    } else {
        (a[0] as int) < (b[0] as int)
    }
}

pub proof fn lemma_text_before_irreflexive(a: Seq<char>)
    ensures
        !text_before(a, a),
    decreases a.len(),
{
    if a.len() > 0 {
        lemma_text_before_irreflexive(a.drop_first());
    }
}

pub proof fn lemma_text_before_transitive(a: Seq<char>, b: Seq<char>, c: Seq<char>)
    requires
        text_before(a, b),
        text_before(b, c),
    ensures
        text_before(a, c),
    decreases a.len(),
{
    if a.len() > 0 && a[0] == b[0] && b[0] == c[0] {
        lemma_text_before_transitive(a.drop_first(), b.drop_first(), c.drop_first());
    }
}

pub proof fn lemma_text_before_total(a: Seq<char>, b: Seq<char>)
    ensures
        a == b || text_before(a, b) || text_before(b, a),
    decreases a.len(),
{
    if a.len() > 0 && b.len() > 0 && a[0] == b[0] {
        lemma_text_before_total(a.drop_first(), b.drop_first());
        if a.drop_first() == b.drop_first() {
            assert(a =~= seq![a[0]] + a.drop_first());
            assert(b =~= seq![b[0]] + b.drop_first());
        }
    } else if a.len() == 0 && b.len() == 0 {
        assert(a =~= b);
    }
}

/// Whether `a` comes strictly before `b`.
pub fn is_before(a: &str, b: &str) -> (r: bool)
    ensures
        r == text_before(a@, b@),
{
    let x = chars_of(a);
    let y = chars_of(b);
    let mut i: usize = 0;
    assert(x@.skip(0) =~= x@);
    assert(y@.skip(0) =~= y@);
    while i < x.len() && i < y.len()
        invariant
            i <= x@.len(),
            i <= y@.len(),
            x@ == a@,
            y@ == b@,
            text_before(a@, b@) == text_before(x@.skip(i as int), y@.skip(i as int)),
        decreases x@.len() - i,
    {
        if x[i] != y[i] {
            return x[i] < y[i];
        }
        assert(x@.skip(i as int).drop_first() =~= x@.skip(i + 1));
        assert(y@.skip(i as int).drop_first() =~= y@.skip(i + 1));
        i = i + 1;
    }
    i < y.len()
}

/// Unicode white space.
pub open spec fn is_white_space(c: char) -> bool {
    ||| 0x9 <= c as int <= 0xd
    ||| c as int == 0x20
    ||| c as int == 0x85
    ||| c as int == 0xa0
    ||| c as int == 0x1680
    ||| 0x2000 <= c as int <= 0x200a
    ||| c as int == 0x2028
    ||| c as int == 0x2029
    ||| c as int == 0x202f
    ||| c as int == 0x205f
    ||| c as int == 0x3000
}

/// Whether `c` is white space.
pub fn white_space(c: char) -> (r: bool)
    ensures
        r == is_white_space(c),
{
    ('\u{9}' <= c && c <= '\u{d}') || c == ' ' || c == '\u{85}' || c == '\u{a0}' || c == '\u{1680}' || (
    '\u{2000}' <= c && c <= '\u{200a}') || c == '\u{2028}' || c == '\u{2029}' || c == '\u{202f}' || c
        == '\u{205f}' || c == '\u{3000}'
}

/// A control character: U+0000 to U+001F, and U+007F to U+009F.
pub open spec fn is_control_char(c: char) -> bool {
    c as int <= 0x1f || 0x7f <= c as int <= 0x9f
}

/// Whether `c` is a control character.
pub fn control_char(c: char) -> (r: bool)
    ensures
        r == is_control_char(c),
{
    c <= '\u{1f}' || ('\u{7f}' <= c && c <= '\u{9f}')
}

/// `s` without its leading white space.
pub open spec fn trim_front(s: Seq<char>) -> Seq<char>
    decreases s.len(),
{
    if s.len() > 0 && is_white_space(s[0]) {
        trim_front(s.drop_first())
    } else {
        s
    }
}

/// `s` without its trailing white space.
pub open spec fn trim_back(s: Seq<char>) -> Seq<char>
    decreases s.len(),
{
    if s.len() > 0 && is_white_space(s.last()) {
        trim_back(s.drop_last())
    } else {
        s
    }
}

/// `s` without the white space at its two ends.
pub open spec fn trimmed(s: Seq<char>) -> Seq<char> {
    trim_back(trim_front(s))
}

/// Removes the white space at the two ends of `v[from..to]`.
pub fn trim(v: &Vec<char>, from: usize, to: usize) -> (r: Vec<char>)
    requires
        from <= to <= v@.len(),
    ensures
        r@ == trimmed(v@.subrange(from as int, to as int)),
{
    let ghost whole = v@.subrange(from as int, to as int);
    let mut a: usize = from;
    while a < to && white_space(v[a])
        invariant
            from <= a <= to <= v@.len(),
            trim_front(v@.subrange(from as int, to as int)) == trim_front(
                v@.subrange(a as int, to as int),
            ),
        decreases to - a,
    {
        assert(v@.subrange(a as int, to as int).drop_first() =~= v@.subrange(a + 1, to as int));
        a = a + 1;
    }
    let mut b: usize = to;
    while a < b && white_space(v[b - 1])
        invariant
            from <= a <= b <= to <= v@.len(),
            trim_back(v@.subrange(a as int, to as int)) == trim_back(
                v@.subrange(a as int, b as int),
            ),
        decreases b - a,
    {
        assert(v@.subrange(a as int, b as int).drop_last() =~= v@.subrange(a as int, b - 1));
        b = b - 1;
    }
    let mut r: Vec<char> = Vec::new();
    let mut i: usize = a;
    while i < b
        invariant
            a <= i <= b <= v@.len(),
            r@ == v@.subrange(a as int, i as int),
        decreases b - i,
    {
        r.push(v[i]);
        i = i + 1;
    }
    r
}

/// The position of the first `c` in `s`, or the length of `s` if it holds none.
pub open spec fn first_of(s: Seq<char>, c: char) -> int
    decreases s.len(),
{
    if s.len() == 0 || s[0] == c {
        0
    } else {
        1 + first_of(s.drop_first(), c)
    }
}

pub proof fn lemma_first_of(s: Seq<char>, c: char)
    ensures
        0 <= first_of(s, c) <= s.len(),
        first_of(s, c) < s.len() ==> s[first_of(s, c)] == c,
        forall|i: int| 0 <= i < first_of(s, c) ==> s[i] != c,
        first_of(s, c) == s.len() <==> !s.contains(c),
    decreases s.len(),
{
    if s.len() > 0 && s[0] != c {
        lemma_first_of(s.drop_first(), c);
        assert forall|i: int| 0 <= i < first_of(s, c) implies s[i] != c by {
            if i > 0 {
                assert(s[i] == s.drop_first()[i - 1]);
            }
        }
        if s.drop_first().contains(c) {
            let i = choose|i: int| 0 <= i < s.drop_first().len() && s.drop_first()[i] == c;
            assert(s[i + 1] == c);
        }
        if s.contains(c) {
            let i = choose|i: int| 0 <= i < s.len() && s[i] == c;
            assert(s.drop_first()[i - 1] == c);
        }
    }
}

/// Finds the first `c` in `v`, from position `from` on.
pub fn find_first(v: &Vec<char>, from: usize, c: char) -> (at: usize)
    requires
        from <= v@.len(),
    ensures
        at == from + first_of(v@.skip(from as int), c),
        from <= at <= v@.len(),
        at < v@.len() ==> v@[at as int] == c,
        forall|i: int| from <= i < at ==> v@[i] != c,
{
    let mut i: usize = from;
    while i < v.len() && v[i] != c
        invariant
            from <= i <= v@.len(),
            forall|j: int| from <= j < i ==> v@[j] != c,
            first_of(v@.skip(from as int), c) == (i - from) + first_of(v@.skip(i as int), c),
        decreases v@.len() - i,
    {
        assert(v@.skip(i as int).drop_first() =~= v@.skip(i + 1));
        i = i + 1;
    }
    i
}

/// The position of the last `c` in `s`, or -1 if it holds none.
pub open spec fn last_of(s: Seq<char>, c: char) -> int
    decreases s.len(),
{
    if s.len() == 0 {
        -1
    } else if s.last() == c {
        s.len() - 1
    } else {
        last_of(s.drop_last(), c)
    }
}

/// Finds the last `c` in `v`.
pub fn find_last(v: &Vec<char>, c: char) -> (at: Option<usize>)
    ensures
        match at {
            Some(i) => i < v@.len() && i == last_of(v@, c),
            None => last_of(v@, c) == -1,
        },
{
    let mut n: usize = v.len();
    assert(v@.take(n as int) =~= v@);
    while n > 0
        invariant
            n <= v@.len(),
            last_of(v@, c) == last_of(v@.take(n as int), c),
        decreases n,
    {
        if v[n - 1] == c {
            return Some(n - 1);
        }
        assert(v@.take(n as int).drop_last() =~= v@.take(n - 1));
        n = n - 1;
    }
    None
}

/// An ASCII letter in lower case; any other character as it is.
pub open spec fn lower(c: char) -> char {
    if 'A' as int <= c as int <= 'Z' as int {
        (c as int + 32) as char
    } else {
        c
    }
}

/// `s` with its ASCII letters in lower case.
pub open spec fn lowered(s: Seq<char>) -> Seq<char> {
    s.map_values(|c: char| lower(c))
}

/// Puts one ASCII letter in lower case.
pub fn to_lower(c: char) -> (r: char)
    ensures
        r == lower(c),
{
    if 'A' <= c && c <= 'Z' {
        ((c as u8) + 32) as char
    } else {
        c
    }
}

/// Puts the ASCII letters of a text in lower case.
pub fn lower_all(v: &Vec<char>) -> (r: Vec<char>)
    ensures
        r@ == lowered(v@),
{
    let mut r: Vec<char> = Vec::new();
    let mut i: usize = 0;
    while i < v.len()
        invariant
            i <= v@.len(),
            r@ == lowered(v@.take(i as int)),
        decreases v@.len() - i,
    {
        r.push(to_lower(v[i]));
        i = i + 1;
        assert(lowered(v@.take(i as int)) =~= lowered(v@.take(i - 1)).push(lower(v@[i - 1])));
    }
    assert(v@.take(i as int) =~= v@);
    r
}

/// Whether two character sequences are the same.
pub fn same_chars(a: &Vec<char>, b: &Vec<char>) -> (r: bool)
    ensures
        r == (a@ == b@),
{
    if a.len() != b.len() {
        return false;
    }
    let mut i: usize = 0;
    while i < a.len()
        invariant
            i <= a@.len(),
            a@.len() == b@.len(),
            a@.take(i as int) =~= b@.take(i as int),
        decreases a@.len() - i,
    {
        if a[i] != b[i] {
            return false;
        }
        i = i + 1;
    }
    assert(a@.take(i as int) =~= a@);
    assert(b@.take(i as int) =~= b@);
    true
}

/// Whether two texts are the same but for the case of ASCII letters.
pub fn same_ignoring_case(a: &Vec<char>, b: &Vec<char>) -> (r: bool)
    ensures
        r == (lowered(a@) == lowered(b@)),
{
    let x = lower_all(a);
    let y = lower_all(b);
    same_chars(&x, &y)
}

/// A media type without its parameters: what stands before the first semicolon,
/// trimmed.
pub open spec fn essence(header: Seq<char>) -> Seq<char> {
    trimmed(header.take(first_of(header, ';')))
}

/// A media type without its parameters.
pub fn media_essence(header: &str) -> (r: Vec<char>)
    ensures
        r@ == essence(header@),
{
    let v = chars_of(header);
    let at = find_first(&v, 0, ';');
    proof {
        assert(v@.skip(0) =~= v@);
        lemma_first_of(v@, ';');
        assert(v@.subrange(0, at as int) =~= v@.take(first_of(v@, ';')));
    }
    trim(&v, 0, at)
}

/// `part` stands in `s` at position `at`.
pub open spec fn stands_at(s: Seq<char>, part: Seq<char>, at: int) -> bool {
    0 <= at && at + part.len() <= s.len() && s.subrange(at, at + part.len()) == part
}

/// `part` stands somewhere in `s`.
pub open spec fn holds_text(s: Seq<char>, part: Seq<char>) -> bool {
    exists|at: int| stands_at(s, part, at)
}

/// Whether `part` stands in `v` at position `at`.
pub fn matches_at(v: &Vec<char>, part: &Vec<char>, at: usize) -> (r: bool)
    requires
        at <= v@.len(),
    ensures
        r == stands_at(v@, part@, at as int),
{
    if v.len() - at < part.len() {
        return false;
    }
    let mut i: usize = 0;
    while i < part.len()
        invariant
            i <= part@.len(),
            at + part@.len() <= v@.len() <= usize::MAX,
            v@.subrange(at as int, at + i) =~= part@.take(i as int),
        decreases part@.len() - i,
    {
        if v[at + i] != part[i] {
            proof {
                assert(v@.subrange(at as int, at + part@.len())[i as int] == v@[at + i]);
            }
            return false;
        }
        i = i + 1;
    }
    assert(part@.take(i as int) =~= part@);
    true
}

/// Whether `part` stands somewhere in `v`.
pub fn contains_text(v: &Vec<char>, part: &str) -> (r: bool)
    ensures
        r == holds_text(v@, part@),
{
    let p = chars_of(part);
    let mut at: usize = 0;
    loop
        invariant
            at <= v@.len(),
            p@ == part@,
            forall|j: int| 0 <= j < at ==> !stands_at(v@, p@, j),
        decreases v@.len() - at,
    {
        if matches_at(v, &p, at) {
            return true;
        }
        if at == v.len() {
            return false;
        }
        at = at + 1;
    }
}

/// The UTF-8 encoding of a text takes at most four bytes a character.
pub proof fn lemma_encoding_len(chars: Seq<char>)
    ensures
        encode_utf8(chars).len() <= 4 * chars.len(),
    decreases chars.len(),
{
    if chars.len() > 0 {
        lemma_encoding_len(chars.drop_first());
    }
}

/// `a` does not come after `b`.
pub open spec fn text_le(a: Seq<char>, b: Seq<char>) -> bool {
    !text_before(b, a)
}

pub proof fn lemma_text_le_ranks()
    ensures
        forall|a: Seq<char>, b: Seq<char>| #[trigger] text_le(a, b) || text_le(b, a),
        forall|a: Seq<char>, b: Seq<char>, c: Seq<char>| #[trigger]
            text_le(a, b) && #[trigger] text_le(b, c) ==> text_le(a, c),
{
    assert forall|a: Seq<char>, b: Seq<char>| #[trigger] text_le(a, b) || text_le(b, a) by {
        if text_before(b, a) && text_before(a, b) {
            lemma_text_before_transitive(a, b, a);
            lemma_text_before_irreflexive(a);
        }
    }
    assert forall|a: Seq<char>, b: Seq<char>, c: Seq<char>| #[trigger]
        text_le(a, b) && #[trigger] text_le(b, c) implies text_le(a, c) by {
        if text_before(c, a) {
            lemma_text_before_total(a, b);
            if text_before(a, b) {
                lemma_text_before_transitive(c, a, b);
            }
        }
    }
}

/// Texts, one a line, with a line feed between two.
pub open spec fn joined(list: Seq<Seq<char>>) -> Seq<char>
    decreases list.len(),
{
    if list.len() == 0 {
        Seq::empty()
    } else if list.len() == 1 {
        list[0]
    } else {
        list[0] + seq!['\n'] + joined(list.drop_first())
    }
}

/// What is left to write of a list after its first `i` texts.
spec fn unjoined(list: Seq<Seq<char>>, i: int) -> Seq<char> {
    if i == 0 {
        joined(list)
    } else if i >= list.len() {
        Seq::empty()
    } else {
        seq!['\n'] + joined(list.skip(i))
    }
}

/// Writes texts, one a line.
pub fn join_lines(list: &Vec<String>) -> (r: String)
    ensures
        r@ == joined(views(list@)),
{
    let mut r = String::new();
    let mut i: usize = 0;
    let ghost all = views(list@);
    assert(r@ + unjoined(all, 0) =~= joined(all));
    while i < list.len()
        invariant
            all == views(list@),
            i <= list@.len(),
            joined(all) == r@ + unjoined(all, i as int),
        decreases list@.len() - i,
    {
        let ghost had = r@;
        assert(all[i as int] == list@[i as int]@);
        if i > 0 {
            r.push('\n');
        }
        r.append(&list[i]);
        proof {
            let rest = all.skip(i as int);
            assert(rest[0] == all[i as int]);
            assert(rest.drop_first() =~= all.skip(i + 1));
            if i == 0 {
                assert(rest =~= all);
            }
            assert(r@ + unjoined(all, i + 1) =~= had + unjoined(all, i as int));
        }
        i = i + 1;
    }
    assert(r@ + unjoined(all, i as int) =~= r@);
    r
}

/// A line without the carriage return at its end.
pub open spec fn without_return(line: Seq<char>) -> Seq<char> {
    if line.len() > 0 && line.last() == '\r' {
        line.drop_last()
    } else {
        line
    }
}

/// The lines of a text that are not empty.
pub open spec fn kept_lines(s: Seq<char>) -> Seq<Seq<char>>
    decreases s.len(),
{
    let at = first_of(s, '\n');
    if s.len() == 0 {
        Seq::empty()
    } else if at >= s.len() || at < 0 {
        seq![s]
    } else {
        let line = without_return(s.take(at));
        let rest = kept_lines(s.skip(at + 1));
        if line.len() == 0 {
            rest
        } else {
            seq![line] + rest
        }
    }
}

/// Reads the lines of a text that are not empty.
pub fn read_lines(text: &str) -> (r: Vec<String>)
    ensures
        views(r@) == kept_lines(text@),
{
    let v = chars_of(text);
    let mut r: Vec<String> = Vec::new();
    let mut from: usize = 0;
    assert(v@.skip(0) =~= v@);
    assert(views(r@) + kept_lines(v@) =~= kept_lines(text@));
    while from < v.len()
        invariant
            v@ == text@,
            from <= v@.len(),
            kept_lines(text@) == views(r@) + kept_lines(v@.skip(from as int)),
        decreases v@.len() - from,
    {
        let at = find_first(&v, from, '\n');
        let ghost rest = v@.skip(from as int);
        let ghost had = views(r@);
        if at == v.len() {
            let line = text_of(&v, from, at);
            assert(line@ =~= rest);
            r.push(line);
            assert(views(r@) =~= had.push(rest));
            assert(v@.skip(at as int) =~= Seq::<char>::empty());
            assert(views(r@) + kept_lines(v@.skip(at as int)) =~= had + kept_lines(rest));
            from = at;
        } else {
            let end: usize = if at > from && v[at - 1] == '\r' {
                at - 1
            } else {
                at
            };
            proof {
                assert(rest.take(at - from) =~= v@.subrange(from as int, at as int));
                assert(without_return(rest.take(at - from)) =~= v@.subrange(
                    from as int,
                    end as int,
                ));
                assert(rest.skip(at - from + 1) =~= v@.skip(at + 1));
            }
            if end > from {
                let line = text_of(&v, from, end);
                let ghost lv = line@;
                r.push(line);
                assert(views(r@) =~= had.push(lv));
                assert(views(r@) + kept_lines(v@.skip(at + 1)) =~= had + (seq![lv] + kept_lines(
                    v@.skip(at + 1),
                )));
            }
            from = at + 1;
        }
    }
    assert(v@.skip(from as int) =~= Seq::<char>::empty());
    assert(views(r@) + kept_lines(v@.skip(from as int)) =~= views(r@));
    r
}

/// A text that a line can hold: not empty, without a line feed, and not ending
/// in a carriage return.
pub open spec fn fits_a_line(t: Seq<char>) -> bool {
    t.len() > 0 && !t.contains('\n') && t.last() != '\r'
}

/// Texts that fit a line each are read back as they were written.
pub proof fn lines_read_back(list: Seq<Seq<char>>)
    requires
        forall|i: int| 0 <= i < list.len() ==> fits_a_line(#[trigger] list[i]),
    ensures
        kept_lines(joined(list)) == list,
    decreases list.len(),
{
    if list.len() == 0 {
        assert(kept_lines(joined(list)) =~= list);
    } else if list.len() == 1 {
        lemma_first_of(list[0], '\n');
        assert(fits_a_line(list[0]));
        assert(kept_lines(list[0]) =~= list);
    } else {
        let rest = list.drop_first();
        assert forall|i: int| 0 <= i < rest.len() implies fits_a_line(#[trigger] rest[i]) by {
            assert(rest[i] == list[i + 1]);
        }
        lines_read_back(rest);
        assert(fits_a_line(list[0]));
        let s = joined(list);
        let n = list[0].len() as int;
        lemma_first_of(s, '\n');
        lemma_first_of(list[0], '\n');
        assert(s[n] == '\n');
        let at = first_of(s, '\n');
        if at < n {
            assert(s[at] == list[0][at]);
            assert(list[0].contains('\n'));
        }
        if at > n {
            assert(s[n] != '\n');
        }
        assert(s.take(n) =~= list[0]);
        assert(s.skip(n + 1) =~= joined(rest));
        assert(seq![list[0]] + rest =~= list);
    }
}

/// What reading a text word by word comes to: the words that are complete, and the
/// word that goes on.
pub open spec fn word_reading(s: Seq<char>) -> (Seq<Seq<char>>, Seq<char>)
    decreases s.len(),
{
    if s.len() == 0 {
        (Seq::empty(), Seq::empty())
    } else {
        let (done, word) = word_reading(s.drop_last());
        if !is_white_space(s.last()) {
            (done, word.push(s.last()))
        } else if word.len() > 0 {
            (done.push(word), Seq::empty())
        } else {
            (done, word)
        }
    }
}

/// The words of a text: what stands between its white space.
pub open spec fn words(s: Seq<char>) -> Seq<Seq<char>> {
    let (done, word) = word_reading(s);
    if word.len() > 0 {
        done.push(word)
    } else {
        done
    }
}

/// The words of a text.
pub fn split_words(text: &str) -> (r: Vec<String>)
    ensures
        views(r@) == words(text@),
{
    let v = chars_of(text);
    let mut r: Vec<String> = Vec::new();
    let mut from: usize = 0;
    let mut i: usize = 0;
    proof {
        assert(v@.take(0) =~= Seq::<char>::empty());
        assert(views(r@) =~= Seq::<Seq<char>>::empty());
        assert(v@.subrange(0, 0) =~= Seq::<char>::empty());
    }
    while i < v.len()
        invariant
            v@ == text@,
            from <= i <= v@.len(),
            word_reading(v@.take(i as int)) == (views(r@), v@.subrange(from as int, i as int)),
        decreases v@.len() - i,
    {
        let ghost had = views(r@);
        let ghost word = v@.subrange(from as int, i as int);
        proof {
            assert(v@.take(i + 1).drop_last() =~= v@.take(i as int));
            assert(v@.take(i + 1).last() == v@[i as int]);
            assert(v@.subrange(from as int, i + 1) =~= word.push(v@[i as int]));
            assert(v@.subrange(i + 1, i + 1) =~= Seq::<char>::empty());
        }
        if white_space(v[i]) {
            if from < i {
                r.push(text_of(&v, from, i));
                assert(views(r@) =~= had.push(word));
            } else {
                assert(word =~= Seq::<char>::empty());
            }
            from = i + 1;
        }
        i = i + 1;
    }
    proof {
        assert(v@.take(i as int) =~= v@);
    }
    if from < i {
        let ghost had = views(r@);
        r.push(text_of(&v, from, i));
        assert(views(r@) =~= had.push(v@.subrange(from as int, i as int)));
    }
    r
}

/// A text with every occurrence of `part`, from the left, replaced.
pub open spec fn replaced(s: Seq<char>, part: Seq<char>, with: Seq<char>) -> Seq<char>
    decreases s.len(),
{
    if part.len() == 0 || s.len() < part.len() {
        s
    } else if stands_at(s, part, 0) {
        with + replaced(s.skip(part.len() as int), part, with)
    } else {
        seq![s[0]] + replaced(s.skip(1), part, with)
    }
}

/// A text with every occurrence of `part` replaced.
pub fn replace_text(text: &str, part: &str, with: &str) -> (r: String)
    requires
        part@.len() > 0,
    ensures
        r@ == replaced(text@, part@, with@),
{
    let v = chars_of(text);
    let p = chars_of(part);
    let mut r = String::new();
    let mut i: usize = 0;
    proof {
        assert(v@.skip(0) =~= v@);
        assert(r@ + replaced(v@, p@, with@) =~= replaced(v@, p@, with@));
    }
    while i < v.len()
        invariant
            v@ == text@,
            p@ == part@,
            p@.len() > 0,
            i <= v@.len(),
            r@ + replaced(v@.skip(i as int), p@, with@) == replaced(v@, p@, with@),
        decreases v@.len() - i,
    {
        let ghost rest = v@.skip(i as int);
        let ghost had = r@;
        proof {
            assert(rest[0] == v@[i as int]);
            if i + p@.len() <= v@.len() {
                assert(rest.subrange(0, p@.len() as int) =~= v@.subrange(
                    i as int,
                    i + p@.len(),
                ));
                assert(rest.skip(p@.len() as int) =~= v@.skip(i + p@.len()));
            }
            assert(rest.skip(1) =~= v@.skip(i + 1));
        }
        if matches_at(&v, &p, i) {
            r = r.concat(with);
            i = i + p.len();
            assert(r@ + replaced(v@.skip(i as int), p@, with@) =~= had + replaced(rest, p@, with@));
        } else {
            r.push(v[i]);
            i = i + 1;
            proof {
                if rest.len() < p@.len() {
                    assert(replaced(v@.skip(i as int), p@, with@) == rest.skip(1));
                }
                assert(r@ + replaced(v@.skip(i as int), p@, with@) =~= had + replaced(
                    rest,
                    p@,
                    with@,
                ));
            }
        }
    }
    assert(v@.skip(i as int) =~= Seq::<char>::empty());
    assert(r@ =~= replaced(v@, p@, with@));
    r
}

} // verus!
