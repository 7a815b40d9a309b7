//! Text as sequences of characters: the building blocks that every rendered
//! message is made of.

use vstd::prelude::*;
use vstd::std_specs::iter::IteratorSpec;
use vstd::string::StringExecFns;

verus! {

/// `String::push`. Believed, as its documentation says: it appends the
/// character to the end of the string.
pub assume_specification[ String::push ](s: &mut String, c: char)
    ensures
        final(s)@ == old(s)@.push(c),
;

/// The characters of `s`, in order.
pub fn chars_of(s: &str) -> (r: Vec<char>)
    ensures
        r@ == s@,
{
    let mut out: Vec<char> = Vec::new();
    for c in it: s.chars()
        invariant
            it.seq() == s@,
            out@ == s@.take(it.index() as int),
    {
        out.push(c);
    }
    out
}

/// The string made of `chars`, in order.
pub fn string_of(chars: &Vec<char>) -> (r: String)
    ensures
        r@ == chars@,
{
    let mut out = String::new();
    let mut i: usize = 0;
    while i < chars.len()
        invariant
            i <= chars.len(),
            out@ == chars@.take(i as int),
        decreases chars.len() - i,
    {
        out.push(chars[i]);
        i += 1;
    }
    out
}

/// Whether two texts hold the same characters.
pub fn same_chars(a: &Vec<char>, b: &Vec<char>) -> (r: bool)
    ensures
        r == (a@ == b@),
{
    if a.len() != b.len() {
        return false;
    }
    let mut i: usize = 0;
    while i < a.len()
        invariant
            i <= a.len(),
            a.len() == b.len(),
            a@.take(i as int) == b@.take(i as int),
        decreases a.len() - i,
    {
        if a[i] != b[i] {
            return false;
        }
        assert(a@.take(i + 1) =~= a@.take(i as int).push(a@[i as int]));
        assert(b@.take(i + 1) =~= b@.take(i as int).push(b@[i as int]));
        i += 1;
    }
    assert(a@ =~= a@.take(a.len() as int));
    assert(b@ =~= b@.take(b.len() as int));
    true
}

/// Whether `a` and `b` hold the same characters.
pub fn same(a: &str, b: &str) -> (r: bool)
    ensures
        r == (a@ == b@),
{
    let x = chars_of(a);
    let y = chars_of(b);
    same_chars(&x, &y)
}

/// Whether `s` begins with `prefix`.
pub fn starts_with(s: &str, prefix: &str) -> (r: bool)
    ensures
        r == prefix@.is_prefix_of(s@),
{
    let x = chars_of(s);
    let p = chars_of(prefix);
    if p.len() > x.len() {
        return false;
    }
    let mut i: usize = 0;
    while i < p.len()
        invariant
            i <= p.len() <= x.len(),
            x@ == s@,
            p@ == prefix@,
            x@.take(i as int) == p@.take(i as int),
        decreases p.len() - i,
    {
        if x[i] != p[i] {
            assert(s@.subrange(0, p@.len() as int)[i as int] != p@[i as int]);
            return false;
        }
        assert(x@.take(i + 1) =~= x@.take(i as int).push(x@[i as int]));
        assert(p@.take(i + 1) =~= p@.take(i as int).push(p@[i as int]));
        i += 1;
    }
    assert(p@ =~= p@.take(p.len() as int));
    assert(p@ =~= x@.subrange(0, p@.len() as int));
    true
}

/// What is left of `s` behind `prefix`, where `s` begins with it.
pub open spec fn without_prefix(s: Seq<char>, prefix: Seq<char>) -> Option<Seq<char>> {
    if prefix.is_prefix_of(s) {
        Some(s.skip(prefix.len() as int))
    } else {
        None
    }
}

/// `s` without `prefix` in front, or `None` where `s` does not begin with it.
pub fn strip_prefix(s: &str, prefix: &str) -> (r: Option<String>)
    ensures
        r is Some <==> prefix@.is_prefix_of(s@),
        r is Some ==> Some(r->Some_0@) == without_prefix(s@, prefix@),
{
    if !starts_with(s, prefix) {
        return None;
    }
    let x = chars_of(s);
    let n = prefix.unicode_len();
    let mut out = String::new();
    let mut i: usize = n;
    while i < x.len()
        invariant
            n <= i <= x.len(),
            x@ == s@,
            out@ == x@.subrange(n as int, i as int),
        decreases x.len() - i,
    {
        out.push(x[i]);
        i += 1;
    }
    assert(out@ =~= s@.skip(n as int));
    Some(out)
}

/// The lower-case form of an ASCII capital, and every other character as it
/// is.
pub open spec fn lower(c: char) -> char {
    if c == 'A' {
        'a'
    } else if c == 'B' {
        'b'
    } else if c == 'C' {
        'c'
    } else if c == 'D' {
        'd'
    } else if c == 'E' {
        'e'
    } else if c == 'F' {
        'f'
    } else if c == 'G' {
        'g'
    } else if c == 'H' {
        'h'
    } else if c == 'I' {
        'i'
    } else if c == 'J' {
        'j'
    } else if c == 'K' {
        'k'
    } else if c == 'L' {
        'l'
    } else if c == 'M' {
        'm'
    } else if c == 'N' {
        'n'
    } else if c == 'O' {
        'o'
    } else if c == 'P' {
        'p'
    } else if c == 'Q' {
        'q'
    } else if c == 'R' {
        'r'
    } else if c == 'S' {
        's'
    } else if c == 'T' {
        't'
    } else if c == 'U' {
        'u'
    } else if c == 'V' {
        'v'
    } else if c == 'W' {
        'w'
    } else if c == 'X' {
        'x'
    } else if c == 'Y' {
        'y'
    } else if c == 'Z' {
        'z'
    } else {
        c
    }
}

/// Whether two texts are equal once ASCII capitals are read as lower case.
pub open spec fn same_ignoring_case(a: Seq<char>, b: Seq<char>) -> bool {
    a.map_values(|c: char| lower(c)) == b.map_values(|c: char| lower(c))
}

/// [`lower`], computed.
pub fn to_lower(c: char) -> (r: char)
    ensures
        r == lower(c),
{
    match c {
        'A' => 'a',
        'B' => 'b',
        'C' => 'c',
        'D' => 'd',
        'E' => 'e',
        'F' => 'f',
        'G' => 'g',
        'H' => 'h',
        'I' => 'i',
        'J' => 'j',
        'K' => 'k',
        'L' => 'l',
        'M' => 'm',
        'N' => 'n',
        'O' => 'o',
        'P' => 'p',
        'Q' => 'q',
        'R' => 'r',
        'S' => 's',
        'T' => 't',
        'U' => 'u',
        'V' => 'v',
        'W' => 'w',
        'X' => 'x',
        'Y' => 'y',
        'Z' => 'z',
        _ => c,
    }
}

/// Whether `a` and `b` are equal once ASCII capitals are read as lower case.
pub fn eq_ignoring_case(a: &Vec<char>, b: &str) -> (r: bool)
    ensures
        r == same_ignoring_case(a@, b@),
{
    let y = chars_of(b);
    let ghost la = a@.map_values(|c: char| lower(c));
    let ghost lb = b@.map_values(|c: char| lower(c));
    if a.len() != y.len() {
        assert(la.len() != lb.len());
        return false;
    }
    let mut i: usize = 0;
    while i < a.len()
        invariant
            i <= a.len(),
            a.len() == y.len(),
            y@ == b@,
            la == a@.map_values(|c: char| lower(c)),
            lb == b@.map_values(|c: char| lower(c)),
            forall|k: int| 0 <= k < i ==> la[k] == lb[k],
        decreases a.len() - i,
    {
        if to_lower(a[i]) != to_lower(y[i]) {
            assert(la[i as int] != lb[i as int]);
            return false;
        }
        i += 1;
    }
    assert(la =~= lb);
    true
}

/// The five characters that separate words.
pub open spec fn is_space(c: char) -> bool {
    c == ' ' || c == '\t' || c == '\n' || c == '\r' || c == '\x0C'
}

/// The word that ends before position `i`, if one is open there.
pub open spec fn closed_word(s: Seq<char>, start: int, i: int) -> Seq<Seq<char>> {
    if start < i {
        seq![s.subrange(start, i)]
    } else {
        Seq::empty()
    }
}

/// The words of `s` from position `i` on, where the characters from `start`
/// up to `i` belong to a word that is still open.
pub open spec fn words_from(s: Seq<char>, start: int, i: int) -> Seq<Seq<char>>
    decreases s.len() - i,
{
    if i >= s.len() {
        closed_word(s, start, s.len() as int)
    } else if is_space(s[i]) {
        closed_word(s, start, i) + words_from(s, i + 1, i + 1)
    } else {
        words_from(s, start, i + 1)
    }
}

/// The words of `s`: its longest runs of characters that are no spaces, in
/// order.
pub open spec fn words(s: Seq<char>) -> Seq<Seq<char>> {
    words_from(s, 0, 0)
}

/// The texts that `parts` hold, in order.
pub open spec fn texts(parts: Seq<Vec<char>>) -> Seq<Seq<char>> {
    parts.map_values(|w: Vec<char>| w@)
}

/// [`is_space`], computed.
pub fn space(c: char) -> (r: bool)
    ensures
        r == is_space(c),
{
    c == ' ' || c == '\t' || c == '\n' || c == '\r' || c == '\x0C'
}

/// The characters of `s` from `from` up to `to`.
pub fn slice_of(s: &Vec<char>, from: usize, to: usize) -> (r: Vec<char>)
    requires
        from <= to <= s.len(),
    ensures
        r@ == s@.subrange(from as int, to as int),
{
    let mut out: Vec<char> = Vec::new();
    let mut i: usize = from;
    while i < to
        invariant
            from <= i <= to <= s.len(),
            out@ == s@.subrange(from as int, i as int),
        decreases to - i,
    {
        out.push(s[i]);
        i += 1;
    }
    out
}

/// Splits `s` into its words.
pub fn split_words(s: &str) -> (r: Vec<Vec<char>>)
    ensures
        texts(r@) == words(s@),
{
    let x = chars_of(s);
    let mut out: Vec<Vec<char>> = Vec::new();
    let mut start: usize = 0;
    let mut i: usize = 0;
    while i < x.len()
        invariant
            start <= i <= x.len(),
            x@ == s@,
            words(s@) == texts(out@) + words_from(s@, start as int, i as int),
        decreases x.len() - i,
    {
        if space(x[i]) {
            if start < i {
                let w = slice_of(&x, start, i);
                let ghost before = texts(out@);
                out.push(w);
                assert(texts(out@) =~= before + closed_word(s@, start as int, i as int));
            }
            start = i + 1;
        }
        i += 1;
    }
    if start < i {
        let w = slice_of(&x, start, i);
        let ghost before = texts(out@);
        out.push(w);
        assert(texts(out@) =~= before + closed_word(s@, start as int, i as int));
    }
    assert(texts(out@) =~= words(s@));
    out
}

/// `parts` in one text, with `sep` between each two.
pub open spec fn joined(parts: Seq<Seq<char>>, sep: Seq<char>) -> Seq<char>
    decreases parts.len(),
{
    if parts.len() == 0 {
        Seq::empty()
    } else if parts.len() == 1 {
        parts[0]
    } else {
        joined(parts.drop_last(), sep) + sep + parts.last()
    }
}

/// Appends every character of `chars` to `out`.
pub fn push_chars(out: &mut String, chars: &Vec<char>)
    ensures
        final(out)@ == old(out)@ + chars@,
{
    let mut i: usize = 0;
    while i < chars.len()
        invariant
            i <= chars.len(),
            out@ == old(out)@ + chars@.take(i as int),
        decreases chars.len() - i,
    {
        out.push(chars[i]);
        assert(chars@.take(i + 1) =~= chars@.take(i as int).push(chars@[i as int]));
        assert(out@ =~= old(out)@ + chars@.take(i + 1));
        i += 1;
    }
    assert(chars@.take(chars.len() as int) =~= chars@);
}

/// Puts `parts` together with `sep` between each two.
pub fn join(parts: &Vec<Vec<char>>, sep: &str) -> (r: String)
    ensures
        r@ == joined(texts(parts@), sep@),
{
    let mut out = String::new();
    let mut i: usize = 0;
    while i < parts.len()
        invariant
            i <= parts.len(),
            out@ == joined(texts(parts@).take(i as int), sep@),
        decreases parts.len() - i,
    {
        if i > 0 {
            out.append(sep);
        }
        push_chars(&mut out, &parts[i]);
        proof {
            let now = texts(parts@).take(i + 1);
            assert(now.drop_last() =~= texts(parts@).take(i as int));
            assert(now.last() == parts[i as int]@);
        }
        i += 1;
    }
    assert(texts(parts@).take(parts.len() as int) =~= texts(parts@));
    out
}

/// `s` with every run of spaces made one blank, and none at either end.
pub open spec fn squeezed(s: Seq<char>) -> Seq<char> {
    joined(words(s), seq![' '])
}

/// Puts single blanks between the words of `s`, and none at either end.
pub fn squeeze(s: &str) -> (r: String)
    ensures
        r@ == squeezed(s@),
{
    let parts = split_words(s);
    proof {
        reveal_strlit(" ");
        assert(" "@ =~= seq![' ']);
    }
    join(&parts, " ")
}

/// The character of a decimal digit.
pub open spec fn digit_char(d: int) -> char {
    if d == 0 {
        '0'
    } else if d == 1 {
        '1'
    } else if d == 2 {
        '2'
    } else if d == 3 {
        '3'
    } else if d == 4 {
        '4'
    } else if d == 5 {
        '5'
    } else if d == 6 {
        '6'
    } else if d == 7 {
        '7'
    } else if d == 8 {
        '8'
    } else {
        '9'
    }
}

/// The digit that a character stands for, if it is one.
pub open spec fn digit_value(c: char) -> Option<int> {
    if c == '0' {
        Some(0)
    } else if c == '1' {
        Some(1)
    } else if c == '2' {
        Some(2)
    } else if c == '3' {
        Some(3)
    } else if c == '4' {
        Some(4)
    } else if c == '5' {
        Some(5)
    } else if c == '6' {
        Some(6)
    } else if c == '7' {
        Some(7)
    } else if c == '8' {
        Some(8)
    } else if c == '9' {
        Some(9)
    } else {
        None
    }
}

/// `n` written in decimal, without leading zeros.
pub open spec fn decimal(n: nat) -> Seq<char>
    decreases n,
{
    if n < 10 {
        seq![digit_char(n as int)]
    } else {
        decimal(n / 10).push(digit_char((n % 10) as int))
    }
}

/// The number that a run of decimal digits stands for; `None` for an empty
/// run and for one that holds anything but digits.
pub open spec fn digits_value(s: Seq<char>) -> Option<nat>
    decreases s.len(),
{
    if s.len() == 0 {
        None
    } else if s.len() == 1 {
        match digit_value(s[0]) {
            Some(d) => Some(d as nat),
            None => None,
        }
    } else {
        match (digits_value(s.drop_last()), digit_value(s.last())) {
            (Some(high), Some(d)) => Some((high * 10 + d) as nat),
            _ => None,
        }
    }
}

/// The number that `s` stands for: decimal digits, a `+` in front allowed,
/// and no more than `max`.
pub open spec fn unsigned_value(s: Seq<char>, max: nat) -> Option<nat> {
    let digits = if s.len() > 0 && s[0] == '+' {
        s.drop_first()
    } else {
        s
    };
    match digits_value(digits) {
        Some(v) => if v <= max {
            Some(v)
        } else {
            None
        },
        None => None,
    }
}

fn digit_of(c: char) -> (r: Option<u64>)
    ensures
        r is Some <==> digit_value(c) is Some,
        r is Some ==> r->Some_0 == digit_value(c)->Some_0,
{
    match c {
        '0' => Some(0),
        '1' => Some(1),
        '2' => Some(2),
        '3' => Some(3),
        '4' => Some(4),
        '5' => Some(5),
        '6' => Some(6),
        '7' => Some(7),
        '8' => Some(8),
        '9' => Some(9),
        _ => None,
    }
}

fn char_of_digit(d: u64) -> (r: char)
    requires
        d < 10,
    ensures
        r == digit_char(d as int),
{
    if d == 0 {
        '0'
    } else if d == 1 {
        '1'
    } else if d == 2 {
        '2'
    } else if d == 3 {
        '3'
    } else if d == 4 {
        '4'
    } else if d == 5 {
        '5'
    } else if d == 6 {
        '6'
    } else if d == 7 {
        '7'
    } else if d == 8 {
        '8'
    } else {
        '9'
    }
}

/// Every digit run that has a value has one at each of its beginnings, and
/// none of those is larger.
pub proof fn lemma_digits_prefix(s: Seq<char>, i: int)
    requires
        0 < i <= s.len(),
    ensures
        digits_value(s) is Some ==> digits_value(s.take(i)) is Some && digits_value(
            s.take(i),
        )->Some_0 <= digits_value(s)->Some_0,
    decreases s.len(),
{
    if i == s.len() {
        assert(s.take(i) =~= s);
    } else if s.len() > 1 {
        assert(s.drop_last().take(i) =~= s.take(i));
        lemma_digits_prefix(s.drop_last(), i);
    }
}

/// The digit that stands for `d` stands for it alone, and is no sign.
pub proof fn lemma_digit_char(d: int)
    requires
        0 <= d < 10,
    ensures
        digit_value(digit_char(d)) == Some(d),
        digit_char(d) != '+',
{
}

/// What is written in decimal reads back as the same number.
pub proof fn lemma_decimal_reads_back(n: nat, max: nat)
    ensures
        decimal(n).len() > 0,
        decimal(n)[0] != '+',
        digits_value(decimal(n)) == Some(n),
        n <= max ==> unsigned_value(decimal(n), max) == Some(n),
    decreases n,
{
    if n < 10 {
        lemma_digit_char(n as int);
    } else {
        lemma_decimal_reads_back(n / 10, max);
        lemma_digit_char((n % 10) as int);
        let written = decimal(n);
        assert(written.drop_last() =~= decimal(n / 10));
        assert(written.last() == digit_char((n % 10) as int));
        assert(written[0] == decimal(n / 10)[0]);
    }
}

/// Reads `s` as an unsigned decimal number of at most `max`.
pub fn parse_unsigned(s: &str, max: u64) -> (r: Option<u64>)
    ensures
        r is Some <==> unsigned_value(s@, max as nat) is Some,
        r is Some ==> r->Some_0 == unsigned_value(s@, max as nat)->Some_0,
{
    let x = chars_of(s);
    let first: usize = if x.len() > 0 && x[0] == '+' {
        1
    } else {
        0
    };
    let ghost digits = s@.skip(first as int);
    assert(digits =~= if s@.len() > 0 && s@[0] == '+' {
        s@.drop_first()
    } else {
        s@
    });
    if first == x.len() {
        return None;
    }
    let mut acc: u64 = 0;
    let mut i: usize = first;
    while i < x.len()
        invariant
            first <= i <= x.len(),
            first < x.len(),
            x@ == s@,
            digits == s@.skip(first as int),
            digits == (if s@.len() > 0 && s@[0] == '+' {
                s@.drop_first()
            } else {
                s@
            }),
            i > first ==> digits_value(digits.take(i - first)) == Some(acc as nat),
            i == first ==> acc == 0,
            acc <= max,
        decreases x.len() - i,
    {
        let ghost upto = digits.take(i + 1 - first);
        proof {
            assert(upto.drop_last() =~= digits.take(i - first));
            assert(upto.last() == x@[i as int]);
        }
        match digit_of(x[i]) {
            None => {
                proof {
                    assert(digits_value(upto) is None);
                    lemma_digits_prefix(digits, i + 1 - first);
                }
                return None;
            },
            Some(d) => {
                assert(digits_value(upto) == Some((acc * 10 + d) as nat));
                if acc > max / 10 || d > max - acc * 10 {
                    proof {
                        lemma_digits_prefix(digits, i + 1 - first);
                    }
                    return None;
                }
                acc = acc * 10 + d;
            },
        }
        i += 1;
    }
    assert(digits.take(i - first) =~= digits);
    Some(acc)
}

/// Appends `n` in decimal to `out`.
pub fn push_decimal(out: &mut String, n: u64)
    ensures
        final(out)@ == old(out)@ + decimal(n as nat),
    decreases n,
{
    if n >= 10 {
        push_decimal(out, n / 10);
    }
    out.push(char_of_digit(n % 10));
    assert(out@ =~= old(out)@ + decimal(n as nat));
}

/// `n` in decimal.
pub fn decimal_string(n: u64) -> (r: String)
    ensures
        r@ == decimal(n as nat),
{
    let mut out = String::new();
    push_decimal(&mut out, n);
    out
}

/// `n` copies of `c`.
pub open spec fn repeated(c: char, n: nat) -> Seq<char> {
    Seq::new(n, |i: int| c)
}

/// Appends `n` copies of `c` to `out`.
pub fn push_repeated(out: &mut String, c: char, n: usize)
    ensures
        final(out)@ == old(out)@ + repeated(c, n as nat),
{
    let mut i: usize = 0;
    while i < n
        invariant
            i <= n,
            out@ == old(out)@ + repeated(c, i as nat),
        decreases n - i,
    {
        out.push(c);
        assert(out@ =~= old(out)@ + repeated(c, (i + 1) as nat));
        i += 1;
    }
}

/// `s` with blanks behind it up to `width` characters; `s` itself where it is
/// that long already.
pub open spec fn padded_right(s: Seq<char>, width: nat) -> Seq<char> {
    if s.len() >= width {
        s
    } else {
        s + repeated(' ', (width - s.len()) as nat)
    }
}

/// `s` with blanks in front of it up to `width` characters; `s` itself where
/// it is that long already.
pub open spec fn padded_left(s: Seq<char>, width: nat) -> Seq<char> {
    if s.len() >= width {
        s
    } else {
        repeated(' ', (width - s.len()) as nat) + s
    }
}

/// Appends `s` to `out` and fills with blanks up to `width` characters.
pub fn push_padded_right(out: &mut String, s: &str, width: usize)
    ensures
        final(out)@ == old(out)@ + padded_right(s@, width as nat),
{
    let n = s.unicode_len();
    out.append(s);
    if n < width {
        push_repeated(out, ' ', width - n);
    }
    assert(out@ =~= old(out)@ + padded_right(s@, width as nat));
}

/// Appends blanks to `out` and then `s`, `width` characters in all where `s`
/// is shorter.
pub fn push_padded_left(out: &mut String, s: &str, width: usize)
    ensures
        final(out)@ == old(out)@ + padded_left(s@, width as nat),
{
    let n = s.unicode_len();
    if n < width {
        push_repeated(out, ' ', width - n);
    }
    out.append(s);
    assert(out@ =~= old(out)@ + padded_left(s@, width as nat));
}

/// The number of bytes that `s` takes in UTF-8, as a machine word holds it.
pub open spec fn byte_len(s: Seq<char>) -> nat {
    (vstd::utf8::encode_utf8(s).len() as usize) as nat
}

/// Where the first `". "` of `s` at or behind position `i` begins; the length
/// of `s` where there is none.
pub open spec fn sentence_end(s: Seq<char>, i: int) -> int
    decreases s.len() - i,
{
    if i + 1 >= s.len() {
        s.len() as int
    } else if s[i] == '.' && s[i + 1] == ' ' {
        i
    } else {
        sentence_end(s, i + 1)
    }
}

/// `s` up to its first `". "`; all of `s` where there is none.
pub open spec fn first_sentence(s: Seq<char>) -> Seq<char> {
    s.take(sentence_end(s, 0))
}

/// Cuts `s` before its first `". "`.
pub fn cut_sentence(s: &str) -> (r: String)
    ensures
        r@ == first_sentence(s@),
{
    let x = chars_of(s);
    let mut i: usize = 0;
    while x.len() - i > 1 && !(x[i] == '.' && x[i + 1] == ' ')
        invariant
            i <= x.len(),
            x@ == s@,
            sentence_end(s@, 0) == sentence_end(s@, i as int),
        decreases x.len() - i,
    {
        i += 1;
    }
    let end: usize = if x.len() - i <= 1 {
        x.len()
    } else {
        i
    };
    let cut = slice_of(&x, 0, end);
    string_of(&cut)
}

/// `n` in decimal, with `-` in front where it is negative.
pub open spec fn signed_decimal(n: int) -> Seq<char> {
    if n < 0 {
        seq!['-'] + decimal((-n) as nat)
    } else {
        decimal(n as nat)
    }
}

/// Appends `n` in decimal to `out`, with `-` in front where it is negative.
pub fn push_signed(out: &mut String, n: i64)
    ensures
        final(out)@ == old(out)@ + signed_decimal(n as int),
{
    if n < 0 {
        out.push('-');
        let magnitude: u64 = if n == i64::MIN {
            9223372036854775808
        } else {
            (-n) as u64
        };
        push_decimal(out, magnitude);
        assert(out@ =~= old(out)@ + signed_decimal(n as int));
    } else {
        push_decimal(out, n as u64);
    }
}

} // verus!
