//! Text as sequences of characters: searching, splitting, trimming and
//! decimal numbers.
//!
//! The grammar of requests and responses is stated over `Seq<char>`, the view
//! of `str` and `String`. The executable helpers work on the characters of a
//! string held in a `Vec<char>`, addressed by index ranges.

use vstd::prelude::*;

verus! {

/// `pat` occurs in `s` at index `i`.
pub open spec fn occurs_at<T>(s: Seq<T>, pat: Seq<T>, i: int) -> bool {
    &&& 0 <= i
    &&& i + pat.len() <= s.len()
    &&& s.subrange(i, i + pat.len()) == pat
}

/// `pat` occurs in `s` at index `i` and nowhere before.
pub open spec fn first_occurrence<T>(s: Seq<T>, pat: Seq<T>, i: int) -> bool {
    &&& occurs_at(s, pat, i)
    &&& forall|j: int| 0 <= j < i ==> !occurs_at(s, pat, j)
}

/// The index of the first occurrence of `pat` in `s`, if there is one.
pub open spec fn find<T>(s: Seq<T>, pat: Seq<T>) -> Option<int> {
    if exists|i: int| first_occurrence(s, pat, i) {
        Some(choose|i: int| first_occurrence(s, pat, i))
    } else {
        None
    }
}

/// The pieces of `s` between the occurrences of `pat`, taken from left to
/// right without overlap. There is always at least one piece; an empty
/// pattern splits nothing.
pub open spec fn split<T>(s: Seq<T>, pat: Seq<T>) -> Seq<Seq<T>>
    decreases s.len(),
    via split_decreases::<T>
{
    match find(s, pat) {
        Some(i) if pat.len() > 0 => seq![s.subrange(0, i)] + split(
            s.subrange(i + pat.len(), s.len() as int),
            pat,
        ),
        _ => seq![s],
    }
}

#[via_fn]
proof fn split_decreases<T>(s: Seq<T>, pat: Seq<T>) {
    if let Some(i) = find(s, pat) {
        assert(first_occurrence(s, pat, i));
    }
}

/// `s` without its leading run of `c`.
pub open spec fn trim_start(s: Seq<char>, c: char) -> Seq<char>
    decreases s.len(),
{
    if s.len() > 0 && s[0] == c {
        trim_start(s.drop_first(), c)
    } else {
        s
    }
}

/// `s` without its trailing run of `c`.
pub open spec fn trim_end(s: Seq<char>, c: char) -> Seq<char>
    decreases s.len(),
{
    if s.len() > 0 && s.last() == c {
        trim_end(s.drop_last(), c)
    } else {
        s
    }
}

/// `s` without its leading and trailing runs of `c`.
pub open spec fn trim(s: Seq<char>, c: char) -> Seq<char> {
    trim_end(trim_start(s, c), c)
}

/// The value of an ASCII decimal digit.
pub open spec fn digit_value(c: char) -> Option<nat> {
    if 48 <= c as int <= 57 {
        Some((c as int - 48) as nat)
    } else {
        None
    }
}

/// The ASCII digit for `d`, where `d < 10`.
pub open spec fn digit_char(d: nat) -> char {
    (d + 48) as char
}

/// Every character of `s` is an ASCII decimal digit.
pub open spec fn all_digits(s: Seq<char>) -> bool {
    forall|i: int| 0 <= i < s.len() ==> (#[trigger] digit_value(s[i])) is Some
}

/// The number that the digits of `s` denote in base ten (0 for no digits).
pub open spec fn digits_value(s: Seq<char>) -> nat
    decreases s.len(),
{
    if s.len() == 0 {
        0
    } else {
        digits_value(s.drop_last()) * 10 + digit_value(s.last()).unwrap()
    }
}

/// The digits of an unsigned decimal literal: the text itself, or what
/// follows one leading `+`.
pub open spec fn unsigned_digits(s: Seq<char>) -> Seq<char> {
    if s.len() > 0 && s[0] == '+' {
        s.drop_first()
    } else {
        s
    }
}

/// The value of an unsigned decimal literal: an optional `+`, then one or
/// more ASCII digits and nothing else. Leading zeros are allowed.
pub open spec fn decimal_value(s: Seq<char>) -> Option<nat> {
    let digits = unsigned_digits(s);
    if digits.len() > 0 && all_digits(digits) {
        Some(digits_value(digits))
    } else {
        None
    }
}

/// The shortest decimal notation of `n`.
pub open spec fn decimal_text(n: nat) -> Seq<char>
    decreases n,
{
    if n < 10 {
        seq![digit_char(n)]
    } else {
        decimal_text(n / 10).push(digit_char(n % 10))
    }
}

/// A first occurrence is what `find` returns.
pub proof fn lemma_find_first<T>(s: Seq<T>, pat: Seq<T>, i: int)
    requires
        first_occurrence(s, pat, i),
    ensures
        find(s, pat) == Some(i),
{
    let c = choose|k: int| first_occurrence(s, pat, k);
    assert(first_occurrence(s, pat, c));
    if c < i {
        assert(!occurs_at(s, pat, c));
    } else if i < c {
        assert(!occurs_at(s, pat, i));
    }
}

/// Where `pat` occurs at all, it has a first occurrence at or before.
pub proof fn lemma_first_exists<T>(s: Seq<T>, pat: Seq<T>, k: int)
    requires
        occurs_at(s, pat, k),
    ensures
        exists|i: int| 0 <= i <= k && first_occurrence(s, pat, i),
    decreases k,
{
    if exists|j: int| 0 <= j < k && occurs_at(s, pat, j) {
        let j = choose|j: int| 0 <= j < k && occurs_at(s, pat, j);
        lemma_first_exists(s, pat, j);
        let i = choose|i: int| 0 <= i <= j && first_occurrence(s, pat, i);
        assert(0 <= i <= k && first_occurrence(s, pat, i));
    } else {
        assert(first_occurrence(s, pat, k));
    }
}

/// `find` returns nothing exactly when `pat` occurs nowhere in `s`, and
/// otherwise the first occurrence.
pub proof fn lemma_find<T>(s: Seq<T>, pat: Seq<T>)
    ensures
        match find(s, pat) {
            Some(i) => first_occurrence(s, pat, i),
            None => forall|j: int| !occurs_at(s, pat, j),
        },
{
    if find(s, pat) is None {
        assert forall|j: int| !occurs_at(s, pat, j) by {
            if occurs_at(s, pat, j) {
                lemma_first_exists(s, pat, j);
            }
        }
    }
}

/// Below the end of `s`, what follows `s` makes no difference to where
/// `pat` occurs.
pub proof fn lemma_occurs_in_prefix<T>(s: Seq<T>, more: Seq<T>, pat: Seq<T>, i: int)
    requires
        i + pat.len() <= s.len(),
    ensures
        occurs_at(s + more, pat, i) <==> occurs_at(s, pat, i),
{
    if 0 <= i {
        assert((s + more).subrange(i, i + pat.len()) == s.subrange(i, i + pat.len()));
    }
}

/// A pattern of one element occurs where that element stands.
pub proof fn lemma_occurs_at_single<T>(s: Seq<T>, a: T, i: int)
    ensures
        occurs_at(s, seq![a], i) <==> (0 <= i < s.len() && s[i] == a),
{
    if 0 <= i < s.len() {
        if s[i] == a {
            assert(s.subrange(i, i + 1) == seq![a]);
        } else {
            assert(s.subrange(i, i + 1)[0] == s[i]);
        }
    }
}

/// A pattern of two elements occurs where the two stand side by side.
pub proof fn lemma_occurs_at_pair<T>(s: Seq<T>, a: T, b: T, i: int)
    ensures
        occurs_at(s, seq![a, b], i) <==> (0 <= i && i + 2 <= s.len() && s[i] == a && s[i + 1]
            == b),
{
    if 0 <= i && i + 2 <= s.len() {
        if s[i] == a && s[i + 1] == b {
            assert(s.subrange(i, i + 2) == seq![a, b]);
        } else {
            assert(s.subrange(i, i + 2)[0] == s[i]);
            assert(s.subrange(i, i + 2)[1] == s[i + 1]);
        }
    }
}

/// A sequence in which the pattern occurs nowhere is its own only piece.
pub proof fn lemma_split_none<T>(s: Seq<T>, pat: Seq<T>)
    requires
        forall|j: int| !occurs_at(s, pat, j),
    ensures
        split(s, pat) == seq![s],
{
}

/// The first piece ends where the pattern first occurs, and the other
/// pieces are those of what follows that occurrence.
pub proof fn lemma_split_first<T>(s: Seq<T>, pat: Seq<T>, i: int)
    requires
        pat.len() > 0,
        first_occurrence(s, pat, i),
    ensures
        split(s, pat) == seq![s.subrange(0, i)] + split(
            s.subrange(i + pat.len(), s.len() as int),
            pat,
        ),
{
    lemma_find_first(s, pat, i);
}

/// An occurrence inside the window `s[from..to]` is an occurrence in `s`
/// that lies within the window.
pub proof fn lemma_occurs_in_window<T>(s: Seq<T>, from: int, to: int, pat: Seq<T>, i: int)
    requires
        0 <= from <= to <= s.len(),
    ensures
        occurs_at(s.subrange(from, to), pat, i) <==> (0 <= i && from + i + pat.len() <= to
            && occurs_at(s, pat, from + i)),
{
    if 0 <= i && from + i + pat.len() <= to {
        assert(s.subrange(from, to).subrange(i, i + pat.len()) == s.subrange(
            from + i,
            from + i + pat.len(),
        ));
    }
}

/// The digits of a longer number denote at least as much as a prefix of them.
pub proof fn lemma_digits_value_prefix(s: Seq<char>, k: int)
    requires
        0 <= k <= s.len(),
    ensures
        digits_value(s.take(k)) <= digits_value(s),
    decreases s.len(),
{
    if k == s.len() {
        assert(s.take(k) == s);
    } else {
        lemma_digits_value_prefix(s.drop_last(), k);
        assert(s.drop_last().take(k) == s.take(k));
    }
}

/// The decimal notation of a number consists of digits, does not start with
/// `+`, and denotes that number.
pub proof fn lemma_decimal_round_trip(n: nat)
    ensures
        decimal_text(n).len() > 0,
        all_digits(decimal_text(n)),
        digits_value(decimal_text(n)) == n,
        decimal_value(decimal_text(n)) == Some(n),
    decreases n,
{
    let text = decimal_text(n);
    if n < 10 {
        assert(digit_value(digit_char(n)) == Some(n));
        assert(text.drop_last() == Seq::<char>::empty());
        assert(digits_value(text) == digits_value(text.drop_last()) * 10 + n);
    } else {
        lemma_decimal_round_trip(n / 10);
        assert(digit_value(digit_char(n % 10)) == Some(n % 10));
        assert(text.drop_last() == decimal_text(n / 10));
        assert(text.last() == digit_char(n % 10));
    }
    assert(digit_value(text[0]) is Some);
    assert(text[0] != '+');
    assert(unsigned_digits(text) == text);
}

/// The characters of `s`, in order.
pub fn chars_of(s: &str) -> (chars: Vec<char>)
    ensures
        chars@ == s@,
{
    let mut chars: Vec<char> = Vec::new();
    for c in it: s.chars()
        invariant
            it.seq() == s@,
            chars@ == it.seq().take(it.index()),
    {
        chars.push(c);
    }
    chars
}

/// Whether `hay[from..to]` holds exactly the characters of `pat`.
pub(crate) fn range_equals(hay: &Vec<char>, from: usize, to: usize, pat: &Vec<char>) -> (same: bool)
    requires
        from <= to <= hay.len(),
    ensures
        same == (hay@.subrange(from as int, to as int) == pat@),
{
    if to - from != pat.len() {
        return false;
    }
    let mut k: usize = 0;
    while k < pat.len()
        invariant
            from <= to <= hay.len(),
            to - from == pat.len(),
            k <= pat.len(),
            forall|j: int| 0 <= j < k ==> hay@[from + j] == pat@[j],
        decreases pat.len() - k,
    {
        if hay[from + k] != pat[k] {
            assert(hay@.subrange(from as int, to as int)[k as int] != pat@[k as int]);
            return false;
        }
        k += 1;
    }
    assert(hay@.subrange(from as int, to as int) =~= pat@);
    true
}

/// Whether `s` holds exactly the characters of `lit`.
pub fn str_equals(s: &Vec<char>, lit: &str) -> (same: bool)
    ensures
        same == (s@ == lit@),
{
    let pat = chars_of(lit);
    assert(s@.subrange(0, s.len() as int) == s@);
    range_equals(s, 0, s.len(), &pat)
}

/// The first occurrence of `pat` inside `hay[from..to]`, as an index into
/// `hay`.
pub(crate) fn find_in(hay: &Vec<char>, from: usize, to: usize, pat: &Vec<char>) -> (found: Option<usize>)
    requires
        from <= to <= hay.len(),
    ensures
        match found {
            Some(i) => from <= i && i + pat.len() <= to && find(
                hay@.subrange(from as int, to as int),
                pat@,
            ) == Some(i - from),
            None => find(hay@.subrange(from as int, to as int), pat@) is None,
        },
{
    let ghost window = hay@.subrange(from as int, to as int);
    let mut i: usize = from;
    while to - i >= pat.len()
        invariant
            from <= i <= to <= hay.len(),
            window == hay@.subrange(from as int, to as int),
            forall|j: int| 0 <= j < i - from ==> !occurs_at(window, pat@, j),
        decreases to - i,
    {
        proof {
            lemma_occurs_in_window(hay@, from as int, to as int, pat@, i - from);
        }
        if range_equals(hay, i, i + pat.len(), pat) {
            proof {
                lemma_find_first(window, pat@, i - from);
            }
            return Some(i);
        }
        assert(pat@.len() > 0) by {
            if pat@.len() == 0 {
                assert(hay@.subrange(i as int, i as int) =~= pat@);
            }
        }
        i += 1;
    }
    None
}

/// Index ranges into `hay` that hold, one for one, the given pieces.
pub open spec fn ranges_hold(hay: Seq<char>, ranges: Seq<(usize, usize)>, pieces: Seq<Seq<char>>) -> bool {
    &&& ranges.len() == pieces.len()
    &&& forall|k: int|
        0 <= k < ranges.len() ==> {
            &&& (#[trigger] ranges[k]).0 <= ranges[k].1 <= hay.len()
            &&& hay.subrange(ranges[k].0 as int, ranges[k].1 as int) == pieces[k]
        }
}

/// The pieces of `hay[from..to]` between the occurrences of `pat`, as index
/// ranges into `hay`.
pub(crate) fn split_ranges(hay: &Vec<char>, from: usize, to: usize, pat: &Vec<char>) -> (ranges: Vec<
    (usize, usize),
>)
    requires
        from <= to <= hay.len(),
    ensures
        ranges_hold(hay@, ranges@, split(hay@.subrange(from as int, to as int), pat@)),
{
    let ghost window = hay@.subrange(from as int, to as int);
    let mut ranges: Vec<(usize, usize)> = Vec::new();
    if pat.len() == 0 {
        ranges.push((from, to));
        return ranges;
    }
    let mut pos: usize = from;
    let ghost mut done: Seq<Seq<char>> = Seq::empty();
    loop
        invariant
            from <= pos <= to <= hay.len(),
            pat.len() > 0,
            window == hay@.subrange(from as int, to as int),
            ranges_hold(hay@, ranges@, done),
            split(window, pat@) == done + split(hay@.subrange(pos as int, to as int), pat@),
        decreases to - pos,
    {
        let ghost rest = hay@.subrange(pos as int, to as int);
        match find_in(hay, pos, to, pat) {
            Some(i) => {
                proof {
                    let piece = hay@.subrange(pos as int, i as int);
                    let tail = hay@.subrange(i + pat.len(), to as int);
                    assert(rest.subrange(0, i - pos) == piece);
                    assert(rest.subrange(i - pos + pat.len(), rest.len() as int) == tail);
                    assert(done + (seq![piece] + split(tail, pat@)) == done.push(piece) + split(
                        tail,
                        pat@,
                    ));
                    done = done.push(piece);
                }
                ranges.push((pos, i));
                pos = i + pat.len();
            },
            None => {
                proof {
                    assert(done + seq![rest] == done.push(rest));
                }
                ranges.push((pos, to));
                return ranges;
            },
        }
    }
}

/// The index, counted in characters, at which `pat` first occurs in `s`.
pub fn find_text(s: &str, pat: &str) -> (found: Option<usize>)
    ensures
        match found {
            Some(i) => find(s@, pat@) == Some(i as int),
            None => find(s@, pat@) is None,
        },
{
    let chars = chars_of(s);
    let pattern = chars_of(pat);
    assert(chars@.subrange(0, chars.len() as int) == chars@);
    find_in(&chars, 0, chars.len(), &pattern)
}

/// The pieces of `s` between the occurrences of `pat`.
pub fn split_text(s: &str, pat: &str) -> (pieces: Vec<String>)
    ensures
        pieces@.map_values(|piece: String| piece@) == split(s@, pat@),
{
    let chars = chars_of(s);
    let pattern = chars_of(pat);
    assert(chars@.subrange(0, chars.len() as int) == chars@);
    let ranges = split_ranges(&chars, 0, chars.len(), &pattern);
    let mut pieces: Vec<String> = Vec::new();
    let mut k: usize = 0;
    while k < ranges.len()
        invariant
            k <= ranges.len(),
            chars@ == s@,
            ranges_hold(chars@, ranges@, split(s@, pat@)),
            pieces@.map_values(|piece: String| piece@) == split(s@, pat@).take(k as int),
        decreases ranges.len() - k,
    {
        let piece = s.substring_char(ranges[k].0, ranges[k].1).to_owned();
        proof {
            let views = pieces@.map_values(|piece: String| piece@);
            assert(pieces@.push(piece).map_values(|piece: String| piece@) == views.push(piece@));
            assert(split(s@, pat@).take(k + 1) == split(s@, pat@).take(k as int).push(piece@));
        }
        pieces.push(piece);
        k += 1;
    }
    assert(split(s@, pat@).take(k as int) == split(s@, pat@));
    pieces
}

/// An unsigned decimal literal whose value a `usize` can hold.
pub open spec fn decimal_usize(s: Seq<char>) -> Option<usize> {
    match decimal_value(s) {
        Some(n) if n <= usize::MAX => Some(n as usize),
        _ => None,
    }
}

/// The value of one ASCII decimal digit.
pub fn digit_of(c: char) -> (d: Option<usize>)
    ensures
        match d {
            Some(v) => digit_value(c) == Some(v as nat),
            None => digit_value(c) is None,
        },
{
    if c == '0' {
        Some(0)
    } else if c == '1' {
        Some(1)
    } else if c == '2' {
        Some(2)
    } else if c == '3' {
        Some(3)
    } else if c == '4' {
        Some(4)
    } else if c == '5' {
        Some(5)
    } else if c == '6' {
        Some(6)
    } else if c == '7' {
        Some(7)
    } else if c == '8' {
        Some(8)
    } else if c == '9' {
        Some(9)
    } else {
        None
    }
}

/// Reads an unsigned decimal literal: an optional `+`, then digits. Nothing
/// is returned for any other text, nor for a value beyond `usize`.
pub fn parse_usize(s: &str) -> (value: Option<usize>)
    ensures
        value == decimal_usize(s@),
{
    let chars = chars_of(s);
    let n = chars.len();
    let start: usize = if n > 0 && chars[0] == '+' {
        1
    } else {
        0
    };
    let ghost digits = unsigned_digits(chars@);
    assert(digits == chars@.subrange(start as int, n as int));
    if start == n {
        return None;
    }
    let mut acc: usize = 0;
    let mut k: usize = start;
    while k < n
        invariant
            start <= k <= n == chars.len(),
            start < n,
            chars@ == s@,
            digits == unsigned_digits(s@),
            digits == chars@.subrange(start as int, n as int),
            all_digits(digits.take(k - start)),
            acc == digits_value(digits.take(k - start)),
        decreases n - k,
    {
        let ghost seen = digits.take(k - start);
        let ghost next = digits.take(k + 1 - start);
        assert(next.drop_last() == seen);
        assert(next.last() == chars@[k as int]);
        match digit_of(chars[k]) {
            None => {
                assert(digit_value(digits[k - start]) is None);
                return None;
            },
            Some(d) => {
                if acc > (usize::MAX - d) / 10 {
                    proof {
                        assert(digits_value(next) == acc * 10 + d);
                        if all_digits(digits) {
                            lemma_digits_value_prefix(digits, k + 1 - start);
                        }
                    }
                    return None;
                }
                acc = acc * 10 + d;
            },
        }
        assert forall|j: int| 0 <= j < next.len() implies (#[trigger] digit_value(next[j])) is Some by {
            if j < seen.len() {
                assert(next[j] == seen[j]);
            }
        }
        k += 1;
    }
    assert(digits.take(n - start) == digits);
    Some(acc)
}

/// Appends the decimal notation of `n` to `out`.
pub fn push_decimal(out: &mut String, n: u64)
    ensures
        final(out)@ == old(out)@ + decimal_text(n as nat),
    decreases n,
{
    if n >= 10 {
        push_decimal(out, n / 10);
    }
    let d = n % 10;
    proof {
        reveal_strlit("0");
        reveal_strlit("1");
        reveal_strlit("2");
        reveal_strlit("3");
        reveal_strlit("4");
        reveal_strlit("5");
        reveal_strlit("6");
        reveal_strlit("7");
        reveal_strlit("8");
        reveal_strlit("9");
    }
    let digit: &str = if d == 0 {
        "0"
    } else if d == 1 {
        "1"
    } else if d == 2 {
        "2"
    } else if d == 3 {
        "3"
    } else if d == 4 {
        "4"
    } else if d == 5 {
        "5"
    } else if d == 6 {
        "6"
    } else if d == 7 {
        "7"
    } else if d == 8 {
        "8"
    } else {
        "9"
    };
    assert(digit@ == seq![digit_char(d as nat)]);
    out.append(digit);
    assert(final(out)@ == old(out)@ + decimal_text(n as nat)) by {
        if n >= 10 {
            assert(decimal_text(n as nat) == decimal_text((n / 10) as nat).push(digit_char(d as nat)));
        }
    }
}

/// `s` without its leading and trailing runs of `c`.
pub fn trim_matches(s: &str, c: char) -> (trimmed: String)
    ensures
        trimmed@ == trim(s@, c),
{
    let chars = chars_of(s);
    let n = chars.len();
    let mut a: usize = 0;
    assert(chars@.subrange(0, n as int) == chars@);
    while a < n && chars[a] == c
        invariant
            a <= n == chars.len(),
            trim_start(chars@, c) == trim_start(chars@.subrange(a as int, n as int), c),
        decreases n - a,
    {
        assert(chars@.subrange(a as int, n as int).drop_first() == chars@.subrange(
            a + 1,
            n as int,
        ));
        a += 1;
    }
    let mut b: usize = n;
    while b > a && chars[b - 1] == c
        invariant
            a <= b <= n == chars.len(),
            trim_start(chars@, c) == chars@.subrange(a as int, n as int),
            trim(chars@, c) == trim_end(chars@.subrange(a as int, b as int), c),
        decreases b,
    {
        assert(chars@.subrange(a as int, b as int).drop_last() == chars@.subrange(
            a as int,
            b - 1,
        ));
        b -= 1;
    }
    s.substring_char(a, b).to_owned()
}

} // verus!
