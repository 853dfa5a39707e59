//! Characters, words and numbers: how text typed by a person is taken apart,
//! and how numbers are put into text.

use vstd::arithmetic::power::pow;
use vstd::prelude::*;

verus! {

/// The characters of Unicode's `White_Space` property.
pub open spec fn white(c: char) -> bool {
    let n = c as u32;
    ||| 0x9 <= n <= 0xd
    ||| n == 0x20
    ||| n == 0x85
    ||| n == 0xa0
    ||| n == 0x1680
    ||| 0x2000 <= n <= 0x200a
    ||| n == 0x2028
    ||| n == 0x2029
    ||| n == 0x202f
    ||| n == 0x205f
    ||| n == 0x3000
}

/// Whether `c` is white space.
pub fn is_white(c: char) -> (r: bool)
    ensures
        r == white(c),
{
    let n: u32 = c as u32;
    (0x9 <= n && n <= 0xd) || n == 0x20 || n == 0x85 || n == 0xa0 || n == 0x1680 || (0x2000 <= n
        && n <= 0x200a) || n == 0x2028 || n == 0x2029 || n == 0x202f || n == 0x205f || n == 0x3000
}

/// Where the run of characters that starts at `i` and consists of white space
/// (or, with `w` false, of anything else) ends.
pub open spec fn run_end(s: Seq<char>, i: int, w: bool) -> int
    decreases s.len() - i,
{
    if 0 <= i < s.len() && white(s[i]) == w {
        run_end(s, i + 1, w)
    } else {
        i
    }
}

/// The length of `s[..j]` without the white space at its end.
pub open spec fn trimmed_len(s: Seq<char>, j: int) -> int
    decreases j,
{
    if 0 < j <= s.len() && white(s[j - 1]) {
        trimmed_len(s, j - 1)
    } else {
        j
    }
}

/// `s` without the white space at its two ends.
pub open spec fn trim(s: Seq<char>) -> Seq<char> {
    let a = run_end(s, 0, true);
    if a == s.len() {
        Seq::empty()
    } else {
        s.subrange(a, trimmed_len(s, s.len() as int))
    }
}

/// The words of `s[i..]`: its longest runs without white space, in order.
pub open spec fn words_from(s: Seq<char>, i: int) -> Seq<Seq<char>>
    decreases s.len() - i,
    when 0 <= i <= s.len()
    via words_from_decreases
{
    let a = run_end(s, i, true);
    if a >= s.len() {
        Seq::empty()
    } else {
        let b = run_end(s, a, false);
        seq![s.subrange(a, b)] + words_from(s, b)
    }
}

#[via_fn]
proof fn words_from_decreases(s: Seq<char>, i: int) {
    run_end_bounds(s, i, true);
    let a = run_end(s, i, true);
    if a < s.len() {
        run_end_bounds(s, a, false);
    }
}

/// The words of `s`.
pub open spec fn words(s: Seq<char>) -> Seq<Seq<char>> {
    words_from(s, 0)
}

/// A run lies inside its text, holds only what it is a run of, and is as long as
/// it can be.
pub proof fn run_end_bounds(s: Seq<char>, i: int, w: bool)
    requires
        0 <= i <= s.len(),
    ensures
        i <= run_end(s, i, w) <= s.len(),
        forall|k: int| i <= k < run_end(s, i, w) ==> white(#[trigger] s[k]) == w,
        run_end(s, i, w) < s.len() ==> white(s[run_end(s, i, w)]) != w,
    decreases s.len() - i,
{
    if i < s.len() && white(s[i]) == w {
        run_end_bounds(s, i + 1, w);
    }
}

/// What is cut from the end is white space, and what stays does not end in any.
pub proof fn trimmed_len_bounds(s: Seq<char>, j: int)
    requires
        0 <= j <= s.len(),
    ensures
        0 <= trimmed_len(s, j) <= j,
        forall|k: int| trimmed_len(s, j) <= k < j ==> white(#[trigger] s[k]),
        trimmed_len(s, j) > 0 ==> !white(s[trimmed_len(s, j) - 1]),
    decreases j,
{
    if 0 < j && white(s[j - 1]) {
        trimmed_len_bounds(s, j - 1);
    }
}

/// The characters of `s`, one by one.
pub fn chars_of(s: &str) -> (v: Vec<char>)
    ensures
        v@ == s@,
{
    let mut v: Vec<char> = Vec::new();
    for c in it: s.chars()
        invariant
            it.seq() == s@,
            v@ == s@.take(it.index() as int),
    {
        v.push(c);
        assert(v@ == s@.take(it.index() as int + 1));
    }
    assert(s@.take(s@.len() as int) == s@);
    v
}

/// Whether two texts are the same.
pub fn same_text(a: &str, b: &str) -> (r: bool)
    ensures
        r == (a@ == b@),
{
    let x = chars_of(a);
    let y = chars_of(b);
    if x.len() != y.len() {
        return false;
    }
    let mut i: usize = 0;
    while i < x.len()
        invariant
            i <= x@.len(),
            x@ == a@,
            y@ == b@,
            x@.len() == y@.len(),
            forall|k: int| 0 <= k < i ==> x@[k] == y@[k],
        decreases x@.len() - i,
    {
        if x[i] != y[i] {
            return false;
        }
        i = i + 1;
    }
    assert(x@ == y@);
    true
}

/// Finds the end of a run of white space, or of anything else, in `v`.
fn find_run_end(v: &Vec<char>, from: usize, w: bool) -> (r: usize)
    requires
        from <= v@.len(),
    ensures
        r == run_end(v@, from as int, w),
        from <= r <= v@.len(),
{
    let mut i: usize = from;
    while i < v.len() && is_white(v[i]) == w
        invariant
            from <= i <= v@.len(),
            run_end(v@, from as int, w) == run_end(v@, i as int, w),
        decreases v@.len() - i,
    {
        i = i + 1;
    }
    i
}

/// Finds the end of what stays of `v` without the white space at its end.
fn find_trimmed_len(v: &Vec<char>) -> (r: usize)
    ensures
        r == trimmed_len(v@, v@.len() as int),
        r <= v@.len(),
{
    let mut j: usize = v.len();
    while j > 0 && is_white(v[j - 1])
        invariant
            j <= v@.len(),
            trimmed_len(v@, v@.len() as int) == trimmed_len(v@, j as int),
        decreases j,
    {
        j = j - 1;
    }
    j
}

/// `s` without the white space at its two ends.
pub fn trim_text(s: &str) -> (r: String)
    ensures
        r@ == trim(s@),
{
    let v = chars_of(s);
    let a = find_run_end(&v, 0, true);
    if a == v.len() {
        return String::new();
    }
    let b = find_trimmed_len(&v);
    proof {
        run_end_bounds(s@, 0, true);
        trimmed_len_bounds(s@, s@.len() as int);
        assert(!white(s@[a as int]));
        assert(a < b);
    }
    s.substring_char(a, b).to_owned()
}

/// The words of `s`, in order.
pub fn split_words(s: &str) -> (r: Vec<String>)
    ensures
        r@.len() == words(s@).len(),
        forall|k: int| 0 <= k < r@.len() ==> (#[trigger] r@[k])@ == words(s@)[k],
{
    let v = chars_of(s);
    let mut out: Vec<String> = Vec::new();
    let mut i: usize = 0;
    let mut more: bool = true;
    while more
        invariant
            v@ == s@,
            i <= v@.len(),
            more ==> words(s@).len() == out@.len() + words_from(s@, i as int).len(),
            more ==> forall|k: int| 0 <= k < words_from(s@, i as int).len() ==>
                words(s@)[out@.len() + k] == #[trigger] words_from(s@, i as int)[k],
            !more ==> words(s@).len() == out@.len(),
            forall|k: int| 0 <= k < out@.len() ==> (#[trigger] out@[k])@ == words(s@)[k],
        decreases (if more { v@.len() - i + 1 } else { 0 }),
    {
        let a = find_run_end(&v, i, true);
        let ghost rest = words_from(s@, i as int);
        if a == v.len() {
            more = false;
        } else {
            let b = find_run_end(&v, a, false);
            proof {
                run_end_bounds(s@, i as int, true);
                run_end_bounds(s@, a as int, false);
                assert(rest[0] == s@.subrange(a as int, b as int));
                assert forall|k: int| 0 <= k < words_from(s@, b as int).len() implies
                    words(s@)[out@.len() + 1 + k] == #[trigger] words_from(s@, b as int)[k] by {
                    assert(rest[k + 1] == words_from(s@, b as int)[k]);
                }
            }
            out.push(s.substring_char(a, b).to_owned());
            i = b;
        }
    }
    out
}

/// Why a text is not a number.
#[derive(Clone, Copy, Debug, PartialEq, Eq, Structural)]
pub enum NumberError {
    /// There is nothing to read.
    Empty,
    /// Something else than a decimal digit stands where one is due.
    InvalidDigit,
    /// The number does not fit in a `usize`.
    TooLarge,
}

/// What is wrong with the text, in words.
pub open spec fn number_error_text(e: NumberError) -> Seq<char> {
    match e {
        NumberError::Empty => "cannot parse integer from empty string"@,
        NumberError::InvalidDigit => "invalid digit found in string"@,
        NumberError::TooLarge => "number too large to fit in target type"@,
    }
}

impl NumberError {
    /// What is wrong with the text, in words.
    pub fn message(&self) -> (r: String)
        ensures
            r@ == number_error_text(*self),
    {
        match self {
            NumberError::Empty => "cannot parse integer from empty string".to_owned(),
            NumberError::InvalidDigit => "invalid digit found in string".to_owned(),
            NumberError::TooLarge => "number too large to fit in target type".to_owned(),
        }
    }
}

/// The decimal digits.
pub open spec fn digit(c: char) -> bool {
    '0' <= c <= '9'
}

/// What the digits `s` stand for in base ten.
pub open spec fn number_value(s: Seq<char>) -> nat
    decreases s.len(),
{
    if s.len() == 0 {
        0
    } else {
        number_value(s.drop_last()) * 10 + (s.last() as u32 - '0' as u32) as nat
    }
}

/// Where the digits that start at `i` end.
pub open spec fn digits_end(s: Seq<char>, i: int) -> int
    decreases s.len() - i,
{
    if 0 <= i < s.len() && digit(s[i]) {
        digits_end(s, i + 1)
    } else {
        i
    }
}

/// `s` without the plus sign that it may start with.
pub open spec fn unsigned(s: Seq<char>) -> Seq<char> {
    if s.len() > 0 && s[0] == '+' {
        s.drop_first()
    } else {
        s
    }
}

/// The number that `s` is, in base ten: a plus sign or none, then digits and
/// nothing else. A number that is too large is called so even if something else
/// than digits comes after it.
pub open spec fn number_of(s: Seq<char>) -> Result<usize, NumberError> {
    let d = unsigned(s);
    let k = digits_end(d, 0);
    if s.len() == 0 {
        Err(NumberError::Empty)
    } else if number_value(d.take(k)) > usize::MAX {
        Err(NumberError::TooLarge)
    } else if d.len() == 0 || k < d.len() {
        Err(NumberError::InvalidDigit)
    } else {
        Ok(number_value(d) as usize)
    }
}

/// The digits found are digits, lie inside the text, and no digit follows them.
proof fn digits_end_bounds(s: Seq<char>, i: int)
    requires
        0 <= i <= s.len(),
    ensures
        i <= digits_end(s, i) <= s.len(),
        forall|k: int| i <= k < digits_end(s, i) ==> digit(#[trigger] s[k]),
        digits_end(s, i) < s.len() ==> !digit(s[digits_end(s, i)]),
    decreases s.len() - i,
{
    if i < s.len() && digit(s[i]) {
        digits_end_bounds(s, i + 1);
    }
}

/// More digits make a number no smaller.
proof fn number_value_grows(s: Seq<char>, i: int, j: int)
    requires
        0 <= i <= j <= s.len(),
    ensures
        number_value(s.take(i)) <= number_value(s.take(j)),
    decreases j - i,
{
    if i < j {
        number_value_grows(s, i, j - 1);
        assert(s.take(j).drop_last() == s.take(j - 1));
    }
}

/// Reads `s` as a number in base ten.
pub fn read_number(s: &str) -> (r: Result<usize, NumberError>)
    ensures
        r == number_of(s@),
{
    let v = chars_of(s);
    if v.len() == 0 {
        return Err(NumberError::Empty);
    }
    let start: usize = if v[0] == '+' { 1 } else { 0 };
    let ghost d = unsigned(s@);
    assert(d == s@.skip(start as int));
    if start == v.len() {
        assert(d.take(0) == Seq::<char>::empty());
        return Err(NumberError::InvalidDigit);
    }
    let mut total: usize = 0;
    let mut i: usize = start;
    assert(d.take(0) == Seq::<char>::empty());
    proof {
        digits_end_bounds(d, 0);
    }
    while i < v.len()
        invariant
            v@ == s@,
            v@.len() > 0,
            d == unsigned(s@),
            d == s@.skip(start as int),
            start <= i <= v@.len(),
            start < v@.len(),
            total == number_value(d.take(i - start)),
            digits_end(d, 0) == digits_end(d, i - start),
        decreases v@.len() - i,
    {
        let c = v[i];
        let ghost at: int = i - start;
        proof {
            digits_end_bounds(d, 0);
            digits_end_bounds(d, at);
            assert(d[at] == c);
        }
        if !('0' <= c && c <= '9') {
            assert(digits_end(d, at) == at);
            return Err(NumberError::InvalidDigit);
        }
        proof {
            assert(d.take(at + 1).drop_last() == d.take(at));
            digits_end_bounds(d, at + 1);
            number_value_grows(d, at + 1, digits_end(d, 0));
        }
        let x: usize = (c as u32 - '0' as u32) as usize;
        match total.checked_mul(10) {
            None => {
                return Err(NumberError::TooLarge);
            },
            Some(t) => match t.checked_add(x) {
                None => {
                    return Err(NumberError::TooLarge);
                },
                Some(u) => {
                    total = u;
                },
            },
        }
        i = i + 1;
    }
    assert(d.take(d.len() as int) == d);
    Ok(total)
}

/// The digit that stands for `n`.
pub open spec fn digit_char(n: nat) -> char {
    ('0' as u32 + n) as char
}

/// `n` in base ten, without leading zeros.
pub open spec fn decimal(n: nat) -> Seq<char>
    decreases n,
{
    if n < 10 {
        seq![digit_char(n)]
    } else {
        decimal(n / 10).push(digit_char(n % 10))
    }
}

/// The text of one digit.
fn digit_text(n: usize) -> (r: &'static str)
    requires
        n < 10,
    ensures
        r@ == seq![digit_char(n as nat)],
{
    proof {
        reveal_strlit("0");
        reveal_strlit("1");
        reveal_strlit("2");
        reveal_strlit("3");
        reveal_strlit("4");
        reveal_strlit("5");
        reveal_strlit("6");
        reveal_strlit("7");
        reveal_strlit("8");
        reveal_strlit("9");
    }
    match n {
        0 => "0",
        1 => "1",
        2 => "2",
        3 => "3",
        4 => "4",
        5 => "5",
        6 => "6",
        7 => "7",
        8 => "8",
        _ => "9",
    }
}

/// The text of `n` in base ten.
pub fn decimal_text(n: usize) -> (r: String)
    ensures
        r@ == decimal(n as nat),
    decreases n,
{
    if n < 10 {
        digit_text(n).to_owned()
    } else {
        let mut r = decimal_text(n / 10);
        r.append(digit_text(n % 10));
        assert(r@ == decimal(n as nat / 10).push(digit_char(n as nat % 10)));
        r
    }
}

/// The text of a number holds digits alone and stands for that number.
proof fn decimal_value(n: nat)
    ensures
        decimal(n).len() > 0,
        forall|k: int| 0 <= k < decimal(n).len() ==> digit(#[trigger] decimal(n)[k]),
        number_value(decimal(n)) == n,
    decreases n,
{
    if n < 10 {
        assert(decimal(n).drop_last() == Seq::<char>::empty());
        assert(number_value(Seq::<char>::empty()) == 0);
    } else {
        decimal_value(n / 10);
        assert(decimal(n).drop_last() == decimal(n / 10));
    }
}

/// Digits all the way are digits to the end.
proof fn all_digits_end(s: Seq<char>, i: int)
    requires
        0 <= i <= s.len(),
        forall|k: int| i <= k < s.len() ==> digit(#[trigger] s[k]),
    ensures
        digits_end(s, i) == s.len(),
    decreases s.len() - i,
{
    if i < s.len() {
        all_digits_end(s, i + 1);
    }
}

/// A number that is written out is read back as itself.
pub proof fn number_read_back(n: usize)
    ensures
        number_of(decimal(n as nat)) == Ok::<usize, NumberError>(n),
{
    let s = decimal(n as nat);
    decimal_value(n as nat);
    all_digits_end(s, 0);
    assert(digit(s[0]));
    assert(unsigned(s) == s);
    assert(s.take(s.len() as int) == s);
}

/// Characters of one kind, all the way to where another kind starts, are one run.
proof fn run_end_is(s: Seq<char>, i: int, j: int, w: bool)
    requires
        0 <= i <= j <= s.len(),
        forall|k: int| i <= k < j ==> white(#[trigger] s[k]) == w,
        j < s.len() ==> white(s[j]) != w,
    ensures
        run_end(s, i, w) == j,
    decreases j - i,
{
    if i < j {
        run_end_is(s, i + 1, j, w);
    }
}

/// Two words with a space between them are taken apart into the two words.
pub proof fn two_words(a: Seq<char>, b: Seq<char>)
    requires
        a.len() > 0,
        b.len() > 0,
        forall|k: int| 0 <= k < a.len() ==> !white(#[trigger] a[k]),
        forall|k: int| 0 <= k < b.len() ==> !white(#[trigger] b[k]),
    ensures
        words(a + seq![' '] + b) == seq![a, b],
{
    let s = a + seq![' '] + b;
    let m = a.len() as int;
    let n = s.len() as int;
    assert forall|k: int| 0 <= k < m implies !white(#[trigger] s[k]) by {
        assert(s[k] == a[k]);
    }
    assert forall|k: int| m < k < n implies !white(#[trigger] s[k]) by {
        assert(s[k] == b[k - m - 1]);
    }
    assert(s[m] == ' ');
    run_end_is(s, 0, 0, true);
    run_end_is(s, 0, m, false);
    run_end_is(s, m, m + 1, true);
    run_end_is(s, m + 1, n, false);
    run_end_is(s, n, n, true);
    reveal_with_fuel(words_from, 3);
    assert(s.subrange(0, m) == a);
    assert(s.subrange(m + 1, n) == b);
    assert(words_from(s, n) == Seq::<Seq<char>>::empty());
    assert(words_from(s, m) == seq![b] + words_from(s, n));
    assert(words(s) == seq![a, b]);
}

/// The text of a number is one word.
pub proof fn decimal_is_a_word(n: nat)
    ensures
        decimal(n).len() > 0,
        forall|k: int| 0 <= k < decimal(n).len() ==> !white(#[trigger] decimal(n)[k]),
{
    decimal_value(n);
    assert forall|k: int| 0 <= k < decimal(n).len() implies !white(#[trigger] decimal(n)[k]) by {
        assert(digit(decimal(n)[k]));
    }
}

/// Trimming takes white space from the two ends, all that is there, and nothing
/// else.
pub proof fn trim_takes_white_space(s: Seq<char>)
    ensures
        exists|a: int, b: int|
            #![trigger s.subrange(a, b)]
            {
                &&& 0 <= a <= b <= s.len()
                &&& trim(s) == s.subrange(a, b)
                &&& forall|k: int| 0 <= k < a ==> white(#[trigger] s[k])
                &&& forall|k: int| b <= k < s.len() ==> white(#[trigger] s[k])
            },
        trim(s).len() > 0 ==> !white(trim(s)[0]) && !white(trim(s).last()),
{
    let a = run_end(s, 0, true);
    let b = trimmed_len(s, s.len() as int);
    run_end_bounds(s, 0, true);
    trimmed_len_bounds(s, s.len() as int);
    if a == s.len() {
        assert(trim(s) == s.subrange(a, a));
    } else {
        assert(a < b);
        assert(trim(s) == s.subrange(a, b));
    }
}

/// White space from some place to the end of a text, and no further, is all that is cut.
proof fn trimmed_len_is(s: Seq<char>, m: int, j: int)
    requires
        0 <= m <= j <= s.len(),
        forall|k: int| m <= k < j ==> white(#[trigger] s[k]),
        m > 0 ==> !white(s[m - 1]),
    ensures
        trimmed_len(s, j) == m,
    decreases j - m,
{
    if m < j {
        trimmed_len_is(s, m, j - 1);
    }
}

/// The words from some place on are the same with white space around the text.
proof fn words_inside(p: Seq<char>, s: Seq<char>, q: Seq<char>, i: int)
    requires
        0 <= i <= s.len(),
        forall|k: int| 0 <= k < p.len() ==> white(#[trigger] p[k]),
        forall|k: int| 0 <= k < q.len() ==> white(#[trigger] q[k]),
    ensures
        words_from(p + s + q, p.len() + i) == words_from(s, i),
    decreases s.len() - i,
{
    let t = p + s + q;
    let d = p.len() as int;
    let n = s.len() as int;
    assert forall|k: int| 0 <= k < n implies #[trigger] t[d + k] == s[k] by {}
    assert forall|k: int| d + n <= k < t.len() implies white(#[trigger] t[k]) by {
        assert(t[k] == q[k - d - n]);
    }
    run_end_bounds(s, i, true);
    let a = run_end(s, i, true);
    assert forall|k: int| d + i <= k < d + a implies white(#[trigger] t[k]) by {
        assert(t[d + (k - d)] == s[k - d]);
    }
    if a == n {
        run_end_is(t, d + i, t.len() as int, true);
    } else {
        assert(t[d + a] == s[a]);
        run_end_is(t, d + i, d + a, true);
        run_end_bounds(s, a, false);
        let b = run_end(s, a, false);
        assert(b > a);
        assert forall|k: int| d + a <= k < d + b implies !white(#[trigger] t[k]) by {
            assert(t[d + (k - d)] == s[k - d]);
        }
        if b < n {
            assert(t[d + b] == s[b]);
        }
        run_end_is(t, d + a, d + b, false);
        assert(t.subrange(d + a, d + b) == s.subrange(a, b));
        words_inside(p, s, q, b);
    }
}

/// White space around a text changes neither its words nor what is left of it when it is
/// trimmed.
pub proof fn white_space_around(p: Seq<char>, s: Seq<char>, q: Seq<char>)
    requires
        forall|k: int| 0 <= k < p.len() ==> white(#[trigger] p[k]),
        forall|k: int| 0 <= k < q.len() ==> white(#[trigger] q[k]),
    ensures
        words(p + s + q) == words(s),
        trim(p + s + q) == trim(s),
{
    let t = p + s + q;
    let d = p.len() as int;
    let n = s.len() as int;
    assert forall|k: int| 0 <= k < d implies white(#[trigger] t[k]) by {
        assert(t[k] == p[k]);
    }
    assert forall|k: int| 0 <= k < n implies #[trigger] t[d + k] == s[k] by {}
    assert forall|k: int| d + n <= k < t.len() implies white(#[trigger] t[k]) by {
        assert(t[k] == q[k - d - n]);
    }
    words_inside(p, s, q, 0);
    run_end_bounds(t, d, true);
    let e = run_end(t, d, true);
    run_end_is(t, 0, e, true);
    assert(words_from(t, 0) == words_from(t, d));
    run_end_bounds(s, 0, true);
    let a = run_end(s, 0, true);
    assert forall|k: int| d <= k < d + a implies white(#[trigger] t[k]) by {
        assert(t[d + (k - d)] == s[k - d]);
    }
    if a == n {
        run_end_is(t, 0, t.len() as int, true);
    } else {
        assert(t[d + a] == s[a]);
        run_end_is(t, 0, d + a, true);
        trimmed_len_bounds(s, n);
        let b = trimmed_len(s, n);
        assert(a < b);
        assert forall|k: int| d + b <= k < t.len() implies white(#[trigger] t[k]) by {
            if k < d + n {
                assert(t[d + (k - d)] == s[k - d]);
            }
        }
        assert(t[d + (b - 1)] == s[b - 1]);
        trimmed_len_is(t, d + b, t.len() as int);
        assert(t.subrange(d + a, d + b) == s.subrange(a, b));
    }
}

/// Text that neither starts nor ends with white space stays as it is.
pub proof fn trim_keeps(s: Seq<char>)
    requires
        s.len() > 0 ==> !white(s[0]) && !white(s.last()),
    ensures
        trim(s) == s,
{
    if s.len() > 0 {
        assert(trimmed_len(s, s.len() as int) == s.len());
        assert(run_end(s, 0, true) == 0);
        assert(s.subrange(0, s.len() as int) == s);
    }
}

/// White space behind a text that neither starts nor ends with any is dropped.
pub proof fn trim_drops_end(s: Seq<char>, end: Seq<char>)
    requires
        s.len() > 0,
        !white(s[0]),
        !white(s.last()),
        forall|k: int| 0 <= k < end.len() ==> white(#[trigger] end[k]),
    ensures
        trim(s + end) == s,
    decreases end.len(),
{
    let t = s + end;
    trimmed_len_bounds(t, t.len() as int);
    let b = trimmed_len(t, t.len() as int);
    assert(t[0] == s[0]);
    assert(t[s.len() - 1] == s.last());
    assert(b >= s.len()) by {
        if b < s.len() {
            assert(white(t[s.len() - 1]));
        }
    }
    assert(b <= s.len()) by {
        if b > s.len() {
            assert(t[b - 1] == end[b - 1 - s.len()]);
        }
    }
    assert(t.subrange(0, s.len() as int) == s);
}

/// One more text at the end is one more text behind all the others.
pub proof fn flatten_one_more(texts: Seq<Seq<char>>, k: int)
    requires
        0 <= k < texts.len(),
    ensures
        texts.take(k + 1).flatten() == texts.take(k).flatten() + texts[k],
{
    let more = texts.take(k + 1);
    more.lemma_flatten_and_flatten_alt_are_equivalent();
    texts.take(k).lemma_flatten_and_flatten_alt_are_equivalent();
    assert(more.drop_last() == texts.take(k));
}

/// The digits, by what they stand for.
pub proof fn digits_by_value(n: nat)
    requires
        n < 10,
    ensures
        digit_char(n) == "0123456789"@[n as int],
        digit(digit_char(n)),
{
    reveal_strlit("0123456789");
}

/// What digits stand for goes by their places: what stands in front of `b` counts as many
/// times ten as `b` has digits, and one digit counts for itself.
pub proof fn digits_count_by_place(a: Seq<char>, b: Seq<char>, n: nat)
    ensures
        number_value(a + b) == number_value(a) * pow(10, b.len()) + number_value(b),
        n < 10 ==> number_value(seq![digit_char(n)]) == n,
        number_value(Seq::<char>::empty()) == 0,
    decreases b.len(),
{
    if n < 10 {
        assert(seq![digit_char(n)].drop_last() == Seq::<char>::empty());
    }
    reveal(pow);
    if b.len() == 0 {
        assert(a + b == a);
    } else {
        let front = b.drop_last();
        digits_count_by_place(a, front, n);
        assert((a + b).drop_last() == a + front);
        assert((a + b).last() == b.last());
        let x = number_value(a) as int;
        let p = pow(10, front.len());
        assert(pow(10, b.len()) == 10 * p);
        assert((x * p) * 10 == x * (10 * p)) by (nonlinear_arith);
    }
}

/// A number is written without leading zeros.
pub proof fn decimal_has_no_leading_zero(n: nat)
    ensures
        n > 0 ==> decimal(n)[0] != '0',
        n < 10 ==> decimal(n).len() == 1,
        number_value(decimal(n)) == n,
        forall|k: int| 0 <= k < decimal(n).len() ==> digit(#[trigger] decimal(n)[k]),
    decreases n,
{
    decimal_value(n);
    if n >= 10 {
        decimal_has_no_leading_zero(n / 10);
        decimal_value(n / 10);
        assert(decimal(n)[0] == decimal(n / 10)[0]);
    }
}

/// Digits up to a place are digits up to that place.
proof fn digits_end_is(s: Seq<char>, i: int, j: int)
    requires
        0 <= i <= j <= s.len(),
        forall|k: int| i <= k < j ==> digit(#[trigger] s[k]),
        j < s.len() ==> !digit(s[j]),
    ensures
        digits_end(s, i) == j,
    decreases j - i,
{
    if i < j {
        digits_end_is(s, i + 1, j);
    }
}

/// What is read as a number: one or more digits, with a plus sign before them or without,
/// and nothing else. Digits are read as what they stand for, unless that is too large.
/// Where something else follows digits, the text is no number: it is called too large if
/// the digits are, and wrong otherwise. An empty text is called empty.
pub proof fn what_is_a_number(digits: Seq<char>, rest: Seq<char>)
    requires
        forall|k: int| 0 <= k < digits.len() ==> digit(#[trigger] digits[k]),
        rest.len() > 0 ==> !digit(rest[0]),
    ensures
        number_of(Seq::<char>::empty()) == Err::<usize, NumberError>(NumberError::Empty),
        number_of(seq!['+']) == Err::<usize, NumberError>(NumberError::InvalidDigit),
        ({
            let s = digits + rest;
            let r = number_of(s);
            &&& digits.len() > 0 ==> number_of(seq!['+'] + s) == r
            &&& digits.len() > 0 && rest.len() == 0 ==> r == (if number_value(digits)
                <= usize::MAX {
                Ok::<usize, NumberError>(number_value(digits) as usize)
            } else {
                Err(NumberError::TooLarge)
            })
            &&& digits.len() > 0 && rest.len() > 0 ==> r == Err::<usize, NumberError>(
                if number_value(digits) <= usize::MAX {
                    NumberError::InvalidDigit
                } else {
                    NumberError::TooLarge
                },
            )
            &&& digits.len() == 0 && rest.len() > 0 && rest[0] != '+' ==> r == Err::<
                usize,
                NumberError,
            >(NumberError::InvalidDigit) && number_of(seq!['+'] + s) == r
            &&& digits.len() == 0 && rest.len() > 0 && rest[0] == '+' ==> number_of(
                seq!['+'] + s,
            ) == Err::<usize, NumberError>(NumberError::InvalidDigit)
        }),
{
    let s = digits + rest;
    let n = digits.len() as int;
    let t = seq!['+'] + s;
    assert(t.drop_first() == s);
    assert(seq!['+'].drop_first() == Seq::<char>::empty());
    assert(Seq::<char>::empty().take(0) == Seq::<char>::empty());
    assert(s.take(0) == Seq::<char>::empty());
    assert forall|k: int| 0 <= k < n implies digit(#[trigger] s[k]) by {
        assert(s[k] == digits[k]);
    }
    if rest.len() > 0 {
        assert(s[n] == rest[0]);
    }
    digits_end_is(s, 0, n);
    assert(s.take(n) == digits);
    if n > 0 {
        assert(digit(s[0]));
    }
    if rest.len() == 0 {
        assert(s == digits);
    }
}

/// What is wrong with a text that is no number, in words.
pub proof fn number_errors_in_words()
    ensures
        number_error_text(NumberError::Empty) == "cannot parse integer from empty string"@,
        number_error_text(NumberError::InvalidDigit) == "invalid digit found in string"@,
        number_error_text(NumberError::TooLarge) == "number too large to fit in target type"@,
{
}

/// Between two texts with white space between them no word is made or lost: the words of
/// the whole are those of the first and then those of the second. A text without white
/// space is one word, and an empty one has none.
pub proof fn words_are_split_by_white_space(a: Seq<char>, c: char, b: Seq<char>)
    requires
        white(c),
    ensures
        words(a + seq![c] + b) == words(a) + words(b),
        (forall|k: int| 0 <= k < a.len() ==> !white(#[trigger] a[k])) && a.len() > 0 ==> words(a)
            == seq![a],
        words(Seq::<char>::empty()) == Seq::<Seq<char>>::empty(),
{
    words_split_from(a, c, b, 0);
    if (forall|k: int| 0 <= k < a.len() ==> !white(#[trigger] a[k])) && a.len() > 0 {
        let n = a.len() as int;
        run_end_is(a, 0, 0, true);
        run_end_is(a, 0, n, false);
        run_end_is(a, n, n, true);
        assert(a.subrange(0, n) == a);
        assert(words_from(a, n) == Seq::<Seq<char>>::empty());
    }
}

proof fn words_split_from(a: Seq<char>, c: char, b: Seq<char>, i: int)
    requires
        white(c),
        0 <= i <= a.len(),
    ensures
        words_from(a + seq![c] + b, i) == words_from(a, i) + words(b),
    decreases a.len() - i,
{
    let t = a + seq![c] + b;
    let n = a.len() as int;
    assert forall|k: int| 0 <= k < n implies #[trigger] t[k] == a[k] by {}
    assert(t[n] == c);
    run_end_bounds(a, i, true);
    let x = run_end(a, i, true);
    if x == n {
        assert(t == (a + seq![c]) + b);
        run_end_bounds(t, n + 1, true);
        let e = run_end(t, n + 1, true);
        run_end_is(t, i, e, true);
        assert(words_from(t, i) == words_from(t, n + 1));
        words_behind(a + seq![c], b, 0);
        assert(words_from(a, i) == Seq::<Seq<char>>::empty());
        assert(words_from(a, i) + words(b) == words(b));
    } else {
        run_end_is(t, i, x, true);
        run_end_bounds(a, x, false);
        let y = run_end(a, x, false);
        run_end_is(t, x, y, false);
        assert(t.subrange(x, y) == a.subrange(x, y));
        words_split_from(a, c, b, y);
        assert(words_from(t, i) == seq![a.subrange(x, y)] + (words_from(a, y) + words(b)));
        assert(words_from(a, i) == seq![a.subrange(x, y)] + words_from(a, y));
    }
}

/// The words from some place on go by what stands there, not by what stands before.
proof fn words_behind(p: Seq<char>, s: Seq<char>, i: int)
    requires
        0 <= i <= s.len(),
    ensures
        words_from(p + s, p.len() + i) == words_from(s, i),
    decreases s.len() - i,
{
    let t = p + s;
    let d = p.len() as int;
    let n = s.len() as int;
    assert forall|k: int| 0 <= k < n implies #[trigger] t[d + k] == s[k] by {}
    run_end_bounds(s, i, true);
    let a = run_end(s, i, true);
    assert forall|k: int| d + i <= k < d + a implies white(#[trigger] t[k]) by {
        assert(t[d + (k - d)] == s[k - d]);
    }
    if a < n {
        assert(t[d + a] == s[a]);
    }
    run_end_is(t, d + i, d + a, true);
    if a < n {
        run_end_bounds(s, a, false);
        let b = run_end(s, a, false);
        assert forall|k: int| d + a <= k < d + b implies !white(#[trigger] t[k]) by {
            assert(t[d + (k - d)] == s[k - d]);
        }
        if b < n {
            assert(t[d + b] == s[b]);
        }
        run_end_is(t, d + a, d + b, false);
        assert(t.subrange(d + a, d + b) == s.subrange(a, b));
        words_behind(p, s, b);
    }
}

/// There are ten digits.
pub proof fn there_are_ten_digits(c: char)
    ensures
        digit(c) <==> "0123456789"@.contains(c),
{
    reveal_strlit("0123456789");
    let all = "0123456789"@;
    if digit(c) {
        assert(all[c as u32 - '0' as u32] == c);
    }
}

} // verus!
