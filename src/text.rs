//! Character-level helpers on strings.
use vstd::prelude::*;
use vstd::string::*;
use std::cmp::Ordering;

verus! {

/// Whether two strings hold the same characters.
pub fn text_eq(a: &str, b: &str) -> (r: bool)
    ensures
        r == (a@ == b@),
{
    let n = a.unicode_len();
    let m = b.unicode_len();
    if n != m {
        return false;
    }
    let mut i: usize = 0;
    while i < n
        invariant
            n == a@.len(),
            m == b@.len(),
            n == m,
            i <= n,
            forall|k: int| 0 <= k < i ==> a@[k] == b@[k],
        decreases n - i,
    {
        if a.get_char(i) != b.get_char(i) {
            return false;
        }
        i = i + 1;
    }
    proof {
        assert(a@ =~= b@);
    }
    true
}

/// The first position at or after `i` that holds `c`; the length when none does.
pub open spec fn find_from(s: Seq<char>, c: char, i: int) -> int
    decreases s.len() - i,
{
    if i >= s.len() {
        s.len() as int
    } else if i >= 0 && s[i] == c {
        i
    } else {
        find_from(s, c, i + 1)
    }
}

/// How many times `c` occurs at or after position `i`.
pub open spec fn count_from(s: Seq<char>, c: char, i: int) -> nat
    decreases s.len() - i,
{
    if i >= s.len() || i < 0 {
        0
    } else {
        (if s[i] == c { 1nat } else { 0nat }) + count_from(s, c, i + 1)
    }
}

/// The text before the first comma (all of it when there is none).
pub open spec fn first_field(s: Seq<char>) -> Seq<char> {
    s.subrange(0, find_from(s, ',', 0))
}

/// The text between the first and the second comma (or the end).
pub open spec fn second_field(s: Seq<char>) -> Seq<char> {
    let i = find_from(s, ',', 0);
    s.subrange(i + 1, find_from(s, ',', i + 1))
}

/// `find_from` stops at the first `c`, or at the end.
proof fn lemma_find_from_bounds(s: Seq<char>, c: char, i: int)
    requires
        0 <= i,
    ensures
        i <= find_from(s, c, i) <= s.len() || (i > s.len() && find_from(s, c, i) == s.len()),
        find_from(s, c, i) < s.len() ==> s[find_from(s, c, i)] == c,
        forall|k: int| i <= k < find_from(s, c, i) ==> s[k] != c,
    decreases s.len() - i,
{
    if i < s.len() && s[i] != c {
        lemma_find_from_bounds(s, c, i + 1);
    }
}

/// No `c` from `i` on means a count of zero.
proof fn lemma_count_zero(s: Seq<char>, c: char, i: int)
    requires
        0 <= i,
        find_from(s, c, i) == s.len(),
    ensures
        count_from(s, c, i) == 0,
    decreases s.len() - i,
{
    if i < s.len() {
        lemma_count_zero(s, c, i + 1);
    }
}

/// The first position at or after `from` that holds `c`, or the length.
pub fn find_char(s: &str, c: char, from: usize) -> (r: usize)
    ensures
        r == find_from(s@, c, from as int),
{
    let n = s.unicode_len();
    if from >= n {
        return n;
    }
    let mut i: usize = from;
    while i < n
        invariant
            n == s@.len(),
            from <= i <= n,
            find_from(s@, c, from as int) == find_from(s@, c, i as int),
        decreases n - i,
    {
        if s.get_char(i) == c {
            return i;
        }
        i = i + 1;
    }
    n
}

/// How many commas a text holds: 0, 1, or 2 for two or more.
pub fn comma_count_up_to_two(s: &str) -> (r: usize)
    ensures
        r == (if count_from(s@, ',', 0) >= 2 { 2 } else { count_from(s@, ',', 0) }),
{
    let n = s.unicode_len();
    let i = find_char(s, ',', 0);
    proof {
        lemma_find_from_bounds(s@, ',', 0);
        lemma_count_prefix(s@, ',', 0, i as int);
    }
    if i == n {
        proof {
            lemma_count_zero(s@, ',', 0);
        }
        return 0;
    }
    let j = find_char(s, ',', i + 1);
    proof {
        lemma_find_from_bounds(s@, ',', i + 1);
        lemma_count_prefix(s@, ',', i + 1, j as int);
    }
    if j == n {
        proof {
            lemma_count_zero(s@, ',', i + 1);
        }
        1
    } else {
        2
    }
}

/// Counting from `i` equals counting from `j` when no `c` lies between them.
proof fn lemma_count_prefix(s: Seq<char>, c: char, i: int, j: int)
    requires
        0 <= i <= j <= s.len(),
        forall|k: int| i <= k < j ==> s[k] != c,
    ensures
        count_from(s, c, i) == count_from(s, c, j),
    decreases j - i,
{
    if i < j {
        lemma_count_prefix(s, c, i + 1, j);
    }
}

/// The text before the first comma, and the text between it and the next
/// comma or the end.
pub fn two_fields(s: &str) -> (r: (String, String))
    requires
        count_from(s@, ',', 0) >= 1,
    ensures
        r.0@ == first_field(s@),
        r.1@ == second_field(s@),
{
    let n = s.unicode_len();
    let i = find_char(s, ',', 0);
    proof {
        lemma_find_from_bounds(s@, ',', 0);
        if i == n {
            lemma_count_zero(s@, ',', 0);
        }
    }
    let j = find_char(s, ',', i + 1);
    proof {
        lemma_find_from_bounds(s@, ',', i + 1);
    }
    let a = s.substring_char(0, i);
    let b = s.substring_char(i + 1, j);
    (String::from_str(a), String::from_str(b))
}

/// Lexicographic order of two character sequences by code point:
/// less, equal or greater.
pub open spec fn lex_cmp(a: Seq<char>, b: Seq<char>) -> Ordering
    decreases a.len(),
{
    if a.len() == 0 && b.len() == 0 {
        Ordering::Equal
    } else if a.len() == 0 {
        Ordering::Less
    } else if b.len() == 0 {
        Ordering::Greater
    } else if (a[0] as u32) < (b[0] as u32) {
        Ordering::Less
    } else if (a[0] as u32) > (b[0] as u32) {
        Ordering::Greater
    } else {
        lex_cmp(a.drop_first(), b.drop_first())
    }
}

/// Compares two texts by code point, which is the order of their UTF-8 bytes.
pub fn compare_text(a: &str, b: &str) -> (r: Ordering)
    ensures
        r == lex_cmp(a@, b@),
{
    let n = a.unicode_len();
    let m = b.unicode_len();
    let mut i: usize = 0;
    proof {
        assert(a@.subrange(0, n as int) =~= a@);
        assert(b@.subrange(0, m as int) =~= b@);
    }
    while i < n && i < m
        invariant
            n == a@.len(),
            m == b@.len(),
            i <= n,
            i <= m,
            lex_cmp(a@, b@) == lex_cmp(a@.subrange(i as int, n as int), b@.subrange(
                i as int,
                m as int,
            )),
        decreases n - i,
    {
        let x = a.get_char(i);
        let y = b.get_char(i);
        proof {
            let sa = a@.subrange(i as int, n as int);
            let sb = b@.subrange(i as int, m as int);
            assert(sa.drop_first() =~= a@.subrange(i + 1, n as int));
            assert(sb.drop_first() =~= b@.subrange(i + 1, m as int));
        }
        if (x as u32) < (y as u32) {
            return Ordering::Less;
        }
        if (x as u32) > (y as u32) {
            return Ordering::Greater;
        }
        i = i + 1;
    }
    if i < m {
        Ordering::Less
    } else if i < n {
        Ordering::Greater
    } else {
        Ordering::Equal
    }
}

/// A text without its leading and trailing white space.
pub uninterp spec fn trimmed_of(s: Seq<char>) -> Seq<char>;

/// A text in upper case.
pub uninterp spec fn upper_of(s: Seq<char>) -> Seq<char>;

/// The words of a text, split at runs of white space.
pub uninterp spec fn words_of(s: Seq<char>) -> Seq<Seq<char>>;

/// A word in Pascal case ("new" becomes "New").
pub uninterp spec fn pascal_of(s: Seq<char>) -> Seq<char>;

/// Relies on `str::trim`: removes leading and trailing white space.
#[verifier::external_body]
pub(crate) fn trim(s: &str) -> (r: String)
    ensures
        r@ == trimmed_of(s@),
{
    s.trim().to_string()
}

/// Relies on `str::to_uppercase`: the upper-case form of each character.
#[verifier::external_body]
pub(crate) fn to_upper(s: &str) -> (r: String)
    ensures
        r@ == upper_of(s@),
{
    s.to_uppercase()
}

/// Relies on `str::split_whitespace`: the words between runs of white space.
#[verifier::external_body]
pub(crate) fn split_words(s: &str) -> (r: Vec<String>)
    ensures
        r@.map_values(|w: String| w@) == words_of(s@),
{
    s.split_whitespace().map(String::from).collect()
}

/// Relies on `stringcase::pascal_case`: the word in Pascal case.
#[verifier::external_body]
pub(crate) fn pascal(s: &str) -> (r: String)
    ensures
        r@ == pascal_of(s@),
{
    stringcase::pascal_case(s)
}

/// Words joined with single spaces.
pub open spec fn join_words(ws: Seq<Seq<char>>) -> Seq<char>
    decreases ws.len(),
{
    if ws.len() == 0 {
        Seq::empty()
    } else if ws.len() == 1 {
        ws[0]
    } else {
        join_words(ws.drop_last()) + " "@ + ws.last()
    }
}

/// The decimal digit character of a digit value.
pub open spec fn digit_char(d: int) -> char {
    if d == 0 { '0' } else if d == 1 { '1' } else if d == 2 { '2' } else if d == 3 { '3' }
    else if d == 4 { '4' } else if d == 5 { '5' } else if d == 6 { '6' } else if d == 7 { '7' }
    else if d == 8 { '8' } else { '9' }
}

/// The decimal digits of a natural number, without leading zeros.
pub open spec fn digits_of(n: nat) -> Seq<char>
    decreases n,
{
    if n < 10 {
        seq![digit_char(n as int)]
    } else {
        digits_of(n / 10) + seq![digit_char((n % 10) as int)]
    }
}

/// The decimal text of an integer, with a minus sign when negative.
pub open spec fn int_text_of(n: int) -> Seq<char> {
    if n < 0 {
        seq!['-'] + digits_of((-n) as nat)
    } else {
        digits_of(n as nat)
    }
}

fn digit_text(d: u64) -> (r: &'static str)
    requires
        d < 10,
    ensures
        r@ == seq![digit_char(d as int)],
{
    proof {
        reveal_strlit("0");
        reveal_strlit("1");
        reveal_strlit("2");
        reveal_strlit("3");
        reveal_strlit("4");
        reveal_strlit("5");
        reveal_strlit("6");
        reveal_strlit("7");
        reveal_strlit("8");
        reveal_strlit("9");
    }
    if d == 0 { "0" } else if d == 1 { "1" } else if d == 2 { "2" } else if d == 3 { "3" }
    else if d == 4 { "4" } else if d == 5 { "5" } else if d == 6 { "6" } else if d == 7 { "7" }
    else if d == 8 { "8" } else { "9" }
}

/// The decimal digits of a natural number.
pub fn nat_text(n: u64) -> (r: String)
    ensures
        r@ == digits_of(n as nat),
    decreases n,
{
    if n < 10 {
        String::from_str(digit_text(n))
    } else {
        let mut s = nat_text(n / 10);
        s.append(digit_text(n % 10));
        s
    }
}

/// The decimal text of an integer.
pub fn int_text(n: i32) -> (r: String)
    ensures
        r@ == int_text_of(n as int),
{
    if n < 0 {
        let m: i64 = 0 - (n as i64);
        let mut s = String::from_str("-");
        let d = nat_text(m as u64);
        s.append(d.as_str());
        proof {
            reveal_strlit("-");
        }
        s
    } else {
        nat_text(n as u64)
    }
}

/// The magnitude of an integer.
pub open spec fn magnitude(m: int) -> nat {
    (if m < 0 { -m } else { m }) as nat
}

/// A count of thousandths rounded to a whole number, half away from zero,
/// written as a float prints it (a negative value keeps its sign, even "-0").
pub open spec fn rounded_text_of(m: int) -> Seq<char> {
    (if m < 0 { "-"@ } else { ""@ }) + digits_of((magnitude(m) + 500) / 1000)
}

/// The digits of the fractional part `f` (0 to 999 thousandths), without
/// trailing zeros, after a point; empty when `f` is zero.
pub open spec fn fraction_text_of(f: nat) -> Seq<char> {
    if f == 0 {
        Seq::empty()
    } else if f % 100 == 0 {
        seq!['.', digit_char((f / 100) as int)]
    } else if f % 10 == 0 {
        seq!['.', digit_char((f / 100) as int), digit_char((f / 10 % 10) as int)]
    } else {
        seq!['.', digit_char((f / 100) as int), digit_char((f / 10 % 10) as int), digit_char((f % 10) as int)]
    }
}

/// A count of thousandths written as the shortest decimal ("1013.2", "0.05").
pub open spec fn decimal_text_of(m: int) -> Seq<char> {
    (if m < 0 { "-"@ } else { ""@ }) + digits_of(magnitude(m) / 1000) + fraction_text_of(
        magnitude(m) % 1000,
    )
}

/// `n` spaces.
pub open spec fn spaces(n: int) -> Seq<char>
    decreases n,
{
    if n <= 0 {
        Seq::empty()
    } else {
        spaces(n - 1).push(' ')
    }
}

/// A text padded with spaces on the right to at least `w` characters.
pub open spec fn pad_end_of(s: Seq<char>, w: int) -> Seq<char> {
    s + spaces(w - s.len())
}

/// A text padded with spaces on the left to at least `w` characters.
pub open spec fn pad_start_of(s: Seq<char>, w: int) -> Seq<char> {
    spaces(w - s.len()) + s
}

fn unsigned_magnitude(m: i64) -> (r: u64)
    ensures
        r == magnitude(m as int),
{
    if m < 0 { (0i128 - m as i128) as u64 } else { m as u64 }
}

/// Writes a count of thousandths rounded to a whole number.
pub fn rounded_text(m: i64) -> (r: String)
    ensures
        r@ == rounded_text_of(m as int),
{
    let a = unsigned_magnitude(m);
    let mut s = if m < 0 { String::from_str("-") } else { String::new() };
    let d = nat_text((a + 500) / 1000);
    s.append(d.as_str());
    proof {
        reveal_strlit("-");
        reveal_strlit("");
        assert(s@ =~= rounded_text_of(m as int));
    }
    s
}

/// Writes a count of thousandths as the shortest decimal.
pub fn decimal_text(m: i64) -> (r: String)
    ensures
        r@ == decimal_text_of(m as int),
{
    let a = unsigned_magnitude(m);
    let mut s = if m < 0 { String::from_str("-") } else { String::new() };
    let whole = nat_text(a / 1000);
    s.append(whole.as_str());
    let f = a % 1000;
    if f != 0 {
        s.append(".");
        s.append(digit_text(f / 100));
        if f % 100 != 0 {
            s.append(digit_text(f / 10 % 10));
            if f % 10 != 0 {
                s.append(digit_text(f % 10));
            }
        }
    }
    proof {
        reveal_strlit("-");
        reveal_strlit("");
        reveal_strlit(".");
        assert(s@ =~= decimal_text_of(m as int));
    }
    s
}

/// Pads a text with spaces on the right to at least `w` characters.
pub fn pad_end(s: String, w: usize) -> (r: String)
    ensures
        r@ == pad_end_of(s@, w as int),
{
    let n = s.as_str().unicode_len();
    let mut r = s;
    let mut i: usize = n;
    while i < w
        invariant
            n <= i,
            i <= w || n >= w,
            n >= w ==> i == n,
            n == s@.len(),
            r@ == s@ + spaces(i - n),
        decreases w - i,
    {
        proof {
            reveal_strlit(" ");
        }
        r.append(" ");
        i = i + 1;
        proof {
            assert(r@ =~= s@ + spaces(i - n));
        }
    }
    proof {
        if n >= w {
            assert(spaces(w - n) =~= Seq::<char>::empty());
            assert(spaces(i - n) =~= Seq::<char>::empty());
            assert(s@ + Seq::<char>::empty() =~= s@);
        } else {
            assert(i == w);
        }
        assert(r@ =~= pad_end_of(s@, w as int));
    }
    r
}

/// Pads a text with spaces on the left to at least `w` characters.
pub fn pad_start(s: String, w: usize) -> (r: String)
    ensures
        r@ == pad_start_of(s@, w as int),
{
    let n = s.as_str().unicode_len();
    let mut r = String::new();
    let mut i: usize = n;
    while i < w
        invariant
            n <= i,
            i <= w || n >= w,
            n >= w ==> i == n,
            n == s@.len(),
            r@ == spaces(i - n),
        decreases w - i,
    {
        proof {
            reveal_strlit(" ");
        }
        r.append(" ");
        i = i + 1;
        proof {
            assert(r@ =~= spaces(i - n));
        }
    }
    r.append(s.as_str());
    proof {
        if n >= w {
            assert(spaces(w - n) =~= Seq::<char>::empty());
            assert(spaces(i - n) =~= Seq::<char>::empty());
        } else {
            assert(i == w);
        }
        assert(r@ =~= pad_start_of(s@, w as int));
    }
    r
}

} // verus!
