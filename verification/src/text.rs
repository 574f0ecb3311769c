//! Text handling over sequences of characters.
//!
//! Strings are read once into `Vec<char>`; every operation here is stated
//! over `Seq<char>`, the view of `str`, `String` and `Vec<char>` alike.

use vstd::prelude::*;

verus! {

/// `String::push` appends one character.
pub assume_specification[ String::push ](s: &mut String, c: char)
    ensures
        final(s)@ == old(s)@.push(c),
;

/// The characters of `s`, in order.
pub fn chars_of(s: &str) -> (v: Vec<char>)
    ensures
        v@ == s@,
{
    let mut v: Vec<char> = Vec::new();
    let mut it = s.chars();
    for c in iter: it
        invariant
            v@ == s@.subrange(0, iter.index() as int),
            iter.seq() == s@,
    {
        v.push(c);
    }
    v
}

/// A `String` holding exactly the characters of `v`.
pub fn string_of(v: &Vec<char>) -> (s: String)
    ensures
        s@ == v@,
{
    let mut s: String = String::new();
    let mut i: usize = 0;
    while i < v.len()
        invariant
            i <= v.len(),
            s@ == v@.subrange(0, i as int),
        decreases v.len() - i,
    {
        s.push(v[i]);
        i += 1;
    }
    s
}

/// Unicode white space: the code points with the `White_Space` property.
pub open spec fn is_space(c: char) -> bool {
    let n = c as u32;
    ||| 0x09 <= n <= 0x0D
    ||| n == 0x20
    ||| n == 0x85
    ||| n == 0xA0
    ||| n == 0x1680
    ||| 0x2000 <= n <= 0x200A
    ||| n == 0x2028
    ||| n == 0x2029
    ||| n == 0x202F
    ||| n == 0x205F
    ||| n == 0x3000
}

/// Whether `c` is Unicode white space, as `char::is_whitespace` says.
pub fn is_whitespace(c: char) -> (b: bool)
    ensures
        b == is_space(c),
{
    let n: u32 = c as u32;
    (0x09 <= n && n <= 0x0D) || n == 0x20 || n == 0x85 || n == 0xA0 || n == 0x1680 || (0x2000 <= n
        && n <= 0x200A) || n == 0x2028 || n == 0x2029 || n == 0x202F || n == 0x205F || n == 0x3000
}

/// `pat` stands in `s` at index `i`.
pub open spec fn occurs_at(s: Seq<char>, pat: Seq<char>, i: int) -> bool {
    0 <= i && i + pat.len() <= s.len() && s.subrange(i, i + pat.len()) == pat
}

/// `pat` stands somewhere in `s`.
pub open spec fn contains_text(s: Seq<char>, pat: Seq<char>) -> bool {
    exists|i: int| occurs_at(s, pat, i)
}

/// The least index at or after `i` where `pat` stands in `s`.
pub open spec fn find_from(s: Seq<char>, pat: Seq<char>, i: int) -> Option<int>
    decreases s.len() - i + 1,
{
    if i < 0 || i + pat.len() > s.len() {
        None
    } else if occurs_at(s, pat, i) {
        Some(i)
    } else {
        find_from(s, pat, i + 1)
    }
}

/// The least index where `pat` stands in `s`.
pub open spec fn find_text(s: Seq<char>, pat: Seq<char>) -> Option<int> {
    find_from(s, pat, 0)
}

/// `find_from` returns the least occurrence, and `None` only where there is none.
pub proof fn lemma_find_from(s: Seq<char>, pat: Seq<char>, i: int)
    requires
        0 <= i,
    ensures
        match find_from(s, pat, i) {
            Some(k) => i <= k && occurs_at(s, pat, k) && forall|j: int|
                i <= j < k ==> !occurs_at(s, pat, j),
            None => forall|j: int| i <= j ==> !occurs_at(s, pat, j),
        },
    decreases s.len() - i + 1,
{
    if i + pat.len() > s.len() {
    } else if occurs_at(s, pat, i) {
    } else {
        lemma_find_from(s, pat, i + 1);
    }
}

/// A text is found exactly where it is contained.
pub proof fn lemma_find_text_contains(s: Seq<char>, pat: Seq<char>)
    ensures
        find_text(s, pat) is Some <==> contains_text(s, pat),
{
    lemma_find_from(s, pat, 0);
    if contains_text(s, pat) {
        let i = choose|i: int| occurs_at(s, pat, i);
        assert(occurs_at(s, pat, i));
    }
}

/// Whether `pat` stands in `s` at index `i`.
pub fn matches_at(s: &Vec<char>, pat: &Vec<char>, i: usize) -> (b: bool)
    ensures
        b == occurs_at(s@, pat@, i as int),
{
    if pat.len() > s.len() || i > s.len() - pat.len() {
        return false;
    }
    let mut k: usize = 0;
    while k < pat.len()
        invariant
            k <= pat.len(),
            i + pat.len() <= s.len(),
            forall|j: int| 0 <= j < k ==> s@[i + j] == pat@[j],
        decreases pat.len() - k,
    {
        if s[i + k] != pat[k] {
            assert(s@.subrange(i as int, i + pat.len())[k as int] == s@[i + k]);
            return false;
        }
        k += 1;
    }
    assert(s@.subrange(i as int, i + pat.len()) =~= pat@);
    true
}

/// The first index where `pat` stands in `s`, as `str::find` gives it (counted
/// in characters).
pub fn find(s: &Vec<char>, pat: &Vec<char>) -> (r: Option<usize>)
    ensures
        match r {
            Some(k) => find_text(s@, pat@) == Some(k as int) && k + pat.len() <= s.len(),
            None => find_text(s@, pat@) is None,
        },
{
    if pat.len() > s.len() {
        return None;
    }
    let last: usize = s.len() - pat.len();
    let mut i: usize = 0;
    loop
        invariant
            last == s.len() - pat.len(),
            i <= last,
            find_text(s@, pat@) == find_from(s@, pat@, i as int),
        decreases last - i,
    {
        if matches_at(s, pat, i) {
            return Some(i);
        }
        if i == last {
            assert(find_from(s@, pat@, i + 1) is None);
            return None;
        }
        i += 1;
    }
}

/// Whether `pat` stands somewhere in `s`, as `str::contains` says.
pub fn contains(s: &Vec<char>, pat: &Vec<char>) -> (b: bool)
    ensures
        b == contains_text(s@, pat@),
{
    proof {
        lemma_find_text_contains(s@, pat@);
    }
    find(s, pat).is_some()
}

/// The elements of `s` from `from` up to `to`.
pub fn slice_of(s: &Vec<char>, from: usize, to: usize) -> (r: Vec<char>)
    requires
        from <= to <= s.len(),
    ensures
        r@ == s@.subrange(from as int, to as int),
{
    let mut r: Vec<char> = Vec::new();
    let mut i: usize = from;
    while i < to
        invariant
            from <= i <= to <= s.len(),
            r@ == s@.subrange(from as int, i as int),
        decreases to - i,
    {
        r.push(s[i]);
        i += 1;
    }
    r
}

/// Whether two texts hold the same characters.
pub fn same_text(a: &Vec<char>, b: &Vec<char>) -> (r: bool)
    ensures
        r == (a@ == b@),
{
    if a.len() != b.len() {
        return false;
    }
    let r = matches_at(a, b, 0);
    assert(a@.subrange(0, a@.len() as int) =~= a@);
    r
}

/// The pieces of `s` from index `i` on, cut at every `sep`, where `cur` is the
/// piece begun before `i`.
pub open spec fn split_acc(s: Seq<char>, sep: char, i: int, cur: Seq<char>) -> Seq<Seq<char>>
    decreases s.len() - i,
{
    if i < 0 || i >= s.len() {
        seq![cur]
    } else if s[i] == sep {
        seq![cur] + split_acc(s, sep, i + 1, Seq::empty())
    } else {
        split_acc(s, sep, i + 1, cur.push(s[i]))
    }
}

/// The pieces of `s` between occurrences of `sep`, as `str::split` gives them:
/// one more piece than there are separators, empty pieces included.
pub open spec fn split_text(s: Seq<char>, sep: char) -> Seq<Seq<char>> {
    split_acc(s, sep, 0, Seq::empty())
}

/// The views of a list of texts.
pub open spec fn texts(v: Seq<Vec<char>>) -> Seq<Seq<char>> {
    Seq::new(v.len(), |i: int| v[i]@)
}

/// Cuts `s` at every `sep`.
pub fn split(s: &Vec<char>, sep: char) -> (r: Vec<Vec<char>>)
    ensures
        texts(r@) == split_text(s@, sep),
        r.len() >= 1,
{
    let mut out: Vec<Vec<char>> = Vec::new();
    let mut cur: Vec<char> = Vec::new();
    let mut i: usize = 0;
    while i < s.len()
        invariant
            i <= s.len(),
            texts(out@) + split_acc(s@, sep, i as int, cur@) == split_text(s@, sep),
        decreases s.len() - i,
    {
        let c = s[i];
        if c == sep {
            let ghost before = texts(out@);
            let ghost piece = cur@;
            out.push(cur);
            cur = Vec::new();
            assert(texts(out@) =~= before + seq![piece]);
            assert(before + (seq![piece] + split_acc(s@, sep, i + 1, Seq::empty())) =~= (before
                + seq![piece]) + split_acc(s@, sep, i + 1, Seq::empty()));
        } else {
            cur.push(c);
        }
        i += 1;
    }
    let ghost before = texts(out@);
    let ghost piece = cur@;
    out.push(cur);
    assert(texts(out@) =~= before + seq![piece]);
    out
}

/// The words of `s` from index `i` on, where `cur` is the word begun before `i`.
pub open spec fn words_acc(s: Seq<char>, i: int, cur: Seq<char>) -> Seq<Seq<char>>
    decreases s.len() - i,
{
    let done = if cur.len() > 0 {
        seq![cur]
    } else {
        Seq::empty()
    };
    if i < 0 || i >= s.len() {
        done
    } else if is_space(s[i]) {
        done + words_acc(s, i + 1, Seq::empty())
    } else {
        words_acc(s, i + 1, cur.push(s[i]))
    }
}

/// The maximal runs of characters of `s` that are not white space, in order,
/// as `str::split_whitespace` gives them.
pub open spec fn words(s: Seq<char>) -> Seq<Seq<char>> {
    words_acc(s, 0, Seq::empty())
}

/// Cuts `s` into its words.
pub fn split_whitespace(s: &Vec<char>) -> (r: Vec<Vec<char>>)
    ensures
        texts(r@) == words(s@),
{
    let mut out: Vec<Vec<char>> = Vec::new();
    let mut cur: Vec<char> = Vec::new();
    let mut i: usize = 0;
    while i < s.len()
        invariant
            i <= s.len(),
            texts(out@) + words_acc(s@, i as int, cur@) == words(s@),
        decreases s.len() - i,
    {
        let c = s[i];
        if is_whitespace(c) {
            if cur.len() > 0 {
                let ghost before = texts(out@);
                let ghost piece = cur@;
                out.push(cur);
                cur = Vec::new();
                assert(texts(out@) =~= before + seq![piece]);
                assert(before + (seq![piece] + words_acc(s@, i + 1, Seq::empty())) =~= (before
                    + seq![piece]) + words_acc(s@, i + 1, Seq::empty()));
            } else {
                assert(cur@ =~= Seq::<char>::empty());
                assert(Seq::<Seq<char>>::empty() + words_acc(s@, i + 1, Seq::empty())
                    =~= words_acc(s@, i + 1, Seq::empty()));
            }
        } else {
            cur.push(c);
        }
        i += 1;
    }
    if cur.len() > 0 {
        let ghost before = texts(out@);
        let ghost piece = cur@;
        out.push(cur);
        assert(texts(out@) =~= before + seq![piece]);
    } else {
        assert(texts(out@) + Seq::<Seq<char>>::empty() =~= texts(out@));
    }
    out
}

/// The first index at or after `i` that holds no white space.
pub open spec fn skip_spaces(s: Seq<char>, i: int) -> int
    decreases s.len() - i,
{
    if 0 <= i < s.len() && is_space(s[i]) {
        skip_spaces(s, i + 1)
    } else {
        i
    }
}

/// The least index such that only white space stands from it up to `j`.
pub open spec fn back_spaces(s: Seq<char>, j: int) -> int
    decreases j,
{
    if 0 < j <= s.len() && is_space(s[j - 1]) {
        back_spaces(s, j - 1)
    } else {
        j
    }
}

/// `s` without its leading and trailing white space, as `str::trim` gives it.
pub open spec fn trim_text(s: Seq<char>) -> Seq<char> {
    let a = skip_spaces(s, 0);
    let b = back_spaces(s, s.len() as int);
    if a >= b {
        Seq::empty()
    } else {
        s.subrange(a, b)
    }
}

/// Removes leading and trailing white space.
pub fn trim(s: &Vec<char>) -> (r: Vec<char>)
    ensures
        r@ == trim_text(s@),
{
    let mut a: usize = 0;
    while a < s.len() && is_whitespace(s[a])
        invariant
            a <= s.len(),
            skip_spaces(s@, 0) == skip_spaces(s@, a as int),
        decreases s.len() - a,
    {
        a += 1;
    }
    let mut b: usize = s.len();
    while b > 0 && is_whitespace(s[b - 1])
        invariant
            b <= s.len(),
            back_spaces(s@, s@.len() as int) == back_spaces(s@, b as int),
        decreases b,
    {
        b -= 1;
    }
    if a >= b {
        Vec::new()
    } else {
        slice_of(s, a, b)
    }
}

/// A decimal digit.
pub open spec fn is_digit(c: char) -> bool {
    '0' <= c <= '9'
}

/// The number a decimal digit stands for.
pub open spec fn digit_value(c: char) -> nat {
    (c as int - '0' as int) as nat
}

/// Every character of `s` is a decimal digit.
pub open spec fn all_digits(s: Seq<char>) -> bool {
    forall|i: int| 0 <= i < s.len() ==> is_digit(#[trigger] s[i])
}

/// The number that the digits of `s` write in base ten.
pub open spec fn decimal_value(s: Seq<char>) -> nat
    decreases s.len(),
{
    if s.len() == 0 {
        0
    } else {
        decimal_value(s.drop_last()) * 10 + digit_value(s.last())
    }
}

/// What `str::parse` gives for an unsigned integer type whose greatest value is
/// `max`: an optional `+`, then one or more decimal digits and nothing else,
/// writing a number that fits.
pub open spec fn parse_unsigned(s: Seq<char>, max: nat) -> Option<nat> {
    let body = if s.len() > 0 && s[0] == '+' {
        s.skip(1)
    } else {
        s
    };
    if body.len() > 0 && all_digits(body) && decimal_value(body) <= max {
        Some(decimal_value(body))
    } else {
        None
    }
}

/// A prefix of a row of digits writes no larger a number than the whole row.
pub proof fn lemma_decimal_prefix(s: Seq<char>, k: int)
    requires
        0 <= k <= s.len(),
    ensures
        decimal_value(s.take(k)) <= decimal_value(s),
    decreases s.len() - k,
{
    if k == s.len() {
        assert(s.take(k) =~= s);
    } else {
        lemma_decimal_prefix(s, k + 1);
        assert(s.take(k + 1).drop_last() =~= s.take(k));
    }
}

/// Reads an unsigned decimal number no greater than `max`.
pub fn parse_decimal(s: &Vec<char>, max: u64) -> (r: Option<u64>)
    ensures
        match r {
            Some(v) => parse_unsigned(s@, max as nat) == Some(v as nat),
            None => parse_unsigned(s@, max as nat) is None,
        },
{
    let start: usize = if s.len() > 0 && s[0] == '+' {
        1
    } else {
        0
    };
    let ghost body = s@.skip(start as int);
    assert(s@.skip(0) =~= s@);
    if start >= s.len() {
        return None;
    }
    let mut acc: u64 = 0;
    let mut i: usize = start;
    while i < s.len()
        invariant
            start <= i <= s.len(),
            start < s.len(),
            body == s@.skip(start as int),
            body == if s@.len() > 0 && s@[0] == '+' {
                s@.skip(1)
            } else {
                s@
            },
            all_digits(body.take(i - start)),
            acc == decimal_value(body.take(i - start)),
            acc <= max,
        decreases s.len() - i,
    {
        let c = s[i];
        assert(body[i - start] == c);
        if !('0' <= c && c <= '9') {
            return None;
        }
        let d: u64 = (c as u32 - '0' as u32) as u64;
        let next: u128 = acc as u128 * 10 + d as u128;
        proof {
            assert(body.take(i - start + 1).drop_last() =~= body.take(i - start));
            assert(body.take(i - start + 1).last() == c);
            assert(next == decimal_value(body.take(i - start + 1)));
            assert forall|j: int| 0 <= j < i - start + 1 implies is_digit(
                #[trigger] body.take(i - start + 1)[j],
            ) by {
                if j < i - start {
                    assert(body.take(i - start)[j] == body[j]);
                }
            }
        }
        if next > max as u128 {
            proof {
                lemma_decimal_prefix(body, i - start + 1);
                if all_digits(body) {
                }
            }
            return None;
        }
        acc = next as u64;
        i += 1;
    }
    assert(body.take(i - start) =~= body);
    Some(acc)
}

/// The character that writes the digit `d`.
pub open spec fn digit_char(d: nat) -> char {
    if d == 0 {
        '0'
    } else if d == 1 {
        '1'
    } else if d == 2 {
        '2'
    } else if d == 3 {
        '3'
    } else if d == 4 {
        '4'
    } else if d == 5 {
        '5'
    } else if d == 6 {
        '6'
    } else if d == 7 {
        '7'
    } else if d == 8 {
        '8'
    } else {
        '9'
    }
}

/// The decimal digits of `n`, without leading zeros (`0` is written `0`).
pub open spec fn decimal_text(n: nat) -> Seq<char>
    decreases n,
{
    if n < 10 {
        seq![digit_char(n)]
    } else {
        decimal_text(n / 10).push(digit_char(n % 10))
    }
}

fn digit_of(d: u128) -> (c: char)
    requires
        d < 10,
    ensures
        c == digit_char(d as nat),
{
    if d == 0 {
        '0'
    } else if d == 1 {
        '1'
    } else if d == 2 {
        '2'
    } else if d == 3 {
        '3'
    } else if d == 4 {
        '4'
    } else if d == 5 {
        '5'
    } else if d == 6 {
        '6'
    } else if d == 7 {
        '7'
    } else if d == 8 {
        '8'
    } else {
        '9'
    }
}

/// Appends the decimal digits of `n` to `out`.
pub fn push_decimal(out: &mut Vec<char>, n: u128)
    ensures
        final(out)@ == old(out)@ + decimal_text(n as nat),
    decreases n,
{
    if n < 10 {
        out.push(digit_of(n));
        assert(out@ =~= old(out)@ + seq![digit_char(n as nat)]);
    } else {
        push_decimal(out, n / 10);
        out.push(digit_of(n % 10));
        assert(out@ =~= old(out)@ + decimal_text((n / 10) as nat).push(digit_char((n % 10) as nat)));
    }
}

/// The decimal digits of `n`, as `to_string` writes an unsigned integer.
pub fn decimal(n: u128) -> (r: Vec<char>)
    ensures
        r@ == decimal_text(n as nat),
{
    let mut out: Vec<char> = Vec::new();
    push_decimal(&mut out, n);
    assert(Seq::<char>::empty() + decimal_text(n as nat) =~= decimal_text(n as nat));
    out
}

/// Appends the characters of `more` to `out`.
pub fn push_all(out: &mut Vec<char>, more: &Vec<char>)
    ensures
        final(out)@ == old(out)@ + more@,
{
    let mut i: usize = 0;
    while i < more.len()
        invariant
            i <= more.len(),
            out@ == old(out)@ + more@.subrange(0, i as int),
        decreases more.len() - i,
    {
        out.push(more[i]);
        assert(out@ =~= old(out)@ + more@.subrange(0, i + 1));
        i += 1;
    }
    assert(more@.subrange(0, more@.len() as int) =~= more@);
}

/// The texts of `parts` from index `i` on, each preceded by `sep`.
pub open spec fn join_rest(parts: Seq<Seq<char>>, sep: Seq<char>, i: int) -> Seq<char>
    decreases parts.len() - i,
{
    if i < 0 || i >= parts.len() {
        Seq::empty()
    } else {
        sep + parts[i] + join_rest(parts, sep, i + 1)
    }
}

/// The texts of `parts` in order with `sep` between neighbours, as `join` gives
/// them.
pub open spec fn join_text(parts: Seq<Seq<char>>, sep: Seq<char>) -> Seq<char> {
    if parts.len() == 0 {
        Seq::empty()
    } else {
        parts[0] + join_rest(parts, sep, 1)
    }
}

/// Joins the elements of `parts` from index `from` on with `sep`.
pub fn join_from(parts: &Vec<Vec<char>>, from: usize, sep: &Vec<char>) -> (r: Vec<char>)
    requires
        from <= parts.len(),
    ensures
        r@ == join_text(texts(parts@).skip(from as int), sep@),
{
    let mut out: Vec<char> = Vec::new();
    let ghost rest = texts(parts@).skip(from as int);
    if from == parts.len() {
        return out;
    }
    push_all(&mut out, &parts[from]);
    assert(rest[0] == parts@[from as int]@);
    let mut i: usize = from + 1;
    assert(out@ =~= rest[0]);
    while i < parts.len()
        invariant
            from < i <= parts.len(),
            rest == texts(parts@).skip(from as int),
            out@ + join_rest(rest, sep@, i - from) == join_text(rest, sep@),
        decreases parts.len() - i,
    {
        let ghost before = out@;
        push_all(&mut out, sep);
        push_all(&mut out, &parts[i]);
        assert(rest[i - from] == parts@[i as int]@);
        assert(out@ + join_rest(rest, sep@, i - from + 1) =~= before + (sep@ + rest[i - from]
            + join_rest(rest, sep@, i - from + 1)));
        i += 1;
    }
    assert(out@ + Seq::<char>::empty() =~= out@);
    out
}

/// Joins `parts` with `sep`.
pub fn join(parts: &Vec<Vec<char>>, sep: &Vec<char>) -> (r: Vec<char>)
    ensures
        r@ == join_text(texts(parts@), sep@),
{
    assert(texts(parts@).skip(0) =~= texts(parts@));
    join_from(parts, 0, sep)
}

/// Whether every character of `s` is a decimal digit.
pub fn digits_only(s: &Vec<char>) -> (b: bool)
    ensures
        b == all_digits(s@),
{
    let mut i: usize = 0;
    while i < s.len()
        invariant
            i <= s.len(),
            forall|j: int| 0 <= j < i ==> is_digit(#[trigger] s@[j]),
        decreases s.len() - i,
    {
        let c = s[i];
        if !('0' <= c && c <= '9') {
            return false;
        }
        i += 1;
    }
    true
}

/// Appends one text to a list of texts.
pub fn push_text(v: &mut Vec<String>, s: String)
    ensures
        final(v).deep_view() == old(v).deep_view().push(s@),
{
    v.push(s);
    assert(v.deep_view() =~= old(v).deep_view().push(s@));
}

} // verus!
