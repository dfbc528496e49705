//! Text building blocks shared by the renderers.
//!
//! Every renderer states its output as a `Seq<char>`; the functions here are
//! the executable counterparts of the few sequence operations they use.

use vstd::prelude::*;
use vstd::string::*;

verus! {

/// The texts of a sequence of strings.
pub open spec fn views(items: Seq<String>) -> Seq<Seq<char>> {
    Seq::new(items.len(), |i: int| items[i]@)
}

/// The text of an optional string.
pub open spec fn opt_view(o: Option<String>) -> Option<Seq<char>> {
    match o {
        Some(s) => Some(s@),
        None => None,
    }
}

/// `items` with `sep` between each two neighbours.
pub open spec fn join(items: Seq<Seq<char>>, sep: Seq<char>) -> Seq<char>
    decreases items.len(),
{
    if items.len() == 0 {
        Seq::empty()
    } else if items.len() == 1 {
        items[0]
    } else {
        join(items.drop_last(), sep) + sep + items.last()
    }
}

/// The text of one decimal digit.
pub open spec fn digit_text(d: nat) -> Seq<char> {
    if d == 0 {
        "0"@
    } else if d == 1 {
        "1"@
    } else if d == 2 {
        "2"@
    } else if d == 3 {
        "3"@
    } else if d == 4 {
        "4"@
    } else if d == 5 {
        "5"@
    } else if d == 6 {
        "6"@
    } else if d == 7 {
        "7"@
    } else if d == 8 {
        "8"@
    } else {
        "9"@
    }
}

/// The decimal numeral of `n`, without leading zeros.
pub open spec fn decimal(n: nat) -> Seq<char>
    decreases n,
{
    if n < 10 {
        digit_text(n)
    } else {
        decimal(n / 10) + digit_text(n % 10)
    }
}

/// `s` without its space characters.
pub open spec fn without_spaces(s: Seq<char>) -> Seq<char>
    decreases s.len(),
{
    if s.len() == 0 {
        Seq::empty()
    } else if s.last() == ' ' {
        without_spaces(s.drop_last())
    } else {
        without_spaces(s.drop_last()).push(s.last())
    }
}

/// What a sequence of attempts gives: the first failure if there is one,
/// else what the attempts produced, in order; an attempt may produce nothing.
pub open spec fn collect<T, E>(attempts: Seq<Result<Option<T>, E>>) -> Result<Seq<T>, E>
    decreases attempts.len(),
{
    if attempts.len() == 0 {
        Ok(Seq::empty())
    } else {
        match collect(attempts.drop_last()) {
            Err(e) => Err(e),
            Ok(before) => match attempts.last() {
                Err(e) => Err(e),
                Ok(None) => Ok(before),
                Ok(Some(t)) => Ok(before.push(t)),
            },
        }
    }
}

/// A failure among the first `n` attempts is the failure of them all.
pub proof fn lemma_collect_fails<T, E>(attempts: Seq<Result<Option<T>, E>>, n: int)
    requires
        0 <= n <= attempts.len(),
        collect(attempts.take(n)) is Err,
    ensures
        collect(attempts) == collect(attempts.take(n)),
    decreases attempts.len() - n,
{
    if n == attempts.len() {
        assert(attempts.take(n) == attempts);
    } else {
        assert(attempts.take(n + 1).drop_last() == attempts.take(n));
        lemma_collect_fails(attempts, n + 1);
    }
}

/// Where every attempt produces something, they produce one item each, in order.
pub proof fn lemma_collect_all<T, E>(attempts: Seq<Result<Option<T>, E>>)
    requires
        forall|i: int| 0 <= i < attempts.len() ==> #[trigger] attempts[i] matches Ok(Some(_)),
    ensures
        collect(attempts) matches Ok(items) && items.len() == attempts.len() && forall|i: int|
            0 <= i < attempts.len() ==> #[trigger] attempts[i] == Ok::<Option<T>, E>(Some(items[i])),
    decreases attempts.len(),
{
    if attempts.len() > 0 {
        lemma_collect_all(attempts.drop_last());
        assert(attempts.last() == attempts[attempts.len() - 1]);
        let before = collect(attempts.drop_last())->Ok_0;
        assert forall|i: int| 0 <= i < attempts.len() implies #[trigger] attempts[i] == Ok::<Option<T>, E>(
            Some(collect(attempts)->Ok_0[i]),
        ) by {
            if i < attempts.len() - 1 {
                assert(attempts.drop_last()[i] == attempts[i]);
            }
        }
    }
}

/// Joins `items` with `sep`.
pub fn join_strings(items: &Vec<String>, sep: &str) -> (out: String)
    ensures
        out@ == join(views(items@), sep@),
{
    let mut out = String::new();
    let mut i: usize = 0;
    while i < items.len()
        invariant
            i <= items.len(),
            out@ == join(views(items@).take(i as int), sep@),
        decreases items.len() - i,
    {
        proof {
            let all = views(items@);
            assert(all.take(i + 1).drop_last() == all.take(i as int));
            assert(all.take(i + 1).last() == items[i as int]@);
        }
        if i > 0 {
            out.append(sep);
        }
        out.append(items[i].as_str());
        i = i + 1;
    }
    proof {
        assert(views(items@).take(items.len() as int) == views(items@));
    }
    out
}

/// Whether `pattern` stands in `s` at `at`.
pub open spec fn occurs_at(s: Seq<char>, pattern: Seq<char>, at: int) -> bool {
    0 <= at && at + pattern.len() <= s.len() && s.subrange(at, at + pattern.len()) == pattern
}

/// `s` from `from` on, with `with` in the place of each occurrence of
/// `pattern`, the occurrences taken from left to right and not overlapping.
/// An empty pattern occurs nowhere.
pub open spec fn replaced_from(s: Seq<char>, pattern: Seq<char>, with: Seq<char>, from: int) -> Seq<char>
    decreases s.len() - from,
{
    if from < 0 || from >= s.len() {
        Seq::empty()
    } else if pattern.len() > 0 && occurs_at(s, pattern, from) {
        with + replaced_from(s, pattern, with, from + pattern.len())
    } else {
        seq![s[from]] + replaced_from(s, pattern, with, from + 1)
    }
}

/// `s` with `with` in the place of each occurrence of `pattern`.
pub open spec fn replaced(s: Seq<char>, pattern: Seq<char>, with: Seq<char>) -> Seq<char> {
    replaced_from(s, pattern, with, 0)
}

/// The characters of `s`.
pub fn chars_of(s: &str) -> (out: Vec<char>)
    ensures
        out@ == s@,
{
    let n = s.unicode_len();
    let mut out: Vec<char> = Vec::new();
    let mut i: usize = 0;
    while i < n
        invariant
            i <= n,
            n == s@.len(),
            out@ == s@.take(i as int),
        decreases n - i,
    {
        out.push(s.get_char(i));
        proof {
            assert(s@.take(i + 1) =~= s@.take(i as int).push(s@[i as int]));
        }
        i = i + 1;
    }
    proof {
        assert(s@.take(n as int) == s@);
    }
    out
}

/// Whether `pattern` stands in `s` at `at`.
pub fn matches_at(s: &Vec<char>, pattern: &Vec<char>, at: usize) -> (b: bool)
    ensures
        b == occurs_at(s@, pattern@, at as int),
{
    if pattern.len() > s.len() || at > s.len() - pattern.len() {
        return false;
    }
    let mut k: usize = 0;
    while k < pattern.len()
        invariant
            k <= pattern.len(),
            at + pattern.len() <= s.len(),
            forall|j: int| 0 <= j < k ==> s[at + j] == pattern[j],
        decreases pattern.len() - k,
    {
        if s[at + k] != pattern[k] {
            proof {
                assert(s@.subrange(at as int, at + pattern.len())[k as int] == s[at + k]);
            }
            return false;
        }
        k = k + 1;
    }
    proof {
        assert(s@.subrange(at as int, at + pattern.len()) =~= pattern@);
    }
    true
}

/// Writes `s` with `with` in the place of each occurrence of `pattern`.
pub fn replace_all(s: &str, pattern: &str, with: &str) -> (out: String)
    ensures
        out@ == replaced(s@, pattern@, with@),
{
    let text = chars_of(s);
    let wanted = chars_of(pattern);
    let n = text.len();
    let mut out = String::new();
    let mut i: usize = 0;
    proof {
        assert(out@ + replaced_from(s@, pattern@, with@, 0) =~= replaced(s@, pattern@, with@));
    }
    while i < n
        invariant
            i <= n,
            n == s@.len(),
            text@ == s@,
            wanted@ == pattern@,
            out@ + replaced_from(s@, pattern@, with@, i as int) == replaced(s@, pattern@, with@),
        decreases n - i,
    {
        let ghost before = out@;
        if wanted.len() > 0 && matches_at(&text, &wanted, i) {
            out.append(with);
            proof {
                let rest = replaced_from(s@, pattern@, with@, i + pattern@.len());
                assert(before + (with@ + rest) =~= (before + with@) + rest);
            }
            i = i + wanted.len();
        } else {
            let piece = s.substring_char(i, i + 1);
            out.append(piece);
            proof {
                let rest = replaced_from(s@, pattern@, with@, i + 1);
                assert(piece@ =~= seq![s@[i as int]]);
                assert(before + (seq![s@[i as int]] + rest) =~= (before + piece@) + rest);
            }
            i = i + 1;
        }
    }
    proof {
        assert(out@ + Seq::<char>::empty() =~= out@);
    }
    out
}

/// The code points of the characters of `s`.
pub open spec fn char_codes(s: Seq<char>) -> Seq<int> {
    Seq::new(s.len(), |i: int| s[i] as int)
}

/// The lexicographic order of two sequences of numbers: negative where `a`
/// comes first, zero where they are equal, positive where `b` comes first.
/// A sequence comes before those that it begins.
pub open spec fn compare(a: Seq<int>, b: Seq<int>) -> int
    decreases a.len(),
{
    if a.len() == 0 && b.len() == 0 {
        0
    } else if a.len() == 0 {
        -1
    } else if b.len() == 0 {
        1
    } else if a[0] < b[0] {
        -1
    } else if a[0] > b[0] {
        1
    } else {
        compare(a.skip(1), b.skip(1))
    }
}

/// Two sequences compare as equal exactly if they are equal.
pub proof fn lemma_compare_equal(a: Seq<int>, b: Seq<int>)
    ensures
        compare(a, b) == 0 <==> a == b,
        -1 <= compare(a, b) <= 1,
    decreases a.len(),
{
    if a.len() > 0 && b.len() > 0 {
        lemma_compare_equal(a.skip(1), b.skip(1));
        if a[0] == b[0] && a.skip(1) == b.skip(1) {
            assert(a =~= seq![a[0]] + a.skip(1));
            assert(b =~= seq![b[0]] + b.skip(1));
        }
    } else if a.len() == 0 && b.len() == 0 {
        assert(a =~= b);
    }
}

/// Two texts have the same code points exactly if they are equal.
pub proof fn lemma_char_codes_equal(a: Seq<char>, b: Seq<char>)
    ensures
        char_codes(a) == char_codes(b) <==> a == b,
{
    if char_codes(a) == char_codes(b) {
        assert(a.len() == char_codes(a).len());
        assert(b.len() == char_codes(b).len());
        assert forall|i: int| 0 <= i < a.len() implies a[i] == b[i] by {
            assert(char_codes(a)[i] == char_codes(b)[i]);
            assert(a[i] as int == b[i] as int);
        }
        assert(a =~= b);
    }
}

/// A sequence of machine numbers as numbers.
pub open spec fn numbers(v: Seq<u64>) -> Seq<int> {
    Seq::new(v.len(), |i: int| v[i] as int)
}

/// Compares two lists of numbers.
pub fn compare_u64s(a: &Vec<u64>, b: &Vec<u64>) -> (r: i8)
    ensures
        r == compare(numbers(a@), numbers(b@)),
{
    let ghost x = numbers(a@);
    let ghost y = numbers(b@);
    let mut i: usize = 0;
    proof {
        assert(x.skip(0) == x);
        assert(y.skip(0) == y);
    }
    loop
        invariant
            i <= a.len(),
            i <= b.len(),
            x == numbers(a@),
            y == numbers(b@),
            compare(x, y) == compare(x.skip(i as int), y.skip(i as int)),
        decreases a.len() - i,
    {
        if i == a.len() && i == b.len() {
            return 0;
        } else if i == a.len() {
            return -1;
        } else if i == b.len() {
            return 1;
        }
        proof {
            assert(x.skip(i as int)[0] == a@[i as int] as int);
            assert(y.skip(i as int)[0] == b@[i as int] as int);
            assert(x.skip(i as int).skip(1) == x.skip(i + 1));
            assert(y.skip(i as int).skip(1) == y.skip(i + 1));
        }
        if a[i] < b[i] {
            return -1;
        } else if a[i] > b[i] {
            return 1;
        }
        i = i + 1;
    }
}

/// Compares two texts by the code points of their characters.
pub fn compare_strs(a: &str, b: &str) -> (r: i8)
    ensures
        r == compare(char_codes(a@), char_codes(b@)),
{
    let left = chars_of(a);
    let right = chars_of(b);
    let ghost x = char_codes(a@);
    let ghost y = char_codes(b@);
    let mut i: usize = 0;
    proof {
        assert(x.skip(0) == x);
        assert(y.skip(0) == y);
    }
    loop
        invariant
            i <= left.len(),
            i <= right.len(),
            left@ == a@,
            right@ == b@,
            x == char_codes(a@),
            y == char_codes(b@),
            compare(x, y) == compare(x.skip(i as int), y.skip(i as int)),
        decreases left.len() - i,
    {
        if i == left.len() && i == right.len() {
            return 0;
        } else if i == left.len() {
            return -1;
        } else if i == right.len() {
            return 1;
        }
        proof {
            assert(x.skip(i as int)[0] == a@[i as int] as int);
            assert(y.skip(i as int)[0] == b@[i as int] as int);
            assert(x.skip(i as int).skip(1) == x.skip(i + 1));
            assert(y.skip(i as int).skip(1) == y.skip(i + 1));
        }
        let c = left[i];
        let d = right[i];
        if c < d {
            return -1;
        } else if c > d {
            return 1;
        }
        i = i + 1;
    }
}

/// Whether `s` is the text `literal`.
pub fn str_is(s: &String, literal: &str) -> (b: bool)
    ensures
        b == (s@ == literal@),
{
    *s == String::from_str(literal)
}

/// `s` without its space characters.
pub fn strip_spaces(s: &str) -> (out: String)
    ensures
        out@ == without_spaces(s@),
{
    let n = s.unicode_len();
    let mut out = String::new();
    let mut i: usize = 0;
    while i < n
        invariant
            i <= n,
            n == s@.len(),
            out@ == without_spaces(s@.take(i as int)),
        decreases n - i,
    {
        proof {
            assert(s@.take(i + 1).drop_last() == s@.take(i as int));
            assert(s@.take(i + 1).last() == s@[i as int]);
        }
        let c = s.get_char(i);
        if c != ' ' {
            let piece = s.substring_char(i, i + 1);
            proof {
                assert(piece@ =~= seq![s@[i as int]]);
                assert(out@ + piece@ =~= out@.push(s@[i as int]));
            }
            out.append(piece);
        }
        i = i + 1;
    }
    proof {
        assert(s@.take(n as int) == s@);
    }
    out
}

fn digit_str(d: u32) -> (s: &'static str)
    requires
        d < 10,
    ensures
        s@ == digit_text(d as nat),
{
    if d == 0 {
        "0"
    } else if d == 1 {
        "1"
    } else if d == 2 {
        "2"
    } else if d == 3 {
        "3"
    } else if d == 4 {
        "4"
    } else if d == 5 {
        "5"
    } else if d == 6 {
        "6"
    } else if d == 7 {
        "7"
    } else if d == 8 {
        "8"
    } else {
        "9"
    }
}

/// Appends the decimal numeral of `n` to `buf`.
pub fn push_decimal(buf: &mut String, n: u32)
    ensures
        final(buf)@ == old(buf)@ + decimal(n as nat),
    decreases n,
{
    if n >= 10 {
        push_decimal(buf, n / 10);
    }
    buf.append(digit_str(n % 10));
}

/// The decimal numeral of `n`.
pub fn decimal_string(n: u32) -> (out: String)
    ensures
        out@ == decimal(n as nat),
{
    let mut out = String::new();
    push_decimal(&mut out, n);
    out
}

} // verus!
