use vstd::prelude::*;
use vstd::string::*;

verus! {

/// Unicode `White_Space` characters, as `char::is_whitespace` defines them.
pub open spec fn is_space(c: char) -> bool {
    ||| ('\u{9}' <= c && c <= '\u{d}')
    ||| c == ' '
    ||| c == '\u{85}'
    ||| c == '\u{a0}'
    ||| c == '\u{1680}'
    ||| ('\u{2000}' <= c && c <= '\u{200a}')
    ||| c == '\u{2028}'
    ||| c == '\u{2029}'
    ||| c == '\u{202f}'
    ||| c == '\u{205f}'
    ||| c == '\u{3000}'
}

/// Whether `c` is whitespace.
pub fn is_whitespace_char(c: char) -> (r: bool)
    ensures
        r == is_space(c),
{
    ('\u{9}' <= c && c <= '\u{d}') || c == ' ' || c == '\u{85}' || c == '\u{a0}' || c == '\u{1680}'
        || ('\u{2000}' <= c && c <= '\u{200a}') || c == '\u{2028}' || c == '\u{2029}' || c
        == '\u{202f}' || c == '\u{205f}' || c == '\u{3000}'
}

/// The words of `s` that follow the partial word `current`: maximal runs of
/// non-whitespace characters, in order.
pub open spec fn words_from(s: Seq<char>, current: Seq<char>) -> Seq<Seq<char>>
    decreases s.len(),
{
    if s.len() == 0 {
        if current.len() > 0 {
            seq![current]
        } else {
            Seq::empty()
        }
    } else if is_space(s[0]) {
        let done: Seq<Seq<char>> = if current.len() > 0 {
            seq![current]
        } else {
            Seq::empty()
        };
        done + words_from(s.drop_first(), Seq::empty())
    } else {
        words_from(s.drop_first(), current.push(s[0]))
    }
}

/// The whitespace-separated words of `s`, as `str::split_whitespace` yields them.
pub open spec fn words(s: Seq<char>) -> Seq<Seq<char>> {
    words_from(s, Seq::empty())
}

/// Whether `s` holds only whitespace (as `str::trim` would leave it empty).
pub open spec fn is_blank(s: Seq<char>) -> bool {
    forall|i: int| 0 <= i < s.len() ==> is_space(#[trigger] s[i])
}

/// The views of a sequence of strings.
pub open spec fn views(v: Seq<String>) -> Seq<Seq<char>> {
    v.map_values(|s: String| s@)
}

/// `s` without the elements equal to `x`, in order.
pub open spec fn without(s: Seq<Seq<char>>, x: Seq<char>) -> Seq<Seq<char>>
    decreases s.len(),
{
    if s.len() == 0 {
        s
    } else if s.last() == x {
        without(s.drop_last(), x)
    } else {
        without(s.drop_last(), x).push(s.last())
    }
}

/// Removing a text that does not occur leaves the sequence as it was.
pub proof fn lemma_without_absent(s: Seq<Seq<char>>, x: Seq<char>)
    requires
        !s.contains(x),
    ensures
        without(s, x) == s,
    decreases s.len(),
{
    if s.len() > 0 {
        if s.drop_last().contains(x) {
            let i = choose|i: int| 0 <= i < s.drop_last().len() && s.drop_last()[i] == x;
            assert(s[i] == x);
        }
        lemma_without_absent(s.drop_last(), x);
        assert(s.last() == s[s.len() - 1]);
        assert(s.drop_last().push(s.last()) =~= s);
    }
}

/// Removing `x` after appending it is removing it from what was there.
pub proof fn lemma_without_push_same(s: Seq<Seq<char>>, x: Seq<char>)
    ensures
        without(s.push(x), x) == without(s, x),
{
    assert(s.push(x).drop_last() =~= s);
}

/// What remains after removing `x` was there, and is not `x`.
pub proof fn lemma_without_contains(s: Seq<Seq<char>>, x: Seq<char>, y: Seq<char>)
    requires
        without(s, x).contains(y),
    ensures
        s.contains(y),
        y != x,
    decreases s.len(),
{
    if s.len() > 0 {
        let rest = without(s.drop_last(), x);
        if rest.contains(y) {
            lemma_without_contains(s.drop_last(), x, y);
            let i = choose|i: int| 0 <= i < s.drop_last().len() && s.drop_last()[i] == y;
            assert(s[i] == y);
        } else {
            let j = choose|j: int| 0 <= j < without(s, x).len() && without(s, x)[j] == y;
            assert(s.last() != x);
            assert(j == rest.len());
            assert(s[s.len() - 1] == y);
        }
    }
}

/// Removing a text keeps a sequence free of duplicates.
pub proof fn lemma_without_no_duplicates(s: Seq<Seq<char>>, x: Seq<char>)
    requires
        s.no_duplicates(),
    ensures
        without(s, x).no_duplicates(),
    decreases s.len(),
{
    if s.len() > 0 {
        let init = s.drop_last();
        assert(init.no_duplicates());
        lemma_without_no_duplicates(init, x);
        let rest = without(init, x);
        if s.last() != x {
            if rest.contains(s.last()) {
                lemma_without_contains(init, x, s.last());
                let i = choose|i: int| 0 <= i < init.len() && init[i] == s.last();
                assert(s[i] == s[s.len() - 1]);
            }
            assert forall|i: int, j: int|
                0 <= i < rest.push(s.last()).len() && 0 <= j < rest.push(s.last()).len() && i != j
                implies rest.push(s.last())[i] != rest.push(s.last())[j] by {
                if i == rest.len() {
                    assert(rest[j] == rest.push(s.last())[j]);
                } else if j == rest.len() {
                    assert(rest[i] == rest.push(s.last())[i]);
                }
            }
        }
    }
}

/// `parts` joined with `sep` between consecutive parts.
pub open spec fn joined(parts: Seq<Seq<char>>, sep: Seq<char>) -> Seq<char>
    decreases parts.len(),
{
    if parts.len() == 0 {
        Seq::empty()
    } else if parts.len() == 1 {
        parts[0]
    } else {
        joined(parts.drop_last(), sep) + sep + parts.last()
    }
}

/// Splits `s` into its whitespace-separated words.
pub fn split_whitespace(s: &str) -> (r: Vec<String>)
    ensures
        views(r@) == words(s@),
{
    let n = s.unicode_len();
    let mut out: Vec<String> = Vec::new();
    let mut start: usize = 0;
    let mut i: usize = 0;
    proof {
        assert(s@.subrange(0, n as int) =~= s@);
        assert(s@.subrange(0, 0) =~= Seq::<char>::empty());
        assert(views(out@) =~= Seq::<Seq<char>>::empty());
        assert(views(out@) + words(s@) =~= words(s@));
    }
    while i < n
        invariant
            n == s@.len(),
            start <= i <= n,
            forall|k: int| start <= k < i ==> !is_space(#[trigger] s@[k]),
            views(out@) + words_from(s@.subrange(i as int, n as int), s@.subrange(start as int, i as int))
                == words(s@),
        decreases n - i,
    {
        let ghost rest = s@.subrange(i as int, n as int);
        let ghost cur = s@.subrange(start as int, i as int);
        let c = s.get_char(i);
        proof {
            assert(rest[0] == c);
            assert(rest.drop_first() =~= s@.subrange(i + 1, n as int));
        }
        if is_whitespace_char(c) {
            if start < i {
                let word = String::from_str(s.substring_char(start, i));
                let ghost before = out@;
                out.push(word);
                proof {
                    assert(views(out@) =~= views(before) + seq![cur]);
                    assert(s@.subrange(i + 1, i + 1) =~= Seq::<char>::empty());
                }
            } else {
                proof {
                    assert(cur =~= Seq::<char>::empty());
                    assert(s@.subrange(i + 1, i + 1) =~= Seq::<char>::empty());
                }
            }
            i = i + 1;
            start = i;
        } else {
            proof {
                assert(cur.push(c) =~= s@.subrange(start as int, i + 1));
            }
            i = i + 1;
        }
    }
    proof {
        assert(s@.subrange(n as int, n as int) =~= Seq::<char>::empty());
    }
    if start < n {
        let word = String::from_str(s.substring_char(start, n));
        let ghost before = out@;
        out.push(word);
        proof {
            assert(views(out@) =~= views(before) + seq![s@.subrange(start as int, n as int)]);
        }
    } else {
        proof {
            assert(views(out@) + Seq::<Seq<char>>::empty() =~= views(out@));
        }
    }
    out
}

/// Whether `s` holds only whitespace.
pub fn is_blank_str(s: &str) -> (r: bool)
    ensures
        r == is_blank(s@),
{
    let n = s.unicode_len();
    let mut i: usize = 0;
    while i < n
        invariant
            n == s@.len(),
            i <= n,
            forall|k: int| 0 <= k < i ==> is_space(#[trigger] s@[k]),
        decreases n - i,
    {
        if !is_whitespace_char(s.get_char(i)) {
            return false;
        }
        i = i + 1;
    }
    true
}

/// Joins `parts[from..]` with `sep` between consecutive parts.
pub fn join_from(parts: &Vec<String>, from: usize, sep: &str) -> (r: String)
    requires
        from <= parts@.len(),
    ensures
        r@ == joined(views(parts@.subrange(from as int, parts@.len() as int)), sep@),
{
    let mut out = String::new();
    let mut i = from;
    let ghost all = views(parts@.subrange(from as int, parts@.len() as int));
    while i < parts.len()
        invariant
            from <= i <= parts@.len(),
            all == views(parts@.subrange(from as int, parts@.len() as int)),
            out@ == joined(all.subrange(0, i - from), sep@),
        decreases parts@.len() - i,
    {
        let ghost done = all.subrange(0, i - from);
        let ghost next = all.subrange(0, i - from + 1);
        proof {
            assert(next.drop_last() =~= done);
            assert(next.last() == parts@[i as int]@);
        }
        if i > from {
            out = out.concat(sep);
        }
        out = out.concat(parts[i].as_str());
        proof {
            if i == from {
                assert(out@ =~= joined(next, sep@));
            }
        }
        i = i + 1;
    }
    proof {
        assert(all.subrange(0, i - from) =~= all);
    }
    out
}

/// Whether two texts are equal.
pub fn same_text(a: &str, b: &str) -> (r: bool)
    ensures
        r == (a@ == b@),
{
    let n = a.unicode_len();
    if n != b.unicode_len() {
        return false;
    }
    let mut i: usize = 0;
    while i < n
        invariant
            n == a@.len() == b@.len(),
            i <= n,
            forall|k: int| 0 <= k < i ==> a@[k] == b@[k],
        decreases n - i,
    {
        if a.get_char(i) != b.get_char(i) {
            return false;
        }
        i = i + 1;
    }
    assert(a@ =~= b@);
    true
}

/// The code of `c`, with an ASCII upper-case letter taken as its lower-case form.
pub open spec fn folded_code(c: char) -> u32 {
    if 'A' <= c && c <= 'Z' {
        ((c as u32) + 32) as u32
    } else {
        c as u32
    }
}

/// Whether two texts are equal when ASCII letters are compared without case.
pub open spec fn same_ignoring_ascii_case(a: Seq<char>, b: Seq<char>) -> bool {
    &&& a.len() == b.len()
    &&& forall|i: int| 0 <= i < a.len() ==> folded_code(#[trigger] a[i]) == folded_code(b[i])
}

fn fold_char(c: char) -> (r: u32)
    ensures
        r == folded_code(c),
{
    let code = c as u32;
    if 'A' <= c && c <= 'Z' {
        code + 32
    } else {
        code
    }
}

/// Whether two texts are equal when ASCII letters are compared without case.
pub fn eq_ignore_ascii_case(a: &str, b: &str) -> (r: bool)
    ensures
        r == same_ignoring_ascii_case(a@, b@),
{
    let n = a.unicode_len();
    if n != b.unicode_len() {
        return false;
    }
    let mut i: usize = 0;
    while i < n
        invariant
            n == a@.len() == b@.len(),
            i <= n,
            forall|k: int| 0 <= k < i ==> folded_code(#[trigger] a@[k]) == folded_code(b@[k]),
        decreases n - i,
    {
        if fold_char(a.get_char(i)) != fold_char(b.get_char(i)) {
            return false;
        }
        i = i + 1;
    }
    true
}

/// Whether `pat` occurs in `s` at position `i`.
pub open spec fn occurs_at(s: Seq<char>, pat: Seq<char>, i: int) -> bool {
    0 <= i && i + pat.len() <= s.len() && s.subrange(i, i + pat.len()) == pat
}

/// Whether `pat` occurs in `s`.
pub open spec fn contains_text(s: Seq<char>, pat: Seq<char>) -> bool {
    exists|i: int| occurs_at(s, pat, i)
}

/// `s` with every occurrence of the non-empty `pat`, from left to right and without
/// overlap, replaced by `with`.
pub open spec fn replace_all(s: Seq<char>, pat: Seq<char>, with: Seq<char>) -> Seq<char>
    decreases s.len(),
{
    if pat.len() == 0 || s.len() < pat.len() {
        s
    } else if s.subrange(0, pat.len() as int) == pat {
        with + replace_all(s.subrange(pat.len() as int, s.len() as int), pat, with)
    } else {
        seq![s[0]] + replace_all(s.drop_first(), pat, with)
    }
}

/// `s` without its leading and trailing whitespace.
pub open spec fn trimmed(s: Seq<char>) -> Seq<char>
    decreases s.len(),
{
    if s.len() > 0 && is_space(s[0]) {
        trimmed(s.drop_first())
    } else if s.len() > 0 && is_space(s.last()) {
        trimmed(s.drop_last())
    } else {
        s
    }
}

fn matches_at(s: &str, n: usize, pat: &str, m: usize, i: usize) -> (r: bool)
    requires
        n == s@.len(),
        m == pat@.len(),
        i <= n,
    ensures
        r == occurs_at(s@, pat@, i as int),
{
    if m > n - i {
        return false;
    }
    let mut k: usize = 0;
    while k < m
        invariant
            n == s@.len(),
            m == pat@.len(),
            i + m <= n,
            k <= m,
            forall|j: int| 0 <= j < k ==> s@[i + j] == pat@[j],
        decreases m - k,
    {
        if s.get_char(i + k) != pat.get_char(k) {
            assert(s@.subrange(i as int, i + m)[k as int] != pat@[k as int]);
            return false;
        }
        k = k + 1;
    }
    assert(s@.subrange(i as int, i + m) =~= pat@);
    true
}

/// Whether `pat` occurs in `s`.
pub fn contains_str(s: &str, pat: &str) -> (r: bool)
    ensures
        r == contains_text(s@, pat@),
{
    let n = s.unicode_len();
    let m = pat.unicode_len();
    let mut i: usize = 0;
    while i < n
        invariant
            n == s@.len(),
            m == pat@.len(),
            i <= n,
            forall|j: int| 0 <= j < i ==> !occurs_at(s@, pat@, j),
        decreases n - i,
    {
        if matches_at(s, n, pat, m, i) {
            return true;
        }
        i = i + 1;
    }
    if matches_at(s, n, pat, m, n) {
        return true;
    }
    assert forall|j: int| !occurs_at(s@, pat@, j) by {
        if j > n {
            assert(!(j + pat@.len() <= s@.len()));
        }
    }
    false
}

/// Whether `s` begins with `pat`.
pub fn starts_with_str(s: &str, pat: &str) -> (r: bool)
    ensures
        r == occurs_at(s@, pat@, 0),
{
    let n = s.unicode_len();
    let m = pat.unicode_len();
    matches_at(s, n, pat, m, 0)
}

/// `s` with every occurrence of the non-empty `pat` replaced by `with`.
pub fn replace_str(s: &str, pat: &str, with: &str) -> (r: String)
    requires
        pat@.len() > 0,
    ensures
        r@ == replace_all(s@, pat@, with@),
{
    let n = s.unicode_len();
    let m = pat.unicode_len();
    let mut out = String::new();
    let mut start: usize = 0;
    let mut i: usize = 0;
    proof {
        assert(s@.subrange(0, n as int) =~= s@);
        assert(out@ + s@.subrange(0, 0) =~= Seq::<char>::empty());
    }
    while i < n
        invariant
            n == s@.len(),
            m == pat@.len(),
            m > 0,
            start <= i <= n,
            out@ + s@.subrange(start as int, i as int) + replace_all(s@.subrange(i as int, n as int), pat@, with@)
                == replace_all(s@, pat@, with@),
        decreases n - i,
    {
        let ghost rest = s@.subrange(i as int, n as int);
        if matches_at(s, n, pat, m, i) {
            proof {
                assert(rest.subrange(0, m as int) =~= s@.subrange(i as int, i + m));
                assert(rest.subrange(m as int, rest.len() as int) =~= s@.subrange(i + m, n as int));
                assert(s@.subrange(i + m, i + m) =~= Seq::<char>::empty());
            }
            let ghost before = out@;
            out = out.concat(s.substring_char(start, i)).concat(with);
            proof {
                assert(out@ + s@.subrange(i + m, i + m) =~= before + s@.subrange(start as int, i as int) + with@);
            }
            i = i + m;
            start = i;
        } else {
            proof {
                if m > rest.len() {
                    assert(replace_all(rest, pat@, with@) == rest);
                    assert(rest.drop_first() =~= s@.subrange(i + 1, n as int));
                    assert(replace_all(rest.drop_first(), pat@, with@) == rest.drop_first());
                } else {
                    assert(rest.subrange(0, m as int) =~= s@.subrange(i as int, i + m));
                    assert(rest.drop_first() =~= s@.subrange(i + 1, n as int));
                }
                assert(s@.subrange(start as int, i + 1) =~= s@.subrange(start as int, i as int) + seq![rest[0]]);
                assert(seq![rest[0]] + rest.drop_first() =~= rest);
            }
            i = i + 1;
        }
    }
    proof {
        assert(s@.subrange(n as int, n as int) =~= Seq::<char>::empty());
        assert(replace_all(Seq::<char>::empty(), pat@, with@) =~= Seq::<char>::empty());
    }
    out.concat(s.substring_char(start, n))
}

/// `s` without its leading and trailing whitespace.
pub fn trim_str(s: &str) -> (r: String)
    ensures
        r@ == trimmed(s@),
{
    let n = s.unicode_len();
    let mut lo: usize = 0;
    let mut hi: usize = n;
    assert(s@.subrange(0, n as int) =~= s@);
    while lo < hi && is_whitespace_char(s.get_char(lo))
        invariant
            n == s@.len(),
            lo <= hi <= n,
            hi == n,
            trimmed(s@.subrange(lo as int, hi as int)) == trimmed(s@),
        decreases hi - lo,
    {
        proof {
            let t = s@.subrange(lo as int, hi as int);
            assert(t.drop_first() =~= s@.subrange(lo + 1, hi as int));
        }
        lo = lo + 1;
    }
    while lo < hi && is_whitespace_char(s.get_char(hi - 1))
        invariant
            n == s@.len(),
            lo <= hi <= n,
            lo == hi || !is_space(s@[lo as int]),
            trimmed(s@.subrange(lo as int, hi as int)) == trimmed(s@),
        decreases hi - lo,
    {
        proof {
            let t = s@.subrange(lo as int, hi as int);
            assert(t.drop_last() =~= s@.subrange(lo as int, hi - 1));
            assert(t[0] == s@[lo as int]);
        }
        hi = hi - 1;
    }
    proof {
        let t = s@.subrange(lo as int, hi as int);
        if t.len() > 0 {
            assert(t[0] == s@[lo as int]);
            assert(t.last() == s@[hi - 1]);
        }
    }
    String::from_str(s.substring_char(lo, hi))
}

/// The decimal digits of `n`, without leading zeros.
pub open spec fn decimal(n: nat) -> Seq<char>
    decreases n,
{
    if n < 10 {
        seq![digit_char(n)]
    } else {
        decimal(n / 10) + seq![digit_char(n % 10)]
    }
}

/// The character of a decimal digit.
pub open spec fn digit_char(d: nat) -> char {
    ((48 + d) as u32) as char
}

fn digit_str(d: u32) -> (r: &'static str)
    requires
        d < 10,
    ensures
        r@ == seq![digit_char(d as nat)],
{
    proof {
        reveal_strlit("0");
        reveal_strlit("1");
        reveal_strlit("2");
        reveal_strlit("3");
        reveal_strlit("4");
        reveal_strlit("5");
        reveal_strlit("6");
        reveal_strlit("7");
        reveal_strlit("8");
        reveal_strlit("9");
    }
    let r = match d {
        0 => "0",
        1 => "1",
        2 => "2",
        3 => "3",
        4 => "4",
        5 => "5",
        6 => "6",
        7 => "7",
        8 => "8",
        _ => "9",
    };
    assert(r@ =~= seq![digit_char(d as nat)]);
    r
}

/// The decimal text of `n`, as `u32`'s `Display` writes it.
pub fn u32_to_text(n: u32) -> (r: String)
    ensures
        r@ == decimal(n as nat),
    decreases n,
{
    if n < 10 {
        String::from_str(digit_str(n))
    } else {
        u32_to_text(n / 10).concat(digit_str(n % 10))
    }
}

/// The decimal text of `n`, as `u64`'s `Display` writes it.
pub fn u64_to_text(n: u64) -> (r: String)
    ensures
        r@ == decimal(n as nat),
    decreases n,
{
    if n < 10 {
        String::from_str(digit_str(n as u32))
    } else {
        u64_to_text(n / 10).concat(digit_str((n % 10) as u32))
    }
}

/// `digits` padded with zeros on the left to at least two characters, as `{:02}` does.
pub open spec fn two_digits(digits: Seq<char>) -> Seq<char> {
    if digits.len() < 2 {
        seq!['0'].add(digits)
    } else {
        digits
    }
}

/// The decimal text of `n` on at least two digits.
pub fn u64_to_two_digits(n: u64) -> (r: String)
    ensures
        r@ == two_digits(decimal(n as nat)),
{
    let digits = u64_to_text(n);
    if n < 10 {
        proof {
            reveal_strlit("0");
            assert(decimal(n as nat).len() == 1);
        }
        String::from_str("0").concat(digits.as_str())
    } else {
        proof {
            lemma_decimal_len_two(n as nat);
        }
        digits
    }
}

proof fn lemma_decimal_len_two(n: nat)
    requires
        n >= 10,
    ensures
        decimal(n).len() >= 2,
    decreases n,
{
    assert(decimal(n / 10).len() >= 1) by {
        if n / 10 >= 10 {
            lemma_decimal_len_two(n / 10);
        }
    }
}

/// The text that `str::to_uppercase` makes of a string.
pub uninterp spec fn uppercase_of(s: Seq<char>) -> Seq<char>;

/// The text that `str::to_lowercase` makes of a string.
pub uninterp spec fn lowercase_of(s: Seq<char>) -> Seq<char>;

/// Calls `str::to_uppercase`. Claimed without proof: the result's characters are
/// `uppercase_of` the argument's, a function of them alone; what that function is (the
/// Unicode upper-case mapping) is not stated.
#[verifier::external_body]
pub(crate) fn to_uppercase(s: &str) -> (r: String)
    ensures
        r@ == uppercase_of(s@),
{
    s.to_uppercase()
}

/// Calls `str::to_lowercase`. Claimed without proof: the result's characters are
/// `lowercase_of` the argument's, a function of them alone; what that function is (the
/// Unicode lower-case mapping) is not stated.
#[verifier::external_body]
pub(crate) fn to_lowercase(s: &str) -> (r: String)
    ensures
        r@ == lowercase_of(s@),
{
    s.to_lowercase()
}

} // verus!
