//! Character-level text operations on `str`/`String`, stated over `Seq<char>`.

use vstd::prelude::*;

verus! {

broadcast use vstd::string::group_string_axioms;

/// The characters of `s`, in order.
pub fn chars_of(s: &str) -> (v: Vec<char>)
    ensures
        v@ == s@,
{
    let mut v: Vec<char> = Vec::new();
    for c in it: s.chars()
        invariant
            it.seq() == s@,
            v@ == it.seq().take(it.index()),
    {
        v.push(c);
    }
    v
}

} // verus!

verus! {

/// A `{}` starts at position `i` of `s`.
pub open spec fn placeholder_at(s: Seq<char>, i: int) -> bool {
    0 <= i && i + 1 < s.len() && s[i] == '{' && s[i + 1] == '}'
}

/// `s` holds the two characters `{}` next to each other somewhere.
pub open spec fn has_placeholder(s: Seq<char>) -> bool {
    exists|i: int| placeholder_at(s, i)
}

/// `s` with every `{}` replaced by `input`, scanning from the left; a
/// replaced `{}` is not looked at again, and neither is the inserted text.
pub open spec fn fill_placeholders(s: Seq<char>, input: Seq<char>) -> Seq<char>
    decreases s.len(),
{
    if s.len() < 2 {
        s
    } else if s[0] == '{' && s[1] == '}' {
        input + fill_placeholders(s.skip(2), input)
    } else {
        seq![s[0]] + fill_placeholders(s.skip(1), input)
    }
}

proof fn lemma_fill_step(s: Seq<char>, input: Seq<char>, i: int)
    requires
        0 <= i < s.len(),
    ensures
        placeholder_at(s, i) ==> fill_placeholders(s.skip(i), input) == input
            + fill_placeholders(s.skip(i + 2), input),
        !placeholder_at(s, i) ==> fill_placeholders(s.skip(i), input) == seq![s[i]]
            + fill_placeholders(s.skip(i + 1), input),
{
    let t = s.skip(i);
    if placeholder_at(s, i) {
        assert(t.skip(2) =~= s.skip(i + 2));
    } else {
        assert(t.skip(1) =~= s.skip(i + 1));
    }
    if t.len() < 2 {
        assert(s.skip(i + 1) =~= Seq::<char>::empty());
        assert(t =~= seq![s[i]]);
    }
}

/// Whether `s` holds a `{}`.
pub fn contains_placeholder(s: &str) -> (r: bool)
    ensures
        r == has_placeholder(s@),
{
    let chars = chars_of(s);
    let n = chars.len();
    let mut i: usize = 0;
    while i < n
        invariant
            chars@ == s@,
            n == s@.len(),
            i <= n,
            forall|j: int| 0 <= j < i ==> !placeholder_at(s@, j),
        decreases n - i,
    {
        if i + 1 < n && chars[i] == '{' && chars[i + 1] == '}' {
            assert(placeholder_at(s@, i as int));
            return true;
        }
        i = i + 1;
    }
    assert forall|j: int| !placeholder_at(s@, j) by {
        if 0 <= j < i {
        }
    }
    false
}

/// `s` with every `{}` replaced by `input` (see [`fill_placeholders`]).
pub fn replace_placeholders(s: &str, input: &str) -> (r: String)
    ensures
        r@ == fill_placeholders(s@, input@),
{
    let chars = chars_of(s);
    let n = chars.len();
    let mut res = String::new();
    let mut seg: usize = 0;
    let mut i: usize = 0;
    assert(s@.skip(0) =~= s@);
    assert(s@.subrange(0, 0) =~= Seq::<char>::empty());
    while i < n
        invariant
            chars@ == s@,
            n == s@.len(),
            seg <= i <= n,
            res@ + s@.subrange(seg as int, i as int) + fill_placeholders(s@.skip(i as int), input@)
                == fill_placeholders(s@, input@),
        decreases n - i,
    {
        proof {
            lemma_fill_step(s@, input@, i as int);
        }
        if i + 1 < n && chars[i] == '{' && chars[i + 1] == '}' {
            let ghost before = res@;
            let piece = s.substring_char(seg, i);
            res.append(piece);
            res.append(input);
            assert(res@ =~= before + s@.subrange(seg as int, i as int) + input@);
            assert(s@.subrange(i + 2, i + 2) =~= Seq::<char>::empty());
            assert(res@ + s@.subrange(i + 2, i + 2) + fill_placeholders(s@.skip(i + 2), input@)
                =~= before + s@.subrange(seg as int, i as int) + (input@ + fill_placeholders(s@.skip(i + 2), input@)));
            i = i + 2;
            seg = i;
        } else {
            assert(s@.subrange(seg as int, i + 1) =~= s@.subrange(seg as int, i as int) + seq![s@[i as int]]);
            i = i + 1;
        }
    }
    assert(s@.skip(n as int) =~= Seq::<char>::empty());
    let ghost before = res@;
    let piece = s.substring_char(seg, n);
    res.append(piece);
    assert(res@ =~= before + s@.subrange(seg as int, n as int) + fill_placeholders(s@.skip(n as int), input@));
    res
}

} // verus!

verus! {

/// Filling `t` only copies its first `k` characters when no `{}` starts among them.
proof fn lemma_fill_copies_prefix(t: Seq<char>, input: Seq<char>, k: int)
    requires
        0 <= k <= t.len(),
        forall|j: int| 0 <= j < k ==> !placeholder_at(t, j),
    ensures
        fill_placeholders(t, input) == t.take(k) + fill_placeholders(t.skip(k), input),
    decreases k,
{
    if k == 0 {
        assert(t.skip(0) =~= t);
        assert(t.take(0) =~= Seq::<char>::empty());
    } else {
        lemma_fill_copies_prefix(t, input, k - 1);
        lemma_fill_step(t, input, k - 1);
        assert(t.take(k) =~= t.take(k - 1) + seq![t[k - 1]]);
    }
}

/// A text without `{}` is left as it is by filling.
pub proof fn lemma_fill_without_placeholder(t: Seq<char>, input: Seq<char>)
    requires
        !has_placeholder(t),
    ensures
        fill_placeholders(t, input) == t,
{
    lemma_fill_copies_prefix(t, input, t.len() as int);
    assert(t.take(t.len() as int) =~= t);
    assert(t.skip(t.len() as int) =~= Seq::<char>::empty());
}

/// Filling a text that holds exactly one `{}`, between two parts without one,
/// puts `input` in its place and keeps both parts.
pub proof fn lemma_fill_single_placeholder(a: Seq<char>, b: Seq<char>, input: Seq<char>)
    requires
        !has_placeholder(a),
        !has_placeholder(b),
    ensures
        fill_placeholders(a + seq!['{', '}'] + b, input) == a + input + b,
{
    let t = a + seq!['{', '}'] + b;
    assert forall|j: int| 0 <= j < a.len() implies !placeholder_at(t, j) by {
        if j + 1 < a.len() {
            assert(!placeholder_at(a, j));
        } else {
            assert(t[j + 1] == '{');
        }
    }
    lemma_fill_copies_prefix(t, input, a.len() as int);
    assert(t.take(a.len() as int) =~= a);
    let rest = t.skip(a.len() as int);
    assert(rest.skip(2) =~= b);
    lemma_fill_without_placeholder(b, input);
}

} // verus!

verus! {

/// The views of a list of strings.
pub open spec fn views_of(words: Seq<String>) -> Seq<Seq<char>> {
    words.map_values(|w: String| w@)
}

/// The words joined by single spaces: `["a", "b"]` gives `"a b"`, `[]` gives `""`.
pub open spec fn join_words(words: Seq<Seq<char>>) -> Seq<char>
    decreases words.len(),
{
    if words.len() == 0 {
        Seq::empty()
    } else if words.len() == 1 {
        words[0]
    } else {
        join_words(words.drop_last()) + seq![' '] + words.last()
    }
}

/// The words joined by single spaces (see [`join_words`]).
pub fn join_with_spaces(words: &Vec<String>) -> (r: String)
    ensures
        r@ == join_words(views_of(words@)),
{
    let ghost all = views_of(words@);
    let mut res = String::new();
    let n = words.len();
    let mut i: usize = 0;
    assert(all.take(0) =~= Seq::<Seq<char>>::empty());
    while i < n
        invariant
            n == words@.len(),
            all == views_of(words@),
            i <= n,
            res@ == join_words(all.take(i as int)),
        decreases n - i,
    {
        let ghost prefix = all.take(i + 1);
        assert(prefix.drop_last() =~= all.take(i as int));
        assert(prefix.last() == words@[i as int]@);
        if i == 0 {
            assert(all.take(0) =~= Seq::<Seq<char>>::empty());
            res.append(words[i].as_str());
            assert(res@ =~= join_words(prefix));
        } else {
            let ghost before = res@;
            proof {
                reveal_strlit(" ");
            }
            res.append(" ");
            res.append(words[i].as_str());
            assert(res@ =~= before + seq![' '] + prefix.last());
            assert(res@ =~= join_words(prefix));
        }
        i = i + 1;
    }
    assert(all.take(n as int) =~= all);
    res
}

/// The four characters that open a web address, as tested by [`starts_with_http`].
pub open spec fn http_prefix() -> Seq<char> {
    seq!['h', 't', 't', 'p']
}

/// `s` begins with `http`.
pub open spec fn is_web_address(s: Seq<char>) -> bool {
    s.len() >= 4 && s.take(4) == http_prefix()
}

/// Whether `s` begins with `http`.
pub fn starts_with_http(s: &str) -> (r: bool)
    ensures
        r == is_web_address(s@),
{
    let chars = chars_of(s);
    if chars.len() < 4 {
        return false;
    }
    let r = chars[0] == 'h' && chars[1] == 't' && chars[2] == 't' && chars[3] == 'p';
    if r {
        assert(s@.take(4) =~= http_prefix());
    } else {
        assert(s@.take(4)[0] == s@[0] && s@.take(4)[1] == s@[1] && s@.take(4)[2] == s@[2]
            && s@.take(4)[3] == s@[3]);
    }
    r
}

} // verus!

verus! {

/// Whether the two texts are the same.
pub fn same_text(a: &str, b: &str) -> (r: bool)
    ensures
        r == (a@ == b@),
{
    let x = chars_of(a);
    let y = chars_of(b);
    if x.len() != y.len() {
        return false;
    }
    let n = x.len();
    let mut i: usize = 0;
    while i < n
        invariant
            x@ == a@,
            y@ == b@,
            n == x@.len(),
            n == y@.len(),
            i <= n,
            forall|j: int| 0 <= j < i ==> x@[j] == y@[j],
        decreases n - i,
    {
        if x[i] != y[i] {
            return false;
        }
        i = i + 1;
    }
    assert(a@ =~= b@);
    true
}

} // verus!

verus! {

/// The decimal digit `d` as a character.
pub open spec fn digit_char(d: nat) -> char {
    if d == 0 { '0' } else if d == 1 { '1' } else if d == 2 { '2' } else if d == 3 { '3' }
    else if d == 4 { '4' } else if d == 5 { '5' } else if d == 6 { '6' } else if d == 7 { '7' }
    else if d == 8 { '8' } else { '9' }
}

/// `n` written in decimal, without leading zeros (`0` is `"0"`).
pub open spec fn decimal(n: nat) -> Seq<char>
    decreases n,
{
    if n < 10 {
        seq![digit_char(n)]
    } else {
        decimal(n / 10) + seq![digit_char(n % 10)]
    }
}

fn digit_text(d: u64) -> (r: &'static str)
    requires
        d < 10,
    ensures
        r@ == seq![digit_char(d as nat)],
{
    proof {
        reveal_strlit("0");
        reveal_strlit("1");
        reveal_strlit("2");
        reveal_strlit("3");
        reveal_strlit("4");
        reveal_strlit("5");
        reveal_strlit("6");
        reveal_strlit("7");
        reveal_strlit("8");
        reveal_strlit("9");
    }
    if d == 0 { "0" } else if d == 1 { "1" } else if d == 2 { "2" } else if d == 3 { "3" }
    else if d == 4 { "4" } else if d == 5 { "5" } else if d == 6 { "6" } else if d == 7 { "7" }
    else if d == 8 { "8" } else { "9" }
}

/// Appends `n` in decimal to `out`.
pub fn append_decimal(out: &mut String, n: u64)
    ensures
        final(out)@ == old(out)@ + decimal(n as nat),
    decreases n,
{
    if n >= 10 {
        append_decimal(out, n / 10);
    }
    out.append(digit_text(n % 10));
}

/// `s` without the `/` characters it begins with.
pub open spec fn strip_leading_slashes(s: Seq<char>) -> Seq<char>
    decreases s.len(),
{
    if s.len() > 0 && s[0] == '/' {
        strip_leading_slashes(s.skip(1))
    } else {
        s
    }
}

/// `s` without the `/` characters it begins with.
pub fn trim_leading_slashes(s: &str) -> (r: String)
    ensures
        r@ == strip_leading_slashes(s@),
{
    let chars = chars_of(s);
    let n = chars.len();
    let mut i: usize = 0;
    assert(s@.skip(0) =~= s@);
    while i < n && chars[i] == '/'
        invariant
            chars@ == s@,
            n == s@.len(),
            i <= n,
            strip_leading_slashes(s@) == strip_leading_slashes(s@.skip(i as int)),
        decreases n - i,
    {
        assert(s@.skip(i as int).skip(1) =~= s@.skip(i + 1));
        i = i + 1;
    }
    let rest = s.substring_char(i, n);
    assert(rest@ =~= s@.skip(i as int));
    String::from_str(rest)
}

/// `pat` occurs in `s` starting at position `i`.
pub open spec fn occurs_at(s: Seq<char>, pat: Seq<char>, i: int) -> bool {
    0 <= i && i + pat.len() <= s.len() && s.subrange(i, i + pat.len()) == pat
}

/// `pat` occurs somewhere in `s` (the empty text occurs in every text).
pub open spec fn contains_text(s: Seq<char>, pat: Seq<char>) -> bool {
    exists|i: int| occurs_at(s, pat, i)
}

/// Whether `pat` occurs in `s`.
pub fn contains(s: &str, pat: &str) -> (r: bool)
    ensures
        r == contains_text(s@, pat@),
{
    let x = chars_of(s);
    let p = chars_of(pat);
    let n = x.len();
    let m = p.len();
    if m > n {
        assert forall|i: int| !occurs_at(s@, pat@, i) by {}
        return false;
    }
    let mut i: usize = 0;
    while i <= n - m
        invariant
            x@ == s@,
            p@ == pat@,
            n == s@.len(),
            m == pat@.len(),
            m <= n,
            i <= n - m + 1,
            forall|j: int| 0 <= j < i ==> !occurs_at(s@, pat@, j),
        decreases n - m + 1 - i,
    {
        let mut k: usize = 0;
        let mut same = true;
        while k < m
            invariant
                x@ == s@,
                p@ == pat@,
                n == s@.len(),
                m == pat@.len(),
                i + m <= n,
                k <= m,
                same == (forall|t: int| 0 <= t < k ==> s@[i + t] == pat@[t]),
            decreases m - k,
        {
            if x[i + k] != p[k] {
                same = false;
            }
            k = k + 1;
        }
        if same {
            assert(s@.subrange(i as int, i + m) =~= pat@);
            assert(occurs_at(s@, pat@, i as int));
            return true;
        }
        assert(!occurs_at(s@, pat@, i as int)) by {
            if s@.subrange(i as int, i + m) == pat@ {
                assert forall|t: int| 0 <= t < m implies s@[i + t] == pat@[t] by {
                    assert(s@.subrange(i as int, i + m)[t] == s@[i + t]);
                }
            }
        }
        i = i + 1;
    }
    assert forall|j: int| !occurs_at(s@, pat@, j) by {
        if 0 <= j && j < i {
        }
    }
    false
}

} // verus!

verus! {

/// `c` is one of the decimal digits `0` to `9`.
pub open spec fn is_decimal_digit(c: char) -> bool {
    '0' <= c && c <= '9'
}

/// The number a text of decimal digits stands for, read from the left.
pub open spec fn digits_value(s: Seq<char>) -> nat
    decreases s.len(),
{
    if s.len() == 0 {
        0
    } else {
        digits_value(s.drop_last()) * 10 + ((s.last() as int) - ('0' as int)) as nat
    }
}

proof fn lemma_digit_char_value(d: nat)
    requires
        d < 10,
    ensures
        (digit_char(d) as int) - ('0' as int) == d,
        is_decimal_digit(digit_char(d)),
{
    assert(('0' as int) == 48);
    assert(('9' as int) == 57);
}

/// Writing a number in decimal gives at least one digit, only digits, no
/// leading zero except for zero itself, and reading the digits back gives the
/// number.
pub proof fn lemma_decimal_reads_back(n: nat)
    ensures
        decimal(n).len() > 0,
        forall|i: int| 0 <= i < decimal(n).len() ==> is_decimal_digit(#[trigger] decimal(n)[i]),
        decimal(n)[0] == '0' ==> n == 0,
        digits_value(decimal(n)) == n,
    decreases n,
{
    if n < 10 {
        lemma_digit_char_value(n);
        assert(decimal(n) =~= seq![digit_char(n)]);
        assert(decimal(n).drop_last() =~= Seq::<char>::empty());
        assert(digits_value(Seq::<char>::empty()) == 0);
        assert(digits_value(decimal(n)) == digits_value(decimal(n).drop_last()) * 10 + ((
        decimal(n).last() as int) - ('0' as int)) as nat);
    } else {
        lemma_decimal_reads_back(n / 10);
        lemma_digit_char_value(n % 10);
        let d = decimal(n);
        assert(d.drop_last() =~= decimal(n / 10));
        assert(d.last() == digit_char(n % 10));
        assert(forall|i: int| 0 <= i < d.len() - 1 ==> d[i] == decimal(n / 10)[i]);
        assert(n == (n / 10) * 10 + n % 10);
        assert(digits_value(d) == digits_value(d.drop_last()) * 10 + ((d.last() as int) - (
        '0' as int)) as nat);
    }
}

} // verus!
