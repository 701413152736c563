//! Text primitives used by the filter and sort logic: lexicographic
//! comparison, substring search and decimal rendering, together with the
//! few standard-library string operations the engine relies on.

use vstd::prelude::*;
use vstd::string::StrSliceExecFns;
use vstd::string::StringExecFns;

verus! {

/// What `str::to_lowercase` returns for the given characters.
pub uninterp spec fn lower_of(s: Seq<char>) -> Seq<char>;

/// The characters of an optional string.
pub open spec fn opt_str_view(f: Option<String>) -> Option<Seq<char>> {
    match f {
        Some(s) => Some(s@),
        None => None,
    }
}

/// Relies on `str::to_lowercase`: the lowercased text is a function of the
/// input characters alone, named `lower_of` here.
#[verifier::external_body]
pub(crate) fn lowercase(s: &str) -> (r: String)
    ensures
        r@ == lower_of(s@),
{
    s.to_lowercase()
}

/// Relies on `String::push`: appends exactly the given character.
#[verifier::external_body]
pub(crate) fn push_char(s: &mut String, c: char)
    ensures
        final(s)@ == old(s)@.push(c),
{
    s.push(c);
}

/// Relies on `String::pop`: removes and returns the last character, or
/// returns `None` leaving an empty string unchanged.
#[verifier::external_body]
pub(crate) fn pop_char(s: &mut String) -> (r: Option<char>)
    ensures
        old(s)@.len() == 0 ==> final(s)@ == old(s)@ && r is None,
        old(s)@.len() > 0 ==> final(s)@ == old(s)@.drop_last() && r == Some(old(s)@.last()),
{
    s.pop()
}

/// An owned copy of a string slice.
pub fn str_to_owned(s: &str) -> (r: String)
    ensures
        r@ == s@,
{
    s.to_owned()
}

/// Lexicographic order on character sequences by code point. For valid
/// UTF-8 text this coincides with the byte order `str::cmp` uses.
pub open spec fn seq_char_le(a: Seq<char>, b: Seq<char>) -> bool
    decreases a.len(),
{
    if a.len() == 0 {
        true
    } else if b.len() == 0 {
        false
    } else if a[0] == b[0] {
        seq_char_le(a.drop_first(), b.drop_first())
    } else {
        (a[0] as u32) < (b[0] as u32)
    }
}

/// Whether `a` sorts at or before `b` lexicographically.
pub fn str_le(a: &str, b: &str) -> (r: bool)
    ensures
        r == seq_char_le(a@, b@),
{
    let alen = a.unicode_len();
    let blen = b.unicode_len();
    let mut i: usize = 0;
    proof {
        assert(a@.skip(0) =~= a@);
        assert(b@.skip(0) =~= b@);
    }
    loop
        invariant
            i <= alen,
            i <= blen,
            alen == a@.len(),
            blen == b@.len(),
            seq_char_le(a@, b@) == seq_char_le(a@.skip(i as int), b@.skip(i as int)),
        decreases alen - i,
    {
        if i == alen {
            assert(a@.skip(i as int).len() == 0);
            return true;
        }
        if i == blen {
            assert(b@.skip(i as int).len() == 0);
            assert(a@.skip(i as int).len() > 0);
            return false;
        }
        let ca = a.get_char(i);
        let cb = b.get_char(i);
        proof {
            assert(a@.skip(i as int)[0] == a@[i as int]);
            assert(b@.skip(i as int)[0] == b@[i as int]);
        }
        if ca == cb {
            proof {
                assert(a@.skip(i as int).drop_first() =~= a@.skip(i + 1));
                assert(b@.skip(i as int).drop_first() =~= b@.skip(i + 1));
            }
            i = i + 1;
        } else {
            return (ca as u32) < (cb as u32);
        }
    }
}

/// Lexicographic order is total: one way round or the other always holds.
pub proof fn lemma_seq_char_le_total(a: Seq<char>, b: Seq<char>)
    ensures
        seq_char_le(a, b) || seq_char_le(b, a),
    decreases a.len(),
{
    if a.len() > 0 && b.len() > 0 {
        if a[0] == b[0] {
            lemma_seq_char_le_total(a.drop_first(), b.drop_first());
        } else {
            // Distinct characters have distinct scalar values.
            vstd::utf8::char_u32_cast(a[0], a[0] as u32);
            vstd::utf8::char_u32_cast(b[0], b[0] as u32);
            assert(a[0] as u32 != b[0] as u32);
        }
    }
}

/// Lexicographic order is transitive.
pub proof fn lemma_seq_char_le_trans(a: Seq<char>, b: Seq<char>, c: Seq<char>)
    requires
        seq_char_le(a, b),
        seq_char_le(b, c),
    ensures
        seq_char_le(a, c),
    decreases a.len(),
{
    if a.len() == 0 {
    } else {
        assert(b.len() > 0);
        assert(c.len() > 0);
        if a[0] == b[0] && b[0] == c[0] {
            lemma_seq_char_le_trans(a.drop_first(), b.drop_first(), c.drop_first());
        }
    }
}

/// Whether `sub` occurs as a contiguous run of characters inside `s`.
pub open spec fn contains_seq(s: Seq<char>, sub: Seq<char>) -> bool {
    exists|i: int| 0 <= i <= s.len() - sub.len() && #[trigger] s.subrange(i, i + sub.len()) == sub
}

/// Whether `sub@` matches the characters of `s` starting at position `i`.
fn match_at(s: &str, sub: &str, i: usize, n: usize, m: usize) -> (r: bool)
    requires
        n == s@.len(),
        m == sub@.len(),
        i + m <= n,
    ensures
        r == (s@.subrange(i as int, i + m) == sub@),
{
    let mut j: usize = 0;
    while j < m
        invariant
            j <= m,
            n == s@.len(),
            m == sub@.len(),
            i + m <= n,
            forall|t: int| 0 <= t < j ==> s@[i + t] == sub@[t],
        decreases m - j,
    {
        let cs = s.get_char(i + j);
        let cq = sub.get_char(j);
        if cs != cq {
            proof {
                assert(s@.subrange(i as int, i + m)[j as int] == s@[i + j]);
            }
            return false;
        }
        j = j + 1;
    }
    proof {
        assert(s@.subrange(i as int, i + m) =~= sub@);
    }
    true
}

/// Substring search: whether `sub` occurs in `s`. Agrees with
/// `str::contains` for a string pattern.
pub fn str_contains(s: &str, sub: &str) -> (r: bool)
    ensures
        r == contains_seq(s@, sub@),
{
    let n = s.unicode_len();
    let m = sub.unicode_len();
    if m > n {
        return false;
    }
    if m == 0 {
        proof {
            assert(s@.subrange(0, 0 + sub@.len() as int) =~= sub@);
        }
        return true;
    }
    let mut i: usize = 0;
    while i <= n - m
        invariant
            0 < m <= n,
            n == s@.len(),
            m == sub@.len(),
            i <= n - m + 1,
            forall|k: int| 0 <= k < i ==> #[trigger] s@.subrange(k, k + m) != sub@,
        decreases n - m + 1 - i,
    {
        if match_at(s, sub, i, n, m) {
            return true;
        }
        i = i + 1;
    }
    assert(!contains_seq(s@, sub@));
    false
}

/// The character for one decimal digit.
pub open spec fn decimal_digit(d: nat) -> char {
    if d == 0 {
        '0'
    } else if d == 1 {
        '1'
    } else if d == 2 {
        '2'
    } else if d == 3 {
        '3'
    } else if d == 4 {
        '4'
    } else if d == 5 {
        '5'
    } else if d == 6 {
        '6'
    } else if d == 7 {
        '7'
    } else if d == 8 {
        '8'
    } else {
        '9'
    }
}

/// Decimal rendering of a natural number, most significant digit first.
pub open spec fn dec_str(n: nat) -> Seq<char>
    decreases n,
{
    if n < 10 {
        seq![decimal_digit(n)]
    } else {
        dec_str(n / 10).push(decimal_digit(n % 10))
    }
}

/// One decimal digit as a string.
fn digit_to_str(d: u32) -> (r: String)
    requires
        d < 10,
    ensures
        r@ == seq![decimal_digit(d as nat)],
{
    proof {
        reveal_strlit("0");
        reveal_strlit("1");
        reveal_strlit("2");
        reveal_strlit("3");
        reveal_strlit("4");
        reveal_strlit("5");
        reveal_strlit("6");
        reveal_strlit("7");
        reveal_strlit("8");
        reveal_strlit("9");
    }
    let r = if d == 0 {
        String::from_str("0")
    } else if d == 1 {
        String::from_str("1")
    } else if d == 2 {
        String::from_str("2")
    } else if d == 3 {
        String::from_str("3")
    } else if d == 4 {
        String::from_str("4")
    } else if d == 5 {
        String::from_str("5")
    } else if d == 6 {
        String::from_str("6")
    } else if d == 7 {
        String::from_str("7")
    } else {
        String::from_str("8")
    };
    let r = if d == 9 {
        String::from_str("9")
    } else {
        r
    };
    proof {
        assert(r@ =~= seq![decimal_digit(d as nat)]);
    }
    r
}

/// Decimal rendering of a `u32`, as `u32::to_string` produces it.
pub fn u32_to_decimal(n: u32) -> (r: String)
    ensures
        r@ == dec_str(n as nat),
    decreases n,
{
    if n < 10 {
        digit_to_str(n)
    } else {
        let mut r = u32_to_decimal(n / 10);
        let d = digit_to_str(n % 10);
        r.append(d.as_str());
        proof {
            assert(r@ =~= dec_str((n as nat) / 10).push(decimal_digit((n as nat) % 10)));
        }
        r
    }
}

/// The segments of `s` cut at newline characters, appended to `acc`,
/// with `cur` the segment under construction.
pub open spec fn split_nl(s: Seq<char>, cur: Seq<char>, acc: Seq<Seq<char>>) -> Seq<Seq<char>>
    decreases s.len(),
{
    if s.len() == 0 {
        acc.push(cur)
    } else if s[0] == '\n' {
        split_nl(s.drop_first(), Seq::empty(), acc.push(cur))
    } else {
        split_nl(s.drop_first(), cur.push(s[0]), acc)
    }
}

/// A segment with one trailing carriage return removed, as `str::lines`
/// treats line ends.
pub open spec fn strip_cr(l: Seq<char>) -> Seq<char> {
    if l.len() > 0 && l.last() == '\r' {
        l.drop_last()
    } else {
        l
    }
}

/// The non-empty lines of a text: cut at newlines, carriage returns
/// stripped, empty lines dropped.
pub open spec fn nonempty_lines_of(s: Seq<char>) -> Seq<Seq<char>> {
    split_nl(s, Seq::empty(), Seq::empty()).map_values(|l: Seq<char>| strip_cr(l)).filter(
        |l: Seq<char>| l.len() > 0,
    )
}

/// The collected segments prefix the result whatever still follows.
proof fn lemma_split_nl_acc(s: Seq<char>, cur: Seq<char>, acc: Seq<Seq<char>>)
    ensures
        split_nl(s, cur, acc) == acc + split_nl(s, cur, Seq::empty()),
    decreases s.len(),
{
    if s.len() == 0 {
        assert(split_nl(s, cur, acc) =~= acc + split_nl(s, cur, Seq::empty()));
    } else if s[0] == '\n' {
        lemma_split_nl_acc(s.drop_first(), Seq::empty(), acc.push(cur));
        lemma_split_nl_acc(s.drop_first(), Seq::empty(), Seq::empty().push(cur));
        assert(acc.push(cur) =~= acc + Seq::empty().push(cur));
        assert(acc + (Seq::empty().push(cur) + split_nl(s.drop_first(), Seq::empty(), Seq::empty()))
            =~= (acc + Seq::empty().push(cur)) + split_nl(s.drop_first(), Seq::empty(), Seq::empty()));
    } else {
        lemma_split_nl_acc(s.drop_first(), cur.push(s[0]), acc);
    }
}

/// One finished segment leaves the rest of the text to split afresh.
proof fn lemma_split_nl_step(rem: Seq<char>, cur: Seq<char>)
    requires
        rem.len() > 0,
        rem[0] == '\n',
    ensures
        split_nl(rem, cur, Seq::empty()) == seq![cur] + split_nl(
            rem.drop_first(),
            Seq::empty(),
            Seq::empty(),
        ),
{
    lemma_split_nl_acc(rem.drop_first(), Seq::empty(), Seq::empty().push(cur));
    assert(Seq::empty().push(cur) =~= seq![cur]);
}

/// The non-empty lines of a text, carriage returns stripped, as
/// `str::lines` followed by dropping empty lines produces them.
#[verifier::loop_isolation(false)]
pub fn nonempty_lines(s: &str) -> (r: Vec<String>)
    ensures
        r@.map_values(|l: String| l@) == nonempty_lines_of(s@),
{
    broadcast use vstd::seq::Seq::filter_distributes_over_add;

    let n = s.unicode_len();
    let mut r: Vec<String> = Vec::new();
    let mut cur = String::new();
    let mut i: usize = 0;
    let ghost strip = |l: Seq<char>| strip_cr(l);
    let ghost keep = |l: Seq<char>| l.len() > 0;
    proof {
        assert(s@.skip(0) =~= s@);
        assert(r@.map_values(|l: String| l@) =~= Seq::<Seq<char>>::empty());
        assert(Seq::<Seq<char>>::empty().map_values(strip) =~= Seq::<Seq<char>>::empty());
        reveal_with_fuel(Seq::<_>::filter, 3);
        assert(Seq::<Seq<char>>::empty().filter(keep) =~= Seq::<Seq<char>>::empty());
    }
    while i < n
        invariant
            i <= n,
            n == s@.len(),
            nonempty_lines_of(s@) == r@.map_values(|l: String| l@) + split_nl(
                s@.skip(i as int),
                cur@,
                Seq::empty(),
            ).map_values(strip).filter(keep),
        decreases n - i,
    {
        let c = s.get_char(i);
        proof {
            assert(s@.skip(i as int)[0] == s@[i as int]);
            assert(s@.skip(i as int).drop_first() =~= s@.skip(i + 1));
        }
        if c == '\n' {
            let ghost curv = cur@;
            proof {
                lemma_split_nl_step(s@.skip(i as int), curv);
                let rest = split_nl(s@.skip(i + 1), Seq::empty(), Seq::empty());
                assert((seq![curv] + rest).map_values(strip) =~= seq![strip_cr(curv)]
                    + rest.map_values(strip));
            }
            let line = finish_segment(cur);
            match line {
                Some(l) => {
                    proof {
                        reveal_with_fuel(Seq::<_>::filter, 3);
                        assert((seq![strip_cr(curv)]).filter(keep) =~= seq![strip_cr(curv)]);
                        assert((r@.push(l)).map_values(|x: String| x@) =~= r@.map_values(
                            |x: String| x@,
                        ).push(l@));
                    }
                    r.push(l);
                },
                None => {
                    proof {
                        reveal_with_fuel(Seq::<_>::filter, 3);
                        assert((seq![strip_cr(curv)]).filter(keep) =~= Seq::<Seq<char>>::empty());
                    }
                },
            }
            cur = String::new();
        } else {
            push_char(&mut cur, c);
        }
        i = i + 1;
    }
    let ghost curv = cur@;
    proof {
        assert(s@.skip(n as int) =~= Seq::<char>::empty());
        let rest = split_nl(Seq::<char>::empty(), curv, Seq::empty());
        assert(rest =~= seq![curv]);
        assert(rest.map_values(strip) =~= seq![strip_cr(curv)]);
    }
    let line = finish_segment(cur);
    match line {
        Some(l) => {
            proof {
                reveal_with_fuel(Seq::<_>::filter, 3);
                assert((seq![strip_cr(curv)]).filter(keep) =~= seq![strip_cr(curv)]);
                assert((r@.push(l)).map_values(|x: String| x@) =~= r@.map_values(
                    |x: String| x@,
                ).push(l@));
            }
            r.push(l);
        },
        None => {
            proof {
                reveal_with_fuel(Seq::<_>::filter, 3);
                assert((seq![strip_cr(curv)]).filter(keep) =~= Seq::<Seq<char>>::empty());
            }
        },
    }
    r
}

/// A finished segment: the carriage return stripped, and `None` when
/// nothing is left.
fn finish_segment(mut cur: String) -> (r: Option<String>)
    ensures
        match r {
            Some(l) => l@ == strip_cr(cur@) && strip_cr(cur@).len() > 0,
            None => strip_cr(cur@).len() == 0,
        },
{
    let n = cur.as_str().unicode_len();
    if n > 0 {
        let last = cur.as_str().get_char(n - 1);
        if last == '\r' {
            pop_char(&mut cur);
        }
    }
    if cur.as_str().unicode_len() == 0 {
        None
    } else {
        Some(cur)
    }
}

/// The lines joined back with newlines between them.
pub open spec fn joined_nl(ls: Seq<Seq<char>>, n: int) -> Seq<char>
    decreases n,
{
    if n <= 0 {
        Seq::empty()
    } else if n == 1 {
        ls[0]
    } else {
        joined_nl(ls, n - 1).push('\n') + ls[n - 1]
    }
}

/// Joins lines with a newline between each pair, as `join` on a newline
/// separator does.
#[verifier::loop_isolation(false)]
pub fn join_lines(ls: &Vec<String>) -> (r: String)
    ensures
        r@ == joined_nl(ls@.map_values(|l: String| l@), ls@.len() as int),
{
    let ghost views = ls@.map_values(|l: String| l@);
    let mut r = String::new();
    let mut i: usize = 0;
    proof {
        assert(r@ =~= joined_nl(views, 0));
    }
    while i < ls.len()
        invariant
            i <= ls@.len(),
            r@ == joined_nl(views, i as int),
        decreases ls@.len() - i,
    {
        if i > 0 {
            push_char(&mut r, '\n');
        }
        r.append(ls[i].as_str());
        i = i + 1;
    }
    r
}

/// The characters after the last backslash, or the whole text when it
/// holds none: the file-name part of a backslash-separated path.
pub open spec fn after_last_backslash(s: Seq<char>) -> Seq<char>
    decreases s.len(),
{
    if s.len() == 0 {
        s
    } else if s.last() == '\\' {
        Seq::empty()
    } else {
        after_last_backslash(s.drop_last()).push(s.last())
    }
}

/// The file-name part of a backslash-separated path.
pub fn file_name_of_path(path: &str) -> (r: String)
    ensures
        r@ == after_last_backslash(path@),
{
    let n = path.unicode_len();
    let mut i: usize = n;
    proof {
        assert(path@.take(n as int) =~= path@);
        assert(after_last_backslash(path@.take(n as int)) + path@.skip(n as int)
            =~= after_last_backslash(path@));
    }
    loop
        invariant
            i <= n,
            n == path@.len(),
            after_last_backslash(path@) == after_last_backslash(path@.take(i as int)) + path@.skip(
                i as int,
            ),
        decreases i,
    {
        if i == 0 {
            let sub = path.substring_char(0, n);
            proof {
                assert(after_last_backslash(path@.take(0int)) =~= Seq::<char>::empty());
                assert(after_last_backslash(path@) =~= path@.subrange(0, n as int));
            }
            return String::from_str(sub);
        }
        let c = path.get_char(i - 1);
        if c == '\\' {
            let sub = path.substring_char(i, n);
            proof {
                assert(path@.take(i as int).last() == '\\');
                assert(after_last_backslash(path@) =~= path@.subrange(i as int, n as int));
            }
            return String::from_str(sub);
        }
        proof {
            let t = path@.take(i as int);
            assert(t.last() == path@[i - 1]);
            assert(t.drop_last() =~= path@.take(i - 1));
            assert(after_last_backslash(t) == after_last_backslash(path@.take(i - 1)).push(
                path@[i - 1],
            ));
            assert(after_last_backslash(path@.take(i - 1)) + path@.skip(i - 1)
                =~= after_last_backslash(path@.take(i - 1)).push(path@[i - 1]) + path@.skip(
                i as int,
            ));
        }
        i = i - 1;
    }
}

} // verus!
