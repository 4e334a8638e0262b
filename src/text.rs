//! Character-sequence building blocks shared by the other modules: decimal
//! rendering, token joining, path handling and substring search.
use vstd::prelude::*;

verus! {

/// The character of a decimal digit.
pub open spec fn digit_char(d: nat) -> char {
    if d == 0 {
        '0'
    } else if d == 1 {
        '1'
    } else if d == 2 {
        '2'
    } else if d == 3 {
        '3'
    } else if d == 4 {
        '4'
    } else if d == 5 {
        '5'
    } else if d == 6 {
        '6'
    } else if d == 7 {
        '7'
    } else if d == 8 {
        '8'
    } else {
        '9'
    }
}

/// Shortest decimal rendering of a natural number.
pub open spec fn decimal(n: nat) -> Seq<char>
    decreases n,
{
    if n < 10 {
        seq![digit_char(n)]
    } else {
        decimal(n / 10).push(digit_char(n % 10))
    }
}

/// Decimal rendering of an integer, with a leading `-` when negative.
pub open spec fn signed_decimal(n: int) -> Seq<char> {
    if n < 0 {
        seq!['-'] + decimal((-n) as nat)
    } else {
        decimal(n as nat)
    }
}

/// Decimal rendering padded with zeros to at least two characters.
pub open spec fn two_digits(n: nat) -> Seq<char> {
    if n < 10 {
        seq!['0', digit_char(n)]
    } else {
        decimal(n)
    }
}

/// Tokens separated by single spaces.
pub open spec fn join_tokens(ts: Seq<Seq<char>>) -> Seq<char>
    decreases ts.len(),
{
    if ts.len() == 0 {
        Seq::empty()
    } else if ts.len() == 1 {
        ts[0]
    } else {
        join_tokens(ts.drop_last()) + seq![' '] + ts.last()
    }
}

/// What follows the last `/` of `s` (all of `s` when it holds none).
pub open spec fn last_segment(s: Seq<char>) -> Seq<char>
    decreases s.len(),
{
    if s.len() == 0 {
        s
    } else if s.last() == '/' {
        Seq::empty()
    } else {
        last_segment(s.drop_last()).push(s.last())
    }
}

/// The file name of a path, by the rule of `std::path::Path::file_name`:
/// trailing `/` and `.` components are passed over, and a path that ends in
/// the root, `.` or `..` has none (empty here).
pub open spec fn path_file_name(s: Seq<char>) -> Seq<char>
    decreases s.len(),
{
    if s.len() > 0 && s.last() == '/' {
        path_file_name(s.drop_last())
    } else if last_segment(s) == "."@ && s.len() > 1 {
        path_file_name(s.drop_last())
    } else if last_segment(s) == "."@ || last_segment(s) == ".."@ {
        Seq::empty()
    } else {
        last_segment(s)
    }
}

/// A relative name placed under a directory, with one `/` between them.
pub open spec fn path_under(dir: Seq<char>, name: Seq<char>) -> Seq<char> {
    if dir.len() > 0 && dir.last() == '/' {
        dir + name
    } else {
        dir + seq!['/'] + name
    }
}

/// `pat` occurs in `s` starting at `i`.
pub open spec fn occurs_at(s: Seq<char>, pat: Seq<char>, i: int) -> bool {
    0 <= i && i + pat.len() <= s.len() && s.subrange(i, i + pat.len()) == pat
}

/// `pat` occurs somewhere in `s`.
pub open spec fn contains(s: Seq<char>, pat: Seq<char>) -> bool {
    exists|i: int| occurs_at(s, pat, i)
}

fn digit_str(d: u64) -> (r: &'static str)
    requires
        d < 10,
    ensures
        r@ == seq![digit_char(d as nat)],
{
    proof {
        reveal_strlit("0");
        reveal_strlit("1");
        reveal_strlit("2");
        reveal_strlit("3");
        reveal_strlit("4");
        reveal_strlit("5");
        reveal_strlit("6");
        reveal_strlit("7");
        reveal_strlit("8");
        reveal_strlit("9");
    }
    if d == 0 {
        "0"
    } else if d == 1 {
        "1"
    } else if d == 2 {
        "2"
    } else if d == 3 {
        "3"
    } else if d == 4 {
        "4"
    } else if d == 5 {
        "5"
    } else if d == 6 {
        "6"
    } else if d == 7 {
        "7"
    } else if d == 8 {
        "8"
    } else {
        "9"
    }
}

/// Appends the decimal rendering of `n`.
pub fn push_decimal(s: &mut String, n: u64)
    ensures
        final(s)@ == old(s)@ + decimal(n as nat),
    decreases n,
{
    if n < 10 {
        s.append(digit_str(n));
    } else {
        push_decimal(s, n / 10);
        s.append(digit_str(n % 10));
        assert(decimal(n as nat) == decimal((n / 10) as nat).push(digit_char((n % 10) as nat)));
    }
}

/// Appends the decimal rendering of `n`, with a leading `-` when negative.
pub fn push_signed_decimal(s: &mut String, n: i32)
    ensures
        final(s)@ == old(s)@ + signed_decimal(n as int),
{
    if n < 0 {
        proof {
            reveal_strlit("-");
        }
        s.append("-");
        let m: i64 = n as i64;
        push_decimal(s, (-m) as u64);
    } else {
        push_decimal(s, n as u64);
    }
}

/// Appends the decimal rendering of `n`, padded with zeros to two characters.
pub fn push_two_digits(s: &mut String, n: u32)
    ensures
        final(s)@ == old(s)@ + two_digits(n as nat),
{
    if n < 10 {
        proof {
            reveal_strlit("0");
        }
        s.append("0");
        s.append(digit_str(n as u64));
    } else {
        push_decimal(s, n as u64);
    }
}

/// The view of each string of a vector.
pub open spec fn views(v: Seq<String>) -> Seq<Seq<char>> {
    v.map_values(|t: String| t@)
}

/// Joins the tokens with single spaces.
pub fn join(tokens: &Vec<String>) -> (r: String)
    ensures
        r@ == join_tokens(views(tokens@)),
{
    let mut r = String::new();
    let mut i: usize = 0;
    while i < tokens.len()
        invariant
            i <= tokens@.len(),
            r@ == join_tokens(views(tokens@.subrange(0, i as int))),
        decreases tokens@.len() - i,
    {
        let ghost prev = views(tokens@.subrange(0, i as int));
        if i > 0 {
            proof {
                reveal_strlit(" ");
            }
            r.append(" ");
        }
        r.append(tokens[i].as_str());
        proof {
            let next = views(tokens@.subrange(0, i + 1));
            assert(next.drop_last() =~= prev);
            assert(next.last() == tokens@[i as int]@);
            if i == 0 {
                assert(prev.len() == 0);
            }
        }
        i = i + 1;
    }
    assert(tokens@.subrange(0, i as int) =~= tokens@);
    r
}

/// What follows the last `/` of `s`.
pub fn file_name_of(s: &str) -> (r: String)
    ensures
        r@ == last_segment(s@),
{
    let n = s.unicode_len();
    let mut start: usize = n;
    assert(s@.subrange(0, n as int) =~= s@);
    assert(s@.subrange(n as int, n as int) =~= Seq::<char>::empty());
    while start > 0 && s.get_char(start - 1) != '/'
        invariant
            n == s@.len(),
            start <= n,
            last_segment(s@) == last_segment(s@.subrange(0, start as int)) + s@.subrange(
                start as int,
                n as int,
            ),
        decreases start,
    {
        proof {
            let p = s@.subrange(0, start as int);
            let q = s@.subrange(0, start - 1);
            assert(p.drop_last() =~= q);
            assert(last_segment(p) == last_segment(q).push(p.last()));
            assert(s@.subrange(start - 1, n as int) =~= seq![p.last()] + s@.subrange(
                start as int,
                n as int,
            ));
            assert(last_segment(q).push(p.last()) + s@.subrange(start as int, n as int)
                =~= last_segment(q) + s@.subrange(start - 1, n as int));
        }
        start = start - 1;
    }
    proof {
        let p = s@.subrange(0, start as int);
        assert(last_segment(p) =~= Seq::<char>::empty());
    }
    let r = s.substring_char(start, n);
    String::from_str(r)
}

/// Whether two strings hold the same characters.
pub fn same_text(a: &str, b: &str) -> (r: bool)
    ensures
        r == (a@ == b@),
{
    let n = a.unicode_len();
    if n != b.unicode_len() {
        return false;
    }
    let mut i: usize = 0;
    while i < n
        invariant
            n == a@.len(),
            n == b@.len(),
            i <= n,
            forall|k: int| 0 <= k < i ==> a@[k] == b@[k],
        decreases n - i,
    {
        if a.get_char(i) != b.get_char(i) {
            return false;
        }
        i = i + 1;
    }
    assert(a@ =~= b@);
    true
}

/// The file name of a path (empty where it has none).
pub fn path_file_name_of(s: &str) -> (r: String)
    ensures
        r@ == path_file_name(s@),
{
    let n = s.unicode_len();
    let mut end: usize = n;
    assert(s@.subrange(0, n as int) =~= s@);
    let mut seg = file_name_of(s.substring_char(0, end));
    loop
        invariant
            n == s@.len(),
            end <= n,
            path_file_name(s@) == path_file_name(s@.subrange(0, end as int)),
            seg@ == last_segment(s@.subrange(0, end as int)),
        ensures
            path_file_name(s@) == (if seg@ == "."@ || seg@ == ".."@ {
                Seq::<char>::empty()
            } else {
                seg@
            }),
        decreases end,
    {
        let p = s.substring_char(0, end);
        proof {
            reveal_strlit(".");
        }
        if end > 0 && s.get_char(end - 1) == '/' {
            assert(s@.subrange(0, end as int).drop_last() =~= s@.subrange(0, end - 1));
            end = end - 1;
        } else if end > 1 && same_text(seg.as_str(), ".") {
            assert(s@.subrange(0, end as int).drop_last() =~= s@.subrange(0, end - 1));
            end = end - 1;
        } else {
            proof {
                let q = s@.subrange(0, end as int);
                if end > 0 {
                    assert(q.last() == s@[end - 1]);
                }
                assert(!(q.len() > 0 && q.last() == '/'));
                assert(!(last_segment(q) == "."@ && q.len() > 1));
            }
            break;
        }
        seg = file_name_of(s.substring_char(0, end));
    }
    proof {
        reveal_strlit(".");
        reveal_strlit("..");
    }
    if same_text(seg.as_str(), ".") || same_text(seg.as_str(), "..") {
        String::new()
    } else {
        seg
    }
}

/// A relative name placed under a directory.
pub fn join_path(dir: &str, name: &str) -> (r: String)
    ensures
        r@ == path_under(dir@, name@),
{
    let mut r = String::from_str(dir);
    let n = dir.unicode_len();
    if n == 0 || dir.get_char(n - 1) != '/' {
        proof {
            reveal_strlit("/");
        }
        r.append("/");
    }
    r.append(name);
    r
}

/// Whether `pat` occurs in `s`.
pub fn find(s: &str, pat: &str) -> (r: bool)
    ensures
        r == contains(s@, pat@),
{
    let n = s.unicode_len();
    let m = pat.unicode_len();
    if m > n {
        return false;
    }
    if m == 0 {
        assert(s@.subrange(0, 0) =~= pat@);
        assert(occurs_at(s@, pat@, 0));
        return true;
    }
    let mut i: usize = 0;
    while i <= n - m
        invariant
            n == s@.len(),
            m == pat@.len(),
            1 <= m <= n,
            i <= n - m + 1,
            forall|k: int| 0 <= k < i ==> !occurs_at(s@, pat@, k),
        decreases n - m + 1 - i,
    {
        let mut j: usize = 0;
        let mut same = true;
        while j < m
            invariant
                n == s@.len(),
                m == pat@.len(),
                i + m <= n,
                j <= m,
                same ==> forall|k: int| 0 <= k < j ==> s@[i + k] == pat@[k],
                !same ==> !occurs_at(s@, pat@, i as int),
            decreases m - j,
        {
            if same && s.get_char(i + j) != pat.get_char(j) {
                same = false;
                proof {
                    if occurs_at(s@, pat@, i as int) {
                        assert(s@.subrange(i as int, i + m)[j as int] == s@[i + j]);
                    }
                }
            }
            j = j + 1;
        }
        if same {
            assert(s@.subrange(i as int, i + m) =~= pat@);
            assert(occurs_at(s@, pat@, i as int));
            return true;
        }
        i = i + 1;
    }
    assert forall|k: int| !occurs_at(s@, pat@, k) by {
        if 0 <= k < i {
        }
    }
    false
}

} // verus!
