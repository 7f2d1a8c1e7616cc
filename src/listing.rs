use vstd::prelude::*;
use crate::text::{is_white, white};

verus! {

/// A line without the carriage return of a `\r\n` ending.
pub open spec fn strip_cr(line: Seq<char>) -> Seq<char> {
    if line.len() > 0 && line.last() == '\r' {
        line.drop_last()
    } else {
        line
    }
}

/// The lines of a text, split at each newline; a line ended by `\r\n`
/// loses its carriage return, as `str::lines` has it.
pub open spec fn split_lines(s: Seq<char>) -> Seq<Seq<char>>
    decreases s.len(),
{
    if s.len() == 0 {
        seq![Seq::empty()]
    } else {
        let ls = split_lines(s.drop_last());
        if s.last() == '\n' {
            ls.update(ls.len() - 1, strip_cr(ls.last())).push(Seq::empty())
        } else {
            ls.update(ls.len() - 1, ls.last().push(s.last()))
        }
    }
}

pub open spec fn contains(hay: Seq<char>, needle: Seq<char>) -> bool {
    exists|i: int|
        0 <= i && i + needle.len() <= hay.len() && #[trigger] hay.subrange(i, i + needle.len())
            == needle
}

/// A field that starts with `id=` begins at `p`.
pub open spec fn id_at(line: Seq<char>, p: int) -> bool {
    &&& 0 <= p
    &&& p + 3 <= line.len()
    &&& line[p] == 'i' && line[p + 1] == 'd' && line[p + 2] == '='
    &&& (p == 0 || is_white(line[p - 1]))
}

/// The first position at or after `q` where an `id=` field begins.
pub open spec fn first_id_from(line: Seq<char>, q: int) -> Option<int>
    decreases line.len() - q,
{
    if q < 0 || q + 3 > line.len() {
        None
    } else if id_at(line, q) {
        Some(q)
    } else {
        first_id_from(line, q + 1)
    }
}

/// The end of the field that continues at `i`.
pub open spec fn token_end(line: Seq<char>, i: int) -> int
    decreases line.len() - i,
{
    if i < 0 || i >= line.len() {
        line.len() as int
    } else if is_white(line[i]) {
        i
    } else {
        token_end(line, i + 1)
    }
}

pub open spec fn all_digits(d: Seq<char>) -> bool {
    forall|i: int| 0 <= i < d.len() ==> '0' <= #[trigger] d[i] <= '9'
}

pub open spec fn digits_value(d: Seq<char>) -> int
    decreases d.len(),
{
    if d.len() == 0 {
        0
    } else {
        digits_value(d.drop_last()) * 10 + (d.last() as int - 48)
    }
}

/// A decimal integer: an optional sign and at least one digit.
pub open spec fn parse_int(t: Seq<char>) -> Option<int> {
    if t.len() > 0 && (t[0] == '-' || t[0] == '+') {
        let d = t.drop_first();
        if d.len() > 0 && all_digits(d) {
            Some(if t[0] == '-' { -digits_value(d) } else { digits_value(d) })
        } else {
            None
        }
    } else if t.len() > 0 && all_digits(t) {
        Some(digits_value(t))
    } else {
        None
    }
}

/// A decimal integer that fits in an `i32`.
pub open spec fn parse_i32(t: Seq<char>) -> Option<i32> {
    match parse_int(t) {
        Some(v) => if i32::MIN <= v <= i32::MAX {
            Some(v as i32)
        } else {
            None
        },
        None => None,
    }
}

/// The id on one device line: the line mentions `name`, and the first field
/// that starts with `id=` holds a number.
pub open spec fn line_id(line: Seq<char>, name: Seq<char>) -> Option<i32> {
    if contains(line, name) {
        match first_id_from(line, 0) {
            Some(p) => parse_i32(line.subrange(p + 3, token_end(line, p + 3))),
            None => None,
        }
    } else {
        None
    }
}

/// The id on the first of `lines` that yields one.
pub open spec fn first_line_id(lines: Seq<Seq<char>>, name: Seq<char>) -> Option<i32>
    decreases lines.len(),
{
    if lines.len() == 0 {
        None
    } else {
        match first_line_id(lines.drop_last(), name) {
            Some(v) => Some(v),
            None => line_id(lines.last(), name),
        }
    }
}

/// The id that a device listing gives for the device called `name`.
pub open spec fn listing_id(listing: Seq<char>, name: Seq<char>) -> Option<i32> {
    first_line_id(split_lines(listing), name)
}

fn contains_run(hay: &[char], needle: &[char]) -> (r: bool)
    ensures
        r == contains(hay@, needle@),
{
    let n = hay.len();
    let m = needle.len();
    if m > n {
        return false;
    }
    if m == 0 {
        proof {
            assert(hay@.subrange(0, 0 + needle@.len() as int) =~= needle@);
        }
        return true;
    }
    let mut i: usize = 0;
    while i <= n - m
        invariant
            n == hay@.len(),
            m == needle@.len(),
            1 <= m <= n,
            i <= n - m + 1,
            forall|k: int| 0 <= k < i ==> #[trigger] hay@.subrange(k, k + m) != needle@,
        decreases n - m + 1 - i,
    {
        let mut j: usize = 0;
        let mut same = true;
        while j < m
            invariant
                n == hay@.len(),
                m == needle@.len(),
                i + m <= n,
                j <= m,
                same ==> forall|t: int| 0 <= t < j ==> hay@[i + t] == needle@[t],
                !same ==> hay@.subrange(i as int, i + m) != needle@,
            decreases m - j,
        {
            if hay[i + j] != needle[j] {
                same = false;
                proof {
                    assert(hay@.subrange(i as int, i + m)[j as int] != needle@[j as int]);
                }
            }
            j = j + 1;
        }
        if same {
            proof {
                assert(hay@.subrange(i as int, i + m) =~= needle@);
            }
            return true;
        }
        i = i + 1;
    }
    proof {
        assert forall|k: int|
            0 <= k && k + needle@.len() <= hay@.len() implies #[trigger] hay@.subrange(
            k,
            k + needle@.len(),
        ) != needle@ by {
            assert(k < i);
        }
    }
    false
}

fn first_id(line: &[char]) -> (r: Option<usize>)
    ensures
        match first_id_from(line@, 0) {
            Some(p) => r == Some(p as usize),
            None => r is None,
        },
        match r {
            Some(p) => p + 3 <= line@.len() && first_id_from(line@, 0) == Some(p as int),
            None => true,
        },
{
    let n = line.len();
    if n < 3 {
        return None;
    }
    let mut q: usize = 0;
    while q <= n - 3
        invariant
            n == line@.len(),
            n >= 3,
            q <= n - 2,
            first_id_from(line@, 0) == first_id_from(line@, q as int),
        decreases n - q,
    {
        if line[q] == 'i' && line[q + 1] == 'd' && line[q + 2] == '=' && (q == 0 || white(
            line[q - 1],
        )) {
            return Some(q);
        }
        q = q + 1;
    }
    None
}

fn field_end(line: &[char], i: usize) -> (r: usize)
    requires
        i <= line@.len(),
    ensures
        r as int == token_end(line@, i as int),
        i <= r <= line@.len(),
{
    let n = line.len();
    let mut k: usize = i;
    while k < n
        invariant
            n == line@.len(),
            i <= k <= n,
            token_end(line@, i as int) == token_end(line@, k as int),
        decreases n - k,
    {
        let b = line[k];
        if white(b) {
            return k;
        }
        k = k + 1;
    }
    n
}

const I32_LIMIT: u64 = 2_147_483_648;

const DIGITS_CAP: u64 = 2_147_483_649;

/// The value of the digits `t[from..]`, or `DIGITS_CAP` where it is larger.
fn capped_digits(t: &[char], from: usize) -> (r: Option<u64>)
    requires
        from <= t@.len(),
    ensures
        all_digits(t@.subrange(from as int, t@.len() as int)) <==> r is Some,
        r matches Some(v) ==> v as int == if digits_value(t@.subrange(from as int, t@.len() as int))
            > DIGITS_CAP {
            DIGITS_CAP as int
        } else {
            digits_value(t@.subrange(from as int, t@.len() as int))
        },
{
    let n = t.len();
    let mut acc: u64 = 0;
    let mut k: usize = from;
    proof {
        assert(t@.subrange(from as int, from as int) =~= Seq::<char>::empty());
    }
    while k < n
        invariant
            n == t@.len(),
            from <= k <= n,
            all_digits(t@.subrange(from as int, k as int)),
            digits_value(t@.subrange(from as int, k as int)) >= 0,
            acc as int == if digits_value(t@.subrange(from as int, k as int)) > DIGITS_CAP {
                DIGITS_CAP as int
            } else {
                digits_value(t@.subrange(from as int, k as int))
            },
        decreases n - k,
    {
        let b = t[k];
        let ghost prefix = t@.subrange(from as int, k as int);
        let ghost next = t@.subrange(from as int, k + 1);
        proof {
            assert(next.drop_last() =~= prefix);
        }
        if b < '0' || b > '9' {
            proof {
                assert(!all_digits(t@.subrange(from as int, n as int))) by {
                    assert(t@.subrange(from as int, n as int)[k - from] == b);
                }
            }
            return None;
        }
        let v = acc * 10 + ((b as u32) - 48) as u64;
        proof {
            let dv = digits_value(prefix);
            assert(digits_value(next) == dv * 10 + (b as int - 48));
            if dv > DIGITS_CAP {
                assert(dv * 10 + (b as int - 48) > DIGITS_CAP) by (nonlinear_arith)
                    requires
                        dv > DIGITS_CAP,
                        b as int >= 48,
                ;
            }
            assert(all_digits(next)) by {
                assert forall|x: int| 0 <= x < next.len() implies '0' <= #[trigger] next[x] <= '9' by {
                    if x < prefix.len() {
                        assert(next[x] == prefix[x]);
                    }
                }
            }
        }
        acc = if v > DIGITS_CAP {
            DIGITS_CAP
        } else {
            v
        };
        k = k + 1;
    }
    Some(acc)
}

/// Reads a decimal `i32` with an optional sign, as `str::parse` does.
pub fn parse_decimal_i32(t: &[char]) -> (r: Option<i32>)
    ensures
        r == parse_i32(t@),
{
    let n = t.len();
    if n == 0 {
        return None;
    }
    if t[0] == '-' || t[0] == '+' {
        if n == 1 {
            return None;
        }
        proof {
            assert(t@.drop_first() =~= t@.subrange(1, n as int));
        }
        match capped_digits(t, 1) {
            Some(v) => {
                if t[0] == '-' {
                    if v <= I32_LIMIT {
                        if v == I32_LIMIT {
                            Some(i32::MIN)
                        } else {
                            Some(-(v as i32))
                        }
                    } else {
                        None
                    }
                } else if v < I32_LIMIT {
                    Some(v as i32)
                } else {
                    None
                }
            },
            None => None,
        }
    } else {
        proof {
            assert(t@.subrange(0, n as int) =~= t@);
        }
        match capped_digits(t, 0) {
            Some(v) => if v < I32_LIMIT {
                Some(v as i32)
            } else {
                None
            },
            None => None,
        }
    }
}

fn device_line_id(line: &[char], name: &[char]) -> (r: Option<i32>)
    ensures
        r == line_id(line@, name@),
{
    if !contains_run(line, name) {
        return None;
    }
    let n = line.len();
    match first_id(line) {
        Some(p) => {
            let start = p + 3;
            let e = field_end(line, start);
            let field = slice_to_vec(line, start, e);
            parse_decimal_i32(field.as_slice())
        },
        None => None,
    }
}

fn slice_to_vec(s: &[char], a: usize, b: usize) -> (r: Vec<char>)
    requires
        a <= b <= s@.len(),
    ensures
        r@ == s@.subrange(a as int, b as int),
{
    let mut r: Vec<char> = Vec::new();
    let mut k: usize = a;
    while k < b
        invariant
            a <= k <= b,
            b <= s@.len(),
            r@ == s@.subrange(a as int, k as int),
        decreases b - k,
    {
        r.push(s[k]);
        proof {
            assert(r@ =~= s@.subrange(a as int, k + 1));
        }
        k = k + 1;
    }
    r
}

/// The characters of `s`.
fn chars_of(s: &str) -> (r: Vec<char>)
    ensures
        r@ == s@,
{
    let n = s.unicode_len();
    let mut r: Vec<char> = Vec::new();
    let mut i: usize = 0;
    while i < n
        invariant
            n == s@.len(),
            i <= n,
            r@ == s@.subrange(0, i as int),
        decreases n - i,
    {
        r.push(s.get_char(i));
        proof {
            assert(r@ =~= s@.subrange(0, i + 1));
        }
        i = i + 1;
    }
    proof {
        assert(s@.subrange(0, n as int) =~= s@);
    }
    r
}

/// Finds the id of the device called `name` in the text of a device
/// listing: the first line that mentions `name` and whose first
/// whitespace-separated field starting with `id=` holds a number.
pub fn find_device_id(listing: &str, name: &str) -> (r: Option<i32>)
    ensures
        r == listing_id(listing@, name@),
{
    let text = chars_of(listing);
    let name = chars_of(name);
    let n = text.len();
    let mut cur: Vec<char> = Vec::new();
    let mut found: Option<i32> = None;
    let ghost mut done: Seq<Seq<char>> = Seq::empty();
    let mut i: usize = 0;
    proof {
        assert(text@.subrange(0, 0) =~= Seq::<char>::empty());
    }
    while i < n
        invariant
            n == text@.len(),
            i <= n,
            split_lines(text@.subrange(0, i as int)) == done.push(cur@),
            found == first_line_id(done, name@),
        decreases n - i,
    {
        let c = text[i];
        proof {
            assert(text@.subrange(0, i + 1).drop_last() =~= text@.subrange(0, i as int));
        }
        if c == '\n' {
            let ghost raw = cur@;
            let len = cur.len();
            if len > 0 && cur[len - 1] == '\r' {
                cur.pop();
                proof {
                    assert(cur@ =~= raw.drop_last());
                }
            }
            if found.is_none() {
                found = device_line_id(cur.as_slice(), name.as_slice());
            }
            proof {
                assert(done.push(raw).update(done.len() as int, strip_cr(raw)) =~= done.push(cur@));
                assert(done.push(cur@).drop_last() =~= done);
                done = done.push(cur@);
            }
            cur = Vec::new();
        } else {
            let ghost prev = cur@;
            cur.push(c);
            proof {
                assert(done.push(prev).update(done.len() as int, cur@) =~= done.push(cur@));
            }
        }
        i = i + 1;
    }
    proof {
        assert(text@.subrange(0, n as int) =~= text@);
        assert(done.push(cur@).drop_last() =~= done);
        assert(done.push(cur@).last() == cur@);
    }
    if found.is_none() {
        found = device_line_id(cur.as_slice(), name.as_slice());
    }
    proof {
        assert(first_line_id(done.push(cur@), name@) == match first_line_id(done, name@) {
            Some(v) => Some(v),
            None => line_id(cur@, name@),
        });
    }
    found
}

} // verus!
