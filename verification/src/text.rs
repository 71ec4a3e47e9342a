//! Text helpers shared by the feed readers and the SQL builders: decimal
//! rendering and parsing of integers, joining, and line handling.
use vstd::prelude::*;

verus! {

/// Appends one character to a string (`String::push`).
#[verifier::external_body]
pub(crate) fn push_char(s: &mut String, c: char)
    ensures
        final(s)@ == old(s)@.push(c),
{
    s.push(c);
}

pub open spec fn digit_char(d: nat) -> char {
    if d == 0 { '0' } else if d == 1 { '1' } else if d == 2 { '2' } else if d == 3 { '3' }
    else if d == 4 { '4' } else if d == 5 { '5' } else if d == 6 { '6' } else if d == 7 { '7' }
    else if d == 8 { '8' } else { '9' }
}

/// The value of an ASCII digit, `None` for any other character.
pub open spec fn digit_value(c: char) -> Option<nat> {
    if c == '0' { Some(0) } else if c == '1' { Some(1) } else if c == '2' { Some(2) }
    else if c == '3' { Some(3) } else if c == '4' { Some(4) } else if c == '5' { Some(5) }
    else if c == '6' { Some(6) } else if c == '7' { Some(7) } else if c == '8' { Some(8) }
    else if c == '9' { Some(9) } else { None }
}

/// The decimal rendering of a natural number, without leading zeros.
pub open spec fn decimal(n: nat) -> Seq<char>
    decreases n,
{
    if n < 10 {
        seq![digit_char(n)]
    } else {
        decimal(n / 10).push(digit_char(n % 10))
    }
}

/// The decimal rendering of an integer, with a leading `-` when negative.
pub open spec fn signed_decimal(i: int) -> Seq<char> {
    if i < 0 {
        seq!['-'].add(decimal((-i) as nat))
    } else {
        decimal(i as nat)
    }
}

proof fn lemma_decimal_digits(n: nat)
    ensures
        decimal(n).len() > 0,
        forall|i: int| 0 <= i < decimal(n).len() ==> digit_value(#[trigger] decimal(n)[i]) is Some,
        digits_value(decimal(n)) == Some(n),
    decreases n,
{
    if n >= 10 {
        lemma_decimal_digits(n / 10);
        let d = decimal(n);
        assert(d.drop_last() =~= decimal(n / 10));
        assert(d.last() == digit_char(n % 10));
        assert(digit_value(digit_char(n % 10)) == Some((n % 10) as nat));
        assert(n == (n / 10) * 10 + n % 10);
    } else {
        assert(decimal(n).drop_last() =~= Seq::<char>::empty());
        assert(digits_value(Seq::<char>::empty()) == Some(0nat));
        assert(digit_value(digit_char(n)) == Some(n));
    }
}

/// The decimal text of a number reads back as the number, for every
/// integer type whose range holds it.
pub proof fn law_decimal_round_trip(i: int, min: int, max: int)
    requires
        min <= i <= max,
        min <= 0,
    ensures
        parsed_integer(signed_decimal(i), min, max) == Some(i),
{
    if i < 0 {
        let n = (-i) as nat;
        lemma_decimal_digits(n);
        let s = signed_decimal(i);
        assert(s.drop_first() =~= decimal(n));
        assert(s[0] == '-');
    } else {
        lemma_decimal_digits(i as nat);
        let d = decimal(i as nat);
        assert(digit_value(d[0]) is Some);
    }
}

fn digit_to_char(d: u64) -> (c: char)
    requires
        d < 10,
    ensures
        c == digit_char(d as nat),
{
    if d == 0 { '0' } else if d == 1 { '1' } else if d == 2 { '2' } else if d == 3 { '3' }
    else if d == 4 { '4' } else if d == 5 { '5' } else if d == 6 { '6' } else if d == 7 { '7' }
    else if d == 8 { '8' } else { '9' }
}

fn char_to_digit(c: char) -> (r: Option<u64>)
    ensures
        match r {
            Some(d) => digit_value(c) == Some(d as nat) && d < 10,
            None => digit_value(c) is None,
        },
{
    if c == '0' { Some(0) } else if c == '1' { Some(1) } else if c == '2' { Some(2) }
    else if c == '3' { Some(3) } else if c == '4' { Some(4) } else if c == '5' { Some(5) }
    else if c == '6' { Some(6) } else if c == '7' { Some(7) } else if c == '8' { Some(8) }
    else if c == '9' { Some(9) } else { None }
}

/// Appends the decimal rendering of `n` to `out`.
pub fn write_decimal(n: u64, out: &mut String)
    ensures
        final(out)@ == old(out)@ + decimal(n as nat),
    decreases n,
{
    if n >= 10 {
        write_decimal(n / 10, out);
    }
    let c = digit_to_char(n % 10);
    push_char(out, c);
    assert(old(out)@ + decimal(n as nat) =~= final(out)@) by {
        if n >= 10 {
            assert(decimal(n as nat) == decimal((n / 10) as nat).push(digit_char((n % 10) as nat)));
        }
    }
}

/// The decimal rendering of an unsigned integer.
pub fn decimal_string(n: u64) -> (r: String)
    ensures
        r@ == decimal(n as nat),
{
    let mut s = String::new();
    write_decimal(n, &mut s);
    assert(s@ =~= decimal(n as nat));
    s
}

/// The decimal rendering of a signed integer (`Display` of `i64`).
pub fn signed_decimal_string(i: i64) -> (r: String)
    ensures
        r@ == signed_decimal(i as int),
{
    let mut s = String::new();
    if i < 0 {
        push_char(&mut s, '-');
        let m: u64 = if i == i64::MIN { 9223372036854775808u64 } else { (-i) as u64 };
        write_decimal(m, &mut s);
    } else {
        write_decimal(i as u64, &mut s);
    }
    assert(s@ =~= signed_decimal(i as int));
    s
}

/// The value of a string of ASCII digits, `None` if any character is not a digit.
pub open spec fn digits_value(d: Seq<char>) -> Option<nat>
    decreases d.len(),
{
    if d.len() == 0 {
        Some(0)
    } else {
        match (digits_value(d.drop_last()), digit_value(d.last())) {
            (Some(v), Some(x)) => Some(v * 10 + x),
            _ => None,
        }
    }
}

/// What Rust's integer parser (`FromStr` for the integer types) returns for `s`
/// on a type whose range is `min..=max`: an optional sign (`-` only where the
/// type has negative values), then at least one ASCII digit, with the value in range.
pub open spec fn parsed_integer(s: Seq<char>, min: int, max: int) -> Option<int> {
    if s.len() == 0 {
        None
    } else if (s[0] == '+' || s[0] == '-') && s.len() == 1 {
        None
    } else if s[0] == '-' && min < 0 {
        match digits_value(s.drop_first()) {
            Some(v) => if -v >= min { Some(-v) } else { None },
            None => None,
        }
    } else {
        let d = if s[0] == '+' { s.drop_first() } else { s };
        match digits_value(d) {
            Some(v) => if v <= max { Some(v as int) } else { None },
            None => None,
        }
    }
}

proof fn lemma_digits_value_grows(d: Seq<char>, k: int)
    requires
        0 <= k <= d.len(),
        digits_value(d) is Some,
    ensures
        digits_value(d.take(k)) is Some,
        digits_value(d.take(k)).unwrap() <= digits_value(d).unwrap(),
    decreases d.len(),
{
    if k < d.len() {
        lemma_digits_value_grows(d.drop_last(), k);
        assert(d.drop_last().take(k) =~= d.take(k));
    } else {
        assert(d.take(k) =~= d);
    }
}

/// Reads the digits of `s` from character `start` on, rejecting a magnitude above `limit`.
fn parse_magnitude(s: &Vec<char>, start: usize, limit: u64) -> (r: Option<u64>)
    requires
        start < s@.len(),
        limit <= u64::MAX / 20,
    ensures
        match r {
            Some(v) => digits_value(s@.skip(start as int)) == Some(v as nat) && v <= limit,
            None => match digits_value(s@.skip(start as int)) {
                Some(v) => v > limit,
                None => true,
            },
        },
{
    let ghost d = s@.skip(start as int);
    let mut acc: u64 = 0;
    let mut i: usize = start;
    let n = s.len();
    assert(d.take(0) =~= Seq::<char>::empty());
    while i < n
        invariant
            n == s@.len(),
            start <= i <= n,
            d == s@.skip(start as int),
            limit <= u64::MAX / 20,
            acc <= limit,
            digits_value(d.take(i - start)) == Some(acc as nat),
        decreases n - i,
    {
        let c = s[i];
        proof {
            assert(d.take(i - start + 1).drop_last() =~= d.take(i - start));
            assert(d.take(i - start + 1).last() == c);
        }
        match char_to_digit(c) {
            Some(x) => {
                let next = acc * 10 + x;
                if next > limit {
                    proof {
                        if digits_value(d) is Some {
                            lemma_digits_value_grows(d, i - start + 1);
                        }
                    }
                    return None;
                }
                acc = next;
            },
            None => {
                proof {
                    if digits_value(d) is Some {
                        lemma_digits_value_grows(d, i - start + 1);
                    }
                }
                return None;
            },
        }
        i = i + 1;
    }
    assert(d.take(n - start) =~= d);
    Some(acc)
}

/// The characters of a string, in order.
pub fn chars_of(s: &str) -> (r: Vec<char>)
    ensures
        r@ == s@,
{
    broadcast use vstd::string::group_string_axioms;
    let mut out: Vec<char> = Vec::new();
    for c in it: s.chars()
        invariant
            out@ == it.seq().take(it.index() as int),
    {
        assert(it.seq().take(it.index() + 1) =~= it.seq().take(it.index() as int).push(c));
        out.push(c);
    }
    assert(out@ =~= s@);
    out
}

/// Parses a decimal integer the way Rust's `FromStr` does for a type with range
/// `min..=max`.
pub fn parse_integer(s: &str, min: i64, max: i64) -> (r: Option<i64>)
    requires
        i32::MIN <= min <= 0,
        0 <= max <= u32::MAX,
    ensures
        match r {
            Some(v) => parsed_integer(s@, min as int, max as int) == Some(v as int),
            None => parsed_integer(s@, min as int, max as int) is None,
        },
{
    let cs = chars_of(s);
    let n = cs.len();
    if n == 0 {
        return None;
    }
    if (cs[0] == '+' || cs[0] == '-') && n == 1 {
        return None;
    }
    if cs[0] == '-' && min < 0 {
        let limit: u64 = (-min) as u64;
        assert(cs@.skip(1) =~= s@.drop_first());
        match parse_magnitude(&cs, 1, limit) {
            Some(v) => Some(-(v as i64)),
            None => None,
        }
    } else {
        let start: usize = if cs[0] == '+' { 1 } else { 0 };
        assert(cs@.skip(1) =~= s@.drop_first());
        assert(cs@.skip(0) =~= s@);
        match parse_magnitude(&cs, start, max as u64) {
            Some(v) => Some(v as i64),
            None => None,
        }
    }
}

/// Parses a `u32` as `str::parse::<u32>` does.
pub fn parse_u32(s: &str) -> (r: Option<u32>)
    ensures
        match r {
            Some(v) => parsed_integer(s@, 0, u32::MAX as int) == Some(v as int),
            None => parsed_integer(s@, 0, u32::MAX as int) is None,
        },
{
    match parse_integer(s, 0, u32::MAX as i64) {
        Some(v) => Some(v as u32),
        None => None,
    }
}

/// Parses an `i32` as `str::parse::<i32>` does.
pub fn parse_i32(s: &str) -> (r: Option<i32>)
    ensures
        match r {
            Some(v) => parsed_integer(s@, i32::MIN as int, i32::MAX as int) == Some(v as int),
            None => parsed_integer(s@, i32::MIN as int, i32::MAX as int) is None,
        },
{
    match parse_integer(s, i32::MIN as i64, i32::MAX as i64) {
        Some(v) => Some(v as i32),
        None => None,
    }
}


/// All the texts, when every one of them is present.
pub open spec fn all_present(items: Seq<Option<Seq<char>>>) -> Option<Seq<Seq<char>>>
    decreases items.len(),
{
    if items.len() == 0 {
        Some(Seq::empty())
    } else {
        match (all_present(items.drop_last()), items.last()) {
            (Some(a), Some(b)) => Some(a.push(b)),
            _ => None,
        }
    }
}

/// The concatenation of the lists, when every one of them is present.
pub open spec fn concat_present(items: Seq<Option<Seq<Seq<char>>>>) -> Option<Seq<Seq<char>>>
    decreases items.len(),
{
    if items.len() == 0 {
        Some(Seq::empty())
    } else {
        match (concat_present(items.drop_last()), items.last()) {
            (Some(a), Some(b)) => Some(a + b),
            _ => None,
        }
    }
}

/// When every text is present, there is one per item, in order.
pub proof fn lemma_all_present_items(items: Seq<Option<Seq<char>>>)
    requires
        all_present(items) is Some,
    ensures
        all_present(items).unwrap().len() == items.len(),
        forall|k: int| 0 <= k < items.len() ==> #[trigger] items[k] == Some(all_present(items).unwrap()[k]),
    decreases items.len(),
{
    if items.len() > 0 {
        lemma_all_present_items(items.drop_last());
        let a = all_present(items.drop_last()).unwrap();
        assert forall|k: int| 0 <= k < items.len() implies #[trigger] items[k] == Some(all_present(items).unwrap()[k]) by {
            if k < items.len() - 1 {
                assert(items.drop_last()[k] == items[k]);
            }
        }
    }
}

/// The total number of texts in the present lists.
pub open spec fn present_len(items: Seq<Option<Seq<Seq<char>>>>) -> int
    decreases items.len(),
{
    if items.len() == 0 {
        0
    } else {
        present_len(items.drop_last()) + match items.last() {
            Some(x) => x.len() as int,
            None => 0,
        }
    }
}

pub proof fn lemma_present_len_mono(items: Seq<Option<Seq<Seq<char>>>>, i: int, j: int)
    requires
        0 <= i <= j <= items.len(),
    ensures
        0 <= present_len(items.take(i)) <= present_len(items.take(j)),
    decreases j - i,
{
    if i < j {
        lemma_present_len_mono(items, i, j - 1);
        assert(items.take(j).drop_last() =~= items.take(j - 1));
    } else {
        lemma_present_len_nonneg(items.take(i));
    }
}

proof fn lemma_present_len_nonneg(items: Seq<Option<Seq<Seq<char>>>>)
    ensures
        present_len(items) >= 0,
    decreases items.len(),
{
    if items.len() > 0 {
        lemma_present_len_nonneg(items.drop_last());
    }
}

/// When every list is present, their concatenation is each list in turn:
/// list `k` fills the positions from the lengths of the lists before it.
pub proof fn lemma_concat_present_parts(items: Seq<Option<Seq<Seq<char>>>>)
    requires
        concat_present(items) is Some,
    ensures
        concat_present(items).unwrap().len() == present_len(items),
        forall|k: int|
            0 <= k < items.len() ==> (#[trigger] items[k]) is Some && concat_present(items).unwrap().subrange(
                present_len(items.take(k)),
                present_len(items.take(k + 1)),
            ) == items[k].unwrap(),
    decreases items.len(),
{
    if items.len() > 0 {
        let n = items.len() as int;
        let init = items.drop_last();
        lemma_concat_present_parts(init);
        let a = concat_present(init).unwrap();
        let b = items.last().unwrap();
        let v = concat_present(items).unwrap();
        assert(v == a + b);
        assert forall|k: int| 0 <= k < items.len() implies (#[trigger] items[k]) is Some && v.subrange(
            present_len(items.take(k)),
            present_len(items.take(k + 1)),
        ) == items[k].unwrap() by {
            if k < n - 1 {
                assert(items.take(k) =~= init.take(k));
                assert(items.take(k + 1) =~= init.take(k + 1));
                assert(init[k] == items[k]);
                lemma_present_len_mono(init, k + 1, n - 1);
                assert(init.take(n - 1) =~= init);
                lemma_present_len_mono(init, k, k + 1);
                assert(v.subrange(present_len(init.take(k)), present_len(init.take(k + 1))) =~= a.subrange(
                    present_len(init.take(k)),
                    present_len(init.take(k + 1)),
                ));
            } else {
                assert(items.take(k) =~= init);
                assert(items.take(k + 1) =~= items);
                assert(v.subrange(a.len() as int, (a.len() + b.len()) as int) =~= b);
            }
        }
    }
}

/// Lists all present and all of length `w` start at `w` times their index.
pub proof fn lemma_present_len_uniform(items: Seq<Option<Seq<Seq<char>>>>, w: int, k: int)
    requires
        0 <= k <= items.len(),
        forall|i: int| 0 <= i < items.len() ==> (#[trigger] items[i]) is Some && items[i].unwrap().len() == w,
    ensures
        present_len(items.take(k)) == w * k,
    decreases k,
{
    if k > 0 {
        lemma_present_len_uniform(items, w, k - 1);
        assert(items.take(k).drop_last() =~= items.take(k - 1));
        assert(items.take(k).last() == items[k - 1]);
        assert(w * k == w * (k - 1) + w) by (nonlinear_arith);
    } else {
        assert(w * 0 == 0) by (nonlinear_arith);
    }
}

/// Every text of every list is in the flattening.
pub proof fn lemma_flatten_contains(s: Seq<Seq<Seq<char>>>, k: int, j: int)
    requires
        0 <= k < s.len(),
        0 <= j < s[k].len(),
    ensures
        s.flatten().contains(s[k][j]),
    decreases s.len(),
{
    let f = s.flatten();
    assert(f == s.first() + s.drop_first().flatten());
    if k == 0 {
        assert(f[j] == s[0][j]);
    } else {
        lemma_flatten_contains(s.drop_first(), k - 1, j);
        let r = s.drop_first().flatten();
        let i = choose|i: int| 0 <= i < r.len() && r[i] == s[k][j];
        assert(f[s.first().len() + i] == r[i]);
    }
}

/// Once an item is missing, every longer prefix is missing too.
pub proof fn lemma_all_present_prefix(items: Seq<Option<Seq<char>>>, i: int, j: int)
    requires
        0 <= i <= j <= items.len(),
        all_present(items.take(i)) is None,
    ensures
        all_present(items.take(j)) is None,
    decreases j - i,
{
    if i < j {
        lemma_all_present_prefix(items, i, j - 1);
        assert(items.take(j).drop_last() =~= items.take(j - 1));
    }
}

pub proof fn lemma_concat_present_prefix(items: Seq<Option<Seq<Seq<char>>>>, i: int, j: int)
    requires
        0 <= i <= j <= items.len(),
        concat_present(items.take(i)) is None,
    ensures
        concat_present(items.take(j)) is None,
    decreases j - i,
{
    if i < j {
        lemma_concat_present_prefix(items, i, j - 1);
        assert(items.take(j).drop_last() =~= items.take(j - 1));
    }
}

/// `parts` joined with `sep` between consecutive parts.
pub open spec fn join(parts: Seq<Seq<char>>, sep: Seq<char>) -> Seq<char>
    decreases parts.len(),
{
    if parts.len() == 0 {
        Seq::empty()
    } else if parts.len() == 1 {
        parts[0]
    } else {
        join(parts.drop_last(), sep) + sep + parts.last()
    }
}

pub open spec fn views_of(v: Seq<String>) -> Seq<Seq<char>> {
    v.map_values(|s: String| s@)
}

pub proof fn lemma_views_of_add(a: Seq<String>, b: Seq<String>)
    ensures
        views_of(a + b) == views_of(a) + views_of(b),
{
    assert(views_of(a + b) =~= views_of(a) + views_of(b));
}

/// The flattening of a prefix one longer adds the next list.
pub proof fn lemma_flatten_take_step<A>(s: Seq<Seq<A>>, i: int)
    requires
        0 <= i < s.len(),
    ensures
        s.take(i + 1).flatten() == s.take(i).flatten() + s[i],
{
    assert(s.take(i + 1) =~= s.take(i).push(s[i]));
    s.take(i).lemma_flatten_push(s[i]);
}

/// Joins strings with a separator (`[String]::join`).
pub fn join_strings(list: &Vec<String>, sep: &str) -> (r: String)
    ensures
        r@ == join(views_of(list@), sep@),
{
    let mut res = String::new();
    let ghost parts = views_of(list@);
    let n = list.len();
    let mut i: usize = 0;
    while i < n
        invariant
            n == list@.len(),
            i <= n,
            parts == views_of(list@),
            res@ == join(parts.take(i as int), sep@),
        decreases n - i,
    {
        proof {
            assert(parts.take(i + 1).drop_last() =~= parts.take(i as int));
            assert(parts.take(i + 1).last() == list@[i as int]@);
        }
        if i != 0 {
            res.append(sep);
        } else {
            assert(parts.take(0).len() == 0);
        }
        res.append(list[i].as_str());
        i = i + 1;
    }
    assert(parts.take(n as int) =~= parts);
    res
}

/// The text after the first line break; empty when there is none. (The
/// feeds' XML declaration sits alone on the first line.)
pub open spec fn after_first_line(s: Seq<char>) -> Seq<char> {
    if exists|i: int| 0 <= i < s.len() && s[i] == '\n' {
        let i = choose|i: int| 0 <= i < s.len() && s[i] == '\n' && forall|j: int| 0 <= j < i ==> s[j] != '\n';
        s.skip(i + 1)
    } else {
        Seq::empty()
    }
}

/// Drops the first line of a text: the lines split at `'\n'`, without the
/// first one, joined again with `'\n'`.
pub fn strip_first_line(s: &str) -> (r: String)
    ensures
        r@ == after_first_line(s@),
{
    let cs = chars_of(s);
    let n = cs.len();
    let mut i: usize = 0;
    while i < n
        invariant
            n == cs@.len(),
            cs@ == s@,
            i <= n,
            forall|j: int| 0 <= j < i ==> cs@[j] != '\n',
        ensures
            i <= n,
            i < n ==> cs@[i as int] == '\n',
            forall|j: int| 0 <= j < i ==> cs@[j] != '\n',
        decreases n - i,
    {
        if cs[i] == '\n' {
            break;
        }
        i = i + 1;
    }
    let mut out = String::new();
    if i < n {
        let start = i + 1;
        let mut k: usize = start;
        while k < n
            invariant
                n == cs@.len(),
                start <= k <= n,
                out@ =~= cs@.subrange(start as int, k as int),
            decreases n - k,
        {
            push_char(&mut out, cs[k]);
            k = k + 1;
        }
        proof {
            assert(cs@[i as int] == '\n');
            let w = choose|w: int| 0 <= w < s@.len() && s@[w] == '\n' && forall|j: int| 0 <= j < w ==> s@[j] != '\n';
            assert(w == i) by {
                if w < i {
                    assert(cs@[w] != '\n');
                } else if w > i {
                    assert(s@[i as int] == '\n');
                }
            }
            assert(out@ =~= s@.skip(i + 1));
        }
    } else {
        assert(out@ =~= after_first_line(s@));
    }
    out
}

} // verus!
