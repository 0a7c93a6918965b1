//! Comparing, copying and building text.

use vstd::prelude::*;
use vstd::utf8::*;

verus! {

/// The text of `o`, if there is any.
pub open spec fn opt_text(o: Option<String>) -> Option<Seq<char>> {
    match o {
        Some(s) => Some(s@),
        None => None,
    }
}

/// The texts of a list of strings.
pub open spec fn texts(v: Seq<String>) -> Seq<Seq<char>> {
    v.map_values(|s: String| s@)
}

/// Whether two optional texts are the same.
pub fn same_opt_text(a: &Option<String>, b: &Option<String>) -> (same: bool)
    ensures
        same == (opt_text(*a) == opt_text(*b)),
{
    match (a, b) {
        (Some(x), Some(y)) => *x == *y,
        (None, None) => true,
        _ => false,
    }
}

/// A copy of an optional text.
pub fn copy_opt_text(a: &Option<String>) -> (copy: Option<String>)
    ensures
        copy == *a,
{
    match a {
        Some(x) => Some(x.clone()),
        None => None,
    }
}

/// Whether two lists hold the same texts in the same order.
pub fn same_texts(a: &Vec<String>, b: &Vec<String>) -> (same: bool)
    ensures
        same == (texts(a@) == texts(b@)),
{
    if a.len() != b.len() {
        assert(texts(a@).len() != texts(b@).len());
        return false;
    }
    let mut i: usize = 0;
    while i < a.len()
        invariant
            i <= a.len(),
            a.len() == b.len(),
            forall|j: int| 0 <= j < i ==> a@[j]@ == b@[j]@,
        decreases a.len() - i,
    {
        if a[i] != b[i] {
            assert(texts(a@)[i as int] != texts(b@)[i as int]);
            return false;
        }
        i += 1;
    }
    assert(texts(a@) =~= texts(b@));
    true
}

/// Whether `list` holds `wanted`.
pub fn holds_text(list: &Vec<String>, wanted: &String) -> (held: bool)
    ensures
        held == texts(list@).contains(wanted@),
{
    let mut i: usize = 0;
    while i < list.len()
        invariant
            i <= list.len(),
            forall|j: int| 0 <= j < i ==> list@[j]@ != wanted@,
        decreases list.len() - i,
    {
        if list[i] == *wanted {
            assert(texts(list@)[i as int] == wanted@);
            return true;
        }
        i += 1;
    }
    assert forall|j: int| 0 <= j < texts(list@).len() implies texts(list@)[j] != wanted@ by {
        assert(texts(list@)[j] == list@[j]@);
    }
    false
}

/// The decimal digits of `n`, most significant first.
pub open spec fn digits(n: nat) -> Seq<char>
    decreases n,
{
    if n < 10 {
        seq![digit(n)]
    } else {
        digits(n / 10).push(digit(n % 10))
    }
}

/// The character of one decimal digit.
pub open spec fn digit(d: nat) -> char {
    if d == 0 {
        '0'
    } else if d == 1 {
        '1'
    } else if d == 2 {
        '2'
    } else if d == 3 {
        '3'
    } else if d == 4 {
        '4'
    } else if d == 5 {
        '5'
    } else if d == 6 {
        '6'
    } else if d == 7 {
        '7'
    } else if d == 8 {
        '8'
    } else {
        '9'
    }
}

/// `i` in decimal, with a leading minus sign when it is negative.
pub open spec fn decimal(i: int) -> Seq<char> {
    if i < 0 {
        seq!['-'] + digits((-i) as nat)
    } else {
        digits(i as nat)
    }
}

fn digit_text(d: u64) -> (s: &'static str)
    requires
        d < 10,
    ensures
        s@ == seq![digit(d as nat)],
{
    proof {
        reveal_strlit("0");
        reveal_strlit("1");
        reveal_strlit("2");
        reveal_strlit("3");
        reveal_strlit("4");
        reveal_strlit("5");
        reveal_strlit("6");
        reveal_strlit("7");
        reveal_strlit("8");
        reveal_strlit("9");
    }
    if d == 0 {
        "0"
    } else if d == 1 {
        "1"
    } else if d == 2 {
        "2"
    } else if d == 3 {
        "3"
    } else if d == 4 {
        "4"
    } else if d == 5 {
        "5"
    } else if d == 6 {
        "6"
    } else if d == 7 {
        "7"
    } else if d == 8 {
        "8"
    } else {
        "9"
    }
}

fn append_digits(out: &mut String, n: u64)
    ensures
        final(out)@ == old(out)@ + digits(n as nat),
    decreases n,
{
    if n >= 10 {
        append_digits(out, n / 10);
    }
    out.append(digit_text(n % 10));
}

/// `i` in decimal.
pub fn decimal_text(i: i64) -> (s: String)
    ensures
        s@ == decimal(i as int),
{
    let mut out = String::new();
    if i < 0 {
        proof {
            reveal_strlit("-");
        }
        out.append("-");
        if i == i64::MIN {
            append_digits(&mut out, 9223372036854775808);
        } else {
            append_digits(&mut out, (-i) as u64);
        }
    } else {
        append_digits(&mut out, i as u64);
    }
    out
}

/// Whether `part` is the longest prefix of `full` that takes at most `limit` bytes.
pub open spec fn is_clipped(full: Seq<char>, limit: nat, part: Seq<char>) -> bool {
    &&& part.is_prefix_of(full)
    &&& encode_utf8(part).len() <= limit
    &&& part.len() < full.len() ==> encode_utf8(full.take(part.len() as int + 1)).len() > limit
}

proof fn lemma_encode_concat(a: Seq<char>, b: Seq<char>)
    ensures
        encode_utf8(a + b) == encode_utf8(a) + encode_utf8(b),
    decreases a.len(),
{
    if a.len() == 0 {
        assert(a + b =~= b);
        assert(encode_utf8(a) + encode_utf8(b) =~= encode_utf8(b));
    } else {
        lemma_encode_concat(a.drop_first(), b);
        assert((a + b).drop_first() =~= a.drop_first() + b);
        assert(encode_utf8(a + b) =~= encode_utf8(a) + encode_utf8(b));
    }
}

/// Every prefix of a text ends at a character boundary of its encoding.
pub proof fn lemma_prefix_ends_at_boundary(chars: Seq<char>, n: int)
    requires
        0 <= n <= chars.len(),
    ensures
        is_char_boundary(encode_utf8(chars), encode_utf8(chars.take(n)).len() as int),
        encode_utf8(chars.take(n)).len() <= encode_utf8(chars).len(),
        n > 0 ==> encode_utf8(chars.take(n)).len() > encode_utf8(chars.take(n - 1)).len(),
    decreases n,
{
    let bytes = encode_utf8(chars);
    encode_utf8_valid_utf8(chars);
    assert(chars =~= chars.take(n) + chars.skip(n));
    lemma_encode_concat(chars.take(n), chars.skip(n));
    if n > 0 {
        let last = seq![chars[n - 1]];
        assert(chars.take(n) =~= chars.take(n - 1) + last);
        lemma_encode_concat(chars.take(n - 1), last);
        reveal_with_fuel(encode_utf8, 2);
        assert(encode_utf8(last).len() >= 1);
        let rest = chars.drop_first();
        encode_utf8_first_scalar(chars);
        assert(pop_first_scalar(bytes) =~= encode_utf8(rest));
        assert(chars.take(n).drop_first() =~= rest.take(n - 1));
        lemma_prefix_ends_at_boundary(rest, n - 1);
    }
}

/// The longest prefix of `full` that takes at most `limit` bytes.
pub fn clip(full: &String, limit: usize) -> (part: String)
    ensures
        is_clipped(full@, limit as nat, part@),
{
    let whole: &str = full.as_str();
    let ghost bytes = encode_utf8(full@);
    let size: usize = whole.as_bytes().len();
    assert(size == bytes.len());
    proof {
        encode_utf8_valid_utf8(full@);
        is_char_boundary_start_end_of_seq(bytes);
    }
    let most: usize = if size < limit {
        size
    } else {
        limit
    };
    let mut end: usize = most;
    while !whole.is_char_boundary(end)
        invariant
            end <= most <= size,
            bytes == encode_utf8(full@),
            whole@ == full@,
            size == bytes.len(),
            is_char_boundary(bytes, 0),
            forall|i: int| end < i <= most ==> !is_char_boundary(bytes, i),
        decreases end,
    {
        end -= 1;
    }
    let (head, _) = whole.split_at(end);
    proof {
        let first = bytes.subrange(0, end as int);
        valid_utf8_split(bytes, end as int);
        decode_utf8_split(bytes, end as int);
        encode_utf8_decode_utf8(full@);
        encode_utf8_decode_utf8(head@);
        assert(encode_utf8(head@) =~= first);
        assert(head@ == decode_utf8(first));
        assert(head@.is_prefix_of(full@));
        if head@.len() < full@.len() {
            let n = head@.len() + 1;
            lemma_prefix_ends_at_boundary(full@, n as int);
            assert(full@.take(n - 1) =~= head@);
        }
    }
    head.to_owned()
}

} // verus!
