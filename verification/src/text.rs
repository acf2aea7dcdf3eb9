//! Text of the primitive values that the renderings are made of: decimal
//! numbers, booleans, and lists of parts joined by a separator.

use vstd::prelude::*;

verus! {

/// The text of one decimal digit.
pub open spec fn digit_text(d: nat) -> Seq<char>
    recommends
        d < 10,
{
    if d == 0 {
        "0"@
    } else if d == 1 {
        "1"@
    } else if d == 2 {
        "2"@
    } else if d == 3 {
        "3"@
    } else if d == 4 {
        "4"@
    } else if d == 5 {
        "5"@
    } else if d == 6 {
        "6"@
    } else if d == 7 {
        "7"@
    } else if d == 8 {
        "8"@
    } else {
        "9"@
    }
}

/// The decimal text of a natural number: no sign, no leading zero, and `0`
/// for zero.
pub open spec fn decimal_text(n: nat) -> Seq<char>
    decreases n,
{
    if n < 10 {
        digit_text(n)
    } else {
        decimal_text(n / 10) + digit_text(n % 10)
    }
}

/// The decimal text of an integer: a minus sign before the digits of a
/// negative one.
pub open spec fn signed_text(n: int) -> Seq<char> {
    if n < 0 {
        "-"@ + decimal_text((-n) as nat)
    } else {
        decimal_text(n as nat)
    }
}

/// The text of a boolean.
pub open spec fn bool_text(b: bool) -> Seq<char> {
    if b {
        "true"@
    } else {
        "false"@
    }
}

/// The parts one after the other, with `sep` between each two neighbours.
pub open spec fn join_texts(parts: Seq<Seq<char>>, sep: Seq<char>) -> Seq<char>
    decreases parts.len(),
{
    if parts.len() == 0 {
        Seq::empty()
    } else if parts.len() == 1 {
        parts[0]
    } else {
        join_texts(parts.drop_last(), sep) + sep + parts.last()
    }
}

/// The parts as a bracketed list: `[a, b, c]`.
pub open spec fn list_text(parts: Seq<Seq<char>>) -> Seq<char> {
    "["@ + join_texts(parts, ", "@) + "]"@
}

/// The decimal text of each byte of `items`, in order.
pub open spec fn byte_texts(items: Seq<u8>) -> Seq<Seq<char>> {
    Seq::new(items.len(), |i: int| decimal_text(items[i] as nat))
}

/// A sequence of bytes as a bracketed list of decimal numbers: `[1, 2, 3]`.
pub open spec fn byte_list_text(items: Seq<u8>) -> Seq<char> {
    list_text(byte_texts(items))
}

/// Joining one more part: the old joined text, the separator unless the new
/// part is the first, and the part.
pub proof fn lemma_join_push(parts: Seq<Seq<char>>, sep: Seq<char>, part: Seq<char>)
    ensures
        join_texts(parts.push(part), sep) == if parts.len() == 0 {
            part
        } else {
            join_texts(parts, sep) + sep + part
        },
{
    let longer = parts.push(part);
    assert(longer.drop_last() =~= parts);
    assert(longer.last() == part);
    if parts.len() == 0 {
        assert(longer[0] == part);
    }
}

fn digit_str(d: u64) -> (s: &'static str)
    requires
        d < 10,
    ensures
        s@ == digit_text(d as nat),
{
    if d == 0 {
        "0"
    } else if d == 1 {
        "1"
    } else if d == 2 {
        "2"
    } else if d == 3 {
        "3"
    } else if d == 4 {
        "4"
    } else if d == 5 {
        "5"
    } else if d == 6 {
        "6"
    } else if d == 7 {
        "7"
    } else if d == 8 {
        "8"
    } else {
        "9"
    }
}

/// Appends the decimal text of `n` to `out`.
pub fn push_decimal(out: &mut String, n: u64)
    ensures
        final(out)@ == old(out)@ + decimal_text(n as nat),
    decreases n,
{
    if n >= 10 {
        push_decimal(out, n / 10);
    }
    out.append(digit_str(n % 10));
    proof {
        let d = digit_text((n % 10) as nat);
        if n >= 10 {
            assert(old(out)@ + decimal_text((n / 10) as nat) + d =~= old(out)@ + (decimal_text(
                (n / 10) as nat,
            ) + d));
        }
    }
}

/// Appends the decimal text of `n` to `out`, with a minus sign if it is
/// negative.
pub fn push_signed(out: &mut String, n: i64)
    ensures
        final(out)@ == old(out)@ + signed_text(n as int),
{
    if n < 0 {
        out.append("-");
        let magnitude: u64 = if n == i64::MIN {
            9223372036854775808u64
        } else {
            (-n) as u64
        };
        push_decimal(out, magnitude);
        proof {
            assert(old(out)@ + "-"@ + decimal_text(magnitude as nat) =~= old(out)@ + ("-"@
                + decimal_text(magnitude as nat)));
        }
    } else {
        push_decimal(out, n as u64);
    }
}

/// Appends `true` or `false` to `out`.
pub fn push_bool(out: &mut String, b: bool)
    ensures
        final(out)@ == old(out)@ + bool_text(b),
{
    if b {
        out.append("true");
    } else {
        out.append("false");
    }
}

/// The text of each string of `parts`, in order.
pub open spec fn texts_of(parts: Seq<String>) -> Seq<Seq<char>> {
    Seq::new(parts.len(), |i: int| parts[i]@)
}

/// Joins the strings of `parts`, with `sep` between each two neighbours.
pub fn join_strings(parts: &Vec<String>, sep: &str) -> (joined: String)
    ensures
        joined@ == join_texts(texts_of(parts@), sep@),
{
    let mut joined = String::new();
    let ghost texts = texts_of(parts@);
    let mut i: usize = 0;
    while i < parts.len()
        invariant
            i <= parts.len(),
            texts == texts_of(parts@),
            joined@ == join_texts(texts.take(i as int), sep@),
        decreases parts.len() - i,
    {
        if i > 0 {
            joined.append(sep);
        }
        joined.append(parts[i].as_str());
        proof {
            let part = parts[i as int]@;
            lemma_join_push(texts.take(i as int), sep@, part);
            assert(texts.take(i as int).push(part) =~= texts.take(i + 1));
            if i == 0 {
                assert(join_texts(texts.take(0), sep@) + part =~= part);
            }
        }
        i += 1;
    }
    proof {
        assert(texts.take(parts.len() as int) =~= texts);
    }
    joined
}

/// The strings of `parts` as a bracketed list: `[a, b, c]`.
pub fn bracketed(parts: &Vec<String>) -> (text: String)
    ensures
        text@ == list_text(texts_of(parts@)),
{
    let mut text = String::from_str("[");
    let joined = join_strings(parts, ", ");
    text.append(joined.as_str());
    text.append("]");
    text
}

/// The decimal text of `n`.
pub fn decimal_to_text(n: u64) -> (text: String)
    ensures
        text@ == decimal_text(n as nat),
{
    let mut text = String::new();
    push_decimal(&mut text, n);
    assert(Seq::<char>::empty() + decimal_text(n as nat) =~= decimal_text(n as nat));
    text
}

/// The bytes of `items` as a bracketed list of decimal numbers.
pub fn byte_list_to_text(items: &Vec<u8>) -> (text: String)
    ensures
        text@ == byte_list_text(items@),
{
    let mut parts: Vec<String> = Vec::new();
    let mut i: usize = 0;
    while i < items.len()
        invariant
            i <= items.len(),
            parts.len() == i,
            forall|k: int| 0 <= k < i ==> (#[trigger] parts[k])@ == decimal_text(items[k] as nat),
        decreases items.len() - i,
    {
        parts.push(decimal_to_text(items[i] as u64));
        i += 1;
    }
    assert(texts_of(parts@) =~= byte_texts(items@));
    bracketed(&parts)
}

} // verus!
