//! Building blocks of the wire text: decimal numerals and joined lists.
use vstd::prelude::*;
use vstd::string::*;

verus! {

/// The character of the decimal digit `d`.
pub open spec fn digit(d: nat) -> char {
    if d == 0 { '0' }
    else if d == 1 { '1' }
    else if d == 2 { '2' }
    else if d == 3 { '3' }
    else if d == 4 { '4' }
    else if d == 5 { '5' }
    else if d == 6 { '6' }
    else if d == 7 { '7' }
    else if d == 8 { '8' }
    else { '9' }
}

/// The decimal numeral of `n`, without leading zeros.
pub open spec fn decimal(n: nat) -> Seq<char>
    decreases n,
{
    if n < 10 {
        seq![digit(n)]
    } else {
        decimal(n / 10) + seq![digit(n % 10)]
    }
}

/// `items` joined with `sep` between each two neighbours.
pub open spec fn join(items: Seq<Seq<char>>, sep: Seq<char>) -> Seq<char>
    decreases items.len(),
{
    if items.len() == 0 {
        Seq::empty()
    } else if items.len() == 1 {
        items[0]
    } else {
        join(items.drop_last(), sep) + sep + items.last()
    }
}

fn digit_str(d: u64) -> (r: &'static str)
    requires
        d < 10,
    ensures
        r@ == seq![digit(d as nat)],
{
    proof {
        reveal_strlit("0");
        reveal_strlit("1");
        reveal_strlit("2");
        reveal_strlit("3");
        reveal_strlit("4");
        reveal_strlit("5");
        reveal_strlit("6");
        reveal_strlit("7");
        reveal_strlit("8");
        reveal_strlit("9");
    }
    match d {
        0 => "0",
        1 => "1",
        2 => "2",
        3 => "3",
        4 => "4",
        5 => "5",
        6 => "6",
        7 => "7",
        8 => "8",
        _ => "9",
    }
}

/// Appends the decimal numeral of `n` to `s`.
pub(crate) fn push_decimal(s: &mut String, n: u64)
    ensures
        final(s)@ == old(s)@ + decimal(n as nat),
    decreases n,
{
    if n < 10 {
        s.append(digit_str(n));
    } else {
        push_decimal(s, n / 10);
        s.append(digit_str(n % 10));
        assert(final(s)@ =~= old(s)@ + decimal(n as nat));
    }
}

/// The two ways to end a joined list: appending `item` after `sep` if the
/// list had members, or alone if it had none.
pub proof fn lemma_join_push(items: Seq<Seq<char>>, item: Seq<char>, sep: Seq<char>)
    ensures
        join(items.push(item), sep) == if items.len() == 0 {
            item
        } else {
            join(items, sep) + sep + item
        },
{
    assert(items.push(item).drop_last() =~= items);
}

/// Appends `item` to a joined list that `s` ends with, after `sep` unless
/// the list is still empty (`first`).
pub(crate) fn push_item(
    s: &mut String,
    first: bool,
    sep: &str,
    item: &str,
    Ghost(head): Ghost<Seq<char>>,
    Ghost(items): Ghost<Seq<Seq<char>>>,
)
    requires
        old(s)@ == head + join(items, sep@),
        first == (items.len() == 0),
    ensures
        final(s)@ == head + join(items.push(item@), sep@),
{
    proof {
        lemma_join_push(items, item@, sep@);
    }
    if !first {
        s.append(sep);
    }
    s.append(item);
    assert(final(s)@ =~= head + join(items.push(item@), sep@));
}

/// The lowercase hexadecimal digit of `d`, below 16.
pub open spec fn hex_digit(d: nat) -> Seq<char> {
    if d < 10 {
        seq![digit(d)]
    } else if d == 10 { "a"@ }
    else if d == 11 { "b"@ }
    else if d == 12 { "c"@ }
    else if d == 13 { "d"@ }
    else if d == 14 { "e"@ }
    else { "f"@ }
}

/// How JSON writes the character `c` inside a string: quote, backslash and
/// control characters escaped, the short forms where JSON has them, every
/// other character as it is.
pub open spec fn escape_char(c: char) -> Seq<char> {
    if c == '"' {
        "\\\""@
    } else if c == '\\' {
        "\\\\"@
    } else if c == '\u{8}' {
        "\\b"@
    } else if c == '\u{c}' {
        "\\f"@
    } else if c == '\n' {
        "\\n"@
    } else if c == '\r' {
        "\\r"@
    } else if c == '\t' {
        "\\t"@
    } else if (c as u32) < 0x20 {
        "\\u00"@ + hex_digit((c as u32 / 16) as nat) + hex_digit((c as u32 % 16) as nat)
    } else {
        seq![c]
    }
}

/// The characters of `s`, each as JSON writes it inside a string.
pub open spec fn json_escaped(s: Seq<char>) -> Seq<char>
    decreases s.len(),
{
    if s.len() == 0 {
        Seq::empty()
    } else {
        json_escaped(s.drop_last()) + escape_char(s.last())
    }
}

/// The JSON string of the text `s`: between quotes, escaped.
pub open spec fn json_string(s: Seq<char>) -> Seq<char> {
    "\""@ + json_escaped(s) + "\""@
}

fn hex_str(d: u32) -> (r: &'static str)
    requires
        d < 16,
    ensures
        r@ == hex_digit(d as nat),
{
    if d < 10 {
        return digit_str(d as u64);
    }
    match d {
        10 => "a",
        11 => "b",
        12 => "c",
        13 => "d",
        14 => "e",
        _ => "f",
    }
}

/// Appends the JSON string of `t` (`json_string`) to `s`.
pub(crate) fn push_json_string(s: &mut String, t: &str)
    ensures
        final(s)@ == old(s)@ + json_string(t@),
{
    s.append("\"");
    let n = t.unicode_len();
    let mut i: usize = 0;
    assert(t@.subrange(0, 0) =~= Seq::<char>::empty());
    while i < n
        invariant
            i <= n,
            n == t@.len(),
            s@ == old(s)@ + "\""@ + json_escaped(t@.subrange(0, i as int)),
        decreases n - i,
    {
        let c = t.get_char(i);
        let ghost before = s@;
        assert(t@.subrange(0, i + 1).drop_last() =~= t@.subrange(0, i as int));
        if c == '"' {
            s.append("\\\"");
        } else if c == '\\' {
            s.append("\\\\");
        } else if c == '\u{8}' {
            s.append("\\b");
        } else if c == '\u{c}' {
            s.append("\\f");
        } else if c == '\n' {
            s.append("\\n");
        } else if c == '\r' {
            s.append("\\r");
        } else if c == '\t' {
            s.append("\\t");
        } else if (c as u32) < 0x20 {
            s.append("\\u00");
            s.append(hex_str(c as u32 / 16));
            s.append(hex_str(c as u32 % 16));
        } else {
            let one = t.substring_char(i, i + 1);
            assert(one@ =~= seq![c]);
            s.append(one);
        }
        assert(s@ =~= before + escape_char(c));
        assert(s@ =~= old(s)@ + "\""@ + json_escaped(t@.subrange(0, i + 1)));
        i = i + 1;
    }
    s.append("\"");
    assert(t@.subrange(0, n as int) =~= t@);
    assert(s@ =~= old(s)@ + json_string(t@));
}

} // verus!
