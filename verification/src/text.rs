//! Text that goes into messages: decimal numbers, hexadecimal bytes, JSON strings.

use vstd::prelude::*;

verus! {

/// The character of one decimal digit.
pub open spec fn digit_char(d: nat) -> char {
    (48 + d) as char
}

/// The decimal notation of a number, without leading zeros.
pub open spec fn decimal(n: nat) -> Seq<char>
    decreases n,
{
    if n < 10 {
        seq![digit_char(n)]
    } else {
        decimal(n / 10).push(digit_char(n % 10))
    }
}

/// The character of one lower-case hexadecimal digit.
pub open spec fn hex_char(d: int) -> char {
    if d < 10 {
        (48 + d) as char
    } else {
        (87 + d) as char
    }
}

/// The lower-case hexadecimal notation of bytes, two characters for each.
pub open spec fn lower_hex(bytes: Seq<u8>) -> Seq<char> {
    Seq::new(
        2 * bytes.len(),
        |i: int|
            if i % 2 == 0 {
                hex_char(bytes[i / 2] as int / 16)
            } else {
                hex_char(bytes[i / 2] as int % 16)
            },
    )
}

/// How one character stands inside a JSON string.
pub open spec fn json_escape(c: char) -> Seq<char> {
    if c == '"' || c == '\\' {
        seq!['\\', c]
    } else if c == '\u{8}' {
        seq!['\\', 'b']
    } else if c == '\t' {
        seq!['\\', 't']
    } else if c == '\n' {
        seq!['\\', 'n']
    } else if c == '\u{c}' {
        seq!['\\', 'f']
    } else if c == '\r' {
        seq!['\\', 'r']
    } else if (c as int) < 32 {
        seq!['\\', 'u', '0', '0', hex_char(c as int / 16), hex_char(c as int % 16)]
    } else {
        seq![c]
    }
}

/// The characters of a JSON string between its quotes.
pub open spec fn json_escaped(s: Seq<char>) -> Seq<char>
    decreases s.len(),
{
    if s.len() == 0 {
        Seq::empty()
    } else {
        json_escaped(s.drop_last()) + json_escape(s.last())
    }
}

/// A JSON string, quotes included.
pub open spec fn json_string(s: Seq<char>) -> Seq<char> {
    seq!['"'] + json_escaped(s) + seq!['"']
}

/// Whether a text holds no line feed.
pub open spec fn one_line(s: Seq<char>) -> bool {
    forall|i: int| 0 <= i < s.len() ==> s[i] != '\n'
}

/// The items one after the other, with a separator between neighbours.
pub open spec fn joined(items: Seq<Seq<char>>, separator: Seq<char>) -> Seq<char>
    decreases items.len(),
{
    if items.len() == 0 {
        Seq::empty()
    } else if items.len() == 1 {
        items[0]
    } else {
        joined(items.drop_last(), separator) + separator + items.last()
    }
}

/// No number holds a line feed.
pub proof fn lemma_decimal_one_line(n: nat)
    ensures
        one_line(decimal(n)),
    decreases n,
{
    if n >= 10 {
        lemma_decimal_one_line(n / 10);
    }
}

/// No hexadecimal text holds a character that JSON escapes.
pub proof fn lemma_lower_hex_plain(bytes: Seq<u8>)
    ensures
        json_string(lower_hex(bytes)) == seq!['"'] + lower_hex(bytes) + seq!['"'],
{
    let s = lower_hex(bytes);
    assert forall|i: int| 0 <= i < s.len() implies json_escape(#[trigger] s[i]) == seq![s[i]] by {}
    lemma_escaped_plain(s);
}

proof fn lemma_escaped_plain(s: Seq<char>)
    requires
        forall|i: int| 0 <= i < s.len() ==> json_escape(#[trigger] s[i]) == seq![s[i]],
    ensures
        json_escaped(s) == s,
    decreases s.len(),
{
    if s.len() > 0 {
        assert(json_escape(s[s.len() - 1]) == seq![s.last()]);
        assert forall|i: int| 0 <= i < s.drop_last().len() implies json_escape(
            #[trigger] s.drop_last()[i],
        ) == seq![s.drop_last()[i]] by {
            assert(s.drop_last()[i] == s[i]);
        }
        lemma_escaped_plain(s.drop_last());
        assert(s.drop_last() + seq![s.last()] == s);
    }
}

/// No JSON string holds a line feed, whatever text it stands for.
pub proof fn lemma_json_string_one_line(s: Seq<char>)
    ensures
        one_line(json_string(s)),
    decreases s.len(),
{
    if s.len() > 0 {
        lemma_json_string_one_line(s.drop_last());
        let front = json_escaped(s.drop_last());
        assert forall|i: int| 0 <= i < front.len() implies front[i] != '\n' by {
            assert(json_string(s.drop_last())[i + 1] == front[i]);
        }
        lemma_json_escape_one_line(s.last());
    }
}

proof fn lemma_json_escape_one_line(c: char)
    ensures
        one_line(json_escape(c)),
{
    if (c as int) < 32 {
        assert(hex_char(c as int / 16) != '\n' && hex_char(c as int % 16) != '\n');
    }
}

/// The JSON string of two texts, one after the other, holds that of the first and that of the
/// second between its quotes.
pub proof fn lemma_json_string_parts(a: Seq<char>, b: Seq<char>)
    ensures
        json_string(a + b) == json_string(a).drop_last() + json_string(b).drop_first(),
        json_string(Seq::<char>::empty()) == seq!['"', '"'],
{
    lemma_json_escaped_parts(a, b);
    assert(json_string(a).drop_last() =~= seq!['"'] + json_escaped(a));
    assert(json_string(b).drop_first() =~= json_escaped(b) + seq!['"']);
    assert(json_string(a + b) =~= json_string(a).drop_last() + json_string(b).drop_first());
    assert(json_string(Seq::<char>::empty()) =~= seq!['"', '"']);
}

proof fn lemma_json_escaped_parts(a: Seq<char>, b: Seq<char>)
    ensures
        json_escaped(a + b) == json_escaped(a) + json_escaped(b),
    decreases b.len(),
{
    if b.len() == 0 {
        assert(a + b =~= a);
        assert(json_escaped(a) + json_escaped(b) =~= json_escaped(a));
    } else {
        lemma_json_escaped_parts(a, b.drop_last());
        assert((a + b).drop_last() =~= a + b.drop_last());
        assert(json_escaped(a + b) =~= json_escaped(a) + json_escaped(b));
    }
}

/// The JSON string of one character is that character between quotes, but for the quote, the
/// backslash and the control characters, which are escaped.
pub proof fn lemma_json_string_of_char(c: char)
    ensures
        c == '"' ==> json_string(seq![c]) == seq!['"', '\\', '"', '"'],
        c == '\\' ==> json_string(seq![c]) == seq!['"', '\\', '\\', '"'],
        c == '\n' ==> json_string(seq![c]) == seq!['"', '\\', 'n', '"'],
        c == '\r' ==> json_string(seq![c]) == seq!['"', '\\', 'r', '"'],
        c == '\t' ==> json_string(seq![c]) == seq!['"', '\\', 't', '"'],
        c == '\u{8}' ==> json_string(seq![c]) == seq!['"', '\\', 'b', '"'],
        c == '\u{c}' ==> json_string(seq![c]) == seq!['"', '\\', 'f', '"'],
        ' ' <= c && c != '"' && c != '\\' ==> json_string(seq![c]) == seq!['"', c, '"'],
        c < ' ' ==> json_string(seq![c])[1] == '\\',
{
    reveal_with_fuel(json_escaped, 2);
    let s = seq![c];
    assert(s.drop_last() =~= Seq::<char>::empty());
    assert(s.last() == c);
    assert(json_escaped(s) =~= json_escape(c));
    assert(json_string(s) =~= seq!['"'] + json_escape(c) + seq!['"']);
}

/// The items of two parts, joined, are those of the first and those of the second, joined, with a
/// separator between.
pub proof fn lemma_joined_parts(a: Seq<Seq<char>>, b: Seq<Seq<char>>, separator: Seq<char>)
    requires
        a.len() > 0,
        b.len() > 0,
    ensures
        joined(a + b, separator) == joined(a, separator) + separator + joined(b, separator),
    decreases b.len(),
{
    assert((a + b).drop_last() =~= a + b.drop_last());
    assert((a + b).last() == b.last());
    if b.len() > 1 {
        lemma_joined_parts(a, b.drop_last(), separator);
        assert(joined(a + b, separator) =~= joined(a, separator) + separator + joined(
            b,
            separator,
        ));
    } else {
        assert(a + b.drop_last() =~= a);
    }
}

/// Nothing joined is nothing, and one item joined is that item.
pub proof fn lemma_joined_few(item: Seq<char>, separator: Seq<char>)
    ensures
        joined(Seq::<Seq<char>>::empty(), separator) == Seq::<char>::empty(),
        joined(seq![item], separator) == item,
{
}

/// The number that a decimal notation stands for.
pub open spec fn decimal_value(s: Seq<char>) -> int
    decreases s.len(),
{
    if s.len() == 0 {
        0
    } else {
        10 * decimal_value(s.drop_last()) + (s.last() as int - '0' as int)
    }
}

/// The decimal notation of a number stands for that number, holds digits alone, and has no leading
/// zero but for the number zero.
pub proof fn lemma_decimal_value(n: nat)
    ensures
        decimal_value(decimal(n)) == n,
        decimal(n).len() > 0,
        forall|i: int| 0 <= i < decimal(n).len() ==> '0' <= #[trigger] decimal(n)[i] <= '9',
        n > 0 ==> decimal(n)[0] != '0',
    decreases n,
{
    let s = decimal(n);
    if n >= 10 {
        lemma_decimal_value(n / 10);
        assert(s.drop_last() =~= decimal(n / 10));
        assert(s.last() == digit_char(n % 10));
        assert(s[0] == decimal(n / 10)[0]);
        assert forall|i: int| 0 <= i < s.len() implies '0' <= #[trigger] s[i] <= '9' by {
            if i < s.len() - 1 {
                assert(s[i] == decimal(n / 10)[i]);
            }
        }
    } else {
        reveal_with_fuel(decimal_value, 2);
        assert(s.drop_last() =~= Seq::<char>::empty());
        assert(s.last() == digit_char(n));
    }
}

/// The value of a lower-case hexadecimal digit.
pub open spec fn hex_value(c: char) -> int {
    if '0' <= c <= '9' {
        c as int - '0' as int
    } else {
        c as int - 'a' as int + 10
    }
}

/// The hexadecimal notation of bytes has two digits for each byte, in order, which stand for it.
pub proof fn lemma_lower_hex_value(bytes: Seq<u8>, i: int)
    requires
        0 <= i < bytes.len(),
    ensures
        lower_hex(bytes).len() == 2 * bytes.len(),
        16 * hex_value(lower_hex(bytes)[2 * i]) + hex_value(lower_hex(bytes)[2 * i + 1])
            == bytes[i],
        0 <= hex_value(lower_hex(bytes)[2 * i]) < 16,
        0 <= hex_value(lower_hex(bytes)[2 * i + 1]) < 16,
{
    assert((2 * i) / 2 == i && (2 * i) % 2 == 0);
    assert((2 * i + 1) / 2 == i && (2 * i + 1) % 2 == 1);
}

/// Items without line feeds, joined by a separator without one, hold none.
pub proof fn lemma_joined_one_line(items: Seq<Seq<char>>, separator: Seq<char>)
    requires
        one_line(separator),
        forall|i: int| 0 <= i < items.len() ==> one_line(#[trigger] items[i]),
    ensures
        one_line(joined(items, separator)),
    decreases items.len(),
{
    if items.len() > 1 {
        assert forall|i: int| 0 <= i < items.drop_last().len() implies one_line(
            #[trigger] items.drop_last()[i],
        ) by {
            assert(items.drop_last()[i] == items[i]);
        }
        lemma_joined_one_line(items.drop_last(), separator);
        assert(one_line(items[items.len() - 1]));
    }
}

fn digit_text(d: u64) -> (s: &'static str)
    requires
        d < 10,
    ensures
        s@ == seq![digit_char(d as nat)],
{
    proof {
        reveal_strlit("0");
        reveal_strlit("1");
        reveal_strlit("2");
        reveal_strlit("3");
        reveal_strlit("4");
        reveal_strlit("5");
        reveal_strlit("6");
        reveal_strlit("7");
        reveal_strlit("8");
        reveal_strlit("9");
    }
    match d {
        0 => "0",
        1 => "1",
        2 => "2",
        3 => "3",
        4 => "4",
        5 => "5",
        6 => "6",
        7 => "7",
        8 => "8",
        _ => "9",
    }
}

/// Appends the decimal notation of a number.
pub fn push_decimal(out: &mut String, n: u64)
    ensures
        final(out)@ == old(out)@ + decimal(n as nat),
    decreases n,
{
    if n >= 10 {
        push_decimal(out, n / 10);
    }
    out.append(digit_text(n % 10));
}

/// Whether two texts are the same.
pub fn same_text(a: &str, b: &str) -> (same: bool)
    ensures
        same == (a@ == b@),
{
    let (left, right) = (a.as_bytes(), b.as_bytes());
    if left.len() != right.len() {
        return false;
    }
    let mut i: usize = 0;
    while i < left.len()
        invariant
            i <= left@.len(),
            left@.len() == right@.len(),
            left@ == vstd::utf8::encode_utf8(a@),
            right@ == vstd::utf8::encode_utf8(b@),
            left@.take(i as int) == right@.take(i as int),
        decreases left@.len() - i,
    {
        if left[i] != right[i] {
            return false;
        }
        i = i + 1;
        assert(left@.take(i as int) =~= right@.take(i as int));
    }
    proof {
        assert(left@.take(i as int) == left@ && right@.take(i as int) == right@);
        vstd::utf8::encode_utf8_decode_utf8(a@);
        vstd::utf8::encode_utf8_decode_utf8(b@);
    }
    true
}

/// The lower-case hexadecimal notation of bytes: `bitcoin::hex::DisplayHex::to_lower_hex_string`.
///
/// It writes the two hexadecimal digits of each byte, in the order of the bytes. It gives up only
/// where twice the number of bytes exceeds `usize::MAX`, which no slice reaches.
#[verifier::external_body]
pub(crate) fn to_lower_hex(bytes: &[u8]) -> (hex: String)
    ensures
        hex@ == lower_hex(bytes@),
{
    bitcoin::hex::DisplayHex::to_lower_hex_string(bytes)
}

/// The JSON string of a text: `serde_json::to_string` of a `str`.
///
/// It writes the text between quotes, with a backslash escape for the quote, the backslash and
/// each control character below the space, and every other character as it is. Writing a `str`
/// into a `String` does not fail.
#[verifier::external_body]
pub(crate) fn to_json_string(s: &str) -> (json: String)
    ensures
        json@ == json_string(s@),
{
    serde_json::to_string(s).expect("a text is valid JSON")
}

} // verus!
