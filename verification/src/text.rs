//! Decimal numbers and byte lists in the client's texts.

use vstd::prelude::*;

verus! {

/// The character of a decimal digit.
pub open spec fn digit(d: int) -> char {
    ('0' as int + d) as char
}

/// A number in decimal notation, without leading zeros.
pub open spec fn decimal(n: nat) -> Seq<char>
    decreases n,
{
    if n < 10 {
        seq![digit(n as int)]
    } else {
        decimal(n / 10).push(digit((n % 10) as int))
    }
}

/// The bytes in decimal notation, with a comma and a space between neighbours.
pub open spec fn comma_separated(bytes: Seq<u8>) -> Seq<char>
    decreases bytes.len(),
{
    if bytes.len() == 0 {
        Seq::empty()
    } else if bytes.len() == 1 {
        decimal(bytes[0] as nat)
    } else {
        comma_separated(bytes.drop_last()) + ", "@ + decimal(bytes.last() as nat)
    }
}

/// The bytes as a list in square brackets.
pub open spec fn byte_list(bytes: Seq<u8>) -> Seq<char> {
    "["@ + comma_separated(bytes) + "]"@
}

/// The text of one decimal digit.
fn digit_text(d: u16) -> (text: &'static str)
    requires
        d < 10,
    ensures
        text@ == seq![digit(d as int)],
{
    proof {
        reveal_strlit("0");
        reveal_strlit("1");
        reveal_strlit("2");
        reveal_strlit("3");
        reveal_strlit("4");
        reveal_strlit("5");
        reveal_strlit("6");
        reveal_strlit("7");
        reveal_strlit("8");
        reveal_strlit("9");
    }
    match d {
        0 => "0",
        1 => "1",
        2 => "2",
        3 => "3",
        4 => "4",
        5 => "5",
        6 => "6",
        7 => "7",
        8 => "8",
        _ => "9",
    }
}

/// Appends a number in decimal notation.
pub fn append_decimal(text: &mut String, n: u16)
    ensures
        final(text)@ == old(text)@ + decimal(n as nat),
        final(text)@.take(old(text)@.len() as int) == old(text)@,
        is_decimal(final(text)@.skip(old(text)@.len() as int)),
        digits_value(final(text)@.skip(old(text)@.len() as int)) == n,
    decreases n,
{
    let ghost start = text@;
    if n >= 10 {
        append_decimal(text, n / 10);
    }
    text.append(digit_text(n % 10));
    proof {
        decimal_is_read_back(n as nat);
        assert(text@ =~= start + decimal(n as nat));
        assert(text@.take(start.len() as int) =~= start);
        assert(text@.skip(start.len() as int) =~= decimal(n as nat));
    }
}

/// Appends bytes as a list in square brackets.
pub fn append_byte_list(text: &mut String, bytes: &[u8])
    ensures
        final(text)@ == old(text)@ + byte_list(bytes@),
{
    let ghost start = text@;
    text.append("[");
    let mut i: usize = 0;
    while i < bytes.len()
        invariant
            i <= bytes@.len(),
            text@ == start + "["@ + comma_separated(bytes@.take(i as int)),
        decreases bytes@.len() - i,
    {
        if i > 0 {
            text.append(", ");
        }
        append_decimal(text, bytes[i] as u16);
        assert(bytes@.take(i + 1).drop_last() =~= bytes@.take(i as int));
        i = i + 1;
    }
    text.append("]");
    assert(bytes@.take(i as int) =~= bytes@);
}

/// The number that a text of decimal digits stands for, read digit by digit in base ten.
pub open spec fn digits_value(text: Seq<char>) -> int
    decreases text.len(),
{
    if text.len() == 0 {
        0
    } else {
        10 * digits_value(text.drop_last()) + (text.last() as int - '0' as int)
    }
}

/// Whether a text is a number in decimal digits, without a leading zero but for the number zero.
pub open spec fn is_decimal(text: Seq<char>) -> bool {
    &&& text.len() > 0
    &&& forall|i: int| 0 <= i < text.len() ==> '0' <= #[trigger] text[i] <= '9'
    &&& text.len() > 1 ==> text[0] != '0'
}

/// One more digit makes the value ten times what it was, plus the digit.
pub proof fn digits_are_positional(text: Seq<char>, d: int)
    requires
        0 <= d < 10,
    ensures
        digits_value(Seq::empty()) == 0,
        digits_value(text.push((48 + d) as char)) == 10 * digits_value(text) + d,
{
    assert(text.push((48 + d) as char).drop_last() =~= text);
}

/// The decimal notation of a number consists of digits, has no leading zero, and is read back as
/// the number.
pub proof fn decimal_is_read_back(n: nat)
    ensures
        is_decimal(decimal(n)),
        decimal(n).len() > 0,
        forall|i: int| 0 <= i < decimal(n).len() ==> '0' <= #[trigger] decimal(n)[i] <= '9',
        decimal(n)[0] == '0' ==> n == 0,
        decimal(n).len() == 1 <==> n < 10,
        digits_value(decimal(n)) == n,
    decreases n,
{
    if n < 10 {
        assert(decimal(n).drop_last() =~= Seq::empty());
        assert(digits_value(Seq::empty()) == 0);
    } else {
        decimal_is_read_back(n / 10);
        let text = decimal(n);
        assert(text.drop_last() =~= decimal(n / 10));
        assert(text[0] == decimal(n / 10)[0]);
        assert forall|i: int| 0 <= i < text.len() implies '0' <= #[trigger] text[i] <= '9' by {
            if i < text.len() - 1 {
                assert(text[i] == decimal(n / 10)[i]);
            }
        }
    }
}

/// Two numbers with the same decimal notation are the same.
pub proof fn decimal_determines_number(a: nat, b: nat)
    requires
        decimal(a) == decimal(b),
    ensures
        a == b,
{
    decimal_is_read_back(a);
    decimal_is_read_back(b);
}

/// A byte alone stands in its decimal notation; where two lists are joined, a comma and a space
/// stand between the bytes of the one and those of the other.
pub proof fn lists_are_joined_by_commas(byte: u8, front: Seq<u8>, back: Seq<u8>)
    requires
        front.len() > 0,
        back.len() > 0,
    ensures
        is_decimal(comma_separated(seq![byte])),
        digits_value(comma_separated(seq![byte])) == byte,
        comma_separated(front + back) == comma_separated(front) + ", "@ + comma_separated(back),
        byte_list(front) == "["@ + comma_separated(front) + "]"@,
    decreases back.len(),
{
    decimal_is_read_back(byte as nat);
    let both = front + back;
    if back.len() == 1 {
        assert(both.drop_last() =~= front);
    } else {
        lists_are_joined_by_commas(byte, front, back.drop_last());
        assert(both.drop_last() =~= front + back.drop_last());
        assert(both.last() == back.last());
        assert(comma_separated(both) =~= comma_separated(front) + ", "@ + comma_separated(back));
    }
}

/// The list of any bytes stands in square brackets, and that of none has nothing between them.
pub proof fn lists_stand_in_brackets(bytes: Seq<u8>)
    ensures
        byte_list(bytes) == "["@ + comma_separated(bytes) + "]"@,
        byte_list(Seq::empty()) == "["@ + "]"@,
        bytes.len() == 1 ==> digits_value(comma_separated(bytes)) == bytes[0],
{
    assert(byte_list(Seq::empty()) =~= "["@ + "]"@);
    if bytes.len() == 1 {
        decimal_is_read_back(bytes[0] as nat);
    }
}

} // verus!
