//! What holds of numbers and lists as text.

use vstd::prelude::*;

use crate::text::{
    bracketed,
    byte_list,
    decimal,
    digit,
    joined,
    optional_timestamp,
    signed_decimal,
};

verus! {

/// The number that a run of decimal digits reads as.
pub open spec fn number_read(digits: Seq<char>) -> int
    decreases digits.len(),
{
    if digits.len() == 0 {
        0
    } else {
        10 * number_read(digits.drop_last()) + (digits.last() as int - '0' as int)
    }
}

/// A number in decimal reads as that number. It has digits only, at least one of
/// them, and does not start with a zero unless it is zero.
pub proof fn decimal_reads_as_its_number(n: nat)
    ensures
        number_read(decimal(n)) == n,
        decimal(n).len() > 0,
        forall|i: int| 0 <= i < decimal(n).len() ==> '0' <= #[trigger] decimal(n)[i] <= '9',
        n > 0 ==> decimal(n)[0] != '0',
        n == 0 ==> decimal(n).len() == 1,
    decreases n,
{
    let text = decimal(n);
    if n < 10 {
        assert(text.drop_last() =~= Seq::<char>::empty());
        assert(number_read(text.drop_last()) == 0);
        assert(text.last() == digit(n));
    } else {
        decimal_reads_as_its_number(n / 10);
        let front = decimal(n / 10);
        assert(text == front.push(digit(n % 10)));
        assert(text.drop_last() =~= front);
        assert(text.last() == digit(n % 10));
        assert(text[0] == front[0]);
        assert forall|i: int| 0 <= i < text.len() implies '0' <= #[trigger] text[i] <= '9' by {
            if i < front.len() {
                assert(text[i] == front[i]);
            }
        }
    }
}

/// Two numbers with the same text are the same number.
pub proof fn decimals_tell_numbers_apart(a: nat, b: nat)
    requires
        decimal(a) == decimal(b),
    ensures
        a == b,
{
    decimal_reads_as_its_number(a);
    decimal_reads_as_its_number(b);
}

/// A number that is not negative reads as it stands; a negative one has a minus
/// sign before the digits of its magnitude.
pub proof fn signed_decimal_reads_as_its_number(n: int)
    ensures
        n >= 0 ==> number_read(signed_decimal(n)) == n && signed_decimal(n) == decimal(n as nat),
        n < 0 ==> {
            &&& signed_decimal(n).len() > 1
            &&& signed_decimal(n)[0] == '-'
            &&& number_read(signed_decimal(n).skip(1)) == -n
            &&& signed_decimal(n).skip(1) == decimal((-n) as nat)
        },
{
    if n < 0 {
        reveal_strlit("-");
        decimal_reads_as_its_number((-n) as nat);
        assert(signed_decimal(n).skip(1) =~= decimal((-n) as nat));
    } else {
        decimal_reads_as_its_number(n as nat);
    }
}

/// An optional timestamp shows whether it is there, and its number where it is.
pub proof fn optional_timestamp_shows_its_number(pts: Option<i64>)
    ensures
        match pts {
            Some(value) => optional_timestamp(pts) == "Some("@ + signed_decimal(value as int)
                + ")"@,
            None => optional_timestamp(pts) == "None"@,
        },
{
}

/// No item makes no text, one item makes its own, and one more item adds a comma,
/// a space and the item.
pub proof fn joined_text_grows_by_the_item(items: Seq<Seq<char>>, item: Seq<char>)
    ensures
        joined(Seq::<Seq<char>>::empty()) == Seq::<char>::empty(),
        joined(seq![item]) == item,
        items.len() > 0 ==> joined(items.push(item)) == joined(items) + ", "@ + item,
{
    assert(items.push(item).drop_last() =~= items);
}

/// A list stands in square brackets.
pub proof fn list_stands_in_brackets(items: Seq<Seq<char>>)
    ensures
        bracketed(items) == "["@ + joined(items) + "]"@,
{
}

/// A list of bytes shows each byte as its number, in their order.
pub proof fn byte_list_shows_each_byte(bytes: Seq<u8>)
    ensures
        byte_list(bytes) == bracketed(Seq::new(bytes.len(), |i: int| decimal(bytes[i] as nat))),
{
    assert(bytes.map_values(|b: u8| decimal(b as nat)) =~= Seq::new(
        bytes.len(),
        |i: int| decimal(bytes[i] as nat),
    ));
}

} // verus!
