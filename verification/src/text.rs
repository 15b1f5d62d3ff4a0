//! Numbers and lists as text, in the form that the standard formatter prints.

use vstd::prelude::*;

verus! {

/// The character of a decimal digit.
pub open spec fn digit(d: nat) -> char {
    ('0' as u32 + d) as char
}

/// `n` in decimal, without leading zeros.
pub open spec fn decimal(n: nat) -> Seq<char>
    decreases n,
{
    if n < 10 {
        seq![digit(n)]
    } else {
        decimal(n / 10).push(digit(n % 10))
    }
}

/// `n` in decimal, with a minus sign where it is negative.
pub open spec fn signed_decimal(n: int) -> Seq<char> {
    if n < 0 {
        "-"@ + decimal((-n) as nat)
    } else {
        decimal(n as nat)
    }
}

/// An optional timestamp, as `Some(..)` or `None`.
pub open spec fn optional_timestamp(pts: Option<i64>) -> Seq<char> {
    match pts {
        Some(value) => "Some("@ + signed_decimal(value as int) + ")"@,
        None => "None"@,
    }
}

/// The items in square brackets, with a comma and a space between two of them.
pub open spec fn bracketed(items: Seq<Seq<char>>) -> Seq<char> {
    "["@ + joined(items) + "]"@
}

/// The items one after the other, with a comma and a space between two of them.
pub open spec fn joined(items: Seq<Seq<char>>) -> Seq<char>
    decreases items.len(),
{
    if items.len() == 0 {
        Seq::empty()
    } else if items.len() == 1 {
        items[0]
    } else {
        joined(items.drop_last()) + ", "@ + items.last()
    }
}

/// A list of bytes, as `[1, 2, 3]`.
pub open spec fn byte_list(bytes: Seq<u8>) -> Seq<char> {
    bracketed(bytes.map_values(|b: u8| decimal(b as nat)))
}

fn digit_text(d: u64) -> (text: &'static str)
    requires
        d < 10,
    ensures
        text@ == seq![digit(d as nat)],
{
    proof {
        reveal_strlit("0");
        reveal_strlit("1");
        reveal_strlit("2");
        reveal_strlit("3");
        reveal_strlit("4");
        reveal_strlit("5");
        reveal_strlit("6");
        reveal_strlit("7");
        reveal_strlit("8");
        reveal_strlit("9");
    }
    let text = match d {
        0 => "0",
        1 => "1",
        2 => "2",
        3 => "3",
        4 => "4",
        5 => "5",
        6 => "6",
        7 => "7",
        8 => "8",
        _ => "9",
    };
    assert(text@ =~= seq![digit(d as nat)]);
    text
}

/// `n` in decimal.
pub(crate) fn decimal_text(n: u64) -> (text: String)
    ensures
        text@ == decimal(n as nat),
    decreases n,
{
    if n < 10 {
        digit_text(n).to_owned()
    } else {
        let mut text = decimal_text(n / 10);
        text.append(digit_text(n % 10));
        assert(text@ =~= decimal(n as nat));
        text
    }
}

/// `n` in decimal, with a minus sign where it is negative.
pub(crate) fn signed_decimal_text(n: i64) -> (text: String)
    ensures
        text@ == signed_decimal(n as int),
{
    if n < 0 {
        let magnitude: u64 = if n == i64::MIN {
            0x8000_0000_0000_0000
        } else {
            (-n) as u64
        };
        let mut text = "-".to_owned();
        text.append(decimal_text(magnitude).as_str());
        text
    } else {
        decimal_text(n as u64)
    }
}

/// An optional timestamp, as `Some(..)` or `None`.
pub(crate) fn optional_timestamp_text(pts: Option<i64>) -> (text: String)
    ensures
        text@ == optional_timestamp(pts),
{
    match pts {
        Some(value) => {
            let mut text = "Some(".to_owned();
            text.append(signed_decimal_text(value).as_str());
            text.append(")");
            text
        },
        None => "None".to_owned(),
    }
}

/// The items in square brackets, with a comma and a space between two of them.
pub(crate) fn bracketed_text(items: &Vec<String>) -> (text: String)
    ensures
        text@ == bracketed(items@.map_values(|item: String| item@)),
{
    let ghost model = items@.map_values(|item: String| item@);
    let mut text = "[".to_owned();
    let mut i: usize = 0;
    assert(model.take(0) =~= Seq::empty());
    while i < items.len()
        invariant
            i <= items.len(),
            model == items@.map_values(|item: String| item@),
            text@ =~= "["@ + joined(model.take(i as int)),
        decreases items.len() - i,
    {
        let ghost before = model.take(i as int);
        let ghost after = model.take(i + 1);
        assert(after.drop_last() =~= before);
        assert(after.last() == items@[i as int]@);
        if i > 0 {
            text.append(", ");
        }
        text.append(items[i].as_str());
        i += 1;
    }
    assert(model.take(i as int) =~= model);
    text.append("]");
    text
}

/// A list of bytes, as `[1, 2, 3]`.
pub(crate) fn byte_list_text(bytes: &[u8]) -> (text: String)
    ensures
        text@ == byte_list(bytes@),
{
    let mut items: Vec<String> = Vec::new();
    let mut i: usize = 0;
    while i < bytes.len()
        invariant
            i <= bytes.len(),
            items.len() == i,
            forall|j: int| 0 <= j < i ==> (#[trigger] items@[j])@ == decimal(bytes@[j] as nat),
        decreases bytes.len() - i,
    {
        items.push(decimal_text(bytes[i] as u64));
        i += 1;
    }
    assert(items@.map_values(|item: String| item@) =~= bytes@.map_values(
        |b: u8| decimal(b as nat),
    ));
    bracketed_text(&items)
}

} // verus!
