//! The canonical order record and its textual form.

use crate::document::{Document, Node};
use vstd::prelude::*;
use vstd::string::*;

verus! {

/// One order in canonical form.
#[derive(Debug)]
pub struct ValidToy {
    pub item: String,
    pub quantity: u32,
}

/// What a `ValidToy` stands for in specifications.
pub struct Toy {
    pub item: Seq<char>,
    pub quantity: u32,
}

impl View for ValidToy {
    type V = Toy;

    open spec fn view(&self) -> Toy {
        Toy { item: self.item@, quantity: self.quantity }
    }
}

/// The character for a single decimal digit.
pub open spec fn digit(d: int) -> char {
    if d == 0 {
        '0'
    } else if d == 1 {
        '1'
    } else if d == 2 {
        '2'
    } else if d == 3 {
        '3'
    } else if d == 4 {
        '4'
    } else if d == 5 {
        '5'
    } else if d == 6 {
        '6'
    } else if d == 7 {
        '7'
    } else if d == 8 {
        '8'
    } else {
        '9'
    }
}

/// The decimal numeral of `n`, most significant digit first, without
/// leading zeros.
pub open spec fn decimal(n: nat) -> Seq<char>
    decreases n,
{
    if n < 10 {
        seq![digit(n as int)]
    } else {
        decimal(n / 10).push(digit((n % 10) as int))
    }
}

/// A 64-bit signed quantity reduced modulo 2^32.
pub open spec fn wrapped_quantity(quantity: i64) -> u32 {
    (quantity as int % 0x1_0000_0000) as u32
}

/// The line that an order is rendered as: the item, a colon and a space,
/// and the quantity in decimal.
pub open spec fn rendered(toy: Toy) -> Seq<char> {
    toy.item + seq![':', ' '] + decimal(toy.quantity as nat)
}

/// The record that the two fields of an order convert to: both must be
/// there, and the quantity is reduced to 32 bits.
pub open spec fn toy_from_fields(item: Option<Seq<char>>, quantity: Option<i64>) -> Option<Toy> {
    match (item, quantity) {
        (Some(item), Some(quantity)) => Some(Toy { item, quantity: wrapped_quantity(quantity) }),
        _ => None,
    }
}

/// Why two fields do not convert: the item is named first.
pub open spec fn conversion_error(item: Option<Seq<char>>, quantity: Option<i64>) -> Seq<char> {
    if item is None {
        "Invalid item"@
    } else {
        "Invalid quantity"@
    }
}

/// The `item` of an order: the member of that name, where it is a string.
pub open spec fn item_of<T: Document>(order: T) -> Option<Seq<char>> {
    match order.shape().member("item"@) {
        Some(value) => match value.shape() {
            Node::Text(text) => Some(text),
            _ => None,
        },
        None => None,
    }
}

/// The `quantity` of an order: the member of that name, where it is an
/// integer.
pub open spec fn quantity_of<T: Document>(order: T) -> Option<i64> {
    match order.shape().member("quantity"@) {
        Some(value) => match value.shape() {
            Node::Integer(number) => Some(number),
            _ => None,
        },
        None => None,
    }
}

/// The record that a raw order converts to, if it converts.
pub open spec fn toy_of<T: Document>(order: T) -> Option<Toy> {
    toy_from_fields(item_of(order), quantity_of(order))
}

/// The text behind an optional string slice.
pub open spec fn text_model(text: Option<&str>) -> Option<Seq<char>> {
    match text {
        Some(text) => Some(text@),
        None => None,
    }
}

fn digit_str(d: u32) -> (s: &'static str)
    requires
        d < 10,
    ensures
        s@ == seq![digit(d as int)],
{
    proof {
        reveal_strlit("0");
        reveal_strlit("1");
        reveal_strlit("2");
        reveal_strlit("3");
        reveal_strlit("4");
        reveal_strlit("5");
        reveal_strlit("6");
        reveal_strlit("7");
        reveal_strlit("8");
        reveal_strlit("9");
    }
    let s = match d {
        0 => "0",
        1 => "1",
        2 => "2",
        3 => "3",
        4 => "4",
        5 => "5",
        6 => "6",
        7 => "7",
        8 => "8",
        _ => "9",
    };
    s
}

/// Appends the decimal numeral of `n` to `out`.
pub fn push_decimal(out: &mut String, n: u32)
    ensures
        final(out)@ == old(out)@ + decimal(n as nat),
    decreases n,
{
    if n >= 10 {
        push_decimal(out, n / 10);
    }
    out.append(digit_str(n % 10));
}

/// Reduces a 64-bit signed quantity to 32 bits, keeping the low bits.
pub fn wrap_quantity(quantity: i64) -> (r: u32)
    ensures
        r == wrapped_quantity(quantity),
{
    let r = #[verifier::truncate] (quantity as u32);
    assert(quantity as u32 == (quantity as int % 0x1_0000_0000) as u32) by (bit_vector);
    r
}

impl ValidToy {
    /// Builds the record from the two fields as they were read from an order.
    pub fn from_fields(item: Option<&str>, quantity: Option<i64>) -> (r: Result<ValidToy, String>)
        ensures
            match r {
                Ok(toy) => toy_from_fields(text_model(item), quantity) == Some(toy@),
                Err(error) => toy_from_fields(text_model(item), quantity) is None && error@
                    == conversion_error(text_model(item), quantity),
            },
    {
        let item = match item {
            Some(item) => item,
            None => { return Err(String::from_str("Invalid item")); },
        };
        let quantity = match quantity {
            Some(quantity) => quantity,
            None => { return Err(String::from_str("Invalid quantity")); },
        };
        Ok(ValidToy { item: String::from_str(item), quantity: wrap_quantity(quantity) })
    }

    /// Converts a raw order: its `item` must be a string and its `quantity`
    /// an integer.
    pub fn try_from<T: Document>(value: &T) -> (r: Result<ValidToy, String>)
        ensures
            match r {
                Ok(toy) => toy_of(*value) == Some(toy@),
                Err(error) => toy_of(*value) is None && error@ == conversion_error(
                    item_of(*value),
                    quantity_of(*value),
                ),
            },
    {
        let item = match value.get("item") {
            Some(item) => item.as_text(),
            None => None,
        };
        let quantity = match value.get("quantity") {
            Some(quantity) => quantity.as_integer(),
            None => None,
        };
        ValidToy::from_fields(item, quantity)
    }

    /// The order as one line of text.
    pub fn to_string(&self) -> (line: String)
        ensures
            line@ == rendered(self@),
    {
        let mut line = String::new();
        line.append(self.item.as_str());
        proof {
            reveal_strlit(": ");
        }
        line.append(": ");
        push_decimal(&mut line, self.quantity);
        line
    }
}

} // verus!
