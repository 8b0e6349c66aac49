//! From a bound manifest to the text of its orders.

use crate::document::Document;
use crate::response::{outcome_model, ManifestParseError};
use crate::schema::{texts, Manifest, ManifestModel};
use crate::toy::{rendered, toy_of, Toy, ValidToy};
use vstd::prelude::*;
use vstd::string::*;

verus! {

/// The keyword that a manifest must carry for its orders to be read.
pub open spec fn magic_keyword() -> Seq<char> {
    "Christmas 2024"@
}

/// Whether a keyword list is there and holds the magic keyword, letter for
/// letter.
pub open spec fn has_magic_keyword(keywords: Option<Seq<Seq<char>>>) -> bool {
    match keywords {
        Some(keywords) => keywords.contains(magic_keyword()),
        None => false,
    }
}

/// The records of the orders that convert, in the order of the orders.
pub open spec fn surviving<T: Document>(orders: Seq<T>) -> Seq<Toy> {
    orders.filter_map(|order: T| toy_of(order))
}

/// The records behind a list of canonical orders.
pub open spec fn toy_models(toys: Seq<ValidToy>) -> Seq<Toy> {
    toys.map_values(|toy: ValidToy| toy@)
}

/// One rendered line for each record.
pub open spec fn rendered_lines(toys: Seq<Toy>) -> Seq<Seq<char>> {
    toys.map_values(|toy: Toy| rendered(toy))
}

/// The lines with a single newline between each two neighbours.
pub open spec fn join_lines(lines: Seq<Seq<char>>) -> Seq<char>
    decreases lines.len(),
{
    if lines.len() == 0 {
        Seq::empty()
    } else if lines.len() == 1 {
        lines[0]
    } else {
        join_lines(lines.drop_last()) + seq!['\n'] + lines.last()
    }
}

/// What a bound manifest comes to: the magic keyword is asked for first, then
/// the orders, then at least one order that converts.
pub open spec fn manifest_outcome<T: Document>(manifest: ManifestModel<T>) -> Result<
    Seq<char>,
    ManifestParseError,
> {
    if !has_magic_keyword(manifest.package.keywords) {
        Err(ManifestParseError::MissingMagicKeyword)
    } else {
        match manifest.orders() {
            None => Err(ManifestParseError::MissingOrders),
            Some(orders) => if surviving(orders).len() == 0 {
                Err(ManifestParseError::MissingOrders)
            } else {
                Ok(join_lines(rendered_lines(surviving(orders))))
            },
        }
    }
}

/// Whether a keyword list is there and holds the magic keyword.
pub fn contains_magic_keyword(keywords: &Option<Vec<String>>) -> (found: bool)
    ensures
        found == has_magic_keyword(
            match *keywords {
                Some(keywords) => Some(texts(keywords@)),
                None => None,
            },
        ),
{
    let list = match keywords {
        Some(list) => list,
        None => { return false; },
    };
    let magic = String::from_str("Christmas 2024");
    let mut i: usize = 0;
    while i < list.len()
        invariant
            i <= list.len(),
            *keywords == Some(*list),
            magic@ == magic_keyword(),
            forall|j: int| 0 <= j < i ==> (#[trigger] texts(list@)[j]) != magic_keyword(),
        decreases list.len() - i,
    {
        if list[i] == magic {
            assert(texts(list@)[i as int] == magic_keyword());
            return true;
        }
        i += 1;
    }
    false
}

/// Converts the orders that convert and drops the others, keeping the order.
pub fn convert_orders<T: Document>(orders: &Vec<T>) -> (toys: Vec<ValidToy>)
    ensures
        toy_models(toys@) == surviving(orders@),
{
    let mut toys: Vec<ValidToy> = Vec::new();
    let mut i: usize = 0;
    while i < orders.len()
        invariant
            i <= orders.len(),
            toy_models(toys@) =~= surviving(orders@.take(i as int)),
        decreases orders.len() - i,
    {
        proof {
            orders@.lemma_filter_map_take_succ(|order: T| toy_of(order), i as int);
        }
        match ValidToy::try_from(&orders[i]) {
            Ok(toy) => {
                toys.push(toy);
            },
            Err(_) => {},
        }
        i += 1;
    }
    assert(orders@.take(orders@.len() as int) =~= orders@);
    toys
}

/// Renders each order as a line and joins the lines with newlines.
pub fn render_toys(toys: &Vec<ValidToy>) -> (text: String)
    ensures
        text@ == join_lines(rendered_lines(toy_models(toys@))),
{
    let ghost lines = rendered_lines(toy_models(toys@));
    let mut text = String::new();
    let mut i: usize = 0;
    while i < toys.len()
        invariant
            i <= toys.len(),
            lines == rendered_lines(toy_models(toys@)),
            text@ == join_lines(lines.take(i as int)),
        decreases toys.len() - i,
    {
        proof {
            reveal_strlit("\n");
            assert(lines.take(i + 1).drop_last() =~= lines.take(i as int));
        }
        if i > 0 {
            text.append("\n");
        }
        let line = toys[i].to_string();
        text.append(line.as_str());
        i += 1;
    }
    assert(lines.take(toys@.len() as int) =~= lines);
    text
}

/// Renders the orders of a manifest that carries the magic keyword.
pub fn parse_manifest<T: Document>(manifest: Manifest<T>) -> (r: Result<String, ManifestParseError>)
    ensures
        outcome_model(r) == manifest_outcome(manifest@),
{
    if !contains_magic_keyword(&manifest.package.keywords) {
        return Err(ManifestParseError::MissingMagicKeyword);
    }
    let orders = match manifest.package.metadata {
        Some(metadata) => match metadata.orders {
            Some(orders) => orders,
            None => { return Err(ManifestParseError::MissingOrders); },
        },
        None => { return Err(ManifestParseError::MissingOrders); },
    };
    let toys = convert_orders(&orders);
    if toys.len() == 0 {
        Err(ManifestParseError::MissingOrders)
    } else {
        Ok(render_toys(&toys))
    }
}

} // verus!
