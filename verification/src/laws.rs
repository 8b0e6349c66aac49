//! What holds of every manifest and every request.

use crate::conformance::conforms;
use crate::document::Document;
use crate::endpoint::{document_outcome, format_of, request_outcome, Format};
use crate::pipeline::{
    has_magic_keyword,
    join_lines,
    manifest_outcome,
    rendered_lines,
    surviving,
};
use crate::response::{reply_to, ManifestParseError, Reply};
use crate::schema::{bound_manifest, ManifestModel, MetadataModel, PackageModel};
use crate::toy::{toy_of, Toy};
use vstd::prelude::*;

verus! {

/// Whether two lists of orders, of the same or of different formats, read
/// alike: they are equally long, and orders in the same place convert to the
/// same record or both fail to convert.
pub open spec fn same_orders<A: Document, B: Document>(a: Option<Seq<A>>, b: Option<Seq<B>>) -> bool {
    match (a, b) {
        (None, None) => true,
        (Some(a), Some(b)) => a.len() == b.len() && forall|i: int|
            0 <= i < a.len() ==> toy_of(#[trigger] a[i]) == toy_of(b[i]),
        _ => false,
    }
}

/// Whether a body, read as a document of type `T`, parses, conforms and
/// binds to the given manifest.
pub open spec fn reads_as<T: Document>(body: Seq<char>, manifest: ManifestModel<T>) -> bool {
    &&& T::parsed(body) matches Some(document)
    &&& document.normalized(body) matches Some(text)
    &&& conforms(text)
    &&& bound_manifest(document) == Some(manifest)
}

/// The orders that convert are the same for two lists that read alike.
pub proof fn lemma_surviving_agrees<A: Document, B: Document>(a: Seq<A>, b: Seq<B>)
    requires
        same_orders(Some(a), Some(b)),
    ensures
        surviving(a) == surviving(b),
    decreases a.len(),
{
    if a.len() > 0 {
        lemma_surviving_agrees(a.drop_last(), b.drop_last());
    }
}

/// The orders that convert, out of two lists one after the other, are those
/// of the first followed by those of the second: converting keeps the order.
pub proof fn lemma_surviving_concat<T: Document>(a: Seq<T>, b: Seq<T>)
    ensures
        surviving(a + b) == surviving(a) + surviving(b),
    decreases b.len(),
{
    if b.len() == 0 {
        assert(a + b =~= a);
    } else {
        assert((a + b).drop_last() =~= a + b.drop_last());
        lemma_surviving_concat(a, b.drop_last());
    }
}

/// A single order contributes its record where it converts, and nothing
/// where it does not.
pub proof fn lemma_surviving_single<T: Document>(order: T)
    ensures
        surviving(seq![order]) == match toy_of(order) {
            Some(toy) => seq![toy],
            None => Seq::<Toy>::empty(),
        },
{
    Seq::lemma_filter_map_singleton(order, |order: T| toy_of(order));
}

/// Documents of any two formats that parse, conform and bind to manifests
/// with the same keywords and with orders that read alike come to the same
/// outcome, and so to the same rendered text.
pub proof fn lemma_formats_agree<A: Document, B: Document>(
    body_a: Seq<char>,
    manifest_a: ManifestModel<A>,
    body_b: Seq<char>,
    manifest_b: ManifestModel<B>,
)
    requires
        reads_as(body_a, manifest_a),
        reads_as(body_b, manifest_b),
        manifest_a.package.keywords == manifest_b.package.keywords,
        same_orders(manifest_a.orders(), manifest_b.orders()),
    ensures
        document_outcome::<A>(body_a) == document_outcome::<B>(body_b),
{
    if manifest_a.orders() is Some {
        lemma_surviving_agrees(manifest_a.orders()->0, manifest_b.orders()->0);
    }
}

/// One manifest written in TOML, in YAML and in JSON, with the same keywords
/// and with orders that read alike, gets the same reply under each of the
/// three content types.
pub proof fn lemma_cross_format_equivalence(
    toml_body: Seq<char>,
    toml_manifest: ManifestModel<toml::Value>,
    yaml_body: Seq<char>,
    yaml_manifest: ManifestModel<serde_yaml::Value>,
    json_body: Seq<char>,
    json_manifest: ManifestModel<serde_json::Value>,
)
    requires
        reads_as(toml_body, toml_manifest),
        reads_as(yaml_body, yaml_manifest),
        reads_as(json_body, json_manifest),
        toml_manifest.package.keywords == yaml_manifest.package.keywords,
        toml_manifest.package.keywords == json_manifest.package.keywords,
        same_orders(toml_manifest.orders(), yaml_manifest.orders()),
        same_orders(toml_manifest.orders(), json_manifest.orders()),
    ensures
        reply_to(request_outcome(Some("application/toml"@), toml_body)) == reply_to(
            request_outcome(Some("application/yaml"@), yaml_body),
        ),
        reply_to(request_outcome(Some("application/toml"@), toml_body)) == reply_to(
            request_outcome(Some("application/json"@), json_body),
        ),
{
    lemma_content_types();
    lemma_formats_agree(toml_body, toml_manifest, yaml_body, yaml_manifest);
    lemma_formats_agree(toml_body, toml_manifest, json_body, json_manifest);
}

/// Each of the three content types names its own format.
pub proof fn lemma_content_types()
    ensures
        format_of("application/toml"@) == Some(Format::Toml),
        format_of("application/yaml"@) == Some(Format::Yaml),
        format_of("application/json"@) == Some(Format::Json),
{
    reveal_strlit("application/toml");
    reveal_strlit("application/yaml");
    reveal_strlit("application/json");
    assert("application/toml"@[12] != "application/yaml"@[12]);
    assert("application/toml"@[12] != "application/json"@[12]);
    assert("application/yaml"@[12] != "application/json"@[12]);
}

/// The reply to a request depends on nothing but its content type and its
/// body: two requests that agree in both are owed the same reply. With the
/// contract of `manifest`, which equates each response with that reply, the
/// same request answered twice gets the same response twice.
pub proof fn lemma_same_request_same_reply(
    content_type_a: Option<Seq<char>>,
    body_a: Seq<char>,
    content_type_b: Option<Seq<char>>,
    body_b: Seq<char>,
)
    requires
        content_type_a == content_type_b,
        body_a == body_b,
    ensures
        reply_to(request_outcome(content_type_a, body_a)) == reply_to(
            request_outcome(content_type_b, body_b),
        ),
{
}

/// A manifest without the magic keyword, be the keyword list absent or not,
/// is answered with 400 and the message that the keyword was not provided,
/// whatever its orders are.
pub proof fn lemma_magic_keyword_gates<T: Document>(manifest: ManifestModel<T>)
    requires
        !has_magic_keyword(manifest.package.keywords),
    ensures
        manifest_outcome(manifest) == Err::<Seq<char>, ManifestParseError>(
            ManifestParseError::MissingMagicKeyword,
        ),
        reply_to(manifest_outcome(manifest)) == (Reply {
            status: 400,
            body: "Magic keyword not provided"@,
        }),
{
}

/// In every format, a value that is no table does not convert: it has no
/// `item` and no `quantity`. In a list of orders it is dropped like any other
/// order that does not convert.
pub proof fn lemma_only_tables_convert<T: Document>(order: T)
    requires
        !(order.shape() is Table),
    ensures
        toy_of(order) is None,
{
}

/// Where at least one order converts, the answer is 200, and its body is the
/// lines of exactly the orders that convert, in their order.
pub proof fn lemma_convertible_orders_are_rendered<T: Document>(
    manifest: ManifestModel<T>,
    orders: Seq<T>,
    i: int,
)
    requires
        has_magic_keyword(manifest.package.keywords),
        manifest.orders() == Some(orders),
        0 <= i < orders.len(),
        toy_of(orders[i]) is Some,
    ensures
        reply_to(manifest_outcome(manifest)) == (Reply {
            status: 200,
            body: join_lines(rendered_lines(surviving(orders))),
        }),
{
    let before = orders.take(i);
    let after = orders.skip(i + 1);
    assert(orders =~= before + seq![orders[i]] + after);
    lemma_surviving_concat(before + seq![orders[i]], after);
    lemma_surviving_concat(before, seq![orders[i]]);
    lemma_surviving_single(orders[i]);
}

/// An order that does not convert changes nothing: the outcome is the same
/// with it and without it.
pub proof fn lemma_unconvertible_order_is_dropped<T: Document>(
    package: PackageModel<T>,
    before: Seq<T>,
    order: T,
    after: Seq<T>,
)
    requires
        toy_of(order) is None,
    ensures
        manifest_outcome(
            ManifestModel {
                package: PackageModel {
                    metadata: Some(MetadataModel { orders: Some(before + seq![order] + after) }),
                    ..package
                },
            },
        ) == manifest_outcome(
            ManifestModel {
                package: PackageModel {
                    metadata: Some(MetadataModel { orders: Some(before + after) }),
                    ..package
                },
            },
        ),
{
    lemma_surviving_concat(before + seq![order], after);
    lemma_surviving_concat(before, seq![order]);
    lemma_surviving_single(order);
    lemma_surviving_concat(before, after);
}

/// Orders of which none converts, an empty list among them, are answered as
/// absent orders are: with 204 and an empty body.
pub proof fn lemma_no_convertible_order_is_no_order<T: Document>(
    package: PackageModel<T>,
    orders: Seq<T>,
)
    requires
        has_magic_keyword(package.keywords),
        forall|i: int| 0 <= i < orders.len() ==> toy_of(#[trigger] orders[i]) is None,
    ensures
        manifest_outcome(
            ManifestModel {
                package: PackageModel {
                    metadata: Some(MetadataModel { orders: Some(orders) }),
                    ..package
                },
            },
        ) == manifest_outcome(ManifestModel { package: PackageModel { metadata: None, ..package } }),
        reply_to(
            manifest_outcome(
                ManifestModel {
                    package: PackageModel {
                        metadata: Some(MetadataModel { orders: Some(orders) }),
                        ..package
                    },
                },
            ),
        ) == (Reply { status: 204, body: Seq::empty() }),
{
    lemma_none_survives(orders);
}

/// Where no order converts, none survives.
pub proof fn lemma_none_survives<T: Document>(orders: Seq<T>)
    requires
        forall|i: int| 0 <= i < orders.len() ==> toy_of(#[trigger] orders[i]) is None,
    ensures
        surviving(orders).len() == 0,
    decreases orders.len(),
{
    if orders.len() > 0 {
        lemma_none_survives(orders.drop_last());
    }
}

} // verus!
