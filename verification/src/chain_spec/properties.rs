//! The properties of a chain: what its explorers and wallets are told of it.

use vstd::prelude::*;

verus! {

/// `serde_json::Map`, which holds the properties of a chain.
#[verifier::external_type_specification]
#[verifier::external_body]
#[verifier::reject_recursive_types(K)]
#[verifier::reject_recursive_types(V)]
pub struct ExJsonMap<K, V>(serde_json::Map<K, V>);

/// `serde_json::Value`, of which the properties are.
#[verifier::external_type_specification]
#[verifier::external_body]
pub struct ExJsonValue(serde_json::Value);

/// The properties of a chain.
pub type Properties = serde_json::Map<String, serde_json::Value>;

/// A property of a chain.
#[derive(Debug)]
pub enum Property {
    /// A string.
    Text(String),
    /// A natural number.
    Number(u64),
}

/// A property of a chain, as contracts speak of it.
pub enum PropertyView {
    /// A string.
    Text(Seq<char>),
    /// A natural number.
    Number(nat),
    /// Any other JSON value.
    Other,
}

impl View for Property {
    type V = PropertyView;

    open spec fn view(&self) -> PropertyView {
        match self {
            Property::Text(text) => PropertyView::Text(text@),
            Property::Number(number) => PropertyView::Number(*number as nat),
        }
    }
}

/// All that properties hold, each value by its key.
pub uninterp spec fn properties_view(
    properties: serde_json::Map<String, serde_json::Value>,
) -> Map<Seq<char>, PropertyView>;

/// `serde_json::Map::new`: the map is empty.
#[verifier::external_body]
fn no_properties() -> (empty: Properties)
    ensures
        (properties_view(empty) == Map::<Seq<char>, PropertyView>::empty()),
{
    serde_json::Map::new()
}

/// `serde_json::Map::insert`: the key leads to the value from then on, whatever
/// it led to before, and all other keys lead where they led. The value is the
/// JSON string or the JSON number that `serde_json::Value::from` makes of the
/// property.
#[verifier::external_body]
fn insert_property(properties: &mut Properties, key: &str, property: Property)
    ensures
        properties_view(*final(properties)) == properties_view(*old(properties)).insert(
            key@,
            property@,
        ),
{
    let value = match property {
        Property::Text(text) => serde_json::Value::from(text),
        Property::Number(number) => serde_json::Value::from(number),
    };
    properties.insert(String::from(key), value);
}

/// The properties of a chain whose addresses are written with `ss58_format`.
pub open spec fn token_properties(ss58_format: nat) -> Map<Seq<char>, PropertyView> {
    map![
        "tokenSymbol"@ => PropertyView::Text("AMAX"@),
        "tokenDecimals"@ => PropertyView::Number(18),
        "ss58Format"@ => PropertyView::Number(ss58_format),
    ]
}

/// The properties of a chain: its token, and the prefix of its addresses.
pub fn properties(ss58_prefix: u16) -> (properties: Properties)
    ensures
        properties_view(properties) == token_properties(ss58_prefix as nat),
{
    let mut properties = no_properties();
    insert_property(&mut properties, "tokenSymbol", Property::Text("AMAX".to_owned()));
    insert_property(&mut properties, "tokenDecimals", Property::Number(18));
    insert_property(&mut properties, "ss58Format", Property::Number(ss58_prefix as u64));
    assert(properties_view(properties) =~= token_properties(ss58_prefix as nat));
    properties
}

/// The three properties do not overwrite each other, and there are no others.
pub proof fn law_properties_keep_apart(ss58_format: nat)
    ensures
        token_properties(ss58_format).dom() == set!["tokenSymbol"@, "tokenDecimals"@, "ss58Format"@],
        token_properties(ss58_format)["tokenSymbol"@] == PropertyView::Text("AMAX"@),
        token_properties(ss58_format)["tokenDecimals"@] == PropertyView::Number(18),
        token_properties(ss58_format)["ss58Format"@] == PropertyView::Number(ss58_format),
{
    reveal_strlit("tokenSymbol");
    reveal_strlit("tokenDecimals");
    reveal_strlit("ss58Format");
    assert("tokenSymbol"@.len() == 11);
    assert("tokenDecimals"@.len() == 13);
    assert("ss58Format"@.len() == 10);
    assert(token_properties(ss58_format).dom() =~= set![
        "tokenSymbol"@,
        "tokenDecimals"@,
        "ss58Format"@,
    ]);
}

/// The token is told by symbol and decimals, alike for every chain; chains with
/// different prefixes have different properties.
pub proof fn law_prefix_is_all_that_differs(left: nat, right: nat)
    ensures
        token_properties(left) == token_properties(right) <==> left == right,
        token_properties(left).remove("ss58Format"@) == token_properties(right).remove(
            "ss58Format"@,
        ),
{
    law_properties_keep_apart(left);
    law_properties_keep_apart(right);
    assert(token_properties(left).remove("ss58Format"@) =~= token_properties(right).remove(
        "ss58Format"@,
    ));
}

/// A property is told as what it is: a text by its characters, a number by its
/// value.
pub proof fn law_property_is_told_as_it_is(property: Property)
    ensures
        property matches Property::Text(text) ==> property@ == PropertyView::Text(text@),
        property matches Property::Number(number) ==> property@ == PropertyView::Number(
            number as nat,
        ),
{
}

/// The properties that are made tell the prefix they are made for, whatever it
/// is, beside the symbol and the decimals of the token, and nothing else.
pub proof fn law_properties_tell_token_and_prefix(ss58_prefix: u16, made: Properties)
    requires
        call_ensures(properties, (ss58_prefix,), made),
    ensures
        properties_view(made).dom() == set!["tokenSymbol"@, "tokenDecimals"@, "ss58Format"@],
        properties_view(made)["tokenSymbol"@] == PropertyView::Text("AMAX"@),
        properties_view(made)["tokenDecimals"@] == PropertyView::Number(18),
        properties_view(made)["ss58Format"@] == PropertyView::Number(ss58_prefix as nat),
{
    law_properties_keep_apart(ss58_prefix as nat);
}

} // verus!
