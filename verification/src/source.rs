use vstd::prelude::*;
use toml::value::{Table, Value};
use crate::document::{
    Field, RawDocument, RawDocumentModel, RawHeader, RawHeaderModel, RawRule, RawRuleModel,
};
use crate::error::{outcome, ConfigError, ErrorModel};

verus! {

/// `toml::Value`, one value of a parsed document. It is carried as it is:
/// nothing is known of it but what the functions below name.
#[verifier::external_type_specification]
#[verifier::external_body]
pub struct ExValue(toml::Value);

/// `toml::map::Map`, of which `toml::value::Table` is the instance from
/// strings to values: the table of a parsed document.
#[verifier::external_type_specification]
#[verifier::external_body]
#[verifier::reject_recursive_types(K)]
#[verifier::reject_recursive_types(V)]
pub struct ExMap<K, V>(toml::map::Map<K, V>);

/// `toml::de::Error`, the reason why a text was refused as a document.
#[verifier::external_type_specification]
#[verifier::external_body]
pub struct ExSyntaxError(toml::de::Error);

/// What a value of a parsed document holds.
pub enum Content {
    /// A string.
    Text(Seq<char>),
    /// A boolean.
    Flag(bool),
    /// An array, with what its entries hold, in order.
    List(Seq<Content>),
    /// A table, with what it holds under each of its keys.
    Table(Map<Seq<char>, Content>),
    /// A number or a date: kinds that no field of a configuration has.
    Other,
}

/// What a text denotes as a TOML document, read as a table: what the table
/// holds under each key, or the message with which the text is refused. It
/// names what `toml::from_str` returns.
pub uninterp spec fn toml_document(text: Seq<char>) -> Result<Map<Seq<char>, Content>, Seq<char>>;

/// What a `toml::value::Table` holds under each of its keys.
pub uninterp spec fn table_content(table: Table) -> Map<Seq<char>, Content>;

/// What a `toml::Value` holds.
pub uninterp spec fn value_content(value: Value) -> Content;

/// The message of a `toml::de::Error`: what its `to_string` returns.
pub uninterp spec fn syntax_error_text(e: toml::de::Error) -> Seq<char>;

/// What the entries of an array hold, in order.
pub open spec fn contents(items: Seq<Value>) -> Seq<Content> {
    Seq::new(items.len(), |i: int| value_content(items[i]))
}

/// Calls `toml::from_str` for a table. Nothing is claimed of the outcome
/// beyond its name: what a text denotes goes by the text alone.
#[verifier::external_body]
fn parse_table(text: &str) -> (r: Result<Table, toml::de::Error>)
    ensures
        match r {
            Ok(table) => toml_document(text@) == Ok::<Map<Seq<char>, Content>, Seq<char>>(
                table_content(table),
            ),
            Err(e) => toml_document(text@) == Err::<Map<Seq<char>, Content>, Seq<char>>(
                syntax_error_text(e),
            ),
        },
{
    toml::from_str::<Table>(text)
}

/// Renders a `toml::de::Error` through its `Display` impl.
#[verifier::external_body]
fn error_text(e: &toml::de::Error) -> (s: String)
    ensures
        s@ == syntax_error_text(*e),
{
    e.to_string()
}

/// Calls `Map::get`, which hands out the value under a key where the table
/// has the key, and nothing where it has not.
#[verifier::external_body]
fn get<'a>(table: &'a Table, key: &str) -> (r: Option<&'a Value>)
    ensures
        match r {
            Some(value) => table_content(*table).contains_key(key@) && table_content(*table)[key@]
                == value_content(*value),
            None => !table_content(*table).contains_key(key@),
        },
{
    table.get(key)
}

/// Calls `Value::as_str`, which hands out the string of a string value and
/// nothing of any other.
#[verifier::external_body]
fn as_str<'a>(value: &'a Value) -> (r: Option<&'a str>)
    ensures
        match r {
            Some(text) => value_content(*value) == Content::Text(text@),
            None => !(value_content(*value) is Text),
        },
{
    value.as_str()
}

/// Calls `Value::as_bool`, which hands out the boolean of a boolean value and
/// nothing of any other.
#[verifier::external_body]
fn as_bool(value: &Value) -> (r: Option<bool>)
    ensures
        match r {
            Some(flag) => value_content(*value) == Content::Flag(flag),
            None => !(value_content(*value) is Flag),
        },
{
    value.as_bool()
}

/// Calls `Value::as_array`, which hands out the entries of an array value and
/// nothing of any other.
#[verifier::external_body]
fn as_array<'a>(value: &'a Value) -> (r: Option<&'a Vec<Value>>)
    ensures
        match r {
            Some(items) => value_content(*value) == Content::List(contents(items@)),
            None => !(value_content(*value) is List),
        },
{
    value.as_array()
}

/// Calls `Value::as_table`, which hands out the table of a table value and
/// nothing of any other.
#[verifier::external_body]
fn as_table<'a>(value: &'a Value) -> (r: Option<&'a Table>)
    ensures
        match r {
            Some(table) => value_content(*value) == Content::Table(table_content(*table)),
            None => !(value_content(*value) is Table),
        },
{
    value.as_table()
}

/// The string field `key` of a table, as found.
pub open spec fn text_field(table: Map<Seq<char>, Content>, key: Seq<char>) -> Field<Seq<char>> {
    if !table.contains_key(key) {
        Field::Absent
    } else {
        match table[key] {
            Content::Text(text) => Field::Present(text),
            _ => Field::Mistyped,
        }
    }
}

/// The boolean field `key` of a table, as found.
pub open spec fn flag_field(table: Map<Seq<char>, Content>, key: Seq<char>) -> Field<bool> {
    if !table.contains_key(key) {
        Field::Absent
    } else {
        match table[key] {
            Content::Flag(flag) => Field::Present(flag),
            _ => Field::Mistyped,
        }
    }
}

/// The header constraint that a table writes down.
pub open spec fn header_of(table: Map<Seq<char>, Content>) -> RawHeaderModel {
    RawHeaderModel { name: text_field(table, "name"@), value: text_field(table, "value"@) }
}

/// The `header` field of a rule's table, as found.
pub open spec fn header_field(table: Map<Seq<char>, Content>) -> Field<RawHeaderModel> {
    if !table.contains_key("header"@) {
        Field::Absent
    } else {
        match table["header"@] {
            Content::Table(header) => Field::Present(header_of(header)),
            _ => Field::Mistyped,
        }
    }
}

/// The rule that a table writes down. Keys that a rule does not know are
/// passed over.
pub open spec fn rule_of(table: Map<Seq<char>, Content>) -> RawRuleModel {
    RawRuleModel {
        host: text_field(table, "host"@),
        path: text_field(table, "path"@),
        header: header_field(table),
        target_service: text_field(table, "target_service"@),
        target_port: text_field(table, "target_port"@),
        authentication_required: flag_field(table, "authentication_required"@),
    }
}

/// One entry of the rule list, as found: a rule where the entry is a table.
pub open spec fn rule_item(entry: Content) -> Field<RawRuleModel> {
    match entry {
        Content::Table(table) => Field::Present(rule_of(table)),
        _ => Field::Mistyped,
    }
}

/// The `rules` field of a document's table, as found: its entries in order.
pub open spec fn rules_field(table: Map<Seq<char>, Content>) -> Field<Seq<Field<RawRuleModel>>> {
    if !table.contains_key("rules"@) {
        Field::Absent
    } else {
        match table["rules"@] {
            Content::List(entries) => Field::Present(
                Seq::new(entries.len(), |i: int| rule_item(entries[i])),
            ),
            _ => Field::Mistyped,
        }
    }
}

/// The document that a table writes down. Keys that the configuration does
/// not know are passed over.
pub open spec fn document_of(table: Map<Seq<char>, Content>) -> RawDocumentModel {
    RawDocumentModel {
        authorization_api_url: text_field(table, "authorization_api_url"@),
        rules: rules_field(table),
    }
}

/// What a text holds as a document: the document of its table, or a syntax
/// error with the parser's message.
pub open spec fn parsed_document(contents: Seq<char>) -> Result<RawDocumentModel, ErrorModel> {
    match toml_document(contents) {
        Ok(table) => Ok(document_of(table)),
        Err(reason) => Err(ErrorModel::Syntax { reason }),
    }
}

fn read_text(table: &Table, key: &str) -> (field: Field<String>)
    ensures
        field.deep_view() == text_field(table_content(*table), key@),
{
    match get(table, key) {
        None => Field::Absent,
        Some(value) => match as_str(value) {
            Some(text) => Field::Present(text.to_owned()),
            None => Field::Mistyped,
        },
    }
}

fn read_flag(table: &Table, key: &str) -> (field: Field<bool>)
    ensures
        field.deep_view() == flag_field(table_content(*table), key@),
{
    match get(table, key) {
        None => Field::Absent,
        Some(value) => match as_bool(value) {
            Some(flag) => Field::Present(flag),
            None => Field::Mistyped,
        },
    }
}

fn read_header(table: &Table) -> (field: Field<RawHeader>)
    ensures
        field.deep_view() == header_field(table_content(*table)),
{
    match get(table, "header") {
        None => Field::Absent,
        Some(value) => match as_table(value) {
            Some(header) => Field::Present(
                RawHeader { name: read_text(header, "name"), value: read_text(header, "value") },
            ),
            None => Field::Mistyped,
        },
    }
}

fn read_rule(table: &Table) -> (rule: RawRule)
    ensures
        rule@ == rule_of(table_content(*table)),
{
    RawRule {
        host: read_text(table, "host"),
        path: read_text(table, "path"),
        header: read_header(table),
        target_service: read_text(table, "target_service"),
        target_port: read_text(table, "target_port"),
        authentication_required: read_flag(table, "authentication_required"),
    }
}

fn read_rules(table: &Table) -> (field: Field<Vec<Field<RawRule>>>)
    ensures
        field.deep_view() == rules_field(table_content(*table)),
{
    match get(table, "rules") {
        None => Field::Absent,
        Some(value) => match as_array(value) {
            Some(items) => {
                let mut rules: Vec<Field<RawRule>> = Vec::new();
                let mut i: usize = 0;
                while i < items.len()
                    invariant
                        i <= items.len(),
                        rules.len() == i,
                        forall|j: int|
                            0 <= j < i ==> (#[trigger] rules[j]).deep_view() == rule_item(
                                value_content(items[j]),
                            ),
                    decreases items.len() - i,
                {
                    let item = match as_table(&items[i]) {
                        Some(rule) => Field::Present(read_rule(rule)),
                        None => Field::Mistyped,
                    };
                    rules.push(item);
                    i += 1;
                }
                assert(rules.deep_view() =~= Seq::new(
                    contents(items@).len(),
                    |i: int| rule_item(contents(items@)[i]),
                ));
                Field::Present(rules)
            },
            None => Field::Mistyped,
        },
    }
}

/// Reads the fields of a configuration off a parsed table. Nothing is
/// validated here: each field is reported as it was found.
fn read_document(table: &Table) -> (document: RawDocument)
    ensures
        document@ == document_of(table_content(*table)),
{
    RawDocument {
        authorization_api_url: read_text(table, "authorization_api_url"),
        rules: read_rules(table),
    }
}

/// Parses a text into the document that it writes down.
///
/// Fails with a syntax error, which carries the parser's message, exactly
/// where the text is not well formed.
pub fn parse_document(contents: &str) -> (r: Result<RawDocument, ConfigError>)
    ensures
        outcome(r) == parsed_document(contents@),
{
    match parse_table(contents) {
        Ok(table) => Ok(read_document(&table)),
        Err(e) => Err(ConfigError::Syntax { reason: error_text(&e) }),
    }
}

} // verus!
