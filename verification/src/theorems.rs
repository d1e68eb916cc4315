use vstd::prelude::*;
use crate::document::{Field, RawDocumentModel, RawRuleModel};
use crate::error::ErrorModel;
use crate::gateway::{
    decode_document, decode_item, decode_rules, encode_document, first_match_index, is_first_fault,
    is_first_match, lemma_first_fault_unique, lemma_first_match_unique, GatewayConfigModel,
};
use crate::loader::load_outcome;
use crate::pattern::{pattern_fault, pattern_is_valid, pattern_matches};
use crate::rule::{
    decode_pattern, decode_optional_header, decode_rule, encode_rule, required_text, rule_matches,
    RequestModel, ServiceConfigModel,
};
use crate::source::parsed_document;

verus! {

/// A decoded rule is valid: its patterns compile, and it names a service and
/// a port.
pub proof fn lemma_decoded_rule_is_valid(raw: RawRuleModel)
    requires
        decode_rule(raw) is Ok,
    ensures
        decode_rule(raw)->Ok_0.is_valid(),
{
}

/// Writing a valid rule down and decoding what was written gives the rule
/// back, with the text of each pattern as it was.
pub proof fn lemma_rule_round_trip(rule: ServiceConfigModel)
    requires
        rule.is_valid(),
    ensures
        decode_rule(encode_rule(rule)) == Ok::<ServiceConfigModel, ErrorModel>(rule),
{
}

/// Among the entries up to `index`, one of which is at fault, there is a
/// first one at fault.
pub proof fn lemma_least_fault(items: Seq<Field<RawRuleModel>>, index: int) -> (k: int)
    requires
        0 <= index < items.len(),
        decode_item(items[index], index) is Err,
    ensures
        is_first_fault(items, k),
        k <= index,
    decreases index,
{
    if exists|j: int| 0 <= j < index && (#[trigger] decode_item(items[j], j)) is Err {
        let j = choose|j: int| 0 <= j < index && (#[trigger] decode_item(items[j], j)) is Err;
        lemma_least_fault(items, j)
    } else {
        index
    }
}

/// A rule list decodes to the error of its first entry at fault.
pub proof fn lemma_first_fault_is_reported(items: Seq<Field<RawRuleModel>>, index: int)
    requires
        is_first_fault(items, index),
    ensures
        decode_rules(items) == Err::<Seq<ServiceConfigModel>, ErrorModel>(
            decode_item(items[index], index)->Err_0,
        ),
{
    let k = choose|k: int| is_first_fault(items, k);
    lemma_first_fault_unique(items, k, index);
}

/// A rule list of which every entry decodes gives the decoded rules, one for
/// each entry and in the same order.
pub proof fn lemma_rules_keep_order(items: Seq<Field<RawRuleModel>>)
    requires
        forall|i: int| 0 <= i < items.len() ==> (#[trigger] decode_item(items[i], i)) is Ok,
    ensures
        decode_rules(items) is Ok,
        decode_rules(items)->Ok_0.len() == items.len(),
        forall|i: int|
            0 <= i < items.len() ==> decode_item(items[i], i) == Ok::<ServiceConfigModel, ErrorModel>(
                #[trigger] decode_rules(items)->Ok_0[i],
            ),
{
    assert forall|k: int| !is_first_fault(items, k) by {
        if 0 <= k < items.len() {
            assert(decode_item(items[k], k) is Ok);
        }
    }
}

/// A single entry at fault fails the whole document: no table is built from
/// the entries before or after it.
pub proof fn lemma_fault_fails_document(raw: RawDocumentModel, index: int)
    requires
        raw.rules is Present,
        0 <= index < raw.rules->Present_0.len(),
        decode_item(raw.rules->Present_0[index], index) is Err,
    ensures
        decode_document(raw) is Err,
{
    let k = lemma_least_fault(raw.rules->Present_0, index);
}

/// A document whose endpoint is given fails with the error of the first
/// entry of its rule list that is at fault.
pub proof fn lemma_first_fault_fails_document(raw: RawDocumentModel, index: int)
    requires
        required_text(raw.authorization_api_url, "authorization_api_url"@) is Ok,
        raw.rules is Present,
        is_first_fault(raw.rules->Present_0, index),
    ensures
        decode_document(raw) == Err::<GatewayConfigModel, ErrorModel>(
            decode_item(raw.rules->Present_0[index], index)->Err_0,
        ),
{
    lemma_first_fault_is_reported(raw.rules->Present_0, index);
}

/// A `host` or `path` that does not compile, in any rule, fails the whole
/// document.
pub proof fn lemma_invalid_pattern_fails_document(raw: RawDocumentModel, index: int, text: Seq<char>)
    requires
        raw.rules is Present,
        0 <= index < raw.rules->Present_0.len(),
        raw.rules->Present_0[index] matches Field::Present(rule) && (rule.host == Field::Present(text)
            || rule.path == Field::Present(text)),
        !pattern_is_valid(text),
    ensures
        decode_document(raw) is Err,
{
    lemma_fault_fails_document(raw, index);
}

/// A `host` that does not compile is reported as an invalid pattern, with
/// the field, the text, the reason and the position of the rule, where
/// nothing before it in the document is at fault.
pub proof fn lemma_invalid_host_is_reported(raw: RawDocumentModel, index: int, text: Seq<char>)
    requires
        required_text(raw.authorization_api_url, "authorization_api_url"@) is Ok,
        raw.rules is Present,
        0 <= index < raw.rules->Present_0.len(),
        forall|j: int| 0 <= j < index ==> (#[trigger] decode_item(raw.rules->Present_0[j], j)) is Ok,
        raw.rules->Present_0[index] matches Field::Present(rule) && rule.host == Field::Present(text),
        !pattern_is_valid(text),
    ensures
        decode_document(raw) == Err::<GatewayConfigModel, ErrorModel>(
            ErrorModel::InvalidPattern {
                field_name: "host"@,
                text,
                reason: pattern_fault(text),
                rule_index: Some(index),
            },
        ),
{
    lemma_first_fault_fails_document(raw, index);
}

/// A `path` that does not compile is reported as an invalid pattern, with
/// the field, the text, the reason and the position of the rule, where
/// nothing before it in the document is at fault.
pub proof fn lemma_invalid_path_is_reported(raw: RawDocumentModel, index: int, text: Seq<char>)
    requires
        required_text(raw.authorization_api_url, "authorization_api_url"@) is Ok,
        raw.rules is Present,
        0 <= index < raw.rules->Present_0.len(),
        forall|j: int| 0 <= j < index ==> (#[trigger] decode_item(raw.rules->Present_0[j], j)) is Ok,
        raw.rules->Present_0[index] matches Field::Present(rule) && decode_pattern(rule.host, "host"@) is Ok
            && rule.path == Field::Present(text),
        !pattern_is_valid(text),
    ensures
        decode_document(raw) == Err::<GatewayConfigModel, ErrorModel>(
            ErrorModel::InvalidPattern {
                field_name: "path"@,
                text,
                reason: pattern_fault(text),
                rule_index: Some(index),
            },
        ),
{
    lemma_first_fault_fails_document(raw, index);
}

/// A rule without a usable `target_port` is reported as missing that field,
/// with the position of the rule, where nothing before it in the document is
/// at fault.
pub proof fn lemma_missing_port_is_reported(raw: RawDocumentModel, index: int)
    requires
        required_text(raw.authorization_api_url, "authorization_api_url"@) is Ok,
        raw.rules is Present,
        0 <= index < raw.rules->Present_0.len(),
        forall|j: int| 0 <= j < index ==> (#[trigger] decode_item(raw.rules->Present_0[j], j)) is Ok,
        raw.rules->Present_0[index] matches Field::Present(rule) && decode_pattern(rule.host, "host"@) is Ok
            && decode_pattern(rule.path, "path"@) is Ok && decode_optional_header(rule.header) is Ok
            && required_text(rule.target_service, "target_service"@) is Ok && required_text(
            rule.target_port,
            "target_port"@,
        ) is Err,
    ensures
        decode_document(raw) == Err::<GatewayConfigModel, ErrorModel>(
            ErrorModel::MissingField { field_name: "target_port"@, rule_index: Some(index) },
        ),
{
    lemma_first_fault_fails_document(raw, index);
}

/// A rule without a usable `target_port`, anywhere in the list, fails the
/// whole document.
pub proof fn lemma_missing_port_fails_document(raw: RawDocumentModel, index: int)
    requires
        raw.rules is Present,
        0 <= index < raw.rules->Present_0.len(),
        raw.rules->Present_0[index] matches Field::Present(rule) && required_text(
            rule.target_port,
            "target_port"@,
        ) is Err,
    ensures
        decode_document(raw) is Err,
{
    lemma_fault_fails_document(raw, index);
}

/// A decoded table is valid: it names the authorization endpoint, and each
/// of its rules is valid.
pub proof fn lemma_decoded_document_is_valid(raw: RawDocumentModel)
    requires
        decode_document(raw) is Ok,
    ensures
        decode_document(raw)->Ok_0.is_valid(),
{
    let items = raw.rules->Present_0;
    let config = decode_document(raw)->Ok_0;
    assert forall|i: int| 0 <= i < config.rules.len() implies (#[trigger] config.rules[i]).is_valid() by {
        if decode_item(items[i], i) is Err {
            let k = lemma_least_fault(items, i);
        }
        lemma_decoded_rule_is_valid(items[i]->Present_0);
    }
}

/// Writing a valid table down and decoding what was written gives the table
/// back: the same endpoint and the same rules in the same order, each with
/// the text of its patterns as it was.
pub proof fn lemma_document_round_trip(config: GatewayConfigModel)
    requires
        config.is_valid(),
    ensures
        decode_document(encode_document(config)) == Ok::<GatewayConfigModel, ErrorModel>(config),
{
    let items = encode_document(config).rules->Present_0;
    assert forall|i: int| 0 <= i < items.len() implies (#[trigger] decode_item(items[i], i)) == Ok::<
        ServiceConfigModel,
        ErrorModel,
    >(config.rules[i]) by {
        assert(config.rules[i].is_valid());
        lemma_rule_round_trip(config.rules[i]);
    }
    lemma_rules_keep_order(items);
    assert(decode_rules(items)->Ok_0 =~= config.rules);
}

/// Loading a document, writing the table down and loading what was written
/// gives the table of the first load.
pub proof fn lemma_reload_gives_same_table(raw: RawDocumentModel)
    requires
        decode_document(raw) is Ok,
    ensures
        decode_document(encode_document(decode_document(raw)->Ok_0)) == decode_document(raw),
{
    lemma_decoded_document_is_valid(raw);
    lemma_document_round_trip(decode_document(raw)->Ok_0);
}

/// Loading a text that writes a loaded table down gives the table of the
/// first load again.
pub proof fn lemma_reload_of_written_text(first: Seq<char>, written: Seq<char>)
    requires
        load_outcome(Ok(first)) is Ok,
        parsed_document(written) == Ok::<RawDocumentModel, ErrorModel>(
            encode_document(load_outcome(Ok(first))->Ok_0),
        ),
    ensures
        load_outcome(Ok(written)) == load_outcome(Ok(first)),
{
    lemma_reload_gives_same_table(parsed_document(first)->Ok_0);
}

/// A rule that sets no constraint matches every request.
pub proof fn lemma_rule_without_constraints_matches_all(rule: ServiceConfigModel, request: RequestModel)
    requires
        rule.host is None,
        rule.path is None,
        rule.header is None,
    ensures
        rule_matches(rule, request),
{
}

/// A rule that sets only a host pattern matches exactly the requests whose
/// host the pattern matches, whatever their path and headers are.
pub proof fn lemma_host_only_rule_goes_by_host(rule: ServiceConfigModel, request: RequestModel)
    requires
        rule.host is Some,
        rule.path is None,
        rule.header is None,
    ensures
        rule_matches(rule, request) == pattern_matches(rule.host->Some_0, request.host),
{
}

/// Among the rules up to `index`, one of which matches, there is a first one
/// that matches.
pub proof fn lemma_least_match(rules: Seq<ServiceConfigModel>, request: RequestModel, index: int) -> (k:
    int)
    requires
        0 <= index < rules.len(),
        rule_matches(rules[index], request),
    ensures
        is_first_match(rules, request, k),
        k <= index,
    decreases index,
{
    if exists|j: int| 0 <= j < index && rule_matches(#[trigger] rules[j], request) {
        let j = choose|j: int| 0 <= j < index && rule_matches(#[trigger] rules[j], request);
        lemma_least_match(rules, request, j)
    } else {
        index
    }
}

/// The first match is a rule of the table that matches the request, and no
/// rule before it does. Where there is none, no rule matches.
pub proof fn lemma_first_match_is_first(rules: Seq<ServiceConfigModel>, request: RequestModel)
    ensures
        match first_match_index(rules, request) {
            Some(k) => is_first_match(rules, request, k),
            None => forall|i: int| 0 <= i < rules.len() ==> !rule_matches(#[trigger] rules[i], request),
        },
{
    if first_match_index(rules, request) is None {
        assert forall|i: int| 0 <= i < rules.len() implies !rule_matches(#[trigger] rules[i], request) by {
            if rule_matches(rules[i], request) {
                let k = lemma_least_match(rules, request, i);
            }
        }
    }
}

/// First match wins: of two rules that both match a request, the one that
/// the table declares later is never the answer, and the answer is found at
/// or before the earlier one.
pub proof fn lemma_first_match_wins(
    rules: Seq<ServiceConfigModel>,
    request: RequestModel,
    earlier: int,
    later: int,
)
    requires
        0 <= earlier < later < rules.len(),
        rule_matches(rules[earlier], request),
        rule_matches(rules[later], request),
    ensures
        first_match_index(rules, request) is Some,
        first_match_index(rules, request)->Some_0 <= earlier,
        first_match_index(rules, request) != Some(later),
{
    let k = lemma_least_match(rules, request, earlier);
    lemma_first_match_is_first(rules, request);
    lemma_first_match_unique(rules, request, k, first_match_index(rules, request)->Some_0);
}

/// In a table of two rules that both match a request, the request falls
/// under the first.
pub proof fn lemma_first_of_two_wins(
    first: ServiceConfigModel,
    second: ServiceConfigModel,
    request: RequestModel,
)
    requires
        rule_matches(first, request),
        rule_matches(second, request),
    ensures
        first_match_index(seq![first, second], request) == Some(0int),
{
    lemma_first_match_wins(seq![first, second], request, 0, 1);
}

} // verus!
