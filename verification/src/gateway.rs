use vstd::prelude::*;
use crate::document::{Field, RawDocument, RawDocumentModel, RawRule, RawRuleModel};
use crate::error::{index_model, outcome, ConfigError, ErrorModel};
use crate::theorems::lemma_decoded_document_is_valid;
use crate::rule::{
    decode_rule, encode_rule, parse_required_text, required_text, rule_matches, Request, RequestModel,
    ServiceConfig, ServiceConfigModel,
};

verus! {

/// The routing table of a gateway: where authorization is asked for, and the
/// rules in the order in which they are tried.
///
/// The order is the operator's priority: it is kept exactly as the document
/// has it. Nothing here changes a table once it is built; a reload builds a
/// new one.
#[derive(Debug, Clone)]
pub struct GatewayConfig {
    pub authorization_api_url: String,
    pub rules: Vec<ServiceConfig>,
}

/// The mathematical model of a [`GatewayConfig`].
pub struct GatewayConfigModel {
    pub authorization_api_url: Seq<char>,
    pub rules: Seq<ServiceConfigModel>,
}

impl GatewayConfigModel {
    /// What holds of every decoded table: it names the authorization
    /// endpoint, and each of its rules is valid.
    pub open spec fn is_valid(self) -> bool {
        &&& self.authorization_api_url.len() > 0
        &&& forall|i: int| 0 <= i < self.rules.len() ==> (#[trigger] self.rules[i]).is_valid()
    }
}

impl View for GatewayConfig {
    type V = GatewayConfigModel;

    open spec fn view(&self) -> GatewayConfigModel {
        GatewayConfigModel {
            authorization_api_url: self.authorization_api_url@,
            rules: self.rules.deep_view(),
        }
    }
}

impl DeepView for GatewayConfig {
    type V = GatewayConfigModel;

    open spec fn deep_view(&self) -> GatewayConfigModel {
        self@
    }
}

/// The error for an entry of the rule list that is no rule at all.
pub open spec fn not_a_rule(index: int) -> ErrorModel {
    ErrorModel::MissingField { field_name: "rules"@, rule_index: Some(index) }
}

/// What the entry at `index` of the rule list decodes to. An error carries
/// the index.
pub open spec fn decode_item(item: Field<RawRuleModel>, index: int) -> Result<
    ServiceConfigModel,
    ErrorModel,
> {
    match item {
        Field::Present(raw) => match decode_rule(raw) {
            Ok(rule) => Ok(rule),
            Err(e) => Err(e.at_rule(index)),
        },
        _ => Err(not_a_rule(index)),
    }
}

/// Whether `index` is the first entry of the list that does not decode.
pub open spec fn is_first_fault(items: Seq<Field<RawRuleModel>>, index: int) -> bool {
    &&& 0 <= index < items.len()
    &&& decode_item(items[index], index) is Err
    &&& forall|j: int| 0 <= j < index ==> (#[trigger] decode_item(items[j], j)) is Ok
}

/// What a written rule list decodes to: the rules in the same order where
/// every entry decodes, and otherwise the error of the first entry that does
/// not.
pub open spec fn decode_rules(items: Seq<Field<RawRuleModel>>) -> Result<
    Seq<ServiceConfigModel>,
    ErrorModel,
> {
    if exists|k: int| is_first_fault(items, k) {
        let k = choose|k: int| is_first_fault(items, k);
        Err(decode_item(items[k], k)->Err_0)
    } else {
        Ok(Seq::new(items.len(), |i: int| decode_item(items[i], i)->Ok_0))
    }
}

/// What a written document decodes to. The authorization endpoint is looked
/// at first, then the rule list, which must be given and may be empty.
pub open spec fn decode_document(raw: RawDocumentModel) -> Result<GatewayConfigModel, ErrorModel> {
    let url = required_text(raw.authorization_api_url, "authorization_api_url"@);
    let rules = match raw.rules {
        Field::Present(items) => decode_rules(items),
        _ => Err(ErrorModel::missing("rules"@)),
    };
    if url is Err {
        Err(url->Err_0)
    } else if rules is Err {
        Err(rules->Err_0)
    } else {
        Ok(GatewayConfigModel { authorization_api_url: url->Ok_0, rules: rules->Ok_0 })
    }
}

/// How a table is written in a document.
pub open spec fn encode_document(config: GatewayConfigModel) -> RawDocumentModel {
    RawDocumentModel {
        authorization_api_url: Field::Present(config.authorization_api_url),
        rules: Field::Present(
            Seq::new(config.rules.len(), |i: int| Field::Present(encode_rule(config.rules[i]))),
        ),
    }
}

/// Whether `index` is the first rule that matches the request.
pub open spec fn is_first_match(rules: Seq<ServiceConfigModel>, request: RequestModel, index: int) -> bool {
    &&& 0 <= index < rules.len()
    &&& rule_matches(rules[index], request)
    &&& forall|j: int| 0 <= j < index ==> !rule_matches(#[trigger] rules[j], request)
}

/// The position of the rule that a request falls under: the first one that
/// matches it, if any does.
pub open spec fn first_match_index(rules: Seq<ServiceConfigModel>, request: RequestModel) -> Option<int> {
    if exists|k: int| is_first_match(rules, request, k) {
        Some(choose|k: int| is_first_match(rules, request, k))
    } else {
        None
    }
}

/// There is at most one first fault.
pub proof fn lemma_first_fault_unique(items: Seq<Field<RawRuleModel>>, a: int, b: int)
    requires
        is_first_fault(items, a),
        is_first_fault(items, b),
    ensures
        a == b,
{
    if a < b {
        assert(decode_item(items[a], a) is Ok);
    } else if b < a {
        assert(decode_item(items[b], b) is Ok);
    }
}

/// There is at most one first match.
pub proof fn lemma_first_match_unique(
    rules: Seq<ServiceConfigModel>,
    request: RequestModel,
    a: int,
    b: int,
)
    requires
        is_first_match(rules, request, a),
        is_first_match(rules, request, b),
    ensures
        a == b,
{
    if a < b {
        assert(!rule_matches(rules[a], request));
    } else if b < a {
        assert(!rule_matches(rules[b], request));
    }
}

/// Decodes the entry at `index` of the rule list.
pub fn parse_item(item: &Field<RawRule>, index: usize) -> (r: Result<ServiceConfig, ConfigError>)
    ensures
        outcome(r) == decode_item(item.deep_view(), index as int),
{
    match item {
        Field::Present(raw) => match ServiceConfig::parse(raw) {
            Ok(rule) => Ok(rule),
            Err(e) => Err(e.at_rule(index)),
        },
        _ => Err(ConfigError::MissingField { field_name: "rules".to_owned(), rule_index: Some(index) }),
    }
}

/// Decodes a rule list, in order, and stops at the first entry at fault.
pub fn parse_rules(items: &Vec<Field<RawRule>>) -> (r: Result<Vec<ServiceConfig>, ConfigError>)
    ensures
        outcome(r) == decode_rules(items.deep_view()),
{
    let ghost model = items.deep_view();
    let mut rules: Vec<ServiceConfig> = Vec::new();
    let mut i: usize = 0;
    while i < items.len()
        invariant
            i <= items.len(),
            model == items.deep_view(),
            rules.len() == i,
            forall|j: int| 0 <= j < i ==> (#[trigger] decode_item(model[j], j)) == Ok::<
                ServiceConfigModel,
                ErrorModel,
            >(rules[j]@),
        decreases items.len() - i,
    {
        match parse_item(&items[i], i) {
            Ok(rule) => {
                rules.push(rule);
            },
            Err(e) => {
                proof {
                    assert(is_first_fault(model, i as int));
                    let k = choose|k: int| is_first_fault(model, k);
                    lemma_first_fault_unique(model, k, i as int);
                }
                return Err(e);
            },
        }
        i += 1;
    }
    proof {
        assert forall|k: int| !is_first_fault(model, k) by {
            if 0 <= k < model.len() {
                assert(decode_item(model[k], k) is Ok);
            }
        }
        assert(rules.deep_view() =~= Seq::new(model.len(), |i: int| decode_item(model[i], i)->Ok_0));
    }
    Ok(rules)
}

impl GatewayConfig {
    /// Decodes a written document into a validated table.
    ///
    /// Fails with the first fault, and then gives no table at all: a single
    /// invalid rule invalidates the whole document.
    pub fn parse(raw: &RawDocument) -> (r: Result<GatewayConfig, ConfigError>)
        ensures
            outcome(r) == decode_document(raw@),
            r matches Ok(config) ==> config@.is_valid(),
    {
        proof {
            if decode_document(raw@) is Ok {
                lemma_decoded_document_is_valid(raw@);
            }
        }
        let authorization_api_url = match parse_required_text(
            &raw.authorization_api_url,
            "authorization_api_url",
        ) {
            Ok(text) => text,
            Err(e) => { return Err(e); },
        };
        let rules = match &raw.rules {
            Field::Present(items) => match parse_rules(items) {
                Ok(rules) => rules,
                Err(e) => { return Err(e); },
            },
            _ => { return Err(ConfigError::missing("rules")); },
        };
        Ok(GatewayConfig { authorization_api_url, rules })
    }

    /// The position of the first rule, in the order of the table, that
    /// matches `request`; `None` where no rule does.
    pub fn first_match_index(&self, request: &Request) -> (r: Option<usize>)
        ensures
            index_model(r) == first_match_index(self@.rules, request@),
    {
        let ghost rules = self@.rules;
        let mut i: usize = 0;
        while i < self.rules.len()
            invariant
                i <= self.rules.len(),
                rules == self@.rules,
                forall|j: int| 0 <= j < i ==> !rule_matches(#[trigger] rules[j], request@),
            decreases self.rules.len() - i,
        {
            if self.rules[i].matches(request) {
                proof {
                    assert(is_first_match(rules, request@, i as int));
                    let k = choose|k: int| is_first_match(rules, request@, k);
                    lemma_first_match_unique(rules, request@, k, i as int);
                }
                return Some(i);
            }
            i += 1;
        }
        proof {
            assert forall|k: int| !is_first_match(rules, request@, k) by {
                if 0 <= k < rules.len() {
                    assert(!rule_matches(rules[k], request@));
                }
            }
        }
        None
    }

    /// The rule that `request` falls under: the first one, in the order of
    /// the table, that matches it; `None` where no rule does.
    pub fn first_match(&self, request: &Request) -> (r: Option<&ServiceConfig>)
        ensures
            match first_match_index(self@.rules, request@) {
                Some(k) => r == Some(&self.rules[k]),
                None => r is None,
            },
    {
        match self.first_match_index(request) {
            Some(i) => Some(&self.rules[i]),
            None => None,
        }
    }

    /// The table as it is written in a document.
    pub fn to_raw(&self) -> (raw: RawDocument)
        ensures
            raw@ == encode_document(self@),
    {
        let mut items: Vec<Field<RawRule>> = Vec::new();
        let mut i: usize = 0;
        while i < self.rules.len()
            invariant
                i <= self.rules.len(),
                items.len() == i,
                forall|j: int| 0 <= j < i ==> (#[trigger] items[j]).deep_view() == Field::Present(
                    encode_rule(self.rules[j]@),
                ),
            decreases self.rules.len() - i,
        {
            items.push(Field::Present(self.rules[i].to_raw()));
            i += 1;
        }
        let raw = RawDocument {
            authorization_api_url: Field::Present(self.authorization_api_url.clone()),
            rules: Field::Present(items),
        };
        assert(raw@.rules->Present_0 =~= encode_document(self@).rules->Present_0);
        raw
    }
}

} // verus!
