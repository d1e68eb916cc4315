use vstd::prelude::*;
use crate::document::{Field, RawHeader, RawHeaderModel, RawRule, RawRuleModel};
use crate::error::{outcome, ConfigError, ErrorModel};
use crate::pattern::{decode_pattern_text, pattern_is_valid, pattern_matches, PatternField};

verus! {

/// A request, as far as routing looks at it.
#[derive(Debug, Clone, PartialEq, Eq)]
pub struct Request {
    pub host: String,
    pub path: String,
    /// The headers as pairs of name and value, in any order.
    pub headers: Vec<(String, String)>,
}

/// The mathematical model of a [`Request`].
pub struct RequestModel {
    pub host: Seq<char>,
    pub path: Seq<char>,
    pub headers: Seq<(Seq<char>, Seq<char>)>,
}

impl View for Request {
    type V = RequestModel;

    open spec fn view(&self) -> RequestModel {
        RequestModel { host: self.host@, path: self.path@, headers: self.headers.deep_view() }
    }
}

/// A header that a request must carry, with exactly this name and value.
#[derive(Debug, Clone, PartialEq, Eq)]
pub struct Header {
    pub name: String,
    pub value: String,
}

/// The mathematical model of a [`Header`].
pub struct HeaderModel {
    pub name: Seq<char>,
    pub value: Seq<char>,
}

impl View for Header {
    type V = HeaderModel;

    open spec fn view(&self) -> HeaderModel {
        HeaderModel { name: self.name@, value: self.value@ }
    }
}

impl DeepView for Header {
    type V = HeaderModel;

    open spec fn deep_view(&self) -> HeaderModel {
        self@
    }
}

/// The text of a field that must be given, as a string.
pub open spec fn given_text(field: Field<Seq<char>>, field_name: Seq<char>) -> Result<
    Seq<char>,
    ErrorModel,
> {
    match field {
        Field::Present(text) => Ok(text),
        _ => Err(ErrorModel::missing(field_name)),
    }
}

/// The text of a field that must be given and may not be empty.
pub open spec fn required_text(field: Field<Seq<char>>, field_name: Seq<char>) -> Result<
    Seq<char>,
    ErrorModel,
> {
    match field {
        Field::Present(text) => if text.len() > 0 {
            Ok(text)
        } else {
            Err(ErrorModel::missing(field_name))
        },
        _ => Err(ErrorModel::missing(field_name)),
    }
}

/// What a written header constraint decodes to: both `name` and `value` must
/// be given as strings, and the first of the two that is not is reported.
pub open spec fn decode_header(raw: RawHeaderModel) -> Result<HeaderModel, ErrorModel> {
    let name = given_text(raw.name, "name"@);
    let value = given_text(raw.value, "value"@);
    if name is Err {
        Err(name->Err_0)
    } else if value is Err {
        Err(value->Err_0)
    } else {
        Ok(HeaderModel { name: name->Ok_0, value: value->Ok_0 })
    }
}

/// Whether a header constraint holds of a request's headers: one of them has
/// exactly this name and this value. Letter case counts.
pub open spec fn header_matches(header: HeaderModel, headers: Seq<(Seq<char>, Seq<char>)>) -> bool {
    headers.contains((header.name, header.value))
}

impl Header {
    /// Decodes a written header constraint.
    pub fn parse(raw: &RawHeader) -> (r: Result<Header, ConfigError>)
        ensures
            outcome(r) == decode_header(raw@),
    {
        let name = match &raw.name {
            Field::Present(text) => text.clone(),
            _ => { return Err(ConfigError::missing("name")); },
        };
        let value = match &raw.value {
            Field::Present(text) => text.clone(),
            _ => { return Err(ConfigError::missing("value")); },
        };
        Ok(Header { name, value })
    }

    /// Whether one of `headers` has exactly this name and this value.
    pub fn matches(&self, headers: &Vec<(String, String)>) -> (b: bool)
        ensures
            b == header_matches(self@, headers.deep_view()),
    {
        let mut i: usize = 0;
        while i < headers.len()
            invariant
                i <= headers.len(),
                forall|j: int| 0 <= j < i ==> #[trigger] headers.deep_view()[j] != (self@.name, self@.value),
            decreases headers.len() - i,
        {
            if headers[i].0 == self.name && headers[i].1 == self.value {
                assert(headers.deep_view()[i as int] == (self@.name, self@.value));
                return true;
            }
            i += 1;
        }
        false
    }

    /// The constraint as it is written in a document.
    pub fn to_raw(&self) -> (raw: RawHeader)
        ensures
            raw@ == encode_header(self@),
    {
        RawHeader { name: Field::Present(self.name.clone()), value: Field::Present(self.value.clone()) }
    }
}

/// How a header constraint is written in a document.
pub open spec fn encode_header(header: HeaderModel) -> RawHeaderModel {
    RawHeaderModel { name: Field::Present(header.name), value: Field::Present(header.value) }
}

/// One routing rule: what a request must look like, and where it goes.
///
/// A constraint that is `None` holds of every request, so a rule without any
/// constraint matches everything. `authentication_required` that is `None`
/// leaves the decision to the gateway's default: it is not the same as
/// `Some(false)`.
#[derive(Debug, Clone)]
pub struct ServiceConfig {
    pub host: Option<PatternField>,
    pub path: Option<PatternField>,
    pub header: Option<Header>,
    pub target_service: String,
    pub target_port: String,
    pub authentication_required: Option<bool>,
}

/// The mathematical model of a [`ServiceConfig`]. A pattern is modelled by
/// its text.
pub struct ServiceConfigModel {
    pub host: Option<Seq<char>>,
    pub path: Option<Seq<char>>,
    pub header: Option<HeaderModel>,
    pub target_service: Seq<char>,
    pub target_port: Seq<char>,
    pub authentication_required: Option<bool>,
}

impl ServiceConfigModel {
    /// What holds of every decoded rule: its patterns compile and it names a
    /// service and a port.
    pub open spec fn is_valid(self) -> bool {
        &&& self.host matches Some(text) ==> pattern_is_valid(text)
        &&& self.path matches Some(text) ==> pattern_is_valid(text)
        &&& self.target_service.len() > 0
        &&& self.target_port.len() > 0
    }
}

impl View for ServiceConfig {
    type V = ServiceConfigModel;

    open spec fn view(&self) -> ServiceConfigModel {
        ServiceConfigModel {
            host: self.host.deep_view(),
            path: self.path.deep_view(),
            header: self.header.deep_view(),
            target_service: self.target_service@,
            target_port: self.target_port@,
            authentication_required: self.authentication_required,
        }
    }
}

impl DeepView for ServiceConfig {
    type V = ServiceConfigModel;

    open spec fn deep_view(&self) -> ServiceConfigModel {
        self@
    }
}

/// What an optional pattern field decodes to. A field that is absent puts no
/// constraint; one that is given must be a string that compiles.
pub open spec fn decode_pattern(field: Field<Seq<char>>, field_name: Seq<char>) -> Result<
    Option<Seq<char>>,
    ErrorModel,
> {
    match field {
        Field::Absent => Ok(None),
        Field::Present(text) => match decode_pattern_text(field_name, text) {
            Ok(pattern) => Ok(Some(pattern)),
            Err(e) => Err(e),
        },
        Field::Mistyped => Err(ErrorModel::missing(field_name)),
    }
}

/// What an optional header field decodes to.
pub open spec fn decode_optional_header(field: Field<RawHeaderModel>) -> Result<
    Option<HeaderModel>,
    ErrorModel,
> {
    match field {
        Field::Absent => Ok(None),
        Field::Present(raw) => match decode_header(raw) {
            Ok(header) => Ok(Some(header)),
            Err(e) => Err(e),
        },
        Field::Mistyped => Err(ErrorModel::missing("header"@)),
    }
}

/// What an optional boolean field decodes to.
pub open spec fn decode_flag(field: Field<bool>, field_name: Seq<char>) -> Result<
    Option<bool>,
    ErrorModel,
> {
    match field {
        Field::Absent => Ok(None),
        Field::Present(flag) => Ok(Some(flag)),
        Field::Mistyped => Err(ErrorModel::missing(field_name)),
    }
}

/// What a written rule decodes to.
///
/// The fields are looked at in the order `host`, `path`, `header`,
/// `target_service`, `target_port`, `authentication_required`, and the first
/// one at fault gives the error. Where none is, the rule holds what was
/// written, and nothing else.
pub open spec fn decode_rule(raw: RawRuleModel) -> Result<ServiceConfigModel, ErrorModel> {
    let host = decode_pattern(raw.host, "host"@);
    let path = decode_pattern(raw.path, "path"@);
    let header = decode_optional_header(raw.header);
    let target_service = required_text(raw.target_service, "target_service"@);
    let target_port = required_text(raw.target_port, "target_port"@);
    let authentication_required = decode_flag(raw.authentication_required, "authentication_required"@);
    if host is Err {
        Err(host->Err_0)
    } else if path is Err {
        Err(path->Err_0)
    } else if header is Err {
        Err(header->Err_0)
    } else if target_service is Err {
        Err(target_service->Err_0)
    } else if target_port is Err {
        Err(target_port->Err_0)
    } else if authentication_required is Err {
        Err(authentication_required->Err_0)
    } else {
        Ok(
            ServiceConfigModel {
                host: host->Ok_0,
                path: path->Ok_0,
                header: header->Ok_0,
                target_service: target_service->Ok_0,
                target_port: target_port->Ok_0,
                authentication_required: authentication_required->Ok_0,
            },
        )
    }
}

/// How a rule is written in a document: a constraint that is not set is left
/// out, and a pattern is written as the text it was read from.
pub open spec fn encode_rule(rule: ServiceConfigModel) -> RawRuleModel {
    RawRuleModel {
        host: encode_optional(rule.host),
        path: encode_optional(rule.path),
        header: match rule.header {
            Some(header) => Field::Present(encode_header(header)),
            None => Field::Absent,
        },
        target_service: Field::Present(rule.target_service),
        target_port: Field::Present(rule.target_port),
        authentication_required: encode_optional(rule.authentication_required),
    }
}

/// How an optional value is written: as it is, or not at all.
pub open spec fn encode_optional<T>(value: Option<T>) -> Field<T> {
    match value {
        Some(v) => Field::Present(v),
        None => Field::Absent,
    }
}

/// Whether a rule matches a request: every constraint that the rule sets
/// holds of the request.
pub open spec fn rule_matches(rule: ServiceConfigModel, request: RequestModel) -> bool {
    &&& rule.host matches Some(pattern) ==> pattern_matches(pattern, request.host)
    &&& rule.path matches Some(pattern) ==> pattern_matches(pattern, request.path)
    &&& rule.header matches Some(header) ==> header_matches(header, request.headers)
}

/// Decodes a field that must hold a non-empty string.
pub fn parse_required_text(field: &Field<String>, field_name: &str) -> (r: Result<String, ConfigError>)
    ensures
        outcome(r) == required_text(field.deep_view(), field_name@),
{
    match field {
        Field::Present(text) => {
            if text.as_str().is_empty() {
                Err(ConfigError::missing(field_name))
            } else {
                Ok(text.clone())
            }
        },
        _ => Err(ConfigError::missing(field_name)),
    }
}

/// Decodes an optional pattern field.
pub fn parse_pattern(field: &Field<String>, field_name: &str) -> (r: Result<
    Option<PatternField>,
    ConfigError,
>)
    ensures
        outcome(r) == decode_pattern(field.deep_view(), field_name@),
{
    match field {
        Field::Absent => Ok(None),
        Field::Present(text) => match PatternField::parse(field_name, text.as_str()) {
            Ok(pattern) => Ok(Some(pattern)),
            Err(e) => Err(e),
        },
        Field::Mistyped => Err(ConfigError::missing(field_name)),
    }
}

impl ServiceConfig {
    /// Decodes a written rule.
    pub fn parse(raw: &RawRule) -> (r: Result<ServiceConfig, ConfigError>)
        ensures
            outcome(r) == decode_rule(raw@),
            r matches Ok(rule) ==> rule@.is_valid(),
    {
        let host = match parse_pattern(&raw.host, "host") {
            Ok(pattern) => pattern,
            Err(e) => { return Err(e); },
        };
        let path = match parse_pattern(&raw.path, "path") {
            Ok(pattern) => pattern,
            Err(e) => { return Err(e); },
        };
        let header = match &raw.header {
            Field::Absent => None,
            Field::Present(raw_header) => match Header::parse(raw_header) {
                Ok(header) => Some(header),
                Err(e) => { return Err(e); },
            },
            Field::Mistyped => { return Err(ConfigError::missing("header")); },
        };
        let target_service = match parse_required_text(&raw.target_service, "target_service") {
            Ok(text) => text,
            Err(e) => { return Err(e); },
        };
        let target_port = match parse_required_text(&raw.target_port, "target_port") {
            Ok(text) => text,
            Err(e) => { return Err(e); },
        };
        let authentication_required = match &raw.authentication_required {
            Field::Absent => None,
            Field::Present(flag) => Some(*flag),
            Field::Mistyped => { return Err(ConfigError::missing("authentication_required")); },
        };
        Ok(ServiceConfig { host, path, header, target_service, target_port, authentication_required })
    }

    /// Whether the rule matches `request`.
    pub fn matches(&self, request: &Request) -> (b: bool)
        ensures
            b == rule_matches(self@, request@),
    {
        let host_holds = match &self.host {
            Some(pattern) => pattern.matches(request.host.as_str()),
            None => true,
        };
        let path_holds = match &self.path {
            Some(pattern) => pattern.matches(request.path.as_str()),
            None => true,
        };
        let header_holds = match &self.header {
            Some(header) => header.matches(&request.headers),
            None => true,
        };
        host_holds && path_holds && header_holds
    }

    /// The rule as it is written in a document.
    pub fn to_raw(&self) -> (raw: RawRule)
        ensures
            raw@ == encode_rule(self@),
    {
        RawRule {
            host: match &self.host {
                Some(pattern) => Field::Present(pattern.to_text()),
                None => Field::Absent,
            },
            path: match &self.path {
                Some(pattern) => Field::Present(pattern.to_text()),
                None => Field::Absent,
            },
            header: match &self.header {
                Some(header) => Field::Present(header.to_raw()),
                None => Field::Absent,
            },
            target_service: Field::Present(self.target_service.clone()),
            target_port: Field::Present(self.target_port.clone()),
            authentication_required: match self.authentication_required {
                Some(flag) => Field::Present(flag),
                None => Field::Absent,
            },
        }
    }
}

} // verus!
