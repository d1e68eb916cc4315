use vstd::prelude::*;

verus! {

/// One field of a document, as it was found there.
#[derive(Debug, Clone, PartialEq, Eq)]
pub enum Field<T> {
    /// The document does not name the field.
    Absent,
    /// The field is there and holds a value of its kind.
    Present(T),
    /// The field is there and holds a value of another kind, such as a number
    /// where a string belongs.
    Mistyped,
}

impl<T: DeepView> DeepView for Field<T> {
    type V = Field<T::V>;

    open spec fn deep_view(&self) -> Field<T::V> {
        match self {
            Field::Absent => Field::Absent,
            Field::Present(value) => Field::Present(value.deep_view()),
            Field::Mistyped => Field::Mistyped,
        }
    }
}

/// The header constraint of a rule, as written.
#[derive(Debug, Clone, PartialEq, Eq)]
pub struct RawHeader {
    pub name: Field<String>,
    pub value: Field<String>,
}

/// The mathematical model of a [`RawHeader`].
pub struct RawHeaderModel {
    pub name: Field<Seq<char>>,
    pub value: Field<Seq<char>>,
}

impl View for RawHeader {
    type V = RawHeaderModel;

    open spec fn view(&self) -> RawHeaderModel {
        RawHeaderModel { name: self.name.deep_view(), value: self.value.deep_view() }
    }
}

impl DeepView for RawHeader {
    type V = RawHeaderModel;

    open spec fn deep_view(&self) -> RawHeaderModel {
        self@
    }
}

/// One rule of a document, as written: nothing has been validated yet.
#[derive(Debug, Clone, PartialEq, Eq)]
pub struct RawRule {
    pub host: Field<String>,
    pub path: Field<String>,
    pub header: Field<RawHeader>,
    pub target_service: Field<String>,
    pub target_port: Field<String>,
    pub authentication_required: Field<bool>,
}

/// The mathematical model of a [`RawRule`].
pub struct RawRuleModel {
    pub host: Field<Seq<char>>,
    pub path: Field<Seq<char>>,
    pub header: Field<RawHeaderModel>,
    pub target_service: Field<Seq<char>>,
    pub target_port: Field<Seq<char>>,
    pub authentication_required: Field<bool>,
}

impl View for RawRule {
    type V = RawRuleModel;

    open spec fn view(&self) -> RawRuleModel {
        RawRuleModel {
            host: self.host.deep_view(),
            path: self.path.deep_view(),
            header: self.header.deep_view(),
            target_service: self.target_service.deep_view(),
            target_port: self.target_port.deep_view(),
            authentication_required: self.authentication_required.deep_view(),
        }
    }
}

impl DeepView for RawRule {
    type V = RawRuleModel;

    open spec fn deep_view(&self) -> RawRuleModel {
        self@
    }
}

/// A whole configuration document, as written. The rules keep the order of
/// the document.
#[derive(Debug, Clone, PartialEq, Eq)]
pub struct RawDocument {
    pub authorization_api_url: Field<String>,
    pub rules: Field<Vec<Field<RawRule>>>,
}

/// The mathematical model of a [`RawDocument`].
pub struct RawDocumentModel {
    pub authorization_api_url: Field<Seq<char>>,
    pub rules: Field<Seq<Field<RawRuleModel>>>,
}

impl View for RawDocument {
    type V = RawDocumentModel;

    open spec fn view(&self) -> RawDocumentModel {
        RawDocumentModel {
            authorization_api_url: self.authorization_api_url.deep_view(),
            rules: self.rules.deep_view(),
        }
    }
}

impl DeepView for RawDocument {
    type V = RawDocumentModel;

    open spec fn deep_view(&self) -> RawDocumentModel {
        self@
    }
}

} // verus!
