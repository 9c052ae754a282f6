//! The one form in which every failure is reported.
//!
//! A failure found while a builder is laid out (`InvalidDirective`,
//! `MalformedType`, `UnsupportedShape`) ends the request: nothing is laid out
//! for that record. `MissingField` is of another kind: it is what `build`
//! returns when a required field was not set, and the caller may set the
//! field and build again.

use vstd::prelude::*;
use crate::text::{joined, owned};

verus! {

/// What kind of failure a [`Diagnostic`] reports.
#[derive(Debug, Clone, Copy, PartialEq, Eq, Structural)]
pub enum DiagnosticKind {
    /// The attribute text on a field is not `each = "..."` with an
    /// identifier between the quotes.
    InvalidDirective,
    /// A field's declared type has no single type argument to take the
    /// inner type from.
    MalformedType,
    /// The declaration is not a struct with named fields.
    UnsupportedShape,
    /// `build` was called while a required field was not set.
    MissingField,
}

/// Where a failure comes from.
#[derive(Debug, Clone, PartialEq, Eq)]
pub enum Origin {
    /// The attribute text `text` on the field `field`.
    Attribute { field: String, text: String },
    /// The declared type of the field `field`, written `text`.
    Type { field: String, text: String },
    /// The field `name` itself.
    Field { name: String },
    /// The declaration of the record `name`, as a whole.
    Record { name: String },
}

/// The model of an [`Origin`].
pub ghost enum OriginModel {
    Attribute { field: Seq<char>, text: Seq<char> },
    Type { field: Seq<char>, text: Seq<char> },
    Field { name: Seq<char> },
    Record { name: Seq<char> },
}

impl View for Origin {
    type V = OriginModel;

    open spec fn view(&self) -> OriginModel {
        match self {
            Origin::Attribute { field, text } => OriginModel::Attribute {
                field: field@,
                text: text@,
            },
            Origin::Type { field, text } => OriginModel::Type { field: field@, text: text@ },
            Origin::Field { name } => OriginModel::Field { name: name@ },
            Origin::Record { name } => OriginModel::Record { name: name@ },
        }
    }
}

/// A failure: its kind, a message for a person, and where it comes from.
#[derive(Debug, Clone, PartialEq, Eq)]
pub struct Diagnostic {
    pub kind: DiagnosticKind,
    pub message: String,
    pub origin: Origin,
}

/// The model of a [`Diagnostic`].
pub ghost struct DiagnosticModel {
    pub kind: DiagnosticKind,
    pub message: Seq<char>,
    pub origin: OriginModel,
}

impl View for Diagnostic {
    type V = DiagnosticModel;

    open spec fn view(&self) -> DiagnosticModel {
        DiagnosticModel { kind: self.kind, message: self.message@, origin: self.origin@ }
    }
}

/// The failure reported for attribute text that is not a well-formed
/// directive: a fixed hint, and the text itself as the origin.
pub open spec fn invalid_directive(field: Seq<char>, text: Seq<char>) -> DiagnosticModel {
    DiagnosticModel {
        kind: DiagnosticKind::InvalidDirective,
        message: "expected `each = \"...\"`"@,
        origin: OriginModel::Attribute { field, text },
    }
}

/// The failure reported for a field whose declared type, written `source`,
/// has no generic argument or more than one.
pub open spec fn malformed_type(field: Seq<char>, source: Seq<char>) -> DiagnosticModel {
    DiagnosticModel {
        kind: DiagnosticKind::MalformedType,
        message: "unexpected path arguments"@,
        origin: OriginModel::Type { field, text: source },
    }
}

/// The failure reported for a field whose declared type has one generic
/// argument, written `argument`, that is no type.
pub open spec fn unexpected_argument(field: Seq<char>, argument: Seq<char>) -> DiagnosticModel {
    DiagnosticModel {
        kind: DiagnosticKind::MalformedType,
        message: "unexpected generic argument"@,
        origin: OriginModel::Type { field, text: argument },
    }
}

/// The failure reported for the struct `record`, which has no named fields.
pub open spec fn expected_named_fields(record: Seq<char>) -> DiagnosticModel {
    DiagnosticModel {
        kind: DiagnosticKind::UnsupportedShape,
        message: "expected named fields"@,
        origin: OriginModel::Record { name: record },
    }
}

/// The failure reported for the declaration `record`, which is no struct.
pub open spec fn expected_struct(record: Seq<char>) -> DiagnosticModel {
    DiagnosticModel {
        kind: DiagnosticKind::UnsupportedShape,
        message: "expected struct"@,
        origin: OriginModel::Record { name: record },
    }
}

/// The message of a missing field: a fixed phrase and the field's name.
pub open spec fn missing_message(name: Seq<char>) -> Seq<char> {
    "value is not set: "@ + name
}

/// The failure that `build` reports when the required field `name` is not
/// set.
pub open spec fn missing_field(name: Seq<char>) -> DiagnosticModel {
    DiagnosticModel {
        kind: DiagnosticKind::MissingField,
        message: missing_message(name),
        origin: OriginModel::Field { name },
    }
}

impl Diagnostic {
    /// See [`invalid_directive`].
    pub fn invalid_directive(field: &str, text: &str) -> (d: Diagnostic)
        ensures
            d@ == invalid_directive(field@, text@),
    {
        Diagnostic {
            kind: DiagnosticKind::InvalidDirective,
            message: owned("expected `each = \"...\"`"),
            origin: Origin::Attribute { field: owned(field), text: owned(text) },
        }
    }

    /// See [`malformed_type`].
    pub fn malformed_type(field: &str, source: &str) -> (d: Diagnostic)
        ensures
            d@ == malformed_type(field@, source@),
    {
        Diagnostic {
            kind: DiagnosticKind::MalformedType,
            message: owned("unexpected path arguments"),
            origin: Origin::Type { field: owned(field), text: owned(source) },
        }
    }

    /// See [`unexpected_argument`].
    pub fn unexpected_argument(field: &str, argument: &str) -> (d: Diagnostic)
        ensures
            d@ == unexpected_argument(field@, argument@),
    {
        Diagnostic {
            kind: DiagnosticKind::MalformedType,
            message: owned("unexpected generic argument"),
            origin: Origin::Type { field: owned(field), text: owned(argument) },
        }
    }

    /// See [`expected_named_fields`].
    pub fn expected_named_fields(record: &str) -> (d: Diagnostic)
        ensures
            d@ == expected_named_fields(record@),
    {
        Diagnostic {
            kind: DiagnosticKind::UnsupportedShape,
            message: owned("expected named fields"),
            origin: Origin::Record { name: owned(record) },
        }
    }

    /// See [`expected_struct`].
    pub fn expected_struct(record: &str) -> (d: Diagnostic)
        ensures
            d@ == expected_struct(record@),
    {
        Diagnostic {
            kind: DiagnosticKind::UnsupportedShape,
            message: owned("expected struct"),
            origin: Origin::Record { name: owned(record) },
        }
    }

    /// See [`missing_field`].
    pub fn missing_field(name: &str) -> (d: Diagnostic)
        ensures
            d@ == missing_field(name@),
    {
        Diagnostic {
            kind: DiagnosticKind::MissingField,
            message: joined("value is not set: ", name),
            origin: Origin::Field { name: owned(name) },
        }
    }

    /// The message, as an owned text.
    pub fn to_string(&self) -> (s: String)
        ensures
            s@ == self@.message,
    {
        self.message.clone()
    }
}

} // verus!
