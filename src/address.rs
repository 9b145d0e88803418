//! The two record shapes: the raw, unstructured address and the structured
//! one that the parser produces, each with its mathematical view.

use vstd::prelude::*;
use crate::text::opt_text;

verus! {

/// A raw address record: an identifier and up to six lines of free text.
#[derive(Debug, Clone)]
pub struct UnstructuredAddress {
    pub id: String,
    pub lines: [Option<String>; 6],
}

/// A postal code of four digits, with an optional numeric suffix.
#[derive(Debug, Clone, Copy, PartialEq, Eq, Hash)]
pub struct PostalCode {
    pub code: u16,
    pub suffix: Option<u8>,
}

/// The street part of an address: a street with its house number, or a
/// post-office box.
#[derive(Debug, Clone, PartialEq, Eq, Hash)]
pub enum AddressLine {
    Street { street: String, house_number: String },
    PoBox { box_number: String },
}

/// An address split into typed fields.
#[derive(Debug, Clone, PartialEq, Eq, Hash)]
pub struct StructuredAddress {
    pub id: String,
    pub title: Option<String>,
    pub name: Option<String>,
    pub lastname: Option<String>,
    pub firstname: Option<String>,
    pub compl1: Option<String>,
    pub compl2: Option<String>,
    pub address: AddressLine,
    pub postal: PostalCode,
    pub city: String,
    pub country: String,
}

/// Why a record could not be parsed.
#[derive(Debug, Clone, Copy, PartialEq, Eq, Hash)]
pub enum ParseError {
    /// The record has no identifier.
    MissingIdentifier,
}

/// The content of an `UnstructuredAddress`.
pub struct UnstructuredAddressView {
    pub id: Seq<char>,
    pub lines: Seq<Option<Seq<char>>>,
}

/// The content of an `AddressLine`.
pub enum AddressLineView {
    Street { street: Seq<char>, house_number: Seq<char> },
    PoBox { box_number: Seq<char> },
}

/// The content of a `StructuredAddress`.
pub struct StructuredAddressView {
    pub id: Seq<char>,
    pub title: Option<Seq<char>>,
    pub name: Option<Seq<char>>,
    pub lastname: Option<Seq<char>>,
    pub firstname: Option<Seq<char>>,
    pub compl1: Option<Seq<char>>,
    pub compl2: Option<Seq<char>>,
    pub address: AddressLineView,
    pub postal: PostalCode,
    pub city: Seq<char>,
    pub country: Seq<char>,
}

impl View for UnstructuredAddress {
    type V = UnstructuredAddressView;

    open spec fn view(&self) -> UnstructuredAddressView {
        UnstructuredAddressView {
            id: self.id@,
            lines: self.lines@.map_values(|l: Option<String>| opt_text(l)),
        }
    }
}

impl View for AddressLine {
    type V = AddressLineView;

    open spec fn view(&self) -> AddressLineView {
        match self {
            AddressLine::Street { street, house_number } => AddressLineView::Street {
                street: street@,
                house_number: house_number@,
            },
            AddressLine::PoBox { box_number } => AddressLineView::PoBox { box_number: box_number@ },
        }
    }
}

impl View for StructuredAddress {
    type V = StructuredAddressView;

    open spec fn view(&self) -> StructuredAddressView {
        StructuredAddressView {
            id: self.id@,
            title: opt_text(self.title),
            name: opt_text(self.name),
            lastname: opt_text(self.lastname),
            firstname: opt_text(self.firstname),
            compl1: opt_text(self.compl1),
            compl2: opt_text(self.compl2),
            address: self.address@,
            postal: self.postal,
            city: self.city@,
            country: self.country@,
        }
    }
}

} // verus!
