//! The two record shapes, and the entry sent back by the hub.
//!
//! A record's identity is its content hash: committing the same fields twice
//! yields the same hash (and one retrievable record), while every commit gets
//! its own, always-fresh commit hash.

use crate::addressing::{Address, AddressV};
use vstd::prelude::*;

verus! {

/// A named binary blob.  The payload travels as a string encoding of the file
/// bytes; the filename is expected to carry an extension, which callers — not
/// this module — enforce.
#[derive(Debug)]
pub struct Paper {
    pub filename: String,
    pub blob_str: String,
}

/// Mathematical model of a [`Paper`].
#[verifier::ext_equal]
pub struct PaperV {
    pub filename: Seq<char>,
    pub blob_str: Seq<char>,
}

impl View for Paper {
    type V = PaperV;

    open spec fn view(&self) -> PaperV {
        PaperV { filename: self.filename@, blob_str: self.blob_str@ }
    }
}

/// A note attached to a paper.  `paper_ref` holds the content hash of the
/// annotated paper; nothing checks at write time that such a paper exists, so
/// a dangling reference is representable and only surfaces as a resolution
/// failure when read.
#[derive(Debug)]
pub struct Annotation {
    pub paper_ref: Address,
    pub page_num: u64,
    pub paragraph_num: u64,
    pub what_it_says: String,
    pub what_it_should_say: String,
}

/// Mathematical model of an [`Annotation`].
#[verifier::ext_equal]
pub struct AnnotationV {
    pub paper_ref: AddressV,
    pub page_num: u64,
    pub paragraph_num: u64,
    pub what_it_says: Seq<char>,
    pub what_it_should_say: Seq<char>,
}

impl View for Annotation {
    type V = AnnotationV;

    open spec fn view(&self) -> AnnotationV {
        AnnotationV {
            paper_ref: self.paper_ref@,
            page_num: self.page_num,
            paragraph_num: self.paragraph_num,
            what_it_says: self.what_it_says@,
            what_it_should_say: self.what_it_should_say@,
        }
    }
}

/// An entry returned by the hub module.  Its body is opaque to this module,
/// which only carries it through to the caller.
#[derive(Debug)]
pub struct SensemakerEntry {
    pub payload: String,
}

impl View for SensemakerEntry {
    type V = Seq<char>;

    open spec fn view(&self) -> Seq<char> {
        self.payload@
    }
}

/// The content hash of a paper: a function of its fields and nothing else.
pub open spec fn paper_address(p: PaperV) -> AddressV {
    AddressV::PaperEntry { filename: p.filename, blob_str: p.blob_str }
}

/// The content hash of an annotation: a function of its fields and nothing else.
pub open spec fn annotation_address(a: AnnotationV) -> AddressV {
    AddressV::AnnotationEntry {
        paper_ref: Box::new(a.paper_ref),
        page_num: a.page_num,
        paragraph_num: a.paragraph_num,
        what_it_says: a.what_it_says,
        what_it_should_say: a.what_it_should_say,
    }
}

impl Paper {
    /// Computes the record's content hash.
    pub fn entry_hash(&self) -> (h: Address)
        ensures
            h@ == paper_address(self@),
    {
        Address::PaperEntry {
            filename: self.filename.clone(),
            blob_str: self.blob_str.clone(),
        }
    }

    /// Field-for-field copy with the same model.
    pub fn duplicate(&self) -> (r: Paper)
        ensures
            r@ == self@,
    {
        Paper { filename: self.filename.clone(), blob_str: self.blob_str.clone() }
    }
}

impl Annotation {
    /// Computes the record's content hash.
    pub fn entry_hash(&self) -> (h: Address)
        ensures
            h@ == annotation_address(self@),
    {
        Address::AnnotationEntry {
            paper_ref: Box::new(self.paper_ref.duplicate()),
            page_num: self.page_num,
            paragraph_num: self.paragraph_num,
            what_it_says: self.what_it_says.clone(),
            what_it_should_say: self.what_it_should_say.clone(),
        }
    }

    /// Field-for-field copy with the same model.
    pub fn duplicate(&self) -> (r: Annotation)
        ensures
            r@ == self@,
    {
        Annotation {
            paper_ref: self.paper_ref.duplicate(),
            page_num: self.page_num,
            paragraph_num: self.paragraph_num,
            what_it_says: self.what_it_says.clone(),
            what_it_should_say: self.what_it_should_say.clone(),
        }
    }
}

impl SensemakerEntry {
    /// Copy with the same model.
    pub fn duplicate(&self) -> (r: SensemakerEntry)
        ensures
            r@ == self@,
    {
        SensemakerEntry { payload: self.payload.clone() }
    }
}

} // verus!
