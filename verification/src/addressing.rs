//! Addresses: anchor addresses and content hashes.
//!
//! Every retrievable thing in the store is named by an [`Address`].  An anchor
//! address is a pure function of its tag, so independent callers derive the
//! same fan-out point without coordination.  A record's content hash is a
//! deterministic, injective function of the record's fields: identical content
//! yields the identical address, distinct content a distinct one.

use vstd::prelude::*;

verus! {

/// Link tag and anchor type-tag for the paper index.
pub const PAPER_TAG: &'static str = "paperz_paper";

/// Link tag and anchor type-tag for the annotation index.  The same tag is
/// used for anchor -> annotation and for paper -> annotation edges; the two
/// edge kinds are told apart by the source address, never by the tag.
pub const ANN_TAG: &'static str = "annotationz";

/// Path-style namespace reserved for future use; no current operation reads it.
pub const PAPER_PATH: &'static str = "widget.paperz";

/// The address of a retrievable thing: an anchor bucket or a committed record.
///
/// A content hash is modelled as the canonical content of the record itself,
/// which keeps the two defining properties of content addressing — determinism
/// and injectivity — visible to the verifier.
#[derive(Debug)]
pub enum Address {
    /// Deterministically derived address of an anchor bucket.
    Anchor { tag: String },
    /// Content hash of a paper record.
    PaperEntry { filename: String, blob_str: String },
    /// Content hash of an annotation record.
    AnnotationEntry {
        paper_ref: Box<Address>,
        page_num: u64,
        paragraph_num: u64,
        what_it_says: String,
        what_it_should_say: String,
    },
}

/// Mathematical model of an [`Address`].
#[verifier::ext_equal]
pub enum AddressV {
    Anchor { tag: Seq<char> },
    PaperEntry { filename: Seq<char>, blob_str: Seq<char> },
    AnnotationEntry {
        paper_ref: Box<AddressV>,
        page_num: u64,
        paragraph_num: u64,
        what_it_says: Seq<char>,
        what_it_should_say: Seq<char>,
    },
}

pub open spec fn address_view(a: Address) -> AddressV
    decreases a,
{
    match a {
        Address::Anchor { tag } => AddressV::Anchor { tag: tag@ },
        Address::PaperEntry { filename, blob_str } => AddressV::PaperEntry {
            filename: filename@,
            blob_str: blob_str@,
        },
        Address::AnnotationEntry {
            paper_ref,
            page_num,
            paragraph_num,
            what_it_says,
            what_it_should_say,
        } => AddressV::AnnotationEntry {
            paper_ref: Box::new(address_view(*paper_ref)),
            page_num,
            paragraph_num,
            what_it_says: what_it_says@,
            what_it_should_say: what_it_should_say@,
        },
    }
}

impl View for Address {
    type V = AddressV;

    open spec fn view(&self) -> AddressV {
        address_view(*self)
    }
}

/// The address of the anchor bucket for `tag`: a pure function of the tag
/// alone, with no round-trip to the store on read or write.
pub open spec fn anchor_address_spec(tag: Seq<char>) -> AddressV {
    AddressV::Anchor { tag }
}

/// Derives the anchor address for `tag`.
///
/// Idempotent by contract: the result is fixed by `tag@` alone, so repeated
/// calls — in this process or any other — yield the same address.
pub fn anchor_address(tag: &str) -> (a: Address)
    ensures
        a@ == anchor_address_spec(tag@),
{
    Address::Anchor { tag: tag.to_owned() }
}

/// Two anchor addresses are equal exactly when their tags are.
pub proof fn lemma_anchor_address_injective(t1: Seq<char>, t2: Seq<char>)
    ensures
        (anchor_address_spec(t1) == anchor_address_spec(t2)) <==> (t1 == t2),
{
}

/// Decides address equality: `r` is true exactly when the two addresses have
/// the same model, i.e. name the same anchor or the same record content.
pub fn addr_eq(a: &Address, b: &Address) -> (r: bool)
    ensures
        r == (a@ == b@),
    decreases *a,
{
    match (a, b) {
        (Address::Anchor { tag: t1 }, Address::Anchor { tag: t2 }) => *t1 == *t2,
        (
            Address::PaperEntry { filename: f1, blob_str: b1 },
            Address::PaperEntry { filename: f2, blob_str: b2 },
        ) => *f1 == *f2 && *b1 == *b2,
        (
            Address::AnnotationEntry {
                paper_ref: p1,
                page_num: g1,
                paragraph_num: q1,
                what_it_says: s1,
                what_it_should_say: y1,
            },
            Address::AnnotationEntry {
                paper_ref: p2,
                page_num: g2,
                paragraph_num: q2,
                what_it_says: s2,
                what_it_should_say: y2,
            },
        ) => addr_eq(&*p1, &*p2) && *g1 == *g2 && *q1 == *q2 && *s1 == *s2 && *y1 == *y2,
        _ => false,
    }
}

impl Address {
    /// Structural copy: the copy has the same model, hence names the same thing.
    pub fn duplicate(&self) -> (r: Address)
        ensures
            r@ == self@,
        decreases *self,
    {
        match self {
            Address::Anchor { tag } => Address::Anchor { tag: tag.clone() },
            Address::PaperEntry { filename, blob_str } => Address::PaperEntry {
                filename: filename.clone(),
                blob_str: blob_str.clone(),
            },
            Address::AnnotationEntry {
                paper_ref,
                page_num,
                paragraph_num,
                what_it_says,
                what_it_should_say,
            } => Address::AnnotationEntry {
                paper_ref: Box::new(paper_ref.duplicate()),
                page_num: *page_num,
                paragraph_num: *paragraph_num,
                what_it_says: what_it_says.clone(),
                what_it_should_say: what_it_should_say.clone(),
            },
        }
    }
}

} // verus!
