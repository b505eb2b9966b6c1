//! The laws of the indexing discipline, stated over the store model and
//! proved once for every state and record.
//!
//! Each law speaks about the state transitions and enumerations the exported
//! operations are specified by, so together with those contracts it covers
//! every execution: what was uploaded is enumerable, identical content keeps
//! a single identity under as many edges as were created, a dangling
//! reference never blocks creation, and one unresolvable element never costs
//! the others.

use crate::addressing::AddressV;
use crate::records::{annotation_address, paper_address, AnnotationV, PaperV};
use crate::registry::{
    annotation_anchor_link, annotation_at, annotation_links, annotation_paper_link, ann_tag,
    create_annotation_next, create_annotation_ok, enumerate_annotations, enumerate_papers,
    paper_anchor_addr, paper_at, paper_index_links, paper_link, paper_tag, resolved_annotations_idx,
    resolved_papers_idx, upload_next,
};
use crate::store::{
    lemma_links_from_push, lemma_lookup_after_with_entry, link_matches, lookup, LinkV, RecordV,
    StoreV,
};
use vstd::prelude::*;

verus! {

/// Every link whose target resolves to a paper contributes its element to the
/// paper enumeration, from any starting index at or before it.
proof fn lemma_resolved_papers_contains_from(s: StoreV, ls: Seq<LinkV>, i: int, j: int)
    requires
        0 <= i <= j < ls.len(),
        paper_at(s, ls[j]) is Some,
    ensures
        resolved_papers_idx(s, ls, i).contains(paper_at(s, ls[j])->Some_0),
    decreases j - i,
{
    let pair = paper_at(s, ls[j])->Some_0;
    let rest = resolved_papers_idx(s, ls, i + 1);
    if i == j {
        assert((seq![pair] + rest)[0] == pair);
    } else {
        lemma_resolved_papers_contains_from(s, ls, i + 1, j);
        let k = choose|k: int| 0 <= k < rest.len() && rest[k] == pair;
        match paper_at(s, ls[i]) {
            Some(q) => {
                assert((seq![q] + rest)[k + 1] == pair);
            },
            None => {},
        }
    }
}

/// As above, for the annotation enumeration.
proof fn lemma_resolved_annotations_contains_from(s: StoreV, ls: Seq<LinkV>, i: int, j: int)
    requires
        0 <= i <= j < ls.len(),
        annotation_at(s, ls[j]) is Some,
    ensures
        resolved_annotations_idx(s, ls, i).contains(annotation_at(s, ls[j])->Some_0),
    decreases j - i,
{
    let pair = annotation_at(s, ls[j])->Some_0;
    let rest = resolved_annotations_idx(s, ls, i + 1);
    if i == j {
        assert((seq![pair] + rest)[0] == pair);
    } else {
        lemma_resolved_annotations_contains_from(s, ls, i + 1, j);
        let k = choose|k: int| 0 <= k < rest.len() && rest[k] == pair;
        match annotation_at(s, ls[i]) {
            Some(q) => {
                assert((seq![q] + rest)[k + 1] == pair);
            },
            None => {},
        }
    }
}

/// Round trip: in any well-formed store, after a paper is uploaded, the paper
/// enumeration contains the pair of its content hash and the record itself,
/// field for field — provided only that the new record is retrievable.
pub proof fn lemma_upload_round_trip(s: StoreV, p: PaperV)
    requires
        s.wf(),
        !s.unavailable.contains(paper_address(p)),
    ensures
        upload_next(s, p).wf(),
        enumerate_papers(upload_next(s, p)).contains((paper_address(p), p)),
{
    let record = RecordV::Paper(p);
    let s1 = s.with_entry(record);
    let s2 = upload_next(s, p);
    let l = paper_link(p);
    lemma_links_from_push(s1.links, l, paper_anchor_addr(), paper_tag());
    assert(link_matches(l, paper_anchor_addr(), paper_tag()));
    lemma_lookup_after_with_entry(s, record);
    assert(s2.resolve(paper_address(p)) == Some(record));
    assert(paper_at(s2, l) == Some((paper_address(p), p)));
    let fl = paper_index_links(s2);
    assert(fl[fl.len() - 1] == l);
    lemma_resolved_papers_contains_from(s2, fl, 0, fl.len() - 1);
}

/// Duplicate-content stability: uploading identical content twice leaves two
/// edges in the paper index, both targeting the one shared content hash, and
/// that hash still resolves to the one record — one identity, two links.
pub proof fn lemma_duplicate_upload_stable(s: StoreV, p: PaperV)
    requires
        s.wf(),
        !s.unavailable.contains(paper_address(p)),
    ensures
        paper_index_links(upload_next(upload_next(s, p), p)).len() == paper_index_links(s).len()
            + 2,
        paper_index_links(upload_next(upload_next(s, p), p))[paper_index_links(s).len() as int]
            .target == paper_address(p),
        paper_index_links(upload_next(upload_next(s, p), p))[paper_index_links(s).len() as int + 1]
            .target == paper_address(p),
        upload_next(upload_next(s, p), p).resolve(paper_address(p)) == Some(RecordV::Paper(p)),
{
    let record = RecordV::Paper(p);
    let l = paper_link(p);
    let s1 = upload_next(s, p);
    let s2 = upload_next(s1, p);
    assert(link_matches(l, paper_anchor_addr(), paper_tag()));
    lemma_links_from_push(s.links, l, paper_anchor_addr(), paper_tag());
    lemma_links_from_push(s1.links, l, paper_anchor_addr(), paper_tag());
    assert(paper_index_links(s2) == paper_index_links(s).push(l).push(l));
    lemma_lookup_after_with_entry(s, record);
    assert(s1.wf());
    lemma_lookup_after_with_entry(s1, record);
    assert(lookup(s2.entries, paper_address(p)) == Some(record));
}

/// Referential round trip: in any well-formed store, after an annotation is
/// created, enumerating the annotations of the paper it references contains
/// the pair of the annotation's content hash and the record itself —
/// whatever the outcome of the hub notification, which touches no store
/// state.
pub proof fn lemma_annotation_round_trip(s: StoreV, a: AnnotationV)
    requires
        s.wf(),
        !s.unavailable.contains(annotation_address(a)),
    ensures
        create_annotation_next(s, a).wf(),
        enumerate_annotations(create_annotation_next(s, a), a.paper_ref).contains(
            (annotation_address(a), a),
        ),
{
    let record = RecordV::Annotation(a);
    let s1 = s.with_entry(record);
    let s2 = s1.with_link(annotation_anchor_link(a));
    let s3 = create_annotation_next(s, a);
    let l = annotation_paper_link(a);
    lemma_links_from_push(s2.links, l, a.paper_ref, ann_tag());
    assert(link_matches(l, a.paper_ref, ann_tag()));
    lemma_lookup_after_with_entry(s, record);
    assert(s3.resolve(annotation_address(a)) == Some(record));
    assert(annotation_at(s3, l) == Some((annotation_address(a), a)));
    let fl = annotation_links(s3, a.paper_ref);
    assert(fl[fl.len() - 1] == l);
    lemma_resolved_annotations_contains_from(s3, fl, 0, fl.len() - 1);
}

/// Dangling-reference tolerance: whether annotation creation can commit never
/// consults the referenced paper — the success condition reads the store's
/// write health alone — and the created annotation is enumerable from the
/// absent paper's hash all the same.
pub proof fn lemma_dangling_reference_tolerated(s: StoreV, a: AnnotationV)
    requires
        s.wf(),
        lookup(s.entries, a.paper_ref) is None,
        !s.unavailable.contains(annotation_address(a)),
    ensures
        create_annotation_ok(s, a) == (!s.fail_writes && s.actions + 3 <= u64::MAX),
        enumerate_annotations(create_annotation_next(s, a), a.paper_ref).contains(
            (annotation_address(a), a),
        ),
{
    lemma_annotation_round_trip(s, a);
}

/// Enumeration resilience: each paper-index link whose target resolves
/// contributes its element to the paper enumeration, however many of the
/// other links are dangling or unretrievable.
pub proof fn lemma_paper_enumeration_resilient(s: StoreV, j: int)
    requires
        0 <= j < paper_index_links(s).len(),
        paper_at(s, paper_index_links(s)[j]) is Some,
    ensures
        enumerate_papers(s).contains(paper_at(s, paper_index_links(s)[j])->Some_0),
{
    lemma_resolved_papers_contains_from(s, paper_index_links(s), 0, j);
}

/// As above, for the annotations of one paper.
pub proof fn lemma_annotation_enumeration_resilient(s: StoreV, paper: AddressV, j: int)
    requires
        0 <= j < annotation_links(s, paper).len(),
        annotation_at(s, annotation_links(s, paper)[j]) is Some,
    ensures
        enumerate_annotations(s, paper).contains(
            annotation_at(s, annotation_links(s, paper)[j])->Some_0,
        ),
{
    lemma_resolved_annotations_contains_from(s, annotation_links(s, paper), 0, j);
}

} // verus!
