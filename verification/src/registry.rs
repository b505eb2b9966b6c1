//! The record registry: validated creation and whole-collection retrieval for
//! the two record shapes.
//!
//! Creation commits a record and then links it from the appropriate anchor(s);
//! the commit-then-link order is what lets readers treat a link whose target
//! is not yet visible as transient.  Retrieval is best-effort enumeration:
//! list the links of an anchor (or of a paper), resolve each target, and skip
//! — never surface — the elements that do not resolve.

use crate::addressing::{anchor_address, anchor_address_spec, Address, AddressV, ANN_TAG, PAPER_TAG};
use crate::bridge::Bridge;
use crate::errors::PaperzError;
use crate::records::{
    annotation_address, paper_address, Annotation, AnnotationV, Paper, PaperV,
};
use crate::store::{
    link_v, links_from, links_view, CommitHash, LinkV, Record, RecordV, Store, StoreV,
};
use vstd::prelude::*;

verus! {

pub open spec fn paper_tag() -> Seq<char> {
    PAPER_TAG@
}

pub open spec fn ann_tag() -> Seq<char> {
    ANN_TAG@
}

/// Address of the paper-index anchor.
pub open spec fn paper_anchor_addr() -> AddressV {
    anchor_address_spec(paper_tag())
}

/// Address of the annotation-index anchor.
pub open spec fn annotation_anchor_addr() -> AddressV {
    anchor_address_spec(ann_tag())
}

/// Derives the paper-index anchor: a pure function of its tag, so every
/// caller reaches the same bucket.
pub fn paper_anchor() -> (a: Address)
    ensures
        a@ == paper_anchor_addr(),
{
    anchor_address(PAPER_TAG)
}

/// Derives the annotation-index anchor.
pub fn annotation_anchor() -> (a: Address)
    ensures
        a@ == annotation_anchor_addr(),
{
    anchor_address(ANN_TAG)
}

/// The index edge an uploaded paper gets: paper anchor -> content hash.
pub open spec fn paper_link(p: PaperV) -> LinkV {
    link_v(paper_anchor_addr(), paper_address(p), paper_tag())
}

/// Uploading needs two commits: the record and its anchor edge.
pub open spec fn upload_ok(s: StoreV, p: PaperV) -> bool {
    !s.fail_writes && s.actions + 2 <= u64::MAX
}

/// Store state after a successful upload of `p`.
pub open spec fn upload_next(s: StoreV, p: PaperV) -> StoreV {
    s.with_entry(RecordV::Paper(p)).with_link(paper_link(p))
}

/// Commits the paper, computes its content hash, and links the hash from the
/// paper anchor.  Returns the commit hash of the write that created the
/// record; lookups use the content hash, never this value.
///
/// A failed commit is surfaced as a write error and not retried.  When the
/// record commits but the link does not, the record stays committed without
/// an index edge — creation is not atomic as a unit.
pub fn upload_paper(store: &mut Store, paper: Paper) -> (r: Result<CommitHash, PaperzError>)
    ensures
        upload_ok(old(store)@, paper@) ==> r == Ok::<CommitHash, PaperzError>(
            CommitHash(old(store)@.actions),
        ) && final(store)@ == upload_next(old(store)@, paper@),
        !old(store)@.commit_ok() ==> r == Err::<CommitHash, PaperzError>(
            PaperzError::StoreWriteError,
        ) && final(store)@ == old(store)@,
        old(store)@.commit_ok() && !upload_ok(old(store)@, paper@) ==> r == Err::<
            CommitHash,
            PaperzError,
        >(PaperzError::StoreWriteError) && final(store)@ == old(store)@.with_entry(
            RecordV::Paper(paper@),
        ),
        old(store)@.wf() ==> final(store)@.wf(),
{
    let paper_eh = paper.entry_hash();
    let paper_hh = match store.create_entry(Record::Paper(paper)) {
        Ok(h) => h,
        Err(e) => {
            return Err(e);
        },
    };
    let anchor = paper_anchor();
    match store.create_link(anchor, paper_eh, PAPER_TAG) {
        Ok(_) => Ok(paper_hh),
        Err(e) => Err(e),
    }
}

/// What an enumeration of the paper index yields for one link: the target and
/// its record, provided the target currently resolves to a paper.
pub open spec fn paper_at(s: StoreV, l: LinkV) -> Option<(AddressV, PaperV)> {
    match s.resolve(l.target) {
        Some(RecordV::Paper(p)) => Some((l.target, p)),
        _ => None,
    }
}

/// The resolvable papers among the links from index `i` on, in link order.
pub open spec fn resolved_papers_idx(s: StoreV, ls: Seq<LinkV>, i: int) -> Seq<
    (AddressV, PaperV),
>
    decreases ls.len() - i,
{
    if i < 0 || i >= ls.len() {
        Seq::empty()
    } else {
        let rest = resolved_papers_idx(s, ls, i + 1);
        match paper_at(s, ls[i]) {
            Some(pair) => seq![pair] + rest,
            None => rest,
        }
    }
}

/// The links of the paper index: edges from the paper anchor with the paper
/// tag.
pub open spec fn paper_index_links(s: StoreV) -> Seq<LinkV> {
    links_from(s.links, paper_anchor_addr(), paper_tag())
}

/// Everything an enumeration of all papers must return: each paper-index link
/// whose target currently resolves to a paper, as `(content hash, record)`,
/// in link order; unresolvable elements are skipped.
pub open spec fn enumerate_papers(s: StoreV) -> Seq<(AddressV, PaperV)> {
    resolved_papers_idx(s, paper_index_links(s), 0)
}

pub open spec fn papers_view(v: Seq<(Address, Paper)>) -> Seq<(AddressV, PaperV)> {
    v.map_values(|p: (Address, Paper)| (p.0@, p.1@))
}

/// Lists the paper index and resolves each target, skipping any element that
/// does not currently resolve — a dangling edge, a not-yet-visible record, or
/// a record of the wrong shape never aborts enumeration.  The result is a
/// lower bound on the stored papers, never an error.
pub fn get_all_papers(store: &Store) -> (r: Vec<(Address, Paper)>)
    ensures
        papers_view(r@) == enumerate_papers(store@),
{
    let anchor = paper_anchor();
    let links = store.get_links(&anchor, PAPER_TAG);
    let ghost fl = links_view(links@);
    proof {
        assert(fl == paper_index_links(store@));
    }
    let links_len = links.len();
    let mut out: Vec<(Address, Paper)> = Vec::new();
    let mut i: usize = 0;
    while i < links_len
        invariant
            0 <= i <= links_len,
            links_len == links.len(),
            links_view(links@) == fl,
            fl == paper_index_links(store@),
            resolved_papers_idx(store@, fl, 0) =~= papers_view(out@) + resolved_papers_idx(
                store@,
                fl,
                i as int,
            ),
        decreases links_len - i,
    {
        let target = &links[i].target;
        proof {
            assert(fl[i as int] == links@[i as int]@);
        }
        match store.get_record(target) {
            Ok(rec) => match rec {
                Record::Paper(p) => {
                    let ghost prev = papers_view(out@);
                    let ghost pair = (target@, p@);
                    out.push((target.duplicate(), p));
                    proof {
                        assert(papers_view(out@) =~= prev.push(pair));
                        assert(paper_at(store@, fl[i as int]) == Some(pair));
                        assert(papers_view(out@) + resolved_papers_idx(store@, fl, i + 1)
                            =~= prev + resolved_papers_idx(store@, fl, i as int));
                    }
                },
                Record::Annotation(_) => {
                    proof {
                        assert(paper_at(store@, fl[i as int]) is None);
                    }
                },
            },
            Err(_) => {
                proof {
                    assert(store@.resolve(fl[i as int].target) is None);
                    assert(paper_at(store@, fl[i as int]) is None);
                }
            },
        }
        i = i + 1;
    }
    proof {
        assert(resolved_papers_idx(store@, fl, links_len as int) =~= Seq::<
            (AddressV, PaperV),
        >::empty());
        assert(papers_view(out@) =~= enumerate_papers(store@));
    }
    out
}

/// The global index edge a new annotation gets: annotation anchor -> hash.
pub open spec fn annotation_anchor_link(a: AnnotationV) -> LinkV {
    link_v(annotation_anchor_addr(), annotation_address(a), ann_tag())
}

/// The per-paper index edge a new annotation gets: annotated paper -> hash.
/// Its source is the referenced paper's content hash used directly as a link
/// base, not an anchor.
pub open spec fn annotation_paper_link(a: AnnotationV) -> LinkV {
    link_v(a.paper_ref, annotation_address(a), ann_tag())
}

/// Creating an annotation needs three commits: the record and its two edges.
pub open spec fn create_annotation_ok(s: StoreV, a: AnnotationV) -> bool {
    !s.fail_writes && s.actions + 3 <= u64::MAX
}

/// Store state after the local part of annotation creation: the record, the
/// global-anchor edge, then the paper edge.
pub open spec fn create_annotation_next(s: StoreV, a: AnnotationV) -> StoreV {
    s.with_entry(RecordV::Annotation(a)).with_link(annotation_anchor_link(a)).with_link(
        annotation_paper_link(a),
    )
}

/// Commits the annotation, links its content hash from the annotation anchor
/// and from the annotated paper's hash, then notifies the hub of the new
/// hash.
///
/// Nothing checks that `paper_ref` resolves: a dangling reference commits and
/// indexes like any other, as the success condition shows, and only surfaces
/// when someone resolves it.  A bridge failure is surfaced as the call's
/// error even though the record and both edges already persisted — there is
/// no compensating transaction, so the caller must treat that error as
/// ambiguous about indexing, which did happen.  A write failure between the
/// three commits leaves the partial states the contract names: a record with
/// no edge, or one discoverable globally but not from its paper.
pub fn create_annotation(store: &mut Store, bridge: &mut Bridge, annotation: Annotation) -> (r:
    Result<(Address, CommitHash), PaperzError>)
    ensures
        create_annotation_ok(old(store)@, annotation@) && !old(bridge)@.fail_calls ==> (r
            matches Ok(pair) && pair.0@ == annotation_address(annotation@) && pair.1
            == CommitHash(old(store)@.actions) && final(store)@ == create_annotation_next(
            old(store)@,
            annotation@,
        ) && final(bridge)@ == old(bridge)@.with_notified(annotation_address(annotation@))),
        create_annotation_ok(old(store)@, annotation@) && old(bridge)@.fail_calls ==> (r
            == Err::<(Address, CommitHash), PaperzError>(
            PaperzError::BridgeError(crate::errors::BridgeError::CallFailed),
        ) && final(store)@ == create_annotation_next(old(store)@, annotation@)
            && final(bridge)@ == old(bridge)@),
        !old(store)@.commit_ok() ==> (r == Err::<(Address, CommitHash), PaperzError>(
            PaperzError::StoreWriteError,
        ) && final(store)@ == old(store)@ && final(bridge)@ == old(bridge)@),
        old(store)@.commit_ok() && old(store)@.actions + 2 > u64::MAX ==> (r == Err::<
            (Address, CommitHash),
            PaperzError,
        >(PaperzError::StoreWriteError) && final(store)@ == old(store)@.with_entry(
            RecordV::Annotation(annotation@),
        ) && final(bridge)@ == old(bridge)@),
        old(store)@.actions + 2 <= u64::MAX && !create_annotation_ok(old(store)@, annotation@)
            && old(store)@.commit_ok() ==> (r == Err::<(Address, CommitHash), PaperzError>(
            PaperzError::StoreWriteError,
        ) && final(store)@ == old(store)@.with_entry(RecordV::Annotation(annotation@)).with_link(
            annotation_anchor_link(annotation@),
        ) && final(bridge)@ == old(bridge)@),
        old(store)@.wf() ==> final(store)@.wf(),
{
    let annotation_eh = annotation.entry_hash();
    let paper_ref = annotation.paper_ref.duplicate();
    let annotation_hh = match store.create_entry(Record::Annotation(annotation)) {
        Ok(h) => h,
        Err(e) => {
            return Err(e);
        },
    };
    let anchor = annotation_anchor();
    match store.create_link(anchor, annotation_eh.duplicate(), ANN_TAG) {
        Ok(_) => {},
        Err(e) => {
            return Err(e);
        },
    }
    match store.create_link(paper_ref, annotation_eh.duplicate(), ANN_TAG) {
        Ok(_) => {},
        Err(e) => {
            return Err(e);
        },
    }
    match bridge.notify_annotation_created(annotation_eh.duplicate()) {
        Ok(_) => {},
        Err(e) => {
            return Err(e);
        },
    }
    Ok((annotation_eh, annotation_hh))
}

/// What an enumeration of a paper's annotations yields for one link.
pub open spec fn annotation_at(s: StoreV, l: LinkV) -> Option<(AddressV, AnnotationV)> {
    match s.resolve(l.target) {
        Some(RecordV::Annotation(a)) => Some((l.target, a)),
        _ => None,
    }
}

/// The resolvable annotations among the links from index `i` on.
pub open spec fn resolved_annotations_idx(s: StoreV, ls: Seq<LinkV>, i: int) -> Seq<
    (AddressV, AnnotationV),
>
    decreases ls.len() - i,
{
    if i < 0 || i >= ls.len() {
        Seq::empty()
    } else {
        let rest = resolved_annotations_idx(s, ls, i + 1);
        match annotation_at(s, ls[i]) {
            Some(pair) => seq![pair] + rest,
            None => rest,
        }
    }
}

/// The annotation edges of one paper: links based at the paper's content
/// hash with the annotation tag.
pub open spec fn annotation_links(s: StoreV, paper: AddressV) -> Seq<LinkV> {
    links_from(s.links, paper, ann_tag())
}

/// Everything an enumeration of a paper's annotations must return.
pub open spec fn enumerate_annotations(s: StoreV, paper: AddressV) -> Seq<
    (AddressV, AnnotationV),
> {
    resolved_annotations_idx(s, annotation_links(s, paper), 0)
}

pub open spec fn annotations_view(v: Seq<(Address, Annotation)>) -> Seq<
    (AddressV, AnnotationV),
> {
    v.map_values(|p: (Address, Annotation)| (p.0@, p.1@))
}

/// Lists the annotation edges based at `paper_entry_hash` and resolves each
/// target, with the same skip-on-failure policy as [`get_all_papers`].
pub fn get_annotations_for_paper(store: &Store, paper_entry_hash: &Address) -> (r: Vec<
    (Address, Annotation),
>)
    ensures
        annotations_view(r@) == enumerate_annotations(store@, paper_entry_hash@),
{
    let links = store.get_links(paper_entry_hash, ANN_TAG);
    let ghost fl = links_view(links@);
    proof {
        assert(fl == annotation_links(store@, paper_entry_hash@));
    }
    let links_len = links.len();
    let mut out: Vec<(Address, Annotation)> = Vec::new();
    let mut i: usize = 0;
    while i < links_len
        invariant
            0 <= i <= links_len,
            links_len == links.len(),
            links_view(links@) == fl,
            fl == annotation_links(store@, paper_entry_hash@),
            resolved_annotations_idx(store@, fl, 0) =~= annotations_view(out@)
                + resolved_annotations_idx(store@, fl, i as int),
        decreases links_len - i,
    {
        let target = &links[i].target;
        proof {
            assert(fl[i as int] == links@[i as int]@);
        }
        match store.get_record(target) {
            Ok(rec) => match rec {
                Record::Annotation(a) => {
                    let ghost prev = annotations_view(out@);
                    let ghost pair = (target@, a@);
                    out.push((target.duplicate(), a));
                    proof {
                        assert(annotations_view(out@) =~= prev.push(pair));
                        assert(annotation_at(store@, fl[i as int]) == Some(pair));
                        assert(annotations_view(out@) + resolved_annotations_idx(
                            store@,
                            fl,
                            i + 1,
                        ) =~= prev + resolved_annotations_idx(store@, fl, i as int));
                    }
                },
                Record::Paper(_) => {
                    proof {
                        assert(annotation_at(store@, fl[i as int]) is None);
                    }
                },
            },
            Err(_) => {
                proof {
                    assert(store@.resolve(fl[i as int].target) is None);
                    assert(annotation_at(store@, fl[i as int]) is None);
                }
            },
        }
        i = i + 1;
    }
    proof {
        assert(resolved_annotations_idx(store@, fl, links_len as int) =~= Seq::<
            (AddressV, AnnotationV),
        >::empty());
        assert(annotations_view(out@) =~= enumerate_annotations(store@, paper_entry_hash@));
    }
    out
}

} // verus!
