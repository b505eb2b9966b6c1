use paperz::addressing::{addr_eq, anchor_address, Address, ANN_TAG, PAPER_TAG};
use paperz::bridge::{get_state_machine_data, Bridge};
use paperz::errors::{BridgeError, PaperzError};
use paperz::records::{Annotation, Paper, SensemakerEntry};
use paperz::registry::{
    annotation_anchor, create_annotation, get_all_papers, get_annotations_for_paper, paper_anchor,
    upload_paper,
};
use paperz::store::{CommitHash, Store};

fn paper(filename: &str, blob_str: &str) -> Paper {
    Paper { filename: filename.to_owned(), blob_str: blob_str.to_owned() }
}

fn annotation(paper_ref: Address, page: u64, para: u64, says: &str, should: &str) -> Annotation {
    Annotation {
        paper_ref,
        page_num: page,
        paragraph_num: para,
        what_it_says: says.to_owned(),
        what_it_should_say: should.to_owned(),
    }
}

#[test]
fn anchor_addressing_is_idempotent() {
    let a1 = anchor_address("paperz_paper");
    let a2 = anchor_address("paperz_paper");
    assert!(addr_eq(&a1, &a2));
    // across independent derivations and call sites too
    let a3 = paper_anchor();
    assert!(addr_eq(&a1, &a3));
    let b1 = annotation_anchor();
    let b2 = anchor_address(ANN_TAG);
    assert!(addr_eq(&b1, &b2));
    // distinct tags give distinct buckets
    assert!(!addr_eq(&a1, &b1));
}

#[test]
fn upload_then_enumerate_round_trips() {
    let mut store = Store::new();
    let p = paper("a.pdf", "QUJD");
    let hash = p.entry_hash();
    let commit = upload_paper(&mut store, p);
    assert!(commit.is_ok());
    let papers = get_all_papers(&store);
    let found = papers.iter().any(|(h, rec)| {
        addr_eq(h, &hash) && rec.filename == "a.pdf" && rec.blob_str == "QUJD"
    });
    assert!(found);
}

#[test]
fn upload_scenario_returns_exactly_one_paper() {
    let mut store = Store::new();
    let commit = upload_paper(&mut store, paper("a.pdf", "QUJD"));
    assert_eq!(commit.unwrap(), CommitHash(0));
    let papers = get_all_papers(&store);
    assert_eq!(papers.len(), 1);
    assert_eq!(papers[0].1.filename, "a.pdf");
    assert_eq!(papers[0].1.blob_str, "QUJD");
}

#[test]
fn duplicate_content_keeps_one_identity_under_two_links() {
    let mut store = Store::new();
    let hash = paper("dup.pdf", "AAAA").entry_hash();
    let c1 = upload_paper(&mut store, paper("dup.pdf", "AAAA")).unwrap();
    let c2 = upload_paper(&mut store, paper("dup.pdf", "AAAA")).unwrap();
    // identical content, two distinct write actions
    assert_ne!(c1, c2);
    // two edges in the paper index, both to the same content hash
    let links = store.get_links(&paper_anchor(), PAPER_TAG);
    assert_eq!(links.len(), 2);
    assert!(addr_eq(&links[0].target, &hash));
    assert!(addr_eq(&links[1].target, &hash));
    // both resolve to records with the same content hash
    let papers = get_all_papers(&store);
    assert_eq!(papers.len(), 2);
    assert!(addr_eq(&papers[0].0, &papers[1].0));
    assert_eq!(papers[0].1.filename, papers[1].1.filename);
}

#[test]
fn annotation_round_trips_from_its_paper() {
    let mut store = Store::new();
    let mut bridge = Bridge::new();
    let p = paper("b.pdf", "Qg==");
    let paper_hash = p.entry_hash();
    upload_paper(&mut store, p).unwrap();
    let a = annotation(paper_hash.duplicate(), 3, 1, "x", "y");
    let created = create_annotation(&mut store, &mut bridge, a);
    let (ann_hash, _commit) = created.unwrap();
    let anns = get_annotations_for_paper(&store, &paper_hash);
    let found = anns.iter().any(|(h, rec)| {
        addr_eq(h, &ann_hash)
            && addr_eq(&rec.paper_ref, &paper_hash)
            && rec.page_num == 3
            && rec.paragraph_num == 1
            && rec.what_it_says == "x"
            && rec.what_it_should_say == "y"
    });
    assert!(found);
}

#[test]
fn annotation_content_hash_differs_from_commit_hash_semantics() {
    // the same annotation content committed twice: one identity, two commits
    let mut store = Store::new();
    let mut bridge = Bridge::new();
    let target = paper("t.pdf", "AA==").entry_hash();
    let (h1, c1) =
        create_annotation(&mut store, &mut bridge, annotation(target.duplicate(), 1, 1, "s", "t"))
            .unwrap();
    let (h2, c2) =
        create_annotation(&mut store, &mut bridge, annotation(target.duplicate(), 1, 1, "s", "t"))
            .unwrap();
    assert!(addr_eq(&h1, &h2));
    assert_ne!(c1, c2);
}

#[test]
fn dangling_paper_ref_still_creates_and_indexes() {
    let mut store = Store::new();
    let mut bridge = Bridge::new();
    // no such paper was ever uploaded
    let absent_ref = paper("never-uploaded.pdf", "zzzz").entry_hash();
    let a = annotation(absent_ref.duplicate(), 7, 2, "says", "should");
    let created = create_annotation(&mut store, &mut bridge, a);
    assert!(created.is_ok());
    let (ann_hash, _) = created.unwrap();
    // discoverable from the absent paper's hash all the same
    let anns = get_annotations_for_paper(&store, &absent_ref);
    assert_eq!(anns.len(), 1);
    assert!(addr_eq(&anns[0].0, &ann_hash));
}

#[test]
fn enumeration_skips_unresolvable_targets() {
    let mut store = Store::new();
    let p1 = paper("one.pdf", "MQ==");
    let p2 = paper("two.pdf", "Mg==");
    let h1 = p1.entry_hash();
    upload_paper(&mut store, p1).unwrap();
    upload_paper(&mut store, p2).unwrap();
    // simulate a store failure resolving the first paper
    store.set_unavailable(h1);
    let papers = get_all_papers(&store);
    assert_eq!(papers.len(), 1);
    assert_eq!(papers[0].1.filename, "two.pdf");
}

#[test]
fn enumeration_skips_dangling_links() {
    let mut store = Store::new();
    upload_paper(&mut store, paper("kept.pdf", "a2VwdA==")).unwrap();
    // an edge whose target was never committed
    let bogus = paper("gone.pdf", "Z29uZQ==").entry_hash();
    store.create_link(paper_anchor(), bogus, PAPER_TAG).unwrap();
    let papers = get_all_papers(&store);
    assert_eq!(papers.len(), 1);
    assert_eq!(papers[0].1.filename, "kept.pdf");
}

#[test]
fn enumeration_skips_records_of_the_wrong_shape() {
    let mut store = Store::new();
    let mut bridge = Bridge::new();
    upload_paper(&mut store, paper("real.pdf", "cmVhbA==")).unwrap();
    // an annotation hash linked into the paper index resolves to the wrong
    // record shape and is skipped
    let target = paper("real.pdf", "cmVhbA==").entry_hash();
    let (ann_hash, _) =
        create_annotation(&mut store, &mut bridge, annotation(target, 1, 1, "a", "b")).unwrap();
    store.create_link(paper_anchor(), ann_hash, PAPER_TAG).unwrap();
    let papers = get_all_papers(&store);
    assert_eq!(papers.len(), 1);
    assert_eq!(papers[0].1.filename, "real.pdf");
}

#[test]
fn failed_commit_surfaces_store_write_error() {
    let mut store = Store::new();
    store.set_fail_writes(true);
    let r = upload_paper(&mut store, paper("a.pdf", "QUJD"));
    assert_eq!(r.unwrap_err(), PaperzError::StoreWriteError);
    // nothing was committed
    store.set_fail_writes(false);
    assert_eq!(get_all_papers(&store).len(), 0);
}

#[test]
fn missing_record_surfaces_store_read_error() {
    let store = Store::new();
    let absent = paper("none.pdf", "bm9uZQ==").entry_hash();
    let r = store.get_record(&absent);
    assert_eq!(r.unwrap_err(), PaperzError::StoreReadError);
}

#[test]
fn unretrievable_record_surfaces_store_read_error() {
    let mut store = Store::new();
    let p = paper("lagged.pdf", "bGFn");
    let h = p.entry_hash();
    upload_paper(&mut store, p).unwrap();
    store.set_unavailable(h.duplicate());
    let r = store.get_record(&h);
    assert_eq!(r.unwrap_err(), PaperzError::StoreReadError);
}

#[test]
fn bridge_failure_surfaces_after_local_write_persisted() {
    let mut store = Store::new();
    let mut bridge = Bridge::new();
    let p = paper("c.pdf", "Qw==");
    let paper_hash = p.entry_hash();
    upload_paper(&mut store, p).unwrap();
    bridge.set_fail_calls(true);
    let a = annotation(paper_hash.duplicate(), 3, 1, "x", "y");
    let r = create_annotation(&mut store, &mut bridge, a);
    assert_eq!(r.unwrap_err(), PaperzError::BridgeError(BridgeError::CallFailed));
    // the record and both links persisted despite the bridge failure
    let anns = get_annotations_for_paper(&store, &paper_hash);
    assert_eq!(anns.len(), 1);
    assert_eq!(anns[0].1.page_num, 3);
    assert_eq!(anns[0].1.paragraph_num, 1);
    assert_eq!(anns[0].1.what_it_says, "x");
    assert_eq!(anns[0].1.what_it_should_say, "y");
}

#[test]
fn state_machine_query_returns_hub_data() {
    let mut bridge = Bridge::new();
    let target = paper("q.pdf", "cQ==").entry_hash();
    let entry_addr = paper("q.pdf", "cQ==").entry_hash();
    bridge.set_state_machine_data(vec![(
        entry_addr,
        SensemakerEntry { payload: "sm-state".to_owned() },
    )]);
    let r = get_state_machine_data(&bridge, &target, Some("label".to_owned()));
    let data = r.unwrap();
    assert_eq!(data.len(), 1);
    assert_eq!(data[0].1.payload, "sm-state");
}

#[test]
fn state_machine_query_surfaces_call_failure() {
    let mut bridge = Bridge::new();
    bridge.set_fail_calls(true);
    let target = paper("q.pdf", "cQ==").entry_hash();
    let r = get_state_machine_data(&bridge, &target, None);
    assert_eq!(r.unwrap_err(), PaperzError::BridgeError(BridgeError::CallFailed));
}

#[test]
fn state_machine_query_maps_undecodable_response() {
    let mut bridge = Bridge::new();
    bridge.set_unexpected_response(true);
    let target = paper("q.pdf", "cQ==").entry_hash();
    let r = get_state_machine_data(&bridge, &target, None);
    assert_eq!(r.unwrap_err(), PaperzError::BridgeError(BridgeError::UnexpectedResponse));
}
