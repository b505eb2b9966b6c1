//! The module's view of the content-addressed store.
//!
//! Durable state lives in an external, replicated store; [`Store`] models
//! exactly what the indexing discipline reads and writes of it: committed
//! records keyed by content hash, the append-only tagged link index, the set
//! of addresses not currently retrievable (replication lag — a link may land
//! before its target is visible), and commit-failure injection.  Every
//! operation's contract is exact over this model, so readers of the registry
//! layer can see precisely which records a commit adds, which edges a link
//! creates, and what an enumeration must return.

use crate::addressing::{addr_eq, Address, AddressV};
use crate::errors::PaperzError;
use crate::records::{
    annotation_address, paper_address, Annotation, AnnotationV, Paper, PaperV,
};
use vstd::prelude::*;

verus! {

/// A record committed to the content store.
#[derive(Debug)]
pub enum Record {
    Paper(Paper),
    Annotation(Annotation),
}

/// Mathematical model of a [`Record`].
#[verifier::ext_equal]
pub enum RecordV {
    Paper(PaperV),
    Annotation(AnnotationV),
}

impl View for Record {
    type V = RecordV;

    open spec fn view(&self) -> RecordV {
        match self {
            Record::Paper(p) => RecordV::Paper(p@),
            Record::Annotation(a) => RecordV::Annotation(a@),
        }
    }
}

/// The content hash of a record, of whichever shape.
pub open spec fn record_address(r: RecordV) -> AddressV {
    match r {
        RecordV::Paper(p) => paper_address(p),
        RecordV::Annotation(a) => annotation_address(a),
    }
}

/// Content addressing is injective: records with the same hash are the same
/// record.
pub proof fn lemma_record_address_injective(r1: RecordV, r2: RecordV)
    requires
        record_address(r1) == record_address(r2),
    ensures
        r1 == r2,
{
    match (r1, r2) {
        (RecordV::Paper(p1), RecordV::Paper(p2)) => {
            assert(p1 =~= p2);
        },
        (RecordV::Annotation(a1), RecordV::Annotation(a2)) => {
            assert(a1 =~= a2);
        },
        _ => {},
    }
}

impl Record {
    /// Computes the record's content hash.
    pub fn content_hash(&self) -> (h: Address)
        ensures
            h@ == record_address(self@),
    {
        match self {
            Record::Paper(p) => p.entry_hash(),
            Record::Annotation(a) => a.entry_hash(),
        }
    }

    /// Copy with the same model.
    pub fn duplicate(&self) -> (r: Record)
        ensures
            r@ == self@,
    {
        match self {
            Record::Paper(p) => Record::Paper(p.duplicate()),
            Record::Annotation(a) => Record::Annotation(a.duplicate()),
        }
    }
}

/// Identifier of the write action that committed a record or a link: distinct
/// for every commit, even of identical content.  Returned to callers as
/// provenance; never used for lookup.
#[derive(Clone, Copy, Debug, PartialEq, Eq, Structural)]
pub struct CommitHash(pub u64);

/// A directed, tagged edge from one address to another.  Edges are append-only
/// and not deduplicated: linking twice with identical arguments leaves two
/// retrievable edges.
#[derive(Debug)]
pub struct Link {
    pub base: Address,
    pub target: Address,
    pub tag: String,
}

/// Mathematical model of a [`Link`].
#[verifier::ext_equal]
pub struct LinkV {
    pub base: AddressV,
    pub target: AddressV,
    pub tag: Seq<char>,
}

impl View for Link {
    type V = LinkV;

    open spec fn view(&self) -> LinkV {
        LinkV { base: self.base@, target: self.target@, tag: self.tag@ }
    }
}

pub open spec fn link_v(base: AddressV, target: AddressV, tag: Seq<char>) -> LinkV {
    LinkV { base, target, tag }
}

pub open spec fn entry_pairs_view(v: Seq<(Address, Record)>) -> Seq<(AddressV, RecordV)> {
    v.map_values(|p: (Address, Record)| (p.0@, p.1@))
}

pub open spec fn links_view(v: Seq<Link>) -> Seq<LinkV> {
    v.map_values(|l: Link| l@)
}

pub open spec fn addrs_view(v: Seq<Address>) -> Seq<AddressV> {
    v.map_values(|a: Address| a@)
}

/// First committed record under address `a`, scanning from index `i`.
pub open spec fn lookup_from(entries: Seq<(AddressV, RecordV)>, a: AddressV, i: int) -> Option<
    RecordV,
>
    decreases entries.len() - i,
{
    if i < 0 || i >= entries.len() {
        None
    } else if entries[i].0 == a {
        Some(entries[i].1)
    } else {
        lookup_from(entries, a, i + 1)
    }
}

/// The record committed under address `a`, if any.
pub open spec fn lookup(entries: Seq<(AddressV, RecordV)>, a: AddressV) -> Option<RecordV> {
    lookup_from(entries, a, 0)
}

/// Does a link match a `(source, tag)` query?
pub open spec fn link_matches(l: LinkV, base: AddressV, tag: Seq<char>) -> bool {
    l.base == base && l.tag == tag
}

/// The links matching `(base, tag)` from index `i` on, in index order.
pub open spec fn links_from_idx(
    links: Seq<LinkV>,
    base: AddressV,
    tag: Seq<char>,
    i: int,
) -> Seq<LinkV>
    decreases links.len() - i,
{
    if i < 0 || i >= links.len() {
        Seq::empty()
    } else {
        let rest = links_from_idx(links, base, tag, i + 1);
        if link_matches(links[i], base, tag) {
            seq![links[i]] + rest
        } else {
            rest
        }
    }
}

/// All links with source `base` and tag `tag`, in the order they were created.
pub open spec fn links_from(links: Seq<LinkV>, base: AddressV, tag: Seq<char>) -> Seq<LinkV> {
    links_from_idx(links, base, tag, 0)
}

/// Appending a link extends the matching-link list by that link exactly when
/// it matches the query.
pub proof fn lemma_links_from_push(links: Seq<LinkV>, l: LinkV, base: AddressV, tag: Seq<char>)
    ensures
        links_from(links.push(l), base, tag) == if link_matches(l, base, tag) {
            links_from(links, base, tag).push(l)
        } else {
            links_from(links, base, tag)
        },
{
    lemma_links_from_idx_push(links, l, base, tag, 0);
}

proof fn lemma_links_from_idx_push(
    links: Seq<LinkV>,
    l: LinkV,
    base: AddressV,
    tag: Seq<char>,
    i: int,
)
    requires
        0 <= i <= links.len(),
    ensures
        links_from_idx(links.push(l), base, tag, i) == if link_matches(l, base, tag) {
            links_from_idx(links, base, tag, i).push(l)
        } else {
            links_from_idx(links, base, tag, i)
        },
    decreases links.len() - i,
{
    let pushed = links.push(l);
    if i == links.len() {
        assert(links_from_idx(links, base, tag, i) == Seq::<LinkV>::empty());
        assert(pushed[i] == l);
        assert(links_from_idx(pushed, base, tag, i + 1) == Seq::<LinkV>::empty());
        if link_matches(l, base, tag) {
            assert(links_from_idx(pushed, base, tag, i) =~= Seq::<LinkV>::empty().push(l));
        }
    } else {
        lemma_links_from_idx_push(links, l, base, tag, i + 1);
        assert(pushed[i] == links[i]);
        if link_matches(links[i], base, tag) {
            if link_matches(l, base, tag) {
                assert(links_from_idx(pushed, base, tag, i) =~= links_from_idx(
                    links,
                    base,
                    tag,
                    i,
                ).push(l));
            }
        }
    }
}

/// Mathematical model of a [`Store`].
#[verifier::ext_equal]
pub struct StoreV {
    /// Committed records, keyed by content hash, in commit order.
    pub entries: Seq<(AddressV, RecordV)>,
    /// The append-only link index.
    pub links: Seq<LinkV>,
    /// Addresses whose records are not currently retrievable.
    pub unavailable: Seq<AddressV>,
    /// While set, every commit fails.
    pub fail_writes: bool,
    /// Number of write actions performed; the source of commit hashes.
    pub actions: u64,
}

impl StoreV {
    pub open spec fn empty() -> StoreV {
        StoreV {
            entries: Seq::empty(),
            links: Seq::empty(),
            unavailable: Seq::empty(),
            fail_writes: false,
            actions: 0,
        }
    }

    /// Every committed entry is keyed by its record's content hash.
    pub open spec fn wf(self) -> bool {
        forall|i: int|
            0 <= i < self.entries.len() ==> (#[trigger] self.entries[i]).0 == record_address(
                self.entries[i].1,
            )
    }

    /// Can one more write action be committed?
    pub open spec fn commit_ok(self) -> bool {
        !self.fail_writes && self.actions < u64::MAX
    }

    /// The record a read of `a` yields: none while `a` is unretrievable or
    /// nothing was committed under it.
    pub open spec fn resolve(self, a: AddressV) -> Option<RecordV> {
        if self.unavailable.contains(a) {
            None
        } else {
            lookup(self.entries, a)
        }
    }

    /// State after committing record `r`.
    pub open spec fn with_entry(self, r: RecordV) -> StoreV {
        StoreV {
            entries: self.entries.push((record_address(r), r)),
            actions: (self.actions + 1) as u64,
            ..self
        }
    }

    /// State after committing link `l`.
    pub open spec fn with_link(self, l: LinkV) -> StoreV {
        StoreV { links: self.links.push(l), actions: (self.actions + 1) as u64, ..self }
    }

    pub open spec fn with_fail_writes(self, fail: bool) -> StoreV {
        StoreV { fail_writes: fail, ..self }
    }

    pub open spec fn with_unavailable(self, a: AddressV) -> StoreV {
        StoreV { unavailable: self.unavailable.push(a), ..self }
    }
}

/// After committing `r`, its hash resolves to `r` itself — also when equal
/// content was already committed, since equal hashes mean equal records.
pub proof fn lemma_lookup_after_with_entry(s: StoreV, r: RecordV)
    requires
        s.wf(),
    ensures
        s.with_entry(r).wf(),
        lookup(s.with_entry(r).entries, record_address(r)) == Some(r),
{
    let a = record_address(r);
    let pushed = s.entries.push((a, r));
    lemma_lookup_from_push(s.entries, (a, r), a, 0);
    match lookup(s.entries, a) {
        Some(r2) => {
            lemma_lookup_from_found(s.entries, a, 0);
            lemma_record_address_injective(r2, r);
        },
        None => {},
    }
}

/// Looking up in `entries.push(p)`: an existing binding wins; otherwise the
/// pushed pair answers exactly the queries for its own key.
proof fn lemma_lookup_from_push(
    entries: Seq<(AddressV, RecordV)>,
    p: (AddressV, RecordV),
    a: AddressV,
    i: int,
)
    requires
        0 <= i <= entries.len(),
    ensures
        lookup_from(entries.push(p), a, i) == match lookup_from(entries, a, i) {
            Some(r) => Some(r),
            None => if p.0 == a {
                Some(p.1)
            } else {
                None
            },
        },
    decreases entries.len() - i,
{
    let pushed = entries.push(p);
    if i == entries.len() {
        assert(pushed[i] == p);
    } else {
        assert(pushed[i] == entries[i]);
        lemma_lookup_from_push(entries, p, a, i + 1);
    }
}

/// A successful lookup returns a record stored under the queried address.
proof fn lemma_lookup_from_found(entries: Seq<(AddressV, RecordV)>, a: AddressV, i: int)
    requires
        0 <= i,
        lookup_from(entries, a, i) is Some,
    ensures
        exists|k: int|
            i <= k < entries.len() && (#[trigger] entries[k]).0 == a && entries[k].1
                == lookup_from(entries, a, i)->Some_0,
    decreases entries.len() - i,
{
    if i < entries.len() {
        if entries[i].0 == a {
        } else {
            lemma_lookup_from_found(entries, a, i + 1);
        }
    }
}

/// The module's view of the external content-addressed store, with failure
/// injection for what the environment can do to it: refuse commits, or hold a
/// committed record out of reach of readers for a while.
pub struct Store {
    entries: Vec<(Address, Record)>,
    links: Vec<Link>,
    unavailable: Vec<Address>,
    fail_writes: bool,
    actions: u64,
}

impl View for Store {
    type V = StoreV;

    closed spec fn view(&self) -> StoreV {
        StoreV {
            entries: entry_pairs_view(self.entries@),
            links: links_view(self.links@),
            unavailable: addrs_view(self.unavailable@),
            fail_writes: self.fail_writes,
            actions: self.actions,
        }
    }
}

impl Store {
    /// A store with nothing committed.
    pub fn new() -> (s: Store)
        ensures
            s@ == StoreV::empty(),
            s@.wf(),
    {
        let s = Store {
            entries: Vec::new(),
            links: Vec::new(),
            unavailable: Vec::new(),
            fail_writes: false,
            actions: 0,
        };
        proof {
            assert(s@ =~= StoreV::empty());
        }
        s
    }

    /// Injects (or clears) commit failure: while set, every commit fails with
    /// a write error.
    pub fn set_fail_writes(&mut self, fail: bool)
        ensures
            final(self)@ == old(self)@.with_fail_writes(fail),
    {
        self.fail_writes = fail;
        proof {
            assert(self@ =~= old(self)@.with_fail_writes(fail));
        }
    }

    /// Marks `a` unretrievable for readers, as replication lag would: links to
    /// it stay visible, resolving it fails until the store catches up.
    pub fn set_unavailable(&mut self, a: Address)
        ensures
            final(self)@ == old(self)@.with_unavailable(a@),
    {
        self.unavailable.push(a);
        proof {
            assert(addrs_view(self.unavailable@) =~= addrs_view(
                old(self).unavailable@,
            ).push(a@));
            assert(self@ =~= old(self)@.with_unavailable(a@));
        }
    }

    /// Commits a record and returns the commit hash of the write action.
    pub fn create_entry(&mut self, record: Record) -> (r: Result<CommitHash, PaperzError>)
        ensures
            old(self)@.commit_ok() ==> r == Ok::<CommitHash, PaperzError>(
                CommitHash(old(self)@.actions),
            ) && final(self)@ == old(self)@.with_entry(record@),
            !old(self)@.commit_ok() ==> r == Err::<CommitHash, PaperzError>(
                PaperzError::StoreWriteError,
            ) && final(self)@ == old(self)@,
            old(self)@.wf() ==> final(self)@.wf(),
    {
        if self.fail_writes || self.actions == u64::MAX {
            return Err(PaperzError::StoreWriteError);
        }
        let commit = CommitHash(self.actions);
        let hash = record.content_hash();
        let ghost rv = record@;
        self.entries.push((hash, record));
        self.actions = self.actions + 1;
        proof {
            assert(entry_pairs_view(self.entries@) =~= entry_pairs_view(
                old(self).entries@,
            ).push((record_address(rv), rv)));
            assert(self@ =~= old(self)@.with_entry(rv));
        }
        Ok(commit)
    }

    /// Commits a directed, tagged edge and returns the commit hash of the
    /// write action.  Duplicate edges are allowed and each is kept.
    pub fn create_link(&mut self, base: Address, target: Address, tag: &str) -> (r: Result<
        CommitHash,
        PaperzError,
    >)
        ensures
            old(self)@.commit_ok() ==> r == Ok::<CommitHash, PaperzError>(
                CommitHash(old(self)@.actions),
            ) && final(self)@ == old(self)@.with_link(link_v(base@, target@, tag@)),
            !old(self)@.commit_ok() ==> r == Err::<CommitHash, PaperzError>(
                PaperzError::StoreWriteError,
            ) && final(self)@ == old(self)@,
            old(self)@.wf() ==> final(self)@.wf(),
    {
        if self.fail_writes || self.actions == u64::MAX {
            return Err(PaperzError::StoreWriteError);
        }
        let commit = CommitHash(self.actions);
        let link = Link { base, target, tag: tag.to_owned() };
        proof {
            assert(links_view(self.links@.push(link)) =~= links_view(self.links@).push(link@));
        }
        self.links.push(link);
        self.actions = self.actions + 1;
        proof {
            assert(self@ =~= old(self)@.with_link(link_v(base@, target@, tag@)));
        }
        Ok(commit)
    }

    /// Is `a` currently unretrievable?
    fn is_unavailable(&self, a: &Address) -> (b: bool)
        ensures
            b == self@.unavailable.contains(a@),
    {
        let mut i: usize = 0;
        while i < self.unavailable.len()
            invariant
                0 <= i <= self.unavailable.len(),
                forall|j: int| 0 <= j < i ==> self@.unavailable[j] != a@,
            decreases self.unavailable.len() - i,
        {
            if addr_eq(&self.unavailable[i], a) {
                assert(self@.unavailable[i as int] == a@);
                return true;
            }
            i = i + 1;
        }
        false
    }

    /// Resolves an address to the record committed under it.  Fails with a
    /// read error while the address is unretrievable, or when nothing was
    /// committed under it (a dangling link's target).
    pub fn get_record(&self, a: &Address) -> (r: Result<Record, PaperzError>)
        ensures
            self@.resolve(a@) matches Some(rv) ==> r matches Ok(rec) && rec@ == rv,
            self@.resolve(a@) is None ==> r == Err::<Record, PaperzError>(
                PaperzError::StoreReadError,
            ),
    {
        if self.is_unavailable(a) {
            return Err(PaperzError::StoreReadError);
        }
        let entries_len = self.entries.len();
        let mut i: usize = 0;
        while i < entries_len
            invariant
                0 <= i <= entries_len,
                entries_len == self.entries.len(),
                !self@.unavailable.contains(a@),
                lookup(self@.entries, a@) == lookup_from(self@.entries, a@, i as int),
            decreases entries_len - i,
        {
            if addr_eq(&self.entries[i].0, a) {
                assert(self@.entries[i as int].0 == a@);
                return Ok(self.entries[i].1.duplicate());
            }
            assert(self@.entries[i as int].0 != a@);
            i = i + 1;
        }
        Err(PaperzError::StoreReadError)
    }

    /// Lists every edge with source `base` and tag `tag`, in creation order.
    /// Never fails: an unused source simply has no edges.
    pub fn get_links(&self, base: &Address, tag: &str) -> (r: Vec<Link>)
        ensures
            links_view(r@) == links_from(self@.links, base@, tag@),
    {
        let tag_owned: String = tag.to_owned();
        let links_len = self.links.len();
        let mut out: Vec<Link> = Vec::new();
        let mut i: usize = 0;
        while i < links_len
            invariant
                0 <= i <= links_len,
                links_len == self.links.len(),
                tag_owned@ == tag@,
                links_from(self@.links, base@, tag@) =~= links_view(out@) + links_from_idx(
                    self@.links,
                    base@,
                    tag@,
                    i as int,
                ),
            decreases links_len - i,
        {
            let l = &self.links[i];
            assert(self@.links[i as int] == l@);
            if addr_eq(&l.base, base) && l.tag == tag_owned {
                let ghost prev = links_view(out@);
                out.push(
                    Link {
                        base: l.base.duplicate(),
                        target: l.target.duplicate(),
                        tag: l.tag.clone(),
                    },
                );
                proof {
                    assert(links_view(out@) =~= prev.push(self@.links[i as int]));
                    assert(links_view(out@) + links_from_idx(self@.links, base@, tag@, i + 1)
                        =~= prev + links_from_idx(self@.links, base@, tag@, i as int));
                }
            }
            i = i + 1;
        }
        proof {
            assert(links_from_idx(self@.links, base@, tag@, links_len as int)
                =~= Seq::<LinkV>::empty());
            assert(links_view(out@) =~= links_from(self@.links, base@, tag@));
        }
        out
    }
}

} // verus!
