//! The resolved state of a DID: its document (public keys, service
//! endpoints, controller link) and the ledger-attached document metadata
//! (key commitments and an optional controller proof).  A document is never
//! mutated locally, only replaced by re-resolution.
//!
//! Documents are signed over a byte-stable canonical form covering the
//! DID, the controller link and the service entries: two equal documents
//! canonicalize identically, and the canonical form exists exactly when
//! those fields are clean (free of the quote and backslash characters the
//! form reserves).  Public keys are bound to a document by the ledger's
//! key commitments, not by the controller's signature.

use vstd::prelude::*;

verus! {

/// A service endpoint entry of a document.  The controller-proof service
/// carries the attesting controller's DID and the proof value.
#[derive(Debug, PartialEq, Eq)]
pub struct Service {
    pub id: String,
    pub service_type: String,
    pub controller: Option<String>,
    pub proof_value: Option<String>,
}

/// The resolved public state of a DID.
#[derive(Debug, PartialEq, Eq)]
pub struct Document {
    /// The DID this document belongs to.
    pub did: String,
    /// At most one parent DID that controls this document.
    pub controller: Option<String>,
    /// Public keys of the DID subject, as JWK strings.
    pub public_keys: Vec<String>,
    /// Service endpoints, including an optional controller-proof service.
    pub services: Vec<Service>,
}

/// The proof property a controller attaches to a controlled document's
/// metadata once it has attested.
#[derive(Debug, PartialEq, Eq)]
pub struct MetadataProof {
    /// DID of the attesting controller.
    pub controller: String,
    /// The detached signature over the document's canonical form.
    pub proof_value: String,
}

/// Ledger-attached metadata for a document: the commitments the ledger
/// records for the document's keys, and the optional controller proof.
#[derive(Debug, PartialEq, Eq)]
pub struct DocumentMetadata {
    /// Commitment the next update key must match (also checked for the
    /// current update key).
    pub update_commitment: Option<String>,
    /// Commitment the recovery key must match.
    pub recovery_commitment: Option<String>,
    /// Present once a controller has attested this document.
    pub proof: Option<MetadataProof>,
}

#[verifier::ext_equal]
pub struct ServiceView {
    pub id: Seq<char>,
    pub service_type: Seq<char>,
    pub controller: Option<Seq<char>>,
    pub proof_value: Option<Seq<char>>,
}

#[verifier::ext_equal]
pub struct DocumentView {
    pub did: Seq<char>,
    pub controller: Option<Seq<char>>,
    pub public_keys: Seq<Seq<char>>,
    pub services: Seq<ServiceView>,
}

#[verifier::ext_equal]
pub struct MetadataProofView {
    pub controller: Seq<char>,
    pub proof_value: Seq<char>,
}

#[verifier::ext_equal]
pub struct DocumentMetadataView {
    pub update_commitment: Option<Seq<char>>,
    pub recovery_commitment: Option<Seq<char>>,
    pub proof: Option<MetadataProofView>,
}

pub open spec fn opt_view(o: Option<String>) -> Option<Seq<char>> {
    match o {
        Some(s) => Some(s@),
        None => None,
    }
}

impl View for Service {
    type V = ServiceView;

    open spec fn view(&self) -> ServiceView {
        ServiceView {
            id: self.id@,
            service_type: self.service_type@,
            controller: opt_view(self.controller),
            proof_value: opt_view(self.proof_value),
        }
    }
}

impl View for Document {
    type V = DocumentView;

    open spec fn view(&self) -> DocumentView {
        DocumentView {
            did: self.did@,
            controller: opt_view(self.controller),
            public_keys: self.public_keys@.map_values(|k: String| k@),
            services: self.services@.map_values(|s: Service| s@),
        }
    }
}

impl View for MetadataProof {
    type V = MetadataProofView;

    open spec fn view(&self) -> MetadataProofView {
        MetadataProofView { controller: self.controller@, proof_value: self.proof_value@ }
    }
}

impl View for DocumentMetadata {
    type V = DocumentMetadataView;

    open spec fn view(&self) -> DocumentMetadataView {
        DocumentMetadataView {
            update_commitment: opt_view(self.update_commitment),
            recovery_commitment: opt_view(self.recovery_commitment),
            proof: match self.proof {
                Some(p) => Some(p@),
                None => None,
            },
        }
    }
}

/// A string is clean when it avoids the two characters the canonical form
/// reserves for quoting.
pub open spec fn str_clean(s: Seq<char>) -> bool {
    forall|i: int| 0 <= i < s.len() ==> s[i] != '"' && s[i] != '\\'
}

pub open spec fn opt_str_clean(o: Option<Seq<char>>) -> bool {
    match o {
        Some(s) => str_clean(s),
        None => true,
    }
}

pub open spec fn service_clean(s: ServiceView) -> bool {
    &&& str_clean(s.id)
    &&& str_clean(s.service_type)
    &&& opt_str_clean(s.controller)
    &&& opt_str_clean(s.proof_value)
}

/// A document canonicalizes exactly when the fields the canonical form
/// covers — the DID, the controller link and the service entries — are
/// clean.  Public keys are not part of the signed form: what binds a key
/// to a document is the ledger's key commitment, checked independently
/// of the controller's signature.
pub open spec fn document_clean(d: DocumentView) -> bool {
    &&& str_clean(d.did)
    &&& opt_str_clean(d.controller)
    &&& forall|i: int| 0 <= i < d.services.len() ==> service_clean(#[trigger] d.services[i])
}

pub open spec fn quoted(s: Seq<char>) -> Seq<char> {
    "\""@ + s + "\""@
}

pub open spec fn opt_quoted(o: Option<Seq<char>>) -> Seq<char> {
    match o {
        Some(s) => quoted(s),
        None => "null"@,
    }
}

pub open spec fn canon_service(s: ServiceView) -> Seq<char> {
    "{\"controller\":"@ + opt_quoted(s.controller) + ",\"id\":"@ + quoted(s.id)
        + ",\"proofValue\":"@ + opt_quoted(s.proof_value) + ",\"type\":"@ + quoted(
        s.service_type,
    ) + "}"@
}

pub open spec fn join_services(items: Seq<ServiceView>) -> Seq<char>
    decreases items.len(),
{
    if items.len() == 0 {
        Seq::<char>::empty()
    } else if items.len() == 1 {
        canon_service(items[0])
    } else {
        join_services(items.drop_last()) + ","@ + canon_service(items.last())
    }
}

/// The canonical, byte-stable form a document is signed over.  Fields are
/// rendered in a fixed order, so any change to a signed field changes the
/// canonical form.
pub open spec fn canon_document(d: DocumentView) -> Seq<char> {
    "{\"controller\":"@ + opt_quoted(d.controller) + ",\"did\":"@ + quoted(d.did)
        + ",\"services\":["@ + join_services(d.services) + "]}"@
}

/// The service id every controller proof is attached under.  A document
/// carries at most one service with this id.
pub open spec fn proof_service_id() -> Seq<char> {
    "trustchain-controller-proof"@
}

pub open spec fn proof_service_type() -> Seq<char> {
    "TrustchainProofService"@
}

/// The services left once controller-proof services are removed.
pub open spec fn strip_services(ss: Seq<ServiceView>) -> Seq<ServiceView>
    decreases ss.len(),
{
    if ss.len() == 0 {
        Seq::empty()
    } else if ss.last().id == proof_service_id() {
        strip_services(ss.drop_last())
    } else {
        strip_services(ss.drop_last()) + seq![ss.last()]
    }
}

/// The content a controller attests to: the document with any
/// controller-proof service removed, so that the proof value is never
/// part of what it signs.
pub open spec fn attested_view(d: DocumentView) -> DocumentView {
    DocumentView {
        did: d.did,
        controller: d.controller,
        public_keys: d.public_keys,
        services: strip_services(d.services),
    }
}

/// Build the attested form of a document: a copy with every
/// controller-proof service removed.
pub fn attested_document(d: &Document) -> (r: Document)
    ensures
        r@ == attested_view(d@),
{
    let mut services: Vec<Service> = Vec::new();
    let mut i: usize = 0;
    proof {
        assert(services@.map_values(|s: Service| s@) =~= strip_services(d@.services.take(0)));
    }
    while i < d.services.len()
        invariant
            i <= d.services@.len(),
            services@.map_values(|s: Service| s@) == strip_services(d@.services.take(i as int)),
        decreases d.services@.len() - i,
    {
        proof {
            assert(d@.services[i as int] == d.services@[i as int]@);
            assert(d@.services.take(i as int + 1).drop_last() =~= d@.services.take(i as int));
            assert(d@.services.take(i as int + 1).last() == d@.services[i as int]);
            reveal_strlit("trustchain-controller-proof");
        }
        let ghost previous = services@.map_values(|s: Service| s@);
        if !str_eq(d.services[i].id.as_str(), "trustchain-controller-proof") {
            services.push(d.services[i].duplicate());
            proof {
                assert(services@.map_values(|s: Service| s@) =~= previous + seq![
                    d@.services[i as int],
                ]);
            }
        }
        i += 1;
    }
    proof {
        assert(d@.services.take(d.services@.len() as int) =~= d@.services);
    }
    let mut keys: Vec<String> = Vec::new();
    let mut k: usize = 0;
    while k < d.public_keys.len()
        invariant
            k <= d.public_keys.len(),
            keys@ == d.public_keys@.take(k as int),
        decreases d.public_keys.len() - k,
    {
        keys.push(d.public_keys[k].clone());
        proof {
            assert(keys@ =~= d.public_keys@.take(k as int + 1));
        }
        k += 1;
    }
    proof {
        assert(keys@ =~= d.public_keys@);
    }
    let r = Document {
        did: d.did.clone(),
        controller: match &d.controller {
            Some(c) => Some(c.clone()),
            None => None,
        },
        public_keys: keys,
        services,
    };
    proof {
        assert(r@ =~= attested_view(d@));
    }
    r
}

/// The method-specific suffix of a DID: what follows the last colon, or
/// the whole string when it has no colon.
pub open spec fn spec_did_suffix(s: Seq<char>) -> Seq<char>
    decreases s.len(),
{
    if s.len() == 0 {
        Seq::empty()
    } else if s.last() == ':' {
        Seq::empty()
    } else {
        spec_did_suffix(s.drop_last()) + seq![s.last()]
    }
}

proof fn lemma_did_suffix_after_colon(s: Seq<char>, k: int)
    requires
        0 <= k < s.len(),
        s[k] == ':',
        forall|j: int| k < j < s.len() ==> s[j] != ':',
    ensures
        spec_did_suffix(s) == s.subrange(k + 1, s.len() as int),
    decreases s.len(),
{
    if k == s.len() - 1 {
        assert(spec_did_suffix(s) =~= s.subrange(k + 1, s.len() as int));
    } else {
        lemma_did_suffix_after_colon(s.drop_last(), k);
        assert(s.subrange(k + 1, s.len() as int) =~= s.drop_last().subrange(
            k + 1,
            s.len() - 1,
        ) + seq![s.last()]);
    }
}

proof fn lemma_did_suffix_no_colon(s: Seq<char>)
    requires
        forall|j: int| 0 <= j < s.len() ==> s[j] != ':',
    ensures
        spec_did_suffix(s) == s,
    decreases s.len(),
{
    if s.len() == 0 {
        assert(spec_did_suffix(s) =~= s);
    } else {
        lemma_did_suffix_no_colon(s.drop_last());
        assert(spec_did_suffix(s) =~= s.drop_last() + seq![s.last()]);
        assert(s.drop_last() + seq![s.last()] =~= s);
    }
}

/// The method-specific suffix of a DID string.
pub fn did_suffix<'a>(did: &'a str) -> (r: &'a str)
    ensures
        r@ == spec_did_suffix(did@),
{
    let n = did.unicode_len();
    let mut i: usize = n;
    while i > 0
        invariant
            i <= n,
            n == did@.len(),
            forall|j: int| i <= j < n ==> did@[j] != ':',
        decreases i,
    {
        i -= 1;
        if did.get_char(i) == ':' {
            let r = did.substring_char(i + 1, n);
            proof {
                lemma_did_suffix_after_colon(did@, i as int);
            }
            return r;
        }
    }
    proof {
        lemma_did_suffix_no_colon(did@);
        assert(did@.subrange(0, n as int) =~= did@);
    }
    did.substring_char(0, n)
}

/// String equality at the view level; DIDs and commitments compare by
/// exact match.
pub fn str_eq(a: &str, b: &str) -> (r: bool)
    ensures
        r == (a@ == b@),
{
    let sa = a.to_owned();
    let sb = b.to_owned();
    sa == sb
}

fn str_is_clean(s: &str) -> (b: bool)
    ensures
        b == str_clean(s@),
{
    let n = s.unicode_len();
    let mut i: usize = 0;
    while i < n
        invariant
            n == s@.len(),
            i <= n,
            forall|j: int| 0 <= j < i ==> s@[j] != '"' && s@[j] != '\\',
        decreases n - i,
    {
        let c = s.get_char(i);
        if c == '"' || c == '\\' {
            return false;
        }
        i += 1;
    }
    true
}

fn opt_is_clean(o: &Option<String>) -> (b: bool)
    ensures
        b == opt_str_clean(opt_view(*o)),
{
    match o {
        Some(s) => str_is_clean(s.as_str()),
        None => true,
    }
}

fn service_is_clean(s: &Service) -> (b: bool)
    ensures
        b == service_clean(s@),
{
    str_is_clean(s.id.as_str()) && str_is_clean(s.service_type.as_str()) && opt_is_clean(
        &s.controller,
    ) && opt_is_clean(&s.proof_value)
}

fn document_is_clean(d: &Document) -> (b: bool)
    ensures
        b == document_clean(d@),
{
    if !str_is_clean(d.did.as_str()) {
        return false;
    }
    if !opt_is_clean(&d.controller) {
        return false;
    }
    let mut k: usize = 0;
    while k < d.services.len()
        invariant
            k <= d.services.len(),
            forall|j: int| 0 <= j < k ==> service_clean(#[trigger] d@.services[j]),
        decreases d.services.len() - k,
    {
        proof {
            assert(d@.services[k as int] == d.services@[k as int]@);
        }
        if !service_is_clean(&d.services[k]) {
            return false;
        }
        k += 1;
    }
    true
}

fn push_quoted(acc: &mut String, s: &str)
    ensures
        final(acc)@ == old(acc)@ + quoted(s@),
{
    acc.append("\"");
    acc.append(s);
    acc.append("\"");
}

fn push_opt_quoted(acc: &mut String, o: &Option<String>)
    ensures
        final(acc)@ == old(acc)@ + opt_quoted(opt_view(*o)),
{
    match o {
        Some(s) => push_quoted(acc, s.as_str()),
        None => acc.append("null"),
    }
}

fn push_service(acc: &mut String, s: &Service)
    ensures
        final(acc)@ == old(acc)@ + canon_service(s@),
{
    acc.append("{\"controller\":");
    push_opt_quoted(acc, &s.controller);
    acc.append(",\"id\":");
    push_quoted(acc, s.id.as_str());
    acc.append(",\"proofValue\":");
    push_opt_quoted(acc, &s.proof_value);
    acc.append(",\"type\":");
    push_quoted(acc, s.service_type.as_str());
    acc.append("}");
}

/// Serialize `d` to its canonical form, or report that it has no canonical
/// form because some field is not clean.
pub fn canonical_document(d: &Document) -> (r: Option<String>)
    ensures
        r is Some <==> document_clean(d@),
        r matches Some(c) ==> c@ == canon_document(d@),
{
    if !document_is_clean(d) {
        return None;
    }
    let mut acc = String::new();
    acc.append("{\"controller\":");
    push_opt_quoted(&mut acc, &d.controller);
    acc.append(",\"did\":");
    push_quoted(&mut acc, d.did.as_str());
    acc.append(",\"services\":[");
    let mut k: usize = 0;
    while k < d.services.len()
        invariant
            k <= d.services.len(),
            acc@ == "{\"controller\":"@ + opt_quoted(d@.controller) + ",\"did\":"@ + quoted(d@.did)
                + ",\"services\":["@ + join_services(d@.services.take(k as int)),
        decreases d.services.len() - k,
    {
        if k > 0 {
            acc.append(",");
        }
        push_service(&mut acc, &d.services[k]);
        proof {
            let svcs = d@.services;
            assert(svcs.take(k + 1 as int).drop_last() =~= svcs.take(k as int));
            assert(svcs.take(k + 1 as int).last() == svcs[k as int]);
        }
        k += 1;
    }
    proof {
        assert(d@.services.take(d.services.len() as int) =~= d@.services);
    }
    acc.append("]}");
    Some(acc)
}

impl Service {
    /// An explicit deep copy equal to the original.
    pub fn duplicate(&self) -> (r: Service)
        ensures
            r == *self,
    {
        Service {
            id: self.id.clone(),
            service_type: self.service_type.clone(),
            controller: match &self.controller {
                Some(c) => Some(c.clone()),
                None => None,
            },
            proof_value: match &self.proof_value {
                Some(p) => Some(p.clone()),
                None => None,
            },
        }
    }
}

impl Document {
    /// An explicit deep copy whose view equals the original's.
    pub fn duplicate(&self) -> (r: Document)
        ensures
            r@ == self@,
    {
        let mut keys: Vec<String> = Vec::new();
        let mut i: usize = 0;
        while i < self.public_keys.len()
            invariant
                i <= self.public_keys.len(),
                keys@ == self.public_keys@.take(i as int),
            decreases self.public_keys.len() - i,
        {
            keys.push(self.public_keys[i].clone());
            proof {
                assert(keys@ =~= self.public_keys@.take(i as int + 1));
            }
            i += 1;
        }
        let mut services: Vec<Service> = Vec::new();
        let mut k: usize = 0;
        while k < self.services.len()
            invariant
                k <= self.services.len(),
                services@ == self.services@.take(k as int),
            decreases self.services.len() - k,
        {
            services.push(self.services[k].duplicate());
            proof {
                assert(services@ =~= self.services@.take(k as int + 1));
            }
            k += 1;
        }
        proof {
            assert(keys@ =~= self.public_keys@);
            assert(services@ =~= self.services@);
        }
        Document {
            did: self.did.clone(),
            controller: match &self.controller {
                Some(c) => Some(c.clone()),
                None => None,
            },
            public_keys: keys,
            services,
        }
    }
}

impl DocumentMetadata {
    /// An explicit deep copy whose view equals the original's.
    pub fn duplicate(&self) -> (r: DocumentMetadata)
        ensures
            r@ == self@,
    {
        DocumentMetadata {
            update_commitment: match &self.update_commitment {
                Some(c) => Some(c.clone()),
                None => None,
            },
            recovery_commitment: match &self.recovery_commitment {
                Some(c) => Some(c.clone()),
                None => None,
            },
            proof: match &self.proof {
                Some(p) => Some(
                    MetadataProof {
                        controller: p.controller.clone(),
                        proof_value: p.proof_value.clone(),
                    },
                ),
                None => None,
            },
        }
    }
}

} // verus!
