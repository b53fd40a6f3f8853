//! Reconciliation: make sure a document advertises a static IPv4 endpoint.
//!
//! The first section whose protocol is `IPv4` and whose description does not
//! mention `Dynamic` is the static IPv4 section. It is claimed: its address is
//! forced to the bind address and its port kept when present. Without such a
//! section a fresh one is appended. Every other part of the document is left
//! as it was.

use vstd::prelude::*;

use crate::schema::{opt_text, CommView, DocumentView, SimBaseDocument, SimConnectComm};
use crate::text::{contains_text, seq_contains};

verus! {

/// The protocol marker of an IPv4 section.
pub open spec fn ipv4_protocol() -> Seq<char> {
    "IPv4"@
}

/// A description that holds this marker belongs to a dynamically allocated section.
pub open spec fn dynamic_marker() -> Seq<char> {
    "Dynamic"@
}

/// The description given to a section that reconciliation creates.
pub open spec fn static_description() -> Seq<char> {
    "Static IP4 port"@
}

/// The section predicate that reconciliation keys on.
pub open spec fn static_ipv4(c: CommView) -> bool {
    c.protocol == ipv4_protocol() && !seq_contains(c.description, dynamic_marker())
}

/// `i` is the position of the first static IPv4 section of `s`.
pub open spec fn is_first_static(s: Seq<CommView>, i: int) -> bool {
    &&& 0 <= i < s.len()
    &&& static_ipv4(s[i])
    &&& forall|j: int| 0 <= j < i ==> !#[trigger] static_ipv4(s[j])
}

/// The position of the section that reconciliation claims: the first static
/// IPv4 section, or `s.len()`, where a fresh one is appended, if there is none.
pub open spec fn claim_index(s: Seq<CommView>) -> int {
    if exists|i: int| is_first_static(s, i) {
        choose|i: int| is_first_static(s, i)
    } else {
        s.len() as int
    }
}

/// An existing static section after it has been claimed.
pub open spec fn claimed(c: CommView, address: Seq<char>, default_port: Seq<char>) -> CommView {
    CommView {
        address: Some(address),
        port: Some(
            match c.port {
                Some(p) => p,
                None => default_port,
            },
        ),
        ..c
    }
}

/// The section appended when a document has no static IPv4 section.
pub open spec fn fresh_section(address: Seq<char>, port: Seq<char>) -> CommView {
    CommView {
        description: static_description(),
        protocol: ipv4_protocol(),
        scope: "local"@,
        max_clients: "64"@,
        max_recv_size: "4188"@,
        address: Some(address),
        port: Some(port),
    }
}

/// The section list after reconciliation.
pub open spec fn reconciled_sections(
    s: Seq<CommView>,
    address: Seq<char>,
    port: Seq<char>,
) -> Seq<CommView> {
    let i = claim_index(s);
    if i < s.len() {
        s.update(i, claimed(s[i], address, port))
    } else {
        s.push(fresh_section(address, port))
    }
}

/// The document after reconciliation with bind address `address` and
/// default port `port`.
pub open spec fn reconciled(d: DocumentView, address: Seq<char>, port: Seq<char>) -> DocumentView {
    DocumentView { sections: reconciled_sections(d.sections, address, port), ..d }
}

/// The port that the claimed section carries after reconciliation.
pub open spec fn resolved_port(s: Seq<CommView>, default_port: Seq<char>) -> Seq<char> {
    let i = claim_index(s);
    if i < s.len() {
        match s[i].port {
            Some(p) => p,
            None => default_port,
        }
    } else {
        default_port
    }
}

/// The least static section comes first.
proof fn lemma_first_static_exists(s: Seq<CommView>, k: int)
    requires
        0 <= k < s.len(),
        static_ipv4(s[k]),
    ensures
        exists|i: int| is_first_static(s, i),
    decreases k,
{
    if exists|j: int| 0 <= j < k && static_ipv4(s[j]) {
        let j = choose|j: int| 0 <= j < k && static_ipv4(s[j]);
        lemma_first_static_exists(s, j);
    } else {
        assert(is_first_static(s, k));
    }
}

/// What `claim_index` denotes.
pub proof fn lemma_claim_index(s: Seq<CommView>)
    ensures
        0 <= claim_index(s) <= s.len(),
        claim_index(s) < s.len() ==> is_first_static(s, claim_index(s)),
        claim_index(s) == s.len() ==> forall|j: int| 0 <= j < s.len() ==> !#[trigger] static_ipv4(s[j]),
{
    if exists|i: int| is_first_static(s, i) {
    } else {
        assert forall|j: int| 0 <= j < s.len() implies !#[trigger] static_ipv4(s[j]) by {
            if static_ipv4(s[j]) {
                lemma_first_static_exists(s, j);
            }
        }
    }
}

/// There is one first static section.
pub proof fn lemma_first_static_unique(s: Seq<CommView>, i: int)
    requires
        is_first_static(s, i),
    ensures
        claim_index(s) == i,
{
    let c = choose|c: int| is_first_static(s, c);
    assert(is_first_static(s, c));
    if c < i {
        assert(!static_ipv4(s[c]));
    } else if i < c {
        assert(!static_ipv4(s[i]));
    }
}

/// A section that reconciliation creates is itself a static IPv4 section.
pub proof fn lemma_fresh_section_is_static(address: Seq<char>, port: Seq<char>)
    ensures
        static_ipv4(fresh_section(address, port)),
{
    reveal_strlit("Static IP4 port");
    reveal_strlit("Dynamic");
    let hay = static_description();
    let needle = dynamic_marker();
    assert forall|i: int| 0 <= i && i + needle.len() <= hay.len() implies #[trigger] hay.subrange(
        i,
        i + needle.len(),
    ) != needle by {
        assert(hay.subrange(i, i + needle.len())[0] == hay[i]);
        assert(needle[0] == 'D');
    }
}

/// Reconciling an already reconciled document changes nothing, so a second
/// run writes the same document again.
pub proof fn lemma_reconcile_idempotent(d: DocumentView, address: Seq<char>, port: Seq<char>)
    ensures
        reconciled(reconciled(d, address, port), address, port) == reconciled(d, address, port),
{
    let s = d.sections;
    let r = reconciled_sections(s, address, port);
    let ci = claim_index(s);
    lemma_claim_index(s);
    if ci < s.len() {
        assert(is_first_static(r, ci)) by {
            assert forall|j: int| 0 <= j < ci implies !#[trigger] static_ipv4(r[j]) by {
                assert(r[j] == s[j]);
            }
        }
        lemma_first_static_unique(r, ci);
        assert(reconciled_sections(r, address, port) =~= r);
    } else {
        lemma_fresh_section_is_static(address, port);
        assert(is_first_static(r, ci)) by {
            assert forall|j: int| 0 <= j < ci implies !#[trigger] static_ipv4(r[j]) by {
                assert(r[j] == s[j]);
            }
        }
        lemma_first_static_unique(r, ci);
        assert(reconciled_sections(r, address, port) =~= r);
    }
}

/// Reconciliation touches no part of the document but the claimed section:
/// the document's own fields stay, and every other section, among them each
/// one that is not a static IPv4 section, keeps its value and its position.
pub proof fn lemma_reconcile_preserves(d: DocumentView, address: Seq<char>, port: Seq<char>)
    ensures
        ({
            let r = reconciled(d, address, port);
            &&& r.document_type == d.document_type
            &&& r.version == d.version
            &&& r.description == d.description
            &&& r.filename == d.filename
            &&& r.sections.len() == d.sections.len() || r.sections.len() == d.sections.len() + 1
            &&& forall|j: int|
                0 <= j < d.sections.len() && j != claim_index(d.sections) ==> #[trigger] r.sections[j]
                    == d.sections[j]
            &&& forall|j: int|
                0 <= j < d.sections.len() && !static_ipv4(d.sections[j]) ==> #[trigger] r.sections[j]
                    == d.sections[j]
        }),
{
    lemma_claim_index(d.sections);
}

/// Of two static IPv4 sections, the later one is never touched, no section
/// is added, and the earlier one is claimed when no static section precedes it.
pub proof fn lemma_reconcile_first_match(
    d: DocumentView,
    address: Seq<char>,
    port: Seq<char>,
    i: int,
    k: int,
)
    requires
        0 <= i < k < d.sections.len(),
        static_ipv4(d.sections[i]),
        static_ipv4(d.sections[k]),
    ensures
        ({
            let r = reconciled(d, address, port).sections;
            &&& r.len() == d.sections.len()
            &&& r[k] == d.sections[k]
            &&& claim_index(d.sections) <= i
            &&& is_first_static(d.sections, i) ==> r[i] == claimed(d.sections[i], address, port)
        }),
{
    lemma_claim_index(d.sections);
    if is_first_static(d.sections, i) {
        lemma_first_static_unique(d.sections, i);
    }
}

/// After reconciliation the claimed section is a static IPv4 section that
/// advertises the bind address, whatever address it had before.
pub proof fn lemma_reconcile_address(d: DocumentView, address: Seq<char>, port: Seq<char>)
    ensures
        ({
            let r = reconciled(d, address, port).sections;
            let ci = claim_index(d.sections);
            &&& 0 <= ci < r.len()
            &&& static_ipv4(r[ci])
            &&& r[ci].address == Some(address)
        }),
{
    lemma_claim_index(d.sections);
    lemma_fresh_section_is_static(address, port);
}

/// A claimed section keeps the port it had; one without a port, and a fresh
/// section, get the default port.
pub proof fn lemma_reconcile_port(d: DocumentView, address: Seq<char>, port: Seq<char>)
    ensures
        ({
            let s = d.sections;
            let r = reconciled(d, address, port).sections;
            let ci = claim_index(s);
            &&& 0 <= ci < r.len()
            &&& r[ci].port == Some(resolved_port(s, port))
            &&& ci < s.len() && s[ci].port is Some ==> r[ci].port == s[ci].port
            &&& ci < s.len() && s[ci].port is None ==> r[ci].port == Some(port)
            &&& ci == s.len() ==> r[ci].port == Some(port)
        }),
{
    lemma_claim_index(d.sections);
}

/// Bind address and default port used by reconciliation.
pub struct Endpoint {
    pub address: String,
    pub port: String,
}

impl Endpoint {
    /// The SimConnect server endpoint: bind to every interface, port 500.
    pub fn simconnect_default() -> (r: Endpoint)
        ensures
            r.address@ == "0.0.0.0"@,
            r.port@ == "500"@,
    {
        Endpoint { address: String::from_str("0.0.0.0"), port: String::from_str("500") }
    }
}

/// What reconciliation reports to its caller.
pub struct ReconcileOutcome {
    /// The address that the claimed section advertises.
    pub address: String,
    /// The port that the claimed section advertises.
    pub port: String,
    /// Whether the document was modified.
    pub is_changed: bool,
}

/// Whether `c` is a static IPv4 section.
pub fn is_static_ipv4(c: &SimConnectComm) -> (r: bool)
    ensures
        r == static_ipv4(c@),
{
    let ipv4 = String::from_str("IPv4");
    c.protocol == ipv4 && !contains_text(c.description.as_str(), "Dynamic")
}

/// The position of the first static IPv4 section, if any.
pub fn find_static_ipv4(sections: &Vec<SimConnectComm>) -> (r: Option<usize>)
    ensures
        match r {
            Some(i) => is_first_static(sections@.map_values(|c: SimConnectComm| c@), i as int),
            None => forall|j: int|
                0 <= j < sections.len() ==> !#[trigger] static_ipv4(sections@[j]@),
        },
{
    let ghost views = sections@.map_values(|c: SimConnectComm| c@);
    let mut i: usize = 0;
    while i < sections.len()
        invariant
            i <= sections.len(),
            views == sections@.map_values(|c: SimConnectComm| c@),
            forall|j: int| 0 <= j < i ==> !#[trigger] static_ipv4(sections@[j]@),
        decreases sections.len() - i,
    {
        if is_static_ipv4(&sections[i]) {
            assert forall|j: int| 0 <= j < i implies !#[trigger] static_ipv4(views[j]) by {
                assert(views[j] == sections@[j]@);
            }
            return Some(i);
        }
        i = i + 1;
    }
    None
}

/// The section appended when no static IPv4 section exists.
pub fn new_static_section(defaults: &Endpoint) -> (r: SimConnectComm)
    ensures
        r@ == fresh_section(defaults.address@, defaults.port@),
{
    SimConnectComm {
        description: String::from_str("Static IP4 port"),
        protocol: String::from_str("IPv4"),
        scope: String::from_str("local"),
        max_clients: String::from_str("64"),
        max_recv_size: String::from_str("4188"),
        address: Some(defaults.address.clone()),
        port: Some(defaults.port.clone()),
    }
}

/// Claims the static IPv4 section of `doc`, or appends one, and reports the
/// endpoint that the document now advertises.
pub fn reconcile_document(doc: &mut SimBaseDocument, defaults: &Endpoint) -> (r: ReconcileOutcome)
    ensures
        final(doc)@ == reconciled(old(doc)@, defaults.address@, defaults.port@),
        r.address@ == defaults.address@,
        r.port@ == resolved_port(old(doc)@.sections, defaults.port@),
        r.is_changed == (final(doc)@ != old(doc)@),
{
    let ghost d = doc@;
    match find_static_ipv4(&doc.simconnect_comm) {
        Some(i) => {
            proof {
                lemma_first_static_unique(d.sections, i as int);
            }
            let port = match &doc.simconnect_comm[i].port {
                Some(p) => p.clone(),
                None => defaults.port.clone(),
            };
            let address_kept = match &doc.simconnect_comm[i].address {
                Some(a) => *a == defaults.address,
                None => false,
            };
            let port_present = doc.simconnect_comm[i].port.is_some();
            doc.simconnect_comm[i].address = Some(defaults.address.clone());
            doc.simconnect_comm[i].port = Some(port.clone());
            assert(doc@.sections =~= d.sections.update(
                i as int,
                claimed(d.sections[i as int], defaults.address@, defaults.port@),
            ));
            proof {
                if !(address_kept && port_present) {
                    assert(doc@.sections[i as int] != d.sections[i as int]);
                } else {
                    assert(doc@.sections =~= d.sections);
                }
            }
            ReconcileOutcome {
                address: defaults.address.clone(),
                port,
                is_changed: !(address_kept && port_present),
            }
        },
        None => {
            proof {
                lemma_claim_index(d.sections);
                if claim_index(d.sections) < d.sections.len() {
                    assert(static_ipv4(d.sections[claim_index(d.sections)]));
                    assert(d.sections[claim_index(d.sections)] == doc.simconnect_comm@[claim_index(d.sections)]@);
                }
            }
            let fresh = new_static_section(defaults);
            doc.simconnect_comm.push(fresh);
            assert(doc@.sections =~= d.sections.push(fresh_section(defaults.address@, defaults.port@)));
            assert(doc@.sections.len() != d.sections.len());
            ReconcileOutcome {
                address: defaults.address.clone(),
                port: defaults.port.clone(),
                is_changed: true,
            }
        },
    }
}

} // verus!
