//! The parts of a SimConnect configuration document that this library reads
//! and rewrites, with their mathematical views.

use vstd::prelude::*;

verus! {

/// One `SimConnect.Comm` entry: an endpoint that the simulator exposes.
/// Absent `Address` / `Port` elements are `None`, which is not the same as an
/// empty value.
#[derive(Clone, Debug, PartialEq, Eq)]
pub struct SimConnectComm {
    pub description: String,
    pub protocol: String,
    pub scope: String,
    pub max_clients: String,
    pub max_recv_size: String,
    pub address: Option<String>,
    pub port: Option<String>,
}

/// The root `SimBase.Document` of the configuration file.
#[derive(Clone, Debug, PartialEq, Eq)]
pub struct SimBaseDocument {
    pub document_type: String,
    pub version: String,
    pub description: String,
    pub filename: String,
    pub simconnect_comm: Vec<SimConnectComm>,
}

/// The view of an optional text field.
pub open spec fn opt_text(o: Option<String>) -> Option<Seq<char>> {
    match o {
        Some(s) => Some(s@),
        None => None,
    }
}

/// A `SimConnect.Comm` entry as plain character sequences.
pub struct CommView {
    pub description: Seq<char>,
    pub protocol: Seq<char>,
    pub scope: Seq<char>,
    pub max_clients: Seq<char>,
    pub max_recv_size: Seq<char>,
    pub address: Option<Seq<char>>,
    pub port: Option<Seq<char>>,
}

/// A whole document as plain values.
pub struct DocumentView {
    pub document_type: Seq<char>,
    pub version: Seq<char>,
    pub description: Seq<char>,
    pub filename: Seq<char>,
    pub sections: Seq<CommView>,
}

impl View for SimConnectComm {
    type V = CommView;

    open spec fn view(&self) -> CommView {
        CommView {
            description: self.description@,
            protocol: self.protocol@,
            scope: self.scope@,
            max_clients: self.max_clients@,
            max_recv_size: self.max_recv_size@,
            address: opt_text(self.address),
            port: opt_text(self.port),
        }
    }
}

impl View for SimBaseDocument {
    type V = DocumentView;

    open spec fn view(&self) -> DocumentView {
        DocumentView {
            document_type: self.document_type@,
            version: self.version@,
            description: self.description@,
            filename: self.filename@,
            sections: self.simconnect_comm@.map_values(|c: SimConnectComm| c@),
        }
    }
}

/// The declaration that opens every configuration file this library writes,
/// followed by a blank line.
pub open spec fn config_header() -> Seq<char> {
    "<?xml version=\"1.0\" encoding=\"Windows-1252\"?>\n\n"@
}

/// The full text of a configuration file whose markup is `body`: the legacy
/// encoding declaration, a blank line, then the markup.
pub fn frame_config_text(body: &str) -> (r: String)
    ensures
        r@ == config_header() + body@,
{
    let mut r = String::from_str("<?xml version=\"1.0\" encoding=\"Windows-1252\"?>\n\n");
    r.append(body);
    r
}

} // verus!
