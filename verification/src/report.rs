//! What a scripted agent reports: a JSON document, or plain text in an
//! envelope.

use vstd::prelude::*;

verus! {

/// `serde_json::Value`, a JSON document in memory. Nothing is said of what
/// one holds.
#[verifier::external_type_specification]
#[verifier::external_body]
pub struct ExJsonValue(serde_json::Value);

/// `serde_json::Error`, the reason why a text could not be read. Nothing is
/// said of what one holds.
#[verifier::external_type_specification]
#[verifier::external_body]
pub struct ExJsonError(serde_json::Error);

/// The document that `serde_json::from_str` reads from `text`, if `text` is
/// one JSON document and nothing else.
pub uninterp spec fn json_document(text: Seq<char>) -> Option<serde_json::Value>;

/// Calls `serde_json::from_str` for a `serde_json::Value`. Whether it reads
/// a document, and which, depends on the text alone and is named
/// `json_document`.
#[verifier::external_body]
fn read_document(text: &str) -> (read: Result<serde_json::Value, serde_json::Error>)
    ensures
        json_document(text@) == match read {
            Ok(document) => Some(document),
            Err(_) => None,
        },
{
    serde_json::from_str::<serde_json::Value>(text)
}

/// The report of a scripted agent.
#[derive(Debug, PartialEq)]
pub enum AgentReport {
    /// The agent wrote one JSON document.
    Document(serde_json::Value),
    /// The agent wrote something else, which is handed on as a message.
    Envelope { status: String, message: String, logs: Vec<String> },
}

/// An `AgentReport` with its texts as character sequences.
pub enum AgentReportView {
    Document(serde_json::Value),
    Envelope { status: Seq<char>, message: Seq<char>, logs: Seq<Seq<char>> },
}

impl View for AgentReport {
    type V = AgentReportView;

    open spec fn view(&self) -> AgentReportView {
        match self {
            AgentReport::Document(document) => AgentReportView::Document(*document),
            AgentReport::Envelope { status, message, logs } => AgentReportView::Envelope {
                status: status@,
                message: message@,
                logs: logs.deep_view(),
            },
        }
    }
}

/// The envelope around text that is no JSON document: status `success`,
/// the text as the message, and no logs.
pub open spec fn envelope_of(text: Seq<char>) -> AgentReportView {
    AgentReportView::Envelope { status: "success"@, message: text, logs: Seq::empty() }
}

/// The report for `text`, given the document read from it, if any.
pub open spec fn report_of(document: Option<serde_json::Value>, text: Seq<char>) -> AgentReportView {
    match document {
        Some(document) => AgentReportView::Document(document),
        None => envelope_of(text),
    }
}

impl AgentReport {
    /// Makes the report for `text` from the attempt to read a document from
    /// it: the document where there is one, else the envelope around `text`.
    pub fn from_reading(
        read: Result<serde_json::Value, serde_json::Error>,
        text: String,
    ) -> (report: AgentReport)
        ensures
            report@ == match read {
                Ok(document) => AgentReportView::Document(document),
                Err(_) => envelope_of(text@),
            },
    {
        match read {
            Ok(document) => AgentReport::Document(document),
            Err(_) => {
                let logs: Vec<String> = Vec::new();
                assert(logs.deep_view() =~= Seq::<Seq<char>>::empty());
                AgentReport::Envelope { status: "success".to_owned(), message: text, logs }
            },
        }
    }

    /// Reads `text` as a JSON document and makes the report for it.
    pub fn from_text(text: String) -> (report: AgentReport)
        ensures
            report@ == report_of(json_document(text@), text@),
    {
        let read = read_document(text.as_str());
        AgentReport::from_reading(read, text)
    }
}

} // verus!
