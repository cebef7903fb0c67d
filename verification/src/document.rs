//! Uploaded documents and their classification.

use vstd::prelude::*;

use crate::api::RequestParams;

use crate::common::Timestamp;
use crate::ids::DocumentId;

verus! {

#[derive(Clone, Debug, PartialEq, Eq)]
pub enum DocumentPurpose {
    DisputeEvidence,
}

#[derive(Clone, Debug, PartialEq, Eq)]
pub enum DocumentMimeType {
    ImageJpg,
    ImageJpeg,
    ImagePng,
    ApplicationPdf,
}

#[derive(Clone, Debug, PartialEq, Eq)]
pub struct Document {
    pub id: DocumentId,
    pub purpose: DocumentPurpose,
    pub name: String,
    pub size: u64,
    pub mime_type: DocumentMimeType,
    pub created_at: Timestamp,
}


impl Document {
    /// The request a document fetch sends: a GET of
    /// `/documents/{id}`.
    pub fn fetch_request(document_id: &DocumentId) -> (r: RequestParams)
        ensures
            r.url@ == "/documents/"@ + document_id@,
            r.version is None,
            r.data is None,
    {
        let mut url = String::from_str("/documents/");
        url.append(document_id.as_str());
        RequestParams { url, version: None, data: None }
    }
}

} // verus!
