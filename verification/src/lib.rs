//! Compares the attribute values of two XML documents.
//!
//! The library extracts the set of unique attribute values that appear in a
//! document's start tags (self-closing tags included), computes the signed
//! difference in unique-value counts between a reference and a candidate
//! document, together with the values new to the candidate and the values
//! missing from it, and classifies each count for rendering. Reading the
//! documents and printing the report are the caller's concern: the caller
//! hands in each document's bytes, or `None` where the path could not be
//! read.

pub mod attrset;
pub mod diff;
pub mod render;
pub mod scan;

use crate::attrset::AttributeSet;
use crate::diff::DiffReport;
use crate::scan::attr_value_set;
use crate::scan::xml_ok;
use vstd::prelude::*;
use vstd::string::StrSliceExecFns;

verus! {

/// One failure of a run: every kind aborts the whole run and carries the
/// offending path.
#[derive(Debug)]
pub enum DiffError {
    /// A supplied path fails the `.xml` suffix check.
    Usage(String),
    /// A document path could not be opened or read.
    Read(String),
    /// A document could not be scanned: malformed markup, a malformed
    /// attribute list, or text that does not decode.
    Parse(String),
}

/// Whether a path's character sequence ends in `.xml`.
pub open spec fn has_xml_suffix(s: Seq<char>) -> bool {
    s.len() >= 4 && s.subrange(s.len() - 4, s.len() as int) == ".xml"@
}

fn ends_with_xml(path: &String) -> (r: bool)
    ensures
        r == has_xml_suffix(path@),
{
    let s = path.as_str();
    let n = s.unicode_len();
    if n < 4 {
        return false;
    }
    let c0 = s.get_char(n - 4);
    let c1 = s.get_char(n - 3);
    let c2 = s.get_char(n - 2);
    let c3 = s.get_char(n - 1);
    let r = c0 == '.' && c1 == 'x' && c2 == 'm' && c3 == 'l';
    proof {
        reveal_strlit(".xml");
        let v = path@;
        let tail = v.subrange(v.len() - 4, v.len() as int);
        assert(tail[0] == c0 && tail[1] == c1 && tail[2] == c2 && tail[3] == c3);
        if r {
            assert(tail =~= ".xml"@);
        } else {
            assert(tail != ".xml"@);
        }
    }
    r
}

/// Checks whether a string names an XML file: it must end with `.xml`.
pub fn is_xml_path(path: String) -> (r: Result<(), String>)
    ensures
        r is Ok <==> has_xml_suffix(path@),
        r matches Err(m) ==> m@ == "["@ + path@ + "] is not an xml file"@,
{
    if ends_with_xml(&path) {
        Ok(())
    } else {
        Err("[".to_owned().concat(path.as_str()).concat("] is not an xml file"))
    }
}

/// The usage check that runs before any extraction: both supplied paths must
/// end in `.xml`, the reference path checked first.
pub fn validate_paths(reference_path: &String, candidate_path: &String) -> (r: Result<
    (),
    DiffError,
>)
    ensures
        r is Ok <==> has_xml_suffix(reference_path@) && has_xml_suffix(candidate_path@),
        !has_xml_suffix(reference_path@) ==> (r matches Err(DiffError::Usage(p)) && p@
            == reference_path@),
        has_xml_suffix(reference_path@) && !has_xml_suffix(candidate_path@) ==> (r matches Err(
            DiffError::Usage(p),
        ) && p@ == candidate_path@),
{
    if !ends_with_xml(reference_path) {
        Err(DiffError::Usage(reference_path.clone()))
    } else if !ends_with_xml(candidate_path) {
        Err(DiffError::Usage(candidate_path.clone()))
    } else {
        Ok(())
    }
}

/// Extracts the attribute-value set of one document. `contents` holds the
/// document's bytes, or `None` where `path` could not be read; extraction is
/// all-or-nothing per document.
pub fn extract_document(path: &str, contents: Option<&Vec<u8>>) -> (r: Result<
    AttributeSet,
    DiffError,
>)
    ensures
        contents is None ==> (r matches Err(DiffError::Read(p)) && p@ == path@),
        contents matches Some(bytes) ==> {
            &&& r is Ok <==> xml_ok(bytes@)
            &&& (r matches Ok(s) ==> s.wf() && s@ == attr_value_set(bytes@))
            &&& (r matches Err(e) ==> e matches DiffError::Parse(p) && p@ == path@)
        },
{
    match contents {
        Option::None => Err(DiffError::Read(path.to_owned())),
        Option::Some(bytes) => match crate::scan::extract_attributes(bytes) {
            Option::Some(s) => Ok(s),
            Option::None => Err(DiffError::Parse(path.to_owned())),
        },
    }
}

/// Whether a supplied document can be compared: it was read, and its scan
/// succeeds.
pub open spec fn doc_ok(contents: Option<&Vec<u8>>) -> bool {
    contents matches Some(b) && xml_ok(b@)
}

/// The bytes of a supplied document that was read.
pub open spec fn doc_bytes(contents: Option<&Vec<u8>>) -> Seq<u8>
    recommends
        contents is Some,
{
    contents->Some_0@
}

/// The whole core run: extracts both documents (reference first) and compares
/// them. Either both documents are fully extracted and a complete report is
/// returned, or the first failure is returned and no report exists.
pub fn compare_documents(
    reference_path: &str,
    reference: Option<&Vec<u8>>,
    candidate_path: &str,
    candidate: Option<&Vec<u8>>,
) -> (r: Result<DiffReport, DiffError>)
    ensures
        r is Ok <==> doc_ok(reference) && doc_ok(candidate),
        (doc_ok(reference) && doc_ok(candidate)) ==> (r matches Ok(rep) && rep.wf() && rep.delta
            == crate::diff::spec_delta(
            attr_value_set(doc_bytes(reference)),
            attr_value_set(doc_bytes(candidate)),
        ) && rep.new_values@ == attr_value_set(doc_bytes(candidate)).difference(
            attr_value_set(doc_bytes(reference)),
        ) && rep.missing_values@ == attr_value_set(doc_bytes(reference)).difference(
            attr_value_set(doc_bytes(candidate)),
        )),
        reference is None ==> (r matches Err(DiffError::Read(p)) && p@ == reference_path@),
        (reference is Some && !xml_ok(doc_bytes(reference))) ==> (r matches Err(
            DiffError::Parse(p),
        ) && p@ == reference_path@),
        (doc_ok(reference) && candidate is None) ==> (r matches Err(DiffError::Read(p)) && p@
            == candidate_path@),
        (doc_ok(reference) && candidate is Some && !xml_ok(doc_bytes(candidate))) ==> (r matches
            Err(DiffError::Parse(p)) && p@ == candidate_path@),
{
    let origin = match extract_document(reference_path, reference) {
        Ok(s) => s,
        Err(e) => {
            return Err(e);
        },
    };
    let file = match extract_document(candidate_path, candidate) {
        Ok(s) => s,
        Err(e) => {
            return Err(e);
        },
    };
    Ok(crate::diff::diff(&origin, &file))
}

} // verus!
