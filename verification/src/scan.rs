//! Attribute extraction: one forward scan over a document's start tags.
//!
//! The lexical scan itself is quick_xml's work; this module pulls its events
//! one at a time and accumulates the attribute values of every start tag
//! (self-closing tags included) into an [`AttributeSet`].

use crate::attrset::AttributeSet;
use quick_xml::events::Event;
use quick_xml::reader::Reader;
use std::io::Cursor;
use vstd::prelude::*;

verus! {

#[verifier::external_type_specification]
#[verifier::external_body]
#[verifier::reject_recursive_types(R)]
pub struct ExReader<R>(Reader<R>);

#[verifier::external_type_specification]
#[verifier::external_body]
#[verifier::reject_recursive_types(T)]
pub struct ExCursor<T>(Cursor<T>);

/// Whether quick_xml's scan of `bytes` runs to the end of the input without a
/// reader error and with every start tag's attribute list well formed; a
/// function of the bytes alone.
pub uninterp spec fn xml_ok(bytes: Seq<u8>) -> bool;

/// The attribute values of the start tags of `bytes` (self-closing tags
/// included), in document order with duplicates kept, as far as the scan gets
/// before the end of the input or its first error; a function of the bytes
/// alone.
pub uninterp spec fn xml_attr_values(bytes: Seq<u8>) -> Seq<Seq<char>>;

/// The unique attribute values of a document: what extraction returns when
/// the scan succeeds.
pub open spec fn attr_value_set(bytes: Seq<u8>) -> Set<Seq<char>> {
    xml_attr_values(bytes).to_set()
}

/// The bytes a scanner was made over.
pub uninterp spec fn scan_doc(r: Reader<Cursor<Vec<u8>>>) -> Seq<u8>;

/// How many attribute values the scanner has yielded so far.
pub uninterp spec fn scan_done(r: Reader<Cursor<Vec<u8>>>) -> nat;

/// Whether the scanner may still be asked for an event: a call-protocol
/// token, not a fact about the reader's stored bits. It is granted by the
/// constructor, kept by every yielded event, and withdrawn once the end of
/// the document or a failure is reported; after some final events the
/// reader's concrete state no longer distinguishes the two, so only this
/// token records that the protocol is over, and `scan_next` demands it.
pub uninterp spec fn scan_live(r: Reader<Cursor<Vec<u8>>>) -> bool;

/// The number of events the scanner has still to yield.
pub uninterp spec fn scan_fuel(r: Reader<Cursor<Vec<u8>>>) -> nat;

/// One step of the scan, with every outside value already converted.
enum ScanStep {
    /// A start tag, carrying its attribute values in order.
    Tag(Vec<String>),
    /// An event without attributes: text, a comment, an end tag, and the like.
    Skip,
    /// The end of the document.
    End,
    /// A malformed document, a malformed attribute list, or an undecodable
    /// text encoding.
    Fail,
}

/// Relies on quick_xml's `Reader::from_reader` over an in-memory cursor, with
/// `expand_empty_elements` switched on so that self-closing tags arrive as
/// ordinary start tags: the scanner starts at the beginning of `bytes` and
/// has yielded nothing yet.
#[verifier::external_body]
fn scanner_new(bytes: &Vec<u8>) -> (r: Reader<Cursor<Vec<u8>>>)
    ensures
        scan_doc(r) == bytes@,
        scan_done(r) == 0,
        scan_live(r),
{
    let mut r = Reader::from_reader(Cursor::new(bytes.clone()));
    r.config_mut().expand_empty_elements = true;
    r
}

/// Relies on quick_xml's `Reader::read_event_into`: a start tag yields its
/// attribute values (the next slice of the document's value sequence), any
/// other event yields nothing, the end of the input can only be reached with
/// the whole document scanned, and an error means the scan of these bytes
/// fails. Each yielded event spends fuel, and after the end or a failure the
/// scanner is not live and must not be asked again.
#[verifier::external_body]
fn scan_next(r: &mut Reader<Cursor<Vec<u8>>>) -> (step: ScanStep)
    requires
        scan_live(*old(r)),
    ensures
        scan_doc(*final(r)) == scan_doc(*old(r)),
        ({
            let doc = scan_doc(*old(r));
            let done = scan_done(*old(r));
            match step {
                ScanStep::Tag(vals) => {
                    &&& scan_live(*final(r))
                    &&& scan_fuel(*final(r)) < scan_fuel(*old(r))
                    &&& scan_done(*final(r)) == done + vals@.len()
                    &&& done + vals@.len() <= xml_attr_values(doc).len()
                    &&& vals@.map_values(|s: String| s@) == xml_attr_values(doc).subrange(
                        done as int,
                        done + vals@.len() as int,
                    )
                },
                ScanStep::Skip => {
                    &&& scan_live(*final(r))
                    &&& scan_fuel(*final(r)) < scan_fuel(*old(r))
                    &&& scan_done(*final(r)) == done
                },
                ScanStep::End => {
                    &&& !scan_live(*final(r))
                    &&& xml_ok(doc)
                    &&& done == xml_attr_values(doc).len()
                },
                ScanStep::Fail => {
                    &&& !scan_live(*final(r))
                    &&& !xml_ok(doc)
                },
            }
        }),
{
    let mut buf: Vec<u8> = Vec::new();
    match r.read_event_into(&mut buf) {
        Ok(Event::Start(e)) => {
            let vals: Result<Vec<String>, ()> = e.attributes().map(
                |a| a.map(|at| at.value.into_owned()).map_err(|_| ()),
            ).collect();
            match vals {
                Ok(v) => ScanStep::Tag(v),
                Err(_) => ScanStep::Fail,
            }
        },
        Ok(Event::Eof) => ScanStep::End,
        Ok(_) => ScanStep::Skip,
        Err(_) => ScanStep::Fail,
    }
}

/// Scans a document once and accumulates the attribute values of its start
/// tags; all-or-nothing, with `None` exactly when the scan of `bytes` fails.
pub fn extract_attributes(bytes: &Vec<u8>) -> (r: Option<AttributeSet>)
    ensures
        r is Some <==> xml_ok(bytes@),
        r matches Some(s) ==> s.wf() && s@ == attr_value_set(bytes@),
{
    let ghost doc = bytes@;
    let ghost all = xml_attr_values(doc);
    let mut scanner = scanner_new(bytes);
    let mut attributes = AttributeSet::new();
    proof {
        assert(all.subrange(0, 0) =~= Seq::<Seq<char>>::empty());
        assert(Seq::<Seq<char>>::empty().to_set() =~= Set::<Seq<char>>::empty());
    }
    loop
        invariant_except_break
            scan_live(scanner),
            scan_done(scanner) <= all.len(),
            attributes@ == all.subrange(0, scan_done(scanner) as int).to_set(),
        invariant
            doc == bytes@,
            scan_doc(scanner) == doc,
            all == xml_attr_values(doc),
            attributes.wf(),
        ensures
            xml_ok(doc),
            attributes.wf(),
            attributes@ == attr_value_set(doc),
        decreases scan_fuel(scanner),
    {
        let ghost done0 = scan_done(scanner);
        match scan_next(&mut scanner) {
            ScanStep::Tag(vals) => {
                let ghost tag_vals = vals@.map_values(|s: String| s@);
                let n = vals.len();
                let mut k: usize = 0;
                while k < n
                    invariant
                        n == vals.len(),
                        k <= n,
                        tag_vals == vals@.map_values(|s: String| s@),
                        tag_vals == all.subrange(done0 as int, done0 + n),
                        done0 + n <= all.len(),
                        attributes.wf(),
                        attributes@ == all.subrange(0, done0 + k).to_set(),
                    decreases n - k,
                {
                    let v = vals[k].clone();
                    proof {
                        assert(tag_vals[k as int] == v@);
                        assert(all[done0 + k] == all.subrange(done0 as int, done0 + n)[k as int]);
                        assert(all.subrange(0, done0 + k + 1) =~= all.subrange(
                            0,
                            done0 + k,
                        ).push(all[done0 + k]));
                        crate::attrset::lemma_push_to_set(
                            all.subrange(0, done0 + k),
                            all[done0 + k],
                        );
                    }
                    attributes.insert(v);
                    k += 1;
                }
            },
            ScanStep::Skip => {},
            ScanStep::End => {
                proof {
                    assert(all.subrange(0, done0 as int) =~= all);
                    assert(attributes@ == attr_value_set(doc));
                }
                break ;
            },
            ScanStep::Fail => {
                return None;
            },
        }
    }
    Some(attributes)
}

} // verus!
