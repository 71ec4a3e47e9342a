//! Reading a feed document out of a zip archive held in memory.
use crate::text::{after_first_line, strip_first_line};
use crate::xml::{opt_view, XmlElement, XmlNode};
use crate::xml_source::{parse_xml, parsed_document};
use vstd::prelude::*;

verus! {

/// The text of the entry `name` of the zip archive `archive`, or `None` when
/// the archive cannot be opened, has no such entry, or the entry is not UTF-8 text.
pub uninterp spec fn zip_entry_text(archive: Seq<u8>, name: Seq<char>) -> Option<Seq<char>>;

/// `zip::ZipArchive::new` on the bytes, `by_name`, and `read_to_string` of the entry.
#[verifier::external_body]
pub(crate) fn read_zip_entry(archive: &[u8], name: &str) -> (r: Option<String>)
    ensures
        opt_view(r) == zip_entry_text(archive@, name@),
{
    let mut zip = zip::ZipArchive::new(std::io::Cursor::new(archive)).ok()?;
    let mut file = zip.by_name(name).ok()?;
    let mut text = String::new();
    std::io::Read::read_to_string(&mut file, &mut text).ok()?;
    Some(text)
}

/// Why a feed document could not be read.
#[derive(PartialEq, Eq, Structural, Clone, Copy, Debug)]
pub enum FeedError {
    /// The archive has no such entry (or is no zip archive, or the entry is not text).
    MissingEntry,
    /// The entry, without its first line, is not an XML document.
    InvalidXml,
    /// The document lacks an element, attribute or number the reader needs.
    Malformed,
}


/// The document in entry `name`: the entry's text without its first line,
/// parsed; or why there is none.
pub open spec fn document_in(archive: Seq<u8>, name: Seq<char>) -> Result<XmlNode, FeedError> {
    match zip_entry_text(archive, name) {
        None => Err(FeedError::MissingEntry),
        Some(t) => match parsed_document(after_first_line(t)) {
            None => Err(FeedError::InvalidXml),
            Some(n) => Ok(n),
        },
    }
}

/// Reads the entry `name` of a zip archive as an XML document, dropping the
/// entry's first line (the XML declaration) before parsing.
pub fn read_feed_document(archive: &[u8], name: &str) -> (r: Result<XmlElement, FeedError>)
    ensures
        match document_in(archive@, name@) {
            Err(e) => r == Err::<XmlElement, FeedError>(e),
            Ok(n) => r matches Ok(root) && root@ == n,
        },
{
    let text = match read_zip_entry(archive, name) {
        Some(t) => t,
        None => return Err(FeedError::MissingEntry),
    };
    let body = strip_first_line(text.as_str());
    match parse_xml(body.as_str()) {
        Some(root) => Ok(root),
        None => Err(FeedError::InvalidXml),
    }
}

} // verus!
