//! The streaming XML view the parsers work on.
//!
//! A document is turned into a flat sequence of tokens — start element, end
//! element, character data — by the `xml` crate; element names are reduced to
//! their local (unprefixed) part, so SOAP namespace prefixes do not matter to
//! any consumer. The stream stops at the end of the document or at the first
//! parse error, so a malformed document simply yields a shorter stream.

use vstd::prelude::*;
use xml::reader::{EventReader, XmlEvent};

verus! {

/// The mathematical form of one token: the local element name or the
/// character data it carries.
pub enum Token {
    Start(Seq<char>),
    End(Seq<char>),
    Text(Seq<char>),
}

/// One token of the scanned document.
pub enum XmlToken {
    /// An element opens; the payload is its local name.
    Start(Vec<char>),
    /// An element closes; the payload is its local name.
    End(Vec<char>),
    /// Character data between tags.
    Text(Vec<char>),
}

impl View for XmlToken {
    type V = Token;

    open spec fn view(&self) -> Token {
        match self {
            XmlToken::Start(n) => Token::Start(n@),
            XmlToken::End(n) => Token::End(n@),
            XmlToken::Text(d) => Token::Text(d@),
        }
    }
}

/// The token sequence a vector of tokens stands for.
pub open spec fn toks_of(ts: Seq<XmlToken>) -> Seq<Token> {
    ts.map_values(|t: XmlToken| t@)
}

/// The token stream that scanning a given document text produces.
pub uninterp spec fn xml_tokens_of(doc: Seq<char>) -> Seq<Token>;

/// Relies on the `xml` crate's EventReader: pulled from a string source, it
/// yields the document's events in order, a function of the text alone. This
/// keeps the element and text events up to `EndDocument` or the first parse
/// error, with each name reduced to its local part.
#[verifier::external_body]
pub fn scan_xml(doc: &str) -> (r: Vec<XmlToken>)
    ensures
        toks_of(r@) == xml_tokens_of(doc@),
{
    let mut reader = EventReader::from_str(doc);
    let mut out: Vec<XmlToken> = Vec::new();
    loop {
        match reader.next() {
            Ok(XmlEvent::StartElement { name, .. }) => out.push(XmlToken::Start(name.local_name.chars().collect())),
            Ok(XmlEvent::EndElement { name }) => out.push(XmlToken::End(name.local_name.chars().collect())),
            Ok(XmlEvent::Characters(text)) => out.push(XmlToken::Text(text.chars().collect())),
            Ok(XmlEvent::EndDocument) | Err(_) => return out,
            _ => {},
        }
    }
}

/// The first character data lying inside an element named `name`, walking
/// the stream with a single in-the-element flag: entering `name` raises it,
/// leaving `name` clears it, and the first text seen while it is raised is
/// the result.
pub open spec fn first_text_inside(toks: Seq<Token>, name: Seq<char>, inside: bool) -> Option<
    Seq<char>,
>
    decreases toks.len(),
{
    if toks.len() == 0 {
        None
    } else {
        match toks[0] {
            Token::Start(n) => first_text_inside(toks.drop_first(), name, inside || n == name),
            Token::End(n) => first_text_inside(
                toks.drop_first(),
                name,
                if n == name {
                    false
                } else {
                    inside
                },
            ),
            Token::Text(d) => if inside {
                Some(d)
            } else {
                first_text_inside(toks.drop_first(), name, false)
            },
        }
    }
}

/// The first character data inside an element locally named `name`.
pub fn find_first_text(toks: &Vec<XmlToken>, name: &Vec<char>) -> (r: Option<Vec<char>>)
    ensures
        match r {
            Some(v) => first_text_inside(toks_of(toks@), name@, false) == Some(v@),
            None => first_text_inside(toks_of(toks@), name@, false) is None,
        },
{
    proof {
        assert(toks_of(toks@).skip(0) =~= toks_of(toks@));
    }
    let mut inside = false;
    let mut i: usize = 0;
    while i < toks.len()
        invariant
            i <= toks@.len(),
            first_text_inside(toks_of(toks@), name@, false) == first_text_inside(
                toks_of(toks@).skip(i as int),
                name@,
                inside,
            ),
        decreases toks.len() - i,
    {
        proof {
            assert(toks_of(toks@).skip(i as int).drop_first() =~= toks_of(toks@).skip(
                i as int + 1,
            ));
            assert(toks_of(toks@).skip(i as int)[0] == toks@[i as int]@);
        }
        match &toks[i] {
            XmlToken::Start(n) => {
                if crate::text::eq_chars(n, name) {
                    inside = true;
                }
            },
            XmlToken::End(n) => {
                if crate::text::eq_chars(n, name) {
                    inside = false;
                }
            },
            XmlToken::Text(d) => {
                if inside {
                    return Some(crate::text::sub_chars(d, 0, d.len()));
                }
            },
        }
        i += 1;
    }
    None
}

} // verus!
