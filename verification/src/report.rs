//! The report that is mailed: its bytes and the text shown inline.

use vstd::prelude::*;
use vstd::string::*;
use vstd::utf8::*;

verus! {

/// Mathematical model of a [`ReportContent`].
pub struct ReportContentView {
    pub raw_bytes: Seq<u8>,
    pub html_text: Seq<char>,
}

/// The text that lossy UTF-8 decoding makes of `bytes`.
pub uninterp spec fn lossy_text(bytes: Seq<u8>) -> Seq<char>;

/// Decodes bytes with std's `String::from_utf8_lossy`. The contract names
/// the outcome [`lossy_text`] and claims what std documents of it: bytes
/// that are valid UTF-8 decode to the text they encode.
#[verifier::external_body]
fn decode_lossy(bytes: &[u8]) -> (text: String)
    ensures
        text@ == lossy_text(bytes@),
        valid_utf8(bytes@) ==> text@ == decode_utf8(bytes@),
{
    String::from_utf8_lossy(bytes).into_owned()
}

/// `name` is the base name of `path`: the longest end of the path that
/// holds no `/`.
pub open spec fn is_base_name(path: Seq<char>, name: Seq<char>) -> bool {
    &&& name.len() <= path.len()
    &&& name == path.subrange(path.len() - name.len(), path.len() as int)
    &&& forall|i: int| 0 <= i < name.len() ==> name[i] != '/'
    &&& name.len() < path.len() ==> path[path.len() - name.len() - 1] == '/'
}

/// The base name of a path.
pub open spec fn base_name_of(path: Seq<char>) -> Seq<char> {
    choose|name: Seq<char>| is_base_name(path, name)
}

/// A path has one base name only.
pub proof fn base_name_unique(path: Seq<char>, first: Seq<char>, second: Seq<char>)
    requires
        is_base_name(path, first),
        is_base_name(path, second),
    ensures
        first == second,
        first == base_name_of(path),
{
    if first.len() < second.len() {
        let at = second.len() - first.len() - 1;
        assert(second[at] == path[path.len() - first.len() - 1]);
    }
    if second.len() < first.len() {
        let at = first.len() - second.len() - 1;
        assert(first[at] == path[path.len() - second.len() - 1]);
    }
    assert(first =~= second);
    let chosen = base_name_of(path);
    if chosen.len() < first.len() {
        let at = first.len() - chosen.len() - 1;
        assert(first[at] == path[path.len() - chosen.len() - 1]);
    }
    if first.len() < chosen.len() {
        let at = chosen.len() - first.len() - 1;
        assert(chosen[at] == path[path.len() - first.len() - 1]);
    }
    assert(first =~= chosen);
}

/// The file name under which a report is attached: what follows the last
/// `/` of its path, or the whole path when it holds none.
pub fn base_name(path: &str) -> (name: String)
    ensures
        is_base_name(path@, name@),
        name@ == base_name_of(path@),
{
    let len = path.unicode_len();
    let mut start: usize = len;
    while start > 0 && path.get_char(start - 1) != '/'
        invariant
            start <= len,
            len == path@.len(),
            forall|i: int| start <= i < len ==> path@[i] != '/',
        decreases start,
    {
        start = start - 1;
    }
    let name = path.substring_char(start, len).to_owned();
    proof {
        base_name_unique(path@, name@, name@);
    }
    name
}

/// The bytes of a report file and their lossy decoding.
#[derive(Debug)]
pub struct ReportContent {
    raw_bytes: Vec<u8>,
    html_text: String,
}

impl View for ReportContent {
    type V = ReportContentView;

    closed spec fn view(&self) -> ReportContentView {
        ReportContentView { raw_bytes: self.raw_bytes@, html_text: self.html_text@ }
    }
}

impl ReportContentView {
    /// The content made of `bytes`.
    pub open spec fn of_bytes(bytes: Seq<u8>) -> ReportContentView {
        ReportContentView { raw_bytes: bytes, html_text: lossy_text(bytes) }
    }

    /// The content that stands in for a report that could not be read.
    pub open spec fn of_read(read: Option<Seq<u8>>) -> ReportContentView {
        match read {
            Some(bytes) => Self::of_bytes(bytes),
            None => Self::of_bytes(Seq::empty()),
        }
    }
}

impl ReportContent {
    #[verifier::type_invariant]
    spec fn projected(self) -> bool {
        self.html_text@ == lossy_text(self.raw_bytes@)
    }

    /// Takes the bytes of a report and decodes them for inline display.
    /// Decoding never fails; bytes that encode a text give that text back.
    pub fn from_bytes(bytes: Vec<u8>) -> (content: ReportContent)
        ensures
            content@ == ReportContentView::of_bytes(bytes@),
            valid_utf8(bytes@) ==> content@.html_text == decode_utf8(bytes@),
            forall|text: Seq<char>| bytes@ == encode_utf8(text) ==> content@.html_text == text,
    {
        let html_text = decode_lossy(bytes.as_slice());
        proof {
            assert forall|text: Seq<char>| bytes@ == encode_utf8(text) implies html_text@
                == text by {
                encode_utf8_valid_utf8(text);
                encode_utf8_decode_utf8(text);
            }
        }
        ReportContent { raw_bytes: bytes, html_text }
    }

    /// The content of a report of which not one byte was read.
    pub fn empty() -> (content: ReportContent)
        ensures
            content@.raw_bytes == Seq::<u8>::empty(),
            content@.html_text == Seq::<char>::empty(),
            content@ == ReportContentView::of_bytes(Seq::empty()),
    {
        let bytes: Vec<u8> = Vec::new();
        proof {
            assert(valid_utf8(bytes@));
            assert(decode_utf8(bytes@) =~= Seq::<char>::empty());
        }
        ReportContent::from_bytes(bytes)
    }

    /// Turns the outcome of reading the report file into content: the
    /// bytes read, or empty content when the file could not be read.
    pub fn from_read(read: Option<Vec<u8>>) -> (content: ReportContent)
        ensures
            content@ == ReportContentView::of_read(
                match read {
                    Some(bytes) => Some(bytes@),
                    None => None,
                },
            ),
            read is None ==> content@.raw_bytes.len() == 0 && content@.html_text.len() == 0,
    {
        match read {
            Some(bytes) => ReportContent::from_bytes(bytes),
            None => ReportContent::empty(),
        }
    }

    /// The bytes exactly as they were read.
    pub fn raw_bytes(&self) -> (bytes: &Vec<u8>)
        ensures
            bytes@ == self@.raw_bytes,
    {
        &self.raw_bytes
    }

    /// The text for inline display.
    pub fn html_text(&self) -> (text: &str)
        ensures
            text@ == self@.html_text,
            text@ == lossy_text(self@.raw_bytes),
    {
        proof {
            use_type_invariant(self);
        }
        self.html_text.as_str()
    }
}

} // verus!
