//! The parts of a URL that a request is made from, as the `url` crate
//! parses them.

use crate::text::chars_of;
use vstd::prelude::*;

verus! {

/// The parts of a parsed URL.
pub struct ParsedUrl {
    /// The scheme, without its colon.
    pub scheme: String,
    pub host: Option<String>,
    /// The port, where the URL gives one that is not its scheme's default.
    pub port: Option<u16>,
    /// The port, or else the default port of the scheme where one is known.
    pub port_or_known_default: Option<u16>,
    pub path: String,
    /// The query, without its question mark.
    pub query: Option<String>,
}

/// A [`ParsedUrl`] with its texts as sequences of characters.
pub struct UrlView {
    pub scheme: Seq<char>,
    pub host: Option<Seq<char>>,
    pub port: Option<u16>,
    pub port_or_known_default: Option<u16>,
    pub path: Seq<char>,
    pub query: Option<Seq<char>>,
}

impl View for ParsedUrl {
    type V = UrlView;

    open spec fn view(&self) -> UrlView {
        UrlView {
            scheme: self.scheme@,
            host: match self.host {
                Some(h) => Some(h@),
                None => None,
            },
            port: self.port,
            port_or_known_default: self.port_or_known_default,
            path: self.path@,
            query: match self.query {
                Some(q) => Some(q@),
                None => None,
            },
        }
    }
}

/// The default port of a scheme, for the schemes that have a known one.
pub open spec fn default_port(scheme: Seq<char>) -> Option<u16> {
    if scheme == "http"@ || scheme == "ws"@ {
        Some(80u16)
    } else if scheme == "https"@ || scheme == "wss"@ {
        Some(443u16)
    } else if scheme == "ftp"@ {
        Some(21u16)
    } else {
        None
    }
}

impl UrlView {
    /// The port of the URL, or else the default port of its scheme.
    pub open spec fn known_port(self) -> Option<u16> {
        match self.port {
            Some(p) => Some(p),
            None => default_port(self.scheme),
        }
    }
}

/// What `Url::parse` makes of a text: the parts of the URL, or nothing
/// where it rejects the text.
pub uninterp spec fn parsed_url(text: Seq<char>) -> Option<UrlView>;

/// The error of `Url::parse`. Nothing is claimed of what it holds.
#[verifier::external_type_specification]
#[verifier::external_body]
pub struct ExParseError(url::ParseError);

/// `Url::parse`, and the accessors `scheme`, `host_str`, `port`,
/// `port_or_known_default`, `path` and `query` of the URL it returns. The
/// parts depend on the text alone. Of the parts themselves this claims one
/// thing: `port_or_known_default` is the port where there is one, and else
/// the default port of the scheme where the crate knows one.
#[verifier::external_body]
pub(crate) fn parse_url(text: &str) -> (result: Result<ParsedUrl, url::ParseError>)
    ensures
        match result {
            Ok(url) => parsed_url(text@) == Some(url@) && url@.port_or_known_default
                == url@.known_port(),
            Err(_) => parsed_url(text@) is None,
        },
{
    let url = url::Url::parse(text)?;
    Ok(
        ParsedUrl {
            scheme: url.scheme().to_string(),
            host: url.host_str().map(String::from),
            port: url.port(),
            port_or_known_default: url.port_or_known_default(),
            path: url.path().to_string(),
            query: url.query().map(String::from),
        },
    )
}

/// The first index from `from` on at which a colon stands, or the length
/// of the text where none does.
pub open spec fn first_colon(text: Seq<char>, from: int) -> int
    decreases text.len() - from,
{
    if from < 0 || from >= text.len() {
        text.len() as int
    } else if text[from] == ':' {
        from
    } else {
        first_colon(text, from + 1)
    }
}

/// The first index from `from` on at which no slash stands, forward or
/// backward, or the length of the text where only slashes follow.
pub open spec fn after_slashes(text: Seq<char>, from: int) -> int
    decreases text.len() - from,
{
    if from < 0 || from >= text.len() {
        text.len() as int
    } else if text[from] == '/' || text[from] == '\\' {
        after_slashes(text, from + 1)
    } else {
        from
    }
}

/// A character that ends the authority of a URL.
pub open spec fn ends_authority(c: char) -> bool {
    c == '/' || c == '\\' || c == '?' || c == '#'
}

/// The first index from `from` on at which the authority ends, or the
/// length of the text where nothing ends it.
pub open spec fn authority_end(text: Seq<char>, from: int) -> int
    decreases text.len() - from,
{
    if from < 0 || from >= text.len() {
        text.len() as int
    } else if ends_authority(text[from]) {
        from
    } else {
        authority_end(text, from + 1)
    }
}

/// The last index from `lo` up to, not including, `hi` at which `c`
/// stands, or `lo - 1` where it stands at none.
pub open spec fn last_of(text: Seq<char>, lo: int, hi: int, c: char) -> int
    decreases hi - lo,
{
    if hi <= lo || hi > text.len() || lo < 0 {
        lo - 1
    } else if text[hi - 1] == c {
        hi - 1
    } else {
        last_of(text, lo, hi - 1, c)
    }
}

/// A decimal digit.
pub open spec fn is_digit(c: char) -> bool {
    '0' <= c <= '9'
}

/// The number that the characters from `lo` up to, not including, `hi`
/// write in decimal, where they are digits.
pub open spec fn number(text: Seq<char>, lo: int, hi: int) -> nat
    decreases hi - lo,
{
    if hi <= lo || hi > text.len() || lo < 0 {
        0
    } else {
        number(text, lo, hi - 1) * 10 + (text[hi - 1] as u32 - '0' as u32) as nat
    }
}

/// The port that the characters from `lo` up to, not including, `hi`
/// write: there is one where they are digits, at least one, and write a
/// number up to 65535.
pub open spec fn port_written(text: Seq<char>, lo: int, hi: int) -> Option<u16> {
    if lo < hi && (forall|k: int| lo <= k < hi ==> is_digit(#[trigger] text[k])) && number(
        text,
        lo,
        hi,
    ) <= 65535 {
        Some(number(text, lo, hi) as u16)
    } else {
        None
    }
}

/// The port that the text of a URL carries, whether or not it is the
/// default of the scheme.
///
/// The authority begins after the first colon and the slashes that follow
/// it, and ends before the next slash, question mark or hash. What stands
/// in it up to the last `@` names the user. In the rest, the port is what
/// follows the last colon, unless that colon stands inside the brackets of
/// an IPv6 address.
pub open spec fn port_in_text(text: Seq<char>) -> Option<u16> {
    let colon = first_colon(text, 0);
    if colon >= text.len() {
        None
    } else {
        let start = after_slashes(text, colon + 1);
        let end = authority_end(text, start);
        let host = last_of(text, start, end, '@') + 1;
        let sep = last_of(text, host, end, ':');
        if sep < host || last_of(text, host, end, ']') > sep {
            None
        } else {
            port_written(text, sep + 1, end)
        }
    }
}

/// The number that some digits write does not shrink when more digits
/// follow.
pub proof fn lemma_number_grows(text: Seq<char>, lo: int, mid: int, hi: int)
    requires
        0 <= lo <= mid <= hi <= text.len(),
        forall|k: int| lo <= k < hi ==> is_digit(#[trigger] text[k]),
    ensures
        number(text, lo, mid) <= number(text, lo, hi),
    decreases hi - mid,
{
    if mid < hi {
        lemma_number_grows(text, lo, mid, hi - 1);
    }
}

fn find_colon(text: &Vec<char>, from: usize) -> (at: usize)
    requires
        from <= text.len(),
    ensures
        at == first_colon(text@, from as int),
        from <= at <= text.len(),
{
    let mut at = from;
    while at < text.len() && text[at] != ':'
        invariant
            from <= at <= text.len(),
            first_colon(text@, from as int) == first_colon(text@, at as int),
        decreases text.len() - at,
    {
        at = at + 1;
    }
    at
}

fn skip_slashes(text: &Vec<char>, from: usize) -> (at: usize)
    requires
        from <= text.len(),
    ensures
        at == after_slashes(text@, from as int),
        from <= at <= text.len(),
{
    let mut at = from;
    while at < text.len() && (text[at] == '/' || text[at] == '\\')
        invariant
            from <= at <= text.len(),
            after_slashes(text@, from as int) == after_slashes(text@, at as int),
        decreases text.len() - at,
    {
        at = at + 1;
    }
    at
}

fn find_authority_end(text: &Vec<char>, from: usize) -> (at: usize)
    requires
        from <= text.len(),
    ensures
        at == authority_end(text@, from as int),
        from <= at <= text.len(),
{
    let mut at = from;
    while at < text.len() && !(text[at] == '/' || text[at] == '\\' || text[at] == '?' || text[at]
        == '#')
        invariant
            from <= at <= text.len(),
            authority_end(text@, from as int) == authority_end(text@, at as int),
        decreases text.len() - at,
    {
        at = at + 1;
    }
    at
}

/// The index after the last `c` from `lo` up to `hi`, or `lo` where there
/// is none.
fn find_after_last(text: &Vec<char>, lo: usize, hi: usize, c: char) -> (after: usize)
    requires
        lo <= hi <= text.len(),
    ensures
        after == last_of(text@, lo as int, hi as int, c) + 1,
        lo <= after <= hi,
{
    let mut after = hi;
    while after > lo && text[after - 1] != c
        invariant
            lo <= after <= hi <= text.len(),
            last_of(text@, lo as int, hi as int, c) == last_of(text@, lo as int, after as int, c),
        decreases after - lo,
    {
        after = after - 1;
    }
    after
}

fn read_port(text: &Vec<char>, lo: usize, hi: usize) -> (port: Option<u16>)
    requires
        lo <= hi <= text.len(),
    ensures
        port == port_written(text@, lo as int, hi as int),
{
    if lo == hi {
        return None;
    }
    let mut value: u32 = 0;
    let mut at = lo;
    while at < hi
        invariant
            lo <= at <= hi <= text.len(),
            forall|k: int| lo <= k < at ==> is_digit(#[trigger] text@[k]),
            value == number(text@, lo as int, at as int),
            value <= 65535,
        decreases hi - at,
    {
        let c = text[at];
        if !(c >= '0' && c <= '9') {
            return None;
        }
        let next: u32 = value * 10 + (c as u32 - '0' as u32);
        if next > 65535 {
            proof {
                if forall|k: int| lo <= k < hi ==> is_digit(#[trigger] text@[k]) {
                    lemma_number_grows(text@, lo as int, at + 1, hi as int);
                }
            }
            return None;
        }
        value = next;
        at = at + 1;
    }
    Some(value as u16)
}

/// Reads off the text of a URL the port that it carries.
pub fn explicit_port(text: &str) -> (port: Option<u16>)
    ensures
        port == port_in_text(text@),
{
    let chars = chars_of(text);
    let colon = find_colon(&chars, 0);
    if colon >= chars.len() {
        return None;
    }
    let start = skip_slashes(&chars, colon + 1);
    let end = find_authority_end(&chars, start);
    let host = find_after_last(&chars, start, end, '@');
    let after_sep = find_after_last(&chars, host, end, ':');
    if after_sep == host {
        return None;
    }
    let after_bracket = find_after_last(&chars, host, end, ']');
    if after_bracket > after_sep {
        return None;
    }
    read_port(&chars, after_sep, end)
}

} // verus!
