use vstd::prelude::*;
use vstd::utf8::{decode_utf8, valid_utf8};

use crate::dates::{header_view, if_changed_since, token_of};
use crate::reply::{conv_ioe, failure_status, IoFailure, Reply, ReplyModel, Status};
use crate::text::{ends_with, has_prefix, has_suffix, slice, starts_with};

verus! {

/// What precedes the formatter's fragment in a rendered document.
pub const PAGE_PRE: &'static str = "<!DOCTYPE html>
<html lang=\"en\">
<head>
<meta charset=\"utf-8\"/>
<meta name=\"viewport\" content=\"width=device-width, initial-scale=1.0\"/>
<link rel=\"stylesheet\" href=\"/style.css\" type=\"text/css\" media=\"all\">
</head>
<body>
";

/// What follows the formatter's fragment in a rendered document.
pub const PAGE_POST: &'static str = "
</body>
</html>
";

/// The first line of the text that gzip data decompresses to, with its line
/// break, where the data can be decompressed that far and the line is UTF-8.
pub uninterp spec fn gz_first_line(data: Seq<u8>) -> Option<Seq<char>>;

/// Relies on `flate2::read::GzDecoder`, read through std's
/// `BufRead::read_line`: the result depends on the bytes alone.
#[verifier::external_body]
fn gunzip_first_line(data: &Vec<u8>) -> (r: Option<String>)
    ensures
        r is Some == gz_first_line(data@) is Some,
        r matches Some(l) ==> gz_first_line(data@) == Some(l@),
{
    let mut reader = std::io::BufReader::new(flate2::read::GzDecoder::new(data.as_slice()));
    let mut line = String::new();
    std::io::BufRead::read_line(&mut reader, &mut line).ok().map(|_| line)
}

/// Relies on `String::from_utf8`: it accepts exactly the valid UTF-8 byte
/// sequences and keeps the text they encode.
#[verifier::external_body]
fn string_from_utf8(bytes: Vec<u8>) -> (r: Option<String>)
    ensures
        r is Some == valid_utf8(bytes@),
        r matches Some(s) ==> s@ == decode_utf8(bytes@),
{
    String::from_utf8(bytes).ok()
}

/// The compressed source of a page: `/usr/share/man/man{section}/{stem}.gz`.
pub open spec fn backing_path(section: Seq<char>, stem: Seq<char>) -> Seq<char> {
    "/usr/share/man/man"@ + section + "/"@ + stem + ".gz"@
}

/// Builds the path of the compressed source of a page.
pub fn backing_path_of(section: &str, stem: &str) -> (r: String)
    ensures
        r@ == backing_path(section@, stem@),
{
    let mut r = String::from_str("/usr/share/man/man");
    r.append(section);
    r.append("/");
    r.append(stem);
    r.append(".gz");
    r
}

/// What the render pipeline asks for next.
#[derive(Debug, PartialEq, Eq)]
pub enum RenderStep {
    /// Read the modification time of the document at `path`; `since` is the
    /// client's freshness token, to be handed back.
    Stat { path: String, since: Option<u64> },
    /// Read the compressed bytes of the document at `path`.
    ReadHead { path: String, modified: u64 },
    /// Run the formatter on the document at `path`.
    Format { path: String, modified: u64 },
    /// Answer the request.
    Done(Reply),
}

/// The mathematical value of a [`RenderStep`].
pub ghost enum RenderModel {
    Stat { path: Seq<char>, since: Option<u64> },
    ReadHead { path: Seq<char>, modified: u64 },
    Format { path: Seq<char>, modified: u64 },
    Done(ReplyModel),
}

impl View for RenderStep {
    type V = RenderModel;

    open spec fn view(&self) -> RenderModel {
        match self {
            RenderStep::Stat { path, since } => RenderModel::Stat { path: path@, since: *since },
            RenderStep::ReadHead { path, modified } => RenderModel::ReadHead {
                path: path@,
                modified: *modified,
            },
            RenderStep::Format { path, modified } => RenderModel::Format {
                path: path@,
                modified: *modified,
            },
            RenderStep::Done(r) => RenderModel::Done(r@),
        }
    }
}

pub open spec fn fail(s: Status) -> RenderModel {
    RenderModel::Done(ReplyModel::Failed(s))
}

/// The first step for `/{section}/{name}`: the name must end in `.html`.
pub open spec fn render_model(section: Seq<char>, name: Seq<char>, since: Option<u64>) -> RenderModel {
    if has_suffix(name, ".html"@) {
        RenderModel::Stat {
            path: backing_path(section, name.subrange(0, name.len() - ".html"@.len())),
            since,
        }
    } else {
        fail(Status::NotFound)
    }
}

/// Starts rendering `/{section}/{name}` for a client that holds the freshness
/// token `since`.
pub fn render(section: &str, name: &str, since: Option<u64>) -> (r: RenderStep)
    ensures
        r@ == render_model(section@, name@, since),
{
    if ends_with(name, ".html") {
        let stem = slice(name, 0, name.unicode_len() - ".html".unicode_len());
        RenderStep::Stat { path: backing_path_of(section, stem.as_str()), since }
    } else {
        RenderStep::Done(Reply::Failed(Status::NotFound))
    }
}

/// The first step for a request that carries an `If-Modified-Since` value.
pub open spec fn render_request_model(
    section: Seq<char>,
    name: Seq<char>,
    header: Option<Seq<char>>,
) -> RenderModel {
    match token_of(header) {
        Ok(since) => render_model(section, name, since),
        Err(s) => fail(s),
    }
}

/// Starts rendering `/{section}/{name}` with the raw `If-Modified-Since`
/// value, if any: a malformed value is answered with 400 before anything else.
pub fn render_request(section: &str, name: &str, header: Option<&str>) -> (r: RenderStep)
    ensures
        r@ == render_request_model(section@, name@, header_view(header)),
{
    match if_changed_since(header) {
        Ok(since) => render(section, name, since),
        Err(s) => RenderStep::Done(Reply::Failed(s)),
    }
}

/// The step once the modification time `meta` of the document is known.
pub open spec fn after_stat_model(
    path: Seq<char>,
    since: Option<u64>,
    meta: Result<u64, IoFailure>,
) -> RenderModel {
    match meta {
        Err(e) => fail(failure_status(e)),
        Ok(m) => match since {
            Some(t) if t >= m => RenderModel::Done(ReplyModel::NotModified),
            _ => RenderModel::ReadHead { path, modified: m },
        },
    }
}

/// Goes on once the modification time of the document is read: a client whose
/// token is not older than it gets 304.
pub fn after_stat(path: String, since: Option<u64>, meta: Result<u64, IoFailure>) -> (r: RenderStep)
    ensures
        r@ == after_stat_model(path@, since, meta),
{
    match meta {
        Err(e) => RenderStep::Done(Reply::Failed(conv_ioe(e))),
        Ok(m) => match since {
            Some(t) if t >= m => RenderStep::Done(Reply::NotModified),
            _ => RenderStep::ReadHead { path, modified: m },
        },
    }
}

/// A line without its final line break, if it has one.
pub open spec fn chomp(line: Seq<char>) -> Seq<char> {
    if line.len() > 0 && line.last() == '\n' {
        line.drop_last()
    } else {
        line
    }
}

/// The target of an alias directive: what follows `.so ` at the start of the
/// first line of a document.
pub open spec fn alias_target(line: Seq<char>) -> Option<Seq<char>> {
    let l = chomp(line);
    if has_prefix(l, ".so "@) {
        Some(l.subrange(".so "@.len() as int, l.len() as int))
    } else {
        None
    }
}

/// Reads the alias directive of a document from its first line, if it has one.
pub fn check_so(line: &str) -> (r: Option<String>)
    ensures
        match r {
            Some(t) => alias_target(line@) == Some(t@),
            None => alias_target(line@) is None,
        },
{
    let mut n = line.unicode_len();
    if n > 0 && line.get_char(n - 1) == '\n' {
        n = n - 1;
    }
    let l = slice(line, 0, n);
    assert(l@ == chomp(line@)) by {
        if line@.len() > 0 && line@.last() == '\n' {
            assert(line@.drop_last() =~= line@.subrange(0, n as int));
        } else {
            assert(line@ =~= line@.subrange(0, n as int));
        }
    }
    if starts_with(l.as_str(), ".so ") {
        Some(slice(l.as_str(), ".so ".unicode_len(), n))
    } else {
        None
    }
}

/// The URL that an alias target such as `man1/ls.1` stands for: `/1/ls.1.html`.
pub open spec fn alias_location(target: Seq<char>) -> Option<Seq<char>> {
    if has_prefix(target, "man"@) {
        Some("/"@ + target.subrange("man"@.len() as int, target.len() as int) + ".html"@)
    } else {
        None
    }
}

/// The step once the first line of the document is known (`None` where it
/// could not be decompressed or decoded).
pub open spec fn after_first_line_model(
    path: Seq<char>,
    modified: u64,
    line: Option<Seq<char>>,
) -> RenderModel {
    match line {
        None => fail(Status::Internal),
        Some(l) => match alias_target(l) {
            None => RenderModel::Format { path, modified },
            Some(t) => match alias_location(t) {
                Some(loc) => RenderModel::Done(
                    ReplyModel::Redirect { location: loc, modified: Some(modified) },
                ),
                None => fail(Status::NotFound),
            },
        },
    }
}

/// Goes on once the first line of the document is known: an alias is
/// redirected to the page it names without formatting anything; any other
/// document goes to the formatter.
pub fn after_first_line(path: String, modified: u64, line: Option<String>) -> (r: RenderStep)
    ensures
        r@ == after_first_line_model(path@, modified, match line {
            Some(l) => Some(l@),
            None => None,
        }),
{
    match line {
        None => RenderStep::Done(Reply::Failed(Status::Internal)),
        Some(l) => match check_so(l.as_str()) {
            None => RenderStep::Format { path, modified },
            Some(t) => {
                if starts_with(t.as_str(), "man") {
                    let part = slice(t.as_str(), "man".unicode_len(), t.unicode_len());
                    let mut loc = String::from_str("/");
                    loc.append(part.as_str());
                    loc.append(".html");
                    RenderStep::Done(Reply::Redirect { location: loc, modified: Some(modified) })
                } else {
                    RenderStep::Done(Reply::Failed(Status::NotFound))
                }
            },
        },
    }
}

/// The step once the compressed bytes of the document were read.
pub open spec fn after_head_model(
    path: Seq<char>,
    modified: u64,
    data: Result<Seq<u8>, IoFailure>,
) -> RenderModel {
    match data {
        Err(e) => fail(failure_status(e)),
        Ok(b) => after_first_line_model(path, modified, gz_first_line(b)),
    }
}

/// Goes on once the compressed bytes of the document were read: decompresses
/// its first line and looks for an alias directive there.
pub fn after_head(path: String, modified: u64, data: Result<Vec<u8>, IoFailure>) -> (r: RenderStep)
    ensures
        r@ == after_head_model(path@, modified, match data {
            Ok(b) => Ok(b@),
            Err(e) => Err(e),
        }),
{
    match data {
        Err(e) => RenderStep::Done(Reply::Failed(conv_ioe(e))),
        Ok(b) => after_first_line(path, modified, gunzip_first_line(&b)),
    }
}

/// The rendered document around the formatter's output, where that is UTF-8.
pub open spec fn page_of(out: Seq<u8>) -> Option<Seq<char>> {
    if valid_utf8(out) {
        Some(PAGE_PRE@ + decode_utf8(out) + PAGE_POST@)
    } else {
        None
    }
}

/// Wraps the formatter's output in the document shell; `None` where the
/// output is not UTF-8.
pub fn format_reply(out: Vec<u8>) -> (r: Option<String>)
    ensures
        match r {
            Some(h) => page_of(out@) == Some(h@),
            None => page_of(out@) is None,
        },
{
    match string_from_utf8(out) {
        None => None,
        Some(body) => {
            let mut r = String::from_str(PAGE_PRE);
            r.append(body.as_str());
            r.append(PAGE_POST);
            Some(r)
        },
    }
}

/// The step once the formatter has run. The formatter is an outside tool, not
/// the corpus, so any failure to run it is an internal error.
pub open spec fn after_format_model(modified: u64, out: Result<Seq<u8>, IoFailure>) -> RenderModel {
    match out {
        Err(_) => fail(Status::Internal),
        Ok(b) => match page_of(b) {
            Some(html) => RenderModel::Done(ReplyModel::Page { html, modified }),
            None => fail(Status::Internal),
        },
    }
}

/// Finishes once the formatter has run: 200 with the rendered document, or
/// 500 where it could not be run or its output is not UTF-8.
pub fn after_format(modified: u64, out: Result<Vec<u8>, IoFailure>) -> (r: RenderStep)
    ensures
        r@ == after_format_model(modified, match out {
            Ok(b) => Ok(b@),
            Err(e) => Err(e),
        }),
{
    match out {
        Err(_) => RenderStep::Done(Reply::Failed(Status::Internal)),
        Ok(b) => match format_reply(b) {
            Some(html) => RenderStep::Done(Reply::Page { html, modified }),
            None => RenderStep::Done(Reply::Failed(Status::Internal)),
        },
    }
}

/// The reply to `/{section}/{name}` for a client holding the freshness token
/// `since`, given what the corpus and the formatter answer: the modification
/// time, the compressed bytes, and the formatter's output.
pub open spec fn pipeline(
    section: Seq<char>,
    name: Seq<char>,
    since: Option<u64>,
    meta: Result<u64, IoFailure>,
    head: Result<Seq<u8>, IoFailure>,
    out: Result<Seq<u8>, IoFailure>,
) -> ReplyModel {
    match render_model(section, name, since) {
        RenderModel::Stat { path, since } => match after_stat_model(path, since, meta) {
            RenderModel::ReadHead { path, modified } => match after_head_model(path, modified, head) {
                RenderModel::Format { modified, .. } => match after_format_model(modified, out) {
                    RenderModel::Done(r) => r,
                    _ => ReplyModel::Failed(Status::Internal),
                },
                RenderModel::Done(r) => r,
                _ => ReplyModel::Failed(Status::Internal),
            },
            RenderModel::Done(r) => r,
            _ => ReplyModel::Failed(Status::Internal),
        },
        RenderModel::Done(r) => r,
        _ => ReplyModel::Failed(Status::Internal),
    }
}

/// A client whose freshness token is not older than the document's
/// modification time, the same time included, gets 304 with no body, whatever
/// the document holds and whatever the formatter would say.
pub proof fn lemma_fresh_token_not_modified(
    section: Seq<char>,
    name: Seq<char>,
    since: u64,
    modified: u64,
    head: Result<Seq<u8>, IoFailure>,
    out: Result<Seq<u8>, IoFailure>,
)
    requires
        has_suffix(name, ".html"@),
        since >= modified,
    ensures
        pipeline(section, name, Some(since), Ok(modified), head, out) == ReplyModel::NotModified,
{
}

/// A client whose freshness token is older than the document's modification
/// time, or who holds none, never gets 304.
pub proof fn lemma_stale_token_not_cached(
    section: Seq<char>,
    name: Seq<char>,
    since: Option<u64>,
    modified: u64,
    head: Result<Seq<u8>, IoFailure>,
    out: Result<Seq<u8>, IoFailure>,
)
    requires
        since matches Some(t) ==> t < modified,
    ensures
        pipeline(section, name, since, Ok(modified), head, out) != ReplyModel::NotModified,
{
}

/// Without a freshness token, a document that is no alias is rendered as the
/// fixed shell around the formatter's output and carries its modification
/// time: two requests that find the same document and the same formatter
/// output get byte-identical pages.
pub proof fn lemma_render_is_shell_around_fragment(
    section: Seq<char>,
    name: Seq<char>,
    modified: u64,
    head: Seq<u8>,
    line: Seq<char>,
    out: Seq<u8>,
)
    requires
        has_suffix(name, ".html"@),
        gz_first_line(head) == Some(line),
        alias_target(line) is None,
        valid_utf8(out),
    ensures
        pipeline(section, name, None, Ok(modified), Ok(head), Ok(out)) == (ReplyModel::Page {
            html: PAGE_PRE@ + decode_utf8(out) + PAGE_POST@,
            modified,
        }),
{
}

/// A document whose first line is `.so man{part}` redirects to `/{part}.html`
/// with its modification time, and the formatter is never consulted.
pub proof fn lemma_alias_redirects(
    section: Seq<char>,
    name: Seq<char>,
    modified: u64,
    head: Seq<u8>,
    line: Seq<char>,
    part: Seq<char>,
    out: Result<Seq<u8>, IoFailure>,
)
    requires
        has_suffix(name, ".html"@),
        gz_first_line(head) == Some(line),
        chomp(line) == ".so man"@ + part,
    ensures
        pipeline(section, name, None, Ok(modified), Ok(head), out) == (ReplyModel::Redirect {
            location: "/"@ + part + ".html"@,
            modified: Some(modified),
        }),
{
    reveal_strlit(".so ");
    reveal_strlit(".so man");
    reveal_strlit("man");
    let l = chomp(line);
    assert(l.subrange(0, 4) =~= ".so "@);
    let t = l.subrange(4, l.len() as int);
    assert(t =~= "man"@ + part);
    assert(t.subrange(0, 3) =~= "man"@);
    assert(t.subrange(3, t.len() as int) =~= part);
}

} // verus!
