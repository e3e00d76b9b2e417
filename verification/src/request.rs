//! Reading a request: the head, line by line, and the body.
use crate::encoding::{lossy_text, utf8_lossy};
use crate::errors::api_error::{ApiError, ApiErrorView};
use crate::errors::http_parse_error::HttpParseError;
use crate::number::{read_number, read_usize, NumberFault};
use crate::text::{
    chars_of, find, find_chars, split_once, split_once_chars, starts_with_chars, str_eq, string_of,
};
use crate::text_map::TextMap;
use crate::tokens::{
    lines, lines_chars, split_whitespace, split_whitespace_chars, texts, trim, trim_chars,
};
use vstd::prelude::*;
use vstd::slice::slice_subrange;
use vstd::string::StringExecFns;

verus! {

/// What a line means for a request head that is being read.
#[derive(Debug, Clone, Copy, PartialEq, Eq)]
pub enum HeadStep {
    /// The head goes on: read another line.
    More,
    /// The line is the empty line that ends the head.
    Complete,
    /// Nothing was read: the stream ended before the head did.
    Truncated,
}

/// What `line` means for a request head that is being read.
pub open spec fn head_step(line: Seq<char>) -> HeadStep {
    if line == "\r\n"@ {
        HeadStep::Complete
    } else if line.len() == 0 {
        HeadStep::Truncated
    } else {
        HeadStep::More
    }
}

/// Appends `line`, as it was read from the stream, to the head `request`,
/// and says whether to read on.
pub fn accept_head_line(request: &mut String, line: &str) -> (r: HeadStep)
    ensures
        final(request)@ == old(request)@ + line@,
        r == head_step(line@),
{
    request.append(line);
    if str_eq(line, "\r\n") {
        HeadStep::Complete
    } else if line.unicode_len() == 0 {
        HeadStep::Truncated
    } else {
        HeadStep::More
    }
}

/// The text of a request before the empty line that ends its head.
pub open spec fn head_text(request: Seq<char>) -> Option<Seq<char>> {
    match find(request, "\r\n\r\n"@) {
        Some(end) => Some(request.take(end)),
        None => None,
    }
}

/// The headers that the lines `1..upto` give, in order: each line is split at
/// its first colon, and only the value is trimmed. `None` where one of the
/// lines holds no colon.
pub open spec fn header_entries(lines: Seq<Seq<char>>, upto: int) -> Option<
    Seq<(Seq<char>, Seq<char>)>,
>
    decreases upto,
{
    if upto <= 1 {
        Some(Seq::empty())
    } else {
        match (header_entries(lines, upto - 1), split_once(lines[upto - 1], ':')) {
            (Some(before), Some((name, value))) => Some(before.push((name, trim(value)))),
            _ => None,
        }
    }
}

/// The method, the target and the headers of a request, or `None` where the
/// request is malformed.
///
/// The head ends at the first empty line. Its first line must hold exactly
/// three words, the third of which begins with `HTTP/1.`; the first two are
/// the method and the target. Every further line is a header.
pub open spec fn parse_request(request: Seq<char>) -> Option<
    (Seq<char>, Seq<char>, Seq<(Seq<char>, Seq<char>)>),
> {
    match head_text(request) {
        None => None,
        Some(head) => {
            let all = lines(head);
            if all.len() == 0 {
                None
            } else {
                let words = split_whitespace(all[0]);
                if words.len() == 3 && "HTTP/1."@.is_prefix_of(words[2]) {
                    match header_entries(all, all.len() as int) {
                        Some(entries) => Some((words[0], words[1], entries)),
                        None => None,
                    }
                } else {
                    None
                }
            }
        },
    }
}

/// Reads the head of a request.
pub fn parse_http(request: &str) -> (r: Result<(String, String, TextMap), HttpParseError>)
    ensures
        match parse_request(request@) {
            Some((method, target, entries)) => r matches Ok(parsed) && parsed.0@ == method
                && parsed.1@ == target && parsed.2.entries() == entries,
            None => r matches Err(e) && e.message@ == HttpParseError::default_message(),
        },
{
    let chars = chars_of(request);
    let terminator = chars_of("\r\n\r\n");
    let end = match find_chars(chars.as_slice(), terminator.as_slice()) {
        Some(end) => end,
        None => {
            return Err(HttpParseError::default());
        },
    };
    assert(end <= chars@.len()) by {
        crate::text::lemma_find_within(chars@, terminator@);
    }
    let head = slice_subrange(chars.as_slice(), 0, end);
    assert(head@ =~= request@.take(end as int));
    let all = lines_chars(head);
    if all.len() == 0 {
        return Err(HttpParseError::default());
    }
    assert(texts(all@)[0] == all@[0]@);
    let words = split_whitespace_chars(all[0].as_slice());
    if words.len() != 3 {
        return Err(HttpParseError::default());
    }
    assert(texts(words@)[0] == words@[0]@);
    assert(texts(words@)[1] == words@[1]@);
    assert(texts(words@)[2] == words@[2]@);
    let version = chars_of("HTTP/1.");
    if !starts_with_chars(words[2].as_slice(), version.as_slice()) {
        return Err(HttpParseError::default());
    }
    let mut headers = TextMap::new();
    let ghost given = texts(all@);
    let ghost method = words@[0]@;
    let ghost target = words@[1]@;
    assert(parse_request(request@) == match header_entries(given, given.len() as int) {
        Some(entries) => Some((method, target, entries)),
        None => None,
    });
    let mut i: usize = 1;
    while i < all.len()
        invariant
            1 <= i <= all@.len(),
            given == texts(all@),
            parse_request(request@) == match header_entries(given, given.len() as int) {
                Some(entries) => Some((method, target, entries)),
                None => None,
            },
            header_entries(given, i as int) == Some(headers.entries()),
        decreases all@.len() - i,
    {
        assert(given[i as int] == all@[i as int]@);
        match split_once_chars(all[i].as_slice(), ':') {
            Some((name, value)) => {
                let value = trim_chars(value.as_slice());
                headers.insert(string_of(name.as_slice()), string_of(value.as_slice()));
            },
            None => {
                assert(header_entries(given, i + 1) is None);
                proof {
                    lemma_header_entries_none(given, i + 1, all@.len() as int);
                }
                return Err(HttpParseError::default());
            },
        }
        i += 1;
    }
    Ok((string_of(words[0].as_slice()), string_of(words[1].as_slice()), headers))
}

/// Once a line without a colon has been met, no longer prefix of the lines
/// gives headers.
proof fn lemma_header_entries_none(lines: Seq<Seq<char>>, from: int, upto: int)
    requires
        header_entries(lines, from) is None,
        from <= upto,
    ensures
        header_entries(lines, upto) is None,
    decreases upto - from,
{
    if from < upto {
        lemma_header_entries_none(lines, from, upto - 1);
    }
}

/// The number of body bytes that the headers announce: none without a
/// `Content-Length` header; otherwise the number that its value denotes, or
/// what is wrong with the value.
pub open spec fn announced_length(headers: Map<Seq<char>, Seq<char>>) -> Result<
    Option<usize>,
    NumberFault,
> {
    if headers.contains_key("Content-Length"@) {
        match read_number(headers["Content-Length"@]) {
            Ok(n) => Ok(Some(n)),
            Err(fault) => Err(fault),
        }
    } else {
        Ok(None)
    }
}

/// The number of body bytes to read for a request with these headers. A
/// `Content-Length` that is no number is answered with status 500 and the
/// fault's message.
pub fn body_length(headers: &TextMap) -> (r: Result<Option<usize>, ApiError>)
    ensures
        match announced_length(headers@) {
            Ok(length) => r == Ok::<Option<usize>, ApiError>(length),
            Err(fault) => r matches Err(e) && e@ == ApiErrorView::json(500, fault.message()),
        },
{
    match headers.get("Content-Length") {
        Some(value) => {
            let chars = chars_of(value.as_str());
            match read_usize(chars.as_slice()) {
                Ok(n) => Ok(Some(n)),
                Err(fault) => Err(ApiError::new_with_json(500, fault.describe().to_owned())),
            }
        },
        None => Ok(None),
    }
}

/// The body text of a request of which `data` was read after the head: the
/// first `length` bytes of `data`, or all of it where it is shorter, read as
/// UTF-8 with malformed sequences replaced.
pub open spec fn body_text(length: usize, data: Seq<u8>) -> Seq<char> {
    if length <= data.len() {
        lossy_text(data.take(length as int))
    } else {
        lossy_text(data)
    }
}

/// The body of a request with these headers, of which `data` was read after
/// the head. Without a `Content-Length` header there is no body, whatever
/// `data` holds.
pub fn parse_body(headers: &TextMap, data: &[u8]) -> (r: Result<Option<String>, ApiError>)
    ensures
        match announced_length(headers@) {
            Ok(Some(length)) => r matches Ok(Some(text)) && text@ == body_text(length, data@),
            Ok(None) => r matches Ok(None),
            Err(fault) => r matches Err(e) && e@ == ApiErrorView::json(500, fault.message()),
        },
{
    match body_length(headers) {
        Ok(Some(length)) => {
            if length <= data.len() {
                let taken = slice_subrange(data, 0, length);
                assert(taken@ =~= data@.take(length as int));
                Ok(Some(utf8_lossy(taken)))
            } else {
                Ok(Some(utf8_lossy(data)))
            }
        },
        Ok(None) => Ok(None),
        Err(e) => Err(e),
    }
}

} // verus!
