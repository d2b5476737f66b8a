use crate::error::Error;
use serde_json::Error as JsonError;
use vstd::prelude::*;

verus! {

/// A source file handed to the service; the order of files is kept.
#[derive(Clone, Debug)]
pub struct File {
    pub name: String,
    pub content: String,
}

/// What to run: the language, the files, and the optional input and command.
#[derive(Debug)]
pub struct RunRequestPayload {
    pub language: String,
    pub files: Vec<File>,
    pub stdin: Option<String>,
    pub command: Option<String>,
}

/// A run request: the image to run in and the payload.
#[derive(Debug)]
pub struct RunRequest {
    pub image: String,
    pub payload: RunRequestPayload,
}

/// The lowercase hexadecimal digit of `v`, for `v` below 16.
pub open spec fn hex_digit(v: int) -> char {
    seq!['0', '1', '2', '3', '4', '5', '6', '7', '8', '9', 'a', 'b', 'c', 'd', 'e', 'f'][v]
}

/// How serde_json writes one character inside a string literal: a quote and a
/// backslash get a backslash, five control characters a short escape, the other
/// characters below U+0020 a `\u00XX` escape, and every other character itself.
pub open spec fn escape_char(c: char) -> Seq<char> {
    if c == '"' {
        seq!['\\', '"']
    } else if c == '\\' {
        seq!['\\', '\\']
    } else if c == '\x08' {
        seq!['\\', 'b']
    } else if c == '\t' {
        seq!['\\', 't']
    } else if c == '\n' {
        seq!['\\', 'n']
    } else if c == '\x0c' {
        seq!['\\', 'f']
    } else if c == '\r' {
        seq!['\\', 'r']
    } else if (c as int) < 0x20 {
        seq!['\\', 'u', '0', '0', hex_digit(c as int / 16), hex_digit(c as int % 16)]
    } else {
        seq![c]
    }
}

/// Every character of `s` escaped, in order.
pub open spec fn escape_chars(s: Seq<char>) -> Seq<char>
    decreases s.len(),
{
    if s.len() == 0 {
        Seq::empty()
    } else {
        escape_chars(s.drop_last()) + escape_char(s.last())
    }
}

/// The JSON string literal that serde_json writes for `s`: a quote, each
/// character escaped, and a quote.
pub open spec fn json_string(s: Seq<char>) -> Seq<char> {
    seq!['"'] + escape_chars(s) + seq!['"']
}

/// Relies on `serde_json::to_string` for a `str`: it writes the escaped string
/// literal into a `Vec`, which does not fail.
#[verifier::external_body]
fn quote(s: &str) -> (r: Result<String, JsonError>)
    ensures
        r is Ok,
        r matches Ok(t) ==> t@ == json_string(s@),
{
    serde_json::to_string(s)
}

/// An optional string literal in the body: the literal, or `null` when absent.
pub open spec fn optional_frame(o: Option<Seq<char>>) -> Seq<char> {
    match o {
        Some(q) => q,
        None => "null"@,
    }
}

/// One file as a JSON object, from the literals of its name and content.
pub open spec fn file_frame(f: (Seq<char>, Seq<char>)) -> Seq<char> {
    "{\"name\":"@ + f.0 + ",\"content\":"@ + f.1 + "}"@
}

/// The files as the elements of a JSON array, separated by commas.
pub open spec fn files_frame(files: Seq<(Seq<char>, Seq<char>)>) -> Seq<char>
    decreases files.len(),
{
    if files.len() == 0 {
        Seq::empty()
    } else if files.len() == 1 {
        file_frame(files[0])
    } else {
        files_frame(files.drop_last()) + ","@ + file_frame(files.last())
    }
}

/// The payload as a JSON object, from the literals of its fields.
pub open spec fn payload_frame(
    language: Seq<char>,
    files: Seq<(Seq<char>, Seq<char>)>,
    stdin: Option<Seq<char>>,
    command: Option<Seq<char>>,
) -> Seq<char> {
    "{\"language\":"@ + language + ",\"files\":["@ + files_frame(files) + "],\"stdin\":"@
        + optional_frame(stdin) + ",\"command\":"@ + optional_frame(command) + "}"@
}

/// The request as a JSON object, from the image's literal and the payload's object.
pub open spec fn request_frame(image: Seq<char>, payload: Seq<char>) -> Seq<char> {
    "{\"image\":"@ + image + ",\"payload\":"@ + payload + "}"@
}

/// The literals of each file's name and content.
pub open spec fn quoted_files(files: Seq<File>) -> Seq<(Seq<char>, Seq<char>)> {
    files.map_values(|f: File| (json_string(f.name@), json_string(f.content@)))
}

/// The literal of an optional string, where it is present.
pub open spec fn quoted_optional(o: Option<String>) -> Option<Seq<char>> {
    match o {
        Some(s) => Some(json_string(s@)),
        None => None,
    }
}

/// The payload's JSON object; absent `stdin` and `command` are `null`.
pub open spec fn payload_json(p: RunRequestPayload) -> Seq<char> {
    payload_frame(
        json_string(p.language@),
        quoted_files(p.files@),
        quoted_optional(p.stdin),
        quoted_optional(p.command),
    )
}

/// The whole request body.
pub open spec fn request_json(r: RunRequest) -> Seq<char> {
    request_frame(json_string(r.image@), payload_json(r.payload))
}

/// An absent `stdin` is encoded differently from every present one, the empty
/// string included, and so is an absent `command`: the other fields being
/// equal, the two payload bodies differ.
pub proof fn lemma_absent_differs_from_present(p: RunRequestPayload, s: String)
    ensures
        p.stdin is None ==> payload_json(p) != payload_json(
            RunRequestPayload { stdin: Some(s), ..p },
        ),
        p.command is None ==> payload_json(p) != payload_json(
            RunRequestPayload { command: Some(s), ..p },
        ),
{
    reveal_strlit("null");
    let head = "{\"language\":"@ + json_string(p.language@) + ",\"files\":["@ + files_frame(
        quoted_files(p.files@),
    ) + "],\"stdin\":"@;
    if p.stdin is None {
        let q = RunRequestPayload { stdin: Some(s), ..p };
        assert(payload_json(p)[head.len() as int] == 'n');
        assert(payload_json(q)[head.len() as int] == '"');
    }
    if p.command is None {
        let q = RunRequestPayload { command: Some(s), ..p };
        let head2 = head + optional_frame(quoted_optional(p.stdin)) + ",\"command\":"@;
        assert(payload_json(p)[head2.len() as int] == 'n');
        assert(payload_json(q)[head2.len() as int] == '"');
    }
}

/// A run request whose strings are already JSON string literals.
#[derive(Clone, Debug)]
pub struct QuotedRequest {
    pub image: String,
    pub language: String,
    /// The literals of each file's name and content, in the files' order.
    pub files: Vec<(String, String)>,
    pub stdin: Option<String>,
    pub command: Option<String>,
}

/// The views of pairs of strings.
pub open spec fn pairs_view(v: Seq<(String, String)>) -> Seq<(Seq<char>, Seq<char>)> {
    v.map_values(|p: (String, String)| (p.0@, p.1@))
}

/// The view of an optional string.
pub open spec fn optional_view(o: Option<String>) -> Option<Seq<char>> {
    match o {
        Some(s) => Some(s@),
        None => None,
    }
}

/// The body framed around the literals of a quoted request.
pub open spec fn quoted_request_frame(q: QuotedRequest) -> Seq<char> {
    request_frame(
        q.image@,
        payload_frame(q.language@, pairs_view(q.files@), optional_view(q.stdin), optional_view(q.command)),
    )
}

/// `q` holds the literals of the strings of `r`.
pub open spec fn quotes(q: QuotedRequest, r: RunRequest) -> bool {
    &&& q.image@ == json_string(r.image@)
    &&& q.language@ == json_string(r.payload.language@)
    &&& pairs_view(q.files@) == quoted_files(r.payload.files@)
    &&& optional_view(q.stdin) == quoted_optional(r.payload.stdin)
    &&& optional_view(q.command) == quoted_optional(r.payload.command)
}

fn push_optional(out: &mut String, o: &Option<String>)
    ensures
        final(out)@ == old(out)@ + optional_frame(optional_view(*o)),
{
    match o {
        Some(q) => out.append(q.as_str()),
        None => out.append("null"),
    }
}

fn push_files(out: &mut String, files: &Vec<(String, String)>)
    ensures
        final(out)@ == old(out)@ + files_frame(pairs_view(files@)),
{
    let ghost start = out@;
    let ghost pv = pairs_view(files@);
    let mut i: usize = 0;
    assert(start + files_frame(pv.subrange(0, 0)) =~= start);
    while i < files.len()
        invariant
            i <= files@.len(),
            pv == pairs_view(files@),
            out@ == start + files_frame(pv.subrange(0, i as int)),
        decreases files@.len() - i,
    {
        if i > 0 {
            out.append(",");
        }
        out.append("{\"name\":");
        out.append(files[i].0.as_str());
        out.append(",\"content\":");
        out.append(files[i].1.as_str());
        out.append("}");
        let ghost next = pv.subrange(0, i + 1);
        assert(next.drop_last() =~= pv.subrange(0, i as int));
        assert(next.last() == (files@[i as int].0@, files@[i as int].1@));
        assert(out@ =~= start + files_frame(next));
        i = i + 1;
    }
    assert(pv.subrange(0, files@.len() as int) =~= pv);
}

/// The body framed around the literals of a quoted request.
pub fn frame_request(q: &QuotedRequest) -> (r: String)
    ensures
        r@ == quoted_request_frame(*q),
{
    let mut out = String::from_str("{\"image\":");
    out.append(q.image.as_str());
    out.append(",\"payload\":");
    let ghost before_payload = out@;
    out.append("{\"language\":");
    out.append(q.language.as_str());
    out.append(",\"files\":[");
    push_files(&mut out, &q.files);
    out.append("],\"stdin\":");
    push_optional(&mut out, &q.stdin);
    out.append(",\"command\":");
    push_optional(&mut out, &q.command);
    out.append("}");
    let ghost payload = payload_frame(
        q.language@,
        pairs_view(q.files@),
        optional_view(q.stdin),
        optional_view(q.command),
    );
    assert(out@ =~= before_payload + payload);
    out.append("}");
    assert(out@ =~= quoted_request_frame(*q));
    out
}

fn quote_optional(o: &Option<String>) -> (r: Result<Option<String>, Error>)
    ensures
        r is Ok,
        r matches Ok(q) ==> optional_view(q) == quoted_optional(*o),
{
    match o {
        Some(s) => match quote(s.as_str()) {
            Ok(q) => Ok(Some(q)),
            Err(e) => Err(Error::SerializeRequest(e)),
        },
        None => Ok(None),
    }
}

fn quote_files(files: &Vec<File>) -> (r: Result<Vec<(String, String)>, Error>)
    ensures
        r is Ok,
        r matches Ok(q) ==> pairs_view(q@) == quoted_files(files@),
{
    let mut out: Vec<(String, String)> = Vec::new();
    let mut i: usize = 0;
    while i < files.len()
        invariant
            i <= files@.len(),
            out@.len() == i,
            forall|j: int|
                0 <= j < i ==> (#[trigger] out@[j]).0@ == json_string(files@[j].name@)
                    && out@[j].1@ == json_string(files@[j].content@),
        decreases files@.len() - i,
    {
        let name = match quote(files[i].name.as_str()) {
            Ok(t) => t,
            Err(e) => {
                return Err(Error::SerializeRequest(e));
            },
        };
        let content = match quote(files[i].content.as_str()) {
            Ok(t) => t,
            Err(e) => {
                return Err(Error::SerializeRequest(e));
            },
        };
        out.push((name, content));
        i = i + 1;
    }
    assert(pairs_view(out@) =~= quoted_files(files@));
    Ok(out)
}

/// The literals of every string of a request.
fn quote_request(request: &RunRequest) -> (r: Result<QuotedRequest, Error>)
    ensures
        r is Ok,
        r matches Ok(q) ==> quotes(q, *request),
{
    let image = match quote(request.image.as_str()) {
        Ok(t) => t,
        Err(e) => {
            return Err(Error::SerializeRequest(e));
        },
    };
    let language = match quote(request.payload.language.as_str()) {
        Ok(t) => t,
        Err(e) => {
            return Err(Error::SerializeRequest(e));
        },
    };
    let files = quote_files(&request.payload.files)?;
    let stdin = quote_optional(&request.payload.stdin)?;
    let command = quote_optional(&request.payload.command)?;
    Ok(QuotedRequest { image, language, files, stdin, command })
}

/// The JSON body of a run request.
pub fn encode_request(request: &RunRequest) -> (r: Result<String, Error>)
    ensures
        r is Ok,
        r matches Ok(body) ==> body@ == request_json(*request),
{
    let quoted = quote_request(request)?;
    Ok(frame_request(&quoted))
}

} // verus!
