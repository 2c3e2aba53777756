use vstd::prelude::*;
use vstd::string::StringExecFns;

verus! {

/// The bytes a report request's line begins with: `GET / HTTP/1.1`.
pub open spec fn report_request_prefix() -> Seq<u8> {
    seq![71u8, 69u8, 84u8, 32u8, 47u8, 32u8, 72u8, 84u8, 84u8, 80u8, 47u8, 49u8, 46u8, 49u8]
}

/// A raw request asks for the report exactly when it begins with the
/// report-request line; everything else gets the fallback page.
pub open spec fn request_is_report(buf: Seq<u8>) -> bool {
    buf.len() >= 14 && buf.subrange(0, 14) == report_request_prefix()
}

/// Classifies one raw request by the trivial prefix match the dispatcher
/// uses: report request or everything else.
pub fn is_report_request(buffer: &[u8]) -> (r: bool)
    ensures
        r == request_is_report(buffer@),
{
    let prefix: [u8; 14] = [71u8, 69u8, 84u8, 32u8, 47u8, 32u8, 72u8, 84u8, 84u8, 80u8, 47u8,
        49u8, 46u8, 49u8];
    if buffer.len() < 14 {
        return false;
    }
    let mut i: usize = 0;
    while i < 14
        invariant
            i <= 14,
            buffer@.len() >= 14,
            prefix@ == report_request_prefix(),
            forall|k: int| 0 <= k < i ==> buffer@[k] == report_request_prefix()[k],
        decreases 14 - i,
    {
        if buffer[i] != prefix[i] {
            proof {
                assert(buffer@.subrange(0, 14)[i as int] != report_request_prefix()[i as int]);
            }
            return false;
        }
        i = i + 1;
    }
    proof {
        assert(buffer@.subrange(0, 14) =~= report_request_prefix());
    }
    true
}

/// One HTTP response as the dispatcher's jobs write it: the status line,
/// a blank line, and the body.
pub open spec fn response_of(status: Seq<char>, contents: Seq<char>) -> Seq<char> {
    status + "\r\n\r\n"@ + contents
}

/// Status line of the report page.
pub open spec fn status_ok() -> Seq<char> {
    "HTTP/1.1 200 OK"@
}

/// Status line of the fixed fallback page.
pub open spec fn status_not_found() -> Seq<char> {
    "HTTP/1.1 404 NOT FOUND"@
}

/// Frames one response: exactly the status line, the blank separator
/// line, and the body, in that order.
pub fn build_response(status_line: &str, contents: &str) -> (r: String)
    ensures
        r@ == response_of(status_line@, contents@),
{
    let mut r = status_line.to_owned();
    r.append("\r\n\r\n");
    r.append(contents);
    r
}

/// The response a report request is answered with: the rendered page
/// behind the OK status.
pub fn respond_report(page: &str) -> (r: String)
    ensures
        r@ == response_of(status_ok(), page@),
{
    build_response("HTTP/1.1 200 OK", page)
}

/// The fixed response everything other than a report request is answered
/// with; no snapshot is taken on this path.
pub fn respond_not_found(page: &str) -> (r: String)
    ensures
        r@ == response_of(status_not_found(), page@),
{
    build_response("HTTP/1.1 404 NOT FOUND", page)
}

} // verus!
