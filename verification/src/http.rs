//! The HTTP CONNECT handshake: the request that is sent, how the response's
//! header block is collected from partial reads, and how the parsed response
//! is judged.

use vstd::prelude::*;
use vstd::string::*;

use crate::address::EndpointAddress;
use crate::error::BridgeError;
use crate::error::ParseFault;
use crate::error::ResponseFault;

verus! {

/// The number of header fields that a response may carry.
pub const MAX_HEADERS: usize = 64;

/// The only status that opens the tunnel.
pub const STATUS_OK: u16 = 200;

/// The byte carriage return.
pub const CR: u8 = 0x0d;

/// The byte line feed.
pub const LF: u8 = 0x0a;

/// The bytes of the request: a CONNECT line that names the destination and
/// a `Host` field that names the upstream proxy itself, then a blank line.
pub open spec fn request_bytes(destination: EndpointAddress, upstream: EndpointAddress) -> Seq<u8> {
    "CONNECT ".spec_bytes() + destination.text() + " HTTP/1.1\r\nHost: ".spec_bytes()
        + upstream.text() + "\r\n\r\n".spec_bytes()
}

/// Composes the CONNECT request for `destination`, to be sent to `upstream`.
pub fn connect_request(destination: &EndpointAddress, upstream: &EndpointAddress) -> (request: Vec<
    u8,
>)
    ensures
        request@ == request_bytes(*destination, *upstream),
{
    let mut request: Vec<u8> = Vec::new();
    request.extend_from_slice("CONNECT ".as_bytes());
    destination.write_text(&mut request);
    request.extend_from_slice(" HTTP/1.1\r\nHost: ".as_bytes());
    upstream.write_text(&mut request);
    request.extend_from_slice("\r\n\r\n".as_bytes());
    request
}

/// The request is a whole header block: it ends with the blank line, and
/// it opens with the method.
pub proof fn law_request_is_a_whole_head(destination: EndpointAddress, upstream: EndpointAddress)
    ensures
        ends_head(request_bytes(destination, upstream)),
        request_bytes(destination, upstream).subrange(0, 8) == seq![
            0x43u8,
            0x4f,
            0x4e,
            0x4e,
            0x45,
            0x43,
            0x54,
            0x20,
        ],
{
    reveal_strlit("CONNECT ");
    reveal_strlit("\r\n\r\n");
    is_ascii_spec_bytes("CONNECT ");
    is_ascii_spec_bytes("\r\n\r\n");
}

/// Whether `bytes` ends with the blank line that closes a header block:
/// CR LF CR LF.
pub open spec fn ends_head(bytes: Seq<u8>) -> bool {
    let n = bytes.len() as int;
    n >= 4 && bytes[n - 4] == CR && bytes[n - 3] == LF && bytes[n - 2] == CR && bytes[n - 1] == LF
}

/// Tells whether the collected bytes end the header block.
pub fn head_complete(buffer: &Vec<u8>) -> (complete: bool)
    ensures
        complete == ends_head(buffer@),
{
    let n = buffer.len();
    n >= 4 && buffer[n - 4] == CR && buffer[n - 3] == LF && buffer[n - 2] == CR && buffer[n - 1]
        == LF
}

/// How many bytes of `chunk` belong to the header block that `buffer`
/// already holds a part of: bytes are taken one by one, and none is taken
/// once the buffer ends the block.
pub open spec fn absorbed(buffer: Seq<u8>, chunk: Seq<u8>) -> nat
    decreases chunk.len(),
{
    if ends_head(buffer) || chunk.len() == 0 {
        0
    } else {
        1 + absorbed(buffer.push(chunk[0]), chunk.drop_first())
    }
}

/// Moves the bytes of `chunk` that belong to the header block into
/// `buffer` and returns their number. What is left of `chunk` lies behind
/// the block and is not part of the response.
pub fn absorb(buffer: &mut Vec<u8>, chunk: &[u8]) -> (taken: usize)
    ensures
        taken == absorbed(old(buffer)@, chunk@),
        taken <= chunk@.len(),
        final(buffer)@ == old(buffer)@ + chunk@.take(taken as int),
{
    let ghost before = buffer@;
    let mut taken: usize = 0;
    assert(chunk@.skip(0) =~= chunk@);
    while taken < chunk.len() && !head_complete(buffer)
        invariant
            taken <= chunk@.len(),
            buffer@ == before + chunk@.take(taken as int),
            absorbed(before, chunk@) == taken + absorbed(buffer@, chunk@.skip(taken as int)),
        decreases chunk@.len() - taken,
    {
        let ghost rest = chunk@.skip(taken as int);
        assert(rest.drop_first() =~= chunk@.skip(taken + 1));
        buffer.push(chunk[taken]);
        taken = taken + 1;
    }
    taken
}

/// The bytes taken from a chunk stop where the buffer first ends the header
/// block: no shorter part of the chunk closes the block, and where a part of
/// the chunk is left behind, the block is closed.
pub proof fn law_head_ends_at_first_blank_line(buffer: Seq<u8>, chunk: Seq<u8>)
    requires
        !ends_head(buffer),
    ensures
        absorbed(buffer, chunk) <= chunk.len(),
        forall|k: int|
            0 <= k < absorbed(buffer, chunk) ==> !ends_head(buffer + #[trigger] chunk.take(k)),
        absorbed(buffer, chunk) < chunk.len() ==> ends_head(
            buffer + chunk.take(absorbed(buffer, chunk) as int),
        ),
    decreases chunk.len(),
{
    if chunk.len() > 0 {
        let next = buffer.push(chunk[0]);
        let rest = chunk.drop_first();
        if !ends_head(next) {
            law_head_ends_at_first_blank_line(next, rest);
        }
        assert forall|k: int| 0 <= k < absorbed(buffer, chunk) implies !ends_head(
            buffer + #[trigger] chunk.take(k),
        ) by {
            if k >= 1 {
                assert(buffer + chunk.take(k) =~= next + rest.take(k - 1));
            }
        }
    }
}

/// Taking a chunk in two parts takes the same bytes as taking it whole:
/// what the first part leaves open, the second part continues.
pub proof fn lemma_absorbed_split(buffer: Seq<u8>, first: Seq<u8>, second: Seq<u8>)
    ensures
        absorbed(buffer, first + second) == if ends_head(
            buffer + first.take(absorbed(buffer, first) as int),
        ) {
            absorbed(buffer, first)
        } else {
            first.len() + absorbed(buffer + first, second)
        },
        !ends_head(buffer + first.take(absorbed(buffer, first) as int)) ==> absorbed(buffer, first)
            == first.len(),
    decreases first.len(),
{
    if !ends_head(buffer) && first.len() > 0 {
        let next = buffer.push(first[0]);
        let rest = first.drop_first();
        lemma_absorbed_split(next, rest, second);
        assert((first + second).drop_first() =~= rest + second);
        assert(next + rest =~= buffer + first);
        lemma_absorbed_bounded(next, rest);
    }
}

/// No more is taken from a chunk than it holds.
pub proof fn lemma_absorbed_bounded(buffer: Seq<u8>, chunk: Seq<u8>)
    ensures
        absorbed(buffer, chunk) <= chunk.len(),
    decreases chunk.len(),
{
    if !ends_head(buffer) && chunk.len() > 0 {
        lemma_absorbed_bounded(buffer.push(chunk[0]), chunk.drop_first());
    }
}

/// What the parser made of a header block.
#[derive(Clone, Copy, Debug, PartialEq, Eq, Structural)]
pub enum ParsedHead {
    /// The block is a whole response head; `code` is the status it carries.
    Complete { code: Option<u16> },
    /// Nothing invalid was found, but the head does not end within the block.
    Partial,
    /// The block is not a response head.
    Invalid(ParseFault),
}

/// What `httparse` makes of `bytes`, given room for `max_headers` header
/// fields.
pub uninterp spec fn parsed_head(bytes: Seq<u8>, max_headers: nat) -> ParsedHead;

/// Runs `httparse::Response::parse` on `bytes` with room for `max_headers`
/// header fields. Nothing is claimed of the outcome but that it is the one
/// the parser always gives for these bytes and this room; of a complete
/// parse the outcome holds the status code that the parser left in the
/// response.
#[verifier::external_body]
fn parse_head(bytes: &[u8], max_headers: usize) -> (head: ParsedHead)
    requires
        max_headers <= 0xffff,
    ensures
        head == parsed_head(bytes@, max_headers as nat),
{
    let mut headers = vec![httparse::EMPTY_HEADER; max_headers];
    let mut response = httparse::Response::new(&mut headers);
    match response.parse(bytes) {
        Ok(httparse::Status::Complete(_)) => ParsedHead::Complete { code: response.code },
        Ok(httparse::Status::Partial) => ParsedHead::Partial,
        Err(httparse::Error::HeaderName) => ParsedHead::Invalid(ParseFault::HeaderName),
        Err(httparse::Error::HeaderValue) => ParsedHead::Invalid(ParseFault::HeaderValue),
        Err(httparse::Error::NewLine) => ParsedHead::Invalid(ParseFault::NewLine),
        Err(httparse::Error::Status) => ParsedHead::Invalid(ParseFault::Status),
        Err(httparse::Error::Token) => ParsedHead::Invalid(ParseFault::Token),
        Err(httparse::Error::TooManyHeaders) => ParsedHead::Invalid(ParseFault::TooManyHeaders),
        Err(httparse::Error::Version) => ParsedHead::Invalid(ParseFault::Version),
    }
}

/// The verdict on a parsed response: the tunnel opens on status 200 and on
/// nothing else.
pub open spec fn verdict(head: ParsedHead) -> Result<(), BridgeError> {
    match head {
        ParsedHead::Complete { code: Some(code) } => if code == STATUS_OK {
            Ok(())
        } else {
            Err(BridgeError::UpstreamRefused { code })
        },
        ParsedHead::Complete { code: None } => Err(
            BridgeError::MalformedResponse { fault: ResponseFault::MissingStatus },
        ),
        ParsedHead::Partial => Err(BridgeError::MalformedResponse { fault: ResponseFault::Partial }),
        ParsedHead::Invalid(fault) => Err(
            BridgeError::MalformedResponse { fault: ResponseFault::Syntax(fault) },
        ),
    }
}

/// Judges a parsed response.
pub fn judge_head(head: ParsedHead) -> (result: Result<(), BridgeError>)
    ensures
        result == verdict(head),
{
    match head {
        ParsedHead::Complete { code: Some(code) } => {
            if code == STATUS_OK {
                Ok(())
            } else {
                Err(BridgeError::UpstreamRefused { code })
            }
        },
        ParsedHead::Complete { code: None } => Err(
            BridgeError::MalformedResponse { fault: ResponseFault::MissingStatus },
        ),
        ParsedHead::Partial => Err(BridgeError::MalformedResponse { fault: ResponseFault::Partial }),
        ParsedHead::Invalid(fault) => Err(
            BridgeError::MalformedResponse { fault: ResponseFault::Syntax(fault) },
        ),
    }
}

/// Parses a complete header block and judges it.
pub fn judge_response(head: &Vec<u8>) -> (result: Result<(), BridgeError>)
    ensures
        result == verdict(parsed_head(head@, MAX_HEADERS as nat)),
{
    judge_head(parse_head(head.as_slice(), MAX_HEADERS))
}

} // verus!
