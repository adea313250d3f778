//! Talking to a voice gateway: its address, its pings and its close codes.
use crate::text::same_text;
use crate::voice::bytes::{be32, be32_array, be32_bytes, read_be32};
use vstd::prelude::*;
use vstd::string::*;

verus! {

pub const UDP_PING_PACKET_LEN: usize = 8;

/// The first half of a ping, and of its answer.
pub const UDP_PING_REQUEST_MAGIC: u32 = 0x1337_cafe;

pub const UDP_PING_RESPONSE_MAGIC: u32 = 0x1337_f00d;

/// What to do after a gateway closed the connection.
#[derive(Clone, Copy, Debug, PartialEq, Eq, Structural)]
pub enum VoiceCloseAction {
    /// The session is still good.
    Resume,
    /// A new session is needed.
    Reconnect,
    /// The connection is not wanted any more.
    Stop,
}

pub open spec fn close_action(code: u16) -> VoiceCloseAction {
    if code == 4013 || code == 4015 {
        VoiceCloseAction::Resume
    } else if code == 4014 || code == 4021 || code == 4022 {
        VoiceCloseAction::Stop
    } else {
        VoiceCloseAction::Reconnect
    }
}

/// What to do after a gateway closed the connection with `code`.
pub fn voice_close_action(code: u16) -> (action: VoiceCloseAction)
    ensures
        action == close_action(code),
{
    match code {
        4013 | 4015 => VoiceCloseAction::Resume,
        4014 | 4021 | 4022 => VoiceCloseAction::Stop,
        _ => VoiceCloseAction::Reconnect,
    }
}

/// The ping with a number.
pub fn udp_ping_request(sequence: u32) -> (packet: [u8; UDP_PING_PACKET_LEN])
    ensures
        packet@ == be32_bytes(UDP_PING_REQUEST_MAGIC) + be32_bytes(sequence),
{
    let magic = be32_array(UDP_PING_REQUEST_MAGIC);
    let number = be32_array(sequence);
    let packet = [
        magic[0], magic[1], magic[2], magic[3], number[0], number[1], number[2], number[3],
    ];
    assert(packet@ =~= be32_bytes(UDP_PING_REQUEST_MAGIC) + be32_bytes(sequence));
    packet
}

pub open spec fn ping_answer(packet: Seq<u8>) -> Option<u32> {
    if packet.len() == UDP_PING_PACKET_LEN && be32(packet, 0) == UDP_PING_RESPONSE_MAGIC {
        Some(be32(packet, 4))
    } else {
        None
    }
}

/// The number that an answer to a ping echoes.
pub fn parse_udp_ping_response(packet: &[u8]) -> (sequence: Option<u32>)
    ensures
        sequence == ping_answer(packet@),
{
    if packet.len() == UDP_PING_PACKET_LEN && read_be32(packet, 0) == UDP_PING_RESPONSE_MAGIC {
        Some(read_be32(packet, 4))
    } else {
        None
    }
}

/// An answer echoes the number of its ping.
pub proof fn law_ping_answer_echoes_number(sequence: u32)
    ensures
        ping_answer(be32_bytes(UDP_PING_RESPONSE_MAGIC) + be32_bytes(sequence)) == Some(sequence),
        ping_answer(be32_bytes(UDP_PING_REQUEST_MAGIC) + be32_bytes(sequence)) is None,
{
}

/// The characters that Unicode counts as white space.
pub open spec fn is_whitespace(c: char) -> bool {
    let code = c as u32;
    ||| 0x09 <= code <= 0x0d
    ||| code == 0x20
    ||| code == 0x85
    ||| code == 0xa0
    ||| code == 0x1680
    ||| 0x2000 <= code <= 0x200a
    ||| code == 0x2028
    ||| code == 0x2029
    ||| code == 0x202f
    ||| code == 0x205f
    ||| code == 0x3000
}

fn char_is_whitespace(c: char) -> (whitespace: bool)
    ensures
        whitespace == is_whitespace(c),
{
    let code: u32 = c as u32;
    (0x09 <= code && code <= 0x0d) || code == 0x20 || code == 0x85 || code == 0xa0 || code == 0x1680
        || (0x2000 <= code && code <= 0x200a) || code == 0x2028 || code == 0x2029 || code == 0x202f
        || code == 0x205f || code == 0x3000
}

/// A text without the white space at its start.
pub open spec fn without_leading_space(text: Seq<char>) -> Seq<char>
    decreases text.len(),
{
    if text.len() > 0 && is_whitespace(text[0]) {
        without_leading_space(text.skip(1))
    } else {
        text
    }
}

/// A text without the white space at its end.
pub open spec fn without_trailing_space(text: Seq<char>) -> Seq<char>
    decreases text.len(),
{
    if text.len() > 0 && is_whitespace(text.last()) {
        without_trailing_space(text.drop_last())
    } else {
        text
    }
}

/// A text without the slashes at its end.
pub open spec fn without_trailing_slashes(text: Seq<char>) -> Seq<char>
    decreases text.len(),
{
    if text.len() > 0 && text.last() == '/' {
        without_trailing_slashes(text.drop_last())
    } else {
        text
    }
}

/// A text without `prefix`, where it starts with it.
pub open spec fn without_prefix(text: Seq<char>, prefix: Seq<char>) -> Seq<char> {
    if prefix.len() <= text.len() && text.take(prefix.len() as int) == prefix {
        text.skip(prefix.len() as int)
    } else {
        text
    }
}

/// The host, and port, of an endpoint that may come with a scheme and slashes.
pub open spec fn endpoint_host(endpoint: Seq<char>) -> Seq<char> {
    let trimmed = without_trailing_space(without_leading_space(endpoint));
    without_trailing_slashes(without_prefix(without_prefix(trimmed, "wss://"@), "https://"@))
}

/// The address of a gateway: a secure websocket of the supported version.
pub open spec fn gateway_url(endpoint: Seq<char>) -> Result<Seq<char>, Seq<char>> {
    let host = endpoint_host(endpoint);
    if host.len() == 0 {
        Err("voice endpoint is empty"@)
    } else {
        Ok("wss://"@ + host + "/?v=9"@)
    }
}

fn strip_prefix<'a>(text: &'a str, prefix: &str) -> (stripped: &'a str)
    ensures
        stripped@ == without_prefix(text@, prefix@),
{
    let len: usize = text.unicode_len();
    let prefix_len: usize = prefix.unicode_len();
    if prefix_len <= len {
        let head = text.substring_char(0, prefix_len);
        assert(head@ =~= text@.take(prefix_len as int));
        if same_text(head, prefix) {
            let tail = text.substring_char(prefix_len, len);
            assert(tail@ =~= text@.skip(prefix_len as int));
            return tail;
        }
    }
    text
}

/// The address of a voice gateway.
pub fn voice_gateway_url(endpoint: &str) -> (url: Result<String, String>)
    ensures
        match url {
            Ok(url) => gateway_url(endpoint@) == Ok::<Seq<char>, Seq<char>>(url@),
            Err(message) => gateway_url(endpoint@) == Err::<Seq<char>, Seq<char>>(message@),
        },
{
    let trimmed = trim(endpoint);
    let bare = strip_prefix(strip_prefix(trimmed, "wss://"), "https://");
    let host = trim_slashes(bare);
    if host.unicode_len() == 0 {
        return Err("voice endpoint is empty".to_owned());
    }
    let mut url = "wss://".to_owned();
    url.append(host);
    url.append("/?v=9");
    Ok(url)
}

fn trim(text: &str) -> (trimmed: &str)
    ensures
        trimmed@ == without_trailing_space(without_leading_space(text@)),
{
    let len: usize = text.unicode_len();
    let mut start: usize = 0;
    assert(text@.skip(0) =~= text@);
    while start < len && char_is_whitespace(text.get_char(start))
        invariant
            start <= len,
            len == text@.len(),
            without_leading_space(text@) == without_leading_space(text@.skip(start as int)),
        decreases len - start,
    {
        assert(text@.skip(start as int)[0] == text@[start as int]);
        assert(text@.skip(start as int).skip(1) =~= text@.skip(start + 1));
        start += 1;
    }
    let ghost led = text@.skip(start as int);
    assert(start < len ==> led[0] == text@[start as int]);
    assert(without_leading_space(text@) == led);
    let mut end: usize = len;
    assert(led.take(led.len() as int) =~= led);
    while end > start && char_is_whitespace(text.get_char(end - 1))
        invariant
            start <= end <= len,
            len == text@.len(),
            led == text@.skip(start as int),
            without_trailing_space(led) == without_trailing_space(led.take(end - start)),
        decreases end,
    {
        assert(led.take(end - start).last() == text@[end - 1]);
        assert(led.take(end - start).drop_last() =~= led.take(end - start - 1));
        end -= 1;
    }
    let trimmed = text.substring_char(start, end);
    assert(trimmed@ =~= led.take(end - start));
    assert(end > start ==> led.take(end - start).last() == text@[end - 1]);
    trimmed
}

fn trim_slashes(text: &str) -> (trimmed: &str)
    ensures
        trimmed@ == without_trailing_slashes(text@),
{
    let mut end: usize = text.unicode_len();
    assert(text@.take(end as int) =~= text@);
    while end > 0 && text.get_char(end - 1) == '/'
        invariant
            end <= text@.len(),
            without_trailing_slashes(text@) == without_trailing_slashes(text@.take(end as int)),
        decreases end,
    {
        assert(text@.take(end as int).last() == text@[end - 1]);
        assert(text@.take(end as int).drop_last() =~= text@.take(end - 1));
        end -= 1;
    }
    let trimmed = text.substring_char(0, end);
    assert(trimmed@ =~= text@.take(end as int));
    assert(end > 0 ==> text@.take(end as int).last() == text@[end - 1]);
    trimmed
}

} // verus!
