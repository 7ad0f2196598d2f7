//! Finding out who sent a request: the client's address, taken from a
//! forwarding header or from the connection, and its user agent.

use crate::text::{chars_of, decimal, decimal_string, push_char};
use vstd::prelude::*;

verus! {

/// Why no client address could be taken from a request.
#[derive(Debug, Clone)]
pub enum IpExtractionError {
    /// The required header is missing.
    MissingHeader { header_name: String },
    /// The header's value is not text.
    InvalidHeaderEncoding { header_name: String },
    /// The header names another number of addresses than the proxies in front make.
    ProxyDepthMismatch { header_name: String, expected: usize, actual: usize },
    /// What the header gives as the client's address is no address.
    InvalidIpAddress { header_name: String, value: String },
}

impl IpExtractionError {
    /// The error in words.
    pub open spec fn message(&self) -> Seq<char> {
        match self {
            IpExtractionError::MissingHeader { header_name } => "Missing required header: "@
                + header_name@,
            IpExtractionError::InvalidHeaderEncoding { header_name } => "Invalid encoding in header: "@
                + header_name@,
            IpExtractionError::ProxyDepthMismatch { header_name, expected, actual } => {
                "Proxy depth mismatch in "@ + header_name@ + ": expected "@ + decimal(
                    *expected as nat,
                ) + " IPs, found "@ + decimal(*actual as nat)
            },
            IpExtractionError::InvalidIpAddress { header_name, value } => {
                "Invalid IP address in "@ + header_name@ + ": '"@ + value@ + "'"@
            },
        }
    }

    /// The error in words.
    pub fn to_string(&self) -> (text: String)
        ensures
            text@ == self.message(),
    {
        match self {
            IpExtractionError::MissingHeader { header_name } => {
                String::from_str("Missing required header: ").concat(header_name.as_str())
            },
            IpExtractionError::InvalidHeaderEncoding { header_name } => {
                String::from_str("Invalid encoding in header: ").concat(header_name.as_str())
            },
            IpExtractionError::ProxyDepthMismatch { header_name, expected, actual } => {
                let mut text = String::from_str("Proxy depth mismatch in ");
                text.append(header_name.as_str());
                text.append(": expected ");
                text.append(decimal_string(*expected).as_str());
                text.append(" IPs, found ");
                text.append(decimal_string(*actual).as_str());
                text
            },
            IpExtractionError::InvalidIpAddress { header_name, value } => {
                let mut text = String::from_str("Invalid IP address in ");
                text.append(header_name.as_str());
                text.append(": '");
                text.append(value.as_str());
                text.append("'");
                text
            },
        }
    }
}

/// Where the client's address is taken from.
#[derive(Debug, Clone)]
pub enum IpExtractionStrategy {
    /// From a forwarding header. The client's address is the leftmost in the
    /// header, and the header must name exactly `proxy_depth` addresses: one
    /// for each proxy in front. A header of any other length is refused,
    /// since it was not written by those proxies alone.
    ForwardedHeader { header_name: String, proxy_depth: usize },
    /// From the connection itself, for clients that connect without a proxy.
    SocketAddr,
}

impl IpExtractionStrategy {
    /// The strategy reads the header `name` and expects `depth` addresses in it.
    pub open spec fn reads_header(&self, name: Seq<char>, depth: usize) -> bool {
        self matches IpExtractionStrategy::ForwardedHeader { header_name, proxy_depth }
            && header_name@ == name && proxy_depth == depth
    }

    /// The header `X-Forwarded-For` behind `proxy_depth` proxies.
    pub fn x_forwarded_for(proxy_depth: usize) -> (strategy: Self)
        ensures
            strategy.reads_header("X-Forwarded-For"@, proxy_depth),
    {
        IpExtractionStrategy::ForwardedHeader {
            header_name: String::from_str("X-Forwarded-For"),
            proxy_depth,
        }
    }

    /// The header `X-Real-IP`, which holds one address.
    pub fn x_real_ip() -> (strategy: Self)
        ensures
            strategy.reads_header("X-Real-IP"@, 1),
    {
        IpExtractionStrategy::ForwardedHeader {
            header_name: String::from_str("X-Real-IP"),
            proxy_depth: 1,
        }
    }

    /// The header `CF-Connecting-IP`, which holds one address.
    pub fn cloudflare() -> (strategy: Self)
        ensures
            strategy.reads_header("CF-Connecting-IP"@, 1),
    {
        IpExtractionStrategy::ForwardedHeader {
            header_name: String::from_str("CF-Connecting-IP"),
            proxy_depth: 1,
        }
    }

    /// The header `header_name` behind `proxy_depth` proxies.
    pub fn custom_header(header_name: &str, proxy_depth: usize) -> (strategy: Self)
        ensures
            strategy.reads_header(header_name@, proxy_depth),
    {
        IpExtractionStrategy::ForwardedHeader {
            header_name: String::from_str(header_name),
            proxy_depth,
        }
    }
}

impl Default for IpExtractionStrategy {
    /// The header `X-Forwarded-For` behind one proxy.
    fn default() -> (strategy: Self)
        ensures
            strategy.reads_header("X-Forwarded-For"@, 1),
    {
        IpExtractionStrategy::x_forwarded_for(1)
    }
}

/// How the security context of a request is made.
#[derive(Debug, Clone)]
pub struct SecurityContextConfig {
    /// Where the client's address is taken from.
    pub ip_extraction: IpExtractionStrategy,
}

impl SecurityContextConfig {
    /// The configuration that reads `X-Forwarded-For` behind one proxy.
    pub fn new() -> (config: Self)
        ensures
            config.ip_extraction.reads_header("X-Forwarded-For"@, 1),
    {
        SecurityContextConfig { ip_extraction: IpExtractionStrategy::x_forwarded_for(1) }
    }

    /// The same configuration with another strategy.
    pub fn with_ip_extraction(self, strategy: IpExtractionStrategy) -> (config: Self)
        ensures
            config.ip_extraction == strategy,
    {
        let mut config = self;
        config.ip_extraction = strategy;
        config
    }
}

impl Default for SecurityContextConfig {
    /// The configuration that reads `X-Forwarded-For` behind one proxy.
    fn default() -> (config: Self)
        ensures
            config.ip_extraction.reads_header("X-Forwarded-For"@, 1),
    {
        SecurityContextConfig::new()
    }
}

/// What a request holds under a header's name.
#[derive(Debug, Clone)]
pub enum HeaderLookup {
    /// No header of that name.
    Missing,
    /// A header whose value is not text.
    NotText,
    /// A header with this text as its value.
    Text(String),
}

/// White space, as Unicode defines it.
pub open spec fn is_space(c: char) -> bool {
    let code = c as u32;
    ||| 0x09 <= code <= 0x0d
    ||| code == 0x20
    ||| code == 0x85
    ||| code == 0xa0
    ||| code == 0x1680
    ||| 0x2000 <= code <= 0x200a
    ||| code == 0x2028
    ||| code == 0x2029
    ||| code == 0x202f
    ||| code == 0x205f
    ||| code == 0x3000
}

/// The text without the white space at its start.
pub open spec fn trimmed_start(text: Seq<char>) -> Seq<char>
    decreases text.len(),
{
    if text.len() > 0 && is_space(text.first()) {
        trimmed_start(text.drop_first())
    } else {
        text
    }
}

/// The text without the white space at its end.
pub open spec fn trimmed_end(text: Seq<char>) -> Seq<char>
    decreases text.len(),
{
    if text.len() > 0 && is_space(text.last()) {
        trimmed_end(text.drop_last())
    } else {
        text
    }
}

/// The text without the white space at its start and at its end.
pub open spec fn trimmed(text: Seq<char>) -> Seq<char> {
    trimmed_end(trimmed_start(text))
}

/// How many commas the text holds.
pub open spec fn commas(text: Seq<char>) -> nat
    decreases text.len(),
{
    if text.len() == 0 {
        0
    } else if text.last() == ',' {
        commas(text.drop_last()) + 1
    } else {
        commas(text.drop_last())
    }
}

/// Where the first comma of the text stands; its length if it holds none.
pub open spec fn first_comma(text: Seq<char>) -> int
    decreases text.len(),
{
    if text.len() == 0 || text.first() == ',' {
        0
    } else {
        1 + first_comma(text.drop_first())
    }
}

/// How many addresses a forwarding header names: one more than it has commas.
pub open spec fn forwarded_count(header: Seq<char>) -> nat {
    commas(header) + 1
}

/// The leftmost address of a forwarding header: what stands before its first
/// comma, without white space around it.
pub open spec fn forwarded_client(header: Seq<char>) -> Seq<char> {
    trimmed(header.take(first_comma(header)))
}

/// A count as a `usize`, held at the greatest when it is beyond it.
pub open spec fn as_count(n: nat) -> usize {
    if n <= usize::MAX {
        n as usize
    } else {
        usize::MAX
    }
}

/// What reading a forwarding header gives: the leftmost address if the
/// header is there, is text and names exactly `proxy_depth` addresses, and
/// else the error that says which of these failed.
pub open spec fn forwarded_reading(
    lookup: HeaderLookup,
    header_name: Seq<char>,
    proxy_depth: usize,
    reading: Result<String, IpExtractionError>,
) -> bool {
    match lookup {
        HeaderLookup::Missing => reading matches Err(
            IpExtractionError::MissingHeader { header_name: name },
        ) && name@ == header_name,
        HeaderLookup::NotText => reading matches Err(
            IpExtractionError::InvalidHeaderEncoding { header_name: name },
        ) && name@ == header_name,
        HeaderLookup::Text(value) => if forwarded_count(value@) != proxy_depth {
            reading matches Err(
                IpExtractionError::ProxyDepthMismatch { header_name: name, expected, actual },
            ) && name@ == header_name && expected == proxy_depth && actual == as_count(
                forwarded_count(value@),
            )
        } else {
            reading matches Ok(client) && client@ == forwarded_client(value@)
        },
    }
}

proof fn lemma_first_comma_bounds(text: Seq<char>)
    ensures
        0 <= first_comma(text) <= text.len(),
        first_comma(text) < text.len() ==> text[first_comma(text)] == ',',
        forall|i: int| 0 <= i < first_comma(text) ==> text[i] != ',',
    decreases text.len(),
{
    if text.len() > 0 && text.first() != ',' {
        let rest = text.drop_first();
        lemma_first_comma_bounds(rest);
        assert forall|i: int| 0 <= i < first_comma(text) implies text[i] != ',' by {
            if i > 0 {
                assert(text[i] == rest[i - 1]);
            }
        }
    }
}

proof fn lemma_first_comma_is(text: Seq<char>, at: int)
    requires
        0 <= at <= text.len(),
        forall|i: int| 0 <= i < at ==> text[i] != ',',
        at < text.len() ==> text[at] == ',',
    ensures
        first_comma(text) == at,
{
    lemma_first_comma_bounds(text);
}

/// Whether the character is white space.
pub fn is_whitespace(c: char) -> (space: bool)
    ensures
        space == is_space(c),
{
    let code: u32 = c as u32;
    (0x09 <= code && code <= 0x0d) || code == 0x20 || code == 0x85 || code == 0xa0 || code
        == 0x1680 || (0x2000 <= code && code <= 0x200a) || code == 0x2028 || code == 0x2029
        || code == 0x202f || code == 0x205f || code == 0x3000
}

/// Reads a forwarding header that names exactly `proxy_depth` addresses and
/// gives its leftmost one, the client's. The text it gives is not yet known
/// to be an address.
pub fn parse_forwarded_header(lookup: &HeaderLookup, header_name: &str, proxy_depth: usize) -> (reading:
    Result<String, IpExtractionError>)
    ensures
        forwarded_reading(*lookup, header_name@, proxy_depth, reading),
{
    let value = match lookup {
        HeaderLookup::Missing => {
            return Err(
                IpExtractionError::MissingHeader { header_name: String::from_str(header_name) },
            );
        },
        HeaderLookup::NotText => {
            return Err(
                IpExtractionError::InvalidHeaderEncoding {
                    header_name: String::from_str(header_name),
                },
            );
        },
        HeaderLookup::Text(value) => value,
    };
    let chars = chars_of(value.as_str());
    let length: usize = chars.len();
    // Count the commas, and find the first.
    let mut found: usize = 0;
    let mut first: usize = length;
    let mut i: usize = 0;
    while i < length
        invariant
            0 <= i <= length == chars@.len(),
            found == commas(chars@.take(i as int)),
            found <= i,
            first <= length,
            first == length ==> forall|k: int| 0 <= k < i ==> chars@[k] != ',',
            first < length ==> first < i && chars@[first as int] == ',' && forall|k: int|
                0 <= k < first ==> chars@[k] != ',',
        decreases length - i,
    {
        assert(chars@.take(i + 1).drop_last() =~= chars@.take(i as int));
        if chars[i] == ',' {
            found = found + 1;
            if first == length {
                first = i;
            }
        }
        i = i + 1;
    }
    proof {
        assert(chars@.take(length as int) =~= chars@);
        lemma_first_comma_is(chars@, first as int);
    }
    if found == usize::MAX || found + 1 != proxy_depth {
        let actual: usize = if found == usize::MAX {
            usize::MAX
        } else {
            found + 1
        };
        return Err(
            IpExtractionError::ProxyDepthMismatch {
                header_name: String::from_str(header_name),
                expected: proxy_depth,
                actual,
            },
        );
    }
    // Skip the white space on both sides of what stands before the first comma.
    let ghost field = chars@.take(first as int);
    assert(field.skip(0) =~= field);
    let mut start: usize = 0;
    while start < first && is_whitespace(chars[start])
        invariant
            0 <= start <= first <= length == chars@.len(),
            field == chars@.take(first as int),
            trimmed_start(field) == trimmed_start(field.skip(start as int)),
        decreases first - start,
    {
        assert(field.skip(start as int).drop_first() =~= field.skip(start + 1));
        start = start + 1;
    }
    let ghost tail = field.skip(start as int);
    assert(trimmed_start(field) == tail);
    assert(tail.take(first - start) =~= tail);
    let mut end: usize = first;
    while start < end && is_whitespace(chars[end - 1])
        invariant
            0 <= start <= end <= first <= length == chars@.len(),
            field == chars@.take(first as int),
            tail == field.skip(start as int),
            trimmed_end(tail) == trimmed_end(tail.take(end - start)),
        decreases end - start,
    {
        assert(tail.take(end - start).drop_last() =~= tail.take(end - start - 1));
        end = end - 1;
    }
    let ghost core = tail.take(end - start);
    assert(trimmed_end(tail) == core);
    let mut client = String::new();
    let mut j: usize = start;
    while j < end
        invariant
            start <= j <= end <= first <= length == chars@.len(),
            client@ == chars@.subrange(start as int, j as int),
        decreases end - j,
    {
        push_char(&mut client, chars[j]);
        assert(client@ =~= chars@.subrange(start as int, j + 1));
        j = j + 1;
    }
    assert(client@ =~= core);
    Ok(client)
}

/// Takes the client's address from where the strategy says: from the
/// forwarding header, or from the connection. The text it gives is not yet
/// known to be an address.
pub fn extract_client_ip(strategy: &IpExtractionStrategy, lookup: &HeaderLookup, socket_ip: &str) -> (reading:
    Result<String, IpExtractionError>)
    ensures
        match *strategy {
            IpExtractionStrategy::ForwardedHeader { header_name, proxy_depth } => forwarded_reading(
                *lookup,
                header_name@,
                proxy_depth,
                reading,
            ),
            IpExtractionStrategy::SocketAddr => reading matches Ok(client) && client@
                == socket_ip@,
        },
{
    match strategy {
        IpExtractionStrategy::ForwardedHeader { header_name, proxy_depth } => {
            parse_forwarded_header(lookup, header_name.as_str(), *proxy_depth)
        },
        IpExtractionStrategy::SocketAddr => Ok(String::from_str(socket_ip)),
    }
}

/// Accepts what a header gave as the client's address if it is an address,
/// as whoever holds a parser of addresses has found, and refuses it otherwise.
pub fn confirm_address(client: String, header_name: &str, is_address: bool) -> (confirmed: Result<
    String,
    IpExtractionError,
>)
    ensures
        is_address ==> (confirmed matches Ok(kept) && kept == client),
        !is_address ==> (confirmed matches Err(
            IpExtractionError::InvalidIpAddress { header_name: name, value },
        ) && name@ == header_name@ && value == client),
{
    if is_address {
        Ok(client)
    } else {
        Err(
            IpExtractionError::InvalidIpAddress {
                header_name: String::from_str(header_name),
                value: client,
            },
        )
    }
}

/// The greatest number of characters that is kept of a user agent.
pub const MAX_USER_AGENT_LENGTH: usize = 500;

/// A control character, as Unicode defines it.
pub open spec fn is_control(c: char) -> bool {
    c as u32 <= 0x1f || 0x7f <= c as u32 <= 0x9f
}

/// A character that a user agent may keep: any but a control character, and
/// of those the tab.
pub open spec fn keeps(c: char) -> bool {
    !is_control(c) || c == ' ' || c == '\t'
}

/// The user agent without its control characters, cut to the greatest length.
pub open spec fn sanitized(user_agent: Seq<char>) -> Seq<char> {
    let kept = user_agent.filter(|c: char| keeps(c));
    if kept.len() > MAX_USER_AGENT_LENGTH {
        kept.take(MAX_USER_AGENT_LENGTH as int)
    } else {
        kept
    }
}

/// Whether a user agent may keep the character.
pub fn is_kept(c: char) -> (kept: bool)
    ensures
        kept == keeps(c),
{
    let code: u32 = c as u32;
    !(code <= 0x1f || (0x7f <= code && code <= 0x9f)) || c == ' ' || c == '\t'
}

/// Removes the control characters from a user agent, but for tabs, and cuts
/// it to the greatest length.
pub fn sanitize_user_agent(user_agent: &str) -> (clean: String)
    ensures
        clean@ == sanitized(user_agent@),
{
    let chars = chars_of(user_agent);
    let ghost pred = |c: char| keeps(c);
    let mut clean = String::new();
    let mut taken: usize = 0;
    let mut i: usize = 0;
    proof {
        reveal(Seq::filter);
        assert(chars@.take(0).filter(pred) =~= Seq::empty());
    }
    while i < chars.len() && taken < MAX_USER_AGENT_LENGTH
        invariant
            0 <= i <= chars@.len(),
            pred == |c: char| keeps(c),
            clean@ == chars@.take(i as int).filter(pred),
            taken == clean@.len(),
            taken <= MAX_USER_AGENT_LENGTH,
        decreases chars@.len() - i,
    {
        proof {
            reveal(Seq::filter);
            assert(chars@.take(i + 1).drop_last() =~= chars@.take(i as int));
        }
        if is_kept(chars[i]) {
            push_char(&mut clean, chars[i]);
            taken = taken + 1;
        }
        i = i + 1;
    }
    proof {
        let seen = chars@.take(i as int);
        let rest = chars@.skip(i as int);
        assert(seen + rest =~= chars@);
        Seq::filter_distributes_over_add(seen, rest, pred);
        if i == chars@.len() {
            assert(seen =~= chars@);
        } else {
            assert(clean@.len() == MAX_USER_AGENT_LENGTH);
            assert((seen.filter(pred) + rest.filter(pred)).take(MAX_USER_AGENT_LENGTH as int)
                =~= seen.filter(pred));
        }
    }
    clean
}

} // verus!
