//! URLs of NNG endpoints: their scheme, their text built from socket addresses, and the
//! address part of TCP URLs.
use vstd::prelude::*;
use crate::aio::{is_text_error, IoError, IoErrorKind};
use crate::text::{decimal, hex_char, push_char, push_decimal, push_hex_byte};
use vstd::string::{StrSliceExecFns, StringExecFns};

verus! {

/// Whether `s` holds the separator `://` at char index `i`.
pub open spec fn is_sep_at(s: Seq<char>, i: int) -> bool {
    0 <= i && i + 3 <= s.len() && s[i] == ':' && s[i + 1] == '/' && s[i + 2] == '/'
}

/// Whether `i` is the first index at which `s` holds the separator `://`.
pub open spec fn is_first_sep(s: Seq<char>, i: int) -> bool {
    is_sep_at(s, i) && forall|j: int| 0 <= j < i ==> !is_sep_at(s, j)
}

/// Whether `s` holds the separator `://` somewhere.
pub open spec fn has_sep(s: Seq<char>) -> bool {
    exists|i: int| is_sep_at(s, i)
}

/// Returns the char index of the first `://` in `s`, if any.
fn find_sep(s: &str) -> (r: Option<usize>)
    ensures
        r matches Some(i) ==> is_first_sep(s@, i as int),
        r is None ==> forall|j: int| !is_sep_at(s@, j),
{
    let n = s.unicode_len();
    let mut i: usize = 0;
    while i < n && n - i >= 3
        invariant
            n == s@.len(),
            forall|j: int| 0 <= j < i ==> !is_sep_at(s@, j),
        decreases n - i,
    {
        assert(i + 3 <= n);
        if s.get_char(i) == ':' && s.get_char(i + 1) == '/' && s.get_char(i + 2) == '/' {
            return Some(i);
        }
        i = i + 1;
    }
    None
}

/// A URL representing an NNG address.
///
/// This is a simple wrapper around a URL string as NNG reports it. The part before the first
/// `://`, the scheme, indicates the transport type (e.g., `tcp`, `ipc`, `inproc`); every URL
/// that this library builds holds that separator.
#[derive(Debug, PartialEq, Eq, Hash)]
pub struct Url(String);

impl View for Url {
    type V = Seq<char>;

    closed spec fn view(&self) -> Seq<char> {
        self.0@
    }
}

impl Url {
    /// Returns a URL holding `s`.
    pub fn new(s: String) -> (r: Url)
        ensures
            r@ == s@,
    {
        Url(s)
    }

    /// Returns the URL string.
    pub fn to_string(&self) -> (r: String)
        ensures
            r@ == self@,
    {
        self.0.clone()
    }

    /// Returns the URL string as a reference.
    pub fn as_str(&self) -> (r: &str)
        ensures
            r@ == self@,
    {
        self.0.as_str()
    }

    /// Returns the URL scheme (e.g., "tcp", "ipc", "inproc"): the text before the first
    /// `://`, which the URL must hold.
    pub fn scheme(&self) -> (r: &str)
        requires
            has_sep(self@),
        ensures
            exists|i: int| is_first_sep(self@, i) && r@ == self@.take(i),
    {
        let s = self.0.as_str();
        match find_sep(s) {
            Some(i) => {
                let r = s.substring_char(0, i);
                assert(r@ == self@.take(i as int));
                r
            },
            None => {
                assert(false);
                s
            },
        }
    }
}

/// A socket address as NNG reports it, by address family. Ports and IPv4 addresses are held in
/// host byte order.
#[derive(Clone, Debug, PartialEq, Eq)]
pub enum SockAddr {
    /// No address (family `NNG_AF_UNSPEC`).
    Unspec,
    /// An in-process endpoint: the bytes of its name, ended by the first zero byte if any.
    Inproc { name: Vec<u8> },
    /// An IPC endpoint: the bytes of its path, ended by the first zero byte if any.
    Ipc { path: Vec<u8> },
    /// An IPv4 address and port.
    Inet { port: u16, addr: u32 },
    /// An IPv6 address (its sixteen bytes, most significant first), port and scope
    /// identifier.
    Inet6 { addr: [u8; 16], port: u16, scope: u32 },
    /// An abstract socket: the bytes of its name, which may hold any byte.
    Abstract { name: Vec<u8> },
}

/// The bytes of `s` before its first zero byte (all of them if there is none).
pub open spec fn until_nul(s: Seq<u8>) -> Seq<u8>
    decreases s.len(),
{
    if s.len() == 0 {
        s
    } else if s[0] == 0 {
        Seq::empty()
    } else {
        seq![s[0]] + until_nul(s.drop_first())
    }
}

/// `String::from_utf8_lossy` of a byte string: its UTF-8 decoding, with each invalid sequence
/// replaced by U+FFFD.
pub uninterp spec fn utf8_lossy(bytes: Seq<u8>) -> Seq<char>;

/// Whether every byte is ASCII.
pub open spec fn all_ascii(bytes: Seq<u8>) -> bool {
    forall|i: int| 0 <= i < bytes.len() ==> bytes[i] < 128
}

/// `String::from_utf8_lossy(bytes).into_owned()`.
///
/// The result is named by [`utf8_lossy`]; beyond that, only what the documentation gives is
/// stated: valid UTF-8 decodes as itself, so an ASCII byte string becomes the same characters.
#[verifier::external_body]
fn lossy_string(bytes: &[u8]) -> (r: String)
    ensures
        r@ == utf8_lossy(bytes@),
        all_ascii(bytes@) ==> r@ == bytes@.map_values(|b: u8| b as char),
{
    String::from_utf8_lossy(bytes).into_owned()
}

/// The text that the standard library displays for an IPv6 socket address (such as
/// `[::1]:9090`, or `[fe80::1%42]:9090` with a scope identifier), of the address's sixteen
/// bytes, its port and its scope identifier.
pub uninterp spec fn ipv6_socket_text(addr: Seq<u8>, port: u16, scope: u32) -> Seq<char>;

/// `SocketAddrV6::new(Ipv6Addr::from(addr), port, 0, scope).to_string()`: the display text of
/// an IPv6 socket address, named by [`ipv6_socket_text`].
#[verifier::external_body]
fn ipv6_text(addr: [u8; 16], port: u16, scope: u32) -> (r: String)
    ensures
        r@ == ipv6_socket_text(addr@, port, scope),
{
    core::net::SocketAddrV6::new(core::net::Ipv6Addr::from(addr), port, 0, scope).to_string()
}

/// The dotted-decimal text of an IPv4 address held in host byte order.
pub open spec fn ipv4_text(addr: u32) -> Seq<char> {
    decimal((addr / 0x100_0000) as nat) + "."@ + decimal(((addr / 0x1_0000) % 0x100) as nat)
        + "."@ + decimal(((addr / 0x100) % 0x100) as nat) + "."@ + decimal(
        (addr % 0x100) as nat,
    )
}

/// Whether `b` is an ASCII graphic character (`!` through `~`).
pub open spec fn is_ascii_graphic(b: u8) -> bool {
    0x21 <= b <= 0x7e
}

/// A byte of an abstract socket name in a URL: graphic ASCII characters as themselves, any
/// other byte as `%` and two lower-case hexadecimal digits.
pub open spec fn escape_byte(b: u8) -> Seq<char> {
    if is_ascii_graphic(b) {
        seq![b as char]
    } else {
        seq!['%', hex_char((b / 16) as nat), hex_char((b % 16) as nat)]
    }
}

/// An abstract socket name in a URL, byte by byte.
pub open spec fn escape_abstract(name: Seq<u8>) -> Seq<char>
    decreases name.len(),
{
    if name.len() == 0 {
        Seq::empty()
    } else {
        escape_abstract(name.drop_last()) + escape_byte(name.last())
    }
}

/// The URL text of an address under a scheme, or `None` for an unspecified address.
pub open spec fn url_text(addr: SockAddr, scheme: Seq<char>) -> Option<Seq<char>> {
    let prefix = scheme + "://"@;
    match addr {
        SockAddr::Unspec => None,
        SockAddr::Inet { port, addr } => Some(
            prefix + ipv4_text(addr) + ":"@ + decimal(port as nat),
        ),
        SockAddr::Inet6 { addr, port, scope } => Some(prefix + ipv6_socket_text(addr@, port, scope)),
        SockAddr::Ipc { path } => Some(prefix + utf8_lossy(until_nul(path@))),
        SockAddr::Inproc { name } => Some(prefix + utf8_lossy(until_nul(name@))),
        SockAddr::Abstract { name } => Some(prefix + escape_abstract(name@)),
    }
}

/// Returns the bytes of `s` before its first zero byte.
fn bytes_until_nul(s: &[u8]) -> (r: &[u8])
    ensures
        r@ == until_nul(s@),
{
    let mut i: usize = 0;
    assert(s@.skip(0) == s@);
    assert(s@.take(0) + until_nul(s@) == until_nul(s@));
    while i < s.len() && s[i] != 0
        invariant
            i <= s@.len(),
            forall|j: int| 0 <= j < i ==> s@[j] != 0,
            until_nul(s@) == s@.take(i as int) + until_nul(s@.skip(i as int)),
        decreases s@.len() - i,
    {
        proof {
            let rest = s@.skip(i as int);
            assert(rest[0] == s@[i as int]);
            assert(rest.drop_first() == s@.skip(i + 1));
            assert(s@.take(i + 1) == s@.take(i as int) + seq![s@[i as int]]);
        }
        i = i + 1;
    }
    proof {
        if i < s@.len() {
            assert(s@.skip(i as int)[0] == 0);
        } else {
            assert(s@.skip(i as int).len() == 0);
        }
        assert(s@.take(i as int) + Seq::<u8>::empty() == s@.take(i as int));
    }
    vstd::slice::slice_subrange(s, 0, i)
}

/// Appends the URL form of an abstract socket name to `url`.
fn push_abstract_name(url: &mut String, name: &[u8])
    ensures
        final(url)@ == old(url)@ + escape_abstract(name@),
{
    let mut i: usize = 0;
    while i < name.len()
        invariant
            i <= name@.len(),
            url@ == old(url)@ + escape_abstract(name@.take(i as int)),
        decreases name@.len() - i,
    {
        let b = name[i];
        if 0x21 <= b && b <= 0x7e {
            push_char(url, b as char);
        } else {
            push_char(url, '%');
            push_hex_byte(url, b);
        }
        proof {
            let t = name@.take(i + 1);
            assert(t.drop_last() == name@.take(i as int));
            assert(t.last() == b);
        }
        i = i + 1;
    }
    assert(name@.take(name@.len() as int) == name@);
}

impl Url {
    /// Returns the URL of `addr` under `scheme`, or `None` if the address is unspecified
    /// (family `NNG_AF_UNSPEC`).
    pub fn from_nng(addr: &SockAddr, scheme: &str) -> (r: Option<Url>)
        ensures
            url_text(*addr, scheme@) matches Some(t) ==> (r matches Some(u) && u@ == t),
            url_text(*addr, scheme@) is None ==> r is None,
    {
        if let SockAddr::Unspec = addr {
            return None;
        }
        let mut url = String::from_str(scheme);
        url.append("://");
        proof {
            reveal_strlit("://");
        }
        let ghost prefix = url@;
        match addr {
            SockAddr::Unspec => {},
            SockAddr::Inet { port, addr } => {
                let a = *addr;
                push_decimal(&mut url, (a / 0x100_0000) as u64);
                url.append(".");
                push_decimal(&mut url, ((a / 0x1_0000) % 0x100) as u64);
                url.append(".");
                push_decimal(&mut url, ((a / 0x100) % 0x100) as u64);
                url.append(".");
                push_decimal(&mut url, (a % 0x100) as u64);
                url.append(":");
                push_decimal(&mut url, *port as u64);
                proof {
                    reveal_strlit(".");
                    reveal_strlit(":");
                }
            },
            SockAddr::Inet6 { addr, port, scope } => {
                let text = ipv6_text(*addr, *port, *scope);
                url.append(text.as_str());
            },
            SockAddr::Ipc { path } => {
                let text = lossy_string(bytes_until_nul(path.as_slice()));
                url.append(text.as_str());
            },
            SockAddr::Inproc { name } => {
                let text = lossy_string(bytes_until_nul(name.as_slice()));
                url.append(text.as_str());
            },
            SockAddr::Abstract { name } => {
                push_abstract_name(&mut url, name.as_slice());
            },
        }
        assert(is_sep_at(url@, scheme@.len() as int));
        Some(Url(url))
    }
}

/// `str::from_utf8` of a byte string: its text, if the bytes are valid UTF-8.
pub uninterp spec fn utf8_text(bytes: Seq<u8>) -> Option<Seq<char>>;

/// `str::from_utf8(bytes)`, copied into a `String`.
///
/// The result is named by [`utf8_text`]; beyond that, only what the documentation gives is
/// stated: ASCII is valid UTF-8 and decodes as the same characters.
#[verifier::external_body]
fn utf8_string(bytes: &[u8]) -> (r: Option<String>)
    ensures
        r.deep_view() == utf8_text(bytes@),
        all_ascii(bytes@) ==> r.deep_view() == Some(bytes@.map_values(|b: u8| b as char)),
{
    match core::str::from_utf8(bytes) {
        Ok(text) => Some(text.to_string()),
        Err(_) => None,
    }
}

/// The room that NNG gives the text of a URL, its terminating zero included.
pub const NNG_MAXADDRSTRLEN: usize = 144;

/// The outcome of reading a listener's URL, given the result of NNG's `nng_url_sprintf` into
/// `buf`: the number of bytes written (negative on failure).
pub open spec fn sprintf_url_outcome(buf: Seq<u8>, written: i32) -> Result<Seq<char>, Seq<char>> {
    if written < 0 {
        Err("nng_url_sprintf failed"@)
    } else if written == 0 {
        Err("nng_url_sprintf returned empty URL"@)
    } else {
        match utf8_text(buf.take(written as int)) {
            None => Err("URL is not valid UTF-8"@),
            Some(t) => Ok(t),
        }
    }
}

impl Url {
    /// Returns the URL that NNG's `nng_url_sprintf` wrote into `buf`, given the number of
    /// bytes it reports, or an [`IoErrorKind::InvalidData`] error with the message refusing
    /// it: a failure (a negative count), an empty URL, or text that is not UTF-8. The text is
    /// taken as NNG wrote it.
    pub fn from_sprintf(buf: &[u8], written: i32) -> (r: Result<Url, IoError>)
        requires
            written < NNG_MAXADDRSTRLEN,
            written <= buf@.len(),
        ensures
            sprintf_url_outcome(buf@, written) matches Ok(t) ==> (r matches Ok(u) && u@ == t),
            sprintf_url_outcome(buf@, written) matches Err(m) ==> (r matches Err(e)
                && is_text_error(e, IoErrorKind::InvalidData, m)),
    {
        if written < 0 {
            let m = String::from_str("nng_url_sprintf failed");
            proof {
                reveal_strlit("nng_url_sprintf failed");
            }
            return Err(IoError::text(IoErrorKind::InvalidData, m));
        }
        if written == 0 {
            let m = String::from_str("nng_url_sprintf returned empty URL");
            proof {
                reveal_strlit("nng_url_sprintf returned empty URL");
            }
            return Err(IoError::text(IoErrorKind::InvalidData, m));
        }
        let text = vstd::slice::slice_subrange(buf, 0, written as usize);
        assert(text@ == buf@.take(written as int));
        match utf8_string(text) {
            None => {
                let m = String::from_str("URL is not valid UTF-8");
                proof {
                    reveal_strlit("URL is not valid UTF-8");
                }
                Err(IoError::text(IoErrorKind::InvalidData, m))
            },
            Some(t) => Ok(Url(t)),
        }
    }
}

/// The index of the first `c` in `s`, if any.
pub open spec fn index_of(s: Seq<char>, c: char) -> Option<int>
    decreases s.len(),
{
    if s.len() == 0 {
        None
    } else if s[0] == c {
        Some(0)
    } else {
        match index_of(s.drop_first(), c) {
            Some(i) => Some(i + 1),
            None => None,
        }
    }
}

/// Returns the index of the first `c` in `s`, if any.
fn find_char(s: &str, c: char) -> (r: Option<usize>)
    ensures
        r matches Some(i) ==> index_of(s@, c) == Some(i as int),
        r is None ==> index_of(s@, c) is None,
{
    let n = s.unicode_len();
    let mut i: usize = 0;
    assert(s@.skip(0) == s@);
    while i < n
        invariant
            n == s@.len(),
            i <= n,
            index_of(s@, c) == (match index_of(s@.skip(i as int), c) {
                Some(k) => Some(k + i),
                None => None,
            }),
        decreases n - i,
    {
        if s.get_char(i) == c {
            assert(s@.skip(i as int)[0] == c);
            return Some(i);
        }
        assert(s@.skip(i as int).drop_first() == s@.skip(i + 1));
        i = i + 1;
    }
    assert(s@.skip(n as int).len() == 0);
    None
}

/// Whether two strings hold the same characters.
fn str_eq(a: &str, b: &str) -> (r: bool)
    ensures
        r <==> a@ == b@,
{
    let n = a.unicode_len();
    if n != b.unicode_len() {
        return false;
    }
    let mut i: usize = 0;
    while i < n
        invariant
            n == a@.len() == b@.len(),
            i <= n,
            forall|j: int| 0 <= j < i ==> a@[j] == b@[j],
        decreases n - i,
    {
        if a.get_char(i) != b.get_char(i) {
            return false;
        }
        i = i + 1;
    }
    assert(a@ =~= b@);
    true
}

/// Whether `s` is one of the TCP or TLS-over-TCP URL schemes: `tcp`, `tcp4`, `tcp6`,
/// `tls+tcp`, `tls+tcp4`, `tls+tcp6`.
pub open spec fn is_tcp_scheme(s: Seq<char>) -> bool {
    s == "tcp"@ || s == "tcp4"@ || s == "tcp6"@ || s == "tls+tcp"@ || s == "tls+tcp4"@ || s
        == "tls+tcp6"@
}

/// An address with any IPv6 scope identifier removed: the text from the first `%` up to the
/// first `]` (or the end) is dropped.
pub open spec fn strip_scope(addr: Seq<char>) -> Seq<char> {
    match index_of(addr, '%') {
        Some(pct) => {
            let bracket = match index_of(addr, ']') {
                Some(b) => b,
                None => addr.len() as int,
            };
            addr.take(pct) + addr.skip(bracket)
        },
        None => addr,
    }
}

/// The socket-address text of a TCP or TLS URL, or the message refusing the URL.
pub open spec fn tcp_url_address_spec(url: Seq<char>) -> Result<Seq<char>, Seq<char>> {
    if !has_sep(url) {
        Err("malformed URL: "@ + url)
    } else {
        let i = choose|i: int| is_first_sep(url, i);
        if !is_tcp_scheme(url.take(i)) {
            Err("unexpected URL scheme in "@ + url)
        } else {
            Ok(strip_scope(url.skip(i + 3)))
        }
    }
}

/// A separator that comes first is the only one that does.
proof fn lemma_first_sep_unique(s: Seq<char>, i: int, j: int)
    requires
        is_first_sep(s, i),
        is_first_sep(s, j),
    ensures
        i == j,
{
}

/// Returns the socket-address part of a TCP or TLS URL, ready to parse, or the message
/// refusing the URL.
///
/// Accepts the schemes `tcp`, `tcp4`, `tcp6`, `tls+tcp`, `tls+tcp4` and `tls+tcp6`. An IPv6
/// scope identifier is removed (`[fe80::1%42]:9090` becomes `[fe80::1]:9090`), as socket
/// addresses do not hold one.
pub fn tcp_url_address(url: &str) -> (r: Result<String, String>)
    ensures
        match (r, tcp_url_address_spec(url@)) {
            (Ok(a), Ok(b)) => a@ == b,
            (Err(a), Err(b)) => a@ == b,
            _ => false,
        },
{
    let sep = find_sep(url);
    let i = match sep {
        None => {
            let mut msg = String::from_str("malformed URL: ");
            msg.append(url);
            proof {
                reveal_strlit("malformed URL: ");
            }
            return Err(msg);
        },
        Some(i) => i,
    };
    proof {
        assert(has_sep(url@));
        let k = choose|k: int| is_first_sep(url@, k);
        lemma_first_sep_unique(url@, i as int, k);
    }
    let n = url.unicode_len();
    let scheme = url.substring_char(0, i);
    let addr_part = url.substring_char(i + 3, n);
    let known = str_eq(scheme, "tcp") || str_eq(scheme, "tcp4") || str_eq(scheme, "tcp6")
        || str_eq(scheme, "tls+tcp") || str_eq(scheme, "tls+tcp4") || str_eq(scheme, "tls+tcp6");
    if !known {
        let mut msg = String::from_str("unexpected URL scheme in ");
        msg.append(url);
        proof {
            reveal_strlit("unexpected URL scheme in ");
        }
        return Err(msg);
    }
    assert(addr_part@ == url@.skip(i + 3));
    match find_char(addr_part, '%') {
        Some(pct) => {
            let m = addr_part.unicode_len();
            let bracket = match find_char(addr_part, ']') {
                Some(b) => b,
                None => m,
            };
            proof {
                if let Some(b) = index_of(addr_part@, ']') {
                    lemma_index_of_in_bounds(addr_part@, ']');
                }
                lemma_index_of_in_bounds(addr_part@, '%');
            }
            let mut out = String::from_str(addr_part.substring_char(0, pct));
            out.append(addr_part.substring_char(bracket, m));
            Ok(out)
        },
        None => Ok(String::from_str(addr_part)),
    }
}

/// A socket address: an IP address (an IPv4 address in the low 32 bits of `ip`, or an IPv6
/// address) and a port.
#[derive(Clone, Copy, Debug, PartialEq, Eq)]
pub struct TcpAddr {
    /// Whether the address is an IPv6 one.
    pub ipv6: bool,
    /// The address's bits, most significant first.
    pub ip: u128,
    /// The port.
    pub port: u16,
}

/// What `text.parse::<SocketAddr>()` gives: whether the address is IPv6, its bits and its
/// port, or the text of the parse error.
pub uninterp spec fn socket_addr_parse(text: Seq<char>) -> Result<(bool, u128, u16), Seq<char>>;

/// A parse result with its error taken as text.
pub open spec fn parse_result_view(r: Result<(bool, u128, u16), String>) -> Result<
    (bool, u128, u16),
    Seq<char>,
> {
    match r {
        Ok(a) => Ok(a),
        Err(e) => Err(e@),
    }
}

/// `text.parse::<SocketAddr>()`, with the address taken apart (IPv6 or not, the address's
/// bits, the port) and the error taken as its display text; named by [`socket_addr_parse`].
#[verifier::external_body]
fn parse_socket_addr(text: &str) -> (r: Result<(bool, u128, u16), String>)
    ensures
        parse_result_view(r) == socket_addr_parse(text@),
{
    match text.parse::<core::net::SocketAddr>() {
        Ok(core::net::SocketAddr::V4(a)) => Ok((false, u32::from(*a.ip()) as u128, a.port())),
        Ok(core::net::SocketAddr::V6(a)) => Ok((true, u128::from(*a.ip()), a.port())),
        Err(e) => Err(e.to_string()),
    }
}

/// The text of a URL after its first `://`.
pub open spec fn url_rest(url: Seq<char>) -> Seq<char> {
    url.skip((choose|i: int| is_first_sep(url, i)) + 3)
}

/// The socket address of a TCP or TLS URL, or the message refusing it.
pub open spec fn parse_tcp_url_spec(url: Seq<char>) -> Result<TcpAddr, Seq<char>> {
    match tcp_url_address_spec(url) {
        Err(m) => Err(m),
        Ok(a) => match socket_addr_parse(a) {
            Ok((v6, ip, port)) => Ok(TcpAddr { ipv6: v6, ip, port }),
            Err(e) => Err("failed to parse socket address from "@ + url_rest(url) + ": "@ + e),
        },
    }
}

/// Parses a TCP or TLS URL into a socket address.
///
/// The scheme is checked and an IPv6 scope identifier removed (see [`tcp_url_address`]), as
/// socket addresses do not hold one; the rest is parsed as a socket address, and a failure is
/// reported with the URL's address part as it was given. Every failure is an
/// [`IoErrorKind::InvalidData`] error carrying its message.
pub fn parse_tcp_url(url: &str) -> (r: Result<TcpAddr, IoError>)
    ensures
        parse_tcp_url_spec(url@) matches Ok(a) ==> r == Ok::<TcpAddr, IoError>(a),
        parse_tcp_url_spec(url@) matches Err(m) ==> (r matches Err(e) && is_text_error(
            e,
            IoErrorKind::InvalidData,
            m,
        )),
{
    let addr = match tcp_url_address(url) {
        Ok(a) => a,
        Err(m) => return Err(IoError::text(IoErrorKind::InvalidData, m)),
    };
    match parse_socket_addr(addr.as_str()) {
        Ok((v6, ip, port)) => Ok(TcpAddr { ipv6: v6, ip, port }),
        Err(e) => {
            let i = match find_sep(url) {
                Some(i) => i,
                None => {
                    assert(false);
                    0
                },
            };
            proof {
                let k = choose|k: int| is_first_sep(url@, k);
                lemma_first_sep_unique(url@, i as int, k);
            }
            let n = url.unicode_len();
            let rest = url.substring_char(i + 3, n);
            let mut m = String::from_str("failed to parse socket address from ");
            m.append(rest);
            m.append(": ");
            m.append(e.as_str());
            proof {
                reveal_strlit("failed to parse socket address from ");
                reveal_strlit(": ");
            }
            Err(IoError::text(IoErrorKind::InvalidData, m))
        },
    }
}

/// The sixteen bytes of an IPv6 address's bits, most significant first.
pub open spec fn be_bytes(ip: u128) -> Seq<u8> {
    seq![
        (ip >> 120u128) as u8,
        (ip >> 112u128) as u8,
        (ip >> 104u128) as u8,
        (ip >> 96u128) as u8,
        (ip >> 88u128) as u8,
        (ip >> 80u128) as u8,
        (ip >> 72u128) as u8,
        (ip >> 64u128) as u8,
        (ip >> 56u128) as u8,
        (ip >> 48u128) as u8,
        (ip >> 40u128) as u8,
        (ip >> 32u128) as u8,
        (ip >> 24u128) as u8,
        (ip >> 16u128) as u8,
        (ip >> 8u128) as u8,
        (ip >> 0u128) as u8,
    ]
}

/// The URL of a TCP listener on a socket address: `tcp://` and the address as the standard
/// library displays it (`1.2.3.4:5`, or `[ab:cd::ef]:5` for IPv6).
pub open spec fn tcp_url_text(addr: TcpAddr) -> Seq<char> {
    if addr.ipv6 {
        "tcp://"@ + ipv6_socket_text(be_bytes(addr.ip), addr.port, 0)
    } else {
        "tcp://"@ + ipv4_text(addr.ip as u32) + ":"@ + decimal(addr.port as nat)
    }
}

/// Returns the URL on which to listen for TCP connections at `addr` (see [`tcp_url_text`]).
pub fn tcp_url_of(addr: TcpAddr) -> (r: String)
    ensures
        r@ == tcp_url_text(addr),
{
    let mut url = String::from_str("tcp://");
    proof {
        reveal_strlit("tcp://");
        reveal_strlit(".");
        reveal_strlit(":");
    }
    if addr.ipv6 {
        let ip = addr.ip;
        let bytes: [u8; 16] = [
            (ip >> 120u128) as u8,
            (ip >> 112u128) as u8,
            (ip >> 104u128) as u8,
            (ip >> 96u128) as u8,
            (ip >> 88u128) as u8,
            (ip >> 80u128) as u8,
            (ip >> 72u128) as u8,
            (ip >> 64u128) as u8,
            (ip >> 56u128) as u8,
            (ip >> 48u128) as u8,
            (ip >> 40u128) as u8,
            (ip >> 32u128) as u8,
            (ip >> 24u128) as u8,
            (ip >> 16u128) as u8,
            (ip >> 8u128) as u8,
            (ip >> 0u128) as u8,
        ];
        assert(bytes@ == be_bytes(ip));
        let text = ipv6_text(bytes, addr.port, 0);
        url.append(text.as_str());
    } else {
        let a = addr.ip as u32;
        push_decimal(&mut url, (a / 0x100_0000) as u64);
        url.append(".");
        push_decimal(&mut url, ((a / 0x1_0000) % 0x100) as u64);
        url.append(".");
        push_decimal(&mut url, ((a / 0x100) % 0x100) as u64);
        url.append(".");
        push_decimal(&mut url, (a % 0x100) as u64);
        url.append(":");
        push_decimal(&mut url, addr.port as u64);
    }
    url
}

/// A found index lies within the sequence.
proof fn lemma_index_of_in_bounds(s: Seq<char>, c: char)
    ensures
        index_of(s, c) matches Some(i) ==> 0 <= i < s.len() && s[i] == c,
    decreases s.len(),
{
    if s.len() > 0 && s[0] != c {
        lemma_index_of_in_bounds(s.drop_first(), c);
    }
}

impl Clone for Url {
    fn clone(&self) -> (r: Url)
        ensures
            r@ == self@,
    {
        Url(self.0.clone())
    }
}

impl vstd::std_specs::convert::FromSpecImpl<Url> for String {
    open spec fn obeys_from_spec() -> bool {
        false
    }

    open spec fn from_spec(url: Url) -> String {
        arbitrary()
    }
}

impl From<Url> for String {
    /// Returns the URL's text.
    fn from(url: Url) -> (r: String)
        ensures
            r@ == url@,
    {
        url.0
    }
}

/// Options for a dialer or listener of any transport.
#[derive(Debug)]
#[non_exhaustive]
pub struct PipeOptions {}

impl Default for PipeOptions {
    fn default() -> (r: PipeOptions) {
        PipeOptions {  }
    }
}

/// Options for a TCP listener.
#[derive(Debug)]
#[non_exhaustive]
pub struct TcpOptions {
    /// Disables (when true) or enables Nagle's algorithm for TCP connections.
    ///
    /// When true (the default), messages are sent immediately by the underlying TCP stream
    /// without waiting to gather more data.
    pub no_delay: bool,
    /// Enables the sending of keep-alive messages on the underlying TCP stream. This option is
    /// false by default.
    pub keep_alive: bool,
    /// Options that apply to every transport.
    pub pipe: PipeOptions,
}

impl Default for TcpOptions {
    /// Nagle's algorithm disabled, keep-alive off.
    fn default() -> (r: TcpOptions)
        ensures
            r.no_delay,
            !r.keep_alive,
    {
        TcpOptions { no_delay: true, keep_alive: false, pipe: PipeOptions::default() }
    }
}


/// The value of an IPv4 address whose octets are `a.b.c.d`, most significant first.
pub open spec fn ipv4_of_octets(a: u8, b: u8, c: u8, d: u8) -> u32 {
    (a * 0x100_0000 + b * 0x1_0000 + c * 0x100 + d) as u32
}

/// An IPv4 address is written most significant octet first: the address whose octets are
/// `a.b.c.d` is written as the decimal numbers `a`, `b`, `c` and `d` with dots between them.
pub proof fn lemma_ipv4_text_octets(a: u8, b: u8, c: u8, d: u8)
    ensures
        ipv4_text(ipv4_of_octets(a, b, c, d)) == decimal(a as nat) + "."@ + decimal(b as nat)
            + "."@ + decimal(c as nat) + "."@ + decimal(d as nat),
{
    let x = a * 0x100_0000 + b * 0x1_0000 + c * 0x100 + d;
    assert(0 <= x < 0x1_0000_0000) by (nonlinear_arith)
        requires
            x == a * 0x100_0000 + b * 0x1_0000 + c * 0x100 + d,
            a < 256,
            b < 256,
            c < 256,
            d < 256,
    ;
    let y = ipv4_of_octets(a, b, c, d);
    assert(y == x);
    assert(y / 0x100_0000 == a && (y / 0x1_0000) % 0x100 == b && (y / 0x100) % 0x100 == c && y
        % 0x100 == d) by (nonlinear_arith)
        requires
            y == a * 0x100_0000 + b * 0x1_0000 + c * 0x100 + d,
            a < 256,
            b < 256,
            c < 256,
            d < 256,
    ;
}

/// The URL of an IPv4 endpoint is the scheme, `://`, the address's octets most significant
/// first with dots between them, `:` and the port; under the scheme `tcp` it is the URL that a
/// TCP listener on the same address and port uses.
pub proof fn lemma_ipv4_url(a: u8, b: u8, c: u8, d: u8, port: u16, scheme: Seq<char>)
    ensures
        url_text(SockAddr::Inet { port, addr: ipv4_of_octets(a, b, c, d) }, scheme) == Some(
            scheme + "://"@ + decimal(a as nat) + "."@ + decimal(b as nat) + "."@ + decimal(
                c as nat,
            ) + "."@ + decimal(d as nat) + ":"@ + decimal(port as nat),
        ),
        url_text(SockAddr::Inet { port, addr: ipv4_of_octets(a, b, c, d) }, "tcp"@) == Some(
            tcp_url_text(TcpAddr { ipv6: false, ip: ipv4_of_octets(a, b, c, d) as u128, port }),
        ),
{
    lemma_ipv4_text_octets(a, b, c, d);
    let t = ipv4_text(ipv4_of_octets(a, b, c, d));
    reveal_strlit("tcp");
    reveal_strlit("://");
    reveal_strlit("tcp://");
    assert("tcp"@ + "://"@ =~= "tcp://"@);
    let x = ipv4_of_octets(a, b, c, d);
    assert((x as u128) as u32 == x);
    assert("tcp"@ + "://"@ + t + ":"@ + decimal(port as nat) =~= "tcp://"@ + t + ":"@ + decimal(
        port as nat,
    ));
    assert(scheme + "://"@ + t + ":"@ + decimal(port as nat) =~= scheme + "://"@ + decimal(
        a as nat,
    ) + "."@ + decimal(b as nat) + "."@ + decimal(c as nat) + "."@ + decimal(d as nat) + ":"@
        + decimal(port as nat));
}


/// The bytes of an IPv6 address are its big-endian bytes: byte `i` holds the address's bits
/// `120 - 8 * i` to `127 - 8 * i`, so the first byte holds the most significant bits, and
/// reading the bytes back most significant first rebuilds the address.
pub proof fn lemma_be_bytes(ip: u128)
    ensures
        be_bytes(ip).len() == 16,
        forall|i: int|
            0 <= i < 16 ==> #[trigger] be_bytes(ip)[i] == (ip >> ((120 - 8 * i) as u128)) as u8,
        ({
            let b = be_bytes(ip);
            ((b[0] as u128) << 120u128) | ((b[1] as u128) << 112u128) | ((b[2] as u128) << 104u128) | ((b[3] as u128) << 96u128) | ((b[4] as u128) << 88u128) | ((b[5] as u128) << 80u128) | ((b[6] as u128) << 72u128) | ((b[7] as u128) << 64u128) | ((b[8] as u128) << 56u128) | ((b[9] as u128) << 48u128) | ((b[10] as u128) << 40u128) | ((b[11] as u128) << 32u128) | ((b[12] as u128) << 24u128) | ((b[13] as u128) << 16u128) | ((b[14] as u128) << 8u128) | ((b[15] as u128) << 0u128) == ip
        }),
{
    assert forall|i: int| 0 <= i < 16 implies #[trigger] be_bytes(ip)[i] == (ip >> ((120 - 8
        * i) as u128)) as u8 by {
        assert(be_bytes(ip)[0] == (ip >> 120u128) as u8);
        assert(be_bytes(ip)[1] == (ip >> 112u128) as u8);
        assert(be_bytes(ip)[2] == (ip >> 104u128) as u8);
        assert(be_bytes(ip)[3] == (ip >> 96u128) as u8);
        assert(be_bytes(ip)[4] == (ip >> 88u128) as u8);
        assert(be_bytes(ip)[5] == (ip >> 80u128) as u8);
        assert(be_bytes(ip)[6] == (ip >> 72u128) as u8);
        assert(be_bytes(ip)[7] == (ip >> 64u128) as u8);
        assert(be_bytes(ip)[8] == (ip >> 56u128) as u8);
        assert(be_bytes(ip)[9] == (ip >> 48u128) as u8);
        assert(be_bytes(ip)[10] == (ip >> 40u128) as u8);
        assert(be_bytes(ip)[11] == (ip >> 32u128) as u8);
        assert(be_bytes(ip)[12] == (ip >> 24u128) as u8);
        assert(be_bytes(ip)[13] == (ip >> 16u128) as u8);
        assert(be_bytes(ip)[14] == (ip >> 8u128) as u8);
        assert(be_bytes(ip)[15] == (ip >> 0u128) as u8);
    }
    assert((((ip >> 120u128) as u8 as u128) << 120u128) | (((ip >> 112u128) as u8 as u128) << 112u128) | (((ip >> 104u128) as u8 as u128) << 104u128) | (((ip >> 96u128) as u8 as u128) << 96u128) | (((ip >> 88u128) as u8 as u128) << 88u128) | (((ip >> 80u128) as u8 as u128) << 80u128) | (((ip >> 72u128) as u8 as u128) << 72u128) | (((ip >> 64u128) as u8 as u128) << 64u128) | (((ip >> 56u128) as u8 as u128) << 56u128) | (((ip >> 48u128) as u8 as u128) << 48u128) | (((ip >> 40u128) as u8 as u128) << 40u128) | (((ip >> 32u128) as u8 as u128) << 32u128) | (((ip >> 24u128) as u8 as u128) << 24u128) | (((ip >> 16u128) as u8 as u128) << 16u128) | (((ip >> 8u128) as u8 as u128) << 8u128) | (((ip >> 0u128) as u8 as u128) << 0u128) == ip) by (bit_vector);
}

} // verus!
