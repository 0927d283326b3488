//! The syntax of ICE server URLs.
//!
//! ```text
//! url    = scheme ":" host [ ":" port ] [ "?transport=" ( "udp" / "tcp" ) ]
//! scheme = "stun" / "stuns" / "turn" / "turns"
//! host   = 1*( ALPHA / DIGIT / "-" / "." )
//!        / "[" 1*( HEXDIG / ":" / "." ) "]"
//! port   = 1*DIGIT            ; a value from 1 to 65535
//! ```
//!
//! Only the relay schemes `turn` and `turns` take a transport query. Scheme
//! names are written in lower case.

use vstd::prelude::*;

verus! {

pub const COLON: u8 = 58;

pub const QUESTION_MARK: u8 = 63;

pub const LEFT_BRACKET: u8 = 91;

pub const RIGHT_BRACKET: u8 = 93;

pub const MAX_PORT: u32 = 65535;

/// The four schemes an ICE server URL can carry.
#[derive(Clone, Copy, Debug, PartialEq, Eq, Structural)]
pub enum IceScheme {
    Stun,
    Stuns,
    Turn,
    Turns,
}

impl IceScheme {
    /// The bytes every URL of this scheme starts with: the name and a colon.
    pub open spec fn prefix(self) -> Seq<u8> {
        match self {
            IceScheme::Stun => seq![115u8, 116u8, 117u8, 110u8, 58u8],
            IceScheme::Stuns => seq![115u8, 116u8, 117u8, 110u8, 115u8, 58u8],
            IceScheme::Turn => seq![116u8, 117u8, 114u8, 110u8, 58u8],
            IceScheme::Turns => seq![116u8, 117u8, 114u8, 110u8, 115u8, 58u8],
        }
    }

    /// Whether servers of this scheme relay media.
    pub open spec fn spec_relays(self) -> bool {
        self == IceScheme::Turn || self == IceScheme::Turns
    }

    #[verifier::when_used_as_spec(spec_relays)]
    pub fn relays(self) -> (relay: bool)
        ensures
            relay == self.spec_relays(),
    {
        match self {
            IceScheme::Stun => false,
            IceScheme::Stuns => false,
            IceScheme::Turn => true,
            IceScheme::Turns => true,
        }
    }

    /// The length of this scheme's prefix, and whether `bytes` starts with it.
    fn leads(self, bytes: &[u8]) -> (found: (usize, bool))
        ensures
            found.0 == self.prefix().len(),
            found.1 == starts_with(bytes@, self.prefix()),
    {
        match self {
            IceScheme::Stun => {
                let name: [u8; 5] = [115, 116, 117, 110, 58];
                assert(name@ =~= self.prefix());
                (5, begins(bytes, name.as_slice()))
            },
            IceScheme::Stuns => {
                let name: [u8; 6] = [115, 116, 117, 110, 115, 58];
                assert(name@ =~= self.prefix());
                (6, begins(bytes, name.as_slice()))
            },
            IceScheme::Turn => {
                let name: [u8; 5] = [116, 117, 114, 110, 58];
                assert(name@ =~= self.prefix());
                (5, begins(bytes, name.as_slice()))
            },
            IceScheme::Turns => {
                let name: [u8; 6] = [116, 117, 114, 110, 115, 58];
                assert(name@ =~= self.prefix());
                (6, begins(bytes, name.as_slice()))
            },
        }
    }
}

/// The classes of bytes that a run inside a URL is made of.
#[derive(Clone, Copy, Debug, PartialEq, Eq, Structural)]
pub enum ByteClass {
    /// Letters, digits, `-` and `.`: what a host name or an IPv4 address holds.
    Name,
    /// Hexadecimal digits, `:` and `.`: what a bracketed address holds.
    Address,
    /// Decimal digits.
    Digit,
}

pub open spec fn is_digit(byte: u8) -> bool {
    48 <= byte <= 57
}

pub open spec fn is_letter(byte: u8) -> bool {
    65 <= byte <= 90 || 97 <= byte <= 122
}

pub open spec fn is_hex_letter(byte: u8) -> bool {
    65 <= byte <= 70 || 97 <= byte <= 102
}

impl ByteClass {
    pub open spec fn spec_accepts(self, byte: u8) -> bool {
        match self {
            ByteClass::Name => is_digit(byte) || is_letter(byte) || byte == 45 || byte == 46,
            ByteClass::Address => is_digit(byte) || is_hex_letter(byte) || byte == COLON || byte
                == 46,
            ByteClass::Digit => is_digit(byte),
        }
    }

    #[verifier::when_used_as_spec(spec_accepts)]
    pub fn accepts(self, byte: u8) -> (inside: bool)
        ensures
            inside == self.spec_accepts(byte),
    {
        let digit = 48 <= byte && byte <= 57;
        match self {
            ByteClass::Name => digit || (65 <= byte && byte <= 90) || (97 <= byte && byte <= 122)
                || byte == 45 || byte == 46,
            ByteClass::Address => digit || (65 <= byte && byte <= 70) || (97 <= byte && byte
                <= 102) || byte == COLON || byte == 46,
            ByteClass::Digit => digit,
        }
    }
}

/// `pattern` is how `s` begins.
pub open spec fn starts_with(s: Seq<u8>, pattern: Seq<u8>) -> bool {
    pattern.len() <= s.len() && s.subrange(0, pattern.len() as int) == pattern
}

/// Every byte of `s` from `from` up to, not including, `to` is in `class`.
pub open spec fn all_accepted(s: Seq<u8>, from: int, to: int, class: ByteClass) -> bool {
    forall|i: int| from <= i < to ==> class.spec_accepts(#[trigger] s[i])
}

/// The bytes from `from` to `to` are a host: a name, or an address in
/// brackets.
pub open spec fn is_host(s: Seq<u8>, from: int, to: int) -> bool {
    ||| from < to && all_accepted(s, from, to, ByteClass::Name)
    ||| {
        &&& from + 2 < to
        &&& s[from] == LEFT_BRACKET
        &&& s[to - 1] == RIGHT_BRACKET
        &&& all_accepted(s, from + 1, to - 1, ByteClass::Address)
    }
}

/// The number that the decimal digits from `from` to `to` write.
pub open spec fn decimal(s: Seq<u8>, from: int, to: int) -> int
    decreases to - from,
{
    if to <= from {
        0
    } else {
        decimal(s, from, to - 1) * 10 + (s[to - 1] - 48)
    }
}

/// The bytes from `from` to `to` are a port: digits that write a number from
/// 1 to 65535.
pub open spec fn is_port(s: Seq<u8>, from: int, to: int) -> bool {
    &&& from < to
    &&& all_accepted(s, from, to, ByteClass::Digit)
    &&& 1 <= decimal(s, from, to) <= MAX_PORT
}

pub open spec fn udp_query() -> Seq<u8> {
    seq![63u8, 116u8, 114u8, 97u8, 110u8, 115u8, 112u8, 111u8, 114u8, 116u8, 61u8, 117u8, 100u8, 112u8]
}

pub open spec fn tcp_query() -> Seq<u8> {
    seq![63u8, 116u8, 114u8, 97u8, 110u8, 115u8, 112u8, 111u8, 114u8, 116u8, 61u8, 116u8, 99u8, 112u8]
}

/// What is left of `s` from `from` on is `?transport=udp` or `?transport=tcp`.
pub open spec fn is_transport_query(s: Seq<u8>, from: int) -> bool {
    let rest = s.subrange(from, s.len() as int);
    rest == udp_query() || rest == tcp_query()
}

/// After a scheme prefix that ends at `start`, `s` holds a host up to
/// `host_end`, then a colon and a port up to `port_end` unless
/// `port_end == host_end`, then nothing more, or a transport query where
/// `relays` allows one.
pub open spec fn tail_form(s: Seq<u8>, start: int, relays: bool, host_end: int, port_end: int) -> bool {
    &&& 0 <= start < host_end <= port_end <= s.len()
    &&& is_host(s, start, host_end)
    &&& port_end > host_end ==> s[host_end] == COLON && is_port(s, host_end + 1, port_end)
    &&& port_end < s.len() ==> relays && is_transport_query(s, port_end)
}

/// `s` is a well-formed URL of the given scheme.
pub open spec fn conforms(s: Seq<u8>, scheme: IceScheme) -> bool {
    &&& starts_with(s, scheme.prefix())
    &&& exists|host_end: int, port_end: int| #[trigger]
        tail_form(s, scheme.prefix().len() as int, scheme.spec_relays(), host_end, port_end)
}

/// The scheme of `s` if `s` is a well-formed ICE server URL, `None` if it is
/// malformed.
pub open spec fn spec_classify(s: Seq<u8>) -> Option<IceScheme> {
    if conforms(s, IceScheme::Stun) {
        Some(IceScheme::Stun)
    } else if conforms(s, IceScheme::Stuns) {
        Some(IceScheme::Stuns)
    } else if conforms(s, IceScheme::Turn) {
        Some(IceScheme::Turn)
    } else if conforms(s, IceScheme::Turns) {
        Some(IceScheme::Turns)
    } else {
        None
    }
}

/// `s` is a well-formed ICE server URL.
pub open spec fn is_ice_url(s: Seq<u8>) -> bool {
    spec_classify(s) is Some
}

/// `s` is a well-formed URL of a relay server.
pub open spec fn is_relay_url(s: Seq<u8>) -> bool {
    spec_classify(s) matches Some(scheme) && scheme.spec_relays()
}

/// A URL conforms to one scheme at most: no two prefixes begin the same URL.
pub proof fn lemma_at_most_one_scheme(s: Seq<u8>, first: IceScheme, second: IceScheme)
    requires
        conforms(s, first),
        conforms(s, second),
    ensures
        first == second,
{
    let a = s.subrange(0, first.prefix().len() as int);
    let b = s.subrange(0, second.prefix().len() as int);
    assert(a[0] == s[0] && b[0] == s[0]);
    assert(a[4] == s[4] && b[4] == s[4]);
}

/// A host ends where the URL ends or where a port or a query begins.
pub open spec fn host_stops(s: Seq<u8>, at: int) -> bool {
    at == s.len() || s[at] == COLON || s[at] == QUESTION_MARK
}

/// A port ends where the URL ends or where a query begins.
pub open spec fn port_stops(s: Seq<u8>, at: int) -> bool {
    at == s.len() || s[at] == QUESTION_MARK
}

/// A run of one class that cannot be extended has only one possible end.
proof fn lemma_run_is_maximal(s: Seq<u8>, from: int, end: int, other: int, class: ByteClass)
    requires
        0 <= from <= end <= s.len(),
        all_accepted(s, from, end, class),
        end < s.len() ==> !class.spec_accepts(s[end]),
        from <= other <= s.len(),
        all_accepted(s, from, other, class),
        other < s.len() ==> !class.spec_accepts(s[other]),
    ensures
        other == end,
{
    if other < end {
        assert(class.spec_accepts(s[other]));
    } else if end < other {
        assert(class.spec_accepts(s[end]));
    }
}

/// A transport query begins with a question mark.
proof fn lemma_query_begins(s: Seq<u8>, from: int)
    requires
        0 <= from <= s.len(),
        is_transport_query(s, from),
    ensures
        from < s.len(),
        s[from] == QUESTION_MARK,
{
    let rest = s.subrange(from, s.len() as int);
    assert(rest.len() == 14);
    assert(rest[0] == s[from]);
    assert(udp_query()[0] == 63u8);
    assert(tcp_query()[0] == 63u8);
}

/// What any decomposition of a URL's tail tells about the bytes at its two
/// boundaries.
proof fn lemma_tail_form_boundaries(s: Seq<u8>, start: int, relays: bool, host_end: int, port_end: int)
    requires
        tail_form(s, start, relays, host_end, port_end),
    ensures
        host_stops(s, host_end),
        port_stops(s, port_end),
        port_end == host_end ==> s.len() == host_end || s[host_end] == QUESTION_MARK,
{
    if port_end < s.len() {
        lemma_query_begins(s, port_end);
    }
}

/// Appending a digit never lowers the number written.
proof fn lemma_decimal_grows(s: Seq<u8>, from: int, mid: int, to: int)
    requires
        0 <= from <= mid <= to <= s.len(),
        all_accepted(s, from, to, ByteClass::Digit),
    ensures
        decimal(s, from, mid) <= decimal(s, from, to),
        0 <= decimal(s, from, mid),
    decreases to - mid,
{
    lemma_decimal_nonnegative(s, from, mid);
    if mid < to {
        lemma_decimal_grows(s, from, mid, to - 1);
        lemma_decimal_nonnegative(s, from, to - 1);
        assert(ByteClass::Digit.spec_accepts(s[to - 1]));
    }
}

/// Digits write a number that is not negative.
proof fn lemma_decimal_nonnegative(s: Seq<u8>, from: int, to: int)
    requires
        0 <= from,
        to <= s.len(),
        all_accepted(s, from, to, ByteClass::Digit),
    ensures
        0 <= decimal(s, from, to),
    decreases to - from,
{
    if from < to {
        lemma_decimal_nonnegative(s, from, to - 1);
        assert(ByteClass::Digit.spec_accepts(s[to - 1]));
    }
}

/// Whether the bytes from `from` to `to` are exactly `pattern`.
fn region_equals(bytes: &[u8], from: usize, to: usize, pattern: &[u8]) -> (same: bool)
    requires
        from <= to <= bytes@.len(),
    ensures
        same == (bytes@.subrange(from as int, to as int) == pattern@),
{
    if to - from != pattern.len() {
        return false;
    }
    let ghost region = bytes@.subrange(from as int, to as int);
    let mut i: usize = 0;
    while i < pattern.len()
        invariant
            from <= to <= bytes@.len(),
            to - from == pattern@.len(),
            region == bytes@.subrange(from as int, to as int),
            i <= pattern@.len(),
            forall|j: int| 0 <= j < i ==> region[j] == pattern@[j],
        decreases pattern@.len() - i,
    {
        if bytes[from + i] != pattern[i] {
            assert(region[i as int] != pattern@[i as int]);
            return false;
        }
        i += 1;
    }
    assert(region =~= pattern@);
    true
}

/// Whether `bytes` begins with `pattern`.
fn begins(bytes: &[u8], pattern: &[u8]) -> (found: bool)
    ensures
        found == starts_with(bytes@, pattern@),
{
    if bytes.len() < pattern.len() {
        false
    } else {
        region_equals(bytes, 0, pattern.len(), pattern)
    }
}

/// The end of the longest run of `class` bytes that begins at `from`.
fn run_end(bytes: &[u8], from: usize, class: ByteClass) -> (end: usize)
    requires
        from <= bytes@.len(),
    ensures
        from <= end <= bytes@.len(),
        all_accepted(bytes@, from as int, end as int, class),
        end < bytes@.len() ==> !class.spec_accepts(bytes@[end as int]),
{
    let mut end: usize = from;
    while end < bytes.len() && class.accepts(bytes[end])
        invariant
            from <= end <= bytes@.len(),
            all_accepted(bytes@, from as int, end as int, class),
        decreases bytes@.len() - end,
    {
        end += 1;
    }
    end
}

/// Where the host that begins at `start` ends, if a host begins there.
fn host_end(bytes: &[u8], start: usize) -> (end: Option<usize>)
    requires
        start <= bytes@.len(),
    ensures
        match end {
            Some(h) => {
                &&& start < h <= bytes@.len()
                &&& is_host(bytes@, start as int, h as int)
                &&& forall|other: int|
                    start < other <= bytes@.len() && #[trigger] is_host(bytes@, start as int, other)
                        && host_stops(bytes@, other) ==> other == h
            },
            None => forall|other: int|
                start < other <= bytes@.len() && host_stops(bytes@, other) ==> !#[trigger] is_host(
                    bytes@,
                    start as int,
                    other,
                ),
        },
{
    let ghost s = bytes@;
    let n = bytes.len();
    if start >= n {
        return None;
    }
    if bytes[start] == LEFT_BRACKET {
        let close = run_end(bytes, start + 1, ByteClass::Address);
        assert forall|other: int|
            start < other <= s.len() && #[trigger] is_host(s, start as int, other) implies other
            == close + 1 && close > start + 1 && close < n && s[close as int] == RIGHT_BRACKET by {
            assert(!ByteClass::Name.spec_accepts(s[start as int]));
            lemma_run_is_maximal(s, start + 1, close as int, other - 1, ByteClass::Address);
        }
        if close > start + 1 && close < n && bytes[close] == RIGHT_BRACKET {
            Some(close + 1)
        } else {
            None
        }
    } else {
        let stop = run_end(bytes, start, ByteClass::Name);
        assert forall|other: int|
            start < other <= s.len() && #[trigger] is_host(s, start as int, other) && host_stops(
                s,
                other,
            ) implies other == stop && stop > start by {
            lemma_run_is_maximal(s, start as int, stop as int, other, ByteClass::Name);
        }
        if stop > start {
            Some(stop)
        } else {
            None
        }
    }
}

/// The number that the digits from `from` to `to` write, unless it is above
/// the largest port.
fn port_number(bytes: &[u8], from: usize, to: usize) -> (number: Option<u32>)
    requires
        from <= to <= bytes@.len(),
        all_accepted(bytes@, from as int, to as int, ByteClass::Digit),
    ensures
        match number {
            Some(value) => value == decimal(bytes@, from as int, to as int) && value <= MAX_PORT,
            None => decimal(bytes@, from as int, to as int) > MAX_PORT,
        },
{
    let mut value: u32 = 0;
    let mut i: usize = from;
    while i < to
        invariant
            from <= i <= to <= bytes@.len(),
            all_accepted(bytes@, from as int, to as int, ByteClass::Digit),
            value == decimal(bytes@, from as int, i as int),
            value <= MAX_PORT,
        decreases to - i,
    {
        assert(ByteClass::Digit.spec_accepts(bytes@[i as int]));
        let digit: u32 = (bytes[i] - 48) as u32;
        value = value * 10 + digit;
        i += 1;
        if value > MAX_PORT {
            proof {
                lemma_decimal_grows(bytes@, from as int, i as int, to as int);
            }
            return None;
        }
    }
    Some(value)
}

/// Where the port that begins at `from` ends, if a port begins there.
fn port_end(bytes: &[u8], from: usize) -> (end: Option<usize>)
    requires
        from <= bytes@.len(),
    ensures
        match end {
            Some(p) => {
                &&& from < p <= bytes@.len()
                &&& is_port(bytes@, from as int, p as int)
                &&& forall|other: int|
                    from <= other <= bytes@.len() && #[trigger] is_port(bytes@, from as int, other)
                        && port_stops(bytes@, other) ==> other == p
            },
            None => forall|other: int|
                from <= other <= bytes@.len() && port_stops(bytes@, other) ==> !#[trigger] is_port(
                    bytes@,
                    from as int,
                    other,
                ),
        },
{
    let ghost s = bytes@;
    let stop = run_end(bytes, from, ByteClass::Digit);
    assert forall|other: int|
        from <= other <= s.len() && #[trigger] is_port(s, from as int, other) && port_stops(
            s,
            other,
        ) implies other == stop by {
        lemma_run_is_maximal(s, from as int, stop as int, other, ByteClass::Digit);
    }
    if stop == from {
        return None;
    }
    match port_number(bytes, from, stop) {
        Some(value) => if value >= 1 {
            Some(stop)
        } else {
            None
        },
        None => None,
    }
}

/// Whether what is left of `bytes` from `from` on is a transport query.
fn transport_query_at(bytes: &[u8], from: usize) -> (found: bool)
    requires
        from <= bytes@.len(),
    ensures
        found == is_transport_query(bytes@, from as int),
{
    let udp: [u8; 14] = [63, 116, 114, 97, 110, 115, 112, 111, 114, 116, 61, 117, 100, 112];
    let tcp: [u8; 14] = [63, 116, 114, 97, 110, 115, 112, 111, 114, 116, 61, 116, 99, 112];
    assert(udp@ =~= udp_query());
    assert(tcp@ =~= tcp_query());
    region_equals(bytes, from, bytes.len(), udp.as_slice()) || region_equals(
        bytes,
        from,
        bytes.len(),
        tcp.as_slice(),
    )
}

/// Whether `bytes`, after a scheme prefix that ends at `start`, goes on as a
/// URL of that scheme must.
fn tail_conforms(bytes: &[u8], start: usize, relays: bool) -> (ok: bool)
    requires
        start <= bytes@.len(),
    ensures
        ok == exists|host_end: int, port_end: int| #[trigger]
            tail_form(bytes@, start as int, relays, host_end, port_end),
{
    let ghost s = bytes@;
    let n = bytes.len();
    assert forall|h: int, p: int| #[trigger] tail_form(s, start as int, relays, h, p) implies {
        &&& is_host(s, start as int, h)
        &&& host_stops(s, h)
        &&& port_stops(s, p)
        &&& p == h ==> s.len() == h || s[h] == QUESTION_MARK
    } by {
        lemma_tail_form_boundaries(s, start as int, relays, h, p);
    }
    let h = match host_end(bytes, start) {
        Some(h) => h,
        None => {
            return false;
        },
    };
    if h == n {
        assert(tail_form(s, start as int, relays, h as int, h as int));
        true
    } else if bytes[h] == COLON {
        match port_end(bytes, h + 1) {
            Some(p) => {
                let ok = p == n || (relays && transport_query_at(bytes, p));
                if ok {
                    assert(tail_form(s, start as int, relays, h as int, p as int));
                }
                ok
            },
            None => false,
        }
    } else if bytes[h] == QUESTION_MARK {
        let ok = relays && transport_query_at(bytes, h);
        if ok {
            assert(tail_form(s, start as int, relays, h as int, h as int));
        }
        ok
    } else {
        false
    }
}

/// Whether `bytes` is a well-formed URL of the given scheme.
fn conforms_to(bytes: &[u8], scheme: IceScheme) -> (ok: bool)
    ensures
        ok == conforms(bytes@, scheme),
{
    let (start, found) = scheme.leads(bytes);
    found && tail_conforms(bytes, start, scheme.relays())
}

/// Tells a well-formed ICE server URL from a malformed one, and names its
/// scheme.
pub fn classify(bytes: &[u8]) -> (scheme: Option<IceScheme>)
    ensures
        scheme == spec_classify(bytes@),
{
    if conforms_to(bytes, IceScheme::Stun) {
        Some(IceScheme::Stun)
    } else if conforms_to(bytes, IceScheme::Stuns) {
        Some(IceScheme::Stuns)
    } else if conforms_to(bytes, IceScheme::Turn) {
        Some(IceScheme::Turn)
    } else if conforms_to(bytes, IceScheme::Turns) {
        Some(IceScheme::Turns)
    } else {
        None
    }
}

} // verus!
