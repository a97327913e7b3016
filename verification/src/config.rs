//! Service configuration: bind host, bind port and debug flag, each read
//! from an optional textual setting with a default when absent and a
//! startup-fatal error when present but malformed.
//!
//! The parsers accept exactly what the standard library's `FromStr`
//! accepts for the corresponding types: a port is an optional `'+'`
//! followed by decimal digits with value at most 65535; a debug flag is
//! literally `"true"` or `"false"`; a host is four dot-separated decimal
//! octets, each at most 255 and without leading zeros.
use vstd::prelude::*;

verus! {

/// Default bind port when the setting is absent.
pub const DEFAULT_PORT: u16 = 5000;

/// Whether a character is a decimal digit.
pub open spec fn spec_is_digit(c: char) -> bool {
    48 <= c as u32 <= 57
}

/// The numeric value of a decimal digit character.
pub open spec fn spec_digit_val(c: char) -> int {
    c as u32 - 48
}

/// The numeric value of a sequence of decimal digit characters, most
/// significant first.
pub open spec fn spec_dec_value(s: Seq<char>) -> int
    decreases s.len(),
{
    if s.len() == 0 {
        0
    } else {
        spec_dec_value(s.drop_last()) * 10 + spec_digit_val(s.last())
    }
}

/// Whether every character of the sequence is a decimal digit.
pub open spec fn spec_all_digits(s: Seq<char>) -> bool {
    forall|i: int| 0 <= i < s.len() ==> spec_is_digit(#[trigger] s[i])
}

proof fn lemma_dec_value_nonneg(s: Seq<char>)
    requires
        spec_all_digits(s),
    ensures
        spec_dec_value(s) >= 0,
    decreases s.len(),
{
    if s.len() > 0 {
        assert(spec_all_digits(s.drop_last()));
        lemma_dec_value_nonneg(s.drop_last());
    }
}

/// A digit prefix never exceeds the value of the whole digit string.
proof fn lemma_dec_value_prefix_le(s: Seq<char>, i: int)
    requires
        spec_all_digits(s),
        0 <= i <= s.len(),
    ensures
        spec_dec_value(s.subrange(0, i)) <= spec_dec_value(s),
    decreases s.len() - i,
{
    if i == s.len() {
        assert(s.subrange(0, i) =~= s);
    } else {
        let t = s.subrange(0, s.len() as int - 1);
        assert(t =~= s.drop_last());
        assert(spec_all_digits(t));
        assert(s.subrange(0, i) =~= t.subrange(0, i));
        lemma_dec_value_prefix_le(t, i);
        lemma_dec_value_nonneg(t);
        assert(spec_dec_value(s) == spec_dec_value(t) * 10 + spec_digit_val(s.last()));
        assert(spec_dec_value(t) * 10 >= spec_dec_value(t));
        assert(spec_digit_val(s.last()) >= 0);
    }
}

/// Character-for-character string comparison.
fn str_eq(a: &str, b: &str) -> (r: bool)
    ensures
        r == (a@ == b@),
{
    let na = a.unicode_len();
    let nb = b.unicode_len();
    if na != nb {
        return false;
    }
    let mut i: usize = 0;
    while i < na
        invariant
            na == a@.len(),
            nb == b@.len(),
            na == nb,
            0 <= i <= na,
            forall|j: int| 0 <= j < i ==> a@[j] == b@[j],
        decreases na - i,
    {
        if a.get_char(i) != b.get_char(i) {
            return false;
        }
        i += 1;
    }
    proof {
        assert(a@ =~= b@);
    }
    true
}

/// Parses a debug flag exactly as the standard boolean grammar does: only
/// the literal words are accepted.
pub fn parse_bool(s: &str) -> (r: Option<bool>)
    ensures
        r == Some(true) <==> s@ == "true"@,
        r == Some(false) <==> s@ == "false"@,
        r is None <==> (s@ != "true"@ && s@ != "false"@),
{
    proof {
        reveal_strlit("true");
        reveal_strlit("false");
        assert("true"@.len() != "false"@.len());
    }
    if str_eq(s, "true") {
        Some(true)
    } else if str_eq(s, "false") {
        Some(false)
    } else {
        None
    }
}

/// The digit part of a port setting: everything after one optional
/// leading `'+'`.
pub open spec fn spec_port_digits(s: Seq<char>) -> Seq<char> {
    if s.len() > 0 && s[0] == '+' {
        s.subrange(1, s.len() as int)
    } else {
        s
    }
}

/// A valid port setting: at least one digit after the optional sign, all
/// digits, value at most 65535.
pub open spec fn spec_valid_port_str(s: Seq<char>) -> bool {
    let d = spec_port_digits(s);
    d.len() > 0 && spec_all_digits(d) && spec_dec_value(d) <= 65535
}

/// Parses a port setting; returns the port exactly when the setting is
/// valid.
pub fn parse_port(s: &str) -> (r: Option<u16>)
    ensures
        r is Some <==> spec_valid_port_str(s@),
        r is Some ==> r->0 == spec_dec_value(spec_port_digits(s@)),
{
    let n = s.unicode_len();
    let ghost d = spec_port_digits(s@);
    let start: usize = if n > 0 && s.get_char(0) == '+' {
        1
    } else {
        0
    };
    proof {
        assert(d =~= s@.subrange(start as int, n as int));
    }
    if start >= n {
        return None;
    }
    let mut i: usize = start;
    let mut acc: u32 = 0;
    while i < n
        invariant
            n == s@.len(),
            start <= i <= n,
            d == spec_port_digits(s@),
            d == s@.subrange(start as int, n as int),
            spec_all_digits(s@.subrange(start as int, i as int)),
            acc == spec_dec_value(s@.subrange(start as int, i as int)),
            acc <= 65535,
        decreases n - i,
    {
        let c = s.get_char(i);
        let v = c as u32;
        if v < 48 || v > 57 {
            proof {
                assert(d[i - start] == s@[i as int]);
                assert(!spec_is_digit(d[i - start]));
            }
            return None;
        }
        let dv = v - 48;
        let new_acc = acc * 10 + dv;
        proof {
            let pre = s@.subrange(start as int, i as int);
            let ext = s@.subrange(start as int, i as int + 1);
            assert(ext.drop_last() =~= pre);
            assert(ext.last() == s@[i as int]);
            assert(spec_dec_value(ext) == new_acc);
            assert(spec_all_digits(ext));
        }
        if new_acc > 65535 {
            proof {
                if spec_valid_port_str(s@) {
                    let ext = s@.subrange(start as int, i as int + 1);
                    assert(ext =~= d.subrange(0, i - start + 1));
                    lemma_dec_value_prefix_le(d, i - start + 1);
                }
            }
            return None;
        }
        acc = new_acc;
        i += 1;
    }
    proof {
        assert(s@.subrange(start as int, n as int) =~= d);
    }
    Some(acc as u16)
}

/// A bind host: four IPv4 octets.
#[derive(Clone, Copy, Debug, PartialEq, Eq, Structural)]
pub struct HostAddr {
    pub o1: u8,
    pub o2: u8,
    pub o3: u8,
    pub o4: u8,
}

/// The all-interfaces host, the default when no host is configured.
pub open spec fn spec_unspecified_host() -> HostAddr {
    HostAddr { o1: 0, o2: 0, o3: 0, o4: 0 }
}

/// Builds the all-interfaces host.
pub fn unspecified_host() -> (r: HostAddr)
    ensures
        r == spec_unspecified_host(),
{
    HostAddr { o1: 0, o2: 0, o3: 0, o4: 0 }
}

/// A valid textual IPv4 octet: one or more decimal digits, value at most
/// 255, and no leading zero unless the octet is exactly "0".
pub open spec fn spec_valid_octet(s: Seq<char>) -> bool {
    &&& s.len() > 0
    &&& spec_all_digits(s)
    &&& spec_dec_value(s) <= 255
    &&& (s.len() > 1 ==> s[0] != '0')
}

/// Whether the dots at positions `p1 < p2 < p3` split `s` into four valid
/// octets.
pub open spec fn spec_ipv4_split(s: Seq<char>, p1: int, p2: int, p3: int) -> bool {
    &&& 0 <= p1 < p2 < p3 < s.len()
    &&& s[p1] == '.'
    &&& s[p2] == '.'
    &&& s[p3] == '.'
    &&& spec_valid_octet(s.subrange(0, p1))
    &&& spec_valid_octet(s.subrange(p1 + 1, p2))
    &&& spec_valid_octet(s.subrange(p2 + 1, p3))
    &&& spec_valid_octet(s.subrange(p3 + 1, s.len() as int))
}

/// A valid textual IPv4 address: some triple of dots splits it into four
/// valid octets. The triple is in fact unique.
pub open spec fn spec_valid_ipv4_str(s: Seq<char>) -> bool {
    exists|p1: int, p2: int, p3: int| spec_ipv4_split(s, p1, p2, p3)
}

/// The host a valid textual IPv4 address denotes.
pub open spec fn spec_ipv4_value(s: Seq<char>) -> HostAddr {
    let (p1, p2, p3) = choose|p1: int, p2: int, p3: int| spec_ipv4_split(s, p1, p2, p3);
    HostAddr {
        o1: spec_dec_value(s.subrange(0, p1)) as u8,
        o2: spec_dec_value(s.subrange(p1 + 1, p2)) as u8,
        o3: spec_dec_value(s.subrange(p2 + 1, p3)) as u8,
        o4: spec_dec_value(s.subrange(p3 + 1, s.len() as int)) as u8,
    }
}

/// In a split address the dots stand exactly at the three split
/// positions: octets consist of digits, and a digit is not a dot.
proof fn lemma_ipv4_split_dots(s: Seq<char>, p1: int, p2: int, p3: int)
    requires
        spec_ipv4_split(s, p1, p2, p3),
    ensures
        forall|q: int|
            0 <= q < s.len() ==> ((s[q] == '.') <==> (q == p1 || q == p2 || q == p3)),
{
    assert forall|q: int|
        0 <= q < s.len() implies ((s[q] == '.') <==> (q == p1 || q == p2 || q == p3)) by {
        if q != p1 && q != p2 && q != p3 {
            if q < p1 {
                assert(s.subrange(0, p1)[q] == s[q]);
                assert(spec_is_digit(s[q]));
            } else if q < p2 {
                assert(s.subrange(p1 + 1, p2)[q - (p1 + 1)] == s[q]);
                assert(spec_is_digit(s[q]));
            } else if q < p3 {
                assert(s.subrange(p2 + 1, p3)[q - (p2 + 1)] == s[q]);
                assert(spec_is_digit(s[q]));
            } else {
                assert(s.subrange(p3 + 1, s.len() as int)[q - (p3 + 1)] == s[q]);
                assert(spec_is_digit(s[q]));
            }
            assert(s[q] != '.');
        }
    }
}

/// Any two dot triples that split the same address are equal, so a valid
/// address denotes exactly one host.
pub proof fn lemma_ipv4_split_unique(
    s: Seq<char>,
    p1: int,
    p2: int,
    p3: int,
    q1: int,
    q2: int,
    q3: int,
)
    requires
        spec_ipv4_split(s, p1, p2, p3),
        spec_ipv4_split(s, q1, q2, q3),
    ensures
        p1 == q1,
        p2 == q2,
        p3 == q3,
{
    lemma_ipv4_split_dots(s, p1, p2, p3);
    lemma_ipv4_split_dots(s, q1, q2, q3);
    assert(s[q1] == '.');
    assert(s[q2] == '.');
    assert(s[q3] == '.');
    assert(s[p1] == '.');
    assert(s[p2] == '.');
    assert(s[p3] == '.');
}

/// Parses one octet of an address, the characters of `s` from `start`
/// (inclusive) to `end` (exclusive).
fn parse_octet(s: &str, start: usize, end: usize) -> (r: Option<u8>)
    requires
        start <= end <= s@.len(),
    ensures
        r is Some <==> spec_valid_octet(s@.subrange(start as int, end as int)),
        r is Some ==> r->0 == spec_dec_value(s@.subrange(start as int, end as int)),
{
    let ghost seg = s@.subrange(start as int, end as int);
    if start == end {
        return None;
    }
    if end - start > 1 && s.get_char(start) == '0' {
        proof {
            assert(seg[0] == s@[start as int]);
        }
        return None;
    }
    let mut i: usize = start;
    let mut acc: u32 = 0;
    while i < end
        invariant
            start <= i <= end <= s@.len(),
            seg == s@.subrange(start as int, end as int),
            spec_all_digits(s@.subrange(start as int, i as int)),
            acc == spec_dec_value(s@.subrange(start as int, i as int)),
            acc <= 255,
        decreases end - i,
    {
        let c = s.get_char(i);
        let v = c as u32;
        if v < 48 || v > 57 {
            proof {
                assert(seg[i - start] == s@[i as int]);
                assert(!spec_is_digit(seg[i - start]));
            }
            return None;
        }
        let dv = v - 48;
        let new_acc = acc * 10 + dv;
        proof {
            let pre = s@.subrange(start as int, i as int);
            let ext = s@.subrange(start as int, i as int + 1);
            assert(ext.drop_last() =~= pre);
            assert(ext.last() == s@[i as int]);
            assert(spec_dec_value(ext) == new_acc);
            assert(spec_all_digits(ext));
        }
        if new_acc > 255 {
            proof {
                if spec_valid_octet(seg) {
                    let ext = s@.subrange(start as int, i as int + 1);
                    assert(ext =~= seg.subrange(0, i - start + 1));
                    lemma_dec_value_prefix_le(seg, i - start + 1);
                }
            }
            return None;
        }
        acc = new_acc;
        i += 1;
    }
    proof {
        assert(s@.subrange(start as int, end as int) =~= seg);
    }
    Some(acc as u8)
}

/// Parses a host setting; returns the host exactly when the setting is a
/// valid textual IPv4 address.
pub fn parse_ipv4(s: &str) -> (r: Option<HostAddr>)
    ensures
        r is Some <==> spec_valid_ipv4_str(s@),
        r is Some ==> r->0 == spec_ipv4_value(s@),
{
    let n = s.unicode_len();
    let mut cnt: usize = 0;
    let mut d1: usize = 0;
    let mut d2: usize = 0;
    let mut d3: usize = 0;
    let mut i: usize = 0;
    while i < n
        invariant
            n == s@.len(),
            0 <= i <= n,
            cnt <= 3,
            cnt >= 1 ==> d1 < i && s@[d1 as int] == '.',
            cnt >= 2 ==> d1 < d2 < i && s@[d2 as int] == '.',
            cnt >= 3 ==> d2 < d3 < i && s@[d3 as int] == '.',
            forall|q: int|
                0 <= q < i && s@[q] == '.' ==> ((cnt >= 1 && q == d1 as int) || (cnt >= 2 && q
                    == d2 as int) || (cnt >= 3 && q == d3 as int)),
        decreases n - i,
    {
        let c = s.get_char(i);
        if c == '.' {
            if cnt == 0 {
                d1 = i;
                cnt = 1;
            } else if cnt == 1 {
                d2 = i;
                cnt = 2;
            } else if cnt == 2 {
                d3 = i;
                cnt = 3;
            } else {
                proof {
                    if spec_valid_ipv4_str(s@) {
                        let (p1, p2, p3) = choose|p1: int, p2: int, p3: int|
                            spec_ipv4_split(s@, p1, p2, p3);
                        lemma_ipv4_split_dots(s@, p1, p2, p3);
                        assert(d1 as int == p1 || d1 as int == p2 || d1 as int == p3);
                        assert(d2 as int == p1 || d2 as int == p2 || d2 as int == p3);
                        assert(d3 as int == p1 || d3 as int == p2 || d3 as int == p3);
                        assert(i as int == p1 || i as int == p2 || i as int == p3);
                        assert(false);
                    }
                }
                return None;
            }
        }
        i += 1;
    }
    if cnt != 3 {
        proof {
            if spec_valid_ipv4_str(s@) {
                let (p1, p2, p3) = choose|p1: int, p2: int, p3: int|
                    spec_ipv4_split(s@, p1, p2, p3);
                lemma_ipv4_split_dots(s@, p1, p2, p3);
                assert(s@[p1] == '.');
                assert(s@[p2] == '.');
                assert(s@[p3] == '.');
                assert(false);
            }
        }
        return None;
    }
    let a = parse_octet(s, 0, d1);
    let b = parse_octet(s, d1 + 1, d2);
    let c = parse_octet(s, d2 + 1, d3);
    let d = parse_octet(s, d3 + 1, n);
    match (a, b, c, d) {
        (Some(x1), Some(x2), Some(x3), Some(x4)) => {
            proof {
                assert(spec_ipv4_split(s@, d1 as int, d2 as int, d3 as int));
                let (p1, p2, p3) = choose|p1: int, p2: int, p3: int|
                    spec_ipv4_split(s@, p1, p2, p3);
                lemma_ipv4_split_unique(s@, d1 as int, d2 as int, d3 as int, p1, p2, p3);
            }
            Some(HostAddr { o1: x1, o2: x2, o3: x3, o4: x4 })
        },
        _ => {
            proof {
                if spec_valid_ipv4_str(s@) {
                    let (p1, p2, p3) = choose|p1: int, p2: int, p3: int|
                        spec_ipv4_split(s@, p1, p2, p3);
                    lemma_ipv4_split_dots(s@, p1, p2, p3);
                    assert(d1 as int == p1 || d1 as int == p2 || d1 as int == p3);
                    assert(d2 as int == p1 || d2 as int == p2 || d2 as int == p3);
                    assert(d3 as int == p1 || d3 as int == p2 || d3 as int == p3);
                    assert(s@[p1] == '.');
                    assert(s@[p2] == '.');
                    assert(s@[p3] == '.');
                    assert(p1 == d1 as int && p2 == d2 as int && p3 == d3 as int);
                    assert(false);
                }
            }
            None
        },
    }
}

/// Why loading the configuration failed; any of these aborts startup.
#[derive(Clone, Copy, Debug, PartialEq, Eq, Structural)]
pub enum ConfigError {
    /// The host setting is present but not a valid IPv4 address.
    InvalidHost,
    /// The port setting is present but not a valid port number.
    InvalidPort,
    /// The debug setting is present but neither "true" nor "false".
    InvalidDebug,
}

/// The service's startup configuration.
#[derive(Clone, Copy, Debug, PartialEq, Eq, Structural)]
pub struct AppConfig {
    pub host: HostAddr,
    pub port: u16,
    pub debug: bool,
}

/// An absent host setting is fine; a present one must be a valid IPv4
/// address.
pub open spec fn spec_host_setting_ok(h: Option<String>) -> bool {
    h matches Some(v) ==> spec_valid_ipv4_str(v@)
}

/// An absent port setting is fine; a present one must be a valid port.
pub open spec fn spec_port_setting_ok(p: Option<String>) -> bool {
    p matches Some(v) ==> spec_valid_port_str(v@)
}

/// An absent debug setting is fine; a present one must be a boolean word.
pub open spec fn spec_debug_setting_ok(d: Option<String>) -> bool {
    d matches Some(v) ==> (v@ == "true"@ || v@ == "false"@)
}

impl AppConfig {
    /// Resolves the configuration from the three optional textual
    /// settings. A setting that is absent falls back to its default:
    /// all-interfaces host, port 5000, debug off. A setting that is
    /// present but malformed is a startup-fatal error, reported for the
    /// first malformed setting in the order host, port, debug.
    pub fn load(host: Option<String>, port: Option<String>, debug: Option<String>) -> (r: Result<
        AppConfig,
        ConfigError,
    >)
        ensures
            r is Ok <==> (spec_host_setting_ok(host) && spec_port_setting_ok(port)
                && spec_debug_setting_ok(debug)),
            r == Err::<AppConfig, ConfigError>(ConfigError::InvalidHost) <==> !spec_host_setting_ok(
                host,
            ),
            r == Err::<AppConfig, ConfigError>(ConfigError::InvalidPort) <==> (
            spec_host_setting_ok(host) && !spec_port_setting_ok(port)),
            r == Err::<AppConfig, ConfigError>(ConfigError::InvalidDebug) <==> (
            spec_host_setting_ok(host) && spec_port_setting_ok(port) && !spec_debug_setting_ok(
                debug,
            )),
            r is Ok ==> r->Ok_0.host == (if host is Some {
                spec_ipv4_value(host->0@)
            } else {
                spec_unspecified_host()
            }),
            r is Ok ==> r->Ok_0.port == (if port is Some {
                spec_dec_value(spec_port_digits(port->0@))
            } else {
                DEFAULT_PORT as int
            }),
            r is Ok ==> r->Ok_0.debug == (debug is Some && debug->0@ == "true"@),
            (host is None && port is None && debug is None) ==> r == Ok::<AppConfig, ConfigError>(
                (AppConfig { host: spec_unspecified_host(), port: DEFAULT_PORT, debug: false }),
            ),
    {
        let h: HostAddr = match &host {
            None => unspecified_host(),
            Some(v) => match parse_ipv4(v.as_str()) {
                Some(x) => x,
                None => {
                    return Err(ConfigError::InvalidHost);
                },
            },
        };
        let p: u16 = match &port {
            None => DEFAULT_PORT,
            Some(v) => match parse_port(v.as_str()) {
                Some(x) => x,
                None => {
                    return Err(ConfigError::InvalidPort);
                },
            },
        };
        let dbg: bool = match &debug {
            None => false,
            Some(v) => match parse_bool(v.as_str()) {
                Some(x) => x,
                None => {
                    return Err(ConfigError::InvalidDebug);
                },
            },
        };
        Ok(AppConfig { host: h, port: p, debug: dbg })
    }
}

} // verus!
