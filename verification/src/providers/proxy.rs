//! Reaching the Discord Gateway through an HTTP CONNECT proxy: choosing the
//! proxy, reading its address, phrasing the CONNECT request and judging the
//! proxy's answer.
use vstd::prelude::*;

use crate::text::{
    chars_of, owned, parse_u16, push_decimal, push_str, spec_decimal, spec_parse_unsigned,
    string_from_chars,
};

verus! {

/// The first of the proxy settings that is set, in the order
/// `HTTPS_PROXY`, `https_proxy`, `HTTP_PROXY`, `http_proxy`.
pub fn select_proxy(
    https_upper: Option<String>,
    https_lower: Option<String>,
    http_upper: Option<String>,
    http_lower: Option<String>,
) -> (r: Option<String>)
    ensures
        r == (if https_upper is Some {
            https_upper
        } else if https_lower is Some {
            https_lower
        } else if http_upper is Some {
            http_upper
        } else {
            http_lower
        }),
{
    if https_upper.is_some() {
        https_upper
    } else if https_lower.is_some() {
        https_lower
    } else if http_upper.is_some() {
        http_upper
    } else {
        http_lower
    }
}

/// `s` without the prefix `p`, if it starts with it.
pub open spec fn spec_strip_prefix(s: Seq<char>, p: Seq<char>) -> Option<Seq<char>> {
    if p.len() <= s.len() && s.take(p.len() as int) == p {
        Some(s.skip(p.len() as int))
    } else {
        None
    }
}

/// `s` without its trailing slashes.
pub open spec fn spec_trim_end_slashes(s: Seq<char>) -> Seq<char>
    decreases s.len(),
{
    if s.len() > 0 && s.last() == '/' {
        spec_trim_end_slashes(s.drop_last())
    } else {
        s
    }
}

/// The index of the last `c` in `s`, -1 when there is none.
pub open spec fn spec_last_index(s: Seq<char>, c: char) -> int
    decreases s.len(),
{
    if s.len() == 0 {
        -1
    } else if s.last() == c {
        s.len() - 1
    } else {
        spec_last_index(s.drop_last(), c)
    }
}

/// The index of the first `c` in `s`, -1 when there is none.
pub open spec fn spec_first_index(s: Seq<char>, c: char) -> int
    decreases s.len(),
{
    if s.len() == 0 {
        -1
    } else if s[0] == c {
        0
    } else {
        let k = spec_first_index(s.drop_first(), c);
        if k < 0 {
            -1
        } else {
            k + 1
        }
    }
}

/// The `host[:port]` part of a proxy URL: without an `http://` (or
/// `HTTP://`) scheme, trailing slashes, user info before the last `@`, and
/// any path from the first `/`.
pub open spec fn spec_proxy_authority(url: Seq<char>) -> Seq<char> {
    let r1 = match spec_strip_prefix(url, "http://"@) {
        Some(r) => r,
        None => match spec_strip_prefix(url, "HTTP://"@) {
            Some(r) => r,
            None => url,
        },
    };
    let r2 = spec_trim_end_slashes(r1);
    let at = spec_last_index(r2, '@');
    let r3 = if at < 0 {
        r2
    } else {
        r2.skip(at + 1)
    };
    let slash = spec_first_index(r3, '/');
    if slash < 0 {
        r3
    } else {
        r3.take(slash)
    }
}

/// The host and port a proxy URL names: the authority split at its last
/// `:`, the port read as a `u16`, and port 80 when there is no `:` or the
/// port does not read.
pub open spec fn spec_proxy_target(url: Seq<char>) -> (Seq<char>, u16) {
    let a = spec_proxy_authority(url);
    let colon = spec_last_index(a, ':');
    if colon < 0 {
        (a, 80)
    } else {
        (
            a.take(colon),
            match spec_parse_unsigned(a.skip(colon + 1), u16::MAX as int) {
                Some(p) => p as u16,
                None => 80,
            },
        )
    }
}

/// The characters `v[lo..hi]`.
fn sub_chars(v: &Vec<char>, lo: usize, hi: usize) -> (r: Vec<char>)
    requires
        lo <= hi <= v.len(),
    ensures
        r@ == v@.subrange(lo as int, hi as int),
{
    let mut r: Vec<char> = Vec::new();
    let mut i = lo;
    while i < hi
        invariant
            lo <= i <= hi <= v.len(),
            r@ == v@.subrange(lo as int, i as int),
        decreases hi - i,
    {
        r.push(v[i]);
        proof {
            assert(v@.subrange(lo as int, i + 1) =~= v@.subrange(lo as int, i as int).push(
                v@[i as int],
            ));
        }
        i = i + 1;
    }
    r
}

/// Whether `v` starts with `p`.
fn starts_with(v: &Vec<char>, p: &str) -> (r: bool)
    ensures
        r == (p@.len() <= v@.len() && v@.take(p@.len() as int) == p@),
{
    let pv = chars_of(p);
    if pv.len() > v.len() {
        return false;
    }
    let mut i: usize = 0;
    while i < pv.len()
        invariant
            pv@ == p@,
            pv.len() <= v.len(),
            i <= pv.len(),
            forall|j: int| 0 <= j < i ==> v@[j] == pv@[j],
        decreases pv.len() - i,
    {
        if v[i] != pv[i] {
            proof {
                assert(v@.take(pv.len() as int)[i as int] != pv@[i as int]);
            }
            return false;
        }
        i = i + 1;
    }
    proof {
        assert(v@.take(pv.len() as int) =~= pv@);
    }
    true
}

/// The index of the last `c` in `v`.
fn last_index(v: &Vec<char>, c: char) -> (r: Option<usize>)
    ensures
        match r {
            Some(k) => k < v.len() && spec_last_index(v@, c) == k as int,
            None => spec_last_index(v@, c) == -1,
        },
{
    let mut i = v.len();
    proof {
        assert(v@.take(v.len() as int) =~= v@);
    }
    while i > 0
        invariant
            i <= v.len(),
            spec_last_index(v@, c) == spec_last_index(v@.take(i as int), c),
        decreases i,
    {
        proof {
            assert(v@.take(i as int).drop_last() =~= v@.take(i - 1));
        }
        if v[i - 1] == c {
            return Some(i - 1);
        }
        i = i - 1;
    }
    None
}

/// The first `c` in `s` is at index `i` when no `c` comes before `i`.
proof fn lemma_first_index(s: Seq<char>, c: char, i: int)
    requires
        0 <= i <= s.len(),
        forall|j: int| 0 <= j < i ==> s[j] != c,
        i == s.len() || s[i] == c,
    ensures
        spec_first_index(s, c) == (if i == s.len() {
            -1
        } else {
            i
        }),
    decreases s.len(),
{
    if s.len() > 0 && i > 0 {
        lemma_first_index(s.drop_first(), c, i - 1);
    }
}

/// The index of the first `c` in `v`.
fn first_index(v: &Vec<char>, c: char) -> (r: Option<usize>)
    ensures
        match r {
            Some(k) => k < v.len() && spec_first_index(v@, c) == k as int,
            None => spec_first_index(v@, c) == -1,
        },
{
    let mut i: usize = 0;
    while i < v.len()
        invariant
            i <= v.len(),
            forall|j: int| 0 <= j < i ==> v@[j] != c,
        decreases v.len() - i,
    {
        if v[i] == c {
            proof {
                lemma_first_index(v@, c, i as int);
            }
            return Some(i);
        }
        i = i + 1;
    }
    proof {
        lemma_first_index(v@, c, i as int);
    }
    None
}

/// `v` without its trailing slashes.
fn trim_end_slashes(v: &Vec<char>) -> (r: Vec<char>)
    ensures
        r@ == spec_trim_end_slashes(v@),
{
    let mut e = v.len();
    proof {
        assert(v@.take(v.len() as int) =~= v@);
    }
    while e > 0 && v[e - 1] == '/'
        invariant
            e <= v.len(),
            spec_trim_end_slashes(v@) == spec_trim_end_slashes(v@.take(e as int)),
        decreases e,
    {
        proof {
            assert(v@.take(e as int).drop_last() =~= v@.take(e - 1));
        }
        e = e - 1;
    }
    proof {
        assert(v@.subrange(0, e as int) =~= v@.take(e as int));
    }
    sub_chars(v, 0, e)
}

/// The host and port named by a proxy URL such as `http://user@host:3128/`;
/// port 80 when none is given or it does not read as a port.
pub fn parse_proxy_url(proxy_url: &str) -> (r: (String, u16))
    ensures
        (r.0@, r.1) == spec_proxy_target(proxy_url@),
{
    let url = chars_of(proxy_url);
    let r1 = if starts_with(&url, "http://") {
        proof {
            reveal_strlit("http://");
        }
        sub_chars(&url, 7, url.len())
    } else if starts_with(&url, "HTTP://") {
        proof {
            reveal_strlit("HTTP://");
        }
        sub_chars(&url, 7, url.len())
    } else {
        sub_chars(&url, 0, url.len())
    };
    proof {
        reveal_strlit("http://");
        reveal_strlit("HTTP://");
        assert(url@.subrange(7, url@.len() as int) =~= url@.skip(7));
        assert(url@.subrange(0, url@.len() as int) =~= url@);
    }
    let r2 = trim_end_slashes(&r1);
    let r3 = match last_index(&r2, '@') {
        Some(k) => sub_chars(&r2, k + 1, r2.len()),
        None => sub_chars(&r2, 0, r2.len()),
    };
    proof {
        assert(r2@.subrange(0, r2@.len() as int) =~= r2@);
        let at = spec_last_index(r2@, '@');
        if at >= 0 {
            assert(r2@.subrange(at + 1, r2@.len() as int) =~= r2@.skip(at + 1));
        }
    }
    let r4 = match first_index(&r3, '/') {
        Some(k) => sub_chars(&r3, 0, k),
        None => sub_chars(&r3, 0, r3.len()),
    };
    proof {
        assert(r3@.subrange(0, r3@.len() as int) =~= r3@);
        let slash = spec_first_index(r3@, '/');
        if slash >= 0 {
            assert(r3@.subrange(0, slash) =~= r3@.take(slash));
        }
        assert(r4@ == spec_proxy_authority(proxy_url@));
    }
    match last_index(&r4, ':') {
        Some(k) => {
            let host = string_from_chars(&r4, 0, k);
            let port_text = string_from_chars(&r4, k + 1, r4.len());
            let port = match parse_u16(port_text.as_str()) {
                Some(p) => p,
                None => 80,
            };
            proof {
                assert(r4@.subrange(0, k as int) =~= r4@.take(k as int));
                assert(r4@.subrange(k + 1, r4@.len() as int) =~= r4@.skip(k + 1));
            }
            (host, port)
        },
        None => {
            let host = string_from_chars(&r4, 0, r4.len());
            proof {
                assert(r4@.subrange(0, r4@.len() as int) =~= r4@);
            }
            (host, 80)
        },
    }
}

/// The CONNECT request that opens a tunnel to `host:port`.
pub open spec fn spec_connect_request(host: Seq<char>, port: u16) -> Seq<char> {
    "CONNECT "@ + host + ":"@ + spec_decimal(port as nat) + " HTTP/1.1\r\nHost: "@ + host + ":"@
        + spec_decimal(port as nat) + "\r\n\r\n"@
}

/// The CONNECT request that opens a tunnel to `host:port`.
pub fn connect_request(host: &str, port: u16) -> (r: String)
    ensures
        r@ == spec_connect_request(host@, port),
{
    let mut r = owned("CONNECT ");
    push_str(&mut r, host);
    push_str(&mut r, ":");
    push_decimal(&mut r, port as u64);
    push_str(&mut r, " HTTP/1.1\r\nHost: ");
    push_str(&mut r, host);
    push_str(&mut r, ":");
    push_decimal(&mut r, port as u64);
    push_str(&mut r, "\r\n\r\n");
    r
}

/// The proxy's answer to CONNECT, as far as it has been read.
pub enum ConnectReply {
    /// The header block has not ended yet.
    Incomplete,
    /// The headers ended and the status line carries ` 200`.
    Established,
    /// The headers ended with another status; the status line, as bytes.
    Refused(Vec<u8>),
}

/// Whether `d` holds the end of a header block, `\r\n\r\n`.
pub open spec fn spec_has_header_end(d: Seq<u8>) -> bool {
    spec_contains_bytes(d, seq![13u8, 10u8, 13u8, 10u8])
}

/// Whether `n` occurs in `h`.
pub open spec fn spec_contains_bytes(h: Seq<u8>, n: Seq<u8>) -> bool {
    exists|i: int| 0 <= i && i + n.len() <= h.len() && #[trigger] h.subrange(i, i + n.len()) == n
}

/// The index of the first line feed in `d`, `d.len()` when there is none.
pub open spec fn spec_line_end(d: Seq<u8>) -> int
    decreases d.len(),
{
    if d.len() == 0 {
        0
    } else if d[0] == 10u8 {
        0
    } else {
        spec_line_end(d.drop_first()) + 1
    }
}

/// The first line of `d`, without its line ending.
pub open spec fn spec_first_line(d: Seq<u8>) -> Seq<u8> {
    let line = d.take(spec_line_end(d));
    if line.len() > 0 && line.last() == 13u8 {
        line.drop_last()
    } else {
        line
    }
}

/// The first line feed in `s` is at `i` when none comes before it.
proof fn lemma_line_end(s: Seq<u8>, i: int)
    requires
        0 <= i <= s.len(),
        forall|j: int| 0 <= j < i ==> s[j] != 10u8,
        i == s.len() || s[i] == 10u8,
    ensures
        spec_line_end(s) == i,
    decreases s.len(),
{
    if s.len() > 0 && i > 0 {
        lemma_line_end(s.drop_first(), i - 1);
    }
}

/// Whether `needle` occurs in `hay[0..len]`.
fn contains_bytes(hay: &[u8], len: usize, needle: &[u8]) -> (r: bool)
    requires
        len <= hay@.len(),
    ensures
        r == spec_contains_bytes(hay@.take(len as int), needle@),
{
    let ghost h = hay@.take(len as int);
    if needle.len() > len {
        proof {
            assert forall|i: int| 0 <= i && i + needle@.len() <= h.len() implies #[trigger] h.subrange(
                i,
                i + needle@.len(),
            ) != needle@ by {}
        }
        return false;
    }
    let last = len - needle.len();
    let mut i: usize = 0;
    loop
        invariant
            needle.len() <= len <= hay@.len(),
            last == len - needle.len(),
            h == hay@.take(len as int),
            i <= last,
            forall|k: int| 0 <= k < i ==> #[trigger] h.subrange(k, k + needle@.len()) != needle@,
        decreases last - i,
    {
        let mut j: usize = 0;
        let mut same = true;
        while j < needle.len()
            invariant
                needle.len() <= len <= hay@.len(),
                i + needle.len() <= len,
                j <= needle.len(),
                same ==> forall|m: int| 0 <= m < j ==> hay@[i + m] == needle@[m],
                !same ==> h.subrange(i as int, i + needle@.len()) != needle@,
                h == hay@.take(len as int),
            decreases needle.len() - j,
        {
            if hay[i + j] != needle[j] {
                proof {
                    assert(h.subrange(i as int, i + needle@.len())[j as int] == hay@[i + j]);
                }
                same = false;
            }
            j = j + 1;
        }
        if same {
            proof {
                assert(h.subrange(i as int, i + needle@.len()) =~= needle@);
            }
            return true;
        }
        if i == last {
            return false;
        }
        i = i + 1;
    }
}

/// Judges the bytes `data[0..len]` that the proxy has sent so far.
pub fn scan_connect_reply(data: &[u8], len: usize) -> (r: ConnectReply)
    requires
        len <= data@.len(),
    ensures
        match r {
            ConnectReply::Incomplete => !spec_has_header_end(data@.take(len as int)),
            ConnectReply::Established => spec_has_header_end(data@.take(len as int))
                && spec_contains_bytes(
                spec_first_line(data@.take(len as int)),
                seq![32u8, 50u8, 48u8, 48u8],
            ),
            ConnectReply::Refused(line) => spec_has_header_end(data@.take(len as int))
                && !spec_contains_bytes(
                spec_first_line(data@.take(len as int)),
                seq![32u8, 50u8, 48u8, 48u8],
            ) && line@ == spec_first_line(data@.take(len as int)),
        },
{
    let ghost d = data@.take(len as int);
    let crlf2: [u8; 4] = [13u8, 10u8, 13u8, 10u8];
    proof {
        assert(crlf2@ =~= seq![13u8, 10u8, 13u8, 10u8]);
    }
    if !contains_bytes(data, len, &crlf2) {
        return ConnectReply::Incomplete;
    }
    let mut e: usize = 0;
    while e < len && data[e] != 10u8
        invariant
            e <= len <= data@.len(),
            d == data@.take(len as int),
            forall|j: int| 0 <= j < e ==> d[j] != 10u8,
        decreases len - e,
    {
        e = e + 1;
    }
    proof {
        lemma_line_end(d, e as int);
    }
    let line_len: usize = if e > 0 && data[e - 1] == 13u8 {
        e - 1
    } else {
        e
    };
    let mut line: Vec<u8> = Vec::new();
    let mut k: usize = 0;
    while k < line_len
        invariant
            line_len <= e <= len <= data@.len(),
            d == data@.take(len as int),
            line@ == d.take(k as int),
            k <= line_len,
        decreases line_len - k,
    {
        line.push(data[k]);
        proof {
            assert(d.take(k + 1) =~= d.take(k as int).push(d[k as int]));
        }
        k = k + 1;
    }
    proof {
        let full = d.take(e as int);
        if e > 0 && d[e - 1] == 13u8 {
            assert(full.drop_last() =~= d.take(line_len as int));
        } else {
            assert(full =~= d.take(line_len as int));
        }
        assert(line@ == spec_first_line(d));
    }
    let status: [u8; 4] = [32u8, 50u8, 48u8, 48u8];
    proof {
        assert(status@ =~= seq![32u8, 50u8, 48u8, 48u8]);
        assert(line@.take(line@.len() as int) =~= line@);
    }
    if contains_bytes(line.as_slice(), line.len(), &status) {
        ConnectReply::Established
    } else {
        ConnectReply::Refused(line)
    }
}

} // verus!
