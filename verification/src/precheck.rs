//! Endpoint URL pre-check: strict parsing of `opc.tcp://host[:port][/path]`
//! into host and port before a connection is attempted.

use vstd::prelude::*;
use crate::diagnostics::{spec_has_scheme, spec_parse, spec_url};
use crate::text::{
    spec_parse_u16, parse_u16, first_at, lemma_first_at, lemma_first_at_is, last_at,
    lemma_last_at, lemma_last_at_is, find_first, find_last, starts_with_chars, spec_dec,
    is_digit_char, lemma_parse_dec_roundtrip, spec_trim,
};

verus! {

/// What strict URL parsing yields: host and port on success (port 4840
/// when none is written), otherwise the error text.
pub open spec fn spec_endpoint_parse(u: Seq<char>) -> Result<(Seq<char>, u16), Seq<char>> {
    if !spec_has_scheme(u) {
        Err("URL must start with opc.tcp://"@)
    } else {
        let rest = u.subrange("opc.tcp://"@.len() as int, u.len() as int);
        let hp = rest.subrange(0, first_at(rest, '/'));
        let la = last_at(hp, ':');
        if la >= 0 {
            let ps = hp.subrange(la + 1, hp.len() as int);
            match spec_parse_u16(ps) {
                Some(p) => Ok((hp.subrange(0, la), p)),
                None => Err("Invalid port: "@ + ps),
            }
        } else {
            if hp.len() == 0 {
                Err("Host cannot be empty"@)
            } else {
                Ok((hp, 4840u16))
            }
        }
    }
}

/// Parse an endpoint URL into host and port.
///
/// Accepts `opc.tcp://host`, `opc.tcp://host:port`, and the same with a
/// trailing path; the port defaults to 4840.
pub fn parse_endpoint_url(url: &str) -> (r: Result<(String, u16), String>)
    ensures
        ({
            let sr = spec_endpoint_parse(url@);
            match r {
                Ok(hp) => sr is Ok && hp.0@ == sr->Ok_0.0 && hp.1 == sr->Ok_0.1,
                Err(e) => sr is Err && e@ == sr->Err_0,
            }
        }),
{
    let with_scheme = starts_with_chars(url, "opc.tcp://");
    if !with_scheme {
        return Err("URL must start with opc.tcp://".to_owned());
    }
    let n = url.unicode_len();
    let scheme_len = "opc.tcp://".unicode_len();
    let rest = url.substring_char(scheme_len, n);
    proof {
        lemma_first_at(rest@, '/');
    }
    let slash = find_first(rest, '/');
    let hp = rest.substring_char(0, slash);
    let m = hp.unicode_len();
    proof {
        lemma_last_at(hp@, ':');
    }
    match find_last(hp, ':') {
        Some(la) => {
            let ps = hp.substring_char(la + 1, m);
            match parse_u16(ps) {
                Some(p) => Ok((hp.substring_char(0, la).to_owned(), p)),
                None => {
                    let mut msg = "Invalid port: ".to_owned();
                    msg.append(ps);
                    Err(msg)
                },
            }
        },
        None => {
            if m == 0 {
                Err("Host cannot be empty".to_owned())
            } else {
                Ok((hp.to_owned(), 4840))
            }
        },
    }
}

/// A host accepted by the free-form parser, put back into a URL with any
/// port, parses strictly to that same host and port: the free-form parse
/// and `to_url` together always reproduce a well-formed address.
pub proof fn lemma_parse_to_url_roundtrip(s: Seq<char>, port: u16)
    requires
        ({
            let (host, p, had, errs) = spec_parse(s);
            errs.len() == 0 && host.len() > 0
        }),
    ensures
        ({
            let (host, p, had, errs) = spec_parse(s);
            spec_endpoint_parse(spec_url(host, port as int)) == Ok::<(Seq<char>, u16), Seq<
                char,
            >>((host, port))
        }),
{
    let (host, p, had, errs) = spec_parse(s);

    // The host comes out of the host:port part of the input, which ends at
    // the first '/', so the host itself holds no '/'.
    let t = spec_trim(s);
    let rest0 = crate::diagnostics::spec_rest(t);
    lemma_first_at(rest0, '/');
    let hp = crate::diagnostics::spec_host_port(t);
    assert(forall|j: int| 0 <= j < hp.len() ==> hp[j] != '/');

    lemma_first_at(hp, ']');
    lemma_last_at(hp, ':');
    assert forall|j: int| 0 <= j < host.len() implies host[j] != '/' by {
        if hp.len() > 0 && hp[0] == '[' {
            let be = first_at(hp, ']');
            assert(be < hp.len());
            assert(host == hp.subrange(0, be + 1));
            assert(host[j] == hp[j]);
        } else {
            let la = last_at(hp, ':');
            if la >= 0 && spec_parse_u16(hp.subrange(la + 1, hp.len() as int)) is Some {
                assert(host == hp.subrange(0, la));
                assert(host[j] == hp[j]);
            } else {
                assert(host == hp);
            }
        }
    }
    lemma_url_reparse(host, port);
}

/// Any non-empty host without a '/' character, rendered as a URL with a
/// port, parses strictly back to that host and port.
proof fn lemma_url_reparse(host: Seq<char>, port: u16)
    requires
        host.len() > 0,
        forall|j: int| 0 <= j < host.len() ==> host[j] != '/',
    ensures
        spec_endpoint_parse(spec_url(host, port as int)) == Ok::<(Seq<char>, u16), Seq<
            char,
        >>((host, port)),
{
    reveal_strlit("opc.tcp://");
    reveal_strlit(":");
    let sch = "opc.tcp://"@;
    let url = spec_url(host, port as int);
    lemma_parse_dec_roundtrip(port as int);
    crate::text::lemma_dec_roundtrip(port as int);
    let digits = spec_dec(port as int);

    // The scheme is at the front of the rebuilt URL.
    assert(url.subrange(0, sch.len() as int) =~= sch);
    assert(spec_has_scheme(url));
    let rest = url.subrange(sch.len() as int, url.len() as int);
    assert(rest =~= host + ":"@ + digits);

    // Nothing after the scheme is a '/', so the host:port part is all of it.
    assert forall|j: int| 0 <= j < rest.len() implies rest[j] != '/' by {
        if j < host.len() {
            assert(rest[j] == host[j]);
        } else if j == host.len() {
            assert(rest[j] == ':');
        } else {
            assert(rest[j] == digits[j - host.len() - 1]);
            assert(is_digit_char(digits[j - host.len() - 1]));
        }
    }
    lemma_first_at_is(rest, '/', rest.len() as int);
    let hp2 = rest.subrange(0, first_at(rest, '/'));
    assert(hp2 =~= rest);

    // The appended ':' is the last colon, since digits hold none.
    assert(rest[host.len() as int] == ':');
    assert forall|j: int| host.len() < j < rest.len() implies rest[j] != ':' by {
        assert(rest[j] == digits[j - host.len() - 1]);
        assert(is_digit_char(digits[j - host.len() - 1]));
    }
    lemma_last_at_is(rest, ':', host.len() as int);

    let ps = hp2.subrange(host.len() as int + 1, hp2.len() as int);
    assert(ps =~= digits);
    assert(spec_parse_u16(ps) == Some(port));
    assert(hp2.subrange(0, host.len() as int) =~= host);
}

} // verus!
