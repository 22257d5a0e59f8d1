//! Network endpoints as people type them and as they appear in other programs' output.

use vstd::prelude::*;
use vstd::slice::slice_subrange;

use crate::text;
use crate::text::{
    add_text, chars_of, has_text, is_white_space, last_of, parse_number, trim_full_stops,
    trim_white_space,
};

verus! {

broadcast use vstd::string::group_string_axioms;

/// `s` denotes a number from 0 to `max`.
pub open spec fn fits(s: Seq<char>, max: nat) -> bool {
    match text::number(s) {
        Some(n) => n <= max,
        None => false,
    }
}

/// A host and a port on either side of the last colon; the host may be anything without
/// white space, even nothing. White space around the whole is ignored.
pub open spec fn plausible_endpoint(s: Seq<char>) -> bool {
    let t = text::trim(s, text::spaces());
    &&& forall|i: int| 0 <= i < t.len() ==> !text::white_space(#[trigger] t[i])
    &&& exists|i: int| #[trigger]
        text::is_last_of(t, ':', i) && fits(t.skip(i + 1), 0xffff)
}

/// Four numbers that fit in a byte, with a full stop between each two.
pub open spec fn ipv4_host(s: Seq<char>) -> bool {
    let parts = text::pieces(s, text::only('.'));
    &&& parts.len() == 4
    &&& forall|i: int| 0 <= i < 4 ==> fits(#[trigger] parts[i], 0xff)
}

/// An IPv4 address and a port other than zero on either side of the last colon.
pub open spec fn ipv4_endpoint(s: Seq<char>) -> bool {
    exists|i: int| #[trigger]
        text::is_last_of(s, ':', i) && fits(s.skip(i + 1), 0xffff)
            && text::number(s.skip(i + 1)) != Some(0nat) && ipv4_host(s.take(i))
}

/// The characters that cannot belong to an endpoint made of numbers.
pub open spec fn breaks() -> spec_fn(char) -> bool {
    |c: char| !(text::is_digit(c) || c == '.' || c == ':')
}

/// The endpoints among some candidates, without the full stops around them. Each appears
/// once, at the place of its first occurrence.
pub open spec fn first_endpoints(candidates: Seq<Seq<char>>) -> Seq<Seq<char>>
    decreases candidates.len(),
{
    if candidates.len() == 0 {
        seq![]
    } else {
        let before = first_endpoints(candidates.drop_last());
        let candidate = text::trim(candidates.last(), text::only('.'));
        if ipv4_endpoint(candidate) && !before.contains(candidate) {
            before.push(candidate)
        } else {
            before
        }
    }
}

/// The IPv4 endpoints that a text mentions, in the order in which they first appear.
pub open spec fn ipv4_endpoints(input: Seq<char>) -> Seq<Seq<char>> {
    first_endpoints(text::pieces(input, breaks()))
}

/// One more character either ends the last piece or belongs to it.
proof fn lemma_pieces_step(
    s: Seq<char>,
    p: spec_fn(char) -> bool,
    done: Seq<Seq<char>>,
    start: int,
    i: int,
)
    requires
        0 <= start <= i < s.len(),
        text::pieces(s.take(i), p) == done.push(s.subrange(start, i)),
    ensures
        p(s[i]) ==> text::pieces(s.take(i + 1), p) == done.push(
            s.subrange(start, i),
        ).push(s.subrange(i + 1, i + 1)),
        !p(s[i]) ==> text::pieces(s.take(i + 1), p) == done.push(s.subrange(start, i + 1)),
{
    assert(s.take(i + 1).drop_last() =~= s.take(i));
    assert(s.take(i + 1).last() == s[i]);
    assert(s.subrange(i + 1, i + 1) =~= Seq::<char>::empty());
    assert(s.subrange(start, i).push(s[i]) =~= s.subrange(start, i + 1));
    assert(done.push(s.subrange(start, i)).drop_last() =~= done);
}

/// Whether the text can be taken for the value that a phone shows as its endpoint.
pub fn is_plausible_endpoint(endpoint: &str) -> (r: bool)
    ensures
        r == plausible_endpoint(endpoint@),
{
    let chars = chars_of(endpoint);
    let s = trim_white_space(chars.as_slice());
    let mut i: usize = 0;
    while i < s.len()
        invariant
            i <= s@.len(),
            s@ == text::trim(endpoint@, text::spaces()),
            forall|j: int| 0 <= j < i ==> !text::white_space(#[trigger] s@[j]),
        decreases s@.len() - i,
    {
        if is_white_space(s[i]) {
            return false;
        }
        i = i + 1;
    }
    match last_of(s, ':') {
        None => false,
        Some(colon) => {
            assert(colon < s.len());
            let port = slice_subrange(s, colon + 1, s.len());
            assert(port@ =~= s@.skip(colon + 1));
            parse_number(port, 0xffff).is_some()
        },
    }
}

/// Whether a text is four numbers that fit in a byte, with full stops between them.
fn is_ipv4_host(s: &[char]) -> (r: bool)
    ensures
        r == ipv4_host(s@),
{
    let mut count: usize = 0;
    let mut good: bool = true;
    let mut start: usize = 0;
    let mut i: usize = 0;
    let ghost p = text::only('.');
    let ghost mut done: Seq<Seq<char>> = seq![];
    assert(s@.take(0) =~= Seq::<char>::empty());
    assert(s@.subrange(0, 0) =~= Seq::<char>::empty());
    while i < s.len()
        invariant
            start <= i <= s@.len(),
            p == text::only('.'),
            text::pieces(s@.take(i as int), p) == done.push(
                s@.subrange(start as int, i as int),
            ),
            count == done.len(),
            count <= i,
            good <==> forall|j: int| 0 <= j < done.len() ==> fits(#[trigger] done[j], 0xff),
        decreases s@.len() - i,
    {
        proof {
            lemma_pieces_step(s@, p, done, start as int, i as int);
        }
        if s[i] == '.' {
            let part = slice_subrange(s, start, i);
            let fit = parse_number(part, 0xff).is_some();
            proof {
                let next = done.push(part@);
                assert(fit == fits(part@, 0xff));
                if good && fit {
                    assert forall|j: int| 0 <= j < next.len() implies fits(
                        #[trigger] next[j],
                        0xff,
                    ) by {
                        if j < done.len() {
                            assert(next[j] == done[j]);
                        }
                    }
                } else if !fit {
                    assert(!fits(next[done.len() as int], 0xff));
                } else {
                    let j = choose|j: int| 0 <= j < done.len() && !fits(#[trigger] done[j], 0xff);
                    assert(next[j] == done[j]);
                }
                done = next;
            }
            good = good && fit;
            count = count + 1;
            start = i + 1;
        }
        i = i + 1;
    }
    let part = slice_subrange(s, start, s.len());
    let fit = parse_number(part, 0xff).is_some();
    proof {
        assert(s@.take(i as int) =~= s@);
        let parts = done.push(part@);
        assert(parts[done.len() as int] == part@);
        assert(forall|j: int| 0 <= j < done.len() ==> parts[j] == done[j]);
    }
    count == 3 && good && fit
}

/// Whether the characters are an IPv4 address and a port other than zero.
fn is_ipv4_endpoint_chars(s: &[char]) -> (r: bool)
    ensures
        r == ipv4_endpoint(s@),
{
    match last_of(s, ':') {
        None => false,
        Some(colon) => {
            assert(colon < s.len());
            let port = slice_subrange(s, colon + 1, s.len());
            let host = slice_subrange(s, 0, colon);
            assert(port@ =~= s@.skip(colon + 1));
            assert(host@ =~= s@.take(colon as int));
            match parse_number(port, 0xffff) {
                None => false,
                Some(n) => n > 0 && is_ipv4_host(host),
            }
        },
    }
}

/// Whether the text is an IPv4 address and a port other than zero.
pub fn is_ipv4_endpoint(endpoint: &str) -> (r: bool)
    ensures
        r == ipv4_endpoint(endpoint@),
{
    let chars = chars_of(endpoint);
    is_ipv4_endpoint_chars(chars.as_slice())
}

/// Adds the endpoint that stands in `chars[from..to]`, if there is one and it is new.
fn add_endpoint(endpoints: &mut Vec<String>, input: &str, chars: &[char], from: usize, to: usize)
    requires
        chars@ == input@,
        from <= to <= chars@.len(),
    ensures
        ({
            let candidate = text::trim(
                input@.subrange(from as int, to as int),
                text::only('.'),
            );
            final(endpoints).deep_view() == if ipv4_endpoint(candidate)
                && !old(endpoints).deep_view().contains(candidate) {
                old(endpoints).deep_view().push(candidate)
            } else {
                old(endpoints).deep_view()
            }
        }),
{
    let (first, last) = trim_full_stops(chars, from, to);
    let candidate = slice_subrange(chars, first, last);
    if !is_ipv4_endpoint_chars(candidate) {
        return ;
    }
    let endpoint = input.substring_char(first, last).to_owned();
    if !has_text(endpoints, &endpoint) {
        add_text(endpoints, endpoint);
    }
}

/// The IPv4 endpoints that the text mentions, each once, in the order of first appearance.
pub fn extract_ipv4_endpoints(input: &str) -> (endpoints: Vec<String>)
    ensures
        endpoints.deep_view() == ipv4_endpoints(input@),
{
    let chars = chars_of(input);
    let s = chars.as_slice();
    let mut endpoints: Vec<String> = Vec::new();
    let mut start: usize = 0;
    let mut i: usize = 0;
    let ghost p = breaks();
    let ghost mut done: Seq<Seq<char>> = seq![];
    assert(s@.take(0) =~= Seq::<char>::empty());
    assert(s@.subrange(0, 0) =~= Seq::<char>::empty());
    assert(endpoints.deep_view() =~= first_endpoints(done));
    while i < s.len()
        invariant
            start <= i <= s@.len(),
            s@ == input@,
            p == breaks(),
            text::pieces(s@.take(i as int), p) == done.push(
                s@.subrange(start as int, i as int),
            ),
            endpoints.deep_view() == first_endpoints(done),
        decreases s@.len() - i,
    {
        proof {
            lemma_pieces_step(s@, p, done, start as int, i as int);
        }
        let c = s[i];
        if !(('0' <= c && c <= '9') || c == '.' || c == ':') {
            add_endpoint(&mut endpoints, input, s, start, i);
            proof {
                let next = done.push(s@.subrange(start as int, i as int));
                assert(next.drop_last() =~= done);
                done = next;
            }
            start = i + 1;
        }
        i = i + 1;
    }
    add_endpoint(&mut endpoints, input, s, start, i);
    proof {
        assert(s@.take(i as int) =~= s@);
        let candidates = done.push(s@.subrange(start as int, i as int));
        assert(candidates.drop_last() =~= done);
    }
    endpoints
}

/// Every endpoint that is found is an IPv4 endpoint, and none is found twice.
pub proof fn law_found_endpoints_are_strict_and_distinct(input: Seq<char>)
    ensures
        ipv4_endpoints(input).no_duplicates(),
        forall|i: int|
            0 <= i < ipv4_endpoints(input).len() ==> ipv4_endpoint(
                #[trigger] ipv4_endpoints(input)[i],
            ),
{
    lemma_first_endpoints(text::pieces(input, breaks()));
}

/// No endpoint is missed: each run of digits, full stops and colons that is one, once the
/// full stops around it are gone, is found.
pub proof fn law_no_endpoint_is_missed(input: Seq<char>, k: int)
    requires
        0 <= k < text::pieces(input, breaks()).len(),
        ipv4_endpoint(text::trim(text::pieces(input, breaks())[k], text::only('.'))),
    ensures
        ipv4_endpoints(input).contains(
            text::trim(text::pieces(input, breaks())[k], text::only('.')),
        ),
{
    lemma_first_endpoints_complete(text::pieces(input, breaks()), k);
}

/// Reading on after a character that cannot belong to an endpoint neither drops nor moves
/// the endpoints found before it.
pub proof fn law_reading_on_keeps_endpoints(read: Seq<char>, c: char, more: Seq<char>)
    requires
        breaks()(c),
    ensures
        ipv4_endpoints(read).is_prefix_of(ipv4_endpoints(read.push(c) + more)),
{
    lemma_pieces_concat(read, c, more, breaks());
    lemma_first_endpoints_prefix(
        text::pieces(read, breaks()),
        text::pieces(more, breaks()),
    );
}

/// An IPv4 endpoint is always plausible.
pub proof fn law_ipv4_endpoint_is_plausible(s: Seq<char>)
    requires
        ipv4_endpoint(s),
    ensures
        plausible_endpoint(s),
{
    let i = choose|i: int| #[trigger]
        text::is_last_of(s, ':', i) && fits(s.skip(i + 1), 0xffff)
            && text::number(s.skip(i + 1)) != Some(0nat) && ipv4_host(s.take(i));
    let host = s.take(i);
    let port = s.skip(i + 1);
    lemma_number_has_no_white_space(port);
    assert forall|j: int| 0 <= j < host.len() implies !text::white_space(#[trigger] host[j]) by {
        if host[j] != '.' {
            lemma_pieces_cover(host, text::only('.'), j);
            let parts = text::pieces(host, text::only('.'));
            let (k, m) = choose|k: int, m: int|
                0 <= k < parts.len() && 0 <= m < parts[k].len() && #[trigger] parts[k][m] == host[j];
            lemma_number_has_no_white_space(parts[k]);
        }
    }
    assert forall|j: int| 0 <= j < s.len() implies !text::white_space(#[trigger] s[j]) by {
        if j < i {
            assert(s[j] == host[j]);
        } else if j > i {
            assert(s[j] == port[j - i - 1]);
        }
    }
    text::lemma_trim_start(s, text::spaces(), 0);
    assert(s.skip(0) =~= s);
    text::lemma_trim_end(s, text::spaces(), s.len() as int);
    assert(s.take(s.len() as int) =~= s);
    assert(text::trim(s, text::spaces()) == s);
    assert(text::is_last_of(s, ':', i) && fits(s.skip(i + 1), 0xffff));
}

/// White space around an endpoint does not matter to whether it is plausible.
pub proof fn law_white_space_around_is_ignored(s: Seq<char>)
    ensures
        plausible_endpoint(s) == plausible_endpoint(text::trim(s, text::spaces())),
{
    text::lemma_trim_twice(s, text::spaces());
}

proof fn lemma_number_has_no_white_space(s: Seq<char>)
    requires
        text::number(s) is Some,
    ensures
        forall|j: int| 0 <= j < s.len() ==> !text::white_space(#[trigger] s[j]),
{
    let digits = text::without_plus(s);
    assert forall|j: int| 0 <= j < s.len() implies !text::white_space(#[trigger] s[j]) by {
        if s[0] == '+' {
            if j > 0 {
                assert(s[j] == digits[j - 1]);
            }
        } else {
            assert(s[j] == digits[j]);
        }
    }
}

/// Every character that does not separate pieces stands in one of them.
proof fn lemma_pieces_cover(s: Seq<char>, p: spec_fn(char) -> bool, j: int)
    requires
        0 <= j < s.len(),
        !p(s[j]),
    ensures
        exists|k: int, m: int|
            0 <= k < text::pieces(s, p).len() && 0 <= m < text::pieces(s, p)[k].len()
                && #[trigger] text::pieces(s, p)[k][m] == s[j],
    decreases s.len(),
{
    lemma_pieces_not_empty(s.drop_last(), p);
    let before = text::pieces(s.drop_last(), p);
    let parts = text::pieces(s, p);
    if j == s.len() - 1 {
        assert(parts[parts.len() - 1][before.last().len() as int] == s[j]);
    } else {
        lemma_pieces_cover(s.drop_last(), p, j);
        let (k, m) = choose|k: int, m: int|
            0 <= k < before.len() && 0 <= m < before[k].len() && #[trigger] before[k][m]
                == s.drop_last()[j];
        assert(parts[k][m] == before[k][m]);
    }
}

proof fn lemma_pieces_not_empty(s: Seq<char>, p: spec_fn(char) -> bool)
    ensures
        text::pieces(s, p).len() > 0,
    decreases s.len(),
{
    if s.len() > 0 {
        lemma_pieces_not_empty(s.drop_last(), p);
    }
}

/// A separator parts the pieces before it from those after it.
proof fn lemma_pieces_concat(a: Seq<char>, c: char, b: Seq<char>, p: spec_fn(char) -> bool)
    requires
        p(c),
    ensures
        text::pieces(a.push(c) + b, p) == text::pieces(a, p) + text::pieces(b, p),
    decreases b.len(),
{
    let whole = a.push(c) + b;
    if b.len() == 0 {
        assert(whole =~= a.push(c));
        assert(a.push(c).drop_last() =~= a);
        assert(text::pieces(a, p) + text::pieces(b, p) =~= text::pieces(a, p).push(
            Seq::<char>::empty(),
        ));
    } else {
        lemma_pieces_concat(a, c, b.drop_last(), p);
        lemma_pieces_not_empty(b.drop_last(), p);
        assert(whole.drop_last() =~= a.push(c) + b.drop_last());
        assert(text::pieces(whole, p) =~= text::pieces(a, p) + text::pieces(b, p));
    }
}

proof fn lemma_first_endpoints(candidates: Seq<Seq<char>>)
    ensures
        first_endpoints(candidates).no_duplicates(),
        forall|i: int|
            0 <= i < first_endpoints(candidates).len() ==> ipv4_endpoint(
                #[trigger] first_endpoints(candidates)[i],
            ),
    decreases candidates.len(),
{
    if candidates.len() > 0 {
        lemma_first_endpoints(candidates.drop_last());
    }
}

proof fn lemma_first_endpoints_complete(candidates: Seq<Seq<char>>, k: int)
    requires
        0 <= k < candidates.len(),
        ipv4_endpoint(text::trim(candidates[k], text::only('.'))),
    ensures
        first_endpoints(candidates).contains(text::trim(candidates[k], text::only('.'))),
    decreases candidates.len(),
{
    let wanted = text::trim(candidates[k], text::only('.'));
    let before = first_endpoints(candidates.drop_last());
    let found = first_endpoints(candidates);
    if k == candidates.len() - 1 {
        if !before.contains(wanted) {
            assert(found.last() == wanted);
        }
    } else {
        lemma_first_endpoints_complete(candidates.drop_last(), k);
        let j = choose|j: int| 0 <= j < before.len() && before[j] == wanted;
        assert(found[j] == wanted);
    }
}

proof fn lemma_first_endpoints_prefix(a: Seq<Seq<char>>, b: Seq<Seq<char>>)
    ensures
        first_endpoints(a).is_prefix_of(first_endpoints(a + b)),
    decreases b.len(),
{
    if b.len() == 0 {
        assert(a + b =~= a);
    } else {
        lemma_first_endpoints_prefix(a, b.drop_last());
        assert((a + b).drop_last() =~= a + b.drop_last());
    }
}

/// Whatever stands before the last colon, what stands behind it decides: an endpoint without white
/// space is plausible exactly if that is a number that fits a port.
pub proof fn law_plausible_means_a_port_behind_the_colon(host: Seq<char>, port: Seq<char>)
    requires
        forall|i: int| 0 <= i < host.len() ==> !text::white_space(#[trigger] host[i]),
        forall|i: int| 0 <= i < port.len() ==> !text::white_space(#[trigger] port[i]),
        !port.contains(':'),
    ensures
        plausible_endpoint(host.push(':') + port) <==> match text::number(port) {
            Some(n) => n <= 65535,
            None => false,
        },
{
    let s = host.push(':') + port;
    let i = host.len() as int;
    assert forall|j: int| 0 <= j < s.len() implies !text::white_space(#[trigger] s[j]) by {
        if j < i {
            assert(s[j] == host[j]);
        } else if j > i {
            assert(s[j] == port[j - i - 1]);
        }
    }
    text::lemma_trim_start(s, text::spaces(), 0);
    assert(s.skip(0) =~= s);
    text::lemma_trim_end(s, text::spaces(), s.len() as int);
    assert(s.take(s.len() as int) =~= s);
    assert(s.skip(i + 1) =~= port);
    assert forall|j: int| i < j < s.len() implies s[j] != ':' by {
        assert(s[j] == port[j - i - 1]);
    }
    assert(text::is_last_of(s, ':', i));
}

/// Without a colon, or with white space inside, nothing is plausible.
pub proof fn law_implausible_without_colon_or_with_white_space(s: Seq<char>)
    requires
        !s.contains(':') || exists|i: int|
            0 <= i < text::trim(s, text::spaces()).len() && text::white_space(
                #[trigger] text::trim(s, text::spaces())[i],
            ),
    ensures
        !plausible_endpoint(s),
{
    let t = text::trim(s, text::spaces());
    text::law_trimming_stops_at_what_is_kept(s, text::spaces());
    if !s.contains(':') {
        let (from, to) = choose|from: int, to: int|
            0 <= from <= to <= s.len() && t == #[trigger] s.subrange(from, to) && (forall|j: int|
                0 <= j < from ==> text::spaces()(#[trigger] s[j])) && (forall|j: int|
                to <= j < s.len() ==> text::spaces()(#[trigger] s[j]));
        assert forall|i: int| !text::is_last_of(t, ':', i) by {
            if 0 <= i < t.len() {
                assert(t[i] == s[from + i]);
            }
        }
    }
}

/// A text of parts with full stops between them is a host exactly if there are four and each is a
/// number that fits a byte.
pub proof fn law_hosts_have_four_numbers(parts: Seq<Seq<char>>)
    requires
        parts.len() > 0,
        forall|k: int| 0 <= k < parts.len() ==> !(#[trigger] parts[k]).contains('.'),
    ensures
        ipv4_host(text::joined(parts, '.')) <==> parts.len() == 4 && forall|k: int|
            0 <= k < 4 ==> match text::number(#[trigger] parts[k]) {
                Some(n) => n <= 255,
                None => false,
            },
{
    text::law_joined_parts_come_back(parts, '.');
    if parts.len() == 4 {
        if ipv4_host(text::joined(parts, '.')) {
            assert forall|k: int| 0 <= k < 4 implies match text::number(#[trigger] parts[k]) {
                Some(n) => n <= 255,
                None => false,
            } by {
                assert(fits(parts[k], 0xff));
            }
        } else {
            let k = choose|k: int| 0 <= k < 4 && !fits(#[trigger] parts[k], 0xff);
            assert(!fits(parts[k], 0xff));
        }
    }
}

/// An endpoint is strict exactly if a host stands before the last colon, and a number behind it
/// that fits a port and is not zero.
pub proof fn law_strict_means_a_host_and_a_port(host: Seq<char>, port: Seq<char>)
    requires
        !port.contains(':'),
    ensures
        ipv4_endpoint(host.push(':') + port) <==> ipv4_host(host) && match text::number(port) {
            Some(n) => 1 <= n <= 65535,
            None => false,
        },
{
    let s = host.push(':') + port;
    let i = host.len() as int;
    assert(s.skip(i + 1) =~= port);
    assert(s.take(i) =~= host);
    assert forall|j: int| i < j < s.len() implies s[j] != ':' by {
        assert(s[j] == port[j - i - 1]);
    }
    assert(text::is_last_of(s, ':', i));
}

/// Without a colon nothing is a strict endpoint.
pub proof fn law_strict_needs_a_colon(s: Seq<char>)
    requires
        !s.contains(':'),
    ensures
        !ipv4_endpoint(s),
{
}

/// What is found is a run of digits, full stops and colons of the text, without the full stops
/// around it.
pub proof fn law_found_endpoints_stand_in_the_text(input: Seq<char>, i: int)
    requires
        0 <= i < ipv4_endpoints(input).len(),
    ensures
        exists|k: int|
            0 <= k < text::pieces(input, breaks()).len() && ipv4_endpoints(input)[i] == text::trim(
                #[trigger] text::pieces(input, breaks())[k],
                text::only('.'),
            ),
{
    lemma_first_endpoints_come_from_candidates(text::pieces(input, breaks()), i);
}

proof fn lemma_first_endpoints_come_from_candidates(candidates: Seq<Seq<char>>, i: int)
    requires
        0 <= i < first_endpoints(candidates).len(),
    ensures
        exists|k: int|
            0 <= k < candidates.len() && first_endpoints(candidates)[i] == text::trim(
                #[trigger] candidates[k],
                text::only('.'),
            ),
    decreases candidates.len(),
{
    if candidates.len() > 0 {
        let front = candidates.drop_last();
        let before = first_endpoints(front);
        if i < before.len() {
            lemma_first_endpoints_come_from_candidates(front, i);
            let k = choose|k: int|
                0 <= k < front.len() && before[i] == text::trim(
                    #[trigger] front[k],
                    text::only('.'),
                );
            assert(front[k] == candidates[k]);
        } else {
            assert(candidates[candidates.len() - 1] == candidates.last());
        }
    }
}

/// Exactly the decimal digits, full stops and colons belong to an endpoint made of numbers.
pub proof fn law_only_digits_stops_and_colons_belong_together(c: char)
    ensures
        breaks()(c) <==> !('0' <= c <= '9' || c == '.' || c == ':'),
{
}

} // verus!
