//! What a handler can learn about the request it serves: headers, cookies,
//! the caller's address, path and query.

use crate::headers::{copy_headers, header_lookup, header_text, header_values, no_headers};
use crate::text::{
    chars_of, eq_ignore_ascii_case, fields, find_char, first_index, is_char,
    same_ignoring_ascii_case, split_trimmed, starts_with, str_equal, string_of, texts,
};
use axum::http::{HeaderMap, HeaderValue};
use vstd::prelude::*;

verus! {

/// An internet address, as the numbers it is made of.
#[derive(Debug, Clone, Copy, PartialEq, Eq, Hash)]
pub enum IpAddress {
    /// The four octets of an IPv4 address.
    V4([u8; 4]),
    /// The eight 16-bit groups of an IPv6 address.
    V6([u16; 8]),
}

/// The name and value a cookie piece holds: what stands before its first `=`
/// and what stands after it. A piece without `=` holds no cookie.
pub open spec fn cookie_pair(piece: Seq<char>) -> Option<(Seq<char>, Seq<char>)> {
    let eq = first_index(piece, is_char('='), 0);
    if 0 <= eq < piece.len() {
        Some((piece.subrange(0, eq), piece.subrange(eq + 1, piece.len() as int)))
    } else {
        None
    }
}

/// The cookies among `pieces`, in order.
pub open spec fn cookies_among(pieces: Seq<Seq<char>>) -> Seq<(Seq<char>, Seq<char>)>
    decreases pieces.len(),
{
    if pieces.len() == 0 {
        Seq::empty()
    } else {
        let before = cookies_among(pieces.drop_last());
        match cookie_pair(pieces.last()) {
            Some(pair) => before.push(pair),
            None => before,
        }
    }
}

/// The cookies a `Cookie` header holds, in order: the header is split at
/// each `;`, the pieces are trimmed, and each piece with an `=` is a cookie.
pub open spec fn cookies_in(header: Seq<char>) -> Seq<(Seq<char>, Seq<char>)> {
    cookies_among(fields(header, ';'))
}

/// The value of the last pair named `name`.
pub open spec fn last_value(pairs: Seq<(Seq<char>, Seq<char>)>, name: Seq<char>) -> Option<
    Seq<char>,
>
    decreases pairs.len(),
{
    if pairs.len() == 0 {
        None
    } else if pairs.last().0 == name {
        Some(pairs.last().1)
    } else {
        last_value(pairs.drop_last(), name)
    }
}

/// The names and values a list of pairs holds, as texts.
pub open spec fn pair_texts(pairs: Seq<(String, String)>) -> Seq<(Seq<char>, Seq<char>)> {
    pairs.map_values(|pair: (String, String)| (pair.0@, pair.1@))
}

/// The first address in `parsed`, if any.
pub open spec fn first_address(parsed: Seq<Option<IpAddress>>) -> Option<IpAddress>
    decreases parsed.len(),
{
    if parsed.len() == 0 {
        None
    } else if parsed[0].is_some() {
        parsed[0]
    } else {
        first_address(parsed.drop_first())
    }
}

/// The texts in which the caller's address is looked for, in the order in
/// which they count: each entry of `X-Forwarded-For`, then `X-Real-IP`.
pub open spec fn address_candidates(headers: HeaderMap<HeaderValue>) -> Seq<Seq<char>> {
    let forwarded = match header_lookup(headers, "x-forwarded-for"@) {
        Some(list) => fields(list, ','),
        None => Seq::empty(),
    };
    let direct = match header_lookup(headers, "x-real-ip"@) {
        Some(address) => seq![crate::text::trimmed(address)],
        None => Seq::empty(),
    };
    forwarded + direct
}

/// The cookies of a `Cookie` header, in order.
pub fn parse_cookies(header: &str) -> (cookies: Vec<(String, String)>)
    ensures
        pair_texts(cookies@) == cookies_in(header@),
{
    let chars = chars_of(header);
    let pieces = split_trimmed(&chars, ';');
    let mut cookies: Vec<(String, String)> = Vec::new();
    let mut i: usize = 0;
    assert(texts(pieces@).take(0) =~= Seq::<Seq<char>>::empty());
    while i < pieces.len()
        invariant
            i <= pieces.len(),
            texts(pieces@) == fields(header@, ';'),
            pair_texts(cookies@) == cookies_among(texts(pieces@).take(i as int)),
        decreases pieces.len() - i,
    {
        let piece = chars_of(pieces[i].as_str());
        let eq = find_char(&piece, '=', 0);
        let ghost before = cookies@;
        proof {
            let upto = texts(pieces@).take(i + 1);
            assert(upto.drop_last() =~= texts(pieces@).take(i as int));
            assert(upto.last() == piece@);
        }
        if eq < piece.len() {
            let name = string_of(&piece, 0, eq);
            let value = string_of(&piece, eq + 1, piece.len());
            cookies.push((name, value));
            proof {
                assert(pair_texts(cookies@) =~= pair_texts(before).push((name@, value@)));
            }
        }
        i = i + 1;
    }
    proof {
        assert(texts(pieces@).take(pieces.len() as int) =~= texts(pieces@));
    }
    cookies
}

/// The first address among `parsed`, or `peer` if there is none.
pub fn resolve_client_ip(parsed: &Vec<Option<IpAddress>>, peer: Option<IpAddress>) -> (address:
    Option<IpAddress>)
    ensures
        address == match first_address(parsed@) {
            Some(found) => Some(found),
            None => peer,
        },
{
    let mut i: usize = 0;
    assert(parsed@.skip(0) =~= parsed@);
    while i < parsed.len()
        invariant
            i <= parsed.len(),
            first_address(parsed@) == first_address(parsed@.skip(i as int)),
        decreases parsed.len() - i,
    {
        proof {
            assert(parsed@.skip(i as int).drop_first() =~= parsed@.skip(i + 1));
        }
        match parsed[i] {
            Some(found) => {
                return Some(found);
            },
            None => {},
        }
        i = i + 1;
    }
    peer
}

/// What a handler can learn about the request it serves.
#[derive(Debug)]
pub struct RequestContext {
    headers: HeaderMap<HeaderValue>,
    cookies: Vec<(String, String)>,
    client_ip: Option<IpAddress>,
    path: String,
    query: Option<String>,
}

/// A copy of a list of pairs.
fn copy_pairs(pairs: &Vec<(String, String)>) -> (copy: Vec<(String, String)>)
    ensures
        pair_texts(copy@) == pair_texts(pairs@),
{
    let mut copy: Vec<(String, String)> = Vec::new();
    let mut i: usize = 0;
    while i < pairs.len()
        invariant
            i <= pairs.len(),
            pair_texts(copy@) == pair_texts(pairs@).take(i as int),
        decreases pairs.len() - i,
    {
        let name = pairs[i].0.clone();
        let value = pairs[i].1.clone();
        let ghost before = copy@;
        copy.push((name, value));
        proof {
            assert(pair_texts(copy@) =~= pair_texts(before).push((name@, value@)));
            assert(pair_texts(pairs@).take(i + 1) =~= pair_texts(pairs@).take(i as int).push(
                pair_texts(pairs@)[i as int],
            ));
        }
        i = i + 1;
    }
    proof {
        assert(pair_texts(pairs@).take(pairs.len() as int) =~= pair_texts(pairs@));
    }
    copy
}

impl Clone for RequestContext {
    fn clone(&self) -> (copy: Self)
        ensures
            header_values(copy.spec_headers()) == header_values(self.spec_headers()),
            copy.spec_cookies() == self.spec_cookies(),
            copy.spec_connection_ip() == self.spec_connection_ip(),
            copy.spec_path() == self.spec_path(),
            copy.spec_query() == self.spec_query(),
    {
        proof {
            use_type_invariant(self);
        }
        let headers = copy_headers(&self.headers);
        let cookies = copy_pairs(&self.cookies);
        let query = match &self.query {
            Some(text) => Some(text.clone()),
            None => None,
        };
        RequestContext {
            headers,
            cookies,
            client_ip: self.client_ip,
            path: self.path.clone(),
            query,
        }
    }
}

impl RequestContext {
    #[verifier::type_invariant]
    spec fn cookies_follow_header(self) -> bool {
        pair_texts(self.cookies@) == match header_lookup(self.headers, "cookie"@) {
            Some(header) => cookies_in(header),
            None => Seq::empty(),
        }
    }

    /// The headers of the request.
    pub closed spec fn spec_headers(self) -> HeaderMap<HeaderValue> {
        self.headers
    }

    /// The cookies of the request, in the order of the `Cookie` header.
    pub closed spec fn spec_cookies(self) -> Seq<(Seq<char>, Seq<char>)> {
        pair_texts(self.cookies@)
    }

    /// The address at the other end of the connection.
    pub closed spec fn spec_connection_ip(self) -> Option<IpAddress> {
        self.client_ip
    }

    /// The path of the request.
    pub closed spec fn spec_path(self) -> Seq<char> {
        self.path@
    }

    /// The query of the request, without the leading `?`.
    pub closed spec fn spec_query(self) -> Option<Seq<char>> {
        match self.query {
            Some(query) => Some(query@),
            None => None,
        }
    }

    /// The text of the header `name`, whatever the case of its letters.
    pub open spec fn spec_header(self, name: Seq<char>) -> Option<Seq<char>> {
        header_lookup(self.spec_headers(), name)
    }

    /// A context without headers, address or query, and with an empty path.
    pub fn new() -> (context: Self)
        ensures
            forall|name: Seq<char>| context.spec_header(name).is_none(),
            context.spec_cookies().len() == 0,
            context.spec_connection_ip().is_none(),
            context.spec_path().len() == 0,
            context.spec_query().is_none(),
    {
        let headers = no_headers();
        let cookies: Vec<(String, String)> = Vec::new();
        assert(pair_texts(cookies@) =~= Seq::empty());
        RequestContext { headers, cookies, client_ip: None, path: String::new(), query: None }
    }

    /// The context of a request with these headers, arriving from
    /// `client_ip`, for `path` and `query`. The cookies are read from the
    /// `Cookie` header.
    pub fn from_parts(
        headers: HeaderMap<HeaderValue>,
        client_ip: Option<IpAddress>,
        path: String,
        query: Option<String>,
    ) -> (context: Self)
        ensures
            context.spec_headers() == headers,
            context.spec_cookies() == match header_lookup(headers, "cookie"@) {
                Some(header) => cookies_in(header),
                None => Seq::empty(),
            },
            context.spec_connection_ip() == client_ip,
            context.spec_path() == path@,
            context.spec_query() == match query {
                Some(text) => Some(text@),
                None => None,
            },
    {
        let cookies = match header_text(&headers, "cookie") {
            Some(header) => parse_cookies(header),
            None => Vec::new(),
        };
        assert(header_lookup(headers, "cookie"@).is_none() ==> pair_texts(cookies@)
            =~= Seq::empty());
        RequestContext { headers, cookies, client_ip, path, query }
    }

    /// The text of the header `name`, whatever the case of its ASCII
    /// letters; `None` where the request has no such header or its value is
    /// not text.
    pub fn header(&self, name: &str) -> (text: Option<&str>)
        ensures
            match text {
                Some(found) => self.spec_header(name@) == Some(found@),
                None => self.spec_header(name@).is_none(),
            },
    {
        header_text(&self.headers, name)
    }

    /// All headers of the request.
    pub fn headers(&self) -> (headers: &HeaderMap<HeaderValue>)
        ensures
            *headers == self.spec_headers(),
    {
        &self.headers
    }

    /// The value of the cookie `name`; of the last one, where the request
    /// has several of that name.
    pub fn cookie(&self, name: &str) -> (value: Option<&str>)
        ensures
            match value {
                Some(found) => last_value(self.spec_cookies(), name@) == Some(found@),
                None => last_value(self.spec_cookies(), name@).is_none(),
            },
    {
        let mut i: usize = self.cookies.len();
        assert(pair_texts(self.cookies@).take(i as int) =~= pair_texts(self.cookies@));
        while i > 0
            invariant
                i <= self.cookies.len(),
                last_value(pair_texts(self.cookies@), name@) == last_value(
                    pair_texts(self.cookies@).take(i as int),
                    name@,
                ),
            decreases i,
        {
            proof {
                let upto = pair_texts(self.cookies@).take(i as int);
                assert(upto.drop_last() =~= pair_texts(self.cookies@).take(i - 1));
            }
            if str_equal(self.cookies[i - 1].0.as_str(), name) {
                return Some(self.cookies[i - 1].1.as_str());
            }
            i = i - 1;
        }
        None
    }

    /// All cookies of the request, in the order of the `Cookie` header.
    pub fn cookies(&self) -> (cookies: &Vec<(String, String)>)
        ensures
            pair_texts(cookies@) == self.spec_cookies(),
            self.spec_cookies() == match self.spec_header("cookie"@) {
                Some(header) => cookies_in(header),
                None => Seq::empty(),
            },
    {
        proof {
            use_type_invariant(self);
        }
        &self.cookies
    }

    /// The texts in which the caller's address is looked for, in the order in
    /// which they count: each entry of `X-Forwarded-For`, then `X-Real-IP`.
    /// The caller parses each and hands the outcomes to `client_ip`.
    pub fn client_ip_candidates(&self) -> (candidates: Vec<String>)
        ensures
            texts(candidates@) == address_candidates(self.spec_headers()),
    {
        let mut candidates = match header_text(&self.headers, "x-forwarded-for") {
            Some(list) => {
                let chars = chars_of(list);
                split_trimmed(&chars, ',')
            },
            None => Vec::new(),
        };
        let ghost forwarded = candidates@;
        match header_text(&self.headers, "x-real-ip") {
            Some(address) => {
                let chars = chars_of(address);
                let bounds = crate::text::trim_range(&chars, 0, chars.len());
                let trimmed = string_of(&chars, bounds.0, bounds.1);
                candidates.push(trimmed);
                proof {
                    assert(chars@.subrange(0, chars@.len() as int) =~= chars@);
                    assert(texts(candidates@) =~= texts(forwarded) + seq![trimmed@]);
                }
            },
            None => {
                proof {
                    assert(texts(candidates@) =~= texts(forwarded) + Seq::<Seq<char>>::empty());
                }
            },
        }
        candidates
    }

    /// The caller's address: the first candidate of `client_ip_candidates`
    /// that is an address, or else the address at the other end of the
    /// connection. `parsed` holds, for each candidate in order, the address
    /// it was parsed to, or `None` where it is none.
    pub fn client_ip(&self, parsed: &Vec<Option<IpAddress>>) -> (address: Option<IpAddress>)
        ensures
            address == match first_address(parsed@) {
                Some(found) => Some(found),
                None => self.spec_connection_ip(),
            },
    {
        resolve_client_ip(parsed, self.client_ip)
    }

    /// The address at the other end of the connection, whatever the headers
    /// say.
    pub fn connection_ip(&self) -> (address: Option<IpAddress>)
        ensures
            address == self.spec_connection_ip(),
    {
        self.client_ip
    }

    /// The path of the request.
    pub fn path(&self) -> (path: &str)
        ensures
            path@ == self.spec_path(),
    {
        self.path.as_str()
    }

    /// The query of the request, without the leading `?`.
    pub fn query(&self) -> (query: Option<&str>)
        ensures
            match query {
                Some(text) => self.spec_query() == Some(text@),
                None => self.spec_query().is_none(),
            },
    {
        match &self.query {
            Some(text) => Some(text.as_str()),
            None => None,
        }
    }

    /// Whether the request came over a secure connection, as far as the
    /// proxy in front says: whether `X-Forwarded-Proto` is `https`, in any
    /// case of letters.
    pub fn is_secure(&self) -> (secure: bool)
        ensures
            secure == match self.spec_header("x-forwarded-proto"@) {
                Some(protocol) => same_ignoring_ascii_case(protocol, "https"@),
                None => false,
            },
    {
        match self.header("x-forwarded-proto") {
            Some(protocol) => {
                let given = chars_of(protocol);
                let secure = chars_of("https");
                eq_ignore_ascii_case(&given, &secure)
            },
            None => false,
        }
    }

    /// The text of the `Authorization` header.
    pub fn authorization(&self) -> (text: Option<&str>)
        ensures
            match text {
                Some(found) => self.spec_header("authorization"@) == Some(found@),
                None => self.spec_header("authorization"@).is_none(),
            },
    {
        self.header("authorization")
    }

    /// The token of an `Authorization` header that starts with `Bearer `:
    /// what follows those seven characters.
    pub fn bearer_token(&self) -> (token: Option<String>)
        ensures
            match self.spec_header("authorization"@) {
                Some(text) if "Bearer "@.is_prefix_of(text) => token.is_some() && token.unwrap()@
                    == text.skip(7),
                _ => token.is_none(),
            },
    {
        proof {
            reveal_strlit("Bearer ");
        }
        match self.header("authorization") {
            Some(text) => {
                let chars = chars_of(text);
                let prefix = chars_of("Bearer ");
                if starts_with(&chars, &prefix) {
                    Some(string_of(&chars, 7, chars.len()))
                } else {
                    None
                }
            },
            None => None,
        }
    }
}

} // verus!
