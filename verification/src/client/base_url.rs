//! The base URLs that requests are built on.
use crate::shared::errors;
use crate::shared::errors::Error;
use crate::shared::text;
use crate::shared::text::decimal_text;
use crate::shared::text::same_text;
use crate::shared::text::trim_slashes;
use crate::shared::text::trim_text;
use vstd::prelude::*;

verus! {

/// The parts of a URL that a base URL is made of.
pub struct UrlParts {
    pub scheme: String,
    pub host: Option<String>,
    /// `None` where it is the usual one of the scheme.
    pub port: Option<u16>,
    pub path: String,
    pub has_query: bool,
    pub has_fragment: bool,
}

/// What [`UrlParts`] hold.
pub ghost struct UrlView {
    pub scheme: Seq<char>,
    pub host: Option<Seq<char>>,
    pub port: Option<u16>,
    pub path: Seq<char>,
    pub has_query: bool,
    pub has_fragment: bool,
}

impl View for UrlParts {
    type V = UrlView;

    open spec fn view(&self) -> UrlView {
        UrlView {
            scheme: self.scheme@,
            host: self.host.deep_view(),
            port: self.port,
            path: self.path@,
            has_query: self.has_query,
            has_fragment: self.has_fragment,
        }
    }
}

/// What `url::Url::parse` makes of a text: the parts of the URL, or the text of its error.
pub uninterp spec fn url_parse(text: Seq<char>) -> Result<UrlView, Seq<char>>;

/// `s` holds none of the characters that end the host or the path of a URL.
pub open spec fn holds_no(s: Seq<char>, marks: Seq<char>) -> bool {
    forall|i: int, j: int|
        0 <= i < s.len() && 0 <= j < marks.len() ==> #[trigger] s[i] != #[trigger] marks[j]
}

/// Whether a URL has one of the two schemes that base URLs have.
pub open spec fn is_web(u: UrlView) -> bool {
    u.scheme == "http"@ || u.scheme == "https"@
}

/// `s` holds no white space.
pub open spec fn holds_no_space(s: Seq<char>) -> bool {
    forall|i: int| 0 <= i < s.len() ==> !text::white_space(#[trigger] s[i])
}

/// What holds of the parts of every `http` and `https` URL: there is a host and a path, neither goes
/// beyond its end, and neither holds white space.
pub open spec fn well_parted(u: UrlView) -> bool {
    &&& u.host matches Some(host) && host.len() > 0 && holds_no(host, seq!['/', '?', '#'])
        && holds_no_space(host)
    &&& u.path.len() > 0 && u.path[0] == '/'
    &&& holds_no(u.path, seq!['?', '#'])
    &&& holds_no_space(u.path)
}

/// A label in Punycode starts at that place of a host.
pub open spec fn encoded_at(host: Seq<char>, i: int) -> bool {
    &&& i + 4 <= host.len()
    &&& host.subrange(i, i + 4) == "xn--"@
    &&& i == 0 || host[i - 1] == '.'
}

/// No label of a host is in Punycode.
pub open spec fn encodes_no_label(host: Seq<char>) -> bool {
    forall|i: int| 0 <= i < host.len() ==> !#[trigger] encoded_at(host, i)
}

/// The authority of a URL: its host, and its port where it is not the usual one.
pub open spec fn authority(u: UrlView, host: Seq<char>) -> Seq<char> {
    match u.port {
        Some(port) => host + ":"@ + text::decimal(port as nat),
        None => host,
    }
}

/// The text of a URL with this host, without user, query, fragment and the slashes at its end.
pub open spec fn base_text(u: UrlView, host: Seq<char>) -> Seq<char> {
    u.scheme + "://"@ + authority(u, host) + text::without_trailing_slashes(u.path)
}

/// The parts that are left of a URL in that text.
pub open spec fn base_parts(u: UrlView) -> UrlView {
    let path = text::without_trailing_slashes(u.path);
    UrlView {
        path: if path.len() == 0 {
            "/"@
        } else {
            path
        },
        has_query: false,
        has_fragment: false,
        ..u
    }
}

/// The parser reads the text that is made of the parts back as those parts.
pub open spec fn reads_back(u: UrlView) -> bool {
    match u.host {
        Some(host) => encodes_no_label(host) ==> url_parse(base_text(u, host)) == Ok::<
            UrlView,
            Seq<char>,
        >(base_parts(u)),
        None => true,
    }
}

/// `url::Url::parse`, and the parts of the URL as its accessors give them. The parser takes no `http`
/// or `https` URL without a host; a host is an IP address or a domain, in which it refuses `/`, `?`,
/// `#` and white space; and the path is never empty, ends before the first `?` or `#`, and has white
/// space percent-encoded.
///
/// Scheme, host, port and path of such a URL are in the form that the parser gives them, so it reads
/// them back as they are. That is said of hosts without Punycode only: IP addresses and domains in
/// plain ASCII pass through the parser unchanged. A label in Punycode is decoded and checked anew, and
/// one with more than 2000 digits, which the parser itself writes for some long labels, is then
/// refused.
#[verifier::external_body]
fn parse_url(text: &str) -> (result: Result<UrlParts, String>)
    ensures
        match result {
            Ok(parts) => url_parse(text@) == Ok::<UrlView, Seq<char>>(parts@) && (is_web(parts@)
                ==> well_parted(parts@) && reads_back(parts@)),
            Err(message) => url_parse(text@) == Err::<UrlView, Seq<char>>(message@),
        },
{
    let u = url::Url::parse(text).map_err(|e| e.to_string())?;
    Ok(UrlParts {
        scheme: u.scheme().to_string(),
        host: u.host_str().map(|h| h.to_string()),
        port: u.port(),
        path: u.path().to_string(),
        has_query: u.query().is_some(),
        has_fragment: u.fragment().is_some(),
    })
}

/// The base URL that a URL stands for: without the slashes at its end. Only `http` and `https` URLs
/// stand for one, and only those without query and fragment.
pub open spec fn base_of(u: UrlView, label: Seq<char>) -> Result<Seq<char>, Seq<char>> {
    if u.scheme != "http"@ && u.scheme != "https"@ {
        Err(
            label + ": unsupported scheme \""@ + u.scheme + "\" (only http/https allowed)"@,
        )
    } else if u.has_query || u.has_fragment {
        Err(label + ": must not contain query or fragment"@)
    } else {
        match u.host {
            Some(host) => Ok(base_text(u, host)),
            None => Err(label + ": missing host"@),
        }
    }
}

/// The base URL that a text stands for, or what is wrong with it.
pub open spec fn normalized(input: Seq<char>, label: Seq<char>) -> Result<Seq<char>, Seq<char>> {
    let trimmed = text::trimmed(input);
    if trimmed.len() == 0 {
        Err(label + ": must not be empty"@)
    } else {
        match url_parse(trimmed) {
            Ok(u) => base_of(u, label),
            Err(message) => Err(label + ": invalid URL: "@ + message),
        }
    }
}

/// `s` is an `http` or `https` URL without query and fragment, and without a slash at its end.
pub open spec fn is_base_url(s: Seq<char>) -> bool {
    &&& "http://"@.is_prefix_of(s) || "https://"@.is_prefix_of(s)
    &&& s.last() != '/'
    &&& holds_no(s, seq!['?', '#'])
}

/// `s` up to its first slash.
pub open spec fn up_to_slash(s: Seq<char>) -> Seq<char>
    decreases s.len(),
{
    if s.len() == 0 || s.first() == '/' {
        Seq::empty()
    } else {
        seq![s.first()] + up_to_slash(s.drop_first())
    }
}

/// The authority of a base URL, as it stands there.
pub open spec fn authority_in(base: Seq<char>) -> Seq<char> {
    if "https://"@.is_prefix_of(base) {
        up_to_slash(base.skip(8))
    } else {
        up_to_slash(base.skip(7))
    }
}

/// A base URL whose host has no label in Punycode is its own base URL: normalizing it again changes
/// nothing.
pub open spec fn is_kept(base: Seq<char>, label: Seq<char>) -> bool {
    encodes_no_label(authority_in(base)) ==> normalized(base, label) == Ok::<Seq<char>, Seq<char>>(
        base,
    )
}

/// `result` is the outcome `expected`.
pub open spec fn url_told(
    result: errors::Result<String>,
    expected: Result<Seq<char>, Seq<char>>,
) -> bool {
    match result {
        Ok(base) => expected == Ok::<Seq<char>, Seq<char>>(base@),
        Err(error) => error@ matches errors::ErrorView::Other(message) && expected == Err::<
            Seq<char>,
            Seq<char>,
        >(message),
    }
}

/// The base URL that the parts of a URL stand for.
pub fn base_of_parts(u: &UrlParts, label: &str) -> (result: errors::Result<String>)
    ensures
        url_told(result, base_of(u@, label@)),
{
    let scheme: &str = u.scheme.as_str();
    if !same_text(scheme, "http") && !same_text(scheme, "https") {
        return Err(
            Error::other(
                label.to_string().concat(": unsupported scheme \"").concat(scheme).concat(
                    "\" (only http/https allowed)",
                ),
            ),
        );
    }
    if u.has_query || u.has_fragment {
        return Err(
            Error::other(label.to_string().concat(": must not contain query or fragment")),
        );
    }
    match &u.host {
        Some(host) => {
            let place: String = match u.port {
                Some(port) => host.clone().concat(":").concat(decimal_text(port as usize).as_str()),
                None => host.clone(),
            };
            Ok(
                scheme.to_string().concat("://").concat(place.as_str()).concat(
                    trim_slashes(u.path.as_str()),
                ),
            )
        },
        None => Err(Error::other(label.to_string().concat(": missing host"))),
    }
}

fn normalize_base(input: &str, label: &str) -> (result: errors::Result<String>)
    ensures
        url_told(result, normalized(input@, label@)),
        result matches Ok(base) ==> is_base_url(base@) && is_kept(base@, label@),
{
    let trimmed: &str = trim_text(input);
    if trimmed.is_empty() {
        return Err(Error::other(label.to_string().concat(": must not be empty")));
    }
    match parse_url(trimmed) {
        Ok(u) => {
            proof {
                if base_of(u@, label@) is Ok {
                    law_base_url_ends_at_its_path(u@, label@);
                    law_base_url_is_kept(u@, label@);
                }
            }
            base_of_parts(&u, label)
        },
        Err(message) => Err(
            Error::other(label.to_string().concat(": invalid URL: ").concat(message.as_str())),
        ),
    }
}

/// The base URL of a gateway.
pub fn normalize_gateway_base_url(input: &str) -> (result: errors::Result<String>)
    ensures
        url_told(result, normalized(input@, "serverURL"@)),
        result matches Ok(base) ==> is_base_url(base@) && is_kept(base@, "serverURL"@),
{
    normalize_base(input, "serverURL")
}

/// A base URL that some requests are built on in place of that of the gateway. The label says which
/// one, in errors.
pub fn normalize_override_base_url(raw: &str, label: &str) -> (result: errors::Result<String>)
    ensures
        url_told(result, normalized(raw@, label@)),
        result matches Ok(base) ==> is_base_url(base@) && is_kept(base@, label@),
{
    normalize_base(raw, label)
}

/// A base URL starts with `http://` or `https://`, and then has the host of its URL.
pub proof fn law_base_url_is_web(u: UrlView, label: Seq<char>)
    requires
        base_of(u, label) is Ok,
    ensures
        "http://"@.is_prefix_of(base_of(u, label)->Ok_0) || "https://"@.is_prefix_of(
            base_of(u, label)->Ok_0,
        ),
        (u.scheme + "://"@ + u.host->Some_0).is_prefix_of(base_of(u, label)->Ok_0),
{
    reveal_strlit("http");
    reveal_strlit("https");
    reveal_strlit("://");
    reveal_strlit("http://");
    reveal_strlit("https://");
    let base = base_of(u, label)->Ok_0;
    let front = u.scheme + "://"@;
    assert(front.is_prefix_of(base));
    assert((front + u.host->Some_0).is_prefix_of(base));
    if u.scheme == "http"@ {
        assert(front =~= "http://"@);
    } else {
        assert(front =~= "https://"@);
    }
}

/// The base URL of a URL whose parts are where they belong has no slash at its end, no query and no
/// fragment.
pub proof fn law_base_url_ends_at_its_path(u: UrlView, label: Seq<char>)
    requires
        base_of(u, label) is Ok,
        well_parted(u),
    ensures
        is_base_url(base_of(u, label)->Ok_0),
{
    reveal_strlit("http");
    reveal_strlit("https");
    reveal_strlit("://");
    reveal_strlit(":");
    let marks = seq!['/', '?', '#'];
    let host = u.host->Some_0;
    let base = base_of(u, label)->Ok_0;
    let path = text::without_trailing_slashes(u.path);
    let place = authority(u, host);
    let front = u.scheme + "://"@ + place;
    law_base_url_is_web(u, label);
    text::lemma_without_trailing_slashes(u.path);
    assert forall|i: int| 0 <= i < host.len() implies host[i] != '/' && host[i] != '?' && host[i]
        != '#' by {
        assert(host[i] != marks[0] && host[i] != marks[1] && host[i] != marks[2]);
    }
    assert forall|i: int| 0 <= i < path.len() implies path[i] != '?' && path[i] != '#' by {
        let ends = seq!['?', '#'];
        assert(u.path[i] == path[i]);
        assert(u.path[i] != ends[0] && u.path[i] != ends[1]);
    }
    match u.port {
        Some(port) => {
            let digits = text::decimal(port as nat);
            text::lemma_decimal(port as nat);
            assert forall|i: int| 0 <= i < place.len() implies place[i] != '?' && place[i] != '#' by {
                if i < host.len() {
                    assert(place[i] == host[i]);
                } else if i == host.len() {
                    assert(place[i] == ':');
                } else {
                    assert(place[i] == digits[i - host.len() - 1]);
                }
            }
            assert(place.last() == digits[digits.len() - 1]);
        },
        None => {},
    }
    assert(base =~= front + path);
    assert forall|i: int| 0 <= i < base.len() implies base[i] != '?' && base[i] != '#' by {
        if i < u.scheme.len() {
            assert(base[i] == u.scheme[i]);
        } else if i < u.scheme.len() + 3 {
            assert(base[i] == "://"@[i - u.scheme.len()]);
        } else if i < front.len() {
            assert(base[i] == place[i - u.scheme.len() - 3]);
        } else {
            assert(base[i] == path[i - front.len()]);
        }
    }
    if path.len() == 0 {
        assert(base.last() == place.last());
    } else {
        assert(base.last() == path.last());
    }
}

proof fn lemma_up_to_slash(a: Seq<char>, b: Seq<char>)
    requires
        forall|i: int| 0 <= i < a.len() ==> #[trigger] a[i] != '/',
        b.len() > 0 ==> b[0] == '/',
    ensures
        up_to_slash(a + b) == a,
    decreases a.len(),
{
    if a.len() == 0 {
        assert(a + b =~= b);
    } else {
        assert((a + b).drop_first() =~= a.drop_first() + b);
        lemma_up_to_slash(a.drop_first(), b);
        assert(seq![a.first()] + a.drop_first() =~= a);
    }
}

proof fn lemma_authority_in(u: UrlView, label: Seq<char>)
    requires
        base_of(u, label) is Ok,
        well_parted(u),
    ensures
        authority_in(base_of(u, label)->Ok_0) == authority(u, u.host->Some_0),
{
    reveal_strlit("http");
    reveal_strlit("https");
    reveal_strlit("://");
    reveal_strlit(":");
    reveal_strlit("https://");
    let base = base_of(u, label)->Ok_0;
    let host = u.host->Some_0;
    let place = authority(u, host);
    let path = text::without_trailing_slashes(u.path);
    let front = u.scheme + "://"@;
    let marks = seq!['/', '?', '#'];
    text::lemma_without_trailing_slashes(u.path);
    assert forall|i: int| 0 <= i < place.len() implies #[trigger] place[i] != '/' by {
        if i < host.len() {
            assert(place[i] == host[i]);
            assert(host[i] != marks[0]);
        } else {
            let port = u.port->Some_0;
            let digits = text::decimal(port as nat);
            text::lemma_decimal(port as nat);
            if i > host.len() {
                assert(place[i] == digits[i - host.len() - 1]);
            }
        }
    }
    if path.len() > 0 {
        assert(path[0] == u.path[0]);
    }
    lemma_up_to_slash(place, path);
    assert(base =~= front + (place + path));
    if u.scheme == "https"@ {
        assert(front =~= "https://"@);
        assert(base.skip(8) =~= place + path);
    } else {
        assert(base[4] == ':');
        assert(!"https://"@.is_prefix_of(base)) by {
            assert("https://"@[4] == 's');
        }
        assert(base.skip(7) =~= place + path);
    }
}

proof fn lemma_not_encoded(host: Seq<char>, place: Seq<char>)
    requires
        host.is_prefix_of(place),
        encodes_no_label(place),
    ensures
        encodes_no_label(host),
{
    assert forall|i: int| 0 <= i < host.len() implies !#[trigger] encoded_at(host, i) by {
        if encoded_at(host, i) {
            assert(place.subrange(i, i + 4) =~= host.subrange(i, i + 4));
            assert(encoded_at(place, i));
        }
    }
}

proof fn lemma_nothing_to_trim(s: Seq<char>)
    requires
        s.len() > 0,
        !text::white_space(s.first()),
        !text::white_space(s.last()),
    ensures
        text::trimmed(s) == s,
{
}

proof fn lemma_base_is_trimmed(u: UrlView, label: Seq<char>)
    requires
        base_of(u, label) is Ok,
        well_parted(u),
    ensures
        text::trimmed(base_of(u, label)->Ok_0) == base_of(u, label)->Ok_0,
{
    reveal_strlit("http");
    reveal_strlit("https");
    reveal_strlit("://");
    reveal_strlit(":");
    let base = base_of(u, label)->Ok_0;
    let host = u.host->Some_0;
    let place = authority(u, host);
    let path = text::without_trailing_slashes(u.path);
    text::lemma_without_trailing_slashes(u.path);
    assert(base.first() == 'h');
    if path.len() > 0 {
        assert(base.last() == path.last());
        assert(path.last() == u.path[path.len() - 1]);
    } else {
        assert(base.last() == place.last());
        match u.port {
            Some(port) => {
                let digits = text::decimal(port as nat);
                text::lemma_decimal(port as nat);
                assert(place.last() == digits[digits.len() - 1]);
            },
            None => {
                assert(place.last() == host[host.len() - 1]);
            },
        }
    }
    lemma_nothing_to_trim(base);
}

/// Where the parser reads the parts of a URL back, the base URL of that URL is its own base URL:
/// normalizing it again changes nothing.
pub proof fn law_base_url_is_kept(u: UrlView, label: Seq<char>)
    requires
        base_of(u, label) is Ok,
        well_parted(u),
        reads_back(u),
    ensures
        is_kept(base_of(u, label)->Ok_0, label),
{
    let base = base_of(u, label)->Ok_0;
    let host = u.host->Some_0;
    let place = authority(u, host);
    let path = text::without_trailing_slashes(u.path);
    if encodes_no_label(authority_in(base)) {
        lemma_authority_in(u, label);
        assert(host.is_prefix_of(place));
        lemma_not_encoded(host, place);
        lemma_base_is_trimmed(u, label);
        law_base_url_is_web(u, label);
        reveal_strlit("http://");
        reveal_strlit("https://");
        assert(base.len() > 0);
        text::lemma_without_trailing_slashes(u.path);
        let v = base_parts(u);
        if path.len() == 0 {
            reveal_strlit("/");
            assert("/"@.drop_last() =~= Seq::empty());
            reveal_with_fuel(text::without_trailing_slashes, 2);
        }
        assert(text::without_trailing_slashes(v.path) =~= path);
    }
}

} // verus!
