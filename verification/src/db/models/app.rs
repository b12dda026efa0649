//! Applications and the external id that identifies them.
use vstd::prelude::*;
use crate::clock::Timestamp;
use crate::db::types::Platform;
use crate::event::{WindowEvent, WindowEventView};
use crate::utils::ids::{random_id, ID_LEN};
use crate::utils::text::{copy_opt_text, copy_text};

verus! {

/// An application or web site the user was seen in.
#[derive(Clone, Debug)]
pub struct App {
    pub id: Option<String>,
    pub name: Option<String>,
    pub app_external_id: String,
    pub platform: Platform,
    pub is_browser: bool,
    pub is_default: bool,
    pub is_blocked: bool,
    pub created_at: Option<Timestamp>,
    pub updated_at: Option<Timestamp>,
}

/// An application with its text read as character sequences.
pub struct AppView {
    pub id: Option<Seq<char>>,
    pub name: Option<Seq<char>>,
    pub app_external_id: Seq<char>,
    pub platform: Platform,
    pub is_browser: bool,
    pub is_default: bool,
    pub is_blocked: bool,
    pub created_at: Option<Timestamp>,
    pub updated_at: Option<Timestamp>,
}

impl DeepView for App {
    type V = AppView;

    open spec fn deep_view(&self) -> AppView {
        self@
    }
}

impl View for App {
    type V = AppView;

    open spec fn view(&self) -> AppView {
        AppView {
            id: self.id.deep_view(),
            name: self.name.deep_view(),
            app_external_id: self.app_external_id@,
            platform: self.platform,
            is_browser: self.is_browser,
            is_default: self.is_default,
            is_blocked: self.is_blocked,
            created_at: self.created_at,
            updated_at: self.updated_at,
        }
    }
}

/// The host component that `url::Url::parse` followed by `Url::host_str`
/// finds in `text`; `None` when the text does not parse as an absolute
/// URL or the URL has no host.
pub uninterp spec fn url_host(text: Seq<char>) -> Option<Seq<char>>;

/// Whether `s` begins with `www.`.
pub open spec fn starts_with_www(s: Seq<char>) -> bool {
    s.len() >= 4 && s[0] == 'w' && s[1] == 'w' && s[2] == 'w' && s[3] == '.'
}

/// `s` without one leading `www.`.
pub open spec fn strip_www(s: Seq<char>) -> Seq<char> {
    if starts_with_www(s) {
        s.skip(4)
    } else {
        s
    }
}

/// `s` without any leading run of `www.`.
pub open spec fn trim_www(s: Seq<char>) -> Seq<char>
    decreases s.len(),
{
    if starts_with_www(s) {
        trim_www(s.skip(4))
    } else {
        s
    }
}

/// `s` without its trailing slashes.
pub open spec fn trim_trailing_slashes(s: Seq<char>) -> Seq<char>
    decreases s.len(),
{
    if s.len() > 0 && s.last() == '/' {
        trim_trailing_slashes(s.drop_last())
    } else {
        s
    }
}

/// Position of the first `c` in `s`, or the length of `s` without one.
pub open spec fn offset_of(s: Seq<char>, c: char) -> int
    decreases s.len(),
{
    if s.len() == 0 || s[0] == c {
        0
    } else {
        1 + offset_of(s.drop_first(), c)
    }
}

/// The part of `s` before the first `c`; all of `s` without one.
pub open spec fn before(s: Seq<char>, c: char) -> Seq<char> {
    s.take(offset_of(s, c))
}

/// The domain read off a text that did not parse as a URL with a host:
/// leading `www.` and trailing slashes go, then everything from the first
/// `/` on, then everything from the first `?` on.
pub open spec fn bare_domain(text: Seq<char>) -> Seq<char> {
    before(before(trim_trailing_slashes(trim_www(text)), '/'), '?')
}

/// The domain of `text`, given the host that URL parsing found in it.
pub open spec fn domain_of(host: Option<Seq<char>>, text: Seq<char>) -> Seq<char> {
    match host {
        Some(h) => strip_www(h),
        None => bare_domain(text),
    }
}

/// The external id of the application behind a window event: the domain
/// of its URL if it has one, else its bundle id if it has one, else its
/// display name. `host` is the host found in the URL.
pub open spec fn external_id_of(event: WindowEventView, host: Option<Seq<char>>) -> Seq<char> {
    match event.url {
        Some(url) => domain_of(host, url),
        None => match event.bundle_id {
            Some(bundle_id) => bundle_id,
            None => event.app_name,
        },
    }
}

/// Parses `text` with `url::Url::parse` and reads the host with
/// `Url::host_str`. The result depends on the text alone and is known to
/// contracts as `url_host`.
#[verifier::external_body]
fn parse_host(text: &str) -> (host: Option<String>)
    ensures
        host.deep_view() == url_host(text@),
{
    match url::Url::parse(text) {
        Ok(parsed) => parsed.host_str().map(|h| h.to_string()),
        Err(_) => None,
    }
}

/// Whether the characters of `s` from `at` on begin with `www.`.
fn www_at(s: &str, at: usize, len: usize) -> (found: bool)
    requires
        len == s@.len(),
        at <= len,
    ensures
        found == starts_with_www(s@.skip(at as int)),
{
    if len - at < 4 {
        false
    } else {
        s.get_char(at) == 'w' && s.get_char(at + 1) == 'w' && s.get_char(at + 2) == 'w'
            && s.get_char(at + 3) == '.'
    }
}

/// Index of the first character after the leading run of `www.`.
fn skip_www(s: &str, len: usize) -> (start: usize)
    requires
        len == s@.len(),
    ensures
        start <= len,
        s@.skip(start as int) == trim_www(s@),
{
    let mut start: usize = 0;
    proof {
        assert(s@.skip(0) =~= s@);
    }
    while www_at(s, start, len)
        invariant
            len == s@.len(),
            start <= len,
            trim_www(s@) == trim_www(s@.skip(start as int)),
        decreases len - start,
    {
        proof {
            assert(s@.skip(start as int).skip(4) =~= s@.skip(start + 4));
        }
        start = start + 4;
    }
    start
}

/// Index just past the last character that is not a trailing slash.
fn trim_end(s: &str, start: usize, len: usize) -> (end: usize)
    requires
        len == s@.len(),
        start <= len,
    ensures
        start <= end <= len,
        s@.subrange(start as int, end as int) == trim_trailing_slashes(s@.skip(start as int)),
{
    let mut end: usize = len;
    proof {
        assert(s@.subrange(start as int, len as int) =~= s@.skip(start as int));
    }
    while end > start && s.get_char(end - 1) == '/'
        invariant
            len == s@.len(),
            start <= end <= len,
            trim_trailing_slashes(s@.skip(start as int)) == trim_trailing_slashes(
                s@.subrange(start as int, end as int),
            ),
        decreases end - start,
    {
        proof {
            let part = s@.subrange(start as int, end as int);
            assert(part.last() == s@[end - 1]);
            assert(part.drop_last() =~= s@.subrange(start as int, end - 1));
        }
        end = end - 1;
    }
    proof {
        let part = s@.subrange(start as int, end as int);
        if end > start {
            assert(part.last() == s@[end - 1]);
        }
    }
    end
}

/// Index of the first `c` between `start` and `end`, or `end` without one.
fn find_char(s: &str, start: usize, end: usize, c: char) -> (stop: usize)
    requires
        start <= end <= s@.len(),
    ensures
        start <= stop <= end,
        stop - start == offset_of(s@.subrange(start as int, end as int), c),
        s@.subrange(start as int, stop as int) == before(s@.subrange(start as int, end as int), c),
{
    let mut stop: usize = start;
    proof {
        assert(s@.subrange(start as int, end as int) =~= s@.subrange(stop as int, end as int));
    }
    while stop < end && s.get_char(stop) != c
        invariant
            start <= stop <= end <= s@.len(),
            offset_of(s@.subrange(start as int, end as int), c) == (stop - start) + offset_of(
                s@.subrange(stop as int, end as int),
                c,
            ),
        decreases end - stop,
    {
        proof {
            let part = s@.subrange(stop as int, end as int);
            assert(part[0] == s@[stop as int]);
            assert(part.drop_first() =~= s@.subrange(stop + 1, end as int));
        }
        stop = stop + 1;
    }
    proof {
        let part = s@.subrange(stop as int, end as int);
        if stop < end {
            assert(part[0] == s@[stop as int]);
        }
        assert(offset_of(part, c) == 0);
        assert(s@.subrange(start as int, end as int).take(stop - start) =~= s@.subrange(
            start as int,
            stop as int,
        ));
    }
    stop
}

impl App {
    /// The application first seen through `event`, under the identifier
    /// `id`; `host` is the host found in the event's URL.
    pub open spec fn spec_first_seen(event: WindowEventView, id: Seq<char>, host: Option<Seq<char>>) -> AppView {
        AppView {
            id: Some(id),
            name: Some(event.app_name),
            app_external_id: external_id_of(event, host),
            platform: event.platform,
            is_browser: event.url is Some,
            is_default: false,
            is_blocked: false,
            created_at: None,
            updated_at: None,
        }
    }

    /// The domain of `url`, given the host that URL parsing found in it:
    /// the host without a leading `www.`, or, without a host, what is left
    /// of the text after trimming `www.`, trailing slashes, the path and
    /// the query.
    pub fn domain_from_parts(host: Option<&str>, url: &str) -> (domain: String)
        ensures
            domain@ == domain_of(
                match host {
                    Some(h) => Some(h@),
                    None => None,
                },
                url@,
            ),
    {
        match host {
            Some(h) => {
                let len = h.unicode_len();
                if www_at(h, 0, len) {
                    proof {
                        assert(h@.skip(0) =~= h@);
                        assert(h@.subrange(4, len as int) =~= h@.skip(4));
                    }
                    String::from_str(h.substring_char(4, len))
                } else {
                    proof {
                        assert(h@.skip(0) =~= h@);
                    }
                    String::from_str(h)
                }
            },
            None => {
                let len = url.unicode_len();
                let start = skip_www(url, len);
                let end = trim_end(url, start, len);
                let path = find_char(url, start, end, '/');
                let query = find_char(url, start, path, '?');
                String::from_str(url.substring_char(start, query))
            },
        }
    }

    /// The domain of `url`: the host of the parsed URL without a leading
    /// `www.`, or the bare domain of the text when it has no such host.
    pub fn get_domain_from_url(url: &str) -> (domain: String)
        ensures
            domain@ == domain_of(url_host(url@), url@),
    {
        let host = parse_host(url);
        match &host {
            Some(h) => App::domain_from_parts(Some(h.as_str()), url),
            None => App::domain_from_parts(None, url),
        }
    }

    /// The external id for `event`, given the domain of its URL when it
    /// has one.
    pub fn external_id_from(event: &WindowEvent, url_domain: Option<String>) -> (external_id: String)
        ensures
            external_id@ == match url_domain {
                Some(domain) => domain@,
                None => match event@.bundle_id {
                    Some(bundle_id) => bundle_id,
                    None => event@.app_name,
                },
            },
    {
        match url_domain {
            Some(domain) => domain,
            None => match &event.bundle_id {
                Some(bundle_id) => copy_text(bundle_id),
                None => copy_text(&event.app_name),
            },
        }
    }

    /// The application first seen through `event`, under the identifier
    /// `id` and the external id `external_id`.
    pub fn first_seen(event: &WindowEvent, id: String, external_id: String) -> (app: App)
        ensures
            app@ == (AppView {
                id: Some(id@),
                name: Some(event@.app_name),
                app_external_id: external_id@,
                platform: event@.platform,
                is_browser: event@.url is Some,
                is_default: false,
                is_blocked: false,
                created_at: None,
                updated_at: None,
            }),
    {
        App {
            id: Some(id),
            created_at: None,
            updated_at: None,
            name: Some(copy_text(&event.app_name)),
            app_external_id: external_id,
            platform: event.platform,
            is_browser: event.url.is_some(),
            is_default: false,
            is_blocked: false,
        }
    }

    /// The application behind a window event, with a freshly drawn
    /// identifier. Its external id is the domain of the event's URL, else
    /// the bundle id, else the display name.
    pub fn new(event: &WindowEvent) -> (app: App)
        ensures
            app@.id is Some,
            app@.id->0.len() == ID_LEN,
            app@ == App::spec_first_seen(
                event@,
                app@.id->0,
                match event@.url {
                    Some(url) => url_host(url),
                    None => None,
                },
            ),
    {
        let url_domain = match &event.url {
            Some(url) => Some(App::get_domain_from_url(url.as_str())),
            None => None,
        };
        let external_id = App::external_id_from(event, url_domain);
        App::first_seen(event, random_id(), external_id)
    }

    /// A copy with the same contents.
    pub fn duplicate(&self) -> (copy: App)
        ensures
            copy@ == self@,
    {
        App {
            id: copy_opt_text(&self.id),
            name: copy_opt_text(&self.name),
            app_external_id: copy_text(&self.app_external_id),
            platform: self.platform,
            is_browser: self.is_browser,
            is_default: self.is_default,
            is_blocked: self.is_blocked,
            created_at: self.created_at,
            updated_at: self.updated_at,
        }
    }
}

} // verus!
