//! The dispatcher: every page of the registry is rendered once, and each
//! request path is answered from that cache.

use crate::assets::{
    asset, get_static, lemma_assets, lemma_template_names_entry, STYLESHEET_NAME, TEMPLATE_NAME,
};
use crate::errors::{
    built_in_stylesheet, entries_of, errors, lemma_page_shows_entry, lemma_registry_codes, page,
    registry, well_known_path, ErrorEntry, ErrorType, RenderedResponse, ResponseView,
    PATH_PREFIX, TEXT_HTML, TEXT_PLAIN,
};
use crate::template::occurs_in;
use crate::text::{decimal, lemma_decimal_injective, str_eq, text_of};
use vstd::hash_map::StringHashMap;
use vstd::prelude::*;
use vstd::string::*;

verus! {

/// The path of the health check.
pub const HEALTH_PATH: &'static str = "/.well-known/health";

/// The path under which browsers ask for an icon.
pub const FAVICON_PATH: &'static str = "/favicon.ico";

/// The key that is tried when a path has no page of its own.
pub const FALLBACK_KEY: &'static str = "/504";

/// The answer to a health check: 200, and nothing else.
pub open spec fn health_response() -> ResponseView {
    ResponseView { status: 200, content_type: None, body: Seq::empty() }
}

/// The answer to a request for an icon: 404, and nothing else.
pub open spec fn favicon_response() -> ResponseView {
    ResponseView { status: 404, content_type: None, body: Seq::empty() }
}

/// The answer to a request for `path`: the two fixed answers first, then the
/// page cached under the path itself, then the one under the fallback key,
/// then the default.
pub open spec fn dispatch(
    cache: Map<Seq<char>, ResponseView>,
    default: ResponseView,
    path: Seq<char>,
) -> ResponseView {
    if path == HEALTH_PATH@ {
        health_response()
    } else if path == FAVICON_PATH@ {
        favicon_response()
    } else if cache.contains_key(path) {
        cache[path]
    } else if cache.contains_key(FALLBACK_KEY@) {
        cache[FALLBACK_KEY@]
    } else {
        default
    }
}

/// The cache that holds the page of each of `entries` under its path, a
/// later entry in place of an earlier one with the same path.
pub open spec fn cache_of(
    entries: Seq<ErrorEntry>,
    template: Option<Seq<char>>,
    stylesheet: Seq<char>,
) -> Map<Seq<char>, ResponseView>
    decreases entries.len(),
{
    if entries.len() == 0 {
        Map::empty()
    } else {
        cache_of(entries.drop_last(), template, stylesheet).insert(
            well_known_path(entries.last().code),
            page(entries.last(), template, stylesheet),
        )
    }
}

/// The entry behind the default response where the configured status has no
/// entry of its own.
pub open spec fn fallback_entry() -> ErrorEntry {
    ErrorEntry {
        code: 501,
        title: "Not Implemented"@,
        message: "The requested service is not available at this endpoint."@,
    }
}

/// The entry behind the default response: the last of `entries` with the
/// code `default_status`, or the fallback entry where there is none.
pub open spec fn default_entry(entries: Seq<ErrorEntry>, default_status: u16) -> ErrorEntry
    decreases entries.len(),
{
    if entries.len() == 0 {
        fallback_entry()
    } else if entries.last().code == default_status {
        entries.last()
    } else {
        default_entry(entries.drop_last(), default_status)
    }
}

/// Whether the codes of `entries` are all different.
pub open spec fn distinct_codes(entries: Seq<ErrorEntry>) -> bool {
    forall|i: int, j: int|
        0 <= i < j < entries.len() ==> (#[trigger] entries[i]).code != (#[trigger] entries[j]).code
}

/// Whether `path` is the path of none of `entries`.
pub open spec fn unregistered(entries: Seq<ErrorEntry>, path: Seq<char>) -> bool {
    forall|i: int| 0 <= i < entries.len() ==> well_known_path((#[trigger] entries[i]).code) != path
}

/// Whether none of `entries` has the code `status`.
pub open spec fn unlisted(entries: Seq<ErrorEntry>, status: u16) -> bool {
    forall|i: int| 0 <= i < entries.len() ==> (#[trigger] entries[i]).code != status
}

/// The service: the cache of rendered pages and the default response.
pub struct ErrorService {
    default: RenderedResponse,
    cache: StringHashMap<RenderedResponse>,
}

impl ErrorService {
    /// The cached pages, by path.
    pub closed spec fn cache(&self) -> Map<Seq<char>, ResponseView> {
        self.cache@.map_values(|response: RenderedResponse| response@)
    }

    /// The response to a path that nothing else answers.
    pub closed spec fn default_response(&self) -> ResponseView {
        self.default@
    }

    /// What this service answers to a request for `path`.
    pub open spec fn answer(&self, path: Seq<char>) -> ResponseView {
        dispatch(self.cache(), self.default_response(), path)
    }

    /// Whether this service holds the pages of `entries`, and the default
    /// for `default_status`, all built from the given assets.
    pub open spec fn serves(
        &self,
        entries: Seq<ErrorEntry>,
        default_status: u16,
        template: Option<Seq<char>>,
        stylesheet: Seq<char>,
    ) -> bool {
        &&& self.cache() == cache_of(entries, template, stylesheet)
        &&& self.default_response() == page(
            default_entry(entries, default_status),
            template,
            stylesheet,
        )
    }

    /// Renders the page of every one of `entries` from the given assets, and
    /// the default response for `default_status`.
    pub fn from_registry(
        entries: &[ErrorType],
        default_status: u16,
        template: Option<&str>,
        stylesheet: &str,
    ) -> (service: Self)
        ensures
            service.serves(entries_of(entries@), default_status, text_of(template), stylesheet@),
    {
        let mut cache: StringHashMap<RenderedResponse> = StringHashMap::new();
        let mut default = ErrorType::new(
            501,
            "Not Implemented",
            "The requested service is not available at this endpoint.",
        ).build_response(template, stylesheet);
        let mut i: usize = 0;
        while i < entries.len()
            invariant
                0 <= i <= entries.len(),
                cache@.map_values(|response: RenderedResponse| response@) == cache_of(
                    entries_of(entries@).take(i as int),
                    text_of(template),
                    stylesheet@,
                ),
                default@ == page(
                    default_entry(entries_of(entries@).take(i as int), default_status),
                    text_of(template),
                    stylesheet@,
                ),
            decreases entries.len() - i,
        {
            let error = &entries[i];
            assert(entries_of(entries@).take(i + 1).drop_last() =~= entries_of(entries@).take(
                i as int,
            ));
            let response = error.build_response(template, stylesheet);
            if error.code() == default_status {
                default = response.clone();
            }
            cache.insert(error.path(), response);
            i += 1;
        }
        assert(entries_of(entries@).take(i as int) =~= entries_of(entries@));
        ErrorService { default, cache }
    }

    /// Renders every page of the built-in registry from the built-in assets,
    /// and the default response for `default_status`.
    pub fn new(default_status: u16) -> (service: Self)
        ensures
            service.serves(
                registry(),
                default_status,
                asset(TEMPLATE_NAME@),
                built_in_stylesheet(),
            ),
    {
        let entries = errors();
        let stylesheet = match get_static(STYLESHEET_NAME) {
            Some(css) => css,
            None => String::new(),
        };
        match get_static(TEMPLATE_NAME) {
            Some(template) => Self::from_registry(
                entries.as_slice(),
                default_status,
                Some(template.as_str()),
                stylesheet.as_str(),
            ),
            None => Self::from_registry(
                entries.as_slice(),
                default_status,
                None,
                stylesheet.as_str(),
            ),
        }
    }

    /// Answers a request for `path`, with a copy of what the service holds.
    pub fn call(&self, path: &str) -> (response: RenderedResponse)
        ensures
            response@ == self.answer(path@),
    {
        if str_eq(path, HEALTH_PATH) {
            return RenderedResponse::empty(200);
        }
        if str_eq(path, FAVICON_PATH) {
            return RenderedResponse::empty(404);
        }
        match self.cache.get(path) {
            Some(response) => response.clone(),
            None => match self.cache.get(FALLBACK_KEY) {
                Some(response) => response.clone(),
                None => self.default.clone(),
            },
        }
    }
}

/// Different codes have different paths.
pub proof fn lemma_path_injective(a: u16, b: u16)
    requires
        well_known_path(a) == well_known_path(b),
    ensures
        a == b,
{
    let prefix = PATH_PREFIX@;
    assert(well_known_path(a).subrange(prefix.len() as int, well_known_path(a).len() as int)
        =~= decimal(a as nat));
    assert(well_known_path(b).subrange(prefix.len() as int, well_known_path(b).len() as int)
        =~= decimal(b as nat));
    lemma_decimal_injective(a as nat, b as nat);
}

/// The path of a page is neither of the two fixed paths, nor the fallback key.
pub proof fn lemma_path_not_reserved(code: u16)
    ensures
        well_known_path(code) != HEALTH_PATH@,
        well_known_path(code) != FAVICON_PATH@,
        well_known_path(code) != FALLBACK_KEY@,
{
    reveal_strlit("/.well-known/http-");
    reveal_strlit("/.well-known/health");
    reveal_strlit("/favicon.ico");
    reveal_strlit("/504");
    let path = well_known_path(code);
    assert(path[14] == 't');
    assert(path[1] == '.');
}

/// The cache holds a page under a path exactly when the path is that of one
/// of the entries.
pub proof fn lemma_cache_keys(
    entries: Seq<ErrorEntry>,
    template: Option<Seq<char>>,
    stylesheet: Seq<char>,
    path: Seq<char>,
)
    ensures
        cache_of(entries, template, stylesheet).contains_key(path) <==> exists|i: int|
            0 <= i < entries.len() && well_known_path((#[trigger] entries[i]).code) == path,
    decreases entries.len(),
{
    if entries.len() > 0 {
        let front = entries.drop_last();
        lemma_cache_keys(front, template, stylesheet, path);
        if exists|i: int|
            0 <= i < entries.len() && well_known_path((#[trigger] entries[i]).code) == path {
            let i = choose|i: int|
                0 <= i < entries.len() && well_known_path((#[trigger] entries[i]).code) == path;
            if i < entries.len() - 1 {
                assert(front[i] == entries[i]);
            }
        }
    }
}

/// Where the codes are all different, the cache holds under the path of each
/// entry the page of that entry.
pub proof fn lemma_cache_lookup(
    entries: Seq<ErrorEntry>,
    template: Option<Seq<char>>,
    stylesheet: Seq<char>,
    i: int,
)
    requires
        distinct_codes(entries),
        0 <= i < entries.len(),
    ensures
        cache_of(entries, template, stylesheet).contains_key(well_known_path(entries[i].code)),
        cache_of(entries, template, stylesheet)[well_known_path(entries[i].code)] == page(
            entries[i],
            template,
            stylesheet,
        ),
    decreases entries.len(),
{
    let front = entries.drop_last();
    if i < entries.len() - 1 {
        if well_known_path(entries.last().code) == well_known_path(entries[i].code) {
            lemma_path_injective(entries.last().code, entries[i].code);
        }
        lemma_cache_lookup(front, template, stylesheet, i);
    }
}

/// Where the codes are all different, the default response stands for the
/// entry with the configured status, and for the fallback entry where no
/// entry has it.
pub proof fn lemma_default_entry(entries: Seq<ErrorEntry>, default_status: u16)
    requires
        distinct_codes(entries),
    ensures
        forall|i: int|
            0 <= i < entries.len() && (#[trigger] entries[i]).code == default_status
                ==> default_entry(entries, default_status) == entries[i],
        (forall|i: int| 0 <= i < entries.len() ==> (#[trigger] entries[i]).code != default_status)
            ==> default_entry(entries, default_status) == fallback_entry(),
    decreases entries.len(),
{
    if entries.len() > 0 {
        let front = entries.drop_last();
        lemma_default_entry(front, default_status);
        assert forall|i: int|
            0 <= i < entries.len() && (#[trigger] entries[i]).code
                == default_status implies default_entry(entries, default_status)
            == entries[i] by {
            if i < entries.len() - 1 {
                assert(front[i] == entries[i]);
            }
        }
    }
}

/// The health check is answered with 200 and an empty body, whatever the
/// service holds.
pub proof fn lemma_health_check(service: ErrorService)
    ensures
        service.answer(HEALTH_PATH@) == health_response(),
        service.answer(HEALTH_PATH@).status == 200,
        service.answer(HEALTH_PATH@).body.len() == 0,
{
}

/// A request for the icon is answered with 404 and an empty body, whatever
/// the service holds.
pub proof fn lemma_favicon(service: ErrorService)
    ensures
        service.answer(FAVICON_PATH@) == favicon_response(),
        service.answer(FAVICON_PATH@).status == 404,
        service.answer(FAVICON_PATH@).body.len() == 0,
{
    reveal_strlit("/.well-known/health");
    reveal_strlit("/favicon.ico");
    assert(FAVICON_PATH@.len() != HEALTH_PATH@.len());
}

/// Where the codes are all different, the path of each entry is answered
/// with the page of that entry, whatever the default is: the status is the
/// code of the entry, and the page is HTML where there is a template, plain
/// text where there is none.
pub proof fn lemma_known_code(
    service: ErrorService,
    entries: Seq<ErrorEntry>,
    default_status: u16,
    template: Option<Seq<char>>,
    stylesheet: Seq<char>,
    i: int,
)
    requires
        service.serves(entries, default_status, template, stylesheet),
        distinct_codes(entries),
        0 <= i < entries.len(),
    ensures
        service.answer(well_known_path(entries[i].code)) == page(entries[i], template, stylesheet),
        service.answer(well_known_path(entries[i].code)).status == entries[i].code,
        service.answer(well_known_path(entries[i].code)).content_type == if template is Some {
            Some(TEXT_HTML@)
        } else {
            Some(TEXT_PLAIN@)
        },
{
    lemma_path_not_reserved(entries[i].code);
    lemma_cache_lookup(entries, template, stylesheet, i);
}

/// With the built-in registry and assets, the path of each entry is answered
/// with an HTML page that has the code of the entry for status and shows
/// its title and its message.
pub proof fn lemma_built_in_page(service: ErrorService, default_status: u16, i: int)
    requires
        service.serves(registry(), default_status, asset(TEMPLATE_NAME@), built_in_stylesheet()),
        0 <= i < registry().len(),
    ensures
        service.answer(well_known_path(registry()[i].code)).status == registry()[i].code,
        service.answer(well_known_path(registry()[i].code)).content_type == Some(TEXT_HTML@),
        occurs_in(registry()[i].title, service.answer(well_known_path(registry()[i].code)).body),
        occurs_in(registry()[i].message, service.answer(well_known_path(registry()[i].code)).body),
{
    lemma_assets();
    lemma_template_names_entry();
    lemma_registry_codes();
    lemma_known_code(
        service,
        registry(),
        default_status,
        asset(TEMPLATE_NAME@),
        built_in_stylesheet(),
        i,
    );
    lemma_page_shows_entry(registry()[i], asset(TEMPLATE_NAME@), built_in_stylesheet());
}

/// A path that is neither fixed nor that of an entry is answered with the
/// default response: where the codes are all different, the page of the
/// entry with the configured status, or the fallback page, with status 501,
/// where no entry has that status.
pub proof fn lemma_unknown_path(
    service: ErrorService,
    entries: Seq<ErrorEntry>,
    default_status: u16,
    template: Option<Seq<char>>,
    stylesheet: Seq<char>,
    path: Seq<char>,
)
    requires
        service.serves(entries, default_status, template, stylesheet),
        distinct_codes(entries),
        path != HEALTH_PATH@,
        path != FAVICON_PATH@,
        unregistered(entries, path),
    ensures
        service.answer(path) == service.default_response(),
        forall|i: int|
            0 <= i < entries.len() && (#[trigger] entries[i]).code == default_status
                ==> service.answer(path) == page(entries[i], template, stylesheet)
                && service.answer(path).status == default_status,
        unlisted(entries, default_status) ==> service.answer(path) == page(
            fallback_entry(),
            template,
            stylesheet,
        ) && service.answer(path).status == 501,
{
    lemma_default_entry(entries, default_status);
    lemma_cache_keys(entries, template, stylesheet, path);
    lemma_cache_keys(entries, template, stylesheet, FALLBACK_KEY@);
    assert forall|i: int| 0 <= i < entries.len() implies well_known_path(
        (#[trigger] entries[i]).code,
    ) != FALLBACK_KEY@ by {
        lemma_path_not_reserved(entries[i].code);
    }
}

} // verus!
