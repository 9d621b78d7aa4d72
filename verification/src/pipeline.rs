use vstd::prelude::*;

use crate::cache::ResponseCache;
use crate::cache::spec_fresh;
use crate::errors::IconError;
use crate::icon::Icon;
use crate::icon::spec_validate;
use crate::parse::parse_icon_path;
use crate::parse::spec_parse;
use crate::render::CachedResponse;
use crate::render::FRESHNESS_SECONDS;
use crate::render::RespView;
use crate::render::generate_icon;
use crate::render::is_png_signature;
use crate::render::make_response;
use crate::source::SourceFormat;
use crate::source::decode_source_image;
use crate::source::spec_decoded;
use crate::source::spec_detect;

verus! {

/// What a request comes to before any outbound work: rejected outright,
/// served from the cache, or in need of a source fetch.
pub enum RequestStep {
    /// The path or the size was rejected; the error says which check failed
    /// and `IconError::status` how to answer.
    Reject { error: IconError },
    /// A fresh response is stored under this URL: serve it verbatim.
    Cached { response: CachedResponse },
    /// Parsing and validation passed but nothing fresh is cached: fetch the
    /// source, then finish with `complete_miss`.
    NeedFetch { icon: Icon },
}

/// The decision the start of a request owes, as a function of the path, the
/// cache key, the clock and the cache contents: a path the grammar rejects
/// (or whose size overflows) is a path mismatch; an accepted size outside
/// the bounds is rejected by the validator's first failing check; a valid
/// size is served from the cache exactly when a fresh response sits under
/// the key, and otherwise waits for a fetch.
pub open spec fn spec_begin(
    step: RequestStep,
    path: Seq<char>,
    key: Seq<char>,
    now: u64,
    m: Map<Seq<char>, (RespView, u64)>,
) -> bool {
    match spec_parse(path) {
        None => step matches RequestStep::Reject { error }
            && error matches IconError::PathMismatch { path: p } && p@ == path,
        Some(dims) => if dims.0 > u32::MAX || dims.1 > u32::MAX {
            step matches RequestStep::Reject { error }
                && error matches IconError::PathMismatch { path: p } && p@ == path
        } else {
            let icon = Icon { width: dims.0 as u32, height: dims.1 as u32 };
            match spec_validate(icon) {
                Err(e) => step matches RequestStep::Reject { error } && error == e,
                Ok(_) => if m.contains_key(key) && spec_fresh(m[key].1, m[key].0.max_age, now) {
                    step matches RequestStep::Cached { response } && response@ == m[key].0
                } else {
                    step matches RequestStep::NeedFetch { icon: i } && i == icon
                },
            }
        },
    }
}

/// Starts a request: parses the path, validates the size, and consults the
/// cache under the full-URL key, strictly in that order, so that any parse
/// or validation failure short-circuits before any cache or network work.
pub fn begin_request(path: &str, url: &String, now: u64, cache: &ResponseCache) -> (step:
    RequestStep)
    ensures
        spec_begin(step, path@, url@, now, cache@),
{
    let icon = match parse_icon_path(path) {
        Ok(icon) => icon,
        Err(e) => { return RequestStep::Reject { error: e } },
    };
    if let Err(e) = icon.validate() {
        return RequestStep::Reject { error: e };
    }
    match cache.lookup(url, now) {
        Some(resp) => RequestStep::Cached { response: resp.duplicate() },
        None => RequestStep::NeedFetch { icon },
    }
}

/// The answer a finished miss owes, driven by the content-type the source
/// answered with and the body bytes: a missing or unrecognized header is an
/// unknown source format carrying that header; under a recognized format, a
/// body that decodes yields a response whose PNG bytes decode back to
/// exactly the validated dimensions, within the freshness window — and only
/// a body that does not decode fails, with the decoder's diagnostic.
pub open spec fn miss_outcome(
    r: Result<CachedResponse, IconError>,
    ct: Option<String>,
    body: Seq<u8>,
    icon: Icon,
) -> bool {
    match ct {
        None => r matches Err(e) && e matches IconError::UnknownSourceFormat {
            content_type: c,
        } && c is None,
        Some(t) => match spec_detect(t@) {
            None => r matches Err(e) && e matches IconError::UnknownSourceFormat {
                content_type: c,
            } && c matches Some(u) && u@ == t@,
            Some(f) => match spec_decoded(body, f) {
                Some(_) => r matches Ok(resp) && is_png_signature(resp@.body)
                    && resp@.max_age == FRESHNESS_SECONDS && spec_decoded(
                    resp@.body,
                    SourceFormat::Png,
                ) == Some(((icon.width as nat), (icon.height as nat))),
                None => r matches Err(e) && e matches IconError::DecodeError { .. },
            },
        },
    }
}

/// Finishes a cache miss from the fetched source response: decodes the body
/// as the format the content-type names, renders the icon at exactly the
/// validated dimensions, encodes it as PNG, and stores the response under
/// the key before handing it back. Success is owed exactly when the header
/// is recognized and the body decodes; the stored entry and the returned
/// response are then the same bytes. On any failure the cache is left
/// untouched and the next request repeats the miss path.
pub fn complete_miss(
    cache: &mut ResponseCache,
    url: &String,
    now: u64,
    icon: &Icon,
    body: &Vec<u8>,
    content_type: &Option<String>,
) -> (r: Result<CachedResponse, IconError>)
    requires
        icon.spec_valid(),
    ensures
        miss_outcome(r, *content_type, body@, *icon),
        r matches Ok(resp) ==> final(cache)@ == old(cache)@.insert(url@, (resp@, now)),
        r is Err ==> final(cache)@ == old(cache)@,
{
    let source = match decode_source_image(body, content_type) {
        Ok(img) => img,
        Err(e) => { return Err(e) },
    };
    let icon_img = generate_icon(icon, &source);
    let response = match make_response(&icon_img) {
        Ok(resp) => resp,
        Err(e) => { return Err(e) },
    };
    cache.store(url.clone(), response.duplicate(), now);
    Ok(response)
}

/// The first request's half of the single-fetch story: while the cache
/// holds nothing under the key, an admitted request (its path parses to a
/// valid square size) must fetch — the decision is exactly one `NeedFetch`
/// — and when the source then answers with a recognized format and a body
/// that decodes, the miss cannot fail: the response is built (and, by
/// `complete_miss`, stored). `lemma_replay_within_window_hits` finishes the
/// story: every replay within the window is served those stored bytes.
pub proof fn lemma_unheld_key_fetches_once(
    step: RequestStep,
    path: Seq<char>,
    key: Seq<char>,
    now: u64,
    m: Map<Seq<char>, (RespView, u64)>,
    icon: Icon,
    ct: Option<String>,
    body: Seq<u8>,
    r: Result<CachedResponse, IconError>,
)
    requires
        spec_begin(step, path, key, now, m),
        spec_parse(path) matches Some(dims) && dims.0 <= u32::MAX && dims.1 <= u32::MAX && icon
            == (Icon { width: dims.0 as u32, height: dims.1 as u32 }) && spec_validate(icon) is Ok,
        !m.contains_key(key),
        miss_outcome(r, ct, body, icon),
    ensures
        step matches RequestStep::NeedFetch { icon: i } && i == icon,
        ct matches Some(t) && spec_detect(t@) matches Some(f) && spec_decoded(body, f) is Some
            ==> r is Ok,
{
}

/// A replay within the freshness window is served from the cache: once a
/// response is stored under a request's key, the same admitted request (its
/// path parses to a valid square size), started again at any time before
/// `max_age` seconds have passed, is answered with exactly the stored
/// response — byte for byte, and with no second fetch.
pub proof fn lemma_replay_within_window_hits(
    step: RequestStep,
    path: Seq<char>,
    key: Seq<char>,
    m: Map<Seq<char>, (RespView, u64)>,
    resp: RespView,
    t_store: u64,
    t_lookup: u64,
)
    requires
        spec_begin(step, path, key, t_lookup, m.insert(key, (resp, t_store))),
        spec_parse(path) matches Some(dims) && dims.0 <= u32::MAX && dims.1 <= u32::MAX
            && spec_validate((Icon { width: dims.0 as u32, height: dims.1 as u32 })) is Ok,
        t_store <= t_lookup < t_store + resp.max_age,
    ensures
        step matches RequestStep::Cached { response } && response@ == resp,
{
}

/// Once the freshness window has elapsed, the entry counts as absent: the
/// same admitted request, started at or after `t_store + max_age` (with no
/// later store under the key), triggers a new fetch.
pub proof fn lemma_replay_after_window_fetches(
    step: RequestStep,
    path: Seq<char>,
    key: Seq<char>,
    m: Map<Seq<char>, (RespView, u64)>,
    resp: RespView,
    t_store: u64,
    t_lookup: u64,
)
    requires
        spec_begin(step, path, key, t_lookup, m.insert(key, (resp, t_store))),
        spec_parse(path) matches Some(dims) && dims.0 <= u32::MAX && dims.1 <= u32::MAX
            && spec_validate((Icon { width: dims.0 as u32, height: dims.1 as u32 })) is Ok,
        t_lookup >= t_store + resp.max_age,
    ensures
        step matches RequestStep::NeedFetch { .. },
{
}

} // verus!
