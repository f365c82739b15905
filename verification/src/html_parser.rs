//! Extraction of raw event records from page text, driven by a per-site
//! configuration: either a walk over DOM elements addressed by CSS
//! selectors, or a read of an embedded structured-data block.
//!
//! Every extraction result is pinned to the plain input strings: the DOM
//! path's events are stated over `match_count`, `text_at` and `attr_at` of
//! (page text, selector strings), and the structured path's events over the
//! JSON names of the embedded payload text.

use vstd::prelude::*;
use crate::dom::{
    attr_at, inner_payload, match_count, parse_document, parse_selector, payload_of,
    select_matches, selector_ok, text_at, text_of_first, attr_of_first, Doc, Elem, Sel,
};
use crate::json::{
    json_event_count, json_field2_str, json_field_str, json_parses, obj_field2_str, obj_field_str,
    parse_payload, EventObj,
};
use crate::text::{opt_text, str_or_empty};
use crate::urls::{join_url, url_join_ok, url_joined};

verus! {

/// Site-specific configuration: where each event field lives in the site's
/// markup. When `event_selector` equals the structured-data marker, the
/// other field selectors are ignored and the embedded data block is read
/// instead.
#[derive(Debug, Clone, PartialEq)]
pub struct SiteConfig {
    pub event_selector: String,
    pub name_selector: String,
    pub start_date_selector: String,
    pub end_date_selector: String,
    pub location_selector: String,
    pub url: String,
}

/// A raw event as extracted from a page, every field possibly empty.
#[derive(Debug, Clone, PartialEq)]
pub struct Event {
    pub name: String,
    pub start_date: String,
    pub end_date: String,
    pub location: String,
    pub url: String,
}

/// A configuration error that is fatal to the whole extraction call.
#[derive(Debug, Clone, Copy, PartialEq, Eq)]
pub enum ConfigError {
    /// A selector string in the configuration is not valid selector syntax.
    InvalidSelector,
    /// The base URL does not parse as an absolute URL, or a link cannot be
    /// resolved against it.
    InvalidBaseUrl,
}

/// Resolves a possibly-relative reference against an absolute base URL.
///
/// An empty reference resolves to the base URL itself (without any
/// fragment), following the `url` crate's join semantics.
pub fn resolve_url(base: &str, relative: &str) -> (r: Result<String, ConfigError>)
    ensures
        r matches Ok(s) ==> url_join_ok(base@, relative@) && s@ == url_joined(base@, relative@),
        r is Err ==> r == Err::<String, ConfigError>(ConfigError::InvalidBaseUrl) && !url_join_ok(
            base@,
            relative@,
        ),
{
    match join_url(base, relative) {
        Some(s) => Ok(s),
        None => Err(ConfigError::InvalidBaseUrl),
    }
}

/// The selector string that switches a configuration into structured-data
/// mode instead of naming real event containers.
pub open spec fn structured_marker() -> Seq<char> {
    "script[type='application/ld+json']"@
}

/// Whether the configuration selects the structured-data extraction path.
pub open spec fn is_structured_mode(config: SiteConfig) -> bool {
    config.event_selector@ == structured_marker()
}

/// Whether every selector the DOM path uses is valid selector syntax.
pub open spec fn dom_selectors_ok(config: SiteConfig) -> bool {
    &&& selector_ok(config.event_selector@)
    &&& selector_ok(config.name_selector@)
    &&& selector_ok(config.start_date_selector@)
    &&& selector_ok(config.end_date_selector@)
    &&& selector_ok(config.location_selector@)
    &&& selector_ok(config.url@)
}

/// Whether the extraction result is the given configuration error.
pub open spec fn is_config_err(r: Result<Vec<Event>, ConfigError>, e: ConfigError) -> bool {
    match r {
        Err(err) => err == e,
        Ok(_) => false,
    }
}

/// The text of the first `field` match within the `i`-th event block, with
/// a missing field defaulting to the empty string.
pub open spec fn field_text(page: Seq<char>, c: SiteConfig, i: int, field: Seq<char>) -> Seq<
    char,
> {
    str_or_empty(text_at(page, c.event_selector@, i, field))
}

/// The link reference of the `i`-th event block: the `href` of the first
/// link-selector match, with a missing link or attribute defaulting to the
/// empty reference.
pub open spec fn block_href(page: Seq<char>, c: SiteConfig, i: int) -> Seq<char> {
    str_or_empty(attr_at(page, c.event_selector@, i, c.url@, "href"@))
}

/// How the event extracted from the `i`-th DOM event block relates to the
/// page text: each text field is the first field-selector match's text and
/// the URL is the block's link reference resolved against `base`.
pub open spec fn event_matches_block(
    e: Event,
    page: Seq<char>,
    i: int,
    c: SiteConfig,
    base: Seq<char>,
) -> bool {
    &&& e.name@ == field_text(page, c, i, c.name_selector@)
    &&& e.start_date@ == field_text(page, c, i, c.start_date_selector@)
    &&& e.end_date@ == field_text(page, c, i, c.end_date_selector@)
    &&& e.location@ == field_text(page, c, i, c.location_selector@)
    &&& e.url@ == url_joined(base, block_href(page, c, i))
}

/// The DOM-path result: one event per container match, in document order.
pub open spec fn dom_events(
    page: Seq<char>,
    c: SiteConfig,
    base: Seq<char>,
    es: Seq<Event>,
) -> bool {
    &&& es.len() == match_count(page, c.event_selector@)
    &&& forall|i: int| 0 <= i < es.len() ==> event_matches_block(#[trigger] es[i], page, i, c, base)
}

/// Whether every event block's link reference resolves against `base`:
/// exactly when the DOM path succeeds.
pub open spec fn all_links_resolve(page: Seq<char>, c: SiteConfig, base: Seq<char>) -> bool {
    forall|i: int|
        0 <= i < match_count(page, c.event_selector@) ==> url_join_ok(
            base,
            #[trigger] block_href(page, c, i),
        )
}

/// How the event read from the `i`-th event object of a structured-data
/// payload relates to the payload text: the conventional `name`,
/// `startDate`, `endDate`, `location.name` and `url` fields, each
/// defaulting to the empty string when absent or not a string.
pub open spec fn event_matches_json(e: Event, payload: Seq<char>, i: int) -> bool {
    &&& e.name@ == str_or_empty(json_field_str(payload, i, "name"@))
    &&& e.start_date@ == str_or_empty(json_field_str(payload, i, "startDate"@))
    &&& e.end_date@ == str_or_empty(json_field_str(payload, i, "endDate"@))
    &&& e.location@ == str_or_empty(json_field2_str(payload, i, "location"@, "name"@))
    &&& e.url@ == str_or_empty(json_field_str(payload, i, "url"@))
}

/// The events a structured-data payload yields: none for malformed JSON,
/// one per event object otherwise, in order.
pub open spec fn payload_events(payload: Seq<char>, es: Seq<Event>) -> bool {
    if !json_parses(payload) {
        es.len() == 0
    } else {
        &&& es.len() == json_event_count(payload)
        &&& forall|i: int| 0 <= i < es.len() ==> event_matches_json(#[trigger] es[i], payload, i)
    }
}

/// The structured-path result: empty when no block matches the marker,
/// else the events of the first matching block's payload. The field
/// selectors of the configuration play no part.
pub open spec fn structured_events(page: Seq<char>, es: Seq<Event>) -> bool {
    if match_count(page, structured_marker()) == 0 {
        es.len() == 0
    } else {
        payload_events(inner_payload(page, structured_marker(), 0), es)
    }
}

/// The contained string, or the empty string for `None`.
fn or_empty(r: Option<String>) -> (s: String)
    ensures
        s@ == str_or_empty(opt_text(r)),
{
    match r {
        Some(s) => s,
        None => String::new(),
    }
}

/// One event read from one structured-data event object.
fn event_from_obj(o: &EventObj) -> (e: Event)
    ensures
        event_matches_json(e, o.text(), o.index()),
{
    Event {
        name: or_empty(obj_field_str(o, "name")),
        start_date: or_empty(obj_field_str(o, "startDate")),
        end_date: or_empty(obj_field_str(o, "endDate")),
        location: or_empty(obj_field2_str(o, "location", "name")),
        url: or_empty(obj_field_str(o, "url")),
    }
}

/// The events of one structured-data payload: none for malformed JSON, one
/// per event object otherwise, in order, with the conventional field
/// mapping.
pub fn events_from_payload(payload: &str) -> (es: Vec<Event>)
    ensures
        payload_events(payload@, es@),
{
    match parse_payload(payload) {
        None => Vec::new(),
        Some(objs) => {
            let mut es: Vec<Event> = Vec::new();
            let mut idx: usize = 0;
            while idx < objs.len()
                invariant
                    0 <= idx <= objs@.len(),
                    json_parses(payload@),
                    objs@.len() == json_event_count(payload@),
                    forall|i: int|
                        0 <= i < objs@.len() ==> (#[trigger] objs@[i]).text() == payload@
                            && objs@[i].index() == i,
                    es@.len() == idx,
                    forall|i: int|
                        0 <= i < idx ==> event_matches_json(#[trigger] es@[i], payload@, i),
                decreases objs@.len() - idx,
            {
                let e = event_from_obj(&objs[idx]);
                es.push(e);
                idx = idx + 1;
            }
            es
        },
    }
}

/// Structured-data extraction over an already-parsed document: read the
/// first block the marker selector matches and map its payload to events.
/// No matching block and malformed JSON both yield an empty sequence,
/// never an error.
fn extract_structured(doc: &Doc, sel: &Sel) -> (es: Vec<Event>)
    requires
        sel.source() == structured_marker(),
    ensures
        structured_events(doc.source(), es@),
{
    let blocks = select_matches(doc, sel);
    if blocks.len() == 0 {
        Vec::new()
    } else {
        let payload = payload_of(&blocks[0]);
        events_from_payload(payload.as_str())
    }
}

/// The compiled field selectors the DOM path reads within each event block.
struct FieldSelectors {
    name: Sel,
    start_date: Sel,
    end_date: Sel,
    location: Sel,
    link: Sel,
}

/// Whether the compiled field selectors came from the configuration's
/// selector strings.
spec fn sels_match_config(sels: FieldSelectors, c: SiteConfig) -> bool {
    &&& sels.name.source() == c.name_selector@
    &&& sels.start_date.source() == c.start_date_selector@
    &&& sels.end_date.source() == c.end_date_selector@
    &&& sels.location.source() == c.location_selector@
    &&& sels.link.source() == c.url@
}

/// One event read from one DOM event block: the text of the first match of
/// each field selector (empty when nothing matches), and the `href` of the
/// first link match resolved against the base URL.
fn event_from_block(
    el: &Elem<'_>,
    sels: &FieldSelectors,
    base_url: &str,
    Ghost(c): Ghost<SiteConfig>,
) -> (r: Result<Event, ConfigError>)
    requires
        el.container() == c.event_selector@,
        sels_match_config(*sels, c),
    ensures
        r is Ok <==> url_join_ok(base_url@, block_href(el.page(), c, el.index())),
        r matches Ok(e) ==> event_matches_block(e, el.page(), el.index(), c, base_url@),
        r is Err ==> r == Err::<Event, ConfigError>(ConfigError::InvalidBaseUrl),
{
    let relative = or_empty(attr_of_first(el, &sels.link, "href"));
    match resolve_url(base_url, relative.as_str()) {
        Ok(url) => Ok(
            Event {
                name: or_empty(text_of_first(el, &sels.name)),
                start_date: or_empty(text_of_first(el, &sels.start_date)),
                end_date: or_empty(text_of_first(el, &sels.end_date)),
                location: or_empty(text_of_first(el, &sels.location)),
                url,
            },
        ),
        Err(e) => Err(e),
    }
}

/// DOM extraction over an already-parsed document: one event per element
/// matching the container selector, in document order; zero matches give
/// an empty sequence, not an error. Fails exactly when some block's link
/// reference does not resolve against the base URL.
fn extract_dom(
    doc: &Doc,
    container: &Sel,
    sels: &FieldSelectors,
    base_url: &str,
    Ghost(c): Ghost<SiteConfig>,
) -> (r: Result<Vec<Event>, ConfigError>)
    requires
        container.source() == c.event_selector@,
        sels_match_config(*sels, c),
    ensures
        r is Ok <==> all_links_resolve(doc.source(), c, base_url@),
        r matches Ok(es) ==> dom_events(doc.source(), c, base_url@, es@),
        r is Err ==> r == Err::<Vec<Event>, ConfigError>(ConfigError::InvalidBaseUrl),
{
    let blocks = select_matches(doc, container);
    let mut events: Vec<Event> = Vec::new();
    let mut idx: usize = 0;
    while idx < blocks.len()
        invariant
            0 <= idx <= blocks@.len(),
            blocks@.len() == match_count(doc.source(), c.event_selector@),
            forall|i: int|
                0 <= i < blocks@.len() ==> (#[trigger] blocks@[i]).page() == doc.source()
                    && blocks@[i].container() == c.event_selector@ && blocks@[i].index() == i,
            sels_match_config(*sels, c),
            events@.len() == idx,
            forall|i: int|
                0 <= i < idx ==> event_matches_block(#[trigger] events@[i], doc.source(), i, c, base_url@),
            forall|i: int| 0 <= i < idx ==> url_join_ok(base_url@, #[trigger] block_href(doc.source(), c, i)),
        decreases blocks@.len() - idx,
    {
        match event_from_block(&blocks[idx], sels, base_url, Ghost(c)) {
            Ok(e) => events.push(e),
            Err(er) => {
                return Err(er);
            },
        }
        idx = idx + 1;
    }
    Ok(events)
}

/// Extracts raw events from page text, as the configuration directs.
///
/// In structured-data mode (the container selector equals the marker) the
/// first marker-matching block is parsed as JSON and mapped to events; a
/// missing block or malformed payload yields an empty sequence. Otherwise
/// every container match becomes one event, in document order, with field
/// texts read by the field selectors and the link resolved against
/// `base_url`. An invalid selector or base URL is a configuration error,
/// fatal to the whole call.
pub fn parse_html(html: &str, config: &SiteConfig, base_url: &str) -> (r: Result<
    Vec<Event>,
    ConfigError,
>)
    ensures
        is_structured_mode(*config) ==> (is_config_err(r, ConfigError::InvalidSelector)
            <==> !selector_ok(structured_marker())),
        is_structured_mode(*config) && selector_ok(structured_marker()) ==> r is Ok,
        is_structured_mode(*config) ==> (r matches Ok(es) ==> structured_events(html@, es@)),
        !is_structured_mode(*config) ==> (is_config_err(r, ConfigError::InvalidSelector)
            <==> !dom_selectors_ok(*config)),
        !is_structured_mode(*config) && dom_selectors_ok(*config) ==> (r is Ok
            <==> all_links_resolve(html@, *config, base_url@)),
        !is_structured_mode(*config) ==> (r matches Ok(es) ==> dom_events(
            html@,
            *config,
            base_url@,
            es@,
        )),
        is_config_err(r, ConfigError::InvalidBaseUrl) ==> !is_structured_mode(*config)
            && dom_selectors_ok(*config),
{
    let document = parse_document(html);
    let marker = "script[type='application/ld+json']";
    let marker_string = marker.to_owned();
    if config.event_selector.eq(&marker_string) {
        match parse_selector(marker) {
            Some(sel) => Ok(extract_structured(&document, &sel)),
            None => Err(ConfigError::InvalidSelector),
        }
    } else {
        let container = match parse_selector(config.event_selector.as_str()) {
            Some(s) => s,
            None => {
                return Err(ConfigError::InvalidSelector);
            },
        };
        let name = match parse_selector(config.name_selector.as_str()) {
            Some(s) => s,
            None => {
                return Err(ConfigError::InvalidSelector);
            },
        };
        let start_date = match parse_selector(config.start_date_selector.as_str()) {
            Some(s) => s,
            None => {
                return Err(ConfigError::InvalidSelector);
            },
        };
        let end_date = match parse_selector(config.end_date_selector.as_str()) {
            Some(s) => s,
            None => {
                return Err(ConfigError::InvalidSelector);
            },
        };
        let location = match parse_selector(config.location_selector.as_str()) {
            Some(s) => s,
            None => {
                return Err(ConfigError::InvalidSelector);
            },
        };
        let link = match parse_selector(config.url.as_str()) {
            Some(s) => s,
            None => {
                return Err(ConfigError::InvalidSelector);
            },
        };
        let sels = FieldSelectors { name, start_date, end_date, location, link };
        extract_dom(&document, &container, &sels, base_url, Ghost(*config))
    }
}

} // verus!
