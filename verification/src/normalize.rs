//! Collapsing the bridge's two response shapes into one result.
//!
//! The bridge answers some calls with a bare object and others with an array
//! of objects that wrap their payload under `"success"` or report a failure
//! under `"error"`. [`normalize`] turns either shape into a single document
//! with the envelopes stripped, or into the first error the body reports.

use crate::error::{ApiError, ApiErrorView};
use crate::json::{find_member, lemma_items_view, lemma_lookup_at_position, lemma_members_view};
use crate::json::{items_view, members_view, Json, JsonView};
use vstd::prelude::*;

verus! {

/// Key under which the bridge reports a failure.
pub const ERROR_KEY: &'static str = "error";

/// Key under which the bridge wraps the payload of a successful call.
pub const SUCCESS_KEY: &'static str = "success";

/// Key of the numeric code inside an error object.
pub const TYPE_KEY: &'static str = "type";

/// Key of the text inside an error object.
pub const DESCRIPTION_KEY: &'static str = "description";

/// Description reported when the error object carries no usable text.
pub const NO_ERROR_DESCRIPTION: &'static str = "no error description";

/// Reason reported when the body is neither an object nor an array.
pub const UNEXPECTED_SHAPE: &'static str = "response is neither an object nor an array";

/// The code of an error object: its integral `"type"`, and 0 when the value
/// is no object or has no such entry.
pub open spec fn error_code(error: JsonView) -> int {
    match error.get(TYPE_KEY@) {
        Some(JsonView::Int(n)) => n,
        _ => 0,
    }
}

/// The text of an error object: its `"description"` string, and
/// [`NO_ERROR_DESCRIPTION`] when the value is no object or has no such entry.
pub open spec fn error_description(error: JsonView) -> Seq<char> {
    match error.get(DESCRIPTION_KEY@) {
        Some(JsonView::Str(text)) => text,
        _ => NO_ERROR_DESCRIPTION@,
    }
}

/// The error that the value stored under `"error"` stands for.
pub open spec fn bridge_error(error: JsonView, url: Seq<char>) -> ApiErrorView {
    ApiErrorView::BridgeApi {
        code: error_code(error),
        description: error_description(error),
        url,
    }
}

/// The value under `"error"` of the first element at or after `from` that is
/// an object with that key.
pub open spec fn first_error_from(items: Seq<JsonView>, from: int) -> Option<JsonView>
    decreases items.len() - from,
{
    if from < 0 || from >= items.len() {
        None
    } else if items[from].has_key(ERROR_KEY@) {
        items[from].get(ERROR_KEY@)
    } else {
        first_error_from(items, from + 1)
    }
}

/// A value without its `"success"` envelope: the wrapped payload when the
/// value is an object with that key, the value itself otherwise.
pub open spec fn unwrapped(value: JsonView) -> JsonView {
    match value.get(SUCCESS_KEY@) {
        Some(payload) => payload,
        None => value,
    }
}

/// What a decoded 2xx body resolves to.
///
/// An array resolves to the first error any of its elements reports, and
/// without one to the array of its elements, each without its envelope. An
/// object resolves to the error it reports, and without one to itself without
/// its envelope. Anything else is malformed.
pub open spec fn normalized(body: JsonView, url: Seq<char>) -> Result<JsonView, ApiErrorView> {
    match body {
        JsonView::Array(items) => match first_error_from(items, 0) {
            Some(error) => Err(bridge_error(error, url)),
            None => Ok(JsonView::Array(Seq::new(items.len(), |i: int| unwrapped(items[i])))),
        },
        JsonView::Object(_) => match body.get(ERROR_KEY@) {
            Some(error) => Err(bridge_error(error, url)),
            None => Ok(unwrapped(body)),
        },
        _ => Err(ApiErrorView::MalformedResponse { reason: UNEXPECTED_SHAPE@ }),
    }
}

/// The model of an operation's outcome.
pub open spec fn outcome_view(outcome: Result<Json, ApiError>) -> Result<JsonView, ApiErrorView> {
    match outcome {
        Ok(value) => Ok(value@),
        Err(error) => Err(error@),
    }
}

/// Builds the error that the value stored under `"error"` stands for.
/// Fields that are missing or of the wrong type take their defaults.
pub fn parse_error(error: &Json, url: &str) -> (r: ApiError)
    ensures
        r@ == bridge_error(error@, url@),
{
    let code: i64 = match error.get(TYPE_KEY) {
        Some(value) => match value.as_int() {
            Some(n) => n,
            None => 0,
        },
        None => 0,
    };
    let description = match error.get(DESCRIPTION_KEY) {
        Some(value) => match value.as_str() {
            Some(text) => text.clone(),
            None => String::from_str(NO_ERROR_DESCRIPTION),
        },
        None => String::from_str(NO_ERROR_DESCRIPTION),
    };
    ApiError::BridgeApi { code, description, url: String::from_str(url) }
}

/// Strips the `"success"` envelope from a value that has one.
pub fn unwrap_success(value: Json) -> (r: Json)
    ensures
        r@ == unwrapped(value@),
{
    match value {
        Json::Object(mut members) => {
            proof {
                lemma_members_view(members@);
                lemma_lookup_at_position(members_view(members@), SUCCESS_KEY@, 0);
            }
            match find_member(&members, SUCCESS_KEY) {
                Some(at) => {
                    let member = members.remove(at);
                    member.value
                },
                None => Json::Object(members),
            }
        },
        other => other,
    }
}

/// Resolves the decoded body of a 2xx response.
pub fn normalize(body: Json, url: &str) -> (r: Result<Json, ApiError>)
    ensures
        outcome_view(r) == normalized(body@, url@),
{
    match body {
        Json::Array(items) => {
            let ghost source = items_view(items@);
            proof {
                lemma_items_view(items@);
            }
            let mut out: Vec<Json> = Vec::new();
            for item in it: items
                invariant
                    source == items_view(items@),
                    source.len() == items@.len(),
                    forall|j: int| 0 <= j < items@.len() ==> (#[trigger] source[j]) == items@[j]@,
                    it.seq() == items@,
                    body@ == JsonView::Array(source),
                    out@.len() == it.index(),
                    first_error_from(source, 0) == first_error_from(source, it.index() as int),
                    forall|j: int| 0 <= j < out@.len() ==> (#[trigger] out@[j])@ == unwrapped(source[j]),
            {
                match item.get(ERROR_KEY) {
                    Some(error) => {
                        return Err(parse_error(error, url));
                    },
                    None => {},
                }
                out.push(unwrap_success(item));
            }
            proof {
                lemma_items_view(out@);
                assert(items_view(out@) =~= Seq::new(source.len(), |i: int| unwrapped(source[i])));
            }
            Ok(Json::Array(out))
        },
        Json::Object(members) => {
            let document = Json::Object(members);
            match document.get(ERROR_KEY) {
                Some(error) => {
                    return Err(parse_error(error, url));
                },
                None => {},
            }
            Ok(unwrap_success(document))
        },
        _ => Err(ApiError::MalformedResponse { reason: String::from_str(UNEXPECTED_SHAPE) }),
    }
}

/// The first element that reports an error decides alone: when no element
/// before position `at` is an object with an `"error"` entry and the one at
/// `at` is, the array resolves to that error, whatever follows it.
pub proof fn lemma_first_error_wins(items: Seq<JsonView>, at: int, url: Seq<char>)
    requires
        0 <= at < items.len(),
        items[at].has_key(ERROR_KEY@),
        forall|j: int| 0 <= j < at ==> !(#[trigger] items[j]).has_key(ERROR_KEY@),
    ensures
        normalized(JsonView::Array(items), url) == Err::<JsonView, ApiErrorView>(
            bridge_error(items[at].get(ERROR_KEY@)->0, url),
        ),
        normalized(JsonView::Array(items), url) == normalized(
            JsonView::Array(items.take(at + 1)),
            url,
        ),
{
    lemma_first_error_at(items, at, 0);
    let head = items.take(at + 1);
    assert forall|j: int| 0 <= j < at implies !(#[trigger] head[j]).has_key(ERROR_KEY@) by {
        assert(head[j] == items[j]);
    }
    assert(head[at] == items[at]);
    lemma_first_error_at(head, at, 0);
}

/// Scanning from any position up to the first element that reports an error
/// finds that element's error.
proof fn lemma_first_error_at(items: Seq<JsonView>, at: int, from: int)
    requires
        0 <= from <= at < items.len(),
        items[at].has_key(ERROR_KEY@),
        forall|j: int| 0 <= j < at ==> !(#[trigger] items[j]).has_key(ERROR_KEY@),
    ensures
        first_error_from(items, from) == items[at].get(ERROR_KEY@),
    decreases at - from,
{
    if from < at {
        lemma_first_error_at(items, at, from + 1);
    }
}

/// An array in which no element reports an error has no first error.
proof fn lemma_no_error(items: Seq<JsonView>, from: int)
    requires
        0 <= from,
        forall|j: int| 0 <= j < items.len() ==> !(#[trigger] items[j]).has_key(ERROR_KEY@),
    ensures
        first_error_from(items, from) is None,
    decreases items.len() - from,
{
    if from < items.len() {
        lemma_no_error(items, from + 1);
    }
}

/// An array whose elements all wrap a payload under `"success"`, and none of
/// which reports an error, resolves to the array of the payloads: as many as
/// there were elements, in the same order.
pub proof fn lemma_success_array_unwraps(items: Seq<JsonView>, url: Seq<char>)
    requires
        forall|j: int| 0 <= j < items.len() ==> (#[trigger] items[j]).has_key(SUCCESS_KEY@),
        forall|j: int| 0 <= j < items.len() ==> !(#[trigger] items[j]).has_key(ERROR_KEY@),
    ensures
        normalized(JsonView::Array(items), url) matches Ok(JsonView::Array(payloads)) && {
            &&& payloads.len() == items.len()
            &&& forall|j: int|
                0 <= j < items.len() ==> Some(#[trigger] payloads[j]) == items[j].get(SUCCESS_KEY@)
        },
{
    lemma_no_error(items, 0);
}

/// An object with neither an `"error"` nor a `"success"` entry resolves to
/// itself: resolving what is already resolved changes nothing.
pub proof fn lemma_plain_object_unchanged(members: Seq<(Seq<char>, JsonView)>, url: Seq<char>)
    requires
        !JsonView::Object(members).has_key(ERROR_KEY@),
        !JsonView::Object(members).has_key(SUCCESS_KEY@),
    ensures
        normalized(JsonView::Object(members), url) == Ok::<JsonView, ApiErrorView>(
            JsonView::Object(members),
        ),
{
}

} // verus!
