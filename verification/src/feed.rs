use vstd::prelude::*;

verus! {

#[verifier::external_type_specification]
#[verifier::external_body]
pub struct ExValue(serde_json::Value);

/// Spec-level model of a parsed JSON document: what a value holds, with
/// object fields keyed by their text and numbers split into those the feed
/// logic can read as `i64` and the rest.
pub enum JsonModel {
    Null,
    Bool(bool),
    Int(i64),
    OtherNumber,
    Text(Seq<char>),
    Arr(Seq<JsonModel>),
    Obj(Map<Seq<char>, JsonModel>),
}

/// What a parsed JSON value holds.
pub uninterp spec fn json_model(v: serde_json::Value) -> JsonModel;

/// What parsing a JSON text yields: the model of its document, or nothing
/// when the text is not valid JSON.
pub uninterp spec fn json_of(s: Seq<char>) -> Option<JsonModel>;

/// One external-feed item, reduced to the fields the poller reads: the work
/// identifier, its title, its short and long texts, and its creation
/// timestamp in epoch milliseconds.
#[derive(Clone, Debug)]
pub struct FeedItem {
    pub id: i64,
    pub name: String,
    pub foreword: String,
    pub content: String,
    pub create_time: i64,
}

/// The feed item's fields read off a document model: the document is a
/// nonempty array whose first element is an object holding an integral
/// `createTime` beside a `works` object with an integral `id` and textual
/// `name`, `foreword` and `content`.
pub open spec fn item_fields(
    m: JsonModel,
    id: i64,
    name: Seq<char>,
    foreword: Seq<char>,
    content: Seq<char>,
    create_time: i64,
) -> bool {
    &&& m matches JsonModel::Arr(elts)
    &&& elts.len() > 0
    &&& elts[0] matches JsonModel::Obj(top)
    &&& top.contains_key("createTime"@)
    &&& top["createTime"@] == JsonModel::Int(create_time)
    &&& top.contains_key("works"@)
    &&& top["works"@] matches JsonModel::Obj(works)
    &&& works.contains_key("id"@)
    &&& works["id"@] == JsonModel::Int(id)
    &&& works.contains_key("name"@)
    &&& works["name"@] == JsonModel::Text(name)
    &&& works.contains_key("foreword"@)
    &&& works["foreword"@] == JsonModel::Text(foreword)
    &&& works.contains_key("content"@)
    &&& works["content"@] == JsonModel::Text(content)
}

/// Whether a document model holds a well-shaped first feed item at all.
pub open spec fn has_item(m: JsonModel) -> bool {
    exists|id: i64, name: Seq<char>, foreword: Seq<char>, content: Seq<char>, create_time: i64|
        item_fields(m, id, name, foreword, content, create_time)
}

/// Relies on serde_json::from_str: parses a JSON document, deterministically
/// in the text alone; a parse error becomes `None`.
#[verifier::external_body]
fn json_parse(s: &str) -> (r: Option<serde_json::Value>)
    ensures
        r matches Some(v) ==> json_of(s@) == Some(json_model(v)),
        r is None ==> json_of(s@) is None,
{
    serde_json::from_str(s).ok()
}

/// Relies on serde_json::Value::as_array: the element list exactly when the
/// value is a JSON array.
#[verifier::external_body]
fn json_as_array(v: &serde_json::Value) -> (r: Option<&Vec<serde_json::Value>>)
    ensures
        r matches Some(a) ==> (json_model(*v) matches JsonModel::Arr(elts) && a@.len()
            == elts.len() && (forall|i: int|
            0 <= i < elts.len() ==> json_model(#[trigger] a@[i]) == elts[i])),
        r is None ==> !(json_model(*v) is Arr),
{
    v.as_array()
}

/// Relies on serde_json::Value::get: the field under the key exactly when
/// the value is a JSON object holding it.
#[verifier::external_body]
fn json_get<'a>(v: &'a serde_json::Value, key: &str) -> (r: Option<&'a serde_json::Value>)
    ensures
        r matches Some(f) ==> (json_model(*v) matches JsonModel::Obj(fields)
            && fields.contains_key(key@) && json_model(*f) == fields[key@]),
        r is None ==> !(json_model(*v) matches JsonModel::Obj(fields) && fields.contains_key(
            key@,
        )),
{
    v.get(key)
}

/// Relies on serde_json::Value::as_i64: the value exactly when it is an
/// integral JSON number that fits a signed 64-bit integer.
#[verifier::external_body]
fn json_as_i64(v: &serde_json::Value) -> (r: Option<i64>)
    ensures
        r matches Some(n) ==> json_model(*v) == JsonModel::Int(n),
        r is None ==> !(json_model(*v) is Int),
{
    v.as_i64()
}

/// Relies on serde_json::Value::as_str: the borrowed text exactly when the
/// value is a JSON string.
#[verifier::external_body]
fn json_as_str<'a>(v: &'a serde_json::Value) -> (r: Option<&'a str>)
    ensures
        r matches Some(t) ==> json_model(*v) == JsonModel::Text(t@),
        r is None ==> !(json_model(*v) is Text),
{
    v.as_str()
}

/// Read the fields of the first element of the feed's JSON array. The item
/// comes back exactly when the document has the feed's shape; any missing or
/// mismatched field yields `None`, so a malformed payload degrades the poll
/// cycle instead of ending the process.
pub fn parse_feed(v: &serde_json::Value) -> (r: Option<FeedItem>)
    ensures
        r matches Some(it) ==> item_fields(
            json_model(*v),
            it.id,
            it.name@,
            it.foreword@,
            it.content@,
            it.create_time,
        ),
        r is None ==> !has_item(json_model(*v)),
{
    let arr = match json_as_array(v) {
        Some(a) => a,
        None => {
            return None;
        },
    };
    if arr.len() == 0 {
        return None;
    }
    let first = &arr[0];
    let create_time = match json_get(first, "createTime") {
        Some(t) => match json_as_i64(t) {
            Some(n) => n,
            None => {
                return None;
            },
        },
        None => {
            return None;
        },
    };
    let works = match json_get(first, "works") {
        Some(w) => w,
        None => {
            return None;
        },
    };
    let id = match json_get(works, "id") {
        Some(f) => match json_as_i64(f) {
            Some(n) => n,
            None => {
                return None;
            },
        },
        None => {
            return None;
        },
    };
    let name = match json_get(works, "name") {
        Some(f) => match json_as_str(f) {
            Some(s) => s,
            None => {
                return None;
            },
        },
        None => {
            return None;
        },
    };
    let foreword = match json_get(works, "foreword") {
        Some(f) => match json_as_str(f) {
            Some(s) => s,
            None => {
                return None;
            },
        },
        None => {
            return None;
        },
    };
    let content = match json_get(works, "content") {
        Some(f) => match json_as_str(f) {
            Some(s) => s,
            None => {
                return None;
            },
        },
        None => {
            return None;
        },
    };
    Some(
        FeedItem {
            id,
            name: name.to_owned(),
            foreword: foreword.to_owned(),
            content: content.to_owned(),
            create_time,
        },
    )
}

/// Parse a whole feed payload and extract its first item: the item exactly
/// when the text is valid JSON of the feed's shape, `None` on any parse or
/// shape failure.
pub fn parse_feed_json(s: &str) -> (r: Option<FeedItem>)
    ensures
        json_of(s@) is None ==> r is None,
        r matches Some(it) ==> (json_of(s@) matches Some(m) && item_fields(
            m,
            it.id,
            it.name@,
            it.foreword@,
            it.content@,
            it.create_time,
        )),
        r is None ==> (json_of(s@) matches Some(m) ==> !has_item(m)),
{
    match json_parse(s) {
        Some(v) => parse_feed(&v),
        None => None,
    }
}

} // verus!
