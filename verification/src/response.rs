use vstd::prelude::*;

use crate::error::GistError;

verus! {

/// One gist as reported by the service: its web URL, its creation time (kept
/// as opaque text), and its optional description.
#[derive(Debug)]
pub struct Response {
    pub html_url: String,
    pub description: Option<String>,
    pub created_at: String,
}

impl Response {
    /// The fields as plain values: (html_url, created_at, description).
    pub open spec fn fields(self) -> (Seq<char>, Seq<char>, Option<Seq<char>>) {
        (self.html_url@, self.created_at@, self.description.deep_view())
    }
}

/// The text of the `html_url` string member of `s` parsed as a JSON object,
/// or `None` when `s` is not a JSON object with such a member.
pub uninterp spec fn parsed_html_url(s: Seq<char>) -> Option<Seq<char>>;

/// The `html_url` and `created_at` string members and the optional
/// `description` string member of `s` parsed as a JSON object, or `None` when
/// `s` is not a JSON object with the two required string members.
pub uninterp spec fn parsed_gist_entry(s: Seq<char>) -> Option<
    (Seq<char>, Seq<char>, Option<Seq<char>>),
>;

/// For each element of `s` parsed as a JSON array, its `html_url` and
/// `created_at` string members and its optional `description` string member;
/// `None` when `s` is not a JSON array of objects that all carry the two
/// required string members.
pub uninterp spec fn parsed_gist_list(s: Seq<char>) -> Option<
    Seq<(Seq<char>, Seq<char>, Option<Seq<char>>)>,
>;

/// Relies on serde_json (`from_str`, `Value::get`, `Value::as_str`): parses
/// `s` as JSON and hands back the text of the root object's `html_url` string
/// member; `None` when `s` does not parse, the root is not an object, or the
/// member is absent or not a string. The result depends on `s` alone.
#[verifier::external_body]
fn parse_html_url(s: &str) -> (r: Option<String>)
    ensures
        match r {
            Option::Some(u) => parsed_html_url(s@) == Option::Some(u@),
            Option::None => parsed_html_url(s@) is None,
        },
{
    let root: serde_json::Value = match serde_json::from_str(s) {
        Ok(v) => v,
        Err(_) => return None,
    };
    Some(root.get("html_url")?.as_str()?.to_owned())
}

/// Relies on serde_json (`from_str`, `Value::get`, `Value::as_str`): parses
/// `s` as JSON and hands back the root object's `html_url` and `created_at`
/// string members, both required for a decode; a `description` member that is
/// absent, `null` or not a string becomes `None`. The result depends on `s`
/// alone.
#[verifier::external_body]
fn parse_gist_entry(s: &str) -> (r: Option<Response>)
    ensures
        match r {
            Option::Some(resp) => parsed_gist_entry(s@) == Option::Some(resp.fields()),
            Option::None => parsed_gist_entry(s@) is None,
        },
{
    let root: serde_json::Value = match serde_json::from_str(s) {
        Ok(v) => v,
        Err(_) => return None,
    };
    let html_url = root.get("html_url")?.as_str()?.to_owned();
    let created_at = root.get("created_at")?.as_str()?.to_owned();
    let description = match root.get("description") {
        Some(d) => d.as_str().map(str::to_owned),
        None => None,
    };
    Some(Response { html_url, description, created_at })
}

/// Relies on serde_json (`from_str`, `Value::get`, `Value::as_str`): parses
/// `s` as a JSON array and hands back, for each element, its `html_url` and
/// `created_at` string members, both required for the whole list to decode; a
/// `description` member that is absent, `null` or not a string becomes
/// `None`. The result depends on `s` alone.
#[verifier::external_body]
fn parse_gist_list(s: &str) -> (r: Option<Vec<Response>>)
    ensures
        match r {
            Option::Some(v) => parsed_gist_list(s@) == Option::Some(
                v@.map_values(|x: Response| x.fields()),
            ),
            Option::None => parsed_gist_list(s@) is None,
        },
{
    let items: Vec<serde_json::Value> = match serde_json::from_str(s) {
        Ok(v) => v,
        Err(_) => return None,
    };
    let mut out: Vec<Response> = Vec::new();
    for item in items.iter() {
        let html_url = item.get("html_url")?.as_str()?.to_owned();
        let created_at = item.get("created_at")?.as_str()?.to_owned();
        let description = match item.get("description") {
            Some(d) => d.as_str().map(str::to_owned),
            None => None,
        };
        out.push(Response { html_url, description, created_at });
    }
    Some(out)
}

/// Decodes the body of a successful create call: the web URL of the new gist.
pub fn decode_create(res: &str) -> (r: Result<String, GistError>)
    ensures
        match parsed_html_url(res@) {
            Option::Some(u) => r matches Ok(s) && s@ == u,
            Option::None => r matches Err(e) && e.message@
                == "Could not decode the gist response."@,
        },
{
    match parse_html_url(res) {
        Some(u) => Ok(u),
        None => Err(GistError::new(String::from_str("Could not decode the gist response."))),
    }
}

/// Decodes one gist object as the service reports it.
pub fn decode(res: &str) -> (r: Result<Response, GistError>)
    ensures
        match parsed_gist_entry(res@) {
            Option::Some(t) => r matches Ok(resp) && resp.fields() == t,
            Option::None => r matches Err(e) && e.message@
                == "Could not decode the gist response."@,
        },
{
    match parse_gist_entry(res) {
        Some(resp) => Ok(resp),
        None => Err(GistError::new(String::from_str("Could not decode the gist response."))),
    }
}

/// Decodes the body of a successful list call: a JSON array of gists.
pub fn decode_list(res: &str) -> (r: Result<Vec<Response>, GistError>)
    ensures
        match parsed_gist_list(res@) {
            Option::Some(items) => r matches Ok(v) && v@.map_values(|x: Response| x.fields())
                == items,
            Option::None => r matches Err(e) && e.message@
                == "Could not decode the gist list response."@,
        },
{
    match parse_gist_list(res) {
        Some(v) => Ok(v),
        None => Err(GistError::new(String::from_str("Could not decode the gist list response."))),
    }
}

} // verus!
