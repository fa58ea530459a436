use vstd::prelude::*;
use vstd::string::StringExecFns;

use crate::codec::{json_of_text, json_text};

verus! {

/// The value of the first header called `name`, where one is.
pub open spec fn first_header(headers: Seq<(String, String)>, name: Seq<char>, r: Option<Seq<char>>) -> bool {
    match r {
        Some(v) => exists|i: int|
            0 <= i < headers.len() && headers[i].0@ == name && headers[i].1@ == v && forall|j: int|
                0 <= j < i ==> headers[j].0@ != name,
        None => forall|j: int| 0 <= j < headers.len() ==> headers[j].0@ != name,
    }
}

/// Looks up a request header. Names are given in lower case, as HTTP header
/// names compare without regard to case.
pub fn header_value(headers: &Vec<(String, String)>, name: &str) -> (r: Option<String>)
    ensures
        first_header(headers@, name@, match r {
            Some(v) => Some(v@),
            None => None,
        }),
{
    let key = String::from_str(name);
    let mut i: usize = 0;
    while i < headers.len()
        invariant
            i <= headers@.len(),
            key@ == name@,
            forall|j: int| 0 <= j < i ==> headers@[j].0@ != name@,
        decreases headers@.len() - i,
    {
        if headers[i].0 == key {
            let v = headers[i].1.clone();
            assert(headers@[i as int].0@ == name@ && headers@[i as int].1@ == v@);
            return Some(v);
        }
        i = i + 1;
    }
    None
}

/// A header that is set exactly when its value is `true`.
pub fn bool_from_header(headers: &Vec<(String, String)>, name: &str) -> (r: bool)
    ensures
        r <==> exists|v: Seq<char>| first_header(headers@, name@, Some(v)) && v == "true"@,
{
    match header_value(headers, name) {
        Some(v) => v == String::from_str("true"),
        None => {
            assert forall|v: Seq<char>| !first_header(headers@, name@, Some(v)) by {
                if first_header(headers@, name@, Some(v)) {
                    let i = choose|i: int|
                        0 <= i < headers@.len() && headers@[i].0@ == name@ && headers@[i].1@ == v
                            && forall|j: int| 0 <= j < i ==> headers@[j].0@ != name@;
                    assert(headers@[i].0@ != name@);
                }
            }
            false
        },
    }
}

/// Whether the request was made by htmx.
#[derive(Debug)]
pub struct IsHtmx(pub bool);

impl IsHtmx {
    pub fn from_headers(headers: &Vec<(String, String)>) -> (r: IsHtmx)
        ensures
            r.0 <==> exists|i: int| 0 <= i < headers@.len() && headers@[i].0@ == "hx-request"@,
    {
        match header_value(headers, "hx-request") {
            Some(_) => IsHtmx(true),
            None => IsHtmx(false),
        }
    }
}

/// The htmx request headers a page cares about.
#[derive(Debug, Clone)]
pub struct HxHeaderInfo {
    pub boosted: bool,
    pub current_url: Option<String>,
    pub history_restore_request: bool,
    pub prompt: Option<String>,
    pub target: Option<String>,
    pub trigger_name: Option<String>,
    pub trigger: Option<String>,
}

pub open spec fn opt_view(o: Option<String>) -> Option<Seq<char>> {
    match o {
        Some(s) => Some(s@),
        None => None,
    }
}

impl HxHeaderInfo {
    pub fn from_headers(headers: &Vec<(String, String)>) -> (r: HxHeaderInfo)
        ensures
            r.boosted <==> exists|v: Seq<char>| first_header(headers@, "hx-boosted"@, Some(v)) && v == "true"@,
            first_header(headers@, "hx-current-url"@, opt_view(r.current_url)),
            r.history_restore_request <==> exists|v: Seq<char>|
                first_header(headers@, "hx-history-restore-request"@, Some(v)) && v == "true"@,
            first_header(headers@, "hx-prompt"@, opt_view(r.prompt)),
            first_header(headers@, "hx-target"@, opt_view(r.target)),
            first_header(headers@, "hx-trigger-name"@, opt_view(r.trigger_name)),
            first_header(headers@, "hx-trigger"@, opt_view(r.trigger)),
    {
        HxHeaderInfo {
            boosted: bool_from_header(headers, "hx-boosted"),
            current_url: header_value(headers, "hx-current-url"),
            history_restore_request: bool_from_header(headers, "hx-history-restore-request"),
            prompt: header_value(headers, "hx-prompt"),
            target: header_value(headers, "hx-target"),
            trigger_name: header_value(headers, "hx-trigger-name"),
            trigger: header_value(headers, "hx-trigger"),
        }
    }
}

/// How a notification looks.
#[derive(Debug, Clone, Copy, PartialEq, Eq, Structural)]
pub enum NotificationVariant {
    Success,
    Failure,
}

/// A notification the page shows after a swap.
pub struct NotificationEvent {
    pub title: String,
    pub message: String,
    pub variant: NotificationVariant,
    pub auto_hide: bool,
}

pub open spec fn variant_name(v: NotificationVariant) -> Seq<char> {
    match v {
        NotificationVariant::Success => "success"@,
        NotificationVariant::Failure => "failure"@,
    }
}

pub open spec fn bool_text(b: bool) -> Seq<char> {
    if b {
        "true"@
    } else {
        "false"@
    }
}

/// The JSON event that carries a notification, its keys in sorted order.
pub open spec fn notification_json(
    title: Seq<char>,
    message: Seq<char>,
    variant: NotificationVariant,
    auto_hide: bool,
) -> Seq<char> {
    "{\"notify\":{\"autoHide\":"@ + bool_text(auto_hide) + ",\"message\":"@ + json_of_text(message)
        + ",\"title\":"@ + json_of_text(title) + ",\"variant\":\""@ + variant_name(variant)
        + "\"}}"@
}

/// The header that makes htmx show a notification once the page is swapped in.
pub fn hx_trigger_notification(
    title: String,
    message: String,
    variant: NotificationVariant,
    auto_hide: bool,
) -> (r: (String, String))
    ensures
        r.0@ == "HX-Trigger-After-Swap"@,
        r.1@ == notification_json(title@, message@, variant, auto_hide),
{
    let mut event = String::from_str("{\"notify\":{\"autoHide\":");
    if auto_hide {
        event.append("true");
    } else {
        event.append("false");
    }
    event.append(",\"message\":");
    let message_json = json_text(message.as_str());
    event.append(message_json.as_str());
    event.append(",\"title\":");
    let title_json = json_text(title.as_str());
    event.append(title_json.as_str());
    event.append(",\"variant\":\"");
    match variant {
        NotificationVariant::Success => event.append("success"),
        NotificationVariant::Failure => event.append("failure"),
    }
    event.append("\"}}");
    (String::from_str("HX-Trigger-After-Swap"), event)
}

} // verus!
