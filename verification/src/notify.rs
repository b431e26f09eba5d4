//! The compute half of notification dispatch: which parameters a push
//! notification carries and which HTTP method a webhook request uses. The
//! network transport itself lives outside the library.

use vstd::prelude::*;

verus! {

/// Parameter slots of one push notification.
#[derive(Clone, Copy, PartialEq, Eq, Structural, Debug)]
pub enum PushParam {
    Token,
    User,
    Message,
    Title,
    Device,
    Priority,
}

/// A parameter's value: free text, or the numeric priority.
#[derive(Clone, Copy, Debug)]
pub enum PushValue<'a> {
    Text(&'a str),
    Number(i8),
}

/// The parameter list of one push notification: credentials and message
/// always, each optional field exactly when the caller supplied it.
pub open spec fn spec_push_params<'a>(
    api_token: &'a str,
    user_key: &'a str,
    message: &'a str,
    title: Option<&'a str>,
    device: Option<&'a str>,
    priority: Option<i8>,
) -> Seq<(PushParam, PushValue<'a>)> {
    seq![
        (PushParam::Token, PushValue::Text(api_token)),
        (PushParam::User, PushValue::Text(user_key)),
        (PushParam::Message, PushValue::Text(message)),
    ] + (match title {
        Some(t) => seq![(PushParam::Title, PushValue::Text(t))],
        None => Seq::empty(),
    }) + (match device {
        Some(d) => seq![(PushParam::Device, PushValue::Text(d))],
        None => Seq::empty(),
    }) + (match priority {
        Some(p) => seq![(PushParam::Priority, PushValue::Number(p))],
        None => Seq::empty(),
    })
}

/// Builds the parameter list for one push notification.
pub fn push_params<'a>(
    api_token: &'a str,
    user_key: &'a str,
    message: &'a str,
    title: Option<&'a str>,
    device: Option<&'a str>,
    priority: Option<i8>,
) -> (r: Vec<(PushParam, PushValue<'a>)>)
    ensures
        r@ == spec_push_params(api_token, user_key, message, title, device, priority),
{
    let mut r: Vec<(PushParam, PushValue<'a>)> = Vec::new();
    r.push((PushParam::Token, PushValue::Text(api_token)));
    r.push((PushParam::User, PushValue::Text(user_key)));
    r.push((PushParam::Message, PushValue::Text(message)));
    if let Some(t) = title {
        r.push((PushParam::Title, PushValue::Text(t)));
    }
    if let Some(d) = device {
        r.push((PushParam::Device, PushValue::Text(d)));
    }
    if let Some(p) = priority {
        r.push((PushParam::Priority, PushValue::Number(p)));
    }
    proof {
        assert(r@ =~= spec_push_params(api_token, user_key, message, title, device, priority));
    }
    r
}

/// HTTP methods the webhook dispatcher distinguishes; anything else falls
/// back to `Post`.
#[derive(Clone, Copy, PartialEq, Eq, Structural, Debug)]
pub enum HttpMethod {
    Get,
    Put,
    Patch,
    Post,
}

/// ASCII uppercase of one byte; other bytes pass through.
pub open spec fn spec_upper(b: u8) -> u8 {
    if 97 <= b <= 122 {
        (b - 32) as u8
    } else {
        b
    }
}

fn ascii_upper(b: u8) -> (r: u8)
    ensures
        r == spec_upper(b),
{
    if 97 <= b && b <= 122 {
        b - 32
    } else {
        b
    }
}

/// The bytes spell `GET`, letter case ignored.
pub open spec fn spec_is_get(s: Seq<u8>) -> bool {
    s.len() == 3 && spec_upper(s[0]) == 71 && spec_upper(s[1]) == 69 && spec_upper(s[2]) == 84
}

/// The bytes spell `PUT`, letter case ignored.
pub open spec fn spec_is_put(s: Seq<u8>) -> bool {
    s.len() == 3 && spec_upper(s[0]) == 80 && spec_upper(s[1]) == 85 && spec_upper(s[2]) == 84
}

/// The bytes spell `PATCH`, letter case ignored.
pub open spec fn spec_is_patch(s: Seq<u8>) -> bool {
    &&& s.len() == 5
    &&& spec_upper(s[0]) == 80
    &&& spec_upper(s[1]) == 65
    &&& spec_upper(s[2]) == 84
    &&& spec_upper(s[3]) == 67
    &&& spec_upper(s[4]) == 72
}

/// The method the webhook request uses for a configured method name: `GET`,
/// `PUT` and `PATCH` are recognized whatever their letter case; any other
/// name, and an absent configuration, mean `Post`.
pub open spec fn spec_method_of(m: Option<Seq<u8>>) -> HttpMethod {
    match m {
        None => HttpMethod::Post,
        Some(s) => if spec_is_get(s) {
            HttpMethod::Get
        } else if spec_is_put(s) {
            HttpMethod::Put
        } else if spec_is_patch(s) {
            HttpMethod::Patch
        } else {
            HttpMethod::Post
        },
    }
}

/// Chooses the webhook's HTTP method from the configured method name's
/// bytes, if one was configured.
pub fn choose_method(method: Option<&[u8]>) -> (r: HttpMethod)
    ensures
        method matches Some(s) ==> r == spec_method_of(Some(s@)),
        method is None ==> r == HttpMethod::Post,
{
    match method {
        None => HttpMethod::Post,
        Some(s) => {
            if s.len() == 3 {
                let b0 = ascii_upper(s[0]);
                let b1 = ascii_upper(s[1]);
                let b2 = ascii_upper(s[2]);
                if b0 == 71 && b1 == 69 && b2 == 84 {
                    HttpMethod::Get
                } else if b0 == 80 && b1 == 85 && b2 == 84 {
                    HttpMethod::Put
                } else {
                    HttpMethod::Post
                }
            } else if s.len() == 5 {
                if ascii_upper(s[0]) == 80 && ascii_upper(s[1]) == 65 && ascii_upper(s[2]) == 84
                    && ascii_upper(s[3]) == 67 && ascii_upper(s[4]) == 72 {
                    HttpMethod::Patch
                } else {
                    HttpMethod::Post
                }
            } else {
                HttpMethod::Post
            }
        },
    }
}

} // verus!
