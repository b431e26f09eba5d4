use beep::notify::{choose_method, push_params, HttpMethod, PushParam, PushValue};

fn text_of<'a>(v: &PushValue<'a>) -> &'a str {
    match v {
        PushValue::Text(s) => s,
        PushValue::Number(_) => panic!("expected text"),
    }
}

#[test]
fn push_params_full() {
    let params = push_params("tok", "usr", "hello", Some("title"), Some("phone"), Some(2));
    let keys: Vec<PushParam> = params.iter().map(|p| p.0).collect();
    assert_eq!(
        keys,
        vec![
            PushParam::Token,
            PushParam::User,
            PushParam::Message,
            PushParam::Title,
            PushParam::Device,
            PushParam::Priority,
        ]
    );
    assert_eq!(text_of(&params[0].1), "tok");
    assert_eq!(text_of(&params[1].1), "usr");
    assert_eq!(text_of(&params[2].1), "hello");
    assert_eq!(text_of(&params[3].1), "title");
    assert_eq!(text_of(&params[4].1), "phone");
    assert!(matches!(params[5].1, PushValue::Number(2)));
}

#[test]
fn push_params_required_only() {
    let params = push_params("tok", "usr", "hi", None, None, None);
    assert_eq!(params.len(), 3);
    let keys: Vec<PushParam> = params.iter().map(|p| p.0).collect();
    assert_eq!(keys, vec![PushParam::Token, PushParam::User, PushParam::Message]);
}

#[test]
fn method_defaults_to_post() {
    assert_eq!(choose_method(None), HttpMethod::Post);
    assert_eq!(choose_method(Some(b"DELETE")), HttpMethod::Post);
    assert_eq!(choose_method(Some(b"")), HttpMethod::Post);
}

#[test]
fn method_names_ignore_case() {
    assert_eq!(choose_method(Some(b"get")), HttpMethod::Get);
    assert_eq!(choose_method(Some(b"GET")), HttpMethod::Get);
    assert_eq!(choose_method(Some(b"PuT")), HttpMethod::Put);
    assert_eq!(choose_method(Some(b"PaTcH")), HttpMethod::Patch);
    assert_eq!(choose_method(Some(b"pot")), HttpMethod::Post);
}
