use rgewe_api::contacts::{
    delete_friend, fetch_contacts_list, fetch_contacts_list_cache, get_brief_list, get_brief_single,
    search_add, search_friend, set_friend_only_chat, set_friend_remark, upload_phone_contacts,
    ContactOperationType,
};
use rgewe_api::error::ApiError;
use rgewe_api::payload::{FieldValue, Payload};
use rgewe_api::request::{finish, prepare, Reply};
use rgewe_api::wxid::Wxid;
use serde_json::Value;

fn object(fields: Vec<(&str, Value)>) -> Value {
    let mut m = serde_json::Map::new();
    for (k, v) in fields {
        m.insert(k.to_string(), v);
    }
    Value::Object(m)
}

fn body(r: &rgewe_api::request::ApiRequest) -> String {
    r.body.clone().expect("request has a body")
}

#[test]
fn search_contact_scenario() {
    let r = search_friend("app", "1234567");
    assert_eq!(r.route, "/contacts/search");
    let sent: Value = serde_json::from_str(&body(&r)).unwrap();
    let expected = object(vec![
        ("appId", Value::String("app".to_string())),
        ("contactsInfo", Value::String("1234567".to_string())),
    ]);
    assert_eq!(sent, expected);
    assert_eq!(body(&r), "{\"appId\":\"app\",\"contactsInfo\":\"1234567\"}");

    let reply = finish(Reply::Received("{\"ret\":200,\"data\":{}}".to_string())).unwrap();
    let expected_reply = object(vec![
        ("ret", Value::from(200)),
        ("data", Value::Object(serde_json::Map::new())),
    ]);
    assert_eq!(reply, expected_reply);
}

#[test]
fn transport_failure_is_a_transport_error() {
    let r = finish(Reply::Failed("connection refused".to_string()));
    match r {
        Err(ApiError::Transport(cause)) => assert_eq!(cause, "connection refused"),
        other => panic!("unexpected result {:?}", other),
    }
}

#[test]
fn non_json_body_is_a_decoding_error() {
    let r = finish(Reply::Received("<html>bad gateway</html>".to_string()));
    assert!(matches!(r, Err(ApiError::Decode(_))));
    let empty = finish(Reply::Received(String::new()));
    assert!(matches!(empty, Err(ApiError::Decode(_))));
}

#[test]
fn embedded_failure_status_is_passed_through() {
    let r = finish(Reply::Received("{\"ret\":500,\"msg\":\"fail\"}".to_string())).unwrap();
    assert_eq!(r["ret"], Value::from(500));
    assert_eq!(r["msg"], Value::String("fail".to_string()));
}

#[test]
fn valid_wxid_round_trips() {
    for s in ["wxid_example", "wxid_example1", "wxid_A1b2", "wxid_0"] {
        let w = Wxid::parse(s).unwrap();
        assert_eq!(w.as_str(), s);
    }
}

#[test]
fn malformed_wxid_is_rejected() {
    for s in ["", "wxid_", "wxid", "wxid-abc", "WXID_abc", "wxid_ab c", "wxid_a_b", "xwid_abc", "wxid_é"] {
        match Wxid::parse(s) {
            Err(ApiError::InvalidWxid(t)) => assert_eq!(t, s),
            other => panic!("accepted {:?}: {:?}", s, other.is_ok()),
        }
    }
}

#[test]
fn fetch_contacts_list_requests() {
    let r = fetch_contacts_list("app1");
    assert_eq!(r.route, "/contacts/fetchContactsList");
    assert_eq!(body(&r), "{\"appId\":\"app1\"}");
    let c = fetch_contacts_list_cache("app1");
    assert_eq!(c.route, "/contacts/fetchContactsListCache");
    assert_eq!(body(&c), "{\"appId\":\"app1\"}");
}

#[test]
fn search_add_request_numbers() {
    let r = search_add("a", 3, -15, "v3x", "v4y", "hello");
    assert_eq!(r.route, "/contacts/search");
    assert_eq!(
        body(&r),
        "{\"appId\":\"a\",\"scene\":3,\"option\":-15,\"v3\":\"v3x\",\"v4\":\"v4y\",\"content\":\"hello\"}"
    );
    let extreme = search_add("a", i32::MIN, i32::MAX, "", "", "");
    let v: Value = serde_json::from_str(&body(&extreme)).unwrap();
    assert_eq!(v["scene"], Value::from(i32::MIN));
    assert_eq!(v["option"], Value::from(i32::MAX));
}

#[test]
fn strings_are_escaped() {
    let r = search_friend("a", "say \"hi\"\\\n\t\u{1}");
    assert_eq!(
        body(&r),
        "{\"appId\":\"a\",\"contactsInfo\":\"say \\\"hi\\\"\\\\\\n\\t\\u0001\"}"
    );
    let v: Value = serde_json::from_str(&body(&r)).unwrap();
    assert_eq!(v["contactsInfo"], Value::String("say \"hi\"\\\n\t\u{1}".to_string()));
}

#[test]
fn wxid_requests() {
    let w = Wxid::parse("wxid_example").unwrap();
    let d = delete_friend("app", &w);
    assert_eq!(d.route, "/contacts/deleteFriend");
    assert_eq!(body(&d), "{\"appId\":\"app\",\"wxid\":\"wxid_example\"}");

    let s = set_friend_only_chat("app", &w, true);
    assert_eq!(s.route, "/contacts/setFriendPermissions");
    assert_eq!(body(&s), "{\"appId\":\"app\",\"wxid\":\"wxid_example\",\"onlyChat\":true}");
    let off = set_friend_only_chat("app", &w, false);
    assert_eq!(body(&off), "{\"appId\":\"app\",\"wxid\":\"wxid_example\",\"onlyChat\":false}");

    let m = set_friend_remark("app", &w, "Bob");
    assert_eq!(m.route, "/contacts/setFriendRemark");
    assert_eq!(body(&m), "{\"appId\":\"app\",\"wxid\":\"wxid_example\",\"remark\":\"Bob\"}");
}

#[test]
fn brief_info_requests() {
    let w1 = Wxid::parse("wxid_example1").unwrap();
    let w2 = Wxid::parse("wxid_example2").unwrap();
    let one = get_brief_single("app", &w1);
    assert_eq!(one.route, "/contacts/getBriefInfo");
    assert_eq!(body(&one), "{\"appId\":\"app\",\"wxids\":[\"wxid_example1\"]}");
    let both = get_brief_list("app", vec![w1, w2]);
    assert_eq!(both.route, "/contacts/getBriefInfo");
    assert_eq!(body(&both), "{\"appId\":\"app\",\"wxids\":[\"wxid_example1\",\"wxid_example2\"]}");
    let none = get_brief_list("app", Vec::new());
    assert_eq!(body(&none), "{\"appId\":\"app\",\"wxids\":[]}");
}

#[test]
fn upload_phone_contacts_requests() {
    let phones = vec!["1234567".to_string(), "7654321".to_string()];
    let add = upload_phone_contacts("app", phones.clone(), ContactOperationType::Add);
    assert_eq!(add.route, "/contacts/uploadPhoneAddressList");
    assert_eq!(body(&add), "{\"appId\":\"app\",\"phones\":[\"1234567\",\"7654321\"],\"opType\":1}");
    let remove = upload_phone_contacts("app", phones, ContactOperationType::Remove);
    assert_eq!(body(&remove), "{\"appId\":\"app\",\"phones\":[\"1234567\",\"7654321\"],\"opType\":2}");
    assert_eq!(ContactOperationType::Add.code(), 1);
    assert_eq!(ContactOperationType::Remove.code(), 2);
}

#[test]
fn payloads_and_urls() {
    assert_eq!(Payload::new().encode(), "{}");
    let mut p = Payload::new();
    p.add("n", FieldValue::Number(0));
    p.add("list", FieldValue::TextList(vec!["x".to_string()]));
    assert_eq!(p.encode(), "{\"n\":0,\"list\":[\"x\"]}");
    let with = prepare("/r", Some(&p));
    assert_eq!(with.body, Some("{\"n\":0,\"list\":[\"x\"]}".to_string()));
    let bare = prepare("/contacts/none", None);
    assert_eq!(bare.body, None);
    assert_eq!(bare.url("https://api.example.com"), "https://api.example.com/contacts/none");
}
