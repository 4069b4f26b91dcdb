//! The contacts operations of the gateway: the request that each one sends.

use vstd::prelude::*;
use crate::payload::{FieldValue, FieldView, Payload, object_text};
use crate::request::{ApiRequest, body_view, prepare};
use crate::wxid::Wxid;

verus! {

/// Whether `r` posts to `route` with the object of `fields` as its body.
pub open spec fn posts(r: ApiRequest, route: Seq<char>, fields: Seq<(Seq<char>, FieldView)>) -> bool {
    r.route@ == route && body_view(r.body) == Some(object_text(fields))
}

/// What an upload of phone numbers does with them.
#[derive(Debug, Clone, Copy, PartialEq, Eq, Structural)]
pub enum ContactOperationType {
    Add,
    Remove,
}

/// The gateway's code for an operation type.
pub open spec fn op_code(op: ContactOperationType) -> int {
    match op {
        ContactOperationType::Add => 1,
        ContactOperationType::Remove => 2,
    }
}

impl ContactOperationType {
    /// The code that the gateway expects for this operation type.
    pub fn code(&self) -> (r: u32)
        ensures
            r == op_code(*self),
    {
        match self {
            ContactOperationType::Add => 1,
            ContactOperationType::Remove => 2,
        }
    }
}

fn text(s: &str) -> (r: FieldValue)
    ensures
        r@ == FieldView::Text(s@),
{
    FieldValue::Text(s.to_owned())
}

/// The texts of the identifiers, in their order.
fn wxid_texts(wxids: &Vec<Wxid>) -> (r: Vec<String>)
    ensures
        r@.map_values(|s: String| s@) == wxids@.map_values(|w: Wxid| w@),
{
    let mut r: Vec<String> = Vec::new();
    let mut i: usize = 0;
    while i < wxids.len()
        invariant
            i <= wxids.len(),
            r.len() == i,
            forall|j: int| 0 <= j < i ==> (#[trigger] r@[j])@ == wxids@[j]@,
        decreases wxids.len() - i,
    {
        r.push(wxids[i].as_str().to_owned());
        i = i + 1;
    }
    assert(r@.map_values(|s: String| s@) =~= wxids@.map_values(|w: Wxid| w@));
    r
}

/// The request that fetches the contact list (a slow operation on the gateway).
pub fn fetch_contacts_list(app_id: &str) -> (r: ApiRequest)
    ensures
        posts(r, "/contacts/fetchContactsList"@, seq![("appId"@, FieldView::Text(app_id@))]),
{
    let mut p = Payload::new();
    p.add("appId", text(app_id));
    let r = prepare("/contacts/fetchContactsList", Some(&p));
    assert(p@ =~= seq![("appId"@, FieldView::Text(app_id@))]);
    r
}

/// The request that fetches the contact list as the gateway last cached it.
pub fn fetch_contacts_list_cache(app_id: &str) -> (r: ApiRequest)
    ensures
        posts(r, "/contacts/fetchContactsListCache"@, seq![("appId"@, FieldView::Text(app_id@))]),
{
    let mut p = Payload::new();
    p.add("appId", text(app_id));
    let r = prepare("/contacts/fetchContactsListCache", Some(&p));
    assert(p@ =~= seq![("appId"@, FieldView::Text(app_id@))]);
    r
}

/// The request that searches for a contact by a keyword (a phone number, an
/// account alias and the like).
pub fn search_friend(app_id: &str, keyword: &str) -> (r: ApiRequest)
    ensures
        posts(
            r,
            "/contacts/search"@,
            seq![("appId"@, FieldView::Text(app_id@)), ("contactsInfo"@, FieldView::Text(keyword@))],
        ),
{
    let mut p = Payload::new();
    p.add("appId", text(app_id));
    p.add("contactsInfo", text(keyword));
    let r = prepare("/contacts/search", Some(&p));
    assert(p@ =~= seq![
        ("appId"@, FieldView::Text(app_id@)),
        ("contactsInfo"@, FieldView::Text(keyword@)),
    ]);
    r
}

/// The request that adds a contact found by a search, with the search's
/// `v3` and `v4` tokens and a greeting.
pub fn search_add(app_id: &str, scene: i32, option: i32, v3: &str, v4: &str, content: &str) -> (r:
    ApiRequest)
    ensures
        posts(
            r,
            "/contacts/search"@,
            seq![
                ("appId"@, FieldView::Text(app_id@)),
                ("scene"@, FieldView::Number(scene as int)),
                ("option"@, FieldView::Number(option as int)),
                ("v3"@, FieldView::Text(v3@)),
                ("v4"@, FieldView::Text(v4@)),
                ("content"@, FieldView::Text(content@)),
            ],
        ),
{
    let mut p = Payload::new();
    p.add("appId", text(app_id));
    p.add("scene", FieldValue::Number(scene as i64));
    p.add("option", FieldValue::Number(option as i64));
    p.add("v3", text(v3));
    p.add("v4", text(v4));
    p.add("content", text(content));
    let r = prepare("/contacts/search", Some(&p));
    assert(p@ =~= seq![
        ("appId"@, FieldView::Text(app_id@)),
        ("scene"@, FieldView::Number(scene as int)),
        ("option"@, FieldView::Number(option as int)),
        ("v3"@, FieldView::Text(v3@)),
        ("v4"@, FieldView::Text(v4@)),
        ("content"@, FieldView::Text(content@)),
    ]);
    r
}

/// The request that deletes a contact.
pub fn delete_friend(app_id: &str, wxid: &Wxid) -> (r: ApiRequest)
    ensures
        posts(
            r,
            "/contacts/deleteFriend"@,
            seq![("appId"@, FieldView::Text(app_id@)), ("wxid"@, FieldView::Text(wxid@))],
        ),
{
    let mut p = Payload::new();
    p.add("appId", text(app_id));
    p.add("wxid", text(wxid.as_str()));
    let r = prepare("/contacts/deleteFriend", Some(&p));
    assert(p@ =~= seq![("appId"@, FieldView::Text(app_id@)), ("wxid"@, FieldView::Text(wxid@))]);
    r
}

/// The request that adds phone numbers to, or removes them from, the
/// account's phone contacts.
pub fn upload_phone_contacts(app_id: &str, phones: Vec<String>, op: ContactOperationType) -> (r:
    ApiRequest)
    ensures
        posts(
            r,
            "/contacts/uploadPhoneAddressList"@,
            seq![
                ("appId"@, FieldView::Text(app_id@)),
                ("phones"@, FieldView::TextList(phones@.map_values(|s: String| s@))),
                ("opType"@, FieldView::Number(op_code(op))),
            ],
        ),
{
    let ghost numbers = phones@.map_values(|s: String| s@);
    let mut p = Payload::new();
    p.add("appId", text(app_id));
    p.add("phones", FieldValue::TextList(phones));
    p.add("opType", FieldValue::Number(op.code() as i64));
    let r = prepare("/contacts/uploadPhoneAddressList", Some(&p));
    assert(p@ =~= seq![
        ("appId"@, FieldView::Text(app_id@)),
        ("phones"@, FieldView::TextList(numbers)),
        ("opType"@, FieldView::Number(op_code(op))),
    ]);
    r
}

/// The request that turns chat-only permission for a contact on or off.
pub fn set_friend_only_chat(app_id: &str, wxid: &Wxid, only_chat: bool) -> (r: ApiRequest)
    ensures
        posts(
            r,
            "/contacts/setFriendPermissions"@,
            seq![
                ("appId"@, FieldView::Text(app_id@)),
                ("wxid"@, FieldView::Text(wxid@)),
                ("onlyChat"@, FieldView::Flag(only_chat)),
            ],
        ),
{
    let mut p = Payload::new();
    p.add("appId", text(app_id));
    p.add("wxid", text(wxid.as_str()));
    p.add("onlyChat", FieldValue::Flag(only_chat));
    let r = prepare("/contacts/setFriendPermissions", Some(&p));
    assert(p@ =~= seq![
        ("appId"@, FieldView::Text(app_id@)),
        ("wxid"@, FieldView::Text(wxid@)),
        ("onlyChat"@, FieldView::Flag(only_chat)),
    ]);
    r
}

/// The request that sets the remark shown for a contact.
pub fn set_friend_remark(app_id: &str, wxid: &Wxid, remark: &str) -> (r: ApiRequest)
    ensures
        posts(
            r,
            "/contacts/setFriendRemark"@,
            seq![
                ("appId"@, FieldView::Text(app_id@)),
                ("wxid"@, FieldView::Text(wxid@)),
                ("remark"@, FieldView::Text(remark@)),
            ],
        ),
{
    let mut p = Payload::new();
    p.add("appId", text(app_id));
    p.add("wxid", text(wxid.as_str()));
    p.add("remark", text(remark));
    let r = prepare("/contacts/setFriendRemark", Some(&p));
    assert(p@ =~= seq![
        ("appId"@, FieldView::Text(app_id@)),
        ("wxid"@, FieldView::Text(wxid@)),
        ("remark"@, FieldView::Text(remark@)),
    ]);
    r
}

/// The request for the brief information of one contact.
pub fn get_brief_single(app_id: &str, wxid: &Wxid) -> (r: ApiRequest)
    ensures
        posts(
            r,
            "/contacts/getBriefInfo"@,
            seq![("appId"@, FieldView::Text(app_id@)), ("wxids"@, FieldView::TextList(seq![wxid@]))],
        ),
{
    let mut p = Payload::new();
    p.add("appId", text(app_id));
    let ids = vec![wxid.as_str().to_owned()];
    assert(ids@.map_values(|s: String| s@) =~= seq![wxid@]);
    p.add("wxids", FieldValue::TextList(ids));
    let r = prepare("/contacts/getBriefInfo", Some(&p));
    assert(p@ =~= seq![
        ("appId"@, FieldView::Text(app_id@)),
        ("wxids"@, FieldView::TextList(seq![wxid@])),
    ]);
    r
}

/// The request for the brief information of several contacts, in the
/// order given.
pub fn get_brief_list(app_id: &str, wxids: Vec<Wxid>) -> (r: ApiRequest)
    ensures
        posts(
            r,
            "/contacts/getBriefInfo"@,
            seq![
                ("appId"@, FieldView::Text(app_id@)),
                ("wxids"@, FieldView::TextList(wxids@.map_values(|w: Wxid| w@))),
            ],
        ),
{
    let mut p = Payload::new();
    p.add("appId", text(app_id));
    p.add("wxids", FieldValue::TextList(wxid_texts(&wxids)));
    let r = prepare("/contacts/getBriefInfo", Some(&p));
    assert(p@ =~= seq![
        ("appId"@, FieldView::Text(app_id@)),
        ("wxids"@, FieldView::TextList(wxids@.map_values(|w: Wxid| w@))),
    ]);
    r
}

} // verus!
