use vstd::prelude::*;
use vstd::utf8::{decode_utf8, encode_utf8, encode_utf8_decode_utf8, encode_utf8_valid_utf8, valid_utf8};
use base64::Engine;
use crate::message::{messages_view, role_name_spec, role_of_name, Message, MessageModel, Role};

verus! {

/// The bytes that the standard base64 alphabet, with padding, decodes a text
/// to, or `None` where it is no such encoding.
pub uninterp spec fn base64_decoded(text: Seq<char>) -> Option<Seq<u8>>;

/// The text that the standard base64 alphabet, with padding, encodes bytes to.
pub uninterp spec fn base64_encoded(bytes: Seq<u8>) -> Seq<char>;

/// Relies on base64's `general_purpose::STANDARD.decode`: the decoded bytes,
/// or an error for text that is not a canonical padded encoding; the outcome
/// depends on the text alone.
#[verifier::external_body]
fn decode_base64(text: &str) -> (r: Option<Vec<u8>>)
    ensures
        r matches Some(b) ==> base64_decoded(text@) == Some(b@),
        r is None ==> base64_decoded(text@) is None,
{
    base64::engine::general_purpose::STANDARD.decode(text).ok()
}

/// Relies on base64's `general_purpose::STANDARD.encode`: the canonical padded
/// encoding, which `STANDARD.decode` turns back into the same bytes. It panics
/// only where the encoded length overflows `usize`.
#[verifier::external_body]
fn encode_base64(bytes: &[u8]) -> (r: String)
    requires
        bytes@.len() <= usize::MAX / 2,
    ensures
        r@ == base64_encoded(bytes@),
        base64_decoded(r@) == Some(bytes@),
{
    base64::engine::general_purpose::STANDARD.encode(bytes)
}

/// Relies on `String::from_utf8`: a string exactly when the bytes are valid
/// UTF-8, holding the characters they encode.
#[verifier::external_body]
fn string_from_utf8(bytes: Vec<u8>) -> (r: Option<String>)
    ensures
        r is Some <==> valid_utf8(bytes@),
        r matches Some(s) ==> s@ == decode_utf8(bytes@),
{
    String::from_utf8(bytes).ok()
}

/// The text a prior-history blob carries: base64 over UTF-8. `None` where the
/// blob is not base64 or its bytes are not UTF-8.
pub open spec fn blob_text(blob: Seq<char>) -> Option<Seq<char>> {
    match base64_decoded(blob) {
        None => None,
        Some(bytes) => if valid_utf8(bytes) {
            Some(decode_utf8(bytes))
        } else {
            None
        },
    }
}

/// Reads the text out of a prior-history blob; a corrupted blob gives `None`.
pub fn history_text_from_blob(blob: &str) -> (r: Option<String>)
    ensures
        r matches Some(t) ==> blob_text(blob@) == Some(t@),
        r is None ==> blob_text(blob@) is None,
{
    match decode_base64(blob) {
        None => None,
        Some(bytes) => string_from_utf8(bytes),
    }
}

/// Frames a text as a prior-history blob; reading the blob gives the text
/// back.
pub fn blob_from_history_text(text: &str) -> (r: String)
    requires
        encode_utf8(text@).len() <= usize::MAX / 2,
    ensures
        r@ == base64_encoded(encode_utf8(text@)),
        blob_text(r@) == Some(text@),
{
    let bytes = text.as_bytes();
    proof {
        encode_utf8_valid_utf8(text@);
        encode_utf8_decode_utf8(text@);
    }
    encode_base64(bytes)
}

/// The values of role-name and content pairs.
pub open spec fn pairs_view(v: Seq<(String, String)>) -> Seq<(Seq<char>, Seq<char>)> {
    v.map_values(|p: (String, String)| (p.0@, p.1@))
}

/// The messages that pairs of role name and content stand for, or `None`
/// where a name is no role.
pub open spec fn messages_of_pairs(p: Seq<(Seq<char>, Seq<char>)>) -> Option<Seq<MessageModel>> {
    if forall|i: int| 0 <= i < p.len() ==> (#[trigger] role_of_name(p[i].0)) is Some {
        Some(
            p.map_values(
                |q: (Seq<char>, Seq<char>)| MessageModel { role: role_of_name(q.0)->0, content: q.1 },
            ),
        )
    } else {
        None
    }
}

/// The role-name and content pairs of messages.
pub open spec fn pairs_of_messages(ms: Seq<MessageModel>) -> Seq<(Seq<char>, Seq<char>)> {
    ms.map_values(|m: MessageModel| (role_name_spec(m.role), m.content))
}

/// Turns decoded pairs of role name and content into messages, in order. A
/// name that is no role makes the whole history malformed, and it is then
/// empty.
pub fn messages_from_pairs(pairs: &Vec<(String, String)>) -> (r: Vec<Message>)
    ensures
        messages_of_pairs(pairs_view(pairs@)) matches Some(ms) ==> messages_view(r@) == ms,
        messages_of_pairs(pairs_view(pairs@)) is None ==> r@.len() == 0,
{
    let ghost pv = pairs_view(pairs@);
    let mut r: Vec<Message> = Vec::new();
    let mut i: usize = 0;
    while i < pairs.len()
        invariant
            i <= pairs@.len(),
            pv == pairs_view(pairs@),
            r@.len() == i,
            forall|k: int| 0 <= k < i ==> (#[trigger] role_of_name(pv[k].0)) is Some,
            forall|k: int|
                0 <= k < i ==> (#[trigger] r@[k])@ == (MessageModel {
                    role: role_of_name(pv[k].0)->0,
                    content: pv[k].1,
                }),
        decreases pairs@.len() - i,
    {
        let (name, content) = &pairs[i];
        match Role::from_name(name.as_str()) {
            None => {
                assert(role_of_name(pv[i as int].0) is None);
                return Vec::new();
            },
            Some(role) => {
                r.push(Message::new(role, content.clone()));
            },
        }
        i = i + 1;
    }
    assert(messages_view(r@) =~= messages_of_pairs(pv)->0);
    r
}

/// The role-name and content pairs of messages, in order.
pub fn pairs_from_messages(messages: &Vec<Message>) -> (r: Vec<(String, String)>)
    ensures
        pairs_view(r@) == pairs_of_messages(messages_view(messages@)),
{
    let ghost mv = messages_view(messages@);
    let mut r: Vec<(String, String)> = Vec::new();
    let mut i: usize = 0;
    while i < messages.len()
        invariant
            i <= messages@.len(),
            mv == messages_view(messages@),
            pairs_view(r@) == pairs_of_messages(mv.subrange(0, i as int)),
        decreases messages@.len() - i,
    {
        let m = &messages[i];
        let ghost before = pairs_view(r@);
        r.push((m.role.name(), m.content.clone()));
        assert(pairs_view(r@) =~= before.push((role_name_spec(m.role), m.content@)));
        assert(pairs_of_messages(mv.subrange(0, i + 1)) =~= pairs_of_messages(
            mv.subrange(0, i as int),
        ).push((role_name_spec(m.role), m.content@)));
        i = i + 1;
    }
    assert(mv.subrange(0, i as int) =~= mv);
    r
}

/// Every role's name is read back as that role.
pub proof fn lemma_role_name_round_trip(role: Role)
    ensures
        role_of_name(role_name_spec(role)) == Some(role),
{
    reveal_strlit("system");
    reveal_strlit("user");
    reveal_strlit("assistant");
    assert("system"@.len() != "user"@.len());
    assert("user"@.len() != "assistant"@.len());
    assert("system"@[0] != "assistant"@[0]);
}

/// Writing messages as role-name and content pairs and reading them back
/// gives the same messages, in the same order.
pub proof fn lemma_pairs_round_trip(ms: Seq<MessageModel>)
    ensures
        messages_of_pairs(pairs_of_messages(ms)) == Some(ms),
{
    let p = pairs_of_messages(ms);
    assert forall|i: int| 0 <= i < p.len() implies (#[trigger] role_of_name(p[i].0)) is Some by {
        lemma_role_name_round_trip(ms[i].role);
    }
    assert forall|i: int| 0 <= i < ms.len() implies role_of_name(p[i].0)->0 == ms[i].role by {
        lemma_role_name_round_trip(ms[i].role);
    }
    assert(messages_of_pairs(p)->0 =~= ms);
}

} // verus!
