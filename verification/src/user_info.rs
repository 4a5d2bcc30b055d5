//! Who an account belongs to: e-mail address and user id, from tokens and service replies.
use crate::text;
use base64::engine::general_purpose::URL_SAFE_NO_PAD;
use base64::Engine;
use vstd::prelude::*;
use vstd::string::*;
use vstd::utf8::*;

verus! {

// ---------------------------------------------------------------------------------------------
// Identities
// ---------------------------------------------------------------------------------------------

/// E-mail address and user id of an account, as far as they are known.
#[derive(Debug, PartialEq, Eq)]
pub struct UserInfo {
    pub email: Option<String>,
    pub user_id: Option<String>,
}

/// The contents of a [`UserInfo`].
pub struct UserInfoView {
    pub email: Option<Seq<char>>,
    pub user_id: Option<Seq<char>>,
}

impl View for UserInfo {
    type V = UserInfoView;

    open spec fn view(&self) -> UserInfoView {
        UserInfoView { email: text::text_of(self.email), user_id: text::text_of(self.user_id) }
    }
}

/// Nothing is known.
pub open spec fn nobody() -> UserInfoView {
    UserInfoView { email: None, user_id: None }
}

impl UserInfo {
    /// Nothing is known.
    pub fn unknown() -> (r: UserInfo)
        ensures
            r@ == nobody(),
    {
        UserInfo { email: None, user_id: None }
    }

    /// Whether neither e-mail address nor user id is known.
    pub fn is_unknown(&self) -> (r: bool)
        ensures
            r == (self@ == nobody()),
    {
        self.email.is_none() && self.user_id.is_none()
    }
}

/// The text members of a JSON document that tell who it is about. A member that is missing or
/// is no text is `None`.
#[derive(Debug, PartialEq, Eq)]
pub struct UserClaims {
    pub email: Option<String>,
    /// The member that is asked first for the user id.
    pub id: Option<String>,
    /// The member that is asked when the first has none.
    pub other_id: Option<String>,
}

/// Who some claims are about; empty texts say nothing.
pub open spec fn claimed_user(
    email: Option<Seq<char>>,
    id: Option<Seq<char>>,
    other_id: Option<Seq<char>>,
) -> UserInfoView {
    UserInfoView {
        email: text::nonempty(email),
        user_id: match text::nonempty(id) {
            Some(uid) => Some(uid),
            None => text::nonempty(other_id),
        },
    }
}

/// Who the claims are about: the first nonempty id counts, and empty texts say nothing.
pub fn user_info_from_claims(claims: UserClaims) -> (r: UserInfo)
    ensures
        r@ == claimed_user(
            text::text_of(claims.email),
            text::text_of(claims.id),
            text::text_of(claims.other_id),
        ),
{
    let user_id = match text::nonempty_field(claims.id) {
        Some(uid) => Some(uid),
        None => text::nonempty_field(claims.other_id),
    };
    UserInfo { email: text::nonempty_field(claims.email), user_id }
}

// ---------------------------------------------------------------------------------------------
// JSON documents, from serde_json
// ---------------------------------------------------------------------------------------------

/// A parsed JSON document.
#[verifier::external_type_specification]
#[verifier::external_body]
pub struct ExValue(serde_json::Value);

/// The error of a failed JSON parse.
#[verifier::external_type_specification]
#[verifier::external_body]
pub struct ExJsonError(serde_json::Error);

/// The members of a JSON document, each with its text, or `None` where it is no text. A document
/// that is no object has no members.
pub uninterp spec fn json_members(document: serde_json::Value) -> Map<Seq<char>, Option<Seq<char>>>;

/// The members of the document that a JSON text holds; nothing when the text is no JSON.
pub uninterp spec fn json_text_members(text: Seq<char>) -> Option<
    Map<Seq<char>, Option<Seq<char>>>,
>;

/// `serde_json::from_str` into a `Value`: whether it parses, and the members of the document,
/// depend on the text alone.
#[verifier::external_body]
fn parse_json(text: &str) -> (r: Result<serde_json::Value, serde_json::Error>)
    ensures
        match r {
            Ok(document) => json_text_members(text@) == Some(json_members(document)),
            Err(_) => json_text_members(text@) is None,
        },
{
    serde_json::from_str(text)
}

/// The text of a member; nothing when the member is missing or is no text.
pub open spec fn member_text(
    members: Map<Seq<char>, Option<Seq<char>>>,
    key: Seq<char>,
) -> Option<Seq<char>> {
    if members.contains_key(key) {
        members[key]
    } else {
        None
    }
}

/// `serde_json::Value::get` with a text key, then `Value::as_str`: the text of that member of an
/// object, and nothing when there is no such member or it is no text.
#[verifier::external_body]
fn text_member(document: &serde_json::Value, key: &str) -> (r: Option<String>)
    ensures
        text::text_of(r) == member_text(json_members(*document), key@),
{
    Some(document.get(key)?.as_str()?.to_string())
}

/// The claims of a document, under these two keys for the user id.
fn read_claims(document: &serde_json::Value, id_key: &str, other_id_key: &str) -> (r: UserClaims)
    ensures
        text::text_of(r.email) == member_text(json_members(*document), "email"@),
        text::text_of(r.id) == member_text(json_members(*document), id_key@),
        text::text_of(r.other_id) == member_text(json_members(*document), other_id_key@),
{
    UserClaims {
        email: text_member(document, "email"),
        id: text_member(document, id_key),
        other_id: text_member(document, other_id_key),
    }
}

// ---------------------------------------------------------------------------------------------
// The reply of the account service
// ---------------------------------------------------------------------------------------------

/// Where the account service is asked about the account in use on a machine.
pub fn account_service_path(machine_id: &str) -> (r: String)
    ensures
        r@ == "/getAccount?machineId="@ + machine_id@,
{
    text::joined("/getAccount?machineId=", machine_id)
}

/// Who a reply of the account service is about.
pub open spec fn reply_user(members: Map<Seq<char>, Option<Seq<char>>>) -> UserInfoView {
    claimed_user(
        member_text(members, "email"@),
        member_text(members, "userId"@),
        member_text(members, "user_id"@),
    )
}

/// Who a reply of the account service is about.
pub fn enterprise_user_info(response: &serde_json::Value) -> (r: UserInfo)
    ensures
        r@ == reply_user(json_members(*response)),
{
    user_info_from_claims(read_claims(response, "userId", "user_id"))
}

// ---------------------------------------------------------------------------------------------
// JSON web tokens
// ---------------------------------------------------------------------------------------------

/// The middle one of the three parts of a token; nothing when there are not exactly three.
pub open spec fn token_payload(jwt: Seq<char>) -> Option<Seq<char>> {
    let parts = text::split_on(jwt, '.');
    if parts.len() == 3 {
        Some(parts[1])
    } else {
        None
    }
}

/// The error of a failed base64 decoding.
#[verifier::external_type_specification]
#[verifier::external_body]
pub struct ExDecodeError(base64::DecodeError);

/// The bytes that URL-safe base64 without padding stands for; nothing when a text is none.
pub uninterp spec fn base64_url_bytes(text: Seq<char>) -> Option<Seq<u8>>;

/// `base64::Engine::decode` of `URL_SAFE_NO_PAD`: the outcome depends on the text alone.
#[verifier::external_body]
fn decode_base64_url(text: &str) -> (r: Result<Vec<u8>, base64::DecodeError>)
    ensures
        match r {
            Ok(bytes) => base64_url_bytes(text@) == Some(bytes@),
            Err(_) => base64_url_bytes(text@) is None,
        },
{
    URL_SAFE_NO_PAD.decode(text)
}

/// The error of bytes that are no UTF-8.
#[verifier::external_type_specification]
#[verifier::external_body]
pub struct ExFromUtf8Error(std::string::FromUtf8Error);

/// `String::from_utf8`: the text that the bytes encode, or an error if they are no UTF-8.
#[verifier::external_body]
fn text_from_utf8(bytes: Vec<u8>) -> (r: Result<String, std::string::FromUtf8Error>)
    ensures
        match r {
            Ok(s) => valid_utf8(bytes@) && s@ == decode_utf8(bytes@),
            Err(_) => !valid_utf8(bytes@),
        },
{
    String::from_utf8(bytes)
}

/// The members of a token's payload; nothing when the token cannot be read.
pub open spec fn token_members(jwt: Seq<char>) -> Option<Map<Seq<char>, Option<Seq<char>>>> {
    match token_payload(jwt) {
        Some(payload) => match base64_url_bytes(payload) {
            Some(bytes) => if valid_utf8(bytes) {
                json_text_members(decode_utf8(bytes))
            } else {
                None
            },
            None => None,
        },
        None => None,
    }
}

/// Who a token is about.
pub open spec fn token_user(jwt: Seq<char>) -> UserInfoView {
    match token_members(jwt) {
        Some(members) => claimed_user(
            member_text(members, "email"@),
            member_text(members, "user_id"@),
            member_text(members, "cognito:username"@),
        ),
        None => nobody(),
    }
}

/// The characters of a text.
fn characters(s: &str) -> (r: Vec<char>)
    ensures
        r@ == s@,
{
    let mut r: Vec<char> = Vec::new();
    for c in it: s.chars()
        invariant
            it.seq() == s@,
            r@ == s@.take(it.index() as int),
    {
        r.push(c);
    }
    r
}

/// The first position of a character from a position on.
fn find_from(s: &Vec<char>, from: usize, wanted: char) -> (r: Option<usize>)
    requires
        from <= s.len(),
    ensures
        match r {
            Some(i) => from <= i < s.len() && s[i as int] == wanted && forall|j: int|
                from <= j < i ==> s[j] != wanted,
            None => forall|j: int| from <= j < s.len() ==> s[j] != wanted,
        },
{
    let mut i: usize = from;
    while i < s.len()
        invariant
            from <= i <= s.len(),
            forall|j: int| from <= j < i ==> s[j] != wanted,
        decreases s.len() - i,
    {
        if s[i] == wanted {
            return Some(i);
        }
        i = i + 1;
    }
    None
}

proof fn lemma_split_without(s: Seq<char>, sep: char)
    requires
        forall|j: int| 0 <= j < s.len() ==> s[j] != sep,
    ensures
        text::split_on(s, sep) == seq![s],
    decreases s.len(),
{
    if s.len() > 0 {
        lemma_split_without(s.drop_first(), sep);
        assert(seq![s[0]] + s.drop_first() == s);
        assert(text::split_on(s, sep) =~= seq![s]);
    }
}

proof fn lemma_split_nonempty(s: Seq<char>, sep: char)
    ensures
        text::split_on(s, sep).len() > 0,
    decreases s.len(),
{
    if s.len() > 0 {
        lemma_split_nonempty(s.drop_first(), sep);
    }
}

proof fn lemma_split_at_first(s: Seq<char>, sep: char, i: int)
    requires
        0 <= i < s.len(),
        s[i] == sep,
        forall|j: int| 0 <= j < i ==> s[j] != sep,
    ensures
        text::split_on(s, sep) == seq![s.take(i)] + text::split_on(s.skip(i + 1), sep),
    decreases s.len(),
{
    let rest = s.drop_first();
    if i == 0 {
        assert(s.skip(1) == rest);
        assert(s.take(0) == Seq::<char>::empty());
    } else {
        lemma_split_at_first(rest, sep, i - 1);
        assert(rest.skip(i) == s.skip(i + 1));
        assert(seq![s[0]] + rest.take(i - 1) == s.take(i));
        assert(text::split_on(s, sep) =~= seq![s.take(i)] + text::split_on(s.skip(i + 1), sep));
    }
}

/// The middle one of the three parts of a token.
pub fn jwt_payload(jwt: &str) -> (r: Option<&str>)
    ensures
        text::str_of(r) == token_payload(jwt@),
{
    let s = characters(jwt);
    let first = match find_from(&s, 0, '.') {
        Some(i) => i,
        None => {
            proof {
                lemma_split_without(jwt@, '.');
            }
            return None;
        },
    };
    let ghost rest = jwt@.skip(first + 1);
    proof {
        lemma_split_at_first(jwt@, '.', first as int);
    }
    let second = match find_from(&s, first + 1, '.') {
        Some(i) => i,
        None => {
            proof {
                lemma_split_without(rest, '.');
            }
            return None;
        },
    };
    let ghost tail = jwt@.skip(second + 1);
    proof {
        lemma_split_at_first(rest, '.', second - first - 1);
        assert(rest.skip(second - first) == tail);
        assert(rest.take(second - first - 1) == jwt@.subrange(first + 1, second as int));
    }
    match find_from(&s, second + 1, '.') {
        Some(third) => {
            proof {
                lemma_split_at_first(tail, '.', third - second - 1);
                lemma_split_nonempty(tail.skip(third - second), '.');
            }
            None
        },
        None => {
            proof {
                lemma_split_without(tail, '.');
            }
            Some(jwt.substring_char(first + 1, second))
        },
    }
}

/// Who a token is about, read from its payload: `email`, and `user_id` or else
/// `cognito:username`. A token that cannot be read is about nobody.
pub fn extract_user_info_from_jwt(jwt: &str) -> (r: UserInfo)
    ensures
        r@ == token_user(jwt@),
{
    let payload = match jwt_payload(jwt) {
        Some(p) => p,
        None => {
            return UserInfo::unknown();
        },
    };
    let bytes = match decode_base64_url(payload) {
        Ok(bytes) => bytes,
        Err(_) => {
            return UserInfo::unknown();
        },
    };
    let json = match text_from_utf8(bytes) {
        Ok(json) => json,
        Err(_) => {
            return UserInfo::unknown();
        },
    };
    match parse_json(json.as_str()) {
        Ok(document) => user_info_from_claims(
            read_claims(&document, "user_id", "cognito:username"),
        ),
        Err(_) => UserInfo::unknown(),
    }
}

// ---------------------------------------------------------------------------------------------
// Laws
// ---------------------------------------------------------------------------------------------

/// Of three parts joined by dots the middle one is the payload, however long it is.
pub proof fn law_payload_stands_in_the_middle(head: Seq<char>, payload: Seq<char>, sign: Seq<char>)
    requires
        !head.contains('.'),
        !payload.contains('.'),
        !sign.contains('.'),
    ensures
        token_payload(head + seq!['.'] + payload + seq!['.'] + sign) == Some(payload),
{
    let rest = payload + seq!['.'] + sign;
    let jwt = head + seq!['.'] + payload + seq!['.'] + sign;
    lemma_split_at_first(jwt, '.', head.len() as int);
    assert(jwt.take(head.len() as int) == head);
    assert(jwt.skip(head.len() as int + 1) == rest);
    lemma_split_at_first(rest, '.', payload.len() as int);
    assert(rest.take(payload.len() as int) == payload);
    assert(rest.skip(payload.len() as int + 1) == sign);
    lemma_split_without(sign, '.');
}

/// A text with other than three parts is about nobody.
pub proof fn law_token_has_three_parts(jwt: Seq<char>)
    ensures
        text::split_on(jwt, '.').len() != 3 ==> token_user(jwt) == nobody(),
{
}

/// Empty claims say nothing, and a nonempty first id is never overruled.
pub proof fn law_first_id_counts(
    email: Option<Seq<char>>,
    id: Option<Seq<char>>,
    other_id: Option<Seq<char>>,
)
    ensures
        claimed_user(email, id, other_id).email matches Some(e) ==> e.len() > 0,
        claimed_user(email, id, other_id).user_id matches Some(u) ==> u.len() > 0,
        id matches Some(u) && u.len() > 0 ==> claimed_user(email, id, other_id).user_id == id,
{
}

/// The nonempty text under a key of a document; nothing when the key is missing, or there is no
/// text or an empty one.
pub open spec fn says(members: Map<Seq<char>, Option<Seq<char>>>, key: Seq<char>) -> Option<
    Seq<char>,
> {
    if members.contains_key(key) && members[key] is Some && members[key]->0
        != Seq::<char>::empty() {
        members[key]
    } else {
        None
    }
}

/// The first of two that is there.
pub open spec fn first_of(one: Option<Seq<char>>, other: Option<Seq<char>>) -> Option<Seq<char>> {
    if one is Some {
        one
    } else {
        other
    }
}

proof fn lemma_says(members: Map<Seq<char>, Option<Seq<char>>>, key: Seq<char>)
    ensures
        says(members, key) == text::nonempty(member_text(members, key)),
{
    text::law_only_empty_texts_are_dropped(member_text(members, key));
}

/// The claims name an e-mail address only by a nonempty one; the user is the first nonempty id,
/// the second one only where the first says nothing.
pub proof fn law_claims_name_the_user(
    email: Option<Seq<char>>,
    id: Option<Seq<char>>,
    other_id: Option<Seq<char>>,
)
    ensures
        ({
            let r = claimed_user(email, id, other_id);
            let no_id = id is None || id == Some(Seq::<char>::empty());
            let no_other_id = other_id is None || other_id == Some(Seq::<char>::empty());
            &&& r.email is None <==> email is None || email == Some(Seq::<char>::empty())
            &&& r.email is Some ==> r.email == email
            &&& !no_id ==> r.user_id == id
            &&& no_id && !no_other_id ==> r.user_id == other_id
            &&& no_id && no_other_id ==> r.user_id is None
        }),
{
    text::law_only_empty_texts_are_dropped(email);
    text::law_only_empty_texts_are_dropped(id);
    text::law_only_empty_texts_are_dropped(other_id);
}

/// A reply of the account service names the e-mail address under `email` and the user under
/// `userId`, or else under `user_id`.
pub proof fn law_reply_names_the_user(members: Map<Seq<char>, Option<Seq<char>>>)
    ensures
        reply_user(members).email == says(members, "email"@),
        reply_user(members).user_id == first_of(
            says(members, "userId"@),
            says(members, "user_id"@),
        ),
{
    lemma_says(members, "email"@);
    lemma_says(members, "userId"@);
    lemma_says(members, "user_id"@);
}

/// A token of three parts whose middle one is base64 of the JSON text of a document names the
/// e-mail address under `email` and the user under `user_id`, or else under `cognito:username`.
pub proof fn law_token_names_the_user(
    head: Seq<char>,
    payload: Seq<char>,
    sign: Seq<char>,
    json: Seq<char>,
    members: Map<Seq<char>, Option<Seq<char>>>,
)
    requires
        !head.contains('.'),
        !payload.contains('.'),
        !sign.contains('.'),
        base64_url_bytes(payload) == Some(encode_utf8(json)),
        json_text_members(json) == Some(members),
    ensures
        ({
            let r = token_user(head + seq!['.'] + payload + seq!['.'] + sign);
            &&& r.email == says(members, "email"@)
            &&& r.user_id == first_of(
                says(members, "user_id"@),
                says(members, "cognito:username"@),
            )
        }),
{
    law_payload_stands_in_the_middle(head, payload, sign);
    encode_utf8_valid_utf8(json);
    encode_utf8_decode_utf8(json);
    lemma_says(members, "email"@);
    lemma_says(members, "user_id"@);
    lemma_says(members, "cognito:username"@);
}

/// Whom a token names rests on its payload alone, and a payload that is no base64, no UTF-8 or no
/// JSON names nobody.
pub proof fn law_unreadable_token_names_nobody(
    head: Seq<char>,
    payload: Seq<char>,
    sign: Seq<char>,
)
    requires
        !head.contains('.'),
        !payload.contains('.'),
        !sign.contains('.'),
        match base64_url_bytes(payload) {
            Some(bytes) => !valid_utf8(bytes) || json_text_members(decode_utf8(bytes)) is None,
            None => true,
        },
    ensures
        ({
            let r = token_user(head + seq!['.'] + payload + seq!['.'] + sign);
            r.email is None && r.user_id is None
        }),
{
    law_payload_stands_in_the_middle(head, payload, sign);
}

/// A token has a payload only if it is that payload between two other parts without a dot.
pub proof fn law_payload_has_a_part_on_each_side(jwt: Seq<char>)
    ensures
        token_payload(jwt) matches Some(payload) ==> !payload.contains('.') && exists|
            head: Seq<char>,
            sign: Seq<char>,
        |
            {
                &&& jwt == #[trigger] (head + seq!['.'] + payload + seq!['.'] + sign)
                &&& !head.contains('.')
                &&& !sign.contains('.')
            },
{
    let parts = text::split_on(jwt, '.');
    text::law_pieces_make_up_the_text(jwt, '.');
    if parts.len() == 3 {
        let (head, payload, sign) = (parts[0], parts[1], parts[2]);
        let rest = parts.drop_first();
        let last = rest.drop_first();
        assert(last.len() == 1 && last[0] == sign && rest[0] == payload);
        assert(text::joined_by(last, '.') == sign);
        assert(text::joined_by(rest, '.') == payload + seq!['.'] + sign);
        assert(jwt == head + seq!['.'] + payload + seq!['.'] + sign);
    }
}

/// Nobody is named exactly when neither e-mail address nor user id is known.
pub proof fn law_nobody_has_no_name(info: UserInfoView)
    ensures
        info == nobody() <==> info.email is None && info.user_id is None,
{
}

} // verus!
