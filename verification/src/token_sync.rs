//! Matching stored accounts with the IDE's login, and moving tokens between the two.
use crate::account::{Account, AccountView, KiroLocalToken, LocalTokenView};
use crate::expiry;
use crate::text;
use vstd::prelude::*;
use vstd::utf8::*;

verus! {

// ---------------------------------------------------------------------------------------------
// Is this account the IDE's login?
// ---------------------------------------------------------------------------------------------

/// How many bytes of the IDE's access token are compared when the whole does not match.
pub const ACCESS_PREFIX_BYTES: usize = 20;

/// The IDE's field says something, and the account's field says the same.
pub open spec fn fields_agree(ide: Option<Seq<char>>, own: Option<Seq<char>>) -> bool {
    text::filled(ide) is Some && own is Some && text::filled(ide)->0 == text::trimmed(own->0)
}

/// How many bytes of an access token its prefix has.
pub open spec fn access_prefix_len(token: Seq<char>) -> int {
    if encode_utf8(token).len() < ACCESS_PREFIX_BYTES {
        encode_utf8(token).len() as int
    } else {
        ACCESS_PREFIX_BYTES as int
    }
}

/// The first bytes of an access token, as text.
pub open spec fn access_prefix(token: Seq<char>) -> Seq<char> {
    decode_utf8(encode_utf8(token).subrange(0, access_prefix_len(token)))
}

/// The prefix of an access token ends between two characters.
pub open spec fn access_prefix_is_whole(token: Seq<char>) -> bool {
    is_char_boundary(encode_utf8(token), access_prefix_len(token))
}

/// The account's access token begins like that of the IDE. A prefix that would end inside a
/// character is none.
pub open spec fn access_prefixes_agree(ide: Option<Seq<char>>, own: Option<Seq<char>>) -> bool {
    &&& text::filled(ide) is Some
    &&& own is Some
    &&& access_prefix_is_whole(text::filled(ide)->0)
    &&& access_prefix(text::filled(ide)->0).is_prefix_of(text::trimmed(own->0))
}

/// The account is the one that the IDE is logged in with.
pub open spec fn matches_ide(a: AccountView, l: LocalTokenView) -> bool {
    ||| fields_agree(l.refresh_token, a.refresh_token)
    ||| fields_agree(l.access_token, a.access_token)
    ||| access_prefixes_agree(l.access_token, a.access_token)
    ||| fields_agree(l.client_id_hash, a.client_id_hash)
}

/// Whether the account's field agrees with the IDE's.
fn agree(ide: &Option<String>, own: &Option<String>) -> (r: bool)
    ensures
        r == fields_agree(text::text_of(*ide), text::text_of(*own)),
{
    match text::filled_text(ide) {
        Some(t) => text::trimmed_field_is(own, t),
        None => false,
    }
}

/// The number of bytes that the prefix of an access token has.
fn prefix_len(token: &str) -> (r: usize)
    ensures
        r == access_prefix_len(token@),
{
    let n: usize = token.as_bytes().len();
    if n < ACCESS_PREFIX_BYTES {
        n
    } else {
        ACCESS_PREFIX_BYTES
    }
}

/// Whether the account is the one that the IDE is logged in with, judged on this machine alone:
/// by the refresh token, the access token, the beginning of the access token, and the client id
/// hash, in this order. An access token whose prefix would end inside a character is compared
/// as a whole only.
pub fn account_matches_ide_token(account: &Account, local: &KiroLocalToken) -> (r: bool)
    ensures
        r == matches_ide(account@, local@),
{
    if agree(&local.refresh_token, &account.refresh_token) {
        return true;
    }
    if agree(&local.access_token, &account.access_token) {
        return true;
    }
    match text::filled_text(&local.access_token) {
        Some(token) => {
            let n: usize = prefix_len(token);
            if token.is_char_boundary(n) {
                let (prefix, _) = token.split_at(n);
                proof {
                    encode_utf8_decode_utf8(prefix@);
                }
                match &account.access_token {
                    Some(own) => {
                        if text::starts_with(own.as_str().trim(), prefix) {
                            return true;
                        }
                    },
                    None => {},
                }
            }
        },
        None => {},
    }
    agree(&local.client_id_hash, &account.client_id_hash)
}

// ---------------------------------------------------------------------------------------------
// From the IDE to the account
// ---------------------------------------------------------------------------------------------

/// `preferred`, or else `otherwise`.
pub open spec fn or_else(preferred: Option<Seq<char>>, otherwise: Option<Seq<char>>) -> Option<
    Seq<char>,
> {
    match preferred {
        Some(_) => preferred,
        None => otherwise,
    }
}

/// The account with the tokens that the IDE has; `normalized` is what the IDE's expiry became
/// in the format of the account store.
pub open spec fn with_ide_tokens(
    a: AccountView,
    l: LocalTokenView,
    normalized: Option<Seq<char>>,
) -> AccountView {
    AccountView {
        refresh_token: or_else(text::filled(l.refresh_token), a.refresh_token),
        access_token: or_else(text::filled(l.access_token), a.access_token),
        expires_at: if text::filled(l.expires_at) is Some {
            or_else(normalized, a.expires_at)
        } else {
            a.expires_at
        },
        ..a
    }
}

/// The IDE's expiry, where it has one to be brought into the format of the account store.
pub fn expiry_to_normalize(local: &KiroLocalToken) -> (r: Option<&str>)
    ensures
        text::str_of(r) == text::filled(local@.expires_at),
{
    text::filled_text(&local.expires_at)
}

/// Takes over the tokens that the IDE has, and says whether that changed the account.
///
/// `normalized_expiry` is what the IDE's expiry became in the format of the account store; it
/// is looked at only when the IDE has an expiry. Nothing is saved here.
pub fn apply_ide_tokens_to_account(
    account: &mut Account,
    local: &KiroLocalToken,
    normalized_expiry: &Option<String>,
) -> (changed: bool)
    ensures
        final(account)@ == with_ide_tokens(old(account)@, local@, text::text_of(*normalized_expiry)),
        changed == (final(account)@ != old(account)@),
{
    let mut changed = false;
    match text::filled_text(&local.refresh_token) {
        Some(rt) => {
            if !text::field_is(&account.refresh_token, rt) {
                account.refresh_token = Some(rt.to_owned());
                changed = true;
            }
        },
        None => {},
    }
    match text::filled_text(&local.access_token) {
        Some(at) => {
            if !text::field_is(&account.access_token, at) {
                account.access_token = Some(at.to_owned());
                changed = true;
            }
        },
        None => {},
    }
    match expiry_to_normalize(local) {
        Some(_) => match normalized_expiry {
            Some(normalized) => {
                if !text::field_is(&account.expires_at, normalized.as_str()) {
                    account.expires_at = Some(normalized.clone());
                    changed = true;
                }
            },
            None => {},
        },
        None => {},
    }
    changed
}

// ---------------------------------------------------------------------------------------------
// From the account to the IDE
// ---------------------------------------------------------------------------------------------

/// What is to be written into the IDE's login.
#[derive(Debug, PartialEq, Eq)]
pub struct IdeTokenWrite {
    pub access_token: String,
    pub refresh_token: String,
    pub expires_at: String,
}

/// Why an account cannot be written into the IDE's login.
#[derive(Clone, Copy, Debug, PartialEq, Eq, Structural)]
pub enum SyncError {
    MissingAccessToken,
    MissingRefreshToken,
}

impl SyncError {
    /// The message for the user.
    pub fn message(self) -> (r: String)
        ensures
            r@ == (match self {
                SyncError::MissingAccessToken => "KAM 账号缺少 accessToken，无法回写 IDE"@,
                SyncError::MissingRefreshToken => "KAM 账号缺少 refreshToken，无法回写 IDE"@,
            }),
    {
        match self {
            SyncError::MissingAccessToken => "KAM 账号缺少 accessToken，无法回写 IDE".to_owned(),
            SyncError::MissingRefreshToken => "KAM 账号缺少 refreshToken，无法回写 IDE".to_owned(),
        }
    }
}

/// The write carries the account's trimmed tokens and its expiry.
pub open spec fn is_write_of(a: AccountView, w: IdeTokenWrite) -> bool {
    &&& text::filled(a.access_token) == Some(w.access_token@)
    &&& text::filled(a.refresh_token) == Some(w.refresh_token@)
    &&& expiry::is_ide_expiry_of(a.expires_at, w.expires_at@)
}

/// The outcome of preparing a write for this account.
pub open spec fn is_sync_of(a: AccountView, r: Result<IdeTokenWrite, SyncError>) -> bool {
    if text::filled(a.access_token) is None {
        r == Err::<IdeTokenWrite, SyncError>(SyncError::MissingAccessToken)
    } else if text::filled(a.refresh_token) is None {
        r == Err::<IdeTokenWrite, SyncError>(SyncError::MissingRefreshToken)
    } else {
        r matches Ok(w) && is_write_of(a, w)
    }
}

/// What replaces the tokens in the IDE's login so that it goes on with those of the account.
/// Both tokens are needed; the login's method and provider stay as they are.
pub fn sync_kam_tokens_to_ide(account: &Account) -> (r: Result<IdeTokenWrite, SyncError>)
    ensures
        is_sync_of(account@, r),
{
    let access = match text::filled_text(&account.access_token) {
        Some(t) => t,
        None => {
            return Err(SyncError::MissingAccessToken);
        },
    };
    let refresh = match text::filled_text(&account.refresh_token) {
        Some(t) => t,
        None => {
            return Err(SyncError::MissingRefreshToken);
        },
    };
    let expires_at = match &account.expires_at {
        Some(s) => expiry::kam_expires_at_to_ide_rfc3339(Some(s.as_str())),
        None => expiry::kam_expires_at_to_ide_rfc3339(None),
    };
    Ok(
        IdeTokenWrite {
            access_token: access.to_owned(),
            refresh_token: refresh.to_owned(),
            expires_at,
        },
    )
}

/// What replaces the tokens in the IDE's login if the account is the one that the IDE is logged
/// in with; nothing when the IDE has no login or another one.
pub fn sync_kam_tokens_to_ide_if_current(
    account: &Account,
    local: Option<&KiroLocalToken>,
) -> (r: Result<Option<IdeTokenWrite>, SyncError>)
    ensures
        match local {
            Some(l) => if matches_ide(account@, l@) {
                match r {
                    Ok(Some(w)) => is_sync_of(account@, Ok(w)),
                    Ok(None) => false,
                    Err(e) => is_sync_of(account@, Err(e)),
                }
            } else {
                r matches Ok(None)
            },
            None => r matches Ok(None),
        },
{
    match local {
        Some(l) => {
            if !account_matches_ide_token(account, l) {
                return Ok(None);
            }
            match sync_kam_tokens_to_ide(account) {
                Ok(w) => Ok(Some(w)),
                Err(e) => Err(e),
            }
        },
        None => Ok(None),
    }
}

// ---------------------------------------------------------------------------------------------
// Cooldown and strikes
// ---------------------------------------------------------------------------------------------

/// The shortest time, in seconds, between two successful refreshes of an account.
pub const REFRESH_SUCCESS_COOLDOWN_SECS: u64 = 30 * 60;

/// How many authentication failures in a row disable an account.
pub const REFRESH_AUTH_FAILURE_STRIKES_TO_DISABLE: u32 = 3;

/// A refresh at `now` is too soon after the last success.
pub open spec fn cools_down(last_success: Option<u64>, now: u64) -> bool {
    match last_success {
        Some(ts) => now < ts + REFRESH_SUCCESS_COOLDOWN_SECS,
        None => false,
    }
}

/// Whether a refresh is to be skipped because the last success was too short ago. Times are
/// Unix seconds; a last success that lies ahead of the clock counts as just now.
pub fn should_skip_refresh_cooldown(last_success_unix: Option<u64>, now_unix: u64) -> (r: bool)
    ensures
        r == cools_down(last_success_unix, now_unix),
{
    match last_success_unix {
        Some(ts) => now_unix.saturating_sub(ts) < REFRESH_SUCCESS_COOLDOWN_SECS,
        None => false,
    }
}

/// The strikes after one more authentication failure.
pub open spec fn one_more_strike(strikes: u32) -> u32 {
    if strikes < u32::MAX {
        (strikes + 1) as u32
    } else {
        u32::MAX
    }
}

/// So many strikes disable an account.
pub open spec fn strikes_disable(strikes: u32) -> bool {
    strikes >= REFRESH_AUTH_FAILURE_STRIKES_TO_DISABLE
}

/// Counts an authentication failure: the new number of strikes, and whether they disable the
/// account.
pub fn record_refresh_auth_failure(current_strikes: u32) -> (r: (u32, bool))
    ensures
        r.0 == one_more_strike(current_strikes),
        r.1 == strikes_disable(r.0),
{
    let next: u32 = current_strikes.saturating_add(1);
    (next, next >= REFRESH_AUTH_FAILURE_STRIKES_TO_DISABLE)
}

// ---------------------------------------------------------------------------------------------
// Laws
// ---------------------------------------------------------------------------------------------

/// Of an access token in ASCII the prefix is its first 20 characters, or all of a shorter one,
/// and never ends inside a character.
pub proof fn law_ascii_access_prefix(token: Seq<char>)
    requires
        is_ascii_chars(token),
    ensures
        access_prefix_is_whole(token),
        access_prefix(token) == token.take(
            if token.len() < 20 {
                token.len() as int
            } else {
                20
            },
        ),
{
    is_ascii_chars_encode_utf8(token);
    let n = access_prefix_len(token);
    let head = token.take(n);
    let tail = token.skip(n);
    assert(token == head + tail);
    assert(is_ascii_chars(head));
    assert(is_ascii_chars(tail));
    is_ascii_chars_encode_utf8(head);
    text::lemma_encode_concat(head, tail);
    assert(encode_utf8(token).subrange(0, n) == encode_utf8(head));
    encode_utf8_decode_utf8(head);
    encode_utf8_valid_utf8(token);
    assert(access_prefix_is_whole(token)) by {
        if n == encode_utf8(token).len() {
            is_char_boundary_start_end_of_seq(encode_utf8(token));
        } else {
            is_char_boundary_iff_not_is_continuation_byte(encode_utf8(token), n);
            assert(encode_utf8(token)[n] == token[n] as u8);
            assert(token[n] as u32 <= 0x7f);
        }
    }
}

/// An account whose access token equals that of the IDE also begins like it: the beginning
/// alone decides whenever it can be cut.
pub proof fn law_equal_access_tokens_begin_alike(ide: Option<Seq<char>>, own: Option<Seq<char>>)
    requires
        fields_agree(ide, own),
        access_prefix_is_whole(text::filled(ide)->0),
    ensures
        access_prefixes_agree(ide, own),
{
    let token = text::filled(ide)->0;
    let bytes = encode_utf8(token);
    let n = access_prefix_len(token);
    encode_utf8_valid_utf8(token);
    encode_utf8_decode_utf8(token);
    valid_utf8_split(bytes, n);
    decode_utf8_split(bytes, n);
    let rest = decode_utf8(bytes.subrange(n, bytes.len() as int));
    assert(token == access_prefix(token) + rest);
}

/// A nonblank client id hash that is letter for letter that of the IDE makes the account match.
pub proof fn law_same_client_id_hash_matches(a: AccountView, l: LocalTokenView)
    requires
        !text::is_unfilled(a.client_id_hash),
        l.client_id_hash == a.client_id_hash,
    ensures
        matches_ide(a, l),
{
}

/// Blank fields of the IDE match nothing.
pub proof fn law_blank_login_matches_nothing(a: AccountView, l: LocalTokenView)
    requires
        text::is_unfilled(l.refresh_token),
        text::is_unfilled(l.access_token),
        text::is_unfilled(l.client_id_hash),
    ensures
        !matches_ide(a, l),
{
}

/// Taking over the IDE's tokens a second time changes nothing.
pub proof fn law_taking_over_tokens_settles(
    a: AccountView,
    l: LocalTokenView,
    normalized: Option<Seq<char>>,
)
    ensures
        with_ide_tokens(with_ide_tokens(a, l, normalized), l, normalized) == with_ide_tokens(
            a,
            l,
            normalized,
        ),
{
}

/// An account that took over the IDE's tokens is the one that the IDE is logged in with, as
/// soon as the IDE has a token at all.
pub proof fn law_rescued_account_matches(
    a: AccountView,
    l: LocalTokenView,
    normalized: Option<Seq<char>>,
)
    requires
        !text::is_unfilled(l.refresh_token) || !text::is_unfilled(l.access_token),
    ensures
        matches_ide(with_ide_tokens(a, l, normalized), l),
{
    if !text::is_unfilled(l.refresh_token) {
        text::law_trim_is_idempotent(l.refresh_token->0);
    } else {
        text::law_trim_is_idempotent(l.access_token->0);
    }
}

/// What was written into the IDE's login from an account makes that account match it again.
pub proof fn law_written_account_matches(a: AccountView, l: LocalTokenView, w: IdeTokenWrite)
    requires
        is_write_of(a, w),
        l.access_token == Some(w.access_token@),
        l.refresh_token == Some(w.refresh_token@),
    ensures
        matches_ide(a, l),
{
    text::law_trim_is_idempotent(a.refresh_token->0);
}

/// After a success at `ts` refreshes are skipped for exactly the cooldown, and a clock that was
/// set back does not end it.
pub proof fn law_cooldown_window(ts: u64, now: u64)
    ensures
        cools_down(Some(ts), now) <==> now - ts < 1800,
        now <= ts ==> cools_down(Some(ts), now),
        !cools_down(None, now),
{
}

/// The strikes after `failures` failures in a row.
pub open spec fn strikes_after(failures: nat) -> u32
    decreases failures,
{
    if failures == 0 {
        0
    } else {
        one_more_strike(strikes_after((failures - 1) as nat))
    }
}

/// Failures in a row disable an account from the third on, and not before.
pub proof fn law_third_strike_disables(failures: nat)
    ensures
        strikes_disable(strikes_after(failures)) <==> failures >= 3,
        strikes_after(failures) == if failures < u32::MAX {
            failures as int
        } else {
            u32::MAX as int
        },
    decreases failures,
{
    if failures > 0 {
        law_third_strike_disables((failures - 1) as nat);
    }
}

/// Both fields are there and hold the same text between the white space at their ends, and not
/// white space alone.
pub open spec fn hold_the_same(one: Option<Seq<char>>, other: Option<Seq<char>>) -> bool {
    &&& one is Some
    &&& other is Some
    &&& text::trimmed(one->0) == text::trimmed(other->0)
    &&& text::trimmed(one->0) != Seq::<char>::empty()
}

/// `head` is what both tokens begin with, and takes 20 bytes, or all of the first token if that is
/// shorter.
pub open spec fn is_common_head(head: Seq<char>, ide: Seq<char>, own: Seq<char>) -> bool {
    &&& head.is_prefix_of(ide)
    &&& head.is_prefix_of(own)
    &&& encode_utf8(head).len() == if encode_utf8(ide).len() < 20 {
        encode_utf8(ide).len() as int
    } else {
        20
    }
}

proof fn lemma_access_prefix_is_head(token: Seq<char>)
    requires
        access_prefix_is_whole(token),
    ensures
        access_prefix(token).is_prefix_of(token),
        encode_utf8(access_prefix(token)).len() == access_prefix_len(token),
{
    let bytes = encode_utf8(token);
    let n = access_prefix_len(token);
    encode_utf8_valid_utf8(token);
    encode_utf8_decode_utf8(token);
    valid_utf8_split(bytes, n);
    decode_utf8_split(bytes, n);
    decode_utf8_encode_utf8(bytes.subrange(0, n));
    let p = access_prefix(token);
    let rest = decode_utf8(bytes.subrange(n, bytes.len() as int));
    assert(token == p + rest);
    assert(token.subrange(0, p.len() as int) == p);
}

proof fn lemma_head_is_access_prefix(head: Seq<char>, token: Seq<char>)
    requires
        head.is_prefix_of(token),
        encode_utf8(head).len() == access_prefix_len(token),
    ensures
        access_prefix_is_whole(token),
        access_prefix(token) == head,
{
    let bytes = encode_utf8(token);
    let n = access_prefix_len(token);
    let rest = token.skip(head.len() as int);
    assert(token == head + rest);
    text::lemma_encode_concat(head, rest);
    assert(bytes.subrange(0, n) == encode_utf8(head));
    encode_utf8_decode_utf8(head);
    encode_utf8_valid_utf8(token);
    encode_utf8_valid_utf8(rest);
    if n == bytes.len() {
        is_char_boundary_start_end_of_seq(bytes);
    } else {
        is_char_boundary_start_end_of_seq(encode_utf8(rest));
        is_char_boundary_iff_not_is_continuation_byte(encode_utf8(rest), 0);
        assert(bytes[n] == encode_utf8(rest)[0]);
        is_char_boundary_iff_not_is_continuation_byte(bytes, n);
    }
}

/// An account matches the IDE's login exactly when one of four things agrees: the refresh token,
/// the access token, the first 20 bytes of the access token, or the client id hash. Where all
/// differ, or one of the two is absent or blank, it does not match.
pub proof fn law_match_has_an_agreeing_field(a: AccountView, l: LocalTokenView)
    ensures
        matches_ide(a, l) <==> {
            ||| hold_the_same(l.refresh_token, a.refresh_token)
            ||| hold_the_same(l.access_token, a.access_token)
            ||| hold_the_same(l.client_id_hash, a.client_id_hash)
            ||| {
                &&& l.access_token is Some
                &&& a.access_token is Some
                &&& text::trimmed(l.access_token->0) != Seq::<char>::empty()
                &&& exists|head: Seq<char>| #[trigger]
                    is_common_head(
                        head,
                        text::trimmed(l.access_token->0),
                        text::trimmed(a.access_token->0),
                    )
            }
        },
{
    if l.access_token is Some && a.access_token is Some {
        let ide = text::trimmed(l.access_token->0);
        let own = text::trimmed(a.access_token->0);
        if access_prefix_is_whole(ide) {
            lemma_access_prefix_is_head(ide);
            if access_prefix(ide).is_prefix_of(own) {
                assert(is_common_head(access_prefix(ide), ide, own));
            }
        }
        if exists|head: Seq<char>| #[trigger] is_common_head(head, ide, own) {
            let head = choose|head: Seq<char>| #[trigger] is_common_head(head, ide, own);
            lemma_head_is_access_prefix(head, ide);
        }
    }
    lemma_empty_or_not(l.refresh_token);
    lemma_empty_or_not(l.access_token);
    lemma_empty_or_not(l.client_id_hash);
}

proof fn lemma_empty_or_not(field: Option<Seq<char>>)
    ensures
        field is Some ==> (text::filled(field) is None <==> text::trimmed(field->0) == Seq::<
            char,
        >::empty()),
{
    if field is Some && text::trimmed(field->0).len() == 0 {
        assert(text::trimmed(field->0) == Seq::<char>::empty());
    }
}

/// `new` is the trimmed text of the IDE's field where that says something, and otherwise `own`.
pub open spec fn is_taken_over(
    new: Option<Seq<char>>,
    own: Option<Seq<char>>,
    ide: Option<Seq<char>>,
) -> bool {
    if ide is Some && text::trimmed(ide->0) != Seq::<char>::empty() {
        new == Some(text::trimmed(ide->0))
    } else {
        new == own
    }
}

/// Taking over the IDE's tokens replaces each token by the one that the IDE has, keeps those that
/// the IDE lacks, replaces the expiry only where the IDE has one that could be brought into the
/// store's format, and changes nothing else.
pub proof fn law_ide_tokens_replace_those_of_the_account(
    a: AccountView,
    l: LocalTokenView,
    normalized: Option<Seq<char>>,
)
    ensures
        ({
            let r = with_ide_tokens(a, l, normalized);
            &&& is_taken_over(r.refresh_token, a.refresh_token, l.refresh_token)
            &&& is_taken_over(r.access_token, a.access_token, l.access_token)
            &&& if l.expires_at is Some && text::trimmed(l.expires_at->0) != Seq::<char>::empty()
                && normalized is Some {
                r.expires_at == normalized
            } else {
                r.expires_at == a.expires_at
            }
            &&& r == AccountView {
                refresh_token: r.refresh_token,
                access_token: r.access_token,
                expires_at: r.expires_at,
                ..a
            }
        }),
{
    lemma_empty_or_not(l.refresh_token);
    lemma_empty_or_not(l.access_token);
    lemma_empty_or_not(l.expires_at);
}

/// An account can be written into the IDE's login exactly when it has both tokens; a missing
/// access token is told first. What is written are the trimmed tokens.
pub proof fn law_write_needs_both_tokens(a: AccountView, r: Result<IdeTokenWrite, SyncError>)
    requires
        is_sync_of(a, r),
    ensures
        ({
            let has_access = a.access_token is Some && text::trimmed(a.access_token->0) != Seq::<
                char,
            >::empty();
            let has_refresh = a.refresh_token is Some && text::trimmed(a.refresh_token->0)
                != Seq::<char>::empty();
            &&& r is Ok <==> has_access && has_refresh
            &&& !has_access ==> r == Err::<IdeTokenWrite, SyncError>(SyncError::MissingAccessToken)
            &&& has_access && !has_refresh ==> r == Err::<IdeTokenWrite, SyncError>(
                SyncError::MissingRefreshToken,
            )
            &&& r matches Ok(w) ==> {
                &&& w.access_token@ == text::trimmed(a.access_token->0)
                &&& w.refresh_token@ == text::trimmed(a.refresh_token->0)
                &&& expiry::is_ide_expiry_of(a.expires_at, w.expires_at@)
            }
        }),
{
    lemma_empty_or_not(a.refresh_token);
    lemma_empty_or_not(a.access_token);
}

/// The IDE's login is written to exactly when it matches the account and the account has both
/// tokens; another login, or none, is left alone without an error.
pub proof fn law_only_the_own_login_is_written(
    account: Account,
    local: KiroLocalToken,
    none: Result<Option<IdeTokenWrite>, SyncError>,
    r: Result<Option<IdeTokenWrite>, SyncError>,
    matching: bool,
)
    requires
        call_ensures(sync_kam_tokens_to_ide_if_current, (&account, None), none),
        call_ensures(sync_kam_tokens_to_ide_if_current, (&account, Some(&local)), r),
        call_ensures(account_matches_ide_token, (&account, &local), matching),
    ensures
        none is Ok && none->Ok_0 is None,
        matching <==> matches_ide(account@, local@),
        !matching <==> r is Ok && r->Ok_0 is None,
        r is Err <==> matching && (text::is_unfilled(account@.access_token) || text::is_unfilled(
            account@.refresh_token,
        )),
        r matches Ok(Some(w)) ==> {
            &&& matching
            &&& w.access_token@ == text::trimmed(account.access_token->0@)
            &&& w.refresh_token@ == text::trimmed(account.refresh_token->0@)
        },
{
    match r {
        Ok(Some(w)) => {
            law_write_needs_both_tokens(account@, Ok(w));
        },
        _ => {},
    }
}

} // verus!
