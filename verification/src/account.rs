//! The records: a stored account, the IDE's local token, and a login of the command line.
use crate::text;
use vstd::prelude::*;

verus! {

// ---------------------------------------------------------------------------------------------
// Stored accounts
// ---------------------------------------------------------------------------------------------

/// An account as it is kept in the account store.
#[derive(Debug, PartialEq, Eq)]
pub struct Account {
    pub id: String,
    pub email: Option<String>,
    pub user_id: Option<String>,
    pub label: String,
    /// `"invalid"` and `"banned"` keep an account out of the refresh loop.
    pub status: String,
    pub enabled: bool,
    pub provider: Option<String>,
    pub auth_method: Option<String>,
    pub access_token: Option<String>,
    pub refresh_token: Option<String>,
    /// Local time, `%Y/%m/%d %H:%M:%S`.
    pub expires_at: Option<String>,
    pub client_id: Option<String>,
    pub client_secret: Option<String>,
    pub client_id_hash: Option<String>,
    pub start_url: Option<String>,
    pub region: Option<String>,
    pub profile_arn: Option<String>,
    pub machine_id: Option<String>,
    /// The last usage report, as JSON text.
    pub usage_data: Option<String>,
}

/// The contents of an [`Account`].
pub struct AccountView {
    pub id: Seq<char>,
    pub email: Option<Seq<char>>,
    pub user_id: Option<Seq<char>>,
    pub label: Seq<char>,
    pub status: Seq<char>,
    pub enabled: bool,
    pub provider: Option<Seq<char>>,
    pub auth_method: Option<Seq<char>>,
    pub access_token: Option<Seq<char>>,
    pub refresh_token: Option<Seq<char>>,
    pub expires_at: Option<Seq<char>>,
    pub client_id: Option<Seq<char>>,
    pub client_secret: Option<Seq<char>>,
    pub client_id_hash: Option<Seq<char>>,
    pub start_url: Option<Seq<char>>,
    pub region: Option<Seq<char>>,
    pub profile_arn: Option<Seq<char>>,
    pub machine_id: Option<Seq<char>>,
    pub usage_data: Option<Seq<char>>,
}

impl View for Account {
    type V = AccountView;

    open spec fn view(&self) -> AccountView {
        AccountView {
            id: self.id@,
            email: text::text_of(self.email),
            user_id: text::text_of(self.user_id),
            label: self.label@,
            status: self.status@,
            enabled: self.enabled,
            provider: text::text_of(self.provider),
            auth_method: text::text_of(self.auth_method),
            access_token: text::text_of(self.access_token),
            refresh_token: text::text_of(self.refresh_token),
            expires_at: text::text_of(self.expires_at),
            client_id: text::text_of(self.client_id),
            client_secret: text::text_of(self.client_secret),
            client_id_hash: text::text_of(self.client_id_hash),
            start_url: text::text_of(self.start_url),
            region: text::text_of(self.region),
            profile_arn: text::text_of(self.profile_arn),
            machine_id: text::text_of(self.machine_id),
            usage_data: text::text_of(self.usage_data),
        }
    }
}

impl Clone for Account {
    fn clone(&self) -> (r: Self)
        ensures
            r@ == self@,
    {
        Account {
            id: self.id.clone(),
            email: text::copy_field(&self.email),
            user_id: text::copy_field(&self.user_id),
            label: self.label.clone(),
            status: self.status.clone(),
            enabled: self.enabled,
            provider: text::copy_field(&self.provider),
            auth_method: text::copy_field(&self.auth_method),
            access_token: text::copy_field(&self.access_token),
            refresh_token: text::copy_field(&self.refresh_token),
            expires_at: text::copy_field(&self.expires_at),
            client_id: text::copy_field(&self.client_id),
            client_secret: text::copy_field(&self.client_secret),
            client_id_hash: text::copy_field(&self.client_id_hash),
            start_url: text::copy_field(&self.start_url),
            region: text::copy_field(&self.region),
            profile_arn: text::copy_field(&self.profile_arn),
            machine_id: text::copy_field(&self.machine_id),
            usage_data: text::copy_field(&self.usage_data),
        }
    }
}

/// The contents of a list of accounts.
pub open spec fn accounts_view(accounts: Seq<Account>) -> Seq<AccountView> {
    accounts.map_values(|a: Account| a@)
}

// ---------------------------------------------------------------------------------------------
// The IDE's local token
// ---------------------------------------------------------------------------------------------

/// The login that the IDE keeps on this machine.
#[derive(Debug, PartialEq, Eq)]
pub struct KiroLocalToken {
    pub access_token: Option<String>,
    pub refresh_token: Option<String>,
    pub expires_at: Option<String>,
    pub auth_method: Option<String>,
    pub provider: Option<String>,
    pub profile_arn: Option<String>,
    pub client_id_hash: Option<String>,
    pub region: Option<String>,
}

/// The contents of a [`KiroLocalToken`].
pub struct LocalTokenView {
    pub access_token: Option<Seq<char>>,
    pub refresh_token: Option<Seq<char>>,
    pub expires_at: Option<Seq<char>>,
    pub auth_method: Option<Seq<char>>,
    pub provider: Option<Seq<char>>,
    pub profile_arn: Option<Seq<char>>,
    pub client_id_hash: Option<Seq<char>>,
    pub region: Option<Seq<char>>,
}

impl View for KiroLocalToken {
    type V = LocalTokenView;

    open spec fn view(&self) -> LocalTokenView {
        LocalTokenView {
            access_token: text::text_of(self.access_token),
            refresh_token: text::text_of(self.refresh_token),
            expires_at: text::text_of(self.expires_at),
            auth_method: text::text_of(self.auth_method),
            provider: text::text_of(self.provider),
            profile_arn: text::text_of(self.profile_arn),
            client_id_hash: text::text_of(self.client_id_hash),
            region: text::text_of(self.region),
        }
    }
}

// ---------------------------------------------------------------------------------------------
// A login of the command line
// ---------------------------------------------------------------------------------------------

/// A login found in the command line's database.
#[derive(Debug, PartialEq, Eq)]
pub struct KiroCliAccount {
    /// The database key that the login was found under.
    pub token_key: String,
    /// `"social"`, or an identity-centre login otherwise.
    pub auth_method: String,
    pub access_token: String,
    pub refresh_token: String,
    pub expires_at: Option<String>,
    pub region: String,
    pub profile_arn: Option<String>,
    pub start_url: Option<String>,
    pub client_id: Option<String>,
    pub client_secret: Option<String>,
}

/// The contents of a [`KiroCliAccount`].
pub struct CliAccountView {
    pub token_key: Seq<char>,
    pub auth_method: Seq<char>,
    pub access_token: Seq<char>,
    pub refresh_token: Seq<char>,
    pub expires_at: Option<Seq<char>>,
    pub region: Seq<char>,
    pub profile_arn: Option<Seq<char>>,
    pub start_url: Option<Seq<char>>,
    pub client_id: Option<Seq<char>>,
    pub client_secret: Option<Seq<char>>,
}

impl View for KiroCliAccount {
    type V = CliAccountView;

    open spec fn view(&self) -> CliAccountView {
        CliAccountView {
            token_key: self.token_key@,
            auth_method: self.auth_method@,
            access_token: self.access_token@,
            refresh_token: self.refresh_token@,
            expires_at: text::text_of(self.expires_at),
            region: self.region@,
            profile_arn: text::text_of(self.profile_arn),
            start_url: text::text_of(self.start_url),
            client_id: text::text_of(self.client_id),
            client_secret: text::text_of(self.client_secret),
        }
    }
}

// ---------------------------------------------------------------------------------------------
// Finding accounts
// ---------------------------------------------------------------------------------------------

/// The position of the first account that `wanted` accepts.
pub open spec fn first_where(
    accounts: Seq<AccountView>,
    wanted: spec_fn(AccountView) -> bool,
) -> Option<int>
    decreases accounts.len(),
{
    if accounts.len() == 0 {
        None
    } else if wanted(accounts[0]) {
        Some(0int)
    } else {
        match first_where(accounts.drop_first(), wanted) {
            Some(i) => Some(i + 1),
            None => None,
        }
    }
}

/// Accepts the accounts with this id.
pub open spec fn with_id(id: Seq<char>) -> spec_fn(AccountView) -> bool {
    |a: AccountView| a.id == id
}

/// Accepts the accounts with this user id.
pub open spec fn with_user_id(uid: Seq<char>) -> spec_fn(AccountView) -> bool {
    |a: AccountView| a.user_id == Some(uid)
}

/// The position of the account with this id.
pub open spec fn position_of_id(accounts: Seq<AccountView>, id: Seq<char>) -> Option<int> {
    first_where(accounts, with_id(id))
}

/// A position as it is stored.
pub open spec fn position_view(p: Option<usize>) -> Option<int> {
    match p {
        Some(i) => Some(i as int),
        None => None,
    }
}

/// `first_where` finds the first match, and nothing only when there is none.
pub proof fn lemma_first_where(accounts: Seq<AccountView>, wanted: spec_fn(AccountView) -> bool)
    ensures
        match first_where(accounts, wanted) {
            Some(i) => 0 <= i < accounts.len() && wanted(accounts[i]) && forall|j: int|
                0 <= j < i ==> !wanted(#[trigger] accounts[j]),
            None => forall|j: int| 0 <= j < accounts.len() ==> !wanted(#[trigger] accounts[j]),
        },
    decreases accounts.len(),
{
    if accounts.len() > 0 && !wanted(accounts[0]) {
        let rest = accounts.drop_first();
        lemma_first_where(rest, wanted);
        assert forall|j: int|
            0 <= j < accounts.len() && (first_where(accounts, wanted) is Some ==> j < first_where(
                accounts,
                wanted,
            )->0) implies !wanted(#[trigger] accounts[j]) by {
            if j > 0 {
                assert(accounts[j] == rest[j - 1]);
            }
        }
    }
}

/// A position that is the first match is what `first_where` finds.
pub proof fn lemma_first_where_is(
    accounts: Seq<AccountView>,
    wanted: spec_fn(AccountView) -> bool,
    i: int,
)
    requires
        0 <= i < accounts.len(),
        wanted(accounts[i]),
        forall|j: int| 0 <= j < i ==> !wanted(#[trigger] accounts[j]),
    ensures
        first_where(accounts, wanted) == Some(i),
{
    lemma_first_where(accounts, wanted);
}

/// With no match there is nothing to find.
pub proof fn lemma_first_where_none(
    accounts: Seq<AccountView>,
    wanted: spec_fn(AccountView) -> bool,
)
    requires
        forall|j: int| 0 <= j < accounts.len() ==> !wanted(#[trigger] accounts[j]),
    ensures
        first_where(accounts, wanted) is None,
{
    lemma_first_where(accounts, wanted);
}

/// The position of the account with this id.
pub fn find_by_id(accounts: &Vec<Account>, id: &str) -> (r: Option<usize>)
    ensures
        position_view(r) == position_of_id(accounts_view(accounts@), id@),
        r matches Some(i) ==> i < accounts.len(),
{
    let ghost seen = accounts_view(accounts@);
    let ghost wanted = with_id(id@);
    let mut i: usize = 0;
    while i < accounts.len()
        invariant
            i <= accounts.len(),
            seen == accounts_view(accounts@),
            wanted == with_id(id@),
            forall|j: int| 0 <= j < i ==> !wanted(#[trigger] seen[j]),
        decreases accounts.len() - i,
    {
        assert(seen[i as int] == accounts[i as int]@);
        if text::same_text(accounts[i].id.as_str(), id) {
            proof {
                lemma_first_where_is(seen, wanted, i as int);
            }
            return Some(i);
        }
        i = i + 1;
    }
    proof {
        lemma_first_where_none(seen, wanted);
    }
    None
}

/// The position of the account with this user id; nothing without a user id.
pub open spec fn existing_position(
    accounts: Seq<AccountView>,
    user_id: Option<Seq<char>>,
) -> Option<int> {
    match user_id {
        Some(uid) => first_where(accounts, with_user_id(uid)),
        None => None,
    }
}

/// Where an account is already stored: the first with the same user id.
///
/// Accounts without a user id are never found, and the e-mail address does not decide.
pub fn find_existing_account(
    accounts: &[Account],
    user_id: Option<&String>,
    _email: Option<&String>,
) -> (r: Option<usize>)
    ensures
        position_view(r) == existing_position(
            accounts_view(accounts@),
            match user_id {
                Some(u) => Some(u@),
                None => None,
            },
        ),
        r matches Some(i) ==> i < accounts.len(),
{
    let uid = match user_id {
        Some(u) => u,
        None => {
            return None;
        },
    };
    let ghost seen = accounts_view(accounts@);
    let ghost wanted = with_user_id(uid@);
    let mut i: usize = 0;
    while i < accounts.len()
        invariant
            i <= accounts.len(),
            seen == accounts_view(accounts@),
            wanted == with_user_id(uid@),
            user_id == Some(uid),
            forall|j: int| 0 <= j < i ==> !wanted(#[trigger] seen[j]),
        decreases accounts.len() - i,
    {
        assert(seen[i as int] == accounts[i as int]@);
        if text::field_is(&accounts[i].user_id, uid.as_str()) {
            proof {
                lemma_first_where_is(seen, wanted, i as int);
            }
            return Some(i);
        }
        i = i + 1;
    }
    proof {
        lemma_first_where_none(seen, wanted);
    }
    None
}

// ---------------------------------------------------------------------------------------------
// Labels
// ---------------------------------------------------------------------------------------------

/// How an account is shown: by e-mail address, else by user id.
pub open spec fn label_of(a: AccountView) -> Seq<char> {
    match (a.email, a.user_id) {
        (Some(email), _) => email,
        (None, Some(uid)) => uid,
        (None, None) => "Unknown"@,
    }
}

/// How an account is shown in messages.
pub fn account_label(account: &Account) -> (r: String)
    ensures
        r@ == label_of(account@),
{
    match &account.email {
        Some(email) => email.clone(),
        None => match &account.user_id {
            Some(uid) => uid.clone(),
            None => "Unknown".to_owned(),
        },
    }
}

/// The label of an account that comes from the command line.
pub open spec fn import_label(token_key: Seq<char>) -> Seq<char> {
    "从 kiro-cli 导入 ("@ + token_key + ")"@
}

/// The label of an imported account: a stored account keeps its own, a new one is named after
/// the database key that it was found under.
pub fn create_account_label(
    is_new: bool,
    token_key: &str,
    existing_account: Option<&Account>,
) -> (r: String)
    ensures
        r@ == (match existing_account {
            Some(a) => if is_new {
                import_label(token_key@)
            } else {
                a.label@
            },
            None => import_label(token_key@),
        }),
{
    if !is_new {
        match existing_account {
            Some(a) => {
                return a.label.clone();
            },
            None => {},
        }
    }
    text::joined(text::joined("从 kiro-cli 导入 (", token_key).as_str(), ")")
}

// ---------------------------------------------------------------------------------------------
// Laws
// ---------------------------------------------------------------------------------------------

/// An account is found by its id at the first position that has this id, and only where no
/// account has it nothing is found.
pub proof fn law_id_finds_its_first_account(accounts: Seq<AccountView>, id: Seq<char>)
    ensures
        position_of_id(accounts, id) matches Some(i) ==> {
            &&& 0 <= i < accounts.len()
            &&& accounts[i].id == id
            &&& forall|j: int| 0 <= j < i ==> (#[trigger] accounts[j]).id != id
        },
        position_of_id(accounts, id) is None ==> forall|j: int|
            0 <= j < accounts.len() ==> (#[trigger] accounts[j]).id != id,
{
    lemma_first_where(accounts, with_id(id));
}

/// A user is found at the first position that has this user id. Nobody is found by an absent user
/// id, and only where no account has the user id nothing is found.
pub proof fn law_user_id_finds_its_first_account(
    accounts: Seq<AccountView>,
    user_id: Option<Seq<char>>,
)
    ensures
        existing_position(accounts, user_id) matches Some(i) ==> {
            &&& user_id is Some
            &&& 0 <= i < accounts.len()
            &&& accounts[i].user_id == user_id
            &&& forall|j: int| 0 <= j < i ==> (#[trigger] accounts[j]).user_id != user_id
        },
        existing_position(accounts, user_id) is None ==> user_id is None || forall|j: int|
            0 <= j < accounts.len() ==> (#[trigger] accounts[j]).user_id != user_id,
{
    if user_id is Some {
        lemma_first_where(accounts, with_user_id(user_id->0));
    }
}

/// An account with an e-mail address is shown by it, whatever else it has; one with a user id
/// alone by that; all others alike.
pub proof fn law_email_is_shown_first(a: AccountView, other: AccountView)
    ensures
        a.email is Some ==> Some(label_of(a)) == a.email,
        a.email is None && a.user_id is Some ==> Some(label_of(a)) == a.user_id,
        a.email is None && a.user_id is None ==> label_of(a) == "Unknown"@,
        a.email == other.email && a.user_id == other.user_id ==> label_of(a) == label_of(other),
{
}

/// The label of an import names the database key in round brackets, so that imports of different
/// keys are told apart.
pub proof fn law_import_label_names_the_key(key: Seq<char>, other: Seq<char>)
    ensures
        ({
            let label = import_label(key);
            let head = "从 kiro-cli 导入 ("@;
            &&& label.len() == head.len() + key.len() + 1
            &&& head.is_prefix_of(label)
            &&& label.subrange(head.len() as int, label.len() - 1) == key
            &&& label.last() == ')'
        }),
        import_label(key) == import_label(other) ==> key == other,
{
    reveal_strlit(")");
    let head = "从 kiro-cli 导入 ("@;
    let label = import_label(key);
    let second = import_label(other);
    assert(label.subrange(0, head.len() as int) == head);
    assert(label.subrange(head.len() as int, label.len() - 1) == key);
    assert(second.subrange(head.len() as int, second.len() - 1) == other);
}

/// The account at position `i` has this id, and none before it.
pub open spec fn is_first_with_id(accounts: Seq<AccountView>, id: Seq<char>, i: int) -> bool {
    &&& 0 <= i < accounts.len()
    &&& accounts[i].id == id
    &&& forall|j: int| 0 <= j < i ==> (#[trigger] accounts[j]).id != id
}

/// No account has this id.
pub open spec fn has_no_id(accounts: Seq<AccountView>, id: Seq<char>) -> bool {
    forall|j: int| 0 <= j < accounts.len() ==> (#[trigger] accounts[j]).id != id
}

/// There is one first position with an id, or the id does not occur.
pub proof fn law_first_position_is_unique(accounts: Seq<AccountView>, id: Seq<char>)
    ensures
        forall|i: int|
            #[trigger] is_first_with_id(accounts, id, i) <==> position_of_id(accounts, id) == Some(
                i,
            ),
        has_no_id(accounts, id) <==> position_of_id(accounts, id) is None,
{
    law_id_finds_its_first_account(accounts, id);
    assert forall|i: int| #[trigger] is_first_with_id(accounts, id, i) implies position_of_id(
        accounts,
        id,
    ) == Some(i) by {
        lemma_first_where_is(accounts, with_id(id), i);
    }
}

/// A new account is named after its database key and a stored one keeps its label.
pub proof fn law_stored_account_keeps_its_label(
    is_new: bool,
    key: &str,
    stored: Option<&Account>,
    r: String,
)
    requires
        call_ensures(create_account_label, (is_new, key, stored), r),
    ensures
        !is_new ==> (stored matches Some(a) ==> r@ == a.label@),
        is_new || stored is None ==> r@ == "从 kiro-cli 导入 ("@ + key@ + ")"@,
{
}

/// What is found by id or by user id in a list of accounts is the first account that has it.
pub proof fn law_first_account_is_found(
    accounts: Vec<Account>,
    list: &[Account],
    id: &str,
    user_id: &String,
    email: Option<&String>,
    by_id: Option<usize>,
    by_user: Option<usize>,
    by_nothing: Option<usize>,
)
    requires
        call_ensures(find_by_id, (&accounts, id), by_id),
        call_ensures(find_existing_account, (list, Some(user_id), email), by_user),
        call_ensures(find_existing_account, (list, None, email), by_nothing),
    ensures
        by_id matches Some(i) ==> i < accounts@.len() && accounts@[i as int].id@ == id@
            && forall|j: int| 0 <= j < i ==> (#[trigger] accounts@[j]).id@ != id@,
        by_id is None ==> forall|j: int|
            0 <= j < accounts@.len() ==> (#[trigger] accounts@[j]).id@ != id@,
        by_user matches Some(i) ==> i < list@.len() && text::text_of(list@[i as int].user_id)
            == Some(user_id@) && forall|j: int|
            0 <= j < i ==> text::text_of((#[trigger] list@[j]).user_id) != Some(user_id@),
        by_user is None ==> forall|j: int|
            0 <= j < list@.len() ==> text::text_of((#[trigger] list@[j]).user_id) != Some(user_id@),
        by_nothing is None,
{
    let seen = accounts_view(accounts@);
    law_id_finds_its_first_account(seen, id@);
    assert forall|j: int| 0 <= j < accounts@.len() implies (#[trigger] accounts@[j]).id@
        == seen[j].id by {}
    let other = accounts_view(list@);
    law_user_id_finds_its_first_account(other, Some(user_id@));
    assert forall|j: int| 0 <= j < list@.len() implies text::text_of(
        (#[trigger] list@[j]).user_id,
    ) == other[j].user_id by {}
}

} // verus!
