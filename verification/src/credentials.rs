//! The credential store: user records with their password hashes.

use vstd::prelude::*;
use vstd::string::{is_ascii_spec_bytes, StrSliceExecFns, StringExecFns};
use vstd::utf8::encode_utf8;

use crate::crypto::{derive_key, pbkdf2_sha256};
use crate::encoding::{constant_time_eq, decimal, decimal_string};
use crate::error::CredentialError;
use crate::types::{Profile, ProfileView, User, UserView};

verus! {

/// The least number of characters in a password.
pub const MIN_PASSWORD_LEN: usize = 8;

/// The greatest number of characters in an email.
pub const MAX_EMAIL_LEN: usize = 254;

/// A character that an email may hold: printable ASCII, no space.
pub open spec fn is_email_char(c: char) -> bool {
    '!' <= c <= '~'
}

/// Position `k` holds the only `@` of `s`.
pub open spec fn is_only_at(s: Seq<char>, k: int) -> bool {
    &&& s[k] == '@'
    &&& forall|j: int| 0 <= j < s.len() && j != k ==> #[trigger] s[j] != '@'
}

/// An email is 3 to 254 printable ASCII characters without a space, with
/// exactly one `@`, which is neither the first nor the last character.
pub open spec fn valid_email(s: Seq<char>) -> bool {
    &&& 3 <= s.len() <= MAX_EMAIL_LEN
    &&& forall|i: int| 0 <= i < s.len() ==> is_email_char(#[trigger] s[i])
    &&& exists|k: int| 0 < k < s.len() - 1 && #[trigger] is_only_at(s, k)
}

/// The lower-case form of an ASCII code.
pub open spec fn lower(b: u8) -> u8 {
    if 65 <= b <= 90 {
        (b + 32) as u8
    } else {
        b
    }
}

/// The key under which an email is stored: its ASCII codes in lower case.
/// Two emails that differ only in case have one key.
pub open spec fn email_key(s: Seq<char>) -> Seq<u8> {
    Seq::new(s.len(), |i: int| lower(s[i] as u8))
}

/// A password is weak when it has fewer than eight characters.
pub open spec fn weak_password(p: Seq<char>) -> bool {
    p.len() < MIN_PASSWORD_LEN
}

/// The model of one account.
pub struct AccountView {
    /// The user's record.
    pub user: UserView,
    /// The key of the user's email.
    pub email_key: Seq<u8>,
    /// The hash of the password.
    pub hash: Seq<u8>,
    /// The salt that the hash was derived with.
    pub salt: Seq<u8>,
    /// The number of rounds that the hash was derived with.
    pub rounds: u32,
}

/// The model of a [`CredentialStore`]: its accounts in the order of their
/// creation, and the number of rounds for new hashes.
pub struct StoreView {
    pub accounts: Seq<AccountView>,
    pub rounds: u32,
}

/// The account at position `i` is numbered `i` and is stored under the key
/// of its valid email.
pub open spec fn account_wf(a: AccountView, i: int) -> bool {
    &&& a.user.id == decimal(i as nat)
    &&& valid_email(a.user.email)
    &&& a.email_key == email_key(a.user.email)
}

/// Every account is well formed, no two have one email key, and the
/// accounts can be numbered in 64 bits.
pub open spec fn store_wf(s: StoreView) -> bool {
    &&& s.accounts.len() <= u64::MAX
    &&& forall|i: int| 0 <= i < s.accounts.len() ==> account_wf(#[trigger] s.accounts[i], i)
    &&& forall|i: int, j: int|
        0 <= i < j < s.accounts.len() ==> (#[trigger] s.accounts[i]).email_key != (
        #[trigger] s.accounts[j]).email_key
}

/// Some account is stored under `key`.
pub open spec fn has_key(s: StoreView, key: Seq<u8>) -> bool {
    exists|i: int| 0 <= i < s.accounts.len() && (#[trigger] s.accounts[i]).email_key == key
}

/// The position of the account stored under `key`.
pub open spec fn index_of(s: StoreView, key: Seq<u8>) -> int {
    choose|i: int| 0 <= i < s.accounts.len() && (#[trigger] s.accounts[i]).email_key == key
}

/// Whether `create` accepts: the email is checked first, then whether it is
/// taken, then the password.
pub open spec fn create_outcome(s: StoreView, email: Seq<char>, password: Seq<char>) -> Result<
    (),
    CredentialError,
> {
    if !valid_email(email) {
        Err(CredentialError::InvalidEmail)
    } else if has_key(s, email_key(email)) {
        Err(CredentialError::DuplicateEmail)
    } else if weak_password(password) {
        Err(CredentialError::WeakPassword)
    } else {
        Ok(())
    }
}

/// The account that `create` adds.
pub open spec fn new_account(
    s: StoreView,
    email: Seq<char>,
    password: Seq<char>,
    profile: ProfileView,
    salt: Seq<u8>,
) -> AccountView {
    AccountView {
        user: UserView {
            id: decimal(s.accounts.len()),
            email,
            first_name: profile.first_name,
            last_name: profile.last_name,
            role: profile.role,
            tenant_id: profile.tenant_id,
        },
        email_key: email_key(email),
        hash: pbkdf2_sha256(encode_utf8(password), salt, s.rounds),
        salt,
        rounds: s.rounds,
    }
}

/// The store after `create` has accepted.
pub open spec fn created(
    s: StoreView,
    email: Seq<char>,
    password: Seq<char>,
    profile: ProfileView,
    salt: Seq<u8>,
) -> StoreView {
    StoreView {
        accounts: s.accounts.push(new_account(s, email, password, profile, salt)),
        rounds: s.rounds,
    }
}

/// Whom `verify` finds: the position of the account with this email, if the
/// password hashes to what the account holds.
pub open spec fn verify_outcome(s: StoreView, email: Seq<char>, password: Seq<char>) -> Result<
    int,
    CredentialError,
> {
    if !valid_email(email) || !has_key(s, email_key(email)) {
        Err(CredentialError::NotFound)
    } else {
        let a = s.accounts[index_of(s, email_key(email))];
        if pbkdf2_sha256(encode_utf8(password), a.salt, a.rounds) == a.hash {
            Ok(index_of(s, email_key(email)))
        } else {
            Err(CredentialError::BadPassword)
        }
    }
}

/// In a well-formed store a key names at most one account.
pub proof fn lemma_index_of_unique(s: StoreView, key: Seq<u8>, i: int)
    requires
        store_wf(s),
        0 <= i < s.accounts.len(),
        s.accounts[i].email_key == key,
    ensures
        has_key(s, key),
        index_of(s, key) == i,
{
    let j = index_of(s, key);
    if j < i {
        assert(s.accounts[j].email_key != s.accounts[i].email_key);
    } else if i < j {
        assert(s.accounts[i].email_key != s.accounts[j].email_key);
    }
}

/// A store that `create` has added to is well formed, if it was before and
/// its accounts can still be numbered.
pub proof fn lemma_created_wf(
    s: StoreView,
    email: Seq<char>,
    password: Seq<char>,
    profile: ProfileView,
    salt: Seq<u8>,
)
    requires
        store_wf(s),
        s.accounts.len() < u64::MAX,
        create_outcome(s, email, password) is Ok,
    ensures
        store_wf(created(s, email, password, profile, salt)),
        has_key(created(s, email, password, profile, salt), email_key(email)),
        index_of(created(s, email, password, profile, salt), email_key(email)) == s.accounts.len(),
{
    let after = created(s, email, password, profile, salt);
    let n = s.accounts.len() as int;
    assert forall|i: int| 0 <= i < after.accounts.len() implies account_wf(
        #[trigger] after.accounts[i],
        i,
    ) by {
        if i < n {
            assert(after.accounts[i] == s.accounts[i]);
        }
    }
    assert forall|i: int, j: int| 0 <= i < j < after.accounts.len() implies (
    #[trigger] after.accounts[i]).email_key != (#[trigger] after.accounts[j]).email_key by {
        assert(after.accounts[i] == s.accounts[i]);
        if j < n {
            assert(after.accounts[j] == s.accounts[j]);
        }
    }
    assert(after.accounts[n].email_key == email_key(email));
    lemma_index_of_unique(after, email_key(email), n);
}

/// The hash under which a password is stored: PBKDF2 with HMAC-SHA-256 over
/// the password's bytes.
pub fn hash_password(password: &str, salt: &[u8], rounds: u32) -> (hash: Vec<u8>)
    ensures
        hash@ == pbkdf2_sha256(encode_utf8(password@), salt@, rounds),
{
    derive_key(password.as_bytes(), salt, rounds)
}

/// Checks an email and computes its key; `None` for what is no email.
pub fn check_email(email: &str) -> (key: Option<Vec<u8>>)
    ensures
        match key {
            Some(k) => valid_email(email@) && k@ == email_key(email@),
            None => !valid_email(email@),
        },
{
    broadcast use is_ascii_spec_bytes;

    if !email.is_ascii() {
        return None;
    }
    let bytes = email.as_bytes();
    let n: usize = bytes.len();
    assert(n == email@.len());
    if n < 3 || n > MAX_EMAIL_LEN {
        return None;
    }
    let mut key: Vec<u8> = Vec::new();
    let mut ats: u8 = 0;
    let mut at: usize = 0;
    let ghost mut second: int = 0;
    let mut i: usize = 0;
    while i < n
        invariant
            i <= n,
            n == email@.len(),
            n == bytes@.len(),
            forall|j: int| 0 <= j < n ==> #[trigger] bytes@[j] == email@[j] as u8,
            forall|j: int| 0 <= j < n ==> '\0' <= #[trigger] email@[j] <= '\u{7f}',
            forall|j: int| 0 <= j < i ==> is_email_char(#[trigger] email@[j]),
            key@.len() == i,
            forall|j: int| 0 <= j < i ==> #[trigger] key@[j] == lower(email@[j] as u8),
            ats <= 2,
            ats == 0 ==> forall|j: int| 0 <= j < i ==> #[trigger] email@[j] != '@',
            ats >= 1 ==> at < i && email@[at as int] == '@',
            ats == 1 ==> forall|j: int| 0 <= j < i && j != at ==> #[trigger] email@[j] != '@',
            ats == 2 ==> at < second < i && email@[second] == '@',
        decreases n - i,
    {
        let b = bytes[i];
        let ghost c = email@[i as int];
        assert('\0' <= c <= '\u{7f}');
        assert(bytes@[i as int] == c as u8);
        assert(c as int == b as int);
        if b < 33 || b > 126 {
            assert(!is_email_char(c));
            return None;
        }
        if b == 64 {
            if ats == 0 {
                ats = 1;
                at = i;
            } else if ats == 1 {
                ats = 2;
                proof {
                    second = i as int;
                }
            }
        }
        assert(b == 64 <==> c == '@');
        assert(is_email_char(c));
        if 65 <= b && b <= 90 {
            key.push(b + 32);
        } else {
            key.push(b);
        }
        i += 1;
    }
    if ats != 1 || at == 0 || at == n - 1 {
        proof {
            if valid_email(email@) {
                let k = choose|k: int| 0 < k < email@.len() - 1 && #[trigger] is_only_at(email@, k);
                if ats == 0 {
                    assert(email@[k] != '@');
                } else if ats == 2 {
                    assert(k != at as int || k != second);
                    assert(email@[at as int] == '@' && email@[second] == '@');
                } else {
                    assert(k != at as int);
                    assert(email@[at as int] == '@');
                }
            }
        }
        return None;
    }
    assert(is_only_at(email@, at as int));
    assert(key@ =~= email_key(email@));
    Some(key)
}

/// The hash of a password, with what it was derived from. It never leaves
/// the store.
struct Credential {
    hash: Vec<u8>,
    salt: Vec<u8>,
    rounds: u32,
}

struct Account {
    user: User,
    key: Vec<u8>,
    credential: Credential,
}

impl View for Account {
    type V = AccountView;

    closed spec fn view(&self) -> AccountView {
        AccountView {
            user: self.user@,
            email_key: self.key@,
            hash: self.credential.hash@,
            salt: self.credential.salt@,
            rounds: self.credential.rounds,
        }
    }
}

/// User records and their credentials. Accounts are numbered in the order of
/// their creation, and an account's identifier is the decimal numeral of its
/// number.
pub struct CredentialStore {
    accounts: Vec<Account>,
    rounds: u32,
}

impl View for CredentialStore {
    type V = StoreView;

    closed spec fn view(&self) -> StoreView {
        StoreView {
            accounts: Seq::new(self.accounts@.len(), |i: int| self.accounts@[i]@),
            rounds: self.rounds,
        }
    }
}

impl CredentialStore {
    /// The store's invariant, over its model.
    pub open spec fn wf(&self) -> bool {
        store_wf(self@)
    }

    /// An empty store whose new hashes take `rounds` rounds of PBKDF2.
    pub fn new(rounds: u32) -> (store: CredentialStore)
        ensures
            store.wf(),
            store@ == (StoreView { accounts: Seq::empty(), rounds }),
    {
        let store = CredentialStore { accounts: Vec::new(), rounds };
        assert(store@.accounts =~= Seq::empty());
        store
    }

    /// The number of accounts.
    pub fn len(&self) -> (n: usize)
        ensures
            n == self@.accounts.len(),
    {
        self.accounts.len()
    }

    /// The record of the user with this number, if there is one.
    pub fn user(&self, number: u64) -> (user: Option<User>)
        ensures
            match user {
                Some(u) => number < self@.accounts.len() && u@ == self@.accounts[number as int].user,
                None => number >= self@.accounts.len(),
            },
    {
        if number < self.accounts.len() as u64 {
            Some(self.accounts[number as usize].user.clone())
        } else {
            None
        }
    }

    /// The position of the account stored under `key`.
    fn find(&self, key: &[u8]) -> (at: Option<usize>)
        requires
            self.wf(),
        ensures
            match at {
                Some(i) => i < self@.accounts.len() && has_key(self@, key@) && index_of(
                    self@,
                    key@,
                ) == i,
                None => !has_key(self@, key@),
            },
    {
        let mut i: usize = 0;
        while i < self.accounts.len()
            invariant
                i <= self.accounts.len(),
                self.wf(),
                forall|j: int| 0 <= j < i ==> (#[trigger] self@.accounts[j]).email_key != key@,
            decreases self.accounts.len() - i,
        {
            if constant_time_eq(self.accounts[i].key.as_slice(), key) {
                proof {
                    lemma_index_of_unique(self@, key@, i as int);
                }
                return Some(i);
            }
            i += 1;
        }
        None
    }

    /// Adds an account. The email must be valid and not taken, whatever its
    /// case; the password must have eight characters. The password is stored
    /// as its PBKDF2 hash under `salt`, which the caller draws at random. A
    /// refused call leaves the store as it was.
    pub fn create(&mut self, email: &str, password: &str, profile: Profile, salt: Vec<u8>) -> (created_user:
        Result<User, CredentialError>)
        requires
            old(self).wf(),
        ensures
            final(self).wf(),
            match created_user {
                Ok(user) => {
                    &&& create_outcome(old(self)@, email@, password@) is Ok
                    &&& final(self)@ == created(old(self)@, email@, password@, profile@, salt@)
                    &&& user@ == new_account(old(self)@, email@, password@, profile@, salt@).user
                },
                Err(e) => {
                    &&& create_outcome(old(self)@, email@, password@) == Err::<(), CredentialError>(e)
                    &&& final(self)@ == old(self)@
                },
            },
    {
        let key = match check_email(email) {
            Some(k) => k,
            None => {
                return Err(CredentialError::InvalidEmail);
            },
        };
        if self.find(key.as_slice()).is_some() {
            return Err(CredentialError::DuplicateEmail);
        }
        if password.unicode_len() < MIN_PASSWORD_LEN {
            return Err(CredentialError::WeakPassword);
        }
        let hash = hash_password(password, salt.as_slice(), self.rounds);
        let number = self.accounts.len() as u64;
        let user = User {
            id: decimal_string(number),
            email: String::from_str(email),
            first_name: profile.first_name,
            last_name: profile.last_name,
            role: profile.role,
            tenant_id: profile.tenant_id,
        };
        let copy = user.clone();
        let account = Account { user, key, credential: Credential { hash, salt, rounds: self.rounds } };
        let ghost added = account@;
        self.accounts.push(account);
        proof {
            assert(self.accounts@.len() == self.accounts.len());
            let before = old(self)@;
            let after = self@;
            assert(added == new_account(before, email@, password@, profile@, salt@));
            assert(after.accounts =~= before.accounts.push(added));
            assert forall|i: int| 0 <= i < after.accounts.len() implies account_wf(
                #[trigger] after.accounts[i],
                i,
            ) by {
                if i < before.accounts.len() {
                    assert(after.accounts[i] == before.accounts[i]);
                }
            }
            assert forall|i: int, j: int| 0 <= i < j < after.accounts.len() implies (
            #[trigger] after.accounts[i]).email_key != (#[trigger] after.accounts[j]).email_key by {
                assert(after.accounts[i] == before.accounts[i]);
                if j < before.accounts.len() {
                    assert(after.accounts[j] == before.accounts[j]);
                }
            }
        }
        Ok(copy)
    }

    /// Looks an account up by email, whatever its case, and checks the
    /// password against the stored hash; returns the account's number and
    /// the user's record. The hashes are compared byte by byte to the end,
    /// and a password is hashed even where no account is found.
    pub fn authenticate(&self, email: &str, password: &str) -> (found: Result<
        (u64, User),
        CredentialError,
    >)
        requires
            self.wf(),
        ensures
            match found {
                Ok((number, user)) => {
                    &&& number < self@.accounts.len()
                    &&& verify_outcome(self@, email@, password@) == Ok::<int, CredentialError>(
                        number as int,
                    )
                    &&& user@ == self@.accounts[number as int].user
                },
                Err(e) => verify_outcome(self@, email@, password@) == Err::<int, CredentialError>(e),
            },
    {
        let at = match check_email(email) {
            Some(key) => self.find(key.as_slice()),
            None => None,
        };
        match at {
            Some(i) => {
                let account = &self.accounts[i];
                let hash = hash_password(
                    password,
                    account.credential.salt.as_slice(),
                    account.credential.rounds,
                );
                if constant_time_eq(hash.as_slice(), account.credential.hash.as_slice()) {
                    Ok((i as u64, account.user.clone()))
                } else {
                    Err(CredentialError::BadPassword)
                }
            },
            None => {
                let decoy: Vec<u8> = Vec::new();
                let _ = hash_password(password, decoy.as_slice(), self.rounds);
                Err(CredentialError::NotFound)
            },
        }
    }

    /// The record of the user with this email and password.
    pub fn verify(&self, email: &str, password: &str) -> (found: Result<User, CredentialError>)
        requires
            self.wf(),
        ensures
            match found {
                Ok(user) => {
                    &&& verify_outcome(self@, email@, password@) is Ok
                    &&& user@ == self@.accounts[verify_outcome(self@, email@, password@)->Ok_0].user
                },
                Err(e) => verify_outcome(self@, email@, password@) == Err::<int, CredentialError>(e),
            },
    {
        match self.authenticate(email, password) {
            Ok((_, user)) => Ok(user),
            Err(e) => Err(e),
        }
    }
}

} // verus!
