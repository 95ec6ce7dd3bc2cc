//! Users of the service.
//!
//! Registration and lookup belong to the application; the library only
//! says what a user record holds and which requests are acceptable.

use vstd::prelude::*;
use vstd::string::*;
use crate::common::opt_view;
use crate::error::BillingError;
use crate::ids::RecordId;
use crate::text::{char_count, lowercase, segment_end, spec_segment_len, str_equal, to_lowercase};
use crate::time::{current_time, Timestamp};

verus! {

/// A user as stored.
#[derive(Debug)]
pub struct User {
    pub id: RecordId,
    pub name: String,
    /// The address in lowercase.
    pub email: String,
    pub is_active: bool,
    pub email_verified: bool,
    pub created_at: Timestamp,
    pub updated_at: Timestamp,
}

/// A user as a mathematical value.
pub struct UserView {
    pub id: RecordId,
    pub name: Seq<char>,
    pub email: Seq<char>,
    pub is_active: bool,
    pub email_verified: bool,
    pub created_at: Timestamp,
    pub updated_at: Timestamp,
}

impl View for User {
    type V = UserView;

    open spec fn view(&self) -> UserView {
        UserView {
            id: self.id,
            name: self.name@,
            email: self.email@,
            is_active: self.is_active,
            email_verified: self.email_verified,
            created_at: self.created_at,
            updated_at: self.updated_at,
        }
    }
}

/// What a caller sends to register a user.
#[derive(Debug)]
pub struct CreateUserRequest {
    pub name: String,
    pub email: String,
}

/// What a caller sends to change a user.
#[derive(Debug)]
pub struct UpdateUserRequest {
    pub name: Option<String>,
}

/// Whether `validator::validate_email` accepts an address.
pub uninterp spec fn email_is_valid(email: Seq<char>) -> bool;

/// Tests an address with `validator::validate_email`, which follows the
/// address syntax of HTML5. The verdict is only named.
#[verifier::external_body]
pub(crate) fn validate_email(email: &str) -> (b: bool)
    ensures
        b == email_is_valid(email@),
{
    validator::validate_email(email)
}

/// The domain of an address: what stands between its first and its
/// second `@`, if it has a first.
pub open spec fn spec_email_domain(email: Seq<char>) -> Option<Seq<char>> {
    let local = spec_segment_len(email, '@');
    if local < email.len() {
        let rest = email.skip(local + 1);
        Some(rest.take(spec_segment_len(rest, '@')))
    } else {
        None
    }
}

/// Whether an address may register: its domain is not one of the
/// throwaway domains `tempmail.com` and `10minutemail.com`.
pub open spec fn spec_email_domain_allowed(email: Seq<char>) -> bool {
    match spec_email_domain(email) {
        Some(domain) => domain != "tempmail.com"@ && domain != "10minutemail.com"@,
        None => true,
    }
}

/// Whether an address may register; see [`spec_email_domain_allowed`].
pub fn validate_email_domain(email: &str) -> (r: Result<(), BillingError>)
    ensures
        r.is_ok() <==> spec_email_domain_allowed(email@),
        r.is_err() ==> r == Err::<(), BillingError>(BillingError::InvalidUser),
{
    let n = email.unicode_len();
    let local_end = segment_end(email, 0, '@');
    proof {
        assert(email@.skip(0) =~= email@);
    }
    if local_end >= n {
        return Ok(());
    }
    let domain_start = local_end + 1;
    let domain_end = segment_end(email, domain_start, '@');
    proof {
        let rest = email@.skip(domain_start as int);
        assert(rest.take(domain_end - domain_start) =~= email@.subrange(
            domain_start as int,
            domain_end as int,
        ));
    }
    let domain = email.substring_char(domain_start, domain_end);
    if str_equal(domain, "tempmail.com") || str_equal(domain, "10minutemail.com") {
        Err(BillingError::InvalidUser)
    } else {
        Ok(())
    }
}

/// Whether a name has between 2 and 100 characters.
pub open spec fn spec_name_acceptable(name: Seq<char>) -> bool {
    2 <= name.len() <= 100
}

/// Whether a name has between 2 and 100 characters.
pub fn name_acceptable(name: &str) -> (b: bool)
    ensures
        b == spec_name_acceptable(name@),
{
    let n = char_count(name);
    2 <= n && n <= 100
}

impl CreateUserRequest {
    /// Whether the request may be carried out, given the verdict on its
    /// address: the name has 2 to 100 characters and the address is valid.
    pub fn check(&self, email_valid: bool) -> (r: Result<(), BillingError>)
        ensures
            r.is_ok() <==> (spec_name_acceptable(self.name@) && email_valid),
            r.is_err() ==> r == Err::<(), BillingError>(BillingError::InvalidUser),
    {
        if name_acceptable(self.name.as_str()) && email_valid {
            Ok(())
        } else {
            Err(BillingError::InvalidUser)
        }
    }

    /// Whether the request may be carried out: the name has 2 to 100
    /// characters and the address is one that `validator` accepts.
    pub fn validate(&self) -> (r: Result<(), BillingError>)
        ensures
            r.is_ok() <==> (spec_name_acceptable(self.name@) && email_is_valid(self.email@)),
            r.is_err() ==> r == Err::<(), BillingError>(BillingError::InvalidUser),
    {
        let email_valid = validate_email(self.email.as_str());
        self.check(email_valid)
    }
}

impl UpdateUserRequest {
    /// Whether the request may be carried out: a new name, if one is
    /// given, has 2 to 100 characters.
    pub fn validate(&self) -> (r: Result<(), BillingError>)
        ensures
            r.is_ok() <==> (self.name.is_some() ==> spec_name_acceptable(self.name.unwrap()@)),
            r.is_err() ==> r == Err::<(), BillingError>(BillingError::InvalidUser),
    {
        match &self.name {
            Some(name) => {
                if name_acceptable(name.as_str()) {
                    Ok(())
                } else {
                    Err(BillingError::InvalidUser)
                }
            },
            None => Ok(()),
        }
    }
}

/// The user that registration creates, given the address in lowercase:
/// active, with an address not yet verified.
pub open spec fn spec_new_user(
    name: Seq<char>,
    lowercase_email: Seq<char>,
    id: RecordId,
    now: Timestamp,
) -> UserView {
    UserView {
        id,
        name,
        email: lowercase_email,
        is_active: true,
        email_verified: false,
        created_at: now,
        updated_at: now,
    }
}

/// The user after a change at `now`: the name is replaced if a new one is
/// given.
pub open spec fn spec_update_user(u: UserView, name: Option<Seq<char>>, now: Timestamp) -> UserView {
    match name {
        Some(n) => UserView { name: n, updated_at: now, ..u },
        None => UserView { updated_at: now, ..u },
    }
}

impl User {
    /// The user with the name and the lowercase address given, created at
    /// `now` under the id given.
    pub fn with_lowercase_email(name: String, lowercase_email: String, id: RecordId, now: Timestamp) -> (u:
        User)
        ensures
            u@ == spec_new_user(name@, lowercase_email@, id, now),
    {
        User {
            id,
            name,
            email: lowercase_email,
            is_active: true,
            email_verified: false,
            created_at: now,
            updated_at: now,
        }
    }

    /// The user with the name and address given, the address in lowercase,
    /// created at `now` under the id given.
    pub fn new_at(name: String, email: String, id: RecordId, now: Timestamp) -> (u: User)
        ensures
            u@ == spec_new_user(name@, lowercase(email@), id, now),
    {
        let lower = to_lowercase(email.as_str());
        User::with_lowercase_email(name, lower, id, now)
    }

    /// The user with the name and address given, created now under a fresh
    /// random id.
    pub fn new(name: String, email: String) -> (u: User)
        ensures
            exists|id: RecordId, now: Timestamp|
                u@ == #[trigger] spec_new_user(name@, lowercase(email@), id, now),
    {
        let id = RecordId::generate();
        let now = current_time();
        User::new_at(name, email, id, now)
    }

    /// Applies a change at `now`; see [`spec_update_user`].
    pub fn update_at(&mut self, request: UpdateUserRequest, now: Timestamp)
        ensures
            final(self)@ == spec_update_user(old(self)@, opt_view(request.name), now),
    {
        match request.name {
            Some(name) => {
                self.name = name;
            },
            None => {},
        }
        self.updated_at = now;
    }

    /// Applies a change at the present time.
    pub fn update(&mut self, request: UpdateUserRequest)
        ensures
            exists|now: Timestamp|
                final(self)@ == #[trigger] spec_update_user(
                    old(self)@,
                    opt_view(request.name),
                    now,
                ),
    {
        let now = current_time();
        self.update_at(request, now)
    }
}

} // verus!
