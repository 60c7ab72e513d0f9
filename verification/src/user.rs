//! Users, what of a user each detail level lets through, and the second factor.

use vstd::prelude::*;
use crate::api::DetailLevel;
use crate::moment::DateTime;

verus! {

/// An account: who it is, how it proves it, what role it has, and the state of
/// its second factor.
#[derive(Debug, PartialEq, Eq)]
pub struct User {
    pub id: i32,
    pub user_name: String,
    pub email: Option<String>,
    pub phone: Option<String>,
    pub password: String,
    pub role_id: i32,
    pub tfa_enabled: bool,
    pub tfa_verified: bool,
    pub tfa_secret: Option<String>,
    pub tfa_auth_url: Option<String>,
    pub created_at: DateTime,
    pub updated_at: DateTime,
}

/// What a caller sends to open an account.
#[derive(Debug, PartialEq, Eq)]
pub struct RequiredRegisterUser {
    pub user_name: String,
    pub email: String,
    pub phone: String,
    pub password: String,
}

/// What a caller sends to log in.
#[derive(Debug, PartialEq, Eq)]
pub struct RequiredLoginUser {
    pub email: Option<String>,
    pub phone: Option<String>,
    pub password: String,
    pub tfa_code: Option<i32>,
}

/// A user of which any field may be absent: what a caller supplies for a write,
/// and what a caller is shown of a stored user.
#[derive(Debug, PartialEq, Eq)]
pub struct UserData {
    pub id: Option<i32>,
    pub user_name: Option<String>,
    pub email: Option<String>,
    pub phone: Option<String>,
    pub password: Option<String>,
    pub role_id: Option<i32>,
    pub tfa_enabled: Option<bool>,
    pub tfa_verified: Option<bool>,
    pub tfa_secret: Option<String>,
    pub tfa_auth_url: Option<String>,
    pub created_at: Option<DateTime>,
    pub updated_at: Option<DateTime>,
}

/// The fields of a user.
#[derive(Clone, Copy, Debug, PartialEq, Eq, Structural, Hash)]
pub enum UserField {
    Id,
    UserName,
    Email,
    Phone,
    Password,
    RoleId,
    TfaEnabled,
    TfaVerified,
    TfaSecret,
    TfaAuthUrl,
    CreatedAt,
    UpdatedAt,
}

impl UserField {
    /// The lowest detail level that lets the field through, whether it is shown
    /// or supplied.
    pub open spec fn min_level(self) -> DetailLevel {
        match self {
            UserField::Id => DetailLevel::Minimal,
            UserField::UserName => DetailLevel::Minimal,
            UserField::Email => DetailLevel::Minimal,
            UserField::Phone => DetailLevel::Minimal,
            UserField::Password => DetailLevel::Partial,
            UserField::RoleId => DetailLevel::Partial,
            UserField::TfaEnabled => DetailLevel::Partial,
            UserField::TfaVerified => DetailLevel::Partial,
            UserField::TfaSecret => DetailLevel::SemiFull,
            UserField::TfaAuthUrl => DetailLevel::SemiFull,
            UserField::CreatedAt => DetailLevel::Full,
            UserField::UpdatedAt => DetailLevel::Full,
        }
    }

    /// Whether `level` lets the field through.
    pub open spec fn visible(self, level: DetailLevel) -> bool {
        level.rank() >= self.min_level().rank()
    }

    /// Whether `level` lets the field through.
    pub fn shown(&self, level: DetailLevel) -> (shown: bool)
        ensures
            shown == self.visible(level),
    {
        let needed: i32 = match self {
            UserField::Id => 1,
            UserField::UserName => 1,
            UserField::Email => 1,
            UserField::Phone => 1,
            UserField::Password => 2,
            UserField::RoleId => 2,
            UserField::TfaEnabled => 2,
            UserField::TfaVerified => 2,
            UserField::TfaSecret => 3,
            UserField::TfaAuthUrl => 3,
            UserField::CreatedAt => 4,
            UserField::UpdatedAt => 4,
        };
        level.ordinal() >= needed
    }
}

impl Default for UserData {
    /// The user of which every field is absent.
    fn default() -> (data: UserData)
        ensures
            data == UserData::blank(),
    {
        UserData {
            id: None,
            user_name: None,
            email: None,
            phone: None,
            password: None,
            role_id: None,
            tfa_enabled: None,
            tfa_verified: None,
            tfa_secret: None,
            tfa_auth_url: None,
            created_at: None,
            updated_at: None,
        }
    }
}

impl Clone for UserData {
    fn clone(&self) -> (copy: Self)
        ensures
            copy == *self,
    {
        UserData {
            id: self.id,
            user_name: self.user_name.clone(),
            email: self.email.clone(),
            phone: self.phone.clone(),
            password: self.password.clone(),
            role_id: self.role_id,
            tfa_enabled: self.tfa_enabled,
            tfa_verified: self.tfa_verified,
            tfa_secret: self.tfa_secret.clone(),
            tfa_auth_url: self.tfa_auth_url.clone(),
            created_at: self.created_at,
            updated_at: self.updated_at,
        }
    }
}

impl Clone for User {
    fn clone(&self) -> (copy: Self)
        ensures
            copy == *self,
    {
        User {
            id: self.id,
            user_name: self.user_name.clone(),
            email: self.email.clone(),
            phone: self.phone.clone(),
            password: self.password.clone(),
            role_id: self.role_id,
            tfa_enabled: self.tfa_enabled,
            tfa_verified: self.tfa_verified,
            tfa_secret: self.tfa_secret.clone(),
            tfa_auth_url: self.tfa_auth_url.clone(),
            created_at: self.created_at,
            updated_at: self.updated_at,
        }
    }
}

impl UserData {
    /// The user of which every field is absent.
    pub open spec fn blank() -> UserData {
        UserData {
            id: None,
            user_name: None,
            email: None,
            phone: None,
            password: None,
            role_id: None,
            tfa_enabled: None,
            tfa_verified: None,
            tfa_secret: None,
            tfa_auth_url: None,
            created_at: None,
            updated_at: None,
        }
    }

    /// Whether the field is present.
    pub open spec fn has(self, field: UserField) -> bool {
        match field {
            UserField::Id => self.id is Some,
            UserField::UserName => self.user_name is Some,
            UserField::Email => self.email is Some,
            UserField::Phone => self.phone is Some,
            UserField::Password => self.password is Some,
            UserField::RoleId => self.role_id is Some,
            UserField::TfaEnabled => self.tfa_enabled is Some,
            UserField::TfaVerified => self.tfa_verified is Some,
            UserField::TfaSecret => self.tfa_secret is Some,
            UserField::TfaAuthUrl => self.tfa_auth_url is Some,
            UserField::CreatedAt => self.created_at is Some,
            UserField::UpdatedAt => self.updated_at is Some,
        }
    }

    /// The fields that are present.
    pub open spec fn fields(self) -> Set<UserField> {
        Set::new(|field: UserField| self.has(field))
    }

    /// The record with the fields that `level` does not let through taken out.
    pub open spec fn restricted(self, level: DetailLevel) -> UserData {
        UserData {
            id: if UserField::Id.visible(level) {
                self.id
            } else {
                None
            },
            user_name: if UserField::UserName.visible(level) {
                self.user_name
            } else {
                None
            },
            email: if UserField::Email.visible(level) {
                self.email
            } else {
                None
            },
            phone: if UserField::Phone.visible(level) {
                self.phone
            } else {
                None
            },
            password: if UserField::Password.visible(level) {
                self.password
            } else {
                None
            },
            role_id: if UserField::RoleId.visible(level) {
                self.role_id
            } else {
                None
            },
            tfa_enabled: if UserField::TfaEnabled.visible(level) {
                self.tfa_enabled
            } else {
                None
            },
            tfa_verified: if UserField::TfaVerified.visible(level) {
                self.tfa_verified
            } else {
                None
            },
            tfa_secret: if UserField::TfaSecret.visible(level) {
                self.tfa_secret
            } else {
                None
            },
            tfa_auth_url: if UserField::TfaAuthUrl.visible(level) {
                self.tfa_auth_url
            } else {
                None
            },
            created_at: if UserField::CreatedAt.visible(level) {
                self.created_at
            } else {
                None
            },
            updated_at: if UserField::UpdatedAt.visible(level) {
                self.updated_at
            } else {
                None
            },
        }
    }

    /// The record with the fields that `level` does not let through taken out.
    pub fn restrict(&self, level: DetailLevel) -> (kept: UserData)
        ensures
            kept == self.restricted(level),
    {
        UserData {
            id: if UserField::Id.shown(level) {
                self.id
            } else {
                None
            },
            user_name: if UserField::UserName.shown(level) {
                self.user_name.clone()
            } else {
                None
            },
            email: if UserField::Email.shown(level) {
                self.email.clone()
            } else {
                None
            },
            phone: if UserField::Phone.shown(level) {
                self.phone.clone()
            } else {
                None
            },
            password: if UserField::Password.shown(level) {
                self.password.clone()
            } else {
                None
            },
            role_id: if UserField::RoleId.shown(level) {
                self.role_id
            } else {
                None
            },
            tfa_enabled: if UserField::TfaEnabled.shown(level) {
                self.tfa_enabled
            } else {
                None
            },
            tfa_verified: if UserField::TfaVerified.shown(level) {
                self.tfa_verified
            } else {
                None
            },
            tfa_secret: if UserField::TfaSecret.shown(level) {
                self.tfa_secret.clone()
            } else {
                None
            },
            tfa_auth_url: if UserField::TfaAuthUrl.shown(level) {
                self.tfa_auth_url.clone()
            } else {
                None
            },
            created_at: if UserField::CreatedAt.shown(level) {
                self.created_at
            } else {
                None
            },
            updated_at: if UserField::UpdatedAt.shown(level) {
                self.updated_at
            } else {
                None
            },
        }
    }
}

impl User {
    /// The stored user with every field that it holds present.
    pub open spec fn complete(self) -> UserData {
        UserData {
            id: Some(self.id),
            user_name: Some(self.user_name),
            email: self.email,
            phone: self.phone,
            password: Some(self.password),
            role_id: Some(self.role_id),
            tfa_enabled: Some(self.tfa_enabled),
            tfa_verified: Some(self.tfa_verified),
            tfa_secret: self.tfa_secret,
            tfa_auth_url: self.tfa_auth_url,
            created_at: Some(self.created_at),
            updated_at: Some(self.updated_at),
        }
    }

    /// What `level` shows of the stored user.
    pub open spec fn wire(self, level: DetailLevel) -> UserData {
        self.complete().restricted(level)
    }

    /// What `level` shows of the stored user.
    pub fn to_wire(&self, level: DetailLevel) -> (shown: UserData)
        ensures
            shown == self.wire(level),
    {
        let complete = UserData {
            id: Some(self.id),
            user_name: Some(self.user_name.clone()),
            email: self.email.clone(),
            phone: self.phone.clone(),
            password: Some(self.password.clone()),
            role_id: Some(self.role_id),
            tfa_enabled: Some(self.tfa_enabled),
            tfa_verified: Some(self.tfa_verified),
            tfa_secret: self.tfa_secret.clone(),
            tfa_auth_url: self.tfa_auth_url.clone(),
            created_at: Some(self.created_at),
            updated_at: Some(self.updated_at),
        };
        complete.restrict(level)
    }

    /// What a caller at `level` may supply: nothing at `Cero`, else each record
    /// with the fields that the level does not let through taken out.
    pub open spec fn input_projection(records: Seq<UserData>, level: DetailLevel) -> Seq<UserData> {
        if level is Cero {
            Seq::empty()
        } else {
            Seq::new(records.len(), |i: int| records[i].restricted(level))
        }
    }

    /// What a caller at `level` is shown: nothing at `Cero`, else of each user the
    /// fields that the level shows.
    pub open spec fn output_projection(records: Seq<User>, level: DetailLevel) -> Seq<UserData> {
        if level is Cero {
            Seq::empty()
        } else {
            Seq::new(records.len(), |i: int| records[i].wire(level))
        }
    }

    /// Trims what a caller supplies to what its level may supply. At `Cero` no
    /// record is left.
    pub fn filter_user_data_input(user_data: Vec<UserData>, detail_level: DetailLevel) -> (kept: Vec<
        UserData,
    >)
        ensures
            kept@ == User::input_projection(user_data@, detail_level),
    {
        if detail_level.ordinal() == 0 {
            return Vec::new();
        }
        let mut kept: Vec<UserData> = Vec::new();
        let mut i: usize = 0;
        while i < user_data.len()
            invariant
                0 <= i <= user_data.len(),
                kept@.len() == i,
                forall|j: int| 0 <= j < i ==> #[trigger] kept@[j] == user_data@[j].restricted(detail_level),
            decreases user_data.len() - i,
        {
            kept.push(user_data[i].restrict(detail_level));
            i += 1;
        }
        assert(kept@ =~= User::input_projection(user_data@, detail_level));
        kept
    }

    /// Trims stored users to what a caller's level may see. At `Cero` no record is
    /// returned, whatever was stored.
    pub fn filter_user_data_output(user_data: Vec<User>, detail_level: DetailLevel) -> (shown: Vec<
        UserData,
    >)
        ensures
            shown@ == User::output_projection(user_data@, detail_level),
            detail_level is Cero ==> shown@.len() == 0,
    {
        if detail_level.ordinal() == 0 {
            return Vec::new();
        }
        let mut shown: Vec<UserData> = Vec::new();
        let mut i: usize = 0;
        while i < user_data.len()
            invariant
                0 <= i <= user_data.len(),
                shown@.len() == i,
                forall|j: int| 0 <= j < i ==> #[trigger] shown@[j] == user_data@[j].wire(detail_level),
            decreases user_data.len() - i,
        {
            shown.push(user_data[i].to_wire(detail_level));
            i += 1;
        }
        assert(shown@ =~= User::output_projection(user_data@, detail_level));
        shown
    }
}

/// A higher level lets through every field that a lower level lets through.
pub proof fn lemma_user_visibility_grows(field: UserField, lower: DetailLevel, higher: DetailLevel)
    requires
        lower.rank() <= higher.rank(),
    ensures
        field.visible(lower) ==> field.visible(higher),
{
}

/// Of one user, a higher level shows every field that a lower level shows.
pub proof fn lemma_user_output_grows(user: User, lower: DetailLevel, higher: DetailLevel)
    requires
        lower.rank() < higher.rank(),
    ensures
        user.wire(lower).fields().subset_of(user.wire(higher).fields()),
{
    assert forall|field: UserField| user.wire(lower).fields().contains(field) implies user.wire(
        higher,
    ).fields().contains(field) by {
        assert(user.wire(lower).has(field));
        assert(user.wire(higher).has(field));
    }
}

/// Of one supplied record, a higher level keeps every field that a lower level keeps.
pub proof fn lemma_user_input_grows(data: UserData, lower: DetailLevel, higher: DetailLevel)
    requires
        lower.rank() < higher.rank(),
    ensures
        data.restricted(lower).fields().subset_of(data.restricted(higher).fields()),
{
    assert forall|field: UserField| data.restricted(lower).fields().contains(field) implies data.restricted(
        higher,
    ).fields().contains(field) by {
        assert(data.restricted(lower).has(field));
        assert(data.restricted(higher).has(field));
    }
}

/// Trimming a supplied record twice at one level gives what trimming once gives.
pub proof fn lemma_user_input_idempotent(records: Seq<UserData>, level: DetailLevel)
    ensures
        User::input_projection(User::input_projection(records, level), level)
            == User::input_projection(records, level),
{
    let once = User::input_projection(records, level);
    let twice = User::input_projection(once, level);
    if !(level is Cero) {
        assert forall|i: int| 0 <= i < once.len() implies twice[i] == once[i] by {
            assert(records[i].restricted(level).restricted(level) == records[i].restricted(level));
        }
    }
    assert(twice =~= once);
}

/// What is shown of stored users is left unchanged by trimming it again at
/// the same level.
pub proof fn lemma_user_output_idempotent(records: Seq<User>, level: DetailLevel)
    ensures
        User::input_projection(User::output_projection(records, level), level)
            == User::output_projection(records, level),
{
    let once = User::output_projection(records, level);
    let twice = User::input_projection(once, level);
    if !(level is Cero) {
        assert forall|i: int| 0 <= i < once.len() implies twice[i] == once[i] by {
            assert(records[i].wire(level).restricted(level) == records[i].wire(level));
        }
    }
    assert(twice =~= once);
}

} // verus!
