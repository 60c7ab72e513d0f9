//! Roles, and the decision whether a role may act.
//!
//! A role holds, for each resource, one flag for each verb, a detail level, and
//! whether it may touch rows that belong to other users.

use vstd::prelude::*;
use crate::moment::DateTime;
use crate::text::same_text;

verus! {

/// A named bundle of capabilities.
#[derive(Clone, Debug, PartialEq, Eq)]
pub struct Role {
    pub id: i32,
    pub role_name: String,
    pub can_get_user: bool,
    pub can_create_user: bool,
    pub can_update_user: bool,
    pub can_delete_user: bool,
    pub detail_level_user: i32,
    pub bypass_user_validation: bool,
    pub can_get_plattform: bool,
    pub can_create_plattform: bool,
    pub can_update_plattform: bool,
    pub can_delete_plattform: bool,
    pub detail_level_platfform: i32,
    pub bypass_plattform_validation: bool,
    pub can_get_booking: bool,
    pub can_create_booking: bool,
    pub can_update_booking: bool,
    pub can_delete_booking: bool,
    pub detail_level_booking: i32,
    pub bypass_booking_validation: bool,
    pub can_get_role: bool,
    pub can_create_role: bool,
    pub can_update_role: bool,
    pub can_delete_role: bool,
    pub detail_level_role: i32,
    pub bypass_role_validation: bool,
    pub can_get_property: bool,
    pub can_create_property: bool,
    pub can_update_property: bool,
    pub can_delete_property: bool,
    pub detail_level_property: i32,
    pub bypass_property_validation: bool,
    pub can_get_calendar: bool,
    pub can_create_calendar: bool,
    pub can_update_calendar: bool,
    pub can_delete_calendar: bool,
    pub detail_level_calendar: i32,
    pub bypass_calendar_validation: bool,
    pub created_at: DateTime,
    pub updated_at: DateTime,
}

/// What a request wants to do.
#[derive(Clone, Copy, Debug, PartialEq, Eq, Structural, Hash)]
pub enum Verb {
    Get,
    Post,
    Put,
    Delete,
}

/// What a request wants to do it to.
#[derive(Clone, Copy, Debug, PartialEq, Eq, Structural, Hash)]
pub enum Resource {
    User,
    Plattform,
    Booking,
    Role,
    Property,
    Calendar,
}

impl Verb {
    /// The verb that a method text names, if it names one.
    pub open spec fn parse_spec(method: Seq<char>) -> Option<Verb> {
        if method == "GET"@ {
            Some(Verb::Get)
        } else if method == "POST"@ {
            Some(Verb::Post)
        } else if method == "PUT"@ {
            Some(Verb::Put)
        } else if method == "DELETE"@ {
            Some(Verb::Delete)
        } else {
            None
        }
    }

    /// Reads a verb; `None` for any other text.
    pub fn parse(method: &str) -> (verb: Option<Verb>)
        ensures
            verb == Verb::parse_spec(method@),
    {
        if same_text(method, "GET") {
            Some(Verb::Get)
        } else if same_text(method, "POST") {
            Some(Verb::Post)
        } else if same_text(method, "PUT") {
            Some(Verb::Put)
        } else if same_text(method, "DELETE") {
            Some(Verb::Delete)
        } else {
            None
        }
    }
}

impl Resource {
    /// The resource that a path names, if it names one.
    pub open spec fn parse_spec(path: Seq<char>) -> Option<Resource> {
        if path == "/users"@ {
            Some(Resource::User)
        } else if path == "/plattforms"@ {
            Some(Resource::Plattform)
        } else if path == "/bookings"@ {
            Some(Resource::Booking)
        } else if path == "/roles"@ {
            Some(Resource::Role)
        } else if path == "/property"@ {
            Some(Resource::Property)
        } else if path == "/calendar"@ {
            Some(Resource::Calendar)
        } else {
            None
        }
    }

    /// Reads a resource from a path; `None` for any other path.
    pub fn parse(path: &str) -> (resource: Option<Resource>)
        ensures
            resource == Resource::parse_spec(path@),
    {
        if same_text(path, "/users") {
            Some(Resource::User)
        } else if same_text(path, "/plattforms") {
            Some(Resource::Plattform)
        } else if same_text(path, "/bookings") {
            Some(Resource::Booking)
        } else if same_text(path, "/roles") {
            Some(Resource::Role)
        } else if same_text(path, "/property") {
            Some(Resource::Property)
        } else if same_text(path, "/calendar") {
            Some(Resource::Calendar)
        } else {
            None
        }
    }
}

impl Role {
    /// The flag that the role holds for a verb on a resource.
    pub open spec fn capability(self, verb: Verb, resource: Resource) -> bool {
        match (verb, resource) {
            (Verb::Get, Resource::User) => self.can_get_user,
            (Verb::Get, Resource::Plattform) => self.can_get_plattform,
            (Verb::Get, Resource::Booking) => self.can_get_booking,
            (Verb::Get, Resource::Role) => self.can_get_role,
            (Verb::Get, Resource::Property) => self.can_get_property,
            (Verb::Get, Resource::Calendar) => self.can_get_calendar,
            (Verb::Post, Resource::User) => self.can_create_user,
            (Verb::Post, Resource::Plattform) => self.can_create_plattform,
            (Verb::Post, Resource::Booking) => self.can_create_booking,
            (Verb::Post, Resource::Role) => self.can_create_role,
            (Verb::Post, Resource::Property) => self.can_create_property,
            (Verb::Post, Resource::Calendar) => self.can_create_calendar,
            (Verb::Put, Resource::User) => self.can_update_user,
            (Verb::Put, Resource::Plattform) => self.can_update_plattform,
            (Verb::Put, Resource::Booking) => self.can_update_booking,
            (Verb::Put, Resource::Role) => self.can_update_role,
            (Verb::Put, Resource::Property) => self.can_update_property,
            (Verb::Put, Resource::Calendar) => self.can_update_calendar,
            (Verb::Delete, Resource::User) => self.can_delete_user,
            (Verb::Delete, Resource::Plattform) => self.can_delete_plattform,
            (Verb::Delete, Resource::Booking) => self.can_delete_booking,
            (Verb::Delete, Resource::Role) => self.can_delete_role,
            (Verb::Delete, Resource::Property) => self.can_delete_property,
            (Verb::Delete, Resource::Calendar) => self.can_delete_calendar,
        }
    }

    /// The detail ordinal that the role holds for a resource.
    pub open spec fn level(self, resource: Resource) -> i32 {
        match resource {
            Resource::User => self.detail_level_user,
            Resource::Plattform => self.detail_level_platfform,
            Resource::Booking => self.detail_level_booking,
            Resource::Role => self.detail_level_role,
            Resource::Property => self.detail_level_property,
            Resource::Calendar => self.detail_level_calendar,
        }
    }

    /// Whether the role may touch rows of a resource that belong to other users.
    pub open spec fn bypass(self, resource: Resource) -> bool {
        match resource {
            Resource::User => self.bypass_user_validation,
            Resource::Plattform => self.bypass_plattform_validation,
            Resource::Booking => self.bypass_booking_validation,
            Resource::Role => self.bypass_role_validation,
            Resource::Property => self.bypass_property_validation,
            Resource::Calendar => self.bypass_calendar_validation,
        }
    }

    /// Whether the role may act: its flag for the verb on the resource is set and,
    /// for every verb but `Delete`, its detail ordinal for the resource is above 0.
    /// `Delete` asks for the flag alone.
    pub open spec fn can_act(self, verb: Verb, resource: Resource) -> bool {
        self.capability(verb, resource) && (verb is Delete || self.level(resource) > 0)
    }

    /// The flag that the role holds for a verb on a resource.
    pub fn can(&self, verb: Verb, resource: Resource) -> (flag: bool)
        ensures
            flag == self.capability(verb, resource),
    {
        match (verb, resource) {
            (Verb::Get, Resource::User) => self.can_get_user,
            (Verb::Get, Resource::Plattform) => self.can_get_plattform,
            (Verb::Get, Resource::Booking) => self.can_get_booking,
            (Verb::Get, Resource::Role) => self.can_get_role,
            (Verb::Get, Resource::Property) => self.can_get_property,
            (Verb::Get, Resource::Calendar) => self.can_get_calendar,
            (Verb::Post, Resource::User) => self.can_create_user,
            (Verb::Post, Resource::Plattform) => self.can_create_plattform,
            (Verb::Post, Resource::Booking) => self.can_create_booking,
            (Verb::Post, Resource::Role) => self.can_create_role,
            (Verb::Post, Resource::Property) => self.can_create_property,
            (Verb::Post, Resource::Calendar) => self.can_create_calendar,
            (Verb::Put, Resource::User) => self.can_update_user,
            (Verb::Put, Resource::Plattform) => self.can_update_plattform,
            (Verb::Put, Resource::Booking) => self.can_update_booking,
            (Verb::Put, Resource::Role) => self.can_update_role,
            (Verb::Put, Resource::Property) => self.can_update_property,
            (Verb::Put, Resource::Calendar) => self.can_update_calendar,
            (Verb::Delete, Resource::User) => self.can_delete_user,
            (Verb::Delete, Resource::Plattform) => self.can_delete_plattform,
            (Verb::Delete, Resource::Booking) => self.can_delete_booking,
            (Verb::Delete, Resource::Role) => self.can_delete_role,
            (Verb::Delete, Resource::Property) => self.can_delete_property,
            (Verb::Delete, Resource::Calendar) => self.can_delete_calendar,
        }
    }

    /// The detail ordinal that the role holds for a resource.
    pub fn detail_level(&self, resource: Resource) -> (level: i32)
        ensures
            level == self.level(resource),
    {
        match resource {
            Resource::User => self.detail_level_user,
            Resource::Plattform => self.detail_level_platfform,
            Resource::Booking => self.detail_level_booking,
            Resource::Role => self.detail_level_role,
            Resource::Property => self.detail_level_property,
            Resource::Calendar => self.detail_level_calendar,
        }
    }

    /// Whether the role may touch rows of a resource that belong to other users.
    pub fn bypasses(&self, resource: Resource) -> (bypass: bool)
        ensures
            bypass == self.bypass(resource),
    {
        match resource {
            Resource::User => self.bypass_user_validation,
            Resource::Plattform => self.bypass_plattform_validation,
            Resource::Booking => self.bypass_booking_validation,
            Resource::Role => self.bypass_role_validation,
            Resource::Property => self.bypass_property_validation,
            Resource::Calendar => self.bypass_calendar_validation,
        }
    }
}

/// Whether a role may make the request with this path and method: both must name
/// a known resource and verb, and the role must be able to act on them.
pub open spec fn action_allowed(path: Seq<char>, method: Seq<char>, role: Role) -> bool {
    match (Verb::parse_spec(method), Resource::parse_spec(path)) {
        (Some(verb), Some(resource)) => role.can_act(verb, resource),
        _ => false,
    }
}

/// Decides whether a role may make the request with this path and method.
/// An unknown path or method is denied.
pub fn may_act(path: &str, method: &str, role: &Role) -> (allowed: bool)
    ensures
        allowed == action_allowed(path@, method@, *role),
{
    let verb = match Verb::parse(method) {
        Some(verb) => verb,
        None => {
            return false;
        },
    };
    let resource = match Resource::parse(path) {
        Some(resource) => resource,
        None => {
            return false;
        },
    };
    match verb {
        Verb::Delete => role.can(verb, resource),
        _ => role.can(verb, resource) && role.detail_level(resource) > 0,
    }
}

/// Decides whether a role may make the request with this path and method.
/// An unknown path or method is denied.
pub fn validate_action(path: String, method: String, role_data: Role) -> (allowed: bool)
    ensures
        allowed == action_allowed(path@, method@, role_data),
{
    may_act(path.as_str(), method.as_str(), &role_data)
}

/// To delete, the flag is enough: the detail level plays no part.
pub proof fn lemma_delete_ignores_detail_level(role: Role, resource: Resource)
    ensures
        role.can_act(Verb::Delete, resource) == role.capability(Verb::Delete, resource),
{
}

/// To read, create or update, a role needs the flag and a detail level above `Cero`.
pub proof fn lemma_other_verbs_need_detail(role: Role, verb: Verb, resource: Resource)
    requires
        !(verb is Delete),
    ensures
        role.can_act(verb, resource) == (role.capability(verb, resource) && role.level(resource) > 0),
{
}

} // verus!
