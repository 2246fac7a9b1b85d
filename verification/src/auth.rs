//! The store's authentication and authorization API.
//!
//! These API endpoints are used to manage users and roles. The record types
//! here are builders: each mutator's contract pins exactly how the record
//! changes.

use vstd::prelude::*;
use vstd::string::StringExecFns;

use crate::client::{
    attempted, cluster_info_of, cluster_info_of_spec, dispatched_by, transport_total, Response,
};
use crate::codec::{api_error_decoded, decode_api_error};
use crate::error::{Error, TransportError};
use crate::first_ok::first_ok;
use crate::json::{json_doc_of, json_parse, Json};
use crate::wire::{HttpRequest, HttpResponse, Method};

verus! {

/// The type returned when the auth system is successfully enabled or
/// disabled.
#[derive(Clone, Copy, Debug, PartialEq, Eq, Structural)]
pub enum AuthChange {
    /// The auth system was successfully enabled or disabled.
    Changed,
    /// The auth system was already in the desired state.
    Unchanged,
}

/// An existing user with a list of their granted roles.
#[derive(Debug, Clone, PartialEq, Eq)]
pub struct User {
    /// The user's name.
    name: String,
    /// The names of roles granted to the user.
    roles: Vec<String>,
}

impl User {
    /// The user's name, as a sequence of characters.
    pub closed spec fn spec_name(&self) -> Seq<char> {
        self.name@
    }

    /// The granted role names, as sequences of characters.
    pub closed spec fn spec_role_names(&self) -> Seq<Seq<char>> {
        self.roles.deep_view()
    }

    /// Returns the user's name.
    pub fn name(&self) -> (r: &str)
        ensures
            r@ == self.spec_name(),
    {
        self.name.as_str()
    }

    /// Returns the names of the roles granted to the user.
    pub fn role_names(&self) -> (r: &[String])
        ensures
            r.deep_view() == self.spec_role_names(),
    {
        self.roles.as_slice()
    }
}

/// An existing user with details of granted roles.
#[derive(Debug, Clone, PartialEq, Eq)]
pub struct UserDetail {
    /// The user's name.
    name: String,
    /// Roles granted to the user.
    roles: Vec<Role>,
}

impl UserDetail {
    /// The user's name, as a sequence of characters.
    pub closed spec fn spec_name(&self) -> Seq<char> {
        self.name@
    }

    /// The granted roles.
    pub closed spec fn spec_roles(&self) -> Seq<Role> {
        self.roles@
    }

    /// Returns the user's name.
    pub fn name(&self) -> (r: &str)
        ensures
            r@ == self.spec_name(),
    {
        self.name.as_str()
    }

    /// Returns the roles granted to the user.
    pub fn roles(&self) -> (r: &[Role])
        ensures
            r@ == self.spec_roles(),
    {
        self.roles.as_slice()
    }
}

/// Parameters used to create a new user.
#[derive(Debug, Clone, PartialEq, Eq)]
pub struct NewUser {
    /// The user's name.
    name: String,
    /// The user's password.
    password: String,
    /// An initial set of roles granted to the user.
    roles: Option<Vec<String>>,
}

impl NewUser {
    /// The user's name, as a sequence of characters.
    pub closed spec fn spec_name(&self) -> Seq<char> {
        self.name@
    }

    /// The user's password, as a sequence of characters.
    pub closed spec fn spec_password(&self) -> Seq<char> {
        self.password@
    }

    /// The initial roles: absent until the first grant.
    pub closed spec fn spec_roles(&self) -> Option<Seq<Seq<char>>> {
        match self.roles {
            Option::Some(rs) => Some(rs.deep_view()),
            Option::None => None,
        }
    }

    /// Creates a new user with no initial roles.
    pub fn new(name: &str, password: &str) -> (u: NewUser)
        ensures
            u.spec_name() == name@,
            u.spec_password() == password@,
            u.spec_roles() is None,
    {
        NewUser { name: name.to_owned(), password: password.to_owned(), roles: None }
    }

    /// Gets the name of the new user.
    pub fn name(&self) -> (r: &str)
        ensures
            r@ == self.spec_name(),
    {
        self.name.as_str()
    }

    /// Grants a role to the new user.
    pub fn add_role(&mut self, role: &str)
        ensures
            final(self).spec_name() == old(self).spec_name(),
            final(self).spec_password() == old(self).spec_password(),
            final(self).spec_roles() == Some(
                match old(self).spec_roles() {
                    Option::Some(rs) => rs.push(role@),
                    Option::None => seq![role@],
                },
            ),
    {
        match &mut self.roles {
            Option::Some(roles) => {
                roles.push(role.to_owned());
                proof {
                    assert(self.roles->0.deep_view() =~~= old(self).roles->0.deep_view().push(
                        role@,
                    ));
                }
            },
            Option::None => {
                let mut roles: Vec<String> = Vec::new();
                roles.push(role.to_owned());
                self.roles = Some(roles);
                proof {
                    assert(self.roles->0.deep_view() =~~= seq![role@]);
                }
            },
        }
    }
}

/// Parameters used to update an existing user.
#[derive(Debug, Clone, PartialEq, Eq)]
pub struct UserUpdate {
    /// The user's name.
    name: String,
    /// A new password for the user.
    password: Option<String>,
    /// Roles being granted to the user.
    grants: Option<Vec<String>>,
    /// Roles being revoked from the user.
    revocations: Option<Vec<String>>,
}

impl UserUpdate {
    /// The user's name, as a sequence of characters.
    pub closed spec fn spec_name(&self) -> Seq<char> {
        self.name@
    }

    /// The new password: absent until one is set.
    pub closed spec fn spec_password(&self) -> Option<Seq<char>> {
        match self.password {
            Option::Some(p) => Some(p@),
            Option::None => None,
        }
    }

    /// The roles being granted: absent until the first grant.
    pub closed spec fn spec_grants(&self) -> Option<Seq<Seq<char>>> {
        match self.grants {
            Option::Some(rs) => Some(rs.deep_view()),
            Option::None => None,
        }
    }

    /// The roles being revoked: absent until the first revocation.
    pub closed spec fn spec_revocations(&self) -> Option<Seq<Seq<char>>> {
        match self.revocations {
            Option::Some(rs) => Some(rs.deep_view()),
            Option::None => None,
        }
    }

    /// Creates a new update for the given user, changing nothing yet.
    pub fn new(name: &str) -> (u: UserUpdate)
        ensures
            u.spec_name() == name@,
            u.spec_password() is None,
            u.spec_grants() is None,
            u.spec_revocations() is None,
    {
        UserUpdate { name: name.to_owned(), password: None, grants: None, revocations: None }
    }

    /// Gets the name of the user being updated.
    pub fn name(&self) -> (r: &str)
        ensures
            r@ == self.spec_name(),
    {
        self.name.as_str()
    }

    /// Updates the user's password.
    pub fn update_password(&mut self, password: &str)
        ensures
            final(self).spec_name() == old(self).spec_name(),
            final(self).spec_password() == Some(password@),
            final(self).spec_grants() == old(self).spec_grants(),
            final(self).spec_revocations() == old(self).spec_revocations(),
    {
        self.password = Some(password.to_owned());
    }

    /// Grants the given role to the user.
    pub fn grant_role(&mut self, role: &str)
        ensures
            final(self).spec_name() == old(self).spec_name(),
            final(self).spec_password() == old(self).spec_password(),
            final(self).spec_grants() == Some(
                match old(self).spec_grants() {
                    Option::Some(rs) => rs.push(role@),
                    Option::None => seq![role@],
                },
            ),
            final(self).spec_revocations() == old(self).spec_revocations(),
    {
        match &mut self.grants {
            Option::Some(grants) => {
                grants.push(role.to_owned());
                proof {
                    assert(self.grants->0.deep_view() =~~= old(self).grants->0.deep_view().push(
                        role@,
                    ));
                }
            },
            Option::None => {
                let mut grants: Vec<String> = Vec::new();
                grants.push(role.to_owned());
                self.grants = Some(grants);
                proof {
                    assert(self.grants->0.deep_view() =~~= seq![role@]);
                }
            },
        }
    }

    /// Revokes the given role from the user.
    pub fn revoke_role(&mut self, role: &str)
        ensures
            final(self).spec_name() == old(self).spec_name(),
            final(self).spec_password() == old(self).spec_password(),
            final(self).spec_grants() == old(self).spec_grants(),
            final(self).spec_revocations() == Some(
                match old(self).spec_revocations() {
                    Option::Some(rs) => rs.push(role@),
                    Option::None => seq![role@],
                },
            ),
    {
        match &mut self.revocations {
            Option::Some(revocations) => {
                revocations.push(role.to_owned());
                proof {
                    assert(self.revocations->0.deep_view()
                        =~~= old(self).revocations->0.deep_view().push(role@));
                }
            },
            Option::None => {
                let mut revocations: Vec<String> = Vec::new();
                revocations.push(role.to_owned());
                self.revocations = Some(revocations);
                proof {
                    assert(self.revocations->0.deep_view() =~~= seq![role@]);
                }
            },
        }
    }
}

/// A set of read and write access permissions for the store's resources.
#[derive(Debug, Clone, PartialEq, Eq)]
struct Permission {
    /// Resources allowed to be read.
    read: Option<Vec<String>>,
    /// Resources allowed to be written.
    write: Option<Vec<String>>,
}

impl Permission {
    /// The readable resources: absent until the first grant.
    pub closed spec fn spec_read(&self) -> Option<Seq<Seq<char>>> {
        match self.read {
            Option::Some(rs) => Some(rs.deep_view()),
            Option::None => None,
        }
    }

    /// The writable resources: absent until the first grant.
    pub closed spec fn spec_write(&self) -> Option<Seq<Seq<char>>> {
        match self.write {
            Option::Some(rs) => Some(rs.deep_view()),
            Option::None => None,
        }
    }

    /// Creates a new permission record allowing nothing.
    fn new() -> (p: Permission)
        ensures
            p.spec_read() is None,
            p.spec_write() is None,
    {
        Permission { read: None, write: None }
    }

    /// Adds read access to a resource.
    fn modify_read_permission(&mut self, key: &str)
        ensures
            final(self).spec_read() == Some(
                match old(self).spec_read() {
                    Option::Some(rs) => rs.push(key@),
                    Option::None => seq![key@],
                },
            ),
            final(self).spec_write() == old(self).spec_write(),
    {
        match &mut self.read {
            Option::Some(read) => {
                read.push(key.to_owned());
                proof {
                    assert(self.read->0.deep_view() =~~= old(self).read->0.deep_view().push(key@));
                }
            },
            Option::None => {
                let mut read: Vec<String> = Vec::new();
                read.push(key.to_owned());
                self.read = Some(read);
                proof {
                    assert(self.read->0.deep_view() =~~= seq![key@]);
                }
            },
        }
    }

    /// Adds write access to a resource.
    fn modify_write_permission(&mut self, key: &str)
        ensures
            final(self).spec_read() == old(self).spec_read(),
            final(self).spec_write() == Some(
                match old(self).spec_write() {
                    Option::Some(rs) => rs.push(key@),
                    Option::None => seq![key@],
                },
            ),
    {
        match &mut self.write {
            Option::Some(write) => {
                write.push(key.to_owned());
                proof {
                    assert(self.write->0.deep_view() =~~= old(self).write->0.deep_view().push(
                        key@,
                    ));
                }
            },
            Option::None => {
                let mut write: Vec<String> = Vec::new();
                write.push(key.to_owned());
                self.write = Some(write);
                proof {
                    assert(self.write->0.deep_view() =~~= seq![key@]);
                }
            },
        }
    }
}

/// The access permissions granted to a role.
#[derive(Debug, Clone, PartialEq, Eq)]
struct Permissions {
    /// Permissions for the store's key-value resources.
    kv: Permission,
}

impl Permissions {
    /// Creates a new set of permissions allowing nothing.
    fn new() -> (p: Permissions)
        ensures
            p.kv.spec_read() is None,
            p.kv.spec_write() is None,
    {
        Permissions { kv: Permission::new() }
    }
}

/// An authorization role.
#[derive(Debug, Clone, PartialEq, Eq)]
pub struct Role {
    /// The name of the role.
    name: String,
    /// Permissions granted to the role.
    permissions: Permissions,
}

impl Role {
    /// The role's name, as a sequence of characters.
    pub closed spec fn spec_name(&self) -> Seq<char> {
        self.name@
    }

    /// The readable key-value resources: absent until the first grant.
    pub closed spec fn spec_kv_read(&self) -> Option<Seq<Seq<char>>> {
        self.permissions.kv.spec_read()
    }

    /// The writable key-value resources: absent until the first grant.
    pub closed spec fn spec_kv_write(&self) -> Option<Seq<Seq<char>>> {
        self.permissions.kv.spec_write()
    }

    /// Creates a new role allowing nothing.
    pub fn new(name: &str) -> (role: Role)
        ensures
            role.spec_name() == name@,
            role.spec_kv_read() is None,
            role.spec_kv_write() is None,
    {
        Role { name: name.to_owned(), permissions: Permissions::new() }
    }

    /// Gets the name of the role.
    pub fn name(&self) -> (r: &str)
        ensures
            r@ == self.spec_name(),
    {
        self.name.as_str()
    }

    /// Grants read permission for a key-value resource to this role.
    pub fn grant_kv_read_permission(&mut self, key: &str)
        ensures
            final(self).spec_name() == old(self).spec_name(),
            final(self).spec_kv_read() == Some(
                match old(self).spec_kv_read() {
                    Option::Some(rs) => rs.push(key@),
                    Option::None => seq![key@],
                },
            ),
            final(self).spec_kv_write() == old(self).spec_kv_write(),
    {
        self.permissions.kv.modify_read_permission(key)
    }

    /// Grants write permission for a key-value resource to this role.
    pub fn grant_kv_write_permission(&mut self, key: &str)
        ensures
            final(self).spec_name() == old(self).spec_name(),
            final(self).spec_kv_read() == old(self).spec_kv_read(),
            final(self).spec_kv_write() == Some(
                match old(self).spec_kv_write() {
                    Option::Some(rs) => rs.push(key@),
                    Option::None => seq![key@],
                },
            ),
    {
        self.permissions.kv.modify_write_permission(key)
    }

    /// Returns the key-value resources this role is allowed to read.
    pub fn kv_read_permissions(&self) -> (r: &[String])
        ensures
            r.deep_view() == match self.spec_kv_read() {
                Option::Some(rs) => rs,
                Option::None => Seq::<Seq<char>>::empty(),
            },
    {
        match &self.permissions.kv.read {
            Option::Some(read) => read.as_slice(),
            Option::None => &[],
        }
    }

    /// Returns the key-value resources this role is allowed to write.
    pub fn kv_write_permissions(&self) -> (r: &[String])
        ensures
            r.deep_view() == match self.spec_kv_write() {
                Option::Some(rs) => rs,
                Option::None => Seq::<Seq<char>>::empty(),
            },
    {
        match &self.permissions.kv.write {
            Option::Some(write) => write.as_slice(),
            Option::None => &[],
        }
    }
}

/// Parameters used to update an existing authorization role.
#[derive(Debug, Clone, PartialEq, Eq)]
pub struct RoleUpdate {
    /// The name of the role.
    name: String,
    /// Permissions being added to the role.
    grants: Option<Permissions>,
    /// Permissions being removed from the role.
    revocations: Option<Permissions>,
}

impl RoleUpdate {
    /// The role's name, as a sequence of characters.
    pub closed spec fn spec_name(&self) -> Seq<char> {
        self.name@
    }

    /// The read grants: absent until the first one.
    pub closed spec fn spec_grants_read(&self) -> Option<Seq<Seq<char>>> {
        match self.grants {
            Option::Some(p) => p.kv.spec_read(),
            Option::None => None,
        }
    }

    /// The write grants: absent until the first one.
    pub closed spec fn spec_grants_write(&self) -> Option<Seq<Seq<char>>> {
        match self.grants {
            Option::Some(p) => p.kv.spec_write(),
            Option::None => None,
        }
    }

    /// The read revocations: absent until the first one.
    pub closed spec fn spec_revocations_read(&self) -> Option<Seq<Seq<char>>> {
        match self.revocations {
            Option::Some(p) => p.kv.spec_read(),
            Option::None => None,
        }
    }

    /// The write revocations: absent until the first one.
    pub closed spec fn spec_revocations_write(&self) -> Option<Seq<Seq<char>>> {
        match self.revocations {
            Option::Some(p) => p.kv.spec_write(),
            Option::None => None,
        }
    }

    /// Creates a new update for the given role, changing nothing yet.
    pub fn new(role: &str) -> (u: RoleUpdate)
        ensures
            u.spec_name() == role@,
            u.spec_grants_read() is None,
            u.spec_grants_write() is None,
            u.spec_revocations_read() is None,
            u.spec_revocations_write() is None,
    {
        RoleUpdate { name: role.to_owned(), grants: None, revocations: None }
    }

    /// Gets the name of the role being updated.
    pub fn name(&self) -> (r: &str)
        ensures
            r@ == self.spec_name(),
    {
        self.name.as_str()
    }

    /// Grants read permission for a key-value resource to this role.
    pub fn grant_kv_read_permission(&mut self, key: &str)
        ensures
            final(self).spec_name() == old(self).spec_name(),
            final(self).spec_grants_read() == Some(
                match old(self).spec_grants_read() {
                    Option::Some(rs) => rs.push(key@),
                    Option::None => seq![key@],
                },
            ),
            final(self).spec_grants_write() == old(self).spec_grants_write(),
            final(self).spec_revocations_read() == old(self).spec_revocations_read(),
            final(self).spec_revocations_write() == old(self).spec_revocations_write(),
    {
        match &mut self.grants {
            Option::Some(grants) => grants.kv.modify_read_permission(key),
            Option::None => {
                let mut permissions = Permissions::new();
                permissions.kv.modify_read_permission(key);
                self.grants = Some(permissions);
            },
        }
    }

    /// Grants write permission for a key-value resource to this role.
    pub fn grant_kv_write_permission(&mut self, key: &str)
        ensures
            final(self).spec_name() == old(self).spec_name(),
            final(self).spec_grants_read() == old(self).spec_grants_read(),
            final(self).spec_grants_write() == Some(
                match old(self).spec_grants_write() {
                    Option::Some(rs) => rs.push(key@),
                    Option::None => seq![key@],
                },
            ),
            final(self).spec_revocations_read() == old(self).spec_revocations_read(),
            final(self).spec_revocations_write() == old(self).spec_revocations_write(),
    {
        match &mut self.grants {
            Option::Some(grants) => grants.kv.modify_write_permission(key),
            Option::None => {
                let mut permissions = Permissions::new();
                permissions.kv.modify_write_permission(key);
                self.grants = Some(permissions);
            },
        }
    }

    /// Revokes read permission for a key-value resource from this role.
    pub fn revoke_kv_read_permission(&mut self, key: &str)
        ensures
            final(self).spec_name() == old(self).spec_name(),
            final(self).spec_grants_read() == old(self).spec_grants_read(),
            final(self).spec_grants_write() == old(self).spec_grants_write(),
            final(self).spec_revocations_read() == Some(
                match old(self).spec_revocations_read() {
                    Option::Some(rs) => rs.push(key@),
                    Option::None => seq![key@],
                },
            ),
            final(self).spec_revocations_write() == old(self).spec_revocations_write(),
    {
        match &mut self.revocations {
            Option::Some(revocations) => revocations.kv.modify_read_permission(key),
            Option::None => {
                let mut permissions = Permissions::new();
                permissions.kv.modify_read_permission(key);
                self.revocations = Some(permissions);
            },
        }
    }

    /// Revokes write permission for a key-value resource from this role.
    pub fn revoke_kv_write_permission(&mut self, key: &str)
        ensures
            final(self).spec_name() == old(self).spec_name(),
            final(self).spec_grants_read() == old(self).spec_grants_read(),
            final(self).spec_grants_write() == old(self).spec_grants_write(),
            final(self).spec_revocations_read() == old(self).spec_revocations_read(),
            final(self).spec_revocations_write() == Some(
                match old(self).spec_revocations_write() {
                    Option::Some(rs) => rs.push(key@),
                    Option::None => seq![key@],
                },
            ),
    {
        match &mut self.revocations {
            Option::Some(revocations) => revocations.kv.modify_write_permission(key),
            Option::None => {
                let mut permissions = Permissions::new();
                permissions.kv.modify_write_permission(key);
                self.revocations = Some(permissions);
            },
        }
    }
}

/// How the answer to an enable or disable request is classified: `200` means
/// the auth system changed state, `409` means it already was in the desired
/// state, and anything else is an unexpected status.
pub open spec fn auth_change_classified(
    hr: HttpResponse,
    out: Result<Response<AuthChange>, Error>,
) -> bool {
    if hr.status == 200 {
        out == Ok::<Response<AuthChange>, Error>(
            Response { data: AuthChange::Changed, cluster_info: cluster_info_of_spec(hr.headers) },
        )
    } else if hr.status == 409 {
        out == Ok::<Response<AuthChange>, Error>(
            Response {
                data: AuthChange::Unchanged,
                cluster_info: cluster_info_of_spec(hr.headers),
            },
        )
    } else {
        out == Err::<Response<AuthChange>, Error>(Error::UnexpectedStatus(hr.status))
    }
}

/// How the answer to a deletion request is classified: `200` is success with
/// no payload, anything else is an unexpected status.
pub open spec fn unit_classified(hr: HttpResponse, out: Result<Response<()>, Error>) -> bool {
    if hr.status == 200 {
        out == Ok::<Response<()>, Error>(
            Response { data: (), cluster_info: cluster_info_of_spec(hr.headers) },
        )
    } else {
        out == Err::<Response<()>, Error>(Error::UnexpectedStatus(hr.status))
    }
}

/// What the auth-status document says: the value of a required `enabled`
/// boolean field.
pub open spec fn enabled_of(j: Json) -> Option<bool> {
    match j {
        Json::Obj(entries) => match crate::json::obj_lookup(entries, "enabled"@) {
            Option::Some(jv) => match jv {
                Json::Bool(b) => Some(b),
                _ => None,
            },
            Option::None => None,
        },
        _ => None,
    }
}

/// How the answer to an auth-status request is classified: on `200` the body
/// must carry the `enabled` field; on any other status the body must decode
/// as the structured error payload; an undecodable body is always a
/// `Serialization` error.
pub open spec fn auth_status_classified(
    hr: HttpResponse,
    out: Result<Response<bool>, Error>,
) -> bool {
    if hr.status == 200 {
        match json_doc_of(hr.body@) {
            Option::None => out == Err::<Response<bool>, Error>(Error::Serialization),
            Option::Some(j) => match out {
                Ok(resp) => enabled_of(j) == Some(resp.data) && resp.cluster_info
                    == cluster_info_of_spec(hr.headers),
                Err(e) => e == Error::Serialization && enabled_of(j) is None,
            },
        }
    } else {
        match json_doc_of(hr.body@) {
            Option::None => out == Err::<Response<bool>, Error>(Error::Serialization),
            Option::Some(j) => match out {
                Ok(_) => false,
                Err(e) => match e {
                    Error::Api(ae) => api_error_decoded(j, ae),
                    Error::Serialization => forall|ae: crate::error::ApiError|
                        !api_error_decoded(j, ae),
                    _ => false,
                },
            },
        }
    }
}

fn classify_auth_change(hr: &HttpResponse) -> (out: Result<Response<AuthChange>, Error>)
    ensures
        auth_change_classified(*hr, out),
{
    if hr.status == 200 {
        Ok(Response { data: AuthChange::Changed, cluster_info: cluster_info_of(&hr.headers) })
    } else if hr.status == 409 {
        Ok(Response { data: AuthChange::Unchanged, cluster_info: cluster_info_of(&hr.headers) })
    } else {
        Err(Error::UnexpectedStatus(hr.status))
    }
}

fn classify_unit(hr: &HttpResponse) -> (out: Result<Response<()>, Error>)
    ensures
        unit_classified(*hr, out),
{
    if hr.status == 200 {
        Ok(Response { data: (), cluster_info: cluster_info_of(&hr.headers) })
    } else {
        Err(Error::UnexpectedStatus(hr.status))
    }
}

fn classify_auth_status(hr: &HttpResponse) -> (out: Result<Response<bool>, Error>)
    ensures
        auth_status_classified(*hr, out),
{
    match json_parse(hr.body.as_slice()) {
        Option::None => Err(Error::Serialization),
        Option::Some(v) => {
            if hr.status == 200 {
                match crate::json::json_get(&v, "enabled") {
                    Option::Some(jv) => match crate::json::json_as_bool(jv) {
                        Option::Some(b) => Ok(
                            Response { data: b, cluster_info: cluster_info_of(&hr.headers) },
                        ),
                        Option::None => Err(Error::Serialization),
                    },
                    Option::None => Err(Error::Serialization),
                }
            } else {
                match decode_api_error(&v) {
                    Ok(ae) => Err(Error::Api(ae)),
                    Err(_) => Err(Error::Serialization),
                }
            }
        },
    }
}

/// The URL of the endpoint that enables, disables or reports the state of
/// the auth system.
fn auth_enable_url(endpoint: &str) -> (r: String)
    ensures
        r@ == endpoint@ + "v2/auth/enable"@,
{
    let mut s = String::new();
    s.append(endpoint);
    s.append("v2/auth/enable");
    proof {
        assert(s@ =~= endpoint@ + "v2/auth/enable"@);
    }
    s
}

/// The per-endpoint attempt of an enable or disable call.
pub open spec fn auth_change_attempt<
    F: Fn(&HttpRequest) -> Result<HttpResponse, TransportError>,
>(f: F, method: Method, with_body: bool) -> spec_fn(
    Seq<char>,
    Result<Response<AuthChange>, Error>,
) -> bool {
    |ep: Seq<char>, out: Result<Response<AuthChange>, Error>|
        attempted(
            f,
            method,
            ep + "v2/auth/enable"@,
            if with_body {
                Some(Seq::<char>::empty())
            } else {
                None
            },
            |hr: HttpResponse, o: Result<Response<AuthChange>, Error>|
                auth_change_classified(hr, o),
            out,
        )
}

/// Attempts to enable the auth system: a PUT with an empty body against each
/// member in order, `409` meaning it was already enabled.
pub fn enable<F: Copy + Fn(&HttpRequest) -> Result<HttpResponse, TransportError>>(
    transport: F,
    endpoints: &Vec<String>,
) -> (r: Result<Response<AuthChange>, Vec<Error>>)
    requires
        transport_total(transport),
    ensures
        dispatched_by(endpoints@, auth_change_attempt(transport, Method::Put, true), r),
{
    let attempt = move |ep: &String| -> (out: Result<Response<AuthChange>, Error>)
        ensures
            auth_change_attempt(transport, Method::Put, true)(ep@, out),
        {
            let req = HttpRequest {
                method: Method::Put,
                url: auth_enable_url(ep.as_str()),
                body: Some(String::new()),
            };
            match transport(&req) {
                Err(te) => Err(Error::Transport(te)),
                Ok(hr) => classify_auth_change(&hr),
            }
        };
    first_ok(endpoints, attempt)
}

/// Attempts to disable the auth system: a DELETE against each member in
/// order, `409` meaning it was already disabled.
pub fn disable<F: Copy + Fn(&HttpRequest) -> Result<HttpResponse, TransportError>>(
    transport: F,
    endpoints: &Vec<String>,
) -> (r: Result<Response<AuthChange>, Vec<Error>>)
    requires
        transport_total(transport),
    ensures
        dispatched_by(endpoints@, auth_change_attempt(transport, Method::Delete, false), r),
{
    let attempt = move |ep: &String| -> (out: Result<Response<AuthChange>, Error>)
        ensures
            auth_change_attempt(transport, Method::Delete, false)(ep@, out),
        {
            let req = HttpRequest {
                method: Method::Delete,
                url: auth_enable_url(ep.as_str()),
                body: None,
            };
            match transport(&req) {
                Err(te) => Err(Error::Transport(te)),
                Ok(hr) => classify_auth_change(&hr),
            }
        };
    first_ok(endpoints, attempt)
}

/// The per-endpoint attempt of an auth-status call.
pub open spec fn auth_status_attempt<
    F: Fn(&HttpRequest) -> Result<HttpResponse, TransportError>,
>(f: F) -> spec_fn(Seq<char>, Result<Response<bool>, Error>) -> bool {
    |ep: Seq<char>, out: Result<Response<bool>, Error>|
        attempted(
            f,
            Method::Get,
            ep + "v2/auth/enable"@,
            None,
            |hr: HttpResponse, o: Result<Response<bool>, Error>| auth_status_classified(hr, o),
            out,
        )
}

/// Determines whether or not the auth system is enabled.
pub fn status<F: Copy + Fn(&HttpRequest) -> Result<HttpResponse, TransportError>>(
    transport: F,
    endpoints: &Vec<String>,
) -> (r: Result<Response<bool>, Vec<Error>>)
    requires
        transport_total(transport),
    ensures
        dispatched_by(endpoints@, auth_status_attempt(transport), r),
{
    let attempt = move |ep: &String| -> (out: Result<Response<bool>, Error>)
        ensures
            auth_status_attempt(transport)(ep@, out),
        {
            let req = HttpRequest {
                method: Method::Get,
                url: auth_enable_url(ep.as_str()),
                body: None,
            };
            match transport(&req) {
                Err(te) => Err(Error::Transport(te)),
                Ok(hr) => classify_auth_status(&hr),
            }
        };
    first_ok(endpoints, attempt)
}

/// The URL of one named role or user.
fn auth_item_url(endpoint: &str, kind: &str, name: &str) -> (r: String)
    ensures
        r@ == endpoint@ + kind@ + name@,
{
    let mut s = String::new();
    s.append(endpoint);
    s.append(kind);
    s.append(name);
    proof {
        assert(s@ =~= endpoint@ + kind@ + name@);
    }
    s
}

/// The per-endpoint attempt of a role or user deletion.
pub open spec fn auth_delete_attempt<
    F: Fn(&HttpRequest) -> Result<HttpResponse, TransportError>,
>(f: F, kind: Seq<char>, name: Seq<char>) -> spec_fn(
    Seq<char>,
    Result<Response<()>, Error>,
) -> bool {
    |ep: Seq<char>, out: Result<Response<()>, Error>|
        attempted(
            f,
            Method::Delete,
            ep + kind + name,
            None,
            |hr: HttpResponse, o: Result<Response<()>, Error>| unit_classified(hr, o),
            out,
        )
}

/// Deletes a role.
pub fn delete_role<F: Copy + Fn(&HttpRequest) -> Result<HttpResponse, TransportError>>(
    transport: F,
    endpoints: &Vec<String>,
    name: &str,
) -> (r: Result<Response<()>, Vec<Error>>)
    requires
        transport_total(transport),
    ensures
        dispatched_by(endpoints@, auth_delete_attempt(transport, "v2/auth/roles/"@, name@), r),
{
    let attempt = move |ep: &String| -> (out: Result<Response<()>, Error>)
        ensures
            auth_delete_attempt(transport, "v2/auth/roles/"@, name@)(ep@, out),
        {
            let req = HttpRequest {
                method: Method::Delete,
                url: auth_item_url(ep.as_str(), "v2/auth/roles/", name),
                body: None,
            };
            match transport(&req) {
                Err(te) => Err(Error::Transport(te)),
                Ok(hr) => classify_unit(&hr),
            }
        };
    first_ok(endpoints, attempt)
}

/// Deletes a user.
pub fn delete_user<F: Copy + Fn(&HttpRequest) -> Result<HttpResponse, TransportError>>(
    transport: F,
    endpoints: &Vec<String>,
    name: &str,
) -> (r: Result<Response<()>, Vec<Error>>)
    requires
        transport_total(transport),
    ensures
        dispatched_by(endpoints@, auth_delete_attempt(transport, "v2/auth/users/"@, name@), r),
{
    let attempt = move |ep: &String| -> (out: Result<Response<()>, Error>)
        ensures
            auth_delete_attempt(transport, "v2/auth/users/"@, name@)(ep@, out),
        {
            let req = HttpRequest {
                method: Method::Delete,
                url: auth_item_url(ep.as_str(), "v2/auth/users/", name),
                body: None,
            };
            match transport(&req) {
                Err(te) => Err(Error::Transport(te)),
                Ok(hr) => classify_unit(&hr),
            }
        };
    first_ok(endpoints, attempt)
}

} // verus!
