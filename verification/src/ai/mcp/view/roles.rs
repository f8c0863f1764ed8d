//! Roles of MCP users and the permissions they grant.
use vstd::prelude::*;
use crate::ids::new_id;
use crate::table::Table;
use crate::text::{owned, string_views};

verus! {

/// A named role with its permissions.
#[derive(Debug, Clone)]
pub struct McpRole {
    pub id: u128,
    pub name: String,
    pub permissions: Vec<String>,
}

impl McpRole {
    /// The permission names.
    pub open spec fn permission_views(self) -> Seq<Seq<char>> {
        string_views(self.permissions@)
    }
}

/// Whether a role's permissions let a user do `permission`: the permission itself, or `all`.
pub open spec fn grants(role: McpRole, permission: Seq<char>) -> bool {
    role.permission_views().contains(permission) || role.permission_views().contains("all"@)
}

/// Roles by name, and the role name of each user.
pub struct McpRolesManager {
    roles: Table<String, McpRole>,
    user_roles: Table<String, String>,
}

impl McpRolesManager {
    /// The roles by name.
    pub closed spec fn roles(self) -> Map<Seq<char>, McpRole> {
        self.roles.view()
    }

    /// The role name assigned to each user.
    pub closed spec fn user_roles(self) -> Map<Seq<char>, Seq<char>> {
        self.user_roles.view().map_values(|s: String| s@)
    }

    /// The role of a user, if the user has one that exists.
    pub open spec fn role_of(self, user: Seq<char>) -> Option<McpRole> {
        if self.user_roles().contains_key(user) && self.roles().contains_key(self.user_roles()[user]) {
            Some(self.roles()[self.user_roles()[user]])
        } else {
            None
        }
    }

    #[verifier::type_invariant]
    closed spec fn inv(self) -> bool {
        forall|k: Seq<char>| #[trigger] self.roles.view().contains_key(k) ==> self.roles.view()[k].name@ == k
    }

    fn role(name: &str, permissions: Vec<String>) -> (r: McpRole)
        ensures
            r.name@ == name@,
            r.permissions@ == permissions@,
    {
        McpRole { id: new_id(), name: owned(name), permissions }
    }

    /// A manager with the roles `admin` (permission `all`), `developer` (`read_code`,
    /// `write_code`) and `viewer` (`read_only`), and no user assigned.
    pub fn new() -> (m: Self)
        ensures
            m.roles().dom() == set!["admin"@, "developer"@, "viewer"@],
            m.roles()["admin"@].permission_views() == seq!["all"@],
            m.roles()["developer"@].permission_views() == seq!["read_code"@, "write_code"@],
            m.roles()["viewer"@].permission_views() == seq!["read_only"@],
            m.roles()["admin"@].name@ == "admin"@,
            m.roles()["developer"@].name@ == "developer"@,
            m.roles()["viewer"@].name@ == "viewer"@,
            m.user_roles() == Map::<Seq<char>, Seq<char>>::empty(),
    {
        proof {
            reveal_strlit("admin");
            reveal_strlit("developer");
            reveal_strlit("viewer");
            assert("admin"@.len() != "developer"@.len());
            assert("admin"@.len() != "viewer"@.len());
            assert("developer"@.len() != "viewer"@.len());
        }
        let mut roles: Table<String, McpRole> = Table::new();
        let mut p1: Vec<String> = Vec::new();
        p1.push(owned("all"));
        let admin = Self::role("admin", p1);
        let ghost admin_v = admin;
        assert(admin_v.permission_views() =~= seq!["all"@]);
        roles.insert(owned("admin"), admin);
        let mut p2: Vec<String> = Vec::new();
        p2.push(owned("read_code"));
        p2.push(owned("write_code"));
        let developer = Self::role("developer", p2);
        let ghost developer_v = developer;
        assert(developer_v.permission_views() =~= seq!["read_code"@, "write_code"@]);
        roles.insert(owned("developer"), developer);
        let mut p3: Vec<String> = Vec::new();
        p3.push(owned("read_only"));
        let viewer = Self::role("viewer", p3);
        roles.insert(owned("viewer"), viewer);
        let user_roles: Table<String, String> = Table::new();
        let m = McpRolesManager { roles, user_roles };
        assert(m.roles().dom() =~= set!["admin"@, "developer"@, "viewer"@]);
        assert(m.roles()["admin"@] == admin_v);
        assert(m.roles()["developer"@] == developer_v);
        assert(m.roles()["viewer"@].permission_views() =~= seq!["read_only"@]);
        assert(m.roles()["viewer"@].name@ == "viewer"@);
        assert(m.user_roles() =~= Map::<Seq<char>, Seq<char>>::empty());
        m
    }

    /// Assigns the role `role_name` to `user_id` when such a role exists; otherwise
    /// nothing changes.
    pub fn assign_role(&mut self, user_id: &str, role_name: &str)
        ensures
            final(self).roles() == old(self).roles(),
            final(self).user_roles() == if old(self).roles().contains_key(role_name@) {
                old(self).user_roles().insert(user_id@, role_name@)
            } else {
                old(self).user_roles()
            },
    {
        proof {
            use_type_invariant(&*self);
        }
        let key = owned(role_name);
        if self.roles.contains_key(&key) {
            let ghost before = self.user_roles.view();
            let mut users: Table<String, String> = Table::new();
            std::mem::swap(&mut users, &mut self.user_roles);
            users.insert(owned(user_id), owned(role_name));
            self.user_roles = users;
            proof {
                assert(self.user_roles.view().map_values(|s: String| s@) =~= before.map_values(
                    |s: String| s@,
                ).insert(user_id@, role_name@));
            }
        }
    }

    /// The role of `user_id`, if one is assigned; it is named as the role the user was
    /// assigned.
    pub fn get_user_role(&self, user_id: &str) -> (r: Option<&McpRole>)
        ensures
            r is Some == self.role_of(user_id@) is Some,
            r matches Some(role) ==> *role == self.role_of(user_id@)->0,
            r matches Some(role) ==> role.name@ == self.user_roles()[user_id@],
    {
        proof {
            use_type_invariant(self);
        }
        match self.user_roles.get(&owned(user_id)) {
            Some(role_name) => self.roles.get(role_name),
            None => None,
        }
    }

    /// Whether `user_id` has a role that grants `permission` (directly or through `all`).
    pub fn has_permission(&self, user_id: &str, permission: &str) -> (r: bool)
        ensures
            r == (self.role_of(user_id@) matches Some(role) && grants(role, permission@)),
    {
        match self.get_user_role(user_id) {
            Some(role) => contains_string(&role.permissions, permission) || contains_string(
                &role.permissions,
                "all",
            ),
            None => false,
        }
    }
}

/// Whether `s` is one of the strings of `v`.
pub fn contains_string(v: &Vec<String>, s: &str) -> (r: bool)
    ensures
        r == string_views(v@).contains(s@),
{
    let target = owned(s);
    let mut i: usize = 0;
    while i < v.len()
        invariant
            i <= v.len(),
            target@ == s@,
            forall|j: int| 0 <= j < i ==> v@[j]@ != s@,
        decreases v.len() - i,
    {
        if v[i].eq(&target) {
            assert(string_views(v@)[i as int] == s@);
            return true;
        }
        i = i + 1;
    }
    proof {
        if string_views(v@).contains(s@) {
            let j = choose|j: int| 0 <= j < v@.len() && #[trigger] string_views(v@)[j] == s@;
            assert(v@[j]@ == s@);
        }
    }
    false
}

} // verus!
