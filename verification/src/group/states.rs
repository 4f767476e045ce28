use vstd::prelude::*;
use crate::error::StoreError;
use crate::text::str_eq;

verus! {

/// Lifecycle of a group knowledge space binding.
#[derive(Debug, Clone, Copy, PartialEq, Eq, Structural)]
pub enum GroupLifecycleState {
    Provisioning,
    Active,
    Failed,
    Archiving,
    Archived,
    Deleted,
}

impl GroupLifecycleState {
    /// The text that stands for the kind in the database.
    pub open spec fn spec_code(self) -> Seq<char> {
        match self {
            GroupLifecycleState::Provisioning => seq!['p', 'r', 'o', 'v', 'i', 's', 'i', 'o', 'n', 'i', 'n', 'g'],
            GroupLifecycleState::Active => seq!['a', 'c', 't', 'i', 'v', 'e'],
            GroupLifecycleState::Failed => seq!['f', 'a', 'i', 'l', 'e', 'd'],
            GroupLifecycleState::Archiving => seq!['a', 'r', 'c', 'h', 'i', 'v', 'i', 'n', 'g'],
            GroupLifecycleState::Archived => seq!['a', 'r', 'c', 'h', 'i', 'v', 'e', 'd'],
            GroupLifecycleState::Deleted => seq!['d', 'e', 'l', 'e', 't', 'e', 'd'],
        }
    }

    /// The database text of the kind.
    pub fn as_str(self) -> (code: &'static str)
        ensures
            code@ == self.spec_code(),
    {
        match self {
            GroupLifecycleState::Provisioning => {
                proof {
                    reveal_strlit("provisioning");
                }
                assert("provisioning"@ =~= self.spec_code());
                "provisioning"
            },
            GroupLifecycleState::Active => {
                proof {
                    reveal_strlit("active");
                }
                assert("active"@ =~= self.spec_code());
                "active"
            },
            GroupLifecycleState::Failed => {
                proof {
                    reveal_strlit("failed");
                }
                assert("failed"@ =~= self.spec_code());
                "failed"
            },
            GroupLifecycleState::Archiving => {
                proof {
                    reveal_strlit("archiving");
                }
                assert("archiving"@ =~= self.spec_code());
                "archiving"
            },
            GroupLifecycleState::Archived => {
                proof {
                    reveal_strlit("archived");
                }
                assert("archived"@ =~= self.spec_code());
                "archived"
            },
            GroupLifecycleState::Deleted => {
                proof {
                    reveal_strlit("deleted");
                }
                assert("deleted"@ =~= self.spec_code());
                "deleted"
            },
        }
    }
}

/// Reads a GroupLifecycleState back from its database text; any other text is an
/// internal error (the database holds a value the domain does not know).
pub fn group_lifecycle_from_str(value: &str) -> (result: Result<GroupLifecycleState, StoreError>)
    ensures
        match result {
            Ok(kind) => kind.spec_code() == value@,
            Err(e) => e.is_internal() && forall|kind: GroupLifecycleState| kind.spec_code() != value@,
        },
        forall|kind: GroupLifecycleState| kind.spec_code() == value@ ==> result == Ok::<GroupLifecycleState, StoreError>(kind),
{
    proof {
        reveal_strlit("provisioning");
    }
    if str_eq(value, "provisioning") {
        assert(value@ =~= GroupLifecycleState::Provisioning.spec_code());
        return Ok(GroupLifecycleState::Provisioning);
    }
    proof {
        reveal_strlit("active");
    }
    if str_eq(value, "active") {
        assert(value@ =~= GroupLifecycleState::Active.spec_code());
        return Ok(GroupLifecycleState::Active);
    }
    proof {
        reveal_strlit("failed");
    }
    if str_eq(value, "failed") {
        assert(value@ =~= GroupLifecycleState::Failed.spec_code());
        return Ok(GroupLifecycleState::Failed);
    }
    proof {
        reveal_strlit("archiving");
    }
    if str_eq(value, "archiving") {
        assert(value@ =~= GroupLifecycleState::Archiving.spec_code());
        return Ok(GroupLifecycleState::Archiving);
    }
    proof {
        reveal_strlit("archived");
    }
    if str_eq(value, "archived") {
        assert(value@ =~= GroupLifecycleState::Archived.spec_code());
        return Ok(GroupLifecycleState::Archived);
    }
    proof {
        reveal_strlit("deleted");
    }
    if str_eq(value, "deleted") {
        assert(value@ =~= GroupLifecycleState::Deleted.spec_code());
        return Ok(GroupLifecycleState::Deleted);
    }
    proof {
        assert forall|kind: GroupLifecycleState| kind.spec_code() != value@ by {
            match kind {
                GroupLifecycleState::Provisioning => {
                    assert("provisioning"@ =~= kind.spec_code());
                },
                GroupLifecycleState::Active => {
                    assert("active"@ =~= kind.spec_code());
                },
                GroupLifecycleState::Failed => {
                    assert("failed"@ =~= kind.spec_code());
                },
                GroupLifecycleState::Archiving => {
                    assert("archiving"@ =~= kind.spec_code());
                },
                GroupLifecycleState::Archived => {
                    assert("archived"@ =~= kind.spec_code());
                },
                GroupLifecycleState::Deleted => {
                    assert("deleted"@ =~= kind.spec_code());
                },
            }
        }
    }
    Err(StoreError::Internal(crate::text::message_with("unsupported group knowledge space lifecycle: ", value)))
}

/// State of the Drive ACL projection of a group knowledge space.
#[derive(Debug, Clone, Copy, PartialEq, Eq, Structural)]
pub enum GroupAclProjectionState {
    Pending,
    Active,
    Failed,
}

impl GroupAclProjectionState {
    /// The text that stands for the kind in the database.
    pub open spec fn spec_code(self) -> Seq<char> {
        match self {
            GroupAclProjectionState::Pending => seq!['p', 'e', 'n', 'd', 'i', 'n', 'g'],
            GroupAclProjectionState::Active => seq!['a', 'c', 't', 'i', 'v', 'e'],
            GroupAclProjectionState::Failed => seq!['f', 'a', 'i', 'l', 'e', 'd'],
        }
    }

    /// The database text of the kind.
    pub fn as_str(self) -> (code: &'static str)
        ensures
            code@ == self.spec_code(),
    {
        match self {
            GroupAclProjectionState::Pending => {
                proof {
                    reveal_strlit("pending");
                }
                assert("pending"@ =~= self.spec_code());
                "pending"
            },
            GroupAclProjectionState::Active => {
                proof {
                    reveal_strlit("active");
                }
                assert("active"@ =~= self.spec_code());
                "active"
            },
            GroupAclProjectionState::Failed => {
                proof {
                    reveal_strlit("failed");
                }
                assert("failed"@ =~= self.spec_code());
                "failed"
            },
        }
    }
}

/// Reads a GroupAclProjectionState back from its database text; any other text is an
/// internal error (the database holds a value the domain does not know).
pub fn group_acl_state_from_str(value: &str) -> (result: Result<GroupAclProjectionState, StoreError>)
    ensures
        match result {
            Ok(kind) => kind.spec_code() == value@,
            Err(e) => e.is_internal() && forall|kind: GroupAclProjectionState| kind.spec_code() != value@,
        },
        forall|kind: GroupAclProjectionState| kind.spec_code() == value@ ==> result == Ok::<GroupAclProjectionState, StoreError>(kind),
{
    proof {
        reveal_strlit("pending");
    }
    if str_eq(value, "pending") {
        assert(value@ =~= GroupAclProjectionState::Pending.spec_code());
        return Ok(GroupAclProjectionState::Pending);
    }
    proof {
        reveal_strlit("active");
    }
    if str_eq(value, "active") {
        assert(value@ =~= GroupAclProjectionState::Active.spec_code());
        return Ok(GroupAclProjectionState::Active);
    }
    proof {
        reveal_strlit("failed");
    }
    if str_eq(value, "failed") {
        assert(value@ =~= GroupAclProjectionState::Failed.spec_code());
        return Ok(GroupAclProjectionState::Failed);
    }
    proof {
        assert forall|kind: GroupAclProjectionState| kind.spec_code() != value@ by {
            match kind {
                GroupAclProjectionState::Pending => {
                    assert("pending"@ =~= kind.spec_code());
                },
                GroupAclProjectionState::Active => {
                    assert("active"@ =~= kind.spec_code());
                },
                GroupAclProjectionState::Failed => {
                    assert("failed"@ =~= kind.spec_code());
                },
            }
        }
    }
    Err(StoreError::Internal(crate::text::message_with("unsupported group knowledge space ACL state: ", value)))
}

/// Kind of principal behind a group member.
#[derive(Debug, Clone, Copy, PartialEq, Eq, Structural)]
pub enum GroupPrincipalKind {
    User,
    Agent,
}

impl GroupPrincipalKind {
    /// The text that stands for the kind in the database.
    pub open spec fn spec_code(self) -> Seq<char> {
        match self {
            GroupPrincipalKind::User => seq!['u', 's', 'e', 'r'],
            GroupPrincipalKind::Agent => seq!['a', 'g', 'e', 'n', 't'],
        }
    }

    /// The database text of the kind.
    pub fn as_str(self) -> (code: &'static str)
        ensures
            code@ == self.spec_code(),
    {
        match self {
            GroupPrincipalKind::User => {
                proof {
                    reveal_strlit("user");
                }
                assert("user"@ =~= self.spec_code());
                "user"
            },
            GroupPrincipalKind::Agent => {
                proof {
                    reveal_strlit("agent");
                }
                assert("agent"@ =~= self.spec_code());
                "agent"
            },
        }
    }
}

/// Reads a GroupPrincipalKind back from its database text; any other text is an
/// internal error (the database holds a value the domain does not know).
pub fn group_principal_kind_from_str(value: &str) -> (result: Result<GroupPrincipalKind, StoreError>)
    ensures
        match result {
            Ok(kind) => kind.spec_code() == value@,
            Err(e) => e.is_internal() && forall|kind: GroupPrincipalKind| kind.spec_code() != value@,
        },
        forall|kind: GroupPrincipalKind| kind.spec_code() == value@ ==> result == Ok::<GroupPrincipalKind, StoreError>(kind),
{
    proof {
        reveal_strlit("user");
    }
    if str_eq(value, "user") {
        assert(value@ =~= GroupPrincipalKind::User.spec_code());
        return Ok(GroupPrincipalKind::User);
    }
    proof {
        reveal_strlit("agent");
    }
    if str_eq(value, "agent") {
        assert(value@ =~= GroupPrincipalKind::Agent.spec_code());
        return Ok(GroupPrincipalKind::Agent);
    }
    proof {
        assert forall|kind: GroupPrincipalKind| kind.spec_code() != value@ by {
            match kind {
                GroupPrincipalKind::User => {
                    assert("user"@ =~= kind.spec_code());
                },
                GroupPrincipalKind::Agent => {
                    assert("agent"@ =~= kind.spec_code());
                },
            }
        }
    }
    Err(StoreError::Internal(crate::text::message_with("unsupported group member principal kind: ", value)))
}

/// Role of a member in the IM group.
#[derive(Debug, Clone, Copy, PartialEq, Eq, Structural)]
pub enum GroupMemberRole {
    Owner,
    Admin,
    Member,
    Guest,
}

impl GroupMemberRole {
    /// The text that stands for the kind in the database.
    pub open spec fn spec_code(self) -> Seq<char> {
        match self {
            GroupMemberRole::Owner => seq!['o', 'w', 'n', 'e', 'r'],
            GroupMemberRole::Admin => seq!['a', 'd', 'm', 'i', 'n'],
            GroupMemberRole::Member => seq!['m', 'e', 'm', 'b', 'e', 'r'],
            GroupMemberRole::Guest => seq!['g', 'u', 'e', 's', 't'],
        }
    }

    /// The database text of the kind.
    pub fn as_str(self) -> (code: &'static str)
        ensures
            code@ == self.spec_code(),
    {
        match self {
            GroupMemberRole::Owner => {
                proof {
                    reveal_strlit("owner");
                }
                assert("owner"@ =~= self.spec_code());
                "owner"
            },
            GroupMemberRole::Admin => {
                proof {
                    reveal_strlit("admin");
                }
                assert("admin"@ =~= self.spec_code());
                "admin"
            },
            GroupMemberRole::Member => {
                proof {
                    reveal_strlit("member");
                }
                assert("member"@ =~= self.spec_code());
                "member"
            },
            GroupMemberRole::Guest => {
                proof {
                    reveal_strlit("guest");
                }
                assert("guest"@ =~= self.spec_code());
                "guest"
            },
        }
    }
}

/// Reads a GroupMemberRole back from its database text; any other text is an
/// internal error (the database holds a value the domain does not know).
pub fn group_member_role_from_str(value: &str) -> (result: Result<GroupMemberRole, StoreError>)
    ensures
        match result {
            Ok(kind) => kind.spec_code() == value@,
            Err(e) => e.is_internal() && forall|kind: GroupMemberRole| kind.spec_code() != value@,
        },
        forall|kind: GroupMemberRole| kind.spec_code() == value@ ==> result == Ok::<GroupMemberRole, StoreError>(kind),
{
    proof {
        reveal_strlit("owner");
    }
    if str_eq(value, "owner") {
        assert(value@ =~= GroupMemberRole::Owner.spec_code());
        return Ok(GroupMemberRole::Owner);
    }
    proof {
        reveal_strlit("admin");
    }
    if str_eq(value, "admin") {
        assert(value@ =~= GroupMemberRole::Admin.spec_code());
        return Ok(GroupMemberRole::Admin);
    }
    proof {
        reveal_strlit("member");
    }
    if str_eq(value, "member") {
        assert(value@ =~= GroupMemberRole::Member.spec_code());
        return Ok(GroupMemberRole::Member);
    }
    proof {
        reveal_strlit("guest");
    }
    if str_eq(value, "guest") {
        assert(value@ =~= GroupMemberRole::Guest.spec_code());
        return Ok(GroupMemberRole::Guest);
    }
    proof {
        assert forall|kind: GroupMemberRole| kind.spec_code() != value@ by {
            match kind {
                GroupMemberRole::Owner => {
                    assert("owner"@ =~= kind.spec_code());
                },
                GroupMemberRole::Admin => {
                    assert("admin"@ =~= kind.spec_code());
                },
                GroupMemberRole::Member => {
                    assert("member"@ =~= kind.spec_code());
                },
                GroupMemberRole::Guest => {
                    assert("guest"@ =~= kind.spec_code());
                },
            }
        }
    }
    Err(StoreError::Internal(crate::text::message_with("unsupported group member role: ", value)))
}

/// Drive access level granted to a group member.
#[derive(Debug, Clone, Copy, PartialEq, Eq, Structural)]
pub enum GroupAccessLevel {
    Manage,
    Edit,
    View,
}

impl GroupAccessLevel {
    /// The text that stands for the kind in the database.
    pub open spec fn spec_code(self) -> Seq<char> {
        match self {
            GroupAccessLevel::Manage => seq!['m', 'a', 'n', 'a', 'g', 'e'],
            GroupAccessLevel::Edit => seq!['e', 'd', 'i', 't'],
            GroupAccessLevel::View => seq!['v', 'i', 'e', 'w'],
        }
    }

    /// The database text of the kind.
    pub fn as_str(self) -> (code: &'static str)
        ensures
            code@ == self.spec_code(),
    {
        match self {
            GroupAccessLevel::Manage => {
                proof {
                    reveal_strlit("manage");
                }
                assert("manage"@ =~= self.spec_code());
                "manage"
            },
            GroupAccessLevel::Edit => {
                proof {
                    reveal_strlit("edit");
                }
                assert("edit"@ =~= self.spec_code());
                "edit"
            },
            GroupAccessLevel::View => {
                proof {
                    reveal_strlit("view");
                }
                assert("view"@ =~= self.spec_code());
                "view"
            },
        }
    }
}

/// Reads a GroupAccessLevel back from its database text; any other text is an
/// internal error (the database holds a value the domain does not know).
pub fn group_access_level_from_str(value: &str) -> (result: Result<GroupAccessLevel, StoreError>)
    ensures
        match result {
            Ok(kind) => kind.spec_code() == value@,
            Err(e) => e.is_internal() && forall|kind: GroupAccessLevel| kind.spec_code() != value@,
        },
        forall|kind: GroupAccessLevel| kind.spec_code() == value@ ==> result == Ok::<GroupAccessLevel, StoreError>(kind),
{
    proof {
        reveal_strlit("manage");
    }
    if str_eq(value, "manage") {
        assert(value@ =~= GroupAccessLevel::Manage.spec_code());
        return Ok(GroupAccessLevel::Manage);
    }
    proof {
        reveal_strlit("edit");
    }
    if str_eq(value, "edit") {
        assert(value@ =~= GroupAccessLevel::Edit.spec_code());
        return Ok(GroupAccessLevel::Edit);
    }
    proof {
        reveal_strlit("view");
    }
    if str_eq(value, "view") {
        assert(value@ =~= GroupAccessLevel::View.spec_code());
        return Ok(GroupAccessLevel::View);
    }
    proof {
        assert forall|kind: GroupAccessLevel| kind.spec_code() != value@ by {
            match kind {
                GroupAccessLevel::Manage => {
                    assert("manage"@ =~= kind.spec_code());
                },
                GroupAccessLevel::Edit => {
                    assert("edit"@ =~= kind.spec_code());
                },
                GroupAccessLevel::View => {
                    assert("view"@ =~= kind.spec_code());
                },
            }
        }
    }
    Err(StoreError::Internal(crate::text::message_with("unsupported group member access level: ", value)))
}

/// State of a durable membership ACL projection.
#[derive(Debug, Clone, Copy, PartialEq, Eq, Structural)]
pub enum MembershipProjectionState {
    Pending,
    Failed,
    Completed,
}

impl MembershipProjectionState {
    /// The text that stands for the kind in the database.
    pub open spec fn spec_code(self) -> Seq<char> {
        match self {
            MembershipProjectionState::Pending => seq!['p', 'e', 'n', 'd', 'i', 'n', 'g'],
            MembershipProjectionState::Failed => seq!['f', 'a', 'i', 'l', 'e', 'd'],
            MembershipProjectionState::Completed => seq!['c', 'o', 'm', 'p', 'l', 'e', 't', 'e', 'd'],
        }
    }

    /// The database text of the kind.
    pub fn as_str(self) -> (code: &'static str)
        ensures
            code@ == self.spec_code(),
    {
        match self {
            MembershipProjectionState::Pending => {
                proof {
                    reveal_strlit("pending");
                }
                assert("pending"@ =~= self.spec_code());
                "pending"
            },
            MembershipProjectionState::Failed => {
                proof {
                    reveal_strlit("failed");
                }
                assert("failed"@ =~= self.spec_code());
                "failed"
            },
            MembershipProjectionState::Completed => {
                proof {
                    reveal_strlit("completed");
                }
                assert("completed"@ =~= self.spec_code());
                "completed"
            },
        }
    }
}

/// Reads a MembershipProjectionState back from its database text; any other text is an
/// internal error (the database holds a value the domain does not know).
pub fn membership_projection_state_from_str(value: &str) -> (result: Result<MembershipProjectionState, StoreError>)
    ensures
        match result {
            Ok(kind) => kind.spec_code() == value@,
            Err(e) => e.is_internal() && forall|kind: MembershipProjectionState| kind.spec_code() != value@,
        },
        forall|kind: MembershipProjectionState| kind.spec_code() == value@ ==> result == Ok::<MembershipProjectionState, StoreError>(kind),
{
    proof {
        reveal_strlit("pending");
    }
    if str_eq(value, "pending") {
        assert(value@ =~= MembershipProjectionState::Pending.spec_code());
        return Ok(MembershipProjectionState::Pending);
    }
    proof {
        reveal_strlit("failed");
    }
    if str_eq(value, "failed") {
        assert(value@ =~= MembershipProjectionState::Failed.spec_code());
        return Ok(MembershipProjectionState::Failed);
    }
    proof {
        reveal_strlit("completed");
    }
    if str_eq(value, "completed") {
        assert(value@ =~= MembershipProjectionState::Completed.spec_code());
        return Ok(MembershipProjectionState::Completed);
    }
    proof {
        assert forall|kind: MembershipProjectionState| kind.spec_code() != value@ by {
            match kind {
                MembershipProjectionState::Pending => {
                    assert("pending"@ =~= kind.spec_code());
                },
                MembershipProjectionState::Failed => {
                    assert("failed"@ =~= kind.spec_code());
                },
                MembershipProjectionState::Completed => {
                    assert("completed"@ =~= kind.spec_code());
                },
            }
        }
    }
    Err(StoreError::Internal(crate::text::message_with("unsupported membership projection state: ", value)))
}

} // verus!
