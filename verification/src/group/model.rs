use vstd::prelude::*;
use crate::error::StoreError;
use crate::group::states::{GroupAccessLevel, GroupMemberRole, GroupPrincipalKind};
use crate::text::{blank, byte_len, is_blank, str_eq};

verus! {

/// The message of a negative number read back from a group table.
pub open spec fn must_not_be_negative_message(field: Seq<char>) -> Seq<char> {
    field + " must not be negative"@
}

/// Reads a signed BIGINT group column back; fails with
/// `Internal("<field> must not be negative")` exactly when the value is
/// negative.
pub fn group_from_i64(field: &str, value: i64) -> (result: Result<u64, StoreError>)
    ensures
        value >= 0 ==> result == Ok::<u64, StoreError>(value as u64),
        value < 0 ==> (result matches Err(StoreError::Internal(m)) && m@
            == must_not_be_negative_message(field@)),
{
    if value >= 0 {
        Ok(value as u64)
    } else {
        let mut message = field.to_string();
        message.append(" must not be negative");
        Err(StoreError::Internal(message))
    }
}

/// Largest identifier that fits the signed BIGINT columns.
pub const MAX_GROUP_SCOPE_ID: u64 = 9223372036854775807;
/// Longest IM conversation identifier, in bytes.
pub const CONVERSATION_ID_MAX_LENGTH: usize = 128;
/// Longest group display name, in bytes.
pub const GROUP_NAME_MAX_LENGTH: usize = 256;
/// Longest upstream event identifier, in bytes.
pub const SOURCE_EVENT_ID_MAX_LENGTH: usize = 128;
/// Longest actor identifier, in bytes.
pub const ACTOR_ID_MAX_LENGTH: usize = 128;
/// Longest knowledgebase binding UUID, in bytes.
pub const BINDING_UUID_MAX_LENGTH: usize = 64;
/// Longest knowledge space UUID, in bytes.
pub const SPACE_UUID_MAX_LENGTH: usize = 64;
/// Longest provisioning idempotency key, in bytes.
pub const IDEMPOTENCY_KEY_MAX_LENGTH: usize = 512;
/// Longest lease token or error code, in bytes.
pub const LEASE_TOKEN_MAX_LENGTH: usize = 64;

/// Tenant and organization that own a group knowledge space.
#[derive(Debug, Clone, Copy, PartialEq, Eq, Structural)]
pub struct GroupScope {
    pub tenant_id: u64,
    pub organization_id: u64,
}

/// The immutable fence of a provisioned binding: binding and space identity.
#[derive(Debug, Clone)]
pub struct GroupTarget {
    pub knowledgebase_binding_id: u64,
    pub knowledgebase_binding_uuid: String,
    pub knowledge_space_id: u64,
    pub knowledge_space_uuid: String,
}

/// A member of the IM group.
#[derive(Debug, Clone)]
pub struct GroupMember {
    pub principal_kind: GroupPrincipalKind,
    pub actor_id: String,
    pub role: GroupMemberRole,
    pub access_level: Option<GroupAccessLevel>,
}

/// Request to ensure a group knowledge space exists for a conversation.
#[derive(Debug, Clone)]
pub struct ReserveGroupSpaceRequest {
    pub scope: GroupScope,
    pub conversation_id: String,
    pub group_name: String,
    pub source_event_id: String,
    pub provisioning_idempotency_key: String,
    pub created_by: String,
    pub membership_epoch: u64,
    pub members: Vec<GroupMember>,
}

/// Command to synchronize the member snapshot of a group knowledge space.
#[derive(Debug, Clone)]
pub struct MembershipSyncCommand {
    pub scope: GroupScope,
    pub conversation_id: String,
    pub group_name: String,
    pub source_event_id: String,
    pub target: GroupTarget,
    pub membership_epoch: u64,
    pub upstream_link_generation: u64,
    pub members: Vec<GroupMember>,
}

/// Command to archive a group knowledge space.
#[derive(Debug, Clone)]
pub struct ArchiveGroupSpaceCommand {
    pub scope: GroupScope,
    pub conversation_id: String,
    pub source_event_id: String,
    pub target: GroupTarget,
    pub membership_epoch: u64,
    pub upstream_link_generation: u64,
    pub archived_by: String,
}

/// A required text: not blank and at most `max` UTF-8 bytes long.
pub open spec fn group_text_ok(value: Seq<char>, max: nat) -> bool {
    !blank(value) && byte_len(value) <= max
}

/// Requires a non-blank text of at most `maximum_length` bytes.
pub fn validate_group_text(field: &str, value: &str, maximum_length: usize) -> (result: Result<
    (),
    StoreError,
>)
    ensures
        result is Ok <==> group_text_ok(value@, maximum_length as nat),
        result matches Err(e) ==> (e matches StoreError::InvalidRequest(m) && m@ == group_text_message(
            field@,
            maximum_length as nat,
        )),
{
    if is_blank(value) || value.as_bytes().len() > maximum_length {
        let mut message = field.to_string();
        message.append(" is required and must not exceed ");
        let digits = crate::group::fingerprint::decimal_text(maximum_length as u64);
        message.append(digits.as_str());
        message.append(" characters");
        return Err(StoreError::InvalidRequest(message));
    }
    Ok(())
}

/// The message of a group text that is blank or too long.
pub open spec fn group_text_message(field: Seq<char>, maximum_length: nat) -> Seq<char> {
    field + " is required and must not exceed "@ + crate::group::fingerprint::decimal(maximum_length)
        + " characters"@
}

/// An identifier that is set and fits a signed BIGINT.
pub open spec fn scope_id_ok(id: u64) -> bool {
    0 < id <= MAX_GROUP_SCOPE_ID
}

/// A valid group scope: both identifiers set and in range.
pub open spec fn group_scope_ok(scope: GroupScope) -> bool {
    scope_id_ok(scope.tenant_id) && scope_id_ok(scope.organization_id)
}

/// Requires a tenant identifier that is set and fits a signed BIGINT.
pub fn validate_tenant_id(tenant_id: u64) -> (result: Result<(), StoreError>)
    ensures
        result is Ok <==> scope_id_ok(tenant_id),
        result matches Err(e) ==> e.is_invalid_request(),
{
    if tenant_id == 0 {
        return Err(StoreError::InvalidRequest("tenant_id is required".to_string()));
    }
    if tenant_id > MAX_GROUP_SCOPE_ID {
        return Err(StoreError::InvalidRequest("tenant_id exceeds the signed BIGINT group knowledge space boundary".to_string()));
    }
    Ok(())
}

/// Requires a tenant and an organization, both in range.
pub fn validate_scope(scope: GroupScope) -> (result: Result<(), StoreError>)
    ensures
        result is Ok <==> group_scope_ok(scope),
        result matches Err(e) ==> e.is_invalid_request(),
{
    validate_tenant_id(scope.tenant_id)?;
    if scope.organization_id == 0 {
        return Err(StoreError::InvalidRequest("organization_id is required for a group knowledge space".to_string()));
    }
    if scope.organization_id > MAX_GROUP_SCOPE_ID {
        return Err(StoreError::InvalidRequest("organization_id exceeds the signed BIGINT group knowledge space boundary".to_string()));
    }
    Ok(())
}

/// The Drive access level that the IM role policy grants a role.
pub open spec fn role_access(role: GroupMemberRole) -> Option<GroupAccessLevel> {
    match role {
        GroupMemberRole::Owner => Some(GroupAccessLevel::Manage),
        GroupMemberRole::Admin => Some(GroupAccessLevel::Edit),
        GroupMemberRole::Member => Some(GroupAccessLevel::View),
        GroupMemberRole::Guest => None,
    }
}

/// The access level of a role under the IM group role policy.
pub fn role_access_level(role: GroupMemberRole) -> (result: Option<GroupAccessLevel>)
    ensures
        result == role_access(role),
        role == GroupMemberRole::Owner ==> result == Some(GroupAccessLevel::Manage),
        role == GroupMemberRole::Admin ==> result == Some(GroupAccessLevel::Edit),
        role == GroupMemberRole::Member ==> result == Some(GroupAccessLevel::View),
        role == GroupMemberRole::Guest ==> result is None,
{
    match role {
        GroupMemberRole::Owner => Some(GroupAccessLevel::Manage),
        GroupMemberRole::Admin => Some(GroupAccessLevel::Edit),
        GroupMemberRole::Member => Some(GroupAccessLevel::View),
        GroupMemberRole::Guest => None,
    }
}

/// A single member is acceptable: a user principal with a valid actor id whose
/// explicit access level, if any, matches its role.
pub open spec fn member_ok(m: GroupMember) -> bool {
    &&& m.principal_kind == GroupPrincipalKind::User
    &&& group_text_ok(m.actor_id@, ACTOR_ID_MAX_LENGTH as nat)
    &&& (m.access_level matches Some(level) ==> role_access(m.role) == Some(level))
}

/// Number of owners among the members.
pub open spec fn owner_count(ms: Seq<GroupMember>) -> nat
    decreases ms.len(),
{
    if ms.len() == 0 {
        0
    } else {
        owner_count(ms.drop_last()) + if ms.last().role == GroupMemberRole::Owner {
            1nat
        } else {
            0nat
        }
    }
}

/// Members counted by `owner_count` are exactly those with the owner role.
pub proof fn lemma_owner_count(ms: Seq<GroupMember>)
    ensures
        owner_count(ms) == 0 <==> forall|i: int| 0 <= i < ms.len() ==> (#[trigger] ms[i]).role != GroupMemberRole::Owner,
        owner_count(ms) == 1 ==> exists|i: int| 0 <= i < ms.len() && (#[trigger] ms[i]).role == GroupMemberRole::Owner,
        owner_count(ms) == 1 ==> forall|i: int, j: int|
            0 <= i < ms.len() && 0 <= j < ms.len() && (#[trigger] ms[i]).role == GroupMemberRole::Owner
                && (#[trigger] ms[j]).role == GroupMemberRole::Owner ==> i == j,
    decreases ms.len(),
{
    if ms.len() > 0 {
        let init = ms.drop_last();
        lemma_owner_count(init);
        assert forall|i: int| 0 <= i < init.len() implies init[i] == ms[i] by {}
        if ms.last().role == GroupMemberRole::Owner {
            assert(ms[ms.len() - 1].role == GroupMemberRole::Owner);
        }
    }
}

/// No actor id occurs twice.
pub open spec fn actors_unique(ms: Seq<GroupMember>) -> bool {
    forall|i: int, j: int|
        0 <= i < j < ms.len() ==> (#[trigger] ms[i]).actor_id@ != (#[trigger] ms[j]).actor_id@
}

/// A valid member snapshot: not empty, every member acceptable, actor ids
/// unique and exactly one owner.
pub open spec fn members_ok(ms: Seq<GroupMember>) -> bool {
    &&& ms.len() > 0
    &&& forall|i: int| 0 <= i < ms.len() ==> member_ok(#[trigger] ms[i])
    &&& actors_unique(ms)
    &&& owner_count(ms) == 1
}

/// Validates a member snapshot.
pub fn validate_members(members: &Vec<GroupMember>) -> (result: Result<(), StoreError>)
    ensures
        result is Ok <==> members_ok(members@),
        result matches Err(e) ==> e.is_invalid_request(),
        members@.len() == 0 ==> result is Err,
        result is Ok ==> forall|i: int|
            0 <= i < members@.len() ==> (#[trigger] members@[i]).principal_kind == GroupPrincipalKind::User,
        result is Ok ==> forall|i: int, j: int|
            0 <= i < j < members@.len() ==> (#[trigger] members@[i]).actor_id@ != (#[trigger] members@[j]).actor_id@,
        result is Ok ==> exists|i: int| 0 <= i < members@.len() && (#[trigger] members@[i]).role == GroupMemberRole::Owner,
        result is Ok ==> forall|i: int, j: int|
            0 <= i < members@.len() && 0 <= j < members@.len() && (#[trigger] members@[i]).role
                == GroupMemberRole::Owner && (#[trigger] members@[j]).role == GroupMemberRole::Owner ==> i == j,
{
    let n = members.len();
    if n == 0 {
        return Err(StoreError::InvalidRequest("at least one group member is required".to_string()));
    }
    let mut owners: usize = 0;
    let mut i: usize = 0;
    while i < n
        invariant
            n == members@.len(),
            i <= n,
            owners == owner_count(members@.take(i as int)),
            owners <= i,
            forall|k: int| 0 <= k < i ==> member_ok(#[trigger] members@[k]),
            actors_unique(members@.take(i as int)),
        decreases n - i,
    {
        let member = &members[i];
        if member.principal_kind != GroupPrincipalKind::User {
            assert(!member_ok(members@[i as int]));
            return Err(StoreError::InvalidRequest("group knowledge space members must use user principals".to_string()));
        }
        let actor_checked = validate_group_text("member.actor_id", &member.actor_id, ACTOR_ID_MAX_LENGTH);
        if actor_checked.is_err() {
            assert(!member_ok(members@[i as int]));
            return actor_checked;
        }
        let mut j: usize = 0;
        while j < i
            invariant
                i < n,
                n == members@.len(),
                j <= i,
                member.actor_id@ == members@[i as int].actor_id@,
                forall|k: int| 0 <= k < j ==> members@[k].actor_id@ != members@[i as int].actor_id@,
            decreases i - j,
        {
            if str_eq(members[j].actor_id.as_str(), member.actor_id.as_str()) {
                proof {
                    assert(members@[j as int].actor_id@ == members@[i as int].actor_id@);
                    assert(!actors_unique(members@));
                }
                return Err(StoreError::InvalidRequest("member actor ids must be unique".to_string()));
            }
            j = j + 1;
        }
        proof {
            let next = members@.take(i as int + 1);
            assert(next.drop_last() =~= members@.take(i as int));
            assert(next.last() == members@[i as int]);
            assert forall|a: int, b: int| 0 <= a < b < next.len() implies
                (#[trigger] next[a]).actor_id@ != (#[trigger] next[b]).actor_id@ by {
                if b < i {
                    assert(next[a] == members@.take(i as int)[a]);
                    assert(next[b] == members@.take(i as int)[b]);
                }
            }
        }
        let access_ok = match member.access_level {
            Some(level) => match role_access_level(member.role) {
                Some(expected) => level == expected,
                None => false,
            },
            None => true,
        };
        if !access_ok {
            assert(!member_ok(members@[i as int]));
            return Err(StoreError::InvalidRequest("member access level does not match the IM group role policy".to_string()));
        }
        assert(member_ok(members@[i as int]));
        if member.role == GroupMemberRole::Owner {
            owners = owners + 1;
        }
        i = i + 1;
    }
    proof {
        assert(members@.take(n as int) =~= members@);
    }
    if owners != 1 {
        return Err(StoreError::InvalidRequest("exactly one group owner is required".to_string()));
    }
    proof {
        lemma_owner_count(members@);
    }
    Ok(())
}

/// A valid target: both identifiers set and in range, both UUIDs present.
pub open spec fn target_ok(t: GroupTarget) -> bool {
    &&& scope_id_ok(t.knowledgebase_binding_id)
    &&& scope_id_ok(t.knowledge_space_id)
    &&& group_text_ok(t.knowledgebase_binding_uuid@, BINDING_UUID_MAX_LENGTH as nat)
    &&& group_text_ok(t.knowledge_space_uuid@, SPACE_UUID_MAX_LENGTH as nat)
}

/// Validates the immutable target fence of a command.
pub fn validate_group_target(target: &GroupTarget) -> (result: Result<(), StoreError>)
    ensures
        result is Ok <==> target_ok(*target),
        result matches Err(e) ==> e.is_invalid_request(),
{
    if target.knowledgebase_binding_id == 0 || target.knowledge_space_id == 0 {
        return Err(StoreError::InvalidRequest("knowledgebase binding id and knowledge space id are required".to_string()));
    }
    if target.knowledgebase_binding_id > MAX_GROUP_SCOPE_ID || target.knowledge_space_id
        > MAX_GROUP_SCOPE_ID {
        return Err(StoreError::InvalidRequest("knowledgebase binding id and knowledge space id must fit signed BIGINT".to_string()));
    }
    validate_group_text(
        "knowledgebase_binding_uuid",
        &target.knowledgebase_binding_uuid,
        BINDING_UUID_MAX_LENGTH,
    )?;
    validate_group_text("knowledge_space_uuid", &target.knowledge_space_uuid, SPACE_UUID_MAX_LENGTH)
}

/// A valid ensure request.
pub open spec fn reservation_request_ok(r: ReserveGroupSpaceRequest) -> bool {
    &&& group_scope_ok(r.scope)
    &&& group_text_ok(r.conversation_id@, CONVERSATION_ID_MAX_LENGTH as nat)
    &&& group_text_ok(r.group_name@, GROUP_NAME_MAX_LENGTH as nat)
    &&& group_text_ok(r.source_event_id@, SOURCE_EVENT_ID_MAX_LENGTH as nat)
    &&& group_text_ok(r.provisioning_idempotency_key@, IDEMPOTENCY_KEY_MAX_LENGTH as nat)
    &&& group_text_ok(r.created_by@, ACTOR_ID_MAX_LENGTH as nat)
    &&& members_ok(r.members@)
}

/// Validates an ensure request.
pub fn validate_reservation_request(request: &ReserveGroupSpaceRequest) -> (result: Result<
    (),
    StoreError,
>)
    ensures
        result is Ok <==> reservation_request_ok(*request),
        result matches Err(e) ==> e.is_invalid_request(),
{
    validate_scope(request.scope)?;
    validate_group_text("conversation_id", &request.conversation_id, CONVERSATION_ID_MAX_LENGTH)?;
    validate_group_text("group_name", &request.group_name, GROUP_NAME_MAX_LENGTH)?;
    validate_group_text("source_event_id", &request.source_event_id, SOURCE_EVENT_ID_MAX_LENGTH)?;
    validate_group_text(
        "provisioning_idempotency_key",
        &request.provisioning_idempotency_key,
        IDEMPOTENCY_KEY_MAX_LENGTH,
    )?;
    validate_group_text("created_by", &request.created_by, ACTOR_ID_MAX_LENGTH)?;
    validate_members(&request.members)
}

/// A valid membership synchronization command.
pub open spec fn membership_command_ok(c: MembershipSyncCommand) -> bool {
    &&& members_ok(c.members@)
    &&& group_scope_ok(c.scope)
    &&& group_text_ok(c.conversation_id@, CONVERSATION_ID_MAX_LENGTH as nat)
    &&& group_text_ok(c.group_name@, GROUP_NAME_MAX_LENGTH as nat)
    &&& group_text_ok(c.source_event_id@, SOURCE_EVENT_ID_MAX_LENGTH as nat)
    &&& target_ok(c.target)
}

/// Validates a membership synchronization command.
pub fn validate_membership_command(command: &MembershipSyncCommand) -> (result: Result<
    (),
    StoreError,
>)
    ensures
        result is Ok <==> membership_command_ok(*command),
        result matches Err(e) ==> e.is_invalid_request(),
{
    validate_members(&command.members)?;
    validate_scope(command.scope)?;
    validate_group_text("conversation_id", &command.conversation_id, CONVERSATION_ID_MAX_LENGTH)?;
    validate_group_text("group_name", &command.group_name, GROUP_NAME_MAX_LENGTH)?;
    validate_group_text("source_event_id", &command.source_event_id, SOURCE_EVENT_ID_MAX_LENGTH)?;
    validate_group_target(&command.target)
}

/// A valid archive command.
pub open spec fn archive_command_ok(c: ArchiveGroupSpaceCommand) -> bool {
    &&& group_scope_ok(c.scope)
    &&& group_text_ok(c.conversation_id@, CONVERSATION_ID_MAX_LENGTH as nat)
    &&& group_text_ok(c.source_event_id@, SOURCE_EVENT_ID_MAX_LENGTH as nat)
    &&& group_text_ok(c.archived_by@, ACTOR_ID_MAX_LENGTH as nat)
    &&& target_ok(c.target)
}

/// Validates an archive command.
pub fn validate_archive_command(command: &ArchiveGroupSpaceCommand) -> (result: Result<
    (),
    StoreError,
>)
    ensures
        result is Ok <==> archive_command_ok(*command),
        result matches Err(e) ==> e.is_invalid_request(),
{
    validate_scope(command.scope)?;
    validate_group_text("conversation_id", &command.conversation_id, CONVERSATION_ID_MAX_LENGTH)?;
    validate_group_text("source_event_id", &command.source_event_id, SOURCE_EVENT_ID_MAX_LENGTH)?;
    validate_group_text("archived_by", &command.archived_by, ACTOR_ID_MAX_LENGTH)?;
    validate_group_target(&command.target)
}

} // verus!
