use vstd::prelude::*;
use crate::error::StoreError;
use crate::group::model::{
    archive_command_ok, validate_archive_command, ArchiveGroupSpaceCommand, GroupScope,
    GroupTarget, ReserveGroupSpaceRequest,
};
use crate::group::states::{GroupAclProjectionState, GroupLifecycleState};
use crate::text::{opt_clone, opt_eq_str, opt_view, str_eq};

verus! {

/// The binding between an IM group conversation and its knowledge space
/// (`kb_group_knowledge_space_binding`), restricted to what the decisions read
/// and write. Timestamps stay with the database.
#[derive(Debug, Clone)]
pub struct GroupBinding {
    pub id: u64,
    pub uuid: String,
    pub scope: GroupScope,
    pub conversation_id: String,
    pub space_id: Option<u64>,
    pub space_uuid: Option<String>,
    pub group_name: String,
    pub lifecycle_state: GroupLifecycleState,
    pub acl_projection_state: GroupAclProjectionState,
    pub provisioning_idempotency_key_sha256_hex: Option<String>,
    pub provisioning_lease_token: Option<String>,
    pub membership_epoch: u64,
    pub upstream_link_generation: u64,
    pub version: u64,
    pub archive_source_event_id: Option<String>,
    pub archive_payload_sha256_hex: Option<String>,
    pub archive_lease_token: Option<String>,
    pub archive_acl_cursor: Option<String>,
    pub archive_acl_pages_processed: u64,
    pub archive_acl_cleanup_completed: bool,
    pub last_source_event_id: Option<String>,
    pub last_error_code: Option<String>,
    pub archived_by: Option<String>,
    pub updated_by: String,
}

/// The mathematical value of a binding: texts as character sequences.
pub struct GroupBindingView {
    pub id: u64,
    pub uuid: Seq<char>,
    pub scope: GroupScope,
    pub conversation_id: Seq<char>,
    pub space_id: Option<u64>,
    pub space_uuid: Option<Seq<char>>,
    pub group_name: Seq<char>,
    pub lifecycle_state: GroupLifecycleState,
    pub acl_projection_state: GroupAclProjectionState,
    pub provisioning_idempotency_key_sha256_hex: Option<Seq<char>>,
    pub provisioning_lease_token: Option<Seq<char>>,
    pub membership_epoch: u64,
    pub upstream_link_generation: u64,
    pub version: u64,
    pub archive_source_event_id: Option<Seq<char>>,
    pub archive_payload_sha256_hex: Option<Seq<char>>,
    pub archive_lease_token: Option<Seq<char>>,
    pub archive_acl_cursor: Option<Seq<char>>,
    pub archive_acl_pages_processed: u64,
    pub archive_acl_cleanup_completed: bool,
    pub last_source_event_id: Option<Seq<char>>,
    pub last_error_code: Option<Seq<char>>,
    pub archived_by: Option<Seq<char>>,
    pub updated_by: Seq<char>,
}

impl View for GroupBinding {
    type V = GroupBindingView;

    open spec fn view(&self) -> GroupBindingView {
        GroupBindingView {
            id: self.id,
            uuid: self.uuid@,
            scope: self.scope,
            conversation_id: self.conversation_id@,
            space_id: self.space_id,
            space_uuid: opt_view(self.space_uuid),
            group_name: self.group_name@,
            lifecycle_state: self.lifecycle_state,
            acl_projection_state: self.acl_projection_state,
            provisioning_idempotency_key_sha256_hex: opt_view(
                self.provisioning_idempotency_key_sha256_hex,
            ),
            provisioning_lease_token: opt_view(self.provisioning_lease_token),
            membership_epoch: self.membership_epoch,
            upstream_link_generation: self.upstream_link_generation,
            version: self.version,
            archive_source_event_id: opt_view(self.archive_source_event_id),
            archive_payload_sha256_hex: opt_view(self.archive_payload_sha256_hex),
            archive_lease_token: opt_view(self.archive_lease_token),
            archive_acl_cursor: opt_view(self.archive_acl_cursor),
            archive_acl_pages_processed: self.archive_acl_pages_processed,
            archive_acl_cleanup_completed: self.archive_acl_cleanup_completed,
            last_source_event_id: opt_view(self.last_source_event_id),
            last_error_code: opt_view(self.last_error_code),
            archived_by: opt_view(self.archived_by),
            updated_by: self.updated_by@,
        }
    }
}

/// The counters of a binding come from signed BIGINT columns.
pub open spec fn binding_wf(b: GroupBindingView) -> bool {
    &&& b.version <= i64::MAX
    &&& b.membership_epoch <= i64::MAX
    &&& b.upstream_link_generation <= i64::MAX
    &&& b.archive_acl_pages_processed <= i64::MAX
}

/// Archiving, archived and deleted bindings no longer provision nor sync.
pub open spec fn is_terminal(state: GroupLifecycleState) -> bool {
    state == GroupLifecycleState::Archiving || state == GroupLifecycleState::Archived || state
        == GroupLifecycleState::Deleted
}

/// Whether a lifecycle state is archiving, archived or deleted.
pub fn lifecycle_is_terminal(state: GroupLifecycleState) -> (result: bool)
    ensures
        result == is_terminal(state),
        result <==> (state == GroupLifecycleState::Archiving || state == GroupLifecycleState::Archived
            || state == GroupLifecycleState::Deleted),
{
    match state {
        GroupLifecycleState::Archiving | GroupLifecycleState::Archived
        | GroupLifecycleState::Deleted => true,
        _ => false,
    }
}

/// The target names exactly this binding and its space.
pub open spec fn target_matches(b: GroupBindingView, t: GroupTarget) -> bool {
    &&& b.id == t.knowledgebase_binding_id
    &&& b.uuid == t.knowledgebase_binding_uuid@
    &&& b.space_id == Some(t.knowledge_space_id)
    &&& b.space_uuid == Some(t.knowledge_space_uuid@)
}

/// Rejects a command whose target is not the immutable fence of the binding.
pub fn ensure_target_matches_binding(binding: &GroupBinding, target: &GroupTarget) -> (result:
    Result<(), StoreError>)
    ensures
        result is Ok <==> target_matches(binding@, *target),
        result matches Err(e) ==> e.is_conflict(),
        binding@.id != target.knowledgebase_binding_id ==> result is Err,
        binding@.space_id != Some(target.knowledge_space_id) ==> result is Err,
        binding@.uuid != target.knowledgebase_binding_uuid@ ==> result is Err,
        binding@.space_uuid != Some(target.knowledge_space_uuid@) ==> result is Err,
{
    let matches = binding.id == target.knowledgebase_binding_id && str_eq(
        binding.uuid.as_str(),
        target.knowledgebase_binding_uuid.as_str(),
    ) && binding.space_id == Some(target.knowledge_space_id) && opt_eq_str(
        &binding.space_uuid,
        target.knowledge_space_uuid.as_str(),
    );
    if !matches {
        return Err(StoreError::Conflict("group knowledge space target does not match the immutable binding fence".to_string()));
    }
    Ok(())
}

/// The archive command that an archiving binding was started with.
pub open spec fn archive_command_of(b: GroupBindingView, c: ArchiveGroupSpaceCommand) -> bool {
    &&& c.scope == b.scope
    &&& c.conversation_id@ == b.conversation_id
    &&& b.archive_source_event_id == Some(c.source_event_id@)
    &&& c.target.knowledgebase_binding_id == b.id
    &&& c.target.knowledgebase_binding_uuid@ == b.uuid
    &&& b.space_id == Some(c.target.knowledge_space_id)
    &&& b.space_uuid == Some(c.target.knowledge_space_uuid@)
    &&& c.membership_epoch == b.membership_epoch
    &&& c.upstream_link_generation == b.upstream_link_generation
    &&& b.archived_by == Some(c.archived_by@)
}

/// Rebuilds the archive command of an archiving binding so that an
/// interrupted archive can resume.
pub fn archive_command_from_binding(binding: GroupBinding) -> (result: Result<
    ArchiveGroupSpaceCommand,
    StoreError,
>)
    ensures
        (binding@.archive_source_event_id is None || binding@.space_id is None
            || binding@.space_uuid is None || binding@.archived_by is None) ==> (result matches Err(
            e,
        ) && e.is_internal()),
        result matches Ok(c) ==> archive_command_of(binding@, c) && archive_command_ok(c),
        (binding@.archive_source_event_id is Some && binding@.space_id is Some
            && binding@.space_uuid is Some && binding@.archived_by is Some) ==> (result is Ok
            <==> (forall|c: ArchiveGroupSpaceCommand|
            archive_command_of(binding@, c) ==> archive_command_ok(c))),
        result matches Err(e) ==> e.is_internal() || e.is_invalid_request(),
{
    let ghost b = binding@;
    let source_event_id = match binding.archive_source_event_id {
        Some(v) => v,
        None => {
            return Err(StoreError::Internal("archiving group binding has no source event id".to_string()));
        },
    };
    let knowledge_space_id = match binding.space_id {
        Some(v) => v,
        None => {
            return Err(StoreError::Internal("archiving group binding has no knowledge space id".to_string()));
        },
    };
    let knowledge_space_uuid = match binding.space_uuid {
        Some(v) => v,
        None => {
            return Err(StoreError::Internal("archiving group binding has no knowledge space UUID".to_string()));
        },
    };
    let archived_by = match binding.archived_by {
        Some(v) => v,
        None => {
            return Err(StoreError::Internal("archiving group binding has no audit actor".to_string()));
        },
    };
    let command = ArchiveGroupSpaceCommand {
        scope: binding.scope,
        conversation_id: binding.conversation_id,
        source_event_id,
        target: GroupTarget {
            knowledgebase_binding_id: binding.id,
            knowledgebase_binding_uuid: binding.uuid,
            knowledge_space_id,
            knowledge_space_uuid,
        },
        membership_epoch: binding.membership_epoch,
        upstream_link_generation: binding.upstream_link_generation,
        archived_by,
    };
    assert(archive_command_of(b, command));
    proof {
        assert forall|c: ArchiveGroupSpaceCommand| archive_command_of(b, c) implies archive_command_ok(
            c,
        ) == archive_command_ok(command) by {
            assert(c.target.knowledgebase_binding_uuid@ == command.target.knowledgebase_binding_uuid@);
        }
    }
    validate_archive_command(&command)?;
    Ok(command)
}

/// A row of the group event inbox: the binding it touched and the payload
/// fingerprint it was applied with.
#[derive(Debug, Clone)]
pub struct GroupInboxRecord {
    pub binding_id: Option<u64>,
    pub payload_sha256_hex: String,
}

/// The kind of group event an inbox row records.
#[derive(Debug, Clone, Copy, PartialEq, Eq, Structural)]
pub enum GroupInboxEventKind {
    /// An ensure (reservation) request.
    Ensure,
    /// A membership synchronization.
    Membership,
    /// An archive command.
    Archive,
}

/// The message of an inbox row that names no binding.
pub open spec fn missing_binding_message(kind: GroupInboxEventKind) -> Seq<char> {
    match kind {
        GroupInboxEventKind::Ensure => "group knowledge space inbox event has no binding id"@,
        GroupInboxEventKind::Membership => "membership inbox event has no binding"@,
        GroupInboxEventKind::Archive => "archive inbox event has no binding"@,
    }
}

/// A redelivered event must carry the fingerprint it was first applied with,
/// and its inbox row must name the binding it touched.
pub fn check_inbox_replay(record: &GroupInboxRecord, fingerprint: &str, kind: GroupInboxEventKind) -> (result: Result<
    u64,
    StoreError,
>)
    ensures
        record.payload_sha256_hex@ != fingerprint@ ==> (result matches Err(StoreError::Conflict(m))
            && m@ == "source_event_id was already applied with a different payload"@),
        record.payload_sha256_hex@ == fingerprint@ && record.binding_id is None ==> (result matches Err(
            StoreError::Internal(m),
        ) && m@ == missing_binding_message(kind)),
        record.payload_sha256_hex@ == fingerprint@ && record.binding_id is Some ==> result
            == Ok::<u64, StoreError>(record.binding_id.unwrap()),
{
    if !str_eq(record.payload_sha256_hex.as_str(), fingerprint) {
        return Err(StoreError::Conflict("source_event_id was already applied with a different payload".to_string()));
    }
    match record.binding_id {
        Some(id) => Ok(id),
        None => {
            let message = match kind {
                GroupInboxEventKind::Ensure => "group knowledge space inbox event has no binding id",
                GroupInboxEventKind::Membership => "membership inbox event has no binding",
                GroupInboxEventKind::Archive => "archive inbox event has no binding",
            };
            Err(StoreError::Internal(message.to_string()))
        },
    }
}

} // verus!
