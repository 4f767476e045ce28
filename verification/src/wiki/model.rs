use vstd::prelude::*;
use crate::error::StoreError;
use crate::text::{opt_view, str_eq};

verus! {

/// Tenant and organization that own Wiki persistence rows.
#[derive(Debug, Clone, Copy, PartialEq, Eq, Structural)]
pub struct WikiPersistenceScope {
    pub tenant_id: u64,
    pub organization_id: u64,
}

/// Lifecycle status of a Wiki publication.
#[derive(Debug, Clone, Copy, PartialEq, Eq, Structural)]
pub enum WikiPublicationStatus {
    Validating,
    Ready,
    Active,
    Paused,
    Degraded,
}

impl WikiPublicationStatus {
    /// The text that stands for the kind in the database.
    pub open spec fn spec_code(self) -> Seq<char> {
        match self {
            WikiPublicationStatus::Validating => seq!['V', 'A', 'L', 'I', 'D', 'A', 'T', 'I', 'N', 'G'],
            WikiPublicationStatus::Ready => seq!['R', 'E', 'A', 'D', 'Y'],
            WikiPublicationStatus::Active => seq!['A', 'C', 'T', 'I', 'V', 'E'],
            WikiPublicationStatus::Paused => seq!['P', 'A', 'U', 'S', 'E', 'D'],
            WikiPublicationStatus::Degraded => seq!['D', 'E', 'G', 'R', 'A', 'D', 'E', 'D'],
        }
    }

    /// The database text of the kind.
    pub fn as_str(self) -> (code: &'static str)
        ensures
            code@ == self.spec_code(),
    {
        match self {
            WikiPublicationStatus::Validating => {
                proof {
                    reveal_strlit("VALIDATING");
                }
                assert("VALIDATING"@ =~= self.spec_code());
                "VALIDATING"
            },
            WikiPublicationStatus::Ready => {
                proof {
                    reveal_strlit("READY");
                }
                assert("READY"@ =~= self.spec_code());
                "READY"
            },
            WikiPublicationStatus::Active => {
                proof {
                    reveal_strlit("ACTIVE");
                }
                assert("ACTIVE"@ =~= self.spec_code());
                "ACTIVE"
            },
            WikiPublicationStatus::Paused => {
                proof {
                    reveal_strlit("PAUSED");
                }
                assert("PAUSED"@ =~= self.spec_code());
                "PAUSED"
            },
            WikiPublicationStatus::Degraded => {
                proof {
                    reveal_strlit("DEGRADED");
                }
                assert("DEGRADED"@ =~= self.spec_code());
                "DEGRADED"
            },
        }
    }
}

/// Reads a WikiPublicationStatus back from its database text; any other text is an
/// internal error (the database holds a value the domain does not know).
pub fn publication_status_from_str(value: &str) -> (result: Result<WikiPublicationStatus, StoreError>)
    ensures
        match result {
            Ok(kind) => kind.spec_code() == value@,
            Err(e) => e.is_internal() && forall|kind: WikiPublicationStatus| kind.spec_code() != value@,
        },
        forall|kind: WikiPublicationStatus| kind.spec_code() == value@ ==> result == Ok::<WikiPublicationStatus, StoreError>(kind),
{
    proof {
        reveal_strlit("VALIDATING");
    }
    if str_eq(value, "VALIDATING") {
        assert(value@ =~= WikiPublicationStatus::Validating.spec_code());
        return Ok(WikiPublicationStatus::Validating);
    }
    proof {
        reveal_strlit("READY");
    }
    if str_eq(value, "READY") {
        assert(value@ =~= WikiPublicationStatus::Ready.spec_code());
        return Ok(WikiPublicationStatus::Ready);
    }
    proof {
        reveal_strlit("ACTIVE");
    }
    if str_eq(value, "ACTIVE") {
        assert(value@ =~= WikiPublicationStatus::Active.spec_code());
        return Ok(WikiPublicationStatus::Active);
    }
    proof {
        reveal_strlit("PAUSED");
    }
    if str_eq(value, "PAUSED") {
        assert(value@ =~= WikiPublicationStatus::Paused.spec_code());
        return Ok(WikiPublicationStatus::Paused);
    }
    proof {
        reveal_strlit("DEGRADED");
    }
    if str_eq(value, "DEGRADED") {
        assert(value@ =~= WikiPublicationStatus::Degraded.spec_code());
        return Ok(WikiPublicationStatus::Degraded);
    }
    proof {
        assert forall|kind: WikiPublicationStatus| kind.spec_code() != value@ by {
            match kind {
                WikiPublicationStatus::Validating => {
                    assert("VALIDATING"@ =~= kind.spec_code());
                },
                WikiPublicationStatus::Ready => {
                    assert("READY"@ =~= kind.spec_code());
                },
                WikiPublicationStatus::Active => {
                    assert("ACTIVE"@ =~= kind.spec_code());
                },
                WikiPublicationStatus::Paused => {
                    assert("PAUSED"@ =~= kind.spec_code());
                },
                WikiPublicationStatus::Degraded => {
                    assert("DEGRADED"@ =~= kind.spec_code());
                },
            }
        }
    }
    Err(StoreError::Internal(crate::text::message_with("database returned unsupported wiki_status value ", value)))
}

/// Who can reach a published Wiki page.
#[derive(Debug, Clone, Copy, PartialEq, Eq, Structural)]
pub enum WikiVisibility {
    Public,
    Unlisted,
    Private,
}

impl WikiVisibility {
    /// The text that stands for the kind in the database.
    pub open spec fn spec_code(self) -> Seq<char> {
        match self {
            WikiVisibility::Public => seq!['P', 'U', 'B', 'L', 'I', 'C'],
            WikiVisibility::Unlisted => seq!['U', 'N', 'L', 'I', 'S', 'T', 'E', 'D'],
            WikiVisibility::Private => seq!['P', 'R', 'I', 'V', 'A', 'T', 'E'],
        }
    }

    /// The database text of the kind.
    pub fn as_str(self) -> (code: &'static str)
        ensures
            code@ == self.spec_code(),
    {
        match self {
            WikiVisibility::Public => {
                proof {
                    reveal_strlit("PUBLIC");
                }
                assert("PUBLIC"@ =~= self.spec_code());
                "PUBLIC"
            },
            WikiVisibility::Unlisted => {
                proof {
                    reveal_strlit("UNLISTED");
                }
                assert("UNLISTED"@ =~= self.spec_code());
                "UNLISTED"
            },
            WikiVisibility::Private => {
                proof {
                    reveal_strlit("PRIVATE");
                }
                assert("PRIVATE"@ =~= self.spec_code());
                "PRIVATE"
            },
        }
    }
}

/// Reads a WikiVisibility back from its database text in column `field`; any
/// other text is an internal error (the database holds a value the domain
/// does not know).
pub fn visibility_from_str(field: &str, value: &str) -> (result: Result<WikiVisibility, StoreError>)
    ensures
        match result {
            Ok(kind) => kind.spec_code() == value@,
            Err(e) => e.is_internal() && forall|kind: WikiVisibility| kind.spec_code() != value@,
        },
        forall|kind: WikiVisibility| kind.spec_code() == value@ ==> result == Ok::<WikiVisibility, StoreError>(kind),
{
    proof {
        reveal_strlit("PUBLIC");
    }
    if str_eq(value, "PUBLIC") {
        assert(value@ =~= WikiVisibility::Public.spec_code());
        return Ok(WikiVisibility::Public);
    }
    proof {
        reveal_strlit("UNLISTED");
    }
    if str_eq(value, "UNLISTED") {
        assert(value@ =~= WikiVisibility::Unlisted.spec_code());
        return Ok(WikiVisibility::Unlisted);
    }
    proof {
        reveal_strlit("PRIVATE");
    }
    if str_eq(value, "PRIVATE") {
        assert(value@ =~= WikiVisibility::Private.spec_code());
        return Ok(WikiVisibility::Private);
    }
    proof {
        assert forall|kind: WikiVisibility| kind.spec_code() != value@ by {
            match kind {
                WikiVisibility::Public => {
                    assert("PUBLIC"@ =~= kind.spec_code());
                },
                WikiVisibility::Unlisted => {
                    assert("UNLISTED"@ =~= kind.spec_code());
                },
                WikiVisibility::Private => {
                    assert("PRIVATE"@ =~= kind.spec_code());
                },
            }
        }
    }
    {
        let mut message = "database returned unsupported ".to_string();
        message.append(field);
        message.append(" value ");
        message.append(value);
        Err(StoreError::Internal(message))
    }
}

/// Whether a Wiki page is served publicly.
#[derive(Debug, Clone, Copy, PartialEq, Eq, Structural)]
pub enum WikiPagePublicationState {
    Unpublished,
    Published,
    Archived,
}

impl WikiPagePublicationState {
    /// The text that stands for the kind in the database.
    pub open spec fn spec_code(self) -> Seq<char> {
        match self {
            WikiPagePublicationState::Unpublished => seq!['U', 'N', 'P', 'U', 'B', 'L', 'I', 'S', 'H', 'E', 'D'],
            WikiPagePublicationState::Published => seq!['P', 'U', 'B', 'L', 'I', 'S', 'H', 'E', 'D'],
            WikiPagePublicationState::Archived => seq!['A', 'R', 'C', 'H', 'I', 'V', 'E', 'D'],
        }
    }

    /// The database text of the kind.
    pub fn as_str(self) -> (code: &'static str)
        ensures
            code@ == self.spec_code(),
    {
        match self {
            WikiPagePublicationState::Unpublished => {
                proof {
                    reveal_strlit("UNPUBLISHED");
                }
                assert("UNPUBLISHED"@ =~= self.spec_code());
                "UNPUBLISHED"
            },
            WikiPagePublicationState::Published => {
                proof {
                    reveal_strlit("PUBLISHED");
                }
                assert("PUBLISHED"@ =~= self.spec_code());
                "PUBLISHED"
            },
            WikiPagePublicationState::Archived => {
                proof {
                    reveal_strlit("ARCHIVED");
                }
                assert("ARCHIVED"@ =~= self.spec_code());
                "ARCHIVED"
            },
        }
    }
}

/// Reads a WikiPagePublicationState back from its database text; any other text is an
/// internal error (the database holds a value the domain does not know).
pub fn page_publication_state_from_str(value: &str) -> (result: Result<WikiPagePublicationState, StoreError>)
    ensures
        match result {
            Ok(kind) => kind.spec_code() == value@,
            Err(e) => e.is_internal() && forall|kind: WikiPagePublicationState| kind.spec_code() != value@,
        },
        forall|kind: WikiPagePublicationState| kind.spec_code() == value@ ==> result == Ok::<WikiPagePublicationState, StoreError>(kind),
{
    proof {
        reveal_strlit("UNPUBLISHED");
    }
    if str_eq(value, "UNPUBLISHED") {
        assert(value@ =~= WikiPagePublicationState::Unpublished.spec_code());
        return Ok(WikiPagePublicationState::Unpublished);
    }
    proof {
        reveal_strlit("PUBLISHED");
    }
    if str_eq(value, "PUBLISHED") {
        assert(value@ =~= WikiPagePublicationState::Published.spec_code());
        return Ok(WikiPagePublicationState::Published);
    }
    proof {
        reveal_strlit("ARCHIVED");
    }
    if str_eq(value, "ARCHIVED") {
        assert(value@ =~= WikiPagePublicationState::Archived.spec_code());
        return Ok(WikiPagePublicationState::Archived);
    }
    proof {
        assert forall|kind: WikiPagePublicationState| kind.spec_code() != value@ by {
            match kind {
                WikiPagePublicationState::Unpublished => {
                    assert("UNPUBLISHED"@ =~= kind.spec_code());
                },
                WikiPagePublicationState::Published => {
                    assert("PUBLISHED"@ =~= kind.spec_code());
                },
                WikiPagePublicationState::Archived => {
                    assert("ARCHIVED"@ =~= kind.spec_code());
                },
            }
        }
    }
    Err(StoreError::Internal(crate::text::message_with("database returned unsupported publication_state value ", value)))
}

/// Processing state of a Drive source file.
#[derive(Debug, Clone, Copy, PartialEq, Eq, Structural)]
pub enum WikiSourceState {
    Discovered,
    Queued,
    Processing,
    Ready,
    Error,
    Quarantined,
    Deleted,
}

impl WikiSourceState {
    /// The text that stands for the kind in the database.
    pub open spec fn spec_code(self) -> Seq<char> {
        match self {
            WikiSourceState::Discovered => seq!['D', 'I', 'S', 'C', 'O', 'V', 'E', 'R', 'E', 'D'],
            WikiSourceState::Queued => seq!['Q', 'U', 'E', 'U', 'E', 'D'],
            WikiSourceState::Processing => seq!['P', 'R', 'O', 'C', 'E', 'S', 'S', 'I', 'N', 'G'],
            WikiSourceState::Ready => seq!['R', 'E', 'A', 'D', 'Y'],
            WikiSourceState::Error => seq!['E', 'R', 'R', 'O', 'R'],
            WikiSourceState::Quarantined => seq!['Q', 'U', 'A', 'R', 'A', 'N', 'T', 'I', 'N', 'E', 'D'],
            WikiSourceState::Deleted => seq!['D', 'E', 'L', 'E', 'T', 'E', 'D'],
        }
    }

    /// The database text of the kind.
    pub fn as_str(self) -> (code: &'static str)
        ensures
            code@ == self.spec_code(),
    {
        match self {
            WikiSourceState::Discovered => {
                proof {
                    reveal_strlit("DISCOVERED");
                }
                assert("DISCOVERED"@ =~= self.spec_code());
                "DISCOVERED"
            },
            WikiSourceState::Queued => {
                proof {
                    reveal_strlit("QUEUED");
                }
                assert("QUEUED"@ =~= self.spec_code());
                "QUEUED"
            },
            WikiSourceState::Processing => {
                proof {
                    reveal_strlit("PROCESSING");
                }
                assert("PROCESSING"@ =~= self.spec_code());
                "PROCESSING"
            },
            WikiSourceState::Ready => {
                proof {
                    reveal_strlit("READY");
                }
                assert("READY"@ =~= self.spec_code());
                "READY"
            },
            WikiSourceState::Error => {
                proof {
                    reveal_strlit("ERROR");
                }
                assert("ERROR"@ =~= self.spec_code());
                "ERROR"
            },
            WikiSourceState::Quarantined => {
                proof {
                    reveal_strlit("QUARANTINED");
                }
                assert("QUARANTINED"@ =~= self.spec_code());
                "QUARANTINED"
            },
            WikiSourceState::Deleted => {
                proof {
                    reveal_strlit("DELETED");
                }
                assert("DELETED"@ =~= self.spec_code());
                "DELETED"
            },
        }
    }
}

/// Reads a WikiSourceState back from its database text; any other text is an
/// internal error (the database holds a value the domain does not know).
pub fn source_state_from_str(value: &str) -> (result: Result<WikiSourceState, StoreError>)
    ensures
        match result {
            Ok(kind) => kind.spec_code() == value@,
            Err(e) => e.is_internal() && forall|kind: WikiSourceState| kind.spec_code() != value@,
        },
        forall|kind: WikiSourceState| kind.spec_code() == value@ ==> result == Ok::<WikiSourceState, StoreError>(kind),
{
    proof {
        reveal_strlit("DISCOVERED");
    }
    if str_eq(value, "DISCOVERED") {
        assert(value@ =~= WikiSourceState::Discovered.spec_code());
        return Ok(WikiSourceState::Discovered);
    }
    proof {
        reveal_strlit("QUEUED");
    }
    if str_eq(value, "QUEUED") {
        assert(value@ =~= WikiSourceState::Queued.spec_code());
        return Ok(WikiSourceState::Queued);
    }
    proof {
        reveal_strlit("PROCESSING");
    }
    if str_eq(value, "PROCESSING") {
        assert(value@ =~= WikiSourceState::Processing.spec_code());
        return Ok(WikiSourceState::Processing);
    }
    proof {
        reveal_strlit("READY");
    }
    if str_eq(value, "READY") {
        assert(value@ =~= WikiSourceState::Ready.spec_code());
        return Ok(WikiSourceState::Ready);
    }
    proof {
        reveal_strlit("ERROR");
    }
    if str_eq(value, "ERROR") {
        assert(value@ =~= WikiSourceState::Error.spec_code());
        return Ok(WikiSourceState::Error);
    }
    proof {
        reveal_strlit("QUARANTINED");
    }
    if str_eq(value, "QUARANTINED") {
        assert(value@ =~= WikiSourceState::Quarantined.spec_code());
        return Ok(WikiSourceState::Quarantined);
    }
    proof {
        reveal_strlit("DELETED");
    }
    if str_eq(value, "DELETED") {
        assert(value@ =~= WikiSourceState::Deleted.spec_code());
        return Ok(WikiSourceState::Deleted);
    }
    proof {
        assert forall|kind: WikiSourceState| kind.spec_code() != value@ by {
            match kind {
                WikiSourceState::Discovered => {
                    assert("DISCOVERED"@ =~= kind.spec_code());
                },
                WikiSourceState::Queued => {
                    assert("QUEUED"@ =~= kind.spec_code());
                },
                WikiSourceState::Processing => {
                    assert("PROCESSING"@ =~= kind.spec_code());
                },
                WikiSourceState::Ready => {
                    assert("READY"@ =~= kind.spec_code());
                },
                WikiSourceState::Error => {
                    assert("ERROR"@ =~= kind.spec_code());
                },
                WikiSourceState::Quarantined => {
                    assert("QUARANTINED"@ =~= kind.spec_code());
                },
                WikiSourceState::Deleted => {
                    assert("DELETED"@ =~= kind.spec_code());
                },
            }
        }
    }
    Err(StoreError::Internal(crate::text::message_with("database returned unsupported source_state value ", value)))
}

/// State of the search index projection of a page.
#[derive(Debug, Clone, Copy, PartialEq, Eq, Structural)]
pub enum WikiIndexState {
    Pending,
    NotRequired,
    Ready,
    Error,
}

impl WikiIndexState {
    /// The text that stands for the kind in the database.
    pub open spec fn spec_code(self) -> Seq<char> {
        match self {
            WikiIndexState::Pending => seq!['P', 'E', 'N', 'D', 'I', 'N', 'G'],
            WikiIndexState::NotRequired => seq!['N', 'O', 'T', '_', 'R', 'E', 'Q', 'U', 'I', 'R', 'E', 'D'],
            WikiIndexState::Ready => seq!['R', 'E', 'A', 'D', 'Y'],
            WikiIndexState::Error => seq!['E', 'R', 'R', 'O', 'R'],
        }
    }

    /// The database text of the kind.
    pub fn as_str(self) -> (code: &'static str)
        ensures
            code@ == self.spec_code(),
    {
        match self {
            WikiIndexState::Pending => {
                proof {
                    reveal_strlit("PENDING");
                }
                assert("PENDING"@ =~= self.spec_code());
                "PENDING"
            },
            WikiIndexState::NotRequired => {
                proof {
                    reveal_strlit("NOT_REQUIRED");
                }
                assert("NOT_REQUIRED"@ =~= self.spec_code());
                "NOT_REQUIRED"
            },
            WikiIndexState::Ready => {
                proof {
                    reveal_strlit("READY");
                }
                assert("READY"@ =~= self.spec_code());
                "READY"
            },
            WikiIndexState::Error => {
                proof {
                    reveal_strlit("ERROR");
                }
                assert("ERROR"@ =~= self.spec_code());
                "ERROR"
            },
        }
    }
}

/// Reads a WikiIndexState back from its database text; any other text is an
/// internal error (the database holds a value the domain does not know).
pub fn index_state_from_str(value: &str) -> (result: Result<WikiIndexState, StoreError>)
    ensures
        match result {
            Ok(kind) => kind.spec_code() == value@,
            Err(e) => e.is_internal() && forall|kind: WikiIndexState| kind.spec_code() != value@,
        },
        forall|kind: WikiIndexState| kind.spec_code() == value@ ==> result == Ok::<WikiIndexState, StoreError>(kind),
{
    proof {
        reveal_strlit("PENDING");
    }
    if str_eq(value, "PENDING") {
        assert(value@ =~= WikiIndexState::Pending.spec_code());
        return Ok(WikiIndexState::Pending);
    }
    proof {
        reveal_strlit("NOT_REQUIRED");
    }
    if str_eq(value, "NOT_REQUIRED") {
        assert(value@ =~= WikiIndexState::NotRequired.spec_code());
        return Ok(WikiIndexState::NotRequired);
    }
    proof {
        reveal_strlit("READY");
    }
    if str_eq(value, "READY") {
        assert(value@ =~= WikiIndexState::Ready.spec_code());
        return Ok(WikiIndexState::Ready);
    }
    proof {
        reveal_strlit("ERROR");
    }
    if str_eq(value, "ERROR") {
        assert(value@ =~= WikiIndexState::Error.spec_code());
        return Ok(WikiIndexState::Error);
    }
    proof {
        assert forall|kind: WikiIndexState| kind.spec_code() != value@ by {
            match kind {
                WikiIndexState::Pending => {
                    assert("PENDING"@ =~= kind.spec_code());
                },
                WikiIndexState::NotRequired => {
                    assert("NOT_REQUIRED"@ =~= kind.spec_code());
                },
                WikiIndexState::Ready => {
                    assert("READY"@ =~= kind.spec_code());
                },
                WikiIndexState::Error => {
                    assert("ERROR"@ =~= kind.spec_code());
                },
            }
        }
    }
    Err(StoreError::Internal(crate::text::message_with("database returned unsupported index_state value ", value)))
}

/// The file kind text of a Wiki page source (`PAGE`).
pub open spec fn page_kind() -> Seq<char> {
    seq!['P', 'A', 'G', 'E']
}

/// Index state a freshly (re)discovered source starts in: pages wait for
/// indexing, every other file kind needs none.
pub open spec fn initial_index_state(file_kind: Seq<char>) -> WikiIndexState {
    if file_kind == page_kind() {
        WikiIndexState::Pending
    } else {
        WikiIndexState::NotRequired
    }
}

/// Computes the initial index state of a file kind.
pub fn index_state_for_kind(file_kind: &str) -> (result: WikiIndexState)
    ensures
        result == initial_index_state(file_kind@),
        file_kind@ == seq!['P', 'A', 'G', 'E'] ==> result == WikiIndexState::Pending,
        file_kind@ != seq!['P', 'A', 'G', 'E'] ==> result == WikiIndexState::NotRequired,
{
    proof {
        reveal_strlit("PAGE");
    }
    assert("PAGE"@ =~= page_kind());
    if str_eq(file_kind, "PAGE") {
        WikiIndexState::Pending
    } else {
        WikiIndexState::NotRequired
    }
}

/// A Wiki publication (`kb_site_publication`), restricted to what the
/// lifecycle decisions read and write.
#[derive(Debug, Clone)]
pub struct WikiPublication {
    pub id: u64,
    pub uuid: String,
    pub scope: WikiPersistenceScope,
    pub space_id: u64,
    pub drive_space_uuid: String,
    pub source_root_node_uuid: Option<String>,
    pub source_scope_uuid: Option<String>,
    pub wiki_status: WikiPublicationStatus,
    pub default_visibility: WikiVisibility,
    /// The update policy is `UNPUBLISH_DURING_PROCESSING`.
    pub unpublish_during_processing: bool,
    pub provider_generation: u64,
    pub navigation_generation: u64,
    pub search_generation: u64,
    pub last_projected_drive_checkpoint: u64,
    pub version: u64,
}

/// The update policy under which served pages go offline while a new
/// version of their file is processed.
pub open spec fn unpublish_policy() -> Seq<char> {
    seq![
        'U', 'N', 'P', 'U', 'B', 'L', 'I', 'S', 'H', '_', 'D', 'U', 'R', 'I', 'N', 'G', '_', 'P',
        'R', 'O', 'C', 'E', 'S', 'S', 'I', 'N', 'G',
    ]
}

/// Whether a publication's update policy takes served pages offline while
/// their new version is processed.
pub fn unpublishes_during_processing(update_policy: &str) -> (result: bool)
    ensures
        result == (update_policy@ == unpublish_policy()),
{
    proof {
        reveal_strlit("UNPUBLISH_DURING_PROCESSING");
    }
    assert("UNPUBLISH_DURING_PROCESSING"@ =~= unpublish_policy());
    str_eq(update_policy, "UNPUBLISH_DURING_PROCESSING")
}

/// A Drive source file projected into a Wiki publication
/// (`kb_source_file_projection`).
#[derive(Debug, Clone)]
pub struct WikiSourceProjection {
    pub id: u64,
    pub uuid: String,
    pub scope: WikiPersistenceScope,
    pub site_publication_id: u64,
    pub space_id: u64,
    pub drive_space_uuid: String,
    pub drive_node_uuid: String,
    pub drive_version_uuid: String,
    pub source_path: String,
    pub canonical_route: Option<String>,
    pub previous_canonical_route: Option<String>,
    pub file_kind: String,
    pub media_type: String,
    pub size_bytes: u64,
    pub content_sha256: String,
    pub source_state: WikiSourceState,
    pub publication_state: WikiPagePublicationState,
    pub visibility: WikiVisibility,
    pub index_state: WikiIndexState,
    pub public_drive_version_uuid: Option<String>,
    pub page_public_version: u64,
    pub source_sequence_no: u64,
    pub last_source_event_id: Option<String>,
    pub processing_attempt_count: u32,
    pub processing_lease_token: Option<String>,
    pub processing_fence: u64,
    pub last_error_code: Option<String>,
    pub version: u64,
}

/// The public Drive version of a page is pinned to its current Drive version.
pub open spec fn pins_current_version(page: WikiSourceProjection) -> bool {
    opt_view(page.public_drive_version_uuid) == Some(page.drive_version_uuid@)
}

/// Tenant zero is never a valid owner.
pub fn validate_scope(scope: WikiPersistenceScope) -> (result: Result<(), StoreError>)
    ensures
        scope.tenant_id == 0 ==> (result matches Err(e) && e.is_invalid_request()),
        scope.tenant_id != 0 ==> result is Ok,
{
    if scope.tenant_id == 0 {
        return Err(StoreError::InvalidRequest("tenant_id must be greater than zero".to_string()));
    }
    Ok(())
}

/// The message of an identifier that does not fit a signed Wiki column.
pub open spec fn exceeds_int64_message(field: Seq<char>) -> Seq<char> {
    field + " exceeds signed int64"@
}

/// The message of a negative number read back from a Wiki table.
pub open spec fn negative_column_message(field: Seq<char>) -> Seq<char> {
    "database returned negative "@ + field
}

/// The message of an identifier that must be positive.
pub open spec fn not_positive_message(field: Seq<char>) -> Seq<char> {
    field + " must be greater than zero"@
}

/// Converts an unsigned number to a signed BIGINT Wiki column; fails with
/// `InvalidRequest("<field> exceeds signed int64")` exactly when it does not
/// fit.
pub fn to_i64(field: &str, value: u64) -> (result: Result<i64, StoreError>)
    ensures
        value <= i64::MAX ==> result == Ok::<i64, StoreError>(value as i64),
        value > i64::MAX ==> (result matches Err(StoreError::InvalidRequest(m)) && m@
            == exceeds_int64_message(field@)),
{
    if value <= 9_223_372_036_854_775_807u64 {
        Ok(value as i64)
    } else {
        let mut message = field.to_string();
        message.append(" exceeds signed int64");
        Err(StoreError::InvalidRequest(message))
    }
}

/// Reads a signed BIGINT Wiki column back; fails with
/// `Internal("database returned negative <field>")` exactly when the value is
/// negative.
pub fn from_i64(field: &str, value: i64) -> (result: Result<u64, StoreError>)
    ensures
        value >= 0 ==> result == Ok::<u64, StoreError>(value as u64),
        value < 0 ==> (result matches Err(StoreError::Internal(m)) && m@ == negative_column_message(
            field@,
        )),
{
    if value >= 0 {
        Ok(value as u64)
    } else {
        let mut message = "database returned negative ".to_string();
        message.append(field);
        Err(StoreError::Internal(message))
    }
}

/// Reads a signed INTEGER Wiki column back; fails like `from_i64` on a
/// negative value.
pub fn from_i32(field: &str, value: i32) -> (result: Result<u32, StoreError>)
    ensures
        value >= 0 ==> result == Ok::<u32, StoreError>(value as u32),
        value < 0 ==> (result matches Err(StoreError::Internal(m)) && m@ == negative_column_message(
            field@,
        )),
{
    if value >= 0 {
        Ok(value as u32)
    } else {
        let mut message = "database returned negative ".to_string();
        message.append(field);
        Err(StoreError::Internal(message))
    }
}

/// Requires a positive identifier that fits the signed column type:
/// `InvalidRequest("<field> must be greater than zero")` for zero, and the
/// error of `to_i64` when it does not fit.
pub fn require_id(field: &str, value: u64) -> (result: Result<i64, StoreError>)
    ensures
        0 < value <= i64::MAX ==> result == Ok::<i64, StoreError>(value as i64),
        value == 0 ==> (result matches Err(StoreError::InvalidRequest(m)) && m@ == not_positive_message(
            field@,
        )),
        value > i64::MAX ==> (result matches Err(StoreError::InvalidRequest(m)) && m@
            == exceeds_int64_message(field@)),
{
    if value == 0 {
        let mut message = field.to_string();
        message.append(" must be greater than zero");
        return Err(StoreError::InvalidRequest(message));
    }
    to_i64(field, value)
}

/// Optimistic concurrency check of a row version.
pub fn ensure_expected_version(resource: &str, id: u64, actual: u64, expected: u64) -> (result:
    Result<(), StoreError>)
    ensures
        actual == expected ==> result is Ok,
        actual != expected ==> (result matches Err(e) && e is StaleVersion),
{
    if actual != expected {
        return Err(StoreError::StaleVersion { resource: resource.to_string(), id, expected });
    }
    Ok(())
}

} // verus!
