use vstd::prelude::*;
use crate::error::StoreError;
use crate::text::str_eq;

verus! {

/// Lifecycle status of a knowledge space.
#[derive(Debug, Clone, Copy, PartialEq, Eq, Structural)]
pub enum KnowledgeSpaceStatus {
    Provisioning,
    Active,
    Archived,
    Deleted,
}

impl KnowledgeSpaceStatus {
    /// The number that stands for the kind in the database.
    pub open spec fn spec_code(self) -> i64 {
        match self {
            KnowledgeSpaceStatus::Provisioning => 0,
            KnowledgeSpaceStatus::Active => 1,
            KnowledgeSpaceStatus::Archived => 2,
            KnowledgeSpaceStatus::Deleted => 3,
        }
    }
}

/// The database number of a KnowledgeSpaceStatus.
pub fn space_status_code(value: KnowledgeSpaceStatus) -> (code: i64)
    ensures
        code == value.spec_code(),
{
    match value {
        KnowledgeSpaceStatus::Provisioning => 0,
        KnowledgeSpaceStatus::Active => 1,
        KnowledgeSpaceStatus::Archived => 2,
        KnowledgeSpaceStatus::Deleted => 3,
    }
}

/// Reads a KnowledgeSpaceStatus back from its database number as the space store keeps it (active, archived or deleted); any other
/// number is an internal error.
pub fn space_status_from_code(value: i64) -> (result: Result<KnowledgeSpaceStatus, StoreError>)
    ensures
        match result {
            Ok(kind) => kind.spec_code() == value && (value == 1 || value == 2 || value == 3),
            Err(e) => e.is_internal() && !(value == 1 || value == 2 || value == 3),
        },
        forall|kind: KnowledgeSpaceStatus| kind.spec_code() == value && (value == 1 || value == 2 || value == 3) ==> result == Ok::<KnowledgeSpaceStatus, StoreError>(kind),
{
    match value {
        1 => Ok(KnowledgeSpaceStatus::Active),
        2 => Ok(KnowledgeSpaceStatus::Archived),
        3 => Ok(KnowledgeSpaceStatus::Deleted),
        _ => Err(StoreError::Internal(crate::text::message_with_number("unknown knowledge space status code: ", value))),
    }
}

/// Reads a KnowledgeSpaceStatus back from its database number as the group binding store keeps it (provisioning included); any other
/// number is an internal error.
pub fn group_space_status_from_code(value: i64) -> (result: Result<KnowledgeSpaceStatus, StoreError>)
    ensures
        match result {
            Ok(kind) => kind.spec_code() == value && (value == 0 || value == 1 || value == 2 || value == 3),
            Err(e) => e.is_internal() && !(value == 0 || value == 1 || value == 2 || value == 3),
        },
        forall|kind: KnowledgeSpaceStatus| kind.spec_code() == value && (value == 0 || value == 1 || value == 2 || value == 3) ==> result == Ok::<KnowledgeSpaceStatus, StoreError>(kind),
{
    match value {
        0 => Ok(KnowledgeSpaceStatus::Provisioning),
        1 => Ok(KnowledgeSpaceStatus::Active),
        2 => Ok(KnowledgeSpaceStatus::Archived),
        3 => Ok(KnowledgeSpaceStatus::Deleted),
        _ => Err(StoreError::Internal(crate::text::message_with_number("unsupported knowledge space status: ", value))),
    }
}

/// Who may see a knowledge document.
#[derive(Debug, Clone, Copy, PartialEq, Eq, Structural)]
pub enum KnowledgeDocumentVisibility {
    Private,
    Space,
    Organization,
    Public,
}

impl KnowledgeDocumentVisibility {
    /// The number that stands for the kind in the database.
    pub open spec fn spec_code(self) -> i64 {
        match self {
            KnowledgeDocumentVisibility::Private => 0,
            KnowledgeDocumentVisibility::Space => 1,
            KnowledgeDocumentVisibility::Organization => 2,
            KnowledgeDocumentVisibility::Public => 3,
        }
    }
}

/// The database number of a KnowledgeDocumentVisibility.
pub fn document_visibility_code(value: KnowledgeDocumentVisibility) -> (code: i64)
    ensures
        code == value.spec_code(),
{
    match value {
        KnowledgeDocumentVisibility::Private => 0,
        KnowledgeDocumentVisibility::Space => 1,
        KnowledgeDocumentVisibility::Organization => 2,
        KnowledgeDocumentVisibility::Public => 3,
    }
}

/// Reads a KnowledgeDocumentVisibility back from its database number; any other
/// number is an internal error.
pub fn document_visibility_from_code(value: i64) -> (result: Result<KnowledgeDocumentVisibility, StoreError>)
    ensures
        match result {
            Ok(kind) => kind.spec_code() == value && (value == 0 || value == 1 || value == 2 || value == 3),
            Err(e) => e.is_internal() && !(value == 0 || value == 1 || value == 2 || value == 3),
        },
        forall|kind: KnowledgeDocumentVisibility| kind.spec_code() == value && (value == 0 || value == 1 || value == 2 || value == 3) ==> result == Ok::<KnowledgeDocumentVisibility, StoreError>(kind),
{
    match value {
        0 => Ok(KnowledgeDocumentVisibility::Private),
        1 => Ok(KnowledgeDocumentVisibility::Space),
        2 => Ok(KnowledgeDocumentVisibility::Organization),
        3 => Ok(KnowledgeDocumentVisibility::Public),
        _ => Err(StoreError::Internal(crate::text::message_with_number("unknown document visibility code: ", value))),
    }
}

/// Content state of a knowledge document.
#[derive(Debug, Clone, Copy, PartialEq, Eq, Structural)]
pub enum KnowledgeDocumentState {
    Draft,
    Ready,
    Archived,
    Deleted,
}

impl KnowledgeDocumentState {
    /// The number that stands for the kind in the database.
    pub open spec fn spec_code(self) -> i64 {
        match self {
            KnowledgeDocumentState::Draft => 0,
            KnowledgeDocumentState::Ready => 1,
            KnowledgeDocumentState::Archived => 2,
            KnowledgeDocumentState::Deleted => 3,
        }
    }
}

/// The database number of a KnowledgeDocumentState.
pub fn document_state_code(value: KnowledgeDocumentState) -> (code: i64)
    ensures
        code == value.spec_code(),
{
    match value {
        KnowledgeDocumentState::Draft => 0,
        KnowledgeDocumentState::Ready => 1,
        KnowledgeDocumentState::Archived => 2,
        KnowledgeDocumentState::Deleted => 3,
    }
}

/// Reads a KnowledgeDocumentState back from its database number; any other
/// number is an internal error.
pub fn document_state_from_code(value: i64) -> (result: Result<KnowledgeDocumentState, StoreError>)
    ensures
        match result {
            Ok(kind) => kind.spec_code() == value && (value == 0 || value == 1 || value == 2 || value == 3),
            Err(e) => e.is_internal() && !(value == 0 || value == 1 || value == 2 || value == 3),
        },
        forall|kind: KnowledgeDocumentState| kind.spec_code() == value && (value == 0 || value == 1 || value == 2 || value == 3) ==> result == Ok::<KnowledgeDocumentState, StoreError>(kind),
{
    match value {
        0 => Ok(KnowledgeDocumentState::Draft),
        1 => Ok(KnowledgeDocumentState::Ready),
        2 => Ok(KnowledgeDocumentState::Archived),
        3 => Ok(KnowledgeDocumentState::Deleted),
        _ => Err(StoreError::Internal(crate::text::message_with_number("unknown document state code: ", value))),
    }
}

/// Parse or index state of a document version.
#[derive(Debug, Clone, Copy, PartialEq, Eq, Structural)]
pub enum KnowledgeDocumentVersionState {
    Pending,
    Running,
    Succeeded,
    Failed,
}

impl KnowledgeDocumentVersionState {
    /// The number that stands for the kind in the database.
    pub open spec fn spec_code(self) -> i64 {
        match self {
            KnowledgeDocumentVersionState::Pending => 0,
            KnowledgeDocumentVersionState::Running => 1,
            KnowledgeDocumentVersionState::Succeeded => 2,
            KnowledgeDocumentVersionState::Failed => 3,
        }
    }
}

/// The database number of a KnowledgeDocumentVersionState.
pub fn version_state_code(value: KnowledgeDocumentVersionState) -> (code: i64)
    ensures
        code == value.spec_code(),
{
    match value {
        KnowledgeDocumentVersionState::Pending => 0,
        KnowledgeDocumentVersionState::Running => 1,
        KnowledgeDocumentVersionState::Succeeded => 2,
        KnowledgeDocumentVersionState::Failed => 3,
    }
}

/// Reads a KnowledgeDocumentVersionState back from its database number; any other
/// number is an internal error.
pub fn version_state_from_code(value: i64) -> (result: Result<KnowledgeDocumentVersionState, StoreError>)
    ensures
        match result {
            Ok(kind) => kind.spec_code() == value && (value == 0 || value == 1 || value == 2 || value == 3),
            Err(e) => e.is_internal() && !(value == 0 || value == 1 || value == 2 || value == 3),
        },
        forall|kind: KnowledgeDocumentVersionState| kind.spec_code() == value && (value == 0 || value == 1 || value == 2 || value == 3) ==> result == Ok::<KnowledgeDocumentVersionState, StoreError>(kind),
{
    match value {
        0 => Ok(KnowledgeDocumentVersionState::Pending),
        1 => Ok(KnowledgeDocumentVersionState::Running),
        2 => Ok(KnowledgeDocumentVersionState::Succeeded),
        3 => Ok(KnowledgeDocumentVersionState::Failed),
        _ => Err(StoreError::Internal(crate::text::message_with_number("unknown document version state code: ", value))),
    }
}

/// State of an ingestion job.
#[derive(Debug, Clone, Copy, PartialEq, Eq, Structural)]
pub enum IngestionJobState {
    Queued,
    Running,
    Succeeded,
    Failed,
    Cancelled,
}

impl IngestionJobState {
    /// The variant's name as `Debug` writes it.
    pub open spec fn spec_debug_name(self) -> Seq<char> {
        match self {
            IngestionJobState::Queued => "Queued"@,
            IngestionJobState::Running => "Running"@,
            IngestionJobState::Succeeded => "Succeeded"@,
            IngestionJobState::Failed => "Failed"@,
            IngestionJobState::Cancelled => "Cancelled"@,
        }
    }

    /// The variant's name as `Debug` writes it.
    pub fn debug_name(self) -> (name: &'static str)
        ensures
            name@ == self.spec_debug_name(),
    {
        match self {
            IngestionJobState::Queued => "Queued",
            IngestionJobState::Running => "Running",
            IngestionJobState::Succeeded => "Succeeded",
            IngestionJobState::Failed => "Failed",
            IngestionJobState::Cancelled => "Cancelled",
        }
    }

    /// The number that stands for the kind in the database.
    pub open spec fn spec_code(self) -> i64 {
        match self {
            IngestionJobState::Queued => 0,
            IngestionJobState::Running => 1,
            IngestionJobState::Succeeded => 2,
            IngestionJobState::Failed => 3,
            IngestionJobState::Cancelled => 4,
        }
    }
}

/// The database number of a IngestionJobState.
pub fn ingestion_state_code(value: IngestionJobState) -> (code: i64)
    ensures
        code == value.spec_code(),
{
    match value {
        IngestionJobState::Queued => 0,
        IngestionJobState::Running => 1,
        IngestionJobState::Succeeded => 2,
        IngestionJobState::Failed => 3,
        IngestionJobState::Cancelled => 4,
    }
}

/// Reads a IngestionJobState back from its database number; any other
/// number is an internal error.
pub fn ingestion_state_from_code(value: i64) -> (result: Result<IngestionJobState, StoreError>)
    ensures
        match result {
            Ok(kind) => kind.spec_code() == value && (value == 0 || value == 1 || value == 2 || value == 3 || value == 4),
            Err(e) => e.is_internal() && !(value == 0 || value == 1 || value == 2 || value == 3 || value == 4),
        },
        forall|kind: IngestionJobState| kind.spec_code() == value && (value == 0 || value == 1 || value == 2 || value == 3 || value == 4) ==> result == Ok::<IngestionJobState, StoreError>(kind),
{
    match value {
        0 => Ok(IngestionJobState::Queued),
        1 => Ok(IngestionJobState::Running),
        2 => Ok(IngestionJobState::Succeeded),
        3 => Ok(IngestionJobState::Failed),
        4 => Ok(IngestionJobState::Cancelled),
        _ => Err(StoreError::Internal(crate::text::message_with_number("unknown ingestion job state code: ", value))),
    }
}

/// Role of a file in an OKF bundle.
#[derive(Debug, Clone, Copy, PartialEq, Eq, Structural)]
pub enum OkfBundleFileKind {
    BundleProfile,
    BundleAgents,
    BundleIndex,
    BundleLog,
    ConceptRevision,
    GraphExport,
    ContextPack,
    OutputExport,
}

impl OkfBundleFileKind {
    /// The text that stands for the kind in the database.
    pub open spec fn spec_code(self) -> Seq<char> {
        match self {
            OkfBundleFileKind::BundleProfile => seq!['b', 'u', 'n', 'd', 'l', 'e', '_', 'p', 'r', 'o', 'f', 'i', 'l', 'e'],
            OkfBundleFileKind::BundleAgents => seq!['b', 'u', 'n', 'd', 'l', 'e', '_', 'a', 'g', 'e', 'n', 't', 's'],
            OkfBundleFileKind::BundleIndex => seq!['b', 'u', 'n', 'd', 'l', 'e', '_', 'i', 'n', 'd', 'e', 'x'],
            OkfBundleFileKind::BundleLog => seq!['b', 'u', 'n', 'd', 'l', 'e', '_', 'l', 'o', 'g'],
            OkfBundleFileKind::ConceptRevision => seq!['c', 'o', 'n', 'c', 'e', 'p', 't', '_', 'r', 'e', 'v', 'i', 's', 'i', 'o', 'n'],
            OkfBundleFileKind::GraphExport => seq!['g', 'r', 'a', 'p', 'h', '_', 'e', 'x', 'p', 'o', 'r', 't'],
            OkfBundleFileKind::ContextPack => seq!['c', 'o', 'n', 't', 'e', 'x', 't', '_', 'p', 'a', 'c', 'k'],
            OkfBundleFileKind::OutputExport => seq!['o', 'u', 't', 'p', 'u', 't', '_', 'e', 'x', 'p', 'o', 'r', 't'],
        }
    }

    /// The database text of the kind.
    pub fn as_str(self) -> (code: &'static str)
        ensures
            code@ == self.spec_code(),
    {
        match self {
            OkfBundleFileKind::BundleProfile => {
                proof {
                    reveal_strlit("bundle_profile");
                }
                assert("bundle_profile"@ =~= self.spec_code());
                "bundle_profile"
            },
            OkfBundleFileKind::BundleAgents => {
                proof {
                    reveal_strlit("bundle_agents");
                }
                assert("bundle_agents"@ =~= self.spec_code());
                "bundle_agents"
            },
            OkfBundleFileKind::BundleIndex => {
                proof {
                    reveal_strlit("bundle_index");
                }
                assert("bundle_index"@ =~= self.spec_code());
                "bundle_index"
            },
            OkfBundleFileKind::BundleLog => {
                proof {
                    reveal_strlit("bundle_log");
                }
                assert("bundle_log"@ =~= self.spec_code());
                "bundle_log"
            },
            OkfBundleFileKind::ConceptRevision => {
                proof {
                    reveal_strlit("concept_revision");
                }
                assert("concept_revision"@ =~= self.spec_code());
                "concept_revision"
            },
            OkfBundleFileKind::GraphExport => {
                proof {
                    reveal_strlit("graph_export");
                }
                assert("graph_export"@ =~= self.spec_code());
                "graph_export"
            },
            OkfBundleFileKind::ContextPack => {
                proof {
                    reveal_strlit("context_pack");
                }
                assert("context_pack"@ =~= self.spec_code());
                "context_pack"
            },
            OkfBundleFileKind::OutputExport => {
                proof {
                    reveal_strlit("output_export");
                }
                assert("output_export"@ =~= self.spec_code());
                "output_export"
            },
        }
    }
}

/// The database text of a OkfBundleFileKind.
pub fn okf_bundle_file_type_code(value: OkfBundleFileKind) -> (code: &'static str)
    ensures
        code@ == value.spec_code(),
{
    value.as_str()
}

/// Reads a OkfBundleFileKind back from its database text; any other text is an
/// internal error (the database holds a value the domain does not know).
pub fn okf_bundle_file_type_from_code(value: &str) -> (result: Result<OkfBundleFileKind, StoreError>)
    ensures
        match result {
            Ok(kind) => kind.spec_code() == value@,
            Err(e) => e.is_internal() && forall|kind: OkfBundleFileKind| kind.spec_code() != value@,
        },
        forall|kind: OkfBundleFileKind| kind.spec_code() == value@ ==> result == Ok::<OkfBundleFileKind, StoreError>(kind),
{
    proof {
        reveal_strlit("bundle_profile");
    }
    if str_eq(value, "bundle_profile") {
        assert(value@ =~= OkfBundleFileKind::BundleProfile.spec_code());
        return Ok(OkfBundleFileKind::BundleProfile);
    }
    proof {
        reveal_strlit("bundle_agents");
    }
    if str_eq(value, "bundle_agents") {
        assert(value@ =~= OkfBundleFileKind::BundleAgents.spec_code());
        return Ok(OkfBundleFileKind::BundleAgents);
    }
    proof {
        reveal_strlit("bundle_index");
    }
    if str_eq(value, "bundle_index") {
        assert(value@ =~= OkfBundleFileKind::BundleIndex.spec_code());
        return Ok(OkfBundleFileKind::BundleIndex);
    }
    proof {
        reveal_strlit("bundle_log");
    }
    if str_eq(value, "bundle_log") {
        assert(value@ =~= OkfBundleFileKind::BundleLog.spec_code());
        return Ok(OkfBundleFileKind::BundleLog);
    }
    proof {
        reveal_strlit("concept_revision");
    }
    if str_eq(value, "concept_revision") {
        assert(value@ =~= OkfBundleFileKind::ConceptRevision.spec_code());
        return Ok(OkfBundleFileKind::ConceptRevision);
    }
    proof {
        reveal_strlit("graph_export");
    }
    if str_eq(value, "graph_export") {
        assert(value@ =~= OkfBundleFileKind::GraphExport.spec_code());
        return Ok(OkfBundleFileKind::GraphExport);
    }
    proof {
        reveal_strlit("context_pack");
    }
    if str_eq(value, "context_pack") {
        assert(value@ =~= OkfBundleFileKind::ContextPack.spec_code());
        return Ok(OkfBundleFileKind::ContextPack);
    }
    proof {
        reveal_strlit("output_export");
    }
    if str_eq(value, "output_export") {
        assert(value@ =~= OkfBundleFileKind::OutputExport.spec_code());
        return Ok(OkfBundleFileKind::OutputExport);
    }
    proof {
        assert forall|kind: OkfBundleFileKind| kind.spec_code() != value@ by {
            match kind {
                OkfBundleFileKind::BundleProfile => {
                    assert("bundle_profile"@ =~= kind.spec_code());
                },
                OkfBundleFileKind::BundleAgents => {
                    assert("bundle_agents"@ =~= kind.spec_code());
                },
                OkfBundleFileKind::BundleIndex => {
                    assert("bundle_index"@ =~= kind.spec_code());
                },
                OkfBundleFileKind::BundleLog => {
                    assert("bundle_log"@ =~= kind.spec_code());
                },
                OkfBundleFileKind::ConceptRevision => {
                    assert("concept_revision"@ =~= kind.spec_code());
                },
                OkfBundleFileKind::GraphExport => {
                    assert("graph_export"@ =~= kind.spec_code());
                },
                OkfBundleFileKind::ContextPack => {
                    assert("context_pack"@ =~= kind.spec_code());
                },
                OkfBundleFileKind::OutputExport => {
                    assert("output_export"@ =~= kind.spec_code());
                },
            }
        }
    }
    Err(StoreError::Internal(crate::text::message_with("unknown okf bundle file kind: ", value)))
}

/// Kind of a Wiki page.
#[derive(Debug, Clone, Copy, PartialEq, Eq, Structural)]
pub enum WikiPageType {
    Source,
    Entity,
    Topic,
    Concept,
    HowTo,
    Reference,
    Faq,
    Glossary,
    Answer,
    Comparison,
    Presentation,
    Chart,
    Index,
    Policy,
    Runbook,
}

impl WikiPageType {
    /// The text that stands for the kind in the database.
    pub open spec fn spec_code(self) -> Seq<char> {
        match self {
            WikiPageType::Source => seq!['s', 'o', 'u', 'r', 'c', 'e'],
            WikiPageType::Entity => seq!['e', 'n', 't', 'i', 't', 'y'],
            WikiPageType::Topic => seq!['t', 'o', 'p', 'i', 'c'],
            WikiPageType::Concept => seq!['c', 'o', 'n', 'c', 'e', 'p', 't'],
            WikiPageType::HowTo => seq!['h', 'o', 'w', '_', 't', 'o'],
            WikiPageType::Reference => seq!['r', 'e', 'f', 'e', 'r', 'e', 'n', 'c', 'e'],
            WikiPageType::Faq => seq!['f', 'a', 'q'],
            WikiPageType::Glossary => seq!['g', 'l', 'o', 's', 's', 'a', 'r', 'y'],
            WikiPageType::Answer => seq!['a', 'n', 's', 'w', 'e', 'r'],
            WikiPageType::Comparison => seq!['c', 'o', 'm', 'p', 'a', 'r', 'i', 's', 'o', 'n'],
            WikiPageType::Presentation => seq!['p', 'r', 'e', 's', 'e', 'n', 't', 'a', 't', 'i', 'o', 'n'],
            WikiPageType::Chart => seq!['c', 'h', 'a', 'r', 't'],
            WikiPageType::Index => seq!['i', 'n', 'd', 'e', 'x'],
            WikiPageType::Policy => seq!['p', 'o', 'l', 'i', 'c', 'y'],
            WikiPageType::Runbook => seq!['r', 'u', 'n', 'b', 'o', 'o', 'k'],
        }
    }

    /// The database text of the kind.
    pub fn as_str(self) -> (code: &'static str)
        ensures
            code@ == self.spec_code(),
    {
        match self {
            WikiPageType::Source => {
                proof {
                    reveal_strlit("source");
                }
                assert("source"@ =~= self.spec_code());
                "source"
            },
            WikiPageType::Entity => {
                proof {
                    reveal_strlit("entity");
                }
                assert("entity"@ =~= self.spec_code());
                "entity"
            },
            WikiPageType::Topic => {
                proof {
                    reveal_strlit("topic");
                }
                assert("topic"@ =~= self.spec_code());
                "topic"
            },
            WikiPageType::Concept => {
                proof {
                    reveal_strlit("concept");
                }
                assert("concept"@ =~= self.spec_code());
                "concept"
            },
            WikiPageType::HowTo => {
                proof {
                    reveal_strlit("how_to");
                }
                assert("how_to"@ =~= self.spec_code());
                "how_to"
            },
            WikiPageType::Reference => {
                proof {
                    reveal_strlit("reference");
                }
                assert("reference"@ =~= self.spec_code());
                "reference"
            },
            WikiPageType::Faq => {
                proof {
                    reveal_strlit("faq");
                }
                assert("faq"@ =~= self.spec_code());
                "faq"
            },
            WikiPageType::Glossary => {
                proof {
                    reveal_strlit("glossary");
                }
                assert("glossary"@ =~= self.spec_code());
                "glossary"
            },
            WikiPageType::Answer => {
                proof {
                    reveal_strlit("answer");
                }
                assert("answer"@ =~= self.spec_code());
                "answer"
            },
            WikiPageType::Comparison => {
                proof {
                    reveal_strlit("comparison");
                }
                assert("comparison"@ =~= self.spec_code());
                "comparison"
            },
            WikiPageType::Presentation => {
                proof {
                    reveal_strlit("presentation");
                }
                assert("presentation"@ =~= self.spec_code());
                "presentation"
            },
            WikiPageType::Chart => {
                proof {
                    reveal_strlit("chart");
                }
                assert("chart"@ =~= self.spec_code());
                "chart"
            },
            WikiPageType::Index => {
                proof {
                    reveal_strlit("index");
                }
                assert("index"@ =~= self.spec_code());
                "index"
            },
            WikiPageType::Policy => {
                proof {
                    reveal_strlit("policy");
                }
                assert("policy"@ =~= self.spec_code());
                "policy"
            },
            WikiPageType::Runbook => {
                proof {
                    reveal_strlit("runbook");
                }
                assert("runbook"@ =~= self.spec_code());
                "runbook"
            },
        }
    }
}

/// Reads a WikiPageType back from its database text; any other text is an
/// internal error (the database holds a value the domain does not know).
pub fn page_type_from_str(value: &str) -> (result: Result<WikiPageType, StoreError>)
    ensures
        match result {
            Ok(kind) => kind.spec_code() == value@,
            Err(e) => e.is_internal() && forall|kind: WikiPageType| kind.spec_code() != value@,
        },
        forall|kind: WikiPageType| kind.spec_code() == value@ ==> result == Ok::<WikiPageType, StoreError>(kind),
{
    proof {
        reveal_strlit("source");
    }
    if str_eq(value, "source") {
        assert(value@ =~= WikiPageType::Source.spec_code());
        return Ok(WikiPageType::Source);
    }
    proof {
        reveal_strlit("entity");
    }
    if str_eq(value, "entity") {
        assert(value@ =~= WikiPageType::Entity.spec_code());
        return Ok(WikiPageType::Entity);
    }
    proof {
        reveal_strlit("topic");
    }
    if str_eq(value, "topic") {
        assert(value@ =~= WikiPageType::Topic.spec_code());
        return Ok(WikiPageType::Topic);
    }
    proof {
        reveal_strlit("concept");
    }
    if str_eq(value, "concept") {
        assert(value@ =~= WikiPageType::Concept.spec_code());
        return Ok(WikiPageType::Concept);
    }
    proof {
        reveal_strlit("how_to");
    }
    if str_eq(value, "how_to") {
        assert(value@ =~= WikiPageType::HowTo.spec_code());
        return Ok(WikiPageType::HowTo);
    }
    proof {
        reveal_strlit("reference");
    }
    if str_eq(value, "reference") {
        assert(value@ =~= WikiPageType::Reference.spec_code());
        return Ok(WikiPageType::Reference);
    }
    proof {
        reveal_strlit("faq");
    }
    if str_eq(value, "faq") {
        assert(value@ =~= WikiPageType::Faq.spec_code());
        return Ok(WikiPageType::Faq);
    }
    proof {
        reveal_strlit("glossary");
    }
    if str_eq(value, "glossary") {
        assert(value@ =~= WikiPageType::Glossary.spec_code());
        return Ok(WikiPageType::Glossary);
    }
    proof {
        reveal_strlit("answer");
    }
    if str_eq(value, "answer") {
        assert(value@ =~= WikiPageType::Answer.spec_code());
        return Ok(WikiPageType::Answer);
    }
    proof {
        reveal_strlit("comparison");
    }
    if str_eq(value, "comparison") {
        assert(value@ =~= WikiPageType::Comparison.spec_code());
        return Ok(WikiPageType::Comparison);
    }
    proof {
        reveal_strlit("presentation");
    }
    if str_eq(value, "presentation") {
        assert(value@ =~= WikiPageType::Presentation.spec_code());
        return Ok(WikiPageType::Presentation);
    }
    proof {
        reveal_strlit("chart");
    }
    if str_eq(value, "chart") {
        assert(value@ =~= WikiPageType::Chart.spec_code());
        return Ok(WikiPageType::Chart);
    }
    proof {
        reveal_strlit("index");
    }
    if str_eq(value, "index") {
        assert(value@ =~= WikiPageType::Index.spec_code());
        return Ok(WikiPageType::Index);
    }
    proof {
        reveal_strlit("policy");
    }
    if str_eq(value, "policy") {
        assert(value@ =~= WikiPageType::Policy.spec_code());
        return Ok(WikiPageType::Policy);
    }
    proof {
        reveal_strlit("runbook");
    }
    if str_eq(value, "runbook") {
        assert(value@ =~= WikiPageType::Runbook.spec_code());
        return Ok(WikiPageType::Runbook);
    }
    proof {
        assert forall|kind: WikiPageType| kind.spec_code() != value@ by {
            match kind {
                WikiPageType::Source => {
                    assert("source"@ =~= kind.spec_code());
                },
                WikiPageType::Entity => {
                    assert("entity"@ =~= kind.spec_code());
                },
                WikiPageType::Topic => {
                    assert("topic"@ =~= kind.spec_code());
                },
                WikiPageType::Concept => {
                    assert("concept"@ =~= kind.spec_code());
                },
                WikiPageType::HowTo => {
                    assert("how_to"@ =~= kind.spec_code());
                },
                WikiPageType::Reference => {
                    assert("reference"@ =~= kind.spec_code());
                },
                WikiPageType::Faq => {
                    assert("faq"@ =~= kind.spec_code());
                },
                WikiPageType::Glossary => {
                    assert("glossary"@ =~= kind.spec_code());
                },
                WikiPageType::Answer => {
                    assert("answer"@ =~= kind.spec_code());
                },
                WikiPageType::Comparison => {
                    assert("comparison"@ =~= kind.spec_code());
                },
                WikiPageType::Presentation => {
                    assert("presentation"@ =~= kind.spec_code());
                },
                WikiPageType::Chart => {
                    assert("chart"@ =~= kind.spec_code());
                },
                WikiPageType::Index => {
                    assert("index"@ =~= kind.spec_code());
                },
                WikiPageType::Policy => {
                    assert("policy"@ =~= kind.spec_code());
                },
                WikiPageType::Runbook => {
                    assert("runbook"@ =~= kind.spec_code());
                },
            }
        }
    }
    Err(StoreError::Internal(crate::text::message_with("unknown wiki page type: ", value)))
}

/// Publication state of a Wiki page or an OKF concept.
#[derive(Debug, Clone, Copy, PartialEq, Eq, Structural)]
pub enum WikiPagePublishState {
    Draft,
    CandidateReady,
    NeedsReview,
    Published,
    Stale,
    Rejected,
    Failed,
}

impl WikiPagePublishState {
    /// The text that stands for the kind in the database.
    pub open spec fn spec_code(self) -> Seq<char> {
        match self {
            WikiPagePublishState::Draft => seq!['d', 'r', 'a', 'f', 't'],
            WikiPagePublishState::CandidateReady => seq!['c', 'a', 'n', 'd', 'i', 'd', 'a', 't', 'e', '_', 'r', 'e', 'a', 'd', 'y'],
            WikiPagePublishState::NeedsReview => seq!['n', 'e', 'e', 'd', 's', '_', 'r', 'e', 'v', 'i', 'e', 'w'],
            WikiPagePublishState::Published => seq!['p', 'u', 'b', 'l', 'i', 's', 'h', 'e', 'd'],
            WikiPagePublishState::Stale => seq!['s', 't', 'a', 'l', 'e'],
            WikiPagePublishState::Rejected => seq!['r', 'e', 'j', 'e', 'c', 't', 'e', 'd'],
            WikiPagePublishState::Failed => seq!['f', 'a', 'i', 'l', 'e', 'd'],
        }
    }

    /// The database text of the kind.
    pub fn as_str(self) -> (code: &'static str)
        ensures
            code@ == self.spec_code(),
    {
        match self {
            WikiPagePublishState::Draft => {
                proof {
                    reveal_strlit("draft");
                }
                assert("draft"@ =~= self.spec_code());
                "draft"
            },
            WikiPagePublishState::CandidateReady => {
                proof {
                    reveal_strlit("candidate_ready");
                }
                assert("candidate_ready"@ =~= self.spec_code());
                "candidate_ready"
            },
            WikiPagePublishState::NeedsReview => {
                proof {
                    reveal_strlit("needs_review");
                }
                assert("needs_review"@ =~= self.spec_code());
                "needs_review"
            },
            WikiPagePublishState::Published => {
                proof {
                    reveal_strlit("published");
                }
                assert("published"@ =~= self.spec_code());
                "published"
            },
            WikiPagePublishState::Stale => {
                proof {
                    reveal_strlit("stale");
                }
                assert("stale"@ =~= self.spec_code());
                "stale"
            },
            WikiPagePublishState::Rejected => {
                proof {
                    reveal_strlit("rejected");
                }
                assert("rejected"@ =~= self.spec_code());
                "rejected"
            },
            WikiPagePublishState::Failed => {
                proof {
                    reveal_strlit("failed");
                }
                assert("failed"@ =~= self.spec_code());
                "failed"
            },
        }
    }
}

/// Whose revisions a publish or review state belongs to.
#[derive(Debug, Clone, Copy, PartialEq, Eq, Structural)]
pub enum RevisionOwner {
    /// Wiki pages.
    WikiPage,
    /// OKF concepts.
    OkfConcept,
}

/// Reads a WikiPagePublishState back from its database text; any other text is an
/// internal error (the database holds a value the domain does not know).
pub fn publish_state_from_str(owner: RevisionOwner, value: &str) -> (result: Result<WikiPagePublishState, StoreError>)
    ensures
        match result {
            Ok(kind) => kind.spec_code() == value@,
            Err(e) => e.is_internal() && forall|kind: WikiPagePublishState| kind.spec_code() != value@,
        },
        forall|kind: WikiPagePublishState| kind.spec_code() == value@ ==> result == Ok::<WikiPagePublishState, StoreError>(kind),
{
    proof {
        reveal_strlit("draft");
    }
    if str_eq(value, "draft") {
        assert(value@ =~= WikiPagePublishState::Draft.spec_code());
        return Ok(WikiPagePublishState::Draft);
    }
    proof {
        reveal_strlit("candidate_ready");
    }
    if str_eq(value, "candidate_ready") {
        assert(value@ =~= WikiPagePublishState::CandidateReady.spec_code());
        return Ok(WikiPagePublishState::CandidateReady);
    }
    proof {
        reveal_strlit("needs_review");
    }
    if str_eq(value, "needs_review") {
        assert(value@ =~= WikiPagePublishState::NeedsReview.spec_code());
        return Ok(WikiPagePublishState::NeedsReview);
    }
    proof {
        reveal_strlit("published");
    }
    if str_eq(value, "published") {
        assert(value@ =~= WikiPagePublishState::Published.spec_code());
        return Ok(WikiPagePublishState::Published);
    }
    proof {
        reveal_strlit("stale");
    }
    if str_eq(value, "stale") {
        assert(value@ =~= WikiPagePublishState::Stale.spec_code());
        return Ok(WikiPagePublishState::Stale);
    }
    proof {
        reveal_strlit("rejected");
    }
    if str_eq(value, "rejected") {
        assert(value@ =~= WikiPagePublishState::Rejected.spec_code());
        return Ok(WikiPagePublishState::Rejected);
    }
    proof {
        reveal_strlit("failed");
    }
    if str_eq(value, "failed") {
        assert(value@ =~= WikiPagePublishState::Failed.spec_code());
        return Ok(WikiPagePublishState::Failed);
    }
    proof {
        assert forall|kind: WikiPagePublishState| kind.spec_code() != value@ by {
            match kind {
                WikiPagePublishState::Draft => {
                    assert("draft"@ =~= kind.spec_code());
                },
                WikiPagePublishState::CandidateReady => {
                    assert("candidate_ready"@ =~= kind.spec_code());
                },
                WikiPagePublishState::NeedsReview => {
                    assert("needs_review"@ =~= kind.spec_code());
                },
                WikiPagePublishState::Published => {
                    assert("published"@ =~= kind.spec_code());
                },
                WikiPagePublishState::Stale => {
                    assert("stale"@ =~= kind.spec_code());
                },
                WikiPagePublishState::Rejected => {
                    assert("rejected"@ =~= kind.spec_code());
                },
                WikiPagePublishState::Failed => {
                    assert("failed"@ =~= kind.spec_code());
                },
            }
        }
    }
    {
        let prefix = match owner {
            RevisionOwner::WikiPage => "unknown wiki publish state: ",
            RevisionOwner::OkfConcept => "unknown okf concept publish state: ",
        };
        Err(StoreError::Internal(crate::text::message_with(prefix, value)))
    }
}

/// Review state of a Wiki page or OKF concept revision.
#[derive(Debug, Clone, Copy, PartialEq, Eq, Structural)]
pub enum RevisionReviewState {
    Pending,
    Approved,
    Rejected,
}

impl RevisionReviewState {
    /// The text that stands for the kind in the database.
    pub open spec fn spec_code(self) -> Seq<char> {
        match self {
            RevisionReviewState::Pending => seq!['p', 'e', 'n', 'd', 'i', 'n', 'g'],
            RevisionReviewState::Approved => seq!['a', 'p', 'p', 'r', 'o', 'v', 'e', 'd'],
            RevisionReviewState::Rejected => seq!['r', 'e', 'j', 'e', 'c', 't', 'e', 'd'],
        }
    }

    /// The database text of the kind.
    pub fn as_str(self) -> (code: &'static str)
        ensures
            code@ == self.spec_code(),
    {
        match self {
            RevisionReviewState::Pending => {
                proof {
                    reveal_strlit("pending");
                }
                assert("pending"@ =~= self.spec_code());
                "pending"
            },
            RevisionReviewState::Approved => {
                proof {
                    reveal_strlit("approved");
                }
                assert("approved"@ =~= self.spec_code());
                "approved"
            },
            RevisionReviewState::Rejected => {
                proof {
                    reveal_strlit("rejected");
                }
                assert("rejected"@ =~= self.spec_code());
                "rejected"
            },
        }
    }
}

/// Reads a RevisionReviewState back from its database text; any other text is an
/// internal error (the database holds a value the domain does not know).
pub fn review_state_from_str(owner: RevisionOwner, value: &str) -> (result: Result<RevisionReviewState, StoreError>)
    ensures
        match result {
            Ok(kind) => kind.spec_code() == value@,
            Err(e) => e.is_internal() && forall|kind: RevisionReviewState| kind.spec_code() != value@,
        },
        forall|kind: RevisionReviewState| kind.spec_code() == value@ ==> result == Ok::<RevisionReviewState, StoreError>(kind),
{
    proof {
        reveal_strlit("pending");
    }
    if str_eq(value, "pending") {
        assert(value@ =~= RevisionReviewState::Pending.spec_code());
        return Ok(RevisionReviewState::Pending);
    }
    proof {
        reveal_strlit("approved");
    }
    if str_eq(value, "approved") {
        assert(value@ =~= RevisionReviewState::Approved.spec_code());
        return Ok(RevisionReviewState::Approved);
    }
    proof {
        reveal_strlit("rejected");
    }
    if str_eq(value, "rejected") {
        assert(value@ =~= RevisionReviewState::Rejected.spec_code());
        return Ok(RevisionReviewState::Rejected);
    }
    proof {
        assert forall|kind: RevisionReviewState| kind.spec_code() != value@ by {
            match kind {
                RevisionReviewState::Pending => {
                    assert("pending"@ =~= kind.spec_code());
                },
                RevisionReviewState::Approved => {
                    assert("approved"@ =~= kind.spec_code());
                },
                RevisionReviewState::Rejected => {
                    assert("rejected"@ =~= kind.spec_code());
                },
            }
        }
    }
    {
        let prefix = match owner {
            RevisionOwner::WikiPage => "unknown wiki revision review state: ",
            RevisionOwner::OkfConcept => "unknown okf revision review state: ",
        };
        Err(StoreError::Internal(crate::text::message_with(prefix, value)))
    }
}

/// Kind of a `wiki/log.md` entry.
#[derive(Debug, Clone, Copy, PartialEq, Eq, Structural)]
pub enum WikiLogEventType {
    Ingest,
    Query,
    FiledAnswer,
    Compile,
    Review,
    Publish,
    Lint,
    Eval,
    Package,
    Mirror,
    DeltaUpdate,
}

impl WikiLogEventType {
    /// The text that stands for the kind in the database.
    pub open spec fn spec_code(self) -> Seq<char> {
        match self {
            WikiLogEventType::Ingest => seq!['i', 'n', 'g', 'e', 's', 't'],
            WikiLogEventType::Query => seq!['q', 'u', 'e', 'r', 'y'],
            WikiLogEventType::FiledAnswer => seq!['f', 'i', 'l', 'e', 'd', '_', 'a', 'n', 's', 'w', 'e', 'r'],
            WikiLogEventType::Compile => seq!['c', 'o', 'm', 'p', 'i', 'l', 'e'],
            WikiLogEventType::Review => seq!['r', 'e', 'v', 'i', 'e', 'w'],
            WikiLogEventType::Publish => seq!['p', 'u', 'b', 'l', 'i', 's', 'h'],
            WikiLogEventType::Lint => seq!['l', 'i', 'n', 't'],
            WikiLogEventType::Eval => seq!['e', 'v', 'a', 'l'],
            WikiLogEventType::Package => seq!['p', 'a', 'c', 'k', 'a', 'g', 'e'],
            WikiLogEventType::Mirror => seq!['m', 'i', 'r', 'r', 'o', 'r'],
            WikiLogEventType::DeltaUpdate => seq!['d', 'e', 'l', 't', 'a', '_', 'u', 'p', 'd', 'a', 't', 'e'],
        }
    }

    /// The database text of the kind.
    pub fn as_str(self) -> (code: &'static str)
        ensures
            code@ == self.spec_code(),
    {
        match self {
            WikiLogEventType::Ingest => {
                proof {
                    reveal_strlit("ingest");
                }
                assert("ingest"@ =~= self.spec_code());
                "ingest"
            },
            WikiLogEventType::Query => {
                proof {
                    reveal_strlit("query");
                }
                assert("query"@ =~= self.spec_code());
                "query"
            },
            WikiLogEventType::FiledAnswer => {
                proof {
                    reveal_strlit("filed_answer");
                }
                assert("filed_answer"@ =~= self.spec_code());
                "filed_answer"
            },
            WikiLogEventType::Compile => {
                proof {
                    reveal_strlit("compile");
                }
                assert("compile"@ =~= self.spec_code());
                "compile"
            },
            WikiLogEventType::Review => {
                proof {
                    reveal_strlit("review");
                }
                assert("review"@ =~= self.spec_code());
                "review"
            },
            WikiLogEventType::Publish => {
                proof {
                    reveal_strlit("publish");
                }
                assert("publish"@ =~= self.spec_code());
                "publish"
            },
            WikiLogEventType::Lint => {
                proof {
                    reveal_strlit("lint");
                }
                assert("lint"@ =~= self.spec_code());
                "lint"
            },
            WikiLogEventType::Eval => {
                proof {
                    reveal_strlit("eval");
                }
                assert("eval"@ =~= self.spec_code());
                "eval"
            },
            WikiLogEventType::Package => {
                proof {
                    reveal_strlit("package");
                }
                assert("package"@ =~= self.spec_code());
                "package"
            },
            WikiLogEventType::Mirror => {
                proof {
                    reveal_strlit("mirror");
                }
                assert("mirror"@ =~= self.spec_code());
                "mirror"
            },
            WikiLogEventType::DeltaUpdate => {
                proof {
                    reveal_strlit("delta_update");
                }
                assert("delta_update"@ =~= self.spec_code());
                "delta_update"
            },
        }
    }
}

/// Reads a WikiLogEventType back from its database text; any other text is an
/// internal error (the database holds a value the domain does not know).
pub fn log_event_type_from_str(value: &str) -> (result: Result<WikiLogEventType, StoreError>)
    ensures
        match result {
            Ok(kind) => kind.spec_code() == value@,
            Err(e) => e.is_internal() && forall|kind: WikiLogEventType| kind.spec_code() != value@,
        },
        forall|kind: WikiLogEventType| kind.spec_code() == value@ ==> result == Ok::<WikiLogEventType, StoreError>(kind),
{
    proof {
        reveal_strlit("ingest");
    }
    if str_eq(value, "ingest") {
        assert(value@ =~= WikiLogEventType::Ingest.spec_code());
        return Ok(WikiLogEventType::Ingest);
    }
    proof {
        reveal_strlit("query");
    }
    if str_eq(value, "query") {
        assert(value@ =~= WikiLogEventType::Query.spec_code());
        return Ok(WikiLogEventType::Query);
    }
    proof {
        reveal_strlit("filed_answer");
    }
    if str_eq(value, "filed_answer") {
        assert(value@ =~= WikiLogEventType::FiledAnswer.spec_code());
        return Ok(WikiLogEventType::FiledAnswer);
    }
    proof {
        reveal_strlit("compile");
    }
    if str_eq(value, "compile") {
        assert(value@ =~= WikiLogEventType::Compile.spec_code());
        return Ok(WikiLogEventType::Compile);
    }
    proof {
        reveal_strlit("review");
    }
    if str_eq(value, "review") {
        assert(value@ =~= WikiLogEventType::Review.spec_code());
        return Ok(WikiLogEventType::Review);
    }
    proof {
        reveal_strlit("publish");
    }
    if str_eq(value, "publish") {
        assert(value@ =~= WikiLogEventType::Publish.spec_code());
        return Ok(WikiLogEventType::Publish);
    }
    proof {
        reveal_strlit("lint");
    }
    if str_eq(value, "lint") {
        assert(value@ =~= WikiLogEventType::Lint.spec_code());
        return Ok(WikiLogEventType::Lint);
    }
    proof {
        reveal_strlit("eval");
    }
    if str_eq(value, "eval") {
        assert(value@ =~= WikiLogEventType::Eval.spec_code());
        return Ok(WikiLogEventType::Eval);
    }
    proof {
        reveal_strlit("package");
    }
    if str_eq(value, "package") {
        assert(value@ =~= WikiLogEventType::Package.spec_code());
        return Ok(WikiLogEventType::Package);
    }
    proof {
        reveal_strlit("mirror");
    }
    if str_eq(value, "mirror") {
        assert(value@ =~= WikiLogEventType::Mirror.spec_code());
        return Ok(WikiLogEventType::Mirror);
    }
    proof {
        reveal_strlit("delta_update");
    }
    if str_eq(value, "delta_update") {
        assert(value@ =~= WikiLogEventType::DeltaUpdate.spec_code());
        return Ok(WikiLogEventType::DeltaUpdate);
    }
    proof {
        assert forall|kind: WikiLogEventType| kind.spec_code() != value@ by {
            match kind {
                WikiLogEventType::Ingest => {
                    assert("ingest"@ =~= kind.spec_code());
                },
                WikiLogEventType::Query => {
                    assert("query"@ =~= kind.spec_code());
                },
                WikiLogEventType::FiledAnswer => {
                    assert("filed_answer"@ =~= kind.spec_code());
                },
                WikiLogEventType::Compile => {
                    assert("compile"@ =~= kind.spec_code());
                },
                WikiLogEventType::Review => {
                    assert("review"@ =~= kind.spec_code());
                },
                WikiLogEventType::Publish => {
                    assert("publish"@ =~= kind.spec_code());
                },
                WikiLogEventType::Lint => {
                    assert("lint"@ =~= kind.spec_code());
                },
                WikiLogEventType::Eval => {
                    assert("eval"@ =~= kind.spec_code());
                },
                WikiLogEventType::Package => {
                    assert("package"@ =~= kind.spec_code());
                },
                WikiLogEventType::Mirror => {
                    assert("mirror"@ =~= kind.spec_code());
                },
                WikiLogEventType::DeltaUpdate => {
                    assert("delta_update"@ =~= kind.spec_code());
                },
            }
        }
    }
    Err(StoreError::Internal(crate::text::message_with("unknown wiki log event type: ", value)))
}

/// Where the content of a knowledge source comes from.
#[derive(Debug, Clone, Copy, PartialEq, Eq, Structural)]
pub enum KnowledgeSourceType {
    Upload,
    DriveObject,
    DriveFolder,
    Url,
    Connector,
    Api,
}

impl KnowledgeSourceType {
    /// The text that stands for the kind in the database.
    pub open spec fn spec_code(self) -> Seq<char> {
        match self {
            KnowledgeSourceType::Upload => seq!['u', 'p', 'l', 'o', 'a', 'd'],
            KnowledgeSourceType::DriveObject => seq!['d', 'r', 'i', 'v', 'e', '_', 'o', 'b', 'j', 'e', 'c', 't'],
            KnowledgeSourceType::DriveFolder => seq!['d', 'r', 'i', 'v', 'e', '_', 'f', 'o', 'l', 'd', 'e', 'r'],
            KnowledgeSourceType::Url => seq!['u', 'r', 'l'],
            KnowledgeSourceType::Connector => seq!['c', 'o', 'n', 'n', 'e', 'c', 't', 'o', 'r'],
            KnowledgeSourceType::Api => seq!['a', 'p', 'i'],
        }
    }

    /// The database text of the kind.
    pub fn as_str(self) -> (code: &'static str)
        ensures
            code@ == self.spec_code(),
    {
        match self {
            KnowledgeSourceType::Upload => {
                proof {
                    reveal_strlit("upload");
                }
                assert("upload"@ =~= self.spec_code());
                "upload"
            },
            KnowledgeSourceType::DriveObject => {
                proof {
                    reveal_strlit("drive_object");
                }
                assert("drive_object"@ =~= self.spec_code());
                "drive_object"
            },
            KnowledgeSourceType::DriveFolder => {
                proof {
                    reveal_strlit("drive_folder");
                }
                assert("drive_folder"@ =~= self.spec_code());
                "drive_folder"
            },
            KnowledgeSourceType::Url => {
                proof {
                    reveal_strlit("url");
                }
                assert("url"@ =~= self.spec_code());
                "url"
            },
            KnowledgeSourceType::Connector => {
                proof {
                    reveal_strlit("connector");
                }
                assert("connector"@ =~= self.spec_code());
                "connector"
            },
            KnowledgeSourceType::Api => {
                proof {
                    reveal_strlit("api");
                }
                assert("api"@ =~= self.spec_code());
                "api"
            },
        }
    }
}

/// Reads a KnowledgeSourceType back from its database text; any other text is an
/// internal error (the database holds a value the domain does not know).
pub fn source_type_from_value(value: &str) -> (result: Result<KnowledgeSourceType, StoreError>)
    ensures
        match result {
            Ok(kind) => kind.spec_code() == value@,
            Err(e) => e.is_internal() && forall|kind: KnowledgeSourceType| kind.spec_code() != value@,
        },
        forall|kind: KnowledgeSourceType| kind.spec_code() == value@ ==> result == Ok::<KnowledgeSourceType, StoreError>(kind),
{
    proof {
        reveal_strlit("upload");
    }
    if str_eq(value, "upload") {
        assert(value@ =~= KnowledgeSourceType::Upload.spec_code());
        return Ok(KnowledgeSourceType::Upload);
    }
    proof {
        reveal_strlit("drive_object");
    }
    if str_eq(value, "drive_object") {
        assert(value@ =~= KnowledgeSourceType::DriveObject.spec_code());
        return Ok(KnowledgeSourceType::DriveObject);
    }
    proof {
        reveal_strlit("drive_folder");
    }
    if str_eq(value, "drive_folder") {
        assert(value@ =~= KnowledgeSourceType::DriveFolder.spec_code());
        return Ok(KnowledgeSourceType::DriveFolder);
    }
    proof {
        reveal_strlit("url");
    }
    if str_eq(value, "url") {
        assert(value@ =~= KnowledgeSourceType::Url.spec_code());
        return Ok(KnowledgeSourceType::Url);
    }
    proof {
        reveal_strlit("connector");
    }
    if str_eq(value, "connector") {
        assert(value@ =~= KnowledgeSourceType::Connector.spec_code());
        return Ok(KnowledgeSourceType::Connector);
    }
    proof {
        reveal_strlit("api");
    }
    if str_eq(value, "api") {
        assert(value@ =~= KnowledgeSourceType::Api.spec_code());
        return Ok(KnowledgeSourceType::Api);
    }
    proof {
        assert forall|kind: KnowledgeSourceType| kind.spec_code() != value@ by {
            match kind {
                KnowledgeSourceType::Upload => {
                    assert("upload"@ =~= kind.spec_code());
                },
                KnowledgeSourceType::DriveObject => {
                    assert("drive_object"@ =~= kind.spec_code());
                },
                KnowledgeSourceType::DriveFolder => {
                    assert("drive_folder"@ =~= kind.spec_code());
                },
                KnowledgeSourceType::Url => {
                    assert("url"@ =~= kind.spec_code());
                },
                KnowledgeSourceType::Connector => {
                    assert("connector"@ =~= kind.spec_code());
                },
                KnowledgeSourceType::Api => {
                    assert("api"@ =~= kind.spec_code());
                },
            }
        }
    }
    Err(StoreError::Internal(crate::text::message_with("unknown knowledge source type: ", value)))
}

/// How a knowledge space answers agents.
#[derive(Debug, Clone, Copy, PartialEq, Eq, Structural)]
pub enum KnowledgeMode {
    OkfBundle,
    Rag,
    External,
}

impl KnowledgeMode {
    /// The text that stands for the kind in the database.
    pub open spec fn spec_code(self) -> Seq<char> {
        match self {
            KnowledgeMode::OkfBundle => seq!['o', 'k', 'f', '_', 'b', 'u', 'n', 'd', 'l', 'e'],
            KnowledgeMode::Rag => seq!['r', 'a', 'g'],
            KnowledgeMode::External => seq!['e', 'x', 't', 'e', 'r', 'n', 'a', 'l'],
        }
    }

    /// The database text of the kind.
    pub fn as_str(self) -> (code: &'static str)
        ensures
            code@ == self.spec_code(),
    {
        match self {
            KnowledgeMode::OkfBundle => {
                proof {
                    reveal_strlit("okf_bundle");
                }
                assert("okf_bundle"@ =~= self.spec_code());
                "okf_bundle"
            },
            KnowledgeMode::Rag => {
                proof {
                    reveal_strlit("rag");
                }
                assert("rag"@ =~= self.spec_code());
                "rag"
            },
            KnowledgeMode::External => {
                proof {
                    reveal_strlit("external");
                }
                assert("external"@ =~= self.spec_code());
                "external"
            },
        }
    }
}

/// The database text of a KnowledgeMode.
pub fn space_knowledge_mode_code(value: KnowledgeMode) -> (code: &'static str)
    ensures
        code@ == value.spec_code(),
{
    value.as_str()
}

/// Reads a KnowledgeMode back from its database text; any other text is an
/// internal error (the database holds a value the domain does not know).
pub fn knowledge_mode_from_str(value: &str) -> (result: Result<KnowledgeMode, StoreError>)
    ensures
        match result {
            Ok(kind) => kind.spec_code() == value@,
            Err(e) => e.is_internal() && forall|kind: KnowledgeMode| kind.spec_code() != value@,
        },
        forall|kind: KnowledgeMode| kind.spec_code() == value@ ==> result == Ok::<KnowledgeMode, StoreError>(kind),
{
    proof {
        reveal_strlit("okf_bundle");
    }
    if str_eq(value, "okf_bundle") {
        assert(value@ =~= KnowledgeMode::OkfBundle.spec_code());
        return Ok(KnowledgeMode::OkfBundle);
    }
    proof {
        reveal_strlit("rag");
    }
    if str_eq(value, "rag") {
        assert(value@ =~= KnowledgeMode::Rag.spec_code());
        return Ok(KnowledgeMode::Rag);
    }
    proof {
        reveal_strlit("external");
    }
    if str_eq(value, "external") {
        assert(value@ =~= KnowledgeMode::External.spec_code());
        return Ok(KnowledgeMode::External);
    }
    proof {
        assert forall|kind: KnowledgeMode| kind.spec_code() != value@ by {
            match kind {
                KnowledgeMode::OkfBundle => {
                    assert("okf_bundle"@ =~= kind.spec_code());
                },
                KnowledgeMode::Rag => {
                    assert("rag"@ =~= kind.spec_code());
                },
                KnowledgeMode::External => {
                    assert("external"@ =~= kind.spec_code());
                },
            }
        }
    }
    Err(StoreError::Internal(crate::text::message_with("unsupported knowledge_mode value: ", value)))
}

/// Reads the optional knowledge mode column; a missing value means the
/// default OKF bundle mode.
pub fn space_knowledge_mode_from_row(value: Option<&str>) -> (result: Result<KnowledgeMode, StoreError>)
    ensures
        value is None ==> result == Ok::<KnowledgeMode, StoreError>(KnowledgeMode::OkfBundle),
        value matches Some(v) ==> (match result {
            Ok(kind) => kind.spec_code() == v@,
            Err(e) => e.is_internal() && forall|kind: KnowledgeMode| kind.spec_code() != v@,
        }),
{
    match value {
        None => Ok(KnowledgeMode::OkfBundle),
        Some(v) => knowledge_mode_from_str(v),
    }
}

} // verus!
