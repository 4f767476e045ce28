use vstd::prelude::*;
use crate::error::StoreError;
use crate::text::{opt_eq_str, opt_view, require_text, str_eq, trimmed};
use crate::wiki::lifecycle::required_text_ok;
use crate::wiki::model::{WikiPublication, WikiPublicationStatus};
use crate::group::fingerprint::{decimal, decimal_text};

verus! {

/// The message of a space whose publication belongs to another Drive space.
pub open spec fn owned_elsewhere_message(space_id: u64, publication_drive_space_uuid: Seq<char>) -> Seq<char> {
    "knowledge space "@ + decimal(space_id as nat) + " already owns a Wiki publication for Drive Space "@
        + publication_drive_space_uuid
}

/// The message of a knowledge space bound to another Drive space, or to none.
pub open spec fn not_bound_message(space_id: u64, drive_space_uuid: Seq<char>) -> Seq<char> {
    "knowledge space "@ + decimal(space_id as nat) + " is not bound to Drive Space "@ + drive_space_uuid
}

/// Rejects a publication of another Drive space.
pub fn ensure_publication_identity(publication: &WikiPublication, drive_space_uuid: &str) -> (result:
    Result<(), StoreError>)
    ensures
        result is Ok <==> publication.drive_space_uuid@ == drive_space_uuid@,
        result matches Err(e) ==> (e matches StoreError::Conflict(m) && m@ == owned_elsewhere_message(
            publication.space_id,
            publication.drive_space_uuid@,
        )),
{
    if !str_eq(publication.drive_space_uuid.as_str(), drive_space_uuid) {
        let mut message = "knowledge space ".to_string();
        let digits = decimal_text(publication.space_id);
        message.append(digits.as_str());
        message.append(" already owns a Wiki publication for Drive Space ");
        message.append(publication.drive_space_uuid.as_str());
        return Err(StoreError::Conflict(message));
    }
    Ok(())
}

/// How a publication provisioning proceeds.
#[derive(Debug, Clone, Copy, PartialEq, Eq, Structural)]
pub enum PublicationProvisionPlan {
    /// The space already has this publication.
    Existing,
    /// Create the publication.
    Create,
}

/// Decides a publication provisioning from the space's current publication
/// and the Drive space the knowledge space is bound to (`None` when the
/// knowledge space does not exist).
pub fn plan_publication_provisioning(
    space_id: u64,
    drive_space_uuid: &str,
    existing: Option<&WikiPublication>,
    space_drive_binding: Option<Option<&str>>,
) -> (result: Result<PublicationProvisionPlan, StoreError>)
    ensures
        match existing {
            Some(p) => if p.drive_space_uuid@ == drive_space_uuid@ {
                result == Ok::<PublicationProvisionPlan, StoreError>(PublicationProvisionPlan::Existing)
            } else {
                result matches Err(e) && e.is_conflict()
            },
            None => match space_drive_binding {
                None => result matches Err(e) && e is NotFound,
                Some(bound) => if bound matches Some(b) && b@ == drive_space_uuid@ {
                    result == Ok::<PublicationProvisionPlan, StoreError>(PublicationProvisionPlan::Create)
                } else {
                    result matches Err(StoreError::Conflict(m)) && m@ == not_bound_message(
                        space_id,
                        drive_space_uuid@,
                    )
                },
            },
        },
{
    if let Some(publication) = existing {
        ensure_publication_identity(publication, drive_space_uuid)?;
        return Ok(PublicationProvisionPlan::Existing);
    }
    match space_drive_binding {
        None => Err(StoreError::NotFound("knowledge_space".to_string())),
        Some(bound) => {
            let matches = match bound {
                Some(b) => str_eq(b, drive_space_uuid),
                None => false,
            };
            if !matches {
                let mut message = "knowledge space ".to_string();
                let digits = decimal_text(space_id);
                message.append(digits.as_str());
                message.append(" is not bound to Drive Space ");
                message.append(drive_space_uuid);
                return Err(StoreError::Conflict(message));
            }
            Ok(PublicationProvisionPlan::Create)
        },
    }
}

/// The publication is bound to exactly this raw root and scope.
pub open spec fn bound_to(p: WikiPublication, root: Seq<char>, scope: Seq<char>) -> bool {
    opt_view(p.source_root_node_uuid) == Some(root) && opt_view(p.source_scope_uuid) == Some(scope)
}

/// Binds the publication to its Drive raw scope once: a repeated binding to
/// the same scope returns it unchanged, another scope is refused, and a first
/// binding starts validation.
pub fn bind_source_scope(
    publication: WikiPublication,
    source_root_node_uuid: &str,
    source_scope_uuid: &str,
    expected_version: u64,
) -> (result: Result<WikiPublication, StoreError>)
    requires
        publication.version <= i64::MAX,
    ensures
        !required_text_ok(source_root_node_uuid@, 64) || !required_text_ok(source_scope_uuid@, 64)
            ==> (result matches Err(e) && e.is_invalid_request()),
        required_text_ok(source_root_node_uuid@, 64) && required_text_ok(source_scope_uuid@, 64)
            ==> if bound_to(publication, trimmed(source_root_node_uuid@), trimmed(source_scope_uuid@)) {
            result == Ok::<WikiPublication, StoreError>(publication)
        } else if publication.source_root_node_uuid is Some || publication.source_scope_uuid is Some {
            result matches Err(e) && e.is_conflict()
        } else if publication.version != expected_version {
            result matches Err(e) && e is StaleVersion
        } else {
            result matches Ok(p) && bound_to(p, trimmed(source_root_node_uuid@), trimmed(
                source_scope_uuid@,
            )) && p.wiki_status == WikiPublicationStatus::Validating && p.version
                == publication.version + 1 && p.id == publication.id && p.space_id
                == publication.space_id && p.provider_generation == publication.provider_generation
        },
{
    let root = require_text("source_root_node_uuid", source_root_node_uuid, 64)?;
    let scope = require_text("source_scope_uuid", source_scope_uuid, 64)?;
    if opt_eq_str(&publication.source_root_node_uuid, root) && opt_eq_str(
        &publication.source_scope_uuid,
        scope,
    ) {
        return Ok(publication);
    }
    if publication.source_root_node_uuid.is_some() || publication.source_scope_uuid.is_some() {
        let mut message = crate::text::message_with_u64("Wiki publication ", publication.id);
        message.append(" is already bound to an immutable Drive raw scope");
        return Err(StoreError::Conflict(message));
    }
    if publication.version != expected_version {
        return Err(StoreError::StaleVersion { resource: "wiki_publication".to_string(), id: publication.id, expected: expected_version });
    }
    let mut next = publication;
    next.source_root_node_uuid = Some(root.to_string());
    next.source_scope_uuid = Some(scope.to_string());
    next.wiki_status = WikiPublicationStatus::Validating;
    next.version = next.version + 1;
    Ok(next)
}

} // verus!
