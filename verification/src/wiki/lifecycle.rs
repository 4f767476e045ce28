use vstd::prelude::*;
use crate::error::StoreError;
use crate::text::{blank, byte_len, opt_eq_str, opt_view, require_text, trimmed};
use crate::wiki::model::{
    ensure_expected_version, pins_current_version, require_id, validate_scope, WikiIndexState,
    WikiPagePublicationState, WikiPersistenceScope, WikiPublication, WikiPublicationStatus,
    WikiSourceProjection, WikiSourceState, WikiVisibility,
};

verus! {

/// What an operator asks of a publication.
#[derive(Debug, Clone, Copy, PartialEq, Eq, Structural)]
pub enum WikiPublicationLifecycleAction {
    Activate,
    Pause,
}

/// What an operator asks of a page.
#[derive(Debug, Clone, Copy, PartialEq, Eq, Structural)]
pub enum PageCommand {
    Publish(WikiVisibility),
    Unpublish,
    ChangeVisibility(WikiVisibility),
}

/// The operation name a page command is recorded under.
pub open spec fn page_operation(c: PageCommand) -> Seq<char> {
    match c {
        PageCommand::Publish(_) => seq!['P', 'U', 'B', 'L', 'I', 'S', 'H'],
        PageCommand::Unpublish => seq!['U', 'N', 'P', 'U', 'B', 'L', 'I', 'S', 'H'],
        PageCommand::ChangeVisibility(_) => seq![
            'V', 'I', 'S', 'I', 'B', 'I', 'L', 'I', 'T', 'Y', '_', 'C', 'H', 'A', 'N', 'G', 'E',
        ],
    }
}

impl PageCommand {
    /// The operation name of the command (`PUBLISH`, `UNPUBLISH`,
    /// `VISIBILITY_CHANGE`).
    pub fn as_operation(self) -> (result: &'static str)
        ensures
            result@ == page_operation(self),
    {
        match self {
            PageCommand::Publish(_) => {
                proof {
                    reveal_strlit("PUBLISH");
                }
                assert("PUBLISH"@ =~= page_operation(self));
                "PUBLISH"
            },
            PageCommand::Unpublish => {
                proof {
                    reveal_strlit("UNPUBLISH");
                }
                assert("UNPUBLISH"@ =~= page_operation(self));
                "UNPUBLISH"
            },
            PageCommand::ChangeVisibility(_) => {
                proof {
                    reveal_strlit("VISIBILITY_CHANGE");
                }
                assert("VISIBILITY_CHANGE"@ =~= page_operation(self));
                "VISIBILITY_CHANGE"
            },
        }
    }
}

/// The audit event a page command writes.
#[derive(Debug, Clone, Copy, PartialEq, Eq, Structural)]
pub enum PageAuditEvent {
    SourceFilePublished,
    SourceFileUnpublished,
    SourceFileVisibilityChanged,
}

impl PageAuditEvent {
    /// The audit event type of a page command.
    pub open spec fn spec_event_type(self) -> Seq<char> {
        match self {
            PageAuditEvent::SourceFilePublished => seq!['k', 'n', 'o', 'w', 'l', 'e', 'd', 'g', 'e', '.', 'w', 'i', 'k', 'i', '.', 's', 'o', 'u', 'r', 'c', 'e', '_', 'f', 'i', 'l', 'e', '.', 'p', 'u', 'b', 'l', 'i', 's', 'h', 'e', 'd'],
            PageAuditEvent::SourceFileUnpublished => seq!['k', 'n', 'o', 'w', 'l', 'e', 'd', 'g', 'e', '.', 'w', 'i', 'k', 'i', '.', 's', 'o', 'u', 'r', 'c', 'e', '_', 'f', 'i', 'l', 'e', '.', 'u', 'n', 'p', 'u', 'b', 'l', 'i', 's', 'h', 'e', 'd'],
            PageAuditEvent::SourceFileVisibilityChanged => seq!['k', 'n', 'o', 'w', 'l', 'e', 'd', 'g', 'e', '.', 'w', 'i', 'k', 'i', '.', 's', 'o', 'u', 'r', 'c', 'e', '_', 'f', 'i', 'l', 'e', '.', 'v', 'i', 's', 'i', 'b', 'i', 'l', 'i', 't', 'y', '_', 'c', 'h', 'a', 'n', 'g', 'e', 'd'],
        }
    }

    /// The audit event type of a page command.
    pub fn as_str(self) -> (result: &'static str)
        ensures
            result@ == self.spec_event_type(),
    {
        match self {
            PageAuditEvent::SourceFilePublished => {
                proof {
                    reveal_strlit("knowledge.wiki.source_file.published");
                }
                assert("knowledge.wiki.source_file.published"@ =~= self.spec_event_type());
                "knowledge.wiki.source_file.published"
            },
            PageAuditEvent::SourceFileUnpublished => {
                proof {
                    reveal_strlit("knowledge.wiki.source_file.unpublished");
                }
                assert("knowledge.wiki.source_file.unpublished"@ =~= self.spec_event_type());
                "knowledge.wiki.source_file.unpublished"
            },
            PageAuditEvent::SourceFileVisibilityChanged => {
                proof {
                    reveal_strlit("knowledge.wiki.source_file.visibility_changed");
                }
                assert("knowledge.wiki.source_file.visibility_changed"@ =~= self.spec_event_type());
                "knowledge.wiki.source_file.visibility_changed"
            },
        }
    }
}

/// The audit event of a page command.
pub fn page_audit_event(command: PageCommand) -> (result: PageAuditEvent)
    ensures
        result == match command {
            PageCommand::Publish(_) => PageAuditEvent::SourceFilePublished,
            PageCommand::Unpublish => PageAuditEvent::SourceFileUnpublished,
            PageCommand::ChangeVisibility(_) => PageAuditEvent::SourceFileVisibilityChanged,
        },
{
    match command {
        PageCommand::Publish(_) => PageAuditEvent::SourceFilePublished,
        PageCommand::Unpublish => PageAuditEvent::SourceFileUnpublished,
        PageCommand::ChangeVisibility(_) => PageAuditEvent::SourceFileVisibilityChanged,
    }
}

/// A command that would not change the page.
pub open spec fn command_is_noop(page: WikiSourceProjection, c: PageCommand) -> bool {
    match c {
        PageCommand::Publish(v) => page.publication_state == WikiPagePublicationState::Published
            && page.visibility == v && pins_current_version(page),
        PageCommand::Unpublish => page.publication_state != WikiPagePublicationState::Published,
        PageCommand::ChangeVisibility(v) => if v == WikiVisibility::Private {
            page.publication_state != WikiPagePublicationState::Published && page.visibility
                == WikiVisibility::Private
        } else {
            page.visibility == v
        },
    }
}

/// Whether a page command would leave the page as it is.
pub fn page_command_is_unchanged(page: &WikiSourceProjection, command: PageCommand) -> (result: bool)
    ensures
        result == command_is_noop(*page, command),
        command == PageCommand::Unpublish ==> (result <==> page.publication_state != WikiPagePublicationState::Published),
        command matches PageCommand::Publish(v) ==> (result ==> (page.publication_state == WikiPagePublicationState::Published
            && page.visibility == v)),
        (command matches PageCommand::Publish(_) && page.publication_state != WikiPagePublicationState::Published) ==> !result,
        command matches PageCommand::ChangeVisibility(v) ==> (page.visibility != v ==> !result),
{
    match command {
        PageCommand::Publish(visibility) => page.publication_state
            == WikiPagePublicationState::Published && page.visibility == visibility && opt_eq_str(
            &page.public_drive_version_uuid,
            page.drive_version_uuid.as_str(),
        ),
        PageCommand::Unpublish => page.publication_state != WikiPagePublicationState::Published,
        PageCommand::ChangeVisibility(visibility) => {
            if visibility == WikiVisibility::Private {
                page.publication_state != WikiPagePublicationState::Published && page.visibility
                    == WikiVisibility::Private
            } else {
                page.visibility == visibility
            }
        },
    }
}

/// A publication that can take a published page.
pub open spec fn publication_accepts_pages(s: WikiPublicationStatus) -> bool {
    s == WikiPublicationStatus::Ready || s == WikiPublicationStatus::Active || s
        == WikiPublicationStatus::Paused
}

/// A page that may be published: its source is ready, it has a non-empty
/// canonical route, and its index projection did not fail.
pub open spec fn page_publishable(page: WikiSourceProjection) -> bool {
    &&& page.source_state == WikiSourceState::Ready
    &&& (page.canonical_route matches Some(r) && r@.len() > 0)
    &&& page.index_state != WikiIndexState::Error
}

/// Checks that a page may be published in its publication.
pub fn validate_publish_eligibility(publication: &WikiPublication, page: &WikiSourceProjection) -> (result:
    Result<(), StoreError>)
    ensures
        result is Ok <==> (publication_accepts_pages(publication.wiki_status) && page_publishable(
            *page,
        )),
        result matches Err(e) ==> e.is_conflict(),
{
    match publication.wiki_status {
        WikiPublicationStatus::Ready | WikiPublicationStatus::Active
        | WikiPublicationStatus::Paused => {},
        _ => {
            return Err(
                StoreError::Conflict(
                    crate::text::message_with("Wiki page cannot publish while publication is ", publication.wiki_status.as_str()),
                ),
            );
        },
    }
    if page.source_state != WikiSourceState::Ready {
        return Err(StoreError::Conflict("Wiki page source must be READY before publication".to_string()));
    }
    let has_route = match &page.canonical_route {
        Some(route) => route.as_str().unicode_len() > 0,
        None => false,
    };
    if !has_route {
        return Err(StoreError::Conflict("Wiki page must have a canonical route before publication".to_string()));
    }
    if page.index_state == WikiIndexState::Error {
        return Err(StoreError::Conflict("Wiki page with a failed index projection cannot be published".to_string()));
    }
    Ok(())
}

/// The lifecycle columns a page command writes.
#[derive(Debug, Clone, Copy, PartialEq, Eq, Structural)]
pub struct PageUpdate {
    pub publication_state: WikiPagePublicationState,
    pub visibility: WikiVisibility,
    /// Pin the public Drive version to the current one (else clear it).
    pub pin_current_version: bool,
    /// Advance the page's public version.
    pub advance_public_version: bool,
}

/// The lifecycle columns a command writes on a page.
pub open spec fn page_update_for(page: WikiSourceProjection, c: PageCommand) -> PageUpdate {
    match c {
        PageCommand::Publish(v) => PageUpdate {
            publication_state: WikiPagePublicationState::Published,
            visibility: v,
            pin_current_version: true,
            advance_public_version: true,
        },
        PageCommand::Unpublish => PageUpdate {
            publication_state: WikiPagePublicationState::Unpublished,
            visibility: WikiVisibility::Private,
            pin_current_version: false,
            advance_public_version: true,
        },
        PageCommand::ChangeVisibility(v) => if v == WikiVisibility::Private
            && page.publication_state == WikiPagePublicationState::Published {
            PageUpdate {
                publication_state: WikiPagePublicationState::Unpublished,
                visibility: WikiVisibility::Private,
                pin_current_version: false,
                advance_public_version: true,
            }
        } else {
            PageUpdate {
                publication_state: page.publication_state,
                visibility: v,
                pin_current_version: page.publication_state == WikiPagePublicationState::Published,
                advance_public_version: page.publication_state
                    == WikiPagePublicationState::Published,
            }
        },
    }
}

/// Computes the lifecycle columns a command writes on a page.
pub fn page_update(page: &WikiSourceProjection, command: PageCommand) -> (result: PageUpdate)
    ensures
        result == page_update_for(*page, command),
        command matches PageCommand::Publish(v) ==> (result.publication_state == WikiPagePublicationState::Published
            && result.visibility == v && result.pin_current_version),
        command == PageCommand::Unpublish ==> (result.publication_state == WikiPagePublicationState::Unpublished
            && result.visibility == WikiVisibility::Private && !result.pin_current_version),
        command matches PageCommand::ChangeVisibility(v) ==> (v != WikiVisibility::Private ==> (
        result.publication_state == page.publication_state && result.visibility == v)),
        (command == PageCommand::ChangeVisibility(WikiVisibility::Private) && page.publication_state
            == WikiPagePublicationState::Published) ==> (result.publication_state == WikiPagePublicationState::Unpublished
            && result.visibility == WikiVisibility::Private),
{
    match command {
        PageCommand::Publish(visibility) => PageUpdate {
            publication_state: WikiPagePublicationState::Published,
            visibility,
            pin_current_version: true,
            advance_public_version: true,
        },
        PageCommand::Unpublish => PageUpdate {
            publication_state: WikiPagePublicationState::Unpublished,
            visibility: WikiVisibility::Private,
            pin_current_version: false,
            advance_public_version: true,
        },
        PageCommand::ChangeVisibility(visibility) => {
            let published = page.publication_state == WikiPagePublicationState::Published;
            if visibility == WikiVisibility::Private && published {
                PageUpdate {
                    publication_state: WikiPagePublicationState::Unpublished,
                    visibility: WikiVisibility::Private,
                    pin_current_version: false,
                    advance_public_version: true,
                }
            } else {
                PageUpdate {
                    publication_state: page.publication_state,
                    visibility,
                    pin_current_version: published,
                    advance_public_version: published,
                }
            }
        },
    }
}

/// The page once an update was written: new lifecycle columns, the public
/// Drive version pinned or cleared, public version and row version advanced.
pub open spec fn page_updated(page: WikiSourceProjection, u: PageUpdate) -> WikiSourceProjection {
    WikiSourceProjection {
        publication_state: u.publication_state,
        visibility: u.visibility,
        public_drive_version_uuid: if u.pin_current_version {
            Some(page.drive_version_uuid)
        } else {
            None
        },
        page_public_version: if u.advance_public_version {
            (page.page_public_version + 1) as u64
        } else {
            page.page_public_version
        },
        version: (page.version + 1) as u64,
        ..page
    }
}

/// Counters of a page fit the signed BIGINT columns.
pub open spec fn page_wf(page: WikiSourceProjection) -> bool {
    page.version <= i64::MAX && page.page_public_version <= i64::MAX
}

/// Writes a lifecycle update into a page.
pub fn apply_page_update(page: WikiSourceProjection, update: PageUpdate) -> (result:
    WikiSourceProjection)
    requires
        page_wf(page),
    ensures
        result == page_updated(page, update),
        result.publication_state == update.publication_state,
        result.visibility == update.visibility,
        update.pin_current_version ==> result.public_drive_version_uuid == Some(page.drive_version_uuid),
        !update.pin_current_version ==> result.public_drive_version_uuid is None,
        update.advance_public_version ==> result.page_public_version == page.page_public_version + 1,
        !update.advance_public_version ==> result.page_public_version == page.page_public_version,
        result.version == page.version + 1,
        result.id == page.id && result.drive_node_uuid == page.drive_node_uuid,
        result.drive_version_uuid == page.drive_version_uuid,
{
    let mut next = page;
    next.publication_state = update.publication_state;
    next.visibility = update.visibility;
    next.public_drive_version_uuid = if update.pin_current_version {
        Some(next.drive_version_uuid.clone())
    } else {
        None
    };
    if update.advance_public_version {
        next.page_public_version = next.page_public_version + 1;
    }
    next.version = next.version + 1;
    next
}

/// How a page command proceeds.
#[derive(Debug, Clone, Copy, PartialEq, Eq, Structural)]
pub enum PagePlan {
    /// The page already is as the command asks: audit only.
    Unchanged,
    /// Write this update.
    Change(PageUpdate),
}

/// Decides a page command against the loaded publication and page, after the
/// optimistic version checks of both.
pub fn plan_page_command(
    publication: &WikiPublication,
    page: &WikiSourceProjection,
    command: PageCommand,
    expected_publication_version: u64,
    expected_page_version: u64,
) -> (result: Result<PagePlan, StoreError>)
    ensures
        publication.version != expected_publication_version ==> (result matches Err(e)
            && e is StaleVersion),
        publication.version == expected_publication_version && page.version
            != expected_page_version ==> (result matches Err(e) && e is StaleVersion),
        publication.version == expected_publication_version && page.version
            == expected_page_version ==> if command_is_noop(*page, command) {
            result == Ok::<PagePlan, StoreError>(PagePlan::Unchanged)
        } else if command is Publish && !(publication_accepts_pages(publication.wiki_status)
            && page_publishable(*page)) {
            result matches Err(e) && e.is_conflict()
        } else {
            result == Ok::<PagePlan, StoreError>(PagePlan::Change(page_update_for(*page, command)))
        },
{
    ensure_expected_version(
        "wiki_publication",
        publication.id,
        publication.version,
        expected_publication_version,
    )?;
    ensure_expected_version("wiki_source_file", page.id, page.version, expected_page_version)?;
    if page_command_is_unchanged(page, command) {
        return Ok(PagePlan::Unchanged);
    }
    if let PageCommand::Publish(_) = command {
        validate_publish_eligibility(publication, page)?;
    }
    Ok(PagePlan::Change(page_update(page, command)))
}

/// The route event a page change publishes.
#[derive(Debug, Clone, Copy, PartialEq, Eq, Structural)]
pub enum RouteEvent {
    /// `knowledgebase.wiki.route.changed.v1`
    RouteChanged,
    /// `knowledgebase.wiki.route.revoked.v1`
    RouteRevoked,
}

/// The operation a route event carries.
#[derive(Debug, Clone, Copy, PartialEq, Eq, Structural)]
pub enum RouteOperation {
    Publish,
    Republish,
    Unpublish,
    VisibilityPrivate,
    VisibilityChange,
}

impl RouteEvent {
    /// The outbox event type of the route event.
    pub open spec fn spec_event_type(self) -> Seq<char> {
        match self {
            RouteEvent::RouteChanged => seq!['k', 'n', 'o', 'w', 'l', 'e', 'd', 'g', 'e', 'b', 'a', 's', 'e', '.', 'w', 'i', 'k', 'i', '.', 'r', 'o', 'u', 't', 'e', '.', 'c', 'h', 'a', 'n', 'g', 'e', 'd', '.', 'v', '1'],
            RouteEvent::RouteRevoked => seq!['k', 'n', 'o', 'w', 'l', 'e', 'd', 'g', 'e', 'b', 'a', 's', 'e', '.', 'w', 'i', 'k', 'i', '.', 'r', 'o', 'u', 't', 'e', '.', 'r', 'e', 'v', 'o', 'k', 'e', 'd', '.', 'v', '1'],
        }
    }

    /// The outbox event type of the route event.
    pub fn as_str(self) -> (result: &'static str)
        ensures
            result@ == self.spec_event_type(),
    {
        match self {
            RouteEvent::RouteChanged => {
                proof {
                    reveal_strlit("knowledgebase.wiki.route.changed.v1");
                }
                assert("knowledgebase.wiki.route.changed.v1"@ =~= self.spec_event_type());
                "knowledgebase.wiki.route.changed.v1"
            },
            RouteEvent::RouteRevoked => {
                proof {
                    reveal_strlit("knowledgebase.wiki.route.revoked.v1");
                }
                assert("knowledgebase.wiki.route.revoked.v1"@ =~= self.spec_event_type());
                "knowledgebase.wiki.route.revoked.v1"
            },
        }
    }
}

impl RouteOperation {
    /// The operation name a route event carries.
    pub open spec fn spec_operation(self) -> Seq<char> {
        match self {
            RouteOperation::Publish => seq!['P', 'U', 'B', 'L', 'I', 'S', 'H'],
            RouteOperation::Republish => seq!['R', 'E', 'P', 'U', 'B', 'L', 'I', 'S', 'H'],
            RouteOperation::Unpublish => seq!['U', 'N', 'P', 'U', 'B', 'L', 'I', 'S', 'H'],
            RouteOperation::VisibilityPrivate => seq!['V', 'I', 'S', 'I', 'B', 'I', 'L', 'I', 'T', 'Y', '_', 'P', 'R', 'I', 'V', 'A', 'T', 'E'],
            RouteOperation::VisibilityChange => seq!['V', 'I', 'S', 'I', 'B', 'I', 'L', 'I', 'T', 'Y', '_', 'C', 'H', 'A', 'N', 'G', 'E'],
        }
    }

    /// The operation name a route event carries.
    pub fn as_str(self) -> (result: &'static str)
        ensures
            result@ == self.spec_operation(),
    {
        match self {
            RouteOperation::Publish => {
                proof {
                    reveal_strlit("PUBLISH");
                }
                assert("PUBLISH"@ =~= self.spec_operation());
                "PUBLISH"
            },
            RouteOperation::Republish => {
                proof {
                    reveal_strlit("REPUBLISH");
                }
                assert("REPUBLISH"@ =~= self.spec_operation());
                "REPUBLISH"
            },
            RouteOperation::Unpublish => {
                proof {
                    reveal_strlit("UNPUBLISH");
                }
                assert("UNPUBLISH"@ =~= self.spec_operation());
                "UNPUBLISH"
            },
            RouteOperation::VisibilityPrivate => {
                proof {
                    reveal_strlit("VISIBILITY_PRIVATE");
                }
                assert("VISIBILITY_PRIVATE"@ =~= self.spec_operation());
                "VISIBILITY_PRIVATE"
            },
            RouteOperation::VisibilityChange => {
                proof {
                    reveal_strlit("VISIBILITY_CHANGE");
                }
                assert("VISIBILITY_CHANGE"@ =~= self.spec_operation());
                "VISIBILITY_CHANGE"
            },
        }
    }
}

/// The route event and operation of a page change.
pub open spec fn route_event_of(c: PageCommand, old_public: bool) -> (RouteEvent, RouteOperation) {
    match c {
        PageCommand::Publish(_) => if old_public {
            (RouteEvent::RouteChanged, RouteOperation::Republish)
        } else {
            (RouteEvent::RouteChanged, RouteOperation::Publish)
        },
        PageCommand::Unpublish => (RouteEvent::RouteRevoked, RouteOperation::Unpublish),
        PageCommand::ChangeVisibility(v) => if v == WikiVisibility::Private && old_public {
            (RouteEvent::RouteRevoked, RouteOperation::VisibilityPrivate)
        } else {
            (RouteEvent::RouteChanged, RouteOperation::VisibilityChange)
        },
    }
}

/// Picks the route event and operation of a page change.
pub fn page_event(command: PageCommand, old_public: bool, new_public: bool) -> (result: (
    RouteEvent,
    RouteOperation,
))
    ensures
        result == route_event_of(command, old_public),
        command == PageCommand::Unpublish ==> result == (RouteEvent::RouteRevoked, RouteOperation::Unpublish),
        command matches PageCommand::Publish(_) ==> (result.0 == RouteEvent::RouteChanged && (old_public ==> result.1
            == RouteOperation::Republish) && (!old_public ==> result.1 == RouteOperation::Publish)),
        command matches PageCommand::ChangeVisibility(v) ==> ((result.0 == RouteEvent::RouteRevoked <==> (v
            == WikiVisibility::Private && old_public)) && (result.0 == RouteEvent::RouteRevoked ==> result.1
            == RouteOperation::VisibilityPrivate) && (result.0 == RouteEvent::RouteChanged ==> result.1
            == RouteOperation::VisibilityChange)),
{
    match command {
        PageCommand::Publish(_) => if old_public {
            (RouteEvent::RouteChanged, RouteOperation::Republish)
        } else {
            (RouteEvent::RouteChanged, RouteOperation::Publish)
        },
        PageCommand::Unpublish => (RouteEvent::RouteRevoked, RouteOperation::Unpublish),
        PageCommand::ChangeVisibility(visibility) => {
            if visibility == WikiVisibility::Private && old_public {
                (RouteEvent::RouteRevoked, RouteOperation::VisibilityPrivate)
            } else {
                (RouteEvent::RouteChanged, RouteOperation::VisibilityChange)
            }
        },
    }
}

/// What a written page change publishes besides its audit entry.
#[derive(Debug, Clone, Copy, PartialEq, Eq, Structural)]
pub struct PageChangeEffects {
    /// Whether any outbox event is written (the page was or became public).
    pub emits_events: bool,
    /// Whether navigation and search generations advance (and their change
    /// events are written): a publicly listed page appeared or disappeared.
    pub advances_navigation_and_search: bool,
    pub route_event: RouteEvent,
    pub operation: RouteOperation,
    /// Whether the route event names the page's former route (revocations).
    pub uses_old_route: bool,
}

/// The effects of a page change from the page before and after.
pub open spec fn page_change_effects(
    c: PageCommand,
    old_page: WikiSourceProjection,
    new_page: WikiSourceProjection,
) -> PageChangeEffects {
    let old_public = old_page.publication_state == WikiPagePublicationState::Published;
    let new_public = new_page.publication_state == WikiPagePublicationState::Published;
    let (event, operation) = route_event_of(c, old_public);
    PageChangeEffects {
        emits_events: old_public || new_public,
        advances_navigation_and_search: (old_public && old_page.visibility == WikiVisibility::Public)
            || (new_public && new_page.visibility == WikiVisibility::Public),
        route_event: event,
        operation,
        uses_old_route: event == RouteEvent::RouteRevoked,
    }
}

/// Decides the outbox effects of a written page change.
pub fn decide_page_change_effects(
    command: PageCommand,
    old_page: &WikiSourceProjection,
    new_page: &WikiSourceProjection,
) -> (result: PageChangeEffects)
    ensures
        result == page_change_effects(command, *old_page, *new_page),
        old_page.publication_state == WikiPagePublicationState::Published && old_page.visibility
            == WikiVisibility::Public ==> result.advances_navigation_and_search,
        new_page.publication_state == WikiPagePublicationState::Published && new_page.visibility
            == WikiVisibility::Public ==> result.advances_navigation_and_search,
        result.advances_navigation_and_search ==> (old_page.publication_state
            == WikiPagePublicationState::Published && old_page.visibility == WikiVisibility::Public)
            || (new_page.publication_state == WikiPagePublicationState::Published
            && new_page.visibility == WikiVisibility::Public),
        result.emits_events <==> (old_page.publication_state == WikiPagePublicationState::Published
            || new_page.publication_state == WikiPagePublicationState::Published),
        result.advances_navigation_and_search ==> result.emits_events,
{
    let old_public = old_page.publication_state == WikiPagePublicationState::Published;
    let new_public = new_page.publication_state == WikiPagePublicationState::Published;
    let (route_event, operation) = page_event(command, old_public, new_public);
    PageChangeEffects {
        emits_events: old_public || new_public,
        advances_navigation_and_search: (old_public && old_page.visibility
            == WikiVisibility::Public) || (new_public && new_page.visibility
            == WikiVisibility::Public),
        route_event,
        operation,
        uses_old_route: route_event == RouteEvent::RouteRevoked,
    }
}

/// Counters of a publication fit the signed BIGINT columns.
pub open spec fn publication_wf(p: WikiPublication) -> bool {
    &&& p.version <= i64::MAX
    &&& p.provider_generation <= i64::MAX
    &&& p.navigation_generation <= i64::MAX
    &&& p.search_generation <= i64::MAX
}

/// The publication once navigation and search generations advanced.
pub open spec fn generations_advanced(p: WikiPublication) -> WikiPublication {
    WikiPublication {
        navigation_generation: (p.navigation_generation + 1) as u64,
        search_generation: (p.search_generation + 1) as u64,
        version: (p.version + 1) as u64,
        ..p
    }
}

/// Advances the navigation and search generations of a publication.
pub fn advance_navigation_and_search_generations(publication: WikiPublication) -> (result:
    WikiPublication)
    requires
        publication_wf(publication),
    ensures
        result == generations_advanced(publication),
        result.navigation_generation == publication.navigation_generation + 1,
        result.search_generation == publication.search_generation + 1,
        result.version == publication.version + 1,
        result.provider_generation == publication.provider_generation,
        result.wiki_status == publication.wiki_status,
        result.last_projected_drive_checkpoint == publication.last_projected_drive_checkpoint,
{
    let mut next = publication;
    next.navigation_generation = next.navigation_generation + 1;
    next.search_generation = next.search_generation + 1;
    next.version = next.version + 1;
    next
}

/// The status an action moves a publication to.
pub open spec fn action_target(a: WikiPublicationLifecycleAction) -> WikiPublicationStatus {
    match a {
        WikiPublicationLifecycleAction::Activate => WikiPublicationStatus::Active,
        WikiPublicationLifecycleAction::Pause => WikiPublicationStatus::Paused,
    }
}

/// A transition the publication lifecycle allows: activation needs bound
/// sources and a ready or paused publication; pausing needs an active or
/// degraded one.
pub open spec fn transition_allowed(p: WikiPublication, a: WikiPublicationLifecycleAction) -> bool {
    match a {
        WikiPublicationLifecycleAction::Activate => p.source_root_node_uuid is Some
            && p.source_scope_uuid is Some && (p.wiki_status == WikiPublicationStatus::Ready
            || p.wiki_status == WikiPublicationStatus::Paused),
        WikiPublicationLifecycleAction::Pause => p.wiki_status == WikiPublicationStatus::Active
            || p.wiki_status == WikiPublicationStatus::Degraded,
    }
}

/// Why the lifecycle refuses an action: an activation needs the bound raw
/// sources first, then a ready or paused publication; a pause needs an active
/// or degraded one. The status is named by its database code.
pub open spec fn transition_refused_message(p: WikiPublication, a: WikiPublicationLifecycleAction) -> Seq<char> {
    match a {
        WikiPublicationLifecycleAction::Activate => if p.source_root_node_uuid is None
            || p.source_scope_uuid is None {
            "Wiki publication must be bound to sources/raw before activation"@
        } else {
            "Wiki publication cannot activate from "@ + p.wiki_status.spec_code()
        },
        WikiPublicationLifecycleAction::Pause => "Wiki publication cannot pause from "@
            + p.wiki_status.spec_code(),
    }
}

/// Checks that the publication lifecycle allows an action.
pub fn validate_publication_transition(
    publication: &WikiPublication,
    action: WikiPublicationLifecycleAction,
) -> (result: Result<(), StoreError>)
    ensures
        result is Ok <==> transition_allowed(*publication, action),
        action == WikiPublicationLifecycleAction::Pause ==> (result is Ok <==> (publication.wiki_status
            == WikiPublicationStatus::Active || publication.wiki_status == WikiPublicationStatus::Degraded)),
        action == WikiPublicationLifecycleAction::Activate ==> (result is Ok <==> (
        publication.source_root_node_uuid is Some && publication.source_scope_uuid is Some && (
        publication.wiki_status == WikiPublicationStatus::Ready || publication.wiki_status
            == WikiPublicationStatus::Paused))),
        result matches Err(e) ==> (e matches StoreError::Conflict(m) && m@ == transition_refused_message(
            *publication,
            action,
        )),
{
    match action {
        WikiPublicationLifecycleAction::Activate => {
            if publication.source_root_node_uuid.is_none() || publication.source_scope_uuid.is_none() {
                return Err(StoreError::Conflict("Wiki publication must be bound to sources/raw before activation".to_string()));
            }
            match publication.wiki_status {
                WikiPublicationStatus::Ready | WikiPublicationStatus::Paused => Ok(()),
                _ => {
                    let mut message = "Wiki publication cannot activate from ".to_string();
                    message.append(publication.wiki_status.as_str());
                    Err(StoreError::Conflict(message))
                },
            }
        },
        WikiPublicationLifecycleAction::Pause => match publication.wiki_status {
            WikiPublicationStatus::Active | WikiPublicationStatus::Degraded => Ok(()),
            _ => {
                let mut message = "Wiki publication cannot pause from ".to_string();
                message.append(publication.wiki_status.as_str());
                Err(StoreError::Conflict(message))
            },
        },
    }
}

/// How a publication status change proceeds.
#[derive(Debug, Clone, Copy, PartialEq, Eq, Structural)]
pub enum StatusPlan {
    /// The publication already has the target status: audit only.
    Unchanged,
    /// Move to the target status.
    Change(WikiPublicationStatus),
}

/// Decides a publication status change after its optimistic version check.
pub fn plan_publication_status_change(
    publication: &WikiPublication,
    action: WikiPublicationLifecycleAction,
    expected_version: u64,
) -> (result: Result<StatusPlan, StoreError>)
    ensures
        publication.version != expected_version ==> (result matches Err(e) && e is StaleVersion),
        publication.version == expected_version ==> if publication.wiki_status == action_target(
            action,
        ) {
            result == Ok::<StatusPlan, StoreError>(StatusPlan::Unchanged)
        } else if !transition_allowed(*publication, action) {
            result matches Err(e) && e.is_conflict()
        } else {
            result == Ok::<StatusPlan, StoreError>(StatusPlan::Change(action_target(action)))
        },
{
    ensure_expected_version("wiki_publication", publication.id, publication.version, expected_version)?;
    let target = match action {
        WikiPublicationLifecycleAction::Activate => WikiPublicationStatus::Active,
        WikiPublicationLifecycleAction::Pause => WikiPublicationStatus::Paused,
    };
    if publication.wiki_status == target {
        return Ok(StatusPlan::Unchanged);
    }
    validate_publication_transition(publication, action)?;
    Ok(StatusPlan::Change(target))
}

/// The publication once its status changed: the provider generation
/// advances so that readers refresh.
pub open spec fn status_changed(p: WikiPublication, target: WikiPublicationStatus) -> WikiPublication {
    WikiPublication {
        wiki_status: target,
        provider_generation: (p.provider_generation + 1) as u64,
        version: (p.version + 1) as u64,
        ..p
    }
}

/// Writes a status change into a publication.
pub fn apply_publication_status(publication: WikiPublication, target: WikiPublicationStatus) -> (result:
    WikiPublication)
    requires
        publication_wf(publication),
    ensures
        result == status_changed(publication, target),
        result.wiki_status == target,
        result.provider_generation == publication.provider_generation + 1,
        result.version == publication.version + 1,
        result.navigation_generation == publication.navigation_generation,
        result.search_generation == publication.search_generation,
        result.last_projected_drive_checkpoint == publication.last_projected_drive_checkpoint,
{
    let mut next = publication;
    next.wiki_status = target;
    next.provider_generation = next.provider_generation + 1;
    next.version = next.version + 1;
    next
}

/// Request identity of an operator action, kept in the audit log.
#[derive(Debug, Clone)]
pub struct WikiLifecycleAuditContext {
    pub request_id: String,
    pub trace_id: Option<String>,
}

/// A required text once trimmed: not empty and at most `max` bytes.
pub open spec fn required_text_ok(value: Seq<char>, max: nat) -> bool {
    !blank(value) && byte_len(trimmed(value)) <= max
}

/// A valid audit context: a request id of at most 128 bytes and, if given, a
/// trace id of at most 128 bytes.
pub open spec fn audit_context_ok(a: WikiLifecycleAuditContext) -> bool {
    required_text_ok(a.request_id@, 128) && (a.trace_id matches Some(t) ==> required_text_ok(
        t@,
        128,
    ))
}

/// Validates the audit context of an operator action.
pub fn validate_audit_context(audit: &WikiLifecycleAuditContext) -> (result: Result<(), StoreError>)
    ensures
        result is Ok <==> audit_context_ok(*audit),
        result matches Err(e) ==> e.is_invalid_request(),
{
    require_text("audit.request_id", audit.request_id.as_str(), 128)?;
    if let Some(trace_id) = &audit.trace_id {
        require_text("audit.trace_id", trace_id.as_str(), 128)?;
    }
    Ok(())
}

/// A valid page command request.
pub open spec fn page_request_ok(
    scope: WikiPersistenceScope,
    space_id: u64,
    source_file_uuid: Seq<char>,
    actor_id: u64,
    audit: WikiLifecycleAuditContext,
) -> bool {
    &&& scope.tenant_id != 0
    &&& 0 < space_id <= i64::MAX
    &&& 0 < actor_id <= i64::MAX
    &&& required_text_ok(source_file_uuid, 64)
    &&& audit_context_ok(audit)
}

/// Validates the identity part of a page command request.
pub fn validate_page_request(
    scope: WikiPersistenceScope,
    space_id: u64,
    source_file_uuid: &str,
    actor_id: u64,
    audit: &WikiLifecycleAuditContext,
) -> (result: Result<(), StoreError>)
    ensures
        result is Ok <==> page_request_ok(scope, space_id, source_file_uuid@, actor_id, *audit),
        result matches Err(e) ==> e.is_invalid_request(),
{
    validate_scope(scope)?;
    require_id("space_id", space_id)?;
    require_id("actor_id", actor_id)?;
    require_text("source_file_uuid", source_file_uuid, 64)?;
    validate_audit_context(audit)?;
    Ok(())
}

/// Publishing asks for a reachable page: public or unlisted.
pub fn validate_publish_visibility(visibility: WikiVisibility) -> (result: Result<(), StoreError>)
    ensures
        result is Ok <==> visibility != WikiVisibility::Private,
        result matches Err(e) ==> e.is_invalid_request(),
{
    if visibility == WikiVisibility::Private {
        return Err(StoreError::InvalidRequest("publishing requires PUBLIC or UNLISTED visibility".to_string()));
    }
    Ok(())
}

/// Law: page commands are idempotent. Once a command changed a page, the same
/// command against the new page is recognized as changing nothing.
pub proof fn page_command_is_idempotent(page: WikiSourceProjection, c: PageCommand)
    ensures
        command_is_noop(page_updated(page, page_update_for(page, c)), c),
{
    let next = page_updated(page, page_update_for(page, c));
    match c {
        PageCommand::Publish(_) => {
            assert(opt_view(next.public_drive_version_uuid) == Some(next.drive_version_uuid@));
        },
        _ => {},
    }
}

/// Law: the public version of a page never goes back, and it moves exactly
/// when the page enters, leaves or changes while in public service.
pub proof fn page_public_version_is_monotone(page: WikiSourceProjection, c: PageCommand)
    requires
        page_wf(page),
    ensures
        page_updated(page, page_update_for(page, c)).page_public_version >= page.page_public_version,
        page_updated(page, page_update_for(page, c)).version == page.version + 1,
        (page_update_for(page, c).publication_state == WikiPagePublicationState::Published
            || page.publication_state == WikiPagePublicationState::Published) ==> page_updated(
            page,
            page_update_for(page, c),
        ).page_public_version == page.page_public_version + 1,
{
}

/// Law: publishing then unpublishing leaves the page unpublished, private and
/// without a public Drive version, two public versions further on.
pub proof fn publish_then_unpublish(page: WikiSourceProjection, v: WikiVisibility)
    requires
        page.page_public_version + 2 <= u64::MAX,
        page.version + 2 <= u64::MAX,
    ensures
        ({
            let published = page_updated(page, page_update_for(page, PageCommand::Publish(v)));
            let unpublished = page_updated(
                published,
                page_update_for(published, PageCommand::Unpublish),
            );
            &&& unpublished.publication_state == WikiPagePublicationState::Unpublished
            &&& unpublished.visibility == WikiVisibility::Private
            &&& unpublished.public_drive_version_uuid is None
            &&& unpublished.page_public_version == page.page_public_version + 2
        }),
{
}

/// Law: status changes are idempotent and reversible. After a change the same
/// action finds nothing to do; activating a paused publication and pausing
/// it again are both allowed.
pub proof fn status_change_is_idempotent(p: WikiPublication, a: WikiPublicationLifecycleAction)
    ensures
        status_changed(p, action_target(a)).wiki_status == action_target(a),
        transition_allowed(p, WikiPublicationLifecycleAction::Activate) ==> transition_allowed(
            status_changed(p, WikiPublicationStatus::Active),
            WikiPublicationLifecycleAction::Pause,
        ),
        p.wiki_status == WikiPublicationStatus::Active ==> transition_allowed(
            status_changed(p, WikiPublicationStatus::Paused),
            WikiPublicationLifecycleAction::Activate,
        ) == (p.source_root_node_uuid is Some && p.source_scope_uuid is Some),
{
}

/// A page that navigation and search list: published with public
/// visibility.
pub open spec fn publicly_listed(p: WikiSourceProjection) -> bool {
    p.publication_state == WikiPagePublicationState::Published && p.visibility == WikiVisibility::Public
}

/// Law: navigation and search follow the publicly listed pages. A change
/// advances their generations exactly when the page was listed before or is
/// listed after, so a page that leaves the listing (unpublished, or made
/// unlisted or private) is dropped from navigation and search at once; every
/// such change also writes events.
pub proof fn listing_changes_advance_navigation(
    c: PageCommand,
    old_page: WikiSourceProjection,
    new_page: WikiSourceProjection,
)
    ensures
        page_change_effects(c, old_page, new_page).advances_navigation_and_search <==> (
        publicly_listed(old_page) || publicly_listed(new_page)),
        publicly_listed(old_page) && !publicly_listed(new_page) ==> page_change_effects(
            c,
            old_page,
            new_page,
        ).advances_navigation_and_search,
        page_change_effects(c, old_page, new_page).advances_navigation_and_search ==> page_change_effects(
            c,
            old_page,
            new_page,
        ).emits_events,
{
}

/// Law: pausing is allowed from an active and from a degraded publication,
/// and from no other status; activation needs bound raw sources and a ready
/// or paused publication.
pub proof fn publication_transitions(p: WikiPublication)
    ensures
        transition_allowed(p, WikiPublicationLifecycleAction::Pause) <==> (p.wiki_status
            == WikiPublicationStatus::Active || p.wiki_status == WikiPublicationStatus::Degraded),
        transition_allowed(p, WikiPublicationLifecycleAction::Activate) <==> (p.source_root_node_uuid is Some
            && p.source_scope_uuid is Some && (p.wiki_status == WikiPublicationStatus::Ready
            || p.wiki_status == WikiPublicationStatus::Paused)),
{
}

/// Law: page commands do what they name. Publishing puts the page in
/// service at the requested visibility and pins its current Drive version;
/// unpublishing takes it out of service and makes it private; a visibility
/// change keeps the page's service state unless it makes a served page
/// private, which takes it out of service. A command is a no-op exactly when
/// the page already is where the command would put it.
pub proof fn page_commands_do_what_they_name(page: WikiSourceProjection, c: PageCommand)
    ensures
        c matches PageCommand::Publish(v) ==> (page_update_for(page, c).publication_state == WikiPagePublicationState::Published
            && page_update_for(page, c).visibility == v && page_update_for(page, c).pin_current_version),
        c == PageCommand::Unpublish ==> (page_update_for(page, c).publication_state == WikiPagePublicationState::Unpublished
            && page_update_for(page, c).visibility == WikiVisibility::Private),
        c matches PageCommand::ChangeVisibility(v) ==> (v != WikiVisibility::Private ==> (page_update_for(
            page,
            c,
        ).publication_state == page.publication_state && page_update_for(page, c).visibility == v)),
        (c == PageCommand::ChangeVisibility(WikiVisibility::Private) && page.publication_state
            == WikiPagePublicationState::Published) ==> page_update_for(page, c).publication_state == WikiPagePublicationState::Unpublished,
        c == PageCommand::Unpublish ==> (command_is_noop(page, c) <==> page.publication_state
            != WikiPagePublicationState::Published),
        c matches PageCommand::Publish(v) ==> (command_is_noop(page, c) ==> (page.publication_state
            == WikiPagePublicationState::Published && page.visibility == v)),
        c matches PageCommand::ChangeVisibility(v) ==> (page.visibility != v ==> !command_is_noop(page, c)),
{
}

} // verus!
