//! The run as a state machine over plain values: which operation is asked of
//! the gateway next, and what an answer changes.
//!
//! The accounts are taken in the order of the plan, and the rows of one
//! account in the order of their keys: the organization, if the account has
//! one, then the access level, then the user, and at last the owner of the
//! organization, which can only be set once the user exists.

use crate::account::AccountView;
use crate::error::SeedError;
use crate::models::{AccessLevelView, OrganizationView, UserView};
use crate::schema::Table;
use crate::values::{AccessLevelValuesView, OrganizationValuesView, UserValuesView};
use vstd::prelude::*;

verus! {

/// What the gateway answers to an operation.
#[derive(Debug, Clone, Copy, PartialEq, Eq, Structural)]
pub enum Event {
    /// The row was created; the database assigned it `id` and `created_at`.
    Inserted { id: i32, created_at: i64 },
    /// The update was carried out.
    Updated,
    /// The operation failed.
    Failed,
}

/// An operation that is asked of the gateway.
#[allow(inconsistent_fields)]
pub ghost enum ActionView {
    InsertOrganization { values: OrganizationValuesView },
    InsertAccessLevel { values: AccessLevelValuesView, organization_id: Option<i32> },
    InsertUser { values: UserValuesView, organization_id: Option<i32>, access_level_id: i32 },
    SetOrganizationOwner { organization_id: i32, owner_id: i32 },
}

impl ActionView {
    /// The table that the operation writes.
    pub open spec fn table(self) -> Table {
        match self {
            ActionView::InsertOrganization { .. } => Table::Organization,
            ActionView::InsertAccessLevel { .. } => Table::AccessLevel,
            ActionView::InsertUser { .. } => Table::User,
            ActionView::SetOrganizationOwner { .. } => Table::Organization,
        }
    }

    /// The error that a failure of the operation is reported as.
    pub open spec fn failure(self) -> SeedError {
        match self {
            ActionView::SetOrganizationOwner { .. } => SeedError::UpdateFailed(self.table()),
            _ => SeedError::InsertFailed(self.table()),
        }
    }

    /// The keys into other tables that the operation writes, each with its
    /// table.
    pub open spec fn keys(self) -> Seq<(Table, i32)> {
        match self {
            ActionView::InsertOrganization { .. } => seq![],
            ActionView::InsertAccessLevel { organization_id, .. } => match organization_id {
                Some(id) => seq![(Table::Organization, id)],
                None => seq![],
            },
            ActionView::InsertUser { organization_id, access_level_id, .. } => {
                let level = (Table::AccessLevel, access_level_id);
                match organization_id {
                    Some(id) => seq![level, (Table::Organization, id)],
                    None => seq![level],
                }
            },
            ActionView::SetOrganizationOwner { owner_id, .. } => seq![(Table::User, owner_id)],
        }
    }

    /// The identifier of the row that the operation changes, where it
    /// creates none.
    pub open spec fn target(self) -> Option<i32> {
        match self {
            ActionView::SetOrganizationOwner { organization_id, .. } => Some(organization_id),
            _ => None,
        }
    }

    /// Whether `event` is an answer to the operation.
    pub open spec fn answered_by(self, event: Event) -> bool {
        match event {
            Event::Inserted { .. } => !(self is SetOrganizationOwner),
            Event::Updated => self is SetOrganizationOwner,
            Event::Failed => true,
        }
    }
}

/// The rows of one account, all of them created.
pub ghost struct SeededView {
    pub organization: Option<OrganizationView>,
    pub access_level: AccessLevelView,
    pub user: UserView,
}

/// The rows of the account in progress.
#[allow(inconsistent_fields)]
pub ghost enum StageView {
    /// None of its rows exists.
    Start,
    /// Its organization exists.
    Organization { organization: OrganizationView },
    /// Its access level exists, and its organization if it has one.
    AccessLevel { organization: Option<OrganizationView>, access_level: AccessLevelView },
    /// Its three rows exist; the organization has no owner yet.
    User { organization: OrganizationView, access_level: AccessLevelView, user: UserView },
}

/// The identifier of an organization, if there is one.
pub open spec fn id_of(organization: Option<OrganizationView>) -> Option<i32> {
    match organization {
        Some(o) => Some(o.id),
        None => None,
    }
}

/// The operation that is asked next for the account `a` at the stage `stage`.
pub open spec fn next_action(a: AccountView, stage: StageView) -> ActionView {
    match stage {
        StageView::Start => match a.organization {
            Some(o) => ActionView::InsertOrganization { values: o.values },
            None => ActionView::InsertAccessLevel { values: a.access_level, organization_id: None },
        },
        StageView::Organization { organization } => ActionView::InsertAccessLevel {
            values: a.access_level,
            organization_id: Some(organization.id),
        },
        StageView::AccessLevel { organization, access_level } => ActionView::InsertUser {
            values: a.user,
            organization_id: id_of(organization),
            access_level_id: access_level.id,
        },
        StageView::User { organization, access_level, user } => ActionView::SetOrganizationOwner {
            organization_id: organization.id,
            owner_id: user.id,
        },
    }
}

/// The rows at `stage` are those that the account `a` asks for, with the
/// keys that the database assigned.
pub open spec fn stage_fits(a: AccountView, stage: StageView) -> bool {
    match stage {
        StageView::Start => true,
        StageView::Organization { organization } => {
            &&& a.organization matches Some(o)
            &&& organization == OrganizationView::created(
                o.values,
                organization.id,
                organization.created_at,
            )
        },
        StageView::AccessLevel { organization, access_level } => {
            &&& organization_fits(a, organization, None)
            &&& access_level == AccessLevelView::created(
                a.access_level,
                id_of(organization),
                access_level.id,
                access_level.created_at,
            )
        },
        StageView::User { organization, access_level, user } => {
            &&& a.owns()
            &&& organization_fits(a, Some(organization), None)
            &&& access_level == AccessLevelView::created(
                a.access_level,
                Some(organization.id),
                access_level.id,
                access_level.created_at,
            )
            &&& user == UserView::created(
                a.user,
                Some(organization.id),
                access_level.id,
                user.id,
                user.created_at,
            )
        },
    }
}

/// `organization` is the organization row of the account `a`, or `None` where
/// `a` has none, and `owner` is its owner.
pub open spec fn organization_fits(
    a: AccountView,
    organization: Option<OrganizationView>,
    owner: Option<i32>,
) -> bool {
    match (a.organization, organization) {
        (None, None) => true,
        (Some(o), Some(row)) => row == (OrganizationView {
            owner_id: owner,
            ..OrganizationView::created(o.values, row.id, row.created_at)
        }),
        _ => false,
    }
}

/// The rows `r` are those that the account `a` asks for, with the keys that
/// the database assigned: the access level is of the account's organization
/// or global where there is none, the user is of that organization and has
/// that access level, and the organization is owned by the user where the
/// account says so.
pub open spec fn seeded_fits(a: AccountView, r: SeededView) -> bool {
    &&& organization_fits(
        a,
        r.organization,
        if a.owns() {
            Some(r.user.id)
        } else {
            None
        },
    )
    &&& r.access_level == AccessLevelView::created(
        a.access_level,
        id_of(r.organization),
        r.access_level.id,
        r.access_level.created_at,
    )
    &&& r.user == UserView::created(
        a.user,
        id_of(r.organization),
        r.access_level.id,
        r.user.id,
        r.user.created_at,
    )
}

/// The organizations of the complete accounts, in the order of their
/// creation.
pub open spec fn organizations_of(done: Seq<SeededView>) -> Seq<OrganizationView>
    decreases done.len(),
{
    if done.len() == 0 {
        Seq::empty()
    } else {
        let before = organizations_of(done.drop_last());
        match done.last().organization {
            Some(o) => before.push(o),
            None => before,
        }
    }
}

/// The access levels of the complete accounts, in the order of their
/// creation.
pub open spec fn access_levels_of(done: Seq<SeededView>) -> Seq<AccessLevelView> {
    Seq::new(done.len(), |i: int| done[i].access_level)
}

/// The users of the complete accounts, in the order of their creation.
pub open spec fn users_of(done: Seq<SeededView>) -> Seq<UserView> {
    Seq::new(done.len(), |i: int| done[i].user)
}

/// The state of a run.
pub ghost struct SeederView {
    /// The accounts to seed, in their order.
    pub plan: Seq<AccountView>,
    /// The rows of the accounts that are complete: as many as the first
    /// accounts of the plan.
    pub done: Seq<SeededView>,
    /// The rows of the account in progress.
    pub stage: StageView,
    /// Why the run was given up, if it was.
    pub failure: Option<SeedError>,
}

impl SeederView {
    /// The state before anything was asked.
    pub open spec fn initial(plan: Seq<AccountView>) -> SeederView {
        SeederView { plan, done: Seq::empty(), stage: StageView::Start, failure: None }
    }

    /// Every account of the plan is complete.
    pub open spec fn complete(self) -> bool {
        self.done.len() >= self.plan.len()
    }

    /// The run has come to its end without a failure.
    pub open spec fn finished(self) -> bool {
        self.failure is None && self.complete()
    }

    /// The account in progress.
    pub open spec fn current(self) -> AccountView {
        self.plan[self.done.len() as int]
    }

    /// The operation that the gateway is asked for in this state, if any.
    pub open spec fn pending(self) -> Option<ActionView> {
        if self.failure is Some || self.complete() {
            None
        } else {
            Some(next_action(self.current(), self.stage))
        }
    }

    /// What the caller is told in this state: the failure, or what to do
    /// next.
    pub open spec fn outcome(self) -> Result<Option<ActionView>, SeedError> {
        match self.failure {
            Some(e) => Err(e),
            None => Ok(self.pending()),
        }
    }

    /// The state with the run given up for `e`.
    pub open spec fn failed(self, e: SeedError) -> SeederView {
        SeederView { failure: Some(e), ..self }
    }

    /// The state with the account in progress at `stage`.
    pub open spec fn at(self, stage: StageView) -> SeederView {
        SeederView { stage, ..self }
    }

    /// The state with the account in progress complete, its rows being `r`.
    pub open spec fn completed(self, r: SeededView) -> SeederView {
        SeederView { done: self.done.push(r), stage: StageView::Start, ..self }
    }

    /// The state after `event`.
    ///
    /// A run that was given up stays as it is. An event that answers no
    /// pending operation, or not the pending one, gives the run up, and so
    /// does a failure of the gateway. Otherwise the row that was asked for
    /// is taken down with the keys that the database assigned, and the run
    /// moves on to the account's next row or to the next account.
    pub open spec fn advance(self, event: Event) -> SeederView {
        if self.failure is Some {
            self
        } else if self.complete() {
            self.failed(SeedError::UnexpectedEvent)
        } else {
            let a = self.current();
            let action = next_action(a, self.stage);
            match event {
                Event::Failed => self.failed(action.failure()),
                Event::Updated => match self.stage {
                    StageView::User { organization, access_level, user } => self.completed(
                        SeededView {
                            organization: Some(organization.owned_by(user.id)),
                            access_level,
                            user,
                        },
                    ),
                    _ => self.failed(SeedError::UnexpectedEvent),
                },
                Event::Inserted { id, created_at } => match self.stage {
                    StageView::Start => match a.organization {
                        Some(o) => self.at(
                            StageView::Organization {
                                organization: OrganizationView::created(o.values, id, created_at),
                            },
                        ),
                        None => self.at(
                            StageView::AccessLevel {
                                organization: None,
                                access_level: AccessLevelView::created(
                                    a.access_level,
                                    None,
                                    id,
                                    created_at,
                                ),
                            },
                        ),
                    },
                    StageView::Organization { organization } => self.at(
                        StageView::AccessLevel {
                            organization: Some(organization),
                            access_level: AccessLevelView::created(
                                a.access_level,
                                Some(organization.id),
                                id,
                                created_at,
                            ),
                        },
                    ),
                    StageView::AccessLevel { organization, access_level } => {
                        let user = UserView::created(
                            a.user,
                            id_of(organization),
                            access_level.id,
                            id,
                            created_at,
                        );
                        match organization {
                            Some(o) if a.owns() => self.at(
                                StageView::User { organization: o, access_level, user },
                            ),
                            _ => self.completed(SeededView { organization, access_level, user }),
                        }
                    },
                    StageView::User { .. } => self.failed(SeedError::UnexpectedEvent),
                },
            }
        }
    }

    /// Well-formedness: the rows that were taken down are those of the first
    /// accounts of the plan, account by account.
    pub open spec fn wf(self) -> bool {
        &&& self.done.len() <= self.plan.len()
        &&& forall|i: int|
            0 <= i < self.done.len() ==> seeded_fits(#[trigger] self.plan[i], self.done[i])
        &&& if self.complete() {
            self.stage is Start
        } else {
            stage_fits(self.current(), self.stage)
        }
    }
}

/// A run starts well-formed.
pub proof fn lemma_initial_wf(plan: Seq<AccountView>)
    ensures
        SeederView::initial(plan).wf(),
{
}

/// An event keeps a run well-formed, keeps its plan, and takes nothing back:
/// the rows of the complete accounts stay as they were taken down.
pub proof fn lemma_advance_wf(s: SeederView, event: Event)
    requires
        s.wf(),
    ensures
        s.advance(event).wf(),
        s.advance(event).plan == s.plan,
        s.done.is_prefix_of(s.advance(event).done),
{
    let t = s.advance(event);
    assert forall|i: int| 0 <= i < t.done.len() implies seeded_fits(
        #[trigger] t.plan[i],
        t.done[i],
    ) by {}
}

} // verus!
