//! The run in executable form: the seeder hands out one operation at a time
//! and takes the gateway's answer to it.

use crate::account::{Account, AccountView};
use crate::error::SeedError;
use crate::machine::{
    access_levels_of, next_action, organizations_of, users_of, ActionView, Event, SeededView,
    SeederView, StageView,
};
use crate::models::{AccessLevel, Organization, OrganizationView, User};
use crate::schema::Table;
use crate::values::{AccessLevelValues, OrganizationValues, UserValues};
use vstd::prelude::*;

verus! {

/// An operation that is asked of the gateway.
#[allow(inconsistent_fields)]
#[derive(Debug, PartialEq, Eq)]
pub enum Action {
    /// Create an organization. It has no owner yet.
    InsertOrganization { values: OrganizationValues },
    /// Create an access level, global or of the organization.
    InsertAccessLevel { values: AccessLevelValues, organization_id: Option<i32> },
    /// Create a user with the access level, outside every organization or in
    /// the given one.
    InsertUser { values: UserValues, organization_id: Option<i32>, access_level_id: i32 },
    /// Set the owner of the organization.
    SetOrganizationOwner { organization_id: i32, owner_id: i32 },
}

impl View for Action {
    type V = ActionView;

    open spec fn view(&self) -> ActionView {
        match self {
            Action::InsertOrganization { values } => ActionView::InsertOrganization {
                values: values@,
            },
            Action::InsertAccessLevel { values, organization_id } => ActionView::InsertAccessLevel {
                values: values@,
                organization_id: *organization_id,
            },
            Action::InsertUser { values, organization_id, access_level_id } => {
                ActionView::InsertUser {
                    values: values@,
                    organization_id: *organization_id,
                    access_level_id: *access_level_id,
                }
            },
            Action::SetOrganizationOwner {
                organization_id,
                owner_id,
            } => ActionView::SetOrganizationOwner {
                organization_id: *organization_id,
                owner_id: *owner_id,
            },
        }
    }
}

impl Action {
    /// The table that the operation writes.
    pub fn table(&self) -> (r: Table)
        ensures
            r == self@.table(),
    {
        match self {
            Action::InsertOrganization { .. } => Table::Organization,
            Action::InsertAccessLevel { .. } => Table::AccessLevel,
            Action::InsertUser { .. } => Table::User,
            Action::SetOrganizationOwner { .. } => Table::Organization,
        }
    }

    /// The error that a failure of the operation is reported as.
    pub fn failure(&self) -> (r: SeedError)
        ensures
            r == self@.failure(),
    {
        match self {
            Action::SetOrganizationOwner { .. } => SeedError::UpdateFailed(Table::Organization),
            _ => SeedError::InsertFailed(self.table()),
        }
    }
}

/// The organization row, if there is one.
pub open spec fn row_of(organization: Option<Organization>) -> Option<OrganizationView> {
    match organization {
        Some(o) => Some(o@),
        None => None,
    }
}

/// The rows of one account, all of them created.
#[derive(Debug, PartialEq, Eq)]
pub struct Seeded {
    pub organization: Option<Organization>,
    pub access_level: AccessLevel,
    pub user: User,
}

impl View for Seeded {
    type V = SeededView;

    open spec fn view(&self) -> SeededView {
        SeededView {
            organization: row_of(self.organization),
            access_level: self.access_level@,
            user: self.user@,
        }
    }
}

/// The rows of the account in progress.
#[allow(inconsistent_fields)]
#[derive(Debug, PartialEq, Eq)]
pub enum Stage {
    /// None of its rows exists.
    Start,
    /// Its organization exists.
    Organization { organization: Organization },
    /// Its access level exists, and its organization if it has one.
    AccessLevel { organization: Option<Organization>, access_level: AccessLevel },
    /// Its three rows exist; the organization has no owner yet.
    User { organization: Organization, access_level: AccessLevel, user: User },
}

impl View for Stage {
    type V = StageView;

    open spec fn view(&self) -> StageView {
        match self {
            Stage::Start => StageView::Start,
            Stage::Organization { organization } => StageView::Organization {
                organization: organization@,
            },
            Stage::AccessLevel { organization, access_level } => StageView::AccessLevel {
                organization: row_of(*organization),
                access_level: access_level@,
            },
            Stage::User { organization, access_level, user } => StageView::User {
                organization: organization@,
                access_level: access_level@,
                user: user@,
            },
        }
    }
}

/// The accounts of a plan.
pub open spec fn accounts_of(plan: Seq<Account>) -> Seq<AccountView> {
    Seq::new(plan.len(), |i: int| plan[i]@)
}

/// The rows of the complete accounts.
pub open spec fn rows_of(done: Seq<Seeded>) -> Seq<SeededView> {
    Seq::new(done.len(), |i: int| done[i]@)
}

/// The rows behind the references.
pub open spec fn views_of<T: View>(rows: Seq<&T>) -> Seq<T::V> {
    Seq::new(rows.len(), |i: int| rows[i]@)
}

/// The operation that is asked for, over plain values.
pub open spec fn asked(action: Option<Action>) -> Option<ActionView> {
    match action {
        Some(a) => Some(a@),
        None => None,
    }
}

/// What the caller is told, over plain values.
pub open spec fn told(r: Result<Option<Action>, SeedError>) -> Result<
    Option<ActionView>,
    SeedError,
> {
    match r {
        Ok(action) => Ok(asked(action)),
        Err(e) => Err(e),
    }
}

/// A run: the plan, what was created of it so far, and whether the run was
/// given up.
#[derive(Debug)]
pub struct Seeder {
    /// The accounts to seed, in their order.
    pub plan: Vec<Account>,
    /// The rows of the accounts that are complete.
    pub done: Vec<Seeded>,
    /// The rows of the account in progress.
    pub stage: Stage,
    /// Why the run was given up, if it was.
    pub failure: Option<SeedError>,
}

impl View for Seeder {
    type V = SeederView;

    open spec fn view(&self) -> SeederView {
        SeederView {
            plan: accounts_of(self.plan@),
            done: rows_of(self.done@),
            stage: self.stage@,
            failure: self.failure,
        }
    }
}

impl Seeder {
    /// Well-formedness: that of the state over plain values.
    pub open spec fn wf(&self) -> bool {
        self@.wf()
    }

    /// A run of `plan` of which nothing was asked yet.
    pub fn new(plan: Vec<Account>) -> (r: Self)
        ensures
            r@ == SeederView::initial(accounts_of(plan@)),
            r.wf(),
    {
        let r = Seeder { plan, done: Vec::new(), stage: Stage::Start, failure: None };
        assert(r@.done =~= Seq::<SeededView>::empty());
        r
    }

    /// Whether the run has come to its end without a failure.
    pub fn finished(&self) -> (r: bool)
        ensures
            r == self@.finished(),
    {
        self.failure.is_none() && self.done.len() >= self.plan.len()
    }

    /// The operation to ask of the gateway now: `None` once the run is
    /// finished or given up.
    pub fn action(&self) -> (r: Option<Action>)
        ensures
            asked(r) == self@.pending(),
    {
        let i = self.done.len();
        if self.failure.is_some() || i >= self.plan.len() {
            return None;
        }
        let account = &self.plan[i];
        let r = match &self.stage {
            Stage::Start => match &account.organization {
                Some(o) => Action::InsertOrganization { values: o.values.clone() },
                None => Action::InsertAccessLevel {
                    values: account.access_level.clone(),
                    organization_id: None,
                },
            },
            Stage::Organization { organization } => Action::InsertAccessLevel {
                values: account.access_level.clone(),
                organization_id: Some(organization.id),
            },
            Stage::AccessLevel { organization, access_level } => Action::InsertUser {
                values: account.user.clone(),
                organization_id: match organization {
                    Some(o) => Some(o.id),
                    None => None,
                },
                access_level_id: access_level.id,
            },
            Stage::User { organization, access_level, user } => Action::SetOrganizationOwner {
                organization_id: organization.id,
                owner_id: user.id,
            },
        };
        Some(r)
    }

    /// The organizations of the complete accounts, in the order of their
    /// creation.
    pub fn organizations(&self) -> (r: Vec<&Organization>)
        ensures
            views_of(r@) == organizations_of(self@.done),
            r@.len() == organizations_of(self@.done).len(),
    {
        let mut r: Vec<&Organization> = Vec::new();
        let mut i: usize = 0;
        while i < self.done.len()
            invariant
                i <= self.done.len(),
                views_of(r@) == organizations_of(self@.done.take(i as int)),
            decreases self.done.len() - i,
        {
            proof {
                assert(self@.done.take(i + 1).drop_last() =~= self@.done.take(i as int));
            }
            if let Some(o) = &self.done[i].organization {
                r.push(o);
            }
            i = i + 1;
        }
        proof {
            assert(self@.done.take(self.done.len() as int) =~= self@.done);
        }
        r
    }

    /// The access levels of the complete accounts, in the order of their
    /// creation.
    pub fn access_levels(&self) -> (r: Vec<&AccessLevel>)
        ensures
            views_of(r@) == access_levels_of(self@.done),
            r@.len() == self@.done.len(),
    {
        let mut r: Vec<&AccessLevel> = Vec::new();
        let mut i: usize = 0;
        while i < self.done.len()
            invariant
                i <= self.done.len(),
                r@.len() == i,
                forall|k: int| 0 <= k < i ==> r@[k]@ == self.done@[k].access_level@,
            decreases self.done.len() - i,
        {
            r.push(&self.done[i].access_level);
            i = i + 1;
        }
        r
    }

    /// The users of the complete accounts, in the order of their creation.
    pub fn users(&self) -> (r: Vec<&User>)
        ensures
            views_of(r@) == users_of(self@.done),
            r@.len() == self@.done.len(),
    {
        let mut r: Vec<&User> = Vec::new();
        let mut i: usize = 0;
        while i < self.done.len()
            invariant
                i <= self.done.len(),
                r@.len() == i,
                forall|k: int| 0 <= k < i ==> r@[k]@ == self.done@[k].user@,
            decreases self.done.len() - i,
        {
            r.push(&self.done[i].user);
            i = i + 1;
        }
        r
    }

    /// Gives the run up for `e`.
    fn fail(&mut self, e: SeedError) -> (r: Result<Option<Action>, SeedError>)
        ensures
            final(self)@ == old(self)@.failed(e),
            r == Err::<Option<Action>, SeedError>(e),
    {
        self.failure = Some(e);
        Err(e)
    }

    /// Takes the rows `r` of the account in progress down as complete.
    fn complete(&mut self, r: Seeded)
        ensures
            final(self)@ == old(self)@.completed(r@),
    {
        self.done.push(r);
        self.stage = Stage::Start;
        assert(self@.done =~= old(self)@.done.push(r@));
    }

    /// The error that a failure of the pending operation is reported as.
    fn pending_failure(&self) -> (r: SeedError)
        requires
            !self@.complete(),
        ensures
            r == next_action(self@.current(), self@.stage).failure(),
    {
        let account = &self.plan[self.done.len()];
        match &self.stage {
            Stage::Start => match &account.organization {
                Some(_) => SeedError::InsertFailed(Table::Organization),
                None => SeedError::InsertFailed(Table::AccessLevel),
            },
            Stage::Organization { .. } => SeedError::InsertFailed(Table::AccessLevel),
            Stage::AccessLevel { .. } => SeedError::InsertFailed(Table::User),
            Stage::User { .. } => SeedError::UpdateFailed(Table::Organization),
        }
    }

    /// Takes the gateway's answer to the pending operation and tells what
    /// to do next: `Ok(Some(..))` with the next operation, `Ok(None)` when
    /// the last account is complete, `Err(..)` when the run is given up,
    /// now or before.
    pub fn step(&mut self, event: Event) -> (r: Result<Option<Action>, SeedError>)
        ensures
            final(self)@ == old(self)@.advance(event),
            old(self).wf() ==> final(self).wf(),
            told(r) == final(self)@.outcome(),
    {
        proof {
            if self.wf() {
                crate::machine::lemma_advance_wf(self@, event);
            }
        }
        if let Some(e) = self.failure {
            return Err(e);
        }
        let i = self.done.len();
        if i >= self.plan.len() {
            return self.fail(SeedError::UnexpectedEvent);
        }
        if let Event::Failed = event {
            let e = self.pending_failure();
            return self.fail(e);
        }
        let mut stage = Stage::Start;
        std::mem::swap(&mut self.stage, &mut stage);
        match (stage, event) {
            (Stage::Start, Event::Inserted { id, created_at }) => match &self.plan[i].organization {
                Some(o) => {
                    let organization = Organization::created(o.values.clone(), id, created_at);
                    self.stage = Stage::Organization { organization };
                },
                None => {
                    let access_level = AccessLevel::created(
                        self.plan[i].access_level.clone(),
                        None,
                        id,
                        created_at,
                    );
                    self.stage = Stage::AccessLevel { organization: None, access_level };
                },
            },
            (Stage::Organization { organization }, Event::Inserted { id, created_at }) => {
                let access_level = AccessLevel::created(
                    self.plan[i].access_level.clone(),
                    Some(organization.id),
                    id,
                    created_at,
                );
                self.stage = Stage::AccessLevel { organization: Some(organization), access_level };
            },
            (
                Stage::AccessLevel { organization, access_level },
                Event::Inserted { id, created_at },
            ) => {
                let owns = match &self.plan[i].organization {
                    Some(o) => o.owned,
                    None => false,
                };
                let organization_id = match &organization {
                    Some(o) => Some(o.id),
                    None => None,
                };
                let user = User::created(
                    self.plan[i].user.clone(),
                    organization_id,
                    access_level.id,
                    id,
                    created_at,
                );
                match organization {
                    Some(o) if owns => {
                        self.stage = Stage::User { organization: o, access_level, user };
                    },
                    organization => {
                        self.complete(Seeded { organization, access_level, user });
                    },
                }
            },
            (Stage::User { organization, access_level, user }, Event::Updated) => {
                let organization = organization.owned_by(user.id);
                self.complete(Seeded { organization: Some(organization), access_level, user });
            },
            (stage, _) => {
                self.stage = stage;
                return self.fail(SeedError::UnexpectedEvent);
            },
        }
        Ok(self.action())
    }
}

} // verus!
