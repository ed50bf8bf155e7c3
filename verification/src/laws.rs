//! What holds of every run, whatever the gateway answered.
//!
//! The laws speak of well-formed states. A run starts well-formed and every
//! event keeps it so: they hold at every moment of every run.

use crate::account::{
    fixed_access_level, is_master_user, is_owner_group, is_test_master_user, is_test_user,
    AccountView,
};
use crate::machine::{
    access_levels_of, organizations_of, users_of, ActionView, Event, SeededView, SeederView,
    StageView,
};
use crate::models::AccessLevelView;
use crate::password::{bcrypt_salted, is_hash, is_hash_of, HASH_COST};
use crate::plan::is_seed_plan;
use crate::schema::Table;
use vstd::prelude::*;

verus! {

/// Where every account has an organization, the organizations are as many as
/// the accounts, one for one.
pub proof fn lemma_organizations_of_all(done: Seq<SeededView>)
    requires
        forall|i: int| 0 <= i < done.len() ==> (#[trigger] done[i]).organization is Some,
    ensures
        organizations_of(done).len() == done.len(),
        forall|i: int|
            0 <= i < done.len() ==> Some(#[trigger] organizations_of(done)[i])
                == done[i].organization,
    decreases done.len(),
{
    if done.len() > 0 {
        let init = done.drop_last();
        assert forall|i: int| 0 <= i < init.len() implies (#[trigger] init[i]).organization
            is Some by {}
        lemma_organizations_of_all(init);
    }
}

/// Where no account has an organization, there are no organizations.
pub proof fn lemma_organizations_of_none(done: Seq<SeededView>)
    requires
        forall|i: int| 0 <= i < done.len() ==> (#[trigger] done[i]).organization is None,
    ensures
        organizations_of(done).len() == 0,
    decreases done.len(),
{
    if done.len() > 0 {
        let init = done.drop_last();
        assert forall|i: int| 0 <= i < init.len() implies (#[trigger] init[i]).organization
            is None by {}
        lemma_organizations_of_none(init);
    }
}

/// The organizations of two stretches of accounts are those of the first,
/// then those of the second.
pub proof fn lemma_organizations_of_concat(first: Seq<SeededView>, second: Seq<SeededView>)
    ensures
        organizations_of(first + second) == organizations_of(first) + organizations_of(second),
    decreases second.len(),
{
    if second.len() > 0 {
        let init = second.drop_last();
        assert((first + second).drop_last() =~= first + init);
        lemma_organizations_of_concat(first, init);
        match second.last().organization {
            Some(o) => {
                assert((organizations_of(first) + organizations_of(init)).push(o)
                    =~= organizations_of(first) + organizations_of(init).push(o));
            },
            None => {},
        }
    }
}

/// The rows of a complete account are consistent with each other: the user
/// has the access level that was made for the account; that level is of the
/// user's organization, and global exactly where the user is outside every
/// organization; and where the account owns its organization, the
/// organization names the user as its owner and the user names the
/// organization as its own.
pub proof fn lemma_rows_linked(s: SeederView, i: int)
    requires
        s.wf(),
        0 <= i < s.done.len(),
    ensures
        s.done[i].user.access_level_id == s.done[i].access_level.id,
        s.done[i].access_level.organization_id == s.done[i].user.organization_id,
        s.plan[i].organization is Some <==> s.done[i].organization is Some,
        s.done[i].organization matches Some(o) ==> {
            &&& s.done[i].user.organization_id == Some(o.id)
            &&& o.owner_id == (if s.plan[i].owns() {
                Some(s.done[i].user.id)
            } else {
                None
            })
        },
        s.done[i].organization is None ==> s.done[i].user.organization_id is None,
{
}

/// Accounts that own their organization, however many, give as many
/// organizations as users, linked pair by pair: the organization names the
/// user as its owner, and the user names the organization as its own.
pub proof fn lemma_owner_groups_linked(s: SeederView)
    requires
        s.wf(),
        forall|i: int| 0 <= i < s.done.len() ==> (#[trigger] s.plan[i]).owns(),
    ensures
        organizations_of(s.done).len() == s.done.len(),
        users_of(s.done).len() == s.done.len(),
        s.finished() ==> s.done.len() == s.plan.len(),
        forall|i: int|
            0 <= i < s.done.len() ==> {
                &&& (#[trigger] organizations_of(s.done)[i]).owner_id == Some(
                    users_of(s.done)[i].id,
                )
                &&& users_of(s.done)[i].organization_id == Some(organizations_of(s.done)[i].id)
            },
{
    assert forall|i: int| 0 <= i < s.done.len() implies (#[trigger] s.done[i]).organization
        is Some by {
        lemma_rows_linked(s, i);
    }
    lemma_organizations_of_all(s.done);
    assert forall|i: int| 0 <= i < s.done.len() implies {
        &&& (#[trigger] organizations_of(s.done)[i]).owner_id == Some(users_of(s.done)[i].id)
        &&& users_of(s.done)[i].organization_id == Some(organizations_of(s.done)[i].id)
    } by {
        lemma_rows_linked(s, i);
    }
}

/// The access levels of the complete accounts have identifiers of their own.
pub open spec fn distinct_access_levels(done: Seq<SeededView>) -> bool {
    forall|i: int, j: int|
        0 <= i < j < done.len() ==> (#[trigger] done[i]).access_level.id != (
        #[trigger] done[j]).access_level.id
}

/// Where the database gave each access level an identifier of its own, no
/// user of an organization has a global access level.
pub proof fn lemma_global_level_serves_no_member(s: SeederView, level: int, member: int)
    requires
        s.wf(),
        distinct_access_levels(s.done),
        0 <= level < s.done.len(),
        0 <= member < s.done.len(),
        s.done[level].access_level.organization_id is None,
        s.done[member].user.organization_id is Some,
    ensures
        s.done[member].user.access_level_id != s.done[level].access_level.id,
{
    lemma_rows_linked(s, member);
}

/// The account in progress has a row of `table` with the identifier `id`.
pub open spec fn row_exists(stage: StageView, table: Table, id: i32) -> bool {
    match table {
        Table::Organization => match stage {
            StageView::Organization { organization } => organization.id == id,
            StageView::AccessLevel { organization, .. } => organization matches Some(o) && o.id
                == id,
            StageView::User { organization, .. } => organization.id == id,
            StageView::Start => false,
        },
        Table::AccessLevel => match stage {
            StageView::AccessLevel { access_level, .. } => access_level.id == id,
            StageView::User { access_level, .. } => access_level.id == id,
            _ => false,
        },
        Table::User => match stage {
            StageView::User { user, .. } => user.id == id,
            _ => false,
        },
        _ => false,
    }
}

/// No row is asked for before the rows that it refers to exist: each key of
/// the pending operation is a key that the schema has between the two
/// tables, and its value is the identifier that the database assigned to a
/// row of the account in progress. The one key that is set after its row
/// was created, the owner of an organization, is set on a row that exists.
pub proof fn lemma_keys_exist(s: SeederView)
    requires
        s.wf(),
    ensures
        s.pending() matches Some(a) ==> {
            &&& forall|k: int|
                0 <= k < a.keys().len() ==> {
                    &&& a.table().refers_to((#[trigger] a.keys()[k]).0)
                    &&& row_exists(s.stage, a.keys()[k].0, a.keys()[k].1)
                }
            &&& a.target() matches Some(id) ==> row_exists(s.stage, a.table(), id)
        },
{
}

/// A finished run of a seed plan leaves one organization for the well-known
/// customer and one for each randomized organization, and a user and an
/// access level for every account.
pub proof fn lemma_seed_counts(s: SeederView, regular: nat, privileged: nat)
    requires
        s.wf(),
        s.finished(),
        is_seed_plan(s.plan, regular, privileged),
    ensures
        organizations_of(s.done).len() == 1 + regular,
        access_levels_of(s.done).len() == 2 + regular + privileged,
        users_of(s.done).len() == 2 + regular + privileged,
{
    let done = s.done;
    let head = done.subrange(0, 1);
    let customer = done.subrange(1, 2);
    let groups = done.subrange(2, 2 + regular as int);
    let operators = done.subrange(2 + regular as int, done.len() as int);
    assert(done =~= ((head + customer) + groups) + operators);
    assert forall|i: int| 0 <= i < done.len() implies (s.plan[i].organization is Some <==> (
    #[trigger] done[i]).organization is Some) by {
        lemma_rows_linked(s, i);
    }
    assert forall|i: int| 0 <= i < head.len() implies (#[trigger] head[i]).organization
        is None by {}
    assert forall|i: int| 0 <= i < customer.len() implies (#[trigger] customer[i]).organization
        is Some by {}
    assert forall|i: int| 0 <= i < groups.len() implies (#[trigger] groups[i]).organization
        is Some by {}
    assert forall|i: int| 0 <= i < operators.len() implies (#[trigger] operators[i]).organization
        is None by {}
    lemma_organizations_of_none(head);
    lemma_organizations_of_all(customer);
    lemma_organizations_of_all(groups);
    lemma_organizations_of_none(operators);
    lemma_organizations_of_concat(head, customer);
    lemma_organizations_of_concat(head + customer, groups);
    lemma_organizations_of_concat((head + customer) + groups, operators);
}

/// The rows of the two well-known accounts hold the same values in every
/// run, whatever was drawn and however many accounts follow them: all but
/// what the database assigns and the hash of the password, which is a hash
/// of the same password in every run.
pub proof fn lemma_well_known_rows(s: SeederView, regular: nat, privileged: nat)
    requires
        s.wf(),
        is_seed_plan(s.plan, regular, privileged),
    ensures
        s.done.len() >= 1 ==> {
            &&& s.done[0].organization is None
            &&& s.done[0].user.username == "test_master_user"@
            &&& s.done[0].user.email == "rastercar.tests.001@gmail.com"@
            &&& s.done[0].user.email_verified
            &&& s.done[0].user.description is None
            &&& s.done[0].user.password != "testmasteruser"@
            &&& is_hash_of(s.done[0].user.password, "testmasteruser"@, HASH_COST)
            &&& s.done[0].user.organization_id is None
            &&& s.done[0].access_level == AccessLevelView::created(
                fixed_access_level(),
                None,
                s.done[0].access_level.id,
                s.done[0].access_level.created_at,
            )
        },
        s.done.len() >= 2 ==> {
            &&& s.done[1].organization matches Some(o) && o.name == "test user org"@
                && o.billing_email == "testuser@gmail.com"@ && !o.blocked
                && o.billing_email_verified && o.owner_id is None
            &&& s.done[1].user.username == "test_user"@
            &&& s.done[1].user.email == "rastercar.tests.002@gmail.com"@
            &&& s.done[1].user.email_verified
            &&& s.done[1].user.description == Some("test user"@)
            &&& s.done[1].user.password != "testuser"@
            &&& is_hash_of(s.done[1].user.password, "testuser"@, HASH_COST)
            &&& s.done[1].user.organization_id is Some
            &&& s.done[1].access_level == AccessLevelView::created(
                fixed_access_level(),
                s.done[1].user.organization_id,
                s.done[1].access_level.id,
                s.done[1].access_level.created_at,
            )
        },
{
    if s.done.len() >= 1 {
        lemma_rows_linked(s, 0);
    }
    if s.done.len() >= 2 {
        lemma_rows_linked(s, 1);
    }
}

/// The operations that an account takes: one for each of its rows, and one
/// more where it comes to own its organization.
pub open spec fn operations(a: AccountView) -> nat {
    if a.organization is None {
        2
    } else if a.owns() {
        4
    } else {
        3
    }
}

/// The operations that the accounts of a plan take together.
pub open spec fn total_operations(plan: Seq<AccountView>) -> nat
    decreases plan.len(),
{
    if plan.len() == 0 {
        0
    } else {
        total_operations(plan.drop_last()) + operations(plan.last())
    }
}

/// The operations of the account in progress that were answered.
pub open spec fn answered(stage: StageView) -> nat {
    match stage {
        StageView::Start => 0,
        StageView::Organization { .. } => 1,
        StageView::AccessLevel { organization, .. } => if organization is Some {
            2
        } else {
            1
        },
        StageView::User { .. } => 3,
    }
}

/// The operations of the run that were answered.
pub open spec fn performed(s: SeederView) -> nat {
    total_operations(s.plan.take(s.done.len() as int)) + answered(s.stage)
}

/// A run goes on for as long as the gateway answers in kind, whatever the
/// database holds and whichever identifiers it assigns: an answer to the
/// pending operation that is no failure does not give the run up, and is
/// one operation more that is behind it.
pub proof fn lemma_answer_goes_on(s: SeederView, event: Event)
    requires
        s.wf(),
        s.pending() matches Some(a) && a.answered_by(event),
        !(event is Failed),
    ensures
        s.advance(event).failure is None,
        performed(s.advance(event)) == performed(s) + 1,
{
    let t = s.advance(event);
    let k = s.done.len() as int;
    if t.done.len() == k + 1 {
        assert(s.plan.take(k + 1).drop_last() =~= s.plan.take(k));
    }
}

/// A run starts with no operation behind it and is complete when all the
/// operations of its plan are: it takes as many answers as that, no more
/// and no fewer.
pub proof fn lemma_performed_at_ends(s: SeederView)
    requires
        s.wf(),
    ensures
        performed(SeederView::initial(s.plan)) == 0,
        s.complete() ==> performed(s) == total_operations(s.plan),
{
    if s.complete() {
        assert(s.plan.take(s.done.len() as int) =~= s.plan);
    }
}

/// The state after the events, taken one after the other.
pub open spec fn run(s: SeederView, events: Seq<Event>) -> SeederView
    decreases events.len(),
{
    if events.len() == 0 {
        s
    } else {
        run(s, events.drop_last()).advance(events.last())
    }
}

/// Events keep a run well-formed, keep its plan, and take nothing back.
pub proof fn lemma_run_wf(s: SeederView, events: Seq<Event>)
    requires
        s.wf(),
    ensures
        run(s, events).wf(),
        run(s, events).plan == s.plan,
        s.done.is_prefix_of(run(s, events).done),
    decreases events.len(),
{
    if events.len() > 0 {
        let before = run(s, events.drop_last());
        lemma_run_wf(s, events.drop_last());
        crate::machine::lemma_advance_wf(before, events.last());
    }
}

/// A run that was not given up has counted each of its events as one
/// operation: none of them was a failure, none came out of turn, and none
/// came after the end.
pub proof fn lemma_run_counts(s: SeederView, events: Seq<Event>)
    requires
        s.wf(),
        run(s, events).failure is None,
    ensures
        s.failure is None,
        performed(run(s, events)) == performed(s) + events.len(),
        forall|i: int| 0 <= i < events.len() ==> !(#[trigger] events[i] is Failed),
    decreases events.len(),
{
    if events.len() > 0 {
        let init = events.drop_last();
        let before = run(s, init);
        lemma_run_wf(s, init);
        lemma_run_counts(s, init);
        lemma_answer_goes_on(before, events.last());
        assert forall|i: int| 0 <= i < events.len() implies !(#[trigger] events[i] is Failed) by {
            if i < init.len() {
                assert(init[i] == events[i]);
            }
        }
    }
}

/// A run that comes to its end has asked each operation of its plan, once:
/// it took as many events as the plan has operations.
pub proof fn lemma_finished_run(plan: Seq<AccountView>, events: Seq<Event>)
    requires
        run(SeederView::initial(plan), events).finished(),
    ensures
        events.len() == total_operations(plan),
{
    let s = SeederView::initial(plan);
    let t = run(s, events);
    lemma_run_wf(s, events);
    lemma_run_counts(s, events);
    lemma_performed_at_ends(s);
    lemma_performed_at_ends(t);
}

/// However many organizations with an owner are planned and whatever the
/// gateway answers, a run that comes to its end leaves as many organizations
/// and as many users as were planned, linked pair by pair: the organization
/// names the user as its owner, and the user names the organization as its
/// own.
pub proof fn lemma_owner_groups_run(plan: Seq<AccountView>, events: Seq<Event>)
    requires
        forall|i: int| 0 <= i < plan.len() ==> (#[trigger] plan[i]).owns(),
        run(SeederView::initial(plan), events).finished(),
    ensures
        ({
            let done = run(SeederView::initial(plan), events).done;
            &&& organizations_of(done).len() == plan.len()
            &&& users_of(done).len() == plan.len()
            &&& forall|i: int|
                0 <= i < plan.len() ==> {
                    &&& (#[trigger] organizations_of(done)[i]).owner_id == Some(
                        users_of(done)[i].id,
                    )
                    &&& users_of(done)[i].organization_id == Some(organizations_of(done)[i].id)
                }
        }),
{
    let s = SeederView::initial(plan);
    lemma_run_wf(s, events);
    lemma_owner_groups_linked(run(s, events));
}

/// A seed plan takes two operations for each account of the operators,
/// three for the well-known customer and four for each randomized
/// organization.
pub proof fn lemma_seed_operations(plan: Seq<AccountView>, regular: nat, privileged: nat)
    requires
        is_seed_plan(plan, regular, privileged),
    ensures
        total_operations(plan) == 5 + 4 * regular + 2 * privileged,
    decreases regular + privileged,
{
    let init = plan.drop_last();
    if privileged > 0 {
        assert forall|i: int| 0 <= i < init.len() implies init[i] == plan[i] by {}
        lemma_seed_operations(init, regular, (privileged - 1) as nat);
    } else if regular > 0 {
        assert forall|i: int| 0 <= i < init.len() implies init[i] == plan[i] by {}
        lemma_seed_operations(init, (regular - 1) as nat, 0);
    } else {
        reveal_with_fuel(total_operations, 3);
    }
}

/// Two hashes of one password are hashes of that same password and differ by
/// their salt alone: each is what bcrypt gives for the password under some
/// salt, and under one salt the two are the same.
pub proof fn lemma_hashes_of_one_password(plain: Seq<char>, first: Seq<char>, second: Seq<char>)
    requires
        is_hash_of(first, plain, HASH_COST),
        is_hash_of(second, plain, HASH_COST),
    ensures
        exists|salt: Seq<u8>, other: Seq<u8>|
            {
                &&& first == #[trigger] bcrypt_salted(plain, HASH_COST, salt)
                &&& second == #[trigger] bcrypt_salted(plain, HASH_COST, other)
                &&& salt == other ==> first == second
            },
{
    let salt = choose|salt: Seq<u8>|
        salt.len() == 16 && first == #[trigger] bcrypt_salted(plain, HASH_COST, salt);
    let other = choose|salt: Seq<u8>|
        salt.len() == 16 && second == #[trigger] bcrypt_salted(plain, HASH_COST, salt);
    assert(first == bcrypt_salted(plain, HASH_COST, salt) && second == bcrypt_salted(
        plain,
        HASH_COST,
        other,
    ));
}

/// In a run of a seed plan no password reaches the gateway: what is stored
/// for a user has the shape of a hash.
pub proof fn lemma_passwords_hashed(s: SeederView, regular: nat, privileged: nat)
    requires
        s.wf(),
        is_seed_plan(s.plan, regular, privileged),
    ensures
        s.pending() matches Some(ActionView::InsertUser { values, .. }) ==> is_hash(
            values.password,
            HASH_COST,
        ),
        forall|i: int|
            0 <= i < s.done.len() ==> is_hash((#[trigger] s.done[i]).user.password, HASH_COST),
{
    assert forall|i: int| 0 <= i < s.plan.len() implies is_hash(
        (#[trigger] s.plan[i]).user.password,
        HASH_COST,
    ) by {}
    assert forall|i: int| 0 <= i < s.done.len() implies is_hash(
        (#[trigger] s.done[i]).user.password,
        HASH_COST,
    ) by {
        assert(crate::machine::seeded_fits(s.plan[i], s.done[i]));
    }
}

} // verus!
