//! The plan of a run: the two well-known accounts first, so that they get
//! the lowest identifiers of a fresh database, then the randomized ones.

use crate::account::{
    create_default_test_master_user, create_default_test_user, fake_master_user,
    fake_root_user_with_user_org, is_master_user, is_owner_group, is_test_master_user,
    is_test_user, Account, AccountView,
};
use crate::error::SeedError;
use crate::machine::SeederView;
use crate::seeder::{accounts_of, Seeder};
use vstd::prelude::*;

verus! {

/// The number of randomized organizations of the default run.
pub const DEFAULT_GROUPS: usize = 19;

/// `plan` is the plan of a run with `regular` randomized organizations and
/// `privileged` randomized accounts of the platform's operators: the
/// well-known account of the operators, the well-known account of a
/// customer, then the organizations with their owners, then the operators.
pub open spec fn is_seed_plan(plan: Seq<AccountView>, regular: nat, privileged: nat) -> bool {
    &&& plan.len() == 2 + regular + privileged
    &&& is_test_master_user(plan[0])
    &&& is_test_user(plan[1])
    &&& forall|i: int| 2 <= i < 2 + regular ==> is_owner_group(#[trigger] plan[i])
    &&& forall|i: int|
        2 + regular <= i < 2 + regular + privileged ==> is_master_user(#[trigger] plan[i])
}

/// One more account at the end of a plan leaves the others where they were.
proof fn lemma_plan_grows(plan: Seq<Account>, a: Account)
    ensures
        accounts_of(plan.push(a)) == accounts_of(plan).push(a@),
{
}

/// The two well-known accounts, that of the operators first. They stand at
/// the head of every plan, so that a fresh database gives them the lowest
/// identifiers.
pub fn create_canonical_accounts() -> (r: Result<Vec<Account>, SeedError>)
    ensures
        r matches Ok(plan) ==> is_seed_plan(accounts_of(plan@), 0, 0),
        r matches Err(e) ==> e == SeedError::HashFailed || e == SeedError::HashIsPlaintext,
{
    let mut plan: Vec<Account> = Vec::new();
    match create_default_test_master_user() {
        Ok(a) => plan.push(a),
        Err(e) => {
            return Err(e);
        },
    }
    match create_default_test_user() {
        Ok(a) => plan.push(a),
        Err(e) => {
            return Err(e);
        },
    }
    Ok(plan)
}

/// Plans a run and makes it ready to start. It fails only where the hashing
/// of a password does, before anything is asked of the gateway.
pub fn run_seed(count_regular_accounts: usize, count_privileged_accounts: usize) -> (r: Result<
    Seeder,
    SeedError,
>)
    ensures
        r matches Ok(s) ==> {
            &&& s@ == SeederView::initial(s@.plan)
            &&& s.wf()
            &&& is_seed_plan(
                s@.plan,
                count_regular_accounts as nat,
                count_privileged_accounts as nat,
            )
        },
        r matches Err(e) ==> e == SeedError::HashFailed || e == SeedError::HashIsPlaintext,
{
    let mut plan = match create_canonical_accounts() {
        Ok(plan) => plan,
        Err(e) => {
            return Err(e);
        },
    };
    let mut i: usize = 0;
    while i < count_regular_accounts
        invariant
            i <= count_regular_accounts,
            is_seed_plan(accounts_of(plan@), i as nat, 0),
        decreases count_regular_accounts - i,
    {
        let ghost before = accounts_of(plan@);
        match fake_root_user_with_user_org() {
            Ok(a) => {
                proof {
                    lemma_plan_grows(plan@, a);
                }
                plan.push(a);
            },
            Err(e) => {
                return Err(e);
            },
        }
        assert forall|k: int| 0 <= k < 2 + i implies accounts_of(plan@)[k] == before[k] by {}
        i = i + 1;
    }
    let mut j: usize = 0;
    while j < count_privileged_accounts
        invariant
            j <= count_privileged_accounts,
            is_seed_plan(accounts_of(plan@), count_regular_accounts as nat, j as nat),
        decreases count_privileged_accounts - j,
    {
        let ghost before = accounts_of(plan@);
        match fake_master_user() {
            Ok(a) => {
                proof {
                    lemma_plan_grows(plan@, a);
                }
                plan.push(a);
            },
            Err(e) => {
                return Err(e);
            },
        }
        assert forall|k: int| 0 <= k < 2 + count_regular_accounts + j implies accounts_of(
            plan@,
        )[k] == before[k] by {}
        j = j + 1;
    }
    Ok(Seeder::new(plan))
}

/// Plans the default run: the two well-known accounts and `DEFAULT_GROUPS`
/// randomized organizations with their owners.
pub fn seed_db() -> (r: Result<Seeder, SeedError>)
    ensures
        r matches Ok(s) ==> {
            &&& s@ == SeederView::initial(s@.plan)
            &&& s.wf()
            &&& is_seed_plan(s@.plan, DEFAULT_GROUPS as nat, 0)
        },
        r matches Err(e) ==> e == SeedError::HashFailed || e == SeedError::HashIsPlaintext,
{
    run_seed(DEFAULT_GROUPS, 0)
}

} // verus!
