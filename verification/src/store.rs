use vstd::prelude::*;

use crate::user::{User, UserModel};

verus! {

/// No two records share a telegram identity.
pub open spec fn unique_telegram_ids(records: Seq<UserModel>) -> bool {
    forall|i: int, j: int|
        0 <= i < records.len() && 0 <= j < records.len() && i != j
            ==> #[trigger] records[i].telegram_id != #[trigger] records[j].telegram_id
}

/// The first record carrying `telegram_id`, if any.
pub open spec fn spec_lookup(records: Seq<UserModel>, telegram_id: int) -> Option<UserModel>
    decreases records.len(),
{
    if records.len() == 0 {
        None
    } else if records[0].telegram_id == telegram_id {
        Some(records[0])
    } else {
        spec_lookup(records.drop_first(), telegram_id)
    }
}

/// The find-or-create step of the profile store contract, as one
/// mathematical function: the records afterwards, and the record handed
/// back. A missing identity gets a fresh record with the given display
/// name, empty interests and goals, and the next free identifier.
pub open spec fn spec_find_or_create(
    records: Seq<UserModel>,
    telegram_id: int,
    name: Seq<char>,
) -> (Seq<UserModel>, UserModel) {
    match spec_lookup(records, telegram_id) {
        Some(found) => (records, found),
        None => {
            let created = UserModel {
                id: records.len() as int + 1,
                telegram_id: telegram_id,
                name: name,
                interests: Seq::empty(),
                goals: Seq::empty(),
            };
            (records.push(created), created)
        },
    }
}

proof fn lemma_lookup_hit(records: Seq<UserModel>, telegram_id: int, k: int)
    requires
        0 <= k < records.len(),
        records[k].telegram_id == telegram_id,
        forall|m: int| 0 <= m < k ==> #[trigger] records[m].telegram_id != telegram_id,
    ensures
        spec_lookup(records, telegram_id) == Some(records[k]),
    decreases k,
{
    if k > 0 {
        lemma_lookup_hit(records.drop_first(), telegram_id, k - 1);
    }
}

proof fn lemma_lookup_miss(records: Seq<UserModel>, telegram_id: int)
    requires
        forall|m: int|
            0 <= m < records.len() ==> #[trigger] records[m].telegram_id != telegram_id,
    ensures
        spec_lookup(records, telegram_id) is None,
    decreases records.len(),
{
    if records.len() > 0 {
        lemma_lookup_miss(records.drop_first(), telegram_id);
    }
}

proof fn lemma_lookup_after_push(records: Seq<UserModel>, telegram_id: int, created: UserModel)
    requires
        spec_lookup(records, telegram_id) is None,
        created.telegram_id == telegram_id,
    ensures
        spec_lookup(records.push(created), telegram_id) == Some(created),
    decreases records.len(),
{
    if records.len() == 0 {
        assert(records.push(created)[0] == created);
    } else {
        assert(records.push(created).drop_first() =~= records.drop_first().push(created));
        lemma_lookup_after_push(records.drop_first(), telegram_id, created);
    }
}

/// Law: resolving the same identity twice hands back the same record —
/// the same identifier in particular — both times, and the second
/// resolution never creates another record.
pub proof fn lemma_find_or_create_idempotent(
    records: Seq<UserModel>,
    telegram_id: int,
    name: Seq<char>,
)
    ensures
        ({
            let (once, first) = spec_find_or_create(records, telegram_id, name);
            let (twice, second) = spec_find_or_create(once, telegram_id, name);
            &&& twice == once
            &&& second == first
            &&& second.id == first.id
        }),
{
    let (once, first) = spec_find_or_create(records, telegram_id, name);
    match spec_lookup(records, telegram_id) {
        Some(_) => {},
        None => {
            lemma_lookup_after_push(records, telegram_id, first);
        },
    }
}

/// An in-memory realization of the profile store contract: at most one
/// record per telegram identity, identifiers assigned at creation.
pub struct ProfileDirectory {
    pub users: Vec<User>,
}

impl ProfileDirectory {
    /// The stored records as mathematical values, in storage order.
    pub open spec fn records(&self) -> Seq<UserModel> {
        Seq::new(self.users@.len(), |i: int| self.users@[i]@)
    }

    /// Well-formed: telegram identities are unique, as the store
    /// guarantees of its records.
    pub open spec fn wf(&self) -> bool {
        unique_telegram_ids(self.records())
    }

    /// An empty directory.
    pub fn new() -> (d: ProfileDirectory)
        ensures
            d.wf(),
            d.records() == Seq::<UserModel>::empty(),
    {
        let d = ProfileDirectory { users: Vec::new() };
        proof {
            assert(d.records() =~= Seq::<UserModel>::empty());
        }
        d
    }

    /// Returns the record for `telegram_id`, creating one with the given
    /// display name and empty interests and goals when none exists —
    /// exactly the find-or-create step of the store contract.
    #[verifier::loop_isolation(false)]
    pub fn find_or_create_by_telegram_id(&mut self, telegram_id: i64, name: &str) -> (u: User)
        requires
            old(self).wf(),
            old(self).users@.len() < 0x7fff_ffff,
        ensures
            final(self).wf(),
            (final(self).records(), u@) == spec_find_or_create(
                old(self).records(),
                telegram_id as int,
                name@,
            ),
    {
        let ghost records = self.records();
        let mut i: usize = 0;
        while i < self.users.len()
            invariant
                0 <= i <= self.users.len(),
                forall|m: int| 0 <= m < i ==> #[trigger] records[m].telegram_id != telegram_id,
            decreases self.users.len() - i,
        {
            if self.users[i].telegram_id == telegram_id {
                let u = self.users[i].duplicate();
                proof {
                    lemma_lookup_hit(records, telegram_id as int, i as int);
                }
                return u;
            }
            i = i + 1;
        }
        proof {
            lemma_lookup_miss(records, telegram_id as int);
        }
        let next_id: i32 = (self.users.len() + 1) as i32;
        let created = User {
            id: next_id,
            telegram_id: telegram_id,
            name: String::from_str(name),
            interests: Vec::new(),
            goals: Vec::new(),
        };
        let u = created.duplicate();
        proof {
            assert(created@.interests =~= Seq::<Seq<char>>::empty());
            assert(created@.goals =~= Seq::<Seq<char>>::empty());
        }
        self.users.push(created);
        proof {
            assert(self.records() =~= records.push(u@));
            assert forall|a: int, b: int|
                0 <= a < self.records().len() && 0 <= b < self.records().len() && a != b implies #[trigger] self.records()[a].telegram_id
                != #[trigger] self.records()[b].telegram_id by {
                assert(forall|m: int|
                    0 <= m < records.len() ==> #[trigger] records[m].telegram_id != telegram_id);
            }
        }
        u
    }
}

} // verus!
