use vstd::prelude::*;

verus! {

/// The abstract value of a [`User`]: every field as a mathematical value.
pub ghost struct UserModel {
    pub id: int,
    pub telegram_id: int,
    pub name: Seq<char>,
    pub interests: Seq<Seq<char>>,
    pub goals: Seq<Seq<char>>,
}

/// One durable profile record: the identity of a chat peer together with
/// the display name, interests and goals kept for them. `id` is the
/// storage-assigned key; `telegram_id` is the chat-transport identity.
#[derive(Clone, Debug)]
pub struct User {
    pub id: i32,
    pub telegram_id: i64,
    pub name: String,
    pub interests: Vec<String>,
    pub goals: Vec<String>,
}

impl View for User {
    type V = UserModel;

    open spec fn view(&self) -> UserModel {
        UserModel {
            id: self.id as int,
            telegram_id: self.telegram_id as int,
            name: self.name@,
            interests: self.interests.deep_view(),
            goals: self.goals.deep_view(),
        }
    }
}

/// An element-wise copy of a vector of strings.
pub fn clone_string_vec(v: &Vec<String>) -> (r: Vec<String>)
    ensures
        r.deep_view() == v.deep_view(),
{
    let mut r: Vec<String> = Vec::new();
    let mut i: usize = 0;
    while i < v.len()
        invariant
            0 <= i <= v.len(),
            r@.len() == i as int,
            forall|k: int| 0 <= k < i as int ==> #[trigger] r@[k] == v@[k],
        decreases v.len() - i,
    {
        r.push(v[i].clone());
        i = i + 1;
    }
    proof {
        assert forall|k: int| 0 <= k < v@.len() implies #[trigger] r.deep_view()[k]
            == v.deep_view()[k] by {
            assert(r@[k] == v@[k]);
        }
        assert(r.deep_view() =~= v.deep_view());
    }
    r
}

impl User {
    /// An explicit copy with the same abstract value.
    pub fn duplicate(&self) -> (u: User)
        ensures
            u@ == self@,
    {
        User {
            id: self.id,
            telegram_id: self.telegram_id,
            name: self.name.clone(),
            interests: clone_string_vec(&self.interests),
            goals: clone_string_vec(&self.goals),
        }
    }
}

impl Default for User {
    /// The placeholder profile the session starts with, before the first
    /// message resolves a real one: everything zero or empty.
    fn default() -> (u: User)
        ensures
            u@.id == 0,
            u@.telegram_id == 0,
            u@.name == Seq::<char>::empty(),
            u@.interests == Seq::<Seq<char>>::empty(),
            u@.goals == Seq::<Seq<char>>::empty(),
    {
        let u = User {
            id: 0,
            telegram_id: 0,
            name: String::new(),
            interests: Vec::new(),
            goals: Vec::new(),
        };
        proof {
            assert(u@.interests =~= Seq::<Seq<char>>::empty());
            assert(u@.goals =~= Seq::<Seq<char>>::empty());
        }
        u
    }
}

} // verus!
