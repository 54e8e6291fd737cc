use vstd::prelude::*;

verus! {

/// The persisted record of the club: three counters, the owner and two rosters.
pub struct State {
    pub count: i32,
    pub x_factor: i32,
    pub members_only_count: i32,
    pub owner: String,
    pub members_list: Vec<String>,
    pub waiting_list: Vec<String>,
}

/// The mathematical model of a `State`: counters as integers, identities as
/// character sequences.
pub struct ClubView {
    pub count: int,
    pub x_factor: int,
    pub members_only_count: int,
    pub owner: Seq<char>,
    pub members_list: Seq<Seq<char>>,
    pub waiting_list: Seq<Seq<char>>,
}

/// The identities held by a roster.
pub open spec fn ids(v: Seq<String>) -> Seq<Seq<char>> {
    v.map_values(|s: String| s@)
}

impl View for State {
    type V = ClubView;

    open spec fn view(&self) -> ClubView {
        ClubView {
            count: self.count as int,
            x_factor: self.x_factor as int,
            members_only_count: self.members_only_count as int,
            owner: self.owner@,
            members_list: ids(self.members_list@),
            waiting_list: ids(self.waiting_list@),
        }
    }
}

/// Whether `id` is on the roster `list`.
pub fn contains_identity(list: &Vec<String>, id: &String) -> (r: bool)
    ensures
        r == ids(list@).contains(id@),
{
    let mut i: usize = 0;
    while i < list.len()
        invariant
            0 <= i <= list.len(),
            forall|j: int| 0 <= j < i ==> list@[j]@ != id@,
        decreases list.len() - i,
    {
        if list[i] == *id {
            assert(ids(list@)[i as int] == id@);
            return true;
        }
        i = i + 1;
    }
    proof {
        if ids(list@).contains(id@) {
            let k = choose|k: int| 0 <= k < ids(list@).len() && ids(list@)[k] == id@;
            assert(list@[k]@ == id@);
        }
    }
    false
}

} // verus!
