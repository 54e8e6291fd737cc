use vstd::prelude::*;

use crate::contract::{authorized, effect, has_x, instantiated, is_member};
use crate::msg::{ExecuteMsg, InstantiateMsg};
use crate::state::ClubView;

verus! {

/// A freshly created club reports the supplied `count` and `x_factor`, and
/// its members-only counter starts at zero.
pub proof fn lemma_instantiate_counters(sender: Seq<char>, msg: InstantiateMsg)
    ensures
        instantiated(sender, msg).count == msg.count as int,
        instantiated(sender, msg).x_factor == msg.x_factor as int,
        instantiated(sender, msg).members_only_count == 0,
        instantiated(sender, msg).waiting_list.len() == 0,
        instantiated(sender, msg).owner == sender,
{
}

/// Without a roster in the creation parameters, the roster holds exactly the
/// creator.
pub proof fn lemma_instantiate_default_roster(sender: Seq<char>, msg: InstantiateMsg)
    requires
        msg.members_list is None,
    ensures
        instantiated(sender, msg).members_list == seq![sender],
        is_member(instantiated(sender, msg), sender),
{
    assert(seq![sender][0] == sender);
}

/// Any caller may increment `count`, and it grows by exactly one.
pub proof fn lemma_increment(s: ClubView, caller: Seq<char>)
    ensures
        authorized(s, caller, ExecuteMsg::Increment {}),
        effect(s, caller, ExecuteMsg::Increment {}).count == s.count + 1,
{
}

/// Incrementing `x_factor` is allowed exactly when the caller's identity holds
/// an `x`.
pub proof fn lemma_increment_x_factor(s: ClubView, caller: Seq<char>)
    ensures
        authorized(s, caller, ExecuteMsg::IncrementXFactor {}) <==> caller.contains('x'),
        has_x(caller) ==> effect(s, caller, ExecuteMsg::IncrementXFactor {}).x_factor == s.x_factor
            + 1,
{
}

/// Joining the waiting list is refused to members and to those already
/// waiting; anyone else is appended to it, and then occurs in it exactly once.
pub proof fn lemma_add_me_to_waiting_list(s: ClubView, caller: Seq<char>)
    ensures
        authorized(s, caller, ExecuteMsg::AddMeToWaitingList {}) <==> !s.members_list.contains(
            caller,
        ) && !s.waiting_list.contains(caller),
        authorized(s, caller, ExecuteMsg::AddMeToWaitingList {}) ==> ({
            let w = effect(s, caller, ExecuteMsg::AddMeToWaitingList {}).waiting_list;
            &&& w == s.waiting_list.push(caller)
            &&& forall|i: int, j: int|
                0 <= i < w.len() && 0 <= j < w.len() && w[i] == caller && w[j] == caller ==> i
                    == j
        }),
{
    if authorized(s, caller, ExecuteMsg::AddMeToWaitingList {}) {
        let w = s.waiting_list.push(caller);
        assert forall|i: int, j: int|
            0 <= i < w.len() && 0 <= j < w.len() && w[i] == caller && w[j] == caller implies i
                == j by {
            if i < s.waiting_list.len() {
                assert(s.waiting_list[i] == w[i]);
                assert(s.waiting_list.contains(caller));
            }
            if j < s.waiting_list.len() {
                assert(s.waiting_list[j] == w[j]);
                assert(s.waiting_list.contains(caller));
            }
        }
    }
}

/// A member moves the whole waiting list, in order, behind the roster and
/// empties the waiting list; a non-member is refused.
pub proof fn lemma_add_waiting_list_to_club(s: ClubView, caller: Seq<char>)
    ensures
        authorized(s, caller, ExecuteMsg::AddWaitingListToClub {}) <==> is_member(s, caller),
        is_member(s, caller) ==> effect(s, caller, ExecuteMsg::AddWaitingListToClub {}).members_list
            == s.members_list + s.waiting_list,
        is_member(s, caller) ==> effect(
            s,
            caller,
            ExecuteMsg::AddWaitingListToClub {},
        ).waiting_list.len() == 0,
{
}

/// Only the owner, and only while not a member, may set `count`, which then
/// takes the given value.
pub proof fn lemma_reset(s: ClubView, caller: Seq<char>, count: i32)
    ensures
        authorized(s, caller, ExecuteMsg::Reset { count }) <==> caller == s.owner && !is_member(
            s,
            caller,
        ),
        authorized(s, caller, ExecuteMsg::Reset { count }) ==> effect(
            s,
            caller,
            ExecuteMsg::Reset { count },
        ).count == count as int,
{
}

/// Each command changes only the fields it declares: the owner never changes,
/// and every other field keeps its value unless the command is one that sets it.
pub proof fn lemma_effect_frame(s: ClubView, caller: Seq<char>, m: ExecuteMsg)
    ensures
        effect(s, caller, m).owner == s.owner,
        !(m is Increment || m is Reset) ==> effect(s, caller, m).count == s.count,
        !(m is IncrementXFactor || m is ResetXFactor) ==> effect(s, caller, m).x_factor
            == s.x_factor,
        !(m is IncrementMembersOnlyCount || m is ResetMembersOnlyCount) ==> effect(
            s,
            caller,
            m,
        ).members_only_count == s.members_only_count,
        !(m is AddMemberToClub || m is AddWaitingListToClub) ==> effect(s, caller, m).members_list
            == s.members_list,
        !(m is AddMeToWaitingList || m is AddWaitingListToClub) ==> effect(
            s,
            caller,
            m,
        ).waiting_list == s.waiting_list,
{
}

} // verus!
