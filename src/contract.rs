use vstd::prelude::*;

use crate::msg::{
    ContractError, CountResponse, ExecuteMsg, InstantiateMsg, MemberListResponse,
    MembersOnlyCountResponse, QueryMsg, QueryResponse, WaitingListResponse, XFactorResponse,
};
use crate::state::{contains_identity, ids, ClubView, State};

verus! {

/// The lexical predicate on identities: the identity holds the character `x`.
pub open spec fn has_x(id: Seq<char>) -> bool {
    id.contains('x')
}

/// Whether `id` is a member of the club.
pub open spec fn is_member(s: ClubView, id: Seq<char>) -> bool {
    s.members_list.contains(id)
}

/// The authorization predicate of each command, evaluated on the state before
/// the command.
pub open spec fn authorized(s: ClubView, caller: Seq<char>, m: ExecuteMsg) -> bool {
    match m {
        ExecuteMsg::Increment {} => true,
        ExecuteMsg::IncrementXFactor {} => has_x(caller),
        ExecuteMsg::IncrementMembersOnlyCount {} => is_member(s, caller),
        ExecuteMsg::AddMeToWaitingList {} => !is_member(s, caller) && !s.waiting_list.contains(
            caller,
        ),
        ExecuteMsg::AddMemberToClub { .. } => is_member(s, caller),
        ExecuteMsg::AddWaitingListToClub {} => is_member(s, caller),
        ExecuteMsg::Reset { .. } => caller == s.owner && !is_member(s, caller),
        ExecuteMsg::ResetXFactor { .. } => has_x(caller) || is_member(s, caller),
        ExecuteMsg::ResetMembersOnlyCount {} => is_member(s, caller),
    }
}

/// The state after an authorized command.
pub open spec fn effect(s: ClubView, caller: Seq<char>, m: ExecuteMsg) -> ClubView {
    match m {
        ExecuteMsg::Increment {} => ClubView { count: s.count + 1, ..s },
        ExecuteMsg::IncrementXFactor {} => ClubView { x_factor: s.x_factor + 1, ..s },
        ExecuteMsg::IncrementMembersOnlyCount {} => ClubView {
            members_only_count: s.members_only_count + 1,
            ..s
        },
        ExecuteMsg::AddMeToWaitingList {} => ClubView {
            waiting_list: s.waiting_list.push(caller),
            ..s
        },
        ExecuteMsg::AddMemberToClub { prospect } => ClubView {
            members_list: s.members_list.push(prospect@),
            ..s
        },
        ExecuteMsg::AddWaitingListToClub {} => ClubView {
            members_list: s.members_list + s.waiting_list,
            waiting_list: Seq::empty(),
            ..s
        },
        ExecuteMsg::Reset { count } => ClubView { count: count as int, ..s },
        ExecuteMsg::ResetXFactor { x_factor } => ClubView { x_factor: x_factor as int, ..s },
        ExecuteMsg::ResetMembersOnlyCount {} => ClubView { members_only_count: 0, ..s },
    }
}

/// The counters that a command increments stay within `i32`.
pub open spec fn fits(s: ClubView, m: ExecuteMsg) -> bool {
    match m {
        ExecuteMsg::Increment {} => s.count < i32::MAX,
        ExecuteMsg::IncrementXFactor {} => s.x_factor < i32::MAX,
        ExecuteMsg::IncrementMembersOnlyCount {} => s.members_only_count < i32::MAX,
        _ => true,
    }
}

/// Relies on str::contains: true iff the pattern "x" occurs in the string.
#[verifier::external_body]
fn contains_x(id: &String) -> (r: bool)
    ensures
        r == id@.contains('x'),
{
    id.as_str().contains("x")
}

/// The authorization predicate of `msg` for `sender`, on the current state.
pub fn is_authorized(state: &State, sender: &String, msg: &ExecuteMsg) -> (r: bool)
    ensures
        r == authorized(state@, sender@, *msg),
{
    match msg {
        ExecuteMsg::Increment {} => true,
        ExecuteMsg::IncrementXFactor {} => contains_x(sender),
        ExecuteMsg::AddMeToWaitingList {} => !contains_identity(&state.members_list, sender)
            && !contains_identity(&state.waiting_list, sender),
        ExecuteMsg::Reset { .. } => *sender == state.owner && !contains_identity(
            &state.members_list,
            sender,
        ),
        ExecuteMsg::ResetXFactor { .. } => contains_x(sender) || contains_identity(
            &state.members_list,
            sender,
        ),
        _ => contains_identity(&state.members_list, sender),
    }
}

/// Whether the counter that `msg` increments, if any, is below `i32::MAX`.
pub fn fits_counters(state: &State, msg: &ExecuteMsg) -> (r: bool)
    ensures
        r == fits(state@, *msg),
{
    match msg {
        ExecuteMsg::Increment {} => state.count < i32::MAX,
        ExecuteMsg::IncrementXFactor {} => state.x_factor < i32::MAX,
        ExecuteMsg::IncrementMembersOnlyCount {} => state.members_only_count < i32::MAX,
        _ => true,
    }
}

/// Adds one to `count`; any caller may do so.
pub fn try_increment(state: &mut State) -> (r: Result<(), ContractError>)
    requires
        old(state).count < i32::MAX,
    ensures
        r is Ok,
        final(state)@ == (ClubView { count: old(state)@.count + 1, ..old(state)@ }),
{
    state.count = state.count + 1;
    Ok(())
}

/// Adds one to `x_factor`, for callers whose identity holds an `x`.
pub fn try_increment_x_factor(state: &mut State, sender: &String) -> (r: Result<(), ContractError>)
    requires
        has_x(sender@) ==> old(state).x_factor < i32::MAX,
    ensures
        r is Ok <==> authorized(old(state)@, sender@, ExecuteMsg::IncrementXFactor {}),
        r is Ok ==> final(state)@ == effect(old(state)@, sender@, ExecuteMsg::IncrementXFactor {}),
        r is Err ==> r == Err::<(), ContractError>(ContractError::Unauthorized {}) && *final(state)
            == *old(state),
{
    if contains_x(sender) {
        state.x_factor = state.x_factor + 1;
        Ok(())
    } else {
        Err(ContractError::Unauthorized {})
    }
}

/// Adds one to `members_only_count`, for members.
pub fn try_increment_members_only_count(state: &mut State, sender: &String) -> (r: Result<
    (),
    ContractError,
>)
    requires
        is_member(old(state)@, sender@) ==> old(state).members_only_count < i32::MAX,
    ensures
        r is Ok <==> authorized(old(state)@, sender@, ExecuteMsg::IncrementMembersOnlyCount {}),
        r is Ok ==> final(state)@ == effect(
            old(state)@,
            sender@,
            ExecuteMsg::IncrementMembersOnlyCount {},
        ),
        r is Err ==> r == Err::<(), ContractError>(ContractError::Unauthorized {}) && *final(state)
            == *old(state),
{
    if contains_identity(&state.members_list, sender) {
        state.members_only_count = state.members_only_count + 1;
        Ok(())
    } else {
        Err(ContractError::Unauthorized {})
    }
}

/// Appends the caller to the waiting list, unless it is already a member or waiting.
pub fn try_add_me_to_waiting_list(state: &mut State, sender: &String) -> (r: Result<
    (),
    ContractError,
>)
    ensures
        r is Ok <==> authorized(old(state)@, sender@, ExecuteMsg::AddMeToWaitingList {}),
        r is Ok ==> final(state)@ == effect(old(state)@, sender@, ExecuteMsg::AddMeToWaitingList {}),
        r is Ok ==> final(state).waiting_list@ == old(state).waiting_list@.push(*sender),
        r is Err ==> r == Err::<(), ContractError>(ContractError::Unauthorized {}) && *final(state)
            == *old(state),
{
    if contains_identity(&state.members_list, sender) || contains_identity(
        &state.waiting_list,
        sender,
    ) {
        return Err(ContractError::Unauthorized {});
    }
    let ghost before = state.waiting_list@;
    state.waiting_list.push(sender.clone());
    assert(ids(state.waiting_list@) =~= ids(before).push(sender@));
    Ok(())
}

/// Appends `prospect` to the roster, for members; duplicates are not checked.
pub fn try_add_member_to_club(state: &mut State, sender: &String, prospect: String) -> (r: Result<
    (),
    ContractError,
>)
    ensures
        r is Ok <==> authorized(
            old(state)@,
            sender@,
            ExecuteMsg::AddMemberToClub { prospect },
        ),
        r is Ok ==> final(state)@ == effect(
            old(state)@,
            sender@,
            ExecuteMsg::AddMemberToClub { prospect },
        ),
        r is Ok ==> final(state).members_list@ == old(state).members_list@.push(prospect),
        r is Err ==> r == Err::<(), ContractError>(ContractError::Unauthorized {}) && *final(state)
            == *old(state),
{
    if contains_identity(&state.members_list, sender) {
        let ghost before = state.members_list@;
        let ghost p = prospect;
        state.members_list.push(prospect);
        assert(ids(state.members_list@) =~= ids(before).push(p@));
        Ok(())
    } else {
        Err(ContractError::Unauthorized {})
    }
}

/// Moves the whole waiting list, in order, to the end of the roster, for members.
pub fn try_add_waiting_list_to_club(state: &mut State, sender: &String) -> (r: Result<
    (),
    ContractError,
>)
    ensures
        r is Ok <==> authorized(old(state)@, sender@, ExecuteMsg::AddWaitingListToClub {}),
        r is Ok ==> final(state)@ == effect(
            old(state)@,
            sender@,
            ExecuteMsg::AddWaitingListToClub {},
        ),
        r is Ok ==> final(state).members_list@ == old(state).members_list@ + old(
            state,
        ).waiting_list@,
        r is Err ==> r == Err::<(), ContractError>(ContractError::Unauthorized {}) && *final(state)
            == *old(state),
{
    if contains_identity(&state.members_list, sender) {
        let mut list_to_add: Vec<String> = Vec::new();
        std::mem::swap(&mut list_to_add, &mut state.waiting_list);
        let ghost members = state.members_list@;
        let mut i: usize = 0;
        while i < list_to_add.len()
            invariant
                0 <= i <= list_to_add.len(),
                list_to_add@ == old(state).waiting_list@,
                members == old(state).members_list@,
                state.members_list@ == members + list_to_add@.subrange(0, i as int),
                state.waiting_list@ == Seq::<String>::empty(),
                state.count == old(state).count,
                state.x_factor == old(state).x_factor,
                state.members_only_count == old(state).members_only_count,
                state.owner == old(state).owner,
            decreases list_to_add.len() - i,
        {
            let prospect = list_to_add[i].clone();
            state.members_list.push(prospect);
            assert(list_to_add@.subrange(0, i + 1) =~= list_to_add@.subrange(0, i as int).push(
                list_to_add@[i as int],
            ));
            i = i + 1;
        }
        assert(list_to_add@.subrange(0, i as int) =~= list_to_add@);
        assert(ids(state.members_list@) =~= ids(members) + ids(list_to_add@));
        assert(ids(state.waiting_list@) =~= Seq::<Seq<char>>::empty());
        Ok(())
    } else {
        Err(ContractError::Unauthorized {})
    }
}

/// Sets `count`, for the owner when the owner is not a member.
pub fn try_reset(state: &mut State, sender: &String, count: i32) -> (r: Result<(), ContractError>)
    ensures
        r is Ok <==> authorized(old(state)@, sender@, ExecuteMsg::Reset { count }),
        r is Ok ==> final(state)@ == effect(old(state)@, sender@, ExecuteMsg::Reset { count }),
        r is Err ==> r == Err::<(), ContractError>(ContractError::Unauthorized {}) && *final(state)
            == *old(state),
{
    if *sender != state.owner || contains_identity(&state.members_list, sender) {
        return Err(ContractError::Unauthorized {});
    }
    state.count = count;
    Ok(())
}

/// Sets `x_factor`, for callers whose identity holds an `x` and for members.
pub fn try_reset_x_factor(state: &mut State, sender: &String, x_factor: i32) -> (r: Result<
    (),
    ContractError,
>)
    ensures
        r is Ok <==> authorized(old(state)@, sender@, ExecuteMsg::ResetXFactor { x_factor }),
        r is Ok ==> final(state)@ == effect(
            old(state)@,
            sender@,
            ExecuteMsg::ResetXFactor { x_factor },
        ),
        r is Err ==> r == Err::<(), ContractError>(ContractError::Unauthorized {}) && *final(state)
            == *old(state),
{
    if contains_x(sender) || contains_identity(&state.members_list, sender) {
        state.x_factor = x_factor;
        Ok(())
    } else {
        Err(ContractError::Unauthorized {})
    }
}

/// Sets `members_only_count` back to zero, for members.
pub fn try_reset_members_only_count(state: &mut State, sender: &String) -> (r: Result<
    (),
    ContractError,
>)
    ensures
        r is Ok <==> authorized(old(state)@, sender@, ExecuteMsg::ResetMembersOnlyCount {}),
        r is Ok ==> final(state)@ == effect(
            old(state)@,
            sender@,
            ExecuteMsg::ResetMembersOnlyCount {},
        ),
        r is Err ==> r == Err::<(), ContractError>(ContractError::Unauthorized {}) && *final(state)
            == *old(state),
{
    if contains_identity(&state.members_list, sender) {
        state.members_only_count = 0;
        Ok(())
    } else {
        Err(ContractError::Unauthorized {})
    }
}

/// Runs one command on the state. The predicate is checked on the state as it
/// was; on success the command's effect is applied, on failure nothing changes.
pub fn execute(state: &mut State, sender: &String, msg: ExecuteMsg) -> (r: Result<
    (),
    ContractError,
>)
    requires
        authorized(old(state)@, sender@, msg) ==> fits(old(state)@, msg),
    ensures
        r is Ok <==> authorized(old(state)@, sender@, msg),
        r is Ok ==> final(state)@ == effect(old(state)@, sender@, msg),
        r is Err ==> r == Err::<(), ContractError>(ContractError::Unauthorized {}) && *final(state)
            == *old(state),
{
    match msg {
        ExecuteMsg::Increment {} => try_increment(state),
        ExecuteMsg::IncrementXFactor {} => try_increment_x_factor(state, sender),
        ExecuteMsg::IncrementMembersOnlyCount {} => try_increment_members_only_count(state, sender),
        ExecuteMsg::AddMeToWaitingList {} => try_add_me_to_waiting_list(state, sender),
        ExecuteMsg::AddMemberToClub { prospect } => try_add_member_to_club(state, sender, prospect),
        ExecuteMsg::AddWaitingListToClub {} => try_add_waiting_list_to_club(state, sender),
        ExecuteMsg::Reset { count } => try_reset(state, sender, count),
        ExecuteMsg::ResetXFactor { x_factor } => try_reset_x_factor(state, sender, x_factor),
        ExecuteMsg::ResetMembersOnlyCount {} => try_reset_members_only_count(state, sender),
    }
}

/// `i` is the first position at which `valid` is false.
pub open spec fn first_invalid(valid: Seq<bool>, i: int) -> bool {
    &&& 0 <= i < valid.len()
    &&& !valid[i]
    &&& forall|j: int| 0 <= j < i ==> valid[j]
}

/// The roster a club starts with: the given one, or else the creator alone.
pub open spec fn initial_members(sender: Seq<char>, members: Option<Vec<String>>) -> Seq<
    Seq<char>,
> {
    match members {
        Some(l) => ids(l@),
        None => seq![sender],
    }
}

/// The state right after creation.
pub open spec fn instantiated(sender: Seq<char>, msg: InstantiateMsg) -> ClubView {
    ClubView {
        count: msg.count as int,
        x_factor: msg.x_factor as int,
        members_only_count: 0,
        owner: sender,
        members_list: initial_members(sender, msg.members_list),
        waiting_list: Seq::empty(),
    }
}

/// Whether the creation parameters carry a roster with `len` entries.
pub open spec fn roster_len_is(msg: InstantiateMsg, len: nat) -> bool {
    match msg.members_list {
        Some(l) => l@.len() == len,
        None => true,
    }
}

/// Creates the club's state. `valid[i]` tells whether entry `i` of the given
/// roster is a well-formed identity; the first entry that is not fails the
/// whole creation.
pub fn instantiate(sender: &String, msg: InstantiateMsg, valid: &Vec<bool>) -> (r: Result<
    State,
    ContractError,
>)
    requires
        roster_len_is(msg, valid@.len()),
    ensures
        r is Err <==> msg.members_list is Some && exists|i: int| 0 <= i < valid@.len() && !valid@[i],
        r is Err ==> (r matches Err(ContractError::InvalidIdentity { index }) && first_invalid(
            valid@,
            index as int,
        )),
        r is Ok ==> r->Ok_0@ == instantiated(sender@, msg),
{
    let count = msg.count;
    let x_factor = msg.x_factor;
    let given = msg.members_list;
    let members_list = match given {
        Some(list) => {
            let mut i: usize = 0;
            while i < list.len()
                invariant
                    0 <= i <= list.len(),
                    valid@.len() == list@.len(),
                    msg.members_list == Some(list),
                    forall|j: int| 0 <= j < i ==> valid@[j],
                decreases list.len() - i,
            {
                if !valid[i] {
                    assert(first_invalid(valid@, i as int));
                    return Err(ContractError::InvalidIdentity { index: i });
                }
                i = i + 1;
            }
            list
        },
        None => vec![sender.clone()],
    };
    let state = State {
        count,
        x_factor,
        members_only_count: 0,
        owner: sender.clone(),
        members_list,
        waiting_list: Vec::new(),
    };
    assert(state@.members_list =~= instantiated(sender@, msg).members_list);
    assert(state@.waiting_list =~= Seq::<Seq<char>>::empty());
    Ok(state)
}

/// A copy of a roster.
fn copy_list(list: &Vec<String>) -> (r: Vec<String>)
    ensures
        r@ == list@,
{
    let r = list.clone();
    assert forall|i: int| 0 <= i < list.len() implies r@[i] == list@[i] by {
        assert(cloned::<String>(list[i], r[i]));
    }
    assert(r@ =~= list@);
    r
}

pub fn query_count(state: &State) -> (r: CountResponse)
    ensures
        r.count == state.count,
{
    CountResponse { count: state.count }
}

pub fn query_x_factor(state: &State) -> (r: XFactorResponse)
    ensures
        r.x_factor == state.x_factor,
{
    XFactorResponse { x_factor: state.x_factor }
}

pub fn query_members_only_count(state: &State) -> (r: MembersOnlyCountResponse)
    ensures
        r.members_only_count == state.members_only_count,
{
    MembersOnlyCountResponse { members_only_count: state.members_only_count }
}

pub fn query_members_list(state: &State) -> (r: MemberListResponse)
    ensures
        r.members_list@ == state.members_list@,
{
    MemberListResponse { members_list: copy_list(&state.members_list) }
}

pub fn query_waiting_list(state: &State) -> (r: WaitingListResponse)
    ensures
        r.waiting_list@ == state.waiting_list@,
{
    WaitingListResponse { waiting_list: copy_list(&state.waiting_list) }
}

/// Answers a query from the current state; queries change nothing.
pub fn query(state: &State, msg: QueryMsg) -> (r: QueryResponse)
    ensures
        msg is GetCount ==> r == QueryResponse::Count(CountResponse { count: state.count }),
        msg is GetXFactor ==> r == QueryResponse::XFactor(XFactorResponse { x_factor: state.x_factor }),
        msg is GetMembersOnlyCount ==> r == QueryResponse::MembersOnlyCount(
            MembersOnlyCountResponse { members_only_count: state.members_only_count },
        ),
        msg is GetMemberList ==> r is MemberList && r->MemberList_0.members_list@
            == state.members_list@,
        msg is GetWaitingList ==> r is WaitingList && r->WaitingList_0.waiting_list@
            == state.waiting_list@,
{
    match msg {
        QueryMsg::GetCount {} => QueryResponse::Count(query_count(state)),
        QueryMsg::GetXFactor {} => QueryResponse::XFactor(query_x_factor(state)),
        QueryMsg::GetMembersOnlyCount {} => QueryResponse::MembersOnlyCount(
            query_members_only_count(state),
        ),
        QueryMsg::GetMemberList {} => QueryResponse::MemberList(query_members_list(state)),
        QueryMsg::GetWaitingList {} => QueryResponse::WaitingList(query_waiting_list(state)),
    }
}

} // verus!
