use club_contract::contract::{
    execute, fits_counters, instantiate, is_authorized, query, query_count, query_members_list, query_members_only_count,
    query_waiting_list, query_x_factor, try_add_me_to_waiting_list, try_add_member_to_club,
    try_add_waiting_list_to_club, try_increment, try_increment_members_only_count,
    try_increment_x_factor, try_reset, try_reset_members_only_count, try_reset_x_factor,
};
use club_contract::msg::{
    ContractError, CountResponse, ExecuteMsg, InstantiateMsg, QueryMsg, QueryResponse,
    XFactorResponse,
};
use club_contract::state::{contains_identity, State};

fn s(x: &str) -> String {
    x.to_string()
}

fn club(creator: &str, count: i32, x_factor: i32, members: Option<Vec<&str>>) -> State {
    let members_list: Option<Vec<String>> = members.map(|v| v.into_iter().map(s).collect());
    let valid: Vec<bool> = match &members_list {
        Some(l) => vec![true; l.len()],
        None => vec![],
    };
    let msg = InstantiateMsg { count, x_factor, members_list };
    instantiate(&s(creator), msg, &valid).unwrap()
}

fn get_count(state: &State) -> i32 {
    match query(state, QueryMsg::GetCount {}) {
        QueryResponse::Count(v) => v.count,
        _ => panic!("wrong response"),
    }
}

fn strings(v: &[&str]) -> Vec<String> {
    v.iter().map(|x| s(x)).collect()
}

#[test]
fn proper_initialization() {
    let msg = InstantiateMsg { count: 17, x_factor: 17, members_list: None };
    let state = instantiate(&s("creator"), msg, &vec![]).unwrap();
    let value: CountResponse = match query(&state, QueryMsg::GetCount {}) {
        QueryResponse::Count(v) => v,
        _ => panic!("wrong response"),
    };
    assert_eq!(17, value.count);
}

#[test]
fn increment() {
    let mut state = club("creator", 17, 17, None);
    // anyone can increment
    execute(&mut state, &s("anyone"), ExecuteMsg::Increment {}).unwrap();
    assert_eq!(18, get_count(&state));
}

#[test]
fn reset() {
    // the owner may reset only while off the roster, so the roster is given
    let mut state = club("creator", 17, 17, Some(vec!["member"]));
    let res = execute(&mut state, &s("anyone"), ExecuteMsg::Reset { count: 5 });
    match res {
        Err(ContractError::Unauthorized {}) => {}
        _ => panic!("Must return unauthorized error"),
    }
    execute(&mut state, &s("creator"), ExecuteMsg::Reset { count: 5 }).unwrap();
    assert_eq!(5, get_count(&state));
}

#[test]
fn instantiate_sets_fields() {
    let state = club("creator", -3, 42, None);
    assert_eq!(query_count(&state), CountResponse { count: -3 });
    assert_eq!(query_x_factor(&state), XFactorResponse { x_factor: 42 });
    assert_eq!(query_members_only_count(&state).members_only_count, 0);
    assert_eq!(query_members_list(&state).members_list, strings(&["creator"]));
    assert!(query_waiting_list(&state).waiting_list.is_empty());
    assert_eq!(state.owner, s("creator"));
}

#[test]
fn instantiate_with_given_roster() {
    let state = club("creator", 1, 2, Some(vec!["alice", "bob"]));
    assert_eq!(state.members_list, strings(&["alice", "bob"]));
    assert_eq!(state.owner, s("creator"));
}

#[test]
fn instantiate_with_empty_roster() {
    let state = club("creator", 1, 2, Some(vec![]));
    assert!(state.members_list.is_empty());
}

#[test]
fn instantiate_rejects_first_invalid_identity() {
    let msg = InstantiateMsg {
        count: 1,
        x_factor: 2,
        members_list: Some(strings(&["alice", "BAD", "bad2"])),
    };
    let r = instantiate(&s("creator"), msg, &vec![true, false, false]);
    assert!(matches!(r, Err(ContractError::InvalidIdentity { index: 1 })));
}

#[test]
fn increment_at_scenario_values() {
    let mut state = club("creator", 17, 17, None);
    try_increment(&mut state).unwrap();
    assert_eq!(get_count(&state), 18);
    let res = execute(&mut state, &s("anyone"), ExecuteMsg::Reset { count: 5 });
    assert_eq!(res, Err(ContractError::Unauthorized {}));
    assert_eq!(get_count(&state), 18);
}

#[test]
fn reset_refused_to_owner_who_is_member() {
    let mut state = club("creator", 17, 17, None);
    let res = try_reset(&mut state, &s("creator"), 5);
    assert_eq!(res, Err(ContractError::Unauthorized {}));
    assert_eq!(state.count, 17);
}

#[test]
fn increment_x_factor_needs_x() {
    let mut state = club("creator", 0, 10, None);
    assert_eq!(
        try_increment_x_factor(&mut state, &s("alice")),
        Err(ContractError::Unauthorized {})
    );
    assert_eq!(state.x_factor, 10);
    try_increment_x_factor(&mut state, &s("xavier")).unwrap();
    assert_eq!(state.x_factor, 11);
    execute(&mut state, &s("max"), ExecuteMsg::IncrementXFactor {}).unwrap();
    assert_eq!(state.x_factor, 12);
}

#[test]
fn uppercase_x_is_not_x() {
    let mut state = club("creator", 0, 10, None);
    assert!(try_increment_x_factor(&mut state, &s("XAVIER")).is_err());
    assert_eq!(state.x_factor, 10);
}

#[test]
fn members_only_count_by_members() {
    let mut state = club("creator", 0, 0, None);
    try_increment_members_only_count(&mut state, &s("creator")).unwrap();
    try_increment_members_only_count(&mut state, &s("creator")).unwrap();
    assert_eq!(query_members_only_count(&state).members_only_count, 2);
    assert_eq!(
        try_increment_members_only_count(&mut state, &s("stranger")),
        Err(ContractError::Unauthorized {})
    );
    assert_eq!(
        try_reset_members_only_count(&mut state, &s("stranger")),
        Err(ContractError::Unauthorized {})
    );
    assert_eq!(state.members_only_count, 2);
    try_reset_members_only_count(&mut state, &s("creator")).unwrap();
    assert_eq!(state.members_only_count, 0);
}

#[test]
fn waiting_list_join_once() {
    let mut state = club("creator", 0, 0, None);
    try_add_me_to_waiting_list(&mut state, &s("alice")).unwrap();
    assert_eq!(state.waiting_list, strings(&["alice"]));
    assert_eq!(
        try_add_me_to_waiting_list(&mut state, &s("alice")),
        Err(ContractError::Unauthorized {})
    );
    assert_eq!(
        try_add_me_to_waiting_list(&mut state, &s("creator")),
        Err(ContractError::Unauthorized {})
    );
    assert_eq!(state.waiting_list, strings(&["alice"]));
}

#[test]
fn waiting_list_moves_to_club_in_order() {
    let mut state = club("creator", 0, 0, None);
    try_add_me_to_waiting_list(&mut state, &s("bob")).unwrap();
    try_add_me_to_waiting_list(&mut state, &s("alice")).unwrap();
    assert_eq!(
        try_add_waiting_list_to_club(&mut state, &s("bob")),
        Err(ContractError::Unauthorized {})
    );
    assert_eq!(state.waiting_list, strings(&["bob", "alice"]));
    assert_eq!(state.members_list, strings(&["creator"]));
    execute(&mut state, &s("creator"), ExecuteMsg::AddWaitingListToClub {}).unwrap();
    assert_eq!(state.members_list, strings(&["creator", "bob", "alice"]));
    assert!(state.waiting_list.is_empty());
}

#[test]
fn empty_waiting_list_to_club() {
    let mut state = club("creator", 0, 0, None);
    try_add_waiting_list_to_club(&mut state, &s("creator")).unwrap();
    assert_eq!(state.members_list, strings(&["creator"]));
}

#[test]
fn add_member_by_member_only() {
    let mut state = club("creator", 0, 0, None);
    assert_eq!(
        try_add_member_to_club(&mut state, &s("eve"), s("eve")),
        Err(ContractError::Unauthorized {})
    );
    try_add_member_to_club(&mut state, &s("creator"), s("carol")).unwrap();
    try_add_member_to_club(&mut state, &s("carol"), s("carol")).unwrap();
    assert_eq!(state.members_list, strings(&["creator", "carol", "carol"]));
}

#[test]
fn reset_x_factor_routes() {
    let mut state = club("creator", 0, 3, None);
    assert_eq!(
        try_reset_x_factor(&mut state, &s("bob"), 9),
        Err(ContractError::Unauthorized {})
    );
    assert_eq!(state.x_factor, 3);
    try_reset_x_factor(&mut state, &s("rex"), 9).unwrap();
    assert_eq!(state.x_factor, 9);
    try_reset_x_factor(&mut state, &s("creator"), -1).unwrap();
    assert_eq!(state.x_factor, -1);
    execute(&mut state, &s("creator"), ExecuteMsg::ResetXFactor { x_factor: 4 }).unwrap();
    assert_eq!(state.x_factor, 4);
}

#[test]
fn execute_touches_only_its_field() {
    let mut state = club("creator", 1, 2, None);
    execute(&mut state, &s("creator"), ExecuteMsg::AddMemberToClub { prospect: s("dan") })
        .unwrap();
    assert_eq!(state.count, 1);
    assert_eq!(state.x_factor, 2);
    assert_eq!(state.members_only_count, 0);
    assert_eq!(state.members_list, strings(&["creator", "dan"]));
    assert!(state.waiting_list.is_empty());
    execute(&mut state, &s("dan"), ExecuteMsg::IncrementMembersOnlyCount {}).unwrap();
    execute(&mut state, &s("nobody"), ExecuteMsg::AddMeToWaitingList {}).unwrap();
    assert_eq!(state.count, 1);
    assert_eq!(state.x_factor, 2);
    assert_eq!(state.members_only_count, 1);
    assert_eq!(state.waiting_list, strings(&["nobody"]));
    execute(&mut state, &s("dan"), ExecuteMsg::ResetMembersOnlyCount {}).unwrap();
    assert_eq!(state.members_only_count, 0);
    assert_eq!(state.owner, s("creator"));
}

#[test]
fn queries_report_lists() {
    let mut state = club("creator", 0, 0, Some(vec!["a", "b"]));
    try_add_me_to_waiting_list(&mut state, &s("c")).unwrap();
    match query(&state, QueryMsg::GetMemberList {}) {
        QueryResponse::MemberList(r) => assert_eq!(r.members_list, strings(&["a", "b"])),
        _ => panic!("wrong response"),
    }
    match query(&state, QueryMsg::GetWaitingList {}) {
        QueryResponse::WaitingList(r) => assert_eq!(r.waiting_list, strings(&["c"])),
        _ => panic!("wrong response"),
    }
    match query(&state, QueryMsg::GetXFactor {}) {
        QueryResponse::XFactor(r) => assert_eq!(r.x_factor, 0),
        _ => panic!("wrong response"),
    }
    match query(&state, QueryMsg::GetMembersOnlyCount {}) {
        QueryResponse::MembersOnlyCount(r) => assert_eq!(r.members_only_count, 0),
        _ => panic!("wrong response"),
    }
}

#[test]
fn roster_lookup() {
    let list = strings(&["a", "bb", "c"]);
    assert!(contains_identity(&list, &s("bb")));
    assert!(!contains_identity(&list, &s("b")));
    assert!(!contains_identity(&vec![], &s("a")));
}

#[test]
fn count_scenario_with_owner_off_roster() {
    let mut state = club("creator", 17, 17, Some(vec!["member"]));
    execute(&mut state, &s("anyone"), ExecuteMsg::Increment {}).unwrap();
    assert_eq!(get_count(&state), 18);
    let res = execute(&mut state, &s("member"), ExecuteMsg::Reset { count: 5 });
    assert_eq!(res, Err(ContractError::Unauthorized {}));
    assert_eq!(get_count(&state), 18);
    execute(&mut state, &s("creator"), ExecuteMsg::Reset { count: 5 }).unwrap();
    assert_eq!(get_count(&state), 5);
}

#[test]
fn predicate_matches_commands() {
    let state = club("creator", 0, 0, None);
    assert!(is_authorized(&state, &s("anyone"), &ExecuteMsg::Increment {}));
    assert!(!is_authorized(&state, &s("anyone"), &ExecuteMsg::IncrementXFactor {}));
    assert!(is_authorized(&state, &s("box"), &ExecuteMsg::IncrementXFactor {}));
    assert!(is_authorized(&state, &s("creator"), &ExecuteMsg::ResetMembersOnlyCount {}));
    assert!(!is_authorized(&state, &s("creator"), &ExecuteMsg::Reset { count: 1 }));
    assert!(!is_authorized(&state, &s("creator"), &ExecuteMsg::AddMeToWaitingList {}));
    assert!(is_authorized(&state, &s("newcomer"), &ExecuteMsg::AddMeToWaitingList {}));
    assert!(is_authorized(&state, &s("creator"), &ExecuteMsg::ResetXFactor { x_factor: 1 }));
    assert!(!is_authorized(
        &state,
        &s("bob"),
        &ExecuteMsg::AddMemberToClub { prospect: s("bob") }
    ));
}

#[test]
fn counters_at_the_top_of_i32() {
    let state = club("creator", i32::MAX, i32::MAX - 1, None);
    assert!(!fits_counters(&state, &ExecuteMsg::Increment {}));
    assert!(fits_counters(&state, &ExecuteMsg::IncrementXFactor {}));
    assert!(fits_counters(&state, &ExecuteMsg::Reset { count: 0 }));
    let mut state = club("creator", i32::MAX - 1, 0, None);
    try_increment(&mut state).unwrap();
    assert_eq!(state.count, i32::MAX);
}
