use vstd::prelude::*;

verus! {

/// Creation parameters: the two free counters and, optionally, the initial roster.
pub struct InstantiateMsg {
    pub count: i32,
    pub x_factor: i32,
    pub members_list: Option<Vec<String>>,
}

/// The commands that change the club's state.
pub enum ExecuteMsg {
    Increment {},
    IncrementXFactor {},
    IncrementMembersOnlyCount {},
    AddMeToWaitingList {},
    AddMemberToClub { prospect: String },
    AddWaitingListToClub {},
    Reset { count: i32 },
    ResetXFactor { x_factor: i32 },
    ResetMembersOnlyCount {},
}

/// The read-only queries.
#[derive(Clone, Copy, Debug, PartialEq, Eq, Structural)]
pub enum QueryMsg {
    GetCount {},
    GetXFactor {},
    GetMembersOnlyCount {},
    GetMemberList {},
    GetWaitingList {},
}

#[derive(Clone, Copy, Debug, PartialEq, Eq, Structural)]
pub struct CountResponse {
    pub count: i32,
}

#[derive(Clone, Copy, Debug, PartialEq, Eq, Structural)]
pub struct XFactorResponse {
    pub x_factor: i32,
}

#[derive(Clone, Copy, Debug, PartialEq, Eq, Structural)]
pub struct MembersOnlyCountResponse {
    pub members_only_count: i32,
}

pub struct MemberListResponse {
    pub members_list: Vec<String>,
}

pub struct WaitingListResponse {
    pub waiting_list: Vec<String>,
}

/// The answer to a query: one response record per query.
pub enum QueryResponse {
    Count(CountResponse),
    XFactor(XFactorResponse),
    MembersOnlyCount(MembersOnlyCountResponse),
    MemberList(MemberListResponse),
    WaitingList(WaitingListResponse),
}

/// Why a command or the creation of the club was refused.
#[derive(Clone, Copy, Debug, PartialEq, Eq, Structural)]
pub enum ContractError {
    /// The entry at `index` of the initial roster is not a well-formed identity.
    InvalidIdentity { index: usize },
    /// The caller does not satisfy the command's authorization predicate.
    Unauthorized {},
}

} // verus!
