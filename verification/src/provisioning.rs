//! Names used when the controller sets up the agent room and the agents'
//! Matrix accounts.
use vstd::prelude::*;
use crate::text::{int_decimal, push_signed_decimal, push_str};

verus! {

/// How many agent accounts the controller registers and invites at start-up.
pub const SETUP_AGENT_COUNT: u32 = 1;

/// The local part of the agent room's alias, also the room's name.
pub fn agent_room_name() -> (name: &'static str)
    ensures
        name@ == "agent_room"@,
{
    "agent_room"
}

/// `#agent_room:{matrix_hostname}`.
pub open spec fn room_alias_spec(matrix_hostname: Seq<char>) -> Seq<char> {
    "#agent_room:"@ + matrix_hostname
}

/// The alias of the agent room on the homeserver.
pub fn room_alias(matrix_hostname: &str) -> (alias: String)
    ensures
        alias@ == "#agent_room:"@ + matrix_hostname@,
        alias@ == room_alias_spec(matrix_hostname@),
{
    let mut alias = String::new();
    push_str(&mut alias, "#agent_room:");
    push_str(&mut alias, matrix_hostname);
    assert(alias@ =~= room_alias_spec(matrix_hostname@));
    alias
}

/// `agent_{i}`: the user name of the agent with index `i`.
pub open spec fn agent_username_spec(i: int) -> Seq<char> {
    "agent_"@ + int_decimal(i)
}

/// `{matrix_password}_{i}`: the password of the agent with index `i`.
pub open spec fn agent_password_spec(matrix_password: Seq<char>, i: int) -> Seq<char> {
    matrix_password + "_"@ + int_decimal(i)
}

/// The user name of the agent with index `i`.
pub fn agent_username(i: i64) -> (name: String)
    ensures
        name@ == "agent_"@ + int_decimal(i as int),
        name@ == agent_username_spec(i as int),
{
    let mut name = String::new();
    push_str(&mut name, "agent_");
    push_signed_decimal(&mut name, i);
    assert(name@ =~= agent_username_spec(i as int));
    name
}

/// The password of the agent with index `i`, derived from the controller's.
pub fn agent_password(matrix_password: &str, i: i64) -> (password: String)
    ensures
        password@ == matrix_password@ + "_"@ + int_decimal(i as int),
        password@ == agent_password_spec(matrix_password@, i as int),
{
    let mut password = String::new();
    push_str(&mut password, matrix_password);
    push_str(&mut password, "_");
    push_signed_decimal(&mut password, i);
    assert(password@ =~= agent_password_spec(matrix_password@, i as int));
    password
}

/// Whether agent accounts are registered as homeserver admins: they are not.
pub const AGENT_ACCOUNT_ADMIN: bool = false;

/// An agent account to register and invite to the room.
pub struct AgentAccount {
    pub username: String,
    pub password: String,
    /// Whether the account is registered as a homeserver admin.
    pub admin: bool,
}

/// The agent accounts set up at start-up, agent `0` first.
pub fn setup_agent_accounts(matrix_password: &str) -> (accounts: Vec<AgentAccount>)
    ensures
        accounts@.len() == SETUP_AGENT_COUNT,
        forall|i: int|
            0 <= i < accounts@.len() ==> {
                &&& #[trigger] accounts@[i].username@ == agent_username_spec(i)
                &&& accounts@[i].password@ == agent_password_spec(matrix_password@, i)
                &&& !accounts@[i].admin
            },
{
    let mut accounts: Vec<AgentAccount> = Vec::new();
    let mut i: u32 = 0;
    while i < SETUP_AGENT_COUNT
        invariant
            i <= SETUP_AGENT_COUNT,
            accounts@.len() == i,
            forall|j: int|
                0 <= j < accounts@.len() ==> {
                    &&& #[trigger] accounts@[j].username@ == agent_username_spec(j)
                    &&& accounts@[j].password@ == agent_password_spec(matrix_password@, j)
                    &&& !accounts@[j].admin
                },
        decreases SETUP_AGENT_COUNT - i,
    {
        let username = agent_username(i as i64);
        let password = agent_password(matrix_password, i as i64);
        accounts.push(AgentAccount { username, password, admin: AGENT_ACCOUNT_ADMIN });
        i = i + 1;
    }
    accounts
}

} // verus!
