//! The decisions of the login flow: whether the server admits another
//! player, the gating of authenticated profiles by their profile actions,
//! duplicate-login detection, and the cookie acknowledgement.

use vstd::prelude::*;

verus! {

/// An authenticated player profile, as the decisions here read it: the
/// account identifier, the name, and the actions the authentication service
/// attached.
#[derive(Debug)]
pub struct GameProfile {
    pub id: u128,
    pub name: String,
    pub profile_actions: Option<Vec<String>>,
}

/// Why authentication rejects a profile.
#[derive(PartialEq, Eq, Debug)]
pub enum AuthError {
    /// An action the configuration requires is missing from the profile.
    DisallowedAction,
    /// The profile carries actions and banned players are not admitted.
    Banned,
}

/// Why a login is turned away before play.
#[derive(Clone, Copy, PartialEq, Eq, Structural, Debug)]
pub enum DisconnectReason {
    ServerFull,
    DuplicateUuid,
    DuplicateName,
}

/// Whether another player may join: always when no limit is set, otherwise
/// only below the limit.
pub fn can_join(player_count: usize, max_players: u32) -> (r: bool)
    ensures
        r == (max_players == 0 || (player_count as int) < max_players as int),
{
    max_players == 0 || player_count < max_players as usize
}

/// Whether an element equal to the given one stands in the sequence.
pub open spec fn spec_contains_string(s: Seq<String>, x: Seq<char>) -> bool {
    exists|i: int| 0 <= i < s.len() && (#[trigger] s[i])@ == x
}

/// Whether a string list holds the given string.
pub fn contains_string(list: &Vec<String>, x: &String) -> (r: bool)
    ensures
        r == spec_contains_string(list@, x@),
{
    let n = list.len();
    let mut i: usize = 0;
    while i < n
        invariant
            0 <= i <= n,
            n == list@.len(),
            forall|j: int| 0 <= j < i ==> (#[trigger] list@[j])@ != x@,
        decreases n - i,
    {
        if list[i].eq(x) {
            proof {
                assert((list@[i as int])@ == x@);
            }
            return true;
        }
        i = i + 1;
    }
    false
}

/// The profile-action gate of authentication: without the banned-players
/// allowance any action bans; with it, every configured allowed action must
/// be present, and any action still bans.
pub fn check_profile_actions(
    actions: &Vec<String>,
    allow_banned_players: bool,
    allowed_actions: &Vec<String>,
) -> (r: Result<(), AuthError>)
    ensures
        !allow_banned_players ==> (r is Ok <==> actions@.len() == 0),
        !allow_banned_players && actions@.len() > 0 ==> r == Result::<(), AuthError>::Err(
            AuthError::Banned,
        ),
        allow_banned_players ==> ((exists|k: int|
            0 <= k < allowed_actions@.len() && !spec_contains_string(
                actions@,
                (#[trigger] allowed_actions@[k])@,
            )) ==> r == Result::<(), AuthError>::Err(AuthError::DisallowedAction)),
        allow_banned_players ==> ((forall|k: int|
            0 <= k < allowed_actions@.len() ==> spec_contains_string(
                actions@,
                (#[trigger] allowed_actions@[k])@,
            )) ==> (r is Ok <==> actions@.len() == 0)),
{
    if allow_banned_players {
        let n = allowed_actions.len();
        let mut k: usize = 0;
        while k < n
            invariant
                allow_banned_players,
                0 <= k <= n,
                n == allowed_actions@.len(),
                forall|j: int|
                    0 <= j < k ==> spec_contains_string(
                        actions@,
                        (#[trigger] allowed_actions@[j])@,
                    ),
            decreases n - k,
        {
            if !contains_string(actions, &allowed_actions[k]) {
                return Err(AuthError::DisallowedAction);
            }
            k = k + 1;
        }
        if actions.len() > 0 {
            return Err(AuthError::Banned);
        }
        Ok(())
    } else {
        if actions.len() > 0 {
            return Err(AuthError::Banned);
        }
        Ok(())
    }
}

/// Whether a joining profile duplicates an online player: the first match by
/// account identifier, then by name.
pub fn duplicate_login_check(
    online: &Vec<(u128, String)>,
    id: u128,
    name: &String,
) -> (r: Option<DisconnectReason>)
    ensures
        (exists|i: int| 0 <= i < online@.len() && (#[trigger] online@[i]).0 == id) ==> r == Some(
            DisconnectReason::DuplicateUuid,
        ),
        r is None ==> forall|i: int|
            0 <= i < online@.len() ==> ((#[trigger] online@[i]).0 != id && online@[i].1@ != name@),
{
    let n = online.len();
    let mut i: usize = 0;
    while i < n
        invariant
            0 <= i <= n,
            n == online@.len(),
            forall|j: int| 0 <= j < i ==> (#[trigger] online@[j]).0 != id,
        decreases n - i,
    {
        if online[i].0 == id {
            return Some(DisconnectReason::DuplicateUuid);
        }
        i = i + 1;
    }
    let mut k: usize = 0;
    while k < n
        invariant
            0 <= k <= n,
            n == online@.len(),
            forall|j: int| 0 <= j < n ==> (#[trigger] online@[j]).0 != id,
            forall|j: int| 0 <= j < k ==> (#[trigger] online@[j]).1@ != name@,
        decreases n - k,
    {
        if online[k].1.eq(name) {
            return Some(DisconnectReason::DuplicateName);
        }
        k = k + 1;
    }
    None
}

/// A cookie response received during login.
#[derive(Debug)]
pub struct SLoginCookieResponse {
    pub key: String,
    pub payload: Option<Vec<u8>>,
}

/// Acknowledges a login cookie response: nothing acts on it yet, so the
/// observation is the payload size, if one came.
pub fn handle_login_cookie_response(packet: &SLoginCookieResponse) -> (r: Option<usize>)
    ensures
        packet.payload is Some ==> r == Some(packet.payload->0@.len() as usize),
        packet.payload is None ==> r is None,
{
    match &packet.payload {
        Some(p) => Some(p.len()),
        None => None,
    }
}

} // verus!
