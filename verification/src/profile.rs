//! The dock's GATT profile: one service with a command characteristic that is
//! written and a response characteristic that notifies.
//!
//! UUIDs are held as their 128 bit values. Services and characteristics are
//! named by their position in the list the radio reported, so that the caller
//! can keep the handles and this crate only the numbers.

use vstd::prelude::*;

use crate::error::SessionError;

verus! {

/// `0000fdc2-0000-1000-8000-00805f9b34fb`, the service the dock advertises.
pub const SERVICE_UUID: u128 = 0x0000fdc2_0000_1000_8000_00805f9b34fb;

/// `c2e758b9-0e78-41e0-b0cb-98a593193fc5`, the characteristic commands are written to.
pub const COMMAND_UUID: u128 = 0xc2e758b9_0e78_41e0_b0cb_98a593193fc5;

/// `b84ac9c6-29c5-46d4-bba1-9d534784330f`, the characteristic responses arrive on.
pub const RESPONSE_UUID: u128 = 0xb84ac9c6_29c5_46d4_bba1_9d534784330f;

/// The two characteristics of one connection, by position in the discovered list.
#[derive(Clone, Copy, Debug, PartialEq, Eq, Structural)]
pub struct ServiceEndpoints {
    pub command_characteristic: usize,
    pub response_characteristic: usize,
}

/// `at` is the first position of `target` in `uuids`.
pub open spec fn is_first(uuids: Seq<u128>, target: u128, at: int) -> bool {
    &&& 0 <= at < uuids.len()
    &&& uuids[at] == target
    &&& forall|j: int| 0 <= j < at ==> uuids[j] != target
}

/// The first position of `target` in `uuids`, if it occurs.
pub open spec fn position_of(uuids: Seq<u128>, target: u128) -> Option<int> {
    if uuids.contains(target) {
        Some(choose|at: int| is_first(uuids, target, at))
    } else {
        None
    }
}

/// The endpoints found in a list of characteristic UUIDs: the first
/// occurrence of each of the two, if both occur.
pub open spec fn endpoints_in(uuids: Seq<u128>) -> Option<ServiceEndpoints> {
    match (position_of(uuids, COMMAND_UUID), position_of(uuids, RESPONSE_UUID)) {
        (Some(command), Some(response)) => Some(
            ServiceEndpoints {
                command_characteristic: command as usize,
                response_characteristic: response as usize,
            },
        ),
        _ => None,
    }
}

/// A first position is the position `position_of` names.
pub proof fn lemma_first_is_position(uuids: Seq<u128>, target: u128, at: int)
    requires
        is_first(uuids, target, at),
    ensures
        position_of(uuids, target) == Some(at),
{
    assert(uuids.contains(target));
    let chosen = choose|k: int| is_first(uuids, target, k);
    assert(is_first(uuids, target, chosen));
    if chosen < at {
        assert(uuids[chosen] != target);
    }
    if at < chosen {
        assert(uuids[at] != target);
    }
}

/// `position_of` names a first position whenever it names one.
pub proof fn lemma_position_is_first(uuids: Seq<u128>, target: u128)
    ensures
        match position_of(uuids, target) {
            Some(at) => is_first(uuids, target, at),
            None => !uuids.contains(target),
        },
{
    if uuids.contains(target) {
        let some = choose|i: int| 0 <= i < uuids.len() && uuids[i] == target;
        lemma_first_exists(uuids, target, some);
    }
}

/// If `target` occurs at `at`, it has a first position.
proof fn lemma_first_exists(uuids: Seq<u128>, target: u128, at: int)
    requires
        0 <= at < uuids.len(),
        uuids[at] == target,
    ensures
        exists|k: int| is_first(uuids, target, k),
    decreases at,
{
    if exists|j: int| 0 <= j < at && uuids[j] == target {
        let j = choose|j: int| 0 <= j < at && uuids[j] == target;
        lemma_first_exists(uuids, target, j);
    } else {
        assert(is_first(uuids, target, at));
    }
}

/// Finds the first occurrence of `target`.
pub fn find_uuid(uuids: &Vec<u128>, target: u128) -> (at: Option<usize>)
    ensures
        at.is_some() == uuids@.contains(target),
        at matches Some(i) ==> is_first(uuids@, target, i as int),
        position_of(uuids@, target) == (match at {
            Some(i) => Some(i as int),
            None => None,
        }),
{
    let mut i: usize = 0;
    while i < uuids.len()
        invariant
            i <= uuids.len(),
            forall|j: int| 0 <= j < i ==> uuids@[j] != target,
        decreases uuids.len() - i,
    {
        if uuids[i] == target {
            proof {
                lemma_first_is_position(uuids@, target, i as int);
            }
            return Some(i);
        }
        i += 1;
    }
    None
}

/// The match rule of discovery: the advertised services hold the dock's service.
pub fn advertises_target(services: &Vec<u128>) -> (matched: bool)
    ensures
        matched == services@.contains(SERVICE_UUID),
{
    find_uuid(services, SERVICE_UUID).is_some()
}

/// Picks the dock's service from the services of a connected device.
///
/// Fails with `ServiceDiscoveryError` exactly when the service is absent.
pub fn resolve_service(services: &Vec<u128>) -> (found: Result<usize, SessionError>)
    ensures
        found.is_ok() == services@.contains(SERVICE_UUID),
        found matches Ok(i) ==> position_of(services@, SERVICE_UUID) == Some(i as int),
        found matches Err(e) ==> e == SessionError::ServiceDiscoveryError,
{
    match find_uuid(services, SERVICE_UUID) {
        Some(i) => Ok(i),
        None => Err(SessionError::ServiceDiscoveryError),
    }
}

/// Picks the command and the response characteristic from those of the service.
///
/// Fails with `ServiceDiscoveryError` exactly when either is absent.
pub fn resolve_endpoints(characteristics: &Vec<u128>) -> (found: Result<
    ServiceEndpoints,
    SessionError,
>)
    ensures
        found.is_ok() == (characteristics@.contains(COMMAND_UUID) && characteristics@.contains(
            RESPONSE_UUID,
        )),
        found matches Ok(endpoints) ==> {
            &&& endpoints_in(characteristics@) == Some(endpoints)
            &&& is_first(
                characteristics@,
                COMMAND_UUID,
                endpoints.command_characteristic as int,
            )
            &&& is_first(
                characteristics@,
                RESPONSE_UUID,
                endpoints.response_characteristic as int,
            )
        },
        found matches Err(e) ==> e == SessionError::ServiceDiscoveryError && endpoints_in(
            characteristics@,
        ).is_none(),
{
    let command = find_uuid(characteristics, COMMAND_UUID);
    let response = find_uuid(characteristics, RESPONSE_UUID);
    match (command, response) {
        (Some(c), Some(r)) => Ok(
            ServiceEndpoints { command_characteristic: c, response_characteristic: r },
        ),
        _ => Err(SessionError::ServiceDiscoveryError),
    }
}

} // verus!
