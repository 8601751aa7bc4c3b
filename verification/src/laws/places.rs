//! Laws on where the helper is looked for, and on the bridge that points at it.
use std::path::PathBuf;
use tokio::sync::Semaphore;
use vstd::prelude::*;

use crate::bridge::{
    has_own_budget, is_fresh, permit_budget, whole_seconds, BridgeView, DEFAULT_MAX_CONCURRENCY,
};
use crate::locate::{
    bundle_paths, bundled_helper, env_path, file_flags, first_file, helper_in, is_empty_path,
    joined, search_paths, FileStatus, SearchPlaces, BINARY_ENV_VAR, BINARY_NAME,
};

verus! {

/// In every directory the helper is the file `FMBridge`.
pub proof fn the_helper_has_one_name(dir: PathBuf)
    ensures
        helper_in(dir) == joined(dir, "FMBridge"@),
        BINARY_NAME@ == "FMBridge"@,
        BINARY_ENV_VAR@ == "FM_BRIDGE_BIN"@,
{
}

/// A bundle is searched in two places only: next to the executable, then among the resources
/// beside its directory.
pub proof fn bundles_hold_the_helper_in_two_places(exe_dir: PathBuf)
    ensures
        bundle_paths(exe_dir).len() == 2,
        bundle_paths(exe_dir)[0] == joined(exe_dir, "FMBridge"@),
        bundle_paths(exe_dir)[1] == joined(
            joined(joined(exe_dir, ".."@), "Resources"@),
            "FMBridge"@,
        ),
{
}

/// What is found of a bundle is its first place that holds a file, resolved where that worked; a
/// second file changes nothing, and where neither place holds a file nothing is found.
pub proof fn bundles_give_the_first_file(exe_dir: PathBuf, status: Seq<FileStatus>)
    ensures
        status.len() > 0 && status[0].is_file ==> bundled_helper(exe_dir, status) == Some(
            match status[0].canonical {
                Some(path) => path,
                None => joined(exe_dir, "FMBridge"@),
            },
        ),
        status.len() > 1 && !status[0].is_file && status[1].is_file ==> bundled_helper(
            exe_dir,
            status,
        ) == Some(
            match status[1].canonical {
                Some(path) => path,
                None => joined(joined(joined(exe_dir, ".."@), "Resources"@), "FMBridge"@),
            },
        ),
        (status.len() == 0 || !status[0].is_file) && (status.len() < 2 || !status[1].is_file)
            ==> bundled_helper(exe_dir, status) is None,
{
    let flags = file_flags(status);
    reveal_with_fuel(first_file, 3);
    if status.len() > 0 {
        assert(flags[0] == status[0].is_file);
    }
    if status.len() > 1 {
        assert(flags[1] == status[1].is_file);
    }
}

/// How many places come before the search path.
pub open spec fn places_before_the_search_path(places: SearchPlaces) -> int {
    (if places.working_dir is Some {
        2int
    } else {
        0
    }) + (if places.executable_dir is Some {
        1int
    } else {
        0
    })
}

/// The helper is looked for in these places, in this order, and in no others: where it is built for
/// release under the working directory, where it is built for debugging there, next to the
/// executable, and in every directory of the search path, in its order.
pub proof fn places_are_searched_in_order(places: SearchPlaces, i: int)
    ensures
        ({
            let paths = search_paths(places);
            let before = places_before_the_search_path(places);
            &&& paths.len() == before + places.search_path@.len()
            &&& places.working_dir matches Some(dir) ==> {
                &&& paths[0] == joined(joined(dir, "swift/.build/release"@), "FMBridge"@)
                &&& paths[1] == joined(joined(dir, "swift/.build/debug"@), "FMBridge"@)
            }
            &&& places.executable_dir matches Some(dir) ==> paths[before - 1] == joined(
                dir,
                "FMBridge"@,
            )
            &&& 0 <= i < places.search_path@.len() ==> paths[before + i] == joined(
                places.search_path@[i],
                "FMBridge"@,
            )
        }),
{
}

/// A variable names the path that it holds, and no path exactly where it is not set or empty.
pub proof fn a_variable_names_what_it_holds(path: PathBuf)
    ensures
        env_path(None) is None,
        is_empty_path(path) ==> env_path(Some(path)) is None,
        !is_empty_path(path) ==> env_path(Some(path)) == Some(path),
{
}

/// A bridge that was just made points at its helper, gives a request five minutes, and runs one
/// request at a time, on a budget of its own.
pub proof fn a_fresh_bridge_is_patient_and_serial(b: BridgeView, binary: PathBuf)
    requires
        is_fresh(b, binary),
    ensures
        b.binary == binary,
        b.timeout == Some(whole_seconds(300)),
        b.limit == 1,
        permit_budget(b.limiter) == 1,
        call_ensures(Semaphore::new, (1usize,), b.limiter),
        DEFAULT_MAX_CONCURRENCY == 1,
{
}

/// A budget of its own is one that was made with as many permits as the limit says.
pub proof fn an_own_budget_is_a_new_one(b: BridgeView)
    requires
        has_own_budget(b),
    ensures
        permit_budget(b.limiter) == b.limit,
        call_ensures(Semaphore::new, (b.limit,), b.limiter),
{
}

} // verus!
