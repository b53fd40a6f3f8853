//! Where the configuration file lives: two known places under the user's
//! home directory, tried in a fixed order.

use vstd::prelude::*;

verus! {

/// Why no configuration file could be chosen.
#[derive(Clone, Copy, Debug, PartialEq, Eq)]
pub enum PathError {
    /// The user's home directory is unknown.
    HomeDirectoryUnavailable,
    /// None of the known locations holds the file.
    ConfigFileNotFound,
}

/// The file inside the simulator's store-packaged install.
pub open spec fn store_config_path(home: Seq<char>) -> Seq<char> {
    home + "\\AppData\\Local\\Packages\\Microsoft.FlightSimulator_8wekyb3d8bbwe\\LocalCache\\SimConnect.xml"@
}

/// The file inside the roaming profile.
pub open spec fn roaming_config_path(home: Seq<char>) -> Seq<char> {
    home + "\\AppData\\Roaming\\Microsoft Flight Simulator\\SimConnect.xml"@
}

/// The places to look, most preferred first.
pub fn config_path_candidates(home: Option<String>) -> (r: Result<Vec<String>, PathError>)
    ensures
        home is None ==> r == Err::<Vec<String>, PathError>(PathError::HomeDirectoryUnavailable),
        home matches Some(h) ==> r matches Ok(v) && v@.len() == 2 && v@[0]@ == store_config_path(h@)
            && v@[1]@ == roaming_config_path(h@),
{
    match home {
        None => Err(PathError::HomeDirectoryUnavailable),
        Some(h) => {
            let mut store = h.clone();
            store.append(
                "\\AppData\\Local\\Packages\\Microsoft.FlightSimulator_8wekyb3d8bbwe\\LocalCache\\SimConnect.xml",
            );
            let mut roaming = h;
            roaming.append("\\AppData\\Roaming\\Microsoft Flight Simulator\\SimConnect.xml");
            let mut v: Vec<String> = Vec::new();
            v.push(store);
            v.push(roaming);
            Ok(v)
        },
    }
}

/// `k` is the first position below `n` whose flag is set.
pub open spec fn is_first_existing(exists: Seq<bool>, n: int, k: int) -> bool {
    &&& 0 <= k < n
    &&& k < exists.len()
    &&& exists[k]
    &&& forall|j: int| 0 <= j < k ==> !#[trigger] exists[j]
}

/// The first candidate whose flag says that it exists. A candidate without a
/// flag counts as missing.
pub fn select_config_path(candidates: &Vec<String>, exists: &Vec<bool>) -> (r: Result<
    String,
    PathError,
>)
    ensures
        r matches Ok(p) ==> exists|k: int|
            is_first_existing(exists@, candidates.len() as int, k) && p@ == candidates@[k]@,
        r is Err ==> r == Err::<String, PathError>(PathError::ConfigFileNotFound),
        r is Err <==> forall|j: int|
            0 <= j < candidates.len() && j < exists.len() ==> !#[trigger] exists@[j],
{
    let mut k: usize = 0;
    while k < candidates.len() && k < exists.len()
        invariant
            k <= candidates.len(),
            forall|j: int| 0 <= j < k && j < exists.len() ==> !#[trigger] exists@[j],
        decreases candidates.len() - k,
    {
        if exists[k] {
            assert(is_first_existing(exists@, candidates.len() as int, k as int));
            return Ok(candidates[k].clone());
        }
        k = k + 1;
    }
    Err(PathError::ConfigFileNotFound)
}

} // verus!
