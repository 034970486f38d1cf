//! The asset registry: one pair of images per toggle widget, built once at
//! startup from whatever the bitmap loader returned, with no partial-success
//! mode — one missing image fails the whole initialization.

use vstd::prelude::*;

verus! {

/// An opaque image handle, as the bitmap loader hands it out. The loader
/// reports a failed load as an error rather than as a handle, so every value
/// of this type stands for a successfully loaded image.
#[derive(Clone, Copy, Debug, PartialEq, Eq, Structural)]
pub struct ImageHandle {
    pub id: u64,
}

/// The two renderable states of one widget: the image drawn while unchecked
/// and the image drawn while checked.
#[derive(Clone, Copy, Debug, PartialEq, Eq, Structural)]
pub struct AssetPair {
    pub unchecked_image: ImageHandle,
    pub checked_image: ImageHandle,
}

/// Why the bitmap loader failed to produce an image.
#[derive(Clone, Copy, Debug, PartialEq, Eq, Structural)]
pub enum LoadError {
    NotFound,
    DecodeFailed,
}

/// A fatal startup failure: the asset pair at `asset_index` could not be
/// loaded. The tracker has no valid degraded mode, so the process must stop
/// before any window is shown.
#[derive(Clone, Copy, Debug, PartialEq, Eq, Structural)]
pub struct FatalStartup {
    pub asset_index: usize,
    pub error: LoadError,
}

/// Builds one group's asset registry from the loader's per-image results,
/// in declaration order. Succeeds exactly when every image of every pair
/// loaded; otherwise reports the first pair with a failure, preferring the
/// unchecked image's error when both failed.
pub fn build_registry(
    loaded: &Vec<(Result<ImageHandle, LoadError>, Result<ImageHandle, LoadError>)>,
) -> (r: Result<Vec<AssetPair>, FatalStartup>)
    ensures
        r is Ok <==> (forall|i: int|
            0 <= i < loaded@.len() ==> loaded@[i].0 is Ok && loaded@[i].1 is Ok),
        r matches Ok(pairs) ==> {
            &&& pairs@.len() == loaded@.len()
            &&& forall|i: int|
                0 <= i < loaded@.len() ==> pairs@[i] == (AssetPair {
                    unchecked_image: loaded@[i].0->Ok_0,
                    checked_image: loaded@[i].1->Ok_0,
                })
        },
        r matches Err(e) ==> {
            &&& e.asset_index < loaded@.len()
            &&& (loaded@[e.asset_index as int].0 is Err || loaded@[e.asset_index as int].1 is Err)
            &&& forall|j: int|
                0 <= j < e.asset_index ==> loaded@[j].0 is Ok && loaded@[j].1 is Ok
            &&& e.error == (if loaded@[e.asset_index as int].0 is Err {
                loaded@[e.asset_index as int].0->Err_0
            } else {
                loaded@[e.asset_index as int].1->Err_0
            })
        },
{
    let mut pairs: Vec<AssetPair> = Vec::new();
    let mut i: usize = 0;
    while i < loaded.len()
        invariant
            i <= loaded@.len(),
            pairs@.len() == i,
            forall|j: int| 0 <= j < i ==> loaded@[j].0 is Ok && loaded@[j].1 is Ok,
            forall|j: int|
                0 <= j < i ==> pairs@[j] == (AssetPair {
                    unchecked_image: loaded@[j].0->Ok_0,
                    checked_image: loaded@[j].1->Ok_0,
                }),
        decreases loaded@.len() - i,
    {
        let unchecked = loaded[i].0;
        let checked = loaded[i].1;
        match unchecked {
            Ok(u) => {
                match checked {
                    Ok(c) => {
                        pairs.push(AssetPair { unchecked_image: u, checked_image: c });
                    },
                    Err(e) => {
                        return Err(FatalStartup { asset_index: i, error: e });
                    },
                }
            },
            Err(e) => {
                return Err(FatalStartup { asset_index: i, error: e });
            },
        }
        i = i + 1;
    }
    Ok(pairs)
}

} // verus!
