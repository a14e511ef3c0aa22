//! The identity key that stands in for a file's path when the file is
//! compiled for one target.
//!
//! The rewrite engine names each action it extracts by a hash of the file
//! identity it is given. A module that is imported by both the client and the
//! server bundle is compiled twice, so the two passes must hand the engine two
//! different identities, or their actions would collide.

use crate::target::{lemma_rendering_shape, ActionsTransform};
use vstd::prelude::*;
use vstd::string::StringExecFns;

verus! {

/// The character that stands between the path and the target's rendering.
pub const SEPARATOR: char = '_';

/// The identity key of `path` under `target`: the path, the separator, and
/// the rendering of the target.
pub open spec fn identity_key(path: Seq<char>, target: ActionsTransform) -> Seq<char> {
    path + seq![SEPARATOR] + target.rendering()
}

/// Derives the identity key of a file for one target.
pub fn derive(file_path: &str, target: ActionsTransform) -> (key: String)
    ensures
        key@ == identity_key(file_path@, target),
{
    let mut key = file_path.to_owned();
    key.append("_");
    key.append(target.name());
    proof {
        reveal_strlit("_");
        assert("_"@ =~= seq![SEPARATOR]);
    }
    key
}

/// A key is seven characters longer than its path, and holds the path, then
/// the separator, then the rendering of the target.
pub proof fn lemma_identity_key_shape(path: Seq<char>, target: ActionsTransform)
    ensures
        identity_key(path, target).len() == path.len() + 7,
        identity_key(path, target).subrange(0, path.len() as int) == path,
        identity_key(path, target)[path.len() as int] == SEPARATOR,
        identity_key(path, target).subrange(path.len() + 1 as int, path.len() + 7 as int)
            == target.rendering(),
{
    lemma_rendering_shape(target);
    let key = identity_key(path, target);
    assert(key.subrange(0, path.len() as int) =~= path);
    assert(key.subrange(path.len() + 1 as int, path.len() + 7 as int) =~= target.rendering());
}

/// Derivation is injective in the pair of path and target: two keys are equal
/// only if they come from the same path and the same target. This holds of
/// every path, also of one that contains the separator or ends like a
/// rendering, because all renderings have the same length.
pub proof fn lemma_identity_key_injective(
    first_path: Seq<char>,
    first_target: ActionsTransform,
    second_path: Seq<char>,
    second_target: ActionsTransform,
)
    requires
        identity_key(first_path, first_target) == identity_key(second_path, second_target),
    ensures
        first_path == second_path,
        first_target == second_target,
{
    lemma_identity_key_shape(first_path, first_target);
    lemma_identity_key_shape(second_path, second_target);
    lemma_rendering_shape(first_target);
    lemma_rendering_shape(second_target);
}

/// One path compiled for two different targets gets two different keys.
pub proof fn lemma_identity_key_separates_targets(
    path: Seq<char>,
    first: ActionsTransform,
    second: ActionsTransform,
)
    requires
        first != second,
    ensures
        identity_key(path, first) != identity_key(path, second),
{
    if identity_key(path, first) == identity_key(path, second) {
        lemma_identity_key_injective(path, first, path, second);
    }
}

/// Equal paths and equal targets give equal keys: the key depends on nothing
/// but the pair it is derived from.
pub proof fn lemma_identity_key_deterministic(
    first_path: Seq<char>,
    first_target: ActionsTransform,
    second_path: Seq<char>,
    second_target: ActionsTransform,
)
    requires
        first_path == second_path,
        first_target == second_target,
    ensures
        identity_key(first_path, first_target) == identity_key(second_path, second_target),
{
}

} // verus!
