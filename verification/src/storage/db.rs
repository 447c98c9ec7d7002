//! Keys of the persistent store.
//!
//! Every value is filed under `user_id ‖ "_" ‖ session_id ‖ "_" ‖ tag`, where
//! the tag names the kind of artifact.

use vstd::prelude::*;

verus! {

/// A kind of stored artifact.
pub trait MPCStruct {
    /// The tag under which artifacts of this kind are filed.
    spec fn tag(&self) -> Seq<char>;

    /// The tag as an owned string.
    fn to_string(&self) -> (s: String)
        ensures
            s@ == self.tag(),
    ;

    /// Whether artifacts of this kind may only be looked up together with the
    /// customer they belong to. Kinds that do not say otherwise require it.
    fn require_customer_id(&self) -> (required: bool)
        default_ensures
            required,
    {
        true
    }
}

/// The key of an artifact as a sequence of characters.
pub open spec fn spec_idify(user_id: Seq<char>, id: Seq<char>, tag: Seq<char>) -> Seq<char> {
    user_id + seq!['_'] + id + seq!['_'] + tag
}

/// Builds the storage key of the artifact `name` of session `id` of user `user_id`.
pub fn idify<T: MPCStruct>(user_id: &str, id: &str, name: &T) -> (key: String)
    ensures
        key@ == spec_idify(user_id@, id@, name.tag()),
{
    proof {
        reveal_strlit("_");
    }
    let tag = name.to_string();
    let mut key = String::from_str(user_id);
    key.append("_");
    key.append(id);
    key.append("_");
    key.append(tag.as_str());
    key
}

} // verus!
