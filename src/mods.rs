use vstd::prelude::*;

verus! {

/// Who to make a moderator of which channel, or to remove as one.
#[derive(Debug, Clone)]
pub struct ModQuery {
    user_id: String,
    broadcaster_id: String,
}

impl ModQuery {
    pub fn new(user_id: String, broadcaster_id: String) -> (r: Self)
        ensures
            r.user_id() == user_id,
            r.broadcaster_id() == broadcaster_id,
    {
        Self { user_id, broadcaster_id }
    }

    pub closed spec fn user_id(&self) -> String {
        self.user_id
    }

    pub closed spec fn broadcaster_id(&self) -> String {
        self.broadcaster_id
    }

    /// The query parameters of the moderator request, in order: the user, then the channel.
    pub fn query_pairs(&self) -> (r: Vec<(String, String)>)
        ensures
            r@.len() == 2,
            r@[0].0@ == "user_id"@,
            r@[0].1@ == self.user_id()@,
            r@[1].0@ == "broadcaster_id"@,
            r@[1].1@ == self.broadcaster_id()@,
    {
        broadcast use vstd::string::group_string_axioms;

        let mut r: Vec<(String, String)> = Vec::new();
        r.push(("user_id".to_string(), self.user_id.clone()));
        r.push(("broadcaster_id".to_string(), self.broadcaster_id.clone()));
        r
    }
}

/// The address of the moderator endpoint under the API base `base`.
pub fn moderators_url(base: &str) -> (r: String)
    ensures
        r@ == base@ + "/moderation/moderators"@,
{
    let mut r = base.to_string();
    proof {
        broadcast use vstd::string::group_string_axioms;
    }
    r.append("/moderation/moderators");
    r
}

} // verus!
