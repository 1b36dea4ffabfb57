//! The daily reward of a town.

use vstd::prelude::*;

verus! {

broadcast use vstd::string::group_string_axioms;

/// How long, in milliseconds, a daily reward answer stays valid: an hour.
pub const DAILY_REWARD_VALIDITY_MILLIS: u128 = 3_600_000;

/// The reward of a day: stackable items and their counts, each item named
/// by its UUID text.
#[derive(Debug)]
pub struct DailyReward {
    pub stackable_items: Vec<(String, u64)>,
}

/// The daily reward status of a town. A `until` in the past makes the
/// client ask again before it does anything else, so it is always an hour
/// ahead.
#[derive(Debug)]
pub struct DailyRewardStatus {
    pub reward_uid: String,
    pub until: u128,
    pub daily_reward: DailyReward,
    pub collected: bool,
}

/// The daily reward status at `now_millis` (milliseconds since the Unix
/// epoch; none when the clock reads before it, which counts as zero): the
/// same uncollected reward every day, valid for an hour from now.
pub fn daily_reward_status(now_millis: Option<u128>) -> (r: DailyRewardStatus)
    requires
        now_millis matches Some(t) ==> t + DAILY_REWARD_VALIDITY_MILLIS <= u128::MAX,
    ensures
        r.reward_uid@ == "eefb9db4-0632-49b9-ae35-1da398ca0003"@,
        r.until == match now_millis {
            Some(t) => t + DAILY_REWARD_VALIDITY_MILLIS,
            None => DAILY_REWARD_VALIDITY_MILLIS as int,
        },
        r.daily_reward.stackable_items@.len() == 1,
        r.daily_reward.stackable_items@[0].0@ == "42d91529-c88b-4c5b-815b-b55508b4e7ef"@,
        r.daily_reward.stackable_items@[0].1 == 2,
        !r.collected,
{
    let now = match now_millis {
        Some(t) => t,
        None => 0,
    };
    let mut stackable_items: Vec<(String, u64)> = Vec::new();
    stackable_items.push(("42d91529-c88b-4c5b-815b-b55508b4e7ef".to_string(), 2));
    DailyRewardStatus {
        reward_uid: "eefb9db4-0632-49b9-ae35-1da398ca0003".to_string(),
        until: now + DAILY_REWARD_VALIDITY_MILLIS,
        daily_reward: DailyReward { stackable_items },
        collected: false,
    }
}

} // verus!
