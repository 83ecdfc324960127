//! The atomic scripts of the shared store, and what they do to a key.
//!
//! The store runs each script alone, so its read-modify-write is atomic. The
//! script texts below are loaded at connect time; `Gauge` and `ConsumerGroups`
//! follow them on one key held in memory.

use vstd::prelude::*;

use crate::text::same_text;

verus! {

/// Writes `ARGV[1]` iff the key is absent or holds a smaller number; replies
/// `{changed, previous}`.
pub const SET_IF_GREATER_SCRIPT: &'static str = r#"
    local new_value = tonumber(ARGV[1]);
    local last_value = redis.call("GET", KEYS[1]);

    if last_value == false or tonumber(last_value) < new_value then
        redis.call("SET", KEYS[1], new_value);
        return {1, last_value}
    else
        return {0, last_value}
    end
"#;

/// Writes `ARGV[1]` iff it differs from what the key holds; replies `{changed, previous}`.
pub const SET_IF_NOT_EQUAL_SCRIPT: &'static str = r#"
    local new_value = ARGV[1];
    local last_value = redis.call("GET", KEYS[1]);

    if last_value ~= new_value then
        redis.call("SET", KEYS[1], new_value);
        return {1, last_value}
    else
        return {0, last_value}
    end
"#;

/// Creates the consumer group `ARGV[1]` on the stream `KEYS[1]` (and the stream),
/// unless the group exists; replies 1 when it created it and 0 otherwise.
pub const CREATE_CONSUMER_GROUP_SCRIPT: &'static str = r#"
    for _, group_info in ipairs(redis.call("XINFO", "GROUPS", KEYS[1])) do
        for i = 1, #group_info, 2 do
            if group_info[i] == "name" and group_info[i + 1] == ARGV[1] then
                return 0
            end
        end
    end

    redis.call("XGROUP", "CREATE", KEYS[1], ARGV[1], "$", "MKSTREAM")
    return 1
"#;

/// Client-side deadline of each script call, in seconds.
pub const SCRIPT_TIMEOUT_SECS: u64 = 5;

/// `set_if_greater` on a key holding `stored`: the reply `(changed, previous)` and what
/// the key holds afterwards.
pub open spec fn set_if_greater_spec(stored: Option<i64>, value: i64) -> ((bool, Option<i64>), Option<i64>) {
    match stored {
        Some(last) if last >= value => ((false, stored), stored),
        _ => ((true, stored), Some(value)),
    }
}

/// `set_if_not_equal` on a key holding `stored`.
pub open spec fn set_if_not_equal_spec(stored: Option<i64>, value: i64) -> ((bool, Option<i64>), Option<i64>) {
    if stored == Some(value) {
        ((false, stored), stored)
    } else {
        ((true, stored), Some(value))
    }
}

/// `create_consumer_group` on a stream with `groups`: the reply and the groups afterwards.
pub open spec fn create_consumer_group_spec(groups: Set<Seq<char>>, group: Seq<char>) -> (u8, Set<Seq<char>>) {
    if groups.contains(group) {
        (0, groups)
    } else {
        (1, groups.insert(group))
    }
}

/// A numeric key written only through the compare-and-set scripts.
pub struct Gauge {
    pub value: Option<i64>,
}

impl Gauge {
    pub fn new() -> (r: Self)
        ensures
            r.value.is_none(),
    {
        Gauge { value: None }
    }

    /// Sets the value if it is greater than the stored one, if any.
    pub fn set_if_greater(&mut self, value: i64) -> (r: (bool, Option<i64>))
        ensures
            (r, final(self).value) == set_if_greater_spec(old(self).value, value),
    {
        let previous = self.value;
        match previous {
            Some(last) if last >= value => (false, previous),
            _ => {
                self.value = Some(value);
                (true, previous)
            },
        }
    }

    /// Sets the value if it differs from the stored one.
    pub fn set_if_not_equal(&mut self, value: i64) -> (r: (bool, Option<i64>))
        ensures
            (r, final(self).value) == set_if_not_equal_spec(old(self).value, value),
    {
        let previous = self.value;
        match previous {
            Some(last) if last == value => (false, previous),
            _ => {
                self.value = Some(value);
                (true, previous)
            },
        }
    }
}

/// The consumer groups of one stream, by name.
pub struct ConsumerGroups {
    pub names: Vec<String>,
}

impl ConsumerGroups {
    pub open spec fn view(&self) -> Set<Seq<char>> {
        Set::new(|name: Seq<char>| exists|i: int| 0 <= i < self.names@.len() && self.names@[i]@ == name)
    }

    pub fn new() -> (r: Self)
        ensures
            r@ == Set::<Seq<char>>::empty(),
    {
        let r = ConsumerGroups { names: Vec::new() };
        assert(r@ =~= Set::<Seq<char>>::empty());
        r
    }

    /// Creates the group unless it exists: 1 when it was created, 0 when it existed.
    pub fn create_consumer_group(&mut self, group: &str) -> (r: u8)
        ensures
            (r, final(self)@) == create_consumer_group_spec(old(self)@, group@),
    {
        let mut i: usize = 0;
        while i < self.names.len()
            invariant
                i <= self.names@.len(),
                forall|k: int| 0 <= k < i ==> self.names@[k]@ != group@,
            decreases self.names@.len() - i,
        {
            if same_text(self.names[i].as_str(), group) {
                assert(self@.contains(group@));
                assert(self@.insert(group@) =~= self@);
                return 0;
            }
            i = i + 1;
        }
        assert(!self@.contains(group@));
        let ghost before = self@;
        self.names.push(String::from_str(group));
        assert(self@ =~= before.insert(group@)) by {
            assert forall|name: Seq<char>| self@.contains(name) <==> before.insert(group@).contains(name) by {
                if before.contains(name) {
                    let k = choose|k: int| 0 <= k < old(self).names@.len() && old(self).names@[k]@ == name;
                    assert(self.names@[k]@ == name);
                }
                if name == group@ {
                    assert(self.names@[self.names@.len() - 1]@ == name);
                }
            }
        }
        1
    }
}

/// `set_if_greater(K, v)` repeated replies `(false, v)`, and after it a greater `w`
/// replies `(true, v)`; both where `K` held no number above `v` before the first call.
pub proof fn lemma_set_if_greater_repeat(stored: Option<i64>, v: i64, w: i64)
    requires
        match stored {
            Some(s) => s <= v,
            None => true,
        },
    ensures
        set_if_greater_spec(set_if_greater_spec(stored, v).1, v).0 == (false, Some(v)),
        w > v ==> set_if_greater_spec(set_if_greater_spec(stored, v).1, w).0 == (true, Some(v)),
{
}

/// `set_if_not_equal(K, v)` repeated replies `(false, v)`.
pub proof fn lemma_set_if_not_equal_repeat(stored: Option<i64>, v: i64)
    ensures
        set_if_not_equal_spec(set_if_not_equal_spec(stored, v).1, v).0 == (false, Some(v)),
{
}

/// `create_consumer_group(K, G)` twice replies 1 then 0, for a group that did not exist.
pub proof fn lemma_create_consumer_group_twice(groups: Set<Seq<char>>, group: Seq<char>)
    requires
        !groups.contains(group),
    ensures
        create_consumer_group_spec(groups, group).0 == 1,
        create_consumer_group_spec(create_consumer_group_spec(groups, group).1, group).0 == 0,
{
}

} // verus!
