//! Session timeout configuration: three optional durations with
//! partial-update merge semantics. The wire protocol writes a complete
//! object, so a partial update is overlaid on the current configuration
//! before it is sent — an omitted field never resets anything.

use vstd::prelude::*;
use vstd::string::StringExecFns;

use crate::json::Json;
use crate::json::JsonV;

verus! {

/// The session's three timeouts, in milliseconds. A `None` field means
/// "not specified here": on the wire the field is omitted, and in a
/// merge it leaves the current value untouched.
#[derive(Clone, Copy, Debug, PartialEq, Eq, Structural)]
pub struct TimeoutConfiguration {
    pub script: Option<u32>,
    pub page_load: Option<u32>,
    pub implicit: Option<u32>,
}

/// The overlay of `update` on `base`: a field given by `update` wins,
/// a field absent from `update` keeps the value of `base`.
pub open spec fn spec_merge(
    base: TimeoutConfiguration,
    update: TimeoutConfiguration,
) -> TimeoutConfiguration {
    TimeoutConfiguration {
        script: if update.script is Some {
            update.script
        } else {
            base.script
        },
        page_load: if update.page_load is Some {
            update.page_load
        } else {
            base.page_load
        },
        implicit: if update.implicit is Some {
            update.implicit
        } else {
            base.implicit
        },
    }
}

/// A sequence of partial updates folded over a base configuration, in
/// sequence order.
pub open spec fn spec_merge_all(
    base: TimeoutConfiguration,
    updates: Seq<TimeoutConfiguration>,
) -> TimeoutConfiguration
    decreases updates.len(),
{
    if updates.len() == 0 {
        base
    } else {
        spec_merge_all(spec_merge(base, updates[0]), updates.drop_first())
    }
}

/// One field of the fold: later `Some` values win, `None` values never
/// overwrite.
pub open spec fn spec_overlay(base: Option<u32>, updates: Seq<Option<u32>>) -> Option<u32>
    decreases updates.len(),
{
    if updates.len() == 0 {
        base
    } else {
        spec_overlay(
            if updates[0] is Some {
                updates[0]
            } else {
                base
            },
            updates.drop_first(),
        )
    }
}

impl TimeoutConfiguration {
    pub fn new(script: Option<u32>, page_load: Option<u32>, implicit: Option<u32>) -> (r:
        TimeoutConfiguration)
        ensures
            r == (TimeoutConfiguration { script, page_load, implicit }),
    {
        TimeoutConfiguration { script, page_load, implicit }
    }

    pub fn script(&self) -> (r: Option<u32>)
        ensures
            r == self.script,
    {
        self.script
    }

    pub fn page_load(&self) -> (r: Option<u32>)
        ensures
            r == self.page_load,
    {
        self.page_load
    }

    pub fn implicit(&self) -> (r: Option<u32>)
        ensures
            r == self.implicit,
    {
        self.implicit
    }

    /// Overlays the fields present in `update` onto `self`, leaving the
    /// absent ones at their previous value. The result is what goes on
    /// the wire, complete, in place of a partial write the protocol
    /// does not support.
    pub fn merge(&self, update: &TimeoutConfiguration) -> (r: TimeoutConfiguration)
        ensures
            r == spec_merge(*self, *update),
    {
        TimeoutConfiguration {
            script: if update.script.is_some() {
                update.script
            } else {
                self.script
            },
            page_load: if update.page_load.is_some() {
                update.page_load
            } else {
                self.page_load
            },
            implicit: if update.implicit.is_some() {
                update.implicit
            } else {
                self.implicit
            },
        }
    }

    /// The wire entries of the configuration, in the protocol's field
    /// order; an absent field is omitted, never written as zero.
    pub open spec fn spec_entries(self) -> Seq<(Seq<char>, JsonV)> {
        (if self.script is Some {
            seq![("script"@, JsonV::Int(self.script->0 as int))]
        } else {
            Seq::empty()
        }) + (if self.page_load is Some {
            seq![("pageLoad"@, JsonV::Int(self.page_load->0 as int))]
        } else {
            Seq::empty()
        }) + (if self.implicit is Some {
            seq![("implicit"@, JsonV::Int(self.implicit->0 as int))]
        } else {
            Seq::empty()
        })
    }
}

/// Merging one update at a time is the same as merging a whole sequence:
/// the overlay may be associated freely.
pub proof fn lemma_merge_assoc(
    a: TimeoutConfiguration,
    b: TimeoutConfiguration,
    c: TimeoutConfiguration,
)
    ensures
        spec_merge(spec_merge(a, b), c) == spec_merge(a, spec_merge(b, c)),
{
}

/// Folding a sequence of partial updates applies each non-absent field
/// in sequence order, and an absent field never overwrites an earlier
/// value: each field of the result is exactly the overlay of that
/// field's column.
pub proof fn lemma_merge_all_fields(base: TimeoutConfiguration, updates: Seq<TimeoutConfiguration>)
    ensures
        spec_merge_all(base, updates).script == spec_overlay(
            base.script,
            updates.map_values(|u: TimeoutConfiguration| u.script),
        ),
        spec_merge_all(base, updates).page_load == spec_overlay(
            base.page_load,
            updates.map_values(|u: TimeoutConfiguration| u.page_load),
        ),
        spec_merge_all(base, updates).implicit == spec_overlay(
            base.implicit,
            updates.map_values(|u: TimeoutConfiguration| u.implicit),
        ),
    decreases updates.len(),
{
    if updates.len() == 0 {
    } else {
        lemma_merge_all_fields(spec_merge(base, updates[0]), updates.drop_first());
        assert(updates.map_values(|u: TimeoutConfiguration| u.script).drop_first()
            =~= updates.drop_first().map_values(|u: TimeoutConfiguration| u.script));
        assert(updates.map_values(|u: TimeoutConfiguration| u.page_load).drop_first()
            =~= updates.drop_first().map_values(|u: TimeoutConfiguration| u.page_load));
        assert(updates.map_values(|u: TimeoutConfiguration| u.implicit).drop_first()
            =~= updates.drop_first().map_values(|u: TimeoutConfiguration| u.implicit));
    }
}

/// Renders the configuration as its wire object.
pub fn timeouts_body(t: &TimeoutConfiguration) -> (r: Json)
    ensures
        r@ == JsonV::Obj(t.spec_entries()),
{
    let mut entries: Vec<(String, Json)> = Vec::new();
    if let Some(ms) = t.script {
        entries.push((String::from_str("script"), Json::Int(ms as i64)));
    }
    if let Some(ms) = t.page_load {
        entries.push((String::from_str("pageLoad"), Json::Int(ms as i64)));
    }
    if let Some(ms) = t.implicit {
        entries.push((String::from_str("implicit"), Json::Int(ms as i64)));
    }
    let r = Json::Object(entries);
    proof {
        reveal_with_fuel(crate::json::json_view, 2);
        assert(r@ is Obj);
        assert(r@->Obj_0 =~~= t.spec_entries());
        assert(r@ =~~= JsonV::Obj(t.spec_entries()));
    }
    r
}

} // verus!
