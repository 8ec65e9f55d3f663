//! Choosing the lights a command applies to.

use vstd::prelude::*;

verus! {

/// A light as the bridge lists it: what the targeting rules read of it.
#[derive(Clone, Debug, PartialEq, Eq)]
pub struct Device {
    /// The identifier by which the bridge addresses the light.
    pub id: String,
    /// The name the operator knows the light by.
    pub name: String,
    /// The power state the bridge last reported, where it reported one.
    pub on: Option<bool>,
}

impl Device {
    /// The bridge reported the light as switched on.
    pub open spec fn is_active(self) -> bool {
        self.on == Some(true)
    }
}

/// Which lights a command without a light list applies to.
#[derive(Clone, Copy, Debug, PartialEq, Eq, Structural)]
pub enum DefaultScope {
    /// Every light the bridge lists.
    All,
    /// The lights that are reported as on.
    ActiveOnly,
}

impl DefaultScope {
    /// The scope of a brightness or color command: everything with the flag that
    /// asks for all lights, the active lights without it.
    pub fn from_all_flag(all: bool) -> (scope: DefaultScope)
        ensures
            scope == if all {
                DefaultScope::All
            } else {
                DefaultScope::ActiveOnly
            },
    {
        if all {
            DefaultScope::All
        } else {
            DefaultScope::ActiveOnly
        }
    }
}

/// Why no target set could be formed.
#[derive(Clone, Debug, PartialEq, Eq)]
pub enum TargetError {
    /// A requested name belongs to no light; the name is carried along.
    UnknownLight(String),
}

/// Some light of the listing has exactly this name.
pub open spec fn is_known(name: Seq<char>, all: Seq<Device>) -> bool {
    exists|j: int| 0 <= j < all.len() && (#[trigger] all[j]).name@ == name
}

/// Some requested name is exactly this one.
pub open spec fn is_requested(name: Seq<char>, requested: Seq<String>) -> bool {
    exists|i: int| 0 <= i < requested.len() && (#[trigger] requested[i])@ == name
}

/// Whether a light of the listing belongs to the target set. With a light list
/// the requested names decide; without one the default scope does.
pub open spec fn is_target(d: Device, requested: Seq<String>, scope: DefaultScope) -> bool {
    if requested.len() > 0 {
        is_requested(d.name@, requested)
    } else {
        scope == DefaultScope::All || d.is_active()
    }
}

/// The lights of `all` that are targets, in the order of the listing.
pub open spec fn select(all: Seq<Device>, requested: Seq<String>, scope: DefaultScope) -> Seq<
    Device,
>
    decreases all.len(),
{
    if all.len() == 0 {
        Seq::empty()
    } else {
        let rest = select(all.drop_last(), requested, scope);
        if is_target(all.last(), requested, scope) {
            rest.push(all.last())
        } else {
            rest
        }
    }
}

/// The position of the first requested name that no light has, if there is one.
pub open spec fn first_unknown(requested: Seq<String>, all: Seq<Device>, i: int) -> bool {
    &&& 0 <= i < requested.len()
    &&& !is_known(requested[i]@, all)
    &&& forall|k: int| 0 <= k < i ==> is_known(#[trigger] requested[k]@, all)
}

/// Looks a name up in the listing.
fn knows(all: &Vec<Device>, name: &String) -> (found: bool)
    ensures
        found == is_known(name@, all@),
{
    let mut j: usize = 0;
    while j < all.len()
        invariant
            0 <= j <= all.len(),
            forall|k: int| 0 <= k < j ==> (#[trigger] all@[k]).name@ != name@,
        decreases all.len() - j,
    {
        if all[j].name == *name {
            return true;
        }
        j = j + 1;
    }
    false
}

/// Looks a light's name up in the request.
fn requests(requested: &[String], name: &String) -> (found: bool)
    ensures
        found == is_requested(name@, requested@),
{
    let mut i: usize = 0;
    while i < requested.len()
        invariant
            0 <= i <= requested.len(),
            forall|k: int| 0 <= k < i ==> (#[trigger] requested@[k])@ != name@,
        decreases requested.len() - i,
    {
        if requested[i] == *name {
            return true;
        }
        i = i + 1;
    }
    false
}

/// Computes the lights a command applies to. Every requested name is checked
/// against the listing before any light is chosen, so an unknown name yields no
/// targets at all.
pub fn resolve(requested: &[String], all: Vec<Device>, default_scope: DefaultScope) -> (r: Result<
    Vec<Device>,
    TargetError,
>)
    ensures
        r is Ok <==> forall|i: int|
            0 <= i < requested@.len() ==> is_known(#[trigger] requested@[i]@, all@),
        r matches Ok(targets) ==> targets@ == select(all@, requested@, default_scope),
        r matches Err(TargetError::UnknownLight(name)) ==> exists|i: int|
            first_unknown(requested@, all@, i) && name@ == (#[trigger] requested@[i])@,
{
    let mut i: usize = 0;
    while i < requested.len()
        invariant
            0 <= i <= requested.len(),
            forall|k: int| 0 <= k < i ==> is_known(#[trigger] requested@[k]@, all@),
        decreases requested.len() - i,
    {
        if !knows(&all, &requested[i]) {
            proof {
                assert(first_unknown(requested@, all@, i as int));
            }
            return Err(TargetError::UnknownLight(requested[i].clone()));
        }
        i = i + 1;
    }
    let mut targets: Vec<Device> = Vec::new();
    let mut j: usize = 0;
    while j < all.len()
        invariant
            0 <= j <= all.len(),
            targets@ == select(all@.subrange(0, j as int), requested@, default_scope),
        decreases all.len() - j,
    {
        let d = &all[j];
        let chosen = if requested.len() > 0 {
            requests(requested, &d.name)
        } else {
            match default_scope {
                DefaultScope::All => true,
                DefaultScope::ActiveOnly => match d.on {
                    Some(on) => on,
                    None => false,
                },
            }
        };
        proof {
            assert(all@.subrange(0, j + 1).drop_last() =~= all@.subrange(0, j as int));
            assert(all@.subrange(0, j + 1).last() == all@[j as int]);
        }
        if chosen {
            targets.push(Device { id: d.id.clone(), name: d.name.clone(), on: d.on });
        }
        j = j + 1;
    }
    proof {
        assert(all@.subrange(0, all@.len() as int) =~= all@);
    }
    Ok(targets)
}

/// The target set is the listing with the lights that are no targets left out:
/// nothing is added, nothing occurs twice that the listing holds once, and the
/// order of the listing is kept.
pub proof fn lemma_select_is_filter(all: Seq<Device>, requested: Seq<String>, scope: DefaultScope)
    ensures
        select(all, requested, scope) == all.filter(|d: Device| is_target(d, requested, scope)),
        select(all, requested, scope).len() <= all.len(),
    decreases all.len(),
{
    reveal(Seq::filter);
    if all.len() > 0 {
        lemma_select_is_filter(all.drop_last(), requested, scope);
    }
}

/// Every target is a light of the listing, and a listing that holds no light
/// twice yields a target set that holds no light twice, however often a name was
/// requested.
pub proof fn lemma_select_has_no_duplicates(
    all: Seq<Device>,
    requested: Seq<String>,
    scope: DefaultScope,
)
    requires
        all.no_duplicates(),
    ensures
        select(all, requested, scope).no_duplicates(),
        forall|d: Device| #[trigger]
            select(all, requested, scope).contains(d) <==> all.contains(d) && is_target(
                d,
                requested,
                scope,
            ),
    decreases all.len(),
{
    let chosen = select(all, requested, scope);
    if all.len() > 0 {
        let shorter = all.drop_last();
        let rest = select(shorter, requested, scope);
        assert(shorter.no_duplicates());
        lemma_select_has_no_duplicates(shorter, requested, scope);
        assert forall|d: Device| #[trigger]
            chosen.contains(d) <==> all.contains(d) && is_target(d, requested, scope) by {
            if chosen.contains(d) {
                let k = choose|k: int| 0 <= k < chosen.len() && chosen[k] == d;
                if k < rest.len() {
                    assert(rest[k] == d);
                    assert(rest.contains(d));
                    let j = choose|j: int| 0 <= j < shorter.len() && shorter[j] == d;
                    assert(all[j] == d);
                } else {
                    assert(all[all.len() - 1] == d);
                }
            }
            if all.contains(d) && is_target(d, requested, scope) {
                let j = choose|j: int| 0 <= j < all.len() && all[j] == d;
                if j < shorter.len() {
                    assert(shorter[j] == d);
                    assert(shorter.contains(d));
                    assert(rest.contains(d));
                    let k = choose|k: int| 0 <= k < rest.len() && rest[k] == d;
                    assert(chosen[k] == d);
                } else {
                    assert(chosen[rest.len() as int] == d);
                }
            }
        }
        if is_target(all.last(), requested, scope) {
            assert forall|i: int, j: int|
                0 <= i < chosen.len() && 0 <= j < chosen.len() && i != j implies chosen[i]
                != chosen[j] by {
                if i == rest.len() || j == rest.len() {
                    let other = if i == rest.len() {
                        j
                    } else {
                        i
                    };
                    assert(rest.contains(rest[other]));
                    assert(shorter.contains(rest[other]));
                    let m = choose|m: int| 0 <= m < shorter.len() && shorter[m] == rest[other];
                    assert(all[m] == rest[other]);
                    assert(all[all.len() - 1] == all.last());
                } else {
                    assert(rest[i] != rest[j]);
                }
            }
        }
    }
}

/// Without a light list, a command whose scope is everything targets the whole
/// listing, and one whose scope is the active lights targets exactly the lights
/// that are reported as on.
pub proof fn lemma_default_scope(all: Seq<Device>)
    ensures
        select(all, Seq::<String>::empty(), DefaultScope::All) == all,
        select(all, Seq::<String>::empty(), DefaultScope::ActiveOnly) == all.filter(
            |d: Device| d.is_active(),
        ),
    decreases all.len(),
{
    reveal(Seq::filter);
    if all.len() > 0 {
        lemma_default_scope(all.drop_last());
        assert(select(all, Seq::<String>::empty(), DefaultScope::All) =~= all);
    } else {
        assert(select(all, Seq::<String>::empty(), DefaultScope::All) =~= all);
    }
}

/// With a light list the default scope plays no part: the targets are the lights
/// whose name was requested, whether they are on or off.
pub proof fn lemma_request_overrides_scope(all: Seq<Device>, requested: Seq<String>)
    requires
        requested.len() > 0,
    ensures
        select(all, requested, DefaultScope::All) == select(
            all,
            requested,
            DefaultScope::ActiveOnly,
        ),
    decreases all.len(),
{
    if all.len() > 0 {
        lemma_request_overrides_scope(all.drop_last(), requested);
    }
}

} // verus!
