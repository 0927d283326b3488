//! What holds of every registry, whatever has been registered in it.
//!
//! The operations of [`crate::state::State`] are stated over
//! [`Snapshot`]; the laws below are proved from those statements alone.

use vstd::prelude::*;
use crate::config::Configuration;
use crate::error::{EngineFailure, RegistryError};
use crate::handle::{Handle, ResourceKind};
use crate::state::{Blueprint, Snapshot};
use crate::table::Resource;

verus! {

/// A registration returns a handle that was never issued before, and the
/// handle is live at once, with the kind of what was registered. Nothing
/// that was live before is touched.
pub proof fn lemma_registration_is_fresh_and_live<R>(before: Snapshot<R>, resource: Resource<R>)
    requires
        before.wf(),
        !before.exhausted(),
    ensures
        before.enrolled(resource) == (
            Ok::<Handle, RegistryError>(before.next_handle()),
            before.registered(resource),
        ),
        !before.issued(before.next_handle()),
        !before.entries.contains_key(before.next_handle()),
        before.registered(resource).wf(),
        before.registered(resource).issued(before.next_handle()),
        before.registered(resource).live(before.next_handle(), resource.spec_kind()),
        before.registered(resource).lookup(before.next_handle(), resource.spec_kind()) == Some(
            resource,
        ),
        before.extended_by(before.registered(resource)),
{
}

/// The state after the resources of `resources` were registered one after
/// the other, starting from `start`.
pub open spec fn after_registrations<R>(start: Snapshot<R>, resources: Seq<Resource<R>>) -> Snapshot<
    R,
>
    decreases resources.len(),
{
    if resources.len() == 0 {
        start
    } else {
        after_registrations(start, resources.drop_last()).enrolled(resources.last()).1
    }
}

/// What the registration of `resources[index]` returned in that run.
pub open spec fn nth_result<R>(start: Snapshot<R>, resources: Seq<Resource<R>>, index: int) -> Result<
    Handle,
    RegistryError,
> {
    after_registrations(start, resources.take(index)).enrolled(resources[index]).0
}

/// The handle that the registration of `resources[index]` is owed when the
/// run starts at `start`.
pub open spec fn nth_handle<R>(start: Snapshot<R>, index: int) -> Handle {
    Handle { raw: (start.upcoming + index) as u64 }
}

/// The state after the first `count` registrations of a run.
proof fn lemma_prefix_of_run<R>(start: Snapshot<R>, resources: Seq<Resource<R>>, count: int)
    requires
        start.wf(),
        0 <= count <= resources.len(),
        start.upcoming + resources.len() <= u64::MAX,
    ensures
        after_registrations(start, resources.take(count)).wf(),
        after_registrations(start, resources.take(count)).upcoming == start.upcoming + count,
        start.extended_by(after_registrations(start, resources.take(count))),
        forall|i: int|
            0 <= i < count ==> #[trigger] after_registrations(
                start,
                resources.take(count),
            ).entries.contains_key(nth_handle(start, i)) && after_registrations(
                start,
                resources.take(count),
            ).entries[nth_handle(start, i)] == resources[i],
    decreases count,
{
    let taken = resources.take(count);
    if count == 0 {
        assert(taken.len() == 0);
    } else {
        lemma_prefix_of_run(start, resources, count - 1);
        assert(taken.drop_last() =~= resources.take(count - 1));
        assert(taken.last() == resources[count - 1]);
        let previous = after_registrations(start, resources.take(count - 1));
        assert(!previous.exhausted());
        assert(after_registrations(start, taken) == previous.registered(resources[count - 1]));
        assert(previous.next_handle() == nth_handle(start, count - 1));
        assert forall|i: int| 0 <= i < count implies #[trigger] after_registrations(
            start,
            taken,
        ).entries.contains_key(nth_handle(start, i)) && after_registrations(
            start,
            taken,
        ).entries[nth_handle(start, i)] == resources[i] by {
            if i < count - 1 {
                assert(previous.entries.contains_key(nth_handle(start, i)));
            }
        }
    }
}

/// However many resources are registered one after the other, no two of the
/// registrations return the same handle, none returns a handle that was
/// issued before the run, and every returned handle is live, with the kind of
/// what was registered under it, right after its registration and from then
/// on.
///
/// This is what callers that share one registry behind a lock observe: their
/// registrations take effect one after the other, in some order.
pub proof fn lemma_successive_handles_are_distinct_and_live<R>(
    start: Snapshot<R>,
    resources: Seq<Resource<R>>,
)
    requires
        start.wf(),
        start.upcoming + resources.len() <= u64::MAX,
    ensures
        after_registrations(start, resources).wf(),
        start.extended_by(after_registrations(start, resources)),
        forall|i: int|
            0 <= i < resources.len() ==> #[trigger] nth_result(start, resources, i) == Ok::<
                Handle,
                RegistryError,
            >(nth_handle(start, i)),
        forall|i: int, j: int|
            0 <= i < j < resources.len() ==> #[trigger] nth_result(start, resources, i)
                != #[trigger] nth_result(start, resources, j),
        forall|i: int|
            0 <= i < resources.len() ==> !start.issued(#[trigger] nth_handle(start, i)),
        forall|i: int, count: int|
            0 <= i < count <= resources.len() ==> #[trigger] after_registrations(
                start,
                resources.take(count),
            ).live(nth_handle(start, i), resources[i].spec_kind()),
        forall|i: int|
            0 <= i < resources.len() ==> after_registrations(start, resources).live(
                #[trigger] nth_handle(start, i),
                resources[i].spec_kind(),
            ),
{
    assert(resources.take(resources.len() as int) =~= resources);
    lemma_prefix_of_run(start, resources, resources.len() as int);
    assert forall|i: int| 0 <= i < resources.len() implies #[trigger] nth_result(
        start,
        resources,
        i,
    ) == Ok::<Handle, RegistryError>(nth_handle(start, i)) by {
        lemma_prefix_of_run(start, resources, i);
    }
    assert forall|i: int, count: int| 0 <= i < count <= resources.len() implies #[trigger]
        after_registrations(start, resources.take(count)).live(
        nth_handle(start, i),
        resources[i].spec_kind(),
    ) by {
        lemma_prefix_of_run(start, resources, count);
        assert(after_registrations(start, resources.take(count)).entries.contains_key(
            nth_handle(start, i),
        ));
    }
}

/// A handle that was never issued refers to nothing, whatever kind is asked
/// for.
pub proof fn lemma_unissued_handle_is_not_found<R>(
    state: Snapshot<R>,
    handle: Handle,
    kind: ResourceKind,
)
    requires
        state.wf(),
        !state.issued(handle),
    ensures
        !state.live(handle, kind),
        state.lookup(handle, kind) is None,
        state.get_config(handle) is None,
{
}

/// A handle that was issued for one kind refers to nothing when another kind
/// is asked for, and what is found under a handle has the kind asked for.
pub proof fn lemma_handle_of_other_kind_is_not_found<R>(
    state: Snapshot<R>,
    handle: Handle,
    issued_for: ResourceKind,
    asked: ResourceKind,
)
    requires
        state.live(handle, issued_for),
    ensures
        asked != issued_for ==> !state.live(handle, asked) && state.lookup(handle, asked) is None,
        issued_for != ResourceKind::Configuration ==> state.get_config(handle) is None,
        state.lookup(handle, issued_for) matches Some(resource) && resource.spec_kind()
            == issued_for,
{
}

/// A construction that fails registers nothing: the state is as before, and
/// the handle that a success would have returned refers to nothing.
pub proof fn lemma_failed_construction_registers_nothing<R>(
    before: Snapshot<R>,
    blueprint: Blueprint,
    outcome: Result<R, EngineFailure>,
    kind: ResourceKind,
)
    requires
        before.wf(),
        before.concluded(blueprint, outcome).0 is Err,
    ensures
        before.concluded(blueprint, outcome).1 == before,
        !before.concluded(blueprint, outcome).1.live(before.next_handle(), kind),
{
}

/// The same of a construction with an engine: whatever the engine answered, a
/// failed construction leaves the state as it was.
pub proof fn lemma_failed_build_registers_nothing<R, F>(
    before: Snapshot<R>,
    blueprint: Blueprint,
    build: F,
    result: Result<Handle, RegistryError>,
    after: Snapshot<R>,
    kind: ResourceKind,
) where F: FnOnce(Option<&R>, Option<&Configuration>) -> Result<R, EngineFailure>
    requires
        before.wf(),
        before.built(blueprint, build, result, after),
        result is Err,
    ensures
        after == before,
        !after.live(before.next_handle(), kind),
{
}

/// A construction that succeeds returns the next handle, and that handle is
/// live at once with the kind of the blueprint.
pub proof fn lemma_successful_construction_is_live<R>(
    before: Snapshot<R>,
    blueprint: Blueprint,
    outcome: Result<R, EngineFailure>,
)
    requires
        before.wf(),
        before.concluded(blueprint, outcome).0 is Ok,
    ensures
        before.missing(blueprint) is None,
        outcome is Ok,
        before.concluded(blueprint, outcome).0 == Ok::<Handle, RegistryError>(
            before.next_handle(),
        ),
        !before.issued(before.next_handle()),
        before.concluded(blueprint, outcome).1.wf(),
        before.concluded(blueprint, outcome).1.live(before.next_handle(), blueprint.spec_kind()),
{
}

/// Each kind is built on the kind before it in the chain registry, media
/// engine, API instance, peer connection.
pub proof fn lemma_blueprint_follows_dependency_chain(blueprint: Blueprint)
    ensures
        match blueprint.spec_parent() {
            Some((_, kind)) => blueprint.spec_kind().spec_dependency() == Some(kind),
            None => blueprint.spec_kind().spec_dependency() is None,
        },
{
}

/// A construction on top of a handle that does not refer to a live resource
/// of the kind to build on fails with that handle and kind, whatever the
/// engine would have answered, and registers nothing.
pub proof fn lemma_missing_parent_stops_construction<R>(
    before: Snapshot<R>,
    blueprint: Blueprint,
    outcome: Result<R, EngineFailure>,
)
    requires
        !before.parent_resolves(blueprint),
    ensures
        blueprint.spec_parent() matches Some((handle, kind)) && before.concluded(
            blueprint,
            outcome,
        ) == (Err::<Handle, RegistryError>(RegistryError::DependencyNotFound { handle, kind }), before),
{
}

/// A media engine cannot be built on a handle that does not refer to a live
/// registry: the construction reports the handle as not found and registers
/// nothing.
pub proof fn lemma_media_engine_needs_live_registry<R, F>(
    before: Snapshot<R>,
    registry: Handle,
    settings: Option<Handle>,
    build: F,
    result: Result<Handle, RegistryError>,
    after: Snapshot<R>,
) where F: FnOnce(Option<&R>, Option<&Configuration>) -> Result<R, EngineFailure>
    requires
        !before.live(registry, ResourceKind::Registry),
        before.built(Blueprint::MediaEngine { registry, settings }, build, result, after),
    ensures
        result == Err::<Handle, RegistryError>(
            RegistryError::DependencyNotFound { handle: registry, kind: ResourceKind::Registry },
        ),
        after == before,
{
}

/// A registration leaves what was live before live and unchanged.
pub proof fn lemma_registration_extends<R>(before: Snapshot<R>, resource: Resource<R>)
    requires
        before.wf(),
    ensures
        before.enrolled(resource).1.wf(),
        before.extended_by(before.enrolled(resource).1),
{
}

/// A construction, failed or not, leaves what was live before live and
/// unchanged.
pub proof fn lemma_construction_extends<R>(
    before: Snapshot<R>,
    blueprint: Blueprint,
    outcome: Result<R, EngineFailure>,
)
    requires
        before.wf(),
    ensures
        before.concluded(blueprint, outcome).1.wf(),
        before.extended_by(before.concluded(blueprint, outcome).1),
{
}

/// The same of a construction with an engine, whatever the engine answered.
pub proof fn lemma_build_extends<R, F>(
    before: Snapshot<R>,
    blueprint: Blueprint,
    build: F,
    result: Result<Handle, RegistryError>,
    after: Snapshot<R>,
) where F: FnOnce(Option<&R>, Option<&Configuration>) -> Result<R, EngineFailure>
    requires
        before.wf(),
        before.built(blueprint, build, result, after),
    ensures
        after.wf(),
        before.extended_by(after),
{
    if before.missing(blueprint) is None {
        let (parent, settings, outcome) = choose|
            parent: Option<&R>,
            settings: Option<&Configuration>,
            outcome: Result<R, EngineFailure>,
        |
            {
                &&& #[trigger] call_ensures(build, (parent, settings), outcome)
                &&& result == before.concluded(blueprint, outcome).0
                &&& after == before.concluded(blueprint, outcome).1
            };
        lemma_construction_extends(before, blueprint, outcome);
    }
}

/// Being extended carries over: what a later state keeps of an earlier one,
/// every state after it keeps too.
pub proof fn lemma_extension_is_transitive<R>(
    first: Snapshot<R>,
    second: Snapshot<R>,
    third: Snapshot<R>,
)
    requires
        first.extended_by(second),
        second.extended_by(third),
    ensures
        first.extended_by(third),
{
}

/// Reads do not change with time: what a handle referred to in an earlier
/// state it refers to in every state that extends it. A handle that is live
/// stays live, with the same kind, the same resource and the same
/// configuration.
pub proof fn lemma_reads_are_stable<R>(
    earlier: Snapshot<R>,
    later: Snapshot<R>,
    handle: Handle,
    kind: ResourceKind,
)
    requires
        earlier.extended_by(later),
        earlier.live(handle, kind),
    ensures
        later.live(handle, kind),
        later.lookup(handle, kind) == earlier.lookup(handle, kind),
        later.get_config(handle) == earlier.get_config(handle),
{
}

} // verus!
