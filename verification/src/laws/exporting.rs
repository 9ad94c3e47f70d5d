//! Steps of an export run.

use vstd::prelude::*;

use crate::collection::RouteCollection;
use crate::export::ExportStep;

verus! {

/// A run starts with the directory if there are types, and has nothing to do if
/// there are none.
pub proof fn starting<E>(routes: &RouteCollection<E>, step: ExportStep)
    requires
        call_ensures(RouteCollection::<E>::export_types, (routes,), step),
    ensures
        routes@.types.len() == 0 <==> step == ExportStep::Done,
        routes@.types.len() > 0 <==> step == ExportStep::CreateDir,
{
}

/// Without the directory the run fails; with it the first type is exported.
pub proof fn behind_the_directory<E>(
    routes: &RouteCollection<E>,
    succeeded: bool,
    next: ExportStep,
)
    requires
        routes@.types.len() > 0,
        call_ensures(
            RouteCollection::<E>::export_types_after,
            (routes, ExportStep::CreateDir, succeeded),
            next,
        ),
    ensures
        succeeded ==> next == ExportStep::Export(0),
        !succeeded ==> next == ExportStep::Failed,
{
}

/// A type that could not be exported is reported. Behind one that could be, or
/// that was reported, comes the next type, and behind the last the run is done.
pub proof fn behind_a_type<E>(
    routes: &RouteCollection<E>,
    at: usize,
    succeeded: bool,
    exported: ExportStep,
    reported: ExportStep,
)
    requires
        at < routes@.types.len() <= usize::MAX,
        call_ensures(
            RouteCollection::<E>::export_types_after,
            (routes, ExportStep::Export(at), succeeded),
            exported,
        ),
        call_ensures(
            RouteCollection::<E>::export_types_after,
            (routes, ExportStep::Report(at), succeeded),
            reported,
        ),
    ensures
        !succeeded ==> exported == ExportStep::Report(at),
        succeeded && at + 1 < routes@.types.len() ==> exported == ExportStep::Export(
            (at + 1) as usize,
        ),
        succeeded && at + 1 == routes@.types.len() ==> exported == ExportStep::Done,
        at + 1 < routes@.types.len() ==> reported == ExportStep::Export((at + 1) as usize),
        at + 1 == routes@.types.len() ==> reported == ExportStep::Done,
{
}

/// A run that has ended stays as it is.
pub proof fn behind_the_end<E>(
    routes: &RouteCollection<E>,
    succeeded: bool,
    done: ExportStep,
    failed: ExportStep,
)
    requires
        call_ensures(
            RouteCollection::<E>::export_types_after,
            (routes, ExportStep::Done, succeeded),
            done,
        ),
        call_ensures(
            RouteCollection::<E>::export_types_after,
            (routes, ExportStep::Failed, succeeded),
            failed,
        ),
    ensures
        done == ExportStep::Done,
        failed == ExportStep::Failed,
{
}

} // verus!
