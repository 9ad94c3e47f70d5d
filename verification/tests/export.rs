use axotyped::collection::RouteCollection;
use axotyped::export::ExportStep;

fn collection(types: usize) -> RouteCollection<usize> {
    let mut routes = RouteCollection::new();
    if types > 0 {
        routes.register_type::<u8>(0);
    }
    if types > 1 {
        routes.register_type::<u16>(1);
    }
    if types > 2 {
        routes.register_type::<u32>(2);
    }
    routes
}

/// Runs an export in which the given steps fail.
fn run(types: usize, failing: &[ExportStep]) -> Vec<ExportStep> {
    let routes = collection(types);
    let mut steps = vec![routes.export_types()];
    loop {
        let step = steps[steps.len() - 1];
        if step == ExportStep::Done || step == ExportStep::Failed {
            return steps;
        }
        steps.push(routes.export_types_after(step, !failing.contains(&step)));
    }
}

#[test]
fn nothing_to_export() {
    assert_eq!(run(0, &[]), vec![ExportStep::Done]);
}

#[test]
fn every_type_is_exported() {
    assert_eq!(
        run(3, &[]),
        vec![
            ExportStep::CreateDir,
            ExportStep::Export(0),
            ExportStep::Export(1),
            ExportStep::Export(2),
            ExportStep::Done,
        ]
    );
}

#[test]
fn one_bad_type_is_reported_and_passed_over() {
    assert_eq!(
        run(3, &[ExportStep::Export(1)]),
        vec![
            ExportStep::CreateDir,
            ExportStep::Export(0),
            ExportStep::Export(1),
            ExportStep::Report(1),
            ExportStep::Export(2),
            ExportStep::Done,
        ]
    );
}

#[test]
fn a_bad_last_type_is_reported() {
    assert_eq!(
        run(1, &[ExportStep::Export(0)]),
        vec![
            ExportStep::CreateDir,
            ExportStep::Export(0),
            ExportStep::Report(0),
            ExportStep::Done,
        ]
    );
}

#[test]
fn a_missing_directory_fails_the_run() {
    assert_eq!(
        run(2, &[ExportStep::CreateDir]),
        vec![ExportStep::CreateDir, ExportStep::Failed]
    );
}

#[test]
fn steps_beyond_the_registry_end_the_run() {
    let routes = collection(2);
    assert_eq!(routes.export_types_after(ExportStep::Export(usize::MAX), true), ExportStep::Done);
    assert_eq!(routes.export_types_after(ExportStep::Report(2), true), ExportStep::Done);
    assert_eq!(routes.export_types_after(ExportStep::Done, true), ExportStep::Done);
    assert_eq!(routes.export_types_after(ExportStep::Failed, true), ExportStep::Failed);
    assert_eq!(
        collection(0).export_types_after(ExportStep::CreateDir, true),
        ExportStep::Done
    );
}
