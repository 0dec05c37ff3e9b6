use delprotect::lifecycle::load;
use delprotect::lifecycle::unload;
use delprotect::lifecycle::LoadError;
use delprotect::lifecycle::LoadOutcomes;
use delprotect::lifecycle::Resource;

fn all_ok() -> LoadOutcomes {
    LoadOutcomes {
        registry_reserve_ok: true,
        device_ok: true,
        symlink_ok: true,
        registration_ok: true,
        filtering_ok: true,
    }
}

#[test]
fn successful_load_holds_all_four_resources() {
    let report = load(&all_ok());
    assert!(report.released.is_empty());
    let state = match report.outcome {
        Ok(state) => state,
        Err(_) => panic!("load failed"),
    };
    assert_eq!(state.registry.len(), 0);
    assert_eq!(state.resources.len(), 4);
    assert_eq!(state.resources.resource_at(0), Resource::Device);
    assert_eq!(state.resources.resource_at(1), Resource::SymLink);
    assert_eq!(state.resources.resource_at(2), Resource::FilterRegistration);
    assert_eq!(state.resources.resource_at(3), Resource::Filtering);
}

#[test]
fn registry_reserve_failure_is_fatal_and_releases_nothing() {
    let outcomes = LoadOutcomes { registry_reserve_ok: false, ..all_ok() };
    let report = load(&outcomes);
    match report.outcome {
        Err(LoadError::InsufficientResources) => {},
        _ => panic!("expected an insufficient-resources failure"),
    }
    assert!(report.released.is_empty());
}

#[test]
fn device_failure_releases_nothing() {
    let outcomes = LoadOutcomes { device_ok: false, ..all_ok() };
    let report = load(&outcomes);
    match report.outcome {
        Err(LoadError::StepFailed(Resource::Device)) => {},
        _ => panic!("expected the device step to fail"),
    }
    assert!(report.released.is_empty());
}

#[test]
fn symlink_failure_releases_device_only() {
    let outcomes = LoadOutcomes { symlink_ok: false, ..all_ok() };
    let report = load(&outcomes);
    match report.outcome {
        Err(LoadError::StepFailed(Resource::SymLink)) => {},
        _ => panic!("expected the symbolic-link step to fail"),
    }
    assert_eq!(report.released, vec![Resource::Device]);
}

#[test]
fn registration_failure_releases_symlink_then_device() {
    let outcomes = LoadOutcomes { registration_ok: false, ..all_ok() };
    let report = load(&outcomes);
    match report.outcome {
        Err(LoadError::StepFailed(Resource::FilterRegistration)) => {},
        _ => panic!("expected the registration step to fail"),
    }
    assert_eq!(report.released, vec![Resource::SymLink, Resource::Device]);
}

#[test]
fn filtering_failure_rolls_back_all_three_in_reverse_order() {
    let outcomes = LoadOutcomes { filtering_ok: false, ..all_ok() };
    let report = load(&outcomes);
    match report.outcome {
        Err(LoadError::StepFailed(Resource::Filtering)) => {},
        _ => panic!("expected the filtering step to fail"),
    }
    assert_eq!(
        report.released,
        vec![Resource::FilterRegistration, Resource::SymLink, Resource::Device]
    );
}

#[test]
fn unload_releases_in_reverse_order_and_is_idempotent() {
    let report = load(&all_ok());
    let mut state = match report.outcome {
        Ok(state) => state,
        Err(_) => panic!("load failed"),
    };
    let released = unload(&mut state);
    assert_eq!(
        released,
        vec![
            Resource::Filtering,
            Resource::FilterRegistration,
            Resource::SymLink,
            Resource::Device,
        ]
    );
    assert_eq!(state.resources.len(), 0);
    assert_eq!(state.registry.len(), 0);

    let released_again = unload(&mut state);
    assert!(released_again.is_empty());
}
