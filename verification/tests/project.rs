use raumklang::measurement::Id;
use raumklang::project_save::{plan_project_save, project_files, ProjectError, SignalFile};
use raumklang::recent_projects::recent_project_entries;

#[test]
fn files_of_loaded_signals_are_kept() {
    let plan = plan_project_save::<String>(
        "/data/room/room.rpr",
        Some(Some("/rec/lb.wav".to_string())),
        &vec![(Id(0), Some("/rec/m0.wav".to_string()))],
        true,
    )
    .unwrap();
    assert_eq!(plan.directory, "/data/room");
    assert_eq!(plan.loopback, Some(SignalFile::Keep("/rec/lb.wav".to_string())));
    assert_eq!(plan.measurements, vec![SignalFile::Keep("/rec/m0.wav".to_string())]);
}

#[test]
fn signals_in_memory_are_exported_beside_the_project() {
    let plan = plan_project_save::<String>(
        "/data/room/room.rpr",
        Some(None),
        &vec![(Id(3), None), (Id(12), Some("/x/m.wav".to_string()))],
        true,
    )
    .unwrap();
    assert_eq!(plan.loopback, Some(SignalFile::Export("/data/room/loopback.wav".to_string())));
    assert_eq!(
        plan.measurements,
        vec![
            SignalFile::Export("/data/room/measurement_3.wav".to_string()),
            SignalFile::Keep("/x/m.wav".to_string()),
        ]
    );
}

#[test]
fn signals_in_memory_are_skipped_without_export() {
    let plan =
        plan_project_save::<String>("/data/room.rpr", None, &vec![(Id(1), None)], false).unwrap();
    assert_eq!(plan.loopback, None);
    assert_eq!(plan.measurements, vec![SignalFile::Skip]);
}

#[test]
fn a_path_without_parent_is_refused() {
    let r = plan_project_save::<String>("/", None, &vec![], true);
    assert!(matches!(r, Err(ProjectError::NoSubDirectory)));
    let r = plan_project_save::<String>("", None, &vec![], true);
    assert!(matches!(r, Err(ProjectError::NoSubDirectory)));
}

#[test]
fn recorded_files_leave_out_failed_exports() {
    let files = vec![
        SignalFile::Keep("a.wav".to_string()),
        SignalFile::Export("b.wav".to_string()),
        SignalFile::Skip,
        SignalFile::Export("c.wav".to_string()),
    ];
    let recorded = project_files(&files, &vec![false, true, false, false]);
    assert_eq!(recorded, vec!["a.wav".to_string(), "b.wav".to_string()]);
    let recorded = project_files(&files, &vec![false, false, false, true]);
    assert_eq!(recorded, vec!["a.wav".to_string(), "c.wav".to_string()]);
}

#[test]
fn recent_projects_are_listed_by_file_name() {
    let paths = vec!["/p/a.rpr".to_string(), "/".to_string(), "/q/b.rpr".to_string()];
    let oldest_first = recent_project_entries(&paths, false);
    assert_eq!(oldest_first, vec![(0, "a.rpr".to_string()), (2, "b.rpr".to_string())]);
    let newest_first = recent_project_entries(&paths, true);
    assert_eq!(newest_first, vec![(2, "b.rpr".to_string()), (0, "a.rpr".to_string())]);
    assert!(recent_project_entries(&vec![], true).is_empty());
}
