use shawty::directory::{create_dir_and_check, get_cwd_path, list_directory, DirStep};
use shawty::error::{IOError, ShawtyError};
use shawty::protocol::Next;

fn denied() -> std::io::Error {
    std::io::Error::new(std::io::ErrorKind::PermissionDenied, "permission denied")
}

/// A disk in memory that holds one directory or none.
struct Disk {
    present: bool,
    creations: usize,
    probes: usize,
    creating_fails: bool,
    creating_does_nothing: bool,
}

fn disk(present: bool) -> Disk {
    Disk {
        present,
        creations: 0,
        probes: 0,
        creating_fails: false,
        creating_does_nothing: false,
    }
}

fn run_create(path: &str, disk: &mut Disk) -> Result<(), ShawtyError> {
    let mut step = create_dir_and_check(path);
    loop {
        let outcome = match &step {
            DirStep::Probe { path: asked } | DirStep::Confirm { path: asked } => {
                assert_eq!(asked, path);
                disk.probes += 1;
                Ok(disk.present)
            }
            DirStep::Create { path: asked } => {
                assert_eq!(asked, path);
                if disk.creating_fails {
                    Err(denied())
                } else {
                    disk.creations += 1;
                    disk.present = !disk.creating_does_nothing;
                    Ok(true)
                }
            }
        };
        match step.resume(outcome) {
            Next::Perform(next) => step = next,
            Next::Finished(result) => return result,
        }
    }
}

#[test]
fn cwd_path_is_handed_on() {
    let path = std::path::PathBuf::from("/home/ada/work");
    let found = get_cwd_path(Ok(path.clone())).unwrap();
    assert_eq!(found, path);
}

#[test]
fn test_get_cwd_have_same_result_as_std() {
    let here = std::path::Path::new(".");
    let my_cwd = get_cwd_path(here.canonicalize()).unwrap();
    let std_cwd = here.canonicalize().unwrap();

    assert_eq!(
        my_cwd, std_cwd,
        "My function and std function returnd different cwd path!"
    )
}

#[test]
fn cwd_fault_is_an_other_io_failure() {
    match get_cwd_path::<std::path::PathBuf>(Err(denied())) {
        Err(ShawtyError::IO(IOError::OtherError { message, source })) => {
            assert_eq!(
                message,
                "Failed to get cwd path, perhaps you don't have permission or it doesn't exist."
            );
            assert_eq!(source.kind(), std::io::ErrorKind::PermissionDenied);
        }
        other => panic!("not an other-I/O failure: {other:?}"),
    }
}

#[test]
fn test_get_all_file_in_cwd() {
    let cwd = std::path::Path::new(".");
    let opened = cwd.read_dir().map(|entries| entries.collect::<Vec<_>>());
    let readable = match &opened {
        Ok(entries) => entries.iter().filter(|entry| entry.is_ok()).count(),
        Err(_) => 0,
    };
    let entries = list_directory(&cwd.to_string_lossy(), opened).unwrap();
    assert_eq!(entries.len(), readable);
}

#[test]
fn listing_an_empty_directory_gives_nothing() {
    let entries = list_directory::<String>("empty", Ok(Vec::new())).unwrap();
    assert!(entries.is_empty());
}

#[test]
fn listing_drops_the_entries_that_could_not_be_read() {
    let opened = Ok(vec![
        Ok("a.txt"),
        Err(denied()),
        Ok("b.txt"),
        Err(denied()),
        Err(denied()),
        Ok("c"),
    ]);
    let entries = list_directory("some/dir", opened).unwrap();
    assert_eq!(entries, vec!["a.txt", "b.txt", "c"]);
}

#[test]
fn listing_keeps_every_entry_when_all_can_be_read() {
    let opened = Ok(vec![Ok(3), Ok(1), Ok(2)]);
    assert_eq!(list_directory("d", opened).unwrap(), vec![3, 1, 2]);
}

#[test]
fn listing_nothing_readable_gives_nothing() {
    let opened: Result<Vec<Result<u8, std::io::Error>>, std::io::Error> =
        Ok(vec![Err(denied()), Err(denied())]);
    assert!(list_directory("d", opened).unwrap().is_empty());
}

#[test]
fn a_directory_that_cannot_be_opened_is_a_read_failure() {
    match list_directory::<String>("/root/secret", Err(denied())) {
        Err(ShawtyError::IO(IOError::ReadError { message, source })) => {
            assert_eq!(message, "Failed to read directory: /root/secret");
            assert_eq!(source.to_string(), "permission denied");
        }
        other => panic!("not a read failure: {other:?}"),
    }
}

#[test]
fn creating_twice_succeeds_twice_and_creates_once() {
    let mut disk = disk(false);
    assert!(run_create("out/reports", &mut disk).is_ok());
    assert!(disk.present);
    assert_eq!(disk.creations, 1);
    assert_eq!(disk.probes, 2);
    assert!(run_create("out/reports", &mut disk).is_ok());
    assert!(disk.present);
    assert_eq!(disk.creations, 1);
    assert_eq!(disk.probes, 3);
}

#[test]
fn an_existing_directory_is_left_alone() {
    let mut disk = disk(true);
    assert!(run_create("out", &mut disk).is_ok());
    assert_eq!(disk.creations, 0);
    assert_eq!(disk.probes, 1);
    assert!(matches!(
        create_dir_and_check("out").resume(Ok(true)),
        Next::Finished(Ok(()))
    ));
}

#[test]
fn a_probe_that_fails_counts_as_missing() {
    match create_dir_and_check("out").resume(Err(denied())) {
        Next::Perform(DirStep::Create { path }) => assert_eq!(path, "out"),
        _ => panic!("the directory must be created"),
    }
}

#[test]
fn a_failed_creation_is_a_write_failure() {
    let mut disk = disk(false);
    disk.creating_fails = true;
    match run_create("out/reports", &mut disk) {
        Err(ShawtyError::IO(IOError::WriteError { message, source })) => {
            assert_eq!(message, "Failed to create directory: 'out/reports'");
            assert_eq!(source.kind(), std::io::ErrorKind::PermissionDenied);
        }
        other => panic!("not a write failure: {other:?}"),
    }
    assert_eq!(disk.probes, 1);
}

#[test]
fn a_creation_without_effect_is_a_weird_error() {
    let mut disk = disk(false);
    disk.creating_does_nothing = true;
    match run_create("out/reports", &mut disk) {
        Err(ShawtyError::WeirdError { message }) => {
            assert_eq!(
                message,
                "After creation with no error, the directory still not exist. Path: 'out/reports'"
            );
        }
        other => panic!("not a weird error: {other:?}"),
    }
    assert_eq!(disk.creations, 1);
    assert_eq!(disk.probes, 2);
}
