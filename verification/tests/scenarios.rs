use std::collections::{BTreeMap, BTreeSet};

use temp_image_store::cleanup::removal_outcome;
use temp_image_store::clear::{ClearAction, ClearEvent, ClearSession, EntryReport};
use temp_image_store::naming::TEMP_DIR_NAME;
use temp_image_store::save::{SaveAction, SaveEvent, SaveSession};
use temp_image_store::{ImagePath, StoreError};

const APP_DIR: &str = "/home/user/.local/share/app";
const TEMP_DIR: &str = "/home/user/.local/share/app/temp";

/// A file system in memory: directories, files with their bytes, and the
/// ways in which it can be told to refuse.
#[derive(Debug, Clone, PartialEq, Eq, Default)]
struct Disk {
    directories: BTreeSet<String>,
    files: BTreeMap<String, Vec<u8>>,
    locked: BTreeSet<String>,
    read_only: bool,
    full: bool,
    unlistable: bool,
}

fn parent(path: &str) -> &str {
    match path.rfind('/') {
        Some(0) | None => "/",
        Some(at) => &path[..at],
    }
}

impl Disk {
    fn with_app_dir() -> Disk {
        let mut disk = Disk::default();
        disk.create_dir_all(APP_DIR).unwrap();
        disk
    }

    fn is_dir(&self, path: &str) -> bool {
        path == "/" || self.directories.contains(path)
    }

    fn create_dir_all(&mut self, path: &str) -> Result<(), String> {
        if self.read_only {
            return Err("Read-only file system (os error 30)".to_string());
        }
        let mut at = path;
        while at != "/" {
            self.directories.insert(at.to_string());
            at = parent(at);
        }
        Ok(())
    }

    fn create_file(&mut self, path: &str) -> Result<(), String> {
        if self.read_only {
            return Err("Read-only file system (os error 30)".to_string());
        }
        if !self.is_dir(parent(path)) {
            return Err("No such file or directory (os error 2)".to_string());
        }
        self.files.insert(path.to_string(), Vec::new());
        Ok(())
    }

    fn write_all(&mut self, path: &str, bytes: &[u8]) -> Result<(), String> {
        if self.full {
            return Err("No space left on device (os error 28)".to_string());
        }
        self.files.get_mut(path).expect("the file was created").extend_from_slice(bytes);
        Ok(())
    }

    fn remove_file(&mut self, path: &str) -> Result<(), String> {
        if !self.files.contains_key(path) {
            return Err("No such file or directory (os error 2)".to_string());
        }
        if self.locked.contains(path) {
            return Err("Permission denied (os error 13)".to_string());
        }
        self.files.remove(path);
        Ok(())
    }

    fn read_dir(&self, path: &str) -> Result<Vec<(String, bool)>, String> {
        if self.unlistable {
            return Err("Permission denied (os error 13)".to_string());
        }
        let mut entries = Vec::new();
        for directory in &self.directories {
            if parent(directory) == path {
                entries.push((directory.clone(), false));
            }
        }
        for file in self.files.keys() {
            if parent(file) == path {
                entries.push((file.clone(), true));
            }
        }
        Ok(entries)
    }

    fn files_in(&self, directory: &str) -> Vec<String> {
        self.files.keys().filter(|path| parent(path) == directory).cloned().collect()
    }
}

fn save_image(disk: &mut Disk, image_data_base64: &str) -> Result<ImagePath, StoreError> {
    let temp_dir = format!("{}/{}", APP_DIR, TEMP_DIR_NAME);
    let (mut session, mut action) = SaveSession::begin(image_data_base64);
    let mut created = String::new();
    loop {
        let event = match action {
            SaveAction::ProbeDirectory => {
                if disk.is_dir(&temp_dir) {
                    SaveEvent::DirectoryFound
                } else {
                    SaveEvent::DirectoryMissing
                }
            }
            SaveAction::CreateDirectory => match disk.create_dir_all(&temp_dir) {
                Ok(()) => SaveEvent::DirectoryCreated,
                Err(cause) => SaveEvent::DirectoryNotCreated { cause },
            },
            SaveAction::CreateFile { file_name } => {
                created = format!("{}/{}", temp_dir, file_name);
                match disk.create_file(&created) {
                    Ok(()) => SaveEvent::FileCreated { path: created.clone() },
                    Err(cause) => SaveEvent::FileNotCreated { cause },
                }
            }
            SaveAction::WriteBytes { bytes } => match disk.write_all(&created, &bytes) {
                Ok(()) => SaveEvent::BytesWritten,
                Err(cause) => SaveEvent::BytesNotWritten { cause },
            },
            SaveAction::Finish { outcome } => {
                assert!(session.is_finished());
                return outcome;
            }
            SaveAction::Ignored => unreachable!("every event answers the open request"),
        };
        let next = session.advance(event);
        session = next.0;
        action = next.1;
    }
}

fn cleanup_image(disk: &mut Disk, path: &str) -> Result<(), StoreError> {
    removal_outcome(disk.remove_file(path))
}

fn clear_images(disk: &mut Disk) -> Result<(), StoreError> {
    let temp_dir = format!("{}/{}", APP_DIR, TEMP_DIR_NAME);
    let (mut session, mut action) = ClearSession::begin();
    let mut paths = Vec::new();
    loop {
        let event = match action {
            ClearAction::ProbeDirectory => {
                if disk.is_dir(&temp_dir) {
                    ClearEvent::DirectoryFound
                } else {
                    ClearEvent::DirectoryMissing
                }
            }
            ClearAction::ListDirectory => match disk.read_dir(&temp_dir) {
                Ok(listing) => {
                    let mut entries = Vec::new();
                    for (path, is_file) in listing {
                        entries.push(EntryReport::Found { path: path.clone(), is_file });
                        paths.push(path);
                    }
                    ClearEvent::DirectoryListed { entries }
                }
                Err(cause) => ClearEvent::DirectoryNotListed { cause },
            },
            ClearAction::RemoveEntry { index } => match disk.remove_file(&paths[index]) {
                Ok(()) => ClearEvent::EntryRemoved,
                Err(cause) => ClearEvent::EntryNotRemoved { cause },
            },
            ClearAction::Finish { outcome } => {
                assert!(session.is_finished());
                return outcome;
            }
            ClearAction::Ignored => unreachable!("every event answers the open request"),
        };
        let next = session.advance(event);
        session = next.0;
        action = next.1;
    }
}

#[test]
fn temporary_directory_lies_below_the_app_directory() {
    assert_eq!(format!("{}/{}", APP_DIR, TEMP_DIR_NAME), TEMP_DIR);
}

#[test]
fn save_then_cleanup_then_cleanup_again() {
    let mut disk = Disk::with_app_dir();
    let saved = save_image(&mut disk, "data:image/png;base64,aGVsbG8=").unwrap();
    assert_eq!(disk.files.get(&saved.path), Some(&b"hello".to_vec()));
    assert_eq!(cleanup_image(&mut disk, &saved.path), Ok(()));
    assert!(!disk.files.contains_key(&saved.path));
    assert_eq!(
        cleanup_image(&mut disk, &saved.path),
        Err(StoreError::Delete {
            path: None,
            cause: "No such file or directory (os error 2)".to_string(),
        })
    );
}

#[test]
fn saved_file_holds_the_decoded_bytes() {
    let cases: Vec<(&str, Vec<u8>)> = vec![
        ("aGVsbG8=", b"hello".to_vec()),
        ("data:image/png;base64,aGVsbG8=", b"hello".to_vec()),
        ("data:image/jpeg;base64,aGVsbG8=", b"hello".to_vec()),
        ("iVBORw0KGgo=", vec![0x89, b'P', b'N', b'G', 0x0d, 0x0a, 0x1a, 0x0a]),
        ("data:image/jpeg;base64,/9j/4A==", vec![0xff, 0xd8, 0xff, 0xe0]),
        ("", Vec::new()),
        ("data:image/png;base64,", Vec::new()),
    ];
    for (text, bytes) in cases {
        let mut disk = Disk::with_app_dir();
        let saved = save_image(&mut disk, text).unwrap();
        assert_eq!(disk.files.get(&saved.path), Some(&bytes));
        assert_eq!(disk.files.len(), 1);
    }
}

#[test]
fn saved_file_lies_in_the_temporary_directory_as_png() {
    let mut disk = Disk::with_app_dir();
    let jpeg = save_image(&mut disk, "data:image/jpeg;base64,/9j/4A==").unwrap();
    assert_eq!(parent(&jpeg.path), TEMP_DIR);
    assert_eq!(jpeg.path.len(), TEMP_DIR.len() + 1 + 36 + 4);
    assert!(jpeg.path.ends_with(".png"));
}

#[test]
fn save_makes_the_directory_and_its_ancestors() {
    let mut disk = Disk::default();
    assert!(!disk.is_dir(APP_DIR));
    let saved = save_image(&mut disk, "aGVsbG8=").unwrap();
    assert!(disk.is_dir(TEMP_DIR));
    assert!(disk.is_dir(APP_DIR));
    assert!(disk.is_dir("/home"));
    assert_eq!(disk.files_in(TEMP_DIR), vec![saved.path]);
}

#[test]
fn save_keeps_what_the_directory_holds() {
    let mut disk = Disk::with_app_dir();
    let first = save_image(&mut disk, "aGVsbG8=").unwrap();
    let second = save_image(&mut disk, "d29ybGQ=").unwrap();
    assert_eq!(disk.files.get(&first.path), Some(&b"hello".to_vec()));
    assert_eq!(disk.files.get(&second.path), Some(&b"world".to_vec()));
}

#[test]
fn every_save_yields_a_path_of_its_own() {
    let mut disk = Disk::with_app_dir();
    let mut paths = BTreeSet::new();
    for _ in 0..300 {
        let saved = save_image(&mut disk, "aGVsbG8=").unwrap();
        assert!(paths.insert(saved.path));
    }
    assert_eq!(disk.files_in(TEMP_DIR).len(), 300);
}

#[test]
fn cleanup_of_a_saved_image_removes_it() {
    let mut disk = Disk::with_app_dir();
    let kept = save_image(&mut disk, "aGVsbG8=").unwrap();
    let saved = save_image(&mut disk, "d29ybGQ=").unwrap();
    assert_eq!(cleanup_image(&mut disk, &saved.path), Ok(()));
    assert!(!disk.files.contains_key(&saved.path));
    assert!(disk.files.contains_key(&kept.path));
}

#[test]
fn cleanup_of_a_missing_file_is_a_delete_error() {
    let mut disk = Disk::with_app_dir();
    let before = disk.clone();
    let outcome = cleanup_image(&mut disk, "/home/user/.local/share/app/temp/none.png");
    assert_eq!(
        outcome,
        Err(StoreError::Delete {
            path: None,
            cause: "No such file or directory (os error 2)".to_string(),
        })
    );
    assert_eq!(
        outcome.unwrap_err().message(),
        "删除临时图像失败: No such file or directory (os error 2)"
    );
    assert_eq!(disk, before);
}

#[test]
fn cleanup_takes_any_path() {
    let mut disk = Disk::with_app_dir();
    disk.create_file("/home/user/notes.txt").unwrap();
    assert_eq!(cleanup_image(&mut disk, "/home/user/notes.txt"), Ok(()));
    assert!(disk.files.is_empty());
}

#[test]
fn clearing_without_a_directory_creates_nothing() {
    let mut disk = Disk::with_app_dir();
    let before = disk.clone();
    assert_eq!(clear_images(&mut disk), Ok(()));
    assert_eq!(disk, before);
    assert!(!disk.is_dir(TEMP_DIR));

    let mut bare = Disk::default();
    assert_eq!(clear_images(&mut bare), Ok(()));
    assert_eq!(bare, Disk::default());
}

#[test]
fn clearing_removes_exactly_the_saved_files() {
    for count in [0usize, 1, 2, 7] {
        let mut disk = Disk::with_app_dir();
        disk.create_dir_all(TEMP_DIR).unwrap();
        disk.create_file("/home/user/.local/share/app/settings.json").unwrap();
        for _ in 0..count {
            save_image(&mut disk, "aGVsbG8=").unwrap();
        }
        assert_eq!(disk.files_in(TEMP_DIR).len(), count);
        assert_eq!(clear_images(&mut disk), Ok(()));
        assert!(disk.is_dir(TEMP_DIR));
        assert_eq!(disk.read_dir(TEMP_DIR), Ok(Vec::new()));
        assert_eq!(
            disk.files.keys().collect::<Vec<_>>(),
            vec!["/home/user/.local/share/app/settings.json"]
        );
    }
}

#[test]
fn clearing_leaves_subdirectories_and_what_is_in_them() {
    let mut disk = Disk::with_app_dir();
    disk.create_dir_all("/home/user/.local/share/app/temp/keep").unwrap();
    disk.create_file("/home/user/.local/share/app/temp/keep/inner.png").unwrap();
    save_image(&mut disk, "aGVsbG8=").unwrap();
    assert_eq!(clear_images(&mut disk), Ok(()));
    assert!(disk.is_dir("/home/user/.local/share/app/temp/keep"));
    assert_eq!(
        disk.files.keys().collect::<Vec<_>>(),
        vec!["/home/user/.local/share/app/temp/keep/inner.png"]
    );
}

#[test]
fn clearing_stops_at_the_first_file_that_stays() {
    let mut disk = Disk::with_app_dir();
    disk.create_dir_all(TEMP_DIR).unwrap();
    for name in ["a.png", "b.png", "c.png", "d.png"] {
        disk.create_file(&format!("{}/{}", TEMP_DIR, name)).unwrap();
    }
    disk.locked.insert(format!("{}/b.png", TEMP_DIR));
    let outcome = clear_images(&mut disk);
    assert_eq!(
        outcome,
        Err(StoreError::Delete {
            path: Some(format!("{}/b.png", TEMP_DIR)),
            cause: "Permission denied (os error 13)".to_string(),
        })
    );
    assert_eq!(
        outcome.unwrap_err().message(),
        "删除文件失败 /home/user/.local/share/app/temp/b.png: Permission denied (os error 13)"
    );
    assert_eq!(
        disk.files_in(TEMP_DIR),
        vec![
            format!("{}/b.png", TEMP_DIR),
            format!("{}/c.png", TEMP_DIR),
            format!("{}/d.png", TEMP_DIR),
        ]
    );
}

#[test]
fn clearing_reports_a_directory_that_cannot_be_read() {
    let mut disk = Disk::with_app_dir();
    save_image(&mut disk, "aGVsbG8=").unwrap();
    disk.unlistable = true;
    let before = disk.clone();
    let outcome = clear_images(&mut disk);
    assert_eq!(
        outcome,
        Err(StoreError::ReadDir { cause: "Permission denied (os error 13)".to_string() })
    );
    assert_eq!(
        outcome.unwrap_err().message(),
        "读取临时目录失败: Permission denied (os error 13)"
    );
    assert_eq!(disk, before);
}

#[test]
fn malformed_text_creates_no_file() {
    let mut disk = Disk::with_app_dir();
    let before = disk.clone();
    let outcome = save_image(&mut disk, "not-base64!!");
    assert_eq!(
        outcome,
        Err(StoreError::Decode { cause: "Invalid byte 45, offset 3.".to_string() })
    );
    assert_eq!(
        outcome.unwrap_err().message(),
        "解码图像数据失败: Invalid byte 45, offset 3."
    );
    assert_eq!(disk, before);
    assert!(!disk.is_dir(TEMP_DIR));
}

#[test]
fn save_reports_a_directory_that_cannot_be_made() {
    let mut disk = Disk::with_app_dir();
    disk.read_only = true;
    let outcome = save_image(&mut disk, "aGVsbG8=");
    assert_eq!(
        outcome,
        Err(StoreError::DirectoryCreate {
            cause: "Read-only file system (os error 30)".to_string()
        })
    );
    assert_eq!(
        outcome.unwrap_err().message(),
        "创建临时目录失败: Read-only file system (os error 30)"
    );
    assert!(disk.files.is_empty());
}

#[test]
fn save_reports_a_file_that_cannot_be_created() {
    let mut disk = Disk::with_app_dir();
    disk.create_dir_all(TEMP_DIR).unwrap();
    disk.read_only = true;
    let outcome = save_image(&mut disk, "aGVsbG8=");
    assert_eq!(
        outcome,
        Err(StoreError::FileCreate { cause: "Read-only file system (os error 30)".to_string() })
    );
    assert_eq!(
        outcome.unwrap_err().message(),
        "创建文件失败: Read-only file system (os error 30)"
    );
    assert!(disk.files.is_empty());
}

#[test]
fn save_reports_bytes_that_cannot_be_written() {
    let mut disk = Disk::with_app_dir();
    disk.full = true;
    let outcome = save_image(&mut disk, "aGVsbG8=");
    assert_eq!(
        outcome,
        Err(StoreError::Write { cause: "No space left on device (os error 28)".to_string() })
    );
    assert_eq!(
        outcome.unwrap_err().message(),
        "写入图像数据失败: No space left on device (os error 28)"
    );
    assert_eq!(disk.files_in(TEMP_DIR).len(), 1);
}
