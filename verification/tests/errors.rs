use temp_image_store::cleanup::removal_outcome;
use temp_image_store::StoreError;

#[test]
fn decode_error_message() {
    let error = StoreError::Decode { cause: "Invalid padding".to_string() };
    assert_eq!(error.message(), "解码图像数据失败: Invalid padding");
}

#[test]
fn directory_create_error_message() {
    let error =
        StoreError::DirectoryCreate { cause: "Permission denied (os error 13)".to_string() };
    assert_eq!(error.message(), "创建临时目录失败: Permission denied (os error 13)");
}

#[test]
fn file_create_error_message() {
    let error = StoreError::FileCreate { cause: "Permission denied (os error 13)".to_string() };
    assert_eq!(error.message(), "创建文件失败: Permission denied (os error 13)");
}

#[test]
fn write_error_message() {
    let error = StoreError::Write { cause: "No space left on device (os error 28)".to_string() };
    assert_eq!(error.message(), "写入图像数据失败: No space left on device (os error 28)");
}

#[test]
fn read_dir_error_message() {
    let error = StoreError::ReadDir { cause: "Not a directory (os error 20)".to_string() };
    assert_eq!(error.message(), "读取临时目录失败: Not a directory (os error 20)");
}

#[test]
fn delete_error_message_without_path() {
    let error = StoreError::Delete {
        path: None,
        cause: "No such file or directory (os error 2)".to_string(),
    };
    assert_eq!(error.message(), "删除临时图像失败: No such file or directory (os error 2)");
}

#[test]
fn delete_error_message_with_path() {
    let error = StoreError::Delete {
        path: Some("/data/temp/a.png".to_string()),
        cause: "Permission denied (os error 13)".to_string(),
    };
    assert_eq!(
        error.message(),
        "删除文件失败 /data/temp/a.png: Permission denied (os error 13)"
    );
}

#[test]
fn message_with_empty_cause_keeps_its_head() {
    let error = StoreError::Decode { cause: String::new() };
    assert_eq!(error.message(), "解码图像数据失败: ");
}

#[test]
fn removal_that_went_well_is_success() {
    assert_eq!(removal_outcome(Ok(())), Ok(()));
}

#[test]
fn removal_that_failed_is_a_delete_error() {
    assert_eq!(
        removal_outcome(Err("No such file or directory (os error 2)".to_string())),
        Err(StoreError::Delete {
            path: None,
            cause: "No such file or directory (os error 2)".to_string(),
        })
    );
}
