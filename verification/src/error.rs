use vstd::prelude::*;
use vstd::string::*;

verus! {

/// Why an operation of the store did not go through.
///
/// Every variant carries, as `cause`, the words of whoever refused: the
/// base64 decoder for `Decode`, the operating system for the others.
#[derive(Debug, PartialEq, Eq)]
pub enum StoreError {
    /// The text handed in is not base64.
    Decode { cause: String },
    /// The temporary directory was missing and could not be made.
    DirectoryCreate { cause: String },
    /// The image file could not be created.
    FileCreate { cause: String },
    /// The image file was created, but the bytes could not be written.
    Write { cause: String },
    /// A file could not be removed. `path` names the file when the failure
    /// came up while the whole directory was being cleared.
    Delete { path: Option<String>, cause: String },
    /// The entries of the temporary directory could not be read.
    ReadDir { cause: String },
}

/// The mathematical value of a [`StoreError`].
pub ghost enum StoreErrorView {
    Decode { cause: Seq<char> },
    DirectoryCreate { cause: Seq<char> },
    FileCreate { cause: Seq<char> },
    Write { cause: Seq<char> },
    Delete { path: Option<Seq<char>>, cause: Seq<char> },
    ReadDir { cause: Seq<char> },
}

impl View for StoreError {
    type V = StoreErrorView;

    open spec fn view(&self) -> StoreErrorView {
        match self {
            StoreError::Decode { cause } => StoreErrorView::Decode { cause: cause@ },
            StoreError::DirectoryCreate { cause } => StoreErrorView::DirectoryCreate {
                cause: cause@,
            },
            StoreError::FileCreate { cause } => StoreErrorView::FileCreate { cause: cause@ },
            StoreError::Write { cause } => StoreErrorView::Write { cause: cause@ },
            StoreError::Delete { path, cause } => StoreErrorView::Delete {
                path: match path {
                    Some(p) => Some(p@),
                    None => None,
                },
                cause: cause@,
            },
            StoreError::ReadDir { cause } => StoreErrorView::ReadDir { cause: cause@ },
        }
    }
}

impl StoreErrorView {
    /// The sentence shown to the user: what failed, then the cause.
    pub open spec fn message(self) -> Seq<char> {
        match self {
            StoreErrorView::Decode { cause } => "解码图像数据失败: "@ + cause,
            StoreErrorView::DirectoryCreate { cause } => "创建临时目录失败: "@ + cause,
            StoreErrorView::FileCreate { cause } => "创建文件失败: "@ + cause,
            StoreErrorView::Write { cause } => "写入图像数据失败: "@ + cause,
            StoreErrorView::Delete { path: None, cause } => "删除临时图像失败: "@ + cause,
            StoreErrorView::Delete { path: Some(p), cause } => "删除文件失败 "@ + p + ": "@
                + cause,
            StoreErrorView::ReadDir { cause } => "读取临时目录失败: "@ + cause,
        }
    }
}

impl StoreError {
    /// The sentence shown to the user: what failed, then the cause.
    pub fn message(&self) -> (text: String)
        ensures
            text@ == self@.message(),
    {
        match self {
            StoreError::Decode { cause } => headed("解码图像数据失败: ", cause),
            StoreError::DirectoryCreate { cause } => headed("创建临时目录失败: ", cause),
            StoreError::FileCreate { cause } => headed("创建文件失败: ", cause),
            StoreError::Write { cause } => headed("写入图像数据失败: ", cause),
            StoreError::Delete { path: None, cause } => headed("删除临时图像失败: ", cause),
            StoreError::Delete { path: Some(p), cause } => {
                let mut text = headed("删除文件失败 ", p);
                text.append(": ");
                text.append(cause.as_str());
                text
            },
            StoreError::ReadDir { cause } => headed("读取临时目录失败: ", cause),
        }
    }
}

/// `head` followed by `tail`.
fn headed(head: &str, tail: &String) -> (text: String)
    ensures
        text@ == head@ + tail@,
{
    let mut text = head.to_owned();
    text.append(tail.as_str());
    text
}

} // verus!
