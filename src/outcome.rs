//! What happens to one file: moved into a category, or a failure of a given kind.
use vstd::prelude::*;

verus! {

/// Why a file was not moved.
pub enum FileFailure {
    /// The source file no longer exists.
    NotFound,
    /// The path has no file name.
    InvalidName,
    /// The category folder could not be created; holds the system's reason.
    DirectoryCreateFailed(String),
    /// Every way of moving failed and nothing reached the destination.
    CopyFailed(String),
    /// A copy reached the destination but the source could not be removed.
    OrphanedCopy(String),
}

pub open spec fn failure_message(f: FileFailure) -> Seq<char> {
    match f {
        FileFailure::NotFound => "ファイルが存在しません"@,
        FileFailure::InvalidName => "無効なファイル名"@,
        FileFailure::DirectoryCreateFailed(e) => "フォルダ作成エラー: "@ + e@,
        FileFailure::CopyFailed(e) => "移動エラー: コピーできませんでした: "@ + e@,
        FileFailure::OrphanedCopy(e) => "移動エラー: コピー後に元ファイルを削除できませんでした: "@ + e@,
    }
}

impl FileFailure {
    /// A human-readable description of the failure.
    pub fn message(&self) -> (r: String)
        ensures
            r@ == failure_message(*self),
    {
        match self {
            FileFailure::NotFound => String::from_str("ファイルが存在しません"),
            FileFailure::InvalidName => String::from_str("無効なファイル名"),
            FileFailure::DirectoryCreateFailed(e) => {
                let mut r = String::from_str("フォルダ作成エラー: ");
                r.append(e.as_str());
                r
            },
            FileFailure::CopyFailed(e) => {
                let mut r = String::from_str("移動エラー: コピーできませんでした: ");
                r.append(e.as_str());
                r
            },
            FileFailure::OrphanedCopy(e) => {
                let mut r = String::from_str("移動エラー: コピー後に元ファイルを削除できませんでした: ");
                r.append(e.as_str());
                r
            },
        }
    }
}

/// The outcome for one source file. On success `detail` is the category name;
/// on failure it describes the failure.
pub struct MoveResult {
    pub source_path: String,
    pub succeeded: bool,
    pub detail: String,
}

pub open spec fn result_view(r: MoveResult) -> (Seq<char>, bool, Seq<char>) {
    (r.source_path@, r.succeeded, r.detail@)
}

impl MoveResult {
    /// `source_path` was moved into the category `category`.
    pub fn moved(source_path: &str, category: &str) -> (r: MoveResult)
        ensures
            r.source_path@ == source_path@,
            r.succeeded,
            r.detail@ == category@,
    {
        MoveResult {
            source_path: String::from_str(source_path),
            succeeded: true,
            detail: String::from_str(category),
        }
    }

    /// `source_path` was not moved, for the reason `failure`.
    pub fn failed(source_path: &str, failure: &FileFailure) -> (r: MoveResult)
        ensures
            r.source_path@ == source_path@,
            !r.succeeded,
            r.detail@ == failure_message(*failure),
    {
        MoveResult { source_path: String::from_str(source_path), succeeded: false, detail: failure.message() }
    }

    /// A copy of this result.
    pub fn duplicate(&self) -> (r: MoveResult)
        ensures
            result_view(r) == result_view(*self),
    {
        MoveResult {
            source_path: self.source_path.clone(),
            succeeded: self.succeeded,
            detail: self.detail.clone(),
        }
    }
}

} // verus!
