//! The user's settings: categories, output folders and the input folder.
use vstd::prelude::*;
use crate::category::{CategoryMap, CategoryTable, contains_str, copy_strs};
use crate::path::strs;

verus! {

pub struct Config {
    pub categories: CategoryMap,
    pub output_folders: Vec<String>,
    pub input_folder: Option<String>,
}

/// The categories that a new configuration starts with.
pub open spec fn default_table() -> CategoryTable {
    seq![
        ("Images"@, seq![".jpg"@, ".jpeg"@, ".png"@, ".gif"@, ".bmp"@]),
        ("Documents"@, seq![".pdf"@, ".doc"@, ".docx"@, ".txt"@, ".xlsx"@, ".pptx"@]),
        ("Videos"@, seq![".mp4"@, ".avi"@, ".mov"@, ".wmv"@, ".mkv"@]),
        ("Audio"@, seq![".mp3"@, ".wav"@, ".ogg"@, ".flac"@, ".aac"@]),
        ("Archives"@, seq![".zip"@, ".rar"@, ".7z"@, ".tar"@, ".gz"@]),
    ]
}

fn string_list(a: &str, b: &str, c: &str, d: &str, e: &str) -> (r: Vec<String>)
    ensures
        strs(r@) == seq![a@, b@, c@, d@, e@],
{
    let mut r: Vec<String> = Vec::new();
    r.push(String::from_str(a));
    r.push(String::from_str(b));
    r.push(String::from_str(c));
    r.push(String::from_str(d));
    r.push(String::from_str(e));
    assert(strs(r@) =~= seq![a@, b@, c@, d@, e@]);
    r
}

impl Default for Config {
    /// Images, Documents, Videos, Audio and Archives with their usual
    /// extensions; no output folder, no input folder.
    fn default() -> (r: Config)
        ensures
            r.categories@ == default_table(),
            r.categories.wf(),
            r.output_folders@.len() == 0,
            r.input_folder is None,
    {
        proof {
            reveal_strlit("Images");
            reveal_strlit("Documents");
            reveal_strlit("Videos");
            reveal_strlit("Audio");
            reveal_strlit("Archives");
        }
        let ghost t = default_table();
        let mut categories = CategoryMap::new();
        categories.insert(
            String::from_str("Images"),
            string_list(".jpg", ".jpeg", ".png", ".gif", ".bmp"),
        );
        assert(categories@ =~= t.subrange(0, 1));
        let mut documents = string_list(".pdf", ".doc", ".docx", ".txt", ".xlsx");
        let ghost five = strs(documents@);
        documents.push(String::from_str(".pptx"));
        assert(strs(documents@) =~= five.push(".pptx"@));
        assert(strs(documents@) =~= seq![".pdf"@, ".doc"@, ".docx"@, ".txt"@, ".xlsx"@, ".pptx"@]);
        assert("Images"@ != "Documents"@) by {
            assert("Images"@.len() != "Documents"@.len());
        }
        let name = String::from_str("Documents");
        assert(forall|i: int| 0 <= i < categories@.len() ==> categories@[i].0 != name@);
        categories.insert(name, documents);
        assert(categories@ =~= t.subrange(0, 2));
        assert("Images"@ != "Videos"@) by {
            assert("Images"@[0] != "Videos"@[0]);
        }
        assert("Documents"@ != "Videos"@) by {
            assert("Documents"@.len() != "Videos"@.len());
        }
        let name = String::from_str("Videos");
        assert(forall|i: int| 0 <= i < categories@.len() ==> categories@[i].0 != name@);
        categories.insert(
            name,
            string_list(".mp4", ".avi", ".mov", ".wmv", ".mkv"),
        );
        assert(categories@ =~= t.subrange(0, 3));
        assert("Images"@ != "Audio"@ && "Documents"@ != "Audio"@ && "Videos"@ != "Audio"@) by {
            assert("Images"@[0] != "Audio"@[0]);
            assert("Documents"@[0] != "Audio"@[0]);
            assert("Videos"@[0] != "Audio"@[0]);
        }
        let name = String::from_str("Audio");
        assert(forall|i: int| 0 <= i < categories@.len() ==> categories@[i].0 != name@);
        categories.insert(
            name,
            string_list(".mp3", ".wav", ".ogg", ".flac", ".aac"),
        );
        assert(categories@ =~= t.subrange(0, 4));
        assert("Images"@ != "Archives"@ && "Documents"@ != "Archives"@ && "Videos"@ != "Archives"@
            && "Audio"@ != "Archives"@) by {
            assert("Images"@[0] != "Archives"@[0]);
            assert("Documents"@[0] != "Archives"@[0]);
            assert("Videos"@[0] != "Archives"@[0]);
            assert("Audio"@[1] != "Archives"@[1]);
        }
        let name = String::from_str("Archives");
        assert(forall|i: int| 0 <= i < categories@.len() ==> categories@[i].0 != name@);
        categories.insert(
            name,
            string_list(".zip", ".rar", ".7z", ".tar", ".gz"),
        );
        assert(categories@ =~= t);
        Config { categories, output_folders: Vec::new(), input_folder: None }
    }
}

/// The configuration with `folder` among its output folders, added last when
/// it is not there yet.
pub fn add_output_folder(folder: String, config: Config) -> (r: Config)
    ensures
        r.categories@ == config.categories@,
        r.categories.wf() == config.categories.wf(),
        r.input_folder == config.input_folder,
        strs(r.output_folders@) == if strs(config.output_folders@).contains(folder@) {
            strs(config.output_folders@)
        } else {
            strs(config.output_folders@).push(folder@)
        },
{
    let mut folders = copy_strs(&config.output_folders);
    if !contains_str(&config.output_folders, folder.as_str()) {
        let ghost before = folders@;
        folders.push(folder);
        assert(strs(folders@) =~= strs(before).push(folder@));
    }
    Config { categories: config.categories, output_folders: folders, input_folder: config.input_folder }
}

/// The configuration with `folder` as its input folder.
pub fn set_input_folder(folder: String, config: Config) -> (r: Config)
    ensures
        r.categories@ == config.categories@,
        r.categories.wf() == config.categories.wf(),
        r.output_folders@ == config.output_folders@,
        r.input_folder == Some(folder),
{
    Config { categories: config.categories, output_folders: config.output_folders, input_folder: Some(folder) }
}

} // verus!
