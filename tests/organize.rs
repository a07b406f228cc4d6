use shiwakekun::category::CategoryMap;
use shiwakekun::config::{add_output_folder, set_input_folder, Config};
use shiwakekun::destination::DestinationSearch;
use shiwakekun::map_err;
use shiwakekun::mover::{MoveStrategy, OpError};
use shiwakekun::organize::{move_result, plan_file, FileAction, FileJob};
use shiwakekun::outcome::{FileFailure, MoveResult};
use shiwakekun::settings::EngineConfig;

fn strings(items: &[&str]) -> Vec<String> {
    items.iter().map(|s| s.to_string()).collect()
}

#[test]
fn organize_three_files_into_categories() {
    let mut m = CategoryMap::new();
    m.insert("Images".to_string(), strings(&[".jpg"]));
    m.insert("Documents".to_string(), strings(&[".txt"]));
    let expected = [
        ("a.jpg", "Images", "/out/Images/a.jpg"),
        ("b.txt", "Documents", "/out/Documents/b.txt"),
        ("c.unknownext", "Others", "/out/Others/c.unknownext"),
    ];
    for (file, category, dest) in expected {
        let plan = match plan_file(file, "/out", &m) {
            Ok(p) => p,
            Err(_) => panic!("no plan"),
        };
        assert_eq!(plan.category, category);
        assert_eq!(plan.category_dir, format!("/out/{}", category));
        assert_eq!(plan.file_name, file);
        let mut search = DestinationSearch::new(&plan.category_dir, &plan.file_name);
        assert_eq!(search.record(false), Some(dest.to_string()));
        let mut mv = MoveStrategy::new(&EngineConfig::standard(), false);
        mv.record(Ok(()));
        mv.record(Ok(()));
        let r = move_result(file, &plan.category, &mv);
        assert!(r.succeeded);
        assert_eq!(r.detail, category);
        assert_eq!(r.source_path, file);
    }
}

#[test]
fn organize_collision_in_category_folder() {
    let m = Config::default().categories;
    let plan = match plan_file("/in/a.jpg", "/out", &m) {
        Ok(p) => p,
        Err(_) => panic!("no plan"),
    };
    let mut search = DestinationSearch::new(&plan.category_dir, &plan.file_name);
    assert_eq!(search.candidate(), "/out/Images/a.jpg");
    assert_eq!(search.record(true), None);
    assert_eq!(search.record(false), Some("/out/Images/a_1.jpg".to_string()));
}

#[test]
fn plan_rejects_path_without_file_name() {
    let m = CategoryMap::new();
    assert!(matches!(plan_file("/", "/out", &m), Err(FileFailure::InvalidName)));
    assert!(matches!(plan_file("/in/..", "/out", &m), Err(FileFailure::InvalidName)));
}

#[test]
fn failed_move_reports_failure_text() {
    let cfg = EngineConfig { batch_size: 10, batch_delay_ms: 0, max_retries: 1, retry_backoff_ms: 0 };
    let mut mv = MoveStrategy::new(&cfg, false);
    for _ in 0..3 {
        mv.record(Err(OpError { permission_denied: false, message: "no space".to_string() }));
    }
    let r = move_result("/in/a.jpg", "Images", &mv);
    assert!(!r.succeeded);
    assert_eq!(r.detail, "移動エラー: コピーできませんでした: no space");
}

#[test]
fn failure_messages() {
    assert_eq!(FileFailure::NotFound.message(), "ファイルが存在しません");
    assert_eq!(FileFailure::InvalidName.message(), "無効なファイル名");
    assert_eq!(
        FileFailure::DirectoryCreateFailed("read-only".to_string()).message(),
        "フォルダ作成エラー: read-only"
    );
    assert_eq!(
        FileFailure::CopyFailed("gone".to_string()).message(),
        "移動エラー: コピーできませんでした: gone"
    );
    assert_eq!(
        FileFailure::OrphanedCopy("busy".to_string()).message(),
        "移動エラー: コピー後に元ファイルを削除できませんでした: busy"
    );
    let r = MoveResult::failed("/in/x", &FileFailure::NotFound);
    assert_eq!(r.source_path, "/in/x");
    assert!(!r.succeeded);
    assert_eq!(r.detail, "ファイルが存在しません");
}

#[test]
fn map_err_prefixes_errors() {
    let ok: Result<u32, String> = Ok(7);
    assert_eq!(map_err(ok, "reading"), Ok(7));
    let bad: Result<u32, String> = Err("denied".to_string());
    assert_eq!(map_err(bad, "reading"), Err("reading: denied".to_string()));
}

#[test]
fn output_folders_are_not_repeated() {
    let c = add_output_folder("/out".to_string(), Config::default());
    let c = add_output_folder("/other".to_string(), c);
    let c = add_output_folder("/out".to_string(), c);
    assert_eq!(c.output_folders, strings(&["/out", "/other"]));
    assert!(c.input_folder.is_none());
}

#[test]
fn input_folder_is_set() {
    let c = set_input_folder("/in".to_string(), Config::default());
    assert_eq!(c.input_folder, Some("/in".to_string()));
    let c = set_input_folder("/in2".to_string(), c);
    assert_eq!(c.input_folder, Some("/in2".to_string()));
    assert_eq!(c.categories.len(), 5);
}

/// Runs a job, answering from a pretend file system: `sources` exist,
/// `taken` paths exist, `folder_error` fails the folder step, and moves
/// succeed through the asynchronous copy and removal.
fn run_job(
    source: &str,
    sources: &[&str],
    taken: &[&str],
    folder_error: Option<&str>,
    categories: &CategoryMap,
) -> (FileJob, Vec<String>) {
    let mut job = FileJob::new(source, "/out");
    let mut asked = Vec::new();
    loop {
        match job.action() {
            FileAction::CheckSource => job.source_checked(sources.contains(&source), categories),
            FileAction::CreateFolder(dir) => {
                asked.push(dir);
                job.folder_ready(match folder_error {
                    Some(e) => Err(e.to_string()),
                    None => Ok(()),
                });
            }
            FileAction::CheckPath(p) => {
                let t = taken.contains(&p.as_str());
                asked.push(p);
                job.path_checked(t);
            }
            FileAction::Move(dest) => {
                asked.push(dest);
                let mut mv = MoveStrategy::new(&EngineConfig::standard(), false);
                mv.record(Ok(()));
                mv.record(Ok(()));
                job.moved(&mv);
            }
            FileAction::Done => break,
        }
    }
    (job, asked)
}

#[test]
fn file_job_moves_into_category() {
    let m = Config::default().categories;
    let (job, asked) = run_job("/in/a.jpg", &["/in/a.jpg"], &["/out/Images/a.jpg"], None, &m);
    assert_eq!(
        asked,
        strings(&["/out/Images", "/out/Images/a.jpg", "/out/Images/a_1.jpg", "/out/Images/a_1.jpg"])
    );
    let r = job.result().unwrap();
    assert!(r.succeeded);
    assert_eq!(r.detail, "Images");
    assert_eq!(r.source_path, "/in/a.jpg");
}

#[test]
fn file_job_reports_each_failure() {
    let m = Config::default().categories;
    let (job, asked) = run_job("/in/a.jpg", &[], &[], None, &m);
    assert!(asked.is_empty());
    assert_eq!(job.result().unwrap().detail, "ファイルが存在しません");
    let (job, _) = run_job("/in/..", &["/in/.."], &[], None, &m);
    assert_eq!(job.result().unwrap().detail, "無効なファイル名");
    let (job, asked) = run_job("/in/b.txt", &["/in/b.txt"], &[], Some("denied"), &m);
    assert_eq!(asked, strings(&["/out/Documents"]));
    let r = job.result().unwrap();
    assert!(!r.succeeded);
    assert_eq!(r.detail, "フォルダ作成エラー: denied");
}

#[test]
fn file_job_has_no_result_before_done() {
    let job = FileJob::new("/in/a.jpg", "/out");
    assert!(job.result().is_none());
}
