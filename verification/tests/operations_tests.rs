use hermit::Config;
use hermit::FileOperations;
use hermit::Hermit;
use hermit::Op;
use hermit::OpError;
use hermit::Shell;
use hermit::WalkEntry;
use hermit::shell::plan_links;

#[test]
fn appending_does_not_execute() {
    let mut file_ops = FileOperations::rooted_at("/nonexistent-base");
    file_ops.link("a", "b");
    file_ops.link("c", "d");
    file_ops.create_git_repo("e");
    assert_eq!(file_ops.operations.len(), 3);
    assert_eq!(
        file_ops.operations[0],
        Op::Link(
            String::from("/nonexistent-base/a"),
            String::from("/nonexistent-base/b")
        )
    );
    assert_eq!(
        file_ops.operations[2],
        Op::GitInit(String::from("/nonexistent-base/e"))
    );
}

#[test]
fn plans_one_link_per_file_and_none_for_directories() {
    let storage = "/s/shells/sh";
    let home = "/home/u";
    let entries = vec![
        WalkEntry { path: String::from("/s/shells/sh"), is_dir: true },
        WalkEntry { path: String::from("/s/shells/sh/a"), is_dir: false },
        WalkEntry { path: String::from("/s/shells/sh/dir"), is_dir: true },
        WalkEntry { path: String::from("/s/shells/sh/dir/b"), is_dir: false },
    ];
    let file_ops = plan_links(storage, home, &entries);
    assert_eq!(file_ops.base_path, storage);
    assert_eq!(file_ops.operations.len(), 2);
    assert_eq!(
        file_ops.operations[0],
        Op::Link(String::from("/s/shells/sh/a"), String::from("/home/u/a"))
    );
    assert_eq!(
        file_ops.operations[1],
        Op::Link(
            String::from("/s/shells/sh/dir/b"),
            String::from("/home/u/dir/b")
        )
    );
}

#[test]
fn commit_reports_one_outcome_per_operation() {
    let mut file_ops = FileOperations::rooted_at("/");
    // a source that does not exist
    file_ops.link("/tmp/hermit_missing_source_zq1", "/tmp/hermit_unused_dest_zq1");
    // an existing source, but the destination already exists
    file_ops.link("/tmp", "/tmp");
    // a repository under a path that can hold no directory
    file_ops.create_git_repo("/dev/null/hermit_zq1");
    let results = file_ops.commit();
    assert_eq!(results.len(), 3);
    assert_eq!(results[0], Err(OpError::SourceDoesNotExist));
    assert_eq!(results[1], Err(OpError::LinkFailed));
    assert_eq!(results[2], Err(OpError::GitInitFailed));
}

#[test]
fn commit_executes_in_append_order() {
    let config = Config {
        root_path: String::from("/tmp/hermit_commit_order"),
        allowed_shell_names: vec!["ordered".to_owned()],
        current_shell: "ordered".to_owned(),
    };
    let hermit = Hermit::new(config);
    // remove leftovers of an earlier run, if any
    let mut pre_ops = FileOperations::rooted_at("/");
    let _ = hermit.nuke_shell(&mut pre_ops, "ordered");

    let repo = "/tmp/hermit_commit_order/shells/ordered";
    let inner_link = "/tmp/hermit_commit_order/shells/ordered/self_link";

    // repository initialization first, then a link inside the directory it
    // creates: both succeed
    let mut forward = FileOperations::rooted_at("/");
    forward.create_git_repo(repo);
    forward.link(repo, inner_link);
    let results = forward.commit();
    assert_eq!(results.len(), 2);
    assert!(results[0].is_ok());
    assert!(results[1].is_ok());

    let mut mid_ops = FileOperations::rooted_at("/");
    assert!(hermit.nuke_shell(&mut mid_ops, "ordered").is_ok());

    // the reverse order: the link runs before the directory exists and fails
    let mut reverse = FileOperations::rooted_at("/");
    reverse.link(repo, inner_link);
    reverse.create_git_repo(repo);
    let results = reverse.commit();
    assert_eq!(results.len(), 2);
    assert_eq!(results[0], Err(OpError::SourceDoesNotExist));
    assert!(results[1].is_ok());

    let mut post_ops = FileOperations::rooted_at("/");
    assert!(hermit.nuke_shell(&mut post_ops, "ordered").is_ok());
}

#[test]
fn init_then_create_links_then_nuke() {
    let root = "/tmp/hermit_links/.hermit-config";
    let home = "/tmp/hermit_links/home";
    let config = Config {
        root_path: String::from(root),
        allowed_shell_names: vec!["default".to_owned()],
        current_shell: "default".to_owned(),
    };
    let hermit = Hermit::new(config);
    let mut pre_ops = FileOperations::rooted_at("/");
    let _ = hermit.nuke_shell(&mut pre_ops, "default");

    // materialize the storage directory: the repository initialization
    // creates it, together with the repository's own files inside
    let mut setup = FileOperations::rooted_at("/");
    hermit.init_shell(&mut setup, "default");
    let results = setup.commit();
    assert_eq!(results.len(), 1);
    assert!(results[0].is_ok());

    let shell = Shell::new("default", root);
    let file_ops = shell.create_links(home).unwrap();
    assert_eq!(file_ops.base_path, "/tmp/hermit_links/.hermit-config/shells/default");
    // every planned operation links a file inside the storage directory to
    // the same relative path under home
    assert!(file_ops.operations.len() > 0);
    let storage_prefix = "/tmp/hermit_links/.hermit-config/shells/default/";
    let home_prefix = "/tmp/hermit_links/home/";
    for op in &file_ops.operations {
        match op {
            Op::Link(source, destination) => {
                assert!(source.starts_with(storage_prefix));
                assert!(destination.starts_with(home_prefix));
                assert_eq!(
                    &source[storage_prefix.len()..],
                    &destination[home_prefix.len()..]
                );
            }
            Op::GitInit(path) => panic!("unexpected staged operation for {}", path),
        }
    }

    // removal takes the whole storage directory with it: planning links
    // afterwards fails, because there is nothing left to walk
    let mut post_ops = FileOperations::rooted_at("/");
    assert!(hermit.nuke_shell(&mut post_ops, "default").is_ok());
    assert!(shell.create_links(home).is_err());
}
