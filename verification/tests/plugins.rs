use worker_supervisor::command::{
    del_plugins, get_plugins, greet, removal_reply, upload_plugin, upload_reply, DescriptorFile,
    PLUGIN_ADDED,
};
use worker_supervisor::error::SupervisionError;
use worker_supervisor::plugin::{descriptor_text, is_descriptor, FileOp, PluginDirs, PluginItem};

fn dirs() -> PluginDirs {
    PluginDirs { conf_dir: "plugins/conf".to_string(), bin_dir: "plugins/bin".to_string() }
}

fn item(name: &str, privilege: u64) -> PluginItem {
    PluginItem { name: name.to_string(), privilege: serde_json::Number::from(privilege), filename: None }
}

fn write(path: &str, contents: &[u8]) -> FileOp {
    FileOp::Write { path: path.to_string(), contents: contents.to_vec() }
}

fn remove(path: &str) -> FileOp {
    FileOp::Remove { path: path.to_string() }
}

#[test]
fn greet_greets_by_name() {
    assert_eq!(greet("Ada"), "Hello, Ada! You've been greeted from Rust!");
    assert_eq!(greet(""), "Hello, ! You've been greeted from Rust!");
    assert_eq!(greet("世界"), "Hello, 世界! You've been greeted from Rust!");
}

#[test]
fn descriptors_are_the_files_with_the_json_extension() {
    assert!(is_descriptor("echo.json"));
    assert!(is_descriptor("a.json"));
    assert!(is_descriptor("echo.v2.json"));
    assert!(is_descriptor("..json"));
    assert!(is_descriptor("插件.json"));
    assert!(!is_descriptor(".json"));
    assert!(!is_descriptor("json"));
    assert!(!is_descriptor("echo.JSON"));
    assert!(!is_descriptor("echo.json.bak"));
    assert!(!is_descriptor("echo.dll"));
    assert!(!is_descriptor("echojson"));
    assert!(!is_descriptor(""));
}

#[test]
fn descriptor_text_is_all_lowercase() {
    assert_eq!(
        descriptor_text("{\"Name\": \"Echo\", \"PRIVILEGE\": 3}"),
        "{\"name\": \"echo\", \"privilege\": 3}"
    );
    assert_eq!(descriptor_text("already lower"), "already lower");
    assert_eq!(descriptor_text("ÀÉÎ"), "àéî");
    assert_eq!(descriptor_text(""), "");
}

#[test]
fn uploaded_libraries_go_to_the_bin_directory_and_the_rest_to_conf() {
    let dirs = dirs();
    assert_eq!(dirs.upload_path("echo.dll"), "plugins/bin/echo.dll");
    assert_eq!(dirs.upload_path("echo.json"), "plugins/conf/echo.json");
    assert_eq!(dirs.upload_path("echo.DLL"), "plugins/conf/echo.DLL");
    assert_eq!(dirs.upload_path("echo.dll.txt"), "plugins/conf/echo.dll.txt");
    assert_eq!(dirs.upload_path(".dll"), "plugins/bin/.dll");
    assert_eq!(dirs.upload_path("dll"), "plugins/conf/dll");
    assert_eq!(dirs.upload_path(""), "plugins/conf/");
}

#[test]
fn upload_writes_the_descriptor_and_then_the_library() {
    let change = upload_plugin(&dirs(), b"{}".to_vec(), b"MZ".to_vec(), "echo.json".to_string());
    assert_eq!(change.workers(), vec!["wrapper".to_string()]);
    assert!(!change.is_complete());
    assert_eq!(change.failure(), None);
    assert_eq!(change.next_step(), Some(&write("plugins/conf/echo.json", b"{}")));
    let mut change = change;
    change.step_done(Ok(()));
    assert_eq!(change.next_step(), Some(&write("plugins/bin/echo.dll", b"MZ")));
    assert!(!change.is_complete());
    change.step_done(Ok(()));
    assert_eq!(change.next_step(), None);
    assert!(change.is_complete());
    assert_eq!(upload_reply(&change, &Ok(())), Ok("插件添加成功！".to_string()));
    assert_eq!(PLUGIN_ADDED, "插件添加成功！");
}

#[test]
fn upload_under_a_name_without_json_writes_both_files_to_one_path() {
    let mut change = upload_plugin(&dirs(), b"a".to_vec(), b"b".to_vec(), "echo.txt".to_string());
    assert_eq!(change.next_step(), Some(&write("plugins/conf/echo.txt", b"a")));
    change.step_done(Ok(()));
    assert_eq!(change.next_step(), Some(&write("plugins/conf/echo.txt", b"b")));
}

#[test]
fn upload_replaces_every_json_in_the_name() {
    let mut change =
        upload_plugin(&dirs(), Vec::new(), Vec::new(), "my.json.echo.json".to_string());
    assert_eq!(change.next_step(), Some(&write("plugins/conf/my.json.echo.json", b"")));
    change.step_done(Ok(()));
    assert_eq!(change.next_step(), Some(&write("plugins/bin/my.dll.echo.dll", b"")));
}

#[test]
fn failed_descriptor_write_ends_the_upload() {
    let mut change = upload_plugin(&dirs(), b"{}".to_vec(), b"MZ".to_vec(), "echo.json".to_string());
    change.step_done(Err("disk full".to_string()));
    assert_eq!(change.next_step(), None);
    assert!(!change.is_complete());
    assert_eq!(change.failure(), Some(&"disk full".to_string()));
    change.step_done(Ok(()));
    change.step_done(Err("later".to_string()));
    assert_eq!(change.failure(), Some(&"disk full".to_string()));
    assert_eq!(change.next_step(), None);
    assert_eq!(upload_reply(&change, &Ok(())), Err("disk full".to_string()));
    assert_eq!(
        upload_reply(&change, &Err(SupervisionError::Launch("wrapper".to_string()))),
        Err("disk full".to_string())
    );
}

#[test]
fn failed_library_write_is_answered_with_its_reason() {
    let mut change = upload_plugin(&dirs(), b"{}".to_vec(), b"MZ".to_vec(), "echo.json".to_string());
    change.step_done(Ok(()));
    change.step_done(Err("permission denied".to_string()));
    assert_eq!(change.next_step(), None);
    assert_eq!(upload_reply(&change, &Ok(())), Err("permission denied".to_string()));
    assert_eq!(
        upload_reply(&change, &Err(SupervisionError::MutationFailed)),
        Err("permission denied".to_string())
    );
}

#[test]
fn failed_restart_is_answered_with_its_description() {
    let mut change = upload_plugin(&dirs(), b"{}".to_vec(), b"MZ".to_vec(), "echo.json".to_string());
    assert_eq!(
        upload_reply(&change, &Err(SupervisionError::UnknownWorker("wrapper".to_string()))),
        Err("unknown worker: wrapper".to_string())
    );
    assert_eq!(
        upload_reply(&change, &Err(SupervisionError::ProcessControl("wrapper".to_string()))),
        Err("failed to stop worker: wrapper".to_string())
    );
    change.step_done(Ok(()));
    change.step_done(Ok(()));
    assert_eq!(
        upload_reply(&change, &Err(SupervisionError::Launch("wrapper".to_string()))),
        Err("failed to start worker: wrapper".to_string())
    );
    assert_eq!(
        upload_reply(&change, &Err(SupervisionError::MutationFailed)),
        Ok("插件添加成功！".to_string())
    );
}

#[test]
fn upload_that_was_not_carried_out_is_answered_with_the_empty_text() {
    let mut change = upload_plugin(&dirs(), b"{}".to_vec(), b"MZ".to_vec(), "echo.json".to_string());
    assert_eq!(upload_reply(&change, &Ok(())), Ok(String::new()));
    change.step_done(Ok(()));
    assert_eq!(upload_reply(&change, &Ok(())), Ok(String::new()));
    assert_eq!(upload_reply(&change, &Err(SupervisionError::MutationFailed)), Ok(String::new()));
}

#[test]
fn removal_removes_the_descriptor_and_then_the_library() {
    let mut change = del_plugins(&dirs(), "echo.json".to_string());
    assert_eq!(change.workers(), vec!["wrapper".to_string()]);
    assert_eq!(change.next_step(), Some(&remove("plugins/conf/echo.json")));
    change.step_done(Ok(()));
    assert_eq!(change.next_step(), Some(&remove("plugins/bin/echo.dll")));
    change.step_done(Ok(()));
    assert_eq!(change.next_step(), None);
    assert!(change.is_complete());
    assert_eq!(removal_reply(&change, &Ok(())), "");
}

#[test]
fn removal_of_a_library_name_looks_in_both_directories() {
    let mut change = del_plugins(&dirs(), "echo.dll".to_string());
    assert_eq!(change.next_step(), Some(&remove("plugins/conf/echo.dll")));
    change.step_done(Ok(()));
    assert_eq!(change.next_step(), Some(&remove("plugins/bin/echo.dll")));
}

#[test]
fn failed_removal_is_answered_with_its_reason() {
    let mut change = del_plugins(&dirs(), "echo.json".to_string());
    change.step_done(Err("no such file".to_string()));
    assert_eq!(change.next_step(), None);
    assert_eq!(removal_reply(&change, &Ok(())), "no such file");

    let mut change = del_plugins(&dirs(), "echo.json".to_string());
    change.step_done(Ok(()));
    change.step_done(Err("library in use".to_string()));
    assert_eq!(removal_reply(&change, &Ok(())), "library in use");
    assert_eq!(
        removal_reply(&change, &Err(SupervisionError::Launch("wrapper".to_string()))),
        "library in use"
    );
}

#[test]
fn removal_around_a_failed_restart_is_answered_with_the_failure() {
    let mut change = del_plugins(&dirs(), "echo.json".to_string());
    assert_eq!(
        removal_reply(&change, &Err(SupervisionError::UnknownWorker("wrapper".to_string()))),
        "unknown worker: wrapper"
    );
    assert_eq!(removal_reply(&change, &Err(SupervisionError::MutationFailed)), "");
    change.step_done(Ok(()));
    change.step_done(Ok(()));
    assert_eq!(
        removal_reply(&change, &Err(SupervisionError::Launch("wrapper".to_string()))),
        "failed to start worker: wrapper"
    );
    assert_eq!(
        removal_reply(&change, &Err(SupervisionError::ProcessControl("wrapper".to_string()))),
        "failed to stop worker: wrapper"
    );
}

#[test]
fn plugins_are_listed_in_the_order_found_with_their_file_names() {
    let found = vec![
        DescriptorFile { file_name: "echo.json".to_string(), parsed: Ok(item("echo", 1)) },
        DescriptorFile { file_name: "readme.txt".to_string(), parsed: Err("not json".to_string()) },
        DescriptorFile { file_name: "admin.json".to_string(), parsed: Ok(item("admin", 9)) },
        DescriptorFile { file_name: "conf".to_string(), parsed: Ok(item("stray", 0)) },
    ];
    let plugins = get_plugins(found).unwrap();
    assert_eq!(
        plugins,
        vec![
            PluginItem {
                name: "echo".to_string(),
                privilege: serde_json::Number::from(1u64),
                filename: Some("echo.json".to_string()),
            },
            PluginItem {
                name: "admin".to_string(),
                privilege: serde_json::Number::from(9u64),
                filename: Some("admin.json".to_string()),
            },
        ]
    );
}

#[test]
fn file_name_of_the_descriptor_replaces_the_one_it_states() {
    let mut stated = item("echo", 1);
    stated.filename = Some("elsewhere.json".to_string());
    let found = vec![DescriptorFile { file_name: "echo.json".to_string(), parsed: Ok(stated) }];
    let plugins = get_plugins(found).unwrap();
    assert_eq!(plugins.len(), 1);
    assert_eq!(plugins[0].filename, Some("echo.json".to_string()));
    assert_eq!(plugins[0].name, "echo");
    assert_eq!(plugins[0].privilege, serde_json::Number::from(1u64));
}

#[test]
fn first_descriptor_that_cannot_be_parsed_fails_the_listing() {
    let found = vec![
        DescriptorFile { file_name: "echo.json".to_string(), parsed: Ok(item("echo", 1)) },
        DescriptorFile { file_name: "bad.json".to_string(), parsed: Err("missing field".to_string()) },
        DescriptorFile { file_name: "worse.json".to_string(), parsed: Err("not even json".to_string()) },
    ];
    assert_eq!(get_plugins(found), Err("missing field".to_string()));
}

#[test]
fn no_files_give_no_plugins() {
    assert_eq!(get_plugins(Vec::new()), Ok(Vec::new()));
    let only_strays =
        vec![DescriptorFile { file_name: "notes.md".to_string(), parsed: Err("?".to_string()) }];
    assert_eq!(get_plugins(only_strays), Ok(Vec::new()));
}

#[test]
fn negative_privilege_is_carried_through() {
    let found = vec![DescriptorFile {
        file_name: "odd.json".to_string(),
        parsed: Ok(PluginItem {
            name: "odd".to_string(),
            privilege: serde_json::Number::from(-7i64),
            filename: None,
        }),
    }];
    let plugins = get_plugins(found).unwrap();
    assert_eq!(plugins[0].privilege.as_i64(), Some(-7));
}
