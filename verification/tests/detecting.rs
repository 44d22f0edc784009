use yt_dlp_proxy::processes::{
    find_running_copy, is_running_copy, running_processes, target_file_name, ProcessEntry,
};

fn entry(pid: u32, name: &str, exe_path: Option<&str>) -> ProcessEntry {
    ProcessEntry { pid, name: name.to_string(), exe_path: exe_path.map(|p| p.to_string()) }
}

#[test]
fn target_is_the_file_name_in_lower_case() {
    assert_eq!(target_file_name("/Opt/Tools/YT-DLP.exe"), "yt-dlp.exe");
    assert_eq!(target_file_name("Tool"), "tool");
    assert_eq!(target_file_name("/a/b/ÄBC.EXE"), "Äbc.exe");
}

#[test]
fn target_without_a_file_name_is_the_managed_executable() {
    assert_eq!(target_file_name("/"), "yt-dlp.exe");
    assert_eq!(target_file_name(""), "yt-dlp.exe");
    assert_eq!(target_file_name("/a/.."), "yt-dlp.exe");
}

#[test]
fn copy_is_found_by_the_file_name_of_its_image() {
    let processes = vec![
        entry(1, "init", Some("/sbin/init")),
        entry(20, "something", Some("/opt/other/YT-DLP.EXE")),
    ];
    assert!(find_running_copy(&processes, "/opt/app/tools/yt-dlp.exe", 99));
}

#[test]
fn copy_is_found_by_its_name() {
    let processes = vec![entry(1, "init", None), entry(20, "Yt-Dlp.exe", None)];
    assert!(find_running_copy(&processes, "/opt/app/tools/yt-dlp.exe", 99));
    let processes = vec![entry(20, "yt-dlp.exe", Some("/usr/bin/python3"))];
    assert!(find_running_copy(&processes, "/opt/app/tools/YT-DLP.EXE", 99));
}

#[test]
fn own_process_is_left_aside() {
    let processes = vec![entry(99, "yt-dlp.exe", Some("/opt/app/tools/yt-dlp.exe"))];
    assert!(!find_running_copy(&processes, "/opt/app/tools/yt-dlp.exe", 99));
    assert!(find_running_copy(&processes, "/opt/app/tools/yt-dlp.exe", 98));
    let processes = vec![
        entry(99, "yt-dlp.exe", Some("/opt/app/tools/yt-dlp.exe")),
        entry(100, "yt-dlp.exe", Some("/opt/app/tools/yt-dlp.exe")),
    ];
    assert!(find_running_copy(&processes, "/opt/app/tools/yt-dlp.exe", 99));
}

#[test]
fn part_of_a_name_is_no_match() {
    let processes = vec![
        entry(1, "yt-dlp.exe.bak", Some("/opt/yt-dlp.exe.d/run")),
        entry(2, "my-yt-dlp.exe", Some("/opt/my-yt-dlp.exe")),
        entry(3, "yt-dlp", Some("/opt/yt-dlp")),
        entry(4, "", Some("")),
        entry(5, "/opt/app/tools/yt-dlp.exe", None),
    ];
    assert!(!find_running_copy(&processes, "/opt/app/tools/yt-dlp.exe", 99));
}

#[test]
fn empty_table_holds_no_copy() {
    assert!(!find_running_copy(&[].to_vec(), "/opt/app/tools/yt-dlp.exe", 99));
}

#[test]
fn single_process_is_judged_by_pid_image_and_name() {
    let target = "yt-dlp.exe".to_string();
    assert!(is_running_copy(&entry(1, "x", Some("/a/YT-dlp.EXE")), &target, 2));
    assert!(is_running_copy(&entry(1, "YT-DLP.exe", Some("/a/b")), &target, 2));
    assert!(!is_running_copy(&entry(2, "yt-dlp.exe", Some("/a/yt-dlp.exe")), &target, 2));
    assert!(!is_running_copy(&entry(1, "x", Some("/a/yt-dlp.exe/")), &"x.exe".to_string(), 2));
    assert!(!is_running_copy(&entry(1, "x", None), &target, 2));
}

#[test]
fn target_is_compared_as_it_is_given() {
    let upper = "YT-DLP.EXE".to_string();
    assert!(!is_running_copy(&entry(1, "yt-dlp.exe", None), &upper, 2));
}

#[test]
fn the_machine_shows_processes() {
    let processes = running_processes();
    assert!(!processes.is_empty());
    assert!(processes.iter().any(|p| p.pid != 0));
}

#[test]
fn process_of_the_machine_is_found_by_its_image() {
    let processes = running_processes();
    let with_image: Vec<&ProcessEntry> = processes
        .iter()
        .filter(|p| p.exe_path.as_deref().map(|path| !path.is_empty()).unwrap_or(false))
        .collect();
    assert!(!with_image.is_empty());
    let chosen = with_image
        .iter()
        .find(|p| p.exe_path.as_deref().unwrap().contains("detecting"))
        .unwrap_or(&with_image[0]);
    let path = chosen.exe_path.clone().unwrap();
    assert!(find_running_copy(&processes, &path, 0));
    assert!(yt_dlp_proxy::Executor::is_yt_dlp_running(&path, 0));
    assert!(yt_dlp_proxy::Executor::is_yt_dlp_running(&path.to_ascii_uppercase(), 0));
}
