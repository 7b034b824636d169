use agentnotify_desktop::testkit::{PREFERRED_TEMP_ROOT, SequenceIdGenerator, choose_temp_root};

#[test]
fn environment_override_takes_priority() {
    let override_dir = String::from(r"C:\Temp\agentnotify-test-temp");
    assert_eq!(
        choose_temp_root(Some(override_dir.clone()), true, String::from(r"C:\Windows\Temp")),
        override_dir
    );
}

#[test]
fn preferred_root_is_used_when_the_directory_exists() {
    assert_eq!(
        choose_temp_root(None, true, String::from(r"C:\Windows\Temp")),
        String::from(PREFERRED_TEMP_ROOT)
    );
}

#[test]
fn system_temp_is_the_last_resort() {
    let system_temp = String::from(r"C:\Windows\Temp");
    assert_eq!(choose_temp_root(None, false, system_temp.clone()), system_temp);
}

#[test]
fn blank_override_falls_back_instead_of_returning_an_empty_path() {
    let system_temp = String::from(r"C:\Windows\Temp");
    assert_eq!(choose_temp_root(Some(String::new()), false, system_temp.clone()), system_temp);
}

#[test]
fn blank_override_prefers_the_local_root_when_present() {
    assert_eq!(
        choose_temp_root(Some(String::new()), true, String::from(r"C:\Windows\Temp")),
        String::from(r"D:\Temp")
    );
}

#[test]
fn sequence_ids_count_up_from_one() {
    let mut ids = SequenceIdGenerator::new();
    assert_eq!(ids.next_id(), "generated-1");
    assert_eq!(ids.next_id(), "generated-2");
    assert_eq!(ids.next_id(), "generated-3");
}
